//! What texts are made of, and what is found in them.
use vstd::prelude::*;

use crate::needle::{IntoNeedle, Needle};
use crate::text::{decimal_text, join, split, trim_end};
use crate::text;
use crate::types::IntoArcStr;

verus! {

/// The value of a digit.
pub open spec fn digit_value(c: char) -> int {
    c as int - '0' as int
}

/// The number that digits stand for, the last one being the ones.
pub open spec fn number_of(s: Seq<char>) -> int
    decreases s.len(),
{
    if s.len() == 0 {
        0
    } else {
        10 * number_of(s.drop_last()) + digit_value(s.last())
    }
}

proof fn lemma_decimal(n: nat)
    ensures
        number_of(text::decimal(n)) == n,
        text::decimal(n).len() > 0,
        forall|i: int|
            0 <= i < text::decimal(n).len() ==> '0' <= #[trigger] text::decimal(n)[i] <= '9',
        n > 0 ==> text::decimal(n)[0] != '0',
    decreases n,
{
    if n < 10 {
        let s = text::decimal(n);
        assert(s =~= seq![text::digit(n)]);
        assert(s.drop_last() =~= Seq::<char>::empty());
        assert(number_of(Seq::<char>::empty()) == 0);
    } else {
        lemma_decimal(n / 10);
        let before = text::decimal(n / 10);
        let s = text::decimal(n);
        assert(s == before.push(text::digit(n % 10)));
        assert(s.drop_last() =~= before);
        assert(s[0] == before[0]);
    }
}

/// The digits of a number stand for that number, and do not start with a zero but for zero itself.
pub proof fn law_decimal(n: u64, r: String)
    requires
        call_ensures(decimal_text, (n,), r),
    ensures
        number_of(r@) == n,
        r@ == text::decimal(n as nat),
        forall|i: int| 0 <= i < r@.len() ==> '0' <= #[trigger] r@[i] <= '9',
        n > 0 ==> r@[0] != '0',
        n == 0 ==> r@ == seq!['0'],
{
    lemma_decimal(n as nat);
}

/// What is left of a text without the same character at its end: the text up to there, and no more
/// of that character at the end.
pub proof fn law_trimmed_end(s: &str, c: char, r: String)
    requires
        call_ensures(trim_end, (s, c), r),
    ensures
        r@.len() <= s@.len(),
        r@ == s@.take(r@.len() as int),
        forall|i: int| r@.len() <= i < s@.len() ==> #[trigger] s@[i] == c,
        r@.len() > 0 ==> r@.last() != c,
{
    lemma_without_end(s@, c);
}

proof fn lemma_without_end(s: Seq<char>, c: char)
    ensures
        ({
            let r = text::without_end(s, c);
            &&& r.len() <= s.len()
            &&& r == s.take(r.len() as int)
            &&& forall|i: int| r.len() <= i < s.len() ==> #[trigger] s[i] == c
            &&& r.len() > 0 ==> r.last() != c
        }),
    decreases s.len(),
{
    if s.len() > 0 && s.last() == c {
        lemma_without_end(s.drop_last(), c);
        let r = text::without_end(s.drop_last(), c);
        assert(r =~= s.take(r.len() as int));
        assert forall|i: int| r.len() <= i < s.len() implies #[trigger] s[i] == c by {
            if i < s.len() - 1 {
                assert(s.drop_last()[i] == c);
            }
        }
    } else {
        assert(s =~= s.take(s.len() as int));
    }
}

/// To put together what was taken apart gives the text back, and none of the parts holds the
/// separator.
pub proof fn law_split_and_join(s: &str, c: char, one: &str, parts: Vec<String>, r: String)
    requires
        one@ == seq![c],
        call_ensures(split, (s, c), parts),
        call_ensures(join, (&parts, one), r),
    ensures
        r@ == s@,
        parts@.len() > 0,
        forall|i: int| 0 <= i < parts@.len() ==> !(#[trigger] parts@[i])@.contains(c),
{
    text::lemma_join_split(s@, c);
    text::lemma_split_nonempty(s@, c);
    let views = text::texts(parts@);
    assert(views.len() == parts@.len());
    assert forall|i: int| 0 <= i < parts@.len() implies !(#[trigger] parts@[i])@.contains(c) by {
        text::lemma_split_pieces(s@, c, i);
        assert(views[i] == parts@[i]@);
    }
}

/// `part` stands somewhere in `whole`.
pub open spec fn stands_in(part: Seq<char>, whole: Seq<char>) -> bool {
    exists|i: int|
        0 <= i <= whole.len() - part.len() && #[trigger] whole.subrange(i, i + part.len()) == part
}

/// A text with a blank before and behind it.
pub open spec fn with_blanks(t: Seq<char>) -> Seq<char> {
    seq![' '] + t + seq![' ']
}

/// A needle that cares for letters matches the whole text, a part of it, or a part between blanks.
pub proof fn law_matches(n: &Needle, haystack: &str, r: bool)
    requires
        call_ensures(Needle::is_match, (n, haystack), r),
        n.case_sensitive,
    ensures
        n.match_length is Full ==> (r <==> haystack@ == n.text@),
        n.match_length is Partial ==> (r <==> stands_in(n.text@, haystack@)),
        n.match_length is Word ==> (r <==> stands_in(
            with_blanks(n.text@),
            with_blanks(haystack@),
        )),
{
    reveal_strlit(" ");
    assert(" "@ =~= seq![' ']);
}

/// A needle that does not care for capitals matches as one that does, of the texts in small letters.
pub proof fn law_caseless(n: &Needle, haystack: &str, r: bool)
    requires
        call_ensures(Needle::is_match, (n, haystack), r),
        !n.case_sensitive,
    ensures
        ({
            let small = crate::needle::lowercase(n.text@);
            let low = crate::needle::lowercase(haystack@);
            &&& n.match_length is Full ==> (r <==> low == small)
            &&& n.match_length is Partial ==> (r <==> stands_in(small, low))
            &&& n.match_length is Word ==> (r <==> stands_in(with_blanks(small), with_blanks(low)))
        }),
{
    reveal_strlit(" ");
    assert(" "@ =~= seq![' ']);
}

/// A needle matches the whole text and cares for capitals until it is told otherwise, and each call
/// changes one of the two.
pub proof fn law_needles<S: IntoArcStr>(t: S, n: Needle)
    ensures
        forall|r: Needle| #[trigger] call_ensures(Needle::new::<S>, (t,), r)
            ==> r.text@ == t.text() && r.match_length is Full && r.case_sensitive,
        forall|r: Needle| #[trigger] call_ensures(Needle::partial, (n,), r)
            ==> r.match_length is Partial && r.text == n.text
            && r.case_sensitive == n.case_sensitive,
        forall|r: Needle| #[trigger] call_ensures(Needle::full, (n,), r)
            ==> r.match_length is Full && r.text == n.text && r.case_sensitive == n.case_sensitive,
        forall|r: Needle| #[trigger] call_ensures(Needle::word, (n,), r)
            ==> r.match_length is Word && r.text == n.text && r.case_sensitive == n.case_sensitive,
        forall|r: Needle| #[trigger] call_ensures(Needle::case_insensitive, (n,), r)
            ==> !r.case_sensitive && r.text == n.text && r.match_length == n.match_length,
        forall|r: Needle| #[trigger] call_ensures(Needle::case_sensitive, (n,), r)
            ==> r.case_sensitive && r.text == n.text && r.match_length == n.match_length,
{
}

/// A text that is held against another matches it where they are the same; a needle matches as
/// itself.
pub proof fn law_into_needle<'a>(
    a: &'a str,
    b: String,
    c: Needle,
    x: Needle,
    y: Needle,
    z: Needle,
    h: &str,
    p: bool,
    q: bool,
    s: bool,
    t: bool,
)
    requires
        call_ensures(<&'a str as IntoNeedle>::into_needle, (a,), x),
        call_ensures(<String as IntoNeedle>::into_needle, (b,), y),
        call_ensures(<Needle as IntoNeedle>::into_needle, (c,), z),
        call_ensures(Needle::is_match, (&x, h), p),
        call_ensures(Needle::is_match, (&y, h), q),
        call_ensures(Needle::is_match, (&z, h), s),
        call_ensures(Needle::is_match, (&c, h), t),
    ensures
        p <==> h@ == a@,
        q <==> h@ == b@,
        s == t,
        (&a).matches_with(h@) == p,
        (&b).matches_with(h@) == q,
        (&c).matches_with(h@) == t,
{
}

/// Texts are put together in their order, and nothing comes between them.
pub proof fn law_texts_are_joined(a: &str, b: &str, c: &str, d: &str, e: &str)
    ensures
        forall|r: bool| #[trigger] call_ensures(text::text_eq, (a, b), r) ==> r == (a@ == b@),
        forall|r: String| #[trigger]
            call_ensures(text::cat2, (a, b), r) ==> r@.len() == a@.len() + b@.len() && r@.take(
                a@.len() as int,
            ) == a@ && r@.skip(a@.len() as int) == b@,
        forall|r: String, s: String| #[trigger]
            call_ensures(text::cat3, (a, b, c), r) && #[trigger] call_ensures(text::cat2, (a, b), s)
                ==> r@ == s@ + c@,
        forall|r: String, s: String| #[trigger]
            call_ensures(text::cat4, (a, b, c, d), r) && #[trigger] call_ensures(
                text::cat3,
                (a, b, c),
                s,
            ) ==> r@ == s@ + d@,
        forall|r: String, s: String| #[trigger]
            call_ensures(text::cat5, (a, b, c, d, e), r) && #[trigger] call_ensures(
                text::cat4,
                (a, b, c, d),
                s,
            ) ==> r@ == s@ + e@,
        forall|r: Vec<char>| #[trigger] call_ensures(text::chars_of, (a,), r) ==> r@ == a@,
        forall|v: &Vec<char>, r: String| #[trigger]
            call_ensures(text::text_of_chars, (v,), r) ==> r@ == v@,
{
}

/// A text is in another one in lower case where it stands somewhere in it, once the ASCII letters of
/// the other one are in lower case.
pub proof fn law_contains_lowered(haystack: &str, wanted: &str, r: bool)
    requires
        call_ensures(text::contains_lowered, (haystack, wanted), r),
    ensures
        r <==> exists|i: int|
            0 <= i <= haystack@.len() - wanted@.len() && #[trigger] stands_lowered(
                haystack@,
                wanted@,
                i,
            ),
{
    let low = text::lowered(haystack@);
    if r {
        let i = choose|i: int|
            0 <= i <= low.len() - wanted@.len() && #[trigger] low.subrange(i, i + wanted@.len())
                == wanted@;
        assert forall|k: int| 0 <= k < wanted@.len() implies low_of(
            haystack@[i + k] as int,
            #[trigger] wanted@[k] as int,
        ) by {
            assert(low.subrange(i, i + wanted@.len())[k] == low[i + k]);
            assert(low[i + k] == text::lower(haystack@[i + k]));
        }
        assert(stands_lowered(haystack@, wanted@, i));
    }
    if exists|i: int|
        0 <= i <= haystack@.len() - wanted@.len() && #[trigger] stands_lowered(
            haystack@,
            wanted@,
            i,
        ) {
        let i = choose|i: int|
            0 <= i <= haystack@.len() - wanted@.len() && #[trigger] stands_lowered(
                haystack@,
                wanted@,
                i,
            );
        assert forall|k: int| 0 <= k < wanted@.len() implies low.subrange(i, i + wanted@.len())[k]
            == #[trigger] wanted@[k] by {
            assert(low[i + k] == text::lower(haystack@[i + k]));
            assert(low_of(haystack@[i + k] as int, wanted@[k] as int));
        }
        assert(low.subrange(i, i + wanted@.len()) =~= wanted@);
    }
}

/// The text stands at the place, where capital letters of ASCII count as small ones.
pub open spec fn stands_lowered(haystack: Seq<char>, wanted: Seq<char>, i: int) -> bool {
    forall|k: int|
        0 <= k < wanted.len() ==> low_of(haystack[i + k] as int, #[trigger] wanted[k] as int)
}

/// The second character is the first one, or the small letter of it.
pub open spec fn low_of(c: int, low: int) -> bool {
    low == if 65 <= c <= 90 {
        c + 32
    } else {
        c
    }
}

} // verus!
