//! Strings: concatenation, comparison, splitting and decimal numerals.
use vstd::prelude::*;

verus! {

/// `String::push` appends one character.
pub assume_specification[ std::string::String::push ](s: &mut std::string::String, c: char)
    ensures
        final(s)@ == old(s)@.push(c),
;

/// The texts that a sequence of strings holds.
pub open spec fn texts(strings: Seq<String>) -> Seq<Seq<char>> {
    Seq::new(strings.len(), |i: int| strings[i]@)
}

/// The character at a place.
pub open spec fn char_at(s: Seq<char>, i: int) -> char {
    s[i]
}

/// The text that an optional string holds.
pub open spec fn opt_text(s: Option<String>) -> Option<Seq<char>> {
    match s {
        Some(s) => Some(s@),
        None => None,
    }
}

/// The parts one after another, with `sep` between each two.
pub open spec fn joined(parts: Seq<Seq<char>>, sep: Seq<char>) -> Seq<char>
    decreases parts.len(),
{
    if parts.len() == 0 {
        Seq::empty()
    } else if parts.len() == 1 {
        parts[0]
    } else {
        joined(parts.drop_last(), sep) + sep + parts.last()
    }
}

/// The pieces of `s` between the separators `sep`: always one more than there are separators.
pub open spec fn split_at(s: Seq<char>, sep: char) -> Seq<Seq<char>>
    decreases s.len(),
{
    if s.len() == 0 {
        seq![Seq::empty()]
    } else {
        let before = split_at(s.drop_last(), sep);
        if s.last() == sep {
            before.push(Seq::empty())
        } else {
            before.drop_last().push(before.last().push(s.last()))
        }
    }
}

/// The decimal digit for a number below ten.
pub open spec fn digit(n: nat) -> char {
    if n == 0 {
        '0'
    } else if n == 1 {
        '1'
    } else if n == 2 {
        '2'
    } else if n == 3 {
        '3'
    } else if n == 4 {
        '4'
    } else if n == 5 {
        '5'
    } else if n == 6 {
        '6'
    } else if n == 7 {
        '7'
    } else if n == 8 {
        '8'
    } else {
        '9'
    }
}

/// The decimal numeral of a natural number, without leading zeros.
pub open spec fn decimal(n: nat) -> Seq<char>
    decreases n,
{
    if n < 10 {
        seq![digit(n)]
    } else {
        decimal(n / 10).push(digit(n % 10))
    }
}

/// The separators split a text into at least one piece.
pub proof fn lemma_split_nonempty(s: Seq<char>, sep: char)
    ensures
        split_at(s, sep).len() >= 1,
    decreases s.len(),
{
    if s.len() > 0 {
        lemma_split_nonempty(s.drop_last(), sep);
    }
}

/// Appending a last piece to a joined text.
proof fn lemma_joined_push(parts: Seq<Seq<char>>, last: Seq<char>, sep: Seq<char>)
    requires
        parts.len() > 0,
    ensures
        joined(parts.push(last), sep) == joined(parts, sep) + sep + last,
{
    assert(parts.push(last).drop_last() == parts);
}

/// Extending the last piece extends the joined text.
proof fn lemma_joined_extend(parts: Seq<Seq<char>>, c: char, sep: Seq<char>)
    requires
        parts.len() > 0,
    ensures
        joined(parts.drop_last().push(parts.last().push(c)), sep) == joined(parts, sep).push(c),
{
    let init = parts.drop_last();
    assert(init.push(parts.last().push(c)).drop_last() == init);
    if parts.len() > 1 {
        assert((joined(init, sep) + sep + parts.last()).push(c) == joined(init, sep) + sep
            + parts.last().push(c));
    }
}

/// Splitting loses nothing: joining the pieces with the separator gives the text back.
pub proof fn lemma_join_split(s: Seq<char>, sep: char)
    ensures
        joined(split_at(s, sep), seq![sep]) == s,
    decreases s.len(),
{
    if s.len() > 0 {
        let init = s.drop_last();
        lemma_join_split(init, sep);
        lemma_split_nonempty(init, sep);
        let before = split_at(init, sep);
        assert(s == init.push(s.last()));
        if s.last() == sep {
            lemma_joined_push(before, Seq::empty(), seq![sep]);
            assert(init + seq![sep] + Seq::<char>::empty() == s);
        } else {
            lemma_joined_extend(before, s.last(), seq![sep]);
        }
    } else {
        assert(joined(seq![Seq::<char>::empty()], seq![sep]) == s);
    }
}

/// No piece holds a separator.
pub proof fn lemma_split_pieces(s: Seq<char>, sep: char, i: int)
    requires
        0 <= i < split_at(s, sep).len(),
    ensures
        !split_at(s, sep)[i].contains(sep),
    decreases s.len(),
{
    if s.len() > 0 {
        let init = s.drop_last();
        let before = split_at(init, sep);
        lemma_split_nonempty(init, sep);
        if s.last() == sep {
            if i < before.len() {
                lemma_split_pieces(init, sep, i);
            }
        } else {
            lemma_split_pieces(init, sep, i);
            if i == before.len() - 1 {
                let piece = before.last();
                assert(!piece.contains(sep));
                assert forall|j: int| 0 <= j < piece.push(s.last()).len() implies piece.push(
                    s.last(),
                )[j] != sep by {
                    if j < piece.len() {
                        assert(piece[j] == piece.push(s.last())[j]);
                    }
                }
            }
        }
    }
}

/// What follows the last separator is the last piece.
proof fn lemma_split_last(a: Seq<char>, b: Seq<char>, sep: char)
    requires
        !b.contains(sep),
    ensures
        split_at(a + seq![sep] + b, sep) == split_at(a, sep).push(b),
    decreases b.len(),
{
    let whole = a + seq![sep] + b;
    if b.len() == 0 {
        assert(whole.drop_last() == a);
        assert(whole.last() == sep);
        assert(b == Seq::<char>::empty());
    } else {
        let init = b.drop_last();
        assert forall|j: int| 0 <= j < init.len() implies init[j] != sep by {
            assert(b[j] == init[j]);
        }
        lemma_split_last(a, init, sep);
        assert(whole.drop_last() == a + seq![sep] + init);
        assert(b[b.len() - 1] != sep);
        assert(whole.last() == b.last());
        assert(init.push(b.last()) == b);
        assert(split_at(a, sep).push(init).drop_last() == split_at(a, sep));
    }
}

/// A text without separators is one piece.
proof fn lemma_split_one(b: Seq<char>, sep: char)
    requires
        !b.contains(sep),
    ensures
        split_at(b, sep) == seq![b],
    decreases b.len(),
{
    if b.len() == 0 {
        assert(b == Seq::<char>::empty());
    } else {
        let init = b.drop_last();
        assert forall|j: int| 0 <= j < init.len() implies init[j] != sep by {
            assert(b[j] == init[j]);
        }
        lemma_split_one(init, sep);
        assert(b[b.len() - 1] != sep);
        assert(init.push(b.last()) == b);
        assert(split_at(b, sep) == seq![b]);
    }
}

/// Pieces without separators that are joined are split into the same pieces again.
pub proof fn lemma_split_join(parts: Seq<Seq<char>>, sep: char)
    requires
        parts.len() > 0,
        forall|i: int| 0 <= i < parts.len() ==> !(#[trigger] parts[i]).contains(sep),
    ensures
        split_at(joined(parts, seq![sep]), sep) == parts,
    decreases parts.len(),
{
    if parts.len() == 1 {
        lemma_split_one(parts[0], sep);
        assert(seq![parts[0]] == parts);
    } else {
        let init = parts.drop_last();
        assert forall|i: int| 0 <= i < init.len() implies !(#[trigger] init[i]).contains(sep) by {
            assert(init[i] == parts[i]);
        }
        lemma_split_join(init, sep);
        assert(!parts[parts.len() - 1].contains(sep));
        lemma_split_last(joined(init, seq![sep]), parts.last(), sep);
        assert(init.push(parts.last()) == parts);
    }
}

/// Whether two texts are the same.
pub fn text_eq(a: &str, b: &str) -> (r: bool)
    ensures
        r == (a@ == b@),
{
    let left: String = a.to_owned();
    let right: String = b.to_owned();
    left == right
}

/// `a` followed by `b`.
pub fn cat2(a: &str, b: &str) -> (r: String)
    ensures
        r@ == a@ + b@,
{
    let mut s: String = a.to_owned();
    s.append(b);
    s
}

/// `a`, `b` and `c`, one after another.
pub fn cat3(a: &str, b: &str, c: &str) -> (r: String)
    ensures
        r@ == a@ + b@ + c@,
{
    let mut s: String = cat2(a, b);
    s.append(c);
    s
}

/// `a` to `d`, one after another.
pub fn cat4(a: &str, b: &str, c: &str, d: &str) -> (r: String)
    ensures
        r@ == a@ + b@ + c@ + d@,
{
    let mut s: String = cat3(a, b, c);
    s.append(d);
    s
}

/// `a` to `e`, one after another.
pub fn cat5(a: &str, b: &str, c: &str, d: &str, e: &str) -> (r: String)
    ensures
        r@ == a@ + b@ + c@ + d@ + e@,
{
    let mut s: String = cat4(a, b, c, d);
    s.append(e);
    s
}

/// The characters of a text.
pub fn chars_of(s: &str) -> (r: Vec<char>)
    ensures
        r@ == s@,
{
    let mut r: Vec<char> = Vec::new();
    let n: usize = s.unicode_len();
    let mut i: usize = 0;
    while i < n
        invariant
            n == s@.len(),
            i <= n,
            r@ == s@.take(i as int),
        decreases n - i,
    {
        r.push(s.get_char(i));
        i = i + 1;
        assert(s@.take(i as int) == s@.take(i as int - 1).push(s@[i as int - 1]));
    }
    assert(s@.take(n as int) == s@);
    r
}

/// The text made of the given characters.
pub fn text_of_chars(chars: &Vec<char>) -> (r: String)
    ensures
        r@ == chars@,
{
    let mut r: String = String::new();
    let mut i: usize = 0;
    while i < chars.len()
        invariant
            i <= chars.len(),
            r@ == chars@.take(i as int),
        decreases chars.len() - i,
    {
        r.push(chars[i]);
        i = i + 1;
        assert(chars@.take(i as int) == chars@.take(i as int - 1).push(chars@[i as int - 1]));
    }
    assert(chars@.take(chars.len() as int) == chars@);
    r
}

/// The parts one after another, with `sep` between each two.
pub fn join(parts: &Vec<String>, sep: &str) -> (r: String)
    ensures
        r@ == joined(texts(parts@), sep@),
{
    let mut r: String = String::new();
    let ghost all = texts(parts@);
    let mut i: usize = 0;
    while i < parts.len()
        invariant
            i <= parts.len(),
            all == texts(parts@),
            r@ == joined(all.take(i as int), sep@),
        decreases parts.len() - i,
    {
        let ghost before = all.take(i as int);
        if i > 0 {
            r.append(sep);
        }
        r.append(parts[i].as_str());
        i = i + 1;
        proof {
            assert(all.take(i as int) == before.push(parts@[i as int - 1]@));
            assert(all.take(i as int).drop_last() == before);
            if i == 1 {
                assert(r@ == parts@[0]@);
            }
        }
    }
    assert(all.take(parts.len() as int) == all);
    r
}

/// The pieces of a text between the separators.
pub fn split(s: &str, sep: char) -> (r: Vec<String>)
    ensures
        texts(r@) == split_at(s@, sep),
{
    let chars: Vec<char> = chars_of(s);
    let mut r: Vec<String> = Vec::new();
    let mut piece: String = String::new();
    let mut i: usize = 0;
    proof {
        assert(texts(r@).push(piece@) == split_at(s@.take(0), sep));
    }
    while i < chars.len()
        invariant
            chars@ == s@,
            i <= chars.len(),
            texts(r@).push(piece@) == split_at(s@.take(i as int), sep),
        decreases chars.len() - i,
    {
        let c: char = chars[i];
        let ghost before = texts(r@);
        let ghost old_piece = piece@;
        if c == sep {
            let mut done: String = String::new();
            std::mem::swap(&mut done, &mut piece);
            r.push(done);
            proof {
                assert(texts(r@) == before.push(old_piece));
            }
        } else {
            piece.push(c);
        }
        i = i + 1;
        proof {
            let now = s@.take(i as int);
            assert(now.drop_last() == s@.take(i as int - 1));
            assert(before.push(old_piece).drop_last() == before);
            assert(before.push(old_piece).last() == old_piece);
            assert(texts(r@).push(piece@) == split_at(now, sep));
        }
    }
    let ghost before = texts(r@);
    r.push(piece);
    proof {
        assert(s@.take(chars.len() as int) == s@);
        assert(texts(r@) == before.push(piece@));
    }
    r
}

/// The decimal digit for a number below ten.
pub fn digit_char(n: u64) -> (c: char)
    requires
        n < 10,
    ensures
        c == digit(n as nat),
{
    match n {
        0 => '0',
        1 => '1',
        2 => '2',
        3 => '3',
        4 => '4',
        5 => '5',
        6 => '6',
        7 => '7',
        8 => '8',
        _ => '9',
    }
}

/// The decimal numeral of a number.
pub fn decimal_text(n: u64) -> (r: String)
    ensures
        r@ == decimal(n as nat),
    decreases n,
{
    if n < 10 {
        let mut r: String = String::new();
        r.push(digit_char(n));
        r
    } else {
        let mut r: String = decimal_text(n / 10);
        r.push(digit_char(n % 10));
        r
    }
}

/// Whether a text stands somewhere in another one.
pub open spec fn within(text: Seq<char>, haystack: Seq<char>) -> bool {
    exists|i: int|
        0 <= i <= haystack.len() - text.len() && #[trigger] haystack.subrange(i, i + text.len())
            == text
}

/// A character with the case of an ASCII letter taken away.
pub open spec fn lower(c: char) -> char {
    if 'A' <= c <= 'Z' {
        ((c as u32) + 32) as char
    } else {
        c
    }
}

/// A text with the case of ASCII letters taken away.
pub open spec fn lowered(s: Seq<char>) -> Seq<char> {
    Seq::new(s.len(), |i: int| lower(char_at(s, i)))
}

/// A character with the case of an ASCII letter taken away.
fn lower_char(c: char) -> (r: char)
    ensures
        r == lower(c),
{
    if 'A' <= c && c <= 'Z' {
        ((c as u8) + 32) as char
    } else {
        c
    }
}

/// The characters of a text with the case of ASCII letters taken away.
fn lower_chars(s: &str) -> (r: Vec<char>)
    ensures
        r@ == lowered(s@),
{
    let chars: Vec<char> = chars_of(s);
    let mut r: Vec<char> = Vec::new();
    let mut i: usize = 0;
    while i < chars.len()
        invariant
            i <= chars.len(),
            chars@ == s@,
            r.len() == i,
            forall|j: int| 0 <= j < i ==> r@[j] == lower(char_at(s@, j)),
        decreases chars.len() - i,
    {
        r.push(lower_char(chars[i]));
        i = i + 1;
    }
    assert(r@ == lowered(s@));
    r
}

/// Whether a text stands at a place of another one.
fn stands_at(text: &Vec<char>, haystack: &Vec<char>, at: usize) -> (r: bool)
    requires
        at + text.len() <= haystack.len(),
    ensures
        r == (haystack@.subrange(at as int, at + text.len()) == text@),
{
    let mut i: usize = 0;
    while i < text.len()
        invariant
            i <= text.len(),
            at + text.len() <= haystack.len(),
            forall|j: int| 0 <= j < i ==> haystack@[at + j] == text@[j],
        decreases text.len() - i,
    {
        if haystack[at + i] != text[i] {
            proof {
                assert(haystack@.subrange(at as int, at + text.len())[i as int] != text@[i as int]);
            }
            return false;
        }
        i = i + 1;
    }
    assert(haystack@.subrange(at as int, at + text.len()) == text@);
    true
}

/// Whether a text stands somewhere in another one, whatever the case of the letters in that one.
pub fn contains_lowered(haystack: &str, text: &str) -> (r: bool)
    ensures
        r == within(text@, lowered(haystack@)),
{
    let lows: Vec<char> = lower_chars(haystack);
    let wanted: Vec<char> = chars_of(text);
    if wanted.len() > lows.len() {
        return false;
    }
    let last: usize = lows.len() - wanted.len();
    let mut i: usize = 0;
    while i <= last
        invariant
            i <= last + 1,
            last == lows.len() - wanted.len(),
            lows@ == lowered(haystack@),
            wanted@ == text@,
            forall|j: int|
                0 <= j < i ==> #[trigger] lows@.subrange(j, j + wanted@.len()) != wanted@,
        decreases last + 1 - i,
    {
        if stands_at(&wanted, &lows, i) {
            return true;
        }
        if i == last {
            return false;
        }
        i = i + 1;
    }
    false
}

/// Whether a character has the property `White_Space` of Unicode.
pub open spec fn is_white(c: char) -> bool {
    let n = c as u32;
    ||| 0x9 <= n <= 0xd
    ||| n == 0x20
    ||| n == 0x85
    ||| n == 0xa0
    ||| n == 0x1680
    ||| 0x2000 <= n <= 0x200a
    ||| n == 0x2028
    ||| n == 0x2029
    ||| n == 0x202f
    ||| n == 0x205f
    ||| n == 0x3000
}

/// A text without the white space at its start.
pub open spec fn trimmed_start(s: Seq<char>) -> Seq<char>
    decreases s.len(),
{
    if s.len() > 0 && is_white(s.first()) {
        trimmed_start(s.drop_first())
    } else {
        s
    }
}

/// A text without the white space at its end.
pub open spec fn trimmed_end(s: Seq<char>) -> Seq<char>
    decreases s.len(),
{
    if s.len() > 0 && is_white(s.last()) {
        trimmed_end(s.drop_last())
    } else {
        s
    }
}

/// A text without the white space at its ends.
pub open spec fn trimmed(s: Seq<char>) -> Seq<char> {
    trimmed_end(trimmed_start(s))
}

/// A text without the characters `c` at its end.
pub open spec fn without_end(s: Seq<char>, c: char) -> Seq<char>
    decreases s.len(),
{
    if s.len() > 0 && s.last() == c {
        without_end(s.drop_last(), c)
    } else {
        s
    }
}

/// A text without the characters `c` at its end.
pub fn trim_end(s: &str, c: char) -> (r: String)
    ensures
        r@ == without_end(s@, c),
{
    let mut chars: Vec<char> = chars_of(s);
    while chars.len() > 0 && chars[chars.len() - 1] == c
        invariant
            without_end(chars@, c) == without_end(s@, c),
        decreases chars.len(),
    {
        chars.pop();
    }
    text_of_chars(&chars)
}

/// A number in hexadecimal digits.
pub open spec fn hexadecimal(n: nat) -> Seq<char>
    decreases n,
{
    let digit = "0123456789abcdef"@[(n % 16) as int];
    if n < 16 {
        seq![digit]
    } else {
        hexadecimal(n / 16).push(digit)
    }
}

/// A character as it stands in a literal: printable ASCII as it is, but for quotes and
/// backslashes, and any other character behind a backslash.
pub open spec fn escaped_char(c: char) -> Seq<char> {
    if c == '\t' {
        "\\t"@
    } else if c == '\r' {
        "\\r"@
    } else if c == '\n' {
        "\\n"@
    } else if c == '\'' || c == '"' || c == '\\' {
        seq!['\\', c]
    } else if ' ' <= c <= '~' {
        seq![c]
    } else {
        "\\u{"@ + hexadecimal(c as nat) + "}"@
    }
}

/// A text with its characters as they stand in a literal.
pub open spec fn escaped(s: Seq<char>) -> Seq<char>
    decreases s.len(),
{
    if s.len() == 0 {
        Seq::empty()
    } else {
        escaped(s.drop_last()) + escaped_char(s.last())
    }
}

} // verus!
