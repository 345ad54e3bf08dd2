//! What a text is held against.
use crate::text;
use crate::types::{IntoArcStr, IntoTransfer};
use vstd::prelude::*;

verus! {

/// How much of a text must match.
#[derive(Debug, Clone, Copy, PartialEq, Eq, Structural)]
pub enum MatchLength {
    /// The whole text.
    Full,
    /// Any part of the text.
    Partial,
    /// A part of the text that stands between spaces, or at its ends.
    Word,
}

/// What a text is held against: another text, how much of the text must match it, and whether
/// lower and upper case differ.
#[derive(Debug)]
pub struct Needle {
    pub text: String,
    pub match_length: MatchLength,
    pub case_sensitive: bool,
}

/// A text between spaces.
pub open spec fn spaced(text: Seq<char>) -> Seq<char> {
    " "@ + text + " "@
}

/// What `str::to_lowercase` returns.
pub uninterp spec fn lowercase(s: Seq<char>) -> Seq<char>;

/// Whether a text matches another one, of the same case.
pub open spec fn matches(length: MatchLength, text: Seq<char>, haystack: Seq<char>) -> bool {
    match length {
        MatchLength::Full => haystack == text,
        MatchLength::Partial => text::within(text, haystack),
        MatchLength::Word => text::within(spaced(text), spaced(haystack)),
    }
}

/// `stringmatch::StringMatch::is_match` with `full()`: the two texts are the same.
#[verifier::external_body]
fn matches_full(text: &str, haystack: &str) -> (r: bool)
    ensures
        r == (haystack@ == text@),
{
    stringmatch::Needle::is_match(&stringmatch::StringMatch::new(text).full(), haystack)
}

/// `stringmatch::StringMatch::is_match` with `partial()`: the text stands somewhere in the
/// haystack.
#[verifier::external_body]
fn matches_partial(text: &str, haystack: &str) -> (r: bool)
    ensures
        r == text::within(text@, haystack@),
{
    stringmatch::Needle::is_match(&stringmatch::StringMatch::new(text).partial(), haystack)
}

/// `stringmatch::StringMatch::is_match` with `word()`: the text between spaces stands somewhere in
/// the haystack between spaces.
#[verifier::external_body]
fn matches_word(text: &str, haystack: &str) -> (r: bool)
    ensures
        r == text::within(spaced(text@), spaced(haystack@)),
{
    stringmatch::Needle::is_match(&stringmatch::StringMatch::new(text).word(), haystack)
}

/// `stringmatch::StringMatch::is_match` with `full()` and `case_insensitive()`: both texts are put in
/// lower case by `str::to_lowercase`, and must then be the same.
#[verifier::external_body]
fn matches_full_caseless(text: &str, haystack: &str) -> (r: bool)
    ensures
        r == matches(MatchLength::Full, lowercase(text@), lowercase(haystack@)),
{
    stringmatch::Needle::is_match(
        &stringmatch::StringMatch::new(text).full().case_insensitive(),
        haystack,
    )
}

/// `stringmatch::StringMatch::is_match` with `partial()` and `case_insensitive()`: both texts are put in
/// lower case by `str::to_lowercase`, and the one then stands somewhere in the other.
#[verifier::external_body]
fn matches_partial_caseless(text: &str, haystack: &str) -> (r: bool)
    ensures
        r == matches(MatchLength::Partial, lowercase(text@), lowercase(haystack@)),
{
    stringmatch::Needle::is_match(
        &stringmatch::StringMatch::new(text).partial().case_insensitive(),
        haystack,
    )
}

/// `stringmatch::StringMatch::is_match` with `word()` and `case_insensitive()`: both texts are put in
/// lower case by `str::to_lowercase`, and the one, between spaces, then stands
/// somewhere in the other, between spaces.
#[verifier::external_body]
fn matches_word_caseless(text: &str, haystack: &str) -> (r: bool)
    ensures
        r == matches(MatchLength::Word, lowercase(text@), lowercase(haystack@)),
{
    stringmatch::Needle::is_match(
        &stringmatch::StringMatch::new(text).word().case_insensitive(),
        haystack,
    )
}

impl Needle {
    /// Whether a text matches.
    pub open spec fn matches_text(&self, haystack: Seq<char>) -> bool {
        if self.case_sensitive {
            matches(self.match_length, self.text@, haystack)
        } else {
            matches(self.match_length, lowercase(self.text@), lowercase(haystack))
        }
    }

    /// A needle that matches that text only.
    pub fn new<S: IntoArcStr>(text: S) -> (r: Self)
        ensures
            r.text@ == text.text(),
            r.match_length == MatchLength::Full,
            r.case_sensitive,
    {
        Needle {
            text: IntoTransfer::into(text),
            match_length: MatchLength::Full,
            case_sensitive: true,
        }
    }

    /// Match any part of a text.
    pub fn partial(self) -> (r: Self)
        ensures
            r == (Needle { match_length: MatchLength::Partial, ..self }),
    {
        Needle { match_length: MatchLength::Partial, ..self }
    }

    /// Match a whole text.
    pub fn full(self) -> (r: Self)
        ensures
            r == (Needle { match_length: MatchLength::Full, ..self }),
    {
        Needle { match_length: MatchLength::Full, ..self }
    }

    /// Match whole words of a text.
    pub fn word(self) -> (r: Self)
        ensures
            r == (Needle { match_length: MatchLength::Word, ..self }),
    {
        Needle { match_length: MatchLength::Word, ..self }
    }

    /// Ignore case.
    pub fn case_insensitive(self) -> (r: Self)
        ensures
            r == (Needle { case_sensitive: false, ..self }),
    {
        Needle { case_sensitive: false, ..self }
    }

    /// Do not ignore case.
    pub fn case_sensitive(self) -> (r: Self)
        ensures
            r == (Needle { case_sensitive: true, ..self }),
    {
        Needle { case_sensitive: true, ..self }
    }

    /// Whether a text matches.
    pub fn is_match(&self, haystack: &str) -> (r: bool)
        ensures
            r == self.matches_text(haystack@),
    {
        let text: &str = self.text.as_str();
        if self.case_sensitive {
            match self.match_length {
                MatchLength::Full => matches_full(text, haystack),
                MatchLength::Partial => matches_partial(text, haystack),
                MatchLength::Word => matches_word(text, haystack),
            }
        } else {
            match self.match_length {
                MatchLength::Full => matches_full_caseless(text, haystack),
                MatchLength::Partial => matches_partial_caseless(text, haystack),
                MatchLength::Word => matches_word_caseless(text, haystack),
            }
        }
    }
}

impl Clone for Needle {
    fn clone(&self) -> (r: Self)
        ensures
            r == *self,
    {
        Needle {
            text: self.text.clone(),
            match_length: self.match_length,
            case_sensitive: self.case_sensitive,
        }
    }
}

/// A text matches itself, however much of it must match, and whether case is ignored or not.
pub proof fn lemma_matches_itself(needle: Needle)
    ensures
        needle.matches_text(needle.text@),
{
    let t = if needle.case_sensitive {
        needle.text@
    } else {
        lowercase(needle.text@)
    };
    assert(t.subrange(0, 0int + t.len()) == t);
    let s = spaced(t);
    assert(s.subrange(0, 0int + s.len()) == s);
}

/// What matches as a word matches as a part, and what matches in full matches as a word.
pub proof fn lemma_match_lengths(text: Seq<char>, haystack: Seq<char>)
    ensures
        matches(MatchLength::Full, text, haystack) ==> matches(MatchLength::Word, text, haystack),
        matches(MatchLength::Word, text, haystack) ==> matches(
            MatchLength::Partial,
            text,
            haystack,
        ),
{
    let t = spaced(text);
    let h = spaced(haystack);
    reveal_strlit(" ");
    if haystack == text {
        assert(h.subrange(0, 0int + t.len()) == t);
    }
    if text::within(t, h) {
        let i = choose|i: int|
            0 <= i <= h.len() - t.len() && #[trigger] h.subrange(i, i + t.len()) == t;
        assert(haystack.subrange(i, i + text.len()) == text) by {
            assert forall|k: int| 0 <= k < text.len() implies haystack[i + k] == text[k] by {
                assert(t[k + 1] == text[k]);
                assert(h.subrange(i, i + t.len())[k + 1] == h[i + k + 1]);
                assert(h[i + k + 1] == haystack[i + k]);
            }
        }
    }
}

/// What becomes a needle: a text becomes one that matches it only.
pub trait IntoNeedle: Sized {
    /// Whether a text matches.
    spec fn matches_with(&self, haystack: Seq<char>) -> bool;

    /// The needle.
    fn into_needle(self) -> (r: Needle)
        ensures
            forall|h: Seq<char>| #[trigger] r.matches_text(h) == self.matches_with(h),
    ;
}

impl IntoNeedle for Needle {
    open spec fn matches_with(&self, haystack: Seq<char>) -> bool {
        self.matches_text(haystack)
    }

    fn into_needle(self) -> (r: Needle) {
        self
    }
}

impl IntoNeedle for &str {
    open spec fn matches_with(&self, haystack: Seq<char>) -> bool {
        haystack == self@
    }

    fn into_needle(self) -> (r: Needle) {
        Needle::new(self)
    }
}

impl IntoNeedle for String {
    open spec fn matches_with(&self, haystack: Seq<char>) -> bool {
        haystack == self@
    }

    fn into_needle(self) -> (r: Needle) {
        Needle::new(self)
    }
}

} // verus!
