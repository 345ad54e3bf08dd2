//! Deriving components: the code that looks up the elements of a component's fields.
use crate::bytoken;
use crate::bytoken::{ByToken, ByTokens, Meta, MetaPath, TokenView, WaitOptions};
use crate::text;
use crate::text::{cat2, cat3, cat4, cat5, join, text_eq};
use vstd::prelude::*;

verus! {

/// The kinds of tokens.
pub enum Kind {
    Selector,
    Multi,
    NotEmpty,
    AllowEmpty,
    Single,
    First,
    IgnoreErrors,
    Description,
    Wait,
    NoWait,
    CustomFn,
}

/// The kind of a token.
pub open spec fn kind_of(t: TokenView) -> Kind {
    match t {
        TokenView::Multi => Kind::Multi,
        TokenView::NotEmpty => Kind::NotEmpty,
        TokenView::AllowEmpty => Kind::AllowEmpty,
        TokenView::Single => Kind::Single,
        TokenView::First => Kind::First,
        TokenView::IgnoreErrors => Kind::IgnoreErrors,
        TokenView::Description(_) => Kind::Description,
        TokenView::Wait(_, _) => Kind::Wait,
        TokenView::NoWait => Kind::NoWait,
        TokenView::CustomFn(_) => Kind::CustomFn,
        _ => Kind::Selector,
    }
}

/// Whether one of the tokens is of a kind.
pub open spec fn any_of(tokens: Seq<TokenView>, kind: Kind) -> bool {
    exists|t: TokenView| #[trigger] tokens.contains(t) && kind_of(t) == kind
}

/// The first place from `i` on of a token of a kind.
pub open spec fn first_place(tokens: Seq<TokenView>, kind: Kind, i: nat) -> Option<int>
    decreases tokens.len() - i,
{
    if i >= tokens.len() {
        None
    } else if kind_of(tokens[i as int]) == kind {
        Some(i as int)
    } else {
        first_place(tokens, kind, i + 1)
    }
}

/// The first token of a kind.
#[verifier::opaque]
pub open spec fn first_of(tokens: Seq<TokenView>, kind: Kind) -> Option<TokenView> {
    match first_place(tokens, kind, 0) {
        Some(p) => Some(tokens[p]),
        None => None,
    }
}

/// The tokens but for the first one of a kind.
#[verifier::opaque]
pub open spec fn without_first(tokens: Seq<TokenView>, kind: Kind) -> Seq<TokenView> {
    match first_place(tokens, kind, 0) {
        Some(p) => tokens.remove(p),
        None => tokens,
    }
}

/// Whether exactly one of the tokens is of a kind.
#[verifier::opaque]
pub open spec fn one_of(tokens: Seq<TokenView>, kind: Kind) -> bool {
    exists|p: int|
        #![trigger tokens[p]]
        0 <= p < tokens.len() && kind_of(tokens[p]) == kind && forall|q: int|
            0 <= q < tokens.len() && q != p ==> kind_of(#[trigger] tokens[q]) != kind
}

/// Whether `after` are the tokens of `before` but for those of a kind.
pub open spec fn taken(
    before: Seq<TokenView>,
    after: Seq<TokenView>,
    kind: Kind,
) -> bool {
    &&& bytoken::distinct(after)
    &&& forall|t: TokenView| #[trigger] after.contains(t) <==> before.contains(t) && kind_of(t) != kind
}

/// The code for a token that says what to look for.
pub open spec fn by_code(t: TokenView) -> Seq<char> {
    match t {
        TokenView::Id(s) => "By::Id("@ + s + ")"@,
        TokenView::Tag(s) => "By::Tag("@ + s + ")"@,
        TokenView::LinkText(s) => "By::LinkText("@ + s + ")"@,
        TokenView::Css(s) => "By::Css("@ + s + ")"@,
        TokenView::XPath(s) => "By::XPath("@ + s + ")"@,
        TokenView::Name(s) => "By::Name("@ + s + ")"@,
        TokenView::ClassName(s) => "By::ClassName("@ + s + ")"@,
        TokenView::Testid(s) => "By::Testid("@ + s + ")"@,
        _ => Seq::empty(),
    }
}

/// The code for a token that says what to look for, where it is one.
fn selector_code(t: &ByToken) -> (r: Option<String>)
    ensures
        match r {
            Some(s) => t@.is_selector() && s@ == by_code(t@),
            None => !t@.is_selector(),
        },
{
    match t {
        ByToken::Id(s) => Some(cat3("By::Id(", s.as_str(), ")")),
        ByToken::Tag(s) => Some(cat3("By::Tag(", s.as_str(), ")")),
        ByToken::LinkText(s) => Some(cat3("By::LinkText(", s.as_str(), ")")),
        ByToken::Css(s) => Some(cat3("By::Css(", s.as_str(), ")")),
        ByToken::XPath(s) => Some(cat3("By::XPath(", s.as_str(), ")")),
        ByToken::Name(s) => Some(cat3("By::Name(", s.as_str(), ")")),
        ByToken::ClassName(s) => Some(cat3("By::ClassName(", s.as_str(), ")")),
        ByToken::Testid(s) => Some(cat3("By::Testid(", s.as_str(), ")")),
        _ => None,
    }
}

/// A token of a kind is the first one where no token before it is of the kind.
proof fn lemma_first_place(tokens: Seq<TokenView>, p: int, kind: Kind, i: nat)
    requires
        i <= p < tokens.len(),
        kind_of(tokens[p]) == kind,
        forall|j: int| i <= j < p ==> kind_of(#[trigger] tokens[j]) != kind,
    ensures
        first_place(tokens, kind, i) == Some(p),
    decreases p - i,
{
    if i < p {
        lemma_first_place(tokens, p, kind, i + 1);
    }
}

/// Where no token is of a kind, there is no first one.
proof fn lemma_no_place(tokens: Seq<TokenView>, kind: Kind, i: nat)
    requires
        forall|j: int| i <= j < tokens.len() ==> kind_of(#[trigger] tokens[j]) != kind,
    ensures
        first_place(tokens, kind, i) is None,
    decreases tokens.len() - i,
{
    if i < tokens.len() {
        lemma_no_place(tokens, kind, i + 1);
    }
}

/// Taking out the one token of a kind leaves the others.
proof fn lemma_taken_one(tokens: Seq<TokenView>, p: int, kind: Kind)
    requires
        bytoken::distinct(tokens),
        0 <= p < tokens.len(),
        kind_of(tokens[p]) == kind,
    ensures
        taken(tokens, tokens.remove(p), kind),
{
    let rest = tokens.remove(p);
    assert forall|i: int, j: int| 0 <= i < j < rest.len() implies (#[trigger]
    rest[i]).unique_type() != (#[trigger] rest[j]).unique_type() by {
        let a = if i < p { i } else { i + 1 };
        let b = if j < p { j } else { j + 1 };
        assert(rest[i] == tokens[a] && rest[j] == tokens[b]);
    }
    assert forall|t: TokenView| #[trigger]
        rest.contains(t) <==> tokens.contains(t) && kind_of(t) != kind by {
        if rest.contains(t) {
            let i = choose|i: int| 0 <= i < rest.len() && rest[i] == t;
            let a = if i < p { i } else { i + 1 };
            assert(tokens[a] == t);
            if kind_of(t) == kind {
                if a < p {
                    assert(tokens[a].unique_type() != tokens[p].unique_type());
                } else {
                    assert(tokens[p].unique_type() != tokens[a].unique_type());
                }
            }
        }
        if tokens.contains(t) && kind_of(t) != kind {
            let a = choose|a: int| 0 <= a < tokens.len() && tokens[a] == t;
            let i = if a < p { a } else { a - 1 };
            assert(rest[i] == t);
        }
    }
}

/// Where no token is of a kind, nothing is taken.
proof fn lemma_taken_none(tokens: Seq<TokenView>, kind: Kind)
    requires
        forall|i: int| 0 <= i < tokens.len() ==> kind_of(#[trigger] tokens[i]) != kind,
    ensures
        bytoken::distinct(tokens) ==> taken(tokens, tokens, kind),
        !any_of(tokens, kind),
        first_place(tokens, kind, 0) is None,
{
    lemma_no_place(tokens, kind, 0);
    assert forall|t: TokenView| tokens.contains(t) implies kind_of(t) != kind by {
        let i = choose|i: int| 0 <= i < tokens.len() && tokens[i] == t;
        assert(kind_of(tokens[i]) != kind);
    }
}

impl ByTokens {
    /// Takes out the first token that `f` gives a value for, and returns that value.
    pub fn take_one<T, F: Fn(&ByToken) -> Option<T>>(&mut self, f: F) -> (r: Option<T>)
        requires
            forall|t: &ByToken| #[trigger] call_requires(f, (t,)),
        ensures
            match r {
                None => final(self).tokens@ == old(self).tokens@ && forall|i: int|
                    0 <= i < old(self).tokens.len() ==> call_ensures(
                        f,
                        (&#[trigger] old(self).tokens[i],),
                        None,
                    ),
                Some(v) => exists|p: int|
                    #![trigger old(self).tokens@.remove(p)]
                    0 <= p < old(self).tokens.len() && final(self).tokens@
                        == old(self).tokens@.remove(p) && call_ensures(
                        f,
                        (&old(self).tokens[p],),
                        Some(v),
                    ) && forall|i: int|
                        0 <= i < p ==> call_ensures(f, (&#[trigger] old(self).tokens[i],), None),
            },
    {
        let mut i: usize = 0;
        while i < self.tokens.len()
            invariant
                i <= self.tokens.len(),
                self.tokens@ == old(self).tokens@,
                forall|t: &ByToken| #[trigger] call_requires(f, (t,)),
                forall|j: int|
                    0 <= j < i ==> call_ensures(f, (&#[trigger] old(self).tokens[j],), None),
            decreases self.tokens.len() - i,
        {
            match f(&self.tokens[i]) {
                Some(v) => {
                    self.tokens.remove(i);
                    assert(self.tokens@ == old(self).tokens@.remove(i as int));
                    return Some(v);
                },
                None => {},
            }
            i = i + 1;
        }
        None
    }
}

impl ByTokens {
    /// Takes out the first token of a kind, which is the kind that `f` gives a value for, and
    /// returns that value.
    fn take_kind<T, F: Fn(&ByToken) -> Option<T>>(&mut self, f: F, Ghost(kind): Ghost<Kind>) -> (r:
        Option<T>)
        requires
            forall|t: &ByToken| #[trigger] call_requires(f, (t,)),
            forall|t: &ByToken, v: Option<T>| #[trigger]
                call_ensures(f, (t,), v) ==> (v is Some <==> kind_of(t@) == kind),
        ensures
            match r {
                Some(v) => any_of(old(self)@, kind) && exists|t: ByToken| #[trigger]
                    call_ensures(f, (&t,), Some(v)) && first_of(old(self)@, kind) == Some(t@)
                        && old(self)@.contains(t@),
                None => !any_of(old(self)@, kind),
            },
            final(self)@ == without_first(old(self)@, kind),
            bytoken::distinct(old(self)@) ==> taken(old(self)@, final(self)@, kind),
    {
        let ghost before = self.tokens@;
        let r: Option<T> = self.take_one(f);
        proof {
            reveal(first_of);
            reveal(without_first);
            if r is Some {
                let p = choose|p: int|
                    #![trigger before.remove(p)]
                    0 <= p < before.len() && self.tokens@ == before.remove(p) && call_ensures(
                        f,
                        (&before[p],),
                        Some(r->0),
                    ) && forall|i: int|
                        0 <= i < p ==> call_ensures(f, (&#[trigger] before[i],), None);
                assert(kind_of(old(self)@[p]) == kind);
                assert forall|i: int| 0 <= i < p implies kind_of(#[trigger] old(self)@[i])
                    != kind by {
                    assert(call_ensures(f, (&before[i],), None));
                }
                lemma_first_place(old(self)@, p, kind, 0);
                assert(self@ == old(self)@.remove(p));
                if bytoken::distinct(old(self)@) {
                    lemma_taken_one(old(self)@, p, kind);
                }
                assert(old(self)@.contains(old(self)@[p]));
                assert(before[p]@ == old(self)@[p]);
            } else {
                assert forall|i: int| 0 <= i < old(self)@.len() implies kind_of(
                    #[trigger] old(self)@[i],
                ) != kind by {
                    assert(call_ensures(f, (&before[i],), None));
                }
                lemma_taken_none(old(self)@, kind);
            }
        }
        r
    }

    /// Takes out the `multi` token, and says whether there was one.
    pub fn take_multi(&mut self) -> (r: Option<bool>)
        ensures
            r == (if any_of(old(self)@, Kind::Multi) {
                Some(true)
            } else {
                None
            }),
            final(self)@ == without_first(old(self)@, Kind::Multi),
            bytoken::distinct(old(self)@) ==> taken(old(self)@, final(self)@, Kind::Multi),
    {
        let f = |x: &ByToken| -> (b: Option<bool>)
            ensures
                b == (if x@ is Multi {
                    Some(true)
                } else {
                    None
                }),
            {
                match x {
                    ByToken::Multi => Some(true),
                    _ => None,
                }
            };
        self.take_kind(f, Ghost(Kind::Multi))
    }

    /// Takes out the `single` token, and says whether there was one.
    pub fn take_single(&mut self) -> (r: Option<bool>)
        ensures
            r == (if any_of(old(self)@, Kind::Single) {
                Some(true)
            } else {
                None
            }),
            final(self)@ == without_first(old(self)@, Kind::Single),
            bytoken::distinct(old(self)@) ==> taken(old(self)@, final(self)@, Kind::Single),
    {
        let f = |x: &ByToken| -> (b: Option<bool>)
            ensures
                b == (if x@ is Single {
                    Some(true)
                } else {
                    None
                }),
            {
                match x {
                    ByToken::Single => Some(true),
                    _ => None,
                }
            };
        self.take_kind(f, Ghost(Kind::Single))
    }

    /// Takes out the `first` token, and says whether there was one.
    pub fn take_first(&mut self) -> (r: Option<bool>)
        ensures
            r == (if any_of(old(self)@, Kind::First) {
                Some(true)
            } else {
                None
            }),
            final(self)@ == without_first(old(self)@, Kind::First),
            bytoken::distinct(old(self)@) ==> taken(old(self)@, final(self)@, Kind::First),
    {
        let f = |x: &ByToken| -> (b: Option<bool>)
            ensures
                b == (if x@ is First {
                    Some(true)
                } else {
                    None
                }),
            {
                match x {
                    ByToken::First => Some(true),
                    _ => None,
                }
            };
        self.take_kind(f, Ghost(Kind::First))
    }

    /// Takes out the `not_empty` token, and says whether there was one.
    pub fn take_not_empty(&mut self) -> (r: Option<bool>)
        ensures
            r == (if any_of(old(self)@, Kind::NotEmpty) {
                Some(true)
            } else {
                None
            }),
            final(self)@ == without_first(old(self)@, Kind::NotEmpty),
            bytoken::distinct(old(self)@) ==> taken(old(self)@, final(self)@, Kind::NotEmpty),
    {
        let f = |x: &ByToken| -> (b: Option<bool>)
            ensures
                b == (if x@ is NotEmpty {
                    Some(true)
                } else {
                    None
                }),
            {
                match x {
                    ByToken::NotEmpty => Some(true),
                    _ => None,
                }
            };
        self.take_kind(f, Ghost(Kind::NotEmpty))
    }

    /// Takes out the `allow_empty` token, and says whether there was one.
    pub fn take_allow_empty(&mut self) -> (r: Option<bool>)
        ensures
            r == (if any_of(old(self)@, Kind::AllowEmpty) {
                Some(true)
            } else {
                None
            }),
            final(self)@ == without_first(old(self)@, Kind::AllowEmpty),
            bytoken::distinct(old(self)@) ==> taken(old(self)@, final(self)@, Kind::AllowEmpty),
    {
        let f = |x: &ByToken| -> (b: Option<bool>)
            ensures
                b == (if x@ is AllowEmpty {
                    Some(true)
                } else {
                    None
                }),
            {
                match x {
                    ByToken::AllowEmpty => Some(true),
                    _ => None,
                }
            };
        self.take_kind(f, Ghost(Kind::AllowEmpty))
    }

    /// Takes out the `ignore_errors` token, and says whether there was one.
    pub fn take_ignore_errors(&mut self) -> (r: Option<bool>)
        ensures
            r == (if any_of(old(self)@, Kind::IgnoreErrors) {
                Some(true)
            } else {
                None
            }),
            final(self)@ == without_first(old(self)@, Kind::IgnoreErrors),
            bytoken::distinct(old(self)@) ==> taken(old(self)@, final(self)@, Kind::IgnoreErrors),
    {
        let f = |x: &ByToken| -> (b: Option<bool>)
            ensures
                b == (if x@ is IgnoreErrors {
                    Some(true)
                } else {
                    None
                }),
            {
                match x {
                    ByToken::IgnoreErrors => Some(true),
                    _ => None,
                }
            };
        self.take_kind(f, Ghost(Kind::IgnoreErrors))
    }

    /// Takes out the `nowait` token, and says whether there was one.
    pub fn take_nowait(&mut self) -> (r: Option<bool>)
        ensures
            r == (if any_of(old(self)@, Kind::NoWait) {
                Some(true)
            } else {
                None
            }),
            final(self)@ == without_first(old(self)@, Kind::NoWait),
            bytoken::distinct(old(self)@) ==> taken(old(self)@, final(self)@, Kind::NoWait),
    {
        let f = |x: &ByToken| -> (b: Option<bool>)
            ensures
                b == (if x@ is NoWait {
                    Some(true)
                } else {
                    None
                }),
            {
                match x {
                    ByToken::NoWait => Some(true),
                    _ => None,
                }
            };
        self.take_kind(f, Ghost(Kind::NoWait))
    }

    /// Takes out the element description.
    pub fn take_description(&mut self) -> (r: Option<String>)
        ensures
            match r {
                Some(s) => first_of(old(self)@, Kind::Description) == Some(TokenView::Description(s@))
                    && old(self)@.contains(TokenView::Description(s@)),
                None => !any_of(old(self)@, Kind::Description),
            },
            final(self)@ == without_first(old(self)@, Kind::Description),
            bytoken::distinct(old(self)@) ==> taken(old(self)@, final(self)@, Kind::Description),
    {
        let f = |x: &ByToken| -> (b: Option<String>)
            ensures
                match b {
                    Some(s) => x@ == TokenView::Description(s@),
                    None => !(x@ is Description),
                },
            {
                match x {
                    ByToken::Description(d) => Some(d.clone()),
                    _ => None,
                }
            };
        self.take_kind(f, Ghost(Kind::Description))
    }

    /// Takes out the `wait` token.
    pub fn take_wait_options(&mut self) -> (r: Option<WaitOptions>)
        ensures
            match r {
                Some(s) => first_of(old(self)@, Kind::Wait) == Some(TokenView::Wait(s.timeout_ms@, s.interval_ms@))
                    && old(self)@.contains(TokenView::Wait(s.timeout_ms@, s.interval_ms@)),
                None => !any_of(old(self)@, Kind::Wait),
            },
            final(self)@ == without_first(old(self)@, Kind::Wait),
            bytoken::distinct(old(self)@) ==> taken(old(self)@, final(self)@, Kind::Wait),
    {
        let f = |x: &ByToken| -> (b: Option<WaitOptions>)
            ensures
                match b {
                    Some(s) => x@ == TokenView::Wait(s.timeout_ms@, s.interval_ms@),
                    None => !(x@ is Wait),
                },
            {
                match x {
                    ByToken::Wait(w) => Some(w.clone()),
                    _ => None,
                }
            };
        self.take_kind(f, Ghost(Kind::Wait))
    }

    /// Takes out the custom function.
    pub fn take_custom(&mut self) -> (r: Option<String>)
        ensures
            match r {
                Some(s) => first_of(old(self)@, Kind::CustomFn) == Some(TokenView::CustomFn(s@))
                    && old(self)@.contains(TokenView::CustomFn(s@)),
                None => !any_of(old(self)@, Kind::CustomFn),
            },
            final(self)@ == without_first(old(self)@, Kind::CustomFn),
            bytoken::distinct(old(self)@) ==> taken(old(self)@, final(self)@, Kind::CustomFn),
    {
        let f = |x: &ByToken| -> (b: Option<String>)
            ensures
                match b {
                    Some(s) => x@ == TokenView::CustomFn(s@),
                    None => !(x@ is CustomFn),
                },
            {
                match x {
                    ByToken::CustomFn(f) => Some(f.clone()),
                    _ => None,
                }
            };
        self.take_kind(f, Ghost(Kind::CustomFn))
    }

    /// Extract just the "By"-specific part of the tokens, as code.
    ///
    /// For example, `name = "element-name"`.
    ///
    /// This removes the token so that we can check for leftover tokens afterwards.
    pub fn take_by(&mut self) -> (r: String)
        requires
            one_of(old(self)@, Kind::Selector),
        ensures
            first_of(old(self)@, Kind::Selector) matches Some(t) && r@ == by_code(t),
            reads_by(old(self)@, r@),
            final(self)@ == without_first(old(self)@, Kind::Selector),
            bytoken::distinct(old(self)@) ==> taken(old(self)@, final(self)@, Kind::Selector),
    {
        let f = |x: &ByToken| -> (b: Option<String>)
            ensures
                match b {
                    Some(s) => x@.is_selector() && s@ == by_code(x@),
                    None => !x@.is_selector(),
                },
            { selector_code(x) };
        proof {
            reveal(one_of);
            let p = choose|p: int|
                #![trigger self@[p]]
                0 <= p < self@.len() && kind_of(self@[p]) == Kind::Selector && forall|q: int|
                    0 <= q < self@.len() && q != p ==> kind_of(#[trigger] self@[q])
                        != Kind::Selector;
            assert(self@.contains(self@[p]));
        }
        match self.take_kind(f, Ghost(Kind::Selector)) {
            Some(code) => code,
            None => String::new(),
        }
    }
}

/// All args for a single-element resolver: a custom function, or a query with options.
#[derive(Debug)]
pub enum SingleResolverOptions {
    CustomFn(String),
    Opts {
        by: String,
        first: Option<bool>,
        ignore_errors: Option<bool>,
        description: Option<String>,
        wait: Option<WaitOptions>,
        nowait: Option<bool>,
    },
}

/// All args for a multi-element resolver: a custom function, or a query with options.
#[derive(Debug)]
pub enum MultiResolverOptions {
    CustomFn(String),
    Opts {
        by: String,
        allow_empty: Option<bool>,
        ignore_errors: Option<bool>,
        description: Option<String>,
        wait: Option<WaitOptions>,
        nowait: Option<bool>,
    },
}

/// `Some(true)` where one of the tokens is of a kind.
pub open spec fn flag(tokens: Seq<TokenView>, kind: Kind) -> Option<bool> {
    if any_of(tokens, kind) {
        Some(true)
    } else {
        None
    }
}

/// Whether `by` is the code for the token that says what to look for.
pub open spec fn reads_by(tokens: Seq<TokenView>, by: Seq<char>) -> bool {
    exists|t: TokenView| #[trigger] tokens.contains(t) && t.is_selector() && by == by_code(t)
}

/// Whether `d` is the element description that the tokens give.
pub open spec fn reads_description(tokens: Seq<TokenView>, d: Option<String>) -> bool {
    match d {
        Some(s) => tokens.contains(TokenView::Description(s@)),
        None => !any_of(tokens, Kind::Description),
    }
}

/// Whether `w` says how long to wait as the tokens do.
pub open spec fn reads_wait(tokens: Seq<TokenView>, w: Option<WaitOptions>) -> bool {
    match w {
        Some(s) => tokens.contains(TokenView::Wait(s.timeout_ms@, s.interval_ms@)),
        None => !any_of(tokens, Kind::Wait),
    }
}

/// Whether a token is for the query of a single element.
pub open spec fn for_single(t: TokenView) -> bool {
    t is Single || t.is_selector() || t is First || t is IgnoreErrors || t is Description
        || t is Wait || t is NoWait
}

/// Whether a token is for the query of several elements.
pub open spec fn for_multi(t: TokenView) -> bool {
    t is Multi || t is NotEmpty || t.is_selector() || t is AllowEmpty || t is IgnoreErrors
        || t is Description || t is Wait || t is NoWait
}

/// Whether the tokens hold one that a resolver of a single element has no use for.
pub open spec fn extra_for_single(tokens: Seq<TokenView>) -> bool {
    if any_of(tokens, Kind::CustomFn) {
        exists|t: TokenView| #[trigger] tokens.contains(t) && !(t is CustomFn) && !(t is Single)
    } else {
        exists|t: TokenView| #[trigger] tokens.contains(t) && !for_single(t)
    }
}

/// Whether the tokens hold one that a resolver of several elements has no use for.
pub open spec fn extra_for_multi(tokens: Seq<TokenView>) -> bool {
    if any_of(tokens, Kind::CustomFn) {
        exists|t: TokenView| #[trigger]
            tokens.contains(t) && !(t is CustomFn) && !(t is Multi) && !(t is NotEmpty)
    } else {
        exists|t: TokenView| #[trigger] tokens.contains(t) && !for_multi(t)
    }
}

/// Among tokens that hold every one of a kind that there was, there is one of that kind where
/// there was one.
proof fn lemma_kept(all: Seq<TokenView>, now: Seq<TokenView>, kind: Kind)
    requires
        forall|t: TokenView| #[trigger] now.contains(t) ==> all.contains(t),
        forall|t: TokenView| #[trigger] all.contains(t) && kind_of(t) == kind ==> now.contains(t),
    ensures
        any_of(now, kind) == any_of(all, kind),
{
}

/// The one token of a kind, where there is one.
pub open spec fn the(tokens: Seq<TokenView>, kind: Kind) -> Option<TokenView> {
    if any_of(tokens, kind) {
        Some(choose|t: TokenView| #[trigger] tokens.contains(t) && kind_of(t) == kind)
    } else {
        None
    }
}

/// Of tokens of different types there is one of each kind at most.
proof fn lemma_the(tokens: Seq<TokenView>, t: TokenView)
    requires
        bytoken::distinct(tokens),
        tokens.contains(t),
    ensures
        the(tokens, kind_of(t)) == Some(t),
{
    let u = choose|u: TokenView| #[trigger] tokens.contains(u) && kind_of(u) == kind_of(t);
    let i = choose|i: int| 0 <= i < tokens.len() && tokens[i] == t;
    let j = choose|j: int| 0 <= j < tokens.len() && tokens[j] == u;
    if i < j {
        assert(tokens[i].unique_type() != tokens[j].unique_type());
    } else if j < i {
        assert(tokens[j].unique_type() != tokens[i].unique_type());
    }
}

/// Of tokens of different types exactly one is of the kind of one of them.
proof fn lemma_one_of(tokens: Seq<TokenView>, t: TokenView)
    requires
        bytoken::distinct(tokens),
        tokens.contains(t),
    ensures
        one_of(tokens, kind_of(t)),
{
    reveal(one_of);
    let p = choose|p: int| 0 <= p < tokens.len() && tokens[p] == t;
    assert forall|q: int| 0 <= q < tokens.len() && q != p implies kind_of(#[trigger] tokens[q])
        != kind_of(t) by {
        if q < p {
            assert(tokens[q].unique_type() != tokens[p].unique_type());
        } else {
            assert(tokens[p].unique_type() != tokens[q].unique_type());
        }
    }
}

/// What the options of a resolver stand for. The flag is that which only resolvers of a single
/// element, or only those of several, have.
pub enum ResolverView {
    CustomFn(Seq<char>),
    Opts {
        by: Seq<char>,
        flag: bool,
        ignore_errors: bool,
        description: Option<Seq<char>>,
        wait: Option<(Seq<char>, Seq<char>)>,
        nowait: bool,
    },
}

/// The options that tokens give.
pub open spec fn resolver_of(tokens: Seq<TokenView>, flag: Kind) -> ResolverView {
    match the(tokens, Kind::CustomFn) {
        Some(TokenView::CustomFn(f)) => ResolverView::CustomFn(f),
        _ => ResolverView::Opts {
            by: match the(tokens, Kind::Selector) {
                Some(t) => by_code(t),
                None => Seq::empty(),
            },
            flag: any_of(tokens, flag),
            ignore_errors: any_of(tokens, Kind::IgnoreErrors),
            description: match the(tokens, Kind::Description) {
                Some(TokenView::Description(d)) => Some(d),
                _ => None,
            },
            wait: match the(tokens, Kind::Wait) {
                Some(TokenView::Wait(t, i)) => Some((t, i)),
                _ => None,
            },
            nowait: any_of(tokens, Kind::NoWait),
        },
    }
}

/// The options of a resolver of a single element, or why the tokens give none.
pub open spec fn single_of(tokens: Seq<TokenView>) -> Result<ResolverView, Seq<char>> {
    if extra_for_single(tokens) {
        Err("unexpected extra args"@)
    } else {
        Ok(resolver_of(tokens, Kind::First))
    }
}

/// The options of a resolver of several elements, or why the tokens give none.
pub open spec fn multi_of(tokens: Seq<TokenView>) -> Result<ResolverView, Seq<char>> {
    if extra_for_multi(tokens) {
        Err("unexpected extra args"@)
    } else {
        Ok(resolver_of(tokens, Kind::AllowEmpty))
    }
}

/// What options to wait stand for.
pub open spec fn wait_view(w: Option<WaitOptions>) -> Option<(Seq<char>, Seq<char>)> {
    match w {
        Some(w) => Some((w.timeout_ms@, w.interval_ms@)),
        None => None,
    }
}

/// What is read from tokens of different types is what they give.
proof fn lemma_reads(
    tokens: Seq<TokenView>,
    by: Seq<char>,
    description: Option<String>,
    wait: Option<WaitOptions>,
)
    requires
        bytoken::distinct(tokens),
        reads_by(tokens, by),
        reads_description(tokens, description),
        reads_wait(tokens, wait),
    ensures
        the(tokens, Kind::Selector) matches Some(t) && by == by_code(t),
        text::opt_text(description) == (match the(tokens, Kind::Description) {
            Some(TokenView::Description(d)) => Some(d),
            _ => None,
        }),
        wait_view(wait) == (match the(tokens, Kind::Wait) {
            Some(TokenView::Wait(t, i)) => Some((t, i)),
            _ => None,
        }),
{
    let t = choose|t: TokenView| #[trigger]
        tokens.contains(t) && t.is_selector() && by == by_code(t);
    lemma_the(tokens, t);
    if description is Some {
        lemma_the(tokens, TokenView::Description(description->0@));
    }
    if wait is Some {
        lemma_the(tokens, TokenView::Wait(wait->0.timeout_ms@, wait->0.interval_ms@));
    }
}

impl SingleResolverOptions {
    /// What these options stand for.
    pub open spec fn view(&self) -> ResolverView {
        match self {
            SingleResolverOptions::CustomFn(f) => ResolverView::CustomFn(f@),
            SingleResolverOptions::Opts { by, first, ignore_errors, description, wait, nowait } =>
            ResolverView::Opts {
                by: by@,
                flag: *first == Some(true),
                ignore_errors: *ignore_errors == Some(true),
                description: text::opt_text(*description),
                wait: wait_view(*wait),
                nowait: *nowait == Some(true),
            },
        }
    }

    /// Whether these are the options that the tokens give.
    spec fn given_by(&self, tokens: Seq<TokenView>) -> bool {
        match self {
            SingleResolverOptions::CustomFn(f) => tokens.contains(TokenView::CustomFn(f@)),
            SingleResolverOptions::Opts { by, first, ignore_errors, description, wait, nowait } => {
                &&& !any_of(tokens, Kind::CustomFn)
                &&& reads_by(tokens, by@)
                &&& *first == flag(tokens, Kind::First)
                &&& *ignore_errors == flag(tokens, Kind::IgnoreErrors)
                &&& reads_description(tokens, *description)
                &&& reads_wait(tokens, *wait)
                &&& *nowait == flag(tokens, Kind::NoWait)
            },
        }
    }

    /// The options that the tokens of an attribute give. One of them has to say what to look
    /// for, or how.
    pub fn try_from(tokens: ByTokens) -> (r: Result<SingleResolverOptions, String>)
        requires
            bytoken::distinct(tokens@),
            any_of(tokens@, Kind::CustomFn) || any_of(tokens@, Kind::Selector),
        ensures
            match r {
                Ok(o) => single_of(tokens@) == Ok::<ResolverView, Seq<char>>(o@),
                Err(message) => single_of(tokens@) == Err::<ResolverView, Seq<char>>(message@),
            },
    {
        let ghost all = tokens@;
        let mut t: ByTokens = tokens;
        // This is the default.
        t.take_single();
        let ghost t1 = t@;
        let options: SingleResolverOptions = match t.take_custom() {
            Some(f) => {
                proof {
                    assert(all.contains(TokenView::CustomFn(f@)));
                    assert(forall|x: TokenView| #[trigger]
                        t@.contains(x) <==> all.contains(x) && !(x is CustomFn) && !(x is Single));
                }
                SingleResolverOptions::CustomFn(f)
            },
            None => {
                proof {
                    assert forall|x: TokenView| #[trigger] all.contains(x) implies !(x is CustomFn) by {
                        if x is CustomFn {
                            assert(t1.contains(x));
                        }
                    }
                    let s = choose|x: TokenView| #[trigger]
                        all.contains(x) && (x is CustomFn || x.is_selector());
                    assert(t@.contains(s));
                    lemma_one_of(t@, s);
                }
                let by: String = t.take_by();
                let ghost t2 = t@;
                proof {
                    assert(reads_by(all, by@));
                }
                let first: Option<bool> = t.take_first();
                let ghost t3 = t@;
                proof {
                    lemma_kept(all, t2, Kind::First);
                }
                let ignore_errors: Option<bool> = t.take_ignore_errors();
                let ghost t4 = t@;
                proof {
                    lemma_kept(all, t3, Kind::IgnoreErrors);
                }
                let description: Option<String> = t.take_description();
                let ghost t5 = t@;
                proof {
                    lemma_kept(all, t4, Kind::Description);
                    assert(reads_description(all, description));
                }
                let wait: Option<WaitOptions> = t.take_wait_options();
                let ghost t6 = t@;
                proof {
                    lemma_kept(all, t5, Kind::Wait);
                    assert(reads_wait(all, wait));
                }
                let nowait: Option<bool> = t.take_nowait();
                proof {
                    lemma_kept(all, t6, Kind::NoWait);
                    assert(forall|x: TokenView| #[trigger]
                        t@.contains(x) <==> all.contains(x) && !for_single(x));
                }
                SingleResolverOptions::Opts { by, first, ignore_errors, description, wait, nowait }
            },
        };
        if t.tokens.len() != 0 {
            proof {
                assert(t@.contains(t@[0]));
                assert(all.contains(t@[0]));
            }
            return Err("unexpected extra args".to_owned());
        }
        proof {
            assert forall|x: TokenView| #[trigger] all.contains(x) implies !(if any_of(
                all,
                Kind::CustomFn,
            ) {
                !(x is CustomFn) && !(x is Single)
            } else {
                !for_single(x)
            }) by {
                assert(!t@.contains(x));
            }
            assert(!extra_for_single(all));
            assert(options.given_by(all));
            match &options {
                SingleResolverOptions::CustomFn(f) => lemma_the(all, TokenView::CustomFn(f@)),
                SingleResolverOptions::Opts { by, description, wait, .. } => lemma_reads(
                    all,
                    by@,
                    *description,
                    *wait,
                ),
            }
        }
        Ok(options)
    }
}

impl MultiResolverOptions {
    /// What these options stand for.
    pub open spec fn view(&self) -> ResolverView {
        match self {
            MultiResolverOptions::CustomFn(f) => ResolverView::CustomFn(f@),
            MultiResolverOptions::Opts {
                by,
                allow_empty,
                ignore_errors,
                description,
                wait,
                nowait,
            } => ResolverView::Opts {
                by: by@,
                flag: *allow_empty == Some(true),
                ignore_errors: *ignore_errors == Some(true),
                description: text::opt_text(*description),
                wait: wait_view(*wait),
                nowait: *nowait == Some(true),
            },
        }
    }

    /// Whether these are the options that the tokens give.
    spec fn given_by(&self, tokens: Seq<TokenView>) -> bool {
        match self {
            MultiResolverOptions::CustomFn(f) => tokens.contains(TokenView::CustomFn(f@)),
            MultiResolverOptions::Opts {
                by,
                allow_empty,
                ignore_errors,
                description,
                wait,
                nowait,
            } => {
                &&& !any_of(tokens, Kind::CustomFn)
                &&& reads_by(tokens, by@)
                &&& *allow_empty == flag(tokens, Kind::AllowEmpty)
                &&& *ignore_errors == flag(tokens, Kind::IgnoreErrors)
                &&& reads_description(tokens, *description)
                &&& reads_wait(tokens, *wait)
                &&& *nowait == flag(tokens, Kind::NoWait)
            },
        }
    }

    /// The options that the tokens of an attribute give. One of them has to say what to look
    /// for, or how.
    pub fn try_from(tokens: ByTokens) -> (r: Result<MultiResolverOptions, String>)
        requires
            bytoken::distinct(tokens@),
            any_of(tokens@, Kind::CustomFn) || any_of(tokens@, Kind::Selector),
        ensures
            match r {
                Ok(o) => multi_of(tokens@) == Ok::<ResolverView, Seq<char>>(o@),
                Err(message) => multi_of(tokens@) == Err::<ResolverView, Seq<char>>(message@),
            },
    {
        let ghost all = tokens@;
        let mut t: ByTokens = tokens;
        // Not used here.
        t.take_multi();
        // This is the default.
        t.take_not_empty();
        let ghost t1 = t@;
        let options: MultiResolverOptions = match t.take_custom() {
            Some(f) => {
                proof {
                    assert(all.contains(TokenView::CustomFn(f@)));
                    assert(forall|x: TokenView| #[trigger]
                        t@.contains(x) <==> all.contains(x) && !(x is CustomFn) && !(x is Multi)
                            && !(x is NotEmpty));
                }
                MultiResolverOptions::CustomFn(f)
            },
            None => {
                proof {
                    assert forall|x: TokenView| #[trigger] all.contains(x) implies !(x is CustomFn) by {
                        if x is CustomFn {
                            assert(t1.contains(x));
                        }
                    }
                    let s = choose|x: TokenView| #[trigger]
                        all.contains(x) && (x is CustomFn || x.is_selector());
                    assert(t@.contains(s));
                    lemma_one_of(t@, s);
                }
                let by: String = t.take_by();
                let ghost t2 = t@;
                proof {
                    assert(reads_by(all, by@));
                }
                let allow_empty: Option<bool> = t.take_allow_empty();
                let ghost t3 = t@;
                proof {
                    lemma_kept(all, t2, Kind::AllowEmpty);
                }
                let ignore_errors: Option<bool> = t.take_ignore_errors();
                let ghost t4 = t@;
                proof {
                    lemma_kept(all, t3, Kind::IgnoreErrors);
                }
                let description: Option<String> = t.take_description();
                let ghost t5 = t@;
                proof {
                    lemma_kept(all, t4, Kind::Description);
                    assert(reads_description(all, description));
                }
                let wait: Option<WaitOptions> = t.take_wait_options();
                let ghost t6 = t@;
                proof {
                    lemma_kept(all, t5, Kind::Wait);
                    assert(reads_wait(all, wait));
                }
                let nowait: Option<bool> = t.take_nowait();
                proof {
                    lemma_kept(all, t6, Kind::NoWait);
                    assert(forall|x: TokenView| #[trigger]
                        t@.contains(x) <==> all.contains(x) && !for_multi(x));
                }
                MultiResolverOptions::Opts {
                    by,
                    allow_empty,
                    ignore_errors,
                    description,
                    wait,
                    nowait,
                }
            },
        };
        if t.tokens.len() != 0 {
            proof {
                assert(t@.contains(t@[0]));
                assert(all.contains(t@[0]));
            }
            return Err("unexpected extra args".to_owned());
        }
        proof {
            assert forall|x: TokenView| #[trigger] all.contains(x) implies !(if any_of(
                all,
                Kind::CustomFn,
            ) {
                !(x is CustomFn) && !(x is Multi) && !(x is NotEmpty)
            } else {
                !for_multi(x)
            }) by {
                assert(!t@.contains(x));
            }
            assert(!extra_for_multi(all));
            assert(options.given_by(all));
            match &options {
                MultiResolverOptions::CustomFn(f) => lemma_the(all, TokenView::CustomFn(f@)),
                MultiResolverOptions::Opts { by, description, wait, .. } => lemma_reads(
                    all,
                    by@,
                    *description,
                    *wait,
                ),
            }
        }
        Ok(options)
    }
}

/// The code for an option that is set, or not.
pub open spec fn flag_code(set: bool) -> Seq<char> {
    if set {
        "::std::option::Option::Some(true)"@
    } else {
        "::std::option::Option::None"@
    }
}

/// The code for an element description.
pub open spec fn description_code(description: Option<Seq<char>>) -> Seq<char> {
    match description {
        Some(d) => "::std::option::Option::Some(::std::string::ToString::to_string(&"@ + d + "))"@,
        None => "::std::option::Option::None"@,
    }
}

/// The code for how long to wait, where `path` is the path to the variants of `Option`.
pub open spec fn wait_code(
    wait: Option<(Seq<char>, Seq<char>)>,
    nowait: bool,
    path: Seq<char>,
) -> Seq<char> {
    match wait {
        Some((timeout, interval)) =>
        "Some(::thirtyfour::extensions::query::ElementQueryWaitOptions::Wait { timeout: ::std::time::Duration::from_millis("@
            + timeout + "), interval: ::std::time::Duration::from_millis("@ + interval + ") })"@,
        None => if nowait {
            path + "Some(::thirtyfour::extensions::query::ElementQueryWaitOptions::NoWait)"@
        } else {
            path + "None"@
        },
    }
}

/// The code for the options of a query.
pub open spec fn options_code(
    ignore_errors: bool,
    description: Option<Seq<char>>,
    wait: Option<(Seq<char>, Seq<char>)>,
    nowait: bool,
    path: Seq<char>,
) -> Seq<char> {
    "::thirtyfour::extensions::query::ElementQueryOptions::default().set_ignore_errors("@
        + flag_code(ignore_errors) + (").set_description::<String>("@ + description_code(
        description,
    )) + (").set_wait("@ + wait_code(wait, nowait, path) + ")"@)
}

/// The code for a resolver of a type: with a custom function, or with a query of what there is to
/// look for, by the constructor that the flag picks.
pub open spec fn resolver_code(
    ty: Seq<char>,
    v: ResolverView,
    with_flag: Seq<char>,
    without: Seq<char>,
    path: Seq<char>,
) -> Seq<char> {
    match v {
        ResolverView::CustomFn(f) => ty + "::new_custom(base.clone(), "@ + f + ")"@,
        ResolverView::Opts { by, flag, ignore_errors, description, wait, nowait } => {
            let constructor = if flag {
                with_flag
            } else {
                without
            };
            ty + "::"@ + constructor + "(base.clone(), "@ + by + (", "@ + options_code(
                ignore_errors,
                description,
                wait,
                nowait,
                path,
            ) + ")"@)
        },
    }
}

/// The code for a resolver of a single element: it is the only one, unless the first one will do.
pub open spec fn single_code(ty: Seq<char>, v: ResolverView) -> Seq<char> {
    resolver_code(ty, v, "new_first_opts"@, "new_single_opts"@, "::std::option::Option::"@)
}

/// The code for a resolver of several elements: there is at least one, unless none will do.
pub open spec fn multi_code(ty: Seq<char>, v: ResolverView) -> Seq<char> {
    resolver_code(ty, v, "new_allow_empty_opts"@, "new_not_empty_opts"@, ""@)
}

/// The code for the options of a query.
fn options_text(
    ignore_errors: &Option<bool>,
    description: &Option<String>,
    wait: &Option<WaitOptions>,
    nowait: &Option<bool>,
    path: &str,
) -> (r: String)
    ensures
        r@ == options_code(
            *ignore_errors == Some(true),
            text::opt_text(*description),
            wait_view(*wait),
            *nowait == Some(true),
            path@,
        ),
{
    let ignore: &str = match ignore_errors {
        Some(true) => "::std::option::Option::Some(true)",
        _ => "::std::option::Option::None",
    };
    let desc: String = match description {
        Some(d) => cat3(
            "::std::option::Option::Some(::std::string::ToString::to_string(&",
            d.as_str(),
            "))",
        ),
        None => "::std::option::Option::None".to_owned(),
    };
    let wait_text: String = match wait {
        Some(w) => cat5(
            "Some(::thirtyfour::extensions::query::ElementQueryWaitOptions::Wait { timeout: ::std::time::Duration::from_millis(",
            w.timeout_ms.as_str(),
            "), interval: ::std::time::Duration::from_millis(",
            w.interval_ms.as_str(),
            ") })",
        ),
        None => match nowait {
            Some(true) => cat2(
                path,
                "Some(::thirtyfour::extensions::query::ElementQueryWaitOptions::NoWait)",
            ),
            _ => cat2(path, "None"),
        },
    };
    cat4(
        "::thirtyfour::extensions::query::ElementQueryOptions::default().set_ignore_errors(",
        ignore,
        cat2(").set_description::<String>(", desc.as_str()).as_str(),
        cat3(").set_wait(", wait_text.as_str(), ")").as_str(),
    )
}

/// The code for a resolver with a query.
fn query_text(ty: &str, constructor: &str, by: &str, options: &str) -> (r: String)
    ensures
        r@ == ty@ + "::"@ + constructor@ + "(base.clone(), "@ + by@ + (", "@ + options@ + ")"@),
{
    let mut r: String = cat5(ty, "::", constructor, "(base.clone(), ", by);
    r.append(cat3(", ", options, ")").as_str());
    r
}

/// A resolver of a single element, of a type.
#[derive(Debug)]
pub struct SingleResolverArgs {
    pub ty: String,
    pub options: SingleResolverOptions,
}

impl SingleResolverArgs {
    /// The resolver of a type that the tokens of an attribute give.
    pub fn try_new(ty: String, by_tokens: ByTokens) -> (r: Result<SingleResolverArgs, String>)
        requires
            bytoken::distinct(by_tokens@),
            any_of(by_tokens@, Kind::CustomFn) || any_of(by_tokens@, Kind::Selector),
        ensures
            match r {
                Ok(a) => a.ty == ty && single_of(by_tokens@) == Ok::<ResolverView, Seq<char>>(
                    a.options@,
                ),
                Err(message) => single_of(by_tokens@) == Err::<ResolverView, Seq<char>>(message@),
            },
    {
        match SingleResolverOptions::try_from(by_tokens) {
            Ok(options) => Ok(SingleResolverArgs { ty, options }),
            Err(message) => Err(message),
        }
    }

    /// The code for the resolver.
    pub fn to_code(&self) -> (r: String)
        ensures
            r@ == single_code(self.ty@, self.options@),
    {
        match &self.options {
            SingleResolverOptions::CustomFn(f) => cat4(
                self.ty.as_str(),
                "::new_custom(base.clone(), ",
                f.as_str(),
                ")",
            ),
            SingleResolverOptions::Opts { by, first, ignore_errors, description, wait, nowait } => {
                let options: String = options_text(
                    ignore_errors,
                    description,
                    wait,
                    nowait,
                    "::std::option::Option::",
                );
                match first {
                    Some(true) => query_text(
                        self.ty.as_str(),
                        "new_first_opts",
                        by.as_str(),
                        options.as_str(),
                    ),
                    _ => query_text(
                        self.ty.as_str(),
                        "new_single_opts",
                        by.as_str(),
                        options.as_str(),
                    ),
                }
            },
        }
    }
}

/// A resolver of several elements, of a type.
#[derive(Debug)]
pub struct MultiResolverArgs {
    pub ty: String,
    pub options: MultiResolverOptions,
}

impl MultiResolverArgs {
    /// The resolver of a type that the tokens of an attribute give.
    pub fn try_new(ty: String, by_tokens: ByTokens) -> (r: Result<MultiResolverArgs, String>)
        requires
            bytoken::distinct(by_tokens@),
            any_of(by_tokens@, Kind::CustomFn) || any_of(by_tokens@, Kind::Selector),
        ensures
            match r {
                Ok(a) => a.ty == ty && multi_of(by_tokens@) == Ok::<ResolverView, Seq<char>>(
                    a.options@,
                ),
                Err(message) => multi_of(by_tokens@) == Err::<ResolverView, Seq<char>>(message@),
            },
    {
        match MultiResolverOptions::try_from(by_tokens) {
            Ok(options) => Ok(MultiResolverArgs { ty, options }),
            Err(message) => Err(message),
        }
    }

    /// The code for the resolver.
    pub fn to_code(&self) -> (r: String)
        ensures
            r@ == multi_code(self.ty@, self.options@),
    {
        match &self.options {
            MultiResolverOptions::CustomFn(f) => cat4(
                self.ty.as_str(),
                "::new_custom(base.clone(), ",
                f.as_str(),
                ")",
            ),
            MultiResolverOptions::Opts {
                by,
                allow_empty,
                ignore_errors,
                description,
                wait,
                nowait,
            } => {
                let options: String = options_text(ignore_errors, description, wait, nowait, "");
                match allow_empty {
                    Some(true) => query_text(
                        self.ty.as_str(),
                        "new_allow_empty_opts",
                        by.as_str(),
                        options.as_str(),
                    ),
                    _ => query_text(
                        self.ty.as_str(),
                        "new_not_empty_opts",
                        by.as_str(),
                        options.as_str(),
                    ),
                }
            },
        }
    }
}

/// The arguments of a type.
#[derive(Debug)]
pub enum TypeArgs {
    /// No arguments.
    Nothing,
    /// Arguments in angle brackets, and their text with the brackets.
    Angle(Vec<TypeArg>, String),
    /// Arguments in round brackets, by their text with the brackets.
    Paren(String),
}

/// An argument of a type, as far as it matters: the identifiers of a type that is a path.
#[derive(Debug)]
pub enum TypeArg {
    Path(Vec<String>),
    Other,
}

/// A part of a path.
#[derive(Debug)]
pub struct TypeSegment {
    pub ident: String,
    pub args: TypeArgs,
}

/// A type that is a path.
#[derive(Debug)]
pub struct TypePath {
    /// Whether the path begins with `::`.
    pub leading: bool,
    pub segments: Vec<TypeSegment>,
}

impl TypeArgs {
    /// Whether there are no arguments.
    pub open spec fn empty(&self) -> bool {
        match self {
            TypeArgs::Nothing => true,
            TypeArgs::Angle(args, _) => args.len() == 0,
            TypeArgs::Paren(_) => false,
        }
    }

    /// The text of the arguments.
    pub open spec fn text(&self) -> Seq<char> {
        match self {
            TypeArgs::Nothing => Seq::empty(),
            TypeArgs::Angle(_, text) => text@,
            TypeArgs::Paren(text) => text@,
        }
    }

    /// Whether there are no arguments.
    pub fn is_empty(&self) -> (r: bool)
        ensures
            r == self.empty(),
    {
        match self {
            TypeArgs::Nothing => true,
            TypeArgs::Angle(args, _) => args.len() == 0,
            TypeArgs::Paren(_) => false,
        }
    }

    /// The text of the arguments.
    pub fn as_str(&self) -> (r: &str)
        ensures
            r@ == self.text(),
    {
        match self {
            TypeArgs::Nothing => {
                proof {
                    reveal_strlit("");
                    assert(""@ == Seq::<char>::empty());
                }
                ""
            },
            TypeArgs::Angle(_, text) => text.as_str(),
            TypeArgs::Paren(text) => text.as_str(),
        }
    }
}

impl TypePath {
    /// The identifiers of the path.
    pub open spec fn idents(&self) -> Seq<Seq<char>> {
        Seq::new(self.segments.len() as nat, |i: int| self.segments[i].ident@)
    }

    /// Whether the path is that identifier and nothing else.
    pub open spec fn is(&self, name: Seq<char>) -> bool {
        !self.leading && self.segments.len() == 1 && self.segments[0].args is Nothing
            && self.segments[0].ident@ == name
    }

    /// Whether the path is that identifier and nothing else.
    pub fn is_ident(&self, name: &str) -> (r: bool)
        ensures
            r == self.is(name@),
    {
        if self.leading || self.segments.len() != 1 {
            return false;
        }
        match &self.segments[0].args {
            TypeArgs::Nothing => text_eq(self.segments[0].ident.as_str(), name),
            _ => false,
        }
    }

    /// The identifiers of the path.
    fn ident_strings(&self) -> (r: Vec<String>)
        ensures
            text::texts(r@) == self.idents(),
    {
        let mut r: Vec<String> = Vec::new();
        let mut i: usize = 0;
        while i < self.segments.len()
            invariant
                i <= self.segments.len(),
                r.len() == i,
                forall|j: int| 0 <= j < i ==> (#[trigger] r@[j])@ == self.segments[j].ident@,
            decreases self.segments.len() - i,
        {
            r.push(self.segments[i].ident.clone());
            i = i + 1;
        }
        assert(text::texts(r@) == self.idents());
        r
    }
}

/// Return true if the identifiers, with `|` between them, are one of the specified types.
fn is_one_of(idents: &Vec<String>, one_of: &[&str]) -> (r: bool)
    ensures
        r == exists|i: int|
            0 <= i < one_of@.len() && text::joined(text::texts(idents@), "|"@) == (#[trigger]
            one_of@[i])@,
{
    let path: String = join(idents, "|");
    let mut i: usize = 0;
    while i < one_of.len()
        invariant
            i <= one_of.len(),
            path@ == text::joined(text::texts(idents@), "|"@),
            forall|j: int| 0 <= j < i ==> path@ != (#[trigger] one_of@[j])@,
        decreases one_of.len() - i,
    {
        if text_eq(path.as_str(), one_of[i]) {
            return true;
        }
        i = i + 1;
    }
    false
}

/// Whether the identifiers of a path, with `|` between them, are a name.
pub open spec fn named(idents: Seq<Seq<char>>, name: Seq<char>) -> bool {
    text::joined(idents, "|"@) == name
}

/// Whether identifiers are those of `Vec`.
pub open spec fn is_vec(idents: Seq<Seq<char>>) -> bool {
    named(idents, "Vec"@) || named(idents, "vec|Vec"@) || named(idents, "std|vec|Vec"@) || named(
        idents,
        "alloc|vec|Vec"@,
    )
}

/// Whether identifiers are those of `ElementResolver`.
pub open spec fn is_resolver(idents: Seq<Seq<char>>) -> bool {
    named(idents, "ElementResolver"@) || named(idents, "components|ElementResolver"@) || named(
        idents,
        "thirtyfour|components|ElementResolver"@,
    )
}

/// Whether identifiers are those of `WebElement`.
pub open spec fn is_web_element(idents: Seq<Seq<char>>) -> bool {
    named(idents, "WebElement"@) || named(idents, "thirtyfour|WebElement"@)
}

/// Whether the first argument from `i` on that is a path is a `Vec`.
pub open spec fn first_path_is_vec(args: Seq<TypeArg>, i: nat) -> bool
    decreases args.len() - i,
{
    if i >= args.len() {
        false
    } else {
        match args[i as int] {
            TypeArg::Path(idents) => is_vec(text::texts(idents@)),
            TypeArg::Other => first_path_is_vec(args, i + 1),
        }
    }
}

/// Whether a type is a resolver of several elements: `ElementResolverMulti`, or an
/// `ElementResolver` of a `Vec`.
pub open spec fn multi_resolver(path: TypePath) -> bool {
    path.is("ElementResolverMulti"@) || (is_resolver(path.idents()) && path.segments.len() > 0 && (
    path.segments[path.segments.len() - 1].args matches TypeArgs::Angle(args, _)
        && first_path_is_vec(args@, 0)))
}

/// Return true if the specified path matches one of the specified types.
///
/// Use `|` as the path separator for elements in the `one_of` slice.
/// e.g. `["Vec", "std|vec|Vec"]`.
pub fn is_type(path: &TypePath, one_of: &[&str]) -> (r: bool)
    ensures
        r == exists|i: int|
            0 <= i < one_of@.len() && named(path.idents(), (#[trigger] one_of@[i])@),
{
    is_one_of(&path.ident_strings(), one_of)
}

/// Return true if this path should be treated as a multi-element resolver.
///
/// Basically any `ElementResolver<Vec<T>>` should be treated as multi.
///
/// We also catch `ElementResolverMulti` as a special case.
pub fn is_multi_resolver(path: &TypePath) -> (r: bool)
    ensures
        r == multi_resolver(*path),
{
    // First check for the type alias.
    if path.is_ident("ElementResolverMulti") {
        return true;
    }
    let resolvers: [&str; 3] = [
        "ElementResolver",
        "components|ElementResolver",
        "thirtyfour|components|ElementResolver",
    ];
    proof {
        assert(resolvers@[0]@ == "ElementResolver"@);
        assert(resolvers@[1]@ == "components|ElementResolver"@);
        assert(resolvers@[2]@ == "thirtyfour|components|ElementResolver"@);
    }
    if !is_type(path, &resolvers) || path.segments.len() == 0 {
        return false;
    }
    let vecs: [&str; 4] = ["Vec", "vec|Vec", "std|vec|Vec", "alloc|vec|Vec"];
    proof {
        assert(vecs@[0]@ == "Vec"@);
        assert(vecs@[1]@ == "vec|Vec"@);
        assert(vecs@[2]@ == "std|vec|Vec"@);
        assert(vecs@[3]@ == "alloc|vec|Vec"@);
    }
    // If we have `ElementResolver<Vec<T>>` then use multi.
    match &path.segments[path.segments.len() - 1].args {
        TypeArgs::Angle(args, _) => {
            let mut i: usize = 0;
            while i < args.len()
                invariant
                    i <= args.len(),
                    vecs@.len() == 4,
                    vecs@[0]@ == "Vec"@,
                    vecs@[1]@ == "vec|Vec"@,
                    vecs@[2]@ == "std|vec|Vec"@,
                    vecs@[3]@ == "alloc|vec|Vec"@,
                    first_path_is_vec(args@, 0) == first_path_is_vec(args@, i as nat),
                    multi_resolver(*path) == first_path_is_vec(args@, 0),
                decreases args.len() - i,
            {
                match &args[i] {
                    TypeArg::Path(idents) => return is_one_of(idents, &vecs),
                    TypeArg::Other => {},
                }
                i = i + 1;
            }
            false
        },
        _ => false,
    }
}

/// The text of a part of a path, with its arguments.
pub open spec fn segment_text(s: TypeSegment) -> Seq<char> {
    s.ident@ + s.args.text()
}

/// The text of the parts of a path before `n`, each with `::` behind it.
pub open spec fn prefix_text(segments: Seq<TypeSegment>, n: nat) -> Seq<char>
    decreases n,
{
    if n == 0 {
        Seq::empty()
    } else {
        prefix_text(segments, (n - 1) as nat) + segment_text(segments[n - 1]) + "::"@
    }
}

/// The path that constructors of a type are called by: `GenericType<Args>` becomes
/// `GenericType::<Args>`.
pub open spec fn constructor_path(path: TypePath) -> Seq<char> {
    let n = path.segments.len();
    if n == 0 {
        Seq::empty()
    } else {
        let last = path.segments[n - 1];
        let prefix = prefix_text(path.segments@, (n - 1) as nat);
        let lead = if path.leading && (n > 1 || last.args.empty()) {
            "::"@
        } else {
            Seq::empty()
        };
        if last.args.empty() {
            lead + prefix + last.ident@
        } else {
            lead + prefix + last.ident@ + "::"@ + last.args.text()
        }
    }
}

/// Converts GenericType<Args> to GenericType::<Args> to call ::new_*() on it.
///
/// Non-generic types will be returned as is.
pub fn fix_type(path: &TypePath) -> (r: String)
    ensures
        r@ == constructor_path(*path),
{
    let n: usize = path.segments.len();
    if n == 0 {
        return String::new();
    }
    let last: &TypeSegment = &path.segments[n - 1];
    let lead: String = if path.leading && (n > 1 || last.args.is_empty()) {
        "::".to_owned()
    } else {
        String::new()
    };
    let mut prefix: String = String::new();
    let mut i: usize = 0;
    while i < n - 1
        invariant
            i <= n - 1,
            n == path.segments.len(),
            prefix@ == prefix_text(path.segments@, i as nat),
        decreases n - i,
    {
        let segment: String = cat2(
            path.segments[i].ident.as_str(),
            path.segments[i].args.as_str(),
        );
        prefix.append(segment.as_str());
        prefix.append("::");
        i = i + 1;
    }
    if last.args.is_empty() {
        cat3(lead.as_str(), prefix.as_str(), last.ident.as_str())
    } else {
        cat5(
            lead.as_str(),
            prefix.as_str(),
            last.ident.as_str(),
            "::",
            last.args.as_str(),
        )
    }
}

/// An attribute of a field: its path, its text, and what its brackets hold where it is a
/// `#[by(..)]`.
#[derive(Debug)]
pub struct FieldAttr {
    pub path: MetaPath,
    pub text: String,
    pub metas: Result<Vec<Meta>, String>,
}

/// The type of a field, as far as it matters.
#[derive(Debug)]
pub enum FieldType {
    Path(TypePath),
    Other,
}

/// A field of a component.
#[derive(Debug)]
pub struct ParsedField {
    pub ident: String,
    pub ty: FieldType,
    pub attrs: Vec<FieldAttr>,
}

/// The first attribute from `i` on with a name.
pub open spec fn first_attr(attrs: Seq<FieldAttr>, name: Seq<char>, i: nat) -> Option<FieldAttr>
    decreases attrs.len() - i,
{
    if i >= attrs.len() {
        None
    } else if attrs[i as int].path.is(name) {
        Some(attrs[i as int])
    } else {
        first_attr(attrs, name, i + 1)
    }
}

/// A text behind the text of an attribute, where there is one.
pub open spec fn behind(attr: Option<FieldAttr>, code: Seq<char>) -> Seq<char> {
    match attr {
        Some(a) => a.text@ + " "@ + code,
        None => code,
    }
}

/// The tokens that a `#[by(..)]` attribute is read as, or why it is none.
pub open spec fn attr_tokens(attr: FieldAttr) -> Result<Seq<TokenView>, Seq<char>> {
    match attr.metas {
        Ok(metas) => match bytoken::tokens_of(metas@, 0, Seq::empty()) {
            Ok(tokens) => Ok(tokens),
            Err(e) => Err(e.1),
        },
        Err(message) => Err(message@),
    }
}

/// The code for the resolver of a field of a type with tokens, or why there is none.
pub open spec fn field_resolver(path: TypePath, tokens: Seq<TokenView>) -> Result<
    Seq<char>,
    Seq<char>,
> {
    let ty = constructor_path(path);
    if any_of(tokens, Kind::Multi) || multi_resolver(path) {
        match multi_of(tokens) {
            Ok(v) => Ok(multi_code(ty, v)),
            Err(message) => Err(message),
        }
    } else {
        match single_of(tokens) {
            Ok(v) => Ok(single_code(ty, v)),
            Err(message) => Err(message),
        }
    }
}

impl ParsedField {
    /// The `#[cfg(..)]` attribute of the field.
    pub open spec fn cfg(&self) -> Option<FieldAttr> {
        first_attr(self.attrs@, "cfg"@, 0)
    }

    /// The `#[by(..)]` attribute of the field.
    pub open spec fn by(&self) -> Option<FieldAttr> {
        first_attr(self.attrs@, "by"@, 0)
    }

    /// Whether this is the base element field: it has the attribute, or the name.
    pub open spec fn base(&self) -> bool {
        first_attr(self.attrs@, "base"@, 0) is Some || self.ident@ == "base"@
    }

    /// What the field is in the constructor's result.
    pub open spec fn def(&self) -> Seq<char> {
        behind(self.cfg(), self.ident@)
    }

    /// What initialises the field in the constructor, or why nothing does.
    pub open spec fn initialiser(&self) -> Result<Seq<char>, Seq<char>> {
        match (self.ty, self.by()) {
            (FieldType::Path(path), Some(attr)) => match attr_tokens(attr) {
                Ok(tokens) => match field_resolver(path, tokens) {
                    Ok(code) => Ok(
                        behind(self.cfg(), "let "@ + self.ident@ + " = { "@ + code + " };"@),
                    ),
                    Err(message) => Err(message),
                },
                Err(message) => Err(message),
            },
            _ => Ok(behind(self.cfg(), "let "@ + self.ident@ + " = Default::default();"@)),
        }
    }

    /// Where the field has tokens, one of them says what to look for, or how.
    pub open spec fn complete(&self) -> bool {
        (self.ty is Path && self.by() is Some && attr_tokens(self.by()->0) is Ok) ==> {
            let tokens = attr_tokens(self.by()->0)->Ok_0;
            any_of(tokens, Kind::CustomFn) || any_of(tokens, Kind::Selector)
        }
    }

    /// The first attribute with a name.
    fn find_attr(&self, name: &str) -> (r: Option<&FieldAttr>)
        ensures
            match r {
                Some(a) => first_attr(self.attrs@, name@, 0) == Some(*a),
                None => first_attr(self.attrs@, name@, 0) is None,
            },
    {
        let mut i: usize = 0;
        while i < self.attrs.len()
            invariant
                i <= self.attrs.len(),
                first_attr(self.attrs@, name@, 0) == first_attr(self.attrs@, name@, i as nat),
            decreases self.attrs.len() - i,
        {
            if self.attrs[i].path.is_ident(name) {
                return Some(&self.attrs[i]);
            }
            i = i + 1;
        }
        None
    }

    /// True if this is the base element field.
    pub fn is_base(&self) -> (r: bool)
        ensures
            r == self.base(),
    {
        match self.find_attr("base") {
            Some(_) => true,
            None => text_eq(self.ident.as_str(), "base"),
        }
    }

    /// A text behind the `#[cfg(..)]` attribute, where there is one.
    fn behind_cfg(&self, code: String) -> (r: String)
        ensures
            r@ == behind(self.cfg(), code@),
    {
        match self.find_attr("cfg") {
            Some(a) => cat3(a.text.as_str(), " ", code.as_str()),
            None => code,
        }
    }

    /// Get the definition for this field that should go in new().
    pub fn get_def(&self) -> (r: String)
        ensures
            r@ == self.def(),
    {
        self.behind_cfg(self.ident.clone())
    }

    /// Whether, where the field has tokens, one of them says what to look for, or how.
    pub fn is_complete(&self) -> (r: bool)
        ensures
            r == self.complete(),
    {
        match (&self.ty, self.find_attr("by")) {
            (FieldType::Path(_), Some(attr)) => match &attr.metas {
                Ok(metas) => match ByTokens::from_metas(metas) {
                    Ok(tokens) => {
                        let custom: bool = tokens.has_custom();
                        let selector: bool = tokens.has_selector();
                        proof {
                            lemma_any_index(tokens@, Kind::CustomFn);
                            lemma_any_index(tokens@, Kind::Selector);
                        }
                        custom || selector
                    },
                    Err(_) => true,
                },
                Err(_) => true,
            },
            _ => true,
        }
    }

    /// Get the initialiser for this field that should go in new().
    pub fn get_initialiser(&self) -> (r: Result<String, String>)
        requires
            self.complete(),
        ensures
            match r {
                Ok(code) => self.initialiser() == Ok::<Seq<char>, Seq<char>>(code@),
                Err(message) => self.initialiser() == Err::<Seq<char>, Seq<char>>(message@),
            },
    {
        match (&self.ty, self.find_attr("by")) {
            (FieldType::Path(path), Some(attr)) => {
                let metas: &Vec<Meta> = match &attr.metas {
                    Ok(metas) => metas,
                    Err(message) => return Err(message.clone()),
                };
                let tokens: ByTokens = match ByTokens::from_metas(metas) {
                    Ok(tokens) => tokens,
                    Err(e) => return Err(e.1),
                };
                proof {
                    bytoken::lemma_valid_tokens(Seq::empty());
                    bytoken::lemma_tokens_valid(metas@, 0, Seq::empty());
                    bytoken::lemma_valid_tokens(tokens@);
                    lemma_any_index(tokens@, Kind::Multi);
                }
                let ty: String = fix_type(path);
                // Use type or attribute to infer single/multi resolver.
                let code: String = if tokens.is_multi() || is_multi_resolver(path) {
                    match MultiResolverArgs::try_new(ty, tokens) {
                        Ok(args) => args.to_code(),
                        Err(message) => return Err(message),
                    }
                } else {
                    match SingleResolverArgs::try_new(ty, tokens) {
                        Ok(args) => args.to_code(),
                        Err(message) => return Err(message),
                    }
                };
                Ok(
                    self.behind_cfg(
                        cat5("let ", self.ident.as_str(), " = { ", code.as_str(), " };"),
                    ),
                )
            },
            _ => Ok(
                self.behind_cfg(cat3("let ", self.ident.as_str(), " = Default::default();")),
            ),
        }
    }
}

/// Whether, in the fields from `i` on, one with tokens of which none says what to look for comes
/// before any other fault, with a base field before `i` or none.
pub open spec fn lacks_selector(fields: Seq<ParsedField>, i: nat, has_base: bool) -> bool
    decreases fields.len() - i,
{
    if i >= fields.len() {
        false
    } else {
        let field = fields[i as int];
        if field.base() {
            !has_base && base_fault(field.ty) is None && lacks_selector(fields, i + 1, true)
        } else {
            !field.complete() || (field.initialiser() is Ok && lacks_selector(
                fields,
                i + 1,
                has_base,
            ))
        }
    }
}

/// A token of a kind stands at some place.
proof fn lemma_any_index(tokens: Seq<TokenView>, kind: Kind)
    ensures
        any_of(tokens, kind) <==> exists|i: int|
            0 <= i < tokens.len() && kind_of(#[trigger] tokens[i]) == kind,
{
    if exists|i: int| 0 <= i < tokens.len() && kind_of(#[trigger] tokens[i]) == kind {
        let i = choose|i: int| 0 <= i < tokens.len() && kind_of(#[trigger] tokens[i]) == kind;
        assert(tokens.contains(tokens[i]));
    }
}

/// A component: its name and its fields.
#[derive(Debug)]
pub struct ParsedOptions {
    pub ident: String,
    pub fields: Vec<ParsedField>,
}

/// The args from which the code of a component is made.
#[derive(Debug)]
pub struct ComponentArgs {
    pub ident: String,
    pub base_ident: String,
    pub fields: Vec<String>,
    pub field_initialisers: Vec<String>,
}

/// What the args of a component stand for.
pub struct ComponentView {
    pub ident: Seq<char>,
    pub base_ident: Seq<char>,
    pub fields: Seq<Seq<char>>,
    pub field_initialisers: Seq<Seq<char>>,
}

/// Why a component cannot be derived: what is wrong, and at which field, where it is one.
#[derive(Debug)]
pub struct ComponentError {
    pub field: Option<usize>,
    pub message: String,
}

/// What an error of a component stands for.
pub struct ComponentErrorView {
    pub field: Option<int>,
    pub message: Seq<char>,
}

impl ComponentError {
    /// What this error stands for.
    pub open spec fn view(&self) -> ComponentErrorView {
        ComponentErrorView {
            field: match self.field {
                Some(i) => Some(i as int),
                None => None,
            },
            message: self.message@,
        }
    }
}

impl ComponentArgs {
    /// What these args stand for.
    pub open spec fn view(&self) -> ComponentView {
        ComponentView {
            ident: self.ident@,
            base_ident: self.base_ident@,
            fields: text::texts(self.fields@),
            field_initialisers: text::texts(self.field_initialisers@),
        }
    }
}

/// The error at a field.
pub open spec fn at_field(i: nat, message: Seq<char>) -> Result<ComponentView, ComponentErrorView> {
    Err(ComponentErrorView { field: Some(i as int), message })
}

/// What is wrong with the type of the base element field, where something is.
pub open spec fn base_fault(ty: FieldType) -> Option<Seq<char>> {
    match ty {
        FieldType::Path(path) => if is_web_element(path.idents()) {
            None
        } else {
            Some("base element field must be of type thirtyfour::WebElement"@)
        },
        FieldType::Other => Some("base element field is not a thirtyfour::WebElement"@),
    }
}

/// What is wrong with the type of the base element field, where something is.
fn base_fault_text(ty: &FieldType) -> (r: Option<String>)
    ensures
        text::opt_text(r) == base_fault(*ty),
{
    match ty {
        FieldType::Path(path) => {
            let web_element: [&str; 2] = ["WebElement", "thirtyfour|WebElement"];
            assert(web_element@[0]@ == "WebElement"@);
            assert(web_element@[1]@ == "thirtyfour|WebElement"@);
            if is_type(path, &web_element) {
                None
            } else {
                Some("base element field must be of type thirtyfour::WebElement".to_owned())
            }
        },
        FieldType::Other => Some("base element field is not a thirtyfour::WebElement".to_owned()),
    }
}

/// What the fields of a component from `i` on come to, behind what the others came to: one of
/// them is the base element, and each of the others has its definition and its initialiser.
pub open spec fn component_of(
    fields: Seq<ParsedField>,
    i: nat,
    so_far: ComponentView,
    base: Option<Seq<char>>,
) -> Result<ComponentView, ComponentErrorView>
    decreases fields.len() - i,
{
    if i >= fields.len() {
        match base {
            Some(base_ident) => Ok(ComponentView { base_ident, ..so_far }),
            None => Err(
                ComponentErrorView {
                    field: None,
                    message:
                        "base field not found. Add the #[base] attribute for the base WebElement field"@,
                },
            ),
        }
    } else {
        let field = fields[i as int];
        if field.base() {
            if base is Some {
                at_field(i, "cannot specify multiple base fields"@)
            } else {
                match base_fault(field.ty) {
                    Some(message) => at_field(i, message),
                    None => component_of(fields, i + 1, so_far, Some(field.ident@)),
                }
            }
        } else {
            match field.initialiser() {
                Ok(code) => component_of(
                    fields,
                    i + 1,
                    ComponentView {
                        fields: so_far.fields.push(field.def()),
                        field_initialisers: so_far.field_initialisers.push(code),
                        ..so_far
                    },
                    base,
                ),
                Err(message) => at_field(i, message),
            }
        }
    }
}

/// A component without fields.
pub open spec fn bare_component(ident: Seq<char>) -> ComponentView {
    ComponentView {
        ident,
        base_ident: Seq::empty(),
        fields: Seq::empty(),
        field_initialisers: Seq::empty(),
    }
}

/// The name of the base element field of a component that can be derived is that of one of its
/// fields, and no other field is a base element field.
pub proof fn lemma_one_base(
    fields: Seq<ParsedField>,
    i: nat,
    so_far: ComponentView,
    base: Option<Seq<char>>,
)
    requires
        i <= fields.len(),
        component_of(fields, i, so_far, base) is Ok,
    ensures
        base matches Some(b) ==> component_of(fields, i, so_far, base)->Ok_0.base_ident == b
            && forall|j: int| i <= j < fields.len() ==> !(#[trigger] fields[j]).base(),
        base is None ==> exists|k: int|
            i <= k < fields.len() && (#[trigger] fields[k]).base() && fields[k].ident@
                == component_of(fields, i, so_far, base)->Ok_0.base_ident && forall|j: int|
                i <= j < fields.len() && j != k ==> !(#[trigger] fields[j]).base(),
    decreases fields.len() - i,
{
    if i < fields.len() {
        let field = fields[i as int];
        if field.base() {
            lemma_one_base(fields, i + 1, so_far, Some(field.ident@));
        } else {
            let next = ComponentView {
                fields: so_far.fields.push(field.def()),
                field_initialisers: so_far.field_initialisers.push(field.initialiser()->Ok_0),
                ..so_far
            };
            lemma_one_base(fields, i + 1, next, base);
        }
    }
}

impl ComponentArgs {
    /// The args of a component, or why it cannot be derived.
    pub fn try_from(opts: ParsedOptions) -> (r: Result<ComponentArgs, ComponentError>)
        requires
            !lacks_selector(opts.fields@, 0, false),
        ensures
            match r {
                Ok(args) => component_of(opts.fields@, 0, bare_component(opts.ident@), None) == Ok::<
                    ComponentView,
                    ComponentErrorView,
                >(args@),
                Err(e) => component_of(opts.fields@, 0, bare_component(opts.ident@), None) == Err::<
                    ComponentView,
                    ComponentErrorView,
                >(e@),
            },
    {
        let mut base: Option<String> = None;
        let mut defs: Vec<String> = Vec::new();
        let mut inits: Vec<String> = Vec::new();
        proof {
            assert(text::texts(defs@) == Seq::<Seq<char>>::empty());
        }
        let ghost whole = component_of(opts.fields@, 0, bare_component(opts.ident@), None);
        let mut i: usize = 0;
        while i < opts.fields.len()
            invariant
                i <= opts.fields.len(),
                !lacks_selector(opts.fields@, i as nat, base is Some),
                whole == component_of(opts.fields@, 0, bare_component(opts.ident@), None),
                whole == component_of(
                    opts.fields@,
                    i as nat,
                    ComponentView {
                        ident: opts.ident@,
                        base_ident: Seq::empty(),
                        fields: text::texts(defs@),
                        field_initialisers: text::texts(inits@),
                    },
                    text::opt_text(base),
                ),
            decreases opts.fields.len() - i,
        {
            let field: &ParsedField = &opts.fields[i];
            if field.is_base() {
                if base.is_some() {
                    return Err(
                        ComponentError {
                            field: Some(i),
                            message: "cannot specify multiple base fields".to_owned(),
                        },
                    );
                }
                match base_fault_text(&field.ty) {
                    Some(message) => return Err(ComponentError { field: Some(i), message }),
                    None => {},
                }
                base = Some(field.ident.clone());
            } else {
                let def: String = field.get_def();
                let init: String = match field.get_initialiser() {
                    Ok(code) => code,
                    Err(message) => return Err(ComponentError { field: Some(i), message }),
                };
                let ghost d = text::texts(defs@);
                let ghost n = text::texts(inits@);
                defs.push(def);
                inits.push(init);
                proof {
                    assert(text::texts(defs@) == d.push(def@));
                    assert(text::texts(inits@) == n.push(init@));
                }
            }
            i = i + 1;
        }
        match base {
            Some(base_ident) => Ok(
                ComponentArgs {
                    ident: opts.ident,
                    base_ident,
                    fields: defs,
                    field_initialisers: inits,
                },
            ),
            None => Err(
                ComponentError {
                    field: None,
                    message:
                        "base field not found. Add the #[base] attribute for the base WebElement field".to_owned(),
                },
            ),
        }
    }

    /// The code of the component: its constructor, its conversion from an element, and its base
    /// element.
    pub fn to_code(&self) -> (r: String)
        ensures
            r@ == component_code(self@),
    {
        let inits: String = join(&self.field_initialisers, " ");
        let mut code: String = cat5(
            "impl ",
            self.ident.as_str(),
            " { pub fn new(base: ::thirtyfour::WebElement) -> Self { ",
            inits.as_str(),
            " Self { ",
        );
        code.append(cat2(self.base_ident.as_str(), ": base, ").as_str());
        code.append(join(&self.fields, ", ").as_str());
        if self.fields.len() != 0 {
            code.append(",");
        }
        code.append(" } } } ");
        code.append(
            cat3(
                "#[automatically_derived] impl From<::thirtyfour::WebElement> for ",
                self.ident.as_str(),
                " { fn from(elem: ::thirtyfour::WebElement) -> Self { Self::new(elem) } } ",
            ).as_str(),
        );
        code.append(
            cat5(
                "#[automatically_derived] impl ::thirtyfour::components::Component for ",
                self.ident.as_str(),
                " { fn base_element(&self) -> ::thirtyfour::WebElement { self.",
                self.base_ident.as_str(),
                ".clone() } }",
            ).as_str(),
        );
        code
    }
}

/// The code of a component: its constructor, which runs the initialisers of the fields and then
/// puts them together with the base element; its conversion from an element; and its base
/// element.
pub open spec fn component_code(c: ComponentView) -> Seq<char> {
    "impl "@ + c.ident + " { pub fn new(base: ::thirtyfour::WebElement) -> Self { "@ + text::joined(
        c.field_initialisers,
        " "@,
    ) + " Self { "@ + (c.base_ident + ": base, "@) + text::joined(c.fields, ", "@) + (if c.fields.len() == 0 {
        Seq::empty()
    } else {
        ","@
    }) + " } } } "@ + (
    "#[automatically_derived] impl From<::thirtyfour::WebElement> for "@ + c.ident
        + " { fn from(elem: ::thirtyfour::WebElement) -> Self { Self::new(elem) } } "@) + (
    "#[automatically_derived] impl ::thirtyfour::components::Component for "@ + c.ident
        + " { fn base_element(&self) -> ::thirtyfour::WebElement { self."@ + c.base_ident
        + ".clone() } }"@)
}

impl ParsedOptions {
    /// Whether a field with tokens of which none says what to look for comes before any other
    /// fault.
    pub fn lacks_selector(&self) -> (r: bool)
        ensures
            r == lacks_selector(self.fields@, 0, false),
    {
        let mut has_base: bool = false;
        let mut i: usize = 0;
        while i < self.fields.len()
            invariant
                i <= self.fields.len(),
                lacks_selector(self.fields@, 0, false) == lacks_selector(
                    self.fields@,
                    i as nat,
                    has_base,
                ),
            decreases self.fields.len() - i,
        {
            let field: &ParsedField = &self.fields[i];
            if field.is_base() {
                if has_base || base_fault_text(&field.ty).is_some() {
                    return false;
                }
                has_base = true;
            } else {
                if !field.is_complete() {
                    return true;
                }
                if field.get_initialiser().is_err() {
                    return false;
                }
            }
            i = i + 1;
        }
        false
    }
}

/// The code that derives a component, or why it cannot be derived.
pub fn expand_component_derive(opts: ParsedOptions) -> (r: Result<String, ComponentError>)
    requires
        !lacks_selector(opts.fields@, 0, false),
    ensures
        match component_of(opts.fields@, 0, bare_component(opts.ident@), None) {
            Ok(c) => r matches Ok(code) && code@ == component_code(c),
            Err(e) => r matches Err(f) && f@ == e,
        },
{
    match ComponentArgs::try_from(opts) {
        Ok(args) => Ok(args.to_code()),
        Err(e) => Err(e),
    }
}

} // verus!
