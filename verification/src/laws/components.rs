//! What the code of a component says.
use vstd::prelude::*;

use crate::bytoken::{ByToken, ByTokens, Meta, MetaPath, TokenView, WaitOptions};
use crate::bytoken;
use crate::component::{
    expand_component_derive, fix_type, is_multi_resolver, ComponentArgs, ComponentError, FieldAttr,
    FieldType, Kind, MultiResolverArgs, MultiResolverOptions, ParsedField, ParsedOptions,
    SingleResolverArgs, SingleResolverOptions, TypeArg, TypeArgs, TypePath, TypeSegment,
};
use crate::component;
use crate::laws::attributes;
use crate::text;

verus! {

/// The code for a selector: the constructor of `By` that the attribute names, with the literal as
/// its argument.
pub open spec fn selector_text(t: ByToken) -> Option<Seq<char>> {
    match t {
        ByToken::Id(s) => Some("By::Id("@ + s@ + ")"@),
        ByToken::Tag(s) => Some("By::Tag("@ + s@ + ")"@),
        ByToken::LinkText(s) => Some("By::LinkText("@ + s@ + ")"@),
        ByToken::Css(s) => Some("By::Css("@ + s@ + ")"@),
        ByToken::XPath(s) => Some("By::XPath("@ + s@ + ")"@),
        ByToken::Name(s) => Some("By::Name("@ + s@ + ")"@),
        ByToken::ClassName(s) => Some("By::ClassName("@ + s@ + ")"@),
        ByToken::Testid(s) => Some("By::Testid("@ + s@ + ")"@),
        _ => None,
    }
}

/// The code that is taken from tokens is that of their one selector.
pub proof fn law_selector_code(p: int)
    ensures
        forall|ts: &mut ByTokens, r: String| #[trigger]
            call_ensures(ByTokens::take_by, (ts,), r) && 0 <= p < ts.tokens@.len() && selector_text(
                ts.tokens@[p],
            ) is Some && (forall|q: int|
                0 <= q < ts.tokens@.len() && q != p ==> selector_text(#[trigger] ts.tokens@[q])
                    is None) ==> selector_text(ts.tokens@[p]) == Some(r@),
{
    assert forall|ts: &mut ByTokens, r: String| #[trigger]
        call_ensures(ByTokens::take_by, (ts,), r) && 0 <= p < ts.tokens@.len() && selector_text(
            ts.tokens@[p],
        ) is Some && (forall|q: int|
            0 <= q < ts.tokens@.len() && q != p ==> selector_text(#[trigger] ts.tokens@[q])
                is None) implies selector_text(ts.tokens@[p]) == Some(r@) by {
        let t = choose|t: TokenView| #[trigger]
            (*ts)@.contains(t) && t.is_selector() && r@ == component::by_code(t);
        let i = choose|i: int| 0 <= i < (*ts)@.len() && (*ts)@[i] == t;
        assert((*ts)@[i] == ts.tokens@[i]@);
        assert(selector_text(ts.tokens@[i]) is Some);
        assert(i == p);
    }
}

/// Selectors of different kinds have different code, whatever their literals are, and selectors of
/// one kind have the same code where their literals are the same.
pub proof fn law_selectors_differ(a: ByToken, b: ByToken)
    requires
        selector_text(a) is Some,
        selector_text(b) is Some,
    ensures
        selector_text(a) == selector_text(b) <==> a@ == b@,
{
    reveal_strlit("By::Id(");
    reveal_strlit("By::Tag(");
    reveal_strlit("By::LinkText(");
    reveal_strlit("By::Css(");
    reveal_strlit("By::XPath(");
    reveal_strlit("By::Name(");
    reveal_strlit("By::ClassName(");
    reveal_strlit("By::Testid(");
    reveal_strlit(")");
    let (x, y) = (selector_text(a)->0, selector_text(b)->0);
    if x == y {
        let (m, n) = (head_of(a), head_of(b));
        lemma_heads(a);
        lemma_heads(b);
        assert(x[m - 1] == '(' && y[n - 1] == '(');
        assert(forall|k: int| 0 <= k < m - 1 ==> x[k] != '(');
        assert(forall|k: int| 0 <= k < n - 1 ==> y[k] != '(');
        assert(m == n);
        assert(a@ == b@) by {
            lemma_same_head(a, b);
        }
    }
}

/// How long the code is before the literal.
pub open spec fn head_of(t: ByToken) -> int {
    match t {
        ByToken::Id(_) => 7,
        ByToken::Tag(_) => 8,
        ByToken::LinkText(_) => 13,
        ByToken::Css(_) => 8,
        ByToken::XPath(_) => 10,
        ByToken::Name(_) => 9,
        ByToken::ClassName(_) => 14,
        ByToken::Testid(_) => 11,
        _ => 0,
    }
}

proof fn lemma_heads(t: ByToken)
    requires
        selector_text(t) is Some,
    ensures
        selector_text(t)->0.len() > head_of(t) > 4,
        selector_text(t)->0[head_of(t) - 1] == '(',
        forall|k: int| 0 <= k < head_of(t) - 1 ==> selector_text(t)->0[k] != '(',
{
    reveal_strlit("By::Id(");
    reveal_strlit("By::Tag(");
    reveal_strlit("By::LinkText(");
    reveal_strlit("By::Css(");
    reveal_strlit("By::XPath(");
    reveal_strlit("By::Name(");
    reveal_strlit("By::ClassName(");
    reveal_strlit("By::Testid(");
    reveal_strlit(")");
    let x = selector_text(t)->0;
    match t {
        ByToken::Id(s) => {
            assert forall|k: int| 0 <= k < 7 implies x[k] == "By::Id("@[k] by {}
            assert(x[0] == 'B');
            assert(x[1] == 'y');
            assert(x[2] == ':');
            assert(x[3] == ':');
            assert(x[4] == 'I');
            assert(x[5] == 'd');
            assert(x[6] == '(');
        },
        ByToken::Tag(s) => {
            assert forall|k: int| 0 <= k < 8 implies x[k] == "By::Tag("@[k] by {}
            assert(x[0] == 'B');
            assert(x[1] == 'y');
            assert(x[2] == ':');
            assert(x[3] == ':');
            assert(x[4] == 'T');
            assert(x[5] == 'a');
            assert(x[6] == 'g');
            assert(x[7] == '(');
        },
        ByToken::LinkText(s) => {
            assert forall|k: int| 0 <= k < 13 implies x[k] == "By::LinkText("@[k] by {}
            assert(x[0] == 'B');
            assert(x[1] == 'y');
            assert(x[2] == ':');
            assert(x[3] == ':');
            assert(x[4] == 'L');
            assert(x[5] == 'i');
            assert(x[6] == 'n');
            assert(x[7] == 'k');
            assert(x[8] == 'T');
            assert(x[9] == 'e');
            assert(x[10] == 'x');
            assert(x[11] == 't');
            assert(x[12] == '(');
        },
        ByToken::Css(s) => {
            assert forall|k: int| 0 <= k < 8 implies x[k] == "By::Css("@[k] by {}
            assert(x[0] == 'B');
            assert(x[1] == 'y');
            assert(x[2] == ':');
            assert(x[3] == ':');
            assert(x[4] == 'C');
            assert(x[5] == 's');
            assert(x[6] == 's');
            assert(x[7] == '(');
        },
        ByToken::XPath(s) => {
            assert forall|k: int| 0 <= k < 10 implies x[k] == "By::XPath("@[k] by {}
            assert(x[0] == 'B');
            assert(x[1] == 'y');
            assert(x[2] == ':');
            assert(x[3] == ':');
            assert(x[4] == 'X');
            assert(x[5] == 'P');
            assert(x[6] == 'a');
            assert(x[7] == 't');
            assert(x[8] == 'h');
            assert(x[9] == '(');
        },
        ByToken::Name(s) => {
            assert forall|k: int| 0 <= k < 9 implies x[k] == "By::Name("@[k] by {}
            assert(x[0] == 'B');
            assert(x[1] == 'y');
            assert(x[2] == ':');
            assert(x[3] == ':');
            assert(x[4] == 'N');
            assert(x[5] == 'a');
            assert(x[6] == 'm');
            assert(x[7] == 'e');
            assert(x[8] == '(');
        },
        ByToken::ClassName(s) => {
            assert forall|k: int| 0 <= k < 14 implies x[k] == "By::ClassName("@[k] by {}
            assert(x[0] == 'B');
            assert(x[1] == 'y');
            assert(x[2] == ':');
            assert(x[3] == ':');
            assert(x[4] == 'C');
            assert(x[5] == 'l');
            assert(x[6] == 'a');
            assert(x[7] == 's');
            assert(x[8] == 's');
            assert(x[9] == 'N');
            assert(x[10] == 'a');
            assert(x[11] == 'm');
            assert(x[12] == 'e');
            assert(x[13] == '(');
        },
        ByToken::Testid(s) => {
            assert forall|k: int| 0 <= k < 11 implies x[k] == "By::Testid("@[k] by {}
            assert(x[0] == 'B');
            assert(x[1] == 'y');
            assert(x[2] == ':');
            assert(x[3] == ':');
            assert(x[4] == 'T');
            assert(x[5] == 'e');
            assert(x[6] == 's');
            assert(x[7] == 't');
            assert(x[8] == 'i');
            assert(x[9] == 'd');
            assert(x[10] == '(');
        },
        _ => {},
    }
}

proof fn lemma_same_head(a: ByToken, b: ByToken)
    requires
        selector_text(a) is Some,
        selector_text(a) == selector_text(b),
        head_of(a) == head_of(b),
    ensures
        a@ == b@,
{
    reveal_strlit("By::Id(");
    reveal_strlit("By::Tag(");
    reveal_strlit("By::LinkText(");
    reveal_strlit("By::Css(");
    reveal_strlit("By::XPath(");
    reveal_strlit("By::Name(");
    reveal_strlit("By::ClassName(");
    reveal_strlit("By::Testid(");
    reveal_strlit(")");
    let x = selector_text(a)->0;
    let m = head_of(a);
    let (s, t) = (literal_of(a), literal_of(b));
    assert(x.subrange(m, x.len() - 1) =~= s);
    assert(x.subrange(m, x.len() - 1) =~= t);
    let y = selector_text(b)->0;
    assert(x[4] == y[4] && x[5] == y[5]);
    lemma_letters(a);
    lemma_letters(b);
}

/// The literal of a selector.
pub open spec fn literal_of(t: ByToken) -> Seq<char> {
    match t {
        ByToken::Id(s) => s@,
        ByToken::Tag(s) => s@,
        ByToken::LinkText(s) => s@,
        ByToken::Css(s) => s@,
        ByToken::XPath(s) => s@,
        ByToken::Name(s) => s@,
        ByToken::ClassName(s) => s@,
        ByToken::Testid(s) => s@,
        _ => Seq::empty(),
    }
}

proof fn lemma_letters(t: ByToken)
    requires
        selector_text(t) is Some,
    ensures
        t is Id ==> selector_text(t)->0[4] == 'I' && selector_text(t)->0[5] == 'd'
            && selector_text(t)->0[6] == '(',
        t is Tag
            ==> selector_text(t)->0[4] == 'T' && selector_text(t)->0[5] == 'a'
            && selector_text(t)->0[6] == 'g',
        t is LinkText
            ==> selector_text(t)->0[4] == 'L' && selector_text(t)->0[5] == 'i'
            && selector_text(t)->0[6] == 'n',
        t is Css
            ==> selector_text(t)->0[4] == 'C' && selector_text(t)->0[5] == 's'
            && selector_text(t)->0[6] == 's',
        t is XPath
            ==> selector_text(t)->0[4] == 'X' && selector_text(t)->0[5] == 'P'
            && selector_text(t)->0[6] == 'a',
        t is Name
            ==> selector_text(t)->0[4] == 'N' && selector_text(t)->0[5] == 'a'
            && selector_text(t)->0[6] == 'm',
        t is ClassName
            ==> selector_text(t)->0[4] == 'C' && selector_text(t)->0[5] == 'l'
            && selector_text(t)->0[6] == 'a',
        t is Testid
            ==> selector_text(t)->0[4] == 'T' && selector_text(t)->0[5] == 'e'
            && selector_text(t)->0[6] == 's',
{
    reveal_strlit("By::Id(");
    reveal_strlit("By::Tag(");
    reveal_strlit("By::LinkText(");
    reveal_strlit("By::Css(");
    reveal_strlit("By::XPath(");
    reveal_strlit("By::Name(");
    reveal_strlit("By::ClassName(");
    reveal_strlit("By::Testid(");
    reveal_strlit(")");
}

/// Tokens come one from each item of an attribute, in order, and are valid together.
pub proof fn law_tokens_of_attribute(
    metas: &Vec<Meta>,
    r: Result<ByTokens, (usize, String)>,
    i: int,
    one: Result<ByToken, String>,
    valid: Result<ByTokens, String>,
)
    requires
        call_ensures(ByTokens::from_metas, (metas,), r),
        0 <= i < metas@.len(),
        call_ensures(ByToken::try_from, (&metas@[i],), one),
        r matches Ok(ts) ==> call_ensures(ByTokens::validate, (ts,), valid),
    ensures
        r matches Ok(ts) ==> ts.tokens@.len() == metas@.len() && (one matches Ok(t) && t@
            == ts.tokens@[i]@) && valid is Ok,
        r matches Err(e) ==> e.0 < metas@.len(),
        r is Err && r->Err_0.0 == i && one is Err ==> r->Err_0.1@ == one->Err_0@,
{
    lemma_tokens_of(metas@, 0, Seq::empty());
    if let Ok(ts) = r {
        assert(bytoken::invalid(Seq::<TokenView>::empty()) is None) by {
            bytoken::lemma_valid_tokens(Seq::<TokenView>::empty());
        }
        bytoken::lemma_tokens_valid(metas@, 0, Seq::empty());
        assert(ts@[i] == ts.tokens@[i]@);
    }
}

proof fn lemma_tokens_of(metas: Seq<Meta>, i: nat, tokens: Seq<TokenView>)
    requires
        i <= metas.len(),
    ensures
        bytoken::tokens_of(metas, i, tokens) matches Ok(ts) ==> ts.len() == tokens.len()
            + metas.len() - i && (forall|j: int|
            0 <= j < tokens.len() ==> #[trigger] ts[j] == tokens[j]) && (forall|j: int|
            i <= j < metas.len() ==> bytoken::token_of(#[trigger] metas[j]) == Ok::<
                TokenView,
                Seq<char>,
            >(ts[tokens.len() + j - i])),
        bytoken::tokens_of(metas, i, tokens) matches Err(e) ==> i <= e.0 < metas.len() && (
        bytoken::token_of(metas[e.0]) matches Err(message) ==> e.1 == message),
    decreases metas.len() - i,
{
    if i < metas.len() {
        if let Ok(t) = bytoken::token_of(metas[i as int]) {
            lemma_tokens_of(metas, i + 1, tokens.push(t));
            if let Ok(ts) = bytoken::tokens_of(metas, i, tokens) {
                assert forall|j: int| 0 <= j < tokens.len() implies #[trigger] ts[j]
                    == tokens[j] by {
                    assert(tokens.push(t)[j] == tokens[j]);
                }
                assert(ts[tokens.len() as int] == tokens.push(t)[tokens.len() as int]);
            }
        }
    }
}

proof fn lemma_any(ts: ByTokens, kind: Kind)
    ensures
        component::any_of(ts@, kind) <==> exists|i: int|
            0 <= i < ts.tokens@.len() && component::kind_of((#[trigger] ts.tokens@[i])@) == kind,
{
    if component::any_of(ts@, kind) {
        let t = choose|t: TokenView| #[trigger]
            ts@.contains(t) && component::kind_of(t) == kind;
        let i = choose|i: int| 0 <= i < ts@.len() && ts@[i] == t;
        assert(component::kind_of(ts.tokens@[i]@) == kind);
    }
    if exists|i: int|
        0 <= i < ts.tokens@.len() && component::kind_of((#[trigger] ts.tokens@[i])@) == kind {
        let i = choose|i: int|
            0 <= i < ts.tokens@.len() && component::kind_of((#[trigger] ts.tokens@[i])@) == kind;
        assert(ts@[i] == ts.tokens@[i]@);
        assert(ts@.contains(ts@[i]));
    }
}

proof fn lemma_held(ts: ByTokens, t: TokenView)
    ensures
        ts@.contains(t)
            <==> exists|i: int| 0 <= i < ts.tokens@.len() && (#[trigger] ts.tokens@[i])@ == t,
{
    if ts@.contains(t) {
        let i = choose|i: int| 0 <= i < ts@.len() && ts@[i] == t;
        assert(ts.tokens@[i]@ == t);
    }
    if exists|i: int| 0 <= i < ts.tokens@.len() && (#[trigger] ts.tokens@[i])@ == t {
        let i = choose|i: int| 0 <= i < ts.tokens@.len() && (#[trigger] ts.tokens@[i])@ == t;
        assert(ts@[i] == t);
    }
}

/// Whether a token is among the tokens, by what it counts as.
pub open spec fn holds(ts: ByTokens, name: Seq<char>) -> bool {
    exists|i: int| 0 <= i < ts.tokens@.len() && attributes::counts_as(#[trigger]
        ts.tokens@[i]) == name
}

/// What the options of a resolver hold of the tokens, but for the flag of its kind.
pub open spec fn holds_tokens(
    ts: ByTokens,
    by: String,
    ignore_errors: Option<bool>,
    description: Option<String>,
    wait: Option<WaitOptions>,
    nowait: Option<bool>,
) -> bool {
    &&& holds(ts, "selector"@) ==> exists|i: int|
        0 <= i < ts.tokens@.len() && selector_text(#[trigger] ts.tokens@[i]) == Some(by@)
    &&& ignore_errors == Some(true) <==> holds(ts, "ignore_errors"@)
    &&& nowait == Some(true) <==> holds(ts, "nowait"@)
    &&& match description {
        Some(d) => exists|i: int|
            0 <= i < ts.tokens@.len() && (#[trigger] ts.tokens@[i])@ == TokenView::Description(d@),
        None => !holds(ts, "description"@),
    }
    &&& match wait {
        Some(w) => exists|i: int|
            0 <= i < ts.tokens@.len() && (#[trigger] ts.tokens@[i])@ == TokenView::Wait(
                w.timeout_ms@,
                w.interval_ms@,
            ),
        None => !holds(ts, "wait"@),
    }
}

proof fn lemma_kinds(ts: ByTokens)
    ensures
        component::any_of(ts@, Kind::Selector) == holds(ts, "selector"@),
        component::any_of(ts@, Kind::Multi) == holds(ts, "multi"@),
        component::any_of(ts@, Kind::NotEmpty) == holds(ts, "not_empty"@),
        component::any_of(ts@, Kind::AllowEmpty) == holds(ts, "allow_empty"@),
        component::any_of(ts@, Kind::Single) == holds(ts, "single"@),
        component::any_of(ts@, Kind::First) == holds(ts, "first"@),
        component::any_of(ts@, Kind::IgnoreErrors) == holds(ts, "ignore_errors"@),
        component::any_of(ts@, Kind::Description) == holds(ts, "description"@),
        component::any_of(ts@, Kind::Wait) == holds(ts, "wait"@),
        component::any_of(ts@, Kind::NoWait) == holds(ts, "nowait"@),
        component::any_of(ts@, Kind::CustomFn) == holds(ts, "custom"@),
{
    lemma_count_names();
    lemma_any(ts, Kind::Selector);
    lemma_any(ts, Kind::Multi);
    lemma_any(ts, Kind::NotEmpty);
    lemma_any(ts, Kind::AllowEmpty);
    lemma_any(ts, Kind::Single);
    lemma_any(ts, Kind::First);
    lemma_any(ts, Kind::IgnoreErrors);
    lemma_any(ts, Kind::Description);
    lemma_any(ts, Kind::Wait);
    lemma_any(ts, Kind::NoWait);
    lemma_any(ts, Kind::CustomFn);
    assert(forall|i: int|
        0 <= i < ts.tokens@.len() ==> counts(
            component::kind_of((#[trigger] ts.tokens@[i])@),
        ) == attributes::counts_as(ts.tokens@[i]));
}

/// What the tokens of a kind count as.
pub open spec fn counts(kind: Kind) -> Seq<char> {
    match kind {
        Kind::Selector => "selector"@,
        Kind::Multi => "multi"@,
        Kind::NotEmpty => "not_empty"@,
        Kind::AllowEmpty => "allow_empty"@,
        Kind::Single => "single"@,
        Kind::First => "first"@,
        Kind::IgnoreErrors => "ignore_errors"@,
        Kind::Description => "description"@,
        Kind::Wait => "wait"@,
        Kind::NoWait => "nowait"@,
        Kind::CustomFn => "custom"@,
    }
}

proof fn lemma_count_names()
    ensures
        "selector"@ != "multi"@,
        "selector"@ != "not_empty"@,
        "selector"@ != "allow_empty"@,
        "selector"@ != "single"@,
        "selector"@ != "first"@,
        "selector"@ != "ignore_errors"@,
        "selector"@ != "description"@,
        "selector"@ != "wait"@,
        "selector"@ != "nowait"@,
        "selector"@ != "custom"@,
        "multi"@ != "not_empty"@,
        "multi"@ != "allow_empty"@,
        "multi"@ != "single"@,
        "multi"@ != "first"@,
        "multi"@ != "ignore_errors"@,
        "multi"@ != "description"@,
        "multi"@ != "wait"@,
        "multi"@ != "nowait"@,
        "multi"@ != "custom"@,
        "not_empty"@ != "allow_empty"@,
        "not_empty"@ != "single"@,
        "not_empty"@ != "first"@,
        "not_empty"@ != "ignore_errors"@,
        "not_empty"@ != "description"@,
        "not_empty"@ != "wait"@,
        "not_empty"@ != "nowait"@,
        "not_empty"@ != "custom"@,
        "allow_empty"@ != "single"@,
        "allow_empty"@ != "first"@,
        "allow_empty"@ != "ignore_errors"@,
        "allow_empty"@ != "description"@,
        "allow_empty"@ != "wait"@,
        "allow_empty"@ != "nowait"@,
        "allow_empty"@ != "custom"@,
        "single"@ != "first"@,
        "single"@ != "ignore_errors"@,
        "single"@ != "description"@,
        "single"@ != "wait"@,
        "single"@ != "nowait"@,
        "single"@ != "custom"@,
        "first"@ != "ignore_errors"@,
        "first"@ != "description"@,
        "first"@ != "wait"@,
        "first"@ != "nowait"@,
        "first"@ != "custom"@,
        "ignore_errors"@ != "description"@,
        "ignore_errors"@ != "wait"@,
        "ignore_errors"@ != "nowait"@,
        "ignore_errors"@ != "custom"@,
        "description"@ != "wait"@,
        "description"@ != "nowait"@,
        "description"@ != "custom"@,
        "wait"@ != "nowait"@,
        "wait"@ != "custom"@,
        "nowait"@ != "custom"@,
{
    reveal_strlit("selector");
    reveal_strlit("multi");
    reveal_strlit("not_empty");
    reveal_strlit("allow_empty");
    reveal_strlit("single");
    reveal_strlit("first");
    reveal_strlit("ignore_errors");
    reveal_strlit("description");
    reveal_strlit("wait");
    reveal_strlit("nowait");
    reveal_strlit("custom");
    assert("selector"@.len() != "multi"@.len());
    assert("selector"@.len() != "not_empty"@.len());
    assert("selector"@.len() != "allow_empty"@.len());
    assert("selector"@.len() != "single"@.len());
    assert("selector"@.len() != "first"@.len());
    assert("selector"@.len() != "ignore_errors"@.len());
    assert("selector"@.len() != "description"@.len());
    assert("selector"@.len() != "wait"@.len());
    assert("selector"@.len() != "nowait"@.len());
    assert("selector"@.len() != "custom"@.len());
    assert("multi"@.len() != "not_empty"@.len());
    assert("multi"@.len() != "allow_empty"@.len());
    assert("multi"@.len() != "single"@.len());
    assert("multi"@[0] != "first"@[0]);
    assert("multi"@.len() != "ignore_errors"@.len());
    assert("multi"@.len() != "description"@.len());
    assert("multi"@.len() != "wait"@.len());
    assert("multi"@.len() != "nowait"@.len());
    assert("multi"@.len() != "custom"@.len());
    assert("not_empty"@.len() != "allow_empty"@.len());
    assert("not_empty"@.len() != "single"@.len());
    assert("not_empty"@.len() != "first"@.len());
    assert("not_empty"@.len() != "ignore_errors"@.len());
    assert("not_empty"@.len() != "description"@.len());
    assert("not_empty"@.len() != "wait"@.len());
    assert("not_empty"@.len() != "nowait"@.len());
    assert("not_empty"@.len() != "custom"@.len());
    assert("allow_empty"@.len() != "single"@.len());
    assert("allow_empty"@.len() != "first"@.len());
    assert("allow_empty"@.len() != "ignore_errors"@.len());
    assert("allow_empty"@[0] != "description"@[0]);
    assert("allow_empty"@.len() != "wait"@.len());
    assert("allow_empty"@.len() != "nowait"@.len());
    assert("allow_empty"@.len() != "custom"@.len());
    assert("single"@.len() != "first"@.len());
    assert("single"@.len() != "ignore_errors"@.len());
    assert("single"@.len() != "description"@.len());
    assert("single"@.len() != "wait"@.len());
    assert("single"@[0] != "nowait"@[0]);
    assert("single"@[0] != "custom"@[0]);
    assert("first"@.len() != "ignore_errors"@.len());
    assert("first"@.len() != "description"@.len());
    assert("first"@.len() != "wait"@.len());
    assert("first"@.len() != "nowait"@.len());
    assert("first"@.len() != "custom"@.len());
    assert("ignore_errors"@.len() != "description"@.len());
    assert("ignore_errors"@.len() != "wait"@.len());
    assert("ignore_errors"@.len() != "nowait"@.len());
    assert("ignore_errors"@.len() != "custom"@.len());
    assert("description"@.len() != "wait"@.len());
    assert("description"@.len() != "nowait"@.len());
    assert("description"@.len() != "custom"@.len());
    assert("wait"@.len() != "nowait"@.len());
    assert("wait"@.len() != "custom"@.len());
    assert("nowait"@[0] != "custom"@[0]);
}

/// A resolver for one element holds what the tokens say. Tokens for many elements are too much for
/// it, and beside a function of the user's own all but `single` are.
pub proof fn law_single_options(ts: ByTokens, r: Result<SingleResolverOptions, String>)
    requires
        call_ensures(SingleResolverOptions::try_from, (ts,), r),
    ensures
        match r {
            Ok(SingleResolverOptions::CustomFn(f)) => exists|i: int|
                0 <= i < ts.tokens@.len() && (#[trigger] ts.tokens@[i])@ == TokenView::CustomFn(f@),
            Ok(
                SingleResolverOptions::Opts { by, first, ignore_errors, description, wait, nowait },
            ) => {
                &&& !holds(ts, "custom"@)
                &&& first == Some(true) <==> holds(ts, "first"@)
                &&& holds_tokens(ts, by, ignore_errors, description, wait, nowait)
            },
            Err(message) => message@ == "unexpected extra args"@,
        },
        r is Err <==> if holds(ts, "custom"@) {
            exists|i: int|
                0 <= i < ts.tokens@.len() && !set!["custom"@, "single"@].contains(
                    attributes::counts_as(#[trigger] ts.tokens@[i]),
                )
        } else {
            holds(ts, "multi"@) || holds(ts, "not_empty"@) || holds(ts, "allow_empty"@)
        },
{
    lemma_kinds(ts);
    lemma_count_names();
    assert(forall|i: int| 0 <= i < ts.tokens@.len() ==> ts@[i] == (#[trigger] ts.tokens@[i])@);
    assert(forall|t: TokenView| #[trigger] ts@.contains(t) ==> exists|i: int|
        0 <= i < ts.tokens@.len() && (#[trigger] ts.tokens@[i])@ == t);
    assert forall|i: int| 0 <= i < ts.tokens@.len() implies ts@.contains(
        (#[trigger] ts.tokens@[i])@,
    ) by {
        assert(ts@[i] == ts.tokens@[i]@);
    }
}

/// A resolver for many elements holds what the tokens say. Tokens for one element are too much for
/// it, and beside a function of the user's own all but `multi` and `not_empty` are.
pub proof fn law_multi_options(ts: ByTokens, r: Result<MultiResolverOptions, String>)
    requires
        call_ensures(MultiResolverOptions::try_from, (ts,), r),
    ensures
        match r {
            Ok(MultiResolverOptions::CustomFn(f)) => exists|i: int|
                0 <= i < ts.tokens@.len() && (#[trigger] ts.tokens@[i])@ == TokenView::CustomFn(f@),
            Ok(
                MultiResolverOptions::Opts { by, allow_empty, ignore_errors, description, wait,
                    nowait },
            ) => {
                &&& !holds(ts, "custom"@)
                &&& allow_empty == Some(true) <==> holds(ts, "allow_empty"@)
                &&& holds_tokens(ts, by, ignore_errors, description, wait, nowait)
            },
            Err(message) => message@ == "unexpected extra args"@,
        },
        r is Err <==> if holds(ts, "custom"@) {
            exists|i: int|
                0 <= i < ts.tokens@.len() && !set!["custom"@, "multi"@, "not_empty"@].contains(
                    attributes::counts_as(#[trigger] ts.tokens@[i]),
                )
        } else {
            holds(ts, "single"@) || holds(ts, "first"@)
        },
{
    lemma_kinds(ts);
    lemma_count_names();
    assert(forall|i: int| 0 <= i < ts.tokens@.len() ==> ts@[i] == (#[trigger] ts.tokens@[i])@);
    assert(forall|t: TokenView| #[trigger] ts@.contains(t) ==> exists|i: int|
        0 <= i < ts.tokens@.len() && (#[trigger] ts.tokens@[i])@ == t);
    assert forall|i: int| 0 <= i < ts.tokens@.len() implies ts@.contains(
        (#[trigger] ts.tokens@[i])@,
    ) by {
        assert(ts@[i] == ts.tokens@[i]@);
    }
}

/// The code for the options of a query: whether errors are ignored, the description, and the wait.
pub open spec fn options_text(
    ignore_errors: Option<bool>,
    description: Option<String>,
    wait: Option<WaitOptions>,
    nowait: Option<bool>,
    path: Seq<char>,
) -> Seq<char> {
    "::thirtyfour::extensions::query::ElementQueryOptions::default().set_ignore_errors("@ + (
    if ignore_errors == Some(true) {
        "::std::option::Option::Some(true)"@
    } else {
        "::std::option::Option::None"@
    }) + ").set_description::<String>("@ + (match description {
        Some(d) => "::std::option::Option::Some(::std::string::ToString::to_string(&"@ + d@ + "))"@,
        None => "::std::option::Option::None"@,
    }) + ").set_wait("@ + (match wait {
        Some(w) =>
        "Some(::thirtyfour::extensions::query::ElementQueryWaitOptions::Wait { timeout: ::std::time::Duration::from_millis("@
            + w.timeout_ms@ + "), interval: ::std::time::Duration::from_millis("@ + w.interval_ms@
            + ") })"@,
        None => if nowait == Some(true) {
            path + "Some(::thirtyfour::extensions::query::ElementQueryWaitOptions::NoWait)"@
        } else {
            path + "None"@
        },
    }) + ")"@
}

/// The code for a resolver calls the constructor of its type that its options say: the one for a
/// function of the user's own with that function, and else the one for its kind, with the selector
/// before the options of the query.
pub proof fn law_single_code(a: &SingleResolverArgs, r: String)
    requires
        call_ensures(SingleResolverArgs::to_code, (a,), r),
    ensures
        match a.options {
            SingleResolverOptions::CustomFn(f) => r@ == a.ty@ + "::new_custom(base.clone(), "@ + f@
                + ")"@,
            SingleResolverOptions::Opts { by, first, ignore_errors, description, wait,
                nowait } => r@
                == a.ty@ + "::"@ + (if first == Some(true) {
                "new_first_opts"@
            } else {
                "new_single_opts"@
            }) + "(base.clone(), "@ + by@ + ", "@ + options_text(
                ignore_errors,
                description,
                wait,
                nowait,
                "::std::option::Option::"@,
            ) + ")"@,
        },
{
    if let SingleResolverOptions::Opts { by, first, ignore_errors, description, wait, nowait } =
        a.options {
        let options = component::options_code(
            ignore_errors == Some(true),
            text::opt_text(description),
            component::wait_view(wait),
            nowait == Some(true),
            "::std::option::Option::"@,
        );
        assert(options =~= options_text(ignore_errors, description, wait, nowait,
            "::std::option::Option::"@));
        assert(r@ =~= a.ty@ + "::"@ + (if first == Some(true) {
            "new_first_opts"@
        } else {
            "new_single_opts"@
        }) + "(base.clone(), "@ + by@ + ", "@ + options + ")"@);
    }
}

/// The code for a resolver calls the constructor of its type that its options say: the one for a
/// function of the user's own with that function, and else the one for its kind, with the selector
/// before the options of the query.
pub proof fn law_multi_code(a: &MultiResolverArgs, r: String)
    requires
        call_ensures(MultiResolverArgs::to_code, (a,), r),
    ensures
        match a.options {
            MultiResolverOptions::CustomFn(f) => r@ == a.ty@ + "::new_custom(base.clone(), "@ + f@
                + ")"@,
            MultiResolverOptions::Opts { by, allow_empty, ignore_errors, description, wait,
                nowait } => r@
                == a.ty@ + "::"@ + (if allow_empty == Some(true) {
                "new_allow_empty_opts"@
            } else {
                "new_not_empty_opts"@
            }) + "(base.clone(), "@ + by@ + ", "@ + options_text(
                ignore_errors,
                description,
                wait,
                nowait,
                ""@,
            ) + ")"@,
        },
{
    if let MultiResolverOptions::Opts { by, allow_empty, ignore_errors, description, wait,
        nowait } = a.options {
        let options = component::options_code(
            ignore_errors == Some(true),
            text::opt_text(description),
            component::wait_view(wait),
            nowait == Some(true),
            ""@,
        );
        assert(options =~= options_text(ignore_errors, description, wait, nowait, ""@));
        assert(r@ =~= a.ty@ + "::"@ + (if allow_empty == Some(true) {
            "new_allow_empty_opts"@
        } else {
            "new_not_empty_opts"@
        }) + "(base.clone(), "@ + by@ + ", "@ + options + ")"@);
    }
}

/// A field is the base where it is marked so or called so, and its attributes for compilation stand
/// in front of its name.
pub proof fn law_field_roles(f: &ParsedField, base: bool, def: String)
    requires
        call_ensures(ParsedField::is_base, (f,), base),
        call_ensures(ParsedField::get_def, (f,), def),
    ensures
        base <==> f.ident@ == "base"@ || exists|i: int|
            0 <= i < f.attrs@.len() && attributes::is_word((#[trigger] f.attrs@[i]).path, "base"@),
        (forall|i: int|
            0 <= i < f.attrs@.len() ==> !attributes::is_word((#[trigger] f.attrs@[i]).path, "cfg"@))
            ==> def@ == f.ident@,
        forall|k: int|
            is_first_attr(f.attrs@, "cfg"@, k) ==> def@ == (#[trigger] f.attrs@[k]).text@ + " "@
                + f.ident@,
{
    lemma_first_attr(f.attrs@, "base"@, 0);
    lemma_first_attr(f.attrs@, "cfg"@, 0);
}

/// The attribute in place `k` is the first one called `name`.
pub open spec fn is_first_attr(attrs: Seq<FieldAttr>, name: Seq<char>, k: int) -> bool {
    &&& 0 <= k < attrs.len()
    &&& attributes::is_word(attrs[k].path, name)
    &&& forall|j: int| 0 <= j < k ==> !attributes::is_word((#[trigger] attrs[j]).path, name)
}

proof fn lemma_first_attr(attrs: Seq<FieldAttr>, name: Seq<char>, i: nat)
    requires
        i <= attrs.len(),
        forall|j: int| 0 <= j < i ==> !attributes::is_word((#[trigger] attrs[j]).path, name),
    ensures
        component::first_attr(attrs, name, i) matches Some(a) ==> exists|k: int|
            is_first_attr(attrs, name, k) && a == #[trigger] attrs[k],
        component::first_attr(attrs, name, i) is None <==> forall|j: int|
            0 <= j < attrs.len() ==> !attributes::is_word((#[trigger] attrs[j]).path, name),
        forall|k: int|
            is_first_attr(attrs, name, k) ==> component::first_attr(attrs, name, i) == Some(
                #[trigger] attrs[k],
            ),
    decreases attrs.len() - i,
{
    if i < attrs.len() {
        if attrs[i as int].path.is(name) {
            assert(is_first_attr(attrs, name, i as int));
            assert forall|k: int| is_first_attr(attrs, name, k) implies component::first_attr(
                attrs,
                name,
                i,
            ) == Some(#[trigger] attrs[k]) by {
                if k < i {
                    assert(!attributes::is_word(attrs[k].path, name));
                } else if k > i {
                    assert(!attributes::is_word(attrs[i as int].path, name));
                }
            }
        } else {
            lemma_first_attr(attrs, name, i + 1);
        }
    }
}

/// A field that names no selector is made by default. One that does is made by the resolver of its
/// type, for many elements where the tokens or the type say so, and for one element else.
pub proof fn law_field_code(
    f: &ParsedField,
    r: Result<String, String>,
    k: int,
    metas: Vec<Meta>,
    path: TypePath,
    tokens: Result<ByTokens, (usize, String)>,
    ty: String,
    multi: bool,
    many: bool,
    one: Result<SingleResolverArgs, String>,
    all: Result<MultiResolverArgs, String>,
    code: String,
)
    requires
        call_ensures(ParsedField::get_initialiser, (f,), r),
        is_first_attr(f.attrs@, "by"@, k),
        f.attrs@[k].metas == Ok::<Vec<Meta>, String>(metas),
        f.ty == FieldType::Path(path),
        forall|j: int|
            0 <= j < f.attrs@.len() ==> !attributes::is_word((#[trigger] f.attrs@[j]).path, "cfg"@),
        call_ensures(ByTokens::from_metas, (&metas,), tokens),
        tokens is Ok,
        call_ensures(fix_type, (&path,), ty),
        call_ensures(is_multi_resolver, (&path,), multi),
        call_ensures(ByTokens::is_multi, (&tokens->Ok_0,), many),
        multi || many ==> call_ensures(MultiResolverArgs::try_new, (ty, tokens->Ok_0), all) && (
        all matches Ok(a) ==> call_ensures(MultiResolverArgs::to_code, (&a,), code)),
        !(multi || many) ==> call_ensures(SingleResolverArgs::try_new, (ty, tokens->Ok_0), one) && (
        one matches Ok(a) ==> call_ensures(SingleResolverArgs::to_code, (&a,), code)),
    ensures
        multi || many ==> match all {
            Ok(_) => r matches Ok(c) && c@ == "let "@ + f.ident@ + " = { "@ + code@ + " };"@,
            Err(message) => r matches Err(m) && m@ == message@,
        },
        !(multi || many) ==> match one {
            Ok(_) => r matches Ok(c) && c@ == "let "@ + f.ident@ + " = { "@ + code@ + " };"@,
            Err(message) => r matches Err(m) && m@ == message@,
        },
{
    lemma_first_attr(f.attrs@, "by"@, 0);
    lemma_first_attr(f.attrs@, "cfg"@, 0);
    let ts = tokens->Ok_0;
    lemma_kinds(ts);
    lemma_any(ts, Kind::Multi);
    assert(many == component::any_of(ts@, Kind::Multi)) by {
        assert(forall|i: int| 0 <= i < ts.tokens@.len() ==> #[trigger] ts@[i] == ts.tokens@[i]@);
        assert(forall|i: int| 0 <= i < ts.tokens@.len() ==> ts@[i] == (#[trigger] ts.tokens@[i])@);
    }
}

/// A field without an attribute for a selector, or of a type that is no path, is made by default.
pub proof fn law_plain_field(f: &ParsedField, r: Result<String, String>)
    requires
        call_ensures(ParsedField::get_initialiser, (f,), r),
        forall|j: int|
            0 <= j < f.attrs@.len() ==> !attributes::is_word((#[trigger] f.attrs@[j]).path, "cfg"@),
        f.ty is Other || forall|j: int|
            0 <= j < f.attrs@.len() ==> !attributes::is_word((#[trigger] f.attrs@[j]).path, "by"@),
    ensures
        r matches Ok(c) && c@ == "let "@ + f.ident@ + " = Default::default();"@,
{
    lemma_first_attr(f.attrs@, "by"@, 0);
    lemma_first_attr(f.attrs@, "cfg"@, 0);
}

/// What stands before the last segment of a path, each segment with its arguments and a path
/// separator.
pub open spec fn segments_text(segments: Seq<TypeSegment>, n: nat) -> Seq<char>
    decreases n,
{
    if n == 0 {
        Seq::empty()
    } else {
        segments_text(segments, (n - 1) as nat) + segments[n - 1].ident@ + args_text(
            segments[n - 1].args,
        ) + "::"@
    }
}

/// The arguments of a segment as they are written.
pub open spec fn args_text(args: TypeArgs) -> Seq<char> {
    match args {
        TypeArgs::Nothing => Seq::empty(),
        TypeArgs::Angle(_, t) => t@,
        TypeArgs::Paren(t) => t@,
    }
}

/// Whether a segment has no arguments.
pub open spec fn no_args(args: TypeArgs) -> bool {
    match args {
        TypeArgs::Nothing => true,
        TypeArgs::Angle(list, _) => list@.len() == 0,
        TypeArgs::Paren(_) => false,
    }
}

proof fn lemma_segments(segments: Seq<TypeSegment>, n: nat)
    ensures
        component::prefix_text(segments, n) == segments_text(segments, n),
    decreases n,
{
    if n > 0 {
        lemma_segments(segments, (n - 1) as nat);
        assert(component::prefix_text(segments, n) =~= segments_text(segments, n));
    }
}

/// A type is written as an expression: the arguments of its last segment stand behind a path
/// separator, and everything else as it is.
pub proof fn law_type_as_expression(path: &TypePath, r: String)
    requires
        call_ensures(fix_type, (path,), r),
        path.segments@.len() > 0,
        !path.leading,
    ensures
        ({
            let last = path.segments@.last();
            let head = segments_text(path.segments@, (path.segments@.len() - 1) as nat);
            r@ == if no_args(last.args) {
                head + last.ident@
            } else {
                head + last.ident@ + "::"@ + args_text(last.args)
            }
        }),
{
    lemma_segments(path.segments@, (path.segments@.len() - 1) as nat);
    let head = segments_text(path.segments@, (path.segments@.len() - 1) as nat);
    let last = path.segments@.last();
    assert(Seq::<char>::empty() + head =~= head);
}

/// The field of a component that is its base, and what the others come to.
pub open spec fn is_the_base(fields: Seq<ParsedField>, k: int) -> bool {
    &&& 0 <= k < fields.len()
    &&& fields[k].base()
    &&& forall|j: int| 0 <= j < fields.len() && j != k ==> !(#[trigger] fields[j]).base()
}

/// The place among the other fields of the field in place `j`, the base being in place `k`.
pub open spec fn place_beside(k: int, j: int) -> int {
    if j < k {
        j
    } else {
        j - 1
    }
}

/// A component has the name that it was given and one base, called after the field that is the base.
/// Every other field stands among its fields and its initialisers, in the order of the fields.
pub proof fn law_component_parts(
    opts: ParsedOptions,
    c: ComponentArgs,
    k: int,
    j: int,
    def: String,
    code: Result<String, String>,
)
    requires
        call_ensures(ComponentArgs::try_from, (opts,), Ok::<ComponentArgs, ComponentError>(c)),
        is_the_base(opts.fields@, k),
        0 <= j < opts.fields@.len(),
        j != k,
        call_ensures(ParsedField::get_def, (&opts.fields@[j],), def),
        call_ensures(ParsedField::get_initialiser, (&opts.fields@[j],), code),
    ensures
        c.ident@ == opts.ident@,
        c.base_ident@ == opts.fields@[k].ident@,
        c.fields@.len() == opts.fields@.len() - 1,
        c.field_initialisers@.len() == opts.fields@.len() - 1,
        c.fields@[place_beside(k, j)]@ == def@,
        code matches Ok(text) && c.field_initialisers@[place_beside(k, j)]@ == text@,
{
    let start = component::bare_component(opts.ident@);
    lemma_component(opts.fields@, 0, start, None, k);
    let p = place_beside(k, j);
    assert(c@.fields[p] == c.fields@[p]@);
    assert(c@.field_initialisers[p] == c.field_initialisers@[p]@);
}

proof fn lemma_component(
    fields: Seq<ParsedField>,
    i: nat,
    so_far: component::ComponentView,
    base: Option<Seq<char>>,
    k: int,
)
    requires
        is_the_base(fields, k),
        i <= fields.len(),
        component::component_of(fields, i, so_far, base) is Ok,
        base is Some <==> k < i,
        base matches Some(b) ==> b == fields[k].ident@,
        so_far.fields.len() == so_far.field_initialisers.len(),
        so_far.fields.len() == (if k < i {
            i - 1
        } else {
            i as int
        }),
        forall|j: int|
            0 <= j < i && j != k ==> so_far.fields[place_beside(k, j)] == (
            #[trigger] fields[j]).def() && fields[j].initialiser() == Ok::<Seq<char>, Seq<char>>(
                so_far.field_initialisers[place_beside(k, j)],
            ),
    ensures
        ({
            let c = component::component_of(fields, i, so_far, base)->Ok_0;
            &&& c.ident == so_far.ident
            &&& c.base_ident == fields[k].ident@
            &&& c.fields.len() == fields.len() - 1
            &&& c.field_initialisers.len() == fields.len() - 1
            &&& forall|j: int|
                0 <= j < fields.len() && j != k ==> c.fields[place_beside(k, j)] == (
                #[trigger] fields[j]).def() && fields[j].initialiser() == Ok::<
                    Seq<char>,
                    Seq<char>,
                >(c.field_initialisers[place_beside(k, j)])
        }),
    decreases fields.len() - i,
{
    if i < fields.len() {
        let field = fields[i as int];
        if field.base() {
            lemma_component(fields, i + 1, so_far, Some(field.ident@), k);
        } else {
            let code = field.initialiser()->Ok_0;
            let next = component::ComponentView {
                fields: so_far.fields.push(field.def()),
                field_initialisers: so_far.field_initialisers.push(code),
                ..so_far
            };
            assert forall|j: int| 0 <= j < i + 1 && j != k implies next.fields[place_beside(k, j)]
                == (#[trigger] fields[j]).def() && fields[j].initialiser() == Ok::<
                Seq<char>,
                Seq<char>,
            >(next.field_initialisers[place_beside(k, j)]) by {
                if j < i {
                    assert(place_beside(k, j) < so_far.fields.len());
                } else {
                    assert(place_beside(k, j) == so_far.fields.len());
                }
            }
            lemma_component(fields, i + 1, next, base, k);
        }
    }
}

/// A component needs its one base: none is an error that names no field, a second one is an error
/// at that field, and so is a base of another type than an element.
pub proof fn law_component_base(opts: ParsedOptions, r: Result<ComponentArgs, ComponentError>)
    requires
        call_ensures(ComponentArgs::try_from, (opts,), r),
    ensures
        opts.fields@.len() == 0 ==> (r matches Err(e) && e.field is None && e.message@
            == "base field not found. Add the #[base] attribute for the base WebElement field"@),
        r matches Ok(c) ==> exists|k: int| is_the_base(opts.fields@, k),
        opts.fields@.len() > 0 && opts.fields@[0].base() && opts.fields@[0].ty is Other ==> (
        r matches Err(e) && e.field == Some(0usize) && e.message@
            == "base element field is not a thirtyfour::WebElement"@),
        opts.fields@.len() > 1 && opts.fields@[0].base() && opts.fields@[1].base()
            && component::base_fault(opts.fields@[0].ty) is None ==> (r matches Err(e) && e.field
            == Some(1usize) && e.message@ == "cannot specify multiple base fields"@),
{
    reveal_with_fuel(component::component_of, 3);
    if r is Ok {
        component::lemma_one_base(
            opts.fields@,
            0,
            component::bare_component(opts.ident@),
            None,
        );
        let fields = opts.fields@;
        let k = choose|k: int|
            0 <= k < fields.len() && (#[trigger] fields[k]).base() && forall|j: int|
                0 <= j < fields.len() && j != k ==> !(#[trigger] fields[j]).base();
        assert(is_the_base(fields, k));
    }
}

/// The code of a component: a constructor from the base, which makes the fields in order and then
/// the component, the conversion from an element, and the way back to it.
pub proof fn law_component_code(c: &ComponentArgs, r: String)
    requires
        call_ensures(ComponentArgs::to_code, (c,), r),
    ensures
        r@ == "impl "@ + c.ident@ + " { pub fn new(base: ::thirtyfour::WebElement) -> Self { "@
            + text::joined(text::texts(c.field_initialisers@), " "@) + " Self { "@ + c.base_ident@
            + ": base, "@ + text::joined(text::texts(c.fields@), ", "@) + (if c.fields@.len() == 0 {
            Seq::empty()
        } else {
            ","@
        }) + " } } } "@ + "#[automatically_derived] impl From<::thirtyfour::WebElement> for "@
            + c.ident@
                + " { fn from(elem: ::thirtyfour::WebElement) -> Self { Self::new(elem) } } "@
            + "#[automatically_derived] impl ::thirtyfour::components::Component for "@ + c.ident@
            + " { fn base_element(&self) -> ::thirtyfour::WebElement { self."@ + c.base_ident@
            + ".clone() } }"@,
{
    let comma = if c.fields@.len() == 0 {
        Seq::<char>::empty()
    } else {
        ","@
    };
    assert(text::texts(c.fields@).len() == c.fields@.len());
    assert(r@ =~= "impl "@ + c.ident@ + " { pub fn new(base: ::thirtyfour::WebElement) -> Self { "@
        + text::joined(text::texts(c.field_initialisers@), " "@) + " Self { "@ + c.base_ident@
        + ": base, "@ + text::joined(text::texts(c.fields@), ", "@) + comma + " } } } "@
        + "#[automatically_derived] impl From<::thirtyfour::WebElement> for "@ + c.ident@
        + " { fn from(elem: ::thirtyfour::WebElement) -> Self { Self::new(elem) } } "@
        + "#[automatically_derived] impl ::thirtyfour::components::Component for "@ + c.ident@
        + " { fn base_element(&self) -> ::thirtyfour::WebElement { self."@ + c.base_ident@
        + ".clone() } }"@);
}

/// Deriving is putting the component together and writing its code.
pub proof fn law_derive(
    opts: ParsedOptions,
    r: Result<String, ComponentError>,
    c: Result<ComponentArgs, ComponentError>,
    code: String,
)
    requires
        call_ensures(expand_component_derive, (opts,), r),
        call_ensures(ComponentArgs::try_from, (opts,), c),
        c matches Ok(args) ==> call_ensures(ComponentArgs::to_code, (&args,), code),
    ensures
        match c {
            Ok(_) => r matches Ok(text) && text@ == code@,
            Err(e) => r matches Err(f) && f.field == e.field && f.message@ == e.message@,
        },
{
}

proof fn lemma_named(idents: Seq<Seq<char>>, words: Seq<Seq<char>>, name: Seq<char>)
    requires
        idents.len() > 0,
        words.len() > 0,
        forall|i: int| 0 <= i < idents.len() ==> !(#[trigger] idents[i]).contains('|'),
        forall|i: int| 0 <= i < words.len() ==> !(#[trigger] words[i]).contains('|'),
        name == text::joined(words, "|"@),
    ensures
        component::named(idents, name) <==> idents == words,
{
    reveal_strlit("|");
    assert("|"@ =~= seq!['|']);
    text::lemma_split_join(idents, '|');
    text::lemma_split_join(words, '|');
}

/// The words of a path.
pub open spec fn words_of(path: TypePath) -> Seq<Seq<char>> {
    Seq::new(path.segments@.len(), |i: int| path.segments@[i].ident@)
}

/// The names of the resolver type.
pub open spec fn resolver_path(words: Seq<Seq<char>>) -> bool {
    ||| words == seq!["ElementResolver"@]
    ||| words == seq!["components"@, "ElementResolver"@]
    ||| words == seq!["thirtyfour"@, "components"@, "ElementResolver"@]
}

/// The names of the vector type.
pub open spec fn vec_path(words: Seq<Seq<char>>) -> bool {
    ||| words == seq!["Vec"@]
    ||| words == seq!["vec"@, "Vec"@]
    ||| words == seq!["std"@, "vec"@, "Vec"@]
    ||| words == seq!["alloc"@, "vec"@, "Vec"@]
}

/// The words are words: none of them holds a bar, and there is one at least.
pub open spec fn plain(words: Seq<Seq<char>>) -> bool {
    words.len() > 0 && forall|i: int| 0 <= i < words.len() ==> !(#[trigger] words[i]).contains('|')
}

proof fn lemma_paths(words: Seq<Seq<char>>)
    requires
        plain(words),
    ensures
        component::is_resolver(words) <==> resolver_path(words),
        component::is_vec(words) <==> vec_path(words),
        component::is_web_element(words) <==> words == seq!["WebElement"@] || words == seq![
            "thirtyfour"@,
            "WebElement"@,
        ],
{
    reveal_with_fuel(text::joined, 4);
    reveal_strlit("|");
    reveal_strlit("ElementResolver");
    reveal_strlit("components");
    reveal_strlit("thirtyfour");
    reveal_strlit("components|ElementResolver");
    reveal_strlit("thirtyfour|components|ElementResolver");
    reveal_strlit("Vec");
    reveal_strlit("vec");
    reveal_strlit("std");
    reveal_strlit("alloc");
    reveal_strlit("vec|Vec");
    reveal_strlit("std|vec|Vec");
    reveal_strlit("alloc|vec|Vec");
    reveal_strlit("WebElement");
    reveal_strlit("thirtyfour|WebElement");
    assert(text::joined(seq!["ElementResolver"@], "|"@) == "ElementResolver"@);
    lemma_named(words, seq!["ElementResolver"@], "ElementResolver"@);
    assert(seq!["components"@, "ElementResolver"@].drop_last() =~= seq!["components"@]);
    assert(text::joined(seq!["components"@, "ElementResolver"@],
        "|"@) =~= "components|ElementResolver"@);
    lemma_named(words, seq!["components"@, "ElementResolver"@], "components|ElementResolver"@);
    assert(seq!["thirtyfour"@, "components"@,
        "ElementResolver"@].drop_last() =~= seq!["thirtyfour"@, "components"@]);
    assert(seq!["thirtyfour"@, "components"@].drop_last() =~= seq!["thirtyfour"@]);
    assert(text::joined(seq!["thirtyfour"@, "components"@, "ElementResolver"@],
        "|"@) =~= "thirtyfour|components|ElementResolver"@);
    lemma_named(words, seq!["thirtyfour"@, "components"@, "ElementResolver"@],
        "thirtyfour|components|ElementResolver"@);
    assert(text::joined(seq!["Vec"@], "|"@) == "Vec"@);
    lemma_named(words, seq!["Vec"@], "Vec"@);
    assert(seq!["vec"@, "Vec"@].drop_last() =~= seq!["vec"@]);
    assert(text::joined(seq!["vec"@, "Vec"@], "|"@) =~= "vec|Vec"@);
    lemma_named(words, seq!["vec"@, "Vec"@], "vec|Vec"@);
    assert(seq!["std"@, "vec"@, "Vec"@].drop_last() =~= seq!["std"@, "vec"@]);
    assert(seq!["std"@, "vec"@].drop_last() =~= seq!["std"@]);
    assert(text::joined(seq!["std"@, "vec"@, "Vec"@], "|"@) =~= "std|vec|Vec"@);
    lemma_named(words, seq!["std"@, "vec"@, "Vec"@], "std|vec|Vec"@);
    assert(seq!["alloc"@, "vec"@, "Vec"@].drop_last() =~= seq!["alloc"@, "vec"@]);
    assert(seq!["alloc"@, "vec"@].drop_last() =~= seq!["alloc"@]);
    assert(text::joined(seq!["alloc"@, "vec"@, "Vec"@], "|"@) =~= "alloc|vec|Vec"@);
    lemma_named(words, seq!["alloc"@, "vec"@, "Vec"@], "alloc|vec|Vec"@);
    assert(text::joined(seq!["WebElement"@], "|"@) == "WebElement"@);
    lemma_named(words, seq!["WebElement"@], "WebElement"@);
    assert(seq!["thirtyfour"@, "WebElement"@].drop_last() =~= seq!["thirtyfour"@]);
    assert(text::joined(seq!["thirtyfour"@, "WebElement"@], "|"@) =~= "thirtyfour|WebElement"@);
    lemma_named(words, seq!["thirtyfour"@, "WebElement"@], "thirtyfour|WebElement"@);
}

/// The first argument that is a path names the vector type.
pub open spec fn takes_vec(args: Seq<TypeArg>) -> bool {
    exists|i: int|
        0 <= i < args.len() && (#[trigger] args[i] matches TypeArg::Path(words) && vec_path(
            text::texts(words@),
        )) && forall|j: int| 0 <= j < i ==> (#[trigger] args[j]) is Other
}

proof fn lemma_takes_vec(args: Seq<TypeArg>, i: nat)
    requires
        forall|j: int|
            0 <= j < args.len() ==> (#[trigger] args[j] matches TypeArg::Path(words) ==> plain(
                text::texts(words@),
            )),
        i <= args.len(),
        forall|j: int| 0 <= j < i ==> (#[trigger] args[j]) is Other,
    ensures
        component::first_path_is_vec(args, i) <==> takes_vec(args),
    decreases args.len() - i,
{
    if i < args.len() {
        match args[i as int] {
            TypeArg::Path(words) => {
                lemma_paths(text::texts(words@));
                if takes_vec(args) {
                    let k = choose|k: int|
                        0 <= k < args.len() && (#[trigger] args[k] matches TypeArg::Path(words)
                            && vec_path(text::texts(words@))) && forall|j: int|
                            0 <= j < k ==> (#[trigger] args[j]) is Other;
                    assert(k == i) by {
                        if k > i {
                            assert(args[i as int] is Other);
                        } else if k < i {
                            assert(args[k] is Other);
                        }
                    }
                }
            },
            TypeArg::Other => {
                lemma_takes_vec(args, i + 1);
            },
        }
    }
}

/// A type resolves many elements where it is called so, or where it is a resolver whose first path
/// argument is a vector.
pub proof fn law_multi_resolver(path: &TypePath, r: bool)
    requires
        call_ensures(is_multi_resolver, (path,), r),
        plain(words_of(*path)),
        path.segments@.last().args matches TypeArgs::Angle(args, _) ==> forall|j: int|
            0 <= j < args@.len() ==> (#[trigger] args@[j] matches TypeArg::Path(words) ==> plain(
                text::texts(words@),
            )),
    ensures
        r <==> (!path.leading && words_of(*path) == seq!["ElementResolverMulti"@]
            && path.segments@[0].args is Nothing) || (resolver_path(words_of(*path)) && (
        path.segments@.last().args matches TypeArgs::Angle(args, _) && takes_vec(args@))),
{
    let words = words_of(*path);
    assert(words =~= path.idents());
    lemma_paths(words);
    if let TypeArgs::Angle(args, _) = path.segments@.last().args {
        lemma_takes_vec(args@, 0);
    }
    if words == seq!["ElementResolverMulti"@] {
        assert(words[0] == path.segments@[0].ident@);
        assert(words.len() == 1);
    }
    if path.is("ElementResolverMulti"@) {
        assert(words =~= seq!["ElementResolverMulti"@]);
    }
}

/// A base of another type than an element is an error that says so.
pub proof fn law_base_type(opts: ParsedOptions, path: TypePath, r: Result<ComponentArgs,
    ComponentError>)
    requires
        call_ensures(ComponentArgs::try_from, (opts,), r),
        opts.fields@.len() > 0,
        opts.fields@[0].base(),
        opts.fields@[0].ty == FieldType::Path(path),
        !component::is_web_element(path.idents()),
    ensures
        r matches Err(e) && e.field == Some(0usize) && e.message@
            == "base element field must be of type thirtyfour::WebElement"@,
{
    reveal_with_fuel(component::component_of, 2);
}

/// A path is an identifier where it has the one segment with that name, and no arguments.
pub proof fn law_type_paths(p: &TypePath, a: &TypeArgs, m: &MetaPath, name: &str)
    ensures
        forall|r: bool| #[trigger]
            call_ensures(TypePath::is_ident, (p, name), r) ==> r == (!p.leading && p.segments@.len()
                == 1 && p.segments@[0].ident@ == name@ && p.segments@[0].args is Nothing),
        forall|r: bool| #[trigger]
            call_ensures(MetaPath::is_ident, (m, name), r) ==> r == (m.single && m.text@ == name@),
        forall|r: bool| #[trigger]
            call_ensures(TypeArgs::is_empty, (a,), r) ==> r == match a {
                TypeArgs::Nothing => true,
                TypeArgs::Angle(args, _) => args@.len() == 0,
                TypeArgs::Paren(_) => false,
            },
{
}

/// A field with tokens is complete where one of them says what to look for or is a function of its
/// own; a field without them always is.
pub proof fn law_complete(f: &ParsedField, metas: Vec<Meta>, tokens: ByTokens, k: int, r: bool)
    requires
        call_ensures(ParsedField::is_complete, (f,), r),
        f.ty is Path,
        is_first_attr(f.attrs@, "by"@, k),
        f.attrs@[k].metas == Ok::<Vec<Meta>, String>(metas),
        call_ensures(ByTokens::from_metas, (&metas,), Ok::<ByTokens, (usize, String)>(tokens)),
    ensures
        r <==> exists|i: int|
            0 <= i < tokens.tokens@.len() && says_what(#[trigger] tokens.tokens@[i]),
{
    lemma_first_attr(f.attrs@, "by"@, 0);
    let views = tokens@;
    assert(component::attr_tokens(f.attrs@[k]) == Ok::<Seq<TokenView>, Seq<char>>(views));
    if exists|i: int| 0 <= i < tokens.tokens@.len() && says_what(#[trigger] tokens.tokens@[i]) {
        let i = choose|i: int|
            0 <= i < tokens.tokens@.len() && says_what(#[trigger] tokens.tokens@[i]);
        assert(views[i] == tokens.tokens@[i]@);
        assert(views.contains(views[i]));
        assert(component::any_of(views, component::kind_of(views[i])));
    }
    if r {
        let t = choose|t: TokenView| #[trigger]
            views.contains(t) && (component::kind_of(t) == Kind::CustomFn || component::kind_of(t)
                == Kind::Selector);
        let i = choose|i: int| 0 <= i < views.len() && views[i] == t;
        assert(views[i] == tokens.tokens@[i]@);
        assert(says_what(tokens.tokens@[i]));
    }
}

/// The token is a selector, or a function that looks by itself.
pub open spec fn says_what(t: ByToken) -> bool {
    match t {
        ByToken::Id(_) => true,
        ByToken::Tag(_) => true,
        ByToken::LinkText(_) => true,
        ByToken::Css(_) => true,
        ByToken::XPath(_) => true,
        ByToken::Name(_) => true,
        ByToken::ClassName(_) => true,
        ByToken::Testid(_) => true,
        ByToken::CustomFn(_) => true,
        _ => false,
    }
}

} // verus!
