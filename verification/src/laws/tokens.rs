//! How the tokens of an attribute are taken out one by one.
use vstd::prelude::*;

use crate::bytoken::{ByTokens, TokenView, WaitOptions};
use crate::component::Kind;
use crate::component;

verus! {

/// The first `token` was taken out where there is one, and nothing else was.
pub open spec fn left_without(
    before: Seq<TokenView>,
    after: Seq<TokenView>,
    token: TokenView,
) -> bool {
    if before.contains(token) {
        exists|p: int|
            0 <= p < before.len() && before[p] == token && !before.take(p).contains(token) && after
                == #[trigger] before.remove(p)
    } else {
        after == before
    }
}

proof fn lemma_first(tokens: Seq<TokenView>, kind: Kind, i: nat)
    ensures
        match component::first_place(tokens, kind, i) {
            Some(p) => i <= p < tokens.len() && component::kind_of(tokens[p]) == kind
                && forall|q: int|
                i <= q < p ==> component::kind_of(#[trigger] tokens[q]) != kind,
            None => forall|q: int|
                i <= q < tokens.len() ==> component::kind_of(#[trigger] tokens[q]) != kind,
        },
    decreases tokens.len() - i,
{
    if i < tokens.len() && component::kind_of(tokens[i as int]) != kind {
        lemma_first(tokens, kind, i + 1);
    }
}

proof fn lemma_left(before: Seq<TokenView>, after: Seq<TokenView>, token: TokenView)
    requires
        after == component::without_first(before, component::kind_of(token)),
        forall|t: TokenView|
            component::kind_of(t) == component::kind_of(token) && #[trigger] before.contains(t)
                && component::first_of(before, component::kind_of(token)) != Some(t) ==> t != token,
        component::any_of(before, component::kind_of(token)) ==> before.contains(token),
    ensures
        left_without(before, after, token),
{
    let kind = component::kind_of(token);
    reveal(component::without_first);
    reveal(component::first_of);
    lemma_first(before, kind, 0);
    if before.contains(token) {
        let k = choose|k: int| 0 <= k < before.len() && before[k] == token;
        assert(component::kind_of(before[k]) == kind);
        let p = component::first_place(before, kind, 0)->0;
        assert(before[p] == token);
        assert(!before.take(p).contains(token));
        assert(after == before.remove(p));
    } else {
        match component::first_place(before, kind, 0) {
            Some(p) => {
                assert(before.contains(before[p]));
                assert(component::any_of(before, kind));
            },
            None => {},
        }
    }
}

/// The `multi` token is taken out where there is one, and only then is it said to be there.
pub proof fn law_take_multi()
    ensures
        forall|b: &mut ByTokens, r: Option<bool>| #[trigger]
            call_ensures(ByTokens::take_multi, (b,), r) ==> (r == Some(true)
                <==> (*b)@.contains(TokenView::Multi)) && r != Some(false)
                && left_without((*b)@, final(b)@, TokenView::Multi),
{
    assert forall|b: &mut ByTokens, r: Option<bool>| #[trigger]
        call_ensures(ByTokens::take_multi, (b,), r) implies (r == Some(true)
            <==> (*b)@.contains(TokenView::Multi)) && r != Some(false)
            && left_without((*b)@, final(b)@, TokenView::Multi) by {
        let before = (*b)@;
        lemma_unit(before, TokenView::Multi);
        lemma_left(before, final(b)@, TokenView::Multi);
    }
}

/// The `single` token is taken out where there is one, and only then is it said to be there.
pub proof fn law_take_single()
    ensures
        forall|b: &mut ByTokens, r: Option<bool>| #[trigger]
            call_ensures(ByTokens::take_single, (b,), r) ==> (r == Some(true)
                <==> (*b)@.contains(TokenView::Single)) && r != Some(false)
                && left_without((*b)@, final(b)@, TokenView::Single),
{
    assert forall|b: &mut ByTokens, r: Option<bool>| #[trigger]
        call_ensures(ByTokens::take_single, (b,), r) implies (r == Some(true)
            <==> (*b)@.contains(TokenView::Single)) && r != Some(false)
            && left_without((*b)@, final(b)@, TokenView::Single) by {
        let before = (*b)@;
        lemma_unit(before, TokenView::Single);
        lemma_left(before, final(b)@, TokenView::Single);
    }
}

/// The `first` token is taken out where there is one, and only then is it said to be there.
pub proof fn law_take_first()
    ensures
        forall|b: &mut ByTokens, r: Option<bool>| #[trigger]
            call_ensures(ByTokens::take_first, (b,), r) ==> (r == Some(true)
                <==> (*b)@.contains(TokenView::First)) && r != Some(false)
                && left_without((*b)@, final(b)@, TokenView::First),
{
    assert forall|b: &mut ByTokens, r: Option<bool>| #[trigger]
        call_ensures(ByTokens::take_first, (b,), r) implies (r == Some(true)
            <==> (*b)@.contains(TokenView::First)) && r != Some(false)
            && left_without((*b)@, final(b)@, TokenView::First) by {
        let before = (*b)@;
        lemma_unit(before, TokenView::First);
        lemma_left(before, final(b)@, TokenView::First);
    }
}

/// The `not_empty` token is taken out where there is one, and only then is it said to be there.
pub proof fn law_take_not_empty()
    ensures
        forall|b: &mut ByTokens, r: Option<bool>| #[trigger]
            call_ensures(ByTokens::take_not_empty, (b,), r) ==> (r == Some(true)
                <==> (*b)@.contains(TokenView::NotEmpty)) && r != Some(false)
                && left_without((*b)@, final(b)@, TokenView::NotEmpty),
{
    assert forall|b: &mut ByTokens, r: Option<bool>| #[trigger]
        call_ensures(ByTokens::take_not_empty, (b,), r) implies (r == Some(true)
            <==> (*b)@.contains(TokenView::NotEmpty)) && r != Some(false)
            && left_without((*b)@, final(b)@, TokenView::NotEmpty) by {
        let before = (*b)@;
        lemma_unit(before, TokenView::NotEmpty);
        lemma_left(before, final(b)@, TokenView::NotEmpty);
    }
}

/// The `allow_empty` token is taken out where there is one, and only then is it said to be there.
pub proof fn law_take_allow_empty()
    ensures
        forall|b: &mut ByTokens, r: Option<bool>| #[trigger]
            call_ensures(ByTokens::take_allow_empty, (b,), r) ==> (r == Some(true)
                <==> (*b)@.contains(TokenView::AllowEmpty)) && r != Some(false)
                && left_without((*b)@, final(b)@, TokenView::AllowEmpty),
{
    assert forall|b: &mut ByTokens, r: Option<bool>| #[trigger]
        call_ensures(ByTokens::take_allow_empty, (b,), r) implies (r == Some(true)
            <==> (*b)@.contains(TokenView::AllowEmpty)) && r != Some(false)
            && left_without((*b)@, final(b)@, TokenView::AllowEmpty) by {
        let before = (*b)@;
        lemma_unit(before, TokenView::AllowEmpty);
        lemma_left(before, final(b)@, TokenView::AllowEmpty);
    }
}

/// The `ignore_errors` token is taken out where there is one, and only then is it said to be there.
pub proof fn law_take_ignore_errors()
    ensures
        forall|b: &mut ByTokens, r: Option<bool>| #[trigger]
            call_ensures(ByTokens::take_ignore_errors, (b,), r) ==> (r == Some(true)
                <==> (*b)@.contains(TokenView::IgnoreErrors)) && r != Some(false)
                && left_without((*b)@, final(b)@, TokenView::IgnoreErrors),
{
    assert forall|b: &mut ByTokens, r: Option<bool>| #[trigger]
        call_ensures(ByTokens::take_ignore_errors, (b,), r) implies (r == Some(true)
            <==> (*b)@.contains(TokenView::IgnoreErrors)) && r != Some(false)
            && left_without((*b)@, final(b)@, TokenView::IgnoreErrors) by {
        let before = (*b)@;
        lemma_unit(before, TokenView::IgnoreErrors);
        lemma_left(before, final(b)@, TokenView::IgnoreErrors);
    }
}

/// The `nowait` token is taken out where there is one, and only then is it said to be there.
pub proof fn law_take_nowait()
    ensures
        forall|b: &mut ByTokens, r: Option<bool>| #[trigger]
            call_ensures(ByTokens::take_nowait, (b,), r) ==> (r == Some(true)
                <==> (*b)@.contains(TokenView::NoWait)) && r != Some(false)
                && left_without((*b)@, final(b)@, TokenView::NoWait),
{
    assert forall|b: &mut ByTokens, r: Option<bool>| #[trigger]
        call_ensures(ByTokens::take_nowait, (b,), r) implies (r == Some(true)
            <==> (*b)@.contains(TokenView::NoWait)) && r != Some(false)
            && left_without((*b)@, final(b)@, TokenView::NoWait) by {
        let before = (*b)@;
        lemma_unit(before, TokenView::NoWait);
        lemma_left(before, final(b)@, TokenView::NoWait);
    }
}

/// A token that stands alone is the only one of its kind.
proof fn lemma_unit(tokens: Seq<TokenView>, token: TokenView)
    requires
        token is Multi || token is Single || token is First || token is NotEmpty
            || token is AllowEmpty
            || token is IgnoreErrors || token is NoWait,
    ensures
        component::any_of(tokens, component::kind_of(token)) <==> tokens.contains(token),
        forall|t: TokenView|
            component::kind_of(t) == component::kind_of(token) && #[trigger] tokens.contains(t)
                && component::first_of(tokens, component::kind_of(token)) != Some(t) ==> t != token,
{
    let kind = component::kind_of(token);
    assert(forall|t: TokenView| #[trigger] component::kind_of(t) == kind ==> t == token);
    reveal(component::first_of);
    lemma_first(tokens, kind, 0);
    if tokens.contains(token) {
        let k = choose|k: int| 0 <= k < tokens.len() && tokens[k] == token;
        assert(component::kind_of(tokens[k]) == kind);
        assert(component::any_of(tokens, kind));
    }
}

/// The first `description` token is taken out with what it holds, and there is none where nothing is.
pub proof fn law_take_description()
    ensures
        forall|b: &mut ByTokens, r: Option<String>| #[trigger]
            call_ensures(ByTokens::take_description, (b,), r) ==> match r {
                Some(s) => (*b)@.contains(TokenView::Description(s@))
                    && left_without((*b)@, final(b)@, TokenView::Description(s@)),
                None => final(b)@ == (*b)@ && forall|i: int|
                    0 <= i < (*b)@.len() ==> !((#[trigger] (*b)@[i]) is Description),
            },
{
    assert forall|b: &mut ByTokens, r: Option<String>| #[trigger]
        call_ensures(ByTokens::take_description, (b,), r) implies match r {
        Some(s) => (*b)@.contains(TokenView::Description(s@))
            && left_without((*b)@, final(b)@, TokenView::Description(s@)),
        None => final(b)@ == (*b)@ && forall|i: int|
            0 <= i < (*b)@.len() ==> !((#[trigger] (*b)@[i]) is Description),
    } by {
        let before = (*b)@;
        reveal(component::without_first);
        reveal(component::first_of);
        lemma_first(before, Kind::Description, 0);
        match r {
            Some(s) => {
                let token = TokenView::Description(s@);
                let p = component::first_place(before, Kind::Description, 0)->0;
                assert(before[p] == token);
                assert(!before.take(p).contains(token)) by {
                    if before.take(p).contains(token) {
                        let k = choose|k: int| 0 <= k < p && before.take(p)[k] == token;
                        assert(component::kind_of(before[k]) == Kind::Description);
                    }
                }
                assert(final(b)@ == before.remove(p));
            },
            None => {
                assert forall|i: int| 0 <= i < before.len()
                    implies !((#[trigger] before[i]) is Description) by {
                    assert(before.contains(before[i]));
                    if before[i] is Description {
                        assert(component::kind_of(before[i]) == Kind::Description);
                        assert(component::any_of(before, Kind::Description));
                    }
                }
                if component::first_place(before, Kind::Description, 0) is Some {
                    let p = component::first_place(before, Kind::Description, 0)->0;
                    assert(before[p] is Description);
                }
            },
        }
    }
}

/// The first `custom` token is taken out with what it holds, and there is none where nothing is.
pub proof fn law_take_custom()
    ensures
        forall|b: &mut ByTokens, r: Option<String>| #[trigger]
            call_ensures(ByTokens::take_custom, (b,), r) ==> match r {
                Some(s) => (*b)@.contains(TokenView::CustomFn(s@))
                    && left_without((*b)@, final(b)@, TokenView::CustomFn(s@)),
                None => final(b)@ == (*b)@ && forall|i: int|
                    0 <= i < (*b)@.len() ==> !((#[trigger] (*b)@[i]) is CustomFn),
            },
{
    assert forall|b: &mut ByTokens, r: Option<String>| #[trigger]
        call_ensures(ByTokens::take_custom, (b,), r) implies match r {
        Some(s) => (*b)@.contains(TokenView::CustomFn(s@))
            && left_without((*b)@, final(b)@, TokenView::CustomFn(s@)),
        None => final(b)@ == (*b)@ && forall|i: int|
            0 <= i < (*b)@.len() ==> !((#[trigger] (*b)@[i]) is CustomFn),
    } by {
        let before = (*b)@;
        reveal(component::without_first);
        reveal(component::first_of);
        lemma_first(before, Kind::CustomFn, 0);
        match r {
            Some(s) => {
                let token = TokenView::CustomFn(s@);
                let p = component::first_place(before, Kind::CustomFn, 0)->0;
                assert(before[p] == token);
                assert(!before.take(p).contains(token)) by {
                    if before.take(p).contains(token) {
                        let k = choose|k: int| 0 <= k < p && before.take(p)[k] == token;
                        assert(component::kind_of(before[k]) == Kind::CustomFn);
                    }
                }
                assert(final(b)@ == before.remove(p));
            },
            None => {
                assert forall|i: int| 0 <= i < before.len()
                    implies !((#[trigger] before[i]) is CustomFn) by {
                    assert(before.contains(before[i]));
                    if before[i] is CustomFn {
                        assert(component::kind_of(before[i]) == Kind::CustomFn);
                        assert(component::any_of(before, Kind::CustomFn));
                    }
                }
                if component::first_place(before, Kind::CustomFn, 0) is Some {
                    let p = component::first_place(before, Kind::CustomFn, 0)->0;
                    assert(before[p] is CustomFn);
                }
            },
        }
    }
}

/// The first `wait` token is taken out with what it holds, and there is none where nothing is.
pub proof fn law_take_wait_options()
    ensures
        forall|b: &mut ByTokens, r: Option<WaitOptions>| #[trigger]
            call_ensures(ByTokens::take_wait_options, (b,), r) ==> match r {
                Some(s) => (*b)@.contains(TokenView::Wait(s.timeout_ms@, s.interval_ms@))
                    && left_without((*b)@, final(b)@, TokenView::Wait(s.timeout_ms@,
                    s.interval_ms@)),
                None => final(b)@ == (*b)@ && forall|i: int|
                    0 <= i < (*b)@.len() ==> !((#[trigger] (*b)@[i]) is Wait),
            },
{
    assert forall|b: &mut ByTokens, r: Option<WaitOptions>| #[trigger]
        call_ensures(ByTokens::take_wait_options, (b,), r) implies match r {
        Some(s) => (*b)@.contains(TokenView::Wait(s.timeout_ms@, s.interval_ms@))
            && left_without((*b)@, final(b)@, TokenView::Wait(s.timeout_ms@, s.interval_ms@)),
        None => final(b)@ == (*b)@ && forall|i: int|
            0 <= i < (*b)@.len() ==> !((#[trigger] (*b)@[i]) is Wait),
    } by {
        let before = (*b)@;
        reveal(component::without_first);
        reveal(component::first_of);
        lemma_first(before, Kind::Wait, 0);
        match r {
            Some(s) => {
                let token = TokenView::Wait(s.timeout_ms@, s.interval_ms@);
                let p = component::first_place(before, Kind::Wait, 0)->0;
                assert(before[p] == token);
                assert(!before.take(p).contains(token)) by {
                    if before.take(p).contains(token) {
                        let k = choose|k: int| 0 <= k < p && before.take(p)[k] == token;
                        assert(component::kind_of(before[k]) == Kind::Wait);
                    }
                }
                assert(final(b)@ == before.remove(p));
            },
            None => {
                assert forall|i: int| 0 <= i < before.len()
                    implies !((#[trigger] before[i]) is Wait) by {
                    assert(before.contains(before[i]));
                    if before[i] is Wait {
                        assert(component::kind_of(before[i]) == Kind::Wait);
                        assert(component::any_of(before, Kind::Wait));
                    }
                }
                if component::first_place(before, Kind::Wait, 0) is Some {
                    let p = component::first_place(before, Kind::Wait, 0)->0;
                    assert(before[p] is Wait);
                }
            },
        }
    }
}

} // verus!
