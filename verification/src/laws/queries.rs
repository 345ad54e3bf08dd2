//! What a query asks for, and what it finds.
use vstd::prelude::*;

use crate::command::{By, CommandView, Selector};
use crate::conditions::{Condition, Named};
use crate::config::SessionPoller;
use crate::driver::Driver;
use crate::duration::Duration;
use crate::error::{WebDriverError, WebDriverErrorInner, WebDriverResult};
use crate::laws::conditions;
use crate::needle::{IntoNeedle, Needle};
use crate::query::{
    get_elements_description, Attempts, ElementPredicate, ElementQuery, ElementQueryOptions,
    ElementQuerySource, ElementQueryWaitOptions, ElementSelector, Filter, MoreAttempts, OneAttempt,
};
use crate::query;
use crate::text;
use crate::types::IntoArcStr;
use crate::webelement::WebElement;

verus! {

/// The last selector got one more filter; nothing else changed.
pub open spec fn filtered<D, F>(q: ElementQuery<D, F>, r: ElementQuery<D, F>) -> bool {
    &&& r@.source == q@.source
    &&& r@.poller == q@.poller
    &&& r@.options == q@.options
    &&& r@.selectors.len() == q@.selectors.len()
    &&& forall|i: int| 0 <= i < q@.selectors.len() - 1
        ==> #[trigger] r@.selectors[i] == q@.selectors[i]
    &&& r@.selectors.last().by == q@.selectors.last().by
    &&& r@.selectors.last().filters@.len() == q@.selectors.last().filters@.len() + 1
    &&& forall|i: int|
        0 <= i < q@.selectors.last().filters@.len() ==> #[trigger] r@.selectors.last().filters@[i]
            == q@.selectors.last().filters@[i]
}

/// The condition that the last filter of a query is.
pub open spec fn last_is<D, F>(r: ElementQuery<D, F>, c: Condition) -> bool {
    r@.selectors.last().filters@.last() == Filter::<F>::Condition(c)
}

/// Errors are ignored while filtering unless the query says otherwise.
pub open spec fn ignores<D, F>(q: ElementQuery<D, F>) -> bool {
    q@.options.ignore_errors != Some(false)
}

proof fn lemma_filtered<D, F>(q: ElementQuery<D, F>, r: ElementQuery<D, F>, f: Filter<F>)
    requires
        q@.selectors.len() > 0,
        r@ == (query::QueryView { selectors: r@.selectors, ..q@ }),
        query::is_filtered(r@.selectors, q@.selectors, f),
    ensures
        filtered(q, r),
        r@.selectors.last().filters@.last() == f,
{
    let (a, b) = (r@.selectors, q@.selectors);
    assert forall|i: int| 0 <= i < b.len() - 1 implies #[trigger] a[i] == b[i] by {
        assert(a.drop_last()[i] == b.drop_last()[i]);
    }
}

/// Elements that are enabled are kept by the command for that.
pub proof fn law_query_and_enabled<D: Driver, F>(
    q: ElementQuery<D, F>,
    r: ElementQuery<D, F>,
    c: Condition,
    e: &WebElement<D>,
    x: WebDriverResult<bool>,
)
    requires
        q@.selectors.len() > 0,
        call_ensures(ElementQuery::<D, F>::and_enabled, (q,), r),
        last_is(r, c),
        call_ensures(Condition::check::<D>, (&c, e), x),
    ensures
        filtered(q, r),
        conditions::decided_by_flag(
            *e.session,
            CommandView::IsElementEnabled(e.element_id@),
            true,
            ignores(q),
            x,
        ),
{
    let given = choose|given: Condition| #[trigger]
        query::is_filtered(r@.selectors, q@.selectors, Filter::<F>::Condition(given))
            && given.probe == crate::conditions::Probe::Flag(crate::conditions::Flag::Enabled)
            && given.wanted == true && given.ignore_errors == ignores(q);
    lemma_filtered(q, r, Filter::<F>::Condition(given));
    assert(given == c);
}

/// Elements that are not enabled are kept by the command for that.
pub proof fn law_query_and_not_enabled<D: Driver, F>(
    q: ElementQuery<D, F>,
    r: ElementQuery<D, F>,
    c: Condition,
    e: &WebElement<D>,
    x: WebDriverResult<bool>,
)
    requires
        q@.selectors.len() > 0,
        call_ensures(ElementQuery::<D, F>::and_not_enabled, (q,), r),
        last_is(r, c),
        call_ensures(Condition::check::<D>, (&c, e), x),
    ensures
        filtered(q, r),
        conditions::decided_by_flag(
            *e.session,
            CommandView::IsElementEnabled(e.element_id@),
            false,
            ignores(q),
            x,
        ),
{
    let given = choose|given: Condition| #[trigger]
        query::is_filtered(r@.selectors, q@.selectors, Filter::<F>::Condition(given))
            && given.probe == crate::conditions::Probe::Flag(crate::conditions::Flag::Enabled)
            && given.wanted == false && given.ignore_errors == ignores(q);
    lemma_filtered(q, r, Filter::<F>::Condition(given));
    assert(given == c);
}

/// Elements that are selected are kept by the command for that.
pub proof fn law_query_and_selected<D: Driver, F>(
    q: ElementQuery<D, F>,
    r: ElementQuery<D, F>,
    c: Condition,
    e: &WebElement<D>,
    x: WebDriverResult<bool>,
)
    requires
        q@.selectors.len() > 0,
        call_ensures(ElementQuery::<D, F>::and_selected, (q,), r),
        last_is(r, c),
        call_ensures(Condition::check::<D>, (&c, e), x),
    ensures
        filtered(q, r),
        conditions::decided_by_flag(
            *e.session,
            CommandView::IsElementSelected(e.element_id@),
            true,
            ignores(q),
            x,
        ),
{
    let given = choose|given: Condition| #[trigger]
        query::is_filtered(r@.selectors, q@.selectors, Filter::<F>::Condition(given))
            && given.probe == crate::conditions::Probe::Flag(crate::conditions::Flag::Selected)
            && given.wanted == true && given.ignore_errors == ignores(q);
    lemma_filtered(q, r, Filter::<F>::Condition(given));
    assert(given == c);
}

/// Elements that are not selected are kept by the command for that.
pub proof fn law_query_and_not_selected<D: Driver, F>(
    q: ElementQuery<D, F>,
    r: ElementQuery<D, F>,
    c: Condition,
    e: &WebElement<D>,
    x: WebDriverResult<bool>,
)
    requires
        q@.selectors.len() > 0,
        call_ensures(ElementQuery::<D, F>::and_not_selected, (q,), r),
        last_is(r, c),
        call_ensures(Condition::check::<D>, (&c, e), x),
    ensures
        filtered(q, r),
        conditions::decided_by_flag(
            *e.session,
            CommandView::IsElementSelected(e.element_id@),
            false,
            ignores(q),
            x,
        ),
{
    let given = choose|given: Condition| #[trigger]
        query::is_filtered(r@.selectors, q@.selectors, Filter::<F>::Condition(given))
            && given.probe == crate::conditions::Probe::Flag(crate::conditions::Flag::Selected)
            && given.wanted == false && given.ignore_errors == ignores(q);
    lemma_filtered(q, r, Filter::<F>::Condition(given));
    assert(given == c);
}

/// Elements that are displayed are kept by the command for that.
pub proof fn law_query_and_displayed<D: Driver, F>(
    q: ElementQuery<D, F>,
    r: ElementQuery<D, F>,
    c: Condition,
    e: &WebElement<D>,
    x: WebDriverResult<bool>,
)
    requires
        q@.selectors.len() > 0,
        call_ensures(ElementQuery::<D, F>::and_displayed, (q,), r),
        last_is(r, c),
        call_ensures(Condition::check::<D>, (&c, e), x),
    ensures
        filtered(q, r),
        conditions::decided_by_flag(
            *e.session,
            CommandView::IsElementDisplayed(e.element_id@),
            true,
            ignores(q),
            x,
        ),
{
    let given = choose|given: Condition| #[trigger]
        query::is_filtered(r@.selectors, q@.selectors, Filter::<F>::Condition(given))
            && given.probe == crate::conditions::Probe::Flag(crate::conditions::Flag::Displayed)
            && given.wanted == true && given.ignore_errors == ignores(q);
    lemma_filtered(q, r, Filter::<F>::Condition(given));
    assert(given == c);
}

/// Elements that are not displayed are kept by the command for that.
pub proof fn law_query_and_not_displayed<D: Driver, F>(
    q: ElementQuery<D, F>,
    r: ElementQuery<D, F>,
    c: Condition,
    e: &WebElement<D>,
    x: WebDriverResult<bool>,
)
    requires
        q@.selectors.len() > 0,
        call_ensures(ElementQuery::<D, F>::and_not_displayed, (q,), r),
        last_is(r, c),
        call_ensures(Condition::check::<D>, (&c, e), x),
    ensures
        filtered(q, r),
        conditions::decided_by_flag(
            *e.session,
            CommandView::IsElementDisplayed(e.element_id@),
            false,
            ignores(q),
            x,
        ),
{
    let given = choose|given: Condition| #[trigger]
        query::is_filtered(r@.selectors, q@.selectors, Filter::<F>::Condition(given))
            && given.probe == crate::conditions::Probe::Flag(crate::conditions::Flag::Displayed)
            && given.wanted == false && given.ignore_errors == ignores(q);
    lemma_filtered(q, r, Filter::<F>::Condition(given));
    assert(given == c);
}

/// Elements that are clickable are kept by the two commands for that.
pub proof fn law_query_and_clickable<D: Driver, F>(
    q: ElementQuery<D, F>,
    r: ElementQuery<D, F>,
    c: Condition,
    e: &WebElement<D>,
    x: WebDriverResult<bool>,
)
    requires
        q@.selectors.len() > 0,
        call_ensures(ElementQuery::<D, F>::and_clickable, (q,), r),
        last_is(r, c),
        call_ensures(Condition::check::<D>, (&c, e), x),
    ensures
        filtered(q, r),
        conditions::clickable_decides(
            *e.session,
            e.element_id@,
            true,
            ignores(q),
            x,
        ),
{
    let given = choose|given: Condition| #[trigger]
        query::is_filtered(r@.selectors, q@.selectors, Filter::<F>::Condition(given))
            && given.probe == crate::conditions::Probe::Flag(crate::conditions::Flag::Clickable)
            && given.wanted == true && given.ignore_errors == ignores(q);
    lemma_filtered(q, r, Filter::<F>::Condition(given));
    assert(given == c);
    conditions::lemma_clickable(e, c, x);
}

/// Elements that are not clickable are kept by the two commands for that.
pub proof fn law_query_and_not_clickable<D: Driver, F>(
    q: ElementQuery<D, F>,
    r: ElementQuery<D, F>,
    c: Condition,
    e: &WebElement<D>,
    x: WebDriverResult<bool>,
)
    requires
        q@.selectors.len() > 0,
        call_ensures(ElementQuery::<D, F>::and_not_clickable, (q,), r),
        last_is(r, c),
        call_ensures(Condition::check::<D>, (&c, e), x),
    ensures
        filtered(q, r),
        conditions::clickable_decides(
            *e.session,
            e.element_id@,
            false,
            ignores(q),
            x,
        ),
{
    let given = choose|given: Condition| #[trigger]
        query::is_filtered(r@.selectors, q@.selectors, Filter::<F>::Condition(given))
            && given.probe == crate::conditions::Probe::Flag(crate::conditions::Flag::Clickable)
            && given.wanted == false && given.ignore_errors == ignores(q);
    lemma_filtered(q, r, Filter::<F>::Condition(given));
    assert(given == c);
    conditions::lemma_clickable(e, c, x);
}

/// Elements whose text matches are kept.
pub proof fn law_query_with_text<D: Driver, F, N: IntoNeedle>(
    q: ElementQuery<D, F>,
    needle: N,
    r: ElementQuery<D, F>,
    c: Condition,
    e: &WebElement<D>,
    x: WebDriverResult<bool>,
)
    requires
        q@.selectors.len() > 0,
        call_ensures(ElementQuery::<D, F>::with_text::<N>, (q, needle), r),
        last_is(r, c),
        call_ensures(Condition::check::<D>, (&c, e), x),
    ensures
        filtered(q, r),
        conditions::decided_by_text(
            *e.session,
            CommandView::GetElementText(e.element_id@),
            needle,
            true,
            ignores(q),
            x,
        ),
{
    let given = choose|given: Condition| #[trigger]
        query::is_filtered(r@.selectors, q@.selectors, Filter::<F>::Condition(given))
            && given.wanted == true
            && given.ignore_errors == ignores(q)
                && (given.probe matches crate::conditions::Probe::Text(n)
            && forall|h: Seq<char>| #[trigger] n.matches_text(h) == needle.matches_with(h));
    lemma_filtered(q, r, Filter::<F>::Condition(given));
    assert(given == c);
}

/// Elements whose text matches are left out.
pub proof fn law_query_without_text<D: Driver, F, N: IntoNeedle>(
    q: ElementQuery<D, F>,
    needle: N,
    r: ElementQuery<D, F>,
    c: Condition,
    e: &WebElement<D>,
    x: WebDriverResult<bool>,
)
    requires
        q@.selectors.len() > 0,
        call_ensures(ElementQuery::<D, F>::without_text::<N>, (q, needle), r),
        last_is(r, c),
        call_ensures(Condition::check::<D>, (&c, e), x),
    ensures
        filtered(q, r),
        conditions::decided_by_text(
            *e.session,
            CommandView::GetElementText(e.element_id@),
            needle,
            false,
            ignores(q),
            x,
        ),
{
    let given = choose|given: Condition| #[trigger]
        query::is_filtered(r@.selectors, q@.selectors, Filter::<F>::Condition(given))
            && given.wanted == false
            && given.ignore_errors == ignores(q)
                && (given.probe matches crate::conditions::Probe::Text(n)
            && forall|h: Seq<char>| #[trigger] n.matches_text(h) == needle.matches_with(h));
    lemma_filtered(q, r, Filter::<F>::Condition(given));
    assert(given == c);
}

/// Elements whose tag matches are kept.
pub proof fn law_query_with_tag<D: Driver, F, N: IntoNeedle>(
    q: ElementQuery<D, F>,
    needle: N,
    r: ElementQuery<D, F>,
    c: Condition,
    e: &WebElement<D>,
    x: WebDriverResult<bool>,
)
    requires
        q@.selectors.len() > 0,
        call_ensures(ElementQuery::<D, F>::with_tag::<N>, (q, needle), r),
        last_is(r, c),
        call_ensures(Condition::check::<D>, (&c, e), x),
    ensures
        filtered(q, r),
        conditions::decided_by_text(
            *e.session,
            CommandView::GetElementTagName(e.element_id@),
            needle,
            true,
            ignores(q),
            x,
        ),
{
    let given = choose|given: Condition| #[trigger]
        query::is_filtered(r@.selectors, q@.selectors, Filter::<F>::Condition(given))
            && given.wanted == true
            && given.ignore_errors == ignores(q)
                && (given.probe matches crate::conditions::Probe::Tag(n)
            && forall|h: Seq<char>| #[trigger] n.matches_text(h) == needle.matches_with(h));
    lemma_filtered(q, r, Filter::<F>::Condition(given));
    assert(given == c);
}

/// Elements whose tag matches are left out.
pub proof fn law_query_without_tag<D: Driver, F, N: IntoNeedle>(
    q: ElementQuery<D, F>,
    needle: N,
    r: ElementQuery<D, F>,
    c: Condition,
    e: &WebElement<D>,
    x: WebDriverResult<bool>,
)
    requires
        q@.selectors.len() > 0,
        call_ensures(ElementQuery::<D, F>::without_tag::<N>, (q, needle), r),
        last_is(r, c),
        call_ensures(Condition::check::<D>, (&c, e), x),
    ensures
        filtered(q, r),
        conditions::decided_by_text(
            *e.session,
            CommandView::GetElementTagName(e.element_id@),
            needle,
            false,
            ignores(q),
            x,
        ),
{
    let given = choose|given: Condition| #[trigger]
        query::is_filtered(r@.selectors, q@.selectors, Filter::<F>::Condition(given))
            && given.wanted == false
            && given.ignore_errors == ignores(q)
                && (given.probe matches crate::conditions::Probe::Tag(n)
            && forall|h: Seq<char>| #[trigger] n.matches_text(h) == needle.matches_with(h));
    lemma_filtered(q, r, Filter::<F>::Condition(given));
    assert(given == c);
}

/// Elements whose id matches are kept.
pub proof fn law_query_with_id<D: Driver, F, N: IntoNeedle>(
    q: ElementQuery<D, F>,
    needle: N,
    r: ElementQuery<D, F>,
    c: Condition,
    e: &WebElement<D>,
    x: WebDriverResult<bool>,
)
    requires
        q@.selectors.len() > 0,
        call_ensures(ElementQuery::<D, F>::with_id::<N>, (q, needle), r),
        last_is(r, c),
        call_ensures(Condition::check::<D>, (&c, e), x),
    ensures
        filtered(q, r),
        conditions::decided_by(
            *e.session,
            CommandView::GetElementAttribute(e.element_id@, "id"@),
            needle,
            true,
            ignores(q),
            x,
        ),
{
    let given = choose|given: Condition| #[trigger]
        query::is_filtered(r@.selectors, q@.selectors, Filter::<F>::Condition(given))
            && given.wanted == true
            && given.ignore_errors == ignores(q)
                && (given.probe matches crate::conditions::Probe::Id(n)
            && forall|h: Seq<char>| #[trigger] n.matches_text(h) == needle.matches_with(h));
    lemma_filtered(q, r, Filter::<F>::Condition(given));
    assert(given == c);
}

/// Elements whose id matches are left out.
pub proof fn law_query_without_id<D: Driver, F, N: IntoNeedle>(
    q: ElementQuery<D, F>,
    needle: N,
    r: ElementQuery<D, F>,
    c: Condition,
    e: &WebElement<D>,
    x: WebDriverResult<bool>,
)
    requires
        q@.selectors.len() > 0,
        call_ensures(ElementQuery::<D, F>::without_id::<N>, (q, needle), r),
        last_is(r, c),
        call_ensures(Condition::check::<D>, (&c, e), x),
    ensures
        filtered(q, r),
        conditions::decided_by(
            *e.session,
            CommandView::GetElementAttribute(e.element_id@, "id"@),
            needle,
            false,
            ignores(q),
            x,
        ),
{
    let given = choose|given: Condition| #[trigger]
        query::is_filtered(r@.selectors, q@.selectors, Filter::<F>::Condition(given))
            && given.wanted == false
            && given.ignore_errors == ignores(q)
                && (given.probe matches crate::conditions::Probe::Id(n)
            && forall|h: Seq<char>| #[trigger] n.matches_text(h) == needle.matches_with(h));
    lemma_filtered(q, r, Filter::<F>::Condition(given));
    assert(given == c);
}

/// Elements whose class matches are kept.
pub proof fn law_query_with_class<D: Driver, F, N: IntoNeedle>(
    q: ElementQuery<D, F>,
    needle: N,
    r: ElementQuery<D, F>,
    c: Condition,
    e: &WebElement<D>,
    x: WebDriverResult<bool>,
)
    requires
        q@.selectors.len() > 0,
        call_ensures(ElementQuery::<D, F>::with_class::<N>, (q, needle), r),
        last_is(r, c),
        call_ensures(Condition::check::<D>, (&c, e), x),
    ensures
        filtered(q, r),
        conditions::decided_by(
            *e.session,
            CommandView::GetElementAttribute(e.element_id@, "class"@),
            needle,
            true,
            ignores(q),
            x,
        ),
{
    let given = choose|given: Condition| #[trigger]
        query::is_filtered(r@.selectors, q@.selectors, Filter::<F>::Condition(given))
            && given.wanted == true
            && given.ignore_errors == ignores(q)
                && (given.probe matches crate::conditions::Probe::Class(n)
            && forall|h: Seq<char>| #[trigger] n.matches_text(h) == needle.matches_with(h));
    lemma_filtered(q, r, Filter::<F>::Condition(given));
    assert(given == c);
}

/// Elements whose class matches are left out.
pub proof fn law_query_without_class<D: Driver, F, N: IntoNeedle>(
    q: ElementQuery<D, F>,
    needle: N,
    r: ElementQuery<D, F>,
    c: Condition,
    e: &WebElement<D>,
    x: WebDriverResult<bool>,
)
    requires
        q@.selectors.len() > 0,
        call_ensures(ElementQuery::<D, F>::without_class::<N>, (q, needle), r),
        last_is(r, c),
        call_ensures(Condition::check::<D>, (&c, e), x),
    ensures
        filtered(q, r),
        conditions::decided_by(
            *e.session,
            CommandView::GetElementAttribute(e.element_id@, "class"@),
            needle,
            false,
            ignores(q),
            x,
        ),
{
    let given = choose|given: Condition| #[trigger]
        query::is_filtered(r@.selectors, q@.selectors, Filter::<F>::Condition(given))
            && given.wanted == false
            && given.ignore_errors == ignores(q)
                && (given.probe matches crate::conditions::Probe::Class(n)
            && forall|h: Seq<char>| #[trigger] n.matches_text(h) == needle.matches_with(h));
    lemma_filtered(q, r, Filter::<F>::Condition(given));
    assert(given == c);
}

/// Elements whose value matches are kept.
pub proof fn law_query_with_value<D: Driver, F, N: IntoNeedle>(
    q: ElementQuery<D, F>,
    needle: N,
    r: ElementQuery<D, F>,
    c: Condition,
    e: &WebElement<D>,
    x: WebDriverResult<bool>,
)
    requires
        q@.selectors.len() > 0,
        call_ensures(ElementQuery::<D, F>::with_value::<N>, (q, needle), r),
        last_is(r, c),
        call_ensures(Condition::check::<D>, (&c, e), x),
    ensures
        filtered(q, r),
        conditions::decided_by(
            *e.session,
            CommandView::GetElementAttribute(e.element_id@, "value"@),
            needle,
            true,
            ignores(q),
            x,
        ),
{
    let given = choose|given: Condition| #[trigger]
        query::is_filtered(r@.selectors, q@.selectors, Filter::<F>::Condition(given))
            && given.wanted == true
            && given.ignore_errors == ignores(q)
                && (given.probe matches crate::conditions::Probe::Value(n)
            && forall|h: Seq<char>| #[trigger] n.matches_text(h) == needle.matches_with(h));
    lemma_filtered(q, r, Filter::<F>::Condition(given));
    assert(given == c);
}

/// Elements whose value matches are left out.
pub proof fn law_query_without_value<D: Driver, F, N: IntoNeedle>(
    q: ElementQuery<D, F>,
    needle: N,
    r: ElementQuery<D, F>,
    c: Condition,
    e: &WebElement<D>,
    x: WebDriverResult<bool>,
)
    requires
        q@.selectors.len() > 0,
        call_ensures(ElementQuery::<D, F>::without_value::<N>, (q, needle), r),
        last_is(r, c),
        call_ensures(Condition::check::<D>, (&c, e), x),
    ensures
        filtered(q, r),
        conditions::decided_by(
            *e.session,
            CommandView::GetElementAttribute(e.element_id@, "value"@),
            needle,
            false,
            ignores(q),
            x,
        ),
{
    let given = choose|given: Condition| #[trigger]
        query::is_filtered(r@.selectors, q@.selectors, Filter::<F>::Condition(given))
            && given.wanted == false
            && given.ignore_errors == ignores(q)
                && (given.probe matches crate::conditions::Probe::Value(n)
            && forall|h: Seq<char>| #[trigger] n.matches_text(h) == needle.matches_with(h));
    lemma_filtered(q, r, Filter::<F>::Condition(given));
    assert(given == c);
}

/// Elements with a attribute that matches are kept.
pub proof fn law_query_with_attribute<D: Driver, F, S: IntoArcStr, N: IntoNeedle>(
    q: ElementQuery<D, F>,
    name: S,
    needle: N,
    r: ElementQuery<D, F>,
    c: Condition,
    e: &WebElement<D>,
    x: WebDriverResult<bool>,
)
    requires
        q@.selectors.len() > 0,
        call_ensures(ElementQuery::<D, F>::with_attribute::<S, N>, (q, name, needle), r),
        last_is(r, c),
        call_ensures(Condition::check::<D>, (&c, e), x),
    ensures
        filtered(q, r),
        conditions::decided_by(
            *e.session,
            CommandView::GetElementAttribute(e.element_id@, name.text()),
            needle,
            true,
            ignores(q),
            x,
        ),
{
    let given = choose|given: Condition| #[trigger]
        query::is_filtered(r@.selectors, q@.selectors, Filter::<F>::Condition(given))
            && given.wanted == true
            && given.ignore_errors == ignores(q)
                && (given.probe matches crate::conditions::Probe::Attributes(items)
            && items.len() == 1 && items[0].0@ == name.text() && forall|h: Seq<char>| #[trigger]
            items[0].1.matches_text(h) == needle.matches_with(h));
    lemma_filtered(q, r, Filter::<F>::Condition(given));
    assert(given == c);
    reveal_with_fuel(crate::conditions::list_verdict, 3);
}

/// Elements are kept by a list of attributes, each asked for by its name.
pub proof fn law_query_with_attributes<D: Driver, F>(
    q: ElementQuery<D, F>,
    desired: Vec<(String, Needle)>,
    r: ElementQuery<D, F>,
    c: Condition,
    e: &WebElement<D>,
    x: WebDriverResult<bool>,
)
    requires
        q@.selectors.len() > 0,
        call_ensures(ElementQuery::<D, F>::with_attributes, (q, desired), r),
        last_is(r, c),
        call_ensures(Condition::check::<D>, (&c, e), x),
    ensures
        filtered(q, r),
        conditions::list_decides(Named::Attribute, *e, desired@, true, ignores(q), x),
{
    let given = choose|given: Condition| #[trigger]
        query::is_filtered(r@.selectors, q@.selectors, Filter::<F>::Condition(given))
            && given == (Condition {
            probe: crate::conditions::Probe::Attributes(desired),
            wanted: true,
            ignore_errors: ignores(q),
        });
    lemma_filtered(q, r, Filter::<F>::Condition(given));
    assert(given == c);
    conditions::lemma_list(Named::Attribute, *e, desired@, 0, true, ignores(q), x);
}

/// Elements with a attribute that matches are left out.
pub proof fn law_query_without_attribute<D: Driver, F, S: IntoArcStr, N: IntoNeedle>(
    q: ElementQuery<D, F>,
    name: S,
    needle: N,
    r: ElementQuery<D, F>,
    c: Condition,
    e: &WebElement<D>,
    x: WebDriverResult<bool>,
)
    requires
        q@.selectors.len() > 0,
        call_ensures(ElementQuery::<D, F>::without_attribute::<S, N>, (q, name, needle), r),
        last_is(r, c),
        call_ensures(Condition::check::<D>, (&c, e), x),
    ensures
        filtered(q, r),
        conditions::decided_by(
            *e.session,
            CommandView::GetElementAttribute(e.element_id@, name.text()),
            needle,
            false,
            ignores(q),
            x,
        ),
{
    let given = choose|given: Condition| #[trigger]
        query::is_filtered(r@.selectors, q@.selectors, Filter::<F>::Condition(given))
            && given.wanted == false
            && given.ignore_errors == ignores(q)
                && (given.probe matches crate::conditions::Probe::Attributes(items)
            && items.len() == 1 && items[0].0@ == name.text() && forall|h: Seq<char>| #[trigger]
            items[0].1.matches_text(h) == needle.matches_with(h));
    lemma_filtered(q, r, Filter::<F>::Condition(given));
    assert(given == c);
    reveal_with_fuel(crate::conditions::list_verdict, 3);
}

/// Elements are left out by a list of attributes, each asked for by its name.
pub proof fn law_query_without_attributes<D: Driver, F>(
    q: ElementQuery<D, F>,
    desired: Vec<(String, Needle)>,
    r: ElementQuery<D, F>,
    c: Condition,
    e: &WebElement<D>,
    x: WebDriverResult<bool>,
)
    requires
        q@.selectors.len() > 0,
        call_ensures(ElementQuery::<D, F>::without_attributes, (q, desired), r),
        last_is(r, c),
        call_ensures(Condition::check::<D>, (&c, e), x),
    ensures
        filtered(q, r),
        conditions::list_decides(Named::Attribute, *e, desired@, false, ignores(q), x),
{
    let given = choose|given: Condition| #[trigger]
        query::is_filtered(r@.selectors, q@.selectors, Filter::<F>::Condition(given))
            && given == (Condition {
            probe: crate::conditions::Probe::Attributes(desired),
            wanted: false,
            ignore_errors: ignores(q),
        });
    lemma_filtered(q, r, Filter::<F>::Condition(given));
    assert(given == c);
    conditions::lemma_list(Named::Attribute, *e, desired@, 0, false, ignores(q), x);
}

/// Elements with a property that matches are kept.
pub proof fn law_query_with_property<D: Driver, F, S: IntoArcStr, N: IntoNeedle>(
    q: ElementQuery<D, F>,
    name: S,
    needle: N,
    r: ElementQuery<D, F>,
    c: Condition,
    e: &WebElement<D>,
    x: WebDriverResult<bool>,
)
    requires
        q@.selectors.len() > 0,
        call_ensures(ElementQuery::<D, F>::with_property::<S, N>, (q, name, needle), r),
        last_is(r, c),
        call_ensures(Condition::check::<D>, (&c, e), x),
    ensures
        filtered(q, r),
        conditions::decided_by_property(
            *e.session,
            CommandView::GetElementProperty(e.element_id@, name.text()),
            needle,
            true,
            ignores(q),
            x,
        ),
{
    let given = choose|given: Condition| #[trigger]
        query::is_filtered(r@.selectors, q@.selectors, Filter::<F>::Condition(given))
            && given.wanted == true
            && given.ignore_errors == ignores(q)
                && (given.probe matches crate::conditions::Probe::Properties(items)
            && items.len() == 1 && items[0].0@ == name.text() && forall|h: Seq<char>| #[trigger]
            items[0].1.matches_text(h) == needle.matches_with(h));
    lemma_filtered(q, r, Filter::<F>::Condition(given));
    assert(given == c);
    reveal_with_fuel(crate::conditions::list_verdict, 3);
}

/// Elements are kept by a list of properties, each asked for by its name.
pub proof fn law_query_with_properties<D: Driver, F>(
    q: ElementQuery<D, F>,
    desired: Vec<(String, Needle)>,
    r: ElementQuery<D, F>,
    c: Condition,
    e: &WebElement<D>,
    x: WebDriverResult<bool>,
)
    requires
        q@.selectors.len() > 0,
        call_ensures(ElementQuery::<D, F>::with_properties, (q, desired), r),
        last_is(r, c),
        call_ensures(Condition::check::<D>, (&c, e), x),
    ensures
        filtered(q, r),
        conditions::list_decides(Named::Property, *e, desired@, true, ignores(q), x),
{
    let given = choose|given: Condition| #[trigger]
        query::is_filtered(r@.selectors, q@.selectors, Filter::<F>::Condition(given))
            && given == (Condition {
            probe: crate::conditions::Probe::Properties(desired),
            wanted: true,
            ignore_errors: ignores(q),
        });
    lemma_filtered(q, r, Filter::<F>::Condition(given));
    assert(given == c);
    conditions::lemma_list(Named::Property, *e, desired@, 0, true, ignores(q), x);
}

/// Elements with a property that matches are left out.
pub proof fn law_query_without_property<D: Driver, F, S: IntoArcStr, N: IntoNeedle>(
    q: ElementQuery<D, F>,
    name: S,
    needle: N,
    r: ElementQuery<D, F>,
    c: Condition,
    e: &WebElement<D>,
    x: WebDriverResult<bool>,
)
    requires
        q@.selectors.len() > 0,
        call_ensures(ElementQuery::<D, F>::without_property::<S, N>, (q, name, needle), r),
        last_is(r, c),
        call_ensures(Condition::check::<D>, (&c, e), x),
    ensures
        filtered(q, r),
        conditions::decided_by_property(
            *e.session,
            CommandView::GetElementProperty(e.element_id@, name.text()),
            needle,
            false,
            ignores(q),
            x,
        ),
{
    let given = choose|given: Condition| #[trigger]
        query::is_filtered(r@.selectors, q@.selectors, Filter::<F>::Condition(given))
            && given.wanted == false
            && given.ignore_errors == ignores(q)
                && (given.probe matches crate::conditions::Probe::Properties(items)
            && items.len() == 1 && items[0].0@ == name.text() && forall|h: Seq<char>| #[trigger]
            items[0].1.matches_text(h) == needle.matches_with(h));
    lemma_filtered(q, r, Filter::<F>::Condition(given));
    assert(given == c);
    reveal_with_fuel(crate::conditions::list_verdict, 3);
}

/// Elements are left out by a list of properties, each asked for by its name.
pub proof fn law_query_without_properties<D: Driver, F>(
    q: ElementQuery<D, F>,
    desired: Vec<(String, Needle)>,
    r: ElementQuery<D, F>,
    c: Condition,
    e: &WebElement<D>,
    x: WebDriverResult<bool>,
)
    requires
        q@.selectors.len() > 0,
        call_ensures(ElementQuery::<D, F>::without_properties, (q, desired), r),
        last_is(r, c),
        call_ensures(Condition::check::<D>, (&c, e), x),
    ensures
        filtered(q, r),
        conditions::list_decides(Named::Property, *e, desired@, false, ignores(q), x),
{
    let given = choose|given: Condition| #[trigger]
        query::is_filtered(r@.selectors, q@.selectors, Filter::<F>::Condition(given))
            && given == (Condition {
            probe: crate::conditions::Probe::Properties(desired),
            wanted: false,
            ignore_errors: ignores(q),
        });
    lemma_filtered(q, r, Filter::<F>::Condition(given));
    assert(given == c);
    conditions::lemma_list(Named::Property, *e, desired@, 0, false, ignores(q), x);
}

/// Elements with a CSS property that matches are kept.
pub proof fn law_query_with_css_property<D: Driver, F, S: IntoArcStr, N: IntoNeedle>(
    q: ElementQuery<D, F>,
    name: S,
    needle: N,
    r: ElementQuery<D, F>,
    c: Condition,
    e: &WebElement<D>,
    x: WebDriverResult<bool>,
)
    requires
        q@.selectors.len() > 0,
        call_ensures(ElementQuery::<D, F>::with_css_property::<S, N>, (q, name, needle), r),
        last_is(r, c),
        call_ensures(Condition::check::<D>, (&c, e), x),
    ensures
        filtered(q, r),
        conditions::decided_by_css_property(
            *e.session,
            CommandView::GetElementCssValue(e.element_id@, name.text()),
            needle,
            true,
            ignores(q),
            x,
        ),
{
    let given = choose|given: Condition| #[trigger]
        query::is_filtered(r@.selectors, q@.selectors, Filter::<F>::Condition(given))
            && given.wanted == true
            && given.ignore_errors == ignores(q)
                && (given.probe matches crate::conditions::Probe::CssProperties(items)
            && items.len() == 1 && items[0].0@ == name.text() && forall|h: Seq<char>| #[trigger]
            items[0].1.matches_text(h) == needle.matches_with(h));
    lemma_filtered(q, r, Filter::<F>::Condition(given));
    assert(given == c);
    reveal_with_fuel(crate::conditions::list_verdict, 3);
}

/// Elements are kept by a list of CSS properties, each asked for by its name.
pub proof fn law_query_with_css_properties<D: Driver, F>(
    q: ElementQuery<D, F>,
    desired: Vec<(String, Needle)>,
    r: ElementQuery<D, F>,
    c: Condition,
    e: &WebElement<D>,
    x: WebDriverResult<bool>,
)
    requires
        q@.selectors.len() > 0,
        call_ensures(ElementQuery::<D, F>::with_css_properties, (q, desired), r),
        last_is(r, c),
        call_ensures(Condition::check::<D>, (&c, e), x),
    ensures
        filtered(q, r),
        conditions::list_decides(Named::CssProperty, *e, desired@, true, ignores(q), x),
{
    let given = choose|given: Condition| #[trigger]
        query::is_filtered(r@.selectors, q@.selectors, Filter::<F>::Condition(given))
            && given == (Condition {
            probe: crate::conditions::Probe::CssProperties(desired),
            wanted: true,
            ignore_errors: ignores(q),
        });
    lemma_filtered(q, r, Filter::<F>::Condition(given));
    assert(given == c);
    conditions::lemma_list(Named::CssProperty, *e, desired@, 0, true, ignores(q), x);
}

/// Elements with a CSS property that matches are left out.
pub proof fn law_query_without_css_property<D: Driver, F, S: IntoArcStr, N: IntoNeedle>(
    q: ElementQuery<D, F>,
    name: S,
    needle: N,
    r: ElementQuery<D, F>,
    c: Condition,
    e: &WebElement<D>,
    x: WebDriverResult<bool>,
)
    requires
        q@.selectors.len() > 0,
        call_ensures(ElementQuery::<D, F>::without_css_property::<S, N>, (q, name, needle), r),
        last_is(r, c),
        call_ensures(Condition::check::<D>, (&c, e), x),
    ensures
        filtered(q, r),
        conditions::decided_by_css_property(
            *e.session,
            CommandView::GetElementCssValue(e.element_id@, name.text()),
            needle,
            false,
            ignores(q),
            x,
        ),
{
    let given = choose|given: Condition| #[trigger]
        query::is_filtered(r@.selectors, q@.selectors, Filter::<F>::Condition(given))
            && given.wanted == false
            && given.ignore_errors == ignores(q)
                && (given.probe matches crate::conditions::Probe::CssProperties(items)
            && items.len() == 1 && items[0].0@ == name.text() && forall|h: Seq<char>| #[trigger]
            items[0].1.matches_text(h) == needle.matches_with(h));
    lemma_filtered(q, r, Filter::<F>::Condition(given));
    assert(given == c);
    reveal_with_fuel(crate::conditions::list_verdict, 3);
}

/// Elements are left out by a list of CSS properties, each asked for by its name.
pub proof fn law_query_without_css_properties<D: Driver, F>(
    q: ElementQuery<D, F>,
    desired: Vec<(String, Needle)>,
    r: ElementQuery<D, F>,
    c: Condition,
    e: &WebElement<D>,
    x: WebDriverResult<bool>,
)
    requires
        q@.selectors.len() > 0,
        call_ensures(ElementQuery::<D, F>::without_css_properties, (q, desired), r),
        last_is(r, c),
        call_ensures(Condition::check::<D>, (&c, e), x),
    ensures
        filtered(q, r),
        conditions::list_decides(Named::CssProperty, *e, desired@, false, ignores(q), x),
{
    let given = choose|given: Condition| #[trigger]
        query::is_filtered(r@.selectors, q@.selectors, Filter::<F>::Condition(given))
            && given == (Condition {
            probe: crate::conditions::Probe::CssProperties(desired),
            wanted: false,
            ignore_errors: ignores(q),
        });
    lemma_filtered(q, r, Filter::<F>::Condition(given));
    assert(given == c);
    conditions::lemma_list(Named::CssProperty, *e, desired@, 0, false, ignores(q), x);
}

/// A filter of the user's own is one more filter of the last selector.
pub proof fn law_query_with_filter<D, F>(q: ElementQuery<D, F>, f: F, r: ElementQuery<D, F>)
    requires
        q@.selectors.len() > 0,
        call_ensures(ElementQuery::<D, F>::with_filter, (q, f), r),
    ensures
        filtered(q, r),
        r@.selectors.last().filters@.last() == Filter::Custom(f),
{
    lemma_filtered(q, r, Filter::Custom(f));
}

/// A new query has its one selector and no options, and what it is told later it has beside them.
pub proof fn law_new_query<D, F>(
    source: ElementQuerySource<D>,
    by: By,
    poller: SessionPoller,
    r: ElementQuery<D, F>,
)
    requires
        call_ensures(ElementQuery::<D, F>::new, (source, by, poller), r),
    ensures
        r@.source == source,
        r@.poller == poller,
        r@.selectors.len() == 1,
        r@.selectors[0].by == by,
        r@.selectors[0].filters@.len() == 0,
        r@.options.ignore_errors is None,
        r@.options.description is None,
        r@.options.wait is None,
{
}

/// Everything but the options and the poller is as it was.
pub open spec fn same_search<D, F>(q: ElementQuery<D, F>, r: ElementQuery<D, F>) -> bool {
    r@.source == q@.source && r@.selectors == q@.selectors
}

/// A poller that waits up to `timeout`, in steps of `interval`.
pub open spec fn waits(p: SessionPoller, timeout: Duration, interval: Duration) -> bool {
    p matches SessionPoller::WithTimeout(w) && w.timeout() == timeout && w.interval() == interval
        && w.tries() == 0
}

/// A query is described, told what to do with errors, and told how long to wait, each by its own
/// call.
pub proof fn law_query_options<D, F>(
    q: ElementQuery<D, F>,
    description: &str,
    ignore: bool,
    poller: SessionPoller,
    timeout: Duration,
    interval: Duration,
)
    ensures
        forall|r: ElementQuery<D, F>| #[trigger]
            call_ensures(ElementQuery::<D, F>::desc, (q, description), r)
            ==> same_search(q, r) && r@.poller == q@.poller
            && r@.options.description == Some(description@)
            && r@.options.ignore_errors == q@.options.ignore_errors
            && r@.options.wait == q@.options.wait,
        forall|r: ElementQuery<D, F>| #[trigger]
            call_ensures(ElementQuery::<D, F>::ignore_errors, (q, ignore), r)
            ==> same_search(q, r) && r@.poller == q@.poller
            && r@.options.ignore_errors == Some(ignore)
            && r@.options.description == q@.options.description
            && r@.options.wait == q@.options.wait,
        forall|r: ElementQuery<D, F>| #[trigger]
            call_ensures(ElementQuery::<D, F>::with_poller, (q, poller), r)
            ==> same_search(q, r) && r@.poller == poller && r@.options == q@.options,
        forall|r: ElementQuery<D, F>| #[trigger]
            call_ensures(ElementQuery::<D, F>::wait, (q, timeout, interval), r)
            ==> same_search(q, r) && waits(r@.poller, timeout, interval)
            && r@.options == q@.options,
        forall|r: ElementQuery<D, F>| #[trigger]
            call_ensures(ElementQuery::<D, F>::nowait, (q,), r)
            ==> same_search(q, r) && r@.poller is NoWait && r@.options == q@.options,
        forall|r: &SessionPoller| #[trigger] call_ensures(ElementQuery::<D, F>::poller, (&q,), r)
            ==> *r == q@.poller,
{
}

/// Options that are set at once replace those before, and with them how long is waited where they
/// say so.
pub proof fn law_query_all_options<D, F>(
    q: ElementQuery<D, F>,
    o: ElementQueryOptions,
    r: ElementQuery<D, F>,
)
    requires
        call_ensures(ElementQuery::<D, F>::options, (q, o), r),
    ensures
        same_search(q, r),
        r@.options == o@,
        o@.wait matches Some(ElementQueryWaitOptions::Wait { timeout, interval }) ==> waits(
            r@.poller,
            timeout,
            interval,
        ),
        o@.wait matches Some(ElementQueryWaitOptions::NoWait) ==> r@.poller is NoWait,
        o@.wait is None || (o@.wait matches Some(ElementQueryWaitOptions::WaitDefault))
            ==> r@.poller
            == q@.poller,
{
}

/// Options are set one by one, and are not set where nothing was said.
pub proof fn law_options<S: IntoArcStr>(
    o: ElementQueryOptions,
    yes: bool,
    t: S,
    w: ElementQueryWaitOptions,
    d: ElementQueryOptions,
    dw: ElementQueryWaitOptions,
)
    requires
        call_ensures(<ElementQueryOptions as Default>::default, (), d),
        call_ensures(<ElementQueryWaitOptions as Default>::default, (), dw),
    ensures
        d@.ignore_errors is None && d@.description is None && d@.wait is None,
        dw is WaitDefault,
        forall|r: ElementQueryOptions| #[trigger]
            call_ensures(ElementQueryOptions::ignore_errors, (o, yes), r)
            ==> r@.ignore_errors == Some(yes) && r@.description == o@.description
            && r@.wait == o@.wait,
        forall|x: Option<bool>, r: ElementQueryOptions| #[trigger]
            call_ensures(ElementQueryOptions::set_ignore_errors, (o, x), r)
            ==> r@.ignore_errors == x && r@.description == o@.description && r@.wait == o@.wait,
        forall|r: ElementQueryOptions| #[trigger]
            call_ensures(ElementQueryOptions::description::<S>, (o, t), r)
            ==> r@.description == Some(t.text()) && r@.ignore_errors == o@.ignore_errors
            && r@.wait == o@.wait,
        forall|r: ElementQueryOptions| #[trigger]
            call_ensures(ElementQueryOptions::set_description::<S>, (o, Some(t)), r)
            ==> r@.description == Some(t.text()) && r@.ignore_errors == o@.ignore_errors
            && r@.wait == o@.wait,
        forall|r: ElementQueryOptions| #[trigger]
            call_ensures(ElementQueryOptions::set_description::<S>, (o, None::<S>), r)
            ==> r@.description is None && r@.ignore_errors == o@.ignore_errors
            && r@.wait == o@.wait,
        forall|r: ElementQueryOptions| #[trigger]
            call_ensures(ElementQueryOptions::wait, (o, w), r)
            ==> r@.wait == Some(w) && r@.ignore_errors == o@.ignore_errors
            && r@.description == o@.description,
        forall|x: Option<ElementQueryWaitOptions>, r: ElementQueryOptions| #[trigger]
            call_ensures(ElementQueryOptions::set_wait, (o, x), r)
            ==> r@.wait == x && r@.ignore_errors == o@.ignore_errors
            && r@.description == o@.description,
{
}

/// One more selector is tried after those before.
pub proof fn law_query_or<D, F>(q: ElementQuery<D, F>, by: By, r: ElementQuery<D, F>)
    requires
        call_ensures(ElementQuery::<D, F>::or, (q, by), r),
    ensures
        r@.source == q@.source,
        r@.poller == q@.poller,
        r@.options == q@.options,
        r@.selectors.len() == q@.selectors.len() + 1,
        forall|i: int| 0 <= i < q@.selectors.len()
            ==> #[trigger] r@.selectors[i] == q@.selectors[i],
        r@.selectors.last().by == by,
        r@.selectors.last().filters@.len() == 0,
{
    assert forall|i: int| 0 <= i < q@.selectors.len() implies #[trigger] r@.selectors[i]
        == q@.selectors[i] by {
        assert(r@.selectors.drop_last()[i] == r@.selectors[i]);
    }
}

/// A selector starts without filters and gains them at its end.
pub proof fn law_selector<F>(by: By, f: Filter<F>)
    ensures
        forall|r: ElementSelector<F>| #[trigger] call_ensures(ElementSelector::<F>::new, (by,), r)
            ==> r.by == by && r.filters@.len() == 0,
        forall|s: &mut ElementSelector<F>, r: ()| #[trigger]
            call_ensures(ElementSelector::<F>::add_filter, (s, f), r)
            ==> final(s).by == s.by && final(s).filters@ == s.filters@.push(f),
{
}

/// A query in a session asks for all elements of the page, and one in an element for those below it,
/// with the selector that it was given.
pub proof fn law_query_source<D>(d: &D, e: WebElement<D>, by: By, selector: Selector)
    requires
        call_ensures(By::into_selector, (by,), selector),
    ensures
        ElementQuerySource::Driver(d).command(by@) == CommandView::FindElements(selector@),
        ElementQuerySource::<D>::Driver(d).session() == *d,
        ElementQuerySource::Element(e).command(by@) == CommandView::FindElementsFromElement(
            e.element_id@,
            selector@,
        ),
        ElementQuerySource::Element(e).session() == *e.session,
{
}

/// What people read of a number of elements: one, many or unknown, and their description in front
/// where there is one.
pub proof fn law_elements_description(count: Option<usize>, description: &str, r: String)
    requires
        call_ensures(get_elements_description, (count, description), r),
    ensures
        ({
            let noun = match count {
                Some(n) => if n == 1 {
                    "element"@
                } else {
                    "elements"@
                },
                None => "element(s)"@,
            };
            &&& text::trimmed(description@).len() == 0 ==> r@ == noun
            &&& text::trimmed(description@).len() > 0 ==> r@ == "'"@ + text::escaped(description@)
                + "' "@ + noun
        }),
{
    if text::trimmed(description@).len() == 0 {
        assert(text::trimmed(description@) =~= Seq::<char>::empty());
    }
}

/// The error for a query that found nothing, or too much.
pub open spec fn not_found(e: WebDriverError, message: Seq<char>) -> bool {
    e@ matches WebDriverErrorInner::NoSuchElement(i) && i.status == 400 && i.error@ == message
        && i.value.message@ == message && i.value.error is None && i.value.stacktrace is None
        && i.value.data is None
}

/// The selectors of a query as people read them, in brackets and with commas between them.
pub open spec fn selectors_text<F>(selectors: Seq<ElementSelector<F>>) -> Seq<char> {
    "["@ + text::joined(
        Seq::new(selectors.len(), |i: int| selectors[i].by@.shown()),
        ","@,
    ) + "]"@
}

/// What a query says where it found nothing.
pub open spec fn nothing_found<D, F>(q: ElementQuery<D, F>, none: Seq<char>) -> Seq<char> {
    "no such element: "@ + none + " not found using selectors: "@ + selectors_text(q@.selectors)
}

/// What a query is described as.
pub open spec fn description_of<D, F>(q: ElementQuery<D, F>) -> Seq<char> {
    match q@.options.description {
        Some(d) => d,
        None => Seq::empty(),
    }
}

/// The first element of the first selector that finds any, or the error that says none was found.
pub proof fn law_first<'a, D: Driver, F: ElementPredicate<'a, D>, A: Attempts>(
    q: &ElementQuery<'a, D, F>,
    described: &str,
    none: String,
)
    requires
        described@ == description_of(*q),
        call_ensures(get_elements_description, (None::<usize>, described), none),
    ensures
        forall|a: &mut A, r: WebDriverResult<WebElement<'a, D>>| #[trigger]
            call_ensures(ElementQuery::<'a, D, F>::first::<A>, (q, a), r)
            ==> exists|x: WebDriverResult<Vec<WebElement<'a, D>>>| #[trigger]
            q.polled(*a, *final(a), true, false, x) && match x {
            Err(e) => r matches Err(f) && f == e,
            Ok(v) => if v@.len() == 0 {
                r matches Err(e) && not_found(e, nothing_found(*q, none@))
            } else {
                r matches Ok(w) && w == v@[0]
            },
        },
{
    assert(query::not_found_message(q@.selectors, q.described()) == nothing_found(*q, none@));
}

/// The first element where any is found, and nothing where none is.
pub proof fn law_first_opt<'a, D: Driver, F: ElementPredicate<'a, D>, A: Attempts>(
    q: &ElementQuery<'a, D, F>,
    described: &str,
    none: String,
)
    requires
        described@ == description_of(*q),
        call_ensures(get_elements_description, (None::<usize>, described), none),
    ensures
        forall|a: &mut A, r: WebDriverResult<Option<WebElement<'a, D>>>| #[trigger]
            call_ensures(ElementQuery::<'a, D, F>::first_opt::<A>, (q, a), r)
            ==> exists|x: WebDriverResult<Vec<WebElement<'a, D>>>| #[trigger]
            q.polled(*a, *final(a), true, false, x) && match x {
            Err(e) => r matches Err(f) && f == e,
            Ok(v) => if v@.len() == 0 {
                r matches Ok(o) && o is None
            } else {
                r matches Ok(Some(w)) && w == v@[0]
            },
        },
{
    assert(query::not_found_message(q@.selectors, q.described()) == nothing_found(*q, none@));
}

/// There is an element where any is found.
pub proof fn law_any_exists<'a, D: Driver, F: ElementPredicate<'a, D>, A: Attempts>(
    q: &ElementQuery<'a, D, F>,
    described: &str,
    none: String,
)
    requires
        described@ == description_of(*q),
        call_ensures(get_elements_description, (None::<usize>, described), none),
    ensures
        forall|a: &mut A, r: WebDriverResult<bool>| #[trigger]
            call_ensures(ElementQuery::<'a, D, F>::any_exists::<A>, (q, a), r)
            ==> exists|x: WebDriverResult<Vec<WebElement<'a, D>>>| #[trigger]
            q.polled(*a, *final(a), true, false, x) && match x {
            Err(e) => r matches Err(f) && f == e,
            Ok(v) => r matches Ok(b) && b == (v@.len() > 0),
        },
{
    assert(query::not_found_message(q@.selectors, q.described()) == nothing_found(*q, none@));
}

/// There is no element where none is found any more, which is waited for.
pub proof fn law_not_exists<'a, D: Driver, F: ElementPredicate<'a, D>, A: Attempts>(
    q: &ElementQuery<'a, D, F>,
    described: &str,
    none: String,
)
    requires
        described@ == description_of(*q),
        call_ensures(get_elements_description, (None::<usize>, described), none),
    ensures
        forall|a: &mut A, r: WebDriverResult<bool>| #[trigger]
            call_ensures(ElementQuery::<'a, D, F>::not_exists::<A>, (q, a), r)
            ==> exists|x: WebDriverResult<Vec<WebElement<'a, D>>>| #[trigger]
            q.polled(*a, *final(a), false, true, x) && match x {
            Err(e) => r matches Err(f) && f == e,
            Ok(v) => r matches Ok(b) && b == (v@.len() == 0),
        },
{
    assert(query::not_found_message(q@.selectors, q.described()) == nothing_found(*q, none@));
}

/// The elements of the first selector that finds any, and an error where none is found.
pub proof fn law_all_required<'a, D: Driver, F: ElementPredicate<'a, D>, A: Attempts>(
    q: &ElementQuery<'a, D, F>,
    described: &str,
    none: String,
)
    requires
        described@ == description_of(*q),
        call_ensures(get_elements_description, (None::<usize>, described), none),
    ensures
        forall|a: &mut A, r: WebDriverResult<Vec<WebElement<'a, D>>>| #[trigger]
            call_ensures(ElementQuery::<'a, D, F>::all_required::<A>, (q, a), r)
            ==> exists|x: WebDriverResult<Vec<WebElement<'a, D>>>| #[trigger]
            q.polled(*a, *final(a), true, false, x) && match x {
            Err(e) => r matches Err(f) && f == e,
            Ok(v) => if v@.len() == 0 {
                r matches Err(e) && not_found(e, nothing_found(*q, none@))
            } else {
                r matches Ok(w) && w == v
            },
        },
{
    assert(query::not_found_message(q@.selectors, q.described()) == nothing_found(*q, none@));
}

/// The elements of the first selector that finds any are required in the same way by their own
/// call.
pub proof fn law_all_from_selector_required<'a, D: Driver, F: ElementPredicate<'a, D>, A: Attempts>(
    q: &ElementQuery<'a, D, F>,
    described: &str,
    none: String,
)
    requires
        described@ == description_of(*q),
        call_ensures(get_elements_description, (None::<usize>, described), none),
    ensures
        forall|a: &mut A, r: WebDriverResult<Vec<WebElement<'a, D>>>| #[trigger]
            call_ensures(ElementQuery::<'a, D, F>::all_from_selector_required::<A>, (q, a), r)
            ==> exists|x: WebDriverResult<Vec<WebElement<'a, D>>>| #[trigger]
            q.polled(*a, *final(a), true, false, x) && match x {
            Err(e) => r matches Err(f) && f == e,
            Ok(v) => if v@.len() == 0 {
                r matches Err(e) && not_found(e, nothing_found(*q, none@))
            } else {
                r matches Ok(w) && w == v
            },
        },
{
    assert(query::not_found_message(q@.selectors, q.described()) == nothing_found(*q, none@));
}

/// The elements of all selectors, and an error where none is found.
pub proof fn law_any_required<'a, D: Driver, F: ElementPredicate<'a, D>, A: Attempts>(
    q: &ElementQuery<'a, D, F>,
    described: &str,
    none: String,
)
    requires
        described@ == description_of(*q),
        call_ensures(get_elements_description, (None::<usize>, described), none),
    ensures
        forall|a: &mut A, r: WebDriverResult<Vec<WebElement<'a, D>>>| #[trigger]
            call_ensures(ElementQuery::<'a, D, F>::any_required::<A>, (q, a), r)
            ==> exists|x: WebDriverResult<Vec<WebElement<'a, D>>>| #[trigger]
            q.polled(*a, *final(a), false, false, x) && match x {
            Err(e) => r matches Err(f) && f == e,
            Ok(v) => if v@.len() == 0 {
                r matches Err(e) && not_found(e, nothing_found(*q, none@))
            } else {
                r matches Ok(w) && w == v
            },
        },
{
    assert(query::not_found_message(q@.selectors, q.described()) == nothing_found(*q, none@));
}

/// The one element that is found by all selectors together. None is an error, and so are more than
/// one, which the error counts.
pub proof fn law_single<'a, D: Driver, F: ElementPredicate<'a, D>, A: Attempts>(
    q: &ElementQuery<'a, D, F>,
    described: &str,
    none: String,
)
    requires
        described@ == description_of(*q),
        call_ensures(get_elements_description, (None::<usize>, described), none),
    ensures
        forall|a: &mut A, r: WebDriverResult<WebElement<'a, D>>| #[trigger]
            call_ensures(ElementQuery::<'a, D, F>::single::<A>, (q, a), r)
            ==> exists|x: WebDriverResult<Vec<WebElement<'a, D>>>| #[trigger]
            q.polled(*a, *final(a), false, false, x) && match x {
            Err(e) => r matches Err(f) && f == e,
            Ok(v) => if v@.len() == 1 {
                r matches Ok(w) && w == v@[0]
            } else if v@.len() == 0 {
                r matches Err(e) && not_found(e, nothing_found(*q, none@))
            } else {
                r matches Err(e)
                    && not_found(e, "too many elements received; found "@ + text::decimal(v@.len())
                    + " "@ + query::elements_description(Some(v@.len()), described@)
                    + (" using selectors: "@ + selectors_text(q@.selectors)))
            },
        },
{
    assert(query::not_found_message(q@.selectors, q.described()) == nothing_found(*q, none@));
}

/// All elements are those of the first selector that finds any; any element is one of any selector.
pub proof fn law_all_and_any<'a, D: Driver, F: ElementPredicate<'a, D>, A: Attempts>(
    q: &ElementQuery<'a, D, F>,
)
    ensures
        forall|a: &mut A, r: WebDriverResult<Vec<WebElement<'a, D>>>| #[trigger]
            call_ensures(ElementQuery::<'a, D, F>::all::<A>, (q, a), r)
            ==> q.polled(*a, *final(a), true, false, r),
        forall|a: &mut A, r: WebDriverResult<Vec<WebElement<'a, D>>>| #[trigger]
            call_ensures(ElementQuery::<'a, D, F>::all_from_selector::<A>, (q, a), r)
            ==> q.polled(*a, *final(a), true, false, r),
        forall|a: &mut A, r: WebDriverResult<Vec<WebElement<'a, D>>>| #[trigger]
            call_ensures(ElementQuery::<'a, D, F>::any::<A>, (q, a), r)
            ==> q.polled(*a, *final(a), false, false, r),
        forall|a: &mut A, early: bool, gone: bool, r: WebDriverResult<Vec<WebElement<'a,
            D>>>| #[trigger]
            call_ensures(ElementQuery::<'a, D, F>::run_poller::<A>, (q, a, early, gone), r)
            ==> q.polled(*a, *final(a), early, gone, r),
{
}

/// A query without a selector finds nothing, whatever is asked of it and however often.
pub proof fn law_no_selector<'a, D: Driver, F: ElementPredicate<'a, D>, A: Attempts>(
    q: &ElementQuery<'a, D, F>,
    described: &str,
    none: String,
    pace: A,
    last: A,
    early: bool,
    gone: bool,
    r: WebDriverResult<Vec<WebElement<'a, D>>>,
)
    requires
        described@ == description_of(*q),
        call_ensures(get_elements_description, (None::<usize>, described), none),
        q@.selectors.len() == 0,
        q.polled(pace, last, early, gone, r),
    ensures
        r matches Err(e) && not_found(e, nothing_found(*q, none@)),
        last == pace,
{
    assert(query::not_found_message(q@.selectors, q.described()) == nothing_found(*q, none@));
}

/// An element of the page that was filtered out is one that some filter may refuse; together with
/// the elements that are left, which every filter takes, these are all elements.
pub proof fn law_filtered_out<'a, D: Driver, F: ElementPredicate<'a, D>>(
    filters: &Vec<Filter<F>>,
    elements: Vec<WebElement<'a, D>>,
    v: Vec<WebElement<'a, D>>,
    e: WebElement<'a, D>,
)
    requires
        call_ensures(
            query::filter_elements::<D, F>,
            (elements, filters),
            Ok::<Vec<WebElement<'a, D>>, WebDriverError>(v),
        ),
        elements@.contains(e),
    ensures
        v@.contains(e) || exists|k: int|
            0 <= k < filters@.len() && (#[trigger] filters@[k]).decides(e, Ok(false)),
        filters@.len() == 0 ==> v@ == elements@,
{
    lemma_all_sifted(filters@, 0, elements@, Ok(v), e);
}

/// An element that the filters leave out is one that some filter may refuse.
pub proof fn lemma_all_sifted<'a, D: Driver, F: ElementPredicate<'a, D>>(
    filters: Seq<Filter<F>>,
    j: nat,
    elements: Seq<WebElement<'a, D>>,
    r: WebDriverResult<Vec<WebElement<'a, D>>>,
    e: WebElement<'a, D>,
)
    requires
        query::sifts_all(filters, j, elements, r),
        r is Ok,
        elements.contains(e),
    ensures
        r->Ok_0@.contains(e) || exists|k: int|
            j <= k < filters.len() && (#[trigger] filters[k]).decides(e, Ok(false)),
    decreases filters.len() - j,
{
    if j < filters.len() {
        let left = choose|left: WebDriverResult<Vec<WebElement<'a, D>>>| #[trigger]
            query::sifts(filters[j as int], elements, 0, Seq::empty(), left) && match left {
                Err(e) => r == Err::<Vec<WebElement<'a, D>>, WebDriverError>(e),
                Ok(v) => if v@.len() == 0 {
                    r matches Ok(w) && w@.len() == 0
                } else {
                    query::sifts_all(filters, j + 1, v@, r)
                },
            };
        let i = choose|i: int| 0 <= i < elements.len() && elements[i] == e;
        lemma_sifted_out(filters[j as int], elements, 0, Seq::empty(), left, i);
        if !filters[j as int].decides(e, Ok(false)) {
            lemma_all_sifted(filters, j + 1, left->Ok_0@, r, e);
        }
    }
}

proof fn lemma_sifted_out<'a, D: Driver, F: ElementPredicate<'a, D>>(
    filter: Filter<F>,
    elements: Seq<WebElement<'a, D>>,
    i: nat,
    kept: Seq<WebElement<'a, D>>,
    r: WebDriverResult<Vec<WebElement<'a, D>>>,
    k: int,
)
    requires
        query::sifts(filter, elements, i, kept, r),
        r is Ok,
        0 <= k < elements.len(),
        k < i ==> kept.contains(elements[k]) || filter.decides(elements[k], Ok(false)),
    ensures
        r->Ok_0@.contains(elements[k]) || filter.decides(elements[k], Ok(false)),
    decreases elements.len() - i,
{
    if i < elements.len() {
        let b = choose|b: WebDriverResult<bool>| #[trigger]
            filter.decides(elements[i as int], b) && match b {
                Err(e) => r == Err::<Vec<WebElement<'a, D>>, WebDriverError>(e),
                Ok(true) => query::sifts(filter, elements, i + 1, kept.push(elements[i as int]), r),
                Ok(false) => query::sifts(filter, elements, i + 1, kept, r),
            };
        match b {
            Ok(true) => {
                let next = kept.push(elements[i as int]);
                assert(next[kept.len() as int] == elements[i as int]);
                if k < i && kept.contains(elements[k]) {
                    let m = choose|m: int| 0 <= m < kept.len() && kept[m] == elements[k];
                    assert(next[m] == elements[k]);
                }
                lemma_sifted_out(filter, elements, i + 1, next, r, k);
            },
            Ok(false) => {
                lemma_sifted_out(filter, elements, i + 1, kept, r, k);
            },
            Err(_) => {},
        }
    }
}

/// One attempt is one attempt, and more attempts are as many more as are left.
pub proof fn law_attempts()
    ensures
        forall|a: &mut OneAttempt, r: bool| #[trigger]
            call_ensures(<OneAttempt as Attempts>::next_attempt, (a,), r) ==> !r,
        forall|a: &mut MoreAttempts, r: bool| #[trigger]
            call_ensures(<MoreAttempts as Attempts>::next_attempt, (a,), r) ==> (r
            <==> a.more > 0) && (a.more > 0 ==> final(a).more == a.more - 1) && (a.more == 0
            ==> final(a).more == 0),
{
}

} // verus!
