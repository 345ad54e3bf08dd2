//! How often a query looks, and what one look comes to.
use vstd::prelude::*;

use crate::config::SessionPoller;
use crate::driver::Driver;
use crate::duration::Duration;
use crate::error::{WebDriverError, WebDriverResult};
use crate::found::Found;
use crate::found;
use crate::poller::Tick;
use crate::poller;
use crate::query::{
    AttemptEnd, Attempts, Clock, Clocks, ElementPredicate, ElementQuery, ElementQuerySource,
    ElementQueryable, ElementSelector, Look, Looks, PacedQuery, Pacing, Polled, PolledAttempts,
    QueryLook,
};
use crate::query;
use crate::session::SessionHandle;
use crate::webelement::WebElement;
use crate::webelement;

verus! {

/// What a look found: nothing where it failed.
pub open spec fn seen<T>(look: WebDriverResult<Look<T>>) -> WebDriverResult<Vec<T>> {
    match look {
        Err(e) => Err(e),
        Ok(Look::Early(v)) => Ok(v),
        Ok(Look::Through(v)) => Ok(v),
    }
}

/// A look is the last one where it failed or ended early, where it found something and that is
/// wanted, or where it found nothing and that is wanted.
pub open spec fn settles<T>(look: WebDriverResult<Look<T>>, gone: bool) -> bool {
    match look {
        Ok(Look::Through(v)) => if gone {
            v@.len() == 0
        } else {
            v@.len() > 0
        },
        _ => true,
    }
}

/// What comes out is what the last look found. That look settled it, or the pace said that there
/// is to be no other.
pub proof fn law_last_look<T, L: Looks<T>, A: Attempts>(gone: bool)
    ensures
        forall|page: &mut L, pace: &mut A, r: WebDriverResult<Vec<T>>| #[trigger]
            call_ensures(query::poll_until::<T, L, A>, (page, pace, gone), r)
                ==> last_look::<T, L, A>(
                *final(page),
                *final(pace),
                gone,
                r,
            ),
{
    assert forall|page: &mut L, pace: &mut A, r: WebDriverResult<Vec<T>>| #[trigger]
        call_ensures(query::poll_until::<T, L, A>, (page, pace, gone), r)
            implies last_look::<T, L, A>(
        *final(page),
        *final(pace),
        gone,
        r,
    ) by {
        lemma_last_look::<T, L, A>(*page, *final(page), *pace, *final(pace), gone, r);
    }
}

/// The last look, and what the pace said to it.
pub open spec fn last_look<T, L: Looks<T>, A: Attempts>(
    page: L,
    pace: A,
    gone: bool,
    r: WebDriverResult<Vec<T>>,
) -> bool {
    exists|before: L, look: WebDriverResult<Look<T>>| #[trigger]
        L::looked(before, page, look) && r == seen(look) && (settles(look, gone) || exists|p: A|
            #[trigger] A::steps(p, pace, false))
}

proof fn lemma_last_look<T, L: Looks<T>, A: Attempts>(
    page: L,
    page_last: L,
    pace: A,
    last: A,
    gone: bool,
    r: WebDriverResult<Vec<T>>,
)
    requires
        query::rounds(page, page_last, pace, last, gone, r),
    ensures
        last_look::<T, L, A>(page_last, last, gone, r),
    decreases pace.left(),
{
    let (at, look) = choose|at: L, look: WebDriverResult<Look<T>>| #[trigger]
        L::looked(page, at, look) && query::ends_or_goes_on(
            at,
            page_last,
            pace,
            last,
            gone,
            look,
            r,
        );
    if !settles(look, gone) {
        let f = look->Ok_0->Through_0;
        let (after, again) = choose|after: A, again: bool| #[trigger]
            A::steps(pace, after, again) && if again {
                after.left() < pace.left() && query::rounds(at, page_last, after, last, gone, r)
            } else {
                page_last == at && last == after && r == Ok::<Vec<T>, WebDriverError>(f)
            };
        if again {
            lemma_last_look::<T, L, A>(at, page_last, after, last, gone, r);
        } else {
            assert(A::steps(pace, last, false));
        }
    }
}

/// Where the first look settles it, there is no other, and the pace is not asked.
pub proof fn law_first_look<T, L: Looks<T>, A: Attempts>(gone: bool)
    ensures
        forall|page: &mut L, pace: &mut A, r: WebDriverResult<Vec<T>>| #[trigger]
            call_ensures(query::poll_until::<T, L, A>, (page, pace, gone), r)
                && always_settled::<T, L>(
                *page,
                gone,
            ) ==> *final(pace) == *pace && exists|look: WebDriverResult<Look<T>>| #[trigger]
                L::looked(*page, *final(page), look) && r == seen(look),
{
}

/// Any look at the page settles it.
pub open spec fn always_settled<T, L: Looks<T>>(page: L, gone: bool) -> bool {
    forall|after: L, look: WebDriverResult<Look<T>>| #[trigger]
        L::looked(page, after, look) ==> settles(look, gone)
}

/// What a selector comes to: all elements that are found by it in the source and that no filter
/// refuses. That there is no such element is no error; any other error is one.
pub open spec fn picked<'a, D: Driver, F: ElementPredicate<'a, D>>(
    source: ElementQuerySource<'a, D>,
    selector: ElementSelector<F>,
    r: WebDriverResult<Vec<WebElement<'a, D>>>,
) -> bool {
    exists|x: WebDriverResult<Vec<WebElement<'a, D>>>| #[trigger]
        webelement::finds_all(source.session(), source.command(selector.by@), x) && match x {
            Err(e) => if e@ is NoSuchElement {
                r matches Ok(w) && w@.len() == 0
            } else {
                r matches Err(f) && f == e
            },
            Ok(v) => r matches Ok(w) ==> left_of(selector, v@, w@),
        }
}

/// Each element that is left was there and passed each filter; each other one was refused by one.
pub open spec fn left_of<'a, D: Driver, F: ElementPredicate<'a, D>>(
    selector: ElementSelector<F>,
    before: Seq<WebElement<'a, D>>,
    after: Seq<WebElement<'a, D>>,
) -> bool {
    &&& forall|e: WebElement<'a, D>| #[trigger] after.contains(e)
        ==> before.contains(e) && passed(selector, e)
    &&& forall|e: WebElement<'a, D>| #[trigger] before.contains(e)
        ==> after.contains(e) || exists|k: int|
        0 <= k < selector.filters@.len() && (#[trigger] selector.filters@[k]).decides(e, Ok(false))
}

/// The element passed each filter.
pub open spec fn passed<'a, D: Driver, F: ElementPredicate<'a, D>>(
    selector: ElementSelector<F>,
    e: WebElement<'a, D>,
) -> bool {
    forall|k: int|
        0 <= k < selector.filters@.len() ==> (#[trigger] selector.filters@[k]).decides(e, Ok(true))
}

proof fn lemma_picked<'a, D: Driver, F: ElementPredicate<'a, D>>(
    source: ElementQuerySource<'a, D>,
    selector: ElementSelector<F>,
    r: WebDriverResult<Vec<WebElement<'a, D>>>,
)
    requires
        query::selects(source, selector, r),
    ensures
        picked(source, selector, r),
{
    let x = choose|x: WebDriverResult<Vec<WebElement<'a, D>>>| #[trigger]
        webelement::finds_all(source.session(), source.command(selector.by@), x) && match x {
            Err(e) => if e@ is NoSuchElement {
                r matches Ok(v) && v@.len() == 0
            } else {
                r == Err::<Vec<WebElement<'a, D>>, WebDriverError>(e)
            },
            Ok(v) => if v@.len() == 0 {
                r matches Ok(w) && w@.len() == 0
            } else {
                query::sifts_all(selector.filters@, 0, v@, r)
            },
        };
    assert(webelement::finds_all(source.session(), source.command(selector.by@), x));
    if let Ok(v) = x {
        if let Ok(w) = r {
            if v@.len() > 0 {
                assert forall|e: WebElement<'a, D>| #[trigger] w@.contains(e)
                    implies v@.contains(e) && passed(
                    selector,
                    e,
                ) by {
                    query::lemma_filtered(selector.filters@, 0, v@, r, e);
                }
                assert forall|e: WebElement<'a, D>| #[trigger] v@.contains(e)
                    implies w@.contains(e) || exists|k: int|
                    0 <= k < selector.filters@.len() && (#[trigger] selector.filters@[k]).decides(
                        e,
                        Ok(false),
                    ) by {
                    crate::laws::queries::lemma_all_sifted(selector.filters@, 0, v@, r, e);
                }
            }
            assert(left_of(selector, v@, w@));
        }
    }
}

/// An element with the id is among them.
pub open spec fn known<D>(elements: Seq<WebElement<D>>, id: Seq<char>) -> bool {
    exists|i: int| 0 <= i < elements.len() && (#[trigger] elements[i]).element_id@ == id
}

/// One of the selectors found an element with the id.
pub open spec fn known_to_one<'a, D>(trace: Seq<WebDriverResult<Vec<WebElement<'a, D>>>>,
    id: Seq<char>) -> bool {
    exists|k: int|
        0 <= k < trace.len() && (#[trigger] trace[k] matches Ok(w) && known(w@, id))
}

/// One look goes through the selectors in their order, and `trace` is what they came to. The first
/// error ends it. A look that may end early ends with the first selector that finds something, or
/// that finds nothing where that is wanted. Any other look has the elements of all selectors, each
/// of them once.
pub open spec fn look_through<'a, D: Driver, F: ElementPredicate<'a, D>>(
    source: ElementQuerySource<'a, D>,
    selectors: Seq<ElementSelector<F>>,
    early: bool,
    gone: bool,
    trace: Seq<WebDriverResult<Vec<WebElement<'a, D>>>>,
    look: WebDriverResult<Look<WebElement<'a, D>>>,
) -> bool {
    &&& trace.len() <= selectors.len()
    &&& forall|k: int| 0 <= k < trace.len() ==> picked(source, selectors[k], #[trigger] trace[k])
    &&& forall|k: int| 0 <= k < trace.len() - 1 ==> unsettled(early, gone, #[trigger] trace[k])
    &&& match look {
        Err(e) => trace.len() > 0 && (trace.last() matches Err(f) && f == e),
        Ok(Look::Early(v)) => early && trace.len() > 0 && (trace.last() matches Ok(w) && w@ == v@)
            && gone == (v@.len() == 0),
        Ok(Look::Through(v)) => trace.len() == selectors.len() && (trace.len() > 0 ==> unsettled(
            early,
            gone,
            trace.last(),
        )) && (forall|id: Seq<char>| #[trigger] known(v@, id) <==> known_to_one(trace, id))
            && found::different(v@),
    }
}

/// The next selector is to be tried.
pub open spec fn unsettled<'a, D>(early: bool, gone: bool, r: WebDriverResult<Vec<WebElement<'a,
    D>>>) -> bool {
    r matches Ok(w) && !(early && gone == (w@.len() == 0))
}

/// What was gone through from a selector on, where some elements were known before.
pub open spec fn rest_through<'a, D: Driver, F: ElementPredicate<'a, D>>(
    source: ElementQuerySource<'a, D>,
    selectors: Seq<ElementSelector<F>>,
    i: int,
    before: Seq<WebElement<'a, D>>,
    early: bool,
    gone: bool,
    trace: Seq<WebDriverResult<Vec<WebElement<'a, D>>>>,
    end: WebDriverResult<AttemptEnd<'a, D>>,
) -> bool {
    &&& trace.len() <= selectors.len() - i
    &&& forall|k: int| 0 <= k < trace.len()
        ==> picked(source, selectors[i + k], #[trigger] trace[k])
    &&& forall|k: int| 0 <= k < trace.len() - 1 ==> unsettled(early, gone, #[trigger] trace[k])
    &&& match end {
        Err(e) => trace.len() > 0 && (trace.last() matches Err(f) && f == e),
        Ok(AttemptEnd::Early(v)) => early && trace.len() > 0 && (trace.last() matches Ok(w) && w@
            == v) && gone == (v.len() == 0),
        Ok(AttemptEnd::Through(v)) => trace.len() == selectors.len() - i && (trace.len() > 0
            ==> unsettled(early, gone, trace.last())) && (forall|id: Seq<char>| #[trigger]
            known(v, id) <==> known(before, id) || known_to_one(trace, id)) && found::different(v),
    }
}

proof fn lemma_known_more<'a, D>(before: Seq<WebElement<'a, D>>, more: Seq<WebElement<'a, D>>,
    n: nat, id: Seq<char>)
    requires
        found::different(before),
        n <= more.len(),
    ensures
        known(found::with_elements(before, more, n), id) <==> known(before, id) || known(
            more.take(n as int),
            id,
        ),
    decreases n,
{
    if n == 0 {
        assert(!known(more.take(0), id));
    } else {
        let m = (n - 1) as nat;
        let found = found::with_elements(before, more, m);
        let e = more[n - 1];
        let after = found::with_elements(before, more, n);
        lemma_known_more(before, more, m, id);
        found::lemma_with_elements(before, more, m);
        found::lemma_with_element(found, e);
        lemma_place(found, e.element_id@, 0);
        assert(after == found::with_element(found, e));
        let part = more.take(n as int);
        let less = more.take(m as int);
        assert forall|i: int| 0 <= i < less.len() implies #[trigger] less[i] == part[i] by {}
        assert(part[n - 1] == e);
        if known(less, id) {
            let i = choose|i: int| 0 <= i < less.len() && (#[trigger] less[i]).element_id@ == id;
            assert(part[i].element_id@ == id);
        }
        if known(part, id) {
            let i = choose|i: int| 0 <= i < part.len() && (#[trigger] part[i]).element_id@ == id;
            if i < n - 1 {
                assert(less[i].element_id@ == id);
            }
        }
        if known(found, id) {
            let i = choose|i: int| 0 <= i < found.len() && (#[trigger] found[i]).element_id@ == id;
            assert(after[i].element_id@ == id);
        }
        if e.element_id@ == id {
            let j = choose|j: int| 0 <= j < after.len() && after[j] == e;
            assert(after[j].element_id@ == id);
            assert(known(part, id));
        }
        if known(after, id) && e.element_id@ != id {
            let i = choose|i: int| 0 <= i < after.len() && (#[trigger] after[i]).element_id@ == id;
            assert(i < found.len()) by {
                if i >= found.len() {
                    assert(after[i] == e);
                }
            }
            assert(found[i].element_id@ == id);
        }
    }
}

proof fn lemma_rest_through<'a, D: Driver, F: ElementPredicate<'a, D>>(
    source: ElementQuerySource<'a, D>,
    selectors: Seq<ElementSelector<F>>,
    i: nat,
    before: Seq<WebElement<'a, D>>,
    early: bool,
    gone: bool,
    end: WebDriverResult<AttemptEnd<'a, D>>,
)
    requires
        query::attempts(source, selectors, i, before, early, gone, end),
        found::different(before),
        i <= selectors.len(),
    ensures
        exists|trace: Seq<WebDriverResult<Vec<WebElement<'a, D>>>>| #[trigger]
            rest_through(source, selectors, i as int, before, early, gone, trace, end),
    decreases selectors.len() - i,
{
    if i >= selectors.len() {
        let trace = Seq::<WebDriverResult<Vec<WebElement<'a, D>>>>::empty();
        assert(forall|id: Seq<char>| !(#[trigger] known_to_one(trace, id)));
        assert(rest_through(source, selectors, i as int, before, early, gone, trace, end));
    } else {
        let x = choose|x: WebDriverResult<Vec<WebElement<'a, D>>>| #[trigger]
            query::selects(source, selectors[i as int], x) && match x {
                Err(e) => end == Err::<AttemptEnd<'a, D>, WebDriverError>(e),
                Ok(v) => if early && gone == (v@.len() == 0) {
                    end == Ok::<AttemptEnd<'a, D>, WebDriverError>(AttemptEnd::Early(v@))
                } else {
                    query::attempts(
                        source,
                        selectors,
                        i + 1,
                        found::with_elements(before, v@, v@.len()),
                        early,
                        gone,
                        end,
                    )
                },
            };
        lemma_picked(source, selectors[i as int], x);
        if unsettled(early, gone, x) {
            let v = x->Ok_0;
            let more = found::with_elements(before, v@, v@.len());
            found::lemma_with_elements(before, v@, v@.len());
            lemma_rest_through(source, selectors, i + 1, more, early, gone, end);
            let rest = choose|rest: Seq<WebDriverResult<Vec<WebElement<'a, D>>>>| #[trigger]
                rest_through(source, selectors, (i + 1) as int, more, early, gone, rest, end);
            let trace = seq![x] + rest;
            assert forall|k: int| 0 <= k < trace.len() implies picked(
                source,
                selectors[i + k],
                #[trigger] trace[k],
            ) by {
                if k > 0 {
                    assert(trace[k] == rest[k - 1]);
                    assert(selectors[i + 1 + (k - 1)] == selectors[i + k]);
                }
            }
            assert forall|k: int| 0 <= k < trace.len() - 1 implies unsettled(
                early,
                gone,
                #[trigger] trace[k],
            ) by {
                if k > 0 {
                    assert(trace[k] == rest[k - 1]);
                }
            }
            if rest.len() > 0 {
                assert(trace.last() == rest.last());
            } else {
                assert(trace.last() == x);
            }
            if let Ok(AttemptEnd::Through(w)) = end {
                assert forall|id: Seq<char>| #[trigger] known(w, id) <==> known(before, id)
                    || known_to_one(trace, id) by {
                    lemma_known_more(before, v@, v@.len(), id);
                    assert(v@.take(v@.len() as int) =~= v@);
                    assert(trace[0] == x);
                    if known_to_one(rest, id) {
                        let k = choose|k: int|
                            0 <= k < rest.len() && (#[trigger] rest[k] matches Ok(u) && known(
                                u@,
                                id,
                            ));
                        assert(trace[k + 1] == rest[k]);
                    }
                    if known_to_one(trace, id) {
                        let k = choose|k: int|
                            0 <= k < trace.len() && (#[trigger] trace[k] matches Ok(u) && known(
                                u@,
                                id,
                            ));
                        if k > 0 {
                            assert(trace[k] == rest[k - 1]);
                            assert(known_to_one(rest, id));
                        }
                    }
                }
            }
            assert(rest_through(source, selectors, i as int, before, early, gone, trace, end));
        } else {
            let trace = seq![x];
            assert(trace.last() == x);
            assert(rest_through(source, selectors, i as int, before, early, gone, trace, end));
        }
    }
}

proof fn lemma_look_through<'q, 'a, D: Driver, F: ElementPredicate<'a, D>>(
    before: QueryLook<'q, 'a, D, F>,
    after: QueryLook<'q, 'a, D, F>,
    look: WebDriverResult<Look<WebElement<'a, D>>>,
)
    requires
        QueryLook::looked(before, after, look),
    ensures
        after == before,
        exists|trace: Seq<WebDriverResult<Vec<WebElement<'a, D>>>>| #[trigger]
            look_through(
                before.query@.source,
                before.query@.selectors,
                before.short_circuit,
                before.stop_on_miss,
                trace,
                look,
            ),
{
    let q = before.query@;
    let none = Seq::<WebElement<'a, D>>::empty();
    lemma_rest_through(
        q.source,
        q.selectors,
        0,
        none,
        before.short_circuit,
        before.stop_on_miss,
        query::end_of_look(look),
    );
    let trace = choose|trace: Seq<WebDriverResult<Vec<WebElement<'a, D>>>>| #[trigger]
        rest_through(
            q.source,
            q.selectors,
            0,
            none,
            before.short_circuit,
            before.stop_on_miss,
            trace,
            query::end_of_look(look),
        );
    assert(forall|id: Seq<char>| !(#[trigger] known(none, id)));
    assert forall|k: int| 0 <= k < trace.len() implies picked(
        q.source,
        q.selectors[k],
        #[trigger] trace[k],
    ) by {
        assert(q.selectors[0 + k] == q.selectors[k]);
    }
    assert(look_through(
        q.source,
        q.selectors,
        before.short_circuit,
        before.stop_on_miss,
        trace,
        look,
    ));
}

/// What a query comes to is what its last look came to, from the source of the query and with its
/// selectors.
pub open spec fn query_comes_to<'a, D: Driver, F: ElementPredicate<'a, D>, A: Attempts>(
    q: ElementQuery<'a, D, F>,
    last: A,
    early: bool,
    gone: bool,
    r: WebDriverResult<Vec<WebElement<'a, D>>>,
) -> bool {
    exists|trace: Seq<WebDriverResult<Vec<WebElement<'a, D>>>>,
        look: WebDriverResult<Look<WebElement<'a, D>>>| #[trigger]
        look_through(q@.source, q@.selectors, early, gone, trace, look) && r == seen(look) && (
        settles(look, gone) || exists|p: A| #[trigger] A::steps(p, last, false))
}

proof fn lemma_page_stays<'q, 'a, D: Driver, F: ElementPredicate<'a, D>, A: Attempts>(
    page: QueryLook<'q, 'a, D, F>,
    page_last: QueryLook<'q, 'a, D, F>,
    pace: A,
    last: A,
    r: WebDriverResult<Vec<WebElement<'a, D>>>,
)
    requires
        query::rounds(page, page_last, pace, last, page.stop_on_miss, r),
    ensures
        query_comes_to(*page.query, last, page.short_circuit, page.stop_on_miss, r),
    decreases pace.left(),
{
    let gone = page.stop_on_miss;
    let (at, look) = choose|at: QueryLook<'q, 'a, D, F>, look: WebDriverResult<Look<WebElement<'a,
        D>>>| #[trigger]
        QueryLook::looked(page, at, look) && query::ends_or_goes_on(
            at,
            page_last,
            pace,
            last,
            gone,
            look,
            r,
        );
    lemma_look_through(page, at, look);
    if !settles(look, gone) {
        let f = look->Ok_0->Through_0;
        let (after, again) = choose|after: A, again: bool| #[trigger]
            A::steps(pace, after, again) && if again {
                after.left() < pace.left() && query::rounds(at, page_last, after, last, gone, r)
            } else {
                page_last == at && last == after
                    && r == Ok::<Vec<WebElement<'a, D>>, WebDriverError>(f)
            };
        if again {
            lemma_page_stays(at, page_last, after, last, r);
        } else {
            assert(A::steps(pace, last, false));
        }
    }
}

/// What a query with a selector comes to, whatever its pace.
pub proof fn law_query_comes_to<'a, D: Driver, F: ElementPredicate<'a, D>, A: Attempts>(
    q: &ElementQuery<'a, D, F>,
    early: bool,
    gone: bool,
)
    requires
        q@.selectors.len() > 0,
    ensures
        forall|pace: &mut A, r: WebDriverResult<Vec<WebElement<'a, D>>>| #[trigger]
            call_ensures(ElementQuery::<'a, D, F>::run_poller::<A>, (q, pace, early, gone), r)
                ==> query_comes_to(*q, *final(pace), early, gone, r),
{
    assert forall|pace: &mut A, r: WebDriverResult<Vec<WebElement<'a, D>>>| #[trigger]
        call_ensures(ElementQuery::<'a, D, F>::run_poller::<A>, (q, pace, early, gone), r)
            implies query_comes_to(*q, *final(pace), early, gone, r) by {
        lemma_comes_to(q, *pace, *final(pace), early, gone, r);
    }
}

proof fn lemma_comes_to<'a, D: Driver, F: ElementPredicate<'a, D>, A: Attempts>(
    q: &ElementQuery<'a, D, F>,
    pace: A,
    last: A,
    early: bool,
    gone: bool,
    r: WebDriverResult<Vec<WebElement<'a, D>>>,
)
    requires
        q@.selectors.len() > 0,
        q.polled(pace, last, early, gone, r),
    ensures
        query_comes_to(*q, last, early, gone, r),
{
    let page_last = choose|page_last: QueryLook<'_, 'a, D, F>| #[trigger]
        query::rounds(query::look_of(q, early, gone), page_last, pace, last, gone, r);
    lemma_page_stays(query::look_of(q, early, gone), page_last, pace, last, r);
}

/// A pace that polls goes by the poller that it was started with: one that does not wait has no
/// other attempt, and any other one has it unless its tick says to stop. Where the tick says to
/// wait, that is waited for.
pub proof fn law_polled_attempts<K: Clock>()
    ensures
        forall|a: &mut PolledAttempts<K>, r: bool| #[trigger]
            call_ensures(<PolledAttempts<K> as Attempts>::next_attempt, (a,), r) ==> {
                &&& final(a).clock == a.clock
                &&& a.poller is NoWait ==> !r && final(a).poller == a.poller
                &&& a.poller matches SessionPoller::WithTimeout(p)
                    ==> (final(a).poller matches SessionPoller::WithTimeout(q)
                    && (p.tries() < u32::MAX ==> ticked(
                    a.clock,
                    p,
                    q,
                    r,
                )) && (p.tries() == u32::MAX ==> !r && q == p))
            },
{
}

/// The poller ticked at two times of the clock, and the tick was followed.
pub open spec fn ticked<K: Clock>(
    clock: K,
    p: poller::ElementPollerWithTimeout,
    q: poller::ElementPollerWithTimeout,
    again: bool,
) -> bool {
    exists|now: Duration, later: Duration, tick: Tick|
        {
            &&& #[trigger] call_ensures(K::elapsed, (&clock,), now)
            &&& #[trigger] call_ensures(K::elapsed, (&clock,), later)
            &&& #[trigger] poller::ticks_to(p, q, now, later, tick)
            &&& match tick {
                Tick::Stop => !again,
                Tick::Again => again,
                Tick::Wait(span) => again && call_ensures(K::wait, (&clock, span), ()),
            }
        }
}

/// A pace that polls starts with a clock of its own and with the poller of the query, from its
/// first attempt.
pub proof fn law_polled_starts<C: Clocks>(
    p: &Polled<C>,
    poller: &SessionPoller,
    r: PolledAttempts<C::Clock>,
)
    requires
        call_ensures(<Polled<C> as Pacing>::start, (p, poller), r),
    ensures
        call_ensures(C::start, (&p.clocks,), r.clock),
        poller is NoWait ==> r.poller is NoWait,
        *poller matches SessionPoller::WithTimeout(w) ==> (
        r.poller matches SessionPoller::WithTimeout(s) && s.timeout() == w.timeout() && s.interval()
            == w.interval() && s.tries() == 0),
{
}

/// A query on a session is asked of the session, and one on an element within the element. Both
/// poll as the session is configured to.
pub proof fn law_query_sources<'a, H, G>(h: &'a SessionHandle<H, G>, e: &'a WebElement<'a,
    SessionHandle<H, G>>)
    ensures
        <SessionHandle<H, G> as ElementQueryable<'a, SessionHandle<H, G>>>::query_source(h)
            == ElementQuerySource::Driver(h),
        <SessionHandle<H, G> as ElementQueryable<'a, SessionHandle<H, G>>>::query_poller(h)
            == h@.config.poller,
        <WebElement<'a, SessionHandle<H, G>> as ElementQueryable<
            'a,
            SessionHandle<H, G>,
        >>::query_source(e) == ElementQuerySource::Element(*e),
        <WebElement<'a, SessionHandle<H, G>> as ElementQueryable<
            'a,
            SessionHandle<H, G>,
        >>::query_poller(e) == e.session@.config.poller,
{
}

/// The elements that were found are kept once each: an element whose id is known takes the place of
/// the one that was known, and any other goes to the end.
pub proof fn law_found<'a, D>(e: WebElement<'a, D>, id: Seq<char>)
    ensures
        forall|r: Found<'a, D>| #[trigger] call_ensures(Found::<'a, D>::new, (), r)
            ==> r@.len() == 0 && r.wf(),
        forall|f: &Found<'a, D>, r: bool| #[trigger]
            call_ensures(Found::<'a, D>::is_empty, (f,), r) ==> r == (f@.len() == 0),
        forall|f: Found<'a, D>, r: Vec<WebElement<'a, D>>| #[trigger]
            call_ensures(Found::<'a, D>::into_elements, (f,), r) ==> r@ == f@,
        forall|f: &mut Found<'a, D>, r: ()| #[trigger]
            call_ensures(Found::<'a, D>::insert, (f, e), r) && found::different((*f)@) ==> {
            &&& final(f)@.contains(e)
            &&& found::different(final(f)@)
            &&& known(final(f)@, id) <==> known((*f)@, id) || e.element_id@ == id
            &&& known((*f)@, e.element_id@) ==> final(f)@.len() == (*f)@.len()
            &&& !known((*f)@, e.element_id@) ==> final(f)@ == (*f)@.push(e)
        },
{
    assert forall|f: &mut Found<'a, D>, r: ()| #[trigger]
        call_ensures(Found::<'a, D>::insert, (f, e), r) && found::different((*f)@) implies {
        &&& final(f)@.contains(e)
        &&& found::different(final(f)@)
        &&& known(final(f)@, id) <==> known((*f)@, id) || e.element_id@ == id
        &&& known((*f)@, e.element_id@) ==> final(f)@.len() == (*f)@.len()
        &&& !known((*f)@, e.element_id@) ==> final(f)@ == (*f)@.push(e)
    } by {
        let before = (*f)@;
        let more = seq![e];
        lemma_known_more(before, more, 1, id);
        reveal_with_fuel(found::with_elements, 2);
        assert(found::with_elements(before, more, 1) == found::with_element(before, e));
        assert(more.take(1) =~= more);
        assert(more[0].element_id@ == e.element_id@);
        found::lemma_with_element(before, e);
        lemma_place(before, e.element_id@, 0);
    }
}

proof fn lemma_place<D>(found: Seq<WebElement<D>>, id: Seq<char>, i: nat)
    ensures
        found::place_of_id(found, id, i) matches Some(k)
            ==> i <= k < found.len() && found[k].element_id@ == id,
        found::place_of_id(found, id, i) is None ==> forall|j: int| i <= j < found.len()
            ==> (#[trigger] found[j]).element_id@ != id,
    decreases found.len() - i,
{
    if i < found.len() && found[i as int].element_id@ != id {
        lemma_place(found, id, i + 1);
    }
}

/// The pacing starts a pace of its own for the poller of the query.
pub open spec fn started<'q, 'a, D, F, P: Pacing>(p: PacedQuery<'q, 'a, D, F, P>,
    start: P::Pace) -> bool {
    call_ensures(P::start, (p.pacing, &p.query@.poller), start)
}

/// A query with a pacing does what the query does, each time with a pace that was started for it.
pub proof fn law_paced<'q, 'a, D: Driver, F: ElementPredicate<'a, D>, P: Pacing>(
    q: &'q ElementQuery<'a, D, F>,
    pacing: &'q P,
    p: &PacedQuery<'q, 'a, D, F, P>,
)
    ensures
        forall|r: PacedQuery<'q, 'a, D, F, P>| #[trigger]
            call_ensures(ElementQuery::<'a, D, F>::paced::<P>, (q, pacing), r)
            ==> *r.query == *q && *r.pacing == *pacing,
        forall|r: WebDriverResult<bool>| #[trigger]
            call_ensures(PacedQuery::<'q, 'a, D, F, P>::any_exists, (p,), r)
            ==> exists|start: P::Pace, last: P::Pace| #[trigger] started(*p, start) && #[trigger]
            p.query.says_exists(start, last, r),
        forall|r: WebDriverResult<bool>| #[trigger]
            call_ensures(PacedQuery::<'q, 'a, D, F, P>::not_exists, (p,), r)
            ==> exists|start: P::Pace, last: P::Pace| #[trigger] started(*p, start) && #[trigger]
            p.query.says_gone(start, last, r),
        forall|r: WebDriverResult<Option<WebElement<'a, D>>>| #[trigger]
            call_ensures(PacedQuery::<'q, 'a, D, F, P>::first_opt, (p,), r)
            ==> exists|start: P::Pace, last: P::Pace| #[trigger] started(*p, start) && #[trigger]
            p.query.finds_first_opt(start, last, r),
        forall|r: WebDriverResult<WebElement<'a, D>>| #[trigger]
            call_ensures(PacedQuery::<'q, 'a, D, F, P>::first, (p,), r)
            ==> exists|start: P::Pace, last: P::Pace| #[trigger] started(*p, start) && #[trigger]
            p.query.finds_first(start, last, r),
        forall|r: WebDriverResult<WebElement<'a, D>>| #[trigger]
            call_ensures(PacedQuery::<'q, 'a, D, F, P>::single, (p,), r)
            ==> exists|start: P::Pace, last: P::Pace| #[trigger] started(*p, start) && #[trigger]
            p.query.finds_single(start, last, r),
        forall|r: WebDriverResult<Vec<WebElement<'a, D>>>| #[trigger]
            call_ensures(PacedQuery::<'q, 'a, D, F, P>::any, (p,), r)
            ==> exists|start: P::Pace, last: P::Pace| #[trigger] started(*p, start) && #[trigger]
            p.query.polled(start, last, false, false, r),
        forall|r: WebDriverResult<Vec<WebElement<'a, D>>>| #[trigger]
            call_ensures(PacedQuery::<'q, 'a, D, F, P>::any_required, (p,), r)
            ==> exists|start: P::Pace, last: P::Pace| #[trigger] started(*p, start) && #[trigger]
            p.query.finds_any_required(start, last, r),
        forall|r: WebDriverResult<Vec<WebElement<'a, D>>>| #[trigger]
            call_ensures(PacedQuery::<'q, 'a, D, F, P>::all, (p,), r)
            ==> exists|start: P::Pace, last: P::Pace| #[trigger] started(*p, start) && #[trigger]
            p.query.polled(start, last, true, false, r),
        forall|r: WebDriverResult<Vec<WebElement<'a, D>>>| #[trigger]
            call_ensures(PacedQuery::<'q, 'a, D, F, P>::all_from_selector, (p,), r)
            ==> exists|start: P::Pace, last: P::Pace| #[trigger] started(*p, start) && #[trigger]
            p.query.polled(start, last, true, false, r),
        forall|r: WebDriverResult<Vec<WebElement<'a, D>>>| #[trigger]
            call_ensures(PacedQuery::<'q, 'a, D, F, P>::all_required, (p,), r)
            ==> exists|start: P::Pace, last: P::Pace| #[trigger] started(*p, start) && #[trigger]
            p.query.finds_required(start, last, r),
        forall|r: WebDriverResult<Vec<WebElement<'a, D>>>| #[trigger]
            call_ensures(PacedQuery::<'q, 'a, D, F, P>::all_from_selector_required, (p,), r)
            ==> exists|start: P::Pace, last: P::Pace| #[trigger] started(*p, start) && #[trigger]
            p.query.finds_required(start, last, r),
{
    assert forall|r: WebDriverResult<bool>| #[trigger]
        call_ensures(PacedQuery::<'q, 'a, D, F, P>::any_exists, (p,), r)
        implies exists|start: P::Pace, last: P::Pace| #[trigger] started(*p, start) && #[trigger]
        p.query.says_exists(start, last, r) by {
        let (start, last) = choose|start: P::Pace, last: P::Pace| #[trigger] p.starts(start)
            && #[trigger] p.query.says_exists(start, last, r);
        assert(started(*p, start));
    }
    assert forall|r: WebDriverResult<bool>| #[trigger]
        call_ensures(PacedQuery::<'q, 'a, D, F, P>::not_exists, (p,), r)
        implies exists|start: P::Pace, last: P::Pace| #[trigger] started(*p, start) && #[trigger]
        p.query.says_gone(start, last, r) by {
        let (start, last) = choose|start: P::Pace, last: P::Pace| #[trigger] p.starts(start)
            && #[trigger] p.query.says_gone(start, last, r);
        assert(started(*p, start));
    }
    assert forall|r: WebDriverResult<Option<WebElement<'a, D>>>| #[trigger]
        call_ensures(PacedQuery::<'q, 'a, D, F, P>::first_opt, (p,), r)
        implies exists|start: P::Pace, last: P::Pace| #[trigger] started(*p, start) && #[trigger]
        p.query.finds_first_opt(start, last, r) by {
        let (start, last) = choose|start: P::Pace, last: P::Pace| #[trigger] p.starts(start)
            && #[trigger] p.query.finds_first_opt(start, last, r);
        assert(started(*p, start));
    }
    assert forall|r: WebDriverResult<WebElement<'a, D>>| #[trigger]
        call_ensures(PacedQuery::<'q, 'a, D, F, P>::first, (p,), r)
        implies exists|start: P::Pace, last: P::Pace| #[trigger] started(*p, start) && #[trigger]
        p.query.finds_first(start, last, r) by {
        let (start, last) = choose|start: P::Pace, last: P::Pace| #[trigger] p.starts(start)
            && #[trigger] p.query.finds_first(start, last, r);
        assert(started(*p, start));
    }
    assert forall|r: WebDriverResult<WebElement<'a, D>>| #[trigger]
        call_ensures(PacedQuery::<'q, 'a, D, F, P>::single, (p,), r)
        implies exists|start: P::Pace, last: P::Pace| #[trigger] started(*p, start) && #[trigger]
        p.query.finds_single(start, last, r) by {
        let (start, last) = choose|start: P::Pace, last: P::Pace| #[trigger] p.starts(start)
            && #[trigger] p.query.finds_single(start, last, r);
        assert(started(*p, start));
    }
    assert forall|r: WebDriverResult<Vec<WebElement<'a, D>>>| #[trigger]
        call_ensures(PacedQuery::<'q, 'a, D, F, P>::any, (p,), r)
        implies exists|start: P::Pace, last: P::Pace| #[trigger] started(*p, start) && #[trigger]
        p.query.polled(start, last, false, false, r) by {
        let (start, last) = choose|start: P::Pace, last: P::Pace| #[trigger] p.starts(start)
            && #[trigger] p.query.polled(start, last, false, false, r);
        assert(started(*p, start));
    }
    assert forall|r: WebDriverResult<Vec<WebElement<'a, D>>>| #[trigger]
        call_ensures(PacedQuery::<'q, 'a, D, F, P>::any_required, (p,), r)
        implies exists|start: P::Pace, last: P::Pace| #[trigger] started(*p, start) && #[trigger]
        p.query.finds_any_required(start, last, r) by {
        let (start, last) = choose|start: P::Pace, last: P::Pace| #[trigger] p.starts(start)
            && #[trigger] p.query.finds_any_required(start, last, r);
        assert(started(*p, start));
    }
    assert forall|r: WebDriverResult<Vec<WebElement<'a, D>>>| #[trigger]
        call_ensures(PacedQuery::<'q, 'a, D, F, P>::all, (p,), r)
        implies exists|start: P::Pace, last: P::Pace| #[trigger] started(*p, start) && #[trigger]
        p.query.polled(start, last, true, false, r) by {
        let (start, last) = choose|start: P::Pace, last: P::Pace| #[trigger] p.starts(start)
            && #[trigger] p.query.polled(start, last, true, false, r);
        assert(started(*p, start));
    }
    assert forall|r: WebDriverResult<Vec<WebElement<'a, D>>>| #[trigger]
        call_ensures(PacedQuery::<'q, 'a, D, F, P>::all_from_selector, (p,), r)
        implies exists|start: P::Pace, last: P::Pace| #[trigger] started(*p, start) && #[trigger]
        p.query.polled(start, last, true, false, r) by {
        let (start, last) = choose|start: P::Pace, last: P::Pace| #[trigger] p.starts(start)
            && #[trigger] p.query.polled(start, last, true, false, r);
        assert(started(*p, start));
    }
    assert forall|r: WebDriverResult<Vec<WebElement<'a, D>>>| #[trigger]
        call_ensures(PacedQuery::<'q, 'a, D, F, P>::all_required, (p,), r)
        implies exists|start: P::Pace, last: P::Pace| #[trigger] started(*p, start) && #[trigger]
        p.query.finds_required(start, last, r) by {
        let (start, last) = choose|start: P::Pace, last: P::Pace| #[trigger] p.starts(start)
            && #[trigger] p.query.finds_required(start, last, r);
        assert(started(*p, start));
    }
    assert forall|r: WebDriverResult<Vec<WebElement<'a, D>>>| #[trigger]
        call_ensures(PacedQuery::<'q, 'a, D, F, P>::all_from_selector_required, (p,), r)
        implies exists|start: P::Pace, last: P::Pace| #[trigger] started(*p, start) && #[trigger]
        p.query.finds_required(start, last, r) by {
        let (start, last) = choose|start: P::Pace, last: P::Pace| #[trigger] p.starts(start)
            && #[trigger] p.query.finds_required(start, last, r);
        assert(started(*p, start));
    }
}

} // verus!
