//! How elements are looked for when they are needed.
use vstd::prelude::*;

use crate::command::By;
use crate::connection::HttpClient;
use crate::error::WebDriverResult;
use crate::query::{
    AnyElement, ElementQuery, ElementQueryFn, ElementQueryOptions, ElementQuerySource, Pacing,
};
use crate::resolver::{
    Component, ComponentQuery, ComponentsQuery, ElementResolver, MultiQuery, Resolve, SingleQuery,
};
use crate::resolver;
use crate::session::SessionHandle;
use crate::webelement::WebElement;

verus! {

/// A resolver for one element asks for the only one or for the first one, as its constructor says.
pub proof fn law_single_resolvers<'a, H, G, P>(
    base: WebElement<'a, SessionHandle<H, G>>,
    by: By,
    options: ElementQueryOptions,
    pacing: P,
)
    ensures
        forall|r: ElementResolver<'a, SessionHandle<H, G>, WebElement<'a, SessionHandle<H, G>>,
            SingleQuery<P>>| #[trigger]
            call_ensures(ElementResolver::<'a, SessionHandle<H, G>, WebElement<'a, SessionHandle<H,
            G>>, SingleQuery<P>>::new_single, (base, by, pacing), r)
            ==> r@.element is None && r@.base_element == base && r@.query_fn.by == by
            && r@.query_fn.pacing == pacing && r@.query_fn.options == None::<ElementQueryOptions>
            && r@.query_fn.first == false,
        forall|r: ElementResolver<'a, SessionHandle<H, G>, WebElement<'a, SessionHandle<H, G>>,
            SingleQuery<P>>| #[trigger]
            call_ensures(ElementResolver::<'a, SessionHandle<H, G>, WebElement<'a, SessionHandle<H,
            G>>, SingleQuery<P>>::new_single_opts, (base, by, options, pacing), r)
            ==> r@.element is None && r@.base_element == base && r@.query_fn.by == by
            && r@.query_fn.pacing == pacing && r@.query_fn.options == Some(options)
            && r@.query_fn.first == false,
        forall|r: ElementResolver<'a, SessionHandle<H, G>, WebElement<'a, SessionHandle<H, G>>,
            SingleQuery<P>>| #[trigger]
            call_ensures(ElementResolver::<'a, SessionHandle<H, G>, WebElement<'a, SessionHandle<H,
            G>>, SingleQuery<P>>::new_first, (base, by, pacing), r)
            ==> r@.element is None && r@.base_element == base && r@.query_fn.by == by
            && r@.query_fn.pacing == pacing && r@.query_fn.options == None::<ElementQueryOptions>
            && r@.query_fn.first == true,
        forall|r: ElementResolver<'a, SessionHandle<H, G>, WebElement<'a, SessionHandle<H, G>>,
            SingleQuery<P>>| #[trigger]
            call_ensures(ElementResolver::<'a, SessionHandle<H, G>, WebElement<'a, SessionHandle<H,
            G>>, SingleQuery<P>>::new_first_opts, (base, by, options, pacing), r)
            ==> r@.element is None && r@.base_element == base && r@.query_fn.by == by
            && r@.query_fn.pacing == pacing && r@.query_fn.options == Some(options)
            && r@.query_fn.first == true,
{
}

/// A resolver for many elements takes none for an answer or does not, as its constructor says.
pub proof fn law_multi_resolvers<'a, H, G, P>(
    base: WebElement<'a, SessionHandle<H, G>>,
    by: By,
    options: ElementQueryOptions,
    pacing: P,
)
    ensures
        forall|r: ElementResolver<'a, SessionHandle<H, G>, Vec<WebElement<'a, SessionHandle<H,
            G>>>, MultiQuery<P>>| #[trigger]
            call_ensures(ElementResolver::<'a, SessionHandle<H, G>, Vec<WebElement<'a,
            SessionHandle<H, G>>>, MultiQuery<P>>::new_allow_empty, (base, by, pacing), r)
            ==> r@.element is None && r@.base_element == base && r@.query_fn.by == by
            && r@.query_fn.pacing == pacing && r@.query_fn.options == None::<ElementQueryOptions>
            && r@.query_fn.required == false,
        forall|r: ElementResolver<'a, SessionHandle<H, G>, Vec<WebElement<'a, SessionHandle<H,
            G>>>, MultiQuery<P>>| #[trigger]
            call_ensures(ElementResolver::<'a, SessionHandle<H, G>, Vec<WebElement<'a,
            SessionHandle<H, G>>>, MultiQuery<P>>::new_allow_empty_opts, (base, by, options,
            pacing), r)
            ==> r@.element is None && r@.base_element == base && r@.query_fn.by == by
            && r@.query_fn.pacing == pacing && r@.query_fn.options == Some(options)
            && r@.query_fn.required == false,
        forall|r: ElementResolver<'a, SessionHandle<H, G>, Vec<WebElement<'a, SessionHandle<H,
            G>>>, MultiQuery<P>>| #[trigger]
            call_ensures(ElementResolver::<'a, SessionHandle<H, G>, Vec<WebElement<'a,
            SessionHandle<H, G>>>, MultiQuery<P>>::new_not_empty, (base, by, pacing), r)
            ==> r@.element is None && r@.base_element == base && r@.query_fn.by == by
            && r@.query_fn.pacing == pacing && r@.query_fn.options == None::<ElementQueryOptions>
            && r@.query_fn.required == true,
        forall|r: ElementResolver<'a, SessionHandle<H, G>, Vec<WebElement<'a, SessionHandle<H,
            G>>>, MultiQuery<P>>| #[trigger]
            call_ensures(ElementResolver::<'a, SessionHandle<H, G>, Vec<WebElement<'a,
            SessionHandle<H, G>>>, MultiQuery<P>>::new_not_empty_opts, (base, by, options, pacing),
            r) ==> r@.element is None && r@.base_element == base && r@.query_fn.by == by
            && r@.query_fn.pacing == pacing && r@.query_fn.options == Some(options)
            && r@.query_fn.required == true,
{
}

/// A resolver for one component asks for its element in the same two ways.
pub proof fn law_component_resolvers<'a, H, G, P, T: Component<Base =
    WebElement<'a, SessionHandle<H, G>>>>(
    base: WebElement<'a, SessionHandle<H, G>>,
    by: By,
    options: ElementQueryOptions,
    pacing: P,
)
    ensures
        forall|r: ElementResolver<'a, SessionHandle<H, G>, T, ComponentQuery<P>>| #[trigger]
            call_ensures(ElementResolver::<'a, SessionHandle<H, G>, T,
            ComponentQuery<P>>::new_single, (base, by, pacing), r)
            ==> r@.element is None && r@.base_element == base && r@.query_fn.query.by == by
            && r@.query_fn.query.pacing == pacing
            && r@.query_fn.query.options == None::<ElementQueryOptions>
            && r@.query_fn.query.first == false,
        forall|r: ElementResolver<'a, SessionHandle<H, G>, T, ComponentQuery<P>>| #[trigger]
            call_ensures(ElementResolver::<'a, SessionHandle<H, G>, T,
            ComponentQuery<P>>::new_single_opts, (base, by, options, pacing), r)
            ==> r@.element is None && r@.base_element == base && r@.query_fn.query.by == by
            && r@.query_fn.query.pacing == pacing && r@.query_fn.query.options == Some(options)
            && r@.query_fn.query.first == false,
        forall|r: ElementResolver<'a, SessionHandle<H, G>, T, ComponentQuery<P>>| #[trigger]
            call_ensures(ElementResolver::<'a, SessionHandle<H, G>, T,
            ComponentQuery<P>>::new_first, (base, by, pacing), r)
            ==> r@.element is None && r@.base_element == base && r@.query_fn.query.by == by
            && r@.query_fn.query.pacing == pacing
            && r@.query_fn.query.options == None::<ElementQueryOptions>
            && r@.query_fn.query.first == true,
        forall|r: ElementResolver<'a, SessionHandle<H, G>, T, ComponentQuery<P>>| #[trigger]
            call_ensures(ElementResolver::<'a, SessionHandle<H, G>, T,
            ComponentQuery<P>>::new_first_opts, (base, by, options, pacing), r)
            ==> r@.element is None && r@.base_element == base && r@.query_fn.query.by == by
            && r@.query_fn.query.pacing == pacing && r@.query_fn.query.options == Some(options)
            && r@.query_fn.query.first == true,
{
}

/// A resolver for many components asks for their elements in the same two ways.
pub proof fn law_components_resolvers<'a, H, G, P, T: Component<Base =
    WebElement<'a, SessionHandle<H, G>>>>(
    base: WebElement<'a, SessionHandle<H, G>>,
    by: By,
    options: ElementQueryOptions,
    pacing: P,
)
    ensures
        forall|r: ElementResolver<'a, SessionHandle<H, G>, Vec<T>, ComponentsQuery<P>>| #[trigger]
            call_ensures(ElementResolver::<'a, SessionHandle<H, G>, Vec<T>,
            ComponentsQuery<P>>::new_allow_empty, (base, by, pacing), r)
            ==> r@.element is None && r@.base_element == base && r@.query_fn.query.by == by
            && r@.query_fn.query.pacing == pacing
            && r@.query_fn.query.options == None::<ElementQueryOptions>
            && r@.query_fn.query.required == false,
        forall|r: ElementResolver<'a, SessionHandle<H, G>, Vec<T>, ComponentsQuery<P>>| #[trigger]
            call_ensures(ElementResolver::<'a, SessionHandle<H, G>, Vec<T>,
            ComponentsQuery<P>>::new_allow_empty_opts, (base, by, options, pacing), r)
            ==> r@.element is None && r@.base_element == base && r@.query_fn.query.by == by
            && r@.query_fn.query.pacing == pacing && r@.query_fn.query.options == Some(options)
            && r@.query_fn.query.required == false,
        forall|r: ElementResolver<'a, SessionHandle<H, G>, Vec<T>, ComponentsQuery<P>>| #[trigger]
            call_ensures(ElementResolver::<'a, SessionHandle<H, G>, Vec<T>,
            ComponentsQuery<P>>::new_not_empty, (base, by, pacing), r)
            ==> r@.element is None && r@.base_element == base && r@.query_fn.query.by == by
            && r@.query_fn.query.pacing == pacing
            && r@.query_fn.query.options == None::<ElementQueryOptions>
            && r@.query_fn.query.required == true,
        forall|r: ElementResolver<'a, SessionHandle<H, G>, Vec<T>, ComponentsQuery<P>>| #[trigger]
            call_ensures(ElementResolver::<'a, SessionHandle<H, G>, Vec<T>,
            ComponentsQuery<P>>::new_not_empty_opts, (base, by, options, pacing), r)
            ==> r@.element is None && r@.base_element == base && r@.query_fn.query.by == by
            && r@.query_fn.query.pacing == pacing && r@.query_fn.query.options == Some(options)
            && r@.query_fn.query.required == true,
{
}

/// A resolver of the user's own starts with nothing found, and forgets what it found where it is
/// told so.
pub proof fn law_custom_resolver<'a, D, T, Q>(
    base: WebElement<'a, D>,
    query: Q,
    r: ElementResolver<'a, D, T, Q>,
)
    requires
        call_ensures(ElementResolver::<'a, D, T, Q>::new_custom, (base, query), r),
    ensures
        r@.base_element == base,
        r@.query_fn == query,
        r@.element is None,
        forall|s: &mut ElementResolver<'a, D, T, Q>, u: ()| #[trigger]
            call_ensures(ElementResolver::<'a, D, T, Q>::invalidate, (s,), u)
            ==> final(s)@.element is None && final(s)@.base_element == (*s)@.base_element
            && final(s)@.query_fn == (*s)@.query_fn,
{
}

/// What the query came back with.
pub open spec fn queried<'a, D, T, Q: ElementQueryFn<'a, D, T>>(
    s: ElementResolver<'a, D, T, Q>,
    x: WebDriverResult<T>,
) -> bool {
    call_ensures(
        <Q as ElementQueryFn<'a, D, T>>::call,
        (&s@.query_fn, &s@.base_element),
        x,
    )
}

/// What was found before is handed out again, and nothing is looked for. Else the query is asked
/// from the base: what it finds is kept and handed out, and its error comes out and is not kept.
pub proof fn law_resolve<'a, D, T: Clone, Q: ElementQueryFn<'a, D, T>>()
    ensures
        forall|s: &mut ElementResolver<'a, D, T, Q>, r: WebDriverResult<T>| #[trigger]
            call_ensures(ElementResolver::<'a, D, T, Q>::resolve, (s,), r) ==> match (*s)@.element {
            Some(kept) => final(s)@ == (*s)@ && (r matches Ok(t) && cloned(kept, t)),
            None => looked_up(*s, *final(s), r),
        },
        forall|s: &mut ElementResolver<'a, D, T, Q>, r: WebDriverResult<T>| #[trigger]
            call_ensures(ElementResolver::<'a, D, T, Q>::resolve_force, (s,), r)
            ==> looked_up(*s, *final(s), r),
{
    assert forall|s: &mut ElementResolver<'a, D, T, Q>, r: WebDriverResult<T>| #[trigger]
        call_ensures(ElementResolver::<'a, D, T, Q>::resolve, (s,), r) && (*s)@.element is None
        implies looked_up(*s, *final(s), r) by {
        lemma_looked_up(*s, *final(s), (*s)@, r);
    }
    assert forall|s: &mut ElementResolver<'a, D, T, Q>, r: WebDriverResult<T>| #[trigger]
        call_ensures(ElementResolver::<'a, D, T, Q>::resolve_force, (s,), r)
        implies looked_up(*s, *final(s), r) by {
        lemma_looked_up(*s, *final(s), resolver::forgotten((*s)@), r);
    }
}

proof fn lemma_looked_up<'a, D, T: Clone, Q: ElementQueryFn<'a, D, T>>(
    before: ElementResolver<'a, D, T, Q>,
    after: ElementResolver<'a, D, T, Q>,
    from: resolver::ResolverState<'a, D, T, Q>,
    r: WebDriverResult<T>,
)
    requires
        from == resolver::forgotten(before@),
        resolver::resolves(from, after@, r),
    ensures
        looked_up(before, after, r),
{
    let x = choose|x: WebDriverResult<T>| #[trigger]
        call_ensures(
            <Q as ElementQueryFn<'a, D, T>>::call,
            (&from.query_fn, &from.base_element),
            x,
        ) && match x {
            Err(e) => after@ == from && r == Err::<T, crate::error::WebDriverError>(e),
            Ok(t) => after@ == (resolver::ResolverState { element: Some(t), ..from }) && (
            r matches Ok(u) && cloned(t, u)),
        };
    assert(queried(before, x));
}

/// The query was asked, and what it found was kept and handed out.
pub open spec fn looked_up<'a, D, T: Clone, Q: ElementQueryFn<'a, D, T>>(
    before: ElementResolver<'a, D, T, Q>,
    after: ElementResolver<'a, D, T, Q>,
    r: WebDriverResult<T>,
) -> bool {
    &&& after@.base_element == before@.base_element
    &&& after@.query_fn == before@.query_fn
    &&& exists|x: WebDriverResult<T>| #[trigger]
        queried(before, x) && match x {
            Err(e) => after@.element is None && (r matches Err(f) && f == e),
            Ok(t) => after@.element == Some(t) && (r matches Ok(u) && cloned(t, u)),
        }
}

/// What was found is still valid where it is present, and is nothing where it is not or where
/// nothing was found.
pub proof fn law_validate<'a, D, T: Resolve + Clone, Q: ElementQueryFn<'a, D, T>>(
    s: &ElementResolver<'a, D, T, Q>,
    r: WebDriverResult<Option<T>>,
)
    requires
        call_ensures(ElementResolver::<'a, D, T, Q>::validate, (s,), r),
    ensures
        s@.element is None ==> (r matches Ok(o) && o is None),
        s@.element matches Some(kept) ==> exists|copy: T, p: WebDriverResult<bool>|
            cloned(kept, copy) && #[trigger] copy.presence(p) && match p {
                Ok(true) => r matches Ok(Some(t)) && t == copy,
                Ok(false) => r matches Ok(o) && o is None,
                Err(e) => r matches Err(f) && f == e,
            },
{
}

/// A single query looks for the first element where it is told so, and for the only one else: in
/// the element that it is given, with its selector and its options.
pub proof fn law_single_query<'a, H: HttpClient, G, P: Pacing>(
    s: &SingleQuery<P>,
    e: &WebElement<'a, SessionHandle<H, G>>,
    r: WebDriverResult<WebElement<'a, SessionHandle<H, G>>>,
)
    requires
        call_ensures(
            <SingleQuery<P> as ElementQueryFn<
                'a,
                SessionHandle<H, G>,
                WebElement<'a, SessionHandle<H, G>>,
            >>::call,
            (s, e),
            r,
        ),
    ensures
        exists|q: ElementQuery<'a, SessionHandle<H, G>, AnyElement>, pace: P::Pace, last: P::Pace|
            #![trigger q.finds_first(pace, last, r)]
            #![trigger q.finds_single(pace, last, r)]
            asked_in(q, *e, s.by, s.options) && if s.first {
                q.finds_first(pace, last, r)
            } else {
                q.finds_single(pace, last, r)
            },
{
    let (q, pace) = choose|q: ElementQuery<'a, SessionHandle<H, G>, AnyElement>,
        pace: P::Pace| #[trigger]
        resolver::is_query(q, *e, s.by, s.options) && #[trigger] call_ensures(
            P::start,
            (&s.pacing, &q@.poller),
            pace,
        ) && if s.first {
            exists|last: P::Pace| #[trigger] q.finds_first(pace, last, r)
        } else {
            exists|last: P::Pace| #[trigger] q.finds_single(pace, last, r)
        };
    lemma_asked(q, *e, s.by, s.options);
}

/// A query for many elements takes none for an error where it is told so.
pub proof fn law_multi_query<'a, H: HttpClient, G, P: Pacing>(
    s: &MultiQuery<P>,
    e: &WebElement<'a, SessionHandle<H, G>>,
    r: WebDriverResult<Vec<WebElement<'a, SessionHandle<H, G>>>>,
)
    requires
        call_ensures(
            <MultiQuery<P> as ElementQueryFn<
                'a,
                SessionHandle<H, G>,
                Vec<WebElement<'a, SessionHandle<H, G>>>,
            >>::call,
            (s, e),
            r,
        ),
    ensures
        exists|q: ElementQuery<'a, SessionHandle<H, G>, AnyElement>, pace: P::Pace, last: P::Pace|
            #![trigger q.finds_required(pace, last, r)]
            #![trigger q.polled(pace, last, true, false, r)]
            asked_in(q, *e, s.by, s.options) && if s.required {
                q.finds_required(pace, last, r)
            } else {
                q.polled(pace, last, true, false, r)
            },
{
    let (q, pace) = choose|q: ElementQuery<'a, SessionHandle<H, G>, AnyElement>,
        pace: P::Pace| #[trigger]
        resolver::is_query(q, *e, s.by, s.options) && #[trigger] call_ensures(
            P::start,
            (&s.pacing, &q@.poller),
            pace,
        ) && if s.required {
            exists|last: P::Pace| #[trigger] q.finds_required(pace, last, r)
        } else {
            exists|last: P::Pace| #[trigger] q.polled(pace, last, true, false, r)
        };
    lemma_asked(q, *e, s.by, s.options);
}

/// The query is in the element, has the one selector without filters, and the options.
pub open spec fn asked_in<'a, H, G>(
    q: ElementQuery<'a, SessionHandle<H, G>, AnyElement>,
    e: WebElement<'a, SessionHandle<H, G>>,
    by: By,
    options: Option<ElementQueryOptions>,
) -> bool {
    &&& q@.source == ElementQuerySource::Element(e)
    &&& q@.selectors.len() == 1
    &&& q@.selectors[0].by == by
    &&& q@.selectors[0].filters@.len() == 0
    &&& match options {
        Some(o) => q@.options == o@,
        None => q@.options.ignore_errors is None && q@.options.description is None
            && q@.options.wait
            is None && q@.poller == e.session@.config.poller,
    }
}

proof fn lemma_asked<'a, H, G>(
    q: ElementQuery<'a, SessionHandle<H, G>, AnyElement>,
    e: WebElement<'a, SessionHandle<H, G>>,
    by: By,
    options: Option<ElementQueryOptions>,
)
    requires
        resolver::is_query(q, e, by, options),
    ensures
        asked_in(q, e, by, options),
{
}

/// Many things are present where each of them is.
pub proof fn law_all_present<T: Resolve>(items: &Vec<T>, r: WebDriverResult<bool>, k: int)
    requires
        call_ensures(<Vec<T> as Resolve>::is_present, (items,), r),
        0 <= k < items@.len(),
    ensures
        r matches Ok(b) && b ==> items@[k].presence(Ok(true)),
        r matches Ok(b) && !b
            ==> exists|i: int| 0 <= i < items@.len() && (#[trigger] items@[i]).presence(Ok(false)),
{
    if r == Ok::<bool, crate::error::WebDriverError>(true) {
        resolver::lemma_all_present(items@, 0, k);
    } else if r == Ok::<bool, crate::error::WebDriverError>(false) {
        lemma_not_all(items@, 0);
    }
}

proof fn lemma_not_all<T: Resolve>(items: Seq<T>, i: nat)
    requires
        resolver::all_present(items, i, Ok(false)),
    ensures
        exists|k: int| 0 <= k < items.len() && (#[trigger] items[k]).presence(Ok(false)),
    decreases items.len() - i,
{
    if i < items.len() {
        let p = choose|p: WebDriverResult<bool>| #[trigger]
            items[i as int].presence(p) && if p == Ok::<bool, crate::error::WebDriverError>(true) {
                resolver::all_present(items, i + 1, Ok(false))
            } else {
                Ok::<bool, crate::error::WebDriverError>(false) == p
            };
        if p == Ok::<bool, crate::error::WebDriverError>(true) {
            lemma_not_all(items, i + 1);
        } else {
            assert(items[i as int].presence(Ok(false)));
        }
    }
}

/// A component is made of the element that its query finds.
pub proof fn law_component_query<'a, H: HttpClient, G, P: Pacing, T: Component<Base =
    WebElement<'a, SessionHandle<H, G>>>>(
    s: &ComponentQuery<P>,
    e: &WebElement<'a, SessionHandle<H, G>>,
    r: WebDriverResult<T>,
)
    requires
        call_ensures(
            <ComponentQuery<P> as ElementQueryFn<'a, SessionHandle<H, G>, T>>::call,
            (s, e),
            r,
        ),
    ensures
        exists|x: WebDriverResult<WebElement<'a, SessionHandle<H, G>>>| #[trigger]
            s.query.finds_one(*e, x) && match x {
                Err(f) => r matches Err(g) && g == f,
                Ok(w) => r matches Ok(t) && call_ensures(T::from_element, (w,), t),
            },
{
}

/// Components are made of the elements that their query finds, one of each and in their order.
pub proof fn law_components_query<'a, H: HttpClient, G, P: Pacing, T: Component<Base =
    WebElement<'a, SessionHandle<H, G>>>>(
    s: &ComponentsQuery<P>,
    e: &WebElement<'a, SessionHandle<H, G>>,
    r: WebDriverResult<Vec<T>>,
)
    requires
        call_ensures(
            <ComponentsQuery<P> as ElementQueryFn<'a, SessionHandle<H, G>, Vec<T>>>::call,
            (s, e),
            r,
        ),
    ensures
        exists|x: WebDriverResult<Vec<WebElement<'a, SessionHandle<H, G>>>>| #[trigger]
            s.query.finds_many(*e, x) && match x {
                Err(f) => r matches Err(g) && g == f,
                Ok(v) => r matches Ok(t) && t@.len() == v@.len() && forall|i: int|
                    0 <= i < t@.len() ==> call_ensures(
                        T::from_element,
                        (v@[i],),
                        #[trigger] t@[i],
                    ),
            },
{
}

/// What was found and is still present is handed out. Else it is looked for again.
pub proof fn law_resolve_present<'a, D, T: Resolve + Clone, Q: ElementQueryFn<'a, D, T>>()
    ensures
        forall|s: &mut ElementResolver<'a, D, T, Q>, r: WebDriverResult<T>| #[trigger]
            call_ensures(ElementResolver::<'a, D, T, Q>::resolve_present, (s,), r)
            ==> match (*s)@.element {
            None => looked_up(*s, *final(s), r),
            Some(kept) => exists|copy: T, p: WebDriverResult<bool>| cloned(kept, copy)
                && #[trigger] copy.presence(p) && match p {
                Err(e) => final(s)@ == (*s)@ && (r matches Err(f) && f == e),
                Ok(true) => final(s)@ == (*s)@ && (r matches Ok(t) && t == copy),
                Ok(false) => looked_up(*s, *final(s), r),
            },
        },
{
    assert forall|s: &mut ElementResolver<'a, D, T, Q>, r: WebDriverResult<T>| #[trigger]
        call_ensures(ElementResolver::<'a, D, T, Q>::resolve_present, (s,), r)
        implies match (*s)@.element {
        None => looked_up(*s, *final(s), r),
        Some(kept) => exists|copy: T, p: WebDriverResult<bool>| cloned(kept, copy) && #[trigger]
            copy.presence(p) && match p {
            Err(e) => final(s)@ == (*s)@ && (r matches Err(f) && f == e),
            Ok(true) => final(s)@ == (*s)@ && (r matches Ok(t) && t == copy),
            Ok(false) => looked_up(*s, *final(s), r),
        },
    } by {
        let v = choose|v: WebDriverResult<Option<T>>| #[trigger]
            resolver::validates((*s)@, v) && match v {
                Err(e) => final(s)@ == (*s)@ && r == Err::<T, crate::error::WebDriverError>(e),
                Ok(Some(t)) => final(s)@ == (*s)@ && r == Ok::<T, crate::error::WebDriverError>(t),
                Ok(None) => resolver::resolves(resolver::forgotten((*s)@), final(s)@, r),
            };
        if v matches Ok(None) {
            lemma_looked_up(*s, *final(s), resolver::forgotten((*s)@), r);
        }
    }
}

} // verus!
