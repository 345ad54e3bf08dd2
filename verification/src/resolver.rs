//! Elements that are looked for when they are first needed, and kept.
use crate::command::By;
use crate::connection::HttpClient;
use crate::driver::Driver;
use crate::error::{WebDriverError, WebDriverResult};
use crate::query;
use crate::query::{
    AnyElement, ElementQuery, ElementQueryFn, ElementQueryOptions, ElementQuerySource, Pacing,
};
use crate::session::SessionHandle;
use crate::webelement::WebElement;
use vstd::prelude::*;

verus! {

/// What can be kept by a resolver: it can be asked whether it is still there.
pub trait Resolve: Sized {
    /// Whether `r` may say if it is still there.
    spec fn presence(&self, r: WebDriverResult<bool>) -> bool;

    /// Says whether it is still there.
    fn is_present(&self) -> (r: WebDriverResult<bool>)
        ensures
            self.presence(r),
    ;
}

/// The `Component` trait is automatically implemented by the `Component` derive macro.
///
/// Anything that implements it can be used with ElementResolver to take the resolved element as
/// input, and return the specific type.
pub trait Component: Sized {
    /// The type of the base element.
    type Base: Resolve;

    /// The component whose base element this is.
    fn from_element(element: Self::Base) -> Self;

    /// Get the base element for this component.
    fn base_element(&self) -> Self::Base;
}

impl<T: Component> Resolve for T {
    open spec fn presence(&self, r: WebDriverResult<bool>) -> bool {
        exists|base: T::Base|
            call_ensures(T::base_element, (self,), base) && #[trigger] base.presence(r)
    }

    fn is_present(&self) -> (r: WebDriverResult<bool>) {
        let base: T::Base = self.base_element();
        base.is_present()
    }
}

impl<'a, D: Driver> Resolve for WebElement<'a, D> {
    open spec fn presence(&self, r: WebDriverResult<bool>) -> bool {
        self.present(r)
    }

    fn is_present(&self) -> (r: WebDriverResult<bool>) {
        WebElement::is_present(self)
    }
}

/// Whether `r` may say if those from `i` on are all there: they are asked one after the other,
/// until one is not there.
pub open spec fn all_present<T: Resolve>(items: Seq<T>, i: nat, r: WebDriverResult<bool>) -> bool
    decreases items.len() - i,
{
    if i >= items.len() {
        r == Ok::<bool, WebDriverError>(true)
    } else {
        exists|p: WebDriverResult<bool>| #[trigger]
            items[i as int].presence(p) && if p == Ok::<bool, WebDriverError>(true) {
                all_present(items, i + 1, r)
            } else {
                r == p
            }
    }
}

impl<T: Resolve> Resolve for Vec<T> {
    open spec fn presence(&self, r: WebDriverResult<bool>) -> bool {
        all_present(self@, 0, r)
    }

    fn is_present(&self) -> (r: WebDriverResult<bool>) {
        let mut i: usize = 0;
        while i < self.len()
            invariant
                i <= self.len(),
                forall|q: WebDriverResult<bool>| #[trigger]
                    all_present(self@, i as nat, q) ==> all_present(self@, 0, q),
            decreases self.len() - i,
        {
            let p: WebDriverResult<bool> = self[i].is_present();
            let ghost gp = p;
            assert(self@[i as int].presence(gp));
            match p {
                Ok(true) => {},
                Ok(false) => {
                    assert(all_present(self@, i as nat, Ok(false)));
                    return Ok(false);
                },
                Err(e) => {
                    assert(all_present(self@, i as nat, Err(e)));
                    return Err(e);
                },
            }
            let ghost k = i;
            i = i + 1;
            proof {
                assert forall|q: WebDriverResult<bool>| #[trigger]
                    all_present(self@, i as nat, q) implies all_present(self@, 0, q) by {
                    assert(all_present(self@, k as nat, q));
                }
            }
        }
        assert(all_present(self@, i as nat, Ok(true)));
        Ok(true)
    }
}

/// A list is there only where each of its items is.
pub proof fn lemma_all_present<T: Resolve>(items: Seq<T>, i: nat, k: int)
    requires
        all_present(items, i, Ok(true)),
        i <= k < items.len(),
    ensures
        items[k].presence(Ok(true)),
    decreases items.len() - i,
{
    let p = choose|p: WebDriverResult<bool>| #[trigger]
        items[i as int].presence(p) && if p == Ok::<bool, WebDriverError>(true) {
            all_present(items, i + 1, Ok(true))
        } else {
            Ok::<bool, WebDriverError>(true) == p
        };
    assert(p == Ok::<bool, WebDriverError>(true));
    if i < k {
        lemma_all_present(items, i + 1, k);
    }
}

/// Element resolver that can resolve elements on demand, and keeps what it resolved.
#[derive(Debug)]
pub struct ElementResolver<'a, D, T, Q> {
    base_element: WebElement<'a, D>,
    query_fn: Q,
    element: Option<T>,
}

/// What a resolver stands for.
pub struct ResolverState<'a, D, T, Q> {
    pub base_element: WebElement<'a, D>,
    pub query_fn: Q,
    pub element: Option<T>,
}

/// Whether a resolver may be a copy of another one, with a copy of what that one keeps. From there
/// on each of the two keeps what it resolves for itself.
pub open spec fn is_copy<'a, D, T: Clone, Q: Clone>(
    state: ResolverState<'a, D, T, Q>,
    copy: ResolverState<'a, D, T, Q>,
) -> bool {
    &&& copy.base_element == state.base_element
    &&& cloned(state.query_fn, copy.query_fn)
    &&& match state.element {
        Some(kept) => copy.element matches Some(t) && cloned(kept, t),
        None => copy.element is None,
    }
}

/// A copy of a resolver keeps a copy of what the resolver keeps. What one of the two resolves or
/// forgets later, the other one does not.
impl<'a, D, T: Clone, Q: Clone> Clone for ElementResolver<'a, D, T, Q> {
    fn clone(&self) -> (r: Self)
        ensures
            is_copy(self@, r@),
    {
        let element: Option<T> = match &self.element {
            Some(kept) => Some(kept.clone()),
            None => None,
        };
        ElementResolver {
            base_element: self.base_element.clone(),
            query_fn: self.query_fn.clone(),
            element,
        }
    }
}

/// Whether `r` may be what a resolver comes to: what it keeps, and else what it looks for, which
/// it keeps where it was found.
pub open spec fn resolves<'a, D, T: Clone, Q: ElementQueryFn<'a, D, T>>(
    before: ResolverState<'a, D, T, Q>,
    after: ResolverState<'a, D, T, Q>,
    r: WebDriverResult<T>,
) -> bool {
    match before.element {
        Some(kept) => after == before && (r matches Ok(t) && cloned(kept, t)),
        None => exists|x: WebDriverResult<T>| #[trigger]
            call_ensures(
                <Q as ElementQueryFn<'a, D, T>>::call,
                (&before.query_fn, &before.base_element),
                x,
            ) && match x {
                Err(e) => after == before && r == Err::<T, WebDriverError>(e),
                Ok(t) => after == (ResolverState { element: Some(t), ..before }) && (r matches Ok(u)
                    && cloned(t, u)),
            },
    }
}

/// The resolver without what it keeps.
pub open spec fn forgotten<'a, D, T, Q>(state: ResolverState<'a, D, T, Q>) -> ResolverState<
    'a,
    D,
    T,
    Q,
> {
    ResolverState { element: None, ..state }
}

impl<'a, D, T, Q> ElementResolver<'a, D, T, Q> {
    /// What this resolver stands for.
    pub closed spec fn view(&self) -> ResolverState<'a, D, T, Q> {
        ResolverState {
            base_element: self.base_element,
            query_fn: self.query_fn,
            element: self.element,
        }
    }

    /// Create new element resolver using a custom resolver function.
    pub fn new_custom(base_element: WebElement<'a, D>, query_fn: Q) -> (r: Self)
        ensures
            r@ == (ResolverState { base_element, query_fn, element: None::<T> }),
    {
        ElementResolver { base_element, query_fn, element: None }
    }

    /// Invalidate any cached element(s).
    pub fn invalidate(&mut self)
        ensures
            final(self)@ == forgotten(old(self)@),
    {
        self.element = None;
    }
}

impl<'a, D, T: Clone, Q: ElementQueryFn<'a, D, T>> ElementResolver<'a, D, T, Q> {
    /// Return the cached element(s) if any, otherwise resolve and return.
    pub fn resolve(&mut self) -> (r: WebDriverResult<T>)
        ensures
            resolves(old(self)@, final(self)@, r),
    {
        match &self.element {
            Some(kept) => return Ok(kept.clone()),
            None => {},
        }
        let x: WebDriverResult<T> = self.query_fn.call(&self.base_element);
        match x {
            Ok(t) => {
                let u: T = t.clone();
                self.element = Some(t);
                Ok(u)
            },
            Err(e) => Err(e),
        }
    }

    /// Forget any cached element(s) and force a new resolve.
    pub fn resolve_force(&mut self) -> (r: WebDriverResult<T>)
        ensures
            resolves(forgotten(old(self)@), final(self)@, r),
    {
        self.invalidate();
        self.resolve()
    }
}

/// Whether `r` may be what a resolver keeps, where that is still there.
pub open spec fn validates<'a, D, T: Resolve + Clone, Q>(
    state: ResolverState<'a, D, T, Q>,
    r: WebDriverResult<Option<T>>,
) -> bool {
    match state.element {
        None => r matches Ok(None),
        Some(kept) => exists|copy: T, p: WebDriverResult<bool>|
            cloned(kept, copy) && #[trigger] copy.presence(p) && match p {
                Err(e) => r == Err::<Option<T>, WebDriverError>(e),
                Ok(true) => r == Ok::<Option<T>, WebDriverError>(Some(copy)),
                Ok(false) => r matches Ok(None),
            },
    }
}

impl<'a, D, T: Resolve + Clone, Q: ElementQueryFn<'a, D, T>> ElementResolver<'a, D, T, Q> {
    /// Validate that the cached element(s) are present, and if so, return them.
    pub fn validate(&self) -> (r: WebDriverResult<Option<T>>)
        ensures
            validates(self@, r),
    {
        match &self.element {
            None => Ok(None),
            Some(kept) => {
                let component: T = kept.clone();
                match component.is_present() {
                    Ok(true) => Ok(Some(component)),
                    Ok(false) => Ok(None),
                    Err(e) => Err(e),
                }
            },
        }
    }

    /// Validate all elements and return them, or resolve again if any element was not present.
    pub fn resolve_present(&mut self) -> (r: WebDriverResult<T>)
        ensures
            exists|v: WebDriverResult<Option<T>>| #[trigger]
                validates(old(self)@, v) && match v {
                    Err(e) => final(self)@ == old(self)@ && r == Err::<T, WebDriverError>(e),
                    Ok(Some(t)) => final(self)@ == old(self)@ && r == Ok::<T, WebDriverError>(t),
                    Ok(None) => resolves(forgotten(old(self)@), final(self)@, r),
                },
    {
        match self.validate() {
            Err(e) => Err(e),
            Ok(Some(component)) => Ok(component),
            Ok(None) => self.resolve_force(),
        }
    }
}

/// Once something was resolved, it is kept: resolving again gives a copy of it, and looks for
/// nothing.
pub proof fn lemma_resolved_is_kept<'a, D, T: Clone, Q: ElementQueryFn<'a, D, T>>(
    first: ResolverState<'a, D, T, Q>,
    second: ResolverState<'a, D, T, Q>,
    third: ResolverState<'a, D, T, Q>,
    r1: WebDriverResult<T>,
    r2: WebDriverResult<T>,
)
    requires
        resolves(first, second, r1),
        r1 is Ok,
        resolves(second, third, r2),
    ensures
        second.element is Some,
        third == second,
        cloned(second.element->0, r1->Ok_0),
        r2 matches Ok(t) && cloned(second.element->0, t),
{
}

/// A resolver that could not resolve keeps nothing, and looks again when it is asked again.
pub proof fn lemma_error_is_not_kept<'a, D, T: Clone, Q: ElementQueryFn<'a, D, T>>(
    before: ResolverState<'a, D, T, Q>,
    after: ResolverState<'a, D, T, Q>,
    e: WebDriverError,
)
    requires
        resolves(before, after, Err(e)),
    ensures
        after == before,
        after.element is None,
{
}

/// The query for elements below an element, with the options that there are.
pub open spec fn is_query<'a, H, G>(
    q: ElementQuery<'a, SessionHandle<H, G>, AnyElement>,
    e: WebElement<'a, SessionHandle<H, G>>,
    by: By,
    options: Option<ElementQueryOptions>,
) -> bool {
    exists|fresh: ElementQuery<'a, SessionHandle<H, G>, AnyElement>| #[trigger]
        fresh.is_new(ElementQuerySource::Element(e), by, e.session@.config.poller) && match options {
            None => q == fresh,
            Some(o) => query::has_options(q, fresh, o@),
        }
}

/// The query for elements below an element, with the options that there are.
fn make_query<'a, H, G>(
    e: &WebElement<'a, SessionHandle<H, G>>,
    by: &By,
    options: &Option<ElementQueryOptions>,
) -> (q: ElementQuery<'a, SessionHandle<H, G>, AnyElement>)
    ensures
        is_query(q, *e, *by, *options),
{
    let fresh: ElementQuery<'a, SessionHandle<H, G>, AnyElement> = ElementQuery::new(
        ElementQuerySource::Element(e.clone()),
        by.clone(),
        e.session.config().poller.clone(),
    );
    match options {
        None => fresh,
        Some(o) => fresh.options(o.clone()),
    }
}

/// Looks for one element below the base element: the only one, or the first one.
#[derive(Debug)]
pub struct SingleQuery<P> {
    pub by: By,
    pub options: Option<ElementQueryOptions>,
    pub first: bool,
    pub pacing: P,
}

/// Looks for all elements below the base element, of which there must be one or need not.
#[derive(Debug)]
pub struct MultiQuery<P> {
    pub by: By,
    pub options: Option<ElementQueryOptions>,
    pub required: bool,
    pub pacing: P,
}

/// The options that there are, once more.
fn copy_options(options: &Option<ElementQueryOptions>) -> (r: Option<ElementQueryOptions>)
    ensures
        r == *options,
{
    match options {
        Some(o) => Some(o.clone()),
        None => None,
    }
}

impl<P: Clone> Clone for SingleQuery<P> {
    fn clone(&self) -> (r: Self)
        ensures
            r == (SingleQuery { pacing: r.pacing, ..*self }),
            cloned(self.pacing, r.pacing),
    {
        SingleQuery {
            by: self.by.clone(),
            options: copy_options(&self.options),
            first: self.first,
            pacing: self.pacing.clone(),
        }
    }
}

impl<P: Clone> Clone for MultiQuery<P> {
    fn clone(&self) -> (r: Self)
        ensures
            r == (MultiQuery { pacing: r.pacing, ..*self }),
            cloned(self.pacing, r.pacing),
    {
        MultiQuery {
            by: self.by.clone(),
            options: copy_options(&self.options),
            required: self.required,
            pacing: self.pacing.clone(),
        }
    }
}

impl<P: Pacing> SingleQuery<P> {
    /// Whether `r` may be the element that is found, at the pace that the query's poller gives.
    pub open spec fn finds_one<'a, H: HttpClient, G>(
        &self,
        e: WebElement<'a, SessionHandle<H, G>>,
        r: WebDriverResult<WebElement<'a, SessionHandle<H, G>>>,
    ) -> bool {
        exists|q: ElementQuery<'a, SessionHandle<H, G>, AnyElement>, pace: P::Pace| #[trigger]
            is_query(q, e, self.by, self.options) && #[trigger] call_ensures(
                P::start,
                (&self.pacing, &q@.poller),
                pace,
            ) && if self.first {
                exists|last: P::Pace| #[trigger] q.finds_first(pace, last, r)
            } else {
                exists|last: P::Pace| #[trigger] q.finds_single(pace, last, r)
            }
    }
}

impl<P: Pacing> MultiQuery<P> {
    /// Whether `r` may be the elements that are found, at the pace that the query's poller gives.
    pub open spec fn finds_many<'a, H: HttpClient, G>(
        &self,
        e: WebElement<'a, SessionHandle<H, G>>,
        r: WebDriverResult<Vec<WebElement<'a, SessionHandle<H, G>>>>,
    ) -> bool {
        exists|q: ElementQuery<'a, SessionHandle<H, G>, AnyElement>, pace: P::Pace| #[trigger]
            is_query(q, e, self.by, self.options) && #[trigger] call_ensures(
                P::start,
                (&self.pacing, &q@.poller),
                pace,
            ) && if self.required {
                exists|last: P::Pace| #[trigger] q.finds_required(pace, last, r)
            } else {
                exists|last: P::Pace| #[trigger] q.polled(pace, last, true, false, r)
            }
    }
}

impl<'a, H: HttpClient, G, P: Pacing> ElementQueryFn<
    'a,
    SessionHandle<H, G>,
    WebElement<'a, SessionHandle<H, G>>,
> for SingleQuery<P> {
    fn call(&self, arg: &WebElement<'a, SessionHandle<H, G>>) -> (r: WebDriverResult<
        WebElement<'a, SessionHandle<H, G>>,
    >)
        ensures
            self.finds_one(*arg, r),
    {
        let q: ElementQuery<'a, SessionHandle<H, G>, AnyElement> = make_query(
            arg,
            &self.by,
            &self.options,
        );
        let mut pace: P::Pace = self.pacing.start(q.poller());
        let ghost start = pace;
        let r: WebDriverResult<WebElement<'a, SessionHandle<H, G>>> = if self.first {
            q.first(&mut pace)
        } else {
            q.single(&mut pace)
        };
        proof {
            assert(is_query(q, *arg, self.by, self.options));
            assert(call_ensures(P::start, (&self.pacing, &q@.poller), start));
            if self.first {
                assert(q.finds_first(start, pace, r));
            } else {
                assert(q.finds_single(start, pace, r));
            }
        }
        r
    }
}

impl<'a, H: HttpClient, G, P: Pacing> ElementQueryFn<
    'a,
    SessionHandle<H, G>,
    Vec<WebElement<'a, SessionHandle<H, G>>>,
> for MultiQuery<P> {
    fn call(&self, arg: &WebElement<'a, SessionHandle<H, G>>) -> (r: WebDriverResult<
        Vec<WebElement<'a, SessionHandle<H, G>>>,
    >)
        ensures
            self.finds_many(*arg, r),
    {
        let q: ElementQuery<'a, SessionHandle<H, G>, AnyElement> = make_query(
            arg,
            &self.by,
            &self.options,
        );
        let mut pace: P::Pace = self.pacing.start(q.poller());
        let ghost start = pace;
        let r: WebDriverResult<Vec<WebElement<'a, SessionHandle<H, G>>>> = if self.required {
            q.all_from_selector_required(&mut pace)
        } else {
            q.all_from_selector(&mut pace)
        };
        proof {
            assert(is_query(q, *arg, self.by, self.options));
            assert(call_ensures(P::start, (&self.pacing, &q@.poller), start));
            if self.required {
                assert(q.finds_required(start, pace, r));
            } else {
                assert(q.polled(start, pace, true, false, r));
            }
        }
        r
    }
}

/// Element resolver that resolves one element.
pub type ElementResolverSingle<'a, H, G, P> = ElementResolver<
    'a,
    SessionHandle<H, G>,
    WebElement<'a, SessionHandle<H, G>>,
    SingleQuery<P>,
>;

/// Element resolver that resolves many elements.
pub type ElementResolverMulti<'a, H, G, P> = ElementResolver<
    'a,
    SessionHandle<H, G>,
    Vec<WebElement<'a, SessionHandle<H, G>>>,
    MultiQuery<P>,
>;

impl<'a, H, G, P> ElementResolver<'a, SessionHandle<H, G>, WebElement<'a, SessionHandle<H, G>>, SingleQuery<P>> {
    /// Create new element resolver that must return a single element.
    pub fn new_single(base_element: WebElement<'a, SessionHandle<H, G>>, by: By, pacing: P) -> (r: Self)
        ensures
            r@ == (ResolverState {
                base_element,
                query_fn: SingleQuery { by, options: None, first: false, pacing },
                element: None::<WebElement<'a, SessionHandle<H, G>>>,
            }),
    {
        ElementResolver::new_custom(
            base_element,
            SingleQuery { by, options: None, first: false, pacing },
        )
    }

    /// Create new element resolver that must return a single element, with extra options.
    pub fn new_single_opts(base_element: WebElement<'a, SessionHandle<H, G>>, by: By, options: ElementQueryOptions, pacing: P) -> (r: Self)
        ensures
            r@ == (ResolverState {
                base_element,
                query_fn: SingleQuery { by, options: Some(options), first: false, pacing },
                element: None::<WebElement<'a, SessionHandle<H, G>>>,
            }),
    {
        ElementResolver::new_custom(
            base_element,
            SingleQuery { by, options: Some(options), first: false, pacing },
        )
    }

    /// Create new element resolver that returns the first element.
    pub fn new_first(base_element: WebElement<'a, SessionHandle<H, G>>, by: By, pacing: P) -> (r: Self)
        ensures
            r@ == (ResolverState {
                base_element,
                query_fn: SingleQuery { by, options: None, first: true, pacing },
                element: None::<WebElement<'a, SessionHandle<H, G>>>,
            }),
    {
        ElementResolver::new_custom(
            base_element,
            SingleQuery { by, options: None, first: true, pacing },
        )
    }

    /// Create new element resolver that returns the first element, with extra options.
    pub fn new_first_opts(base_element: WebElement<'a, SessionHandle<H, G>>, by: By, options: ElementQueryOptions, pacing: P) -> (r: Self)
        ensures
            r@ == (ResolverState {
                base_element,
                query_fn: SingleQuery { by, options: Some(options), first: true, pacing },
                element: None::<WebElement<'a, SessionHandle<H, G>>>,
            }),
    {
        ElementResolver::new_custom(
            base_element,
            SingleQuery { by, options: Some(options), first: true, pacing },
        )
    }
}

impl<'a, H, G, P> ElementResolver<'a, SessionHandle<H, G>, Vec<WebElement<'a, SessionHandle<H, G>>>, MultiQuery<P>> {
    /// Create new element resolver that returns all elements, if any.
    pub fn new_allow_empty(base_element: WebElement<'a, SessionHandle<H, G>>, by: By, pacing: P) -> (r: Self)
        ensures
            r@ == (ResolverState {
                base_element,
                query_fn: MultiQuery { by, options: None, required: false, pacing },
                element: None::<Vec<WebElement<'a, SessionHandle<H, G>>>>,
            }),
    {
        ElementResolver::new_custom(
            base_element,
            MultiQuery { by, options: None, required: false, pacing },
        )
    }

    /// Create new element resolver that returns all elements, if any, with extra options.
    pub fn new_allow_empty_opts(base_element: WebElement<'a, SessionHandle<H, G>>, by: By, options: ElementQueryOptions, pacing: P) -> (r: Self)
        ensures
            r@ == (ResolverState {
                base_element,
                query_fn: MultiQuery { by, options: Some(options), required: false, pacing },
                element: None::<Vec<WebElement<'a, SessionHandle<H, G>>>>,
            }),
    {
        ElementResolver::new_custom(
            base_element,
            MultiQuery { by, options: Some(options), required: false, pacing },
        )
    }

    /// Create new element resolver that returns at least one element.
    pub fn new_not_empty(base_element: WebElement<'a, SessionHandle<H, G>>, by: By, pacing: P) -> (r: Self)
        ensures
            r@ == (ResolverState {
                base_element,
                query_fn: MultiQuery { by, options: None, required: true, pacing },
                element: None::<Vec<WebElement<'a, SessionHandle<H, G>>>>,
            }),
    {
        ElementResolver::new_custom(
            base_element,
            MultiQuery { by, options: None, required: true, pacing },
        )
    }

    /// Create new element resolver that returns at least one element, with extra options.
    pub fn new_not_empty_opts(base_element: WebElement<'a, SessionHandle<H, G>>, by: By, options: ElementQueryOptions, pacing: P) -> (r: Self)
        ensures
            r@ == (ResolverState {
                base_element,
                query_fn: MultiQuery { by, options: Some(options), required: true, pacing },
                element: None::<Vec<WebElement<'a, SessionHandle<H, G>>>>,
            }),
    {
        ElementResolver::new_custom(
            base_element,
            MultiQuery { by, options: Some(options), required: true, pacing },
        )
    }
}

/// Looks for one component below the base element.
#[derive(Debug)]
pub struct ComponentQuery<P> {
    pub query: SingleQuery<P>,
}

/// Looks for all components below the base element.
#[derive(Debug)]
pub struct ComponentsQuery<P> {
    pub query: MultiQuery<P>,
}

impl<P: Clone> Clone for ComponentQuery<P> {
    fn clone(&self) -> (r: Self)
        ensures
            cloned(self.query, r.query),
    {
        ComponentQuery { query: self.query.clone() }
    }
}

impl<P: Clone> Clone for ComponentsQuery<P> {
    fn clone(&self) -> (r: Self)
        ensures
            cloned(self.query, r.query),
    {
        ComponentsQuery { query: self.query.clone() }
    }
}

impl<'a, H: HttpClient + 'a, G: 'a, P: Pacing, T: Component<Base = WebElement<'a, SessionHandle<H, G>>>> ElementQueryFn<
    'a,
    SessionHandle<H, G>,
    T,
> for ComponentQuery<P> {
    fn call(&self, arg: &WebElement<'a, SessionHandle<H, G>>) -> (r: WebDriverResult<T>)
        ensures
            exists|x: WebDriverResult<WebElement<'a, SessionHandle<H, G>>>| #[trigger]
                self.query.finds_one(*arg, x) && match x {
                    Err(e) => r == Err::<T, WebDriverError>(e),
                    Ok(e) => r matches Ok(t) && call_ensures(
                        T::from_element,
                        (e,),
                        t,
                    ),
                },
    {
        match self.query.call(arg) {
            Ok(e) => Ok(T::from_element(e)),
            Err(e) => Err(e),
        }
    }
}

impl<'a, H: HttpClient + 'a, G: 'a, P: Pacing, T: Component<Base = WebElement<'a, SessionHandle<H, G>>>> ElementQueryFn<
    'a,
    SessionHandle<H, G>,
    Vec<T>,
> for ComponentsQuery<P> {
    fn call(&self, arg: &WebElement<'a, SessionHandle<H, G>>) -> (r: WebDriverResult<Vec<T>>)
        ensures
            exists|x: WebDriverResult<Vec<WebElement<'a, SessionHandle<H, G>>>>| #[trigger]
                self.query.finds_many(*arg, x) && match x {
                    Err(e) => r == Err::<Vec<T>, WebDriverError>(e),
                    Ok(v) => r matches Ok(t) && made_from::<H, G, T>(v@, t@),
                },
    {
        let x: WebDriverResult<Vec<WebElement<'a, SessionHandle<H, G>>>> = self.query.call(arg);
        let ghost gx = x;
        assert(self.query.finds_many(*arg, gx));
        match x {
            Ok(v) => {
                let mut t: Vec<T> = Vec::new();
                let mut i: usize = 0;
                while i < v.len()
                    invariant
                        i <= v.len(),
                        t.len() == i,
                        gx == Ok::<Vec<WebElement<'a, SessionHandle<H, G>>>, WebDriverError>(v),
                        self.query.finds_many(*arg, gx),
                        forall|j: int|
                            0 <= j < i ==> call_ensures(
                                T::from_element,
                                (v@[j],),
                                #[trigger] t@[j],
                            ),
                    decreases v.len() - i,
                {
                    t.push(T::from_element(v[i].clone()));
                    i = i + 1;
                }
                assert(made_from::<H, G, T>(v@, t@));
                Ok(t)
            },
            Err(e) => Err(e),
        }
    }
}

/// Whether components were made from elements, one for one.
pub open spec fn made_from<'a, H, G, T: Component<Base = WebElement<'a, SessionHandle<H, G>>>>(
    elements: Seq<WebElement<'a, SessionHandle<H, G>>>,
    components: Seq<T>,
) -> bool {
    components.len() == elements.len() && forall|j: int|
        0 <= j < elements.len() ==> call_ensures(
            T::from_element,
            (elements[j],),
            #[trigger] components[j],
        )
}

impl<'a, H, G, P, T: Component<Base = WebElement<'a, SessionHandle<H, G>>>> ElementResolver<
    'a,
    SessionHandle<H, G>,
    T,
    ComponentQuery<P>,
> {
    /// Create new element resolver that must return a single component.
    pub fn new_single(base_element: WebElement<'a, SessionHandle<H, G>>, by: By, pacing: P) -> (r: Self)
        ensures
            r@ == (ResolverState {
                base_element,
                query_fn: ComponentQuery { query: SingleQuery { by, options: None, first: false, pacing } },
                element: None::<T>,
            }),
    {
        ElementResolver::new_custom(
            base_element,
            ComponentQuery { query: SingleQuery { by, options: None, first: false, pacing } },
        )
    }

    /// Create new element resolver that must return a single component, with extra options.
    pub fn new_single_opts(base_element: WebElement<'a, SessionHandle<H, G>>, by: By, options: ElementQueryOptions, pacing: P) -> (r: Self)
        ensures
            r@ == (ResolverState {
                base_element,
                query_fn: ComponentQuery { query: SingleQuery { by, options: Some(options), first: false, pacing } },
                element: None::<T>,
            }),
    {
        ElementResolver::new_custom(
            base_element,
            ComponentQuery { query: SingleQuery { by, options: Some(options), first: false, pacing } },
        )
    }

    /// Create new element resolver that returns the first component.
    pub fn new_first(base_element: WebElement<'a, SessionHandle<H, G>>, by: By, pacing: P) -> (r: Self)
        ensures
            r@ == (ResolverState {
                base_element,
                query_fn: ComponentQuery { query: SingleQuery { by, options: None, first: true, pacing } },
                element: None::<T>,
            }),
    {
        ElementResolver::new_custom(
            base_element,
            ComponentQuery { query: SingleQuery { by, options: None, first: true, pacing } },
        )
    }

    /// Create new element resolver that returns the first component, with extra options.
    pub fn new_first_opts(base_element: WebElement<'a, SessionHandle<H, G>>, by: By, options: ElementQueryOptions, pacing: P) -> (r: Self)
        ensures
            r@ == (ResolverState {
                base_element,
                query_fn: ComponentQuery { query: SingleQuery { by, options: Some(options), first: true, pacing } },
                element: None::<T>,
            }),
    {
        ElementResolver::new_custom(
            base_element,
            ComponentQuery { query: SingleQuery { by, options: Some(options), first: true, pacing } },
        )
    }
}

impl<'a, H, G, P, T: Component<Base = WebElement<'a, SessionHandle<H, G>>>> ElementResolver<
    'a,
    SessionHandle<H, G>,
    Vec<T>,
    ComponentsQuery<P>,
> {
    /// Create new element resolver that returns all components, if any.
    pub fn new_allow_empty(base_element: WebElement<'a, SessionHandle<H, G>>, by: By, pacing: P) -> (r: Self)
        ensures
            r@ == (ResolverState {
                base_element,
                query_fn: ComponentsQuery { query: MultiQuery { by, options: None, required: false, pacing } },
                element: None::<Vec<T>>,
            }),
    {
        ElementResolver::new_custom(
            base_element,
            ComponentsQuery { query: MultiQuery { by, options: None, required: false, pacing } },
        )
    }

    /// Create new element resolver that returns all components, if any, with extra options.
    pub fn new_allow_empty_opts(base_element: WebElement<'a, SessionHandle<H, G>>, by: By, options: ElementQueryOptions, pacing: P) -> (r: Self)
        ensures
            r@ == (ResolverState {
                base_element,
                query_fn: ComponentsQuery { query: MultiQuery { by, options: Some(options), required: false, pacing } },
                element: None::<Vec<T>>,
            }),
    {
        ElementResolver::new_custom(
            base_element,
            ComponentsQuery { query: MultiQuery { by, options: Some(options), required: false, pacing } },
        )
    }

    /// Create new element resolver that returns at least one component.
    pub fn new_not_empty(base_element: WebElement<'a, SessionHandle<H, G>>, by: By, pacing: P) -> (r: Self)
        ensures
            r@ == (ResolverState {
                base_element,
                query_fn: ComponentsQuery { query: MultiQuery { by, options: None, required: true, pacing } },
                element: None::<Vec<T>>,
            }),
    {
        ElementResolver::new_custom(
            base_element,
            ComponentsQuery { query: MultiQuery { by, options: None, required: true, pacing } },
        )
    }

    /// Create new element resolver that returns at least one component, with extra options.
    pub fn new_not_empty_opts(base_element: WebElement<'a, SessionHandle<H, G>>, by: By, options: ElementQueryOptions, pacing: P) -> (r: Self)
        ensures
            r@ == (ResolverState {
                base_element,
                query_fn: ComponentsQuery { query: MultiQuery { by, options: Some(options), required: true, pacing } },
                element: None::<Vec<T>>,
            }),
    {
        ElementResolver::new_custom(
            base_element,
            ComponentsQuery { query: MultiQuery { by, options: Some(options), required: true, pacing } },
        )
    }
}

} // verus!
