//! Queries for elements.
use crate::command::{By, ByView, Command, CommandView};
use crate::conditions;
use crate::conditions::{Condition, Flag, Probe};
use crate::config::SessionPoller;
use crate::driver::Driver;
use crate::duration::Duration;
use crate::error;
use crate::error::{ErrorInfoView, WebDriverError, WebDriverErrorInner, WebDriverResult};
use crate::found;
use crate::found::Found;
use crate::needle::{IntoNeedle, Needle};
use crate::poller;
use crate::poller::{ElementPoller, ElementPollerNoWait, ElementPollerWithTimeout, Tick};
use crate::session::SessionHandle;
use crate::text;
use crate::text::{cat2, cat3, cat4, decimal_text, join};
use crate::types::{IntoArcStr, IntoTransfer};
use crate::webelement;
use crate::webelement::{find_all_command, WebElement};
use vstd::prelude::*;

verus! {

/// A function that asks something of an element.
pub trait ElementQueryFn<'a, D, T>: Sized {
    /// Asks it.
    fn call(&self, arg: &WebElement<'a, D>) -> WebDriverResult<T>;
}

/// A function that says whether an element is wanted.
pub trait ElementPredicate<'a, D>: ElementQueryFn<'a, D, bool> {

}

impl<'a, D, P: ElementQueryFn<'a, D, bool>> ElementPredicate<'a, D> for P {

}

/// The predicate that any element meets.
#[derive(Debug, Clone, Copy)]
pub struct AnyElement;

impl<'a, D> ElementQueryFn<'a, D, bool> for AnyElement {
    fn call(&self, arg: &WebElement<'a, D>) -> (r: WebDriverResult<bool>)
        ensures
            r == Ok::<bool, WebDriverError>(true),
    {
        Ok(true)
    }
}

/// A filter on elements: a condition of this library, or a predicate of the caller.
#[derive(Debug)]
pub enum Filter<F> {
    Condition(Condition),
    Custom(F),
}

impl<F> Filter<F> {
    /// Whether `r` may say if an element passes the filter.
    pub open spec fn decides<'a, D: Driver>(&self, e: WebElement<'a, D>, r: WebDriverResult<bool>) -> bool where
        F: ElementPredicate<'a, D>,
     {
        match self {
            Filter::Condition(c) => c.decides(e, r),
            Filter::Custom(f) => call_ensures(<F as ElementQueryFn<'a, D, bool>>::call, (f, &e), r),
        }
    }

    /// Says whether an element passes the filter.
    pub fn check<'a, D: Driver>(&self, e: &WebElement<'a, D>) -> (r: WebDriverResult<bool>) where
        F: ElementPredicate<'a, D>,

        ensures
            self.decides(*e, r),
    {
        match self {
            Filter::Condition(c) => c.check(e),
            Filter::Custom(f) => f.call(e),
        }
    }
}

/// Whether `r` may be the elements from `i` on that pass a filter, behind those that did: the
/// elements are asked for one after the other, until there is an error.
pub open spec fn sifts<'a, D: Driver, F: ElementPredicate<'a, D>>(
    filter: Filter<F>,
    elements: Seq<WebElement<'a, D>>,
    i: nat,
    kept: Seq<WebElement<'a, D>>,
    r: WebDriverResult<Vec<WebElement<'a, D>>>,
) -> bool
    decreases elements.len() - i,
{
    if i >= elements.len() {
        r matches Ok(v) && v@ == kept
    } else {
        exists|b: WebDriverResult<bool>| #[trigger]
            filter.decides(elements[i as int], b) && match b {
                Err(e) => r == Err::<Vec<WebElement<'a, D>>, WebDriverError>(e),
                Ok(true) => sifts(filter, elements, i + 1, kept.push(elements[i as int]), r),
                Ok(false) => sifts(filter, elements, i + 1, kept, r),
            }
    }
}

/// Whether `r` may be the elements that pass all filters from `j` on: each filter is applied to
/// what the ones before it left, until nothing is left.
pub open spec fn sifts_all<'a, D: Driver, F: ElementPredicate<'a, D>>(
    filters: Seq<Filter<F>>,
    j: nat,
    elements: Seq<WebElement<'a, D>>,
    r: WebDriverResult<Vec<WebElement<'a, D>>>,
) -> bool
    decreases filters.len() - j,
{
    if j >= filters.len() {
        r matches Ok(v) && v@ == elements
    } else {
        exists|left: WebDriverResult<Vec<WebElement<'a, D>>>| #[trigger]
            sifts(filters[j as int], elements, 0, Seq::empty(), left) && match left {
                Err(e) => r == Err::<Vec<WebElement<'a, D>>, WebDriverError>(e),
                Ok(v) => if v@.len() == 0 {
                    r matches Ok(w) && w@.len() == 0
                } else {
                    sifts_all(filters, j + 1, v@, r)
                },
            }
    }
}

/// The elements that pass a filter.
fn filter_once<'a, D: Driver, F: ElementPredicate<'a, D>>(
    filter: &Filter<F>,
    elements: &Vec<WebElement<'a, D>>,
) -> (r: WebDriverResult<Vec<WebElement<'a, D>>>)
    ensures
        sifts(*filter, elements@, 0, Seq::empty(), r),
{
    let mut kept: Vec<WebElement<'a, D>> = Vec::new();
    let mut i: usize = 0;
    while i < elements.len()
        invariant
            i <= elements.len(),
            forall|q: WebDriverResult<Vec<WebElement<'a, D>>>| #[trigger]
                sifts(*filter, elements@, i as nat, kept@, q) ==> sifts(
                    *filter,
                    elements@,
                    0,
                    Seq::empty(),
                    q,
                ),
        decreases elements.len() - i,
    {
        let b: WebDriverResult<bool> = filter.check(&elements[i]);
        let ghost gb = b;
        let ghost before = kept@;
        let passed: bool = match b {
            Ok(passed) => passed,
            Err(e) => {
                assert(sifts(*filter, elements@, i as nat, before, Err(e)));
                return Err(e);
            },
        };
        if passed {
            kept.push(elements[i].clone());
        }
        let ghost k = i;
        i = i + 1;
        proof {
            assert forall|q: WebDriverResult<Vec<WebElement<'a, D>>>| #[trigger]
                sifts(*filter, elements@, i as nat, kept@, q) implies sifts(
                *filter,
                elements@,
                0,
                Seq::empty(),
                q,
            ) by {
                assert(filter.decides(elements@[k as int], gb));
                assert(sifts(*filter, elements@, k as nat, before, q));
            }
        }
    }
    let r: WebDriverResult<Vec<WebElement<'a, D>>> = Ok(kept);
    assert(sifts(*filter, elements@, i as nat, kept@, r));
    r
}

/// Filter the specified elements using the specified filters.
pub fn filter_elements<'a, D: Driver, F: ElementPredicate<'a, D>>(
    elements: Vec<WebElement<'a, D>>,
    filters: &Vec<Filter<F>>,
) -> (r: WebDriverResult<Vec<WebElement<'a, D>>>)
    ensures
        sifts_all(filters@, 0, elements@, r),
{
    let ghost all = elements@;
    let mut rest: Vec<WebElement<'a, D>> = elements;
    let mut j: usize = 0;
    while j < filters.len()
        invariant
            j <= filters.len(),
            all == elements@,
            forall|q: WebDriverResult<Vec<WebElement<'a, D>>>| #[trigger]
                sifts_all(filters@, j as nat, rest@, q) ==> sifts_all(filters@, 0, all, q),
        decreases filters.len() - j,
    {
        let left: WebDriverResult<Vec<WebElement<'a, D>>> = filter_once(&filters[j], &rest);
        let ghost gleft = left;
        let ghost before = rest@;
        rest = match left {
            Ok(v) => v,
            Err(e) => {
                assert(sifts_all(filters@, j as nat, before, Err(e)));
                return Err(e);
            },
        };
        if rest.len() == 0 {
            let r: WebDriverResult<Vec<WebElement<'a, D>>> = Ok(rest);
            assert(sifts_all(filters@, j as nat, before, r));
            return r;
        }
        let ghost k = j;
        j = j + 1;
        proof {
            assert forall|q: WebDriverResult<Vec<WebElement<'a, D>>>| #[trigger]
                sifts_all(filters@, j as nat, rest@, q) implies sifts_all(filters@, 0, all, q) by {
                assert(sifts(filters@[k as int], before, 0, Seq::empty(), gleft));
                assert(sifts_all(filters@, k as nat, before, q));
            }
        }
    }
    let r: WebDriverResult<Vec<WebElement<'a, D>>> = Ok(rest);
    assert(sifts_all(filters@, j as nat, rest@, r));
    r
}

/// Each element that is left by a filter was there before, and passed the filter.
proof fn lemma_sifted<'a, D: Driver, F: ElementPredicate<'a, D>>(
    filter: Filter<F>,
    elements: Seq<WebElement<'a, D>>,
    i: nat,
    kept: Seq<WebElement<'a, D>>,
    r: WebDriverResult<Vec<WebElement<'a, D>>>,
    e: WebElement<'a, D>,
)
    requires
        sifts(filter, elements, i, kept, r),
        r is Ok,
        r->Ok_0@.contains(e),
    ensures
        kept.contains(e) || (elements.contains(e) && filter.decides(e, Ok(true))),
    decreases elements.len() - i,
{
    if i < elements.len() {
        let x = elements[i as int];
        let b = choose|b: WebDriverResult<bool>| #[trigger]
            filter.decides(x, b) && match b {
                Err(f) => r == Err::<Vec<WebElement<'a, D>>, WebDriverError>(f),
                Ok(true) => sifts(filter, elements, i + 1, kept.push(x), r),
                Ok(false) => sifts(filter, elements, i + 1, kept, r),
            };
        if b == Ok::<bool, WebDriverError>(true) {
            lemma_sifted(filter, elements, i + 1, kept.push(x), r, e);
            if kept.push(x).contains(e) && !kept.contains(e) {
                let k = choose|k: int| 0 <= k < kept.push(x).len() && kept.push(x)[k] == e;
                if k < kept.len() {
                    assert(kept[k] == e);
                }
                assert(e == x);
                assert(elements.contains(e));
            }
        } else {
            assert(b == Ok::<bool, WebDriverError>(false));
            lemma_sifted(filter, elements, i + 1, kept, r, e);
        }
    }
}

/// Each element that is left by the filters was there before, and passed every one of them.
pub proof fn lemma_filtered<'a, D: Driver, F: ElementPredicate<'a, D>>(
    filters: Seq<Filter<F>>,
    j: nat,
    elements: Seq<WebElement<'a, D>>,
    r: WebDriverResult<Vec<WebElement<'a, D>>>,
    e: WebElement<'a, D>,
)
    requires
        sifts_all(filters, j, elements, r),
        r is Ok,
        r->Ok_0@.contains(e),
    ensures
        elements.contains(e),
        forall|k: int| j <= k < filters.len() ==> (#[trigger] filters[k]).decides(e, Ok(true)),
    decreases filters.len() - j,
{
    if j < filters.len() {
        let left = choose|left: WebDriverResult<Vec<WebElement<'a, D>>>| #[trigger]
            sifts(filters[j as int], elements, 0, Seq::empty(), left) && match left {
                Err(f) => r == Err::<Vec<WebElement<'a, D>>, WebDriverError>(f),
                Ok(v) => if v@.len() == 0 {
                    r matches Ok(w) && w@.len() == 0
                } else {
                    sifts_all(filters, j + 1, v@, r)
                },
            };
        assert(left is Ok);
        assert(r->Ok_0@.len() > 0) by {
            let k = choose|k: int| 0 <= k < r->Ok_0@.len() && r->Ok_0@[k] == e;
        }
        lemma_filtered(filters, j + 1, left->Ok_0@, r, e);
        lemma_sifted(filters[j as int], elements, 0, Seq::empty(), left, e);
        assert(!Seq::<WebElement<'a, D>>::empty().contains(e));
        assert forall|k: int| j <= k < filters.len() implies (#[trigger] filters[k]).decides(
            e,
            Ok(true),
        ) by {}
    }
}

/// `str::trim`: the text without the white space at its ends, as Unicode defines it.
#[verifier::external_body]
fn trim(s: &str) -> (r: String)
    ensures
        r@ == text::trimmed(s@),
{
    s.trim().to_owned()
}

/// `str::escape_default`: the text with each character as `char::escape_default` gives it.
#[verifier::external_body]
fn escape(s: &str) -> (r: String)
    ensures
        r@ == text::escaped(s@),
{
    s.escape_default().to_string()
}

/// What elements are called in a message: a description, where there is one, and a noun that goes
/// with their number.
pub open spec fn elements_description(count: Option<nat>, description: Seq<char>) -> Seq<char> {
    let suffix = match count {
        Some(n) => if n == 1 {
            "element"@
        } else {
            "elements"@
        },
        None => "element(s)"@,
    };
    if text::trimmed(description) == Seq::<char>::empty() {
        suffix
    } else {
        "'"@ + text::escaped(description) + "' "@ + suffix
    }
}

/// What elements are called in a message.
pub fn get_elements_description(count: Option<usize>, description: &str) -> (r: String)
    ensures
        r@ == elements_description(
            match count {
                Some(n) => Some(n as nat),
                None => None,
            },
            description@,
        ),
{
    let suffix: &str = match count {
        Some(n) => if n == 1 {
            "element"
        } else {
            "elements"
        },
        None => "element(s)",
    };
    if trim(description).as_str().is_empty() {
        proof {
            assert(text::trimmed(description@) == Seq::<char>::empty());
        }
        suffix.to_owned()
    } else {
        cat4("'", escape(description).as_str(), "' ", suffix)
    }
}

/// A selector, and the filters on what it finds.
#[derive(Debug)]
pub struct ElementSelector<F> {
    /// The selector.
    pub by: By,
    /// The filters.
    pub filters: Vec<Filter<F>>,
}

impl<F> ElementSelector<F> {
    /// Create a new ElementSelector.
    pub fn new(by: By) -> (r: Self)
        ensures
            r.by == by,
            r.filters@ == Seq::<Filter<F>>::empty(),
    {
        ElementSelector { by, filters: Vec::new() }
    }

    /// Add the specified filter to the list of filters for this selector.
    pub fn add_filter(&mut self, f: Filter<F>)
        ensures
            final(self).by == old(self).by,
            final(self).filters@ == old(self).filters@.push(f),
    {
        self.filters.push(f);
    }
}

/// What the selectors are, in words.
pub open spec fn selectors_shown<F>(selectors: Seq<ElementSelector<F>>) -> Seq<Seq<char>> {
    Seq::new(selectors.len(), |i: int| selectors[i].by@.shown())
}

/// The selectors in a message.
pub open spec fn selector_summary<F>(selectors: Seq<ElementSelector<F>>) -> Seq<char> {
    "["@ + text::joined(selectors_shown(selectors), ","@) + "]"@
}

/// The message that no element was found.
pub open spec fn not_found_message<F>(
    selectors: Seq<ElementSelector<F>>,
    description: Seq<char>,
) -> Seq<char> {
    "no such element: "@ + elements_description(None, description)
        + " not found using selectors: "@ + selector_summary(selectors)
}

/// The message that too many elements were found.
pub open spec fn too_many_message<F>(
    selectors: Seq<ElementSelector<F>>,
    description: Seq<char>,
    count: nat,
) -> Seq<char> {
    "too many elements received; found "@ + text::decimal(count) + " "@ + elements_description(
        Some(count),
        description,
    ) + (" using selectors: "@ + selector_summary(selectors))
}

/// Whether an error is that there is no such element, with a message.
pub open spec fn no_element(e: WebDriverError, message: Seq<char>) -> bool {
    e@ matches WebDriverErrorInner::NoSuchElement(info) && info@ == (ErrorInfoView {
        status: 400,
        error: message,
        value: error::message_only(message),
    })
}

/// The selectors in a message.
fn get_selector_summary<F>(selectors: &Vec<ElementSelector<F>>) -> (r: String)
    ensures
        r@ == selector_summary(selectors@),
{
    let mut shown: Vec<String> = Vec::new();
    let mut i: usize = 0;
    while i < selectors.len()
        invariant
            i <= selectors.len(),
            shown.len() == i,
            forall|j: int| 0 <= j < i ==> (#[trigger] shown@[j])@ == selectors@[j].by@.shown(),
        decreases selectors.len() - i,
    {
        shown.push(selectors[i].by.to_text());
        i = i + 1;
    }
    assert(text::texts(shown@) == selectors_shown(selectors@));
    cat3("[", join(&shown, ",").as_str(), "]")
}

/// The error that no element was found.
fn no_such_element<F>(selectors: &Vec<ElementSelector<F>>, description: &str) -> (r: WebDriverError)
    ensures
        no_element(r, not_found_message(selectors@, description@)),
{
    error::no_such_element(
        cat4(
            "no such element: ",
            get_elements_description(None, description).as_str(),
            " not found using selectors: ",
            get_selector_summary(selectors).as_str(),
        ),
    )
}

/// Where elements are looked for.
#[derive(Debug)]
pub enum ElementQuerySource<'a, D> {
    /// On the page.
    Driver(&'a D),
    /// Below an element.
    Element(WebElement<'a, D>),
}

impl<'a, D> ElementQuerySource<'a, D> {
    /// The session.
    pub open spec fn session(&self) -> D {
        match self {
            ElementQuerySource::Driver(d) => **d,
            ElementQuerySource::Element(e) => *e.session,
        }
    }

    /// The command that looks for elements.
    pub open spec fn command(&self, by: ByView) -> CommandView {
        match self {
            ElementQuerySource::Driver(_) => CommandView::FindElements(by.selector()),
            ElementQuerySource::Element(e) => CommandView::FindElementsFromElement(
                e.element_id@,
                by.selector(),
            ),
        }
    }
}

/// Options for wait characteristics for an element query.
#[derive(Debug, Clone, Copy)]
pub enum ElementQueryWaitOptions {
    /// Use the default poller.
    WaitDefault,
    /// Use a poller with the specified timeout and interval.
    Wait { timeout: Duration, interval: Duration },
    /// Do not wait. This uses the `ElementPollerNoWait` poller.
    NoWait,
}

impl Default for ElementQueryWaitOptions {
    fn default() -> (r: Self)
        ensures
            r is WaitDefault,
    {
        ElementQueryWaitOptions::WaitDefault
    }
}

/// All options applicable to an ElementQuery.
///
/// These are stored in a separate struct so that they can be constructed
/// separately and applied to an ElementQuery in bulk if required.
#[derive(Debug)]
pub struct ElementQueryOptions {
    ignore_errors: Option<bool>,
    description: Option<String>,
    wait: Option<ElementQueryWaitOptions>,
}

/// What options stand for.
pub struct OptionsView {
    pub ignore_errors: Option<bool>,
    pub description: Option<Seq<char>>,
    pub wait: Option<ElementQueryWaitOptions>,
}

/// No options.
pub open spec fn no_options() -> OptionsView {
    OptionsView { ignore_errors: None, description: None, wait: None }
}

impl Default for ElementQueryOptions {
    fn default() -> (r: Self)
        ensures
            r@ == no_options(),
    {
        ElementQueryOptions { ignore_errors: None, description: None, wait: None }
    }
}

impl Clone for ElementQueryOptions {
    fn clone(&self) -> (r: Self)
        ensures
            r == *self,
            r@ == self@,
    {
        let description: Option<String> = match &self.description {
            Some(d) => Some(d.clone()),
            None => None,
        };
        ElementQueryOptions { ignore_errors: self.ignore_errors, description, wait: self.wait }
    }
}

impl ElementQueryOptions {
    /// What these options stand for.
    pub closed spec fn view(&self) -> OptionsView {
        OptionsView {
            ignore_errors: self.ignore_errors,
            description: text::opt_text(self.description),
            wait: self.wait,
        }
    }

    /// Set whether to ignore errors when querying elements.
    pub fn ignore_errors(self, ignore_errors: bool) -> (r: Self)
        ensures
            r@ == (OptionsView { ignore_errors: Some(ignore_errors), ..self@ }),
    {
        ElementQueryOptions { ignore_errors: Some(ignore_errors), ..self }
    }

    /// Set whether to ignore errors when querying elements.
    pub fn set_ignore_errors(self, ignore_errors: Option<bool>) -> (r: Self)
        ensures
            r@ == (OptionsView { ignore_errors, ..self@ }),
    {
        ElementQueryOptions { ignore_errors, ..self }
    }

    /// Set the description to be used in error messages for this element query.
    pub fn description<S: IntoArcStr>(self, description: S) -> (r: Self)
        ensures
            r@ == (OptionsView { description: Some(description.text()), ..self@ }),
    {
        ElementQueryOptions { description: Some(IntoTransfer::into(description)), ..self }
    }

    /// Set the description to be used in error messages for this element query.
    pub fn set_description<T: IntoArcStr>(self, description: Option<T>) -> (r: Self)
        ensures
            r@ == (OptionsView {
                description: match description {
                    Some(d) => Some(d.text()),
                    None => None,
                },
                ..self@
            }),
    {
        let description: Option<String> = match description {
            Some(d) => Some(IntoTransfer::into(d)),
            None => None,
        };
        ElementQueryOptions { description, ..self }
    }

    /// Set the wait options for this element query.
    pub fn wait(self, wait_option: ElementQueryWaitOptions) -> (r: Self)
        ensures
            r@ == (OptionsView { wait: Some(wait_option), ..self@ }),
    {
        ElementQueryOptions { wait: Some(wait_option), ..self }
    }

    /// Set the wait options for this element query.
    pub fn set_wait(self, wait_option: Option<ElementQueryWaitOptions>) -> (r: Self)
        ensures
            r@ == (OptionsView { wait: wait_option, ..self@ }),
    {
        ElementQueryOptions { wait: wait_option, ..self }
    }

    /// Whether errors are ignored, which they are by default.
    fn ignores_errors(&self) -> (r: bool)
        ensures
            r == (self@.ignore_errors != Some(false)),
    {
        match self.ignore_errors {
            Some(b) => b,
            None => true,
        }
    }

    /// The description, which is empty where there is none.
    fn description_text(&self) -> (r: &str)
        ensures
            r@ == webelement::or_empty(self@.description),
    {
        match &self.description {
            Some(d) => d.as_str(),
            None => {
                proof {
                    reveal_strlit("");
                    assert(""@ == Seq::<char>::empty());
                }
                ""
            },
        }
    }
}

/// Says after each attempt whether there is to be another one.
pub trait Attempts: Sized {
    /// How many more attempts there can be at most.
    spec fn left(&self) -> nat;

    /// Whether asking `before` can leave `after`, with the answer `again`.
    spec fn steps(before: Self, after: Self, again: bool) -> bool;

    /// Whether there is to be another attempt; waits until it is due.
    fn next_attempt(&mut self) -> (r: bool)
        ensures
            r ==> final(self).left() < old(self).left(),
            Self::steps(*old(self), *final(self), r),
    ;
}

/// One attempt only.
#[derive(Debug, Clone, Copy)]
pub struct OneAttempt;

impl Attempts for OneAttempt {
    open spec fn left(&self) -> nat {
        0
    }

    open spec fn steps(before: Self, after: Self, again: bool) -> bool {
        !again
    }

    fn next_attempt(&mut self) -> (r: bool) {
        false
    }
}

/// A number of attempts, with no wait between them.
#[derive(Debug, Clone, Copy)]
pub struct MoreAttempts {
    pub more: u32,
}

impl Attempts for MoreAttempts {
    open spec fn left(&self) -> nat {
        self.more as nat
    }

    open spec fn steps(before: Self, after: Self, again: bool) -> bool {
        again == (before.more > 0) && after.more == if again {
            before.more - 1
        } else {
            0
        }
    }

    fn next_attempt(&mut self) -> (r: bool) {
        if self.more > 0 {
            self.more = self.more - 1;
            true
        } else {
            false
        }
    }
}

/// A clock that was started with a query.
pub trait Clock: Sized {
    /// How long the query has gone on.
    fn elapsed(&self) -> Duration;

    /// Waits that long.
    fn wait(&self, span: Duration);
}

/// Attempts as a poller has them, by a clock.
#[derive(Debug)]
pub struct PolledAttempts<K> {
    pub clock: K,
    pub poller: SessionPoller,
}

/// Whether `again` says that there is to be another attempt, once the clock has been looked at,
/// and waited for until the attempt is due.
pub open spec fn ticks<K: Clock>(
    clock: K,
    before: ElementPollerWithTimeout,
    after: ElementPollerWithTimeout,
    again: bool,
) -> bool {
    exists|elapsed: Duration, later: Duration, tick: Tick|
        {
            &&& #[trigger] call_ensures(K::elapsed, (&clock,), elapsed)
            &&& #[trigger] call_ensures(K::elapsed, (&clock,), later)
            &&& #[trigger] poller::ticks_to(before, after, elapsed, later, tick)
            &&& again == !(tick is Stop)
            &&& tick matches Tick::Wait(span) ==> call_ensures(K::wait, (&clock, span), ())
        }
}

impl<K: Clock> Attempts for PolledAttempts<K> {
    open spec fn left(&self) -> nat {
        match self.poller {
            SessionPoller::WithTimeout(p) => (u32::MAX - p.tries()) as nat,
            SessionPoller::NoWait(_) => 0,
        }
    }

    open spec fn steps(before: Self, after: Self, again: bool) -> bool {
        &&& after.clock == before.clock
        &&& match before.poller {
            SessionPoller::NoWait(_) => !again && after.poller == before.poller,
            SessionPoller::WithTimeout(p) => if p.tries() < u32::MAX {
                after.poller matches SessionPoller::WithTimeout(q) && ticks(
                    before.clock,
                    p,
                    q,
                    again,
                )
            } else {
                !again && after.poller == before.poller
            },
        }
    }

    fn next_attempt(&mut self) -> (r: bool) {
        match &self.poller {
            SessionPoller::NoWait(_) => false,
            SessionPoller::WithTimeout(p) => {
                let mut p: ElementPollerWithTimeout = p.clone();
                let ghost before = p;
                if !p.can_tick() {
                    return false;
                }
                let elapsed: Duration = self.clock.elapsed();
                let later: Duration = self.clock.elapsed();
                let tick: Tick = p.tick(elapsed, later);
                let ghost after = p;
                assert(poller::ticks_to(before, after, elapsed, later, tick));
                self.poller = SessionPoller::WithTimeout(p);
                let again: bool = match tick {
                    Tick::Stop => false,
                    Tick::Again => true,
                    Tick::Wait(span) => {
                        self.clock.wait(span);
                        true
                    },
                };
                assert(ticks(self.clock, before, after, again));
                again
            },
        }
    }
}

/// What a look at a page comes to: what it found early, which is the result of the wait, or what it
/// found when it had looked everywhere.
#[derive(Debug)]
pub enum Look<T> {
    Early(Vec<T>),
    Through(Vec<T>),
}

/// A page that can be looked at again and again, and may be another one every time.
pub trait Looks<T>: Sized {
    /// Whether a look can make `after` of the page `before`, and find `r`.
    spec fn looked(before: Self, after: Self, r: WebDriverResult<Look<T>>) -> bool;

    /// Looks at the page.
    fn look(&mut self) -> (r: WebDriverResult<Look<T>>)
        ensures
            Self::looked(*old(self), *final(self), r),
    ;
}

/// Whether `r` may be what a wait comes to. In the end the page has become `page_last`, and the pace
/// `last`. Every round begins with a look at the page as the round before has left it.
pub open spec fn rounds<T, L: Looks<T>, A: Attempts>(
    page: L,
    page_last: L,
    pace: A,
    last: A,
    stop_on_miss: bool,
    r: WebDriverResult<Vec<T>>,
) -> bool
    decreases pace.left(), 1int,
{
    exists|seen: L, look: WebDriverResult<Look<T>>| #[trigger]
        L::looked(page, seen, look) && ends_or_goes_on(
            seen,
            page_last,
            pace,
            last,
            stop_on_miss,
            look,
            r,
        )
}

/// Whether `r` may be what a wait comes to after a look that left the page as it was `seen`. The
/// wait is over where the look failed or ended early, and where what is asked for was found. Else
/// the pace is asked: where there is to be no other look, what this one found is the result, and
/// where there is, the wait goes on.
pub open spec fn ends_or_goes_on<T, L: Looks<T>, A: Attempts>(
    seen: L,
    page_last: L,
    pace: A,
    last: A,
    stop_on_miss: bool,
    look: WebDriverResult<Look<T>>,
    r: WebDriverResult<Vec<T>>,
) -> bool
    decreases pace.left(), 0int,
{
    match look {
        Err(e) => page_last == seen && last == pace && r == Err::<Vec<T>, WebDriverError>(e),
        Ok(Look::Early(v)) => page_last == seen && last == pace && r == Ok::<Vec<T>, WebDriverError>(v),
        Ok(Look::Through(f)) => if stop_on_miss == (f@.len() == 0) {
            page_last == seen && last == pace && r == Ok::<Vec<T>, WebDriverError>(f)
        } else {
            exists|after: A, again: bool| #[trigger]
                A::steps(pace, after, again) && if again {
                    after.left() < pace.left() && rounds(
                        seen,
                        page_last,
                        after,
                        last,
                        stop_on_miss,
                        r,
                    )
                } else {
                    page_last == seen && last == after && r == Ok::<Vec<T>, WebDriverError>(f)
                }
        },
    }
}

/// Looks at a page until what is asked for is found, or is gone where that is asked for, or the pace
/// says that there is to be no other look.
pub fn poll_until<T, L: Looks<T>, A: Attempts>(page: &mut L, pace: &mut A, stop_on_miss: bool) -> (r:
    WebDriverResult<Vec<T>>)
    ensures
        rounds(*old(page), *final(page), *old(pace), *final(pace), stop_on_miss, r),
{
    let ghost page0 = *page;
    let ghost pace0 = *pace;
    loop
        invariant
            page0 == *old(page),
            pace0 == *old(pace),
            forall|l: L, a: A, q: WebDriverResult<Vec<T>>| #[trigger]
                rounds(*page, l, *pace, a, stop_on_miss, q) ==> rounds(
                    page0,
                    l,
                    pace0,
                    a,
                    stop_on_miss,
                    q,
                ),
        decreases pace.left(),
    {
        let ghost before = *page;
        let ghost paced = *pace;
        let look: WebDriverResult<Look<T>> = page.look();
        let ghost seen = *page;
        let ghost glook = look;
        assert(L::looked(before, seen, glook));
        let found: Vec<T> = match look {
            Err(e) => {
                assert(rounds(before, seen, paced, paced, stop_on_miss, Err(e)));
                return Err(e);
            },
            Ok(Look::Early(v)) => {
                assert(rounds(before, seen, paced, paced, stop_on_miss, Ok(v)));
                return Ok(v);
            },
            Ok(Look::Through(f)) => f,
        };
        if stop_on_miss == (found.len() == 0) {
            assert(rounds(before, seen, paced, paced, stop_on_miss, Ok(found)));
            return Ok(found);
        }
        let again: bool = pace.next_attempt();
        let ghost after = *pace;
        assert(A::steps(paced, after, again));
        if !again {
            // On timeout, return what is there.
            assert(rounds(before, seen, paced, after, stop_on_miss, Ok(found)));
            return Ok(found);
        }
        proof {
            assert forall|l: L, a: A, q: WebDriverResult<Vec<T>>| #[trigger]
                rounds(seen, l, after, a, stop_on_miss, q) implies rounds(
                page0,
                l,
                pace0,
                a,
                stop_on_miss,
                q,
            ) by {
                assert(ends_or_goes_on(seen, l, paced, a, stop_on_miss, glook, q));
                assert(rounds(before, l, paced, a, stop_on_miss, q));
            }
        }
    }
}

/// How one attempt ends: early, with the elements of one selector, or with all selectors tried,
/// and the elements that were found so far.
pub enum AttemptEnd<'a, D> {
    Early(Seq<WebElement<'a, D>>),
    Through(Seq<WebElement<'a, D>>),
}

/// Whether `r` may be the elements that a selector finds and its filters leave. That there is no
/// such element is no error here.
pub open spec fn selects<'a, D: Driver, F: ElementPredicate<'a, D>>(
    source: ElementQuerySource<'a, D>,
    selector: ElementSelector<F>,
    r: WebDriverResult<Vec<WebElement<'a, D>>>,
) -> bool {
    exists|x: WebDriverResult<Vec<WebElement<'a, D>>>| #[trigger]
        webelement::finds_all(source.session(), source.command(selector.by@), x) && match x {
            Err(e) => if e@ is NoSuchElement {
                r matches Ok(v) && v@.len() == 0
            } else {
                r == Err::<Vec<WebElement<'a, D>>, WebDriverError>(e)
            },
            Ok(v) => if v@.len() == 0 {
                r matches Ok(w) && w@.len() == 0
            } else {
                sifts_all(selector.filters@, 0, v@, r)
            },
        }
}

/// Whether `end` may be how an attempt ends with the selectors from `i` on. It ends early with the
/// elements of the first selector that finds what is asked for.
pub open spec fn attempts<'a, D: Driver, F: ElementPredicate<'a, D>>(
    source: ElementQuerySource<'a, D>,
    selectors: Seq<ElementSelector<F>>,
    i: nat,
    found: Seq<WebElement<'a, D>>,
    short_circuit: bool,
    stop_on_miss: bool,
    end: WebDriverResult<AttemptEnd<'a, D>>,
) -> bool
    decreases selectors.len() - i,
{
    if i >= selectors.len() {
        end == Ok::<AttemptEnd<'a, D>, WebDriverError>(AttemptEnd::Through(found))
    } else {
        exists|x: WebDriverResult<Vec<WebElement<'a, D>>>| #[trigger]
            selects(source, selectors[i as int], x) && match x {
                Err(e) => end == Err::<AttemptEnd<'a, D>, WebDriverError>(e),
                Ok(v) => if short_circuit && stop_on_miss == (v@.len() == 0) {
                    end == Ok::<AttemptEnd<'a, D>, WebDriverError>(AttemptEnd::Early(v@))
                } else {
                    attempts(
                        source,
                        selectors,
                        i + 1,
                        found::with_elements(found, v@, v@.len()),
                        short_circuit,
                        stop_on_miss,
                        end,
                    )
                },
            }
    }
}

/// No two of the elements that were found before an attempt went through all selectors have the
/// same id, and so it is after it.
proof fn lemma_attempt_different<'a, D: Driver, F: ElementPredicate<'a, D>>(
    source: ElementQuerySource<'a, D>,
    selectors: Seq<ElementSelector<F>>,
    i: nat,
    found: Seq<WebElement<'a, D>>,
    short_circuit: bool,
    stop_on_miss: bool,
    after: Seq<WebElement<'a, D>>,
)
    requires
        found::different(found),
        attempts(
            source,
            selectors,
            i,
            found,
            short_circuit,
            stop_on_miss,
            Ok(AttemptEnd::Through(after)),
        ),
    ensures
        found::different(after),
    decreases selectors.len() - i,
{
    if i < selectors.len() {
        let end = Ok::<AttemptEnd<'a, D>, WebDriverError>(AttemptEnd::Through(after));
        let x = choose|x: WebDriverResult<Vec<WebElement<'a, D>>>| #[trigger]
            selects(source, selectors[i as int], x) && match x {
                Err(e) => end == Err::<AttemptEnd<'a, D>, WebDriverError>(e),
                Ok(v) => if short_circuit && stop_on_miss == (v@.len() == 0) {
                    end == Ok::<AttemptEnd<'a, D>, WebDriverError>(AttemptEnd::Early(v@))
                } else {
                    attempts(
                        source,
                        selectors,
                        i + 1,
                        found::with_elements(found, v@, v@.len()),
                        short_circuit,
                        stop_on_miss,
                        end,
                    )
                },
            };
        let v = x->Ok_0@;
        found::lemma_with_elements(found, v, v.len());
        lemma_attempt_different(
            source,
            selectors,
            i + 1,
            found::with_elements(found, v, v.len()),
            short_circuit,
            stop_on_miss,
            after,
        );
    } else {
        assert(after == found);
    }
}

/// Without a short circuit no attempt ends early.
proof fn lemma_never_early<'a, D: Driver, F: ElementPredicate<'a, D>>(
    source: ElementQuerySource<'a, D>,
    selectors: Seq<ElementSelector<F>>,
    i: nat,
    found: Seq<WebElement<'a, D>>,
    stop_on_miss: bool,
    end: WebDriverResult<AttemptEnd<'a, D>>,
)
    requires
        attempts(source, selectors, i, found, false, stop_on_miss, end),
    ensures
        !(end matches Ok(AttemptEnd::Early(_))),
    decreases selectors.len() - i,
{
    if i < selectors.len() {
        let x = choose|x: WebDriverResult<Vec<WebElement<'a, D>>>| #[trigger]
            selects(source, selectors[i as int], x) && match x {
                Err(e) => end == Err::<AttemptEnd<'a, D>, WebDriverError>(e),
                Ok(v) => attempts(
                    source,
                    selectors,
                    i + 1,
                    found::with_elements(found, v@, v@.len()),
                    false,
                    stop_on_miss,
                    end,
                ),
            };
        if x is Ok {
            lemma_never_early(
                source,
                selectors,
                i + 1,
                found::with_elements(found, x->Ok_0@, x->Ok_0@.len()),
                stop_on_miss,
                end,
            );
        }
    }
}

/// An attempt that ends early ends with the elements that one selector found, which are none only
/// where a miss was asked for.
pub proof fn lemma_early_end<'a, D: Driver, F: ElementPredicate<'a, D>>(
    source: ElementQuerySource<'a, D>,
    selectors: Seq<ElementSelector<F>>,
    i: nat,
    found: Seq<WebElement<'a, D>>,
    short_circuit: bool,
    stop_on_miss: bool,
    v: Seq<WebElement<'a, D>>,
)
    requires
        attempts(
            source,
            selectors,
            i,
            found,
            short_circuit,
            stop_on_miss,
            Ok(AttemptEnd::Early(v)),
        ),
    ensures
        short_circuit,
        stop_on_miss == (v.len() == 0),
        exists|k: int, w: Vec<WebElement<'a, D>>|
            #![trigger selectors[k], w@]
            i <= k < selectors.len() && w@ == v && selects(source, selectors[k], Ok(w)),
    decreases selectors.len() - i,
{
    if i < selectors.len() {
        let end = Ok::<AttemptEnd<'a, D>, WebDriverError>(AttemptEnd::Early(v));
        let x = choose|x: WebDriverResult<Vec<WebElement<'a, D>>>| #[trigger]
            selects(source, selectors[i as int], x) && match x {
                Err(e) => end == Err::<AttemptEnd<'a, D>, WebDriverError>(e),
                Ok(y) => if short_circuit && stop_on_miss == (y@.len() == 0) {
                    end == Ok::<AttemptEnd<'a, D>, WebDriverError>(AttemptEnd::Early(y@))
                } else {
                    attempts(
                        source,
                        selectors,
                        i + 1,
                        found::with_elements(found, y@, y@.len()),
                        short_circuit,
                        stop_on_miss,
                        end,
                    )
                },
            };
        let y = x->Ok_0;
        if short_circuit && stop_on_miss == (y@.len() == 0) {
            assert(y@ == v);
        } else {
            lemma_early_end(
                source,
                selectors,
                i + 1,
                found::with_elements(found, y@, y@.len()),
                short_circuit,
                stop_on_miss,
                v,
            );
        }
    }
}

/// Says how a query is paced by a poller.
pub trait Pacing: Sized {
    /// What says after each attempt whether there is to be another one.
    type Pace: Attempts;

    /// The pace for a poller.
    fn start(&self, poller: &SessionPoller) -> Self::Pace;
}

/// One attempt only, whatever the poller.
#[derive(Debug, Clone, Copy)]
pub struct OnlyOnce;

impl Pacing for OnlyOnce {
    type Pace = OneAttempt;

    fn start(&self, poller: &SessionPoller) -> (r: OneAttempt) {
        OneAttempt
    }
}

/// What starts clocks.
pub trait Clocks: Sized {
    /// The clocks that it starts.
    type Clock: Clock;

    /// A clock that starts now.
    fn start(&self) -> Self::Clock;
}

/// Attempts as the poller has them, by a clock that starts with them.
#[derive(Debug, Clone, Copy)]
pub struct Polled<C> {
    pub clocks: C,
}

impl<C: Clocks> Pacing for Polled<C> {
    type Pace = PolledAttempts<C::Clock>;

    fn start(&self, poller: &SessionPoller) -> (r: PolledAttempts<C::Clock>)
        ensures
            call_ensures(C::start, (&self.clocks,), r.clock),
            r.poller.starts(*poller),
    {
        PolledAttempts { clock: self.clocks.start(), poller: poller.start() }
    }
}

/// High-level interface for performing powerful element queries.
#[derive(Debug)]
pub struct ElementQuery<'a, D, F> {
    source: ElementQuerySource<'a, D>,
    poller: SessionPoller,
    selectors: Vec<ElementSelector<F>>,
    options: ElementQueryOptions,
}

/// What a query stands for.
pub struct QueryView<'a, D, F> {
    pub source: ElementQuerySource<'a, D>,
    pub poller: SessionPoller,
    pub selectors: Seq<ElementSelector<F>>,
    pub options: OptionsView,
}

/// Whether a poller is the one with a timeout and an interval.
pub open spec fn polls_up_to(poller: SessionPoller, timeout: Duration, interval: Duration) -> bool {
    poller matches SessionPoller::WithTimeout(p) && p.timeout() == timeout && p.interval() == interval
        && p.tries() == 0
}

/// Whether a query is another one with other options, which also say how to wait.
pub open spec fn has_options<'a, D, F>(
    after: ElementQuery<'a, D, F>,
    before: ElementQuery<'a, D, F>,
    options: OptionsView,
) -> bool {
    &&& after@.source == before@.source
    &&& after@.selectors == before@.selectors
    &&& after@.options == options
    &&& match options.wait {
        Some(ElementQueryWaitOptions::Wait { timeout, interval }) => polls_up_to(
            after@.poller,
            timeout,
            interval,
        ),
        Some(ElementQueryWaitOptions::NoWait) => after@.poller is NoWait,
        _ => after@.poller == before@.poller,
    }
}

/// Selectors with one more filter on the last of them.
pub open spec fn is_filtered<F>(
    after: Seq<ElementSelector<F>>,
    before: Seq<ElementSelector<F>>,
    filter: Filter<F>,
) -> bool {
    if before.len() == 0 {
        after == before
    } else {
        &&& after.len() == before.len()
        &&& after.drop_last() == before.drop_last()
        &&& after.last().by == before.last().by
        &&& after.last().filters@ == before.last().filters@.push(filter)
    }
}

impl<'a, D, F> ElementQuery<'a, D, F> {
    /// What this query stands for.
    pub closed spec fn view(&self) -> QueryView<'a, D, F> {
        QueryView {
            source: self.source,
            poller: self.poller,
            selectors: self.selectors@,
            options: self.options@,
        }
    }

    /// The description, which is empty where there is none.
    pub open spec fn described(&self) -> Seq<char> {
        webelement::or_empty(self@.options.description)
    }

    /// Whether this is a query without filters and options.
    pub open spec fn is_new(
        &self,
        source: ElementQuerySource<'a, D>,
        by: By,
        poller: SessionPoller,
    ) -> bool {
        &&& self@.source == source
        &&& self@.poller == poller
        &&& self@.selectors.len() == 1
        &&& self@.selectors[0].by == by
        &&& self@.selectors[0].filters@ == Seq::<Filter<F>>::empty()
        &&& self@.options == no_options()
    }

    /// Create a new ElementQuery.
    pub fn new(source: ElementQuerySource<'a, D>, by: By, poller: SessionPoller) -> (r: Self)
        ensures
            r.is_new(source, by, poller),
    {
        let mut selectors: Vec<ElementSelector<F>> = Vec::new();
        selectors.push(ElementSelector::new(by));
        ElementQuery { source, poller, selectors, options: ElementQueryOptions::default() }
    }

    /// Set options for this ElementQuery.
    pub fn options(self, options: ElementQueryOptions) -> (r: Self)
        ensures
            has_options(r, self, options@),
    {
        let wait: Option<ElementQueryWaitOptions> = options.wait;
        let r: Self = ElementQuery { options, ..self };
        // Apply wait options.
        match wait {
            Some(ElementQueryWaitOptions::Wait { timeout, interval }) => r.wait(timeout, interval),
            Some(ElementQueryWaitOptions::NoWait) => r.nowait(),
            _ => r,
        }
    }

    /// Provide a name that will be included in the error message if the query was not successful.
    pub fn desc(self, description: &str) -> (r: Self)
        ensures
            r@ == (QueryView {
                options: OptionsView { description: Some(description@), ..self@.options },
                ..self@
            }),
    {
        let options: ElementQueryOptions = self.options.description(description);
        ElementQuery { options, ..self }
    }

    /// By default, a query will ignore any errors that occur while polling for the desired
    /// element(s). However, this behaviour can be modified so that the query will return early if
    /// an error is returned from thirtyfour.
    pub fn ignore_errors(self, ignore: bool) -> (r: Self)
        ensures
            r@ == (QueryView {
                options: OptionsView { ignore_errors: Some(ignore), ..self@.options },
                ..self@
            }),
    {
        let options: ElementQueryOptions = self.options.ignore_errors(ignore);
        ElementQuery { options, ..self }
    }

    /// Use the specified ElementPoller for this ElementQuery.
    pub fn with_poller(self, poller: SessionPoller) -> (r: Self)
        ensures
            r@ == (QueryView { poller, ..self@ }),
    {
        ElementQuery { poller, ..self }
    }

    /// Force this ElementQuery to wait for the specified timeout, polling once after each
    /// interval.
    pub fn wait(self, timeout: Duration, interval: Duration) -> (r: Self)
        ensures
            polls_up_to(r@.poller, timeout, interval),
            r@ == (QueryView { poller: r@.poller, ..self@ }),
    {
        self.with_poller(
            SessionPoller::WithTimeout(ElementPollerWithTimeout::new(timeout, interval)),
        )
    }

    /// Force this ElementQuery to not wait for the specified condition(s).
    pub fn nowait(self) -> (r: Self)
        ensures
            r@.poller is NoWait,
            r@ == (QueryView { poller: r@.poller, ..self@ }),
    {
        self.with_poller(SessionPoller::NoWait(ElementPollerNoWait))
    }

    /// The poller of this query.
    pub fn poller(&self) -> (r: &SessionPoller)
        ensures
            *r == self@.poller,
    {
        &self.poller
    }

    /// Add a new selector to this ElementQuery. All conditions specified after
    /// this selector (up until the next `or()` method) will apply to this
    /// selector.
    pub fn or(self, by: By) -> (r: Self)
        ensures
            r@ == (QueryView { selectors: r@.selectors, ..self@ }),
            r@.selectors.len() == self@.selectors.len() + 1,
            r@.selectors.drop_last() == self@.selectors,
            r@.selectors.last().by == by,
            r@.selectors.last().filters@ == Seq::<Filter<F>>::empty(),
    {
        let ghost before = self@.selectors;
        let mut selectors: Vec<ElementSelector<F>> = self.selectors;
        selectors.push(ElementSelector::new(by));
        assert(selectors@.drop_last() == before);
        ElementQuery { selectors, ..self }
    }

    /// Add a filter to the last selector.
    fn add_filter(self, filter: Filter<F>) -> (r: Self)
        ensures
            r@ == (QueryView { selectors: r@.selectors, ..self@ }),
            is_filtered(r@.selectors, self@.selectors, filter),
    {
        let ghost before = self@.selectors;
        let mut selectors: Vec<ElementSelector<F>> = self.selectors;
        match selectors.pop() {
            Some(last) => {
                let mut last: ElementSelector<F> = last;
                last.add_filter(filter);
                selectors.push(last);
                assert(selectors@.drop_last() == before.drop_last());
            },
            None => {},
        }
        ElementQuery { selectors, ..self }
    }

    /// Add the specified filter to the last selector.
    pub fn with_filter(self, f: F) -> (r: Self)
        ensures
            r@ == (QueryView { selectors: r@.selectors, ..self@ }),
            is_filtered(r@.selectors, self@.selectors, Filter::Custom(f)),
    {
        self.add_filter(Filter::Custom(f))
    }

    /// Only match elements that are enabled.
    pub fn and_enabled(self) -> (r: Self)
        ensures
            r@ == (QueryView { selectors: r@.selectors, ..self@ }),
            exists|c: Condition| #[trigger]
                is_filtered(r@.selectors, self@.selectors, Filter::Condition(c)) && c == (Condition {
                    probe: Probe::Flag(Flag::Enabled),
                    wanted: true,
                    ignore_errors: self@.options.ignore_errors != Some(false),
                }),
    {
        let c: Condition = conditions::element_is_enabled(self.options.ignores_errors());
        self.add_filter(Filter::Condition(c))
    }

    /// Only match elements that are not enabled.
    pub fn and_not_enabled(self) -> (r: Self)
        ensures
            r@ == (QueryView { selectors: r@.selectors, ..self@ }),
            exists|c: Condition| #[trigger]
                is_filtered(r@.selectors, self@.selectors, Filter::Condition(c)) && c == (Condition {
                    probe: Probe::Flag(Flag::Enabled),
                    wanted: false,
                    ignore_errors: self@.options.ignore_errors != Some(false),
                }),
    {
        let c: Condition = conditions::element_is_not_enabled(self.options.ignores_errors());
        self.add_filter(Filter::Condition(c))
    }

    /// Only match elements that are selected.
    pub fn and_selected(self) -> (r: Self)
        ensures
            r@ == (QueryView { selectors: r@.selectors, ..self@ }),
            exists|c: Condition| #[trigger]
                is_filtered(r@.selectors, self@.selectors, Filter::Condition(c)) && c == (Condition {
                    probe: Probe::Flag(Flag::Selected),
                    wanted: true,
                    ignore_errors: self@.options.ignore_errors != Some(false),
                }),
    {
        let c: Condition = conditions::element_is_selected(self.options.ignores_errors());
        self.add_filter(Filter::Condition(c))
    }

    /// Only match elements that are not selected.
    pub fn and_not_selected(self) -> (r: Self)
        ensures
            r@ == (QueryView { selectors: r@.selectors, ..self@ }),
            exists|c: Condition| #[trigger]
                is_filtered(r@.selectors, self@.selectors, Filter::Condition(c)) && c == (Condition {
                    probe: Probe::Flag(Flag::Selected),
                    wanted: false,
                    ignore_errors: self@.options.ignore_errors != Some(false),
                }),
    {
        let c: Condition = conditions::element_is_not_selected(self.options.ignores_errors());
        self.add_filter(Filter::Condition(c))
    }

    /// Only match elements that are displayed.
    pub fn and_displayed(self) -> (r: Self)
        ensures
            r@ == (QueryView { selectors: r@.selectors, ..self@ }),
            exists|c: Condition| #[trigger]
                is_filtered(r@.selectors, self@.selectors, Filter::Condition(c)) && c == (Condition {
                    probe: Probe::Flag(Flag::Displayed),
                    wanted: true,
                    ignore_errors: self@.options.ignore_errors != Some(false),
                }),
    {
        let c: Condition = conditions::element_is_displayed(self.options.ignores_errors());
        self.add_filter(Filter::Condition(c))
    }

    /// Only match elements that are not displayed.
    pub fn and_not_displayed(self) -> (r: Self)
        ensures
            r@ == (QueryView { selectors: r@.selectors, ..self@ }),
            exists|c: Condition| #[trigger]
                is_filtered(r@.selectors, self@.selectors, Filter::Condition(c)) && c == (Condition {
                    probe: Probe::Flag(Flag::Displayed),
                    wanted: false,
                    ignore_errors: self@.options.ignore_errors != Some(false),
                }),
    {
        let c: Condition = conditions::element_is_not_displayed(self.options.ignores_errors());
        self.add_filter(Filter::Condition(c))
    }

    /// Only match elements that are clickable.
    pub fn and_clickable(self) -> (r: Self)
        ensures
            r@ == (QueryView { selectors: r@.selectors, ..self@ }),
            exists|c: Condition| #[trigger]
                is_filtered(r@.selectors, self@.selectors, Filter::Condition(c)) && c == (Condition {
                    probe: Probe::Flag(Flag::Clickable),
                    wanted: true,
                    ignore_errors: self@.options.ignore_errors != Some(false),
                }),
    {
        let c: Condition = conditions::element_is_clickable(self.options.ignores_errors());
        self.add_filter(Filter::Condition(c))
    }

    /// Only match elements that are not clickable.
    pub fn and_not_clickable(self) -> (r: Self)
        ensures
            r@ == (QueryView { selectors: r@.selectors, ..self@ }),
            exists|c: Condition| #[trigger]
                is_filtered(r@.selectors, self@.selectors, Filter::Condition(c)) && c == (Condition {
                    probe: Probe::Flag(Flag::Clickable),
                    wanted: false,
                    ignore_errors: self@.options.ignore_errors != Some(false),
                }),
    {
        let c: Condition = conditions::element_is_not_clickable(self.options.ignores_errors());
        self.add_filter(Filter::Condition(c))
    }

    /// Only match elements that have the specified text.
    pub fn with_text<N: IntoNeedle>(self, text: N) -> (r: Self)
        ensures
            r@ == (QueryView { selectors: r@.selectors, ..self@ }),
            exists|c: Condition| #[trigger]
                is_filtered(r@.selectors, self@.selectors, Filter::Condition(c)) && c.wanted == true
                    && c.ignore_errors == (self@.options.ignore_errors != Some(false)) && (
                c.probe matches Probe::Text(n) && forall|h: Seq<char>| #[trigger]
                    n.matches_text(h) == text.matches_with(h)),
    {
        let c: Condition = conditions::element_has_text(text, self.options.ignores_errors());
        self.add_filter(Filter::Condition(c))
    }

    /// Only match elements that do not have the specified text.
    pub fn without_text<N: IntoNeedle>(self, text: N) -> (r: Self)
        ensures
            r@ == (QueryView { selectors: r@.selectors, ..self@ }),
            exists|c: Condition| #[trigger]
                is_filtered(r@.selectors, self@.selectors, Filter::Condition(c)) && c.wanted == false
                    && c.ignore_errors == (self@.options.ignore_errors != Some(false)) && (
                c.probe matches Probe::Text(n) && forall|h: Seq<char>| #[trigger]
                    n.matches_text(h) == text.matches_with(h)),
    {
        let c: Condition = conditions::element_lacks_text(text, self.options.ignores_errors());
        self.add_filter(Filter::Condition(c))
    }

    /// Only match elements that have the specified id.
    pub fn with_id<N: IntoNeedle>(self, id: N) -> (r: Self)
        ensures
            r@ == (QueryView { selectors: r@.selectors, ..self@ }),
            exists|c: Condition| #[trigger]
                is_filtered(r@.selectors, self@.selectors, Filter::Condition(c)) && c.wanted == true
                    && c.ignore_errors == (self@.options.ignore_errors != Some(false)) && (
                c.probe matches Probe::Id(n) && forall|h: Seq<char>| #[trigger]
                    n.matches_text(h) == id.matches_with(h)),
    {
        let c: Condition = conditions::element_has_id(id, self.options.ignores_errors());
        self.add_filter(Filter::Condition(c))
    }

    /// Only match elements that do not have the specified id.
    pub fn without_id<N: IntoNeedle>(self, id: N) -> (r: Self)
        ensures
            r@ == (QueryView { selectors: r@.selectors, ..self@ }),
            exists|c: Condition| #[trigger]
                is_filtered(r@.selectors, self@.selectors, Filter::Condition(c)) && c.wanted == false
                    && c.ignore_errors == (self@.options.ignore_errors != Some(false)) && (
                c.probe matches Probe::Id(n) && forall|h: Seq<char>| #[trigger]
                    n.matches_text(h) == id.matches_with(h)),
    {
        let c: Condition = conditions::element_lacks_id(id, self.options.ignores_errors());
        self.add_filter(Filter::Condition(c))
    }

    /// Only match elements that have the specified class name.
    pub fn with_class<N: IntoNeedle>(self, class: N) -> (r: Self)
        ensures
            r@ == (QueryView { selectors: r@.selectors, ..self@ }),
            exists|c: Condition| #[trigger]
                is_filtered(r@.selectors, self@.selectors, Filter::Condition(c)) && c.wanted == true
                    && c.ignore_errors == (self@.options.ignore_errors != Some(false)) && (
                c.probe matches Probe::Class(n) && forall|h: Seq<char>| #[trigger]
                    n.matches_text(h) == class.matches_with(h)),
    {
        let c: Condition = conditions::element_has_class(class, self.options.ignores_errors());
        self.add_filter(Filter::Condition(c))
    }

    /// Only match elements that do not have the specified class name.
    pub fn without_class<N: IntoNeedle>(self, class: N) -> (r: Self)
        ensures
            r@ == (QueryView { selectors: r@.selectors, ..self@ }),
            exists|c: Condition| #[trigger]
                is_filtered(r@.selectors, self@.selectors, Filter::Condition(c)) && c.wanted == false
                    && c.ignore_errors == (self@.options.ignore_errors != Some(false)) && (
                c.probe matches Probe::Class(n) && forall|h: Seq<char>| #[trigger]
                    n.matches_text(h) == class.matches_with(h)),
    {
        let c: Condition = conditions::element_lacks_class(class, self.options.ignores_errors());
        self.add_filter(Filter::Condition(c))
    }

    /// Only match elements that have the specified tag.
    pub fn with_tag<N: IntoNeedle>(self, tag: N) -> (r: Self)
        ensures
            r@ == (QueryView { selectors: r@.selectors, ..self@ }),
            exists|c: Condition| #[trigger]
                is_filtered(r@.selectors, self@.selectors, Filter::Condition(c)) && c.wanted == true
                    && c.ignore_errors == (self@.options.ignore_errors != Some(false)) && (
                c.probe matches Probe::Tag(n) && forall|h: Seq<char>| #[trigger]
                    n.matches_text(h) == tag.matches_with(h)),
    {
        let c: Condition = conditions::element_has_tag(tag, self.options.ignores_errors());
        self.add_filter(Filter::Condition(c))
    }

    /// Only match elements that do not have the specified tag.
    pub fn without_tag<N: IntoNeedle>(self, tag: N) -> (r: Self)
        ensures
            r@ == (QueryView { selectors: r@.selectors, ..self@ }),
            exists|c: Condition| #[trigger]
                is_filtered(r@.selectors, self@.selectors, Filter::Condition(c)) && c.wanted == false
                    && c.ignore_errors == (self@.options.ignore_errors != Some(false)) && (
                c.probe matches Probe::Tag(n) && forall|h: Seq<char>| #[trigger]
                    n.matches_text(h) == tag.matches_with(h)),
    {
        let c: Condition = conditions::element_lacks_tag(tag, self.options.ignores_errors());
        self.add_filter(Filter::Condition(c))
    }

    /// Only match elements that have the specified value.
    pub fn with_value<N: IntoNeedle>(self, value: N) -> (r: Self)
        ensures
            r@ == (QueryView { selectors: r@.selectors, ..self@ }),
            exists|c: Condition| #[trigger]
                is_filtered(r@.selectors, self@.selectors, Filter::Condition(c)) && c.wanted == true
                    && c.ignore_errors == (self@.options.ignore_errors != Some(false)) && (
                c.probe matches Probe::Value(n) && forall|h: Seq<char>| #[trigger]
                    n.matches_text(h) == value.matches_with(h)),
    {
        let c: Condition = conditions::element_has_value(value, self.options.ignores_errors());
        self.add_filter(Filter::Condition(c))
    }

    /// Only match elements that do not have the specified value.
    pub fn without_value<N: IntoNeedle>(self, value: N) -> (r: Self)
        ensures
            r@ == (QueryView { selectors: r@.selectors, ..self@ }),
            exists|c: Condition| #[trigger]
                is_filtered(r@.selectors, self@.selectors, Filter::Condition(c)) && c.wanted == false
                    && c.ignore_errors == (self@.options.ignore_errors != Some(false)) && (
                c.probe matches Probe::Value(n) && forall|h: Seq<char>| #[trigger]
                    n.matches_text(h) == value.matches_with(h)),
    {
        let c: Condition = conditions::element_lacks_value(value, self.options.ignores_errors());
        self.add_filter(Filter::Condition(c))
    }

    /// Only match elements that have the specified attribute with the specified value.
    pub fn with_attribute<S: IntoArcStr, N: IntoNeedle>(self, name: S, value: N) -> (r: Self)
        ensures
            r@ == (QueryView { selectors: r@.selectors, ..self@ }),
            exists|c: Condition| #[trigger]
                is_filtered(r@.selectors, self@.selectors, Filter::Condition(c)) && c.wanted == true
                    && c.ignore_errors == (self@.options.ignore_errors != Some(false)) && (
                c.probe matches Probe::Attributes(items) && items.len() == 1 && items[0].0@ == name.text()
                    && forall|h: Seq<char>| #[trigger]
                    items[0].1.matches_text(h) == value.matches_with(h)),
    {
        let c: Condition = conditions::element_has_attribute(name, value, self.options.ignores_errors());
        self.add_filter(Filter::Condition(c))
    }

    /// Only match elements that have all the specified attributes with the specified values.
    pub fn with_attributes(self, desired: Vec<(String, Needle)>) -> (r: Self)
        ensures
            r@ == (QueryView { selectors: r@.selectors, ..self@ }),
            exists|c: Condition| #[trigger]
                is_filtered(r@.selectors, self@.selectors, Filter::Condition(c)) && c == (Condition {
                    probe: Probe::Attributes(desired),
                    wanted: true,
                    ignore_errors: self@.options.ignore_errors != Some(false),
                }),
    {
        let c: Condition = conditions::element_has_attributes(desired, self.options.ignores_errors());
        self.add_filter(Filter::Condition(c))
    }

    /// Only match elements that do not have the specified attribute with the specified value.
    pub fn without_attribute<S: IntoArcStr, N: IntoNeedle>(self, name: S, value: N) -> (r: Self)
        ensures
            r@ == (QueryView { selectors: r@.selectors, ..self@ }),
            exists|c: Condition| #[trigger]
                is_filtered(r@.selectors, self@.selectors, Filter::Condition(c)) && c.wanted == false
                    && c.ignore_errors == (self@.options.ignore_errors != Some(false)) && (
                c.probe matches Probe::Attributes(items) && items.len() == 1 && items[0].0@ == name.text()
                    && forall|h: Seq<char>| #[trigger]
                    items[0].1.matches_text(h) == value.matches_with(h)),
    {
        let c: Condition = conditions::element_lacks_attribute(name, value, self.options.ignores_errors());
        self.add_filter(Filter::Condition(c))
    }

    /// Only match elements that do not have any of the specified attributes with the specified values.
    pub fn without_attributes(self, desired: Vec<(String, Needle)>) -> (r: Self)
        ensures
            r@ == (QueryView { selectors: r@.selectors, ..self@ }),
            exists|c: Condition| #[trigger]
                is_filtered(r@.selectors, self@.selectors, Filter::Condition(c)) && c == (Condition {
                    probe: Probe::Attributes(desired),
                    wanted: false,
                    ignore_errors: self@.options.ignore_errors != Some(false),
                }),
    {
        let c: Condition = conditions::element_lacks_attributes(desired, self.options.ignores_errors());
        self.add_filter(Filter::Condition(c))
    }

    /// Only match elements that have the specified property with the specified value.
    pub fn with_property<S: IntoArcStr, N: IntoNeedle>(self, name: S, value: N) -> (r: Self)
        ensures
            r@ == (QueryView { selectors: r@.selectors, ..self@ }),
            exists|c: Condition| #[trigger]
                is_filtered(r@.selectors, self@.selectors, Filter::Condition(c)) && c.wanted == true
                    && c.ignore_errors == (self@.options.ignore_errors != Some(false)) && (
                c.probe matches Probe::Properties(items) && items.len() == 1 && items[0].0@ == name.text()
                    && forall|h: Seq<char>| #[trigger]
                    items[0].1.matches_text(h) == value.matches_with(h)),
    {
        let c: Condition = conditions::element_has_property(name, value, self.options.ignores_errors());
        self.add_filter(Filter::Condition(c))
    }

    /// Only match elements that have all the specified properties with the specified values.
    pub fn with_properties(self, desired: Vec<(String, Needle)>) -> (r: Self)
        ensures
            r@ == (QueryView { selectors: r@.selectors, ..self@ }),
            exists|c: Condition| #[trigger]
                is_filtered(r@.selectors, self@.selectors, Filter::Condition(c)) && c == (Condition {
                    probe: Probe::Properties(desired),
                    wanted: true,
                    ignore_errors: self@.options.ignore_errors != Some(false),
                }),
    {
        let c: Condition = conditions::element_has_properties(desired, self.options.ignores_errors());
        self.add_filter(Filter::Condition(c))
    }

    /// Only match elements that do not have the specified property with the specified value.
    pub fn without_property<S: IntoArcStr, N: IntoNeedle>(self, name: S, value: N) -> (r: Self)
        ensures
            r@ == (QueryView { selectors: r@.selectors, ..self@ }),
            exists|c: Condition| #[trigger]
                is_filtered(r@.selectors, self@.selectors, Filter::Condition(c)) && c.wanted == false
                    && c.ignore_errors == (self@.options.ignore_errors != Some(false)) && (
                c.probe matches Probe::Properties(items) && items.len() == 1 && items[0].0@ == name.text()
                    && forall|h: Seq<char>| #[trigger]
                    items[0].1.matches_text(h) == value.matches_with(h)),
    {
        let c: Condition = conditions::element_lacks_property(name, value, self.options.ignores_errors());
        self.add_filter(Filter::Condition(c))
    }

    /// Only match elements that do not have any of the specified properties with the specified values.
    pub fn without_properties(self, desired: Vec<(String, Needle)>) -> (r: Self)
        ensures
            r@ == (QueryView { selectors: r@.selectors, ..self@ }),
            exists|c: Condition| #[trigger]
                is_filtered(r@.selectors, self@.selectors, Filter::Condition(c)) && c == (Condition {
                    probe: Probe::Properties(desired),
                    wanted: false,
                    ignore_errors: self@.options.ignore_errors != Some(false),
                }),
    {
        let c: Condition = conditions::element_lacks_properties(desired, self.options.ignores_errors());
        self.add_filter(Filter::Condition(c))
    }

    /// Only match elements that have the specified CSS property with the specified value.
    pub fn with_css_property<S: IntoArcStr, N: IntoNeedle>(self, name: S, value: N) -> (r: Self)
        ensures
            r@ == (QueryView { selectors: r@.selectors, ..self@ }),
            exists|c: Condition| #[trigger]
                is_filtered(r@.selectors, self@.selectors, Filter::Condition(c)) && c.wanted == true
                    && c.ignore_errors == (self@.options.ignore_errors != Some(false)) && (
                c.probe matches Probe::CssProperties(items) && items.len() == 1 && items[0].0@ == name.text()
                    && forall|h: Seq<char>| #[trigger]
                    items[0].1.matches_text(h) == value.matches_with(h)),
    {
        let c: Condition = conditions::element_has_css_property(name, value, self.options.ignores_errors());
        self.add_filter(Filter::Condition(c))
    }

    /// Only match elements that have all the specified CSS properties with the specified values.
    pub fn with_css_properties(self, desired: Vec<(String, Needle)>) -> (r: Self)
        ensures
            r@ == (QueryView { selectors: r@.selectors, ..self@ }),
            exists|c: Condition| #[trigger]
                is_filtered(r@.selectors, self@.selectors, Filter::Condition(c)) && c == (Condition {
                    probe: Probe::CssProperties(desired),
                    wanted: true,
                    ignore_errors: self@.options.ignore_errors != Some(false),
                }),
    {
        let c: Condition = conditions::element_has_css_properties(desired, self.options.ignores_errors());
        self.add_filter(Filter::Condition(c))
    }

    /// Only match elements that do not have the specified CSS property with the specified value.
    pub fn without_css_property<S: IntoArcStr, N: IntoNeedle>(self, name: S, value: N) -> (r: Self)
        ensures
            r@ == (QueryView { selectors: r@.selectors, ..self@ }),
            exists|c: Condition| #[trigger]
                is_filtered(r@.selectors, self@.selectors, Filter::Condition(c)) && c.wanted == false
                    && c.ignore_errors == (self@.options.ignore_errors != Some(false)) && (
                c.probe matches Probe::CssProperties(items) && items.len() == 1 && items[0].0@ == name.text()
                    && forall|h: Seq<char>| #[trigger]
                    items[0].1.matches_text(h) == value.matches_with(h)),
    {
        let c: Condition = conditions::element_lacks_css_property(name, value, self.options.ignores_errors());
        self.add_filter(Filter::Condition(c))
    }

    /// Only match elements that do not have any of the specified CSS properties with the specified values.
    pub fn without_css_properties(self, desired: Vec<(String, Needle)>) -> (r: Self)
        ensures
            r@ == (QueryView { selectors: r@.selectors, ..self@ }),
            exists|c: Condition| #[trigger]
                is_filtered(r@.selectors, self@.selectors, Filter::Condition(c)) && c == (Condition {
                    probe: Probe::CssProperties(desired),
                    wanted: false,
                    ignore_errors: self@.options.ignore_errors != Some(false),
                }),
    {
        let c: Condition = conditions::element_lacks_css_properties(desired, self.options.ignores_errors());
        self.add_filter(Filter::Condition(c))
    }
}

/// How an attempt ended, from its result and what was found after it.
pub open spec fn end_of<'a, D>(
    r: WebDriverResult<Option<Vec<WebElement<'a, D>>>>,
    found: Seq<WebElement<'a, D>>,
) -> WebDriverResult<AttemptEnd<'a, D>> {
    match r {
        Err(e) => Err(e),
        Ok(Some(v)) => Ok(AttemptEnd::Early(v@)),
        Ok(None) => Ok(AttemptEnd::Through(found)),
    }
}

/// How an attempt ended, from what the look at the page came to.
pub open spec fn end_of_look<'a, D>(look: WebDriverResult<Look<WebElement<'a, D>>>) -> WebDriverResult<
    AttemptEnd<'a, D>,
> {
    match look {
        Err(e) => Err(e),
        Ok(Look::Early(v)) => Ok(AttemptEnd::Early(v@)),
        Ok(Look::Through(f)) => Ok(AttemptEnd::Through(f@)),
    }
}

/// The page as a query looks at it: an attempt with all selectors, which begins with nothing found.
/// What the page has become does not show in it.
#[derive(Debug)]
pub struct QueryLook<'q, 'a, D, F> {
    pub query: &'q ElementQuery<'a, D, F>,
    pub short_circuit: bool,
    pub stop_on_miss: bool,
}

impl<'q, 'a, D: Driver, F: ElementPredicate<'a, D>> Looks<
    WebElement<'a, D>,
> for QueryLook<'q, 'a, D, F> {
    open spec fn looked(
        before: Self,
        after: Self,
        r: WebDriverResult<Look<WebElement<'a, D>>>,
    ) -> bool {
        after == before && attempts(
            before.query@.source,
            before.query@.selectors,
            0,
            Seq::empty(),
            before.short_circuit,
            before.stop_on_miss,
            end_of_look(r),
        )
    }

    fn look(&mut self) -> (r: WebDriverResult<Look<WebElement<'a, D>>>) {
        // What an earlier attempt found may be gone by now.
        let mut elements: Found<'a, D> = Found::new();
        match self.query.attempt(&mut elements, self.short_circuit, self.stop_on_miss) {
            Err(e) => Err(e),
            Ok(Some(v)) => Ok(Look::Early(v)),
            Ok(None) => Ok(Look::Through(elements.into_elements())),
        }
    }
}

/// The page as a query looks at it.
pub open spec fn look_of<'q, 'a, D, F>(
    query: &'q ElementQuery<'a, D, F>,
    short_circuit: bool,
    stop_on_miss: bool,
) -> QueryLook<'q, 'a, D, F> {
    QueryLook { query, short_circuit, stop_on_miss }
}

/// A query that does not end with the elements of one selector never finds the same element twice.
pub proof fn lemma_no_duplicates<'q, 'a, D: Driver, F: ElementPredicate<'a, D>, A: Attempts>(
    page: QueryLook<'q, 'a, D, F>,
    page_last: QueryLook<'q, 'a, D, F>,
    pace: A,
    last: A,
    r: WebDriverResult<Vec<WebElement<'a, D>>>,
)
    requires
        !page.short_circuit,
        rounds(page, page_last, pace, last, page.stop_on_miss, r),
        r is Ok,
    ensures
        found::different(r->Ok_0@),
    decreases pace.left(),
{
    let stop_on_miss = page.stop_on_miss;
    let source = page.query@.source;
    let selectors = page.query@.selectors;
    let nothing = Seq::<WebElement<'a, D>>::empty();
    let (seen, look) = choose|
        seen: QueryLook<'q, 'a, D, F>,
        look: WebDriverResult<Look<WebElement<'a, D>>>,
    | #[trigger]
        QueryLook::looked(page, seen, look) && ends_or_goes_on(
            seen,
            page_last,
            pace,
            last,
            stop_on_miss,
            look,
            r,
        );
    lemma_never_early(source, selectors, 0, nothing, stop_on_miss, end_of_look(look));
    match look {
        Ok(Look::Through(f)) => {
            lemma_attempt_different(source, selectors, 0, nothing, false, stop_on_miss, f@);
            if stop_on_miss != (f@.len() == 0) {
                let (after, again) = choose|after: A, again: bool| #[trigger]
                    A::steps(pace, after, again) && if again {
                        after.left() < pace.left() && rounds(
                            seen,
                            page_last,
                            after,
                            last,
                            stop_on_miss,
                            r,
                        )
                    } else {
                        page_last == seen && last == after && r == Ok::<
                            Vec<WebElement<'a, D>>,
                            WebDriverError,
                        >(f)
                    };
                if again {
                    lemma_no_duplicates(seen, page_last, after, last, r);
                }
            }
        },
        _ => {},
    }
}

/// A query gives up only where the pace has said that there is to be no other attempt: a result
/// that is not what was asked for comes after such an answer.
pub proof fn lemma_gives_up_on_the_pace<'q, 'a, D: Driver, F: ElementPredicate<'a, D>, A: Attempts>(
    page: QueryLook<'q, 'a, D, F>,
    page_last: QueryLook<'q, 'a, D, F>,
    pace: A,
    last: A,
    v: Vec<WebElement<'a, D>>,
)
    requires
        rounds(page, page_last, pace, last, page.stop_on_miss, Ok(v)),
        page.stop_on_miss != (v@.len() == 0),
    ensures
        exists|before: A| #[trigger] A::steps(before, last, false),
    decreases pace.left(),
{
    let stop_on_miss = page.stop_on_miss;
    let r = Ok::<Vec<WebElement<'a, D>>, WebDriverError>(v);
    let (seen, look) = choose|
        seen: QueryLook<'q, 'a, D, F>,
        look: WebDriverResult<Look<WebElement<'a, D>>>,
    | #[trigger]
        QueryLook::looked(page, seen, look) && ends_or_goes_on(
            seen,
            page_last,
            pace,
            last,
            stop_on_miss,
            look,
            r,
        );
    match look {
        Ok(Look::Early(w)) => {
            lemma_early_end(
                page.query@.source,
                page.query@.selectors,
                0,
                Seq::empty(),
                page.short_circuit,
                stop_on_miss,
                w@,
            );
        },
        Ok(Look::Through(f)) => {
            let (after, again) = choose|after: A, again: bool| #[trigger]
                A::steps(pace, after, again) && if again {
                    after.left() < pace.left() && rounds(
                        seen,
                        page_last,
                        after,
                        last,
                        stop_on_miss,
                        r,
                    )
                } else {
                    page_last == seen && last == after && r == Ok::<
                        Vec<WebElement<'a, D>>,
                        WebDriverError,
                    >(f)
                };
            if again {
                lemma_gives_up_on_the_pace(seen, page_last, after, last, v);
            } else {
                assert(A::steps(pace, last, false));
            }
        },
        Err(_) => {},
    }
}

impl<'a, D: Driver, F: ElementPredicate<'a, D>> ElementQuery<'a, D, F> {
    /// Whether `r` may be what the query comes to at a pace, which has become `last` in the end.
    pub open spec fn polled<A: Attempts>(
        &self,
        pace: A,
        last: A,
        short_circuit: bool,
        stop_on_miss: bool,
        r: WebDriverResult<Vec<WebElement<'a, D>>>,
    ) -> bool {
        if self@.selectors.len() == 0 {
            last == pace && (r matches Err(e) && no_element(
                e,
                not_found_message(self@.selectors, self.described()),
            ))
        } else {
            exists|page_last: QueryLook<'_, 'a, D, F>| #[trigger]
                rounds(
                    look_of(self, short_circuit, stop_on_miss),
                    page_last,
                    pace,
                    last,
                    stop_on_miss,
                    r,
                )
        }
    }

    /// Whether `r` may be the first element that is found, of which there must be one.
    pub open spec fn finds_first<A: Attempts>(
        &self,
        pace: A,
        last: A,
        r: WebDriverResult<WebElement<'a, D>>,
    ) -> bool {
        exists|x: WebDriverResult<Vec<WebElement<'a, D>>>| #[trigger]
            self.polled(pace, last, true, false, x) && match x {
                Err(e) => r == Err::<WebElement<'a, D>, WebDriverError>(e),
                Ok(v) => if v@.len() == 0 {
                    r matches Err(e) && no_element(
                        e,
                        not_found_message(self@.selectors, self.described()),
                    )
                } else {
                    r == Ok::<WebElement<'a, D>, WebDriverError>(v@[0])
                },
            }
    }

    /// Whether `r` may be the only element that is found, of which there must be one and no more.
    pub open spec fn finds_single<A: Attempts>(
        &self,
        pace: A,
        last: A,
        r: WebDriverResult<WebElement<'a, D>>,
    ) -> bool {
        exists|x: WebDriverResult<Vec<WebElement<'a, D>>>| #[trigger]
            self.polled(pace, last, false, false, x) && match x {
                Err(e) => r == Err::<WebElement<'a, D>, WebDriverError>(e),
                Ok(v) => if v@.len() == 1 {
                    r == Ok::<WebElement<'a, D>, WebDriverError>(v@[0])
                } else if v@.len() == 0 {
                    r matches Err(e) && no_element(
                        e,
                        not_found_message(self@.selectors, self.described()),
                    )
                } else {
                    r matches Err(e) && no_element(
                        e,
                        too_many_message(self@.selectors, self.described(), v@.len()),
                    )
                },
            }
    }

    /// Whether `r` may be the elements of one selector, of which there must be one.
    pub open spec fn finds_required<A: Attempts>(
        &self,
        pace: A,
        last: A,
        r: WebDriverResult<Vec<WebElement<'a, D>>>,
    ) -> bool {
        exists|x: WebDriverResult<Vec<WebElement<'a, D>>>| #[trigger]
            self.polled(pace, last, true, false, x) && self.required(x, r)
    }

    /// Whether `r` may say if there is such an element.
    pub open spec fn says_exists<A: Attempts>(
        &self,
        pace: A,
        last: A,
        r: WebDriverResult<bool>,
    ) -> bool {
        exists|x: WebDriverResult<Vec<WebElement<'a, D>>>| #[trigger]
            self.polled(pace, last, true, false, x) && match x {
                Err(e) => r == Err::<bool, WebDriverError>(e),
                Ok(v) => r == Ok::<bool, WebDriverError>(v@.len() != 0),
            }
    }

    /// Whether `r` may say if there is no such element.
    pub open spec fn says_gone<A: Attempts>(
        &self,
        pace: A,
        last: A,
        r: WebDriverResult<bool>,
    ) -> bool {
        exists|x: WebDriverResult<Vec<WebElement<'a, D>>>| #[trigger]
            self.polled(pace, last, false, true, x) && match x {
                Err(e) => r == Err::<bool, WebDriverError>(e),
                Ok(v) => r == Ok::<bool, WebDriverError>(v@.len() == 0),
            }
    }

    /// Whether `r` may be the first element that is found, where there is one.
    pub open spec fn finds_first_opt<A: Attempts>(
        &self,
        pace: A,
        last: A,
        r: WebDriverResult<Option<WebElement<'a, D>>>,
    ) -> bool {
        exists|x: WebDriverResult<Vec<WebElement<'a, D>>>| #[trigger]
            self.polled(pace, last, true, false, x) && match x {
                Err(e) => r == Err::<Option<WebElement<'a, D>>, WebDriverError>(e),
                Ok(v) => r == Ok::<Option<WebElement<'a, D>>, WebDriverError>(
                    if v@.len() == 0 {
                        None
                    } else {
                        Some(v@[0])
                    },
                ),
            }
    }

    /// Whether `r` may be the elements of all selectors, of which there must be one.
    pub open spec fn finds_any_required<A: Attempts>(
        &self,
        pace: A,
        last: A,
        r: WebDriverResult<Vec<WebElement<'a, D>>>,
    ) -> bool {
        exists|x: WebDriverResult<Vec<WebElement<'a, D>>>| #[trigger]
            self.polled(pace, last, false, false, x) && self.required(x, r)
    }

    /// The elements that a selector finds.
    fn fetch_elements_from_source(&self, by: By) -> (r: WebDriverResult<Vec<WebElement<'a, D>>>)
        ensures
            webelement::finds_all(self@.source.session(), self@.source.command(by@), r),
    {
        match &self.source {
            ElementQuerySource::Driver(driver) => find_all_command(
                *driver,
                Command::FindElements(by.into_selector()),
            ),
            ElementQuerySource::Element(element) => element.find_elements(by),
        }
    }

    /// The elements that a selector finds and its filters leave.
    fn select(&self, selector: &ElementSelector<F>) -> (r: WebDriverResult<Vec<WebElement<'a, D>>>)
        ensures
            selects(self@.source, *selector, r),
    {
        let x: WebDriverResult<Vec<WebElement<'a, D>>> = self.fetch_elements_from_source(
            selector.by.clone(),
        );
        match x {
            Ok(v) => if v.len() == 0 {
                Ok(v)
            } else {
                filter_elements(v, &selector.filters)
            },
            Err(e) => {
                let missing: bool = match e.as_inner() {
                    WebDriverErrorInner::NoSuchElement(_) => true,
                    _ => false,
                };
                if missing {
                    Ok(Vec::new())
                } else {
                    Err(e)
                }
            },
        }
    }

    /// One attempt with all selectors. What it returns is the result of the query; where it
    /// returns nothing, the elements were added to those that were found.
    fn attempt(&self, found: &mut Found<'a, D>, short_circuit: bool, stop_on_miss: bool) -> (r:
        WebDriverResult<Option<Vec<WebElement<'a, D>>>>)
        requires
            old(found).wf(),
        ensures
            final(found).wf(),
            attempts(
                self@.source,
                self@.selectors,
                0,
                old(found)@,
                short_circuit,
                stop_on_miss,
                end_of(r, final(found)@),
            ),
    {
        let ghost start = found@;
        let mut i: usize = 0;
        while i < self.selectors.len()
            invariant
                i <= self.selectors.len(),
                found.wf(),
                start == old(found)@,
                forall|q: WebDriverResult<AttemptEnd<'a, D>>| #[trigger]
                    attempts(
                        self@.source,
                        self@.selectors,
                        i as nat,
                        found@,
                        short_circuit,
                        stop_on_miss,
                        q,
                    ) ==> attempts(
                        self@.source,
                        self@.selectors,
                        0,
                        start,
                        short_circuit,
                        stop_on_miss,
                        q,
                    ),
            decreases self.selectors.len() - i,
        {
            let x: WebDriverResult<Vec<WebElement<'a, D>>> = self.select(&self.selectors[i]);
            let ghost gx = x;
            let ghost before = found@;
            assert(selects(self@.source, self@.selectors[i as int], gx));
            let new_elements: Vec<WebElement<'a, D>> = match x {
                Ok(v) => v,
                Err(e) => {
                    assert(attempts(
                        self@.source,
                        self@.selectors,
                        i as nat,
                        before,
                        short_circuit,
                        stop_on_miss,
                        Err(e),
                    ));
                    return Err(e);
                },
            };
            // Stop early?
            if short_circuit && stop_on_miss == (new_elements.len() == 0) {
                assert(attempts(
                    self@.source,
                    self@.selectors,
                    i as nat,
                    before,
                    short_circuit,
                    stop_on_miss,
                    Ok(AttemptEnd::Early(new_elements@)),
                ));
                return Ok(Some(new_elements));
            }
            // Collect elements, excluding duplicates.
            let ghost more = new_elements@;
            found.insert_all(new_elements);
            let ghost k = i;
            i = i + 1;
            proof {
                assert forall|q: WebDriverResult<AttemptEnd<'a, D>>| #[trigger]
                    attempts(
                        self@.source,
                        self@.selectors,
                        i as nat,
                        found@,
                        short_circuit,
                        stop_on_miss,
                        q,
                    ) implies attempts(
                    self@.source,
                    self@.selectors,
                    0,
                    start,
                    short_circuit,
                    stop_on_miss,
                    q,
                ) by {
                    assert(attempts(
                        self@.source,
                        self@.selectors,
                        k as nat,
                        before,
                        short_circuit,
                        stop_on_miss,
                        q,
                    ));
                }
            }
        }
        assert(attempts(
            self@.source,
            self@.selectors,
            i as nat,
            found@,
            short_circuit,
            stop_on_miss,
            Ok(AttemptEnd::Through(found@)),
        ));
        Ok(None)
    }

    /// Tries all selectors, until what is asked for was found or there is no other attempt. Each
    /// attempt is a look at the page as it is by then, as `poll_until` has it.
    pub fn run_poller<A: Attempts>(
        &self,
        attempts_left: &mut A,
        short_circuit: bool,
        stop_on_miss: bool,
    ) -> (r: WebDriverResult<Vec<WebElement<'a, D>>>)
        ensures
            self.polled(*old(attempts_left), *final(attempts_left), short_circuit, stop_on_miss, r),
    {
        if self.selectors.len() == 0 {
            return Err(no_such_element(&self.selectors, self.options.description_text()));
        }
        let mut page: QueryLook<'_, 'a, D, F> = QueryLook {
            query: self,
            short_circuit,
            stop_on_miss,
        };
        let r: WebDriverResult<Vec<WebElement<'a, D>>> = poll_until(
            &mut page,
            attempts_left,
            stop_on_miss,
        );
        assert(rounds(
            look_of(self, short_circuit, stop_on_miss),
            page,
            *old(attempts_left),
            *attempts_left,
            stop_on_miss,
            r,
        ));
        r
    }

    /// Return true if an element matches any selector (including filters), otherwise false.
    pub fn any_exists<A: Attempts>(&self, attempts_left: &mut A) -> (r: WebDriverResult<bool>)
        ensures
            self.says_exists(*old(attempts_left), *final(attempts_left), r),
    {
        match self.run_poller(attempts_left, true, false) {
            Ok(v) => Ok(v.len() != 0),
            Err(e) => Err(e),
        }
    }

    /// Return true if no element matches any selector (including filters), otherwise false.
    pub fn not_exists<A: Attempts>(&self, attempts_left: &mut A) -> (r: WebDriverResult<bool>)
        ensures
            self.says_gone(*old(attempts_left), *final(attempts_left), r),
    {
        match self.run_poller(attempts_left, false, true) {
            Ok(v) => Ok(v.len() == 0),
            Err(e) => Err(e),
        }
    }

    /// Return the first WebElement that matches any selector (including filters).
    ///
    /// Returns None if no elements match.
    pub fn first_opt<A: Attempts>(&self, attempts_left: &mut A) -> (r: WebDriverResult<
        Option<WebElement<'a, D>>,
    >)
        ensures
            self.finds_first_opt(*old(attempts_left), *final(attempts_left), r),
    {
        match self.run_poller(attempts_left, true, false) {
            Ok(v) => if v.len() == 0 {
                Ok(None)
            } else {
                Ok(Some(v[0].clone()))
            },
            Err(e) => Err(e),
        }
    }

    /// Return only the first WebElement that matches any selector (including filters).
    ///
    /// Returns Err(WebDriverError::NoSuchElement) if no elements match.
    pub fn first<A: Attempts>(&self, attempts_left: &mut A) -> (r: WebDriverResult<
        WebElement<'a, D>,
    >)
        ensures
            self.finds_first(*old(attempts_left), *final(attempts_left), r),
    {
        match self.run_poller(attempts_left, true, false) {
            Ok(v) => if v.len() == 0 {
                Err(no_such_element(&self.selectors, self.options.description_text()))
            } else {
                Ok(v[0].clone())
            },
            Err(e) => Err(e),
        }
    }

    /// Return only a single WebElement that matches any selector (including filters).
    ///
    /// This method requires that only one element was found, and will return
    /// Err(WebDriverError::NoSuchElement) if the number of elements found after processing
    /// all selectors was not equal to 1.
    pub fn single<A: Attempts>(&self, attempts_left: &mut A) -> (r: WebDriverResult<
        WebElement<'a, D>,
    >)
        ensures
            self.finds_single(*old(attempts_left), *final(attempts_left), r),
    {
        match self.run_poller(attempts_left, false, false) {
            Ok(v) => if v.len() == 1 {
                Ok(v[0].clone())
            } else if v.len() == 0 {
                Err(no_such_element(&self.selectors, self.options.description_text()))
            } else {
                let element_description: String = get_elements_description(
                    Some(v.len()),
                    self.options.description_text(),
                );
                let mut message: String = cat4(
                    "too many elements received; found ",
                    decimal_text(v.len() as u64).as_str(),
                    " ",
                    element_description.as_str(),
                );
                message.append(
                    cat2(
                        " using selectors: ",
                        get_selector_summary(&self.selectors).as_str(),
                    ).as_str(),
                );
                Err(error::no_such_element(message))
            },
            Err(e) => Err(e),
        }
    }

    /// Return all WebElements that match any selector (including filters).
    ///
    /// This will return when at least one element is found, after processing all selectors.
    ///
    /// Returns an empty Vec if no elements match.
    pub fn any<A: Attempts>(&self, attempts_left: &mut A) -> (r: WebDriverResult<
        Vec<WebElement<'a, D>>,
    >)
        ensures
            self.polled(*old(attempts_left), *final(attempts_left), false, false, r),
    {
        self.run_poller(attempts_left, false, false)
    }

    /// Whether `r` is what was found, of which there must be something.
    pub open spec fn required(
        &self,
        x: WebDriverResult<Vec<WebElement<'a, D>>>,
        r: WebDriverResult<Vec<WebElement<'a, D>>>,
    ) -> bool {
        match x {
            Err(_) => r == x,
            Ok(v) => if v@.len() == 0 {
                r matches Err(e) && no_element(
                    e,
                    not_found_message(self@.selectors, self.described()),
                )
            } else {
                r == x
            },
        }
    }

    /// What was found, of which there must be something.
    fn disallow_empty(&self, x: WebDriverResult<Vec<WebElement<'a, D>>>) -> (r: WebDriverResult<
        Vec<WebElement<'a, D>>,
    >)
        ensures
            self.required(x, r),
    {
        match x {
            Ok(v) => if v.len() == 0 {
                Err(no_such_element(&self.selectors, self.options.description_text()))
            } else {
                Ok(v)
            },
            Err(e) => Err(e),
        }
    }

    /// Return all WebElements that match any selector (including filters).
    ///
    /// This will return when at least one element is found, after processing all selectors.
    ///
    /// Returns Err(WebDriverError::NoSuchElement) if no elements match.
    pub fn any_required<A: Attempts>(&self, attempts_left: &mut A) -> (r: WebDriverResult<
        Vec<WebElement<'a, D>>,
    >)
        ensures
            self.finds_any_required(*old(attempts_left), *final(attempts_left), r),
    {
        let x: WebDriverResult<Vec<WebElement<'a, D>>> = self.run_poller(
            attempts_left,
            false,
            false,
        );
        self.disallow_empty(x)
    }

    /// Return all WebElements that match any single selector (including filters).
    pub fn all<A: Attempts>(&self, attempts_left: &mut A) -> (r: WebDriverResult<
        Vec<WebElement<'a, D>>,
    >)
        ensures
            self.polled(*old(attempts_left), *final(attempts_left), true, false, r),
    {
        self.all_from_selector(attempts_left)
    }

    /// Return all WebElements that match a single selector (including filters).
    ///
    /// This will return when at least one element is found from any selector, without
    /// processing other selectors afterwards.
    ///
    /// Returns an empty Vec if no elements match.
    pub fn all_from_selector<A: Attempts>(&self, attempts_left: &mut A) -> (r: WebDriverResult<
        Vec<WebElement<'a, D>>,
    >)
        ensures
            self.polled(*old(attempts_left), *final(attempts_left), true, false, r),
    {
        self.run_poller(attempts_left, true, false)
    }

    /// Return all WebElements that match any single selector (including filters).
    pub fn all_required<A: Attempts>(&self, attempts_left: &mut A) -> (r: WebDriverResult<
        Vec<WebElement<'a, D>>,
    >)
        ensures
            self.finds_required(*old(attempts_left), *final(attempts_left), r),
    {
        self.all_from_selector_required(attempts_left)
    }

    /// Return all WebElements that match any single selector (including filters).
    ///
    /// This will return when at least one element is found from any selector, without
    /// processing other selectors afterwards.
    ///
    /// Returns Err(WebDriverError::NoSuchElement) if no elements match.
    pub fn all_from_selector_required<A: Attempts>(&self, attempts_left: &mut A) -> (r:
        WebDriverResult<Vec<WebElement<'a, D>>>)
        ensures
            self.finds_required(*old(attempts_left), *final(attempts_left), r),
    {
        let x: WebDriverResult<Vec<WebElement<'a, D>>> = self.run_poller(
            attempts_left,
            true,
            false,
        );
        self.disallow_empty(x)
    }
}

/// A query at the pace that its own poller gives, by a way of keeping time.
#[derive(Debug)]
pub struct PacedQuery<'q, 'a, D, F, P> {
    pub query: &'q ElementQuery<'a, D, F>,
    pub pacing: &'q P,
}

impl<'a, D, F> ElementQuery<'a, D, F> {
    /// This query at the pace that its own poller gives: the session's, or the one that `wait`,
    /// `nowait`, `with_poller` or `options` have set.
    pub fn paced<'q, P>(&'q self, pacing: &'q P) -> (r: PacedQuery<'q, 'a, D, F, P>)
        ensures
            *r.query == *self,
            *r.pacing == *pacing,
    {
        PacedQuery { query: self, pacing }
    }
}

impl<'q, 'a, D: Driver, F: ElementPredicate<'a, D>, P: Pacing> PacedQuery<'q, 'a, D, F, P> {
    /// Whether the query's own poller may give this pace.
    pub open spec fn starts(&self, start: P::Pace) -> bool {
        call_ensures(P::start, (self.pacing, &self.query@.poller), start)
    }

    /// Return true if an element matches any selector (including filters), otherwise false.
    pub fn any_exists(&self) -> (r: WebDriverResult<bool>)
        ensures
            exists|start: P::Pace, last: P::Pace| #[trigger]
                self.starts(start) && #[trigger] self.query.says_exists(start, last, r),
    {
        let mut pace: P::Pace = self.pacing.start(self.query.poller());
        let ghost start = pace;
        assert(self.starts(start));
        self.query.any_exists(&mut pace)
    }

    /// Return true if no element matches any selector (including filters), otherwise false.
    pub fn not_exists(&self) -> (r: WebDriverResult<bool>)
        ensures
            exists|start: P::Pace, last: P::Pace| #[trigger]
                self.starts(start) && #[trigger] self.query.says_gone(start, last, r),
    {
        let mut pace: P::Pace = self.pacing.start(self.query.poller());
        let ghost start = pace;
        assert(self.starts(start));
        self.query.not_exists(&mut pace)
    }

    /// Return the first WebElement that matches any selector (including filters), if any does.
    pub fn first_opt(&self) -> (r: WebDriverResult<Option<WebElement<'a, D>>>)
        ensures
            exists|start: P::Pace, last: P::Pace| #[trigger]
                self.starts(start) && #[trigger] self.query.finds_first_opt(start, last, r),
    {
        let mut pace: P::Pace = self.pacing.start(self.query.poller());
        let ghost start = pace;
        assert(self.starts(start));
        self.query.first_opt(&mut pace)
    }

    /// Return only the first WebElement that matches any selector (including filters).
    pub fn first(&self) -> (r: WebDriverResult<WebElement<'a, D>>)
        ensures
            exists|start: P::Pace, last: P::Pace| #[trigger]
                self.starts(start) && #[trigger] self.query.finds_first(start, last, r),
    {
        let mut pace: P::Pace = self.pacing.start(self.query.poller());
        let ghost start = pace;
        assert(self.starts(start));
        self.query.first(&mut pace)
    }

    /// Return only a single WebElement that matches any selector (including filters).
    pub fn single(&self) -> (r: WebDriverResult<WebElement<'a, D>>)
        ensures
            exists|start: P::Pace, last: P::Pace| #[trigger]
                self.starts(start) && #[trigger] self.query.finds_single(start, last, r),
    {
        let mut pace: P::Pace = self.pacing.start(self.query.poller());
        let ghost start = pace;
        assert(self.starts(start));
        self.query.single(&mut pace)
    }

    /// Return all WebElements that match any selector (including filters).
    pub fn any(&self) -> (r: WebDriverResult<Vec<WebElement<'a, D>>>)
        ensures
            exists|start: P::Pace, last: P::Pace| #[trigger]
                self.starts(start) && #[trigger] self.query.polled(start, last, false, false, r),
    {
        let mut pace: P::Pace = self.pacing.start(self.query.poller());
        let ghost start = pace;
        assert(self.starts(start));
        self.query.any(&mut pace)
    }

    /// Return all WebElements that match any selector (including filters), of which there must be one.
    pub fn any_required(&self) -> (r: WebDriverResult<Vec<WebElement<'a, D>>>)
        ensures
            exists|start: P::Pace, last: P::Pace| #[trigger]
                self.starts(start) && #[trigger] self.query.finds_any_required(start, last, r),
    {
        let mut pace: P::Pace = self.pacing.start(self.query.poller());
        let ghost start = pace;
        assert(self.starts(start));
        self.query.any_required(&mut pace)
    }

    /// Return all WebElements that match any single selector (including filters).
    pub fn all(&self) -> (r: WebDriverResult<Vec<WebElement<'a, D>>>)
        ensures
            exists|start: P::Pace, last: P::Pace| #[trigger]
                self.starts(start) && #[trigger] self.query.polled(start, last, true, false, r),
    {
        let mut pace: P::Pace = self.pacing.start(self.query.poller());
        let ghost start = pace;
        assert(self.starts(start));
        self.query.all(&mut pace)
    }

    /// Return all WebElements that match a single selector (including filters).
    pub fn all_from_selector(&self) -> (r: WebDriverResult<Vec<WebElement<'a, D>>>)
        ensures
            exists|start: P::Pace, last: P::Pace| #[trigger]
                self.starts(start) && #[trigger] self.query.polled(start, last, true, false, r),
    {
        let mut pace: P::Pace = self.pacing.start(self.query.poller());
        let ghost start = pace;
        assert(self.starts(start));
        self.query.all_from_selector(&mut pace)
    }

    /// Return all WebElements that match any single selector (including filters), of which there must
    /// be one.
    pub fn all_required(&self) -> (r: WebDriverResult<Vec<WebElement<'a, D>>>)
        ensures
            exists|start: P::Pace, last: P::Pace| #[trigger]
                self.starts(start) && #[trigger] self.query.finds_required(start, last, r),
    {
        let mut pace: P::Pace = self.pacing.start(self.query.poller());
        let ghost start = pace;
        assert(self.starts(start));
        self.query.all_required(&mut pace)
    }

    /// Return all WebElements that match a single selector (including filters), of which there must
    /// be one.
    pub fn all_from_selector_required(&self) -> (r: WebDriverResult<Vec<WebElement<'a, D>>>)
        ensures
            exists|start: P::Pace, last: P::Pace| #[trigger]
                self.starts(start) && #[trigger] self.query.finds_required(start, last, r),
    {
        let mut pace: P::Pace = self.pacing.start(self.query.poller());
        let ghost start = pace;
        assert(self.starts(start));
        self.query.all_from_selector_required(&mut pace)
    }
}

/// What elements can be looked for in.
pub trait ElementQueryable<'a, D> {
    /// Where elements are looked for.
    spec fn query_source(&'a self) -> ElementQuerySource<'a, D>;

    /// The poller of the session.
    spec fn query_poller(&self) -> SessionPoller;

    /// Start an element query using the specified selector.
    fn query<F>(&'a self, by: By) -> (r: ElementQuery<'a, D, F>)
        ensures
            r.is_new(self.query_source(), by, self.query_poller()),
    ;
}

impl<'a, H, G> ElementQueryable<'a, SessionHandle<H, G>> for SessionHandle<H, G> {
    open spec fn query_source(&'a self) -> ElementQuerySource<'a, SessionHandle<H, G>> {
        ElementQuerySource::Driver(self)
    }

    open spec fn query_poller(&self) -> SessionPoller {
        self@.config.poller
    }

    fn query<F>(&'a self, by: By) -> (r: ElementQuery<'a, SessionHandle<H, G>, F>) {
        ElementQuery::new(ElementQuerySource::Driver(self), by, self.config().poller.clone())
    }
}

impl<'a, H, G> ElementQueryable<'a, SessionHandle<H, G>> for WebElement<'a, SessionHandle<H, G>> {
    open spec fn query_source(&'a self) -> ElementQuerySource<'a, SessionHandle<H, G>> {
        ElementQuerySource::Element(*self)
    }

    open spec fn query_poller(&self) -> SessionPoller {
        self.session@.config.poller
    }

    fn query<F>(&'a self, by: By) -> (r: ElementQuery<'a, SessionHandle<H, G>, F>) {
        ElementQuery::new(
            ElementQuerySource::Element(self.clone()),
            by,
            self.session.config().poller.clone(),
        )
    }
}

} // verus!
