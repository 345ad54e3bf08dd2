//! Queries for elements on a page of a few elements, and what is kept of them.
use std::cell::{Cell, RefCell};
use thirtyfour::command::By;
use thirtyfour::conditions::{
    element_has_attribute, element_has_class, element_has_css_property, element_has_id,
    element_has_property, element_has_tag, element_has_text, element_has_value,
    element_is_clickable, element_is_displayed, element_is_enabled, element_is_not_enabled,
    element_is_selected, element_lacks_attribute, element_lacks_class, element_lacks_property,
    element_lacks_text, handle_errors, negate, Condition,
};
use thirtyfour::config::{SessionPoller, WebDriverConfig};
use thirtyfour::connection::{HttpClient, HttpResponse};
use thirtyfour::duration::Duration;
use thirtyfour::error::{WebDriverError, WebDriverErrorInner, WebDriverResult};
use thirtyfour::found::Found;
use thirtyfour::http::HttpRequest;
use thirtyfour::json::JsonValue;
use thirtyfour::needle::Needle;
use thirtyfour::poller::ElementPollerNoWait;
use thirtyfour::query::{
    get_elements_description, poll_until, AnyElement, Attempts, Clock, Clocks, ElementQuery,
    ElementQueryFn, ElementQueryOptions, ElementQueryWaitOptions, ElementQueryable, Look, Looks,
    MoreAttempts, OneAttempt, OnlyOnce, Pacing, Polled, PolledAttempts,
};
use thirtyfour::resolver::{ComponentQuery, Component, ElementResolver, SingleQuery};
use thirtyfour::session::{NoGuard, SessionHandle};
use thirtyfour::types::{ElementId, SessionId};
use thirtyfour::webelement::WebElement;

const SERVER: &str = "http://localhost:4444/";
const ELEMENT: &str = "element-6066-11e4-a52e-4f735466cecf";

/// A page: its elements by id, class and text, and how many requests for elements find none
/// before they appear.
#[derive(Debug)]
struct Page {
    items: RefCell<Vec<(&'static str, &'static str, &'static str)>>,
    empty_for: Cell<u32>,
    searches: Cell<u32>,
    fails: Cell<bool>,
    /// How many more searches find anything, where there is an end to it.
    shown_for: Cell<Option<u32>>,
    /// Whether elements are found, but say nothing of themselves.
    broken: Cell<bool>,
}

type Session = SessionHandle<Page, NoGuard>;

fn quoted(s: &str) -> String {
    serde_json::Value::String(s.to_string()).to_string()
}

impl Page {
    fn find(&self, body: &JsonValue) -> Vec<&'static str> {
        let body: serde_json::Value = serde_json::from_str(&body.to_text()).unwrap();
        let query = body["value"].as_str().unwrap().to_string();
        self.searches.set(self.searches.get() + 1);
        if self.empty_for.get() > 0 {
            self.empty_for.set(self.empty_for.get() - 1);
            return Vec::new();
        }
        if let Some(left) = self.shown_for.get() {
            if left == 0 {
                return Vec::new();
            }
            self.shown_for.set(Some(left - 1));
        }
        let items = self.items.borrow();
        let hits = items.iter().filter(|i| {
            query == "*" || query == format!(".{}", i.1) || query == format!("[id=\"{}\"]", i.0)
        });
        hits.map(|i| i.0).collect()
    }

    fn serve(&self, request: HttpRequest) -> Result<String, &'static str> {
        if self.fails.get() {
            return Err("unknown error");
        }
        let path = request.url.strip_prefix(SERVER).unwrap().to_string();
        let parts: Vec<&str> = path.split('/').skip(2).collect();
        match parts.as_slice() {
            ["elements"] | ["element", _, "elements"] => {
                let refs: Vec<String> = self
                    .find(request.body.as_ref().unwrap())
                    .into_iter()
                    .map(|id| format!("{{\"{}\":{}}}", ELEMENT, quoted(id)))
                    .collect();
                Ok(format!("[{}]", refs.join(",")))
            }
            ["element", ..] if self.broken.get() => Err("unknown error"),
            ["element", id, rest @ ..] => {
                let items = self.items.borrow();
                let (id, class, text) = match items.iter().find(|i| i.0 == *id) {
                    Some(i) => *i,
                    None => return Err("stale element reference"),
                };
                match rest {
                    ["text"] => Ok(quoted(text)),
                    ["name"] => Ok(quoted("div")),
                    ["enabled"] => Ok((text != "off").to_string()),
                    ["displayed"] => Ok("true".to_string()),
                    ["selected"] => Ok((text == "chosen").to_string()),
                    ["attribute", "id"] => Ok(quoted(id)),
                    ["attribute", "class"] => Ok(quoted(class)),
                    ["attribute", "value"] => Ok("null".to_string()),
                    ["attribute", _] => Ok("null".to_string()),
                    ["property", "text"] => Ok(quoted(text)),
                    ["property", _] => Ok("null".to_string()),
                    ["css", "color"] => Ok(quoted("red")),
                    ["css", _] => Ok(quoted("")),
                    _ => Err("unknown command"),
                }
            }
            _ => Err("unknown command"),
        }
    }
}

impl HttpClient for Page {
    fn send(&self, request: HttpRequest) -> WebDriverResult<HttpResponse> {
        let (status, body) = match self.serve(request) {
            Ok(value) => (200, format!("{{\"value\":{}}}", value)),
            Err(e) => (500, format!("{{\"value\":{{\"error\":\"{}\",\"message\":\"m\"}}}}", e)),
        };
        Ok(HttpResponse { status, body: body.into_bytes() })
    }
}

fn session(items: Vec<(&'static str, &'static str, &'static str)>) -> Session {
    let page = Page {
        items: RefCell::new(items),
        empty_for: Cell::new(0),
        searches: Cell::new(0),
        fails: Cell::new(false),
        shown_for: Cell::new(None),
        broken: Cell::new(false),
    };
    SessionHandle::new_with_config_guard_and_caps(
        page,
        SERVER,
        SessionId::from("S"),
        WebDriverConfig::builder().build("agent".to_string()).unwrap(),
        None,
        JsonValue::empty_object(),
    )
    .unwrap()
}

fn three() -> Session {
    session(vec![("a", "x", "first"), ("b", "y", "off"), ("c", "x", "chosen")])
}

fn ids(elements: &[WebElement<Session>]) -> Vec<String> {
    elements.iter().map(|e| e.element_id.as_str().to_string()).collect()
}

fn query<'a>(s: &'a Session, by: By) -> ElementQuery<'a, Session, AnyElement> {
    s.query(by)
}

fn message(e: WebDriverError) -> String {
    match e.into_inner() {
        WebDriverErrorInner::NoSuchElement(info) => info.value.message,
        other => panic!("{:?}", other),
    }
}

#[test]
fn the_first_the_only_and_all() {
    let s = three();
    let found = query(&s, By::ClassName("x")).all(&mut OneAttempt).unwrap();
    assert_eq!(ids(&found), vec!["a", "c"]);
    let first = query(&s, By::ClassName("x")).first(&mut OneAttempt).unwrap();
    assert_eq!(first.element_id.as_str(), "a");
    let only = query(&s, By::Id("b")).single(&mut OneAttempt).unwrap();
    assert_eq!(only.element_id.as_str(), "b");
    assert!(query(&s, By::Id("z")).first_opt(&mut OneAttempt).unwrap().is_none());
    assert!(query(&s, By::Id("z")).all(&mut OneAttempt).unwrap().is_empty());
    assert!(query(&s, By::Id("z")).any(&mut OneAttempt).unwrap().is_empty());
    assert!(query(&s, By::Id("a")).any_exists(&mut OneAttempt).unwrap());
    assert!(!query(&s, By::Id("z")).any_exists(&mut OneAttempt).unwrap());
    assert!(query(&s, By::Id("z")).not_exists(&mut OneAttempt).unwrap());
    assert!(!query(&s, By::Id("a")).not_exists(&mut OneAttempt).unwrap());
}

#[test]
fn what_is_missing_is_named() {
    let s = three();
    let e = query(&s, By::Id("z")).or(By::Css(".q")).first(&mut OneAttempt).unwrap_err();
    assert_eq!(
        message(e),
        "no such element: element(s) not found using selectors: [Id(z),CSS(.q)]"
    );
    let e = query(&s, By::Id("z")).desc("a\nname").single(&mut OneAttempt).unwrap_err();
    assert_eq!(
        message(e),
        "no such element: 'a\\nname' element(s) not found using selectors: [Id(z)]"
    );
    let e = query(&s, By::ClassName("x")).desc("  ").single(&mut OneAttempt).unwrap_err();
    assert_eq!(
        message(e),
        "too many elements received; found 2 elements using selectors: [CSS(.x)]"
    );
    assert!(query(&s, By::Id("z")).any_required(&mut OneAttempt).is_err());
    assert!(query(&s, By::Id("z")).all_required(&mut OneAttempt).is_err());
    assert!(query(&s, By::Id("z")).all_from_selector_required(&mut OneAttempt).is_err());
    assert_eq!(get_elements_description(Some(1), "e"), "'e' element");
    assert_eq!(get_elements_description(Some(2), " \u{a0}\t"), "elements");
    assert_eq!(get_elements_description(None, ""), "element(s)");
    assert_eq!(
        get_elements_description(Some(0), " it's \"\u{e9}\"\\\n~"),
        r#"' it\'s \"\u{e9}\"\\\n~' elements"#
    );
}

#[test]
fn several_selectors_and_no_duplicates() {
    let s = three();
    let q = || query(&s, By::Id("c")).or(By::ClassName("x"));
    assert_eq!(ids(&q().any(&mut OneAttempt).unwrap()), vec!["c", "a"]);
    assert_eq!(ids(&q().any_required(&mut OneAttempt).unwrap()), vec!["c", "a"]);
    assert_eq!(ids(&q().all_from_selector(&mut OneAttempt).unwrap()), vec!["c"]);
    assert_eq!(ids(&q().all_required(&mut OneAttempt).unwrap()), vec!["c"]);
    assert_eq!(q().first(&mut OneAttempt).unwrap().element_id.as_str(), "c");
    let other = query(&s, By::Id("z")).or(By::Id("b"));
    assert_eq!(other.first(&mut OneAttempt).unwrap().element_id.as_str(), "b");
}

#[test]
fn found_elements_keep_their_order() {
    let s = three();
    let e = |id: &str| WebElement::new(&s, ElementId::from(id));
    let mut found = Found::new();
    assert!(found.is_empty());
    found.insert(e("b"));
    found.insert_all(vec![e("a"), e("b"), e("c")]);
    assert!(!found.is_empty());
    assert_eq!(ids(&found.into_elements()), vec!["b", "a", "c"]);
}

#[test]
fn filters() {
    let s = three();
    let left = |q: ElementQuery<Session, AnyElement>| ids(&q.all(&mut OneAttempt).unwrap());
    let all = || query(&s, By::Css("*"));
    assert_eq!(left(all()), vec!["a", "b", "c"]);
    assert_eq!(left(all().and_enabled()), vec!["a", "c"]);
    assert_eq!(left(all().and_not_enabled()), vec!["b"]);
    assert_eq!(left(all().and_selected()), vec!["c"]);
    assert_eq!(left(all().and_not_selected()), vec!["a", "b"]);
    assert_eq!(left(all().and_displayed()), vec!["a", "b", "c"]);
    assert!(left(all().and_not_displayed()).is_empty());
    assert_eq!(left(all().and_clickable()), vec!["a", "c"]);
    assert_eq!(left(all().and_not_clickable()), vec!["b"]);
    assert_eq!(left(all().with_text("first")), vec!["a"]);
    assert_eq!(left(all().with_text(Needle::new("o").partial())), vec!["b", "c"]);
    assert_eq!(left(all().without_text("off")), vec!["a", "c"]);
    assert_eq!(left(all().with_id("b")), vec!["b"]);
    assert_eq!(left(all().without_id("b")), vec!["a", "c"]);
    assert_eq!(left(all().with_class("x")), vec!["a", "c"]);
    assert_eq!(left(all().without_class("x")), vec!["b"]);
    assert_eq!(left(all().with_tag("div")), vec!["a", "b", "c"]);
    assert!(left(all().without_tag("div")).is_empty());
    assert!(left(all().with_value("v")).is_empty());
    assert_eq!(left(all().with_attribute("class", "y")), vec!["b"]);
    assert_eq!(left(all().without_attribute("class", "y")), vec!["a", "c"]);
    assert_eq!(left(all().with_property("text", "off")), vec!["b"]);
    assert_eq!(left(all().without_property("text", "off")), vec!["a", "c"]);
    assert_eq!(left(all().with_css_property("color", "red")), vec!["a", "b", "c"]);
    assert!(left(all().without_css_property("color", "red")).is_empty());
    let both = vec![
        ("class".to_string(), Needle::new("x")),
        ("id".to_string(), Needle::new("a")),
    ];
    assert_eq!(left(all().with_attributes(both)), vec!["a"]);
    assert_eq!(left(all().with_class("x").with_text("chosen")), vec!["c"]);
}

struct Shorter(usize);

impl<'a> ElementQueryFn<'a, Session, bool> for Shorter {
    fn call(&self, arg: &WebElement<'a, Session>) -> WebDriverResult<bool> {
        Ok(arg.text()?.len() < self.0)
    }
}

#[test]
fn a_filter_of_the_caller() {
    let s = three();
    let q: ElementQuery<Session, Shorter> = s.query(By::Css("*"));
    let left = q.with_filter(Shorter(6)).all(&mut OneAttempt).unwrap();
    assert_eq!(ids(&left), vec!["a", "b"]);
}

#[test]
fn below_an_element() {
    let s = three();
    let base = WebElement::new(&s, ElementId::from("b"));
    let q: ElementQuery<Session, AnyElement> = base.query(By::ClassName("x"));
    assert_eq!(ids(&q.all(&mut OneAttempt).unwrap()), vec!["a", "c"]);
}

#[test]
fn attempts_are_made_until_something_is_found() {
    let s = three();
    s.client.empty_for.set(2);
    assert!(query(&s, By::Id("a")).first(&mut MoreAttempts { more: 1 }).is_err());
    assert_eq!(s.client.searches.get(), 2);
    s.client.empty_for.set(2);
    s.client.searches.set(0);
    let found = query(&s, By::Id("a")).first(&mut MoreAttempts { more: 5 }).unwrap();
    assert_eq!(found.element_id.as_str(), "a");
    assert_eq!(s.client.searches.get(), 3);
}

#[test]
fn an_attempt_starts_with_nothing_found() {
    let s = three();
    // The element goes after the first search.
    s.client.shown_for.set(Some(1));
    assert!(query(&s, By::Id("a")).not_exists(&mut MoreAttempts { more: 1 }).unwrap());
    assert_eq!(s.client.searches.get(), 2);
    // And when it stays until the last attempt, it is there.
    s.client.shown_for.set(Some(2));
    assert!(!query(&s, By::Id("a")).not_exists(&mut MoreAttempts { more: 1 }).unwrap());
}

#[test]
fn as_many_attempts_as_the_pace_has() {
    let s = three();
    for more in 0..4 {
        s.client.searches.set(0);
        let mut pace = MoreAttempts { more };
        assert!(query(&s, By::Id("z")).any(&mut pace).unwrap().is_empty());
        assert_eq!(s.client.searches.get(), more as u32 + 1);
        assert_eq!(pace.more, 0);
    }
}

#[test]
fn filters_ignore_errors_unless_told_not_to() {
    let s = three();
    s.client.broken.set(true);
    assert!(query(&s, By::Css("*")).and_enabled().all(&mut OneAttempt).unwrap().is_empty());
    assert!(query(&s, By::Css("*")).with_text("first").all(&mut OneAttempt).unwrap().is_empty());
    let with = |ignore: bool| {
        query(&s, By::Css("*"))
            .options(ElementQueryOptions::default().ignore_errors(ignore))
            .and_enabled()
            .all(&mut OneAttempt)
    };
    assert!(with(true).unwrap().is_empty());
    assert!(matches!(with(false).unwrap_err().as_inner(), WebDriverErrorInner::UnknownError(_)));
}

struct Watch {
    now: Cell<u64>,
    waited: RefCell<Vec<u128>>,
}

impl Clock for Watch {
    fn elapsed(&self) -> Duration {
        Duration::from_millis(self.now.get())
    }

    fn wait(&self, span: Duration) {
        self.waited.borrow_mut().push(span.as_millis());
        self.now.set(self.now.get() + span.as_millis() as u64);
    }
}

struct Watches;

impl Clocks for Watches {
    type Clock = Watch;

    fn start(&self) -> Watch {
        Watch { now: Cell::new(10), waited: RefCell::new(Vec::new()) }
    }
}

#[test]
fn a_poller_by_a_clock() {
    let s = three();
    s.client.empty_for.set(100);
    let q = query(&s, By::Id("a")).wait(Duration::from_secs(1), Duration::from_millis(400));
    let mut pace: PolledAttempts<Watch> = Polled { clocks: Watches }.start(q.poller());
    assert!(q.first(&mut pace).is_err());
    assert_eq!(*pace.clock.waited.borrow(), vec![390, 400, 400]);
    assert_eq!(s.client.searches.get(), 4);
    let q = q.nowait();
    let mut pace = Polled { clocks: Watches }.start(q.poller());
    assert!(!pace.next_attempt());
    s.client.searches.set(0);
    assert!(q.first(&mut pace).is_err());
    assert_eq!(s.client.searches.get(), 1);
    let q = q.with_poller(SessionPoller::NoWait(ElementPollerNoWait));
    assert!(matches!(q.poller(), SessionPoller::NoWait(_)));
}

#[test]
fn options_of_a_query() {
    let s = three();
    let options = ElementQueryOptions::default()
        .description("thing")
        .ignore_errors(false)
        .wait(ElementQueryWaitOptions::NoWait);
    let q = query(&s, By::Id("z")).options(options);
    assert!(matches!(q.poller(), SessionPoller::NoWait(_)));
    let e = q.first(&mut OneAttempt).unwrap_err();
    assert_eq!(
        message(e),
        "no such element: 'thing' element(s) not found using selectors: [Id(z)]"
    );
}

#[test]
fn errors_are_ignored_or_not() {
    let s = three();
    let e = WebElement::new(&s, ElementId::from("gone"));
    assert!(!element_is_enabled(true).check(&e).unwrap());
    assert!(element_is_enabled(false).check(&e).is_err());
    assert!(!element_is_not_enabled(true).check(&e).unwrap());
    let error = || Err(WebDriverError::Timeout("t".to_string()));
    assert!(!handle_errors(error(), true).unwrap());
    assert!(handle_errors(error(), false).is_err());
    assert!(!negate(error(), true).unwrap());
    assert!(negate(Ok(false), false).unwrap());
    assert!(!handle_errors(Ok(false), false).unwrap());
}

#[test]
fn conditions_on_an_element() {
    let s = three();
    let a = WebElement::new(&s, ElementId::from("a"));
    let holds = |c: Condition| c.check(&a).unwrap();
    assert!(holds(element_is_displayed(false)));
    assert!(holds(element_is_clickable(false)));
    assert!(!holds(element_is_selected(false)));
    assert!(holds(element_has_id("a", false)));
    assert!(holds(element_has_tag("div", false)));
    assert!(holds(element_has_class(Needle::new("X").case_insensitive(), false)));
    assert!(!holds(element_has_class("X", false)));
    assert!(holds(element_lacks_class("X", false)));
    assert!(holds(element_has_text("first", false)));
    assert!(!holds(element_lacks_text("first", false)));
    assert!(!holds(element_has_value("v", false)));
    assert!(holds(element_has_attribute("class", "x", false)));
    assert!(holds(element_has_property("text", "first", false)));
    assert!(holds(element_has_css_property("color", "red", false)));
    // What is not there does not match.
    assert!(!holds(element_has_attribute("title", "t", false)));
    assert!(holds(element_lacks_attribute("title", "t", false)));
    assert!(holds(element_lacks_property("title", "t", false)));
}

#[test]
fn needles() {
    assert!(Needle::new("a").is_match("a"));
    assert!(!Needle::new("a").is_match("A"));
    assert!(!Needle::new("a").is_match("aa"));
    assert!(Needle::new("a").partial().is_match("dad"));
    assert!(!Needle::new("A").partial().is_match("dad"));
    assert!(Needle::new("a").word().is_match("aa a aa"));
    assert!(!Needle::new("a").word().is_match("aa"));
    assert!(Needle::new("a").case_insensitive().is_match("A"));
    assert!(Needle::new("A").partial().case_insensitive().is_match("dad"));
    assert!(Needle::new("AAA AA").word().case_insensitive().is_match("aa aaa aa"));
    assert!(!Needle::new("AAA AA").word().case_insensitive().is_match("aa aaa aaa"));
    assert!(!Needle::new("a").case_insensitive().case_sensitive().is_match("A"));
    assert!(!Needle::new("a").partial().full().is_match("dad"));
    for n in [Needle::new("x y"), Needle::new("x y").partial(), Needle::new("x y").word()] {
        assert!(n.is_match("x y"));
        assert!(n.clone().case_insensitive().is_match("x y"));
    }
}

#[test]
fn a_resolver_keeps_what_it_found() {
    let s = three();
    let base = WebElement::new(&s, ElementId::from("b"));
    let mut r: ElementResolver<Session, WebElement<Session>, SingleQuery<OnlyOnce>> =
        ElementResolver::<Session, WebElement<Session>, SingleQuery<OnlyOnce>>::new_first(
            base.clone(),
            By::ClassName("x"),
            OnlyOnce,
        );
    assert_eq!(r.resolve().unwrap().element_id.as_str(), "a");
    assert_eq!(r.resolve().unwrap().element_id.as_str(), "a");
    assert_eq!(s.client.searches.get(), 1);
    assert_eq!(r.validate().unwrap().unwrap().element_id.as_str(), "a");
    assert_eq!(r.resolve_present().unwrap().element_id.as_str(), "a");
    assert_eq!(s.client.searches.get(), 1);
    // The element goes.
    s.client.items.borrow_mut().remove(0);
    assert!(r.validate().unwrap().is_none());
    assert_eq!(r.resolve().unwrap().element_id.as_str(), "a");
    assert_eq!(r.resolve_present().unwrap().element_id.as_str(), "c");
    assert_eq!(s.client.searches.get(), 2);
    r.invalidate();
    assert!(r.validate().unwrap().is_none());
    assert_eq!(r.resolve_force().unwrap().element_id.as_str(), "c");
    assert_eq!(s.client.searches.get(), 3);
    s.client.fails.set(true);
    assert!(r.validate().is_err());
    assert!(r.resolve_force().is_err());
    s.client.fails.set(false);
    assert_eq!(r.resolve().unwrap().element_id.as_str(), "c");
}

struct Entry<'a> {
    base: WebElement<'a, Session>,
}

impl<'a> Clone for Entry<'a> {
    fn clone(&self) -> Self {
        Entry { base: self.base.clone() }
    }
}

impl<'a> Component for Entry<'a> {
    type Base = WebElement<'a, Session>;

    fn from_element(element: WebElement<'a, Session>) -> Self {
        Entry { base: element }
    }

    fn base_element(&self) -> WebElement<'a, Session> {
        self.base.clone()
    }
}

#[test]
fn a_resolver_of_components() {
    let s = three();
    let base = WebElement::new(&s, ElementId::from("b"));
    let mut one = ElementResolver::<Session, Entry, ComponentQuery<OnlyOnce>>::new_single(
        base.clone(),
        By::Id("c"),
        OnlyOnce,
    );
    assert_eq!(one.resolve().unwrap().base_element().element_id.as_str(), "c");
    assert_eq!(one.validate().unwrap().unwrap().base.element_id.as_str(), "c");
    assert_eq!(one.resolve_present().unwrap().base.element_id.as_str(), "c");
    assert_eq!(s.client.searches.get(), 1);
    let mut none = ElementResolver::<Session, Entry, ComponentQuery<OnlyOnce>>::new_single(
        base,
        By::ClassName("x"),
        OnlyOnce,
    );
    assert!(none.resolve().is_err());
    // The element goes, and with it the component.
    s.client.items.borrow_mut().pop();
    assert!(one.validate().unwrap().is_none());
    assert!(one.resolve_present().is_err());
    assert_eq!(s.client.searches.get(), 3);
}

/// A page that has other things at every look.
struct Changing {
    pages: Vec<Vec<u8>>,
    looks: usize,
}

impl Looks<u8> for Changing {
    fn looked(_: Self, _: Self, _: WebDriverResult<Look<u8>>) -> bool {
        unreachable!()
    }

    fn look(&mut self) -> WebDriverResult<Look<u8>> {
        self.looks += 1;
        match self.pages.get(self.looks - 1) {
            Some(found) => Ok(Look::Through(found.clone())),
            None => Err(WebDriverError::Timeout("t".to_string())),
        }
    }
}

#[test]
fn every_attempt_looks_at_the_page_again() {
    let after = |pages: Vec<Vec<u8>>, more: u32, stop_on_miss: bool| {
        let mut page = Changing { pages, looks: 0 };
        let r = poll_until(&mut page, &mut MoreAttempts { more }, stop_on_miss);
        (r.ok(), page.looks)
    };
    let pages = || vec![vec![], vec![], vec![7], vec![8]];
    assert_eq!(after(pages(), 9, false), (Some(vec![7]), 3));
    assert_eq!(after(pages(), 1, false), (Some(vec![]), 2));
    let pages = || vec![vec![1], vec![2], vec![]];
    assert_eq!(after(pages(), 9, true), (Some(vec![]), 3));
    assert_eq!(after(pages(), 1, true), (Some(vec![2]), 2));
    assert_eq!(after(vec![vec![]], 9, false), (None, 2));
}

#[test]
fn a_query_waits_as_its_own_poller_says() {
    let mut s = three();
    s.set_poller(SessionPoller::NoWait(ElementPollerNoWait));
    let pacing = Polled { clocks: Watches };
    let searches = |q: ElementQuery<Session, AnyElement>| {
        s.client.searches.set(0);
        s.client.empty_for.set(100);
        assert!(q.paced(&pacing).first().is_err());
        s.client.searches.get()
    };
    // The session's poller, and then the query's own one.
    assert_eq!(searches(query(&s, By::Id("a"))), 1);
    let patient = || {
        let options = ElementQueryOptions::default().wait(ElementQueryWaitOptions::Wait {
            timeout: Duration::from_secs(1),
            interval: Duration::from_millis(400),
        });
        query(&s, By::Id("a")).options(options)
    };
    assert_eq!(searches(patient()), 4);
    assert_eq!(searches(patient().nowait()), 1);
    s.client.empty_for.set(2);
    assert_eq!(patient().paced(&pacing).single().unwrap().element_id.as_str(), "a");
    s.client.empty_for.set(0);
    let q = query(&s, By::ClassName("x"));
    let paced = q.paced(&pacing);
    assert!(paced.any_exists().unwrap());
    assert!(!paced.not_exists().unwrap());
    assert_eq!(paced.first_opt().unwrap().unwrap().element_id.as_str(), "a");
    assert_eq!(ids(&paced.any().unwrap()), vec!["a", "c"]);
    assert_eq!(ids(&paced.any_required().unwrap()), vec!["a", "c"]);
    assert_eq!(ids(&paced.all().unwrap()), vec!["a", "c"]);
    assert_eq!(ids(&paced.all_from_selector().unwrap()), vec!["a", "c"]);
    assert_eq!(ids(&paced.all_required().unwrap()), vec!["a", "c"]);
    assert_eq!(ids(&paced.all_from_selector_required().unwrap()), vec!["a", "c"]);
}

#[test]
fn a_copy_of_a_resolver_keeps_for_itself() {
    let s = three();
    let base = WebElement::new(&s, ElementId::from("b"));
    let mut one = ElementResolver::<Session, Entry, ComponentQuery<OnlyOnce>>::new_first(
        base,
        By::ClassName("x"),
        OnlyOnce,
    );
    let mut early = one.clone();
    one.resolve().unwrap();
    assert_eq!(s.client.searches.get(), 1);
    let mut late = one.clone();
    assert_eq!(late.resolve().unwrap().base.element_id.as_str(), "a");
    assert_eq!(s.client.searches.get(), 1);
    assert_eq!(early.resolve().unwrap().base.element_id.as_str(), "a");
    assert_eq!(s.client.searches.get(), 2);
    late.invalidate();
    assert!(late.validate().unwrap().is_none());
    assert!(one.validate().unwrap().is_some());
}
