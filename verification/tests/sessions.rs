//! Sessions: how they start and end, what is sent, and what the answers become.
use std::cell::{Cell, RefCell};
use std::collections::VecDeque;
use std::rc::Rc;
use thirtyfour::action_chain::ActionChain;
use thirtyfour::address::{choose_navigation, located_address, navigation_address, ServerUrl, UrlFault};
use thirtyfour::command::{By, Command, CommandView, FormatRequestData};
use thirtyfour::config::{header_text, SessionPoller, WebDriverConfig};
use thirtyfour::connection::{
    HttpClient, HttpResponse, NullDriverSync, NullHttpClient, RemoteConnectionSync,
    WebDriverHttpClientSync,
};
use thirtyfour::driver::Line;
use thirtyfour::duration::Duration;
use thirtyfour::error::{WebDriverError, WebDriverErrorInfo, WebDriverErrorInner, WebDriverResult};
use thirtyfour::firefox::FirefoxTools;
use thirtyfour::http::{build_headers, HttpRequest};
use thirtyfour::json::JsonValue;
use thirtyfour::keys::Key;
use thirtyfour::manager::{Host, Mirror, WebDriverManager};
use thirtyfour::poller::{ElementPollerNoWait, ElementPollerWithTimeout};
use thirtyfour::reply::{convert_json, reply_value};
use thirtyfour::query::{AnyElement, ElementQuery, ElementQueryable};
use thirtyfour::session::{
    end_session, AlreadyQuit, DriverGuard, Ending, NoGuard, SessionHandle,
};
use thirtyfour::switch_to::{find_window, work_in_tab, Task};
use thirtyfour::text::trim_end;
use thirtyfour::types::{ElementId, SessionId};
use thirtyfour::webdriver::{
    CreateHttpClient, GenericWebDriver, HttpClientCreateParams, RequestedCapabilities,
    WebDriverBuilder,
};
use thirtyfour::webdrivercommands::{
    after_new_session, is_worth_retrying, read_new_session, SessionStep, WebDriverCommands,
};
use thirtyfour::webelement::{property_of, WebElement};

/// A server that answers with what it was given, one after the other, and notes what it was asked.
#[derive(Debug)]
struct Script {
    answers: RefCell<VecDeque<(u16, String)>>,
    asked: RefCell<Vec<String>>,
    headers: RefCell<Vec<(String, String)>>,
}

fn script(answers: &[(u16, &str)]) -> Script {
    Script {
        answers: RefCell::new(answers.iter().map(|(s, b)| (*s, b.to_string())).collect()),
        asked: RefCell::new(Vec::new()),
        headers: RefCell::new(Vec::new()),
    }
}

impl Script {
    fn next(&self, asked: String) -> (u16, String) {
        self.asked.borrow_mut().push(asked);
        self.answers.borrow_mut().pop_front().expect("no more answers")
    }
}

impl HttpClient for Script {
    fn send(&self, request: HttpRequest) -> WebDriverResult<HttpResponse> {
        *self.headers.borrow_mut() = request.headers;
        let (status, body) = self.next(format!("{} {}", request.method.to_text(), request.url));
        Ok(HttpResponse { status, body: body.into_bytes() })
    }
}

impl RemoteConnectionSync for Script {
    fn execute(&self, session_id: &SessionId, command: Command) -> WebDriverResult<JsonValue> {
        let (status, body) = self.next(command.format_request(session_id).to_text());
        if status == 200 {
            Ok(JsonValue::parse(&body).unwrap())
        } else {
            Err(WebDriverError::parse(status, body))
        }
    }
}

fn config() -> WebDriverConfig {
    WebDriverConfig::builder().build("agent".to_string()).unwrap()
}

fn handle_at<G>(server: &str, client: Script, guard: Option<G>) -> SessionHandle<Script, G> {
    SessionHandle::new_with_config_guard_and_caps(
        client,
        server,
        SessionId::from("S"),
        config(),
        guard,
        JsonValue::parse(r#"{"browserName": "b"}"#).unwrap(),
    )
    .unwrap()
}

fn handle(answers: &[(u16, &str)]) -> SessionHandle<Script, NoGuard> {
    handle_at("http://localhost:4444", script(answers), None)
}

const NULL: (u16, &str) = (200, "{\"value\":null}");

type Shared = Rc<RefCell<SessionHandle<Script, NoGuard>>>;

/// A driver whose clones have one handle.
fn test_driver() -> Shared {
    let mut h = handle(&[]);
    h.leak().unwrap();
    Rc::new(RefCell::new(h))
}

fn polls_once(poller: &SessionPoller) -> bool {
    matches!(poller, SessionPoller::NoWait(_))
}

#[test]
fn config_updates_are_shared_by_driver_clones() {
    let driver = test_driver();
    let clone = Rc::clone(&driver);

    driver.borrow_mut().set_poller(SessionPoller::NoWait(ElementPollerNoWait));

    let config = clone.borrow().config().clone();
    assert!(polls_once(&config.poller));
    assert_eq!(config.reqwest_timeout.as_millis(), 120000);

    let replacement = WebDriverConfig::builder()
        .keep_alive(false)
        .poller(SessionPoller::WithTimeout(ElementPollerWithTimeout::default()))
        .reqwest_timeout(Duration::from_secs(42))
        .build("agent".to_string())
        .unwrap();

    clone.borrow_mut().set_config(replacement);

    let config = driver.borrow().config().clone();
    assert!(!config.keep_alive);
    assert_eq!(config.reqwest_timeout.as_millis(), 42000);
    assert!(!polls_once(&config.poller));
}

#[test]
fn session_handle_setters_update_the_shared_config() {
    let driver = test_driver();
    let handle = Rc::clone(&driver);

    handle.borrow_mut().set_poller(SessionPoller::NoWait(ElementPollerNoWait));
    assert!(polls_once(&driver.borrow().config().poller));
    // The elements of the session have the same configuration.
    {
        let h = driver.borrow();
        let e = WebElement::new(&*h, ElementId::from("E"));
        let q: ElementQuery<SessionHandle<Script, NoGuard>, AnyElement> = e.query(By::Id("x"));
        assert!(polls_once(q.poller()));
    }

    let replacement = WebDriverConfig::builder()
        .keep_alive(false)
        .reqwest_timeout(Duration::from_secs(7))
        .build("agent".to_string())
        .unwrap();
    handle.borrow_mut().set_config(replacement);

    let config = driver.borrow().config().clone();
    assert!(!config.keep_alive);
    assert_eq!(config.reqwest_timeout.as_millis(), 7000);
}

#[test]
fn texts_that_a_header_can_hold() {
    for text in ["me", "", "a b\tc", "\u{e9}\u{80}", "~ "] {
        assert_eq!(header_text(text).unwrap(), text);
    }
    for text in ["a\nb", "\r", "\u{7f}", "a\u{0}"] {
        assert_eq!(
            header_text(text).unwrap_err().as_inner().to_text(),
            "parse error: failed to parse header value"
        );
    }
}

#[test]
fn the_configuration_of_a_session() {
    let c = config();
    assert!(c.keep_alive);
    assert_eq!(c.user_agent, "agent");
    assert_eq!(c.reqwest_timeout.as_millis(), 120000);
    assert!(matches!(c.poller, SessionPoller::WithTimeout(_)));
    assert_eq!(
        WebDriverConfig::default_user_agent("1.0", "1.80", "linux"),
        "thirtyfour/1.0 (rust/1.80; linux)"
    );
    let named = WebDriverConfig::builder().user_agent(Ok("me".to_string()));
    assert_eq!(named.build("agent".to_string()).unwrap().user_agent, "me");
    let bad = WebDriverConfig::builder().user_agent(Err(WebDriverError::HttpError("h".to_string())));
    let e = bad.build("agent".to_string()).unwrap_err();
    assert!(matches!(e.as_inner(), WebDriverErrorInner::HttpError(_)));
}

struct Counted<'a> {
    released: &'a Cell<u32>,
    fails: bool,
}

impl<'a> DriverGuard for Counted<'a> {
    fn release(&self) -> WebDriverResult<()> {
        self.released.set(self.released.get() + 1);
        if self.fails {
            Err(WebDriverError::IoError("busy".to_string()))
        } else {
            Ok(())
        }
    }
}

#[test]
fn a_session_is_ended_once() {
    let released = Cell::new(0);
    let guard = Counted { released: &released, fails: false };
    let mut h = handle_at("http://localhost:4444", script(&[NULL]), Some(guard));
    h.quit().unwrap();
    assert_eq!(released.get(), 1);
    h.quit().unwrap();
    assert_eq!(released.get(), 2);
    assert_eq!(*h.client.asked.borrow(), vec!["DELETE http://localhost:4444/session/S"]);
    assert!(matches!(h.leak(), Err(AlreadyQuit)));
}

#[test]
fn a_session_that_does_not_end() {
    let released = Cell::new(0);
    let guard = Counted { released: &released, fails: true };
    let fault = (500, "{\"value\":{\"error\":\"unknown error\",\"message\":\"\"}}");
    let mut h = handle_at("http://localhost:4444", script(&[fault, NULL]), Some(guard));
    assert!(h.quit().is_err());
    assert_eq!(released.get(), 0);
    let e = h.quit().unwrap_err();
    assert!(matches!(e.as_inner(), WebDriverErrorInner::IoError(_)));
    assert_eq!(released.get(), 1);
    assert_eq!(h.client.asked.borrow().len(), 2);
}

#[test]
fn a_session_that_is_left_alone() {
    let mut h = handle(&[]);
    h.leak().unwrap();
    h.quit().unwrap();
    assert!(h.client.asked.borrow().is_empty());
    assert_eq!(h.session_id().as_str(), "S");
    assert_eq!(h.server_url(), "http://localhost:4444/");
    assert_eq!(h.capabilities().get("browserName").unwrap().as_str(), Some("b"));
}

#[test]
fn an_address_that_is_none() {
    let r: WebDriverResult<SessionHandle<Script, NoGuard>> =
        SessionHandle::new_with_config_guard_and_caps(
            script(&[]),
            "not an address",
            SessionId::from("S"),
            config(),
            None,
            JsonValue::Null,
        );
    let e = r.unwrap_err();
    assert_eq!(
        e.as_inner().to_text(),
        "parse error: url parse err relative URL without a base"
    );
}

#[test]
fn headers() {
    let h = handle_at::<NoGuard>("http://user:pw@localhost:4444", script(&[NULL]), None);
    h.refresh().unwrap();
    let sent = h.client.headers.borrow().clone();
    let get = |name: &str| {
        sent.iter().find(|(n, _)| n == name).map(|(_, v)| v.as_str()).unwrap_or("").to_string()
    };
    assert_eq!(get("accept"), "application/json");
    assert_eq!(get("content-type"), "application/json;charset=UTF-8");
    assert_eq!(get("user-agent"), "agent");
    assert_eq!(get("authorization"), "Basic dXNlcjpwdw==");
    assert_eq!(get("connection"), "keep-alive");
    let bare = build_headers("", None, "agent", false);
    assert_eq!(bare.len(), 3);
    let no_password = build_headers("user", None, "agent", false);
    assert_eq!(no_password[3].1, "Basic dXNlcjo=");
}

#[test]
fn addresses() {
    let s = ServerUrl::parse("http://h/base/").unwrap();
    assert_eq!(s.join("session").unwrap(), "http://h/base/session");
    assert_eq!(s.join("/status").unwrap(), "http://h/status");
    assert_eq!(s.username(), "");
    assert!(s.password().is_none());
    assert_eq!(navigation_address("http://h".to_string()).unwrap(), "http://h");
    assert_eq!(navigation_address("h/path".to_string()).unwrap(), "https://h/path");
    let e = navigation_address("http://[".to_string()).unwrap_err();
    assert!(matches!(e.as_inner(), WebDriverErrorInner::InvalidUrl(_)));
    assert_eq!(located_address("http://h".to_string()).unwrap(), "http://h/");
    let e = located_address("h".to_string()).unwrap_err();
    assert_eq!(
        e.as_inner().to_text(),
        "parse error: invalid url: h: relative URL without a base"
    );
    let fault = |relative: bool| Err(UrlFault { relative, message: "m".to_string() });
    let text = || "t".to_string();
    assert_eq!(choose_navigation(text(), Ok(()), fault(true)).unwrap(), "t");
    assert_eq!(choose_navigation(text(), fault(true), Ok(())).unwrap(), "https://t");
    assert!(choose_navigation(text(), fault(false), Ok(())).is_err());
    assert!(choose_navigation(text(), fault(true), fault(false)).is_err());
    for text in ["http://h/wd", "http://h/wd/", "http://h/wd//"] {
        let d = ServerUrl::directory(text).unwrap();
        assert_eq!(d.join("session").unwrap(), "http://h/wd/session");
    }
    assert_eq!(
        ServerUrl::directory("///").unwrap_err().as_inner().to_text(),
        "parse error: url parse err relative URL without a base"
    );
    assert_eq!(trim_end("/a//", '/'), "/a");
    assert_eq!(trim_end("//", '/'), "");
    assert_eq!(trim_end("a", '/'), "a");
}

#[test]
fn an_address_that_cannot_be_sent_to() {
    let h = handle(&[]);
    let e = h.delete_cookie("x".repeat(70000)).unwrap_err();
    assert_eq!(
        e.as_inner().to_text(),
        "Failed to send request to webdriver: invalid request body: uri too long"
    );
    assert!(h.client.asked.borrow().is_empty());
}

#[test]
fn navigation() {
    let h = handle(&[NULL, (200, "{\"value\":\"http://x\"}"), (200, "{\"value\":\"odd\"}")]);
    h.goto("x.org").unwrap();
    assert_eq!(h.current_url().unwrap(), "http://x/");
    assert!(h.current_url().is_err());
    assert_eq!(h.client.asked.borrow()[0], "POST http://localhost:4444/session/S/url");
}

#[test]
fn a_named_window_is_looked_for() {
    let quoted = |s: &str| format!("{{\"value\":\"{}\"}}", s);
    let (w1, w2, w3) = (quoted("w1"), quoted("one"), quoted("two"));
    let answers = vec![
        (200, w1.as_str()),
        (200, "{\"value\":[\"w1\",\"w2\"]}"),
        NULL,
        (200, w2.as_str()),
        NULL,
        (200, w3.as_str()),
    ];
    let h = handle(&answers);
    h.switch_to_named_window("two").unwrap();
    assert_eq!(h.client.asked.borrow().len(), 6);

    // Where there is none, the window from before is there again.
    let mut answers = answers.clone();
    answers.push(NULL);
    let h = handle(&answers);
    match h.switch_to_named_window("three").unwrap_err().into_inner() {
        WebDriverErrorInner::NoSuchWindow(info) => {
            assert_eq!(info.value.message, "unable to find named window: three")
        }
        _ => unreachable!(),
    }
    assert_eq!(h.client.asked.borrow().len(), 7);
    assert_eq!(h.client.asked.borrow()[6], "POST http://localhost:4444/session/S/window");
}

#[test]
fn a_tab_is_closed_whatever_happens_in_it() {
    let answers = [
        (200, "{\"value\":\"w1\"}"),
        (200, "{\"value\":{\"handle\":\"w2\",\"type\":\"tab\"}}"),
        NULL,
        (200, "{\"value\":[\"w1\"]}"),
        NULL,
    ];
    let h = handle(&answers);
    let r: WebDriverResult<u8> = h.in_new_tab(|| Err(WebDriverError::Timeout("t".to_string())));
    assert!(matches!(r.unwrap_err().as_inner(), WebDriverErrorInner::Timeout(_)));
    let asked = h.client.asked.borrow();
    assert_eq!(asked[3], "DELETE http://localhost:4444/session/S/window");
    assert_eq!(asked[4], "POST http://localhost:4444/session/S/window");
}

#[test]
fn a_session_is_tried_for_twice() {
    let bogus = (500, "{\"value\":{\"error\":\"unknown error\",\"message\":\"\"}}");
    let new = (200, "{\"value\":{\"sessionId\":\"S\",\"capabilities\":{\"a\":1}}}");
    let caps = || RequestedCapabilities {
        w3c: JsonValue::empty_object(),
        plain: JsonValue::empty_object(),
    };
    let d = GenericWebDriver::new_with_client(script(&[bogus, new, NULL]), caps()).unwrap();
    assert_eq!(d.session_id.as_str(), "S");
    assert_eq!(d.capabilities().to_text(), "{\"a\":1}");
    assert!(d.needs_quit());

    assert!(GenericWebDriver::new_with_client(script(&[bogus, bogus]), caps()).is_err());
    let other = (404, "{\"value\":{\"error\":\"session not created\",\"message\":\"\"}}");
    let e = GenericWebDriver::new_with_client(script(&[other]), caps()).unwrap_err();
    assert!(matches!(e.as_inner(), WebDriverErrorInner::SessionNotCreated(_)));
    let odd = GenericWebDriver::new_with_client(script(&[(200, "{\"value\":1}")]), caps());
    assert!(matches!(odd.unwrap_err().as_inner(), WebDriverErrorInner::Json(_)));

    let info = |status| WebDriverErrorInfo {
        status,
        ..WebDriverErrorInfo::new("m".to_string())
    };
    assert!(is_worth_retrying(&WebDriverError::UnknownError(info(500))));
    assert!(!is_worth_retrying(&WebDriverError::UnknownError(info(501))));
    assert!(!is_worth_retrying(&WebDriverError::NoSuchAlert(info(500))));
    let failed = |status| Err(WebDriverError::UnknownError(info(status)));
    assert!(matches!(after_new_session(false, failed(500)), SessionStep::Again));
    assert!(matches!(after_new_session(true, failed(500)), SessionStep::Fail(_)));
    assert!(matches!(after_new_session(false, failed(501)), SessionStep::Fail(_)));
    for second in [false, true] {
        let opened = after_new_session(second, Ok(JsonValue::Bool(true)));
        assert!(matches!(opened, SessionStep::Opened(JsonValue::Bool(true))));
    }
}

#[test]
fn the_driver_is_quit() {
    let new = (200, "{\"session_id\":\"T\",\"value\":{\"sessionId\":\"S\"}}");
    let caps = RequestedCapabilities { w3c: JsonValue::Null, plain: JsonValue::Null };
    let fault = (500, "{}");
    let mut d =
        GenericWebDriver::new_with_client(script(&[new, NULL, fault, NULL]), caps).unwrap();
    assert_eq!(d.session_id.as_str(), "T");
    assert!(d.quit().is_err());
    assert!(d.needs_quit());
    d.quit().unwrap();
    assert!(!d.needs_quit());
    let v = JsonValue::parse("{\"value\":{}}").unwrap();
    assert_eq!(read_new_session(&v).unwrap().0.as_str(), "");
    assert!(read_new_session(&JsonValue::Null).is_none());
}

#[derive(Debug)]
struct Made {
    params: HttpClientCreateParams,
}

impl RemoteConnectionSync for Made {
    fn execute(&self, _: &SessionId, _: Command) -> WebDriverResult<JsonValue> {
        let millis = self.params.timeout.map(|d| d.as_millis());
        assert_eq!(self.params.server_url, "http://s");
        let text = format!("{{\"value\":{{\"sessionId\":\"{:?}\"}}}}", millis);
        Ok(JsonValue::parse(&text).unwrap())
    }
}

impl CreateHttpClient for Made {
    fn create(params: HttpClientCreateParams) -> WebDriverResult<Self> {
        Ok(Made { params })
    }
}

#[test]
fn a_driver_is_built() {
    let caps = || Ok(RequestedCapabilities { w3c: JsonValue::Null, plain: JsonValue::Null });
    let d = WebDriverBuilder::new("http://s", caps()).build_custom_client::<Made>().unwrap();
    assert_eq!(d.session_id.as_str(), "Some(120000)");
    let d = WebDriverBuilder::new("http://s", caps()).timeout(None).build_custom_client::<Made>();
    assert_eq!(d.unwrap().session_id.as_str(), "None");
    let d = GenericWebDriver::<Made>::new_with_timeout(
        "http://s",
        caps(),
        Some(Duration::from_secs(1)),
    );
    assert_eq!(d.unwrap().session_id.as_str(), "Some(1000)");
    let none = WebDriverBuilder::new("http://s", Err("bad caps".to_string()));
    let e = none.build_custom_client::<Made>().unwrap_err();
    assert!(matches!(e.as_inner(), WebDriverErrorInner::SessionCreateError(m) if m == "bad caps"));
}

#[test]
fn clients_that_send_nothing() {
    let request = HttpRequest {
        method: thirtyfour::request::Method::GET,
        url: String::new(),
        headers: vec![],
        body: None,
    };
    let e = NullHttpClient.send(request).unwrap_err();
    assert!(matches!(e.as_inner(), WebDriverErrorInner::RequestFailed(_)));
    let null = <NullDriverSync as WebDriverHttpClientSync>::create("http://s").unwrap();
    assert!(null.execute(&SessionId::null(), Command::Status).unwrap().is_null());
}

/// A connection that keeps the body of the last command.
#[derive(Debug)]
struct Kept<'a> {
    body: &'a RefCell<String>,
}

impl<'a> RemoteConnectionSync for Kept<'a> {
    fn execute(&self, session_id: &SessionId, command: Command) -> WebDriverResult<JsonValue> {
        let request = command.format_request(session_id);
        *self.body.borrow_mut() = match request.body {
            Some(b) => b.to_text(),
            None => String::new(),
        };
        Ok(JsonValue::parse("{\"value\":{\"sessionId\":\"S\"}}").unwrap())
    }
}

#[test]
fn the_sources_of_a_chain_stay_in_step() {
    let caps = RequestedCapabilities { w3c: JsonValue::Null, plain: JsonValue::Null };
    let body = RefCell::new(String::new());
    let d = GenericWebDriver::new_with_client(Kept { body: &body }, caps).unwrap();
    let s = d.session();
    let e = WebElement::new(&s, ElementId::from("E"));
    let f = WebElement::new(&s, ElementId::from("F"));
    let chain: ActionChain<_> = s
        .action_chain()
        .move_to_element_center(&e)
        .click()
        .key_down(Key::Shift)
        .send_keys("ab")
        .key_up(Key::Shift)
        .context_click_element(&f)
        .drag_and_drop_element(&e, &f)
        .double_click();
    chain.perform().unwrap();
    let sent: serde_json::Value = serde_json::from_str(&body.borrow()).unwrap();
    let sources = sent["actions"].as_array().unwrap();
    assert_eq!(sources.len(), 2);
    let count = |i: usize| sources[i]["actions"].as_array().unwrap().len();
    assert_eq!(count(0), count(1));
    for tick in 0..count(0) {
        let acting = sources.iter().filter(|s| s["actions"][tick]["type"] != "pause").count();
        assert!(acting <= 1, "{}", tick);
    }
}

#[test]
fn replies() {
    let v = JsonValue::parse("{\"value\":[\"a\",\"b\"]}").unwrap();
    let texts: Vec<String> = convert_json(&reply_value(&v)).unwrap();
    assert_eq!(texts, vec!["a", "b"]);
    let e = convert_json::<u64>(&reply_value(&v)).unwrap_err();
    assert!(matches!(e.as_inner(), WebDriverErrorInner::Json(_)));
    assert_eq!(convert_json::<i64>(&JsonValue::Signed(-1)).unwrap(), -1);
    assert!(convert_json::<u64>(&JsonValue::Signed(-1)).is_err());
    assert_eq!(property_of(&JsonValue::text("t")).unwrap(), "t");
    assert!(property_of(&JsonValue::Null).is_none());
    assert_eq!(property_of(&JsonValue::Bool(true)).unwrap(), "true");
}

#[test]
fn tools_of_firefox() {
    let h = handle(&[NULL, (200, "{\"value\":\"SGVsbG8=\"}")]);
    let tools = FirefoxTools::new(&h);
    tools.install_addon("p.xpi", None).unwrap();
    assert_eq!(tools.full_screenshot_as_png().unwrap(), b"Hello");
    let asked = h.client.asked.borrow();
    assert_eq!(asked[0], "POST http://localhost:4444/session/S/moz/addon/install");
    assert_eq!(asked[1], "GET http://localhost:4444/session/S/moz/screenshot/full");
}

const ELEMENT: (u16, &str) = (200, r#"{"value":{"element-6066-11e4-a52e-4f735466cecf":"e1"}}"#);

#[test]
fn what_a_session_asks_for() {
    let h = handle(&[
        (200, r#"{"value":[{"element-6066-11e4-a52e-4f735466cecf":"e1"}]}"#),
        NULL,
        (200, r#"{"value":[{"name":"a","value":"1"}]}"#),
        (200, r#"{"value":{"name":"a","value":"1"}}"#),
        (200, r#"{"value":["browser","driver"]}"#),
        (200, r#"{"value":"sure?"}"#),
        NULL,
        NULL,
        NULL,
        NULL,
        ELEMENT,
    ]);
    let found = h.find_all(By::Css("a")).unwrap();
    assert_eq!(found.len(), 1);
    assert_eq!(found[0].element_id.as_str(), "e1");
    h.set_implicit_wait_timeout(Duration::from_secs(1)).unwrap();
    let cookies = h.get_all_cookies().unwrap();
    assert_eq!(cookies.len(), 1);
    assert_eq!(cookies[0].name, "a");
    assert_eq!(h.get_named_cookie("a").unwrap().name, "a");
    assert_eq!(h.get_log_types().unwrap(), vec!["browser".to_string(), "driver".to_string()]);
    assert_eq!(h.get_alert_text().unwrap(), "sure?");
    h.dismiss_alert().unwrap();
    h.accept_alert().unwrap();
    h.send_alert_text("yes").unwrap();
    h.enter_default_frame().unwrap();
    assert_eq!(h.active_element().unwrap().element_id.as_str(), "e1");
    let asked: Vec<String> = h
        .client
        .asked
        .borrow()
        .iter()
        .map(|a| a.replace("http://localhost:4444/session/S", ""))
        .collect();
    assert_eq!(
        asked,
        vec![
            "POST /elements",
            "POST /timeouts",
            "GET /cookie",
            "GET /cookie/a",
            "GET /log/types",
            "GET /alert/text",
            "POST /alert/dismiss",
            "POST /alert/accept",
            "POST /alert/text",
            "POST /frame",
            "GET /element/active",
        ]
    );
}

#[test]
fn what_an_element_asks_for() {
    let h = handle(&[
        NULL,
        NULL,
        (200, r#"{"value":"<b>x</b>"}"#),
        (200, r#"{"value":"<a><b>x</b></a>"}"#),
    ]);
    let e = WebElement::new(&h, ElementId::from("e1"));
    e.focus().unwrap();
    e.scroll_into_view().unwrap();
    assert_eq!(e.inner_html().unwrap(), "<b>x</b>");
    assert_eq!(e.outer_html().unwrap(), "<a><b>x</b></a>");
    let asked: Vec<String> = h
        .client
        .asked
        .borrow()
        .iter()
        .map(|a| a.replace("http://localhost:4444/session/S", ""))
        .collect();
    assert_eq!(
        asked,
        vec![
            "POST /execute/sync",
            "POST /execute/sync",
            "GET /element/e1/property/innerHTML",
            "GET /element/e1/property/outerHTML",
        ]
    );
}

#[test]
fn a_session_is_launched() {
    let new = (200, r#"{"value":{"sessionId":"S","capabilities":{"a":1}}}"#);
    let caps = || RequestedCapabilities {
        w3c: JsonValue::empty_object(),
        plain: JsonValue::empty_object(),
    };
    let mirror = || Mirror {
        chrome_metadata: String::new(),
        geckodriver_downloads: String::new(),
        edge_downloads: String::new(),
    };
    let conn = script(&[new, NULL]);
    let manager = WebDriverManager::builder(config()).build(String::new(), mirror());
    let h = manager.launch(4444, &conn, script(&[]), caps(), NoGuard).unwrap();
    assert_eq!(h.session_id().as_str(), "S");
    assert_eq!(h.capabilities().to_text(), "{\"a\":1}");
    assert_eq!(h.server_url(), "http://127.0.0.1:4444/");
    assert_eq!(h.config().user_agent, "agent");
    assert_eq!(conn.asked.borrow().len(), 2);

    let refused = script(&[(404, "{\"value\":{\"error\":\"session not created\",\"message\":\"\"}}")]);
    let e = manager.launch(4444, &refused, script(&[]), caps(), NoGuard).unwrap_err();
    assert!(matches!(e.as_inner(), WebDriverErrorInner::SessionNotCreated(_)));

    let bare = WebDriverManager::builder(config())
        .host(Host::V6("::1".to_string()))
        .build(String::new(), mirror());
    let unasked = script(&[]);
    let e = bare.launch(4444, &unasked, script(&[]), caps(), NoGuard).unwrap_err();
    match e.as_inner() {
        WebDriverErrorInner::ParseError(m) => assert!(m.starts_with("invalid driver url: "), "{}", m),
        other => panic!("{:?}", other),
    }
    assert!(unasked.asked.borrow().is_empty());
}

#[test]
fn an_element_is_dragged_by_an_offset() {
    let caps = RequestedCapabilities { w3c: JsonValue::Null, plain: JsonValue::Null };
    let body = RefCell::new(String::new());
    let d = GenericWebDriver::new_with_client(Kept { body: &body }, caps).unwrap();
    let s = d.session();
    let e = WebElement::new(&s, ElementId::from("E"));
    s.action_chain().drag_and_drop_element_by_offset(&e, 4, 3).perform().unwrap();
    let sent: serde_json::Value = serde_json::from_str(&body.borrow()).unwrap();
    let of = |kind: &str| {
        let sources = sent["actions"].as_array().unwrap();
        let source = sources.iter().find(|s| s["type"] == kind).unwrap();
        source["actions"].as_array().unwrap().clone()
    };
    let types = |kind: &str| -> Vec<String> {
        of(kind).iter().map(|a| a["type"].as_str().unwrap().to_string()).collect()
    };
    assert_eq!(
        types("pointer"),
        vec!["pointerMove", "pointerDown", "pointerMove", "pointerUp"]
    );
    assert_eq!(types("key"), vec!["pause"; 4]);
    assert_eq!(of("pointer")[2]["x"], 4);
    assert_eq!(of("pointer")[2]["y"], 3);
    assert_eq!(of("pointer")[2]["origin"], "pointer");
}

/// Windows by their handles and names, and what was asked of them.
struct Windows {
    open: Vec<(&'static str, &'static str)>,
    at: usize,
    said: Vec<String>,
}

fn windows() -> Windows {
    Windows { open: vec![("w1", "one"), ("w2", "two"), ("w3", "three")], at: 0, said: Vec::new() }
}

impl Line for Windows {
    fn said(_: Self, _: Self, _: CommandView, _: WebDriverResult<JsonValue>) -> bool {
        unreachable!()
    }

    fn say(&mut self, command: Command) -> WebDriverResult<JsonValue> {
        let (said, value) = match command {
            Command::GetWindowHandle => ("handle".to_string(), format!("{:?}", self.open[self.at].0)),
            Command::GetWindowHandles => {
                let all: Vec<&str> = self.open.iter().map(|w| w.0).collect();
                ("handles".to_string(), format!("{:?}", all))
            }
            Command::SwitchToWindow(h) => {
                let said = format!("to {}", h.as_str());
                match self.open.iter().position(|w| w.0 == h.as_str()) {
                    Some(i) => self.at = i,
                    None => return Err(WebDriverError::Timeout("gone".to_string())),
                }
                (said, "null".to_string())
            }
            Command::ExecuteScript(..) => ("name".to_string(), format!("{:?}", self.open[self.at].1)),
            Command::NewTab => {
                self.open.push(("t", ""));
                ("tab".to_string(), r#"{"handle":"t","type":"tab"}"#.to_string())
            }
            Command::CloseWindow => {
                self.open.remove(self.at);
                ("close".to_string(), "[]".to_string())
            }
            _ => unreachable!(),
        };
        self.said.push(said);
        Ok(JsonValue::parse(&format!("{{\"value\":{}}}", value)).unwrap())
    }
}

#[test]
fn a_named_window_is_where_the_search_ends() {
    let mut w = windows();
    find_window(&mut w, "two").unwrap();
    assert_eq!(w.at, 1);
    assert_eq!(w.said, vec!["handle", "handles", "to w1", "name", "to w2", "name"]);
    let mut w = windows();
    w.at = 1;
    assert!(find_window(&mut w, "four").is_err());
    assert_eq!(w.at, 1);
    assert_eq!(w.said.last().unwrap(), "to w2");
}

struct Noting(bool);

impl Task<Windows, usize> for Noting {
    fn ready(&self, _: Windows) -> bool {
        unreachable!()
    }

    fn done(self, _: Windows, _: Windows, _: WebDriverResult<usize>) -> bool {
        unreachable!()
    }

    fn run(self, line: &mut Windows) -> WebDriverResult<usize> {
        line.said.push("work".to_string());
        if self.0 {
            Ok(line.at)
        } else {
            Err(WebDriverError::Timeout("t".to_string()))
        }
    }
}

#[test]
fn a_tab_is_worked_in_and_left() {
    let order = vec!["handle", "tab", "to t", "work", "close", "to w2"];
    for good in [true, false] {
        let mut w = windows();
        w.at = 1;
        let r = work_in_tab(&mut w, Noting(good));
        assert_eq!(w.said, order);
        assert_eq!(w.at, 1);
        assert_eq!(w.open.len(), 3);
        match r {
            Ok(at) => assert!(good && at == 3),
            Err(e) => assert!(!good && matches!(e.as_inner(), WebDriverErrorInner::Timeout(_))),
        }
    }
}

struct Steps {
    fails: bool,
    done: Vec<&'static str>,
}

impl Ending for Steps {
    fn deleted(_: Self, _: Self, _: WebDriverResult<()>) -> bool {
        unreachable!()
    }

    fn released(_: Self, _: Self, _: WebDriverResult<()>) -> bool {
        unreachable!()
    }

    fn delete(&mut self) -> WebDriverResult<()> {
        self.done.push("delete");
        if self.fails {
            Err(WebDriverError::Timeout("t".to_string()))
        } else {
            Ok(())
        }
    }

    fn release(&mut self) -> WebDriverResult<()> {
        self.done.push("release");
        Ok(())
    }
}

#[test]
fn the_process_goes_after_the_session() {
    let mut quit = false;
    let mut steps = Steps { fails: true, done: Vec::new() };
    assert!(end_session(&mut steps, &mut quit).is_err());
    assert!(!quit);
    assert_eq!(steps.done, vec!["delete"]);
    steps = Steps { fails: false, done: Vec::new() };
    end_session(&mut steps, &mut quit).unwrap();
    assert!(quit);
    end_session(&mut steps, &mut quit).unwrap();
    assert_eq!(steps.done, vec!["delete", "release", "release"]);
}
