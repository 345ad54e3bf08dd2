//! The requests that commands are.
use thirtyfour::address::ServerUrl;
use thirtyfour::cdp::{ChromeCommand, ConnectionType, NetworkConditions};
use thirtyfour::command::{Actions, By, Command, ExtensionCommand, ExtensionView, FormatRequestData};
use thirtyfour::cookie::Cookie;
use thirtyfour::duration::Duration;
use thirtyfour::firefox::FirefoxCommand;
use thirtyfour::json::JsonValue;
use thirtyfour::keys::{Key, TypingData};
use thirtyfour::request::{Method, RequestData};
use thirtyfour::types::{ElementId, OptionRect, SessionId, TimeoutConfiguration, WindowHandle};

fn value(text: &str) -> serde_json::Value {
    serde_json::from_str(text).unwrap()
}

fn check_data(request: RequestData, method: Method, uri: &str, body: &str) {
    assert_eq!(request.method, method, "{}", uri);
    assert_eq!(request.uri, uri);
    match request.body {
        Some(b) => assert_eq!(value(&b.to_text()), value(body), "{}", uri),
        None => assert_eq!(body, "", "{}", uri),
    }
}

fn check(command: Command, method: Method, uri: &str, body: &str) {
    check_data(command.format_request(&SessionId::from("S")), method, uri, body);
}

fn e() -> ElementId {
    ElementId::from("E")
}

fn t() -> TypingData {
    TypingData::from(Key::Enter + "a")
}

#[test]
fn session_commands() {
    let caps = JsonValue::parse(r#"{"browserName": "b"}"#).unwrap();
    check(
        Command::NewSession(JsonValue::empty_object(), caps),
        Method::POST,
        "session",
        r#"{"capabilities": {}, "desiredCapabilities": {"browserName": "b"}}"#,
    );
    check(Command::DeleteSession, Method::DELETE, "session/S", "");
    check(Command::Status, Method::GET, "/status", "");
    check(Command::GetTimeouts, Method::GET, "session/S/timeouts", "");
    check(
        Command::SetTimeouts(TimeoutConfiguration::new(None, Some(Duration::from_secs(1)), None)),
        Method::POST,
        "session/S/timeouts",
        r#"{"pageLoad": 1000}"#,
    );
    check(
        Command::NavigateTo("http://x/".to_string()),
        Method::POST,
        "session/S/url",
        r#"{"url": "http://x/"}"#,
    );
    check(Command::GetCurrentUrl, Method::GET, "session/S/url", "");
    check(Command::Back, Method::POST, "session/S/back", "{}");
    check(Command::Forward, Method::POST, "session/S/forward", "{}");
    check(Command::Refresh, Method::POST, "session/S/refresh", "{}");
    check(Command::GetTitle, Method::GET, "session/S/title", "");
    check(Command::GetPageSource, Method::GET, "session/S/source", "");
}

#[test]
fn window_commands() {
    check(Command::GetWindowHandle, Method::GET, "session/S/window", "");
    check(Command::CloseWindow, Method::DELETE, "session/S/window", "");
    check(
        Command::SwitchToWindow(WindowHandle::from("W")),
        Method::POST,
        "session/S/window",
        r#"{"handle": "W"}"#,
    );
    check(Command::GetWindowHandles, Method::GET, "session/S/window/handles", "");
    check(Command::NewWindow, Method::POST, "session/S/window/new", r#"{"type": "window"}"#);
    check(Command::NewTab, Method::POST, "session/S/window/new", r#"{"type": "tab"}"#);
    check(Command::SwitchToFrameDefault, Method::POST, "session/S/frame", r#"{"id": null}"#);
    check(Command::SwitchToFrameNumber(3), Method::POST, "session/S/frame", r#"{"id": 3}"#);
    check(
        Command::SwitchToFrameElement(e()),
        Method::POST,
        "session/S/frame",
        r#"{"id": {"ELEMENT": "E", "element-6066-11e4-a52e-4f735466cecf": "E"}}"#,
    );
    check(Command::SwitchToParentFrame, Method::POST, "session/S/frame/parent", "{}");
    check(Command::GetWindowRect, Method::GET, "session/S/window/rect", "");
    check(
        Command::SetWindowRect(OptionRect::new().with_pos(1, 2)),
        Method::POST,
        "session/S/window/rect",
        r#"{"x": 1, "y": 2, "width": null, "height": null}"#,
    );
    check(Command::MaximizeWindow, Method::POST, "session/S/window/maximize", "{}");
    check(Command::MinimizeWindow, Method::POST, "session/S/window/minimize", "{}");
    check(Command::FullscreenWindow, Method::POST, "session/S/window/fullscreen", "{}");
}

#[test]
fn element_commands() {
    check(Command::GetActiveElement, Method::GET, "session/S/element/active", "");
    check(
        Command::FindElement(By::Css("a b").into_selector()),
        Method::POST,
        "session/S/element",
        r#"{"using": "css selector", "value": "a b"}"#,
    );
    check(
        Command::FindElements(By::XPath("//a").into_selector()),
        Method::POST,
        "session/S/elements",
        r#"{"using": "xpath", "value": "//a"}"#,
    );
    check(
        Command::FindElementFromElement(e(), By::LinkText("t").into_selector()),
        Method::POST,
        "session/S/element/E/element",
        r#"{"using": "link text", "value": "t"}"#,
    );
    check(
        Command::FindElementsFromElement(e(), By::PartialLinkText("t").into_selector()),
        Method::POST,
        "session/S/element/E/elements",
        r#"{"using": "partial link text", "value": "t"}"#,
    );
    check(Command::IsElementSelected(e()), Method::GET, "session/S/element/E/selected", "");
    check(Command::IsElementDisplayed(e()), Method::GET, "session/S/element/E/displayed", "");
    check(Command::IsElementEnabled(e()), Method::GET, "session/S/element/E/enabled", "");
    check(
        Command::GetElementAttribute(e(), "n".to_string()),
        Method::GET,
        "session/S/element/E/attribute/n",
        "",
    );
    check(
        Command::GetElementProperty(e(), "n".to_string()),
        Method::GET,
        "session/S/element/E/property/n",
        "",
    );
    check(
        Command::GetElementCssValue(e(), "n".to_string()),
        Method::GET,
        "session/S/element/E/css/n",
        "",
    );
    check(Command::GetElementText(e()), Method::GET, "session/S/element/E/text", "");
    check(Command::GetElementTagName(e()), Method::GET, "session/S/element/E/name", "");
    check(Command::GetElementRect(e()), Method::GET, "session/S/element/E/rect", "");
    check(Command::TakeElementScreenshot(e()), Method::GET, "session/S/element/E/screenshot", "");
    check(Command::ElementClick(e()), Method::POST, "session/S/element/E/click", "{}");
    check(Command::ElementClear(e()), Method::POST, "session/S/element/E/clear", "{}");
    check(
        Command::ElementSendKeys(e(), t()),
        Method::POST,
        "session/S/element/E/value",
        "{\"text\": \"\u{e007}a\", \"value\": [\"\u{e007}\", \"a\"]}",
    );
}

#[test]
fn document_commands() {
    check(
        Command::ExecuteScript("s".to_string(), vec![JsonValue::Unsigned(1)]),
        Method::POST,
        "session/S/execute/sync",
        r#"{"script": "s", "args": [1]}"#,
    );
    check(
        Command::ExecuteAsyncScript("s".to_string(), vec![]),
        Method::POST,
        "session/S/execute/async",
        r#"{"script": "s", "args": []}"#,
    );
    check(Command::GetAllCookies, Method::GET, "session/S/cookie", "");
    check(Command::GetNamedCookie("n".to_string()), Method::GET, "session/S/cookie/n", "");
    check(
        Command::AddCookie(Cookie::new("n", JsonValue::text("v"))),
        Method::POST,
        "session/S/cookie",
        r#"{"cookie": {"name": "n", "value": "v"}}"#,
    );
    check(Command::DeleteCookie("n".to_string()), Method::DELETE, "session/S/cookie/n", "");
    check(Command::DeleteAllCookies, Method::DELETE, "session/S/cookie", "");
    check(
        Command::PerformActions(Actions::from(JsonValue::Array(vec![]))),
        Method::POST,
        "session/S/actions",
        r#"{"actions": []}"#,
    );
    check(Command::ReleaseActions, Method::DELETE, "session/S/actions", "");
    check(Command::DismissAlert, Method::POST, "session/S/alert/dismiss", "{}");
    check(Command::AcceptAlert, Method::POST, "session/S/alert/accept", "{}");
    check(Command::GetAlertText, Method::GET, "session/S/alert/text", "");
    check(Command::GetLogTypes, Method::GET, "session/S/log/types", "");
    check(
        Command::SendAlertText(t()),
        Method::POST,
        "session/S/alert/text",
        "{\"text\": \"\u{e007}a\", \"value\": [\"\u{e007}\", \"a\"]}",
    );
    check(
        Command::PrintPage(JsonValue::empty_object()),
        Method::POST,
        "/session/S/print",
        "{}",
    );
    check(Command::TakeScreenshot, Method::GET, "session/S/screenshot", "");
}

struct Extra;

impl ExtensionCommand for Extra {
    fn extension(&self) -> ExtensionView {
        unreachable!()
    }

    fn parameters_json(&self) -> Option<JsonValue> {
        Some(JsonValue::empty_object())
    }

    fn method(&self) -> Method {
        Method::PUT
    }

    fn endpoint(&self) -> String {
        "/extra".to_string()
    }
}

#[test]
fn extension_commands() {
    check(Command::extension(&Extra), Method::PUT, "session/S/extra", "{}");
    let addon =
        FirefoxCommand::InstallAddon { path: "p.xpi".to_string(), temporary: Some(true) };
    check_data(
        addon.format_request(&SessionId::from("S")),
        Method::POST,
        "/session/S/moz/addon/install",
        r#"{"path": "p.xpi", "temporary": true}"#,
    );
    check_data(
        FirefoxCommand::FullScreenshot {}.format_request(&SessionId::from("S")),
        Method::GET,
        "/session/S/moz/screenshot/full",
        "",
    );
}

#[test]
fn selectors() {
    let shown = |by: By| by.to_text();
    assert_eq!(shown(By::Id("x")), "Id(x)");
    assert_eq!(shown(By::LinkText("x")), "Link Text(x)");
    assert_eq!(shown(By::PartialLinkText("x")), "Partial Link Text(x)");
    assert_eq!(shown(By::Css("x")), "CSS(x)");
    assert_eq!(shown(By::XPath("x")), "XPath(x)");
    assert_eq!(shown(By::Name("x")), "CSS([name=\"x\"])");
    assert_eq!(shown(By::Tag("x")), "CSS(x)");
    assert_eq!(shown(By::ClassName("x")), "CSS(.x)");
    assert_eq!(shown(By::Testid("x")), "CSS([data-testid=\"x\"])");
    let query = |by: By| {
        let s = by.into_selector();
        (s.name, s.query)
    };
    let css = |q: &str| ("css selector".to_string(), q.to_string());
    assert_eq!(query(By::Id("x")), css("[id=\"x\"]"));
    assert_eq!(query(By::Name("x")), css("[name=\"x\"]"));
    assert_eq!(query(By::Tag("x")), css("x"));
    assert_eq!(query(By::ClassName("x")), css(".x"));
    assert_eq!(query(By::Css("[id=\"x\"]")), query(By::Id("x")));
    assert_eq!(query(By::Testid("x")).1, "[data-testid=\"x\"]");
}

#[test]
fn requests_as_text() {
    let get = RequestData::new(Method::GET, "session");
    assert_eq!(get.to_text(), "GET session");
    let post = RequestData::new(Method::POST, "session").add_body(
        JsonValue::parse(r#"{"b": 1, "a": []}"#).unwrap(),
    );
    assert_eq!(post.to_text(), "POST session {\"a\":[],\"b\":1}");
}

#[test]
fn network_conditions_are_read_as_they_were_sent() {
    let kinds = [
        ConnectionType::Nothing,
        ConnectionType::Cellular2G,
        ConnectionType::Cellular3G,
        ConnectionType::Cellular4G,
        ConnectionType::Bluetooth,
        ConnectionType::Ethernet,
        ConnectionType::Wifi,
        ConnectionType::Wimax,
        ConnectionType::Other,
    ];
    for kind in kinds {
        let name = JsonValue::text(kind.as_str());
        assert_eq!(ConnectionType::from_json(&name), Some(kind));
        let sent = NetworkConditions {
            offline: true,
            latency: 5,
            download_throughput: -1,
            upload_throughput: i32::MAX,
            connection_type: Some(kind),
        };
        assert_eq!(NetworkConditions::from_json(&sent.to_json()), Some(sent));
    }
    let free = NetworkConditions::new();
    assert_eq!(NetworkConditions::from_json(&free.to_json()), Some(free));
    let read = |text: &str| NetworkConditions::from_json(&JsonValue::parse(text).unwrap());
    assert_eq!(read("[false, 0, -1, -1, null]"), Some(free));
    assert!(read("[false, 0, -1, -1]").is_none());
    let with = |latency: &str, kind: &str| {
        read(&format!(
            r#"{{"offline": false, "latency": {}, "download_throughput": -1,
                "upload_throughput": -1, "connection_type": {}}}"#,
            latency, kind
        ))
    };
    assert_eq!(with("0", "null"), Some(free));
    assert!(with("-1", "null").is_none());
    assert!(with("4294967296", "null").is_none());
    assert!(with("1.5", "null").is_none());
    assert!(with("0", "\"wifi\"").is_none());
}

#[test]
fn chrome_commands() {
    let server = ServerUrl::parse("http://localhost:9515").unwrap();
    let conditions = NetworkConditions::new();
    let launch = ChromeCommand::LaunchApp("app".to_string());
    assert_eq!(
        launch.endpoint(&server, "S").unwrap(),
        "http://localhost:9515/session/S/chromium/launch_app"
    );
    let (method, body) = launch.method_and_body();
    assert_eq!(method, Method::POST);
    assert_eq!(value(&body.unwrap().to_text()), value(r#"{"id": "app"}"#));
    let (method, body) = ChromeCommand::GetNetworkConditions.method_and_body();
    assert_eq!(method, Method::GET);
    assert!(body.is_none());
    let (_, body) = ChromeCommand::SetNetworkConditions(conditions).method_and_body();
    let sent = value(&body.unwrap().to_text());
    assert_eq!(sent["network_conditions"]["offline"], false);
    assert_eq!(ConnectionType::Wifi.as_str(), "Wifi");
    assert_eq!(ConnectionType::Nothing.as_str(), "None");
}
