//! Sessions with a browser that stands in for a real one: two small pages, one of them with a
//! frame, alerts, windows, and the keyboard and the mouse.
use std::cell::RefCell;
use thirtyfour::command::{By, Command, FormatRequestData};
use thirtyfour::config::WebDriverConfig;
use thirtyfour::connection::{HttpClient, HttpResponse, RemoteConnectionSync};
use thirtyfour::duration::Duration;
use thirtyfour::error::{WebDriverErrorInner, WebDriverResult};
use thirtyfour::http::{interpret_sync_response, HttpRequest};
use thirtyfour::json::JsonValue;
use thirtyfour::keys::{Key, TypingData};
use thirtyfour::request::Method;
use thirtyfour::session::{NoGuard, SessionHandle};
use thirtyfour::types::{OptionRect, SessionId, TimeoutConfiguration};
use thirtyfour::webdriver::{GenericWebDriver, RequestedCapabilities};
use thirtyfour::webdrivercommands::WebDriverCommands;

const SERVER: &str = "http://localhost:4444/";
const SAMPLE: &str = "http://localhost:8000/sample_page.html";
const OTHER: &str = "http://localhost:8000/other_page.html";
const FRAMED: &str = "http://localhost:8000/iframe_outer.html";
const ELEMENT: &str = "element-6066-11e4-a52e-4f735466cecf";
// A pixel, as a picture.
const PICTURE: &str = "iVBORw0KGgo=";

/// An element of a page: its id, its tag, and its place and size.
struct Item {
    id: &'static str,
    tag: &'static str,
    rect: (f64, f64, f64, f64),
}

fn item(id: &'static str, tag: &'static str, y: f64) -> Item {
    Item { id, tag, rect: (8.5, y, 120.0, 21.5) }
}

/// The elements of a page, or of the frame in it.
fn items(url: &str, in_frame: bool) -> Vec<Item> {
    if url == SAMPLE {
        vec![
            item("text-input", "input", 40.0),
            item("button-alert", "button", 300.0),
            item("button-confirm", "button", 330.0),
            item("button-prompt", "button", 360.0),
            item("alert-answer", "div", 390.0),
            item("checkbox-option-1", "input", 420.0),
            item("checkbox-disabled", "input", 450.0),
            item("checkbox-hidden", "input", 480.0),
            item("select1", "select", 510.0),
            item("other_page_id", "a", 540.0),
            item("iframe_page_id", "a", 570.0),
        ]
    } else if url == FRAMED && in_frame {
        vec![item("iframe_button", "button", 10.0)]
    } else if url == FRAMED {
        vec![item("root_button", "button", 10.0), item("iframe", "iframe", 40.0)]
    } else {
        Vec::new()
    }
}

#[derive(Debug)]
struct Window {
    handle: String,
    history: Vec<String>,
    at: usize,
    name: String,
    in_frame: bool,
}

impl Window {
    fn url(&self) -> String {
        self.history[self.at].clone()
    }

    fn visit(&mut self, url: &str) {
        self.history.truncate(self.at + 1);
        self.history.push(url.to_string());
        self.at += 1;
        self.in_frame = false;
    }
}

#[derive(Debug)]
struct OpenAlert {
    kind: String,
    message: String,
    typed: String,
}

#[derive(Debug)]
struct State {
    many_sessions: bool,
    windows: Vec<Window>,
    opened: usize,
    current: String,
    alert: Option<OpenAlert>,
    answer: String,
    typed: String,
    checked: bool,
    active: String,
    removed: Vec<String>,
    control: bool,
    selected: bool,
    timeouts: (u64, u64, u64),
    rect: (i64, i64, i64, i64),
    pointer: (f64, f64),
}

/// A browser with its driver.
#[derive(Debug)]
struct Browser {
    state: RefCell<State>,
}

type Reply = Result<String, (u16, &'static str)>;

fn quoted(s: &str) -> String {
    serde_json::Value::String(s.to_string()).to_string()
}

fn reference(id: &str) -> String {
    format!("{{\"{}\":\"e.{}\"}}", ELEMENT, id)
}

impl Browser {
    fn named(name: &str) -> Browser {
        Browser {
            state: RefCell::new(State {
                many_sessions: name == "chrome",
                windows: vec![Window {
                    handle: "w0".to_string(),
                    history: vec!["about:blank".to_string()],
                    at: 0,
                    name: String::new(),
                    in_frame: false,
                }],
                opened: 1,
                current: "w0".to_string(),
                alert: None,
                answer: String::new(),
                typed: String::new(),
                checked: false,
                active: String::new(),
                removed: Vec::new(),
                control: false,
                selected: false,
                timeouts: (30000, 300000, 0),
                rect: (0, 0, 1200, 900),
                pointer: (0.0, 0.0),
            }),
        }
    }

    /// The status and the body of the answer to a request.
    fn answer(&self, method: Method, path: &str, body: Option<&JsonValue>) -> (u16, String) {
        let body: serde_json::Value = match body {
            Some(b) => serde_json::from_str(&b.to_text()).unwrap(),
            None => serde_json::Value::Null,
        };
        match self.state.borrow_mut().serve(&method.to_text(), path, &body) {
            Ok(value) => (200, format!("{{\"value\":{}}}", value)),
            Err((status, error)) => (
                status,
                format!(
                    "{{\"value\":{{\"error\":\"{}\",\"message\":\"from the browser\",\"stacktrace\":\"\"}}}}",
                    error
                ),
            ),
        }
    }
}

impl HttpClient for Browser {
    fn send(&self, request: HttpRequest) -> WebDriverResult<HttpResponse> {
        let path = request.url.strip_prefix(SERVER).unwrap();
        let (status, body) = self.answer(request.method, path, request.body.as_ref());
        Ok(HttpResponse { status, body: body.into_bytes() })
    }
}

impl RemoteConnectionSync for Browser {
    fn execute(&self, session_id: &SessionId, command: Command) -> WebDriverResult<JsonValue> {
        let request = command.format_request(session_id);
        let (status, body) = self.answer(request.method, &request.uri, request.body.as_ref());
        interpret_sync_response(status, JsonValue::parse(&body))
    }
}

impl State {
    fn window(&mut self) -> Result<&mut Window, (u16, &'static str)> {
        let current = self.current.clone();
        match self.windows.iter_mut().find(|w| w.handle == current) {
            Some(w) => Ok(w),
            None => Err((404, "no such window")),
        }
    }

    fn item(&mut self, id: &str) -> Result<Item, (u16, &'static str)> {
        if self.removed.iter().any(|r| r == id) {
            return Err((404, "no such element"));
        }
        let w = self.window()?;
        match items(&w.url(), w.in_frame).into_iter().find(|i| i.id == id) {
            Some(i) => Ok(i),
            None => Err((404, "no such element")),
        }
    }

    fn serve(&mut self, method: &str, path: &str, body: &serde_json::Value) -> Reply {
        let path = path.trim_start_matches('/');
        if path == "status" {
            return Ok(format!("{{\"ready\":{},\"message\":\"\"}}", self.many_sessions));
        }
        if path == "session" {
            return Ok("{\"sessionId\":\"S1\",\"capabilities\":{\"browserName\":\"stub\"}}".to_string());
        }
        if self.windows.is_empty() {
            return Err((404, "invalid session id"));
        }
        let rest: Vec<&str> = path.split('/').skip(2).collect();
        assert!(path.starts_with("session/S1"), "{}", path);
        match (method, rest.as_slice()) {
            ("DELETE", []) => {
                self.windows.clear();
                Ok("null".to_string())
            }
            ("POST", ["timeouts"]) => {
                let (script, load, implicit) = self.timeouts;
                self.timeouts = (
                    body["script"].as_u64().unwrap_or(script),
                    body["pageLoad"].as_u64().unwrap_or(load),
                    body["implicit"].as_u64().unwrap_or(implicit),
                );
                Ok("null".to_string())
            }
            ("GET", ["timeouts"]) => Ok(format!(
                "{{\"script\":{},\"pageLoad\":{},\"implicit\":{}}}",
                self.timeouts.0, self.timeouts.1, self.timeouts.2
            )),
            ("POST", ["url"]) => {
                self.window()?.visit(body["url"].as_str().unwrap());
                Ok("null".to_string())
            }
            ("GET", ["url"]) => Ok(quoted(&self.window()?.url())),
            ("POST", ["back"]) => {
                let w = self.window()?;
                w.at = w.at.saturating_sub(1);
                Ok("null".to_string())
            }
            ("POST", ["forward"]) => {
                let w = self.window()?;
                w.at = (w.at + 1).min(w.history.len() - 1);
                Ok("null".to_string())
            }
            ("GET", ["title"]) => Ok(quoted(match self.window()?.url().as_str() {
                SAMPLE => "Sample Page",
                OTHER => "Other Page",
                _ => "",
            })),
            ("GET", ["window"]) => Ok(quoted(&self.window()?.handle)),
            ("DELETE", ["window"]) => {
                self.window()?;
                let current = self.current.clone();
                self.windows.retain(|w| w.handle != current);
                Ok(self.handles())
            }
            ("POST", ["window"]) => {
                let handle = body["handle"].as_str().unwrap();
                if !self.windows.iter().any(|w| w.handle == handle) {
                    return Err((404, "no such window"));
                }
                self.current = handle.to_string();
                Ok("null".to_string())
            }
            ("GET", ["window", "handles"]) => Ok(self.handles()),
            ("POST", ["window", "new"]) => {
                let handle = format!("w{}", self.opened);
                self.opened += 1;
                self.windows.push(Window {
                    handle: handle.clone(),
                    history: vec!["about:blank".to_string()],
                    at: 0,
                    name: String::new(),
                    in_frame: false,
                });
                Ok(format!("{{\"handle\":\"{}\",\"type\":{}}}", handle, body["type"]))
            }
            ("GET", ["window", "rect"]) => Ok(self.placed()),
            ("POST", ["window", "rect"]) => {
                let (x, y, width, height) = self.rect;
                self.rect = (
                    body["x"].as_i64().unwrap_or(x),
                    body["y"].as_i64().unwrap_or(y),
                    body["width"].as_i64().unwrap_or(width),
                    body["height"].as_i64().unwrap_or(height),
                );
                Ok(self.placed())
            }
            ("POST", ["frame"]) => {
                let id = body["id"][ELEMENT].as_str().unwrap();
                assert_eq!(id, "e.iframe");
                self.window()?.in_frame = true;
                Ok("null".to_string())
            }
            ("POST", ["frame", "parent"]) => {
                self.window()?.in_frame = false;
                Ok("null".to_string())
            }
            ("POST", ["element"]) => self.find(body),
            ("GET", ["element", "active"]) => Ok(reference(&self.active)),
            ("POST", ["element", element, "click"]) => {
                let id = self.item(&element[2..])?.id;
                self.click(id)
            }
            ("POST", ["element", element, "value"]) => {
                self.item(&element[2..])?;
                for c in body["text"].as_str().unwrap().chars() {
                    self.press(c);
                }
                self.control = false;
                Ok("null".to_string())
            }
            ("GET", ["element", element, what]) => {
                let item = self.item(&element[2..])?;
                match *what {
                    "enabled" => Ok((item.id != "checkbox-disabled").to_string()),
                    "displayed" => Ok((item.id != "checkbox-hidden").to_string()),
                    "selected" => Ok((item.id == "checkbox-option-1" && self.checked).to_string()),
                    "name" => Ok(quoted(item.tag)),
                    "text" => Ok(quoted(if item.id == "alert-answer" { &self.answer } else { "" })),
                    "rect" => Ok(format!(
                        "{{\"x\":{},\"y\":{},\"width\":{},\"height\":{}}}",
                        item.rect.0, item.rect.1, item.rect.2, item.rect.3
                    )),
                    _ => Err((404, "unknown command")),
                }
            }
            ("GET", ["element", element, "attribute", name]) => {
                let item = self.item(&element[2..])?;
                Ok(if *name == "id" { quoted(item.id) } else { "null".to_string() })
            }
            ("GET", ["element", element, "property", name]) => {
                let item = self.item(&element[2..])?;
                Ok(match (*name, item.id) {
                    ("id", id) => quoted(id),
                    ("value", "text-input") => quoted(&self.typed),
                    ("checked", "checkbox-option-1") => self.checked.to_string(),
                    _ => "null".to_string(),
                })
            }
            ("GET", ["element", element, "css", name]) => {
                let item = self.item(&element[2..])?;
                Ok(quoted(if *name == "display" && item.id == "checkbox-hidden" { "none" } else { "" }))
            }
            ("POST", ["execute", how]) => self.run(how, body),
            ("POST", ["actions"]) => self.act(body),
            ("DELETE", ["actions"]) => {
                self.control = false;
                Ok("null".to_string())
            }
            ("GET", ["screenshot"]) => Ok(quoted(PICTURE)),
            (_, ["alert", what]) => self.at_alert(what, method, body),
            _ => Err((404, "unknown command")),
        }
    }

    fn handles(&self) -> String {
        let handles: Vec<String> = self.windows.iter().map(|w| quoted(&w.handle)).collect();
        format!("[{}]", handles.join(","))
    }

    fn placed(&self) -> String {
        format!(
            "{{\"x\":{},\"y\":{},\"width\":{},\"height\":{}}}",
            self.rect.0, self.rect.1, self.rect.2, self.rect.3
        )
    }

    fn find(&mut self, body: &serde_json::Value) -> Reply {
        assert_eq!(body["using"], "css selector");
        let query = body["value"].as_str().unwrap();
        let id = match query.strip_prefix("#") {
            Some(id) => id,
            None => query.strip_prefix("[id=\"").unwrap().strip_suffix("\"]").unwrap(),
        };
        Ok(reference(self.item(id)?.id))
    }

    fn click(&mut self, id: &str) -> Reply {
        self.active = id.to_string();
        match id {
            "button-alert" => self.show("alert", "This is an alert"),
            "button-confirm" => self.show("confirm", "Press OK or Cancel"),
            "button-prompt" => self.show("prompt", "What is your name?"),
            "checkbox-option-1" => self.checked = !self.checked,
            "other_page_id" => self.window()?.visit(OTHER),
            "iframe_page_id" => self.window()?.visit(FRAMED),
            _ => {}
        }
        Ok("null".to_string())
    }

    fn show(&mut self, kind: &str, message: &str) {
        self.alert = Some(OpenAlert {
            kind: kind.to_string(),
            message: message.to_string(),
            typed: String::new(),
        });
    }

    fn at_alert(&mut self, what: &str, method: &str, body: &serde_json::Value) -> Reply {
        let alert = match &mut self.alert {
            Some(a) => a,
            None => return Err((404, "no such alert")),
        };
        if what == "text" && method == "GET" {
            return Ok(quoted(&alert.message));
        }
        if what == "text" {
            alert.typed = body["text"].as_str().unwrap().to_string();
            return Ok("null".to_string());
        }
        let ok = what == "accept";
        match alert.kind.as_str() {
            "confirm" => self.answer = if ok { "OK" } else { "Cancel" }.to_string(),
            "prompt" if ok => self.answer = alert.typed.clone(),
            _ => {}
        }
        self.alert = None;
        Ok("null".to_string())
    }

    fn press(&mut self, c: char) {
        if c == '\u{e009}' {
            self.control = true;
        } else if c == '\u{e003}' {
            if self.selected {
                self.typed.clear();
            } else {
                self.typed.pop();
            }
            self.selected = false;
        } else if self.control {
            self.selected = c == 'a';
        } else {
            self.typed.push(c);
        }
    }

    fn run(&mut self, how: &str, body: &serde_json::Value) -> Reply {
        let script = body["script"].as_str().unwrap();
        let args = &body["args"];
        if how == "async" {
            if script.contains("arguments[1](arguments[0] + 1)") {
                return Ok((args[0].as_u64().unwrap() + 1).to_string());
            }
            return Ok("2".to_string());
        }
        if script == "return window.name;" {
            return Ok(quoted(&self.window()?.name));
        }
        if let Some(name) = script.strip_prefix("window.name = \"") {
            self.window()?.name = name.strip_suffix("\"").unwrap().to_string();
            return Ok("null".to_string());
        }
        if script.contains("scrollIntoView") {
            let id = args[0][ELEMENT].as_str().unwrap().to_string();
            if !id.starts_with("e.") {
                return Err((404, "no such element"));
            }
            self.item(&id[2..])?;
            return Ok("null".to_string());
        }
        if script.contains("removeChild") {
            self.removed.push("other_page_id".to_string());
        }
        Ok("null".to_string())
    }

    fn act(&mut self, body: &serde_json::Value) -> Reply {
        let sources = body["actions"].as_array().unwrap();
        let ticks = sources.iter().map(|s| s["actions"].as_array().unwrap().len()).max().unwrap();
        for tick in 0..ticks {
            for source in sources {
                let action = &source["actions"][tick];
                match action["type"].as_str().unwrap() {
                    "keyDown" => {
                        let key = action["value"].as_str().unwrap().chars().next().unwrap();
                        self.press(key);
                    }
                    "keyUp" => {
                        if action["value"] == "\u{e009}" {
                            self.control = false;
                        }
                    }
                    "pointerMove" => {
                        let (x, y) = (action["x"].as_f64().unwrap(), action["y"].as_f64().unwrap());
                        self.pointer = if action["origin"] == "viewport" {
                            (x, y)
                        } else if action["origin"] == "pointer" {
                            (self.pointer.0 + x, self.pointer.1 + y)
                        } else {
                            let id = action["origin"][ELEMENT].as_str().unwrap().to_string();
                            let (left, top, width, height) = self.item(&id[2..])?.rect;
                            (left + width / 2.0 + x, top + height / 2.0 + y)
                        };
                    }
                    "pointerUp" => {
                        let (x, y) = self.pointer;
                        let w = self.window()?;
                        let hit = items(&w.url(), w.in_frame).into_iter().find(|i| {
                            i.rect.0 <= x
                                && x <= i.rect.0 + i.rect.2
                                && i.rect.1 <= y
                                && y <= i.rect.1 + i.rect.3
                        });
                        if let Some(i) = hit {
                            self.click(i.id)?;
                        }
                    }
                    _ => {}
                }
            }
        }
        Ok("null".to_string())
    }
}

fn driver(name: &str) -> GenericWebDriver<Browser> {
    let caps = RequestedCapabilities {
        w3c: JsonValue::empty_object(),
        plain: JsonValue::empty_object(),
    };
    GenericWebDriver::new_with_client(Browser::named(name), caps).unwrap()
}

fn handle(name: &str) -> SessionHandle<Browser, NoGuard> {
    SessionHandle::new_with_config_guard_and_caps(
        Browser::named(name),
        SERVER,
        SessionId::from("S1"),
        WebDriverConfig::builder().build("thirtyfour".to_string()).unwrap(),
        None,
        JsonValue::empty_object(),
    )
    .unwrap()
}

fn json(text: &str) -> JsonValue {
    JsonValue::parse(text).unwrap()
}

fn number(v: &JsonValue, name: &str) -> f64 {
    let v: serde_json::Value = serde_json::from_str(&v.to_text()).unwrap();
    v[name].as_f64().unwrap()
}

fn millis(d: Option<Duration>) -> Option<u128> {
    d.map(|d| d.as_millis())
}

type Tested = WebDriverResult<()>;

fn actions_key(c: GenericWebDriver<Browser>) -> Tested {
    c.get(SAMPLE.to_string())?;

    // Test key down/up.
    let elem = c.find_element(By::Id("text-input"))?;
    elem.send_keys("a")?;
    assert_eq!(elem.get_property("value")?.unwrap(), "a");

    elem.click()?;
    c.action_chain().key_down(Key::Backspace).key_up(Key::Backspace).perform()?;
    let elem = c.find_element(By::Id("text-input"))?;
    assert_eq!(elem.get_property("value")?.unwrap(), "");
    Ok(())
}

fn actions_mouse(c: GenericWebDriver<Browser>) -> Tested {
    c.get(SAMPLE.to_string())?;

    let elem = c.find_element(By::Id("button-alert"))?;

    // Test mouse down/up.
    c.action_chain().move_to_element_center(&elem).click().perform()?;
    let alert = c.switch_to().alert();
    assert_eq!(alert.text()?, "This is an alert");
    alert.dismiss()?;
    Ok(())
}

fn actions_mouse_move(c: GenericWebDriver<Browser>) -> Tested {
    // Set window size to avoid moving the cursor out-of-bounds during actions.
    c.set_window_rect(OptionRect::new().with_pos(0, 0).with_size(800, 800))?;

    c.get(SAMPLE.to_string())?;

    let elem = c.find_element(By::Id("button-alert"))?;
    let rect = elem.rect()?;
    let elem_center_x = number(&rect, "x") + (number(&rect, "width") / 2.0);
    let elem_center_y = number(&rect, "y") + (number(&rect, "height") / 2.0);

    // Test mouse MoveBy.

    // Sanity check - ensure no alerts are displayed prior to actions.
    let none = c.switch_to().alert().text().unwrap_err();
    assert!(matches!(none.as_inner(), WebDriverErrorInner::NoSuchAlert(..)));

    c.action_chain()
        .move_to(0, elem_center_y as i64 - 100)
        .move_by_offset(elem_center_x as i64, 100)
        .click()
        .perform()?;
    let alert = c.switch_to().alert();
    assert_eq!(alert.text()?, "This is an alert");
    alert.accept()?;

    Ok(())
}

fn actions_release(c: GenericWebDriver<Browser>) -> Tested {
    c.get(SAMPLE.to_string())?;

    // Focus the input element.
    let elem = c.find_element(By::Id("text-input"))?;
    elem.click()?;

    // Add initial text.
    let elem = c.find_element(By::Id("text-input"))?;
    assert_eq!(elem.get_property("value")?.unwrap(), "");

    // Press CONTROL key down and hold it.
    c.action_chain().key_down(Key::Control).perform()?;

    // Now release all actions. This should release the control key.
    c.action_chain().reset_actions()?;

    // Now press the 'a' key again.
    //
    // If the Control key was not released, this would do `Ctrl+a` (i.e. select all)
    // but there is no text so it would do nothing.
    //
    // However if the Control key was released (as expected)
    // then this will type 'a' into the text element.
    c.action_chain().key_down('a').perform()?;
    assert_eq!(elem.get_property("value")?.unwrap(), "a");
    Ok(())
}

fn alert_accept(c: GenericWebDriver<Browser>) -> Tested {
    c.get(SAMPLE.to_string())?;
    c.find_element(By::Id("button-alert"))?.click()?;
    let alert = c.switch_to().alert();
    assert_eq!(alert.text()?, "This is an alert");
    alert.accept()?;
    let gone = alert.text().unwrap_err();
    assert!(matches!(gone.as_inner(), WebDriverErrorInner::NoSuchAlert(..)));

    c.find_element(By::Id("button-confirm"))?.click()?;
    let alert = c.switch_to().alert();
    assert_eq!(alert.text()?, "Press OK or Cancel");
    alert.accept()?;
    let gone = alert.text().unwrap_err();
    assert!(matches!(gone.as_inner(), WebDriverErrorInner::NoSuchAlert(..)));
    assert_eq!(c.find_element(By::Id("alert-answer"))?.text()?, "OK");

    Ok(())
}

fn alert_dismiss(c: GenericWebDriver<Browser>) -> Tested {
    c.get(SAMPLE.to_string())?;
    c.find_element(By::Id("button-alert"))?.click()?;

    let alert = c.switch_to().alert();
    assert_eq!(alert.text()?, "This is an alert");
    alert.dismiss()?;
    let gone = alert.text().unwrap_err();
    assert!(matches!(gone.as_inner(), WebDriverErrorInner::NoSuchAlert(..)));

    c.find_element(By::Id("button-confirm"))?.click()?;
    let alert = c.switch_to().alert();
    assert_eq!(alert.text()?, "Press OK or Cancel");
    alert.dismiss()?;
    let gone = alert.text().unwrap_err();
    assert!(matches!(gone.as_inner(), WebDriverErrorInner::NoSuchAlert(..)));
    assert_eq!(c.find_element(By::Id("alert-answer"))?.text()?, "Cancel");

    Ok(())
}

fn alert_text(c: GenericWebDriver<Browser>) -> Tested {
    c.get(SAMPLE.to_string())?;
    c.find_element(By::Id("button-prompt"))?.click()?;
    let alert = c.switch_to().alert();
    assert_eq!(alert.text()?, "What is your name?");
    alert.send_keys("Fantoccini")?;
    alert.accept()?;
    let gone = alert.text().unwrap_err();
    assert!(matches!(gone.as_inner(), WebDriverErrorInner::NoSuchAlert(..)));
    assert_eq!(c.find_element(By::Id("alert-answer"))?.text()?, "Fantoccini");

    Ok(())
}

fn element_is(c: GenericWebDriver<Browser>) -> Tested {
    c.get(SAMPLE.to_string())?;
    let elem = c.find_element(By::Id("checkbox-option-1"))?;
    assert!(elem.is_enabled()?);
    assert!(elem.is_displayed()?);
    assert!(!elem.is_selected()?);
    elem.click()?;
    let elem = c.find_element(By::Id("checkbox-option-1"))?;
    assert!(elem.is_selected()?);

    assert!(!c.find_element(By::Id("checkbox-disabled"))?.is_enabled()?);
    assert!(!c.find_element(By::Id("checkbox-hidden"))?.is_displayed()?);
    Ok(())
}

fn element_attr(c: GenericWebDriver<Browser>) -> Tested {
    c.get(SAMPLE.to_string())?;
    let elem = c.find_element(By::Id("checkbox-option-1"))?;
    assert_eq!(elem.get_attribute("id")?.unwrap(), "checkbox-option-1");
    assert!(elem.get_attribute("invalid-attribute")?.is_none());
    Ok(())
}

fn element_prop(c: GenericWebDriver<Browser>) -> Tested {
    c.get(SAMPLE.to_string())?;
    let elem = c.find_element(By::Id("checkbox-option-1"))?;
    assert_eq!(elem.get_property("id")?.unwrap(), "checkbox-option-1");
    assert_eq!(elem.get_property("checked")?.unwrap(), "false");
    assert!(elem.get_attribute("invalid-property")?.is_none());
    Ok(())
}

fn element_css_value(c: GenericWebDriver<Browser>) -> Tested {
    c.get(SAMPLE.to_string())?;
    let elem = c.find_element(By::Id("checkbox-hidden"))?;
    assert_eq!(elem.get_css_property("display")?, "none");
    assert_eq!(elem.get_css_property("invalid-css-value")?, "");
    Ok(())
}

fn element_tag_name(c: GenericWebDriver<Browser>) -> Tested {
    c.get(SAMPLE.to_string())?;
    let elem = c.find_element(By::Id("checkbox-option-1"))?;
    let tag_name = elem.tag_name()?;
    assert!(tag_name.eq_ignore_ascii_case("input"), "{} != input", tag_name);
    Ok(())
}

fn element_rect(c: GenericWebDriver<Browser>) -> Tested {
    c.get(SAMPLE.to_string())?;
    let elem = c.find_element(By::Id("button-alert"))?;
    let rect = elem.rect()?;
    // Rather than try to verify the exact position and size of the element,
    // let's just verify that the returned values deserialized ok and
    // are within the expected range.
    assert!(number(&rect, "x") > 0.0);
    assert!(number(&rect, "x") < 100.0);
    assert!(number(&rect, "y") > 0.0);
    assert!(number(&rect, "y") < 1000.0);
    assert!(number(&rect, "width") > 0.0);
    assert!(number(&rect, "width") < 200.0);
    assert!(number(&rect, "height") > 0.0);
    assert!(number(&rect, "height") < 200.0);
    Ok(())
}

fn element_send_keys(c: GenericWebDriver<Browser>) -> Tested {
    c.get(SAMPLE.to_string())?;
    let elem = c.find_element(By::Id("text-input"))?;
    assert_eq!(elem.get_property("value")?.unwrap(), "");
    elem.send_keys("fantoccini")?;
    assert_eq!(elem.get_property("value")?.unwrap(), "fantoccini");
    let select_all = Key::Control + "a";
    let backspace = TypingData::from(Key::Backspace).to_text();
    elem.send_keys(select_all)?;
    elem.send_keys(&backspace)?;
    assert_eq!(elem.get_property("value")?.unwrap(), "");

    Ok(())
}

fn goto(c: GenericWebDriver<Browser>) -> Tested {
    c.get(SAMPLE.to_string())?;
    let current_url = c.current_url()?;
    assert_eq!(SAMPLE, current_url.as_str());
    c.close()
}

fn find_and_click_link(c: GenericWebDriver<Browser>) -> Tested {
    c.get(SAMPLE.to_string())?;
    c.find_element(By::Css("#other_page_id"))?.click()?;

    let new_url = c.current_url()?;
    assert_eq!(new_url.as_str(), OTHER);

    c.close()
}

fn get_active_element(c: GenericWebDriver<Browser>) -> Tested {
    c.get(SAMPLE.to_string())?;
    c.find_element(By::Css("#select1"))?.click()?;

    let active = c.switch_to().active_element()?;
    assert_eq!(active.get_attribute("id")?, Some(String::from("select1")));

    c.close()
}

fn serialize_element(c: GenericWebDriver<Browser>) -> Tested {
    c.get(SAMPLE.to_string())?;
    let elem = c.find_element(By::Css("#other_page_id"))?;

    // Check that webdriver understands it
    c.execute_script_with_args("arguments[0].scrollIntoView(true);", vec![elem.to_json()])?;

    // Check that it fails with an invalid serialization (from a previous run of the test)
    let stale = json(
        "{\"element-6066-11e4-a52e-4f735466cecf\":\"fbe5004d-ec8b-4c7b-ad08-642c55d84505\"}",
    );
    assert!(
        c.execute_script_with_args("arguments[0].scrollIntoView(true);", vec![stale]).is_err(),
        "Failure expected with an invalid ID"
    );

    c.close()
}

fn iframe_switch(c: GenericWebDriver<Browser>) -> Tested {
    c.get(SAMPLE.to_string())?;
    // Go to the page that holds the iframe
    c.find_element(By::Css("#iframe_page_id"))?.click()?;

    assert!(
        c.find_element(By::Id("iframe_button")).is_err(),
        "should not find the button in the iframe"
    );
    c.find_element(By::Id("root_button"))?; // Can find the button in the root context though.

    // find and switch into the iframe
    let iframe_element = c.find_element(By::Id("iframe"))?;
    iframe_element.enter_frame()?;

    // search for something in the iframe
    let button_in_iframe = c.find_element(By::Id("iframe_button"))?;
    button_in_iframe.click()?;
    assert!(
        c.find_element(By::Id("root_button")).is_err(),
        "Should not be able to access content in the root context"
    );

    // switch back to the root context and access content there.
    c.switch_to().parent_frame()?;
    c.find_element(By::Id("root_button"))?;

    c.close()
}

fn new_window(c: GenericWebDriver<Browser>) -> Tested {
    c.switch_to().new_window()?;
    let windows = c.window_handles()?;
    assert_eq!(windows.len(), 2);
    c.close()
}

fn new_window_switch(c: GenericWebDriver<Browser>) -> Tested {
    let window_1 = c.current_window_handle()?;
    c.switch_to().new_window()?;
    let window_2 = c.current_window_handle()?;
    assert!(
        window_1.same_as(&window_2),
        "After creating a new window, the session should not have switched to it"
    );

    let all_windows = c.window_handles()?;
    assert_eq!(all_windows.len(), 2);
    let new_window = all_windows
        .into_iter()
        .find(|handle| !handle.same_as(&window_1))
        .expect("Should find a differing window handle");

    c.switch_to().window(new_window)?;

    let window_3 = c.current_window_handle()?;
    assert!(
        !window_3.same_as(&window_2),
        "After switching to a new window, the window handle returned from window() should differ now."
    );

    c.close()
}

fn new_tab_switch(c: GenericWebDriver<Browser>) -> Tested {
    let window_1 = c.current_window_handle()?;
    c.switch_to().new_tab()?;
    let window_2 = c.current_window_handle()?;
    assert!(
        window_1.same_as(&window_2),
        "After creating a new window, the session should not have switched to it"
    );

    let all_windows = c.window_handles()?;
    assert_eq!(all_windows.len(), 2);
    let new_window = all_windows
        .into_iter()
        .find(|handle| !handle.same_as(&window_1))
        .expect("Should find a differing window handle");

    c.switch_to().window(new_window)?;

    let window_3 = c.current_window_handle()?;
    assert!(
        !window_3.same_as(&window_2),
        "After switching to a new window, the window handle returned from window() should differ now."
    );

    c.close()
}

fn close_window(c: GenericWebDriver<Browser>) -> Tested {
    let window_1 = c.current_window_handle()?;
    c.switch_to().new_tab()?;
    let window_2 = c.current_window_handle()?;
    assert!(
        window_1.same_as(&window_2),
        "Creating a new window should not cause the client to switch to it."
    );

    let handles = c.window_handles()?;
    assert_eq!(handles.len(), 2);

    c.close()?;
    assert!(
        c.current_window_handle().is_err(),
        "After closing a window, the client can't find its currently selected window."
    );

    let other_window = handles
        .into_iter()
        .find(|handle| !handle.same_as(&window_2))
        .expect("Should find a differing handle");
    c.switch_to().window(other_window)?;

    // Close the session by closing the remaining window
    c.close()?;

    assert!(c.window_handles().is_err(), "Session should be closed.");
    Ok(())
}

fn close_window_twice_errors(c: GenericWebDriver<Browser>) -> Tested {
    c.close()?;
    assert!(c.close().is_err(), "Should get a no such window error");
    Ok(())
}

fn stale_element(c: GenericWebDriver<Browser>) -> Tested {
    c.get(SAMPLE.to_string())?;
    let elem = c.find_element(By::Css("#other_page_id"))?;

    // Remove the element from the DOM
    c.execute_script_with_args(
        "var elem = document.getElementById('other_page_id');
         elem.parentNode.removeChild(elem);",
        vec![],
    )?;

    match elem.click().unwrap_err().as_inner() {
        WebDriverErrorInner::NoSuchElement(_) => Ok(()),
        _ => panic!("Expected a stale element reference error"),
    }
}

fn resolve_execute_async_value(c: GenericWebDriver<Browser>) -> Tested {
    c.get(SAMPLE.to_string())?;

    let count: u64 = c
        .execute_async_script_with_args(
            "setTimeout(() => arguments[1](arguments[0] + 1))",
            vec![JsonValue::Unsigned(1)],
        )?
        .convert()
        .expect("should be integer variant");

    assert_eq!(2, count);

    let count: u64 = c
        .execute_async_script_with_args("setTimeout(() => arguments[0](2))", vec![])?
        .convert()
        .expect("should be integer variant");

    assert_eq!(2, count);

    Ok(())
}

fn back_and_forward(c: GenericWebDriver<Browser>) -> Tested {
    c.get(SAMPLE.to_string())?;

    assert_eq!(c.current_url()?.as_str(), SAMPLE);

    c.get(OTHER.to_string())?;
    assert_eq!(c.current_url()?.as_str(), OTHER);

    c.back()?;
    assert_eq!(c.current_url()?.as_str(), SAMPLE);

    c.forward()?;
    assert_eq!(c.current_url()?.as_str(), OTHER);

    Ok(())
}

fn page_title(c: GenericWebDriver<Browser>) -> Tested {
    c.get(SAMPLE.to_string())?;
    assert_eq!(c.title()?, "Sample Page");
    Ok(())
}

fn timeouts(c: GenericWebDriver<Browser>) -> Tested {
    let new_timeouts = TimeoutConfiguration::new(
        Some(Duration::from_secs(60)),
        Some(Duration::from_secs(60)),
        Some(Duration::from_secs(30)),
    );
    c.set_timeouts(new_timeouts.clone())?;

    let got_timeouts = c.get_timeouts()?;
    assert_eq!(millis(got_timeouts.script()), Some(60000));
    assert_eq!(millis(got_timeouts.page_load()), Some(60000));
    assert_eq!(millis(got_timeouts.implicit()), Some(30000));

    // Ensure partial update also works.
    let update_timeouts = TimeoutConfiguration::new(None, None, Some(Duration::from_secs(0)));
    c.set_timeouts(update_timeouts.clone())?;

    let got_timeouts = c.get_timeouts()?;
    assert_eq!(millis(got_timeouts.script()), millis(new_timeouts.script()));
    assert_eq!(millis(got_timeouts.page_load()), millis(new_timeouts.page_load()));
    assert_eq!(millis(got_timeouts.implicit()), millis(update_timeouts.implicit()));
    assert_eq!(millis(got_timeouts.implicit()), Some(0));

    Ok(())
}

fn handle_iframe_switch(c: SessionHandle<Browser, NoGuard>) -> Tested {
    c.goto(SAMPLE)?;
    // Go to the page that holds the iframe
    c.find(By::Css("#iframe_page_id"))?.click()?;

    assert!(
        c.find(By::Id("iframe_button")).is_err(),
        "should not find the button in the iframe"
    );
    c.find(By::Id("root_button"))?; // Can find the button in the root context though.

    // find and switch into the iframe
    let iframe_element = c.find(By::Id("iframe"))?;
    iframe_element.enter_frame()?;

    // search for something in the iframe
    let button_in_iframe = c.find(By::Id("iframe_button"))?;
    button_in_iframe.click()?;
    assert!(
        c.find(By::Id("root_button")).is_err(),
        "Should not be able to access content in the root context"
    );

    // switch back to the root context and access content there.
    c.enter_parent_frame()?;
    c.find(By::Id("root_button"))?;

    c.close_window()
}

fn handle_new_window(c: SessionHandle<Browser, NoGuard>) -> Tested {
    c.new_window()?;
    let windows = c.windows()?;
    assert_eq!(windows.len(), 2);
    c.close_window()
}

fn handle_new_window_switch(c: SessionHandle<Browser, NoGuard>) -> Tested {
    let window_1 = c.window()?;
    c.new_window()?;
    let window_2 = c.window()?;
    assert!(
        window_1.same_as(&window_2),
        "After creating a new window, the session should not have switched to it"
    );

    let all_windows = c.windows()?;
    assert_eq!(all_windows.len(), 2);
    let new_window = all_windows
        .into_iter()
        .find(|handle| !handle.same_as(&window_1))
        .expect("Should find a differing window handle");

    c.switch_to_window(new_window)?;

    let window_3 = c.window()?;
    assert!(
        !window_3.same_as(&window_2),
        "After switching to a new window, the window handle returned from window() should differ now."
    );

    c.close_window()
}

fn handle_new_tab_switch(c: SessionHandle<Browser, NoGuard>) -> Tested {
    let window_1 = c.window()?;
    c.new_tab()?;
    let window_2 = c.window()?;
    assert!(
        window_1.same_as(&window_2),
        "After creating a new window, the session should not have switched to it"
    );

    let all_windows = c.windows()?;
    assert_eq!(all_windows.len(), 2);
    let new_window = all_windows
        .into_iter()
        .find(|handle| !handle.same_as(&window_1))
        .expect("Should find a differing window handle");

    c.switch_to_window(new_window)?;

    let window_3 = c.window()?;
    assert!(
        !window_3.same_as(&window_2),
        "After switching to a new window, the window handle returned from window() should differ now."
    );

    c.close_window()
}

fn handle_close_window(c: SessionHandle<Browser, NoGuard>) -> Tested {
    let window_1 = c.window()?;
    c.new_tab()?;
    let window_2 = c.window()?;
    assert!(
        window_1.same_as(&window_2),
        "Creating a new window should not cause the client to switch to it."
    );

    let handles = c.windows()?;
    assert_eq!(handles.len(), 2);

    c.close_window()?;
    assert!(
        c.window().is_err(),
        "After closing a window, the client can't find its currently selected window."
    );

    let other_window = handles
        .into_iter()
        .find(|handle| !handle.same_as(&window_2))
        .expect("Should find a differing handle");
    c.switch_to_window(other_window)?;

    // Close the session by closing the remaining window
    c.close_window()?;

    assert!(c.windows().is_err(), "Session should be closed.");
    Ok(())
}

fn handle_close_window_twice_errors(c: SessionHandle<Browser, NoGuard>) -> Tested {
    c.close_window()?;
    assert!(c.close_window().is_err(), "Should get a no such window error");
    Ok(())
}

fn handle_resolve_execute_async_value(c: SessionHandle<Browser, NoGuard>) -> Tested {
    c.goto(SAMPLE)?;

    let count: u64 = c
        .execute_async(
            "setTimeout(() => arguments[1](arguments[0] + 1))",
            vec![JsonValue::Unsigned(1)],
        )?
        .convert()
        .expect("should be integer variant");

    assert_eq!(2, count);

    let count: u64 = c
        .execute_async("setTimeout(() => arguments[0](2))", vec![])?
        .convert()
        .expect("should be integer variant");

    assert_eq!(2, count);

    Ok(())
}

fn handle_status_firefox(c: SessionHandle<Browser, NoGuard>) -> Tested {
    // Geckodriver only supports a single session, and since we're already in a
    // session, it should return `false` here.
    assert!(!c.status()?.ready);
    Ok(())
}

fn handle_status_chrome(c: SessionHandle<Browser, NoGuard>) -> Tested {
    // Chromedriver supports multiple sessions, so it should always return
    // `true` here.
    assert!(c.status()?.ready);
    Ok(())
}

fn handle_timeouts(c: SessionHandle<Browser, NoGuard>) -> Tested {
    let new_timeouts = TimeoutConfiguration::new(
        Some(Duration::from_secs(60)),
        Some(Duration::from_secs(60)),
        Some(Duration::from_secs(30)),
    );
    c.update_timeouts(new_timeouts.clone())?;

    let got_timeouts = c.get_timeouts()?;
    assert_eq!(millis(got_timeouts.script()), Some(60000));
    assert_eq!(millis(got_timeouts.page_load()), Some(60000));
    assert_eq!(millis(got_timeouts.implicit()), Some(30000));

    // Ensure partial update also works.
    let update_timeouts = TimeoutConfiguration::new(None, None, Some(Duration::from_secs(0)));
    c.update_timeouts(update_timeouts.clone())?;

    let got_timeouts = c.get_timeouts()?;
    assert_eq!(millis(got_timeouts.script()), millis(new_timeouts.script()));
    assert_eq!(millis(got_timeouts.page_load()), millis(new_timeouts.page_load()));
    assert_eq!(millis(got_timeouts.implicit()), millis(update_timeouts.implicit()));
    assert_eq!(millis(got_timeouts.implicit()), Some(0));

    Ok(())
}

fn window_name(c: SessionHandle<Browser, NoGuard>) -> Tested {
    c.goto(SAMPLE)?;

    let main_title = c.title()?;
    let handle = c.window()?;
    c.set_window_name("main")?;

    // Open a new tab.
    let new_handle = c.new_tab()?;
    c.switch_to_window(new_handle)?;

    // We are now controlling the new tab.
    c.goto(OTHER)?;
    assert!(!c.window()?.same_as(&handle));

    let other_title = c.title()?;
    assert_ne!(other_title, main_title);

    // Switch back to original tab using window name.
    c.switch_to_named_window("main")?;
    assert!(c.window()?.same_as(&handle));

    Ok(())
}

fn in_new_tab(c: SessionHandle<Browser, NoGuard>) -> Tested {
    c.goto(SAMPLE)?;

    let main_title = c.title()?;
    assert_eq!(main_title, "Sample Page");

    let other_title = c.in_new_tab(|| {
        c.goto(OTHER)?;
        c.title()
    })?;
    assert_eq!(other_title, "Other Page");
    assert_eq!(c.title()?, main_title);

    Ok(())
}

fn window_rect(c: SessionHandle<Browser, NoGuard>) -> Tested {
    c.set_window_rect(10, 10, 1900, 1000)?;
    let r = c.get_window_rect()?;
    assert_eq!(r.x, 10);
    assert_eq!(r.y, 10);
    assert_eq!(r.width, 1900);
    assert_eq!(r.height, 1000);
    Ok(())
}

fn screenshot(c: SessionHandle<Browser, NoGuard>) -> Tested {
    c.goto(SAMPLE)?;

    let screenshot_data = c.screenshot_as_png()?;
    assert!(!screenshot_data.is_empty(), "screenshot data is empty");
    assert_eq!(screenshot_data, vec![0x89, b'P', b'N', b'G', 0x0d, 0x0a, 0x1a, 0x0a]);

    Ok(())
}

#[test]
fn actions_key_test() {
    actions_key(driver("firefox")).unwrap();
}

#[test]
fn actions_actions_key_test() {
    actions_key(driver("chrome")).unwrap();
}

#[test]
fn actions_mouse_test() {
    actions_mouse(driver("firefox")).unwrap();
}

#[test]
fn actions_actions_mouse_test() {
    actions_mouse(driver("chrome")).unwrap();
}

#[test]
fn actions_mouse_move_test() {
    actions_mouse_move(driver("firefox")).unwrap();
}

#[test]
fn actions_actions_mouse_move_test() {
    actions_mouse_move(driver("chrome")).unwrap();
}

#[test]
fn actions_release_test() {
    actions_release(driver("firefox")).unwrap();
}

#[test]
fn actions_actions_release_test() {
    actions_release(driver("chrome")).unwrap();
}

#[test]
fn alert_accept_test() {
    alert_accept(driver("firefox")).unwrap();
}

#[test]
fn alert_alert_accept_test() {
    alert_accept(driver("chrome")).unwrap();
}

#[test]
fn alert_dismiss_test() {
    alert_dismiss(driver("firefox")).unwrap();
}

#[test]
fn alert_alert_dismiss_test() {
    alert_dismiss(driver("chrome")).unwrap();
}

#[test]
fn alert_text_test() {
    alert_text(driver("firefox")).unwrap();
}

#[test]
fn alert_alert_text_test() {
    alert_text(driver("chrome")).unwrap();
}

#[test]
fn element_is_test() {
    element_is(driver("firefox")).unwrap();
}

#[test]
fn elements_element_is_test() {
    element_is(driver("chrome")).unwrap();
}

#[test]
fn element_attr_test() {
    element_attr(driver("firefox")).unwrap();
}

#[test]
fn elements_element_attr_test() {
    element_attr(driver("chrome")).unwrap();
}

#[test]
fn element_prop_test() {
    element_prop(driver("firefox")).unwrap();
}

#[test]
fn elements_element_prop_test() {
    element_prop(driver("chrome")).unwrap();
}

#[test]
fn element_css_value_test() {
    element_css_value(driver("firefox")).unwrap();
}

#[test]
fn elements_element_css_value_test() {
    element_css_value(driver("chrome")).unwrap();
}

#[test]
fn element_tag_name_test() {
    element_tag_name(driver("firefox")).unwrap();
}

#[test]
fn elements_element_tag_name_test() {
    element_tag_name(driver("chrome")).unwrap();
}

#[test]
fn element_rect_test() {
    element_rect(driver("firefox")).unwrap();
}

#[test]
fn elements_element_rect_test() {
    element_rect(driver("chrome")).unwrap();
}

#[test]
fn element_send_keys_test() {
    element_send_keys(driver("firefox")).unwrap();
}

#[test]
fn elements_element_send_keys_test() {
    element_send_keys(driver("chrome")).unwrap();
}

#[test]
fn navigate_to_other_page() {
    goto(driver("firefox")).unwrap();
}

#[test]
fn local_navigate_to_other_page() {
    goto(driver("chrome")).unwrap();
}

#[test]
fn find_and_click_link_test() {
    find_and_click_link(driver("firefox")).unwrap();
}

#[test]
fn local_find_and_click_link_test() {
    find_and_click_link(driver("chrome")).unwrap();
}

#[test]
fn get_active_element_test() {
    get_active_element(driver("firefox")).unwrap();
}

#[test]
fn local_get_active_element_test() {
    get_active_element(driver("chrome")).unwrap();
}

#[test]
fn serialize_element_test() {
    serialize_element(driver("firefox")).unwrap();
}

#[test]
fn local_serialize_element_test() {
    serialize_element(driver("chrome")).unwrap();
}

#[test]
fn back_and_forward_test() {
    back_and_forward(driver("firefox")).unwrap();
}

#[test]
fn local_back_and_forward_test() {
    back_and_forward(driver("chrome")).unwrap();
}

#[test]
fn title_test() {
    page_title(driver("firefox")).unwrap();
}

#[test]
fn local_title_test() {
    page_title(driver("chrome")).unwrap();
}

#[test]
fn stale_element_test() {
    stale_element(driver("firefox")).unwrap();
}

#[test]
fn iframe_test() {
    iframe_switch(driver("firefox")).unwrap();
}

#[test]
fn local_iframe_test() {
    iframe_switch(driver("chrome")).unwrap();
}

#[test]
fn window_iframe_test() {
    handle_iframe_switch(handle("firefox")).unwrap();
    handle_iframe_switch(handle("chrome")).unwrap();
}

#[test]
fn new_window_test() {
    new_window(driver("firefox")).unwrap();
}

#[test]
fn local_new_window_test() {
    new_window(driver("chrome")).unwrap();
}

#[test]
fn window_new_window_test() {
    handle_new_window(handle("firefox")).unwrap();
    handle_new_window(handle("chrome")).unwrap();
}

#[test]
fn new_window_switch_test() {
    new_window_switch(driver("firefox")).unwrap();
}

#[test]
fn local_new_window_switch_test() {
    new_window_switch(driver("chrome")).unwrap();
}

#[test]
fn window_new_window_switch_test() {
    handle_new_window_switch(handle("firefox")).unwrap();
    handle_new_window_switch(handle("chrome")).unwrap();
}

#[test]
fn new_tab_switch_test() {
    new_tab_switch(driver("firefox")).unwrap();
}

#[test]
fn local_new_tab_switch_test() {
    new_tab_switch(driver("chrome")).unwrap();
}

#[test]
fn window_new_tab_switch_test() {
    handle_new_tab_switch(handle("firefox")).unwrap();
    handle_new_tab_switch(handle("chrome")).unwrap();
}

#[test]
fn close_window_test() {
    close_window(driver("firefox")).unwrap();
}

#[test]
fn local_close_window_test() {
    close_window(driver("chrome")).unwrap();
}

#[test]
fn window_close_window_test() {
    handle_close_window(handle("firefox")).unwrap();
    handle_close_window(handle("chrome")).unwrap();
}

#[test]
fn double_close_window_test() {
    close_window_twice_errors(driver("firefox")).unwrap();
}

#[test]
fn local_double_close_window_test() {
    close_window_twice_errors(driver("chrome")).unwrap();
}

#[test]
fn window_double_close_window_test() {
    handle_close_window_twice_errors(handle("firefox")).unwrap();
    handle_close_window_twice_errors(handle("chrome")).unwrap();
}

#[test]
fn new_tab_test() {
    new_tab_switch(driver("chrome")).unwrap();
}

#[test]
fn local_new_tab_test() {
    new_tab_switch(driver("firefox")).unwrap();
}

#[test]
fn window_new_tab_test() {
    handle_new_tab_switch(handle("chrome")).unwrap();
}

#[test]
fn resolve_execute_async_value_test() {
    resolve_execute_async_value(driver("firefox")).unwrap();
}

#[test]
fn local_resolve_execute_async_value_test() {
    resolve_execute_async_value(driver("chrome")).unwrap();
}

#[test]
fn misc_resolve_execute_async_value_test() {
    handle_resolve_execute_async_value(handle("firefox")).unwrap();
}

#[test]
fn status_test() {
    handle_status_firefox(handle("firefox")).unwrap();
}

#[test]
fn local_status_test() {
    handle_status_chrome(handle("chrome")).unwrap();
}

#[test]
fn misc_status_test() {
    handle_status_firefox(handle("firefox")).unwrap();
    handle_status_chrome(handle("chrome")).unwrap();
}

#[test]
fn timeouts_test() {
    timeouts(driver("firefox")).unwrap();
}

#[test]
fn local_timeouts_test() {
    timeouts(driver("chrome")).unwrap();
}

#[test]
fn misc_timeouts_test() {
    handle_timeouts(handle("firefox")).unwrap();
    handle_timeouts(handle("chrome")).unwrap();
}

#[test]
fn window_rect_test() {
    window_rect(handle("firefox")).unwrap();
}

#[test]
fn window_window_rect_test() {
    window_rect(handle("chrome")).unwrap();
}

#[test]
fn window_name_test() {
    window_name(handle("firefox")).unwrap();
}

#[test]
fn window_window_name_test() {
    window_name(handle("chrome")).unwrap();
}

#[test]
fn in_new_tab_test() {
    in_new_tab(handle("firefox")).unwrap();
}

#[test]
fn window_in_new_tab_test() {
    in_new_tab(handle("chrome")).unwrap();
}

#[test]
fn screenshot_test() {
    screenshot(handle("firefox")).unwrap();
}

#[test]
fn window_screenshot_test() {
    screenshot(handle("chrome")).unwrap();
}
