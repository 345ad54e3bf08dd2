//! Values that are sent to the server and read back from it.
use thirtyfour::cookie::{Cookie, SameSite};
use thirtyfour::duration::Duration;
use thirtyfour::encoding::{base64_decode, base64_encode};
use thirtyfour::error::WebDriverErrorInner;
use thirtyfour::json::{JsonValue, Object};
use thirtyfour::poller::{
    ElementPoller, ElementPollerNoWait, ElementPollerWithTimeout, IntoElementPoller, Tick,
};
use thirtyfour::print::{PrintOrientation, PrintPageRange};
use thirtyfour::types::{
    ElementRef, OptionRect, Rect, SessionId, TimeoutConfiguration, WebDriverStatus, WindowHandle,
    WindowType,
};
use thirtyfour::webelement::property_of;

fn json(text: &str) -> JsonValue {
    JsonValue::parse(text).unwrap()
}

fn same(v: &JsonValue, text: &str) -> bool {
    let left: serde_json::Value = serde_json::from_str(&v.to_text()).unwrap();
    let right: serde_json::Value = serde_json::from_str(text).unwrap();
    left == right
}

#[test]
fn test_element_ref() {
    let id = "daaea226-43aa-400f-896c-210e5af2ac62";
    let value = json(&format!(r#"{{ "element-6066-11e4-a52e-4f735466cecf": "{}" }}"#, id));
    let elem_ref = ElementRef::from_json(&value).unwrap();
    assert!(matches!(&elem_ref, ElementRef::Element { id: x } if x == id));
    assert_eq!(elem_ref.id(), id);
}

#[test]
fn test_shadow_element_ref() {
    let id = "daaea226-43aa-400f-896c-210e5af2ac62";
    let value = json(&format!(r#"{{ "shadow-6066-11e4-a52e-4f735466cecf": "{}" }}"#, id));
    let elem_ref = ElementRef::from_json(&value).unwrap();
    assert!(matches!(&elem_ref, ElementRef::ShadowElement { id: x } if x == id));
    assert_eq!(elem_ref.id(), id);
}

#[test]
fn an_element_ref_is_read_as_it_was_written() {
    let e = ElementRef::Element { id: "e1".to_string() };
    assert!(same(&e.to_json(), r#"{"element-6066-11e4-a52e-4f735466cecf": "e1"}"#));
    assert_eq!(ElementRef::from_json(&e.to_json()).unwrap().id(), "e1");
    let s = ElementRef::ShadowElement { id: "s1".to_string() };
    assert!(matches!(
        ElementRef::from_json(&s.to_json()).unwrap(),
        ElementRef::ShadowElement { .. }
    ));
    assert!(ElementRef::from_json(&json("{}")).is_none());
    assert!(ElementRef::from_json(&json("\"e1\"")).is_none());
}

fn waits(tick: Tick) -> Option<u128> {
    match tick {
        Tick::Stop => None,
        Tick::Again => Some(0),
        Tick::Wait(d) => Some(d.as_millis()),
    }
}

#[test]
fn test_poller_with_timeout() {
    let mut poller =
        ElementPollerWithTimeout::new(Duration::from_secs(1), Duration::from_millis(500));
    let start = Duration::from_millis(0);
    assert_eq!(waits(poller.tick(start, start)), Some(500));
    // This should have waited 500ms already.
    // Waiting an additional 500ms should exceed the timeout.
    let later = Duration::from_millis(1000);
    assert_eq!(waits(poller.tick(later, later)), None);
}

#[test]
fn test_poller_nowait() {
    let mut poller = ElementPollerNoWait;
    let start = Duration::from_millis(0);
    assert_eq!(waits(poller.tick(start, start)), None); // Should instantly return false.
}

#[test]
fn attempts_are_an_interval_apart() {
    let poller = ElementPollerWithTimeout::new(Duration::from_secs(10), Duration::from_millis(500));
    let mut started = poller.start();
    let at = |n: u64| Duration::from_millis(n);
    assert_eq!(waits(started.tick(at(100), at(120))), Some(380));
    assert_eq!(waits(started.tick(at(600), at(610))), Some(390));
    // The attempt took longer than the interval.
    assert_eq!(waits(started.tick(at(1700), at(1700))), Some(0));
    // The one after it is due as counted from the first.
    assert_eq!(waits(started.tick(at(1710), at(1720))), Some(280));
    assert_eq!(waits(started.tick(at(9999), at(10001))), Some(0));
    assert_eq!(waits(started.tick(at(10000), at(10000))), None);
}

#[test]
fn spans_of_time() {
    assert_eq!(Duration::from_secs(2).as_millis(), 2000);
    assert_eq!(Duration::from_millis(1234).as_millis(), 1234);
    assert!(Duration::from_millis(999).shorter_than(&Duration::from_secs(1)));
    assert!(!Duration::from_secs(1).shorter_than(&Duration::from_millis(1000)));
    let rest = Duration::from_secs(3).minus(&Duration::from_millis(1));
    assert_eq!(rest.as_millis(), 2999);
    assert_eq!(Duration::from_millis(1500).saturating_mul(4).as_millis(), 6000);
    let small = Duration::new(1, 2_000_000_007);
    assert_eq!((small.as_secs(), small.subsec_nanos()), (3, 7));
    assert_eq!(small.as_millis(), 3000);
    assert!(Duration::new(0, 1).shorter_than(&Duration::new(0, 2)));
    let longest = Duration::from_secs(u64::MAX).saturating_mul(2).as_millis();
    assert_eq!(longest, u64::MAX as u128 * 1000 + 999);
}

#[test]
fn a_rectangle_is_read_as_it_was_sent() {
    let rect = Rect::new(1, -2, 3, 4);
    let sent = OptionRect::from(rect).to_json();
    assert!(same(&sent, r#"{"x": 1, "y": -2, "width": 3, "height": 4}"#));
    let got = Rect::from_json(&sent).unwrap();
    assert_eq!((got.x, got.y, got.width, got.height), (1, -2, 3, 4));
    assert!(same(
        &OptionRect::new().to_json(),
        r#"{"x": null, "y": null, "width": null, "height": null}"#
    ));
    assert!(same(
        &OptionRect::new().with_x(5).with_height(6).to_json(),
        r#"{"x": 5, "y": null, "width": null, "height": 6}"#
    ));
    assert!(same(
        &OptionRect::new().with_y(7).with_width(8).to_json(),
        r#"{"x": null, "y": 7, "width": 8, "height": null}"#
    ));
    assert!(Rect::from_json(&json(r#"{"x": 1, "y": 2, "width": 3}"#)).is_none());
    assert!(Rect::from_json(&json(r#"{"x": 1.5, "y": 2, "width": 3, "height": 4}"#)).is_none());
    assert!(Rect::from_json(&json("[1, 2, 3, 4]")).is_some());
}

#[test]
fn timeouts_are_read_as_they_were_sent() {
    let timeouts = TimeoutConfiguration::new(Some(Duration::from_secs(1)), None, None);
    assert!(same(&timeouts.to_json(), r#"{"script": 1000}"#));
    let got = TimeoutConfiguration::from_json(&timeouts.to_json()).unwrap();
    assert_eq!(got.script().unwrap().as_millis(), 1000);
    assert!(got.page_load().is_none());
    let mut usual = TimeoutConfiguration::default();
    assert!(same(&usual.to_json(), r#"{"script": 60000, "pageLoad": 60000, "implicit": 0}"#));
    usual.set_script(None);
    usual.set_page_load(Some(Duration::from_millis(1)));
    usual.set_implicit(Some(Duration::from_millis(2)));
    assert!(same(&usual.to_json(), r#"{"pageLoad": 1, "implicit": 2}"#));
    assert!(TimeoutConfiguration::from_json(&json(r#"{"script": -1}"#)).is_none());
}

#[test]
fn a_cookie_is_read_as_it_was_sent() {
    let mut cookie = Cookie::new("key", JsonValue::text("value"));
    assert!(same(&cookie.to_json(), r#"{"name": "key", "value": "value"}"#));
    cookie.path = Some("/path".to_string());
    cookie.domain = Some("example.com".to_string());
    cookie.secure = Some(true);
    cookie.expiry = Some(-1);
    cookie.same_site = Some(SameSite::Nothing);
    let sent = cookie.to_json();
    assert!(same(
        &sent,
        r#"{"name": "key", "value": "value", "path": "/path", "domain": "example.com",
            "secure": true, "expiry": -1, "sameSite": "None"}"#
    ));
    let got = Cookie::from_json(&sent).unwrap();
    assert_eq!(got.name, "key");
    assert_eq!(got.path.as_deref(), Some("/path"));
    assert_eq!(got.domain.as_deref(), Some("example.com"));
    assert_eq!(got.secure, Some(true));
    assert_eq!(got.expiry, Some(-1));
    assert!(matches!(got.same_site, Some(SameSite::Nothing)));
    assert!(Cookie::from_json(&json(r#"{"name": "key"}"#)).is_none());
    assert!(Cookie::from_json(&json(r#"{"name": "k", "value": 1, "sameSite": "strict"}"#)).is_none());
    assert_eq!(SameSite::Strict.to_text(), "Strict");
    assert_eq!(SameSite::Lax.to_text(), "Lax");
}

#[test]
fn the_status_of_a_server() {
    let status = WebDriverStatus::from_json(&json(r#"{"ready": true, "message": "m"}"#)).unwrap();
    assert!(status.ready);
    assert_eq!(status.message, "m");
    assert!(WebDriverStatus::from_json(&json(r#"{"ready": true}"#)).is_none());
    assert!(WebDriverStatus::from_json(&json(r#"{"ready": 1, "message": "m"}"#)).is_none());
}

#[test]
fn names_and_handles() {
    assert_eq!(SessionId::null().as_str(), "");
    assert_eq!(SessionId::from("s").as_str(), "s");
    assert!(WindowHandle::from("w").same_as(&WindowHandle::from("w".to_string())));
    assert!(!WindowHandle::from("w").same_as(&WindowHandle::from("W")));
    assert_eq!(WindowType::Tab.to_text(), "tab");
    assert_eq!(WindowType::Window.to_text(), "window");
    assert!(same(&PrintPageRange::Integer(3).to_json(), "3"));
    assert!(same(&PrintPageRange::Range("1-2".to_string()).to_json(), "\"1-2\""));
    assert!(same(&PrintOrientation::default().to_json(), "\"portrait\""));
    assert!(same(&PrintOrientation::Landscape.to_json(), "\"landscape\""));
}

#[test]
fn base64_decodes_what_it_encodes() {
    assert_eq!(base64_encode(b"Hello"), "SGVsbG8=");
    assert_eq!(base64_encode(&[0xff, 0xfe]), "//4=");
    assert_eq!(base64_decode("SGVsbG8=").unwrap(), b"Hello");
    let bytes: Vec<u8> = (0..=255).collect();
    assert_eq!(base64_decode(&base64_encode(&bytes)).unwrap(), bytes);
    let error = base64_decode("not base64!").unwrap_err();
    assert!(matches!(error.as_inner(), WebDriverErrorInner::DecodeError(_)));
}

#[test]
fn json_is_read_and_written() {
    let text = r#"{"a":[1,-2,1.5,true,null,"x"],"b":{"c":18446744073709551615}}"#;
    let v = json(text);
    assert_eq!(v.to_text(), text);
    assert_eq!(v.get("b").unwrap().get("c").unwrap().as_u64(), Some(u64::MAX));
    assert!(v.get("b").unwrap().get("c").unwrap().as_i64().is_none());
    assert!(v.get("z").is_none());
    assert!(json("null").get("a").is_none());
    assert!(JsonValue::parse("{").is_err());
    assert!(JsonValue::parse_bytes(&[0xff]).is_err());
    assert_eq!(JsonValue::parse_bytes(b" \"x\" ").unwrap().as_str(), Some("x"));
    assert_eq!(json("[1]").to_debug_line(), "Array [Number(1)]");
    assert_eq!(json("[]").to_debug(), "Array []");
    assert_eq!(json("-1").as_i64(), Some(-1));
    assert!(json("-1").as_u64().is_none());
    assert_eq!(v.clone().to_text(), text);
    for numeral in ["0.1", "1.5", "123456789.12345679", "0.49999999999999994", "-0.0"] {
        assert_eq!(json(numeral).to_text(), numeral);
    }
    assert_eq!(json("[1.50]").to_text(), "[1.5]");
    assert_eq!(json("[1.5]").to_debug_line(), "Array [Number(1.5)]");
    assert_eq!(property_of(&json("1.5")).unwrap(), "1.5");
}

#[test]
fn the_last_member_of_a_name_counts() {
    let mut o = Object::new();
    o.push("a", JsonValue::Bool(false));
    o.push("a", JsonValue::Bool(true));
    assert_eq!(o.get("a").unwrap().as_bool(), Some(true));
    assert_eq!(JsonValue::Object(o.clone()).to_text(), r#"{"a":true}"#);
    o.insert("a", JsonValue::Null);
    assert!(o.get("a").unwrap().is_null());
    assert!(o.remove("a").unwrap().is_null());
    assert!(o.get("a").is_none());
    assert!(o.remove("a").is_none());
}
