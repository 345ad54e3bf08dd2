//! Errors: how answers of the server are read, and how errors are shown.
use thirtyfour::error::{
    indent_lines, no_such_element, WebDriverError, WebDriverErrorInfo, WebDriverErrorInner,
    WebDriverErrorValue,
};
use thirtyfour::http::{interpret_response, interpret_sync_response};
use thirtyfour::json::JsonValue;

fn variant(e: &WebDriverError) -> String {
    let shown = format!("{:?}", e.as_inner());
    shown.split('(').next().unwrap().to_string()
}

fn named(name: &str) -> String {
    let body = format!(r#"{{"value": {{"error": "{}", "message": "m"}}}}"#, name);
    variant(&WebDriverError::parse(404, body))
}

#[test]
fn the_errors_of_the_standard_by_their_names() {
    let names = vec![
        ("element click intercepted", "ElementClickIntercepted"),
        ("element not interactable", "ElementNotInteractable"),
        ("insecure certificate", "InsecureCertificate"),
        ("invalid argument", "InvalidArgument"),
        ("invalid cookie domain", "InvalidCookieDomain"),
        ("invalid element state", "InvalidElementState"),
        ("invalid selector", "InvalidSelector"),
        ("invalid session id", "InvalidSessionId"),
        ("javascript error", "JavascriptError"),
        ("move target out of bounds", "MoveTargetOutOfBounds"),
        ("no such alert", "NoSuchAlert"),
        ("no such cookie", "NoSuchCookie"),
        ("no such element", "NoSuchElement"),
        ("no such frame", "NoSuchFrame"),
        ("no such window", "NoSuchWindow"),
        ("script timeout", "ScriptTimeout"),
        ("session not created", "SessionNotCreated"),
        ("stale element reference", "StaleElementReference"),
        ("timeout", "WebDriverTimeout"),
        ("unable to set cookie", "UnableToSetCookie"),
        ("unable to capture screen", "UnableToCaptureScreen"),
        ("unexpected alert open", "UnexpectedAlertOpen"),
        ("unknown command", "UnknownCommand"),
        ("unknown error", "UnknownError"),
        ("unknown method", "UnknownMethod"),
        ("unsupported operation", "UnsupportedOperation"),
        ("something else", "NotInSpec"),
        ("No such element", "NotInSpec"),
    ];
    for (name, expected) in names {
        assert_eq!(named(name), expected);
    }
}

#[test]
fn the_state_of_an_answer_comes_before_its_error() {
    let e = WebDriverError::parse(
        400,
        r#"{"state": "no such frame", "value": {"error": "timeout", "message": "m"}}"#.to_string(),
    );
    assert_eq!(variant(&e), "NoSuchFrame");
    match e.into_inner() {
        WebDriverErrorInner::NoSuchFrame(info) => {
            assert_eq!(info.status, 400);
            assert_eq!(info.error, "no such frame");
            assert_eq!(info.value.message, "m");
            assert_eq!(info.value.error.as_deref(), Some("timeout"));
        }
        _ => unreachable!(),
    }
}

#[test]
fn an_answer_without_error_information() {
    for body in ["", "not json", "{}", r#"{"value": {}}"#, r#"{"value": {"message": 1}}"#] {
        match WebDriverError::parse(500, body.to_string()).into_inner() {
            WebDriverErrorInner::UnknownResponse(status, text) => {
                assert_eq!(status, 500);
                assert_eq!(text, body);
            }
            _ => panic!("{}", body),
        }
    }
}

#[test]
fn lines_are_indented() {
    assert_eq!(indent_lines("a\nb", 2), "  a\n  b");
    assert_eq!(indent_lines("", 4), "    ");
    assert_eq!(indent_lines("a\n", 1), " a\n ");
    assert_eq!(indent_lines("a", 0), " a");
    assert_eq!(indent_lines("a\n\nb", 3).split('\n').count(), 3);
}

#[test]
fn errors_as_text() {
    let value = WebDriverErrorValue {
        message: "msg".to_string(),
        error: Some("err".to_string()),
        stacktrace: Some("one\ntwo".to_string()),
        data: Some(JsonValue::parse("[1]").unwrap()),
    };
    assert_eq!(
        value.to_text(),
        "msg\nError: err\nData:\n    Array [\n        Number(1),\n    ]\nStacktrace:\n    one\n    two"
    );
    assert_eq!(WebDriverErrorValue::new("m".to_string()).to_text(), "m");
    assert_eq!(WebDriverErrorValue::new(String::new()).to_text(), "");
    let info = WebDriverErrorInfo {
        status: 404,
        error: "state".to_string(),
        value: WebDriverErrorValue::new("m".to_string()),
    };
    assert_eq!(
        info.to_text(),
        "    \n    Status: 404\n    State: state\n    Additional info:\n        m"
    );
    let bare = WebDriverErrorInfo {
        status: 0,
        error: String::new(),
        value: WebDriverErrorValue::new("m".to_string()),
    };
    assert_eq!(bare.to_text(), "    Additional info:\n        m");
    assert_eq!(
        WebDriverErrorInner::NoSuchElement(bare).to_text(),
        "Element not found:     Additional info:\n        m"
    );
    assert_eq!(
        WebDriverErrorInner::UnknownResponse(500, "b".to_string()).to_text(),
        "The WebDriver server returned an unrecognised response: 500 :: b"
    );
    assert_eq!(
        WebDriverErrorInner::NotFound("a".to_string(), "b".to_string()).to_text(),
        "The requested item 'a' was not found: b"
    );
    assert_eq!(
        WebDriverErrorInner::FatalError("x".to_string()).to_text(),
        "Something caused the session to terminate."
    );
}

#[test]
fn an_element_that_is_not_there() {
    match no_such_element("gone".to_string()).into_inner() {
        WebDriverErrorInner::NoSuchElement(info) => {
            assert_eq!(info.status, 400);
            assert_eq!(info.error, "gone");
            assert_eq!(info.value.message, "gone");
            assert!(info.value.error.is_none());
        }
        _ => unreachable!(),
    }
}

#[test]
fn responses() {
    let ok = interpret_response(200, br#"{"value": 1}"#).unwrap();
    assert_eq!(ok.status, 200);
    assert_eq!(ok.value_json().unwrap().as_u64(), Some(1));
    assert!(interpret_response(399, b"null").is_ok());
    let e = interpret_response(200, b"no json").unwrap_err();
    assert_eq!(variant(&e), "UnknownResponse");
    let e = interpret_response(404, br#"{"value": {"error": "no such cookie", "message": ""}}"#)
        .unwrap_err();
    assert_eq!(variant(&e), "NoSuchCookie");
    // What is no text is still shown as well as it can be.
    match interpret_response(500, &[b'a', 0xff]).unwrap_err().into_inner() {
        WebDriverErrorInner::UnknownResponse(500, text) => assert_eq!(text, "a\u{fffd}"),
        _ => unreachable!(),
    }
}

#[test]
fn responses_of_the_other_kind_of_connection() {
    let json = |text: &str| JsonValue::parse(text);
    assert_eq!(interpret_sync_response(200, json("1")).unwrap().as_u64(), Some(1));
    assert_eq!(interpret_sync_response(399, json("2")).unwrap().as_u64(), Some(2));
    let e = interpret_sync_response(200, json("{")).unwrap_err();
    assert_eq!(variant(&e), "Json");
    let e = interpret_sync_response(
        599,
        json(r#"{"value": {"error": "timeout", "message": ""}}"#),
    );
    assert_eq!(variant(&e.unwrap_err()), "WebDriverTimeout");
    let e = interpret_sync_response(400, json("[1]")).unwrap_err();
    assert_eq!(variant(&e), "UnknownResponse");
    match interpret_sync_response(199, json("[1]")).unwrap_err().into_inner() {
        WebDriverErrorInner::RequestFailed(m) => {
            assert_eq!(m, "Unknown response: Array [Number(1)]")
        }
        _ => unreachable!(),
    }
    assert!(interpret_sync_response(600, json("1")).is_err());
}
