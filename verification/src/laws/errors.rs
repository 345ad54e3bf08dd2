//! What the server's errors are read as, and what people read of them.
use vstd::prelude::*;

use crate::error::{
    indent_lines, no_such_element, WebDriverError, WebDriverErrorInfo, WebDriverErrorInner,
    WebDriverErrorValue,
};
use crate::error;
use crate::json::{Json, JsonValue};
use crate::laws::values;
use crate::text;
use crate::wire;

verus! {

/// A part that may be missing or null, and is else a text.
pub open spec fn opt_text(v: Option<Json>) -> Option<Seq<char>> {
    match v {
        Some(Json::Str(s)) => Some(s),
        _ => None,
    }
}

/// What an error says: a message, and a name, a stack trace and data where they are given.
pub open spec fn value_valid(v: Json) -> bool {
    &&& values::record(v, 4)
    &&& values::field(v, 0, "message"@) matches Some(Json::Str(_))
    &&& values::text_valid(values::field(v, 1, "error"@))
    &&& values::text_valid(values::field(v, 2, "stacktrace"@))
}

/// The texts are the same, where there is one.
pub open spec fn same_text(t: Option<String>, s: Option<Seq<char>>) -> bool {
    match (t, s) {
        (Some(t), Some(s)) => t@ == s,
        (None, None) => true,
        _ => false,
    }
}

/// What was read of what an error says, part by part.
pub open spec fn value_read(v: Json, e: WebDriverErrorValue) -> bool {
    &&& values::field(v, 0, "message"@) == Some(Json::Str(e.message@))
    &&& same_text(e.error, opt_text(values::field(v, 1, "error"@)))
    &&& same_text(e.stacktrace, opt_text(values::field(v, 2, "stacktrace"@)))
    &&& match e.data {
        Some(d) => values::field(v, 3, "data"@) == Some(d@) && d@ != Json::Null,
        None => values::field(v, 3, "data"@) is None || values::field(v, 3, "data"@) == Some(
            Json::Null,
        ),
    }
}

/// What an error says is read from the names of its parts.
pub proof fn law_error_values(v: &JsonValue, r: Option<WebDriverErrorValue>)
    requires
        call_ensures(WebDriverErrorValue::from_json, (v,), r),
    ensures
        r is Some <==> value_valid(v@),
        r matches Some(e) ==> value_read(v@, e),
{
}

/// An error stands under `value`, beside a state that may be missing.
pub open spec fn info_valid(v: Json) -> bool {
    &&& values::record(v, 2)
    &&& values::field(v, 0, "state"@) is None || (
    values::field(v, 0, "state"@) matches Some(Json::Str(_)))
    &&& values::field(v, 1, "value"@) matches Some(inner) && value_valid(inner)
}

/// The state, and an empty one where there is none.
pub open spec fn state_in(v: Json) -> Seq<char> {
    match values::field(v, 0, "state"@) {
        Some(Json::Str(s)) => s,
        _ => Seq::empty(),
    }
}

/// What was read of an error.
pub open spec fn info_read(v: Json, status: u16, i: WebDriverErrorInfo) -> bool {
    i.status == status && i.error@ == state_in(v) && (values::field(v, 1, "value"@) matches Some(
        inner,
    ) && value_read(inner, i.value))
}

/// An error is read with the status that it came with.
pub proof fn law_error_infos(v: &JsonValue, status: u16, r: Option<WebDriverErrorInfo>)
    requires
        call_ensures(WebDriverErrorInfo::from_json, (v, status), r),
    ensures
        r is Some <==> info_valid(v@),
        r matches Some(i) ==> info_read(v@, status, i),
{
}

/// The name of an error: its state, and where that is empty the name that it gives itself.
pub open spec fn name_in(v: Json) -> Seq<char> {
    if state_in(v).len() != 0 {
        state_in(v)
    } else {
        match values::field(v, 1, "value"@) {
            Some(inner) => match opt_text(values::field(inner, 1, "error"@)) {
                Some(e) => e,
                None => Seq::empty(),
            },
            None => Seq::empty(),
        }
    }
}

proof fn lemma_error_names()
    ensures
        "element click intercepted"@.len() == 25 && "element click intercepted"@[0] == 'e'
            && "element click intercepted"@[8] == 'c',
        "element not interactable"@.len() == 24 && "element not interactable"@[0] == 'e'
            && "element not interactable"@[8] == 'n',
        "insecure certificate"@.len() == 20 && "insecure certificate"@[0] == 'i'
            && "insecure certificate"@[8] == ' ',
        "invalid argument"@.len() == 16 && "invalid argument"@[0] == 'i'
            && "invalid argument"@[8] == 'a',
        "invalid cookie domain"@.len() == 21 && "invalid cookie domain"@[0] == 'i'
            && "invalid cookie domain"@[8] == 'c',
        "invalid element state"@.len() == 21 && "invalid element state"@[0] == 'i'
            && "invalid element state"@[8] == 'e',
        "invalid selector"@.len() == 16 && "invalid selector"@[0] == 'i'
            && "invalid selector"@[8] == 's',
        "invalid session id"@.len() == 18 && "invalid session id"@[0] == 'i'
            && "invalid session id"@[8] == 's',
        "javascript error"@.len() == 16 && "javascript error"@[0] == 'j'
            && "javascript error"@[8] == 'p',
        "move target out of bounds"@.len() == 25 && "move target out of bounds"@[0] == 'm'
            && "move target out of bounds"@[8] == 'g',
        "no such alert"@.len() == 13 && "no such alert"@[0] == 'n' && "no such alert"@[8] == 'a',
        "no such cookie"@.len() == 14 && "no such cookie"@[0] == 'n' && "no such cookie"@[8] == 'c',
        "no such element"@.len() == 15 && "no such element"@[0] == 'n'
            && "no such element"@[8] == 'e',
        "no such frame"@.len() == 13 && "no such frame"@[0] == 'n' && "no such frame"@[8] == 'f',
        "no such window"@.len() == 14 && "no such window"@[0] == 'n' && "no such window"@[8] == 'w',
        "script timeout"@.len() == 14 && "script timeout"@[0] == 's' && "script timeout"@[8] == 'i',
        "session not created"@.len() == 19 && "session not created"@[0] == 's'
            && "session not created"@[8] == 'n',
        "stale element reference"@.len() == 23 && "stale element reference"@[0] == 's'
            && "stale element reference"@[8] == 'e',
        "timeout"@.len() == 7 && "timeout"@[0] == 't',
        "unable to set cookie"@.len() == 20 && "unable to set cookie"@[0] == 'u'
            && "unable to set cookie"@[8] == 'o',
        "unable to capture screen"@.len() == 24 && "unable to capture screen"@[0] == 'u'
            && "unable to capture screen"@[8] == 'o',
        "unexpected alert open"@.len() == 21 && "unexpected alert open"@[0] == 'u'
            && "unexpected alert open"@[8] == 'e',
        "unknown command"@.len() == 15 && "unknown command"@[0] == 'u'
            && "unknown command"@[8] == 'c',
        "unknown error"@.len() == 13 && "unknown error"@[0] == 'u' && "unknown error"@[8] == 'e',
        "unknown method"@.len() == 14 && "unknown method"@[0] == 'u' && "unknown method"@[8] == 'm',
        "unsupported operation"@.len() == 21 && "unsupported operation"@[0] == 'u'
            && "unsupported operation"@[8] == 't',
{
    reveal_strlit("element click intercepted");
    reveal_strlit("element not interactable");
    reveal_strlit("insecure certificate");
    reveal_strlit("invalid argument");
    reveal_strlit("invalid cookie domain");
    reveal_strlit("invalid element state");
    reveal_strlit("invalid selector");
    reveal_strlit("invalid session id");
    reveal_strlit("javascript error");
    reveal_strlit("move target out of bounds");
    reveal_strlit("no such alert");
    reveal_strlit("no such cookie");
    reveal_strlit("no such element");
    reveal_strlit("no such frame");
    reveal_strlit("no such window");
    reveal_strlit("script timeout");
    reveal_strlit("session not created");
    reveal_strlit("stale element reference");
    reveal_strlit("timeout");
    reveal_strlit("unable to set cookie");
    reveal_strlit("unable to capture screen");
    reveal_strlit("unexpected alert open");
    reveal_strlit("unknown command");
    reveal_strlit("unknown error");
    reveal_strlit("unknown method");
    reveal_strlit("unsupported operation");
}

/// The error is the one of its name, and holds what was read of it.
pub open spec fn is_named(e: WebDriverErrorInner, name: Seq<char>, v: Json, status: u16) -> bool {
    match e {
        WebDriverErrorInner::ElementClickIntercepted(i) => name == "element click intercepted"@
            && info_read(v, status, i),
        WebDriverErrorInner::ElementNotInteractable(i) => name == "element not interactable"@
            && info_read(v, status, i),
        WebDriverErrorInner::InsecureCertificate(i) => name == "insecure certificate"@
            && info_read(v, status, i),
        WebDriverErrorInner::InvalidArgument(i) => name == "invalid argument"@
            && info_read(v, status, i),
        WebDriverErrorInner::InvalidCookieDomain(i) => name == "invalid cookie domain"@
            && info_read(v, status, i),
        WebDriverErrorInner::InvalidElementState(i) => name == "invalid element state"@
            && info_read(v, status, i),
        WebDriverErrorInner::InvalidSelector(i) => name == "invalid selector"@
            && info_read(v, status, i),
        WebDriverErrorInner::InvalidSessionId(i) => name == "invalid session id"@
            && info_read(v, status, i),
        WebDriverErrorInner::JavascriptError(i) => name == "javascript error"@
            && info_read(v, status, i),
        WebDriverErrorInner::MoveTargetOutOfBounds(i) => name == "move target out of bounds"@
            && info_read(v, status, i),
        WebDriverErrorInner::NoSuchAlert(i) => name == "no such alert"@ && info_read(v, status, i),
        WebDriverErrorInner::NoSuchCookie(i) => name == "no such cookie"@
            && info_read(v, status, i),
        WebDriverErrorInner::NoSuchElement(i) => name == "no such element"@
            && info_read(v, status, i),
        WebDriverErrorInner::NoSuchFrame(i) => name == "no such frame"@ && info_read(v, status, i),
        WebDriverErrorInner::NoSuchWindow(i) => name == "no such window"@
            && info_read(v, status, i),
        WebDriverErrorInner::ScriptTimeout(i) => name == "script timeout"@
            && info_read(v, status, i),
        WebDriverErrorInner::SessionNotCreated(i) => name == "session not created"@
            && info_read(v, status, i),
        WebDriverErrorInner::StaleElementReference(i) => name == "stale element reference"@
            && info_read(v, status, i),
        WebDriverErrorInner::WebDriverTimeout(i) => name == "timeout"@ && info_read(v, status, i),
        WebDriverErrorInner::UnableToSetCookie(i) => name == "unable to set cookie"@
            && info_read(v, status, i),
        WebDriverErrorInner::UnableToCaptureScreen(i) => name == "unable to capture screen"@
            && info_read(v, status, i),
        WebDriverErrorInner::UnexpectedAlertOpen(i) => name == "unexpected alert open"@
            && info_read(v, status, i),
        WebDriverErrorInner::UnknownCommand(i) => name == "unknown command"@
            && info_read(v, status, i),
        WebDriverErrorInner::UnknownError(i) => name == "unknown error"@ && info_read(v, status, i),
        WebDriverErrorInner::UnknownMethod(i) => name == "unknown method"@
            && info_read(v, status, i),
        WebDriverErrorInner::UnsupportedOperation(i) => name == "unsupported operation"@
            && info_read(v, status, i),
        WebDriverErrorInner::NotInSpec(i) => !known(name) && info_read(v, status, i),
        _ => false,
    }
}

/// The names of the standard.
pub open spec fn known(name: Seq<char>) -> bool {
    ||| name == "element click intercepted"@
    ||| name == "element not interactable"@
    ||| name == "insecure certificate"@
    ||| name == "invalid argument"@
    ||| name == "invalid cookie domain"@
    ||| name == "invalid element state"@
    ||| name == "invalid selector"@
    ||| name == "invalid session id"@
    ||| name == "javascript error"@
    ||| name == "move target out of bounds"@
    ||| name == "no such alert"@
    ||| name == "no such cookie"@
    ||| name == "no such element"@
    ||| name == "no such frame"@
    ||| name == "no such window"@
    ||| name == "script timeout"@
    ||| name == "session not created"@
    ||| name == "stale element reference"@
    ||| name == "timeout"@
    ||| name == "unable to set cookie"@
    ||| name == "unable to capture screen"@
    ||| name == "unexpected alert open"@
    ||| name == "unknown command"@
    ||| name == "unknown error"@
    ||| name == "unknown method"@
    ||| name == "unsupported operation"@
}

proof fn lemma_named(e: WebDriverErrorInner, i: WebDriverErrorInfo, v: Json, status: u16)
    requires
        error::error_info_of(v, status) == Some(i@),
        e == error::named_error(error::error_name(i@), i),
    ensures
        info_valid(v),
        is_named(e, name_in(v), v, status),
{
    lemma_error_names();
    assert(info_read(v, status, i));
    assert(error::error_name(i@) == name_in(v));
}

/// What an answer with an error says is the error of its name, or a response that nobody knows.
pub proof fn lemma_answer(e: WebDriverErrorInner, status: u16, body: Seq<char>)
    requires
        error::answers_error(e, status, body),
    ensures
        match wire::json_of_text(body) {
            Ok(v) => if info_valid(v) {
                is_named(e, name_in(v), v, status)
            } else {
                e matches WebDriverErrorInner::UnknownResponse(s, b) && s == status && b@ == body
            },
            Err(_) => e matches WebDriverErrorInner::UnknownResponse(s, b) && s == status && b@
                == body,
        },
{
    if let Ok(v) = wire::json_of_text(body) {
        assert(info_valid(v) <==> error::error_info_of(v, status) is Some);
        if let Some(info) = error::error_info_of(v, status) {
            let i = choose|i: WebDriverErrorInfo|
                #![trigger i@]
                i@ == info && e == error::named_error(error::error_name(info), i);
            lemma_named(e, i, v, status);
        }
    }
}

/// What a value with an error says is the error of its name.
pub proof fn lemma_info(e: WebDriverErrorInner, v: Json, status: u16)
    ensures
        info_valid(v) <==> error::error_info_of(v, status) is Some,
        error::error_info_of(v, status) matches Some(info) && (exists|i: WebDriverErrorInfo|
            #![trigger i@]
            i@ == info && e == error::named_error(error::error_name(info), i)) ==> is_named(
            e,
            name_in(v),
            v,
            status,
        ),
{
    if let Some(info) = error::error_info_of(v, status) {
        if exists|i: WebDriverErrorInfo|
            #![trigger i@]
            i@ == info && e == error::named_error(error::error_name(info), i) {
            let i = choose|i: WebDriverErrorInfo|
                #![trigger i@]
                i@ == info && e == error::named_error(error::error_name(info), i);
            lemma_named(e, i, v, status);
        }
    }
}

/// A body that holds an error is the error of its name: each name of the standard has its own, and
/// a name that is not in the standard is told apart from all of them. A body that holds none is
/// handed on with its status.
pub proof fn law_errors_are_read(status: u16, body: String, r: WebDriverError)
    requires
        call_ensures(WebDriverError::parse, (status, body), r),
    ensures
        match wire::json_of_text(body@) {
            Ok(v) => if info_valid(v) {
                is_named(r@, name_in(v), v, status)
            } else {
                r@ matches WebDriverErrorInner::UnknownResponse(s, b) && s == status && b@ == body@
            },
            Err(_) => r@ matches WebDriverErrorInner::UnknownResponse(s, b) && s == status && b@
                == body@,
        },
{
    lemma_answer(r@, status, body@);
}

/// An answer that holds an error is read in the same way.
pub proof fn law_error_answers(status: u16, v: &JsonValue, r: Option<WebDriverError>)
    requires
        call_ensures(WebDriverError::from_answer, (status, v), r),
    ensures
        r is Some <==> info_valid(v@),
        r matches Some(e) ==> is_named(e@, name_in(v@), v@, status),
{
    assert(info_valid(v@) <==> error::error_info_of(v@, status) is Some);
    if let Some(e) = r {
        let info = error::error_info_of(v@, status)->0;
        let i = choose|i: WebDriverErrorInfo|
            #![trigger i@]
            i@ == info && e@ == error::named_error(error::error_name(info), i);
        lemma_named(e@, i, v@, status);
    }
}

/// An error that is made by name is the error of that name.
pub proof fn law_error_constructors(a: String, b: String, n: u16, i: WebDriverErrorInfo)
    ensures
        forall|r: WebDriverError| #[trigger]
            call_ensures(WebDriverError::UnknownResponse, (n, a), r)
            ==> r@ == WebDriverErrorInner::UnknownResponse(n, a),
        forall|r: WebDriverError| #[trigger] call_ensures(WebDriverError::NotFound, (a, b), r)
            ==> r@ == WebDriverErrorInner::NotFound(a, b),
        forall|r: WebDriverError| #[trigger] call_ensures(WebDriverError::RequestFailed, (a,), r)
            ==> r@ == WebDriverErrorInner::RequestFailed(a),
        forall|r: WebDriverError| #[trigger] call_ensures(WebDriverError::ParseError, (a,), r)
            ==> r@ == WebDriverErrorInner::ParseError(a),
        forall|r: WebDriverError| #[trigger] call_ensures(WebDriverError::Timeout, (a,), r)
            ==> r@ == WebDriverErrorInner::Timeout(a),
        forall|r: WebDriverError| #[trigger] call_ensures(WebDriverError::Json, (a,), r)
            ==> r@ == WebDriverErrorInner::Json(a),
        forall|r: WebDriverError| #[trigger] call_ensures(WebDriverError::DecodeError, (a,), r)
            ==> r@ == WebDriverErrorInner::DecodeError(a),
        forall|r: WebDriverError| #[trigger] call_ensures(WebDriverError::IoError, (a,), r)
            ==> r@ == WebDriverErrorInner::IoError(a),
        forall|r: WebDriverError| #[trigger] call_ensures(WebDriverError::HttpError, (a,), r)
            ==> r@ == WebDriverErrorInner::HttpError(a),
        forall|r: WebDriverError| #[trigger] call_ensures(WebDriverError::InvalidUrl, (a,), r)
            ==> r@ == WebDriverErrorInner::InvalidUrl(a),
        forall|r: WebDriverError| #[trigger] call_ensures(WebDriverError::FatalError, (a,), r)
            ==> r@ == WebDriverErrorInner::FatalError(a),
        forall|r: WebDriverError| #[trigger]
            call_ensures(WebDriverError::CommandRecvError, (a,), r)
            ==> r@ == WebDriverErrorInner::CommandRecvError(a),
        forall|r: WebDriverError| #[trigger]
            call_ensures(WebDriverError::CommandSendError, (a,), r)
            ==> r@ == WebDriverErrorInner::CommandSendError(a),
        forall|r: WebDriverError| #[trigger]
            call_ensures(WebDriverError::SessionCreateError, (a,), r)
            ==> r@ == WebDriverErrorInner::SessionCreateError(a),
        forall|r: WebDriverError| #[trigger] call_ensures(WebDriverError::NotInSpec, (i,), r)
            ==> r@ == WebDriverErrorInner::NotInSpec(i),
        forall|r: WebDriverError| #[trigger]
            call_ensures(WebDriverError::ElementClickIntercepted, (i,), r)
            ==> r@ == WebDriverErrorInner::ElementClickIntercepted(i),
        forall|r: WebDriverError| #[trigger]
            call_ensures(WebDriverError::ElementNotInteractable, (i,), r)
            ==> r@ == WebDriverErrorInner::ElementNotInteractable(i),
        forall|r: WebDriverError| #[trigger]
            call_ensures(WebDriverError::InsecureCertificate, (i,), r)
            ==> r@ == WebDriverErrorInner::InsecureCertificate(i),
        forall|r: WebDriverError| #[trigger] call_ensures(WebDriverError::InvalidArgument, (i,), r)
            ==> r@ == WebDriverErrorInner::InvalidArgument(i),
        forall|r: WebDriverError| #[trigger]
            call_ensures(WebDriverError::InvalidCookieDomain, (i,), r)
            ==> r@ == WebDriverErrorInner::InvalidCookieDomain(i),
        forall|r: WebDriverError| #[trigger]
            call_ensures(WebDriverError::InvalidElementState, (i,), r)
            ==> r@ == WebDriverErrorInner::InvalidElementState(i),
        forall|r: WebDriverError| #[trigger] call_ensures(WebDriverError::InvalidSelector, (i,), r)
            ==> r@ == WebDriverErrorInner::InvalidSelector(i),
        forall|r: WebDriverError| #[trigger]
            call_ensures(WebDriverError::InvalidSessionId, (i,), r)
            ==> r@ == WebDriverErrorInner::InvalidSessionId(i),
        forall|r: WebDriverError| #[trigger] call_ensures(WebDriverError::JavascriptError, (i,), r)
            ==> r@ == WebDriverErrorInner::JavascriptError(i),
        forall|r: WebDriverError| #[trigger]
            call_ensures(WebDriverError::MoveTargetOutOfBounds, (i,), r)
            ==> r@ == WebDriverErrorInner::MoveTargetOutOfBounds(i),
        forall|r: WebDriverError| #[trigger] call_ensures(WebDriverError::NoSuchAlert, (i,), r)
            ==> r@ == WebDriverErrorInner::NoSuchAlert(i),
        forall|r: WebDriverError| #[trigger] call_ensures(WebDriverError::NoSuchCookie, (i,), r)
            ==> r@ == WebDriverErrorInner::NoSuchCookie(i),
        forall|r: WebDriverError| #[trigger] call_ensures(WebDriverError::NoSuchElement, (i,), r)
            ==> r@ == WebDriverErrorInner::NoSuchElement(i),
        forall|r: WebDriverError| #[trigger] call_ensures(WebDriverError::NoSuchFrame, (i,), r)
            ==> r@ == WebDriverErrorInner::NoSuchFrame(i),
        forall|r: WebDriverError| #[trigger] call_ensures(WebDriverError::NoSuchWindow, (i,), r)
            ==> r@ == WebDriverErrorInner::NoSuchWindow(i),
        forall|r: WebDriverError| #[trigger] call_ensures(WebDriverError::ScriptTimeout, (i,), r)
            ==> r@ == WebDriverErrorInner::ScriptTimeout(i),
        forall|r: WebDriverError| #[trigger]
            call_ensures(WebDriverError::SessionNotCreated, (i,), r)
            ==> r@ == WebDriverErrorInner::SessionNotCreated(i),
        forall|r: WebDriverError| #[trigger]
            call_ensures(WebDriverError::StaleElementReference, (i,), r)
            ==> r@ == WebDriverErrorInner::StaleElementReference(i),
        forall|r: WebDriverError| #[trigger]
            call_ensures(WebDriverError::WebDriverTimeout, (i,), r)
            ==> r@ == WebDriverErrorInner::WebDriverTimeout(i),
        forall|r: WebDriverError| #[trigger]
            call_ensures(WebDriverError::UnableToSetCookie, (i,), r)
            ==> r@ == WebDriverErrorInner::UnableToSetCookie(i),
        forall|r: WebDriverError| #[trigger]
            call_ensures(WebDriverError::UnableToCaptureScreen, (i,), r)
            ==> r@ == WebDriverErrorInner::UnableToCaptureScreen(i),
        forall|r: WebDriverError| #[trigger]
            call_ensures(WebDriverError::UnexpectedAlertOpen, (i,), r)
            ==> r@ == WebDriverErrorInner::UnexpectedAlertOpen(i),
        forall|r: WebDriverError| #[trigger] call_ensures(WebDriverError::UnknownCommand, (i,), r)
            ==> r@ == WebDriverErrorInner::UnknownCommand(i),
        forall|r: WebDriverError| #[trigger] call_ensures(WebDriverError::UnknownError, (i,), r)
            ==> r@ == WebDriverErrorInner::UnknownError(i),
        forall|r: WebDriverError| #[trigger] call_ensures(WebDriverError::UnknownMethod, (i,), r)
            ==> r@ == WebDriverErrorInner::UnknownMethod(i),
        forall|r: WebDriverError| #[trigger]
            call_ensures(WebDriverError::UnsupportedOperation, (i,), r)
            ==> r@ == WebDriverErrorInner::UnsupportedOperation(i),
{
}

/// An error keeps what it was made of.
pub proof fn law_error_contents(e: WebDriverErrorInner, x: WebDriverError, y: &WebDriverErrorInner,
    z: WebDriverErrorInner)
    requires
        call_ensures(WebDriverError::from_inner, (e,), x),
        call_ensures(WebDriverError::as_inner, (&x,), y),
        call_ensures(WebDriverError::into_inner, (x,), z),
    ensures
        *y == e,
        z == e,
{
}

/// What people read of an error starts with what it is, and goes on with what it holds.
pub proof fn law_error_texts(e: &WebDriverErrorInner, r: String)
    requires
        call_ensures(WebDriverErrorInner::to_text, (e,), r),
    ensures
        e matches WebDriverErrorInner::UnknownResponse(a, b)
            ==> r@ == "The WebDriver server returned an unrecognised response: "@
            + text::decimal(*a as nat) + " :: "@ + b@,
        e matches WebDriverErrorInner::NotFound(a, b)
            ==> r@ == "The requested item '"@ + a@ + "' was not found: "@ + b@,
        e matches WebDriverErrorInner::RequestFailed(a)
            ==> r@ == "Failed to send request to webdriver: "@ + a@,
        e matches WebDriverErrorInner::ParseError(a) ==> r@ == "parse error: "@ + a@,
        e matches WebDriverErrorInner::Timeout(a) ==> r@ == "operation timed out: "@ + a@,
        e matches WebDriverErrorInner::Json(a) ==> r@ == "Unable to parse JSON: "@ + a@,
        e matches WebDriverErrorInner::DecodeError(a) ==> r@ == "Unable to decode base64: "@ + a@,
        e matches WebDriverErrorInner::IoError(a) ==> r@ == "IO Error: "@ + a@,
        e matches WebDriverErrorInner::HttpError(a)
            ==> r@ == "The WebDriver request returned an error: "@ + a@,
        e matches WebDriverErrorInner::InvalidUrl(a)
            ==> r@ == "An argument passed to the WebDriver server was invalid: "@ + a@,
        e matches WebDriverErrorInner::CommandRecvError(a)
            ==> r@ == "Failed to receive command: "@ + a@,
        e matches WebDriverErrorInner::CommandSendError(a)
            ==> r@ == "The command could not be sent to the session: "@ + a@,
        e matches WebDriverErrorInner::SessionCreateError(a)
            ==> r@ == "Could not create session: "@ + a@,
        e is FatalError ==> r@ == "Something caused the session to terminate."@,
{
}

/// What people read of an error of the server starts with what it is, and goes on with what the
/// server said.
pub proof fn law_server_error_texts(
    e: &WebDriverErrorInner,
    i: WebDriverErrorInfo,
    r: String,
    said: String,
)
    requires
        call_ensures(WebDriverErrorInner::to_text, (e,), r),
        call_ensures(WebDriverErrorInfo::to_text, (&i,), said),
    ensures
        *e == WebDriverErrorInner::NotInSpec(i)
            ==> r@ == "The WebDriver response does not conform to the W3C WebDriver spec: "@
            + said@,
        *e == WebDriverErrorInner::ElementClickIntercepted(i)
            ==> r@ == "The click event was intercepted by another element: "@ + said@,
        *e == WebDriverErrorInner::ElementNotInteractable(i)
            ==> r@ == "The element is not interactable: "@ + said@,
        *e == WebDriverErrorInner::InsecureCertificate(i)
            ==> r@ == "The certificate is insecure: "@ + said@,
        *e == WebDriverErrorInner::InvalidArgument(i)
            ==> r@ == "An argument passed to the WebDriver server was invalid: "@ + said@,
        *e == WebDriverErrorInner::InvalidCookieDomain(i)
            ==> r@ == "Invalid cookie domain: "@ + said@,
        *e == WebDriverErrorInner::InvalidElementState(i)
            ==> r@ == "The element is in an invalid state: "@ + said@,
        *e == WebDriverErrorInner::InvalidSelector(i)
            ==> r@ == "The specified element selector is invalid: "@ + said@,
        *e == WebDriverErrorInner::InvalidSessionId(i)
            ==> r@ == "The WebDriver session id is invalid: "@ + said@,
        *e == WebDriverErrorInner::JavascriptError(i)
            ==> r@ == "The Javascript code returned an error: "@ + said@,
        *e == WebDriverErrorInner::MoveTargetOutOfBounds(i)
            ==> r@ == "Unable to scroll the element into the viewport: "@ + said@,
        *e == WebDriverErrorInner::NoSuchAlert(i) ==> r@ == "Alert not found: "@ + said@,
        *e == WebDriverErrorInner::NoSuchCookie(i) ==> r@ == "Cookie not found: "@ + said@,
        *e == WebDriverErrorInner::NoSuchElement(i) ==> r@ == "Element not found: "@ + said@,
        *e == WebDriverErrorInner::NoSuchFrame(i) ==> r@ == "Frame not found: "@ + said@,
        *e == WebDriverErrorInner::NoSuchWindow(i) ==> r@ == "Window not found: "@ + said@,
        *e == WebDriverErrorInner::ScriptTimeout(i)
            ==> r@ == "The Javascript code did not complete within the script timeout (see WebDriver::set_script_timeout()): "@ + said@,
        *e == WebDriverErrorInner::SessionNotCreated(i)
            ==> r@ == "Unable to create WebDriver session: "@ + said@,
        *e == WebDriverErrorInner::StaleElementReference(i) ==> r@ == "Element is stale: "@ + said@,
        *e == WebDriverErrorInner::WebDriverTimeout(i) ==> r@ == "Operation timed out: "@ + said@,
        *e == WebDriverErrorInner::UnableToSetCookie(i) ==> r@ == "Unable to set cookie: "@ + said@,
        *e == WebDriverErrorInner::UnableToCaptureScreen(i)
            ==> r@ == "Unable to capture screenshot: "@ + said@,
        *e == WebDriverErrorInner::UnexpectedAlertOpen(i)
            ==> r@ == "An unexpected alert is currently open: "@ + said@,
        *e == WebDriverErrorInner::UnknownCommand(i) ==> r@ == "Unknown command: "@ + said@,
        *e == WebDriverErrorInner::UnknownError(i) ==> r@ == "Unknown error: "@ + said@,
        *e == WebDriverErrorInner::UnknownMethod(i) ==> r@ == "Unknown method: "@ + said@,
        *e == WebDriverErrorInner::UnsupportedOperation(i)
            ==> r@ == "Unsupport operation: "@ + said@,
{
}

/// Lines of a text.
pub open spec fn lines(t: Seq<char>) -> Seq<Seq<char>> {
    text::split_at(t, '\n')
}

/// Every line is moved to the right by the same number of blanks, by one at least, and no line is
/// lost.
pub proof fn law_indented_lines(message: &str, indent: usize, r: String)
    requires
        call_ensures(indent_lines, (message, indent), r),
    ensures
        lines(r@).len() == lines(message@).len(),
        forall|i: int|
            0 <= i < lines(r@).len() ==> {
                let n = if indent == 0 {
                    1
                } else {
                    indent as int
                };
                &&& (#[trigger] lines(r@)[i]).len() == n + lines(message@)[i].len()
                &&& forall|k: int| 0 <= k < n ==> #[trigger] lines(r@)[i][k] == ' '
                &&& lines(r@)[i].skip(n) == lines(message@)[i]
            },
{
    error::lemma_indented_lines(message@, indent as nat);
    let n = if indent == 0 {
        1
    } else {
        indent as int
    };
    assert forall|i: int| 0 <= i < lines(r@).len() implies lines(r@)[i].skip(n) == lines(
        message@,
    )[i] by {
        assert((error::padding(indent as nat) + lines(message@)[i]).skip(n) =~= lines(message@)[i]);
    }
}

/// What an error says is shown line by line: the message, its name and its trace, each where there
/// is one and each on lines of its own.
pub proof fn law_error_value_text(e: &WebDriverErrorValue, r: String, trace: &str, shifted: String)
    requires
        call_ensures(WebDriverErrorValue::to_text, (e,), r),
        e.data is None,
        e.message@.len() > 0,
        e.stacktrace matches Some(s) ==> s@ == trace@,
        call_ensures(indent_lines, (trace, 4usize), shifted),
    ensures
        e.error is None && e.stacktrace is None ==> r@ == e.message@,
        e.error is Some && e.stacktrace is None ==> r@ == e.message@ + "\n"@ + ("Error: "@
            + e.error->0@),
        e.error is None && e.stacktrace is Some ==> r@ == e.message@ + "\n"@ + ("Stacktrace:\n"@
            + shifted@),
        e.error is Some && e.stacktrace is Some ==> r@ == e.message@ + "\n"@ + ("Error: "@
            + e.error->0@) + "\n"@ + ("Stacktrace:\n"@ + shifted@),
{
    reveal_strlit("Error: ");
    reveal_strlit("Stacktrace:\n");
    let error = match text::opt_text(e.error) {
        Some(n) => "Error: "@ + n,
        None => Seq::<char>::empty(),
    };
    let stacktrace = match text::opt_text(e.stacktrace) {
        Some(s) => "Stacktrace:\n"@ + error::indented(s, 4),
        None => Seq::<char>::empty(),
    };
    let parts = seq![e.message@, error, Seq::<char>::empty(), stacktrace];
    assert(r@ == text::joined(error::nonempty(parts), "\n"@));
    lemma_four(e.message@, error, stacktrace);
}

proof fn lemma_four(a: Seq<char>, b: Seq<char>, c: Seq<char>)
    requires
        a.len() > 0,
    ensures
        ({
            let shown = text::joined(
                error::nonempty(seq![a, b, Seq::<char>::empty(), c]),
                "\n"@,
            );
            &&& b.len() == 0 && c.len() == 0 ==> shown == a
            &&& b.len() > 0 && c.len() == 0 ==> shown == a + "\n"@ + b
            &&& b.len() == 0 && c.len() > 0 ==> shown == a + "\n"@ + c
            &&& b.len() > 0 && c.len() > 0 ==> shown == a + "\n"@ + b + "\n"@ + c
        }),
{
    reveal_with_fuel(error::nonempty, 5);
    reveal_with_fuel(text::joined, 4);
    let e = Seq::<char>::empty();
    assert(seq![a, b, e, c].drop_last() =~= seq![a, b, e]);
    assert(seq![a, b, e].drop_last() =~= seq![a, b]);
    assert(seq![a, b].drop_last() =~= seq![a]);
    assert(seq![a].drop_last() =~= Seq::<Seq<char>>::empty());
    let kept = error::nonempty(seq![a, b, e, c]);
    assert(error::nonempty(seq![a]) =~= seq![a]);
    if b.len() > 0 {
        assert(error::nonempty(seq![a, b]) =~= seq![a, b]);
    } else {
        assert(error::nonempty(seq![a, b]) =~= seq![a]);
    }
    if c.len() > 0 && b.len() > 0 {
        assert(kept =~= seq![a, b, c]);
        assert(seq![a, b, c].drop_last() =~= seq![a, b]);
    } else if c.len() > 0 {
        assert(kept =~= seq![a, c]);
        assert(seq![a, c].drop_last() =~= seq![a]);
    }
}

/// An error is shown with its status and its state where it has them, and then what it says, all
/// of it moved to the right.
pub proof fn law_error_info_text(
    i: &WebDriverErrorInfo,
    r: String,
    said: String,
    moved: String,
    whole: &str,
    all: String,
)
    requires
        call_ensures(WebDriverErrorInfo::to_text, (i,), r),
        call_ensures(WebDriverErrorValue::to_text, (&i.value,), said),
        exists|t: &str| t@ == said@ && call_ensures(indent_lines, (t, 4usize), moved),
        whole@ == (if i.status != 0 {
            "\nStatus: "@ + text::decimal(i.status as nat) + "\n"@
        } else {
            Seq::empty()
        }) + (if i.error@.len() != 0 {
            "State: "@ + i.error@ + "\n"@
        } else {
            Seq::empty()
        }) + ("Additional info:\n"@ + moved@),
        call_ensures(indent_lines, (whole, 4usize), all),
    ensures
        r@ == all@,
{
}

/// An error that is made of a message alone says that message.
pub proof fn law_plain_errors(message: String, v: WebDriverErrorValue, i: WebDriverErrorInfo,
    e: WebDriverError)
    requires
        call_ensures(WebDriverErrorValue::new, (message,), v),
        call_ensures(WebDriverErrorInfo::new, (message,), i),
        call_ensures(no_such_element, (message,), e),
    ensures
        v.message@ == message@ && v.error is None && v.stacktrace is None && v.data is None,
        i.status == 0 && i.error@ == message@ && i.value.message@ == message@ && i.value.error
            is None && i.value.stacktrace is None && i.value.data is None,
        e@ matches WebDriverErrorInner::NoSuchElement(n) && n.status == 400 && n.error@ == message@
            && n.value.message@ == message@ && n.value.error is None && n.value.stacktrace is None
            && n.value.data is None,
{
}

/// One text below the other, where both are there.
pub open spec fn below(a: Seq<char>, b: Seq<char>) -> Seq<char> {
    if a.len() == 0 {
        b
    } else if b.len() == 0 {
        a
    } else {
        a + "\n"@ + b
    }
}

/// What an error says is shown from its message on: its name, its data and its trace stand below
/// one another in that order, and what is not there takes no line. Data and trace are set in by
/// four.
pub proof fn law_error_value_lines(
    e: &WebDriverErrorValue,
    r: String,
    trace: &str,
    trace_in: String,
    data: &str,
    data_in: String,
)
    requires
        call_ensures(WebDriverErrorValue::to_text, (e,), r),
        e.stacktrace matches Some(s) ==> s@ == trace@,
        call_ensures(indent_lines, (trace, 4usize), trace_in),
        e.data matches Some(d) ==> data@ == wire::debug_of_json(wire::settled(d@)),
        call_ensures(indent_lines, (data, 4usize), data_in),
    ensures
        r@ == below(
            below(
                below(
                    e.message@,
                    if e.error is Some {
                        "Error: "@ + e.error->0@
                    } else {
                        Seq::empty()
                    },
                ),
                if e.data is Some {
                    "Data:\n"@ + data_in@
                } else {
                    Seq::empty()
                },
            ),
            if e.stacktrace is Some {
                "Stacktrace:\n"@ + trace_in@
            } else {
                Seq::empty()
            },
        ),
{
    let b = if e.error is Some {
        "Error: "@ + e.error->0@
    } else {
        Seq::<char>::empty()
    };
    let c = if e.data is Some {
        "Data:\n"@ + data_in@
    } else {
        Seq::<char>::empty()
    };
    let d = if e.stacktrace is Some {
        "Stacktrace:\n"@ + trace_in@
    } else {
        Seq::<char>::empty()
    };
    assert(r@ == text::joined(error::nonempty(seq![e.message@, b, c, d]), "\n"@));
    lemma_below(e.message@, b, c, d);
}

proof fn lemma_below(a: Seq<char>, b: Seq<char>, c: Seq<char>, d: Seq<char>)
    ensures
        text::joined(error::nonempty(seq![a, b, c, d]), "\n"@) == below(below(below(a, b), c), d),
{
    let none = Seq::<Seq<char>>::empty();
    assert(error::nonempty(none) =~= none);
    lemma_grown(none, a);
    lemma_grown(none.push(a), b);
    lemma_grown(none.push(a).push(b), c);
    lemma_grown(none.push(a).push(b).push(c), d);
    assert(none.push(a).push(b).push(c).push(d) =~= seq![a, b, c, d]);
}

proof fn lemma_grown(parts: Seq<Seq<char>>, b: Seq<char>)
    ensures
        text::joined(error::nonempty(parts.push(b)), "\n"@) == below(
            text::joined(error::nonempty(parts), "\n"@),
            b,
        ),
{
    assert(parts.push(b).drop_last() =~= parts);
    lemma_kept(parts);
    if b.len() > 0 {
        lemma_below_one(error::nonempty(parts), b);
    }
}

proof fn lemma_kept(parts: Seq<Seq<char>>)
    ensures
        error::nonempty(parts).len() > 0 <==> text::joined(error::nonempty(parts), "\n"@).len() > 0,
    decreases parts.len(),
{
    if parts.len() > 0 {
        lemma_kept(parts.drop_last());
        if parts.last().len() > 0 {
            lemma_below_one(error::nonempty(parts.drop_last()), parts.last());
        }
    }
}

proof fn lemma_below_one(texts: Seq<Seq<char>>, b: Seq<char>)
    requires
        b.len() > 0,
    ensures
        text::joined(texts.push(b), "\n"@) == if texts.len() == 0 {
            b
        } else {
            text::joined(texts, "\n"@) + "\n"@ + b
        },
{
    assert(texts.push(b).drop_last() =~= texts);
    reveal_with_fuel(text::joined, 2);
}

} // verus!
