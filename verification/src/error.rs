//! Errors: what the WebDriver server answers when it refuses a request, and what can go wrong on
//! the way there.
use crate::json::{read_opt, read_opt_str, read_str, Json, JsonValue};
use crate::json;
use crate::text;
use crate::text::{cat2, cat3, cat4, decimal_text, join, split, text_eq};
use crate::wire;
use vstd::prelude::*;

verus! {

/// The result of a request.
pub type WebDriverResult<T> = Result<T, WebDriverError>;

/// What the server says of an error.
#[derive(Debug)]
pub struct WebDriverErrorValue {
    /// The WebDriver error message.
    pub message: String,
    /// This error is returned from the WebDriver.
    pub error: Option<String>,
    /// This stacktrace is returned from the WebDriver.
    pub stacktrace: Option<String>,
    /// This data is returned from the WebDriver.
    pub data: Option<JsonValue>,
}

/// What a `WebDriverErrorValue` stands for.
pub struct ErrorValueView {
    pub message: Seq<char>,
    pub error: Option<Seq<char>>,
    pub stacktrace: Option<Seq<char>>,
    pub data: Option<Json>,
}

/// The error information returned by the WebDriver server.
#[derive(Debug)]
pub struct WebDriverErrorInfo {
    /// The HTTP status code of the response.
    pub status: u16,
    /// The WebDriver error state.
    pub error: String,
    /// The WebDriver error value.
    pub value: WebDriverErrorValue,
}

/// What a `WebDriverErrorInfo` stands for.
pub struct ErrorInfoView {
    pub status: u16,
    pub error: Seq<char>,
    pub value: ErrorValueView,
}

impl WebDriverErrorValue {
    /// What this error value stands for.
    pub open spec fn view(&self) -> ErrorValueView {
        ErrorValueView {
            message: self.message@,
            error: text::opt_text(self.error),
            stacktrace: text::opt_text(self.stacktrace),
            data: json::opt_view(self.data),
        }
    }
}

impl WebDriverErrorInfo {
    /// What this error information stands for.
    pub open spec fn view(&self) -> ErrorInfoView {
        ErrorInfoView { status: self.status, error: self.error@, value: self.value@ }
    }
}

/// An error value that is only a message.
pub open spec fn message_only(message: Seq<char>) -> ErrorValueView {
    ErrorValueView { message, error: None, stacktrace: None, data: None }
}

/// The error value that a JSON value is read as, where it is one.
pub open spec fn error_value_of(v: Json) -> Option<ErrorValueView> {
    let message = json::str_field(json::field(v, 0, "message"@));
    let error = json::opt_str_field(json::field(v, 1, "error"@));
    let stacktrace = json::opt_str_field(json::field(v, 2, "stacktrace"@));
    let data = json::opt_field(json::field(v, 3, "data"@));
    if json::is_record(v, 4) && message is Some && error is Some && stacktrace is Some {
        Some(
            ErrorValueView {
                message: message->0,
                error: error->0,
                stacktrace: stacktrace->0,
                data,
            },
        )
    } else {
        None
    }
}

/// The error information that a JSON value is read as, where it is one. It carries the status of
/// the response that it came with.
pub open spec fn error_info_of(v: Json, status: u16) -> Option<ErrorInfoView> {
    let state = match json::field(v, 0, "state"@) {
        None => Some(Seq::empty()),
        Some(s) => json::str_field(Some(s)),
    };
    let value = match json::field(v, 1, "value"@) {
        None => None,
        Some(inner) => error_value_of(inner),
    };
    if json::is_record(v, 2) && state is Some && value is Some {
        Some(ErrorInfoView { status, error: state->0, value: value->0 })
    } else {
        None
    }
}

/// As many spaces as `n` says, and at least one.
pub open spec fn padding(n: nat) -> Seq<char> {
    Seq::new(if n == 0 { 1 } else { n }, |i: int| ' ')
}

/// The lines of a message, each behind a padding.
pub open spec fn indented(message: Seq<char>, indent: nat) -> Seq<char> {
    let lines = text::split_at(message, '\n');
    text::joined(Seq::new(lines.len(), |i: int| padding(indent) + lines[i]), "\n"@)
}

/// The parts that are not empty, in their order.
pub open spec fn nonempty(parts: Seq<Seq<char>>) -> Seq<Seq<char>>
    decreases parts.len(),
{
    if parts.len() == 0 {
        Seq::empty()
    } else if parts.last().len() == 0 {
        nonempty(parts.drop_last())
    } else {
        nonempty(parts.drop_last()).push(parts.last())
    }
}

impl ErrorValueView {
    /// The error value as people read it: what there is of message, error, data and stacktrace,
    /// each from a line of its own on.
    pub open spec fn shown(self) -> Seq<char> {
        let error = match self.error {
            Some(e) => "Error: "@ + e,
            None => Seq::empty(),
        };
        let data = match self.data {
            Some(d) => "Data:\n"@ + indented(wire::debug_of_json(wire::settled(d)), 4),
            None => Seq::empty(),
        };
        let stacktrace = match self.stacktrace {
            Some(s) => "Stacktrace:\n"@ + indented(s, 4),
            None => Seq::empty(),
        };
        text::joined(nonempty(seq![self.message, error, data, stacktrace]), "\n"@)
    }
}

impl ErrorInfoView {
    /// The error information as people read it.
    pub open spec fn shown(self) -> Seq<char> {
        let status = if self.status != 0 {
            "\nStatus: "@ + text::decimal(self.status as nat) + "\n"@
        } else {
            Seq::empty()
        };
        let state = if self.error.len() != 0 {
            "State: "@ + self.error + "\n"@
        } else {
            Seq::empty()
        };
        indented(status + state + ("Additional info:\n"@ + indented(self.value.shown(), 4)), 4)
    }
}

/// As many spaces as `n` says, and at least one.
fn padding_text(n: usize) -> (r: String)
    ensures
        r@ == padding(n as nat),
{
    let mut r: String = String::new();
    r.push(' ');
    let mut i: usize = 1;
    while i < n
        invariant
            1 <= i,
            i <= n || i == 1,
            r@ == padding(i as nat),
        decreases n - i,
    {
        r.push(' ');
        i = i + 1;
        assert(r@ == padding(i as nat));
    }
    r
}

/// Puts a padding in front of each line of a message.
pub fn indent_lines(message: &str, indent: usize) -> (r: String)
    ensures
        r@ == indented(message@, indent as nat),
{
    let lines: Vec<String> = split(message, '\n');
    let ghost pieces = text::split_at(message@, '\n');
    let pad: String = padding_text(indent);
    let mut padded: Vec<String> = Vec::new();
    let mut i: usize = 0;
    while i < lines.len()
        invariant
            i <= lines.len(),
            text::texts(lines@) == pieces,
            pad@ == padding(indent as nat),
            padded.len() == i,
            forall|j: int| 0 <= j < i ==> (#[trigger] padded@[j])@ == padding(indent as nat) + pieces[j],
        decreases lines.len() - i,
    {
        assert(pieces[i as int] == lines@[i as int]@);
        padded.push(cat2(pad.as_str(), lines[i].as_str()));
        i = i + 1;
    }
    proof {
        assert(text::texts(padded@) == Seq::new(pieces.len(), |j: int| padding(indent as nat) + pieces[j]));
    }
    join(&padded, "\n")
}

impl WebDriverErrorValue {
    /// Create a new WebDriverErrorValue.
    pub fn new(message: String) -> (r: Self)
        ensures
            r@ == message_only(message@),
            r.message == message,
    {
        Self { message, error: None, stacktrace: None, data: None }
    }

    /// The error value that a JSON value is read as, where it is one.
    pub fn from_json(v: &JsonValue) -> (r: Option<Self>)
        ensures
            match r {
                Some(e) => error_value_of(v@) == Some(e@),
                None => error_value_of(v@) is None,
            },
    {
        if !v.is_record(4) {
            return None;
        }
        let message: String = match read_str(v.field(0, "message")) {
            Some(m) => m,
            None => return None,
        };
        let error: Option<String> = match read_opt_str(v.field(1, "error")) {
            Some(e) => e,
            None => return None,
        };
        let stacktrace: Option<String> = match read_opt_str(v.field(2, "stacktrace")) {
            Some(s) => s,
            None => return None,
        };
        let data: Option<JsonValue> = read_opt(v.field(3, "data"));
        Some(Self { message, error, stacktrace, data })
    }

    /// The error value as people read it.
    pub fn to_text(&self) -> (r: String)
        ensures
            r@ == self@.shown(),
    {
        let error: String = match &self.error {
            Some(e) => cat2("Error: ", e.as_str()),
            None => String::new(),
        };
        let data: String = match &self.data {
            Some(d) => cat2("Data:\n", indent_lines(d.to_debug().as_str(), 4).as_str()),
            None => String::new(),
        };
        let stacktrace: String = match &self.stacktrace {
            Some(s) => cat2("Stacktrace:\n", indent_lines(s.as_str(), 4).as_str()),
            None => String::new(),
        };
        let mut parts: Vec<String> = Vec::new();
        parts.push(self.message.clone());
        parts.push(error);
        parts.push(data);
        parts.push(stacktrace);
        let ghost all = seq![self.message@, error@, data@, stacktrace@];
        proof {
            assert(text::texts(parts@) == all);
        }
        let mut lines: Vec<String> = Vec::new();
        let mut i: usize = 0;
        while i < parts.len()
            invariant
                i <= parts.len(),
                text::texts(parts@) == all,
                text::texts(lines@) == nonempty(all.take(i as int)),
            decreases parts.len() - i,
        {
            let ghost before = lines@;
            let part: String = parts[i].clone();
            proof {
                assert(all[i as int] == parts@[i as int]@);
                assert(all.take(i as int + 1).drop_last() == all.take(i as int));
                assert(all.take(i as int + 1).last() == all[i as int]);
            }
            if !part.as_str().is_empty() {
                lines.push(part);
                proof {
                    assert(text::texts(lines@) == text::texts(before).push(part@));
                }
            }
            i = i + 1;
        }
        proof {
            assert(all.take(parts.len() as int) == all);
        }
        join(&lines, "\n")
    }
}

impl WebDriverErrorInfo {
    /// Create a new WebDriverErrorInfo.
    pub fn new(message: String) -> (r: Self)
        ensures
            r@ == (ErrorInfoView { status: 0, error: message@, value: message_only(message@) }),
    {
        Self { status: 0, error: message.clone(), value: WebDriverErrorValue::new(message) }
    }

    /// The error information that a JSON value is read as, where it is one.
    pub fn from_json(v: &JsonValue, status: u16) -> (r: Option<Self>)
        ensures
            match r {
                Some(e) => error_info_of(v@, status) == Some(e@),
                None => error_info_of(v@, status) is None,
            },
    {
        if !v.is_record(2) {
            return None;
        }
        let error: String = match v.field(0, "state") {
            None => String::new(),
            Some(s) => match read_str(Some(s)) {
                Some(s) => s,
                None => return None,
            },
        };
        let value: WebDriverErrorValue = match v.field(1, "value") {
            None => return None,
            Some(inner) => match WebDriverErrorValue::from_json(inner) {
                Some(value) => value,
                None => return None,
            },
        };
        Some(Self { status, error, value })
    }

    /// The error information as people read it.
    pub fn to_text(&self) -> (r: String)
        ensures
            r@ == self@.shown(),
    {
        let status: String = if self.status != 0 {
            cat3("\nStatus: ", decimal_text(self.status as u64).as_str(), "\n")
        } else {
            String::new()
        };
        let state: String = if !self.error.as_str().is_empty() {
            cat3("State: ", self.error.as_str(), "\n")
        } else {
            String::new()
        };
        let info: String = cat2(
            "Additional info:\n",
            indent_lines(self.value.to_text().as_str(), 4).as_str(),
        );
        indent_lines(cat3(status.as_str(), state.as_str(), info.as_str()).as_str(), 4)
    }
}

/// All the errors of this library.
#[derive(Debug)]
pub enum WebDriverErrorInner {
    UnknownResponse(u16, String),
    RequestFailed(String),
    NotFound(String, String),
    ParseError(String),
    Timeout(String),
    Json(String),
    DecodeError(String),
    IoError(String),
    HttpError(String),
    NotInSpec(WebDriverErrorInfo),
    ElementClickIntercepted(WebDriverErrorInfo),
    ElementNotInteractable(WebDriverErrorInfo),
    InsecureCertificate(WebDriverErrorInfo),
    InvalidArgument(WebDriverErrorInfo),
    InvalidUrl(String),
    InvalidCookieDomain(WebDriverErrorInfo),
    InvalidElementState(WebDriverErrorInfo),
    InvalidSelector(WebDriverErrorInfo),
    InvalidSessionId(WebDriverErrorInfo),
    JavascriptError(WebDriverErrorInfo),
    MoveTargetOutOfBounds(WebDriverErrorInfo),
    NoSuchAlert(WebDriverErrorInfo),
    NoSuchCookie(WebDriverErrorInfo),
    NoSuchElement(WebDriverErrorInfo),
    NoSuchFrame(WebDriverErrorInfo),
    NoSuchWindow(WebDriverErrorInfo),
    ScriptTimeout(WebDriverErrorInfo),
    SessionNotCreated(WebDriverErrorInfo),
    StaleElementReference(WebDriverErrorInfo),
    WebDriverTimeout(WebDriverErrorInfo),
    UnableToSetCookie(WebDriverErrorInfo),
    UnableToCaptureScreen(WebDriverErrorInfo),
    UnexpectedAlertOpen(WebDriverErrorInfo),
    UnknownCommand(WebDriverErrorInfo),
    UnknownError(WebDriverErrorInfo),
    UnknownMethod(WebDriverErrorInfo),
    UnsupportedOperation(WebDriverErrorInfo),
    FatalError(String),
    CommandRecvError(String),
    CommandSendError(String),
    SessionCreateError(String),
}

/// The main error type. It holds one of the errors of `WebDriverErrorInner`.
#[derive(Debug)]
pub struct WebDriverError {
    inner: Box<WebDriverErrorInner>,
}

impl WebDriverError {
    /// The error that this holds.
    pub closed spec fn view(&self) -> WebDriverErrorInner {
        *self.inner
    }
}

/// The error that the server means by a name that the WebDriver standard gives it.
pub open spec fn named_error(name: Seq<char>, info: WebDriverErrorInfo) -> WebDriverErrorInner {
    if name == "element click intercepted"@ {
        WebDriverErrorInner::ElementClickIntercepted(info)
    } else if name == "element not interactable"@ {
        WebDriverErrorInner::ElementNotInteractable(info)
    } else if name == "insecure certificate"@ {
        WebDriverErrorInner::InsecureCertificate(info)
    } else if name == "invalid argument"@ {
        WebDriverErrorInner::InvalidArgument(info)
    } else if name == "invalid cookie domain"@ {
        WebDriverErrorInner::InvalidCookieDomain(info)
    } else if name == "invalid element state"@ {
        WebDriverErrorInner::InvalidElementState(info)
    } else if name == "invalid selector"@ {
        WebDriverErrorInner::InvalidSelector(info)
    } else if name == "invalid session id"@ {
        WebDriverErrorInner::InvalidSessionId(info)
    } else if name == "javascript error"@ {
        WebDriverErrorInner::JavascriptError(info)
    } else if name == "move target out of bounds"@ {
        WebDriverErrorInner::MoveTargetOutOfBounds(info)
    } else if name == "no such alert"@ {
        WebDriverErrorInner::NoSuchAlert(info)
    } else if name == "no such cookie"@ {
        WebDriverErrorInner::NoSuchCookie(info)
    } else if name == "no such element"@ {
        WebDriverErrorInner::NoSuchElement(info)
    } else if name == "no such frame"@ {
        WebDriverErrorInner::NoSuchFrame(info)
    } else if name == "no such window"@ {
        WebDriverErrorInner::NoSuchWindow(info)
    } else if name == "script timeout"@ {
        WebDriverErrorInner::ScriptTimeout(info)
    } else if name == "session not created"@ {
        WebDriverErrorInner::SessionNotCreated(info)
    } else if name == "stale element reference"@ {
        WebDriverErrorInner::StaleElementReference(info)
    } else if name == "timeout"@ {
        WebDriverErrorInner::WebDriverTimeout(info)
    } else if name == "unable to set cookie"@ {
        WebDriverErrorInner::UnableToSetCookie(info)
    } else if name == "unable to capture screen"@ {
        WebDriverErrorInner::UnableToCaptureScreen(info)
    } else if name == "unexpected alert open"@ {
        WebDriverErrorInner::UnexpectedAlertOpen(info)
    } else if name == "unknown command"@ {
        WebDriverErrorInner::UnknownCommand(info)
    } else if name == "unknown error"@ {
        WebDriverErrorInner::UnknownError(info)
    } else if name == "unknown method"@ {
        WebDriverErrorInner::UnknownMethod(info)
    } else if name == "unsupported operation"@ {
        WebDriverErrorInner::UnsupportedOperation(info)
    } else {
        WebDriverErrorInner::NotInSpec(info)
    }
}

/// The name that an answer gives its error: its state, or else the error in its value.
pub open spec fn error_name(info: ErrorInfoView) -> Seq<char> {
    if info.error.len() != 0 {
        info.error
    } else {
        match info.value.error {
            Some(e) => e,
            None => Seq::empty(),
        }
    }
}

/// Whether `e` is the error for an answer with this status and this text: the error that the
/// answer names, or `UnknownResponse` where the text is no JSON or holds no error information.
pub open spec fn answers_error(e: WebDriverErrorInner, status: u16, body: Seq<char>) -> bool {
    match wire::json_of_text(body) {
        Ok(v) => match error_info_of(v, status) {
            Some(info) => exists|i: WebDriverErrorInfo|
                #![trigger i@]
                i@ == info && e == named_error(error_name(info), i),
            None => e matches WebDriverErrorInner::UnknownResponse(s, b) && s == status && b@ == body,
        },
        Err(_) => e matches WebDriverErrorInner::UnknownResponse(s, b) && s == status && b@ == body,
    }
}

/// The error that the server means by a name, with the information that it gave.
fn error_by_name(name: &str, info: WebDriverErrorInfo) -> (r: WebDriverErrorInner)
    ensures
        r == named_error(name@, info),
{
    if text_eq(name, "element click intercepted") {
        WebDriverErrorInner::ElementClickIntercepted(info)
    } else if text_eq(name, "element not interactable") {
        WebDriverErrorInner::ElementNotInteractable(info)
    } else if text_eq(name, "insecure certificate") {
        WebDriverErrorInner::InsecureCertificate(info)
    } else if text_eq(name, "invalid argument") {
        WebDriverErrorInner::InvalidArgument(info)
    } else if text_eq(name, "invalid cookie domain") {
        WebDriverErrorInner::InvalidCookieDomain(info)
    } else if text_eq(name, "invalid element state") {
        WebDriverErrorInner::InvalidElementState(info)
    } else if text_eq(name, "invalid selector") {
        WebDriverErrorInner::InvalidSelector(info)
    } else if text_eq(name, "invalid session id") {
        WebDriverErrorInner::InvalidSessionId(info)
    } else if text_eq(name, "javascript error") {
        WebDriverErrorInner::JavascriptError(info)
    } else if text_eq(name, "move target out of bounds") {
        WebDriverErrorInner::MoveTargetOutOfBounds(info)
    } else if text_eq(name, "no such alert") {
        WebDriverErrorInner::NoSuchAlert(info)
    } else if text_eq(name, "no such cookie") {
        WebDriverErrorInner::NoSuchCookie(info)
    } else if text_eq(name, "no such element") {
        WebDriverErrorInner::NoSuchElement(info)
    } else if text_eq(name, "no such frame") {
        WebDriverErrorInner::NoSuchFrame(info)
    } else if text_eq(name, "no such window") {
        WebDriverErrorInner::NoSuchWindow(info)
    } else if text_eq(name, "script timeout") {
        WebDriverErrorInner::ScriptTimeout(info)
    } else if text_eq(name, "session not created") {
        WebDriverErrorInner::SessionNotCreated(info)
    } else if text_eq(name, "stale element reference") {
        WebDriverErrorInner::StaleElementReference(info)
    } else if text_eq(name, "timeout") {
        WebDriverErrorInner::WebDriverTimeout(info)
    } else if text_eq(name, "unable to set cookie") {
        WebDriverErrorInner::UnableToSetCookie(info)
    } else if text_eq(name, "unable to capture screen") {
        WebDriverErrorInner::UnableToCaptureScreen(info)
    } else if text_eq(name, "unexpected alert open") {
        WebDriverErrorInner::UnexpectedAlertOpen(info)
    } else if text_eq(name, "unknown command") {
        WebDriverErrorInner::UnknownCommand(info)
    } else if text_eq(name, "unknown error") {
        WebDriverErrorInner::UnknownError(info)
    } else if text_eq(name, "unknown method") {
        WebDriverErrorInner::UnknownMethod(info)
    } else if text_eq(name, "unsupported operation") {
        WebDriverErrorInner::UnsupportedOperation(info)
    } else {
        WebDriverErrorInner::NotInSpec(info)
    }
}

impl WebDriverError {
    /// Create a new WebDriverError by parsing the response from the WebDriver server.
    pub fn parse(status: u16, body: String) -> (r: Self)
        ensures
            answers_error(r@, status, body@),
    {
        let value: JsonValue = match JsonValue::parse(body.as_str()) {
            Ok(v) => v,
            Err(_) => return Self::from_inner(WebDriverErrorInner::UnknownResponse(status, body)),
        };
        match Self::from_answer(status, &value) {
            Some(e) => e,
            None => Self::from_inner(WebDriverErrorInner::UnknownResponse(status, body)),
        }
    }

    /// The error that an answer with this status tells of, where it holds error information.
    pub fn from_answer(status: u16, value: &JsonValue) -> (r: Option<Self>)
        ensures
            match r {
                Some(e) => error_info_of(value@, status) matches Some(info) && exists|
                    i: WebDriverErrorInfo,
                |
                    #![trigger i@]
                    i@ == info && e@ == named_error(error_name(info), i),
                None => error_info_of(value@, status) is None,
            },
    {
        let info: WebDriverErrorInfo = match WebDriverErrorInfo::from_json(value, status) {
            Some(info) => info,
            None => return None,
        };
        let name: String = if info.error.as_str().is_empty() {
            match &info.value.error {
                Some(e) => e.clone(),
                None => String::new(),
            }
        } else {
            info.error.clone()
        };
        assert(name@ == error_name(info@));
        Some(Self::from_inner(error_by_name(name.as_str(), info)))
    }

    /// gets a reference to the underlying enum representation of this error
    pub fn as_inner(&self) -> (r: &WebDriverErrorInner)
        ensures
            *r == self@,
    {
        &self.inner
    }

    /// converts the underlying representation to the main representation
    pub fn from_inner(err: WebDriverErrorInner) -> (r: Self)
        ensures
            r@ == err,
    {
        WebDriverError { inner: Box::new(err) }
    }

    /// converts this error to its underlying representation
    pub fn into_inner(self) -> (r: WebDriverErrorInner)
        ensures
            r == self@,
    {
        *self.inner
    }

    #[allow(non_snake_case)]
    pub fn UnknownResponse(a: u16, b: String) -> (r: Self)
        ensures
            r@ == WebDriverErrorInner::UnknownResponse(a, b),
    {
        Self::from_inner(WebDriverErrorInner::UnknownResponse(a, b))
    }

    #[allow(non_snake_case)]
    pub fn RequestFailed(a: String) -> (r: Self)
        ensures
            r@ == WebDriverErrorInner::RequestFailed(a),
    {
        Self::from_inner(WebDriverErrorInner::RequestFailed(a))
    }

    #[allow(non_snake_case)]
    pub fn NotFound(a: String, b: String) -> (r: Self)
        ensures
            r@ == WebDriverErrorInner::NotFound(a, b),
    {
        Self::from_inner(WebDriverErrorInner::NotFound(a, b))
    }

    #[allow(non_snake_case)]
    pub fn ParseError(a: String) -> (r: Self)
        ensures
            r@ == WebDriverErrorInner::ParseError(a),
    {
        Self::from_inner(WebDriverErrorInner::ParseError(a))
    }

    #[allow(non_snake_case)]
    pub fn Timeout(a: String) -> (r: Self)
        ensures
            r@ == WebDriverErrorInner::Timeout(a),
    {
        Self::from_inner(WebDriverErrorInner::Timeout(a))
    }

    #[allow(non_snake_case)]
    pub fn Json(a: String) -> (r: Self)
        ensures
            r@ == WebDriverErrorInner::Json(a),
    {
        Self::from_inner(WebDriverErrorInner::Json(a))
    }

    #[allow(non_snake_case)]
    pub fn DecodeError(a: String) -> (r: Self)
        ensures
            r@ == WebDriverErrorInner::DecodeError(a),
    {
        Self::from_inner(WebDriverErrorInner::DecodeError(a))
    }

    #[allow(non_snake_case)]
    pub fn IoError(a: String) -> (r: Self)
        ensures
            r@ == WebDriverErrorInner::IoError(a),
    {
        Self::from_inner(WebDriverErrorInner::IoError(a))
    }

    #[allow(non_snake_case)]
    pub fn HttpError(a: String) -> (r: Self)
        ensures
            r@ == WebDriverErrorInner::HttpError(a),
    {
        Self::from_inner(WebDriverErrorInner::HttpError(a))
    }

    #[allow(non_snake_case)]
    pub fn NotInSpec(a: WebDriverErrorInfo) -> (r: Self)
        ensures
            r@ == WebDriverErrorInner::NotInSpec(a),
    {
        Self::from_inner(WebDriverErrorInner::NotInSpec(a))
    }

    #[allow(non_snake_case)]
    pub fn ElementClickIntercepted(a: WebDriverErrorInfo) -> (r: Self)
        ensures
            r@ == WebDriverErrorInner::ElementClickIntercepted(a),
    {
        Self::from_inner(WebDriverErrorInner::ElementClickIntercepted(a))
    }

    #[allow(non_snake_case)]
    pub fn ElementNotInteractable(a: WebDriverErrorInfo) -> (r: Self)
        ensures
            r@ == WebDriverErrorInner::ElementNotInteractable(a),
    {
        Self::from_inner(WebDriverErrorInner::ElementNotInteractable(a))
    }

    #[allow(non_snake_case)]
    pub fn InsecureCertificate(a: WebDriverErrorInfo) -> (r: Self)
        ensures
            r@ == WebDriverErrorInner::InsecureCertificate(a),
    {
        Self::from_inner(WebDriverErrorInner::InsecureCertificate(a))
    }

    #[allow(non_snake_case)]
    pub fn InvalidArgument(a: WebDriverErrorInfo) -> (r: Self)
        ensures
            r@ == WebDriverErrorInner::InvalidArgument(a),
    {
        Self::from_inner(WebDriverErrorInner::InvalidArgument(a))
    }

    #[allow(non_snake_case)]
    pub fn InvalidUrl(a: String) -> (r: Self)
        ensures
            r@ == WebDriverErrorInner::InvalidUrl(a),
    {
        Self::from_inner(WebDriverErrorInner::InvalidUrl(a))
    }

    #[allow(non_snake_case)]
    pub fn InvalidCookieDomain(a: WebDriverErrorInfo) -> (r: Self)
        ensures
            r@ == WebDriverErrorInner::InvalidCookieDomain(a),
    {
        Self::from_inner(WebDriverErrorInner::InvalidCookieDomain(a))
    }

    #[allow(non_snake_case)]
    pub fn InvalidElementState(a: WebDriverErrorInfo) -> (r: Self)
        ensures
            r@ == WebDriverErrorInner::InvalidElementState(a),
    {
        Self::from_inner(WebDriverErrorInner::InvalidElementState(a))
    }

    #[allow(non_snake_case)]
    pub fn InvalidSelector(a: WebDriverErrorInfo) -> (r: Self)
        ensures
            r@ == WebDriverErrorInner::InvalidSelector(a),
    {
        Self::from_inner(WebDriverErrorInner::InvalidSelector(a))
    }

    #[allow(non_snake_case)]
    pub fn InvalidSessionId(a: WebDriverErrorInfo) -> (r: Self)
        ensures
            r@ == WebDriverErrorInner::InvalidSessionId(a),
    {
        Self::from_inner(WebDriverErrorInner::InvalidSessionId(a))
    }

    #[allow(non_snake_case)]
    pub fn JavascriptError(a: WebDriverErrorInfo) -> (r: Self)
        ensures
            r@ == WebDriverErrorInner::JavascriptError(a),
    {
        Self::from_inner(WebDriverErrorInner::JavascriptError(a))
    }

    #[allow(non_snake_case)]
    pub fn MoveTargetOutOfBounds(a: WebDriverErrorInfo) -> (r: Self)
        ensures
            r@ == WebDriverErrorInner::MoveTargetOutOfBounds(a),
    {
        Self::from_inner(WebDriverErrorInner::MoveTargetOutOfBounds(a))
    }

    #[allow(non_snake_case)]
    pub fn NoSuchAlert(a: WebDriverErrorInfo) -> (r: Self)
        ensures
            r@ == WebDriverErrorInner::NoSuchAlert(a),
    {
        Self::from_inner(WebDriverErrorInner::NoSuchAlert(a))
    }

    #[allow(non_snake_case)]
    pub fn NoSuchCookie(a: WebDriverErrorInfo) -> (r: Self)
        ensures
            r@ == WebDriverErrorInner::NoSuchCookie(a),
    {
        Self::from_inner(WebDriverErrorInner::NoSuchCookie(a))
    }

    #[allow(non_snake_case)]
    pub fn NoSuchElement(a: WebDriverErrorInfo) -> (r: Self)
        ensures
            r@ == WebDriverErrorInner::NoSuchElement(a),
    {
        Self::from_inner(WebDriverErrorInner::NoSuchElement(a))
    }

    #[allow(non_snake_case)]
    pub fn NoSuchFrame(a: WebDriverErrorInfo) -> (r: Self)
        ensures
            r@ == WebDriverErrorInner::NoSuchFrame(a),
    {
        Self::from_inner(WebDriverErrorInner::NoSuchFrame(a))
    }

    #[allow(non_snake_case)]
    pub fn NoSuchWindow(a: WebDriverErrorInfo) -> (r: Self)
        ensures
            r@ == WebDriverErrorInner::NoSuchWindow(a),
    {
        Self::from_inner(WebDriverErrorInner::NoSuchWindow(a))
    }

    #[allow(non_snake_case)]
    pub fn ScriptTimeout(a: WebDriverErrorInfo) -> (r: Self)
        ensures
            r@ == WebDriverErrorInner::ScriptTimeout(a),
    {
        Self::from_inner(WebDriverErrorInner::ScriptTimeout(a))
    }

    #[allow(non_snake_case)]
    pub fn SessionNotCreated(a: WebDriverErrorInfo) -> (r: Self)
        ensures
            r@ == WebDriverErrorInner::SessionNotCreated(a),
    {
        Self::from_inner(WebDriverErrorInner::SessionNotCreated(a))
    }

    #[allow(non_snake_case)]
    pub fn StaleElementReference(a: WebDriverErrorInfo) -> (r: Self)
        ensures
            r@ == WebDriverErrorInner::StaleElementReference(a),
    {
        Self::from_inner(WebDriverErrorInner::StaleElementReference(a))
    }

    #[allow(non_snake_case)]
    pub fn WebDriverTimeout(a: WebDriverErrorInfo) -> (r: Self)
        ensures
            r@ == WebDriverErrorInner::WebDriverTimeout(a),
    {
        Self::from_inner(WebDriverErrorInner::WebDriverTimeout(a))
    }

    #[allow(non_snake_case)]
    pub fn UnableToSetCookie(a: WebDriverErrorInfo) -> (r: Self)
        ensures
            r@ == WebDriverErrorInner::UnableToSetCookie(a),
    {
        Self::from_inner(WebDriverErrorInner::UnableToSetCookie(a))
    }

    #[allow(non_snake_case)]
    pub fn UnableToCaptureScreen(a: WebDriverErrorInfo) -> (r: Self)
        ensures
            r@ == WebDriverErrorInner::UnableToCaptureScreen(a),
    {
        Self::from_inner(WebDriverErrorInner::UnableToCaptureScreen(a))
    }

    #[allow(non_snake_case)]
    pub fn UnexpectedAlertOpen(a: WebDriverErrorInfo) -> (r: Self)
        ensures
            r@ == WebDriverErrorInner::UnexpectedAlertOpen(a),
    {
        Self::from_inner(WebDriverErrorInner::UnexpectedAlertOpen(a))
    }

    #[allow(non_snake_case)]
    pub fn UnknownCommand(a: WebDriverErrorInfo) -> (r: Self)
        ensures
            r@ == WebDriverErrorInner::UnknownCommand(a),
    {
        Self::from_inner(WebDriverErrorInner::UnknownCommand(a))
    }

    #[allow(non_snake_case)]
    pub fn UnknownError(a: WebDriverErrorInfo) -> (r: Self)
        ensures
            r@ == WebDriverErrorInner::UnknownError(a),
    {
        Self::from_inner(WebDriverErrorInner::UnknownError(a))
    }

    #[allow(non_snake_case)]
    pub fn UnknownMethod(a: WebDriverErrorInfo) -> (r: Self)
        ensures
            r@ == WebDriverErrorInner::UnknownMethod(a),
    {
        Self::from_inner(WebDriverErrorInner::UnknownMethod(a))
    }

    #[allow(non_snake_case)]
    pub fn UnsupportedOperation(a: WebDriverErrorInfo) -> (r: Self)
        ensures
            r@ == WebDriverErrorInner::UnsupportedOperation(a),
    {
        Self::from_inner(WebDriverErrorInner::UnsupportedOperation(a))
    }

    #[allow(non_snake_case)]
    pub fn FatalError(a: String) -> (r: Self)
        ensures
            r@ == WebDriverErrorInner::FatalError(a),
    {
        Self::from_inner(WebDriverErrorInner::FatalError(a))
    }

    #[allow(non_snake_case)]
    pub fn CommandRecvError(a: String) -> (r: Self)
        ensures
            r@ == WebDriverErrorInner::CommandRecvError(a),
    {
        Self::from_inner(WebDriverErrorInner::CommandRecvError(a))
    }

    #[allow(non_snake_case)]
    pub fn CommandSendError(a: String) -> (r: Self)
        ensures
            r@ == WebDriverErrorInner::CommandSendError(a),
    {
        Self::from_inner(WebDriverErrorInner::CommandSendError(a))
    }

    #[allow(non_snake_case)]
    pub fn SessionCreateError(a: String) -> (r: Self)
        ensures
            r@ == WebDriverErrorInner::SessionCreateError(a),
    {
        Self::from_inner(WebDriverErrorInner::SessionCreateError(a))
    }

}

impl WebDriverErrorInner {
    /// The error as people read it.
    pub open spec fn shown(&self) -> Seq<char> {
        match self {
            WebDriverErrorInner::UnknownResponse(a, b) => "The WebDriver server returned an unrecognised response: "@ + text::decimal(*a as nat) + " :: "@ + b@,
            WebDriverErrorInner::RequestFailed(a) => "Failed to send request to webdriver: "@ + a@,
            WebDriverErrorInner::NotFound(a, b) => "The requested item '"@ + a@ + "' was not found: "@ + b@,
            WebDriverErrorInner::ParseError(a) => "parse error: "@ + a@,
            WebDriverErrorInner::Timeout(a) => "operation timed out: "@ + a@,
            WebDriverErrorInner::Json(a) => "Unable to parse JSON: "@ + a@,
            WebDriverErrorInner::DecodeError(a) => "Unable to decode base64: "@ + a@,
            WebDriverErrorInner::IoError(a) => "IO Error: "@ + a@,
            WebDriverErrorInner::HttpError(a) => "The WebDriver request returned an error: "@ + a@,
            WebDriverErrorInner::NotInSpec(a) => "The WebDriver response does not conform to the W3C WebDriver spec: "@ + a@.shown(),
            WebDriverErrorInner::ElementClickIntercepted(a) => "The click event was intercepted by another element: "@ + a@.shown(),
            WebDriverErrorInner::ElementNotInteractable(a) => "The element is not interactable: "@ + a@.shown(),
            WebDriverErrorInner::InsecureCertificate(a) => "The certificate is insecure: "@ + a@.shown(),
            WebDriverErrorInner::InvalidArgument(a) => "An argument passed to the WebDriver server was invalid: "@ + a@.shown(),
            WebDriverErrorInner::InvalidUrl(a) => "An argument passed to the WebDriver server was invalid: "@ + a@,
            WebDriverErrorInner::InvalidCookieDomain(a) => "Invalid cookie domain: "@ + a@.shown(),
            WebDriverErrorInner::InvalidElementState(a) => "The element is in an invalid state: "@ + a@.shown(),
            WebDriverErrorInner::InvalidSelector(a) => "The specified element selector is invalid: "@ + a@.shown(),
            WebDriverErrorInner::InvalidSessionId(a) => "The WebDriver session id is invalid: "@ + a@.shown(),
            WebDriverErrorInner::JavascriptError(a) => "The Javascript code returned an error: "@ + a@.shown(),
            WebDriverErrorInner::MoveTargetOutOfBounds(a) => "Unable to scroll the element into the viewport: "@ + a@.shown(),
            WebDriverErrorInner::NoSuchAlert(a) => "Alert not found: "@ + a@.shown(),
            WebDriverErrorInner::NoSuchCookie(a) => "Cookie not found: "@ + a@.shown(),
            WebDriverErrorInner::NoSuchElement(a) => "Element not found: "@ + a@.shown(),
            WebDriverErrorInner::NoSuchFrame(a) => "Frame not found: "@ + a@.shown(),
            WebDriverErrorInner::NoSuchWindow(a) => "Window not found: "@ + a@.shown(),
            WebDriverErrorInner::ScriptTimeout(a) => "The Javascript code did not complete within the script timeout (see WebDriver::set_script_timeout()): "@ + a@.shown(),
            WebDriverErrorInner::SessionNotCreated(a) => "Unable to create WebDriver session: "@ + a@.shown(),
            WebDriverErrorInner::StaleElementReference(a) => "Element is stale: "@ + a@.shown(),
            WebDriverErrorInner::WebDriverTimeout(a) => "Operation timed out: "@ + a@.shown(),
            WebDriverErrorInner::UnableToSetCookie(a) => "Unable to set cookie: "@ + a@.shown(),
            WebDriverErrorInner::UnableToCaptureScreen(a) => "Unable to capture screenshot: "@ + a@.shown(),
            WebDriverErrorInner::UnexpectedAlertOpen(a) => "An unexpected alert is currently open: "@ + a@.shown(),
            WebDriverErrorInner::UnknownCommand(a) => "Unknown command: "@ + a@.shown(),
            WebDriverErrorInner::UnknownError(a) => "Unknown error: "@ + a@.shown(),
            WebDriverErrorInner::UnknownMethod(a) => "Unknown method: "@ + a@.shown(),
            WebDriverErrorInner::UnsupportedOperation(a) => "Unsupport operation: "@ + a@.shown(),
            WebDriverErrorInner::FatalError(_) => "Something caused the session to terminate."@,
            WebDriverErrorInner::CommandRecvError(a) => "Failed to receive command: "@ + a@,
            WebDriverErrorInner::CommandSendError(a) => "The command could not be sent to the session: "@ + a@,
            WebDriverErrorInner::SessionCreateError(a) => "Could not create session: "@ + a@,
        }
    }

    /// The error as people read it.
    pub fn to_text(&self) -> (r: String)
        ensures
            r@ == self.shown(),
    {
        match self {
            WebDriverErrorInner::UnknownResponse(a, b) => cat4("The WebDriver server returned an unrecognised response: ", decimal_text(*a as u64).as_str(), " :: ", b.as_str()),
            WebDriverErrorInner::RequestFailed(a) => cat2("Failed to send request to webdriver: ", a.as_str()),
            WebDriverErrorInner::NotFound(a, b) => cat4("The requested item '", a.as_str(), "' was not found: ", b.as_str()),
            WebDriverErrorInner::ParseError(a) => cat2("parse error: ", a.as_str()),
            WebDriverErrorInner::Timeout(a) => cat2("operation timed out: ", a.as_str()),
            WebDriverErrorInner::Json(a) => cat2("Unable to parse JSON: ", a.as_str()),
            WebDriverErrorInner::DecodeError(a) => cat2("Unable to decode base64: ", a.as_str()),
            WebDriverErrorInner::IoError(a) => cat2("IO Error: ", a.as_str()),
            WebDriverErrorInner::HttpError(a) => cat2("The WebDriver request returned an error: ", a.as_str()),
            WebDriverErrorInner::NotInSpec(a) => cat2("The WebDriver response does not conform to the W3C WebDriver spec: ", a.to_text().as_str()),
            WebDriverErrorInner::ElementClickIntercepted(a) => cat2("The click event was intercepted by another element: ", a.to_text().as_str()),
            WebDriverErrorInner::ElementNotInteractable(a) => cat2("The element is not interactable: ", a.to_text().as_str()),
            WebDriverErrorInner::InsecureCertificate(a) => cat2("The certificate is insecure: ", a.to_text().as_str()),
            WebDriverErrorInner::InvalidArgument(a) => cat2("An argument passed to the WebDriver server was invalid: ", a.to_text().as_str()),
            WebDriverErrorInner::InvalidUrl(a) => cat2("An argument passed to the WebDriver server was invalid: ", a.as_str()),
            WebDriverErrorInner::InvalidCookieDomain(a) => cat2("Invalid cookie domain: ", a.to_text().as_str()),
            WebDriverErrorInner::InvalidElementState(a) => cat2("The element is in an invalid state: ", a.to_text().as_str()),
            WebDriverErrorInner::InvalidSelector(a) => cat2("The specified element selector is invalid: ", a.to_text().as_str()),
            WebDriverErrorInner::InvalidSessionId(a) => cat2("The WebDriver session id is invalid: ", a.to_text().as_str()),
            WebDriverErrorInner::JavascriptError(a) => cat2("The Javascript code returned an error: ", a.to_text().as_str()),
            WebDriverErrorInner::MoveTargetOutOfBounds(a) => cat2("Unable to scroll the element into the viewport: ", a.to_text().as_str()),
            WebDriverErrorInner::NoSuchAlert(a) => cat2("Alert not found: ", a.to_text().as_str()),
            WebDriverErrorInner::NoSuchCookie(a) => cat2("Cookie not found: ", a.to_text().as_str()),
            WebDriverErrorInner::NoSuchElement(a) => cat2("Element not found: ", a.to_text().as_str()),
            WebDriverErrorInner::NoSuchFrame(a) => cat2("Frame not found: ", a.to_text().as_str()),
            WebDriverErrorInner::NoSuchWindow(a) => cat2("Window not found: ", a.to_text().as_str()),
            WebDriverErrorInner::ScriptTimeout(a) => cat2("The Javascript code did not complete within the script timeout (see WebDriver::set_script_timeout()): ", a.to_text().as_str()),
            WebDriverErrorInner::SessionNotCreated(a) => cat2("Unable to create WebDriver session: ", a.to_text().as_str()),
            WebDriverErrorInner::StaleElementReference(a) => cat2("Element is stale: ", a.to_text().as_str()),
            WebDriverErrorInner::WebDriverTimeout(a) => cat2("Operation timed out: ", a.to_text().as_str()),
            WebDriverErrorInner::UnableToSetCookie(a) => cat2("Unable to set cookie: ", a.to_text().as_str()),
            WebDriverErrorInner::UnableToCaptureScreen(a) => cat2("Unable to capture screenshot: ", a.to_text().as_str()),
            WebDriverErrorInner::UnexpectedAlertOpen(a) => cat2("An unexpected alert is currently open: ", a.to_text().as_str()),
            WebDriverErrorInner::UnknownCommand(a) => cat2("Unknown command: ", a.to_text().as_str()),
            WebDriverErrorInner::UnknownError(a) => cat2("Unknown error: ", a.to_text().as_str()),
            WebDriverErrorInner::UnknownMethod(a) => cat2("Unknown method: ", a.to_text().as_str()),
            WebDriverErrorInner::UnsupportedOperation(a) => cat2("Unsupport operation: ", a.to_text().as_str()),
            WebDriverErrorInner::FatalError(_) => "Something caused the session to terminate.".to_owned(),
            WebDriverErrorInner::CommandRecvError(a) => cat2("Failed to receive command: ", a.as_str()),
            WebDriverErrorInner::CommandSendError(a) => cat2("The command could not be sent to the session: ", a.as_str()),
            WebDriverErrorInner::SessionCreateError(a) => cat2("Could not create session: ", a.as_str()),
        }
    }
}

/// Convenience function to construct a simulated NoSuchElement error.
pub fn no_such_element(message: String) -> (r: WebDriverError)
    ensures
        r@ matches WebDriverErrorInner::NoSuchElement(info) && info@ == (ErrorInfoView {
            status: 400,
            error: message@,
            value: message_only(message@),
        }),
{
    WebDriverError::from_inner(
        WebDriverErrorInner::NoSuchElement(
            WebDriverErrorInfo {
                status: 400,
                error: message.clone(),
                value: WebDriverErrorValue::new(message),
            },
        ),
    )
}

/// Two names that mean the same error of the standard are the same name.
pub proof fn lemma_error_names_differ(n1: Seq<char>, n2: Seq<char>, info: WebDriverErrorInfo)
    requires
        named_error(n1, info) == named_error(n2, info),
        !(named_error(n1, info) is NotInSpec),
    ensures
        n1 == n2,
{
}

/// Whatever the server answers, its information reaches the caller: it stands in the error,
/// unchanged, under whichever name.
pub proof fn lemma_error_keeps_info(name: Seq<char>, a: WebDriverErrorInfo, b: WebDriverErrorInfo)
    requires
        named_error(name, a) == named_error(name, b),
    ensures
        a == b,
{
}

/// Indenting a message keeps its lines, in their order, each behind the padding: the lines of the
/// indented message are those, and no others.
pub proof fn lemma_indented_lines(message: Seq<char>, indent: nat)
    ensures
        ({
            let lines = text::split_at(message, '\n');
            text::split_at(indented(message, indent), '\n') == Seq::new(
                lines.len(),
                |i: int| padding(indent) + lines[i],
            )
        }),
{
    let lines = text::split_at(message, '\n');
    let padded = Seq::new(lines.len(), |i: int| padding(indent) + lines[i]);
    text::lemma_split_nonempty(message, '\n');
    assert forall|i: int| 0 <= i < padded.len() implies !(#[trigger] padded[i]).contains('\n') by {
        text::lemma_split_pieces(message, '\n', i);
        let pad = padding(indent);
        assert forall|j: int| 0 <= j < padded[i].len() implies padded[i][j] != '\n' by {
            if j >= pad.len() {
                assert(padded[i][j] == lines[i][j - pad.len()]);
            } else {
                assert(padded[i][j] == pad[j]);
            }
        }
    }
    reveal_strlit("\n");
    assert("\n"@ == seq!['\n']);
    text::lemma_split_join(padded, '\n');
}

} // verus!
