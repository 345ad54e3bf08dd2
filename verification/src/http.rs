//! HTTP: the request that a command becomes, and what a response means.
use crate::address;
use crate::address::ServerUrl;
use crate::config::WebDriverConfig;
use crate::encoding;
use crate::encoding::{base64_encode, from_utf8_lossy};
use crate::error;
use crate::error::{WebDriverError, WebDriverErrorInfo, WebDriverErrorInner, WebDriverResult};
use crate::json;
use crate::json::{Json, JsonValue};
use crate::request::{Method, RequestData};
use crate::text;
use crate::text::{cat2, cat3};
use crate::wire;
use vstd::prelude::*;

verus! {

/// A request as it goes to the server.
#[derive(Debug)]
pub struct HttpRequest {
    pub method: Method,
    pub url: String,
    /// The headers, in their order, by name.
    pub headers: Vec<(String, String)>,
    pub body: Option<JsonValue>,
}

/// What the headers of a request stand for.
pub open spec fn headers_view(headers: Seq<(String, String)>) -> Seq<(Seq<char>, Seq<char>)> {
    Seq::new(headers.len(), |i: int| (headers[i].0@, headers[i].1@))
}

/// The value of the header that a user name and a password give.
pub open spec fn basic_auth(username: Seq<char>, password: Option<Seq<char>>) -> Seq<char> {
    let password = match password {
        Some(p) => p,
        None => Seq::empty(),
    };
    "Basic "@ + encoding::base64_text(vstd::utf8::encode_utf8(username + ":"@ + password))
}

/// The headers of every request, then that of a user name or a password where there is one, and
/// then that of a connection to be kept.
pub open spec fn request_headers(
    username: Seq<char>,
    password: Option<Seq<char>>,
    user_agent: Seq<char>,
    keep_alive: bool,
) -> Seq<(Seq<char>, Seq<char>)> {
    let always = seq![
        ("accept"@, "application/json"@),
        ("content-type"@, "application/json;charset=UTF-8"@),
        ("user-agent"@, user_agent),
    ];
    let auth = if username.len() != 0 || password is Some {
        seq![("authorization"@, basic_auth(username, password))]
    } else {
        seq![]
    };
    let keep = if keep_alive {
        seq![("connection"@, "keep-alive"@)]
    } else {
        seq![]
    };
    always + auth + keep
}

/// Adds a header.
fn push_header(headers: &mut Vec<(String, String)>, name: &str, value: &str)
    ensures
        headers_view(final(headers)@) == headers_view(old(headers)@).push((name@, value@)),
{
    headers.push((name.to_owned(), value.to_owned()));
    proof {
        assert(headers_view(headers@) == headers_view(old(headers)@).push((name@, value@)));
    }
}

/// The headers of a request.
pub fn build_headers(
    username: &str,
    password: Option<String>,
    user_agent: &str,
    keep_alive: bool,
) -> (r: Vec<(String, String)>)
    ensures
        headers_view(r@) == request_headers(
            username@,
            text::opt_text(password),
            user_agent@,
            keep_alive,
        ),
{
    let mut headers: Vec<(String, String)> = Vec::new();
    push_header(&mut headers, "accept", "application/json");
    push_header(&mut headers, "content-type", "application/json;charset=UTF-8");
    push_header(&mut headers, "user-agent", user_agent);
    let ghost always = headers_view(headers@);
    proof {
        assert(always == seq![
            ("accept"@, "application/json"@),
            ("content-type"@, "application/json;charset=UTF-8"@),
            ("user-agent"@, user_agent@),
        ]);
    }
    let ghost auth: Seq<(Seq<char>, Seq<char>)> = if username@.len() != 0 || password is Some {
        seq![("authorization"@, basic_auth(username@, text::opt_text(password)))]
    } else {
        seq![]
    };
    if !username.is_empty() || password.is_some() {
        let password: String = match password {
            Some(p) => p,
            None => String::new(),
        };
        let credentials: String = cat3(username, ":", password.as_str());
        let encoded: String = base64_encode(credentials.as_str().as_bytes());
        push_header(&mut headers, "authorization", cat2("Basic ", encoded.as_str()).as_str());
    }
    proof {
        assert(headers_view(headers@) == always + auth);
    }
    if keep_alive {
        push_header(&mut headers, "connection", "keep-alive");
    }
    headers
}

/// The text of the `http::Uri` that a text is read as, or a message that says why it is none.
pub uninterp spec fn request_uri(text: Seq<char>) -> Result<Seq<char>, Seq<char>>;

/// `http::Uri::try_from`, which the builder of an `http::Request` reads its address with: the
/// address as a text, or the error's message.
#[verifier::external_body]
fn read_uri(text: &str) -> (r: Result<String, String>)
    ensures
        match r {
            Ok(uri) => request_uri(text@) == Ok::<Seq<char>, Seq<char>>(uri@),
            Err(e) => request_uri(text@) == Err::<Seq<char>, Seq<char>>(e@),
        },
{
    http::Uri::try_from(text).map(|uri| uri.to_string()).map_err(|e| e.to_string())
}

/// The request as it goes to a server: to the address that the request's means there, with the
/// headers that the server's address and the configuration give.
pub fn prepare_request(
    request: &RequestData,
    server_url: &ServerUrl,
    config: &WebDriverConfig,
) -> (r: WebDriverResult<HttpRequest>)
    ensures
        match address::joined_url(server_url@, request.uri@) {
            Ok(url) => match request_uri(url) {
                Ok(uri) => r matches Ok(h) && h.method == request.method && h.url@ == uri
                    && json::opt_view(h.body) == json::opt_view(request.body) && headers_view(
                    h.headers@,
                ) == request_headers(
                    address::url_username(server_url@),
                    address::url_password(server_url@),
                    config.user_agent@,
                    config.keep_alive,
                ),
                Err(message) => r matches Err(e) && e@ matches WebDriverErrorInner::RequestFailed(m)
                    && m@ == "invalid request body: "@ + message,
            },
            Err(message) => r matches Err(e) && e@ matches WebDriverErrorInner::ParseError(m) && m@
                == "invalid url: "@ + message,
        },
{
    let url: String = match server_url.join(request.uri.as_str()) {
        Ok(url) => url,
        Err(e) => return Err(e),
    };
    let url: String = match read_uri(url.as_str()) {
        Ok(uri) => uri,
        Err(message) => return Err(
            WebDriverError::RequestFailed(cat2("invalid request body: ", message.as_str())),
        ),
    };
    let headers: Vec<(String, String)> = build_headers(
        server_url.username().as_str(),
        server_url.password(),
        config.user_agent.as_str(),
        config.keep_alive,
    );
    let body: Option<JsonValue> = match &request.body {
        Some(b) => Some(b.clone()),
        None => None,
    };
    Ok(HttpRequest { method: request.method, url, headers, body })
}

/// A request carries credentials exactly where the server's address has a user name or a
/// password.
pub proof fn lemma_auth_header(
    username: Seq<char>,
    password: Option<Seq<char>>,
    user_agent: Seq<char>,
    keep_alive: bool,
)
    ensures
        ({
            let headers = request_headers(username, password, user_agent, keep_alive);
            (exists|i: int|
                #![trigger headers[i]]
                0 <= i < headers.len() && headers[i].0 == "authorization"@) <==> (username.len()
                != 0 || password is Some)
        }),
{
    reveal_strlit("accept");
    reveal_strlit("content-type");
    reveal_strlit("user-agent");
    reveal_strlit("authorization");
    reveal_strlit("connection");
    assert("accept"@.len() == 6);
    assert("content-type"@.len() == 12);
    assert("user-agent"@.len() == 10);
    assert("authorization"@.len() == 13);
    assert("connection"@.len() == 10);
    let headers = request_headers(username, password, user_agent, keep_alive);
    if username.len() != 0 || password is Some {
        assert(headers[3].0 == "authorization"@);
    }
}

/// Struct representing a WebDriver command response.
#[derive(Debug)]
pub struct CmdResponse {
    /// The body of the response.
    pub body: JsonValue,
    /// The HTTP status code of the response.
    pub status: u16,
}

/// Whether `r` is what a response with this status and body comes to: its data, where the status
/// is one of success and the body is JSON; and else the error that the body tells of.
pub open spec fn response_result(status: u16, body: Seq<u8>, r: WebDriverResult<CmdResponse>) -> bool {
    if 200 <= status <= 399 && wire::json_of_bytes(body) is Ok {
        r matches Ok(c) && c.status == status && wire::json_of_bytes(body) == Ok::<Json, Seq<char>>(
            c.body@,
        )
    } else {
        r matches Err(e) && error::answers_error(e@, status, encoding::lossy_text(body))
    }
}

/// What a response from the server comes to.
pub fn interpret_response(status: u16, body: &[u8]) -> (r: WebDriverResult<CmdResponse>)
    ensures
        response_result(status, body@, r),
{
    if 200 <= status && status <= 399 {
        match JsonValue::parse_bytes(body) {
            Ok(value) => return Ok(CmdResponse { body: value, status }),
            Err(_) => {},
        }
    }
    Err(WebDriverError::parse(status, from_utf8_lossy(body)))
}

/// What a response comes to on a connection that reads every body as JSON first, from the
/// result of reading it.
pub fn interpret_sync_response(status: u16, body: Result<JsonValue, String>) -> (r: WebDriverResult<
    JsonValue,
>)
    ensures
        match body {
            Err(message) => r matches Err(e) && e@ == WebDriverErrorInner::Json(message),
            Ok(v) => if 200 <= status <= 399 {
                r == Ok::<JsonValue, WebDriverError>(v)
            } else if 400 <= status <= 599 {
                r matches Err(e) && match error::error_info_of(v@, status) {
                    Some(info) => exists|i: WebDriverErrorInfo|
                        #![trigger i@]
                        i@ == info && e@ == error::named_error(error::error_name(info), i),
                    None => e@ matches WebDriverErrorInner::UnknownResponse(s, t) && s == status
                        && t@ == wire::text_of_json(wire::settled(v@)),
                }
            } else {
                r matches Err(e) && e@ matches WebDriverErrorInner::RequestFailed(m)
                    && m@ == "Unknown response: "@ + wire::debug_line_of_json(wire::settled(v@))
            },
        },
{
    match body {
        Err(message) => Err(WebDriverError::from_inner(WebDriverErrorInner::Json(message))),
        Ok(v) => if 200 <= status && status <= 399 {
            Ok(v)
        } else if 400 <= status && status <= 599 {
            match WebDriverError::from_answer(status, &v) {
                Some(e) => Err(e),
                None => Err(
                    WebDriverError::from_inner(
                        WebDriverErrorInner::UnknownResponse(status, v.to_text()),
                    ),
                ),
            }
        } else {
            Err(
                WebDriverError::from_inner(
                    WebDriverErrorInner::RequestFailed(
                        cat2("Unknown response: ", v.to_debug_line().as_str()),
                    ),
                ),
            )
        },
    }
}

/// Whether `e` is the error of a JSON value that is not what it should be.
pub open spec fn is_json_error(e: WebDriverError, message: Seq<char>) -> bool {
    e@ matches WebDriverErrorInner::Json(m) && m@ == message
}

/// The message for a value that is not what it should be.
pub open spec fn decode_message(what: Seq<char>) -> Seq<char> {
    "Failed to decode response body: expected "@ + what
}

/// The error for a value that is not what it should be.
pub fn decode_error(what: &str) -> (r: WebDriverError)
    ensures
        is_json_error(r, decode_message(what@)),
{
    WebDriverError::from_inner(
        WebDriverErrorInner::Json(cat2("Failed to decode response body: expected ", what)),
    )
}

impl CmdResponse {
    /// Get the `value` field of the response as a JSON value.
    pub fn value_json(self) -> (r: WebDriverResult<JsonValue>)
        ensures
            match json::member(self.body@, "value"@) {
                Some(v) => r matches Ok(x) && x@ == v,
                None => r matches Err(e) && is_json_error(e, "Unexpected response body"@),
            },
    {
        match self.body {
            JsonValue::Object(members) => {
                let mut members: json::Object = members;
                match members.remove("value") {
                    Some(v) => Ok(v),
                    None => Err(
                        WebDriverError::from_inner(
                            WebDriverErrorInner::Json("Unexpected response body".to_owned()),
                        ),
                    ),
                }
            },
            _ => Err(
                WebDriverError::from_inner(
                    WebDriverErrorInner::Json("Unexpected response body".to_owned()),
                ),
            ),
        }
    }
}

} // verus!
