//! Connections to the WebDriver server.
use crate::address;
use crate::address::ServerUrl;
use crate::command::{Command, CommandView};
use crate::config::WebDriverConfig;
use crate::error::{WebDriverError, WebDriverErrorInner, WebDriverResult};
use crate::http;
use crate::http::{interpret_response, prepare_request, CmdResponse, HttpRequest};
use crate::json;
use crate::json::{Json, JsonValue};
use crate::request::{RequestData, RequestView};
use crate::types::SessionId;
use vstd::prelude::*;

verus! {

/// A response of an HTTP server.
#[derive(Debug)]
pub struct HttpResponse {
    pub status: u16,
    pub body: Vec<u8>,
}

/// An HTTP client: what sends the requests of a session.
pub trait HttpClient: Sized {
    /// Sends a request and returns the response.
    fn send(&self, request: HttpRequest) -> WebDriverResult<HttpResponse>;
}

/// Null client, for a build that sends no requests.
#[derive(Debug)]
pub struct NullHttpClient;

impl HttpClient for NullHttpClient {
    fn send(&self, request: HttpRequest) -> (r: WebDriverResult<HttpResponse>)
        ensures
            r matches Err(e) && e@ matches WebDriverErrorInner::RequestFailed(m) && m@
                == "Either enable the `reqwest` feature or implement your own `HttpClient`"@,
    {
        Err(
            WebDriverError::RequestFailed(
                "Either enable the `reqwest` feature or implement your own `HttpClient`".to_owned(),
            ),
        )
    }
}

/// Whether an HTTP request is that of a command: at its place below the server's address, with
/// its method and its body, and with the headers of the configuration.
pub open spec fn sent_for(
    sent: HttpRequest,
    request: RequestView,
    server_url: Seq<char>,
    config: WebDriverConfig,
) -> bool {
    &&& sent.method == request.method
    &&& address::joined_url(server_url, request.uri) matches Ok(url) && http::request_uri(url)
        == Ok::<Seq<char>, Seq<char>>(sent.url@)
    &&& json::opt_view(sent.body) == request.body
    &&& http::headers_view(sent.headers@) == http::request_headers(
        address::url_username(server_url),
        address::url_password(server_url),
        config.user_agent@,
        config.keep_alive,
    )
}

/// Whether `r` is what a client's answer to the request of a command may come to.
pub open spec fn may_respond<H: HttpClient>(
    client: H,
    request: RequestView,
    server_url: Seq<char>,
    config: WebDriverConfig,
    r: WebDriverResult<CmdResponse>,
) -> bool {
    match address::joined_url(server_url, request.uri) {
        Err(message) => r matches Err(e) && e@ matches WebDriverErrorInner::ParseError(m) && m@
            == "invalid url: "@ + message,
        Ok(url) => match http::request_uri(url) {
            Err(message) => r matches Err(e) && e@ matches WebDriverErrorInner::RequestFailed(m)
                && m@ == "invalid request body: "@ + message,
            Ok(_) => exists|sent: HttpRequest, response: WebDriverResult<HttpResponse>|
                sent_for(sent, request, server_url, config) && #[trigger] call_ensures(
                    H::send,
                    (&client, sent),
                    response,
                ) && match response {
                    Ok(a) => http::response_result(a.status, a.body@, r),
                    Err(e) => r == Err::<CmdResponse, WebDriverError>(e),
                },
        },
    }
}

/// Sends the request of a command, and says what the response means.
pub fn run_webdriver_cmd<H: HttpClient>(
    client: &H,
    request_data: &RequestData,
    server_url: &ServerUrl,
    config: &WebDriverConfig,
) -> (r: WebDriverResult<CmdResponse>)
    ensures
        may_respond(*client, request_data@, server_url@, *config, r),
{
    let request: HttpRequest = match prepare_request(request_data, server_url, config) {
        Ok(request) => request,
        Err(e) => return Err(e),
    };
    match client.send(request) {
        Ok(response) => interpret_response(response.status, response.body.as_slice()),
        Err(e) => Err(e),
    }
}

/// A connection that commands are executed on.
pub trait RemoteConnectionSync: Sized {
    /// Executes a command in a session and returns the data of the reply.
    fn execute(&self, session_id: &SessionId, command: Command) -> WebDriverResult<JsonValue>;
}

/// A connection that can be made from the address of the server.
pub trait WebDriverHttpClientSync: RemoteConnectionSync {
    /// Create a new connection to the server at the address.
    fn create(remote_server_addr: &str) -> WebDriverResult<Self>;
}

/// Whether `reply` is what this connection may answer to the command in the session.
pub open spec fn may_reply<C: RemoteConnectionSync>(
    conn: C,
    session_id: Seq<char>,
    command: CommandView,
    reply: WebDriverResult<JsonValue>,
) -> bool {
    exists|s: SessionId, c: Command|
        #![trigger s@, c@]
        s@ == session_id && c@ == command && call_ensures(C::execute, (&conn, &s, c), reply)
}

/// Executes a command.
pub fn run<C: RemoteConnectionSync>(conn: &C, session_id: &SessionId, command: Command) -> (r:
    WebDriverResult<JsonValue>)
    ensures
        may_reply(*conn, session_id@, command@, r),
{
    conn.execute(session_id, command)
}

/// A line to a server, over which commands go one after the other, each in a session. What the
/// server answers may be another thing after every command.
pub trait ServerLine: Sized {
    /// Whether a command can make `after` of the line `before`, with the answer `reply`.
    spec fn exchanged(
        before: Self,
        after: Self,
        session_id: Seq<char>,
        command: CommandView,
        reply: WebDriverResult<JsonValue>,
    ) -> bool;

    /// Executes a command.
    fn exchange(&mut self, session_id: &SessionId, command: Command) -> (r: WebDriverResult<
        JsonValue,
    >)
        ensures
            Self::exchanged(*old(self), *final(self), session_id@, command@, r),
    ;
}

/// The line that a connection is. What the server has become does not show in it.
#[derive(Debug)]
pub struct ConnectionLine<'a, C> {
    pub conn: &'a C,
}

impl<'a, C: RemoteConnectionSync> ServerLine for ConnectionLine<'a, C> {
    open spec fn exchanged(
        before: Self,
        after: Self,
        session_id: Seq<char>,
        command: CommandView,
        reply: WebDriverResult<JsonValue>,
    ) -> bool {
        after == before && may_reply(*before.conn, session_id, command, reply)
    }

    fn exchange(&mut self, session_id: &SessionId, command: Command) -> (r: WebDriverResult<
        JsonValue,
    >) {
        run(self.conn, session_id, command)
    }
}

/// The line that a connection is.
pub open spec fn line_of<'a, C>(conn: &'a C) -> ConnectionLine<'a, C> {
    ConnectionLine { conn }
}

/// Null driver that satisfies the build but does nothing.
#[derive(Debug)]
pub struct NullDriverSync {
    url: String,
}

impl NullDriverSync {
    /// The address that the driver was made with.
    pub closed spec fn view(&self) -> Seq<char> {
        self.url@
    }
}

impl RemoteConnectionSync for NullDriverSync {
    fn execute(&self, session_id: &SessionId, command: Command) -> (r: WebDriverResult<JsonValue>)
        ensures
            r matches Ok(v) && v@ == Json::Null,
    {
        Ok(JsonValue::Null)
    }
}

impl WebDriverHttpClientSync for NullDriverSync {
    fn create(remote_server_addr: &str) -> (r: WebDriverResult<Self>)
        ensures
            r matches Ok(d) && d@ == remote_server_addr@,
    {
        Ok(NullDriverSync { url: remote_server_addr.to_owned() })
    }
}

} // verus!
