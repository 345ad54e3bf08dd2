//! What goes over the wire, and how long is waited for it.
use vstd::prelude::*;

use crate::address::ServerUrl;
use crate::address;
use crate::command::Command;
use crate::config::{header_text, SessionPoller, WebDriverConfig, WebDriverConfigBuilder};
use crate::connection::{
    HttpClient, HttpResponse, NullDriverSync, NullHttpClient, RemoteConnectionSync,
};
use crate::duration::Duration;
use crate::encoding::base64_decode;
use crate::encoding;
use crate::error::{WebDriverErrorInner, WebDriverResult};
use crate::http::{
    build_headers, interpret_response, interpret_sync_response, prepare_request, CmdResponse,
    HttpRequest,
};
use crate::http;
use crate::json::{Json, JsonValue};
use crate::laws::errors;
use crate::laws;
use crate::poller::{
    ElementPoller, ElementPollerNoWait, ElementPollerWithTimeout, IntoElementPoller, Tick,
};
use crate::request::RequestData;
use crate::types::SessionId;
use crate::wire;

verus! {

/// A header stands among the headers.
pub open spec fn sends(headers: Seq<(String, String)>, name: Seq<char>, value: Seq<char>) -> bool {
    exists|i: int|
        0 <= i < headers.len() && (#[trigger] headers[i]).0@ == name && headers[i].1@ == value
}

/// No header has the name.
pub open spec fn lacks(headers: Seq<(String, String)>, name: Seq<char>) -> bool {
    forall|i: int| 0 <= i < headers.len() ==> (#[trigger] headers[i]).0@ != name
}

/// Every request asks for JSON, sends JSON and says who asks. It carries a name and a password where
/// there is one, and keeps the connection where that is wanted.
pub proof fn law_headers(
    username: &str,
    password: Option<String>,
    agent: &str,
    keep_alive: bool,
    r: Vec<(String, String)>,
)
    requires
        call_ensures(build_headers, (username, password, agent, keep_alive), r),
    ensures
        sends(r@, "accept"@, "application/json"@),
        sends(r@, "content-type"@, "application/json;charset=UTF-8"@),
        sends(r@, "user-agent"@, agent@),
        username@.len() > 0 || password is Some ==> sends(
            r@,
            "authorization"@,
            "Basic "@ + encoding::base64_text(
                vstd::utf8::encode_utf8(
                    username@ + ":"@ + (match password {
                        Some(p) => p@,
                        None => Seq::empty(),
                    }),
                ),
            ),
        ),
        username@.len() == 0 && password is None ==> lacks(r@, "authorization"@),
        keep_alive ==> sends(r@, "connection"@, "keep-alive"@),
        !keep_alive ==> lacks(r@, "connection"@),
        r@.len() == 3 + (if username@.len() > 0 || password is Some {
            1int
        } else {
            0int
        }) + (if keep_alive {
            1int
        } else {
            0int
        }),
{
    reveal_strlit("accept");
    reveal_strlit("content-type");
    reveal_strlit("user-agent");
    reveal_strlit("authorization");
    reveal_strlit("connection");
    assert("user-agent"@[0] != "connection"@[0]);
    assert("accept"@.len() == 6 && "content-type"@.len() == 12 && "user-agent"@.len() == 10);
    assert("authorization"@.len() == 13 && "connection"@.len() == 10);
    let views = http::headers_view(r@);
    assert(views.len() == r@.len());
    assert(forall|i: int| 0 <= i < r@.len() ==> (#[trigger] r@[i]).0@ == views[i].0 && r@[i].1@
        == views[i].1);
    let auth = username@.len() > 0 || password is Some;
    assert(r@[0].0@ == "accept"@ && r@[1].0@ == "content-type"@ && r@[2].0@ == "user-agent"@);
    if auth {
        assert(r@[3].0@ == "authorization"@);
        if keep_alive {
            assert(r@[4].0@ == "connection"@);
        }
    } else if keep_alive {
        assert(r@[3].0@ == "connection"@);
    }
}

/// A request goes out with its method and its body, to its address on the server, with the headers
/// for the name and the password in the server's address.
pub proof fn law_prepared_requests(
    request: &RequestData,
    server: &ServerUrl,
    config: &WebDriverConfig,
    user: &str,
    pass: Option<String>,
    agent: &str,
    headers: Vec<(String, String)>,
    r: WebDriverResult<HttpRequest>,
)
    requires
        call_ensures(prepare_request, (request, server, config), r),
        user@ == address::url_username(server@),
        crate::text::opt_text(pass) == address::url_password(server@),
        agent@ == config.user_agent@,
        call_ensures(build_headers, (user, pass, agent, config.keep_alive), headers),
    ensures
        match address::joined_url(server@, request.uri@) {
            Err(message) => r matches Err(e) && e@ matches WebDriverErrorInner::ParseError(m) && m@
                == "invalid url: "@ + message,
            Ok(url) => match http::request_uri(url) {
                Err(message) => r matches Err(e) && e@ matches WebDriverErrorInner::RequestFailed(m)
                    && m@ == "invalid request body: "@ + message,
                Ok(uri) => r matches Ok(h) && {
                    &&& h.method == request.method
                    &&& h.url@ == uri
                    &&& match (h.body, request.body) {
                        (Some(a), Some(b)) => a@ == b@,
                        (None, None) => true,
                        _ => false,
                    }
                    &&& http::headers_view(h.headers@) == http::headers_view(headers@)
                },
            },
        },
{
}

/// A response between 200 and 399 whose body is JSON is a success with that body. Every other
/// response is an error, read from its text.
pub proof fn law_responses(status: u16, body: &[u8], r: WebDriverResult<CmdResponse>)
    requires
        call_ensures(interpret_response, (status, body), r),
    ensures
        r is Ok <==> 200 <= status <= 399 && wire::json_of_bytes(body@) is Ok,
        r matches Ok(c)
            ==> c.status == status && wire::json_of_bytes(body@) == Ok::<Json, Seq<char>>(
            c.body@,
        ),
        r matches Err(e) ==> match wire::json_of_text(encoding::lossy_text(body@)) {
            Ok(v) => if errors::info_valid(v) {
                errors::is_named(e@, errors::name_in(v), v, status)
            } else {
                e@ matches WebDriverErrorInner::UnknownResponse(s, b) && s == status && b@
                    == encoding::lossy_text(body@)
            },
            Err(_) => e@ matches WebDriverErrorInner::UnknownResponse(s, b) && s == status && b@
                == encoding::lossy_text(body@),
        },
{
    if let Err(e) = r {
        errors::lemma_answer(e@, status, encoding::lossy_text(body@));
    }
}

/// An answer that was read before is a success between 200 and 399, an error of the server between
/// 400 and 599, and unknown else.
pub proof fn law_read_responses(
    status: u16,
    body: Result<JsonValue, String>,
    r: WebDriverResult<JsonValue>,
)
    requires
        call_ensures(interpret_sync_response, (status, body), r),
    ensures
        match body {
            Err(message) => r matches Err(e) && e@ == WebDriverErrorInner::Json(message),
            Ok(v) => {
                &&& 200 <= status <= 399 ==> (r matches Ok(x) && x == v)
                &&& 400 <= status <= 599 ==> (r matches Err(e) && if errors::info_valid(v@) {
                    errors::is_named(e@, errors::name_in(v@), v@, status)
                } else {
                    e@ matches WebDriverErrorInner::UnknownResponse(s, t) && s == status && t@
                        == wire::text_of_json(wire::settled(v@))
                })
                &&& status < 200 || status >= 600 ==> (r matches Err(e)
                    && e@ matches WebDriverErrorInner::RequestFailed(m) && m@
                    == "Unknown response: "@ + wire::debug_line_of_json(wire::settled(v@)))
            },
        },
{
    if let Ok(v) = body {
        if 400 <= status <= 599 {
            errors::lemma_info(r->Err_0@, v@, status);
        }
    }
}

/// The value of a response is what stands under `value` in its body.
pub proof fn law_response_values(c: CmdResponse)
    ensures
        forall|r: WebDriverResult<JsonValue>| #[trigger]
            call_ensures(CmdResponse::value_json, (c,), r) ==> match laws::value_in(c.body) {
            Some(v) => r matches Ok(x) && x@ == v,
            None => r matches Err(e) && e@ matches WebDriverErrorInner::Json(m)
                && m@ == "Unexpected response body"@,
        },
        forall|r: WebDriverResult<String>| #[trigger]
            call_ensures(CmdResponse::value::<String>, (c,), r) ==> match laws::text_in(c.body) {
            Some(s) => r matches Ok(x) && x@ == s,
            None => r is Err,
        },
        forall|r: WebDriverResult<bool>| #[trigger]
            call_ensures(CmdResponse::value::<bool>, (c,), r) ==> match laws::value_in(c.body) {
            Some(Json::Bool(b)) => r matches Ok(x) && x == b,
            _ => r is Err,
        },
{
}

/// Without a client nothing is sent, and the error says what is missing. Without a driver every
/// command is answered by null.
pub proof fn law_nothing_sent(
    c: &NullHttpClient,
    request: HttpRequest,
    d: &NullDriverSync,
    id: &SessionId,
    command: Command,
    sent: WebDriverResult<HttpResponse>,
    done: WebDriverResult<JsonValue>,
)
    requires
        call_ensures(<NullHttpClient as HttpClient>::send, (c, request), sent),
        call_ensures(<NullDriverSync as RemoteConnectionSync>::execute, (d, id, command), done),
    ensures
        sent matches Err(e) && e@ matches WebDriverErrorInner::RequestFailed(m) && m@
            == "Either enable the `reqwest` feature or implement your own `HttpClient`"@,
        done matches Ok(v) && v@ == Json::Null,
{
}

/// Data is read back from the base64 text that it was written as.
pub proof fn law_base64(text: &str, bytes: Seq<u8>, r: WebDriverResult<Vec<u8>>)
    requires
        call_ensures(base64_decode, (text,), r),
    ensures
        text@ == encoding::base64_text(bytes) ==> (r matches Ok(v) && v@ == bytes),
        match encoding::base64_bytes(text@) {
            Ok(b) => r matches Ok(v) && v@ == b,
            Err(message) => r matches Err(e) && e@ matches WebDriverErrorInner::DecodeError(m) && m@
                == message,
        },
{
}

/// A character that a header takes.
pub open spec fn taken(c: char) -> bool {
    c == '\t' || (c >= ' ' && c != '\u{7f}')
}

proof fn lemma_taken(c: char)
    ensures
        crate::config::header_char(c) <==> taken(c),
{
}

/// A header takes every character but the control characters, of which it takes the tabulator.
pub proof fn law_header_text(agent: &str, r: WebDriverResult<String>)
    requires
        call_ensures(header_text, (agent,), r),
    ensures
        r is Ok <==> forall|i: int| 0 <= i < agent@.len() ==> #[trigger] taken(agent@[i]),
        r matches Ok(t) ==> t@ == agent@,
        r matches Err(e) ==> (e@ matches WebDriverErrorInner::ParseError(m) && m@
            == "failed to parse header value"@),
{
    if crate::config::is_header_text(agent@) {
        assert forall|i: int| 0 <= i < agent@.len() implies #[trigger] taken(agent@[i]) by {
            assert(crate::config::header_char(agent@[i]));
            lemma_taken(agent@[i]);
        }
    }
    if forall|i: int| 0 <= i < agent@.len() ==> #[trigger] taken(agent@[i]) {
        assert forall|i: int| 0 <= i < agent@.len() implies #[trigger] crate::config::header_char(
            agent@[i],
        ) by {
            assert(taken(agent@[i]));
            lemma_taken(agent@[i]);
        }
    }
}

/// The name that the client gives itself.
pub proof fn law_agent(version: &str, rust: &str, os: &str, r: String)
    requires
        call_ensures(WebDriverConfig::default_user_agent, (version, rust, os), r),
    ensures
        r@ == "thirtyfour/"@ + version@ + " (rust/"@ + rust@ + "; "@ + os@ + ")"@,
{
    assert(r@ =~= "thirtyfour/"@ + version@ + " (rust/"@ + rust@ + "; "@ + os@ + ")"@);
}

/// Where nothing is set, connections are kept, elements are waited for up to twenty seconds in steps
/// of half a second, a request may take two minutes, and the client gives its own name.
pub proof fn law_default_config(
    b: WebDriverConfigBuilder,
    agent: String,
    r: WebDriverResult<WebDriverConfig>,
)
    requires
        call_ensures(WebDriverConfigBuilder::new, (), b) || call_ensures(
            WebDriverConfig::builder,
            (),
            b,
        ),
        call_ensures(WebDriverConfigBuilder::build, (b, agent), r),
    ensures
        r matches Ok(c) && c.keep_alive && c.user_agent == agent && c.reqwest_timeout@
            == 120_000_000_000 && (c.poller matches SessionPoller::WithTimeout(p) && p.timeout()@
            == 20_000_000_000 && p.interval()@ == 500_000_000 && p.tries() == 0),
{
}

/// Each option of a configuration is what it was set to, and setting one leaves the others.
pub proof fn law_config_options(
    b: WebDriverConfigBuilder,
    yes: bool,
    p: SessionPoller,
    a: WebDriverResult<String>,
    d: Duration,
)
    ensures
        forall|r: WebDriverConfigBuilder| #[trigger]
            call_ensures(WebDriverConfigBuilder::keep_alive, (b, yes), r)
            ==> r@.keep_alive == yes && r@.poller == b@.poller && r@.user_agent == b@.user_agent
            && r@.reqwest_timeout == b@.reqwest_timeout,
        forall|r: WebDriverConfigBuilder| #[trigger]
            call_ensures(WebDriverConfigBuilder::poller, (b, p), r)
            ==> r@.poller == Some(p) && r@.keep_alive == b@.keep_alive
            && r@.user_agent == b@.user_agent && r@.reqwest_timeout == b@.reqwest_timeout,
        forall|r: WebDriverConfigBuilder| #[trigger]
            call_ensures(WebDriverConfigBuilder::user_agent, (b, a), r)
            ==> r@.user_agent == Some(a) && r@.keep_alive == b@.keep_alive
            && r@.poller == b@.poller && r@.reqwest_timeout == b@.reqwest_timeout,
        forall|r: WebDriverConfigBuilder| #[trigger]
            call_ensures(WebDriverConfigBuilder::reqwest_timeout, (b, d), r)
            ==> r@.reqwest_timeout == d && r@.keep_alive == b@.keep_alive && r@.poller == b@.poller
            && r@.user_agent == b@.user_agent,
{
}

/// A configuration is built of what was set; a name that could not be set is the only error.
pub proof fn law_built_config(
    b: WebDriverConfigBuilder,
    agent: String,
    r: WebDriverResult<WebDriverConfig>,
)
    requires
        call_ensures(WebDriverConfigBuilder::build, (b, agent), r),
    ensures
        b@.user_agent matches Some(Err(e)) ==> (r matches Err(f) && f == e),
        !(b@.user_agent matches Some(Err(_))) ==> (r matches Ok(c) && c.keep_alive == b@.keep_alive
            && c.reqwest_timeout == b@.reqwest_timeout && (b@.poller matches Some(p) ==> c.poller
            == p) && (b@.user_agent matches Some(Ok(a)) ==> c.user_agent == a)),
{
}

/// One more try is due at its multiple of the interval. It is waited for where that time has not
/// come, and the tries stop where the timeout has.
pub proof fn law_ticks(elapsed: Duration, later: Duration)
    ensures
        forall|p: &mut ElementPollerWithTimeout, r: Tick| #[trigger]
            call_ensures(<ElementPollerWithTimeout as ElementPoller>::tick, (p, elapsed, later), r)
            ==> {
            let due = due_at(p.interval(), p.tries() + 1);
            &&& final(p).tries() == p.tries() + 1
            &&& final(p).timeout() == p.timeout()
            &&& final(p).interval() == p.interval()
            &&& elapsed@ >= p.timeout()@ <==> r is Stop
            &&& elapsed@ < p.timeout()@ && later@ < due
                ==> (r matches Tick::Wait(d) && later@ + d@ == due)
            &&& elapsed@ < p.timeout()@ && later@ >= due
                ==> (r is Again || (r matches Tick::Wait(d) && d@ == 0))
        },
        forall|p: &mut ElementPollerNoWait, r: Tick| #[trigger]
            call_ensures(<ElementPollerNoWait as ElementPoller>::tick, (p, elapsed, later), r)
            ==> r is Stop,
{
}

/// When a try is due, as far as a span of time can tell.
pub open spec fn due_at(interval: Duration, tries: nat) -> int {
    if interval@ * tries < 0x1_0000_0000_0000_0000 * 1_000_000_000 {
        (interval@ * tries) as int
    } else {
        0x1_0000_0000_0000_0000 * 1_000_000_000 - 1
    }
}

/// A poller has the timeout and the interval that it was made with, and starts without a try. By
/// default it waits up to twenty seconds, in steps of half a second.
pub proof fn law_pollers(
    timeout: Duration,
    interval: Duration,
    p: ElementPollerWithTimeout,
    q: ElementPollerWithTimeout,
    d: ElementPollerWithTimeout,
    s: SessionPoller,
    t: SessionPoller,
)
    requires
        call_ensures(ElementPollerWithTimeout::new, (timeout, interval), p),
        call_ensures(<ElementPollerWithTimeout as IntoElementPoller>::start, (&p,), q),
        call_ensures(<ElementPollerWithTimeout as Default>::default, (), d),
        call_ensures(SessionPoller::start, (&s,), t),
    ensures
        p.timeout() == timeout && p.interval() == interval && p.tries() == 0,
        q.timeout() == timeout && q.interval() == interval && q.tries() == 0,
        d.timeout()@ == 20_000_000_000 && d.interval()@ == 500_000_000 && d.tries() == 0,
        s is NoWait <==> t is NoWait,
        s matches SessionPoller::WithTimeout(x) ==> (t matches SessionPoller::WithTimeout(y)
            && y.timeout() == x.timeout() && y.interval() == x.interval() && y.tries() == 0),
{
}

/// An address of a server ends in one slash, so that what comes below it is joined to all of it.
pub proof fn law_server_directory(text: &str, r: WebDriverResult<ServerUrl>)
    requires
        call_ensures(ServerUrl::directory, (text,), r),
    ensures
        match address::parsed_url(crate::text::without_end(text@, '/') + seq!['/']) {
            Ok(u) => r matches Ok(s) && s@ == u,
            Err(_) => r is Err,
        },
{
    reveal_strlit("/");
    assert("/"@ =~= seq!['/']);
}

} // verus!
