//! How a session is started, and how a driver ends it.
use vstd::prelude::*;

use crate::address;
use crate::command::{Command, CommandView};
use crate::connection::{ConnectionLine, RemoteConnectionSync, ServerLine, WebDriverHttpClientSync};
use crate::connection;
use crate::driver::Driver;
use crate::duration::Duration;
use crate::error::{WebDriverError, WebDriverErrorInner, WebDriverResult};
use crate::json::{Json, JsonValue};
use crate::laws::values;
use crate::laws;
use crate::manager::WebDriverManager;
use crate::session::SessionHandle;
use crate::text;
use crate::types::SessionId;
use crate::webdriver::{
    CreateHttpClient, GenericWebDriver, HttpClientCreateParams, RequestedCapabilities,
    WebDriverBuilder,
};
use crate::webdriver;
use crate::webdrivercommands::{SessionStep, WebDriverSession};
use crate::webdrivercommands;

verus! {

/// An unknown error that came with status 500.
pub open spec fn passing(reply: WebDriverResult<JsonValue>) -> bool {
    reply matches Err(e) && (e@ matches WebDriverErrorInner::UnknownError(info) && info@.status
        == 500)
}

/// A new session is asked for once more where the first answer is an unknown error of status 500.
/// Any other answer is the answer, and so is every second one.
pub proof fn law_second_try(e: &WebDriverError, second: bool, reply: WebDriverResult<JsonValue>)
    ensures
        forall|r: bool| #[trigger]
            call_ensures(webdrivercommands::is_worth_retrying, (e,), r) ==> r == (
            e@ matches WebDriverErrorInner::UnknownError(info) && info@.status == 500),
        forall|r: SessionStep| #[trigger]
            call_ensures(webdrivercommands::after_new_session, (second, reply), r) ==> match r {
                SessionStep::Again => !second && passing(reply),
                SessionStep::Fail(f) => reply matches Err(e) && f == e && (second
                    || !passing(reply)),
                SessionStep::Opened(w) => reply matches Ok(v) && w == v,
            },
{
}

/// A text that may be missing.
pub open spec fn text_or_missing(v: Option<Json>) -> bool {
    match v {
        Some(v) => v is Str,
        None => true,
    }
}

/// A record of two fields, of which the first `least` must be there where it is a list.
pub open spec fn two_fields(v: Json, least: nat) -> bool {
    match v {
        Json::Obj(_) => true,
        Json::Arr(items) => least <= items.len() <= 2,
        _ => false,
    }
}

/// The answer has a `value`, and the ids in it are texts.
pub open spec fn session_valid(v: Json) -> bool {
    two_fields(v, 2) && text_or_missing(values::field(v, 0, "session_id"@)) && (values::field(
        v,
        1,
        "value"@,
    ) matches Some(value) && two_fields(value, 0) && text_or_missing(
        values::field(value, 0, "sessionId"@),
    ))
}

/// The session that an answer tells of has the id under `session_id`, or else the one under
/// `sessionId` within `value`. Its capabilities stand beside the latter.
pub open spec fn session_told(v: Json, id: Seq<char>, caps: Json) -> bool {
    let value = values::field(v, 1, "value"@)->0;
    &&& match values::field(v, 0, "session_id"@) {
        Some(Json::Str(top)) => if top.len() > 0 {
            id == top
        } else {
            inner_id(value, id)
        },
        _ => inner_id(value, id),
    }
    &&& match values::field(value, 1, "capabilities"@) {
        Some(c) => caps == c,
        None => caps == Json::Null,
    }
}

/// The id under `sessionId`, which is empty where it is missing.
pub open spec fn inner_id(value: Json, id: Seq<char>) -> bool {
    match values::field(value, 0, "sessionId"@) {
        Some(Json::Str(inner)) => id == inner,
        _ => id.len() == 0,
    }
}

proof fn lemma_session_told(v: Json)
    ensures
        match webdrivercommands::new_session_data(v) {
            Some(data) => session_valid(v) && session_told(v, data.0, data.1),
            None => !session_valid(v),
        },
{
}

/// What a new session is called and what it can do is read from the answer.
pub proof fn law_new_session_is_read(v: &JsonValue, r: Option<(SessionId, JsonValue)>)
    requires
        call_ensures(webdrivercommands::read_new_session, (v,), r),
    ensures
        r is Some <==> session_valid(v@),
        r matches Some(s) ==> session_told(v@, s.0@, s.1@),
{
    lemma_session_told(v@);
}

/// A session is asked for, without an id. What comes back is the answer, or the answer to the same
/// command once more.
pub open spec fn session_asked<L: ServerLine>(
    line: L,
    last: L,
    w3c: Json,
    plain: Json,
    r: WebDriverResult<(SessionId, JsonValue)>,
) -> bool {
    exists|one: L, first: WebDriverResult<JsonValue>| #[trigger]
        L::exchanged(line, one, Seq::empty(), CommandView::NewSession(w3c, plain), first)
            && if passing(first) {
            exists|two: L, second: WebDriverResult<JsonValue>| #[trigger]
                L::exchanged(one, two, Seq::empty(), CommandView::NewSession(w3c, plain), second)
                    && session_begun(two, last, second, r)
        } else {
            session_begun(one, last, first, r)
        }
}

/// The session that was opened is told its timeouts before it is used: 60 seconds for scripts and
/// for pages, 30 for elements.
pub open spec fn session_begun<L: ServerLine>(
    line: L,
    last: L,
    answer: WebDriverResult<JsonValue>,
    r: WebDriverResult<(SessionId, JsonValue)>,
) -> bool {
    match answer {
        Err(e) => last == line && (r matches Err(f) && f == e),
        Ok(v) => if session_valid(v@) {
            exists|id: Seq<char>, caps: Json, set: WebDriverResult<JsonValue>| #[trigger]
                session_told(v@, id, caps) && #[trigger] timeouts_set(line, last, id, set)
                    && match set {
                    Err(e) => r matches Err(f) && f == e,
                    Ok(_) => r matches Ok(s) && s.0@ == id && s.1@ == caps,
                }
        } else {
            last == line && (r matches Err(e) && e@ is Json)
        },
    }
}

/// The session was told its timeouts, which count milliseconds.
pub open spec fn timeouts_set<L: ServerLine>(
    line: L,
    last: L,
    id: Seq<char>,
    set: WebDriverResult<JsonValue>,
) -> bool {
    exists|c: CommandView| #[trigger]
        L::exchanged(line, last, id, c, set) && (c matches CommandView::SetTimeouts(t) && t.script
            == Some(60_000u64) && t.page_load == Some(60_000u64) && t.implicit == Some(30_000u64))
}

proof fn lemma_begun<L: ServerLine>(
    line: L,
    last: L,
    w3c: Json,
    plain: Json,
    r: WebDriverResult<(SessionId, JsonValue)>,
)
    requires
        webdrivercommands::starts_over(line, last, w3c, plain, r),
    ensures
        session_asked(line, last, w3c, plain, r),
{
    let (after, reply) = choose|after: L, reply: WebDriverResult<JsonValue>| #[trigger]
        webdrivercommands::opens(line, after, w3c, plain, false, reply) && match reply {
            Err(e) => last == after && r == Err::<(SessionId, JsonValue), WebDriverError>(e),
            Ok(v) => match webdrivercommands::new_session_data(v@) {
                None => last == after && (r matches Err(e) && crate::http::is_json_error(
                    e,
                    crate::http::decode_message("a new session"@),
                )),
                Some(data) => exists|set: WebDriverResult<JsonValue>| #[trigger]
                    L::exchanged(
                        after,
                        last,
                        data.0,
                        CommandView::SetTimeouts(webdrivercommands::first_timeouts()),
                        set,
                    ) && match set {
                        Err(e) => r == Err::<(SessionId, JsonValue), WebDriverError>(e),
                        Ok(_) => r matches Ok(x) && x.0@ == data.0 && x.1@ == data.1,
                    },
            },
        };
    assert(session_begun(after, last, reply, r)) by {
        if let Ok(v) = reply {
            lemma_session_told(v@);
            if let Some(data) = webdrivercommands::new_session_data(v@) {
                let set = choose|set: WebDriverResult<JsonValue>| #[trigger]
                    L::exchanged(
                        after,
                        last,
                        data.0,
                        CommandView::SetTimeouts(webdrivercommands::first_timeouts()),
                        set,
                    ) && match set {
                        Err(e) => r == Err::<(SessionId, JsonValue), WebDriverError>(e),
                        Ok(_) => r matches Ok(x) && x.0@ == data.0 && x.1@ == data.1,
                    };
                assert(timeouts_set(after, last, data.0, set));
            }
        }
    }
    webdrivercommands::lemma_asked_once_or_twice(line, after, w3c, plain, reply);
    let command = CommandView::NewSession(w3c, plain);
    let (one, first) = choose|one: L, first: WebDriverResult<JsonValue>| #[trigger]
        L::exchanged(line, one, Seq::empty(), command, first) && if (first matches Err(e)
            && webdrivercommands::worth_retrying(e)) {
            L::exchanged(one, after, Seq::empty(), command, reply)
        } else {
            after == one && reply == first
        };
    assert(L::exchanged(line, one, Seq::empty(), command, first));
    if passing(first) {
        assert(L::exchanged(one, after, Seq::empty(), command, reply));
    }
}

/// A session is started as it says over any line to a server.
pub proof fn law_start_over<L: ServerLine>(w3c: JsonValue, plain: JsonValue)
    ensures
        forall|line: &mut L, r: WebDriverResult<(SessionId, JsonValue)>| #[trigger]
            call_ensures(webdrivercommands::start_over::<L>, (line, w3c, plain), r)
                ==> session_asked(*line, *final(line), w3c@, plain@, r),
{
    assert forall|line: &mut L, r: WebDriverResult<(SessionId, JsonValue)>| #[trigger]
        call_ensures(webdrivercommands::start_over::<L>, (line, w3c, plain), r)
            implies session_asked(*line, *final(line), w3c@, plain@, r) by {
        lemma_begun(*line, *final(line), w3c@, plain@, r);
    }
}

/// A session is started over the connection.
pub open spec fn session_started<C: RemoteConnectionSync>(
    conn: C,
    w3c: Json,
    plain: Json,
    r: WebDriverResult<(SessionId, JsonValue)>,
) -> bool {
    exists|last: ConnectionLine<C>| #[trigger]
        session_asked(connection::line_of(&conn), last, w3c, plain, r)
}

proof fn lemma_started<C: RemoteConnectionSync>(
    conn: C,
    w3c: Json,
    plain: Json,
    r: WebDriverResult<(SessionId, JsonValue)>,
)
    requires
        webdrivercommands::starts(conn, w3c, plain, r),
    ensures
        session_started(conn, w3c, plain, r),
{
    let last = choose|last: ConnectionLine<C>| #[trigger]
        webdrivercommands::starts_over(connection::line_of(&conn), last, w3c, plain, r);
    lemma_begun(connection::line_of(&conn), last, w3c, plain, r);
}

/// A connection is such a line.
pub proof fn law_start_session<C: RemoteConnectionSync>(
    conn: &C,
    w3c: JsonValue,
    plain: JsonValue,
    r: WebDriverResult<(SessionId, JsonValue)>,
)
    requires
        call_ensures(webdrivercommands::start_session::<C>, (conn, w3c, plain), r),
    ensures
        session_started(*conn, w3c@, plain@, r),
{
    lemma_started(*conn, w3c@, plain@, r);
}

/// The driver has the session that was started over its client, and is to end it.
pub open spec fn driven<C: RemoteConnectionSync>(
    client: C,
    w3c: Json,
    plain: Json,
    r: WebDriverResult<GenericWebDriver<C>>,
) -> bool {
    exists|started: WebDriverResult<(SessionId, JsonValue)>| #[trigger]
        session_started(client, w3c, plain, started) && match started {
            Err(e) => r matches Err(f) && f == e,
            Ok(s) => r matches Ok(d) && d.sid() == s.0@ && d.granted() == s.1@ && d.connection()
                == client && d.to_be_quit(),
        }
}

proof fn lemma_driven<C: RemoteConnectionSync>(
    client: C,
    w3c: Json,
    plain: Json,
    r: WebDriverResult<GenericWebDriver<C>>,
)
    requires
        webdriver::drives(client, w3c, plain, r),
    ensures
        driven(client, w3c, plain, r),
{
    let started = choose|started: WebDriverResult<(SessionId, JsonValue)>| #[trigger]
        webdrivercommands::starts(client, w3c, plain, started) && match started {
            Err(e) => r == Err::<GenericWebDriver<C>, WebDriverError>(e),
            Ok(s) => r matches Ok(d) && d.sid() == s.0@ && d.connection() == client && d.granted()
                == s.1@ && d.to_be_quit(),
        };
    lemma_started(client, w3c, plain, started);
}

/// A driver is made with the client that it is given, and its session has the capabilities that
/// were asked for in both forms.
pub proof fn law_driver_of_client<C: RemoteConnectionSync>(
    client: C,
    capabilities: RequestedCapabilities,
    r: WebDriverResult<GenericWebDriver<C>>,
)
    requires
        call_ensures(GenericWebDriver::<C>::new_with_client, (client, capabilities), r),
    ensures
        driven(client, capabilities.w3c@, capabilities.plain@, r),
{
    lemma_driven(client, capabilities.w3c@, capabilities.plain@, r);
}

/// A driver for an address has a client of that address.
pub proof fn law_driver_of_address<C: WebDriverHttpClientSync>(
    address: &str,
    capabilities: RequestedCapabilities,
    r: WebDriverResult<GenericWebDriver<C>>,
)
    requires
        call_ensures(GenericWebDriver::<C>::new, (address, capabilities), r),
    ensures
        exists|a: &str, made: WebDriverResult<C>|
            a@ == address@ && #[trigger] call_ensures(C::create, (a,), made) && match made {
                Err(e) => r matches Err(f) && f == e,
                Ok(client) => driven(client, capabilities.w3c@, capabilities.plain@, r),
            },
{
    let (a, made) = choose|a: &str, made: WebDriverResult<C>|
        a@ == address@ && #[trigger] call_ensures(C::create, (a,), made) && match made {
            Err(e) => r == Err::<GenericWebDriver<C>, WebDriverError>(e),
            Ok(client) => webdriver::drives(client, capabilities.w3c@, capabilities.plain@, r),
        };
    if let Ok(client) = made {
        lemma_driven(client, capabilities.w3c@, capabilities.plain@, r);
    }
    assert(call_ensures(C::create, (a,), made));
}

/// A driver ends its session once: where that worked it need not be ended again. It need not be
/// ended either where it has no id.
pub proof fn law_driver_ends<C: RemoteConnectionSync>()
    ensures
        forall|d: &mut GenericWebDriver<C>, r: WebDriverResult<()>| #[trigger]
            call_ensures(GenericWebDriver::<C>::quit, (d,), r) ==> {
                &&& laws::done(*d, CommandView::DeleteSession, r)
                &&& r is Ok ==> !final(d).to_be_quit()
                &&& r is Err ==> final(d).to_be_quit() == (*d).to_be_quit()
                &&& final(d).sid() == (*d).sid()
                &&& final(d).connection() == (*d).connection()
                &&& final(d).granted() == (*d).granted()
            },
        forall|d: &GenericWebDriver<C>, r: bool| #[trigger]
            call_ensures(GenericWebDriver::<C>::needs_quit, (d,), r) ==> r == (d.to_be_quit()
                && d.sid().len() > 0),
        forall|d: &GenericWebDriver<C>, r: JsonValue| #[trigger]
            call_ensures(GenericWebDriver::<C>::capabilities, (d,), r) ==> r@ == d.granted(),
        forall|d: &GenericWebDriver<C>, r: WebDriverSession<C>| #[trigger]
            call_ensures(GenericWebDriver::<C>::session, (d,), r) ==> r.connection()
                == d.connection() && r.session() == d.sid(),
{
}

/// The client is made for the address and the time, and the session has the capabilities. Where
/// there are none, the message says why.
pub open spec fn built<C: CreateHttpClient>(
    url: Seq<char>,
    timeout: Option<Duration>,
    capabilities: Result<RequestedCapabilities, String>,
    r: WebDriverResult<GenericWebDriver<C>>,
) -> bool {
    match capabilities {
        Err(message) => r matches Err(e) && e@ matches WebDriverErrorInner::SessionCreateError(m)
            && m@ == message@,
        Ok(caps) => exists|params: HttpClientCreateParams, made: WebDriverResult<C>|
            params.server_url@ == url && params.timeout == timeout && #[trigger] call_ensures(
                <C as CreateHttpClient>::create,
                (params,),
                made,
            ) && match made {
                Err(e) => r matches Err(f) && f == e,
                Ok(client) => driven(client, caps.w3c@, caps.plain@, r),
            },
    }
}

proof fn lemma_built<C: CreateHttpClient>(
    url: Seq<char>,
    timeout: Option<Duration>,
    capabilities: Result<RequestedCapabilities, String>,
    r: WebDriverResult<GenericWebDriver<C>>,
)
    requires
        webdriver::builds(url, timeout, capabilities, r),
    ensures
        built(url, timeout, capabilities, r),
{
    if let Ok(caps) = capabilities {
        let (params, made) = choose|params: HttpClientCreateParams, made: WebDriverResult<C>|
            params.server_url@ == url && params.timeout == timeout && #[trigger] call_ensures(
                <C as CreateHttpClient>::create,
                (params,),
                made,
            ) && match made {
                Err(e) => r == Err::<GenericWebDriver<C>, WebDriverError>(e),
                Ok(client) => webdriver::drives(client, caps.w3c@, caps.plain@, r),
            };
        if let Ok(client) = made {
            lemma_driven(client, caps.w3c@, caps.plain@, r);
        }
        assert(call_ensures(<C as CreateHttpClient>::create, (params,), made));
    }
}

/// A builder waits 120 seconds for the server where it is told nothing else, and builds for the
/// address and the capabilities that it was made with.
pub proof fn law_builder<C: CreateHttpClient>(
    b: WebDriverBuilder,
    url: &str,
    capabilities: Result<RequestedCapabilities, String>,
    timeout: Option<Duration>,
)
    ensures
        forall|r: WebDriverBuilder| #[trigger]
            call_ensures(WebDriverBuilder::new, (url, capabilities), r) ==> r.server_url() == url@
                && r.requested() == capabilities && (r.client_timeout() matches Some(d) && d@
                == 120 * 1_000_000_000),
        forall|r: WebDriverBuilder| #[trigger]
            call_ensures(WebDriverBuilder::timeout, (b, timeout), r) ==> r.client_timeout()
                == timeout && r.server_url() == b.server_url() && r.requested() == b.requested(),
        forall|r: WebDriverResult<GenericWebDriver<C>>| #[trigger]
            call_ensures(WebDriverBuilder::build_custom_client::<C>, (b,), r) ==> built(
                b.server_url(),
                b.client_timeout(),
                b.requested(),
                r,
            ),
        forall|r: WebDriverResult<GenericWebDriver<C>>| #[trigger]
            call_ensures(
                GenericWebDriver::<C>::new_with_timeout,
                (url, capabilities, timeout),
                r,
            ) ==> built(url@, timeout, capabilities, r),
{
    assert forall|r: WebDriverResult<GenericWebDriver<C>>| #[trigger]
        call_ensures(WebDriverBuilder::build_custom_client::<C>, (b,), r) implies built(
        b.server_url(),
        b.client_timeout(),
        b.requested(),
        r,
    ) by {
        lemma_built(b.server_url(), b.client_timeout(), b.requested(), r);
    }
    assert forall|r: WebDriverResult<GenericWebDriver<C>>| #[trigger]
        call_ensures(
            GenericWebDriver::<C>::new_with_timeout,
            (url, capabilities, timeout),
            r,
        ) implies built(url@, timeout, capabilities, r) by {
        lemma_built(url@, timeout, capabilities, r);
    }
}

/// A session that a manager launches talks to the driver at its host and the port, over `http`, and
/// holds the guard of the driver and the manager's configuration. It is not over yet.
pub proof fn law_launch<C: RemoteConnectionSync, H, G>(
    m: &WebDriverManager,
    port: u16,
    conn: &C,
    client: H,
    capabilities: RequestedCapabilities,
    guard: G,
    r: WebDriverResult<SessionHandle<H, G>>,
)
    requires
        call_ensures(
            WebDriverManager::launch::<C, H, G>,
            (m, port, conn, client, capabilities, guard),
            r,
        ),
    ensures
        match address::parsed_url(
            "http://"@ + m.cfg.host@ + ":"@ + text::decimal(port as nat),
        ) {
            Err(f) => r matches Err(e) && e@ matches WebDriverErrorInner::ParseError(t) && t@
                == "invalid driver url: "@ + f.message,
            Ok(url) => exists|started: WebDriverResult<(SessionId, JsonValue)>| #[trigger]
                session_started(*conn, capabilities.w3c@, capabilities.plain@, started)
                    && match started {
                    Err(e) => r matches Err(f) && f == e,
                    Ok(s) => r matches Ok(h) && h@.session_id == s.0@ && h@.capabilities == s.1@
                        && h@.server_url == url && h@.client == client && h@.driver_guard
                        == Some(guard) && h@.config == m.web_driver_config && !h@.quit,
                },
        },
{
    if let Ok(url) = address::parsed_url(crate::manager::url_of(m.cfg.host, port)) {
        let started = choose|started: WebDriverResult<(SessionId, JsonValue)>| #[trigger]
            webdrivercommands::starts(*conn, capabilities.w3c@, capabilities.plain@, started)
                && match started {
                Err(e) => r == Err::<SessionHandle<H, G>, WebDriverError>(e),
                Ok((id, caps)) => r matches Ok(h) && h@ == (crate::session::HandleView {
                    client,
                    server_url: url,
                    session_id: id@,
                    capabilities: caps@,
                    config: m.web_driver_config,
                    quit: false,
                    driver_guard: Some(guard),
                }),
            };
        lemma_started(*conn, capabilities.w3c@, capabilities.plain@, started);
    }
}

/// A driver and a session are answered by their connection, to the command and in their session. A
/// line to a server is that too.
pub proof fn law_drivers_are_answered<C: RemoteConnectionSync>(
    d: GenericWebDriver<C>,
    s: WebDriverSession<C>,
    line: ConnectionLine<C>,
    after: ConnectionLine<C>,
    id: Seq<char>,
    command: CommandView,
    reply: WebDriverResult<JsonValue>,
)
    ensures
        d.may_answer(command, reply) ==> executed(d.connection(), d.sid(), command, reply),
        s.may_answer(command, reply) ==> executed(s.connection(), s.session(), command, reply),
        <ConnectionLine<C> as ServerLine>::exchanged(line, after, id, command, reply)
            ==> after == line
            && executed(*line.conn, id, command, reply),
        forall|r: &SessionId| #[trigger]
            call_ensures(WebDriverSession::<C>::session_id, (&s,), r) ==> r@ == s.session(),
        forall|i: &SessionId, conn: &C, r: WebDriverSession<C>| #[trigger]
            call_ensures(WebDriverSession::<C>::new, (i, conn), r) ==> r.session() == i@
                && r.connection() == *conn,
{
}

/// The connection executed the command in the session with the id, and the reply came back.
pub open spec fn executed<C: RemoteConnectionSync>(
    conn: C,
    id: Seq<char>,
    command: CommandView,
    reply: WebDriverResult<JsonValue>,
) -> bool {
    exists|s: SessionId, c: Command|
        #![trigger s@, c@]
        s@ == id && c@ == command && call_ensures(C::execute, (&conn, &s, c), reply)
}

} // verus!
