//! How a driver is started, and how it is found again.
use vstd::prelude::*;

use crate::address::ServerUrl;
use crate::address;
use crate::config::{SessionPoller, WebDriverConfig};
use crate::duration::Duration;
use crate::error::{WebDriverErrorInner, WebDriverResult};
use crate::json::{Json, JsonValue};
use crate::laws;
use crate::manager::{
    after_answer, after_spawn, after_waiting, bind_error, driver_args, driver_url, is_port_in_use,
    is_ready, local_addr_error, manual_version, process_status, search_status, session_status,
    spawn_error, status_url, version_from_caps, BrowserKind, DriverKey, DriverPaths, DriverTable,
        VersionTable,
    DriverVersion, Host, ManagerError, Mirror, ProcessPoint, ReadyStep, ResolvedConfig,
        SearchAction,
    SearchEvent, SearchState, SessionPoint, SpawnConfig, SpawnStep, Status, StdioMode,
    WebDriverManager, WebDriverManagerBuilder,
};
use crate::manager;
use crate::text;

verus! {

/// `text` stands among the arguments.
pub open spec fn among(args: Seq<String>, text: Seq<char>) -> bool {
    exists|i: int| 0 <= i < args.len() && (#[trigger] args[i])@ == text
}

/// The drivers that listen to their own machine alone unless they are told otherwise.
pub open spec fn chromium(browser: BrowserKind) -> bool {
    browser is Chrome || browser is Edge
}

proof fn lemma_arguments_differ(port: u16, host: Seq<char>)
    ensures
        "--websocket-port=0"@ != "--port="@ + text::decimal(port as nat),
        "--websocket-port=0"@ != "--allowed-ips="@ + host,
        "--allowed-ips="@ + host != "--port="@ + text::decimal(port as nat),
{
    reveal_strlit("--websocket-port=0");
    reveal_strlit("--port=");
    reveal_strlit("--allowed-ips=");
    assert("--websocket-port=0"@[2] == 'w');
    assert(("--port="@ + text::decimal(port as nat))[2] == 'p');
    assert(("--allowed-ips="@ + host)[2] == 'a');
}

/// Whatever the host and the port, a driver for Firefox is given a free port for its WebSocket, and
/// no other driver is; every driver is given its port, and it comes first.
pub proof fn law_driver_arguments(browser: BrowserKind, host: &Host, port: u16, r: Vec<String>)
    requires
        call_ensures(driver_args, (browser, host, port), r),
    ensures
        browser is Firefox <==> among(r@, "--websocket-port=0"@),
        r@.len() > 0 && r@[0]@ == "--port="@ + text::decimal(port as nat),
{
    lemma_arguments_differ(port, host@);
    let args = text::texts(r@);
    assert forall|i: int| 0 <= i < r@.len() implies (#[trigger] r@[i])@ == args[i] by {}
    assert(args[0] == r@[0]@);
    if browser is Firefox {
        assert(args[1] == "--websocket-port=0"@);
        assert(r@[1]@ == "--websocket-port=0"@);
    }
}

/// The host only decides whether Chrome and Edge are told which addresses may ask: they are exactly
/// where the host is not the loopback address. Nothing else is among the arguments.
pub proof fn law_allowed_addresses(browser: BrowserKind, host: &Host, port: u16, r: Vec<String>)
    requires
        call_ensures(driver_args, (browser, host, port), r),
    ensures
        among(r@, "--allowed-ips="@ + host@)
            <==> chromium(browser) && *host != Host::V4(127, 0, 0, 1),
        r@.len() == 1 + (if chromium(browser) && *host != Host::V4(127, 0, 0, 1) {
            1int
        } else {
            0int
        }) + (if browser is Firefox {
            1int
        } else {
            0int
        }),
{
    lemma_arguments_differ(port, host@);
    let args = text::texts(r@);
    assert forall|i: int| 0 <= i < r@.len() implies (#[trigger] r@[i])@ == args[i] by {}
    if chromium(browser) && *host != Host::V4(127, 0, 0, 1) {
        assert(r@[1]@ == "--allowed-ips="@ + host@);
    }
}

/// Two hosts that are not the loopback address change nothing but that one argument, and a driver
/// that is not told about addresses has the same arguments for every host.
pub proof fn law_host_in_arguments(
    browser: BrowserKind,
    one: &Host,
    other: &Host,
    port: u16,
    r: Vec<String>,
    s: Vec<String>,
)
    requires
        call_ensures(driver_args, (browser, one, port), r),
        call_ensures(driver_args, (browser, other, port), s),
    ensures
        !chromium(browser) ==> text::texts(r@) == text::texts(s@),
        one.loopback() == other.loopback() ==> r@.len() == s@.len() && r@[0]@ == s@[0]@,
{
    let (a, b) = (text::texts(r@), text::texts(s@));
    assert(a.len() == r@.len() && b.len() == s@.len());
    assert(a.len() > 0 && b.len() > 0);
    assert(a[0] == r@[0]@ && b[0] == s@[0]@);
}

/// The address of a host is its four numbers with dots between them, or the text that it was given.
pub proof fn law_host_text(host: &Host, r: String)
    requires
        call_ensures(Host::to_text, (host,), r),
    ensures
        host matches Host::V4(a, b, c, d) ==> r@ == text::decimal(*a as nat) + seq!['.']
            + text::decimal(*b as nat) + seq!['.'] + text::decimal(*c as nat) + seq!['.']
            + text::decimal(*d as nat),
        host matches Host::V6(t) ==> r@ == t@,
{
    reveal_strlit(".");
    assert("."@ =~= seq!['.']);
    if let Host::V4(a, b, c, d) = host {
        assert(r@ =~= text::decimal(*a as nat) + seq!['.'] + text::decimal(*b as nat) + seq!['.']
            + text::decimal(*c as nat) + seq!['.'] + text::decimal(*d as nat));
    }
}

/// The loopback address is 127.0.0.1, and two hosts are the same where their numbers or texts are.
pub proof fn law_hosts(host: &Host, other: &Host, local: Host, is: bool, same: bool)
    requires
        call_ensures(Host::localhost, (), local),
        call_ensures(Host::is_localhost, (host,), is),
        call_ensures(Host::same_as, (host, other), same),
    ensures
        local == Host::V4(127, 0, 0, 1),
        is <==> *host == Host::V4(127, 0, 0, 1),
        same <==> match (*host, *other) {
            (Host::V4(a, b, c, d), Host::V4(e, f, g, h)) => a == e && b == f && c == g && d == h,
            (Host::V6(a), Host::V6(b)) => a@ == b@,
            _ => false,
        },
{
}

/// A driver is reached over HTTP at its host and port, and asked for its status below that.
pub proof fn law_driver_addresses(host: &Host, port: u16, shown: String, url: String,
    status: String)
    requires
        call_ensures(Host::to_text, (host,), shown),
        call_ensures(driver_url, (host, port), url),
        call_ensures(status_url, (host, port), status),
    ensures
        url@ == "http://"@ + shown@ + ":"@ + text::decimal(port as nat),
        status@ == url@ + "/status"@,
{
}

/// A driver is ready where it answers with success and says so under `value` and `ready`.
pub proof fn law_readiness(status: u16, body: Option<&JsonValue>, r: bool)
    requires
        call_ensures(is_ready, (status, body), r),
    ensures
        r <==> 200 <= status < 300 && (body matches Some(b) && match laws::value_in(*b) {
            Some(v) => laws::entry(v, "ready"@) == Some(Json::Bool(true)),
            None => false,
        }),
{
}

/// A driver is asked for its status until the time is up. Between two answers that do not say it is
/// ready a tenth of a second passes.
pub proof fn law_waiting(
    elapsed: &Duration,
    timeout: &Duration,
    status: u16,
    body: Option<JsonValue>,
    lent: Option<&JsonValue>,
    ready: bool,
    waited: ReadyStep,
    answered: ReadyStep,
    silent: ReadyStep,
)
    requires
        call_ensures(after_waiting, (elapsed, timeout), waited),
        call_ensures(after_answer, (Some((status, body)),), answered),
        call_ensures(after_answer, (None::<(u16, Option<JsonValue>)>,), silent),
        call_ensures(is_ready, (status, lent), ready),
        match (body, lent) {
            (Some(b), Some(l)) => b == *l,
            (None, None) => true,
            _ => false,
        },
    ensures
        elapsed@ < timeout@ <==> waited is Ask,
        elapsed@ >= timeout@ <==> waited == ReadyStep::Fail(ManagerError::DriverNotReady(*timeout)),
        ready <==> answered is Ready,
        !ready ==> (answered matches ReadyStep::Sleep(d) && d@ == 100_000_000),
        silent matches ReadyStep::Sleep(d) && d@ == 100_000_000,
{
}

/// `small` is `c` with a capital letter of the Latin alphabet made small.
pub open spec fn made_small(c: char, small: char) -> bool {
    if 'A' <= c <= 'Z' {
        small as int == c as int + 32
    } else {
        small == c
    }
}

/// `words` stands in `message`, with the capital letters of `message` made small.
pub open spec fn mentions(message: Seq<char>, words: Seq<char>) -> bool {
    exists|i: int|
        0 <= i <= message.len() - words.len() && #[trigger] stands_at(message, words, i)
}

/// `words` stands in `message` from `i` on, with the capital letters of `message` made small.
pub open spec fn stands_at(message: Seq<char>, words: Seq<char>, i: int) -> bool {
    forall|k: int|
        0 <= k < words.len() ==> made_small(#[trigger] message[i + k], words[k])
}

proof fn lemma_mentions(message: Seq<char>, words: Seq<char>)
    ensures
        text::within(words, text::lowered(message)) <==> mentions(message, words),
{
    let low = text::lowered(message);
    assert forall|k: int| 0 <= k < message.len() implies made_small(
        #[trigger] message[k],
        low[k],
    ) by {}
    if text::within(words, low) {
        let i = choose|i: int|
            0 <= i <= low.len() - words.len() && #[trigger] low.subrange(i, i + words.len())
                == words;
        assert forall|k: int| 0 <= k < words.len() implies made_small(
            #[trigger] message[i + k],
            words[k],
        ) by {
            assert(low.subrange(i, i + words.len())[k] == low[i + k]);
        }
        assert(stands_at(message, words, i));
    }
    if mentions(message, words) {
        let i = choose|i: int|
            0 <= i <= message.len() - words.len() && #[trigger] stands_at(message, words, i);
        assert forall|k: int| 0 <= k < words.len() implies low.subrange(i, i + words.len())[k]
            == words[k] by {
            let c: char = message[i + k];
            let w: char = words[k];
            assert(made_small(c, words[k]));
            assert(low[i + k] == text::lower(c));
            assert(made_small(c, low[i + k]));
            assert(w as int == low[i + k] as int);
        }
        assert(low.subrange(i, i + words.len()) =~= words);
    }
}

/// A port is taken where starting the driver failed and the message says so in one of the three
/// ways that systems say it, in small letters or capitals.
pub proof fn law_taken_port(err: &ManagerError, r: bool)
    requires
        call_ensures(is_port_in_use, (err,), r),
    ensures
        r <==> (err matches ManagerError::Spawn(s) && (mentions(s@, "address already in use"@)
            || mentions(s@, "only one usage of each socket address"@) || mentions(
            s@,
            "addrinuse"@,
        ))),
{
    if let ManagerError::Spawn(s) = err {
        lemma_mentions(s@, "address already in use"@);
        lemma_mentions(s@, "only one usage of each socket address"@);
        lemma_mentions(s@, "addrinuse"@);
    }
}

/// A driver is started at most three times, and once more only where the port was taken.
pub proof fn law_attempts<P>(tried: u8, outcome: Result<P, ManagerError>, taken: bool,
    r: SpawnStep<P>)
    requires
        tried < 3,
        call_ensures(after_spawn::<P>, (tried, outcome), r),
        outcome matches Err(e) ==> call_ensures(is_port_in_use, (&e,), taken),
    ensures
        match outcome {
            Ok(p) => r == SpawnStep::Done(p),
            Err(e) => if taken && tried < 2 {
                r == SpawnStep::<P>::Again((tried + 1) as u8)
            } else {
                r == SpawnStep::<P>::Fail(e)
            },
        },
{
}

/// What goes wrong on the way to a process says where it went wrong.
pub proof fn law_start_errors(binary: &str, message: &str)
    ensures
        forall|r: ManagerError| #[trigger] call_ensures(spawn_error, (binary, message), r) ==> (
        r matches ManagerError::Spawn(s) && s@ == "spawn "@ + binary@ + ": "@ + message@),
        forall|r: ManagerError| #[trigger] call_ensures(bind_error, (message,), r) ==> (
        r matches ManagerError::Spawn(s) && s@ == "bind ephemeral port: "@ + message@),
        forall|r: ManagerError| #[trigger] call_ensures(local_addr_error, (message,), r) ==> (
        r matches ManagerError::Spawn(s) && s@ == "local_addr: "@ + message@),
{
}

/// A driver of the user's own is told from every driver that was fetched by its version, and the
/// capabilities ask for a version where they hold it as a text.
pub proof fn law_versions(path: &str, caps: &JsonValue, manual: String, asked: Option<String>)
    requires
        call_ensures(manual_version, (path,), manual),
        call_ensures(version_from_caps, (caps,), asked),
    ensures
        manual@ == "manual:"@ + path@,
        match asked {
            Some(v) => laws::entry(caps@, "browserVersion"@) == Some(Json::Str(v@)),
            None => !(laws::entry(caps@, "browserVersion"@) matches Some(Json::Str(_))),
        },
{
}

/// What is started with where nothing was said: the local browser's version, its own machine, half
/// a minute to be ready, and its output among the traces.
pub proof fn law_defaults()
    ensures
        forall|r: DriverVersion| #[trigger]
            call_ensures(<DriverVersion as Default>::default, (), r) ==> r is MatchLocalBrowser,
        forall|r: StdioMode| #[trigger]
            call_ensures(<StdioMode as Default>::default, (), r) ==> r is Tracing,
        forall|r: SpawnConfig| #[trigger]
            call_ensures(<SpawnConfig as Default>::default, (), r)
                ==> r.host == Host::V4(127, 0, 0, 1)
                && r.ready_timeout@ == 30_000_000_000 && r.stdio is Tracing
                && !r.show_console_window,
{
}

/// A manager is made of what was set, and where nothing was set of the defaults: no binary of the
/// user's own, a minute to download, half a minute to be ready, online, and no console window.
pub proof fn law_new_manager(
    config: WebDriverConfig,
    builder: WebDriverManagerBuilder,
    cache: String,
    mirror: Mirror,
    m: WebDriverManager,
)
    requires
        call_ensures(WebDriverManagerBuilder::new, (config,), builder) || call_ensures(
            WebDriverManager::builder,
            (config,),
            builder,
        ),
        call_ensures(WebDriverManagerBuilder::build, (builder, cache, mirror), m),
    ensures
        m.cfg.version is MatchLocalBrowser,
        m.cfg.cache_dir == cache,
        m.cfg.host == Host::V4(127, 0, 0, 1),
        m.cfg.download_timeout@ == 60_000_000_000,
        m.cfg.ready_timeout@ == 30_000_000_000,
        !m.cfg.offline,
        m.cfg.mirror == mirror,
        m.cfg.stdio is Tracing,
        !m.cfg.show_console_window,
        m.web_driver_config == config,
        m.cfg.driver_paths.chrome is None,
        m.cfg.driver_paths.firefox is None,
        m.cfg.driver_paths.edge is None,
        m.cfg.driver_paths.safari is None,
        builder.preloaded_caps is None,
{
    assert(builder.driver_paths.path(BrowserKind::Chrome) is None);
    assert(builder.driver_paths.path(BrowserKind::Firefox) is None);
    assert(builder.driver_paths.path(BrowserKind::Edge) is None);
    assert(builder.driver_paths.path(BrowserKind::Safari) is None);
}

/// A manager has what was set of each of its options, whatever the others are.
pub proof fn law_built_manager(
    b: WebDriverManagerBuilder,
    cache: String,
    mirror: Mirror,
    m: WebDriverManager,
)
    requires
        call_ensures(WebDriverManagerBuilder::build, (b, cache, mirror), m),
    ensures
        m.cfg.version == b.version,
        b.cache_dir matches Some(dir) ==> m.cfg.cache_dir == dir,
        b.host matches Some(h) ==> m.cfg.host == h,
        b.download_timeout matches Some(d) ==> m.cfg.download_timeout == d,
        b.ready_timeout matches Some(d) ==> m.cfg.ready_timeout == d,
        b.offline matches Some(yes) ==> m.cfg.offline == yes,
        b.mirror.chrome_metadata matches Some(t) ==> m.cfg.mirror.chrome_metadata == t,
        b.mirror.chrome_metadata is None ==> m.cfg.mirror.chrome_metadata == mirror.chrome_metadata,
        b.mirror.geckodriver_downloads matches Some(t) ==> m.cfg.mirror.geckodriver_downloads == t,
        b.mirror.geckodriver_downloads is None ==> m.cfg.mirror.geckodriver_downloads
            == mirror.geckodriver_downloads,
        b.mirror.edge_downloads matches Some(t) ==> m.cfg.mirror.edge_downloads == t,
        b.mirror.edge_downloads is None ==> m.cfg.mirror.edge_downloads == mirror.edge_downloads,
        b.stdio matches Some(mode) ==> m.cfg.stdio == mode,
        b.show_console_window matches Some(yes) ==> m.cfg.show_console_window == yes,
        m.cfg.driver_paths == b.driver_paths,
        m.web_driver_config == b.web_driver_config,
{
}

/// Everything but the options named, in the order in which a builder holds them, is as it was.
pub open spec fn keeps(
    b: WebDriverManagerBuilder,
    r: WebDriverManagerBuilder,
    version: bool,
    cache_dir: bool,
    host: bool,
    timeouts: bool,
    offline: bool,
    mirror: bool,
    output: bool,
    paths: bool,
    session: bool,
) -> bool {
    &&& version || r.version == b.version
    &&& cache_dir || r.cache_dir == b.cache_dir
    &&& host || r.host == b.host
    &&& timeouts || (r.download_timeout == b.download_timeout && r.ready_timeout == b.ready_timeout)
    &&& offline || r.offline == b.offline
    &&& mirror || r.mirror == b.mirror
    &&& output || (r.stdio == b.stdio && r.show_console_window == b.show_console_window)
    &&& paths || r.driver_paths == b.driver_paths
    &&& session || (r.web_driver_config == b.web_driver_config && r.preloaded_caps
        == b.preloaded_caps)
}

/// Each option is set by the call that is named after it, and by no other.
pub proof fn law_options(b: WebDriverManagerBuilder)
    ensures
        forall|r: WebDriverManagerBuilder, c: WebDriverConfig| #[trigger]
            call_ensures(WebDriverManagerBuilder::config, (b, c), r)
                ==> r.web_driver_config == c && r.preloaded_caps == b.preloaded_caps && keeps(
                b,
                r,
                false,
                false,
                false,
                false,
                false,
                false,
                false,
                false,
                true,
            ),
        forall|r: WebDriverManagerBuilder, p: SessionPoller| #[trigger]
            call_ensures(WebDriverManagerBuilder::poller, (b, p), r)
                ==> r.web_driver_config == (WebDriverConfig { poller: p, ..b.web_driver_config })
                && r.preloaded_caps == b.preloaded_caps && keeps(
                b,
                r,
                false,
                false,
                false,
                false,
                false,
                false,
                false,
                false,
                true,
            ),
        forall|r: WebDriverManagerBuilder, v: DriverVersion| #[trigger]
            call_ensures(WebDriverManagerBuilder::version, (b, v), r) ==> r.version == v && keeps(
                b,
                r,
                true,
                false,
                false,
                false,
                false,
                false,
                false,
                false,
                false,
            ),
        forall|r: WebDriverManagerBuilder| #[trigger]
            call_ensures(WebDriverManagerBuilder::latest, (b,), r) ==> r.version is Latest && keeps(
                b,
                r,
                true,
                false,
                false,
                false,
                false,
                false,
                false,
                false,
                false,
            ),
        forall|r: WebDriverManagerBuilder| #[trigger]
            call_ensures(WebDriverManagerBuilder::match_local, (b,), r)
                ==> r.version is MatchLocalBrowser && keeps(
                b,
                r,
                true,
                false,
                false,
                false,
                false,
                false,
                false,
                false,
                false,
            ),
        forall|r: WebDriverManagerBuilder| #[trigger]
            call_ensures(WebDriverManagerBuilder::from_caps, (b,), r)
                ==> r.version is FromCapabilities && keeps(
                b,
                r,
                true,
                false,
                false,
                false,
                false,
                false,
                false,
                false,
                false,
            ),
        forall|r: WebDriverManagerBuilder, v: String| #[trigger]
            call_ensures(WebDriverManagerBuilder::exact, (b, v), r)
                ==> r.version == DriverVersion::Exact(v) && keeps(
                b,
                r,
                true,
                false,
                false,
                false,
                false,
                false,
                false,
                false,
                false,
            ),
        forall|r: WebDriverManagerBuilder, p: String| #[trigger]
            call_ensures(WebDriverManagerBuilder::cache_dir, (b, p), r)
                ==> r.cache_dir == Some(p) && keeps(
                b,
                r,
                false,
                true,
                false,
                false,
                false,
                false,
                false,
                false,
                false,
            ),
        forall|r: WebDriverManagerBuilder, h: Host| #[trigger]
            call_ensures(WebDriverManagerBuilder::host, (b, h), r) ==> r.host == Some(h) && keeps(
                b,
                r,
                false,
                false,
                true,
                false,
                false,
                false,
                false,
                false,
                false,
            ),
        forall|r: WebDriverManagerBuilder, d: Duration| #[trigger]
            call_ensures(WebDriverManagerBuilder::download_timeout, (b, d), r)
                ==> r.download_timeout == Some(d) && r.ready_timeout == b.ready_timeout && keeps(
                b,
                r,
                false,
                false,
                false,
                true,
                false,
                false,
                false,
                false,
                false,
            ),
        forall|r: WebDriverManagerBuilder, d: Duration| #[trigger]
            call_ensures(WebDriverManagerBuilder::ready_timeout, (b, d), r)
                ==> r.ready_timeout == Some(d) && r.download_timeout == b.download_timeout && keeps(
                b,
                r,
                false,
                false,
                false,
                true,
                false,
                false,
                false,
                false,
                false,
            ),
        forall|r: WebDriverManagerBuilder| #[trigger]
            call_ensures(WebDriverManagerBuilder::offline, (b,), r)
                ==> r.offline == Some(true) && keeps(
                b,
                r,
                false,
                false,
                false,
                false,
                true,
                false,
                false,
                false,
                false,
            ),
        forall|r: WebDriverManagerBuilder| #[trigger]
            call_ensures(WebDriverManagerBuilder::online, (b,), r)
                ==> r.offline == Some(false) && keeps(
                b,
                r,
                false,
                false,
                false,
                false,
                true,
                false,
                false,
                false,
                false,
            ),
        forall|r: WebDriverManagerBuilder, yes: bool| #[trigger]
            call_ensures(WebDriverManagerBuilder::offline_mode, (b, yes), r)
                ==> r.offline == Some(yes) && keeps(
                b,
                r,
                false,
                false,
                false,
                false,
                true,
                false,
                false,
                false,
                false,
            ),
        forall|r: WebDriverManagerBuilder, t: String| #[trigger]
            call_ensures(WebDriverManagerBuilder::chrome_metadata_mirror, (b, t), r)
                ==> r.mirror.chrome_metadata == Some(t)
                && r.mirror.geckodriver_downloads == b.mirror.geckodriver_downloads
                && r.mirror.edge_downloads == b.mirror.edge_downloads && keeps(
                b,
                r,
                false,
                false,
                false,
                false,
                false,
                true,
                false,
                false,
                false,
            ),
        forall|r: WebDriverManagerBuilder, t: String| #[trigger]
            call_ensures(WebDriverManagerBuilder::geckodriver_downloads_mirror, (b, t), r)
                ==> r.mirror.geckodriver_downloads == Some(t)
                && r.mirror.chrome_metadata == b.mirror.chrome_metadata
                && r.mirror.edge_downloads == b.mirror.edge_downloads && keeps(
                b,
                r,
                false,
                false,
                false,
                false,
                false,
                true,
                false,
                false,
                false,
            ),
        forall|r: WebDriverManagerBuilder, t: String| #[trigger]
            call_ensures(WebDriverManagerBuilder::edge_downloads_mirror, (b, t), r)
                ==> r.mirror.edge_downloads == Some(t)
                && r.mirror.chrome_metadata == b.mirror.chrome_metadata
                && r.mirror.geckodriver_downloads == b.mirror.geckodriver_downloads && keeps(
                b,
                r,
                false,
                false,
                false,
                false,
                false,
                true,
                false,
                false,
                false,
            ),
        forall|r: WebDriverManagerBuilder, mode: StdioMode| #[trigger]
            call_ensures(WebDriverManagerBuilder::stdio, (b, mode), r)
                ==> r.stdio == Some(mode) && r.show_console_window == b.show_console_window
                && keeps(
                b,
                r,
                false,
                false,
                false,
                false,
                false,
                false,
                true,
                false,
                false,
            ),
        forall|r: WebDriverManagerBuilder, yes: bool| #[trigger]
            call_ensures(WebDriverManagerBuilder::show_console_window, (b, yes), r)
                ==> r.show_console_window == Some(yes) && r.stdio == b.stdio && keeps(
                b,
                r,
                false,
                false,
                false,
                false,
                false,
                false,
                true,
                false,
                false,
            ),
        forall|r: WebDriverManagerBuilder, caps: JsonValue| #[trigger]
            call_ensures(WebDriverManagerBuilder::preloaded, (b, caps), r)
                ==> r.preloaded_caps == Some(caps) && r.web_driver_config == b.web_driver_config
                && keeps(
                b,
                r,
                false,
                false,
                false,
                false,
                false,
                false,
                false,
                false,
                true,
            ),
{
}

/// The binary of a browser is set for that browser alone, and read back from there.
pub proof fn law_own_binaries(
    b: WebDriverManagerBuilder,
    browser: BrowserKind,
    path: String,
    r: WebDriverManagerBuilder,
    other: BrowserKind,
    got: Option<String>,
    before: Option<String>,
)
    requires
        call_ensures(WebDriverManagerBuilder::driver_binary, (b, browser, path), r),
        call_ensures(DriverPaths::get, (&r.driver_paths, other), got),
        call_ensures(DriverPaths::get, (&b.driver_paths, other), before),
    ensures
        other == browser ==> (got matches Some(g) && g@ == path@),
        other != browser ==> text::opt_text(got) == text::opt_text(before),
        browser is Chrome ==> r.driver_paths.chrome == Some(path),
        browser is Firefox ==> r.driver_paths.firefox == Some(path),
        browser is Edge ==> r.driver_paths.edge == Some(path),
        browser is Safari ==> r.driver_paths.safari == Some(path),
        keeps(b, r, false, false, false, false, false, false, false, true, false),
{
}

/// The binary of a browser stands in the field of that browser.
pub proof fn law_binary_fields(paths: &DriverPaths, browser: BrowserKind, r: Option<String>)
    requires
        call_ensures(DriverPaths::get, (paths, browser), r),
    ensures
        browser is Chrome ==> text::opt_text(r) == text::opt_text(paths.chrome),
        browser is Firefox ==> text::opt_text(r) == text::opt_text(paths.firefox),
        browser is Edge ==> text::opt_text(r) == text::opt_text(paths.edge),
        browser is Safari ==> text::opt_text(r) == text::opt_text(paths.safari),
{
}

/// A session is started with the capabilities that were set before, and not without any; a process
/// with the manager's own host, time, output and window.
pub proof fn law_started_with(
    b: &WebDriverManagerBuilder,
    caps: Result<JsonValue, ManagerError>,
    cfg: &ResolvedConfig,
    spawn: SpawnConfig,
)
    requires
        call_ensures(WebDriverManagerBuilder::launch_capabilities, (b,), caps),
        call_ensures(ResolvedConfig::spawn_config, (cfg,), spawn),
    ensures
        match b.preloaded_caps {
            Some(c) => caps matches Ok(v) && v@ == c@,
            None => caps matches Err(e) && e is NoCapabilities,
        },
        spawn.host == cfg.host,
        spawn.ready_timeout == cfg.ready_timeout,
        spawn.stdio == cfg.stdio,
        spawn.show_console_window == cfg.show_console_window,
{
}

/// What is told of a process and of a session names the browser, and what happened to it.
pub proof fn law_told(
    browser: BrowserKind,
    version: String,
    host: &Host,
    port: u16,
    point: ProcessPoint,
    session: SessionPoint,
    url: String,
    told: Status,
    said: Status,
)
    requires
        call_ensures(driver_url, (host, port), url),
        call_ensures(process_status, (browser, version, host, port, point), told),
        call_ensures(session_status, (browser, session), said),
    ensures
        match point {
            ProcessPoint::Spawned(p, b) => told == (Status::DriverProcessSpawned {
                browser,
                version,
                pid: p,
                port,
                binary: b,
            }),
            ProcessPoint::Ready(d) => told matches Status::DriverReady {
                browser: k,
                version: v,
                url: u,
                elapsed,
            } && k == browser && v == version && u@ == url@ && elapsed == d,
            ProcessPoint::Stopped => told == (Status::DriverShutdown { browser, version, port }),
        },
        match session {
            SessionPoint::Starting(u) => said == (Status::SessionStarting { browser, url: u }),
            SessionPoint::Started(i, u) => said == (Status::SessionStarted {
                browser,
                session_id: i,
                url: u,
            }),
            SessionPoint::Ended(i) => said == (Status::SessionEnded { browser, session_id: i }),
        },
{
}

/// Two drivers are the same where their browser, their version and their host are.
pub proof fn law_same_driver(a: &DriverKey, b: &DriverKey, hosts: bool, r: bool)
    requires
        call_ensures(Host::same_as, (&a.host, &b.host), hosts),
        call_ensures(DriverKey::same_as, (a, b), r),
    ensures
        r <==> a.browser == b.browser && a.version@ == b.version@ && hosts,
{
}

/// The configuration and the session's options stay as they are while a driver is looked for. The
/// first error ends the search, and with nothing changed.
pub proof fn law_search_keeps(
    browser: BrowserKind,
    custom: &Option<String>,
    state: SearchState,
    event: SearchEvent,
)
    requires
        manager::fits(state, event),
    ensures
        forall|m: &mut WebDriverManager, r: (SearchState, SearchAction)| #[trigger]
            call_ensures(WebDriverManager::ensure_driver, (m, browser, custom, state, event), r)
                ==> {
                &&& final(m).cfg == m.cfg
                &&& final(m).web_driver_config == m.web_driver_config
                &&& (event matches SearchEvent::Probed(Err(e)) ==> failed(*m, *final(m), e, r))
                &&& (event matches SearchEvent::Resolved(Err(e)) ==> failed(*m, *final(m), e, r))
                &&& (event matches SearchEvent::Fetched(Err(e)) ==> failed(*m, *final(m), e, r))
                &&& (event matches SearchEvent::Spawned(Err(e)) ==> failed(*m, *final(m), e, r))
            },
{
}

/// The search ended with the error, and nothing changed.
pub open spec fn failed(
    before: WebDriverManager,
    after: WebDriverManager,
    e: ManagerError,
    r: (SearchState, SearchAction),
) -> bool {
    after == before && r.0 is Ended && r.1 == SearchAction::Fail(e)
}

/// The search ended with the driver.
pub open spec fn ended_with(id: u64, r: (SearchState, SearchAction)) -> bool {
    r.0 is Ended && r.1 == SearchAction::Use(id)
}

/// A driver with the next number is to be started from `binary` as `version`.
pub open spec fn starts(
    before: WebDriverManager,
    version: Seq<char>,
    binary: Seq<char>,
    r: (SearchState, SearchAction),
) -> bool {
    &&& r.0 matches SearchState::Spawning { version: v, id } && v@ == version && id
        == before.drivers.next()
    &&& r.1 matches SearchAction::Spawn(b, id) && b@ == binary && id == before.drivers.next()
}

/// The driver that is known is looked for, and the binary is kept for the case that it is gone.
pub open spec fn looks_again(
    version: Seq<char>,
    binary: Seq<char>,
    known: u64,
    r: (SearchState, SearchAction),
) -> bool {
    &&& r.0 matches SearchState::LookingAgain { version: v, binary: b, id } && v@ == version && b@
        == binary && id == known
    &&& r.1 == SearchAction::Look(known)
}

/// The version is fetched.
pub open spec fn fetches(version: Seq<char>, r: (SearchState, SearchAction)) -> bool {
    &&& r.0 matches SearchState::Fetching { version: v } && v@ == version
    &&& r.1 matches SearchAction::Fetch(v) && v@ == version
}

/// The next number was taken, and no driver is known that was not known before.
pub open spec fn numbered(before: WebDriverManager, after: WebDriverManager) -> bool {
    &&& before.drivers.next() < u64::MAX ==> after.drivers.next() == before.drivers.next() + 1
    &&& forall|browser: BrowserKind, version: Seq<char>| #[trigger]
        after.known(browser, version) == before.known(browser, version)
}

/// A search begins with the binary of the user's own where there is one, and asks nobody for its
/// version. Else it begins with the version of the local browser where that is wanted, which is
/// looked up once and then known, and else with the version that was asked for.
pub proof fn law_search_begins(browser: BrowserKind, custom: &Option<String>)
    ensures
        forall|m: &mut WebDriverManager, r: (SearchState, SearchAction)| #[trigger]
            call_ensures(
                WebDriverManager::ensure_driver,
                (m, browser, custom, SearchState::Start, SearchEvent::Begin),
                r,
            ) ==> match m.cfg.driver_paths.path(browser) {
                Some(binary) => match m.known(browser, "manual:"@ + binary@) {
                    Some(id) => looks_again("manual:"@ + binary@, binary@, id, r) && *final(m)
                        == *m,
                    None => starts(*m, "manual:"@ + binary@, binary@, r) && numbered(*m, *final(m)),
                },
                None => *final(m) == *m && if m.cfg.version is MatchLocalBrowser {
                    match m.local_versions.version(browser, text::opt_text(*custom)) {
                        Some(v) => r.0 is Resolving && (
                        r.1 matches SearchAction::Resolve(Some(l)) && l@ == v),
                        None => r.0 is Probing && r.1 is Probe,
                    }
                } else {
                    r.0 is Resolving && r.1 == SearchAction::Resolve(None)
                },
            },
        forall|m: &mut WebDriverManager, version: String, r: (SearchState, SearchAction)| #[trigger]
            call_ensures(
                WebDriverManager::ensure_driver,
                (m, browser, custom, SearchState::Probing, SearchEvent::Probed(Ok(version))),
                r,
            ) ==> r.0 is Resolving && (r.1 matches SearchAction::Resolve(Some(l)) && l@ == version@)
                && final(m).local_versions.version(browser, text::opt_text(*custom)) == Some(
                version@,
            ),
{
}

/// A driver that is known under the version is looked for, and used where it is alive. Else the
/// version is fetched, and started with the next number.
pub proof fn law_search_goes_on(
    browser: BrowserKind,
    custom: &Option<String>,
    version: String,
    binary: String,
    id: u64,
    alive: bool,
)
    ensures
        forall|m: &mut WebDriverManager, r: (SearchState, SearchAction)| #[trigger]
            call_ensures(
                WebDriverManager::ensure_driver,
                (m, browser, custom, SearchState::Resolving, SearchEvent::Resolved(Ok(version))),
                r,
            ) ==> *final(m) == *m && match m.known(browser, version@) {
                Some(known) => r.1 == SearchAction::Look(known) && (
                r.0 matches SearchState::Looking { version: v, id: i } && v@ == version@ && i
                    == known),
                None => fetches(version@, r),
            },
        forall|m: &mut WebDriverManager, r: (SearchState, SearchAction)| #[trigger]
            call_ensures(
                WebDriverManager::ensure_driver,
                (m, browser, custom, SearchState::Looking { version, id },
                    SearchEvent::Looked(alive)),
                r,
            ) ==> *final(m) == *m && if alive {
                ended_with(id, r)
            } else {
                fetches(version@, r)
            },
        forall|m: &mut WebDriverManager, r: (SearchState, SearchAction)| #[trigger]
            call_ensures(
                WebDriverManager::ensure_driver,
                (m, browser, custom, SearchState::Fetching { version }, SearchEvent::Fetched(
                    Ok(binary),
                )),
                r,
            ) ==> match m.known(browser, version@) {
                Some(known) => looks_again(version@, binary@, known, r) && *final(m) == *m,
                None => starts(*m, version@, binary@, r) && numbered(*m, *final(m)),
            },
        forall|m: &mut WebDriverManager, r: (SearchState, SearchAction)| #[trigger]
            call_ensures(
                WebDriverManager::ensure_driver,
                (m, browser, custom, SearchState::LookingAgain { version, binary, id },
                    SearchEvent::Looked(
                    alive,
                )),
                r,
            ) ==> if alive {
                ended_with(id, r) && *final(m) == *m
            } else {
                starts(*m, version@, binary@, r) && numbered(*m, *final(m))
            },
{
}

/// A driver that was started is kept under its version and used, unless another one that is alive
/// was kept there meanwhile: then that one is used.
pub proof fn law_search_ends(
    browser: BrowserKind,
    custom: &Option<String>,
    version: String,
    id: u64,
    known: u64,
    alive: bool,
)
    ensures
        forall|m: &mut WebDriverManager, r: (SearchState, SearchAction)| #[trigger]
            call_ensures(
                WebDriverManager::ensure_driver,
                (m, browser, custom, SearchState::Spawning { version, id },
                    SearchEvent::Spawned(Ok(()))),
                r,
            ) ==> match m.known(browser, version@) {
                Some(other) => r.1 == SearchAction::Look(other) && *final(m) == *m && (
                r.0 matches SearchState::LookingLast { version: v, id: i, known: k } && v@
                    == version@ && i == id && k == other),
                None => ended_with(id, r) && final(m).known(browser, version@) == Some(id),
            },
        forall|m: &mut WebDriverManager, r: (SearchState, SearchAction)| #[trigger]
            call_ensures(
                WebDriverManager::ensure_driver,
                (m, browser, custom, SearchState::LookingLast { version, id, known },
                    SearchEvent::Looked(
                    alive,
                )),
                r,
            ) ==> if alive {
                ended_with(known, r) && *final(m) == *m
            } else {
                ended_with(id, r) && final(m).known(browser, version@) == Some(id)
            },
{
}

/// A driver is known by its browser, its version and the host of the manager.
pub proof fn law_known_drivers(
    m: WebDriverManager,
    browser: BrowserKind,
    version: String,
    key: DriverKey,
    r: Option<u64>,
)
    requires
        key.browser == browser,
        key.version@ == version@,
        key.host == m.cfg.host,
        call_ensures(DriverTable::find, (&m.drivers, &key), r),
    ensures
        r == m.known(browser, version@),
{
}

/// What was recorded last under a key is found there, and recording one key changes no other. The
/// numbers of drivers go up by one.
pub proof fn law_driver_table(key: DriverKey, other: DriverKey, id: u64)
    ensures
        forall|r: DriverTable, found: Option<u64>|
            #[trigger] call_ensures(DriverTable::new, (), r) && #[trigger] call_ensures(
                DriverTable::find,
                (&r, &key),
                found,
            ) ==> found is None && r.next() == 0,
        forall|t: &mut DriverTable, r: ()| #[trigger]
            call_ensures(DriverTable::record, (t, key, id), r) ==> final(t).driver(key@) == Some(id)
                && final(t).next() == t.next() && (other@ != key@ ==> final(t).driver(other@)
                == t.driver(other@)),
        forall|t: &mut DriverTable, r: u64| #[trigger]
            call_ensures(DriverTable::mint_driver_id, (t,), r) ==> r == t.next() && (r < u64::MAX
                ==> final(t).next() == r + 1) && final(t).driver(key@) == t.driver(key@),
{
}

/// A reused driver is told of where one is used that was alive already, and the browser at the
/// start.
pub proof fn law_search_is_told(
    browser: BrowserKind,
    state: &SearchState,
    event: &SearchEvent,
    url: String,
    r: Option<Status>,
)
    requires
        manager::fits(*state, *event),
        call_ensures(search_status, (browser, state, event, url), r),
    ensures
        event is Begin ==> r == Some(Status::BrowserKindResolved { browser }),
        *event == SearchEvent::Looked(true) ==> (r matches Some(Status::DriverReused {
            browser: b,
            version: v,
            url: u,
        }) && b == browser && u == url && (match *state {
            SearchState::Looking { version, .. } => v == version,
            SearchState::LookingAgain { version, .. } => v == version,
            SearchState::LookingLast { version, .. } => v == version,
            _ => false,
        })),
        !(event is Begin) && *event != SearchEvent::Looked(true) ==> r is None,
{
}

/// The server of a driver is at its host and port, over `http`.
pub proof fn law_driver_server(host: &Host, port: u16, r: WebDriverResult<ServerUrl>)
    requires
        call_ensures(manager::driver_server, (host, port), r),
    ensures
        match address::parsed_url("http://"@ + host@ + ":"@ + text::decimal(port as nat)) {
            Ok(u) => r matches Ok(s) && s@ == u,
            Err(f) => r matches Err(e) && e@ matches WebDriverErrorInner::ParseError(m) && m@
                == "invalid driver url: "@ + f.message,
        },
{
}

/// A binary is kept for its browser and for no other.
pub proof fn law_binaries_by_browser(path: String)
    ensures
        forall|p: &mut DriverPaths, r: ()| #[trigger]
            call_ensures(DriverPaths::set, (p, BrowserKind::Chrome, path), r) ==> final(p).chrome
                == Some(path) && final(p).firefox == p.firefox && final(p).edge == p.edge && final(
                p).safari == p.safari,
        forall|p: &mut DriverPaths, r: ()| #[trigger]
            call_ensures(DriverPaths::set, (p, BrowserKind::Firefox, path), r) ==> final(p).firefox
                == Some(path) && final(p).chrome == p.chrome && final(p).edge == p.edge && final(
                p).safari == p.safari,
        forall|p: &mut DriverPaths, r: ()| #[trigger]
            call_ensures(DriverPaths::set, (p, BrowserKind::Edge, path), r) ==> final(p).edge
                == Some(path) && final(p).chrome == p.chrome && final(p).firefox == p.firefox
                && final(p).safari == p.safari,
        forall|p: &mut DriverPaths, r: ()| #[trigger]
            call_ensures(DriverPaths::set, (p, BrowserKind::Safari, path), r) ==> final(p).safari
                == Some(path) && final(p).chrome == p.chrome && final(p).firefox == p.firefox
                && final(p).edge == p.edge,
        forall|r: DriverPaths| #[trigger]
            call_ensures(DriverPaths::new, (), r) ==> r.chrome is None && r.firefox is None
                && r.edge is None && r.safari is None,
{
    assert forall|r: DriverPaths| #[trigger] call_ensures(DriverPaths::new, (), r) implies r.chrome
        is None && r.firefox is None && r.edge is None && r.safari is None by {
        assert(r.path(BrowserKind::Chrome) is None && r.path(BrowserKind::Firefox) is None
            && r.path(BrowserKind::Edge) is None && r.path(BrowserKind::Safari) is None);
    }
    assert forall|p: &mut DriverPaths, r: ()| #[trigger]
        call_ensures(DriverPaths::set, (p, BrowserKind::Chrome, path), r) implies final(p).chrome
        == Some(path) && final(p).firefox == p.firefox && final(p).edge == p.edge && final(p).safari
        == p.safari by {
        lemma_other_paths(*p, *final(p), BrowserKind::Chrome);
    }
    assert forall|p: &mut DriverPaths, r: ()| #[trigger]
        call_ensures(DriverPaths::set, (p, BrowserKind::Firefox, path), r) implies final(p).firefox
        == Some(path) && final(p).chrome == p.chrome && final(p).edge == p.edge && final(p).safari
        == p.safari by {
        lemma_other_paths(*p, *final(p), BrowserKind::Firefox);
    }
    assert forall|p: &mut DriverPaths, r: ()| #[trigger]
        call_ensures(DriverPaths::set, (p, BrowserKind::Edge, path), r) implies final(p).edge
        == Some(path) && final(p).chrome == p.chrome && final(p).firefox == p.firefox && final(
        p).safari == p.safari by {
        lemma_other_paths(*p, *final(p), BrowserKind::Edge);
    }
    assert forall|p: &mut DriverPaths, r: ()| #[trigger]
        call_ensures(DriverPaths::set, (p, BrowserKind::Safari, path), r) implies final(p).safari
        == Some(path) && final(p).chrome == p.chrome && final(p).firefox == p.firefox && final(
        p).edge == p.edge by {
        lemma_other_paths(*p, *final(p), BrowserKind::Safari);
    }
}

proof fn lemma_other_paths(before: DriverPaths, after: DriverPaths, browser: BrowserKind)
    requires
        forall|k: BrowserKind| k != browser ==> (#[trigger] after.path(k)) == before.path(k),
    ensures
        browser != BrowserKind::Chrome ==> after.chrome == before.chrome,
        browser != BrowserKind::Firefox ==> after.firefox == before.firefox,
        browser != BrowserKind::Edge ==> after.edge == before.edge,
        browser != BrowserKind::Safari ==> after.safari == before.safari,
{
    assert(browser != BrowserKind::Chrome ==> after.path(BrowserKind::Chrome) == before.path(
        BrowserKind::Chrome,
    ));
    assert(browser != BrowserKind::Firefox ==> after.path(BrowserKind::Firefox) == before.path(
        BrowserKind::Firefox,
    ));
    assert(browser != BrowserKind::Edge ==> after.path(BrowserKind::Edge) == before.path(
        BrowserKind::Edge,
    ));
    assert(browser != BrowserKind::Safari ==> after.path(BrowserKind::Safari) == before.path(
        BrowserKind::Safari,
    ));
}

/// A version that was recorded is found for the same browser and binary, and for no other. Nothing
/// is found before that.
pub proof fn law_versions_are_kept(
    browser: BrowserKind,
    custom: Option<String>,
    version: String,
    other: BrowserKind,
    else_custom: Option<String>,
)
    ensures
        forall|t: VersionTable, r: Option<String>| #[trigger]
            call_ensures(VersionTable::new, (), t) && #[trigger] call_ensures(
                VersionTable::find,
                (&t, other, &else_custom),
                r,
            ) ==> r is None,
        forall|t: &mut VersionTable, u: (), before: Option<String>, after: Option<String>|
            #[trigger] call_ensures(VersionTable::record, (t, browser, custom, version), u)
                && #[trigger] call_ensures(VersionTable::find, (&*t, other, &else_custom), before)
                && #[trigger] call_ensures(
                VersionTable::find,
                (&*final(t), other, &else_custom),
                after,
            ) ==> if other == browser && text::opt_text(else_custom) == text::opt_text(custom) {
                after matches Some(v) && v@ == version@
            } else {
                text::opt_text(after) == text::opt_text(before)
            },
{
}

} // verus!
