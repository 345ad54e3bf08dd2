//! Local driver processes: how they are configured, started and found again.
use crate::address;
use crate::address::ServerUrl;
use crate::config::{SessionPoller, WebDriverConfig};
use crate::connection::RemoteConnectionSync;
use crate::duration::Duration;
use crate::error::{WebDriverError, WebDriverErrorInner, WebDriverResult};
use crate::json;
use crate::json::{Json, JsonValue};
use crate::session::{HandleView, SessionHandle};
use crate::text;
use crate::text::{cat2, cat3, cat4, contains_lowered, decimal_text, text_eq};
use crate::types::SessionId;
use crate::webdriver::RequestedCapabilities;
use crate::webdrivercommands;
use crate::webdrivercommands::start_session;
use vstd::prelude::*;

verus! {

/// The browsers that there are drivers for.
#[derive(Debug, Clone, Copy, PartialEq, Eq, Structural)]
pub enum BrowserKind {
    Chrome,
    Firefox,
    Edge,
    Safari,
}

/// Which version of a driver to use.
#[derive(Debug)]
pub enum DriverVersion {
    /// Probe the locally-installed browser and use a matching driver.
    MatchLocalBrowser,
    /// Read `browserVersion` from the capabilities.
    FromCapabilities,
    /// Use the latest stable driver from upstream metadata.
    Latest,
    /// A specific version.
    Exact(String),
}

impl Default for DriverVersion {
    fn default() -> (r: Self)
        ensures
            r is MatchLocalBrowser,
    {
        DriverVersion::MatchLocalBrowser
    }
}

/// How driver-process stdout/stderr is handled.
#[derive(Debug, Clone, Copy, PartialEq, Eq, Structural)]
pub enum StdioMode {
    /// Pipe both streams and hand on each line. This is the default.
    Tracing,
    /// Inherit the parent process's stdio.
    Inherit,
    /// Discard both streams.
    Null,
}

impl Default for StdioMode {
    fn default() -> (r: Self)
        ensures
            r == StdioMode::Tracing,
    {
        StdioMode::Tracing
    }
}

/// Errors of the manager.
#[derive(Debug)]
pub enum ManagerError {
    /// The driver process could not be started.
    Spawn(String),
    /// The driver was not ready in time.
    DriverNotReady(Duration),
    /// There are no capabilities to launch a session with.
    NoCapabilities,
    /// No driver could be found or fetched, and why.
    Unavailable(String),
}

/// The address that a driver is bound to.
#[derive(Debug)]
pub enum Host {
    /// An IPv4 address.
    V4(u8, u8, u8, u8),
    /// An IPv6 address, as it is written.
    V6(String),
}

/// What tells an address from others.
pub enum HostView {
    V4(u8, u8, u8, u8),
    V6(Seq<char>),
}

impl Host {
    /// The address as it is written.
    pub open spec fn view(&self) -> Seq<char> {
        match self {
            Host::V4(a, b, c, d) => text::decimal(*a as nat) + "."@ + text::decimal(*b as nat) + "."@
                + (text::decimal(*c as nat) + "."@ + text::decimal(*d as nat)),
            Host::V6(s) => s@,
        }
    }

    /// The loopback address, 127.0.0.1.
    pub open spec fn loopback(&self) -> bool {
        *self == Host::V4(127, 0, 0, 1)
    }

    /// The loopback address, 127.0.0.1.
    pub fn localhost() -> (r: Self)
        ensures
            r.loopback(),
    {
        Host::V4(127, 0, 0, 1)
    }

    /// Whether this is the loopback address, 127.0.0.1.
    pub fn is_localhost(&self) -> (r: bool)
        ensures
            r == self.loopback(),
    {
        match self {
            Host::V4(a, b, c, d) => *a == 127 && *b == 0 && *c == 0 && *d == 1,
            Host::V6(_) => false,
        }
    }

    /// The address as it is written.
    pub fn to_text(&self) -> (r: String)
        ensures
            r@ == self@,
    {
        match self {
            Host::V4(a, b, c, d) => {
                let mut r: String = cat4(
                    decimal_text(*a as u64).as_str(),
                    ".",
                    decimal_text(*b as u64).as_str(),
                    ".",
                );
                r.append(
                    cat3(
                        decimal_text(*c as u64).as_str(),
                        ".",
                        decimal_text(*d as u64).as_str(),
                    ).as_str(),
                );
                r
            },
            Host::V6(s) => s.clone(),
        }
    }

    /// What tells this address from others.
    pub open spec fn place(&self) -> HostView {
        match self {
            Host::V4(a, b, c, d) => HostView::V4(*a, *b, *c, *d),
            Host::V6(s) => HostView::V6(s@),
        }
    }

    /// Whether two addresses are the same.
    pub fn same_as(&self, other: &Host) -> (r: bool)
        ensures
            r == (self.place() == other.place()),
    {
        match (self, other) {
            (Host::V4(a, b, c, d), Host::V4(e, f, g, h)) => *a == *e && *b == *f && *c == *g && *d
                == *h,
            (Host::V6(s), Host::V6(t)) => text_eq(s.as_str(), t.as_str()),
            _ => false,
        }
    }
}

impl Clone for Host {
    fn clone(&self) -> (r: Self)
        ensures
            r == *self,
    {
        match self {
            Host::V4(a, b, c, d) => Host::V4(*a, *b, *c, *d),
            Host::V6(s) => Host::V6(s.clone()),
        }
    }
}

/// The message of an error from a port that another process has taken.
pub open spec fn names_taken_port(message: Seq<char>) -> bool {
    let low = text::lowered(message);
    text::within("address already in use"@, low) || text::within(
        "only one usage of each socket address"@,
        low,
    ) || text::within("addrinuse"@, low)
}

/// Whether an error came from the OS reporting that the chosen port was already bound.
pub open spec fn port_in_use(err: ManagerError) -> bool {
    err matches ManagerError::Spawn(s) && names_taken_port(s@)
}

/// Heuristic: did this error come from the OS reporting that the chosen port was already bound?
/// Both "Address already in use" and Windows's "Only one usage of each socket address" land here.
pub fn is_port_in_use(err: &ManagerError) -> (r: bool)
    ensures
        r == port_in_use(*err),
{
    match err {
        ManagerError::Spawn(s) => contains_lowered(s.as_str(), "address already in use")
            || contains_lowered(s.as_str(), "only one usage of each socket address")
            || contains_lowered(s.as_str(), "addrinuse"),
        _ => false,
    }
}

/// The error of a driver that could not be started.
pub fn spawn_error(binary: &str, message: &str) -> (r: ManagerError)
    ensures
        r matches ManagerError::Spawn(s) && s@ == "spawn "@ + binary@ + ": "@ + message@,
{
    ManagerError::Spawn(cat4("spawn ", binary, ": ", message))
}

/// The error where no free port could be bound.
pub fn bind_error(message: &str) -> (r: ManagerError)
    ensures
        r matches ManagerError::Spawn(s) && s@ == "bind ephemeral port: "@ + message@,
{
    ManagerError::Spawn(cat2("bind ephemeral port: ", message))
}

/// The error where the port that was bound is not known.
pub fn local_addr_error(message: &str) -> (r: ManagerError)
    ensures
        r matches ManagerError::Spawn(s) && s@ == "local_addr: "@ + message@,
{
    ManagerError::Spawn(cat2("local_addr: ", message))
}

/// How many ports are tried for one driver.
pub const MAX_PORT_ATTEMPTS: u8 = 3;

/// What to do once a driver was to be started at a port.
#[derive(Debug)]
pub enum SpawnStep<P> {
    /// The driver runs.
    Done(P),
    /// Try the next port, with so many tried.
    Again(u8),
    /// Give up.
    Fail(ManagerError),
}

/// What to do once a driver was to be started at a port, with so many tried before it: only a port
/// that another process has taken is a reason to try another one, and not for ever.
pub fn after_spawn<P>(tried: u8, outcome: Result<P, ManagerError>) -> (r: SpawnStep<P>)
    requires
        tried < MAX_PORT_ATTEMPTS,
    ensures
        match outcome {
            Ok(p) => r == SpawnStep::Done(p),
            Err(e) => if port_in_use(e) && tried + 1 < MAX_PORT_ATTEMPTS {
                r == SpawnStep::<P>::Again((tried + 1) as u8)
            } else {
                r == SpawnStep::<P>::Fail(e)
            },
        },
{
    match outcome {
        Ok(p) => SpawnStep::Done(p),
        Err(e) => if is_port_in_use(&e) && tried + 1 < MAX_PORT_ATTEMPTS {
            SpawnStep::Again(tried + 1)
        } else {
            SpawnStep::Fail(e)
        },
    }
}

/// The arguments that a driver is started with.
pub open spec fn driver_arguments(browser: BrowserKind, host: Host, port: u16) -> Seq<Seq<char>> {
    let port_arg = seq!["--port="@ + text::decimal(port as nat)];
    let ips = if (browser == BrowserKind::Chrome || browser == BrowserKind::Edge)
        && !host.loopback() {
        seq!["--allowed-ips="@ + host@]
    } else {
        Seq::<Seq<char>>::empty()
    };
    let websocket = if browser == BrowserKind::Firefox {
        seq!["--websocket-port=0"@]
    } else {
        Seq::<Seq<char>>::empty()
    };
    port_arg + ips + websocket
}

/// The arguments that a driver is started with.
pub fn driver_args(browser: BrowserKind, host: &Host, port: u16) -> (r: Vec<String>)
    ensures
        text::texts(r@) == driver_arguments(browser, *host, port),
{
    let mut args: Vec<String> = Vec::new();
    // chromedriver, geckodriver, msedgedriver, and safaridriver all accept --port=N.
    args.push(cat2("--port=", decimal_text(port as u64).as_str()));
    // chromedriver / msedgedriver bind only to loopback by default; pass
    // --allowed-ips when the user has configured a non-loopback host.
    if (browser == BrowserKind::Chrome || browser == BrowserKind::Edge) && !host.is_localhost() {
        args.push(cat2("--allowed-ips=", host.to_text().as_str()));
    }
    // geckodriver's WebDriver-BiDi WebSocket binds to a fixed default port; ask for a free one.
    if browser == BrowserKind::Firefox {
        args.push("--websocket-port=0".to_owned());
    }
    assert(text::texts(args@) == driver_arguments(browser, *host, port));
    args
}

/// The connection URL of a driver.
pub open spec fn url_of(host: Host, port: u16) -> Seq<char> {
    "http://"@ + host@ + ":"@ + text::decimal(port as nat)
}

/// The connection URL of a driver.
pub fn driver_url(host: &Host, port: u16) -> (r: String)
    ensures
        r@ == url_of(*host, port),
{
    cat4("http://", host.to_text().as_str(), ":", decimal_text(port as u64).as_str())
}

/// The address of the server that a driver is.
pub fn driver_server(host: &Host, port: u16) -> (r: WebDriverResult<ServerUrl>)
    ensures
        match address::parsed_url(url_of(*host, port)) {
            Ok(u) => r matches Ok(s) && s@ == u,
            Err(f) => r matches Err(e) && e@ matches WebDriverErrorInner::ParseError(m) && m@
                == "invalid driver url: "@ + f.message,
        },
{
    match ServerUrl::parse(driver_url(host, port).as_str()) {
        Ok(s) => Ok(s),
        Err(f) => Err(
            WebDriverError::ParseError(cat2("invalid driver url: ", f.message.as_str())),
        ),
    }
}

/// Where a driver says whether it is ready.
pub fn status_url(host: &Host, port: u16) -> (r: String)
    ensures
        r@ == url_of(*host, port) + "/status"@,
{
    cat2(driver_url(host, port).as_str(), "/status")
}

/// Whether the answer of a driver says that it is ready.
pub open spec fn says_ready(status: u16, body: Option<Json>) -> bool {
    200 <= status <= 299 && match body {
        Some(b) => match json::member(b, "value"@) {
            Some(v) => json::member(v, "ready"@) == Some(Json::Bool(true)),
            None => false,
        },
        None => false,
    }
}

/// Whether the answer of a driver says that it is ready: its status, and its body where that could
/// be read.
pub fn is_ready(status: u16, body: Option<&JsonValue>) -> (r: bool)
    ensures
        r == says_ready(status, json::opt_ref_view(body)),
{
    if status < 200 || status > 299 {
        return false;
    }
    let body: &JsonValue = match body {
        Some(b) => b,
        None => return false,
    };
    match body.get("value") {
        Some(v) => match v.get("ready") {
            Some(ready) => match ready.as_bool() {
                Some(b) => b,
                None => false,
            },
            None => false,
        },
        None => false,
    }
}

/// How long to wait before a driver is asked again whether it is ready.
pub const READY_POLL_MILLIS: u64 = 100;

/// What to do while a driver starts.
#[derive(Debug)]
pub enum ReadyStep {
    /// Ask the driver whether it is ready.
    Ask,
    /// The driver is ready.
    Ready,
    /// Wait so long, and look at the clock again.
    Sleep(Duration),
    /// Give up.
    Fail(ManagerError),
}

/// What to do once so much time has passed: a driver is asked up to its timeout.
pub fn after_waiting(elapsed: &Duration, timeout: &Duration) -> (r: ReadyStep)
    ensures
        r == (if elapsed@ < timeout@ {
            ReadyStep::Ask
        } else {
            ReadyStep::Fail(ManagerError::DriverNotReady(*timeout))
        }),
{
    if elapsed.shorter_than(timeout) {
        ReadyStep::Ask
    } else {
        ReadyStep::Fail(ManagerError::DriverNotReady(*timeout))
    }
}

/// What to do once a driver has answered, or has not: its status and its body where there are
/// some.
pub fn after_answer(answer: Option<(u16, Option<JsonValue>)>) -> (r: ReadyStep)
    ensures
        match answer {
            Some((status, body)) => if says_ready(status, json::opt_view(body)) {
                r is Ready
            } else {
                r matches ReadyStep::Sleep(d) && d@ == READY_POLL_MILLIS * 1_000_000
            },
            None => r matches ReadyStep::Sleep(d) && d@ == READY_POLL_MILLIS * 1_000_000,
        },
{
    if let Some((status, body)) = answer {
        let body: Option<&JsonValue> = match &body {
            Some(b) => Some(b),
            None => None,
        };
        if is_ready(status, body) {
            return ReadyStep::Ready;
        }
    }
    ReadyStep::Sleep(Duration::from_millis(READY_POLL_MILLIS))
}

/// How a driver process is started.
#[derive(Debug)]
pub struct SpawnConfig {
    pub host: Host,
    pub ready_timeout: Duration,
    pub stdio: StdioMode,
    /// Windows only: give the driver its own console window.
    pub show_console_window: bool,
}

impl Default for SpawnConfig {
    fn default() -> (r: Self)
        ensures
            r.host.loopback(),
            r.ready_timeout@ == 30_000_000_000,
            r.stdio == StdioMode::Tracing,
            !r.show_console_window,
    {
        SpawnConfig {
            host: Host::localhost(),
            ready_timeout: Duration::from_secs(30),
            stdio: StdioMode::default(),
            show_console_window: false,
        }
    }
}

/// Base URLs that drivers are downloaded from.
#[derive(Debug)]
pub struct Mirror {
    pub chrome_metadata: String,
    pub geckodriver_downloads: String,
    pub edge_downloads: String,
}

/// The base URLs that are to be used in place of others.
#[derive(Debug)]
pub struct MirrorOverrides {
    pub chrome_metadata: Option<String>,
    pub geckodriver_downloads: Option<String>,
    pub edge_downloads: Option<String>,
}

/// A value, or another one where there is none.
pub open spec fn or_else<T>(value: Option<T>, other: T) -> T {
    match value {
        Some(v) => v,
        None => other,
    }
}

/// A value, or another one where there is none.
fn value_or<T>(value: Option<T>, other: T) -> (r: T)
    ensures
        r == or_else(value, other),
{
    match value {
        Some(v) => v,
        None => other,
    }
}

/// Driver binaries that are used in place of those that would be downloaded.
#[derive(Debug)]
pub struct DriverPaths {
    pub chrome: Option<String>,
    pub firefox: Option<String>,
    pub edge: Option<String>,
    pub safari: Option<String>,
}

impl DriverPaths {
    /// No such binaries.
    pub fn new() -> (r: Self)
        ensures
            forall|k: BrowserKind| (#[trigger] r.path(k)) is None,
    {
        DriverPaths { chrome: None, firefox: None, edge: None, safari: None }
    }

    /// The binary for a browser.
    pub open spec fn path(&self, browser: BrowserKind) -> Option<String> {
        match browser {
            BrowserKind::Chrome => self.chrome,
            BrowserKind::Firefox => self.firefox,
            BrowserKind::Edge => self.edge,
            BrowserKind::Safari => self.safari,
        }
    }

    /// The binary for a browser.
    pub fn get(&self, browser: BrowserKind) -> (r: Option<String>)
        ensures
            text::opt_text(r) == text::opt_text(self.path(browser)),
    {
        let path: &Option<String> = match browser {
            BrowserKind::Chrome => &self.chrome,
            BrowserKind::Firefox => &self.firefox,
            BrowserKind::Edge => &self.edge,
            BrowserKind::Safari => &self.safari,
        };
        match path {
            Some(p) => Some(p.clone()),
            None => None,
        }
    }

    /// Sets the binary for a browser, in place of one that was set before.
    pub fn set(&mut self, browser: BrowserKind, path: String)
        ensures
            final(self).path(browser) == Some(path),
            forall|k: BrowserKind|
                k != browser ==> (#[trigger] final(self).path(k)) == old(self).path(k),
    {
        match browser {
            BrowserKind::Chrome => self.chrome = Some(path),
            BrowserKind::Firefox => self.firefox = Some(path),
            BrowserKind::Edge => self.edge = Some(path),
            BrowserKind::Safari => self.safari = Some(path),
        }
    }
}

/// The configuration of a manager.
#[derive(Debug)]
pub struct ResolvedConfig {
    pub version: DriverVersion,
    pub cache_dir: String,
    pub host: Host,
    pub download_timeout: Duration,
    pub ready_timeout: Duration,
    pub offline: bool,
    pub mirror: Mirror,
    pub stdio: StdioMode,
    pub show_console_window: bool,
    pub driver_paths: DriverPaths,
}

/// Builder for a manager of driver processes.
#[derive(Debug)]
pub struct WebDriverManagerBuilder {
    pub version: DriverVersion,
    pub cache_dir: Option<String>,
    pub host: Option<Host>,
    pub download_timeout: Option<Duration>,
    pub ready_timeout: Option<Duration>,
    pub offline: Option<bool>,
    pub mirror: MirrorOverrides,
    pub stdio: Option<StdioMode>,
    pub show_console_window: Option<bool>,
    pub driver_paths: DriverPaths,
    pub web_driver_config: WebDriverConfig,
    pub preloaded_caps: Option<JsonValue>,
}

impl WebDriverManagerBuilder {
    /// Nothing is set but the configuration of sessions.
    pub open spec fn is_new(&self, web_driver_config: WebDriverConfig) -> bool {
        &&& self.version is MatchLocalBrowser
        &&& self.cache_dir is None
        &&& self.host is None
        &&& self.download_timeout is None
        &&& self.ready_timeout is None
        &&& self.offline is None
        &&& self.mirror == (MirrorOverrides {
            chrome_metadata: None,
            geckodriver_downloads: None,
            edge_downloads: None,
        })
        &&& self.stdio is None
        &&& self.show_console_window is None
        &&& forall|k: BrowserKind| (#[trigger] self.driver_paths.path(k)) is None
        &&& self.web_driver_config == web_driver_config
        &&& self.preloaded_caps is None
    }

    /// Construct an empty builder, with the configuration that sessions have by default.
    pub fn new(web_driver_config: WebDriverConfig) -> (r: Self)
        ensures
            r.is_new(web_driver_config),
    {
        WebDriverManagerBuilder {
            version: DriverVersion::default(),
            cache_dir: None,
            host: None,
            download_timeout: None,
            ready_timeout: None,
            offline: None,
            mirror: MirrorOverrides {
                chrome_metadata: None,
                geckodriver_downloads: None,
                edge_downloads: None,
            },
            stdio: None,
            show_console_window: None,
            driver_paths: DriverPaths::new(),
            web_driver_config,
            preloaded_caps: None,
        }
    }

    /// Set the configuration used by every session launched by the resulting manager.
    pub fn config(self, config: WebDriverConfig) -> (r: Self)
        ensures
            r == (WebDriverManagerBuilder { web_driver_config: config, ..self }),
    {
        WebDriverManagerBuilder { web_driver_config: config, ..self }
    }

    /// Set the element poller used by every session launched by the resulting manager. This replaces the
    /// poller in the current configuration, including one that was supplied before.
    pub fn poller(self, poller: SessionPoller) -> (r: Self)
        ensures
            r == (WebDriverManagerBuilder { web_driver_config: WebDriverConfig { poller, ..self.web_driver_config }, ..self }),
    {
        WebDriverManagerBuilder { web_driver_config: WebDriverConfig { poller, ..self.web_driver_config }, ..self }
    }

    /// Pick a driver version.
    pub fn version(self, v: DriverVersion) -> (r: Self)
        ensures
            r == (WebDriverManagerBuilder { version: v, ..self }),
    {
        WebDriverManagerBuilder { version: v, ..self }
    }

    /// Use the latest stable driver from upstream metadata.
    pub fn latest(self) -> (r: Self)
        ensures
            r == (WebDriverManagerBuilder { version: DriverVersion::Latest, ..self }),
    {
        WebDriverManagerBuilder { version: DriverVersion::Latest, ..self }
    }

    /// Probe the locally-installed browser and use a matching driver. This is the default; calling it
    /// explicitly is a no-op.
    pub fn match_local(self) -> (r: Self)
        ensures
            r == (WebDriverManagerBuilder { version: DriverVersion::MatchLocalBrowser, ..self }),
    {
        WebDriverManagerBuilder { version: DriverVersion::MatchLocalBrowser, ..self }
    }

    /// Read `browserVersion` from the capabilities supplied to `launch()`.
    pub fn from_caps(self) -> (r: Self)
        ensures
            r == (WebDriverManagerBuilder { version: DriverVersion::FromCapabilities, ..self }),
    {
        WebDriverManagerBuilder { version: DriverVersion::FromCapabilities, ..self }
    }

    /// Pin a specific version (full like `"126.0.6478.126"` or major-only like `"126"`).
    pub fn exact(self, v: String) -> (r: Self)
        ensures
            r == (WebDriverManagerBuilder { version: DriverVersion::Exact(v), ..self }),
    {
        WebDriverManagerBuilder { version: DriverVersion::Exact(v), ..self }
    }

    /// Override the cache directory. Default: `<system cache dir>/thirtyfour/drivers`.
    pub fn cache_dir(self, p: String) -> (r: Self)
        ensures
            r == (WebDriverManagerBuilder { cache_dir: Some(p), ..self }),
    {
        WebDriverManagerBuilder { cache_dir: Some(p), ..self }
    }

    /// Override the host the driver binds to. Default: `127.0.0.1`.
    pub fn host(self, h: Host) -> (r: Self)
        ensures
            r == (WebDriverManagerBuilder { host: Some(h), ..self }),
    {
        WebDriverManagerBuilder { host: Some(h), ..self }
    }

    /// Override the timeout for upstream metadata + binary downloads. Default: 60s.
    pub fn download_timeout(self, d: Duration) -> (r: Self)
        ensures
            r == (WebDriverManagerBuilder { download_timeout: Some(d), ..self }),
    {
        WebDriverManagerBuilder { download_timeout: Some(d), ..self }
    }

    /// Override the timeout for waiting on driver `/status` readiness. Default: 30s.
    pub fn ready_timeout(self, d: Duration) -> (r: Self)
        ensures
            r == (WebDriverManagerBuilder { ready_timeout: Some(d), ..self }),
    {
        WebDriverManagerBuilder { ready_timeout: Some(d), ..self }
    }

    /// Refuse to download anything; require the driver to already be in cache.
    pub fn offline(self) -> (r: Self)
        ensures
            r == (WebDriverManagerBuilder { offline: Some(true), ..self }),
    {
        WebDriverManagerBuilder { offline: Some(true), ..self }
    }

    /// Allow downloads. This is the default.
    pub fn online(self) -> (r: Self)
        ensures
            r == (WebDriverManagerBuilder { offline: Some(false), ..self }),
    {
        WebDriverManagerBuilder { offline: Some(false), ..self }
    }

    /// Set offline mode explicitly.
    pub fn offline_mode(self, yes: bool) -> (r: Self)
        ensures
            r == (WebDriverManagerBuilder { offline: Some(yes), ..self }),
    {
        WebDriverManagerBuilder { offline: Some(yes), ..self }
    }

    /// Override the Chrome-for-Testing metadata base URL.
    pub fn chrome_metadata_mirror(self, base: String) -> (r: Self)
        ensures
            r == (WebDriverManagerBuilder { mirror: MirrorOverrides { chrome_metadata: Some(base), ..self.mirror }, ..self }),
    {
        WebDriverManagerBuilder { mirror: MirrorOverrides { chrome_metadata: Some(base), ..self.mirror }, ..self }
    }

    /// Override the geckodriver binary download base URL.
    pub fn geckodriver_downloads_mirror(self, base: String) -> (r: Self)
        ensures
            r == (WebDriverManagerBuilder { mirror: MirrorOverrides { geckodriver_downloads: Some(base), ..self.mirror }, ..self }),
    {
        WebDriverManagerBuilder { mirror: MirrorOverrides { geckodriver_downloads: Some(base), ..self.mirror }, ..self }
    }

    /// Override the msedgedriver download host.
    pub fn edge_downloads_mirror(self, base: String) -> (r: Self)
        ensures
            r == (WebDriverManagerBuilder { mirror: MirrorOverrides { edge_downloads: Some(base), ..self.mirror }, ..self }),
    {
        WebDriverManagerBuilder { mirror: MirrorOverrides { edge_downloads: Some(base), ..self.mirror }, ..self }
    }

    /// Set how driver-process stdout/stderr is handled. Default: `StdioMode::Tracing`.
    pub fn stdio(self, mode: StdioMode) -> (r: Self)
        ensures
            r == (WebDriverManagerBuilder { stdio: Some(mode), ..self }),
    {
        WebDriverManagerBuilder { stdio: Some(mode), ..self }
    }

    /// Windows only: give the driver process its own console window.
    pub fn show_console_window(self, yes: bool) -> (r: Self)
        ensures
            r == (WebDriverManagerBuilder { show_console_window: Some(yes), ..self }),
    {
        WebDriverManagerBuilder { show_console_window: Some(yes), ..self }
    }

    /// Launch with these capabilities.
    pub fn preloaded(self, caps: JsonValue) -> (r: Self)
        ensures
            r == (WebDriverManagerBuilder { preloaded_caps: Some(caps), ..self }),
    {
        WebDriverManagerBuilder { preloaded_caps: Some(caps), ..self }
    }

    /// Use an already-installed driver binary at `path` for the given browser instead of resolving
    /// and downloading one.
    pub fn driver_binary(self, browser: BrowserKind, path: String) -> (r: Self)
        ensures
            r == (WebDriverManagerBuilder { driver_paths: r.driver_paths, ..self }),
            r.driver_paths.path(browser) == Some(path),
            forall|k: BrowserKind|
                k != browser ==> (#[trigger] r.driver_paths.path(k)) == self.driver_paths.path(k),
    {
        let mut driver_paths: DriverPaths = self.driver_paths;
        driver_paths.set(browser, path);
        WebDriverManagerBuilder { driver_paths, ..self }
    }

    /// Build the manager. Its configuration is what was set, and the defaults for all else. Where the
    /// cache and the mirrors are by default depends on the system, and is handed in.
    pub fn build(self, default_cache_dir: String, default_mirror: Mirror) -> (m: WebDriverManager)
        ensures
            m.cfg.version == self.version,
            m.cfg.cache_dir == or_else(self.cache_dir, default_cache_dir),
            self.host matches Some(h) ==> m.cfg.host == h,
            self.host is None ==> m.cfg.host.loopback(),
            self.download_timeout matches Some(d) ==> m.cfg.download_timeout == d,
            self.download_timeout is None ==> m.cfg.download_timeout@ == 60_000_000_000,
            self.ready_timeout matches Some(d) ==> m.cfg.ready_timeout == d,
            self.ready_timeout is None ==> m.cfg.ready_timeout@ == 30_000_000_000,
            m.cfg.offline == or_else(self.offline, false),
            m.cfg.mirror == (Mirror {
                chrome_metadata: or_else(
                    self.mirror.chrome_metadata,
                    default_mirror.chrome_metadata,
                ),
                geckodriver_downloads: or_else(
                    self.mirror.geckodriver_downloads,
                    default_mirror.geckodriver_downloads,
                ),
                edge_downloads: or_else(self.mirror.edge_downloads, default_mirror.edge_downloads),
            }),
            m.cfg.stdio == or_else(self.stdio, StdioMode::Tracing),
            m.cfg.show_console_window == or_else(self.show_console_window, false),
            m.cfg.driver_paths == self.driver_paths,
            m.web_driver_config == self.web_driver_config,
            m.drivers.next() == 0,
            forall|key: DriverKeyView| (#[trigger] m.drivers.driver(key)) is None,
            forall|k: BrowserKind, custom: Option<Seq<char>>|
                (#[trigger] m.local_versions.version(k, custom)) is None,
    {
        let cfg: ResolvedConfig = ResolvedConfig {
            version: self.version,
            cache_dir: value_or(self.cache_dir, default_cache_dir),
            host: value_or(self.host, Host::localhost()),
            download_timeout: value_or(self.download_timeout, Duration::from_secs(60)),
            ready_timeout: value_or(self.ready_timeout, Duration::from_secs(30)),
            offline: value_or(self.offline, false),
            mirror: Mirror {
                chrome_metadata: value_or(
                    self.mirror.chrome_metadata,
                    default_mirror.chrome_metadata,
                ),
                geckodriver_downloads: value_or(
                    self.mirror.geckodriver_downloads,
                    default_mirror.geckodriver_downloads,
                ),
                edge_downloads: value_or(self.mirror.edge_downloads, default_mirror.edge_downloads),
            },
            stdio: value_or(self.stdio, StdioMode::Tracing),
            show_console_window: value_or(self.show_console_window, false),
            driver_paths: self.driver_paths,
        };
        WebDriverManager {
            cfg,
            web_driver_config: self.web_driver_config,
            drivers: DriverTable::new(),
            local_versions: VersionTable::new(),
        }
    }

    /// The capabilities that a session is launched with.
    pub fn launch_capabilities(&self) -> (r: Result<JsonValue, ManagerError>)
        ensures
            match self.preloaded_caps {
                Some(caps) => r matches Ok(c) && c@ == caps@,
                None => r == Err::<JsonValue, ManagerError>(ManagerError::NoCapabilities),
            },
    {
        match &self.preloaded_caps {
            Some(caps) => Ok(caps.clone()),
            None => Err(ManagerError::NoCapabilities),
        }
    }
}

impl ResolvedConfig {
    /// How driver processes are started.
    pub fn spawn_config(&self) -> (r: SpawnConfig)
        ensures
            r == (SpawnConfig {
                host: self.host,
                ready_timeout: self.ready_timeout,
                stdio: self.stdio,
                show_console_window: self.show_console_window,
            }),
    {
        SpawnConfig {
            host: self.host.clone(),
            ready_timeout: self.ready_timeout,
            stdio: self.stdio,
            show_console_window: self.show_console_window,
        }
    }
}

/// What a driver process is known by.
#[derive(Debug)]
pub struct DriverKey {
    pub browser: BrowserKind,
    pub version: String,
    pub host: Host,
}

/// What a `DriverKey` stands for.
pub struct DriverKeyView {
    pub browser: BrowserKind,
    pub version: Seq<char>,
    pub host: HostView,
}

impl DriverKey {
    /// What this key stands for.
    pub open spec fn view(&self) -> DriverKeyView {
        DriverKeyView {
            browser: self.browser,
            version: self.version@,
            host: self.host.place(),
        }
    }

    /// Whether two keys are the same.
    pub fn same_as(&self, other: &DriverKey) -> (r: bool)
        ensures
            r == (self@ == other@),
    {
        self.browser == other.browser && text_eq(self.version.as_str(), other.version.as_str())
            && self.host.same_as(&other.host)
    }
}

/// The version that a driver has whose binary was set by hand.
pub fn manual_version(path: &str) -> (r: String)
    ensures
        r@ == "manual:"@ + path@,
{
    cat2("manual:", path)
}

/// The version that the capabilities ask for.
pub open spec fn version_asked(caps: Json) -> Option<Seq<char>> {
    json::str_field(json::member(caps, "browserVersion"@))
}

/// The version that the capabilities ask for.
pub fn version_from_caps(caps: &JsonValue) -> (r: Option<String>)
    ensures
        text::opt_text(r) == version_asked(caps@),
{
    json::read_str(caps.get("browserVersion"))
}

/// The driver processes that were started, each with its number, and the number of the next one.
#[derive(Debug)]
pub struct DriverTable {
    drivers: Vec<(DriverKey, u64)>,
    next_driver_id: u64,
}

/// The number of the last driver before `n` with a key.
spec fn driver_of(drivers: Seq<(DriverKey, u64)>, key: DriverKeyView, n: nat) -> Option<u64>
    decreases n,
{
    if n == 0 {
        None
    } else if drivers[n - 1].0@ == key {
        Some(drivers[n - 1].1)
    } else {
        driver_of(drivers, key, (n - 1) as nat)
    }
}

/// What comes last counts for nothing below it.
proof fn lemma_driver_of(
    drivers: Seq<(DriverKey, u64)>,
    more: (DriverKey, u64),
    key: DriverKeyView,
    n: nat,
)
    requires
        n <= drivers.len(),
    ensures
        driver_of(drivers.push(more), key, n) == driver_of(drivers, key, n),
    decreases n,
{
    if n > 0 {
        lemma_driver_of(drivers, more, key, (n - 1) as nat);
    }
}

impl DriverTable {
    /// The driver that is known by a key.
    pub closed spec fn driver(&self, key: DriverKeyView) -> Option<u64> {
        driver_of(self.drivers@, key, self.drivers@.len())
    }

    /// The number of the next driver.
    pub closed spec fn next(&self) -> u64 {
        self.next_driver_id
    }

    /// No drivers.
    pub fn new() -> (r: Self)
        ensures
            r.next() == 0,
            forall|key: DriverKeyView| (#[trigger] r.driver(key)) is None,
    {
        DriverTable { drivers: Vec::new(), next_driver_id: 0 }
    }

    /// A number for a new driver. The numbers come one after the other, and start again once there
    /// are no more.
    pub fn mint_driver_id(&mut self) -> (r: u64)
        ensures
            r == old(self).next(),
            final(self).next() == (if r == u64::MAX {
                0
            } else {
                r + 1
            }),
            forall|key: DriverKeyView| (#[trigger] final(self).driver(key)) == old(self).driver(key),
    {
        let id: u64 = self.next_driver_id;
        self.next_driver_id = if id == u64::MAX {
            0
        } else {
            id + 1
        };
        id
    }

    /// The driver that is known by a key.
    pub fn find(&self, key: &DriverKey) -> (r: Option<u64>)
        ensures
            r == self.driver(key@),
    {
        let mut n: usize = self.drivers.len();
        while n > 0
            invariant
                n <= self.drivers.len(),
                self.driver(key@) == driver_of(self.drivers@, key@, n as nat),
            decreases n,
        {
            if self.drivers[n - 1].0.same_as(key) {
                return Some(self.drivers[n - 1].1);
            }
            n = n - 1;
        }
        None
    }

    /// Makes a driver known by a key, in place of any other one.
    pub fn record(&mut self, key: DriverKey, id: u64)
        ensures
            final(self).driver(key@) == Some(id),
            final(self).next() == old(self).next(),
            forall|other: DriverKeyView|
                other != key@ ==> (#[trigger] final(self).driver(other)) == old(self).driver(
                    other,
                ),
    {
        let ghost before = self.drivers@;
        self.drivers.push((key, id));
        proof {
            assert forall|other: DriverKeyView| other != key@ implies (#[trigger] self.driver(other))
                == old(self).driver(other) by {
                lemma_driver_of(before, (key, id), other, before.len());
            }
        }
    }
}

/// The versions of the local browsers that were probed, each with its binary where that is not the
/// default one.
#[derive(Debug)]
pub struct VersionTable {
    versions: Vec<(BrowserKind, Option<String>, String)>,
}

/// Whether an entry is about a browser with a binary.
spec fn is_about(
    entry: (BrowserKind, Option<String>, String),
    browser: BrowserKind,
    custom: Option<Seq<char>>,
) -> bool {
    entry.0 == browser && text::opt_text(entry.1) == custom
}

/// The last version before `n` of a browser with a binary.
spec fn version_of(
    versions: Seq<(BrowserKind, Option<String>, String)>,
    browser: BrowserKind,
    custom: Option<Seq<char>>,
    n: nat,
) -> Option<Seq<char>>
    decreases n,
{
    if n == 0 {
        None
    } else if is_about(versions[n - 1], browser, custom) {
        Some(versions[n - 1].2@)
    } else {
        version_of(versions, browser, custom, (n - 1) as nat)
    }
}

/// What comes last counts for nothing below it.
proof fn lemma_version_of(
    versions: Seq<(BrowserKind, Option<String>, String)>,
    more: (BrowserKind, Option<String>, String),
    browser: BrowserKind,
    custom: Option<Seq<char>>,
    n: nat,
)
    requires
        n <= versions.len(),
    ensures
        version_of(versions.push(more), browser, custom, n) == version_of(
            versions,
            browser,
            custom,
            n,
        ),
    decreases n,
{
    if n > 0 {
        lemma_version_of(versions, more, browser, custom, (n - 1) as nat);
    }
}

/// Whether two binaries are the same.
fn same_binary(a: &Option<String>, b: &Option<String>) -> (r: bool)
    ensures
        r == (text::opt_text(*a) == text::opt_text(*b)),
{
    match (a, b) {
        (Some(s), Some(t)) => text_eq(s.as_str(), t.as_str()),
        (None, None) => true,
        _ => false,
    }
}

impl VersionTable {
    /// The version of a browser with a binary.
    pub closed spec fn version(&self, browser: BrowserKind, custom: Option<Seq<char>>) -> Option<
        Seq<char>,
    > {
        version_of(self.versions@, browser, custom, self.versions@.len())
    }

    /// No versions.
    pub fn new() -> (r: Self)
        ensures
            forall|k: BrowserKind, custom: Option<Seq<char>>|
                (#[trigger] r.version(k, custom)) is None,
    {
        VersionTable { versions: Vec::new() }
    }

    /// The version of a browser with a binary.
    pub fn find(&self, browser: BrowserKind, custom: &Option<String>) -> (r: Option<String>)
        ensures
            text::opt_text(r) == self.version(browser, text::opt_text(*custom)),
    {
        let mut n: usize = self.versions.len();
        while n > 0
            invariant
                n <= self.versions.len(),
                self.version(browser, text::opt_text(*custom)) == version_of(
                    self.versions@,
                    browser,
                    text::opt_text(*custom),
                    n as nat,
                ),
            decreases n,
        {
            let entry: &(BrowserKind, Option<String>, String) = &self.versions[n - 1];
            if entry.0 == browser && same_binary(&entry.1, custom) {
                return Some(entry.2.clone());
            }
            n = n - 1;
        }
        None
    }

    /// Keeps the version of a browser with a binary.
    pub fn record(&mut self, browser: BrowserKind, custom: Option<String>, version: String)
        ensures
            final(self).version(browser, text::opt_text(custom)) == Some(version@),
            forall|k: BrowserKind, c: Option<Seq<char>>|
                k != browser || c != text::opt_text(custom) ==> (#[trigger] final(self).version(
                    k,
                    c,
                )) == old(self).version(k, c),
    {
        let ghost before = self.versions@;
        let ghost entry = (browser, custom, version);
        self.versions.push((browser, custom, version));
        proof {
            assert forall|k: BrowserKind, c: Option<Seq<char>>|
                k != browser || c != text::opt_text(custom) implies (#[trigger] self.version(k, c))
                == old(self).version(k, c) by {
                lemma_version_of(before, entry, k, c, before.len());
            }
        }
    }
}

/// Manager of local driver processes: its configuration, and what it knows of the drivers and the
/// browsers.
#[derive(Debug)]
pub struct WebDriverManager {
    pub cfg: ResolvedConfig,
    /// Configuration applied to every session launched by this manager.
    pub web_driver_config: WebDriverConfig,
    pub drivers: DriverTable,
    pub local_versions: VersionTable,
}

/// How far the search for a driver has come.
#[derive(Debug)]
pub enum SearchState {
    /// Nothing was done yet.
    Start,
    /// The local browser is probed.
    Probing,
    /// The version is resolved.
    Resolving,
    /// A driver of the version is known, and looked at.
    Looking { version: String, id: u64 },
    /// The binary is fetched.
    Fetching { version: String },
    /// The binary is there, and a driver that is known is looked at.
    LookingAgain { version: String, binary: String, id: u64 },
    /// A new driver is started.
    Spawning { version: String, id: u64 },
    /// A new driver runs, and another one that is known is looked at.
    LookingLast { version: String, id: u64, known: u64 },
    /// The search has ended.
    Ended,
}

/// What has come of the last step of a search.
#[derive(Debug)]
pub enum SearchEvent {
    /// The search begins.
    Begin,
    /// The version of the local browser.
    Probed(Result<String, ManagerError>),
    /// The version of the driver.
    Resolved(Result<String, ManagerError>),
    /// Where the binary is.
    Fetched(Result<String, ManagerError>),
    /// Whether the driver that was looked at is alive.
    Looked(bool),
    /// Whether the driver was started.
    Spawned(Result<(), ManagerError>),
}

/// The next step of a search.
#[derive(Debug)]
pub enum SearchAction {
    /// Probe the local browser for its version.
    Probe,
    /// Resolve the version of the driver, given that of the local browser where it counts.
    Resolve(Option<String>),
    /// See whether a driver is alive.
    Look(u64),
    /// Fetch the driver binary of a version.
    Fetch(String),
    /// Start a driver, by its binary and its number.
    Spawn(String, u64),
    /// Use a driver.
    Use(u64),
    /// Give up.
    Fail(ManagerError),
}

/// Whether an event can come of a state.
pub open spec fn fits(state: SearchState, event: SearchEvent) -> bool {
    match event {
        SearchEvent::Begin => state is Start,
        SearchEvent::Probed(_) => state is Probing,
        SearchEvent::Resolved(_) => state is Resolving,
        SearchEvent::Fetched(_) => state is Fetching,
        SearchEvent::Looked(_) => state is Looking || state is LookingAgain || state
            is LookingLast,
        SearchEvent::Spawned(_) => state is Spawning,
    }
}

/// What a manager tells its subscribers.
#[derive(Debug)]
pub enum Status {
    /// It is known which browser the capabilities ask for.
    BrowserKindResolved { browser: BrowserKind },
    /// A driver that runs already is used.
    DriverReused { browser: BrowserKind, version: String, url: String },
    /// A driver process was started.
    DriverProcessSpawned {
        browser: BrowserKind,
        version: String,
        pid: u32,
        port: u16,
        binary: String,
    },
    /// A driver process that was started is ready.
    DriverReady { browser: BrowserKind, version: String, url: String, elapsed: Duration },
    /// A driver process is being stopped.
    DriverShutdown { browser: BrowserKind, version: String, port: u16 },
    /// A session is asked for.
    SessionStarting { browser: BrowserKind, url: String },
    /// A session was started.
    SessionStarted { browser: BrowserKind, session_id: String, url: String },
    /// A session has ended.
    SessionEnded { browser: BrowserKind, session_id: String },
}

/// What a step of the search for a driver is told as: the browser is known when it begins, and a
/// driver at `url` that was looked at and is alive is reused.
pub open spec fn status_of_search(
    browser: BrowserKind,
    state: SearchState,
    event: SearchEvent,
    url: String,
) -> Option<Status> {
    match (state, event) {
        (_, SearchEvent::Begin) => Some(Status::BrowserKindResolved { browser }),
        (SearchState::Looking { version, .. }, SearchEvent::Looked(true)) => Some(
            Status::DriverReused { browser, version, url },
        ),
        (SearchState::LookingAgain { version, .. }, SearchEvent::Looked(true)) => Some(
            Status::DriverReused { browser, version, url },
        ),
        (SearchState::LookingLast { version, .. }, SearchEvent::Looked(true)) => Some(
            Status::DriverReused { browser, version, url },
        ),
        _ => None,
    }
}

/// What a step of the search for a driver is told as, where the driver that was looked at last is
/// at `url`.
pub fn search_status(
    browser: BrowserKind,
    state: &SearchState,
    event: &SearchEvent,
    url: String,
) -> (r: Option<Status>)
    ensures
        r == status_of_search(browser, *state, *event, url),
{
    match event {
        SearchEvent::Begin => Some(Status::BrowserKindResolved { browser }),
        SearchEvent::Looked(true) => match state {
            SearchState::Looking { version, .. } => Some(
                Status::DriverReused { browser, version: version.clone(), url },
            ),
            SearchState::LookingAgain { version, .. } => Some(
                Status::DriverReused { browser, version: version.clone(), url },
            ),
            SearchState::LookingLast { version, .. } => Some(
                Status::DriverReused { browser, version: version.clone(), url },
            ),
            _ => None,
        },
        _ => None,
    }
}

/// Where a driver process has come to.
#[derive(Debug)]
pub enum ProcessPoint {
    /// It was started, with that process id and from that binary.
    Spawned(u32, String),
    /// It is ready, after that long.
    Ready(Duration),
    /// It is being stopped.
    Stopped,
}

/// What a point in the life of a driver process is told as.
pub fn process_status(
    browser: BrowserKind,
    version: String,
    host: &Host,
    port: u16,
    point: ProcessPoint,
) -> (r: Status)
    ensures
        match point {
            ProcessPoint::Spawned(pid, binary) => r == (Status::DriverProcessSpawned {
                browser,
                version,
                pid,
                port,
                binary,
            }),
            ProcessPoint::Ready(elapsed) => r matches Status::DriverReady {
                browser: b,
                version: v,
                url,
                elapsed: e,
            } && b == browser && v == version && url@ == url_of(*host, port) && e == elapsed,
            ProcessPoint::Stopped => r == (Status::DriverShutdown { browser, version, port }),
        },
{
    match point {
        ProcessPoint::Spawned(pid, binary) => Status::DriverProcessSpawned {
            browser,
            version,
            pid,
            port,
            binary,
        },
        ProcessPoint::Ready(elapsed) => Status::DriverReady {
            browser,
            version,
            url: driver_url(host, port),
            elapsed,
        },
        ProcessPoint::Stopped => Status::DriverShutdown { browser, version, port },
    }
}

/// Where a session has come to.
#[derive(Debug)]
pub enum SessionPoint {
    /// It is asked for, at that address.
    Starting(String),
    /// It was started, with that id and at that address.
    Started(String, String),
    /// It has ended, with that id.
    Ended(String),
}

/// What a point in the life of a session is told as.
pub fn session_status(browser: BrowserKind, point: SessionPoint) -> (r: Status)
    ensures
        r == match point {
            SessionPoint::Starting(url) => Status::SessionStarting { browser, url },
            SessionPoint::Started(session_id, url) => Status::SessionStarted {
                browser,
                session_id,
                url,
            },
            SessionPoint::Ended(session_id) => Status::SessionEnded { browser, session_id },
        },
{
    match point {
        SessionPoint::Starting(url) => Status::SessionStarting { browser, url },
        SessionPoint::Started(session_id, url) => Status::SessionStarted {
            browser,
            session_id,
            url,
        },
        SessionPoint::Ended(session_id) => Status::SessionEnded { browser, session_id },
    }
}

impl WebDriverManager {
    /// Start a session with the driver that runs at a port of the manager's host. The session has
    /// the manager's configuration, and holds what keeps the driver alive.
    pub fn launch<C: RemoteConnectionSync, H, G>(
        &self,
        port: u16,
        conn: &C,
        client: H,
        capabilities: RequestedCapabilities,
        guard: G,
    ) -> (r: WebDriverResult<SessionHandle<H, G>>)
        ensures
            match address::parsed_url(url_of(self.cfg.host, port)) {
                Err(f) => r matches Err(e) && e@ matches WebDriverErrorInner::ParseError(m) && m@
                    == "invalid driver url: "@ + f.message,
                Ok(url) => exists|started: WebDriverResult<(SessionId, JsonValue)>| #[trigger]
                    webdrivercommands::starts(
                        *conn,
                        capabilities.w3c@,
                        capabilities.plain@,
                        started,
                    ) && match started {
                        Err(e) => r == Err::<SessionHandle<H, G>, WebDriverError>(e),
                        Ok((id, caps)) => r matches Ok(h) && h@ == (HandleView {
                            client,
                            server_url: url,
                            session_id: id@,
                            capabilities: caps@,
                            config: self.web_driver_config,
                            quit: false,
                            driver_guard: Some(guard),
                        }),
                    },
            },
    {
        match driver_server(&self.cfg.host, port) {
            Ok(_) => {},
            Err(e) => return Err(e),
        }
        let started: WebDriverResult<(SessionId, JsonValue)> = start_session(
            conn,
            capabilities.w3c,
            capabilities.plain,
        );
        let ghost gstarted = started;
        assert(webdrivercommands::starts(
            *conn,
            capabilities.w3c@,
            capabilities.plain@,
            gstarted,
        ));
        match started {
            Ok((session_id, caps)) => SessionHandle::new_with_config_guard_and_caps(
                client,
                driver_url(&self.cfg.host, port).as_str(),
                session_id,
                self.web_driver_config.clone(),
                Some(guard),
                caps,
            ),
            Err(e) => Err(e),
        }
    }

    /// Construct an empty builder, with the configuration that sessions have by default.
    pub fn builder(web_driver_config: WebDriverConfig) -> (r: WebDriverManagerBuilder)
        ensures
            r.is_new(web_driver_config),
    {
        WebDriverManagerBuilder::new(web_driver_config)
    }

    /// The key of a driver for a browser at a version.
    pub open spec fn key_of(&self, browser: BrowserKind, version: Seq<char>) -> DriverKeyView {
        DriverKeyView { browser, version, host: self.cfg.host.place() }
    }

    /// The driver that is known for a browser at a version.
    pub open spec fn known(&self, browser: BrowserKind, version: Seq<char>) -> Option<u64> {
        self.drivers.driver(self.key_of(browser, version))
    }

    /// Whether the drivers that are known are those from before, but for one at a version.
    pub open spec fn has_recorded(
        &self,
        before: &WebDriverManager,
        browser: BrowserKind,
        version: Seq<char>,
        id: u64,
    ) -> bool {
        let key = before.key_of(browser, version);
        &&& self.drivers.driver(key) == Some(id)
        &&& self.drivers.next() == before.drivers.next()
        &&& forall|other: DriverKeyView|
            other != key ==> (#[trigger] self.drivers.driver(other)) == before.drivers.driver(other)
    }

    /// Whether a new driver is started: with the next number, which is then taken.
    pub open spec fn spawns(
        &self,
        before: &WebDriverManager,
        version: Seq<char>,
        binary: Seq<char>,
        state: SearchState,
        action: SearchAction,
    ) -> bool {
        let n = before.drivers.next();
        &&& state matches SearchState::Spawning { version: v, id } && v@ == version && id == n
        &&& action matches SearchAction::Spawn(b, id) && b@ == binary && id == n
        &&& self.drivers.next() == (if n == u64::MAX {
            0
        } else {
            n + 1
        })
        &&& forall|key: DriverKeyView|
            (#[trigger] self.drivers.driver(key)) == before.drivers.driver(key)
        &&& self.local_versions == before.local_versions
    }

    /// Whether a binary is put to use: a driver that is known is looked at first, and else a new
    /// one is started.
    pub open spec fn uses_binary(
        &self,
        before: &WebDriverManager,
        browser: BrowserKind,
        version: Seq<char>,
        binary: Seq<char>,
        state: SearchState,
        action: SearchAction,
    ) -> bool {
        match before.known(browser, version) {
            Some(known) => {
                &&& *self == *before
                &&& state matches SearchState::LookingAgain { version: v, binary: b, id } && v@
                    == version && b@ == binary && id == known
                &&& action == SearchAction::Look(known)
            },
            None => self.spawns(before, version, binary, state, action),
        }
    }

    /// Whether a version is fetched.
    pub open spec fn fetches(version: Seq<char>, state: SearchState, action: SearchAction) -> bool {
        &&& state matches SearchState::Fetching { version: v } && v@ == version
        &&& action matches SearchAction::Fetch(v) && v@ == version
    }

    /// Whether the version of the driver is resolved, given that of the local browser where it
    /// counts.
    pub open spec fn resolves(
        local: Option<Seq<char>>,
        state: SearchState,
        action: SearchAction,
    ) -> bool {
        &&& state is Resolving
        &&& action matches SearchAction::Resolve(l) && text::opt_text(l) == local
    }

    /// Whether a search ends with an action.
    pub open spec fn ends(state: SearchState, action: SearchAction, last: SearchAction) -> bool {
        state is Ended && action == last
    }

    /// Whether a search for a driver goes from one state to another when something has come of its
    /// last step, and what it does to the manager.
    ///
    /// A binary that was set by hand is used as it is. Else the version of the local browser is
    /// probed, where it counts and is not known yet, and the version of the driver resolved; then a
    /// driver of the version is used that is alive, or the binary fetched and a new one started.
    pub open spec fn goes_on(
        &self,
        before: &WebDriverManager,
        browser: BrowserKind,
        custom: Option<Seq<char>>,
        from: SearchState,
        event: SearchEvent,
        state: SearchState,
        action: SearchAction,
    ) -> bool {
        &&& self.cfg == before.cfg
        &&& self.web_driver_config == before.web_driver_config
        &&& match (from, event) {
            (SearchState::Start, SearchEvent::Begin) => match before.cfg.driver_paths.path(browser) {
                Some(binary) => self.uses_binary(
                    before,
                    browser,
                    "manual:"@ + binary@,
                    binary@,
                    state,
                    action,
                ),
                None => {
                    &&& *self == *before
                    &&& if before.cfg.version is MatchLocalBrowser {
                        match before.local_versions.version(browser, custom) {
                            Some(v) => Self::resolves(Some(v), state, action),
                            None => state is Probing && action is Probe,
                        }
                    } else {
                        Self::resolves(None, state, action)
                    }
                },
            },
            (SearchState::Probing, SearchEvent::Probed(Ok(version))) => {
                &&& self.drivers == before.drivers
                &&& self.local_versions.version(browser, custom) == Some(version@)
                &&& forall|k: BrowserKind, c: Option<Seq<char>>|
                    k != browser || c != custom ==> (#[trigger] self.local_versions.version(k, c))
                        == before.local_versions.version(k, c)
                &&& Self::resolves(Some(version@), state, action)
            },
            (SearchState::Resolving, SearchEvent::Resolved(Ok(version))) => {
                &&& *self == *before
                &&& match before.known(browser, version@) {
                    Some(known) => {
                        &&& state matches SearchState::Looking { version: v, id } && v@ == version@
                            && id == known
                        &&& action == SearchAction::Look(known)
                    },
                    None => Self::fetches(version@, state, action),
                }
            },
            (SearchState::Looking { version, id }, SearchEvent::Looked(alive)) => {
                &&& *self == *before
                &&& if alive {
                    Self::ends(state, action, SearchAction::Use(id))
                } else {
                    Self::fetches(version@, state, action)
                }
            },
            (
                SearchState::Fetching { version },
                SearchEvent::Fetched(Ok(binary)),
            ) => self.uses_binary(before, browser, version@, binary@, state, action),
            (
                SearchState::LookingAgain { version, binary, id },
                SearchEvent::Looked(alive),
            ) => if alive {
                *self == *before && Self::ends(state, action, SearchAction::Use(id))
            } else {
                self.spawns(before, version@, binary@, state, action)
            },
            (
                SearchState::Spawning { version, id },
                SearchEvent::Spawned(Ok(_)),
            ) => match before.known(browser, version@) {
                Some(other) => {
                    &&& *self == *before
                    &&& state matches SearchState::LookingLast { version: v, id: i, known } && v@
                        == version@ && i == id && known == other
                    &&& action == SearchAction::Look(other)
                },
                None => {
                    &&& self.has_recorded(before, browser, version@, id)
                    &&& self.local_versions == before.local_versions
                    &&& Self::ends(state, action, SearchAction::Use(id))
                },
            },
            (
                SearchState::LookingLast { version, id, known },
                SearchEvent::Looked(alive),
            ) => if alive {
                *self == *before && Self::ends(state, action, SearchAction::Use(known))
            } else {
                &&& self.has_recorded(before, browser, version@, id)
                &&& self.local_versions == before.local_versions
                &&& Self::ends(state, action, SearchAction::Use(id))
            },
            (_, SearchEvent::Probed(Err(e))) => *self == *before && Self::ends(
                state,
                action,
                SearchAction::Fail(e),
            ),
            (_, SearchEvent::Resolved(Err(e))) => *self == *before && Self::ends(
                state,
                action,
                SearchAction::Fail(e),
            ),
            (_, SearchEvent::Fetched(Err(e))) => *self == *before && Self::ends(
                state,
                action,
                SearchAction::Fail(e),
            ),
            (_, SearchEvent::Spawned(Err(e))) => *self == *before && Self::ends(
                state,
                action,
                SearchAction::Fail(e),
            ),
            _ => true,
        }
    }

    /// The key of a driver for a browser at a version.
    fn key(&self, browser: BrowserKind, version: &String) -> (r: DriverKey)
        ensures
            r@ == self.key_of(browser, version@),
    {
        DriverKey { browser, version: version.clone(), host: self.cfg.host.clone() }
    }

    /// Starts a new driver.
    fn spawn(&mut self, version: String, binary: String) -> (r: (SearchState, SearchAction))
        ensures
            final(self).spawns(old(self), version@, binary@, r.0, r.1),
            final(self).cfg == old(self).cfg,
            final(self).web_driver_config == old(self).web_driver_config,
    {
        let id: u64 = self.drivers.mint_driver_id();
        (SearchState::Spawning { version, id }, SearchAction::Spawn(binary, id))
    }

    /// Puts a binary to use.
    fn spawn_or_reuse(&mut self, browser: BrowserKind, version: String, binary: String) -> (r: (
        SearchState,
        SearchAction,
    ))
        ensures
            final(self).uses_binary(old(self), browser, version@, binary@, r.0, r.1),
            final(self).cfg == old(self).cfg,
            final(self).web_driver_config == old(self).web_driver_config,
    {
        match self.drivers.find(&self.key(browser, &version)) {
            Some(id) => (
                SearchState::LookingAgain { version, binary, id },
                SearchAction::Look(id),
            ),
            None => self.spawn(version, binary),
        }
    }

    /// Goes on with the search for a driver for a browser, whose binary the capabilities may name:
    /// how far it has come, and what to do next.
    ///
    /// If a driver process for the same browser, version and host is alive, it is used. Otherwise
    /// a new one is fetched if needed and started.
    pub fn ensure_driver(
        &mut self,
        browser: BrowserKind,
        custom: &Option<String>,
        state: SearchState,
        event: SearchEvent,
    ) -> (r: (SearchState, SearchAction))
        requires
            fits(state, event),
        ensures
            final(self).goes_on(
                old(self),
                browser,
                text::opt_text(*custom),
                state,
                event,
                r.0,
                r.1,
            ),
    {
        match event {
            SearchEvent::Begin => match self.cfg.driver_paths.get(browser) {
                Some(binary) => {
                    let version: String = manual_version(binary.as_str());
                    self.spawn_or_reuse(browser, version, binary)
                },
                None => match &self.cfg.version {
                    DriverVersion::MatchLocalBrowser => match self.local_versions.find(
                        browser,
                        custom,
                    ) {
                        Some(v) => (SearchState::Resolving, SearchAction::Resolve(Some(v))),
                        None => (SearchState::Probing, SearchAction::Probe),
                    },
                    _ => (SearchState::Resolving, SearchAction::Resolve(None)),
                },
            },
            SearchEvent::Probed(Ok(version)) => {
                let binary: Option<String> = match custom {
                    Some(c) => Some(c.clone()),
                    None => None,
                };
                self.local_versions.record(browser, binary, version.clone());
                (SearchState::Resolving, SearchAction::Resolve(Some(version)))
            },
            SearchEvent::Resolved(Ok(version)) => match self.drivers.find(
                &self.key(browser, &version),
            ) {
                Some(id) => (SearchState::Looking { version, id }, SearchAction::Look(id)),
                None => {
                    let fetched: String = version.clone();
                    (SearchState::Fetching { version }, SearchAction::Fetch(fetched))
                },
            },
            SearchEvent::Fetched(Ok(binary)) => match state {
                SearchState::Fetching { version } => self.spawn_or_reuse(browser, version, binary),
                _ => (SearchState::Ended, SearchAction::Probe),
            },
            SearchEvent::Looked(alive) => match state {
                SearchState::Looking { version, id } => if alive {
                    (SearchState::Ended, SearchAction::Use(id))
                } else {
                    let fetched: String = version.clone();
                    (SearchState::Fetching { version }, SearchAction::Fetch(fetched))
                },
                SearchState::LookingAgain { version, binary, id } => if alive {
                    (SearchState::Ended, SearchAction::Use(id))
                } else {
                    self.spawn(version, binary)
                },
                SearchState::LookingLast { version, id, known } => if alive {
                    (SearchState::Ended, SearchAction::Use(known))
                } else {
                    let key: DriverKey = self.key(browser, &version);
                    self.drivers.record(key, id);
                    (SearchState::Ended, SearchAction::Use(id))
                },
                _ => (SearchState::Ended, SearchAction::Probe),
            },
            SearchEvent::Spawned(Ok(_)) => match state {
                SearchState::Spawning { version, id } => {
                    let key: DriverKey = self.key(browser, &version);
                    match self.drivers.find(&key) {
                        Some(known) => (
                            SearchState::LookingLast { version, id, known },
                            SearchAction::Look(known),
                        ),
                        None => {
                            self.drivers.record(key, id);
                            (SearchState::Ended, SearchAction::Use(id))
                        },
                    }
                },
                _ => (SearchState::Ended, SearchAction::Probe),
            },
            SearchEvent::Probed(Err(e)) => (SearchState::Ended, SearchAction::Fail(e)),
            SearchEvent::Resolved(Err(e)) => (SearchState::Ended, SearchAction::Fail(e)),
            SearchEvent::Fetched(Err(e)) => (SearchState::Ended, SearchAction::Fail(e)),
            SearchEvent::Spawned(Err(e)) => (SearchState::Ended, SearchAction::Fail(e)),
        }
    }
}

/// How far the search for a driver has come where only a binary is left to put to use.
pub open spec fn has_binary(state: SearchState) -> bool {
    state is LookingAgain || state is Spawning || state is LookingLast || state is Ended
}

/// A driver binary that was set by hand is never probed for, resolved or fetched: neither at the
/// start of a search nor at any step after it.
pub proof fn lemma_manual_binary(
    m: WebDriverManager,
    after: WebDriverManager,
    browser: BrowserKind,
    custom: Option<Seq<char>>,
    from: SearchState,
    event: SearchEvent,
    state: SearchState,
    action: SearchAction,
)
    requires
        fits(from, event),
        after.goes_on(&m, browser, custom, from, event, state, action),
        from is Start ==> m.cfg.driver_paths.path(browser) is Some,
        from is Start || has_binary(from),
    ensures
        has_binary(state),
        !(action is Probe) && !(action is Resolve) && !(action is Fetch),
{
}

/// A driver that is known and alive is used, and no other one is started: from wherever it is
/// looked at, the search ends with it.
pub proof fn lemma_live_driver_is_used(
    m: WebDriverManager,
    after: WebDriverManager,
    browser: BrowserKind,
    custom: Option<Seq<char>>,
    from: SearchState,
    state: SearchState,
    action: SearchAction,
)
    requires
        fits(from, SearchEvent::Looked(true)),
        after.goes_on(&m, browser, custom, from, SearchEvent::Looked(true), state, action),
    ensures
        state is Ended,
        after == m,
        match from {
            SearchState::Looking { id, .. } => action == SearchAction::Use(id),
            SearchState::LookingAgain { id, .. } => action == SearchAction::Use(id),
            SearchState::LookingLast { known, .. } => action == SearchAction::Use(known),
            _ => false,
        },
{
}

/// A local browser is probed once: when its version was found, the next search for a driver goes
/// by that version.
pub proof fn lemma_probed_once(
    m: WebDriverManager,
    probed: WebDriverManager,
    after: WebDriverManager,
    browser: BrowserKind,
    custom: Option<Seq<char>>,
    version: String,
    state: SearchState,
    action: SearchAction,
    next: SearchState,
    second: SearchAction,
)
    requires
        m.cfg.version is MatchLocalBrowser,
        m.cfg.driver_paths.path(browser) is None,
        probed.goes_on(
            &m,
            browser,
            custom,
            SearchState::Probing,
            SearchEvent::Probed(Ok(version)),
            state,
            action,
        ),
        after.goes_on(
            &probed,
            browser,
            custom,
            SearchState::Start,
            SearchEvent::Begin,
            next,
            second,
        ),
    ensures
        second matches SearchAction::Resolve(Some(v)) && v@ == version@,
        after == probed,
{
}

/// A driver that was started is the one that is known from then on.
pub proof fn lemma_started_is_known(
    m: WebDriverManager,
    after: WebDriverManager,
    browser: BrowserKind,
    custom: Option<Seq<char>>,
    version: String,
    id: u64,
    state: SearchState,
    action: SearchAction,
)
    requires
        m.known(browser, version@) is None,
        after.goes_on(
            &m,
            browser,
            custom,
            SearchState::Spawning { version, id },
            SearchEvent::Spawned(Ok(())),
            state,
            action,
        ),
    ensures
        action == SearchAction::Use(id),
        after.known(browser, version@) == Some(id),
{
}

/// A driver is told to be reused exactly where the search ends with one that ran already.
pub proof fn lemma_reuse_is_told(
    m: WebDriverManager,
    after: WebDriverManager,
    browser: BrowserKind,
    custom: Option<Seq<char>>,
    from: SearchState,
    event: SearchEvent,
    state: SearchState,
    action: SearchAction,
    url: String,
)
    requires
        fits(from, event),
        after.goes_on(&m, browser, custom, from, event, state, action),
    ensures
        status_of_search(browser, from, event, url) matches Some(Status::DriverReused { .. })
            <==> action is Use && event == SearchEvent::Looked(true),
{
}

} // verus!
