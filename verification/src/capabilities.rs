//! The capabilities that a session is asked for.
use crate::error::{WebDriverError, WebDriverResult};
use crate::http;
use crate::http::decode_error;
use crate::json;
use crate::json::{Json, JsonValue, Object};
use crate::reply::FromValue;
use crate::text;
use crate::text::text_eq;
use vstd::prelude::*;

verus! {

/// What can be written as a value.
pub trait ToValue: Sized {
    /// The value.
    spec fn as_json(&self) -> Json;

    /// The value.
    fn to_value(self) -> (r: JsonValue)
        ensures
            r@ == self.as_json(),
    ;
}

impl ToValue for JsonValue {
    open spec fn as_json(&self) -> Json {
        self@
    }

    fn to_value(self) -> (r: JsonValue) {
        self
    }
}

impl ToValue for &str {
    open spec fn as_json(&self) -> Json {
        Json::Str(self@)
    }

    fn to_value(self) -> (r: JsonValue) {
        JsonValue::text(self)
    }
}

impl ToValue for String {
    open spec fn as_json(&self) -> Json {
        Json::Str(self@)
    }

    fn to_value(self) -> (r: JsonValue) {
        JsonValue::String(self)
    }
}

impl ToValue for bool {
    open spec fn as_json(&self) -> Json {
        Json::Bool(*self)
    }

    fn to_value(self) -> (r: JsonValue) {
        JsonValue::Bool(self)
    }
}

impl ToValue for u16 {
    open spec fn as_json(&self) -> Json {
        Json::Int(*self as int)
    }

    fn to_value(self) -> (r: JsonValue) {
        JsonValue::Unsigned(self as u64)
    }
}

impl ToValue for u64 {
    open spec fn as_json(&self) -> Json {
        Json::Int(*self as int)
    }

    fn to_value(self) -> (r: JsonValue) {
        JsonValue::Unsigned(self)
    }
}

impl ToValue for i64 {
    open spec fn as_json(&self) -> Json {
        Json::Int(*self as int)
    }

    fn to_value(self) -> (r: JsonValue) {
        JsonValue::Signed(self)
    }
}

impl ToValue for Vec<String> {
    open spec fn as_json(&self) -> Json {
        Json::Arr(json::strs(text::texts(self@)))
    }

    fn to_value(self) -> (r: JsonValue) {
        let mut items: Vec<JsonValue> = Vec::new();
        let mut i: usize = 0;
        while i < self.len()
            invariant
                i <= self.len(),
                json::items_view(items@) == json::strs(text::texts(self@)).take(i as int),
            decreases self.len() - i,
        {
            let ghost before = items@;
            let item: JsonValue = JsonValue::text(self[i].as_str());
            items.push(item);
            proof {
                json::lemma_items_view_push(before, item);
                assert(json::strs(text::texts(self@)).take(i + 1) == json::strs(
                    text::texts(self@),
                ).take(i as int).push(item@));
            }
            i = i + 1;
        }
        assert(json::strs(text::texts(self@)).take(i as int) == json::strs(text::texts(self@)));
        JsonValue::Array(items)
    }
}

/// The action to take when an alert is encountered.
#[derive(Debug, Clone, Copy, PartialEq, Eq, Structural)]
pub enum AlertBehaviour {
    /// Automatically accept all alerts.
    Accept,
    /// Automatically dismiss all alerts.
    Dismiss,
    /// Ignore all alerts.
    Ignore,
}

impl AlertBehaviour {
    /// The name in a request.
    pub open spec fn name(self) -> Seq<char> {
        match self {
            AlertBehaviour::Accept => "accept"@,
            AlertBehaviour::Dismiss => "dismiss"@,
            AlertBehaviour::Ignore => "ignore"@,
        }
    }

    /// The name in a request.
    pub fn as_str(&self) -> (r: &'static str)
        ensures
            r@ == self.name(),
    {
        match self {
            AlertBehaviour::Accept => "accept",
            AlertBehaviour::Dismiss => "dismiss",
            AlertBehaviour::Ignore => "ignore",
        }
    }
}

impl ToValue for AlertBehaviour {
    open spec fn as_json(&self) -> Json {
        Json::Str(self.name())
    }

    fn to_value(self) -> (r: JsonValue) {
        JsonValue::text(self.as_str())
    }
}

/// The automatic scrolling behaviour for this session.
#[derive(Debug, Clone, Copy, PartialEq, Eq, Structural)]
pub enum ScrollBehaviour {
    /// Scroll until the element is at the top of the screen, if possible.
    Top,
    /// Scroll until the element is at the bottom of the screen, if possible.
    Bottom,
}

impl ScrollBehaviour {
    /// The name in a request.
    pub open spec fn name(self) -> Seq<char> {
        match self {
            ScrollBehaviour::Top => "Top"@,
            ScrollBehaviour::Bottom => "Bottom"@,
        }
    }

    /// The name in a request.
    pub fn as_str(&self) -> (r: &'static str)
        ensures
            r@ == self.name(),
    {
        match self {
            ScrollBehaviour::Top => "Top",
            ScrollBehaviour::Bottom => "Bottom",
        }
    }
}

impl ToValue for ScrollBehaviour {
    open spec fn as_json(&self) -> Json {
        Json::Str(self.name())
    }

    fn to_value(self) -> (r: JsonValue) {
        JsonValue::text(self.as_str())
    }
}

/// The page load strategy for this session.
#[derive(Debug, Clone, Copy, PartialEq, Eq, Structural)]
pub enum PageLoadStrategy {
    /// Wait for full page loading (the default).
    Normal,
    /// Wait for the DOMContentLoaded event (html content downloaded and parsed only).
    Eager,
    /// Return immediately after the initial HTML content is downloaded.
    Nothing,
}

impl PageLoadStrategy {
    /// The name in a request.
    pub open spec fn name(self) -> Seq<char> {
        match self {
            PageLoadStrategy::Normal => "normal"@,
            PageLoadStrategy::Eager => "eager"@,
            PageLoadStrategy::Nothing => "none"@,
        }
    }

    /// The name in a request.
    pub fn as_str(&self) -> (r: &'static str)
        ensures
            r@ == self.name(),
    {
        match self {
            PageLoadStrategy::Normal => "normal",
            PageLoadStrategy::Eager => "eager",
            PageLoadStrategy::Nothing => "none",
        }
    }
}

impl ToValue for PageLoadStrategy {
    open spec fn as_json(&self) -> Json {
        Json::Str(self.name())
    }

    fn to_value(self) -> (r: JsonValue) {
        JsonValue::text(self.as_str())
    }
}

/// The page load strategy with a name.
pub open spec fn page_load_strategy_named(name: Seq<char>) -> Option<PageLoadStrategy> {
    if name == "normal"@ {
        Some(PageLoadStrategy::Normal)
    } else if name == "eager"@ {
        Some(PageLoadStrategy::Eager)
    } else if name == "none"@ {
        Some(PageLoadStrategy::Nothing)
    } else {
        None
    }
}

/// The page load strategy with a name.
pub fn read_page_load_strategy(s: &str) -> (r: Option<PageLoadStrategy>)
    ensures
        r == page_load_strategy_named(s@),
{
    if text_eq(s, "normal") {
        Some(PageLoadStrategy::Normal)
    } else if text_eq(s, "eager") {
        Some(PageLoadStrategy::Eager)
    } else if text_eq(s, "none") {
        Some(PageLoadStrategy::Nothing)
    } else {
        None
    }
}

impl FromValue for PageLoadStrategy {
    open spec fn expected() -> Seq<char> {
        "a page load strategy"@
    }

    open spec fn valid(v: Json) -> bool {
        v matches Json::Str(s) && page_load_strategy_named(s) is Some
    }

    open spec fn reads(v: Json, t: Self) -> bool {
        v matches Json::Str(s) && page_load_strategy_named(s) == Some(t)
    }

    fn expected_text() -> (r: &'static str) {
        "a page load strategy"
    }

    fn from_value(v: &JsonValue) -> (r: Option<Self>) {
        match v.as_str() {
            Some(s) => read_page_load_strategy(s),
            None => None,
        }
    }
}

/// A page load strategy that is written is read back.
pub proof fn lemma_page_load_strategy_round_trip(t: PageLoadStrategy)
    ensures
        <PageLoadStrategy as FromValue>::valid(Json::Str(t.name())),
        <PageLoadStrategy as FromValue>::reads(Json::Str(t.name()), t),
{
    reveal_strlit("normal");
    reveal_strlit("eager");
    reveal_strlit("none");
    assert("normal"@.len() != "eager"@.len());
    assert("normal"@.len() != "none"@.len());
    assert("eager"@.len() != "none"@.len());
}

impl Default for PageLoadStrategy {
    fn default() -> (r: Self)
        ensures
            r == PageLoadStrategy::Normal,
    {
        PageLoadStrategy::Normal
    }
}

/// LogLevel used by `geckodriver`.
#[derive(Debug, Clone, Copy, PartialEq, Eq, Structural)]
pub enum LogLevel {
    /// Trace log level.
    Trace,
    /// Debug log level.
    Debug,
    /// Config log level.
    Config,
    /// Info log level.
    Info,
    /// Warn log level.
    Warn,
    /// Error log level.
    Error,
    /// Fatal log level.
    Fatal,
    /// Default log level.
    Default,
}

impl LogLevel {
    /// The name in a request.
    pub open spec fn name(self) -> Seq<char> {
        match self {
            LogLevel::Trace => "trace"@,
            LogLevel::Debug => "debug"@,
            LogLevel::Config => "config"@,
            LogLevel::Info => "info"@,
            LogLevel::Warn => "warn"@,
            LogLevel::Error => "error"@,
            LogLevel::Fatal => "fatal"@,
            LogLevel::Default => "default"@,
        }
    }

    /// The name in a request.
    pub fn as_str(&self) -> (r: &'static str)
        ensures
            r@ == self.name(),
    {
        match self {
            LogLevel::Trace => "trace",
            LogLevel::Debug => "debug",
            LogLevel::Config => "config",
            LogLevel::Info => "info",
            LogLevel::Warn => "warn",
            LogLevel::Error => "error",
            LogLevel::Fatal => "fatal",
            LogLevel::Default => "default",
        }
    }
}

impl ToValue for LogLevel {
    open spec fn as_json(&self) -> Json {
        Json::Str(self.name())
    }

    fn to_value(self) -> (r: JsonValue) {
        JsonValue::text(self.as_str())
    }
}

/// The log level with a name.
pub open spec fn log_level_named(name: Seq<char>) -> Option<LogLevel> {
    if name == "trace"@ {
        Some(LogLevel::Trace)
    } else if name == "debug"@ {
        Some(LogLevel::Debug)
    } else if name == "config"@ {
        Some(LogLevel::Config)
    } else if name == "info"@ {
        Some(LogLevel::Info)
    } else if name == "warn"@ {
        Some(LogLevel::Warn)
    } else if name == "error"@ {
        Some(LogLevel::Error)
    } else if name == "fatal"@ {
        Some(LogLevel::Fatal)
    } else if name == "default"@ {
        Some(LogLevel::Default)
    } else {
        None
    }
}

/// The log level with a name.
pub fn read_log_level(s: &str) -> (r: Option<LogLevel>)
    ensures
        r == log_level_named(s@),
{
    if text_eq(s, "trace") {
        Some(LogLevel::Trace)
    } else if text_eq(s, "debug") {
        Some(LogLevel::Debug)
    } else if text_eq(s, "config") {
        Some(LogLevel::Config)
    } else if text_eq(s, "info") {
        Some(LogLevel::Info)
    } else if text_eq(s, "warn") {
        Some(LogLevel::Warn)
    } else if text_eq(s, "error") {
        Some(LogLevel::Error)
    } else if text_eq(s, "fatal") {
        Some(LogLevel::Fatal)
    } else if text_eq(s, "default") {
        Some(LogLevel::Default)
    } else {
        None
    }
}

impl FromValue for LogLevel {
    open spec fn expected() -> Seq<char> {
        "a log level"@
    }

    open spec fn valid(v: Json) -> bool {
        v matches Json::Str(s) && log_level_named(s) is Some
    }

    open spec fn reads(v: Json, t: Self) -> bool {
        v matches Json::Str(s) && log_level_named(s) == Some(t)
    }

    fn expected_text() -> (r: &'static str) {
        "a log level"
    }

    fn from_value(v: &JsonValue) -> (r: Option<Self>) {
        match v.as_str() {
            Some(s) => read_log_level(s),
            None => None,
        }
    }
}

/// A log level that is written is read back.
pub proof fn lemma_log_level_round_trip(t: LogLevel)
    ensures
        <LogLevel as FromValue>::valid(Json::Str(t.name())),
        <LogLevel as FromValue>::reads(Json::Str(t.name()), t),
{
    reveal_strlit("trace");
    reveal_strlit("debug");
    reveal_strlit("config");
    reveal_strlit("info");
    reveal_strlit("warn");
    reveal_strlit("error");
    reveal_strlit("fatal");
    reveal_strlit("default");
    assert("trace"@[0] != "debug"@[0]);
    assert("trace"@.len() != "config"@.len());
    assert("trace"@.len() != "info"@.len());
    assert("trace"@.len() != "warn"@.len());
    assert("trace"@[0] != "error"@[0]);
    assert("trace"@[0] != "fatal"@[0]);
    assert("trace"@.len() != "default"@.len());
    assert("debug"@.len() != "config"@.len());
    assert("debug"@.len() != "info"@.len());
    assert("debug"@.len() != "warn"@.len());
    assert("debug"@[0] != "error"@[0]);
    assert("debug"@[0] != "fatal"@[0]);
    assert("debug"@.len() != "default"@.len());
    assert("config"@.len() != "info"@.len());
    assert("config"@.len() != "warn"@.len());
    assert("config"@.len() != "error"@.len());
    assert("config"@.len() != "fatal"@.len());
    assert("config"@.len() != "default"@.len());
    assert("info"@[0] != "warn"@[0]);
    assert("info"@.len() != "error"@.len());
    assert("info"@.len() != "fatal"@.len());
    assert("info"@.len() != "default"@.len());
    assert("warn"@.len() != "error"@.len());
    assert("warn"@.len() != "fatal"@.len());
    assert("warn"@.len() != "default"@.len());
    assert("error"@[0] != "fatal"@[0]);
    assert("error"@.len() != "default"@.len());
    assert("fatal"@.len() != "default"@.len());
}

impl Default for LogLevel {
    fn default() -> (r: Self)
        ensures
            r == LogLevel::Default,
    {
        LogLevel::Default
    }
}

/// Log level for the webdriver server.
#[derive(Debug, Clone, Copy, PartialEq, Eq, Structural)]
pub enum LoggingPrefsLogLevel {
    /// Disable logging.
    Off,
    /// Severe log level.
    Severe,
    /// Warning log level.
    Warning,
    /// Info log level.
    Info,
    /// Config log level.
    Config,
    /// Fine log level.
    Fine,
    /// Finer log level.
    Finer,
    /// Finest log level.
    Finest,
    /// All logs.
    All,
}

impl LoggingPrefsLogLevel {
    /// The name in a request.
    pub open spec fn name(self) -> Seq<char> {
        match self {
            LoggingPrefsLogLevel::Off => "OFF"@,
            LoggingPrefsLogLevel::Severe => "SEVERE"@,
            LoggingPrefsLogLevel::Warning => "WARNING"@,
            LoggingPrefsLogLevel::Info => "INFO"@,
            LoggingPrefsLogLevel::Config => "CONFIG"@,
            LoggingPrefsLogLevel::Fine => "FINE"@,
            LoggingPrefsLogLevel::Finer => "FINER"@,
            LoggingPrefsLogLevel::Finest => "FINEST"@,
            LoggingPrefsLogLevel::All => "ALL"@,
        }
    }

    /// The name in a request.
    pub fn as_str(&self) -> (r: &'static str)
        ensures
            r@ == self.name(),
    {
        match self {
            LoggingPrefsLogLevel::Off => "OFF",
            LoggingPrefsLogLevel::Severe => "SEVERE",
            LoggingPrefsLogLevel::Warning => "WARNING",
            LoggingPrefsLogLevel::Info => "INFO",
            LoggingPrefsLogLevel::Config => "CONFIG",
            LoggingPrefsLogLevel::Fine => "FINE",
            LoggingPrefsLogLevel::Finer => "FINER",
            LoggingPrefsLogLevel::Finest => "FINEST",
            LoggingPrefsLogLevel::All => "ALL",
        }
    }
}

impl ToValue for LoggingPrefsLogLevel {
    open spec fn as_json(&self) -> Json {
        Json::Str(self.name())
    }

    fn to_value(self) -> (r: JsonValue) {
        JsonValue::text(self.as_str())
    }
}

/// Log level for Firefox profile.
#[derive(Debug, Clone, Copy, PartialEq, Eq, Structural)]
pub enum FirefoxProfileLogDriver {
    /// Debug log level.
    Debug,
    /// Info log level.
    Info,
    /// Warning log level.
    Warning,
    /// Error log level.
    Error,
    /// Disable logging.
    Off,
}

impl FirefoxProfileLogDriver {
    /// The name in a request.
    pub open spec fn name(self) -> Seq<char> {
        match self {
            FirefoxProfileLogDriver::Debug => "DEBUG"@,
            FirefoxProfileLogDriver::Info => "INFO"@,
            FirefoxProfileLogDriver::Warning => "WARNING"@,
            FirefoxProfileLogDriver::Error => "ERROR"@,
            FirefoxProfileLogDriver::Off => "OFF"@,
        }
    }

    /// The name in a request.
    pub fn as_str(&self) -> (r: &'static str)
        ensures
            r@ == self.name(),
    {
        match self {
            FirefoxProfileLogDriver::Debug => "DEBUG",
            FirefoxProfileLogDriver::Info => "INFO",
            FirefoxProfileLogDriver::Warning => "WARNING",
            FirefoxProfileLogDriver::Error => "ERROR",
            FirefoxProfileLogDriver::Off => "OFF",
        }
    }
}

impl ToValue for FirefoxProfileLogDriver {
    open spec fn as_json(&self) -> Json {
        Json::Str(self.name())
    }

    fn to_value(self) -> (r: JsonValue) {
        JsonValue::text(self.as_str())
    }
}

/// The proxy configuration for this session.
#[derive(Debug)]
pub enum Proxy {
    /// Direct connection.
    Direct,
    /// Manual proxy configuration.
    Manual {
        /// FTP proxy.
        ftp_proxy: Option<String>,
        /// HTTP proxy.
        http_proxy: Option<String>,
        /// SSL proxy.
        ssl_proxy: Option<String>,
        /// SOCKS proxy.
        socks_proxy: Option<String>,
        /// SOCKS version.
        socks_version: Option<u8>,
        /// SOCKS username.
        socks_username: Option<String>,
        /// SOCKS password.
        socks_password: Option<String>,
        /// Urls to skip the proxy.
        no_proxy: Option<String>,
    },
    /// Autoconfiguration url.
    AutoConfig { url: String },
    /// Auto-detect proxy.
    AutoDetect,
    /// Use the system proxy configuration.
    System,
}

/// A text that is there, as a value.
pub open spec fn some_text(s: Option<String>) -> Option<Json> {
    match s {
        Some(s) => Some(Json::Str(s@)),
        None => None,
    }
}

/// A number that is there, as a value.
pub open spec fn some_number(n: Option<u8>) -> Option<Json> {
    match n {
        Some(n) => Some(Json::Int(n as int)),
        None => None,
    }
}

/// Sets a member where there is a text for it.
fn insert_text(o: &mut Object, name: &str, s: Option<String>)
    ensures
        final(o)@ == json::with_member(old(o)@, name@, some_text(s)),
{
    match s {
        Some(s) => o.insert(name, JsonValue::String(s)),
        None => {},
    }
}

impl ToValue for Proxy {
    open spec fn as_json(&self) -> Json {
        match self {
            Proxy::Direct => json::obj1("proxyType"@, Json::Str("direct"@)),
            Proxy::Manual {
                ftp_proxy,
                http_proxy,
                ssl_proxy,
                socks_proxy,
                socks_version,
                socks_username,
                socks_password,
                no_proxy,
            } => {
                let m = Map::<Seq<char>, Json>::empty().insert("proxyType"@, Json::Str("manual"@));
                let m = json::with_member(m, "ftpProxy"@, some_text(*ftp_proxy));
                let m = json::with_member(m, "httpProxy"@, some_text(*http_proxy));
                let m = json::with_member(m, "sslProxy"@, some_text(*ssl_proxy));
                let m = json::with_member(m, "socksProxy"@, some_text(*socks_proxy));
                let m = json::with_member(m, "socksVersion"@, some_number(*socks_version));
                let m = json::with_member(m, "socksUsername"@, some_text(*socks_username));
                let m = json::with_member(m, "socksPassword"@, some_text(*socks_password));
                let m = json::with_member(m, "noProxy"@, some_text(*no_proxy));
                Json::Obj(m)
            },
            Proxy::AutoConfig { url } => json::obj2(
                "proxyType"@,
                Json::Str("pac"@),
                "proxyAutoconfigUrl"@,
                Json::Str(url@),
            ),
            Proxy::AutoDetect => json::obj1("proxyType"@, Json::Str("autodetect"@)),
            Proxy::System => json::obj1("proxyType"@, Json::Str("system"@)),
        }
    }

    fn to_value(self) -> (r: JsonValue) {
        match self {
            Proxy::Direct => JsonValue::object1("proxyType", JsonValue::text("direct")),
            Proxy::Manual {
                ftp_proxy,
                http_proxy,
                ssl_proxy,
                socks_proxy,
                socks_version,
                socks_username,
                socks_password,
                no_proxy,
            } => {
                let mut o: Object = Object::new();
                o.insert("proxyType", JsonValue::text("manual"));
                insert_text(&mut o, "ftpProxy", ftp_proxy);
                insert_text(&mut o, "httpProxy", http_proxy);
                insert_text(&mut o, "sslProxy", ssl_proxy);
                insert_text(&mut o, "socksProxy", socks_proxy);
                match socks_version {
                    Some(n) => o.insert("socksVersion", JsonValue::Unsigned(n as u64)),
                    None => {},
                }
                insert_text(&mut o, "socksUsername", socks_username);
                insert_text(&mut o, "socksPassword", socks_password);
                insert_text(&mut o, "noProxy", no_proxy);
                JsonValue::Object(o)
            },
            Proxy::AutoConfig { url } => JsonValue::object2(
                "proxyType",
                JsonValue::text("pac"),
                "proxyAutoconfigUrl",
                JsonValue::String(url),
            ),
            Proxy::AutoDetect => JsonValue::object1("proxyType", JsonValue::text("autodetect")),
            Proxy::System => JsonValue::object1("proxyType", JsonValue::text("system")),
        }
    }
}

/// A capability.
pub open spec fn capability(caps: Map<Seq<char>, Json>, key: Seq<char>) -> Option<Json> {
    if caps.contains_key(key) {
        Some(caps[key])
    } else {
        None
    }
}

/// A capability that is a boolean.
pub open spec fn flag_capability(caps: Map<Seq<char>, Json>, key: Seq<char>) -> Option<bool> {
    match capability(caps, key) {
        Some(Json::Bool(b)) => Some(b),
        _ => None,
    }
}

/// Methods for setting capabilities.
pub trait CapabilitiesHelper: Sized {
    /// The capabilities.
    spec fn caps(&self) -> Map<Seq<char>, Json>;

    /// Get an immutable reference to the capability with the specified name.
    fn _get(&self, key: &str) -> (r: Option<&JsonValue>)
        ensures
            json::opt_ref_view(r) == capability(self.caps(), key@),
    ;

    /// Set the specified capability at the root level.
    fn insert_base_capability(&mut self, key: String, value: JsonValue)
        ensures
            final(self).caps() == old(self).caps().insert(key@, value@),
    ;

    /// Add any Serialize-able object to the capabilities under the specified key.
    fn set_base_capability<T: ToValue>(&mut self, key: &str, value: T) -> (r: WebDriverResult<()>)
        ensures
            r is Ok,
            final(self).caps() == old(self).caps().insert(key@, value.as_json()),
    {
        self.insert_base_capability(key.to_owned(), value.to_value());
        Ok(())
    }

    /// Set the desired browser version.
    fn set_version(&mut self, version: &str) -> (r: WebDriverResult<()>)
        ensures
            r is Ok,
            final(self).caps() == old(self).caps().insert("version"@, Json::Str(version@)),
    {
        self.set_base_capability("version", version)
    }

    /// Set the desired browser platform.
    fn set_platform(&mut self, platform: &str) -> (r: WebDriverResult<()>)
        ensures
            r is Ok,
            final(self).caps() == old(self).caps().insert("platform"@, Json::Str(platform@)),
    {
        self.set_base_capability("platform", platform)
    }

    /// Set whether the session supports executing user-supplied Javascript.
    fn set_javascript_enabled(&mut self, enabled: bool) -> (r: WebDriverResult<()>)
        ensures
            r is Ok,
            final(self).caps() == old(self).caps().insert("javascriptEnabled"@, Json::Bool(enabled)),
    {
        self.set_base_capability("javascriptEnabled", enabled)
    }

    /// Set whether the session can interact with database storage.
    fn set_database_enabled(&mut self, enabled: bool) -> (r: WebDriverResult<()>)
        ensures
            r is Ok,
            final(self).caps() == old(self).caps().insert("databaseEnabled"@, Json::Bool(enabled)),
    {
        self.set_base_capability("databaseEnabled", enabled)
    }

    /// Set whether the session can set and query the browser's location context.
    fn set_location_context_enabled(&mut self, enabled: bool) -> (r: WebDriverResult<()>)
        ensures
            r is Ok,
            final(self).caps() == old(self).caps().insert("locationContextEnabled"@, Json::Bool(enabled)),
    {
        self.set_base_capability("locationContextEnabled", enabled)
    }

    /// Set whether the session can interact with the application cache.
    fn set_application_cache_enabled(&mut self, enabled: bool) -> (r: WebDriverResult<()>)
        ensures
            r is Ok,
            final(self).caps() == old(self).caps().insert("applicationCacheEnabled"@, Json::Bool(enabled)),
    {
        self.set_base_capability("applicationCacheEnabled", enabled)
    }

    /// Set whether the session can query for the browser's connectivity and disable it if desired.
    fn set_browser_connection_enabled(&mut self, enabled: bool) -> (r: WebDriverResult<()>)
        ensures
            r is Ok,
            final(self).caps() == old(self).caps().insert("browserConnectionEnabled"@, Json::Bool(enabled)),
    {
        self.set_base_capability("browserConnectionEnabled", enabled)
    }

    /// Set whether the session supports interactions with local storage.
    fn set_web_storage_enabled(&mut self, enabled: bool) -> (r: WebDriverResult<()>)
        ensures
            r is Ok,
            final(self).caps() == old(self).caps().insert("webStorageEnabled"@, Json::Bool(enabled)),
    {
        self.set_base_capability("webStorageEnabled", enabled)
    }

    /// Set whether the session should accept all SSL certificates by default.
    fn accept_ssl_certs(&mut self, enabled: bool) -> (r: WebDriverResult<()>)
        ensures
            r is Ok,
            final(self).caps() == old(self).caps().insert("acceptSslCerts"@, Json::Bool(enabled)),
    {
        self.set_base_capability("acceptSslCerts", enabled)
    }

    /// Set whether the session should accept insecure SSL certificates by default.
    fn accept_insecure_certs(&mut self, enabled: bool) -> (r: WebDriverResult<()>)
        ensures
            r is Ok,
            final(self).caps() == old(self).caps().insert("acceptInsecureCerts"@, Json::Bool(enabled)),
    {
        self.set_base_capability("acceptInsecureCerts", enabled)
    }

    /// Set whether the session can rotate the current page's layout between portrait and landscape orientations.
    fn set_rotatable(&mut self, enabled: bool) -> (r: WebDriverResult<()>)
        ensures
            r is Ok,
            final(self).caps() == old(self).caps().insert("rotatable"@, Json::Bool(enabled)),
    {
        self.set_base_capability("rotatable", enabled)
    }

    /// Set whether the session is capable of generating native events when simulating user input.
    fn set_native_events(&mut self, enabled: bool) -> (r: WebDriverResult<()>)
        ensures
            r is Ok,
            final(self).caps() == old(self).caps().insert("nativeEvents"@, Json::Bool(enabled)),
    {
        self.set_base_capability("nativeEvents", enabled)
    }

    /// Set the proxy to use.
    fn set_proxy(&mut self, proxy: Proxy) -> (r: WebDriverResult<()>)
        ensures
            r is Ok,
            final(self).caps() == old(self).caps().insert("proxy"@, proxy.as_json()),
    {
        self.set_base_capability("proxy", proxy)
    }

    /// Set the behaviour to be followed when an unexpected alert is encountered.
    fn set_unexpected_alert_behaviour(&mut self, behaviour: AlertBehaviour) -> (r: WebDriverResult<()>)
        ensures
            r is Ok,
            final(self).caps() == old(self).caps().insert("unexpectedAlertBehaviour"@, Json::Str(behaviour.name())),
    {
        self.set_base_capability("unexpectedAlertBehaviour", behaviour)
    }

    /// Set whether elements are scrolled into the viewport for interation to align with the top or bottom of the viewport.
    fn set_element_scroll_behaviour(&mut self, behaviour: ScrollBehaviour) -> (r: WebDriverResult<()>)
        ensures
            r is Ok,
            final(self).caps() == old(self).caps().insert("elementScrollBehavior"@, Json::Str(behaviour.name())),
    {
        self.set_base_capability("elementScrollBehavior", behaviour)
    }

    /// Set the page load strategy to use.
    fn set_page_load_strategy(&mut self, strategy: PageLoadStrategy) -> (r: WebDriverResult<()>)
        ensures
            r is Ok,
            final(self).caps() == old(self).caps().insert("pageLoadStrategy"@, Json::Str(strategy.name())),
    {
        self.set_base_capability("pageLoadStrategy", strategy)
    }

    /// Get whether the session can interact with modal popups such as `window.alert`.
    fn handles_alerts(&self) -> (r: Option<bool>)
        ensures
            r == flag_capability(self.caps(), "handlesAlerts"@),
    {
        match self._get("handlesAlerts") {
            Some(v) => v.as_bool(),
            None => None,
        }
    }

    /// Get whether the session supports CSS selectors when searching for elements.
    fn css_selectors_enabled(&self) -> (r: Option<bool>)
        ensures
            r == flag_capability(self.caps(), "cssSelectorsEnabled"@),
    {
        match self._get("cssSelectorsEnabled") {
            Some(v) => v.as_bool(),
            None => None,
        }
    }

    /// Get the current page load strategy.
    fn page_load_strategy(&self) -> (r: WebDriverResult<PageLoadStrategy>)
        ensures
            strategy_result(self.caps(), r),
    {
        match self._get("pageLoadStrategy") {
            None => Ok(PageLoadStrategy::Normal),
            Some(v) => {
                let strategy: Option<PageLoadStrategy> = match v.as_str() {
                    Some(s) => read_page_load_strategy(s),
                    None => None,
                };
                match strategy {
                    Some(s) => Ok(s),
                    None => Err(decode_error("a page load strategy")),
                }
            },
        }
    }
}

/// Whether `r` is the page load strategy, which is the normal one where none is set.
pub open spec fn strategy_result(
    caps: Map<Seq<char>, Json>,
    r: WebDriverResult<PageLoadStrategy>,
) -> bool {
    match capability(caps, "pageLoadStrategy"@) {
        None => r == Ok::<PageLoadStrategy, WebDriverError>(PageLoadStrategy::Normal),
        Some(v) => if v matches Json::Str(s) && page_load_strategy_named(s) is Some {
            r matches Ok(t) && page_load_strategy_named(v->Str_0) == Some(t)
        } else {
            r matches Err(e) && http::is_json_error(
                e,
                http::decode_message("a page load strategy"@),
            )
        },
    }
}

/// A page load strategy that was set is the one that is read.
pub proof fn lemma_strategy_is_read_back(
    caps: Map<Seq<char>, Json>,
    strategy: PageLoadStrategy,
    r: WebDriverResult<PageLoadStrategy>,
)
    requires
        strategy_result(caps.insert("pageLoadStrategy"@, Json::Str(strategy.name())), r),
    ensures
        r == Ok::<PageLoadStrategy, WebDriverError>(strategy),
{
    lemma_page_load_strategy_round_trip(strategy);
}

/// The capabilities with an option of the browser set: the options are an object under a key, which
/// takes the place of anything else that stands there.
pub open spec fn with_option(
    caps: Map<Seq<char>, Json>,
    key: Seq<char>,
    name: Seq<char>,
    value: Json,
) -> Map<Seq<char>, Json> {
    match capability(caps, key) {
        Some(Json::Obj(m)) => caps.insert(key, Json::Obj(m.insert(name, value))),
        _ => caps.insert(key, json::obj1(name, value)),
    }
}

/// The capabilities without an option of the browser.
pub open spec fn without_option(
    caps: Map<Seq<char>, Json>,
    key: Seq<char>,
    name: Seq<char>,
) -> Map<Seq<char>, Json> {
    match capability(caps, key) {
        Some(Json::Obj(m)) => caps.insert(key, Json::Obj(m.remove(name))),
        _ => caps,
    }
}

/// An option of the browser.
pub open spec fn option_of(caps: Map<Seq<char>, Json>, key: Seq<char>, name: Seq<char>) -> Option<
    Json,
> {
    match capability(caps, key) {
        Some(v) => json::member(v, name),
        None => None,
    }
}

/// An option of the browser that is set is read back, and no other option and no other capability
/// changes. Where something else stood in the place of the options, there is no other option
/// before, and none after.
pub proof fn lemma_option_set(
    caps: Map<Seq<char>, Json>,
    key: Seq<char>,
    name: Seq<char>,
    value: Json,
)
    ensures
        option_of(with_option(caps, key, name, value), key, name) == Some(value),
        forall|other: Seq<char>|
            other != name ==> option_of(with_option(caps, key, name, value), key, other)
                == #[trigger] option_of(caps, key, other),
        forall|other: Seq<char>|
            other != key ==> capability(with_option(caps, key, name, value), other)
                == #[trigger] capability(caps, other),
{
}

/// An option of the browser that is removed is no longer there, and no other option and no other
/// capability changes.
pub proof fn lemma_option_removed(caps: Map<Seq<char>, Json>, key: Seq<char>, name: Seq<char>)
    ensures
        option_of(without_option(caps, key, name), key, name) is None,
        forall|other: Seq<char>|
            other != name ==> option_of(without_option(caps, key, name), key, other)
                == #[trigger] option_of(caps, key, other),
        forall|other: Seq<char>|
            other != key ==> capability(without_option(caps, key, name), other)
                == #[trigger] capability(caps, other),
{
}

/// Methods for setting the options of a browser.
pub trait BrowserCapabilitiesHelper: CapabilitiesHelper {
    /// The key containing the browser-specific capabilities.
    spec fn key() -> Seq<char>;

    /// The key containing the browser-specific capabilities.
    fn key_text() -> (r: &'static str)
        ensures
            r@ == Self::key(),
    ;

    /// Add any Serialize-able object to the capabilities under the browser's custom key.
    fn insert_browser_option<T: ToValue>(&mut self, key: &str, value: T) -> (r: WebDriverResult<()>)
        ensures
            r is Ok,
            final(self).caps() == with_option(old(self).caps(), Self::key(), key@, value.as_json()),
    {
        let options: Object = match self._get(Self::key_text()) {
            Some(JsonValue::Object(o)) => {
                let mut o: Object = o.clone();
                o.insert(key, value.to_value());
                o
            },
            _ => {
                let mut o: Object = Object::new();
                o.insert(key, value.to_value());
                o
            },
        };
        self.insert_base_capability(Self::key_text().to_owned(), JsonValue::Object(options));
        Ok(())
    }

    /// Remove the custom browser-specific property, if it exists.
    fn remove_browser_option(&mut self, key: &str)
        ensures
            final(self).caps() == without_option(old(self).caps(), Self::key(), key@),
    {
        let options: Object = match self._get(Self::key_text()) {
            Some(JsonValue::Object(o)) => {
                let mut o: Object = o.clone();
                let gone: Option<JsonValue> = o.remove(key);
                o
            },
            _ => return ,
        };
        self.insert_base_capability(Self::key_text().to_owned(), JsonValue::Object(options));
    }

    /// Get the custom browser-specific property, if it exists.
    fn browser_option<T: FromValue>(&self, key: &str) -> (r: Option<T>)
        ensures
            match option_of(self.caps(), Self::key(), key@) {
                Some(v) => if T::valid(v) {
                    r matches Some(t) && T::reads(v, t)
                } else {
                    r is None
                },
                None => r is None,
            },
    {
        match self._get(Self::key_text()) {
            Some(options) => match options.get(key) {
                Some(v) => T::from_value(v),
                None => None,
            },
            None => None,
        }
    }
}

/// Capabilities of any browser.
pub type Capabilities = Object;

impl CapabilitiesHelper for Object {
    open spec fn caps(&self) -> Map<Seq<char>, Json> {
        self@
    }

    fn _get(&self, key: &str) -> (r: Option<&JsonValue>) {
        self.get(key)
    }

    fn insert_base_capability(&mut self, key: String, value: JsonValue) {
        self.insert(key.as_str(), value);
    }
}

/// The capabilities that hold nothing but the name of the browser.
pub open spec fn browser_named(name: Seq<char>) -> Map<Seq<char>, Json> {
    Map::<Seq<char>, Json>::empty().insert("browserName"@, Json::Str(name))
}

/// The capabilities that hold nothing but the name of the browser.
fn named_browser(name: &str) -> (r: Object)
    ensures
        r@ == browser_named(name@),
{
    let mut o: Object = Object::new();
    o.insert("browserName", JsonValue::text(name));
    o
}

/// Capabilities for Chrome.
#[derive(Debug)]
pub struct ChromeCapabilities {
    capabilities: Object,
}

impl ChromeCapabilities {
    /// The capabilities.
    pub closed spec fn view(&self) -> Map<Seq<char>, Json> {
        self.capabilities@
    }

    /// Create a new `ChromeCapabilities` struct.
    pub fn new() -> (r: Self)
        ensures
            r@ == browser_named("chrome"@),
    {
        ChromeCapabilities { capabilities: named_browser("chrome") }
    }

    /// The capabilities, as those of any browser.
    pub fn into_capabilities(self) -> (r: Capabilities)
        ensures
            r@ == self@,
    {
        self.capabilities
    }
}

impl Default for ChromeCapabilities {
    fn default() -> (r: Self)
        ensures
            r@ == browser_named("chrome"@),
    {
        ChromeCapabilities::new()
    }
}

impl CapabilitiesHelper for ChromeCapabilities {
    open spec fn caps(&self) -> Map<Seq<char>, Json> {
        self@
    }

    fn _get(&self, key: &str) -> (r: Option<&JsonValue>) {
        self.capabilities.get(key)
    }

    fn insert_base_capability(&mut self, key: String, value: JsonValue) {
        self.capabilities.insert(key.as_str(), value);
    }
}

impl BrowserCapabilitiesHelper for ChromeCapabilities {
    open spec fn key() -> Seq<char> {
        "goog:chromeOptions"@
    }

    fn key_text() -> (r: &'static str) {
        "goog:chromeOptions"
    }
}

/// Capabilities for Microsoft Edge.
#[derive(Debug)]
pub struct EdgeCapabilities {
    capabilities: Object,
}

impl EdgeCapabilities {
    /// The capabilities.
    pub closed spec fn view(&self) -> Map<Seq<char>, Json> {
        self.capabilities@
    }

    /// Create a new `EdgeCapabilities` struct.
    pub fn new() -> (r: Self)
        ensures
            r@ == browser_named("MicrosoftEdge"@),
    {
        EdgeCapabilities { capabilities: named_browser("MicrosoftEdge") }
    }

    /// The capabilities, as those of any browser.
    pub fn into_capabilities(self) -> (r: Capabilities)
        ensures
            r@ == self@,
    {
        self.capabilities
    }
}

impl Default for EdgeCapabilities {
    fn default() -> (r: Self)
        ensures
            r@ == browser_named("MicrosoftEdge"@),
    {
        EdgeCapabilities::new()
    }
}

impl CapabilitiesHelper for EdgeCapabilities {
    open spec fn caps(&self) -> Map<Seq<char>, Json> {
        self@
    }

    fn _get(&self, key: &str) -> (r: Option<&JsonValue>) {
        self.capabilities.get(key)
    }

    fn insert_base_capability(&mut self, key: String, value: JsonValue) {
        self.capabilities.insert(key.as_str(), value);
    }
}

impl BrowserCapabilitiesHelper for EdgeCapabilities {
    open spec fn key() -> Seq<char> {
        "ms:edgeOptions"@
    }

    fn key_text() -> (r: &'static str) {
        "ms:edgeOptions"
    }
}

/// Capabilities for Firefox.
#[derive(Debug)]
pub struct FirefoxCapabilities {
    capabilities: Object,
}

impl FirefoxCapabilities {
    /// The capabilities.
    pub closed spec fn view(&self) -> Map<Seq<char>, Json> {
        self.capabilities@
    }

    /// Create a new `FirefoxCapabilities` struct.
    pub fn new() -> (r: Self)
        ensures
            r@ == browser_named("firefox"@),
    {
        FirefoxCapabilities { capabilities: named_browser("firefox") }
    }

    /// The capabilities, as those of any browser.
    pub fn into_capabilities(self) -> (r: Capabilities)
        ensures
            r@ == self@,
    {
        self.capabilities
    }
}

impl Default for FirefoxCapabilities {
    fn default() -> (r: Self)
        ensures
            r@ == browser_named("firefox"@),
    {
        FirefoxCapabilities::new()
    }
}

impl CapabilitiesHelper for FirefoxCapabilities {
    open spec fn caps(&self) -> Map<Seq<char>, Json> {
        self@
    }

    fn _get(&self, key: &str) -> (r: Option<&JsonValue>) {
        self.capabilities.get(key)
    }

    fn insert_base_capability(&mut self, key: String, value: JsonValue) {
        self.capabilities.insert(key.as_str(), value);
    }
}

impl BrowserCapabilitiesHelper for FirefoxCapabilities {
    open spec fn key() -> Seq<char> {
        "moz:firefoxOptions"@
    }

    fn key_text() -> (r: &'static str) {
        "moz:firefoxOptions"
    }
}

/// Capabilities for Internet Explorer.
#[derive(Debug)]
pub struct InternetExplorerCapabilities {
    capabilities: Object,
}

impl InternetExplorerCapabilities {
    /// The capabilities.
    pub closed spec fn view(&self) -> Map<Seq<char>, Json> {
        self.capabilities@
    }

    /// Create a new `InternetExplorerCapabilities` struct.
    pub fn new() -> (r: Self)
        ensures
            r@ == browser_named("internet explorer"@),
    {
        InternetExplorerCapabilities { capabilities: named_browser("internet explorer") }
    }

    /// The capabilities, as those of any browser.
    pub fn into_capabilities(self) -> (r: Capabilities)
        ensures
            r@ == self@,
    {
        self.capabilities
    }
}

impl Default for InternetExplorerCapabilities {
    fn default() -> (r: Self)
        ensures
            r@ == browser_named("internet explorer"@),
    {
        InternetExplorerCapabilities::new()
    }
}

impl CapabilitiesHelper for InternetExplorerCapabilities {
    open spec fn caps(&self) -> Map<Seq<char>, Json> {
        self@
    }

    fn _get(&self, key: &str) -> (r: Option<&JsonValue>) {
        self.capabilities.get(key)
    }

    fn insert_base_capability(&mut self, key: String, value: JsonValue) {
        self.capabilities.insert(key.as_str(), value);
    }
}

impl BrowserCapabilitiesHelper for InternetExplorerCapabilities {
    open spec fn key() -> Seq<char> {
        "se:ieOptions"@
    }

    fn key_text() -> (r: &'static str) {
        "se:ieOptions"
    }
}

/// Capabilities for Opera.
#[derive(Debug)]
pub struct OperaCapabilities {
    capabilities: Object,
}

impl OperaCapabilities {
    /// The capabilities.
    pub closed spec fn view(&self) -> Map<Seq<char>, Json> {
        self.capabilities@
    }

    /// Create a new `OperaCapabilities` struct.
    pub fn new() -> (r: Self)
        ensures
            r@ == browser_named("opera"@),
    {
        OperaCapabilities { capabilities: named_browser("opera") }
    }

    /// The capabilities, as those of any browser.
    pub fn into_capabilities(self) -> (r: Capabilities)
        ensures
            r@ == self@,
    {
        self.capabilities
    }
}

impl Default for OperaCapabilities {
    fn default() -> (r: Self)
        ensures
            r@ == browser_named("opera"@),
    {
        OperaCapabilities::new()
    }
}

impl CapabilitiesHelper for OperaCapabilities {
    open spec fn caps(&self) -> Map<Seq<char>, Json> {
        self@
    }

    fn _get(&self, key: &str) -> (r: Option<&JsonValue>) {
        self.capabilities.get(key)
    }

    fn insert_base_capability(&mut self, key: String, value: JsonValue) {
        self.capabilities.insert(key.as_str(), value);
    }
}

impl BrowserCapabilitiesHelper for OperaCapabilities {
    open spec fn key() -> Seq<char> {
        "operaOptions"@
    }

    fn key_text() -> (r: &'static str) {
        "operaOptions"
    }
}

/// Capabilities for Safari.
#[derive(Debug)]
pub struct SafariCapabilities {
    capabilities: Object,
}

impl SafariCapabilities {
    /// The capabilities.
    pub closed spec fn view(&self) -> Map<Seq<char>, Json> {
        self.capabilities@
    }

    /// Create a new `SafariCapabilities` struct.
    pub fn new() -> (r: Self)
        ensures
            r@ == browser_named("safari"@),
    {
        SafariCapabilities { capabilities: named_browser("safari") }
    }

    /// The capabilities, as those of any browser.
    pub fn into_capabilities(self) -> (r: Capabilities)
        ensures
            r@ == self@,
    {
        self.capabilities
    }
}

impl Default for SafariCapabilities {
    fn default() -> (r: Self)
        ensures
            r@ == browser_named("safari"@),
    {
        SafariCapabilities::new()
    }
}

impl CapabilitiesHelper for SafariCapabilities {
    open spec fn caps(&self) -> Map<Seq<char>, Json> {
        self@
    }

    fn _get(&self, key: &str) -> (r: Option<&JsonValue>) {
        self.capabilities.get(key)
    }

    fn insert_base_capability(&mut self, key: String, value: JsonValue) {
        self.capabilities.insert(key.as_str(), value);
    }
}

/// Provides static methods for constructing browser-specific capabilities.
#[derive(Debug)]
pub struct DesiredCapabilities;

impl DesiredCapabilities {
    /// Create a ChromeCapabilities struct.
    pub fn chrome() -> (r: ChromeCapabilities)
        ensures
            r@ == browser_named("chrome"@),
    {
        ChromeCapabilities::new()
    }

    /// Create a EdgeCapabilities struct.
    pub fn edge() -> (r: EdgeCapabilities)
        ensures
            r@ == browser_named("MicrosoftEdge"@),
    {
        EdgeCapabilities::new()
    }

    /// Create a FirefoxCapabilities struct.
    pub fn firefox() -> (r: FirefoxCapabilities)
        ensures
            r@ == browser_named("firefox"@),
    {
        FirefoxCapabilities::new()
    }

    /// Create a InternetExplorerCapabilities struct.
    pub fn internet_explorer() -> (r: InternetExplorerCapabilities)
        ensures
            r@ == browser_named("internet explorer"@),
    {
        InternetExplorerCapabilities::new()
    }

    /// Create a OperaCapabilities struct.
    pub fn opera() -> (r: OperaCapabilities)
        ensures
            r@ == browser_named("opera"@),
    {
        OperaCapabilities::new()
    }

    /// Create a SafariCapabilities struct.
    pub fn safari() -> (r: SafariCapabilities)
        ensures
            r@ == browser_named("safari"@),
    {
        SafariCapabilities::new()
    }
}

} // verus!
