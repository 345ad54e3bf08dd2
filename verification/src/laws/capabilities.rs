//! What stands in the capabilities, and under which name.
use vstd::prelude::*;

use crate::capabilities::{
    read_log_level, read_page_load_strategy, AlertBehaviour, BrowserCapabilitiesHelper,
    CapabilitiesHelper, ChromeCapabilities, DesiredCapabilities, EdgeCapabilities,
    FirefoxCapabilities, FirefoxProfileLogDriver, InternetExplorerCapabilities, LogLevel,
    LoggingPrefsLogLevel, OperaCapabilities, PageLoadStrategy, Proxy, SafariCapabilities,
    ScrollBehaviour, ToValue,
};
use crate::capabilities;
use crate::error::WebDriverResult;
use crate::json::{Json, JsonValue, Object};

verus! {

/// A text stands under `name` where there is one, and nothing where there is none.
pub open spec fn holds_text(
    members: Map<Seq<char>, Json>,
    name: Seq<char>,
    text: Option<String>,
) -> bool {
    match text {
        Some(s) => members.contains_key(name) && members[name] == Json::Str(s@),
        None => !members.contains_key(name),
    }
}

proof fn lemma_proxy_names()
    ensures
        "proxyType"@ != "ftpProxy"@,
        "proxyType"@ != "httpProxy"@,
        "proxyType"@ != "sslProxy"@,
        "proxyType"@ != "socksProxy"@,
        "proxyType"@ != "socksVersion"@,
        "proxyType"@ != "socksUsername"@,
        "proxyType"@ != "socksPassword"@,
        "proxyType"@ != "noProxy"@,
        "ftpProxy"@ != "httpProxy"@,
        "ftpProxy"@ != "sslProxy"@,
        "ftpProxy"@ != "socksProxy"@,
        "ftpProxy"@ != "socksVersion"@,
        "ftpProxy"@ != "socksUsername"@,
        "ftpProxy"@ != "socksPassword"@,
        "ftpProxy"@ != "noProxy"@,
        "httpProxy"@ != "sslProxy"@,
        "httpProxy"@ != "socksProxy"@,
        "httpProxy"@ != "socksVersion"@,
        "httpProxy"@ != "socksUsername"@,
        "httpProxy"@ != "socksPassword"@,
        "httpProxy"@ != "noProxy"@,
        "sslProxy"@ != "socksProxy"@,
        "sslProxy"@ != "socksVersion"@,
        "sslProxy"@ != "socksUsername"@,
        "sslProxy"@ != "socksPassword"@,
        "sslProxy"@ != "noProxy"@,
        "socksProxy"@ != "socksVersion"@,
        "socksProxy"@ != "socksUsername"@,
        "socksProxy"@ != "socksPassword"@,
        "socksProxy"@ != "noProxy"@,
        "socksVersion"@ != "socksUsername"@,
        "socksVersion"@ != "socksPassword"@,
        "socksVersion"@ != "noProxy"@,
        "socksUsername"@ != "socksPassword"@,
        "socksUsername"@ != "noProxy"@,
        "socksPassword"@ != "noProxy"@,
        "proxyType"@ != "proxyAutoconfigUrl"@,
{
    reveal_strlit("proxyType");
    reveal_strlit("ftpProxy");
    reveal_strlit("httpProxy");
    reveal_strlit("sslProxy");
    reveal_strlit("socksProxy");
    reveal_strlit("socksVersion");
    reveal_strlit("socksUsername");
    reveal_strlit("socksPassword");
    reveal_strlit("noProxy");
    reveal_strlit("proxyAutoconfigUrl");
    assert("proxyType"@.len() != "ftpProxy"@.len());
    assert("proxyType"@[0] != "httpProxy"@[0]);
    assert("proxyType"@.len() != "sslProxy"@.len());
    assert("proxyType"@.len() != "socksProxy"@.len());
    assert("proxyType"@.len() != "socksVersion"@.len());
    assert("proxyType"@.len() != "socksUsername"@.len());
    assert("proxyType"@.len() != "socksPassword"@.len());
    assert("proxyType"@.len() != "noProxy"@.len());
    assert("ftpProxy"@.len() != "httpProxy"@.len());
    assert("ftpProxy"@[0] != "sslProxy"@[0]);
    assert("ftpProxy"@.len() != "socksProxy"@.len());
    assert("ftpProxy"@.len() != "socksVersion"@.len());
    assert("ftpProxy"@.len() != "socksUsername"@.len());
    assert("ftpProxy"@.len() != "socksPassword"@.len());
    assert("ftpProxy"@.len() != "noProxy"@.len());
    assert("httpProxy"@.len() != "sslProxy"@.len());
    assert("httpProxy"@.len() != "socksProxy"@.len());
    assert("httpProxy"@.len() != "socksVersion"@.len());
    assert("httpProxy"@.len() != "socksUsername"@.len());
    assert("httpProxy"@.len() != "socksPassword"@.len());
    assert("httpProxy"@.len() != "noProxy"@.len());
    assert("sslProxy"@.len() != "socksProxy"@.len());
    assert("sslProxy"@.len() != "socksVersion"@.len());
    assert("sslProxy"@.len() != "socksUsername"@.len());
    assert("sslProxy"@.len() != "socksPassword"@.len());
    assert("sslProxy"@.len() != "noProxy"@.len());
    assert("socksProxy"@.len() != "socksVersion"@.len());
    assert("socksProxy"@.len() != "socksUsername"@.len());
    assert("socksProxy"@.len() != "socksPassword"@.len());
    assert("socksProxy"@.len() != "noProxy"@.len());
    assert("socksVersion"@.len() != "socksUsername"@.len());
    assert("socksVersion"@.len() != "socksPassword"@.len());
    assert("socksVersion"@.len() != "noProxy"@.len());
    assert("socksUsername"@[5] != "socksPassword"@[5]);
    assert("socksUsername"@.len() != "noProxy"@.len());
    assert("socksPassword"@.len() != "noProxy"@.len());
}

/// Each field of a manual proxy stands under its own name, there exactly where the field is given,
/// and nothing else stands beside them but the kind of the proxy.
pub proof fn law_manual_proxy(p: Proxy, r: JsonValue)
    requires
        call_ensures(<Proxy as ToValue>::to_value, (p,), r),
        p is Manual,
    ensures
        r@ matches Json::Obj(m) && p matches Proxy::Manual {
            ftp_proxy,
            http_proxy,
            ssl_proxy,
            socks_proxy,
            socks_version,
            socks_username,
            socks_password,
            no_proxy,
        } && {
            &&& m.contains_key("proxyType"@) && m["proxyType"@] == Json::Str("manual"@)
            &&& holds_text(m, "ftpProxy"@, ftp_proxy)
            &&& holds_text(m, "httpProxy"@, http_proxy)
            &&& holds_text(m, "sslProxy"@, ssl_proxy)
            &&& holds_text(m, "socksProxy"@, socks_proxy)
            &&& match socks_version {
                Some(n) => m.contains_key("socksVersion"@) && m["socksVersion"@] == Json::Int(
                    n as int,
                ),
                None => !m.contains_key("socksVersion"@),
            }
            &&& holds_text(m, "socksUsername"@, socks_username)
            &&& holds_text(m, "socksPassword"@, socks_password)
            &&& holds_text(m, "noProxy"@, no_proxy)
            &&& forall|k: Seq<char>| #[trigger]
                m.contains_key(k) ==> set![
                    "proxyType"@,
                    "ftpProxy"@,
                    "httpProxy"@,
                    "sslProxy"@,
                    "socksProxy"@,
                    "socksVersion"@,
                    "socksUsername"@,
                    "socksPassword"@,
                    "noProxy"@,
                ].contains(k)
        },
{
    lemma_proxy_names();
}

/// The other proxies say what they are, and an automatic configuration says where it is.
pub proof fn law_other_proxies(p: Proxy, r: JsonValue)
    requires
        call_ensures(<Proxy as ToValue>::to_value, (p,), r),
    ensures
        p is Direct ==> r@ == Json::Obj(map!["proxyType"@ => Json::Str("direct"@)]),
        p is AutoDetect ==> r@ == Json::Obj(map!["proxyType"@ => Json::Str("autodetect"@)]),
        p is System ==> r@ == Json::Obj(map!["proxyType"@ => Json::Str("system"@)]),
        p matches Proxy::AutoConfig { url } ==> r@ == Json::Obj(
            map![
                "proxyType"@ => Json::Str("pac"@),
                "proxyAutoconfigUrl"@ => Json::Str(url@),
            ],
        ),
{
}

/// What is done with an unexpected alert has its own word.
pub proof fn law_alert_behaviour_words(v: AlertBehaviour, s: &'static str, j: JsonValue)
    requires
        call_ensures(AlertBehaviour::as_str, (&v,), s),
        call_ensures(<AlertBehaviour as ToValue>::to_value, (v,), j),
    ensures
        j@ == Json::Str(s@),
        v is Accept ==> s@ == "accept"@,
        v is Dismiss ==> s@ == "dismiss"@,
        v is Ignore ==> s@ == "ignore"@,
{
}

/// Where an element is scrolled to has its own word.
pub proof fn law_scroll_behaviour_words(v: ScrollBehaviour, s: &'static str, j: JsonValue)
    requires
        call_ensures(ScrollBehaviour::as_str, (&v,), s),
        call_ensures(<ScrollBehaviour as ToValue>::to_value, (v,), j),
    ensures
        j@ == Json::Str(s@),
        v is Top ==> s@ == "Top"@,
        v is Bottom ==> s@ == "Bottom"@,
{
}

/// A page load strategy has the word of the standard.
pub proof fn law_page_load_strategy_words(v: PageLoadStrategy, s: &'static str, j: JsonValue)
    requires
        call_ensures(PageLoadStrategy::as_str, (&v,), s),
        call_ensures(<PageLoadStrategy as ToValue>::to_value, (v,), j),
    ensures
        j@ == Json::Str(s@),
        v is Normal ==> s@ == "normal"@,
        v is Eager ==> s@ == "eager"@,
        v is Nothing ==> s@ == "none"@,
{
}

/// A log level of the driver is its name in small letters.
pub proof fn law_log_level_words(v: LogLevel, s: &'static str, j: JsonValue)
    requires
        call_ensures(LogLevel::as_str, (&v,), s),
        call_ensures(<LogLevel as ToValue>::to_value, (v,), j),
    ensures
        j@ == Json::Str(s@),
        v is Trace ==> s@ == "trace"@,
        v is Debug ==> s@ == "debug"@,
        v is Config ==> s@ == "config"@,
        v is Info ==> s@ == "info"@,
        v is Warn ==> s@ == "warn"@,
        v is Error ==> s@ == "error"@,
        v is Fatal ==> s@ == "fatal"@,
        v is Default ==> s@ == "default"@,
{
}

/// A log level of the preferences is its name in capitals.
pub proof fn law_logging_prefs_log_level_words(v: LoggingPrefsLogLevel, s: &'static str,
    j: JsonValue)
    requires
        call_ensures(LoggingPrefsLogLevel::as_str, (&v,), s),
        call_ensures(<LoggingPrefsLogLevel as ToValue>::to_value, (v,), j),
    ensures
        j@ == Json::Str(s@),
        v is Off ==> s@ == "OFF"@,
        v is Severe ==> s@ == "SEVERE"@,
        v is Warning ==> s@ == "WARNING"@,
        v is Info ==> s@ == "INFO"@,
        v is Config ==> s@ == "CONFIG"@,
        v is Fine ==> s@ == "FINE"@,
        v is Finer ==> s@ == "FINER"@,
        v is Finest ==> s@ == "FINEST"@,
        v is All ==> s@ == "ALL"@,
{
}

/// A log level of the profile is its name in capitals.
pub proof fn law_firefox_profile_log_driver_words(v: FirefoxProfileLogDriver, s: &'static str,
    j: JsonValue)
    requires
        call_ensures(FirefoxProfileLogDriver::as_str, (&v,), s),
        call_ensures(<FirefoxProfileLogDriver as ToValue>::to_value, (v,), j),
    ensures
        j@ == Json::Str(s@),
        v is Debug ==> s@ == "DEBUG"@,
        v is Info ==> s@ == "INFO"@,
        v is Warning ==> s@ == "WARNING"@,
        v is Error ==> s@ == "ERROR"@,
        v is Off ==> s@ == "OFF"@,
{
}

/// A page load strategy is read from exactly the words that it is written as.
pub proof fn law_page_load_strategy_is_read(s: &str, v: PageLoadStrategy, w: &'static str,
    r: Option<PageLoadStrategy>)
    requires
        call_ensures(read_page_load_strategy, (s,), r),
        call_ensures(PageLoadStrategy::as_str, (&v,), w),
    ensures
        r == Some(v) <==> s@ == w@,
        r is None <==> !set!["normal"@, "eager"@, "none"@].contains(s@),
{
    reveal_strlit("normal");
    reveal_strlit("eager");
    reveal_strlit("none");
    assert("normal"@.len() != "eager"@.len());
    assert("normal"@.len() != "none"@.len());
    assert("eager"@.len() != "none"@.len());
}

/// A log level is read from exactly the words that it is written as.
pub proof fn law_log_level_is_read(s: &str, v: LogLevel, w: &'static str, r: Option<LogLevel>)
    requires
        call_ensures(read_log_level, (s,), r),
        call_ensures(LogLevel::as_str, (&v,), w),
    ensures
        r == Some(v) <==> s@ == w@,
        r is None
            <==> !set!["trace"@, "debug"@, "config"@, "info"@, "warn"@, "error"@, "fatal"@,
            "default"@].contains(s@),
{
    reveal_strlit("trace");
    reveal_strlit("debug");
    reveal_strlit("config");
    reveal_strlit("info");
    reveal_strlit("warn");
    reveal_strlit("error");
    reveal_strlit("fatal");
    reveal_strlit("default");
    assert("trace"@[0] != "debug"@[0]);
    assert("trace"@.len() != "config"@.len());
    assert("trace"@.len() != "info"@.len());
    assert("trace"@.len() != "warn"@.len());
    assert("trace"@[0] != "error"@[0]);
    assert("trace"@[0] != "fatal"@[0]);
    assert("trace"@.len() != "default"@.len());
    assert("debug"@.len() != "config"@.len());
    assert("debug"@.len() != "info"@.len());
    assert("debug"@.len() != "warn"@.len());
    assert("debug"@[0] != "error"@[0]);
    assert("debug"@[0] != "fatal"@[0]);
    assert("debug"@.len() != "default"@.len());
    assert("config"@.len() != "info"@.len());
    assert("config"@.len() != "warn"@.len());
    assert("config"@.len() != "error"@.len());
    assert("config"@.len() != "fatal"@.len());
    assert("config"@.len() != "default"@.len());
    assert("info"@[0] != "warn"@[0]);
    assert("info"@.len() != "error"@.len());
    assert("info"@.len() != "fatal"@.len());
    assert("info"@.len() != "default"@.len());
    assert("warn"@.len() != "error"@.len());
    assert("warn"@.len() != "fatal"@.len());
    assert("warn"@.len() != "default"@.len());
    assert("error"@[0] != "fatal"@[0]);
    assert("error"@.len() != "default"@.len());
    assert("fatal"@.len() != "default"@.len());
}

/// After the call the capabilities hold `value` under `name`, and are otherwise as they were.
pub open spec fn sets(
    before: Map<Seq<char>, Json>,
    after: Map<Seq<char>, Json>,
    name: Seq<char>,
    value: Json,
) -> bool {
    &&& after.contains_key(name)
    &&& after[name] == value
    &&& forall|k: Seq<char>| #![trigger after.contains_key(k)] #![trigger before.contains_key(k)]
        k != name ==> after.contains_key(k) == before.contains_key(k)
    &&& forall|k: Seq<char>| k != name && before.contains_key(k)
        ==> #[trigger] after[k] == before[k]
}

/// Every flag and every text is set under its own name.
pub proof fn law_plain_setters<C: CapabilitiesHelper>()
    ensures
        forall|c: &mut C, v: &str, r: WebDriverResult<()>| #[trigger]
            call_ensures(C::set_version, (c, v), r) ==> r is Ok && sets(
                (*c).caps(),
                final(c).caps(),
                "version"@,
                Json::Str(v@),
            ),
        forall|c: &mut C, v: &str, r: WebDriverResult<()>| #[trigger]
            call_ensures(C::set_platform, (c, v), r) ==> r is Ok && sets(
                (*c).caps(),
                final(c).caps(),
                "platform"@,
                Json::Str(v@),
            ),
        forall|c: &mut C, v: bool, r: WebDriverResult<()>| #[trigger]
            call_ensures(C::set_javascript_enabled, (c, v), r) ==> r is Ok && sets(
                (*c).caps(),
                final(c).caps(),
                "javascriptEnabled"@,
                Json::Bool(v),
            ),
        forall|c: &mut C, v: bool, r: WebDriverResult<()>| #[trigger]
            call_ensures(C::set_database_enabled, (c, v), r) ==> r is Ok && sets(
                (*c).caps(),
                final(c).caps(),
                "databaseEnabled"@,
                Json::Bool(v),
            ),
        forall|c: &mut C, v: bool, r: WebDriverResult<()>| #[trigger]
            call_ensures(C::set_location_context_enabled, (c, v), r) ==> r is Ok && sets(
                (*c).caps(),
                final(c).caps(),
                "locationContextEnabled"@,
                Json::Bool(v),
            ),
        forall|c: &mut C, v: bool, r: WebDriverResult<()>| #[trigger]
            call_ensures(C::set_application_cache_enabled, (c, v), r) ==> r is Ok && sets(
                (*c).caps(),
                final(c).caps(),
                "applicationCacheEnabled"@,
                Json::Bool(v),
            ),
        forall|c: &mut C, v: bool, r: WebDriverResult<()>| #[trigger]
            call_ensures(C::set_browser_connection_enabled, (c, v), r) ==> r is Ok && sets(
                (*c).caps(),
                final(c).caps(),
                "browserConnectionEnabled"@,
                Json::Bool(v),
            ),
        forall|c: &mut C, v: bool, r: WebDriverResult<()>| #[trigger]
            call_ensures(C::set_web_storage_enabled, (c, v), r) ==> r is Ok && sets(
                (*c).caps(),
                final(c).caps(),
                "webStorageEnabled"@,
                Json::Bool(v),
            ),
        forall|c: &mut C, v: bool, r: WebDriverResult<()>| #[trigger]
            call_ensures(C::accept_ssl_certs, (c, v), r) ==> r is Ok && sets(
                (*c).caps(),
                final(c).caps(),
                "acceptSslCerts"@,
                Json::Bool(v),
            ),
        forall|c: &mut C, v: bool, r: WebDriverResult<()>| #[trigger]
            call_ensures(C::accept_insecure_certs, (c, v), r) ==> r is Ok && sets(
                (*c).caps(),
                final(c).caps(),
                "acceptInsecureCerts"@,
                Json::Bool(v),
            ),
        forall|c: &mut C, v: bool, r: WebDriverResult<()>| #[trigger]
            call_ensures(C::set_rotatable, (c, v), r) ==> r is Ok && sets(
                (*c).caps(),
                final(c).caps(),
                "rotatable"@,
                Json::Bool(v),
            ),
        forall|c: &mut C, v: bool, r: WebDriverResult<()>| #[trigger]
            call_ensures(C::set_native_events, (c, v), r) ==> r is Ok && sets(
                (*c).caps(),
                final(c).caps(),
                "nativeEvents"@,
                Json::Bool(v),
            ),
{
}

/// A proxy, the behaviours and the page load strategy are set under their own names, as the values
/// that they are written as.
pub proof fn law_other_setters<C: CapabilitiesHelper>()
    ensures
        forall|c: &mut C, v: Proxy, r: WebDriverResult<()>, j: JsonValue|
            #[trigger] call_ensures(C::set_proxy, (c, v), r) && #[trigger] call_ensures(
                <Proxy as ToValue>::to_value,
                (v,),
                j,
            ) ==> r is Ok && sets((*c).caps(), final(c).caps(), "proxy"@, j@),
        forall|c: &mut C, v: AlertBehaviour, r: WebDriverResult<()>, j: JsonValue|
            #[trigger] call_ensures(C::set_unexpected_alert_behaviour, (c, v), r) && #[trigger]
                call_ensures(
                <AlertBehaviour as ToValue>::to_value,
                (v,),
                j,
            ) ==> r is Ok && sets((*c).caps(), final(c).caps(), "unexpectedAlertBehaviour"@, j@),
        forall|c: &mut C, v: ScrollBehaviour, r: WebDriverResult<()>, j: JsonValue|
            #[trigger] call_ensures(C::set_element_scroll_behaviour, (c, v), r) && #[trigger]
                call_ensures(
                <ScrollBehaviour as ToValue>::to_value,
                (v,),
                j,
            ) ==> r is Ok && sets((*c).caps(), final(c).caps(), "elementScrollBehavior"@, j@),
        forall|c: &mut C, v: PageLoadStrategy, r: WebDriverResult<()>, j: JsonValue|
            #[trigger] call_ensures(C::set_page_load_strategy, (c, v), r) && #[trigger]
                call_ensures(
                <PageLoadStrategy as ToValue>::to_value,
                (v,),
                j,
            ) ==> r is Ok && sets((*c).caps(), final(c).caps(), "pageLoadStrategy"@, j@),
{
}

/// Any other capability is set under the name that is given.
pub proof fn law_any_capability<C: CapabilitiesHelper>()
    ensures
        forall|c: &mut C, name: String, v: JsonValue, r: ()| #[trigger]
            call_ensures(C::insert_base_capability, (c, name, v), r) ==> sets(
                (*c).caps(),
                final(c).caps(),
                name@,
                v@,
            ),
{
}

/// What is read stands under its own name: a flag is there only as a yes or a no, and a missing
/// page load strategy is `normal`.
pub proof fn law_readers<C: CapabilitiesHelper>(
    c: &C,
    name: &str,
    alerts: Option<bool>,
    css: Option<bool>,
    strategy: WebDriverResult<PageLoadStrategy>,
    any: Option<&JsonValue>,
)
    requires
        call_ensures(C::handles_alerts, (c,), alerts),
        call_ensures(C::css_selectors_enabled, (c,), css),
        call_ensures(C::page_load_strategy, (c,), strategy),
        call_ensures(C::_get, (c, name), any),
    ensures
        match alerts {
            Some(b) => c.caps().contains_key("handlesAlerts"@) && c.caps()["handlesAlerts"@]
                == Json::Bool(b),
            None => !(c.caps().contains_key("handlesAlerts"@)
                && c.caps()["handlesAlerts"@] is Bool),
        },
        match css {
            Some(b) => c.caps().contains_key("cssSelectorsEnabled"@)
                && c.caps()["cssSelectorsEnabled"@] == Json::Bool(b),
            None => !(c.caps().contains_key("cssSelectorsEnabled"@)
                && c.caps()["cssSelectorsEnabled"@] is Bool),
        },
        !c.caps().contains_key("pageLoadStrategy"@) ==> (strategy matches Ok(s) && s is Normal),
        c.caps().contains_key("pageLoadStrategy"@) ==> match strategy {
            Ok(s) => c.caps()["pageLoadStrategy"@] == Json::Str(
                match s {
                    PageLoadStrategy::Normal => "normal"@,
                    PageLoadStrategy::Eager => "eager"@,
                    PageLoadStrategy::Nothing => "none"@,
                },
            ),
            Err(_) => !(c.caps()["pageLoadStrategy"@] matches Json::Str(w) && set![
                "normal"@,
                "eager"@,
                "none"@,
            ].contains(w)),
        },
        match any {
            Some(v) => c.caps().contains_key(name@) && c.caps()[name@] == v@,
            None => !c.caps().contains_key(name@),
        },
{
}

/// Plain values are written as themselves.
pub proof fn law_plain_values<'a>()
    ensures
        forall|v: JsonValue, r: JsonValue| #[trigger]
            call_ensures(<JsonValue as ToValue>::to_value, (v,), r) ==> r@ == v@,
        forall|v: &'a str, r: JsonValue| #[trigger]
            call_ensures(<&'a str as ToValue>::to_value, (v,), r) ==> r@ == Json::Str(v@),
        forall|v: String, r: JsonValue| #[trigger]
            call_ensures(<String as ToValue>::to_value, (v,), r) ==> r@ == Json::Str(v@),
        forall|v: bool, r: JsonValue| #[trigger]
            call_ensures(<bool as ToValue>::to_value, (v,), r) ==> r@ == Json::Bool(v),
        forall|v: u16, r: JsonValue| #[trigger]
            call_ensures(<u16 as ToValue>::to_value, (v,), r) ==> r@ == Json::Int(v as int),
        forall|v: u64, r: JsonValue| #[trigger]
            call_ensures(<u64 as ToValue>::to_value, (v,), r) ==> r@ == Json::Int(v as int),
        forall|v: i64, r: JsonValue| #[trigger]
            call_ensures(<i64 as ToValue>::to_value, (v,), r) ==> r@ == Json::Int(v as int),
        forall|v: Vec<String>, r: JsonValue| #[trigger]
            call_ensures(<Vec<String> as ToValue>::to_value, (v,), r) ==> (
            r@ matches Json::Arr(items) && items.len() == v@.len() && forall|i: int|
                0 <= i < items.len() ==> #[trigger] items[i] == Json::Str(v@[i]@)),
{
}

/// The capabilities of a browser start with its name alone, however they are made.
pub proof fn law_browser_names()
    ensures
        forall|r: ChromeCapabilities| #[trigger] call_ensures(ChromeCapabilities::new, (), r)
            ==> r@ == map!["browserName"@ => Json::Str("chrome"@)],
        forall|r: ChromeCapabilities| #[trigger]
            call_ensures(<ChromeCapabilities as Default>::default, (), r)
            ==> r@ == map!["browserName"@ => Json::Str("chrome"@)],
        forall|r: ChromeCapabilities| #[trigger] call_ensures(DesiredCapabilities::chrome, (), r)
            ==> r@ == map!["browserName"@ => Json::Str("chrome"@)],
        forall|r: EdgeCapabilities| #[trigger] call_ensures(EdgeCapabilities::new, (), r)
            ==> r@ == map!["browserName"@ => Json::Str("MicrosoftEdge"@)],
        forall|r: EdgeCapabilities| #[trigger]
            call_ensures(<EdgeCapabilities as Default>::default, (), r)
            ==> r@ == map!["browserName"@ => Json::Str("MicrosoftEdge"@)],
        forall|r: EdgeCapabilities| #[trigger] call_ensures(DesiredCapabilities::edge, (), r)
            ==> r@ == map!["browserName"@ => Json::Str("MicrosoftEdge"@)],
        forall|r: FirefoxCapabilities| #[trigger] call_ensures(FirefoxCapabilities::new, (), r)
            ==> r@ == map!["browserName"@ => Json::Str("firefox"@)],
        forall|r: FirefoxCapabilities| #[trigger]
            call_ensures(<FirefoxCapabilities as Default>::default, (), r)
            ==> r@ == map!["browserName"@ => Json::Str("firefox"@)],
        forall|r: FirefoxCapabilities| #[trigger] call_ensures(DesiredCapabilities::firefox, (), r)
            ==> r@ == map!["browserName"@ => Json::Str("firefox"@)],
        forall|r: InternetExplorerCapabilities| #[trigger]
            call_ensures(InternetExplorerCapabilities::new, (), r)
            ==> r@ == map!["browserName"@ => Json::Str("internet explorer"@)],
        forall|r: InternetExplorerCapabilities| #[trigger]
            call_ensures(<InternetExplorerCapabilities as Default>::default, (), r)
            ==> r@ == map!["browserName"@ => Json::Str("internet explorer"@)],
        forall|r: InternetExplorerCapabilities| #[trigger]
            call_ensures(DesiredCapabilities::internet_explorer, (), r)
            ==> r@ == map!["browserName"@ => Json::Str("internet explorer"@)],
        forall|r: OperaCapabilities| #[trigger] call_ensures(OperaCapabilities::new, (), r)
            ==> r@ == map!["browserName"@ => Json::Str("opera"@)],
        forall|r: OperaCapabilities| #[trigger]
            call_ensures(<OperaCapabilities as Default>::default, (), r)
            ==> r@ == map!["browserName"@ => Json::Str("opera"@)],
        forall|r: OperaCapabilities| #[trigger] call_ensures(DesiredCapabilities::opera, (), r)
            ==> r@ == map!["browserName"@ => Json::Str("opera"@)],
        forall|r: SafariCapabilities| #[trigger] call_ensures(SafariCapabilities::new, (), r)
            ==> r@ == map!["browserName"@ => Json::Str("safari"@)],
        forall|r: SafariCapabilities| #[trigger]
            call_ensures(<SafariCapabilities as Default>::default, (), r)
            ==> r@ == map!["browserName"@ => Json::Str("safari"@)],
        forall|r: SafariCapabilities| #[trigger] call_ensures(DesiredCapabilities::safari, (), r)
            ==> r@ == map!["browserName"@ => Json::Str("safari"@)],
{
}

/// Capabilities are handed out as they were put together, and are seen alike on every way in.
pub proof fn law_into_capabilities()
    ensures
        forall|c: ChromeCapabilities, r: Object| #[trigger]
            call_ensures(ChromeCapabilities::into_capabilities, (c,), r)
                ==> r@ == c@ && c.caps() == r.caps(),
        forall|c: EdgeCapabilities, r: Object| #[trigger]
            call_ensures(EdgeCapabilities::into_capabilities, (c,), r)
                ==> r@ == c@ && c.caps() == r.caps(),
        forall|c: FirefoxCapabilities, r: Object| #[trigger]
            call_ensures(FirefoxCapabilities::into_capabilities, (c,), r)
                ==> r@ == c@ && c.caps() == r.caps(),
        forall|c: InternetExplorerCapabilities, r: Object| #[trigger]
            call_ensures(InternetExplorerCapabilities::into_capabilities, (c,), r)
                ==> r@ == c@ && c.caps() == r.caps(),
        forall|c: OperaCapabilities, r: Object| #[trigger]
            call_ensures(OperaCapabilities::into_capabilities, (c,), r)
                ==> r@ == c@ && c.caps() == r.caps(),
        forall|c: SafariCapabilities, r: Object| #[trigger]
            call_ensures(SafariCapabilities::into_capabilities, (c,), r)
                ==> r@ == c@ && c.caps() == r.caps(),
{
}

/// The options of a browser stand under the browser's own name.
pub proof fn law_option_names(name: &'static str)
    ensures
        call_ensures(<ChromeCapabilities as BrowserCapabilitiesHelper>::key_text, (), name)
            ==> name@ == "goog:chromeOptions"@,
        <ChromeCapabilities as BrowserCapabilitiesHelper>::key() == "goog:chromeOptions"@,
        call_ensures(<EdgeCapabilities as BrowserCapabilitiesHelper>::key_text, (), name)
            ==> name@ == "ms:edgeOptions"@,
        <EdgeCapabilities as BrowserCapabilitiesHelper>::key() == "ms:edgeOptions"@,
        call_ensures(<FirefoxCapabilities as BrowserCapabilitiesHelper>::key_text, (), name)
            ==> name@ == "moz:firefoxOptions"@,
        <FirefoxCapabilities as BrowserCapabilitiesHelper>::key() == "moz:firefoxOptions"@,
        call_ensures(<InternetExplorerCapabilities as BrowserCapabilitiesHelper>::key_text, (),
            name) ==> name@ == "se:ieOptions"@,
        <InternetExplorerCapabilities as BrowserCapabilitiesHelper>::key() == "se:ieOptions"@,
        call_ensures(<OperaCapabilities as BrowserCapabilitiesHelper>::key_text, (), name)
            ==> name@ == "operaOptions"@,
        <OperaCapabilities as BrowserCapabilitiesHelper>::key() == "operaOptions"@,
{
}

/// The options of a browser: what stands under its key, where that is an object.
pub open spec fn options_in(caps: Map<Seq<char>, Json>, key: Seq<char>) -> Map<Seq<char>, Json> {
    if caps.contains_key(key) {
        match caps[key] {
            Json::Obj(m) => m,
            _ => Map::empty(),
        }
    } else {
        Map::empty()
    }
}

/// An option is put among the options of the browser, which keep the others, and nothing outside
/// them changes; taking it out undoes that, and what is there is what is read.
pub proof fn law_options(
    caps: Map<Seq<char>, Json>,
    key: Seq<char>,
    name: Seq<char>,
    value: Json,
)
    ensures
        sets(
            caps,
            capabilities::with_option(caps, key, name, value),
            key,
            Json::Obj(options_in(caps, key).insert(name, value)),
        ),
        options_in(capabilities::without_option(caps, key, name), key) == options_in(
            caps,
            key,
        ).remove(name),
        forall|k: Seq<char>|
            k != key ==> (#[trigger] capabilities::without_option(caps, key, name).contains_key(k)
                == caps.contains_key(k)) && capabilities::without_option(caps, key, name)[k]
                == caps[k],
        match capabilities::option_of(caps, key, name) {
            Some(v) => options_in(caps, key).contains_key(name) && options_in(caps, key)[name] == v,
            None => !options_in(caps, key).contains_key(name),
        },
{
    let kept = options_in(caps, key).insert(name, value);
    assert(kept =~= capabilities::with_option(caps, key, name, value)[key]->Obj_0);
    assert(options_in(capabilities::without_option(caps, key, name), key) =~= options_in(
        caps,
        key,
    ).remove(name));
}

} // verus!
