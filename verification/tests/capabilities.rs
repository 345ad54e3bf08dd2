//! Capabilities of the browsers.
use thirtyfour::capabilities::{
    AlertBehaviour, BrowserCapabilitiesHelper, CapabilitiesHelper, DesiredCapabilities,
    FirefoxProfileLogDriver, LogLevel, LoggingPrefsLogLevel, PageLoadStrategy, Proxy,
    ScrollBehaviour,
};
use thirtyfour::error::WebDriverErrorInner;
use thirtyfour::firefox::FirefoxPreferences;
use thirtyfour::json::{JsonValue, Object};

fn value(text: &str) -> serde_json::Value {
    serde_json::from_str(text).unwrap()
}

fn shown(o: Object) -> serde_json::Value {
    value(&JsonValue::Object(o).to_text())
}

#[test]
fn every_browser_by_its_name() {
    let name = |o: Object| shown(o)["browserName"].as_str().unwrap().to_string();
    assert_eq!(name(DesiredCapabilities::chrome().into_capabilities()), "chrome");
    assert_eq!(name(DesiredCapabilities::edge().into_capabilities()), "MicrosoftEdge");
    assert_eq!(name(DesiredCapabilities::firefox().into_capabilities()), "firefox");
    assert_eq!(
        name(DesiredCapabilities::internet_explorer().into_capabilities()),
        "internet explorer"
    );
    assert_eq!(name(DesiredCapabilities::opera().into_capabilities()), "opera");
    assert_eq!(name(DesiredCapabilities::safari().into_capabilities()), "safari");
}

#[test]
fn base_capabilities() {
    let mut caps = DesiredCapabilities::safari();
    caps.set_version("1").unwrap();
    caps.set_platform("linux").unwrap();
    caps.set_javascript_enabled(true).unwrap();
    caps.accept_ssl_certs(false).unwrap();
    caps.accept_insecure_certs(true).unwrap();
    caps.set_unexpected_alert_behaviour(AlertBehaviour::Ignore).unwrap();
    caps.set_element_scroll_behaviour(ScrollBehaviour::Bottom).unwrap();
    caps.set_page_load_strategy(PageLoadStrategy::Eager).unwrap();
    assert!(matches!(caps.page_load_strategy().unwrap(), PageLoadStrategy::Eager));
    let got = shown(caps.into_capabilities());
    assert_eq!(got["version"], "1");
    assert_eq!(got["platform"], "linux");
    assert_eq!(got["javascriptEnabled"], true);
    assert_eq!(got["acceptSslCerts"], false);
    assert_eq!(got["acceptInsecureCerts"], true);
    assert_eq!(got["unexpectedAlertBehaviour"], "ignore");
    assert_eq!(got["elementScrollBehavior"], "Bottom");
    assert_eq!(got["pageLoadStrategy"], "eager");
}

#[test]
fn a_page_load_strategy_is_read_as_it_was_set() {
    for s in [PageLoadStrategy::Normal, PageLoadStrategy::Eager, PageLoadStrategy::Nothing] {
        let mut caps = DesiredCapabilities::chrome();
        caps.set_page_load_strategy(s).unwrap();
        assert_eq!(caps.page_load_strategy().unwrap().as_str(), s.as_str());
    }
    assert_eq!(PageLoadStrategy::Nothing.as_str(), "none");
    let mut odd = DesiredCapabilities::chrome();
    odd.set_base_capability("pageLoadStrategy", "odd").unwrap();
    let e = odd.page_load_strategy().unwrap_err();
    assert!(matches!(e.as_inner(), WebDriverErrorInner::Json(_)));
}

#[test]
fn flags_that_are_no_flags() {
    let mut caps = DesiredCapabilities::chrome();
    assert_eq!(caps.handles_alerts(), None);
    caps.set_base_capability("handlesAlerts", true).unwrap();
    assert_eq!(caps.handles_alerts(), Some(true));
    caps.set_base_capability("cssSelectorsEnabled", "yes").unwrap();
    assert_eq!(caps.css_selectors_enabled(), None);
}

#[test]
fn proxies() {
    let with = |p: Proxy| {
        let mut caps = DesiredCapabilities::chrome();
        caps.set_proxy(p).unwrap();
        shown(caps.into_capabilities())["proxy"].clone()
    };
    assert_eq!(with(Proxy::Direct), value(r#"{"proxyType": "direct"}"#));
    assert_eq!(with(Proxy::AutoDetect), value(r#"{"proxyType": "autodetect"}"#));
    assert_eq!(with(Proxy::System), value(r#"{"proxyType": "system"}"#));
    assert_eq!(
        with(Proxy::AutoConfig { url: "u".to_string() }),
        value(r#"{"proxyType": "pac", "proxyAutoconfigUrl": "u"}"#)
    );
    assert_eq!(
        with(Proxy::Manual {
            ftp_proxy: None,
            http_proxy: Some("h".to_string()),
            ssl_proxy: None,
            socks_proxy: Some("s".to_string()),
            socks_version: Some(5),
            socks_username: None,
            socks_password: None,
            no_proxy: None,
        }),
        value(r#"{"proxyType": "manual", "httpProxy": "h", "socksProxy": "s", "socksVersion": 5}"#)
    );
}

#[test]
fn options_are_set_and_taken_away() {
    let mut caps = DesiredCapabilities::chrome();
    assert!(caps.browser_option::<String>("binary").is_none());
    caps.insert_browser_option("binary", "/bin/chrome").unwrap();
    caps.insert_browser_option("other", true).unwrap();
    assert_eq!(caps.browser_option::<String>("binary").unwrap(), "/bin/chrome");
    assert!(caps.browser_option::<bool>("binary").is_none());
    caps.remove_browser_option("binary");
    assert!(caps.browser_option::<String>("binary").is_none());
    assert_eq!(caps.browser_option::<bool>("other"), Some(true));
    let got = shown(caps.into_capabilities());
    assert_eq!(got["goog:chromeOptions"], value(r#"{"other": true}"#));
}

#[test]
fn arguments_of_firefox() {
    let mut caps = DesiredCapabilities::firefox();
    assert!(caps.args().is_empty());
    assert!(!caps.is_headless());
    caps.set_headless().unwrap();
    caps.set_headless().unwrap();
    caps.add_arg("-x").unwrap();
    assert_eq!(caps.args(), vec!["-headless".to_string(), "-x".to_string()]);
    assert!(caps.is_headless());
    assert!(caps.has_arg("-x"));
    caps.unset_headless().unwrap();
    assert!(!caps.is_headless());
    assert_eq!(caps.args(), vec!["-x".to_string()]);
    caps.remove_arg("-x").unwrap();
    assert!(!caps.has_arg("-x"));
    caps.set_firefox_binary("/bin/firefox").unwrap();
    caps.set_encoded_profile("cHJvZmlsZQ==").unwrap();
    assert_eq!(caps.encoded_profile().unwrap(), "cHJvZmlsZQ==");
    let got = shown(caps.into_capabilities());
    assert_eq!(got["moz:firefoxOptions"]["binary"], "/bin/firefox");
}

#[test]
fn the_log_level_of_firefox() {
    let mut caps = DesiredCapabilities::firefox();
    caps.set_log_level(LogLevel::Debug).unwrap();
    assert_eq!(caps.log_level().unwrap().as_str(), "debug");
    let levels = [
        LogLevel::Trace,
        LogLevel::Debug,
        LogLevel::Config,
        LogLevel::Info,
        LogLevel::Warn,
        LogLevel::Error,
        LogLevel::Fatal,
        LogLevel::Default,
    ];
    for level in levels {
        let mut caps = DesiredCapabilities::firefox();
        caps.set_log_level(level).unwrap();
        assert_eq!(caps.log_level().unwrap().as_str(), level.as_str());
    }
    caps.set_logging_prefs("driver".to_string(), LoggingPrefsLogLevel::All).unwrap();
    let got = shown(caps.into_capabilities());
    assert_eq!(got["loggingPrefs"], value(r#"{"driver": "ALL"}"#));
}

#[test]
fn preferences_of_firefox() {
    let mut prefs = FirefoxPreferences::new();
    prefs.set("a.b", 1u64).unwrap();
    prefs.set_webdriver_port(8080).unwrap();
    prefs.set_log_driver(FirefoxProfileLogDriver::Info).unwrap();
    prefs.set_user_agent("agent".to_string()).unwrap();
    prefs.unset("a.b").unwrap();
    let mut caps = DesiredCapabilities::firefox();
    caps.set_preferences(prefs).unwrap();
    let got = shown(caps.into_capabilities());
    assert_eq!(got["moz:firefoxOptions"]["prefs"]["webdriver_firefox_port"], 8080);
    assert_eq!(got["moz:firefoxOptions"]["prefs"]["general.useragent.override"], "agent");
    assert!(got["moz:firefoxOptions"]["prefs"].get("a.b").is_none());
}
