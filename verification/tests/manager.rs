//! Local driver processes.
use thirtyfour::config::{SessionPoller, WebDriverConfig};
use thirtyfour::duration::Duration;
use thirtyfour::json::JsonValue;
use thirtyfour::manager::{
    after_answer, after_spawn, after_waiting, bind_error, driver_args, driver_server, driver_url,
    is_port_in_use, is_ready, local_addr_error, manual_version, process_status, search_status,
    session_status, spawn_error, status_url, version_from_caps, BrowserKind, DriverKey,
    DriverTable, DriverVersion, Host, ManagerError, Mirror, ProcessPoint, ReadyStep, SearchAction,
    SearchEvent, SearchState, SessionPoint, SpawnConfig, SpawnStep, Status, StdioMode,
    WebDriverManager, WebDriverManagerBuilder,
};
use thirtyfour::poller::ElementPollerNoWait;

fn config() -> WebDriverConfig {
    WebDriverConfig::builder().build("agent".to_string()).unwrap()
}

fn builder() -> WebDriverManagerBuilder {
    WebDriverManager::builder(config())
}

fn mirror() -> Mirror {
    Mirror {
        chrome_metadata: "c".to_string(),
        geckodriver_downloads: "g".to_string(),
        edge_downloads: "e".to_string(),
    }
}

fn build(b: WebDriverManagerBuilder) -> WebDriverManager {
    b.build("cache".to_string(), mirror())
}

#[test]
fn a_manager_by_default() {
    let m = build(builder());
    assert!(matches!(m.cfg.version, DriverVersion::MatchLocalBrowser));
    assert_eq!(m.cfg.cache_dir, "cache");
    assert_eq!(m.cfg.host.to_text(), "127.0.0.1");
    assert_eq!(m.cfg.download_timeout.as_millis(), 60000);
    assert_eq!(m.cfg.ready_timeout.as_millis(), 30000);
    assert!(!m.cfg.offline);
    assert_eq!(m.cfg.mirror.chrome_metadata, "c");
    assert_eq!(m.cfg.stdio, StdioMode::Tracing);
    assert!(!m.cfg.show_console_window);
    assert!(m.cfg.driver_paths.get(BrowserKind::Chrome).is_none());
    let s = m.cfg.spawn_config();
    assert!(s.host.is_localhost());
    assert_eq!(s.ready_timeout.as_millis(), SpawnConfig::default().ready_timeout.as_millis());
}

#[test]
fn what_is_set_on_a_builder() {
    let b = builder()
        .exact("126".to_string())
        .cache_dir("dir".to_string())
        .host(Host::V6("::1".to_string()))
        .download_timeout(Duration::from_secs(1))
        .ready_timeout(Duration::from_secs(2))
        .offline()
        .geckodriver_downloads_mirror("m".to_string())
        .stdio(StdioMode::Null)
        .show_console_window(true)
        .driver_binary(BrowserKind::Firefox, "/g".to_string())
        .driver_binary(BrowserKind::Chrome, "/c".to_string());
    let m = build(b);
    assert!(matches!(m.cfg.version, DriverVersion::Exact(v) if v == "126"));
    assert_eq!(m.cfg.cache_dir, "dir");
    assert_eq!(m.cfg.host.to_text(), "::1");
    assert_eq!(m.cfg.download_timeout.as_millis(), 1000);
    assert_eq!(m.cfg.ready_timeout.as_millis(), 2000);
    assert!(m.cfg.offline);
    assert_eq!(m.cfg.mirror.chrome_metadata, "c");
    assert_eq!(m.cfg.mirror.geckodriver_downloads, "m");
    assert_eq!(m.cfg.stdio, StdioMode::Null);
    assert!(m.cfg.show_console_window);
    assert_eq!(m.cfg.driver_paths.get(BrowserKind::Firefox).unwrap(), "/g");
    assert_eq!(m.cfg.driver_paths.get(BrowserKind::Chrome).unwrap(), "/c");
    assert!(m.cfg.driver_paths.get(BrowserKind::Edge).is_none());
    let online = build(builder().offline().online());
    assert!(!online.cfg.offline);
    assert!(build(builder().offline_mode(true)).cfg.offline);
    let mirrors = build(
        builder().chrome_metadata_mirror("x".to_string()).edge_downloads_mirror("y".to_string()),
    );
    assert_eq!(mirrors.cfg.mirror.chrome_metadata, "x");
    assert_eq!(mirrors.cfg.mirror.edge_downloads, "y");
    assert_eq!(mirrors.cfg.mirror.geckodriver_downloads, "g");
}

#[test]
fn versions() {
    assert!(matches!(builder().latest().version, DriverVersion::Latest));
    assert!(matches!(builder().latest().match_local().version, DriverVersion::MatchLocalBrowser));
    assert!(matches!(builder().from_caps().version, DriverVersion::FromCapabilities));
    assert!(matches!(
        builder().version(DriverVersion::Latest).version,
        DriverVersion::Latest
    ));
    assert_eq!(manual_version("/bin/d"), "manual:/bin/d");
    let caps = JsonValue::parse(r#"{"browserVersion": "120"}"#).unwrap();
    assert_eq!(version_from_caps(&caps).unwrap(), "120");
    assert!(version_from_caps(&JsonValue::empty_object()).is_none());
}

#[test]
fn a_poller_replaces_only_the_poller() {
    let mut c = config();
    c.keep_alive = false;
    let b = builder().config(c).poller(SessionPoller::NoWait(ElementPollerNoWait));
    assert!(!b.web_driver_config.keep_alive);
    assert!(matches!(b.web_driver_config.poller, SessionPoller::NoWait(_)));
}

#[test]
fn capabilities_to_launch_with() {
    assert!(matches!(builder().launch_capabilities(), Err(ManagerError::NoCapabilities)));
    let caps = builder().preloaded(JsonValue::Bool(true)).launch_capabilities().unwrap();
    assert_eq!(caps.as_bool(), Some(true));
}

#[test]
fn ports_that_are_taken() {
    let spawn = |m: &str| is_port_in_use(&ManagerError::Spawn(m.to_string()));
    assert!(spawn("Address already in use (os error 98)"));
    assert!(spawn("ADDRESS ALREADY IN USE"));
    assert!(spawn("Only one usage of each socket address is normally permitted"));
    assert!(spawn("code: EADDRINUSE"));
    assert!(!spawn("No such file or directory"));
    assert!(!spawn(""));
    assert!(!is_port_in_use(&ManagerError::Unavailable("address already in use".to_string())));
    assert!(!is_port_in_use(&ManagerError::DriverNotReady(Duration::from_secs(1))));
    let taken = || Err::<u8, ManagerError>(ManagerError::Spawn("addrinuse".to_string()));
    assert!(matches!(after_spawn(0, Ok(7u8)), SpawnStep::Done(7)));
    assert!(matches!(after_spawn(0, taken()), SpawnStep::Again(1)));
    assert!(matches!(after_spawn(1, taken()), SpawnStep::Again(2)));
    assert!(matches!(after_spawn(2, taken()), SpawnStep::Fail(ManagerError::Spawn(_))));
    let other = Err::<u8, ManagerError>(spawn_error("/bin/d", "gone"));
    assert!(matches!(after_spawn(0, other), SpawnStep::Fail(_)));
}

#[test]
fn messages_of_errors() {
    let m = |e: ManagerError| match e {
        ManagerError::Spawn(m) => m,
        _ => unreachable!(),
    };
    assert_eq!(m(spawn_error("/bin/d", "gone")), "spawn /bin/d: gone");
    assert_eq!(m(bind_error("e")), "bind ephemeral port: e");
    assert_eq!(m(local_addr_error("e")), "local_addr: e");
}

#[test]
fn arguments_of_a_driver() {
    let local = Host::localhost();
    let far = Host::V4(10, 0, 200, 1);
    let args = |b: BrowserKind, h: &Host| driver_args(b, h, 4444);
    assert_eq!(args(BrowserKind::Chrome, &local), vec!["--port=4444"]);
    assert_eq!(args(BrowserKind::Chrome, &far), vec!["--port=4444", "--allowed-ips=10.0.200.1"]);
    assert_eq!(args(BrowserKind::Edge, &far), vec!["--port=4444", "--allowed-ips=10.0.200.1"]);
    assert_eq!(args(BrowserKind::Firefox, &far), vec!["--port=4444", "--websocket-port=0"]);
    assert_eq!(args(BrowserKind::Safari, &far), vec!["--port=4444"]);
    assert_eq!(driver_url(&far, 80), "http://10.0.200.1:80");
    assert_eq!(status_url(&local, 80), "http://127.0.0.1:80/status");
    assert_eq!(driver_server(&local, 81).unwrap().to_text(), "http://127.0.0.1:81/");
    let e = driver_server(&Host::V6("::1".to_string()), 81).unwrap_err();
    assert!(e.as_inner().to_text().starts_with("parse error: invalid driver url: "));
}

#[test]
fn whether_a_driver_is_ready() {
    let json = |t: &str| JsonValue::parse(t).unwrap();
    let ready = json(r#"{"value": {"ready": true}}"#);
    assert!(is_ready(200, Some(&ready)));
    assert!(!is_ready(500, Some(&ready)));
    assert!(!is_ready(300, Some(&ready)));
    assert!(!is_ready(200, None));
    assert!(!is_ready(200, Some(&json(r#"{"value": {"ready": "true"}}"#))));
    assert!(!is_ready(200, Some(&json(r#"{"ready": true}"#))));
    assert!(matches!(after_answer(Some((200, Some(ready)))), ReadyStep::Ready));
    match after_answer(None) {
        ReadyStep::Sleep(d) => assert_eq!(d.as_millis(), 100),
        _ => unreachable!(),
    }
    let second = Duration::from_secs(1);
    assert!(matches!(after_waiting(&Duration::from_millis(999), &second), ReadyStep::Ask));
    match after_waiting(&second, &second) {
        ReadyStep::Fail(ManagerError::DriverNotReady(t)) => assert_eq!(t.as_millis(), 1000),
        _ => unreachable!(),
    }
}

#[test]
fn drivers_are_known_by_their_keys() {
    let key = |b: BrowserKind, v: &str| DriverKey {
        browser: b,
        version: v.to_string(),
        host: Host::localhost(),
    };
    let mut t = DriverTable::new();
    assert_eq!(t.mint_driver_id(), 0);
    assert_eq!(t.mint_driver_id(), 1);
    t.record(key(BrowserKind::Chrome, "1"), 0);
    t.record(key(BrowserKind::Chrome, "2"), 1);
    assert_eq!(t.find(&key(BrowserKind::Chrome, "1")), Some(0));
    assert_eq!(t.find(&key(BrowserKind::Chrome, "2")), Some(1));
    assert_eq!(t.find(&key(BrowserKind::Edge, "1")), None);
    t.record(key(BrowserKind::Chrome, "1"), 5);
    assert_eq!(t.find(&key(BrowserKind::Chrome, "1")), Some(5));
}

#[test]
fn a_driver_is_probed_for_resolved_fetched_and_started() {
    let mut m = build(builder());
    let b = BrowserKind::Chrome;
    let none = None;
    let (s, a) = m.ensure_driver(b, &none, SearchState::Start, SearchEvent::Begin);
    assert!(matches!(a, SearchAction::Probe));
    let (s, a) = m.ensure_driver(b, &none, s, SearchEvent::Probed(Ok("120".to_string())));
    assert!(matches!(a, SearchAction::Resolve(Some(v)) if v == "120"));
    let (s, a) = m.ensure_driver(b, &none, s, SearchEvent::Resolved(Ok("120.1".to_string())));
    assert!(matches!(a, SearchAction::Fetch(v) if v == "120.1"));
    let (s, a) = m.ensure_driver(b, &none, s, SearchEvent::Fetched(Ok("/d".to_string())));
    assert!(matches!(a, SearchAction::Spawn(p, 0) if p == "/d"));
    let (s, a) = m.ensure_driver(b, &none, s, SearchEvent::Spawned(Ok(())));
    assert!(matches!(a, SearchAction::Use(0)));
    assert!(matches!(s, SearchState::Ended));

    // The next session: the browser is not probed again, and the driver that is alive is used.
    let (s, a) = m.ensure_driver(b, &none, SearchState::Start, SearchEvent::Begin);
    assert!(matches!(a, SearchAction::Resolve(Some(v)) if v == "120"));
    let (s, a) = m.ensure_driver(b, &none, s, SearchEvent::Resolved(Ok("120.1".to_string())));
    assert!(matches!(a, SearchAction::Look(0)));
    let (_, a) = m.ensure_driver(b, &none, s, SearchEvent::Looked(true));
    assert!(matches!(a, SearchAction::Use(0)));

    // And when it has died, a new one is started in its place.
    let (s, _) = m.ensure_driver(b, &none, SearchState::Start, SearchEvent::Begin);
    let (s, _) = m.ensure_driver(b, &none, s, SearchEvent::Resolved(Ok("120.1".to_string())));
    let (s, a) = m.ensure_driver(b, &none, s, SearchEvent::Looked(false));
    assert!(matches!(a, SearchAction::Fetch(_)));
    let (s, a) = m.ensure_driver(b, &none, s, SearchEvent::Fetched(Ok("/d".to_string())));
    assert!(matches!(a, SearchAction::Look(0)));
    let (s, a) = m.ensure_driver(b, &none, s, SearchEvent::Looked(false));
    assert!(matches!(a, SearchAction::Spawn(_, 1)));
    let (s, a) = m.ensure_driver(b, &none, s, SearchEvent::Spawned(Ok(())));
    assert!(matches!(a, SearchAction::Look(0)));
    let (_, a) = m.ensure_driver(b, &none, s, SearchEvent::Looked(false));
    assert!(matches!(a, SearchAction::Use(1)));
}

#[test]
fn a_binary_of_the_user_is_started_as_it_is() {
    let mut m = build(builder().driver_binary(BrowserKind::Chrome, "/mine".to_string()));
    let b = BrowserKind::Chrome;
    let (s, a) = m.ensure_driver(b, &None, SearchState::Start, SearchEvent::Begin);
    assert!(matches!(a, SearchAction::Spawn(p, 0) if p == "/mine"));
    let failed = SearchEvent::Spawned(Err(ManagerError::Spawn("no".to_string())));
    let (_, a) = m.ensure_driver(b, &None, s, failed);
    assert!(matches!(a, SearchAction::Fail(ManagerError::Spawn(_))));
}

#[test]
fn a_search_that_fails() {
    let mut m = build(builder().latest());
    let b = BrowserKind::Edge;
    let gone = || ManagerError::Unavailable("gone".to_string());
    let (s, a) = m.ensure_driver(b, &None, SearchState::Start, SearchEvent::Begin);
    assert!(matches!(a, SearchAction::Resolve(None)));
    let (s, a) = m.ensure_driver(b, &None, s, SearchEvent::Resolved(Err(gone())));
    assert!(matches!(a, SearchAction::Fail(ManagerError::Unavailable(_))));
    assert!(matches!(s, SearchState::Ended));
}

#[test]
fn what_a_search_tells() {
    let mut m = build(builder().latest());
    let b = BrowserKind::Firefox;
    let told = |s: &SearchState, e: &SearchEvent| {
        search_status(b, s, e, "http://u".to_string()).map(|t| format!("{:?}", t))
    };
    let begin = SearchEvent::Begin;
    assert!(told(&SearchState::Start, &begin).unwrap().starts_with("BrowserKindResolved"));
    let (s, _) = m.ensure_driver(b, &None, SearchState::Start, begin);
    let resolved = || SearchEvent::Resolved(Ok("7".to_string()));
    assert!(told(&s, &resolved()).is_none());
    let (s, _) = m.ensure_driver(b, &None, s, resolved());
    let (s, _) = m.ensure_driver(b, &None, s, SearchEvent::Fetched(Ok("/d".to_string())));
    assert!(told(&s, &SearchEvent::Spawned(Ok(()))).is_none());
    let (_, a) = m.ensure_driver(b, &None, s, SearchEvent::Spawned(Ok(())));
    assert!(matches!(a, SearchAction::Use(0)));
    let (s, _) = m.ensure_driver(b, &None, SearchState::Start, SearchEvent::Begin);
    let (s, _) = m.ensure_driver(b, &None, s, resolved());
    assert!(told(&s, &SearchEvent::Looked(false)).is_none());
    match search_status(b, &s, &SearchEvent::Looked(true), "http://u".to_string()) {
        Some(Status::DriverReused { browser, version, url }) => {
            assert_eq!(browser, b);
            assert_eq!(version, "7");
            assert_eq!(url, "http://u");
        }
        other => panic!("{:?}", other),
    }
}

#[test]
fn what_a_process_and_a_session_tell() {
    let b = BrowserKind::Chrome;
    let host = Host::localhost();
    let told = |p: ProcessPoint| process_status(b, "7".to_string(), &host, 80, p);
    assert!(matches!(
        told(ProcessPoint::Spawned(3, "/d".to_string())),
        Status::DriverProcessSpawned { pid: 3, port: 80, version, binary, .. }
            if version == "7" && binary == "/d"
    ));
    assert!(matches!(
        told(ProcessPoint::Ready(Duration::from_millis(5))),
        Status::DriverReady { url, elapsed, .. }
            if url == driver_url(&host, 80) && elapsed.as_millis() == 5
    ));
    assert!(matches!(told(ProcessPoint::Stopped), Status::DriverShutdown { port: 80, .. }));
    let s = || "S".to_string();
    let u = || "U".to_string();
    assert!(matches!(
        session_status(b, SessionPoint::Starting(u())),
        Status::SessionStarting { url, .. } if url == "U"
    ));
    assert!(matches!(
        session_status(b, SessionPoint::Started(s(), u())),
        Status::SessionStarted { session_id, url, .. } if session_id == "S" && url == "U"
    ));
    assert!(matches!(
        session_status(b, SessionPoint::Ended(s())),
        Status::SessionEnded { session_id, .. } if session_id == "S"
    ));
}
