//! What only Firefox has: its options, its preferences and its commands.
use crate::capabilities;
use crate::capabilities::{
    BrowserCapabilitiesHelper, CapabilitiesHelper, FirefoxCapabilities, FirefoxProfileLogDriver,
    LogLevel, LoggingPrefsLogLevel, ToValue,
};
use crate::command::FormatRequestData;
use crate::connection;
use crate::connection::HttpClient;
use crate::error::{WebDriverError, WebDriverResult};
use crate::http;
use crate::http::CmdResponse;
use crate::json;
use crate::json::{Json, JsonValue, Object};
use crate::reply;
use crate::reply::{data_of, FromValue};
use crate::request::{Method, RequestData, RequestView};
use crate::session::SessionHandle;
use crate::text;
use crate::text::{cat3, text_eq};
use crate::types::SessionId;
use vstd::prelude::*;

verus! {

/// The key of the options of Firefox.
pub open spec fn firefox_key() -> Seq<char> {
    "moz:firefoxOptions"@
}

/// An option of Firefox.
pub open spec fn firefox_option(caps: Map<Seq<char>, Json>, name: Seq<char>) -> Option<Json> {
    capabilities::option_of(caps, firefox_key(), name)
}

/// The capabilities with an option of Firefox set.
pub open spec fn with_firefox_option(
    caps: Map<Seq<char>, Json>,
    name: Seq<char>,
    value: Json,
) -> Map<Seq<char>, Json> {
    capabilities::with_option(caps, firefox_key(), name, value)
}

/// The command-line arguments of Firefox: none where the option is no list of texts.
pub open spec fn firefox_args(caps: Map<Seq<char>, Json>) -> Seq<Seq<char>> {
    match firefox_option(caps, "args"@) {
        Some(v) => if <Vec<String> as FromValue>::valid(v) {
            Seq::new(v->Arr_0.len(), |i: int| v->Arr_0[i]->Str_0)
        } else {
            Seq::empty()
        },
        None => Seq::empty(),
    }
}

/// The arguments with one more behind them, unless it is there.
pub open spec fn args_with(args: Seq<Seq<char>>, arg: Seq<char>) -> Seq<Seq<char>> {
    if args.contains(arg) {
        args
    } else {
        args.push(arg)
    }
}

/// The arguments before `n`, without one of them.
pub open spec fn args_without(args: Seq<Seq<char>>, arg: Seq<char>, n: nat) -> Seq<Seq<char>>
    decreases n,
{
    if n == 0 {
        Seq::empty()
    } else {
        let rest = args_without(args, arg, (n - 1) as nat);
        if args[n - 1] == arg {
            rest
        } else {
            rest.push(args[n - 1])
        }
    }
}

/// Without an argument, it is not there, and all others are.
proof fn lemma_args_without(args: Seq<Seq<char>>, arg: Seq<char>, n: nat)
    requires
        n <= args.len(),
    ensures
        !args_without(args, arg, n).contains(arg),
        forall|other: Seq<char>|
            other != arg ==> (#[trigger] args_without(args, arg, n).contains(other) <==> args.take(
                n as int,
            ).contains(other)),
    decreases n,
{
    if n > 0 {
        let m = (n - 1) as nat;
        lemma_args_without(args, arg, m);
        let rest = args_without(args, arg, m);
        assert(args.take(n as int) == args.take(m as int).push(args[m as int]));
        assert forall|other: Seq<char>| other != arg implies (
        #[trigger] args_without(args, arg, n).contains(other) <==> args.take(n as int).contains(
            other,
        )) by {
            let all = args.take(m as int);
            assert(all.push(args[m as int]).contains(other) <==> all.contains(other) || args[m as int]
                == other) by {
                if all.contains(other) {
                    let k = choose|k: int| 0 <= k < all.len() && all[k] == other;
                    assert(all.push(args[m as int])[k] == other);
                }
                if args[m as int] == other {
                    assert(all.push(args[m as int])[all.len() as int] == other);
                }
            }
            if args[m as int] != arg {
                if rest.contains(other) {
                    let k = choose|k: int| 0 <= k < rest.len() && rest[k] == other;
                    assert(rest.push(args[m as int])[k] == other);
                }
                if args[m as int] == other {
                    assert(rest.push(args[m as int])[rest.len() as int] == other);
                }
            }
        }
    }
}

/// A list of texts that is written is read back.
proof fn lemma_texts_read_back(texts: Seq<Seq<char>>)
    ensures
        <Vec<String> as FromValue>::valid(Json::Arr(json::strs(texts))),
        Seq::new(json::strs(texts).len(), |i: int| json::strs(texts)[i]->Str_0) == texts,
{
    assert forall|i: int| 0 <= i < texts.len() implies <String as FromValue>::valid(
        #[trigger] json::strs(texts)[i],
    ) by {}
}

/// An argument that was added is set, and so is every argument that was set before; no other one
/// is.
pub proof fn lemma_arg_added(caps: Map<Seq<char>, Json>, arg: Seq<char>)
    ensures
        ({
            let after = with_firefox_option(
                caps,
                "args"@,
                Json::Arr(json::strs(args_with(firefox_args(caps), arg))),
            );
            &&& firefox_args(after) == args_with(firefox_args(caps), arg)
            &&& firefox_args(after).contains(arg)
            &&& forall|other: Seq<char>|
                other != arg ==> (#[trigger] firefox_args(after).contains(other) <==> firefox_args(
                    caps,
                ).contains(other))
        }),
{
    let args = firefox_args(caps);
    lemma_texts_read_back(args_with(args, arg));
    if !args.contains(arg) {
        assert(args.push(arg)[args.len() as int] == arg);
        assert forall|other: Seq<char>| other != arg implies (#[trigger] args.push(arg).contains(
            other,
        ) <==> args.contains(other)) by {
            if args.contains(other) {
                let k = choose|k: int| 0 <= k < args.len() && args[k] == other;
                assert(args.push(arg)[k] == other);
            }
        }
    }
}

/// An argument that was removed is no longer set, and every other argument is set as before.
pub proof fn lemma_arg_removed(caps: Map<Seq<char>, Json>, arg: Seq<char>)
    ensures
        ({
            let args = firefox_args(caps);
            let after = with_firefox_option(
                caps,
                "args"@,
                Json::Arr(json::strs(args_without(args, arg, args.len()))),
            );
            &&& !firefox_args(after).contains(arg)
            &&& forall|other: Seq<char>|
                other != arg ==> (#[trigger] firefox_args(after).contains(other) <==> args.contains(
                    other,
                ))
        }),
{
    let args = firefox_args(caps);
    lemma_args_without(args, arg, args.len());
    lemma_texts_read_back(args_without(args, arg, args.len()));
    assert(args.take(args.len() as int) == args);
}

/// Whether `r` is the log level of `geckodriver`, which is the default one where none is set.
pub open spec fn log_level_result(
    caps: Map<Seq<char>, Json>,
    r: WebDriverResult<LogLevel>,
) -> bool {
    let level = match firefox_option(caps, "log"@) {
        Some(v) => json::member(v, "level"@),
        None => None,
    };
    match level {
        None => r == Ok::<LogLevel, WebDriverError>(LogLevel::Default),
        Some(v) => reply::conversion(v, r),
    }
}

/// A log level that was set is the one that is read.
pub proof fn lemma_log_level_is_read_back(
    caps: Map<Seq<char>, Json>,
    level: LogLevel,
    r: WebDriverResult<LogLevel>,
)
    requires
        log_level_result(
            with_firefox_option(caps, "log"@, json::obj1("level"@, Json::Str(level.name()))),
            r,
        ),
    ensures
        r == Ok::<LogLevel, WebDriverError>(level),
{
    let log = json::obj1("level"@, Json::Str(level.name()));
    capabilities::lemma_option_set(caps, firefox_key(), "log"@, log);
    capabilities::lemma_log_level_round_trip(level);
    assert(json::member(log, "level"@) == Some(Json::Str(level.name())));
}

/// Whether a list of texts has a text in it.
fn contains_text(list: &Vec<String>, s: &str) -> (r: bool)
    ensures
        r == text::texts(list@).contains(s@),
{
    let mut i: usize = 0;
    while i < list.len()
        invariant
            i <= list.len(),
            forall|j: int| 0 <= j < i ==> text::texts(list@)[j] != s@,
        decreases list.len() - i,
    {
        if text_eq(list[i].as_str(), s) {
            assert(text::texts(list@)[i as int] == s@);
            return true;
        }
        i = i + 1;
    }
    false
}

impl FirefoxCapabilities {
    /// Set the selenium logging preferences.
    ///
    /// To set the `geckodriver` log level, use `set_log_level()` instead.
    pub fn set_logging_prefs(
        &mut self,
        component: String,
        log_level: LoggingPrefsLogLevel,
    ) -> (r: WebDriverResult<()>)
        ensures
            r is Ok,
            final(self)@ == old(self)@.insert(
                "loggingPrefs"@,
                json::obj1(component@, Json::Str(log_level.name())),
            ),
    {
        self.set_base_capability(
            "loggingPrefs",
            JsonValue::object1(component.as_str(), log_level.to_value()),
        )
    }

    /// Get the `geckodriver` log level.
    pub fn log_level(&self) -> (r: WebDriverResult<LogLevel>)
        ensures
            log_level_result(self@, r),
    {
        let log: JsonValue = match self.browser_option("log") {
            Some(v) => v,
            None => return Ok(LogLevel::Default),
        };
        match log.get("level") {
            Some(v) => reply::convert_json(v),
            None => Ok(LogLevel::Default),
        }
    }

    /// Set the `geckodriver` log level.
    pub fn set_log_level(&mut self, log_level: LogLevel) -> (r: WebDriverResult<()>)
        ensures
            r is Ok,
            final(self)@ == with_firefox_option(
                old(self)@,
                "log"@,
                json::obj1("level"@, Json::Str(log_level.name())),
            ),
    {
        self.insert_browser_option("log", JsonValue::object1("level", log_level.to_value()))
    }

    /// Set the start command for the firefox binary.
    pub fn set_firefox_binary(&mut self, start_cmd: &str) -> (r: WebDriverResult<()>)
        ensures
            r is Ok,
            final(self)@ == with_firefox_option(old(self)@, "binary"@, Json::Str(start_cmd@)),
    {
        self.insert_browser_option("binary", start_cmd)
    }

    /// Set the firefox preferences to use.
    pub fn set_preferences(&mut self, preferences: FirefoxPreferences) -> (r: WebDriverResult<()>)
        ensures
            r is Ok,
            final(self)@ == with_firefox_option(old(self)@, "prefs"@, Json::Obj(preferences@)),
    {
        self.insert_browser_option("prefs", preferences.into_value())
    }

    /// Get the firefox profile zip as a base64-encoded string.
    pub fn encoded_profile(&self) -> (r: Option<String>)
        ensures
            text::opt_text(r) == json::str_field(firefox_option(self@, "profile"@)),
    {
        self.browser_option("profile")
    }

    /// Set the firefox profile to use.
    ///
    /// The profile must be a zipped, base64-encoded string of the profile directory.
    pub fn set_encoded_profile(&mut self, profile: &str) -> (r: WebDriverResult<()>)
        ensures
            r is Ok,
            final(self)@ == with_firefox_option(old(self)@, "profile"@, Json::Str(profile@)),
    {
        self.insert_browser_option("profile", profile)
    }

    /// Get the current list of command-line arguments to `geckodriver` as a vec.
    pub fn args(&self) -> (r: Vec<String>)
        ensures
            text::texts(r@) == firefox_args(self@),
    {
        let args: Option<Vec<String>> = self.browser_option("args");
        match args {
            Some(args) => {
                proof {
                    let v = firefox_option(self@, "args"@)->0;
                    assert(text::texts(args@) == Seq::new(
                        v->Arr_0.len(),
                        |i: int| v->Arr_0[i]->Str_0,
                    )) by {
                        assert forall|i: int| 0 <= i < args@.len() implies text::texts(args@)[i]
                            == v->Arr_0[i]->Str_0 by {
                            let x = args@[i];
                            assert(<String as FromValue>::reads(v->Arr_0[i], args[i]));
                        }
                    }
                }
                args
            },
            None => {
                let none: Vec<String> = Vec::new();
                assert(text::texts(none@) == Seq::<Seq<char>>::empty());
                none
            },
        }
    }

    /// Add the specified command-line argument to `geckodriver`.
    pub fn add_arg(&mut self, arg: &str) -> (r: WebDriverResult<()>)
        ensures
            r is Ok,
            final(self)@ == with_firefox_option(
                old(self)@,
                "args"@,
                Json::Arr(json::strs(args_with(firefox_args(old(self)@), arg@))),
            ),
    {
        let mut args: Vec<String> = self.args();
        let ghost before = text::texts(args@);
        if !contains_text(&args, arg) {
            args.push(arg.to_owned());
            assert(text::texts(args@) == before.push(arg@));
        }
        self.insert_browser_option("args", args)
    }

    /// Remove the specified `geckodriver` command-line argument if it had been added previously.
    pub fn remove_arg(&mut self, arg: &str) -> (r: WebDriverResult<()>)
        ensures
            r is Ok,
            final(self)@ == (if firefox_args(old(self)@).len() == 0 {
                old(self)@
            } else {
                with_firefox_option(
                    old(self)@,
                    "args"@,
                    Json::Arr(
                        json::strs(
                            args_without(
                                firefox_args(old(self)@),
                                arg@,
                                firefox_args(old(self)@).len(),
                            ),
                        ),
                    ),
                )
            }),
    {
        let args: Vec<String> = self.args();
        let ghost all = text::texts(args@);
        if args.len() == 0 {
            return Ok(());
        }
        let mut kept: Vec<String> = Vec::new();
        let mut i: usize = 0;
        assert(text::texts(kept@) == args_without(all, arg@, 0));
        while i < args.len()
            invariant
                i <= args.len(),
                all == text::texts(args@),
                text::texts(kept@) == args_without(all, arg@, i as nat),
            decreases args.len() - i,
        {
            let ghost before = text::texts(kept@);
            if !text_eq(args[i].as_str(), arg) {
                let item: String = args[i].clone();
                kept.push(item);
                assert(text::texts(kept@) == before.push(item@));
            }
            i = i + 1;
        }
        self.insert_browser_option("args", kept)
    }

    /// Return true if the specified arg is currently set.
    pub fn has_arg(&self, arg: &str) -> (r: bool)
        ensures
            r == firefox_args(self@).contains(arg@),
    {
        contains_text(&self.args(), arg)
    }

    /// Set the -headless option.
    pub fn set_headless(&mut self) -> (r: WebDriverResult<()>)
        ensures
            r is Ok,
            final(self)@ == with_firefox_option(
                old(self)@,
                "args"@,
                Json::Arr(json::strs(args_with(firefox_args(old(self)@), "-headless"@))),
            ),
    {
        self.add_arg("-headless")
    }

    /// Unset the -headless option.
    pub fn unset_headless(&mut self) -> (r: WebDriverResult<()>)
        ensures
            r is Ok,
            final(self)@ == (if firefox_args(old(self)@).len() == 0 {
                old(self)@
            } else {
                with_firefox_option(
                    old(self)@,
                    "args"@,
                    Json::Arr(
                        json::strs(
                            args_without(
                                firefox_args(old(self)@),
                                "-headless"@,
                                firefox_args(old(self)@).len(),
                            ),
                        ),
                    ),
                )
            }),
    {
        self.remove_arg("-headless")
    }

    /// Return true if the -headless option is set.
    pub fn is_headless(&self) -> (r: bool)
        ensures
            r == firefox_args(self@).contains("-headless"@),
    {
        self.has_arg("-headless")
    }
}

/// Firefox preferences. See `FirefoxCapabilities::set_preferences()` for details.
#[derive(Debug)]
pub struct FirefoxPreferences {
    preferences: Object,
}

impl Default for FirefoxPreferences {
    fn default() -> (r: Self)
        ensures
            r@ == Map::<Seq<char>, Json>::empty(),
    {
        FirefoxPreferences::new()
    }
}

impl FirefoxPreferences {
    /// The preferences.
    pub closed spec fn view(&self) -> Map<Seq<char>, Json> {
        self.preferences@
    }

    /// Create a new `FirefoxPreferences` instance.
    pub fn new() -> (r: Self)
        ensures
            r@ == Map::<Seq<char>, Json>::empty(),
    {
        FirefoxPreferences { preferences: Object::new() }
    }

    /// The preferences as a value.
    pub fn into_value(self) -> (r: JsonValue)
        ensures
            r@ == Json::Obj(self@),
    {
        JsonValue::Object(self.preferences)
    }

    /// Sets the specified firefox preference. This is a helper method for the various
    /// specific option methods.
    pub fn set<T: ToValue>(&mut self, key: &str, value: T) -> (r: WebDriverResult<()>)
        ensures
            r is Ok,
            final(self)@ == old(self)@.insert(key@, value.as_json()),
    {
        self.preferences.insert(key, value.to_value());
        Ok(())
    }

    /// Unsets the specified firefox preference. This is a helper method for the various
    /// specific option methods.
    pub fn unset(&mut self, key: &str) -> (r: WebDriverResult<()>)
        ensures
            r is Ok,
            final(self)@ == old(self)@.remove(key@),
    {
        let gone: Option<JsonValue> = self.preferences.remove(key);
        Ok(())
    }

    /// Sets accept untrusted certs.
    pub fn set_accept_untrusted_certs(&mut self, value: bool) -> (r: WebDriverResult<()>)
        ensures
            r is Ok,
            final(self)@ == old(self)@.insert("webdriver_accept_untrusted_certs"@, Json::Bool(value)),
    {
        self.set("webdriver_accept_untrusted_certs", value)
    }

    /// Unsets accept untrusted certs.
    pub fn unset_accept_untrusted_certs(&mut self) -> (r: WebDriverResult<()>)
        ensures
            r is Ok,
            final(self)@ == old(self)@.remove("webdriver_accept_untrusted_certs"@),
    {
        self.unset("webdriver_accept_untrusted_certs")
    }

    /// Sets assume untrusted issuer.
    pub fn set_assume_untrusted_issuer(&mut self, value: bool) -> (r: WebDriverResult<()>)
        ensures
            r is Ok,
            final(self)@ == old(self)@.insert("webdriver_assume_untrusted_issuer"@, Json::Bool(value)),
    {
        self.set("webdriver_assume_untrusted_issuer", value)
    }

    /// Unsets assume untrusted issuer.
    pub fn unset_assume_untrusted_issuer(&mut self) -> (r: WebDriverResult<()>)
        ensures
            r is Ok,
            final(self)@ == old(self)@.remove("webdriver_assume_untrusted_issuer"@),
    {
        self.unset("webdriver_assume_untrusted_issuer")
    }

    /// Sets the log driver.
    pub fn set_log_driver(&mut self, value: FirefoxProfileLogDriver) -> (r: WebDriverResult<()>)
        ensures
            r is Ok,
            final(self)@ == old(self)@.insert("webdriver.log.driver"@, Json::Str(value.name())),
    {
        self.set("webdriver.log.driver", value)
    }

    /// Unsets the log driver.
    pub fn unset_log_driver(&mut self) -> (r: WebDriverResult<()>)
        ensures
            r is Ok,
            final(self)@ == old(self)@.remove("webdriver.log.driver"@),
    {
        self.unset("webdriver.log.driver")
    }

    /// Sets the log file.
    pub fn set_log_file(&mut self, value: String) -> (r: WebDriverResult<()>)
        ensures
            r is Ok,
            final(self)@ == old(self)@.insert("webdriver.log.file"@, Json::Str(value@)),
    {
        self.set("webdriver.log.file", value)
    }

    /// Unsets the log file.
    pub fn unset_log_file(&mut self) -> (r: WebDriverResult<()>)
        ensures
            r is Ok,
            final(self)@ == old(self)@.remove("webdriver.log.file"@),
    {
        self.unset("webdriver.log.file")
    }

    /// Sets the load strategy.
    pub fn set_load_strategy(&mut self, value: String) -> (r: WebDriverResult<()>)
        ensures
            r is Ok,
            final(self)@ == old(self)@.insert("webdriver.load.strategy"@, Json::Str(value@)),
    {
        self.set("webdriver.load.strategy", value)
    }

    /// Unsets the load strategy.
    pub fn unset_load_strategy(&mut self) -> (r: WebDriverResult<()>)
        ensures
            r is Ok,
            final(self)@ == old(self)@.remove("webdriver.load.strategy"@),
    {
        self.unset("webdriver.load.strategy")
    }

    /// Sets the webdriver port.
    pub fn set_webdriver_port(&mut self, value: u16) -> (r: WebDriverResult<()>)
        ensures
            r is Ok,
            final(self)@ == old(self)@.insert("webdriver_firefox_port"@, Json::Int(value as int)),
    {
        self.set("webdriver_firefox_port", value)
    }

    /// Unsets the webdriver port.
    pub fn unset_webdriver_port(&mut self) -> (r: WebDriverResult<()>)
        ensures
            r is Ok,
            final(self)@ == old(self)@.remove("webdriver_firefox_port"@),
    {
        self.unset("webdriver_firefox_port")
    }

    /// Sets the user agent.
    pub fn set_user_agent(&mut self, value: String) -> (r: WebDriverResult<()>)
        ensures
            r is Ok,
            final(self)@ == old(self)@.insert("general.useragent.override"@, Json::Str(value@)),
    {
        self.set("general.useragent.override", value)
    }

    /// Unsets the user agent.
    pub fn unset_user_agent(&mut self) -> (r: WebDriverResult<()>)
        ensures
            r is Ok,
            final(self)@ == old(self)@.remove("general.useragent.override"@),
    {
        self.unset("general.useragent.override")
    }
}

/// Extra commands specific to Firefox.
#[derive(Debug)]
pub enum FirefoxCommand {
    /// Install the specified add-on.
    InstallAddon {
        /// Path to the add-on.
        path: String,
        /// True if the add-on is temporary.
        temporary: Option<bool>,
    },
    /// Take a full screenshot.
    FullScreenshot {},
}

/// A truth value that may be missing.
pub open spec fn opt_bool(b: Option<bool>) -> Json {
    match b {
        Some(b) => Json::Bool(b),
        None => Json::Null,
    }
}

/// The request to install an add-on.
pub open spec fn install_request(session: Seq<char>, path: Seq<char>, temporary: Option<bool>) -> RequestView {
    RequestView {
        method: Method::POST,
        uri: "/session/"@ + session + "/moz/addon/install"@,
        body: Some(
            json::obj2("path"@, Json::Str(path), "temporary"@, opt_bool(temporary)),
        ),
    }
}

/// The request to take a full screenshot.
pub open spec fn full_screenshot_request(session: Seq<char>) -> RequestView {
    RequestView {
        method: Method::GET,
        uri: "/session/"@ + session + "/moz/screenshot/full"@,
        body: None,
    }
}

impl FormatRequestData for FirefoxCommand {
    open spec fn request_in(&self, session: Seq<char>) -> RequestView {
        match self {
            FirefoxCommand::InstallAddon { path, temporary } => install_request(
                session,
                path@,
                *temporary,
            ),
            FirefoxCommand::FullScreenshot {} => full_screenshot_request(session),
        }
    }

    fn format_request(&self, session_id: &SessionId) -> (r: RequestData) {
        match self {
            FirefoxCommand::InstallAddon { path, temporary } => {
                let temporary: JsonValue = match temporary {
                    Some(b) => JsonValue::Bool(*b),
                    None => JsonValue::Null,
                };
                RequestData::new(
                    Method::POST,
                    cat3("/session/", session_id.as_str(), "/moz/addon/install"),
                ).add_body(
                    JsonValue::object2(
                        "path",
                        JsonValue::text(path.as_str()),
                        "temporary",
                        temporary,
                    ),
                )
            },
            FirefoxCommand::FullScreenshot {} => RequestData::new(
                Method::GET,
                cat3("/session/", session_id.as_str(), "/moz/screenshot/full"),
            ),
        }
    }
}

/// Provider of Firefox-specific commands.
#[derive(Debug)]
pub struct FirefoxTools<'a, H, G> {
    /// The underlying session handle.
    pub handle: &'a SessionHandle<H, G>,
}

impl<'a, H: HttpClient, G> FirefoxTools<'a, H, G> {
    /// Whether `response` may be what a request comes to in the session.
    pub open spec fn may_respond(
        &self,
        request: RequestView,
        response: WebDriverResult<CmdResponse>,
    ) -> bool {
        connection::may_respond(
            self.handle@.client,
            request,
            self.handle@.server_url,
            self.handle@.config,
            response,
        )
    }

    /// Create a new FirefoxTools struct.
    pub fn new(handle: &'a SessionHandle<H, G>) -> (r: Self)
        ensures
            *r.handle == *handle,
    {
        FirefoxTools { handle }
    }

    /// Install the specified firefox add-on.
    pub fn install_addon(&self, path: &str, temporary: Option<bool>) -> (r: WebDriverResult<()>)
        ensures
            exists|response: WebDriverResult<CmdResponse>| #[trigger]
                self.may_respond(
                    install_request(self.handle@.session_id, path@, temporary),
                    response,
                ) && match response {
                    Err(e) => r == Err::<(), WebDriverError>(e),
                    Ok(_) => r is Ok,
                },
    {
        let response: WebDriverResult<CmdResponse> = self.handle.cmd(
            FirefoxCommand::InstallAddon { path: path.to_owned(), temporary },
        );
        assert(self.may_respond(
            install_request(self.handle@.session_id, path@, temporary),
            response,
        ));
        match response {
            Ok(_) => Ok(()),
            Err(e) => Err(e),
        }
    }

    /// Take a full-page screenshot of the current window and return it as PNG bytes.
    pub fn full_screenshot_as_png(&self) -> (r: WebDriverResult<Vec<u8>>)
        ensures
            exists|response: WebDriverResult<CmdResponse>, encoded: WebDriverResult<String>|
                #![trigger self.may_respond(full_screenshot_request(self.handle@.session_id), response), reply::data_result(encoded, r)]
                self.may_respond(full_screenshot_request(self.handle@.session_id), response)
                    && match response {
                    Err(e) => r == Err::<Vec<u8>, WebDriverError>(e),
                    Ok(c) => match json::member(c.body@, "value"@) {
                        Some(v) => reply::conversion(v, encoded) && reply::data_result(encoded, r),
                        None => r matches Err(e) && http::is_json_error(
                            e,
                            "Unexpected response body"@,
                        ),
                    },
                },
    {
        let response: WebDriverResult<CmdResponse> = self.handle.cmd(
            FirefoxCommand::FullScreenshot {},
        );
        let ghost g = response;
        assert(self.may_respond(full_screenshot_request(self.handle@.session_id), g));
        match response {
            Ok(c) => {
                let encoded: WebDriverResult<String> = c.value();
                let ghost text = encoded;
                let r: WebDriverResult<Vec<u8>> = data_of(encoded);
                assert(reply::data_result(text, r));
                r
            },
            Err(e) => {
                let r: WebDriverResult<Vec<u8>> = Err(e);
                proof {
                    let ghost any: WebDriverResult<String> = Err(e);
                    assert(reply::data_result(any, r));
                }
                r
            },
        }
    }
}

} // verus!
