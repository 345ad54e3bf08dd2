//! What Firefox is told.
use vstd::prelude::*;

use crate::capabilities::{
    FirefoxCapabilities, FirefoxProfileLogDriver, LogLevel, LoggingPrefsLogLevel, ToValue,
};
use crate::command::FormatRequestData;
use crate::connection::HttpClient;
use crate::error::WebDriverResult;
use crate::firefox::{FirefoxCommand, FirefoxPreferences, FirefoxTools};
use crate::firefox;
use crate::http::CmdResponse;
use crate::json::{Json, JsonValue};
use crate::laws::capabilities::{options_in, sets};
use crate::laws::commands;
use crate::laws;
use crate::request::{Method, RequestData, RequestView};
use crate::text;
use crate::types::SessionId;

verus! {

/// An option of Firefox was set, the others and everything beside them were kept.
pub open spec fn option_set(
    before: Map<Seq<char>, Json>,
    after: Map<Seq<char>, Json>,
    name: Seq<char>,
    value: Json,
) -> bool {
    sets(
        before,
        after,
        "moz:firefoxOptions"@,
        Json::Obj(options_in(before, "moz:firefoxOptions"@).insert(name, value)),
    )
}

/// An option of Firefox.
pub open spec fn option(caps: Map<Seq<char>, Json>, name: Seq<char>) -> Option<Json> {
    let options = options_in(caps, "moz:firefoxOptions"@);
    if options.contains_key(name) {
        Some(options[name])
    } else {
        None
    }
}

proof fn lemma_option_set(caps: Map<Seq<char>, Json>, name: Seq<char>, value: Json)
    ensures
        option_set(caps, firefox::with_firefox_option(caps, name, value), name, value),
        firefox::firefox_option(caps, name) == option(caps, name),
        option(firefox::with_firefox_option(caps, name, value), name) == Some(value),
{
    laws::capabilities::law_options(caps, "moz:firefoxOptions"@, name, value);
}

/// The binary, the profile, the preferences and the log level of Firefox stand each under its own
/// name among its options.
pub proof fn law_firefox_options(
    t: &str,
    prefs: FirefoxPreferences,
    level: LogLevel,
    word: &'static str,
    written: JsonValue,
)
    requires
        call_ensures(LogLevel::as_str, (&level,), word),
        call_ensures(FirefoxPreferences::into_value, (prefs,), written),
    ensures
        forall|c: &mut FirefoxCapabilities, r: WebDriverResult<()>| #[trigger]
            call_ensures(FirefoxCapabilities::set_firefox_binary, (c, t), r)
            ==> r is Ok && option_set((*c)@, final(c)@, "binary"@, Json::Str(t@)),
        forall|c: &mut FirefoxCapabilities, r: WebDriverResult<()>| #[trigger]
            call_ensures(FirefoxCapabilities::set_encoded_profile, (c, t), r)
            ==> r is Ok && option_set((*c)@, final(c)@, "profile"@, Json::Str(t@)),
        forall|c: &mut FirefoxCapabilities, r: WebDriverResult<()>| #[trigger]
            call_ensures(FirefoxCapabilities::set_preferences, (c, prefs), r)
            ==> r is Ok && option_set((*c)@, final(c)@, "prefs"@, written@),
        forall|c: &mut FirefoxCapabilities, r: WebDriverResult<()>| #[trigger]
            call_ensures(FirefoxCapabilities::set_log_level, (c, level), r)
            ==> r is Ok
            && option_set((*c)@, final(c)@, "log"@, Json::Obj(map!["level"@ => Json::Str(word@)])),
{
    assert forall|c: &mut FirefoxCapabilities, r: WebDriverResult<()>| #[trigger]
        call_ensures(FirefoxCapabilities::set_firefox_binary, (c, t), r)
        implies r is Ok && option_set((*c)@, final(c)@, "binary"@, Json::Str(t@)) by {
        lemma_option_set((*c)@, "binary"@, Json::Str(t@));
    }
    assert forall|c: &mut FirefoxCapabilities, r: WebDriverResult<()>| #[trigger]
        call_ensures(FirefoxCapabilities::set_encoded_profile, (c, t), r)
        implies r is Ok && option_set((*c)@, final(c)@, "profile"@, Json::Str(t@)) by {
        lemma_option_set((*c)@, "profile"@, Json::Str(t@));
    }
    assert forall|c: &mut FirefoxCapabilities, r: WebDriverResult<()>| #[trigger]
        call_ensures(FirefoxCapabilities::set_preferences, (c, prefs), r)
        implies r is Ok && option_set((*c)@, final(c)@, "prefs"@, written@) by {
        lemma_option_set((*c)@, "prefs"@, written@);
    }
    assert forall|c: &mut FirefoxCapabilities, r: WebDriverResult<()>| #[trigger]
        call_ensures(FirefoxCapabilities::set_log_level, (c, level), r)
        implies r is Ok
        && option_set((*c)@, final(c)@, "log"@, Json::Obj(map!["level"@ => Json::Str(word@)])) by {
        lemma_option_set((*c)@, "log"@, Json::Obj(map!["level"@ => Json::Str(word@)]));
    }
}

/// The log level of a component stands under its name, in place of those set before.
pub proof fn law_logging_prefs(component: String, level: LoggingPrefsLogLevel, word: &'static str)
    requires
        call_ensures(LoggingPrefsLogLevel::as_str, (&level,), word),
    ensures
        forall|c: &mut FirefoxCapabilities, r: WebDriverResult<()>| #[trigger]
            call_ensures(FirefoxCapabilities::set_logging_prefs, (c, component, level), r)
            ==> r is Ok
            && sets((*c)@, final(c)@, "loggingPrefs"@,
            Json::Obj(map![component@ => Json::Str(word@)])),
{
}

/// A profile is read where it is a text, and a log level is `default` where none is set and an error
/// where it is no level.
pub proof fn law_firefox_readers(
    c: &FirefoxCapabilities,
    profile: Option<String>,
    level: WebDriverResult<LogLevel>,
)
    requires
        call_ensures(FirefoxCapabilities::encoded_profile, (c,), profile),
        call_ensures(FirefoxCapabilities::log_level, (c,), level),
    ensures
        match profile {
            Some(p) => option(c@, "profile"@) == Some(Json::Str(p@)),
            None => !(option(c@, "profile"@) matches Some(Json::Str(_))),
        },
        option(c@, "log"@) is None ==> (level matches Ok(l) && l is Default),
        option(c@, "log"@) is Some ==> match laws::entry(option(c@, "log"@)->0, "level"@) {
            None => level matches Ok(l) && l is Default,
            Some(v) => match level {
                Ok(l) => v == Json::Str(
                    match l {
                        LogLevel::Trace => "trace"@,
                        LogLevel::Debug => "debug"@,
                        LogLevel::Config => "config"@,
                        LogLevel::Info => "info"@,
                        LogLevel::Warn => "warn"@,
                        LogLevel::Error => "error"@,
                        LogLevel::Fatal => "fatal"@,
                        LogLevel::Default => "default"@,
                    },
                ),
                Err(_) => !(v is Str) || !set![
                    "trace"@,
                    "debug"@,
                    "config"@,
                    "info"@,
                    "warn"@,
                    "error"@,
                    "fatal"@,
                    "default"@,
                ].contains(v->Str_0),
            },
        },
{
    lemma_option_set(c@, "profile"@, Json::Null);
    lemma_option_set(c@, "log"@, Json::Null);
}

/// The arguments of Firefox: the list of texts among its options, and none where it is no such list.
pub open spec fn args_in(caps: Map<Seq<char>, Json>) -> Seq<Seq<char>> {
    match option(caps, "args"@) {
        Some(Json::Arr(items)) => if forall|i: int|
            0 <= i < items.len() ==> (#[trigger] items[i]) is Str {
            Seq::new(items.len(), |i: int| items[i]->Str_0)
        } else {
            Seq::empty()
        },
        _ => Seq::empty(),
    }
}

proof fn lemma_args(caps: Map<Seq<char>, Json>)
    ensures
        firefox::firefox_args(caps) == args_in(caps),
{
    lemma_option_set(caps, "args"@, Json::Null);
    if let Some(Json::Arr(items)) = option(caps, "args"@) {
        assert(forall|i: int|
            0 <= i < items.len() ==> (<String as crate::reply::FromValue>::valid(
                #[trigger] items[i],
            ) <==> items[i] is Str));
        assert(firefox::firefox_args(caps) =~= args_in(caps));
    }
}

proof fn lemma_args_written(caps: Map<Seq<char>, Json>, args: Seq<Seq<char>>)
    ensures
        args_in(
            firefox::with_firefox_option(caps, "args"@, Json::Arr(crate::json::strs(args))),
        ) == args,
        option_set(
            caps,
            firefox::with_firefox_option(caps, "args"@, Json::Arr(crate::json::strs(args))),
            "args"@,
            Json::Arr(crate::json::strs(args)),
        ),
{
    let value = Json::Arr(crate::json::strs(args));
    lemma_option_set(caps, "args"@, value);
    let items = crate::json::strs(args);
    assert(items.len() == args.len());
    assert(forall|i: int| 0 <= i < items.len() ==> #[trigger] items[i] == Json::Str(args[i]));
    assert(Seq::new(items.len(), |i: int| items[i]->Str_0) =~= args);
}

/// The arguments but for one.
pub open spec fn without(args: Seq<Seq<char>>, arg: Seq<char>) -> Seq<Seq<char>> {
    args.filter(|a: Seq<char>| a != arg)
}

proof fn lemma_without(args: Seq<Seq<char>>, arg: Seq<char>, n: nat)
    requires
        n <= args.len(),
    ensures
        firefox::args_without(args, arg, n) == without(args.take(n as int), arg),
    decreases n,
{
    reveal(Seq::filter);
    if n == 0 {
        assert(without(args.take(0), arg) =~= Seq::empty());
    } else {
        lemma_without(args, arg, (n - 1) as nat);
        assert(args.take(n as int).drop_last() =~= args.take(n - 1));
        assert(args.take(n as int).last() == args[n - 1]);
    }
}

/// The arguments are read as they are, and an argument is there where it stands among them.
pub proof fn law_arguments(c: &FirefoxCapabilities, arg: &str, all: Vec<String>, there: bool,
    headless: bool)
    requires
        call_ensures(FirefoxCapabilities::args, (c,), all),
        call_ensures(FirefoxCapabilities::has_arg, (c, arg), there),
        call_ensures(FirefoxCapabilities::is_headless, (c,), headless),
    ensures
        text::texts(all@) == args_in(c@),
        there <==> args_in(c@).contains(arg@),
        headless <==> args_in(c@).contains("-headless"@),
{
    lemma_args(c@);
}

/// An argument is added at the end where it is not there yet, and taken out wherever it is; the
/// other arguments stay in their order.
pub proof fn law_argument_changes(arg: &str)
    ensures
        forall|c: &mut FirefoxCapabilities, r: WebDriverResult<()>| #[trigger]
            call_ensures(FirefoxCapabilities::add_arg, (c, arg), r)
            ==> r is Ok && args_in(final(c)@) == (if args_in((*c)@).contains(arg@) {
            args_in((*c)@)
        } else {
            args_in((*c)@).push(arg@)
        }),
        forall|c: &mut FirefoxCapabilities, r: WebDriverResult<()>| #[trigger]
            call_ensures(FirefoxCapabilities::remove_arg, (c, arg), r)
            ==> r is Ok && args_in(final(c)@) == without(args_in((*c)@), arg@),
        forall|c: &mut FirefoxCapabilities, r: WebDriverResult<()>| #[trigger]
            call_ensures(FirefoxCapabilities::set_headless, (c,), r)
            ==> r is Ok && args_in(final(c)@) == (if args_in((*c)@).contains("-headless"@) {
            args_in((*c)@)
        } else {
            args_in((*c)@).push("-headless"@)
        }),
        forall|c: &mut FirefoxCapabilities, r: WebDriverResult<()>| #[trigger]
            call_ensures(FirefoxCapabilities::unset_headless, (c,), r)
            ==> r is Ok && args_in(final(c)@) == without(args_in((*c)@), "-headless"@),
{
    assert forall|c: &mut FirefoxCapabilities, r: WebDriverResult<()>| #[trigger]
        call_ensures(FirefoxCapabilities::add_arg, (c, arg), r)
        implies r is Ok && args_in(final(c)@) == (if args_in((*c)@).contains(arg@) {
        args_in((*c)@)
    } else {
        args_in((*c)@).push(arg@)
    }) by {
        lemma_args((*c)@);
        lemma_args_written((*c)@, firefox::args_with(args_in((*c)@), arg@));
    }
    assert forall|c: &mut FirefoxCapabilities, r: WebDriverResult<()>| #[trigger]
        call_ensures(FirefoxCapabilities::remove_arg, (c, arg), r)
        implies r is Ok && args_in(final(c)@) == without(args_in((*c)@), arg@) by {
        let args = args_in((*c)@);
        lemma_args((*c)@);
        lemma_without(args, arg@, args.len());
        assert(args.take(args.len() as int) =~= args);
        lemma_args_written((*c)@, firefox::args_without(args, arg@, args.len()));
        if args.len() == 0 {
            reveal(Seq::filter);
            assert(without(args, arg@) =~= args);
        }
    }
    assert forall|c: &mut FirefoxCapabilities, r: WebDriverResult<()>| #[trigger]
        call_ensures(FirefoxCapabilities::set_headless, (c,), r)
        implies r is Ok && args_in(final(c)@) == (if args_in((*c)@).contains("-headless"@) {
        args_in((*c)@)
    } else {
        args_in((*c)@).push("-headless"@)
    }) by {
        lemma_args((*c)@);
        lemma_args_written((*c)@, firefox::args_with(args_in((*c)@), "-headless"@));
    }
    assert forall|c: &mut FirefoxCapabilities, r: WebDriverResult<()>| #[trigger]
        call_ensures(FirefoxCapabilities::unset_headless, (c,), r)
        implies r is Ok && args_in(final(c)@) == without(args_in((*c)@), "-headless"@) by {
        let args = args_in((*c)@);
        lemma_args((*c)@);
        lemma_without(args, "-headless"@, args.len());
        assert(args.take(args.len() as int) =~= args);
        lemma_args_written((*c)@, firefox::args_without(args, "-headless"@, args.len()));
        if args.len() == 0 {
            reveal(Seq::filter);
            assert(without(args, "-headless"@) =~= args);
        }
    }
}

/// A preference was set under the name; the others were kept.
pub proof fn law_preferences<T: ToValue>(name: &str, v: T, j: JsonValue, empty: FirefoxPreferences,
    default: FirefoxPreferences)
    requires
        call_ensures(T::to_value, (v,), j),
        call_ensures(FirefoxPreferences::new, (), empty),
        call_ensures(<FirefoxPreferences as Default>::default, (), default),
    ensures
        empty@ == Map::<Seq<char>, Json>::empty(),
        default@ == Map::<Seq<char>, Json>::empty(),
        forall|p: &mut FirefoxPreferences, r: WebDriverResult<()>| #[trigger]
            call_ensures(FirefoxPreferences::set::<T>, (p, name, v), r)
            ==> r is Ok && sets((*p)@, final(p)@, name@, j@),
        forall|p: &mut FirefoxPreferences, r: WebDriverResult<()>| #[trigger]
            call_ensures(FirefoxPreferences::unset, (p, name), r)
            ==> r is Ok && drops((*p)@, final(p)@, name@),
        forall|p: FirefoxPreferences, r: JsonValue| #[trigger]
            call_ensures(FirefoxPreferences::into_value, (p,), r) ==> r@ == Json::Obj(p@),
{
}

/// The name is gone; the others are as they were.
pub open spec fn drops(
    before: Map<Seq<char>, Json>,
    after: Map<Seq<char>, Json>,
    name: Seq<char>,
) -> bool {
    &&& !after.contains_key(name)
    &&& forall|k: Seq<char>| #![trigger after.contains_key(k)] k != name ==> after.contains_key(k)
        == before.contains_key(k)
    &&& forall|k: Seq<char>| k != name && before.contains_key(k)
        ==> #[trigger] after[k] == before[k]
}

/// Each known preference has its own name, by which it is set and taken back.
pub proof fn law_known_preferences(yes: bool, t: String, port: u16, level: FirefoxProfileLogDriver,
    word: &'static str)
    requires
        call_ensures(FirefoxProfileLogDriver::as_str, (&level,), word),
    ensures
        forall|p: &mut FirefoxPreferences, r: WebDriverResult<()>| #[trigger]
            call_ensures(FirefoxPreferences::set_accept_untrusted_certs, (p, yes), r)
            ==> r is Ok
            && sets((*p)@, final(p)@, "webdriver_accept_untrusted_certs"@, Json::Bool(yes)),
        forall|p: &mut FirefoxPreferences, r: WebDriverResult<()>| #[trigger]
            call_ensures(FirefoxPreferences::unset_accept_untrusted_certs, (p,), r)
            ==> r is Ok && drops((*p)@, final(p)@, "webdriver_accept_untrusted_certs"@),
        forall|p: &mut FirefoxPreferences, r: WebDriverResult<()>| #[trigger]
            call_ensures(FirefoxPreferences::set_assume_untrusted_issuer, (p, yes), r)
            ==> r is Ok
            && sets((*p)@, final(p)@, "webdriver_assume_untrusted_issuer"@, Json::Bool(yes)),
        forall|p: &mut FirefoxPreferences, r: WebDriverResult<()>| #[trigger]
            call_ensures(FirefoxPreferences::unset_assume_untrusted_issuer, (p,), r)
            ==> r is Ok && drops((*p)@, final(p)@, "webdriver_assume_untrusted_issuer"@),
        forall|p: &mut FirefoxPreferences, r: WebDriverResult<()>| #[trigger]
            call_ensures(FirefoxPreferences::set_log_driver, (p, level), r)
            ==> r is Ok && sets((*p)@, final(p)@, "webdriver.log.driver"@, Json::Str(word@)),
        forall|p: &mut FirefoxPreferences, r: WebDriverResult<()>| #[trigger]
            call_ensures(FirefoxPreferences::unset_log_driver, (p,), r)
            ==> r is Ok && drops((*p)@, final(p)@, "webdriver.log.driver"@),
        forall|p: &mut FirefoxPreferences, r: WebDriverResult<()>| #[trigger]
            call_ensures(FirefoxPreferences::set_log_file, (p, t), r)
            ==> r is Ok && sets((*p)@, final(p)@, "webdriver.log.file"@, Json::Str(t@)),
        forall|p: &mut FirefoxPreferences, r: WebDriverResult<()>| #[trigger]
            call_ensures(FirefoxPreferences::unset_log_file, (p,), r)
            ==> r is Ok && drops((*p)@, final(p)@, "webdriver.log.file"@),
        forall|p: &mut FirefoxPreferences, r: WebDriverResult<()>| #[trigger]
            call_ensures(FirefoxPreferences::set_load_strategy, (p, t), r)
            ==> r is Ok && sets((*p)@, final(p)@, "webdriver.load.strategy"@, Json::Str(t@)),
        forall|p: &mut FirefoxPreferences, r: WebDriverResult<()>| #[trigger]
            call_ensures(FirefoxPreferences::unset_load_strategy, (p,), r)
            ==> r is Ok && drops((*p)@, final(p)@, "webdriver.load.strategy"@),
        forall|p: &mut FirefoxPreferences, r: WebDriverResult<()>| #[trigger]
            call_ensures(FirefoxPreferences::set_webdriver_port, (p, port), r)
            ==> r is Ok
            && sets((*p)@, final(p)@, "webdriver_firefox_port"@, Json::Int(port as int)),
        forall|p: &mut FirefoxPreferences, r: WebDriverResult<()>| #[trigger]
            call_ensures(FirefoxPreferences::unset_webdriver_port, (p,), r)
            ==> r is Ok && drops((*p)@, final(p)@, "webdriver_firefox_port"@),
        forall|p: &mut FirefoxPreferences, r: WebDriverResult<()>| #[trigger]
            call_ensures(FirefoxPreferences::set_user_agent, (p, t), r)
            ==> r is Ok && sets((*p)@, final(p)@, "general.useragent.override"@, Json::Str(t@)),
        forall|p: &mut FirefoxPreferences, r: WebDriverResult<()>| #[trigger]
            call_ensures(FirefoxPreferences::unset_user_agent, (p,), r)
            ==> r is Ok && drops((*p)@, final(p)@, "general.useragent.override"@),
{
}

/// The commands of Firefox: an extension is posted with its path and whether it is temporary, null
/// where that is not said, and a picture of the whole page is asked for.
pub proof fn law_firefox_requests(c: FirefoxCommand, s: SessionId, r: RequestData)
    requires
        call_ensures(<FirefoxCommand as FormatRequestData>::format_request, (&c, &s), r),
    ensures
        c matches FirefoxCommand::InstallAddon { path, temporary }
            ==> commands::posts(r, "/session/"@ + s@ + "/moz/addon/install"@,
            commands::both("path"@, Json::Str(path@), "temporary"@, match temporary {
            Some(b) => Json::Bool(b),
            None => Json::Null,
        })),
        c is FullScreenshot
            ==> commands::asks(r, Method::GET, "/session/"@ + s@ + "/moz/screenshot/full"@),
{
}

/// The request for an extension.
pub open spec fn addon_request(
    session: Seq<char>,
    path: Seq<char>,
    temporary: Option<bool>,
) -> RequestView {
    RequestView {
        method: Method::POST,
        uri: "/session/"@ + session + "/moz/addon/install"@,
        body: Some(
            commands::both(
                "path"@,
                Json::Str(path),
                "temporary"@,
                match temporary {
                    Some(b) => Json::Bool(b),
                    None => Json::Null,
                },
            ),
        ),
    }
}

/// The request for a picture of the whole page.
pub open spec fn picture_request(session: Seq<char>) -> RequestView {
    RequestView {
        method: Method::GET,
        uri: "/session/"@ + session + "/moz/screenshot/full"@,
        body: None,
    }
}

/// An extension is installed and a picture is taken by those requests.
pub proof fn law_firefox_tools<H: HttpClient, G>(
    f: &FirefoxTools<H, G>,
    path: &str,
    temporary: Option<bool>,
    installed: WebDriverResult<()>,
    picture: WebDriverResult<Vec<u8>>,
)
    requires
        call_ensures(FirefoxTools::<H, G>::install_addon, (f, path, temporary), installed),
        call_ensures(FirefoxTools::<H, G>::full_screenshot_as_png, (f,), picture),
    ensures
        installed is Ok
            ==> exists|c: CmdResponse| #[trigger]
            f.may_respond(addon_request(f.handle@.session_id, path@, temporary), Ok(c)),
        picture is Ok
            ==> exists|c: CmdResponse, t: String| #[trigger]
            f.may_respond(picture_request(f.handle@.session_id), Ok(c))
            && laws::text_in(c.body) == Some(t@) && #[trigger] laws::decoded(Ok(t), picture),
{
    if installed is Ok {
        let response = choose|response: WebDriverResult<CmdResponse>| #[trigger]
            f.may_respond(firefox::install_request(f.handle@.session_id, path@, temporary),
            response) && match response {
            Err(e) => installed == Err::<(), crate::error::WebDriverError>(e),
            Ok(_) => installed is Ok,
        };
        assert(firefox::install_request(f.handle@.session_id, path@, temporary)
            == addon_request(f.handle@.session_id, path@, temporary));
        assert(f.may_respond(addon_request(f.handle@.session_id, path@, temporary),
            Ok(response->Ok_0)));
    }
    if picture is Ok {
        let (response, encoded) = choose|response: WebDriverResult<CmdResponse>,
            encoded: WebDriverResult<String>|
            #![trigger f.may_respond(firefox::full_screenshot_request(f.handle@.session_id),
                response), crate::reply::data_result(encoded, picture)]
            f.may_respond(firefox::full_screenshot_request(f.handle@.session_id), response)
                && match response {
                Err(e) => picture == Err::<Vec<u8>, crate::error::WebDriverError>(e),
                Ok(c) => match crate::json::member(c.body@, "value"@) {
                    Some(v) => crate::reply::conversion(v, encoded)
                        && crate::reply::data_result(encoded, picture),
                    None => picture matches Err(e)
                        && crate::http::is_json_error(e, "Unexpected response body"@),
                },
            };
        let c = response->Ok_0;
        let t = encoded->Ok_0;
        assert(f.may_respond(picture_request(f.handle@.session_id), Ok(c)));
        assert(laws::decoded(Ok(t), picture));
    }
}

} // verus!
