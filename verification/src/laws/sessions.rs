//! What a session is asked for, call by call.
use vstd::prelude::*;

use crate::address;
use crate::command::{By, Command, CommandView, FormatRequestData, Selector};
use crate::config::{SessionPoller, WebDriverConfig};
use crate::connection::{HttpClient, HttpResponse};
use crate::cookie::Cookie;
use crate::driver::Driver;
use crate::duration::Duration;
use crate::error::{WebDriverErrorInner, WebDriverResult};
use crate::http::{CmdResponse, HttpRequest};
use crate::http;
use crate::json::{Json, JsonValue};
use crate::json;
use crate::keys::{IntoTyping, TypingData};
use crate::laws::{elements, values};
use crate::laws;
use crate::request::RequestData;
use crate::session::{AlreadyQuit, DriverGuard, SessionHandle};
use crate::switch_to::{Alert, SwitchTo};
use crate::types::{
    IntoArcStr, OptionRect, Rect, SessionId, TimeoutConfiguration, TimeoutsView, WebDriverStatus,
    WindowHandle,
};
use crate::webdrivercommands::{ScriptRet, WebDriverCommands};
use crate::webelement::WebElement;
use crate::wire;

verus! {

/// The session was asked for the window that is used.
pub open spec fn told_window<D: Driver>(d: D, r: WebDriverResult<WindowHandle>) -> bool {
    laws::told(
        d,
        CommandView::GetWindowHandle,
        |v: Json| v is Str,
        |v: Json, h: WindowHandle| v == Json::Str(h@),
        r,
    )
}

/// A list of texts.
pub open spec fn texts_valid(v: Json) -> bool {
    v matches Json::Arr(items) && forall|i: int| 0 <= i < items.len()
        ==> (#[trigger] items[i]) is Str
}

/// The session was asked for all its windows.
pub open spec fn told_windows<D: Driver>(d: D, r: WebDriverResult<Vec<WindowHandle>>) -> bool {
    laws::told(
        d,
        CommandView::GetWindowHandles,
        |v: Json| texts_valid(v),
        |v: Json, h: Vec<WindowHandle>|
            v matches Json::Arr(items) && h@.len() == items.len() && forall|i: int|
                0 <= i < items.len() ==> #[trigger] items[i] == Json::Str(h@[i]@),
        r,
    )
}

/// The session was asked for a new window or tab.
pub open spec fn told_new_window<D: Driver>(
    d: D,
    command: CommandView,
    r: WebDriverResult<WindowHandle>,
) -> bool {
    laws::told(
        d,
        command,
        |v: Json| values::window_valid(v),
        |v: Json, h: WindowHandle| values::field(v, 0, "handle"@) == Some(Json::Str(h@)),
        r,
    )
}

/// The session was asked for the place and size of its window.
pub open spec fn told_rect<D: Driver>(d: D, r: WebDriverResult<Rect>) -> bool {
    laws::told(
        d,
        CommandView::GetWindowRect,
        |v: Json| values::rect_valid(v),
        |v: Json, t: Rect| values::rect_reads(v, t),
        r,
    )
}

/// The session was asked for its timeouts.
pub open spec fn told_timeouts<D: Driver>(d: D, r: WebDriverResult<TimeoutConfiguration>) -> bool {
    laws::told(
        d,
        CommandView::GetTimeouts,
        |v: Json| values::timeouts_valid(v),
        |v: Json, t: TimeoutConfiguration| values::timeouts_read(v, t),
        r,
    )
}

/// The session was asked for a cookie.
pub open spec fn told_cookie<D: Driver>(
    d: D,
    command: CommandView,
    r: WebDriverResult<Cookie>,
) -> bool {
    laws::told(
        d,
        command,
        |v: Json| values::cookie_valid(v),
        |v: Json, t: Cookie| values::cookie_read(v, t),
        r,
    )
}

/// The session was asked for its cookies.
pub open spec fn told_cookies<D: Driver>(d: D, r: WebDriverResult<Vec<Cookie>>) -> bool {
    laws::told(
        d,
        CommandView::GetAllCookies,
        |v: Json|
            v matches Json::Arr(items) && forall|i: int|
                0 <= i < items.len() ==> values::cookie_valid(#[trigger] items[i]),
        |v: Json, c: Vec<Cookie>|
            v matches Json::Arr(items) && c@.len() == items.len() && forall|i: int|
                0 <= i < items.len() ==> values::cookie_read(#[trigger] items[i], c@[i]),
        r,
    )
}

/// Exactly one timeout, in whole milliseconds.
pub open spec fn one_timeout(t: TimeoutsView, which: int, d: Duration) -> bool {
    let n = values::millis(d);
    &&& match t.script {
        Some(m) => which == 0 && m == n,
        None => which != 0,
    }
    &&& match t.page_load {
        Some(m) => which == 1 && m == n,
        None => which != 1,
    }
    &&& match t.implicit {
        Some(m) => which == 2 && m == n,
        None => which != 2,
    }
}

/// The session was given one timeout.
pub open spec fn timeout_given<D: Driver>(
    d: D,
    which: int,
    time: Duration,
    r: WebDriverResult<()>,
) -> bool {
    exists|t: TimeoutsView| #[trigger]
        laws::done(d, CommandView::SetTimeouts(t), r) && one_timeout(t, which, time)
}

/// A picture or a print that the session was asked for, decoded.
pub open spec fn told_data<D: Driver>(
    d: D,
    command: CommandView,
    r: WebDriverResult<Vec<u8>>,
) -> bool {
    exists|t: WebDriverResult<String>| #[trigger]
        laws::told_text(d, command, t) && laws::decoded(t, r)
}

proof fn lemma_data<D: Driver>(d: D, command: CommandView, r: WebDriverResult<Vec<u8>>)
    requires
        crate::webdrivercommands::screenshot_result(d, command, r),
    ensures
        told_data(d, command, r),
{
    let t = choose|t: WebDriverResult<String>| #[trigger]
        crate::driver::answers(d, command, t) && crate::reply::data_result(t, r);
    assert(laws::told_text(d, command, t));
}

proof fn lemma_window<D: Driver>(d: D, r: WebDriverResult<WindowHandle>)
    requires
        crate::switch_to::current_window(d, r),
    ensures
        told_window(d, r),
{
    let s = choose|s: WebDriverResult<String>| #[trigger]
        crate::driver::answers(d, CommandView::GetWindowHandle, s) && crate::reply::handle_result(
            s,
            r,
        );
    assert(laws::told_text(d, CommandView::GetWindowHandle, s));
}

proof fn lemma_windows<D: Driver>(d: D, r: WebDriverResult<Vec<WindowHandle>>)
    requires
        crate::switch_to::all_windows(d, r),
    ensures
        told_windows(d, r),
{
    let s = choose|s: WebDriverResult<Vec<String>>| #[trigger]
        crate::driver::answers(d, CommandView::GetWindowHandles, s) && crate::reply::handles_result(
            s,
            r,
        );
    let reply = choose|reply: WebDriverResult<JsonValue>| #[trigger]
        d.may_answer(CommandView::GetWindowHandles, reply) && crate::reply::read_result(reply, s);
    if let Ok(body) = reply {
        if let Some(v) = laws::value_in(body) {
            if let Ok(texts) = s {
                let h = r->Ok_0;
                let items = v->Arr_0;
                assert(crate::text::texts(texts@).len() == texts@.len());
                assert(crate::reply::handle_views(h@).len() == h@.len());
                assert forall|i: int| 0 <= i < items.len() implies #[trigger] items[i]
                    == Json::Str(h@[i]@) by {
                    assert(items[i] == Json::Str(texts@[i]@));
                    assert(crate::text::texts(texts@)[i] == texts@[i]@);
                    assert(crate::reply::handle_views(h@)[i] == h@[i]@);
                }
            }
        }
    }
}

proof fn lemma_cookies<D: Driver>(d: D, r: WebDriverResult<Vec<Cookie>>)
    requires
        crate::driver::answers(d, CommandView::GetAllCookies, r),
    ensures
        told_cookies(d, r),
{
    let reply = choose|reply: WebDriverResult<JsonValue>| #[trigger]
        d.may_answer(CommandView::GetAllCookies, reply) && crate::reply::read_result(reply, r);
    if let Ok(body) = reply {
        if let Some(v) = laws::value_in(body) {
            if let Json::Arr(items) = v {
                assert(forall|i: int|
                    0 <= i < items.len() ==> (crate::cookie::cookie_of(#[trigger] items[i]) is Some
                        <==> values::cookie_valid(items[i])));
                if let Ok(c) = r {
                    assert forall|i: int| 0 <= i < items.len() implies values::cookie_read(
                        #[trigger] items[i],
                        c@[i],
                    ) by {
                        assert(<Cookie as crate::reply::FromValue>::reads(items[i], c@[i]));
                    }
                }
            }
        }
    }
}

proof fn lemma_cookie<D: Driver>(d: D, command: CommandView, r: WebDriverResult<Cookie>)
    requires
        crate::driver::answers(d, command, r),
    ensures
        told_cookie(d, command, r),
{
    let reply = choose|reply: WebDriverResult<JsonValue>| #[trigger]
        d.may_answer(command, reply) && crate::reply::read_result(reply, r);
    if let Ok(body) = reply {
        if let Some(v) = laws::value_in(body) {
            assert(crate::cookie::cookie_of(v) is Some <==> values::cookie_valid(v));
            if let Ok(c) = r {
                assert(values::cookie_read(v, c));
            }
        }
    }
}

proof fn lemma_timeouts<D: Driver>(d: D, r: WebDriverResult<TimeoutConfiguration>)
    requires
        crate::driver::answers(d, CommandView::GetTimeouts, r),
    ensures
        told_timeouts(d, r),
{
    let reply = choose|reply: WebDriverResult<JsonValue>| #[trigger]
        d.may_answer(CommandView::GetTimeouts, reply) && crate::reply::read_result(reply, r);
    if let Ok(body) = reply {
        if let Some(v) = laws::value_in(body) {
            assert(crate::types::timeouts_of(v) is Some <==> values::timeouts_valid(v));
            if let Ok(t) = r {
                assert(values::timeouts_read(v, t));
            }
        }
    }
}

proof fn lemma_rect<D: Driver>(d: D, r: WebDriverResult<Rect>)
    requires
        crate::driver::answers(d, CommandView::GetWindowRect, r),
    ensures
        told_rect(d, r),
{
    let reply = choose|reply: WebDriverResult<JsonValue>| #[trigger]
        d.may_answer(CommandView::GetWindowRect, reply) && crate::reply::read_result(reply, r);
    if let Ok(body) = reply {
        if let Some(v) = laws::value_in(body) {
            assert(crate::types::rect_of(v) is Some <==> values::rect_valid(v));
            if let Ok(t) = r {
                assert(values::rect_reads(v, t));
            }
        }
    }
}

proof fn lemma_one_timeout<D: Driver>(d: D, t: TimeoutsView, which: int, time: Duration,
    r: WebDriverResult<()>)
    requires
        crate::driver::runs(d, CommandView::SetTimeouts(t), r),
        one_timeout(t, which, time),
    ensures
        timeout_given(d, which, time, r),
{
    assert(laws::done(d, CommandView::SetTimeouts(t), r));
}

/// What a session is told to do is the command for it, and nothing else.
pub proof fn law_handle_does<H: HttpClient, G>(h: &SessionHandle<H, G>)
    ensures
        forall|r: WebDriverResult<()>| #[trigger]
            call_ensures(SessionHandle::<H, G>::close_window, (h,), r)
            ==> laws::done(*h, CommandView::CloseWindow, r),
        forall|r: WebDriverResult<()>| #[trigger]
            call_ensures(SessionHandle::<H, G>::maximize_window, (h,), r)
            ==> laws::done(*h, CommandView::MaximizeWindow, r),
        forall|r: WebDriverResult<()>| #[trigger]
            call_ensures(SessionHandle::<H, G>::minimize_window, (h,), r)
            ==> laws::done(*h, CommandView::MinimizeWindow, r),
        forall|r: WebDriverResult<()>| #[trigger]
            call_ensures(SessionHandle::<H, G>::fullscreen_window, (h,), r)
            ==> laws::done(*h, CommandView::FullscreenWindow, r),
        forall|r: WebDriverResult<()>| #[trigger]
            call_ensures(SessionHandle::<H, G>::back, (h,), r)
            ==> laws::done(*h, CommandView::Back, r),
        forall|r: WebDriverResult<()>| #[trigger]
            call_ensures(SessionHandle::<H, G>::forward, (h,), r)
            ==> laws::done(*h, CommandView::Forward, r),
        forall|r: WebDriverResult<()>| #[trigger]
            call_ensures(SessionHandle::<H, G>::refresh, (h,), r)
            ==> laws::done(*h, CommandView::Refresh, r),
        forall|r: WebDriverResult<()>| #[trigger]
            call_ensures(SessionHandle::<H, G>::delete_all_cookies, (h,), r)
            ==> laws::done(*h, CommandView::DeleteAllCookies, r),
        forall|r: WebDriverResult<()>| #[trigger]
            call_ensures(SessionHandle::<H, G>::dismiss_alert, (h,), r)
            ==> laws::done(*h, CommandView::DismissAlert, r),
        forall|r: WebDriverResult<()>| #[trigger]
            call_ensures(SessionHandle::<H, G>::accept_alert, (h,), r)
            ==> laws::done(*h, CommandView::AcceptAlert, r),
        forall|r: WebDriverResult<()>| #[trigger]
            call_ensures(SessionHandle::<H, G>::enter_default_frame, (h,), r)
            ==> laws::done(*h, CommandView::SwitchToFrameDefault, r),
        forall|r: WebDriverResult<()>| #[trigger]
            call_ensures(SessionHandle::<H, G>::enter_parent_frame, (h,), r)
            ==> laws::done(*h, CommandView::SwitchToParentFrame, r),
{
}

/// What a session is asked for is read from the reply to the command for it.
pub proof fn law_handle_asks<H: HttpClient, G>(h: &SessionHandle<H, G>)
    ensures
        forall|r: WebDriverResult<String>| #[trigger]
            call_ensures(SessionHandle::<H, G>::source, (h,), r)
            ==> laws::told_text(*h, CommandView::GetPageSource, r),
        forall|r: WebDriverResult<String>| #[trigger]
            call_ensures(SessionHandle::<H, G>::title, (h,), r)
            ==> laws::told_text(*h, CommandView::GetTitle, r),
        forall|r: WebDriverResult<String>| #[trigger]
            call_ensures(SessionHandle::<H, G>::screenshot_as_png_base64, (h,), r)
            ==> laws::told_text(*h, CommandView::TakeScreenshot, r),
        forall|r: WebDriverResult<String>| #[trigger]
            call_ensures(SessionHandle::<H, G>::get_alert_text, (h,), r)
            ==> laws::told_text(*h, CommandView::GetAlertText, r),
        forall|r: WebDriverResult<WindowHandle>| #[trigger]
            call_ensures(SessionHandle::<H, G>::new_window, (h,), r)
            ==> told_new_window(*h, CommandView::NewWindow, r),
        forall|r: WebDriverResult<WindowHandle>| #[trigger]
            call_ensures(SessionHandle::<H, G>::new_tab, (h,), r)
            ==> told_new_window(*h, CommandView::NewTab, r),
        forall|r: WebDriverResult<Rect>| #[trigger]
            call_ensures(SessionHandle::<H, G>::get_window_rect, (h,), r) ==> told_rect(*h, r),
        forall|r: WebDriverResult<TimeoutConfiguration>| #[trigger]
            call_ensures(SessionHandle::<H, G>::get_timeouts, (h,), r) ==> told_timeouts(*h, r),
        forall|r: WebDriverResult<WebDriverStatus>| #[trigger]
            call_ensures(SessionHandle::<H, G>::status, (h,), r)
            ==> laws::told(*h, CommandView::Status, |v: Json| values::status_valid(v), |v: Json,
            s: WebDriverStatus| values::status_reads(v, s), r),
{
    assert forall|r: WebDriverResult<Rect>| #[trigger]
        call_ensures(SessionHandle::<H, G>::get_window_rect, (h,), r) implies told_rect(*h, r) by {
        lemma_rect(*h, r);
    }
    assert forall|r: WebDriverResult<TimeoutConfiguration>| #[trigger]
        call_ensures(SessionHandle::<H, G>::get_timeouts, (h,), r) implies told_timeouts(*h, r) by {
        lemma_timeouts(*h, r);
    }
}

/// Windows, pictures, the active element and cookies are read from the replies to their own
/// commands.
pub proof fn law_handle_asks_for_lists<H: HttpClient, G>(h: &SessionHandle<H, G>)
    ensures
        forall|r: WebDriverResult<WindowHandle>| #[trigger]
            call_ensures(SessionHandle::<H, G>::window, (h,), r) ==> told_window(*h, r),
        forall|r: WebDriverResult<Vec<WindowHandle>>| #[trigger]
            call_ensures(SessionHandle::<H, G>::windows, (h,), r) ==> told_windows(*h, r),
        forall|r: WebDriverResult<Vec<u8>>| #[trigger]
            call_ensures(SessionHandle::<H, G>::screenshot_as_png, (h,), r)
            ==> told_data(*h, CommandView::TakeScreenshot, r),
        forall|r: WebDriverResult<WebElement<SessionHandle<H, G>>>| #[trigger]
            call_ensures(SessionHandle::<H, G>::active_element, (h,), r)
            ==> elements::told_element(*h, CommandView::GetActiveElement, r),
        forall|r: WebDriverResult<Vec<Cookie>>| #[trigger]
            call_ensures(SessionHandle::<H, G>::get_all_cookies, (h,), r) ==> told_cookies(*h, r),
{
    assert forall|r: WebDriverResult<WindowHandle>| #[trigger]
        call_ensures(SessionHandle::<H, G>::window, (h,), r) implies told_window(*h, r) by {
        lemma_window(*h, r);
    }
    assert forall|r: WebDriverResult<Vec<WindowHandle>>| #[trigger]
        call_ensures(SessionHandle::<H, G>::windows, (h,), r) implies told_windows(*h, r) by {
        lemma_windows(*h, r);
    }
    assert forall|r: WebDriverResult<Vec<u8>>| #[trigger]
        call_ensures(SessionHandle::<H, G>::screenshot_as_png, (h,), r)
        implies told_data(*h, CommandView::TakeScreenshot, r) by {
        lemma_data(*h, CommandView::TakeScreenshot, r);
    }
    assert forall|r: WebDriverResult<WebElement<SessionHandle<H, G>>>| #[trigger]
        call_ensures(SessionHandle::<H, G>::active_element, (h,), r)
        implies elements::told_element(*h, CommandView::GetActiveElement, r) by {
        elements::lemma_element(*h, CommandView::GetActiveElement, r);
    }
    assert forall|r: WebDriverResult<Vec<Cookie>>| #[trigger]
        call_ensures(SessionHandle::<H, G>::get_all_cookies, (h,), r)
        implies told_cookies(*h, r) by {
        lemma_cookies(*h, r);
    }
}

/// What a session is given goes with the command.
pub proof fn law_handle_does_with<H: HttpClient, G>(h: &SessionHandle<H, G>)
    ensures
        forall|n: u16, r: WebDriverResult<()>| #[trigger]
            call_ensures(SessionHandle::<H, G>::enter_frame, (h, n), r)
            ==> laws::done(*h, CommandView::SwitchToFrameNumber(n), r),
        forall|w: WindowHandle, r: WebDriverResult<()>| #[trigger]
            call_ensures(SessionHandle::<H, G>::switch_to_window, (h, w), r)
            ==> laws::done(*h, CommandView::SwitchToWindow(w@), r),
        forall|t: TimeoutConfiguration, r: WebDriverResult<()>| #[trigger]
            call_ensures(SessionHandle::<H, G>::update_timeouts, (h, t), r)
            ==> laws::done(*h, CommandView::SetTimeouts(t@), r),
        forall|c: Cookie, r: WebDriverResult<()>| #[trigger]
            call_ensures(SessionHandle::<H, G>::add_cookie, (h, c), r)
            ==> laws::done(*h, CommandView::AddCookie(c@), r),
        forall|p: JsonValue, r: WebDriverResult<String>| #[trigger]
            call_ensures(SessionHandle::<H, G>::print_page_base64, (h, p), r)
            ==> laws::told_text(*h, CommandView::PrintPage(p@), r),
        forall|x: i64, y: i64, width: u32, height: u32, r: WebDriverResult<()>| #[trigger]
            call_ensures(SessionHandle::<H, G>::set_window_rect, (h, x, y, width, height), r)
            ==> laws::done(*h, CommandView::SetWindowRect(OptionRect { x: Some(x), y: Some(y),
            width: Some(width as i64), height: Some(height as i64) }), r),
{
}

/// One cookie is asked for and deleted by its name.
pub proof fn law_handle_named_cookies<H: HttpClient, G, S: IntoArcStr>(h: &SessionHandle<H, G>)
    ensures
        forall|n: S, r: WebDriverResult<Cookie>| #[trigger]
            call_ensures(SessionHandle::<H, G>::get_named_cookie::<S>, (h, n), r)
            ==> told_cookie(*h, CommandView::GetNamedCookie(n.text()), r),
        forall|n: S, r: WebDriverResult<()>| #[trigger]
            call_ensures(SessionHandle::<H, G>::delete_cookie::<S>, (h, n), r)
            ==> laws::done(*h, CommandView::DeleteCookie(n.text()), r),
{
    assert forall|n: S, r: WebDriverResult<Cookie>| #[trigger]
        call_ensures(SessionHandle::<H, G>::get_named_cookie::<S>, (h, n), r)
        implies told_cookie(*h, CommandView::GetNamedCookie(n.text()), r) by {
        lemma_cookie(*h, CommandView::GetNamedCookie(n.text()), r);
    }
}

/// Each timeout is set by its own call, and the others are left out.
pub proof fn law_handle_timeouts<H: HttpClient, G>(
    h: &SessionHandle<H, G>,
    t: Duration,
    script: WebDriverResult<()>,
    page_load: WebDriverResult<()>,
    implicit: WebDriverResult<()>,
)
    requires
        call_ensures(SessionHandle::<H, G>::set_script_timeout, (h, t), script),
        call_ensures(SessionHandle::<H, G>::set_page_load_timeout, (h, t), page_load),
        call_ensures(SessionHandle::<H, G>::set_implicit_wait_timeout, (h, t), implicit),
    ensures
        timeout_given(*h, 0, t, script),
        timeout_given(*h, 1, t, page_load),
        timeout_given(*h, 2, t, implicit),
{
    lemma_one_timeout(*h, crate::webdrivercommands::script_only(t), 0, t, script);
    lemma_one_timeout(*h, crate::webdrivercommands::page_load_only(t), 1, t, page_load);
    lemma_one_timeout(*h, crate::webdrivercommands::implicit_only(t), 2, t, implicit);
}

/// A session looks for elements in the whole page, with the selector that was asked for, and prints
/// with what it was given.
pub proof fn law_handle_search<H: HttpClient, G>(
    h: &SessionHandle<H, G>,
    by: By,
    selector: Selector,
    parameters: JsonValue,
    one: WebDriverResult<WebElement<SessionHandle<H, G>>>,
    all: WebDriverResult<Vec<WebElement<SessionHandle<H, G>>>>,
    printed: WebDriverResult<Vec<u8>>,
)
    requires
        call_ensures(By::into_selector, (by,), selector),
        call_ensures(SessionHandle::<H, G>::find, (h, by), one),
        call_ensures(SessionHandle::<H, G>::find_all, (h, by), all),
        call_ensures(SessionHandle::<H, G>::print_page, (h, parameters), printed),
    ensures
        elements::told_element(*h, CommandView::FindElement(selector@), one),
        elements::told_elements(*h, CommandView::FindElements(selector@), all),
        told_data(*h, CommandView::PrintPage(parameters@), printed),
{
    elements::lemma_element(*h, CommandView::FindElement(selector@), one);
    elements::lemma_elements(*h, CommandView::FindElements(selector@), all);
    lemma_data(*h, CommandView::PrintPage(parameters@), printed);
}

/// An alert is answered with what is typed.
pub proof fn law_handle_types<H: HttpClient, G, S: IntoTyping>(
    h: &SessionHandle<H, G>,
    keys: S,
    typing: TypingData,
    r: WebDriverResult<()>,
)
    requires
        call_ensures(SessionHandle::<H, G>::send_alert_text::<S>, (h, keys), r),
        call_ensures(TypingData::from::<S>, (keys,), typing),
    ensures
        laws::done(*h, CommandView::SendAlertText(typing@), r),
{
}

/// A script comes back as the value of its reply, in the session that ran it.
pub open spec fn told_script<D: Driver>(
    d: D,
    command: CommandView,
    r: WebDriverResult<ScriptRet<D>>,
) -> bool {
    laws::told(
        d,
        command,
        |v: Json| true,
        |v: Json, s: ScriptRet<D>| s@ == v && s.session() == d,
        r,
    )
}

proof fn lemma_script<D: Driver>(d: D, command: CommandView, r: WebDriverResult<ScriptRet<D>>)
    requires
        crate::session::executes(d, command, r),
    ensures
        told_script(d, command, r),
{
    let v = choose|v: WebDriverResult<JsonValue>| #[trigger]
        crate::driver::answers(d, command, v) && match v {
            Err(e) => r == Err::<ScriptRet<D>, crate::error::WebDriverError>(e),
            Ok(x) => r matches Ok(s) && s.session() == d && s@ == x@,
        };
    let reply = choose|reply: WebDriverResult<JsonValue>| #[trigger]
        d.may_answer(command, reply) && crate::reply::read_result(reply, v);
    assert(d.may_answer(command, reply));
}

/// Both ways to run a script send it with its arguments, each by its own command.
pub proof fn law_handle_scripts<H: HttpClient, G, S: IntoArcStr>(
    h: &SessionHandle<H, G>,
    script: S,
    args: Vec<JsonValue>,
    now: WebDriverResult<ScriptRet<SessionHandle<H, G>>>,
    later: WebDriverResult<ScriptRet<SessionHandle<H, G>>>,
)
    requires
        call_ensures(SessionHandle::<H, G>::execute::<S>, (h, script, args), now),
        call_ensures(SessionHandle::<H, G>::execute_async::<S>, (h, script, args), later),
    ensures
        told_script(*h, CommandView::ExecuteScript(script.text(), json::items_view(args@)), now),
        told_script(
            *h,
            CommandView::ExecuteAsyncScript(script.text(), json::items_view(args@)),
            later,
        ),
{
    lemma_script(*h, CommandView::ExecuteScript(script.text(), json::items_view(args@)), now);
    lemma_script(
        *h,
        CommandView::ExecuteAsyncScript(script.text(), json::items_view(args@)),
        later,
    );
}

/// A window is named by a script that sets its name.
pub proof fn law_window_is_named<H: HttpClient, G>(
    h: &SessionHandle<H, G>,
    name: &str,
    r: WebDriverResult<()>,
)
    requires
        call_ensures(SessionHandle::<H, G>::set_window_name, (h, name), r),
    ensures
        exists|v: WebDriverResult<JsonValue>| #[trigger]
            laws::told_value(
                *h,
                CommandView::ExecuteScript("window.name = \""@ + name@ + "\""@, Seq::empty()),
                v,
            ) && match v {
                Ok(_) => r is Ok,
                Err(e) => r matches Err(f) && f == e,
            },
{
    let command = CommandView::ExecuteScript("window.name = \""@ + name@ + "\""@, Seq::empty());
    let v = choose|v: WebDriverResult<JsonValue>| #[trigger]
        crate::driver::answers(*h, command, v) && crate::reply::unit_result(v, r);
    assert(laws::told_value(*h, command, v));
}

/// A text that is an address is gone to as it is. One that only lacks a scheme is gone to over
/// HTTPS, where that makes it an address; every other text is refused.
pub proof fn law_navigation<H: HttpClient, G, S: IntoArcStr>(
    h: &SessionHandle<H, G>,
    text: S,
    went: WebDriverResult<()>,
    got: WebDriverResult<()>,
)
    requires
        call_ensures(SessionHandle::<H, G>::goto::<S>, (h, text), went),
        call_ensures(SessionHandle::<H, G>::get::<S>, (h, text), got),
    ensures
        goes(*h, text.text(), went),
        goes(*h, text.text(), got),
{
}

/// Where a text leads to.
pub open spec fn goes<D: Driver>(d: D, text: Seq<char>, r: WebDriverResult<()>) -> bool {
    match address::parsed_url(text) {
        Ok(_) => laws::done(d, CommandView::NavigateTo(text), r),
        Err(f) => if f.relative {
            match address::parsed_url("https://"@ + text) {
                Ok(_) => laws::done(d, CommandView::NavigateTo("https://"@ + text), r),
                Err(g) => r matches Err(e) && e@ matches WebDriverErrorInner::InvalidUrl(m) && m@
                    == g.message,
            }
        } else {
            r matches Err(e) && e@ matches WebDriverErrorInner::InvalidUrl(m) && m@ == f.message
        },
    }
}

/// The page that a session is at is the address that the server answers with, as it parses.
pub proof fn law_current_address<H: HttpClient, G>(h: &SessionHandle<H, G>,
    r: WebDriverResult<String>)
    requires
        call_ensures(SessionHandle::<H, G>::current_url, (h,), r),
    ensures
        exists|t: WebDriverResult<String>| #[trigger]
            laws::told_text(*h, CommandView::GetCurrentUrl, t) && match t {
                Err(e) => r matches Err(f) && f == e,
                Ok(t) => match address::parsed_url(t@) {
                    Ok(u) => r matches Ok(x) && x@ == u,
                    Err(f) => r matches Err(e) && e@ matches WebDriverErrorInner::ParseError(m)
                        && m@ == "invalid url: "@ + t@ + ": "@ + f.message,
                },
            },
{
    let t = choose|t: WebDriverResult<String>| #[trigger]
        crate::driver::answers(*h, CommandView::GetCurrentUrl, t) && match t {
            Err(e) => r == Err::<String, crate::error::WebDriverError>(e),
            Ok(t) => match address::parsed_url(t@) {
                Ok(u) => r matches Ok(x) && x@ == u,
                Err(f) => r matches Err(e) && e@ matches WebDriverErrorInner::ParseError(m) && m@
                    == "invalid url: "@ + t@ + ": "@ + f.message,
            },
        };
    assert(laws::told_text(*h, CommandView::GetCurrentUrl, t));
}

/// What a driver is told to do is the command for it, and nothing else.
pub proof fn law_driver_does<D: Driver>(d: &D)
    ensures
        forall|r: WebDriverResult<()>| #[trigger]
            call_ensures(<D as WebDriverCommands>::close, (d,), r)
            ==> laws::done(*d, CommandView::CloseWindow, r),
        forall|r: WebDriverResult<()>| #[trigger]
            call_ensures(<D as WebDriverCommands>::maximize_window, (d,), r)
            ==> laws::done(*d, CommandView::MaximizeWindow, r),
        forall|r: WebDriverResult<()>| #[trigger]
            call_ensures(<D as WebDriverCommands>::minimize_window, (d,), r)
            ==> laws::done(*d, CommandView::MinimizeWindow, r),
        forall|r: WebDriverResult<()>| #[trigger]
            call_ensures(<D as WebDriverCommands>::fullscreen_window, (d,), r)
            ==> laws::done(*d, CommandView::FullscreenWindow, r),
        forall|r: WebDriverResult<()>| #[trigger]
            call_ensures(<D as WebDriverCommands>::back, (d,), r)
            ==> laws::done(*d, CommandView::Back, r),
        forall|r: WebDriverResult<()>| #[trigger]
            call_ensures(<D as WebDriverCommands>::forward, (d,), r)
            ==> laws::done(*d, CommandView::Forward, r),
        forall|r: WebDriverResult<()>| #[trigger]
            call_ensures(<D as WebDriverCommands>::refresh, (d,), r)
            ==> laws::done(*d, CommandView::Refresh, r),
        forall|r: WebDriverResult<()>| #[trigger]
            call_ensures(<D as WebDriverCommands>::delete_all_cookies, (d,), r)
            ==> laws::done(*d, CommandView::DeleteAllCookies, r),
        forall|u: String, r: WebDriverResult<()>| #[trigger]
            call_ensures(<D as WebDriverCommands>::get, (d, u), r)
            ==> laws::done(*d, CommandView::NavigateTo(u@), r),
        forall|t: OptionRect, r: WebDriverResult<()>| #[trigger]
            call_ensures(<D as WebDriverCommands>::set_window_rect, (d, t), r)
            ==> laws::done(*d, CommandView::SetWindowRect(t), r),
        forall|t: TimeoutConfiguration, r: WebDriverResult<()>| #[trigger]
            call_ensures(<D as WebDriverCommands>::set_timeouts, (d, t), r)
            ==> laws::done(*d, CommandView::SetTimeouts(t@), r),
        forall|c: Cookie, r: WebDriverResult<()>| #[trigger]
            call_ensures(<D as WebDriverCommands>::add_cookie, (d, c), r)
            ==> laws::done(*d, CommandView::AddCookie(c@), r),
        forall|n: &str, r: WebDriverResult<()>| #[trigger]
            call_ensures(<D as WebDriverCommands>::delete_cookie, (d, n), r)
            ==> laws::done(*d, CommandView::DeleteCookie(n@), r),
        forall|n: &str, r: WebDriverResult<()>| #[trigger]
            call_ensures(<D as WebDriverCommands>::set_window_name, (d, n), r)
            ==> laws::done(*d, CommandView::ExecuteScript("window.name = \""@ + n@ + "\""@,
            Seq::empty()), r),
{
}

/// What a driver is asked for is read from the reply to the command for it.
pub proof fn law_driver_asks<D: Driver>(d: &D)
    ensures
        forall|r: WebDriverResult<String>| #[trigger]
            call_ensures(<D as WebDriverCommands>::current_url, (d,), r)
            ==> laws::told_text(*d, CommandView::GetCurrentUrl, r),
        forall|r: WebDriverResult<String>| #[trigger]
            call_ensures(<D as WebDriverCommands>::page_source, (d,), r)
            ==> laws::told_text(*d, CommandView::GetPageSource, r),
        forall|r: WebDriverResult<String>| #[trigger]
            call_ensures(<D as WebDriverCommands>::screenshot_as_base64, (d,), r)
            ==> laws::told_text(*d, CommandView::TakeScreenshot, r),
        forall|r: WebDriverResult<Rect>| #[trigger]
            call_ensures(<D as WebDriverCommands>::get_window_rect, (d,), r) ==> told_rect(*d, r),
        forall|r: WebDriverResult<TimeoutConfiguration>| #[trigger]
            call_ensures(<D as WebDriverCommands>::get_timeouts, (d,), r) ==> told_timeouts(*d, r),
        forall|n: &str, r: WebDriverResult<Cookie>| #[trigger]
            call_ensures(<D as WebDriverCommands>::get_cookie, (d, n), r)
            ==> told_cookie(*d, CommandView::GetNamedCookie(n@), r),
        forall|r: WebDriverResult<WindowHandle>| #[trigger]
            call_ensures(<D as WebDriverCommands>::current_window_handle, (d,), r)
            ==> told_window(*d, r),
        forall|r: WebDriverResult<Vec<WindowHandle>>| #[trigger]
            call_ensures(<D as WebDriverCommands>::window_handles, (d,), r) ==> told_windows(*d, r),
        forall|r: WebDriverResult<Vec<u8>>| #[trigger]
            call_ensures(<D as WebDriverCommands>::screenshot_as_png, (d,), r)
            ==> told_data(*d, CommandView::TakeScreenshot, r),
        forall|r: WebDriverResult<Vec<Cookie>>| #[trigger]
            call_ensures(<D as WebDriverCommands>::get_cookies, (d,), r) ==> told_cookies(*d, r),
{
    assert forall|r: WebDriverResult<Rect>| #[trigger]
        call_ensures(<D as WebDriverCommands>::get_window_rect, (d,), r)
        implies told_rect(*d, r) by {
        lemma_rect(*d, r);
    }
    assert forall|r: WebDriverResult<TimeoutConfiguration>| #[trigger]
        call_ensures(<D as WebDriverCommands>::get_timeouts, (d,), r)
        implies told_timeouts(*d, r) by {
        lemma_timeouts(*d, r);
    }
    assert forall|n: &str, r: WebDriverResult<Cookie>| #[trigger]
        call_ensures(<D as WebDriverCommands>::get_cookie, (d, n), r)
        implies told_cookie(*d, CommandView::GetNamedCookie(n@), r) by {
        lemma_cookie(*d, CommandView::GetNamedCookie(n@), r);
    }
    assert forall|r: WebDriverResult<WindowHandle>| #[trigger]
        call_ensures(<D as WebDriverCommands>::current_window_handle, (d,), r)
        implies told_window(*d, r) by {
        lemma_window(*d, r);
    }
    assert forall|r: WebDriverResult<Vec<WindowHandle>>| #[trigger]
        call_ensures(<D as WebDriverCommands>::window_handles, (d,), r)
        implies told_windows(*d, r) by {
        lemma_windows(*d, r);
    }
    assert forall|r: WebDriverResult<Vec<u8>>| #[trigger]
        call_ensures(<D as WebDriverCommands>::screenshot_as_png, (d,), r)
        implies told_data(*d, CommandView::TakeScreenshot, r) by {
        lemma_data(*d, CommandView::TakeScreenshot, r);
    }
    assert forall|r: WebDriverResult<Vec<Cookie>>| #[trigger]
        call_ensures(<D as WebDriverCommands>::get_cookies, (d,), r)
        implies told_cookies(*d, r) by {
        lemma_cookies(*d, r);
    }
}

/// A driver's title is the text of the reply, and empty where that is none.
pub proof fn law_driver_title<D: Driver>(d: &D, r: WebDriverResult<String>)
    requires
        call_ensures(<D as WebDriverCommands>::title, (d,), r),
    ensures
        exists|reply: WebDriverResult<JsonValue>| #[trigger]
            d.may_answer(CommandView::GetTitle, reply) && match reply {
                Err(e) => r matches Err(f) && f == e,
                Ok(body) => r matches Ok(t) && t@ == (match laws::text_in(body) {
                    Some(s) => s,
                    None => Seq::empty(),
                }),
            },
{
}

/// A driver sets each timeout by its own call, and leaves the others out.
pub proof fn law_driver_timeouts<D: Driver>(
    d: &D,
    t: Duration,
    script: WebDriverResult<()>,
    page_load: WebDriverResult<()>,
    implicit: WebDriverResult<()>,
)
    requires
        call_ensures(<D as WebDriverCommands>::set_script_timeout, (d, t), script),
        call_ensures(<D as WebDriverCommands>::set_page_load_timeout, (d, t), page_load),
        call_ensures(<D as WebDriverCommands>::implicitly_wait, (d, t), implicit),
    ensures
        timeout_given(*d, 0, t, script),
        timeout_given(*d, 1, t, page_load),
        timeout_given(*d, 2, t, implicit),
{
    lemma_one_timeout(*d, crate::webdrivercommands::script_only(t), 0, t, script);
    lemma_one_timeout(*d, crate::webdrivercommands::page_load_only(t), 1, t, page_load);
    lemma_one_timeout(*d, crate::webdrivercommands::implicit_only(t), 2, t, implicit);
}

/// A driver looks for elements in the whole page.
pub proof fn law_driver_search<D: Driver>(
    d: &D,
    by: By,
    selector: Selector,
    one: WebDriverResult<WebElement<D>>,
    all: WebDriverResult<Vec<WebElement<D>>>,
)
    requires
        call_ensures(By::into_selector, (by,), selector),
        call_ensures(<D as WebDriverCommands>::find_element, (d, by), one),
        call_ensures(<D as WebDriverCommands>::find_elements, (d, by), all),
    ensures
        elements::told_element(*d, CommandView::FindElement(selector@), one),
        elements::told_elements(*d, CommandView::FindElements(selector@), all),
{
    elements::lemma_element(*d, CommandView::FindElement(selector@), one);
    elements::lemma_elements(*d, CommandView::FindElements(selector@), all);
}

/// What a driver's script hands back: the value of the reply, and null where there is none.
pub open spec fn script_told<D: Driver>(
    d: D,
    command: CommandView,
    r: WebDriverResult<ScriptRet<D>>,
) -> bool {
    exists|reply: WebDriverResult<JsonValue>| #[trigger]
        d.may_answer(command, reply) && match reply {
            Err(e) => r matches Err(f) && f == e,
            Ok(body) => r matches Ok(s) && s.session() == d && s@ == (match laws::value_in(body) {
                Some(v) => v,
                None => Json::Null,
            }),
        }
}

/// A driver runs scripts with the arguments that it is given, and without any where it is given
/// none.
pub proof fn law_driver_scripts<D: Driver>(d: &D, script: &str, args: Vec<JsonValue>)
    ensures
        forall|r: WebDriverResult<ScriptRet<D>>| #[trigger]
            call_ensures(<D as WebDriverCommands>::execute_script, (d, script), r)
            ==> script_told(*d, CommandView::ExecuteScript(script@, Seq::empty()), r),
        forall|r: WebDriverResult<ScriptRet<D>>| #[trigger]
            call_ensures(<D as WebDriverCommands>::execute_async_script, (d, script), r)
            ==> script_told(*d, CommandView::ExecuteAsyncScript(script@, Seq::empty()), r),
        forall|r: WebDriverResult<ScriptRet<D>>| #[trigger]
            call_ensures(<D as WebDriverCommands>::execute_script_with_args, (d, script, args), r)
            ==> script_told(*d, CommandView::ExecuteScript(script@, json::items_view(args@)), r),
        forall|r: WebDriverResult<ScriptRet<D>>| #[trigger]
            call_ensures(<D as WebDriverCommands>::execute_async_script_with_args, (d, script,
            args), r)
            ==> script_told(*d, CommandView::ExecuteAsyncScript(script@, json::items_view(args@)),
            r),
{
}

/// What a script handed back is read as what it is asked for.
pub proof fn law_script_values<D: Driver>(s: &ScriptRet<D>)
    ensures
        forall|r: &JsonValue| #[trigger] call_ensures(ScriptRet::<D>::value, (s,), r) ==> r@ == s@,
        forall|r: WebDriverResult<String>| #[trigger]
            call_ensures(ScriptRet::<D>::convert::<String>, (s,), r) ==> (match s@ {
            Json::Str(t) => r matches Ok(x) && x@ == t,
            _ => r is Err,
        }),
        forall|r: WebDriverResult<bool>| #[trigger]
            call_ensures(ScriptRet::<D>::convert::<bool>, (s,), r) ==> (match s@ {
            Json::Bool(b) => r matches Ok(x) && x == b,
            _ => r is Err,
        }),
        forall|r: WebDriverResult<WebElement<D>>| #[trigger]
            call_ensures(ScriptRet::<D>::get_element, (s,), r) ==> (match values::element_in(s@) {
            Some(id) => r matches Ok(w) && w.element_id@ == id && *w.session == s.session(),
            None => r is Err,
        }),
{
}

/// Alerts, frames and windows are switched to by the commands for them.
pub proof fn law_switching<D: Driver>(s: SwitchTo<D>, a: &Alert<D>)
    ensures
        forall|r: WebDriverResult<()>| #[trigger]
            call_ensures(SwitchTo::<D>::default_content, (s,), r)
            ==> laws::done(s.session(), CommandView::SwitchToFrameDefault, r),
        forall|r: WebDriverResult<()>| #[trigger]
            call_ensures(SwitchTo::<D>::parent_frame, (s,), r)
            ==> laws::done(s.session(), CommandView::SwitchToParentFrame, r),
        forall|n: u16, r: WebDriverResult<()>| #[trigger]
            call_ensures(SwitchTo::<D>::frame_number, (s, n), r)
            ==> laws::done(s.session(), CommandView::SwitchToFrameNumber(n), r),
        forall|e: &WebElement<D>, r: WebDriverResult<()>| #[trigger]
            call_ensures(SwitchTo::<D>::frame_element, (s, e), r)
            ==> laws::done(s.session(), CommandView::SwitchToFrameElement(e.element_id@), r),
        forall|w: WindowHandle, r: WebDriverResult<()>| #[trigger]
            call_ensures(SwitchTo::<D>::window, (s, w), r)
            ==> laws::done(s.session(), CommandView::SwitchToWindow(w@), r),
        forall|r: WebDriverResult<WindowHandle>| #[trigger]
            call_ensures(SwitchTo::<D>::new_window, (s,), r)
            ==> told_new_window(s.session(), CommandView::NewWindow, r),
        forall|r: WebDriverResult<WindowHandle>| #[trigger]
            call_ensures(SwitchTo::<D>::new_tab, (s,), r)
            ==> told_new_window(s.session(), CommandView::NewTab, r),
        forall|r: Alert<D>| #[trigger] call_ensures(SwitchTo::<D>::alert, (s,), r)
            ==> r.driver() == s.session(),
        forall|r: WebDriverResult<String>| #[trigger] call_ensures(Alert::<D>::text, (a,), r)
            ==> laws::told_text(a.driver(), CommandView::GetAlertText, r),
        forall|r: WebDriverResult<()>| #[trigger] call_ensures(Alert::<D>::dismiss, (a,), r)
            ==> laws::done(a.driver(), CommandView::DismissAlert, r),
        forall|r: WebDriverResult<()>| #[trigger] call_ensures(Alert::<D>::accept, (a,), r)
            ==> laws::done(a.driver(), CommandView::AcceptAlert, r),
        forall|r: WebDriverResult<WebElement<D>>| #[trigger]
            call_ensures(SwitchTo::<D>::active_element, (s,), r)
            ==> elements::told_element(s.session(), CommandView::GetActiveElement, r),
{
    assert forall|r: WebDriverResult<WebElement<D>>| #[trigger]
        call_ensures(SwitchTo::<D>::active_element, (s,), r)
        implies elements::told_element(s.session(), CommandView::GetActiveElement, r) by {
        elements::lemma_element(s.session(), CommandView::GetActiveElement, r);
    }
}

/// An alert is answered with what is typed.
pub proof fn law_alert_types<D: Driver, S: IntoTyping>(
    a: &Alert<D>,
    keys: S,
    typing: TypingData,
    r: WebDriverResult<()>,
)
    requires
        call_ensures(Alert::<D>::send_keys::<S>, (a, keys), r),
        call_ensures(TypingData::from::<S>, (keys,), typing),
    ensures
        laws::done(a.driver(), CommandView::SendAlertText(typing@), r),
{
}

/// A session holds what it was made of, and hands it out as it is.
pub proof fn law_handle_parts<H, G>(h: &SessionHandle<H, G>, c: WebDriverConfig, p: SessionPoller)
    ensures
        forall|r: &SessionId| #[trigger] call_ensures(SessionHandle::<H, G>::session_id, (h,), r)
            ==> r@ == h@.session_id,
        forall|r: &JsonValue| #[trigger] call_ensures(SessionHandle::<H, G>::capabilities, (h,), r)
            ==> r@ == h@.capabilities,
        forall|r: String| #[trigger] call_ensures(SessionHandle::<H, G>::server_url, (h,), r)
            ==> r@ == h@.server_url,
        forall|r: &WebDriverConfig| #[trigger] call_ensures(SessionHandle::<H, G>::config, (h,), r)
            ==> *r == h@.config,
        forall|m: &mut SessionHandle<H, G>, r: ()| #[trigger]
            call_ensures(SessionHandle::<H, G>::set_config, (m, c), r) ==> {
            &&& final(m)@.config == c
            &&& final(m)@.client == (*m)@.client
            &&& final(m)@.server_url == (*m)@.server_url
            &&& final(m)@.session_id == (*m)@.session_id
            &&& final(m)@.capabilities == (*m)@.capabilities
            &&& final(m)@.quit == (*m)@.quit
            &&& final(m)@.driver_guard == (*m)@.driver_guard
        },
        forall|m: &mut SessionHandle<H, G>, r: ()| #[trigger]
            call_ensures(SessionHandle::<H, G>::set_poller, (m, p), r) ==> {
            &&& final(m)@.config.poller == p
            &&& final(m)@.config.keep_alive == (*m)@.config.keep_alive
            &&& final(m)@.config.user_agent == (*m)@.config.user_agent
            &&& final(m)@.config.reqwest_timeout == (*m)@.config.reqwest_timeout
            &&& final(m)@.client == (*m)@.client
            &&& final(m)@.server_url == (*m)@.server_url
            &&& final(m)@.session_id == (*m)@.session_id
            &&& final(m)@.quit == (*m)@.quit
        },
        forall|m: &mut SessionHandle<H, G>, r: Result<(), AlreadyQuit>| #[trigger]
            call_ensures(SessionHandle::<H, G>::leak, (m,), r) ==> {
            &&& final(m)@.quit
            &&& r is Err <==> (*m)@.quit
            &&& final(m)@.session_id == (*m)@.session_id
            &&& final(m)@.client == (*m)@.client
            &&& final(m)@.server_url == (*m)@.server_url
        },
{
}

/// A session that was not ended yet is ended by deleting it, and stays as it was where that fails;
/// what it was guarded by is let go after that, and every further end only lets that go.
pub proof fn law_quit<H: HttpClient, G: DriverGuard>()
    ensures
        forall|h: &mut SessionHandle<H, G>, r: WebDriverResult<()>| #[trigger]
            call_ensures(SessionHandle::<H, G>::quit, (h,), r) ==> {
            &&& final(h)@.session_id == (*h)@.session_id
            &&& final(h)@.client == (*h)@.client
            &&& final(h)@.config == (*h)@.config
            &&& final(h)@.server_url == (*h)@.server_url
            &&& final(h)@.driver_guard == (*h)@.driver_guard
            &&& if (*h)@.quit {
                final(h)@.quit && let_go((*h)@.driver_guard, r)
            } else {
                exists|x: WebDriverResult<()>| #[trigger]
                    laws::done(*h, CommandView::DeleteSession, x) && match x {
                    Err(e) => !final(h)@.quit && (r matches Err(f) && f == e),
                    Ok(_) => final(h)@.quit && let_go((*h)@.driver_guard, r),
                }
            }
        },
{
    assert forall|h: &mut SessionHandle<H, G>, r: WebDriverResult<()>| #[trigger]
        call_ensures(SessionHandle::<H, G>::quit, (h,), r) && !(*h)@.quit
        implies exists|x: WebDriverResult<()>| #[trigger]
        laws::done(*h, CommandView::DeleteSession, x) && match x {
        Err(e) => !final(h)@.quit && (r matches Err(f) && f == e),
        Ok(_) => final(h)@.quit && let_go((*h)@.driver_guard, r),
    } by {
        let start = crate::session::ending_of(&*h);
        let last = choose|last: crate::session::HandleEnding<H, G>| #[trigger]
            crate::session::ends(start, last, (*h)@.quit, final(h)@.quit, r);
        let (ended, x) = choose|ended: crate::session::HandleEnding<H, G>,
            x: WebDriverResult<()>| #[trigger]
            <crate::session::HandleEnding<H, G> as crate::session::Ending>::deleted(start, ended,
                x) && match x {
                Err(e) => last == ended && !final(h)@.quit
                    && r == Err::<(), crate::error::WebDriverError>(e),
                Ok(_) => final(h)@.quit
                    && <crate::session::HandleEnding<H,
                    G> as crate::session::Ending>::released(ended, last, r),
            };
        assert(laws::done(*h, CommandView::DeleteSession, x));
    }
}

/// What guards a session lets go by itself, and nothing happens where there is no guard.
pub open spec fn let_go<G: DriverGuard>(guard: Option<G>, r: WebDriverResult<()>) -> bool {
    match guard {
        Some(g) => call_ensures(G::release, (&g,), r),
        None => r is Ok,
    }
}

/// A command of a session is one HTTP request to its server: the method, the address and the body of
/// the command's request. A response between 200 and 399 with a JSON body is the reply; every other
/// response is an error, and so is an address that cannot be.
pub proof fn law_session_sends<H: HttpClient, G>(
    h: &SessionHandle<H, G>,
    id: &SessionId,
    c: Command,
    request: RequestData,
    r: WebDriverResult<JsonValue>,
)
    requires
        id@ == h@.session_id,
        call_ensures(<Command as FormatRequestData>::format_request, (&c, id), request),
        call_ensures(<SessionHandle<H, G> as Driver>::cmd, (h, c), r),
    ensures
        r is Ok ==> exists|sent: HttpRequest, answer: HttpResponse| #[trigger]
            call_ensures(
                H::send,
                (&h@.client, sent),
                Ok::<HttpResponse, crate::error::WebDriverError>(answer),
            ) && sent_as(sent, request, h@.server_url) && answered(answer, r->Ok_0@),
{
    let response = choose|response: WebDriverResult<CmdResponse>| #[trigger]
        crate::connection::may_respond(
            h@.client,
            c@.request(h@.session_id),
            h@.server_url,
            h@.config,
            response,
        ) && crate::session::body_result(response, r);
    if r is Ok {
        let (sent, got) = choose|sent: HttpRequest, got: WebDriverResult<HttpResponse>|
            crate::connection::sent_for(sent, request@, h@.server_url, h@.config) && #[trigger]
                call_ensures(
                H::send,
                (&h@.client, sent),
                got,
            ) && match got {
                Ok(a) => http::response_result(a.status, a.body@, response),
                Err(e) => response == Err::<CmdResponse, crate::error::WebDriverError>(e),
            };
        assert(got is Ok);
        assert(sent_as(sent, request, h@.server_url));
        assert(answered(got->Ok_0, r->Ok_0@));
    }
}

/// The request went out as it was put together.
pub open spec fn sent_as(sent: HttpRequest, request: RequestData, server: Seq<char>) -> bool {
    &&& sent.method == request.method
    &&& address::joined_url(server, request.uri@) matches Ok(url) && http::request_uri(url) == Ok::<
        Seq<char>,
        Seq<char>,
    >(sent.url@)
    &&& match (sent.body, request.body) {
        (Some(a), Some(b)) => a@ == b@,
        (None, None) => true,
        _ => false,
    }
}

/// The response is a success whose body is the value.
pub open spec fn answered(answer: HttpResponse, v: Json) -> bool {
    200 <= answer.status <= 399 && wire::json_of_bytes(answer.body@) == Ok::<Json, Seq<char>>(v)
}

/// A session asks for the kinds of log, which are texts.
pub proof fn law_log_types<H: HttpClient, G>(h: &SessionHandle<H, G>,
    r: WebDriverResult<Vec<String>>)
    requires
        call_ensures(SessionHandle::<H, G>::get_log_types, (h,), r),
    ensures
        exists|reply: WebDriverResult<JsonValue>| #[trigger]
            h.may_answer(CommandView::GetLogTypes, reply) && match reply {
                Err(e) => r matches Err(f) && f == e,
                Ok(body) => match laws::value_in(body) {
                    Some(v) => if texts_valid(v) {
                        r matches Ok(t) && t@.len() == v->Arr_0.len() && forall|i: int|
                            0 <= i < t@.len() ==> v->Arr_0[i] == Json::Str(
                                (#[trigger] t@[i])@,
                            )
                    } else {
                        r is Err
                    },
                    None => r is Err,
                },
            },
{
    let reply = choose|reply: WebDriverResult<JsonValue>| #[trigger]
        h.may_answer(CommandView::GetLogTypes, reply) && crate::reply::read_result(reply, r);
    assert(h.may_answer(CommandView::GetLogTypes, reply));
}

/// A session that was quit is not ended again. Any other is ended, and only then is it quit and what
/// guards it let go: where ending fails, it is kept, and so is the session.
pub proof fn law_end_session<E: crate::session::Ending>()
    ensures
        forall|ending: &mut E, quit: &mut bool, r: WebDriverResult<()>| #[trigger]
            call_ensures(crate::session::end_session::<E>, (ending, quit), r) ==> {
                &&& *quit ==> *final(quit) && E::released(*ending, *final(ending), r)
                &&& !*quit && !*final(quit) ==> r is Err && E::deleted(*ending, *final(ending), r)
                &&& !*quit && *final(quit) ==> exists|ended: E, x: WebDriverResult<()>| #[trigger]
                    E::deleted(*ending, ended, x) && x is Ok && E::released(
                        ended,
                        *final(ending),
                        r,
                    )
            },
{
}

/// A script's value is read as a list of elements where it is one. It is kept with its session, as
/// alerts and switches are.
pub proof fn law_made_of_session<'a, D: Driver>(d: &'a D, v: JsonValue, s: &ScriptRet<'a, D>)
    ensures
        forall|r: ScriptRet<'a, D>| #[trigger]
            call_ensures(ScriptRet::<'a, D>::new, (d, v), r) ==> r.session() == *d && r@ == v@,
        forall|r: Alert<'a, D>| #[trigger]
            call_ensures(Alert::<'a, D>::new, (d,), r) ==> r.driver() == *d,
        forall|r: SwitchTo<'a, D>| #[trigger]
            call_ensures(SwitchTo::<'a, D>::new, (d,), r) ==> r.session() == *d,
        forall|r: WebDriverResult<Vec<WebElement<'a, D>>>| #[trigger]
            call_ensures(ScriptRet::<'a, D>::get_elements, (s,), r) ==> if elements::elements_valid(
                s@,
            ) {
                r matches Ok(w) && elements::elements_read(s@, s.session(), w)
            } else {
                r is Err
            },
{
    assert forall|r: WebDriverResult<Vec<WebElement<'a, D>>>| #[trigger]
        call_ensures(ScriptRet::<'a, D>::get_elements, (s,), r) implies if elements::elements_valid(
        s@,
    ) {
        r matches Ok(w) && elements::elements_read(s@, s.session(), w)
    } else {
        r is Err
    } by {
        elements::lemma_list(s.session(), s@, r);
    }
}

} // verus!
