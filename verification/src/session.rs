//! The handle of a session.
use crate::action_chain::ActionChain;
use crate::address;
use crate::address::{located_address, navigation_address, ServerUrl};
use crate::command::{By, Command, CommandView, FormatRequestData};
use crate::config::{SessionPoller, WebDriverConfig};
use crate::connection;
use crate::connection::{run_webdriver_cmd, HttpClient};
use crate::cookie::Cookie;
use crate::driver;
use crate::driver::{read_command, run_command, Driver};
use crate::duration::Duration;
use crate::error::{WebDriverError, WebDriverErrorInner, WebDriverResult};
use crate::http::CmdResponse;
use crate::json;
use crate::json::{Json, JsonValue};
use crate::keys::{IntoTyping, TypingData};
use crate::reply;
use crate::reply::data_of;
use crate::request::RequestData;
use crate::switch_to;
use crate::switch_to::{run_in_tab, switch_to_name, window_of, windows_of};
use crate::text::cat3;
use crate::types;
use crate::types::{
    IntoArcStr, IntoTransfer, OptionRect, Rect, SessionId, TimeoutConfiguration, WebDriverStatus,
    WindowHandle,
};
use crate::webdrivercommands;
use crate::webdrivercommands::ScriptRet;
use crate::webelement;
use crate::webelement::{find_all_command, find_command, WebElement};
use vstd::prelude::*;

verus! {

/// What keeps the driver process of a session alive, and lets it go when the session has ended.
pub trait DriverGuard: Sized {
    /// Lets the driver process go.
    fn release(&self) -> (r: WebDriverResult<()>)
        default_ensures
            r is Ok,
    {
        Ok(())
    }
}

/// No driver process: the server was there before the session, and stays.
#[derive(Debug)]
pub struct NoGuard;

impl DriverGuard for NoGuard {

}

/// The error that the session has been quit.
#[derive(Debug, Clone, Copy, PartialEq, Eq, Structural)]
pub struct AlreadyQuit;

/// A handle to a session, which holds the connection to the server and the configuration.
#[derive(Debug)]
pub struct SessionHandle<H, G> {
    /// The HTTP client for performing webdriver requests.
    pub client: H,
    server_url: ServerUrl,
    session_id: SessionId,
    capabilities: JsonValue,
    config: WebDriverConfig,
    quit: bool,
    driver_guard: Option<G>,
}

/// What a handle stands for.
pub struct HandleView<H, G> {
    pub client: H,
    pub server_url: Seq<char>,
    pub session_id: Seq<char>,
    pub capabilities: Json,
    pub config: WebDriverConfig,
    pub quit: bool,
    pub driver_guard: Option<G>,
}

impl<H, G> SessionHandle<H, G> {
    /// What this handle stands for.
    pub closed spec fn view(&self) -> HandleView<H, G> {
        HandleView {
            client: self.client,
            server_url: self.server_url@,
            session_id: self.session_id@,
            capabilities: self.capabilities@,
            config: self.config,
            quit: self.quit,
            driver_guard: self.driver_guard,
        }
    }

    /// Create new SessionHandle with the specified WebDriverConfig, driver guard and capabilities.
    pub fn new_with_config_guard_and_caps(
        client: H,
        server_url: &str,
        session_id: SessionId,
        config: WebDriverConfig,
        driver_guard: Option<G>,
        capabilities: JsonValue,
    ) -> (r: WebDriverResult<Self>)
        ensures
            match address::parsed_url(server_url@) {
                Ok(u) => r matches Ok(h) && h@ == (HandleView {
                    client,
                    server_url: u,
                    session_id: session_id@,
                    capabilities: capabilities@,
                    config,
                    quit: false,
                    driver_guard,
                }),
                Err(f) => r matches Err(e) && e@ matches WebDriverErrorInner::ParseError(m) && m@
                    == "url parse err "@ + f.message,
            },
    {
        let server_url: ServerUrl = match ServerUrl::into_url(server_url) {
            Ok(u) => u,
            Err(e) => return Err(e),
        };
        Ok(
            SessionHandle {
                client,
                server_url,
                session_id,
                capabilities,
                config,
                quit: false,
                driver_guard,
            },
        )
    }

    /// The session id of this webdriver session.
    pub fn session_id(&self) -> (r: &SessionId)
        ensures
            r@ == self@.session_id,
    {
        &self.session_id
    }

    /// The capabilities that the server gave the session.
    pub fn capabilities(&self) -> (r: &JsonValue)
        ensures
            r@ == self@.capabilities,
    {
        &self.capabilities
    }

    /// The url of the server, as the `url` crate writes it.
    pub fn server_url(&self) -> (r: String)
        ensures
            r@ == self@.server_url,
    {
        self.server_url.to_text()
    }

    /// The configuration used by this session.
    pub fn config(&self) -> (r: &WebDriverConfig)
        ensures
            *r == self@.config,
    {
        &self.config
    }

    /// Replaces the configuration of this session.
    pub fn set_config(&mut self, config: WebDriverConfig)
        ensures
            final(self)@ == (HandleView { config, ..old(self)@ }),
    {
        self.config = config;
    }

    /// Replaces the poller of the configuration of this session, and nothing else of it.
    pub fn set_poller(&mut self, poller: SessionPoller)
        ensures
            final(self)@ == (HandleView {
                config: WebDriverConfig { poller, ..old(self)@.config },
                ..old(self)@
            }),
    {
        self.config.poller = poller;
    }

    /// Ends the use of this session without ending the session itself.
    pub fn leak(&mut self) -> (r: Result<(), AlreadyQuit>)
        ensures
            r is Err <==> old(self)@.quit,
            final(self)@ == (HandleView { quit: true, ..old(self)@ }),
    {
        if self.quit {
            Err(AlreadyQuit)
        } else {
            self.quit = true;
            Ok(())
        }
    }
}

/// Whether `reply` is the body of a response.
pub open spec fn body_result(
    response: WebDriverResult<CmdResponse>,
    reply: WebDriverResult<JsonValue>,
) -> bool {
    match response {
        Err(e) => reply == Err::<JsonValue, WebDriverError>(e),
        Ok(c) => reply == Ok::<JsonValue, WebDriverError>(c.body),
    }
}

impl<H: HttpClient, G> Driver for SessionHandle<H, G> {
    open spec fn id(&self) -> Seq<char> {
        self@.session_id
    }

    open spec fn may_answer(&self, command: CommandView, reply: WebDriverResult<JsonValue>) -> bool {
        exists|response: WebDriverResult<CmdResponse>| #[trigger]
            connection::may_respond(
                self@.client,
                command.request(self@.session_id),
                self@.server_url,
                self@.config,
                response,
            ) && body_result(response, reply)
    }

    fn session_id(&self) -> (r: &SessionId) {
        &self.session_id
    }

    fn cmd(&self, command: Command) -> (r: WebDriverResult<JsonValue>) {
        let request_data: RequestData = command.format_request(&self.session_id);
        let response: WebDriverResult<CmdResponse> = run_webdriver_cmd(
            &self.client,
            &request_data,
            &self.server_url,
            &self.config,
        );
        proof {
            assert(connection::may_respond(
                self@.client,
                command@.request(self@.session_id),
                self@.server_url,
                self@.config,
                response,
            ));
        }
        match response {
            Ok(c) => Ok(c.body),
            Err(e) => Err(e),
        }
    }
}

/// Whether `r` may be what becomes of navigating to an address: it is navigated to as it stands
/// where it is a URL, and with `https://` in front where it is one then.
pub open spec fn goes_to<D: Driver>(d: D, text: Seq<char>, r: WebDriverResult<()>) -> bool {
    match address::navigation_url(
        text,
        address::parsed_url(text),
        address::parsed_url("https://"@ + text),
    ) {
        Ok(u) => driver::runs(d, CommandView::NavigateTo(u), r),
        Err(f) => r matches Err(e) && e@ matches WebDriverErrorInner::InvalidUrl(m) && m@
            == f.message,
    }
}

/// Whether `r` may be the URL that the session is at.
pub open spec fn is_at<D: Driver>(d: D, r: WebDriverResult<String>) -> bool {
    exists|s: WebDriverResult<String>| #[trigger]
        driver::answers(d, CommandView::GetCurrentUrl, s) && match s {
            Err(e) => r == Err::<String, WebDriverError>(e),
            Ok(t) => match address::parsed_url(t@) {
                Ok(u) => r matches Ok(x) && x@ == u,
                Err(f) => r matches Err(e) && e@ matches WebDriverErrorInner::ParseError(m) && m@
                    == "invalid url: "@ + t@ + ": "@ + f.message,
            },
        }
}

/// Whether `r` may be what a script comes to: the value of the answer, which must have one.
pub open spec fn executes<D: Driver>(
    d: D,
    command: CommandView,
    r: WebDriverResult<ScriptRet<D>>,
) -> bool {
    exists|v: WebDriverResult<JsonValue>| #[trigger]
        driver::answers(d, command, v) && match v {
            Err(e) => r == Err::<ScriptRet<D>, WebDriverError>(e),
            Ok(x) => r matches Ok(s) && s.session() == d && s@ == x@,
        }
}

/// Runs a script.
fn execute_command<'a, D: Driver>(d: &'a D, command: Command) -> (r: WebDriverResult<
    ScriptRet<'a, D>,
>)
    ensures
        executes(*d, command@, r),
{
    match read_command::<D, JsonValue>(d, command) {
        Ok(v) => Ok(ScriptRet::new(d, v)),
        Err(e) => Err(e),
    }
}

/// What is to be ended: a session on a server, and after it what keeps its driver process alive.
pub trait Ending: Sized {
    /// Whether ending the session can make `after` of `before`, with the result `r`.
    spec fn deleted(before: Self, after: Self, r: WebDriverResult<()>) -> bool;

    /// Whether letting the driver process go can make `after` of `before`, with the result `r`.
    spec fn released(before: Self, after: Self, r: WebDriverResult<()>) -> bool;

    /// Ends the session on the server.
    fn delete(&mut self) -> (r: WebDriverResult<()>)
        ensures
            Self::deleted(*old(self), *final(self), r),
    ;

    /// Lets the driver process go.
    fn release(&mut self) -> (r: WebDriverResult<()>)
        ensures
            Self::released(*old(self), *final(self), r),
    ;
}

/// Whether `r` may be what becomes of quitting, which makes `after` of `before`: a session that was
/// quit before is not ended again, and the driver process is let go once the session has ended. It
/// stays where ending the session failed.
pub open spec fn ends<E: Ending>(
    before: E,
    after: E,
    was_quit: bool,
    is_quit: bool,
    r: WebDriverResult<()>,
) -> bool {
    if was_quit {
        is_quit && E::released(before, after, r)
    } else {
        exists|ended: E, x: WebDriverResult<()>| #[trigger]
            E::deleted(before, ended, x) && match x {
                Err(e) => after == ended && !is_quit && r == Err::<(), WebDriverError>(e),
                Ok(_) => is_quit && E::released(ended, after, r),
            }
    }
}

/// Ends a session that has not been quit, and then lets its driver process go.
pub fn end_session<E: Ending>(ending: &mut E, quit: &mut bool) -> (r: WebDriverResult<()>)
    ensures
        ends(*old(ending), *final(ending), *old(quit), *final(quit), r),
{
    if !*quit {
        match ending.delete() {
            Ok(_) => {},
            Err(e) => return Err(e),
        }
        *quit = true;
    }
    ending.release()
}

/// The session of a handle, to be ended. What the server has become does not show in it.
#[derive(Debug)]
pub struct HandleEnding<'a, H, G> {
    pub handle: &'a SessionHandle<H, G>,
}

impl<'a, H: HttpClient, G: DriverGuard> Ending for HandleEnding<'a, H, G> {
    open spec fn deleted(before: Self, after: Self, r: WebDriverResult<()>) -> bool {
        after == before && driver::runs(*before.handle, CommandView::DeleteSession, r)
    }

    open spec fn released(before: Self, after: Self, r: WebDriverResult<()>) -> bool {
        after == before && releases(before.handle@.driver_guard, r)
    }

    fn delete(&mut self) -> (r: WebDriverResult<()>) {
        run_command(self.handle, Command::DeleteSession)
    }

    fn release(&mut self) -> (r: WebDriverResult<()>) {
        match &self.handle.driver_guard {
            Some(guard) => guard.release(),
            None => Ok(()),
        }
    }
}

/// The session of a handle, to be ended.
pub open spec fn ending_of<'a, H, G>(handle: &'a SessionHandle<H, G>) -> HandleEnding<'a, H, G> {
    HandleEnding { handle }
}

/// Whether `r` may be what becomes of quitting the session of a handle, of which only whether it is
/// quit becomes another.
pub open spec fn quits<H: HttpClient, G: DriverGuard>(
    before: SessionHandle<H, G>,
    after: SessionHandle<H, G>,
    r: WebDriverResult<()>,
) -> bool {
    &&& after@ == (HandleView { quit: after@.quit, ..before@ })
    &&& exists|last: HandleEnding<H, G>| #[trigger]
        ends(ending_of(&before), last, before@.quit, after@.quit, r)
}

/// Whether `r` may be what becomes of letting the driver process go, where there is one.
pub open spec fn releases<G: DriverGuard>(guard: Option<G>, r: WebDriverResult<()>) -> bool {
    match guard {
        Some(g) => call_ensures(G::release, (&g,), r),
        None => r is Ok,
    }
}

/// A session that has been quit stays quit, and quitting it again sends nothing to the server:
/// the result is that of letting the driver process go.
pub proof fn lemma_quit_once<H: HttpClient, G: DriverGuard>(
    first: SessionHandle<H, G>,
    second: SessionHandle<H, G>,
    third: SessionHandle<H, G>,
    r1: WebDriverResult<()>,
    r2: WebDriverResult<()>,
)
    requires
        quits(first, second, r1),
        r1 is Ok,
        quits(second, third, r2),
    ensures
        second@.quit,
        third@ == second@,
        releases(first@.driver_guard, r2),
{
    assert(first@.driver_guard == second@.driver_guard);
}

impl<H: HttpClient, G: DriverGuard> SessionHandle<H, G> {
    /// Quits the session: ends it on the server, and lets the driver process go.
    pub fn quit(&mut self) -> (r: WebDriverResult<()>)
        ensures
            quits(*old(self), *final(self), r),
    {
        let mut quit: bool = self.quit;
        let mut ending: HandleEnding<H, G> = HandleEnding { handle: &*self };
        let r: WebDriverResult<()> = end_session(&mut ending, &mut quit);
        assert(ends(ending_of(&*old(self)), ending, old(self)@.quit, quit, r));
        self.quit = quit;
        r
    }
}

impl<H: HttpClient, G> SessionHandle<H, G> {
    /// Send the specified command to the webdriver server.
    pub fn cmd<F: FormatRequestData>(&self, command: F) -> (r: WebDriverResult<CmdResponse>)
        ensures
            connection::may_respond(
                self@.client,
                command.request_in(self@.session_id),
                self@.server_url,
                self@.config,
                r,
            ),
    {
        let request_data: RequestData = command.format_request(&self.session_id);
        run_webdriver_cmd(&self.client, &request_data, &self.server_url, &self.config)
    }

    /// Get the WebDriver status.
    pub fn status(&self) -> (r: WebDriverResult<WebDriverStatus>)
        ensures
            driver::answers(*self, CommandView::Status, r),
    {
        read_command(self, Command::Status)
    }

    /// Close the current window or tab.
    pub fn close_window(&self) -> (r: WebDriverResult<()>)
        ensures
            driver::runs(*self, CommandView::CloseWindow, r),
    {
        run_command(self, Command::CloseWindow)
    }

    /// Navigate to the specified URL.
    pub fn goto<S: IntoArcStr>(&self, url: S) -> (r: WebDriverResult<()>)
        ensures
            goes_to(*self, url.text(), r),
    {
        match navigation_address(IntoTransfer::into(url)) {
            Ok(u) => run_command(self, Command::NavigateTo(u)),
            Err(e) => Err(e),
        }
    }

    /// Navigate to the specified URL. Alias of goto().
    pub fn get<S: IntoArcStr>(&self, url: S) -> (r: WebDriverResult<()>)
        ensures
            goes_to(*self, url.text(), r),
    {
        self.goto(url)
    }

    /// Get the current URL, as the `url` crate writes it.
    pub fn current_url(&self) -> (r: WebDriverResult<String>)
        ensures
            is_at(*self, r),
    {
        match read_command::<Self, String>(self, Command::GetCurrentUrl) {
            Ok(s) => located_address(s),
            Err(e) => Err(e),
        }
    }

    /// Get the page source as a String.
    pub fn source(&self) -> (r: WebDriverResult<String>)
        ensures
            driver::answers(*self, CommandView::GetPageSource, r),
    {
        read_command(self, Command::GetPageSource)
    }

    /// Get the page title as a String.
    pub fn title(&self) -> (r: WebDriverResult<String>)
        ensures
            driver::answers(*self, CommandView::GetTitle, r),
    {
        read_command(self, Command::GetTitle)
    }

    /// Search for an element on the current page using the specified selector.
    pub fn find(&self, by: By) -> (r: WebDriverResult<WebElement<'_, Self>>)
        ensures
            webelement::finds(*self, CommandView::FindElement(by@.selector()), r),
    {
        find_command(self, Command::FindElement(by.into_selector()))
    }

    /// Search for all elements on the current page that match the specified selector.
    pub fn find_all(&self, by: By) -> (r: WebDriverResult<Vec<WebElement<'_, Self>>>)
        ensures
            webelement::finds_all(*self, CommandView::FindElements(by@.selector()), r),
    {
        find_all_command(self, Command::FindElements(by.into_selector()))
    }

    /// Execute the specified Javascript synchronously and return the result.
    pub fn execute<S: IntoArcStr>(&self, script: S, args: Vec<JsonValue>) -> (r: WebDriverResult<ScriptRet<'_, Self>>)
        ensures
            executes(*self, CommandView::ExecuteScript(script.text(), json::items_view(args@)), r),
    {
        execute_command(self, Command::ExecuteScript(IntoTransfer::into(script), args))
    }

    /// Execute the specified Javascript asynchronously and return the result.
    pub fn execute_async<S: IntoArcStr>(&self, script: S, args: Vec<JsonValue>) -> (r: WebDriverResult<ScriptRet<'_, Self>>)
        ensures
            executes(*self, CommandView::ExecuteAsyncScript(script.text(), json::items_view(args@)), r),
    {
        execute_command(self, Command::ExecuteAsyncScript(IntoTransfer::into(script), args))
    }

    /// Get the current window handle.
    pub fn window(&self) -> (r: WebDriverResult<WindowHandle>)
        ensures
            switch_to::current_window(*self, r),
    {
        window_of(self)
    }

    /// Get all window handles for the current session.
    pub fn windows(&self) -> (r: WebDriverResult<Vec<WindowHandle>>)
        ensures
            switch_to::all_windows(*self, r),
    {
        windows_of(self)
    }

    /// Maximize the current window.
    pub fn maximize_window(&self) -> (r: WebDriverResult<()>)
        ensures
            driver::runs(*self, CommandView::MaximizeWindow, r),
    {
        run_command(self, Command::MaximizeWindow)
    }

    /// Minimize the current window.
    pub fn minimize_window(&self) -> (r: WebDriverResult<()>)
        ensures
            driver::runs(*self, CommandView::MinimizeWindow, r),
    {
        run_command(self, Command::MinimizeWindow)
    }

    /// Make the current window fullscreen.
    pub fn fullscreen_window(&self) -> (r: WebDriverResult<()>)
        ensures
            driver::runs(*self, CommandView::FullscreenWindow, r),
    {
        run_command(self, Command::FullscreenWindow)
    }

    /// Get the current window rectangle, in pixels.
    pub fn get_window_rect(&self) -> (r: WebDriverResult<Rect>)
        ensures
            driver::answers(*self, CommandView::GetWindowRect, r),
    {
        read_command(self, Command::GetWindowRect)
    }

    /// Set the current window rectangle, in pixels.
    pub fn set_window_rect(&self, x: i64, y: i64, width: u32, height: u32) -> (r: WebDriverResult<()>)
        ensures
            driver::runs(
                *self,
                CommandView::SetWindowRect(
                    OptionRect {
                        x: Some(x),
                        y: Some(y),
                        width: Some(width as i64),
                        height: Some(height as i64),
                    },
                ),
                r,
            ),
    {
        let rect: OptionRect = OptionRect {
            x: Some(x),
            y: Some(y),
            width: Some(width as i64),
            height: Some(height as i64),
        };
        run_command(self, Command::SetWindowRect(rect))
    }

    /// Go back. This is equivalent to clicking the browser's back button.
    pub fn back(&self) -> (r: WebDriverResult<()>)
        ensures
            driver::runs(*self, CommandView::Back, r),
    {
        run_command(self, Command::Back)
    }

    /// Go forward. This is equivalent to clicking the browser's forward button.
    pub fn forward(&self) -> (r: WebDriverResult<()>)
        ensures
            driver::runs(*self, CommandView::Forward, r),
    {
        run_command(self, Command::Forward)
    }

    /// Refresh the current page.
    pub fn refresh(&self) -> (r: WebDriverResult<()>)
        ensures
            driver::runs(*self, CommandView::Refresh, r),
    {
        run_command(self, Command::Refresh)
    }

    /// Get all timeouts for the current session.
    pub fn get_timeouts(&self) -> (r: WebDriverResult<TimeoutConfiguration>)
        ensures
            driver::answers(*self, CommandView::GetTimeouts, r),
    {
        read_command(self, Command::GetTimeouts)
    }

    /// Set the specified timeouts for the current session.
    pub fn update_timeouts(&self, timeouts: TimeoutConfiguration) -> (r: WebDriverResult<()>)
        ensures
            driver::runs(*self, CommandView::SetTimeouts(timeouts@), r),
    {
        run_command(self, Command::SetTimeouts(timeouts))
    }

    /// Set the implicit wait timeout.
    pub fn set_implicit_wait_timeout(&self, time_to_wait: Duration) -> (r: WebDriverResult<()>)
        ensures
            driver::runs(*self, CommandView::SetTimeouts(webdrivercommands::implicit_only(time_to_wait)), r),
    {
        let timeouts: TimeoutConfiguration = TimeoutConfiguration::new(None, None, Some(time_to_wait));
        self.update_timeouts(timeouts)
    }

    /// Set the script timeout.
    pub fn set_script_timeout(&self, time_to_wait: Duration) -> (r: WebDriverResult<()>)
        ensures
            driver::runs(*self, CommandView::SetTimeouts(webdrivercommands::script_only(time_to_wait)), r),
    {
        let timeouts: TimeoutConfiguration = TimeoutConfiguration::new(Some(time_to_wait), None, None);
        self.update_timeouts(timeouts)
    }

    /// Set the page load timeout.
    pub fn set_page_load_timeout(&self, time_to_wait: Duration) -> (r: WebDriverResult<()>)
        ensures
            driver::runs(*self, CommandView::SetTimeouts(webdrivercommands::page_load_only(time_to_wait)), r),
    {
        let timeouts: TimeoutConfiguration = TimeoutConfiguration::new(None, Some(time_to_wait), None);
        self.update_timeouts(timeouts)
    }

    /// Create a new action chain for this session.
    pub fn action_chain(&self) -> (r: ActionChain<'_, Self>)
        ensures
            r.is_new(*self, 0, 250),
    {
        ActionChain::new(self)
    }

    /// Create a new action chain for this session with custom action delays.
    pub fn action_chain_with_delay(&self, key_delay: Option<Duration>, pointer_delay: Option<Duration>) -> (r: ActionChain<'_, Self>)
        ensures
            r.is_new(
                *self,
                match types::opt_millis(key_delay) {
                    Some(d) => d,
                    None => 0,
                },
                match types::opt_millis(pointer_delay) {
                    Some(d) => d,
                    None => 250,
                },
            ),
    {
        ActionChain::new_with_delay(self, key_delay, pointer_delay)
    }

    /// Get all cookies.
    pub fn get_all_cookies(&self) -> (r: WebDriverResult<Vec<Cookie>>)
        ensures
            driver::answers(*self, CommandView::GetAllCookies, r),
    {
        read_command(self, Command::GetAllCookies)
    }

    /// Get the specified cookie.
    pub fn get_named_cookie<S: IntoArcStr>(&self, name: S) -> (r: WebDriverResult<Cookie>)
        ensures
            driver::answers(*self, CommandView::GetNamedCookie(name.text()), r),
    {
        read_command(self, Command::GetNamedCookie(IntoTransfer::into(name)))
    }

    /// Delete the specified cookie.
    pub fn delete_cookie<S: IntoArcStr>(&self, name: S) -> (r: WebDriverResult<()>)
        ensures
            driver::runs(*self, CommandView::DeleteCookie(name.text()), r),
    {
        run_command(self, Command::DeleteCookie(IntoTransfer::into(name)))
    }

    /// Delete all cookies.
    pub fn delete_all_cookies(&self) -> (r: WebDriverResult<()>)
        ensures
            driver::runs(*self, CommandView::DeleteAllCookies, r),
    {
        run_command(self, Command::DeleteAllCookies)
    }

    /// Add the specified cookie.
    pub fn add_cookie(&self, cookie: Cookie) -> (r: WebDriverResult<()>)
        ensures
            driver::runs(*self, CommandView::AddCookie(cookie@), r),
    {
        run_command(self, Command::AddCookie(cookie))
    }

    /// Print the current page and return it as PDF bytes.
    pub fn print_page(&self, parameters: JsonValue) -> (r: WebDriverResult<Vec<u8>>)
        ensures
            webdrivercommands::screenshot_result(*self, CommandView::PrintPage(parameters@), r),
    {
        data_of(self.print_page_base64(parameters))
    }

    /// Print the current page and return it as a base64-encoded string.
    pub fn print_page_base64(&self, parameters: JsonValue) -> (r: WebDriverResult<String>)
        ensures
            driver::answers(*self, CommandView::PrintPage(parameters@), r),
    {
        read_command(self, Command::PrintPage(parameters))
    }

    /// Take a screenshot of the current window and return it as a base64-encoded String.
    pub fn screenshot_as_png_base64(&self) -> (r: WebDriverResult<String>)
        ensures
            driver::answers(*self, CommandView::TakeScreenshot, r),
    {
        read_command(self, Command::TakeScreenshot)
    }

    /// Take a screenshot of the current window and return it as PNG bytes.
    pub fn screenshot_as_png(&self) -> (r: WebDriverResult<Vec<u8>>)
        ensures
            webdrivercommands::screenshot_result(*self, CommandView::TakeScreenshot, r),
    {
        data_of(self.screenshot_as_png_base64())
    }

    /// List the log types the driver knows about. This is not part of the WebDriver standard.
    pub fn get_log_types(&self) -> (r: WebDriverResult<Vec<String>>)
        ensures
            driver::answers(*self, CommandView::GetLogTypes, r),
    {
        read_command(self, Command::GetLogTypes)
    }

    /// Set the current window name. Useful for switching between windows/tabs using `switch_to_named_window(name)`.
    pub fn set_window_name(&self, window_name: &str) -> (r: WebDriverResult<()>)
        ensures
            exists|v: WebDriverResult<JsonValue>| #[trigger]
                driver::answers(
                    *self,
                    CommandView::ExecuteScript(
                        webdrivercommands::naming_script(window_name@),
                        Seq::empty(),
                    ),
                    v,
                ) && reply::unit_result(v, r),
    {
        let script: String = cat3("window.name = \"", window_name, "\"");
        let args: Vec<JsonValue> = Vec::new();
        assert(json::items_view(args@) == Seq::<Json>::empty());
        reply::unit_reply(read_command(self, Command::ExecuteScript(script, args)))
    }

    /// Execute the specified function in a new browser tab, closing the tab when complete. The
    /// return value will be that of the supplied function.
    pub fn in_new_tab<T, F: FnOnce() -> WebDriverResult<T>>(&self, f: F) -> (r: WebDriverResult<T>)
        requires
            forall|t: WindowHandle|
                driver::answers(*self, CommandView::NewTab, Ok::<WindowHandle, WebDriverError>(t))
                    && #[trigger] driver::runs(*self, CommandView::SwitchToWindow(t@), Ok(()))
                    ==> call_requires(f, ()),
        ensures
            switch_to::runs_in_tab(*self, f, r),
    {
        run_in_tab(self, f)
    }

    /// Get the active alert text.
    pub fn get_alert_text(&self) -> (r: WebDriverResult<String>)
        ensures
            driver::answers(*self, CommandView::GetAlertText, r),
    {
        read_command(self, Command::GetAlertText)
    }

    /// Dismiss the active alert.
    pub fn dismiss_alert(&self) -> (r: WebDriverResult<()>)
        ensures
            driver::runs(*self, CommandView::DismissAlert, r),
    {
        run_command(self, Command::DismissAlert)
    }

    /// Accept the active alert.
    pub fn accept_alert(&self) -> (r: WebDriverResult<()>)
        ensures
            driver::runs(*self, CommandView::AcceptAlert, r),
    {
        run_command(self, Command::AcceptAlert)
    }

    /// Send the specified text to the active alert.
    pub fn send_alert_text<S: IntoTyping>(&self, keys: S) -> (r: WebDriverResult<()>)
        ensures
            driver::runs(*self, CommandView::SendAlertText(keys.typed()), r),
    {
        run_command(self, Command::SendAlertText(TypingData::from(keys)))
    }

    /// Return the element with focus, or the `<body>` element if nothing has focus.
    pub fn active_element(&self) -> (r: WebDriverResult<WebElement<'_, Self>>)
        ensures
            webelement::finds(*self, CommandView::GetActiveElement, r),
    {
        find_command(self, Command::GetActiveElement)
    }

    /// Switch to the default frame.
    pub fn enter_default_frame(&self) -> (r: WebDriverResult<()>)
        ensures
            driver::runs(*self, CommandView::SwitchToFrameDefault, r),
    {
        run_command(self, Command::SwitchToFrameDefault)
    }

    /// Switch to an iframe by index. The first iframe on the page has index 0.
    pub fn enter_frame(&self, frame_number: u16) -> (r: WebDriverResult<()>)
        ensures
            driver::runs(*self, CommandView::SwitchToFrameNumber(frame_number), r),
    {
        run_command(self, Command::SwitchToFrameNumber(frame_number))
    }

    /// Switch to the parent frame.
    pub fn enter_parent_frame(&self) -> (r: WebDriverResult<()>)
        ensures
            driver::runs(*self, CommandView::SwitchToParentFrame, r),
    {
        run_command(self, Command::SwitchToParentFrame)
    }

    /// Switch to the specified window.
    pub fn switch_to_window(&self, handle: WindowHandle) -> (r: WebDriverResult<()>)
        ensures
            driver::runs(*self, CommandView::SwitchToWindow(handle@), r),
    {
        run_command(self, Command::SwitchToWindow(handle))
    }

    /// Switch to the window with the specified name. This uses the `window.name` property.
    pub fn switch_to_named_window(&self, name: &str) -> (r: WebDriverResult<()>)
        ensures
            switch_to::switches_to_name(*self, name@, r),
    {
        switch_to_name(self, name)
    }

    /// Switch to a new window.
    pub fn new_window(&self) -> (r: WebDriverResult<WindowHandle>)
        ensures
            driver::answers(*self, CommandView::NewWindow, r),
    {
        read_command(self, Command::NewWindow)
    }

    /// Switch to a new tab.
    pub fn new_tab(&self) -> (r: WebDriverResult<WindowHandle>)
        ensures
            driver::answers(*self, CommandView::NewTab, r),
    {
        read_command(self, Command::NewTab)
    }
}

} // verus!
