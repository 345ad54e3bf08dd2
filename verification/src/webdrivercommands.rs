//! The commands of a session.
use crate::action_chain::ActionChain;
use crate::command::{By, Command, CommandView};
use crate::connection;
use crate::connection::{run, ConnectionLine, RemoteConnectionSync, ServerLine};
use crate::cookie::Cookie;
use crate::driver;
use crate::driver::{read_command, run_command, Driver};
use crate::duration::Duration;
use crate::error::{WebDriverError, WebDriverErrorInner, WebDriverResult};
use crate::http;
use crate::http::decode_error;
use crate::json;
use crate::json::{Json, JsonValue};
use crate::reply;
use crate::reply::{convert_json, data_of, reply_value, FromValue};
use crate::switch_to;
use crate::switch_to::{window_of, windows_of, SwitchTo};
use crate::text::cat3;
use crate::types;
use crate::types::{
    OptionRect, Rect, SessionId, TimeoutConfiguration, TimeoutsView, WindowHandle,
};
use crate::webelement;
use crate::webelement::{
    find_all_command, find_command, unwrap_element_sync, unwrap_elements_sync, WebElement,
};
use vstd::prelude::*;

verus! {

/// What a script came to.
#[derive(Debug)]
pub struct ScriptRet<'a, D> {
    driver: &'a D,
    value: JsonValue,
}

impl<'a, D> ScriptRet<'a, D> {
    /// The session that the script was run in.
    pub closed spec fn session(&self) -> D {
        *self.driver
    }

    /// What the script returned.
    pub closed spec fn view(&self) -> Json {
        self.value@
    }

    /// Create a new ScriptRet. This is typically done automatically via `execute_script()`.
    pub fn new(driver: &'a D, value: JsonValue) -> (r: Self)
        ensures
            r.session() == *driver,
            r@ == value@,
    {
        ScriptRet { driver, value }
    }

    /// Get the raw JSON value.
    pub fn value(&self) -> (r: &JsonValue)
        ensures
            r@ == self@,
    {
        &self.value
    }

    /// Convert the JSON value into the a deserializeable type.
    pub fn convert<T: FromValue>(&self) -> (r: WebDriverResult<T>)
        ensures
            reply::conversion(self@, r),
    {
        convert_json(&self.value)
    }

    /// Get a single WebElement return value.
    ///
    /// Your script must return only a single element for this to work.
    pub fn get_element(&self) -> (r: WebDriverResult<WebElement<'a, D>>)
        ensures
            webelement::element_result(self.session(), self@, r),
    {
        unwrap_element_sync(self.driver, &self.value)
    }

    /// Get a vec of WebElements from the return value.
    ///
    /// Your script must return an array of elements for this to work.
    pub fn get_elements(&self) -> (r: WebDriverResult<Vec<WebElement<'a, D>>>)
        ensures
            webelement::elements_result(self.session(), self@, r),
    {
        unwrap_elements_sync(self.driver, &self.value)
    }
}

/// Whether `r` may be what a script comes to: the value of the answer, or `null`.
pub open spec fn script_result<D: Driver>(
    d: D,
    command: CommandView,
    r: WebDriverResult<ScriptRet<D>>,
) -> bool {
    exists|reply: WebDriverResult<JsonValue>| #[trigger]
        d.may_answer(command, reply) && match reply {
            Err(e) => r == Err::<ScriptRet<D>, WebDriverError>(e),
            Ok(body) => r matches Ok(s) && s.session() == d && s@ == reply::value_of(body@),
        }
}

/// Runs a script.
pub fn script_command<'a, D: Driver>(d: &'a D, command: Command) -> (r: WebDriverResult<
    ScriptRet<'a, D>,
>)
    ensures
        script_result(*d, command@, r),
{
    match d.cmd(command) {
        Ok(body) => Ok(ScriptRet::new(d, reply_value(&body))),
        Err(e) => Err(e),
    }
}

/// The script that gives the current window a name.
pub open spec fn naming_script(name: Seq<char>) -> Seq<char> {
    "window.name = \""@ + name + "\""@
}

/// Whether `r` may be the title of the page, which is empty where the answer has none.
pub open spec fn title_result<D: Driver>(d: D, r: WebDriverResult<String>) -> bool {
    exists|reply: WebDriverResult<JsonValue>| #[trigger]
        d.may_answer(CommandView::GetTitle, reply) && match reply {
            Err(e) => r == Err::<String, WebDriverError>(e),
            Ok(body) => r matches Ok(t) && t@ == webelement::or_empty(
                webelement::attribute_of(reply::value_of(body@)),
            ),
        }
}

/// The timeouts in which one only is set.
pub open spec fn script_only(time: Duration) -> TimeoutsView {
    TimeoutsView { script: Some(types::millis_u64(time)), page_load: None, implicit: None }
}

/// The timeouts in which one only is set.
pub open spec fn page_load_only(time: Duration) -> TimeoutsView {
    TimeoutsView { script: None, page_load: Some(types::millis_u64(time)), implicit: None }
}

/// The timeouts in which one only is set.
pub open spec fn implicit_only(time: Duration) -> TimeoutsView {
    TimeoutsView { script: None, page_load: None, implicit: Some(types::millis_u64(time)) }
}

/// All browser-level W3C WebDriver commands are implemented under this trait.
pub trait WebDriverCommands: Driver {
    /// Close the current window.
    fn close(&self) -> (r: WebDriverResult<()>)
        ensures
            driver::runs(*self, CommandView::CloseWindow, r),
    {
        run_command(self, Command::CloseWindow)
    }

    /// Navigate to the specified URL.
    fn get(&self, url: String) -> (r: WebDriverResult<()>)
        ensures
            driver::runs(*self, CommandView::NavigateTo(url@), r),
    {
        run_command(self, Command::NavigateTo(url))
    }

    /// Get the current URL as a String.
    fn current_url(&self) -> (r: WebDriverResult<String>)
        ensures
            driver::answers(*self, CommandView::GetCurrentUrl, r),
    {
        read_command(self, Command::GetCurrentUrl)
    }

    /// Get the page source as a String.
    fn page_source(&self) -> (r: WebDriverResult<String>)
        ensures
            driver::answers(*self, CommandView::GetPageSource, r),
    {
        read_command(self, Command::GetPageSource)
    }

    /// Get the page title as a String.
    fn title(&self) -> (r: WebDriverResult<String>)
        ensures
            title_result(*self, r),
    {
        match self.cmd(Command::GetTitle) {
            Err(e) => Err(e),
            Ok(body) => {
                let v: JsonValue = reply_value(&body);
                match v.as_str() {
                    Some(s) => Ok(s.to_owned()),
                    None => Ok(String::new()),
                }
            },
        }
    }

    /// Search for an element on the current page using the specified selector.
    fn find_element(&self, by: By) -> (r: WebDriverResult<WebElement<'_, Self>>)
        ensures
            webelement::finds(*self, CommandView::FindElement(by@.selector()), r),
    {
        find_command(self, Command::FindElement(by.into_selector()))
    }

    /// Search for all elements on the current page that match the specified selector.
    fn find_elements(&self, by: By) -> (r: WebDriverResult<Vec<WebElement<'_, Self>>>)
        ensures
            webelement::finds_all(*self, CommandView::FindElements(by@.selector()), r),
    {
        find_all_command(self, Command::FindElements(by.into_selector()))
    }

    /// Execute the specified Javascript synchronously and return the result.
    fn execute_script(&self, script: &str) -> (r: WebDriverResult<ScriptRet<'_, Self>>)
        ensures
            script_result(*self, CommandView::ExecuteScript(script@, Seq::empty()), r),
    {
        let args: Vec<JsonValue> = Vec::new();
        assert(json::items_view(args@) == Seq::<Json>::empty());
        script_command(self, Command::ExecuteScript(script.to_owned(), args))
    }

    /// Execute the specified Javascript synchronously with arguments and return the result.
    fn execute_script_with_args(&self, script: &str, args: Vec<JsonValue>) -> (r: WebDriverResult<ScriptRet<'_, Self>>)
        ensures
            script_result(*self, CommandView::ExecuteScript(script@, json::items_view(args@)), r),
    {
        script_command(self, Command::ExecuteScript(script.to_owned(), args))
    }

    /// Execute the specified Javascript asynchronously and return the result.
    fn execute_async_script(&self, script: &str) -> (r: WebDriverResult<ScriptRet<'_, Self>>)
        ensures
            script_result(*self, CommandView::ExecuteAsyncScript(script@, Seq::empty()), r),
    {
        let args: Vec<JsonValue> = Vec::new();
        assert(json::items_view(args@) == Seq::<Json>::empty());
        script_command(self, Command::ExecuteAsyncScript(script.to_owned(), args))
    }

    /// Execute the specified Javascript asynchronously with arguments and return the result.
    fn execute_async_script_with_args(&self, script: &str, args: Vec<JsonValue>) -> (r: WebDriverResult<ScriptRet<'_, Self>>)
        ensures
            script_result(*self, CommandView::ExecuteAsyncScript(script@, json::items_view(args@)), r),
    {
        script_command(self, Command::ExecuteAsyncScript(script.to_owned(), args))
    }

    /// Get the current window handle.
    fn current_window_handle(&self) -> (r: WebDriverResult<WindowHandle>)
        ensures
            switch_to::current_window(*self, r),
    {
        window_of(self)
    }

    /// Get all window handles for the current session.
    fn window_handles(&self) -> (r: WebDriverResult<Vec<WindowHandle>>)
        ensures
            switch_to::all_windows(*self, r),
    {
        windows_of(self)
    }

    /// Maximize the current window.
    fn maximize_window(&self) -> (r: WebDriverResult<()>)
        ensures
            driver::runs(*self, CommandView::MaximizeWindow, r),
    {
        run_command(self, Command::MaximizeWindow)
    }

    /// Minimize the current window.
    fn minimize_window(&self) -> (r: WebDriverResult<()>)
        ensures
            driver::runs(*self, CommandView::MinimizeWindow, r),
    {
        run_command(self, Command::MinimizeWindow)
    }

    /// Make the current window fullscreen.
    fn fullscreen_window(&self) -> (r: WebDriverResult<()>)
        ensures
            driver::runs(*self, CommandView::FullscreenWindow, r),
    {
        run_command(self, Command::FullscreenWindow)
    }

    /// Get the current window rectangle, in pixels.
    fn get_window_rect(&self) -> (r: WebDriverResult<Rect>)
        ensures
            driver::answers(*self, CommandView::GetWindowRect, r),
    {
        read_command(self, Command::GetWindowRect)
    }

    /// Set the current window rectangle, in pixels.
    fn set_window_rect(&self, rect: OptionRect) -> (r: WebDriverResult<()>)
        ensures
            driver::runs(*self, CommandView::SetWindowRect(rect), r),
    {
        run_command(self, Command::SetWindowRect(rect))
    }

    /// Go back. This is equivalent to clicking the browser's back button.
    fn back(&self) -> (r: WebDriverResult<()>)
        ensures
            driver::runs(*self, CommandView::Back, r),
    {
        run_command(self, Command::Back)
    }

    /// Go forward. This is equivalent to clicking the browser's forward button.
    fn forward(&self) -> (r: WebDriverResult<()>)
        ensures
            driver::runs(*self, CommandView::Forward, r),
    {
        run_command(self, Command::Forward)
    }

    /// Refresh the current page.
    fn refresh(&self) -> (r: WebDriverResult<()>)
        ensures
            driver::runs(*self, CommandView::Refresh, r),
    {
        run_command(self, Command::Refresh)
    }

    /// Get all timeouts for the current session.
    fn get_timeouts(&self) -> (r: WebDriverResult<TimeoutConfiguration>)
        ensures
            driver::answers(*self, CommandView::GetTimeouts, r),
    {
        read_command(self, Command::GetTimeouts)
    }

    /// Set all timeouts for the current session.
    fn set_timeouts(&self, timeouts: TimeoutConfiguration) -> (r: WebDriverResult<()>)
        ensures
            driver::runs(*self, CommandView::SetTimeouts(timeouts@), r),
    {
        run_command(self, Command::SetTimeouts(timeouts))
    }

    /// Set the implicit wait timeout.
    fn implicitly_wait(&self, time_to_wait: Duration) -> (r: WebDriverResult<()>)
        ensures
            driver::runs(*self, CommandView::SetTimeouts(implicit_only(time_to_wait)), r),
    {
        let timeouts: TimeoutConfiguration = TimeoutConfiguration::new(None, None, Some(time_to_wait));
        run_command(self, Command::SetTimeouts(timeouts))
    }

    /// Set the script timeout.
    fn set_script_timeout(&self, time_to_wait: Duration) -> (r: WebDriverResult<()>)
        ensures
            driver::runs(*self, CommandView::SetTimeouts(script_only(time_to_wait)), r),
    {
        let timeouts: TimeoutConfiguration = TimeoutConfiguration::new(Some(time_to_wait), None, None);
        run_command(self, Command::SetTimeouts(timeouts))
    }

    /// Set the page load timeout.
    fn set_page_load_timeout(&self, time_to_wait: Duration) -> (r: WebDriverResult<()>)
        ensures
            driver::runs(*self, CommandView::SetTimeouts(page_load_only(time_to_wait)), r),
    {
        let timeouts: TimeoutConfiguration = TimeoutConfiguration::new(None, Some(time_to_wait), None);
        run_command(self, Command::SetTimeouts(timeouts))
    }

    /// Create a new action chain for this session.
    fn action_chain(&self) -> (r: ActionChain<'_, Self>)
        ensures
            r.is_new(*self, 0, 250),
    {
        ActionChain::new(self)
    }

    /// Get all cookies.
    fn get_cookies(&self) -> (r: WebDriverResult<Vec<Cookie>>)
        ensures
            driver::answers(*self, CommandView::GetAllCookies, r),
    {
        read_command(self, Command::GetAllCookies)
    }

    /// Get the specified cookie.
    fn get_cookie(&self, name: &str) -> (r: WebDriverResult<Cookie>)
        ensures
            driver::answers(*self, CommandView::GetNamedCookie(name@), r),
    {
        read_command(self, Command::GetNamedCookie(name.to_owned()))
    }

    /// Delete the specified cookie.
    fn delete_cookie(&self, name: &str) -> (r: WebDriverResult<()>)
        ensures
            driver::runs(*self, CommandView::DeleteCookie(name@), r),
    {
        run_command(self, Command::DeleteCookie(name.to_owned()))
    }

    /// Delete all cookies.
    fn delete_all_cookies(&self) -> (r: WebDriverResult<()>)
        ensures
            driver::runs(*self, CommandView::DeleteAllCookies, r),
    {
        run_command(self, Command::DeleteAllCookies)
    }

    /// Add the specified cookie.
    fn add_cookie(&self, cookie: Cookie) -> (r: WebDriverResult<()>)
        ensures
            driver::runs(*self, CommandView::AddCookie(cookie@), r),
    {
        run_command(self, Command::AddCookie(cookie))
    }

    /// Take a screenshot of the current window and return it as a base64-encoded String.
    fn screenshot_as_base64(&self) -> (r: WebDriverResult<String>)
        ensures
            driver::answers(*self, CommandView::TakeScreenshot, r),
    {
        read_command(self, Command::TakeScreenshot)
    }

    /// Take a screenshot of the current window and return it as PNG bytes.
    fn screenshot_as_png(&self) -> (r: WebDriverResult<Vec<u8>>)
        ensures
            screenshot_result(*self, CommandView::TakeScreenshot, r),
    {
        data_of(read_command::<Self, String>(self, Command::TakeScreenshot))
    }

    /// Return a SwitchTo struct for switching to another window or frame.
    fn switch_to(&self) -> (r: SwitchTo<'_, Self>)
        ensures
            r.session() == *self,
    {
        SwitchTo::new(self)
    }

    /// Set the current window name. Useful for switching between windows/tabs using `driver.switch_to().window_name(name)`.
    fn set_window_name(&self, window_name: &str) -> (r: WebDriverResult<()>)
        ensures
            driver::runs(*self, CommandView::ExecuteScript(naming_script(window_name@), Seq::empty()), r),
    {
        let script: String = cat3("window.name = \"", window_name, "\"");
        let args: Vec<JsonValue> = Vec::new();
        assert(json::items_view(args@) == Seq::<Json>::empty());
        run_command(self, Command::ExecuteScript(script, args))
    }
}

impl<D: Driver> WebDriverCommands for D {

}

/// Whether `r` may be the data that the command answers with, in Base64.
pub open spec fn screenshot_result<D: Driver>(
    d: D,
    command: CommandView,
    r: WebDriverResult<Vec<u8>>,
) -> bool {
    exists|s: WebDriverResult<String>| #[trigger]
        driver::answers(d, command, s) && reply::data_result(s, r)
}

/// A session on a connection.
#[derive(Debug)]
pub struct WebDriverSession<'a, C> {
    session_id: &'a SessionId,
    conn: &'a C,
}

impl<'a, C> WebDriverSession<'a, C> {
    /// The connection.
    pub closed spec fn connection(&self) -> C {
        *self.conn
    }

    /// The session.
    pub closed spec fn session(&self) -> Seq<char> {
        self.session_id@
    }

    /// Create a new WebDriverSession struct.
    pub fn new(session_id: &'a SessionId, conn: &'a C) -> (r: Self)
        ensures
            r.connection() == *conn,
            r.session() == session_id@,
    {
        WebDriverSession { session_id, conn }
    }

    /// The session.
    pub fn session_id(&self) -> (r: &SessionId)
        ensures
            r@ == self.session(),
    {
        self.session_id
    }
}

impl<'a, C> Clone for WebDriverSession<'a, C> {
    fn clone(&self) -> (r: Self)
        ensures
            r == *self,
    {
        WebDriverSession { session_id: self.session_id, conn: self.conn }
    }
}

impl<'a, C: RemoteConnectionSync> Driver for WebDriverSession<'a, C> {
    open spec fn id(&self) -> Seq<char> {
        self.session()
    }

    open spec fn may_answer(&self, command: CommandView, reply: WebDriverResult<JsonValue>) -> bool {
        connection::may_reply(self.connection(), self.session(), command, reply)
    }

    fn session_id(&self) -> (r: &SessionId) {
        self.session_id
    }

    fn cmd(&self, command: Command) -> (r: WebDriverResult<JsonValue>) {
        run(self.conn, self.session_id, command)
    }
}

/// Whether a command that was answered with this error is worth a second try: Selenium sometimes
/// gives a bogus error with status 500.
pub open spec fn worth_retrying(e: WebDriverError) -> bool {
    e@ matches WebDriverErrorInner::UnknownError(info) && info@.status == 500
}

/// Says whether a command that was answered with this error is worth a second try.
pub fn is_worth_retrying(e: &WebDriverError) -> (r: bool)
    ensures
        r == worth_retrying(*e),
{
    match e.as_inner() {
        WebDriverErrorInner::UnknownError(info) => info.status == 500,
        _ => false,
    }
}

/// The field of a record that has a text, or the empty text where it is missing.
pub open spec fn text_field_or_empty(v: Option<Json>) -> Option<Seq<char>> {
    match v {
        None => Some(Seq::empty()),
        Some(Json::Str(s)) => Some(s),
        Some(_) => None,
    }
}

/// Whether a value can be read as a record of two fields, the second of which must be there or
/// not.
pub open spec fn is_pair(v: Json, second: bool) -> bool {
    match v {
        Json::Obj(_) => true,
        Json::Arr(items) => items.len() <= 2 && (second ==> items.len() == 2),
        _ => false,
    }
}

/// What the reply to a new session holds under `value`: the id of the session, and its
/// capabilities.
pub open spec fn connection_data(v: Json) -> Option<(Seq<char>, Json)> {
    if is_pair(v, false) {
        match text_field_or_empty(json::field(v, 0, "sessionId"@)) {
            Some(id) => Some(
                (
                    id,
                    match json::field(v, 1, "capabilities"@) {
                        Some(c) => c,
                        None => Json::Null,
                    },
                ),
            ),
            None => None,
        }
    } else {
        None
    }
}

/// What the reply to a new session says: the id of the session, which stands at the top or with
/// the capabilities, and the capabilities.
pub open spec fn new_session_data(v: Json) -> Option<(Seq<char>, Json)> {
    if is_pair(v, true) {
        match (text_field_or_empty(json::field(v, 0, "session_id"@)), json::field(v, 1, "value"@)) {
            (Some(top), Some(value)) => match connection_data(value) {
                Some(data) => Some(
                    (
                        if top.len() == 0 {
                            data.0
                        } else {
                            top
                        },
                        data.1,
                    ),
                ),
                None => None,
            },
            _ => None,
        }
    } else {
        None
    }
}

/// Reads a field that has a text.
fn read_text_or_empty(v: Option<&JsonValue>) -> (r: Option<String>)
    ensures
        crate::text::opt_text(r) == text_field_or_empty(json::opt_ref_view(v)),
{
    match v {
        None => Some(String::new()),
        Some(v) => match v.as_str() {
            Some(s) => Some(s.to_owned()),
            None => None,
        },
    }
}

/// Whether a value can be read as a record of two fields.
fn reads_as_pair(v: &JsonValue, second: bool) -> (r: bool)
    ensures
        r == is_pair(v@, second),
{
    match v {
        JsonValue::Object(_) => true,
        JsonValue::Array(items) => {
            proof {
                json::lemma_items_view(items@);
            }
            items.len() <= 2 && (!second || items.len() == 2)
        },
        _ => false,
    }
}

/// What the reply to a new session says.
pub fn read_new_session(v: &JsonValue) -> (r: Option<(SessionId, JsonValue)>)
    ensures
        match new_session_data(v@) {
            Some(data) => r matches Some(x) && x.0@ == data.0 && x.1@ == data.1,
            None => r is None,
        },
{
    if !reads_as_pair(v, true) {
        return None;
    }
    let top: String = match read_text_or_empty(v.field(0, "session_id")) {
        Some(s) => s,
        None => return None,
    };
    let value: &JsonValue = match v.field(1, "value") {
        Some(value) => value,
        None => return None,
    };
    if !reads_as_pair(value, false) {
        return None;
    }
    let inner: String = match read_text_or_empty(value.field(0, "sessionId")) {
        Some(s) => s,
        None => return None,
    };
    let capabilities: JsonValue = match value.field(1, "capabilities") {
        Some(c) => c.clone(),
        None => JsonValue::Null,
    };
    if top.as_str().is_empty() {
        Some((SessionId::from(inner), capabilities))
    } else {
        Some((SessionId::from(top), capabilities))
    }
}

/// The timeouts that a new session is given: one minute for scripts and for pages to load, half a
/// minute for elements to appear.
pub open spec fn first_timeouts() -> TimeoutsView {
    TimeoutsView { script: Some(60_000), page_load: Some(60_000), implicit: Some(30_000) }
}

/// What to do once a new session was asked for.
#[derive(Debug)]
pub enum SessionStep {
    /// Ask once more.
    Again,
    /// Give up.
    Fail(WebDriverError),
    /// Go on with the answer.
    Opened(JsonValue),
}

/// What to do with the answer to a request for a new session, the second one or the first.
pub open spec fn session_step(second: bool, reply: WebDriverResult<JsonValue>) -> SessionStep {
    match reply {
        Ok(v) => SessionStep::Opened(v),
        Err(e) => if !second && worth_retrying(e) {
            SessionStep::Again
        } else {
            SessionStep::Fail(e)
        },
    }
}

/// What to do with the answer to a request for a new session, the second one or the first: it is
/// asked for once more where the first answer is an error that is worth it.
pub fn after_new_session(second: bool, reply: WebDriverResult<JsonValue>) -> (r: SessionStep)
    ensures
        r == session_step(second, reply),
{
    match reply {
        Ok(v) => SessionStep::Opened(v),
        Err(e) => {
            // Selenium sometimes gives a bogus 500 error "Chrome failed to start".
            // Retry if we get a 500. If it happens twice in a row then the second error
            // will be returned.
            if !second && is_worth_retrying(&e) {
                SessionStep::Again
            } else {
                SessionStep::Fail(e)
            }
        },
    }
}

/// A new session is asked for once more exactly where the first answer is an unknown error of
/// status 500, and after a second answer never.
pub proof fn lemma_second_try(reply: WebDriverResult<JsonValue>)
    ensures
        session_step(false, reply) is Again <==> (reply matches Err(e)
            && e@ matches WebDriverErrorInner::UnknownError(info) && info.status == 500),
        !(session_step(true, reply) is Again),
{
}

/// Whether `r` may be what the request for a new session comes to in the end, from the first
/// answer on or from the second one. It makes `last` of the line: the session is asked for once
/// more where that is called for, and no more often.
pub open spec fn opens<L: ServerLine>(
    line: L,
    last: L,
    w3c_caps: Json,
    caps: Json,
    second: bool,
    r: WebDriverResult<JsonValue>,
) -> bool
    decreases
            (if second {
                0int
            } else {
                1int
            }),
{
    exists|after: L, reply: WebDriverResult<JsonValue>| #[trigger]
        L::exchanged(line, after, Seq::empty(), CommandView::NewSession(w3c_caps, caps), reply)
            && if session_step(second, reply) is Again {
            !second && opens(after, last, w3c_caps, caps, true, r)
        } else {
            last == after && r == reply
        }
}

/// A new session is asked for once or twice, and twice exactly where the first answer is an unknown
/// error of status 500. The last answer is what comes of it.
pub proof fn lemma_asked_once_or_twice<L: ServerLine>(
    line: L,
    last: L,
    w3c_caps: Json,
    caps: Json,
    r: WebDriverResult<JsonValue>,
)
    requires
        opens(line, last, w3c_caps, caps, false, r),
    ensures
        exists|after: L, first: WebDriverResult<JsonValue>| #[trigger]
            L::exchanged(line, after, Seq::empty(), CommandView::NewSession(w3c_caps, caps), first)
                && if (first matches Err(e) && worth_retrying(e)) {
                L::exchanged(after, last, Seq::empty(), CommandView::NewSession(w3c_caps, caps), r)
            } else {
                last == after && r == first
            },
{
    let command = CommandView::NewSession(w3c_caps, caps);
    let (after, first) = choose|after: L, first: WebDriverResult<JsonValue>| #[trigger]
        L::exchanged(line, after, Seq::empty(), command, first) && if session_step(
            false,
            first,
        ) is Again {
            opens(after, last, w3c_caps, caps, true, r)
        } else {
            last == after && r == first
        };
    if session_step(false, first) is Again {
        assert(opens(after, last, w3c_caps, caps, true, r));
        assert(L::exchanged(after, last, Seq::empty(), command, r));
    }
}

/// Asks for a new session, and once more where that is called for.
fn open_session<L: ServerLine>(
    line: &mut L,
    w3c_caps: &JsonValue,
    caps: &JsonValue,
    second: bool,
) -> (r: WebDriverResult<JsonValue>)
    ensures
        opens(*old(line), *final(line), w3c_caps@, caps@, second, r),
    decreases
            (if second {
                0int
            } else {
                1int
            }),
{
    let reply: WebDriverResult<JsonValue> = line.exchange(
        &SessionId::null(),
        Command::NewSession(w3c_caps.clone(), caps.clone()),
    );
    let ghost answer = reply;
    assert(L::exchanged(
        *old(line),
        *line,
        Seq::empty(),
        CommandView::NewSession(w3c_caps@, caps@),
        answer,
    ));
    match after_new_session(second, reply) {
        SessionStep::Opened(v) => Ok(v),
        SessionStep::Fail(e) => Err(e),
        SessionStep::Again => open_session(line, w3c_caps, caps, true),
    }
}

/// Whether `r` may be what becomes of starting a session over a line, which it makes `last` of: the
/// session is asked for, and then its timeouts are set.
pub open spec fn starts_over<L: ServerLine>(
    line: L,
    last: L,
    w3c_caps: Json,
    caps: Json,
    r: WebDriverResult<(SessionId, JsonValue)>,
) -> bool {
    exists|after: L, reply: WebDriverResult<JsonValue>| #[trigger]
        opens(line, after, w3c_caps, caps, false, reply) && match reply {
            Err(e) => last == after && r == Err::<(SessionId, JsonValue), WebDriverError>(e),
            Ok(v) => match new_session_data(v@) {
                None => last == after && (r matches Err(e) && http::is_json_error(
                    e,
                    http::decode_message("a new session"@),
                )),
                Some(data) => exists|set: WebDriverResult<JsonValue>| #[trigger]
                    L::exchanged(
                        after,
                        last,
                        data.0,
                        CommandView::SetTimeouts(first_timeouts()),
                        set,
                    ) && match set {
                        Err(e) => r == Err::<(SessionId, JsonValue), WebDriverError>(e),
                        Ok(_) => r matches Ok(x) && x.0@ == data.0 && x.1@ == data.1,
                    },
            },
        }
}

/// Starts a session over a line.
pub fn start_over<L: ServerLine>(line: &mut L, w3c_caps: JsonValue, caps: JsonValue) -> (r:
    WebDriverResult<(SessionId, JsonValue)>)
    ensures
        starts_over(*old(line), *final(line), w3c_caps@, caps@, r),
{
    let reply: WebDriverResult<JsonValue> = open_session(line, &w3c_caps, &caps, false);
    let ghost answer = reply;
    let ghost after = *line;
    assert(opens(*old(line), after, w3c_caps@, caps@, false, answer));
    let v: JsonValue = match reply {
        Ok(v) => v,
        Err(e) => return Err(e),
    };
    let (session_id, capabilities): (SessionId, JsonValue) = match read_new_session(&v) {
        Some(data) => data,
        None => return Err(decode_error("a new session")),
    };
    // Set default timeouts.
    let timeout_config: TimeoutConfiguration = TimeoutConfiguration::new(
        Some(Duration::from_secs(60)),
        Some(Duration::from_secs(60)),
        Some(Duration::from_secs(30)),
    );
    match line.exchange(&session_id, Command::SetTimeouts(timeout_config)) {
        Ok(_) => Ok((session_id, capabilities)),
        Err(e) => Err(e),
    }
}

/// Whether `r` may be what becomes of starting a session.
pub open spec fn starts<C: RemoteConnectionSync>(
    conn: C,
    w3c_caps: Json,
    caps: Json,
    r: WebDriverResult<(SessionId, JsonValue)>,
) -> bool {
    exists|last: ConnectionLine<C>| #[trigger]
        starts_over(connection::line_of(&conn), last, w3c_caps, caps, r)
}

/// Start a new WebDriver session, returning the session id and the capabilities JSON that was
/// received back from the server.
pub fn start_session<C: RemoteConnectionSync>(
    conn: &C,
    w3c_caps: JsonValue,
    caps: JsonValue,
) -> (r: WebDriverResult<(SessionId, JsonValue)>)
    ensures
        starts(*conn, w3c_caps@, caps@, r),
{
    let mut line: ConnectionLine<C> = ConnectionLine { conn };
    let r: WebDriverResult<(SessionId, JsonValue)> = start_over(&mut line, w3c_caps, caps);
    assert(starts_over(connection::line_of(conn), line, w3c_caps@, caps@, r));
    r
}

} // verus!
