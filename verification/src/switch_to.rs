//! Alerts, frames and windows.
use crate::command::{Command, CommandView};
use crate::driver;
use crate::driver::{read_command, read_over, run_command, run_over, Driver, DriverLine, Line};
use crate::error;
use crate::error::{
    ErrorInfoView, WebDriverError, WebDriverErrorInfo, WebDriverErrorInner, WebDriverResult,
};
use crate::json;
use crate::json::{Json, JsonValue};
use crate::keys::{IntoTyping, TypingData};
use crate::reply;
use crate::reply::{handle_of, handles_of};
use crate::text::{cat2, text_eq};
use crate::types::WindowHandle;
use crate::webelement;
use crate::webelement::{find_command, WebElement};
use vstd::prelude::*;

verus! {

/// The dialog that a page has open.
#[derive(Debug)]
pub struct Alert<'a, D> {
    session: &'a D,
}

impl<'a, D: Driver> Alert<'a, D> {
    /// The session whose page has the dialog.
    pub closed spec fn driver(&self) -> D {
        *self.session
    }

    /// Create a new Alert struct.
    pub fn new(session: &'a D) -> (r: Self)
        ensures
            r.driver() == *session,
    {
        Alert { session }
    }

    /// Get the active alert text.
    pub fn text(&self) -> (r: WebDriverResult<String>)
        ensures
            driver::answers(self.driver(), CommandView::GetAlertText, r),
    {
        read_command(self.session, Command::GetAlertText)
    }

    /// Dismiss the active alert.
    pub fn dismiss(&self) -> (r: WebDriverResult<()>)
        ensures
            driver::runs(self.driver(), CommandView::DismissAlert, r),
    {
        run_command(self.session, Command::DismissAlert)
    }

    /// Accept the active alert.
    pub fn accept(&self) -> (r: WebDriverResult<()>)
        ensures
            driver::runs(self.driver(), CommandView::AcceptAlert, r),
    {
        run_command(self.session, Command::AcceptAlert)
    }

    /// Send the specified keys to the active alert.
    pub fn send_keys<S: IntoTyping>(&self, keys: S) -> (r: WebDriverResult<()>)
        ensures
            driver::runs(self.driver(), CommandView::SendAlertText(keys.typed()), r),
    {
        run_command(self.session, Command::SendAlertText(TypingData::from(keys)))
    }
}

/// Whether `r` may be the current window.
pub open spec fn current_window<D: Driver>(d: D, r: WebDriverResult<WindowHandle>) -> bool {
    exists|s: WebDriverResult<String>| #[trigger]
        driver::answers(d, CommandView::GetWindowHandle, s) && reply::handle_result(s, r)
}

/// Whether `r` may be all the windows.
pub open spec fn all_windows<D: Driver>(d: D, r: WebDriverResult<Vec<WindowHandle>>) -> bool {
    exists|s: WebDriverResult<Vec<String>>| #[trigger]
        driver::answers(d, CommandView::GetWindowHandles, s) && reply::handles_result(s, r)
}

/// The current window.
pub fn window_of<D: Driver>(d: &D) -> (r: WebDriverResult<WindowHandle>)
    ensures
        current_window(*d, r),
{
    handle_of(read_command::<D, String>(d, Command::GetWindowHandle))
}

/// All the windows.
pub fn windows_of<D: Driver>(d: &D) -> (r: WebDriverResult<Vec<WindowHandle>>)
    ensures
        all_windows(*d, r),
{
    handles_of(read_command::<D, Vec<String>>(d, Command::GetWindowHandles))
}

/// The command that asks for the name of the current window.
pub open spec fn ask_name() -> CommandView {
    CommandView::ExecuteScript("return window.name;"@, Seq::empty())
}

/// The error that there is no window with a name.
pub open spec fn no_such_window(e: WebDriverError, name: Seq<char>) -> bool {
    let message = "unable to find named window: "@ + name;
    e@ matches WebDriverErrorInner::NoSuchWindow(info) && info@ == (ErrorInfoView {
        status: 0,
        error: message,
        value: error::message_only(message),
    })
}

/// Whether `r` may be the current window, asked for over a line.
pub open spec fn hears_window<L: Line>(
    before: L,
    after: L,
    r: WebDriverResult<WindowHandle>,
) -> bool {
    exists|s: WebDriverResult<String>| #[trigger]
        driver::hears(before, after, CommandView::GetWindowHandle, s) && reply::handle_result(s, r)
}

/// Whether `r` may be all the windows, asked for over a line.
pub open spec fn hears_windows<L: Line>(
    before: L,
    after: L,
    r: WebDriverResult<Vec<WindowHandle>>,
) -> bool {
    exists|s: WebDriverResult<Vec<String>>| #[trigger]
        driver::hears(before, after, CommandView::GetWindowHandles, s) && reply::handles_result(
            s,
            r,
        )
}

/// Whether `r` may be what becomes of the search for a window with a name among those from `i`
/// on, which makes `last` of the line: each one is switched to and then asked for its name, until
/// one has it. Where none has, the window that was there first is switched to again.
pub open spec fn window_search<L: Line>(
    line: L,
    last: L,
    name: Seq<char>,
    handles: Seq<WindowHandle>,
    i: nat,
    first: Seq<char>,
    r: WebDriverResult<()>,
) -> bool
    decreases handles.len() - i, 1int,
{
    if i >= handles.len() {
        exists|back: WebDriverResult<()>| #[trigger]
            driver::does(line, last, CommandView::SwitchToWindow(first), back) && match back {
                Err(e) => r == Err::<(), WebDriverError>(e),
                Ok(_) => r matches Err(e) && no_such_window(e, name),
            }
    } else {
        exists|at: L, there: WebDriverResult<()>| #[trigger]
            driver::does(line, at, CommandView::SwitchToWindow(handles[i as int]@), there)
                && match there {
                Err(e) => last == at && r == Err::<(), WebDriverError>(e),
                Ok(_) => at_window(at, last, name, handles, i, first, r),
            }
    }
}

/// Whether `r` may be what becomes of the search once the line is `at` the window `i`, which is
/// asked for its name.
pub open spec fn at_window<L: Line>(
    at: L,
    last: L,
    name: Seq<char>,
    handles: Seq<WindowHandle>,
    i: nat,
    first: Seq<char>,
    r: WebDriverResult<()>,
) -> bool
    decreases handles.len() - i, 0int,
{
    exists|after: L, n: WebDriverResult<String>| #[trigger]
        driver::hears(at, after, ask_name(), n) && match n {
            Err(e) => last == after && r == Err::<(), WebDriverError>(e),
            Ok(t) => if t@ == name {
                last == after && r is Ok
            } else {
                i < handles.len() && window_search(after, last, name, handles, i + 1, first, r)
            },
        }
}

/// Whether `r` may be what becomes of switching to the window with a name over a line, which it
/// makes `last` of: the current window is asked for, and then all windows are.
pub open spec fn finds_window<L: Line>(
    line: L,
    last: L,
    name: Seq<char>,
    r: WebDriverResult<()>,
) -> bool {
    exists|after: L, first: WebDriverResult<WindowHandle>| #[trigger]
        hears_window(line, after, first) && match first {
            Err(e) => last == after && r == Err::<(), WebDriverError>(e),
            Ok(f) => looks_through(after, last, name, f@, r),
        }
}

/// Whether `r` may be what becomes of switching to the window with a name, where the current
/// window is `first`.
pub open spec fn looks_through<L: Line>(
    line: L,
    last: L,
    name: Seq<char>,
    first: Seq<char>,
    r: WebDriverResult<()>,
) -> bool {
    exists|after: L, all: WebDriverResult<Vec<WindowHandle>>| #[trigger]
        hears_windows(line, after, all) && match all {
            Err(e) => last == after && r == Err::<(), WebDriverError>(e),
            Ok(handles) => window_search(after, last, name, handles@, 0, first, r),
        }
}

/// The current window, asked for over a line.
fn window_over<L: Line>(line: &mut L) -> (r: WebDriverResult<WindowHandle>)
    ensures
        hears_window(*old(line), *final(line), r),
{
    handle_of(read_over::<L, String>(line, Command::GetWindowHandle))
}

/// All the windows, asked for over a line.
fn windows_over<L: Line>(line: &mut L) -> (r: WebDriverResult<Vec<WindowHandle>>)
    ensures
        hears_windows(*old(line), *final(line), r),
{
    handles_of(read_over::<L, Vec<String>>(line, Command::GetWindowHandles))
}

/// Switches to the window with a name, over a line.
pub fn find_window<L: Line>(line: &mut L, name: &str) -> (r: WebDriverResult<()>)
    ensures
        finds_window(*old(line), *final(line), name@, r),
{
    let first: WebDriverResult<WindowHandle> = window_over(line);
    let original: WindowHandle = match first {
        Ok(h) => h,
        Err(e) => return Err(e),
    };
    let ghost asked = *line;
    let all: WebDriverResult<Vec<WindowHandle>> = windows_over(line);
    let ghost gall = all;
    assert(hears_windows(asked, *line, gall));
    let handles: Vec<WindowHandle> = match all {
        Ok(h) => h,
        Err(e) => {
            assert(looks_through(asked, *line, name@, original@, Err(e)));
            return Err(e);
        },
    };
    let r: WebDriverResult<()> = search_windows(line, name, &handles, original);
    assert(looks_through(asked, *line, name@, original@, r));
    r
}

/// Switches to one window after the other until one has the name, and back where none has.
fn search_windows<L: Line>(
    line: &mut L,
    name: &str,
    handles: &Vec<WindowHandle>,
    original: WindowHandle,
) -> (r: WebDriverResult<()>)
    ensures
        window_search(*old(line), *final(line), name@, handles@, 0, original@, r),
{
    let ghost start = *line;
    let mut i: usize = 0;
    while i < handles.len()
        invariant
            i <= handles.len(),
            start == *old(line),
            forall|l: L, q: WebDriverResult<()>| #[trigger]
                window_search(*line, l, name@, handles@, i as nat, original@, q) ==> window_search(
                    start,
                    l,
                    name@,
                    handles@,
                    0,
                    original@,
                    q,
                ),
        decreases handles.len() - i,
    {
        let ghost before = *line;
        match run_over(line, Command::SwitchToWindow(handles[i].clone())) {
            Err(e) => {
                assert(window_search(before, *line, name@, handles@, i as nat, original@, Err(e)));
                return Err(e);
            },
            Ok(_) => {},
        }
        let ghost at = *line;
        let args: Vec<JsonValue> = Vec::new();
        assert(json::items_view(args@) == Seq::<Json>::empty());
        let n: WebDriverResult<String> = read_over(
            line,
            Command::ExecuteScript("return window.name;".to_owned(), args),
        );
        let ghost gn = n;
        assert(driver::hears(at, *line, ask_name(), gn));
        match n {
            Err(e) => {
                assert(at_window(at, *line, name@, handles@, i as nat, original@, Err(e)));
                assert(window_search(before, *line, name@, handles@, i as nat, original@, Err(e)));
                return Err(e);
            },
            Ok(t) => if text_eq(t.as_str(), name) {
                assert(at_window(at, *line, name@, handles@, i as nat, original@, Ok(())));
                assert(window_search(before, *line, name@, handles@, i as nat, original@, Ok(())));
                return Ok(());
            },
        }
        let ghost k = i;
        i = i + 1;
        proof {
            assert forall|l: L, q: WebDriverResult<()>| #[trigger]
                window_search(*line, l, name@, handles@, i as nat, original@, q) implies window_search(
                start,
                l,
                name@,
                handles@,
                0,
                original@,
                q,
            ) by {
                assert(at_window(at, l, name@, handles@, k as nat, original@, q));
                assert(window_search(before, l, name@, handles@, k as nat, original@, q));
            }
        }
    }
    let ghost before = *line;
    let back: WebDriverResult<()> = run_over(line, Command::SwitchToWindow(original));
    match back {
        Err(e) => {
            assert(window_search(before, *line, name@, handles@, i as nat, original@, Err(e)));
            Err(e)
        },
        Ok(_) => {
            let r: WebDriverResult<()> = Err(
                WebDriverError::NoSuchWindow(
                    WebDriverErrorInfo::new(cat2("unable to find named window: ", name)),
                ),
            );
            assert(window_search(before, *line, name@, handles@, i as nat, original@, r));
            r
        },
    }
}

/// Whether `r` may be what becomes of switching to the window with a name.
pub open spec fn switches_to_name<D: Driver>(d: D, name: Seq<char>, r: WebDriverResult<()>) -> bool {
    exists|last: DriverLine<D>| #[trigger] finds_window(driver::line_of(&d), last, name, r)
}

/// Switches to the window with a name.
pub fn switch_to_name<D: Driver>(d: &D, name: &str) -> (r: WebDriverResult<()>)
    ensures
        switches_to_name(*d, name@, r),
{
    let mut line: DriverLine<D> = DriverLine { driver: d };
    let r: WebDriverResult<()> = find_window(&mut line, name);
    assert(finds_window(driver::line_of(d), line, name@, r));
    r
}

/// A search that succeeds ends at a window with the name: the last thing that was done is that the
/// window was switched to, and then asked for its name.
pub proof fn lemma_search_finds_name<L: Line>(
    line: L,
    last: L,
    name: Seq<char>,
    handles: Seq<WindowHandle>,
    i: nat,
    first: Seq<char>,
    r: WebDriverResult<()>,
)
    requires
        window_search(line, last, name, handles, i, first, r),
        r is Ok,
    ensures
        exists|k: int, before: L, at: L, t: String|
            i <= k < handles.len() && t@ == name && #[trigger] driver::does(
                before,
                at,
                CommandView::SwitchToWindow(handles[k]@),
                Ok(()),
            ) && #[trigger] driver::hears(at, last, ask_name(), Ok::<String, WebDriverError>(t)),
    decreases handles.len() - i,
{
    if i < handles.len() {
        let (at, there) = choose|at: L, there: WebDriverResult<()>| #[trigger]
            driver::does(line, at, CommandView::SwitchToWindow(handles[i as int]@), there)
                && match there {
                Err(e) => last == at && r == Err::<(), WebDriverError>(e),
                Ok(_) => at_window(at, last, name, handles, i, first, r),
            };
        let (after, n) = choose|after: L, n: WebDriverResult<String>| #[trigger]
            driver::hears(at, after, ask_name(), n) && match n {
                Err(e) => last == after && r == Err::<(), WebDriverError>(e),
                Ok(t) => if t@ == name {
                    last == after && r is Ok
                } else {
                    i < handles.len() && window_search(after, last, name, handles, i + 1, first, r)
                },
            };
        let t = n->Ok_0;
        let unit: () = there->Ok_0;
        assert(unit == ());
        assert(there == Ok::<(), WebDriverError>(()));
        if t@ != name {
            lemma_search_finds_name(after, last, name, handles, i + 1, first, r);
        } else {
            assert(driver::does(line, at, CommandView::SwitchToWindow(handles[i as int]@), Ok(())));
            assert(driver::hears(at, last, ask_name(), Ok::<String, WebDriverError>(t)));
        }
    }
}

/// Where a session is switched to: elements, alerts, frames and windows.
#[derive(Debug)]
pub struct SwitchTo<'a, D> {
    driver: &'a D,
}

impl<'a, D: Driver> SwitchTo<'a, D> {
    /// The session that is switched.
    pub closed spec fn session(&self) -> D {
        *self.driver
    }

    /// Create a new SwitchTo struct.
    pub fn new(driver: &'a D) -> (r: Self)
        ensures
            r.session() == *driver,
    {
        SwitchTo { driver }
    }

    /// Return the element with focus, or the `<body>` element if nothing has focus.
    pub fn active_element(self) -> (r: WebDriverResult<WebElement<'a, D>>)
        ensures
            webelement::finds(self.session(), CommandView::GetActiveElement, r),
    {
        find_command(self.driver, Command::GetActiveElement)
    }

    /// Return Alert struct for processing the active alert on the page.
    pub fn alert(self) -> (r: Alert<'a, D>)
        ensures
            r.driver() == self.session(),
    {
        Alert::new(self.driver)
    }

    /// Switch to the default frame.
    pub fn default_content(self) -> (r: WebDriverResult<()>)
        ensures
            driver::runs(self.session(), CommandView::SwitchToFrameDefault, r),
    {
        run_command(self.driver, Command::SwitchToFrameDefault)
    }

    /// Switch to an iframe by index. The first iframe on the page has index 0.
    pub fn frame_number(self, frame_number: u16) -> (r: WebDriverResult<()>)
        ensures
            driver::runs(self.session(), CommandView::SwitchToFrameNumber(frame_number), r),
    {
        run_command(self.driver, Command::SwitchToFrameNumber(frame_number))
    }

    /// Switch to the specified iframe element.
    pub fn frame_element(self, frame_element: &WebElement<'a, D>) -> (r: WebDriverResult<()>)
        ensures
            driver::runs(
                self.session(),
                CommandView::SwitchToFrameElement(frame_element.element_id@),
                r,
            ),
    {
        run_command(self.driver, Command::SwitchToFrameElement(frame_element.element_id.clone()))
    }

    /// Switch to the parent frame.
    pub fn parent_frame(self) -> (r: WebDriverResult<()>)
        ensures
            driver::runs(self.session(), CommandView::SwitchToParentFrame, r),
    {
        run_command(self.driver, Command::SwitchToParentFrame)
    }

    /// Create a new window.
    pub fn new_window(self) -> (r: WebDriverResult<WindowHandle>)
        ensures
            driver::answers(self.session(), CommandView::NewWindow, r),
    {
        read_command(self.driver, Command::NewWindow)
    }

    /// Create a new tab.
    pub fn new_tab(self) -> (r: WebDriverResult<WindowHandle>)
        ensures
            driver::answers(self.session(), CommandView::NewTab, r),
    {
        read_command(self.driver, Command::NewTab)
    }

    /// Switch to the specified window.
    pub fn window(self, handle: WindowHandle) -> (r: WebDriverResult<()>)
        ensures
            driver::runs(self.session(), CommandView::SwitchToWindow(handle@), r),
    {
        run_command(self.driver, Command::SwitchToWindow(handle))
    }

    /// Switch to the window with the specified name. This uses the `window.name` property.
    pub fn window_name(self, name: &str) -> (r: WebDriverResult<()>)
        ensures
            switches_to_name(self.session(), name@, r),
    {
        switch_to_name(self.driver, name)
    }
}

/// What is done in a tab, and may say something over the line too.
pub trait Task<L, T>: Sized {
    /// Whether it can be done where the line has come to.
    spec fn ready(&self, line: L) -> bool;

    /// Whether doing it can make `after` of the line `before`, with the result `r`.
    spec fn done(self, before: L, after: L, r: WebDriverResult<T>) -> bool;

    /// Does it.
    fn run(self, line: &mut L) -> (r: WebDriverResult<T>)
        requires
            self.ready(*old(line)),
        ensures
            self.done(*old(line), *final(line), r),
    ;
}

/// A function of the caller, which says nothing over the line.
pub struct Call<F> {
    pub f: F,
}

impl<L, T, F: FnOnce() -> WebDriverResult<T>> Task<L, T> for Call<F> {
    open spec fn ready(&self, line: L) -> bool {
        call_requires(self.f, ())
    }

    open spec fn done(self, before: L, after: L, r: WebDriverResult<T>) -> bool {
        after == before && call_ensures(self.f, (), r)
    }

    fn run(self, line: &mut L) -> (r: WebDriverResult<T>) {
        (self.f)()
    }
}

/// Whether a line can have come to `at`, in a tab that was opened and then switched to.
pub open spec fn enters_tab<L: Line>(line: L, at: L) -> bool {
    exists|one: L, two: L, before: WindowHandle, tab: WindowHandle|
        {
            &&& #[trigger] hears_window(line, one, Ok(before))
            &&& #[trigger] driver::hears(
                one,
                two,
                CommandView::NewTab,
                Ok::<WindowHandle, WebDriverError>(tab),
            )
            &&& driver::does(two, at, CommandView::SwitchToWindow(tab@), Ok(()))
        }
}

/// Whether `r` may be what becomes of doing something in a new tab over a line, which it makes
/// `last` of: the current window is asked for first.
pub open spec fn works_in_tab<L: Line, T, W: Task<L, T>>(
    line: L,
    last: L,
    task: W,
    r: WebDriverResult<T>,
) -> bool {
    exists|after: L, before: WebDriverResult<WindowHandle>| #[trigger]
        hears_window(line, after, before) && match before {
            Err(e) => last == after && r == Err::<T, WebDriverError>(e),
            Ok(b) => opens_tab(after, last, b@, task, r),
        }
}

/// The next thing is that a tab is opened.
pub open spec fn opens_tab<L: Line, T, W: Task<L, T>>(
    line: L,
    last: L,
    before: Seq<char>,
    task: W,
    r: WebDriverResult<T>,
) -> bool {
    exists|after: L, tab: WebDriverResult<WindowHandle>| #[trigger]
        driver::hears(line, after, CommandView::NewTab, tab) && match tab {
            Err(e) => last == after && r == Err::<T, WebDriverError>(e),
            Ok(t) => goes_to_tab(after, last, before, t@, task, r),
        }
}

/// The next thing is that the tab is switched to.
pub open spec fn goes_to_tab<L: Line, T, W: Task<L, T>>(
    line: L,
    last: L,
    before: Seq<char>,
    tab: Seq<char>,
    task: W,
    r: WebDriverResult<T>,
) -> bool {
    exists|at: L, there: WebDriverResult<()>| #[trigger]
        driver::does(line, at, CommandView::SwitchToWindow(tab), there) && match there {
            Err(e) => last == at && r == Err::<T, WebDriverError>(e),
            Ok(_) => is_in_tab(at, last, before, task, r),
        }
}

/// The next thing is what is to be done in the tab, which is left whatever came of that.
pub open spec fn is_in_tab<L: Line, T, W: Task<L, T>>(
    at: L,
    last: L,
    before: Seq<char>,
    task: W,
    r: WebDriverResult<T>,
) -> bool {
    exists|after: L, done: WebDriverResult<T>| #[trigger]
        task.done(at, after, done) && leaves_tab(after, last, before, done, r)
}

/// Whether `r` may be what becomes of leaving a tab, where something came of what was done in it:
/// the tab is closed, and then the window from before is switched to.
pub open spec fn leaves_tab<L: Line, T>(
    line: L,
    last: L,
    before: Seq<char>,
    done: WebDriverResult<T>,
    r: WebDriverResult<T>,
) -> bool {
    exists|after: L, closed: WebDriverResult<()>| #[trigger]
        driver::does(line, after, CommandView::CloseWindow, closed) && match closed {
            Err(e) => last == after && r == Err::<T, WebDriverError>(e),
            Ok(_) => goes_back(after, last, before, done, r),
        }
}

/// The last thing is that the window from before is switched to.
pub open spec fn goes_back<L: Line, T>(
    line: L,
    last: L,
    before: Seq<char>,
    done: WebDriverResult<T>,
    r: WebDriverResult<T>,
) -> bool {
    exists|back: WebDriverResult<()>| #[trigger]
        driver::does(line, last, CommandView::SwitchToWindow(before), back) && match back {
            Err(e) => r == Err::<T, WebDriverError>(e),
            Ok(_) => r == done,
        }
}

/// Closes the new tab, and goes back to the window from before.
fn leave_tab<L: Line, T>(line: &mut L, before: WindowHandle, done: WebDriverResult<T>) -> (r:
    WebDriverResult<T>)
    ensures
        leaves_tab(*old(line), *final(line), before@, done, r),
{
    match run_over(line, Command::CloseWindow) {
        Err(e) => return Err(e),
        Ok(_) => {},
    }
    let ghost after = *line;
    let r: WebDriverResult<T> = match run_over(line, Command::SwitchToWindow(before)) {
        Err(e) => Err(e),
        Ok(_) => done,
    };
    assert(goes_back(after, *line, before@, done, r));
    r
}

/// Does something in a new tab, over a line.
pub fn work_in_tab<L: Line, T, W: Task<L, T>>(line: &mut L, task: W) -> (r: WebDriverResult<T>)
    requires
        forall|at: L| #[trigger] enters_tab(*old(line), at) ==> task.ready(at),
    ensures
        works_in_tab(*old(line), *final(line), task, r),
{
    let ghost start = *line;
    let handle: WindowHandle = match window_over(line) {
        Ok(h) => h,
        Err(e) => return Err(e),
    };
    let ghost one = *line;
    assert(hears_window(start, one, Ok(handle)));
    let tab: WindowHandle = match read_over::<L, WindowHandle>(line, Command::NewTab) {
        Ok(h) => h,
        Err(e) => {
            assert(opens_tab(one, *line, handle@, task, Err(e)));
            return Err(e);
        },
    };
    let ghost two = *line;
    let ghost t = tab;
    assert(driver::hears(one, two, CommandView::NewTab, Ok::<WindowHandle, WebDriverError>(t)));
    match run_over(line, Command::SwitchToWindow(tab)) {
        Ok(_) => {},
        Err(e) => {
            assert(goes_to_tab(two, *line, handle@, t@, task, Err(e)));
            assert(opens_tab(one, *line, handle@, task, Err(e)));
            return Err(e);
        },
    }
    let ghost at = *line;
    assert(driver::does(two, at, CommandView::SwitchToWindow(t@), Ok(())));
    assert(enters_tab(start, at));
    let done: WebDriverResult<T> = task.run(line);
    let ghost after = *line;
    let ghost gdone = done;
    assert(task.done(at, after, gdone));
    let r: WebDriverResult<T> = leave_tab(line, handle, done);
    assert(is_in_tab(at, *line, handle@, task, r));
    assert(goes_to_tab(two, *line, handle@, t@, task, r));
    assert(opens_tab(one, *line, handle@, task, r));
    r
}

/// Whether `r` may be what becomes of running a function in a new tab.
pub open spec fn runs_in_tab<D: Driver, T, F: FnOnce() -> WebDriverResult<T>>(
    d: D,
    f: F,
    r: WebDriverResult<T>,
) -> bool {
    exists|last: DriverLine<D>| #[trigger]
        works_in_tab(driver::line_of(&d), last, Call { f }, r)
}

/// Runs a function in a new tab. What the function needs may hold in the tab only.
pub fn run_in_tab<D: Driver, T, F: FnOnce() -> WebDriverResult<T>>(d: &D, f: F) -> (r:
    WebDriverResult<T>)
    requires
        forall|t: WindowHandle|
            driver::answers(*d, CommandView::NewTab, Ok::<WindowHandle, WebDriverError>(t))
                && #[trigger] driver::runs(*d, CommandView::SwitchToWindow(t@), Ok(()))
                ==> call_requires(f, ()),
    ensures
        runs_in_tab(*d, f, r),
{
    let mut line: DriverLine<D> = DriverLine { driver: d };
    let ghost start = line;
    let task: Call<F> = Call { f };
    proof {
        assert forall|at: DriverLine<D>| #[trigger]
            enters_tab(start, at) implies call_requires(f, ()) by {
            let (one, two, before, tab) = choose|
                one: DriverLine<D>,
                two: DriverLine<D>,
                before: WindowHandle,
                tab: WindowHandle,
            |
                {
                    &&& #[trigger] hears_window(start, one, Ok(before))
                    &&& #[trigger] driver::hears(
                        one,
                        two,
                        CommandView::NewTab,
                        Ok::<WindowHandle, WebDriverError>(tab),
                    )
                    &&& driver::does(two, at, CommandView::SwitchToWindow(tab@), Ok(()))
                };
            assert(one == start);
            assert(driver::answers(
                *d,
                CommandView::NewTab,
                Ok::<WindowHandle, WebDriverError>(tab),
            ));
            assert(driver::runs(*d, CommandView::SwitchToWindow(tab@), Ok(())));
        }
    }
    let r: WebDriverResult<T> = work_in_tab(&mut line, task);
    assert(works_in_tab(driver::line_of(d), line, Call { f }, r));
    r
}

/// Whatever comes of what was done in a tab, its result is handed on only once the tab is closed
/// and then the window from before is there again.
pub proof fn lemma_tab_is_left<L: Line, T>(
    line: L,
    last: L,
    before: Seq<char>,
    done: WebDriverResult<T>,
    value: T,
)
    requires
        leaves_tab(line, last, before, done, Ok(value)),
    ensures
        done == Ok::<T, WebDriverError>(value),
        exists|after: L| #[trigger]
            driver::does(line, after, CommandView::CloseWindow, Ok(())) && driver::does(
                after,
                last,
                CommandView::SwitchToWindow(before),
                Ok(()),
            ),
{
    let (after, closed) = choose|after: L, closed: WebDriverResult<()>| #[trigger]
        driver::does(line, after, CommandView::CloseWindow, closed) && match closed {
            Err(e) => last == after && Ok::<T, WebDriverError>(value) == Err::<T, WebDriverError>(e),
            Ok(_) => goes_back(after, last, before, done, Ok(value)),
        };
    let back = choose|back: WebDriverResult<()>| #[trigger]
        driver::does(after, last, CommandView::SwitchToWindow(before), back) && match back {
            Err(e) => Ok::<T, WebDriverError>(value) == Err::<T, WebDriverError>(e),
            Ok(_) => Ok::<T, WebDriverError>(value) == done,
        };
    let unit: () = closed->Ok_0;
    assert(unit == ());
    assert(closed == Ok::<(), WebDriverError>(()));
    let unit: () = back->Ok_0;
    assert(unit == ());
    assert(back == Ok::<(), WebDriverError>(()));
}

} // verus!
