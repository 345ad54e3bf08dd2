//! How windows and tabs are come to and left.
use vstd::prelude::*;

use crate::command::CommandView;
use crate::connection::HttpClient;
use crate::driver::{Driver, DriverLine, Line};
use crate::driver;
use crate::error::{WebDriverError, WebDriverErrorInner, WebDriverResult};
use crate::json::{Json, JsonValue};
use crate::laws::{sessions, values};
use crate::laws;
use crate::reply;
use crate::session::SessionHandle;
use crate::switch_to::{Call, SwitchTo, Task};
use crate::switch_to;
use crate::types::WindowHandle;

verus! {

/// The text that a reply holds.
pub open spec fn heard_text(reply: WebDriverResult<JsonValue>) -> Option<Seq<char>> {
    match reply {
        Ok(body) => laws::text_in(body),
        Err(_) => None,
    }
}

/// The texts that a reply holds.
pub open spec fn heard_texts(reply: WebDriverResult<JsonValue>) -> Option<Seq<Seq<char>>> {
    match reply {
        Ok(body) => match laws::value_in(body) {
            Some(v) => if sessions::texts_valid(v) {
                Some(v->Arr_0.map_values(|t: Json| t->Str_0))
            } else {
                None
            },
            None => None,
        },
        Err(_) => None,
    }
}

/// The handle of a new window that a reply holds.
pub open spec fn heard_handle(reply: WebDriverResult<JsonValue>) -> Option<Seq<char>> {
    match reply {
        Ok(body) => match laws::value_in(body) {
            Some(v) => if values::window_valid(v) {
                match values::field(v, 0, "handle"@) {
                    Some(Json::Str(s)) => Some(s),
                    _ => None,
                }
            } else {
                None
            },
            None => None,
        },
        Err(_) => None,
    }
}

/// It ends in an error, which is that of the reply where the reply is one.
pub open spec fn gives_up<T>(reply: WebDriverResult<JsonValue>, r: WebDriverResult<T>) -> bool {
    r matches Err(f) && (reply matches Err(e) ==> f == e)
}

/// Something is done in a new tab. The window that is used is asked for first, then a tab is
/// opened, and each thing that fails is the last one.
pub open spec fn done_in_tab<L: Line, T, W: Task<L, T>>(
    line: L,
    last: L,
    task: W,
    r: WebDriverResult<T>,
) -> bool {
    exists|one: L, home: WebDriverResult<JsonValue>| #[trigger]
        L::said(line, one, CommandView::GetWindowHandle, home) && match heard_text(home) {
            None => last == one && gives_up(home, r),
            Some(home) => tab_opened(one, last, home, task, r),
        }
}

/// A tab is opened, and switched to.
pub open spec fn tab_opened<L: Line, T, W: Task<L, T>>(
    line: L,
    last: L,
    home: Seq<char>,
    task: W,
    r: WebDriverResult<T>,
) -> bool {
    exists|two: L, tab: WebDriverResult<JsonValue>| #[trigger]
        L::said(line, two, CommandView::NewTab, tab) && match heard_handle(tab) {
            None => last == two && gives_up(tab, r),
            Some(tab) => tab_used(two, last, home, tab, task, r),
        }
}

/// The tab is switched to, and what is to be done is done there.
pub open spec fn tab_used<L: Line, T, W: Task<L, T>>(
    line: L,
    last: L,
    home: Seq<char>,
    tab: Seq<char>,
    task: W,
    r: WebDriverResult<T>,
) -> bool {
    exists|three: L, there: WebDriverResult<JsonValue>| #[trigger]
        L::said(line, three, CommandView::SwitchToWindow(tab), there) && if there is Err {
            last == three && gives_up(there, r)
        } else {
            exists|four: L, done: WebDriverResult<T>| #[trigger]
                task.done(three, four, done) && tab_closed(four, last, home, done, r)
        }
}

/// Whatever came of it, the tab is closed and the window from before is switched to. The result is
/// what was done there.
pub open spec fn tab_closed<L: Line, T>(
    line: L,
    last: L,
    home: Seq<char>,
    done: WebDriverResult<T>,
    r: WebDriverResult<T>,
) -> bool {
    exists|five: L, closed: WebDriverResult<JsonValue>| #[trigger]
        L::said(line, five, CommandView::CloseWindow, closed) && if closed is Err {
            last == five && gives_up(closed, r)
        } else {
            exists|back: WebDriverResult<JsonValue>| #[trigger]
                L::said(five, last, CommandView::SwitchToWindow(home), back) && if back is Err {
                    gives_up(back, r)
                } else {
                    r == done
                }
        }
}

proof fn lemma_closed<L: Line, T>(
    line: L,
    last: L,
    home: Seq<char>,
    done: WebDriverResult<T>,
    r: WebDriverResult<T>,
)
    requires
        switch_to::leaves_tab(line, last, home, done, r),
    ensures
        tab_closed(line, last, home, done, r),
{
    let (five, c) = choose|five: L, c: WebDriverResult<()>| #[trigger]
        driver::does(line, five, CommandView::CloseWindow, c) && match c {
            Err(e) => last == five && r == Err::<T, WebDriverError>(e),
            Ok(_) => switch_to::goes_back(five, last, home, done, r),
        };
    let closed = choose|reply: WebDriverResult<JsonValue>| #[trigger]
        L::said(line, five, CommandView::CloseWindow, reply) && reply::unit_result(reply, c);
    assert(L::said(line, five, CommandView::CloseWindow, closed));
    if closed is Ok {
        let b = choose|b: WebDriverResult<()>| #[trigger]
            driver::does(five, last, CommandView::SwitchToWindow(home), b) && match b {
                Err(e) => r == Err::<T, WebDriverError>(e),
                Ok(_) => r == done,
            };
        let back = choose|reply: WebDriverResult<JsonValue>| #[trigger]
            L::said(five, last, CommandView::SwitchToWindow(home), reply) && reply::unit_result(
                reply,
                b,
            );
        assert(L::said(five, last, CommandView::SwitchToWindow(home), back));
    }
}

proof fn lemma_used<L: Line, T, W: Task<L, T>>(
    line: L,
    last: L,
    home: Seq<char>,
    tab: Seq<char>,
    task: W,
    r: WebDriverResult<T>,
)
    requires
        switch_to::goes_to_tab(line, last, home, tab, task, r),
    ensures
        tab_used(line, last, home, tab, task, r),
{
    let (three, t) = choose|three: L, t: WebDriverResult<()>| #[trigger]
        driver::does(line, three, CommandView::SwitchToWindow(tab), t) && match t {
            Err(e) => last == three && r == Err::<T, WebDriverError>(e),
            Ok(_) => switch_to::is_in_tab(three, last, home, task, r),
        };
    let there = choose|reply: WebDriverResult<JsonValue>| #[trigger]
        L::said(line, three, CommandView::SwitchToWindow(tab), reply) && reply::unit_result(
            reply,
            t,
        );
    assert(L::said(line, three, CommandView::SwitchToWindow(tab), there));
    if there is Ok {
        let (four, done) = choose|four: L, done: WebDriverResult<T>| #[trigger]
            task.done(three, four, done) && switch_to::leaves_tab(four, last, home, done, r);
        lemma_closed(four, last, home, done, r);
        assert(task.done(three, four, done));
    }
}

proof fn lemma_opened<L: Line, T, W: Task<L, T>>(
    line: L,
    last: L,
    home: Seq<char>,
    task: W,
    r: WebDriverResult<T>,
)
    requires
        switch_to::opens_tab(line, last, home, task, r),
    ensures
        tab_opened(line, last, home, task, r),
{
    let (two, t) = choose|two: L, t: WebDriverResult<WindowHandle>| #[trigger]
        driver::hears(line, two, CommandView::NewTab, t) && match t {
            Err(e) => last == two && r == Err::<T, WebDriverError>(e),
            Ok(t) => switch_to::goes_to_tab(two, last, home, t@, task, r),
        };
    let tab = choose|reply: WebDriverResult<JsonValue>| #[trigger]
        L::said(line, two, CommandView::NewTab, reply) && reply::read_result(reply, t);
    assert(L::said(line, two, CommandView::NewTab, tab));
    if let Ok(h) = t {
        lemma_used(two, last, home, h@, task, r);
    }
}

proof fn lemma_done<L: Line, T, W: Task<L, T>>(line: L, last: L, task: W, r: WebDriverResult<T>)
    requires
        switch_to::works_in_tab(line, last, task, r),
    ensures
        done_in_tab(line, last, task, r),
{
    let (one, h) = choose|one: L, h: WebDriverResult<WindowHandle>| #[trigger]
        switch_to::hears_window(line, one, h) && match h {
            Err(e) => last == one && r == Err::<T, WebDriverError>(e),
            Ok(b) => switch_to::opens_tab(one, last, b@, task, r),
        };
    let s = choose|s: WebDriverResult<String>| #[trigger]
        driver::hears(line, one, CommandView::GetWindowHandle, s) && reply::handle_result(s, h);
    let home = choose|reply: WebDriverResult<JsonValue>| #[trigger]
        L::said(line, one, CommandView::GetWindowHandle, reply) && reply::read_result(reply, s);
    assert(L::said(line, one, CommandView::GetWindowHandle, home));
    if let Ok(b) = h {
        lemma_opened(one, last, b@, task, r);
    }
}

/// What is done in a new tab comes after the tab was opened and switched to. The tab is closed
/// afterwards, and the window from before is used again.
pub proof fn law_work_in_tab<L: Line, T, W: Task<L, T>>(task: W)
    ensures
        forall|line: &mut L, r: WebDriverResult<T>| #[trigger]
            call_ensures(switch_to::work_in_tab::<L, T, W>, (line, task), r) ==> done_in_tab(
                *line,
                *final(line),
                task,
                r,
            ),
{
    assert forall|line: &mut L, r: WebDriverResult<T>| #[trigger]
        call_ensures(switch_to::work_in_tab::<L, T, W>, (line, task), r) implies done_in_tab(
        *line,
        *final(line),
        task,
        r,
    ) by {
        lemma_done(*line, *final(line), task, r);
    }
}

/// The same is said to the session where a function is run in a new tab.
pub proof fn law_in_new_tab<H: HttpClient, G, T, F: FnOnce() -> WebDriverResult<T>>(
    h: &SessionHandle<H, G>,
    f: F,
    r: WebDriverResult<T>,
)
    requires
        call_ensures(SessionHandle::<H, G>::in_new_tab::<T, F>, (h, f), r),
    ensures
        exists|last: DriverLine<SessionHandle<H, G>>| #[trigger]
            done_in_tab(DriverLine { driver: h }, last, Call { f }, r),
{
    let last = choose|last: DriverLine<SessionHandle<H, G>>| #[trigger]
        switch_to::works_in_tab(driver::line_of(h), last, Call { f }, r);
    lemma_done(driver::line_of(h), last, Call { f }, r);
}

/// The windows are gone through in their order: each is switched to and asked for its name. The
/// first that has the name is the one. Where none has it, the window from before is switched to,
/// and the error names what was looked for.
pub open spec fn gone_through<L: Line>(
    line: L,
    last: L,
    name: Seq<char>,
    left: Seq<Seq<char>>,
    home: Seq<char>,
    r: WebDriverResult<()>,
) -> bool
    decreases left.len(),
{
    if left.len() == 0 {
        exists|back: WebDriverResult<JsonValue>| #[trigger]
            L::said(line, last, CommandView::SwitchToWindow(home), back) && if back is Err {
                gives_up(back, r)
            } else {
                r matches Err(e) && e@ matches WebDriverErrorInner::NoSuchWindow(info)
                    && info@.value.message == "unable to find named window: "@ + name
            }
    } else {
        exists|at: L, there: WebDriverResult<JsonValue>| #[trigger]
            L::said(line, at, CommandView::SwitchToWindow(left[0]), there) && if there is Err {
                last == at && gives_up(there, r)
            } else {
                exists|after: L, told: WebDriverResult<JsonValue>| #[trigger]
                    L::said(
                        at,
                        after,
                        CommandView::ExecuteScript("return window.name;"@, Seq::empty()),
                        told,
                    ) && match heard_text(told) {
                        None => last == after && gives_up(told, r),
                        Some(t) => if t == name {
                            last == after && r is Ok
                        } else {
                            gone_through(after, last, name, left.skip(1), home, r)
                        },
                    }
            }
    }
}

/// The window that is used is asked for, and then all windows are, which are gone through.
pub open spec fn looked_for<L: Line>(
    line: L,
    last: L,
    name: Seq<char>,
    r: WebDriverResult<()>,
) -> bool {
    exists|one: L, home: WebDriverResult<JsonValue>| #[trigger]
        L::said(line, one, CommandView::GetWindowHandle, home) && match heard_text(home) {
            None => last == one && gives_up(home, r),
            Some(home) => exists|two: L, all: WebDriverResult<JsonValue>| #[trigger]
                L::said(one, two, CommandView::GetWindowHandles, all) && match heard_texts(all) {
                    None => last == two && gives_up(all, r),
                    Some(all) => gone_through(two, last, name, all, home, r),
                },
        }
}

proof fn lemma_gone_through<L: Line>(
    line: L,
    last: L,
    name: Seq<char>,
    handles: Seq<WindowHandle>,
    i: nat,
    home: Seq<char>,
    r: WebDriverResult<()>,
)
    requires
        switch_to::window_search(line, last, name, handles, i, home, r),
        i <= handles.len(),
    ensures
        gone_through(line, last, name, reply::handle_views(handles).skip(i as int), home, r),
    decreases handles.len() - i,
{
    let left = reply::handle_views(handles).skip(i as int);
    if i >= handles.len() {
        let b = choose|b: WebDriverResult<()>| #[trigger]
            driver::does(line, last, CommandView::SwitchToWindow(home), b) && match b {
                Err(e) => r == Err::<(), WebDriverError>(e),
                Ok(_) => r matches Err(e) && switch_to::no_such_window(e, name),
            };
        let back = choose|reply: WebDriverResult<JsonValue>| #[trigger]
            L::said(line, last, CommandView::SwitchToWindow(home), reply) && reply::unit_result(
                reply,
                b,
            );
        assert(L::said(line, last, CommandView::SwitchToWindow(home), back));
    } else {
        assert(left[0] == handles[i as int]@);
        let (at, t) = choose|at: L, t: WebDriverResult<()>| #[trigger]
            driver::does(line, at, CommandView::SwitchToWindow(handles[i as int]@), t) && match t {
                Err(e) => last == at && r == Err::<(), WebDriverError>(e),
                Ok(_) => switch_to::at_window(at, last, name, handles, i, home, r),
            };
        let there = choose|reply: WebDriverResult<JsonValue>| #[trigger]
            L::said(line, at, CommandView::SwitchToWindow(handles[i as int]@), reply)
                && reply::unit_result(reply, t);
        assert(L::said(line, at, CommandView::SwitchToWindow(left[0]), there));
        if there is Ok {
            let (after, n) = choose|after: L, n: WebDriverResult<String>| #[trigger]
                driver::hears(at, after, switch_to::ask_name(), n) && match n {
                    Err(e) => last == after && r == Err::<(), WebDriverError>(e),
                    Ok(t) => if t@ == name {
                        last == after && r is Ok
                    } else {
                        i < handles.len() && switch_to::window_search(
                            after,
                            last,
                            name,
                            handles,
                            i + 1,
                            home,
                            r,
                        )
                    },
                };
            let told = choose|reply: WebDriverResult<JsonValue>| #[trigger]
                L::said(at, after, switch_to::ask_name(), reply) && reply::read_result(reply, n);
            assert(L::said(
                at,
                after,
                CommandView::ExecuteScript("return window.name;"@, Seq::empty()),
                told,
            ));
            if let Ok(t) = n {
                if t@ != name {
                    lemma_gone_through(after, last, name, handles, i + 1, home, r);
                    assert(left.skip(1) =~= reply::handle_views(handles).skip((i + 1) as int));
                }
            }
        }
    }
}

proof fn lemma_looked_for<L: Line>(line: L, last: L, name: Seq<char>, r: WebDriverResult<()>)
    requires
        switch_to::finds_window(line, last, name, r),
    ensures
        looked_for(line, last, name, r),
{
    let (one, h) = choose|one: L, h: WebDriverResult<WindowHandle>| #[trigger]
        switch_to::hears_window(line, one, h) && match h {
            Err(e) => last == one && r == Err::<(), WebDriverError>(e),
            Ok(f) => switch_to::looks_through(one, last, name, f@, r),
        };
    let s = choose|s: WebDriverResult<String>| #[trigger]
        driver::hears(line, one, CommandView::GetWindowHandle, s) && reply::handle_result(s, h);
    let home = choose|reply: WebDriverResult<JsonValue>| #[trigger]
        L::said(line, one, CommandView::GetWindowHandle, reply) && reply::read_result(reply, s);
    assert(L::said(line, one, CommandView::GetWindowHandle, home));
    if let Ok(f) = h {
        let (two, w) = choose|two: L, w: WebDriverResult<Vec<WindowHandle>>| #[trigger]
            switch_to::hears_windows(one, two, w) && match w {
                Err(e) => last == two && r == Err::<(), WebDriverError>(e),
                Ok(handles) => switch_to::window_search(two, last, name, handles@, 0, f@, r),
            };
        let t = choose|t: WebDriverResult<Vec<String>>| #[trigger]
            driver::hears(one, two, CommandView::GetWindowHandles, t)
                && reply::handles_result(t, w);
        let all = choose|reply: WebDriverResult<JsonValue>| #[trigger]
            L::said(one, two, CommandView::GetWindowHandles, reply) && reply::read_result(reply, t);
        assert(L::said(one, two, CommandView::GetWindowHandles, all));
        if let Ok(handles) = w {
            lemma_gone_through(two, last, name, handles@, 0, f@, r);
            let texts = t->Ok_0;
            let items = laws::value_in(all->Ok_0)->0->Arr_0;
            let views = reply::handle_views(handles@);
            assert(views.len() == items.len());
            assert forall|i: int| 0 <= i < items.len() implies #[trigger] views[i]
                == items[i]->Str_0 by {
                assert(items[i] == Json::Str(texts@[i]@));
                assert(crate::text::texts(texts@)[i] == texts@[i]@);
            }
            assert(views.skip(0) =~= heard_texts(all)->0);
        }
    }
}

/// A window is found by its name as it says it.
pub proof fn law_find_window<L: Line>(name: &str)
    ensures
        forall|line: &mut L, r: WebDriverResult<()>| #[trigger]
            call_ensures(switch_to::find_window::<L>, (line, name), r) ==> looked_for(
                *line,
                *final(line),
                name@,
                r,
            ),
{
    assert forall|line: &mut L, r: WebDriverResult<()>| #[trigger]
        call_ensures(switch_to::find_window::<L>, (line, name), r) implies looked_for(
        *line,
        *final(line),
        name@,
        r,
    ) by {
        lemma_looked_for(*line, *final(line), name@, r);
    }
}

/// The same is said to the session that is to switch to a window by its name.
pub proof fn law_window_name<D: Driver>(s: SwitchTo<D>, name: &str, r: WebDriverResult<()>)
    requires
        call_ensures(SwitchTo::<D>::window_name, (s, name), r),
    ensures
        exists|d: &D, last: DriverLine<D>|
            *d == s.session() && #[trigger] looked_for(DriverLine { driver: d }, last, name@, r),
{
    let d = s.session();
    let last = choose|last: DriverLine<D>| #[trigger]
        switch_to::finds_window(driver::line_of(&d), last, name@, r);
    lemma_looked_for(driver::line_of(&d), last, name@, r);
    assert(looked_for(DriverLine { driver: &d }, last, name@, r));
}

/// A session switches to a window by its name in that way too.
pub proof fn law_named_window<H: HttpClient, G>(
    h: &SessionHandle<H, G>,
    name: &str,
    r: WebDriverResult<()>,
)
    requires
        call_ensures(SessionHandle::<H, G>::switch_to_named_window, (h, name), r),
    ensures
        exists|last: DriverLine<SessionHandle<H, G>>| #[trigger]
            looked_for(DriverLine { driver: h }, last, name@, r),
{
    let last = choose|last: DriverLine<SessionHandle<H, G>>| #[trigger]
        switch_to::finds_window(driver::line_of(h), last, name@, r);
    lemma_looked_for(driver::line_of(h), last, name@, r);
}

} // verus!
