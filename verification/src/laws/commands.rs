//! Which request a command is, and which selector a way to select is.
use vstd::prelude::*;

use crate::command::{
    By, BySelector, Command, CommandView, ExtensionCommand, FormatRequestData, Selector,
};
use crate::cookie::Cookie;
use crate::json::{Json, JsonValue};
use crate::request::{Method, RequestData};
use crate::types::{IntoArcStr, OptionRect, SessionId, TimeoutConfiguration};
use crate::wire;

verus! {

/// A request without a body.
pub open spec fn asks(r: RequestData, method: Method, uri: Seq<char>) -> bool {
    r.method == method && r.uri@ == uri && r.body is None
}

/// A `POST` request with a body.
pub open spec fn posts(r: RequestData, uri: Seq<char>, body: Json) -> bool {
    r.method == Method::POST && r.uri@ == uri && (r.body matches Some(b) && b@ == body)
}

/// An object without members.
pub open spec fn nothing() -> Json {
    Json::Obj(Map::empty())
}

/// An object with one member.
pub open spec fn just(name: Seq<char>, value: Json) -> Json {
    Json::Obj(Map::empty().insert(name, value))
}

/// An object with two members.
pub open spec fn both(n: Seq<char>, v: Json, m: Seq<char>, w: Json) -> Json {
    Json::Obj(Map::empty().insert(n, v).insert(m, w))
}

/// An address in the session.
pub open spec fn place(s: SessionId, tail: Seq<char>) -> Seq<char> {
    "session/"@ + s@ + tail
}

/// An address in an element of the session.
pub open spec fn part(s: SessionId, e: Seq<char>, tail: Seq<char>) -> Seq<char> {
    "session/"@ + s@ + "/element/"@ + e + tail
}

/// The session, its status, its page and its log.
pub proof fn law_session_requests(c: Command, s: SessionId, r: RequestData)
    requires
        call_ensures(<Command as FormatRequestData>::format_request, (&c, &s), r),
    ensures
        c matches Command::NewSession(w3c, plain)
            ==> posts(r, "session"@, both("capabilities"@, w3c@, "desiredCapabilities"@, plain@)),
        c is DeleteSession ==> asks(r, Method::DELETE, "session/"@ + s@),
        c is Status ==> asks(r, Method::GET, "/status"@),
        c is GetTimeouts ==> asks(r, Method::GET, place(s, "/timeouts"@)),
        c is GetPageSource ==> asks(r, Method::GET, place(s, "/source"@)),
        c is GetLogTypes ==> asks(r, Method::GET, place(s, "/log/types"@)),
        c is TakeScreenshot ==> asks(r, Method::GET, place(s, "/screenshot"@)),
        c matches Command::PrintPage(p) ==> posts(r, "/session/"@ + s@ + "/print"@, p@),
{
}

/// Going to pages, and back and forth between them.
pub proof fn law_navigation_requests(c: Command, s: SessionId, r: RequestData)
    requires
        call_ensures(<Command as FormatRequestData>::format_request, (&c, &s), r),
    ensures
        c matches Command::NavigateTo(url)
            ==> posts(r, place(s, "/url"@), just("url"@, Json::Str(url@))),
        c is GetCurrentUrl ==> asks(r, Method::GET, place(s, "/url"@)),
        c is Back ==> posts(r, place(s, "/back"@), nothing()),
        c is Forward ==> posts(r, place(s, "/forward"@), nothing()),
        c is Refresh ==> posts(r, place(s, "/refresh"@), nothing()),
        c is GetTitle ==> asks(r, Method::GET, place(s, "/title"@)),
{
}

/// Windows: which there are, which one is used, and what it looks like.
pub proof fn law_window_requests(c: Command, s: SessionId, r: RequestData)
    requires
        call_ensures(<Command as FormatRequestData>::format_request, (&c, &s), r),
    ensures
        c is GetWindowHandle ==> asks(r, Method::GET, place(s, "/window"@)),
        c is CloseWindow ==> asks(r, Method::DELETE, place(s, "/window"@)),
        c matches Command::SwitchToWindow(h)
            ==> posts(r, place(s, "/window"@), just("handle"@, Json::Str(h@))),
        c is GetWindowHandles ==> asks(r, Method::GET, place(s, "/window/handles"@)),
        c is NewWindow ==> posts(r, place(s, "/window/new"@), just("type"@, Json::Str("window"@))),
        c is NewTab ==> posts(r, place(s, "/window/new"@), just("type"@, Json::Str("tab"@))),
        c is GetWindowRect ==> asks(r, Method::GET, place(s, "/window/rect"@)),
        c is MaximizeWindow ==> posts(r, place(s, "/window/maximize"@), nothing()),
        c is MinimizeWindow ==> posts(r, place(s, "/window/minimize"@), nothing()),
        c is FullscreenWindow ==> posts(r, place(s, "/window/fullscreen"@), nothing()),
{
}

/// Frames: the whole page, a number, an element, and the frame around.
pub proof fn law_frame_requests(c: Command, s: SessionId, r: RequestData)
    requires
        call_ensures(<Command as FormatRequestData>::format_request, (&c, &s), r),
    ensures
        c is SwitchToFrameDefault ==> posts(r, place(s, "/frame"@), just("id"@, Json::Null)),
        c matches Command::SwitchToFrameNumber(n)
            ==> posts(r, place(s, "/frame"@), just("id"@, Json::Int(n as int))),
        c matches Command::SwitchToFrameElement(e)
            ==> posts(r, place(s, "/frame"@), just("id"@, both("ELEMENT"@, Json::Str(e@),
            "element-6066-11e4-a52e-4f735466cecf"@, Json::Str(e@)))),
        c is SwitchToParentFrame ==> posts(r, place(s, "/frame/parent"@), nothing()),
{
}

/// Elements are searched for with a selector, in the page or in another element.
pub proof fn law_search_requests(c: Command, s: SessionId, r: RequestData)
    requires
        call_ensures(<Command as FormatRequestData>::format_request, (&c, &s), r),
    ensures
        c is GetActiveElement ==> asks(r, Method::GET, place(s, "/element/active"@)),
        c matches Command::FindElement(q)
            ==> posts(r, place(s, "/element"@), both("using"@, Json::Str(q.name@), "value"@,
            Json::Str(q.query@))),
        c matches Command::FindElements(q)
            ==> posts(r, place(s, "/elements"@), both("using"@, Json::Str(q.name@), "value"@,
            Json::Str(q.query@))),
        c matches Command::FindElementFromElement(e, q)
            ==> posts(r, part(s, e@, "/element"@), both("using"@, Json::Str(q.name@), "value"@,
            Json::Str(q.query@))),
        c matches Command::FindElementsFromElement(e, q)
            ==> posts(r, part(s, e@, "/elements"@), both("using"@, Json::Str(q.name@), "value"@,
            Json::Str(q.query@))),
{
}

/// What is asked of an element and done to it goes to the address of that element.
pub proof fn law_element_requests(c: Command, s: SessionId, r: RequestData)
    requires
        call_ensures(<Command as FormatRequestData>::format_request, (&c, &s), r),
    ensures
        c matches Command::IsElementSelected(e) ==> asks(r, Method::GET, part(s, e@, "/selected"@)),
        c matches Command::IsElementDisplayed(e)
            ==> asks(r, Method::GET, part(s, e@, "/displayed"@)),
        c matches Command::GetElementText(e) ==> asks(r, Method::GET, part(s, e@, "/text"@)),
        c matches Command::GetElementTagName(e) ==> asks(r, Method::GET, part(s, e@, "/name"@)),
        c matches Command::GetElementRect(e) ==> asks(r, Method::GET, part(s, e@, "/rect"@)),
        c matches Command::IsElementEnabled(e) ==> asks(r, Method::GET, part(s, e@, "/enabled"@)),
        c matches Command::TakeElementScreenshot(e)
            ==> asks(r, Method::GET, part(s, e@, "/screenshot"@)),
        c matches Command::GetElementAttribute(e, n)
            ==> asks(r, Method::GET, part(s, e@, "/attribute/"@ + n@)),
        c matches Command::GetElementProperty(e, n)
            ==> asks(r, Method::GET, part(s, e@, "/property/"@ + n@)),
        c matches Command::GetElementCssValue(e, n)
            ==> asks(r, Method::GET, part(s, e@, "/css/"@ + n@)),
        c matches Command::ElementClick(e) ==> posts(r, part(s, e@, "/click"@), nothing()),
        c matches Command::ElementClear(e) ==> posts(r, part(s, e@, "/clear"@), nothing()),
        c matches Command::ElementSendKeys(e, _)
            ==> (r.method == Method::POST && r.uri@ == part(s, e@, "/value"@)),
{
}

/// Cookies: all of them, and one by its name.
pub proof fn law_cookie_requests(c: Command, s: SessionId, r: RequestData)
    requires
        call_ensures(<Command as FormatRequestData>::format_request, (&c, &s), r),
    ensures
        c is GetAllCookies ==> asks(r, Method::GET, place(s, "/cookie"@)),
        c matches Command::GetNamedCookie(n) ==> asks(r, Method::GET, place(s, "/cookie/"@ + n@)),
        c matches Command::DeleteCookie(n) ==> asks(r, Method::DELETE, place(s, "/cookie/"@ + n@)),
        c is DeleteAllCookies ==> asks(r, Method::DELETE, place(s, "/cookie"@)),
{
}

/// Actions are performed and let go.
pub proof fn law_action_requests(c: Command, s: SessionId, r: RequestData)
    requires
        call_ensures(<Command as FormatRequestData>::format_request, (&c, &s), r),
    ensures
        c matches Command::PerformActions(a)
            ==> posts(r, place(s, "/actions"@), just("actions"@, a@)),
        c is ReleaseActions ==> asks(r, Method::DELETE, place(s, "/actions"@)),
{
}

/// Alerts are read, written to, taken and refused.
pub proof fn law_alert_requests(c: Command, s: SessionId, r: RequestData)
    requires
        call_ensures(<Command as FormatRequestData>::format_request, (&c, &s), r),
    ensures
        c is DismissAlert ==> posts(r, place(s, "/alert/dismiss"@), nothing()),
        c is AcceptAlert ==> posts(r, place(s, "/alert/accept"@), nothing()),
        c is GetAlertText ==> asks(r, Method::GET, place(s, "/alert/text"@)),
        c matches Command::SendAlertText(_)
            ==> (r.method == Method::POST && r.uri@ == place(s, "/alert/text"@)),
{
}

/// An extension command goes as it is to its own place in the session.
pub proof fn law_extension_requests(c: Command, s: SessionId, r: RequestData)
    requires
        call_ensures(<Command as FormatRequestData>::format_request, (&c, &s), r),
    ensures
        c matches Command::ExtensionCommand(x)
            ==> (r.method == x.method && r.uri@ == place(s, x.endpoint@) && (match x.parameters {
            Some(p) => r.body matches Some(b) && b@ == p@,
            None => r.body is None,
        })),
{
}

/// A script goes with its arguments, in order, and both ways to run one go to their own place.
pub proof fn law_script_requests(
    c: Command,
    script: String,
    args: Vec<JsonValue>,
    s: SessionId,
    r: RequestData,
)
    requires
        call_ensures(<Command as FormatRequestData>::format_request, (&c, &s), r),
        c == Command::ExecuteScript(script, args) || c == Command::ExecuteAsyncScript(script, args),
    ensures
        r.method == Method::POST,
        c is ExecuteScript ==> r.uri@ == place(s, "/execute/sync"@),
        c is ExecuteAsyncScript ==> r.uri@ == place(s, "/execute/async"@),
        r.body matches Some(b) && b@ == both(
            "script"@,
            Json::Str(script@),
            "args"@,
            Json::Arr(Seq::new(args@.len(), |i: int| args@[i]@)),
        ),
{
    lemma_items(args@);
    assert(crate::json::items_view(args@) =~= Seq::new(args@.len(), |i: int| args@[i]@));
}

proof fn lemma_items(items: Seq<JsonValue>)
    ensures
        crate::json::items_view(items).len() == items.len(),
        forall|i: int| 0 <= i < items.len()
            ==> #[trigger] crate::json::items_view(items)[i] == items[i]@,
    decreases items.len(),
{
    if items.len() > 0 {
        lemma_items(items.drop_last());
        let before = crate::json::items_view(items.drop_last());
        assert(crate::json::items_view(items) == before.push(items.last()@));
        assert forall|i: int| 0 <= i < items.len() implies #[trigger] crate::json::items_view(
            items,
        )[i] == items[i]@ by {
            if i < items.len() - 1 {
                assert(before[i] == items.drop_last()[i]@);
            }
        }
    }
}

/// Timeouts, the place of a window and a cookie go as they are written.
pub proof fn law_value_requests(c: Command, s: SessionId, r: RequestData)
    requires
        call_ensures(<Command as FormatRequestData>::format_request, (&c, &s), r),
    ensures
        forall|t: TimeoutConfiguration, j: JsonValue|
            c == Command::SetTimeouts(t) && #[trigger] call_ensures(
                TimeoutConfiguration::to_json,
                (&t,),
                j,
            ) ==> posts(r, place(s, "/timeouts"@), j@),
        forall|t: OptionRect, j: JsonValue|
            c == Command::SetWindowRect(t) && #[trigger] call_ensures(OptionRect::to_json, (&t,), j)
                ==> posts(r, place(s, "/window/rect"@), j@),
        forall|t: Cookie, j: JsonValue|
            c == Command::AddCookie(t) && #[trigger] call_ensures(Cookie::to_json, (&t,), j)
                ==> posts(r, place(s, "/cookie"@), just("cookie"@, j@)),
{
}

/// The server is asked with the selector that the constructor stands for.
pub proof fn law_selectors<S: IntoArcStr>(x: S)
    ensures
        forall|b: By, q: Selector|
            #[trigger] call_ensures(By::Id::<S>, (x,), b) && #[trigger] call_ensures(
                By::into_selector,
                (b,),
                q,
            ) ==> q.name@ == "css selector"@
                && q.query@ == "["@ + "id"@ + "=\""@ + x.text() + "\"]"@,
        forall|b: By, q: Selector|
            #[trigger] call_ensures(By::LinkText::<S>, (x,), b) && #[trigger] call_ensures(
                By::into_selector,
                (b,),
                q,
            ) ==> q.name@ == "link text"@ && q.query@ == x.text(),
        forall|b: By, q: Selector|
            #[trigger] call_ensures(By::PartialLinkText::<S>, (x,), b) && #[trigger] call_ensures(
                By::into_selector,
                (b,),
                q,
            ) ==> q.name@ == "partial link text"@ && q.query@ == x.text(),
        forall|b: By, q: Selector|
            #[trigger] call_ensures(By::Css::<S>, (x,), b) && #[trigger] call_ensures(
                By::into_selector,
                (b,),
                q,
            ) ==> q.name@ == "css selector"@ && q.query@ == x.text(),
        forall|b: By, q: Selector|
            #[trigger] call_ensures(By::XPath::<S>, (x,), b) && #[trigger] call_ensures(
                By::into_selector,
                (b,),
                q,
            ) ==> q.name@ == "xpath"@ && q.query@ == x.text(),
        forall|b: By, q: Selector|
            #[trigger] call_ensures(By::Name::<S>, (x,), b) && #[trigger] call_ensures(
                By::into_selector,
                (b,),
                q,
            ) ==> q.name@ == "css selector"@
                && q.query@ == "["@ + "name"@ + "=\""@ + x.text() + "\"]"@,
        forall|b: By, q: Selector|
            #[trigger] call_ensures(By::Tag::<S>, (x,), b) && #[trigger] call_ensures(
                By::into_selector,
                (b,),
                q,
            ) ==> q.name@ == "css selector"@ && q.query@ == x.text(),
        forall|b: By, q: Selector|
            #[trigger] call_ensures(By::ClassName::<S>, (x,), b) && #[trigger] call_ensures(
                By::into_selector,
                (b,),
                q,
            ) ==> q.name@ == "css selector"@ && q.query@ == "."@ + x.text(),
        forall|b: By, q: Selector|
            #[trigger] call_ensures(By::Testid::<S>, (x,), b) && #[trigger] call_ensures(
                By::into_selector,
                (b,),
                q,
            ) ==> q.name@ == "css selector"@
                && q.query@ == "["@ + "data-testid"@ + "=\""@ + x.text() + "\"]"@,
{
}

/// What people read of a selector names the way to select and then what is selected.
pub proof fn law_selectors_are_shown<S: IntoArcStr>(x: S)
    ensures
        forall|b: By, t: String|
            #[trigger] call_ensures(By::Id::<S>, (x,), b) && #[trigger] call_ensures(
                By::to_text,
                (&b,),
                t,
            ) ==> t@ == "Id("@ + x.text() + ")"@,
        forall|b: By, t: String|
            #[trigger] call_ensures(By::LinkText::<S>, (x,), b) && #[trigger] call_ensures(
                By::to_text,
                (&b,),
                t,
            ) ==> t@ == "Link Text("@ + x.text() + ")"@,
        forall|b: By, t: String|
            #[trigger] call_ensures(By::PartialLinkText::<S>, (x,), b) && #[trigger] call_ensures(
                By::to_text,
                (&b,),
                t,
            ) ==> t@ == "Partial Link Text("@ + x.text() + ")"@,
        forall|b: By, t: String|
            #[trigger] call_ensures(By::Css::<S>, (x,), b) && #[trigger] call_ensures(
                By::to_text,
                (&b,),
                t,
            ) ==> t@ == "CSS("@ + x.text() + ")"@,
        forall|b: By, t: String|
            #[trigger] call_ensures(By::XPath::<S>, (x,), b) && #[trigger] call_ensures(
                By::to_text,
                (&b,),
                t,
            ) ==> t@ == "XPath("@ + x.text() + ")"@,
        forall|b: By, t: String|
            #[trigger] call_ensures(By::Name::<S>, (x,), b) && #[trigger] call_ensures(
                By::to_text,
                (&b,),
                t,
            ) ==> t@ == "CSS("@ + ("["@ + "name"@ + "=\""@ + x.text() + "\"]"@) + ")"@,
        forall|b: By, t: String|
            #[trigger] call_ensures(By::Tag::<S>, (x,), b) && #[trigger] call_ensures(
                By::to_text,
                (&b,),
                t,
            ) ==> t@ == "CSS("@ + x.text() + ")"@,
        forall|b: By, t: String|
            #[trigger] call_ensures(By::ClassName::<S>, (x,), b) && #[trigger] call_ensures(
                By::to_text,
                (&b,),
                t,
            ) ==> t@ == "CSS("@ + ("."@ + x.text()) + ")"@,
        forall|b: By, t: String|
            #[trigger] call_ensures(By::Testid::<S>, (x,), b) && #[trigger] call_ensures(
                By::to_text,
                (&b,),
                t,
            ) ==> t@ == "CSS("@ + ("["@ + "data-testid"@ + "=\""@ + x.text() + "\"]"@) + ")"@,
{
}

/// Each way to select is asked with and shown as its own.
pub proof fn law_ways_to_select(b: BySelector, q: Selector, t: String)
    requires
        call_ensures(BySelector::into_selector, (b,), q),
        call_ensures(BySelector::to_text, (&b,), t),
    ensures
        b matches BySelector::Id(x)
            ==> q.name@ == "css selector"@ && q.query@ == "["@ + "id"@ + "=\""@ + x@ + "\"]"@
            && t@ == "Id("@ + x@ + ")"@,
        b matches BySelector::XPath(x)
            ==> q.name@ == "xpath"@ && q.query@ == x@ && t@ == "XPath("@ + x@ + ")"@,
        b matches BySelector::LinkText(x)
            ==> q.name@ == "link text"@ && q.query@ == x@ && t@ == "Link Text("@ + x@ + ")"@,
        b matches BySelector::PartialLinkText(x)
            ==> q.name@ == "partial link text"@ && q.query@ == x@
            && t@ == "Partial Link Text("@ + x@ + ")"@,
        b matches BySelector::Name(x)
            ==> q.name@ == "css selector"@ && q.query@ == "["@ + "name"@ + "=\""@ + x@ + "\"]"@
            && t@ == "Name("@ + x@ + ")"@,
        b matches BySelector::Tag(x)
            ==> q.name@ == "css selector"@ && q.query@ == x@ && t@ == "Tag("@ + x@ + ")"@,
        b matches BySelector::ClassName(x)
            ==> q.name@ == "css selector"@ && q.query@ == "."@ + x@ && t@ == "Class("@ + x@ + ")"@,
        b matches BySelector::Css(x)
            ==> q.name@ == "css selector"@ && q.query@ == x@ && t@ == "CSS("@ + x@ + ")"@,
        b matches BySelector::Testid(x)
            ==> q.name@ == "testid selector"@
            && q.query@ == "["@ + "data-testid"@ + "=\""@ + x@ + "\"]"@
            && t@ == "Testid("@ + x@ + ")"@,
{
}

/// A selector is made of its name and its query, in that order.
pub proof fn law_new_selector<N: IntoArcStr, Q: IntoArcStr>(name: N, query: Q, r: Selector)
    requires
        call_ensures(Selector::new::<N, Q>, (name, query), r),
    ensures
        r.name@ == name.text(),
        r.query@ == query.text(),
{
}

/// A request is made of its method and its address, and takes a body in place of none.
pub proof fn law_requests<S: IntoArcStr>(
    method: Method,
    uri: S,
    body: JsonValue,
    bare: RequestData,
    full: RequestData,
    name: String,
)
    requires
        call_ensures(RequestData::new::<S>, (method, uri), bare),
        call_ensures(RequestData::add_body, (bare, body), full),
        call_ensures(Method::to_text, (&method,), name),
    ensures
        asks(bare, method, uri.text()),
        full.method == method && full.uri@ == uri.text() && (full.body matches Some(b) && b@
            == body@),
        method is GET ==> name@ == "GET"@,
        method is POST ==> name@ == "POST"@,
        method is PUT ==> name@ == "PUT"@,
        method is PATCH ==> name@ == "PATCH"@,
        method is DELETE ==> name@ == "DELETE"@,
        method is HEAD ==> name@ == "HEAD"@,
        method is OPTIONS ==> name@ == "OPTIONS"@,
{
}

/// A request as a text is its method, its address and its body, with a space between them.
pub proof fn law_request_text(d: &RequestData, method: String, r: String)
    requires
        call_ensures(Method::to_text, (&d.method,), method),
        call_ensures(RequestData::to_text, (d,), r),
    ensures
        d.body is None ==> r@ == method@ + " "@ + d.uri@,
        d.body matches Some(b) ==> r@ == method@ + " "@ + d.uri@ + " "@ + wire::text_of_json(
            wire::settled(b@),
        ),
{
}

/// A command of an extension is made of what the extension says of it.
pub proof fn law_extension<E: ExtensionCommand>(e: &E, r: Command)
    requires
        call_ensures(Command::extension::<E>, (e,), r),
    ensures
        r@ matches CommandView::ExtensionCommand(x) && x.method == e.extension().method
            && x.endpoint
            == e.extension().endpoint && x.parameters == e.extension().parameters,
{
}

} // verus!
