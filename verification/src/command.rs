//! The commands of the WebDriver protocol, and the HTTP request that each one is.
use crate::cookie::{Cookie, CookieView};
use crate::json;
use crate::json::{Json, JsonValue};
use crate::keys::TypingData;
use crate::request::{Method, RequestData, RequestView};
use crate::text;
use crate::text::{cat2, cat3, cat5};
use crate::types::{
    ElementId, IntoArcStr, IntoTransfer, OptionRect, SessionId, TimeoutConfiguration, TimeoutsView,
    WindowHandle, MAGIC_ELEMENTID,
};
use vstd::prelude::*;

verus! {

/// The actions of all sources, as the request for them has them.
#[derive(Debug)]
pub struct Actions {
    value: JsonValue,
}

impl Actions {
    /// What the actions are in the request.
    pub closed spec fn view(&self) -> Json {
        self.value@
    }

    /// The actions that the request has.
    pub fn from(value: JsonValue) -> (r: Actions)
        ensures
            r@ == value@,
    {
        Actions { value }
    }

    /// What the actions are in the request.
    pub fn value(&self) -> (r: JsonValue)
        ensures
            r@ == self@,
    {
        self.value.clone()
    }
}

/// Element Selector representation.
#[derive(Debug)]
pub struct Selector {
    /// Selector name.
    pub name: String,
    /// Selector query.
    pub query: String,
}

/// What a selector stands for.
pub struct SelectorView {
    pub name: Seq<char>,
    pub query: Seq<char>,
}

impl SelectorView {
    /// What the selector is in a request.
    pub open spec fn json(self) -> Json {
        json::obj2("using"@, Json::Str(self.name), "value"@, Json::Str(self.query))
    }
}

impl Selector {
    /// What this selector stands for.
    pub open spec fn view(&self) -> SelectorView {
        SelectorView { name: self.name@, query: self.query@ }
    }

    /// Create a new Selector.
    pub fn new<N: IntoArcStr, Q: IntoArcStr>(name: N, query: Q) -> (r: Self)
        ensures
            r@ == (SelectorView { name: name.text(), query: query.text() }),
    {
        Selector { name: IntoTransfer::into(name), query: IntoTransfer::into(query) }
    }

    /// What the selector is in a request.
    pub fn to_json(&self) -> (r: JsonValue)
        ensures
            r@ == self@.json(),
    {
        JsonValue::object2(
            "using",
            JsonValue::text(self.name.as_str()),
            "value",
            JsonValue::text(self.query.as_str()),
        )
    }
}

/// Element Selector representation.
#[derive(Debug)]
pub enum BySelector {
    /// Select an element by id.
    Id(String),
    /// Select an element by XPath.
    XPath(String),
    /// Select an element by link text.
    LinkText(String),
    /// Select an element by partial link text.
    PartialLinkText(String),
    /// Select element by name.
    Name(String),
    /// Select an element by tag.
    Tag(String),
    /// Select an element by class.
    ClassName(String),
    /// Select an element by CSS.
    Css(String),
    /// Select an element by data-testid.
    Testid(String),
}

/// What a way to select elements stands for.
pub enum ByView {
    Id(Seq<char>),
    XPath(Seq<char>),
    LinkText(Seq<char>),
    PartialLinkText(Seq<char>),
    Name(Seq<char>),
    Tag(Seq<char>),
    ClassName(Seq<char>),
    Css(Seq<char>),
    Testid(Seq<char>),
}

/// The CSS selector for the elements whose attribute `name` is `value`.
pub open spec fn css_attribute(name: Seq<char>, value: Seq<char>) -> Seq<char> {
    "["@ + name + "=\""@ + value + "\"]"@
}

impl ByView {
    /// The selector that the server is asked with.
    pub open spec fn selector(self) -> SelectorView {
        match self {
            ByView::Id(x) => SelectorView {
                name: "css selector"@,
                query: css_attribute("id"@, x),
            },
            ByView::XPath(x) => SelectorView { name: "xpath"@, query: x },
            ByView::LinkText(x) => SelectorView { name: "link text"@, query: x },
            ByView::PartialLinkText(x) => SelectorView { name: "partial link text"@, query: x },
            ByView::Name(x) => SelectorView {
                name: "css selector"@,
                query: css_attribute("name"@, x),
            },
            ByView::Tag(x) => SelectorView { name: "css selector"@, query: x },
            ByView::ClassName(x) => SelectorView { name: "css selector"@, query: "."@ + x },
            ByView::Css(x) => SelectorView { name: "css selector"@, query: x },
            ByView::Testid(x) => SelectorView {
                name: "testid selector"@,
                query: css_attribute("data-testid"@, x),
            },
        }
    }

    /// The selector as people read it.
    pub open spec fn shown(self) -> Seq<char> {
        match self {
            ByView::Id(x) => "Id("@ + x + ")"@,
            ByView::XPath(x) => "XPath("@ + x + ")"@,
            ByView::LinkText(x) => "Link Text("@ + x + ")"@,
            ByView::PartialLinkText(x) => "Partial Link Text("@ + x + ")"@,
            ByView::Name(x) => "Name("@ + x + ")"@,
            ByView::Tag(x) => "Tag("@ + x + ")"@,
            ByView::ClassName(x) => "Class("@ + x + ")"@,
            ByView::Css(x) => "CSS("@ + x + ")"@,
            ByView::Testid(x) => "Testid("@ + x + ")"@,
        }
    }
}

/// The CSS selector for the elements whose attribute `name` is `value`.
fn css_attribute_text(name: &str, value: &str) -> (r: String)
    ensures
        r@ == css_attribute(name@, value@),
{
    cat5("[", name, "=\"", value, "\"]")
}

impl BySelector {
    /// What this way to select elements stands for.
    pub open spec fn view(&self) -> ByView {
        match self {
            BySelector::Id(x) => ByView::Id(x@),
            BySelector::XPath(x) => ByView::XPath(x@),
            BySelector::LinkText(x) => ByView::LinkText(x@),
            BySelector::PartialLinkText(x) => ByView::PartialLinkText(x@),
            BySelector::Name(x) => ByView::Name(x@),
            BySelector::Tag(x) => ByView::Tag(x@),
            BySelector::ClassName(x) => ByView::ClassName(x@),
            BySelector::Css(x) => ByView::Css(x@),
            BySelector::Testid(x) => ByView::Testid(x@),
        }
    }

    /// The selector as people read it.
    pub fn to_text(&self) -> (r: String)
        ensures
            r@ == self@.shown(),
    {
        match self {
            BySelector::Id(x) => cat3("Id(", x.as_str(), ")"),
            BySelector::XPath(x) => cat3("XPath(", x.as_str(), ")"),
            BySelector::LinkText(x) => cat3("Link Text(", x.as_str(), ")"),
            BySelector::PartialLinkText(x) => cat3("Partial Link Text(", x.as_str(), ")"),
            BySelector::Name(x) => cat3("Name(", x.as_str(), ")"),
            BySelector::Tag(x) => cat3("Tag(", x.as_str(), ")"),
            BySelector::ClassName(x) => cat3("Class(", x.as_str(), ")"),
            BySelector::Css(x) => cat3("CSS(", x.as_str(), ")"),
            BySelector::Testid(x) => cat3("Testid(", x.as_str(), ")"),
        }
    }

    /// The selector that the server is asked with.
    pub fn into_selector(self) -> (r: Selector)
        ensures
            r@ == self@.selector(),
    {
        match self {
            BySelector::Id(x) => Selector::new(
                "css selector",
                css_attribute_text("id", x.as_str()),
            ),
            BySelector::XPath(x) => Selector::new("xpath", x),
            BySelector::LinkText(x) => Selector::new("link text", x),
            BySelector::PartialLinkText(x) => Selector::new("partial link text", x),
            BySelector::Name(x) => Selector::new(
                "css selector",
                css_attribute_text("name", x.as_str()),
            ),
            BySelector::Tag(x) => Selector::new("css selector", x),
            BySelector::ClassName(x) => Selector::new("css selector", cat2(".", x.as_str())),
            BySelector::Css(x) => Selector::new("css selector", x),
            BySelector::Testid(x) => Selector::new(
                "testid selector",
                css_attribute_text("data-testid", x.as_str()),
            ),
        }
    }
}

impl Clone for BySelector {
    fn clone(&self) -> (r: Self)
        ensures
            r == *self,
    {
        match self {
            BySelector::Id(x) => BySelector::Id(x.clone()),
            BySelector::XPath(x) => BySelector::XPath(x.clone()),
            BySelector::LinkText(x) => BySelector::LinkText(x.clone()),
            BySelector::PartialLinkText(x) => BySelector::PartialLinkText(x.clone()),
            BySelector::Name(x) => BySelector::Name(x.clone()),
            BySelector::Tag(x) => BySelector::Tag(x.clone()),
            BySelector::ClassName(x) => BySelector::ClassName(x.clone()),
            BySelector::Css(x) => BySelector::Css(x.clone()),
            BySelector::Testid(x) => BySelector::Testid(x.clone()),
        }
    }
}

/// Element Selector struct providing a convenient way to specify selectors.
#[derive(Debug)]
pub struct By {
    selector: BySelector,
}

impl Clone for By {
    fn clone(&self) -> (r: Self)
        ensures
            r == *self,
            r@ == self@,
    {
        By { selector: self.selector.clone() }
    }
}

#[allow(non_snake_case)]
impl By {
    /// What this way to select elements stands for.
    pub closed spec fn view(&self) -> ByView {
        self.selector@
    }

    /// Select element by id.
    pub fn Id<S: IntoArcStr>(id: S) -> (r: Self)
        ensures
            r@ == ByView::Id(id.text()),
    {
        By { selector: BySelector::Id(IntoTransfer::into(id)) }
    }

    /// Select element by link text.
    pub fn LinkText<S: IntoArcStr>(text: S) -> (r: Self)
        ensures
            r@ == ByView::LinkText(text.text()),
    {
        By { selector: BySelector::LinkText(IntoTransfer::into(text)) }
    }

    /// Select element by partial link text.
    pub fn PartialLinkText<S: IntoArcStr>(text: S) -> (r: Self)
        ensures
            r@ == ByView::PartialLinkText(text.text()),
    {
        By { selector: BySelector::PartialLinkText(IntoTransfer::into(text)) }
    }

    /// Select element by CSS.
    pub fn Css<S: IntoArcStr>(css: S) -> (r: Self)
        ensures
            r@ == ByView::Css(css.text()),
    {
        By { selector: BySelector::Css(IntoTransfer::into(css)) }
    }

    /// Select element by XPath.
    pub fn XPath<S: IntoArcStr>(x: S) -> (r: Self)
        ensures
            r@ == ByView::XPath(x.text()),
    {
        By { selector: BySelector::XPath(IntoTransfer::into(x)) }
    }

    /// Select element by name.
    pub fn Name<S: IntoArcStr>(name: S) -> (r: Self)
        ensures
            r@ == ByView::Css(css_attribute("name"@, name.text())),
    {
        By { selector: BySelector::Css(css_attribute_text("name", IntoTransfer::into(name).as_str())) }
    }

    /// Select element by tag.
    pub fn Tag<S: IntoArcStr>(tag: S) -> (r: Self)
        ensures
            r@ == ByView::Css(tag.text()),
    {
        By { selector: BySelector::Css(IntoTransfer::into(tag)) }
    }

    /// Select element by class.
    pub fn ClassName<S: IntoArcStr>(name: S) -> (r: Self)
        ensures
            r@ == ByView::Css("."@ + name.text()),
    {
        By { selector: BySelector::Css(cat2(".", IntoTransfer::into(name).as_str())) }
    }

    /// Select element by testid.
    pub fn Testid<S: IntoArcStr>(id: S) -> (r: Self)
        ensures
            r@ == ByView::Css(css_attribute("data-testid"@, id.text())),
    {
        By {
            selector: BySelector::Css(
                css_attribute_text("data-testid", IntoTransfer::into(id).as_str()),
            ),
        }
    }

    /// The selector as people read it.
    pub fn to_text(&self) -> (r: String)
        ensures
            r@ == self@.shown(),
    {
        self.selector.to_text()
    }

    /// The selector that the server is asked with.
    pub fn into_selector(self) -> (r: Selector)
        ensures
            r@ == self@.selector(),
    {
        self.selector.into_selector()
    }
}

/// To select by name, by tag or by class is to select with the CSS selector for it.
pub proof fn lemma_by_css(x: Seq<char>)
    ensures
        ByView::Css(css_attribute("name"@, x)).selector() == ByView::Name(x).selector(),
        ByView::Css(x).selector() == ByView::Tag(x).selector(),
        ByView::Css("."@ + x).selector() == ByView::ClassName(x).selector(),
{
}

/// Extension Command trait.
pub trait ExtensionCommand: Sized {
    /// What the command is, without its session.
    spec fn extension(&self) -> ExtensionView;

    /// Request Body
    fn parameters_json(&self) -> (r: Option<JsonValue>)
        ensures
            json::opt_view(r) == self.extension().parameters,
    ;

    /// HTTP method accepting by the webdriver
    fn method(&self) -> (r: Method)
        ensures
            r == self.extension().method,
    ;

    /// Endpoint URL without `session/{sessionId}` prefix
    ///
    /// Example:- `/moz/addon/install`
    fn endpoint(&self) -> (r: String)
        ensures
            r@ == self.extension().endpoint,
    ;
}

/// What an extension command is, without its session.
pub struct ExtensionView {
    pub method: Method,
    pub endpoint: Seq<char>,
    pub parameters: Option<Json>,
}

/// An extension command, as the values that it is made of.
#[derive(Debug)]
pub struct ExtensionData {
    pub method: Method,
    pub endpoint: String,
    pub parameters: Option<JsonValue>,
}

impl ExtensionData {
    /// What this extension command is.
    pub open spec fn view(&self) -> ExtensionView {
        ExtensionView {
            method: self.method,
            endpoint: self.endpoint@,
            parameters: json::opt_view(self.parameters),
        }
    }
}

/// All the standard WebDriver commands.
#[derive(Debug)]
pub enum Command {
    /// A new session, with its capabilities in the form of the W3C standard and as they are.
    NewSession(JsonValue, JsonValue),
    DeleteSession,
    Status,
    GetTimeouts,
    SetTimeouts(TimeoutConfiguration),
    NavigateTo(String),
    GetCurrentUrl,
    Back,
    Forward,
    Refresh,
    GetTitle,
    GetWindowHandle,
    CloseWindow,
    SwitchToWindow(WindowHandle),
    GetWindowHandles,
    NewWindow,
    NewTab,
    SwitchToFrameDefault,
    SwitchToFrameNumber(u16),
    SwitchToFrameElement(ElementId),
    SwitchToParentFrame,
    GetWindowRect,
    SetWindowRect(OptionRect),
    MaximizeWindow,
    MinimizeWindow,
    FullscreenWindow,
    GetActiveElement,
    FindElement(Selector),
    FindElements(Selector),
    FindElementFromElement(ElementId, Selector),
    FindElementsFromElement(ElementId, Selector),
    IsElementSelected(ElementId),
    IsElementDisplayed(ElementId),
    GetElementAttribute(ElementId, String),
    GetElementProperty(ElementId, String),
    GetElementCssValue(ElementId, String),
    GetElementText(ElementId),
    GetElementTagName(ElementId),
    GetElementRect(ElementId),
    IsElementEnabled(ElementId),
    ElementClick(ElementId),
    ElementClear(ElementId),
    ElementSendKeys(ElementId, TypingData),
    GetPageSource,
    ExecuteScript(String, Vec<JsonValue>),
    ExecuteAsyncScript(String, Vec<JsonValue>),
    GetAllCookies,
    GetNamedCookie(String),
    AddCookie(Cookie),
    DeleteCookie(String),
    DeleteAllCookies,
    PerformActions(Actions),
    ReleaseActions,
    DismissAlert,
    AcceptAlert,
    GetAlertText,
    SendAlertText(TypingData),
    PrintPage(JsonValue),
    TakeScreenshot,
    TakeElementScreenshot(ElementId),
    GetLogTypes,
    ExtensionCommand(ExtensionData),
}

/// What a command stands for.
pub enum CommandView {
    NewSession(Json, Json),
    DeleteSession,
    Status,
    GetTimeouts,
    SetTimeouts(TimeoutsView),
    NavigateTo(Seq<char>),
    GetCurrentUrl,
    Back,
    Forward,
    Refresh,
    GetTitle,
    GetWindowHandle,
    CloseWindow,
    SwitchToWindow(Seq<char>),
    GetWindowHandles,
    NewWindow,
    NewTab,
    SwitchToFrameDefault,
    SwitchToFrameNumber(u16),
    SwitchToFrameElement(Seq<char>),
    SwitchToParentFrame,
    GetWindowRect,
    SetWindowRect(OptionRect),
    MaximizeWindow,
    MinimizeWindow,
    FullscreenWindow,
    GetActiveElement,
    FindElement(SelectorView),
    FindElements(SelectorView),
    FindElementFromElement(Seq<char>, SelectorView),
    FindElementsFromElement(Seq<char>, SelectorView),
    IsElementSelected(Seq<char>),
    IsElementDisplayed(Seq<char>),
    GetElementAttribute(Seq<char>, Seq<char>),
    GetElementProperty(Seq<char>, Seq<char>),
    GetElementCssValue(Seq<char>, Seq<char>),
    GetElementText(Seq<char>),
    GetElementTagName(Seq<char>),
    GetElementRect(Seq<char>),
    IsElementEnabled(Seq<char>),
    ElementClick(Seq<char>),
    ElementClear(Seq<char>),
    ElementSendKeys(Seq<char>, Seq<char>),
    GetPageSource,
    ExecuteScript(Seq<char>, Seq<Json>),
    ExecuteAsyncScript(Seq<char>, Seq<Json>),
    GetAllCookies,
    GetNamedCookie(Seq<char>),
    AddCookie(CookieView),
    DeleteCookie(Seq<char>),
    DeleteAllCookies,
    PerformActions(Json),
    ReleaseActions,
    DismissAlert,
    AcceptAlert,
    GetAlertText,
    SendAlertText(Seq<char>),
    PrintPage(Json),
    TakeScreenshot,
    TakeElementScreenshot(Seq<char>),
    GetLogTypes,
    ExtensionCommand(ExtensionView),
}

/// An address within a session.
pub open spec fn session_uri(session: Seq<char>, tail: Seq<char>) -> Seq<char> {
    "session/"@ + session + tail
}

/// An address within an element of a session.
pub open spec fn element_uri(session: Seq<char>, element: Seq<char>, tail: Seq<char>) -> Seq<char> {
    "session/"@ + session + "/element/"@ + element + tail
}

/// A request without a body.
pub open spec fn bare(method: Method, uri: Seq<char>) -> RequestView {
    RequestView { method, uri, body: None }
}

/// A `POST` request.
pub open spec fn post(uri: Seq<char>, body: Json) -> RequestView {
    RequestView { method: Method::POST, uri, body: Some(body) }
}

/// The body of a request to type: the text, and its characters one by one.
pub open spec fn typing_json(typed: Seq<char>) -> Json {
    json::obj2(
        "text"@,
        Json::Str(typed),
        "value"@,
        Json::Arr(Seq::new(typed.len(), |i: int| Json::Str(seq![text::char_at(typed, i)]))),
    )
}

impl CommandView {
    /// The element that the command is about, where it is about one.
    pub open spec fn element(self) -> Option<Seq<char>> {
        match self {
            CommandView::FindElementFromElement(element, _) => Some(element),
            CommandView::FindElementsFromElement(element, _) => Some(element),
            CommandView::IsElementSelected(element) => Some(element),
            CommandView::IsElementDisplayed(element) => Some(element),
            CommandView::GetElementAttribute(element, _) => Some(element),
            CommandView::GetElementProperty(element, _) => Some(element),
            CommandView::GetElementCssValue(element, _) => Some(element),
            CommandView::GetElementText(element) => Some(element),
            CommandView::GetElementTagName(element) => Some(element),
            CommandView::GetElementRect(element) => Some(element),
            CommandView::IsElementEnabled(element) => Some(element),
            CommandView::ElementClick(element) => Some(element),
            CommandView::ElementClear(element) => Some(element),
            CommandView::ElementSendKeys(element, _) => Some(element),
            CommandView::TakeElementScreenshot(element) => Some(element),
            _ => None,
        }
    }

    /// The HTTP request that the command is in a session.
    pub open spec fn request(self, session: Seq<char>) -> RequestView {
        match self {
            CommandView::NewSession(w3c_caps, caps) => post("session"@, json::obj2("capabilities"@, w3c_caps, "desiredCapabilities"@, caps)),
            CommandView::DeleteSession => bare(Method::DELETE, "session/"@ + session),
            CommandView::Status => bare(Method::GET, "/status"@),
            CommandView::GetTimeouts => bare(Method::GET, session_uri(session, "/timeouts"@)),
            CommandView::SetTimeouts(timeouts) => post(session_uri(session, "/timeouts"@), timeouts.json()),
            CommandView::NavigateTo(url) => post(session_uri(session, "/url"@), json::obj1("url"@, Json::Str(url))),
            CommandView::GetCurrentUrl => bare(Method::GET, session_uri(session, "/url"@)),
            CommandView::Back => post(session_uri(session, "/back"@), json::obj0()),
            CommandView::Forward => post(session_uri(session, "/forward"@), json::obj0()),
            CommandView::Refresh => post(session_uri(session, "/refresh"@), json::obj0()),
            CommandView::GetTitle => bare(Method::GET, session_uri(session, "/title"@)),
            CommandView::GetWindowHandle => bare(Method::GET, session_uri(session, "/window"@)),
            CommandView::CloseWindow => bare(Method::DELETE, session_uri(session, "/window"@)),
            CommandView::SwitchToWindow(handle) => post(session_uri(session, "/window"@), json::obj1("handle"@, Json::Str(handle))),
            CommandView::GetWindowHandles => bare(Method::GET, session_uri(session, "/window/handles"@)),
            CommandView::NewWindow => post(session_uri(session, "/window/new"@), json::obj1("type"@, Json::Str("window"@))),
            CommandView::NewTab => post(session_uri(session, "/window/new"@), json::obj1("type"@, Json::Str("tab"@))),
            CommandView::SwitchToFrameDefault => post(session_uri(session, "/frame"@), json::obj1("id"@, Json::Null)),
            CommandView::SwitchToFrameNumber(number) => post(session_uri(session, "/frame"@), json::obj1("id"@, Json::Int(number as int))),
            CommandView::SwitchToFrameElement(element) => post(session_uri(session, "/frame"@), json::obj1("id"@, json::obj2("ELEMENT"@, Json::Str(element), MAGIC_ELEMENTID@, Json::Str(element)))),
            CommandView::SwitchToParentFrame => post(session_uri(session, "/frame/parent"@), json::obj0()),
            CommandView::GetWindowRect => bare(Method::GET, session_uri(session, "/window/rect"@)),
            CommandView::SetWindowRect(rect) => post(session_uri(session, "/window/rect"@), rect.json()),
            CommandView::MaximizeWindow => post(session_uri(session, "/window/maximize"@), json::obj0()),
            CommandView::MinimizeWindow => post(session_uri(session, "/window/minimize"@), json::obj0()),
            CommandView::FullscreenWindow => post(session_uri(session, "/window/fullscreen"@), json::obj0()),
            CommandView::GetActiveElement => bare(Method::GET, session_uri(session, "/element/active"@)),
            CommandView::FindElement(selector) => post(session_uri(session, "/element"@), selector.json()),
            CommandView::FindElements(selector) => post(session_uri(session, "/elements"@), selector.json()),
            CommandView::FindElementFromElement(element, selector) => post(element_uri(session, element, "/element"@), selector.json()),
            CommandView::FindElementsFromElement(element, selector) => post(element_uri(session, element, "/elements"@), selector.json()),
            CommandView::IsElementSelected(element) => bare(Method::GET, element_uri(session, element, "/selected"@)),
            CommandView::IsElementDisplayed(element) => bare(Method::GET, element_uri(session, element, "/displayed"@)),
            CommandView::GetElementAttribute(element, name) => bare(Method::GET, element_uri(session, element, "/attribute/"@ + name)),
            CommandView::GetElementProperty(element, name) => bare(Method::GET, element_uri(session, element, "/property/"@ + name)),
            CommandView::GetElementCssValue(element, name) => bare(Method::GET, element_uri(session, element, "/css/"@ + name)),
            CommandView::GetElementText(element) => bare(Method::GET, element_uri(session, element, "/text"@)),
            CommandView::GetElementTagName(element) => bare(Method::GET, element_uri(session, element, "/name"@)),
            CommandView::GetElementRect(element) => bare(Method::GET, element_uri(session, element, "/rect"@)),
            CommandView::IsElementEnabled(element) => bare(Method::GET, element_uri(session, element, "/enabled"@)),
            CommandView::ElementClick(element) => post(element_uri(session, element, "/click"@), json::obj0()),
            CommandView::ElementClear(element) => post(element_uri(session, element, "/clear"@), json::obj0()),
            CommandView::ElementSendKeys(element, typing) => post(element_uri(session, element, "/value"@), typing_json(typing)),
            CommandView::GetPageSource => bare(Method::GET, session_uri(session, "/source"@)),
            CommandView::ExecuteScript(script, args) => post(session_uri(session, "/execute/sync"@), json::obj2("script"@, Json::Str(script), "args"@, Json::Arr(args))),
            CommandView::ExecuteAsyncScript(script, args) => post(session_uri(session, "/execute/async"@), json::obj2("script"@, Json::Str(script), "args"@, Json::Arr(args))),
            CommandView::GetAllCookies => bare(Method::GET, session_uri(session, "/cookie"@)),
            CommandView::GetNamedCookie(name) => bare(Method::GET, session_uri(session, "/cookie/"@ + name)),
            CommandView::AddCookie(cookie) => post(session_uri(session, "/cookie"@), json::obj1("cookie"@, cookie.json())),
            CommandView::DeleteCookie(name) => bare(Method::DELETE, session_uri(session, "/cookie/"@ + name)),
            CommandView::DeleteAllCookies => bare(Method::DELETE, session_uri(session, "/cookie"@)),
            CommandView::PerformActions(actions) => post(session_uri(session, "/actions"@), json::obj1("actions"@, actions)),
            CommandView::ReleaseActions => bare(Method::DELETE, session_uri(session, "/actions"@)),
            CommandView::DismissAlert => post(session_uri(session, "/alert/dismiss"@), json::obj0()),
            CommandView::AcceptAlert => post(session_uri(session, "/alert/accept"@), json::obj0()),
            CommandView::GetAlertText => bare(Method::GET, session_uri(session, "/alert/text"@)),
            CommandView::SendAlertText(typing) => post(session_uri(session, "/alert/text"@), typing_json(typing)),
            CommandView::PrintPage(params) => post("/session/"@ + session + "/print"@, params),
            CommandView::TakeScreenshot => bare(Method::GET, session_uri(session, "/screenshot"@)),
            CommandView::TakeElementScreenshot(element) => bare(Method::GET, element_uri(session, element, "/screenshot"@)),
            CommandView::GetLogTypes => bare(Method::GET, session_uri(session, "/log/types"@)),
            CommandView::ExtensionCommand(command) => RequestView {
                method: command.method,
                uri: session_uri(session, command.endpoint),
                body: command.parameters,
            },
        }
    }
}

impl Command {
    /// What this command stands for.
    pub open spec fn view(&self) -> CommandView {
        match self {
            Command::NewSession(w3c_caps, caps) => CommandView::NewSession(w3c_caps@, caps@),
            Command::DeleteSession => CommandView::DeleteSession,
            Command::Status => CommandView::Status,
            Command::GetTimeouts => CommandView::GetTimeouts,
            Command::SetTimeouts(timeouts) => CommandView::SetTimeouts(timeouts@),
            Command::NavigateTo(url) => CommandView::NavigateTo(url@),
            Command::GetCurrentUrl => CommandView::GetCurrentUrl,
            Command::Back => CommandView::Back,
            Command::Forward => CommandView::Forward,
            Command::Refresh => CommandView::Refresh,
            Command::GetTitle => CommandView::GetTitle,
            Command::GetWindowHandle => CommandView::GetWindowHandle,
            Command::CloseWindow => CommandView::CloseWindow,
            Command::SwitchToWindow(handle) => CommandView::SwitchToWindow(handle@),
            Command::GetWindowHandles => CommandView::GetWindowHandles,
            Command::NewWindow => CommandView::NewWindow,
            Command::NewTab => CommandView::NewTab,
            Command::SwitchToFrameDefault => CommandView::SwitchToFrameDefault,
            Command::SwitchToFrameNumber(number) => CommandView::SwitchToFrameNumber(*number),
            Command::SwitchToFrameElement(element) => CommandView::SwitchToFrameElement(element@),
            Command::SwitchToParentFrame => CommandView::SwitchToParentFrame,
            Command::GetWindowRect => CommandView::GetWindowRect,
            Command::SetWindowRect(rect) => CommandView::SetWindowRect(*rect),
            Command::MaximizeWindow => CommandView::MaximizeWindow,
            Command::MinimizeWindow => CommandView::MinimizeWindow,
            Command::FullscreenWindow => CommandView::FullscreenWindow,
            Command::GetActiveElement => CommandView::GetActiveElement,
            Command::FindElement(selector) => CommandView::FindElement(selector@),
            Command::FindElements(selector) => CommandView::FindElements(selector@),
            Command::FindElementFromElement(element, selector) => CommandView::FindElementFromElement(element@, selector@),
            Command::FindElementsFromElement(element, selector) => CommandView::FindElementsFromElement(element@, selector@),
            Command::IsElementSelected(element) => CommandView::IsElementSelected(element@),
            Command::IsElementDisplayed(element) => CommandView::IsElementDisplayed(element@),
            Command::GetElementAttribute(element, name) => CommandView::GetElementAttribute(element@, name@),
            Command::GetElementProperty(element, name) => CommandView::GetElementProperty(element@, name@),
            Command::GetElementCssValue(element, name) => CommandView::GetElementCssValue(element@, name@),
            Command::GetElementText(element) => CommandView::GetElementText(element@),
            Command::GetElementTagName(element) => CommandView::GetElementTagName(element@),
            Command::GetElementRect(element) => CommandView::GetElementRect(element@),
            Command::IsElementEnabled(element) => CommandView::IsElementEnabled(element@),
            Command::ElementClick(element) => CommandView::ElementClick(element@),
            Command::ElementClear(element) => CommandView::ElementClear(element@),
            Command::ElementSendKeys(element, typing) => CommandView::ElementSendKeys(element@, typing@),
            Command::GetPageSource => CommandView::GetPageSource,
            Command::ExecuteScript(script, args) => CommandView::ExecuteScript(script@, json::items_view(args@)),
            Command::ExecuteAsyncScript(script, args) => CommandView::ExecuteAsyncScript(script@, json::items_view(args@)),
            Command::GetAllCookies => CommandView::GetAllCookies,
            Command::GetNamedCookie(name) => CommandView::GetNamedCookie(name@),
            Command::AddCookie(cookie) => CommandView::AddCookie(cookie@),
            Command::DeleteCookie(name) => CommandView::DeleteCookie(name@),
            Command::DeleteAllCookies => CommandView::DeleteAllCookies,
            Command::PerformActions(actions) => CommandView::PerformActions(actions@),
            Command::ReleaseActions => CommandView::ReleaseActions,
            Command::DismissAlert => CommandView::DismissAlert,
            Command::AcceptAlert => CommandView::AcceptAlert,
            Command::GetAlertText => CommandView::GetAlertText,
            Command::SendAlertText(typing) => CommandView::SendAlertText(typing@),
            Command::PrintPage(params) => CommandView::PrintPage(params@),
            Command::TakeScreenshot => CommandView::TakeScreenshot,
            Command::TakeElementScreenshot(element) => CommandView::TakeElementScreenshot(element@),
            Command::GetLogTypes => CommandView::GetLogTypes,
            Command::ExtensionCommand(command) => CommandView::ExtensionCommand(command@),
        }
    }

    /// The command for an extension command.
    pub fn extension<E: ExtensionCommand>(command: &E) -> (r: Command)
        ensures
            r@ == CommandView::ExtensionCommand(command.extension()),
    {
        Command::ExtensionCommand(
            ExtensionData {
                method: command.method(),
                endpoint: command.endpoint(),
                parameters: command.parameters_json(),
            },
        )
    }
}

/// An address within a session.
fn in_session(session_id: &SessionId, tail: &str) -> (r: String)
    ensures
        r@ == session_uri(session_id@, tail@),
{
    cat3("session/", session_id.as_str(), tail)
}

/// An address within an element of a session.
fn on_element(session_id: &SessionId, element_id: &ElementId, tail: &str) -> (r: String)
    ensures
        r@ == element_uri(session_id@, element_id@, tail@),
{
    cat5("session/", session_id.as_str(), "/element/", element_id.as_str(), tail)
}

/// The body of a request to type.
fn typing_value(typing: &TypingData) -> (r: JsonValue)
    ensures
        r@ == typing_json(typing@),
{
    let chars: Vec<char> = typing.as_vec();
    let ghost all = Seq::new(chars@.len(), |i: int| Json::Str(seq![text::char_at(chars@, i)]));
    let mut list: Vec<JsonValue> = Vec::new();
    let mut i: usize = 0;
    while i < chars.len()
        invariant
            i <= chars.len(),
            all == Seq::new(chars@.len(), |i: int| Json::Str(seq![text::char_at(chars@, i)])),
            json::items_view(list@) == all.take(i as int),
        decreases chars.len() - i,
    {
        let ghost before = list@;
        let mut one: String = String::new();
        one.push(chars[i]);
        assert(one@ == seq![chars@[i as int]]);
        let item: JsonValue = JsonValue::String(one);
        list.push(item);
        i = i + 1;
        proof {
            json::lemma_items_view_push(before, item);
            assert(all.take(i as int) == all.take(i as int - 1).push(item@));
        }
    }
    assert(all.take(chars.len() as int) == all);
    JsonValue::object2(
        "text",
        JsonValue::String(typing.to_text()),
        "value",
        JsonValue::Array(list),
    )
}

/// The values as a list.
fn values_array(values: &Vec<JsonValue>) -> (r: JsonValue)
    ensures
        r@ == Json::Arr(json::items_view(values@)),
{
    let mut list: Vec<JsonValue> = Vec::new();
    let mut i: usize = 0;
    while i < values.len()
        invariant
            i <= values.len(),
            json::items_view(list@) == json::items_view(values@.take(i as int)),
        decreases values.len() - i,
    {
        let ghost before = list@;
        let item: JsonValue = values[i].clone();
        list.push(item);
        i = i + 1;
        proof {
            json::lemma_items_view_push(before, item);
            assert(values@.take(i as int).drop_last() == values@.take(i as int - 1));
        }
    }
    assert(values@.take(values.len() as int) == values@);
    JsonValue::Array(list)
}

/// Trait for formatting a WebDriver command into a `RequestData` struct.
pub trait FormatRequestData: Sized {
    /// The request that the command is in a session.
    spec fn request_in(&self, session: Seq<char>) -> RequestView;

    /// Format the command into a `RequestData` struct.
    fn format_request(&self, session_id: &SessionId) -> (r: RequestData)
        ensures
            r@ == self.request_in(session_id@),
    ;
}

impl FormatRequestData for Command {
    open spec fn request_in(&self, session: Seq<char>) -> RequestView {
        self@.request(session)
    }

    fn format_request(&self, session_id: &SessionId) -> (r: RequestData) {
        match self.session_request(session_id) {
            Some(request) => return request,
            None => {},
        }
        match self.window_request(session_id) {
            Some(request) => return request,
            None => {},
        }
        match self.find_request(session_id) {
            Some(request) => return request,
            None => {},
        }
        match self.element_request(session_id) {
            Some(request) => return request,
            None => {},
        }
        match self.input_request(session_id) {
            Some(request) => return request,
            None => {},
        }
        self.document_request(session_id)
    }
}

impl CommandView {
    /// The commands about the session itself and its navigation.
    spec fn is_session(self) -> bool {
        match self {
            CommandView::NewSession(_, _) => true,
            CommandView::DeleteSession => true,
            CommandView::GetTimeouts => true,
            CommandView::SetTimeouts(_) => true,
            CommandView::NavigateTo(_) => true,
            CommandView::GetCurrentUrl => true,
            CommandView::Back => true,
            CommandView::Forward => true,
            CommandView::Refresh => true,
            CommandView::GetTitle => true,
            CommandView::ExtensionCommand(_) => true,
            _ => false,
        }
    }

    /// The commands about windows and frames.
    spec fn is_window(self) -> bool {
        match self {
            CommandView::GetWindowHandle => true,
            CommandView::CloseWindow => true,
            CommandView::SwitchToWindow(_) => true,
            CommandView::GetWindowHandles => true,
            CommandView::NewWindow => true,
            CommandView::NewTab => true,
            CommandView::SwitchToFrameDefault => true,
            CommandView::SwitchToFrameNumber(_) => true,
            CommandView::SwitchToFrameElement(_) => true,
            CommandView::SwitchToParentFrame => true,
            CommandView::GetWindowRect => true,
            CommandView::SetWindowRect(_) => true,
            CommandView::MaximizeWindow => true,
            CommandView::MinimizeWindow => true,
            CommandView::FullscreenWindow => true,
            _ => false,
        }
    }

    /// The commands that look for elements.
    spec fn is_find(self) -> bool {
        match self {
            CommandView::GetActiveElement => true,
            CommandView::FindElement(_) => true,
            CommandView::FindElements(_) => true,
            CommandView::FindElementFromElement(_, _) => true,
            CommandView::FindElementsFromElement(_, _) => true,
            _ => false,
        }
    }

    /// The commands that read an element.
    spec fn is_element(self) -> bool {
        match self {
            CommandView::IsElementSelected(_) => true,
            CommandView::IsElementDisplayed(_) => true,
            CommandView::GetElementAttribute(_, _) => true,
            CommandView::GetElementProperty(_, _) => true,
            CommandView::GetElementCssValue(_, _) => true,
            CommandView::GetElementText(_) => true,
            CommandView::GetElementTagName(_) => true,
            CommandView::GetElementRect(_) => true,
            CommandView::IsElementEnabled(_) => true,
            CommandView::TakeElementScreenshot(_) => true,
            _ => false,
        }
    }

    /// The commands of input: to elements, by actions and to alerts.
    spec fn is_input(self) -> bool {
        match self {
            CommandView::ElementClick(_) => true,
            CommandView::ElementClear(_) => true,
            CommandView::ElementSendKeys(_, _) => true,
            CommandView::PerformActions(_) => true,
            CommandView::ReleaseActions => true,
            CommandView::DismissAlert => true,
            CommandView::AcceptAlert => true,
            CommandView::GetAlertText => true,
            CommandView::SendAlertText(_) => true,
            _ => false,
        }
    }
}

impl Command {
    /// The request for one of the commands about the session itself and its navigation.
    fn session_request(&self, session_id: &SessionId) -> (r: Option<RequestData>)
        ensures
            match r {
                Some(q) => q@ == self@.request(session_id@),
                None => !self@.is_session(),
            },
    {
        match self {
            Command::NewSession(w3c_caps, caps) => Some(RequestData::new(Method::POST, "session").add_body(JsonValue::object2("capabilities", w3c_caps.clone(), "desiredCapabilities", caps.clone()))),
            Command::DeleteSession => Some(RequestData::new(Method::DELETE, cat2("session/", session_id.as_str()))),
            Command::GetTimeouts => Some(RequestData::new(Method::GET, in_session(session_id, "/timeouts"))),
            Command::SetTimeouts(timeouts) => Some(RequestData::new(Method::POST, in_session(session_id, "/timeouts")).add_body(timeouts.to_json())),
            Command::NavigateTo(url) => Some(RequestData::new(Method::POST, in_session(session_id, "/url")).add_body(JsonValue::object1("url", JsonValue::text(url.as_str())))),
            Command::GetCurrentUrl => Some(RequestData::new(Method::GET, in_session(session_id, "/url"))),
            Command::Back => Some(RequestData::new(Method::POST, in_session(session_id, "/back")).add_body(JsonValue::empty_object())),
            Command::Forward => Some(RequestData::new(Method::POST, in_session(session_id, "/forward")).add_body(JsonValue::empty_object())),
            Command::Refresh => Some(RequestData::new(Method::POST, in_session(session_id, "/refresh")).add_body(JsonValue::empty_object())),
            Command::GetTitle => Some(RequestData::new(Method::GET, in_session(session_id, "/title"))),
            Command::ExtensionCommand(command) => {
                let request: RequestData = RequestData::new(
                    command.method,
                    in_session(session_id, command.endpoint.as_str()),
                );
                match &command.parameters {
                    Some(parameters) => Some(request.add_body(parameters.clone())),
                    None => Some(request),
                }
            },
            _ => None,
        }
    }

    /// The request for one of the commands about windows and frames.
    fn window_request(&self, session_id: &SessionId) -> (r: Option<RequestData>)
        ensures
            match r {
                Some(q) => q@ == self@.request(session_id@),
                None => !self@.is_window(),
            },
    {
        match self {
            Command::GetWindowHandle => Some(RequestData::new(Method::GET, in_session(session_id, "/window"))),
            Command::CloseWindow => Some(RequestData::new(Method::DELETE, in_session(session_id, "/window"))),
            Command::SwitchToWindow(handle) => Some(RequestData::new(Method::POST, in_session(session_id, "/window")).add_body(JsonValue::object1("handle", JsonValue::text(handle.as_str())))),
            Command::GetWindowHandles => Some(RequestData::new(Method::GET, in_session(session_id, "/window/handles"))),
            Command::NewWindow => Some(RequestData::new(Method::POST, in_session(session_id, "/window/new")).add_body(JsonValue::object1("type", JsonValue::text("window")))),
            Command::NewTab => Some(RequestData::new(Method::POST, in_session(session_id, "/window/new")).add_body(JsonValue::object1("type", JsonValue::text("tab")))),
            Command::SwitchToFrameDefault => Some(RequestData::new(Method::POST, in_session(session_id, "/frame")).add_body(JsonValue::object1("id", JsonValue::Null))),
            Command::SwitchToFrameNumber(number) => Some(RequestData::new(Method::POST, in_session(session_id, "/frame")).add_body(JsonValue::object1("id", JsonValue::Unsigned(*number as u64)))),
            Command::SwitchToFrameElement(element) => Some(RequestData::new(Method::POST, in_session(session_id, "/frame")).add_body(JsonValue::object1("id", JsonValue::object2("ELEMENT", JsonValue::text(element.as_str()), MAGIC_ELEMENTID, JsonValue::text(element.as_str()))))),
            Command::SwitchToParentFrame => Some(RequestData::new(Method::POST, in_session(session_id, "/frame/parent")).add_body(JsonValue::empty_object())),
            Command::GetWindowRect => Some(RequestData::new(Method::GET, in_session(session_id, "/window/rect"))),
            Command::SetWindowRect(rect) => Some(RequestData::new(Method::POST, in_session(session_id, "/window/rect")).add_body(rect.to_json())),
            Command::MaximizeWindow => Some(RequestData::new(Method::POST, in_session(session_id, "/window/maximize")).add_body(JsonValue::empty_object())),
            Command::MinimizeWindow => Some(RequestData::new(Method::POST, in_session(session_id, "/window/minimize")).add_body(JsonValue::empty_object())),
            Command::FullscreenWindow => Some(RequestData::new(Method::POST, in_session(session_id, "/window/fullscreen")).add_body(JsonValue::empty_object())),
            _ => None,
        }
    }

    /// The request for one of the commands that look for elements.
    fn find_request(&self, session_id: &SessionId) -> (r: Option<RequestData>)
        ensures
            match r {
                Some(q) => q@ == self@.request(session_id@),
                None => !self@.is_find(),
            },
    {
        match self {
            Command::GetActiveElement => Some(RequestData::new(Method::GET, in_session(session_id, "/element/active"))),
            Command::FindElement(selector) => Some(RequestData::new(Method::POST, in_session(session_id, "/element")).add_body(selector.to_json())),
            Command::FindElements(selector) => Some(RequestData::new(Method::POST, in_session(session_id, "/elements")).add_body(selector.to_json())),
            Command::FindElementFromElement(element, selector) => Some(RequestData::new(Method::POST, on_element(session_id, element, "/element")).add_body(selector.to_json())),
            Command::FindElementsFromElement(element, selector) => Some(RequestData::new(Method::POST, on_element(session_id, element, "/elements")).add_body(selector.to_json())),
            _ => None,
        }
    }

    /// The request for one of the commands that read an element.
    fn element_request(&self, session_id: &SessionId) -> (r: Option<RequestData>)
        ensures
            match r {
                Some(q) => q@ == self@.request(session_id@),
                None => !self@.is_element(),
            },
    {
        match self {
            Command::IsElementSelected(element) => Some(RequestData::new(Method::GET, on_element(session_id, element, "/selected"))),
            Command::IsElementDisplayed(element) => Some(RequestData::new(Method::GET, on_element(session_id, element, "/displayed"))),
            Command::GetElementAttribute(element, name) => Some(RequestData::new(Method::GET, on_element(session_id, element, cat2("/attribute/", name.as_str()).as_str()))),
            Command::GetElementProperty(element, name) => Some(RequestData::new(Method::GET, on_element(session_id, element, cat2("/property/", name.as_str()).as_str()))),
            Command::GetElementCssValue(element, name) => Some(RequestData::new(Method::GET, on_element(session_id, element, cat2("/css/", name.as_str()).as_str()))),
            Command::GetElementText(element) => Some(RequestData::new(Method::GET, on_element(session_id, element, "/text"))),
            Command::GetElementTagName(element) => Some(RequestData::new(Method::GET, on_element(session_id, element, "/name"))),
            Command::GetElementRect(element) => Some(RequestData::new(Method::GET, on_element(session_id, element, "/rect"))),
            Command::IsElementEnabled(element) => Some(RequestData::new(Method::GET, on_element(session_id, element, "/enabled"))),
            Command::TakeElementScreenshot(element) => Some(RequestData::new(Method::GET, on_element(session_id, element, "/screenshot"))),
            _ => None,
        }
    }

    /// The request for one of the commands of input: to elements, by actions and to alerts.
    fn input_request(&self, session_id: &SessionId) -> (r: Option<RequestData>)
        ensures
            match r {
                Some(q) => q@ == self@.request(session_id@),
                None => !self@.is_input(),
            },
    {
        match self {
            Command::ElementClick(element) => Some(RequestData::new(Method::POST, on_element(session_id, element, "/click")).add_body(JsonValue::empty_object())),
            Command::ElementClear(element) => Some(RequestData::new(Method::POST, on_element(session_id, element, "/clear")).add_body(JsonValue::empty_object())),
            Command::ElementSendKeys(element, typing) => Some(RequestData::new(Method::POST, on_element(session_id, element, "/value")).add_body(typing_value(typing))),
            Command::PerformActions(actions) => Some(RequestData::new(Method::POST, in_session(session_id, "/actions")).add_body(JsonValue::object1("actions", actions.value()))),
            Command::ReleaseActions => Some(RequestData::new(Method::DELETE, in_session(session_id, "/actions"))),
            Command::DismissAlert => Some(RequestData::new(Method::POST, in_session(session_id, "/alert/dismiss")).add_body(JsonValue::empty_object())),
            Command::AcceptAlert => Some(RequestData::new(Method::POST, in_session(session_id, "/alert/accept")).add_body(JsonValue::empty_object())),
            Command::GetAlertText => Some(RequestData::new(Method::GET, in_session(session_id, "/alert/text"))),
            Command::SendAlertText(typing) => Some(RequestData::new(Method::POST, in_session(session_id, "/alert/text")).add_body(typing_value(typing))),
            _ => None,
        }
    }

    /// The request for one of the commands about the document, and the status of the server.
    fn document_request(&self, session_id: &SessionId) -> (r: RequestData)
        requires
            !self@.is_session(),
            !self@.is_window(),
            !self@.is_find(),
            !self@.is_element(),
            !self@.is_input(),
        ensures
            r@ == self@.request(session_id@),
    {
        match self {
            Command::GetPageSource => RequestData::new(Method::GET, in_session(session_id, "/source")),
            Command::ExecuteScript(script, args) => RequestData::new(Method::POST, in_session(session_id, "/execute/sync")).add_body(JsonValue::object2("script", JsonValue::text(script.as_str()), "args", values_array(args))),
            Command::ExecuteAsyncScript(script, args) => RequestData::new(Method::POST, in_session(session_id, "/execute/async")).add_body(JsonValue::object2("script", JsonValue::text(script.as_str()), "args", values_array(args))),
            Command::GetAllCookies => RequestData::new(Method::GET, in_session(session_id, "/cookie")),
            Command::GetNamedCookie(name) => RequestData::new(Method::GET, in_session(session_id, cat2("/cookie/", name.as_str()).as_str())),
            Command::AddCookie(cookie) => RequestData::new(Method::POST, in_session(session_id, "/cookie")).add_body(JsonValue::object1("cookie", cookie.to_json())),
            Command::DeleteCookie(name) => RequestData::new(Method::DELETE, in_session(session_id, cat2("/cookie/", name.as_str()).as_str())),
            Command::DeleteAllCookies => RequestData::new(Method::DELETE, in_session(session_id, "/cookie")),
            Command::PrintPage(params) => RequestData::new(Method::POST, cat3("/session/", session_id.as_str(), "/print")).add_body(params.clone()),
            Command::TakeScreenshot => RequestData::new(Method::GET, in_session(session_id, "/screenshot")),
            Command::GetLogTypes => RequestData::new(Method::GET, in_session(session_id, "/log/types")),
            _ => RequestData::new(Method::GET, "/status"),
        }
    }
}

/// Every standard command reads with `GET` and without a body, deletes with `DELETE` and without
/// a body, or acts with `POST` and a body.
pub proof fn lemma_request_body(command: CommandView, session: Seq<char>)
    requires
        !(command is ExtensionCommand),
    ensures
        ({
            let r = command.request(session);
            &&& r.method == Method::GET || r.method == Method::POST || r.method == Method::DELETE
            &&& r.method == Method::POST <==> r.body is Some
        }),
{
}

/// Every command goes to the session that it is given, but for the start of a session and the
/// status of the server, which have none, and for printing, whose address begins at the root.
pub proof fn lemma_request_session(command: CommandView, session: Seq<char>)
    requires
        !(command is NewSession),
        !(command is Status),
        !(command is PrintPage),
    ensures
        ("session/"@ + session).is_prefix_of(command.request(session).uri),
{
    let start = "session/"@ + session;
    let uri = command.request(session).uri;
    assert(uri.take(start.len() as int) == start);
}

/// The start of a session and the status of the server do not depend on a session.
pub proof fn lemma_request_without_session(command: CommandView, a: Seq<char>, b: Seq<char>)
    requires
        command is NewSession || command is Status,
    ensures
        command.request(a) == command.request(b),
{
}

/// Every command on an element goes to that element: its id stands behind the session's in the
/// address.
pub proof fn lemma_request_element(command: CommandView, session: Seq<char>)
    ensures
        command.element() matches Some(element) ==> ("session/"@ + session + "/element/"@
            + element).is_prefix_of(command.request(session).uri),
{
    if let Some(element) = command.element() {
        let start = "session/"@ + session + "/element/"@ + element;
        let uri = command.request(session).uri;
        assert(uri.take(start.len() as int) == start);
    }
}

} // verus!
