//! The plain data of the protocol: ids, handles, rectangles and timeouts.
use crate::duration::Duration;
use crate::json;
use crate::json::{read_opt_u64, read_str, Json, JsonValue, Object};
use vstd::prelude::*;

verus! {

/// The W3C element identifier key.
pub const MAGIC_ELEMENTID: &'static str = "element-6066-11e4-a52e-4f735466cecf";

/// The key of a reference to a shadow root.
pub const MAGIC_SHADOWID: &'static str = "shadow-6066-11e4-a52e-4f735466cecf";

/// What can be turned into a string of its own.
pub trait IntoTransfer: Sized {
    /// The text that it is.
    spec fn text(&self) -> Seq<char>;

    /// The string with that text.
    fn into(self) -> (r: String)
        ensures
            r@ == self.text(),
    ;
}

impl IntoTransfer for &str {
    open spec fn text(&self) -> Seq<char> {
        self@
    }

    fn into(self) -> (r: String) {
        self.to_owned()
    }
}

impl IntoTransfer for String {
    open spec fn text(&self) -> Seq<char> {
        self@
    }

    fn into(self) -> (r: String) {
        self
    }
}

impl IntoTransfer for &String {
    open spec fn text(&self) -> Seq<char> {
        self@
    }

    fn into(self) -> (r: String) {
        self.clone()
    }
}

/// trait for turning a string into a cheaply cloneable and transferable String
pub trait IntoArcStr: IntoTransfer {

}

impl<T: IntoTransfer> IntoArcStr for T {

}

/// A reference to an element as the server gives it.
#[derive(Debug)]
pub enum ElementRef {
    /// Reference for a regular element.
    Element {
        /// Element id, as returned by the webdriver.
        id: String,
    },
    /// Reference for a shadow element.
    ShadowElement {
        /// Element id, as returned by the webdriver.
        id: String,
    },
}

/// What a reference to an element stands for.
pub enum ElementRefView {
    Element(Seq<char>),
    ShadowElement(Seq<char>),
}

impl ElementRefView {
    /// The element id.
    pub open spec fn id(self) -> Seq<char> {
        match self {
            ElementRefView::Element(id) => id,
            ElementRefView::ShadowElement(id) => id,
        }
    }
}

/// The reference that a JSON value is read as: that to an element where the value has a text
/// under the key for elements, and else that to a shadow root.
pub open spec fn element_ref_of(v: Json) -> Option<ElementRefView> {
    match json::str_field(json::member(v, MAGIC_ELEMENTID@)) {
        Some(id) => Some(ElementRefView::Element(id)),
        None => match json::str_field(json::member(v, MAGIC_SHADOWID@)) {
            Some(id) => Some(ElementRefView::ShadowElement(id)),
            None => None,
        },
    }
}

/// The JSON value for a reference to an element.
pub open spec fn json_of_element_ref(r: ElementRefView) -> Json {
    match r {
        ElementRefView::Element(id) => json::obj1(MAGIC_ELEMENTID@, Json::Str(id)),
        ElementRefView::ShadowElement(id) => json::obj1(MAGIC_SHADOWID@, Json::Str(id)),
    }
}

impl ElementRef {
    /// What this reference stands for.
    pub open spec fn view(&self) -> ElementRefView {
        match self {
            ElementRef::Element { id } => ElementRefView::Element(id@),
            ElementRef::ShadowElement { id } => ElementRefView::ShadowElement(id@),
        }
    }

    /// The element id, as returned by the webdriver.
    pub fn id(&self) -> (r: &str)
        ensures
            r@ == self@.id(),
    {
        match self {
            ElementRef::Element { id } => id.as_str(),
            ElementRef::ShadowElement { id } => id.as_str(),
        }
    }

    /// The reference that a JSON value is read as, where it is one.
    pub fn from_json(v: &JsonValue) -> (r: Option<ElementRef>)
        ensures
            match r {
                Some(e) => element_ref_of(v@) == Some(e@),
                None => element_ref_of(v@) is None,
            },
    {
        match read_str(v.get(MAGIC_ELEMENTID)) {
            Some(id) => Some(ElementRef::Element { id }),
            None => match read_str(v.get(MAGIC_SHADOWID)) {
                Some(id) => Some(ElementRef::ShadowElement { id }),
                None => None,
            },
        }
    }

    /// The JSON value for this reference.
    pub fn to_json(&self) -> (r: JsonValue)
        ensures
            r@ == json_of_element_ref(self@),
    {
        match self {
            ElementRef::Element { id } => JsonValue::object1(
                MAGIC_ELEMENTID,
                JsonValue::text(id.as_str()),
            ),
            ElementRef::ShadowElement { id } => JsonValue::object1(
                MAGIC_SHADOWID,
                JsonValue::text(id.as_str()),
            ),
        }
    }
}

/// A reference that is written as JSON is read back as the same reference.
pub proof fn lemma_element_ref_round_trip(r: ElementRefView)
    ensures
        element_ref_of(json_of_element_ref(r)) == Some(r),
{
    reveal_strlit("element-6066-11e4-a52e-4f735466cecf");
    reveal_strlit("shadow-6066-11e4-a52e-4f735466cecf");
    assert(MAGIC_ELEMENTID@[0] != MAGIC_SHADOWID@[0]);
}

/// Newtype for the session id.
#[derive(Debug)]
pub struct SessionId {
    id: String,
}

impl SessionId {
    /// The text of the id.
    pub closed spec fn view(&self) -> Seq<char> {
        self.id@
    }

    /// The session with that id.
    pub fn from<S: IntoArcStr>(value: S) -> (r: SessionId)
        ensures
            r@ == value.text(),
    {
        SessionId { id: IntoTransfer::into(value) }
    }

    /// Create a placeholder SessionId for cases where it's not used.
    ///
    /// E.g., session creation.
    pub fn null() -> (r: SessionId)
        ensures
            r@ == Seq::<char>::empty(),
    {
        SessionId { id: String::new() }
    }

    /// The text of the id.
    pub fn as_str(&self) -> (r: &str)
        ensures
            r@ == self@,
    {
        self.id.as_str()
    }
}

impl Clone for SessionId {
    fn clone(&self) -> (r: Self)
        ensures
            r == *self,
            r@ == self@,
    {
        SessionId { id: self.id.clone() }
    }
}

/// New-type for the element id.
#[derive(Debug)]
pub struct ElementId {
    id: String,
}

impl ElementId {
    /// The text of the id.
    pub closed spec fn view(&self) -> Seq<char> {
        self.id@
    }

    /// The element with that id.
    pub fn from<S: IntoArcStr>(value: S) -> (r: ElementId)
        ensures
            r@ == value.text(),
    {
        ElementId { id: IntoTransfer::into(value) }
    }

    /// The text of the id.
    pub fn as_str(&self) -> (r: &str)
        ensures
            r@ == self@,
    {
        self.id.as_str()
    }
}

impl Clone for ElementId {
    fn clone(&self) -> (r: Self)
        ensures
            r == *self,
            r@ == self@,
    {
        ElementId { id: self.id.clone() }
    }
}

/// New-type for the window handle.
#[derive(Debug)]
pub struct WindowHandle {
    handle: String,
}

/// The window handle that a JSON value is read as, where it is one.
pub open spec fn window_handle_of(v: Json) -> Option<Seq<char>> {
    if json::is_record(v, 1) {
        json::str_field(json::field(v, 0, "handle"@))
    } else {
        None
    }
}

impl WindowHandle {
    /// The text of the handle.
    pub closed spec fn view(&self) -> Seq<char> {
        self.handle@
    }

    /// The window with that handle.
    pub fn from<S: IntoArcStr>(value: S) -> (r: WindowHandle)
        ensures
            r@ == value.text(),
    {
        WindowHandle { handle: IntoTransfer::into(value) }
    }

    /// The window handle that a JSON value is read as, where it is one.
    pub fn from_json(v: &JsonValue) -> (r: Option<WindowHandle>)
        ensures
            match r {
                Some(h) => window_handle_of(v@) == Some(h@),
                None => window_handle_of(v@) is None,
            },
    {
        if !v.is_record(1) {
            return None;
        }
        match read_str(v.field(0, "handle")) {
            Some(handle) => Some(WindowHandle { handle }),
            None => None,
        }
    }

    /// The text of the handle.
    pub fn as_str(&self) -> (r: &str)
        ensures
            r@ == self@,
    {
        self.handle.as_str()
    }

    /// Whether two handles are those of the same window.
    pub fn same_as(&self, other: &WindowHandle) -> (r: bool)
        ensures
            r == (self@ == other@),
    {
        crate::text::text_eq(self.handle.as_str(), other.handle.as_str())
    }
}

impl Clone for WindowHandle {
    fn clone(&self) -> (r: Self)
        ensures
            r == *self,
            r@ == self@,
    {
        WindowHandle { handle: self.handle.clone() }
    }
}

/// The window type. The webdriver spec treats tabs and windows as windows.
#[derive(Debug, Clone, Copy, PartialEq, Eq, Structural)]
pub enum WindowType {
    /// A browser tab.
    Tab,
    /// A browser window.
    Window,
}

impl WindowType {
    /// The name of the window type.
    pub open spec fn name(self) -> Seq<char> {
        match self {
            WindowType::Tab => "tab"@,
            WindowType::Window => "window"@,
        }
    }

    /// The name of the window type.
    pub fn to_text(&self) -> (r: String)
        ensures
            r@ == self.name(),
    {
        match self {
            WindowType::Tab => "tab".to_owned(),
            WindowType::Window => "window".to_owned(),
        }
    }
}

/// Rectangle position and dimensions.
#[derive(Debug, Clone, Copy, PartialEq, Eq, Structural)]
pub struct Rect {
    /// The x coordinate of the top-left corner.
    pub x: i64,
    /// The y coordinate of the top-left corner.
    pub y: i64,
    /// The rectangle width.
    pub width: i64,
    /// The rectangle height.
    pub height: i64,
}

/// A field that holds a number of 64 bits with a sign.
pub open spec fn i64_field(v: Option<Json>) -> Option<int> {
    match v {
        Some(Json::Int(n)) => if i64::MIN <= n <= i64::MAX {
            Some(n)
        } else {
            None
        },
        _ => None,
    }
}

/// The rectangle that a JSON value is read as, where it is one.
pub open spec fn rect_of(v: Json) -> Option<Rect> {
    let x = i64_field(json::field(v, 0, "x"@));
    let y = i64_field(json::field(v, 1, "y"@));
    let width = i64_field(json::field(v, 2, "width"@));
    let height = i64_field(json::field(v, 3, "height"@));
    if json::is_record(v, 4) && x is Some && y is Some && width is Some && height is Some {
        Some(
            Rect {
                x: x->0 as i64,
                y: y->0 as i64,
                width: width->0 as i64,
                height: height->0 as i64,
            },
        )
    } else {
        None
    }
}

/// A field that holds a number of 64 bits with a sign.
fn read_i64(v: Option<&JsonValue>) -> (r: Option<i64>)
    ensures
        match r {
            Some(n) => i64_field(json::opt_ref_view(v)) == Some(n as int),
            None => i64_field(json::opt_ref_view(v)) is None,
        },
{
    match v {
        Some(v) => v.as_i64(),
        None => None,
    }
}

impl Rect {
    /// Create a new `Rect`.
    pub fn new(x: i64, y: i64, width: i64, height: i64) -> (r: Self)
        ensures
            r == (Rect { x, y, width, height }),
    {
        Rect { x, y, width, height }
    }

    /// The rectangle that a JSON value is read as, where it is one.
    pub fn from_json(v: &JsonValue) -> (r: Option<Rect>)
        ensures
            r == rect_of(v@),
    {
        if !v.is_record(4) {
            return None;
        }
        let x: Option<i64> = read_i64(v.field(0, "x"));
        let y: Option<i64> = read_i64(v.field(1, "y"));
        let width: Option<i64> = read_i64(v.field(2, "width"));
        let height: Option<i64> = read_i64(v.field(3, "height"));
        match (x, y, width, height) {
            (Some(x), Some(y), Some(width), Some(height)) => Some(Rect { x, y, width, height }),
            _ => None,
        }
    }
}

/// Rect struct with optional fields.
#[derive(Debug, Clone, Copy)]
pub struct OptionRect {
    /// The x coordinate of the top-left corner.
    pub x: Option<i64>,
    /// The y coordinate of the top-left corner.
    pub y: Option<i64>,
    /// The rectangle width.
    pub width: Option<i64>,
    /// The rectangle height.
    pub height: Option<i64>,
}

/// A number, or `null`.
pub open spec fn opt_i64_json(n: Option<i64>) -> Json {
    match n {
        Some(n) => Json::Int(n as int),
        None => Json::Null,
    }
}

/// A number, or `null`.
fn opt_i64_value(n: Option<i64>) -> (r: JsonValue)
    ensures
        r@ == opt_i64_json(n),
{
    match n {
        Some(n) => JsonValue::Signed(n),
        None => JsonValue::Null,
    }
}

impl OptionRect {
    /// What this rectangle is in a request: each part, or `null` where it is not given.
    pub open spec fn json(self) -> Json {
        Json::Obj(
            Map::empty().insert("x"@, opt_i64_json(self.x)).insert("y"@, opt_i64_json(self.y)).insert(
                "width"@,
                opt_i64_json(self.width),
            ).insert("height"@, opt_i64_json(self.height)),
        )
    }

    /// Create a new `OptionRect`.
    pub fn new() -> (r: Self)
        ensures
            r == (OptionRect { x: None, y: None, width: None, height: None }),
    {
        OptionRect { x: None, y: None, width: None, height: None }
    }

    /// Set the x coordinate of the top-left corner.
    pub fn with_x(self, value: i64) -> (r: Self)
        ensures
            r == (OptionRect { x: Some(value), ..self }),
    {
        OptionRect { x: Some(value), ..self }
    }

    /// Set the y coordinate of the top-left corner.
    pub fn with_y(self, value: i64) -> (r: Self)
        ensures
            r == (OptionRect { y: Some(value), ..self }),
    {
        OptionRect { y: Some(value), ..self }
    }

    /// Set the rectangle width.
    pub fn with_width(self, value: i64) -> (r: Self)
        ensures
            r == (OptionRect { width: Some(value), ..self }),
    {
        OptionRect { width: Some(value), ..self }
    }

    /// Set the rectangle height.
    pub fn with_height(self, value: i64) -> (r: Self)
        ensures
            r == (OptionRect { height: Some(value), ..self }),
    {
        OptionRect { height: Some(value), ..self }
    }

    /// Set the rectangle position.
    pub fn with_pos(self, x: i64, y: i64) -> (r: Self)
        ensures
            r == (OptionRect { x: Some(x), y: Some(y), ..self }),
    {
        OptionRect { x: Some(x), y: Some(y), ..self }
    }

    /// Set the rectangle size.
    pub fn with_size(self, width: i64, height: i64) -> (r: Self)
        ensures
            r == (OptionRect { width: Some(width), height: Some(height), ..self }),
    {
        OptionRect { width: Some(width), height: Some(height), ..self }
    }

    /// What this rectangle is in a request.
    pub fn to_json(&self) -> (r: JsonValue)
        ensures
            r@ == self.json(),
    {
        let mut o: Object = Object::new();
        o.push("x", opt_i64_value(self.x));
        o.push("y", opt_i64_value(self.y));
        o.push("width", opt_i64_value(self.width));
        o.push("height", opt_i64_value(self.height));
        JsonValue::Object(o)
    }
}

/// All parts of a rectangle.
pub open spec fn all_of(rect: Rect) -> OptionRect {
    OptionRect {
        x: Some(rect.x),
        y: Some(rect.y),
        width: Some(rect.width),
        height: Some(rect.height),
    }
}

impl vstd::std_specs::convert::FromSpecImpl<Rect> for OptionRect {
    open spec fn obeys_from_spec() -> bool {
        true
    }

    open spec fn from_spec(value: Rect) -> OptionRect {
        all_of(value)
    }
}

impl From<Rect> for OptionRect {
    fn from(value: Rect) -> (r: Self) {
        OptionRect {
            x: Some(value.x),
            y: Some(value.y),
            width: Some(value.width),
            height: Some(value.height),
        }
    }
}

/// A rectangle that is sent whole is, where the server sends it back, read as the same rectangle.
pub proof fn lemma_rect_round_trip(rect: Rect)
    ensures
        rect_of(all_of(rect).json()) == Some(rect),
{
    reveal_strlit("x");
    reveal_strlit("y");
    reveal_strlit("width");
    reveal_strlit("height");
    assert("x"@[0] == 'x');
    assert("y"@[0] == 'y');
    assert("width"@[0] == 'w');
    assert("height"@[0] == 'h');
}

/// The timeout configuration, in milliseconds.
#[derive(Debug, Clone, Copy)]
pub struct TimeoutConfiguration {
    script: Option<u64>,
    page_load: Option<u64>,
    implicit: Option<u64>,
}

/// What a timeout configuration stands for: the milliseconds of each timeout that is set.
pub struct TimeoutsView {
    pub script: Option<u64>,
    pub page_load: Option<u64>,
    pub implicit: Option<u64>,
}

/// The milliseconds of a span, as a number of 64 bits: from the 65th bit on they are lost.
pub open spec fn millis_u64(d: Duration) -> u64 {
    ((d@ / 1_000_000) % 0x1_0000_0000_0000_0000) as u64
}

/// The milliseconds of an optional span.
pub open spec fn opt_millis(d: Option<Duration>) -> Option<u64> {
    match d {
        Some(d) => Some(millis_u64(d)),
        None => None,
    }
}

/// An optional number as JSON.
pub open spec fn opt_u64_json(n: Option<u64>) -> Option<Json> {
    match n {
        Some(n) => Some(Json::Int(n as int)),
        None => None,
    }
}

impl TimeoutsView {
    /// What the timeouts are in a request: those that are set.
    pub open spec fn json(self) -> Json {
        Json::Obj(
            json::with_member(
                json::with_member(
                    json::with_member(Map::empty(), "script"@, opt_u64_json(self.script)),
                    "pageLoad"@,
                    opt_u64_json(self.page_load),
                ),
                "implicit"@,
                opt_u64_json(self.implicit),
            ),
        )
    }
}

/// A field for an optional number of 64 bits.
pub open spec fn opt_u64_field(v: Option<Json>) -> Option<Option<u64>> {
    match json::opt_int_field(v, 0, u64::MAX as int) {
        Some(Some(n)) => Some(Some(n as u64)),
        Some(None) => Some(None),
        None => None,
    }
}

/// The timeouts that a JSON value is read as, where it is a configuration.
pub open spec fn timeouts_of(v: Json) -> Option<TimeoutsView> {
    let script = opt_u64_field(json::field(v, 0, "script"@));
    let page_load = opt_u64_field(json::field(v, 1, "pageLoad"@));
    let implicit = opt_u64_field(json::field(v, 2, "implicit"@));
    if json::is_record(v, 3) && script is Some && page_load is Some && implicit is Some {
        Some(TimeoutsView { script: script->0, page_load: page_load->0, implicit: implicit->0 })
    } else {
        None
    }
}

/// The milliseconds of a span, as a number of 64 bits.
fn as_millis_u64(d: Duration) -> (r: u64)
    ensures
        r == millis_u64(d),
{
    let millis: u128 = d.as_millis();
    let low: u128 = millis % 0x1_0000_0000_0000_0000;
    low as u64
}

/// The milliseconds of an optional span.
fn opt_as_millis(d: Option<Duration>) -> (r: Option<u64>)
    ensures
        r == opt_millis(d),
{
    match d {
        Some(d) => Some(as_millis_u64(d)),
        None => None,
    }
}

/// The span of an optional number of milliseconds.
fn opt_from_millis(n: Option<u64>) -> (r: Option<Duration>)
    ensures
        match (r, n) {
            (Some(d), Some(n)) => d@ == n * 1_000_000,
            (None, None) => true,
            _ => false,
        },
{
    match n {
        Some(n) => Some(Duration::from_millis(n)),
        None => None,
    }
}

/// An optional number as JSON.
fn opt_u64_value(n: Option<u64>) -> (r: Option<JsonValue>)
    ensures
        json::opt_view(r) == opt_u64_json(n),
{
    match n {
        Some(n) => Some(JsonValue::Unsigned(n)),
        None => None,
    }
}

/// Whether an optional span is that of an optional number of milliseconds.
pub open spec fn is_millis(d: Option<Duration>, n: Option<u64>) -> bool {
    match (d, n) {
        (Some(d), Some(n)) => d@ == n * 1_000_000,
        (None, None) => true,
        _ => false,
    }
}

impl TimeoutConfiguration {
    /// What this configuration stands for.
    pub closed spec fn view(&self) -> TimeoutsView {
        TimeoutsView { script: self.script, page_load: self.page_load, implicit: self.implicit }
    }

    /// Create a new `TimeoutConfiguration`.
    pub fn new(
        script: Option<Duration>,
        page_load: Option<Duration>,
        implicit: Option<Duration>,
    ) -> (r: Self)
        ensures
            r@ == (TimeoutsView {
                script: opt_millis(script),
                page_load: opt_millis(page_load),
                implicit: opt_millis(implicit),
            }),
    {
        TimeoutConfiguration {
            script: opt_as_millis(script),
            page_load: opt_as_millis(page_load),
            implicit: opt_as_millis(implicit),
        }
    }

    /// Get the script timeout, if set.
    pub fn script(&self) -> (r: Option<Duration>)
        ensures
            is_millis(r, self@.script),
    {
        opt_from_millis(self.script)
    }

    /// Set the script timeout.
    pub fn set_script(&mut self, timeout: Option<Duration>)
        ensures
            final(self)@ == (TimeoutsView { script: opt_millis(timeout), ..old(self)@ }),
    {
        self.script = opt_as_millis(timeout);
    }

    /// Get the page load timeout, if set.
    pub fn page_load(&self) -> (r: Option<Duration>)
        ensures
            is_millis(r, self@.page_load),
    {
        opt_from_millis(self.page_load)
    }

    /// Set the page load timeout.
    pub fn set_page_load(&mut self, timeout: Option<Duration>)
        ensures
            final(self)@ == (TimeoutsView { page_load: opt_millis(timeout), ..old(self)@ }),
    {
        self.page_load = opt_as_millis(timeout);
    }

    /// Get the implicit wait timeout, if set.
    pub fn implicit(&self) -> (r: Option<Duration>)
        ensures
            is_millis(r, self@.implicit),
    {
        opt_from_millis(self.implicit)
    }

    /// Set the implicit wait timeout.
    pub fn set_implicit(&mut self, timeout: Option<Duration>)
        ensures
            final(self)@ == (TimeoutsView { implicit: opt_millis(timeout), ..old(self)@ }),
    {
        self.implicit = opt_as_millis(timeout);
    }

    /// What the timeouts are in a request: those that are set.
    pub fn to_json(&self) -> (r: JsonValue)
        ensures
            r@ == self@.json(),
    {
        let mut o: Object = Object::new();
        o.insert_some("script", opt_u64_value(self.script));
        o.insert_some("pageLoad", opt_u64_value(self.page_load));
        o.insert_some("implicit", opt_u64_value(self.implicit));
        JsonValue::Object(o)
    }

    /// The timeouts that a JSON value is read as, where it is a configuration.
    pub fn from_json(v: &JsonValue) -> (r: Option<TimeoutConfiguration>)
        ensures
            match r {
                Some(t) => timeouts_of(v@) == Some(t@),
                None => timeouts_of(v@) is None,
            },
    {
        if !v.is_record(3) {
            return None;
        }
        let script: Option<Option<u64>> = read_opt_u64(v.field(0, "script"));
        let page_load: Option<Option<u64>> = read_opt_u64(v.field(1, "pageLoad"));
        let implicit: Option<Option<u64>> = read_opt_u64(v.field(2, "implicit"));
        match (script, page_load, implicit) {
            (Some(script), Some(page_load), Some(implicit)) => Some(
                TimeoutConfiguration { script, page_load, implicit },
            ),
            _ => None,
        }
    }
}

impl Default for TimeoutConfiguration {
    /// A minute for scripts and pages. The implicit wait must default to zero to support
    /// element queries.
    fn default() -> (r: Self)
        ensures
            r@ == (TimeoutsView { script: Some(60_000), page_load: Some(60_000), implicit: Some(0) }),
    {
        TimeoutConfiguration::new(
            Some(Duration::from_secs(60)),
            Some(Duration::from_secs(60)),
            Some(Duration::from_secs(0)),
        )
    }
}

/// Timeouts that are sent are, where the server sends them back, read as the same timeouts.
pub proof fn lemma_timeouts_round_trip(t: TimeoutsView)
    ensures
        timeouts_of(t.json()) == Some(t),
{
    reveal_strlit("script");
    reveal_strlit("pageLoad");
    reveal_strlit("implicit");
    assert("script"@[0] == 's');
    assert("pageLoad"@[0] == 'p');
    assert("implicit"@[0] == 'i');
}

/// A timeout of whole milliseconds that is set is the timeout that is got.
pub proof fn lemma_timeout_get_set(set: Duration, got: Duration)
    requires
        set@ % 1_000_000 == 0,
        set@ / 1_000_000 < 0x1_0000_0000_0000_0000,
        is_millis(Some(got), opt_millis(Some(set))),
    ensures
        got@ == set@,
{
}

/// The WebDriver status.
#[derive(Debug)]
pub struct WebDriverStatus {
    /// Whether the webdriver is ready to accept new sessions.
    pub ready: bool,
    /// The current status message.
    pub message: String,
}

/// The status that a JSON value is read as, where it is one: readiness and message.
pub open spec fn status_of(v: Json) -> Option<(bool, Seq<char>)> {
    let message = json::str_field(json::field(v, 1, "message"@));
    match json::field(v, 0, "ready"@) {
        Some(Json::Bool(ready)) => if json::is_record(v, 2) && message is Some {
            Some((ready, message->0))
        } else {
            None
        },
        _ => None,
    }
}

impl WebDriverStatus {
    /// What this status stands for.
    pub open spec fn view(&self) -> (bool, Seq<char>) {
        (self.ready, self.message@)
    }

    /// The status that a JSON value is read as, where it is one.
    pub fn from_json(v: &JsonValue) -> (r: Option<WebDriverStatus>)
        ensures
            match r {
                Some(s) => status_of(v@) == Some(s@),
                None => status_of(v@) is None,
            },
    {
        if !v.is_record(2) {
            return None;
        }
        let ready: bool = match v.field(0, "ready") {
            Some(b) => match b.as_bool() {
                Some(b) => b,
                None => return None,
            },
            None => return None,
        };
        match read_str(v.field(1, "message")) {
            Some(message) => Some(WebDriverStatus { ready, message }),
            None => None,
        }
    }
}

} // verus!
