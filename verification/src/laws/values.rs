//! How values are written and read.
use vstd::prelude::*;

use crate::address::ServerUrl;
use crate::address;
use crate::capabilities::{LogLevel, PageLoadStrategy};
use crate::cdp::{ChromeCommand, ConnectionType, NetworkConditions};
use crate::cookie::{Cookie, SameSite};
use crate::duration::Duration;
use crate::error::{WebDriverError, WebDriverErrorInner, WebDriverResult};
use crate::http;
use crate::json::{Json, JsonValue};
use crate::print::{PrintOrientation, PrintPageRange};
use crate::reply;
use crate::request::Method;
use crate::types::{
    ElementId, ElementRef, IntoArcStr, IntoTransfer, OptionRect, Rect, SessionId,
    TimeoutConfiguration, WebDriverStatus, WindowHandle, WindowType,
};

verus! {

/// A part of a record: by its name in an object, and by its place in a list.
pub open spec fn field(v: Json, place: int, name: Seq<char>) -> Option<Json> {
    match v {
        Json::Obj(members) => if members.contains_key(name) {
            Some(members[name])
        } else {
            None
        },
        Json::Arr(items) => if 0 <= place < items.len() {
            Some(items[place])
        } else {
            None
        },
        _ => None,
    }
}

/// A record of `n` parts: an object, or a list that is as long.
pub open spec fn record(v: Json, n: nat) -> bool {
    v is Obj || (v matches Json::Arr(items) && items.len() == n)
}

/// A whole number that fits in 64 bits with a sign.
pub open spec fn whole(v: Option<Json>) -> bool {
    v matches Some(Json::Int(n)) && -0x8000_0000_0000_0000 <= n <= 0x7fff_ffff_ffff_ffff
}

/// A rectangle is read where all its parts are whole numbers, each from its own name.
pub open spec fn rect_valid(v: Json) -> bool {
    record(v, 4) && whole(field(v, 0, "x"@)) && whole(field(v, 1, "y"@)) && whole(
        field(v, 2, "width"@),
    ) && whole(field(v, 3, "height"@))
}

/// The rectangle that a value holds.
pub open spec fn rect_reads(v: Json, r: Rect) -> bool {
    field(v, 0, "x"@) == Some(Json::Int(r.x as int)) && field(v, 1, "y"@) == Some(
        Json::Int(r.y as int),
    ) && field(v, 2, "width"@) == Some(Json::Int(r.width as int)) && field(v, 3, "height"@) == Some(
        Json::Int(r.height as int),
    )
}

/// A rectangle is read from the names of its parts.
pub proof fn law_rect_is_read(v: &JsonValue, r: Option<Rect>)
    requires
        call_ensures(Rect::from_json, (v,), r),
    ensures
        r is Some <==> rect_valid(v@),
        r matches Some(rect) ==> rect_reads(v@, rect),
{
}

/// A rectangle is made of its corner and its size, and is where all of it is given.
pub proof fn law_rect(x: i64, y: i64, width: i64, height: i64, r: Rect, o: OptionRect)
    requires
        call_ensures(Rect::new, (x, y, width, height), r),
        call_ensures(<OptionRect as From<Rect>>::from, (r,), o),
    ensures
        r.x == x && r.y == y && r.width == width && r.height == height,
        o.x == Some(x) && o.y == Some(y) && o.width == Some(width) && o.height == Some(height),
{
}

/// Each part of a rectangle is set by its own call, which leaves the others.
pub proof fn law_rect_parts(o: OptionRect, a: i64, b: i64)
    ensures
        forall|r: OptionRect| #[trigger] call_ensures(OptionRect::new, (), r) ==> r.x is None && r.y
            is None && r.width is None && r.height is None,
        forall|r: OptionRect| #[trigger] call_ensures(OptionRect::with_x, (o, a), r) ==> r == (
        OptionRect { x: Some(a), y: o.y, width: o.width, height: o.height }),
        forall|r: OptionRect| #[trigger] call_ensures(OptionRect::with_y, (o, a), r) ==> r == (
        OptionRect { x: o.x, y: Some(a), width: o.width, height: o.height }),
        forall|r: OptionRect| #[trigger] call_ensures(OptionRect::with_width, (o, a), r) ==> r == (
        OptionRect { x: o.x, y: o.y, width: Some(a), height: o.height }),
        forall|r: OptionRect| #[trigger] call_ensures(OptionRect::with_height, (o, a), r) ==> r == (
        OptionRect { x: o.x, y: o.y, width: o.width, height: Some(a) }),
        forall|r: OptionRect| #[trigger] call_ensures(OptionRect::with_pos, (o, a, b), r) ==> r == (
        OptionRect { x: Some(a), y: Some(b), width: o.width, height: o.height }),
        forall|r: OptionRect| #[trigger] call_ensures(OptionRect::with_size, (o, a, b), r) ==> r
            == (OptionRect { x: o.x, y: o.y, width: Some(a), height: Some(b) }),
{
}

/// What stands for a number that may be missing: the number, or null.
pub open spec fn number_or_null(n: Option<i64>) -> Json {
    match n {
        Some(n) => Json::Int(n as int),
        None => Json::Null,
    }
}

/// A rectangle is written under the names of its parts, a missing part as null.
pub proof fn law_rect_is_written(o: &OptionRect, r: JsonValue)
    requires
        call_ensures(OptionRect::to_json, (o,), r),
    ensures
        r@ == Json::Obj(
            map![
                "x"@ => number_or_null(o.x),
                "y"@ => number_or_null(o.y),
                "width"@ => number_or_null(o.width),
                "height"@ => number_or_null(o.height),
            ],
        ),
{
    assert(r@->Obj_0 =~= map![
        "x"@ => number_or_null(o.x),
        "y"@ => number_or_null(o.y),
        "width"@ => number_or_null(o.width),
        "height"@ => number_or_null(o.height),
    ]);
}

proof fn lemma_timeout_names()
    ensures
        "script"@ != "pageLoad"@,
        "script"@ != "implicit"@,
        "pageLoad"@ != "implicit"@,
{
    reveal_strlit("script");
    reveal_strlit("pageLoad");
    reveal_strlit("implicit");
    assert("script"@.len() != "pageLoad"@.len());
    assert("script"@.len() != "implicit"@.len());
    assert("pageLoad"@[0] != "implicit"@[0]);
}

/// Whole milliseconds of a span of time, as far as 64 bits hold them.
pub open spec fn millis(d: Duration) -> int {
    (d@ as int / 1_000_000) % 0x1_0000_0000_0000_0000
}

/// A timeout stands under its name in milliseconds where it is set, and nothing where it is not.
pub open spec fn timeout_at(v: Json, name: Seq<char>, d: Option<Duration>) -> bool {
    v matches Json::Obj(m) && match d {
        Some(d) => m.contains_key(name) && m[name] == Json::Int(millis(d)),
        None => !m.contains_key(name),
    }
}

/// New timeouts are written each under its own name, and nothing else is.
pub proof fn law_new_timeouts(
    script: Option<Duration>,
    page_load: Option<Duration>,
    implicit: Option<Duration>,
    t: TimeoutConfiguration,
    j: JsonValue,
)
    requires
        call_ensures(TimeoutConfiguration::new, (script, page_load, implicit), t),
        call_ensures(TimeoutConfiguration::to_json, (&t,), j),
    ensures
        timeout_at(j@, "script"@, script),
        timeout_at(j@, "pageLoad"@, page_load),
        timeout_at(j@, "implicit"@, implicit),
        j@ matches Json::Obj(m) && forall|k: Seq<char>| #[trigger]
            m.contains_key(k) ==> k == "script"@ || k == "pageLoad"@ || k == "implicit"@,
{
    lemma_timeout_names();
}

/// A span of `n` milliseconds, where there is one.
pub open spec fn lasts(d: Option<Duration>, n: Option<u64>) -> bool {
    match (d, n) {
        (Some(d), Some(n)) => d@ == n * 1_000_000,
        (None, None) => true,
        _ => false,
    }
}

/// Each timeout is read as what was last set for it, in whole milliseconds.
pub proof fn law_timeouts_are_read(
    a: Duration,
    b: Duration,
    c: Duration,
    t: TimeoutConfiguration,
    script: Option<Duration>,
    page_load: Option<Duration>,
    implicit: Option<Duration>,
)
    requires
        call_ensures(TimeoutConfiguration::new, (Some(a), Some(b), Some(c)), t),
        call_ensures(TimeoutConfiguration::script, (&t,), script),
        call_ensures(TimeoutConfiguration::page_load, (&t,), page_load),
        call_ensures(TimeoutConfiguration::implicit, (&t,), implicit),
    ensures
        script matches Some(d) && d@ == millis(a) * 1_000_000,
        page_load matches Some(d) && d@ == millis(b) * 1_000_000,
        implicit matches Some(d) && d@ == millis(c) * 1_000_000,
{
}

/// Setting one timeout changes that one alone.
pub proof fn law_one_timeout(d: Option<Duration>)
    ensures
        forall|t: &mut TimeoutConfiguration, r: ()| #[trigger]
            call_ensures(TimeoutConfiguration::set_script, (t, d), r) ==> (match d {
                Some(d) => final(t)@.script matches Some(n) && n == millis(d),
                None => final(t)@.script is None,
            }) && final(t)@.page_load == (*t)@.page_load && final(t)@.implicit == (*t)@.implicit,
        forall|t: &mut TimeoutConfiguration, r: ()| #[trigger]
            call_ensures(TimeoutConfiguration::set_page_load, (t, d), r) ==> (match d {
                Some(d) => final(t)@.page_load matches Some(n) && n == millis(d),
                None => final(t)@.page_load is None,
            }) && final(t)@.script == (*t)@.script && final(t)@.implicit == (*t)@.implicit,
        forall|t: &mut TimeoutConfiguration, r: ()| #[trigger]
            call_ensures(TimeoutConfiguration::set_implicit, (t, d), r) ==> (match d {
                Some(d) => final(t)@.implicit matches Some(n) && n == millis(d),
                None => final(t)@.implicit is None,
            }) && final(t)@.script == (*t)@.script && final(t)@.page_load == (*t)@.page_load,
{
}

/// A page and a script may take a minute where nothing was set, and a search takes no time.
pub proof fn law_default_timeouts(
    t: TimeoutConfiguration,
    script: Option<Duration>,
    page_load: Option<Duration>,
    implicit: Option<Duration>,
    j: JsonValue,
)
    requires
        call_ensures(<TimeoutConfiguration as Default>::default, (), t),
        call_ensures(TimeoutConfiguration::script, (&t,), script),
        call_ensures(TimeoutConfiguration::page_load, (&t,), page_load),
        call_ensures(TimeoutConfiguration::implicit, (&t,), implicit),
        call_ensures(TimeoutConfiguration::to_json, (&t,), j),
    ensures
        script matches Some(d) && d@ == 60_000_000_000,
        page_load matches Some(d) && d@ == 60_000_000_000,
        implicit matches Some(d) && d@ == 0,
        j@ == Json::Obj(
            map![
                "script"@ => Json::Int(60_000),
                "pageLoad"@ => Json::Int(60_000),
                "implicit"@ => Json::Int(0),
            ],
        ),
{
    assert(j@->Obj_0 =~= map![
        "script"@ => Json::Int(60_000),
        "pageLoad"@ => Json::Int(60_000),
        "implicit"@ => Json::Int(0),
    ]);
}

/// A part that may be missing or null, and is else a number of milliseconds.
pub open spec fn millis_valid(v: Option<Json>) -> bool {
    match v {
        None => true,
        Some(Json::Null) => true,
        Some(Json::Int(n)) => 0 <= n <= 0xffff_ffff_ffff_ffff,
        _ => false,
    }
}

/// What such a part says.
pub open spec fn millis_read(v: Option<Json>) -> Option<int> {
    match v {
        Some(Json::Int(n)) => Some(n),
        _ => None,
    }
}

/// What was read as a number says the same.
pub open spec fn same_number(n: Option<u64>, m: Option<int>) -> bool {
    match (n, m) {
        (Some(n), Some(m)) => n == m,
        (None, None) => true,
        _ => false,
    }
}

/// Timeouts can be read.
pub open spec fn timeouts_valid(v: Json) -> bool {
    record(v, 3) && millis_valid(field(v, 0, "script"@)) && millis_valid(field(v, 1, "pageLoad"@))
        && millis_valid(field(v, 2, "implicit"@))
}

/// The timeouts that a value holds.
pub open spec fn timeouts_read(v: Json, t: TimeoutConfiguration) -> bool {
    same_number(t@.script, millis_read(field(v, 0, "script"@))) && same_number(
        t@.page_load,
        millis_read(field(v, 1, "pageLoad"@)),
    ) && same_number(t@.implicit, millis_read(field(v, 2, "implicit"@)))
}

/// Timeouts are read each from its own name.
pub proof fn law_timeouts_from_json(
    v: &JsonValue,
    r: Option<TimeoutConfiguration>,
    script: Option<Duration>,
    page_load: Option<Duration>,
    implicit: Option<Duration>,
)
    requires
        call_ensures(TimeoutConfiguration::from_json, (v,), r),
        r matches Some(t) ==> call_ensures(TimeoutConfiguration::script, (&t,), script)
            && call_ensures(TimeoutConfiguration::page_load, (&t,), page_load) && call_ensures(
            TimeoutConfiguration::implicit,
            (&t,),
            implicit,
        ),
    ensures
        r is Some <==> timeouts_valid(v@),
        r matches Some(t) ==> timeouts_read(v@, t) && lasts(script, t@.script) && lasts(
            page_load,
            t@.page_load,
        ) && lasts(implicit, t@.implicit),
{
}

proof fn lemma_cookie_names()
    ensures
        "name"@ != "value"@,
        "name"@ != "path"@,
        "name"@ != "domain"@,
        "name"@ != "secure"@,
        "name"@ != "expiry"@,
        "name"@ != "sameSite"@,
        "value"@ != "path"@,
        "value"@ != "domain"@,
        "value"@ != "secure"@,
        "value"@ != "expiry"@,
        "value"@ != "sameSite"@,
        "path"@ != "domain"@,
        "path"@ != "secure"@,
        "path"@ != "expiry"@,
        "path"@ != "sameSite"@,
        "domain"@ != "secure"@,
        "domain"@ != "expiry"@,
        "domain"@ != "sameSite"@,
        "secure"@ != "expiry"@,
        "secure"@ != "sameSite"@,
        "expiry"@ != "sameSite"@,
{
    reveal_strlit("name");
    reveal_strlit("value");
    reveal_strlit("path");
    reveal_strlit("domain");
    reveal_strlit("secure");
    reveal_strlit("expiry");
    reveal_strlit("sameSite");
    assert("name"@.len() != "value"@.len());
    assert("name"@[0] != "path"@[0]);
    assert("name"@.len() != "domain"@.len());
    assert("name"@.len() != "secure"@.len());
    assert("name"@.len() != "expiry"@.len());
    assert("name"@.len() != "sameSite"@.len());
    assert("value"@.len() != "path"@.len());
    assert("value"@.len() != "domain"@.len());
    assert("value"@.len() != "secure"@.len());
    assert("value"@.len() != "expiry"@.len());
    assert("value"@.len() != "sameSite"@.len());
    assert("path"@.len() != "domain"@.len());
    assert("path"@.len() != "secure"@.len());
    assert("path"@.len() != "expiry"@.len());
    assert("path"@.len() != "sameSite"@.len());
    assert("domain"@[0] != "secure"@[0]);
    assert("domain"@[0] != "expiry"@[0]);
    assert("domain"@.len() != "sameSite"@.len());
    assert("secure"@[0] != "expiry"@[0]);
    assert("secure"@.len() != "sameSite"@.len());
    assert("expiry"@.len() != "sameSite"@.len());
}

/// Whether a cookie is kept from other sites has the words of the standard.
pub open spec fn site_word(s: SameSite) -> Seq<char> {
    match s {
        SameSite::Strict => "Strict"@,
        SameSite::Lax => "Lax"@,
        SameSite::Nothing => "None"@,
    }
}

/// Those words are what is written.
pub proof fn law_site_words(s: &SameSite, r: String)
    requires
        call_ensures(SameSite::to_text, (s,), r),
    ensures
        r@ == site_word(*s),
{
}

/// A cookie is written under the names of its parts. Its name and its value always stand there, and
/// every other part exactly where it is given.
pub proof fn law_cookie_is_written(c: &Cookie, r: JsonValue)
    requires
        call_ensures(Cookie::to_json, (c,), r),
    ensures
        r@ matches Json::Obj(m) && {
            &&& m.contains_key("name"@) && m["name"@] == Json::Str(c.name@)
            &&& m.contains_key("value"@) && m["value"@] == c.value@
            &&& match c.path {
                Some(t) => m.contains_key("path"@) && m["path"@] == Json::Str(t@),
                None => !m.contains_key("path"@),
            }
            &&& match c.domain {
                Some(t) => m.contains_key("domain"@) && m["domain"@] == Json::Str(t@),
                None => !m.contains_key("domain"@),
            }
            &&& match c.secure {
                Some(b) => m.contains_key("secure"@) && m["secure"@] == Json::Bool(b),
                None => !m.contains_key("secure"@),
            }
            &&& match c.expiry {
                Some(n) => m.contains_key("expiry"@) && m["expiry"@] == Json::Int(n as int),
                None => !m.contains_key("expiry"@),
            }
            &&& match c.same_site {
                Some(s) => m.contains_key("sameSite"@) && m["sameSite"@] == Json::Str(site_word(s)),
                None => !m.contains_key("sameSite"@),
            }
            &&& forall|k: Seq<char>| #[trigger]
                m.contains_key(k) ==> set![
                    "name"@,
                    "value"@,
                    "path"@,
                    "domain"@,
                    "secure"@,
                    "expiry"@,
                    "sameSite"@,
                ].contains(k)
        },
{
    lemma_cookie_names();
}

/// A new cookie has a name and a value, and nothing else.
pub proof fn law_new_cookie(name: &str, value: JsonValue, r: Cookie)
    requires
        call_ensures(Cookie::new, (name, value), r),
    ensures
        r.name@ == name@,
        r.value@ == value@,
        r.path is None && r.domain is None && r.secure is None && r.expiry is None && r.same_site
            is None,
{
}

/// A text that may be missing or null.
pub open spec fn text_read(v: Option<Json>, t: Option<String>) -> bool {
    match v {
        Some(Json::Str(s)) => t matches Some(x) && x@ == s,
        Some(Json::Null) => t is None,
        None => t is None,
        _ => false,
    }
}

/// What a cookie says of the value that it was read from, part by part.
pub open spec fn cookie_read(v: Json, c: Cookie) -> bool {
    &&& record(v, 7)
    &&& field(v, 0, "name"@) == Some(Json::Str(c.name@))
    &&& field(v, 1, "value"@) == Some(c.value@)
    &&& text_read(field(v, 2, "path"@), c.path)
    &&& text_read(field(v, 3, "domain"@), c.domain)
    &&& match field(v, 4, "secure"@) {
        Some(Json::Bool(b)) => c.secure == Some(b),
        Some(Json::Null) => c.secure is None,
        None => c.secure is None,
        _ => false,
    }
    &&& match field(v, 5, "expiry"@) {
        Some(Json::Int(n)) => c.expiry matches Some(m) && m == n,
        Some(Json::Null) => c.expiry is None,
        None => c.expiry is None,
        _ => false,
    }
    &&& match field(v, 6, "sameSite"@) {
        Some(Json::Str(s)) => c.same_site matches Some(w) && s == site_word(w),
        Some(Json::Null) => c.same_site is None,
        None => c.same_site is None,
        _ => false,
    }
}

/// A part that is missing, null or a text.
pub open spec fn text_valid(v: Option<Json>) -> bool {
    v is None || (v matches Some(Json::Null)) || (v matches Some(Json::Str(_)))
}

/// A cookie can be read.
pub open spec fn cookie_valid(v: Json) -> bool {
    &&& record(v, 7)
    &&& field(v, 0, "name"@) matches Some(Json::Str(_))
    &&& field(v, 1, "value"@) is Some
    &&& text_valid(field(v, 2, "path"@))
    &&& text_valid(field(v, 3, "domain"@))
    &&& match field(v, 4, "secure"@) {
        Some(Json::Bool(_)) => true,
        Some(Json::Null) => true,
        None => true,
        _ => false,
    }
    &&& field(v, 5, "expiry"@) is None || (field(v, 5, "expiry"@) matches Some(Json::Null))
        || whole(
        field(v, 5, "expiry"@),
    )
    &&& match field(v, 6, "sameSite"@) {
        Some(Json::Str(s)) => s == "Strict"@ || s == "Lax"@ || s == "None"@,
        Some(Json::Null) => true,
        None => true,
        _ => false,
    }
}

/// A cookie is read where its parts can be, each from its own name.
pub proof fn law_cookie_is_read(v: &JsonValue, r: Option<Cookie>)
    requires
        call_ensures(Cookie::from_json, (v,), r),
    ensures
        r is Some <==> cookie_valid(v@),
        r matches Some(c) ==> cookie_read(v@, c),
{
}

/// A status can be read.
pub open spec fn status_valid(v: Json) -> bool {
    record(v, 2) && (field(v, 0, "ready"@) matches Some(Json::Bool(_))) && (
    field(v, 1, "message"@) matches Some(Json::Str(_)))
}

/// The status that a value holds.
pub open spec fn status_reads(v: Json, s: WebDriverStatus) -> bool {
    field(v, 0, "ready"@) == Some(Json::Bool(s.ready)) && field(v, 1, "message"@) == Some(
        Json::Str(s.message@),
    )
}

/// A status says whether the server is ready, and why.
pub proof fn law_status_is_read(v: &JsonValue, r: Option<WebDriverStatus>)
    requires
        call_ensures(WebDriverStatus::from_json, (v,), r),
    ensures
        r is Some <==> status_valid(v@),
        r matches Some(s) ==> status_reads(v@, s),
{
}

/// A window can be read.
pub open spec fn window_valid(v: Json) -> bool {
    record(v, 1) && (field(v, 0, "handle"@) matches Some(Json::Str(_)))
}

/// A window is read from its handle.
pub proof fn law_window_is_read(v: &JsonValue, r: Option<WindowHandle>)
    requires
        call_ensures(WindowHandle::from_json, (v,), r),
    ensures
        r is Some <==> window_valid(v@),
        r matches Some(h) ==> field(v@, 0, "handle"@) == Some(Json::Str(h@)),
{
}

/// What says which element a value refers to: the name of the standard for elements, and else that
/// for shadow roots.
pub open spec fn element_in(v: Json) -> Option<Seq<char>> {
    match v {
        Json::Obj(m) => if m.contains_key("element-6066-11e4-a52e-4f735466cecf"@)
            && m["element-6066-11e4-a52e-4f735466cecf"@] is Str {
            Some(m["element-6066-11e4-a52e-4f735466cecf"@]->Str_0)
        } else if m.contains_key("shadow-6066-11e4-a52e-4f735466cecf"@)
            && m["shadow-6066-11e4-a52e-4f735466cecf"@] is Str {
            Some(m["shadow-6066-11e4-a52e-4f735466cecf"@]->Str_0)
        } else {
            None
        },
        _ => None,
    }
}

/// An element is read from the name of the standard, and written under it.
pub proof fn law_element_references(
    v: &JsonValue,
    r: Option<ElementRef>,
    e: ElementRef,
    id: &str,
    j: JsonValue,
)
    requires
        call_ensures(ElementRef::from_json, (v,), r),
        call_ensures(ElementRef::id, (&e,), id),
        call_ensures(ElementRef::to_json, (&e,), j),
    ensures
        r is Some <==> element_in(v@) is Some,
        r matches Some(x) ==> element_in(v@) == Some(
            match x {
                ElementRef::Element { id } => id@,
                ElementRef::ShadowElement { id } => id@,
            },
        ),
        r matches Some(x) && x is Element ==> v@->Obj_0.contains_key(
            "element-6066-11e4-a52e-4f735466cecf"@,
        ),
        id@ == (match e {
            ElementRef::Element { id } => id@,
            ElementRef::ShadowElement { id } => id@,
        }),
        e is Element ==> j@ == Json::Obj(
            map!["element-6066-11e4-a52e-4f735466cecf"@ => Json::Str(id@)],
        ),
        e is ShadowElement ==> j@ == Json::Obj(
            map!["shadow-6066-11e4-a52e-4f735466cecf"@ => Json::Str(id@)],
        ),
{
}

/// Texts are taken over as they are.
pub proof fn law_texts<'a>(a: &'a str, b: String, c: &'a String, x: String, y: String, z: String)
    requires
        call_ensures(<&'a str as IntoTransfer>::into, (a,), x),
        call_ensures(<String as IntoTransfer>::into, (b,), y),
        call_ensures(<&'a String as IntoTransfer>::into, (c,), z),
    ensures
        x@ == a@ && (&a).text() == a@,
        y@ == b@ && (&b).text() == b@,
        z@ == c@ && (&c).text() == c@,
{
}

/// Sessions, elements and windows are known by the texts that they were made of, and by nothing
/// else.
pub proof fn law_ids<S: IntoArcStr>(
    text: S,
    session: SessionId,
    element: ElementId,
    window: WindowHandle,
    other: WindowHandle,
    s: &str,
    e: &str,
    w: &str,
    same: bool,
    none: SessionId,
)
    requires
        call_ensures(SessionId::from::<S>, (text,), session),
        call_ensures(ElementId::from::<S>, (text,), element),
        call_ensures(WindowHandle::from::<S>, (text,), window),
        call_ensures(SessionId::as_str, (&session,), s),
        call_ensures(ElementId::as_str, (&element,), e),
        call_ensures(WindowHandle::as_str, (&window,), w),
        call_ensures(WindowHandle::same_as, (&window, &other), same),
        call_ensures(SessionId::null, (), none),
    ensures
        s@ == text.text(),
        e@ == text.text(),
        w@ == text.text(),
        same <==> other@ == text.text(),
        none@.len() == 0,
{
}

/// A new window is a tab or a window, in these words.
pub proof fn law_window_types(t: &WindowType, r: String)
    requires
        call_ensures(WindowType::to_text, (t,), r),
    ensures
        t is Tab ==> r@ == "tab"@,
        t is Window ==> r@ == "window"@,
{
}

/// Pages are given by a number or a range, and lie one way or the other.
pub proof fn law_printing(
    p: &PrintPageRange,
    o: &PrintOrientation,
    d: PrintOrientation,
    r: JsonValue,
    w: JsonValue,
)
    requires
        call_ensures(PrintPageRange::to_json, (p,), r),
        call_ensures(PrintOrientation::to_json, (o,), w),
        call_ensures(<PrintOrientation as Default>::default, (), d),
    ensures
        p matches PrintPageRange::Integer(n) ==> r@ == Json::Int(*n as int),
        p matches PrintPageRange::Range(t) ==> r@ == Json::Str(t@),
        o is Landscape ==> w@ == Json::Str("landscape"@),
        o is Portrait ==> w@ == Json::Str("portrait"@),
        d is Portrait,
{
}

/// The words for the kinds of connection.
pub open spec fn connection_word(c: ConnectionType) -> Seq<char> {
    match c {
        ConnectionType::Nothing => "None"@,
        ConnectionType::Cellular2G => "Cellular2G"@,
        ConnectionType::Cellular3G => "Cellular3G"@,
        ConnectionType::Cellular4G => "Cellular4G"@,
        ConnectionType::Bluetooth => "Bluetooth"@,
        ConnectionType::Ethernet => "Ethernet"@,
        ConnectionType::Wifi => "Wifi"@,
        ConnectionType::Wimax => "Wimax"@,
        ConnectionType::Other => "Other"@,
    }
}

proof fn lemma_connection_words()
    ensures
        "None"@ != "Cellular2G"@,
        "None"@ != "Cellular3G"@,
        "None"@ != "Cellular4G"@,
        "None"@ != "Bluetooth"@,
        "None"@ != "Ethernet"@,
        "None"@ != "Wifi"@,
        "None"@ != "Wimax"@,
        "None"@ != "Other"@,
        "Cellular2G"@ != "Cellular3G"@,
        "Cellular2G"@ != "Cellular4G"@,
        "Cellular2G"@ != "Bluetooth"@,
        "Cellular2G"@ != "Ethernet"@,
        "Cellular2G"@ != "Wifi"@,
        "Cellular2G"@ != "Wimax"@,
        "Cellular2G"@ != "Other"@,
        "Cellular3G"@ != "Cellular4G"@,
        "Cellular3G"@ != "Bluetooth"@,
        "Cellular3G"@ != "Ethernet"@,
        "Cellular3G"@ != "Wifi"@,
        "Cellular3G"@ != "Wimax"@,
        "Cellular3G"@ != "Other"@,
        "Cellular4G"@ != "Bluetooth"@,
        "Cellular4G"@ != "Ethernet"@,
        "Cellular4G"@ != "Wifi"@,
        "Cellular4G"@ != "Wimax"@,
        "Cellular4G"@ != "Other"@,
        "Bluetooth"@ != "Ethernet"@,
        "Bluetooth"@ != "Wifi"@,
        "Bluetooth"@ != "Wimax"@,
        "Bluetooth"@ != "Other"@,
        "Ethernet"@ != "Wifi"@,
        "Ethernet"@ != "Wimax"@,
        "Ethernet"@ != "Other"@,
        "Wifi"@ != "Wimax"@,
        "Wifi"@ != "Other"@,
        "Wimax"@ != "Other"@,
{
    reveal_strlit("None");
    reveal_strlit("Cellular2G");
    reveal_strlit("Cellular3G");
    reveal_strlit("Cellular4G");
    reveal_strlit("Bluetooth");
    reveal_strlit("Ethernet");
    reveal_strlit("Wifi");
    reveal_strlit("Wimax");
    reveal_strlit("Other");
    assert("None"@.len() != "Cellular2G"@.len());
    assert("None"@.len() != "Cellular3G"@.len());
    assert("None"@.len() != "Cellular4G"@.len());
    assert("None"@.len() != "Bluetooth"@.len());
    assert("None"@.len() != "Ethernet"@.len());
    assert("None"@[0] != "Wifi"@[0]);
    assert("None"@.len() != "Wimax"@.len());
    assert("None"@.len() != "Other"@.len());
    assert("Cellular2G"@[8] != "Cellular3G"@[8]);
    assert("Cellular2G"@[8] != "Cellular4G"@[8]);
    assert("Cellular2G"@.len() != "Bluetooth"@.len());
    assert("Cellular2G"@.len() != "Ethernet"@.len());
    assert("Cellular2G"@.len() != "Wifi"@.len());
    assert("Cellular2G"@.len() != "Wimax"@.len());
    assert("Cellular2G"@.len() != "Other"@.len());
    assert("Cellular3G"@[8] != "Cellular4G"@[8]);
    assert("Cellular3G"@.len() != "Bluetooth"@.len());
    assert("Cellular3G"@.len() != "Ethernet"@.len());
    assert("Cellular3G"@.len() != "Wifi"@.len());
    assert("Cellular3G"@.len() != "Wimax"@.len());
    assert("Cellular3G"@.len() != "Other"@.len());
    assert("Cellular4G"@.len() != "Bluetooth"@.len());
    assert("Cellular4G"@.len() != "Ethernet"@.len());
    assert("Cellular4G"@.len() != "Wifi"@.len());
    assert("Cellular4G"@.len() != "Wimax"@.len());
    assert("Cellular4G"@.len() != "Other"@.len());
    assert("Bluetooth"@.len() != "Ethernet"@.len());
    assert("Bluetooth"@.len() != "Wifi"@.len());
    assert("Bluetooth"@.len() != "Wimax"@.len());
    assert("Bluetooth"@.len() != "Other"@.len());
    assert("Ethernet"@.len() != "Wifi"@.len());
    assert("Ethernet"@.len() != "Wimax"@.len());
    assert("Ethernet"@.len() != "Other"@.len());
    assert("Wifi"@.len() != "Wimax"@.len());
    assert("Wifi"@.len() != "Other"@.len());
    assert("Wimax"@[0] != "Other"@[0]);
}

/// A kind of connection is written and read as its word.
pub proof fn law_connections(c: &ConnectionType, w: &'static str, v: &JsonValue,
    r: Option<ConnectionType>)
    requires
        call_ensures(ConnectionType::as_str, (c,), w),
        call_ensures(ConnectionType::from_json, (v,), r),
    ensures
        w@ == connection_word(*c),
        v@ == Json::Str(w@) <==> r == Some(*c),
        r matches Some(k) ==> v@ == Json::Str(connection_word(k)),
{
    lemma_connection_words();
}

proof fn lemma_network_names()
    ensures
        "offline"@ != "latency"@,
        "offline"@ != "download_throughput"@,
        "offline"@ != "upload_throughput"@,
        "offline"@ != "connection_type"@,
        "latency"@ != "download_throughput"@,
        "latency"@ != "upload_throughput"@,
        "latency"@ != "connection_type"@,
        "download_throughput"@ != "upload_throughput"@,
        "download_throughput"@ != "connection_type"@,
        "upload_throughput"@ != "connection_type"@,
{
    reveal_strlit("offline");
    reveal_strlit("latency");
    reveal_strlit("download_throughput");
    reveal_strlit("upload_throughput");
    reveal_strlit("connection_type");
    assert("offline"@[0] != "latency"@[0]);
    assert("offline"@.len() != "download_throughput"@.len());
    assert("offline"@.len() != "upload_throughput"@.len());
    assert("offline"@.len() != "connection_type"@.len());
    assert("latency"@.len() != "download_throughput"@.len());
    assert("latency"@.len() != "upload_throughput"@.len());
    assert("latency"@.len() != "connection_type"@.len());
    assert("download_throughput"@.len() != "upload_throughput"@.len());
    assert("download_throughput"@.len() != "connection_type"@.len());
    assert("upload_throughput"@.len() != "connection_type"@.len());
}

/// A network is written under the names of its parts, and read from them.
pub proof fn law_networks(
    n: &NetworkConditions,
    j: JsonValue,
    v: &JsonValue,
    r: Option<NetworkConditions>,
)
    requires
        call_ensures(NetworkConditions::to_json, (n,), j),
        call_ensures(NetworkConditions::from_json, (v,), r),
    ensures
        j@ matches Json::Obj(m) && {
            &&& m.contains_key("offline"@) && m["offline"@] == Json::Bool(n.offline)
            &&& m.contains_key("latency"@) && m["latency"@] == Json::Int(n.latency as int)
            &&& m.contains_key("download_throughput"@) && m["download_throughput"@] == Json::Int(
                n.download_throughput as int,
            )
            &&& m.contains_key("upload_throughput"@) && m["upload_throughput"@] == Json::Int(
                n.upload_throughput as int,
            )
            &&& match n.connection_type {
                Some(c) => m.contains_key("connection_type"@) && m["connection_type"@] == Json::Str(
                    connection_word(c),
                ),
                None => !m.contains_key("connection_type"@),
            }
        },
        r matches Some(c) ==> {
            &&& record(v@, 5)
            &&& field(v@, 0, "offline"@) == Some(Json::Bool(c.offline))
            &&& field(v@, 1, "latency"@) == Some(Json::Int(c.latency as int))
            &&& field(v@, 2, "download_throughput"@) == Some(
                Json::Int(c.download_throughput as int),
            )
            &&& field(v@, 3, "upload_throughput"@) == Some(Json::Int(c.upload_throughput as int))
            &&& match c.connection_type {
                Some(k) => field(v@, 4, "connection_type"@) == Some(Json::Str(connection_word(k))),
                None => field(v@, 4, "connection_type"@) is None || field(v@, 4, "connection_type"@)
                    == Some(Json::Null),
            }
        },
        v@ == j@ ==> r == Some(*n),
{
    lemma_network_names();
    lemma_connection_words();
    crate::cdp::lemma_conditions_round_trip(*n);
}

/// A network is online and without limits where nothing was said.
pub proof fn law_free_network(a: NetworkConditions, b: NetworkConditions)
    requires
        call_ensures(NetworkConditions::new, (), a),
        call_ensures(<NetworkConditions as Default>::default, (), b),
    ensures
        a == b,
        !a.offline,
        a.latency == 0,
        a.download_throughput == -1,
        a.upload_throughput == -1,
        a.connection_type is None,
{
}

/// The commands of Chromium: those that say something are posted with it, and the others are asked.
pub proof fn law_chrome_requests(c: &ChromeCommand, r: (Method, Option<JsonValue>))
    requires
        call_ensures(ChromeCommand::method_and_body, (c,), r),
    ensures
        c matches ChromeCommand::LaunchApp(id) ==> says(r, map!["id"@ => Json::Str(id@)]),
        c matches ChromeCommand::SetNetworkConditions(n) ==> forall|j: JsonValue| #[trigger]
            call_ensures(NetworkConditions::to_json, (n,), j) ==> says(
                r,
                map!["network_conditions"@ => j@],
            ),
        c matches ChromeCommand::ExecuteCdpCommand(n, p) ==> says(
            r,
            map!["cmd"@ => Json::Str(n@), "params"@ => p@],
        ),
        c matches ChromeCommand::SetSinkToUse(n) ==> says(r, map!["sinkName"@ => Json::Str(n@)]),
        c matches ChromeCommand::StartTabMirroring(n) ==> says(
            r,
            map!["sinkName"@ => Json::Str(n@)],
        ),
        c matches ChromeCommand::StopCasting(n) ==> says(r, map!["sinkName"@ => Json::Str(n@)]),
        c is GetNetworkConditions || c is GetSinks || c is GetIssueMessage ==> r.0 is GET && r.1
            is None,
{
}

/// A request that is posted with these members.
pub open spec fn says(r: (Method, Option<JsonValue>), members: Map<Seq<char>, Json>) -> bool {
    r.0 is POST && (r.1 matches Some(b) && b@ == Json::Obj(members))
}

/// Where the commands of Chromium go, below the session.
pub proof fn law_chrome_paths(c: &ChromeCommand)
    ensures
        c is LaunchApp ==> c.path() == "chromium/launch_app"@,
        c is GetNetworkConditions ==> c.path() == "chromium/network_conditions"@,
        c is SetNetworkConditions ==> c.path() == "chromium/network_conditions"@,
        c is ExecuteCdpCommand ==> c.path() == "goog/cdp/execute"@,
        c is GetSinks ==> c.path() == "goog/cast/get_sinks"@,
        c is GetIssueMessage ==> c.path() == "goog/cast/get_issue_message"@,
        c is SetSinkToUse ==> c.path() == "goog/cast/set_sink_to_use"@,
        c is StartTabMirroring ==> c.path() == "goog/cast/start_tab_mirroring"@,
        c is StopCasting ==> c.path() == "goog/cast/stop_casting"@,
{
}

/// An address of Chromium's commands is the path of the command below `session/<id>/`.
pub proof fn law_chrome_addresses(
    c: &ChromeCommand,
    base: &ServerUrl,
    id: &str,
    r: Result<String, String>,
)
    requires
        call_ensures(ChromeCommand::endpoint, (c, base, id), r),
    ensures
        match address::joined_url(base@, "session/"@ + id@ + "/"@) {
            Err(message) => r matches Err(m) && m@ == message,
            Ok(place) => match address::joined_url(place, c.path()) {
                Err(message) => r matches Err(m) && m@ == message,
                Ok(url) => r matches Ok(u) && u@ == url,
            },
        },
{
}

/// Spans of time: seconds, milliseconds and nanoseconds of one span, and what is left of it.
pub proof fn law_durations(n: u64, d: Duration, e: Duration)
    ensures
        forall|r: Duration| #[trigger] call_ensures(Duration::from_secs, (n,), r) ==> r@ == n
            * 1_000_000_000,
        forall|r: Duration| #[trigger] call_ensures(Duration::from_millis, (n,), r) ==> r@ == n
            * 1_000_000,
        forall|r: u64| #[trigger] call_ensures(Duration::as_secs, (&d,), r) ==> r * 1_000_000_000
            <= d@ < (r + 1) * 1_000_000_000,
        forall|r: u128| #[trigger] call_ensures(Duration::as_millis, (&d,), r) ==> r * 1_000_000
            <= d@ < (r + 1) * 1_000_000,
        forall|s: u64, r: u32|
            #[trigger] call_ensures(Duration::as_secs, (&d,), s) && #[trigger] call_ensures(
                Duration::subsec_nanos,
                (&d,),
                r,
            ) ==> s * 1_000_000_000 + r == d@ && r < 1_000_000_000,
        forall|r: bool| #[trigger] call_ensures(Duration::shorter_than, (&d, &e), r) ==> (r
            <==> d@ < e@),
        forall|r: Duration| #[trigger] call_ensures(Duration::minus, (&d, &e), r) ==> r@ + e@ == d@,
        forall|f: u32, r: Duration| #[trigger]
            call_ensures(Duration::saturating_mul, (&d, f), r) ==> r@ == (if d@ * f
                < 0x1_0000_0000_0000_0000 * 1_000_000_000 {
                d@ * f
            } else {
                0x1_0000_0000_0000_0000 * 1_000_000_000 - 1
            }),
{
}

/// A span of seconds and nanoseconds is as long as the two together.
pub proof fn law_span(secs: u64, nanos: u32, r: Duration)
    requires
        call_ensures(Duration::new, (secs, nanos), r),
    ensures
        r@ == secs * 1_000_000_000 + nanos,
{
}

/// The error says what a value should have been.
pub open spec fn expected<T>(r: WebDriverResult<T>, what: Seq<char>) -> bool {
    r matches Err(e) ==> (e@ matches WebDriverErrorInner::Json(m) && m@
        == "Failed to decode response body: expected "@ + what)
}

/// A value that is not what it is read as is an error that says what it should have been.
pub proof fn law_decode_messages(v: &JsonValue, what: &str)
    ensures
        forall|e: WebDriverError| #[trigger]
            call_ensures(http::decode_error, (what,), e) ==> expected(
                Err::<(), WebDriverError>(e),
                what@,
            ),
        forall|r: WebDriverResult<String>| #[trigger]
            call_ensures(reply::convert_json::<String>, (v,), r) ==> expected(r, "a string"@),
        forall|r: WebDriverResult<bool>| #[trigger]
            call_ensures(reply::convert_json::<bool>, (v,), r) ==> expected(r, "a boolean"@),
        forall|r: WebDriverResult<u64>| #[trigger]
            call_ensures(reply::convert_json::<u64>, (v,), r)
                ==> expected(r, "an unsigned integer"@),
        forall|r: WebDriverResult<i64>| #[trigger]
            call_ensures(reply::convert_json::<i64>, (v,), r) ==> expected(r, "an integer"@),
        forall|r: WebDriverResult<Rect>| #[trigger]
            call_ensures(reply::convert_json::<Rect>, (v,), r) ==> expected(r, "a rectangle"@),
        forall|r: WebDriverResult<TimeoutConfiguration>| #[trigger]
            call_ensures(reply::convert_json::<TimeoutConfiguration>, (v,), r)
                ==> expected(r, "timeouts"@),
        forall|r: WebDriverResult<WebDriverStatus>| #[trigger]
            call_ensures(reply::convert_json::<WebDriverStatus>, (v,), r)
                ==> expected(r, "a status"@),
        forall|r: WebDriverResult<Cookie>| #[trigger]
            call_ensures(reply::convert_json::<Cookie>, (v,), r) ==> expected(r, "a cookie"@),
        forall|r: WebDriverResult<ConnectionType>| #[trigger]
            call_ensures(reply::convert_json::<ConnectionType>, (v,), r)
                ==> expected(r, "a connection type"@),
        forall|r: WebDriverResult<NetworkConditions>| #[trigger]
            call_ensures(reply::convert_json::<NetworkConditions>, (v,), r)
                ==> expected(r, "network conditions"@),
        forall|r: WebDriverResult<WindowHandle>| #[trigger]
            call_ensures(reply::convert_json::<WindowHandle>, (v,), r) ==> expected(r, "a window"@),
        forall|r: WebDriverResult<ElementRef>| #[trigger]
            call_ensures(reply::convert_json::<ElementRef>, (v,), r) ==> expected(r, "an element"@),
        forall|r: WebDriverResult<PageLoadStrategy>| #[trigger]
            call_ensures(reply::convert_json::<PageLoadStrategy>, (v,), r)
                ==> expected(r, "a page load strategy"@),
        forall|r: WebDriverResult<LogLevel>| #[trigger]
            call_ensures(reply::convert_json::<LogLevel>, (v,), r) ==> expected(r, "a log level"@),
        forall|r: WebDriverResult<Vec<String>>| #[trigger]
            call_ensures(reply::convert_json::<Vec<String>>, (v,), r) ==> expected(r, "a list"@),
{
}

} // verus!
