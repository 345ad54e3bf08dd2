//! What the replies to commands are read as.
use crate::cdp;
use crate::cdp::{ConnectionType, NetworkConditions};
use crate::cookie;
use crate::cookie::Cookie;
use crate::encoding;
use crate::encoding::base64_decode;
use crate::error::{WebDriverError, WebDriverResult};
use crate::http;
use crate::http::{decode_error, CmdResponse};
use crate::json;
use crate::json::{Json, JsonValue};
use crate::types;
use crate::types::{ElementRef, Rect, TimeoutConfiguration, WebDriverStatus, WindowHandle};
use vstd::prelude::*;

verus! {

/// What can be read from the value of a reply.
pub trait FromValue: Sized {
    /// What is expected, in words.
    spec fn expected() -> Seq<char>;

    /// Whether something can be read from the value.
    spec fn valid(v: Json) -> bool;

    /// Whether this is what is read from the value.
    spec fn reads(v: Json, t: Self) -> bool;

    /// What is expected, in words.
    fn expected_text() -> (r: &'static str)
        ensures
            r@ == Self::expected(),
    ;

    /// Reads a value.
    fn from_value(v: &JsonValue) -> (r: Option<Self>)
        ensures
            match r {
                Some(t) => Self::valid(v@) && Self::reads(v@, t),
                None => !Self::valid(v@),
            },
    ;
}

impl FromValue for JsonValue {
    open spec fn expected() -> Seq<char> {
        "a value"@
    }

    open spec fn valid(v: Json) -> bool {
        true
    }

    open spec fn reads(v: Json, t: Self) -> bool {
        t@ == v
    }

    fn expected_text() -> (r: &'static str) {
        "a value"
    }

    fn from_value(v: &JsonValue) -> (r: Option<Self>) {
        Some(v.clone())
    }
}

impl FromValue for String {
    open spec fn expected() -> Seq<char> {
        "a string"@
    }

    open spec fn valid(v: Json) -> bool {
        v is Str
    }

    open spec fn reads(v: Json, t: Self) -> bool {
        v == Json::Str(t@)
    }

    fn expected_text() -> (r: &'static str) {
        "a string"
    }

    fn from_value(v: &JsonValue) -> (r: Option<Self>) {
        match v.as_str() {
            Some(s) => Some(s.to_owned()),
            None => None,
        }
    }
}

impl FromValue for bool {
    open spec fn expected() -> Seq<char> {
        "a boolean"@
    }

    open spec fn valid(v: Json) -> bool {
        v is Bool
    }

    open spec fn reads(v: Json, t: Self) -> bool {
        v == Json::Bool(t)
    }

    fn expected_text() -> (r: &'static str) {
        "a boolean"
    }

    fn from_value(v: &JsonValue) -> (r: Option<Self>) {
        v.as_bool()
    }
}

impl FromValue for u64 {
    open spec fn expected() -> Seq<char> {
        "an unsigned integer"@
    }

    open spec fn valid(v: Json) -> bool {
        v matches Json::Int(n) && 0 <= n <= u64::MAX
    }

    open spec fn reads(v: Json, t: Self) -> bool {
        v == Json::Int(t as int)
    }

    fn expected_text() -> (r: &'static str) {
        "an unsigned integer"
    }

    fn from_value(v: &JsonValue) -> (r: Option<Self>) {
        v.as_u64()
    }
}

impl FromValue for i64 {
    open spec fn expected() -> Seq<char> {
        "an integer"@
    }

    open spec fn valid(v: Json) -> bool {
        v matches Json::Int(n) && i64::MIN <= n <= i64::MAX
    }

    open spec fn reads(v: Json, t: Self) -> bool {
        v == Json::Int(t as int)
    }

    fn expected_text() -> (r: &'static str) {
        "an integer"
    }

    fn from_value(v: &JsonValue) -> (r: Option<Self>) {
        v.as_i64()
    }
}

impl FromValue for Rect {
    open spec fn expected() -> Seq<char> {
        "a rectangle"@
    }

    open spec fn valid(v: Json) -> bool {
        types::rect_of(v) is Some
    }

    open spec fn reads(v: Json, t: Self) -> bool {
        types::rect_of(v) == Some(t)
    }

    fn expected_text() -> (r: &'static str) {
        "a rectangle"
    }

    fn from_value(v: &JsonValue) -> (r: Option<Self>) {
        Rect::from_json(v)
    }
}

impl FromValue for TimeoutConfiguration {
    open spec fn expected() -> Seq<char> {
        "timeouts"@
    }

    open spec fn valid(v: Json) -> bool {
        types::timeouts_of(v) is Some
    }

    open spec fn reads(v: Json, t: Self) -> bool {
        types::timeouts_of(v) == Some(t@)
    }

    fn expected_text() -> (r: &'static str) {
        "timeouts"
    }

    fn from_value(v: &JsonValue) -> (r: Option<Self>) {
        TimeoutConfiguration::from_json(v)
    }
}

impl FromValue for WebDriverStatus {
    open spec fn expected() -> Seq<char> {
        "a status"@
    }

    open spec fn valid(v: Json) -> bool {
        types::status_of(v) is Some
    }

    open spec fn reads(v: Json, t: Self) -> bool {
        types::status_of(v) == Some(t@)
    }

    fn expected_text() -> (r: &'static str) {
        "a status"
    }

    fn from_value(v: &JsonValue) -> (r: Option<Self>) {
        WebDriverStatus::from_json(v)
    }
}

impl FromValue for Cookie {
    open spec fn expected() -> Seq<char> {
        "a cookie"@
    }

    open spec fn valid(v: Json) -> bool {
        cookie::cookie_of(v) is Some
    }

    open spec fn reads(v: Json, t: Self) -> bool {
        cookie::cookie_of(v) == Some(t@)
    }

    fn expected_text() -> (r: &'static str) {
        "a cookie"
    }

    fn from_value(v: &JsonValue) -> (r: Option<Self>) {
        Cookie::from_json(v)
    }
}

impl FromValue for ConnectionType {
    open spec fn expected() -> Seq<char> {
        "a connection type"@
    }

    open spec fn valid(v: Json) -> bool {
        cdp::connection_type_of(v) is Some
    }

    open spec fn reads(v: Json, t: Self) -> bool {
        cdp::connection_type_of(v) == Some(t)
    }

    fn expected_text() -> (r: &'static str) {
        "a connection type"
    }

    fn from_value(v: &JsonValue) -> (r: Option<Self>) {
        ConnectionType::from_json(v)
    }
}

impl FromValue for NetworkConditions {
    open spec fn expected() -> Seq<char> {
        "network conditions"@
    }

    open spec fn valid(v: Json) -> bool {
        cdp::conditions_of(v) is Some
    }

    open spec fn reads(v: Json, t: Self) -> bool {
        cdp::conditions_of(v) == Some(t)
    }

    fn expected_text() -> (r: &'static str) {
        "network conditions"
    }

    fn from_value(v: &JsonValue) -> (r: Option<Self>) {
        NetworkConditions::from_json(v)
    }
}

impl FromValue for WindowHandle {
    open spec fn expected() -> Seq<char> {
        "a window"@
    }

    open spec fn valid(v: Json) -> bool {
        types::window_handle_of(v) is Some
    }

    open spec fn reads(v: Json, t: Self) -> bool {
        types::window_handle_of(v) == Some(t@)
    }

    fn expected_text() -> (r: &'static str) {
        "a window"
    }

    fn from_value(v: &JsonValue) -> (r: Option<Self>) {
        WindowHandle::from_json(v)
    }
}

impl FromValue for ElementRef {
    open spec fn expected() -> Seq<char> {
        "an element"@
    }

    open spec fn valid(v: Json) -> bool {
        types::element_ref_of(v) is Some
    }

    open spec fn reads(v: Json, t: Self) -> bool {
        types::element_ref_of(v) == Some(t@)
    }

    fn expected_text() -> (r: &'static str) {
        "an element"
    }

    fn from_value(v: &JsonValue) -> (r: Option<Self>) {
        ElementRef::from_json(v)
    }
}

impl<T: FromValue> FromValue for Vec<T> {
    open spec fn expected() -> Seq<char> {
        "a list"@
    }

    open spec fn valid(v: Json) -> bool {
        v matches Json::Arr(items) && forall|i: int|
            0 <= i < items.len() ==> T::valid(#[trigger] items[i])
    }

    open spec fn reads(v: Json, t: Self) -> bool {
        v matches Json::Arr(items) && t.len() == items.len() && forall|i: int|
            0 <= i < items.len() ==> T::reads(items[i], #[trigger] t[i])
    }

    fn expected_text() -> (r: &'static str) {
        "a list"
    }

    fn from_value(v: &JsonValue) -> (r: Option<Self>) {
        match v {
            JsonValue::Array(items) => {
                proof {
                    json::lemma_items_view(items@);
                }
                let mut r: Vec<T> = Vec::new();
                let mut i: usize = 0;
                while i < items.len()
                    invariant
                        i <= items.len(),
                        r.len() == i,
                        v@ == Json::Arr(json::items_view(items@)),
                        json::items_view(items@).len() == items.len(),
                        forall|j: int|
                            0 <= j < items.len() ==> (#[trigger] json::items_view(items@)[j])
                                == items@[j]@,
                        forall|j: int|
                            0 <= j < i ==> T::valid(#[trigger] json::items_view(items@)[j]),
                        forall|j: int|
                            0 <= j < i ==> T::reads(json::items_view(items@)[j], #[trigger] r@[j]),
                    decreases items.len() - i,
                {
                    match T::from_value(&items[i]) {
                        Some(x) => r.push(x),
                        None => {
                            proof {
                                assert(!T::valid(json::items_view(items@)[i as int]));
                                let all = v@->Arr_0;
                                assert(all == json::items_view(items@));
                                assert(0 <= i < all.len());
                                assert(!T::valid(all[i as int]));
                                assert(!Self::valid(v@));
                            }
                            return None;
                        },
                    }
                    i = i + 1;
                }
                Some(r)
            },
            _ => None,
        }
    }
}

/// The value of a reply, which is `null` where it has none.
pub open spec fn value_of(body: Json) -> Json {
    match json::member(body, "value"@) {
        Some(v) => v,
        None => Json::Null,
    }
}

/// The value of a reply, which is `null` where it has none.
pub fn reply_value(body: &JsonValue) -> (r: JsonValue)
    ensures
        r@ == value_of(body@),
{
    match body.get("value") {
        Some(v) => v.clone(),
        None => JsonValue::Null,
    }
}

/// Whether `r` is what a value is converted to.
pub open spec fn conversion<T: FromValue>(v: Json, r: WebDriverResult<T>) -> bool {
    if T::valid(v) {
        r matches Ok(t) && T::reads(v, t)
    } else {
        r matches Err(e) && http::is_json_error(e, http::decode_message(T::expected()))
    }
}

/// Converts a value.
pub fn convert_json<T: FromValue>(v: &JsonValue) -> (r: WebDriverResult<T>)
    ensures
        conversion(v@, r),
{
    match T::from_value(v) {
        Some(t) => Ok(t),
        None => Err(decode_error(T::expected_text())),
    }
}

/// Whether `r` is what is read from a reply, whose value it is.
pub open spec fn read_result<T: FromValue>(
    reply: WebDriverResult<JsonValue>,
    r: WebDriverResult<T>,
) -> bool {
    match reply {
        Err(e) => r == Err::<T, WebDriverError>(e),
        Ok(body) => match json::member(body@, "value"@) {
            Some(v) => conversion(v, r),
            None => r matches Err(e) && http::is_json_error(e, "Unexpected response body"@),
        },
    }
}

/// Reads a reply.
pub fn read_reply<T: FromValue>(reply: WebDriverResult<JsonValue>) -> (r: WebDriverResult<T>)
    ensures
        read_result(reply, r),
{
    match reply {
        Err(e) => Err(e),
        Ok(body) => match body.get("value") {
            Some(v) => convert_json(v),
            None => Err(WebDriverError::Json("Unexpected response body".to_owned())),
        },
    }
}

impl CmdResponse {
    /// The value of the response, converted.
    pub fn value<T: FromValue>(self) -> (r: WebDriverResult<T>)
        ensures
            match json::member(self.body@, "value"@) {
                Some(v) => conversion(v, r),
                None => r matches Err(e) && http::is_json_error(e, "Unexpected response body"@),
            },
    {
        match self.value_json() {
            Ok(v) => convert_json(&v),
            Err(e) => Err(e),
        }
    }
}

/// Whether `r` says if the command was done.
pub open spec fn unit_result(reply: WebDriverResult<JsonValue>, r: WebDriverResult<()>) -> bool {
    match reply {
        Err(e) => r == Err::<(), WebDriverError>(e),
        Ok(_) => r is Ok,
    }
}

/// Says if the command was done.
pub fn unit_reply(reply: WebDriverResult<JsonValue>) -> (r: WebDriverResult<()>)
    ensures
        unit_result(reply, r),
{
    match reply {
        Err(e) => Err(e),
        Ok(_) => Ok(()),
    }
}

/// Whether `r` is the data of a text in Base64.
pub open spec fn data_result(text: WebDriverResult<String>, r: WebDriverResult<Vec<u8>>) -> bool {
    match text {
        Err(e) => r == Err::<Vec<u8>, WebDriverError>(e),
        Ok(s) => encoding::decoded_base64(s@, r),
    }
}

/// The data of a text in Base64.
pub fn data_of(text: WebDriverResult<String>) -> (r: WebDriverResult<Vec<u8>>)
    ensures
        data_result(text, r),
{
    match text {
        Ok(s) => base64_decode(s.as_str()),
        Err(e) => Err(e),
    }
}

/// Whether `r` is a window by its handle.
pub open spec fn handle_result(
    text: WebDriverResult<String>,
    r: WebDriverResult<WindowHandle>,
) -> bool {
    match text {
        Err(e) => r == Err::<WindowHandle, WebDriverError>(e),
        Ok(s) => r matches Ok(h) && h@ == s@,
    }
}

/// A window by its handle.
pub fn handle_of(text: WebDriverResult<String>) -> (r: WebDriverResult<WindowHandle>)
    ensures
        handle_result(text, r),
{
    match text {
        Ok(s) => Ok(WindowHandle::from(s)),
        Err(e) => Err(e),
    }
}

/// The handles of windows.
pub open spec fn handle_views(handles: Seq<WindowHandle>) -> Seq<Seq<char>> {
    Seq::new(handles.len(), |i: int| handles[i]@)
}

/// Whether `r` is windows by their handles.
pub open spec fn handles_result(
    texts: WebDriverResult<Vec<String>>,
    r: WebDriverResult<Vec<WindowHandle>>,
) -> bool {
    match texts {
        Err(e) => r == Err::<Vec<WindowHandle>, WebDriverError>(e),
        Ok(s) => r matches Ok(h) && handle_views(h@) == crate::text::texts(s@),
    }
}

/// Windows by their handles.
pub fn handles_of(texts: WebDriverResult<Vec<String>>) -> (r: WebDriverResult<Vec<WindowHandle>>)
    ensures
        handles_result(texts, r),
{
    match texts {
        Err(e) => Err(e),
        Ok(s) => {
            let mut r: Vec<WindowHandle> = Vec::new();
            let mut i: usize = 0;
            while i < s.len()
                invariant
                    i <= s.len(),
                    r.len() == i,
                    forall|j: int| 0 <= j < i ==> (#[trigger] r@[j])@ == s@[j]@,
                decreases s.len() - i,
            {
                r.push(WindowHandle::from(&s[i]));
                i = i + 1;
            }
            assert(handle_views(r@) == crate::text::texts(s@));
            Ok(r)
        },
    }
}

} // verus!
