//! What the library promises, over its functions as they stand.
//!
//! A law takes what a call was given and what came back, and says what must hold of the two.
use vstd::prelude::*;

use crate::command::CommandView;
use crate::driver::Driver;
use crate::encoding;
use crate::error::{WebDriverErrorInner, WebDriverResult};
use crate::json::{Json, JsonValue};

pub mod actions;
pub mod addresses;
pub mod attributes;
pub mod capabilities;
pub mod commands;
pub mod components;
pub mod conditions;
pub mod drivers;
pub mod elements;
pub mod errors;
pub mod firefox;
pub mod http;
pub mod manager;
pub mod objects;
pub mod polling;
pub mod queries;
pub mod resolvers;
pub mod sessions;
pub mod texts;
pub mod tokens;
pub mod typing;
pub mod values;
pub mod windows;

verus! {

/// What stands under `name` in an object.
pub open spec fn entry(v: Json, name: Seq<char>) -> Option<Json> {
    match v {
        Json::Obj(members) => if members.contains_key(name) {
            Some(members[name])
        } else {
            None
        },
        _ => None,
    }
}

/// What stands under `value` in the body of a reply.
pub open spec fn value_in(body: JsonValue) -> Option<Json> {
    entry(body@, "value"@)
}

/// The text under `value` in the body of a reply.
pub open spec fn text_in(body: JsonValue) -> Option<Seq<char>> {
    match value_in(body) {
        Some(Json::Str(s)) => Some(s),
        _ => None,
    }
}

/// The session was asked for `command` alone: its error comes out, and nothing else does.
pub open spec fn done<D: Driver>(d: D, command: CommandView, r: WebDriverResult<()>) -> bool {
    exists|reply: WebDriverResult<JsonValue>| #[trigger]
        d.may_answer(command, reply) && match reply {
            Ok(_) => r is Ok,
            Err(e) => r matches Err(f) && f == e,
        }
}

/// The session was asked for `command` alone. Its error comes out; else the value of its reply is
/// read where `valid` says that it can be, and then `reads` relates the value to the result.
pub open spec fn told<D: Driver, T>(
    d: D,
    command: CommandView,
    valid: spec_fn(Json) -> bool,
    reads: spec_fn(Json, T) -> bool,
    r: WebDriverResult<T>,
) -> bool {
    exists|reply: WebDriverResult<JsonValue>| #[trigger]
        d.may_answer(command, reply) && match reply {
            Err(e) => r matches Err(f) && f == e,
            Ok(body) => match value_in(body) {
                Some(v) => if valid(v) {
                    r matches Ok(t) && reads(v, t)
                } else {
                    r is Err
                },
                None => r is Err,
            },
        }
}

/// The session was asked for `command`, which is answered by a text.
pub open spec fn told_text<D: Driver>(d: D, command: CommandView, r: WebDriverResult<String>) -> bool {
    told(d, command, |v: Json| v is Str, |v: Json, t: String| v == Json::Str(t@), r)
}

/// The session was asked for `command`, whose value is handed on as it is.
pub open spec fn told_value<D: Driver>(
    d: D,
    command: CommandView,
    r: WebDriverResult<JsonValue>,
) -> bool {
    told(d, command, |v: Json| true, |v: Json, t: JsonValue| t@ == v, r)
}

/// The session was asked for `command`, which is answered by a yes or a no.
pub open spec fn told_flag<D: Driver>(d: D, command: CommandView, r: WebDriverResult<bool>) -> bool {
    told(d, command, |v: Json| v is Bool, |v: Json, t: bool| v == Json::Bool(t), r)
}

/// Data is the base64 text that it came as, decoded. A text that cannot be is an error.
pub open spec fn decoded(text: WebDriverResult<String>, r: WebDriverResult<Vec<u8>>) -> bool {
    match text {
        Err(e) => r matches Err(f) && f == e,
        Ok(t) => match encoding::base64_bytes(t@) {
            Ok(bytes) => r matches Ok(v) && v@ == bytes,
            Err(message) => r matches Err(e) && e@ matches WebDriverErrorInner::DecodeError(m) && m@
                == message,
        },
    }
}

} // verus!
