//! JSON values: what they hold, and what is read from them.
use vstd::prelude::*;

use crate::json::{Json, JsonValue, Object};
use crate::json;
use crate::wire;

verus! {

/// The last entry of a name is the member of that name. A name without an entry is no member.
pub proof fn law_last_entry_counts(o: Object, name: Seq<char>)
    ensures
        o@.contains_key(name) <==> exists|i: int|
            0 <= i < o.entries@.len() && (#[trigger] o.entries@[i]).0@ == name,
        forall|i: int|
            0 <= i < o.entries@.len() && (#[trigger] o.entries@[i]).0@ == name && (forall|j: int|
                i < j < o.entries@.len() ==> (#[trigger] o.entries@[j]).0@ != name) ==> o@[name]
                == o.entries@[i].1@,
    decreases o.entries@.len(),
{
    json::lemma_members_dom(o.entries@, name);
    assert forall|i: int|
        0 <= i < o.entries@.len() && (#[trigger] o.entries@[i]).0@ == name && (forall|j: int|
            i < j < o.entries@.len() ==> (#[trigger] o.entries@[j]).0@ != name) implies o@[name]
        == o.entries@[i].1@ by {
        lemma_last(o.entries@, i);
    }
}

proof fn lemma_last(entries: Seq<(String, JsonValue)>, i: int)
    requires
        0 <= i < entries.len(),
        forall|j: int| i < j < entries.len() ==> (#[trigger] entries[j]).0@ != entries[i].0@,
    ensures
        json::members_view(entries)[entries[i].0@] == entries[i].1@,
    decreases entries.len(),
{
    let init = entries.drop_last();
    assert(entries == init.push(entries.last()));
    json::lemma_members_view_push(init, entries.last());
    if i < entries.len() - 1 {
        assert(entries[entries.len() - 1].0@ != entries[i].0@);
        assert forall|j: int| i < j < init.len() implies (#[trigger] init[j]).0@ != init[i].0@ by {
            assert(entries[j].0@ != entries[i].0@);
        }
        lemma_last(init, i);
    }
}

/// Members that are set are there afterwards, those that are taken out are not, and all others stay
/// as they were.
pub proof fn law_object_members(name: &str, value: JsonValue, other: Seq<char>)
    requires
        other != name@,
    ensures
        forall|r: Object| #[trigger] call_ensures(Object::new, (), r) ==> !r@.contains_key(other),
        forall|o: &mut Object, r: ()| #[trigger]
            call_ensures(Object::push, (o, name, value), r) ==> holds_now(
                (*o)@,
                final(o)@,
                name@,
                Some(value@),
                other,
            ),
        forall|o: &mut Object, r: ()| #[trigger]
            call_ensures(Object::insert, (o, name, value), r) ==> holds_now(
                (*o)@,
                final(o)@,
                name@,
                Some(value@),
                other,
            ),
        forall|o: &mut Object, r: ()| #[trigger]
            call_ensures(Object::insert_some, (o, name, Some(value)), r) ==> holds_now(
                (*o)@,
                final(o)@,
                name@,
                Some(value@),
                other,
            ),
        forall|o: &mut Object, r: ()| #[trigger]
            call_ensures(Object::insert_some, (o, name, None::<JsonValue>), r) ==> final(o)@
                == (*o)@,
        forall|o: &mut Object, r: Option<JsonValue>| #[trigger]
            call_ensures(Object::remove, (o, name), r) ==> holds_now(
                (*o)@,
                final(o)@,
                name@,
                None,
                other,
            ) && match r {
                Some(v) => (*o)@.contains_key(name@) && (*o)@[name@] == v@,
                None => !(*o)@.contains_key(name@),
            },
        forall|o: &Object, r: Option<&JsonValue>| #[trigger]
            call_ensures(Object::get, (o, name), r) ==> match r {
                Some(v) => o@.contains_key(name@) && o@[name@] == v@,
                None => !o@.contains_key(name@),
            },
{
}

/// The member is `value` now, or is missing; another one is as it was.
pub open spec fn holds_now(
    before: Map<Seq<char>, Json>,
    after: Map<Seq<char>, Json>,
    name: Seq<char>,
    value: Option<Json>,
    other: Seq<char>,
) -> bool {
    &&& match value {
        Some(v) => after.contains_key(name) && after[name] == v,
        None => !after.contains_key(name),
    }
    &&& after.contains_key(other) == before.contains_key(other)
    &&& before.contains_key(other) ==> after[other] == before[other]
}

/// Values are made of what they are given, and of nothing else.
pub proof fn law_values_are_made(n1: &str, v1: JsonValue, n2: &str, v2: JsonValue, other: Seq<char>)
    requires
        n1@ != n2@,
        other != n1@,
        other != n2@,
    ensures
        forall|r: JsonValue| #[trigger]
            call_ensures(JsonValue::text, (n1,), r) ==> r@ == Json::Str(n1@),
        forall|r: JsonValue| #[trigger]
            call_ensures(JsonValue::empty_object, (), r) ==> (r@ matches Json::Obj(m)
                && !m.contains_key(other)),
        forall|r: JsonValue| #[trigger]
            call_ensures(JsonValue::object1, (n1, v1), r) ==> (r@ matches Json::Obj(m)
                && m.contains_key(n1@) && m[n1@] == v1@ && !m.contains_key(n2@)),
        forall|r: JsonValue| #[trigger]
            call_ensures(JsonValue::object2, (n1, v1, n2, v2), r) ==> (r@ matches Json::Obj(m)
                && m.contains_key(n1@) && m[n1@] == v1@ && m.contains_key(n2@) && m[n2@] == v2@
                && !m.contains_key(other)),
{
}

/// A value is read as what it is. A whole number is read as far as it fits.
pub proof fn law_values_are_read(v: &JsonValue, name: &str)
    ensures
        forall|r: bool| #[trigger] call_ensures(JsonValue::is_null, (v,), r) ==> r == (v@ is Null),
        forall|r: Option<&str>| #[trigger]
            call_ensures(JsonValue::as_str, (v,), r) ==> match v@ {
                Json::Str(s) => r matches Some(t) && t@ == s,
                _ => r is None,
            },
        forall|r: Option<bool>| #[trigger]
            call_ensures(JsonValue::as_bool, (v,), r) ==> match v@ {
                Json::Bool(b) => r == Some(b),
                _ => r is None,
            },
        forall|r: Option<u64>| #[trigger]
            call_ensures(JsonValue::as_u64, (v,), r) ==> match v@ {
                Json::Int(n) => if 0 <= n <= u64::MAX {
                    r matches Some(m) && m == n
                } else {
                    r is None
                },
                _ => r is None,
            },
        forall|r: Option<i64>| #[trigger]
            call_ensures(JsonValue::as_i64, (v,), r) ==> match v@ {
                Json::Int(n) => if i64::MIN <= n <= i64::MAX {
                    r matches Some(m) && m == n
                } else {
                    r is None
                },
                _ => r is None,
            },
        forall|r: Option<&JsonValue>| #[trigger]
            call_ensures(JsonValue::get, (v, name), r) ==> match v@ {
                Json::Obj(m) => if m.contains_key(name@) {
                    r matches Some(w) && w@ == m[name@]
                } else {
                    r is None
                },
                _ => r is None,
            },
{
}

/// A record is an object or a list of as many items as it has fields. Its fields are members by
/// name, or items by place.
pub proof fn law_records(v: &JsonValue, arity: usize, place: usize, name: &str)
    ensures
        forall|r: bool| #[trigger]
            call_ensures(JsonValue::is_record, (v, arity), r) ==> r == (v@ is Obj || (
            v@ matches Json::Arr(items) && items.len() == arity)),
        forall|r: Option<&JsonValue>| #[trigger]
            call_ensures(JsonValue::field, (v, place, name), r) ==> match v@ {
                Json::Obj(m) => if m.contains_key(name@) {
                    r matches Some(w) && w@ == m[name@]
                } else {
                    r is None
                },
                Json::Arr(items) => if place < items.len() {
                    r matches Some(w) && w@ == items[place as int]
                } else {
                    r is None
                },
                _ => r is None,
            },
{
}

/// A field that may be missing may be `null` too. Else it must hold what it is read as.
pub proof fn law_optional_fields(value: Option<&JsonValue>)
    ensures
        forall|r: Option<String>| #[trigger]
            call_ensures(json::read_str, (value,), r) ==> match value {
                Some(v) => match v@ {
                    Json::Str(s) => r matches Some(t) && t@ == s,
                    _ => r is None,
                },
                None => r is None,
            },
        forall|r: Option<Option<String>>| #[trigger]
            call_ensures(json::read_opt_str, (value,), r) ==> match value {
                Some(v) => match v@ {
                    Json::Null => r matches Some(o) && o is None,
                    Json::Str(s) => r matches Some(Some(t)) && t@ == s,
                    _ => r is None,
                },
                None => r matches Some(o) && o is None,
            },
        forall|r: Option<JsonValue>| #[trigger]
            call_ensures(json::read_opt, (value,), r) ==> match value {
                Some(v) => if v@ is Null {
                    r is None
                } else {
                    r matches Some(w) && w@ == v@
                },
                None => r is None,
            },
        forall|r: Option<Option<bool>>| #[trigger]
            call_ensures(json::read_opt_bool, (value,), r) ==> match value {
                Some(v) => match v@ {
                    Json::Null => r matches Some(o) && o is None,
                    Json::Bool(b) => r matches Some(Some(c)) && c == b,
                    _ => r is None,
                },
                None => r matches Some(o) && o is None,
            },
        forall|r: Option<Option<u64>>| #[trigger]
            call_ensures(json::read_opt_u64, (value,), r) ==> match value {
                Some(v) => match v@ {
                    Json::Null => r matches Some(o) && o is None,
                    Json::Int(n) => if 0 <= n <= u64::MAX {
                        r matches Some(Some(m)) && m == n
                    } else {
                        r is None
                    },
                    _ => r is None,
                },
                None => r matches Some(o) && o is None,
            },
        forall|r: Option<Option<i64>>| #[trigger]
            call_ensures(json::read_opt_i64, (value,), r) ==> match value {
                Some(v) => match v@ {
                    Json::Null => r matches Some(o) && o is None,
                    Json::Int(n) => if i64::MIN <= n <= i64::MAX {
                        r matches Some(Some(m)) && m == n
                    } else {
                        r is None
                    },
                    _ => r is None,
                },
                None => r matches Some(o) && o is None,
            },
{
}

/// There is no numeral with a fraction or an exponent in the value.
pub open spec fn whole(v: Json) -> bool
    decreases v,
{
    match v {
        Json::Decimal(_) => false,
        Json::Arr(items) => forall|i: int|
            0 <= i < items.len() ==> 0 <= i < items.len() && whole(#[trigger] items[i]),
        Json::Obj(members) => members.dom().finite() && forall|name: Seq<char>| #[trigger]
            members.contains_key(name) ==> members.dom().finite() && members.contains_key(name)
                && whole(members[name]),
        _ => true,
    }
}

/// A value without such numerals is written as it is.
pub proof fn law_written_as_it_is(v: &JsonValue, r: String)
    requires
        call_ensures(JsonValue::to_text, (v,), r),
        whole(v@),
    ensures
        r@ == wire::text_of_json(v@),
{
    lemma_settled(v@);
}

proof fn lemma_settled(v: Json)
    requires
        whole(v),
    ensures
        wire::settled(v) == v,
    decreases v,
{
    match v {
        Json::Arr(items) => {
            assert forall|i: int| 0 <= i < items.len() implies wire::settled(#[trigger] items[i])
                == items[i] by {
                lemma_settled(items[i]);
            }
            assert(wire::settled(v)->Arr_0 =~= items);
        },
        Json::Obj(members) => {
            assert forall|name: Seq<char>| #[trigger] members.contains_key(name)
                implies wire::settled(
                members[name],
            ) == members[name] by {
                lemma_settled(members[name]);
            }
            assert(wire::settled(v)->Obj_0 =~= members);
        },
        _ => {},
    }
}

/// A text is read as the JSON that it is, and the error says why it is none.
pub proof fn law_parsing(text: &str)
    ensures
        forall|r: Result<JsonValue, String>| #[trigger]
            call_ensures(JsonValue::parse, (text,), r) ==> match wire::json_of_text(text@) {
                Ok(v) => r matches Ok(w) && w@ == v,
                Err(m) => r matches Err(e) && e@ == m,
            },
{
}

} // verus!
