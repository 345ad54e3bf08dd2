//! JSON as text: reading and writing through `serde_json`.
use crate::json;
use crate::json::{Json, JsonValue, Object};
use vstd::prelude::*;

verus! {

/// `serde_json`'s own value type, carried from one call into that crate to the next.
#[verifier::external_type_specification]
#[verifier::external_body]
pub struct ExSerdeValue(serde_json::Value);

/// What a value of `serde_json` holds.
pub uninterp spec fn serde_content(v: serde_json::Value) -> Json;

/// What `serde_json::from_str` reads from a text: a value, or a message that says why not.
pub uninterp spec fn json_of_text(text: Seq<char>) -> Result<Json, Seq<char>>;

/// What `serde_json::from_slice` reads from bytes.
pub uninterp spec fn json_of_bytes(bytes: Seq<u8>) -> Result<Json, Seq<char>>;

/// What `serde_json::to_string` writes for a value.
pub uninterp spec fn text_of_json(value: Json) -> Seq<char>;

/// What `{:#?}` writes for a value of `serde_json`.
pub uninterp spec fn debug_of_json(value: Json) -> Seq<char>;

/// What `{:?}` writes for a value of `serde_json`.
pub uninterp spec fn debug_line_of_json(value: Json) -> Seq<char>;

/// One layer of a value: its variant, with what it holds still in `serde_json`'s type.
pub enum Layer {
    Null,
    Bool(bool),
    Unsigned(u64),
    Signed(i64),
    Decimal(String),
    Text(String),
    Items(Vec<serde_json::Value>),
    Members(Vec<(String, serde_json::Value)>),
}

/// What a sequence of values holds.
pub open spec fn serde_items(items: Seq<serde_json::Value>) -> Seq<Json> {
    Seq::new(items.len(), |i: int| serde_content(items[i]))
}

/// What a list of members holds; where a name occurs twice the last one counts.
pub open spec fn serde_members(entries: Seq<(String, serde_json::Value)>) -> Map<Seq<char>, Json>
    decreases entries.len(),
{
    if entries.len() == 0 {
        Map::empty()
    } else {
        serde_members(entries.drop_last()).insert(
            entries.last().0@,
            serde_content(entries.last().1),
        )
    }
}

/// No two entries carry the same name.
pub open spec fn distinct_names(entries: Seq<(String, serde_json::Value)>) -> bool {
    forall|i: int, j: int|
        0 <= i < j < entries.len() ==> (#[trigger] entries[i]).0@ != (#[trigger] entries[j]).0@
}

/// What a value comes to when it is written: every numeral with a fraction or an exponent is read
/// by `serde_json` as a text of its own, and is `null` where that is no JSON.
pub open spec fn settled(v: Json) -> Json
    decreases v,
{
    match v {
        Json::Decimal(s) => match json_of_text(s) {
            Ok(number) => number,
            Err(_) => Json::Null,
        },
        Json::Arr(items) => Json::Arr(
            Seq::new(
                items.len(),
                |i: int|
                    if 0 <= i < items.len() {
                        settled(items[i])
                    } else {
                        Json::Null
                    },
            ),
        ),
        Json::Obj(members) => Json::Obj(
            Map::new(
                |name: Seq<char>| members.contains_key(name),
                |name: Seq<char>|
                    if members.dom().finite() && members.contains_key(name) {
                        settled(members[name])
                    } else {
                        Json::Null
                    },
            ),
        ),
        _ => v,
    }
}

/// No number in the value has a fraction or an exponent.
pub open spec fn whole(v: Json) -> bool
    decreases v,
{
    match v {
        Json::Decimal(_) => false,
        Json::Arr(items) => forall|i: int| 0 <= i < items.len() ==> whole(#[trigger] items[i]),
        Json::Obj(members) => members.dom().finite() && forall|name: Seq<char>|
            members.dom().finite() && #[trigger] members.contains_key(name) ==> whole(
                members[name],
            ),
        _ => true,
    }
}

/// A value without fractions and exponents is written as it is.
pub proof fn lemma_whole_is_settled(v: Json)
    requires
        whole(v),
    ensures
        settled(v) == v,
    decreases v,
{
    match v {
        Json::Arr(items) => {
            assert forall|i: int| 0 <= i < items.len() implies settled(#[trigger] items[i])
                == items[i] by {
                assert(whole(items[i]));
                lemma_whole_is_settled(items[i]);
            }
            assert(settled(v)->Arr_0 =~= items);
        },
        Json::Obj(members) => {
            assert forall|name: Seq<char>| #[trigger] members.contains_key(name) implies settled(
                members[name],
            ) == members[name] by {
                assert(whole(members[name]));
                lemma_whole_is_settled(members[name]);
            }
            assert(settled(v)->Obj_0 =~= members);
        },
        _ => {},
    }
}

/// One more item at the end of a list.
proof fn lemma_settled_items_push(items: Seq<Json>, item: Json)
    ensures
        settled(Json::Arr(items.push(item)))->Arr_0 == settled(Json::Arr(items))->Arr_0.push(
            settled(item),
        ),
{
    let all = items.push(item);
    assert(settled(Json::Arr(all))->Arr_0 =~= settled(Json::Arr(items))->Arr_0.push(
        settled(item),
    ));
}

/// One more member of an object.
proof fn lemma_settled_members_insert(members: Map<Seq<char>, Json>, name: Seq<char>, value: Json)
    requires
        members.dom().finite(),
    ensures
        settled(Json::Obj(members.insert(name, value)))->Obj_0 == settled(
            Json::Obj(members),
        )->Obj_0.insert(name, settled(value)),
{
    assert(settled(Json::Obj(members.insert(name, value)))->Obj_0 =~= settled(
        Json::Obj(members),
    )->Obj_0.insert(name, settled(value)));
}

impl Layer {
    /// What the layer holds.
    pub open spec fn content(self) -> Json {
        match self {
            Layer::Null => Json::Null,
            Layer::Bool(b) => Json::Bool(b),
            Layer::Unsigned(n) => Json::Int(n as int),
            Layer::Signed(n) => Json::Int(n as int),
            Layer::Decimal(s) => Json::Decimal(s@),
            Layer::Text(s) => Json::Str(s@),
            Layer::Items(items) => Json::Arr(serde_items(items@)),
            Layer::Members(entries) => Json::Obj(serde_members(entries@)),
        }
    }
}

/// `serde_json::from_str` into `serde_json::Value`: the value read, or the error's message.
#[verifier::external_body]
fn serde_from_str(text: &str) -> (r: Result<serde_json::Value, String>)
    ensures
        match r {
            Ok(v) => json_of_text(text@) == Ok::<Json, Seq<char>>(serde_content(v)),
            Err(e) => json_of_text(text@) == Err::<Json, Seq<char>>(e@),
        },
{
    serde_json::from_str(text).map_err(|e| e.to_string())
}

/// `serde_json::from_slice` into `serde_json::Value`: the value read, or the error's message.
#[verifier::external_body]
fn serde_from_slice(bytes: &[u8]) -> (r: Result<serde_json::Value, String>)
    ensures
        match r {
            Ok(v) => json_of_bytes(bytes@) == Ok::<Json, Seq<char>>(serde_content(v)),
            Err(e) => json_of_bytes(bytes@) == Err::<Json, Seq<char>>(e@),
        },
{
    serde_json::from_slice(bytes).map_err(|e| e.to_string())
}

/// `serde_json::to_string` of a `serde_json::Value`, which has no case that fails: its names
/// are strings, and its numbers are finite.
#[verifier::external_body]
fn serde_to_string(v: &serde_json::Value) -> (r: String)
    ensures
        r@ == text_of_json(serde_content(*v)),
{
    serde_json::to_string(v).unwrap_or_default()
}

/// The `Debug` form of a `serde_json::Value`, over several lines.
#[verifier::external_body]
fn serde_debug(v: &serde_json::Value) -> (r: String)
    ensures
        r@ == debug_of_json(serde_content(*v)),
{
    format!("{:#?}", v)
}

/// The `Debug` form of a `serde_json::Value`, on one line.
#[verifier::external_body]
fn serde_debug_line(v: &serde_json::Value) -> (r: String)
    ensures
        r@ == debug_line_of_json(serde_content(*v)),
{
    format!("{:?}", v)
}

/// The variant of a `serde_json::Value` with what it holds. A number comes as the integer that
/// `as_u64` or `as_i64` gives, or else as its numeral. The names of an object differ, as the keys
/// of a `serde_json::Map` do.
#[verifier::external_body]
fn serde_open(v: serde_json::Value) -> (r: Layer)
    ensures
        r.content() == serde_content(v),
        r matches Layer::Members(entries) ==> distinct_names(entries@),
{
    match v {
        serde_json::Value::Null => Layer::Null,
        serde_json::Value::Bool(b) => Layer::Bool(b),
        serde_json::Value::Number(n) => match (n.as_u64(), n.as_i64()) {
            (Some(u), _) => Layer::Unsigned(u),
            (None, Some(i)) => Layer::Signed(i),
            (None, None) => Layer::Decimal(n.to_string()),
        },
        serde_json::Value::String(s) => Layer::Text(s),
        serde_json::Value::Array(a) => Layer::Items(a),
        serde_json::Value::Object(m) => Layer::Members(m.into_iter().collect()),
    }
}

/// The `serde_json::Value` with the given variant and contents. A later member of an object
/// takes the place of an earlier one of the same name, as `serde_json::Map::insert` has it.
#[verifier::external_body]
fn serde_close(layer: Layer) -> (r: serde_json::Value)
    requires
        !(layer is Decimal),
    ensures
        serde_content(r) == layer.content(),
{
    match layer {
        Layer::Null => serde_json::Value::Null,
        Layer::Bool(b) => serde_json::Value::from(b),
        Layer::Unsigned(n) => serde_json::Value::from(n),
        Layer::Signed(n) => serde_json::Value::from(n),
        Layer::Decimal(s) => serde_json::Value::from(s),
        Layer::Text(s) => serde_json::Value::from(s),
        Layer::Items(items) => serde_json::Value::from(items),
        Layer::Members(entries) => serde_json::Value::Object(entries.into_iter().collect()),
    }
}

/// With distinct names, every entry is a member.
proof fn lemma_serde_members(entries: Seq<(String, serde_json::Value)>, i: int)
    requires
        0 <= i < entries.len(),
        distinct_names(entries),
    ensures
        serde_members(entries).contains_key(entries[i].0@),
        serde_members(entries)[entries[i].0@] == serde_content(entries[i].1),
    decreases entries.len(),
{
    let init = entries.drop_last();
    if i < init.len() {
        assert(distinct_names(init)) by {
            assert forall|a: int, b: int| 0 <= a < b < init.len() implies (#[trigger] init[a]).0@
                != (#[trigger] init[b]).0@ by {
                assert(entries[a].0@ != entries[b].0@);
            }
        }
        lemma_serde_members(init, i);
        assert(init[i] == entries[i]);
        assert(entries[i].0@ != entries[entries.len() - 1].0@);
    }
}

/// An object has finitely many members.
proof fn lemma_serde_members_finite(entries: Seq<(String, serde_json::Value)>)
    ensures
        serde_members(entries).dom().finite(),
    decreases entries.len(),
{
    if entries.len() > 0 {
        lemma_serde_members_finite(entries.drop_last());
    }
}

/// One more member at the end.
proof fn lemma_serde_members_push(
    entries: Seq<(String, serde_json::Value)>,
    e: (String, serde_json::Value),
)
    ensures
        serde_members(entries.push(e)) == serde_members(entries).insert(e.0@, serde_content(e.1)),
{
    assert(entries.push(e).drop_last() == entries);
}

/// The value that a `serde_json::Value` holds.
fn from_serde(v: serde_json::Value) -> (r: JsonValue)
    ensures
        r@ == serde_content(v),
    decreases serde_content(v),
{
    match serde_open(v) {
        Layer::Null => JsonValue::Null,
        Layer::Bool(b) => JsonValue::Bool(b),
        Layer::Unsigned(n) => JsonValue::Unsigned(n),
        Layer::Signed(n) => JsonValue::Signed(n),
        Layer::Decimal(s) => JsonValue::Decimal(s),
        Layer::Text(s) => JsonValue::String(s),
        Layer::Items(items) => {
            let ghost all = items@;
            let ghost whole = serde_content(v);
            let n: usize = items.len();
            let mut rest: Vec<serde_json::Value> = items;
            let mut done: Vec<JsonValue> = Vec::new();
            let mut i: usize = 0;
            while i < n
                invariant
                    i <= n,
                    n == all.len(),
                    rest@ == all.skip(i as int),
                    whole == serde_content(v),
                    whole == Json::Arr(serde_items(all)),
                    json::items_view(done@) == serde_items(all).take(i as int),
                decreases n - i,
            {
                let item: serde_json::Value = rest.remove(0);
                let ghost before = done@;
                proof {
                    assert(item == all[i as int]);
                    assert(serde_items(all)[i as int] == serde_content(item));
                    assert(decreases_to!(whole => whole->Arr_0));
                    assert(decreases_to!(whole->Arr_0 => whole->Arr_0[i as int]));
                    assert(all.skip(i as int).remove(0) == all.skip(i as int + 1));
                }
                let value: JsonValue = from_serde(item);
                done.push(value);
                i = i + 1;
                proof {
                    json::lemma_items_view_push(before, value);
                    assert(serde_items(all).take(i as int) == serde_items(all).take(
                        i as int - 1,
                    ).push(value@));
                }
            }
            assert(serde_items(all).take(n as int) == serde_items(all));
            JsonValue::Array(done)
        },
        Layer::Members(entries) => {
            let ghost all = entries@;
            let ghost whole = serde_content(v);
            let n: usize = entries.len();
            let mut rest: Vec<(String, serde_json::Value)> = entries;
            let mut done: Vec<(String, JsonValue)> = Vec::new();
            let mut i: usize = 0;
            while i < n
                invariant
                    i <= n,
                    n == all.len(),
                    rest@ == all.skip(i as int),
                    whole == serde_content(v),
                    whole == Json::Obj(serde_members(all)),
                    distinct_names(all),
                    json::members_view(done@) == serde_members(all.take(i as int)),
                decreases n - i,
            {
                let entry: (String, serde_json::Value) = rest.remove(0);
                let ghost before = done@;
                proof {
                    assert(entry == all[i as int]);
                    lemma_serde_members(all, i as int);
                    lemma_serde_members_finite(all);
                    assert(decreases_to!(whole => whole->Obj_0));
                    vstd::map::axiom_map_index_decreases_finite(whole->Obj_0, entry.0@);
                    assert(all.skip(i as int).remove(0) == all.skip(i as int + 1));
                }
                let value: JsonValue = from_serde(entry.1);
                done.push((entry.0, value));
                i = i + 1;
                proof {
                    json::lemma_members_view_push(before, (entry.0, value));
                    assert(all.take(i as int) == all.take(i as int - 1).push(entry));
                    lemma_serde_members_push(all.take(i as int - 1), entry);
                }
            }
            assert(all.take(n as int) == all);
            JsonValue::Object(Object { entries: done })
        },
    }
}

/// The `serde_json::Value` that holds this value. A numeral with a fraction or an exponent is
/// read as a text of its own, and is `null` where it is none.
fn to_serde(v: &JsonValue) -> (r: serde_json::Value)
    ensures
        serde_content(r) == settled(v@),
    decreases v,
{
    match v {
        JsonValue::Null => serde_close(Layer::Null),
        JsonValue::Bool(b) => serde_close(Layer::Bool(*b)),
        JsonValue::Unsigned(n) => serde_close(Layer::Unsigned(*n)),
        JsonValue::Signed(n) => serde_close(Layer::Signed(*n)),
        JsonValue::Decimal(s) => match serde_from_str(s.as_str()) {
            Ok(number) => number,
            Err(_) => serde_close(Layer::Null),
        },
        JsonValue::String(s) => serde_close(Layer::Text(s.clone())),
        JsonValue::Array(items) => {
            let mut done: Vec<serde_json::Value> = Vec::new();
            let mut i: usize = 0;
            proof {
                assert(items@.take(0) == Seq::<JsonValue>::empty());
                assert(serde_items(done@) =~= settled(
                    Json::Arr(json::items_view(items@.take(0))),
                )->Arr_0);
            }
            while i < items.len()
                invariant
                    i <= items.len(),
                    done.len() == i,
                    decreases_to!(v => items@),
                    Json::Arr(serde_items(done@)) == settled(
                        Json::Arr(json::items_view(items@.take(i as int))),
                    ),
                decreases items.len() - i,
            {
                let ghost before = done@;
                assert(decreases_to!(items@ => items@[i as int]));
                let item: serde_json::Value = to_serde(&items[i]);
                done.push(item);
                i = i + 1;
                proof {
                    let items_before = items@.take(i as int - 1);
                    assert(items@.take(i as int) == items_before.push(items@[i as int - 1]));
                    json::lemma_items_view_push(items_before, items@[i as int - 1]);
                    lemma_settled_items_push(json::items_view(items_before), items@[i as int - 1]@);
                    assert(serde_items(done@) == serde_items(before).push(serde_content(item)));
                }
            }
            assert(items@.take(items.len() as int) == items@);
            serde_close(Layer::Items(done))
        },
        JsonValue::Object(o) => {
            let entries: &Vec<(String, JsonValue)> = &o.entries;
            let mut done: Vec<(String, serde_json::Value)> = Vec::new();
            let mut i: usize = 0;
            proof {
                assert(entries@.take(0) == Seq::<(String, JsonValue)>::empty());
                assert(serde_members(done@) =~= settled(
                    Json::Obj(json::members_view(entries@.take(0))),
                )->Obj_0);
            }
            while i < entries.len()
                invariant
                    i <= entries.len(),
                    decreases_to!(v => entries@),
                    Json::Obj(serde_members(done@)) == settled(
                        Json::Obj(json::members_view(entries@.take(i as int))),
                    ),
                decreases entries.len() - i,
            {
                let ghost before = done@;
                let entry: &(String, JsonValue) = &entries[i];
                assert(decreases_to!(entries@ => entries@[i as int]));
                assert(decreases_to!(entries@[i as int] => entries@[i as int].1));
                let value: serde_json::Value = to_serde(&entry.1);
                let name: String = entry.0.clone();
                done.push((name, value));
                i = i + 1;
                proof {
                    let entries_before = entries@.take(i as int - 1);
                    let last = entries@[i as int - 1];
                    assert(entries@.take(i as int) == entries_before.push(last));
                    json::lemma_members_view_push(entries_before, last);
                    json::lemma_members_dom(entries_before, last.0@);
                    lemma_settled_members_insert(
                        json::members_view(entries_before),
                        last.0@,
                        last.1@,
                    );
                    lemma_serde_members_push(before, (name, value));
                }
            }
            assert(entries@.take(entries.len() as int) == entries@);
            serde_close(Layer::Members(done))
        },
    }
}

impl JsonValue {
    /// Reads a value from a text. The error says why the text is none.
    pub fn parse(text: &str) -> (r: Result<JsonValue, String>)
        ensures
            match r {
                Ok(v) => json_of_text(text@) == Ok::<Json, Seq<char>>(v@),
                Err(e) => json_of_text(text@) == Err::<Json, Seq<char>>(e@),
            },
    {
        match serde_from_str(text) {
            Ok(v) => Ok(from_serde(v)),
            Err(e) => Err(e),
        }
    }

    /// Reads a value from the bytes of a text.
    pub fn parse_bytes(bytes: &[u8]) -> (r: Result<JsonValue, String>)
        ensures
            match r {
                Ok(v) => json_of_bytes(bytes@) == Ok::<Json, Seq<char>>(v@),
                Err(e) => json_of_bytes(bytes@) == Err::<Json, Seq<char>>(e@),
            },
    {
        match serde_from_slice(bytes) {
            Ok(v) => Ok(from_serde(v)),
            Err(e) => Err(e),
        }
    }

    /// The value as a text on one line. A number with a fraction or an exponent is written as
    /// `serde_json` writes the nearest number that it holds.
    pub fn to_text(&self) -> (r: String)
        ensures
            r@ == text_of_json(settled(self@)),
    {
        serde_to_string(&to_serde(self))
    }

    /// The value as a text over several lines, for people to read.
    pub fn to_debug(&self) -> (r: String)
        ensures
            r@ == debug_of_json(settled(self@)),
    {
        serde_debug(&to_serde(self))
    }

    /// The value as a text on one line, for people to read.
    pub fn to_debug_line(&self) -> (r: String)
        ensures
            r@ == debug_line_of_json(settled(self@)),
    {
        serde_debug_line(&to_serde(self))
    }
}

} // verus!
