//! JSON values: the type that requests and replies are made of, and what it stands for.
use crate::text::text_eq;
use vstd::prelude::*;

verus! {

/// What a JSON value stands for. The members of an object have no order.
pub enum Json {
    Null,
    Bool(bool),
    /// A number without a fraction or an exponent.
    Int(int),
    /// Any other number, by its numeral.
    Decimal(Seq<char>),
    Str(Seq<char>),
    Arr(Seq<Json>),
    Obj(Map<Seq<char>, Json>),
}

/// A JSON value.
#[derive(Debug)]
pub enum JsonValue {
    Null,
    Bool(bool),
    Unsigned(u64),
    Signed(i64),
    /// A number with a fraction or an exponent, by its numeral.
    Decimal(String),
    String(String),
    Array(Vec<JsonValue>),
    Object(Object),
}

/// The members of a JSON object. Where a name occurs twice the last one counts.
#[derive(Debug)]
pub struct Object {
    pub entries: Vec<(String, JsonValue)>,
}

impl JsonValue {
    /// What this value stands for.
    pub open spec fn view(&self) -> Json
        decreases self,
    {
        match self {
            JsonValue::Null => Json::Null,
            JsonValue::Bool(b) => Json::Bool(*b),
            JsonValue::Unsigned(n) => Json::Int(*n as int),
            JsonValue::Signed(n) => Json::Int(*n as int),
            JsonValue::Decimal(s) => Json::Decimal(s@),
            JsonValue::String(s) => Json::Str(s@),
            JsonValue::Array(items) => Json::Arr(items_view(items@)),
            JsonValue::Object(o) => Json::Obj(o@),
        }
    }
}

impl Object {
    /// The members by name.
    pub open spec fn view(&self) -> Map<Seq<char>, Json>
        decreases self,
    {
        members_view(self.entries@)
    }
}

/// What a sequence of values stands for.
pub open spec fn items_view(items: Seq<JsonValue>) -> Seq<Json>
    decreases items,
{
    if items.len() == 0 {
        Seq::empty()
    } else {
        items_view(items.drop_last()).push(items.last()@)
    }
}

/// What a list of members stands for.
pub open spec fn members_view(entries: Seq<(String, JsonValue)>) -> Map<Seq<char>, Json>
    decreases entries,
{
    if entries.len() == 0 {
        Map::empty()
    } else {
        members_view(entries.drop_last()).insert(entries.last().0@, entries.last().1@)
    }
}

/// An object without members.
pub open spec fn obj0() -> Json {
    Json::Obj(Map::empty())
}

/// An object with one member.
pub open spec fn obj1(name: Seq<char>, value: Json) -> Json {
    Json::Obj(Map::empty().insert(name, value))
}

/// An object with two members.
pub open spec fn obj2(n1: Seq<char>, v1: Json, n2: Seq<char>, v2: Json) -> Json {
    Json::Obj(Map::empty().insert(n1, v1).insert(n2, v2))
}

/// `members` with one more where there is a value for it.
pub open spec fn with_member(
    members: Map<Seq<char>, Json>,
    name: Seq<char>,
    value: Option<Json>,
) -> Map<Seq<char>, Json> {
    match value {
        Some(v) => members.insert(name, v),
        None => members,
    }
}

/// The member of that name, where `value` is an object that has it.
pub open spec fn member(value: Json, name: Seq<char>) -> Option<Json> {
    match value {
        Json::Obj(members) => if members.contains_key(name) {
            Some(members[name])
        } else {
            None
        },
        _ => None,
    }
}

/// The texts of a sequence of strings, as values.
pub open spec fn strs(s: Seq<Seq<char>>) -> Seq<Json> {
    Seq::new(s.len(), |i: int| Json::Str(s[i]))
}

/// Whether a value can be read as a record of `arity` fields: an object, or a list with one item
/// for each field.
pub open spec fn is_record(value: Json, arity: nat) -> bool {
    match value {
        Json::Obj(_) => true,
        Json::Arr(items) => items.len() == arity,
        _ => false,
    }
}

/// The field of a record: the member of that name, or the item at that place.
pub open spec fn field(value: Json, place: int, name: Seq<char>) -> Option<Json> {
    match value {
        Json::Obj(_) => member(value, name),
        Json::Arr(items) => if 0 <= place < items.len() {
            Some(items[place])
        } else {
            None
        },
        _ => None,
    }
}

/// A field that holds a text.
pub open spec fn str_field(value: Option<Json>) -> Option<Seq<char>> {
    match value {
        Some(Json::Str(s)) => Some(s),
        _ => None,
    }
}

/// A field that may be missing or `null`, and else holds a text.
pub open spec fn opt_str_field(value: Option<Json>) -> Option<Option<Seq<char>>> {
    match value {
        None => Some(None),
        Some(Json::Null) => Some(None),
        Some(Json::Str(s)) => Some(Some(s)),
        _ => None,
    }
}

/// A field that may be missing or `null`.
pub open spec fn opt_field(value: Option<Json>) -> Option<Json> {
    match value {
        Some(Json::Null) => None,
        _ => value,
    }
}

/// A field that may be missing or `null`, and else holds a whole number of a range.
pub open spec fn opt_int_field(value: Option<Json>, low: int, high: int) -> Option<Option<int>> {
    match value {
        None => Some(None),
        Some(Json::Null) => Some(None),
        Some(Json::Int(n)) => if low <= n <= high {
            Some(Some(n))
        } else {
            None
        },
        _ => None,
    }
}

/// A field that may be missing or `null`, and else holds a truth value.
pub open spec fn opt_bool_field(value: Option<Json>) -> Option<Option<bool>> {
    match value {
        None => Some(None),
        Some(Json::Null) => Some(None),
        Some(Json::Bool(b)) => Some(Some(b)),
        _ => None,
    }
}

/// What an optional value stands for.
pub open spec fn opt_view(value: Option<JsonValue>) -> Option<Json> {
    match value {
        Some(v) => Some(v@),
        None => None,
    }
}

/// What an optional reference to a value stands for.
pub open spec fn opt_ref_view(value: Option<&JsonValue>) -> Option<Json> {
    match value {
        Some(v) => Some(v@),
        None => None,
    }
}

/// The values stand one for one for what the sequence stands for.
pub proof fn lemma_items_view(items: Seq<JsonValue>)
    ensures
        items_view(items).len() == items.len(),
        forall|i: int| 0 <= i < items.len() ==> (#[trigger] items_view(items)[i]) == items[i]@,
    decreases items.len(),
{
    if items.len() > 0 {
        lemma_items_view(items.drop_last());
        assert forall|i: int| 0 <= i < items.len() implies (#[trigger] items_view(items)[i])
            == items[i]@ by {
            if i < items.len() - 1 {
                assert(items_view(items)[i] == items_view(items.drop_last())[i]);
                assert(items.drop_last()[i] == items[i]);
            }
        }
    }
}

/// One more value at the end.
pub proof fn lemma_items_view_push(items: Seq<JsonValue>, v: JsonValue)
    ensures
        items_view(items.push(v)) == items_view(items).push(v@),
{
    assert(items.push(v).drop_last() == items);
}

/// One more member at the end.
pub proof fn lemma_members_view_push(entries: Seq<(String, JsonValue)>, e: (String, JsonValue))
    ensures
        members_view(entries.push(e)) == members_view(entries).insert(e.0@, e.1@),
{
    assert(entries.push(e).drop_last() == entries);
}

/// A name is among the members exactly where an entry carries it.
pub proof fn lemma_members_dom(entries: Seq<(String, JsonValue)>, name: Seq<char>)
    ensures
        members_view(entries).contains_key(name) <==> exists|i: int|
            0 <= i < entries.len() && (#[trigger] entries[i]).0@ == name,
        members_view(entries).dom().finite(),
    decreases entries.len(),
{
    if entries.len() > 0 {
        let init = entries.drop_last();
        lemma_members_dom(init, name);
        if members_view(entries).contains_key(name) {
            if entries.last().0@ == name {
                assert(entries[entries.len() - 1].0@ == name);
            } else {
                let i = choose|i: int| 0 <= i < init.len() && (#[trigger] init[i]).0@ == name;
                assert(entries[i].0@ == name);
            }
        }
        if exists|i: int| 0 <= i < entries.len() && (#[trigger] entries[i]).0@ == name {
            let i = choose|i: int| 0 <= i < entries.len() && (#[trigger] entries[i]).0@ == name;
            if i < init.len() {
                assert(init[i].0@ == name);
            }
        }
    }
}

/// The last entry with a name gives the member, whatever other names follow it.
proof fn lemma_members_last(entries: Seq<(String, JsonValue)>, i: int)
    requires
        0 <= i < entries.len(),
        forall|j: int| i < j < entries.len() ==> (#[trigger] entries[j]).0@ != entries[i].0@,
    ensures
        members_view(entries).contains_key(entries[i].0@),
        members_view(entries)[entries[i].0@] == entries[i].1@,
    decreases entries.len(),
{
    if i < entries.len() - 1 {
        let init = entries.drop_last();
        assert(entries[entries.len() - 1].0@ != entries[i].0@);
        assert forall|j: int| i < j < init.len() implies (#[trigger] init[j]).0@ != init[i].0@ by {
            assert(entries[j].0@ != entries[i].0@);
        }
        lemma_members_last(init, i);
    }
}

impl JsonValue {
    /// A text.
    pub fn text(s: &str) -> (r: JsonValue)
        ensures
            r@ == Json::Str(s@),
    {
        JsonValue::String(s.to_owned())
    }

    /// An object without members.
    pub fn empty_object() -> (r: JsonValue)
        ensures
            r@ == obj0(),
    {
        JsonValue::Object(Object::new())
    }

    /// An object with one member.
    pub fn object1(name: &str, value: JsonValue) -> (r: JsonValue)
        ensures
            r@ == obj1(name@, value@),
    {
        let mut o: Object = Object::new();
        o.push(name, value);
        JsonValue::Object(o)
    }

    /// An object with two members.
    pub fn object2(n1: &str, v1: JsonValue, n2: &str, v2: JsonValue) -> (r: JsonValue)
        ensures
            r@ == obj2(n1@, v1@, n2@, v2@),
    {
        let mut o: Object = Object::new();
        o.push(n1, v1);
        o.push(n2, v2);
        JsonValue::Object(o)
    }

    /// The member of that name, where this is an object that has it.
    pub fn get(&self, name: &str) -> (r: Option<&JsonValue>)
        ensures
            match r {
                Some(v) => member(self@, name@) == Some(v@),
                None => member(self@, name@) is None,
            },
    {
        match self {
            JsonValue::Object(o) => o.get(name),
            _ => None,
        }
    }

    /// Whether this is `null`.
    pub fn is_null(&self) -> (r: bool)
        ensures
            r == (self@ is Null),
    {
        match self {
            JsonValue::Null => true,
            _ => false,
        }
    }

    /// The text, where this is one.
    pub fn as_str(&self) -> (r: Option<&str>)
        ensures
            match r {
                Some(s) => self@ == Json::Str(s@),
                None => !(self@ is Str),
            },
    {
        match self {
            JsonValue::String(s) => Some(s.as_str()),
            _ => None,
        }
    }

    /// The truth value, where this is one.
    pub fn as_bool(&self) -> (r: Option<bool>)
        ensures
            match r {
                Some(b) => self@ == Json::Bool(b),
                None => !(self@ is Bool),
            },
    {
        match self {
            JsonValue::Bool(b) => Some(*b),
            _ => None,
        }
    }

    /// The number, where this is one that fits.
    pub fn as_u64(&self) -> (r: Option<u64>)
        ensures
            match r {
                Some(n) => self@ == Json::Int(n as int),
                None => !(self@ matches Json::Int(n) && 0 <= n <= u64::MAX),
            },
    {
        match self {
            JsonValue::Unsigned(n) => Some(*n),
            JsonValue::Signed(n) => if *n >= 0 {
                Some(*n as u64)
            } else {
                None
            },
            _ => None,
        }
    }

    /// The number, where this is one that fits.
    pub fn as_i64(&self) -> (r: Option<i64>)
        ensures
            match r {
                Some(n) => self@ == Json::Int(n as int),
                None => !(self@ matches Json::Int(n) && i64::MIN <= n <= i64::MAX),
            },
    {
        match self {
            JsonValue::Unsigned(n) => if *n <= 0x7fff_ffff_ffff_ffff {
                Some(*n as i64)
            } else {
                None
            },
            JsonValue::Signed(n) => Some(*n),
            _ => None,
        }
    }
}

impl JsonValue {
    /// Whether this value can be read as a record of `arity` fields.
    pub fn is_record(&self, arity: usize) -> (r: bool)
        ensures
            r == is_record(self@, arity as nat),
    {
        match self {
            JsonValue::Object(_) => true,
            JsonValue::Array(items) => {
                proof {
                    lemma_items_view(items@);
                }
                items.len() == arity
            },
            _ => false,
        }
    }

    /// The field of a record: the member of that name, or the item at that place.
    pub fn field(&self, place: usize, name: &str) -> (r: Option<&JsonValue>)
        ensures
            opt_ref_view(r) == field(self@, place as int, name@),
    {
        match self {
            JsonValue::Object(_) => self.get(name),
            JsonValue::Array(items) => {
                proof {
                    lemma_items_view(items@);
                }
                if place < items.len() {
                    Some(&items[place])
                } else {
                    None
                }
            },
            _ => None,
        }
    }
}

/// A field that holds a text.
pub fn read_str(value: Option<&JsonValue>) -> (r: Option<String>)
    ensures
        crate::text::opt_text(r) == str_field(opt_ref_view(value)),
{
    match value {
        Some(v) => match v.as_str() {
            Some(s) => Some(s.to_owned()),
            None => None,
        },
        None => None,
    }
}

/// A field that may be missing or `null`, and else holds a text.
pub fn read_opt_str(value: Option<&JsonValue>) -> (r: Option<Option<String>>)
    ensures
        match r {
            Some(s) => opt_str_field(opt_ref_view(value)) == Some(crate::text::opt_text(s)),
            None => opt_str_field(opt_ref_view(value)) is None,
        },
{
    match value {
        Some(v) => if v.is_null() {
            Some(None)
        } else {
            match v.as_str() {
                Some(s) => Some(Some(s.to_owned())),
                None => None,
            }
        },
        None => Some(None),
    }
}

/// A field that may be missing or `null`.
pub fn read_opt(value: Option<&JsonValue>) -> (r: Option<JsonValue>)
    ensures
        opt_view(r) == opt_field(opt_ref_view(value)),
{
    match value {
        Some(v) => if v.is_null() {
            None
        } else {
            Some(v.clone())
        },
        None => None,
    }
}

/// A field that may be missing or `null`, and else holds a number from zero up.
pub fn read_opt_u64(value: Option<&JsonValue>) -> (r: Option<Option<u64>>)
    ensures
        match r {
            Some(n) => opt_int_field(opt_ref_view(value), 0, u64::MAX as int) == Some(
                match n {
                    Some(n) => Some(n as int),
                    None => None::<int>,
                },
            ),
            None => opt_int_field(opt_ref_view(value), 0, u64::MAX as int) is None,
        },
{
    match value {
        Some(v) => if v.is_null() {
            Some(None)
        } else {
            match v.as_u64() {
                Some(n) => Some(Some(n)),
                None => None,
            }
        },
        None => Some(None),
    }
}

/// A field that may be missing or `null`, and else holds a number.
pub fn read_opt_i64(value: Option<&JsonValue>) -> (r: Option<Option<i64>>)
    ensures
        match r {
            Some(n) => opt_int_field(opt_ref_view(value), i64::MIN as int, i64::MAX as int) == Some(
                match n {
                    Some(n) => Some(n as int),
                    None => None::<int>,
                },
            ),
            None => opt_int_field(opt_ref_view(value), i64::MIN as int, i64::MAX as int) is None,
        },
{
    match value {
        Some(v) => if v.is_null() {
            Some(None)
        } else {
            match v.as_i64() {
                Some(n) => Some(Some(n)),
                None => None,
            }
        },
        None => Some(None),
    }
}

/// A field that may be missing or `null`, and else holds a truth value.
pub fn read_opt_bool(value: Option<&JsonValue>) -> (r: Option<Option<bool>>)
    ensures
        match r {
            Some(b) => opt_bool_field(opt_ref_view(value)) == Some(b),
            None => opt_bool_field(opt_ref_view(value)) is None,
        },
{
    match value {
        Some(v) => if v.is_null() {
            Some(None)
        } else {
            match v.as_bool() {
                Some(b) => Some(Some(b)),
                None => None,
            }
        },
        None => Some(None),
    }
}

impl Clone for JsonValue {
    fn clone(&self) -> (r: Self)
        ensures
            r@ == self@,
        decreases self,
    {
        match self {
            JsonValue::Null => JsonValue::Null,
            JsonValue::Bool(b) => JsonValue::Bool(*b),
            JsonValue::Unsigned(n) => JsonValue::Unsigned(*n),
            JsonValue::Signed(n) => JsonValue::Signed(*n),
            JsonValue::Decimal(s) => JsonValue::Decimal(s.clone()),
            JsonValue::String(s) => JsonValue::String(s.clone()),
            JsonValue::Array(items) => {
                let mut copy: Vec<JsonValue> = Vec::new();
                let mut i: usize = 0;
                while i < items.len()
                    invariant
                        i <= items.len(),
                        decreases_to!(self => items@),
                        items_view(copy@) == items_view(items@.take(i as int)),
                    decreases items.len() - i,
                {
                    let ghost before = copy@;
                    let item: JsonValue = items[i].clone();
                    copy.push(item);
                    i = i + 1;
                    proof {
                        lemma_items_view_push(before, item);
                        assert(items@.take(i as int).drop_last() == items@.take(i as int - 1));
                    }
                }
                assert(items@.take(items.len() as int) == items@);
                JsonValue::Array(copy)
            },
            JsonValue::Object(o) => {
                let entries: &Vec<(String, JsonValue)> = &o.entries;
                let mut copy: Vec<(String, JsonValue)> = Vec::new();
                let mut i: usize = 0;
                while i < entries.len()
                    invariant
                        i <= entries.len(),
                        decreases_to!(self => entries@),
                        members_view(copy@) == members_view(entries@.take(i as int)),
                    decreases entries.len() - i,
                {
                    let ghost before = copy@;
                    let entry: &(String, JsonValue) = &entries[i];
                    assert(decreases_to!(entries@ => entries@[i as int]));
                    assert(decreases_to!(entries@[i as int] => entries@[i as int].1));
                    let value: JsonValue = entry.1.clone();
                    let name: String = entry.0.clone();
                    copy.push((name, value));
                    i = i + 1;
                    proof {
                        lemma_members_view_push(before, (name, value));
                        assert(entries@.take(i as int).drop_last() == entries@.take(i as int - 1));
                    }
                }
                assert(entries@.take(entries.len() as int) == entries@);
                JsonValue::Object(Object { entries: copy })
            },
        }
    }
}

impl Object {
    /// No members.
    pub fn new() -> (r: Object)
        ensures
            r@ == Map::<Seq<char>, Json>::empty(),
    {
        Object { entries: Vec::new() }
    }

    /// The member of that name.
    pub fn get(&self, name: &str) -> (r: Option<&JsonValue>)
        ensures
            match r {
                Some(v) => self@.contains_key(name@) && self@[name@] == v@,
                None => !self@.contains_key(name@),
            },
    {
        let mut i: usize = self.entries.len();
        while i > 0
            invariant
                i <= self.entries.len(),
                forall|j: int|
                    i <= j < self.entries.len() ==> (#[trigger] self.entries@[j]).0@ != name@,
            decreases i,
        {
            i = i - 1;
            if text_eq(self.entries[i].0.as_str(), name) {
                proof {
                    lemma_members_last(self.entries@, i as int);
                }
                return Some(&self.entries[i].1);
            }
        }
        proof {
            lemma_members_dom(self.entries@, name@);
        }
        None
    }

    /// Adds a member behind all others.
    pub fn push(&mut self, name: &str, value: JsonValue)
        ensures
            final(self)@ == old(self)@.insert(name@, value@),
    {
        let ghost before = self.entries@;
        let name: String = name.to_owned();
        self.entries.push((name, value));
        proof {
            lemma_members_view_push(before, (name, value));
        }
    }

    /// Takes every member of that name out.
    pub fn remove(&mut self, name: &str) -> (r: Option<JsonValue>)
        ensures
            final(self)@ == old(self)@.remove(name@),
            match r {
                Some(v) => old(self)@.contains_key(name@) && old(self)@[name@] == v@,
                None => !old(self)@.contains_key(name@),
            },
    {
        let mut kept: Vec<(String, JsonValue)> = Vec::new();
        let mut found: Option<JsonValue> = None;
        let mut rest: Vec<(String, JsonValue)> = Vec::new();
        let ghost all = self.entries@;
        std::mem::swap(&mut rest, &mut self.entries);
        let n: usize = rest.len();
        let mut i: usize = 0;
        while i < n
            invariant
                i <= n,
                n == all.len(),
                rest@ == all.skip(i as int),
                members_view(kept@) == members_view(all.take(i as int)).remove(name@),
                match found {
                    Some(v) => members_view(all.take(i as int)).contains_key(name@)
                        && members_view(all.take(i as int))[name@] == v@,
                    None => !members_view(all.take(i as int)).contains_key(name@),
                },
            decreases n - i,
        {
            let entry: (String, JsonValue) = rest.remove(0);
            let ghost before = kept@;
            proof {
                assert(entry == all[i as int]);
                assert(all.take(i as int + 1).drop_last() == all.take(i as int));
                assert(all.skip(i as int).remove(0) == all.skip(i as int + 1));
            }
            if text_eq(entry.0.as_str(), name) {
                found = Some(entry.1);
            } else {
                kept.push(entry);
                proof {
                    lemma_members_view_push(before, entry);
                }
            }
            i = i + 1;
            assert(members_view(kept@) == members_view(all.take(i as int)).remove(name@));
        }
        assert(all.take(n as int) == all);
        self.entries = kept;
        found
    }

    /// Sets a member, in place of one of the same name.
    pub fn insert(&mut self, name: &str, value: JsonValue)
        ensures
            final(self)@ == old(self)@.insert(name@, value@),
    {
        let ghost before = self@;
        self.remove(name);
        self.push(name, value);
        assert(before.remove(name@).insert(name@, value@) == before.insert(name@, value@));
    }

    /// Sets a member where there is a value for it.
    pub fn insert_some(&mut self, name: &str, value: Option<JsonValue>)
        ensures
            final(self)@ == with_member(
                old(self)@,
                name@,
                match value {
                    Some(v) => Some(v@),
                    None => None,
                },
            ),
    {
        match value {
            Some(v) => self.insert(name, v),
            None => {},
        }
    }
}

impl Clone for Object {
    fn clone(&self) -> (r: Self)
        ensures
            r@ == self@,
    {
        let mut copy: Vec<(String, JsonValue)> = Vec::new();
        let mut i: usize = 0;
        while i < self.entries.len()
            invariant
                i <= self.entries.len(),
                members_view(copy@) == members_view(self.entries@.take(i as int)),
            decreases self.entries.len() - i,
        {
            let ghost before = copy@;
            let name: String = self.entries[i].0.clone();
            let value: JsonValue = self.entries[i].1.clone();
            copy.push((name, value));
            i = i + 1;
            proof {
                lemma_members_view_push(before, (name, value));
                assert(self.entries@.take(i as int).drop_last() == self.entries@.take(i as int - 1));
            }
        }
        assert(self.entries@.take(self.entries.len() as int) == self.entries@);
        Object { entries: copy }
    }
}

} // verus!
