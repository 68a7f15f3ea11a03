//! A JSON value held as plain data, and the parser that produces one.
//! An object's members are kept sorted by key, each key once, the order
//! `serde_json` itself keeps them in.

use vstd::prelude::*;
use vstd::string::*;
use crate::text::str_eq;

verus! {

/// One JSON value. A number keeps the text `serde_json` renders it as.
#[derive(Debug, PartialEq, Eq)]
pub enum Json {
    Null,
    Bool(bool),
    Number(String),
    String(String),
    Array(Vec<Json>),
    Object(Vec<(String, Json)>),
}

/// The mathematical value of a [`Json`].
pub enum JsonV {
    Null,
    Bool(bool),
    Number(Seq<char>),
    Str(Seq<char>),
    Array(Seq<JsonV>),
    Object(Seq<(Seq<char>, JsonV)>),
}

pub open spec fn json_view(j: Json) -> JsonV
    decreases j,
{
    match j {
        Json::Null => JsonV::Null,
        Json::Bool(b) => JsonV::Bool(b),
        Json::Number(n) => JsonV::Number(n@),
        Json::String(s) => JsonV::Str(s@),
        Json::Array(items) => JsonV::Array(Seq::new(items@.len(), |i: int|
            if 0 <= i < items@.len() { json_view(items@[i]) } else { JsonV::Null })),
        Json::Object(members) => JsonV::Object(Seq::new(members@.len(), |i: int|
            if 0 <= i < members@.len() { (members@[i].0@, json_view(members@[i].1)) } else { (Seq::empty(), JsonV::Null) })),
    }
}

impl View for Json {
    type V = JsonV;

    open spec fn view(&self) -> JsonV {
        json_view(*self)
    }
}

/// What `serde_json::from_str::<serde_json::Value>` makes of `text`: the
/// value, or the parser's error message.
pub uninterp spec fn parsed_json(text: Seq<char>) -> Result<JsonV, Seq<char>>;

#[verifier::external_type_specification]
#[verifier::external_body]
pub struct ExValue(serde_json::Value);

/// Converts a `serde_json::Value` one for one: numbers by their
/// `Display` text, objects member by member in the map's own key order.
#[verifier::external_body]
fn json_from_value(v: serde_json::Value) -> (r: Json) {
    match v {
        serde_json::Value::Null => Json::Null,
        serde_json::Value::Bool(b) => Json::Bool(b),
        serde_json::Value::Number(n) => Json::Number(n.to_string()),
        serde_json::Value::String(s) => Json::String(s),
        serde_json::Value::Array(items) => Json::Array(items.into_iter().map(json_from_value).collect()),
        serde_json::Value::Object(map) => Json::Object(map.into_iter().map(|(k, v)| (k, json_from_value(v))).collect()),
    }
}

/// Parses `text` with `serde_json::from_str::<serde_json::Value>`. The
/// result is a function of the text alone, named [`parsed_json`]: the
/// value on success, else the error's `Display` text.
#[verifier::external_body]
pub(crate) fn parse_json(text: &str) -> (r: Result<Json, String>)
    ensures
        match r {
            Ok(j) => parsed_json(text@) == Ok::<JsonV, Seq<char>>(j@),
            Err(e) => parsed_json(text@) == Err::<JsonV, Seq<char>>(e@),
        },
{
    match serde_json::from_str::<serde_json::Value>(text) {
        Ok(v) => Ok(json_from_value(v)),
        Err(e) => Err(e.to_string()),
    }
}

/// Reads a JSON document: the value, or the parser's error message.
pub fn read_json(text: &str) -> (r: Result<Json, String>)
    ensures
        match r {
            Ok(j) => parsed_json(text@) == Ok::<JsonV, Seq<char>>(j@),
            Err(e) => parsed_json(text@) == Err::<JsonV, Seq<char>>(e@),
        },
{
    parse_json(text)
}

/// The value of the member `key` of an object's members, if present.
pub open spec fn member_of(ms: Seq<(Seq<char>, JsonV)>, key: Seq<char>) -> Option<JsonV>
    decreases ms.len(),
{
    if ms.len() == 0 {
        None
    } else if ms[0].0 == key {
        Some(ms[0].1)
    } else {
        member_of(ms.drop_first(), key)
    }
}

/// The member `key` of an object value, if it is an object carrying one.
pub open spec fn get_of(j: JsonV, key: Seq<char>) -> Option<JsonV> {
    match j {
        JsonV::Object(ms) => member_of(ms, key),
        _ => None,
    }
}

/// The views of an object's members.
pub open spec fn members_view(ms: Seq<(String, Json)>) -> Seq<(Seq<char>, JsonV)> {
    Seq::new(ms.len(), |i: int| (ms[i].0@, ms[i].1@))
}

pub proof fn lemma_members_view(j: Json)
    requires
        j is Object,
    ensures
        j@ == JsonV::Object(members_view(j->Object_0@)),
{
    let ms = j->Object_0@;
    assert(members_view(ms) =~= j@->Object_0);
}

/// The views of an array's items.
pub open spec fn items_view(v: Seq<Json>) -> Seq<JsonV> {
    Seq::new(v.len(), |i: int| v[i]@)
}

pub proof fn lemma_items_view(j: Json)
    requires
        j is Array,
    ensures
        j@ == JsonV::Array(items_view(j->Array_0@)),
{
    assert(items_view(j->Array_0@) =~= j@->Array_0);
}

/// The member `key` of `members`, by reference.
pub fn member<'a>(members: &'a Vec<(String, Json)>, key: &str) -> (r: Option<&'a Json>)
    ensures
        match r {
            Some(v) => member_of(members_view(members@), key@) == Some(v@),
            None => member_of(members_view(members@), key@) is None,
        },
{
    let ghost mv = members_view(members@);
    let mut i: usize = 0;
    assert(mv.subrange(0, mv.len() as int) =~= mv);
    while i < members.len()
        invariant
            i <= members@.len(),
            mv == members_view(members@),
            member_of(mv, key@) == member_of(mv.subrange(i as int, mv.len() as int), key@),
        decreases members.len() - i,
    {
        let ghost rest = mv.subrange(i as int, mv.len() as int);
        assert(rest[0] == mv[i as int]);
        assert(rest.drop_first() =~= mv.subrange(i + 1, mv.len() as int));
        if str_eq(members[i].0.as_str(), key) {
            return Some(&members[i].1);
        }
        i = i + 1;
    }
    None
}


fn copy_json_items(owner: &Json) -> (r: Vec<Json>)
    requires
        owner is Array,
    ensures
        items_view(r@) == items_view(owner->Array_0@),
    decreases *owner, 0nat,
{
    let items = match owner {
        Json::Array(items) => items,
        _ => { assert(false); return Vec::new(); },
    };
    let mut r: Vec<Json> = Vec::new();
    let mut j: usize = 0;
    while j < items.len()
        invariant
            *owner == Json::Array(*items),
            j <= items@.len(),
            r@.len() == j,
            forall|x: int| 0 <= x < j ==> (#[trigger] r@[x])@ == items@[x]@,
        decreases items.len() - j,
    {
        assert(decreases_to!(*owner => owner->Array_0@[j as int]));
        r.push(copy_json(&items[j]));
        j = j + 1;
    }
    assert(items_view(r@) =~= items_view(items@));
    r
}

fn copy_json_members(owner: &Json) -> (r: Vec<(String, Json)>)
    requires
        owner is Object,
    ensures
        members_view(r@) == members_view(owner->Object_0@),
    decreases *owner, 0nat,
{
    let ms = match owner {
        Json::Object(ms) => ms,
        _ => { assert(false); return Vec::new(); },
    };
    let mut r: Vec<(String, Json)> = Vec::new();
    let mut j: usize = 0;
    while j < ms.len()
        invariant
            *owner == Json::Object(*ms),
            j <= ms@.len(),
            r@.len() == j,
            forall|x: int| 0 <= x < j ==> (#[trigger] r@[x]).0@ == ms@[x].0@ && r@[x].1@ == ms@[x].1@,
        decreases ms.len() - j,
    {
        assert(decreases_to!(*owner => owner->Object_0@[j as int].1));
        r.push((ms[j].0.clone(), copy_json(&ms[j].1)));
        j = j + 1;
    }
    assert(members_view(r@) =~= members_view(ms@));
    r
}

/// A deep copy of `j`.
pub fn copy_json(j: &Json) -> (r: Json)
    ensures
        r@ == j@,
    decreases *j, 1nat,
{
    match j {
        Json::Null => Json::Null,
        Json::Bool(b) => Json::Bool(*b),
        Json::Number(n) => Json::Number(n.clone()),
        Json::String(s) => Json::String(s.clone()),
        Json::Array(_) => {
            let items = copy_json_items(j);
            let r = Json::Array(items);
            proof {
                lemma_items_view(r);
                lemma_items_view(*j);
            }
            r
        },
        Json::Object(_) => {
            let ms = copy_json_members(j);
            let r = Json::Object(ms);
            proof {
                lemma_members_view(r);
                lemma_members_view(*j);
            }
            r
        },
    }
}

/// How `serde_json` renders a value with `Display`: compact JSON text.
pub uninterp spec fn json_text(v: JsonV) -> Seq<char>;

#[verifier::external_body]
fn value_from_json(j: &Json) -> (r: serde_json::Value) {
    match j {
        Json::Null => serde_json::Value::Null,
        Json::Bool(b) => serde_json::Value::Bool(*b),
        Json::Number(n) => serde_json::from_str(n).unwrap_or(serde_json::Value::Null),
        Json::String(s) => serde_json::Value::String(s.clone()),
        Json::Array(items) => serde_json::Value::Array(items.iter().map(value_from_json).collect()),
        Json::Object(ms) => serde_json::Value::Object(ms.iter().map(|(k, v)| (k.clone(), value_from_json(v))).collect()),
    }
}

/// Renders `j` the way `serde_json::Value`'s `Display` does, named
/// [`json_text`]: the value is converted back one for one (a number from
/// its own text) and `to_string` called on it.
#[verifier::external_body]
pub(crate) fn render_json(j: &Json) -> (r: String)
    ensures
        r@ == json_text(j@),
{
    value_from_json(j).to_string()
}

} // verus!
