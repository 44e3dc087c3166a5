//! JSON as the library reads and writes it. `serde_json` parses the texts
//! the library reads (one level at a time, see `parse_json_text`) and writes
//! the objects it hands to the debug adapter and to Zed: flat objects whose
//! members are booleans, integers, strings, arrays of strings and objects of
//! strings.

use vstd::prelude::*;
use zed_extension_api::serde_json;
use zed_extension_api::serde_json::Value;

verus! {

/// A JSON member value of the kinds the debug configuration uses.
#[derive(Debug)]
pub enum JsonValue {
    Bool(bool),
    Int(i64),
    Str(String),
    StrArray(Vec<String>),
    StrObject(Vec<(String, String)>),
}

/// The mathematical value of a [`JsonValue`].
pub enum JsonView {
    Bool(bool),
    Int(int),
    Str(Seq<char>),
    StrArray(Seq<Seq<char>>),
    StrObject(Seq<(Seq<char>, Seq<char>)>),
}

/// The characters of each string of `v`.
pub open spec fn strings_view(v: Seq<String>) -> Seq<Seq<char>> {
    v.map_values(|s: String| s@)
}

/// The characters of each pair of strings of `v`.
pub open spec fn pairs_view(v: Seq<(String, String)>) -> Seq<(Seq<char>, Seq<char>)> {
    v.map_values(|p: (String, String)| (p.0@, p.1@))
}

impl View for JsonValue {
    type V = JsonView;

    open spec fn view(&self) -> JsonView {
        match self {
            JsonValue::Bool(b) => JsonView::Bool(*b),
            JsonValue::Int(i) => JsonView::Int(*i as int),
            JsonValue::Str(s) => JsonView::Str(s@),
            JsonValue::StrArray(a) => JsonView::StrArray(strings_view(a@)),
            JsonValue::StrObject(o) => JsonView::StrObject(pairs_view(o@)),
        }
    }
}

/// The members of an object, in the order they are written.
pub open spec fn entries_view(es: Seq<(String, JsonValue)>) -> Seq<(Seq<char>, JsonView)> {
    es.map_values(|e: (String, JsonValue)| (e.0@, e.1@))
}

/// The values of the members of `es` with the key `k`, in order.
pub open spec fn key_values(es: Seq<(Seq<char>, JsonView)>, k: Seq<char>) -> Seq<JsonView>
    decreases es.len(),
{
    if es.len() == 0 {
        Seq::empty()
    } else {
        let r = key_values(es.drop_last(), k);
        if es.last().0 == k {
            r.push(es.last().1)
        } else {
            r
        }
    }
}

/// Adding a member adds its value to those of its key, and to no other.
pub broadcast proof fn lemma_key_values_push(
    es: Seq<(Seq<char>, JsonView)>,
    key: Seq<char>,
    v: JsonView,
    k: Seq<char>,
)
    ensures
        #[trigger] key_values(es.push((key, v)), k) == if key == k {
            key_values(es, k).push(v)
        } else {
            key_values(es, k)
        },
{
    assert(es.push((key, v)).drop_last() =~= es);
}

/// The compact JSON text that `serde_json` writes for the object with the
/// members `es`: each member value converted to a `serde_json::Value` (an
/// object of strings collected into a `Value` object, whose map orders its
/// keys and keeps the last value of a repeated key), the members inserted in turn
/// into a `serde_json::Map`, and the object written with `to_string`.
pub uninterp spec fn render_object(es: Seq<(Seq<char>, JsonView)>) -> Seq<char>;

/// Writes the object with the members `es` with `serde_json`. Trusted: the
/// contract claims only that the text is `render_object` of the members, a
/// function of them alone; it says nothing of the escapes or the key order.
#[verifier::external_body]
pub(crate) fn render_object_text(es: &Vec<(String, JsonValue)>) -> (r: String)
    ensures
        r@ == render_object(entries_view(es@)),
{
    let mut object = serde_json::Map::new();
    for (key, value) in es {
        let value = match value {
            JsonValue::Bool(b) => Value::from(*b),
            JsonValue::Int(i) => Value::from(*i),
            JsonValue::Str(s) => Value::from(s.as_str()),
            JsonValue::StrArray(a) => Value::from(a.clone()),
            JsonValue::StrObject(o) => o.iter().cloned().collect(),
        };
        object.insert(key.clone(), value);
    }
    Value::Object(object).to_string()
}

/// A parsed JSON value when it is a boolean, a number (as an `i64` when it is
/// one) or a string.
#[derive(Debug)]
pub enum JsonLeaf {
    Bool(bool),
    Number(Option<i64>),
    Str(String),
    Other,
}

/// A JSON value as `parse_json_text` reads it: its scalar content; when it is
/// an array, the compact JSON text of each element; when it is an object, the
/// compact JSON text of each member's value (keys once each, in key order) --
/// texts to be read in turn with `parse_json_text`; and how the parsed value
/// prints with `{:?}`.
#[derive(Debug)]
pub struct JsonDoc {
    pub leaf: JsonLeaf,
    pub items: Option<Vec<String>>,
    pub members: Option<Vec<(String, String)>>,
    pub debug: String,
}

/// What `serde_json::from_str` makes of `text` as a `serde_json::Value`,
/// read one level down (see `JsonDoc`: elements and member values written
/// back with `to_string`, the value printed with `{:?}`); or the text of its
/// error when `text` is not JSON.
pub uninterp spec fn parsed_json(text: Seq<char>) -> Result<JsonDoc, String>;

/// Parses `text` with `serde_json::from_str` and reads the value one level
/// down. Trusted: the contract claims only that the outcome is `parsed_json`
/// of the characters of `text`, a function of them alone; it says nothing of
/// which texts parse or what they hold.
#[verifier::external_body]
pub(crate) fn parse_json_text(text: &str) -> (r: Result<JsonDoc, String>)
    ensures
        r == parsed_json(text@),
{
    let v: Value = serde_json::from_str(text).map_err(|e| e.to_string())?;
    let leaf = match &v {
        Value::Bool(b) => JsonLeaf::Bool(*b),
        Value::Number(n) => JsonLeaf::Number(n.as_i64()),
        Value::String(s) => JsonLeaf::Str(s.clone()),
        _ => JsonLeaf::Other,
    };
    let items = v.as_array().map(|a| a.iter().map(Value::to_string).collect());
    let members = v.as_object().map(|o| o.iter().map(|(k, x)| (k.clone(), x.to_string())).collect());
    Ok(JsonDoc { leaf, items, members, debug: format!("{v:?}") })
}

/// The text of the value of the member `key` (the first with that key).
pub open spec fn member_text(ms: Seq<(Seq<char>, Seq<char>)>, key: Seq<char>) -> Option<Seq<char>>
    decreases ms.len(),
{
    if ms.len() == 0 {
        None
    } else if ms[0].0 == key {
        Some(ms[0].1)
    } else {
        member_text(ms.drop_first(), key)
    }
}

/// The members of the JSON value `text`: none when it is not an object or
/// not JSON.
pub open spec fn json_members(text: Seq<char>) -> Seq<(Seq<char>, Seq<char>)> {
    match parsed_json(text) {
        Ok(JsonDoc { members: Some(ms), .. }) => pairs_view(ms@),
        _ => Seq::empty(),
    }
}

/// The elements of the JSON value `text`: none when it is not an array or
/// not JSON.
pub open spec fn json_items(text: Seq<char>) -> Seq<Seq<char>> {
    match parsed_json(text) {
        Ok(JsonDoc { items: Some(its), .. }) => strings_view(its@),
        _ => Seq::empty(),
    }
}

/// The string that the JSON value `text` is, if it is one.
pub open spec fn json_str(text: Seq<char>) -> Option<Seq<char>> {
    match parsed_json(text) {
        Ok(d) => match d.leaf {
            JsonLeaf::Str(s) => Some(s@),
            _ => None,
        },
        Err(_) => None,
    }
}

/// The boolean that the JSON value `text` is, if it is one.
pub open spec fn json_bool(text: Seq<char>) -> Option<bool> {
    match parsed_json(text) {
        Ok(d) => match d.leaf {
            JsonLeaf::Bool(b) => Some(b),
            _ => None,
        },
        Err(_) => None,
    }
}

/// The `i64` that the JSON value `text` is, if it is one.
pub open spec fn json_i64(text: Seq<char>) -> Option<i64> {
    match parsed_json(text) {
        Ok(d) => match d.leaf {
            JsonLeaf::Number(n) => n,
            _ => None,
        },
        Err(_) => None,
    }
}

/// The string member `key` of `ms`, if it is one.
pub open spec fn member_str(ms: Seq<(Seq<char>, Seq<char>)>, key: Seq<char>) -> Option<Seq<char>> {
    match member_text(ms, key) {
        Some(t) => json_str(t),
        None => None,
    }
}

/// The boolean member `key` of `ms`, if it is one.
pub open spec fn member_bool(ms: Seq<(Seq<char>, Seq<char>)>, key: Seq<char>) -> Option<bool> {
    match member_text(ms, key) {
        Some(t) => json_bool(t),
        None => None,
    }
}

/// The `i64` member `key` of `ms`, if it is one.
pub open spec fn member_i64(ms: Seq<(Seq<char>, Seq<char>)>, key: Seq<char>) -> Option<i64> {
    match member_text(ms, key) {
        Some(t) => json_i64(t),
        None => None,
    }
}

/// The text of the value of the member `key` of `ms`.
pub fn find_member(ms: &Vec<(String, String)>, key: &str) -> (r: Option<String>)
    ensures
        match r {
            Some(t) => member_text(pairs_view(ms@), key@) == Some(t@),
            None => member_text(pairs_view(ms@), key@) is None,
        },
{
    let ghost pv = pairs_view(ms@);
    assert(pv.subrange(0, pv.len() as int) =~= pv);
    let mut i: usize = 0;
    while i < ms.len()
        invariant
            i <= ms.len(),
            pv == pairs_view(ms@),
            member_text(pv, key@) == member_text(pv.subrange(i as int, pv.len() as int), key@),
        decreases ms.len() - i,
    {
        let ghost rest = pv.subrange(i as int, pv.len() as int);
        assert(rest[0] == pv[i as int]);
        assert(rest.drop_first() =~= pv.subrange(i + 1, pv.len() as int));
        if crate::text::str_eq(ms[i].0.as_str(), key) {
            return Some(ms[i].1.clone());
        }
        i += 1;
    }
    assert(pv.subrange(i as int, pv.len() as int).len() == 0);
    None
}

/// The string member `key` of the members `ms`.
pub fn str_member(ms: &Vec<(String, String)>, key: &str) -> (r: Option<String>)
    ensures
        match r {
            Some(s) => member_str(pairs_view(ms@), key@) == Some(s@),
            None => member_str(pairs_view(ms@), key@) is None,
        },
{
    match find_member(ms, key) {
        Some(t) => match parse_json_text(t.as_str()) {
            Ok(d) => match d.leaf {
                JsonLeaf::Str(s) => Some(s),
                _ => None,
            },
            Err(_) => None,
        },
        None => None,
    }
}

/// The boolean member `key` of the members `ms`.
pub fn bool_member(ms: &Vec<(String, String)>, key: &str) -> (r: Option<bool>)
    ensures
        r == member_bool(pairs_view(ms@), key@),
{
    match find_member(ms, key) {
        Some(t) => match parse_json_text(t.as_str()) {
            Ok(d) => match d.leaf {
                JsonLeaf::Bool(b) => Some(b),
                _ => None,
            },
            Err(_) => None,
        },
        None => None,
    }
}

/// The `i64` member `key` of the members `ms`.
pub fn i64_member(ms: &Vec<(String, String)>, key: &str) -> (r: Option<i64>)
    ensures
        r == member_i64(pairs_view(ms@), key@),
{
    match find_member(ms, key) {
        Some(t) => match parse_json_text(t.as_str()) {
            Ok(d) => match d.leaf {
                JsonLeaf::Number(n) => n,
                _ => None,
            },
            Err(_) => None,
        },
        None => None,
    }
}

/// The members of the JSON value `text` (none when it is not an object or
/// not JSON).
pub fn members_of(text: &str) -> (r: Vec<(String, String)>)
    ensures
        pairs_view(r@) == json_members(text@),
{
    match parse_json_text(text) {
        Ok(JsonDoc { members: Some(ms), .. }) => ms,
        _ => Vec::new(),
    }
}

/// The elements of the JSON value `text` (none when it is not an array or
/// not JSON).
pub fn items_of(text: &str) -> (r: Vec<String>)
    ensures
        strings_view(r@) == json_items(text@),
{
    match parse_json_text(text) {
        Ok(JsonDoc { items: Some(its), .. }) => its,
        _ => Vec::new(),
    }
}

} // verus!
