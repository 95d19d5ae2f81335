//! JSON documents as plain values, read with `serde_json`, and the lookups
//! that the store backends make in them.
use vstd::prelude::*;

verus! {

/// A JSON value. Numbers keep the text that `serde_json` prints for them;
/// object members keep the order in which `serde_json` lists them.
#[derive(Debug)]
pub enum Json {
    Null,
    Bool(bool),
    Number(String),
    Str(String),
    Array(Vec<Json>),
    Object(Vec<(String, Json)>),
}

/// The document that `serde_json::from_slice::<serde_json::Value>` reads from
/// `bytes`, when it reads one.
pub uninterp spec fn parsed_json(bytes: Seq<u8>) -> Option<Json>;

/// The text that `serde_json::Value`'s `Display` writes for `v` (compact JSON).
pub uninterp spec fn json_display(v: Json) -> Seq<char>;

/// `serde_json::Value`, declared so that the conversions below can name it;
/// nothing inside it is visible here.
#[verifier::external_type_specification]
#[verifier::external_body]
pub struct SerdeValue(serde_json::Value);

/// Copies a `serde_json::Value` into a `Json`, member for member. A
/// conversion only: it is trusted and states nothing.
#[verifier::external_body]
fn from_serde(v: &serde_json::Value) -> Json {
    match v {
        serde_json::Value::Null => Json::Null,
        serde_json::Value::Bool(b) => Json::Bool(*b),
        serde_json::Value::Number(n) => Json::Number(n.to_string()),
        serde_json::Value::String(s) => Json::Str(s.clone()),
        serde_json::Value::Array(a) => Json::Array(a.iter().map(from_serde).collect()),
        serde_json::Value::Object(m) => Json::Object(
            m.iter().map(|(k, x)| (k.clone(), from_serde(x))).collect(),
        ),
    }
}

/// Copies a `Json` back into a `serde_json::Value`, member for member (a
/// number whose text `serde_json` cannot read becomes null). A conversion
/// only: it is trusted and states nothing.
#[verifier::external_body]
fn to_serde(v: &Json) -> serde_json::Value {
    match v {
        Json::Null => serde_json::Value::Null,
        Json::Bool(b) => serde_json::Value::Bool(*b),
        Json::Number(t) => t.parse::<serde_json::Number>().map(serde_json::Value::Number)
            .unwrap_or(serde_json::Value::Null),
        Json::Str(s) => serde_json::Value::String(s.clone()),
        Json::Array(a) => serde_json::Value::Array(a.iter().map(to_serde).collect()),
        Json::Object(m) => serde_json::Value::Object(
            m.iter().map(|(k, x)| (k.clone(), to_serde(x))).collect(),
        ),
    }
}

/// Reads a JSON document with `serde_json::from_slice::<serde_json::Value>`.
/// The contract names the result (`parsed_json`): it is `None` exactly when
/// `serde_json` rejects the bytes; JSON's grammar is not written out here.
#[verifier::external_body]
pub(crate) fn parse_json(bytes: &[u8]) -> (r: Option<Json>)
    ensures
        r == parsed_json(bytes@),
{
    serde_json::from_slice::<serde_json::Value>(bytes).ok().map(|v| from_serde(&v))
}

/// Writes `v` as compact JSON with `serde_json::Value`'s `Display`. The
/// contract names the result (`json_display`); the format is not written out
/// here.
#[verifier::external_body]
pub(crate) fn display_json(v: &Json) -> (r: String)
    ensures
        r@ == json_display(*v),
{
    to_serde(v).to_string()
}

/// The value of the first member named `key` among `members`.
pub open spec fn member(members: Seq<(String, Json)>, key: Seq<char>) -> Option<Json>
    decreases members.len(),
{
    if members.len() == 0 {
        None
    } else if members[0].0@ == key {
        Some(members[0].1)
    } else {
        member(members.drop_first(), key)
    }
}

/// What `value[key]` reads: the member named `key` of an object, nothing
/// otherwise (`serde_json` then gives null).
pub open spec fn field(v: Option<Json>, key: Seq<char>) -> Option<Json> {
    match v {
        Some(Json::Object(ms)) => member(ms@, key),
        _ => None,
    }
}

/// What `value.as_str()` gives.
pub open spec fn str_value(v: Option<Json>) -> Option<Seq<char>> {
    match v {
        Some(Json::Str(s)) => Some(s@),
        _ => None,
    }
}

/// What `value.as_bool()` gives.
pub open spec fn bool_value(v: Option<Json>) -> Option<bool> {
    match v {
        Some(Json::Bool(b)) => Some(b),
        _ => None,
    }
}

/// What `value.as_array()` gives.
pub open spec fn array_value(v: Option<Json>) -> Option<Seq<Json>> {
    match v {
        Some(Json::Array(a)) => Some(a@),
        _ => None,
    }
}

/// The value itself, null standing for a missing one.
pub open spec fn or_null(v: Option<Json>) -> Json {
    match v {
        Some(j) => j,
        None => Json::Null,
    }
}

/// The value a reference points at, if any.
pub open spec fn deref(v: Option<&Json>) -> Option<Json> {
    match v {
        Some(j) => Some(*j),
        None => None,
    }
}

fn find_member<'a>(ms: &'a Vec<(String, Json)>, key: &str) -> (r: Option<&'a Json>)
    ensures
        deref(r) == member(ms@, key@),
{
    let n = ms.len();
    let mut i: usize = 0;
    assert(ms@.skip(0) =~= ms@);
    while i < n
        invariant
            i <= n,
            n == ms@.len(),
            member(ms@, key@) == member(ms@.skip(i as int), key@),
        decreases n - i,
    {
        assert(ms@.skip(i as int).drop_first() =~= ms@.skip(i + 1));
        assert(ms@.skip(i as int)[0] == ms@[i as int]);
        if crate::text::same_chars(crate::text::chars_of(ms[i].0.as_str()).as_slice(),
            crate::text::chars_of(key).as_slice()) {
            return Some(&ms[i].1);
        }
        i = i + 1;
    }
    None
}

/// `value[key]`.
pub fn get<'a>(v: Option<&'a Json>, key: &str) -> (r: Option<&'a Json>)
    ensures
        deref(r) == field(deref(v), key@),
{
    match v {
        Some(Json::Object(ms)) => find_member(ms, key),
        _ => None,
    }
}

/// `value.as_str()`.
pub fn as_str<'a>(v: Option<&'a Json>) -> (r: Option<&'a String>)
    ensures
        r is Some == str_value(deref(v)) is Some,
        r is Some ==> r.unwrap()@ == str_value(deref(v)).unwrap(),
{
    match v {
        Some(Json::Str(s)) => Some(s),
        _ => None,
    }
}

/// `value.as_bool()`.
pub fn as_bool(v: Option<&Json>) -> (r: Option<bool>)
    ensures
        r == bool_value(deref(v)),
{
    match v {
        Some(Json::Bool(b)) => Some(*b),
        _ => None,
    }
}

/// `value.as_array()`.
pub fn as_array<'a>(v: Option<&'a Json>) -> (r: Option<&'a Vec<Json>>)
    ensures
        r is Some == array_value(deref(v)) is Some,
        r is Some ==> r.unwrap()@ == array_value(deref(v)).unwrap(),
{
    match v {
        Some(Json::Array(a)) => Some(a),
        _ => None,
    }
}

} // verus!
