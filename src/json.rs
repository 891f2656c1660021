//! JSON values as the protocol carries them.
//!
//! Values themselves are `serde_json::Value`s. Verus sees them through
//! `json_model`, a tree of plain values, and every access below is stated
//! over that tree.
use vstd::prelude::*;

verus! {

/// What a JSON value holds, as plain values.
pub enum JsonModel {
    Null,
    Bool(bool),
    /// A number that serde_json holds as an integer: written without
    /// fraction or exponent (and not as `-0`), within `i64` or `u64`.
    Int(int),
    /// Any other number (held as a float), by the text it prints as.
    Decimal(Seq<char>),
    Str(Seq<char>),
    Array(Seq<JsonModel>),
    Object(Map<Seq<char>, JsonModel>),
}

#[verifier::external_type_specification]
#[verifier::external_body]
pub struct ExJsonValue(serde_json::Value);

#[verifier::external_type_specification]
#[verifier::external_body]
pub struct ExJsonError(serde_json::Error);

/// The tree that a `serde_json::Value` holds.
pub uninterp spec fn json_model(v: serde_json::Value) -> JsonModel;

/// What `serde_json::from_str` makes of a text: `None` where it refuses it.
pub uninterp spec fn parsed_json(s: Seq<char>) -> Option<JsonModel>;

/// The compact text that `serde_json` prints for a value.
pub uninterp spec fn json_text(m: JsonModel) -> Seq<char>;

/// The member `key` of an object; `None` for a missing key or a non-object.
pub open spec fn member(m: JsonModel, key: Seq<char>) -> Option<JsonModel> {
    match m {
        JsonModel::Object(fields) => if fields.contains_key(key) {
            Some(fields[key])
        } else {
            None
        },
        _ => None,
    }
}

/// A member that is missing or explicitly `null`: what an optional field
/// reads as `None`.
pub open spec fn member_absent(m: JsonModel, key: Seq<char>) -> bool {
    member(m, key) is None || member(m, key) == Some(JsonModel::Null)
}

/// The member `key` when it is present and not `null`.
pub open spec fn member_value(m: JsonModel, key: Seq<char>) -> Option<JsonModel> {
    if member_absent(m, key) {
        None
    } else {
        member(m, key)
    }
}

/// The text of a string value.
pub open spec fn as_text(m: JsonModel) -> Option<Seq<char>> {
    match m {
        JsonModel::Str(s) => Some(s),
        _ => None,
    }
}

/// The text of the string member `key`.
pub open spec fn text_member(m: JsonModel, key: Seq<char>) -> Option<Seq<char>> {
    match member(m, key) {
        Some(v) => as_text(v),
        None => None,
    }
}

/// An optional string member is well formed: absent, `null` or a string.
pub open spec fn opt_text_ok(m: JsonModel, key: Seq<char>) -> bool {
    member_absent(m, key) || text_member(m, key) is Some
}

/// An integer member within `lo..=hi`.
pub open spec fn int_member(m: JsonModel, key: Seq<char>, lo: int, hi: int) -> Option<int> {
    match member(m, key) {
        Some(JsonModel::Int(n)) => if lo <= n <= hi {
            Some(n)
        } else {
            None
        },
        _ => None,
    }
}

pub open spec fn is_object(m: JsonModel) -> bool {
    m is Object
}

pub open spec fn text_view(s: Option<String>) -> Option<Seq<char>> {
    match s {
        Some(t) => Some(t@),
        None => None,
    }
}

pub open spec fn value_view(v: Option<serde_json::Value>) -> Option<JsonModel> {
    match v {
        Some(x) => Some(json_model(x)),
        None => None,
    }
}

/// The model of an object with the given members.
pub open spec fn object_of(fields: Map<Seq<char>, JsonModel>) -> JsonModel {
    JsonModel::Object(fields)
}

/// Relies on `serde_json::Value::get` with a string key: the member of an
/// object, `None` for a non-object or a missing key.
#[verifier::external_body]
pub(crate) fn get_member<'a>(v: &'a serde_json::Value, key: &str) -> (r: Option<&'a serde_json::Value>)
    ensures
        match member(json_model(*v), key@) {
            Some(f) => r is Some && json_model(*r.unwrap()) == f,
            None => r is None,
        },
{
    v.get(key)
}

/// Relies on `serde_json::Value::as_str`: the text of a string value.
#[verifier::external_body]
pub(crate) fn value_text(v: &serde_json::Value) -> (r: Option<String>)
    ensures
        text_view(r) == as_text(json_model(*v)),
{
    v.as_str().map(|s| s.to_string())
}

/// Relies on `serde_json::Value::as_i64`: an integer that fits in `i64`.
#[verifier::external_body]
pub(crate) fn value_i64(v: &serde_json::Value) -> (r: Option<i64>)
    ensures
        match json_model(*v) {
            JsonModel::Int(n) => if i64::MIN <= n <= i64::MAX {
                r == Some(n as i64)
            } else {
                r is None
            },
            _ => r is None,
        },
{
    v.as_i64()
}

/// Relies on `serde_json::Value::as_bool`.
#[verifier::external_body]
pub(crate) fn value_bool(v: &serde_json::Value) -> (r: Option<bool>)
    ensures
        match json_model(*v) {
            JsonModel::Bool(b) => r == Some(b),
            _ => r is None,
        },
{
    v.as_bool()
}

/// Relies on `serde_json::Value::is_null`.
#[verifier::external_body]
pub(crate) fn value_is_null(v: &serde_json::Value) -> (r: bool)
    ensures
        r == (json_model(*v) == JsonModel::Null),
{
    v.is_null()
}

/// Relies on `serde_json::Value::as_array`: the items of an array, in order.
#[verifier::external_body]
pub(crate) fn value_items(v: &serde_json::Value) -> (r: Option<Vec<serde_json::Value>>)
    ensures
        match json_model(*v) {
            JsonModel::Array(items) => r is Some && r.unwrap()@.len() == items.len() && forall|i: int|
                0 <= i < items.len() ==> json_model(#[trigger] r.unwrap()@[i]) == items[i],
            _ => r is None,
        },
{
    v.as_array().cloned()
}

/// Relies on `serde_json::Value`'s `Clone`: the copy holds the same tree.
#[verifier::external_body]
pub(crate) fn copy_value(v: &serde_json::Value) -> (r: serde_json::Value)
    ensures
        json_model(r) == json_model(*v),
{
    v.clone()
}

/// Relies on `serde_json::Value::Null`.
#[verifier::external_body]
pub(crate) fn null_value() -> (r: serde_json::Value)
    ensures
        json_model(r) == JsonModel::Null,
{
    serde_json::Value::Null
}

/// Relies on `serde_json::Value::Bool`.
#[verifier::external_body]
pub(crate) fn bool_value(b: bool) -> (r: serde_json::Value)
    ensures
        json_model(r) == JsonModel::Bool(b),
{
    serde_json::Value::Bool(b)
}

/// Relies on `serde_json::Value::from(i64)`: an integer number.
#[verifier::external_body]
pub(crate) fn int_value(n: i64) -> (r: serde_json::Value)
    ensures
        json_model(r) == JsonModel::Int(n as int),
{
    serde_json::Value::from(n)
}

/// Relies on `serde_json::Value::String`.
#[verifier::external_body]
pub(crate) fn text_value(s: String) -> (r: serde_json::Value)
    ensures
        json_model(r) == JsonModel::Str(s@),
{
    serde_json::Value::String(s)
}

/// Relies on `serde_json::Value::Array`: the items in order.
#[verifier::external_body]
pub(crate) fn array_value(items: Vec<serde_json::Value>) -> (r: serde_json::Value)
    ensures
        json_model(r) == JsonModel::Array(items@.map_values(|x: serde_json::Value| json_model(x))),
{
    serde_json::Value::Array(items)
}

/// Relies on `serde_json::Map::new`: an object with no members.
#[verifier::external_body]
pub(crate) fn empty_object() -> (r: serde_json::Value)
    ensures
        json_model(r) == object_of(Map::empty()),
{
    serde_json::Value::Object(serde_json::Map::new())
}

/// Relies on `serde_json::Map::insert`: sets one member of an object.
#[verifier::external_body]
pub(crate) fn set_member(obj: &mut serde_json::Value, key: String, val: serde_json::Value)
    requires
        is_object(json_model(*old(obj))),
    ensures
        json_model(*final(obj)) == object_of(
            match json_model(*old(obj)) {
                JsonModel::Object(f) => f,
                _ => Map::empty(),
            }.insert(key@, json_model(val)),
        ),
{
    if let Some(m) = obj.as_object_mut() {
        m.insert(key, val);
    }
}

/// Relies on `serde_json::from_str` into a `Value`.
#[verifier::external_body]
pub(crate) fn parse_text(s: &str) -> (r: Result<serde_json::Value, serde_json::Error>)
    ensures
        match parsed_json(s@) {
            Some(m) => r is Ok && json_model(r->Ok_0) == m,
            None => r is Err,
        },
{
    serde_json::from_str(s)
}

/// Relies on `serde_json::Value`'s `Display`: the compact JSON text.
#[verifier::external_body]
pub(crate) fn print_value(v: &serde_json::Value) -> (r: String)
    ensures
        r@ == json_text(json_model(*v)),
{
    v.to_string()
}

/// Relies on `serde_json::Error`'s `Display`: a message for a refused text.
#[verifier::external_body]
pub(crate) fn describe_error(e: &serde_json::Error) -> (r: String) {
    e.to_string()
}

/// Reads a required string member.
pub fn required_text(v: &serde_json::Value, key: &str) -> (r: Option<String>)
    ensures
        text_view(r) == text_member(json_model(*v), key@),
{
    match get_member(v, key) {
        Some(f) => value_text(f),
        None => None,
    }
}

/// Reads an optional string member: `Err` when it is present, not `null`
/// and not a string.
pub fn optional_text(v: &serde_json::Value, key: &str) -> (r: Result<Option<String>, ()>)
    ensures
        r is Ok <==> opt_text_ok(json_model(*v), key@),
        r is Ok ==> text_view(r->Ok_0) == text_member(json_model(*v), key@),
{
    match get_member(v, key) {
        Some(f) => {
            if value_is_null(f) {
                Ok(None)
            } else {
                match value_text(f) {
                    Some(t) => Ok(Some(t)),
                    None => Err(()),
                }
            }
        },
        None => Ok(None),
    }
}

/// Reads an optional member of any shape; `null` reads as absent.
pub fn optional_value(v: &serde_json::Value, key: &str) -> (r: Option<serde_json::Value>)
    ensures
        value_view(r) == member_value(json_model(*v), key@),
{
    match get_member(v, key) {
        Some(f) => {
            if value_is_null(f) {
                None
            } else {
                Some(copy_value(f))
            }
        },
        None => None,
    }
}

/// Reads an integer member within `lo..=hi`.
pub fn integer_member(v: &serde_json::Value, key: &str, lo: i64, hi: i64) -> (r: Option<i64>)
    ensures
        match int_member(json_model(*v), key@, lo as int, hi as int) {
            Some(n) => r == Some(n as i64),
            None => r is None,
        },
{
    match get_member(v, key) {
        Some(f) => match value_i64(f) {
            Some(n) => if lo <= n && n <= hi {
                Some(n)
            } else {
                None
            },
            None => None,
        },
        None => None,
    }
}

/// Whether a value is an object.
pub fn value_is_object(v: &serde_json::Value) -> (r: bool)
    ensures
        r == is_object(json_model(*v)),
{
    object_check(v)
}

/// Relies on `serde_json::Value::is_object`.
#[verifier::external_body]
fn object_check(v: &serde_json::Value) -> (r: bool)
    ensures
        r == is_object(json_model(*v)),
{
    v.is_object()
}

} // verus!
