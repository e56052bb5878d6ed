//! The boundary to `serde_json`.
//!
//! JSON values are kept as `serde_json::Value`. Verus cannot look inside one, so
//! this module gives the values a mathematical model, [`Json`], and states over
//! that model what each `serde_json` call that the library makes returns. The
//! members of an object are modelled in their order, which is the order in which
//! they were inserted: `serde_json` is built to preserve it. No `ensures` of a
//! call into `serde_json` is proved here: each is an assumption, to be held
//! against its source.

use vstd::prelude::*;

verus! {

#[verifier::external_type_specification]
#[verifier::external_body]
pub struct ExValue(serde_json::Value);

#[verifier::external_type_specification]
#[verifier::external_body]
#[verifier::reject_recursive_types(K)]
#[verifier::reject_recursive_types(V)]
pub struct ExMap<K, V>(serde_json::Map<K, V>);

/// A JSON number, in the three forms in which `serde_json` keeps one.
pub enum Number {
    /// An integer kept as unsigned.
    PosInt(u64),
    /// An integer kept as signed.
    NegInt(i64),
    /// A finite float, by the bit pattern of its IEEE 754 double.
    Float(u64),
}

/// What a JSON value holds. An object holds its members, key and value, in
/// their order.
pub enum Json {
    Null,
    Bool(bool),
    Number(Number),
    String(Seq<char>),
    Array(Seq<Json>),
    Object(Seq<(Seq<char>, Json)>),
}

/// Where the member under `key` stands among `members`: the first place with
/// that key, `None` where no member has it.
pub open spec fn position(members: Seq<(Seq<char>, Json)>, key: Seq<char>) -> Option<int>
    decreases members.len(),
{
    if members.len() == 0 {
        None
    } else {
        match position(members.drop_last(), key) {
            Some(i) => Some(i),
            None => if members.last().0 == key {
                Some(members.len() - 1)
            } else {
                None
            },
        }
    }
}

/// The members after `key` has been given `value`: a key that is there keeps
/// its place and gets the value; a new key comes last.
pub open spec fn inserted(members: Seq<(Seq<char>, Json)>, key: Seq<char>, value: Json) -> Seq<
    (Seq<char>, Json),
> {
    match position(members, key) {
        Some(i) => members.update(i, (key, value)),
        None => members.push((key, value)),
    }
}

impl Json {
    /// The member of an object under `key`; `None` for a missing key and for
    /// anything that is not an object.
    pub open spec fn member(self, key: Seq<char>) -> Option<Json> {
        match self {
            Json::Object(members) => match position(members, key) {
                Some(i) => Some(members[i].1),
                None => None,
            },
            _ => None,
        }
    }

    /// The text of a JSON string; `None` for anything else.
    pub open spec fn text(self) -> Option<Seq<char>> {
        match self {
            Json::String(s) => Some(s),
            _ => None,
        }
    }

    /// The number, if it is an integer kept as unsigned.
    pub open spec fn unsigned(self) -> Option<u64> {
        match self {
            Json::Number(Number::PosInt(n)) => Some(n),
            _ => None,
        }
    }

    /// The number, if it is an integer that fits in `i64`.
    pub open spec fn signed(self) -> Option<i64> {
        match self {
            Json::Number(Number::PosInt(n)) => if n <= i64::MAX {
                Some(n as i64)
            } else {
                None
            },
            Json::Number(Number::NegInt(i)) => Some(i),
            _ => None,
        }
    }

    /// The content of `Value::from(n)` for an `i64`: kept as signed if `n` is
    /// negative, as unsigned if it is not.
    pub open spec fn of_i64(n: i64) -> Json {
        if n < 0 {
            Json::Number(Number::NegInt(n))
        } else {
            Json::Number(Number::PosInt(n as u64))
        }
    }
}

/// What a `serde_json::Value` holds.
pub uninterp spec fn json_of(v: serde_json::Value) -> Json;

/// The compact JSON text that `serde_json` prints for a value that holds
/// `content`: the members of an object in their order.
pub uninterp spec fn text_of(content: Json) -> Seq<char>;

/// What a `serde_json::Map` holds: its members, in their order.
pub uninterp spec fn members_of(m: serde_json::Map<String, serde_json::Value>) -> Seq<
    (Seq<char>, Json),
>;

/// What `serde_json::from_str` makes of a text: the value's content, or the
/// diagnostic of the failure.
pub uninterp spec fn parsed(text: Seq<char>) -> Result<Json, Seq<char>>;

/// `Value::Null`.
#[verifier::external_body]
pub(crate) fn null() -> (v: serde_json::Value)
    ensures
        json_of(v) is Null,
{
    serde_json::Value::Null
}

/// `Value::from(u64)`: the number, kept as unsigned.
#[verifier::external_body]
pub(crate) fn from_u64(n: u64) -> (v: serde_json::Value)
    ensures
        json_of(v) == Json::Number(Number::PosInt(n)),
{
    serde_json::Value::from(n)
}

/// `Value::from(i64)`: the number, kept as signed if it is negative and as
/// unsigned if it is not.
#[verifier::external_body]
pub(crate) fn from_i64(n: i64) -> (v: serde_json::Value)
    ensures
        json_of(v) == Json::of_i64(n),
{
    serde_json::Value::from(n)
}

/// `Value::from(&str)`: a JSON string of the same text.
#[verifier::external_body]
pub(crate) fn from_str(s: &str) -> (v: serde_json::Value)
    ensures
        json_of(v) == Json::String(s@),
{
    serde_json::Value::from(s)
}

/// `Value::clone`: the same value.
pub assume_specification[ <serde_json::Value as Clone>::clone ](v: &serde_json::Value) -> (copy:
    serde_json::Value)
    ensures
        copy == *v,
;

/// `Value::is_null`.
#[verifier::external_body]
pub(crate) fn is_null(v: &serde_json::Value) -> (r: bool)
    ensures
        r == (json_of(*v) is Null),
{
    v.is_null()
}

/// `Value::is_object`.
#[verifier::external_body]
pub(crate) fn is_object(v: &serde_json::Value) -> (r: bool)
    ensures
        r == (json_of(*v) is Object),
{
    v.is_object()
}

/// `Value::as_u64`: the number, if it is an integer kept as unsigned.
#[verifier::external_body]
pub(crate) fn as_u64(v: &serde_json::Value) -> (r: Option<u64>)
    ensures
        r == json_of(*v).unsigned(),
{
    v.as_u64()
}

/// `Value::as_i64`: the number, if it is an integer that fits in `i64`.
#[verifier::external_body]
pub(crate) fn as_i64(v: &serde_json::Value) -> (r: Option<i64>)
    ensures
        r == json_of(*v).signed(),
{
    v.as_i64()
}

/// `Value::as_f64`, as a bit pattern: some float for every number, and for a
/// number kept as a float its own bits.
#[verifier::external_body]
pub(crate) fn as_float_bits(v: &serde_json::Value) -> (r: Option<u64>)
    ensures
        r is Some <==> json_of(*v) is Number,
        json_of(*v) matches Json::Number(Number::Float(bits)) ==> r == Some(bits),
{
    match v.as_f64() {
        Some(f) => Some(f.to_bits()),
        None => None,
    }
}

/// `Value::as_str`: the text of a JSON string.
#[verifier::external_body]
pub(crate) fn as_str(v: &serde_json::Value) -> (r: Option<&str>)
    ensures
        r is Some <==> json_of(*v) is String,
        r matches Some(s) ==> json_of(*v) == Json::String(s@),
{
    v.as_str()
}

/// `Value::get` with a string key: the member of an object under that key.
#[verifier::external_body]
pub(crate) fn get<'a>(v: &'a serde_json::Value, key: &str) -> (r: Option<&'a serde_json::Value>)
    ensures
        r is Some <==> json_of(*v).member(key@) is Some,
        r matches Some(found) ==> json_of(*v).member(key@) == Some(json_of(*found)),
{
    v.get(key)
}

/// `Value`'s `Display`: the compact JSON text.
#[verifier::external_body]
pub(crate) fn to_text(v: &serde_json::Value) -> (s: String)
    ensures
        s@ == text_of(json_of(*v)),
{
    v.to_string()
}

/// `Map::new`: no members.
#[verifier::external_body]
pub(crate) fn map_new() -> (m: serde_json::Map<String, serde_json::Value>)
    ensures
        members_of(m) == (Seq::<(Seq<char>, Json)>::empty()),
{
    serde_json::Map::new()
}

/// `Map::insert`: a key that is there keeps its place and gets the value; a new
/// key comes last.
#[verifier::external_body]
pub(crate) fn map_insert(
    m: &mut serde_json::Map<String, serde_json::Value>,
    key: &str,
    value: serde_json::Value,
)
    ensures
        members_of(*final(m)) == inserted(members_of(*old(m)), key@, json_of(value)),
{
    m.insert(key.to_owned(), value);
}

/// `Value::from(Map)`: the object with the map's members, in their order.
#[verifier::external_body]
pub(crate) fn object(m: serde_json::Map<String, serde_json::Value>) -> (v: serde_json::Value)
    ensures
        json_of(v) == Json::Object(members_of(m)),
{
    serde_json::Value::from(m)
}

/// `serde_json::from_str` at `Value`, the error taken as the text it displays.
#[verifier::external_body]
pub(crate) fn parse(text: &str) -> (r: Result<serde_json::Value, String>)
    ensures
        r matches Ok(v) ==> (parsed(text@) matches Ok(content) && content == json_of(v)),
        r matches Err(message) ==> (parsed(text@) matches Err(complaint) && complaint == message@),
{
    match serde_json::from_str::<serde_json::Value>(text) {
        Ok(v) => Ok(v),
        Err(e) => Err(e.to_string()),
    }
}

} // verus!
