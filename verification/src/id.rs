//! Identifiers: the lenient reading of a JSON value as an unsigned 64-bit number.

use crate::float::{
    exponent, float_of_text, float_to_u64, is_negative, parse_float_bits, truncate_float,
    whole_part,
};
use crate::json::{as_float_bits, as_i64, as_str, as_u64, is_null, json_of, Json, Number};
use crate::text::{chars_i64, chars_of, chars_u64, contains, text_i64, text_u64};
use vstd::prelude::*;

verus! {

/// A signed integer read as unsigned, bit for bit: a negative number becomes a
/// large one.
pub open spec fn reinterpret(i: i64) -> u64 {
    if i < 0 {
        (i + 0x1_0000_0000_0000_0000) as u64
    } else {
        i as u64
    }
}

/// The identifier that a text stands for. A text with a hyphen is read as a
/// signed integer and reinterpreted; one without a hyphen and with a period is
/// read as a float and cut down; any other is read as an unsigned integer.
/// `None` where that reading fails.
pub open spec fn id_of_text(text: Seq<char>) -> Option<u64> {
    if text.contains('-') {
        match text_i64(text) {
            Some(i) => Some(reinterpret(i)),
            None => None,
        }
    } else if text.contains('.') {
        match float_of_text(text) {
            Some(bits) => Some(float_to_u64(bits)),
            None => None,
        }
    } else {
        text_u64(text)
    }
}

/// The identifier that a JSON value stands for. An integer stands for itself,
/// reinterpreted if it is negative. A float is cut off at the point and then
/// read as an integer is. A string stands for what its text stands for. `null`,
/// booleans, arrays and objects stand for none.
pub open spec fn id_of(value: Json) -> Option<u64> {
    match value {
        Json::Number(Number::PosInt(n)) => Some(n),
        Json::Number(Number::NegInt(i)) => Some(reinterpret(i)),
        Json::Number(Number::Float(bits)) => Some(float_to_u64(bits)),
        Json::String(text) => id_of_text(text),
        _ => None,
    }
}

/// Reads a signed integer as unsigned, bit for bit.
pub fn reinterpret_i64(i: i64) -> (u: u64)
    ensures
        u == reinterpret(i),
{
    if i >= 0 {
        i as u64
    } else {
        u64::MAX - ((-(i + 1)) as u64)
    }
}

/// Converts the text of an identifier into a JSON-RPC ID.
pub fn id_from_text(text: &str) -> (id: Option<u64>)
    ensures
        id == id_of_text(text@),
{
    let chars = chars_of(text);
    if contains(&chars, '-') {
        match chars_i64(&chars) {
            Some(i) => Some(reinterpret_i64(i)),
            None => None,
        }
    } else if contains(&chars, '.') {
        match parse_float_bits(text) {
            Some(bits) => Some(truncate_float(bits)),
            None => None,
        }
    } else {
        chars_u64(&chars)
    }
}

/// Converts a JSON value into a JSON-RPC ID.
///
/// Returns `Some(id)` if the value stands for one, `None` otherwise. Every
/// value is accepted.
pub fn id_from_value(val: &serde_json::Value) -> (id: Option<u64>)
    ensures
        id == id_of(json_of(*val)),
{
    if is_null(val) {
        None
    } else if let Some(n) = as_u64(val) {
        Some(n)
    } else if let Some(i) = as_i64(val) {
        Some(reinterpret_i64(i))
    } else if let Some(bits) = as_float_bits(val) {
        Some(truncate_float(bits))
    } else if let Some(text) = as_str(val) {
        id_from_text(text)
    } else {
        None
    }
}

/// A negative float is read as the negative integer that is left of it when it
/// is cut off at the point.
pub proof fn law_negative_float_reads_as_integer(bits: u64, i: i64)
    requires
        exponent(bits) != 0x7ff,
        is_negative(bits),
        i < 0,
        whole_part(bits) == -i,
    ensures
        id_of(Json::Number(Number::Float(bits))) == id_of(Json::Number(Number::NegInt(i))),
        float_to_u64(bits) == reinterpret(i),
{
}

/// Every JSON value is read: a number always stands for an identifier, a string
/// for the one that its text stands for, and `null`, booleans, arrays and objects
/// for none.
pub proof fn law_every_value_is_read(value: Json)
    ensures
        value is Number ==> id_of(value) is Some,
        value matches Json::String(text) ==> id_of(value) == id_of_text(text),
        value is Null || value is Bool || value is Array || value is Object ==> id_of(value) is None,
{
}

} // verus!
