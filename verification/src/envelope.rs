//! What the two envelopes, request and response, share: optional members, and
//! how they are written and read.

use crate::json::{get, is_null, json_of, text_of, to_text, Json};
use vstd::prelude::*;
use vstd::string::StringExecFns;

verus! {

/// What an optional value holds, if there is one.
pub open spec fn slot_json(slot: Option<serde_json::Value>) -> Option<Json> {
    match slot {
        Some(v) => Some(json_of(v)),
        None => None,
    }
}

/// What is written for an optional value: its JSON text, or `null` where there
/// is none.
pub open spec fn slot_text(slot: Option<Json>) -> Seq<char> {
    match slot {
        Some(content) => text_of(content),
        None => "null"@,
    }
}

/// The member of an object under `key` that counts as present: one that is
/// there and is not `null`.
pub open spec fn present(j: Json, key: Seq<char>) -> Option<Json> {
    match j.member(key) {
        Some(Json::Null) => None,
        Some(found) => Some(found),
        None => None,
    }
}

/// The text of an optional string.
pub open spec fn text_view(s: Option<&str>) -> Option<Seq<char>> {
    match s {
        Some(s) => Some(s@),
        None => None,
    }
}

/// Takes a copy of the member under `key`, where one is present.
pub fn take_present(v: &serde_json::Value, key: &str) -> (slot: Option<serde_json::Value>)
    ensures
        slot_json(slot) == present(json_of(*v), key@),
{
    match get(v, key) {
        Some(found) => {
            if is_null(found) {
                None
            } else {
                Some(found.clone())
            }
        },
        None => None,
    }
}

/// Writes an optional value behind `out`.
pub fn append_slot(out: &mut String, slot: &Option<serde_json::Value>)
    ensures
        final(out)@ == old(out)@ + slot_text(slot_json(*slot)),
{
    match slot {
        Some(v) => {
            out.append(to_text(v).as_str());
        },
        None => {
            out.append("null");
        },
    }
}

} // verus!
