//! The response object of JSON-RPC 2.0.

use crate::envelope::{append_slot, present, slot_json, slot_text, take_present, text_view};
use crate::error::{complaint, is_error_in, is_parse_failure, wire_object, Error, ErrorView};
use crate::error_code::ErrorCode;
use crate::id::{id_from_value, id_of};
use crate::json::{
    as_str, from_str, from_u64, get, is_object, json_of, null, parse, parsed, text_of, to_text,
    Json, Number,
};
use vstd::prelude::*;
use vstd::string::StringExecFns;

verus! {

/// A JSON-RPC response object
#[derive(Debug)]
pub struct Response {
    jsonrpc: serde_json::Value,
    id: serde_json::Value,
    result: Option<serde_json::Value>,
    error: Option<serde_json::Value>,
}

/// What a [`Response`] holds.
pub struct ResponseView {
    pub jsonrpc: Json,
    pub id: Json,
    pub result: Option<Json>,
    pub error: Option<Json>,
}

impl View for Response {
    type V = ResponseView;

    closed spec fn view(&self) -> ResponseView {
        ResponseView {
            jsonrpc: json_of(self.jsonrpc),
            id: json_of(self.id),
            result: slot_json(self.result),
            error: slot_json(self.error),
        }
    }
}

/// A response on the wire: its four members in the order `jsonrpc`, `id`,
/// `result`, `error`, each one written, `null` for one that is absent.
pub open spec fn response_text(r: ResponseView) -> Seq<char> {
    "{\"jsonrpc\":"@ + text_of(r.jsonrpc) + ",\"id\":"@ + text_of(r.id) + ",\"result\":"@
        + slot_text(r.result) + ",\"error\":"@ + slot_text(r.error) + "}"@
}

/// What is wrong with a JSON value that is to be read as a response, in
/// words; `None` for an object with the members `jsonrpc` and `id`.
pub open spec fn response_complaint(j: Json) -> Option<Seq<char>> {
    if !(j is Object) {
        Some("invalid type, expected struct Response"@)
    } else if j.member("jsonrpc"@) is None {
        Some("missing field `jsonrpc`"@)
    } else if j.member("id"@) is None {
        Some("missing field `id`"@)
    } else {
        None
    }
}

/// Whether a response is the one that a JSON value stands for: `jsonrpc` and
/// `id` as they are, and of `result` and `error` each one that is present.
pub open spec fn is_response_of(r: ResponseView, j: Json) -> bool {
    &&& Some(r.jsonrpc) == j.member("jsonrpc"@)
    &&& Some(r.id) == j.member("id"@)
    &&& r.result == present(j, "result"@)
    &&& r.error == present(j, "error"@)
}

/// Whether `e` is the error that a JSON value is read as: the error that the
/// value stands for where it has the shape of one; else the `ParseError` that
/// says what is wrong with it.
pub open spec fn is_error_of(e: ErrorView, j: Json) -> bool {
    match complaint(j) {
        None => is_error_in(e, j),
        Some(fault) => is_parse_failure(e, fault),
    }
}

impl Response {
    /// Creates a new [Response]: version `"2.0"`, a null ID, and nothing else.
    pub fn new() -> (r: Response)
        ensures
            r@.jsonrpc == Json::String("2.0"@),
            r@.id is Null,
            r@.result is None,
            r@.error is None,
    {
        Response { jsonrpc: from_str("2.0"), id: null(), result: None, error: None }
    }

    /// Creates a new [Response] with a null version, a null ID, and nothing
    /// else.
    pub fn new_null() -> (r: Response)
        ensures
            r@.jsonrpc is Null,
            r@.id is Null,
            r@.result is None,
            r@.error is None,
    {
        Response { jsonrpc: null(), id: null(), result: None, error: None }
    }

    /// Gets the JSON-RPC version string.
    ///
    /// This value should always be `"2.0"`, but may also be null or malformed:
    /// `None` where it is not a string.
    pub fn jsonrpc(&self) -> (version: Option<&str>)
        ensures
            text_view(version) == self@.jsonrpc.text(),
    {
        as_str(&self.jsonrpc)
    }

    /// Gets the ID: what the stored value stands for, `None` where it stands
    /// for nothing.
    pub fn id(&self) -> (id: Option<u64>)
        ensures
            id == id_of(self@.id),
    {
        id_from_value(&self.id)
    }

    /// Sets the ID.
    pub fn set_id(&mut self, id: u64)
        ensures
            final(self)@ == (ResponseView { id: Json::Number(Number::PosInt(id)), ..old(self)@ }),
    {
        self.id = from_u64(id);
    }

    /// Builder function to set ID.
    pub fn with_id(self, id: u64) -> (r: Response)
        ensures
            r@ == (ResponseView { id: Json::Number(Number::PosInt(id)), ..self@ }),
    {
        let mut r = self;
        r.id = from_u64(id);
        r
    }

    /// Gets whether the response is without a result.
    pub fn result_is_null(&self) -> (absent: bool)
        ensures
            absent == (self@.result is None),
    {
        self.result.is_none()
    }

    /// Gets the [Response] result as it is, to be decoded by the caller.
    ///
    /// A response without a result gives `InvalidParams`, with the message
    /// `null Result field`.
    pub fn result(&self) -> (r: Result<&serde_json::Value, Error>)
        ensures
            self@.result matches Some(content) ==> (r matches Ok(found) && json_of(*found)
                == content),
            self@.result is None ==> (r matches Err(e) && e@.code == ErrorCode::InvalidParams
                && e@.message == "null Result field"@ && e@.data is Null),
    {
        match &self.result {
            Some(found) => Ok(found),
            None => Err(
                Error::new().with_code(ErrorCode::InvalidParams).with_message("null Result field"),
            ),
        }
    }

    /// Sets the [Response] result.
    pub fn set_result(&mut self, result: serde_json::Value)
        ensures
            final(self)@ == (ResponseView { result: Some(json_of(result)), ..old(self)@ }),
    {
        self.result = Some(result);
    }

    /// Builder function to set the [Response] result.
    pub fn with_result(self, result: serde_json::Value) -> (r: Response)
        ensures
            r@ == (ResponseView { result: Some(json_of(result)), ..self@ }),
    {
        let mut r = self;
        r.set_result(result);
        r
    }

    /// Gets whether the response is without an error.
    pub fn error_is_null(&self) -> (absent: bool)
        ensures
            absent == (self@.error is None),
    {
        self.error.is_none()
    }

    /// Gets the error: `None` for a response without one. A stored value that
    /// has not the shape of an error object is given as the `ParseError` that
    /// says what is wrong with it.
    pub fn error(&self) -> (error: Option<Error>)
        ensures
            self@.error is None ==> error is None,
            self@.error matches Some(content) ==> (error matches Some(e) && is_error_of(
                e@,
                content,
            )),
    {
        match &self.error {
            Some(v) => match Error::from_value(v) {
                Ok(e) => Some(e),
                Err(e) => Some(e),
            },
            None => None,
        }
    }

    /// Sets the error: it is stored as the JSON object that stands for it.
    pub fn set_error(&mut self, error: Error)
        ensures
            final(self)@ == (ResponseView { error: Some(wire_object(error@)), ..old(self)@ }),
    {
        self.error = Some(error.to_value());
    }

    /// Builder function to set error.
    pub fn with_error(self, error: Error) -> (r: Response)
        ensures
            r@ == (ResponseView { error: Some(wire_object(error@)), ..self@ }),
    {
        let mut r = self;
        r.set_error(error);
        r
    }

    /// Writes the response as it goes over the wire.
    pub fn to_json(&self) -> (text: String)
        ensures
            text@ == response_text(self@),
    {
        let mut text = "{\"jsonrpc\":".to_owned();
        text.append(to_text(&self.jsonrpc).as_str());
        text.append(",\"id\":");
        text.append(to_text(&self.id).as_str());
        text.append(",\"result\":");
        append_slot(&mut text, &self.result);
        text.append(",\"error\":");
        append_slot(&mut text, &self.error);
        text.append("}");
        text
    }

    /// Reads a response from a JSON value: an object with the members
    /// `jsonrpc` and `id`. Of `result` and `error`, one that is missing or
    /// `null` is absent.
    pub fn from_value(v: &serde_json::Value) -> (r: Result<Response, Error>)
        ensures
            response_complaint(json_of(*v)) is None ==> (r matches Ok(response) && is_response_of(
                response@,
                json_of(*v),
            )),
            response_complaint(json_of(*v)) matches Some(fault) ==> (r matches Err(e)
                && is_parse_failure(e@, fault)),
    {
        if !is_object(v) {
            return Err(Error::parse_failure("invalid type, expected struct Response"));
        }
        let version = match get(v, "jsonrpc") {
            Some(version) => version,
            None => {
                return Err(Error::parse_failure("missing field `jsonrpc`"));
            },
        };
        match get(v, "id") {
            Some(id) => Ok(
                Response {
                    jsonrpc: version.clone(),
                    id: id.clone(),
                    result: take_present(v, "result"),
                    error: take_present(v, "error"),
                },
            ),
            None => Err(Error::parse_failure("missing field `id`")),
        }
    }

    /// Reads a response from its text on the wire. A text that is no JSON, and
    /// a JSON value that is no response, give a `ParseError` with the
    /// diagnostic as its message.
    pub fn from_json(text: &str) -> (r: Result<Response, Error>)
        ensures
            parsed(text@) matches Err(fault) ==> (r matches Err(e) && is_parse_failure(e@, fault)),
            parsed(text@) matches Ok(j) ==> (response_complaint(j) is None ==> (r matches Ok(
                response,
            ) && is_response_of(response@, j))),
            parsed(text@) matches Ok(j) ==> (response_complaint(j) matches Some(fault) ==> (
            r matches Err(e) && is_parse_failure(e@, fault))),
    {
        match parse(text) {
            Ok(v) => Response::from_value(&v),
            Err(fault) => Err(Error::parse_failure(fault.as_str())),
        }
    }
}

impl Clone for Response {
    fn clone(&self) -> (copy: Response)
        ensures
            copy@ == self@,
    {
        Response {
            jsonrpc: self.jsonrpc.clone(),
            id: self.id.clone(),
            result: match &self.result {
                Some(v) => Some(v.clone()),
                None => None,
            },
            error: match &self.error {
                Some(v) => Some(v.clone()),
                None => None,
            },
        }
    }
}

impl Default for Response {
    fn default() -> (r: Response)
        ensures
            r@.jsonrpc is Null,
            r@.id is Null,
            r@.result is None,
            r@.error is None,
    {
        Response::new_null()
    }
}

/// An error that is set on a response is the error that the response gives
/// back: the same code, the same message, the same data.
pub proof fn law_error_comes_back(e: ErrorView, back: ErrorView)
    requires
        is_error_of(back, wire_object(e)),
    ensures
        back == e,
{
    crate::error::law_wire_object_round_trip(e);
}

} // verus!
