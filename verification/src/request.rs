//! The request object of JSON-RPC 2.0.

use crate::envelope::{append_slot, present, slot_json, slot_text, take_present, text_view};
use crate::error::{is_parse_failure, Error};
use crate::error_code::ErrorCode;
use crate::id::{id_from_value, id_of};
use crate::json::{
    as_str, from_str, from_u64, get, is_object, json_of, null, parse, parsed, text_of, to_text,
    Json, Number,
};
use vstd::prelude::*;
use vstd::string::StringExecFns;

verus! {

/// A JSON-RPC request object
#[derive(Debug)]
pub struct Request {
    jsonrpc: serde_json::Value,
    id: Option<serde_json::Value>,
    method: Option<serde_json::Value>,
    params: Option<serde_json::Value>,
}

/// What a [`Request`] holds.
pub struct RequestView {
    pub jsonrpc: Json,
    pub id: Option<Json>,
    pub method: Option<Json>,
    pub params: Option<Json>,
}

impl View for Request {
    type V = RequestView;

    closed spec fn view(&self) -> RequestView {
        RequestView {
            jsonrpc: json_of(self.jsonrpc),
            id: slot_json(self.id),
            method: slot_json(self.method),
            params: slot_json(self.params),
        }
    }
}

/// The identifier of a request: none where the request has none; else what its
/// value stands for, and zero where it stands for nothing.
pub open spec fn request_id(id: Option<Json>) -> Option<u64> {
    match id {
        Some(content) => match id_of(content) {
            Some(n) => Some(n),
            None => Some(0u64),
        },
        None => None,
    }
}

/// The text of an optional value, where it is a JSON string.
pub open spec fn slot_string(slot: Option<Json>) -> Option<Seq<char>> {
    match slot {
        Some(content) => content.text(),
        None => None,
    }
}

/// A request on the wire: its four members in the order `jsonrpc`, `id`,
/// `method`, `params`, each one written, `null` for one that is absent.
pub open spec fn request_text(r: RequestView) -> Seq<char> {
    "{\"jsonrpc\":"@ + text_of(r.jsonrpc) + ",\"id\":"@ + slot_text(r.id) + ",\"method\":"@
        + slot_text(r.method) + ",\"params\":"@ + slot_text(r.params) + "}"@
}

/// What is wrong with a JSON value that is to be read as a request, in words;
/// `None` for an object with a member `jsonrpc`.
pub open spec fn request_complaint(j: Json) -> Option<Seq<char>> {
    if !(j is Object) {
        Some("invalid type, expected struct Request"@)
    } else if j.member("jsonrpc"@) is None {
        Some("missing field `jsonrpc`"@)
    } else {
        None
    }
}

/// Whether a request is the one that a JSON value stands for: `jsonrpc` as it
/// is, and of `id`, `method` and `params` each one that is present.
pub open spec fn is_request_of(r: RequestView, j: Json) -> bool {
    &&& Some(r.jsonrpc) == j.member("jsonrpc"@)
    &&& r.id == present(j, "id"@)
    &&& r.method == present(j, "method"@)
    &&& r.params == present(j, "params"@)
}

impl Request {
    /// Creates a new [Request]: version `"2.0"`, and nothing else.
    pub fn new() -> (r: Request)
        ensures
            r@.jsonrpc == Json::String("2.0"@),
            r@.id is None,
            r@.method is None,
            r@.params is None,
    {
        Request { jsonrpc: from_str("2.0"), id: None, method: None, params: None }
    }

    /// Creates a new [Request] with a null version and nothing else.
    pub fn new_null() -> (r: Request)
        ensures
            r@.jsonrpc is Null,
            r@.id is None,
            r@.method is None,
            r@.params is None,
    {
        Request { jsonrpc: null(), id: None, method: None, params: None }
    }

    /// Gets the JSON-RPC version string.
    ///
    /// This value should always be `"2.0"`, but may also be null or malformed:
    /// `None` where it is not a string.
    pub fn jsonrpc(&self) -> (version: Option<&str>)
        ensures
            text_view(version) == self@.jsonrpc.text(),
    {
        as_str(&self.jsonrpc)
    }

    /// Gets the ID: `None` for a request without one. An ID that stands for no
    /// number is read as zero.
    pub fn id(&self) -> (id: Option<u64>)
        ensures
            id == request_id(self@.id),
    {
        match &self.id {
            Some(v) => match id_from_value(v) {
                Some(n) => Some(n),
                None => Some(0),
            },
            None => None,
        }
    }

    /// Sets the ID.
    pub fn set_id(&mut self, id: u64)
        ensures
            final(self)@ == (RequestView {
                id: Some(Json::Number(Number::PosInt(id))),
                ..old(self)@
            }),
    {
        self.id = Some(from_u64(id));
    }

    /// Builder function to set ID.
    pub fn with_id(self, id: u64) -> (r: Request)
        ensures
            r@ == (RequestView { id: Some(Json::Number(Number::PosInt(id))), ..self@ }),
    {
        let mut r = self;
        r.set_id(id);
        r
    }

    /// Gets the method: `None` where there is none or it is not a string.
    pub fn method(&self) -> (method: Option<&str>)
        ensures
            text_view(method) == slot_string(self@.method),
    {
        match &self.method {
            Some(m) => as_str(m),
            None => None,
        }
    }

    /// Sets the method.
    pub fn set_method(&mut self, method: &str)
        ensures
            final(self)@ == (RequestView { method: Some(Json::String(method@)), ..old(self)@ }),
    {
        self.method = Some(from_str(method));
    }

    /// Builder function to set method.
    pub fn with_method(self, method: &str) -> (r: Request)
        ensures
            r@ == (RequestView { method: Some(Json::String(method@)), ..self@ }),
    {
        let mut r = self;
        r.set_method(method);
        r
    }

    /// Gets whether the request is without parameters.
    pub fn params_is_null(&self) -> (absent: bool)
        ensures
            absent == (self@.params is None),
    {
        self.params.is_none()
    }

    /// Gets the [Request] parameters as they are, to be decoded by the caller.
    ///
    /// A request without parameters gives `InvalidParams`, with the message
    /// `null Params field`.
    pub fn params(&self) -> (r: Result<&serde_json::Value, Error>)
        ensures
            self@.params matches Some(content) ==> (r matches Ok(found) && json_of(*found)
                == content),
            self@.params is None ==> (r matches Err(e) && e@.code == ErrorCode::InvalidParams
                && e@.message == "null Params field"@ && e@.data is Null),
    {
        match &self.params {
            Some(p) => Ok(p),
            None => Err(
                Error::new().with_code(ErrorCode::InvalidParams).with_message("null Params field"),
            ),
        }
    }

    /// Sets the [Request] parameters.
    pub fn set_params(&mut self, params: serde_json::Value)
        ensures
            final(self)@ == (RequestView { params: Some(json_of(params)), ..old(self)@ }),
    {
        self.params = Some(params);
    }

    /// Builder function to set the [Request] parameters.
    pub fn with_params(self, params: serde_json::Value) -> (r: Request)
        ensures
            r@ == (RequestView { params: Some(json_of(params)), ..self@ }),
    {
        let mut r = self;
        r.set_params(params);
        r
    }

    /// Writes the request as it goes over the wire.
    pub fn to_json(&self) -> (text: String)
        ensures
            text@ == request_text(self@),
    {
        let mut text = "{\"jsonrpc\":".to_owned();
        text.append(to_text(&self.jsonrpc).as_str());
        text.append(",\"id\":");
        append_slot(&mut text, &self.id);
        text.append(",\"method\":");
        append_slot(&mut text, &self.method);
        text.append(",\"params\":");
        append_slot(&mut text, &self.params);
        text.append("}");
        text
    }

    /// Reads a request from a JSON value: an object with a member `jsonrpc`.
    /// Of `id`, `method` and `params`, one that is missing or `null` is absent.
    pub fn from_value(v: &serde_json::Value) -> (r: Result<Request, Error>)
        ensures
            request_complaint(json_of(*v)) is None ==> (r matches Ok(request) && is_request_of(
                request@,
                json_of(*v),
            )),
            request_complaint(json_of(*v)) matches Some(fault) ==> (r matches Err(e)
                && is_parse_failure(e@, fault)),
    {
        if !is_object(v) {
            return Err(Error::parse_failure("invalid type, expected struct Request"));
        }
        match get(v, "jsonrpc") {
            Some(version) => Ok(
                Request {
                    jsonrpc: version.clone(),
                    id: take_present(v, "id"),
                    method: take_present(v, "method"),
                    params: take_present(v, "params"),
                },
            ),
            None => Err(Error::parse_failure("missing field `jsonrpc`")),
        }
    }

    /// Reads a request from its text on the wire. A text that is no JSON, and
    /// a JSON value that is no request, give a `ParseError` with the
    /// diagnostic as its message.
    pub fn from_json(text: &str) -> (r: Result<Request, Error>)
        ensures
            parsed(text@) matches Err(fault) ==> (r matches Err(e) && is_parse_failure(e@, fault)),
            parsed(text@) matches Ok(j) ==> (request_complaint(j) is None ==> (r matches Ok(
                request,
            ) && is_request_of(request@, j))),
            parsed(text@) matches Ok(j) ==> (request_complaint(j) matches Some(fault) ==> (
            r matches Err(e) && is_parse_failure(e@, fault))),
    {
        match parse(text) {
            Ok(v) => Request::from_value(&v),
            Err(fault) => Err(Error::parse_failure(fault.as_str())),
        }
    }
}

impl Clone for Request {
    fn clone(&self) -> (copy: Request)
        ensures
            copy@ == self@,
    {
        Request {
            jsonrpc: self.jsonrpc.clone(),
            id: match &self.id {
                Some(v) => Some(v.clone()),
                None => None,
            },
            method: match &self.method {
                Some(v) => Some(v.clone()),
                None => None,
            },
            params: match &self.params {
                Some(v) => Some(v.clone()),
                None => None,
            },
        }
    }
}

impl Default for Request {
    fn default() -> (r: Request)
        ensures
            r@.jsonrpc is Null,
            r@.id is None,
            r@.method is None,
            r@.params is None,
    {
        Request::new_null()
    }
}

} // verus!
