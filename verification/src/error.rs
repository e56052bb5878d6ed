//! The error object of JSON-RPC 2.0.

use crate::error_code::ErrorCode;
use crate::json::{
    as_i64, as_str, from_i64, from_str, get, inserted, is_null, is_object, json_of, map_insert,
    map_new, null, object, position, text_of, to_text, Json,
};
use crate::text::{i64_text, int_text};
use vstd::prelude::*;
use vstd::std_specs::cmp::PartialEqSpec;
use vstd::string::StringExecFns;

verus! {

/// Error type for JSON-RPC specific errors.
#[derive(Debug)]
pub struct Error {
    code: ErrorCode,
    message: String,
    data: serde_json::Value,
}

/// What an [`Error`] holds.
pub struct ErrorView {
    pub code: ErrorCode,
    pub message: Seq<char>,
    pub data: Json,
}

impl View for Error {
    type V = ErrorView;

    closed spec fn view(&self) -> ErrorView {
        ErrorView { code: self.code, message: self.message@, data: json_of(self.data) }
    }
}

/// The JSON object that stands for an error on the wire. It has three members,
/// in this order: the code as its integer under `code`, the message under
/// `message`, the data under `data`.
pub open spec fn wire_object(e: ErrorView) -> Json {
    Json::Object(
        seq![
            ("code"@, Json::of_i64(e.code.wire() as i64)),
            ("message"@, Json::String(e.message)),
            ("data"@, e.data),
        ],
    )
}

/// The 32-bit integer under `code`, where there is one.
pub open spec fn code_member(j: Json) -> Option<i32> {
    match j.member("code"@) {
        Some(c) => match c.signed() {
            Some(n) => if i32::MIN <= n <= i32::MAX {
                Some(n as i32)
            } else {
                None
            },
            None => None,
        },
        None => None,
    }
}

/// The text under `message`, where there is one.
pub open spec fn message_member(j: Json) -> Option<Seq<char>> {
    match j.member("message"@) {
        Some(m) => m.text(),
        None => None,
    }
}

/// What is wrong with a JSON value that is to be read as an error object, in
/// words; `None` for a value that has the shape: an object with a 32-bit integer
/// under `code`, a string under `message`, and anything under `data`. The first
/// fault found is named, in that order.
pub open spec fn complaint(j: Json) -> Option<Seq<char>> {
    if !(j is Object) {
        Some("invalid type, expected struct Error"@)
    } else if j.member("code"@) is None {
        Some("missing field `code`"@)
    } else if code_member(j) is None {
        Some("invalid value for field `code`, expected i32"@)
    } else if j.member("message"@) is None {
        Some("missing field `message`"@)
    } else if message_member(j) is None {
        Some("invalid type for field `message`, expected a string"@)
    } else if j.member("data"@) is None {
        Some("missing field `data`"@)
    } else {
        None
    }
}

/// Whether an error is the one that a JSON value of the right shape stands for:
/// the code that the integer under `code` stands for, the text under `message`,
/// and what is under `data`.
pub open spec fn is_error_in(e: ErrorView, j: Json) -> bool {
    &&& e.code == ErrorCode::of_wire(code_member(j)->0)
    &&& Some(e.message) == message_member(j)
    &&& Some(e.data) == j.member("data"@)
}

/// Whether an error is the one that stands for a failure with the given
/// diagnostic: `ParseError`, the diagnostic as its message, no data.
pub open spec fn is_parse_failure(e: ErrorView, message: Seq<char>) -> bool {
    &&& e.code == ErrorCode::ParseError
    &&& e.message == message
    &&& e.data is Null
}

/// How an error is shown: `"code": <int>, "message": "<msg>"`, and
/// `, "data": <data>` behind it where the data is not null.
pub open spec fn shown(e: ErrorView) -> Seq<char> {
    let head = "\"code\": "@ + int_text(e.code.wire() as int) + ", \"message\": \""@ + e.message
        + "\""@;
    if e.data is Null {
        head
    } else {
        head + ", \"data\": "@ + text_of(e.data)
    }
}

impl Error {
    /// Creates a new [Error]: `ParseError`, an empty message, no data.
    pub fn new() -> (e: Error)
        ensures
            e@.code == ErrorCode::ParseError,
            e@.message == Seq::<char>::empty(),
            e@.data is Null,
    {
        Error { code: ErrorCode::new(), message: String::new(), data: null() }
    }

    /// Gets the [ErrorCode].
    pub fn code(&self) -> (code: ErrorCode)
        ensures
            code == self@.code,
    {
        self.code
    }

    /// Sets the [ErrorCode].
    pub fn set_code(&mut self, code: ErrorCode)
        ensures
            final(self)@ == (ErrorView { code: code, ..old(self)@ }),
    {
        self.code = code;
    }

    /// Builder function to set the [ErrorCode].
    pub fn with_code(self, code: ErrorCode) -> (e: Error)
        ensures
            e@ == (ErrorView { code: code, ..self@ }),
    {
        let mut e = self;
        e.code = code;
        e
    }

    /// Gets the [Error] message string.
    pub fn message(&self) -> (message: &str)
        ensures
            message@ == self@.message,
    {
        self.message.as_str()
    }

    /// Sets the [Error] message string.
    pub fn set_message(&mut self, message: &str)
        ensures
            final(self)@ == (ErrorView { message: message@, ..old(self)@ }),
    {
        self.message = message.to_owned();
    }

    /// Builder function to set the [Error] message string.
    pub fn with_message(self, message: &str) -> (e: Error)
        ensures
            e@ == (ErrorView { message: message@, ..self@ }),
    {
        let mut e = self;
        e.message = message.to_owned();
        e
    }

    /// Gets the [Error] data.
    ///
    /// The data is an extra field, and may be null.
    pub fn data(&self) -> (data: &serde_json::Value)
        ensures
            json_of(*data) == self@.data,
    {
        &self.data
    }

    /// Sets the [Error] data.
    pub fn set_data(&mut self, data: serde_json::Value)
        ensures
            final(self)@ == (ErrorView { data: json_of(data), ..old(self)@ }),
    {
        self.data = data;
    }

    /// Builder function to set the [Error] data.
    pub fn with_data(self, data: serde_json::Value) -> (e: Error)
        ensures
            e@ == (ErrorView { data: json_of(data), ..self@ }),
    {
        let mut e = self;
        e.data = data;
        e
    }

    /// Shows the error as `"code": <int>, "message": "<msg>"`, with
    /// `, "data": <data>` behind it where the data is not null.
    pub fn to_string(&self) -> (s: String)
        ensures
            s@ == shown(self@),
    {
        let mut s = "\"code\": ".to_owned();
        s.append(i64_text(i64::from(i32::from(self.code))).as_str());
        s.append(", \"message\": \"");
        s.append(self.message.as_str());
        s.append("\"");
        if !is_null(&self.data) {
            s.append(", \"data\": ");
            s.append(to_text(&self.data).as_str());
        }
        s
    }

    /// The JSON value that stands for the error on the wire: an object with the
    /// members `code`, `message` and `data`, in this order.
    pub fn to_value(&self) -> (v: serde_json::Value)
        ensures
            json_of(v) == wire_object(self@),
    {
        let mut members = map_new();
        map_insert(&mut members, "code", from_i64(i64::from(i32::from(self.code))));
        map_insert(&mut members, "message", from_str(self.message.as_str()));
        map_insert(&mut members, "data", self.data.clone());
        proof {
            lemma_three_members(
                Json::of_i64(self@.code.wire() as i64),
                Json::String(self@.message),
                self@.data,
            );
        }
        object(members)
    }

    /// Reads an error from the JSON value that stands for it on the wire.
    ///
    /// A value that has not the shape of an error object is refused with a
    /// `ParseError` that says in its message what is wrong.
    pub fn from_value(v: &serde_json::Value) -> (r: Result<Error, Error>)
        ensures
            complaint(json_of(*v)) is None ==> (r matches Ok(e) && is_error_in(e@, json_of(*v))),
            complaint(json_of(*v)) matches Some(fault) ==> (r matches Err(e) && is_parse_failure(
                e@,
                fault,
            )),
    {
        if !is_object(v) {
            return Err(Error::parse_failure("invalid type, expected struct Error"));
        }
        let wire: i32 = match get(v, "code") {
            Some(found) => {
                let fits = match as_i64(found) {
                    Some(n) => i32::try_from(n).ok(),
                    None => None,
                };
                match fits {
                    Some(w) => w,
                    None => {
                        return Err(
                            Error::parse_failure("invalid value for field `code`, expected i32"),
                        );
                    },
                }
            },
            None => {
                return Err(Error::parse_failure("missing field `code`"));
            },
        };
        let message: &str = match get(v, "message") {
            Some(found) => match as_str(found) {
                Some(m) => m,
                None => {
                    return Err(
                        Error::parse_failure("invalid type for field `message`, expected a string"),
                    );
                },
            },
            None => {
                return Err(Error::parse_failure("missing field `message`"));
            },
        };
        match get(v, "data") {
            Some(data) => Ok(
                Error { code: ErrorCode::from(wire), message: message.to_owned(), data: data.clone() },
            ),
            None => Err(Error::parse_failure("missing field `data`")),
        }
    }

    /// The error that stands for a failure to read something: `ParseError`, the
    /// diagnostic as its message, no data.
    pub fn parse_failure(diagnostic: &str) -> (e: Error)
        ensures
            is_parse_failure(e@, diagnostic@),
    {
        Error { code: ErrorCode::ParseError, message: diagnostic.to_owned(), data: null() }
    }
}

impl Clone for Error {
    fn clone(&self) -> (copy: Error)
        ensures
            copy@ == self@,
    {
        Error { code: self.code, message: self.message.clone(), data: self.data.clone() }
    }
}

impl Default for Error {
    fn default() -> (e: Error)
        ensures
            e@.code == ErrorCode::ParseError,
            e@.message == Seq::<char>::empty(),
            e@.data is Null,
    {
        Error::new()
    }
}

impl PartialEq for Error {
    fn eq(&self, oth: &Self) -> (r: bool) {
        self.code == oth.code && self.message == oth.message
    }
}

impl vstd::std_specs::cmp::PartialEqSpecImpl for Error {
    open spec fn obeys_eq_spec() -> bool {
        true
    }

    open spec fn eq_spec(&self, oth: &Self) -> bool {
        self@.code == oth@.code && self@.message == oth@.message
    }
}

/// Turns the outcome of a decoding into the library's: what was decoded as it
/// is, a failure, given by its diagnostic, as the `ParseError` with that message.
pub fn decoded<T>(outcome: Result<T, String>) -> (r: Result<T, Error>)
    ensures
        outcome matches Ok(value) ==> r == Ok::<T, Error>(value),
        outcome matches Err(fault) ==> (r matches Err(e) && is_parse_failure(e@, fault@)),
{
    match outcome {
        Ok(value) => Ok(value),
        Err(fault) => Err(Error::parse_failure(fault.as_str())),
    }
}

/// Two errors with the same code and the same message are equal, whatever
/// their data.
pub proof fn law_data_sets_no_errors_apart(a: Error, b: Error)
    requires
        a@.code == b@.code,
        a@.message == b@.message,
    ensures
        a.eq_spec(&b),
{
}

/// Three members that are inserted under `code`, `message` and `data`, in this
/// order, stand in this order; and each is found under its key.
proof fn lemma_three_members(code: Json, message: Json, data: Json)
    ensures
        inserted(
            inserted(
                inserted(Seq::<(Seq<char>, Json)>::empty(), "code"@, code),
                "message"@,
                message,
            ),
            "data"@,
            data,
        ) == seq![("code"@, code), ("message"@, message), ("data"@, data)],
        Json::Object(seq![("code"@, code), ("message"@, message), ("data"@, data)]).member(
            "code"@,
        ) == Some(code),
        Json::Object(seq![("code"@, code), ("message"@, message), ("data"@, data)]).member(
            "message"@,
        ) == Some(message),
        Json::Object(seq![("code"@, code), ("message"@, message), ("data"@, data)]).member(
            "data"@,
        ) == Some(data),
{
    reveal_strlit("code");
    reveal_strlit("message");
    reveal_strlit("data");
    assert("code"@.len() == 4 && "message"@.len() == 7 && "data"@.len() == 4);
    assert("code"@[0] != "data"@[0]);
    reveal_with_fuel(position, 4);
    let none = Seq::<(Seq<char>, Json)>::empty();
    let one = seq![("code"@, code)];
    let two = seq![("code"@, code), ("message"@, message)];
    let three = seq![("code"@, code), ("message"@, message), ("data"@, data)];
    assert(one.drop_last() == none);
    assert(two.drop_last() == one);
    assert(three.drop_last() == two);
    assert(none.push(("code"@, code)) == one);
    assert(one.push(("message"@, message)) == two);
    assert(two.push(("data"@, data)) == three);
    assert(position(none, "code"@) is None);
    assert(position(one, "code"@) == Some(0int));
    assert(position(one, "message"@) is None);
    assert(position(one, "data"@) is None);
    assert(position(two, "code"@) == Some(0int));
    assert(position(two, "message"@) == Some(1int));
    assert(position(two, "data"@) is None);
    assert(position(three, "code"@) == Some(0int));
    assert(position(three, "message"@) == Some(1int));
    assert(position(three, "data"@) == Some(2int));
}

/// The object that stands for an error has the shape of one, and what is read
/// from it is the error's code, message and data.
pub proof fn law_wire_object_round_trip(e: ErrorView)
    ensures
        complaint(wire_object(e)) is None,
        is_error_in(e, wire_object(e)),
{
    lemma_three_members(Json::of_i64(e.code.wire() as i64), Json::String(e.message), e.data);
}

} // verus!
