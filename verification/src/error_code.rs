//! The error codes of JSON-RPC 2.0, and their mapping to integers and names.

use crate::text::{
    chars_i32, chars_of, i64_text, int_text, is_digit, lowered, spells, text_i32,
};
use vstd::prelude::*;
use vstd::std_specs::convert::FromSpecImpl;
use vstd::string::StringExecFns;

verus! {

/// Error codes defined by JSON-RPC 2.0, and one that stands for every code
/// outside them.
#[non_exhaustive]
#[derive(Clone, Copy, Debug, PartialEq, Eq, Structural)]
pub enum ErrorCode {
    /// A parsing error occurred.
    ParseError,
    /// An invalid request was made.
    InvalidRequest,
    /// Method is not supported by the server.
    MethodNotFound,
    /// Invalid request parameters.
    InvalidParams,
    /// Internal server error occurred.
    InternalError,
    /// Unknown error occurred.
    UnknownError,
}

impl ErrorCode {
    /// The integer that stands for the code on the wire.
    pub open spec fn wire(self) -> i32 {
        match self {
            ErrorCode::ParseError => -32700i32,
            ErrorCode::InvalidRequest => -32600i32,
            ErrorCode::MethodNotFound => -32601i32,
            ErrorCode::InvalidParams => -32602i32,
            ErrorCode::InternalError => -32603i32,
            ErrorCode::UnknownError => -32999i32,
        }
    }

    /// Whether an integer is one of the five that JSON-RPC 2.0 defines.
    pub open spec fn is_defined(val: i32) -> bool {
        val == -32700 || val == -32600 || val == -32601 || val == -32602 || val == -32603
    }

    /// The code that an integer stands for: its own where it is one of the five
    /// defined ones, `UnknownError` for every other integer.
    pub open spec fn of_wire(val: i32) -> ErrorCode {
        if val == -32700 {
            ErrorCode::ParseError
        } else if val == -32600 {
            ErrorCode::InvalidRequest
        } else if val == -32601 {
            ErrorCode::MethodNotFound
        } else if val == -32602 {
            ErrorCode::InvalidParams
        } else if val == -32603 {
            ErrorCode::InternalError
        } else {
            ErrorCode::UnknownError
        }
    }

    /// The name of the code.
    pub open spec fn name(self) -> Seq<char> {
        match self {
            ErrorCode::ParseError => "Parse error"@,
            ErrorCode::InvalidRequest => "Invalid request"@,
            ErrorCode::MethodNotFound => "Method not found"@,
            ErrorCode::InvalidParams => "Invalid params"@,
            ErrorCode::InternalError => "Internal error"@,
            ErrorCode::UnknownError => "Unknown error"@,
        }
    }

    /// Whether a text is the name of the code, the case of the letters `A` to
    /// `Z` set aside.
    pub open spec fn is_named(self, text: Seq<char>) -> bool {
        lowered(text) == lowered(self.name())
    }

    /// The code that a text stands for. A text that spells a 32-bit integer
    /// stands for what that integer stands for. Any other text stands for the
    /// code it names, and for `UnknownError` if it names none.
    pub open spec fn of_text(text: Seq<char>) -> ErrorCode {
        match text_i32(text) {
            Some(val) => ErrorCode::of_wire(val),
            None => if ErrorCode::ParseError.is_named(text) {
                ErrorCode::ParseError
            } else if ErrorCode::InvalidRequest.is_named(text) {
                ErrorCode::InvalidRequest
            } else if ErrorCode::MethodNotFound.is_named(text) {
                ErrorCode::MethodNotFound
            } else if ErrorCode::InvalidParams.is_named(text) {
                ErrorCode::InvalidParams
            } else if ErrorCode::InternalError.is_named(text) {
                ErrorCode::InternalError
            } else {
                ErrorCode::UnknownError
            },
        }
    }

    /// How the code is shown: its name, and its integer in brackets.
    pub open spec fn shown(self) -> Seq<char> {
        self.name() + " ("@ + int_text(self.wire() as int) + ")"@
    }

    /// Creates a new [ErrorCode]: `ParseError`.
    pub fn new() -> (code: ErrorCode)
        ensures
            code == ErrorCode::ParseError,
    {
        ErrorCode::ParseError
    }

    /// Shows the code as `<Name> (<integer>)`.
    pub fn to_string(&self) -> (s: String)
        ensures
            s@ == self.shown(),
    {
        let name: &'static str = <&'static str>::from(*self);
        let mut s = name.to_owned();
        s.append(" (");
        s.append(i64_text(i32::from(*self) as i64).as_str());
        s.append(")");
        s
    }
}

impl Default for ErrorCode {
    fn default() -> (code: ErrorCode)
        ensures
            code == ErrorCode::ParseError,
    {
        ErrorCode::ParseError
    }
}

impl From<ErrorCode> for i32 {
    fn from(err: ErrorCode) -> (val: i32) {
        match err {
            ErrorCode::ParseError => -32700,
            ErrorCode::InvalidRequest => -32600,
            ErrorCode::MethodNotFound => -32601,
            ErrorCode::InvalidParams => -32602,
            ErrorCode::InternalError => -32603,
            ErrorCode::UnknownError => -32999,
        }
    }
}

impl FromSpecImpl<ErrorCode> for i32 {
    open spec fn obeys_from_spec() -> bool {
        true
    }

    open spec fn from_spec(err: ErrorCode) -> i32 {
        err.wire()
    }
}

impl From<&ErrorCode> for i32 {
    fn from(err: &ErrorCode) -> (val: i32) {
        i32::from(*err)
    }
}

impl FromSpecImpl<&ErrorCode> for i32 {
    open spec fn obeys_from_spec() -> bool {
        true
    }

    open spec fn from_spec(err: &ErrorCode) -> i32 {
        err.wire()
    }
}

impl From<ErrorCode> for &'static str {
    fn from(err: ErrorCode) -> (name: &'static str)
        ensures
            name@ == err.name(),
    {
        match err {
            ErrorCode::ParseError => "Parse error",
            ErrorCode::InvalidRequest => "Invalid request",
            ErrorCode::MethodNotFound => "Method not found",
            ErrorCode::InvalidParams => "Invalid params",
            ErrorCode::InternalError => "Internal error",
            ErrorCode::UnknownError => "Unknown error",
        }
    }
}

impl FromSpecImpl<ErrorCode> for &'static str {
    open spec fn obeys_from_spec() -> bool {
        true
    }

    open spec fn from_spec(err: ErrorCode) -> &'static str {
        match err {
            ErrorCode::ParseError => "Parse error",
            ErrorCode::InvalidRequest => "Invalid request",
            ErrorCode::MethodNotFound => "Method not found",
            ErrorCode::InvalidParams => "Invalid params",
            ErrorCode::InternalError => "Internal error",
            ErrorCode::UnknownError => "Unknown error",
        }
    }
}

impl From<&ErrorCode> for &'static str {
    fn from(err: &ErrorCode) -> (name: &'static str)
        ensures
            name@ == err.name(),
    {
        <&'static str>::from(*err)
    }
}

impl FromSpecImpl<&ErrorCode> for &'static str {
    open spec fn obeys_from_spec() -> bool {
        true
    }

    open spec fn from_spec(err: &ErrorCode) -> &'static str {
        <&'static str as vstd::std_specs::convert::FromSpec<ErrorCode>>::from_spec(*err)
    }
}

impl From<i32> for ErrorCode {
    fn from(val: i32) -> (code: ErrorCode) {
        if val == -32700 {
            ErrorCode::ParseError
        } else if val == -32600 {
            ErrorCode::InvalidRequest
        } else if val == -32601 {
            ErrorCode::MethodNotFound
        } else if val == -32602 {
            ErrorCode::InvalidParams
        } else if val == -32603 {
            ErrorCode::InternalError
        } else {
            ErrorCode::UnknownError
        }
    }
}

impl FromSpecImpl<i32> for ErrorCode {
    open spec fn obeys_from_spec() -> bool {
        true
    }

    open spec fn from_spec(val: i32) -> ErrorCode {
        ErrorCode::of_wire(val)
    }
}

impl From<&str> for ErrorCode {
    fn from(val: &str) -> (code: ErrorCode)
        ensures
            code == ErrorCode::of_text(val@),
    {
        let chars = chars_of(val);
        proof {
            lemma_lowered_names();
        }
        match chars_i32(&chars) {
            Some(n) => ErrorCode::from(n),
            None => {
                if spells(&chars, "parse error") {
                    ErrorCode::ParseError
                } else if spells(&chars, "invalid request") {
                    ErrorCode::InvalidRequest
                } else if spells(&chars, "method not found") {
                    ErrorCode::MethodNotFound
                } else if spells(&chars, "invalid params") {
                    ErrorCode::InvalidParams
                } else if spells(&chars, "internal error") {
                    ErrorCode::InternalError
                } else {
                    ErrorCode::UnknownError
                }
            },
        }
    }
}

impl FromSpecImpl<&str> for ErrorCode {
    open spec fn obeys_from_spec() -> bool {
        true
    }

    open spec fn from_spec(val: &str) -> ErrorCode {
        ErrorCode::of_text(val@)
    }
}

/// The names of the five defined codes, made lower-case.
proof fn lemma_lowered_names()
    ensures
        lowered(ErrorCode::ParseError.name()) == "parse error"@,
        lowered(ErrorCode::InvalidRequest.name()) == "invalid request"@,
        lowered(ErrorCode::MethodNotFound.name()) == "method not found"@,
        lowered(ErrorCode::InvalidParams.name()) == "invalid params"@,
        lowered(ErrorCode::InternalError.name()) == "internal error"@,
{
    reveal_strlit("Parse error");
    reveal_strlit("parse error");
    reveal_strlit("Invalid request");
    reveal_strlit("invalid request");
    reveal_strlit("Method not found");
    reveal_strlit("method not found");
    reveal_strlit("Invalid params");
    reveal_strlit("invalid params");
    reveal_strlit("Internal error");
    reveal_strlit("internal error");
    assert(lowered("Parse error"@) =~= "parse error"@);
    assert(lowered("Invalid request"@) =~= "invalid request"@);
    assert(lowered("Method not found"@) =~= "method not found"@);
    assert(lowered("Invalid params"@) =~= "invalid params"@);
    assert(lowered("Internal error"@) =~= "internal error"@);
}

/// An integer that JSON-RPC 2.0 defines comes back unchanged from the code it
/// stands for.
pub proof fn law_defined_integer_round_trip(val: i32)
    requires
        ErrorCode::is_defined(val),
    ensures
        ErrorCode::of_wire(val).wire() == val,
{
}

/// Every integer that JSON-RPC 2.0 does not define stands for `UnknownError`,
/// and comes back as -32999: the integer itself is lost, unless it was -32999.
pub proof fn law_other_integer_collapses(val: i32)
    requires
        !ErrorCode::is_defined(val),
    ensures
        ErrorCode::of_wire(val) == ErrorCode::UnknownError,
        ErrorCode::of_wire(val).wire() == -32999,
        val != -32999 ==> ErrorCode::of_wire(val).wire() != val,
{
}

/// Every code comes back unchanged from the integer that stands for it.
pub proof fn law_code_round_trip(code: ErrorCode)
    ensures
        ErrorCode::of_wire(code.wire()) == code,
{
}

/// A text that spells a 32-bit integer stands for the code that the integer
/// stands for.
pub proof fn law_numeric_text(text: Seq<char>, val: i32)
    requires
        text_i32(text) == Some(val),
    ensures
        ErrorCode::of_text(text) == ErrorCode::of_wire(val),
{
}

/// A text that is the name of a code, in whatever case, stands for that code,
/// which is also the code that the code's integer stands for.
pub proof fn law_named_text(text: Seq<char>, code: ErrorCode)
    requires
        code.is_named(text),
    ensures
        ErrorCode::of_text(text) == code,
        ErrorCode::of_text(text) == ErrorCode::of_wire(code.wire()),
{
    lemma_lowered_names();
    reveal_strlit("Unknown error");
    reveal_strlit("parse error");
    reveal_strlit("invalid request");
    reveal_strlit("method not found");
    reveal_strlit("invalid params");
    reveal_strlit("internal error");
    let low = lowered(text);
    let named = lowered(code.name());
    assert(named.len() > 3);
    assert(low.len() == text.len());
    assert(low[0] == named[0]);
    assert(low[2] == named[2]);
    assert(!is_digit(text[0]) && text[0] != '+' && text[0] != '-');
    assert(text_i32(text) is None);
}

} // verus!
