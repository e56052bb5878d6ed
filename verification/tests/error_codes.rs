use jsonrpc_msg::ErrorCode;

fn all_codes() -> Vec<(ErrorCode, i32, &'static str)> {
    vec![
        (ErrorCode::ParseError, -32700, "Parse error"),
        (ErrorCode::InvalidRequest, -32600, "Invalid request"),
        (ErrorCode::MethodNotFound, -32601, "Method not found"),
        (ErrorCode::InvalidParams, -32602, "Invalid params"),
        (ErrorCode::InternalError, -32603, "Internal error"),
        (ErrorCode::UnknownError, -32999, "Unknown error"),
    ]
}

#[test]
fn new_and_default_are_parse_error() {
    assert_eq!(ErrorCode::new(), ErrorCode::ParseError);
    assert_eq!(ErrorCode::default(), ErrorCode::ParseError);
}

#[test]
fn code_to_integer() {
    for (code, wire, _) in all_codes() {
        assert_eq!(i32::from(code), wire);
        assert_eq!(i32::from(&code), wire);
    }
}

#[test]
fn code_to_name() {
    for (code, _, name) in all_codes() {
        assert_eq!(<&'static str>::from(code), name);
        assert_eq!(<&'static str>::from(&code), name);
    }
}

#[test]
fn defined_integers_round_trip() {
    for wire in [-32700, -32600, -32601, -32602, -32603] {
        assert_eq!(i32::from(ErrorCode::from(wire)), wire);
    }
}

#[test]
fn other_integers_collapse_to_unknown() {
    for wire in [0, 1, -1, -32000, -32604, -32599, -32701, -32699, i32::MIN, i32::MAX, -32999] {
        assert_eq!(ErrorCode::from(wire), ErrorCode::UnknownError);
        assert_eq!(i32::from(ErrorCode::from(wire)), -32999);
    }
}

#[test]
fn codes_round_trip_through_integers() {
    for (code, _, _) in all_codes() {
        assert_eq!(ErrorCode::from(i32::from(code)), code);
    }
}

#[test]
fn numeric_text_matches_integer() {
    for text in ["-32700", "-32600", "-32601", "-32602", "-32603", "-32999", "0", "17", "+5", "-032700"] {
        let wire: i32 = text.parse().unwrap();
        assert_eq!(ErrorCode::from(text), ErrorCode::from(wire));
    }
    assert_eq!(ErrorCode::from("-32700"), ErrorCode::ParseError);
    assert_eq!(ErrorCode::from("-32602"), ErrorCode::InvalidParams);
    assert_eq!(ErrorCode::from("12"), ErrorCode::UnknownError);
}

#[test]
fn name_text_matches_code_in_any_case() {
    for (code, wire, name) in all_codes() {
        assert_eq!(ErrorCode::from(name), code);
        assert_eq!(ErrorCode::from(name.to_uppercase().as_str()), code);
        assert_eq!(ErrorCode::from(name.to_lowercase().as_str()), code);
        assert_eq!(ErrorCode::from(name), ErrorCode::from(wire));
    }
    assert_eq!(ErrorCode::from("pArSe ErRoR"), ErrorCode::ParseError);
    assert_eq!(ErrorCode::from("METHOD NOT FOUND"), ErrorCode::MethodNotFound);
}

#[test]
fn other_text_is_unknown() {
    for text in ["", "parse", "parse error ", " parse error", "parse_error", "ParseError", "99999999999", "1.5", "ınternal error"] {
        assert_eq!(ErrorCode::from(text), ErrorCode::UnknownError, "{:?}", text);
    }
}

#[test]
fn from_text_agrees_with_the_plain_reading() {
    let texts = [
        "Parse error", "INVALID REQUEST", "method Not found", "Invalid Params", "internal error",
        "unknown error", "-32700", "-32603", "x", "", "İnvalid params", "INTERNAL ERROR\u{0}", "2147483648",
    ];
    for text in texts {
        let expected = if let Ok(n) = text.parse::<i32>() {
            ErrorCode::from(n)
        } else {
            match text.to_lowercase().as_str() {
                "parse error" => ErrorCode::ParseError,
                "invalid request" => ErrorCode::InvalidRequest,
                "method not found" => ErrorCode::MethodNotFound,
                "invalid params" => ErrorCode::InvalidParams,
                "internal error" => ErrorCode::InternalError,
                _ => ErrorCode::UnknownError,
            }
        };
        assert_eq!(ErrorCode::from(text), expected, "{:?}", text);
    }
}

#[test]
fn code_is_shown_with_name_and_integer() {
    assert_eq!(ErrorCode::ParseError.to_string(), "Parse error (-32700)");
    assert_eq!(ErrorCode::InvalidRequest.to_string(), "Invalid request (-32600)");
    assert_eq!(ErrorCode::MethodNotFound.to_string(), "Method not found (-32601)");
    assert_eq!(ErrorCode::InvalidParams.to_string(), "Invalid params (-32602)");
    assert_eq!(ErrorCode::InternalError.to_string(), "Internal error (-32603)");
    assert_eq!(ErrorCode::UnknownError.to_string(), "Unknown error (-32999)");
}
