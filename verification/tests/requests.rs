use jsonrpc_msg::error::decoded;
use jsonrpc_msg::{ErrorCode, Request};
use serde_json::Value;

#[test]
fn test_request() {
    let exp_request = "{\"jsonrpc\":\"2.0\",\"id\":1,\"method\":\"test_method\",\"params\":null}";
    let exp_params_request =
        "{\"jsonrpc\":\"2.0\",\"id\":1,\"method\":\"test_params\",\"params\":[0,1,2,3]}";

    let request = Request::new().with_id(1).with_method("test_method");

    let params_request = Request::new()
        .with_id(1)
        .with_method("test_params")
        .with_params(serde_json::to_value([0, 1, 2, 3]).unwrap());

    assert_eq!(request.to_json().as_str(), exp_request);
    assert_eq!(params_request.to_json().as_str(), exp_params_request);
}

#[test]
fn new_request_has_version_only() {
    let r = Request::new();
    assert_eq!(r.jsonrpc(), Some("2.0"));
    assert_eq!(r.id(), None);
    assert_eq!(r.method(), None);
    assert!(r.params_is_null());
    assert_eq!(r.to_json(), "{\"jsonrpc\":\"2.0\",\"id\":null,\"method\":null,\"params\":null}");
}

#[test]
fn null_request_has_nothing() {
    let r = Request::new_null();
    assert_eq!(r.jsonrpc(), None);
    assert_eq!(r.id(), None);
    assert_eq!(r.method(), None);
    assert!(r.params_is_null());
    assert_eq!(r.to_json(), "{\"jsonrpc\":null,\"id\":null,\"method\":null,\"params\":null}");
    let d = Request::default();
    assert_eq!(d.to_json(), r.to_json());
}

#[test]
fn request_setters() {
    let mut r = Request::new();
    r.set_id(u64::MAX);
    r.set_method("run");
    r.set_params(Value::from("p"));
    assert_eq!(r.id(), Some(u64::MAX));
    assert_eq!(r.method(), Some("run"));
    assert!(!r.params_is_null());
    assert_eq!(r.params().ok(), Some(&Value::from("p")));
    assert_eq!(r.jsonrpc(), Some("2.0"));
    let c = r.clone();
    assert_eq!(c.to_json(), r.to_json());
}

#[test]
fn request_serializes_and_comes_back() {
    let request = Request::new().with_id(1).with_method("m");
    let text = request.to_json();
    assert_eq!(text, "{\"jsonrpc\":\"2.0\",\"id\":1,\"method\":\"m\",\"params\":null}");
    let back = Request::from_json(text.as_str()).unwrap();
    assert_eq!(back.jsonrpc(), Some("2.0"));
    assert_eq!(back.method(), Some("m"));
    assert_eq!(back.id(), Some(1));
    assert!(back.params_is_null());
    assert_eq!(back.to_json(), text);
}

#[test]
fn request_without_params_gives_invalid_params() {
    let request = Request::new().with_id(1).with_method("m");
    let e = request.params().unwrap_err();
    assert_eq!(e.code(), ErrorCode::InvalidParams);
    assert_eq!(e.message(), "null Params field");
    assert!(e.data().is_null());
}

#[test]
fn request_with_incompatible_params_gives_parse_error() {
    let request = Request::new().with_params(Value::from("not a number"));
    let raw = request.params().unwrap().clone();
    let typed = decoded(serde_json::from_value::<u64>(raw).map_err(|e| e.to_string()));
    let e = typed.unwrap_err();
    assert_eq!(e.code(), ErrorCode::ParseError);
    assert!(e.message().contains("invalid type"));
    assert!(e.data().is_null());
}

#[test]
fn request_with_compatible_params_decodes() {
    let request = Request::new().with_params(serde_json::to_value([0, 1, 2, 3]).unwrap());
    let raw = request.params().unwrap().clone();
    let typed = decoded(serde_json::from_value::<Vec<u8>>(raw).map_err(|e| e.to_string()));
    assert_eq!(typed.ok(), Some(vec![0u8, 1, 2, 3]));
}

#[test]
fn request_id_is_lenient() {
    let text = "{\"jsonrpc\":\"2.0\",\"id\":\"-1\",\"method\":\"m\"}";
    assert_eq!(Request::from_json(text).unwrap().id(), Some(u64::MAX));
    let text = "{\"jsonrpc\":\"2.0\",\"id\":\"12.7\",\"method\":\"m\"}";
    assert_eq!(Request::from_json(text).unwrap().id(), Some(12));
    let text = "{\"jsonrpc\":\"2.0\",\"id\":3.9,\"method\":\"m\"}";
    assert_eq!(Request::from_json(text).unwrap().id(), Some(3));
    let text = "{\"jsonrpc\":\"2.0\",\"id\":-5,\"method\":\"m\"}";
    assert_eq!(Request::from_json(text).unwrap().id(), Some(18446744073709551611));
}

#[test]
fn request_id_that_stands_for_nothing_is_zero() {
    let text = "{\"jsonrpc\":\"2.0\",\"id\":\"abc\",\"method\":\"m\"}";
    assert_eq!(Request::from_json(text).unwrap().id(), Some(0));
    let text = "{\"jsonrpc\":\"2.0\",\"id\":[1],\"method\":\"m\"}";
    assert_eq!(Request::from_json(text).unwrap().id(), Some(0));
    let text = "{\"jsonrpc\":\"2.0\",\"id\":true}";
    assert_eq!(Request::from_json(text).unwrap().id(), Some(0));
}

#[test]
fn request_null_members_are_absent() {
    let text = "{\"jsonrpc\":\"2.0\",\"id\":null,\"method\":null,\"params\":null}";
    let r = Request::from_json(text).unwrap();
    assert_eq!(r.id(), None);
    assert_eq!(r.method(), None);
    assert!(r.params_is_null());
    let r = Request::from_json("{\"jsonrpc\":\"2.0\"}").unwrap();
    assert_eq!(r.id(), None);
    assert_eq!(r.method(), None);
    assert!(r.params_is_null());
}

#[test]
fn request_method_of_wrong_type_is_none() {
    let r = Request::from_json("{\"jsonrpc\":2,\"method\":5,\"params\":{\"a\":1}}").unwrap();
    assert_eq!(r.jsonrpc(), None);
    assert_eq!(r.method(), None);
    assert!(!r.params_is_null());
    assert_eq!(r.to_json(), "{\"jsonrpc\":2,\"id\":null,\"method\":5,\"params\":{\"a\":1}}");
}

#[test]
fn request_from_bad_text_is_parse_error() {
    let e = Request::from_json("{\"jsonrpc\":").unwrap_err();
    assert_eq!(e.code(), ErrorCode::ParseError);
    let expected = serde_json::from_str::<Value>("{\"jsonrpc\":").unwrap_err().to_string();
    assert_eq!(e.message(), expected);
    assert!(e.data().is_null());
}

#[test]
fn request_from_wrong_shape_is_parse_error() {
    let e = Request::from_json("[1,2]").unwrap_err();
    assert_eq!(e.code(), ErrorCode::ParseError);
    assert_eq!(e.message(), "invalid type, expected struct Request");
    let e = Request::from_json("{\"id\":1}").unwrap_err();
    assert_eq!(e.code(), ErrorCode::ParseError);
    assert_eq!(e.message(), "missing field `jsonrpc`");
    let e = Request::from_value(&Value::from(1u64)).unwrap_err();
    assert_eq!(e.message(), "invalid type, expected struct Request");
}

#[test]
fn request_text_escapes_strings() {
    let r = Request::new().with_method("say \"hi\"\n");
    assert_eq!(
        r.to_json(),
        "{\"jsonrpc\":\"2.0\",\"id\":null,\"method\":\"say \\\"hi\\\"\\n\",\"params\":null}"
    );
}
