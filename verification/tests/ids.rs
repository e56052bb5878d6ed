use jsonrpc_msg::id::id_from_text;
use jsonrpc_msg::id_from_value;
use serde_json::Value;

fn cut_down(f: f64) -> u64 {
    let whole = f.trunc();
    if whole < 0.0 && whole >= -9223372036854775808.0 {
        (whole as i64) as u64
    } else {
        f as u64
    }
}

fn plain_reading(val: &Value) -> Option<u64> {
    if val.is_null() {
        None
    } else if val.is_u64() {
        val.as_u64()
    } else if val.is_i64() {
        val.as_i64().map(|id| id as u64)
    } else if val.is_f64() {
        val.as_f64().map(cut_down)
    } else if val.is_string() {
        let id_str = val.as_str().unwrap_or("");
        if id_str.contains("-") {
            id_str.parse::<i64>().ok().map(|id| id as u64)
        } else if id_str.contains(".") {
            id_str.parse::<f64>().ok().map(cut_down)
        } else {
            id_str.parse::<u64>().ok()
        }
    } else {
        None
    }
}

#[test]
fn id_of_null_is_none() {
    assert_eq!(id_from_value(&Value::Null), None);
}

#[test]
fn id_of_unsigned_number() {
    assert_eq!(id_from_value(&Value::from(0u64)), Some(0));
    assert_eq!(id_from_value(&Value::from(1u64)), Some(1));
    assert_eq!(id_from_value(&Value::from(u64::MAX)), Some(u64::MAX));
    assert_eq!(id_from_value(&Value::from(9223372036854775808u64)), Some(9223372036854775808));
}

#[test]
fn id_of_negative_number_is_reinterpreted() {
    assert_eq!(id_from_value(&Value::from(-1i64)), Some(u64::MAX));
    assert_eq!(id_from_value(&Value::from(-2i64)), Some(18446744073709551614));
    assert_eq!(id_from_value(&Value::from(i64::MIN)), Some(9223372036854775808));
}

#[test]
fn id_of_float_number_is_cut_down_and_reinterpreted() {
    assert_eq!(id_from_value(&Value::from(1.5f64)), Some(1));
    assert_eq!(id_from_value(&Value::from(0.25f64)), Some(0));
    assert_eq!(id_from_value(&Value::from(-1.5f64)), Some(u64::MAX));
    assert_eq!(id_from_value(&Value::from(-1.0f64)), Some(u64::MAX));
    assert_eq!(id_from_value(&Value::from(-2.5f64)), Some(18446744073709551614));
    assert_eq!(id_from_value(&Value::from(-0.5f64)), Some(0));
    assert_eq!(id_from_value(&Value::from(-0.0f64)), Some(0));
    assert_eq!(id_from_value(&Value::from(-1e300f64)), Some(0));
    assert_eq!(id_from_value(&Value::from(1e30f64)), Some(u64::MAX));
    assert_eq!(id_from_value(&Value::from(12345.999f64)), Some(12345));
}

#[test]
fn id_of_string() {
    assert_eq!(id_from_value(&Value::from("42")), Some(42));
    assert_eq!(id_from_value(&Value::from("+42")), Some(42));
    assert_eq!(id_from_value(&Value::from("-1")), Some(u64::MAX));
    assert_eq!(id_from_value(&Value::from("-42")), Some(18446744073709551574));
    assert_eq!(id_from_value(&Value::from("1.5")), Some(1));
    assert_eq!(id_from_value(&Value::from("7.")), Some(7));
    assert_eq!(id_from_value(&Value::from(".5")), Some(0));
    assert_eq!(id_from_value(&Value::from("1.5e3")), Some(1500));
    assert_eq!(id_from_value(&Value::from("1.0e999")), Some(u64::MAX));
    assert_eq!(id_from_value(&Value::from("18446744073709551615")), Some(u64::MAX));
}

#[test]
fn id_of_malformed_string_is_none() {
    assert_eq!(id_from_value(&Value::from("")), None);
    assert_eq!(id_from_value(&Value::from("abc")), None);
    assert_eq!(id_from_value(&Value::from("-1.5")), None);
    assert_eq!(id_from_value(&Value::from("1.5e-3")), None);
    assert_eq!(id_from_value(&Value::from("1-2")), None);
    assert_eq!(id_from_value(&Value::from("1.2.3")), None);
    assert_eq!(id_from_value(&Value::from("18446744073709551616")), None);
    assert_eq!(id_from_value(&Value::from("-9223372036854775809")), None);
    assert_eq!(id_from_value(&Value::from(" 1")), None);
}

#[test]
fn id_of_other_kinds_is_none() {
    assert_eq!(id_from_value(&Value::Bool(true)), None);
    assert_eq!(id_from_value(&Value::Bool(false)), None);
    assert_eq!(id_from_value(&Value::Array(vec![Value::from(1u64)])), None);
    assert_eq!(id_from_value(&Value::Array(Vec::new())), None);
    assert_eq!(id_from_value(&Value::Object(serde_json::Map::new())), None);
}

#[test]
fn id_from_value_is_total_over_every_kind() {
    let mut members = serde_json::Map::new();
    members.insert("id".to_string(), Value::from(1u64));
    let values = vec![
        Value::Null,
        Value::Bool(true),
        Value::from(3u64),
        Value::from(-3i64),
        Value::from(3.75f64),
        Value::from("3"),
        Value::from("three"),
        Value::Array(vec![Value::Null]),
        Value::Object(members),
    ];
    let expected =
        vec![None, None, Some(3), Some(18446744073709551613), Some(3), Some(3), None, None, None];
    for (value, want) in values.iter().zip(expected) {
        assert_eq!(id_from_value(value), want);
    }
}

#[test]
fn id_from_value_agrees_with_the_plain_reading() {
    let texts = vec![
        "", "0", "1", "+1", "-1", "-0", "1.0", "1.", ".1", ".", "-", "+", "1e5", "1.e5", "1.5E2",
        "inf", "nan", "NaN", "infinity", "1.0e400", "0.0000001", "123456789012345678901.5",
        "18446744073709551615.0", "18446744073709551615", "9007199254740993.0", "0.99999999999999999999",
        "١٢٣", "1.5 ", "ab.cd", "12-34", "--1", "-9223372036854775808", "+.5", "+1.5", "1_0.5", "0x1.8p1",
    ];
    for text in texts {
        let value = Value::from(text);
        assert_eq!(id_from_value(&value), plain_reading(&value), "{:?}", text);
        assert_eq!(id_from_text(text), plain_reading(&value), "{:?}", text);
    }
    let numbers = vec![
        Value::from(0u64),
        Value::from(u64::MAX),
        Value::from(i64::MIN),
        Value::from(-7i64),
        Value::from(7i64),
        Value::from(0.0f64),
        Value::from(-0.0f64),
        Value::from(2.5f64),
        Value::from(-2.5f64),
        Value::from(-0.25f64),
        Value::from(-9223372036854775808.0f64),
        Value::from(-1e19f64),
        Value::from(1.8446744073709552e19f64),
        Value::from(f64::MAX),
        Value::from(f64::MIN_POSITIVE),
    ];
    for value in numbers {
        assert_eq!(id_from_value(&value), plain_reading(&value), "{}", value);
    }
}

#[test]
fn id_of_parsed_json() {
    let parsed: Value =
        serde_json::from_str("[1, -1, 1.5, \"17\", null, true, -0.0, 1e2, -7.9]").unwrap();
    let items = parsed.as_array().unwrap();
    assert_eq!(id_from_value(&items[0]), Some(1));
    assert_eq!(id_from_value(&items[1]), Some(u64::MAX));
    assert_eq!(id_from_value(&items[2]), Some(1));
    assert_eq!(id_from_value(&items[3]), Some(17));
    assert_eq!(id_from_value(&items[4]), None);
    assert_eq!(id_from_value(&items[5]), None);
    assert_eq!(id_from_value(&items[6]), Some(0));
    assert_eq!(id_from_value(&items[7]), Some(100));
    assert_eq!(id_from_value(&items[8]), Some(18446744073709551609));
}
