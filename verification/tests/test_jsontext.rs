//! Tests for the JSON wire grammar: reading and writing values.

use code_agent_sdk::jsontext::{json_to_string, parse_json};
use code_agent_sdk::{Error, Json, JsonNum};

#[test]
fn test_write_compact_json() {
    let v = parse_json(r#" { "a" : [ 1 , -2 , true , null ] , "b" : "x" } "#).unwrap();
    assert_eq!(json_to_string(&v), r#"{"a":[1,-2,true,null],"b":"x"}"#);
}

#[test]
fn test_write_escapes() {
    let v = Json::Str("a\"b\\c\nd\te\u{1}".to_string());
    assert_eq!(json_to_string(&v), "\"a\\\"b\\\\c\\nd\\te\\u0001\"");
}

#[test]
fn test_read_escapes_and_unicode() {
    let v = parse_json(r#""A\n\t\\\" é 😀""#).unwrap();
    match v {
        Json::Str(s) => assert_eq!(s, "A\n\t\\\" \u{e9} \u{1F600}"),
        _ => panic!("expected a string value"),
    }
    // Escaped scalar values and a surrogate pair decode to the exact
    // characters they name.
    let v = parse_json(r#""\u0041\u00e9\ud83d\ude00""#).unwrap();
    match v {
        Json::Str(s) => assert_eq!(s, "A\u{e9}\u{1F600}"),
        _ => panic!("expected a string value"),
    }
}

#[test]
fn test_read_numbers() {
    let v = parse_json(r#"[0, 42, -7, 3.5, 1e3, 9223372036854775807, -9223372036854775808]"#)
        .unwrap();
    let items = v.as_array().unwrap();
    assert!(matches!(items[0], Json::Num(JsonNum::Int(0))));
    assert!(matches!(items[1], Json::Num(JsonNum::Int(42))));
    assert!(matches!(items[2], Json::Num(JsonNum::Int(-7))));
    assert!(matches!(&items[3], Json::Num(JsonNum::Dec(s)) if s == "3.5"));
    assert!(matches!(&items[4], Json::Num(JsonNum::Dec(s)) if s == "1e3"));
    assert!(matches!(items[5], Json::Num(JsonNum::Int(i64::MAX))));
    assert!(matches!(items[6], Json::Num(JsonNum::Int(i64::MIN))));
}

#[test]
fn test_read_rejects_bad_input() {
    assert!(matches!(parse_json("{invalid json}"), Err(Error::JsonDecode(_))));
    assert!(matches!(parse_json(""), Err(Error::JsonDecode(_))));
    assert!(matches!(parse_json("[1, 2"), Err(Error::JsonDecode(_))));
    assert!(matches!(parse_json(r#"{"a": 1} trailing"#), Err(Error::JsonDecode(_))));
    assert!(matches!(parse_json(r#""unterminated"#), Err(Error::JsonDecode(_))));
}

#[test]
fn test_round_trip_preserves_value() {
    let text = r#"{"kind":"demo","items":[{"id":"a","n":3},{"id":"b","n":-1}],"note":"line\nbreak"}"#;
    let v = parse_json(text).unwrap();
    let written = json_to_string(&v);
    assert_eq!(written, text);
    let again = parse_json(&written).unwrap();
    assert_eq!(json_to_string(&again), text);
}

#[test]
fn test_object_field_order_is_kept() {
    let v = parse_json(r#"{"z":1,"a":2}"#).unwrap();
    assert_eq!(json_to_string(&v), r#"{"z":1,"a":2}"#);
    assert_eq!(v.get_u64("z"), Some(1));
    assert_eq!(v.get_u64("a"), Some(2));
}
