//! Tests of the JSON tree: parsing, lookup, and serialization.

use hetzner::json::{obj_lookup, parse_json, str_eq, string_concat, take_field, to_json_text, u64_to_string, Json};

#[test]
fn parse_scalars() {
    assert!(matches!(parse_json("null"), Some(Json::Null)));
    assert!(matches!(parse_json("true"), Some(Json::Bool(true))));
    assert!(matches!(parse_json("false"), Some(Json::Bool(false))));
    assert!(matches!(parse_json("42"), Some(Json::UInt(42))));
    assert!(matches!(parse_json("0"), Some(Json::UInt(0))));
    match parse_json("\"hello\"") {
        Some(Json::Str(s)) => assert_eq!(s, "hello"),
        other => panic!("expected a string, got {:?}", other),
    }
}

#[test]
fn parse_odd_numbers_are_kept_opaque() {
    // A fractional or negative number is not one the API's read fields use;
    // it parses, but as an opaque number.
    assert!(matches!(parse_json("-3"), Some(Json::OtherNum)));
    assert!(matches!(parse_json("2.5"), Some(Json::OtherNum)));
}

#[test]
fn parse_rejects_non_json() {
    assert!(parse_json("").is_none());
    assert!(parse_json("{not json").is_none());
    assert!(parse_json("\"unterminated").is_none());
}

#[test]
fn parse_array_keeps_order() {
    match parse_json("[1,\"x\",null,true]") {
        Some(Json::Arr(vs)) => {
            assert_eq!(vs.len(), 4);
            assert!(matches!(vs[0], Json::UInt(1)));
            assert!(matches!(&vs[1], Json::Str(s) if s == "x"));
            assert!(matches!(vs[2], Json::Null));
            assert!(matches!(vs[3], Json::Bool(true)));
        }
        other => panic!("expected an array, got {:?}", other),
    }
}

#[test]
fn parse_object_and_lookup() {
    let j = parse_json("{\"a\":1,\"b\":\"two\"}").unwrap();
    match &j {
        Json::Obj(ms) => {
            assert!(matches!(obj_lookup(ms, "a"), Some(Json::UInt(1))));
            assert!(matches!(obj_lookup(ms, "b"), Some(Json::Str(s)) if s == "two"));
            assert!(obj_lookup(ms, "c").is_none());
        }
        other => panic!("expected an object, got {:?}", other),
    }
}

#[test]
fn lookup_first_binding_wins() {
    let ms = vec![
        ("k".to_string(), Json::UInt(1)),
        ("k".to_string(), Json::UInt(2)),
    ];
    assert!(matches!(obj_lookup(&ms, "k"), Some(Json::UInt(1))));
}

#[test]
fn take_field_takes_by_value() {
    let j = parse_json("{\"record\":{\"id\":\"r1\"}}").unwrap();
    let inner = take_field(j, "record").unwrap();
    assert_eq!(to_json_text(&inner), "{\"id\":\"r1\"}");
    let j2 = parse_json("{\"record\":1}").unwrap();
    assert!(take_field(j2, "absent").is_none());
    assert!(take_field(Json::Null, "record").is_none());
}

#[test]
fn serialize_round_trips_through_text() {
    let text = "{\"a\":[1,\"x\",null,true],\"b\":{\"c\":0}}";
    let j = parse_json(text).unwrap();
    assert_eq!(to_json_text(&j), text);
}

#[test]
fn serialize_escapes_string_contents() {
    let j = Json::Str("a\"b\\c\nd\re\tf\u{1}g".to_string());
    assert_eq!(to_json_text(&j), "\"a\\\"b\\\\c\\nd\\re\\tf\\u0001g\"");
}

#[test]
fn serialize_numbers_and_atoms() {
    assert_eq!(to_json_text(&Json::UInt(0)), "0");
    assert_eq!(to_json_text(&Json::UInt(18446744073709551615)), "18446744073709551615");
    assert_eq!(to_json_text(&Json::Null), "null");
    assert_eq!(to_json_text(&Json::Bool(false)), "false");
    assert_eq!(to_json_text(&Json::Arr(Vec::new())), "[]");
    assert_eq!(to_json_text(&Json::Obj(Vec::new())), "{}");
}

#[test]
fn u64_text_is_plain_decimal() {
    assert_eq!(u64_to_string(0), "0");
    assert_eq!(u64_to_string(3600), "3600");
    assert_eq!(u64_to_string(10), "10");
}

#[test]
fn string_helpers() {
    assert_eq!(string_concat("ab", "cd"), "abcd");
    assert_eq!(string_concat("", "x"), "x");
    assert!(str_eq("same", "same"));
    assert!(!str_eq("same", "other"));
}

#[test]
fn parse_unicode_survives_serialization() {
    let j = parse_json("{\"name\":\"\u{00e9}t\u{00e9}\"}").unwrap();
    assert_eq!(to_json_text(&j), "{\"name\":\"\u{00e9}t\u{00e9}\"}");
}
