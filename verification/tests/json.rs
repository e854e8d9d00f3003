use sidecar_protocol::json::{Json, JsonNumber};

fn parsed(text: &str) -> Json {
    match Json::parse(text) {
        Ok(j) => j,
        Err(e) => panic!("{} does not read: {}", text, e),
    }
}

#[test]
fn reads_scalars() {
    assert!(matches!(parsed("null"), Json::Null));
    assert!(matches!(parsed("true"), Json::Bool(true)));
    assert!(matches!(parsed("false"), Json::Bool(false)));
    assert!(matches!(parsed("\"a\\nb\""), Json::Text(s) if s == "a\nb"));
}

#[test]
fn reads_numbers_as_they_are_written() {
    assert!(matches!(parsed("0"), Json::Number(JsonNumber::Unsigned(0))));
    assert!(matches!(parsed("18446744073709551615"), Json::Number(JsonNumber::Unsigned(u64::MAX))));
    assert!(matches!(parsed("-1"), Json::Number(JsonNumber::Negative(-1))));
    assert!(matches!(
        parsed("-9223372036854775808"),
        Json::Number(JsonNumber::Negative(i64::MIN))
    ));
    assert!(matches!(parsed("1.5"), Json::Number(JsonNumber::Real(bits)) if bits == 1.5f64.to_bits()));
    assert!(matches!(parsed("2e0"), Json::Number(JsonNumber::Real(bits)) if bits == 2.0f64.to_bits()));
    assert!(matches!(
        parsed("-0.25"),
        Json::Number(JsonNumber::Real(bits)) if bits == (-0.25f64).to_bits()
    ));
}

#[test]
fn reads_arrays_in_order() {
    match parsed("[1, \"two\", [3]]") {
        Json::Array(items) => {
            assert_eq!(items.len(), 3);
            assert!(matches!(items[0], Json::Number(JsonNumber::Unsigned(1))));
            assert!(matches!(&items[1], Json::Text(s) if s == "two"));
            assert!(matches!(&items[2], Json::Array(inner) if inner.len() == 1));
        }
        other => panic!("not an array: {:?}", other),
    }
}

#[test]
fn reads_a_flat_object() {
    match parsed("{\"b\": 1, \"a\": \"x\"}") {
        Json::Object(members) => {
            assert_eq!(members.len(), 2);
            assert!(members.iter().any(|(k, v)| k == "a" && matches!(v, Json::Text(s) if s == "x")));
            assert!(members
                .iter()
                .any(|(k, v)| k == "b" && matches!(v, Json::Number(JsonNumber::Unsigned(1)))));
        }
        other => panic!("not an object: {:?}", other),
    }
}

#[test]
fn rejects_what_is_no_document() {
    assert!(Json::parse("").is_err());
    assert!(Json::parse("{").is_err());
    assert!(Json::parse("{} trailing").is_err());
    assert!(Json::parse("{\"a\": }").is_err());
    assert!(Json::parse("plain text").is_err());
    assert!(Json::parse("{}\n{}").is_err());
}

#[test]
fn reports_the_readers_message() {
    let message = Json::parse("{\"a\": ").unwrap_err();
    assert_eq!(message, "EOF while parsing a value at line 1 column 6");
    let message = Json::parse("").unwrap_err();
    assert_eq!(message, "EOF while parsing a value at line 1 column 0");
}

#[test]
fn accepts_surrounding_white_space() {
    assert!(matches!(parsed("  {\"a\": 1}\n"), Json::Object(m) if m.len() == 1));
}

#[test]
fn member_finds_by_name() {
    let doc = parsed("{\"stage\": \"load\", \"current\": 3}");
    assert!(matches!(doc.member("stage"), Some(Json::Text(s)) if s == "load"));
    assert!(matches!(doc.member("current"), Some(Json::Number(JsonNumber::Unsigned(3)))));
    assert!(doc.member("total").is_none());
    assert!(doc.member("").is_none());
    assert!(parsed("[1]").member("stage").is_none());
    assert!(parsed("\"stage\"").member("stage").is_none());
}

#[test]
fn member_takes_the_first_of_equal_names() {
    let doc = Json::Object(vec![
        ("k".to_string(), Json::Bool(true)),
        ("k".to_string(), Json::Bool(false)),
    ]);
    assert!(matches!(doc.member("k"), Some(Json::Bool(true))));
}

#[test]
fn typed_access() {
    assert_eq!(Json::Text("t".to_string()).as_text(), Some(&"t".to_string()));
    assert_eq!(Json::Null.as_text(), None);
    assert!(matches!(Json::Array(vec![Json::Null]).as_array(), Some(items) if items.len() == 1));
    assert!(Json::Object(vec![]).is_object());
    assert!(!Json::Array(vec![]).is_object());
    assert!(!Json::Null.is_object());
    assert!(Json::Null.as_array().is_none());
}

#[test]
fn integers_of_32_bits() {
    assert_eq!(Json::Number(JsonNumber::Unsigned(0)).as_i32(), Some(0));
    assert_eq!(Json::Number(JsonNumber::Unsigned(2147483647)).as_i32(), Some(i32::MAX));
    assert_eq!(Json::Number(JsonNumber::Unsigned(2147483648)).as_i32(), None);
    assert_eq!(Json::Number(JsonNumber::Negative(-2147483648)).as_i32(), Some(i32::MIN));
    assert_eq!(Json::Number(JsonNumber::Negative(-2147483649)).as_i32(), None);
    assert_eq!(Json::Number(JsonNumber::Negative(5)).as_i32(), Some(5));
    assert_eq!(Json::Number(JsonNumber::Real(1.0f64.to_bits())).as_i32(), None);
    assert_eq!(Json::Text("1".to_string()).as_i32(), None);
    assert_eq!(parsed("1.0").as_i32(), None);
    assert_eq!(parsed("12").as_i32(), Some(12));
}

#[test]
fn members_by_type() {
    let doc = parsed("{\"name\": \"n\", \"count\": 2, \"list\": [1, 2]}");
    assert_eq!(doc.text_member("name"), Some("n".to_string()));
    assert_eq!(doc.text_member("count"), None);
    assert_eq!(doc.text_member("absent"), None);
    assert_eq!(doc.int32_member("count"), Some(2));
    assert_eq!(doc.int32_member("name"), None);
    assert!(matches!(doc.items_member("list"), Some(items) if items.len() == 2));
    assert!(doc.items_member("name").is_none());
}
