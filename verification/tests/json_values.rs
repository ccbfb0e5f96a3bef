use agent_bridge::json::{string_literal, unsigned_literal, Json, JsonNumber};

#[test]
fn parse_reads_an_object() {
    let j = Json::parse("{\"type\":\"system\",\"n\":3,\"ok\":true,\"list\":[\"a\",1]}").unwrap();
    assert_eq!(j.get("type").unwrap().as_str(), Some("system"));
    assert_eq!(j.get("n").unwrap().as_u64(), Some(3));
    assert_eq!(j.get("ok").unwrap().as_bool(), Some(true));
    assert_eq!(j.get("list").unwrap().as_array().unwrap().len(), 2);
    assert!(j.get("missing").is_none());
}

#[test]
fn parse_builds_the_same_tree() {
    let j = Json::parse("[null, false, \"x\", {\"k\": []}]").unwrap();
    assert_eq!(
        j,
        Json::Array(vec![
            Json::Null,
            Json::Bool(false),
            Json::String("x".to_string()),
            Json::Object(vec![("k".to_string(), Json::Array(vec![]))]),
        ])
    );
}

#[test]
fn parse_rejects_what_is_not_json() {
    assert!(Json::parse("").is_none());
    assert!(Json::parse("{").is_none());
    assert!(Json::parse("not json").is_none());
    assert!(Json::parse("{\"a\":1} trailing").is_none());
}

#[test]
fn numbers_keep_their_three_readings() {
    let j = Json::parse("[150, -3, 0.01, 1e3, 18446744073709551615]").unwrap();
    let items = j.as_array().unwrap();
    assert_eq!(
        items[0],
        Json::Number(JsonNumber {
            text: "150".to_string(),
            unsigned: Some(150),
            float_text: Some("150.0".to_string()),
        })
    );
    assert_eq!(items[1].as_u64(), None);
    assert_eq!(items[1].float_text(), Some("-3.0"));
    assert_eq!(items[1].to_text(), "-3");
    assert_eq!(items[2].as_u64(), None);
    assert_eq!(items[2].float_text(), Some("0.01"));
    assert_eq!(items[3].float_text(), Some("1000.0"));
    assert_eq!(items[3].to_text(), "1000.0");
    assert_eq!(items[4].as_u64(), Some(u64::MAX));
}

#[test]
fn readings_of_other_kinds_are_none() {
    let s = Json::String("5".to_string());
    assert_eq!(s.as_u64(), None);
    assert_eq!(s.as_bool(), None);
    assert_eq!(s.float_text(), None);
    assert!(s.as_array().is_none());
    assert!(s.get("k").is_none());
    assert_eq!(Json::Null.as_str(), None);
    assert!(Json::Array(vec![Json::Null]).get("0").is_none());
}

#[test]
fn get_takes_the_first_member_of_that_name() {
    let j = Json::Object(vec![
        ("a".to_string(), Json::Bool(true)),
        ("b".to_string(), Json::Null),
        ("a".to_string(), Json::Bool(false)),
    ]);
    assert_eq!(j.get("a"), Some(&Json::Bool(true)));
    assert_eq!(j.get("b"), Some(&Json::Null));
    assert_eq!(j.get("c"), None);
    assert_eq!(j.get(""), None);
}

#[test]
fn a_repeated_key_in_text_keeps_its_last_value() {
    let j = Json::parse("{\"a\":1,\"a\":2}").unwrap();
    assert_eq!(j.get("a").unwrap().as_u64(), Some(2));
}

#[test]
fn to_text_is_compact() {
    assert_eq!(Json::Null.to_text(), "null");
    assert_eq!(Json::Bool(true).to_text(), "true");
    assert_eq!(Json::Bool(false).to_text(), "false");
    assert_eq!(Json::Array(vec![]).to_text(), "[]");
    assert_eq!(Json::Object(vec![]).to_text(), "{}");
    assert_eq!(Json::String("a\"b".to_string()).to_text(), "\"a\\\"b\"");
    let j = Json::Object(vec![
        ("k".to_string(), Json::Array(vec![Json::Null, Json::Bool(true)])),
        ("n".to_string(), Json::Object(vec![("x y".to_string(), Json::String("z".to_string()))])),
    ]);
    assert_eq!(j.to_text(), "{\"k\":[null,true],\"n\":{\"x y\":\"z\"}}");
}

#[test]
fn to_text_matches_what_was_parsed() {
    let text = "{\"a\":[1,2,{\"b\":null}],\"c\":\"d\\ne\",\"f\":-0.5}";
    let j = Json::parse(text).unwrap();
    assert_eq!(j.to_text(), text);
    let again: serde_json::Value = serde_json::from_str(&j.to_text()).unwrap();
    let direct: serde_json::Value = serde_json::from_str(text).unwrap();
    assert_eq!(again, direct);
    assert_eq!(j.to_text(), direct.to_string());
}

#[test]
fn clone_gives_an_equal_tree() {
    let j = Json::parse("{\"a\":[1,\"x\",{\"b\":[true]}]}").unwrap();
    let c = j.clone();
    assert_eq!(c, j);
    assert_eq!(c.to_text(), j.to_text());
}

#[test]
fn string_literal_quotes_and_escapes() {
    assert_eq!(string_literal("plain"), "\"plain\"");
    assert_eq!(string_literal(""), "\"\"");
    assert_eq!(string_literal("a\nb"), "\"a\\nb\"");
    assert_eq!(string_literal("\u{1}"), "\"\\u0001\"");
    assert_eq!(string_literal("é"), "\"é\"");
}

#[test]
fn unsigned_literal_is_decimal() {
    assert_eq!(unsigned_literal(0), "0");
    assert_eq!(unsigned_literal(150), "150");
    assert_eq!(unsigned_literal(u64::MAX), "18446744073709551615");
}
