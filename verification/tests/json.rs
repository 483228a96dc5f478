use cdesktop::json::Json;

fn object(members: Vec<(&str, Json)>) -> Json {
    Json::Object(members.into_iter().map(|(k, v)| (k.to_string(), v)).collect())
}

fn string(s: &str) -> Json {
    Json::String(s.to_string())
}

#[test]
fn a_text_is_read_as_one_value() {
    let json = Json::parse(r#" {"b":[null,true,"x\n"],"a":{"n":-7}} "#);
    let n = Json::Number { integer: Some(-7), text: "-7".to_string() };
    assert_eq!(
        json,
        Some(object(vec![
            ("a", object(vec![("n", n)])),
            ("b", Json::Array(vec![Json::Null, Json::Bool(true), string("x\n")])),
        ]))
    );
}

#[test]
fn what_is_not_one_value_is_refused() {
    for text in ["", "{", "{} {}", "nul", "{\"a\":}", "'x'"] {
        assert_eq!(Json::parse(text), None, "{text:?}");
    }
}

#[test]
fn numbers_keep_their_text() {
    let number = |text: &str| match Json::parse(text) {
        Some(Json::Number { integer, text }) => (integer, text),
        other => panic!("{other:?}"),
    };
    assert_eq!(number("1788050400"), (Some(1788050400), "1788050400".to_string()));
    assert_eq!(number("9223372036854775807"), (Some(i64::MAX), i64::MAX.to_string()));
    assert_eq!(number("9223372036854775808"), (None, "9223372036854775808".to_string()));
    assert_eq!(number("1.5"), (None, "1.5".to_string()));
    assert_eq!(number("1.0"), (None, "1.0".to_string()));
}

#[test]
fn values_are_taken_over_from_the_crate() {
    let value: serde_json::Value = serde_json::from_str(r#"{"k":[1,false]}"#).unwrap();
    let one = Json::Number { integer: Some(1), text: "1".to_string() };
    assert_eq!(
        Json::from_value(value),
        object(vec![("k", Json::Array(vec![one, Json::Bool(false)]))])
    );
}

#[test]
fn members_are_found_by_name() {
    let json = object(vec![("a", string("first")), ("b", Json::Bool(true)), ("a", string("second"))]);
    assert_eq!(json.get("a"), Some(&string("first")));
    assert_eq!(json.str_member("a"), Some("first"));
    assert_eq!(json.str_member("b"), None);
    assert_eq!(json.get("b").and_then(|b| b.as_bool()), Some(true));
    assert_eq!(json.get("c"), None);
    assert_eq!(Json::Array(vec![json]).get("a"), None);
    assert_eq!(string("a").get("a"), None);
}

#[test]
fn accessors_tell_kinds_apart() {
    let n = Json::Number { integer: Some(3), text: "3".to_string() };
    assert_eq!(n.as_i64(), Some(3));
    assert_eq!(n.as_str(), None);
    assert_eq!(n.as_bool(), None);
    assert_eq!(string("3").as_i64(), None);
    assert_eq!(string("3").as_str(), Some("3"));
    assert_eq!(Json::Null.as_str(), None);
}

#[test]
fn a_copy_holds_the_same() {
    let json = Json::parse(r#"{"a":[1,2.5,{"b":null}],"c":"d"}"#).unwrap();
    assert_eq!(json.clone(), json);
}
