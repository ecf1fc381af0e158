use schema_registry_converter::schema_registry::{parse_json, Json};

#[test]
fn parse_reads_members() {
    let json = parse_json("{\"id\": 7, \"schema\": \"text\", \"list\": [1, \"two\", null, true]}")
        .unwrap();
    assert_eq!(json.member("id").unwrap().as_u64(), Some(7));
    assert_eq!(json.member("id").unwrap().as_i64(), Some(7));
    assert_eq!(json.member("schema").unwrap().as_str(), Some("text"));
    assert!(json.member("missing").is_none());
    let list = json.member("list").unwrap().as_array().unwrap();
    assert_eq!(list.len(), 4);
    assert_eq!(list[0].as_u64(), Some(1));
    assert_eq!(list[1].as_str(), Some("two"));
    assert!(matches!(list[2], Json::Null));
    assert!(matches!(list[3], Json::Bool(true)));
}

#[test]
fn parse_reads_nested_documents() {
    let json = parse_json("{\"a\": {\"b\": [{\"c\": \"deep\"}]}}").unwrap();
    let b = json.member("a").unwrap().member("b").unwrap().as_array().unwrap();
    assert_eq!(b[0].member("c").unwrap().as_str(), Some("deep"));
}

#[test]
fn numbers_are_integers_as_far_as_they_fit() {
    let json = parse_json("[-1, 18446744073709551615, 9223372036854775807, 1.5, 0]").unwrap();
    let items = json.as_array().unwrap();
    assert_eq!(items[0].as_u64(), None);
    assert_eq!(items[0].as_i64(), Some(-1));
    assert_eq!(items[1].as_u64(), Some(u64::MAX));
    assert_eq!(items[1].as_i64(), None);
    assert_eq!(items[2].as_u64(), Some(i64::MAX as u64));
    assert_eq!(items[2].as_i64(), Some(i64::MAX));
    assert_eq!(items[3].as_u64(), None);
    assert_eq!(items[3].as_i64(), None);
    assert_eq!(items[4].as_u64(), Some(0));
    assert_eq!(items[4].as_i64(), Some(0));
}

#[test]
fn what_is_no_object_has_no_members() {
    assert!(parse_json("[1]").unwrap().member("0").is_none());
    assert!(parse_json("\"id\"").unwrap().member("id").is_none());
    assert!(parse_json("null").unwrap().member("id").is_none());
}

#[test]
fn lookups_of_the_wrong_kind_give_nothing() {
    let json = parse_json("{\"n\": 1, \"s\": \"x\", \"a\": []}").unwrap();
    assert_eq!(json.member("n").unwrap().as_str(), None);
    assert!(json.member("n").unwrap().as_array().is_none());
    assert_eq!(json.member("s").unwrap().as_u64(), None);
    assert_eq!(json.member("s").unwrap().as_i64(), None);
    assert_eq!(json.member("a").unwrap().as_str(), None);
    assert_eq!(json.as_str(), None);
}

#[test]
fn the_first_member_with_a_key_is_found() {
    let json = Json::Object(vec![
        ("k".to_string(), Json::Text("first".to_string())),
        ("k".to_string(), Json::Text("second".to_string())),
    ]);
    assert_eq!(json.member("k").unwrap().as_str(), Some("first"));
}

#[test]
fn text_that_is_no_json_is_refused() {
    assert!(parse_json("").is_err());
    assert!(parse_json("{\"id\": 7").is_err());
    assert!(parse_json("{} {}").is_err());
    assert!(!parse_json("nope").unwrap_err().is_empty());
}
