use schema_registry_converter::schema_registry::http::{
    latest_version_address, schema_by_id_address, subject_address, version_address,
    versions_address,
};
use schema_registry_converter::schema_registry::text::decimal_text;
use schema_registry_converter::schema_registry::{to_json, Reply, SRCError, CONTENT_TYPE};

#[test]
fn handling_http_error() {
    let result = to_json(&Reply::Received(0, Vec::new()), "error performing get");
    assert_eq!(
        result.err(),
        Some(SRCError::new(
            "Did not get a 200 response code but 0 instead",
            None,
            false,
        ))
    )
}

#[test]
fn other_status_codes_are_named_in_the_error() {
    for (status, text) in [(404u32, "404"), (500, "500"), (201, "201"), (u32::MAX, "4294967295")]
    {
        let error = to_json(&Reply::Received(status, b"{}".to_vec()), "x").err().unwrap();
        assert_eq!(
            error.error(),
            format!("Did not get a 200 response code but {} instead", text)
        );
        assert!(error.error().contains(text));
        assert!(!error.retriable());
        assert!(!error.cached());
        assert_eq!(error.cause(), None);
    }
}

#[test]
fn a_request_that_failed_may_be_tried_again() {
    let error = to_json(&Reply::Failed("connection refused".to_string()), "error performing get")
        .err()
        .unwrap();
    assert_eq!(
        error,
        SRCError::new("error performing get", Some("connection refused".to_string()), true)
    );
}

#[test]
fn a_response_without_status_may_be_tried_again() {
    let error = to_json(&Reply::NoStatus("no code".to_string()), "x").err().unwrap();
    assert_eq!(
        error,
        SRCError::new(
            "Encountered error getting http response",
            Some("no code".to_string()),
            true
        )
    );
}

#[test]
fn a_body_that_is_no_utf8_is_refused() {
    let error = to_json(&Reply::Received(200, vec![b'{', 0xff, b'}']), "x").err().unwrap();
    assert_eq!(error.error(), "Invalid UTF-8 sequence");
    assert!(!error.retriable());
    assert!(!error.cached());
    assert!(error.cause().unwrap().contains("utf-8"));
}

#[test]
fn a_body_that_is_no_json_is_refused() {
    let error = to_json(&Reply::Received(200, b"<html>".to_vec()), "x").err().unwrap();
    assert_eq!(error.error(), "Invalid json string");
    assert!(!error.retriable());
    assert!(!error.cached());
    assert!(error.cause().is_some());
}

#[test]
fn a_body_in_utf8_is_read_as_json() {
    let json = to_json(&Reply::Received(200, "{\"schema\":\"\u{e9}\u{4e2d}\"}".as_bytes().to_vec()), "x")
        .unwrap();
    assert_eq!(json.member("schema").unwrap().as_str(), Some("\u{e9}\u{4e2d}"));
}

#[test]
fn addresses_of_the_registry() {
    assert_eq!(schema_by_id_address("http://r:8081", 7), "http://r:8081/schemas/ids/7");
    assert_eq!(
        schema_by_id_address("http://r", u32::MAX),
        "http://r/schemas/ids/4294967295"
    );
    assert_eq!(latest_version_address("http://r", "t-value"), "http://r/subjects/t-value/versions/latest");
    assert_eq!(version_address("http://r", "s", 12), "http://r/subjects/s/versions/12");
    assert_eq!(versions_address("http://r", "s"), "http://r/subjects/s/versions");
    assert_eq!(subject_address("http://r", "s"), "http://r/subjects/s");
}

#[test]
fn numbers_in_decimal() {
    assert_eq!(decimal_text(0), "0");
    assert_eq!(decimal_text(9), "9");
    assert_eq!(decimal_text(10), "10");
    assert_eq!(decimal_text(1_234_567_890), "1234567890");
    assert_eq!(decimal_text(u64::MAX), "18446744073709551615");
}

#[test]
fn content_type_of_the_registry() {
    assert_eq!(CONTENT_TYPE, "application/vnd.schemaregistry.v1+json");
}
