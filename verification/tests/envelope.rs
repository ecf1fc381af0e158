use schema_registry_converter::schema_registry::envelope::{low_u32_of_i64, low_u32_of_u64};
use schema_registry_converter::schema_registry::{
    get_body, id_from_reply, parse_json, reference_from_json, schema_from_json,
    schema_from_reply, version_from_reply, RegisteredReference, RegisteredSchema, Reply,
    SRCError, SchemaType,
};

fn ok(body: &str) -> Reply {
    Reply::Received(200, body.as_bytes().to_vec())
}

fn read(body: &str, requested: Option<u32>) -> Result<RegisteredSchema, SRCError> {
    schema_from_json(&parse_json(body).unwrap(), requested)
}

#[test]
fn envelope_with_identifier_and_type() {
    let schema = read("{\"id\":7,\"schema\":\"...\",\"schemaType\":\"PROTOBUF\"}", None).unwrap();
    assert_eq!(
        schema,
        RegisteredSchema {
            id: 7,
            schema_type: SchemaType::Protobuf,
            schema: "...".to_string(),
            references: vec![],
        }
    );
}

#[test]
fn envelope_without_identifier_takes_the_one_asked_for() {
    assert_eq!(read("{\"schema\":\"s\"}", Some(42)).unwrap().id, 42);
    assert_eq!(read("{\"schema\":\"s\",\"id\":\"x\"}", Some(42)).unwrap().id, 42);
}

#[test]
fn envelope_with_identifier_keeps_its_own() {
    assert_eq!(read("{\"schema\":\"s\",\"id\":9}", Some(42)).unwrap().id, 9);
}

#[test]
fn envelope_without_any_identifier_is_refused() {
    assert_eq!(
        read("{\"schema\":\"s\"}", None),
        Err(SRCError::new("Could not get id from response", None, false))
    );
    assert_eq!(
        read("[]", None),
        Err(SRCError::new("Could not get id from response", None, false))
    );
}

#[test]
fn envelope_without_schema_is_refused() {
    let expected = Err(SRCError::new("Could not get raw schema from response", None, false));
    assert_eq!(read("{\"id\":1}", None), expected);
    assert_eq!(read("{\"id\":1,\"schema\":5}", Some(1)), expected);
    assert_eq!(read("{}", Some(1)), expected);
}

#[test]
fn the_identifier_is_looked_at_before_the_schema() {
    assert_eq!(
        read("{}", None),
        Err(SRCError::new("Could not get id from response", None, false))
    );
}

#[test]
fn schema_types_by_name() {
    let of = |name: &str| {
        read(&format!("{{\"id\":1,\"schema\":\"s\",\"schemaType\":\"{}\"}}", name), None)
            .unwrap()
            .schema_type
    };
    assert_eq!(of("AVRO"), SchemaType::Avro);
    assert_eq!(of("PROTOBUF"), SchemaType::Protobuf);
    assert_eq!(of("JSON"), SchemaType::Json);
    assert_eq!(of("XML"), SchemaType::Other("XML".to_string()));
    assert_eq!(of("avro"), SchemaType::Other("avro".to_string()));
    assert_eq!(read("{\"id\":1,\"schema\":\"s\"}", None).unwrap().schema_type, SchemaType::Avro);
    assert_eq!(
        read("{\"id\":1,\"schema\":\"s\",\"schemaType\":3}", None).unwrap().schema_type,
        SchemaType::Avro
    );
}

#[test]
fn schema_type_names() {
    assert_eq!(SchemaType::Avro.name(), "AVRO");
    assert_eq!(SchemaType::Protobuf.name(), "PROTOBUF");
    assert_eq!(SchemaType::Json.name(), "JSON");
    assert_eq!(SchemaType::Other("XML".to_string()).name(), "XML");
    assert_eq!(SchemaType::from_name(None), SchemaType::Avro);
    assert_eq!(SchemaType::from_name(Some("JSON")), SchemaType::Json);
}

#[test]
fn envelope_with_references() {
    let schema = read(
        "{\"id\":3,\"schema\":\"s\",\"references\":[{\"name\":\"a.proto\",\"subject\":\"a\",\"version\":1},{\"version\":4294967295,\"subject\":\"b\",\"name\":\"b.proto\",\"more\":true}]}",
        None,
    )
    .unwrap();
    assert_eq!(
        schema.references,
        vec![
            RegisteredReference {
                name: "a.proto".to_string(),
                subject: "a".to_string(),
                version: 1
            },
            RegisteredReference {
                name: "b.proto".to_string(),
                subject: "b".to_string(),
                version: u32::MAX
            },
        ]
    );
    assert!(read("{\"id\":3,\"schema\":\"s\",\"references\":[]}", None)
        .unwrap()
        .references
        .is_empty());
    assert!(read("{\"id\":3,\"schema\":\"s\",\"references\":\"none\"}", None)
        .unwrap()
        .references
        .is_empty());
}

#[test]
fn malformed_reference_is_refused() {
    let refused = |reference: &str, cause: &str| {
        assert_eq!(
            read(
                &format!("{{\"id\":3,\"schema\":\"s\",\"references\":[{}]}}", reference),
                None
            ),
            Err(SRCError::new("Error parsing reference", Some(cause.to_string()), false))
        );
    };
    refused("{\"subject\":\"a\",\"version\":1}", "missing field `name`");
    refused("{\"name\":\"a\",\"version\":1}", "missing field `subject`");
    refused("{\"name\":\"a\",\"subject\":\"a\"}", "missing field `version`");
    refused("{\"name\":1,\"subject\":\"a\",\"version\":1}", "invalid value for field `name`");
    refused("{\"name\":\"a\",\"subject\":[],\"version\":1}", "invalid value for field `subject`");
    refused("{\"name\":\"a\",\"subject\":\"a\",\"version\":-1}", "invalid value for field `version`");
    refused("{\"name\":\"a\",\"subject\":\"a\",\"version\":4294967296}", "invalid value for field `version`");
    refused("{\"name\":\"a\",\"subject\":\"a\",\"version\":\"1\"}", "invalid value for field `version`");
    refused("7", "missing field `name`");
}

#[test]
fn the_first_malformed_reference_is_reported() {
    assert_eq!(
        read(
            "{\"id\":3,\"schema\":\"s\",\"references\":[{\"name\":\"a\",\"subject\":\"a\",\"version\":1},{\"name\":\"b\"},{}]}",
            None
        ),
        Err(SRCError::new(
            "Error parsing reference",
            Some("missing field `subject`".to_string()),
            false
        ))
    );
}

#[test]
fn reference_from_an_item() {
    let item = parse_json("{\"name\":\"n\",\"subject\":\"s\",\"version\":2}").unwrap();
    assert_eq!(
        reference_from_json(&item),
        Ok(RegisteredReference { name: "n".to_string(), subject: "s".to_string(), version: 2 })
    );
}

#[test]
fn only_the_lowest_32_bits_of_an_identifier_are_kept() {
    assert_eq!(read("{\"id\":4294967301,\"schema\":\"s\"}", None).unwrap().id, 5);
    assert_eq!(low_u32_of_u64(u64::MAX), u32::MAX);
    assert_eq!(low_u32_of_u64(1 << 32), 0);
    assert_eq!(low_u32_of_i64(-1), u32::MAX);
    assert_eq!(low_u32_of_i64(-2), u32::MAX - 1);
    assert_eq!(low_u32_of_i64(i64::MIN), 0);
    assert_eq!(low_u32_of_i64(i64::MAX), u32::MAX);
    assert_eq!(low_u32_of_i64(-4294967296), 0);
    assert_eq!(low_u32_of_i64(-4294967297), u32::MAX);
    assert_eq!(low_u32_of_i64(7), 7);
    assert_eq!(id_from_reply(&ok("{\"id\":-1}")), Ok(u32::MAX));
}

#[test]
fn schema_from_the_reply_to_a_get() {
    assert_eq!(
        schema_from_reply(&ok("{\"schema\":\"s\"}"), Some(7)),
        Ok(RegisteredSchema {
            id: 7,
            schema_type: SchemaType::Avro,
            schema: "s".to_string(),
            references: vec![]
        })
    );
    assert_eq!(
        schema_from_reply(&Reply::Failed("timeout".to_string()), Some(7)),
        Err(SRCError::new(
            "error performing get to schema registry",
            Some("timeout".to_string()),
            true
        ))
    );
    assert_eq!(
        schema_from_reply(&Reply::Received(404, b"{\"schema\":\"s\"}".to_vec()), Some(7)),
        Err(SRCError::new("Did not get a 200 response code but 404 instead", None, false))
    );
}

#[test]
fn identifier_from_the_reply_to_a_post() {
    assert_eq!(id_from_reply(&ok("{\"id\":12}")), Ok(12));
    assert_eq!(
        id_from_reply(&ok("{\"version\":12}")),
        Err(SRCError::new("Could not get id from response", None, false))
    );
    assert_eq!(
        id_from_reply(&Reply::Failed("down".to_string())),
        Err(SRCError::new(
            "error performing post to schema registry to get id",
            Some("down".to_string()),
            true
        ))
    );
}

#[test]
fn version_from_the_reply_to_a_post() {
    assert_eq!(version_from_reply(&ok("{\"version\":3,\"id\":12}")), Ok(3));
    assert_eq!(
        version_from_reply(&ok("{\"id\":12}")),
        Err(SRCError::new("Could not get version from response", None, false))
    );
    assert_eq!(
        version_from_reply(&Reply::Failed("down".to_string())),
        Err(SRCError::new(
            "error performing post to schema registry to get version",
            Some("down".to_string()),
            true
        ))
    );
}

#[test]
fn body_without_references_has_no_member_for_them() {
    assert_eq!(
        get_body("AVRO", "{\"type\":\"string\"}", &vec![]),
        "{\"schema\":\"{\\\"type\\\":\\\"string\\\"}\",\"schemaType\":\"AVRO\"}"
    );
}

#[test]
fn body_with_references() {
    let one = vec![RegisteredReference {
        name: "a.proto".to_string(),
        subject: "a".to_string(),
        version: 1,
    }];
    assert_eq!(
        get_body("PROTOBUF", "s", &one),
        "{\"schema\":\"s\",\"schemaType\":\"PROTOBUF\",\"references\":[{\"name\":\"a.proto\",\"subject\":\"a\",\"version\":1}]}"
    );
    let three = vec![
        RegisteredReference { name: "a".to_string(), subject: "x".to_string(), version: 1 },
        RegisteredReference { name: "b".to_string(), subject: "y".to_string(), version: 20 },
        RegisteredReference { name: "c\"".to_string(), subject: "z".to_string(), version: u32::MAX },
    ];
    let body = get_body("JSON", "s", &three);
    assert_eq!(
        body,
        "{\"schema\":\"s\",\"schemaType\":\"JSON\",\"references\":[{\"name\":\"a\",\"subject\":\"x\",\"version\":1},{\"name\":\"b\",\"subject\":\"y\",\"version\":20},{\"name\":\"c\\\"\",\"subject\":\"z\",\"version\":4294967295}]}"
    );
    let back = parse_json(&body).unwrap();
    let listed = back.member("references").unwrap().as_array().unwrap();
    assert_eq!(reference_from_json(&listed[2]).unwrap(), three[2]);
}

#[test]
fn texts_in_a_body_are_quoted_and_escaped() {
    assert_eq!(get_body("", "", &vec![]), "{\"schema\":\"\",\"schemaType\":\"\"}");
    assert_eq!(
        get_body("A\\B", "a\"b\\c\nd\u{1}", &vec![]),
        "{\"schema\":\"a\\\"b\\\\c\\nd\\u0001\",\"schemaType\":\"A\\\\B\"}"
    );
    let body = get_body("AVRO", "{\"type\":\"string\"}", &vec![]);
    let back = parse_json(&body).unwrap();
    assert_eq!(back.member("schema").unwrap().as_str(), Some("{\"type\":\"string\"}"));
}
