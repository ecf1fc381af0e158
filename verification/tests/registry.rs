use schema_registry_converter::schema_registry::{
    get_referenced_schema, get_schema_by_id, get_schema_by_id_and_type, get_schema_by_subject,
    post_schema, RegisteredReference, RegisteredSchema, Reply, Resolution, SRCError, SchemaType,
    SubjectNameStrategy, SuppliedReference, SuppliedSchema,
};

fn ok(body: &str) -> Reply {
    Reply::Received(200, body.as_bytes().to_vec())
}

/// Drives a resolution with the replies in turn, and notes each request as
/// its address, a space and its body.
fn drive(
    start: Resolution,
    replies: Vec<Reply>,
) -> (Vec<String>, Option<Result<RegisteredSchema, SRCError>>) {
    let mut sent = Vec::new();
    let mut step = start;
    let mut replies = replies.into_iter();
    loop {
        match step {
            Resolution::Done(outcome) => return (sent, Some(outcome)),
            Resolution::Pending(pending) => {
                let request = pending.request();
                sent.push(match &request.body {
                    Some(body) => format!("{} {}", request.url, body),
                    None => request.url.clone(),
                });
                match replies.next() {
                    Some(reply) => step = pending.resume(reply),
                    None => return (sent, None),
                }
            }
        }
    }
}

fn reference(name: &str, references: Vec<SuppliedReference>) -> SuppliedReference {
    SuppliedReference {
        name: format!("{}.proto", name),
        subject: name.to_string(),
        schema: format!("message {}", name),
        references,
    }
}

#[test]
fn lookup_by_id_reads_the_envelope() {
    let (sent, outcome) = drive(
        get_schema_by_id(7, "http://localhost:8081"),
        vec![ok("{\"id\":7,\"schema\":\"syntax = \\\"proto3\\\";\",\"schemaType\":\"PROTOBUF\"}")],
    );
    assert_eq!(sent, vec!["http://localhost:8081/schemas/ids/7".to_string()]);
    let schema = outcome.unwrap().unwrap();
    assert_eq!(schema.id, 7);
    assert_eq!(schema.schema_type, SchemaType::Protobuf);
    assert_eq!(schema.schema, "syntax = \"proto3\";");
    assert!(schema.references.is_empty());
}

#[test]
fn references_are_registered_before_what_depends_on_them() {
    let schema = SuppliedSchema {
        name: Some("S".to_string()),
        schema_type: SchemaType::Protobuf,
        schema: "message S".to_string(),
        references: vec![
            reference("A", vec![reference("A1", vec![]), reference("A2", vec![])]),
            reference("B", vec![]),
        ],
    };
    let strategy =
        SubjectNameStrategy::TopicNameStrategyWithSchema("t".to_string(), false, Box::new(schema));
    let replies = vec![
        ok("{\"id\":11}"),
        ok("{\"version\":1}"),
        ok("{\"id\":12}"),
        ok("{\"version\":2}"),
        ok("{\"id\":13}"),
        ok("{\"version\":3}"),
        ok("{\"id\":14}"),
        ok("{\"version\":4}"),
        ok("{\"id\":15}"),
    ];
    let (sent, outcome) = drive(get_schema_by_subject("http://r", &strategy), replies);
    let a1 = "{\"schema\":\"message A1\",\"schemaType\":\"PROTOBUF\"}";
    let a2 = "{\"schema\":\"message A2\",\"schemaType\":\"PROTOBUF\"}";
    let a = "{\"schema\":\"message A\",\"schemaType\":\"PROTOBUF\",\"references\":[{\"name\":\"A1.proto\",\"subject\":\"A1\",\"version\":1},{\"name\":\"A2.proto\",\"subject\":\"A2\",\"version\":2}]}";
    let b = "{\"schema\":\"message B\",\"schemaType\":\"PROTOBUF\"}";
    let s = "{\"schema\":\"message S\",\"schemaType\":\"PROTOBUF\",\"references\":[{\"name\":\"A.proto\",\"subject\":\"A\",\"version\":3},{\"name\":\"B.proto\",\"subject\":\"B\",\"version\":4}]}";
    assert_eq!(
        sent,
        vec![
            format!("http://r/subjects/A1/versions {}", a1),
            format!("http://r/subjects/A1 {}", a1),
            format!("http://r/subjects/A2/versions {}", a2),
            format!("http://r/subjects/A2 {}", a2),
            format!("http://r/subjects/A/versions {}", a),
            format!("http://r/subjects/A {}", a),
            format!("http://r/subjects/B/versions {}", b),
            format!("http://r/subjects/B {}", b),
            format!("http://r/subjects/t-value/versions {}", s),
        ]
    );
    let registered = outcome.unwrap().unwrap();
    assert_eq!(registered.id, 15);
    assert_eq!(registered.schema_type, SchemaType::Protobuf);
    assert_eq!(registered.schema, "message S");
    assert_eq!(registered.references.len(), 2);
    assert_eq!(registered.references[0].name, "A.proto");
    assert_eq!(registered.references[0].subject, "A");
    assert_eq!(registered.references[0].version, 3);
    assert_eq!(registered.references[1].name, "B.proto");
    assert_eq!(registered.references[1].version, 4);
}

#[test]
fn a_failed_reference_ends_the_registration() {
    let schema = SuppliedSchema {
        name: None,
        schema_type: SchemaType::Avro,
        schema: "{}".to_string(),
        references: vec![reference("A", vec![reference("A1", vec![])]), reference("B", vec![])],
    };
    let (sent, outcome) = drive(
        post_schema("http://r", "s".to_string(), schema),
        vec![ok("{\"id\":1}"), Reply::Received(422, Vec::new())],
    );
    assert_eq!(sent.len(), 2);
    assert_eq!(
        outcome,
        Some(Err(SRCError::new("Did not get a 200 response code but 422 instead", None, false)))
    );
}

#[test]
fn a_reference_that_could_not_be_sent_may_be_tried_again() {
    let schema = SuppliedSchema {
        name: None,
        schema_type: SchemaType::Avro,
        schema: "{}".to_string(),
        references: vec![reference("A", vec![reference("A1", vec![])])],
    };
    let (sent, outcome) = drive(
        post_schema("http://r", "s".to_string(), schema.clone()),
        vec![Reply::Failed("connection refused".to_string())],
    );
    assert_eq!(sent.len(), 1);
    let error = outcome.unwrap().unwrap_err();
    assert!(error.retriable());
    assert!(!error.cached());
    assert_eq!(
        error,
        SRCError::new(
            "error performing post to schema registry to get id",
            Some("connection refused".to_string()),
            true
        )
    );
    let (sent, outcome) = drive(
        post_schema("http://r", "s".to_string(), schema.clone()),
        vec![ok("{\"id\":1}"), Reply::Failed("reset".to_string())],
    );
    assert_eq!(sent.len(), 2);
    assert_eq!(
        outcome,
        Some(Err(SRCError::new(
            "error performing post to schema registry to get version",
            Some("reset".to_string()),
            true
        )))
    );
    let (sent, outcome) = drive(
        post_schema("http://r", "s".to_string(), schema),
        vec![ok("{\"id\":1}"), ok("{\"version\":1}"), Reply::NoStatus("gone".to_string())],
    );
    assert_eq!(sent.len(), 3);
    let error = outcome.unwrap().unwrap_err();
    assert!(error.retriable() && !error.cached());
    assert_eq!(error.error(), "Encountered error getting http response");
}

#[test]
fn any_other_status_ends_a_registration_with_the_status_in_the_message() {
    for status in [0u32, 201, 404, 409, 500] {
        for before in 0..5 {
            let schema = SuppliedSchema {
                name: None,
                schema_type: SchemaType::Avro,
                schema: "{}".to_string(),
                references: vec![reference("A", vec![reference("A1", vec![])])],
            };
            let mut replies = vec![
                ok("{\"id\":1}"),
                ok("{\"version\":1}"),
                ok("{\"id\":2}"),
                ok("{\"version\":2}"),
            ];
            replies.truncate(before);
            replies.push(Reply::Received(status, Vec::new()));
            let (sent, outcome) = drive(post_schema("http://r", "s".to_string(), schema), replies);
            assert_eq!(sent.len(), before + 1);
            let error = outcome.unwrap().unwrap_err();
            assert!(!error.retriable() && !error.cached());
            assert_eq!(
                error.error(),
                format!("Did not get a 200 response code but {} instead", status)
            );
            assert_eq!(error.cause(), None);
        }
    }
}

#[test]
fn lookup_by_id_and_type_takes_the_right_type() {
    let (sent, outcome) = drive(
        get_schema_by_id_and_type(7, "http://r", SchemaType::Json),
        vec![ok("{\"schema\":\"{}\",\"schemaType\":\"JSON\"}")],
    );
    assert_eq!(sent, vec!["http://r/schemas/ids/7".to_string()]);
    assert_eq!(
        outcome,
        Some(Ok(RegisteredSchema {
            id: 7,
            schema_type: SchemaType::Json,
            schema: "{}".to_string(),
            references: vec![]
        }))
    );
}

#[test]
fn lookup_by_id_and_type_refuses_another_type() {
    let (_, outcome) = drive(
        get_schema_by_id_and_type(7, "http://r", SchemaType::Protobuf),
        vec![ok("{\"schema\":\"{}\"}")],
    );
    assert_eq!(outcome, Some(Err(SRCError::new("type Avro, is not correct", None, false))));
    let (_, outcome) = drive(
        get_schema_by_id_and_type(7, "http://r", SchemaType::Avro),
        vec![ok("{\"schema\":\"{}\",\"schemaType\":\"a\\\"b\"}")],
    );
    assert_eq!(
        outcome,
        Some(Err(SRCError::new("type Other(\"a\\\"b\"), is not correct", None, false)))
    );
    let (_, outcome) = drive(
        get_schema_by_id_and_type(7, "http://r", SchemaType::Avro),
        vec![ok("{\"schema\":\"{}\",\"schemaType\":\"PROTOBUF\"}")],
    );
    assert_eq!(outcome, Some(Err(SRCError::new("type Protobuf, is not correct", None, false))));
    let (_, outcome) = drive(
        get_schema_by_id_and_type(7, "http://r", SchemaType::Avro),
        vec![ok("{\"schema\":\"{}\",\"schemaType\":\"JSON\"}")],
    );
    assert_eq!(outcome, Some(Err(SRCError::new("type Json, is not correct", None, false))));
}

#[test]
fn lookup_by_id_and_type_hands_errors_on() {
    let (_, outcome) = drive(
        get_schema_by_id_and_type(7, "http://r", SchemaType::Protobuf),
        vec![Reply::Received(500, Vec::new())],
    );
    assert_eq!(
        outcome,
        Some(Err(SRCError::new("Did not get a 200 response code but 500 instead", None, false)))
    );
}

#[test]
fn lookup_of_a_referenced_schema() {
    let reference = RegisteredReference {
        name: "a.proto".to_string(),
        subject: "a".to_string(),
        version: 3,
    };
    let (sent, outcome) = drive(
        get_referenced_schema("http://r", &reference),
        vec![ok("{\"id\":5,\"schema\":\"message A\",\"schemaType\":\"PROTOBUF\"}")],
    );
    assert_eq!(sent, vec!["http://r/subjects/a/versions/3".to_string()]);
    assert_eq!(outcome.unwrap().unwrap().id, 5);
    let (_, outcome) =
        drive(get_referenced_schema("http://r", &reference), vec![ok("{\"schema\":\"message A\"}")]);
    assert_eq!(
        outcome,
        Some(Err(SRCError::new("Could not get id from response", None, false)))
    );
}

#[test]
fn lookup_by_subject_gets_the_latest_version() {
    let strategy = SubjectNameStrategy::TopicRecordNameStrategy("t".to_string(), "R".to_string());
    let (sent, outcome) = drive(
        get_schema_by_subject("http://r", &strategy),
        vec![ok("{\"id\":8,\"schema\":\"s\",\"subject\":\"t-R\",\"version\":2}")],
    );
    assert_eq!(sent, vec!["http://r/subjects/t-R/versions/latest".to_string()]);
    assert_eq!(outcome.unwrap().unwrap().id, 8);
}

#[test]
fn strategy_without_subject_sends_nothing() {
    let strategy = SubjectNameStrategy::RecordNameStrategyWithSchema(Box::new(SuppliedSchema {
        name: None,
        schema_type: SchemaType::Avro,
        schema: "{}".to_string(),
        references: vec![],
    }));
    let (sent, outcome) = drive(get_schema_by_subject("http://r", &strategy), vec![]);
    assert!(sent.is_empty());
    assert_eq!(
        outcome,
        Some(Err(SRCError::new(
            "name is mandatory in SuppliedSchema when used in TopicRecordNameStrategyWithSchema",
            None,
            false
        )))
    );
}

#[test]
fn a_lookup_that_could_not_be_sent_may_be_tried_again() {
    let (_, outcome) =
        drive(get_schema_by_id(7, "http://r"), vec![Reply::Failed("refused".to_string())]);
    let error = outcome.unwrap().unwrap_err();
    assert!(error.retriable());
    assert!(!error.cached());
    assert_eq!(error.error(), "error performing get to schema registry");
    assert_eq!(error.cause(), Some("refused"));
}

#[test]
fn any_other_status_ends_a_lookup_for_good() {
    for status in [0u32, 199, 201, 404, 500] {
        let (_, outcome) =
            drive(get_schema_by_id(7, "http://r"), vec![Reply::Received(status, Vec::new())]);
        let error = outcome.unwrap().unwrap_err();
        assert!(!error.retriable());
        assert!(error.error().contains(&status.to_string()));
        assert!(error.to_string().contains(&status.to_string()));
    }
}

#[test]
fn schema_without_references_is_posted_once() {
    let schema = SuppliedSchema {
        name: None,
        schema_type: SchemaType::Other("XML".to_string()),
        schema: "<a/>".to_string(),
        references: vec![],
    };
    let (sent, outcome) =
        drive(post_schema("http://r", "s".to_string(), schema), vec![ok("{\"id\":3}")]);
    assert_eq!(
        sent,
        vec!["http://r/subjects/s/versions {\"schema\":\"<a/>\",\"schemaType\":\"XML\"}"
            .to_string()]
    );
    assert_eq!(
        outcome,
        Some(Ok(RegisteredSchema {
            id: 3,
            schema_type: SchemaType::Other("XML".to_string()),
            schema: "<a/>".to_string(),
            references: vec![]
        }))
    );
}

#[test]
fn a_failed_schema_is_reported_as_it_is() {
    let schema = SuppliedSchema {
        name: None,
        schema_type: SchemaType::Avro,
        schema: "{}".to_string(),
        references: vec![reference("A", vec![])],
    };
    let (sent, outcome) = drive(
        post_schema("http://r", "s".to_string(), schema),
        vec![ok("{\"id\":1}"), ok("{\"version\":1}"), Reply::Failed("gone".to_string())],
    );
    assert_eq!(sent.len(), 3);
    assert_eq!(
        outcome,
        Some(Err(SRCError::new(
            "error performing post to schema registry to get id",
            Some("gone".to_string()),
            true
        )))
    );
}

#[test]
fn a_reference_without_version_ends_the_registration() {
    let schema = SuppliedSchema {
        name: None,
        schema_type: SchemaType::Avro,
        schema: "{}".to_string(),
        references: vec![reference("A", vec![]), reference("B", vec![])],
    };
    let (sent, outcome) = drive(
        post_schema("http://r", "s".to_string(), schema),
        vec![ok("{\"id\":1}"), ok("{\"id\":1}")],
    );
    assert_eq!(sent.len(), 2);
    assert_eq!(
        outcome,
        Some(Err(SRCError::new("Could not get version from response", None, false)))
    );
}

#[test]
fn a_registration_waits_while_replies_are_missing() {
    let schema = SuppliedSchema {
        name: None,
        schema_type: SchemaType::Avro,
        schema: "{}".to_string(),
        references: vec![reference("A", vec![])],
    };
    let (sent, outcome) =
        drive(post_schema("http://r", "s".to_string(), schema), vec![ok("{\"id\":1}")]);
    assert_eq!(sent.len(), 2);
    assert!(outcome.is_none());
}
