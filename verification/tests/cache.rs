use schema_registry_converter::schema_registry::{
    RegisteredSchema, Reply, Resolution, SRCError, SchemaCache, SchemaType,
    SubjectNameStrategy, SuppliedSchema,
};

fn ok(body: &str) -> Reply {
    Reply::Received(200, body.as_bytes().to_vec())
}

/// Looks a schema up through the cache, answers each request with the next
/// reply, and counts the requests.
fn fetch_by_id(
    cache: &mut SchemaCache,
    id: u32,
    replies: &mut Vec<Reply>,
    requests: &mut usize,
) -> Result<RegisteredSchema, SRCError> {
    let mut step = cache.resolve_by_id(id, "http://r");
    let mut asked = false;
    loop {
        match step {
            Resolution::Done(outcome) => {
                return if asked { cache.complete_by_id(id, outcome) } else { outcome };
            }
            Resolution::Pending(pending) => {
                *requests += 1;
                asked = true;
                step = pending.resume(replies.remove(0));
            }
        }
    }
}

fn fetch_by_subject(
    cache: &mut SchemaCache,
    strategy: &SubjectNameStrategy,
    replies: &mut Vec<Reply>,
    requests: &mut usize,
) -> Result<RegisteredSchema, SRCError> {
    let mut step = cache.resolve_by_subject("http://r", strategy);
    let mut asked = false;
    loop {
        match step {
            Resolution::Done(outcome) => {
                return if asked { cache.complete_by_subject(strategy, outcome) } else { outcome };
            }
            Resolution::Pending(pending) => {
                *requests += 1;
                asked = true;
                step = pending.resume(replies.remove(0));
            }
        }
    }
}

#[test]
fn two_lookups_of_one_identifier_send_one_request() {
    let mut cache = SchemaCache::new();
    let mut replies = vec![ok("{\"id\":7,\"schema\":\"...\",\"schemaType\":\"PROTOBUF\"}")];
    let mut requests = 0;
    let first = fetch_by_id(&mut cache, 7, &mut replies, &mut requests);
    let second = fetch_by_id(&mut cache, 7, &mut replies, &mut requests);
    assert_eq!(requests, 1);
    assert_eq!(second, first);
    assert_eq!(
        first,
        Ok(RegisteredSchema {
            id: 7,
            schema_type: SchemaType::Protobuf,
            schema: "...".to_string(),
            references: vec![]
        })
    );
}

#[test]
fn another_identifier_is_looked_up_again() {
    let mut cache = SchemaCache::new();
    let mut replies = vec![ok("{\"schema\":\"a\"}"), ok("{\"schema\":\"b\"}")];
    let mut requests = 0;
    let seven = fetch_by_id(&mut cache, 7, &mut replies, &mut requests).unwrap();
    let eight = fetch_by_id(&mut cache, 8, &mut replies, &mut requests).unwrap();
    assert_eq!(requests, 2);
    assert_eq!((seven.id, seven.schema.as_str()), (7, "a"));
    assert_eq!((eight.id, eight.schema.as_str()), (8, "b"));
    assert_eq!(fetch_by_id(&mut cache, 7, &mut replies, &mut requests).unwrap(), seven);
    assert_eq!(requests, 2);
}

#[test]
fn an_error_is_kept_and_comes_back_marked_as_cached() {
    let mut cache = SchemaCache::new();
    let mut replies = vec![Reply::Received(404, Vec::new())];
    let mut requests = 0;
    let first = fetch_by_id(&mut cache, 7, &mut replies, &mut requests).unwrap_err();
    let second = fetch_by_id(&mut cache, 7, &mut replies, &mut requests).unwrap_err();
    let third = fetch_by_id(&mut cache, 7, &mut replies, &mut requests).unwrap_err();
    assert_eq!(requests, 1);
    assert_eq!(
        first,
        SRCError::new("Did not get a 200 response code but 404 instead", None, false)
    );
    assert!(!first.cached());
    assert!(second.cached());
    assert_eq!(second, first.clone().into_cache());
    assert_eq!(third, second);
}

#[test]
fn an_error_that_a_retry_may_mend_is_kept_too() {
    let mut cache = SchemaCache::new();
    let mut replies = vec![Reply::Failed("refused".to_string())];
    let mut requests = 0;
    let first = fetch_by_id(&mut cache, 7, &mut replies, &mut requests).unwrap_err();
    let second = fetch_by_id(&mut cache, 7, &mut replies, &mut requests).unwrap_err();
    assert_eq!(requests, 1);
    assert!(first.retriable() && !first.cached());
    assert!(second.retriable() && second.cached());
}

#[test]
fn a_later_outcome_takes_the_place_of_an_earlier_one() {
    let mut cache = SchemaCache::new();
    let failed: Result<RegisteredSchema, SRCError> = Err(SRCError::new("down", None, true));
    assert_eq!(cache.complete_by_id(7, failed.clone()), failed);
    let schema = RegisteredSchema {
        id: 7,
        schema_type: SchemaType::Avro,
        schema: "s".to_string(),
        references: vec![],
    };
    assert_eq!(cache.complete_by_id(7, Ok(schema.clone())), Ok(schema.clone()));
    match cache.resolve_by_id(7, "http://r") {
        Resolution::Done(outcome) => assert_eq!(outcome, Ok(schema)),
        Resolution::Pending(_) => panic!("the cache holds an outcome"),
    }
}

#[test]
fn two_resolutions_of_one_strategy_send_one_request() {
    let mut cache = SchemaCache::new();
    let strategy = SubjectNameStrategy::TopicNameStrategy("t".to_string(), false);
    let mut replies = vec![ok("{\"id\":3,\"schema\":\"s\"}")];
    let mut requests = 0;
    let first = fetch_by_subject(&mut cache, &strategy, &mut replies, &mut requests);
    let second = fetch_by_subject(&mut cache, &strategy, &mut replies, &mut requests);
    assert_eq!(requests, 1);
    assert_eq!(first.as_ref().unwrap().id, 3);
    assert_eq!(second, first);
    let same = SubjectNameStrategy::TopicNameStrategy("t".to_string(), false);
    assert_eq!(fetch_by_subject(&mut cache, &same, &mut replies, &mut requests), first);
    assert_eq!(requests, 1);
}

#[test]
fn strategies_are_kept_apart() {
    let mut cache = SchemaCache::new();
    let value = SubjectNameStrategy::TopicNameStrategy("t".to_string(), false);
    let key = SubjectNameStrategy::TopicNameStrategy("t".to_string(), true);
    let with_schema = SubjectNameStrategy::TopicNameStrategyWithSchema(
        "t".to_string(),
        false,
        Box::new(SuppliedSchema {
            name: None,
            schema_type: SchemaType::Avro,
            schema: "s".to_string(),
            references: vec![],
        }),
    );
    let mut replies = vec![
        ok("{\"id\":1,\"schema\":\"v\"}"),
        ok("{\"id\":2,\"schema\":\"k\"}"),
        ok("{\"id\":3}"),
    ];
    let mut requests = 0;
    assert_eq!(fetch_by_subject(&mut cache, &value, &mut replies, &mut requests).unwrap().id, 1);
    assert_eq!(fetch_by_subject(&mut cache, &key, &mut replies, &mut requests).unwrap().id, 2);
    assert_eq!(
        fetch_by_subject(&mut cache, &with_schema, &mut replies, &mut requests).unwrap().id,
        3
    );
    assert_eq!(requests, 3);
    assert_eq!(fetch_by_subject(&mut cache, &value, &mut replies, &mut requests).unwrap().id, 1);
    assert_eq!(fetch_by_subject(&mut cache, &key, &mut replies, &mut requests).unwrap().id, 2);
    assert_eq!(
        fetch_by_subject(&mut cache, &with_schema, &mut replies, &mut requests).unwrap().id,
        3
    );
    assert_eq!(requests, 3);
}

#[test]
fn an_error_for_a_strategy_is_kept() {
    let mut cache = SchemaCache::new();
    let strategy = SubjectNameStrategy::RecordNameStrategy("R".to_string());
    let mut replies = vec![ok("not json")];
    let mut requests = 0;
    let first = fetch_by_subject(&mut cache, &strategy, &mut replies, &mut requests).unwrap_err();
    let second = fetch_by_subject(&mut cache, &strategy, &mut replies, &mut requests).unwrap_err();
    assert_eq!(requests, 1);
    assert_eq!(first.error(), "Invalid json string");
    assert!(!first.cached());
    assert_eq!(second, first.into_cache());
}

#[test]
fn a_strategy_without_subject_is_never_kept() {
    let mut cache = SchemaCache::new();
    let strategy = SubjectNameStrategy::RecordNameStrategyWithSchema(Box::new(SuppliedSchema {
        name: None,
        schema_type: SchemaType::Avro,
        schema: "s".to_string(),
        references: vec![],
    }));
    let mut replies = vec![];
    let mut requests = 0;
    let first = fetch_by_subject(&mut cache, &strategy, &mut replies, &mut requests).unwrap_err();
    let second = fetch_by_subject(&mut cache, &strategy, &mut replies, &mut requests).unwrap_err();
    assert_eq!(requests, 0);
    assert!(!first.cached());
    assert!(!second.cached());
    assert_eq!(first, second);
}

#[test]
fn a_cache_can_be_made_to_ask_again_after_an_error_that_a_retry_may_mend() {
    let mut cache = SchemaCache::with_policy(false);
    let mut replies = vec![
        Reply::Failed("refused".to_string()),
        Reply::Received(404, Vec::new()),
    ];
    let mut requests = 0;
    let first = fetch_by_id(&mut cache, 7, &mut replies, &mut requests).unwrap_err();
    assert!(first.retriable() && !first.cached());
    let second = fetch_by_id(&mut cache, 7, &mut replies, &mut requests).unwrap_err();
    assert_eq!(requests, 2);
    assert!(!second.retriable() && !second.cached());
    let third = fetch_by_id(&mut cache, 7, &mut replies, &mut requests).unwrap_err();
    assert_eq!(requests, 2);
    assert_eq!(third, second.into_cache());
}

#[test]
fn a_cache_that_asks_again_keeps_schemas_all_the_same() {
    let mut cache = SchemaCache::with_policy(false);
    let strategy = SubjectNameStrategy::RecordNameStrategy("R".to_string());
    let mut replies = vec![Reply::NoStatus("?".to_string()), ok("{\"id\":3,\"schema\":\"s\"}")];
    let mut requests = 0;
    let first = fetch_by_subject(&mut cache, &strategy, &mut replies, &mut requests);
    assert!(first.unwrap_err().retriable());
    let second = fetch_by_subject(&mut cache, &strategy, &mut replies, &mut requests);
    let third = fetch_by_subject(&mut cache, &strategy, &mut replies, &mut requests);
    assert_eq!(requests, 2);
    assert_eq!(second.as_ref().unwrap().id, 3);
    assert_eq!(third, second);
}
