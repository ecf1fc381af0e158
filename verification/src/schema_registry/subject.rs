//! The subject under which the registry keeps a schema, as it follows from a
//! naming strategy.

use super::error::{SRCError, SRCErrorView};
use super::schema::{SuppliedSchema, SuppliedSchemaView};
use vstd::prelude::*;

verus! {

/// Strategy similar to the one in the Java client. Historically the only
/// strategy was the one by topic name, so that a topic could hold one type
/// only. With the other two a topic can hold several types, each of which
/// still evolves compatibly.
///
/// Depending on the strategy the topic, whether the value is used as key, the
/// fully qualified name of the record, or the schema is to be provided.
#[derive(Debug)]
pub enum SubjectNameStrategy {
    RecordNameStrategy(String),
    TopicNameStrategy(String, bool),
    TopicRecordNameStrategy(String, String),
    RecordNameStrategyWithSchema(Box<SuppliedSchema>),
    TopicNameStrategyWithSchema(String, bool, Box<SuppliedSchema>),
    TopicRecordNameStrategyWithSchema(String, Box<SuppliedSchema>),
}

/// The mathematical content of a [`SubjectNameStrategy`].
pub enum SubjectNameStrategyView {
    RecordNameStrategy(Seq<char>),
    TopicNameStrategy(Seq<char>, bool),
    TopicRecordNameStrategy(Seq<char>, Seq<char>),
    RecordNameStrategyWithSchema(SuppliedSchemaView),
    TopicNameStrategyWithSchema(Seq<char>, bool, SuppliedSchemaView),
    TopicRecordNameStrategyWithSchema(Seq<char>, SuppliedSchemaView),
}

impl View for SubjectNameStrategy {
    type V = SubjectNameStrategyView;

    open spec fn view(&self) -> SubjectNameStrategyView {
        match self {
            SubjectNameStrategy::RecordNameStrategy(name) => {
                SubjectNameStrategyView::RecordNameStrategy(name@)
            },
            SubjectNameStrategy::TopicNameStrategy(topic, is_key) => {
                SubjectNameStrategyView::TopicNameStrategy(topic@, *is_key)
            },
            SubjectNameStrategy::TopicRecordNameStrategy(topic, name) => {
                SubjectNameStrategyView::TopicRecordNameStrategy(topic@, name@)
            },
            SubjectNameStrategy::RecordNameStrategyWithSchema(schema) => {
                SubjectNameStrategyView::RecordNameStrategyWithSchema(schema@)
            },
            SubjectNameStrategy::TopicNameStrategyWithSchema(topic, is_key, schema) => {
                SubjectNameStrategyView::TopicNameStrategyWithSchema(topic@, *is_key, schema@)
            },
            SubjectNameStrategy::TopicRecordNameStrategyWithSchema(topic, schema) => {
                SubjectNameStrategyView::TopicRecordNameStrategyWithSchema(topic@, schema@)
            },
        }
    }
}

impl Clone for SubjectNameStrategy {
    fn clone(&self) -> (result: SubjectNameStrategy)
        ensures
            result@ == self@,
    {
        match self {
            SubjectNameStrategy::RecordNameStrategy(name) => {
                SubjectNameStrategy::RecordNameStrategy(name.clone())
            },
            SubjectNameStrategy::TopicNameStrategy(topic, is_key) => {
                SubjectNameStrategy::TopicNameStrategy(topic.clone(), *is_key)
            },
            SubjectNameStrategy::TopicRecordNameStrategy(topic, name) => {
                SubjectNameStrategy::TopicRecordNameStrategy(topic.clone(), name.clone())
            },
            SubjectNameStrategy::RecordNameStrategyWithSchema(schema) => {
                SubjectNameStrategy::RecordNameStrategyWithSchema(Box::new((**schema).clone()))
            },
            SubjectNameStrategy::TopicNameStrategyWithSchema(topic, is_key, schema) => {
                SubjectNameStrategy::TopicNameStrategyWithSchema(
                    topic.clone(),
                    *is_key,
                    Box::new((**schema).clone()),
                )
            },
            SubjectNameStrategy::TopicRecordNameStrategyWithSchema(topic, schema) => {
                SubjectNameStrategy::TopicRecordNameStrategyWithSchema(
                    topic.clone(),
                    Box::new((**schema).clone()),
                )
            },
        }
    }
}

/// The message of the error for a strategy that needs the name of the record
/// and carries a schema without one.
pub open spec fn name_is_mandatory() -> Seq<char> {
    "name is mandatory in SuppliedSchema when used in TopicRecordNameStrategyWithSchema"@
}

/// The subject for a topic alone: it depends on whether the key or the value
/// of the record is meant.
pub open spec fn topic_subject(topic: Seq<char>, is_key: bool) -> Seq<char> {
    if is_key {
        topic + "-key"@
    } else {
        topic + "-value"@
    }
}

/// The subject for a record in a topic.
pub open spec fn topic_record_subject(topic: Seq<char>, name: Seq<char>) -> Seq<char> {
    topic + "-"@ + name
}

impl SubjectNameStrategyView {
    /// The schema that the strategy carries, if it carries one.
    pub open spec fn schema(self) -> Option<SuppliedSchemaView> {
        match self {
            SubjectNameStrategyView::RecordNameStrategy(_) => None,
            SubjectNameStrategyView::TopicNameStrategy(_, _) => None,
            SubjectNameStrategyView::TopicRecordNameStrategy(_, _) => None,
            SubjectNameStrategyView::RecordNameStrategyWithSchema(schema) => Some(schema),
            SubjectNameStrategyView::TopicNameStrategyWithSchema(_, _, schema) => Some(schema),
            SubjectNameStrategyView::TopicRecordNameStrategyWithSchema(_, schema) => Some(schema),
        }
    }

    /// The name of the record that the strategy goes by, if it goes by one:
    /// its own, or that of the schema it carries.
    pub open spec fn record_name(self) -> Option<Seq<char>> {
        match self {
            SubjectNameStrategyView::RecordNameStrategy(name) => Some(name),
            SubjectNameStrategyView::TopicRecordNameStrategy(_, name) => Some(name),
            SubjectNameStrategyView::RecordNameStrategyWithSchema(schema) => schema.name,
            SubjectNameStrategyView::TopicRecordNameStrategyWithSchema(_, schema) => schema.name,
            _ => None,
        }
    }

    /// The subject, or the error for a strategy that lacks the name it needs.
    pub open spec fn subject(self) -> Result<Seq<char>, SRCErrorView> {
        match self {
            SubjectNameStrategyView::RecordNameStrategy(name) => Ok(name),
            SubjectNameStrategyView::TopicNameStrategy(topic, is_key) => Ok(
                topic_subject(topic, is_key),
            ),
            SubjectNameStrategyView::TopicRecordNameStrategy(topic, name) => Ok(
                topic_record_subject(topic, name),
            ),
            SubjectNameStrategyView::RecordNameStrategyWithSchema(schema) => match schema.name {
                Some(name) => Ok(name),
                None => Err(SRCErrorView::fresh(name_is_mandatory(), None, false)),
            },
            SubjectNameStrategyView::TopicNameStrategyWithSchema(topic, is_key, _) => Ok(
                topic_subject(topic, is_key),
            ),
            SubjectNameStrategyView::TopicRecordNameStrategyWithSchema(
                topic,
                schema,
            ) => match schema.name {
                Some(name) => Ok(topic_record_subject(topic, name)),
                None => Err(SRCErrorView::fresh(name_is_mandatory(), None, false)),
            },
        }
    }
}

/// The content of the outcome of [`get_subject`].
pub open spec fn subject_result_view(result: Result<String, SRCError>) -> Result<
    Seq<char>,
    SRCErrorView,
> {
    match result {
        Ok(subject) => Ok(subject@),
        Err(error) => Err(error@),
    }
}

/// The content of an optional schema.
pub open spec fn optional_schema_view(schema: Option<SuppliedSchema>) -> Option<
    SuppliedSchemaView,
> {
    match schema {
        Some(s) => Some(s@),
        None => None,
    }
}

fn name_is_mandatory_error() -> (error: SRCError)
    ensures
        error@ == SRCErrorView::fresh(name_is_mandatory(), None, false),
{
    SRCError::non_retryable_without_cause(
        "name is mandatory in SuppliedSchema when used in TopicRecordNameStrategyWithSchema",
    )
}

fn topic_subject_text(topic: &String, is_key: bool) -> (subject: String)
    ensures
        subject@ == topic_subject(topic@, is_key),
{
    let mut subject = topic.clone();
    if is_key {
        subject.append("-key");
    } else {
        subject.append("-value");
    }
    subject
}

fn topic_record_subject_text(topic: &String, name: &String) -> (subject: String)
    ensures
        subject@ == topic_record_subject(topic@, name@),
{
    let mut subject = topic.clone();
    subject.append("-");
    subject.append(name.as_str());
    subject
}

/// The schema that the strategy carries, if it carries one, where it stands.
pub fn carried_schema(subject_name_strategy: &SubjectNameStrategy) -> (schema: Option<
    &SuppliedSchema,
>)
    ensures
        match schema {
            Some(s) => subject_name_strategy@.schema() == Some(s@),
            None => subject_name_strategy@.schema() is None,
        },
{
    match subject_name_strategy {
        SubjectNameStrategy::RecordNameStrategy(_) => None,
        SubjectNameStrategy::TopicNameStrategy(_, _) => None,
        SubjectNameStrategy::TopicRecordNameStrategy(_, _) => None,
        SubjectNameStrategy::RecordNameStrategyWithSchema(schema) => Some(&**schema),
        SubjectNameStrategy::TopicNameStrategyWithSchema(_, _, schema) => Some(&**schema),
        SubjectNameStrategy::TopicRecordNameStrategyWithSchema(_, schema) => Some(&**schema),
    }
}

/// The schema that the strategy carries, if it carries one. With a schema the
/// resolution registers it; without one it only looks up what the registry has.
pub fn get_schema(subject_name_strategy: &SubjectNameStrategy) -> (schema: Option<SuppliedSchema>)
    ensures
        optional_schema_view(schema) == subject_name_strategy@.schema(),
{
    match subject_name_strategy {
        SubjectNameStrategy::RecordNameStrategy(_) => None,
        SubjectNameStrategy::TopicNameStrategy(_, _) => None,
        SubjectNameStrategy::TopicRecordNameStrategy(_, _) => None,
        SubjectNameStrategy::RecordNameStrategyWithSchema(schema) => Some((**schema).clone()),
        SubjectNameStrategy::TopicNameStrategyWithSchema(_, _, schema) => Some(
            (**schema).clone(),
        ),
        SubjectNameStrategy::TopicRecordNameStrategyWithSchema(_, schema) => Some(
            (**schema).clone(),
        ),
    }
}

/// Gets the subject, which is also used as key to cache the results. It is
/// made as the Java client makes it. A strategy that needs the name of the
/// record and carries a schema without one is an error that no retry mends.
pub fn get_subject(subject_name_strategy: &SubjectNameStrategy) -> (result: Result<
    String,
    SRCError,
>)
    ensures
        subject_result_view(result) == subject_name_strategy@.subject(),
{
    match subject_name_strategy {
        SubjectNameStrategy::RecordNameStrategy(name) => Ok(name.clone()),
        SubjectNameStrategy::TopicNameStrategy(topic, is_key) => Ok(
            topic_subject_text(topic, *is_key),
        ),
        SubjectNameStrategy::TopicRecordNameStrategy(topic, name) => Ok(
            topic_record_subject_text(topic, name),
        ),
        SubjectNameStrategy::RecordNameStrategyWithSchema(schema) => match &schema.name {
            None => Err(name_is_mandatory_error()),
            Some(name) => Ok(name.clone()),
        },
        SubjectNameStrategy::TopicNameStrategyWithSchema(topic, is_key, _) => Ok(
            topic_subject_text(topic, *is_key),
        ),
        SubjectNameStrategy::TopicRecordNameStrategyWithSchema(
            topic,
            schema,
        ) => match &schema.name {
            None => Err(name_is_mandatory_error()),
            Some(name) => Ok(topic_record_subject_text(topic, name)),
        },
    }
}

/// The subject of a strategy without a schema follows from its own fields
/// alone; a strategy with a schema has the subject of the strategy without
/// one that goes by the same topic, key flag and record name, and it fails
/// exactly when it needs the name of the record and its schema has none.
pub proof fn lemma_subject_by_kind(strategy: SubjectNameStrategyView)
    ensures
        strategy.schema() is None ==> strategy.subject() is Ok,
        strategy.subject() is Err <==> (strategy
            is RecordNameStrategyWithSchema || strategy
            is TopicRecordNameStrategyWithSchema) && strategy.record_name() is None,
        strategy.subject() matches Err(error) ==> !error.retriable && !error.cached
            && error.error == name_is_mandatory() && error.cause is None,
        match strategy {
            SubjectNameStrategyView::RecordNameStrategyWithSchema(schema) => match schema.name {
                Some(name) => strategy.subject() == SubjectNameStrategyView::RecordNameStrategy(
                    name,
                ).subject(),
                None => true,
            },
            SubjectNameStrategyView::TopicNameStrategyWithSchema(topic, is_key, _) => {
                strategy.subject() == SubjectNameStrategyView::TopicNameStrategy(
                    topic,
                    is_key,
                ).subject()
            },
            SubjectNameStrategyView::TopicRecordNameStrategyWithSchema(
                topic,
                schema,
            ) => match schema.name {
                Some(name) => strategy.subject()
                    == SubjectNameStrategyView::TopicRecordNameStrategy(topic, name).subject(),
                None => true,
            },
            _ => true,
        },
{
}

} // verus!
