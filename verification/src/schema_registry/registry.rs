//! The steps of a resolution, carried out.
//!
//! A resolution either is done or waits for the reply to one request. Whoever
//! drives it performs the request and resumes the resolution with the reply,
//! until it is done. Nothing here touches the network.

use super::envelope::{
    body_text, get_body, id_from_reply, schema_from_reply, schema_result_view,
    version_from_reply,
};
use super::error::SRCError;
use super::http::{
    get_request, latest_version_address, post_request, schema_by_id_address, subject_address,
    version_address, versions_address, Reply, Request,
};
use super::resolution::{
    by_id, by_id_and_type, by_reference, by_registration, by_subject, checked_type,
    debug_literal, descend, fresh_frame, schema_type_text, settle, FrameView,
    PendingView, RegistrationView, ResolutionView,
};
use super::schema::{
    registered_references_view, supplied_references_view, RegisteredReference,
    RegisteredSchema, SchemaType, SchemaTypeView, SuppliedReference, SuppliedSchema,
};
use super::subject::{get_schema, get_subject, SubjectNameStrategy};
use vstd::prelude::*;

verus! {

/// Calls `format!` with `{:?}` on a text: how Rust's `Debug` writes a text,
/// quoted and escaped. The contract names the outcome.
#[verifier::external_body]
fn debug_text(text: &str) -> (written: String)
    ensures
        written@ == debug_literal(text@),
{
    format!("{:?}", text)
}

/// A schema or a reference whose registration has begun.
struct Frame {
    name: String,
    subject: String,
    schema: String,
    remaining: Vec<SuppliedReference>,
    done: Vec<RegisteredReference>,
}

impl View for Frame {
    type V = FrameView;

    closed spec fn view(&self) -> FrameView {
        FrameView {
            name: self.name@,
            subject: self.subject@,
            schema: self.schema@,
            remaining: supplied_references_view(self.remaining),
            done: registered_references_view(self.done@),
        }
    }
}

spec fn frames_view(stack: Seq<Frame>) -> Seq<FrameView> {
    stack.map_values(|frame: Frame| frame@)
}

/// A registration under way.
struct Registration {
    base: String,
    schema_type: SchemaType,
    stack: Vec<Frame>,
    versioning: bool,
}

impl View for Registration {
    type V = RegistrationView;

    closed spec fn view(&self) -> RegistrationView {
        RegistrationView {
            base: self.base@,
            schema_type: self.schema_type@,
            stack: frames_view(self.stack@),
            versioning: self.versioning,
        }
    }
}

/// What a resolution that waits is about.
enum Task {
    Lookup { requested: Option<u32>, expected: Option<SchemaType> },
    Register(Registration),
}

/// A resolution that waits for the reply to its request.
pub struct Pending {
    request: Request,
    task: Task,
}

spec fn optional_type_view(schema_type: Option<SchemaType>) -> Option<SchemaTypeView> {
    match schema_type {
        Some(t) => Some(t@),
        None => None,
    }
}

impl View for Pending {
    type V = PendingView;

    closed spec fn view(&self) -> PendingView {
        match self.task {
            Task::Lookup { requested, expected } => PendingView::Lookup {
                url: self.request.url@,
                requested,
                expected: optional_type_view(expected),
            },
            Task::Register(registration) => PendingView::Register(registration@),
        }
    }
}

/// A resolution: it waits for the reply to a request, or it is done, with the
/// schema or with the error.
pub enum Resolution {
    Pending(Pending),
    Done(Result<RegisteredSchema, SRCError>),
}

impl View for Resolution {
    type V = ResolutionView;

    open spec fn view(&self) -> ResolutionView {
        match self {
            Resolution::Pending(pending) => ResolutionView::Pending(pending@),
            Resolution::Done(outcome) => ResolutionView::Done(schema_result_view(*outcome)),
        }
    }
}

fn lookup(url: String, requested: Option<u32>, expected: Option<SchemaType>) -> (resolution:
    Resolution)
    ensures
        resolution@ == ResolutionView::Pending(
            PendingView::Lookup { url: url@, requested, expected: optional_type_view(expected) },
        ),
{
    Resolution::Pending(
        Pending { request: get_request(url), task: Task::Lookup { requested, expected } },
    )
}

fn schema_type_name(schema_type: &SchemaType) -> (text: String)
    ensures
        text@ == schema_type_text(schema_type@),
{
    match schema_type {
        SchemaType::Avro => String::from_str("Avro"),
        SchemaType::Protobuf => String::from_str("Protobuf"),
        SchemaType::Json => String::from_str("Json"),
        SchemaType::Other(name) => {
            let mut text = String::from_str("Other(");
            let written = debug_text(name.as_str());
            text.append(written.as_str());
            text.append(")");
            text
        },
    }
}

fn check_type(
    outcome: Result<RegisteredSchema, SRCError>,
    expected: Option<SchemaType>,
) -> (checked: Result<RegisteredSchema, SRCError>)
    ensures
        schema_result_view(checked) == checked_type(
            schema_result_view(outcome),
            optional_type_view(expected),
        ),
{
    match outcome {
        Err(error) => Err(error),
        Ok(schema) => match expected {
            None => Ok(schema),
            Some(schema_type) => {
                if schema.schema_type == schema_type {
                    Ok(schema)
                } else {
                    let mut message = String::from_str("type ");
                    let found = schema_type_name(&schema.schema_type);
                    message.append(found.as_str());
                    message.append(", is not correct");
                    Err(SRCError::non_retryable_without_cause(message.as_str()))
                }
            },
        },
    }
}

/// The frame for a reference, which keeps what is left of the references it
/// depends on.
fn frame_of(
    name: String,
    subject: String,
    schema: String,
    remaining: Vec<SuppliedReference>,
) -> (frame: Frame)
    ensures
        frame@ == (FrameView {
            name: name@,
            subject: subject@,
            schema: schema@,
            remaining: supplied_references_view(remaining),
            done: Seq::empty(),
        }),
{
    let done: Vec<RegisteredReference> = Vec::new();
    assert(registered_references_view(done@) =~= Seq::empty());
    Frame { name, subject, schema, remaining, done }
}

/// Takes the first reference out of a list.
fn take_first(references: &mut Vec<SuppliedReference>) -> (first: SuppliedReference)
    requires
        old(references).len() > 0,
    ensures
        first == old(references)[0],
        first@ == supplied_references_view(*old(references))[0],
        supplied_references_view(*final(references)) == supplied_references_view(
            *old(references),
        ).drop_first(),
{
    references.remove(0)
}

/// Goes on from the top of the stack: begins with the first reference that
/// the top still has to register, and with the first of that one, down to one
/// that depends on none.
fn settle_stack(stack: &mut Vec<Frame>)
    requires
        old(stack).len() >= 1,
    ensures
        frames_view(final(stack)@) == settle(frames_view(old(stack)@)),
        final(stack).len() >= old(stack).len(),
{
    let ghost start = frames_view(stack@);
    let ghost height = stack.len();
    let mut top = stack.pop().unwrap();
    if top.remaining.len() == 0 {
        stack.push(top);
        return;
    }
    let mut node = take_first(&mut top.remaining);
    stack.push(top);
    assert(frames_view(stack@) =~= start.drop_last().push(
        FrameView { remaining: start.last().remaining.drop_first(), ..start.last() },
    ));
    loop
        invariant_except_break
            descend(frames_view(stack@), node@) == settle(start),
            stack.len() >= height,
        ensures
            frames_view(stack@) == settle(start),
            stack.len() >= height,
        decreases node,
    {
        let ghost below = frames_view(stack@);
        let ghost entered = node;
        let SuppliedReference { name, subject, schema, references } = node;
        let mut references = references;
        if references.len() == 0 {
            assert(entered@.references.skip(0) =~= entered@.references);
            stack.push(frame_of(name, subject, schema, references));
            break;
        }
        let first = take_first(&mut references);
        stack.push(frame_of(name, subject, schema, references));
        assert(frames_view(stack@) =~= below.push(fresh_frame(entered@, 1)));
        node = first;
    }
}

/// The resolution that waits for the top of the stack to be posted.
fn pending_registration(
    base: String,
    schema_type: SchemaType,
    stack: Vec<Frame>,
    versioning: bool,
    body: Option<String>,
) -> (pending: Pending)
    requires
        stack.len() >= 1,
        versioning ==> stack.len() >= 2,
        match body {
            Some(posted) => posted@ == body_text(
                schema_type@.name(),
                stack@.last()@.schema,
                stack@.last()@.done,
            ),
            None => true,
        },
    ensures
        pending@ == PendingView::Register(
            RegistrationView {
                base: base@,
                schema_type: schema_type@,
                stack: frames_view(stack@),
                versioning,
            },
        ),
{
    let top = &stack[stack.len() - 1];
    let url = if versioning {
        subject_address(base.as_str(), top.subject.as_str())
    } else {
        versions_address(base.as_str(), top.subject.as_str())
    };
    let body = match body {
        Some(posted) => posted,
        None => {
            let label = schema_type.name();
            get_body(label.as_str(), top.schema.as_str(), &top.done)
        },
    };
    Pending {
        request: post_request(url, body),
        task: Task::Register(Registration { base, schema_type, stack, versioning }),
    }
}

/// Handles posting the schema, to get back its identifier. First every
/// reference that the schema depends on is registered, and before each of them
/// those that it depends on in turn. A schema that the registry has already
/// gets the identifier it has there; whether another one is accepted depends on
/// the settings of the registry.
pub fn post_schema(
    schema_registry_url: &str,
    subject: String,
    schema: SuppliedSchema,
) -> (resolution: Resolution)
    ensures
        resolution@ == by_registration(schema_registry_url@, subject@, schema@),
{
    let SuppliedSchema { name: _, schema_type, schema: text, references } = schema;
    let mut stack: Vec<Frame> = Vec::new();
    stack.push(frame_of(String::new(), subject, text, references));
    assert(frames_view(stack@) =~= seq![
        FrameView {
            name: Seq::empty(),
            subject: subject@,
            schema: schema@.schema,
            remaining: schema@.references,
            done: Seq::empty(),
        },
    ]);
    settle_stack(&mut stack);
    let base = String::from_str(schema_registry_url);
    Resolution::Pending(pending_registration(base, schema_type, stack, false, None))
}

/// Gets the schema and its identifier for a strategy. This is how the schema
/// is found with which a value is to be written. A strategy that carries a
/// schema has it registered.
pub fn get_schema_by_subject(
    schema_registry_url: &str,
    subject_name_strategy: &SubjectNameStrategy,
) -> (resolution: Resolution)
    ensures
        resolution@ == by_subject(schema_registry_url@, subject_name_strategy@),
{
    let subject = match get_subject(subject_name_strategy) {
        Ok(subject) => subject,
        Err(error) => {
            return Resolution::Done(Err(error));
        },
    };
    match get_schema(subject_name_strategy) {
        None => lookup(latest_version_address(schema_registry_url, subject.as_str()), None, None),
        Some(schema) => post_schema(schema_registry_url, subject, schema),
    }
}

fn resume_registration(registration: Registration, request: Request, reply: Reply) -> (resolution:
    Resolution)
    requires
        registration@.well_formed(),
        request@ == registration@.request(),
    ensures
        resolution@ == registration@.resume(reply@),
{
    let ghost before = registration@;
    let Registration { base, schema_type, stack, versioning } = registration;
    let mut stack = stack;
    if !versioning {
        match id_from_reply(&reply) {
            Err(error) => Resolution::Done(Err(error)),
            Ok(id) => {
                if stack.len() <= 1 {
                    let top = stack.pop().unwrap();
                    Resolution::Done(
                        Ok(
                            RegisteredSchema {
                                id,
                                schema_type,
                                schema: top.schema,
                                references: top.done,
                            },
                        ),
                    )
                } else {
                    Resolution::Pending(
                        pending_registration(base, schema_type, stack, true, request.body),
                    )
                }
            },
        }
    } else {
        match version_from_reply(&reply) {
            Err(error) => Resolution::Done(Err(error)),
            Ok(version) => {
                let top = stack.pop().unwrap();
                let mut above = stack.pop().unwrap();
                let registered = RegisteredReference {
                    name: top.name,
                    subject: top.subject,
                    version,
                };
                let ghost done = registered_references_view(above.done@);
                above.done.push(registered);
                assert(registered_references_view(above.done@) =~= done.push(registered@));
                stack.push(above);
                assert(frames_view(stack@) =~= before.stack.drop_last().drop_last().push(
                    FrameView {
                        done: before.stack[before.stack.len() - 2].done.push(registered@),
                        ..before.stack[before.stack.len() - 2]
                    },
                ));
                settle_stack(&mut stack);
                Resolution::Pending(pending_registration(base, schema_type, stack, false, None))
            },
        }
    }
}

/// Gets a schema by its identifier. This is how the schema is found with which
/// bytes are to be read, by the identifier that the bytes carry.
pub fn get_schema_by_id(id: u32, schema_registry_url: &str) -> (resolution: Resolution)
    ensures
        resolution@ == by_id(id, schema_registry_url@),
{
    lookup(schema_by_id_address(schema_registry_url, id), Some(id), None)
}

/// Gets a schema by its identifier, and takes it only if it is of the given
/// type: a schema of another type is an error that no retry mends.
pub fn get_schema_by_id_and_type(
    id: u32,
    schema_registry_url: &str,
    schema_type: SchemaType,
) -> (resolution: Resolution)
    ensures
        resolution@ == by_id_and_type(id, schema_registry_url@, schema_type@),
{
    lookup(schema_by_id_address(schema_registry_url, id), Some(id), Some(schema_type))
}

/// Gets the schema that a registered reference points to.
pub fn get_referenced_schema(
    schema_registry_url: &str,
    registered_reference: &RegisteredReference,
) -> (resolution: Resolution)
    ensures
        resolution@ == by_reference(schema_registry_url@, registered_reference@),
{
    lookup(
        version_address(
            schema_registry_url,
            registered_reference.subject.as_str(),
            registered_reference.version,
        ),
        None,
        None,
    )
}

impl Pending {
    /// The request to perform.
    pub fn request(&self) -> (request: &Request)
        ensures
            request@ == self@.request(),
    {
        proof {
            use_type_invariant(self);
        }
        &self.request
    }

    #[verifier::type_invariant]
    spec fn consistent(self) -> bool {
        &&& self@.well_formed()
        &&& self.request@ == self@.request()
    }

    /// Goes on with the reply to the request.
    pub fn resume(self, reply: Reply) -> (resolution: Resolution)
        ensures
            resolution@ == self@.resume(reply@),
    {
        proof {
            use_type_invariant(&self);
        }
        let Pending { request, task } = self;
        match task {
            Task::Lookup { requested, expected } => {
                Resolution::Done(check_type(schema_from_reply(&reply, requested), expected))
            },
            Task::Register(registration) => resume_registration(registration, request, reply),
        }
    }
}

} // verus!
