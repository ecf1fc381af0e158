//! The resolution of a schema against the registry, as a sequence of steps:
//! what a resolution is about, the request it waits for, and what a reply
//! makes of it. What holds of all resolutions is proved here.

use super::envelope::{body_text, id_of_reply, schema_of_reply, version_of_reply};
use super::error::SRCErrorView;
use super::http::{
    json_of_reply, latest_version_url, schema_by_id_url, status_message, subject_url,
    version_url, versions_url, ReplyView, RequestView,
};
use super::json::JsonView;
use super::schema::{
    RegisteredReferenceView, RegisteredSchemaView, SchemaTypeView, SuppliedReferenceView,
    SuppliedSchemaView,
};
use super::subject::SubjectNameStrategyView;
use super::text::{decimal, lemma_occurs_in_middle, occurs_in};
use vstd::prelude::*;

verus! {

/// How Rust writes a text for debugging: quoted and escaped.
pub uninterp spec fn debug_literal(text: Seq<char>) -> Seq<char>;

/// How a type of schema is written in a message.
pub open spec fn schema_type_text(schema_type: SchemaTypeView) -> Seq<char> {
    match schema_type {
        SchemaTypeView::Avro => "Avro"@,
        SchemaTypeView::Protobuf => "Protobuf"@,
        SchemaTypeView::Json => "Json"@,
        SchemaTypeView::Other(name) => "Other("@ + debug_literal(name) + ")"@,
    }
}

/// The message of the error for a schema of another type than the one asked
/// for.
pub open spec fn wrong_type_message(found: SchemaTypeView) -> Seq<char> {
    "type "@ + schema_type_text(found) + ", is not correct"@
}

/// The schema if it is of the expected type, where one is expected; an error
/// that no retry mends if it is of another.
pub open spec fn checked_type(
    outcome: Result<RegisteredSchemaView, SRCErrorView>,
    expected: Option<SchemaTypeView>,
) -> Result<RegisteredSchemaView, SRCErrorView> {
    match outcome {
        Err(error) => Err(error),
        Ok(schema) => match expected {
            None => Ok(schema),
            Some(schema_type) => if schema.schema_type == schema_type {
                Ok(schema)
            } else {
                Err(SRCErrorView::fresh(wrong_type_message(schema.schema_type), None, false))
            },
        },
    }
}

/// A schema or a reference whose registration has begun, with the references
/// that it depends on: those still to register, and those registered.
pub struct FrameView {
    pub name: Seq<char>,
    pub subject: Seq<char>,
    pub schema: Seq<char>,
    pub remaining: Seq<SuppliedReferenceView>,
    pub done: Seq<RegisteredReferenceView>,
}

/// The frame of a reference on which nothing has been done yet but to set
/// aside the first `started` of the references it depends on.
pub open spec fn fresh_frame(reference: SuppliedReferenceView, started: int) -> FrameView {
    FrameView {
        name: reference.name,
        subject: reference.subject,
        schema: reference.schema,
        remaining: reference.references.skip(started),
        done: Seq::empty(),
    }
}

/// Begins with a reference: its frame goes on the stack, then that of the
/// first reference it depends on, and so on down to a reference that depends
/// on none. That one is registered first.
pub open spec fn descend(stack: Seq<FrameView>, reference: SuppliedReferenceView) -> Seq<
    FrameView,
>
    decreases reference,
{
    if reference.references.len() == 0 {
        stack.push(fresh_frame(reference, 0))
    } else {
        descend(stack.push(fresh_frame(reference, 1)), reference.references[0])
    }
}

/// Goes on from the top of the stack: where it still has references to
/// register, begins with the first of them; else the top itself is next.
pub open spec fn settle(stack: Seq<FrameView>) -> Seq<FrameView>
    recommends
        stack.len() > 0,
{
    let top = stack.last();
    if top.remaining.len() == 0 {
        stack
    } else {
        descend(
            stack.drop_last().push(FrameView { remaining: top.remaining.drop_first(), ..top }),
            top.remaining[0],
        )
    }
}

/// A registration under way: the stack leads from the schema, at the bottom,
/// to the schema or reference that is being posted, at the top.
pub struct RegistrationView {
    pub base: Seq<char>,
    pub schema_type: SchemaTypeView,
    pub stack: Seq<FrameView>,
    /// Whether the top has its identifier and now waits for its version.
    pub versioning: bool,
}

impl RegistrationView {
    /// The invariant of a registration: there is a schema at the bottom, and
    /// only a reference waits for a version.
    pub open spec fn well_formed(self) -> bool {
        &&& self.stack.len() >= 1
        &&& self.versioning ==> self.stack.len() >= 2
    }

    /// The request that the registration waits for: the top of the stack is
    /// posted with the references that are registered for it, first to be
    /// registered itself, then to learn its version.
    pub open spec fn request(self) -> RequestView {
        let top = self.stack.last();
        RequestView {
            url: if self.versioning {
                subject_url(self.base, top.subject)
            } else {
                versions_url(self.base, top.subject)
            },
            body: Some(body_text(self.schema_type.name(), top.schema, top.done)),
        }
    }

    /// The registration of a schema under a subject, before its first
    /// request.
    pub open spec fn start(
        base: Seq<char>,
        subject: Seq<char>,
        schema: SuppliedSchemaView,
    ) -> RegistrationView {
        RegistrationView {
            base,
            schema_type: schema.schema_type,
            stack: settle(
                seq![
                    FrameView {
                        name: Seq::empty(),
                        subject,
                        schema: schema.schema,
                        remaining: schema.references,
                        done: Seq::empty(),
                    },
                ],
            ),
            versioning: false,
        }
    }

    /// What the reply to the request makes of the registration.
    ///
    /// An error ends it, whatever was registered before and at whatever
    /// level it came up: the outcome is that error itself, as the reply gave
    /// it. The identifier of a reference is
    /// followed by the request for its version. With the version the reference
    /// is registered for the level above, which goes on with its next
    /// reference or, after the last, is posted itself. The identifier of the
    /// schema ends the registration: the outcome holds it, with the type and
    /// text that were supplied and the references as they were registered.
    pub open spec fn resume(self, reply: ReplyView) -> ResolutionView {
        let top = self.stack.last();
        if !self.versioning {
            match id_of_reply(reply) {
                Err(error) => ResolutionView::Done(Err(error)),
                Ok(id) => if self.stack.len() <= 1 {
                    ResolutionView::Done(
                        Ok(
                            RegisteredSchemaView {
                                id,
                                schema_type: self.schema_type,
                                schema: top.schema,
                                references: top.done,
                            },
                        ),
                    )
                } else {
                    ResolutionView::Pending(
                        PendingView::Register(RegistrationView { versioning: true, ..self }),
                    )
                },
            }
        } else {
            match version_of_reply(reply) {
                Err(error) => ResolutionView::Done(Err(error)),
                Ok(version) => {
                    let above = self.stack[self.stack.len() - 2];
                    let registered = RegisteredReferenceView {
                        name: top.name,
                        subject: top.subject,
                        version,
                    };
                    ResolutionView::Pending(
                        PendingView::Register(
                            RegistrationView {
                                stack: settle(
                                    self.stack.drop_last().drop_last().push(
                                        FrameView { done: above.done.push(registered), ..above },
                                    ),
                                ),
                                versioning: false,
                                ..self
                            },
                        ),
                    )
                },
            }
        }
    }
}

/// The mathematical content of a [`Pending`]: what the resolution is about.
pub enum PendingView {
    /// A schema is looked up at `url`. `requested` is the identifier that was
    /// asked for, if the schema was asked for by one; `expected` is the type
    /// that the schema must have, if it must have one.
    Lookup { url: Seq<char>, requested: Option<u32>, expected: Option<SchemaTypeView> },
    /// A schema is registered, after the references it depends on.
    Register(RegistrationView),
}

/// The mathematical content of a [`Resolution`].
pub enum ResolutionView {
    Pending(PendingView),
    Done(Result<RegisteredSchemaView, SRCErrorView>),
}

impl PendingView {
    /// The invariant of a resolution that waits.
    pub open spec fn well_formed(self) -> bool {
        match self {
            PendingView::Lookup { .. } => true,
            PendingView::Register(registration) => registration.well_formed(),
        }
    }

    /// The request that the resolution waits for.
    pub open spec fn request(self) -> RequestView {
        match self {
            PendingView::Lookup { url, .. } => RequestView { url, body: None },
            PendingView::Register(registration) => registration.request(),
        }
    }

    /// What the reply to the request makes of the resolution.
    pub open spec fn resume(self, reply: ReplyView) -> ResolutionView {
        match self {
            PendingView::Lookup { requested, expected, .. } => ResolutionView::Done(
                checked_type(schema_of_reply(reply, requested), expected),
            ),
            PendingView::Register(registration) => registration.resume(reply),
        }
    }
}

/// The resolution of the schema with an identifier.
pub open spec fn by_id(id: u32, base: Seq<char>) -> ResolutionView {
    ResolutionView::Pending(
        PendingView::Lookup {
            url: schema_by_id_url(base, id),
            requested: Some(id),
            expected: None,
        },
    )
}

/// The resolution of the schema with an identifier, which must be of a type.
pub open spec fn by_id_and_type(
    id: u32,
    base: Seq<char>,
    schema_type: SchemaTypeView,
) -> ResolutionView {
    ResolutionView::Pending(
        PendingView::Lookup {
            url: schema_by_id_url(base, id),
            requested: Some(id),
            expected: Some(schema_type),
        },
    )
}

/// The resolution of the schema that a registered reference points to.
pub open spec fn by_reference(
    base: Seq<char>,
    reference: RegisteredReferenceView,
) -> ResolutionView {
    ResolutionView::Pending(
        PendingView::Lookup {
            url: version_url(base, reference.subject, reference.version),
            requested: None,
            expected: None,
        },
    )
}

/// The resolution that registers a schema under a subject.
pub open spec fn by_registration(
    base: Seq<char>,
    subject: Seq<char>,
    schema: SuppliedSchemaView,
) -> ResolutionView {
    ResolutionView::Pending(
        PendingView::Register(RegistrationView::start(base, subject, schema)),
    )
}

/// The resolution for a strategy. A strategy without a subject is an error at
/// once. A strategy without a schema looks up the latest version of its
/// subject; one with a schema registers it under its subject.
pub open spec fn by_subject(base: Seq<char>, strategy: SubjectNameStrategyView) -> ResolutionView {
    match strategy.subject() {
        Err(error) => ResolutionView::Done(Err(error)),
        Ok(subject) => match strategy.schema() {
            None => ResolutionView::Pending(
                PendingView::Lookup {
                    url: latest_version_url(base, subject),
                    requested: None,
                    expected: None,
                },
            ),
            Some(schema) => by_registration(base, subject, schema),
        },
    }
}

/// Beginning with a reference puts at least its own frame on the stack.
pub proof fn lemma_descend_grows(stack: Seq<FrameView>, reference: SuppliedReferenceView)
    ensures
        descend(stack, reference).len() > stack.len(),
        descend(stack, reference).last().remaining.len() == 0,
        descend(stack, reference).last().done.len() == 0,
    decreases reference,
{
    if reference.references.len() > 0 {
        lemma_descend_grows(stack.push(fresh_frame(reference, 1)), reference.references[0]);
    }
}

/// A resolution that waits keeps its invariant when it goes on, whatever the
/// reply: a registration always has the schema at the bottom of its stack,
/// only a reference waits for a version, and what is posted next has no
/// reference left to register.
pub proof fn lemma_resume_keeps_well_formed(pending: PendingView, reply: ReplyView)
    requires
        pending.well_formed(),
    ensures
        pending.resume(reply) matches ResolutionView::Pending(next) ==> next.well_formed(),
        pending is Lookup ==> pending.resume(reply) is Done,
{
    if let PendingView::Register(registration) = pending {
        if registration.versioning {
            let above = registration.stack[registration.stack.len() - 2];
            let below = registration.stack.drop_last().drop_last();
            if let Ok(version) = version_of_reply(reply) {
                let registered = RegisteredReferenceView {
                    name: registration.stack.last().name,
                    subject: registration.stack.last().subject,
                    version,
                };
                let stack = below.push(FrameView { done: above.done.push(registered), ..above });
                let top = stack.last();
                if top.remaining.len() > 0 {
                    lemma_descend_grows(
                        stack.drop_last().push(
                            FrameView { remaining: top.remaining.drop_first(), ..top },
                        ),
                        top.remaining[0],
                    );
                }
            }
        }
    }
}

/// A registration begins well-formed, and with a request for something that
/// depends on nothing that is not registered yet.
pub proof fn lemma_start_is_well_formed(
    base: Seq<char>,
    subject: Seq<char>,
    schema: SuppliedSchemaView,
)
    ensures
        RegistrationView::start(base, subject, schema).well_formed(),
        RegistrationView::start(base, subject, schema).stack.last().remaining.len() == 0,
        schema.references.len() == 0 ==> RegistrationView::start(base, subject, schema).stack.len()
            == 1,
{
    let bottom = FrameView {
        name: Seq::empty(),
        subject,
        schema: schema.schema,
        remaining: schema.references,
        done: Seq::empty(),
    };
    let stack = seq![bottom];
    if bottom.remaining.len() > 0 {
        let waiting = FrameView { remaining: bottom.remaining.drop_first(), ..bottom };
        lemma_descend_grows(
            stack.drop_last().push(waiting),
            bottom.remaining[0],
        );
    }
}

/// A strategy without a schema only asks the registry for what it has: the
/// resolution is a lookup with a GET. A strategy with a schema has it
/// registered: the resolution is a registration, and what it sends is a POST.
/// A strategy without a subject sends nothing.
pub proof fn lemma_by_subject_kinds(base: Seq<char>, strategy: SubjectNameStrategyView)
    ensures
        strategy.subject() is Err ==> by_subject(base, strategy) == ResolutionView::Done(
            Err(strategy.subject()->Err_0),
        ),
        strategy.subject() is Ok && strategy.schema() is None ==> by_subject(base, strategy)
            is Pending && by_subject(base, strategy)->Pending_0 is Lookup && by_subject(
            base,
            strategy,
        )->Pending_0.request() == (RequestView {
            url: latest_version_url(base, strategy.subject()->Ok_0),
            body: None,
        }),
        strategy.subject() is Ok && strategy.schema() is Some ==> by_subject(base, strategy)
            is Pending && by_subject(base, strategy)->Pending_0 is Register && by_subject(
            base,
            strategy,
        )->Pending_0.request().body is Some && by_subject(base, strategy)->Pending_0.well_formed(),
{
    if strategy.subject() is Ok && strategy.schema() is Some {
        lemma_start_is_well_formed(base, strategy.subject()->Ok_0, strategy.schema()->Some_0);
    }
}

/// Whether a reply tells of a failure of the transport: the request could not
/// be performed, or the status code of the response could not be had.
pub open spec fn is_transport_failure(reply: ReplyView) -> bool {
    reply is Failed || reply is NoStatus
}

/// What a reply amounts to where it is no JSON document: an error that is not
/// marked as cached, and that a retry may mend exactly if the transport
/// failed.
pub proof fn lemma_reply_errors(reply: ReplyView, failure: Seq<char>)
    ensures
        json_of_reply(reply, failure) matches Err(error) ==> !error.cached && (error.retriable
            <==> is_transport_failure(reply)),
        is_transport_failure(reply) ==> json_of_reply(reply, failure) is Err,
        reply matches ReplyView::Failed(cause) ==> json_of_reply(reply, failure) == Err::<
            JsonView,
            SRCErrorView,
        >(SRCErrorView::fresh(failure, Some(cause), true)),
{
}

/// An error that ends a resolution is never marked as cached, and a retry
/// may mend it exactly if the transport failed, whatever the resolution was
/// about and wherever in a registration the failure came up. A failure of the
/// transport always ends the resolution.
pub proof fn lemma_only_transport_failures_are_retriable(pending: PendingView, reply: ReplyView)
    ensures
        pending.resume(reply) matches ResolutionView::Done(Err(error)) ==> !error.cached && (
        error.retriable <==> is_transport_failure(reply)),
        is_transport_failure(reply) ==> pending.resume(reply) is Done && pending.resume(
            reply,
        )->Done_0 is Err && pending.resume(reply)->Done_0->Err_0.retriable,
{
    lemma_reply_errors(reply, "error performing get to schema registry"@);
    lemma_reply_errors(reply, "error performing post to schema registry to get id"@);
    lemma_reply_errors(reply, "error performing post to schema registry to get version"@);
}

/// A request that could not be performed ends every resolution with an error
/// that a retry may mend, with the reason as its cause: for a lookup, for the
/// schema of a registration and for every reference of it alike.
pub proof fn lemma_failed_request_is_retriable(pending: PendingView, cause: Seq<char>)
    ensures
        pending.resume(ReplyView::Failed(cause)) is Done,
        pending.resume(ReplyView::Failed(cause))->Done_0 is Err,
        ({
            let error = pending.resume(ReplyView::Failed(cause))->Done_0->Err_0;
            &&& error.retriable
            &&& !error.cached
            &&& error.cause == Some(cause)
        }),
{
}

/// A response with another status code than 200 ends every resolution with an
/// error that no retry mends, that is not marked as cached, that has no other
/// cause, and whose message names the status code: for a lookup, for the
/// schema of a registration and for every reference of it alike.
pub proof fn lemma_other_status_is_final(pending: PendingView, status: u32, body: Seq<u8>)
    requires
        status != 200,
    ensures
        pending.resume(ReplyView::Received(status, body)) == ResolutionView::Done(
            Err(SRCErrorView::fresh(status_message(status), None, false)),
        ),
        occurs_in(decimal(status as nat), status_message(status)),
{
    lemma_occurs_in_middle(
        decimal(status as nat),
        "Did not get a 200 response code but "@,
        " instead"@,
    );
}

} // verus!
