//! What a registration amounts to as a whole: every reference is registered
//! after the references it depends on and before what depends on it, and the
//! first failure ends it all and is the outcome as it is. The steps of a resolution are proved to do just
//! that.

use super::envelope::{body_text, id_of_reply, version_of_reply};
use super::error::SRCErrorView;
use super::http::{subject_url, versions_url, ReplyView, RequestView};
use super::resolution::{
    by_registration, descend, fresh_frame, settle, FrameView, PendingView,
    RegistrationView, ResolutionView,
};
use super::schema::{
    RegisteredReferenceView, RegisteredSchemaView, SchemaTypeView, SuppliedReferenceView,
    SuppliedSchemaView,
};
use vstd::prelude::*;

verus! {

/// The request that posts a schema text with its registered references, to
/// be registered under a subject.
pub open spec fn id_request(
    base: Seq<char>,
    label: Seq<char>,
    subject: Seq<char>,
    schema: Seq<char>,
    references: Seq<RegisteredReferenceView>,
) -> RequestView {
    RequestView {
        url: versions_url(base, subject),
        body: Some(body_text(label, schema, references)),
    }
}

/// The request that posts the same body again, to learn the version under the
/// subject.
pub open spec fn version_request(
    base: Seq<char>,
    label: Seq<char>,
    subject: Seq<char>,
    schema: Seq<char>,
    references: Seq<RegisteredReferenceView>,
) -> RequestView {
    RequestView {
        url: subject_url(base, subject),
        body: Some(body_text(label, schema, references)),
    }
}

/// Registers a reference, with the registry given as the reply it has for a
/// request that is sent as number `at`. The references it depends on come
/// first; the failure of one of them is the failure of the reference, as it
/// is. Then the reference is posted for its identifier, then for its version.
/// The outcome comes with the number of the next request.
pub open spec fn register_reference(
    base: Seq<char>,
    label: Seq<char>,
    reference: SuppliedReferenceView,
    registry: spec_fn(RequestView, nat) -> ReplyView,
    at: nat,
) -> (Result<RegisteredReferenceView, SRCErrorView>, nat)
    decreases reference,
{
    let (below, next) = register_all(base, label, reference.references, registry, at);
    match below {
        Err(error) => (Err(error), next),
        Ok(registered) => match id_of_reply(
            registry(
                id_request(base, label, reference.subject, reference.schema, registered),
                next,
            ),
        ) {
            Err(error) => (Err(error), next + 1),
            Ok(_) => match version_of_reply(
                registry(
                    version_request(
                        base,
                        label,
                        reference.subject,
                        reference.schema,
                        registered,
                    ),
                    next + 1,
                ),
            ) {
                Err(error) => (Err(error), next + 2),
                Ok(version) => (
                    Ok(
                        RegisteredReferenceView {
                            name: reference.name,
                            subject: reference.subject,
                            version,
                        },
                    ),
                    next + 2,
                ),
            },
        },
    }
}

/// Registers references one after the other, up to the first that fails. The
/// outcome comes with the number of the next request.
pub open spec fn register_all(
    base: Seq<char>,
    label: Seq<char>,
    references: Seq<SuppliedReferenceView>,
    registry: spec_fn(RequestView, nat) -> ReplyView,
    at: nat,
) -> (Result<Seq<RegisteredReferenceView>, SRCErrorView>, nat)
    decreases references,
{
    if references.len() == 0 {
        (Ok(Seq::empty()), at)
    } else {
        let (first, next) = register_reference(base, label, references[0], registry, at);
        match first {
            Err(error) => (Err(error), next),
            Ok(registered) => {
                let (rest, last) = register_all(
                    base,
                    label,
                    references.drop_first(),
                    registry,
                    next,
                );
                match rest {
                    Err(error) => (Err(error), last),
                    Ok(others) => (Ok(seq![registered] + others), last),
                }
            },
        }
    }
}

/// Registers a schema under a subject: its references first, whose failure is
/// the failure of the registration, as it is; then the schema itself, for its
/// identifier. The outcome comes with the number of requests that were sent.
pub open spec fn register_schema(
    base: Seq<char>,
    subject: Seq<char>,
    schema: SuppliedSchemaView,
    registry: spec_fn(RequestView, nat) -> ReplyView,
) -> (Result<RegisteredSchemaView, SRCErrorView>, nat) {
    let label = schema.schema_type.name();
    let (below, next) = register_all(base, label, schema.references, registry, 0);
    match below {
        Err(error) => (Err(error), next),
        Ok(registered) => match id_of_reply(
            registry(id_request(base, label, subject, schema.schema, registered), next),
        ) {
            Err(error) => (Err(error), next + 1),
            Ok(id) => (
                Ok(
                    RegisteredSchemaView {
                        id,
                        schema_type: schema.schema_type,
                        schema: schema.schema,
                        references: registered,
                    },
                ),
                next + 1,
            ),
        },
    }
}

/// One step of a resolution against a registry: the request is sent as number
/// `at`, and the resolution goes on with the reply. A resolution that is done
/// stays as it is.
pub open spec fn step(
    resolution: ResolutionView,
    registry: spec_fn(RequestView, nat) -> ReplyView,
    at: nat,
) -> ResolutionView {
    match resolution {
        ResolutionView::Done(_) => resolution,
        ResolutionView::Pending(pending) => pending.resume(registry(pending.request(), at)),
    }
}

/// So many steps of a resolution against a registry, the first with request
/// number `at`.
pub open spec fn run(
    resolution: ResolutionView,
    registry: spec_fn(RequestView, nat) -> ReplyView,
    at: nat,
    steps: nat,
) -> ResolutionView
    decreases steps,
{
    if steps == 0 {
        resolution
    } else {
        run(step(resolution, registry, at), registry, at + 1, (steps - 1) as nat)
    }
}

/// A registration that waits with this stack.
pub open spec fn registering(
    base: Seq<char>,
    schema_type: SchemaTypeView,
    stack: Seq<FrameView>,
    versioning: bool,
) -> ResolutionView {
    ResolutionView::Pending(
        PendingView::Register(RegistrationView { base, schema_type, stack, versioning }),
    )
}

/// One step is a run of one step.
pub proof fn lemma_step_is_run(
    resolution: ResolutionView,
    registry: spec_fn(RequestView, nat) -> ReplyView,
    at: nat,
)
    ensures
        run(resolution, registry, at, 1) == step(resolution, registry, at),
{
    assert(run(step(resolution, registry, at), registry, at + 1, 0) == step(
        resolution,
        registry,
        at,
    ));
}

/// Steps add up.
pub proof fn lemma_run_add(
    resolution: ResolutionView,
    registry: spec_fn(RequestView, nat) -> ReplyView,
    at: nat,
    first: nat,
    then: nat,
)
    ensures
        run(resolution, registry, at, first + then) == run(
            run(resolution, registry, at, first),
            registry,
            at + first,
            then,
        ),
    decreases first,
{
    if first > 0 {
        lemma_run_add(
            step(resolution, registry, at),
            registry,
            at + 1,
            (first - 1) as nat,
            then,
        );
    }
}

/// A resolution that is done stays as it is, however many steps follow.
pub proof fn lemma_run_done(
    resolution: ResolutionView,
    registry: spec_fn(RequestView, nat) -> ReplyView,
    at: nat,
    steps: nat,
)
    requires
        resolution is Done,
    ensures
        run(resolution, registry, at, steps) == resolution,
    decreases steps,
{
    if steps > 0 {
        lemma_run_done(resolution, registry, at + 1, (steps - 1) as nat);
    }
}

/// Whether a resolution still waits after each number of steps below
/// `steps`: it sends a request in every one of so many steps.
pub open spec fn waits_before(
    resolution: ResolutionView,
    registry: spec_fn(RequestView, nat) -> ReplyView,
    at: nat,
    steps: nat,
) -> bool {
    forall|k: nat| k < steps ==> (#[trigger] run(resolution, registry, at, k)) is Pending
}

/// A resolution that waits through some steps, and after them through some
/// more, waits through all of them.
pub proof fn lemma_waits_add(
    resolution: ResolutionView,
    registry: spec_fn(RequestView, nat) -> ReplyView,
    at: nat,
    first: nat,
    then: nat,
)
    requires
        waits_before(resolution, registry, at, first),
        waits_before(run(resolution, registry, at, first), registry, at + first, then),
    ensures
        waits_before(resolution, registry, at, first + then),
{
    assert forall|k: nat| k < first + then implies (#[trigger] run(resolution, registry, at, k))
        is Pending by {
        if k >= first {
            lemma_run_add(resolution, registry, at, first, (k - first) as nat);
        }
    }
}

/// A resolution that waits does so before its next step.
pub proof fn lemma_waits_once(
    resolution: ResolutionView,
    registry: spec_fn(RequestView, nat) -> ReplyView,
    at: nat,
)
    requires
        resolution is Pending,
    ensures
        waits_before(resolution, registry, at, 1),
{
}

/// To begin with a reference is to put its frame on the stack and to go on
/// from there.
proof fn lemma_descend_is_settle(stack: Seq<FrameView>, reference: SuppliedReferenceView)
    ensures
        descend(stack, reference) == settle(stack.push(fresh_frame(reference, 0))),
{
    let frame = fresh_frame(reference, 0);
    assert(stack.push(frame).drop_last() =~= stack);
    assert(frame.remaining =~= reference.references);
}

/// The steps that register the references which a frame still has to
/// register do what [`register_all`] says: they leave the frame with those
/// references registered and nothing more to register, or they end with the
/// first failure.
proof fn lemma_run_references(
    base: Seq<char>,
    schema_type: SchemaTypeView,
    registry: spec_fn(RequestView, nat) -> ReplyView,
    below: Seq<FrameView>,
    frame: FrameView,
    at: nat,
)
    ensures
        ({
            let (outcome, next) = register_all(
                base,
                schema_type.name(),
                frame.remaining,
                registry,
                at,
            );
            &&& next >= at
            &&& waits_before(
                registering(base, schema_type, settle(below.push(frame)), false),
                registry,
                at,
                (next - at) as nat,
            )
            &&& run(
                registering(base, schema_type, settle(below.push(frame)), false),
                registry,
                at,
                (next - at) as nat,
            ) == match outcome {
                Ok(registered) => registering(
                    base,
                    schema_type,
                    below.push(
                        FrameView {
                            remaining: Seq::empty(),
                            done: frame.done + registered,
                            ..frame
                        },
                    ),
                    false,
                ),
                Err(error) => ResolutionView::Done(Err(error)),
            }
        }),
    decreases frame.remaining, 1nat,
{
    let label = schema_type.name();
    let stack = below.push(frame);
    assert(stack.drop_last() =~= below);
    if frame.remaining.len() == 0 {
        assert(frame.remaining =~= Seq::empty());
    } else {
        let first = frame.remaining[0];
        let waiting = FrameView { remaining: frame.remaining.drop_first(), ..frame };
        let under = below.push(waiting);
        let (one, next) = register_reference(base, label, first, registry, at);
        lemma_run_reference(base, schema_type, registry, under, first, at);
        assert(under.drop_last() =~= below);
        let start = registering(base, schema_type, settle(stack), false);
        if let Ok(registered) = one {
            let advanced = FrameView { done: waiting.done.push(registered), ..waiting };
            let (rest, last) = register_all(
                base,
                label,
                frame.remaining.drop_first(),
                registry,
                next,
            );
            lemma_run_references(base, schema_type, registry, below, advanced, next);
            lemma_run_add(start, registry, at, (next - at) as nat, (last - next) as nat);
            lemma_waits_add(start, registry, at, (next - at) as nat, (last - next) as nat);
            if let Ok(others) = rest {
                assert(advanced.done + others =~= frame.done + (seq![registered] + others));
            }
        }
    }
}

/// The steps that begin with a reference do what [`register_reference`] says:
/// they leave the reference registered for the frame above it, which goes on,
/// or they end with the failure.
proof fn lemma_run_reference(
    base: Seq<char>,
    schema_type: SchemaTypeView,
    registry: spec_fn(RequestView, nat) -> ReplyView,
    below: Seq<FrameView>,
    reference: SuppliedReferenceView,
    at: nat,
)
    requires
        below.len() >= 1,
    ensures
        ({
            let (outcome, next) = register_reference(
                base,
                schema_type.name(),
                reference,
                registry,
                at,
            );
            let above = below.last();
            &&& next >= at
            &&& waits_before(
                registering(base, schema_type, descend(below, reference), false),
                registry,
                at,
                (next - at) as nat,
            )
            &&& run(
                registering(base, schema_type, descend(below, reference), false),
                registry,
                at,
                (next - at) as nat,
            ) == match outcome {
                Ok(registered) => registering(
                    base,
                    schema_type,
                    settle(
                        below.drop_last().push(
                            FrameView { done: above.done.push(registered), ..above },
                        ),
                    ),
                    false,
                ),
                Err(error) => ResolutionView::Done(Err(error)),
            }
        }),
    decreases reference, 0nat,
{
    let label = schema_type.name();
    let frame = fresh_frame(reference, 0);
    assert(frame.remaining =~= reference.references);
    lemma_descend_is_settle(below, reference);
    let start = registering(base, schema_type, descend(below, reference), false);
    let (inner, next) = register_all(base, label, reference.references, registry, at);
    lemma_run_references(base, schema_type, registry, below, frame, at);
    let after = run(start, registry, at, (next - at) as nat);
    if let Ok(registered) = inner {
        // The references are registered: the reference itself is posted for
        // its identifier.
        let ready = FrameView { remaining: Seq::empty(), done: frame.done + registered, ..frame };
        let stack = below.push(ready);
        let posted = step(after, registry, next);
        let id_reply = registry(
            id_request(base, label, reference.subject, reference.schema, registered),
            next,
        );
        lemma_step_is_run(after, registry, next);
        lemma_run_add(start, registry, at, (next - at) as nat, 1);
        lemma_waits_once(after, registry, next);
        lemma_waits_add(start, registry, at, (next - at) as nat, 1);
        if id_of_reply(id_reply) is Ok {
            // It has its identifier: it is posted again for its version.
            lemma_step_is_run(posted, registry, next + 1);
            lemma_run_add(start, registry, at, (next + 1 - at) as nat, 1);
            lemma_waits_once(posted, registry, next + 1);
            lemma_waits_add(start, registry, at, (next + 1 - at) as nat, 1);
            assert(stack.drop_last().drop_last() =~= below.drop_last());
        }
    }
}

/// The steps of a registration do what [`register_schema`] says, whatever the
/// registry replies: the resolution sends as many requests as the definition
/// has, each of them as the definition has it, and is then done with the same
/// outcome.
pub proof fn lemma_registration_follows_the_definition(
    base: Seq<char>,
    subject: Seq<char>,
    schema: SuppliedSchemaView,
    registry: spec_fn(RequestView, nat) -> ReplyView,
)
    ensures
        ({
            let (outcome, sent) = register_schema(base, subject, schema, registry);
            &&& waits_before(by_registration(base, subject, schema), registry, 0, sent)
            &&& run(by_registration(base, subject, schema), registry, 0, sent)
                == ResolutionView::Done(outcome)
        }),
{
    let label = schema.schema_type.name();
    let bottom = FrameView {
        name: Seq::empty(),
        subject,
        schema: schema.schema,
        remaining: schema.references,
        done: Seq::empty(),
    };
    let none = Seq::<FrameView>::empty();
    let start = by_registration(base, subject, schema);
    let (inner, next) = register_all(base, label, schema.references, registry, 0);
    lemma_run_references(base, schema.schema_type, registry, none, bottom, 0);
    let after = run(start, registry, 0, next);
    if let Ok(registered) = inner {
        // The references are registered: the schema itself is posted.
        let ready = FrameView { remaining: Seq::empty(), done: bottom.done + registered, ..bottom };
        assert(none.push(ready).len() == 1);
        lemma_step_is_run(after, registry, next);
        lemma_run_add(start, registry, 0, next, 1);
        lemma_waits_once(after, registry, next);
        lemma_waits_add(start, registry, 0, next, 1);
    }
}

} // verus!
