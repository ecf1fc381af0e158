//! The way from a naming strategy to the bytes of a record: the schema of
//! the strategy comes out of the cache or from the registry, where a strategy
//! that carries a schema has it registered, and its identifier is framed with
//! the encoded message.
//!
//! An encoder runs one resolution at a time. While it waits for the registry
//! it is busy for every other strategy.

use super::cache::{admitted, SchemaCache, SchemaCacheView};
use super::error::{SRCError, SRCErrorView};
use super::http::{Reply, ReplyView, Request, RequestView};
use super::registry::{Pending, Resolution};
use super::resolution::{PendingView, ResolutionView};
use super::schema::{RegisteredSchema, RegisteredSchemaView};
use super::subject::{SubjectNameStrategy, SubjectNameStrategyView};
use super::wire::{get_payload, payload_of};
use vstd::prelude::*;

verus! {

/// What an encoder has to say after a step.
#[derive(Debug)]
pub enum Encoding {
    /// The encoder waits for the registry on behalf of another strategy:
    /// come back later.
    Busy,
    /// Nothing is under way that a reply could be for.
    Idle,
    /// The encoder waits for the reply to its request.
    Waiting,
    /// The schema to encode with, and to frame the encoded message with.
    Ready(RegisteredSchema),
    /// The schema could not be had.
    Failed(SRCError),
}

/// The mathematical content of an [`Encoding`].
pub enum EncodingView {
    Busy,
    Idle,
    Waiting,
    Ready(RegisteredSchemaView),
    Failed(SRCErrorView),
}

impl View for Encoding {
    type V = EncodingView;

    open spec fn view(&self) -> EncodingView {
        match self {
            Encoding::Busy => EncodingView::Busy,
            Encoding::Idle => EncodingView::Idle,
            Encoding::Waiting => EncodingView::Waiting,
            Encoding::Ready(schema) => EncodingView::Ready(schema@),
            Encoding::Failed(error) => EncodingView::Failed(error@),
        }
    }
}

/// The strategy that an encoder waits for the registry for.
pub struct ResolvingView {
    pub strategy: SubjectNameStrategyView,
    pub pending: PendingView,
}

/// The mathematical content of an [`Encoder`].
pub struct EncoderView {
    pub schema_registry_url: Seq<char>,
    pub cache: SchemaCacheView,
    pub running: Option<ResolvingView>,
}

/// What the outcome of a resolution means for the encoder's caller.
pub open spec fn encoding_of(outcome: Result<RegisteredSchemaView, SRCErrorView>) -> EncodingView {
    match outcome {
        Ok(schema) => EncodingView::Ready(schema),
        Err(error) => EncodingView::Failed(error),
    }
}

impl EncoderView {
    /// The request that the encoder waits for, if it waits.
    pub open spec fn request(self) -> Option<RequestView> {
        match self.running {
            Some(running) => Some(running.pending.request()),
            None => None,
        }
    }

    /// Takes up a strategy. An encoder that waits for the registry is busy
    /// and stays as it is. Else the schema comes out of the cache, or the
    /// strategy has no subject, or the encoder begins to wait for the
    /// registry.
    pub open spec fn begin(self, strategy: SubjectNameStrategyView) -> (EncoderView, EncodingView) {
        if self.running is Some {
            (self, EncodingView::Busy)
        } else {
            match self.cache.resolve_by_subject(self.schema_registry_url, strategy) {
                ResolutionView::Done(outcome) => (self, encoding_of(outcome)),
                ResolutionView::Pending(pending) => (
                    EncoderView { running: Some(ResolvingView { strategy, pending }), ..self },
                    EncodingView::Waiting,
                ),
            }
        }
    }

    /// Goes on with the reply to the request. Where that ends the resolution,
    /// the cache keeps the outcome, and the encoder is free again.
    pub open spec fn resume(self, reply: ReplyView) -> (EncoderView, EncodingView) {
        match self.running {
            None => (self, EncodingView::Idle),
            Some(running) => match running.pending.resume(reply) {
                ResolutionView::Pending(pending) => (
                    EncoderView { running: Some(ResolvingView { pending, ..running }), ..self },
                    EncodingView::Waiting,
                ),
                ResolutionView::Done(outcome) => (
                    EncoderView {
                        cache: self.cache.complete_by_subject(running.strategy, outcome),
                        running: None,
                        ..self
                    },
                    encoding_of(outcome),
                ),
            },
        }
    }
}

struct Resolving {
    strategy: SubjectNameStrategy,
    pending: Pending,
}

/// An encoder for the records of one registry. It owns its cache, and it runs
/// one resolution at a time.
pub struct Encoder {
    schema_registry_url: String,
    cache: SchemaCache,
    running: Option<Resolving>,
}

impl View for Encoder {
    type V = EncoderView;

    closed spec fn view(&self) -> EncoderView {
        EncoderView {
            schema_registry_url: self.schema_registry_url@,
            cache: self.cache@,
            running: match self.running {
                Some(running) => Some(
                    ResolvingView { strategy: running.strategy@, pending: running.pending@ },
                ),
                None => None,
            },
        }
    }
}

impl Encoder {
    /// An encoder for the registry at an address, with nothing under way and
    /// with an empty cache that keeps every outcome.
    pub fn new(schema_registry_url: &str) -> (encoder: Encoder)
        ensures
            encoder@ == (EncoderView {
                schema_registry_url: schema_registry_url@,
                cache: SchemaCacheView::empty(true),
                running: None,
            }),
    {
        Encoder::with_cache(schema_registry_url, SchemaCache::new())
    }

    /// An encoder for the registry at an address, with nothing under way and
    /// with a cache of its own.
    pub fn with_cache(schema_registry_url: &str, cache: SchemaCache) -> (encoder: Encoder)
        ensures
            encoder@ == (EncoderView {
                schema_registry_url: schema_registry_url@,
                cache: cache@,
                running: None,
            }),
    {
        Encoder { schema_registry_url: String::from_str(schema_registry_url), cache, running: None }
    }

    /// The request to perform, if the encoder waits for one.
    pub fn request(&self) -> (request: Option<&Request>)
        ensures
            match request {
                Some(r) => self@.request() == Some(r@),
                None => self@.request() is None,
            },
    {
        match &self.running {
            Some(running) => Some(running.pending.request()),
            None => None,
        }
    }

    /// Takes up a strategy, to have the schema to encode with.
    pub fn begin(&mut self, subject_name_strategy: &SubjectNameStrategy) -> (encoding: Encoding)
        ensures
            (final(self)@, encoding@) == old(self)@.begin(subject_name_strategy@),
    {
        if self.running.is_some() {
            return Encoding::Busy;
        }
        match self.cache.resolve_by_subject(
            self.schema_registry_url.as_str(),
            subject_name_strategy,
        ) {
            Resolution::Done(Ok(schema)) => Encoding::Ready(schema),
            Resolution::Done(Err(error)) => Encoding::Failed(error),
            Resolution::Pending(pending) => {
                self.running = Some(Resolving { strategy: subject_name_strategy.clone(), pending });
                Encoding::Waiting
            },
        }
    }

    /// Goes on with the reply to the request of [`Encoder::request`].
    pub fn resume(&mut self, reply: Reply) -> (encoding: Encoding)
        ensures
            (final(self)@, encoding@) == old(self)@.resume(reply@),
    {
        match self.running.take() {
            None => Encoding::Idle,
            Some(running) => {
                let Resolving { strategy, pending } = running;
                match pending.resume(reply) {
                    Resolution::Pending(next) => {
                        self.running = Some(Resolving { strategy, pending: next });
                        Encoding::Waiting
                    },
                    Resolution::Done(outcome) => match self.cache.complete_by_subject(
                        &strategy,
                        outcome,
                    ) {
                        Ok(schema) => Encoding::Ready(schema),
                        Err(error) => Encoding::Failed(error),
                    },
                }
            },
        }
    }
}

/// The bytes of a record for a message that was encoded with a schema: the
/// header with the identifier of the schema, then the message.
pub fn frame(schema: &RegisteredSchema, encoded_bytes: Vec<u8>) -> (payload: Vec<u8>)
    ensures
        payload@ == payload_of(schema@.id, encoded_bytes@),
{
    get_payload(schema.id, encoded_bytes)
}

/// While an encoder waits for the registry, it takes up no other strategy: it
/// is busy, and it stays as it is. So at most one resolution is under way for
/// an encoder, and at most one for every strategy.
pub proof fn lemma_one_registration_at_a_time(
    encoder: EncoderView,
    strategy: SubjectNameStrategyView,
)
    requires
        encoder.running is Some,
    ensures
        encoder.begin(strategy) == (encoder, EncodingView::Busy),
        encoder.request() is Some,
{
}

/// When the last reply has ended the resolution for a strategy, the encoder
/// is free, and the same strategy is served from the cache at once: with the
/// same schema, or with the same error, which is now marked as cached. Only
/// where the cache was made not to keep errors that a retry may mend, the
/// strategy is resolved anew after such an error.
pub proof fn lemma_resolved_strategy_is_served_from_cache(encoder: EncoderView, reply: ReplyView)
    requires
        encoder.running is Some,
        encoder.running->Some_0.strategy.subject() is Ok,
        encoder.running->Some_0.pending.resume(reply) is Done,
    ensures
        ({
            let strategy = encoder.running->Some_0.strategy;
            let outcome = encoder.running->Some_0.pending.resume(reply)->Done_0;
            let (free, first) = encoder.resume(reply);
            let (after, second) = free.begin(strategy);
            &&& free.running is None
            &&& first == encoding_of(outcome)
            &&& encoder.cache.keeps(outcome) ==> after == free && second == encoding_of(
                admitted(outcome),
            )
            &&& outcome is Ok ==> second == first
            &&& !encoder.cache.keeps(outcome) ==> free.cache == encoder.cache
        }),
{
}

} // verus!
