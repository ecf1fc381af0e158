//! The way of the bytes of a record to the schema they were written with: the
//! header is read, the schema comes out of the cache or from the registry, and
//! schema and message are handed out to be decoded.
//!
//! A decoder runs one such way at a time. While it waits for the registry it
//! is busy for every other record, also for one with another identifier: the
//! cache makes the repeated records cheap, and one resolution at a time keeps
//! the decoder simple. Several decoders do not know of each other; each has a
//! cache of its own. A record that was taken up cannot be given up: the
//! decoder is free again when the registry has replied.

use super::cache::{SchemaCache, SchemaCacheView};
use super::error::{SRCError, SRCErrorView};
use super::http::{Reply, ReplyView, Request, RequestView};
use super::registry::{Pending, Resolution};
use super::resolution::{PendingView, ResolutionView};
use super::schema::{RegisteredSchema, RegisteredSchemaView};
use super::wire::{bytes_result_of, get_bytes_result, BytesResult, BytesResultView};
use vstd::prelude::*;

verus! {

/// What a decoder has to say after a step.
#[derive(Debug)]
pub enum Decoding {
    /// There were no bytes.
    Null,
    /// The bytes have no header with a message behind it; here they are.
    Invalid(Vec<u8>),
    /// The decoder waits for the registry on behalf of another record: come
    /// back later.
    Busy,
    /// Nothing is under way that a reply could be for.
    Idle,
    /// The decoder waits for the reply to its request.
    Waiting,
    /// The schema of the record, and the message to decode with it.
    Ready(RegisteredSchema, Vec<u8>),
    /// The schema of the record could not be had.
    Failed(SRCError),
}

/// The mathematical content of a [`Decoding`].
pub enum DecodingView {
    Null,
    Invalid(Seq<u8>),
    Busy,
    Idle,
    Waiting,
    Ready(RegisteredSchemaView, Seq<u8>),
    Failed(SRCErrorView),
}

impl View for Decoding {
    type V = DecodingView;

    open spec fn view(&self) -> DecodingView {
        match self {
            Decoding::Null => DecodingView::Null,
            Decoding::Invalid(raw) => DecodingView::Invalid(raw@),
            Decoding::Busy => DecodingView::Busy,
            Decoding::Idle => DecodingView::Idle,
            Decoding::Waiting => DecodingView::Waiting,
            Decoding::Ready(schema, message) => DecodingView::Ready(schema@, message@),
            Decoding::Failed(error) => DecodingView::Failed(error@),
        }
    }
}

/// The record that a decoder waits for the registry for.
pub struct RunningView {
    pub id: u32,
    pub message: Seq<u8>,
    pub pending: PendingView,
}

/// The mathematical content of a [`Decoder`].
pub struct DecoderView {
    pub schema_registry_url: Seq<char>,
    pub cache: SchemaCacheView,
    pub running: Option<RunningView>,
}

/// What an outcome for a record's schema means for the record.
pub open spec fn decoding_of(
    outcome: Result<RegisteredSchemaView, SRCErrorView>,
    message: Seq<u8>,
) -> DecodingView {
    match outcome {
        Ok(schema) => DecodingView::Ready(schema, message),
        Err(error) => DecodingView::Failed(error),
    }
}

impl DecoderView {
    /// The request that the decoder waits for, if it waits.
    pub open spec fn request(self) -> Option<RequestView> {
        match self.running {
            Some(running) => Some(running.pending.request()),
            None => None,
        }
    }

    /// Takes up the bytes of a record. A decoder that waits for the registry
    /// is busy and stays as it is. Else the header is read; for valid bytes
    /// the schema comes out of the cache, or the decoder begins to wait for
    /// the registry.
    pub open spec fn begin(self, bytes: Option<Seq<u8>>) -> (DecoderView, DecodingView) {
        if self.running is Some {
            (self, DecodingView::Busy)
        } else {
            match bytes_result_of(bytes) {
                BytesResultView::Null => (self, DecodingView::Null),
                BytesResultView::Invalid(raw) => (self, DecodingView::Invalid(raw)),
                BytesResultView::Valid(id, message) => match self.cache.resolve_by_id(
                    id,
                    self.schema_registry_url,
                ) {
                    ResolutionView::Done(outcome) => (self, decoding_of(outcome, message)),
                    ResolutionView::Pending(pending) => (
                        DecoderView { running: Some(RunningView { id, message, pending }), ..self },
                        DecodingView::Waiting,
                    ),
                },
            }
        }
    }

    /// Goes on with the reply to the request. Where that ends the resolution,
    /// the cache keeps the outcome, and the decoder is free again.
    pub open spec fn resume(self, reply: ReplyView) -> (DecoderView, DecodingView) {
        match self.running {
            None => (self, DecodingView::Idle),
            Some(running) => match running.pending.resume(reply) {
                ResolutionView::Pending(pending) => (
                    DecoderView { running: Some(RunningView { pending, ..running }), ..self },
                    DecodingView::Waiting,
                ),
                ResolutionView::Done(outcome) => (
                    DecoderView {
                        cache: self.cache.complete_by_id(running.id, outcome),
                        running: None,
                        ..self
                    },
                    decoding_of(outcome, running.message),
                ),
            },
        }
    }
}

struct Running {
    id: u32,
    message: Vec<u8>,
    pending: Pending,
}

/// A decoder for the records of one registry. It owns its cache, and it runs
/// one resolution at a time.
pub struct Decoder {
    schema_registry_url: String,
    cache: SchemaCache,
    running: Option<Running>,
}

impl View for Decoder {
    type V = DecoderView;

    closed spec fn view(&self) -> DecoderView {
        DecoderView {
            schema_registry_url: self.schema_registry_url@,
            cache: self.cache@,
            running: match self.running {
                Some(running) => Some(
                    RunningView {
                        id: running.id,
                        message: running.message@,
                        pending: running.pending@,
                    },
                ),
                None => None,
            },
        }
    }
}

impl Decoder {
    /// A decoder for the registry at an address, with nothing under way and
    /// with an empty cache that keeps every outcome.
    pub fn new(schema_registry_url: &str) -> (decoder: Decoder)
        ensures
            decoder@ == (DecoderView {
                schema_registry_url: schema_registry_url@,
                cache: SchemaCacheView::empty(true),
                running: None,
            }),
    {
        Decoder::with_cache(schema_registry_url, SchemaCache::new())
    }

    /// A decoder for the registry at an address, with nothing under way and
    /// with a cache of its own.
    pub fn with_cache(schema_registry_url: &str, cache: SchemaCache) -> (decoder: Decoder)
        ensures
            decoder@ == (DecoderView {
                schema_registry_url: schema_registry_url@,
                cache: cache@,
                running: None,
            }),
    {
        Decoder { schema_registry_url: String::from_str(schema_registry_url), cache, running: None }
    }

    /// The request to perform, if the decoder waits for one.
    pub fn request(&self) -> (request: Option<&Request>)
        ensures
            match request {
                Some(r) => self@.request() == Some(r@),
                None => self@.request() is None,
            },
    {
        match &self.running {
            Some(running) => Some(running.pending.request()),
            None => None,
        }
    }

    /// Takes up the bytes of the key or value of a record.
    pub fn begin(&mut self, bytes: Option<&[u8]>) -> (decoding: Decoding)
        ensures
            (final(self)@, decoding@) == old(self)@.begin(
                match bytes {
                    Some(b) => Some(b@),
                    None => None,
                },
            ),
    {
        if self.running.is_some() {
            return Decoding::Busy;
        }
        match get_bytes_result(bytes) {
            BytesResult::Null => Decoding::Null,
            BytesResult::Invalid(raw) => Decoding::Invalid(raw),
            BytesResult::Valid(id, message) => {
                match self.cache.resolve_by_id(id, self.schema_registry_url.as_str()) {
                    Resolution::Done(Ok(schema)) => Decoding::Ready(schema, message),
                    Resolution::Done(Err(error)) => Decoding::Failed(error),
                    Resolution::Pending(pending) => {
                        self.running = Some(Running { id, message, pending });
                        Decoding::Waiting
                    },
                }
            },
        }
    }

    /// Goes on with the reply to the request of [`Decoder::request`].
    pub fn resume(&mut self, reply: Reply) -> (decoding: Decoding)
        ensures
            (final(self)@, decoding@) == old(self)@.resume(reply@),
    {
        match self.running.take() {
            None => Decoding::Idle,
            Some(running) => {
                let Running { id, message, pending } = running;
                match pending.resume(reply) {
                    Resolution::Pending(next) => {
                        self.running = Some(Running { id, message, pending: next });
                        Decoding::Waiting
                    },
                    Resolution::Done(outcome) => match self.cache.complete_by_id(id, outcome) {
                        Ok(schema) => Decoding::Ready(schema, message),
                        Err(error) => Decoding::Failed(error),
                    },
                }
            },
        }
    }
}

/// While a decoder waits for the registry, it takes up no other record: it is
/// busy, and it stays as it is. So at most one resolution is under way for a
/// decoder, and at most one for every identifier.
pub proof fn lemma_one_resolution_at_a_time(decoder: DecoderView, bytes: Option<Seq<u8>>)
    requires
        decoder.running is Some,
    ensures
        decoder.begin(bytes) == (decoder, DecodingView::Busy),
        decoder.request() is Some,
{
}

/// A decoder that is free sends a request only for valid bytes whose
/// identifier the cache holds nothing for; for all other bytes it stays free,
/// and its cache stays as it is.
pub proof fn lemma_begin_waits_only_for_a_miss(decoder: DecoderView, bytes: Option<Seq<u8>>)
    requires
        decoder.running is None,
    ensures
        decoder.begin(bytes).1 is Waiting <==> bytes_result_of(bytes) is Valid
            && !decoder.cache.by_id.contains_key(bytes_result_of(bytes)->Valid_0),
        !(decoder.begin(bytes).1 is Waiting) ==> decoder.begin(bytes).0 == decoder,
        decoder.begin(bytes).0.cache == decoder.cache,
        !(decoder.begin(bytes).1 is Busy),
        !(decoder.begin(bytes).1 is Idle),
{
}

/// Two records with one identifier in a row, on a decoder that is free and
/// holds nothing for the identifier, send one request. The first record waits
/// for the reply and comes to an end with it, which frees the decoder. The
/// second comes to its end at once: with the same schema, or with the same
/// error, which is now marked as cached. Only where the cache was made not to
/// keep errors that a retry may mend, the second record asks again after such
/// an error.
pub proof fn lemma_second_record_is_served_from_cache(
    decoder: DecoderView,
    id: u32,
    first: Seq<u8>,
    second: Seq<u8>,
    reply: ReplyView,
)
    requires
        decoder.running is None,
        !decoder.cache.by_id.contains_key(id),
        bytes_result_of(Some(first)) is Valid,
        bytes_result_of(Some(first))->Valid_0 == id,
        bytes_result_of(Some(second)) is Valid,
        bytes_result_of(Some(second))->Valid_0 == id,
    ensures
        decoder.begin(Some(first)).1 is Waiting,
        ({
            let waiting = decoder.begin(Some(first)).0;
            let (free, one) = waiting.resume(reply);
            let (after, two) = free.begin(Some(second));
            &&& free.running is None
            &&& !(two is Waiting) ==> after == free
            &&& one matches DecodingView::Ready(schema, message) ==> two == DecodingView::Ready(
                schema,
                bytes_result_of(Some(second))->Valid_1,
            ) && message == bytes_result_of(Some(first))->Valid_1
            &&& one is Failed && (decoder.cache.keep_retriable || !one->Failed_0.retriable)
                ==> two == DecodingView::Failed(one->Failed_0.into_cache())
            &&& one is Failed && !decoder.cache.keep_retriable && one->Failed_0.retriable
                ==> two == DecodingView::Waiting
            &&& one is Ready || one is Failed
        }),
{
}

} // verus!
