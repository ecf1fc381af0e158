//! The cache of resolutions: what the registry answered for an identifier or
//! for a strategy is kept, the schema as well as the error, so that the same
//! question is not sent twice.
//!
//! An error that no retry mends is always kept. Whether an error that a retry
//! may mend is kept as well is the choice of whoever makes the cache: by
//! default it is, and it comes back marked as cached, so that a caller can
//! tell it from a fresh one and ask the registry again.

use super::envelope::schema_result_view;
use super::error::{optional_text, SRCError, SRCErrorView};
use super::http::ReplyView;
use super::registry::{get_schema_by_id, get_schema_by_subject, Resolution};
use super::resolution::{by_id, by_subject, ResolutionView};
use super::schema::{RegisteredSchema, RegisteredSchemaView};
use super::subject::{
    carried_schema, get_subject, SubjectNameStrategy, SubjectNameStrategyView,
};
use std::collections::HashMap;
use vstd::prelude::*;

verus! {

/// Under what the outcome for a strategy is kept: the subject and, for a
/// strategy that carries a schema, the text of that schema.
pub struct SubjectKeyView {
    pub subject: Seq<char>,
    pub schema: Option<Seq<char>>,
}

/// The key for a strategy, if it has a subject.
pub open spec fn subject_key(strategy: SubjectNameStrategyView) -> Option<SubjectKeyView> {
    match strategy.subject() {
        Err(_) => None,
        Ok(subject) => Some(
            SubjectKeyView {
                subject,
                schema: match strategy.schema() {
                    Some(schema) => Some(schema.schema),
                    None => None,
                },
            },
        ),
    }
}

/// An outcome as the cache keeps it: a schema as it is, an error marked as
/// cached.
pub open spec fn admitted(outcome: Result<RegisteredSchemaView, SRCErrorView>) -> Result<
    RegisteredSchemaView,
    SRCErrorView,
> {
    match outcome {
        Ok(schema) => Ok(schema),
        Err(error) => Err(error.into_cache()),
    }
}

/// The mathematical content of a [`SchemaCache`].
pub struct SchemaCacheView {
    /// Whether errors that a retry may mend are kept.
    pub keep_retriable: bool,
    pub by_id: Map<u32, Result<RegisteredSchemaView, SRCErrorView>>,
    pub by_subject: Map<SubjectKeyView, Result<RegisteredSchemaView, SRCErrorView>>,
}

impl SchemaCacheView {
    /// The cache that holds nothing.
    pub open spec fn empty(keep_retriable: bool) -> SchemaCacheView {
        SchemaCacheView { keep_retriable, by_id: Map::empty(), by_subject: Map::empty() }
    }

    /// Whether the cache keeps an outcome: every schema, every error that no
    /// retry mends, and the other errors if the cache was made to keep them.
    pub open spec fn keeps(self, outcome: Result<RegisteredSchemaView, SRCErrorView>) -> bool {
        match outcome {
            Ok(_) => true,
            Err(error) => self.keep_retriable || !error.retriable,
        }
    }

    /// The resolution of the schema with an identifier: what the cache holds
    /// for it, or else the lookup at the registry.
    pub open spec fn resolve_by_id(self, id: u32, base: Seq<char>) -> ResolutionView {
        if self.by_id.contains_key(id) {
            ResolutionView::Done(self.by_id[id])
        } else {
            by_id(id, base)
        }
    }

    /// The cache after the resolution for an identifier has come to an
    /// outcome.
    pub open spec fn complete_by_id(
        self,
        id: u32,
        outcome: Result<RegisteredSchemaView, SRCErrorView>,
    ) -> SchemaCacheView {
        if self.keeps(outcome) {
            SchemaCacheView { by_id: self.by_id.insert(id, admitted(outcome)), ..self }
        } else {
            self
        }
    }

    /// The resolution for a strategy: the error of a strategy without a
    /// subject, or what the cache holds for it, or else the resolution at the
    /// registry.
    pub open spec fn resolve_by_subject(
        self,
        base: Seq<char>,
        strategy: SubjectNameStrategyView,
    ) -> ResolutionView {
        match subject_key(strategy) {
            None => by_subject(base, strategy),
            Some(key) => if self.by_subject.contains_key(key) {
                ResolutionView::Done(self.by_subject[key])
            } else {
                by_subject(base, strategy)
            },
        }
    }

    /// The cache after the resolution for a strategy has come to an outcome.
    /// For a strategy without a subject nothing is kept.
    pub open spec fn complete_by_subject(
        self,
        strategy: SubjectNameStrategyView,
        outcome: Result<RegisteredSchemaView, SRCErrorView>,
    ) -> SchemaCacheView {
        match subject_key(strategy) {
            None => self,
            Some(key) => if self.keeps(outcome) {
                SchemaCacheView {
                    by_subject: self.by_subject.insert(key, admitted(outcome)),
                    ..self
                }
            } else {
                self
            },
        }
    }
}

/// One outcome that is kept for a strategy.
struct SubjectEntry {
    subject: String,
    schema: Option<String>,
    outcome: Result<RegisteredSchema, SRCError>,
}

impl SubjectEntry {
    spec fn key(self) -> SubjectKeyView {
        SubjectKeyView {
            subject: self.subject@,
            schema: match self.schema {
                Some(schema) => Some(schema@),
                None => None,
            },
        }
    }
}

/// What the entries hold for a key: the outcome of the last entry with the
/// key.
spec fn entries_view(entries: Seq<SubjectEntry>) -> Map<
    SubjectKeyView,
    Result<RegisteredSchemaView, SRCErrorView>,
>
    decreases entries.len(),
{
    if entries.len() == 0 {
        Map::empty()
    } else {
        entries_view(entries.drop_last()).insert(
            entries.last().key(),
            schema_result_view(entries.last().outcome),
        )
    }
}

/// Without an entry for a key nothing is held for it; with entries for it,
/// what the last of them holds.
proof fn lemma_entries_lookup(entries: Seq<SubjectEntry>, key: SubjectKeyView)
    ensures
        (forall|k: int| 0 <= k < entries.len() ==> entries[k].key() != key) ==> !entries_view(
            entries,
        ).contains_key(key),
        forall|i: int|
            0 <= i < entries.len() && entries[i].key() == key && (forall|k: int|
                i < k < entries.len() ==> entries[k].key() != key) ==> entries_view(
                entries,
            ).contains_key(key) && entries_view(entries)[key] == schema_result_view(
                #[trigger] entries[i].outcome,
            ),
    decreases entries.len(),
{
    if entries.len() > 0 {
        lemma_entries_lookup(entries.drop_last(), key);
        assert forall|i: int|
            0 <= i < entries.len() && entries[i].key() == key && (forall|k: int|
                i < k < entries.len() ==> entries[k].key() != key) implies entries_view(
            entries,
        ).contains_key(key) && entries_view(entries)[key] == schema_result_view(
            #[trigger] entries[i].outcome,
        ) by {
            if i < entries.len() - 1 {
                assert(entries[entries.len() - 1].key() != key);
                let before = entries.drop_last();
                assert(before[i] == entries[i]);
                assert forall|k: int| i < k < before.len() implies before[k].key() != key by {
                    assert(before[k] == entries[k]);
                }
            }
        }
        if forall|k: int| 0 <= k < entries.len() ==> entries[k].key() != key {
            let before = entries.drop_last();
            assert forall|k: int| 0 <= k < before.len() implies before[k].key() != key by {
                assert(before[k] == entries[k]);
            }
        }
    }
}

/// To put another outcome in the place of the last entry for a key is to hold
/// that outcome for the key.
proof fn lemma_entries_update(entries: Seq<SubjectEntry>, i: int, entry: SubjectEntry)
    requires
        0 <= i < entries.len(),
        entry.key() == entries[i].key(),
        forall|k: int| i < k < entries.len() ==> entries[k].key() != entry.key(),
    ensures
        entries_view(entries.update(i, entry)) == entries_view(entries).insert(
            entry.key(),
            schema_result_view(entry.outcome),
        ),
    decreases entries.len(),
{
    let updated = entries.update(i, entry);
    if i == entries.len() - 1 {
        assert(updated.drop_last() =~= entries.drop_last());
    } else {
        assert(updated.drop_last() =~= entries.drop_last().update(i, entry));
        let before = entries.drop_last();
        assert forall|k: int| i < k < before.len() implies before[k].key() != entry.key() by {
            assert(before[k] == entries[k]);
        }
        lemma_entries_update(entries.drop_last(), i, entry);
    }
}

/// The cache of one decoder or encoder. It belongs to that one alone.
pub struct SchemaCache {
    keep_retriable: bool,
    by_id: HashMap<u32, Result<RegisteredSchema, SRCError>>,
    by_subject: Vec<SubjectEntry>,
}

impl View for SchemaCache {
    type V = SchemaCacheView;

    closed spec fn view(&self) -> SchemaCacheView {
        SchemaCacheView {
            keep_retriable: self.keep_retriable,
            by_id: Map::new(
                |id: u32| self.by_id@.contains_key(id),
                |id: u32| schema_result_view(self.by_id@[id]),
            ),
            by_subject: entries_view(self.by_subject@),
        }
    }
}

/// A copy of an outcome.
pub fn clone_outcome(outcome: &Result<RegisteredSchema, SRCError>) -> (copy: Result<
    RegisteredSchema,
    SRCError,
>)
    ensures
        schema_result_view(copy) == schema_result_view(*outcome),
{
    match outcome {
        Ok(schema) => Ok(schema.clone()),
        Err(error) => Err(error.clone()),
    }
}

/// A copy of an outcome as the cache keeps it.
fn admit_outcome(outcome: &Result<RegisteredSchema, SRCError>) -> (kept: Result<
    RegisteredSchema,
    SRCError,
>)
    ensures
        schema_result_view(kept) == admitted(schema_result_view(*outcome)),
{
    match outcome {
        Ok(schema) => Ok(schema.clone()),
        Err(error) => Err(error.clone().into_cache()),
    }
}

fn same_optional_text(left: &Option<String>, right: &Option<String>) -> (same: bool)
    ensures
        same == (match (*left, *right) {
            (Some(l), Some(r)) => l@ == r@,
            (None, None) => true,
            _ => false,
        }),
{
    match left {
        Some(l) => match right {
            Some(r) => *l == *r,
            None => false,
        },
        None => right.is_none(),
    }
}

impl SchemaCache {
    /// A cache that holds nothing and keeps every outcome.
    pub fn new() -> (cache: SchemaCache)
        ensures
            cache@ == SchemaCacheView::empty(true),
    {
        SchemaCache::with_policy(true)
    }

    /// A cache that holds nothing. It keeps an error that a retry may mend
    /// only if `keep_retriable` says so.
    pub fn with_policy(keep_retriable: bool) -> (cache: SchemaCache)
        ensures
            cache@ == SchemaCacheView::empty(keep_retriable),
    {
        let cache = SchemaCache { keep_retriable, by_id: HashMap::new(), by_subject: Vec::new() };
        assert(cache@.by_id =~= Map::empty());
        cache
    }

    fn keeps(&self, outcome: &Result<RegisteredSchema, SRCError>) -> (kept: bool)
        ensures
            kept == self@.keeps(schema_result_view(*outcome)),
    {
        match outcome {
            Ok(_) => true,
            Err(error) => self.keep_retriable || !error.retriable(),
        }
    }

    /// The resolution of the schema with an identifier: what the cache holds
    /// for it, or else the lookup at the registry, whose outcome is for
    /// [`SchemaCache::complete_by_id`].
    pub fn resolve_by_id(&self, id: u32, schema_registry_url: &str) -> (resolution: Resolution)
        ensures
            resolution@ == self@.resolve_by_id(id, schema_registry_url@),
    {
        match self.by_id.get(&id) {
            Some(outcome) => Resolution::Done(clone_outcome(outcome)),
            None => get_schema_by_id(id, schema_registry_url),
        }
    }

    /// Keeps the outcome of the resolution for an identifier: a schema as it
    /// is, an error marked as cached; an error that a retry may mend only if
    /// the cache was made to keep those. A later outcome takes the place of an
    /// earlier one. The outcome itself is handed back as it came.
    pub fn complete_by_id(&mut self, id: u32, outcome: Result<RegisteredSchema, SRCError>) -> (same:
        Result<RegisteredSchema, SRCError>)
        ensures
            schema_result_view(same) == schema_result_view(outcome),
            final(self)@ == old(self)@.complete_by_id(id, schema_result_view(outcome)),
    {
        if self.keeps(&outcome) {
            let kept = admit_outcome(&outcome);
            self.by_id.insert(id, kept);
            assert(self@.by_id =~= old(self)@.by_id.insert(
                id,
                admitted(schema_result_view(outcome)),
            ));
        }
        outcome
    }

    /// The resolution for a strategy: the error of a strategy without a
    /// subject, or what the cache holds for the strategy, or else the
    /// resolution at the registry, whose outcome is for
    /// [`SchemaCache::complete_by_subject`].
    pub fn resolve_by_subject(
        &self,
        schema_registry_url: &str,
        subject_name_strategy: &SubjectNameStrategy,
    ) -> (resolution: Resolution)
        ensures
            resolution@ == self@.resolve_by_subject(schema_registry_url@, subject_name_strategy@),
    {
        let subject = match get_subject(subject_name_strategy) {
            Ok(subject) => subject,
            Err(_) => {
                return get_schema_by_subject(schema_registry_url, subject_name_strategy);
            },
        };
        let schema = match carried_schema(subject_name_strategy) {
            Some(schema) => Some(schema.schema.clone()),
            None => None,
        };
        proof {
            lemma_entries_lookup(
                self.by_subject@,
                SubjectKeyView { subject: subject@, schema: optional_text(schema) },
            );
        }
        match self.position(&subject, &schema) {
            Some(i) => Resolution::Done(clone_outcome(&self.by_subject[i].outcome)),
            None => get_schema_by_subject(schema_registry_url, subject_name_strategy),
        }
    }

    /// Keeps the outcome of the resolution for a strategy: a schema as it is,
    /// an error marked as cached; an error that a retry may mend only if the
    /// cache was made to keep those. For a strategy without a subject nothing
    /// is kept. The outcome itself is handed back as it came.
    pub fn complete_by_subject(
        &mut self,
        subject_name_strategy: &SubjectNameStrategy,
        outcome: Result<RegisteredSchema, SRCError>,
    ) -> (same: Result<RegisteredSchema, SRCError>)
        ensures
            schema_result_view(same) == schema_result_view(outcome),
            final(self)@ == old(self)@.complete_by_subject(
                subject_name_strategy@,
                schema_result_view(outcome),
            ),
    {
        let subject = match get_subject(subject_name_strategy) {
            Ok(subject) => subject,
            Err(_) => {
                return outcome;
            },
        };
        if !self.keeps(&outcome) {
            return outcome;
        }
        let schema = match carried_schema(subject_name_strategy) {
            Some(schema) => Some(schema.schema.clone()),
            None => None,
        };
        let found = self.position(&subject, &schema);
        let entry = SubjectEntry { subject, schema, outcome: admit_outcome(&outcome) };
        match found {
            Some(i) => {
                proof {
                    lemma_entries_update(self.by_subject@, i as int, entry);
                }
                self.by_subject.set(i, entry);
            },
            None => {
                let ghost before = self.by_subject@;
                self.by_subject.push(entry);
                assert(self.by_subject@.drop_last() =~= before);
            },
        }
        outcome
    }

    fn position(&self, subject: &String, schema: &Option<String>) -> (found: Option<usize>)
        ensures
            match found {
                Some(i) => i < self.by_subject.len() && self.by_subject[i as int].key() == (
                SubjectKeyView { subject: subject@, schema: optional_text(*schema) })
                    && forall|k: int|
                    i < k < self.by_subject.len() ==> self.by_subject[k].key() != (SubjectKeyView {
                        subject: subject@,
                        schema: optional_text(*schema),
                    }),
                None => forall|k: int|
                    0 <= k < self.by_subject.len() ==> self.by_subject[k].key() != (SubjectKeyView {
                        subject: subject@,
                        schema: optional_text(*schema),
                    }),
            },
    {
        let mut i: usize = self.by_subject.len();
        while i > 0
            invariant
                i <= self.by_subject.len(),
                forall|k: int|
                    i <= k < self.by_subject.len() ==> self.by_subject[k].key() != (SubjectKeyView {
                        subject: subject@,
                        schema: optional_text(*schema),
                    }),
            decreases i,
        {
            i -= 1;
            let entry = &self.by_subject[i];
            if entry.subject == *subject && same_optional_text(&entry.schema, schema) {
                return Some(i);
            }
        }
        None
    }
}

/// Two lookups of one identifier in a row, on a cache that holds nothing for
/// it, send one request: the first lookup waits for the reply to its request
/// and is done with it; the second is done at once, with what the cache kept
/// of the first outcome. A schema comes out again as it was, an error comes
/// out marked as cached and else as it was. Only an outcome that the cache
/// does not keep, an error that a retry may mend where those are not kept, is
/// asked for again.
pub proof fn lemma_second_lookup_by_id_is_cached(
    cache: SchemaCacheView,
    id: u32,
    base: Seq<char>,
    reply: ReplyView,
)
    requires
        !cache.by_id.contains_key(id),
    ensures
        cache.resolve_by_id(id, base) is Pending,
        cache.resolve_by_id(id, base)->Pending_0.resume(reply) is Done,
        ({
            let first = cache.resolve_by_id(id, base)->Pending_0.resume(reply)->Done_0;
            let second = cache.complete_by_id(id, first).resolve_by_id(id, base);
            &&& cache.keeps(first) ==> second == ResolutionView::Done(admitted(first))
            &&& first is Ok ==> second == ResolutionView::Done(first)
            &&& first is Err && cache.keeps(first) ==> second == ResolutionView::Done(
                Err(first->Err_0.into_cache()),
            )
            &&& !cache.keeps(first) ==> second == cache.resolve_by_id(id, base)
        }),
{
}

/// What is kept for an identifier or a strategy is what the next resolution
/// of it is done with at once, whatever was held before; what is held for
/// others stays; and what is not kept leaves the cache as it was.
pub proof fn lemma_completed_is_resolved(
    cache: SchemaCacheView,
    id: u32,
    other: u32,
    strategy: SubjectNameStrategyView,
    base: Seq<char>,
    outcome: Result<RegisteredSchemaView, SRCErrorView>,
)
    ensures
        cache.keeps(outcome) ==> cache.complete_by_id(id, outcome).resolve_by_id(id, base)
            == ResolutionView::Done(admitted(outcome)),
        !cache.keeps(outcome) ==> cache.complete_by_id(id, outcome) == cache
            && cache.complete_by_subject(strategy, outcome) == cache,
        cache.keeps(outcome) <==> !(outcome is Err && outcome->Err_0.retriable
            && !cache.keep_retriable),
        other != id ==> cache.complete_by_id(id, outcome).resolve_by_id(other, base)
            == cache.resolve_by_id(other, base),
        cache.complete_by_id(id, outcome).resolve_by_subject(base, strategy)
            == cache.resolve_by_subject(base, strategy),
        strategy.subject() is Ok && cache.keeps(outcome) ==> cache.complete_by_subject(
            strategy,
            outcome,
        ).resolve_by_subject(base, strategy) == ResolutionView::Done(admitted(outcome)),
        cache.complete_by_subject(strategy, outcome).resolve_by_id(id, base)
            == cache.resolve_by_id(id, base),
        admitted(outcome) matches Err(error) ==> error.cached,
        admitted(admitted(outcome)) == admitted(outcome),
{
}

} // verus!
