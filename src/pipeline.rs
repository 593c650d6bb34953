//! The resolution pipeline as a state machine: from a stage and the outcome of the last
//! outside step to the next stage and the next step to perform.
//!
//! Cache check, then each primary provider in order until one finds the book, then the
//! classification service, then (where the primary gave a control number) the subject
//! lookup, then the cache write.
use vstd::prelude::*;

use crate::providers::{enrich_subjects, overrides, volume_found, SubjectLookup, VolumeSearch};
use crate::record::{BasicBookInfo, CanonicalRecord, Classification};

verus! {

/// Why a resolution did not produce a record.
#[derive(Debug)]
pub enum PipelineError {
    /// No primary provider knows the ISBN.
    NotFound,
    /// The primary provider at this position in the provider list could not be queried.
    Provider { provider: usize, detail: String },
    /// The record was resolved but could not be cached.
    CacheWrite { record: CanonicalRecord, detail: String },
    /// An outcome arrived that the current stage does not wait for.
    OutOfOrder,
}

/// The outcome of the outside step that the pipeline asked for.
#[derive(Debug)]
pub enum Event {
    CacheRead(Option<CanonicalRecord>),
    PrimaryFetched(Result<Option<BasicBookInfo>, String>),
    ClassificationFetched(Option<Classification>),
    SubjectsFetched(Option<SubjectLookup>),
    CacheWritten(Result<(), String>),
}

/// The next outside step, or the end of the resolution with its result.
#[derive(Debug)]
pub enum Action {
    ReadCache { isbn: String },
    QueryPrimary { provider: usize, isbn: String },
    QueryClassification { isbn: String },
    QuerySubjects { lccn: String },
    /// Store the record that `Resolver::pending` shows under the ISBN.
    WriteCache { isbn: String },
    /// The record and whether it came from the cache, or the error.
    Done(Result<(CanonicalRecord, bool), PipelineError>),
}

/// Where a resolution stands.
#[derive(Debug)]
pub enum Stage {
    AwaitCache,
    AwaitPrimary(usize),
    AwaitClassification(BasicBookInfo),
    AwaitSubjects(BasicBookInfo, Option<Classification>),
    AwaitWrite(CanonicalRecord),
    Finished,
}

/// One resolution of one ISBN over a list of `providers` primary providers.
#[derive(Debug)]
pub struct Resolver {
    pub isbn: String,
    pub providers: usize,
    pub stage: Stage,
}

/// A provider's answer counts as found only with a title and an author.
pub open spec fn usable(info: BasicBookInfo) -> bool {
    info.title@.len() > 0 && info.author@.len() > 0
}

/// The record assembled from the primary fields and the enrichments.
pub open spec fn assembled(
    isbn: String,
    info: BasicBookInfo,
    classification: Option<Classification>,
    lookup: Option<SubjectLookup>,
) -> CanonicalRecord {
    CanonicalRecord {
        isbn,
        title: info.title,
        author: info.author,
        image: info.image,
        classification,
        subjects: if overrides(lookup) {
            lookup->0.results[0]
        } else {
            info.subjects
        },
    }
}

/// After the primary provider at `k` found nothing: the next one, or the end.
pub open spec fn after_miss(isbn: String, providers: usize, k: int) -> (Stage, Action) {
    if k + 1 < providers {
        (Stage::AwaitPrimary((k + 1) as usize), Action::QueryPrimary { provider: (k + 1) as usize, isbn })
    } else {
        (Stage::Finished, Action::Done(Err(PipelineError::NotFound)))
    }
}

/// After the classification step: the subject lookup where there is a control number, else
/// the cache write of the record.
pub open spec fn after_classification(
    isbn: String,
    info: BasicBookInfo,
    classification: Option<Classification>,
) -> (Stage, Action) {
    match info.lccn {
        Some(l) => (Stage::AwaitSubjects(info, classification), Action::QuerySubjects { lccn: l }),
        None => (
            Stage::AwaitWrite(assembled(isbn, info, classification, None)),
            Action::WriteCache { isbn },
        ),
    }
}

/// The transition table of the pipeline.
pub open spec fn transition(isbn: String, providers: usize, stage: Stage, event: Event) -> (
    Stage,
    Action,
) {
    match (stage, event) {
        (Stage::AwaitCache, Event::CacheRead(Some(rec))) => (
            Stage::Finished,
            Action::Done(Ok((rec, true))),
        ),
        (Stage::AwaitCache, Event::CacheRead(None)) => after_miss(isbn, providers, -1),
        (Stage::AwaitPrimary(k), Event::PrimaryFetched(Err(detail))) => (
            Stage::Finished,
            Action::Done(Err(PipelineError::Provider { provider: k, detail })),
        ),
        (Stage::AwaitPrimary(k), Event::PrimaryFetched(Ok(found))) => match found {
            Some(info) if usable(info) => (
                Stage::AwaitClassification(info),
                Action::QueryClassification { isbn },
            ),
            _ => after_miss(isbn, providers, k as int),
        },
        (Stage::AwaitClassification(info), Event::ClassificationFetched(c)) => after_classification(
            isbn,
            info,
            c,
        ),
        (Stage::AwaitSubjects(info, c), Event::SubjectsFetched(lookup)) => (
            Stage::AwaitWrite(assembled(isbn, info, c, lookup)),
            Action::WriteCache { isbn },
        ),
        (Stage::AwaitWrite(rec), Event::CacheWritten(Ok(()))) => (
            Stage::Finished,
            Action::Done(Ok((rec, false))),
        ),
        (Stage::AwaitWrite(rec), Event::CacheWritten(Err(detail))) => (
            Stage::Finished,
            Action::Done(Err(PipelineError::CacheWrite { record: rec, detail })),
        ),
        _ => (Stage::Finished, Action::Done(Err(PipelineError::OutOfOrder))),
    }
}

impl Resolver {
    /// A resolution of `isbn` over `providers` primary providers, about to check the cache.
    pub fn new(isbn: String, providers: usize) -> (r: Resolver)
        ensures
            r.isbn == isbn,
            r.providers == providers,
            r.stage is AwaitCache,
    {
        Resolver { isbn, providers, stage: Stage::AwaitCache }
    }

    /// The first step of every resolution: the cache read under the ISBN.
    pub fn first_action(&self) -> (r: Action)
        ensures
            r == (Action::ReadCache { isbn: self.isbn }),
    {
        Action::ReadCache { isbn: self.isbn.clone() }
    }

    /// The record waiting to be cached, while the resolution waits for the cache write.
    pub fn pending(&self) -> (r: Option<&CanonicalRecord>)
        ensures
            match self.stage {
                Stage::AwaitWrite(rec) => r == Some(&rec),
                _ => r is None,
            },
    {
        match &self.stage {
            Stage::AwaitWrite(rec) => Some(rec),
            _ => None,
        }
    }

    fn miss(&self, k: Option<usize>) -> (r: (Stage, Action))
        ensures
            r == after_miss(
                self.isbn,
                self.providers,
                match k {
                    Some(j) => j as int,
                    None => -1,
                },
            ),
    {
        let next: usize = match k {
            Some(j) => {
                if j >= self.providers {
                    return (Stage::Finished, Action::Done(Err(PipelineError::NotFound)));
                }
                j + 1
            },
            None => 0,
        };
        if next < self.providers {
            (Stage::AwaitPrimary(next), Action::QueryPrimary { provider: next, isbn: self.isbn.clone() })
        } else {
            (Stage::Finished, Action::Done(Err(PipelineError::NotFound)))
        }
    }

    /// Takes the outcome of the last step and returns the next one.
    pub fn step(&mut self, event: Event) -> (r: Action)
        ensures
            final(self).isbn == old(self).isbn,
            final(self).providers == old(self).providers,
            (final(self).stage, r) == transition(old(self).isbn, old(self).providers, old(self).stage, event),
    {
        let mut stage = Stage::Finished;
        core::mem::swap(&mut stage, &mut self.stage);
        let (next, action) = match (stage, event) {
            (Stage::AwaitCache, Event::CacheRead(Some(rec))) => (
                Stage::Finished,
                Action::Done(Ok((rec, true))),
            ),
            (Stage::AwaitCache, Event::CacheRead(None)) => self.miss(None),
            (Stage::AwaitPrimary(k), Event::PrimaryFetched(Err(detail))) => (
                Stage::Finished,
                Action::Done(Err(PipelineError::Provider { provider: k, detail })),
            ),
            (Stage::AwaitPrimary(k), Event::PrimaryFetched(Ok(found))) => match found {
                Some(info) => {
                    if info.title.unicode_len() > 0 && info.author.unicode_len() > 0 {
                        (Stage::AwaitClassification(info), Action::QueryClassification { isbn: self.isbn.clone() })
                    } else {
                        self.miss(Some(k))
                    }
                },
                None => self.miss(Some(k)),
            },
            (Stage::AwaitClassification(info), Event::ClassificationFetched(c)) => {
                match info.lccn {
                    Some(l) => {
                        let info = BasicBookInfo { lccn: Some(l.clone()), ..info };
                        (Stage::AwaitSubjects(info, c), Action::QuerySubjects { lccn: l })
                    },
                    None => {
                        let info = BasicBookInfo { lccn: None, ..info };
                        (Stage::AwaitWrite(self.assemble(info, c, None)), Action::WriteCache { isbn: self.isbn.clone() })
                    },
                }
            },
            (Stage::AwaitSubjects(info, c), Event::SubjectsFetched(lookup)) => (
                Stage::AwaitWrite(self.assemble(info, c, lookup)),
                Action::WriteCache { isbn: self.isbn.clone() },
            ),
            (Stage::AwaitWrite(rec), Event::CacheWritten(Ok(()))) => (
                Stage::Finished,
                Action::Done(Ok((rec, false))),
            ),
            (Stage::AwaitWrite(rec), Event::CacheWritten(Err(detail))) => (
                Stage::Finished,
                Action::Done(Err(PipelineError::CacheWrite { record: rec, detail })),
            ),
            _ => (Stage::Finished, Action::Done(Err(PipelineError::OutOfOrder))),
        };
        self.stage = next;
        action
    }

    fn assemble(
        &self,
        info: BasicBookInfo,
        classification: Option<Classification>,
        lookup: Option<SubjectLookup>,
    ) -> (r: CanonicalRecord)
        ensures
            r == assembled(self.isbn, info, classification, lookup),
    {
        let subjects = enrich_subjects(info.subjects, lookup);
        CanonicalRecord {
            isbn: self.isbn.clone(),
            title: info.title,
            author: info.author,
            image: info.image,
            classification,
            subjects,
        }
    }
}

/// The stage holds only primary answers that count as found.
pub open spec fn stage_ok(stage: Stage) -> bool {
    match stage {
        Stage::AwaitClassification(info) => usable(info),
        Stage::AwaitSubjects(info, _) => usable(info),
        Stage::AwaitWrite(rec) => rec.cacheable(),
        _ => true,
    }
}

/// Every stage that a transition reaches from a sound stage is sound; so a record is
/// handed to the cache write only when it has a title and an author.
pub proof fn lemma_only_complete_records_cached(
    isbn: String,
    providers: usize,
    stage: Stage,
    event: Event,
)
    requires
        stage_ok(stage),
    ensures
        stage_ok(transition(isbn, providers, stage, event).0),
        transition(isbn, providers, stage, event).0 matches Stage::AwaitWrite(rec) ==> rec.cacheable(),
{
}

/// What the cache gateway reads under `key` from a store with contents `cache`.
pub open spec fn cache_read(cache: Map<Seq<char>, CanonicalRecord>, key: Seq<char>) -> Option<
    CanonicalRecord,
> {
    if cache.contains_key(key) {
        Some(cache[key])
    } else {
        None
    }
}

/// A resolution of an ISBN whose record is cached returns that record as it is, marked as
/// cached, and its only step was the cache read: no provider is queried.
pub proof fn lemma_cached_record_returned(
    isbn: String,
    providers: usize,
    cache: Map<Seq<char>, CanonicalRecord>,
)
    requires
        cache.contains_key(isbn@),
    ensures
        transition(isbn, providers, Stage::AwaitCache, Event::CacheRead(cache_read(cache, isbn@)))
            == (Stage::Finished, Action::Done(Ok((cache[isbn@], true)))),
{
}

/// A volume search that reports no result makes its provider yield nothing; a provider
/// that yields nothing is never an error: the next provider is asked, and after the last
/// one the resolution ends in `NotFound`.
pub proof fn lemma_empty_search_not_found(
    isbn: String,
    providers: usize,
    k: usize,
    search: VolumeSearch,
)
    requires
        search.total_items == 0 || search.items.len() == 0,
        k < providers,
    ensures
        !volume_found(search),
        transition(isbn, providers, Stage::AwaitPrimary(k), Event::PrimaryFetched(Ok(None))) == (
            if k + 1 < providers {
                (Stage::AwaitPrimary((k + 1) as usize), Action::QueryPrimary { provider: (k + 1) as usize, isbn })
            } else {
                (Stage::Finished, Action::Done(Err(PipelineError::NotFound)))
            }
        ),
{
}

/// Subject enrichment overrides, never merges: the cached record's subjects are those of
/// the lookup's first record when the lookup found the book and that record lists
/// subjects, and the primary provider's otherwise. Without a control number no lookup is
/// asked for and the primary subjects stay.
pub proof fn lemma_enrichment_decides_subjects(
    isbn: String,
    providers: usize,
    info: BasicBookInfo,
    classification: Option<Classification>,
    lookup: Option<SubjectLookup>,
)
    ensures
        info.lccn is None ==> transition(
            isbn,
            providers,
            Stage::AwaitClassification(info),
            Event::ClassificationFetched(classification),
        ) == (
            Stage::AwaitWrite(assembled(isbn, info, classification, None)),
            Action::WriteCache { isbn },
        ),
        assembled(isbn, info, classification, None).subjects == info.subjects,
        info.lccn matches Some(l) ==> transition(
            isbn,
            providers,
            Stage::AwaitClassification(info),
            Event::ClassificationFetched(classification),
        ).1 == (Action::QuerySubjects { lccn: l }),
        transition(
            isbn,
            providers,
            Stage::AwaitSubjects(info, classification),
            Event::SubjectsFetched(lookup),
        ).0 matches Stage::AwaitWrite(rec) && rec.subjects == (if overrides(lookup) {
            lookup->0.results[0]
        } else {
            info.subjects
        }),
{
}

/// Resolving an ISBN twice: the first resolution ends by caching its record and returning
/// it; the second, against the store that now holds it, returns the same record from the
/// cache without querying any provider.
pub proof fn lemma_second_resolution_from_cache(
    isbn: String,
    providers: usize,
    rec: CanonicalRecord,
    cache: Map<Seq<char>, CanonicalRecord>,
)
    ensures
        transition(isbn, providers, Stage::AwaitWrite(rec), Event::CacheWritten(Ok(())))
            == (Stage::Finished, Action::Done(Ok((rec, false)))),
        transition(
            isbn,
            providers,
            Stage::AwaitCache,
            Event::CacheRead(cache_read(cache.insert(isbn@, rec), isbn@)),
        ) == (Stage::Finished, Action::Done(Ok((rec, true)))),
{
    assert(cache.insert(isbn@, rec).contains_key(isbn@));
}

} // verus!
