//! Per-asset reload capabilities.
//!
//! [`Reload`] is the abstract, duplicable capability that can report
//! whether its asset is stale and consume itself to re-import a fresh
//! value. [`SingleFile`] implements it for an asset backed by one path
//! in one byte source, comparing a stored modification stamp against a
//! freshly queried one. [`Source`] and [`Format`] are the collaborator
//! interfaces through which staleness queries and re-imports run.

use vstd::prelude::*;
use std::sync::Arc;
use crate::error::ImportError;
use crate::error::SourceError;

verus! {

/// A byte source that can report the best-known modification stamp of a
/// path. Stamps are opaque, monotonically comparable freshness markers,
/// not necessarily wall-clock times.
pub trait Source {
    /// The stamp the source currently reports for `path`; `None` when
    /// the query fails or nothing is known. Verified implementations
    /// redefine it; the default claims no knowledge of any path, which
    /// obliges `modified` to fail every query.
    open spec fn stamp(&self, path: Seq<char>) -> Option<u64> {
        None
    }

    /// Queries the modification stamp of `path`.
    fn modified(&self, path: &str) -> (r: Result<u64, SourceError>)
        ensures
            (match self.stamp(path@) {
                Some(t) => r matches Ok(m) && m == t,
                None => r is Err,
            }),
    ;
}

/// A value freshly produced by an import: the asset payload together
/// with the next generation's reload capability, when one was requested.
pub struct FormatValue<A, R> {
    /// The imported asset payload.
    pub data: A,
    /// How to reload this result in turn; present exactly when the
    /// import was asked to produce reload metadata.
    pub reload: Option<R>,
}

/// An import format: decodes one path of a source into an asset value,
/// and, on request, reports fresh reload metadata for the result. Safe
/// to re-invoke with the same arguments it was originally given.
pub trait Format<A, S: Source>: Sized {
    /// The format's static identifier, as a sequence of characters.
    /// Verified implementations redefine it; the default obliges `name`
    /// to return the empty identifier.
    open spec fn spec_name(&self) -> Seq<char> {
        Seq::empty()
    }

    /// The format's static identifier.
    fn name(&self) -> (r: &'static str)
        ensures
            r@ == self.spec_name(),
    ;

    /// Format-specific import options, handed back to every re-import.
    type Options;

    /// Imports `path` from `source`. With `create_reload`, the result
    /// carries a fresh handle for the same path and source, whose stored
    /// stamp the import observes anew; without it, the result carries
    /// none.
    fn import(
        &self,
        path: String,
        source: Arc<S>,
        options: Self::Options,
        create_reload: bool,
    ) -> (r: Result<FormatValue<A, SingleFile<A, Self, S>>, ImportError>)
        ensures
            (match r {
                Ok(v) => (match v.reload {
                    Some(h) => create_reload && h.path@ == path@ && h.source == source,
                    None => !create_reload,
                }),
                Err(_) => true,
            }),
    ;
}

/// The abstract reload capability: one instance per loaded asset, owned
/// by the storage slot it backs, replaced (not mutated) on every
/// successful reload. `reload` consumes the instance; `duplicate`
/// produces an independent instance carrying the same reload-relevant
/// data without exposing the concrete implementor.
pub trait Reload<A>: Sized {
    /// The stored freshness baseline; zero permanently disables
    /// staleness detection for this handle. Verified implementations
    /// redefine it; the default obliges `needs_reload` to answer no.
    open spec fn baseline(&self) -> u64 {
        0
    }

    /// Whether the asset should be re-imported. A pure query with no
    /// side effects, safe to call any number of times.
    fn needs_reload(&self) -> (r: bool)
        ensures
            self.baseline() == 0 ==> !r,
    ;

    /// A stable identifier for diagnostics; for file-backed handles,
    /// the source path.
    fn name(&self) -> String;

    /// The static identifier of the import format used.
    fn format(&self) -> &'static str;

    /// Consumes the handle and re-imports the asset. On success the
    /// result carries a brand-new handle describing how to reload that
    /// result in turn; on failure the import error is surfaced opaquely
    /// and the caller keeps the previous asset value.
    fn reload(self) -> Result<FormatValue<A, Self>, ImportError>;

    /// An independent handle carrying the same reload-relevant data.
    fn duplicate(&self) -> (r: Self)
        ensures
            r.baseline() == self.baseline(),
    ;
}

/// Whether a stored baseline together with a freshly queried stamp means
/// the asset is stale: a zero baseline never does, a failed query never
/// does, and otherwise exactly a strictly newer stamp does.
pub open spec fn spec_stale(modified: u64, stamp: Option<u64>) -> bool {
    modified != 0 && (match stamp {
        Some(t) => t > modified,
        None => false,
    })
}

/// Decides staleness from a stored baseline and the outcome of a fresh
/// stamp query, treating a query failure as "freshness unknown".
pub fn is_stale(modified: u64, query: Result<u64, SourceError>) -> (r: bool)
    ensures
        r == spec_stale(modified, (match query {
            Ok(t) => Some(t),
            Err(_) => None,
        })),
{
    modified != 0 && (match query {
        Ok(t) => t > modified,
        Err(_) => false,
    })
}

/// Relies on `Arc::clone`: the duplicate shares the same underlying
/// allocation and therefore carries the same value.
#[verifier::external_body]
fn arc_share<T>(a: &Arc<T>) -> (r: Arc<T>)
    ensures
        r == *a,
{
    Arc::clone(a)
}

/// A reload capability backed by a single path in a single byte source:
/// it stores the import format, its options, the path, the source, and
/// the modification stamp observed at the last (re)load.
pub struct SingleFile<A, F: Format<A, S>, S: Source> {
    /// The import format to re-run.
    pub format: F,
    /// The stamp observed at last load; zero disables staleness checks.
    pub modified: u64,
    /// The options the format was originally given.
    pub options: <F as Format<A, S>>::Options,
    /// The path of the asset within the source.
    pub path: String,
    /// The byte source the asset came from, shared with duplicates.
    pub source: Arc<S>,
}

impl<A, F: Format<A, S>, S: Source> SingleFile<A, F, S> {
    /// Creates a new `SingleFile` reload capability.
    pub fn new(format: F, modified: u64, options: F::Options, path: String, source: Arc<S>) -> (r:
        Self)
        ensures
            r.format == format,
            r.modified == modified,
            r.options == options,
            r.path == path,
            r.source == source,
    {
        SingleFile { format, modified, options, path, source }
    }
}

impl<A, F: Format<A, S> + Clone, S: Source> Clone for SingleFile<A, F, S> where
    <F as Format<A, S>>::Options: Clone,
 {
    /// The clone carries the same reload-relevant data; the shared
    /// source is the same underlying source.
    fn clone(&self) -> (r: Self)
        ensures
            r.modified == self.modified,
            r.path@ == self.path@,
            r.source == self.source,
            vstd::pervasive::cloned(self.format, r.format),
            vstd::pervasive::cloned(self.options, r.options),
    {
        SingleFile {
            format: self.format.clone(),
            modified: self.modified,
            options: self.options.clone(),
            path: self.path.clone(),
            source: arc_share(&self.source),
        }
    }
}

impl<A, F: Format<A, S> + Clone, S: Source> Reload<A> for SingleFile<A, F, S> where
    <F as Format<A, S>>::Options: Clone,
 {
    open spec fn baseline(&self) -> u64 {
        self.modified
    }

    /// Stale exactly when the stored stamp is non-zero and the source
    /// currently reports a strictly newer one; a failed query resolves
    /// to fresh.
    fn needs_reload(&self) -> (r: bool)
        ensures
            r == spec_stale(self.modified, self.source.stamp(self.path@)),
    {
        let query = self.source.modified(self.path.as_str());
        is_stale(self.modified, query)
    }

    /// Returns the stored path.
    fn name(&self) -> (r: String)
        ensures
            r@ == self.path@,
    {
        self.path.clone()
    }

    /// Returns the format's static identifier.
    fn format(&self) -> (r: &'static str)
        ensures
            r@ == self.format.spec_name(),
    {
        self.format.name()
    }

    /// Discards the stale stamp and re-invokes the import with the
    /// stored format, path, source and options, requesting fresh reload
    /// metadata: a successful result carries a new handle for the same
    /// path and the same source.
    fn reload(self) -> (r: Result<FormatValue<A, Self>, ImportError>)
        ensures
            (match r {
                Ok(v) => (match v.reload {
                    Some(h) => h.path@ == self.path@ && h.source == self.source,
                    None => false,
                }),
                Err(_) => true,
            }),
    {
        let SingleFile { format, path, source, options, .. } = self;
        format.import(path, source, options, true)
    }

    /// A clone: same stamp, same path, same shared source.
    fn duplicate(&self) -> (r: Self)
        ensures
            r.modified == self.modified,
            r.path@ == self.path@,
            r.source == self.source,
    {
        self.clone()
    }
}

/// A zero baseline never reports stale, whatever any query returns.
pub proof fn lemma_zero_baseline_never_stale(stamp: Option<u64>)
    ensures
        !spec_stale(0, stamp),
{
}

/// Handles that agree on their stamp, path and shared source answer
/// staleness queries alike: duplicating a handle and querying original
/// and duplicate yields identical results against the same source state.
pub proof fn lemma_duplicate_same_staleness<A, F: Format<A, S> + Clone, S: Source>(
    a: SingleFile<A, F, S>,
    b: SingleFile<A, F, S>,
) where <F as Format<A, S>>::Options: Clone
    requires
        b.modified == a.modified,
        b.path@ == a.path@,
        b.source == a.source,
    ensures
        spec_stale(b.modified, b.source.stamp(b.path@)) == spec_stale(
            a.modified,
            a.source.stamp(a.path@),
        ),
{
}

/// The stamp reported for `path` by a table of `(path, stamp)` entries:
/// that of the latest matching entry, `None` without one.
pub open spec fn stamp_in(entries: Seq<(String, u64)>, path: Seq<char>) -> Option<u64>
    decreases entries.len(),
{
    if entries.len() == 0 {
        None
    } else if entries.last().0@ == path {
        Some(entries.last().1)
    } else {
        stamp_in(entries.drop_last(), path)
    }
}

/// An in-memory modification-stamp table: a `Source` whose stamps are
/// set directly. Useful for deterministic tests and as the degenerate
/// source of assets that never change.
pub struct MemorySource {
    /// The recorded `(path, stamp)` entries; later entries win.
    pub entries: Vec<(String, u64)>,
}

impl MemorySource {
    /// An empty table: every query fails, so nothing ever looks stale.
    pub fn new() -> (r: Self)
        ensures
            r.entries@.len() == 0,
            forall|p: Seq<char>| #[trigger] r.stamp(p) is None,
    {
        MemorySource { entries: Vec::new() }
    }

    /// Records `stamp` for `path`, superseding any earlier entry.
    pub fn set(&mut self, path: String, stamp: u64)
        ensures
            forall|q: Seq<char>|
                #[trigger] final(self).stamp(q) == if q == path@ {
                    Some(stamp)
                } else {
                    old(self).stamp(q)
                },
    {
        self.entries.push((path, stamp));
        proof {
            assert(self.entries@.drop_last() =~= old(self).entries@);
        }
    }
}

impl Source for MemorySource {
    open spec fn stamp(&self, path: Seq<char>) -> Option<u64> {
        stamp_in(self.entries@, path)
    }

    /// Scans the table backwards for the latest entry of `path`.
    fn modified(&self, path: &str) -> (r: Result<u64, SourceError>) {
        let wanted: String = path.to_owned();
        let mut i: usize = self.entries.len();
        proof {
            assert(self.entries@.take(i as int) =~= self.entries@);
        }
        while i > 0
            invariant
                i <= self.entries.len(),
                wanted@ == path@,
                stamp_in(self.entries@, path@) == stamp_in(self.entries@.take(i as int), path@),
            decreases i,
        {
            i = i - 1;
            let entry = &self.entries[i];
            proof {
                assert(self.entries@.take(i + 1).last() == self.entries@[i as int]);
                assert(self.entries@.take(i + 1).drop_last() =~= self.entries@.take(i as int));
            }
            if entry.0 == wanted {
                return Ok(entry.1);
            }
        }
        proof {
            assert(self.entries@.take(0).len() == 0);
        }
        Err(SourceError::new(String::new()))
    }
}

} // verus!
