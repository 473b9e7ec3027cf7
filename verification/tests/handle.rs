use std::sync::Arc;

use hot_reload::error::{ImportError, SourceError};
use hot_reload::handle::{is_stale, Format, FormatValue, MemorySource, Reload, SingleFile, Source};
use hot_reload::strategy::HotReloadStrategy;

/// A format whose asset value is the modification stamp itself: it
/// re-imports by querying the source anew, so each reload's fresh handle
/// carries the stamp observed at that import.
#[derive(Clone)]
struct StampFormat;

impl Format<u64, MemorySource> for StampFormat {
    type Options = ();

    fn name(&self) -> &'static str {
        "stamp"
    }

    fn import(
        &self,
        path: String,
        source: Arc<MemorySource>,
        _options: (),
        create_reload: bool,
    ) -> Result<FormatValue<u64, SingleFile<u64, StampFormat, MemorySource>>, ImportError> {
        match source.modified(&path) {
            Ok(t) => {
                let reload = if create_reload {
                    Some(SingleFile::new(self.clone(), t, (), path, Arc::clone(&source)))
                } else {
                    None
                };
                Ok(FormatValue { data: t, reload })
            }
            Err(_) => Err(ImportError::new(String::from("no stamp recorded for the path"))),
        }
    }
}

/// A format whose import always fails, for exercising error propagation.
#[derive(Clone)]
struct BrokenFormat;

impl Format<u64, MemorySource> for BrokenFormat {
    type Options = ();

    fn name(&self) -> &'static str {
        "broken"
    }

    fn import(
        &self,
        _path: String,
        _source: Arc<MemorySource>,
        _options: (),
        _create_reload: bool,
    ) -> Result<FormatValue<u64, SingleFile<u64, BrokenFormat, MemorySource>>, ImportError> {
        Err(ImportError::new(String::from("decode failed")))
    }
}

fn source_with(entries: &[(&str, u64)]) -> Arc<MemorySource> {
    let mut m = MemorySource::new();
    for (path, stamp) in entries {
        m.set(String::from(*path), *stamp);
    }
    Arc::new(m)
}

#[test]
fn memory_source_reports_the_latest_entry() {
    let mut m = MemorySource::new();
    assert!(m.modified("a").is_err(), "an empty table answers nothing");
    m.set(String::from("a"), 5);
    assert_eq!(m.modified("a").unwrap(), 5);
    m.set(String::from("a"), 9);
    assert_eq!(m.modified("a").unwrap(), 9, "a later entry supersedes");
    m.set(String::from("b"), 3);
    assert_eq!(m.modified("a").unwrap(), 9);
    assert_eq!(m.modified("b").unwrap(), 3);
    assert!(m.modified("c").is_err());
}

#[test]
fn zero_baseline_never_needs_reload() {
    let source = source_with(&[("asset", 999)]);
    let handle = SingleFile::new(StampFormat, 0, (), String::from("asset"), source);
    assert!(!handle.needs_reload(), "a zero stamp disables staleness detection");
}

#[test]
fn staleness_compares_strictly() {
    let newer = source_with(&[("asset", 15)]);
    let handle = SingleFile::new(StampFormat, 10, (), String::from("asset"), newer);
    assert!(handle.needs_reload(), "a strictly newer stamp is stale");

    let equal = source_with(&[("asset", 10)]);
    let handle = SingleFile::new(StampFormat, 10, (), String::from("asset"), equal);
    assert!(!handle.needs_reload(), "an equal stamp is fresh");

    let older = source_with(&[("asset", 9)]);
    let handle = SingleFile::new(StampFormat, 10, (), String::from("asset"), older);
    assert!(!handle.needs_reload(), "an older stamp is fresh");
}

#[test]
fn query_failure_resolves_to_fresh() {
    let source = source_with(&[("other", 50)]);
    let handle = SingleFile::new(StampFormat, 10, (), String::from("asset"), source);
    assert!(!handle.needs_reload(), "a failed query never reports stale");
}

#[test]
fn duplicate_answers_like_the_original() {
    let source = source_with(&[("asset", 15)]);
    let handle = SingleFile::new(StampFormat, 10, (), String::from("asset"), source);
    let copy = handle.duplicate();
    assert_eq!(handle.needs_reload(), copy.needs_reload());
    assert!(copy.needs_reload());
    assert_eq!(copy.name(), "asset");
    assert_eq!(copy.format(), "stamp");

    let fresh = source_with(&[("asset", 10)]);
    let handle = SingleFile::new(StampFormat, 10, (), String::from("asset"), fresh);
    let copy = handle.duplicate();
    assert_eq!(handle.needs_reload(), copy.needs_reload());
    assert!(!copy.needs_reload());
}

#[test]
fn handle_reports_name_and_format() {
    let source = source_with(&[]);
    let handle = SingleFile::new(StampFormat, 1, (), String::from("dir/asset.ron"), source);
    assert_eq!(handle.name(), "dir/asset.ron");
    assert_eq!(handle.format(), "stamp");
}

#[test]
fn reload_failure_surfaces_the_import_error() {
    let source = source_with(&[("asset", 15)]);
    let handle = SingleFile::new(BrokenFormat, 10, (), String::from("asset"), source);
    let err = handle.reload().err().expect("the broken format always fails");
    assert_eq!(err.describe(), "decode failed");
}

#[test]
fn import_without_reload_request_carries_no_handle() {
    let source = source_with(&[("asset", 7)]);
    let value = StampFormat
        .import(String::from("asset"), source, (), false)
        .expect("the stamp is recorded");
    assert_eq!(value.data, 7);
    assert!(value.reload.is_none());
}

#[test]
fn end_to_end_due_tick_then_reload() {
    // The cadence: due only once more than two seconds have elapsed.
    let mut strategy = HotReloadStrategy::every_at(2, 0);
    strategy.advance(0);
    assert!(!strategy.needs_reload(), "nothing has elapsed yet");
    strategy.advance(3);
    assert!(strategy.needs_reload(), "three seconds elapsed, two sufficed");

    // The stale handle: loaded at stamp 10, the source now reports 15.
    let source = source_with(&[("asset", 15)]);
    let handle = SingleFile::new(StampFormat, 10, (), String::from("asset"), source);
    assert!(handle.needs_reload());

    // Consuming reload: a fresh value plus a new handle at the fresh
    // baseline, which is no longer stale.
    let value = handle.reload().expect("the stamp is recorded");
    assert_eq!(value.data, 15);
    let next = value.reload.expect("reload metadata was requested");
    assert_eq!(next.modified, 15);
    assert_eq!(next.name(), "asset");
    assert!(!next.needs_reload(), "the fresh baseline matches the source");
}

#[test]
fn staleness_decision_over_query_outcomes() {
    assert!(is_stale(10, Ok(15)));
    assert!(!is_stale(10, Ok(10)));
    assert!(!is_stale(10, Ok(9)));
    assert!(!is_stale(10, Err(SourceError::new(String::from("unreadable")))));
    assert!(!is_stale(0, Ok(15)), "a zero baseline ignores every outcome");
    assert!(!is_stale(0, Err(SourceError::new(String::new()))));
}

#[test]
fn error_values_carry_their_description() {
    let i = ImportError::new(String::from("boom"));
    assert_eq!(i.describe(), "boom");
    let source = MemorySource::new();
    let e = source.modified("missing").err().expect("nothing is recorded");
    assert_eq!(e.describe(), "");
}
