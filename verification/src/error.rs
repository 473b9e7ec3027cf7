//! Error values surfaced by the hot-reload subsystem.

use vstd::prelude::*;

verus! {

/// An opaque import failure, propagated unchanged from a format's import
/// call to the caller. The caller is expected to keep the previously
/// loaded asset and retry on a later due tick.
#[derive(Debug)]
pub struct ImportError {
    /// Human-readable description of the failure.
    pub message: String,
}

impl ImportError {
    /// Wraps a description of an import failure.
    pub fn new(message: String) -> (r: Self)
        ensures
            r.message@ == message@,
    {
        ImportError { message }
    }

    /// The description carried by this error.
    pub fn describe(&self) -> (r: &str)
        ensures
            r@ == self.message@,
    {
        self.message.as_str()
    }
}

/// A failure to query a source's modification time. Staleness checks
/// collapse it to "freshness unknown" and never surface it.
#[derive(Debug)]
pub struct SourceError {
    /// Human-readable description of the failure.
    pub message: String,
}

impl SourceError {
    /// Wraps a description of a source-query failure.
    pub fn new(message: String) -> (r: Self)
        ensures
            r.message@ == message@,
    {
        SourceError { message }
    }

    /// The description carried by this error.
    pub fn describe(&self) -> (r: &str)
        ensures
            r@ == self.message@,
    {
        self.message.as_str()
    }
}

} // verus!
