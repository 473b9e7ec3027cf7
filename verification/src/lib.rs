//! Hot-reload subsystem for an asset pipeline.
//!
//! The crate decides, on a recurring schedule, whether previously loaded
//! assets should be checked for staleness, and encapsulates, per loaded
//! asset, enough state to re-import it from its original source.
//!
//! [`HotReloadStrategy`] is the per-tick cadence policy: a small state
//! machine advanced once per tick by [`HotReloadSystem`] and read any
//! number of times within a tick. [`Reload`] is the per-asset capability
//! that can report staleness and consume itself to re-import the asset;
//! [`SingleFile`] is its file-backed implementation.

pub mod bundle;
pub mod error;
pub mod handle;
pub mod strategy;

pub use bundle::HotReloadBundle;
pub use error::{ImportError, SourceError};
pub use handle::{Format, FormatValue, MemorySource, Reload, SingleFile, Source};
pub use strategy::{HotReloadStrategy, HotReloadSystem, StrategyEvent};
