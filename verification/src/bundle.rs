//! One-time wiring: a bundle that carries the strategy to install as
//! shared state when hot reload is activated.

use vstd::prelude::*;
use crate::strategy::HotReloadStrategy;
use crate::strategy::spec_every;
use crate::strategy::spec_is_due;

verus! {

/// Activates hot reload: carries the `HotReloadStrategy` to be installed
/// as shared state, alongside which a `HotReloadSystem` is to be
/// registered after all asset-processing steps of the tick.
pub struct HotReloadBundle {
    /// The strategy to install.
    pub strategy: HotReloadStrategy,
}

impl HotReloadBundle {
    /// Creates a new bundle.
    pub fn new(strategy: HotReloadStrategy) -> (r: Self)
        ensures
            r.strategy == strategy,
    {
        HotReloadBundle { strategy }
    }

    /// Hands out the strategy for installation into shared state.
    pub fn into_strategy(self) -> (r: HotReloadStrategy)
        ensures
            r == self.strategy,
    {
        self.strategy
    }
}

impl Default for HotReloadBundle {
    /// A bundle carrying the default strategy, `every(1)`.
    fn default() -> (r: Self)
        ensures
            exists|now: u64| r.strategy == spec_every(1, now),
            !spec_is_due(r.strategy),
    {
        HotReloadBundle { strategy: HotReloadStrategy::default() }
    }
}

} // verus!
