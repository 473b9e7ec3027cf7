//! The reload cadence policy: a state machine that decides once per tick
//! whether "now" is a reload-eligible moment.
//!
//! Time is measured in whole seconds on a monotonically comparable
//! timeline. The verified transitions take the current reading as an
//! argument; [`HotReloadStrategy::every`] and [`HotReloadSystem::run`]
//! obtain that reading from the process clock through a trusted call.

use vstd::prelude::*;

verus! {

/// The three mutually exclusive cadence policies.
pub enum HotReloadStrategyInner {
    /// Reload-eligible once more than `interval` seconds have elapsed
    /// since `last`; `do_reload` is recomputed on every tick advance
    /// and stable for the remainder of that tick.
    Every { interval: u8, last: u64, do_reload: bool },
    /// Reload-eligible while armed; cleared by the next tick advance.
    Trigger { triggered: bool },
    /// Never reload-eligible.
    Never,
}

/// A shared configuration resource deciding when assets are checked for
/// staleness. Read any number of times within a tick; advanced exactly
/// once per tick, after all readers of that tick.
pub struct HotReloadStrategy {
    /// The current policy state.
    pub inner: HotReloadStrategyInner,
}

/// Seconds elapsed from `last` to `now`; zero when the readings are out
/// of order, so that a non-monotonic reading never becomes eligibility.
pub open spec fn spec_elapsed(last: u64, now: u64) -> u64 {
    if now >= last {
        (now - last) as u64
    } else {
        0
    }
}

/// The strategy state produced by `every` when the clock reads `now`.
pub open spec fn spec_every(n: u8, now: u64) -> HotReloadStrategy {
    HotReloadStrategy {
        inner: HotReloadStrategyInner::Every { interval: n, last: now, do_reload: false },
    }
}

/// The strategy state produced by `when_triggered`.
pub open spec fn spec_when_triggered() -> HotReloadStrategy {
    HotReloadStrategy { inner: HotReloadStrategyInner::Trigger { triggered: false } }
}

/// The strategy state produced by `never`.
pub open spec fn spec_never() -> HotReloadStrategy {
    HotReloadStrategy { inner: HotReloadStrategyInner::Never }
}

/// Whether the current tick is reload-eligible.
pub open spec fn spec_is_due(s: HotReloadStrategy) -> bool {
    match s.inner {
        HotReloadStrategyInner::Every { do_reload, .. } => do_reload,
        HotReloadStrategyInner::Trigger { triggered } => triggered,
        HotReloadStrategyInner::Never => false,
    }
}

/// The state after arming: only a `Trigger` strategy changes.
pub open spec fn spec_trigger(s: HotReloadStrategy) -> HotReloadStrategy {
    match s.inner {
        HotReloadStrategyInner::Trigger { .. } => HotReloadStrategy {
            inner: HotReloadStrategyInner::Trigger { triggered: true },
        },
        _ => s,
    }
}

/// The state after a tick advance when the clock reads `now`:
/// `Every` recomputes eligibility and resets its baseline when it fires,
/// `Trigger` clears its one-tick pulse, `Never` is unchanged.
pub open spec fn spec_advance(s: HotReloadStrategy, now: u64) -> HotReloadStrategy {
    match s.inner {
        HotReloadStrategyInner::Every { interval, last, .. } => {
            if spec_elapsed(last, now) > interval as u64 {
                HotReloadStrategy {
                    inner: HotReloadStrategyInner::Every { interval, last: now, do_reload: true },
                }
            } else {
                HotReloadStrategy {
                    inner: HotReloadStrategyInner::Every { interval, last, do_reload: false },
                }
            }
        },
        HotReloadStrategyInner::Trigger { .. } => HotReloadStrategy {
            inner: HotReloadStrategyInner::Trigger { triggered: false },
        },
        HotReloadStrategyInner::Never => s,
    }
}

/// Relies on `std::time::SystemTime::now`: whole seconds since the Unix
/// epoch, zero when the clock reads earlier than the epoch. Nothing is
/// promised of the reading; every caller states what holds of any value.
#[verifier::external_body]
fn now_seconds() -> u64 {
    match std::time::SystemTime::now().duration_since(std::time::UNIX_EPOCH) {
        Ok(d) => d.as_secs(),
        Err(_) => 0,
    }
}

impl HotReloadStrategy {
    /// Causes hot reloads every `n` seconds, counted from the moment of
    /// construction. An interval of zero is reload-eligible on almost
    /// every tick, which is the intended "as fast as possible" behavior.
    pub fn every(n: u8) -> (r: Self)
        ensures
            exists|now: u64| r == spec_every(n, now),
            !spec_is_due(r),
    {
        let now = now_seconds();
        let r = Self::every_at(n, now);
        proof {
            assert(r == spec_every(n, now));
        }
        r
    }

    /// Causes hot reloads every `n` seconds, counted from the reading
    /// `now` on the caller's timeline.
    pub fn every_at(n: u8, now: u64) -> (r: Self)
        ensures
            r == spec_every(n, now),
    {
        HotReloadStrategy {
            inner: HotReloadStrategyInner::Every { interval: n, last: now, do_reload: false },
        }
    }

    /// Reloads only when `trigger` has been called since the last tick
    /// advance.
    pub fn when_triggered() -> (r: Self)
        ensures
            r == spec_when_triggered(),
    {
        HotReloadStrategy { inner: HotReloadStrategyInner::Trigger { triggered: false } }
    }

    /// Never do any hot-reloading.
    pub fn never() -> (r: Self)
        ensures
            r == spec_never(),
    {
        HotReloadStrategy { inner: HotReloadStrategyInner::Never }
    }

    /// Arms the strategy: the remainder of the current tick (until the
    /// next tick advance) is reload-eligible. Does nothing unless the
    /// strategy was created with `when_triggered`.
    pub fn trigger(&mut self)
        ensures
            *final(self) == spec_trigger(*old(self)),
    {
        if let HotReloadStrategyInner::Trigger { ref mut triggered } = self.inner {
            *triggered = true;
        }
    }

    /// Whether the current tick is reload-eligible. A pure query, safe
    /// to call any number of times within a tick.
    pub fn needs_reload(&self) -> (r: bool)
        ensures
            r == spec_is_due(*self),
    {
        match self.inner {
            HotReloadStrategyInner::Every { do_reload, .. } => do_reload,
            HotReloadStrategyInner::Trigger { triggered } => triggered,
            HotReloadStrategyInner::Never => false,
        }
    }

    /// Advances the per-tick state with the clock reading `now`: the one
    /// mutation point per tick, to run strictly after every reader of
    /// `needs_reload` for that tick.
    pub fn advance(&mut self, now: u64)
        ensures
            *final(self) == spec_advance(*old(self), now),
    {
        match self.inner {
            HotReloadStrategyInner::Every { interval, ref mut last, ref mut do_reload } => {
                let elapsed: u64 = if now >= *last {
                    now - *last
                } else {
                    0
                };
                if elapsed > interval as u64 {
                    *do_reload = true;
                    *last = now;
                } else {
                    *do_reload = false;
                }
            },
            HotReloadStrategyInner::Trigger { ref mut triggered } => {
                *triggered = false;
            },
            HotReloadStrategyInner::Never => {},
        }
    }
}

impl Default for HotReloadStrategy {
    /// Equivalent to `every(1)`.
    fn default() -> (r: Self)
        ensures
            exists|now: u64| r == spec_every(1, now),
            !spec_is_due(r),
    {
        HotReloadStrategy::every(1)
    }
}

/// System for updating a `HotReloadStrategy` once per tick. Register it
/// to run after all asset-processing systems of the tick.
pub struct HotReloadSystem;

impl HotReloadSystem {
    /// Performs the tick advance with the current clock reading.
    pub fn run(&mut self, strategy: &mut HotReloadStrategy)
        ensures
            exists|now: u64| *final(strategy) == spec_advance(*old(strategy), now),
            old(strategy).inner is Never ==> *final(strategy) == *old(strategy),
            old(strategy).inner is Trigger ==> !spec_is_due(*final(strategy)),
    {
        let now = now_seconds();
        strategy.advance(now);
        proof {
            assert(*strategy == spec_advance(*old(strategy), now));
        }
    }
}

/// One interaction with the strategy, for stating laws over arbitrary
/// call sequences: arming, or a tick advance at a clock reading.
pub enum StrategyEvent {
    /// A call of `trigger`.
    Arm,
    /// A tick advance with the clock reading `now`.
    Tick { now: u64 },
}

/// The state reached from `s` by one event.
pub open spec fn spec_step(s: HotReloadStrategy, e: StrategyEvent) -> HotReloadStrategy {
    match e {
        StrategyEvent::Arm => spec_trigger(s),
        StrategyEvent::Tick { now } => spec_advance(s, now),
    }
}

/// The state reached from `s` by a sequence of events, first event first.
pub open spec fn spec_run(s: HotReloadStrategy, events: Seq<StrategyEvent>) -> HotReloadStrategy
    decreases events.len(),
{
    if events.len() == 0 {
        s
    } else {
        spec_run(spec_step(s, events[0]), events.drop_first())
    }
}

/// An `every` strategy is not due at construction; a tick advance makes
/// it due exactly when more than `interval` seconds have elapsed since
/// its baseline, and a firing advance resets the baseline, so the pulse
/// lasts exactly until the next advance recomputes it.
pub proof fn lemma_every_pulse(n: u8, start: u64, now: u64, later: u64)
    ensures
        !spec_is_due(spec_every(n, start)),
        spec_is_due(spec_advance(spec_every(n, start), now)) == (spec_elapsed(start, now) > n
            as u64),
        spec_elapsed(start, now) > n as u64 ==> spec_advance(spec_every(n, start), now)
            == (HotReloadStrategy {
            inner: HotReloadStrategyInner::Every { interval: n, last: now, do_reload: true },
        }),
        spec_elapsed(start, now) > n as u64 ==> spec_is_due(
            spec_advance(spec_advance(spec_every(n, start), now), later),
        ) == (spec_elapsed(now, later) > n as u64),
{
}

/// Arming is read back by `needs_reload` within the tick, and never
/// changes which variant the strategy is.
pub proof fn lemma_trigger_visible(s: HotReloadStrategy)
    ensures
        s.inner is Trigger ==> spec_is_due(spec_trigger(s)),
        !(s.inner is Trigger) ==> spec_trigger(s) == s,
{
}

/// A `never` strategy is unchanged by any sequence of arming and tick
/// advances, and is never due.
pub proof fn lemma_never_quiet(events: Seq<StrategyEvent>)
    ensures
        spec_run(spec_never(), events) == spec_never(),
        !spec_is_due(spec_run(spec_never(), events)),
    decreases events.len(),
{
    if events.len() > 0 {
        assert(spec_step(spec_never(), events[0]) == spec_never());
        lemma_never_quiet(events.drop_first());
    }
}

/// A `when_triggered` strategy stays quiet under any sequence of tick
/// advances that contains no arming.
pub proof fn lemma_triggered_quiet_until_armed(events: Seq<StrategyEvent>)
    requires
        forall|i: int| 0 <= i < events.len() ==> !(events[i] is Arm),
    ensures
        spec_run(spec_when_triggered(), events) == spec_when_triggered(),
        !spec_is_due(spec_run(spec_when_triggered(), events)),
    decreases events.len(),
{
    if events.len() > 0 {
        assert(spec_step(spec_when_triggered(), events[0]) == spec_when_triggered());
        lemma_triggered_quiet_until_armed(events.drop_first());
    }
}

/// Once armed, a `when_triggered` strategy is due and stays due under
/// further arming, until the next tick advance clears it; after that
/// advance it is quiet again even without a new arming.
pub proof fn lemma_triggered_pulse(s: HotReloadStrategy, now: u64)
    requires
        s.inner is Trigger,
    ensures
        spec_is_due(spec_trigger(s)),
        spec_trigger(spec_trigger(s)) == spec_trigger(s),
        !spec_is_due(spec_advance(s, now)),
        spec_advance(s, now) == spec_when_triggered(),
{
}

} // verus!
