use vstd::prelude::*;

verus! {

/// Period of the drain cycle, in seconds: how long the cycle sleeps between
/// one take-and-clear and the next.
pub const TICK_SECONDS: u64 = 1;

/// The phases of the drain cycle. The cycle has no terminal phase: it runs
/// for the lifetime of the process, and entries still pending or still
/// waiting inside dispatch tasks at process exit are simply lost.
#[derive(Clone, Copy, PartialEq, Eq, Structural, Debug)]
pub enum DrainPhase {
    /// Waiting for the tick that begins the next drain.
    Idle,
    /// Taking the store's whole contents and spawning the dispatch tasks.
    Draining,
    /// Suspended for one tick period, holding no lock.
    Sleeping,
}

/// What the runner of the cycle must do to move out of a phase.
#[derive(Clone, Copy, PartialEq, Eq, Structural, Debug)]
pub enum DrainAction {
    /// Begin the tick: nothing to wait for, proceed to the drain.
    BeginTick,
    /// Take-and-clear the pending store and spawn one dispatch task per
    /// entry taken.
    DrainNow,
    /// Suspend for the given number of seconds without holding any lock.
    SleepFor(u64),
}

/// The cycle's transition function, as a mathematical map.
pub open spec fn spec_advance(p: DrainPhase) -> (DrainPhase, DrainAction) {
    match p {
        DrainPhase::Idle => (DrainPhase::Draining, DrainAction::BeginTick),
        DrainPhase::Draining => (DrainPhase::Sleeping, DrainAction::DrainNow),
        DrainPhase::Sleeping => (DrainPhase::Idle, DrainAction::SleepFor(TICK_SECONDS)),
    }
}

/// One step of the drain cycle: from the current phase, the next phase and
/// the action the runner performs on the way. On a tick the cycle leaves
/// `Idle` for `Draining`; the drain itself moves it to `Sleeping`; one fixed
/// period of sleep returns it to `Idle`. The runner performs the action
/// after the call, so the drain happens between `Draining` and `Sleeping`
/// and the sleep holds no lock.
pub fn advance(p: DrainPhase) -> (r: (DrainPhase, DrainAction))
    ensures
        r == spec_advance(p),
{
    match p {
        DrainPhase::Idle => (DrainPhase::Draining, DrainAction::BeginTick),
        DrainPhase::Draining => (DrainPhase::Sleeping, DrainAction::DrainNow),
        DrainPhase::Sleeping => (DrainPhase::Idle, DrainAction::SleepFor(TICK_SECONDS)),
    }
}

/// The cycle repeats forever with period three: from any phase, three steps
/// lead back to it, so no run of the cycle ever halts, skips a drain, or
/// skips the sleep between two drains.
pub proof fn lemma_cycle_period(p: DrainPhase)
    ensures
        spec_advance(spec_advance(spec_advance(p).0).0).0 == p,
{
}

/// Exactly one of the three steps of each revolution performs the drain,
/// and exactly one suspends — for one full tick period.
pub proof fn lemma_one_drain_one_sleep_per_revolution(p: DrainPhase)
    ensures
        exists|k: int|
            0 <= k < 3 && #[trigger] nth_action(p, k) == DrainAction::DrainNow && forall|j: int|
                0 <= j < 3 && j != k ==> nth_action(p, j) != DrainAction::DrainNow,
        exists|k: int|
            0 <= k < 3 && #[trigger] nth_action(p, k) == DrainAction::SleepFor(TICK_SECONDS)
                && forall|j: int|
                0 <= j < 3 && j != k ==> nth_action(p, j) != DrainAction::SleepFor(TICK_SECONDS),
{
    reveal_with_fuel(nth_action, 4);
    match p {
        DrainPhase::Idle => {
            assert(nth_action(p, 1) == DrainAction::DrainNow);
            assert(nth_action(p, 2) == DrainAction::SleepFor(TICK_SECONDS));
        },
        DrainPhase::Draining => {
            assert(nth_action(p, 0) == DrainAction::DrainNow);
            assert(nth_action(p, 1) == DrainAction::SleepFor(TICK_SECONDS));
        },
        DrainPhase::Sleeping => {
            assert(nth_action(p, 2) == DrainAction::DrainNow);
            assert(nth_action(p, 0) == DrainAction::SleepFor(TICK_SECONDS));
        },
    }
}

/// The action of the cycle's step number `k` (zero-based) when it starts
/// from phase `p`.
pub open spec fn nth_action(p: DrainPhase, k: int) -> DrainAction
    decreases k,
{
    if k <= 0 {
        spec_advance(p).1
    } else {
        nth_action(spec_advance(p).0, k - 1)
    }
}

} // verus!
