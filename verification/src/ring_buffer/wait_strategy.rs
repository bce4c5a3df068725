//! Pluggable wait behaviour.
//!
//! A barrier waits for a target sequence by repeatedly checking what is
//! available and, between checks, spending time the way its configured
//! strategy dictates: burning the core, yielding to the scheduler, sleeping
//! with growing backoff, or parking until a publisher signals.  The choice of
//! what to do next is a pure decision over the observed state, made here and
//! proved exact; performing a yield, a sleep or a park is the runtime's job.
//! Every strategy checks the halt flag first on every iteration, so no
//! variant waits past a halt signal.

use core::sync::atomic::AtomicBool;
use core::sync::atomic::Ordering;
use vstd::prelude::*;

verus! {

/// Outcome of a completed wait: either the barrier reports sequences up to
/// and including the carried value as available, or the wait was interrupted
/// by a halt signal — a normal termination, not an error.
#[derive(Debug, PartialEq, Eq, Structural, Clone, Copy)]
pub enum WaitResult {
    Available(i64),
    Halted,
}

/// The closed set of wait strategy variants, fixed at configuration time.
#[derive(Debug, PartialEq, Eq, Structural, Clone, Copy)]
pub enum WaitStrategy {
    /// Tight re-check loop: lowest latency, a full core burned.
    BusySpin,
    /// Spins briefly, then yields the thread of control each iteration.
    Yielding,
    /// Spins briefly, then sleeps with increasing backoff.
    Sleeping,
    /// Parks on a condition variable until a publisher signals.
    Blocking,
}

/// What a waiting consumer must do next.
#[derive(Debug, PartialEq, Eq, Structural, Clone, Copy)]
pub enum WaitAction {
    /// The wait is over, with this outcome.
    Finish(WaitResult),
    /// Re-check immediately.
    SpinAgain,
    /// Yield the thread of control to the scheduler, then re-check.
    YieldControl,
    /// Sleep for the carried number of nanoseconds, then re-check.
    SleepFor(u64),
    /// Park until a publish signal arrives, then re-check.
    Park,
}

/// Spins a yielding strategy performs before it starts yielding.
pub const YIELD_SPIN_LIMIT: u64 = 100;

/// Spins a sleeping strategy performs before it starts sleeping.
pub const SLEEP_SPIN_LIMIT: u64 = 100;

/// Backoff step of the sleeping strategy, in nanoseconds.
pub const SLEEP_STEP_NANOS: u64 = 1000;

/// Ceiling on a single backoff sleep, in nanoseconds.
pub const SLEEP_MAX_NANOS: u64 = 1000000;

/// Backoff of the sleeping strategy: grows by one step per sleep already
/// taken, capped at the ceiling.
pub open spec fn spec_backoff_nanos(sleeps: u64) -> int {
    if (sleeps + 1) * SLEEP_STEP_NANOS <= SLEEP_MAX_NANOS {
        (sleeps + 1) * SLEEP_STEP_NANOS
    } else {
        SLEEP_MAX_NANOS as int
    }
}

/// The increasing, capped backoff duration after `sleeps` completed sleeps.
pub fn backoff_nanos(sleeps: u64) -> (nanos: u64)
    ensures
        nanos == spec_backoff_nanos(sleeps),
{
    if sleeps < SLEEP_MAX_NANOS / SLEEP_STEP_NANOS {
        (sleeps + 1) * SLEEP_STEP_NANOS
    } else {
        SLEEP_MAX_NANOS
    }
}

/// One wait iteration of every strategy, as a pure decision over the state
/// the caller observed: the halt flag is honoured first, an available target
/// ends the wait, and otherwise the strategy dictates how the next pause is
/// spent.  `spins` counts the iterations already spent in this wait.
pub fn wait_decision(
    strategy: WaitStrategy,
    desired: i64,
    available: i64,
    halted: bool,
    spins: u64,
) -> (action: WaitAction)
    ensures
        halted ==> action == WaitAction::Finish(WaitResult::Halted),
        !halted && available >= desired ==> action == WaitAction::Finish(
            WaitResult::Available(available),
        ),
        !halted && available < desired ==> match strategy {
            WaitStrategy::BusySpin => action == WaitAction::SpinAgain,
            WaitStrategy::Yielding => action == if spins < YIELD_SPIN_LIMIT {
                WaitAction::SpinAgain
            } else {
                WaitAction::YieldControl
            },
            WaitStrategy::Sleeping => action == if spins < SLEEP_SPIN_LIMIT {
                WaitAction::SpinAgain
            } else {
                WaitAction::SleepFor(spec_backoff_nanos((spins - SLEEP_SPIN_LIMIT) as u64) as u64)
            },
            WaitStrategy::Blocking => action == WaitAction::Park,
        },
{
    if halted {
        return WaitAction::Finish(WaitResult::Halted);
    }
    if available >= desired {
        return WaitAction::Finish(WaitResult::Available(available));
    }
    match strategy {
        WaitStrategy::BusySpin => WaitAction::SpinAgain,
        WaitStrategy::Yielding => {
            if spins < YIELD_SPIN_LIMIT {
                WaitAction::SpinAgain
            } else {
                WaitAction::YieldControl
            }
        },
        WaitStrategy::Sleeping => {
            if spins < SLEEP_SPIN_LIMIT {
                WaitAction::SpinAgain
            } else {
                WaitAction::SleepFor(backoff_nanos(spins - SLEEP_SPIN_LIMIT))
            }
        },
        WaitStrategy::Blocking => WaitAction::Park,
    }
}

/// The shared halt signal of one consumer: an atomic flag set once by
/// `halt()` and read at every wait iteration and loop cycle.
pub struct HaltFlag {
    flag: AtomicBool,
}

impl HaltFlag {
    /// A cleared flag: the consumer may run.
    pub fn new() -> HaltFlag {
        HaltFlag { flag: AtomicBool::new(false) }
    }

    /// Signals the consumer to stop; does not wait for it to do so.
    pub fn halt(&self) {
        self.flag.store(true, Ordering::Release);
    }

    /// Reads the signal; checked each wait iteration so that no strategy
    /// waits indefinitely past a halt.
    pub fn is_halted(&self) -> bool {
        self.flag.load(Ordering::Acquire)
    }
}

} // verus!
