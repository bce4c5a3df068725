//! The gating barrier of one consumer stage.
//!
//! A barrier owns a non-owning view of its dependency set: the producer's
//! cursor plus the progress sequences of every upstream stage this consumer
//! must wait behind.  What it reports as available is the minimum over that
//! set at the moment of the check, so a consumer never learns of a sequence
//! before all of its dependencies have passed it.

use std::sync::Arc;
use vstd::prelude::*;

use crate::ring_buffer::cursor_sequence::min_of_values;
use crate::ring_buffer::cursor_sequence::min_sequence;
use crate::ring_buffer::producer::clone_arc;
use crate::ring_buffer::sequence::AtomicSequence;
use crate::ring_buffer::sequence::SequenceCounter;
use crate::ring_buffer::wait_strategy::HaltFlag;
use crate::ring_buffer::wait_strategy::WaitAction;
use crate::ring_buffer::wait_strategy::WaitResult;
use crate::ring_buffer::wait_strategy::WaitStrategy;
use crate::ring_buffer::wait_strategy::wait_decision;

verus! {

/// The available sequence over a dependency snapshot: the minimum of the
/// cursor value and every dependent value.  It never exceeds the cursor nor
/// any member of the dependency set, and it is one of them.
pub fn compute_available(cursor_value: i64, dependent_values: &Vec<i64>) -> (avail: i64)
    ensures
        avail == min_of_values(seq![cursor_value] + dependent_values@),
        avail <= cursor_value,
        forall|i: int| 0 <= i < dependent_values@.len() ==> avail <= dependent_values@[i],
{
    let mut all: Vec<i64> = Vec::new();
    all.push(cursor_value);
    let mut i: usize = 0;
    while i < dependent_values.len()
        invariant
            i <= dependent_values@.len(),
            all@ == seq![cursor_value] + dependent_values@.take(i as int),
        decreases dependent_values@.len() - i,
    {
        all.push(dependent_values[i]);
        proof {
            assert(all@ =~= seq![cursor_value] + dependent_values@.take(i + 1));
        }
        i += 1;
    }
    proof {
        assert(all@ =~= seq![cursor_value] + dependent_values@);
    }
    let m = min_sequence(&all);
    proof {
        assert(all@[0] == cursor_value);
        assert forall|j: int| 0 <= j < dependent_values@.len() implies m
            <= dependent_values@[j] by {
            assert(all@[j + 1] == dependent_values@[j]);
        }
    }
    m
}

/// Computes the availability floor for one consumer stage and delegates waiting to the
/// configured strategy.
pub struct SequenceBarrier {
    cursor: Arc<SequenceCounter>,
    dependents: Vec<Arc<SequenceCounter>>,
    halt: Arc<HaltFlag>,
    strategy: WaitStrategy,
}

impl SequenceBarrier {
    /// How many upstream consumer sequences this barrier is gated on, beside
    /// the cursor.
    pub closed spec fn spec_dependent_count(&self) -> nat {
        self.dependents@.len()
    }

    /// The halt flag this barrier checks on every wait iteration.
    pub closed spec fn spec_halt(&self) -> Arc<HaltFlag> {
        self.halt
    }

    /// The wait strategy this barrier was configured with.
    pub closed spec fn spec_strategy(&self) -> WaitStrategy {
        self.strategy
    }

    /// A barrier gated on `cursor` and on every sequence in `dependents`,
    /// interruptible through `halt`.
    pub fn new(
        cursor: Arc<SequenceCounter>,
        dependents: Vec<Arc<SequenceCounter>>,
        halt: Arc<HaltFlag>,
        strategy: WaitStrategy,
    ) -> (b: SequenceBarrier)
        ensures
            b.spec_dependent_count() == dependents@.len(),
            b.spec_halt() == halt,
            b.spec_strategy() == strategy,
    {
        SequenceBarrier { cursor, dependents, halt, strategy }
    }

    /// The wait strategy this barrier was configured with.
    pub fn strategy(&self) -> (s: WaitStrategy)
        ensures
            s == self.spec_strategy(),
    {
        self.strategy
    }

    /// Loads a snapshot of the dependency set and reports its minimum: the
    /// highest sequence every dependency has passed at the time of the
    /// check.  The counters are shared, so nothing can be promised of the
    /// loaded values themselves; `compute_available`, one call down, proves
    /// the exact minimum semantics over any snapshot.
    pub fn get_available(&self) -> (avail: i64) {
        let cursor_value = self.cursor.get();
        let mut dependent_values: Vec<i64> = Vec::new();
        let mut i: usize = 0;
        while i < self.dependents.len()
            invariant
                dependent_values@.len() == i,
                i <= self.dependents@.len(),
            decreases self.dependents@.len() - i,
        {
            dependent_values.push(self.dependents[i].get());
            i += 1;
        }
        compute_available(cursor_value, &dependent_values)
    }

    /// One wait step: checks the halt flag, then the availability, and decides what
    /// to do next.  An `Available` outcome always carries a sequence at or
    /// past `desired`.
    pub fn poll(&self, desired: i64, spins: u64) -> (action: WaitAction)
        ensures
            action matches WaitAction::Finish(WaitResult::Available(a)) ==> a >= desired,
    {
        let halted = self.halt.is_halted();
        let available = self.get_available();
        wait_decision(self.strategy, desired, available, halted, spins)
    }

    /// Re-checks availability up to `budget` times, spinning in place, until the
    /// target is available, a halt arrives, the strategy asks for the
    /// scheduler's help (a yield, a sleep or a park, which the runtime
    /// performs), or the budget runs out.  A `Some(Available(a))` always
    /// carries `a >= desired`.
    pub fn wait_for(&self, desired: i64, budget: u64) -> (r: Option<WaitResult>)
        ensures
            r matches Some(WaitResult::Available(a)) ==> a >= desired,
    {
        let mut spins: u64 = 0;
        loop
            invariant
                spins <= budget,
            decreases budget - spins,
        {
            let action = self.poll(desired, spins);
            match action {
                WaitAction::Finish(outcome) => {
                    return Some(outcome);
                },
                WaitAction::SpinAgain => {
                    if spins == budget {
                        return None;
                    }
                    spins = spins + 1;
                },
                _ => {
                    return None;
                },
            }
        }
    }

    /// A second handle onto this barrier's halt flag, for whoever must be
    /// able to interrupt the wait.
    pub fn halt_handle(&self) -> (h: Arc<HaltFlag>)
        ensures
            h == self.spec_halt(),
    {
        clone_arc(&self.halt)
    }
}

} // verus!
