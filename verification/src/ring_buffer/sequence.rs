//! Atomically updated sequence counters.
//!
//! A `SequenceCounter` is the shared position marker of one producer or
//! consumer stage.  Loads and stores go through the platform atomics with
//! acquire and release ordering, so a published value establishes a
//! happens-before edge from the writer to every reader.  Because the counter
//! is shared between threads of control, nothing is assumed about the value a
//! load returns: all gating decisions are made by verified functions over the
//! loaded values.

use core::sync::atomic::AtomicI64;
use core::sync::atomic::Ordering;
use std::sync::Arc;
use vstd::prelude::*;

use crate::Sequence;
use crate::ring_buffer::cursor_sequence::min_sequence;

verus! {

/// A monotonic position counter shared between execution contexts.
pub trait AtomicSequence: Sized {
    /// Current value, loaded with acquire ordering.
    fn get(&self) -> Sequence;

    /// Publishes `value` with release ordering.
    fn set(&self, value: Sequence);

    /// Atomically replaces `expected` by `new`; reports whether the exchange
    /// took place.
    fn compare_and_set(&self, expected: Sequence, new: Sequence) -> bool;
}

/// The one counter implementation: an atomic 64-bit integer.
pub struct SequenceCounter {
    value: AtomicI64,
}

impl SequenceCounter {
    /// A counter starting at `initial`.
    pub fn new(initial: Sequence) -> SequenceCounter {
        SequenceCounter { value: AtomicI64::new(initial) }
    }
}

impl AtomicSequence for SequenceCounter {
    fn get(&self) -> Sequence {
        self.value.load(Ordering::Acquire)
    }

    fn set(&self, value: Sequence) {
        self.value.store(value, Ordering::Release);
    }

    fn compare_and_set(&self, expected: Sequence, new: Sequence) -> bool {
        self.value.compare_exchange(expected, new, Ordering::AcqRel, Ordering::Acquire).is_ok()
    }
}

/// Loads a snapshot of every counter and returns the smallest value seen, or
/// the default sentinel `0` when `sequences` is empty.  The counters are
/// shared, so beyond the empty case nothing can be promised of the loaded
/// values themselves; `min_sequence`, one call down, carries the exact
/// minimum semantics over any snapshot.
pub fn get_min_cursor_sequence<S: AtomicSequence>(sequences: &Vec<Arc<S>>) -> (m: Sequence)
    ensures
        sequences@.len() == 0 ==> m == 0,
{
    let mut values: Vec<i64> = Vec::new();
    let mut i: usize = 0;
    while i < sequences.len()
        invariant
            values@.len() == i,
            i <= sequences@.len(),
        decreases sequences@.len() - i,
    {
        values.push(sequences[i].get());
        i += 1;
    }
    min_sequence(&values)
}

} // verus!
