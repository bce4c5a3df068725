//! Producer claim and publish logic.
//!
//! A producer first claims the next sequence, then writes the slot, then
//! publishes by advancing the cursor.  Before a claim is allowed, the
//! producer consults the slowest gating consumer sequence: sequence `s` may
//! only be claimed once `s - min(gating sequences) <= capacity`, so an
//! unconsumed slot is never overwritten.  Capacity exhaustion is therefore
//! not an error: the claim simply has to wait until consumers advance.

use std::sync::Arc;
use vstd::prelude::*;

use crate::ring_buffer::ring::RingBuffer;
use crate::ring_buffer::sequence::AtomicSequence;
use crate::ring_buffer::sequence::SequenceCounter;
use crate::ring_buffer::sequence::get_min_cursor_sequence;

verus! {

/// Relies on `alloc::sync::Arc::clone`: the cloned handle refers to the very
/// same shared value as the original.
#[verifier::external_body]
pub(crate) fn clone_arc<T>(v: &Arc<T>) -> (r: Arc<T>)
    ensures
        r == *v,
{
    Arc::clone(v)
}

/// Reports whether sequence `claimed` may be written without lapping the
/// slowest gating consumer: the claim fits exactly when no more than
/// `capacity` sequences lie behind it that are not yet consumed.
pub fn has_capacity_for(claimed: i64, min_gating: i64, capacity: usize) -> (r: bool)
    requires
        -1 <= min_gating <= claimed,
        claimed < i64::MAX,
        capacity <= usize::MAX / 2,
    ensures
        r == (claimed - min_gating <= capacity),
{
    claimed - min_gating <= capacity as i64
}

/// The single-producer claim strategy: a plain counter with no atomic
/// contention, valid only while exactly one execution context produces.
pub struct SingleProducerSequencer {
    next: i64,
}

impl SingleProducerSequencer {
    /// The next sequence that a claim would return.
    pub closed spec fn spec_next(&self) -> int {
        self.next as int
    }

    /// A sequencer whose first claim returns sequence `0`.
    pub fn new() -> (s: SingleProducerSequencer)
        ensures
            s.spec_next() == 0,
    {
        SingleProducerSequencer { next: 0 }
    }

    /// Claims the next sequence for exclusive write.  Consecutive claims
    /// return consecutive sequences, so no sequence is handed out twice.
    pub fn claim_single(&mut self) -> (s: i64)
        requires
            old(self).spec_next() < i64::MAX,
        ensures
            s == old(self).spec_next(),
            final(self).spec_next() == old(self).spec_next() + 1,
    {
        let s = self.next;
        self.next = self.next + 1;
        s
    }
}

/// Claims `count` consecutive sequences one by one and returns them in claim
/// order: exactly the sequences `first .. first + count`, each handed out
/// once, with no duplicates and no gaps.
pub fn claim_batch(sequencer: &mut SingleProducerSequencer, count: usize) -> (claims: Vec<i64>)
    requires
        old(sequencer).spec_next() + count < i64::MAX,
        0 <= old(sequencer).spec_next(),
    ensures
        claims@.len() == count,
        forall|i: int| 0 <= i < count ==> claims@[i] == old(sequencer).spec_next() + i,
        final(sequencer).spec_next() == old(sequencer).spec_next() + count,
{
    let mut claims: Vec<i64> = Vec::new();
    let mut i: usize = 0;
    while i < count
        invariant
            i <= count,
            claims@.len() == i,
            old(sequencer).spec_next() + count < i64::MAX,
            0 <= old(sequencer).spec_next(),
            sequencer.spec_next() == old(sequencer).spec_next() + i,
            forall|j: int| 0 <= j < i ==> claims@[j] == old(sequencer).spec_next() + j,
        decreases count - i,
    {
        let s = sequencer.claim_single();
        claims.push(s);
        i += 1;
    }
    claims
}

/// Sequences handed out by `claim_batch` are pairwise distinct and cover the
/// contiguous range with no gaps: position `i` holds exactly `first + i`.
pub proof fn lemma_claims_unique(first: int, claims: Seq<i64>)
    requires
        forall|i: int| 0 <= i < claims.len() ==> claims[i] == first + i,
    ensures
        forall|i: int, j: int| 0 <= i < j < claims.len() ==> claims[i] != claims[j],
        forall|s: i64| first <= s < first + claims.len() ==> #[trigger] claims.contains(s),
{
    assert forall|s: i64| first <= s < first + claims.len() implies #[trigger] claims.contains(
        s,
    ) by {
        assert(claims[s - first] == s);
    }
}

/// Publishes a claimed, written sequence: writes the slot, then advances
/// the cursor to `sequence` with a release-ordered store, making the entry
/// visible to every barrier gated on that cursor.  Any parked waiter is
/// signalled by the runtime around this call.
pub fn publish<E>(
    ring: &mut RingBuffer<E>,
    cursor: &SequenceCounter,
    sequence: i64,
    value: E,
)
    requires
        old(ring).wf(),
        0 <= sequence,
        sequence as int <= usize::MAX as int,
    ensures
        final(ring).wf(),
        final(ring).spec_capacity() == old(ring).spec_capacity(),
        final(ring)@ == old(ring)@.update(old(ring).spec_index_of(sequence as int), value),
{
    ring.write_slot(sequence, value);
    cursor.set(sequence);
}

/// The multi-producer claim strategy: a shared atomic next-sequence counter.
/// A claim retries a compare-and-exchange until it succeeds, so no two
/// producer contexts are ever granted the same sequence even under
/// contention.  The counter is shared state, so nothing is assumed here
/// about the concrete value a claim returns; callers gate every claimed
/// value through `has_capacity_for` before writing.
pub struct MultiProducerSequencer {
    next: Arc<SequenceCounter>,
}

impl MultiProducerSequencer {
    /// The shared next-sequence counter.
    pub closed spec fn spec_counter(&self) -> Arc<SequenceCounter> {
        self.next
    }

    /// A sequencer whose shared counter starts at sequence `0`.
    pub fn new() -> MultiProducerSequencer {
        MultiProducerSequencer { next: Arc::new(SequenceCounter::new(0)) }
    }

    /// A second handle onto the very same shared counter, for another
    /// producer execution context: claims through either handle contend on
    /// one counter and so never overlap.
    pub fn share(&self) -> (other: MultiProducerSequencer)
        ensures
            other.spec_counter() == self.spec_counter(),
    {
        MultiProducerSequencer { next: clone_arc(&self.next) }
    }

    /// Atomically claims the next sequence, retrying a conflicting concurrent
    /// claim up to `retries` more times.  Contention is internal and never
    /// surfaced as an error; a `None` says only that the retry budget ran
    /// out (or the shared counter would overflow) and the claim should be
    /// attempted again.  The counter is shared between producer contexts, so
    /// nothing more is promised of the claimed value than its overflow
    /// guard: a granted sequence always leaves room for the successor.
    pub fn claim_multi(&self, retries: usize) -> (r: Option<i64>)
        ensures
            r matches Some(s) ==> s < i64::MAX,
    {
        let mut attempts_left: usize = retries;
        loop
            decreases attempts_left,
        {
            let current = self.next.get();
            if current == i64::MAX {
                return None;
            }
            if self.next.compare_and_set(current, current + 1) {
                return Some(current);
            }
            if attempts_left == 0 {
                return None;
            }
            attempts_left = attempts_left - 1;
        }
    }
}

/// Waits until sequence `claimed` fits without lapping a gating consumer,
/// re-reading the gating sequences up to `retries + 1` times.  A returned
/// minimum guarantees the claim fits; `None` says the claim still has to
/// wait and must be retried before writing — the claim never proceeds over
/// an unconsumed slot.
pub fn wait_for_capacity(
    claimed: i64,
    gating: &Vec<Arc<SequenceCounter>>,
    capacity: usize,
    retries: usize,
) -> (r: Option<i64>)
    requires
        0 <= claimed < i64::MAX,
        capacity <= usize::MAX / 2,
    ensures
        match r {
            Some(min_seen) => claimed as int - min_seen as int <= capacity as int,
            None => true,
        },
{
    let mut attempts_left: usize = retries;
    loop
        invariant
            0 <= claimed < i64::MAX,
            capacity <= usize::MAX / 2,
        decreases attempts_left,
    {
        let min_gating = get_min_cursor_sequence(gating);
        if min_gating > claimed {
            // Every gating consumer is already past the claimed sequence.
            return Some(min_gating);
        }
        if -1 <= min_gating {
            if has_capacity_for(claimed, min_gating, capacity) {
                return Some(min_gating);
            }
        }
        if attempts_left == 0 {
            return None;
        }
        attempts_left = attempts_left - 1;
    }
}

} // verus!
