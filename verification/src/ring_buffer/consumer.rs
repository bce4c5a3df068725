//! The event-processing unit.
//!
//! A consumer repeatedly waits on its barrier, processes every newly
//! available entry in sequence order, then republishes its own progress so
//! that downstream stages can depend on it.  The handler capability is the
//! sole data boundary the transport exposes outward: it is invoked once per
//! available entry, in increasing sequence order, with the slot, the
//! sequence number and an end-of-batch flag.

use std::sync::Arc;
use vstd::prelude::*;

use crate::INITIAL_SEQUENCE;
use crate::ring_buffer::barrier::SequenceBarrier;
use crate::ring_buffer::producer::clone_arc;
use crate::ring_buffer::ring::RingBuffer;
use crate::ring_buffer::sequence::AtomicSequence;
use crate::ring_buffer::sequence::SequenceCounter;
use crate::ring_buffer::wait_strategy::HaltFlag;
use crate::ring_buffer::wait_strategy::WaitResult;

verus! {

/// The per-entry callback capability of one consumer stage.  An
/// implementation carries an abstract processing log; every invocation
/// appends exactly the entry and sequence it was handed, which is what makes
/// "each sequence processed exactly once, in order" provable for the
/// processing loop.
pub trait EventHandler<E>: Sized {
    /// Abstract log of every `(sequence, entry)` pair handled so far, in the
    /// order they were handed over.
    spec fn processed(&self) -> Seq<(i64, E)>;

    /// Handles one entry.  `end_of_batch` marks the last entry of the
    /// current batch.
    fn on_event(&mut self, entry: &E, sequence: i64, end_of_batch: bool)
        ensures
            final(self).processed() == old(self).processed().push((sequence, *entry)),
    ;
}

/// A handler that records every delivery: the plainest useful consumer, and
/// the witness that delivery order is observable.
pub struct RecordingHandler<E> {
    log: Vec<(i64, E)>,
}

impl<E: Copy> RecordingHandler<E> {
    /// An empty log.
    pub fn new() -> (h: RecordingHandler<E>)
        ensures
            h.processed() == Seq::<(i64, E)>::empty(),
    {
        RecordingHandler { log: Vec::new() }
    }

    /// How many entries have been handled.
    pub fn count(&self) -> (n: usize)
        ensures
            n == self.processed().len(),
    {
        self.log.len()
    }

    /// The `i`-th delivery, in handling order.
    pub fn entry_at(&self, i: usize) -> (e: (i64, E))
        requires
            i < self.processed().len(),
        ensures
            e == self.processed()[i as int],
    {
        self.log[i]
    }
}

impl<E: Copy> EventHandler<E> for RecordingHandler<E> {
    closed spec fn processed(&self) -> Seq<(i64, E)> {
        self.log@
    }

    fn on_event(&mut self, entry: &E, sequence: i64, end_of_batch: bool) {
        self.log.push((sequence, *entry));
    }
}

/// The deliveries a batch hands over: for every sequence `s` in
/// `next ..= available`, in increasing order, the pair of `s` and the slot
/// content at `s % capacity`.
pub open spec fn batch_log<E>(ring: Seq<E>, capacity: int, next: int, available: int) -> Seq<
    (i64, E),
>
    recommends
        capacity > 0,
        next >= 0,
{
    Seq::new(
        if available + 1 - next >= 0 {
            (available + 1 - next) as nat
        } else {
            0
        },
        |k: int| ((next + k) as i64, ring[(next + k) % capacity]),
    )
}

/// Processes one batch: invokes `handler` once per sequence in
/// `next ..= available`, in increasing order, passing the slot content and
/// marking the last entry of the batch.  The handler's log is extended by
/// exactly that batch — each sequence exactly once, none skipped, none
/// repeated, in FIFO order.
pub fn process_batch<E, H: EventHandler<E>>(
    handler: &mut H,
    ring: &RingBuffer<E>,
    next: i64,
    available: i64,
)
    requires
        ring.wf(),
        0 <= next,
        next - 1 <= available,
        available < i64::MAX,
        available as int <= usize::MAX as int,
    ensures
        final(handler).processed() == old(handler).processed() + batch_log(
            ring@,
            ring.spec_capacity(),
            next as int,
            available as int,
        ),
{
    let ghost full_batch = batch_log(ring@, ring.spec_capacity(), next as int, available as int);
    let mut s: i64 = next;
    proof {
        assert(old(handler).processed() + full_batch.take(0) =~= old(handler).processed());
    }
    while s <= available
        invariant
            ring.wf(),
            0 <= next <= s <= available + 1,
            available < i64::MAX,
            available as int <= usize::MAX as int,
            full_batch == batch_log(ring@, ring.spec_capacity(), next as int, available as int),
            handler.processed() == old(handler).processed() + full_batch.take(s - next),
        decreases available + 1 - s,
    {
        let entry = ring.get(s);
        let end_of_batch = s == available;
        handler.on_event(entry, s, end_of_batch);
        proof {
            assert(full_batch.take(s + 1 - next) =~= full_batch.take(s - next).push(
                full_batch[s - next],
            ));
            assert(old(handler).processed() + full_batch.take(s + 1 - next) =~= (old(
                handler,
            ).processed() + full_batch.take(s - next)).push(full_batch[s - next]));
        }
        s = s + 1;
    }
    proof {
        assert(full_batch.take(available + 1 - next) =~= full_batch);
    }
}

/// What one wake cycle of an event processor did.
#[derive(Debug, PartialEq, Eq, Structural, Clone, Copy)]
pub enum ProcessorStep {
    /// A batch ending at the carried sequence was handled and the progress
    /// sequence republished.
    ProcessedUpTo(i64),
    /// The halt signal was observed; the loop must exit without processing
    /// further entries.
    HaltedExit,
    /// Nothing new was available within the wait budget.
    NoWork,
}

/// One consumer stage: owns its handler, its progress sequence (shared so
/// that downstream barriers can depend on it) and the barrier it is gated
/// on.
pub struct EventProcessor<H> {
    handler: H,
    barrier: SequenceBarrier,
    progress: Arc<SequenceCounter>,
    sequence: i64,
}

impl<H> EventProcessor<H> {
    /// The last sequence this stage has processed.
    pub closed spec fn spec_sequence(&self) -> int {
        self.sequence as int
    }

    /// The handler's state.
    pub closed spec fn spec_handler(&self) -> H {
        self.handler
    }

    /// Progress starts at the sentinel before slot zero.
    pub closed spec fn wf(&self) -> bool {
        self.sequence >= -1
    }

    /// A stage that has processed nothing yet.
    pub fn new(handler: H, barrier: SequenceBarrier) -> (p: EventProcessor<H>)
        ensures
            p.wf(),
            p.spec_sequence() == -1,
            p.spec_handler() == handler,
    {
        EventProcessor {
            handler,
            barrier,
            progress: Arc::new(SequenceCounter::new(INITIAL_SEQUENCE)),
            sequence: INITIAL_SEQUENCE,
        }
    }

    /// The stage's shared progress sequence.
    pub closed spec fn spec_progress(&self) -> Arc<SequenceCounter> {
        self.progress
    }

    /// A handle onto this stage's progress sequence, for the barriers of
    /// downstream stages and for producer gating.
    pub fn progress_handle(&self) -> (h: Arc<SequenceCounter>)
        ensures
            h == self.spec_progress(),
    {
        clone_arc(&self.progress)
    }

    /// The halt flag this stage's barrier checks on every wait iteration.
    pub closed spec fn spec_halt(&self) -> Arc<HaltFlag> {
        self.barrier.spec_halt()
    }

    /// A handle onto this stage's halt flag, for whoever must be able to
    /// interrupt its wait — the executor keeps one per managed stage.
    pub fn halt_handle(&self) -> (h: Arc<HaltFlag>)
        ensures
            h == self.spec_halt(),
    {
        self.barrier.halt_handle()
    }

    /// Signals this stage to stop.  Does not wait for the loop to exit:
    /// the executor separately awaits the exit of every managed loop.
    pub fn halt(&self) {
        let halt = self.barrier.halt_handle();
        halt.halt();
    }

    /// Gives back the handler, consuming the stage.
    pub fn into_handler(self) -> (h: H)
        ensures
            h == self.spec_handler(),
    {
        self.handler
    }

    /// One wake cycle, the body of the run loop: wait for the next unseen
    /// sequence, and on availability handle every newly available entry in
    /// increasing order, then republish progress.  On a halt outcome the
    /// cycle reports that the loop must exit, having processed nothing
    /// further.
    pub fn run_once<E>(&mut self, ring: &RingBuffer<E>, budget: u64) -> (step: ProcessorStep)
        where
            H: EventHandler<E>,
        requires
            old(self).wf(),
            ring.wf(),
        ensures
            final(self).wf(),
            match step {
                ProcessorStep::ProcessedUpTo(av) => {
                    &&& av > old(self).spec_sequence()
                    &&& final(self).spec_sequence() == av
                    &&& final(self).spec_handler().processed() == old(
                        self,
                    ).spec_handler().processed() + batch_log(
                        ring@,
                        ring.spec_capacity(),
                        old(self).spec_sequence() + 1,
                        av as int,
                    )
                },
                ProcessorStep::HaltedExit => *final(self) == *old(self),
                ProcessorStep::NoWork => *final(self) == *old(self),
            },
    {
        if self.sequence == i64::MAX {
            return ProcessorStep::NoWork;
        }
        let next = self.sequence + 1;
        let outcome = self.barrier.wait_for(next, budget);
        match outcome {
            Some(WaitResult::Halted) => ProcessorStep::HaltedExit,
            Some(WaitResult::Available(available)) => {
                if available < next || available == i64::MAX || available as u64 > (
                usize::MAX as u64) {
                    // The barrier reported nothing usable for this ring.
                    return ProcessorStep::NoWork;
                }
                process_batch(&mut self.handler, ring, next, available);
                self.sequence = available;
                self.progress.set(available);
                ProcessorStep::ProcessedUpTo(available)
            },
            None => ProcessorStep::NoWork,
        }
    }
}

} // verus!
