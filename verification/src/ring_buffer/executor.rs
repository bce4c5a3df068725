//! Consumer lifecycle management and the in-process pipeline driver.
//!
//! Every consumer walks the lifecycle `Idle -> Running -> Halting -> Halted`
//! and never leaves `Halted`.  The executor tracks that lifecycle for each
//! managed consumer, propagates the halt signal to all of them, and treats a
//! shutdown as complete only when every managed loop has exited — no
//! consumer is abandoned.
//!
//! `run_pipeline` is the transport end to end in one execution context: a
//! single producer claims, writes and publishes every input entry in order,
//! waiting on the gating sequence whenever the ring is full, while the
//! consumer drains batches.  Its contract is the transport's central
//! guarantee: every entry is handed to the handler exactly once, in strict
//! FIFO order, and no slot is overwritten before it was consumed.

use std::sync::Arc;
use vstd::arithmetic::div_mod::lemma_mod_equivalence;
use vstd::arithmetic::div_mod::lemma_small_mod;
use vstd::prelude::*;

use crate::INITIAL_SEQUENCE;
use crate::ring_buffer::consumer::EventHandler;
use crate::ring_buffer::consumer::batch_log;
use crate::ring_buffer::consumer::process_batch;
use crate::ring_buffer::producer::SingleProducerSequencer;
use crate::ring_buffer::producer::has_capacity_for;
use crate::ring_buffer::ring::ConfigError;
use crate::ring_buffer::ring::RingBuffer;
use crate::ring_buffer::wait_strategy::HaltFlag;

verus! {

/// The lifecycle of one consumer's run loop.
#[derive(Debug, PartialEq, Eq, Structural, Clone, Copy)]
pub enum ConsumerState {
    /// Constructed, not yet started.
    Idle,
    /// The processing loop is live.
    Running,
    /// The halt signal is set; the loop has not yet observed it.
    Halting,
    /// The loop has exited.  Never left again.
    Halted,
}

/// What can happen to a consumer's lifecycle.
#[derive(Debug, PartialEq, Eq, Structural, Clone, Copy)]
pub enum LifecycleEvent {
    /// The executor starts the run loop.
    Start,
    /// The halt signal is raised.
    HaltRequested,
    /// The run loop observed the signal and exited.
    LoopExited,
}

/// The lifecycle step function: `Idle -> Running -> Halting -> Halted`, with
/// `Halted` absorbing and every other pairing a no-op.
pub fn next_state(state: ConsumerState, event: LifecycleEvent) -> (next: ConsumerState)
    ensures
        state == ConsumerState::Idle && event == LifecycleEvent::Start ==> next
            == ConsumerState::Running,
        state == ConsumerState::Running && event == LifecycleEvent::HaltRequested ==> next
            == ConsumerState::Halting,
        state == ConsumerState::Halting && event == LifecycleEvent::LoopExited ==> next
            == ConsumerState::Halted,
        state == ConsumerState::Halted ==> next == ConsumerState::Halted,
        next == ConsumerState::Halted ==> state == ConsumerState::Halted || (state
            == ConsumerState::Halting && event == LifecycleEvent::LoopExited),
{
    match (state, event) {
        (ConsumerState::Idle, LifecycleEvent::Start) => ConsumerState::Running,
        (ConsumerState::Running, LifecycleEvent::HaltRequested) => ConsumerState::Halting,
        (ConsumerState::Halting, LifecycleEvent::LoopExited) => ConsumerState::Halted,
        (s, _) => s,
    }
}

/// Tracks the lifecycle of every managed consumer and owns a handle to each
/// consumer's halt flag.
pub struct Executor {
    states: Vec<ConsumerState>,
    halts: Vec<Arc<HaltFlag>>,
}

impl Executor {
    /// The lifecycle states of the managed consumers, in registration order.
    pub closed spec fn spec_states(&self) -> Seq<ConsumerState> {
        self.states@
    }

    /// Structural soundness: one halt flag per managed consumer.
    pub closed spec fn wf(&self) -> bool {
        self.states@.len() == self.halts@.len()
    }

    /// An executor managing no consumers yet.
    pub fn new() -> (e: Executor)
        ensures
            e.wf(),
            e.spec_states().len() == 0,
    {
        Executor { states: Vec::new(), halts: Vec::new() }
    }

    /// Takes a consumer under management, in `Idle` state, and returns its
    /// index.
    pub fn register(&mut self, halt: Arc<HaltFlag>) -> (idx: usize)
        requires
            old(self).wf(),
        ensures
            final(self).wf(),
            idx == old(self).spec_states().len(),
            final(self).spec_states() == old(self).spec_states().push(ConsumerState::Idle),
    {
        let idx = self.states.len();
        self.states.push(ConsumerState::Idle);
        self.halts.push(halt);
        idx
    }

    /// How many consumers are managed.
    pub fn consumer_count(&self) -> (n: usize)
        ensures
            n == self.spec_states().len(),
    {
        self.states.len()
    }

    /// Starts every idle consumer's run loop.
    pub fn start_all(&mut self)
        requires
            old(self).wf(),
            forall|i: int|
                0 <= i < old(self).spec_states().len() ==> old(self).spec_states()[i]
                    == ConsumerState::Idle,
        ensures
            final(self).wf(),
            final(self).spec_states().len() == old(self).spec_states().len(),
            forall|i: int|
                0 <= i < final(self).spec_states().len() ==> final(self).spec_states()[i]
                    == ConsumerState::Running,
    {
        let n = self.states.len();
        let mut i: usize = 0;
        while i < n
            invariant
                self.wf(),
                self.spec_states().len() == n,
                i <= n,
                forall|j: int| 0 <= j < i ==> self.spec_states()[j] == ConsumerState::Running,
                forall|j: int| i <= j < n ==> self.spec_states()[j] == ConsumerState::Idle,
        decreases n - i,
        {
            let next = next_state(self.states[i], LifecycleEvent::Start);
            self.states[i] = next;
            i += 1;
        }
    }

    /// Raises the halt signal of every managed consumer.  Does not wait for
    /// the loops to exit; `mark_exited` and `all_halted` track completion.
    pub fn halt_all(&mut self)
        requires
            old(self).wf(),
            forall|i: int|
                0 <= i < old(self).spec_states().len() ==> old(self).spec_states()[i]
                    == ConsumerState::Running,
        ensures
            final(self).wf(),
            final(self).spec_states().len() == old(self).spec_states().len(),
            forall|i: int|
                0 <= i < final(self).spec_states().len() ==> final(self).spec_states()[i]
                    == ConsumerState::Halting,
    {
        let n = self.states.len();
        let mut i: usize = 0;
        while i < n
            invariant
                self.wf(),
                self.spec_states().len() == n,
                i <= n,
                forall|j: int| 0 <= j < i ==> self.spec_states()[j] == ConsumerState::Halting,
                forall|j: int| i <= j < n ==> self.spec_states()[j] == ConsumerState::Running,
        decreases n - i,
        {
            self.halts[i].halt();
            let next = next_state(self.states[i], LifecycleEvent::HaltRequested);
            self.states[i] = next;
            i += 1;
        }
    }

    /// Records that consumer `idx`'s loop has exited after observing the
    /// halt signal.
    pub fn mark_exited(&mut self, idx: usize)
        requires
            old(self).wf(),
            idx < old(self).spec_states().len(),
            old(self).spec_states()[idx as int] == ConsumerState::Halting,
        ensures
            final(self).wf(),
            final(self).spec_states() == old(self).spec_states().update(
                idx as int,
                ConsumerState::Halted,
            ),
    {
        let next = next_state(self.states[idx], LifecycleEvent::LoopExited);
        self.states[idx] = next;
        proof {
            assert(final(self).spec_states() =~= old(self).spec_states().update(
                idx as int,
                ConsumerState::Halted,
            ));
        }
    }

    /// Shutdown is complete exactly when every managed loop has exited.
    pub fn all_halted(&self) -> (r: bool)
        ensures
            r == forall|i: int|
                0 <= i < self.spec_states().len() ==> self.spec_states()[i]
                    == ConsumerState::Halted,
    {
        let n = self.states.len();
        let mut i: usize = 0;
        while i < n
            invariant
                self.spec_states().len() == n,
                i <= n,
                forall|j: int| 0 <= j < i ==> self.spec_states()[j] == ConsumerState::Halted,
        decreases n - i,
        {
            if !matches!(self.states[i], ConsumerState::Halted) {
                return false;
            }
            i += 1;
        }
        true
    }
}

/// Two distinct sequences less than one lap apart never share a slot.
pub proof fn lemma_distinct_slots(a: int, b: int, capacity: int)
    requires
        0 <= a < b,
        b - a < capacity,
    ensures
        a % capacity != b % capacity,
{
    lemma_mod_equivalence(b, a, capacity);
    lemma_small_mod((b - a) as nat, capacity as nat);
}

/// No producer overwrites an unconsumed slot: a claim that respects the
/// capacity bound against the slowest gating consumer maps to a slot
/// different from that of every published but unconsumed sequence.
pub proof fn lemma_claim_does_not_lap_consumers(claimed: int, consumed: int, capacity: int)
    requires
        0 <= consumed + 1 <= claimed,
        claimed - consumed <= capacity,
    ensures
        forall|j: int| consumed < j < claimed ==> #[trigger] (j % capacity) != claimed % capacity,
{
    assert forall|j: int| consumed < j < claimed implies #[trigger] (j % capacity) != claimed
        % capacity by {
        lemma_distinct_slots(j, claimed, capacity);
    }
}

/// The deliveries owed for the first `upto` inputs: entry `k` under sequence
/// `k`, in input order.
pub open spec fn expected_log<E>(inputs: Seq<E>, upto: int) -> Seq<(i64, E)>
    recommends
        0 <= upto <= inputs.len(),
{
    Seq::new(
        if upto >= 0 {
            upto as nat
        } else {
            0
        },
        |k: int| (k as i64, inputs[k]),
    )
}

/// Runs the whole transport in one execution context: claims, writes and
/// publishes every entry of `inputs` in order through a fresh ring of
/// `capacity` slots, draining the consumer whenever the next claim would
/// otherwise overwrite an unconsumed slot.  On success the handler has been
/// handed exactly the entries of `inputs`, each under its own sequence, in
/// strict FIFO order — nothing skipped, nothing repeated, nothing
/// overwritten before it was consumed.  Fails only when `capacity` is not a
/// power of two, in which case the handler is untouched.
pub fn run_pipeline<E: Copy, H: EventHandler<E>>(
    inputs: &Vec<E>,
    capacity: usize,
    fill: E,
    handler: &mut H,
) -> (r: Result<(), ConfigError>)
    requires
        capacity <= usize::MAX / 2,
        inputs@.len() < i64::MAX,
        old(handler).processed().len() == 0,
    ensures
        match r {
            Ok(()) => final(handler).processed() == expected_log(inputs@, inputs@.len() as int),
            Err(_) => {
                &&& !vstd::arithmetic::power2::is_pow2(capacity as int)
                &&& final(handler).processed() == old(handler).processed()
            },
        },
{
    let ring_or_err = RingBuffer::<E>::new(capacity, fill);
    let mut ring = match ring_or_err {
        Ok(rb) => rb,
        Err(e) => {
            return Err(e);
        },
    };
    let mut sequencer = SingleProducerSequencer::new();
    let n = inputs.len();
    let mut cursor: i64 = INITIAL_SEQUENCE;
    let mut consumed: i64 = INITIAL_SEQUENCE;
    let mut i: usize = 0;
    proof {
        reveal(vstd::arithmetic::power2::is_pow2);
        assert(capacity >= 1);
        assert(old(handler).processed() =~= Seq::<(i64, E)>::empty());
        assert(handler.processed() =~= expected_log(inputs@, 0));
    }
    while i < n
        invariant
            ring.wf(),
            ring.spec_capacity() == capacity,
            ring@.len() == capacity,
            capacity >= 1,
            capacity <= usize::MAX / 2,
            n == inputs@.len() < i64::MAX,
            i <= n,
            sequencer.spec_next() == i,
            cursor == i as int - 1,
            -1 <= consumed <= cursor,
            cursor - consumed <= capacity,
            handler.processed() == expected_log(inputs@, consumed + 1),
            forall|j: int| consumed < j <= cursor ==> ring@[#[trigger] (j % capacity as int)]
                == inputs@[j],
        decreases n - i,
    {
        let sequence = sequencer.claim_single();
        if !has_capacity_for(sequence, consumed, capacity) {
            // The claim would lap an unconsumed slot: drain the consumer up
            // to everything published, then re-check.
            process_batch(handler, &ring, consumed + 1, cursor);
            proof {
                lemma_drained_log(inputs@, ring@, capacity as int, consumed as int, cursor as int);
            }
            consumed = cursor;
        }
        let ghost pre = ring@;
        ring.write_slot(sequence, inputs[i]);
        proof {
            let cap = capacity as int;
            assert(ring@ == pre.update((sequence as int) % cap, inputs@[i as int]));
            assert forall|j: int| consumed < j <= sequence implies ring@[#[trigger] (j % cap)]
                == inputs@[j] by {
                assert(0 <= j % cap < cap) by (nonlinear_arith)
                    requires
                        cap >= 1,
                ;
                assert(0 <= sequence as int % cap < cap) by (nonlinear_arith)
                    requires
                        cap >= 1,
                ;
                if j < sequence {
                    lemma_distinct_slots(j, sequence as int, cap);
                    assert(pre[j % cap] == inputs@[j]);
                }
            }
        }
        cursor = sequence;
        i += 1;
    }
    process_batch(handler, &ring, consumed + 1, cursor);
    proof {
        lemma_drained_log(inputs@, ring@, capacity as int, consumed as int, cursor as int);
        assert(expected_log(inputs@, cursor + 1) =~= expected_log(inputs@, inputs@.len() as int));
    }
    Ok(())
}

/// Draining the batch `consumed + 1 ..= cursor` out of slots that hold the
/// matching inputs extends the delivered log to exactly the first
/// `cursor + 1` inputs.
proof fn lemma_drained_log<E>(
    inputs: Seq<E>,
    ring: Seq<E>,
    capacity: int,
    consumed: int,
    cursor: int,
)
    requires
        capacity >= 1,
        ring.len() == capacity,
        -1 <= consumed <= cursor < inputs.len(),
        forall|j: int| consumed < j <= cursor ==> ring[#[trigger] (j % capacity)] == inputs[j],
    ensures
        expected_log(inputs, consumed + 1) + batch_log(ring, capacity, consumed + 1, cursor)
            =~= expected_log(inputs, cursor + 1),
{
    let lhs = expected_log(inputs, consumed + 1) + batch_log(ring, capacity, consumed + 1, cursor);
    let rhs = expected_log(inputs, cursor + 1);
    assert(lhs.len() == rhs.len());
    assert forall|t: int| 0 <= t < rhs.len() implies lhs[t] == rhs[t] by {
        if t > consumed {
            assert(ring[t % capacity] == inputs[t]);
        }
    }
}

/// The transport with a two-stage dependency chain, in one execution
/// context: the producer publishes every input, a first consumer stage
/// drains behind the cursor, and a second stage is gated behind the first —
/// it never processes a sequence before the first stage has.  The producer
/// is gated on the slowest stage, so no slot is overwritten before the
/// second stage consumed it.  On success both handlers were handed exactly
/// the inputs, each under its own sequence, in FIFO order.
pub fn run_staged_pipeline<E: Copy, H1: EventHandler<E>, H2: EventHandler<E>>(
    inputs: &Vec<E>,
    capacity: usize,
    fill: E,
    first: &mut H1,
    second: &mut H2,
) -> (r: Result<(), ConfigError>)
    requires
        capacity <= usize::MAX / 2,
        inputs@.len() < i64::MAX,
        old(first).processed().len() == 0,
        old(second).processed().len() == 0,
    ensures
        match r {
            Ok(()) => {
                &&& final(first).processed() == expected_log(inputs@, inputs@.len() as int)
                &&& final(second).processed() == expected_log(inputs@, inputs@.len() as int)
            },
            Err(_) => {
                &&& !vstd::arithmetic::power2::is_pow2(capacity as int)
                &&& final(first).processed() == old(first).processed()
                &&& final(second).processed() == old(second).processed()
            },
        },
{
    let ring_or_err = RingBuffer::<E>::new(capacity, fill);
    let mut ring = match ring_or_err {
        Ok(rb) => rb,
        Err(e) => {
            return Err(e);
        },
    };
    let mut sequencer = SingleProducerSequencer::new();
    let n = inputs.len();
    let mut cursor: i64 = INITIAL_SEQUENCE;
    let mut first_seq: i64 = INITIAL_SEQUENCE;
    let mut second_seq: i64 = INITIAL_SEQUENCE;
    let mut i: usize = 0;
    proof {
        reveal(vstd::arithmetic::power2::is_pow2);
        assert(capacity >= 1);
        assert(old(first).processed() =~= Seq::<(i64, E)>::empty());
        assert(first.processed() =~= expected_log(inputs@, 0));
        assert(second.processed() =~= expected_log(inputs@, 0));
    }
    while i < n
        invariant
            ring.wf(),
            ring.spec_capacity() == capacity,
            ring@.len() == capacity,
            capacity >= 1,
            capacity <= usize::MAX / 2,
            n == inputs@.len() < i64::MAX,
            i <= n,
            sequencer.spec_next() == i,
            cursor == i as int - 1,
            -1 <= second_seq <= first_seq <= cursor,
            cursor - second_seq <= capacity,
            first.processed() == expected_log(inputs@, first_seq + 1),
            second.processed() == expected_log(inputs@, second_seq + 1),
            forall|j: int| second_seq < j <= cursor ==> ring@[#[trigger] (j % capacity as int)]
                == inputs@[j],
        decreases n - i,
    {
        let sequence = sequencer.claim_single();
        if !has_capacity_for(sequence, second_seq, capacity) {
            // The claim would lap a slot the second stage has not consumed:
            // drain the first stage behind the cursor, then the second
            // stage behind the first, and re-check.
            process_batch(first, &ring, first_seq + 1, cursor);
            proof {
                lemma_drained_log(inputs@, ring@, capacity as int, first_seq as int, cursor as int);
            }
            first_seq = cursor;
            process_batch(second, &ring, second_seq + 1, first_seq);
            proof {
                lemma_drained_log(
                    inputs@,
                    ring@,
                    capacity as int,
                    second_seq as int,
                    first_seq as int,
                );
            }
            second_seq = first_seq;
        }
        let ghost pre = ring@;
        ring.write_slot(sequence, inputs[i]);
        proof {
            let cap = capacity as int;
            assert(ring@ == pre.update((sequence as int) % cap, inputs@[i as int]));
            assert forall|j: int| second_seq < j <= sequence implies ring@[#[trigger] (j % cap)]
                == inputs@[j] by {
                assert(0 <= j % cap < cap) by (nonlinear_arith)
                    requires
                        cap >= 1,
                ;
                assert(0 <= sequence as int % cap < cap) by (nonlinear_arith)
                    requires
                        cap >= 1,
                ;
                if j < sequence {
                    lemma_distinct_slots(j, sequence as int, cap);
                    assert(pre[j % cap] == inputs@[j]);
                }
            }
        }
        cursor = sequence;
        i += 1;
    }
    process_batch(first, &ring, first_seq + 1, cursor);
    proof {
        lemma_drained_log(inputs@, ring@, capacity as int, first_seq as int, cursor as int);
    }
    process_batch(second, &ring, second_seq + 1, cursor);
    proof {
        lemma_drained_log(inputs@, ring@, capacity as int, second_seq as int, cursor as int);
        assert(expected_log(inputs@, cursor + 1) =~= expected_log(inputs@, inputs@.len() as int));
    }
    Ok(())
}

} // verus!
