//! The fixed-capacity slot store.
//!
//! A `RingBuffer` owns a contiguous array of `capacity` slots, `capacity` a
//! power of two.  The slot for sequence `s` is at index `s & (capacity - 1)`,
//! which equals `s % capacity`; slots are reused in place, one overwrite per
//! full lap.  Construction fails when the requested capacity is not a power
//! of two, and no partial buffer is created in that case.

use vstd::arithmetic::power2::is_pow2;
use vstd::arithmetic::power2::is_pow2_equiv;
use vstd::arithmetic::power2::lemma_pow2_strictly_increases;
use vstd::arithmetic::power2::lemma_pow2_pos;
use vstd::arithmetic::power2::pow2;
use vstd::bits::lemma_usize_low_bits_mask_is_mod;
use vstd::bits::low_bits_mask;
use vstd::prelude::*;

use crate::ring_buffer::wait_strategy::WaitStrategy;

verus! {

/// Rejected configuration: the requested ring capacity is not a power of two.
#[derive(Debug, PartialEq, Eq, Structural, Clone, Copy)]
pub struct ConfigError;

/// Which claim strategy the producer side runs.
#[derive(Debug, PartialEq, Eq, Structural, Clone, Copy)]
pub enum ProducerMode {
    /// One producer context: plain increments, no atomic contention.
    Single,
    /// Several producer contexts: claims contend on a shared atomic counter.
    Multi,
}

/// Construction-time configuration of one transport: the ring capacity, the
/// wait behaviour of its consumers, and the producer mode.  The dependency
/// set of each consumer stage is given separately, to its barrier.
#[derive(Debug, PartialEq, Eq, Structural, Clone, Copy)]
pub struct TransportConfig {
    pub capacity: usize,
    pub wait_strategy: WaitStrategy,
    pub producer_mode: ProducerMode,
}

impl TransportConfig {
    /// Accepts the configuration exactly when the capacity is a power of
    /// two; a rejected configuration builds nothing.
    pub fn validate(&self) -> (r: Result<(), ConfigError>)
        ensures
            r is Ok <==> is_pow2(self.capacity as int),
    {
        if check_power_of_two(self.capacity) {
            Ok(())
        } else {
            Err(ConfigError)
        }
    }

    /// Builds the ring this configuration describes, every slot holding
    /// `fill`; fails exactly when the configuration is invalid, building
    /// nothing.
    pub fn build_ring<E: Copy>(&self, fill: E) -> (r: Result<RingBuffer<E>, ConfigError>)
        ensures
            match r {
                Ok(rb) => {
                    &&& rb.wf()
                    &&& rb.spec_capacity() == self.capacity
                    &&& rb@.len() == self.capacity
                    &&& forall|i: int| 0 <= i < self.capacity ==> rb@[i] == fill
                },
                Err(_) => !is_pow2(self.capacity as int),
            },
    {
        RingBuffer::new(self.capacity, fill)
    }
}

/// Reports whether `n` is a power of two.
pub fn check_power_of_two(n: usize) -> (r: bool)
    ensures
        r == is_pow2(n as int),
{
    reveal(is_pow2);
    if n == 0 {
        return false;
    }
    let mut m: usize = n;
    while m % 2 == 0
        invariant
            1 <= m <= n,
            is_pow2(n as int) == is_pow2(m as int),
        decreases m,
    {
        proof {
            reveal(is_pow2);
            assert(is_pow2(m as int) == is_pow2(m as int / 2));
        }
        m = m / 2;
    }
    proof {
        reveal(is_pow2);
    }
    m == 1
}

/// The fixed array of entry slots.
pub struct RingBuffer<E> {
    slots: Vec<E>,
    capacity: usize,
    index_mask: usize,
}

impl<E> RingBuffer<E> {
    /// All slot contents, in index order.
    pub closed spec fn view(&self) -> Seq<E> {
        self.slots@
    }

    /// The number of slots.
    pub closed spec fn spec_capacity(&self) -> int {
        self.capacity as int
    }

    /// Structural soundness: the slot array has exactly `capacity` entries,
    /// the capacity is a power of two, and the index mask selects exactly the
    /// low bits of a sequence.
    pub closed spec fn wf(&self) -> bool {
        &&& self.slots@.len() == self.capacity
        &&& self.index_mask == self.capacity - 1
        &&& is_pow2(self.capacity as int)
    }

    /// The ring index that sequence `s` maps to.
    pub open spec fn spec_index_of(&self, s: int) -> int {
        s % self.spec_capacity()
    }

    /// Builds a buffer of `capacity` copies of `fill`, or reports a
    /// configuration error if `capacity` is not a power of two; no partial
    /// buffer is created in that case.
    pub fn new(capacity: usize, fill: E) -> (r: Result<RingBuffer<E>, ConfigError>)
        where
            E: Copy,
        ensures
            match r {
                Ok(rb) => {
                    &&& rb.wf()
                    &&& rb.spec_capacity() == capacity
                    &&& is_pow2(capacity as int)
                    &&& rb@.len() == capacity
                    &&& forall|i: int| 0 <= i < capacity ==> rb@[i] == fill
                },
                Err(_) => !is_pow2(capacity as int),
            },
    {
        if !check_power_of_two(capacity) {
            return Err(ConfigError);
        }
        let mut slots: Vec<E> = Vec::new();
        let mut i: usize = 0;
        while i < capacity
            invariant
                i <= capacity,
                slots@.len() == i,
                forall|j: int| 0 <= j < i ==> slots@[j] == fill,
            decreases capacity - i,
        {
            slots.push(fill);
            i += 1;
        }
        proof {
            reveal(is_pow2);
        }
        Ok(RingBuffer { slots, capacity, index_mask: capacity - 1 })
    }

    /// The configured capacity.
    pub fn capacity(&self) -> (c: usize)
        requires
            self.wf(),
        ensures
            c == self.spec_capacity(),
    {
        self.capacity
    }

    /// Maps a sequence to its slot index with the power-of-two mask; the
    /// result equals `s % capacity`.
    pub fn index_of(&self, sequence: i64) -> (idx: usize)
        requires
            self.wf(),
            0 <= sequence,
            sequence as int <= usize::MAX as int,
        ensures
            idx == self.spec_index_of(sequence as int),
            idx < self.spec_capacity(),
    {
        proof {
            lemma_mask_is_mod(self.capacity, sequence as usize);
        }
        (sequence as usize) & self.index_mask
    }

    /// Read access to the slot of `sequence`, valid for a published sequence
    /// that has not been overwritten.
    pub fn get(&self, sequence: i64) -> (e: &E)
        requires
            self.wf(),
            0 <= sequence,
            sequence as int <= usize::MAX as int,
        ensures
            *e == self@[self.spec_index_of(sequence as int)],
    {
        let idx = self.index_of(sequence);
        &self.slots[idx]
    }

    /// Writes the slot of `sequence`, the producer's step between claiming
    /// and publishing; every other slot keeps its content.
    pub fn write_slot(&mut self, sequence: i64, value: E)
        requires
            old(self).wf(),
            0 <= sequence,
            sequence as int <= usize::MAX as int,
        ensures
            final(self).wf(),
            final(self).spec_capacity() == old(self).spec_capacity(),
            final(self)@ == old(self)@.update(old(self).spec_index_of(sequence as int), value),
    {
        let idx = self.index_of(sequence);
        self.slots[idx] = value;
    }
}

/// For a power-of-two `capacity`, masking with `capacity - 1` is exactly the
/// remainder modulo `capacity`.
pub proof fn lemma_mask_is_mod(capacity: usize, x: usize)
    requires
        is_pow2(capacity as int),
    ensures
        x & ((capacity - 1) as usize) == x % capacity,
{
    is_pow2_equiv(capacity as int);
    let k = choose|i: nat| vstd::arithmetic::power::pow(2, i) == capacity as int;
    assert(pow2(k) == capacity);
    lemma_pow2_pos(k);
    if k >= usize::BITS {
        vstd::layout::unsigned_int_max_values();
        if k > usize::BITS {
            lemma_pow2_strictly_increases(usize::BITS as nat, k);
        }
        assert(pow2(k) >= pow2(usize::BITS as nat));
        assert(false);
    }
    lemma_usize_low_bits_mask_is_mod(x, k);
    assert(low_bits_mask(k) == capacity - 1);
}

} // verus!
