//! A fixed-capacity, power-of-two-masked wraparound index generator for
//! lock-free bounded queues.
//!
//! [`RingBufferIndex`] generates, without allocation, the next slot index to
//! write or read in a caller-owned fixed-size backing array, enforcing
//! single-producer/single-consumer ordering via two monotonically wrapping
//! 8-bit counters.

use vstd::prelude::*;

verus! {

/// True exactly of the powers of two that fit in a `u8`.
pub open spec fn is_pow2_u8(x: u8) -> bool {
    x == 1 || x == 2 || x == 4 || x == 8 || x == 16 || x == 32 || x == 64 || x == 128
}

/// Returns the largest power of two that is at most `val`, or 1 when `val` is 0.
pub fn next_smaller_power_of_two(val: u8) -> (r: u8)
    ensures
        is_pow2_u8(r),
        val == 0 ==> r == 1,
        val >= 1 ==> r <= val && 2 * r > val,
{
    if val == 0 {
        return 1;
    }
    let mut p: u8 = 1;
    while p < 128 && p * 2 <= val
        invariant
            is_pow2_u8(p),
            1 <= val,
            p <= val,
        decreases 255 - p as int,
    {
        p = p * 2;
    }
    p
}

/// Index generator for a ring buffer whose capacity is a power of two.
///
/// `reads` and `writes` are monotonic wrapping counters; `mask` is the
/// capacity minus one (or 0 for the degenerate zero-capacity buffer).
/// Correctness holds across counter wraparound because subtraction is
/// performed with wrapping arithmetic and masking is applied only after
/// wraparound-safe subtraction.
#[derive(Debug)]
pub struct RingBufferIndex {
    reads: u8,
    writes: u8,
    mask: u8,
}

impl RingBufferIndex {
    /// The mask is one less than a power of two (0 encodes capacity 0).
    pub closed spec fn mask_ok(self) -> bool {
        self.mask == 0 || self.mask == 1 || self.mask == 3 || self.mask == 7 || self.mask == 15
            || self.mask == 31 || self.mask == 63 || self.mask == 127
    }

    /// Number of slots currently in use: `writes - reads` modulo 256.
    pub closed spec fn avail_spec(self) -> u8 {
        vstd::wrapping::u8_specs::wrapping_sub(self.writes, self.reads)
    }

    /// Logical capacity: `mask + 1` slots, or 0 for the degenerate buffer.
    pub closed spec fn cap_spec(self) -> int {
        if self.mask == 0 {
            0
        } else {
            self.mask as int + 1
        }
    }

    /// Invariant: the number of used slots never exceeds the capacity.
    pub closed spec fn wf(self) -> bool {
        self.mask_ok() && self.avail_spec() as int <= self.cap_spec()
    }

    pub closed spec fn is_empty_spec(self) -> bool {
        self.avail_spec() == 0
    }

    pub closed spec fn is_full_spec(self) -> bool {
        self.mask == 0 || self.avail_spec() > self.mask
    }

    /// The slot index that the next `get` will yield.
    pub closed spec fn get_index_spec(self) -> u8 {
        self.reads & self.mask
    }

    /// The slot index that the next `put` will yield.
    pub closed spec fn put_index_spec(self) -> u8 {
        self.writes & self.mask
    }

    /// The state after a successful `get`.
    pub closed spec fn after_get(self) -> Self {
        RingBufferIndex {
            reads: vstd::wrapping::u8_specs::wrapping_add(self.reads, 1),
            ..self
        }
    }

    /// The state after a successful `put`.
    pub closed spec fn after_put(self) -> Self {
        RingBufferIndex {
            writes: vstd::wrapping::u8_specs::wrapping_add(self.writes, 1),
            ..self
        }
    }

    /// Creates a new index generator.
    ///
    /// The capacity becomes the largest power of two at most `size`, except
    /// that sizes 0 and 1 both yield the degenerate zero-capacity buffer
    /// (a mask of 0 cannot distinguish a one-slot buffer from an empty one).
    pub fn new(size: u8) -> (r: RingBufferIndex)
        ensures
            r.wf(),
            r.avail_spec() == 0,
            r.is_empty_spec(),
            r.get_index_spec() == 0,
            r.put_index_spec() == 0,
            size <= 1 ==> r.cap_spec() == 0 && r.is_full_spec(),
            size >= 2 ==> is_pow2_u8(r.cap_spec() as u8) && r.cap_spec() <= size && 2 * r.cap_spec()
                > size && !r.is_full_spec(),
    {
        let mask = next_smaller_power_of_two(size) - 1;
        proof {
            assert(0u8 & mask == 0u8) by (bit_vector);
        }
        RingBufferIndex { reads: 0, writes: 0, mask }
    }

    /// Number of slots currently in use.
    pub fn available(&self) -> (r: u8)
        ensures
            r == self.avail_spec(),
    {
        self.writes.wrapping_sub(self.reads)
    }

    pub fn is_empty(&self) -> (r: bool)
        ensures
            r == self.is_empty_spec(),
    {
        self.writes.wrapping_sub(self.reads) == 0
    }

    pub fn is_full(&self) -> (r: bool)
        ensures
            r == self.is_full_spec(),
    {
        // the first check is necessary for zero-capacity buffers, whose mask
        // cannot express "more slots used than available"
        (self.mask == 0) || (self.available() > self.mask)
    }

    /// Yields the next slot index to consume and advances the read counter,
    /// or `None` if the buffer is empty.
    pub fn get(&mut self) -> (r: Option<u8>)
        requires
            old(self).wf(),
        ensures
            final(self).wf(),
            final(self).cap_spec() == old(self).cap_spec(),
            old(self).is_empty_spec() ==> r is None && *final(self) == *old(self),
            !old(self).is_empty_spec() ==> r == Some(old(self).get_index_spec()) && *final(self)
                == old(self).after_get() && final(self).avail_spec() as int == old(self).avail_spec() - 1,
    {
        if !self.is_empty() {
            let reads = self.reads;
            self.reads = reads.wrapping_add(1);
            Some(reads & self.mask)
        } else {
            None
        }
    }

    /// Yields the slot index that `get` would return, without advancing.
    pub fn peek(&self) -> (r: Option<u8>)
        ensures
            self.is_empty_spec() ==> r is None,
            !self.is_empty_spec() ==> r == Some(self.get_index_spec()),
    {
        if !self.is_empty() {
            Some(self.reads & self.mask)
        } else {
            None
        }
    }

    /// Yields the next slot index to fill and advances the write counter,
    /// or `None` if the buffer is full.
    pub fn put(&mut self) -> (r: Option<u8>)
        requires
            old(self).wf(),
        ensures
            final(self).wf(),
            final(self).cap_spec() == old(self).cap_spec(),
            old(self).is_full_spec() ==> r is None && *final(self) == *old(self),
            !old(self).is_full_spec() ==> r == Some(old(self).put_index_spec()) && *final(self)
                == old(self).after_put() && final(self).avail_spec() as int == old(self).avail_spec() + 1,
    {
        if !self.is_full() {
            let writes = self.writes;
            self.writes = writes.wrapping_add(1);
            Some(writes & self.mask)
        } else {
            None
        }
    }

    /// Logical capacity of the buffer.
    pub fn capacity(&self) -> (r: usize)
        ensures
            r == self.cap_spec(),
    {
        if self.mask > 0 {
            self.mask as usize + 1
        } else {
            0
        }
    }
}

/// The number of used slots never exceeds the capacity, and `is_empty` and
/// `is_full` are consistent with `available`: the buffer is empty exactly
/// when no slot is used, and full exactly when every slot is used (a
/// zero-capacity buffer is always full).
pub proof fn lemma_flags_consistent(rb: RingBufferIndex)
    requires
        rb.wf(),
    ensures
        rb.avail_spec() as int <= rb.cap_spec(),
        rb.is_empty_spec() <==> rb.avail_spec() == 0,
        rb.is_full_spec() <==> (rb.cap_spec() == 0 || rb.avail_spec() as int == rb.cap_spec()),
{
}

/// Every slot index that `get` or `put` yields lies below the capacity.
pub proof fn lemma_index_in_range(rb: RingBufferIndex)
    requires
        rb.wf(),
        rb.cap_spec() > 0,
    ensures
        rb.get_index_spec() < rb.cap_spec(),
        rb.put_index_spec() < rb.cap_spec(),
{
    let m = rb.mask;
    let r = rb.reads;
    let w = rb.writes;
    assert((r & m) <= m && (w & m) <= m) by (bit_vector);
}

/// A `put` followed immediately by a `get` on an empty, non-full buffer
/// yields the same slot index for both operations.
pub proof fn lemma_put_get_same_slot(rb: RingBufferIndex)
    requires
        rb.wf(),
        rb.is_empty_spec(),
        !rb.is_full_spec(),
    ensures
        rb.after_put().get_index_spec() == rb.put_index_spec(),
{
}

/// A successful `put` advances the slot index that the next `put` will
/// yield by one modulo the capacity, and leaves the `get` side untouched.
/// Anchored at the fresh buffer's index 0, consecutive `put` calls on a
/// buffer that never fills yield the indices 0, 1, ... modulo the capacity.
pub proof fn lemma_put_advances_index(rb: RingBufferIndex)
    requires
        rb.wf(),
        rb.cap_spec() > 0,
    ensures
        rb.after_put().put_index_spec() as int == (rb.put_index_spec() + 1) % rb.cap_spec(),
        rb.after_put().get_index_spec() == rb.get_index_spec(),
{
    let m = rb.mask;
    let w = rb.writes;
    let w1 = vstd::wrapping::u8_specs::wrapping_add(w, 1);
    assert(w1 & m == ((w & m) + 1) % (m + 1)) by (bit_vector)
        requires
            m == 1 || m == 3 || m == 7 || m == 15 || m == 31 || m == 63 || m == 127,
            w1 == w + 1 || (w == 255 && w1 == 0),
    ;
}

/// A successful `get` advances the slot index that the next `get` will
/// yield by one modulo the capacity, and leaves the `put` side untouched,
/// so consumers walk the very slot sequence the producer filled.
pub proof fn lemma_get_advances_index(rb: RingBufferIndex)
    requires
        rb.wf(),
        rb.cap_spec() > 0,
    ensures
        rb.after_get().get_index_spec() as int == (rb.get_index_spec() + 1) % rb.cap_spec(),
        rb.after_get().put_index_spec() == rb.put_index_spec(),
{
    let m = rb.mask;
    let r = rb.reads;
    let r1 = vstd::wrapping::u8_specs::wrapping_add(r, 1);
    assert(r1 & m == ((r & m) + 1) % (m + 1)) by (bit_vector)
        requires
            m == 1 || m == 3 || m == 7 || m == 15 || m == 31 || m == 63 || m == 127,
            r1 == r + 1 || (r == 255 && r1 == 0),
    ;
}

/// One put/get cycle on an empty buffer leaves it empty and well-formed and
/// advances the yielded slot index by one modulo the capacity, so the index
/// sequence produced by repeated cycles is periodic with period `capacity()`,
/// across counter wraparound.
pub proof fn lemma_put_get_cycle(rb: RingBufferIndex)
    requires
        rb.wf(),
        rb.is_empty_spec(),
        rb.cap_spec() > 0,
    ensures
        rb.after_put().after_get().wf(),
        rb.after_put().after_get().is_empty_spec(),
        rb.after_put().after_get().put_index_spec() as int == (rb.put_index_spec() + 1)
            % rb.cap_spec(),
        rb.after_put().after_get().get_index_spec() == rb.after_put().after_get().put_index_spec(),
{
    lemma_put_advances_index(rb);
    lemma_get_advances_index(rb);
}

/// The state after `n` put/get cycles.
pub open spec fn after_cycles(rb: RingBufferIndex, n: nat) -> RingBufferIndex
    decreases n,
{
    if n == 0 {
        rb
    } else {
        after_cycles(rb, (n - 1) as nat).after_put().after_get()
    }
}

/// Repeated put/get cycles on an empty buffer yield the slot indices
/// 0, 1, ... modulo the capacity, so the index sequence is identical from
/// one lap of the ring to the next, across counter wraparound: the cycle
/// `n` and the cycle `n + capacity()` yield the same slot index.
pub proof fn lemma_cycles_periodic(rb: RingBufferIndex, n: nat)
    requires
        rb.wf(),
        rb.is_empty_spec(),
        rb.cap_spec() > 0,
    ensures
        after_cycles(rb, n).wf(),
        after_cycles(rb, n).is_empty_spec(),
        after_cycles(rb, n).cap_spec() == rb.cap_spec(),
        after_cycles(rb, n).put_index_spec() as int == (rb.put_index_spec() + n) % rb.cap_spec(),
    decreases n,
{
    if n == 0 {
        lemma_index_in_range(rb);
        vstd::arithmetic::div_mod::lemma_small_mod(
            rb.put_index_spec() as nat,
            rb.cap_spec() as nat,
        );
    } else {
        let prev = after_cycles(rb, (n - 1) as nat);
        lemma_cycles_periodic(rb, (n - 1) as nat);
        lemma_put_get_cycle(prev);
        vstd::arithmetic::div_mod::lemma_add_mod_noop(
            rb.put_index_spec() + n - 1,
            1,
            rb.cap_spec(),
        );
        vstd::arithmetic::div_mod::lemma_small_mod(1, rb.cap_spec() as nat);
    }
}

/// A zero-capacity buffer is simultaneously full and empty, so `put` and
/// `get` never yield an index for it.
pub proof fn lemma_zero_capacity(rb: RingBufferIndex)
    requires
        rb.wf(),
        rb.cap_spec() == 0,
    ensures
        rb.is_full_spec(),
        rb.is_empty_spec(),
{
}

} // verus!
