//! The PCM sample ring: a `ringbuf` heap ring buffer seen through its contents.
//!
//! Samples are held by their raw bit patterns (`u32`), so the ring never
//! interprets audio values; it only stores and orders them.

use vstd::prelude::*;
use ringbuf::Rb;
use ringbuf::ring_buffer::RbBase;
use ringbuf::HeapRb;

verus! {

/// A `ringbuf::HeapRb` of sample bit patterns, held opaquely and seen only through
/// `ring_items` and `ring_capacity`.
#[verifier::external_body]
pub struct PcmRing {
    rb: HeapRb<u32>,
}

/// The samples a ring holds, oldest first.
pub uninterp spec fn ring_items(ring: PcmRing) -> Seq<u32>;

/// The capacity a ring was created with.
pub uninterp spec fn ring_capacity(ring: PcmRing) -> nat;

/// `HeapRb::new`: a ring of the given capacity that holds nothing.
/// `HeapRb::new` panics on a zero capacity and on storage beyond `isize::MAX` bytes,
/// so neither is admitted; a failure of the allocator itself is not covered.
#[verifier::external_body]
pub fn ring_new(capacity: usize) -> (ring: PcmRing)
    requires
        capacity > 0,
        4 * capacity <= isize::MAX,
    ensures
        ring_items(ring) == Seq::<u32>::empty(),
        ring_capacity(ring) == capacity,
{
    PcmRing { rb: HeapRb::<u32>::new(capacity) }
}

/// `Rb::capacity`: the capacity the ring was created with; the ring never holds more.
#[verifier::external_body]
pub fn ring_capacity_of(ring: &PcmRing) -> (cap: usize)
    ensures
        cap == ring_capacity(*ring),
        ring_items(*ring).len() <= cap,
        cap > 0,
{
    ring.rb.capacity()
}

/// `RbBase::occupied_len`: the number of samples the ring holds.
#[verifier::external_body]
pub fn ring_len(ring: &PcmRing) -> (len: usize)
    ensures
        len == ring_items(*ring).len(),
        len <= ring_capacity(*ring),
{
    ring.rb.occupied_len()
}

/// `Rb::skip`: drops the `count` oldest samples (the source panics when `count`
/// exceeds the number held) and returns `count`.
#[verifier::external_body]
pub fn ring_skip(ring: &mut PcmRing, count: usize) -> (removed: usize)
    requires
        count <= ring_items(*old(ring)).len(),
    ensures
        removed == count,
        ring_items(*final(ring)) == ring_items(*old(ring)).skip(count as int),
        ring_capacity(*final(ring)) == ring_capacity(*old(ring)),
{
    ring.rb.skip(count)
}

/// `Rb::push_slice_overwrite`: appends `samples`, dropping the oldest samples
/// so that only the newest `capacity` of old contents followed by `samples` remain.
#[verifier::external_body]
pub fn ring_push_overwrite(ring: &mut PcmRing, samples: &[u32])
    ensures
        ring_items(*final(ring)) == newest(
            ring_items(*old(ring)) + samples@,
            ring_capacity(*old(ring)),
        ),
        ring_capacity(*final(ring)) == ring_capacity(*old(ring)),
{
    ring.rb.push_slice_overwrite(samples)
}

/// `Rb::pop_slice`: moves the `dst.len()` oldest samples into `dst` (the source
/// panics when `dst` is longer than the number held).
#[verifier::external_body]
pub fn ring_pop_into(ring: &mut PcmRing, dst: &mut Vec<u32>)
    requires
        old(dst).len() <= ring_items(*old(ring)).len(),
    ensures
        final(dst)@ == ring_items(*old(ring)).take(old(dst).len() as int),
        ring_items(*final(ring)) == ring_items(*old(ring)).skip(old(dst).len() as int),
        ring_capacity(*final(ring)) == ring_capacity(*old(ring)),
{
    ring.rb.pop_slice(dst.as_mut_slice())
}

/// The last `n` items of `s` (all of `s` when it is no longer than `n`).
pub open spec fn newest(s: Seq<u32>, n: nat) -> Seq<u32> {
    if s.len() <= n {
        s
    } else {
        s.skip(s.len() - n)
    }
}

} // verus!
