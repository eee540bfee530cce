//! The octet ring buffer of `smoltcp`, as far as a control block uses it.
//!
//! Nothing here is proved: each contract restates what the ring buffer's
//! source does, over the two names below.

use smoltcp::storage::RingBuffer;
use vstd::prelude::*;

verus! {

#[verifier::external_type_specification]
#[verifier::external_body]
#[verifier::reject_recursive_types(T)]
pub struct ExRingBuffer<'a, T: 'a>(RingBuffer<'a, T>);

/// The octets that a ring buffer holds, oldest first.
pub uninterp spec fn ring_contents(ring: RingBuffer<'static, u8>) -> Seq<u8>;

/// The length of the storage that a ring buffer was created with.
pub uninterp spec fn ring_capacity(ring: RingBuffer<'static, u8>) -> nat;

/// The room left in a buffer of `capacity` octets that holds `len` of them.
pub open spec fn free_space(capacity: nat, len: nat) -> nat {
    if len <= capacity {
        (capacity - len) as nat
    } else {
        0
    }
}

/// The smaller of two lengths.
pub open spec fn min_len(a: nat, b: nat) -> nat {
    if a <= b {
        a
    } else {
        b
    }
}

/// `RingBuffer::new`: an empty buffer over `storage`, whose length is the
/// buffer's capacity from then on.
#[verifier::external_body]
pub(crate) fn ring_new(storage: Vec<u8>) -> (ring: RingBuffer<'static, u8>)
    ensures
        ring_contents(ring) == Seq::<u8>::empty(),
        ring_capacity(ring) == storage@.len(),
{
    RingBuffer::new(storage)
}

/// `RingBuffer::is_empty`: whether the buffer holds no octet.
#[verifier::external_body]
pub(crate) fn ring_is_empty(ring: &RingBuffer<'static, u8>) -> (empty: bool)
    ensures
        empty == (ring_contents(*ring).len() == 0),
{
    ring.is_empty()
}

/// `RingBuffer::is_full`: whether the buffer holds as many octets as its
/// capacity.
#[verifier::external_body]
pub(crate) fn ring_is_full(ring: &RingBuffer<'static, u8>) -> (full: bool)
    requires
        ring_contents(*ring).len() <= ring_capacity(*ring),
    ensures
        full == (ring_contents(*ring).len() == ring_capacity(*ring)),
{
    ring.is_full()
}

/// `RingBuffer::enqueue_slice`: appends as long a prefix of `data` as there
/// is room for, and returns its length.
#[verifier::external_body]
pub(crate) fn ring_enqueue_slice(ring: &mut RingBuffer<'static, u8>, data: &[u8]) -> (n: usize)
    requires
        ring_contents(*old(ring)).len() <= ring_capacity(*old(ring)),
    ensures
        n == min_len(
            data@.len(),
            free_space(ring_capacity(*old(ring)), ring_contents(*old(ring)).len()),
        ),
        ring_contents(*final(ring)) == ring_contents(*old(ring)) + data@.subrange(0, n as int),
        ring_capacity(*final(ring)) == ring_capacity(*old(ring)),
{
    ring.enqueue_slice(data)
}

/// `RingBuffer::dequeue_slice`: moves as many of the oldest octets as `data`
/// has room for to the front of `data`, and returns their number; the rest
/// of `data` stays as it was.
#[verifier::external_body]
pub(crate) fn ring_dequeue_slice(ring: &mut RingBuffer<'static, u8>, data: &mut [u8]) -> (n: usize)
    requires
        ring_contents(*old(ring)).len() <= ring_capacity(*old(ring)),
    ensures
        n == min_len(old(data)@.len(), ring_contents(*old(ring)).len()),
        final(data)@ == ring_contents(*old(ring)).subrange(0, n as int) + old(data)@.skip(n as int),
        ring_contents(*final(ring)) == ring_contents(*old(ring)).skip(n as int),
        ring_capacity(*final(ring)) == ring_capacity(*old(ring)),
{
    ring.dequeue_slice(data)
}

} // verus!
