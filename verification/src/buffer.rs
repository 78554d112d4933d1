//! A fixed-capacity circular buffer of rotation-pulse timestamps.
//!
//! The storage is `ringbuffer::AllocRingBuffer`, an outside crate, so the
//! buffer is held opaque and every operation goes through a trusted wrapper
//! whose contract states what that crate's source shows. `buffer_contents`
//! names the retained timestamps in insertion order (oldest first), and
//! `buffer_capacity` the bound the buffer was created with.

use ringbuffer::RingBuffer;
use vstd::prelude::*;

verus! {

/// Holds a `ringbuffer::AllocRingBuffer<u64>`: a heap-allocated ring with a
/// fixed capacity chosen at construction, which on overflow silently evicts
/// the oldest element.
#[verifier::external_body]
pub struct RotationBuffer {
    buf: ringbuffer::AllocRingBuffer<u64>,
}

/// The timestamps the buffer retains, oldest first.
pub uninterp spec fn buffer_contents(b: RotationBuffer) -> Seq<u64>;

/// The capacity the buffer was created with.
pub uninterp spec fn buffer_capacity(b: RotationBuffer) -> nat;

impl RotationBuffer {
    /// Relies on `AllocRingBuffer::new`: a fresh, empty ring with exactly the
    /// given capacity (it panics on capacity zero, which `requires` excludes).
    #[verifier::external_body]
    pub fn new(capacity: usize) -> (r: Self)
        requires
            capacity >= 1,
        ensures
            buffer_capacity(r) == capacity,
            buffer_contents(r) == Seq::<u64>::empty(),
    {
        RotationBuffer { buf: ringbuffer::AllocRingBuffer::new(capacity) }
    }

    /// Relies on `RingBuffer::enqueue`: appends the value at the newest end;
    /// when the buffer is full the oldest element is evicted first. The
    /// length never exceeds the capacity.
    #[verifier::external_body]
    pub fn push(&mut self, timestamp: u64)
        ensures
            buffer_capacity(*final(self)) == buffer_capacity(*old(self)),
            buffer_contents(*final(self)) == if buffer_contents(*old(self)).len() < buffer_capacity(
                *old(self),
            ) {
                buffer_contents(*old(self)).push(timestamp)
            } else {
                buffer_contents(*old(self)).skip(1).push(timestamp)
            },
            buffer_contents(*final(self)).len() <= buffer_capacity(*final(self)),
    {
        self.buf.enqueue(timestamp);
    }

    /// Relies on `RingBuffer::to_vec`: copies the retained elements, oldest
    /// first; the length never exceeds the capacity.
    #[verifier::external_body]
    pub fn to_vec(&self) -> (r: Vec<u64>)
        ensures
            r@ == buffer_contents(*self),
            r@.len() <= buffer_capacity(*self),
    {
        self.buf.to_vec()
    }

    /// Relies on `RingBuffer::len`: the number of retained elements, which
    /// never exceeds the capacity.
    #[verifier::external_body]
    pub fn len(&self) -> (r: usize)
        ensures
            r == buffer_contents(*self).len(),
            r <= buffer_capacity(*self),
    {
        self.buf.len()
    }

    /// Relies on `RingBuffer::capacity`: the capacity the buffer was created
    /// with.
    #[verifier::external_body]
    pub fn capacity(&self) -> (r: usize)
        ensures
            r == buffer_capacity(*self),
    {
        self.buf.capacity()
    }
}

} // verus!
