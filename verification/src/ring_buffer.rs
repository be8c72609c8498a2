//! Bounded audio queue: a fixed-capacity FIFO of samples.
//!
//! `write` admits as many incoming elements as there is free capacity, so the
//! queue never exceeds its configured size; `read` removes and returns up to
//! the requested number of oldest elements in insertion order.

use vstd::prelude::*;

verus! {

/// Fixed-capacity FIFO buffer for real-time audio samples.
///
/// The contents are modelled as the sequence of queued elements, oldest
/// first; `self@` is that sequence and never grows past `self.capacity()`.
pub struct RingBuffer<T> {
    buffer: Vec<T>,
    capacity: usize,
}

impl<T: Copy> RingBuffer<T> {
    /// The queued elements, oldest first.
    pub closed spec fn view(&self) -> Seq<T> {
        self.buffer@
    }

    /// The configured maximum number of queued elements.
    pub closed spec fn capacity(&self) -> int {
        self.capacity as int
    }

    /// The bounded-queue invariant: occupancy never exceeds capacity.
    pub open spec fn wf(&self) -> bool {
        self@.len() <= self.capacity()
    }

    /// Creates an empty queue with the given capacity.
    pub fn new(capacity: usize) -> (r: RingBuffer<T>)
        ensures
            r@ == Seq::<T>::empty(),
            r.capacity() == capacity,
            r.wf(),
    {
        RingBuffer { buffer: Vec::new(), capacity }
    }

    /// Appends as many elements of `data` as there is free capacity.
    ///
    /// Returns the number of elements admitted: the smaller of the input
    /// length and the free space. The admitted elements are the leading
    /// elements of `data`, appended in order, and the queue never exceeds
    /// its capacity afterwards.
    pub fn write(&mut self, data: &[T]) -> (written: usize)
        requires
            old(self).wf(),
        ensures
            written == vstd::math::min(data@.len() as int, old(self).capacity() - old(self)@.len()),
            final(self)@ == old(self)@ + data@.subrange(0, written as int),
            final(self).capacity() == old(self).capacity(),
            final(self).wf(),
    {
        let writable = self.capacity - self.buffer.len();
        let to_write = if data.len() < writable {
            data.len()
        } else {
            writable
        };
        let mut i: usize = 0;
        while i < to_write
            invariant
                i <= to_write,
                to_write <= data@.len(),
                self.buffer@ == old(self).buffer@ + data@.subrange(0, i as int),
                self.capacity == old(self).capacity,
                old(self).buffer@.len() + to_write <= self.capacity,
            decreases to_write - i,
        {
            self.buffer.push(data[i]);
            assert(self.buffer@ == old(self).buffer@ + data@.subrange(0, i + 1 as int));
            i = i + 1;
        }
        to_write
    }

    /// Removes and returns up to `size` oldest elements in insertion order.
    ///
    /// Returns fewer (possibly zero) elements if the queue holds less than
    /// `size`; the returned elements are exactly the removed prefix of the
    /// queue, so no element is ever returned twice.
    pub fn read(&mut self, size: usize) -> (r: Vec<T>)
        requires
            old(self).wf(),
        ensures
            r@ == old(self)@.subrange(0, vstd::math::min(size as int, old(self)@.len() as int)),
            final(self)@ == old(self)@.skip(r@.len() as int),
            final(self).capacity() == old(self).capacity(),
            final(self).wf(),
    {
        let readable = if size < self.buffer.len() {
            size
        } else {
            self.buffer.len()
        };
        let mut result: Vec<T> = Vec::new();
        let mut i: usize = 0;
        while i < readable
            invariant
                i <= readable,
                readable <= old(self).buffer@.len(),
                result@ == old(self).buffer@.subrange(0, i as int),
                self.buffer@ == old(self).buffer@.skip(i as int),
                self.capacity == old(self).capacity,
            decreases readable - i,
        {
            let item = self.buffer.remove(0);
            result.push(item);
            assert(result@ == old(self).buffer@.subrange(0, i + 1 as int));
            assert(self.buffer@ == old(self).buffer@.skip(i + 1 as int));
            i = i + 1;
        }
        result
    }

    /// Current occupancy: how many elements a `read` could return.
    pub fn readable_size(&self) -> (n: usize)
        ensures
            n == self@.len(),
    {
        self.buffer.len()
    }

    /// Free space: how many elements a `write` could admit.
    pub fn writable_size(&self) -> (n: usize)
        requires
            self.wf(),
        ensures
            n == self.capacity() - self@.len(),
    {
        self.capacity - self.buffer.len()
    }

    /// Empties the queue.
    pub fn clear(&mut self)
        ensures
            final(self)@ == Seq::<T>::empty(),
            final(self).capacity() == old(self).capacity(),
            final(self).wf(),
    {
        self.buffer.clear();
    }
}

/// Law: reads are FIFO and never return an element twice. For queue contents
/// `s`, a first read of `n1` elements yields the oldest `min(n1, |s|)`
/// elements and leaves the rest, and a second read of `n2` yields exactly the
/// next elements, so the two reads together are an unbroken prefix of `s` in
/// write order.
pub proof fn lemma_consecutive_reads_fifo<T>(s: Seq<T>, n1: int, n2: int)
    requires
        0 <= n1,
        0 <= n2,
    ensures
        ({
            let m1 = vstd::math::min(n1, s.len() as int);
            let rest = s.skip(m1);
            let m2 = vstd::math::min(n2, rest.len() as int);
            s.subrange(0, m1) + rest.subrange(0, m2) == s.subrange(0, m1 + m2)
        }),
{
    let m1 = vstd::math::min(n1, s.len() as int);
    let rest = s.skip(m1);
    let m2 = vstd::math::min(n2, rest.len() as int);
    assert(s.subrange(0, m1) + rest.subrange(0, m2) =~= s.subrange(0, m1 + m2));
}

} // verus!
