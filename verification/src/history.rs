//! A chronological ring buffer: a fixed number of slots that keep the most
//! recent values. Once every slot is filled, a new value replaces the oldest
//! one. It is emitted oldest to newest, wherever the oldest value lies.

use crate::deque::wrapped;
use crate::source::SequenceSource;
use vstd::prelude::*;

verus! {

pub struct HistoryBuffer<T> {
    slots: Vec<T>,
    capacity: usize,
    oldest: usize,
}

impl<T> HistoryBuffer<T> {
    /// The values that are kept, oldest first.
    pub closed spec fn view(&self) -> Seq<T> {
        Seq::new(
            self.slots@.len(),
            |i: int| self.slots@[wrapped(self.oldest as int, i, self.slots@.len() as int)],
        )
    }

    /// The number of slots.
    pub closed spec fn spec_capacity(&self) -> nat {
        self.capacity as nat
    }

    /// The slot of the oldest value.
    pub closed spec fn spec_oldest(&self) -> nat {
        self.oldest as nat
    }

    pub closed spec fn wf(&self) -> bool {
        &&& self.slots@.len() <= self.capacity
        &&& self.slots@.len() < self.capacity ==> self.oldest == 0
        &&& self.slots@.len() > 0 ==> self.oldest < self.slots@.len()
    }

    /// An empty buffer with the given number of slots.
    pub fn new(capacity: usize) -> (h: Self)
        ensures
            h.wf(),
            h@ == Seq::<T>::empty(),
            h.spec_capacity() == capacity,
            h.spec_oldest() == 0,
    {
        let h = HistoryBuffer { slots: Vec::new(), capacity, oldest: 0 };
        assert(h@ =~= Seq::<T>::empty());
        h
    }

    /// Records `value` as the newest. While a slot is free the buffer grows
    /// by one; after that the oldest value makes room. A buffer without
    /// slots keeps nothing.
    pub fn write(&mut self, value: T)
        requires
            old(self).wf(),
        ensures
            final(self).wf(),
            final(self).spec_capacity() == old(self).spec_capacity(),
            old(self).spec_capacity() == 0 ==> final(self)@ == old(self)@,
            old(self)@.len() < old(self).spec_capacity() ==> {
                &&& final(self)@ == old(self)@.push(value)
                &&& final(self).spec_oldest() == 0
            },
            0 < old(self).spec_capacity() == old(self)@.len() ==> {
                &&& final(self)@ == old(self)@.drop_first().push(value)
                &&& final(self).spec_oldest() == wrapped(
                    old(self).spec_oldest() as int,
                    1,
                    old(self).spec_capacity() as int,
                )
            },
    {
        if self.capacity == 0 {
            assert(self@ =~= old(self)@);
        } else if self.slots.len() < self.capacity {
            self.slots.push(value);
            assert(self@ =~= old(self)@.push(value));
        } else {
            let at: usize = self.oldest;
            let next: usize = if at + 1 == self.capacity {
                0
            } else {
                at + 1
            };
            self.slots[at] = value;
            self.oldest = next;
            assert(self@ =~= old(self)@.drop_first().push(value));
        }
    }

    pub fn capacity(&self) -> (c: usize)
        ensures
            c == self.spec_capacity(),
    {
        self.capacity
    }

    /// The slot in which the oldest value lies.
    pub fn oldest_slot(&self) -> (s: usize)
        ensures
            s == self.spec_oldest(),
    {
        self.oldest
    }
}

impl<T> SequenceSource for HistoryBuffer<T> {
    type Item = T;

    open spec fn valid(&self) -> bool {
        self.wf()
    }

    /// Oldest to newest.
    open spec fn elements(&self) -> Seq<T> {
        self@
    }

    fn length(&self) -> (n: usize)
        ensures
            n == self@.len(),
    {
        self.slots.len()
    }

    fn element(&self, index: usize) -> (e: &T)
        ensures
            *e == self@[index as int],
    {
        let room: usize = self.slots.len() - self.oldest;
        if index < room {
            &self.slots[self.oldest + index]
        } else {
            &self.slots[index - room]
        }
    }
}

} // verus!
