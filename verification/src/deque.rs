//! A bounded double-ended queue: a circular buffer of fixed capacity. It is
//! emitted front to back, wherever the front lies in the buffer.

use crate::source::SequenceSource;
use vstd::prelude::*;

verus! {

pub struct Deque<T> {
    slots: Vec<Option<T>>,
    front: usize,
    len: usize,
}

/// The slot that holds the element at logical position `i` of a circular
/// buffer of `capacity` slots whose first element lies in slot `front`.
pub open spec fn wrapped(front: int, i: int, capacity: int) -> int {
    if front + i < capacity {
        front + i
    } else {
        front + i - capacity
    }
}

impl<T> Deque<T> {
    /// The elements, front to back.
    pub closed spec fn view(&self) -> Seq<T> {
        Seq::new(
            self.len as nat,
            |i: int| self.slots@[wrapped(self.front as int, i, self.slots@.len() as int)]->0,
        )
    }

    /// The number of slots.
    pub closed spec fn spec_capacity(&self) -> nat {
        self.slots@.len()
    }

    /// The slot of the front element.
    pub closed spec fn spec_front(&self) -> nat {
        self.front as nat
    }

    pub closed spec fn wf(&self) -> bool {
        &&& self.len <= self.slots@.len()
        &&& self.slots@.len() == 0 ==> self.front == 0
        &&& self.slots@.len() > 0 ==> self.front < self.slots@.len()
        &&& forall|i: int|
            0 <= i < self.len ==> (#[trigger] self.slots@[wrapped(
                self.front as int,
                i,
                self.slots@.len() as int,
            )]) is Some
    }

    /// An empty queue of the given capacity.
    pub fn new(capacity: usize) -> (d: Self)
        ensures
            d.wf(),
            d@ == Seq::<T>::empty(),
            d.spec_capacity() == capacity,
            d.spec_front() == 0,
    {
        let mut slots: Vec<Option<T>> = Vec::new();
        let mut i: usize = 0;
        while i < capacity
            invariant
                i <= capacity,
                slots@.len() == i,
            decreases capacity - i,
        {
            slots.push(None);
            i += 1;
        }
        let d = Deque { slots, front: 0, len: 0 };
        assert(d@ =~= Seq::<T>::empty());
        d
    }

    fn slot(&self, i: usize) -> (s: usize)
        requires
            self.wf(),
            i < self.slots@.len(),
        ensures
            s == wrapped(self.front as int, i as int, self.slots@.len() as int),
            s < self.slots@.len(),
    {
        let room: usize = self.slots.len() - self.front;
        if i < room {
            self.front + i
        } else {
            i - room
        }
    }

    /// Appends `value` at the back; a full queue stays as it is and hands
    /// the value back.
    pub fn push_back(&mut self, value: T) -> (r: Result<(), T>)
        requires
            old(self).wf(),
        ensures
            final(self).wf(),
            final(self).spec_capacity() == old(self).spec_capacity(),
            final(self).spec_front() == old(self).spec_front(),
            old(self)@.len() < old(self).spec_capacity() ==> {
                &&& r is Ok
                &&& final(self)@ == old(self)@.push(value)
            },
            old(self)@.len() >= old(self).spec_capacity() ==> {
                &&& r == Err::<(), T>(value)
                &&& final(self)@ == old(self)@
            },
    {
        if self.len < self.slots.len() {
            let s: usize = self.slot(self.len);
            self.slots[s] = Some(value);
            self.len = self.len + 1;
            proof {
                let cap = self.slots@.len() as int;
                let f = self.front as int;
                assert forall|i: int| 0 <= i < self.len implies
                    (#[trigger] self.slots@[wrapped(f, i, cap)]) is Some by {
                    if i < self.len - 1 {
                        assert(old(self).slots@[wrapped(f, i, cap)] is Some);
                    }
                }
                assert(self@ =~= old(self)@.push(value));
            }
            Ok(())
        } else {
            Err(value)
        }
    }

    /// Removes the front element and returns it; `None` where the queue is
    /// empty.
    pub fn pop_front(&mut self) -> (r: Option<T>)
        requires
            old(self).wf(),
        ensures
            final(self).wf(),
            final(self).spec_capacity() == old(self).spec_capacity(),
            old(self)@.len() == 0 ==> r is None && *final(self) == *old(self),
            old(self)@.len() > 0 ==> {
                &&& r == Some(old(self)@[0])
                &&& final(self)@ == old(self)@.drop_first()
                &&& final(self).spec_front() == wrapped(
                    old(self).spec_front() as int,
                    1,
                    old(self).spec_capacity() as int,
                )
            },
    {
        if self.len == 0 {
            return None;
        }
        let f: usize = self.front;
        assert(self.slots@[wrapped(f as int, 0, self.slots@.len() as int)] is Some);
        let cap: usize = self.slots.len();
        let next: usize = if f + 1 == cap {
            0
        } else {
            f + 1
        };
        let taken: Option<T> = self.slots[f].take();
        self.front = next;
        self.len = self.len - 1;
        proof {
            let n = self.slots@.len() as int;
            let g = self.front as int;
            assert forall|i: int| 0 <= i < self.len implies {
                &&& (#[trigger] self.slots@[wrapped(g, i, n)]) is Some
                &&& self.slots@[wrapped(g, i, n)] == old(self).slots@[wrapped(f as int, i + 1, n)]
            } by {
                assert(wrapped(g, i, n) == wrapped(f as int, i + 1, n));
                assert(old(self).slots@[wrapped(f as int, i + 1, n)] is Some);
            }
            assert(self@ =~= old(self)@.drop_first());
        }
        taken
    }

    pub fn capacity(&self) -> (c: usize)
        ensures
            c == self.spec_capacity(),
    {
        self.slots.len()
    }

    /// The slot in which the front element lies.
    pub fn front_slot(&self) -> (s: usize)
        ensures
            s == self.spec_front(),
    {
        self.front
    }
}

impl<T> SequenceSource for Deque<T> {
    type Item = T;

    open spec fn valid(&self) -> bool {
        self.wf()
    }

    /// Front to back.
    open spec fn elements(&self) -> Seq<T> {
        self@
    }

    /// The number of elements that the queue holds, not the number of its
    /// slots.
    fn length(&self) -> (n: usize)
        ensures
            n == self@.len(),
    {
        self.len
    }

    fn element(&self, index: usize) -> (e: &T)
        ensures
            *e == self@[index as int],
    {
        let s: usize = self.slot(index);
        assert(self.slots@[wrapped(
            self.front as int,
            index as int,
            self.slots@.len() as int,
        )] is Some);
        match &self.slots[s] {
            Some(e) => e,
            None => vstd::pervasive::unreached(),
        }
    }
}

} // verus!
