//! A bounded priority queue: a heap laid out in a contiguous buffer of fixed
//! capacity. It is emitted in the order of its heap array, which is not
//! sorted and changes as elements come and go.

use crate::source::SequenceSource;
use vstd::prelude::*;

verus! {

pub struct BinaryHeap<T> {
    heap: Vec<T>,
    capacity: usize,
}

impl<T> BinaryHeap<T> {
    /// The heap array, root first.
    pub closed spec fn view(&self) -> Seq<T> {
        self.heap@
    }

    /// The most elements that the queue holds.
    pub closed spec fn spec_capacity(&self) -> nat {
        self.capacity as nat
    }

    pub closed spec fn wf(&self) -> bool {
        self.heap@.len() <= self.capacity
    }

    /// A queue over a heap array, unless it is longer than `capacity`. The
    /// array comes as the queue's own operations left it.
    pub fn from_heap_array(heap: Vec<T>, capacity: usize) -> (r: Option<Self>)
        ensures
            r is Some <==> heap@.len() <= capacity,
            r matches Some(c) ==> c.wf() && c@ == heap@ && c.spec_capacity() == capacity,
    {
        if heap.len() <= capacity {
            Some(BinaryHeap { heap, capacity })
        } else {
            None
        }
    }

    pub fn capacity(&self) -> (c: usize)
        ensures
            c == self.spec_capacity(),
    {
        self.capacity
    }
}

impl<T> SequenceSource for BinaryHeap<T> {
    type Item = T;

    open spec fn valid(&self) -> bool {
        self.wf()
    }

    /// The order of the heap array.
    open spec fn elements(&self) -> Seq<T> {
        self@
    }

    fn length(&self) -> (n: usize)
        ensures
            n == self@.len(),
    {
        self.heap.len()
    }

    fn element(&self, index: usize) -> (e: &T)
        ensures
            *e == self@[index as int],
    {
        &self.heap[index]
    }
}

} // verus!
