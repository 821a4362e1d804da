//! A bounded insertion-ordered set: a hash index over a dense array of
//! fixed capacity that holds the elements as they were first inserted. Only
//! the dense array is read here. It is emitted in insertion order.

use crate::source::SequenceSource;
use vstd::prelude::*;

verus! {

pub struct IndexSet<T> {
    entries: Vec<T>,
    capacity: usize,
}

impl<T> IndexSet<T> {
    /// The elements in the order of their insertion.
    pub closed spec fn view(&self) -> Seq<T> {
        self.entries@
    }

    /// The most elements that the set holds.
    pub closed spec fn spec_capacity(&self) -> nat {
        self.capacity as nat
    }

    pub closed spec fn wf(&self) -> bool {
        self.entries@.len() <= self.capacity
    }

    /// A set over its dense array, unless it is longer than `capacity`.
    pub fn from_insertion_order(entries: Vec<T>, capacity: usize) -> (r: Option<Self>)
        ensures
            r is Some <==> entries@.len() <= capacity,
            r matches Some(c) ==> c.wf() && c@ == entries@ && c.spec_capacity() == capacity,
    {
        if entries.len() <= capacity {
            Some(IndexSet { entries, capacity })
        } else {
            None
        }
    }

    pub fn capacity(&self) -> (c: usize)
        ensures
            c == self.spec_capacity(),
    {
        self.capacity
    }
}

impl<T> SequenceSource for IndexSet<T> {
    type Item = T;

    open spec fn valid(&self) -> bool {
        self.wf()
    }

    /// Insertion order.
    open spec fn elements(&self) -> Seq<T> {
        self@
    }

    fn length(&self) -> (n: usize)
        ensures
            n == self@.len(),
    {
        self.entries.len()
    }

    fn element(&self, index: usize) -> (e: &T)
        ensures
            *e == self@[index as int],
    {
        &self.entries[index]
    }
}

} // verus!
