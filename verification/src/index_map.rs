//! A bounded insertion-ordered map: a hash index over a dense array of
//! fixed capacity that holds the entries as their keys were first inserted.
//! Only the dense array is read here. It is emitted in insertion order.

use crate::source::MapSource;
use vstd::prelude::*;

verus! {

pub struct IndexMap<K, V> {
    entries: Vec<(K, V)>,
    capacity: usize,
}

impl<K, V> IndexMap<K, V> {
    /// The entries in the order in which their keys were inserted.
    pub closed spec fn view(&self) -> Seq<(K, V)> {
        self.entries@
    }

    /// The most entries that the map holds.
    pub closed spec fn spec_capacity(&self) -> nat {
        self.capacity as nat
    }

    pub closed spec fn wf(&self) -> bool {
        self.entries@.len() <= self.capacity
    }

    /// A map over its dense array, unless it is longer than `capacity`.
    pub fn from_insertion_order(entries: Vec<(K, V)>, capacity: usize) -> (r: Option<Self>)
        ensures
            r is Some <==> entries@.len() <= capacity,
            r matches Some(m) ==> m.wf() && m@ == entries@ && m.spec_capacity() == capacity,
    {
        if entries.len() <= capacity {
            Some(IndexMap { entries, capacity })
        } else {
            None
        }
    }

    pub fn capacity(&self) -> (c: usize)
        ensures
            c == self.spec_capacity(),
    {
        self.capacity
    }
}

impl<K, V> MapSource for IndexMap<K, V> {
    type Key = K;

    type Value = V;

    open spec fn valid(&self) -> bool {
        self.wf()
    }

    /// Insertion order.
    open spec fn entries(&self) -> Seq<(K, V)> {
        self@
    }

    fn length(&self) -> (n: usize)
        ensures
            n == self@.len(),
    {
        self.entries.len()
    }

    fn key(&self, index: usize) -> (k: &K)
        ensures
            *k == self@[index as int].0,
    {
        &self.entries[index].0
    }

    fn value(&self, index: usize) -> (v: &V)
        ensures
            *v == self@[index as int].1,
    {
        &self.entries[index].1
    }
}

} // verus!
