//! A bounded linear map: a fixed array of entries that is searched by a
//! linear scan. It is emitted in the order of that scan, which carries no
//! meaning beyond the content.

use crate::source::MapSource;
use vstd::prelude::*;

verus! {

pub struct LinearMap<K, V> {
    cells: Vec<(K, V)>,
    capacity: usize,
}

impl<K, V> LinearMap<K, V> {
    /// The entries in the order of a scan.
    pub closed spec fn view(&self) -> Seq<(K, V)> {
        self.cells@
    }

    /// The most entries that the map holds.
    pub closed spec fn spec_capacity(&self) -> nat {
        self.capacity as nat
    }

    pub closed spec fn wf(&self) -> bool {
        self.cells@.len() <= self.capacity
    }

    /// A map over its array of entries, unless it is longer than `capacity`.
    pub fn from_cells(cells: Vec<(K, V)>, capacity: usize) -> (r: Option<Self>)
        ensures
            r is Some <==> cells@.len() <= capacity,
            r matches Some(m) ==> m.wf() && m@ == cells@ && m.spec_capacity() == capacity,
    {
        if cells.len() <= capacity {
            Some(LinearMap { cells, capacity })
        } else {
            None
        }
    }

    pub fn capacity(&self) -> (c: usize)
        ensures
            c == self.spec_capacity(),
    {
        self.capacity
    }
}

impl<K, V> MapSource for LinearMap<K, V> {
    type Key = K;

    type Value = V;

    open spec fn valid(&self) -> bool {
        self.wf()
    }

    /// The order of a scan over the array.
    open spec fn entries(&self) -> Seq<(K, V)> {
        self@
    }

    fn length(&self) -> (n: usize)
        ensures
            n == self@.len(),
    {
        self.cells.len()
    }

    fn key(&self, index: usize) -> (k: &K)
        ensures
            *k == self@[index as int].0,
    {
        &self.cells[index].0
    }

    fn value(&self, index: usize) -> (v: &V)
        ensures
            *v == self@[index as int].1,
    {
        &self.cells[index].1
    }
}

} // verus!
