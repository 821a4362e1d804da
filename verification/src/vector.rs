//! A bounded vector: a contiguous buffer of fixed capacity, filled from
//! index zero. It is emitted in index order.

use crate::source::SequenceSource;
use vstd::prelude::*;

verus! {

pub struct BoundedVec<T> {
    items: Vec<T>,
    capacity: usize,
}

impl<T> BoundedVec<T> {
    /// The elements, by index.
    pub closed spec fn view(&self) -> Seq<T> {
        self.items@
    }

    /// The most elements that the vector holds.
    pub closed spec fn spec_capacity(&self) -> nat {
        self.capacity as nat
    }

    pub closed spec fn wf(&self) -> bool {
        self.items@.len() <= self.capacity
    }

    /// An empty vector of the given capacity.
    pub fn new(capacity: usize) -> (v: Self)
        ensures
            v.wf(),
            v@ == Seq::<T>::empty(),
            v.spec_capacity() == capacity,
    {
        BoundedVec { items: Vec::new(), capacity }
    }

    /// A vector that holds `items`, unless they are more than `capacity`.
    pub fn from_items(items: Vec<T>, capacity: usize) -> (r: Option<Self>)
        ensures
            r is Some <==> items@.len() <= capacity,
            r matches Some(v) ==> v.wf() && v@ == items@ && v.spec_capacity() == capacity,
    {
        if items.len() <= capacity {
            Some(BoundedVec { items, capacity })
        } else {
            None
        }
    }

    /// Appends `value`; a full vector stays as it is and hands the value back.
    pub fn push(&mut self, value: T) -> (r: Result<(), T>)
        requires
            old(self).wf(),
        ensures
            final(self).wf(),
            final(self).spec_capacity() == old(self).spec_capacity(),
            old(self)@.len() < old(self).spec_capacity() ==> {
                &&& r is Ok
                &&& final(self)@ == old(self)@.push(value)
            },
            old(self)@.len() >= old(self).spec_capacity() ==> {
                &&& r == Err::<(), T>(value)
                &&& final(self)@ == old(self)@
            },
    {
        if self.items.len() < self.capacity {
            self.items.push(value);
            Ok(())
        } else {
            Err(value)
        }
    }

    pub fn capacity(&self) -> (c: usize)
        ensures
            c == self.spec_capacity(),
    {
        self.capacity
    }
}

impl<T> SequenceSource for BoundedVec<T> {
    type Item = T;

    open spec fn valid(&self) -> bool {
        self.wf()
    }

    /// Index order, from zero to the length.
    open spec fn elements(&self) -> Seq<T> {
        self@
    }

    fn length(&self) -> (n: usize)
        ensures
            n == self@.len(),
    {
        self.items.len()
    }

    fn element(&self, index: usize) -> (e: &T)
        ensures
            *e == self@[index as int],
    {
        &self.items[index]
    }
}

} // verus!
