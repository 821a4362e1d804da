//! The capability through which a container is read: a logical length and an
//! ordered traversal. Nothing else of a container's layout is visible here.

use vstd::prelude::*;

verus! {

/// A container whose elements are emitted one by one, in a fixed order.
pub trait SequenceSource {
    type Item;

    /// The container's own invariant.
    spec fn valid(&self) -> bool;

    /// The elements in the order in which they are emitted.
    spec fn elements(&self) -> Seq<Self::Item>;

    /// The number of elements that a traversal visits.
    fn length(&self) -> (n: usize)
        requires
            self.valid(),
        ensures
            n == self.elements().len(),
    ;

    /// The element at a position of the traversal.
    fn element(&self, index: usize) -> (e: &Self::Item)
        requires
            self.valid(),
            index < self.elements().len(),
        ensures
            *e == self.elements()[index as int],
    ;
}

/// A container whose key/value entries are emitted one by one, in a fixed
/// order.
pub trait MapSource {
    type Key;

    type Value;

    /// The container's own invariant.
    spec fn valid(&self) -> bool;

    /// The entries in the order in which they are emitted.
    spec fn entries(&self) -> Seq<(Self::Key, Self::Value)>;

    /// The number of entries that a traversal visits.
    fn length(&self) -> (n: usize)
        requires
            self.valid(),
        ensures
            n == self.entries().len(),
    ;

    /// The key of the entry at a position of the traversal.
    fn key(&self, index: usize) -> (k: &Self::Key)
        requires
            self.valid(),
            index < self.entries().len(),
        ensures
            *k == self.entries()[index as int].0,
    ;

    /// The value of the entry at a position of the traversal.
    fn value(&self, index: usize) -> (v: &Self::Value)
        requires
            self.valid(),
            index < self.entries().len(),
        ensures
            *v == self.entries()[index as int].1,
    ;
}

/// Walks a sequence source once, front to back, and hands out its elements
/// in traversal order.
pub fn traverse<'a, C: SequenceSource>(source: &'a C) -> (out: Vec<&'a C::Item>)
    requires
        source.valid(),
    ensures
        out@.len() == source.elements().len(),
        forall|i: int| 0 <= i < out@.len() ==> *#[trigger] out@[i] == source.elements()[i],
{
    let n: usize = source.length();
    let mut out: Vec<&'a C::Item> = Vec::new();
    let mut i: usize = 0;
    while i < n
        invariant
            source.valid(),
            n == source.elements().len(),
            i <= n,
            out@.len() == i,
            forall|j: int| 0 <= j < i ==> *#[trigger] out@[j] == source.elements()[j],
        decreases n - i,
    {
        out.push(source.element(i));
        i += 1;
    }
    out
}

/// Walks a map source once and hands out its entries, key and value, in
/// traversal order.
pub fn traverse_entries<'a, C: MapSource>(source: &'a C) -> (out: Vec<(&'a C::Key, &'a C::Value)>)
    requires
        source.valid(),
    ensures
        out@.len() == source.entries().len(),
        forall|i: int|
            0 <= i < out@.len() ==> {
                &&& *(#[trigger] out@[i]).0 == source.entries()[i].0
                &&& *out@[i].1 == source.entries()[i].1
            },
{
    let n: usize = source.length();
    let mut out: Vec<(&'a C::Key, &'a C::Value)> = Vec::new();
    let mut i: usize = 0;
    while i < n
        invariant
            source.valid(),
            n == source.entries().len(),
            i <= n,
            out@.len() == i,
            forall|j: int|
                0 <= j < i ==> {
                    &&& *(#[trigger] out@[j]).0 == source.entries()[j].0
                    &&& *out@[j].1 == source.entries()[j].1
                },
        decreases n - i,
    {
        out.push((source.key(i), source.value(i)));
        i += 1;
    }
    out
}

} // verus!
