//! Emission of fixed-capacity containers through two uniform protocols: an
//! ordered sequence of elements, or an ordered sequence of key/value entries.
//!
//! A container is read through a capability of two parts, its logical length
//! and its elements in their documented order ([`source`]). The adapter
//! ([`adapter`]) decides which request goes to the destination next and stops
//! at the first failure. The remaining modules hold one container each.

pub mod adapter;
pub mod deque;
pub mod heap;
pub mod history;
pub mod index_map;
pub mod index_set;
pub mod linear_map;
pub mod source;
pub mod text;
pub mod vector;
