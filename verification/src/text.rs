//! A bounded text: validated text in a byte buffer of fixed capacity. It is
//! emitted whole, as one text value.

use vstd::prelude::*;
use vstd::utf8::encode_utf8;

verus! {

pub struct BoundedString {
    text: String,
    capacity: usize,
}

impl BoundedString {
    /// The text, as characters.
    pub closed spec fn view(&self) -> Seq<char> {
        self.text@
    }

    /// The number of bytes that the buffer holds at most.
    pub closed spec fn spec_capacity(&self) -> nat {
        self.capacity as nat
    }

    pub closed spec fn wf(&self) -> bool {
        encode_utf8(self.text@).len() <= self.capacity
    }

    /// A text that holds `text`, unless its encoding takes more than
    /// `capacity` bytes.
    pub fn new(text: &str, capacity: usize) -> (r: Option<Self>)
        ensures
            r is Some <==> encode_utf8(text@).len() <= capacity,
            r matches Some(t) ==> t.wf() && t@ == text@ && t.spec_capacity() == capacity,
    {
        if text.as_bytes().len() <= capacity {
            Some(BoundedString { text: text.to_owned(), capacity })
        } else {
            None
        }
    }

    /// The whole text, as it is handed to a destination: the same
    /// characters, none cut and none encoded anew.
    pub fn as_str(&self) -> (s: &str)
        ensures
            s@ == self@,
    {
        self.text.as_str()
    }

    pub fn capacity(&self) -> (c: usize)
        ensures
            c == self.spec_capacity(),
    {
        self.capacity
    }
}

} // verus!
