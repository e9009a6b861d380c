//! A program image: raw instruction bytes, loaded verbatim at the program start.
use vstd::prelude::*;

verus! {

/// The bytes of a program.
pub struct Rom {
    data: Vec<u8>,
}

impl View for Rom {
    type V = Seq<u8>;

    closed spec fn view(&self) -> Seq<u8> {
        self.data@
    }
}

impl Rom {
    /// A program made of `data`.
    pub fn from_memory(data: Vec<u8>) -> (r: Rom)
        ensures
            r@ == data@,
    {
        Rom { data }
    }

    /// All bytes of the program.
    pub fn read_all(&self) -> (r: &[u8])
        ensures
            r@ == self@,
    {
        self.data.as_slice()
    }

    /// The number of bytes of the program.
    pub fn len(&self) -> (r: usize)
        ensures
            r == self@.len(),
    {
        self.data.len()
    }
}

} // verus!
