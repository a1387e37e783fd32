//! The bytes of a file, held in memory.
use vstd::prelude::*;

verus! {

/// The bytes that were read from a file, or that are to be written to one.
pub struct Data {
    pub buffer: Vec<u8>,
}

impl Data {
    /// An empty buffer.
    pub fn new() -> (data: Self)
        ensures
            data.buffer@ == Seq::<u8>::empty(),
    {
        Data { buffer: Vec::new() }
    }
}

} // verus!
