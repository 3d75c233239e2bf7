//! Type-length-value side records of a message.

use vstd::prelude::*;

verus! {

/// The side records of a message, each a record type with its value bytes.
pub struct Stream {
    pub records: Vec<(u64, Vec<u8>)>,
}

impl Stream {
    /// A stream without records.
    pub fn new() -> (stream: Stream)
        ensures
            stream.records@ == Seq::<(u64, Vec<u8>)>::empty(),
    {
        Stream { records: Vec::new() }
    }
}

} // verus!
