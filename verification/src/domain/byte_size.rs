use vstd::prelude::*;

verus! {

/// An amount of storage in bytes, as the Docker engine reports it (signed:
/// the engine uses `-1` for "unknown").
#[derive(Debug, Clone, Copy, PartialEq, Eq, Structural)]
pub struct ByteSize {
    pub bytes: i64,
}

impl ByteSize {
    /// An amount of `bytes` bytes.
    pub fn new(bytes: i64) -> (r: ByteSize)
        ensures
            r.bytes == bytes,
    {
        ByteSize { bytes }
    }

    /// The amount in bytes.
    pub fn bytes(&self) -> (r: i64)
        ensures
            r == self.bytes,
    {
        self.bytes
    }
}

} // verus!
