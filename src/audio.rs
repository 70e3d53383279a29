//! The audio stream that the synthesis stage hands to the sink.
use vstd::prelude::*;
use vstd::std_specs::convert::{FromSpec, FromSpecImpl};

verus! {

/// Encoded audio, kept as the exact bytes that the synthesis service returned.
/// The sink plays them or writes them out unchanged.
#[derive(Clone, Debug, PartialEq, Eq)]
pub struct VecU8A {
    stream: Vec<u8>,
}

impl View for VecU8A {
    type V = Seq<u8>;

    closed spec fn view(&self) -> Seq<u8> {
        self.stream@
    }
}

impl VecU8A {
    /// The stream of the bytes `stream`.
    pub fn new(stream: Vec<u8>) -> (r: VecU8A)
        ensures
            r@ == stream@,
    {
        VecU8A { stream }
    }

    /// The bytes, borrowed: what playing reads and what saving writes.
    pub fn as_bytes(&self) -> (r: &[u8])
        ensures
            r@ == self@,
    {
        self.stream.as_slice()
    }

    /// The bytes, given back.
    pub fn into_bytes(self) -> (r: Vec<u8>)
        ensures
            r@ == self@,
    {
        self.stream
    }

    /// The number of bytes.
    pub fn len(&self) -> (r: usize)
        ensures
            r == self@.len(),
    {
        self.stream.len()
    }
}

impl From<Vec<u8>> for VecU8A {
    fn from(stream: Vec<u8>) -> VecU8A {
        VecU8A { stream }
    }
}

impl FromSpecImpl<Vec<u8>> for VecU8A {
    open spec fn obeys_from_spec() -> bool {
        true
    }

    closed spec fn from_spec(stream: Vec<u8>) -> VecU8A {
        VecU8A { stream }
    }
}

/// A stream holds exactly the bytes that it was made from.
pub proof fn lemma_stream_keeps_bytes(stream: Vec<u8>)
    ensures
        <VecU8A as FromSpec<Vec<u8>>>::from_spec(stream)@ == stream@,
{
}

} // verus!
