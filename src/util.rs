//! The two-operation serialization capability shared by the records that live
//! in pages.

use crate::codec::overwrite;
use vstd::prelude::*;

verus! {

/// A record that writes its encoding at the start of a byte buffer.
pub trait Serialize<T>: View {
    /// The bytes that encode the record with abstract value `v`.
    spec fn encoding(v: Self::V) -> Seq<u8>;

    /// Writes the record's encoding at offset 0 of `buffer`; the bytes after it
    /// are left as they were.
    fn serialize(&self, buffer: &mut Vec<u8>)
        requires
            Self::encoding(self@).len() <= old(buffer)@.len(),
        ensures
            final(buffer)@ == overwrite(old(buffer)@, Self::encoding(self@)),
    ;
}

/// A record that reads itself from the start of a byte buffer.
pub trait Deserialize<T>: View {
    /// Whether `buffer` is long enough to hold the encoding it starts with.
    spec fn decodable(buffer: Seq<u8>) -> bool;

    /// The abstract value that the start of `buffer` encodes.
    spec fn decode(buffer: Seq<u8>) -> Self::V;

    /// Replaces the record with the one that the start of `buffer` encodes.
    fn deserialize(&mut self, buffer: &[u8])
        requires
            Self::decodable(buffer@),
        ensures
            final(self)@ == Self::decode(buffer@),
    ;
}

} // verus!
