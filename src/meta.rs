//! The meta record: the store's pointer to the page that holds the free list.

use crate::codec::{le_bytes, lemma_le_round_trip, overwrite, read_u16_le, u16_at, write_u16_le};
use crate::util::{Deserialize, Serialize};
use vstd::prelude::*;

verus! {

/// The record kept in the meta page.
#[derive(Clone, Copy, Debug, PartialEq, Eq, Structural)]
pub struct Meta {
    pub freeListPage: u16,
}

impl View for Meta {
    type V = Meta;

    open spec fn view(&self) -> Meta {
        *self
    }
}

impl Meta {
    /// A meta record whose free-list pointer is the placeholder 0.
    pub fn new() -> (m: Meta)
        ensures
            m.freeListPage == 0,
    {
        Meta { freeListPage: 0 }
    }
}

impl Serialize<Meta> for Meta {
    /// The free-list page number, little-endian, in two bytes.
    open spec fn encoding(v: Meta) -> Seq<u8> {
        le_bytes(v.freeListPage)
    }

    fn serialize(&self, buffer: &mut Vec<u8>) {
        write_u16_le(buffer, 0, self.freeListPage);
        assert(buffer@ =~= overwrite(old(buffer)@, le_bytes(self.freeListPage)));
    }
}

impl Deserialize<Meta> for Meta {
    open spec fn decodable(buffer: Seq<u8>) -> bool {
        buffer.len() >= 2
    }

    open spec fn decode(buffer: Seq<u8>) -> Meta {
        Meta { freeListPage: u16_at(buffer, 0) }
    }

    fn deserialize(&mut self, buffer: &[u8]) {
        let freeListPage = read_u16_le(buffer, 0);
        self.freeListPage = freeListPage;
    }
}

/// Decoding a buffer into which a meta record was serialized gives that
/// record back, whatever the buffer held before.
pub proof fn lemma_meta_round_trip(m: Meta, buffer: Seq<u8>)
    requires
        buffer.len() >= <Meta as Serialize<Meta>>::encoding(m).len(),
    ensures
        <Meta as Deserialize<Meta>>::decodable(
            overwrite(buffer, <Meta as Serialize<Meta>>::encoding(m)),
        ),
        <Meta as Deserialize<Meta>>::decode(
            overwrite(buffer, <Meta as Serialize<Meta>>::encoding(m)),
        ) == m,
{
    lemma_le_round_trip(m.freeListPage);
    let b = overwrite(buffer, le_bytes(m.freeListPage));
    assert(b[0] == le_bytes(m.freeListPage)[0] && b[1] == le_bytes(m.freeListPage)[1]);
}

} // verus!
