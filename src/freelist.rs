//! The free list: the allocator of page numbers.
//!
//! Its abstract value is the pair `(maxPage, releasedPages)`: the greatest
//! page number handed out so far and the stack of page numbers given back.

use crate::codec::{le_byte, le_bytes, lemma_le_round_trip, overwrite, read_u16_le, u16_at, write_u16_le};
use crate::util::{Deserialize, Serialize};
use vstd::prelude::*;

verus! {

/// Allocator state: the high-water mark and the stack of released pages.
#[derive(Debug)]
pub struct FreeList {
    pub maxPage: u16,
    pub releasedPages: Vec<u16>,
}

impl View for FreeList {
    type V = (u16, Seq<u16>);

    open spec fn view(&self) -> (u16, Seq<u16>) {
        (self.maxPage, self.releasedPages@)
    }
}

/// Whether an allocation from state `s` is possible: either a released page
/// is waiting, or the high-water mark can still grow.
pub open spec fn can_allocate(s: (u16, Seq<u16>)) -> bool {
    s.1.len() > 0 || s.0 < u16::MAX
}

/// One allocation from state `s`: the state after it, and the page number it
/// hands out. The most recently released page is reused first; with none
/// released, the high-water mark grows by one and is handed out.
pub open spec fn alloc_step(s: (u16, Seq<u16>)) -> ((u16, Seq<u16>), u16) {
    if s.1.len() > 0 {
        ((s.0, s.1.drop_last()), s.1.last())
    } else {
        (((s.0 + 1) as u16, s.1), (s.0 + 1) as u16)
    }
}

/// The state after releasing page `n` in state `s`.
pub open spec fn release_step(s: (u16, Seq<u16>), n: u16) -> (u16, Seq<u16>) {
    (s.0, s.1.push(n))
}

/// The page numbers that `n` allocations in a row hand out, starting from `s`.
pub open spec fn allocations(s: (u16, Seq<u16>), n: nat) -> Seq<u16>
    decreases n,
{
    if n == 0 {
        Seq::empty()
    } else {
        seq![alloc_step(s).1] + allocations(alloc_step(s).0, (n - 1) as nat)
    }
}

/// Every released page lies at or below the high-water mark.
pub open spec fn released_below_max(s: (u16, Seq<u16>)) -> bool {
    forall|i: int| 0 <= i < s.1.len() ==> s.1[i] <= s.0
}

impl FreeList {
    /// An empty free list: nothing allocated, nothing released.
    pub fn new() -> (f: FreeList)
        ensures
            f@ == (0u16, Seq::<u16>::empty()),
    {
        FreeList { maxPage: 0, releasedPages: Vec::new() }
    }

    /// Hands out a page number: the most recently released page if there is
    /// one, else one past the high-water mark, which then moves up to it.
    pub fn getNextPageNumber(&mut self) -> (r: u16)
        requires
            can_allocate(old(self)@),
        ensures
            (final(self)@, r) == alloc_step(old(self)@),
            released_below_max(old(self)@) ==> released_below_max(final(self)@) && r
                <= final(self).maxPage,
    {
        if let Some(releasedPageId) = self.releasedPages.pop() {
            releasedPageId
        } else {
            self.maxPage = self.maxPage + 1;
            self.maxPage
        }
    }

    /// Gives page `pageNumber` back; it goes on top of the reuse stack.
    pub fn releasePage(&mut self, pageNumber: u16)
        ensures
            final(self)@ == release_step(old(self)@, pageNumber),
            released_below_max(old(self)@) && pageNumber <= old(self).maxPage ==> released_below_max(
                final(self)@,
            ),
    {
        self.releasedPages.push(pageNumber);
        assert(forall|i: int|
            0 <= i < old(self)@.1.len() ==> self@.1[i] == #[trigger] old(self)@.1[i]);
    }
}

/// Byte `j` of the encoding of the free list with abstract value `v`.
pub open spec fn free_list_byte(v: (u16, Seq<u16>), j: int) -> u8 {
    if j < 2 {
        le_byte(v.0, j)
    } else if j < 4 {
        le_byte(v.1.len() as u16, j - 2)
    } else {
        le_byte(v.1[(j - 4) / 2], (j - 4) % 2)
    }
}

impl FreeList {
    /// Whether `buffer` is long enough for the free list it starts with, that
    /// is whether `deserialize` may be called on it.
    pub fn isDecodable(buffer: &[u8]) -> (r: bool)
        ensures
            r == <FreeList as Deserialize<FreeList>>::decodable(buffer@),
    {
        if buffer.len() < 4 {
            false
        } else {
            let count = read_u16_le(buffer, 2);
            4 + 2 * (count as usize) <= buffer.len()
        }
    }
}

impl Serialize<FreeList> for FreeList {
    /// `maxPage`, then the number of released pages, then each released page,
    /// all as little-endian 16-bit integers.
    open spec fn encoding(v: (u16, Seq<u16>)) -> Seq<u8> {
        Seq::new((4 + 2 * v.1.len()) as nat, |j: int| free_list_byte(v, j))
    }

    fn serialize(&self, buffer: &mut Vec<u8>) {
        let ghost enc = Self::encoding(self@);
        write_u16_le(buffer, 0, self.maxPage);
        let n: usize = self.releasedPages.len();
        write_u16_le(buffer, 2, n as u16);
        let len: usize = buffer.len();
        let mut i: usize = 0;
        while i < n
            invariant
                len == old(buffer)@.len(),
                n == self.releasedPages@.len(),
                enc == Self::encoding(self@),
                4 + 2 * n <= old(buffer)@.len(),
                i <= n,
                buffer@.len() == old(buffer)@.len(),
                forall|j: int| 0 <= j < 4 + 2 * i ==> #[trigger] buffer@[j] == enc[j],
                forall|j: int|
                    4 + 2 * i <= j < old(buffer)@.len() ==> #[trigger] buffer@[j] == old(
                        buffer,
                    )@[j],
            decreases n - i,
        {
            let cursor: usize = 4 + 2 * i;
            write_u16_le(buffer, cursor, self.releasedPages[i]);
            assert(enc[cursor as int] == le_byte(self.releasedPages@[i as int], 0));
            assert(enc[cursor + 1] == le_byte(self.releasedPages@[i as int], 1));
            i = i + 1;
        }
        assert(buffer@ =~= overwrite(old(buffer)@, enc));
    }
}

impl Deserialize<FreeList> for FreeList {
    open spec fn decodable(buffer: Seq<u8>) -> bool {
        buffer.len() >= 4 && buffer.len() >= 4 + 2 * u16_at(buffer, 2)
    }

    open spec fn decode(buffer: Seq<u8>) -> (u16, Seq<u16>) {
        (u16_at(buffer, 0), Seq::new(u16_at(buffer, 2) as nat, |k: int| u16_at(buffer, 4 + 2 * k)))
    }

    fn deserialize(&mut self, buffer: &[u8]) {
        let maxPage = read_u16_le(buffer, 0);
        let numReleasedPages = read_u16_le(buffer, 2);
        let mut releasedPages: Vec<u16> = Vec::with_capacity(numReleasedPages as usize);
        let mut i: u16 = 0;
        while i < numReleasedPages
            invariant
                Self::decodable(buffer@),
                numReleasedPages == u16_at(buffer@, 2),
                i <= numReleasedPages,
                releasedPages@ =~= Seq::new(i as nat, |k: int| u16_at(buffer@, 4 + 2 * k)),
            decreases numReleasedPages - i,
        {
            let cursor: usize = 4 + 2 * (i as usize);
            let releasedPage = read_u16_le(buffer, cursor);
            releasedPages.push(releasedPage);
            i = i + 1;
        }
        self.maxPage = maxPage;
        self.releasedPages = releasedPages;
    }
}

/// Decoding a buffer into which a free list was serialized gives that free
/// list back, whatever the buffer held before. The count of released pages is
/// stored in 16 bits, so the law asks for at most `u16::MAX` of them.
pub proof fn lemma_free_list_round_trip(v: (u16, Seq<u16>), buffer: Seq<u8>)
    requires
        v.1.len() <= u16::MAX,
        buffer.len() >= <FreeList as Serialize<FreeList>>::encoding(v).len(),
    ensures
        <FreeList as Deserialize<FreeList>>::decodable(
            overwrite(buffer, <FreeList as Serialize<FreeList>>::encoding(v)),
        ),
        <FreeList as Deserialize<FreeList>>::decode(
            overwrite(buffer, <FreeList as Serialize<FreeList>>::encoding(v)),
        ) == v,
{
    let enc = <FreeList as Serialize<FreeList>>::encoding(v);
    let b = overwrite(buffer, enc);
    lemma_le_round_trip(v.0);
    lemma_le_round_trip(v.1.len() as u16);
    assert(b[0] == le_bytes(v.0)[0] && b[1] == le_bytes(v.0)[1]);
    assert(b[2] == le_bytes(v.1.len() as u16)[0] && b[3] == le_bytes(v.1.len() as u16)[1]);
    assert(u16_at(b, 2) == v.1.len());
    let d = <FreeList as Deserialize<FreeList>>::decode(b);
    assert forall|k: int| 0 <= k < v.1.len() implies #[trigger] d.1[k] == v.1[k] by {
        lemma_le_round_trip(v.1[k]);
        assert(b[4 + 2 * k] == le_bytes(v.1[k])[0]);
        assert(b[4 + 2 * k + 1] == le_bytes(v.1[k])[1]);
    }
    assert(d.1 =~= v.1);
}

/// Allocating `n` times in a row, with no release, from a state whose stack of
/// released pages is empty and whose high-water mark is `m`, hands out
/// `m + 1, m + 2, ..., m + n`.
pub proof fn lemma_allocations_count_up(m: u16, n: nat)
    requires
        m + n <= u16::MAX,
    ensures
        allocations((m, Seq::empty()), n) == Seq::new(n, |i: int| (m + i + 1) as u16),
    decreases n,
{
    if n > 0 {
        let next = (m + 1) as u16;
        lemma_allocations_count_up(next, (n - 1) as nat);
        assert(allocations((m, Seq::empty()), n) =~= Seq::new(n, |i: int| (m + i + 1) as u16));
    } else {
        assert(allocations((m, Seq::empty()), n) =~= Seq::new(n, |i: int| (m + i + 1) as u16));
    }
}

/// From an empty free list, `n` allocations with no release hand out
/// exactly `1, 2, ..., n`.
pub proof fn lemma_fresh_allocations(n: nat)
    requires
        n <= u16::MAX,
    ensures
        allocations((0u16, Seq::empty()), n) == Seq::new(n, |i: int| (i + 1) as u16),
{
    lemma_allocations_count_up(0, n);
}

/// Released pages are reused last-in first-out: after releasing `a` and then
/// `b`, the next two allocations hand out `b` and then `a`, and leave the
/// state as it was before the two releases.
pub proof fn lemma_lifo_reuse(s: (u16, Seq<u16>), a: u16, b: u16)
    ensures
        allocations(release_step(release_step(s, a), b), 2) == seq![b, a],
        alloc_step(alloc_step(release_step(release_step(s, a), b)).0).0 == s,
{
    let s2 = release_step(release_step(s, a), b);
    assert(s2.1.drop_last() =~= s.1.push(a));
    assert(s.1.push(a).drop_last() =~= s.1);
    reveal_with_fuel(allocations, 3);
    assert(allocations(s2, 2) =~= seq![b, a]);
}

} // verus!
