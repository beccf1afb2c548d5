//! Fixed-size pages.

use vstd::prelude::*;
use vstd::string::StringSliceAdditionalSpecFns;

verus! {

/// Size of a page in bytes, as a `u32`.
pub const PageSize: u32 = 4096;

/// Size of a page in bytes.
pub const PAGE_SIZE: u16 = 4096;

/// The page reserved for the meta record.
pub const META_PAGE_NUMBER: u16 = 0;

/// The contents of a fresh page: `PAGE_SIZE` zero bytes.
pub open spec fn zero_page() -> Seq<u8> {
    Seq::new(PAGE_SIZE as nat, |i: int| 0u8)
}

/// A page buffer and the number of the page it belongs to.
pub struct Page {
    pub pageNumber: u16,
    pub data: Vec<u8>,
}

impl Page {
    /// A page's buffer holds exactly `PAGE_SIZE` bytes.
    pub open spec fn wf(&self) -> bool {
        self.data@.len() == PAGE_SIZE
    }

    /// A zero-filled page tagged with `pageNumber`.
    pub fn new(pageNumber: u16) -> (p: Page)
        ensures
            p.pageNumber == pageNumber,
            p.data@ == zero_page(),
            p.wf(),
    {
        let mut data: Vec<u8> = Vec::new();
        let n: usize = PageSize as usize;
        while data.len() < n
            invariant
                n == PAGE_SIZE,
                data@.len() <= n,
                forall|i: int| 0 <= i < data@.len() ==> data@[i] == 0u8,
            decreases n - data@.len(),
        {
            data.push(0u8);
        }
        assert(data@ =~= zero_page());
        Page { pageNumber, data }
    }
}

/// Copies the bytes of `msg` into `buffer`, starting at `startAt`.
pub fn writeToPage(buffer: &mut Vec<u8>, msg: &str, startAt: usize)
    requires
        startAt + msg.spec_bytes().len() <= old(buffer)@.len(),
    ensures
        final(buffer)@.len() == old(buffer)@.len(),
        forall|i: int|
            0 <= i < old(buffer)@.len() ==> #[trigger] final(buffer)@[i] == if startAt <= i < startAt
                + msg.spec_bytes().len() {
                msg.spec_bytes()[i - startAt]
            } else {
                old(buffer)@[i]
            },
{
    let bytes = msg.as_bytes();
    let len: usize = buffer.len();
    let mut k: usize = 0;
    while k < bytes.len()
        invariant
            len == old(buffer)@.len(),
            bytes@ == msg.spec_bytes(),
            startAt + bytes@.len() <= old(buffer)@.len(),
            k <= bytes@.len(),
            buffer@.len() == old(buffer)@.len(),
            forall|i: int|
                0 <= i < old(buffer)@.len() ==> #[trigger] buffer@[i] == if startAt <= i < startAt
                    + k {
                    bytes@[i - startAt]
                } else {
                    old(buffer)@[i]
                },
        decreases bytes@.len() - k,
    {
        buffer.set(startAt + k, bytes[k]);
        k = k + 1;
    }
}

} // verus!

verus! {

/// Byte offset of page `pageNumber` in the backing file.
pub fn pageOffset(pageNumber: u16) -> (r: u64)
    ensures
        r == pageNumber * PAGE_SIZE,
{
    assert(pageNumber * 4096 <= 65535 * 4096) by (nonlinear_arith)
        requires
            pageNumber <= 65535,
    ;
    pageNumber as u64 * PAGE_SIZE as u64
}

} // verus!
