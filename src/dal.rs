//! The disk access layer's state: the meta record and the free list, with
//! bootstrap, reload and flush expressed as computations on page buffers.
//!
//! The page that a flush must write is built here and handed to the caller,
//! which writes it at `pageOffset` of its page number; on reopen the caller
//! reads the meta page and then the page it names, and hands both back.

use crate::codec::{overwrite, u16_at};
use crate::freelist::{
    alloc_step, can_allocate, lemma_free_list_round_trip, release_step, FreeList,
};
use crate::meta::{lemma_meta_round_trip, Meta};
use crate::page::{zero_page, Page, META_PAGE_NUMBER, PAGE_SIZE};
use crate::util::{Deserialize, Serialize};
use vstd::prelude::*;

verus! {

/// The store's allocator state: which page holds the free list, and the free
/// list itself.
pub struct Dal {
    pub freeList: FreeList,
    pub meta: Meta,
}

impl Dal {
    /// The state of a store just created: the free list has handed out page 1
    /// for itself, and the meta record points at it.
    pub open spec fn is_bootstrapped(&self) -> bool {
        &&& self.meta.freeListPage == 1
        &&& self.freeList@ == (1u16, Seq::<u16>::empty())
    }

    /// Whether the encoded free list fits in one page.
    pub open spec fn can_flush(&self) -> bool {
        <FreeList as Serialize<FreeList>>::encoding(self.freeList@).len() <= PAGE_SIZE
    }

    /// The contents of the meta page that a flush writes.
    pub open spec fn meta_image(&self) -> Seq<u8> {
        overwrite(zero_page(), <Meta as Serialize<Meta>>::encoding(self.meta))
    }

    /// The contents of the free-list page that a flush writes.
    pub open spec fn free_list_image(&self) -> Seq<u8> {
        overwrite(zero_page(), <FreeList as Serialize<FreeList>>::encoding(self.freeList@))
    }

    /// Whether this state is the one read back from a meta page holding
    /// `meta_bytes` and a free-list page holding `free_list_bytes`.
    pub open spec fn loaded_from(&self, meta_bytes: Seq<u8>, free_list_bytes: Seq<u8>) -> bool {
        &&& self.meta == <Meta as Deserialize<Meta>>::decode(meta_bytes)
        &&& self.freeList@ == <FreeList as Deserialize<FreeList>>::decode(free_list_bytes)
    }

    /// Bootstraps the state of a new store: an empty free list, from which one
    /// page number is taken for the free list itself and recorded in the meta
    /// record. Nothing is written yet.
    pub fn new() -> (d: Dal)
        ensures
            d.is_bootstrapped(),
    {
        let mut freeList = FreeList::new();
        let mut meta = Meta::new();
        let freeListPageNumber = freeList.getNextPageNumber();
        meta.freeListPage = freeListPageNumber;
        Dal { freeList, meta }
    }

    /// Rebuilds the state of an existing store from its meta page and from
    /// the page that the meta record names.
    pub fn load(metaPage: &Page, freeListPage: &Page) -> (d: Dal)
        requires
            metaPage.wf(),
            metaPage.pageNumber == META_PAGE_NUMBER,
            freeListPage.pageNumber == u16_at(metaPage.data@, 0),
            <FreeList as Deserialize<FreeList>>::decodable(freeListPage.data@),
        ensures
            d.loaded_from(metaPage.data@, freeListPage.data@),
    {
        let mut dal = Dal { freeList: FreeList::new(), meta: Meta::new() };
        dal.readMeta(metaPage);
        dal.readFreeList(freeListPage);
        dal
    }

    /// A zero-filled page tagged with `pageNumber`.
    pub fn allocateEmptyPage(&self, pageNumber: u16) -> (p: Page)
        ensures
            p.pageNumber == pageNumber,
            p.data@ == zero_page(),
            p.wf(),
    {
        Page::new(pageNumber)
    }

    /// Builds the meta page that a flush writes: the meta record serialized
    /// into a fresh page numbered `META_PAGE_NUMBER`.
    pub fn writeMeta(&self) -> (p: Page)
        ensures
            p.pageNumber == META_PAGE_NUMBER,
            p.data@ == self.meta_image(),
            p.wf(),
    {
        let mut page = self.allocateEmptyPage(META_PAGE_NUMBER);
        self.meta.serialize(&mut page.data);
        page
    }

    /// Replaces the meta record with the one read from the meta page.
    pub fn readMeta(&mut self, page: &Page)
        requires
            page.wf(),
            page.pageNumber == META_PAGE_NUMBER,
        ensures
            final(self).meta == <Meta as Deserialize<Meta>>::decode(page.data@),
            final(self).freeList@ == old(self).freeList@,
    {
        let mut meta = Meta::new();
        meta.deserialize(page.data.as_slice());
        self.meta = meta;
    }

    /// Builds the free-list page that a flush writes: the free list serialized
    /// into a fresh page numbered as the meta record says.
    pub fn writeFreeList(&self) -> (p: Page)
        requires
            self.can_flush(),
        ensures
            p.pageNumber == self.meta.freeListPage,
            p.data@ == self.free_list_image(),
            p.wf(),
    {
        let freeListPage = self.meta.freeListPage;
        let mut page = self.allocateEmptyPage(freeListPage);
        self.freeList.serialize(&mut page.data);
        page
    }

    /// Replaces the free list with the one read from the page that the meta
    /// record names.
    pub fn readFreeList(&mut self, page: &Page)
        requires
            page.pageNumber == old(self).meta.freeListPage,
            <FreeList as Deserialize<FreeList>>::decodable(page.data@),
        ensures
            final(self).freeList@ == <FreeList as Deserialize<FreeList>>::decode(page.data@),
            final(self).meta == old(self).meta,
    {
        self.freeList.deserialize(page.data.as_slice());
    }

    /// Hands out a page number, as the free list does.
    pub fn getNextPageNumber(&mut self) -> (r: u16)
        requires
            can_allocate(old(self).freeList@),
        ensures
            (final(self).freeList@, r) == alloc_step(old(self).freeList@),
            final(self).meta == old(self).meta,
    {
        self.freeList.getNextPageNumber()
    }

    /// Gives a page number back to the free list.
    pub fn releasePage(&mut self, pageNumber: u16)
        ensures
            final(self).freeList@ == release_step(old(self).freeList@, pageNumber),
            final(self).meta == old(self).meta,
    {
        self.freeList.releasePage(pageNumber);
    }
}

/// Flushing a state and loading from the two pages written gives that state
/// back; the pages written satisfy what loading asks of them.
pub proof fn lemma_flush_then_load(d: Dal, e: Dal)
    requires
        d.can_flush(),
        e.loaded_from(d.meta_image(), d.free_list_image()),
    ensures
        u16_at(d.meta_image(), 0) == d.meta.freeListPage,
        <FreeList as Deserialize<FreeList>>::decodable(d.free_list_image()),
        e.meta == d.meta,
        e.freeList@ == d.freeList@,
{
    lemma_meta_round_trip(d.meta, zero_page());
    lemma_free_list_round_trip(d.freeList@, zero_page());
}

/// Bootstrapping a new store, flushing it with no change in between and
/// loading it again gives the bootstrapped state back.
pub proof fn lemma_bootstrap_idempotent(d: Dal, e: Dal)
    requires
        d.is_bootstrapped(),
        e.loaded_from(d.meta_image(), d.free_list_image()),
    ensures
        e.is_bootstrapped(),
{
    lemma_flush_then_load(d, e);
}

} // verus!
