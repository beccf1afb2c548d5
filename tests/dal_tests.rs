use pagestore::dal::Dal;
use pagestore::freelist::FreeList;
use pagestore::meta::Meta;
use pagestore::util::Deserialize;
use pagestore::page::{pageOffset, writeToPage, Page, META_PAGE_NUMBER, PAGE_SIZE};

/// A page file held in memory, standing in for the store's backing file.
struct MemFile {
    bytes: Vec<u8>,
}

impl MemFile {
    fn write(&mut self, page: &Page) {
        let off = pageOffset(page.pageNumber) as usize;
        if self.bytes.len() < off + page.data.len() {
            self.bytes.resize(off + page.data.len(), 0);
        }
        self.bytes[off..off + page.data.len()].copy_from_slice(&page.data);
    }

    fn read(&self, dal: &Dal, n: u16) -> Page {
        let mut page = dal.allocateEmptyPage(n);
        let off = pageOffset(n) as usize;
        page.data.copy_from_slice(&self.bytes[off..off + PAGE_SIZE as usize]);
        page
    }

    fn flush(&mut self, dal: &Dal) {
        self.write(&dal.writeMeta());
        self.write(&dal.writeFreeList());
    }

    fn reopen(&self) -> Dal {
        let scratch = Dal::new();
        let metaPage = self.read(&scratch, META_PAGE_NUMBER);
        let mut meta = Meta::new();
        meta.deserialize(&metaPage.data);
        let flPage = self.read(&scratch, meta.freeListPage);
        assert!(FreeList::isDecodable(&flPage.data));
        Dal::load(&metaPage, &flPage)
    }
}

#[test]
fn new_store_is_bootstrapped() {
    let d = Dal::new();
    assert_eq!(d.meta.freeListPage, 1);
    assert_eq!(d.freeList.maxPage, 1);
    assert!(d.freeList.releasedPages.is_empty());
}

#[test]
fn page_size_regardless_of_number() {
    let d = Dal::new();
    for n in [0u16, 1, 2, 100, 65535] {
        let p = d.allocateEmptyPage(n);
        assert_eq!(p.pageNumber, n);
        assert_eq!(p.data.len(), 4096);
        assert!(p.data.iter().all(|b| *b == 0));
    }
}

#[test]
fn page_offsets() {
    assert_eq!(pageOffset(0), 0);
    assert_eq!(pageOffset(1), 4096);
    assert_eq!(pageOffset(3), 12288);
    assert_eq!(pageOffset(65535), 65535u64 * 4096);
}

#[test]
fn flush_images() {
    let mut d = Dal::new();
    d.releasePage(5);
    let m = d.writeMeta();
    assert_eq!(m.pageNumber, 0);
    assert_eq!(&m.data[..4], &[1, 0, 0, 0]);
    assert_eq!(m.data.len(), 4096);
    let f = d.writeFreeList();
    assert_eq!(f.pageNumber, 1);
    assert_eq!(&f.data[..8], &[1, 0, 1, 0, 5, 0, 0, 0]);
    assert_eq!(f.data.len(), 4096);
}

#[test]
fn bootstrap_flush_reopen_is_idempotent() {
    let mut file = MemFile { bytes: Vec::new() };
    let d = Dal::new();
    file.flush(&d);
    assert_eq!(file.bytes.len(), 2 * 4096);
    let e = file.reopen();
    assert_eq!(e.meta.freeListPage, 1);
    assert_eq!(e.freeList.maxPage, 1);
    assert!(e.freeList.releasedPages.is_empty());
}

#[test]
fn page_contents_persist_across_reopen() {
    let mut file = MemFile { bytes: Vec::new() };
    let mut d = Dal::new();
    let n = d.getNextPageNumber();
    assert_eq!(n, 2);
    let mut page = d.allocateEmptyPage(n);
    for (i, b) in page.data.iter_mut().enumerate() {
        *b = (i * 7 % 251) as u8;
    }
    let content = page.data.clone();
    file.write(&page);
    file.flush(&d);

    let mut e = file.reopen();
    assert_eq!(e.freeList.maxPage, 2);
    let back = file.read(&e, n);
    assert_eq!(back.data, content);
    assert_eq!(e.getNextPageNumber(), 3);
}

#[test]
fn allocator_state_persists_across_reopen() {
    let mut file = MemFile { bytes: Vec::new() };
    let mut d = Dal::new();
    for _ in 0..5 {
        d.getNextPageNumber();
    }
    d.releasePage(4);
    d.releasePage(2);
    file.flush(&d);
    let mut e = file.reopen();
    assert_eq!(e.freeList.maxPage, 6);
    assert_eq!(e.freeList.releasedPages, vec![4, 2]);
    assert_eq!(e.getNextPageNumber(), 2);
    assert_eq!(e.getNextPageNumber(), 4);
    assert_eq!(e.getNextPageNumber(), 7);
}

#[test]
fn read_meta_and_free_list_in_place() {
    let mut d = Dal::new();
    d.getNextPageNumber();
    let m = d.writeMeta();
    let f = d.writeFreeList();
    let mut e = Dal::new();
    e.meta.freeListPage = 0;
    e.readMeta(&m);
    assert_eq!(e.meta.freeListPage, 1);
    e.readFreeList(&f);
    assert_eq!(e.freeList.maxPage, 2);
}

#[test]
fn write_message_into_page() {
    let mut page = Page::new(3);
    writeToPage(&mut page.data, "first page", 0);
    assert_eq!(&page.data[..10], b"first page");
    assert_eq!(page.data[10], 0);
    writeToPage(&mut page.data, "ab", 4094);
    assert_eq!(&page.data[4094..], b"ab");
    assert_eq!(page.data.len(), 4096);
}
