use pagestore::freelist::FreeList;

#[test]
fn fresh_allocations_count_up() {
    let mut f = FreeList::new();
    for expected in 1..=100u16 {
        assert_eq!(f.getNextPageNumber(), expected);
    }
    assert_eq!(f.maxPage, 100);
    assert!(f.releasedPages.is_empty());
}

#[test]
fn released_pages_reused_last_in_first_out() {
    let mut f = FreeList::new();
    assert_eq!(f.getNextPageNumber(), 1);
    assert_eq!(f.getNextPageNumber(), 2);
    f.releasePage(2);
    f.releasePage(1);
    assert_eq!(f.getNextPageNumber(), 1);
    assert_eq!(f.getNextPageNumber(), 2);
    assert_eq!(f.getNextPageNumber(), 3);
    assert_eq!(f.maxPage, 3);
}

#[test]
fn release_is_unconditional() {
    let mut f = FreeList::new();
    f.releasePage(9);
    f.releasePage(9);
    assert_eq!(f.releasedPages, vec![9, 9]);
    assert_eq!(f.getNextPageNumber(), 9);
    assert_eq!(f.getNextPageNumber(), 9);
    assert_eq!(f.getNextPageNumber(), 1);
}

#[test]
fn allocation_up_to_the_largest_page_number() {
    let mut f = FreeList::new();
    f.maxPage = 65534;
    assert_eq!(f.getNextPageNumber(), 65535);
    assert_eq!(f.maxPage, 65535);
}
