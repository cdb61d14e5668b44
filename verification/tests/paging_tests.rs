use node_host::utils::PagedVec;

#[test]
fn pages_of_ten_by_three() {
    let data: Vec<u32> = vec![0, 1, 2, 3, 4, 5, 6, 7, 8, 9];
    let paged = PagedVec::new(data.as_slice(), 3);
    let (off0, page0) = paged.page(0).unwrap();
    assert_eq!(off0, 0);
    assert_eq!(page0, &[0, 1, 2]);
    let (off3, page3) = paged.page(3).unwrap();
    assert_eq!(off3, 0);
    assert_eq!(page3, &[3, 4, 5]);
    let (off6, page6) = paged.page(6).unwrap();
    assert_eq!(off6, 0);
    assert_eq!(page6, &[6, 7, 8]);
    let (off9, page9) = paged.page(9).unwrap();
    assert_eq!(off9, 0);
    assert_eq!(page9, &[9]);
    assert!(paged.page(10).is_none());
}

#[test]
fn page_offset_within_page() {
    let data: Vec<u32> = vec![10, 11, 12, 13, 14];
    let paged = PagedVec::new(data.as_slice(), 2);
    let (off, page) = paged.page(3).unwrap();
    assert_eq!(off, 1);
    assert_eq!(page, &[12, 13]);
    let (off4, page4) = paged.page(4).unwrap();
    assert_eq!(off4, 0);
    assert_eq!(page4, &[14]);
}

#[test]
fn empty_sequence_has_no_page() {
    let data: Vec<u8> = vec![];
    let paged = PagedVec::new(data.as_slice(), 4);
    assert!(paged.page(0).is_none());
}
