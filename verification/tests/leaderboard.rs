use zotty::ranks::leaderboard::{entry_rank, first_rank_offset, page_index, PAGE_SIZE};
use zotty::ranks::rank_card::{format_i32, rank_label, CountText};

#[test]
fn page_index_counts_from_zero() {
    assert_eq!(page_index(None), 0);
    assert_eq!(page_index(Some("1")), 0);
    assert_eq!(page_index(Some("3")), 2);
    assert_eq!(page_index(Some("+12")), 11);
}

#[test]
fn page_index_falls_back_to_the_first_page() {
    assert_eq!(page_index(Some("0")), 0);
    assert_eq!(page_index(Some("-5")), 0);
    assert_eq!(page_index(Some("two")), 0);
    assert_eq!(page_index(Some("")), 0);
    assert_eq!(page_index(Some("99999999999")), 0);
    assert_eq!(page_index(Some("2147483647")), 2147483646);
}

#[test]
fn pages_hold_ten_ranks() {
    assert_eq!(PAGE_SIZE, 10);
    assert_eq!(first_rank_offset(0), 0);
    assert_eq!(first_rank_offset(2), 20);
    assert_eq!(entry_rank(0, 20), 21);
    assert_eq!(entry_rank(9, 20), 30);
    assert_eq!(entry_rank(1, 0) - entry_rank(0, 0), 1);
}

#[test]
fn small_counts_are_written_exactly() {
    match format_i32(999) {
        CountText::Exact(s) => assert_eq!(s, "999"),
        _ => panic!("expected exact"),
    }
    match format_i32(-1234) {
        CountText::Exact(s) => assert_eq!(s, "-1234"),
        _ => panic!("expected exact"),
    }
}

#[test]
fn large_counts_are_written_in_thousands() {
    assert!(matches!(format_i32(1000), CountText::Thousands { value: 1000, decimals: 2 }));
    assert!(matches!(format_i32(9999), CountText::Thousands { value: 9999, decimals: 2 }));
    assert!(matches!(format_i32(10000), CountText::Thousands { value: 10000, decimals: 1 }));
    assert!(matches!(format_i32(99999), CountText::Thousands { value: 99999, decimals: 1 }));
    assert!(matches!(format_i32(100000), CountText::Thousands { value: 100000, decimals: 0 }));
}

#[test]
fn ranks_are_labelled_with_a_hash() {
    assert_eq!(rank_label(1), "#1");
    assert_eq!(rank_label(250), "#250");
}
