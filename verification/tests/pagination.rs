use beacon_indexer::pagination::{
    concat_pages, pages_for_window, reassemble_by_id, resolve_sequential, resolve_sorted,
};
use beacon_indexer::snapshot::chunk_ids;

fn ascending_ids(total: i64) -> Vec<i64> {
    (1..=total).collect()
}

fn fetch_pages(all: &Vec<i64>, page_numbers: &Vec<u64>) -> Vec<Vec<i64>> {
    let chunks = chunk_ids(all);
    page_numbers
        .iter()
        .map(|p| chunks[(*p - 1) as usize].clone())
        .collect()
}

#[test]
fn sequential_first_page_of_25() {
    let ids = resolve_sequential(25, 0, 10);
    assert_eq!(ids, (1..=10).collect::<Vec<i64>>());
}

#[test]
fn sequential_partial_last_page_of_25() {
    let ids = resolve_sequential(25, 2, 10);
    assert_eq!(ids, vec![21, 22, 23, 24, 25]);
}

#[test]
fn sequential_middle_page_of_25() {
    let ids = resolve_sequential(25, 1, 10);
    assert_eq!(ids, (11..=20).collect::<Vec<i64>>());
}

#[test]
fn sequential_beyond_the_end_is_empty() {
    let ids = resolve_sequential(25, 5, 10);
    assert!(ids.is_empty());
}

#[test]
fn pages_for_ascending_windows() {
    assert_eq!(pages_for_window(25, 0, 10, false), vec![1]);
    assert_eq!(pages_for_window(25, 2, 10, false), vec![3]);
    assert_eq!(pages_for_window(25, 0, 15, false), vec![1, 2]);
}

#[test]
fn pages_for_descending_windows() {
    // 25 ids: the first descending page needs the ascending tail.
    assert_eq!(pages_for_window(25, 0, 10, true), vec![2, 3]);
    assert_eq!(pages_for_window(25, 1, 10, true), vec![1, 2]);
    assert_eq!(pages_for_window(25, 2, 10, true), vec![1]);
}

#[test]
fn ascending_resolution_slices_to_the_window() {
    let all = ascending_ids(25);
    for page_index in 0..3u64 {
        let nums = pages_for_window(25, page_index, 10, false);
        let fetched = fetch_pages(&all, &nums);
        let ids = resolve_sorted(25, page_index, 10, false, &fetched);
        let lo = (page_index * 10) as usize;
        let hi = std::cmp::min(lo + 10, 25);
        assert_eq!(ids, all[lo..hi].to_vec());
    }
}

#[test]
fn descending_first_page_uses_no_skip() {
    let all = ascending_ids(25);
    let nums = pages_for_window(25, 0, 10, true);
    let fetched = fetch_pages(&all, &nums);
    let ids = resolve_sorted(25, 0, 10, true, &fetched);
    assert_eq!(ids, (16..=25).rev().collect::<Vec<i64>>());
}

#[test]
fn descending_later_pages_use_the_tail_skip() {
    let all = ascending_ids(25);
    // total % 10 == 5, so every page after the first skips 5.
    let nums1 = pages_for_window(25, 1, 10, true);
    let fetched1 = fetch_pages(&all, &nums1);
    let ids1 = resolve_sorted(25, 1, 10, true, &fetched1);
    assert_eq!(ids1, (6..=15).rev().collect::<Vec<i64>>());

    let nums2 = pages_for_window(25, 2, 10, true);
    let fetched2 = fetch_pages(&all, &nums2);
    let ids2 = resolve_sorted(25, 2, 10, true, &fetched2);
    assert_eq!(ids2, (1..=5).rev().collect::<Vec<i64>>());
}

#[test]
fn descending_pages_are_contiguous_with_no_duplicates() {
    let all = ascending_ids(25);
    let mut seen: Vec<i64> = Vec::new();
    for page_index in 0..3u64 {
        let nums = pages_for_window(25, page_index, 10, true);
        let fetched = fetch_pages(&all, &nums);
        let ids = resolve_sorted(25, page_index, 10, true, &fetched);
        for w in ids.windows(2) {
            assert!(w[0] > w[1], "strictly descending within a page");
        }
        if let (Some(last), Some(first)) = (seen.last(), ids.first()) {
            assert_eq!(last - 1, *first, "contiguous across consecutive pages");
        }
        seen.extend(ids);
    }
    assert_eq!(seen, (1..=25).rev().collect::<Vec<i64>>());
}

#[test]
fn concat_pages_flattens_in_order() {
    let pages = vec![vec![1i64, 2], vec![3], vec![], vec![4, 5]];
    assert_eq!(concat_pages(&pages), vec![1, 2, 3, 4, 5]);
}

#[test]
fn reassemble_restores_request_order() {
    let ids = vec![3i64, 1, 2];
    let fetched = vec![
        (1i64, vec![10u8]),
        (2i64, vec![20u8]),
        (3i64, vec![30u8]),
    ];
    let out = reassemble_by_id(&ids, &fetched).unwrap();
    assert_eq!(out, vec![vec![30u8], vec![10u8], vec![20u8]]);
}

#[test]
fn reassemble_fails_on_a_missing_id() {
    let ids = vec![1i64, 4];
    let fetched = vec![(1i64, vec![10u8])];
    assert!(reassemble_by_id(&ids, &fetched).is_none());
}
