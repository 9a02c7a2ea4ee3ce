use linkedin_api_rs::collect::MAX_REPEATED_REQUESTS;
use linkedin_api_rs::collect::PageCollector;

/// Drives a collection the way the endpoint layer does: fetch the page at
/// the current offset, absorb it, stop when the collector says so. Returns
/// the collected items and how many fetches were made.
fn drive<F: FnMut(usize) -> Vec<u64>>(
    page_size: usize,
    target: Option<usize>,
    mut fetch: F,
) -> (Vec<u64>, usize) {
    let mut collector: PageCollector<u64> = PageCollector::new(page_size, target);
    let mut fetches = 0usize;
    loop {
        let page = fetch(collector.offset);
        fetches += 1;
        if collector.absorb_page(page) {
            break;
        }
    }
    (collector.items, fetches)
}

/// Pages of size 10 for the first three offsets, then empty.
fn three_pages_then_empty(offset: usize) -> Vec<u64> {
    if offset < 30 {
        (offset as u64..offset as u64 + 10).collect()
    } else {
        Vec::new()
    }
}

#[test]
fn natural_end_collects_thirty_and_stops_at_fourth_fetch() {
    let (items, fetches) = drive(10, None, three_pages_then_empty);
    assert_eq!(items.len(), 30);
    assert_eq!(items, (0u64..30).collect::<Vec<u64>>());
    assert_eq!(fetches, 4, "the empty fourth page is observed, a fifth fetch never occurs");
}

#[test]
fn target_limit_truncates_to_exactly_twenty_five() {
    let (items, fetches) = drive(10, Some(25), three_pages_then_empty);
    assert_eq!(items.len(), 25);
    assert_eq!(items, (0u64..25).collect::<Vec<u64>>());
    assert_eq!(fetches, 3);
}

#[test]
fn target_equal_to_available_items_stops_without_extra_fetch() {
    let (items, fetches) = drive(10, Some(30), three_pages_then_empty);
    assert_eq!(items.len(), 30);
    assert_eq!(fetches, 3);
}

#[test]
fn safety_ceiling_stops_a_never_ending_upstream() {
    let (items, fetches) = drive(10, None, |offset| {
        (offset as u64..offset as u64 + 10).collect()
    });
    assert_eq!(items.len(), 10 * MAX_REPEATED_REQUESTS);
    assert_eq!(fetches, MAX_REPEATED_REQUESTS, "fetch is never called beyond the ceiling");
}

#[test]
fn offset_advances_one_page_per_fetch() {
    let mut collector: PageCollector<u64> = PageCollector::new(10, None);
    assert_eq!(collector.offset, 0);
    assert!(!collector.absorb_page((0..10).collect()));
    assert_eq!(collector.offset, 10);
    assert!(collector.absorb_page(Vec::new()));
    assert_eq!(collector.offset, 20);
}

#[test]
fn empty_first_page_collects_nothing() {
    let (items, fetches) = drive(10, None, |_| Vec::new());
    assert_eq!(items.len(), 0);
    assert_eq!(fetches, 1);
}

#[test]
fn small_target_takes_part_of_first_page() {
    let (items, fetches) = drive(10, Some(3), three_pages_then_empty);
    assert_eq!(items, vec![0, 1, 2]);
    assert_eq!(fetches, 1);
}

#[test]
fn partial_pages_accumulate_until_empty() {
    // pages of 4 with page_size 10: natural end after two pages
    let (items, fetches) = drive(10, None, |offset| {
        if offset < 20 {
            vec![offset as u64; 4]
        } else {
            Vec::new()
        }
    });
    assert_eq!(items.len(), 8);
    assert_eq!(fetches, 3);
}
