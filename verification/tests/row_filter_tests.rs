use std::sync::Arc;

use roaring::RoaringBitmap;
use roaring::RoaringTreemap;
use tantivy_search::search::collector::row_filter::AliveSet;
use tantivy_search::search::collector::row_filter::RowFilter;
use tantivy_search::search::collector::row_id_sets::bitmap_from_ids;
use tantivy_search::search::collector::row_id_sets::treemap_from_ids;

fn alive64(ids: &[u64]) -> AliveSet {
    AliveSet::Ids64(Arc::new(treemap_from_ids(&ids.to_vec())))
}

#[test]
fn filter_without_configuration_admits_every_row() {
    let filter = RowFilter::unfiltered();
    assert!(filter.is_alive(0));
    assert!(filter.is_alive(17));
    assert!(filter.is_alive(u64::MAX));
}

#[test]
fn alive_set_only_equals_membership() {
    let filter = RowFilter { alive: Some(alive64(&[1, 5, 1 << 40])), range: None };
    for row_id in [0u64, 1, 2, 4, 5, 6, (1 << 40) - 1, 1 << 40, (1 << 40) + 1, u64::MAX] {
        let member = row_id == 1 || row_id == 5 || row_id == 1 << 40;
        assert_eq!(filter.is_alive(row_id), member, "row {}", row_id);
    }
}

#[test]
fn empty_alive_set_admits_no_row() {
    let filter = RowFilter { alive: Some(alive64(&[])), range: None };
    assert!(!filter.is_alive(0));
    assert!(!filter.is_alive(1));
}

#[test]
fn range_only_includes_start_and_excludes_end() {
    let filter = RowFilter { alive: None, range: Some((10, 20)) };
    assert!(!filter.is_alive(9));
    assert!(filter.is_alive(10));
    assert!(filter.is_alive(15));
    assert!(filter.is_alive(19));
    assert!(!filter.is_alive(20));
    assert!(!filter.is_alive(21));
}

#[test]
fn empty_range_admits_no_row() {
    let filter = RowFilter { alive: None, range: Some((7, 7)) };
    assert!(!filter.is_alive(6));
    assert!(!filter.is_alive(7));
    assert!(!filter.is_alive(8));
    let backwards = RowFilter { alive: None, range: Some((9, 3)) };
    assert!(!backwards.is_alive(3));
    assert!(!backwards.is_alive(5));
    assert!(!backwards.is_alive(9));
}

#[test]
fn alive_set_and_range_are_both_required() {
    let filter = RowFilter { alive: Some(alive64(&[5, 10, 15, 20, 25])), range: Some((10, 20)) };
    assert!(!filter.is_alive(5));
    assert!(filter.is_alive(10));
    assert!(!filter.is_alive(12));
    assert!(filter.is_alive(15));
    assert!(!filter.is_alive(20));
    assert!(!filter.is_alive(25));
}

#[test]
fn alive_set_of_32_bit_ids_holds_no_larger_id() {
    let mut ids = RoaringBitmap::new();
    ids.insert(5);
    ids.insert(u32::MAX);
    let set = AliveSet::Ids32(Arc::new(ids));
    assert!(set.has(5));
    assert!(set.has(u32::MAX as u64));
    assert!(!set.has(6));
    assert!(!set.has((1u64 << 32) + 5));
    let filter = RowFilter { alive: Some(set), range: None };
    assert!(filter.is_alive(5));
    assert!(!filter.is_alive((1u64 << 32) + 5));
}

#[test]
fn treemap_from_ids_holds_exactly_the_ids() {
    let set: RoaringTreemap = treemap_from_ids(&vec![3, 1, 3, 1 << 35]);
    assert_eq!(set.len(), 3);
    assert!(set.contains(1));
    assert!(set.contains(3));
    assert!(set.contains(1 << 35));
    assert!(!set.contains(2));
    assert!(treemap_from_ids(&Vec::new()).is_empty());
}

#[test]
fn bitmap_from_ids_holds_exactly_the_ids() {
    let set: RoaringBitmap = bitmap_from_ids(&vec![9, 9, 2]);
    assert_eq!(set.len(), 2);
    assert!(set.contains(2));
    assert!(set.contains(9));
    assert!(!set.contains(3));
    assert!(bitmap_from_ids(&Vec::new()).is_empty());
}
