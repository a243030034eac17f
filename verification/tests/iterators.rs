//! Bounded iteration and indexed lookup over foreign arrays.

use open_asset_importer::array::{DirectArray, IndirectArray};

fn direct(vals: Vec<u32>) -> DirectArray<u32> {
    DirectArray { base: Some(vals) }
}

#[test]
fn direct_iter_yields_exactly_count() {
    let arr = direct(vec![10, 20, 30]);
    let mut it = arr.iter(3);
    assert_eq!(it.len(), 3);
    assert_eq!(it.next(), Some(&10));
    assert_eq!(it.next(), Some(&20));
    assert_eq!(it.next(), Some(&30));
    // The call after the last element yields nothing, and keeps yielding
    // nothing.
    assert_eq!(it.next(), None);
    assert_eq!(it.next(), None);
    assert_eq!(it.len(), 0);
}

#[test]
fn direct_iter_null_base_is_empty() {
    let arr: DirectArray<u32> = DirectArray { base: None };
    let mut it = arr.iter(5);
    assert_eq!(it.len(), 0);
    assert_eq!(it.next(), None);
}

#[test]
fn direct_iter_never_reads_past_base() {
    // A count larger than the storage must not fabricate records.
    let arr = direct(vec![1, 2]);
    let mut it = arr.iter(9);
    assert_eq!(it.next(), Some(&1));
    assert_eq!(it.next(), Some(&2));
    assert_eq!(it.next(), None);
}

#[test]
fn direct_get_checks_bounds() {
    let arr = direct(vec![7, 8, 9]);
    assert_eq!(arr.get(3, 0), Some(&7));
    assert_eq!(arr.get(3, 2), Some(&9));
    assert_eq!(arr.get(3, 3), None);
    assert_eq!(arr.get(3, 1000), None);
    let null: DirectArray<u32> = DirectArray { base: None };
    assert_eq!(null.get(3, 0), None);
}

#[test]
fn indirect_iter_yields_exactly_count() {
    let arr = IndirectArray { base: Some(vec![Some(4u32), Some(5), Some(6)]) };
    let mut it = arr.iter(3);
    assert_eq!(it.next(), Some(&4));
    assert_eq!(it.next(), Some(&5));
    assert_eq!(it.next(), Some(&6));
    assert_eq!(it.next(), None);
}

#[test]
fn indirect_iter_null_base_is_empty() {
    let arr: IndirectArray<u32> = IndirectArray { base: None };
    let mut it = arr.iter(4);
    assert_eq!(it.next(), None);
}

#[test]
fn indirect_iter_stops_at_null_record() {
    // A null pointer in the middle of the row ends the walk early; the
    // record behind it is never fabricated and never reached.
    let arr = IndirectArray { base: Some(vec![Some(1u32), None, Some(3)]) };
    let mut it = arr.iter(3);
    assert_eq!(it.next(), Some(&1));
    assert_eq!(it.next(), None);
    assert_eq!(it.next(), None);
}

#[test]
fn indirect_get_checks_bounds_and_nulls() {
    let arr = IndirectArray { base: Some(vec![Some(1u32), None, Some(3)]) };
    assert_eq!(arr.get(3, 0), Some(&1));
    assert_eq!(arr.get(3, 1), None);
    assert_eq!(arr.get(3, 2), Some(&3));
    assert_eq!(arr.get(3, 3), None);
    // The bound is the declared count even when the row is longer.
    assert_eq!(arr.get(1, 2), None);
}
