use std::collections::HashSet;

use ffi_handle::handle::{Handle, HandleError};
use ffi_handle::table::HandleMap;

#[test]
fn insert_returns_odd_indices() {
    let mut table: HandleMap<String> = HandleMap::new();
    for i in 0..100u32 {
        let handle = table.insert(format!("value {i}")).unwrap();
        assert_eq!(handle.as_raw() & 1, 1);
    }
}

#[test]
fn insert_get_remove_round_trip() {
    let mut table: HandleMap<String> = HandleMap::new();
    let handle = table.insert(String::from("callback")).unwrap();

    assert_eq!(table.get(handle).unwrap(), "callback");
    assert_eq!(table.remove(handle).unwrap(), "callback");
    assert_eq!(table.get(handle), Err(HandleError::InvalidHandle));
}

#[test]
fn double_remove_fails_the_second_time() {
    let mut table: HandleMap<u32> = HandleMap::new();
    let handle = table.insert(17).unwrap();

    assert_eq!(table.remove(handle), Ok(17));
    assert_eq!(table.remove(handle), Err(HandleError::InvalidHandle));
}

#[test]
fn even_handles_are_refused() {
    let mut table: HandleMap<u32> = HandleMap::new();
    let _ = table.insert(1).unwrap();
    let even = Handle::from_raw_unchecked(2);

    assert_eq!(table.get(even), Err(HandleError::InvalidHandle));
    assert_eq!(table.remove(even), Err(HandleError::InvalidHandle));
}

#[test]
fn never_allocated_index_is_refused() {
    let table: HandleMap<u32> = HandleMap::new();
    let stray = Handle::from_raw_unchecked(99);
    assert_eq!(table.get(stray), Err(HandleError::InvalidHandle));
}

#[test]
fn removed_index_is_never_reissued() {
    let mut table: HandleMap<u32> = HandleMap::new();
    let first = table.insert(1).unwrap();
    assert_eq!(table.remove(first), Ok(1));

    // The freed index must not satisfy a stale handle via a later insert.
    let second = table.insert(2).unwrap();
    assert_ne!(second.as_raw(), first.as_raw());
    assert_eq!(table.get(first), Err(HandleError::InvalidHandle));
    assert_eq!(table.get(second), Ok(&2));
}

#[test]
fn many_inserts_give_distinct_odd_indices() {
    let mut table: HandleMap<u32> = HandleMap::new();
    let mut seen: HashSet<u64> = HashSet::new();
    for i in 0..10_000u32 {
        let handle = table.insert(i).unwrap();
        let raw = handle.as_raw();
        assert_eq!(raw & 1, 1);
        assert!(seen.insert(raw), "index {raw} was issued twice");
    }
    assert_eq!(seen.len(), 10_000);
}

#[test]
fn values_are_kept_per_index_under_churn() {
    let mut table: HandleMap<u64> = HandleMap::new();
    let handles: Vec<Handle> = (0..50u64).map(|i| table.insert(i * i).unwrap()).collect();

    // Remove every other entry, then check the survivors are untouched.
    for (i, handle) in handles.iter().enumerate() {
        if i % 2 == 0 {
            assert_eq!(table.remove(*handle), Ok((i as u64) * (i as u64)));
        }
    }
    for (i, handle) in handles.iter().enumerate() {
        if i % 2 == 0 {
            assert_eq!(table.get(*handle), Err(HandleError::InvalidHandle));
        } else {
            assert_eq!(table.get(*handle), Ok(&((i as u64) * (i as u64))));
        }
    }
}
