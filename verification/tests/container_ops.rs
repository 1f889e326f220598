use soa_derive::container::{ContainerError, Record, SoaContainer};

fn xy_names() -> Vec<String> {
    vec!["x".to_string(), "y".to_string()]
}

fn rec(x: u64, y: u64) -> Record<u64> {
    Record { values: vec![x, y] }
}

fn abc() -> SoaContainer<u64> {
    SoaContainer::from_instances(xy_names(), vec![rec(1, 2), rec(3, 4), rec(5, 6)])
}

/// Checks the core invariant from outside: the length counter equals the
/// length of every column.
fn assert_sync(container: &SoaContainer<u64>, arity: usize) {
    for j in 0..arity {
        assert_eq!(container.column(j).len(), container.len());
    }
}

#[test]
fn round_trip_single_record() {
    let mut container = SoaContainer::from_instances(xy_names(), vec![rec(7, 9)]);
    assert_eq!(container.len(), 1);
    assert_eq!(container.pop(), Some(rec(7, 9)));
    assert_eq!(container.len(), 0);
    assert!(container.is_empty());
}

#[test]
fn length_stays_synchronized_with_columns() {
    let mut container = abc();
    assert_sync(&container, 2);
    container.push(rec(7, 8));
    assert_sync(&container, 2);
    assert_eq!(container.remove(1), Ok(rec(3, 4)));
    assert_sync(&container, 2);
    assert_eq!(container.swap_remove(0), Ok(rec(1, 2)));
    assert_sync(&container, 2);
    assert!(container.pop().is_some());
    assert_sync(&container, 2);
    assert!(container.pop().is_some());
    assert_sync(&container, 2);
    assert_eq!(container.pop(), None);
    assert_sync(&container, 2);
}

#[test]
fn remove_preserves_order() {
    let mut container = abc();
    assert_eq!(container.remove(1), Ok(rec(3, 4)));
    // The remaining state is the one a container built from [a, c] holds.
    assert_eq!(container.len(), 2);
    assert_eq!(container.column(0), &vec![1, 5]);
    assert_eq!(container.column(1), &vec![2, 6]);
}

#[test]
fn swap_remove_moves_last_into_slot() {
    let mut container = abc();
    assert_eq!(container.swap_remove(0), Ok(rec(1, 2)));
    // The remaining state is the one a container built from [c, b] holds.
    assert_eq!(container.len(), 2);
    assert_eq!(container.column(0), &vec![5, 3]);
    assert_eq!(container.column(1), &vec![6, 4]);
}

#[test]
fn pop_on_empty_is_absent_not_an_error() {
    let mut container = SoaContainer::from_instances(xy_names(), Vec::new());
    assert_eq!(container.len(), 0);
    assert_eq!(container.pop(), None);
    assert_eq!(container.len(), 0);
    assert_sync(&container, 2);
}

#[test]
fn out_of_range_removal_fails_without_mutation() {
    let mut container = SoaContainer::from_instances(xy_names(), vec![rec(1, 2), rec(3, 4)]);
    assert_eq!(
        container.remove(5),
        Err(ContainerError::IndexOutOfRange { index: 5, length: 2 })
    );
    assert_eq!(
        container.swap_remove(5),
        Err(ContainerError::IndexOutOfRange { index: 5, length: 2 })
    );
    assert_eq!(container.len(), 2);
    assert_eq!(container.column(0), &vec![1, 3]);
    assert_eq!(container.column(1), &vec![2, 4]);
    // The boundary index is out of range too: length is not a valid index.
    assert_eq!(
        container.remove(2),
        Err(ContainerError::IndexOutOfRange { index: 2, length: 2 })
    );
}

#[test]
fn removal_on_empty_is_out_of_range() {
    let mut container: SoaContainer<u64> =
        SoaContainer::from_instances(xy_names(), Vec::new());
    assert_eq!(
        container.remove(0),
        Err(ContainerError::IndexOutOfRange { index: 0, length: 0 })
    );
    assert_eq!(
        container.swap_remove(0),
        Err(ContainerError::IndexOutOfRange { index: 0, length: 0 })
    );
}

#[test]
fn push_then_accessors_hold_the_new_record_last() {
    let mut container = abc();
    let before = container.len();
    container.push(rec(7, 8));
    assert_eq!(container.len(), before + 1);
    let x_column = container.column_for(&"x".to_string()).expect("field x exists");
    assert_eq!(x_column.last(), Some(&7));
    let y_column = container.column_for(&"y".to_string()).expect("field y exists");
    assert_eq!(y_column.last(), Some(&8));
    assert_sync(&container, 2);
}

#[test]
fn accessor_for_unknown_field_is_absent() {
    let container = abc();
    assert_eq!(container.column_for(&"z".to_string()), None);
}

#[test]
fn pop_returns_records_in_reverse_insertion_order() {
    let mut container = abc();
    assert_eq!(container.pop(), Some(rec(5, 6)));
    assert_eq!(container.pop(), Some(rec(3, 4)));
    assert_eq!(container.pop(), Some(rec(1, 2)));
    assert_eq!(container.pop(), None);
}

#[test]
fn remove_at_ends() {
    let mut container = abc();
    assert_eq!(container.remove(0), Ok(rec(1, 2)));
    assert_eq!(container.column(0), &vec![3, 5]);
    let mut container = abc();
    assert_eq!(container.remove(2), Ok(rec(5, 6)));
    assert_eq!(container.column(0), &vec![1, 3]);
}

#[test]
fn swap_remove_of_last_equals_plain_removal() {
    let mut container = abc();
    assert_eq!(container.swap_remove(2), Ok(rec(5, 6)));
    assert_eq!(container.column(0), &vec![1, 3]);
    assert_eq!(container.column(1), &vec![2, 4]);
}

#[test]
fn is_empty_tracks_length() {
    let mut container = SoaContainer::from_instances(xy_names(), Vec::new());
    assert!(container.is_empty());
    container.push(rec(1, 2));
    assert!(!container.is_empty());
    container.pop();
    assert!(container.is_empty());
}

#[test]
fn construction_drains_input_in_order() {
    let container = abc();
    assert_eq!(container.len(), 3);
    assert_eq!(container.column(0), &vec![1, 3, 5]);
    assert_eq!(container.column(1), &vec![2, 4, 6]);
}
