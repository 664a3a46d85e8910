use meteo_core::history::HistoryContainer;

#[test]
fn snapshot_has_capacity_length_and_live_value_last() {
    let mut h = HistoryContainer::new(4, 1000, 0);
    assert_eq!(h.get_history(), vec![0, 0, 0, 0]);

    // Within the interval: live slot only.
    let committed = h.insert(7, 10);
    assert!(!committed);
    let snap = h.get_history();
    assert_eq!(snap.len(), 4);
    assert_eq!(snap, vec![0, 0, 0, 7]);

    let committed = h.insert(9, 20);
    assert!(!committed);
    assert_eq!(h.get_history(), vec![0, 0, 0, 9]);
}

#[test]
fn commit_happens_once_per_interval() {
    let mut h = HistoryContainer::new(4, 100, 0);
    // Interval elapsed since construction: commits.
    assert!(h.insert(1, 100));
    // Too soon after the last commit: live update only.
    assert!(!h.insert(2, 150));
    assert!(!h.insert(3, 199));
    // Interval elapsed again: commits.
    assert!(h.insert(4, 200));
}

#[test]
fn committed_values_appear_oldest_first() {
    let mut h = HistoryContainer::new(5, 100, 0);
    assert!(h.insert(11, 100));
    assert_eq!(h.get_history(), vec![0, 0, 0, 11, 11]);
    assert!(h.insert(22, 200));
    assert_eq!(h.get_history(), vec![0, 0, 11, 22, 22]);
    assert!(h.insert(33, 300));
    assert_eq!(h.get_history(), vec![0, 11, 22, 33, 33]);
    // A non-committing insert still refreshes the live slot.
    assert!(!h.insert(44, 350));
    assert_eq!(h.get_history(), vec![0, 11, 22, 33, 44]);
}

#[test]
fn cursor_wraps_to_slot_one_and_live_slot_survives() {
    let mut h = HistoryContainer::new(3, 10, 0);
    // Cycle length is N - 1 = 2: commits land in slots 1, 2, 1, 2, ...
    assert!(h.insert(1, 10));
    assert_eq!(h.get_history(), vec![0, 1, 1]);
    assert!(h.insert(2, 20));
    assert_eq!(h.get_history(), vec![1, 2, 2]);
    assert!(h.insert(3, 30));
    // The wrap overwrites the oldest committed value, never the live slot.
    assert_eq!(h.get_history(), vec![2, 3, 3]);
    assert!(h.insert(4, 40));
    assert_eq!(h.get_history(), vec![3, 4, 4]);
}

#[test]
fn snapshot_is_idempotent_without_inserts() {
    let mut h = HistoryContainer::new(4, 100, 0);
    h.insert(5, 100);
    h.insert(6, 130);
    let first = h.get_history();
    let second = h.get_history();
    assert_eq!(first, second);
}

#[test]
fn zero_reading_is_indistinguishable_from_empty_slot() {
    let mut h = HistoryContainer::new(3, 100, 0);
    assert!(h.insert(0, 100));
    // A committed zero reads exactly like a never-written slot.
    assert_eq!(h.get_history(), vec![0, 0, 0]);
}
