use tweak::layout::{
    check_storage_compatibility, StorageEncoding, StorageVar, Violation,
};

fn var(slot: u64, offset: u64, size: u64, label: &str) -> StorageVar {
    StorageVar {
        slot,
        offset,
        size,
        encoding: StorageEncoding::Inplace,
        label: label.to_string(),
    }
}

#[test]
fn identical_layout_is_compatible() {
    let recorded = vec![var(0, 0, 32, "a")];
    let current = vec![var(0, 0, 32, "a")];
    assert!(check_storage_compatibility(&recorded, &current).is_ok());
}

#[test]
fn relocated_variable_is_reported_with_both_positions() {
    let recorded = vec![var(0, 0, 32, "a")];
    let current = vec![var(1, 0, 32, "a")];
    let err = check_storage_compatibility(&recorded, &current).unwrap_err();
    assert_eq!(err.violations.len(), 1);
    match &err.violations[0] {
        Violation::Relocated {
            label,
            expected_slot,
            expected_offset,
            actual_slot,
            actual_offset,
        } => {
            assert_eq!(label, "a");
            assert_eq!(*expected_slot, 0);
            assert_eq!(*expected_offset, 0);
            assert_eq!(*actual_slot, 1);
            assert_eq!(*actual_offset, 0);
        }
        other => panic!("expected a relocation violation, got {:?}", other),
    }
}

#[test]
fn appended_variable_is_compatible() {
    let recorded = vec![var(0, 0, 32, "a")];
    let current = vec![var(0, 0, 32, "a"), var(1, 0, 32, "b")];
    assert!(check_storage_compatibility(&recorded, &current).is_ok());
}

#[test]
fn missing_variable_is_reported() {
    let recorded = vec![var(0, 0, 32, "a")];
    let current: Vec<StorageVar> = Vec::new();
    let err = check_storage_compatibility(&recorded, &current).unwrap_err();
    assert_eq!(err.violations.len(), 1);
    match &err.violations[0] {
        Violation::Missing { label, slot, offset } => {
            assert_eq!(label, "a");
            assert_eq!(*slot, 0);
            assert_eq!(*offset, 0);
        }
        other => panic!("expected a missing-variable violation, got {:?}", other),
    }
}

#[test]
fn changed_size_is_reported() {
    let recorded = vec![var(0, 0, 32, "a")];
    let current = vec![var(0, 0, 16, "a")];
    let err = check_storage_compatibility(&recorded, &current).unwrap_err();
    assert_eq!(err.violations.len(), 1);
    match &err.violations[0] {
        Violation::TypeChanged { label, slot, offset, expected_size, actual_size, .. } => {
            assert_eq!(label, "a");
            assert_eq!(*slot, 0);
            assert_eq!(*offset, 0);
            assert_eq!(*expected_size, 32);
            assert_eq!(*actual_size, 16);
        }
        other => panic!("expected a type-change violation, got {:?}", other),
    }
}

#[test]
fn changed_encoding_is_reported() {
    let recorded = vec![var(0, 0, 32, "a")];
    let mut moved = var(0, 0, 32, "a");
    moved.encoding = StorageEncoding::Mapping;
    let current = vec![moved];
    let err = check_storage_compatibility(&recorded, &current).unwrap_err();
    assert_eq!(err.violations.len(), 1);
    assert!(matches!(err.violations[0], Violation::TypeChanged { .. }));
}

#[test]
fn reused_location_is_a_conflict() {
    let recorded = vec![var(0, 0, 32, "a"), var(1, 0, 32, "b")];
    let current = vec![var(0, 0, 32, "a"), var(1, 0, 32, "c")];
    let err = check_storage_compatibility(&recorded, &current).unwrap_err();
    // Recorded "b"'s location still holds a variable of the right shape, but
    // current "c" reuses a location claimed by a differently named recorded
    // variable: one conflict.
    assert_eq!(err.violations.len(), 1);
    match &err.violations[0] {
        Violation::Conflict { recorded_label, current_label, slot, offset } => {
            assert_eq!(recorded_label, "b");
            assert_eq!(current_label, "c");
            assert_eq!(*slot, 1);
            assert_eq!(*offset, 0);
        }
        other => panic!("expected a conflict violation, got {:?}", other),
    }
}

#[test]
fn all_violations_are_collected_at_once() {
    let recorded = vec![var(0, 0, 32, "a"), var(1, 0, 32, "b"), var(2, 0, 32, "c")];
    let current = vec![var(0, 0, 16, "a"), var(3, 0, 32, "b")];
    let err = check_storage_compatibility(&recorded, &current).unwrap_err();
    // "a" changed size, "b" moved, "c" vanished: three violations, no
    // short-circuit on the first.
    assert_eq!(err.violations.len(), 3);
    assert!(matches!(err.violations[0], Violation::TypeChanged { .. }));
    assert!(matches!(err.violations[1], Violation::Relocated { .. }));
    assert!(matches!(err.violations[2], Violation::Missing { .. }));
}
