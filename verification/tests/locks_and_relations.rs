use nextval_with_xact_lock::error::SequenceError;
use nextval_with_xact_lock::lock::advisory_lock_tag;
use nextval_with_xact_lock::relation::{
    check_page_magic, check_permission, check_relation_kind, clear_stale_xmax,
    relation_is_permanent, relation_needs_wal, x_log_is_needed,
};

#[test]
fn lock_tag_of_a_small_value() {
    let t = advisory_lock_tag(5, 1);
    assert_eq!((t.field1, t.field2, t.field3, t.field4), (5, 0, 1, 1));
}

#[test]
fn lock_tag_splits_the_key() {
    let t = advisory_lock_tag(9, (7i64 << 32) + 3);
    assert_eq!((t.field1, t.field2, t.field3, t.field4), (9, 7, 3, 1));
}

#[test]
fn lock_tag_of_a_negative_value() {
    let t = advisory_lock_tag(1, -1);
    assert_eq!((t.field2, t.field3), (0xFFFF_FFFF, 0xFFFF_FFFF));
    let t = advisory_lock_tag(1, i64::MIN);
    assert_eq!((t.field2, t.field3), (0x8000_0000, 0));
}

#[test]
fn distinct_values_get_distinct_locks() {
    assert_ne!(advisory_lock_tag(1, 1), advisory_lock_tag(1, 2));
    assert_ne!(advisory_lock_tag(1, 1), advisory_lock_tag(1, 1 + (1i64 << 32)));
    assert_ne!(advisory_lock_tag(1, -1), advisory_lock_tag(1, 0xFFFF_FFFF));
    assert_eq!(advisory_lock_tag(1, 77), advisory_lock_tag(1, 77));
}

#[test]
fn only_sequences_are_opened() {
    assert_eq!(check_relation_kind(b'S'), Ok(()));
    assert_eq!(check_relation_kind(b'r'), Err(SequenceError::WrongObjectType));
}

#[test]
fn it_disallows_nextval_without_privilege() {
    assert_eq!(check_permission(true, false), Err(SequenceError::PermissionDenied));
    assert_eq!(check_permission(true, true), Ok(()));
    assert_eq!(check_permission(false, false), Ok(()));
}

#[test]
fn page_magic_is_checked() {
    assert_eq!(check_page_magic(0x1717), Ok(()));
    assert_eq!(check_page_magic(0x1234), Err(SequenceError::BadMagic(0x1234)));
}

#[test]
fn stale_xmax_is_cleared() {
    let committed: u16 = 0x0400;
    let invalid: u16 = 0x0800;
    assert_eq!(clear_stale_xmax(0, 0x0402, committed, invalid), (0, 0x0402, false));
    assert_eq!(clear_stale_xmax(99, 0x0402, committed, invalid), (0, 0x0802, true));
}

#[test]
fn wal_is_needed_for_permanent_relations() {
    assert!(relation_is_permanent(b'p'));
    assert!(!relation_is_permanent(b'u'));
    assert!(!relation_is_permanent(b't'));
    assert!(x_log_is_needed(1));
    assert!(x_log_is_needed(2));
    assert!(!x_log_is_needed(0));
    assert!(relation_needs_wal(b'p', 1, 5, 5));
    assert!(relation_needs_wal(b'p', 0, 0, 0));
    assert!(!relation_needs_wal(b'p', 0, 5, 0));
    assert!(!relation_needs_wal(b'p', 0, 0, 5));
    assert!(!relation_needs_wal(b'u', 2, 0, 0));
}
