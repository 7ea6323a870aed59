use nextval_with_xact_lock::cache::SeqTableData;
use nextval_with_xact_lock::catalog::{FormData_pg_sequence, FormData_pg_sequence_data};
use nextval_with_xact_lock::nextval::nextval_from_tuple;

fn params(inc: i64, cache: i64) -> FormData_pg_sequence {
    FormData_pg_sequence {
        seqrelid: 1,
        seqtypid: 20,
        seqstart: 1,
        seqincrement: inc,
        seqmax: i64::MAX,
        seqmin: i64::MIN,
        seqcache: cache,
        seqcycle: false,
    }
}

#[test]
fn new_entry_holds_nothing() {
    let mut e = SeqTableData::new(42);
    assert_eq!(e.relid(), 42);
    assert_eq!((e.filenumber(), e.lxid(), e.last_valid()), (0, 0, false));
    assert_eq!((e.last(), e.cached(), e.increment()), (0, 0, 0));
    assert_eq!(e.take_cached(), None);
}

#[test]
fn relation_lock_is_taken_once_per_transaction() {
    let mut e = SeqTableData::new(1);
    assert!(e.needs_relation_lock(7));
    e.note_relation_locked(7);
    assert_eq!(e.lxid(), 7);
    assert!(!e.needs_relation_lock(7));
    assert!(e.needs_relation_lock(8));
}

#[test]
fn new_relfilenode_drops_reserved_values() {
    let p = params(3, 5);
    let mut t = FormData_pg_sequence_data { last_value: 10, log_cnt: 0, is_called: false };
    let mut e = SeqTableData::new(1);
    e.adopt_relfilenode(500);
    assert_eq!(e.filenumber(), 500);
    let f = nextval_from_tuple(&mut e, &p, &mut t, false).unwrap();
    assert_eq!(f.result, 10);
    assert_eq!(e.cached(), 22);
    assert_eq!(e.increment(), 3);
    // same relfilenode: nothing changes
    e.adopt_relfilenode(500);
    assert_eq!(e.cached(), 22);
    // rewritten sequence: the reserved values are gone
    e.adopt_relfilenode(501);
    assert_eq!((e.filenumber(), e.last(), e.cached()), (501, 10, 10));
    assert_eq!(e.take_cached(), None);
}

#[test]
fn cached_values_step_by_the_increment() {
    let p = params(-4, 3);
    let mut t = FormData_pg_sequence_data { last_value: 0, log_cnt: 0, is_called: true };
    let mut e = SeqTableData::new(1);
    let f = nextval_from_tuple(&mut e, &p, &mut t, false).unwrap();
    assert_eq!(f.result, -4);
    assert_eq!(t.last_value, -12);
    assert_eq!(e.take_cached(), Some(-8));
    assert_eq!(e.take_cached(), Some(-12));
    assert_eq!(e.take_cached(), None);
}
