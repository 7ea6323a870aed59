use nextval_with_xact_lock::cache::SeqTableData;
use nextval_with_xact_lock::catalog::{FormData_pg_sequence, FormData_pg_sequence_data};
use nextval_with_xact_lock::error::SequenceError;
use nextval_with_xact_lock::nextval::{
    fetch_values, needs_checkpoint_check, nextval_from_tuple, params_fetchable,
};

/// The parameters of `CREATE SEQUENCE` with the given options.
fn params(start: i64, inc: i64, min: i64, max: i64, cache: i64, cycle: bool) -> FormData_pg_sequence {
    FormData_pg_sequence {
        seqrelid: 16384,
        seqtypid: 20,
        seqstart: start,
        seqincrement: inc,
        seqmax: max,
        seqmin: min,
        seqcache: cache,
        seqcycle: cycle,
    }
}

/// The tuple of a freshly created sequence.
fn fresh(p: &FormData_pg_sequence) -> FormData_pg_sequence_data {
    FormData_pg_sequence_data { last_value: p.seqstart, log_cnt: 0, is_called: false }
}

/// One `nextval()` in a backend: from memory if a value is reserved there,
/// else from the tuple.
fn nextval(
    entry: &mut SeqTableData,
    p: &FormData_pg_sequence,
    t: &mut FormData_pg_sequence_data,
) -> Result<i64, SequenceError> {
    if let Some(v) = entry.take_cached() {
        return Ok(v);
    }
    assert!(params_fetchable(p));
    nextval_from_tuple(entry, p, t, false).map(|f| f.result)
}

fn run(p: &FormData_pg_sequence, n: usize) -> Vec<Result<i64, SequenceError>> {
    let mut t = fresh(p);
    let mut e = SeqTableData::new(p.seqrelid);
    (0..n).map(|_| nextval(&mut e, p, &mut t)).collect()
}

fn values(p: &FormData_pg_sequence, n: usize) -> Vec<i64> {
    run(p, n).into_iter().map(|r| r.unwrap()).collect()
}

#[test]
fn it_assigns_nextval_correctly() {
    let p = params(1, 1, 1, i64::MAX, 1, false);
    assert_eq!(values(&p, 1), vec![1]);
}

#[test]
fn concurrent_backends_get_distinct_values() {
    let p = params(1, 1, 1, i64::MAX, 1, false);
    let mut t = fresh(&p);
    let mut e1 = SeqTableData::new(p.seqrelid);
    let mut e2 = SeqTableData::new(p.seqrelid);
    let v1 = nextval(&mut e1, &p, &mut t).unwrap();
    let v2 = nextval(&mut e2, &p, &mut t).unwrap();
    let mut res = vec![v1, v2];
    res.sort();
    assert_eq!(res, [1, 2]);
}

#[test]
fn it_continues_the_sequence() {
    let p = params(1, 1, 1, i64::MAX, 1, false);
    assert_eq!(values(&p, 2), vec![1, 2]);
}

#[test]
fn it_respects_increment_by_setting_when_positive() {
    let p = params(1, 5, 1, i64::MAX, 1, false);
    assert_eq!(values(&p, 2), vec![1, 6]);
}

#[test]
fn it_respects_increment_by_setting_when_negative() {
    let p = params(-1, -5, i64::MIN, -1, 1, false);
    assert_eq!(values(&p, 2), vec![-1, -6]);
}

#[test]
fn it_respects_start_with_setting_when_positive() {
    let p = params(5, 1, 1, i64::MAX, 1, false);
    assert_eq!(values(&p, 2), vec![5, 6]);
}

#[test]
fn it_respects_start_with_setting_when_negative() {
    let p = params(-5, 1, -5, i64::MAX, 1, false);
    assert_eq!(values(&p, 2), vec![-5, -4]);
}

#[test]
fn it_restarts_sequence_after_reaching_max_value() {
    let p = params(1, 5, 1, 10, 1, true);
    assert_eq!(values(&p, 3), vec![1, 6, 1]);
}

#[test]
fn it_restarts_sequence_after_reaching_min_value() {
    let p = params(-1, -5, -10, -1, 1, true);
    assert_eq!(values(&p, 3), vec![-1, -6, -1]);
}

#[test]
fn it_returns_error_after_reaching_max_value() {
    let p = params(1, 5, 1, 10, 1, false);
    assert_eq!(run(&p, 3), vec![Ok(1), Ok(6), Err(SequenceError::ReachedMaximum(10))]);
}

#[test]
fn it_returns_error_after_reaching_min_value() {
    let p = params(-1, -5, -10, -1, 1, false);
    assert_eq!(run(&p, 3), vec![Ok(-1), Ok(-6), Err(SequenceError::ReachedMinimum(-10))]);
}

#[test]
fn error_leaves_tuple_and_entry_unchanged() {
    let p = params(1, 5, 1, 10, 1, false);
    let mut t = FormData_pg_sequence_data { last_value: 6, log_cnt: 3, is_called: true };
    let mut e = SeqTableData::new(1);
    let r = nextval_from_tuple(&mut e, &p, &mut t, true);
    assert_eq!(r, Err(SequenceError::ReachedMaximum(10)));
    assert_eq!((t.last_value, t.log_cnt, t.is_called), (6, 3, true));
    assert_eq!((e.last(), e.cached(), e.last_valid()), (0, 0, false));
}

#[test]
fn it_reserves_cache_number_of_values_in_memory() {
    let p = params(1, 1, 1, i64::MAX, 10, false);
    let mut t = fresh(&p);
    let mut e = SeqTableData::new(p.seqrelid);
    let seq: Vec<i64> = (0..3).map(|_| nextval(&mut e, &p, &mut t).unwrap()).collect();
    assert_eq!(seq, vec![1, 2, 3], "seq is {:?}", seq);
    assert_eq!(t.last_value, 10, "Last_value is {}", t.last_value);
    assert!(t.is_called);
}

#[test]
fn cache_stops_at_the_limit_without_wrapping() {
    // a cache of 10 with only 3 values left before the maximum
    let p = params(1, 1, 1, 3, 10, true);
    let mut t = fresh(&p);
    let mut e = SeqTableData::new(p.seqrelid);
    let f = nextval_from_tuple(&mut e, &p, &mut t, false).unwrap();
    assert_eq!(f.result, 1);
    assert_eq!(t.last_value, 3);
    assert_eq!(e.cached(), 3);
    assert_eq!(e.take_cached(), Some(2));
    assert_eq!(e.take_cached(), Some(3));
    assert_eq!(e.take_cached(), None);
    // memory is exhausted: the next fetch starts over
    assert_eq!(nextval(&mut e, &p, &mut t), Ok(1));
}

#[test]
fn first_fetch_logs_ahead() {
    let p = params(1, 1, 1, i64::MAX, 1, false);
    let mut t = fresh(&p);
    let f = fetch_values(&p, &mut t, false).unwrap();
    assert_eq!(f.result, 1);
    assert!(f.logit);
    // 32 values are WAL-logged ahead of the one handed out
    assert_eq!(f.wal_last_value, 33);
    assert_eq!((t.last_value, t.log_cnt, t.is_called), (1, 32, true));
    // the WAL record carries the tuple advanced by log_cnt steps
    assert_eq!(f.wal_last_value, t.last_value + t.log_cnt * p.seqincrement);
}

#[test]
fn covered_fetch_writes_no_wal() {
    let p = params(1, 1, 1, i64::MAX, 1, false);
    let mut t = FormData_pg_sequence_data { last_value: 1, log_cnt: 32, is_called: true };
    assert!(needs_checkpoint_check(&p, &t));
    let f = fetch_values(&p, &mut t, false).unwrap();
    assert_eq!((f.result, f.logit), (2, false));
    assert_eq!((t.last_value, t.log_cnt), (2, 31));
}

#[test]
fn fetch_after_checkpoint_logs_again() {
    let p = params(1, 1, 1, i64::MAX, 1, false);
    let mut t = FormData_pg_sequence_data { last_value: 1, log_cnt: 32, is_called: true };
    let f = fetch_values(&p, &mut t, true).unwrap();
    assert_eq!((f.result, f.logit, f.wal_last_value), (2, true, 34));
    assert_eq!((t.last_value, t.log_cnt), (2, 32));
    assert_eq!(f.wal_last_value, t.last_value + t.log_cnt * p.seqincrement);
}

#[test]
fn exhausted_wal_budget_forces_a_record() {
    let p = params(1, 1, 1, i64::MAX, 1, false);
    let t = FormData_pg_sequence_data { last_value: 5, log_cnt: 0, is_called: true };
    assert!(!needs_checkpoint_check(&p, &t));
    let fresh_t = fresh(&p);
    assert!(!needs_checkpoint_check(&p, &fresh_t));
}

#[test]
fn params_outside_the_fetchable_range_are_reported() {
    assert!(params_fetchable(&params(1, 1, 1, 10, 1, false)));
    assert!(!params_fetchable(&params(1, 1, 1, 10, 0, false)));
    assert!(!params_fetchable(&params(1, 1, 1, 10, i64::MAX, false)));
}

#[test]
fn default_sequence_row_is_zero() {
    let d = FormData_pg_sequence::default();
    assert_eq!(
        (d.seqrelid, d.seqtypid, d.seqstart, d.seqincrement, d.seqmax, d.seqmin, d.seqcache),
        (0, 0, 0, 0, 0, 0, 0)
    );
    assert!(!d.seqcycle);
}
