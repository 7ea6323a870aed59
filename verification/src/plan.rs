//! What the server is asked to do once the value to hand out is known, in
//! the order it must be done: the advisory lock on the value is taken while
//! the sequence is still held, so no other backend can issue a value before
//! the lock exists.
use vstd::prelude::*;
use crate::catalog::{FormData_pg_sequence, FormData_pg_sequence_data};
use crate::error::SequenceError;
use crate::lock::{AdvisoryLockTag, advisory_lock_tag, advisory_lock_tag_spec};
use crate::nextval::{Fetched, fetch_spec, lemma_wal_covers_reserved};

verus! {

/// One piece of server work.
#[derive(Debug, Clone, Copy, PartialEq, Eq, Structural)]
pub enum Action {
    /// Make sure the top-level transaction has an xid, so that its commit
    /// flushes the WAL (done outside the critical section).
    AssignTransactionId,
    /// Start the critical section in which the page is changed.
    EnterCriticalSection,
    /// Mark the sequence's buffer dirty.
    MarkBufferDirty,
    /// Write a WAL record of the tuple with this `last_value`, `is_called`
    /// set and a `log_cnt` of 0, and stamp the page with its position.
    LogTuple(i64),
    /// Store `last_value` and `log_cnt` in the tuple, with `is_called` set.
    StoreTuple(i64, i64),
    /// End the critical section.
    LeaveCriticalSection,
    /// Take the transaction-level advisory lock with this tag, without
    /// waiting where another transaction holds it.
    TryAdvisoryLock(AdvisoryLockTag),
    /// Unlock and release the sequence's buffer.
    ReleaseBuffer,
    /// Close the sequence relation (its lock stays until the transaction
    /// ends).
    CloseRelation,
}

/// The work after a value was handed out from memory.
pub open spec fn cached_plan_spec(database_id: u32, value: i64) -> Seq<Action> {
    seq![Action::TryAdvisoryLock(advisory_lock_tag_spec(database_id, value)), Action::CloseRelation]
}

/// The work after a value was handed out from the tuple, `tuple` being the
/// tuple the fetch left behind and `needs_wal` whether changes to the
/// sequence are WAL-logged.
pub open spec fn fetched_plan_spec(
    database_id: u32,
    f: Fetched,
    tuple: FormData_pg_sequence_data,
    needs_wal: bool,
) -> Seq<Action> {
    let log = f.logit && needs_wal;
    (if log {
        seq![Action::AssignTransactionId]
    } else {
        Seq::empty()
    }) + seq![Action::EnterCriticalSection, Action::MarkBufferDirty] + (if log {
        seq![Action::LogTuple(f.wal_last_value)]
    } else {
        Seq::empty()
    }) + seq![
        Action::StoreTuple(tuple.last_value, tuple.log_cnt),
        Action::LeaveCriticalSection,
        Action::TryAdvisoryLock(advisory_lock_tag_spec(database_id, f.result)),
        Action::ReleaseBuffer,
        Action::CloseRelation,
    ]
}

/// The work after `value` was handed out from memory: lock the value, then
/// close the sequence.
pub fn cached_value_plan(database_id: u32, value: i64) -> (plan: Vec<Action>)
    ensures
        plan@ == cached_plan_spec(database_id, value),
{
    let tag = advisory_lock_tag(database_id, value);
    let mut plan: Vec<Action> = Vec::new();
    plan.push(Action::TryAdvisoryLock(tag));
    plan.push(Action::CloseRelation);
    plan
}

/// The work after `f.result` was handed out from the tuple: write the WAL
/// record if the fetch asks for one and the sequence is WAL-logged, store
/// the new tuple inside a critical section, lock the value, and only then
/// release the buffer and close the sequence.
pub fn fetched_value_plan(
    database_id: u32,
    f: Fetched,
    tuple: &FormData_pg_sequence_data,
    needs_wal: bool,
) -> (plan: Vec<Action>)
    ensures
        plan@ == fetched_plan_spec(database_id, f, *tuple, needs_wal),
{
    let tag = advisory_lock_tag(database_id, f.result);
    let log = f.logit && needs_wal;
    let mut plan: Vec<Action> = Vec::new();
    if log {
        plan.push(Action::AssignTransactionId);
    }
    plan.push(Action::EnterCriticalSection);
    plan.push(Action::MarkBufferDirty);
    if log {
        plan.push(Action::LogTuple(f.wal_last_value));
    }
    plan.push(Action::StoreTuple(tuple.last_value, tuple.log_cnt));
    plan.push(Action::LeaveCriticalSection);
    plan.push(Action::TryAdvisoryLock(tag));
    plan.push(Action::ReleaseBuffer);
    plan.push(Action::CloseRelation);
    plan
}

/// In `plan`, the action at `li` takes the advisory lock with tag `tag`; it
/// is the only lock taken, nothing releases the sequence before it, and the
/// plan ends by closing the sequence.
pub open spec fn locks_before_release(plan: Seq<Action>, li: int, tag: AdvisoryLockTag) -> bool {
    &&& 0 <= li < plan.len()
    &&& plan[li] == Action::TryAdvisoryLock(tag)
    &&& forall|m: int| 0 <= m < plan.len() && #[trigger] plan[m] is TryAdvisoryLock ==> m == li
    &&& forall|m: int|
        0 <= m < plan.len() && (#[trigger] plan[m] == Action::ReleaseBuffer || plan[m]
            == Action::CloseRelation) ==> li < m
    &&& plan.last() == Action::CloseRelation
}

/// The lock on a value handed out from memory is taken before the sequence
/// is closed, and it is the lock on that value.
pub proof fn lemma_cached_value_locked_first(database_id: u32, value: i64) -> (li: int)
    ensures
        locks_before_release(
            cached_plan_spec(database_id, value),
            li,
            advisory_lock_tag_spec(database_id, value),
        ),
{
    0
}

/// The lock on a value handed out from the tuple is taken after the tuple
/// is stored and before the buffer is released or the sequence closed, and
/// it is the lock on that value.
pub proof fn lemma_fetched_value_locked_first(
    database_id: u32,
    f: Fetched,
    tuple: FormData_pg_sequence_data,
    needs_wal: bool,
) -> (li: int)
    ensures
        locks_before_release(
            fetched_plan_spec(database_id, f, tuple, needs_wal),
            li,
            advisory_lock_tag_spec(database_id, f.result),
        ),
        fetched_plan_spec(database_id, f, tuple, needs_wal)[li - 2] == Action::StoreTuple(
            tuple.last_value,
            tuple.log_cnt,
        ),
{
    lemma_fetched_plan_shape(database_id, f, tuple, needs_wal);
    let li = fetched_plan_spec(database_id, f, tuple, needs_wal).len() - 3;
    li
}

/// The fetched plan, written out: with a WAL record it has nine actions,
/// without one seven.
proof fn lemma_fetched_plan_shape(
    database_id: u32,
    f: Fetched,
    tuple: FormData_pg_sequence_data,
    needs_wal: bool,
)
    ensures
        f.logit && needs_wal ==> fetched_plan_spec(database_id, f, tuple, needs_wal) =~= seq![
            Action::AssignTransactionId,
            Action::EnterCriticalSection,
            Action::MarkBufferDirty,
            Action::LogTuple(f.wal_last_value),
            Action::StoreTuple(tuple.last_value, tuple.log_cnt),
            Action::LeaveCriticalSection,
            Action::TryAdvisoryLock(advisory_lock_tag_spec(database_id, f.result)),
            Action::ReleaseBuffer,
            Action::CloseRelation,
        ],
        !(f.logit && needs_wal) ==> fetched_plan_spec(database_id, f, tuple, needs_wal) =~= seq![
            Action::EnterCriticalSection,
            Action::MarkBufferDirty,
            Action::StoreTuple(tuple.last_value, tuple.log_cnt),
            Action::LeaveCriticalSection,
            Action::TryAdvisoryLock(advisory_lock_tag_spec(database_id, f.result)),
            Action::ReleaseBuffer,
            Action::CloseRelation,
        ],
{
}

/// Whatever the fetch and the WAL setting, the buffer is marked dirty inside
/// the critical section and before the tuple is stored: the plan has, in this
/// order, `EnterCriticalSection` at `e`, `MarkBufferDirty` at `d`, the
/// `StoreTuple` of the new tuple at `st` and `LeaveCriticalSection` at `l`,
/// and no other entry or exit of the critical section.
pub proof fn lemma_buffer_dirtied_before_store(
    database_id: u32,
    f: Fetched,
    tuple: FormData_pg_sequence_data,
    needs_wal: bool,
) -> (idx: (int, int, int, int))
    ensures
        ({
            let plan = fetched_plan_spec(database_id, f, tuple, needs_wal);
            let (e, d, st, l) = idx;
            &&& 0 <= e < d < st < l < plan.len()
            &&& plan[e] == Action::EnterCriticalSection
            &&& plan[d] == Action::MarkBufferDirty
            &&& plan[st] == Action::StoreTuple(tuple.last_value, tuple.log_cnt)
            &&& plan[l] == Action::LeaveCriticalSection
            &&& forall|m: int|
                0 <= m < plan.len() && (#[trigger] plan[m] == Action::EnterCriticalSection
                    || plan[m] == Action::LeaveCriticalSection) ==> (m == e || m == l)
        }),
{
    lemma_fetched_plan_shape(database_id, f, tuple, needs_wal);
    if f.logit && needs_wal {
        (1, 2, 4, 5)
    } else {
        (0, 1, 2, 3)
    }
}

/// The WAL record of a fetch: where the fetch asks for one and the sequence
/// is WAL-logged, the plan (built from the tuple the fetch left behind) logs,
/// inside the critical section and before the tuple is stored, the stored
/// `last_value` advanced by `log_cnt` steps of the sequence's increment; the
/// state that replay reaches covers every value the fetch reserved or
/// pre-logged. Otherwise the plan writes no WAL record at all.
pub proof fn lemma_wal_record_covers_fetch(
    database_id: u32,
    p: FormData_pg_sequence,
    t: FormData_pg_sequence_data,
    before_checkpoint: bool,
    f: Fetched,
    t2: FormData_pg_sequence_data,
    needs_wal: bool,
) -> (k: int)
    requires
        fetch_spec(p, t, before_checkpoint, Ok::<Fetched, SequenceError>(f), t2),
    ensures
        ({
            let plan = fetched_plan_spec(database_id, f, t2, needs_wal);
            &&& f.logit && needs_wal ==> {
                &&& 0 <= k < plan.len()
                &&& plan[k] == Action::LogTuple(
                    (t2.last_value + t2.log_cnt * p.seqincrement) as i64,
                )
                &&& t2.last_value + t2.log_cnt * p.seqincrement == f.wal_last_value
                &&& plan[k - 2] == Action::EnterCriticalSection
                &&& plan[k + 1] == Action::StoreTuple(t2.last_value, t2.log_cnt)
            }
            &&& !(f.logit && needs_wal) ==> forall|m: int|
                0 <= m < plan.len() ==> !(#[trigger] plan[m] is LogTuple)
        }),
{
    lemma_wal_covers_reserved(p, t, before_checkpoint, Ok::<Fetched, SequenceError>(f), t2);
    lemma_fetched_plan_shape(database_id, f, t2, needs_wal);
    3
}

} // verus!
