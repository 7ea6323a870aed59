//! Fetching values from the sequence's tuple: the step rule, the values
//! reserved in memory, and how far ahead the WAL is written.
use vstd::prelude::*;
use crate::cache::{CacheEntryView, SeqTableData, entry_consistent_with, entry_wf, lemma_steps_bound};
use crate::catalog::{FormData_pg_sequence, FormData_pg_sequence_data, SEQ_LOG_VALS};
use crate::error::SequenceError;

verus! {

/// The parameters a fetch can work with: a cache of at least one value,
/// small enough that the WAL look-ahead can be added to it.
pub open spec fn params_ok(p: FormData_pg_sequence) -> bool {
    1 <= p.seqcache <= i64::MAX - SEQ_LOG_VALS
}

/// One step from `v` would pass the sequence's limit: the maximum for an
/// ascending sequence, the minimum otherwise.
pub open spec fn limit_reached(p: FormData_pg_sequence, v: int) -> bool {
    if p.seqincrement > 0 {
        v + p.seqincrement > p.seqmax
    } else {
        v + p.seqincrement < p.seqmin
    }
}

/// Where a cycling sequence starts over: the minimum for an ascending
/// sequence, the maximum otherwise.
pub open spec fn wrap_value(p: FormData_pg_sequence) -> int {
    if p.seqincrement > 0 {
        p.seqmin as int
    } else {
        p.seqmax as int
    }
}

/// The value that follows `v`; `None` where the limit is reached and the
/// sequence does not cycle.
pub open spec fn next_value(p: FormData_pg_sequence, v: int) -> Option<int> {
    if !limit_reached(p, v) {
        Some(v + p.seqincrement)
    } else if p.seqcycle {
        Some(wrap_value(p))
    } else {
        None
    }
}

/// The error raised where the limit is reached and the sequence does not
/// cycle.
pub open spec fn limit_error(p: FormData_pg_sequence) -> SequenceError {
    if p.seqincrement > 0 {
        SequenceError::ReachedMaximum(p.seqmax)
    } else {
        SequenceError::ReachedMinimum(p.seqmin)
    }
}

/// The value a fetch hands out: the stored value itself if it was never
/// handed out, else the value that follows it.
pub open spec fn first_value(p: FormData_pg_sequence, t: FormData_pg_sequence_data) -> Option<int> {
    if t.is_called {
        next_value(p, t.last_value as int)
    } else {
        Some(t.last_value as int)
    }
}

/// How many steps can be taken from `v`, at most `bound`, before the limit
/// is reached.
pub open spec fn run_len(p: FormData_pg_sequence, v: int, bound: nat) -> nat
    decreases bound,
{
    if bound == 0 || limit_reached(p, v) {
        0
    } else {
        1 + run_len(p, v + p.seqincrement, (bound - 1) as nat)
    }
}

/// Values the fetch must produce before any look-ahead: the cache size,
/// one less when the stored value itself is handed out.
pub open spec fn fetch_base(p: FormData_pg_sequence, t: FormData_pg_sequence_data) -> int {
    if t.is_called {
        p.seqcache as int
    } else {
        p.seqcache - 1
    }
}

/// The WAL must be written whatever the checkpoint: the last record does
/// not cover the values wanted, or the stored value was never handed out.
pub open spec fn wal_forced(p: FormData_pg_sequence, t: FormData_pg_sequence_data) -> bool {
    t.log_cnt < fetch_base(p, t) || !t.is_called
}

/// The fetch writes a WAL record: it is forced, or the page was last
/// changed before the latest checkpoint.
pub open spec fn logs_wal(
    p: FormData_pg_sequence,
    t: FormData_pg_sequence_data,
    before_checkpoint: bool,
) -> bool {
    wal_forced(p, t) || before_checkpoint
}

/// The number of fetches, look-ahead included.
pub open spec fn fetch_count(
    p: FormData_pg_sequence,
    t: FormData_pg_sequence_data,
    before_checkpoint: bool,
) -> int {
    fetch_base(p, t) + if logs_wal(p, t, before_checkpoint) {
        SEQ_LOG_VALS as int
    } else {
        0
    }
}

/// Fetches left once the handed-out value is known.
pub open spec fn fetch_after_first(
    p: FormData_pg_sequence,
    t: FormData_pg_sequence_data,
    before_checkpoint: bool,
) -> int {
    if t.is_called {
        fetch_count(p, t, before_checkpoint) - 1
    } else {
        fetch_count(p, t, before_checkpoint)
    }
}

/// The WAL budget once the handed-out value is known.
pub open spec fn log_after_first(
    p: FormData_pg_sequence,
    t: FormData_pg_sequence_data,
    before_checkpoint: bool,
) -> int {
    (if logs_wal(p, t, before_checkpoint) {
        fetch_count(p, t, before_checkpoint)
    } else {
        t.log_cnt as int
    }) - if t.is_called {
        1int
    } else {
        0int
    }
}

/// Steps taken past the handed-out value: as many as the fetches left allow,
/// up to the limit.
pub open spec fn steps_taken(
    p: FormData_pg_sequence,
    t: FormData_pg_sequence_data,
    before_checkpoint: bool,
) -> nat {
    run_len(p, first_value(p, t).unwrap(), fetch_after_first(p, t, before_checkpoint) as nat)
}

pub open spec fn min_int(a: int, b: int) -> int {
    if a <= b {
        a
    } else {
        b
    }
}

/// Steps past the handed-out value that are reserved in memory: all that were
/// taken, but no more than the cache holds besides the handed-out value.
pub open spec fn cached_steps(
    p: FormData_pg_sequence,
    t: FormData_pg_sequence_data,
    before_checkpoint: bool,
) -> int {
    min_int(steps_taken(p, t, before_checkpoint) as int, p.seqcache - 1)
}

/// What a fetch hands back besides the updated tuple.
#[derive(Debug, Clone, Copy, PartialEq, Eq, Structural)]
pub struct Fetched {
    /// The value handed out.
    pub result: i64,
    /// Whether a WAL record must be written.
    pub logit: bool,
    /// The `last_value` that the WAL record carries: the state the tuple
    /// would be in after every look-ahead fetch.
    pub wal_last_value: i64,
}

fn exceeds_max(next: i64, incby: i64, maxv: i64) -> (r: bool)
    ensures
        r == (next + incby > maxv),
{
    (next as i128) + (incby as i128) > (maxv as i128)
}

fn below_min(next: i64, incby: i64, minv: i64) -> (r: bool)
    ensures
        r == (next + incby < minv),
{
    (next as i128) + (incby as i128) < (minv as i128)
}

proof fn lemma_step_mul(start: int, s: int, inc: int)
    ensures
        start + s * inc + inc == start + (s + 1) * inc,
{
    assert(s * inc + inc == (s + 1) * inc) by (nonlinear_arith);
}

/// What a fetch from the tuple `t` with the parameters `p` gives: `r` and
/// the tuple `t2` after it.
pub open spec fn fetch_spec(
    p: FormData_pg_sequence,
    t: FormData_pg_sequence_data,
    before_checkpoint: bool,
    r: Result<Fetched, SequenceError>,
    t2: FormData_pg_sequence_data,
) -> bool {
    &&& r is Err <==> first_value(p, t) is None
    &&& r matches Err(e) ==> e == limit_error(p) && t2 == t
    &&& r matches Ok(f) ==> {
        let start = first_value(p, t).unwrap();
        &&& f.result == start
        &&& f.logit == logs_wal(p, t, before_checkpoint)
        &&& f.wal_last_value == start + steps_taken(p, t, before_checkpoint) * p.seqincrement
        &&& t2.last_value == start + cached_steps(p, t, before_checkpoint) * p.seqincrement
        &&& t2.is_called
        &&& t2.log_cnt == log_after_first(p, t, before_checkpoint) - cached_steps(
            p,
            t,
            before_checkpoint,
        ) - (fetch_after_first(p, t, before_checkpoint) - steps_taken(p, t, before_checkpoint))
        &&& t2.log_cnt >= 0
    }
}

/// Fetches values from the sequence's tuple, as `nextval()` does when nothing
/// is left in memory. The value handed out is the stored value if it was never
/// handed out, else the value that follows it (starting over at the other end
/// where the sequence cycles). Further values are fetched, one step each, as
/// long as the fetch count allows and the limit is not reached (past the
/// handed-out value a fetch never starts over): the cache size, plus
/// `SEQ_LOG_VALS` when a WAL record is written. The tuple then holds the last
/// value reserved in memory and the WAL budget left; the WAL record, if any,
/// carries the value after every fetch. Where the limit is reached before any
/// value could be handed out and the sequence does not cycle, nothing changes
/// and the error says which limit.
pub fn fetch_values(
    params: &FormData_pg_sequence,
    tuple: &mut FormData_pg_sequence_data,
    before_checkpoint: bool,
) -> (r: Result<Fetched, SequenceError>)
    requires
        params_ok(*params),
    ensures
        fetch_spec(*params, *old(tuple), before_checkpoint, r, *final(tuple)),
{
    let incby = params.seqincrement;
    let maxv = params.seqmax;
    let minv = params.seqmin;
    let cache = params.seqcache;
    let cycle = params.seqcycle;
    let ghost p = *params;
    let ghost t = *tuple;
    let ghost bc = before_checkpoint;

    let mut last: i64 = tuple.last_value;
    let mut next: i64 = tuple.last_value;
    let mut result: i64 = tuple.last_value;
    let mut rescnt: i64 = 0;
    let mut fetch: i64 = cache;
    let mut log: i64 = tuple.log_cnt;
    let mut logit: bool = false;
    if !tuple.is_called {
        rescnt += 1;
        fetch -= 1;
    }
    // Write a WAL record when the last one does not cover the values wanted,
    // or when this is the first fetch after a checkpoint (replay from the
    // checkpoint would not advance the sequence otherwise). Either way,
    // SEQ_LOG_VALS more values are fetched than the cache needs.
    if log < fetch || !tuple.is_called {
        fetch = fetch + SEQ_LOG_VALS;
        log = fetch;
        logit = true;
    } else if before_checkpoint {
        fetch = fetch + SEQ_LOG_VALS;
        log = fetch;
        logit = true;
    }
    let ghost mut steps: int = 0;

    while fetch != 0
        invariant
            incby == p.seqincrement,
            maxv == p.seqmax,
            minv == p.seqmin,
            cache == p.seqcache,
            cycle == p.seqcycle,
            params_ok(p),
            p == *params,
            *tuple == t,
            t == *old(tuple),
            logit == logs_wal(p, t, bc),
            0 <= fetch <= log,
            0 <= rescnt <= cache,
            rescnt == 0 ==> {
                &&& t.is_called
                &&& next == t.last_value
                &&& fetch == fetch_count(p, t, bc)
                &&& fetch >= 1
                &&& steps == 0
                &&& log == if logit {
                    fetch_count(p, t, bc)
                } else {
                    t.log_cnt as int
                }
            },
            rescnt >= 1 ==> {
                &&& first_value(p, t) is Some
                &&& result == first_value(p, t).unwrap()
                &&& 0 <= steps
                &&& next == result + steps * incby
                &&& fetch == fetch_after_first(p, t, bc) - steps
                &&& rescnt == 1 + min_int(steps, cache - 1)
                &&& last == result + min_int(steps, cache - 1) * incby
                &&& log == log_after_first(p, t, bc) - min_int(steps, cache - 1)
                &&& run_len(p, result as int, fetch_after_first(p, t, bc) as nat) == steps
                    + run_len(p, next as int, fetch as nat)
            },
        ensures
            rescnt >= 1,
            fetch == 0 || limit_reached(p, next as int),
        decreases fetch,
    {
        let ghost first = rescnt == 0;
        let ghost old_next: int = next as int;
        let ghost old_fetch: int = fetch as int;
        if incby > 0 {
            if exceeds_max(next, incby, maxv) {
                if rescnt > 0 {
                    break;
                }
                if !cycle {
                    return Err(SequenceError::ReachedMaximum(maxv));
                }
                next = minv;
            } else {
                next = next + incby;
            }
        } else {
            // a descending sequence
            if below_min(next, incby, minv) {
                if rescnt > 0 {
                    break;
                }
                if !cycle {
                    return Err(SequenceError::ReachedMinimum(minv));
                }
                next = maxv;
            } else {
                next = next + incby;
            }
        }
        fetch = fetch - 1;
        if rescnt < cache {
            log = log - 1;
            rescnt = rescnt + 1;
            last = next;
            // the first value fetched is the one handed out
            if rescnt == 1 {
                result = next;
            }
        }
        proof {
            if !first {
                assert(!limit_reached(p, old_next));
                assert(run_len(p, old_next, old_fetch as nat) == 1 + run_len(
                    p,
                    old_next + incby,
                    (old_fetch - 1) as nat,
                ));
                lemma_step_mul(result as int, steps, incby as int);
                steps = steps + 1;
            }
            if first {
                assert(steps * incby == 0);
            }
        }
    }
    // the fetches not made are not covered by the WAL either
    log = log - fetch;
    proof {
        assert(run_len(p, next as int, fetch as nat) == 0);
    }
    tuple.last_value = last;
    tuple.is_called = true;
    tuple.log_cnt = log;
    Ok(Fetched { result, logit, wal_last_value: next })
}

/// Every step counted by `run_len` stays within the limit.
proof fn lemma_run_len_within(p: FormData_pg_sequence, v: int, b: nat, m: int)
    requires
        1 <= m <= run_len(p, v, b),
    ensures
        p.seqincrement > 0 ==> v + m * p.seqincrement <= p.seqmax,
        p.seqincrement <= 0 ==> v + m * p.seqincrement >= p.seqmin,
    decreases b,
{
    let inc = p.seqincrement as int;
    if m > 1 {
        lemma_run_len_within(p, v + inc, (b - 1) as nat, m - 1);
        lemma_step_mul(v, m - 1, inc);
    } else {
        assert(m * inc == inc) by (nonlinear_arith)
            requires m == 1;
    }
}

/// A WAL record written by a fetch carries the tuple's state after every
/// fetch it covers: the stored value advanced by `log_cnt` more steps.
pub proof fn lemma_wal_covers_reserved(
    p: FormData_pg_sequence,
    t: FormData_pg_sequence_data,
    before_checkpoint: bool,
    r: Result<Fetched, SequenceError>,
    t2: FormData_pg_sequence_data,
)
    requires
        fetch_spec(p, t, before_checkpoint, r, t2),
    ensures
        r matches Ok(f) ==> (f.logit ==> f.wal_last_value == t2.last_value + t2.log_cnt
            * p.seqincrement),
{
    if r is Ok && logs_wal(p, t, before_checkpoint) {
        let start = first_value(p, t).unwrap();
        let n = steps_taken(p, t, before_checkpoint) as int;
        let c = cached_steps(p, t, before_checkpoint);
        let inc = p.seqincrement as int;
        assert(t2.log_cnt == n - c);
        assert(start + n * inc == start + c * inc + (n - c) * inc) by (nonlinear_arith);
    }
}

/// The values a fetch reserves in memory stay within the sequence's limit.
proof fn lemma_cached_within(p: FormData_pg_sequence, t: FormData_pg_sequence_data, bc: bool)
    requires
        first_value(p, t) is Some,
        params_ok(p),
    ensures
        cached_steps(p, t, bc) >= 0,
        cached_steps(p, t, bc) > 0 ==> {
            let last = first_value(p, t).unwrap() + cached_steps(p, t, bc) * p.seqincrement;
            &&& (p.seqincrement > 0 ==> last <= p.seqmax)
            &&& (p.seqincrement < 0 ==> last >= p.seqmin)
        },
{
    let c = cached_steps(p, t, bc);
    if c > 0 {
        lemma_run_len_within(
            p,
            first_value(p, t).unwrap(),
            fetch_after_first(p, t, bc) as nat,
            c,
        );
    }
}

/// `nextval()` from the tuple, with the cache entry of the sequence: the
/// fetch of `fetch_values`, after which the entry holds the handed-out value
/// as `last`, the last value reserved in memory as `cached` (the value now
/// stored in the tuple), and the sequence's increment. On an error nothing
/// changes.
pub fn nextval_from_tuple(
    entry: &mut SeqTableData,
    params: &FormData_pg_sequence,
    tuple: &mut FormData_pg_sequence_data,
    before_checkpoint: bool,
) -> (r: Result<Fetched, SequenceError>)
    requires
        entry_wf(old(entry)@),
        params_ok(*params),
    ensures
        fetch_spec(*params, *old(tuple), before_checkpoint, r, *final(tuple)),
        entry_wf(final(entry)@),
        r is Err ==> final(entry)@ == old(entry)@,
        r matches Ok(f) ==> {
            &&& final(entry)@ == (CacheEntryView {
                last_valid: true,
                last: f.result as int,
                cached: final(tuple).last_value as int,
                increment: params.seqincrement as int,
                remaining: final(entry)@.remaining,
                ..old(entry)@
            })
            &&& final(entry)@.remaining == if params.seqincrement == 0 {
                0
            } else {
                cached_steps(*params, *old(tuple), before_checkpoint)
            }
            &&& entry_consistent_with(final(entry)@, *params)
        },
{
    let ghost t = *tuple;
    let r = fetch_values(params, tuple, before_checkpoint);
    match r {
        Ok(f) => {
            let ghost count: nat = if params.seqincrement == 0 {
                0
            } else {
                cached_steps(*params, t, before_checkpoint) as nat
            };
            proof {
                lemma_cached_within(*params, t, before_checkpoint);
                if params.seqincrement == 0 {
                    let c = cached_steps(*params, t, before_checkpoint);
                    let inc = params.seqincrement as int;
                    assert(c * inc == 0) by (nonlinear_arith)
                        requires inc == 0;
                    assert(0 * inc == 0);
                }
            }
            entry.record_fetch(params.seqincrement, f.result, tuple.last_value, Ghost(count));
            Ok(f)
        },
        Err(e) => Err(e),
    }
}

/// The parameters admit a fetch (see `params_ok`).
pub fn params_fetchable(params: &FormData_pg_sequence) -> (r: bool)
    ensures
        r == params_ok(*params),
        r <==> (1 <= params.seqcache && params.seqcache <= i64::MAX - 32),
{
    1 <= params.seqcache && params.seqcache <= i64::MAX - SEQ_LOG_VALS
}

/// Whether a fetch needs to know if the page was last changed before the
/// latest checkpoint: only where no WAL record is forced anyway.
pub fn needs_checkpoint_check(params: &FormData_pg_sequence, tuple: &FormData_pg_sequence_data) -> (r:
    bool)
    requires
        params_ok(*params),
    ensures
        r == !wal_forced(*params, *tuple),
{
    let fetch: i64 = if tuple.is_called {
        params.seqcache
    } else {
        params.seqcache - 1
    };
    !(tuple.log_cnt < fetch || !tuple.is_called)
}

/// Each value handed out follows the one handed out before it by the
/// sequence's step rule, whether it comes from memory or from the tuple.
/// Here `e` is the cache entry after a value was handed out, with the values
/// reserved under the parameters `p`, and `t` the tuple that the fetch left
/// behind (it holds the last value reserved): the next value from memory is
/// `last` plus one step, within the limit; once memory is exhausted, the
/// next fetch hands out the value that follows `last`.
pub proof fn lemma_next_value_follows(e: CacheEntryView, p: FormData_pg_sequence, t: FormData_pg_sequence_data)
    requires
        entry_wf(e),
        entry_consistent_with(e, p),
        t.is_called,
        t.last_value == e.cached,
    ensures
        e.remaining > 0 ==> next_value(p, e.last) == Some(e.last + e.increment),
        e.remaining > 0 ==> e.increment == p.seqincrement,
        e.remaining > 0 && p.seqincrement > 0 ==> e.last + e.increment <= p.seqmax,
        e.remaining > 0 && p.seqincrement < 0 ==> e.last + e.increment >= p.seqmin,
        e.remaining == 0 ==> first_value(p, t) == next_value(p, e.last),
{
    if e.remaining > 0 {
        lemma_steps_bound(e.last, e.remaining, e.increment);
    } else {
        let r = e.remaining as int;
        let i = e.increment;
        assert(r * i == 0) by (nonlinear_arith)
            requires r == 0;
    }
}

/// Every catalog row whose cache holds at least one value and leaves room for
/// the `SEQ_LOG_VALS` (32) look-ahead fetches can be fetched from; nothing else
/// about the row (start, limits, increment, cycling) matters.
pub proof fn lemma_every_cache_size_fetchable(p: FormData_pg_sequence)
    ensures
        (1 <= p.seqcache && p.seqcache <= i64::MAX - 32) <==> params_ok(p),
{
}

/// The step rule of a called sequence, in terms of its parameters: the value
/// handed out after `last_value` is `last_value + increment` while that stays
/// within `[seqmin, seqmax]`; past the limit a cycling ascending sequence
/// starts over at `seqmin` and a cycling descending one at `seqmax` (never at
/// `seqstart`), and a sequence that does not cycle fails with the limit it
/// reached.
pub proof fn lemma_step_rule(
    p: FormData_pg_sequence,
    t: FormData_pg_sequence_data,
    before_checkpoint: bool,
    r: Result<Fetched, SequenceError>,
    t2: FormData_pg_sequence_data,
)
    requires
        fetch_spec(p, t, before_checkpoint, r, t2),
        t.is_called,
    ensures
        p.seqincrement > 0 && t.last_value + p.seqincrement <= p.seqmax ==> (r matches Ok(f)
            && f.result == t.last_value + p.seqincrement),
        p.seqincrement <= 0 && t.last_value + p.seqincrement >= p.seqmin ==> (r matches Ok(f)
            && f.result == t.last_value + p.seqincrement),
        p.seqincrement > 0 && t.last_value + p.seqincrement > p.seqmax && p.seqcycle ==> (r matches Ok(f)
            && f.result == p.seqmin),
        p.seqincrement <= 0 && t.last_value + p.seqincrement < p.seqmin && p.seqcycle ==> (r matches Ok(f)
            && f.result == p.seqmax),
        p.seqincrement > 0 && t.last_value + p.seqincrement > p.seqmax && !p.seqcycle ==> r == Err::<
            Fetched,
            SequenceError,
        >(SequenceError::ReachedMaximum(p.seqmax)),
        p.seqincrement <= 0 && t.last_value + p.seqincrement < p.seqmin && !p.seqcycle ==> r == Err::<
            Fetched,
            SequenceError,
        >(SequenceError::ReachedMinimum(p.seqmin)),
{
}

/// A fresh sequence hands out its stored (start) value first, whatever its
/// limits.
pub proof fn lemma_first_call_returns_stored_value(
    p: FormData_pg_sequence,
    t: FormData_pg_sequence_data,
    before_checkpoint: bool,
    r: Result<Fetched, SequenceError>,
    t2: FormData_pg_sequence_data,
)
    requires
        fetch_spec(p, t, before_checkpoint, r, t2),
        !t.is_called,
    ensures
        (r matches Ok(f) && f.result == t.last_value && f.logit),
{
}

/// With room for `b` steps before the limit, all `b` are taken.
proof fn lemma_run_len_full(p: FormData_pg_sequence, v: int, b: nat)
    requires
        p.seqincrement > 0 ==> v + b * p.seqincrement <= p.seqmax,
        p.seqincrement < 0 ==> v + b * p.seqincrement >= p.seqmin,
        p.seqincrement != 0,
    ensures
        run_len(p, v, b) == b,
    decreases b,
{
    let inc = p.seqincrement as int;
    if b > 0 {
        let bi = b as int;
        assert(inc > 0 ==> v + inc <= v + bi * inc) by (nonlinear_arith)
            requires bi >= 1;
        assert(inc < 0 ==> v + inc >= v + bi * inc) by (nonlinear_arith)
            requires bi >= 1;
        lemma_step_mul(v, bi - 1, inc);
        lemma_run_len_full(p, v + inc, (b - 1) as nat);
    }
}

/// Away from the limit, a fetch reserves exactly the cache: the tuple then
/// holds the handed-out value advanced by `seqcache - 1` steps. A fetch that
/// writes a WAL record leaves exactly `SEQ_LOG_VALS` (32) pre-logged values,
/// and the record carries the tuple advanced by those 32 steps; a fetch that
/// writes none uses `seqcache` values of the WAL budget.
pub proof fn lemma_fetch_reserves_cache(
    p: FormData_pg_sequence,
    t: FormData_pg_sequence_data,
    before_checkpoint: bool,
    f: Fetched,
    t2: FormData_pg_sequence_data,
)
    requires
        params_ok(p),
        fetch_spec(p, t, before_checkpoint, Ok::<Fetched, SequenceError>(f), t2),
        p.seqincrement > 0 ==> f.result + (p.seqcache + 32) * p.seqincrement <= p.seqmax,
        p.seqincrement < 0 ==> f.result + (p.seqcache + 32) * p.seqincrement >= p.seqmin,
        p.seqincrement != 0,
    ensures
        t2.last_value == f.result + (p.seqcache - 1) * p.seqincrement,
        t2.is_called,
        f.logit ==> t2.log_cnt == 32,
        f.logit ==> f.wal_last_value == t2.last_value + 32 * p.seqincrement,
        !f.logit ==> t2.log_cnt == t.log_cnt - p.seqcache,
{
    let start = first_value(p, t).unwrap();
    let fa = fetch_after_first(p, t, before_checkpoint);
    let inc = p.seqincrement as int;
    let c = p.seqcache as int;
    assert(0 <= fa <= c + 32);
    assert(inc > 0 ==> start + fa * inc <= start + (c + 32) * inc) by (nonlinear_arith)
        requires fa <= c + 32;
    assert(inc < 0 ==> start + fa * inc >= start + (c + 32) * inc) by (nonlinear_arith)
        requires fa <= c + 32;
    lemma_run_len_full(p, start, fa as nat);
    if f.logit {
        assert(start + fa * inc == start + (c - 1) * inc + 32 * inc) by (nonlinear_arith)
            requires fa == c + 31;
    }
}

} // verus!
