//! The backend-local cache entry of one sequence: the values reserved in
//! memory by the last fetch and not yet handed out.
use vstd::prelude::*;
use crate::catalog::FormData_pg_sequence;

verus! {

/// What a cache entry holds, as the contracts see it.
pub struct CacheEntryView {
    /// `pg_class` OID of the sequence (the hash key).
    pub relid: u32,
    /// Last seen relfilenumber of the sequence.
    pub filenumber: u32,
    /// Local transaction in which the sequence was last locked.
    pub lxid: u32,
    /// Whether `last` holds a value that was handed out.
    pub last_valid: bool,
    /// The value last returned.
    pub last: int,
    /// The last value reserved in memory.
    pub cached: int,
    /// The sequence's increment, as of the last fetch.
    pub increment: int,
    /// How many reserved values are still to be handed out.
    pub remaining: nat,
}

/// The backend-local cache entry of one sequence.
pub struct SeqTableData {
    relid: u32,
    filenumber: u32,
    lxid: u32,
    last_valid: bool,
    last: i64,
    cached: i64,
    increment: i64,
    remaining: Ghost<nat>,
}

impl View for SeqTableData {
    type V = CacheEntryView;

    closed spec fn view(&self) -> CacheEntryView {
        CacheEntryView {
            relid: self.relid,
            filenumber: self.filenumber,
            lxid: self.lxid,
            last_valid: self.last_valid,
            last: self.last as int,
            cached: self.cached as int,
            increment: self.increment as int,
            remaining: self.remaining@,
        }
    }
}

/// The reserved values run from `last` to `cached` in steps of `increment`:
/// `cached` is `remaining` steps past `last`.
pub open spec fn entry_wf(v: CacheEntryView) -> bool {
    &&& v.cached == v.last + v.remaining * v.increment
    &&& v.remaining > 0 ==> (v.last_valid && v.increment != 0)
}

/// The reserved values were fetched with the parameters `p`: they step by
/// its increment and none lies beyond its limit.
pub open spec fn entry_consistent_with(v: CacheEntryView, p: FormData_pg_sequence) -> bool {
    v.remaining > 0 ==> {
        &&& v.increment == p.seqincrement
        &&& (v.increment > 0 ==> v.cached <= p.seqmax)
        &&& (v.increment < 0 ==> v.cached >= p.seqmin)
    }
}

pub(crate) proof fn lemma_steps_bound(last: int, rem: nat, inc: int)
    requires
        rem > 0,
    ensures
        inc > 0 ==> last < last + inc <= last + rem * inc,
        inc < 0 ==> last > last + inc >= last + rem * inc,
        inc != 0 ==> rem * inc != 0,
        last + rem * inc == (last + inc) + (rem - 1) * inc,
{
    assert(inc > 0 ==> inc <= rem * inc) by (nonlinear_arith)
        requires rem > 0;
    assert(inc < 0 ==> inc >= rem * inc) by (nonlinear_arith)
        requires rem > 0;
    assert(inc != 0 ==> rem * inc != 0) by (nonlinear_arith)
        requires rem > 0;
    assert(rem * inc == inc + (rem - 1) * inc) by (nonlinear_arith);
}

impl SeqTableData {
    /// A fresh entry for the sequence `relid`: nothing reserved, no value
    /// handed out, no relfilenumber or transaction seen.
    pub fn new(relid: u32) -> (e: SeqTableData)
        ensures
            entry_wf(e@),
            e@.relid == relid,
            e@.filenumber == 0,
            e@.lxid == 0,
            !e@.last_valid,
            e@.last == 0,
            e@.cached == 0,
            e@.increment == 0,
            e@.remaining == 0,
    {
        SeqTableData {
            relid,
            filenumber: 0,
            lxid: 0,
            last_valid: false,
            last: 0,
            cached: 0,
            increment: 0,
            remaining: Ghost(0),
        }
    }

    pub fn relid(&self) -> (r: u32)
        ensures
            r == self@.relid,
    {
        self.relid
    }

    pub fn filenumber(&self) -> (r: u32)
        ensures
            r == self@.filenumber,
    {
        self.filenumber
    }

    pub fn lxid(&self) -> (r: u32)
        ensures
            r == self@.lxid,
    {
        self.lxid
    }

    pub fn last_valid(&self) -> (r: bool)
        ensures
            r == self@.last_valid,
    {
        self.last_valid
    }

    pub fn last(&self) -> (r: i64)
        ensures
            r == self@.last,
    {
        self.last
    }

    pub fn cached(&self) -> (r: i64)
        ensures
            r == self@.cached,
    {
        self.cached
    }

    pub fn increment(&self) -> (r: i64)
        ensures
            r == self@.increment,
    {
        self.increment
    }
    /// Whether the sequence must be locked again: it was last locked in
    /// another local transaction than `this_lxid`.
    pub fn needs_relation_lock(&self, this_lxid: u32) -> (r: bool)
        ensures
            r == (self@.lxid != this_lxid),
    {
        self.lxid != this_lxid
    }

    /// Notes that the sequence is now locked in the local transaction
    /// `this_lxid`; nothing else changes.
    pub fn note_relation_locked(&mut self, this_lxid: u32)
        requires
            entry_wf(old(self)@),
        ensures
            final(self)@ == (CacheEntryView { lxid: this_lxid, ..old(self)@ }),
            entry_wf(final(self)@),
    {
        self.lxid = this_lxid;
    }

    /// Takes note of the sequence's current relfilenumber. Where it differs
    /// from the one last seen (the sequence was rewritten), the values
    /// reserved in memory are dropped: `cached` falls back to `last`.
    pub fn adopt_relfilenode(&mut self, relfilenode: u32)
        requires
            entry_wf(old(self)@),
        ensures
            entry_wf(final(self)@),
            old(self)@.filenumber == relfilenode ==> final(self)@ == old(self)@,
            old(self)@.filenumber != relfilenode ==> final(self)@ == (CacheEntryView {
                filenumber: relfilenode,
                cached: old(self)@.last,
                remaining: 0,
                ..old(self)@
            }),
    {
        if relfilenode != self.filenumber {
            self.filenumber = relfilenode;
            self.cached = self.last;
            self.remaining = Ghost(0);
            assert(self.cached == self.last + 0 * self.increment);
        }
    }

    /// Hands out the next value reserved in memory, if any is left: it is
    /// `last` advanced by one step of `increment`. With nothing left the
    /// entry is unchanged.
    pub fn take_cached(&mut self) -> (r: Option<i64>)
        requires
            entry_wf(old(self)@),
        ensures
            entry_wf(final(self)@),
            r is None <==> old(self)@.remaining == 0,
            r is None <==> old(self)@.last == old(self)@.cached,
            r is None ==> final(self)@ == old(self)@,
            r matches Some(v) ==> {
                &&& v == old(self)@.last + old(self)@.increment
                &&& final(self)@ == (CacheEntryView {
                    last: v as int,
                    remaining: (old(self)@.remaining - 1) as nat,
                    ..old(self)@
                })
            },
            forall|p: FormData_pg_sequence|
                entry_consistent_with(old(self)@, p) ==> entry_consistent_with(final(self)@, p),
    {
        if self.last != self.cached {
            proof {
                if self.remaining@ == 0 {
                    assert(self.cached == self.last + 0 * self.increment);
                }
                lemma_steps_bound(self.last as int, self.remaining@, self.increment as int);
            }
            self.last = self.last + self.increment;
            self.remaining = Ghost((self.remaining@ - 1) as nat);
            Some(self.last)
        } else {
            proof {
                if self.remaining@ > 0 {
                    lemma_steps_bound(self.last as int, self.remaining@, self.increment as int);
                }
            }
            None
        }
    }

    /// Records the outcome of a fetch: `result` was handed out, and the values
    /// after it up to `last_fetched`, `count` steps of `increment` further on,
    /// are reserved in memory.
    pub(crate) fn record_fetch(&mut self, increment: i64, result: i64, last_fetched: i64, count: Ghost<nat>)
        requires
            entry_wf(old(self)@),
            last_fetched == result + count@ * increment,
            count@ > 0 ==> increment != 0,
        ensures
            entry_wf(final(self)@),
            final(self)@ == (CacheEntryView {
                last_valid: true,
                last: result as int,
                cached: last_fetched as int,
                increment: increment as int,
                remaining: count@,
                ..old(self)@
            }),
    {
        self.increment = increment;
        self.last = result;
        self.cached = last_fetched;
        self.last_valid = true;
        self.remaining = count;
    }
}

} // verus!
