//! The transaction-level advisory lock taken on each value handed out.
use vstd::prelude::*;

verus! {

/// The fields of the lock tag that name an advisory lock on a 64-bit key;
/// the lock tag type and lock method are PostgreSQL's advisory lock type
/// and user lock method.
#[derive(Debug, Clone, Copy, PartialEq, Eq, Structural)]
pub struct AdvisoryLockTag {
    /// The database the lock belongs to.
    pub field1: u32,
    /// The high 32 bits of the key.
    pub field2: u32,
    /// The low 32 bits of the key.
    pub field3: u32,
    /// 1: the key is a single 64-bit value split over the two fields above
    /// (2 would mean two separate 32-bit keys).
    pub field4: u16,
}

/// The 64-bit key of the value `id`: its two's complement bits.
pub open spec fn lock_key(id: i64) -> int {
    if id >= 0 {
        id as int
    } else {
        id + 0x1_0000_0000_0000_0000
    }
}

/// The key that a tag names: its high and low halves put together.
pub open spec fn tag_key(t: AdvisoryLockTag) -> int {
    t.field2 * 0x1_0000_0000 + t.field3
}

/// The tag of the advisory lock on the value `id` in the database
/// `database_id`: the key's high and low 32 bits in the second and third
/// fields.
pub open spec fn advisory_lock_tag_spec(database_id: u32, id: i64) -> AdvisoryLockTag {
    AdvisoryLockTag {
        field1: database_id,
        field2: (lock_key(id) / 0x1_0000_0000) as u32,
        field3: (lock_key(id) % 0x1_0000_0000) as u32,
        field4: 1,
    }
}

/// The tag of the advisory lock on the value `id` in the database
/// `database_id`, as `pg_advisory_xact_lock(id)` would take it: the key's
/// high and low 32 bits in the second and third fields.
pub fn advisory_lock_tag(database_id: u32, id: i64) -> (t: AdvisoryLockTag)
    ensures
        t == advisory_lock_tag_spec(database_id, id),
        t.field1 == database_id,
        tag_key(t) == lock_key(id),
        t.field4 == 1,
{
    let key: u64 = id as u64;
    let high: u32 = (key >> 32) as u32;
    let low: u32 = key as u32;
    proof {
        assert(id >= 0 ==> key == id) by (bit_vector)
            requires key == id as u64;
        assert(id < 0 ==> key == id + 0x1_0000_0000_0000_0000) by (bit_vector)
            requires key == id as u64;
        assert(high * 0x1_0000_0000 + low == key) by (bit_vector)
            requires high == (key >> 32) as u32, low == key as u32;
        let k = lock_key(id);
        let h = high as int;
        let l = low as int;
        assert(k / 0x1_0000_0000 == h && k % 0x1_0000_0000 == l) by (nonlinear_arith)
            requires
                k == h * 0x1_0000_0000 + l,
                0 <= l < 0x1_0000_0000,
        ;
    }
    AdvisoryLockTag { field1: database_id, field2: high, field3: low, field4: 1 }
}

/// Distinct values are never covered by the same advisory lock: within a
/// database, the tag names one value only. (This is what keeps a value from
/// being issued while another transaction holds it.)
pub proof fn lemma_lock_tag_identifies_value(database_id: u32, a: i64, b: i64)
    requires
        advisory_lock_tag_spec(database_id, a) == advisory_lock_tag_spec(database_id, b),
    ensures
        a == b,
{
    let ka = lock_key(a);
    let kb = lock_key(b);
    assert(0 <= ka < 0x1_0000_0000_0000_0000);
    assert(0 <= kb < 0x1_0000_0000_0000_0000);
    assert(ka / 0x1_0000_0000 < 0x1_0000_0000 && ka % 0x1_0000_0000 < 0x1_0000_0000
        && ka == (ka / 0x1_0000_0000) * 0x1_0000_0000 + ka % 0x1_0000_0000
        && ka / 0x1_0000_0000 >= 0 && ka % 0x1_0000_0000 >= 0) by (nonlinear_arith)
        requires 0 <= ka < 0x1_0000_0000_0000_0000;
    assert(kb / 0x1_0000_0000 < 0x1_0000_0000 && kb % 0x1_0000_0000 < 0x1_0000_0000
        && kb == (kb / 0x1_0000_0000) * 0x1_0000_0000 + kb % 0x1_0000_0000
        && kb / 0x1_0000_0000 >= 0 && kb % 0x1_0000_0000 >= 0) by (nonlinear_arith)
        requires 0 <= kb < 0x1_0000_0000_0000_0000;
}

} // verus!
