//! Checks on the sequence relation and its page, and whether its changes
//! must be WAL-logged.
use vstd::prelude::*;
use crate::catalog::{INVALID_SUB_TRANSACTION_ID, SEQ_MAGIC};
use crate::error::SequenceError;

verus! {

/// `relkind` of a sequence: `'S'`.
pub const RELKIND_SEQUENCE: u8 = 0x53;

/// `relpersistence` of a regular, permanent relation: `'p'`.
pub const RELPERSISTENCE_PERMANENT: u8 = 0x70;

/// The `wal_level` from which WAL is written for every change: `replica`.
pub const WAL_LEVEL_REPLICA: i32 = 1;

/// The relation opened is a sequence; any other kind of relation is
/// refused.
pub fn check_relation_kind(relkind: u8) -> (r: Result<(), SequenceError>)
    ensures
        r is Ok <==> relkind == RELKIND_SEQUENCE,
        r matches Err(e) ==> e == SequenceError::WrongObjectType,
{
    if relkind != RELKIND_SEQUENCE {
        Err(SequenceError::WrongObjectType)
    } else {
        Ok(())
    }
}

/// The caller may take values: the check is skipped, or it passed (the
/// user has USAGE or UPDATE on the sequence).
pub fn check_permission(check_permissions: bool, acl_ok: bool) -> (r: Result<(), SequenceError>)
    ensures
        r is Ok <==> (!check_permissions || acl_ok),
        r matches Err(e) ==> e == SequenceError::PermissionDenied,
{
    if check_permissions && !acl_ok {
        Err(SequenceError::PermissionDenied)
    } else {
        Ok(())
    }
}

/// The page read is a sequence page: its special area holds the sequence
/// magic number; any other number is refused, and carried in the error.
pub fn check_page_magic(magic: u32) -> (r: Result<(), SequenceError>)
    ensures
        r is Ok <==> magic == SEQ_MAGIC,
        r matches Err(e) ==> e == SequenceError::BadMagic(magic),
{
    if magic != SEQ_MAGIC {
        Err(SequenceError::BadMagic(magic))
    } else {
        Ok(())
    }
}

/// The sequence tuple never gets a valid xmax; one left behind (by a
/// `SELECT ... FOR UPDATE` before 8.3, say) is cleared: `xmax` becomes
/// invalid, the `committed` bit is cleared and the `invalid` bit set in the
/// infomask. The last field says whether anything changed, so that the
/// buffer is marked dirty.
pub fn clear_stale_xmax(xmax: u32, infomask: u16, committed_bit: u16, invalid_bit: u16) -> (r: (
    u32,
    u16,
    bool,
))
    ensures
        r.2 == (xmax != 0),
        xmax == 0 ==> r.0 == xmax && r.1 == infomask,
        xmax != 0 ==> r.0 == 0 && r.1 == ((infomask & !committed_bit) | invalid_bit),
{
    if xmax != 0 {
        (0, (infomask & !committed_bit) | invalid_bit, true)
    } else {
        (xmax, infomask, false)
    }
}

/// The relation is a regular, permanent one (not unlogged or temporary).
pub fn relation_is_permanent(relpersistence: u8) -> (r: bool)
    ensures
        r == (relpersistence == RELPERSISTENCE_PERMANENT),
{
    relpersistence == RELPERSISTENCE_PERMANENT
}

/// WAL is written for every change at this `wal_level`.
pub fn x_log_is_needed(wal_level: i32) -> (r: bool)
    ensures
        r == (wal_level >= WAL_LEVEL_REPLICA),
{
    wal_level >= WAL_LEVEL_REPLICA
}

/// Changes to the relation must be WAL-logged: it is permanent, and either
/// the WAL level asks for it or the relation was neither created nor given a
/// new relfilenumber in the current transaction.
pub fn relation_needs_wal(
    relpersistence: u8,
    wal_level: i32,
    create_subid: u32,
    first_relfilelocator_subid: u32,
) -> (r: bool)
    ensures
        r == (relpersistence == RELPERSISTENCE_PERMANENT && (wal_level >= WAL_LEVEL_REPLICA || (
        create_subid == INVALID_SUB_TRANSACTION_ID && first_relfilelocator_subid
            == INVALID_SUB_TRANSACTION_ID))),
{
    relation_is_permanent(relpersistence) && (x_log_is_needed(wal_level) || (create_subid
        == INVALID_SUB_TRANSACTION_ID && first_relfilelocator_subid == INVALID_SUB_TRANSACTION_ID))
}

} // verus!
