//! The sequence's catalog row and its one-row data page, as plain values.
use vstd::prelude::*;

verus! {

/// Magic number in the "special area" of a sequence's buffer page.
pub const SEQ_MAGIC: u32 = 0x1717;

/// Number of fetches that are WAL-logged ahead of time, so that not every
/// `nextval` needs a WAL record. After a crash as many values can be lost.
pub const SEQ_LOG_VALS: i64 = 32;

/// Record identifier of a sequence WAL record.
pub const XLOG_SEQ_LOG: u8 = 0x00;

/// The invalid sub-transaction id.
pub const INVALID_SUB_TRANSACTION_ID: u32 = 0;

/// A row of `pg_sequence`: the sequence's parameters.
#[derive(Debug, Copy, Clone)]
pub struct FormData_pg_sequence {
    pub seqrelid: u32,
    pub seqtypid: u32,
    pub seqstart: i64,
    pub seqincrement: i64,
    pub seqmax: i64,
    pub seqmin: i64,
    pub seqcache: i64,
    pub seqcycle: bool,
}

impl Default for FormData_pg_sequence {
    /// The all-zero row.
    fn default() -> (r: Self)
        ensures
            r.seqrelid == 0,
            r.seqtypid == 0,
            r.seqstart == 0,
            r.seqincrement == 0,
            r.seqmax == 0,
            r.seqmin == 0,
            r.seqcache == 0,
            !r.seqcycle,
    {
        FormData_pg_sequence {
            seqrelid: 0,
            seqtypid: 0,
            seqstart: 0,
            seqincrement: 0,
            seqmax: 0,
            seqmin: 0,
            seqcache: 0,
            seqcycle: false,
        }
    }
}

/// The single tuple stored in a sequence relation.
#[derive(Debug, Copy, Clone)]
pub struct FormData_pg_sequence_data {
    /// The last value fetched from the sequence (or its start value when
    /// `is_called` is false).
    pub last_value: i64,
    /// How many more fetches are covered by the last WAL record.
    pub log_cnt: i64,
    /// Whether `last_value` has already been handed out.
    pub is_called: bool,
}

} // verus!
