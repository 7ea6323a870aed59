//! The errors that a call of `nextval_with_xact_lock()` can raise.
use vstd::prelude::*;

verus! {

/// Why a value could not be handed out.
#[derive(Debug, Clone, Copy, PartialEq, Eq, Structural)]
pub enum SequenceError {
    /// An ascending sequence that does not cycle has reached its maximum,
    /// which is carried.
    ReachedMaximum(i64),
    /// A descending sequence that does not cycle has reached its minimum,
    /// which is carried.
    ReachedMinimum(i64),
    /// The relation is not a sequence.
    WrongObjectType,
    /// The user has neither USAGE nor UPDATE on the sequence.
    PermissionDenied,
    /// The sequence's page does not carry the sequence magic number; the
    /// number found is carried.
    BadMagic(u32),
}

} // verus!
