//! The decisions and the arithmetic behind `nextval_with_xact_lock()`: a
//! `nextval()` that also takes a transaction-level advisory lock on the value
//! it hands out, before the sequence is released.
//!
//! The server calls (buffers, WAL, catalog lookups, locks) are made by the
//! extension around this library; everything that decides what those calls
//! get and what comes back to the caller is here, with its contract.
#![allow(non_camel_case_types)]

pub mod catalog;
pub mod cache;
pub mod error;
pub mod lock;
pub mod nextval;
pub mod plan;
pub mod relation;
