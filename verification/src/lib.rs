//! A single-slot, owner-authenticated key-value mapping.
//!
//! One persistent record (an "IPCM account") holds a single string value and
//! the identity of its owner. The owner is bound when the record is created
//! and can never change; only the owner may replace the value; anyone may
//! read it. The record lives in an external store that allocates one slot
//! per record; this crate models a slot explicitly and verifies the
//! authorization-and-mutation protocol that governs it.

pub mod account;
pub mod ops;
pub mod protocol;
