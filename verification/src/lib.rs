//! Decoder for fixed-layout transmission-control diagnostic records.
//!
//! A diagnostic session returns, for each one-byte local identifier, one flat
//! byte buffer whose bytes are a sequence of packed little-endian sub-fields.
//! This crate turns such a buffer into a strongly typed record, flags
//! all-ones sentinel fields as unavailable, converts raw field codes to
//! engineering units, and projects decoded records into chart groups for a
//! rendering layer. Everything here is pure: no I/O, no state, one result per
//! input.

pub mod bytes;
pub mod chart;
pub mod records;
pub mod registry;
pub mod sentinel;
pub mod units;
