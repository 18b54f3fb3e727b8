//! Response construction for the proofs API: every entry point of the API turns
//! the outcome of an operation of the sector builder (or of a proof check) into
//! a response record with a status code, an optional error message and the
//! fields that the caller reads back.

pub mod responses;
pub mod metadata;
pub mod api;
pub mod laws;
