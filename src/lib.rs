//! Exact time model, verbosity levels, errors and the decisions of a decode
//! session over a native audio decoding engine.

pub mod error;
pub mod log;
pub mod rational;
pub mod session;
pub mod timestamp;
