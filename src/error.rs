//! The ways in which opening a decode session fails.
use vstd::prelude::*;

verus! {

/// Why a session could not be opened.
#[derive(Clone, Copy, Debug, PartialEq, Eq, Structural)]
pub enum Error {
    /// The path holds a zero byte and cannot be handed to the engine.
    PathEncoding,
    /// The engine refused to open the resource, with this status code.
    Engine(i32),
}

pub type Result<T> = core::result::Result<T, Error>;

} // verus!
