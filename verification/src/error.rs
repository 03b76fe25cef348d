//! The ways in which a registry operation can fail.

use vstd::prelude::*;

verus! {

/// Error of a registry operation.
#[derive(Clone, Copy, Debug, PartialEq, Eq, Structural)]
pub enum RegistryError {
    /// The code names no live session.
    SessionNotFound,
    /// No unused code was found within the draws allowed.
    CodesExhausted,
}

} // verus!
