//! Errors reported by the library.
use vstd::prelude::*;

verus! {

/// Errors of rkik's operations.
#[derive(Debug, Clone, PartialEq, Eq)]
pub enum RkikError {
    /// An NTS key exchange, query or validation failed.
    Nts(String),
    /// Any other failure.
    Other(String),
}

} // verus!
