//! The errors of the engine.

use vstd::prelude::*;

verus! {

/// The ways in which a command can fail.
#[derive(Clone, Copy, Debug, PartialEq, Eq, Structural)]
pub enum EngineError {
    /// The secret is empty, or longer than the hash function can take.
    InvalidSecret,
    /// The clock source could not give the time since the Unix epoch.
    ClockUnavailable,
}

} // verus!
