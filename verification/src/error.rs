//! What can go wrong while a position is computed.

use vstd::prelude::*;

verus! {

/// The two failures of a position query.
#[derive(Clone, Copy, Debug, PartialEq, Eq, Structural)]
pub enum EphemerisError {
    /// The time source gave no instant that a day count can hold.
    ClockUnavailable,
    /// The iteration of Kepler's equation used up its allowance of steps.
    SolverDidNotConverge,
}

} // verus!
