//! Plans that a marshalling layer executes one effect at a time.

pub mod setup;
pub mod stackexpand;
pub mod volume;

use vstd::prelude::*;

verus! {

/// Why a plan refused what its executor reported.
#[derive(Clone, Copy, Debug, PartialEq, Eq, Structural)]
pub enum AdapterPlanError {
    /// The report is outside what the owed effect admits.
    InvalidInput,
    /// The report does not belong to the plan's state.
    InvalidTransition,
    /// A buffer cannot hold what the plan writes.
    Capacity,
}

} // verus!
