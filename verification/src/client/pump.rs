//! What one step of a part of the client achieved.

use vstd::prelude::*;

verus! {

/// The outcome of one step.
#[derive(Debug, Clone, Copy, PartialEq, Eq, Structural)]
pub enum Pump {
    /// Nothing can be done until something arrives from outside.
    Pending,
    /// The state has advanced; step again.
    Progress,
}

} // verus!
