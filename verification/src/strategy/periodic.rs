//! Strategy for fleets that do not coordinate their reboots.

use vstd::prelude::*;

verus! {

/// Strategy: the node grants itself every permission, without asking
/// anyone.
#[derive(Clone, Copy, Debug, PartialEq, Eq)]
pub struct StratPeriodic {}

impl StratPeriodic {
    /// Whether the node may go on: always.
    pub fn finalize(self) -> (ok: bool)
        ensures
            ok,
    {
        true
    }
}

} // verus!
