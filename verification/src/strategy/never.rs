//! Strategy for nodes that are updated by hand only.

use vstd::prelude::*;

verus! {

/// Strategy: updates are never finalized by the agent itself.
#[derive(Clone, Copy, Debug, PartialEq, Eq)]
pub struct StratNever {}

impl StratNever {
    /// Whether finalization is allowed: never.
    pub fn has_green_light(self) -> (ok: bool)
        ensures
            !ok,
    {
        false
    }

    /// Whether steady state is acknowledged: never.
    pub fn report_steady(self) -> (ok: bool)
        ensures
            !ok,
    {
        false
    }
}

} // verus!
