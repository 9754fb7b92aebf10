//! Strategy that needs no coordination.

use vstd::prelude::*;

verus! {

/// Strategy: no coordination, every question is answered with yes at once.
#[derive(Clone, Copy, Debug, PartialEq, Eq)]
pub struct StratImmediate {}

impl StratImmediate {
    /// Whether finalization is allowed: always.
    pub fn has_green_light(self) -> (ok: bool)
        ensures
            ok,
    {
        true
    }

    /// Whether steady state is acknowledged: always.
    pub fn report_steady(self) -> (ok: bool)
        ensures
            ok,
    {
        true
    }
}

} // verus!
