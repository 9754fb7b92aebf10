//! Update agent state-machine.

use crate::strategy::UpStrategy;
use vstd::prelude::*;

pub mod agent;
pub mod identity;
pub mod laws;

pub use agent::{UpdateAgent, UpdateAgentState};
pub use identity::Identity;

use agent::{AgentStateView, Awaiting};

verus! {

/// Seconds between two ticks of the agent.
pub const REFRESH_PERIOD_SECS: u64 = 3;

/// Configures the agent: it is in its start state, and no tick is under
/// way.
pub fn configure(strategy: UpStrategy, identity: Identity) -> (actor: UpdateAgent)
    ensures
        actor.identity == identity,
        actor.strategy == strategy,
        actor.refresh_period == REFRESH_PERIOD_SECS,
        actor@.state == AgentStateView::StartState,
        actor.awaiting == Awaiting::Nothing,
{
    UpdateAgent {
        identity,
        refresh_period: REFRESH_PERIOD_SECS,
        state: UpdateAgentState::StartState,
        strategy,
        awaiting: Awaiting::Nothing,
    }
}

} // verus!
