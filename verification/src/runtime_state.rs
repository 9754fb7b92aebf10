//! Runtime state.
//!
//! This module turns external configuration into valid runtime state, by
//! validating what the configuration says.

use crate::config::{
    validated, AgentConfig, AgentConfigView, ConfigError, RunConfig,
};
use crate::strategy::FinStrategy;
use crate::update_agent::identity::Identity;
use vstd::prelude::*;

verus! {

/// Runtime state for the agent.
///
/// It holds agent parameters, validated from configs.
#[derive(Debug, PartialEq, Eq)]
pub struct RunState {
    pub identity: Identity,
    /// Base URL of the update-graph service, as a parsed URL writes
    /// itself.
    pub cincinnati: String,
    pub strategy: FinStrategy,
}

impl View for RunState {
    type V = AgentConfigView;

    open spec fn view(&self) -> AgentConfigView {
        AgentConfigView {
            identity: self.identity@,
            cincinnati: self.cincinnati@,
            strategy: self.strategy@,
        }
    }
}

/// What the outcome of a validation says.
pub open spec fn run_state_result_view(r: Result<RunState, ConfigError>) -> Result<
    AgentConfigView,
    ConfigError,
> {
    match r {
        Ok(state) => Ok(state@),
        Err(e) => Err(e),
    }
}

impl RunState {
    /// Validates config and returns a valid agent state.
    pub fn try_from_config(cfg: RunConfig) -> (r: Result<Self, ConfigError>)
        ensures
            run_state_result_view(r) == validated(cfg.entries()),
    {
        match AgentConfig::try_from_input(cfg.into_input()) {
            Ok(valid) => Ok(
                RunState {
                    identity: valid.identity,
                    cincinnati: valid.cincinnati,
                    strategy: valid.strategy,
                },
            ),
            Err(e) => Err(e),
        }
    }
}

} // verus!
