//! Configuration parsing and validation.
//!
//! There are three kinds of value here:
//!  * snippets: single configuration files, each holding a subset of the
//!    configuration entries;
//!  * inputs: the snippets merged, not yet validated;
//!  * the validated configuration of the agent.
//!
//! The inputs come in two layouts. In the first the update strategy sits
//! under `updates` ([`inputs::ConfigInput`]), in the second under
//! `finalize` ([`RunConfig`]). Both are merged and validated alike.

use crate::strategy::remote_http::remote_http_base_of;
use crate::strategy::{
    strategy_of, strategy_result_view, StrategyError, StrategyView, UpStrategy,
};
use crate::trusted::uuid_parse;
use crate::url_text::{parse_text, readable_url};
use crate::update_agent::identity::{
    identity_of, identity_result_view, node_uuid_of, Identity, IdentityError, IdentityView,
};
use vstd::prelude::*;
use vstd::string::*;

pub mod inputs;
pub mod snippets;

pub use inputs::{IdentityInput, StratHttpInput, UpdateConfig};

use inputs::{
    lemma_tables_start, lemma_tables_step, tables_hold, CincinnatiInput, ConfigInput,
    StratPeriodicConfig,
};
use snippets::{
    last_set, merged, CincinnatiSnippet, FinalizeSnippet, IdentitySnippet, MergedEntries,
    SingleSnippet, UpdateSnippet,
};

verus! {

/// Base URL of the update-graph service where none is configured.
pub open spec fn default_cincinnati_base() -> Seq<char> {
    "http://localhost:9876"@
}

/// The base URL that is parsed for a configuration: the default one where
/// none is configured.
pub open spec fn cincinnati_base_of(configured: Seq<char>) -> Seq<char> {
    if configured.len() == 0 {
        default_cincinnati_base()
    } else {
        configured
    }
}

/// Why the inputs are no valid configuration.
#[derive(Clone, Copy, Debug, PartialEq, Eq, Structural)]
pub enum ConfigError {
    /// The base URL of the update-graph service is no URL, or is too
    /// heavy a text to be read.
    InvalidCincinnatiUrl,
    /// No identity can be built.
    Identity(IdentityError),
    /// No strategy can be chosen.
    Strategy(StrategyError),
}

/// Runtime configuration for the agent.
///
/// It holds validated agent configuration.
#[derive(Debug, PartialEq, Eq)]
pub struct AgentConfig {
    pub identity: Identity,
    /// Base URL of the update-graph service, as a parsed URL writes
    /// itself.
    pub cincinnati: String,
    pub strategy: UpStrategy,
}

/// What a validated configuration says.
pub struct AgentConfigView {
    pub identity: IdentityView,
    pub cincinnati: Seq<char>,
    pub strategy: StrategyView,
}

impl View for AgentConfig {
    type V = AgentConfigView;

    open spec fn view(&self) -> AgentConfigView {
        AgentConfigView {
            identity: self.identity@,
            cincinnati: self.cincinnati@,
            strategy: self.strategy@,
        }
    }
}

/// The configuration that three validated parts make. The first part that
/// is invalid decides the error: the base URL of the update-graph service
/// before the identity, the identity before the strategy.
pub open spec fn agent_config_of(
    cincinnati: Option<Seq<char>>,
    identity: Result<IdentityView, IdentityError>,
    strategy: Result<StrategyView, StrategyError>,
) -> Result<AgentConfigView, ConfigError> {
    match cincinnati {
        None => Err(ConfigError::InvalidCincinnatiUrl),
        Some(url) => match identity {
            Err(e) => Err(ConfigError::Identity(e)),
            Ok(id) => match strategy {
                Err(e) => Err(ConfigError::Strategy(e)),
                Ok(s) => Ok(AgentConfigView { identity: id, cincinnati: url, strategy: s }),
            },
        },
    }
}

/// The configuration that merged entries stand for.
pub open spec fn validated(entries: MergedEntries) -> Result<AgentConfigView, ConfigError> {
    agent_config_of(
        readable_url(cincinnati_base_of(entries.cincinnati_base_url)),
        identity_of(
            entries.group,
            node_uuid_of(entries.node_uuid, uuid_parse(entries.node_uuid)),
            entries.throttle_permille,
        ),
        strategy_of(
            entries.strategy,
            readable_url(remote_http_base_of(entries.remote_http_base_url)),
        ),
    )
}

/// What the outcome of a validation says.
pub open spec fn agent_config_result_view(r: Result<AgentConfig, ConfigError>) -> Result<
    AgentConfigView,
    ConfigError,
> {
    match r {
        Ok(cfg) => Ok(cfg@),
        Err(e) => Err(e),
    }
}

impl AgentConfig {
    /// Validates inputs and returns a valid agent configuration.
    pub fn try_from_input(cfg: ConfigInput) -> (r: Result<Self, ConfigError>)
        ensures
            agent_config_result_view(r) == validated(cfg.entries()),
    {
        let cincinnati = if !cfg.cincinnati.base_url.as_str().is_empty() {
            parse_text(cfg.cincinnati.base_url.as_str())
        } else {
            parse_text("http://localhost:9876")
        };
        let identity = Identity::try_from_config(cfg.identity);
        let strategy = UpStrategy::try_from_config(cfg.updates);
        AgentConfig::from_parts(cincinnati, identity, strategy)
    }

    /// Puts a configuration together from its three parts as they were
    /// validated, `None` standing for a base URL that is not read as a
    /// URL.
    pub fn from_parts(
        cincinnati: Option<String>,
        identity: Result<Identity, IdentityError>,
        strategy: Result<UpStrategy, StrategyError>,
    ) -> (r: Result<Self, ConfigError>)
        ensures
            agent_config_result_view(r) == agent_config_of(
                match cincinnati {
                    Some(url) => Some(url@),
                    None => None,
                },
                identity_result_view(identity),
                strategy_result_view(strategy),
            ),
    {
        let cincinnati = match cincinnati {
            Some(url) => url,
            None => {
                return Err(ConfigError::InvalidCincinnatiUrl);
            },
        };
        let identity = match identity {
            Ok(id) => id,
            Err(e) => {
                return Err(ConfigError::Identity(e));
            },
        };
        let strategy = match strategy {
            Ok(s) => s,
            Err(e) => {
                return Err(ConfigError::Strategy(e));
            },
        };
        Ok(AgentConfig { cincinnati, identity, strategy })
    }
}

/// Runtime configuration holding environmental input, with the strategy
/// under `finalize`.
#[derive(Debug, PartialEq, Eq)]
pub struct RunConfig {
    pub cincinnati: CincinnatiConfig,
    pub finalize: FinalizeConfig,
    pub identity: IdentityConfig,
}

/// Config of the update-graph client.
#[derive(Debug, PartialEq, Eq)]
pub struct CincinnatiConfig {
    pub base_url: String,
}

/// Config of the agent's identity.
#[derive(Debug, PartialEq, Eq)]
pub struct IdentityConfig {
    pub group: String,
    pub node_uuid: String,
    pub throttle_permille: String,
}

/// Config for finalizer.
#[derive(Debug, PartialEq, Eq)]
pub struct FinalizeConfig {
    pub strategy: String,
    /// `remote_http` strategy config.
    pub remote_http: StratHttpConfig,
    /// `periodic` strategy config.
    pub periodic: StratPeriodicConfig,
}

/// Config of the `remote_http` finalizer strategy.
#[derive(Debug, PartialEq, Eq)]
pub struct StratHttpConfig {
    /// Base URL for the remote semaphore manager.
    pub base_url: String,
}

impl CincinnatiConfig {
    /// Merges the snippets of the update-graph client: for each entry the
    /// last snippet that sets it wins.
    pub fn from_snippets(snippets: Vec<CincinnatiSnippet>) -> (cfg: Self)
        ensures
            cfg.base_url@ == last_set(CincinnatiSnippet::base_urls(snippets@)),
    {
        let input = CincinnatiInput::from_snippets(snippets);
        CincinnatiConfig { base_url: input.base_url }
    }
}

impl IdentityConfig {
    /// Merges the snippets of the agent's identity: for each entry the
    /// last snippet that sets it wins.
    pub fn from_snippets(snippets: Vec<IdentitySnippet>) -> (cfg: Self)
        ensures
            cfg.group@ == last_set(IdentitySnippet::groups(snippets@)),
            cfg.node_uuid@ == last_set(IdentitySnippet::node_uuids(snippets@)),
            cfg.throttle_permille@ == last_set(IdentitySnippet::throttles(snippets@)),
    {
        let input = IdentityInput::from_snippets(snippets);
        IdentityConfig {
            group: input.group,
            node_uuid: input.node_uuid,
            throttle_permille: input.throttle_permille,
        }
    }
}

impl FinalizeConfig {
    /// Merges the snippets of the finalizer: for each entry the last
    /// snippet that sets it wins.
    pub fn from_snippets(snippets: Vec<FinalizeSnippet>) -> (cfg: Self)
        ensures
            cfg.strategy@ == last_set(UpdateSnippet::strategies(snippets@)),
            cfg.remote_http.base_url@ == last_set(
                UpdateSnippet::remote_http_base_urls(snippets@),
            ),
    {
        let input = UpdateConfig::from_snippets(snippets);
        FinalizeConfig {
            strategy: input.strategy,
            remote_http: StratHttpConfig { base_url: input.remote_http.base_url },
            periodic: input.periodic,
        }
    }
}

impl RunConfig {
    /// What this configuration says of each entry.
    pub open spec fn entries(self) -> MergedEntries {
        MergedEntries {
            cincinnati_base_url: self.cincinnati.base_url@,
            strategy: self.finalize.strategy@,
            remote_http_base_url: self.finalize.remote_http.base_url@,
            group: self.identity.group@,
            node_uuid: self.identity.node_uuid@,
            throttle_permille: self.identity.throttle_permille@,
        }
    }

    /// Merges multiple snippets into a single configuration.
    pub fn merge_snippets(snippets: Vec<SingleSnippet>) -> (cfg: Self)
        ensures
            cfg.entries() == merged(SingleSnippet::all_entries(snippets@)),
    {
        let mut cincinnatis: Vec<CincinnatiSnippet> = Vec::new();
        let mut finalizes: Vec<FinalizeSnippet> = Vec::new();
        let mut identities: Vec<IdentitySnippet> = Vec::new();
        let mut i: usize = 0;
        proof {
            lemma_tables_start(SingleSnippet::all_entries(snippets@.take(0)));
        }
        while i < snippets.len()
            invariant
                i <= snippets.len(),
                tables_hold(
                    cincinnatis@,
                    finalizes@,
                    identities@,
                    merged(SingleSnippet::all_entries(snippets@.take(i as int))),
                ),
            decreases snippets.len() - i,
        {
            proof {
                let before = SingleSnippet::all_entries(snippets@.take(i as int));
                let after = SingleSnippet::all_entries(snippets@.take(i + 1));
                assert(after =~= before.push(snippets@[i as int].entries()));
                lemma_tables_step(
                    cincinnatis@,
                    finalizes@,
                    identities@,
                    before,
                    snippets@[i as int].cincinnati,
                    snippets@[i as int].finalize,
                    snippets@[i as int].identity,
                );
            }
            match &snippets[i].cincinnati {
                Some(c) => {
                    cincinnatis.push(c.clone());
                },
                None => {},
            }
            match &snippets[i].finalize {
                Some(f) => {
                    finalizes.push(f.clone());
                },
                None => {},
            }
            match &snippets[i].identity {
                Some(id) => {
                    identities.push(id.clone());
                },
                None => {},
            }
            i += 1;
        }
        assert(snippets@.take(i as int) =~= snippets@);
        RunConfig {
            cincinnati: CincinnatiConfig::from_snippets(cincinnatis),
            finalize: FinalizeConfig::from_snippets(finalizes),
            identity: IdentityConfig::from_snippets(identities),
        }
    }

    /// The same configuration with the strategy under `updates`.
    pub fn into_input(self) -> (input: ConfigInput)
        ensures
            input.entries() == self.entries(),
    {
        ConfigInput {
            cincinnati: CincinnatiInput { base_url: self.cincinnati.base_url },
            updates: UpdateConfig {
                strategy: self.finalize.strategy,
                remote_http: StratHttpInput { base_url: self.finalize.remote_http.base_url },
                periodic: self.finalize.periodic,
            },
            identity: IdentityInput {
                group: self.identity.group,
                node_uuid: self.identity.node_uuid,
                throttle_permille: self.identity.throttle_permille,
            },
        }
    }
}

} // verus!
