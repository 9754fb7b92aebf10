//! Update and reboot strategies.
//!
//! A strategy answers two questions: whether the node may report steady
//! state, and whether it has a green light to finalize an update. Three of
//! the strategies answer by themselves. The fourth asks a remote lock
//! manager: it says what to send, and what the reply means.

use crate::config::inputs::{StratHttpInput, UpdateConfig};
use crate::url_text::{joined_url, readable_url};
use crate::update_agent::identity::{Identity, IdentityView};
use vstd::prelude::*;
use vstd::string::*;

pub mod immediate;
pub mod never;
pub mod periodic;
pub mod remote_http;

pub use immediate::StratImmediate;
pub use never::StratNever;
pub use periodic::StratPeriodic;
pub use remote_http::{ManagerReply, ManagerRequest, ManagerRequestView, StratRemoteHTTP};

use remote_http::{
    lock_params_of, lock_v1_pre_reboot_path, lock_v1_steady_state_path, manager_request_of,
    remote_http_base_of, HttpParams,
};

verus! {

/// Why no strategy could be made of the configuration.
#[derive(Clone, Copy, Debug, PartialEq, Eq, Structural)]
pub enum StrategyError {
    /// The configured name is that of no strategy.
    Unsupported,
    /// The base URL of the lock manager is no URL, or is too heavy a text
    /// to be read.
    InvalidBaseUrl,
}

/// The strategy by which a node decides when to go on.
#[derive(Debug, PartialEq, Eq)]
pub enum UpStrategy {
    Http(StratRemoteHTTP),
    Immediate(StratImmediate),
    Never(StratNever),
    Periodic(StratPeriodic),
}

/// The strategy under the name it has where finalization is run apart from
/// the agent.
pub type FinStrategy = UpStrategy;

/// Which strategy it is, and for the remote one the base URL of its lock
/// manager.
pub enum StrategyView {
    Http(Seq<char>),
    Immediate,
    Never,
    Periodic,
}

impl View for UpStrategy {
    type V = StrategyView;

    open spec fn view(&self) -> StrategyView {
        match self {
            UpStrategy::Http(h) => StrategyView::Http(h.base_url@),
            UpStrategy::Immediate(_) => StrategyView::Immediate,
            UpStrategy::Never(_) => StrategyView::Never,
            UpStrategy::Periodic(_) => StrategyView::Periodic,
        }
    }
}

impl Clone for UpStrategy {
    fn clone(&self) -> (r: Self)
        ensures
            r == *self,
    {
        match self {
            UpStrategy::Http(h) => UpStrategy::Http(h.clone()),
            UpStrategy::Immediate(i) => UpStrategy::Immediate(*i),
            UpStrategy::Never(n) => UpStrategy::Never(*n),
            UpStrategy::Periodic(p) => UpStrategy::Periodic(*p),
        }
    }
}

impl Default for UpStrategy {
    fn default() -> (r: Self)
        ensures
            r@ == StrategyView::Immediate,
    {
        let immediate = StratImmediate {  };
        UpStrategy::Immediate(immediate)
    }
}

/// What a strategy says when it is asked: its answer, or the request whose
/// reply will tell.
#[derive(Debug, PartialEq, Eq)]
pub enum Query {
    /// The strategy answers by itself.
    Answered(bool),
    /// The lock manager is to be asked.
    Ask(ManagerRequest),
    /// The lock manager would have to be asked, but no request can be
    /// made for it.
    Failed,
}

/// What a [`Query`] says.
pub enum QueryView {
    Answered(bool),
    Ask(ManagerRequestView),
    Failed,
}

impl View for Query {
    type V = QueryView;

    open spec fn view(&self) -> QueryView {
        match self {
            Query::Answered(ok) => QueryView::Answered(*ok),
            Query::Ask(request) => QueryView::Ask(request@),
            Query::Failed => QueryView::Failed,
        }
    }
}

/// The query of the remote strategy, given the request it makes, if it
/// can make one.
pub open spec fn remote_query(request: Option<ManagerRequestView>) -> QueryView {
    match request {
        Some(r) => QueryView::Ask(r),
        None => QueryView::Failed,
    }
}

/// Whether a node with this strategy has a green light to finalize.
pub open spec fn green_light_query(strategy: StrategyView, identity: IdentityView) -> QueryView {
    match strategy {
        StrategyView::Http(base_url) => remote_query(
            manager_request_of(
                joined_url(base_url, lock_v1_pre_reboot_path()),
                lock_params_of(identity),
            ),
        ),
        StrategyView::Immediate => QueryView::Answered(true),
        StrategyView::Never => QueryView::Answered(false),
        StrategyView::Periodic => QueryView::Answered(true),
    }
}

/// Whether a node with this strategy may report steady state.
pub open spec fn steady_query(strategy: StrategyView, identity: IdentityView) -> QueryView {
    match strategy {
        StrategyView::Http(base_url) => remote_query(
            manager_request_of(
                joined_url(base_url, lock_v1_steady_state_path()),
                lock_params_of(identity),
            ),
        ),
        StrategyView::Immediate => QueryView::Answered(true),
        StrategyView::Never => QueryView::Answered(false),
        StrategyView::Periodic => QueryView::Answered(true),
    }
}

/// The strategy that a name stands for. `remote_http` is what the base URL
/// of the lock manager yields as it was read, `None` standing for a base
/// URL that is not read as a URL. No name at all stands for the
/// immediate strategy.
pub open spec fn strategy_of(name: Seq<char>, remote_http: Option<Seq<char>>) -> Result<
    StrategyView,
    StrategyError,
> {
    if name == "immediate"@ {
        Ok(StrategyView::Immediate)
    } else if name == "never"@ {
        Ok(StrategyView::Never)
    } else if name == "periodic"@ {
        Ok(StrategyView::Periodic)
    } else if name == "remote_http"@ {
        match remote_http {
            Some(base_url) => Ok(StrategyView::Http(base_url)),
            None => Err(StrategyError::InvalidBaseUrl),
        }
    } else if name.len() == 0 {
        Ok(StrategyView::Immediate)
    } else {
        Err(StrategyError::Unsupported)
    }
}

/// What the outcome of choosing a strategy says.
pub open spec fn strategy_result_view(r: Result<UpStrategy, StrategyError>) -> Result<
    StrategyView,
    StrategyError,
> {
    match r {
        Ok(strategy) => Ok(strategy@),
        Err(e) => Err(e),
    }
}

impl UpStrategy {
    /// Chooses the strategy that the configuration names.
    pub fn try_from_config(cfg: UpdateConfig) -> (r: Result<Self, StrategyError>)
        ensures
            strategy_result_view(r) == strategy_of(
                cfg.strategy@,
                readable_url(remote_http_base_of(cfg.remote_http.base_url@)),
            ),
    {
        if cfg.strategy == String::from_str("immediate") {
            Ok(UpStrategy::Immediate(StratImmediate {  }))
        } else if cfg.strategy == String::from_str("never") {
            Ok(UpStrategy::Never(StratNever {  }))
        } else if cfg.strategy == String::from_str("periodic") {
            UpStrategy::try_periodic()
        } else if cfg.strategy == String::from_str("remote_http") {
            UpStrategy::try_remote_http(cfg.remote_http)
        } else if cfg.strategy.as_str().is_empty() {
            Ok(UpStrategy::default())
        } else {
            Err(StrategyError::Unsupported)
        }
    }

    /// Checks if finalization is allowed at this time.
    pub fn has_green_light(self, identity: Identity) -> (query: Query)
        ensures
            query@ == green_light_query(self@, identity@),
    {
        match self {
            UpStrategy::Http(h) => ask(h.has_green_light(HttpParams::from(identity))),
            UpStrategy::Immediate(i) => Query::Answered(i.has_green_light()),
            UpStrategy::Never(n) => Query::Answered(n.has_green_light()),
            UpStrategy::Periodic(p) => Query::Answered(p.finalize()),
        }
    }

    /// Checks if this agent is allowed to check for updates at this time.
    pub fn report_steady(self, identity: Identity) -> (query: Query)
        ensures
            query@ == steady_query(self@, identity@),
    {
        match self {
            UpStrategy::Http(h) => ask(h.report_steady(HttpParams::from(identity))),
            UpStrategy::Immediate(i) => Query::Answered(i.report_steady()),
            UpStrategy::Never(n) => Query::Answered(n.report_steady()),
            UpStrategy::Periodic(p) => Query::Answered(p.finalize()),
        }
    }

    /// The periodic strategy.
    pub fn try_periodic() -> (r: Result<Self, StrategyError>)
        ensures
            strategy_result_view(r) == Ok::<StrategyView, StrategyError>(StrategyView::Periodic),
    {
        let periodic = StratPeriodic {  };
        Ok(UpStrategy::Periodic(periodic))
    }

    /// The remote strategy for the lock manager that is configured.
    pub fn try_remote_http(cfg: StratHttpInput) -> (r: Result<Self, StrategyError>)
        ensures
            strategy_result_view(r) == match readable_url(remote_http_base_of(cfg.base_url@)) {
                Some(base_url) => Ok(StrategyView::Http(base_url)),
                None => Err(StrategyError::InvalidBaseUrl),
            },
    {
        match StratRemoteHTTP::parse(cfg) {
            Ok(remote_http) => Ok(UpStrategy::Http(remote_http)),
            Err(e) => Err(e),
        }
    }
}

/// The query that hands on a request to the lock manager, if there is one.
fn ask(request: Option<ManagerRequest>) -> (query: Query)
    ensures
        query@ == remote_query(remote_http::manager_request_option_view(request)),
{
    match request {
        Some(r) => Query::Ask(r),
        None => Query::Failed,
    }
}

} // verus!
