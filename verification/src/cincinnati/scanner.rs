//! Scanner of the update-graph service, for the arrangement in which the
//! update backend is poked as soon as an update is seen.

use crate::cincinnati::graph::{release_option_view, Release, ReleaseView};
use crate::cincinnati::{
    graph_params_of, v1_graph_path, EndpointError, FetchGraph, GraphRequest, HttpParams,
};
use crate::rpm_ostree::StageUpdate;
use crate::url_text::{join_text, joined_url};
use crate::update_agent::identity::Identity;
use vstd::prelude::*;

verus! {

/// Seconds between two fetches of the graph.
pub const FETCH_INTERVAL_SECS: u64 = 15;

/// Main actor for scanning the update-graph server.
#[derive(Debug, PartialEq, Eq)]
pub struct CincinnatiScanner {
    /// Where the graph is fetched from.
    pub endpoint: String,
    /// Seconds between two fetches.
    pub fetch_interval: u64,
    /// Whether the graph is fetched as soon as the scanner starts.
    pub fetch_on_start: bool,
    pub identity: Identity,
}

impl Clone for CincinnatiScanner {
    fn clone(&self) -> (r: Self)
        ensures
            r == *self,
    {
        CincinnatiScanner {
            endpoint: self.endpoint.clone(),
            fetch_interval: self.fetch_interval,
            fetch_on_start: self.fetch_on_start,
            identity: self.identity.clone(),
        }
    }
}

/// Configures the scanner for the service at `base_url`, which is to be a
/// URL as it writes itself.
///
/// There is a scanner exactly where the graph endpoint can be made from
/// the base URL. It fetches as it starts, and every fifteen seconds from
/// then on.
pub fn configure(base_url: &str, identity: Identity) -> (r: Result<
    CincinnatiScanner,
    EndpointError,
>)
    ensures
        match joined_url(base_url@, v1_graph_path()) {
            Some(endpoint) => r matches Ok(scanner) && scanner.endpoint@ == endpoint
                && scanner.identity == identity && scanner.fetch_on_start
                && scanner.fetch_interval == FETCH_INTERVAL_SECS,
            None => r == Err::<CincinnatiScanner, EndpointError>(EndpointError::InvalidBaseUrl),
        },
{
    match join_text(base_url, "v1/graph") {
        Some(endpoint) => Ok(
            CincinnatiScanner {
                endpoint,
                fetch_interval: FETCH_INTERVAL_SECS,
                fetch_on_start: true,
                identity,
            },
        ),
        None => Err(EndpointError::InvalidBaseUrl),
    }
}

/// What an optional request to stage says.
pub open spec fn stage_option_view(msg: Option<StageUpdate>) -> Option<ReleaseView> {
    match msg {
        Some(m) => Some(m.release@),
        None => None,
    }
}

impl CincinnatiScanner {
    /// Whether a fetch is due at once when the scanner starts. Further
    /// fetches are due every `fetch_interval` seconds.
    pub fn started(&self) -> (fetch_now: bool)
        ensures
            fetch_now == self.fetch_on_start,
    {
        self.fetch_on_start
    }

    /// What to ask the remote server in order to learn of available
    /// updates.
    pub fn handle(&self, _msg: FetchGraph) -> (request: GraphRequest)
        ensures
            request.endpoint@ == self.endpoint@,
            request.params@ == graph_params_of(self.identity@),
    {
        let endpoint = self.endpoint.clone();
        let identity = self.identity.clone();
        GraphRequest { endpoint, params: HttpParams::from(identity) }
    }

    /// What the update backend is asked after a fetch: to stage the
    /// release that was picked, if one was.
    pub fn notify_update(next: Option<Release>) -> (msg: Option<StageUpdate>)
        ensures
            stage_option_view(msg) == release_option_view(next),
    {
        match next {
            Some(release) => Some(StageUpdate { release }),
            None => None,
        }
    }
}

} // verus!
