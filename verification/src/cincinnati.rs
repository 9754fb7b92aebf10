//! Client of the update-graph service.
//!
//! The graph is fetched by the embedding program. What is asked for, and
//! which release is picked from the answer, is decided here.

use crate::decimal::{decimal_text, render_u16};
use crate::url_text::{join_text, joined_url};
use crate::update_agent::identity::{Identity, IdentityView};
use vstd::prelude::*;
use vstd::std_specs::convert::FromSpecImpl;
use vstd::string::*;

pub mod graph;
pub mod scanner;

pub use graph::{Graph, GraphView, Release, ReleaseView};
pub use scanner::CincinnatiScanner;

use graph::{release_option_view, release_views};

verus! {

/// Graph API path endpoint (v1).
pub open spec fn v1_graph_path() -> Seq<char> {
    "v1/graph"@
}

/// Throttle bucket that is reported by a node that has none configured.
pub const DEFAULT_THROTTLE_PERMILLE: u16 = 666;

/// First status that stands for success.
pub const STATUS_SUCCESS_MIN: u16 = 200;

/// Last status that stands for success.
pub const STATUS_SUCCESS_MAX: u16 = 299;

/// Why no client could be configured.
#[derive(Clone, Copy, Debug, PartialEq, Eq, Structural)]
pub enum EndpointError {
    /// The graph endpoint cannot be made from the base URL: the text is
    /// too heavy to be read, is no URL, or is a URL that nothing can be
    /// joined to.
    InvalidBaseUrl,
}

/// Main actor for interacting with the update-graph server.
#[derive(Debug, PartialEq, Eq)]
pub struct CincinnatiClient {
    /// Where the graph is fetched from.
    pub endpoint: String,
    pub identity: Identity,
}

impl Clone for CincinnatiClient {
    fn clone(&self) -> (r: Self)
        ensures
            r == *self,
    {
        CincinnatiClient { endpoint: self.endpoint.clone(), identity: self.identity.clone() }
    }
}

/// Configures the client for the service at `base_url`, which is to be a
/// URL as it writes itself.
///
/// There is a client exactly where the graph endpoint can be made from the
/// base URL.
pub fn configure(base_url: &str, identity: Identity) -> (r: Result<CincinnatiClient, EndpointError>)
    ensures
        match joined_url(base_url@, v1_graph_path()) {
            Some(endpoint) => r matches Ok(client) && client.endpoint@ == endpoint
                && client.identity == identity,
            None => r == Err::<CincinnatiClient, EndpointError>(EndpointError::InvalidBaseUrl),
        },
{
    match join_text(base_url, "v1/graph") {
        Some(endpoint) => Ok(CincinnatiClient { endpoint, identity }),
        None => Err(EndpointError::InvalidBaseUrl),
    }
}

/// Request to the client: fetch a graph of updates.
#[derive(Clone, Copy, Debug, PartialEq, Eq)]
pub struct FetchGraph {}

/// The parameters by which a node asks for its graph.
#[derive(Debug, PartialEq, Eq)]
pub struct HttpParams {
    pub current_version: String,
    pub stream: String,
    pub arch: String,
    pub platform: String,
    pub throttle_permille: String,
}

/// What the parameters of a graph request say.
pub struct HttpParamsView {
    pub current_version: Seq<char>,
    pub stream: Seq<char>,
    pub arch: Seq<char>,
    pub platform: Seq<char>,
    pub throttle_permille: Seq<char>,
}

impl View for HttpParams {
    type V = HttpParamsView;

    open spec fn view(&self) -> HttpParamsView {
        HttpParamsView {
            current_version: self.current_version@,
            stream: self.stream@,
            arch: self.arch@,
            platform: self.platform@,
            throttle_permille: self.throttle_permille@,
        }
    }
}

/// The throttle bucket that a node reports: its own, or the default one.
pub open spec fn reported_throttle(configured: Option<u16>) -> u16 {
    match configured {
        Some(level) => level,
        None => DEFAULT_THROTTLE_PERMILLE,
    }
}

/// The parameters by which a node with this identity asks for its graph.
/// The throttle bucket is written in decimal.
pub open spec fn graph_params_of(identity: IdentityView) -> HttpParamsView {
    HttpParamsView {
        current_version: identity.current_version,
        stream: identity.stream,
        arch: identity.arch,
        platform: identity.platform,
        throttle_permille: decimal_text(reported_throttle(identity.throttle_permille) as nat),
    }
}

impl From<Identity> for HttpParams {
    fn from(identity: Identity) -> (params: Self)
        ensures
            params@ == graph_params_of(identity@),
    {
        let throttle_permille = match identity.throttle_permille {
            Some(t) => render_u16(t),
            None => render_u16(DEFAULT_THROTTLE_PERMILLE),
        };
        HttpParams {
            current_version: identity.current_version,
            stream: identity.stream,
            arch: identity.arch,
            platform: identity.platform,
            throttle_permille,
        }
    }
}

/// `from` is specified by its own `ensures`, over views: two values with
/// the same texts are not told apart.
impl FromSpecImpl<Identity> for HttpParams {
    open spec fn obeys_from_spec() -> bool {
        false
    }

    open spec fn from_spec(identity: Identity) -> HttpParams {
        arbitrary()
    }
}

/// A request for the graph: a GET to the endpoint, with the parameters as
/// its query.
#[derive(Debug, PartialEq, Eq)]
pub struct GraphRequest {
    pub endpoint: String,
    pub params: HttpParams,
}

/// What came of a request for the graph.
#[derive(Debug, PartialEq, Eq)]
pub enum GraphReply {
    /// No well-formed response arrived.
    Unreachable,
    /// A response arrived. `graph` is the graph that its body holds, if it
    /// holds one.
    Response { status: u16, graph: Option<Graph> },
}

/// What a [`GraphReply`] says.
pub enum GraphReplyView {
    Unreachable,
    Response { status: u16, graph: Option<GraphView> },
}

impl View for GraphReply {
    type V = GraphReplyView;

    open spec fn view(&self) -> GraphReplyView {
        match self {
            GraphReply::Unreachable => GraphReplyView::Unreachable,
            GraphReply::Response { status, graph } => GraphReplyView::Response {
                status: *status,
                graph: match graph {
                    Some(g) => Some(g@),
                    None => None,
                },
            },
        }
    }
}

/// Why no decision on the next release could be made.
#[derive(Clone, Copy, Debug, PartialEq, Eq, Structural)]
pub enum FetchError {
    /// No well-formed response arrived.
    Unreachable,
    /// The response has a status other than success.
    Status(u16),
    /// The body of the response holds no graph.
    Malformed,
    /// The graph does not hold the version that the node runs.
    VersionNotFound,
}

/// The release to update to from `current`: the first among those that the
/// graph leads to from it. None where the graph leads nowhere from it, and
/// an error where the graph does not hold it.
pub open spec fn select_update(graph: GraphView, current: Seq<char>) -> Result<
    Option<ReleaseView>,
    FetchError,
> {
    match graph.find_by_version(current) {
        None => Err(FetchError::VersionNotFound),
        Some(id) => {
            let next = graph.next_releases(id);
            if next.len() == 0 {
                Ok(None)
            } else {
                Ok(Some(next[0]))
            }
        },
    }
}

/// What a reply to a graph request yields for a node that runs `current`.
/// Only a response with a status of success and a graph in its body is
/// looked into.
pub open spec fn next_update(reply: GraphReplyView, current: Seq<char>) -> Result<
    Option<ReleaseView>,
    FetchError,
> {
    match reply {
        GraphReplyView::Unreachable => Err(FetchError::Unreachable),
        GraphReplyView::Response { status, graph } => {
            if !(STATUS_SUCCESS_MIN <= status <= STATUS_SUCCESS_MAX) {
                Err(FetchError::Status(status))
            } else {
                match graph {
                    None => Err(FetchError::Malformed),
                    Some(g) => select_update(g, current),
                }
            }
        },
    }
}

/// What the outcome of a fetch says.
pub open spec fn fetched_view(r: Result<Option<Release>, FetchError>) -> Result<
    Option<ReleaseView>,
    FetchError,
> {
    match r {
        Ok(release) => Ok(release_option_view(release)),
        Err(e) => Err(e),
    }
}

impl CincinnatiClient {
    /// What to ask the remote server in order to learn of available
    /// updates.
    pub fn handle(&self, _msg: FetchGraph) -> (request: GraphRequest)
        ensures
            request.endpoint@ == self.endpoint@,
            request.params@ == graph_params_of(self.identity@),
    {
        let endpoint = self.endpoint.clone();
        let identity = self.identity.clone();
        GraphRequest { endpoint, params: HttpParams::from(identity) }
    }
}

/// Picks the next available release update out of the reply to a graph
/// request.
///
/// All updates that the graph reaches from the current version are
/// looked up, and the first of them is picked.
pub fn fetch_cincinnati_next(reply: GraphReply, params: &HttpParams) -> (r: Result<
    Option<Release>,
    FetchError,
>)
    ensures
        fetched_view(r) == next_update(reply@, params.current_version@),
{
    // Ensure a response arrived and is positive.
    let graph = match reply {
        GraphReply::Unreachable => {
            return Err(FetchError::Unreachable);
        },
        GraphReply::Response { status, graph } => {
            if status < STATUS_SUCCESS_MIN || status > STATUS_SUCCESS_MAX {
                return Err(FetchError::Status(status));
            }
            match graph {
                Some(g) => g,
                None => {
                    return Err(FetchError::Malformed);
                },
            }
        },
    };
    pick_next(&graph, params.current_version.as_str())
}

/// Picks the release to update to from `current` among those of a graph:
/// the first that the graph leads to from it.
pub fn pick_next(graph: &Graph, current: &str) -> (r: Result<Option<Release>, FetchError>)
    ensures
        fetched_view(r) == select_update(graph@, current@),
{
    // Extract all available updates reachable from current release.
    let release_id = match graph.find_by_version(current) {
        Some(id) => id,
        None => {
            return Err(FetchError::VersionNotFound);
        },
    };
    let mut next_releases = graph.next_releases(release_id);
    // Pick up the first next release available, if any.
    if next_releases.len() == 0 {
        Ok(None)
    } else {
        let ghost all = next_releases@;
        let first = next_releases.swap_remove(0);
        assert(first@ == release_views(all)[0]);
        Ok(Some(first))
    }
}

} // verus!
