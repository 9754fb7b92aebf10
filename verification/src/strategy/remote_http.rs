//! Strategy that asks a remote lock manager over HTTP.
//!
//! The strategy says where to post and what; the embedding program posts,
//! and the strategy says what the reply means.

use crate::config::inputs::StratHttpInput;
use crate::strategy::StrategyError;
use crate::trusted::{hyphenated, uuid_text};
use crate::url_text::{join_text, joined_url, parse_text, readable_url};
use crate::update_agent::identity::{Identity, IdentityView};
use vstd::prelude::*;
use vstd::std_specs::convert::FromSpecImpl;
use vstd::string::*;

verus! {

/// Default base URL to the lock manager.
pub open spec fn default_remote_http_base() -> Seq<char> {
    "http://localhost:9999"@
}

/// Lock manager pre-reboot endpoint (v1).
pub open spec fn lock_v1_pre_reboot_path() -> Seq<char> {
    "v1/pre-reboot"@
}

/// Lock manager steady-state endpoint (v1).
pub open spec fn lock_v1_steady_state_path() -> Seq<char> {
    "v1/steady-state"@
}

/// The status by which the lock manager grants what was asked.
pub const STATUS_OK: u16 = 200;

/// Strategy: remote HTTP lock manager.
#[derive(Debug, PartialEq, Eq)]
pub struct StratRemoteHTTP {
    /// Base URL to the lock manager, as a parsed URL writes itself.
    pub base_url: String,
}

impl Clone for StratRemoteHTTP {
    fn clone(&self) -> (r: Self)
        ensures
            r == *self,
    {
        StratRemoteHTTP { base_url: self.base_url.clone() }
    }
}

/// Client parameters for requests to the lock manager.
#[derive(Debug, PartialEq, Eq)]
pub struct ClientParams {
    /// Current OS version.
    pub current_version: String,
    /// Unique node identifier.
    pub node_uuid: String,
    /// Reboot group.
    pub group: String,
}

/// Content for requests to the lock manager.
#[derive(Debug, PartialEq, Eq)]
pub struct HttpParams {
    pub client_params: ClientParams,
}

/// What the content of a request to the lock manager says.
pub struct HttpParamsView {
    pub current_version: Seq<char>,
    pub node_uuid: Seq<char>,
    pub group: Seq<char>,
}

impl View for HttpParams {
    type V = HttpParamsView;

    open spec fn view(&self) -> HttpParamsView {
        HttpParamsView {
            current_version: self.client_params.current_version@,
            node_uuid: self.client_params.node_uuid@,
            group: self.client_params.group@,
        }
    }
}

/// The content by which a node introduces itself to the lock manager: its
/// version and group, and its id in hyphenated form.
pub open spec fn lock_params_of(identity: IdentityView) -> HttpParamsView {
    HttpParamsView {
        current_version: identity.current_version,
        node_uuid: hyphenated(identity.node_uuid),
        group: identity.group,
    }
}

impl From<Identity> for HttpParams {
    fn from(identity: Identity) -> (params: Self)
        ensures
            params@ == lock_params_of(identity@),
    {
        let client_params = ClientParams {
            node_uuid: uuid_text(&identity.node_uuid),
            current_version: identity.current_version,
            group: identity.group,
        };
        HttpParams { client_params }
    }
}

/// `from` is specified by its own `ensures`, over views: two values with
/// the same texts are not told apart.
impl FromSpecImpl<Identity> for HttpParams {
    open spec fn obeys_from_spec() -> bool {
        false
    }

    open spec fn from_spec(identity: Identity) -> HttpParams {
        arbitrary()
    }
}

/// A request to the lock manager: the content is to be sent as the JSON
/// body of a POST to the endpoint.
#[derive(Debug, PartialEq, Eq)]
pub struct ManagerRequest {
    pub endpoint: String,
    pub params: HttpParams,
}

/// What a request to the lock manager says.
pub struct ManagerRequestView {
    pub endpoint: Seq<char>,
    pub params: HttpParamsView,
}

impl View for ManagerRequest {
    type V = ManagerRequestView;

    open spec fn view(&self) -> ManagerRequestView {
        ManagerRequestView { endpoint: self.endpoint@, params: self.params@ }
    }
}

/// What came of a request to the lock manager.
#[derive(Clone, Copy, Debug, PartialEq, Eq, Structural)]
pub enum ManagerReply {
    /// No well-formed response arrived.
    Unreachable,
    /// A response arrived, with this status.
    Status(u16),
}

/// The request that sends `params` to an endpoint of the manager, given
/// the endpoint that its base URL and the path yield when joined: none
/// where they do not join.
pub open spec fn manager_request_of(endpoint: Option<Seq<char>>, params: HttpParamsView) -> Option<
    ManagerRequestView,
> {
    match endpoint {
        Some(url) => Some(ManagerRequestView { endpoint: url, params }),
        None => None,
    }
}

/// What an optional request says.
pub open spec fn manager_request_option_view(request: Option<ManagerRequest>) -> Option<
    ManagerRequestView,
> {
    match request {
        Some(r) => Some(r@),
        None => None,
    }
}

/// The base URL that is parsed for a configuration: the default one where
/// none is configured.
pub open spec fn remote_http_base_of(configured: Seq<char>) -> Seq<char> {
    if configured.len() == 0 {
        default_remote_http_base()
    } else {
        configured
    }
}

/// What the outcome of reading the strategy's configuration says.
pub open spec fn remote_http_result_view(r: Result<StratRemoteHTTP, StrategyError>) -> Result<
    Seq<char>,
    StrategyError,
> {
    match r {
        Ok(remote) => Ok(remote.base_url@),
        Err(e) => Err(e),
    }
}

/// The strategy for a base URL as it was read, `None` standing for one
/// that is not read as a URL.
pub open spec fn remote_http_of(parsed: Option<Seq<char>>) -> Result<Seq<char>, StrategyError> {
    match parsed {
        Some(url) => Ok(url),
        None => Err(StrategyError::InvalidBaseUrl),
    }
}

impl StratRemoteHTTP {
    /// Reads the strategy's configuration: the base URL of the lock
    /// manager, or the default one where none is configured.
    ///
    /// A text that is too heavy to be read is refused like one that is no
    /// URL.
    pub fn parse(cfg: StratHttpInput) -> (r: Result<Self, StrategyError>)
        ensures
            remote_http_result_view(r) == remote_http_of(
                readable_url(remote_http_base_of(cfg.base_url@)),
            ),
    {
        let base_url = if cfg.base_url.as_str().is_empty() {
            String::from_str("http://localhost:9999")
        } else {
            cfg.base_url
        };
        StratRemoteHTTP::with_base_url(parse_text(base_url.as_str()))
    }

    /// The strategy for a base URL as it was read, `None` standing for
    /// one that is not read as a URL.
    pub fn with_base_url(parsed: Option<String>) -> (r: Result<Self, StrategyError>)
        ensures
            remote_http_result_view(r) == remote_http_of(
                match parsed {
                    Some(url) => Some(url@),
                    None => None,
                },
            ),
    {
        match parsed {
            Some(base_url) => Ok(StratRemoteHTTP { base_url }),
            None => Err(StrategyError::InvalidBaseUrl),
        }
    }

    /// The request that asks whether finalization is allowed.
    ///
    /// A status of 200 in reply is the green light to finalize the update.
    /// There is no request where the endpoint cannot be made from the
    /// base URL.
    pub fn has_green_light(self, params: HttpParams) -> (request: Option<ManagerRequest>)
        ensures
            manager_request_option_view(request) == manager_request_of(
                joined_url(self.base_url@, lock_v1_pre_reboot_path()),
                params@,
            ),
    {
        self.post_to_manager("v1/pre-reboot", params)
    }

    /// The request that reports steady state.
    ///
    /// A status of 200 in reply confirms that the node reached steady
    /// state, and that it holds no reboot slot any more. There is no
    /// request where the endpoint cannot be made from the base URL.
    pub fn report_steady(self, params: HttpParams) -> (request: Option<ManagerRequest>)
        ensures
            manager_request_option_view(request) == manager_request_of(
                joined_url(self.base_url@, lock_v1_steady_state_path()),
                params@,
            ),
    {
        self.post_to_manager("v1/steady-state", params)
    }

    /// The request to one endpoint of the manager. There is none where
    /// the base URL or the path is too heavy a text to be read, where the
    /// base URL is a `file` URL whose path ends in a drive letter, or
    /// where the two do not join.
    pub fn post_to_manager(self, path: &'static str, params: HttpParams) -> (request: Option<
        ManagerRequest,
    >)
        ensures
            manager_request_option_view(request) == manager_request_of(
                joined_url(self.base_url@, path@),
                params@,
            ),
    {
        match join_text(self.base_url.as_str(), path) {
            Some(endpoint) => Some(ManagerRequest { endpoint, params }),
            None => None,
        }
    }

    /// What a reply of the manager means: a status of 200 is the only yes.
    /// Any other status, and no response at all, is a no.
    pub fn is_positive(reply: ManagerReply) -> (ok: bool)
        ensures
            ok == (reply == ManagerReply::Status(STATUS_OK)),
    {
        match reply {
            ManagerReply::Status(code) => code == STATUS_OK,
            ManagerReply::Unreachable => false,
        }
    }
}

} // verus!
