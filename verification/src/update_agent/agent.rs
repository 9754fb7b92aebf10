//! Update agent.
//!
//! The agent is a state machine that is moved by ticks. On a tick it does
//! the one thing that its state calls for. Where that thing is a call to a
//! collaborator, the tick hands out a request and the agent waits; the
//! reply is handed to [`UpdateAgent::resume`], which moves the state or
//! leaves it, and may hand out one more request. A tick that arrives
//! while the agent waits is dropped.
//!
//! The step of each state can also be taken by itself. It does what the
//! tick does in that state, and nothing in any other.

use crate::cincinnati::graph::{release_option_view, Release, ReleaseView};
use crate::cincinnati::FetchGraph;
use crate::rpm_ostree::{CheckUpdateTxn, FinalizeUpdate, StageUpdate};
use crate::strategy::remote_http::{ManagerReply, STATUS_OK};
use crate::strategy::{
    green_light_query, steady_query, ManagerRequest, ManagerRequestView, Query, QueryView,
    StratRemoteHTTP, StrategyView, UpStrategy,
};
use crate::update_agent::identity::{Identity, IdentityView};
use vstd::prelude::*;

verus! {

/// Where the agent stands in the life of an update.
#[derive(Debug, PartialEq, Eq)]
pub enum UpdateAgentState {
    /// Initial state upon actor start.
    StartState,
    /// Actor has been successfully initialized.
    Initialization,
    /// Actor is checking and waiting for updates.
    Steady,
    /// Update found.
    UpdateFound(Release),
    /// Update transaction in progress.
    UpdateInProgress(Release),
    /// Update staged.
    UpdateStaged(Release),
    /// Finalizing transaction in progress.
    UpdateFinalizing(Release),
}

/// What an [`UpdateAgentState`] says.
pub enum AgentStateView {
    StartState,
    Initialization,
    Steady,
    UpdateFound(ReleaseView),
    UpdateInProgress(ReleaseView),
    UpdateStaged(ReleaseView),
    UpdateFinalizing(ReleaseView),
}

impl View for UpdateAgentState {
    type V = AgentStateView;

    open spec fn view(&self) -> AgentStateView {
        match self {
            UpdateAgentState::StartState => AgentStateView::StartState,
            UpdateAgentState::Initialization => AgentStateView::Initialization,
            UpdateAgentState::Steady => AgentStateView::Steady,
            UpdateAgentState::UpdateFound(r) => AgentStateView::UpdateFound(r@),
            UpdateAgentState::UpdateInProgress(r) => AgentStateView::UpdateInProgress(r@),
            UpdateAgentState::UpdateStaged(r) => AgentStateView::UpdateStaged(r@),
            UpdateAgentState::UpdateFinalizing(r) => AgentStateView::UpdateFinalizing(r@),
        }
    }
}

impl Clone for UpdateAgentState {
    fn clone(&self) -> (r: Self)
        ensures
            r == *self,
    {
        match self {
            UpdateAgentState::StartState => UpdateAgentState::StartState,
            UpdateAgentState::Initialization => UpdateAgentState::Initialization,
            UpdateAgentState::Steady => UpdateAgentState::Steady,
            UpdateAgentState::UpdateFound(r) => UpdateAgentState::UpdateFound(r.clone()),
            UpdateAgentState::UpdateInProgress(r) => UpdateAgentState::UpdateInProgress(r.clone()),
            UpdateAgentState::UpdateStaged(r) => UpdateAgentState::UpdateStaged(r.clone()),
            UpdateAgentState::UpdateFinalizing(r) => UpdateAgentState::UpdateFinalizing(r.clone()),
        }
    }
}

/// The reply that the agent waits for.
#[derive(Clone, Copy, Debug, PartialEq, Eq, Structural)]
pub enum Awaiting {
    /// No tick is under way.
    Nothing,
    /// The lock manager's reply to a report of steady state.
    SteadyReply,
    /// The next release, from the graph client.
    NextRelease,
    /// The release that the backend has begun to stage.
    Staging,
    /// The release that the backend has staged.
    Progress,
    /// The lock manager's reply to a request for the green light.
    GreenLightReply,
    /// The release that the backend has begun to finalize.
    Finalizing,
}

/// The update agent.
#[derive(Debug, PartialEq, Eq)]
pub struct UpdateAgent {
    pub identity: Identity,
    /// Seconds between two ticks.
    pub refresh_period: u64,
    pub strategy: UpStrategy,
    pub state: UpdateAgentState,
    /// What the tick that is under way waits for.
    pub awaiting: Awaiting,
}

/// What an [`UpdateAgent`] holds.
pub struct AgentView {
    pub identity: IdentityView,
    pub refresh_period: u64,
    pub strategy: StrategyView,
    pub state: AgentStateView,
    pub awaiting: Awaiting,
}

impl View for UpdateAgent {
    type V = AgentView;

    open spec fn view(&self) -> AgentView {
        AgentView {
            identity: self.identity@,
            refresh_period: self.refresh_period,
            strategy: self.strategy@,
            state: self.state@,
            awaiting: self.awaiting,
        }
    }
}

/// The tick that moves the agent.
#[derive(Clone, Copy, Debug, PartialEq, Eq)]
pub struct RefreshTick {}

/// What the agent asks of a collaborator.
#[derive(Debug, PartialEq, Eq)]
pub enum Request {
    /// Nothing: the tick is over.
    Done,
    /// The lock manager is to be asked.
    AskManager(ManagerRequest),
    /// The graph client is to tell the next release.
    FetchGraph(FetchGraph),
    /// The backend is to stage a release.
    StageUpdate(StageUpdate),
    /// The backend is to tell whether a release is staged.
    CheckUpdateTxn(CheckUpdateTxn),
    /// The backend is to finalize a release.
    FinalizeUpdate(FinalizeUpdate),
}

/// What a [`Request`] says.
pub enum RequestView {
    Done,
    AskManager(ManagerRequestView),
    FetchGraph,
    StageUpdate(ReleaseView),
    CheckUpdateTxn(ReleaseView),
    FinalizeUpdate(ReleaseView),
}

impl View for Request {
    type V = RequestView;

    open spec fn view(&self) -> RequestView {
        match self {
            Request::Done => RequestView::Done,
            Request::AskManager(request) => RequestView::AskManager(request@),
            Request::FetchGraph(_) => RequestView::FetchGraph,
            Request::StageUpdate(msg) => RequestView::StageUpdate(msg.release@),
            Request::CheckUpdateTxn(msg) => RequestView::CheckUpdateTxn(msg.release@),
            Request::FinalizeUpdate(msg) => RequestView::FinalizeUpdate(msg.release@),
        }
    }
}

/// What came of a request of the agent.
#[derive(Debug, PartialEq, Eq)]
pub enum Reply {
    /// The call failed.
    Failure,
    /// The lock manager was asked, with this outcome.
    Manager(ManagerReply),
    /// The graph client or the backend answered: with a release, or with
    /// none.
    Release(Option<Release>),
}

/// What a [`Reply`] says.
pub enum ReplyView {
    Failure,
    Manager(ManagerReply),
    Release(Option<ReleaseView>),
}

impl View for Reply {
    type V = ReplyView;

    open spec fn view(&self) -> ReplyView {
        match self {
            Reply::Failure => ReplyView::Failure,
            Reply::Manager(reply) => ReplyView::Manager(*reply),
            Reply::Release(release) => ReplyView::Release(release_option_view(*release)),
        }
    }
}

impl ReplyView {
    /// The lock manager said yes.
    pub open spec fn is_yes(self) -> bool {
        self == ReplyView::Manager(ManagerReply::Status(STATUS_OK))
    }
}

impl AgentView {
    /// The agent in another state, with no tick under way.
    pub open spec fn settled_in(self, state: AgentStateView) -> AgentView {
        AgentView { state, awaiting: Awaiting::Nothing, ..self }
    }

    /// The agent in its state, with no tick under way.
    pub open spec fn settled(self) -> AgentView {
        AgentView { awaiting: Awaiting::Nothing, ..self }
    }

    /// The agent in its state, waiting for a reply.
    pub open spec fn waiting_for(self, awaiting: Awaiting) -> AgentView {
        AgentView { awaiting, ..self }
    }

    /// No tick is under way.
    pub open spec fn idle(self) -> bool {
        self.awaiting == Awaiting::Nothing
    }

    /// The step of the start state: the agent is initialized. In any other
    /// state, and while a tick is under way, the step does nothing.
    pub open spec fn try_initialize(self) -> (AgentView, RequestView) {
        if self.idle() && self.state is StartState {
            (self.settled_in(AgentStateView::Initialization), RequestView::Done)
        } else {
            (self, RequestView::Done)
        }
    }

    /// The step of the initialized agent: it reports steady state. Its own
    /// yes makes it steady at once. In any other state, and while a tick
    /// is under way, the step does nothing.
    pub open spec fn try_steady(self) -> (AgentView, RequestView) {
        if self.idle() && self.state is Initialization {
            match steady_query(self.strategy, self.identity) {
                QueryView::Answered(true) => (
                    self.settled_in(AgentStateView::Steady),
                    RequestView::Done,
                ),
                QueryView::Answered(false) => (self, RequestView::Done),
                QueryView::Ask(request) => (
                    self.waiting_for(Awaiting::SteadyReply),
                    RequestView::AskManager(request),
                ),
                QueryView::Failed => (self, RequestView::Done),
            }
        } else {
            (self, RequestView::Done)
        }
    }

    /// The step of the steady agent: it asks for the next release. In any
    /// other state, and while a tick is under way, the step does nothing.
    pub open spec fn check_for_update(self) -> (AgentView, RequestView) {
        if self.idle() && self.state is Steady {
            (self.waiting_for(Awaiting::NextRelease), RequestView::FetchGraph)
        } else {
            (self, RequestView::Done)
        }
    }

    /// The step of the agent that has found an update: it has the update
    /// staged. In any other state, and while a tick is under way, the step
    /// does nothing.
    pub open spec fn try_update_deployment(self) -> (AgentView, RequestView) {
        match self.state {
            AgentStateView::UpdateFound(r) if self.idle() => (
                self.waiting_for(Awaiting::Staging),
                RequestView::StageUpdate(r),
            ),
            _ => (self, RequestView::Done),
        }
    }

    /// The step of the agent that has an update in progress: it asks
    /// whether the update is staged. In any other state, and while a tick
    /// is under way, the step does nothing.
    pub open spec fn check_update_success(self) -> (AgentView, RequestView) {
        match self.state {
            AgentStateView::UpdateInProgress(r) if self.idle() => (
                self.waiting_for(Awaiting::Progress),
                RequestView::CheckUpdateTxn(r),
            ),
            _ => (self, RequestView::Done),
        }
    }

    /// The step of the agent that has an update staged: it asks for the
    /// green light. Its own yes has the update finalized at once. In any
    /// other state, and while a tick is under way, the step does nothing.
    pub open spec fn try_finalizing(self) -> (AgentView, RequestView) {
        match self.state {
            AgentStateView::UpdateStaged(r) if self.idle() => match green_light_query(
                self.strategy,
                self.identity,
            ) {
                QueryView::Answered(true) => (
                    self.waiting_for(Awaiting::Finalizing),
                    RequestView::FinalizeUpdate(r),
                ),
                QueryView::Answered(false) => (self, RequestView::Done),
                QueryView::Ask(request) => (
                    self.waiting_for(Awaiting::GreenLightReply),
                    RequestView::AskManager(request),
                ),
                QueryView::Failed => (self, RequestView::Done),
            },
            _ => (self, RequestView::Done),
        }
    }

    /// The agent after a tick, and what the tick asks for: the step of
    /// the state that the agent is in. A tick that arrives while another
    /// is under way changes nothing, and neither does one that finds the
    /// agent finalizing.
    pub open spec fn tick(self) -> (AgentView, RequestView) {
        match self.state {
            AgentStateView::StartState => self.try_initialize(),
            AgentStateView::Initialization => self.try_steady(),
            AgentStateView::Steady => self.check_for_update(),
            AgentStateView::UpdateFound(_) => self.try_update_deployment(),
            AgentStateView::UpdateInProgress(_) => self.check_update_success(),
            AgentStateView::UpdateStaged(_) => self.try_finalizing(),
            AgentStateView::UpdateFinalizing(_) => (self, RequestView::Done),
        }
    }

    /// The agent after the reply to its request, and what it asks for
    /// next. The state moves only on the reply that was waited for, and
    /// only where that reply is a yes or names a release. Any other reply
    /// ends the tick and leaves the state as it is.
    pub open spec fn resume(self, reply: ReplyView) -> (AgentView, RequestView) {
        match (self.awaiting, self.state, reply) {
            (Awaiting::Nothing, _, _) => (self, RequestView::Done),
            (Awaiting::SteadyReply, AgentStateView::Initialization, _) => if reply.is_yes() {
                (self.settled_in(AgentStateView::Steady), RequestView::Done)
            } else {
                (self.settled(), RequestView::Done)
            },
            (Awaiting::NextRelease, AgentStateView::Steady, ReplyView::Release(Some(r))) => (
                self.settled_in(AgentStateView::UpdateFound(r)),
                RequestView::Done,
            ),
            (Awaiting::Staging, AgentStateView::UpdateFound(_), ReplyView::Release(Some(r))) => (
                self.settled_in(AgentStateView::UpdateInProgress(r)),
                RequestView::Done,
            ),
            (
                Awaiting::Progress,
                AgentStateView::UpdateInProgress(_),
                ReplyView::Release(Some(r)),
            ) => (self.settled_in(AgentStateView::UpdateStaged(r)), RequestView::Done),
            (Awaiting::GreenLightReply, AgentStateView::UpdateStaged(r), _) => if reply.is_yes() {
                (self.waiting_for(Awaiting::Finalizing), RequestView::FinalizeUpdate(r))
            } else {
                (self.settled(), RequestView::Done)
            },
            (Awaiting::Finalizing, AgentStateView::UpdateStaged(_), ReplyView::Release(Some(r))) => (
                self.settled_in(AgentStateView::UpdateFinalizing(r)),
                RequestView::Done,
            ),
            _ => (self.settled(), RequestView::Done),
        }
    }
}

impl UpdateAgent {
    /// Takes a tick: does the one thing that the state calls for.
    pub fn handle(&mut self, _msg: RefreshTick) -> (request: Request)
        ensures
            (final(self)@, request@) == old(self)@.tick(),
    {
        match &self.state {
            UpdateAgentState::StartState => self.try_initialize(),
            UpdateAgentState::Initialization => self.try_steady(),
            UpdateAgentState::Steady => self.check_for_update(),
            UpdateAgentState::UpdateFound(_) => self.try_update_deployment(),
            UpdateAgentState::UpdateInProgress(_) => self.check_update_success(),
            UpdateAgentState::UpdateStaged(_) => self.try_finalizing(),
            UpdateAgentState::UpdateFinalizing(_) => Request::Done,
        }
    }

    /// Takes the reply to the request that the agent waits on.
    pub fn resume(&mut self, reply: Reply) -> (request: Request)
        ensures
            (final(self)@, request@) == old(self)@.resume(reply@),
    {
        let awaited = self.awaiting;
        self.awaiting = Awaiting::Nothing;
        match awaited {
            Awaiting::Nothing => Request::Done,
            Awaiting::SteadyReply => {
                if let UpdateAgentState::Initialization = &self.state {
                    if manager_said_yes(&reply) {
                        self.state = UpdateAgentState::Steady;
                    }
                }
                Request::Done
            },
            Awaiting::NextRelease => {
                if let UpdateAgentState::Steady = &self.state {
                    if let Reply::Release(Some(r)) = reply {
                        self.state = UpdateAgentState::UpdateFound(r);
                    }
                }
                Request::Done
            },
            Awaiting::Staging => {
                if let UpdateAgentState::UpdateFound(_) = &self.state {
                    if let Reply::Release(Some(r)) = reply {
                        self.state = UpdateAgentState::UpdateInProgress(r);
                    }
                }
                Request::Done
            },
            Awaiting::Progress => {
                if let UpdateAgentState::UpdateInProgress(_) = &self.state {
                    if let Reply::Release(Some(r)) = reply {
                        self.state = UpdateAgentState::UpdateStaged(r);
                    }
                }
                Request::Done
            },
            Awaiting::GreenLightReply => {
                let staged = match &self.state {
                    UpdateAgentState::UpdateStaged(r) => Some(r.clone()),
                    _ => None,
                };
                match staged {
                    Some(release) => {
                        if manager_said_yes(&reply) {
                            self.awaiting = Awaiting::Finalizing;
                            Request::FinalizeUpdate(FinalizeUpdate { release })
                        } else {
                            Request::Done
                        }
                    },
                    None => Request::Done,
                }
            },
            Awaiting::Finalizing => {
                if let UpdateAgentState::UpdateStaged(_) = &self.state {
                    if let Reply::Release(Some(r)) = reply {
                        self.state = UpdateAgentState::UpdateFinalizing(r);
                    }
                }
                Request::Done
            },
        }
    }

    /// Initializes the update agent, if it is in its start state and no
    /// tick is under way.
    pub fn try_initialize(&mut self) -> (request: Request)
        ensures
            (final(self)@, request@) == old(self)@.try_initialize(),
    {
        if self.awaiting == Awaiting::Nothing {
            if let UpdateAgentState::StartState = &self.state {
                self.state = UpdateAgentState::Initialization;
            }
        }
        Request::Done
    }

    /// Tries to report agent readiness and move to steady state, if the
    /// agent is initialized and no tick is under way.
    pub fn try_steady(&mut self) -> (request: Request)
        ensures
            (final(self)@, request@) == old(self)@.try_steady(),
    {
        if self.awaiting != Awaiting::Nothing {
            return Request::Done;
        }
        match &self.state {
            UpdateAgentState::Initialization => {},
            _ => {
                return Request::Done;
            },
        }
        match self.strategy.clone().report_steady(self.identity.clone()) {
            Query::Answered(is_ok) => {
                if is_ok {
                    self.state = UpdateAgentState::Steady;
                }
                Request::Done
            },
            Query::Ask(request) => {
                self.awaiting = Awaiting::SteadyReply;
                Request::AskManager(request)
            },
            Query::Failed => Request::Done,
        }
    }

    /// Checks for any available update, if the agent is steady and no tick
    /// is under way.
    pub fn check_for_update(&mut self) -> (request: Request)
        ensures
            (final(self)@, request@) == old(self)@.check_for_update(),
    {
        if self.awaiting != Awaiting::Nothing {
            return Request::Done;
        }
        match &self.state {
            UpdateAgentState::Steady => {},
            _ => {
                return Request::Done;
            },
        }
        self.awaiting = Awaiting::NextRelease;
        Request::FetchGraph(FetchGraph {  })
    }

    /// Starts deploying the update that was found, if one was found and no
    /// tick is under way.
    pub fn try_update_deployment(&mut self) -> (request: Request)
        ensures
            (final(self)@, request@) == old(self)@.try_update_deployment(),
    {
        if self.awaiting != Awaiting::Nothing {
            return Request::Done;
        }
        let release = match &self.state {
            UpdateAgentState::UpdateFound(r) => r.clone(),
            _ => {
                return Request::Done;
            },
        };
        self.awaiting = Awaiting::Staging;
        Request::StageUpdate(StageUpdate { release })
    }

    /// Checks whether the update in progress has been staged, if one is in
    /// progress and no tick is under way.
    pub fn check_update_success(&mut self) -> (request: Request)
        ensures
            (final(self)@, request@) == old(self)@.check_update_success(),
    {
        if self.awaiting != Awaiting::Nothing {
            return Request::Done;
        }
        let release = match &self.state {
            UpdateAgentState::UpdateInProgress(r) => r.clone(),
            _ => {
                return Request::Done;
            },
        };
        self.awaiting = Awaiting::Progress;
        Request::CheckUpdateTxn(CheckUpdateTxn { release })
    }

    /// Checks for the green light and tries to finalize the staged update,
    /// if one is staged and no tick is under way.
    pub fn try_finalizing(&mut self) -> (request: Request)
        ensures
            (final(self)@, request@) == old(self)@.try_finalizing(),
    {
        if self.awaiting != Awaiting::Nothing {
            return Request::Done;
        }
        let release = match &self.state {
            UpdateAgentState::UpdateStaged(r) => r.clone(),
            _ => {
                return Request::Done;
            },
        };
        // Check if finalization is allowed at this time.
        match self.strategy.clone().has_green_light(self.identity.clone()) {
            Query::Answered(ok) => {
                if ok {
                    self.awaiting = Awaiting::Finalizing;
                    Request::FinalizeUpdate(FinalizeUpdate { release })
                } else {
                    Request::Done
                }
            },
            Query::Ask(request) => {
                self.awaiting = Awaiting::GreenLightReply;
                Request::AskManager(request)
            },
            Query::Failed => Request::Done,
        }
    }
}

/// Whether a reply is a yes of the lock manager.
fn manager_said_yes(reply: &Reply) -> (yes: bool)
    ensures
        yes == reply@.is_yes(),
{
    match reply {
        Reply::Manager(m) => StratRemoteHTTP::is_positive(*m),
        _ => false,
    }
}

} // verus!
