//! Finalizer.
//!
//! Where finalization is run apart from the agent, the finalizer holds the
//! staged release that waits to be finalized. It confirms steady state
//! first, and then asks for a green light again and again until the
//! release is finalized.

use crate::cincinnati::graph::{release_option_view, Release, ReleaseView};
use crate::rpm_ostree::FinalizeDeployment;
use crate::strategy::remote_http::{manager_request_option_view, ManagerReply, STATUS_OK};
use crate::strategy::{
    green_light_query, steady_query, FinStrategy, ManagerRequest, ManagerRequestView, Query,
    QueryView, StratRemoteHTTP, StrategyView,
};
use crate::update_agent::identity::{Identity, IdentityView};
use vstd::prelude::*;

verus! {

/// Seconds between two reports of steady state, and between two attempts
/// to finalize.
pub const RETRY_INTERVAL_SECS: u64 = 20;

/// Actor that finalizes a staged release once the strategy allows.
#[derive(Debug, PartialEq, Eq)]
pub struct Finalizer {
    pub identity: Identity,
    /// The staged release that waits to be finalized.
    pub pending: Option<Release>,
    /// Whether steady state was confirmed.
    pub steady: bool,
    pub strategy: FinStrategy,
}

/// What a [`Finalizer`] holds.
pub struct FinalizerView {
    pub identity: IdentityView,
    pub pending: Option<ReleaseView>,
    pub steady: bool,
    pub strategy: StrategyView,
}

impl View for Finalizer {
    type V = FinalizerView;

    open spec fn view(&self) -> FinalizerView {
        FinalizerView {
            identity: self.identity@,
            pending: release_option_view(self.pending),
            steady: self.steady,
            strategy: self.strategy@,
        }
    }
}

/// Configures the finalizer: nothing is pending, and steady state is not
/// confirmed yet.
pub fn configure(strategy: FinStrategy, identity: Identity) -> (finalizer: Finalizer)
    ensures
        finalizer.identity == identity,
        finalizer.strategy == strategy,
        finalizer.pending is None,
        !finalizer.steady,
{
    Finalizer { identity, pending: None, steady: false, strategy }
}

/// Notice: a release was staged and waits to be finalized.
#[derive(Debug, PartialEq, Eq)]
pub struct NewPending {
    pub payload: Release,
}

/// Request: report steady state.
#[derive(Clone, Copy, Debug, PartialEq, Eq)]
pub struct ReportSteadyState {}

/// Request: finalize the pending release, if that is allowed.
#[derive(Clone, Copy, Debug, PartialEq, Eq)]
pub struct TriggerFinalize {}

/// What is done about a request to finalize.
#[derive(Debug, PartialEq, Eq)]
pub enum FinalizeStep {
    /// Nothing is pending.
    Idle,
    /// A release is pending, but steady state is not confirmed yet.
    NotSteady,
    /// The strategy denies the green light for now.
    Denied,
    /// The lock manager is to be asked for the green light.
    Ask(ManagerRequest),
    /// The lock manager would have to be asked, but no request can be
    /// made for it.
    Failed,
    /// The green light is given: the backend is to finalize the release.
    Finalize(FinalizeDeployment),
}

/// What a [`FinalizeStep`] says.
pub enum FinalizeStepView {
    Idle,
    NotSteady,
    Denied,
    Ask(ManagerRequestView),
    Failed,
    Finalize(ReleaseView),
}

impl View for FinalizeStep {
    type V = FinalizeStepView;

    open spec fn view(&self) -> FinalizeStepView {
        match self {
            FinalizeStep::Idle => FinalizeStepView::Idle,
            FinalizeStep::NotSteady => FinalizeStepView::NotSteady,
            FinalizeStep::Denied => FinalizeStepView::Denied,
            FinalizeStep::Ask(request) => FinalizeStepView::Ask(request@),
            FinalizeStep::Failed => FinalizeStepView::Failed,
            FinalizeStep::Finalize(msg) => FinalizeStepView::Finalize(msg.release@),
        }
    }
}

/// What an optional order to finalize says.
pub open spec fn finalize_option_view(msg: Option<FinalizeDeployment>) -> Option<ReleaseView> {
    match msg {
        Some(m) => Some(m.release@),
        None => None,
    }
}

impl FinalizerView {
    /// The finalizer after the notice of a staged release: the first
    /// release that is noticed stays pending until it is finalized.
    pub open spec fn after_new_pending(self, payload: ReleaseView) -> FinalizerView {
        match self.pending {
            None => FinalizerView { pending: Some(payload), ..self },
            Some(_) => self,
        }
    }

    /// Whether steady state is confirmed after a request to report it,
    /// as far as the strategy answers by itself.
    pub open spec fn steady_after_report(self) -> bool {
        self.steady || steady_query(self.strategy, self.identity) == QueryView::Answered(true)
    }

    /// The request to the lock manager that a request to report steady
    /// state calls for. None once steady state is confirmed.
    pub open spec fn report_request(self) -> Option<ManagerRequestView> {
        if self.steady {
            None
        } else {
            match steady_query(self.strategy, self.identity) {
                QueryView::Ask(request) => Some(request),
                _ => None,
            }
        }
    }

    /// What is done about a request to finalize.
    pub open spec fn finalize_step(self) -> FinalizeStepView {
        match self.pending {
            None => FinalizeStepView::Idle,
            Some(release) => if !self.steady {
                FinalizeStepView::NotSteady
            } else {
                match green_light_query(self.strategy, self.identity) {
                    QueryView::Answered(true) => FinalizeStepView::Finalize(release),
                    QueryView::Answered(false) => FinalizeStepView::Denied,
                    QueryView::Ask(request) => FinalizeStepView::Ask(request),
                    QueryView::Failed => FinalizeStepView::Failed,
                }
            },
        }
    }

    /// The release to finalize after the lock manager has replied to a
    /// request for the green light: the pending one, where steady state is
    /// confirmed and the reply is a yes.
    pub open spec fn finalize_on_reply(self, reply: ManagerReply) -> Option<ReleaseView> {
        if self.steady && reply == ManagerReply::Status(STATUS_OK) {
            self.pending
        } else {
            None
        }
    }
}

impl Finalizer {
    /// Takes the notice of a staged release, and has finalization tried
    /// at once.
    pub fn new_pending(&mut self, msg: NewPending) -> (next: TriggerFinalize)
        ensures
            final(self)@ == old(self)@.after_new_pending(msg.payload@),
    {
        if self.pending.is_none() {
            self.pending = Some(msg.payload);
        }
        TriggerFinalize {  }
    }

    /// Takes a request to report steady state.
    ///
    /// Nothing is done once steady state is confirmed. Before that the
    /// strategy is asked: its own answer is taken at once, and the request
    /// to the lock manager is handed out where the strategy has one.
    pub fn report_steady_state(&mut self, _msg: ReportSteadyState) -> (request: Option<
        ManagerRequest,
    >)
        ensures
            final(self)@ == (FinalizerView { steady: old(self)@.steady_after_report(), ..old(self)@ }),
            manager_request_option_view(request) == old(self)@.report_request(),
    {
        // Nothing to do if steady state was already confirmed previously.
        if self.steady {
            return None;
        }
        // Try to report steady state.
        match self.strategy.clone().report_steady(self.identity.clone()) {
            Query::Answered(is_ok) => {
                if is_ok {
                    self.steady = true;
                }
                None
            },
            Query::Ask(request) => Some(request),
            Query::Failed => None,
        }
    }

    /// Takes the lock manager's reply to a report of steady state: a yes
    /// confirms it.
    pub fn steady_replied(&mut self, reply: ManagerReply)
        ensures
            final(self)@ == (FinalizerView {
                steady: old(self).steady || reply == ManagerReply::Status(
                    STATUS_OK,
                ),
                ..old(self)@
            }),
    {
        if StratRemoteHTTP::is_positive(reply) {
            self.steady = true;
        }
    }

    /// Takes a request to finalize the pending release.
    pub fn trigger_finalize(&self, _msg: TriggerFinalize) -> (step: FinalizeStep)
        ensures
            step@ == self@.finalize_step(),
    {
        let release = match &self.pending {
            Some(r) => r.clone(),
            None => {
                return FinalizeStep::Idle;
            },
        };
        if !self.steady {
            return FinalizeStep::NotSteady;
        }
        // Check if finalization is allowed at this time.
        match self.strategy.clone().has_green_light(self.identity.clone()) {
            Query::Answered(ok) => {
                if ok {
                    FinalizeStep::Finalize(FinalizeDeployment { release })
                } else {
                    FinalizeStep::Denied
                }
            },
            Query::Ask(request) => FinalizeStep::Ask(request),
            Query::Failed => FinalizeStep::Failed,
        }
    }

    /// Takes the lock manager's reply to a request for the green light:
    /// on a yes the backend is to finalize the pending release.
    pub fn green_light_replied(&self, reply: ManagerReply) -> (order: Option<FinalizeDeployment>)
        ensures
            finalize_option_view(order) == self@.finalize_on_reply(reply),
    {
        if !self.steady || !StratRemoteHTTP::is_positive(reply) {
            return None;
        }
        match &self.pending {
            Some(r) => Some(FinalizeDeployment { release: r.clone() }),
            None => None,
        }
    }

    /// Takes the return of the call that finalizes: once the release is
    /// finalized nothing is pending any more, and after a failure the
    /// release stays pending for the next attempt.
    pub fn finalize_returned(&mut self, finalized: bool)
        ensures
            final(self)@ == (FinalizerView {
                pending: if finalized {
                    None
                } else {
                    old(self)@.pending
                },
                ..old(self)@
            }),
    {
        if finalized {
            self.pending = None;
        }
    }
}

/// No order to finalize without a green light: the finalizer orders the
/// backend to finalize only where a release is pending, steady state is
/// confirmed and the strategy has just said yes, by itself or through the
/// lock manager's reply.
pub proof fn lemma_finalize_needs_green_light(finalizer: FinalizerView, reply: ManagerReply)
    ensures
        finalizer.finalize_step() matches FinalizeStepView::Finalize(release) ==> finalizer.steady
            && finalizer.pending == Some(release) && green_light_query(
            finalizer.strategy,
            finalizer.identity,
        ) == QueryView::Answered(true),
        finalizer.finalize_on_reply(reply) matches Some(release) ==> finalizer.steady
            && finalizer.pending == Some(release) && reply == ManagerReply::Status(
            STATUS_OK,
        ),
{
}

} // verus!
