//! Client of the local update backend.
//!
//! The backend takes one call at a time, so the calls themselves are made
//! by a worker of the embedding program. Which call is made, and what a
//! caller is told, is decided here. The client holds one slot for the
//! release whose staging is outstanding: the first request fills it, and
//! it is emptied when the staging call returns.

use crate::cincinnati::graph::{release_option_view, Release, ReleaseView};
use vstd::prelude::*;

verus! {

/// Main actor for interacting with the update backend.
#[derive(Debug, PartialEq, Eq)]
pub struct RpmOstreeClient {
    /// The release whose staging is outstanding.
    pub pending: Option<Release>,
}

/// What a client holds: the release whose staging is outstanding.
pub struct RpmOstreeClientView {
    pub pending: Option<ReleaseView>,
}

impl View for RpmOstreeClient {
    type V = RpmOstreeClientView;

    open spec fn view(&self) -> RpmOstreeClientView {
        RpmOstreeClientView { pending: release_option_view(self.pending) }
    }
}

impl Clone for RpmOstreeClient {
    fn clone(&self) -> (r: Self)
        ensures
            r == *self,
    {
        let pending = match &self.pending {
            Some(release) => Some(release.clone()),
            None => None,
        };
        RpmOstreeClient { pending }
    }
}

/// Configures the client: nothing is pending.
pub fn configure() -> (client: RpmOstreeClient)
    ensures
        client.pending is None,
{
    RpmOstreeClient { pending: None }
}

/// Request: stage a deployment.
#[derive(Debug, PartialEq, Eq)]
pub struct StageUpdate {
    pub release: Release,
}

/// Request: tell how far the staging of a deployment is.
#[derive(Debug, PartialEq, Eq)]
pub struct CheckUpdateTxn {
    pub release: Release,
}

/// Request: finalize a deployment.
#[derive(Debug, PartialEq, Eq)]
pub struct FinalizeUpdate {
    pub release: Release,
}

/// Request to finalize a deployment, under the name it has where
/// finalization is run apart from the agent.
pub type FinalizeDeployment = FinalizeUpdate;

/// One call to the backend, made by the worker.
#[derive(Debug, PartialEq, Eq)]
pub enum BackendCall {
    StageDeployment(Release),
    CheckDeployment(Release),
    FinalizeDeployment(Release),
}

/// What one call to the backend says.
pub enum BackendCallView {
    StageDeployment(ReleaseView),
    CheckDeployment(ReleaseView),
    FinalizeDeployment(ReleaseView),
}

impl View for BackendCall {
    type V = BackendCallView;

    open spec fn view(&self) -> BackendCallView {
        match self {
            BackendCall::StageDeployment(r) => BackendCallView::StageDeployment(r@),
            BackendCall::CheckDeployment(r) => BackendCallView::CheckDeployment(r@),
            BackendCall::FinalizeDeployment(r) => BackendCallView::FinalizeDeployment(r@),
        }
    }
}

/// Why a call to the backend yielded nothing.
#[derive(Clone, Copy, Debug, PartialEq, Eq, Structural)]
pub enum BackendError {
    /// The backend could not be reached, or the call failed.
    Ipc,
}

/// What is done about a request to stage a release.
#[derive(Debug, PartialEq, Eq)]
pub enum StageStep {
    /// The slot was free: the release is pending now, and the backend is
    /// to be called for it.
    Call(Release),
    /// The same release is pending already: nothing more is done, and the
    /// caller is told that its request is under way.
    AlreadyPending(Release),
    /// Another release is pending: the request is dropped.
    Ignored,
}

/// What a [`StageStep`] says.
pub enum StageStepView {
    Call(ReleaseView),
    AlreadyPending(ReleaseView),
    Ignored,
}

impl View for StageStep {
    type V = StageStepView;

    open spec fn view(&self) -> StageStepView {
        match self {
            StageStep::Call(r) => StageStepView::Call(r@),
            StageStep::AlreadyPending(r) => StageStepView::AlreadyPending(r@),
            StageStep::Ignored => StageStepView::Ignored,
        }
    }
}

impl StageStepView {
    /// How many calls to the backend this step makes.
    pub open spec fn calls(self) -> nat {
        if self is Call {
            1
        } else {
            0
        }
    }
}

impl RpmOstreeClientView {
    /// The client after a request to stage `release`: the first request
    /// fills the slot, any other leaves it as it is.
    pub open spec fn after_stage(self, release: ReleaseView) -> RpmOstreeClientView {
        match self.pending {
            None => RpmOstreeClientView { pending: Some(release) },
            Some(_) => self,
        }
    }

    /// What is done about a request to stage `release`.
    pub open spec fn stage_step(self, release: ReleaseView) -> StageStepView {
        match self.pending {
            None => StageStepView::Call(release),
            Some(pending) => if pending == release {
                StageStepView::AlreadyPending(release)
            } else {
                StageStepView::Ignored
            },
        }
    }

    /// The client after several requests to stage, none of which has
    /// returned yet.
    pub open spec fn after_stages(self, releases: Seq<ReleaseView>) -> RpmOstreeClientView
        decreases releases.len(),
    {
        if releases.len() == 0 {
            self
        } else {
            self.after_stages(releases.drop_last()).after_stage(releases.last())
        }
    }

    /// How many calls to the backend several requests to stage make, none
    /// of which has returned yet.
    pub open spec fn stage_calls(self, releases: Seq<ReleaseView>) -> nat
        decreases releases.len(),
    {
        if releases.len() == 0 {
            0
        } else {
            self.stage_calls(releases.drop_last()) + self.after_stages(
                releases.drop_last(),
            ).stage_step(releases.last()).calls()
        }
    }
}

/// What a caller is told of its request to stage: the release where its
/// staging is under way or done, nothing where the request was dropped.
pub open spec fn staged_view(r: Result<Option<Release>, BackendError>) -> Result<
    Option<ReleaseView>,
    BackendError,
> {
    match r {
        Ok(release) => Ok(release_option_view(release)),
        Err(e) => Err(e),
    }
}

/// What the return of a call to the backend says.
pub open spec fn returned_view(r: Result<Release, BackendError>) -> Result<
    ReleaseView,
    BackendError,
> {
    match r {
        Ok(release) => Ok(release@),
        Err(e) => Err(e),
    }
}

/// What a caller is told when a call to the backend has returned: the
/// release that the backend names, or the failure.
pub open spec fn told_of(returned: Result<ReleaseView, BackendError>) -> Result<
    Option<ReleaseView>,
    BackendError,
> {
    match returned {
        Ok(release) => Ok(Some(release)),
        Err(e) => Err(e),
    }
}

impl RpmOstreeClient {
    /// Takes a request to stage a release.
    ///
    /// While the staging of a release is outstanding, a request for the
    /// same release makes no further call, and one for another release is
    /// dropped.
    pub fn stage_update(&mut self, msg: StageUpdate) -> (step: StageStep)
        ensures
            final(self)@ == old(self)@.after_stage(msg.release@),
            step@ == old(self)@.stage_step(msg.release@),
    {
        let same = match &self.pending {
            None => {
                let call = msg.release.clone();
                self.pending = Some(msg.release);
                return StageStep::Call(call);
            },
            Some(pending) => pending.same_as(&msg.release),
        };
        if same {
            StageStep::AlreadyPending(msg.release)
        } else {
            StageStep::Ignored
        }
    }

    /// Takes the return of the staging call: the slot is free again, and
    /// the caller is told what the backend returned.
    pub fn stage_returned(&mut self, returned: Result<Release, BackendError>) -> (told: Result<
        Option<Release>,
        BackendError,
    >)
        ensures
            final(self).pending is None,
            staged_view(told) == told_of(returned_view(returned)),
    {
        self.pending = None;
        match returned {
            Ok(release) => Ok(Some(release)),
            Err(e) => Err(e),
        }
    }

    /// What a caller is told at once of its request to stage: its release
    /// where that is pending already, nothing where the request was
    /// dropped. Where the backend is called, the caller is told nothing
    /// before the call returns.
    pub fn stage_answer(step: StageStep) -> (told: Option<Release>)
        ensures
            release_option_view(told) == match step@ {
                StageStepView::AlreadyPending(release) => Some(release),
                _ => None,
            },
    {
        match step {
            StageStep::AlreadyPending(release) => Some(release),
            _ => None,
        }
    }

    /// The call by which the backend is asked how far a staging is.
    pub fn check_update(&self, msg: CheckUpdateTxn) -> (call: BackendCall)
        ensures
            call@ == BackendCallView::CheckDeployment(msg.release@),
    {
        BackendCall::CheckDeployment(msg.release)
    }

    /// The call by which the backend is asked to finalize a deployment.
    pub fn finalize(&self, msg: FinalizeUpdate) -> (call: BackendCall)
        ensures
            call@ == BackendCallView::FinalizeDeployment(msg.release@),
    {
        finalize_update(msg.release)
    }
}

/// The call that stages a release.
pub fn stage_update(release: Release) -> (call: BackendCall)
    ensures
        call@ == BackendCallView::StageDeployment(release@),
{
    BackendCall::StageDeployment(release)
}

/// The call that finalizes a release.
pub fn finalize_update(release: Release) -> (call: BackendCall)
    ensures
        call@ == BackendCallView::FinalizeDeployment(release@),
{
    BackendCall::FinalizeDeployment(release)
}

/// What a caller is told when a call to the backend has returned.
pub fn call_returned(returned: Result<Release, BackendError>) -> (told: Result<
    Option<Release>,
    BackendError,
>)
    ensures
        staged_view(told) == told_of(returned_view(returned)),
{
    match returned {
        Ok(release) => Ok(Some(release)),
        Err(e) => Err(e),
    }
}

/// While the slot is taken, requests to stage make no call and leave the
/// slot as it is.
pub proof fn lemma_taken_slot_makes_no_call(client: RpmOstreeClientView, releases: Seq<ReleaseView>)
    requires
        client.pending is Some,
    ensures
        client.after_stages(releases) == client,
        client.stage_calls(releases) == 0,
    decreases releases.len(),
{
    if releases.len() > 0 {
        lemma_taken_slot_makes_no_call(client, releases.drop_last());
    }
}

/// Idempotence of staging: requests to stage that arrive while none of
/// them has returned make exactly one call to the backend between them,
/// however many they are and whatever they ask for. The call is for the
/// first of them, which stays pending.
pub proof fn lemma_stage_is_idempotent(client: RpmOstreeClientView, releases: Seq<ReleaseView>)
    requires
        client.pending is None,
        releases.len() > 0,
    ensures
        client.stage_calls(releases) == 1,
        client.after_stages(releases).pending == Some(releases[0]),
        client.stage_step(releases[0]) == StageStepView::Call(releases[0]),
    decreases releases.len(),
{
    if releases.len() == 1 {
        assert(releases.drop_last().len() == 0);
        assert(client.after_stages(releases.drop_last()) == client);
        assert(client.stage_calls(releases.drop_last()) == 0);
    } else {
        lemma_stage_is_idempotent(client, releases.drop_last());
        assert(releases.drop_last()[0] == releases[0]);
    }
}

/// Staging the same release twice in a row: the first request makes the
/// call, the second is told that the release is pending and makes none.
pub proof fn lemma_stage_twice(client: RpmOstreeClientView, release: ReleaseView)
    requires
        client.pending is None,
    ensures
        client.stage_step(release) == StageStepView::Call(release),
        client.after_stage(release).stage_step(release) == StageStepView::AlreadyPending(
            release,
        ),
        client.after_stage(release).after_stage(release) == client.after_stage(release),
{
}

} // verus!
