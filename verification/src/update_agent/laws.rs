//! What holds of the update agent, whatever its collaborators do.
//!
//! The laws speak of the agent as [`AgentView::tick`] and
//! [`AgentView::resume`] describe it, which is what
//! [`UpdateAgent::handle`](super::agent::UpdateAgent::handle) and
//! [`UpdateAgent::resume`](super::agent::UpdateAgent::resume) do.

use crate::cincinnati::graph::ReleaseView;
use crate::strategy::remote_http::{ManagerReply, STATUS_OK};
use crate::strategy::{green_light_query, steady_query, QueryView, StrategyView};
use crate::update_agent::agent::{AgentStateView, AgentView, Awaiting, ReplyView, RequestView};
use vstd::prelude::*;

verus! {

/// What moves the agent: a tick, or the reply to a request.
pub enum Input {
    Tick,
    Reply(ReplyView),
}

impl AgentStateView {
    /// How far a state is along the life of an update.
    pub open spec fn rank(self) -> nat {
        match self {
            AgentStateView::StartState => 0,
            AgentStateView::Initialization => 1,
            AgentStateView::Steady => 2,
            AgentStateView::UpdateFound(_) => 3,
            AgentStateView::UpdateInProgress(_) => 4,
            AgentStateView::UpdateStaged(_) => 5,
            AgentStateView::UpdateFinalizing(_) => 6,
        }
    }
}

/// The number of states in the life of an update.
pub open spec fn state_count() -> nat {
    7
}

impl AgentView {
    /// A freshly configured agent.
    pub open spec fn is_fresh(self) -> bool {
        self.state == AgentStateView::StartState && self.awaiting == Awaiting::Nothing
    }

    /// The agent waits only for what its state has asked for.
    pub open spec fn consistent(self) -> bool {
        match self.awaiting {
            Awaiting::Nothing => true,
            Awaiting::SteadyReply => self.state is Initialization,
            Awaiting::NextRelease => self.state is Steady,
            Awaiting::Staging => self.state is UpdateFound,
            Awaiting::Progress => self.state is UpdateInProgress,
            Awaiting::GreenLightReply => self.state is UpdateStaged,
            Awaiting::Finalizing => self.state is UpdateStaged,
        }
    }

    /// The agent after one input, and what it asks for.
    pub open spec fn step(self, input: Input) -> (AgentView, RequestView) {
        match input {
            Input::Tick => self.tick(),
            Input::Reply(reply) => self.resume(reply),
        }
    }

    /// The agent after a run of inputs.
    pub open spec fn run(self, inputs: Seq<Input>) -> AgentView
        decreases inputs.len(),
    {
        if inputs.len() == 0 {
            self
        } else {
            self.run(inputs.drop_last()).step(inputs.last()).0
        }
    }

    /// What the graph client answered last in a run of inputs: the latest
    /// reply with a release, or with none, that arrived while the agent
    /// waited for the next release.
    pub open spec fn last_fetched(self, inputs: Seq<Input>) -> Option<Option<ReleaseView>>
        decreases inputs.len(),
    {
        if inputs.len() == 0 {
            None
        } else {
            let before = self.run(inputs.drop_last());
            match inputs.last() {
                Input::Reply(ReplyView::Release(release)) if before.awaiting
                    == Awaiting::NextRelease => Some(release),
                _ => self.last_fetched(inputs.drop_last()),
            }
        }
    }

    /// The green light is given in a step: by the strategy itself on a
    /// tick, or by the lock manager's yes to the request for it.
    pub open spec fn green_light_given(self, input: Input) -> bool {
        match input {
            Input::Tick => self.awaiting == Awaiting::Nothing && green_light_query(
                self.strategy,
                self.identity,
            ) == QueryView::Answered(true),
            Input::Reply(reply) => self.awaiting == Awaiting::GreenLightReply && reply.is_yes(),
        }
    }

    /// The green light stands at the end of a run of inputs: it was given
    /// in the last step of the run, ticks that were dropped since then not
    /// counted.
    pub open spec fn green_light_stands(self, inputs: Seq<Input>) -> bool
        decreases inputs.len(),
    {
        if inputs.len() == 0 {
            false
        } else {
            let before = self.run(inputs.drop_last());
            if before.green_light_given(inputs.last()) {
                true
            } else if inputs.last() is Tick && before.awaiting != Awaiting::Nothing {
                self.green_light_stands(inputs.drop_last())
            } else {
                false
            }
        }
    }
}

/// No input changes who the agent is or which strategy it follows.
pub proof fn lemma_step_keeps_configuration(agent: AgentView, input: Input)
    ensures
        agent.step(input).0.identity == agent.identity,
        agent.step(input).0.strategy == agent.strategy,
        agent.step(input).0.refresh_period == agent.refresh_period,
{
}

/// The agent waits only for what its state has asked for: this holds of a
/// fresh agent and is kept by every input.
pub proof fn lemma_step_keeps_consistency(agent: AgentView, input: Input)
    requires
        agent.consistent(),
    ensures
        agent.step(input).0.consistent(),
{
}

/// No partial transition: a call that fails leaves the state as it was,
/// asks for nothing more, and ends the tick, so that the next tick tries
/// again.
pub proof fn lemma_failure_keeps_state(agent: AgentView)
    ensures
        agent.resume(ReplyView::Failure).0.state == agent.state,
        agent.resume(ReplyView::Failure).0.awaiting == Awaiting::Nothing,
        agent.resume(ReplyView::Failure).1 == RequestView::Done,
{
}

/// A tick on which the strategy cannot make its request to the lock
/// manager leaves the agent as it was.
pub proof fn lemma_unbuildable_request_keeps_state(agent: AgentView)
    requires
        agent.awaiting == Awaiting::Nothing,
        agent.state is Initialization ==> steady_query(agent.strategy, agent.identity)
            == QueryView::Failed,
        agent.state is UpdateStaged ==> green_light_query(agent.strategy, agent.identity)
            == QueryView::Failed,
        agent.state is Initialization || agent.state is UpdateStaged,
    ensures
        agent.tick() == (agent, RequestView::Done),
{
}

/// Each step is the tick of its own state and nothing besides: taken in
/// the state that it belongs to, a step does what the tick does, and taken
/// in any other state, it does nothing.
pub proof fn lemma_steps_are_the_tick(agent: AgentView)
    ensures
        agent.try_initialize() == if agent.state is StartState {
            agent.tick()
        } else {
            (agent, RequestView::Done)
        },
        agent.try_steady() == if agent.state is Initialization {
            agent.tick()
        } else {
            (agent, RequestView::Done)
        },
        agent.check_for_update() == if agent.state is Steady {
            agent.tick()
        } else {
            (agent, RequestView::Done)
        },
        agent.try_update_deployment() == if agent.state is UpdateFound {
            agent.tick()
        } else {
            (agent, RequestView::Done)
        },
        agent.check_update_success() == if agent.state is UpdateInProgress {
            agent.tick()
        } else {
            (agent, RequestView::Done)
        },
        agent.try_finalizing() == if agent.state is UpdateStaged {
            agent.tick()
        } else {
            (agent, RequestView::Done)
        },
{
}

/// The tick of a steady agent: it asks the graph client for the next
/// release, once. A reply that names a release makes that release the
/// update that is found. Any other reply, be it that there is no update
/// or that the fetch failed, leaves the agent as it was before the tick:
/// nothing is staged, and the next tick fetches again.
pub proof fn lemma_steady_tick(agent: AgentView, reply: ReplyView)
    requires
        agent.state is Steady,
        agent.awaiting == Awaiting::Nothing,
    ensures
        agent.tick() == (agent.waiting_for(Awaiting::NextRelease), RequestView::FetchGraph),
        agent.tick().0.resume(reply) == match reply {
            ReplyView::Release(Some(release)) => (
                agent.settled_in(AgentStateView::UpdateFound(release)),
                RequestView::Done,
            ),
            _ => (agent, RequestView::Done),
        },
{
}

/// The tick of an agent that has found `release`: it asks the backend to
/// stage `release`, once. A reply that names a release puts that release
/// in progress. Any other reply, be it that the request was dropped or
/// that staging failed, leaves the agent as it was before the tick, with
/// `release` still found.
pub proof fn lemma_found_tick(agent: AgentView, release: ReleaseView, reply: ReplyView)
    requires
        agent.state == AgentStateView::UpdateFound(release),
        agent.awaiting == Awaiting::Nothing,
    ensures
        agent.tick() == (agent.waiting_for(Awaiting::Staging), RequestView::StageUpdate(release)),
        agent.tick().0.resume(reply) == match reply {
            ReplyView::Release(Some(staging)) => (
                agent.settled_in(AgentStateView::UpdateInProgress(staging)),
                RequestView::Done,
            ),
            _ => (agent, RequestView::Done),
        },
{
}

/// The tick of an agent that has `release` in progress: it asks the
/// backend whether `release` is staged, once. A reply that names a release
/// makes that release the staged one. Any other reply leaves the agent as
/// it was before the tick.
pub proof fn lemma_in_progress_tick(agent: AgentView, release: ReleaseView, reply: ReplyView)
    requires
        agent.state == AgentStateView::UpdateInProgress(release),
        agent.awaiting == Awaiting::Nothing,
    ensures
        agent.tick() == (
            agent.waiting_for(Awaiting::Progress),
            RequestView::CheckUpdateTxn(release),
        ),
        agent.tick().0.resume(reply) == match reply {
            ReplyView::Release(Some(staged)) => (
                agent.settled_in(AgentStateView::UpdateStaged(staged)),
                RequestView::Done,
            ),
            _ => (agent, RequestView::Done),
        },
{
}

/// The tick of an agent that has `release` staged, once the green light is
/// given: the backend is asked to finalize `release`. A reply that names a
/// release makes the agent finalize that release. Any other reply leaves
/// the agent with `release` staged, and no tick under way.
pub proof fn lemma_finalize_reply(agent: AgentView, release: ReleaseView, reply: ReplyView)
    requires
        agent.state == AgentStateView::UpdateStaged(release),
        agent.awaiting == Awaiting::Finalizing,
    ensures
        agent.resume(reply) == match reply {
            ReplyView::Release(Some(finalizing)) => (
                agent.settled_in(AgentStateView::UpdateFinalizing(finalizing)),
                RequestView::Done,
            ),
            _ => (agent.settled(), RequestView::Done),
        },
{
}

/// A tick that arrives while another is under way is dropped.
pub proof fn lemma_overlapping_tick_is_dropped(agent: AgentView)
    requires
        agent.awaiting != Awaiting::Nothing,
    ensures
        agent.tick() == (agent, RequestView::Done),
{
}

/// One transition per tick, and forwards only: an input moves the state by
/// at most one place, never back, and an input that moves it ends the
/// tick.
pub proof fn lemma_step_moves_one_place(agent: AgentView, input: Input)
    ensures
        agent.state.rank() <= agent.step(input).0.state.rank() <= agent.state.rank() + 1,
        agent.step(input).0.state != agent.state ==> agent.step(input).0.state.rank()
            == agent.state.rank() + 1 && agent.step(input).1 == RequestView::Done && agent.step(
            input,
        ).0.awaiting == Awaiting::Nothing,
{
}

/// Finalizing is the last state: no input moves an agent out of it.
pub proof fn lemma_finalizing_is_last(agent: AgentView, input: Input)
    requires
        agent.state is UpdateFinalizing,
    ensures
        agent.step(input).0.state == agent.state,
        agent.step(input).1 == RequestView::Done,
{
}

/// An update is found only in the graph client's answer: the agent comes
/// to have found `release` only from the steady state, on the reply that
/// names `release` while the agent waits for the next release. An answer
/// that names none moves nothing.
pub proof fn lemma_update_found_only_on_fetch(agent: AgentView, input: Input, release: ReleaseView)
    ensures
        agent.step(input).0.state == AgentStateView::UpdateFound(release) && agent.state
            != AgentStateView::UpdateFound(release) ==> agent.state is Steady && agent.awaiting
            == Awaiting::NextRelease && input == Input::Reply(ReplyView::Release(Some(release))),
        agent.resume(ReplyView::Release(None)).0.state == agent.state,
{
}

/// Staging starts only for an update that was found: the agent comes to
/// have `release` in progress only from having found an update, on the
/// backend's reply that names `release`.
pub proof fn lemma_in_progress_only_from_found(
    agent: AgentView,
    input: Input,
    release: ReleaseView,
)
    ensures
        agent.step(input).0.state == AgentStateView::UpdateInProgress(release) && agent.state
            != AgentStateView::UpdateInProgress(release) ==> agent.state is UpdateFound
            && agent.awaiting == Awaiting::Staging && input == Input::Reply(
            ReplyView::Release(Some(release)),
        ),
        agent.step(input).1 matches RequestView::StageUpdate(r) ==> agent.state
            == AgentStateView::UpdateFound(r) && input == Input::Tick,
{
}

/// Whatever the inputs were: while the agent of a run holds an update as
/// found, that update is what the graph client answered last. So the
/// backend is asked to stage a release only if the latest fetch named it.
pub proof fn lemma_found_is_last_fetched(agent: AgentView, inputs: Seq<Input>)
    requires
        agent.is_fresh(),
    ensures
        agent.run(inputs).consistent(),
        agent.run(inputs).state.rank() <= 2 ==> !(agent.last_fetched(inputs) matches Some(
            Some(_),
        )),
        agent.run(inputs).state matches AgentStateView::UpdateFound(release)
            ==> agent.last_fetched(inputs) == Some(Some(release)),
        forall|release: ReleaseView|
            agent.run(inputs).step(Input::Tick).1 == RequestView::StageUpdate(release)
                ==> agent.last_fetched(inputs) == Some(Some(release)),
    decreases inputs.len(),
{
    if inputs.len() > 0 {
        let before = agent.run(inputs.drop_last());
        lemma_found_is_last_fetched(agent, inputs.drop_last());
        lemma_step_keeps_consistency(before, inputs.last());
        lemma_step_moves_one_place(before, inputs.last());
    }
}

/// No finalization without a green light given just before: the backend
/// is asked to finalize `release` only in the step in which the green
/// light is given, while `release` is staged.
pub proof fn lemma_finalize_needs_green_light(agent: AgentView, input: Input, release: ReleaseView)
    ensures
        agent.step(input).1 == RequestView::FinalizeUpdate(release) ==> agent.state
            == AgentStateView::UpdateStaged(release) && agent.green_light_given(input),
        agent.step(input).0.awaiting == Awaiting::Finalizing && agent.awaiting
            != Awaiting::Finalizing ==> agent.green_light_given(input) && (
        agent.step(input).1 matches RequestView::FinalizeUpdate(_)),
{
}

/// The agent comes to finalize only within the tick in which the green
/// light was given: the state moves to finalizing only on the backend's
/// reply to the request to finalize, for which the agent waits from the
/// step in which the green light is given until the next reply.
pub proof fn lemma_finalizing_only_after_green_light(
    agent: AgentView,
    input: Input,
    release: ReleaseView,
)
    ensures
        agent.step(input).0.state == AgentStateView::UpdateFinalizing(release) && agent.state
            != AgentStateView::UpdateFinalizing(release) ==> agent.state is UpdateStaged
            && agent.awaiting == Awaiting::Finalizing && input == Input::Reply(
            ReplyView::Release(Some(release)),
        ),
        agent.awaiting == Awaiting::Finalizing ==> agent.tick().0 == agent && (
        forall|reply: ReplyView| agent.resume(reply).0.awaiting == Awaiting::Nothing),
{
}

/// Whatever the inputs were: the agent of a run comes to finalize a
/// release only on the backend's reply to the request to finalize, and
/// only while the green light stands, that is right after it was given and
/// within the same tick.
pub proof fn lemma_finalizing_follows_green_light(
    agent: AgentView,
    inputs: Seq<Input>,
    input: Input,
    release: ReleaseView,
)
    requires
        agent.is_fresh(),
    ensures
        agent.run(inputs).awaiting == Awaiting::Finalizing ==> agent.green_light_stands(inputs),
        agent.run(inputs).step(input).0.state == AgentStateView::UpdateFinalizing(release)
            && agent.run(inputs).state != AgentStateView::UpdateFinalizing(release)
            ==> agent.green_light_stands(inputs) && input == Input::Reply(
            ReplyView::Release(Some(release)),
        ),
    decreases inputs.len(),
{
    if inputs.len() > 0 {
        let before = agent.run(inputs.drop_last());
        lemma_finalizing_follows_green_light(agent, inputs.drop_last(), inputs.last(), release);
        lemma_finalize_needs_green_light(before, inputs.last(), release);
    }
    lemma_finalizing_only_after_green_light(agent.run(inputs), input, release);
}

/// Fail-closed: unless the lock manager says yes, its reply gives no
/// permission. Whether no response arrived or one with another status,
/// the state stays, nothing is finalized, and the tick ends so that the
/// next one asks again.
pub proof fn lemma_manager_fails_closed(agent: AgentView, reply: ManagerReply)
    requires
        reply != ManagerReply::Status(STATUS_OK),
    ensures
        agent.resume(ReplyView::Manager(reply)).0.state == agent.state,
        agent.resume(ReplyView::Manager(reply)).0.awaiting == Awaiting::Nothing,
        agent.resume(ReplyView::Manager(reply)).1 == RequestView::Done,
{
}

/// With the strategy that never gives a green light, ticks leave an agent
/// with a staged update exactly as it is, however many they are, and ask
/// for nothing.
pub proof fn lemma_never_stays_staged(agent: AgentView, ticks: nat)
    requires
        agent.strategy == StrategyView::Never,
        agent.state is UpdateStaged,
        agent.awaiting == Awaiting::Nothing,
    ensures
        agent.run(Seq::new(ticks, |i: int| Input::Tick)) == agent,
        agent.tick() == (agent, RequestView::Done),
    decreases ticks,
{
    if ticks > 0 {
        let all = Seq::new(ticks, |i: int| Input::Tick);
        let fewer = Seq::new((ticks - 1) as nat, |i: int| Input::Tick);
        assert(all.drop_last() =~= fewer);
        lemma_never_stays_staged(agent, (ticks - 1) as nat);
    }
}

/// The inputs of a run in which every call succeeds at once, for a
/// strategy that answers yes by itself: six ticks, and after each of the
/// last four the reply that names the release.
pub open spec fn smooth_run(release: ReleaseView) -> Seq<Input> {
    seq![
        Input::Tick,
        Input::Tick,
        Input::Tick,
        Input::Reply(ReplyView::Release(Some(release))),
        Input::Tick,
        Input::Reply(ReplyView::Release(Some(release))),
        Input::Tick,
        Input::Reply(ReplyView::Release(Some(release))),
        Input::Tick,
        Input::Reply(ReplyView::Release(Some(release))),
    ]
}

/// How many ticks a run of inputs holds.
pub open spec fn ticks_in(inputs: Seq<Input>) -> nat
    decreases inputs.len(),
{
    if inputs.len() == 0 {
        0
    } else {
        ticks_in(inputs.drop_last()) + if inputs.last() is Tick {
            1nat
        } else {
            0nat
        }
    }
}

/// With the immediate strategy, and with collaborators that succeed at
/// once, a fresh agent comes to finalize the release within as many ticks
/// as there are states.
pub proof fn lemma_immediate_reaches_finalizing(agent: AgentView, release: ReleaseView)
    requires
        agent.is_fresh(),
        agent.strategy == StrategyView::Immediate,
    ensures
        agent.run(smooth_run(release)).state == AgentStateView::UpdateFinalizing(release),
        agent.run(smooth_run(release)).awaiting == Awaiting::Nothing,
        ticks_in(smooth_run(release)) == 6,
        ticks_in(smooth_run(release)) <= state_count(),
{
    let inputs = smooth_run(release);
    let yes = Input::Reply(ReplyView::Release(Some(release)));
    let s0 = inputs.take(0);
    let s1 = inputs.take(1);
    let s2 = inputs.take(2);
    let s3 = inputs.take(3);
    let s4 = inputs.take(4);
    let s5 = inputs.take(5);
    let s6 = inputs.take(6);
    let s7 = inputs.take(7);
    let s8 = inputs.take(8);
    let s9 = inputs.take(9);
    assert(s1.drop_last() =~= s0);
    assert(s2.drop_last() =~= s1);
    assert(s3.drop_last() =~= s2);
    assert(s4.drop_last() =~= s3);
    assert(s5.drop_last() =~= s4);
    assert(s6.drop_last() =~= s5);
    assert(s7.drop_last() =~= s6);
    assert(s8.drop_last() =~= s7);
    assert(s9.drop_last() =~= s8);
    assert(inputs.drop_last() =~= s9);
    assert(agent.run(s0) == agent);
    assert(agent.run(s1) == agent.settled_in(AgentStateView::Initialization));
    assert(agent.run(s2) == agent.settled_in(AgentStateView::Steady));
    assert(agent.run(s3) == agent.settled_in(AgentStateView::Steady).waiting_for(
        Awaiting::NextRelease,
    ));
    assert(agent.run(s4) == agent.settled_in(AgentStateView::UpdateFound(release)));
    assert(agent.run(s5).state == AgentStateView::UpdateFound(release) && agent.run(s5).awaiting
        == Awaiting::Staging);
    assert(agent.run(s6) == agent.settled_in(AgentStateView::UpdateInProgress(release)));
    assert(agent.run(s7).state == AgentStateView::UpdateInProgress(release) && agent.run(
        s7,
    ).awaiting == Awaiting::Progress);
    assert(agent.run(s8) == agent.settled_in(AgentStateView::UpdateStaged(release)));
    assert(agent.run(s9).state == AgentStateView::UpdateStaged(release) && agent.run(s9).awaiting
        == Awaiting::Finalizing);
    assert(ticks_in(s0) == 0);
    assert(ticks_in(s1) == 1);
    assert(ticks_in(s2) == 2);
    assert(ticks_in(s3) == 3);
    assert(ticks_in(s4) == 3);
    assert(ticks_in(s5) == 4);
    assert(ticks_in(s6) == 4);
    assert(ticks_in(s7) == 5);
    assert(ticks_in(s8) == 5);
    assert(ticks_in(s9) == 6);
}

} // verus!
