use zincati::cincinnati::graph::Release;
use zincati::finalize::{
    configure, FinalizeStep, Finalizer, NewPending, ReportSteadyState, TriggerFinalize,
    RETRY_INTERVAL_SECS,
};
use zincati::rpm_ostree::FinalizeDeployment;
use zincati::strategy::remote_http::{HttpParams, ManagerReply, ManagerRequest};
use zincati::strategy::{StratImmediate, StratNever, StratPeriodic, StratRemoteHTTP, UpStrategy};
use zincati::update_agent::identity::Identity;

fn release(version: &str) -> Release {
    Release::new(version.to_string(), format!("payload-{}", version))
}

fn identity() -> Identity {
    Identity {
        arch: "amd64".to_string(),
        current_version: "1.0.0".to_string(),
        group: "default".to_string(),
        node_uuid: [7u8; 16],
        platform: "metal-bios".to_string(),
        stream: "stable".to_string(),
        throttle_permille: None,
    }
}

fn remote() -> UpStrategy {
    UpStrategy::Http(StratRemoteHTTP { base_url: "http://localhost:9999/".to_string() })
}

fn finalizer(strategy: UpStrategy) -> Finalizer {
    configure(strategy, identity())
}

fn order(version: &str) -> FinalizeDeployment {
    FinalizeDeployment { release: release(version) }
}

#[test]
fn configured_finalizer_holds_nothing_and_is_not_steady() {
    let f = finalizer(remote());
    assert_eq!(f.pending, None);
    assert!(!f.steady);
    assert_eq!(f.identity, identity());
    assert_eq!(f.strategy, remote());
    assert_eq!(RETRY_INTERVAL_SECS, 20);
}

#[test]
fn first_staged_release_stays_pending() {
    let mut f = finalizer(UpStrategy::Immediate(StratImmediate {}));
    assert_eq!(f.new_pending(NewPending { payload: release("1.1.0") }), TriggerFinalize {});
    assert_eq!(f.pending, Some(release("1.1.0")));
    f.new_pending(NewPending { payload: release("1.2.0") });
    assert_eq!(f.pending, Some(release("1.1.0")));
}

#[test]
fn nothing_pending_means_nothing_to_finalize() {
    let mut f = finalizer(UpStrategy::Immediate(StratImmediate {}));
    assert_eq!(f.trigger_finalize(TriggerFinalize {}), FinalizeStep::Idle);
    f.report_steady_state(ReportSteadyState {});
    assert_eq!(f.trigger_finalize(TriggerFinalize {}), FinalizeStep::Idle);
}

#[test]
fn no_finalization_before_steady_state() {
    let mut f = finalizer(UpStrategy::Immediate(StratImmediate {}));
    f.new_pending(NewPending { payload: release("1.1.0") });
    assert_eq!(f.trigger_finalize(TriggerFinalize {}), FinalizeStep::NotSteady);
    assert_eq!(f.green_light_replied(ManagerReply::Status(200)), None);
}

#[test]
fn immediate_strategy_confirms_and_finalizes_at_once() {
    let mut f = finalizer(UpStrategy::Immediate(StratImmediate {}));
    assert_eq!(f.report_steady_state(ReportSteadyState {}), None);
    assert!(f.steady);
    f.new_pending(NewPending { payload: release("1.1.0") });
    assert_eq!(f.trigger_finalize(TriggerFinalize {}), FinalizeStep::Finalize(order("1.1.0")));
}

#[test]
fn periodic_strategy_confirms_and_finalizes_at_once() {
    let mut f = finalizer(UpStrategy::Periodic(StratPeriodic {}));
    assert_eq!(f.report_steady_state(ReportSteadyState {}), None);
    assert!(f.steady);
    f.new_pending(NewPending { payload: release("1.1.0") });
    assert_eq!(f.trigger_finalize(TriggerFinalize {}), FinalizeStep::Finalize(order("1.1.0")));
}

#[test]
fn never_strategy_neither_confirms_nor_finalizes() {
    let mut f = finalizer(UpStrategy::Never(StratNever {}));
    f.new_pending(NewPending { payload: release("1.1.0") });
    for _ in 0..10 {
        assert_eq!(f.report_steady_state(ReportSteadyState {}), None);
        assert!(!f.steady);
        assert_eq!(f.trigger_finalize(TriggerFinalize {}), FinalizeStep::NotSteady);
    }
    f.steady = true;
    for _ in 0..10 {
        assert_eq!(f.trigger_finalize(TriggerFinalize {}), FinalizeStep::Denied);
    }
    assert_eq!(f.pending, Some(release("1.1.0")));
}

#[test]
fn remote_strategy_reports_steady_state_to_the_manager() {
    let mut f = finalizer(remote());
    let request = f.report_steady_state(ReportSteadyState {});
    assert_eq!(
        request,
        Some(ManagerRequest {
            endpoint: "http://localhost:9999/v1/steady-state".to_string(),
            params: HttpParams::from(identity()),
        })
    );
    assert!(!f.steady);
    f.steady_replied(ManagerReply::Status(503));
    assert!(!f.steady);
    f.steady_replied(ManagerReply::Unreachable);
    assert!(!f.steady);
    f.steady_replied(ManagerReply::Status(200));
    assert!(f.steady);
    assert_eq!(f.report_steady_state(ReportSteadyState {}), None);
    f.steady_replied(ManagerReply::Status(500));
    assert!(f.steady);
}

#[test]
fn remote_strategy_asks_the_manager_for_the_green_light() {
    let mut f = finalizer(remote());
    f.steady = true;
    f.new_pending(NewPending { payload: release("1.1.0") });
    assert_eq!(
        f.trigger_finalize(TriggerFinalize {}),
        FinalizeStep::Ask(ManagerRequest {
            endpoint: "http://localhost:9999/v1/pre-reboot".to_string(),
            params: HttpParams::from(identity()),
        })
    );
    assert_eq!(f.green_light_replied(ManagerReply::Status(200)), Some(order("1.1.0")));
}

#[test]
fn fail_closed_no_finalization_without_a_yes() {
    let mut f = finalizer(remote());
    f.steady = true;
    f.new_pending(NewPending { payload: release("1.1.0") });
    assert_eq!(f.green_light_replied(ManagerReply::Unreachable), None);
    for status in [0u16, 201, 204, 403, 404, 500].iter() {
        assert_eq!(f.green_light_replied(ManagerReply::Status(*status)), None);
    }
    assert_eq!(f.pending, Some(release("1.1.0")));
}

#[test]
fn yes_without_pending_release_finalizes_nothing() {
    let mut f = finalizer(remote());
    f.steady = true;
    assert_eq!(f.green_light_replied(ManagerReply::Status(200)), None);
}

#[test]
fn remote_strategy_that_cannot_ask_fails() {
    let mut f = finalizer(UpStrategy::Http(StratRemoteHTTP { base_url: "mailto:a@b".to_string() }));
    assert_eq!(f.report_steady_state(ReportSteadyState {}), None);
    assert!(!f.steady);
    f.steady = true;
    f.new_pending(NewPending { payload: release("1.1.0") });
    assert_eq!(f.trigger_finalize(TriggerFinalize {}), FinalizeStep::Failed);
}

#[test]
fn finalized_release_is_pending_no_more() {
    let mut f = finalizer(UpStrategy::Immediate(StratImmediate {}));
    f.report_steady_state(ReportSteadyState {});
    f.new_pending(NewPending { payload: release("1.1.0") });
    f.finalize_returned(false);
    assert_eq!(f.pending, Some(release("1.1.0")));
    assert_eq!(f.trigger_finalize(TriggerFinalize {}), FinalizeStep::Finalize(order("1.1.0")));
    f.finalize_returned(true);
    assert_eq!(f.pending, None);
    assert!(f.steady);
    assert_eq!(f.trigger_finalize(TriggerFinalize {}), FinalizeStep::Idle);
    f.new_pending(NewPending { payload: release("1.2.0") });
    assert_eq!(f.pending, Some(release("1.2.0")));
}
