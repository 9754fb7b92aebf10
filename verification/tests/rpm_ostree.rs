use zincati::cincinnati::graph::Release;
use zincati::rpm_ostree::{
    call_returned, configure, finalize_update, stage_update, BackendCall, BackendError,
    CheckUpdateTxn, FinalizeUpdate, RpmOstreeClient, StageStep, StageUpdate,
};

fn release(version: &str) -> Release {
    Release::new(version.to_string(), format!("payload-{}", version))
}

fn stage(version: &str) -> StageUpdate {
    StageUpdate { release: release(version) }
}

#[test]
fn configured_client_has_nothing_pending() {
    assert_eq!(configure().pending, None);
}

#[test]
fn first_request_fills_the_slot_and_calls_the_backend() {
    let mut client = configure();
    assert_eq!(client.stage_update(stage("1.1.0")), StageStep::Call(release("1.1.0")));
    assert_eq!(client.pending, Some(release("1.1.0")));
}

#[test]
fn staging_the_same_release_twice_makes_one_call() {
    let mut client = configure();
    let steps = vec![client.stage_update(stage("1.1.0")), client.stage_update(stage("1.1.0"))];
    assert_eq!(steps[0], StageStep::Call(release("1.1.0")));
    assert_eq!(steps[1], StageStep::AlreadyPending(release("1.1.0")));
    assert_eq!(steps.iter().filter(|s| matches!(s, StageStep::Call(_))).count(), 1);
    assert_eq!(client.pending, Some(release("1.1.0")));
}

#[test]
fn many_requests_while_one_is_pending_make_one_call() {
    let mut client = configure();
    let mut calls = 0;
    for version in ["1.1.0", "1.1.0", "1.2.0", "1.1.0", "1.3.0", "1.1.0"].iter() {
        if let StageStep::Call(r) = client.stage_update(stage(version)) {
            assert_eq!(r, release("1.1.0"));
            calls += 1;
        }
        assert_eq!(client.pending, Some(release("1.1.0")));
    }
    assert_eq!(calls, 1);
}

#[test]
fn request_for_another_release_is_dropped() {
    let mut client = configure();
    client.stage_update(stage("1.1.0"));
    assert_eq!(client.stage_update(stage("1.2.0")), StageStep::Ignored);
    assert_eq!(client.pending, Some(release("1.1.0")));
}

#[test]
fn releases_that_differ_in_payload_only_are_not_the_same() {
    let mut client = configure();
    client.stage_update(StageUpdate { release: Release::new("1.1.0".to_string(), "a".to_string()) });
    assert_eq!(
        client.stage_update(StageUpdate {
            release: Release::new("1.1.0".to_string(), "b".to_string())
        }),
        StageStep::Ignored
    );
}

#[test]
fn return_of_the_call_frees_the_slot() {
    let mut client = configure();
    client.stage_update(stage("1.1.0"));
    assert_eq!(client.stage_returned(Ok(release("1.1.0"))), Ok(Some(release("1.1.0"))));
    assert_eq!(client.pending, None);
    assert_eq!(client.stage_update(stage("1.2.0")), StageStep::Call(release("1.2.0")));
}

#[test]
fn failure_of_the_call_is_told_and_frees_the_slot() {
    let mut client = configure();
    client.stage_update(stage("1.1.0"));
    assert_eq!(client.stage_returned(Err(BackendError::Ipc)), Err(BackendError::Ipc));
    assert_eq!(client.pending, None);
    assert_eq!(client.stage_update(stage("1.1.0")), StageStep::Call(release("1.1.0")));
}

#[test]
fn caller_is_told_the_release_that_the_backend_names() {
    let mut client = configure();
    client.stage_update(stage("1.1.0"));
    assert_eq!(client.stage_returned(Ok(release("1.1.0-r2"))), Ok(Some(release("1.1.0-r2"))));
}

#[test]
fn answer_at_once_for_requests_that_make_no_call() {
    assert_eq!(
        RpmOstreeClient::stage_answer(StageStep::AlreadyPending(release("1.1.0"))),
        Some(release("1.1.0"))
    );
    assert_eq!(RpmOstreeClient::stage_answer(StageStep::Ignored), None);
    assert_eq!(RpmOstreeClient::stage_answer(StageStep::Call(release("1.1.0"))), None);
}

#[test]
fn calls_name_their_release() {
    let client = configure();
    assert_eq!(stage_update(release("a")), BackendCall::StageDeployment(release("a")));
    assert_eq!(finalize_update(release("a")), BackendCall::FinalizeDeployment(release("a")));
    assert_eq!(
        client.check_update(CheckUpdateTxn { release: release("b") }),
        BackendCall::CheckDeployment(release("b"))
    );
    assert_eq!(
        client.finalize(FinalizeUpdate { release: release("c") }),
        BackendCall::FinalizeDeployment(release("c"))
    );
}

#[test]
fn return_of_any_call_is_told_as_it_is() {
    assert_eq!(call_returned(Ok(release("a"))), Ok(Some(release("a"))));
    assert_eq!(call_returned(Err(BackendError::Ipc)), Err(BackendError::Ipc));
}

#[test]
fn client_clone_is_equal() {
    let mut client = configure();
    assert_eq!(client.clone(), client);
    client.stage_update(stage("1.1.0"));
    assert_eq!(client.clone(), client);
}
