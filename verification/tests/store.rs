//! The door to the workflow store.

use karvex::app::store::{
    unix_now_ms, HandleState, Opening, StoreUnavailable, Wait, WorkflowStoreHandle,
    WORKFLOW_STORE_ERROR_CODE, WORKFLOW_UNAVAILABLE_CODE,
};

fn open_handle() -> WorkflowStoreHandle {
    let mut handle = WorkflowStoreHandle::new();
    assert_eq!(handle.open(Opening::Ready(Ok(()))), Ok(()));
    handle
}

#[test]
fn a_call_runs_on_the_store_thread_and_returns_its_answer() {
    let handle = open_handle();
    let workflows: Vec<String> = handle
        .call(Wait::Answered(Vec::new()))
        .expect("the store thread answers");
    assert_eq!(workflows.len(), 0);
}

#[test]
fn a_failing_job_is_reported_to_the_caller_that_waited_for_it() {
    let handle = open_handle();
    let answer: Result<(), String> = handle
        .call(Wait::Answered(Err("deliberate failure".to_string())))
        .expect("the store thread answers");
    assert_eq!(answer, Err("deliberate failure".to_string()));
}

#[test]
fn an_unopened_handle_reports_itself_as_unopened() {
    let handle = WorkflowStoreHandle::new();
    assert_eq!(handle.state, HandleState::Unopened);
    assert!(handle.needs_opening());
    assert_eq!(handle.state_name(), "unopened");
}

#[test]
fn a_handle_that_could_not_open_keeps_reporting_the_same_failure() {
    let mut handle = WorkflowStoreHandle {
        state: HandleState::Unavailable(StoreUnavailable::from_error(
            WORKFLOW_UNAVAILABLE_CODE,
            "held by pid 4242",
        )),
    };
    let first = handle
        .call(Wait::Answered(()))
        .expect_err("the subsystem is unavailable");
    assert_eq!(
        handle.open(Opening::Ready(Ok(()))),
        Err(StoreUnavailable::from_error(
            WORKFLOW_UNAVAILABLE_CODE,
            "held by pid 4242"
        ))
    );
    let second = handle
        .call(Wait::Answered(()))
        .expect_err("the subsystem is unavailable");
    assert_eq!(first, second);
    assert_eq!(first.code, WORKFLOW_UNAVAILABLE_CODE);
    assert_eq!(handle.state_name(), "unavailable");
}

#[test]
fn every_way_not_to_answer_has_its_own_words() {
    let handle = open_handle();
    assert_eq!(handle.state_name(), "open");
    for (wait, message) in [
        (
            Wait::TimedOut,
            "the workflow store did not answer within 30s",
        ),
        (
            Wait::Disconnected,
            "the workflow store thread is no longer running",
        ),
        (
            Wait::NotSubmitted,
            "the workflow store thread is no longer running",
        ),
    ] {
        let unavailable = handle.call::<()>(wait).expect_err("no answer");
        assert_eq!(unavailable.code, WORKFLOW_STORE_ERROR_CODE);
        assert_eq!(unavailable.message, message);
    }
    for (opening, message) in [
        (
            Opening::NoThread {
                error: "too many".to_string(),
            },
            "the workflow store thread could not be started: too many",
        ),
        (
            Opening::Silent,
            "the workflow store thread is no longer running",
        ),
        (
            Opening::Ready(Err(StoreUnavailable::runtime_not_built("no reactor"))),
            "the workflow store runtime could not be built: no reactor",
        ),
    ] {
        let mut handle = WorkflowStoreHandle::new();
        let unavailable = handle.open(opening).expect_err("it does not open");
        assert_eq!(unavailable.message, message);
        assert!(!handle.needs_opening());
    }
}

#[test]
fn the_clock_saturates() {
    assert_eq!(unix_now_ms(None), 0);
    assert_eq!(unix_now_ms(Some(1_700_000_000_000)), 1_700_000_000_000);
    assert_eq!(unix_now_ms(Some(u128::MAX)), u64::MAX);
}
