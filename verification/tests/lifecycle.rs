use summa::errors::SummaError;
use summa::search_engine::lifecycle::{HolderOperation, HolderState, Teardown, TeardownStep};

fn steps_of(has_autocommit: bool, remove_storage: bool) -> Vec<TeardownStep> {
    let mut teardown = Teardown::begin(has_autocommit, remove_storage);
    let mut steps = Vec::new();
    while let Some(step) = teardown.next_step() {
        steps.push(step);
        teardown.record(Ok(()));
    }
    assert!(teardown.finish().is_ok());
    steps
}

#[test]
fn stop_without_schedule_only_commits() {
    assert_eq!(steps_of(false, false), vec![TeardownStep::FinalCommit]);
}

#[test]
fn stop_with_schedule_stops_it_before_the_last_commit() {
    assert_eq!(steps_of(true, false), vec![TeardownStep::StopAutocommit, TeardownStep::FinalCommit]);
}

#[test]
fn delete_removes_storage_after_the_last_commit() {
    assert_eq!(steps_of(false, true), vec![TeardownStep::FinalCommit, TeardownStep::RemoveStorage]);
    assert_eq!(
        steps_of(true, true),
        vec![TeardownStep::StopAutocommit, TeardownStep::FinalCommit, TeardownStep::RemoveStorage]
    );
}

#[test]
fn states_of_a_delete_that_goes_through() {
    let mut teardown = Teardown::begin(true, true);
    assert_eq!(teardown.state(), HolderState::Stopping);
    teardown.record(Ok(()));
    assert_eq!(teardown.state(), HolderState::Stopping);
    teardown.record(Ok(()));
    assert_eq!(teardown.state(), HolderState::Stopped);
    teardown.record(Ok(()));
    assert_eq!(teardown.state(), HolderState::Deleted);
    assert_eq!(teardown.next_step(), None);
    assert!(teardown.finish().is_ok());
}

#[test]
fn stop_that_goes_through_keeps_the_data() {
    let mut teardown = Teardown::begin(false, false);
    teardown.record(Ok(()));
    assert_eq!(teardown.state(), HolderState::Stopped);
    assert_eq!(teardown.next_step(), None);
    assert!(teardown.finish().is_ok());
}

#[test]
fn failed_last_commit_fails_the_stop() {
    let mut teardown = Teardown::begin(true, false);
    teardown.record(Ok(()));
    assert_eq!(teardown.next_step(), Some(TeardownStep::FinalCommit));
    teardown.record(Err(SummaError::ShutdownFailure));
    assert_eq!(teardown.next_step(), None);
    assert_eq!(teardown.state(), HolderState::Stopping);
    assert!(matches!(teardown.finish(), Err(SummaError::ShutdownFailure)));
}

#[test]
fn failed_schedule_stop_skips_the_last_commit() {
    let mut teardown = Teardown::begin(true, true);
    assert_eq!(teardown.next_step(), Some(TeardownStep::StopAutocommit));
    teardown.record(Err(SummaError::FieldDoesNotExist("title".to_string())));
    assert_eq!(teardown.next_step(), None);
    assert_eq!(teardown.state(), HolderState::Stopping);
    assert!(matches!(teardown.finish(), Err(SummaError::FieldDoesNotExist(name)) if name == "title"));
}

#[test]
fn failed_removal_leaves_the_index_stopped() {
    let mut teardown = Teardown::begin(false, true);
    teardown.record(Ok(()));
    assert_eq!(teardown.next_step(), Some(TeardownStep::RemoveStorage));
    let failure = std::io::Error::new(std::io::ErrorKind::PermissionDenied, "read-only storage");
    teardown.record(Err(SummaError::IoError(failure)));
    assert_eq!(teardown.next_step(), None);
    assert_eq!(teardown.state(), HolderState::Stopped);
    match teardown.finish() {
        Err(SummaError::IoError(failure)) => assert_eq!(failure.kind(), std::io::ErrorKind::PermissionDenied),
        other => panic!("expected an error of storage, got {:?}", other),
    }
}

#[test]
fn outcome_without_pending_step_changes_nothing() {
    let mut teardown = Teardown::begin(false, false);
    teardown.record(Ok(()));
    teardown.record(Err(SummaError::ShutdownFailure));
    teardown.record(Ok(()));
    assert_eq!(teardown.state(), HolderState::Stopped);
    assert_eq!(teardown.next_step(), None);
    assert!(teardown.finish().is_ok());
}

#[test]
fn first_error_is_kept() {
    let mut teardown = Teardown::begin(true, true);
    teardown.record(Err(SummaError::ShutdownFailure));
    teardown.record(Err(SummaError::FieldDoesNotExist("later".to_string())));
    assert!(matches!(teardown.finish(), Err(SummaError::ShutdownFailure)));
}

#[test]
fn index_walks_from_creation_to_deletion() {
    let created = HolderState::Uninitialized.after(HolderOperation::Create);
    assert_eq!(created, Some(HolderState::Created));
    let opened = HolderState::Created.after(HolderOperation::Open);
    assert_eq!(opened, Some(HolderState::Opened));
    let serving = HolderState::Opened.after(HolderOperation::Serve);
    assert_eq!(serving, Some(HolderState::Serving));
    assert!(HolderState::Serving.is_serving());
    assert_eq!(HolderState::Serving.after(HolderOperation::Stop), Some(HolderState::Stopped));
    assert_eq!(HolderState::Serving.after(HolderOperation::Delete), Some(HolderState::Deleted));
}

#[test]
fn stopped_index_can_be_opened_again() {
    assert_eq!(HolderState::Stopped.after(HolderOperation::Open), Some(HolderState::Opened));
    assert!(!HolderState::Stopped.is_serving());
}

#[test]
fn operations_out_of_turn_are_refused() {
    assert_eq!(HolderState::Uninitialized.after(HolderOperation::Open), None);
    assert_eq!(HolderState::Created.after(HolderOperation::Create), None);
    assert_eq!(HolderState::Created.after(HolderOperation::Stop), None);
    assert_eq!(HolderState::Stopped.after(HolderOperation::Stop), None);
    assert_eq!(HolderState::Stopping.after(HolderOperation::Serve), None);
    assert_eq!(HolderState::Deleted.after(HolderOperation::Open), None);
    assert_eq!(HolderState::Deleted.after(HolderOperation::Delete), None);
}
