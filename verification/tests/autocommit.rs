use summa::search_engine::autocommit::{AutocommitScheduler, SchedulerAction, SchedulerEvent, SchedulerState};

#[test]
fn no_interval_means_no_schedule() {
    let mut scheduler = AutocommitScheduler::new(None);
    assert_eq!(scheduler.state(), SchedulerState::Idle);
    assert_eq!(scheduler.interval_ms(), None);
    assert!(!scheduler.is_running());
    assert_eq!(scheduler.on_event(SchedulerEvent::Tick), SchedulerAction::Ignore);
    assert_eq!(scheduler.on_event(SchedulerEvent::Shutdown), SchedulerAction::Ignore);
    assert_eq!(scheduler.state(), SchedulerState::Idle);
}

#[test]
fn configured_interval_runs_the_schedule() {
    let scheduler = AutocommitScheduler::new(Some(100));
    assert_eq!(scheduler.state(), SchedulerState::Running);
    assert_eq!(scheduler.interval_ms(), Some(100));
    assert!(scheduler.is_running());
}

#[test]
fn every_tick_asks_for_a_best_effort_commit() {
    let mut scheduler = AutocommitScheduler::new(Some(250));
    assert_eq!(scheduler.on_event(SchedulerEvent::Tick), SchedulerAction::Commit { best_effort: true });
    assert_eq!(scheduler.on_event(SchedulerEvent::Tick), SchedulerAction::Commit { best_effort: true });
    assert_eq!(scheduler.state(), SchedulerState::Running);
    assert_eq!(scheduler.interval_ms(), Some(250));
}

#[test]
fn shutdown_ends_the_loop_without_a_commit() {
    let mut scheduler = AutocommitScheduler::new(Some(100));
    assert_eq!(scheduler.on_event(SchedulerEvent::Tick), SchedulerAction::Commit { best_effort: true });
    assert_eq!(scheduler.on_event(SchedulerEvent::Shutdown), SchedulerAction::Exit);
    assert_eq!(scheduler.state(), SchedulerState::Stopped);
    assert!(!scheduler.is_running());
}

#[test]
fn nothing_is_committed_after_shutdown() {
    let mut scheduler = AutocommitScheduler::new(Some(100));
    assert_eq!(scheduler.on_event(SchedulerEvent::Shutdown), SchedulerAction::Exit);
    assert_eq!(scheduler.on_event(SchedulerEvent::Tick), SchedulerAction::Ignore);
    assert_eq!(scheduler.on_event(SchedulerEvent::Shutdown), SchedulerAction::Ignore);
    assert_eq!(scheduler.state(), SchedulerState::Stopped);
    assert_eq!(scheduler.interval_ms(), Some(100));
}

#[test]
fn interval_of_zero_is_raised_to_the_shortest() {
    let mut scheduler = AutocommitScheduler::new(Some(0));
    assert_eq!(scheduler.interval_ms(), Some(1));
    assert_eq!(scheduler.state(), SchedulerState::Running);
    assert_eq!(scheduler.on_event(SchedulerEvent::Tick), SchedulerAction::Commit { best_effort: true });
    assert_eq!(scheduler.interval_ms(), Some(1));
    assert_eq!(AutocommitScheduler::new(Some(1)).interval_ms(), Some(1));
    assert_eq!(AutocommitScheduler::new(Some(u64::MAX)).interval_ms(), Some(u64::MAX));
}
