use graffiti::watcher::{poll_action, run_watcher, watcher_step, WatcherAction};

#[test]
fn poll_decisions() {
    assert_eq!(poll_action(0), WatcherAction::Idle);
    assert_eq!(poll_action(-1), WatcherAction::Stop);
    assert_eq!(poll_action(1), WatcherAction::Wake);
    // the poll result is not interpreted as a count: any other value means
    // something is pending
    assert_eq!(poll_action(17), WatcherAction::Wake);
}

#[test]
fn cancellation_stops_whatever_the_poll_said() {
    assert_eq!(watcher_step(true, 0), WatcherAction::Stop);
    assert_eq!(watcher_step(true, 5), WatcherAction::Stop);
    assert_eq!(watcher_step(false, 5), WatcherAction::Wake);
    assert_eq!(watcher_step(false, 0), WatcherAction::Idle);
    assert_eq!(watcher_step(false, -1), WatcherAction::Stop);
}

#[test]
fn quiescent_backend_never_wakes() {
    let polls = vec![0i32; 50];
    let actions = run_watcher(&polls);
    assert_eq!(actions.len(), 50);
    assert!(actions.iter().all(|a| *a == WatcherAction::Idle));
}

#[test]
fn readiness_wakes_at_that_poll() {
    // descriptor becomes ready at the fourth poll
    let polls = vec![0i32, 0, 0, 5, 0];
    let actions = run_watcher(&polls);
    assert_eq!(
        actions,
        vec![
            WatcherAction::Idle,
            WatcherAction::Idle,
            WatcherAction::Idle,
            WatcherAction::Wake,
            WatcherAction::Idle,
        ]
    );
}

#[test]
fn poll_error_stops_watcher_only() {
    let polls = vec![0i32, 3, -1, 7, 0, -1];
    // the run itself returns normally: the error is contained in the watcher
    let actions = run_watcher(&polls);
    assert_eq!(
        actions,
        vec![WatcherAction::Idle, WatcherAction::Wake, WatcherAction::Stop]
    );
}

#[test]
fn empty_run_takes_no_action() {
    let actions = run_watcher(&Vec::new());
    assert!(actions.is_empty());
}
