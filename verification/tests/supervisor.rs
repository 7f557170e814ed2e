use runner::supervisor::{
    ExecResponse, StartResponse, StopResponse, Supervisor, SupervisorState,
};

fn fresh() -> (Supervisor, tokio::sync::broadcast::Receiver<String>) {
    let (tx, rx) = tokio::sync::broadcast::channel(16);
    (Supervisor::new(tx), rx)
}

#[test]
fn full_lifecycle_follows_the_state_machine() {
    let (mut sup, mut rx) = fresh();
    assert_eq!(sup.current_state(), SupervisorState::Stopped);
    assert_eq!(sup.tracked_pid(), 0);
    assert!(!sup.is_running());

    assert_eq!(sup.begin_start(), StartResponse::Accepted);
    assert_eq!(sup.current_state(), SupervisorState::Starting);

    assert!(sup.complete_start(4242));
    assert_eq!(sup.current_state(), SupervisorState::Running);
    assert_eq!(sup.tracked_pid(), 4242);
    assert!(sup.is_running());

    assert_eq!(sup.request_stop(), StopResponse::Accepted);
    assert_eq!(sup.current_state(), SupervisorState::Stopping);
    assert_eq!(rx.try_recv().unwrap(), "/stop");
    assert!(sup.is_running());

    sup.on_exit();
    assert_eq!(sup.current_state(), SupervisorState::Stopped);
    assert_eq!(sup.tracked_pid(), 0);
    assert!(!sup.is_running());
}

#[test]
fn start_is_rejected_while_starting_or_running() {
    let (mut sup, _rx) = fresh();
    assert_eq!(sup.begin_start(), StartResponse::Accepted);
    assert_eq!(sup.begin_start(), StartResponse::AlreadyStarting);
    assert_eq!(sup.current_state(), SupervisorState::Starting);

    assert!(sup.complete_start(7));
    assert_eq!(sup.begin_start(), StartResponse::AlreadyRunning);
    assert_eq!(sup.current_state(), SupervisorState::Running);

    assert_eq!(sup.request_stop(), StopResponse::Accepted);
    assert_eq!(sup.begin_start(), StartResponse::AlreadyRunning);
}

#[test]
fn failed_launch_rolls_back_to_stopped() {
    let (mut sup, _rx) = fresh();
    assert_eq!(sup.begin_start(), StartResponse::Accepted);
    sup.set_tracked_pid(7);
    assert!(sup.abort_start());
    assert_eq!(sup.current_state(), SupervisorState::Stopped);
    assert_eq!(sup.tracked_pid(), 0);
    assert_eq!(sup.begin_start(), StartResponse::Accepted);
}

#[test]
fn stop_is_rejected_unless_running() {
    let (mut sup, _rx) = fresh();
    assert_eq!(sup.request_stop(), StopResponse::AlreadyStopped);

    // a stop while starting is rejected, not queued
    assert_eq!(sup.begin_start(), StartResponse::Accepted);
    assert_eq!(sup.request_stop(), StopResponse::AlreadyStopped);
    assert_eq!(sup.current_state(), SupervisorState::Starting);

    assert!(sup.complete_start(1));
    assert_eq!(sup.request_stop(), StopResponse::Accepted);
    assert_eq!(sup.request_stop(), StopResponse::AlreadyStopping);
}

#[test]
fn exec_enqueues_the_command_while_live() {
    let (mut sup, mut rx) = fresh();
    assert_eq!(sup.exec_command("list".to_string()), ExecResponse::NotRunning);

    sup.begin_start();
    assert_eq!(sup.exec_command("list".to_string()), ExecResponse::NotRunning);

    sup.complete_start(9);
    assert_eq!(sup.exec_command("list".to_string()), ExecResponse::Accepted);
    assert_eq!(rx.try_recv().unwrap(), "list");

    sup.request_stop();
    assert_eq!(rx.try_recv().unwrap(), "/stop");
    assert_eq!(sup.exec_command("save-all".to_string()), ExecResponse::Accepted);
    assert_eq!(rx.try_recv().unwrap(), "save-all");
}

#[test]
fn exec_is_accepted_even_with_no_subscribers() {
    let (tx, rx) = tokio::sync::broadcast::channel(16);
    drop(rx);
    let mut sup = Supervisor::new(tx);
    sup.begin_start();
    sup.complete_start(5);
    assert_eq!(sup.exec_command("list".to_string()), ExecResponse::Accepted);
}

#[test]
fn discovery_overwrites_the_tracked_pid() {
    let (mut sup, _rx) = fresh();
    sup.begin_start();
    sup.complete_start(100);
    sup.set_tracked_pid(2222);
    assert_eq!(sup.tracked_pid(), 2222);
    assert_eq!(sup.current_state(), SupervisorState::Running);
}
