use gdsyncer::lifecycle::{Server, ShutdownAction, StartAction, ToggleAction};

fn server() -> Server {
    Server::new(
        "0.0.0.0:8008".to_string(),
        "secret".to_string(),
        "1.0".to_string(),
    )
}

#[test]
fn new_server_is_stopped_with_empty_registry() {
    let s = server();
    assert!(!s.is_running());
    assert_eq!(s.service.users.len(), 0);
}

#[test]
fn shutdown_while_stopped_is_a_no_op() {
    let mut s = server();
    let action = s.shutdown();
    assert_eq!(action, ShutdownAction::AlreadyStopped);
    assert!(!s.is_running());
    assert_eq!(s.service.users.len(), 0);
}

#[test]
fn start_while_running_binds_no_second_listener() {
    let mut s = server();
    assert_eq!(s.start(), StartAction::BindListener);
    assert!(s.is_running());
    assert_eq!(s.start(), StartAction::AlreadyRunning);
    assert!(s.is_running());
}

#[test]
fn toggle_twice_from_stopped_runs_then_stops() {
    let mut s = server();
    assert_eq!(s.start_or_shutdown(), ToggleAction::BindListener);
    assert!(s.is_running());
    assert_eq!(s.start_or_shutdown(), ToggleAction::SignalStop);
    assert!(!s.is_running());
}

#[test]
fn failed_bind_rolls_back_to_stopped() {
    let mut s = server();
    assert_eq!(s.start(), StartAction::BindListener);
    s.listener_exited();
    assert!(!s.is_running());
    assert_eq!(s.service.users.len(), 0);
}

#[test]
fn shutdown_after_joins_keeps_the_registry() {
    let mut s = server();
    s.start();
    let req = gdsyncer::auth::JoinRequest {
        name: "Ada".to_string(),
        password: "secret".to_string(),
        version: "1.0".to_string(),
    };
    s.service.join(req).unwrap();
    assert_eq!(s.service.users.len(), 1);
    assert_eq!(s.shutdown(), ShutdownAction::SignalStop);
    assert!(!s.is_running());
    assert_eq!(s.service.users.len(), 1);
}
