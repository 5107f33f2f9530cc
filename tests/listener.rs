use std::sync::Arc;

use fdk::config::FdkEnv;
use fdk::error::RustFdkError;
use fdk::listener::{Action, Event, FdkListener, Phase, PRIVATE_SOCKET_MODE};
use fdk::logger::FdkRunner;

fn env(listener: Option<&str>, threshold: Option<&str>) -> Arc<FdkEnv> {
    Arc::new(FdkEnv {
        fn_listener: listener.map(|l| l.to_string()),
        fn_format: Some("http-stream".to_string()),
        fn_logframe_name: None,
        fn_logframe_hdr: None,
        fdk_log_threshold: threshold.map(|t| t.to_string()),
        fn_app_id: Some("app".to_string()),
        fn_fn_id: Some("fn".to_string()),
        fn_memory: Some("128".to_string()),
    })
}

fn listener(url: Option<&str>, threshold: Option<&str>) -> Result<FdkListener, RustFdkError> {
    let env = env(url, threshold);
    let runner = FdkRunner::new(Arc::clone(&env));
    FdkListener::new(env, runner)
}

fn fdk_message(r: Result<FdkListener, RustFdkError>) -> String {
    match r {
        Err(RustFdkError::Fdk(e)) => e.message,
        Err(RustFdkError::Io(e)) => panic!("unexpected I/O error {:?}", e),
        Ok(_) => panic!("expected an error"),
    }
}

fn io_failure() -> Event {
    Event::Failed { error: std::io::Error::new(std::io::ErrorKind::AddrInUse, "in use") }
}

#[test]
fn unix_listener_gives_both_paths() {
    let l = listener(Some("unix:/tmp/test.sock"), None).unwrap();
    assert_eq!(l.socket_path(), "tmp/test.sock");
    assert_eq!(l.private_socket_path(), "tmp/test.sock.private");
    assert_eq!(l.phase(), Phase::Unbound);
    assert_eq!(l.env().fn_app_id.as_deref(), Some("app"));
    assert_eq!(l.runner().get_log_threshold(), 1);
}

#[test]
fn prefix_is_stripped_whole() {
    let l = listener(Some("unix://tmp/x.sock"), None).unwrap();
    assert_eq!(l.socket_path(), "/tmp/x.sock");
    assert_eq!(l.private_socket_path(), "/tmp/x.sock.private");
}

#[test]
fn missing_listener_is_refused() {
    match listener(None, None) {
        Err(RustFdkError::Fdk(e)) => {
            assert_eq!(e.message, "No listener url provided");
            assert!(e.backtrace.is_empty());
        }
        _ => panic!("expected an Fdk error"),
    }
}

#[test]
fn non_unix_listener_is_refused() {
    for url in ["tcp://localhost:8080", "", "unix:", "unix:relative.sock", "UNIX:/tmp/a", "/tmp/x.sock"] {
        assert_eq!(fdk_message(listener(Some(url), None)), "Listener url is not a unix socket");
    }
}

#[test]
fn binding_comes_first() {
    let l = listener(Some("unix:/tmp/test.sock"), None).unwrap();
    match l.pending_action() {
        Action::Bind { path } => assert_eq!(path, "tmp/test.sock.private"),
        other => panic!("expected a bind, got {:?}", other),
    }
}

#[test]
fn publish_runs_bind_open_widen_link() {
    let mut l = listener(Some("unix:/tmp/test.sock"), None).unwrap();
    match l.step(Event::Succeeded) {
        Action::Open { path } => assert_eq!(path, "tmp/test.sock.private"),
        other => panic!("expected an open, got {:?}", other),
    }
    assert_eq!(l.phase(), Phase::Bound);
    match l.step(Event::Succeeded) {
        Action::SetPermissions { mode } => {
            assert_eq!(mode, 0o666);
            assert_eq!(mode, PRIVATE_SOCKET_MODE);
        }
        other => panic!("expected new permissions, got {:?}", other),
    }
    assert_eq!(l.phase(), Phase::Opened);
    match l.step(Event::Succeeded) {
        Action::Symlink { original, link } => {
            assert_eq!(original, "tmp/test.sock.private");
            assert_eq!(link, "tmp/test.sock");
        }
        other => panic!("expected a link, got {:?}", other),
    }
    assert_eq!(l.phase(), Phase::Widened);
    match l.step(Event::Succeeded) {
        Action::Done { message } => assert_eq!(message, None),
        other => panic!("expected the end, got {:?}", other),
    }
    assert_eq!(l.phase(), Phase::Published);
    assert!(matches!(l.step(Event::Succeeded), Action::Idle));
    assert!(matches!(l.pending_action(), Action::Idle));
}

#[test]
fn publish_logs_mapping_at_debug() {
    let mut l = listener(Some("unix:/tmp/test.sock"), Some("0")).unwrap();
    for _ in 0..3 {
        l.step(Event::Succeeded);
    }
    match l.step(Event::Succeeded) {
        Action::Done { message } => assert_eq!(
            message.as_deref(),
            Some("Listening on tmp/test.sock.private->tmp/test.sock")
        ),
        other => panic!("expected the end, got {:?}", other),
    }
}

#[test]
fn failed_bind_never_links() {
    let mut l = listener(Some("unix:/tmp/test.sock"), None).unwrap();
    match l.step(io_failure()) {
        Action::Abort { error: RustFdkError::Io(e) } => {
            assert_eq!(e.kind(), std::io::ErrorKind::AddrInUse)
        }
        other => panic!("expected the I/O error, got {:?}", other),
    }
    assert_eq!(l.phase(), Phase::Failed);
    for _ in 0..4 {
        assert!(matches!(l.step(Event::Succeeded), Action::Idle));
        assert_eq!(l.phase(), Phase::Failed);
    }
}

#[test]
fn failed_open_is_reported_as_inaccessible() {
    let mut l = listener(Some("unix:/tmp/test.sock"), None).unwrap();
    l.step(Event::Succeeded);
    match l.step(io_failure()) {
        Action::Abort { error: RustFdkError::Fdk(e) } => {
            assert_eq!(e.message, "Cannot access private socket file");
            assert!(e.backtrace.is_empty());
        }
        other => panic!("expected the access error, got {:?}", other),
    }
    assert_eq!(l.phase(), Phase::Failed);
}

#[test]
fn failed_permissions_stop_before_link() {
    let mut l = listener(Some("unix:/tmp/test.sock"), None).unwrap();
    l.step(Event::Succeeded);
    l.step(Event::Succeeded);
    assert!(matches!(l.step(io_failure()), Action::Abort { error: RustFdkError::Io(_) }));
    assert!(matches!(l.step(Event::Succeeded), Action::Idle));
}

#[test]
fn failed_link_is_handed_on() {
    let mut l = listener(Some("unix:/tmp/test.sock"), None).unwrap();
    for _ in 0..3 {
        l.step(Event::Succeeded);
    }
    assert!(matches!(l.step(io_failure()), Action::Abort { error: RustFdkError::Io(_) }));
    assert_eq!(l.phase(), Phase::Failed);
}

#[test]
fn listener_path_keeps_every_character() {
    let l = listener(Some("unix:/var/run/fn é/sock"), None).unwrap();
    assert_eq!(l.socket_path(), "var/run/fn é/sock");
    assert_eq!(l.private_socket_path(), "var/run/fn é/sock.private");
}
