use devpulse::session::{Session, SessionRegistry, SessionError};

fn session(id: &str, transport: u64) -> Session {
    Session { id: String::from(id), transport, shell: None }
}

#[test]
fn close_session_twice_is_idempotent() {
    let mut reg = SessionRegistry::new();
    reg.insert(session("alpha", 1));
    reg.insert(session("beta", 2));
    let closed = reg.close_session(&String::from("alpha")).unwrap();
    assert_eq!(closed.transport, 1);
    assert!(closed.shell_channel.is_none());
    let again = reg.close_session(&String::from("alpha"));
    assert!(matches!(again, Err(SessionError::NotFound)));
    // the other session is untouched by either call
    assert_eq!(reg.transport_of(&String::from("beta")).unwrap(), 2);
}

#[test]
fn insert_overwrites_silently_on_id_collision() {
    let mut reg = SessionRegistry::new();
    reg.insert(session("dup", 10));
    reg.insert(session("dup", 20));
    assert_eq!(reg.transport_of(&String::from("dup")).unwrap(), 20);
    reg.close_session(&String::from("dup")).unwrap();
    assert!(matches!(
        reg.transport_of(&String::from("dup")),
        Err(SessionError::NotFound)
    ));
}

#[test]
fn second_shell_start_is_rejected_until_stopped() {
    let mut reg = SessionRegistry::new();
    reg.insert(session("s", 7));
    let id = String::from("s");
    assert!(reg.start_shell(&id, 100, 80, 24).is_ok());
    let second = reg.start_shell(&id, 101, 80, 24);
    assert!(matches!(second, Err(SessionError::ShellAlreadyActive)));
    assert_eq!(reg.stop_shell(&id), Some(100));
    assert!(reg.start_shell(&id, 102, 132, 43).is_ok());
    assert_eq!(reg.shell_channel_of(&id).unwrap(), 102);
}

#[test]
fn shell_start_needs_a_live_session() {
    let mut reg = SessionRegistry::new();
    let r = reg.start_shell(&String::from("ghost"), 1, 80, 24);
    assert!(matches!(r, Err(SessionError::NotFound)));
}

#[test]
fn stop_shell_is_idempotent_and_total() {
    let mut reg = SessionRegistry::new();
    reg.insert(session("s", 7));
    let id = String::from("s");
    assert_eq!(reg.stop_shell(&id), None);
    assert!(reg.start_shell(&id, 5, 80, 24).is_ok());
    assert_eq!(reg.stop_shell(&id), Some(5));
    assert_eq!(reg.stop_shell(&id), None);
    assert_eq!(reg.stop_shell(&String::from("ghost")), None);
}

#[test]
fn write_shell_passes_bytes_verbatim() {
    let mut reg = SessionRegistry::new();
    reg.insert(session("s", 7));
    let id = String::from("s");
    reg.start_shell(&id, 9, 80, 24).unwrap();
    let d = reg.write_shell(&id, vec![b'l', b's', b'\r']).unwrap();
    assert_eq!(d.channel, 9);
    assert_eq!(d.bytes, vec![b'l', b's', b'\r']);
    assert_eq!(d.throttle_ms, devpulse::shell::WRITE_THROTTLE_MS);
}

#[test]
fn write_shell_without_shell_or_session_fails() {
    let mut reg = SessionRegistry::new();
    reg.insert(session("s", 7));
    let r = reg.write_shell(&String::from("s"), vec![1]);
    assert!(matches!(r, Err(SessionError::NoShell)));
    let r = reg.write_shell(&String::from("ghost"), vec![1]);
    assert!(matches!(r, Err(SessionError::NotFound)));
}

#[test]
fn resize_shell_keeps_the_channel_and_records_the_size() {
    let mut reg = SessionRegistry::new();
    reg.insert(session("s", 7));
    let id = String::from("s");
    reg.start_shell(&id, 9, 80, 24).unwrap();
    let d = reg.resize_shell(&id, 132, 43).unwrap();
    assert_eq!(d.channel, 9);
    assert_eq!(d.cols, 132);
    assert_eq!(d.rows, 43);
    assert_eq!(reg.shell_channel_of(&id).unwrap(), 9);
}

#[test]
fn closing_a_session_hands_back_its_shell_channel() {
    let mut reg = SessionRegistry::new();
    reg.insert(session("s", 7));
    let id = String::from("s");
    reg.start_shell(&id, 42, 80, 24).unwrap();
    let closed = reg.close_session(&id).unwrap();
    assert_eq!(closed.transport, 7);
    assert_eq!(closed.shell_channel, Some(42));
}

#[test]
fn session_error_messages_are_descriptive() {
    assert_eq!(SessionError::NotFound.message(), "session not found");
    assert_eq!(
        SessionError::ShellAlreadyActive.message(),
        "an interactive shell is already active for this session"
    );
    assert_eq!(
        SessionError::NoShell.message(),
        "no interactive shell is active for this session"
    );
}

#[test]
fn contains_tracks_live_sessions() {
    let mut reg = SessionRegistry::new();
    assert!(!reg.contains(&String::from("a")));
    reg.insert(session("a", 1));
    assert!(reg.contains(&String::from("a")));
    reg.close_session(&String::from("a")).unwrap();
    assert!(!reg.contains(&String::from("a")));
}
