use devpulse::auth::{
    plan_authentication, complete_authentication, session_id, AuthError, Credential,
    TransportEvent,
};
use devpulse::records::Server;

fn server(method: &str, password: Option<&str>, key_path: Option<&str>) -> Server {
    Server {
        id: String::from("id-1"),
        name: String::from("box"),
        // an address that cannot be reached: planning must fail before it matters
        ip: String::from("203.0.113.1"),
        ssh_user: String::from("root"),
        ssh_port: 22,
        auth_method: String::from(method),
        password: password.map(String::from),
        ssh_key_path: key_path.map(String::from),
        ssh_key: String::new(),
        server_type: String::from("linux"),
        status: String::from("unknown"),
        mac_address: None,
        wol_enabled: None,
        shutdown_command: None,
    }
}

#[test]
fn password_method_without_password_fails_before_any_connection() {
    let err = plan_authentication(&server("password", None, None)).unwrap_err();
    let msg = err.message();
    assert_eq!(msg, "missing credential: the password method requires a password");
    // the error is a configuration error, not a connection error
    assert!(!msg.contains("connection"));
}

#[test]
fn empty_password_counts_as_missing() {
    let err = plan_authentication(&server("password", Some(""), None)).unwrap_err();
    assert!(matches!(err, AuthError::MissingPassword));
}

#[test]
fn password_method_with_password_builds_the_plan() {
    let plan = plan_authentication(&server("password", Some("hunter2"), None)).unwrap();
    assert_eq!(plan.host, "203.0.113.1");
    assert_eq!(plan.port, 22);
    assert_eq!(plan.username, "root");
    match plan.credential {
        Credential::Password(p) => assert_eq!(p, "hunter2"),
        Credential::KeyFile(_) => panic!("expected a password credential"),
    }
}

#[test]
fn key_method_needs_a_key_path() {
    let err = plan_authentication(&server("key", None, None)).unwrap_err();
    assert!(matches!(err, AuthError::MissingKeyPath));
    assert_eq!(
        err.message(),
        "missing credential: the key method requires a key-file path"
    );
}

#[test]
fn key_method_with_path_builds_the_plan() {
    let plan = plan_authentication(&server("key", None, Some("/home/u/.ssh/id_ed25519"))).unwrap();
    match plan.credential {
        Credential::KeyFile(k) => assert_eq!(k, "/home/u/.ssh/id_ed25519"),
        Credential::Password(_) => panic!("expected a key credential"),
    }
}

#[test]
fn unknown_method_is_unsupported() {
    let err = plan_authentication(&server("kerberos", Some("x"), Some("y"))).unwrap_err();
    assert!(matches!(err, AuthError::UnsupportedMethod));
    assert_eq!(err.message(), "unsupported authentication method");
}

#[test]
fn connection_failure_is_reported_as_such() {
    let r = complete_authentication(
        String::from("s"),
        TransportEvent::ConnectFailed(String::from("timed out")),
    );
    let err = r.unwrap_err();
    assert!(matches!(err, AuthError::ConnectionFailed(_)));
    assert_eq!(err.message(), "connection failed: timed out");
}

#[test]
fn handshake_failure_is_distinct_from_connection_failure() {
    let err = complete_authentication(
        String::from("s"),
        TransportEvent::HandshakeFailed(String::from("bad banner")),
    )
    .unwrap_err();
    assert_eq!(err.message(), "handshake failed: bad banner");
}

#[test]
fn credential_failure_is_reported() {
    let err = complete_authentication(
        String::from("s"),
        TransportEvent::AuthFailed(String::from("denied")),
    )
    .unwrap_err();
    assert_eq!(err.message(), "authentication failed: denied");
}

#[test]
fn silent_authentication_failure_is_rejected() {
    let err = complete_authentication(
        String::from("s"),
        TransportEvent::Established { authenticated: false, transport: 3 },
    )
    .unwrap_err();
    assert!(matches!(err, AuthError::AuthenticationRejected));
    assert_eq!(err.message(), "authentication rejected by the server");
}

#[test]
fn authenticated_transport_becomes_a_session() {
    let s = complete_authentication(
        String::from("host-20260101120000"),
        TransportEvent::Established { authenticated: true, transport: 3 },
    )
    .unwrap();
    assert_eq!(s.id, "host-20260101120000");
    assert_eq!(s.transport, 3);
    assert!(s.shell.is_none());
}

#[test]
fn session_ids_join_host_and_timestamp() {
    assert_eq!(session_id("10.0.0.8", "20260101120000"), "10.0.0.8-20260101120000");
}
