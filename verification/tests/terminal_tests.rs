use devpulse::terminal::{
    build_ssh_command, terminal_close_error, ttyd_args, OpenDecision, TerminalManager,
    TerminalRequest,
};

fn request(password: Option<&str>) -> TerminalRequest {
    TerminalRequest {
        ssh_user: String::from("admin"),
        ip: String::from("10.0.0.9"),
        ssh_port: 2022,
        password: password.map(String::from),
    }
}

#[test]
fn password_logins_go_through_the_helper() {
    let cmd = build_ssh_command(&request(Some("secret pw")), false);
    assert_eq!(
        cmd,
        "sshpass -p 'secret pw' ssh -tt -o StrictHostKeyChecking=no -p 2022 admin@10.0.0.9"
    );
}

#[test]
fn key_logins_skip_the_helper() {
    let cmd = build_ssh_command(&request(None), false);
    assert_eq!(cmd, "ssh -tt -o StrictHostKeyChecking=no -p 2022 admin@10.0.0.9");
}

#[test]
fn windows_logins_are_plain() {
    let cmd = build_ssh_command(&request(Some("ignored")), true);
    assert_eq!(cmd, "ssh -p 2022 admin@10.0.0.9");
}

#[test]
fn ttyd_arguments_wrap_the_login_in_the_platform_shell() {
    let args = ttyd_args(false, "ssh -p 22 a@b");
    let expected = vec!["--writable", "-t", "titleFixed=DevPulse", "/bin/bash", "-c", "ssh -p 22 a@b"];
    assert_eq!(args.len(), expected.len());
    for (got, want) in args.iter().zip(expected.iter()) {
        assert_eq!(got, want);
    }
    let win = ttyd_args(true, "ssh -p 22 a@b");
    assert_eq!(win[3], "powershell");
}

#[test]
fn a_fresh_manager_reports_no_connection() {
    let mgr = TerminalManager::new();
    let status = mgr.check_terminal_status();
    assert!(!status.is_connected);
    assert_eq!(status.message, "no active connection");
}

#[test]
fn opening_twice_reports_already_active() {
    let mut mgr = TerminalManager::new();
    match mgr.plan_open(&request(None), false) {
        OpenDecision::Launch(cmd) => assert!(cmd.starts_with("ssh -tt")),
        OpenDecision::AlreadyActive(_) => panic!("nothing is running yet"),
    }
    let status = mgr.confirm_open(501);
    assert!(status.is_connected);
    assert_eq!(status.message, "SSH connection established");
    match mgr.plan_open(&request(None), false) {
        OpenDecision::AlreadyActive(s) => {
            assert!(s.is_connected);
            assert_eq!(s.message, "connection already active");
        }
        OpenDecision::Launch(_) => panic!("a second terminal must be refused"),
    }
    let active = mgr.check_terminal_status();
    assert!(active.is_connected);
    assert_eq!(active.message, "terminal active");
}

#[test]
fn logout_hands_back_the_process_and_is_idempotent() {
    let mut mgr = TerminalManager::new();
    mgr.confirm_open(77);
    let (handle, status) = mgr.logout();
    assert_eq!(handle, Some(77));
    assert!(!status.is_connected);
    assert_eq!(status.message, "disconnected");
    let (handle, status) = mgr.logout();
    assert_eq!(handle, None);
    assert_eq!(status.message, "no connection to close");
}

#[test]
fn close_errors_carry_the_system_detail() {
    assert_eq!(
        terminal_close_error("permission denied"),
        "could not close the terminal: permission denied"
    );
}
