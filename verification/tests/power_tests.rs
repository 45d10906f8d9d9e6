use devpulse::power::{
    classify_expect_run, classify_helper_run, classify_key_run, connectivity_report,
    expect_script, helper_args, key_args, ping_args, shutdown_commands, user_at_host,
    AttemptOutcome, RunReport, ShutdownOrchestrator, ShutdownStrategy,
};

#[test]
fn command_list_starts_with_the_default_and_falls_back() {
    let cmds = shutdown_commands(&None);
    assert_eq!(cmds.len(), 4);
    assert_eq!(cmds[0], "sudo shutdown -h now");
    assert_eq!(cmds[1], "sudo poweroff");
    assert_eq!(cmds[2], "sudo halt");
    assert_eq!(cmds[3], "shutdown -s -t 0");
}

#[test]
fn custom_command_is_tried_first() {
    let cmds = shutdown_commands(&Some(String::from("systemctl poweroff")));
    assert_eq!(cmds[0], "systemctl poweroff");
    assert_eq!(cmds[1], "sudo poweroff");
}

#[test]
fn first_success_short_circuits_the_chain() {
    let mut orch = ShutdownOrchestrator::new(&None, true);
    let attempt = orch.current_attempt().unwrap();
    assert_eq!(attempt.command, "sudo shutdown -h now");
    assert!(matches!(attempt.strategy, ShutdownStrategy::PasswordHelper));
    let result = orch.record_outcome(AttemptOutcome::Succeeded).unwrap();
    assert!(result.success);
    assert_eq!(result.message, "shutdown command executed");
    assert_eq!(result.details.unwrap(), "command executed: sudo shutdown -h now");
    assert!(orch.current_attempt().is_none());
}

#[test]
fn unavailable_helper_retries_the_same_command_with_expect() {
    let mut orch = ShutdownOrchestrator::new(&None, true);
    let r = orch.record_outcome(AttemptOutcome::HelperUnavailable(String::from(
        "sshpass: command not found",
    )));
    assert!(r.is_none());
    let attempt = orch.current_attempt().unwrap();
    assert_eq!(attempt.command, "sudo shutdown -h now");
    assert!(matches!(attempt.strategy, ShutdownStrategy::ScriptedExpect));
    let result = orch.record_outcome(AttemptOutcome::Succeeded).unwrap();
    assert_eq!(result.message, "shutdown command executed (scripted expect)");
}

#[test]
fn without_a_password_every_attempt_uses_the_key() {
    let mut orch = ShutdownOrchestrator::new(&None, false);
    for _ in 0..3 {
        let attempt = orch.current_attempt().unwrap();
        assert!(matches!(attempt.strategy, ShutdownStrategy::KeyFile));
        let r = orch.record_outcome(AttemptOutcome::Failed(String::from("denied")));
        assert!(r.is_none());
    }
    let attempt = orch.current_attempt().unwrap();
    assert_eq!(attempt.command, "shutdown -s -t 0");
    let result = orch
        .record_outcome(AttemptOutcome::Failed(String::from("host unreachable")))
        .unwrap();
    assert!(!result.success);
    assert_eq!(result.message, "could not shut down the host");
    assert_eq!(result.details.unwrap(), "last error: host unreachable");
    assert!(orch.current_attempt().is_none());
}

#[test]
fn expect_failure_moves_to_the_next_command_at_helper_strategy() {
    let mut orch = ShutdownOrchestrator::new(&None, true);
    assert!(orch
        .record_outcome(AttemptOutcome::HelperUnavailable(String::from("gone")))
        .is_none());
    assert!(orch
        .record_outcome(AttemptOutcome::Failed(String::from("expect error: denied")))
        .is_none());
    let attempt = orch.current_attempt().unwrap();
    assert_eq!(attempt.command, "sudo poweroff");
    assert!(matches!(attempt.strategy, ShutdownStrategy::PasswordHelper));
}

#[test]
fn helper_runs_are_classified_by_what_happened() {
    let r = classify_helper_run(RunReport::SpawnFailed(String::from("no such binary")));
    assert!(matches!(r, AttemptOutcome::HelperUnavailable(_)));
    let r = classify_helper_run(RunReport::Exited { success: true, stderr: String::new() });
    assert!(matches!(r, AttemptOutcome::Succeeded));
    let r = classify_helper_run(RunReport::Exited {
        success: false,
        stderr: String::from("bash: sshpass: command not found"),
    });
    assert!(matches!(r, AttemptOutcome::HelperUnavailable(_)));
    let r = classify_helper_run(RunReport::Exited {
        success: false,
        stderr: String::from("sshpass: No such file or directory"),
    });
    assert!(matches!(r, AttemptOutcome::HelperUnavailable(_)));
    match classify_helper_run(RunReport::Exited {
        success: false,
        stderr: String::from("Permission denied"),
    }) {
        AttemptOutcome::Failed(msg) => assert_eq!(msg, "SSH error: Permission denied"),
        _ => panic!("a real failure moves the chain on"),
    }
}

#[test]
fn expect_runs_are_classified() {
    match classify_expect_run(RunReport::SpawnFailed(String::from("not installed"))) {
        AttemptOutcome::Failed(msg) => assert_eq!(msg, "expect not available: not installed"),
        _ => panic!("expected a failure"),
    }
    assert!(matches!(
        classify_expect_run(RunReport::Exited { success: true, stderr: String::new() }),
        AttemptOutcome::Succeeded
    ));
    match classify_expect_run(RunReport::Exited {
        success: false,
        stderr: String::from("timeout"),
    }) {
        AttemptOutcome::Failed(msg) => assert_eq!(msg, "expect error: timeout"),
        _ => panic!("expected a failure"),
    }
}

#[test]
fn key_runs_are_classified() {
    match classify_key_run(RunReport::SpawnFailed(String::from("ssh missing"))) {
        AttemptOutcome::Failed(msg) => assert_eq!(msg, "SSH execution error: ssh missing"),
        _ => panic!("expected a failure"),
    }
    match classify_key_run(RunReport::Exited {
        success: false,
        stderr: String::from("key rejected"),
    }) {
        AttemptOutcome::Failed(msg) => assert_eq!(msg, "SSH key error: key rejected"),
        _ => panic!("expected a failure"),
    }
}

#[test]
fn helper_argument_list_is_exact() {
    let args = helper_args("10.0.0.5", "admin", 2222, "pw", "sudo halt");
    let expected = vec![
        "-p", "pw", "ssh", "-o", "StrictHostKeyChecking=no", "-o", "ConnectTimeout=10", "-p",
        "2222", "admin@10.0.0.5", "sudo halt",
    ];
    assert_eq!(args.len(), expected.len());
    for (got, want) in args.iter().zip(expected.iter()) {
        assert_eq!(got, want);
    }
}

#[test]
fn key_argument_list_is_exact() {
    let args = key_args("10.0.0.5", "admin", 22, "sudo poweroff");
    let expected = vec![
        "-o", "StrictHostKeyChecking=no", "-o", "ConnectTimeout=10", "-p", "22",
        "admin@10.0.0.5", "sudo poweroff",
    ];
    assert_eq!(args.len(), expected.len());
    for (got, want) in args.iter().zip(expected.iter()) {
        assert_eq!(got, want);
    }
}

#[test]
fn expect_script_embeds_every_field() {
    let script = expect_script("10.0.0.5", "admin", 22, "pw", "sudo halt");
    let expected = format!(
        "\nspawn ssh -o StrictHostKeyChecking=no -p {} {}@{} \"{}\"\nexpect {{\n    \"password:\" {{ send \"{}\\r\"; exp_continue }}\n    \"Password:\" {{ send \"{}\\r\"; exp_continue }}\n    eof\n}}\n",
        22, "admin", "10.0.0.5", "sudo halt", "pw", "pw"
    );
    assert_eq!(script, expected);
}

#[test]
fn user_at_host_joins_with_an_at_sign() {
    assert_eq!(user_at_host("root", "192.168.7.7"), "root@192.168.7.7");
}

#[test]
fn ping_arguments_follow_the_platform() {
    let unix = ping_args("192.168.1.1", false);
    assert_eq!(unix.len(), 3);
    assert_eq!(unix[0], "-c");
    assert_eq!(unix[1], "1");
    assert_eq!(unix[2], "192.168.1.1");
    let win = ping_args("192.168.1.1", true);
    assert_eq!(win[0], "-n");
}

#[test]
fn connectivity_reports_cover_the_three_outcomes() {
    let up = connectivity_report(
        "192.168.1.1",
        RunReport::Exited { success: true, stderr: String::new() },
    );
    assert!(up.success);
    assert_eq!(up.message, "network reachable");
    assert_eq!(up.details.unwrap(), "ping to 192.168.1.1 succeeded");
    let down = connectivity_report(
        "192.168.1.1",
        RunReport::Exited { success: false, stderr: String::new() },
    );
    assert!(!down.success);
    assert_eq!(down.message, "network unreachable");
    assert_eq!(down.details.unwrap(), "ping to 192.168.1.1 failed");
    let broken = connectivity_report("x", RunReport::SpawnFailed(String::from("no ping")));
    assert!(!broken.success);
    assert_eq!(broken.message, "network test failed");
    assert_eq!(broken.details.unwrap(), "ping command error: no ping");
}
