use devpulse::wake::{plan_wake, wake_report, wake_socket_failure, send_error_line, WakeSetupStage};

#[test]
fn valid_mac_builds_102_byte_payload() {
    let plan = plan_wake("AA:BB:CC:DD:EE:FF", &None).unwrap();
    assert_eq!(plan.payload.len(), 102);
    for i in 0..6 {
        assert_eq!(plan.payload[i], 0xFF);
    }
    let mac = [0xAAu8, 0xBB, 0xCC, 0xDD, 0xEE, 0xFF];
    for rep in 0..16 {
        for j in 0..6 {
            assert_eq!(plan.payload[6 + 6 * rep + j], mac[j]);
        }
    }
}

#[test]
fn default_targets_spray_four_destinations() {
    let plan = plan_wake("AA:BB:CC:DD:EE:FF", &None).unwrap();
    assert_eq!(plan.targets.len(), 4);
    assert_eq!(plan.targets[0].address, "255.255.255.255");
    assert_eq!(plan.targets[0].port, 9);
    assert_eq!(plan.targets[1].address, "255.255.255.255");
    assert_eq!(plan.targets[1].port, 7);
    assert_eq!(plan.targets[2].address, "192.168.1.255");
    assert_eq!(plan.targets[2].port, 9);
    assert_eq!(plan.targets[3].address, "192.168.0.255");
    assert_eq!(plan.targets[3].port, 9);
}

#[test]
fn caller_broadcast_address_is_used() {
    let plan = plan_wake("AA:BB:CC:DD:EE:FF", &Some(String::from("10.0.0.255"))).unwrap();
    assert_eq!(plan.targets[0].address, "10.0.0.255");
    assert_eq!(plan.targets[1].address, "10.0.0.255");
    assert_eq!(plan.targets[2].address, "192.168.1.255");
}

#[test]
fn lowercase_and_dashes_normalize_to_same_payload() {
    let upper = plan_wake("AA:BB:CC:DD:EE:FF", &None).unwrap();
    let lower = plan_wake("aa-bb-cc-dd-ee-ff", &None).unwrap();
    let spaced = plan_wake("aa bb cc dd ee ff", &None).unwrap();
    assert_eq!(upper.payload, lower.payload);
    assert_eq!(upper.payload, spaced.payload);
}

#[test]
fn short_mac_is_rejected_with_length_reason() {
    let err = plan_wake("AA:BB:CC:DD:EE", &None).unwrap_err();
    assert!(!err.success);
    assert_eq!(err.message, "invalid MAC address");
    assert_eq!(
        err.details.unwrap(),
        "the MAC address must have the form XX:XX:XX:XX:XX:XX"
    );
}

#[test]
fn long_mac_is_rejected() {
    let err = plan_wake("AA:BB:CC:DD:EE:FF:00", &None).unwrap_err();
    assert_eq!(err.message, "invalid MAC address");
}

#[test]
fn empty_mac_is_rejected() {
    let err = plan_wake("", &None).unwrap_err();
    assert!(!err.success);
    assert_eq!(err.message, "invalid MAC address");
}

#[test]
fn separators_only_mac_is_rejected() {
    let err = plan_wake(":::---   ", &None).unwrap_err();
    assert_eq!(err.message, "invalid MAC address");
}

#[test]
fn unknown_separators_are_not_stripped() {
    // dots are not separators, so they count toward the length
    let err = plan_wake("AABB.CCDD.EEFF", &None).unwrap_err();
    assert_eq!(err.message, "invalid MAC address");
}

#[test]
fn non_hex_mac_is_rejected_with_format_reason() {
    let err = plan_wake("GG:BB:CC:DD:EE:FF", &None).unwrap_err();
    assert!(!err.success);
    assert_eq!(err.message, "invalid MAC address format");
    assert_eq!(err.details.unwrap(), "use only hexadecimal characters (0-9, A-F)");
}

#[test]
fn wake_report_counts_successful_sends() {
    let report = wake_report("AA:BB:CC:DD:EE:FF", 3, &Vec::new());
    assert!(report.success);
    assert_eq!(report.message, "magic packet sent (3 sends went through)");
    assert_eq!(
        report.details.unwrap(),
        "the host should power on within 10-60 seconds; MAC: AA:BB:CC:DD:EE:FF"
    );
}

#[test]
fn wake_report_aggregates_errors_when_nothing_was_sent() {
    let errors = vec![String::from("first failed"), String::from("second failed")];
    let report = wake_report("AA:BB:CC:DD:EE:FF", 0, &errors);
    assert!(!report.success);
    assert_eq!(report.message, "could not send the magic packet");
    assert_eq!(report.details.unwrap(), "errors: first failed, second failed");
}

#[test]
fn send_error_line_names_target_and_error() {
    let plan = plan_wake("AA:BB:CC:DD:EE:FF", &None).unwrap();
    let line = send_error_line(&plan.targets[2], "network is unreachable");
    assert_eq!(line, "192.168.1.255:9 - network is unreachable");
}

#[test]
fn socket_failures_name_their_stage() {
    let bind = wake_socket_failure(WakeSetupStage::BindSocket, String::from("no sockets"));
    assert!(!bind.success);
    assert_eq!(bind.message, "could not set up the network socket");
    assert_eq!(bind.details.unwrap(), "no sockets");
    let bc = wake_socket_failure(WakeSetupStage::EnableBroadcast, String::from("denied"));
    assert_eq!(bc.message, "could not enable broadcast on the socket");
}
