use pvf_security::{
    audit_event_pid_field, check_seccomp_violations_for_job, check_security_status,
    failure_from_stderr, launch_failure, parse_audit_log_for_seccomp_event, parse_u32, probe_flag,
    probe_result_from_output, push_decimal, push_signed_decimal, seccomp_violations_in,
    temp_dir_failure, trim_whitespace, unsupported_probe, Capability, FullSecurityStatus,
    LogLevel, Platform, SecureModeError, SecurityStatus, IGNORE_SECURE_MODE_TIP,
    SECURE_MODE_ERROR, SECURE_MODE_FAILURE, SECURE_MODE_NOTICE, SECURE_MODE_WARNING,
};

fn status(mode: bool, landlock: bool, seccomp: bool, change_root: bool) -> SecurityStatus {
    SecurityStatus {
        secure_validator_mode: mode,
        can_enable_landlock: landlock,
        can_enable_seccomp: seccomp,
        can_unshare_user_namespace_and_change_root: change_root,
    }
}

const VIOLATION_LINE: &str = r#"Oct 24 13:15:24 build kernel: [5883980.283910] audit: type=1326 audit(1698153324.786:23): auid=0 uid=0 gid=0 ses=2162 subj=unconfined pid=2559058 comm="polkadot-prepar" exe="/root/paritytech/polkadot-sdk-2/target/debug/polkadot-prepare-worker" sig=31 arch=c000003e syscall=53 compat=0 ip=0x7f7542c80d5e code=0x80000000"#;

#[test]
fn test_secure_mode_error_optionality() {
    let err = SecureModeError::CannotEnableLandlock(String::new());
    assert!(err.is_allowed_in_secure_mode(&SecurityStatus {
        secure_validator_mode: true,
        can_enable_landlock: false,
        can_enable_seccomp: false,
        can_unshare_user_namespace_and_change_root: true
    }));
    assert!(!err.is_allowed_in_secure_mode(&SecurityStatus {
        secure_validator_mode: true,
        can_enable_landlock: false,
        can_enable_seccomp: true,
        can_unshare_user_namespace_and_change_root: false
    }));

    let err = SecureModeError::CannotEnableSeccomp(String::new());
    assert!(!err.is_allowed_in_secure_mode(&SecurityStatus {
        secure_validator_mode: true,
        can_enable_landlock: false,
        can_enable_seccomp: false,
        can_unshare_user_namespace_and_change_root: true
    }));
    assert!(!err.is_allowed_in_secure_mode(&SecurityStatus {
        secure_validator_mode: true,
        can_enable_landlock: false,
        can_enable_seccomp: true,
        can_unshare_user_namespace_and_change_root: false
    }));

    let err = SecureModeError::CannotUnshareUserNamespaceAndChangeRoot(String::new());
    assert!(err.is_allowed_in_secure_mode(&SecurityStatus {
        secure_validator_mode: true,
        can_enable_landlock: true,
        can_enable_seccomp: false,
        can_unshare_user_namespace_and_change_root: false
    }));
    assert!(!err.is_allowed_in_secure_mode(&SecurityStatus {
        secure_validator_mode: true,
        can_enable_landlock: false,
        can_enable_seccomp: true,
        can_unshare_user_namespace_and_change_root: false
    }));
}

#[test]
fn test_parse_audit_log_for_seccomp_event() {
    let audit_event_pid_field = "pid=2559058";

    assert_eq!(
        parse_audit_log_for_seccomp_event(
            r#"Oct 24 13:15:24 build kernel: [5883980.283910] audit: type=1326 audit(1698153324.786:23): auid=0 uid=0 gid=0 ses=2162 subj=unconfined pid=2559058 comm="polkadot-prepar" exe="/root/paritytech/polkadot-sdk-2/target/debug/polkadot-prepare-worker" sig=31 arch=c000003e syscall=53 compat=0 ip=0x7f7542c80d5e code=0x80000000"#,
            audit_event_pid_field
        ),
        Some(53)
    );
    // pid is wrong
    assert_eq!(
        parse_audit_log_for_seccomp_event(
            r#"Oct 24 13:15:24 build kernel: [5883980.283910] audit: type=1326 audit(1698153324.786:23): auid=0 uid=0 gid=0 ses=2162 subj=unconfined pid=2559057 comm="polkadot-prepar" exe="/root/paritytech/polkadot-sdk-2/target/debug/polkadot-prepare-worker" sig=31 arch=c000003e syscall=53 compat=0 ip=0x7f7542c80d5e code=0x80000000"#,
            audit_event_pid_field
        ),
        None
    );
    // type is wrong
    assert_eq!(
        parse_audit_log_for_seccomp_event(
            r#"Oct 24 13:15:24 build kernel: [5883980.283910] audit: type=1327 audit(1698153324.786:23): auid=0 uid=0 gid=0 ses=2162 subj=unconfined pid=2559057 comm="polkadot-prepar" exe="/root/paritytech/polkadot-sdk-2/target/debug/polkadot-prepare-worker" sig=31 arch=c000003e syscall=53 compat=0 ip=0x7f7542c80d5e code=0x80000000"#,
            audit_event_pid_field
        ),
        None
    );
    // no syscall field
    assert_eq!(
        parse_audit_log_for_seccomp_event(
            r#"Oct 24 13:15:24 build kernel: [5883980.283910] audit: type=1327 audit(1698153324.786:23): auid=0 uid=0 gid=0 ses=2162 subj=unconfined pid=2559057 comm="polkadot-prepar" exe="/root/paritytech/polkadot-sdk-2/target/debug/polkadot-prepare-worker" sig=31 arch=c000003e compat=0 ip=0x7f7542c80d5e code=0x80000000"#,
            audit_event_pid_field
        ),
        None
    );
}

#[test]
fn wrong_event_type_with_matching_pid_gives_nothing() {
    let line = VIOLATION_LINE.replace("type=1326", "type=1327");
    assert_eq!(parse_audit_log_for_seccomp_event(&line, "pid=2559058"), None);
}

#[test]
fn missing_syscall_field_with_matching_pid_and_type_gives_nothing() {
    let line = VIOLATION_LINE.replace("syscall=53 ", "");
    assert_eq!(parse_audit_log_for_seccomp_event(&line, "pid=2559058"), None);
}

#[test]
fn longer_pid_does_not_match() {
    let line = "audit: type=1326 audit(1698153324.786:23): pid=25590581 sig=31 syscall=53";
    assert_eq!(parse_audit_log_for_seccomp_event(line, "pid=2559058"), None);
    assert_eq!(check_seccomp_violations_for_job(Some(line), 2559058), Vec::<u32>::new());
    assert_eq!(check_seccomp_violations_for_job(Some(line), 25590581), vec![53]);
}

#[test]
fn parent_pid_field_does_not_match() {
    let line = "audit: type=1326 ppid=2559058 pid=7 syscall=53";
    assert_eq!(parse_audit_log_for_seccomp_event(line, "pid=2559058"), None);
    assert_eq!(parse_audit_log_for_seccomp_event(line, "pid=7"), Some(53));
}

#[test]
fn pid_field_at_line_end_matches() {
    let line = "type=1326 syscall=9 pid=2559058";
    assert_eq!(parse_audit_log_for_seccomp_event(line, "pid=2559058"), Some(9));
}

#[test]
fn unparsable_syscall_field_gives_nothing() {
    let line = VIOLATION_LINE.replace("syscall=53", "syscall=5x3");
    assert_eq!(parse_audit_log_for_seccomp_event(&line, "pid=2559058"), None);
    let line = VIOLATION_LINE.replace("syscall=53", "syscall=4294967296");
    assert_eq!(parse_audit_log_for_seccomp_event(&line, "pid=2559058"), None);
    let line = VIOLATION_LINE.replace("syscall=53", "syscall=4294967295");
    assert_eq!(parse_audit_log_for_seccomp_event(&line, "pid=2559058"), Some(4294967295));
}

#[test]
fn first_syscall_field_wins() {
    let line = "type=1326 pid=7 syscall=12 syscall=13";
    assert_eq!(parse_audit_log_for_seccomp_event(line, "pid=7"), Some(12));
}

#[test]
fn job_violations_follow_file_order() {
    let log = format!(
        "type=1326 pid=42 syscall=3\r\nunrelated line\n{}\ntype=1326 pid=42 syscall=59\ntype=1326 pid=43 syscall=1\n",
        VIOLATION_LINE
    );
    assert_eq!(check_seccomp_violations_for_job(Some(&log), 42), vec![3, 59]);
    assert_eq!(check_seccomp_violations_for_job(Some(&log), 2559058), vec![53]);
    assert_eq!(seccomp_violations_in(&log, 43), vec![1]);
}

#[test]
fn job_violations_from_single_audit_line() {
    assert_eq!(check_seccomp_violations_for_job(Some(VIOLATION_LINE), 2559058), vec![53]);
    assert_eq!(check_seccomp_violations_for_job(Some(VIOLATION_LINE), 2559057), Vec::<u32>::new());
}

#[test]
fn no_audit_log_gives_no_violations() {
    assert_eq!(check_seccomp_violations_for_job(None, 2559058), Vec::<u32>::new());
}

#[test]
fn empty_log_gives_no_violations() {
    assert_eq!(check_seccomp_violations_for_job(Some(""), 1), Vec::<u32>::new());
    assert_eq!(check_seccomp_violations_for_job(Some("\n\n"), 1), Vec::<u32>::new());
}

#[test]
fn pid_field_is_decimal() {
    assert_eq!(audit_event_pid_field(2559058), "pid=2559058");
    assert_eq!(audit_event_pid_field(0), "pid=0");
    assert_eq!(audit_event_pid_field(-17), "pid=-17");
    assert_eq!(audit_event_pid_field(i32::MIN), "pid=-2147483648");
}

#[test]
fn decimal_rendering() {
    let mut s = String::from("n=");
    push_decimal(&mut s, 4294967295);
    assert_eq!(s, "n=4294967295");
    let mut s = String::new();
    push_signed_decimal(&mut s, -905);
    assert_eq!(s, "-905");
}

#[test]
fn parse_u32_like_std() {
    let p = |s: &str| parse_u32(&s.chars().collect::<Vec<char>>());
    assert_eq!(p("53"), Some(53));
    assert_eq!(p("+53"), Some(53));
    assert_eq!(p("007"), Some(7));
    assert_eq!(p(""), None);
    assert_eq!(p("+"), None);
    assert_eq!(p("-1"), None);
    assert_eq!(p("4294967296"), None);
    assert_eq!(p("53\r"), None);
}

#[test]
fn trimming_removes_unicode_whitespace() {
    assert_eq!(trim_whitespace("  seccomp off \n"), "seccomp off");
    assert_eq!(trim_whitespace("\u{3000}\t x\u{a0}"), "x");
    assert_eq!(trim_whitespace(" \r\n "), "");
}

#[test]
fn all_capabilities_in_secure_mode_logs_notice() {
    let check = check_security_status(true, Ok(()), Ok(()), Ok(()));
    assert_eq!(check.result, Ok(status(true, true, true, true)));
    assert_eq!(check.log.len(), 1);
    assert_eq!(check.log[0].level, LogLevel::Info);
    assert_eq!(check.log[0].text, SECURE_MODE_NOTICE);
}

#[test]
fn optional_mode_never_fails() {
    for mask in 0..8u8 {
        let r = |bit: u8| {
            if mask & bit != 0 {
                Ok(())
            } else {
                Err(SecureModeError::CannotEnableSeccomp("x".into()))
            }
        };
        let landlock = if mask & 1 != 0 {
            Ok(())
        } else {
            Err(SecureModeError::CannotEnableLandlock("x".into()))
        };
        let change_root = if mask & 4 != 0 {
            Ok(())
        } else {
            Err(SecureModeError::CannotUnshareUserNamespaceAndChangeRoot("x".into()))
        };
        let check = check_security_status(false, landlock, r(2), change_root);
        assert_eq!(
            check.result,
            Ok(status(false, mask & 1 != 0, mask & 2 != 0, mask & 4 != 0))
        );
        if mask == 7 {
            assert!(check.log.is_empty());
        } else {
            assert_eq!(check.log.len(), 1);
            assert_eq!(check.log[0].level, LogLevel::Warn);
        }
    }
}

#[test]
fn missing_landlock_alone_is_optional() {
    let check = check_security_status(
        true,
        Err(SecureModeError::CannotEnableLandlock("not available".into())),
        Ok(()),
        Ok(()),
    );
    assert_eq!(check.result, Ok(status(true, false, true, true)));
    assert_eq!(check.log.len(), 2);
    assert_eq!(check.log[0].level, LogLevel::Warn);
    assert_eq!(
        check.log[0].text,
        format!(
            "{}\n  - Optional: Cannot enable landlock, a Linux 5.13+ kernel security feature: not available",
            SECURE_MODE_WARNING
        )
    );
    assert_eq!(check.log[1].level, LogLevel::Info);
}

#[test]
fn missing_seccomp_alone_is_fatal() {
    let check = check_security_status(
        true,
        Ok(()),
        Err(SecureModeError::CannotEnableSeccomp("not available".into())),
        Ok(()),
    );
    assert_eq!(check.result, Err(SECURE_MODE_FAILURE.to_string()));
    assert_eq!(check.log.len(), 1);
    assert_eq!(check.log[0].level, LogLevel::Error);
    assert_eq!(
        check.log[0].text,
        format!(
            "{}\n  - Cannot enable seccomp, a Linux-specific kernel security feature: not available{}",
            SECURE_MODE_ERROR, IGNORE_SECURE_MODE_TIP
        )
    );
}

#[test]
fn missing_namespace_alone_is_optional() {
    let check = check_security_status(
        true,
        Ok(()),
        Ok(()),
        Err(SecureModeError::CannotUnshareUserNamespaceAndChangeRoot("x".into())),
    );
    assert_eq!(check.result, Ok(status(true, true, true, false)));
    assert!(check.log[0].text.contains("\n  - Optional: Cannot unshare"));
}

#[test]
fn missing_both_sandboxes_is_fatal() {
    let check = check_security_status(
        true,
        Err(SecureModeError::CannotEnableLandlock("a".into())),
        Ok(()),
        Err(SecureModeError::CannotUnshareUserNamespaceAndChangeRoot("b".into())),
    );
    assert_eq!(check.result, Err(SECURE_MODE_FAILURE.to_string()));
    assert_eq!(check.log.len(), 1);
    assert_eq!(check.log[0].level, LogLevel::Error);
    assert!(!check.log[0].text.contains("Optional"));
}

#[test]
fn deciding_twice_gives_the_same_verdict() {
    let run = || {
        check_security_status(
            true,
            Err(SecureModeError::CannotEnableLandlock("a".into())),
            Ok(()),
            Ok(()),
        )
    };
    assert_eq!(run(), run());
}

#[test]
fn full_status_gathers_errors_in_probe_order() {
    let full = FullSecurityStatus::new(
        true,
        Err(SecureModeError::CannotEnableLandlock("a".into())),
        Err(SecureModeError::CannotEnableSeccomp("b".into())),
        Ok(()),
    );
    assert_eq!(full.as_partial(), status(true, false, false, true));
    assert!(full.err_occurred());
    assert!(!full.all_errs_allowed());
    assert_eq!(
        full.errs_string(),
        "\n  - Optional: Cannot enable landlock, a Linux 5.13+ kernel security feature: a\n  - Cannot enable seccomp, a Linux-specific kernel security feature: b"
    );
    let clean = FullSecurityStatus::new(false, Ok(()), Ok(()), Ok(()));
    assert!(!clean.err_occurred());
    assert!(clean.all_errs_allowed());
    assert_eq!(clean.errs_string(), "");
}

#[test]
fn error_messages_name_the_capability() {
    assert_eq!(
        SecureModeError::CannotUnshareUserNamespaceAndChangeRoot("z".into()).message(),
        "Cannot unshare user namespace and change root, which are Linux-specific kernel security features: z"
    );
    assert_eq!(
        SecureModeError::CannotEnableSeccomp("y".into()).capability(),
        Capability::Seccomp
    );
}

#[test]
fn probe_flags() {
    assert_eq!(probe_flag(Capability::Landlock), "--check-can-enable-landlock");
    assert_eq!(probe_flag(Capability::Seccomp), "--check-can-enable-seccomp");
    assert_eq!(
        probe_flag(Capability::UnshareUserNamespaceAndChangeRoot),
        "--check-can-unshare-user-namespace-and-change-root"
    );
}

#[test]
fn probe_output_interpretation() {
    assert_eq!(probe_result_from_output(Capability::Seccomp, true, "noise", 1), Ok(()));
    assert_eq!(
        probe_result_from_output(Capability::Landlock, false, " \n", 1),
        Err(SecureModeError::CannotEnableLandlock("landlock ABI 1 not available".into()))
    );
    assert_eq!(
        probe_result_from_output(Capability::Seccomp, false, "  killed by filter\n", 1),
        Err(SecureModeError::CannotEnableSeccomp("not available: killed by filter".into()))
    );
    assert_eq!(
        probe_result_from_output(Capability::UnshareUserNamespaceAndChangeRoot, false, "", 1),
        Err(SecureModeError::CannotUnshareUserNamespaceAndChangeRoot("not available".into()))
    );
    assert_eq!(
        failure_from_stderr(Capability::Landlock, "", 255),
        SecureModeError::CannotEnableLandlock("landlock ABI 255 not available".into())
    );
}

#[test]
fn launch_and_temp_dir_failures() {
    assert_eq!(
        launch_failure(Capability::Landlock, "No such file or directory (os error 2)"),
        SecureModeError::CannotEnableLandlock(
            "could not start child process: No such file or directory (os error 2)".into()
        )
    );
    assert_eq!(
        temp_dir_failure("\"/cache\"", "Permission denied (os error 13)"),
        SecureModeError::CannotUnshareUserNamespaceAndChangeRoot(
            "could not create a temporary directory in \"/cache\": Permission denied (os error 13)"
                .into()
        )
    );
}

#[test]
fn platform_gating() {
    let linux_x86 = Platform { is_linux: true, is_x86_64: true };
    let linux_arm = Platform { is_linux: true, is_x86_64: false };
    let mac_x86 = Platform { is_linux: false, is_x86_64: true };
    let mac_arm = Platform { is_linux: false, is_x86_64: false };
    assert_eq!(unsupported_probe(Capability::Seccomp, linux_x86), None);
    assert_eq!(unsupported_probe(Capability::Landlock, linux_arm), None);
    assert_eq!(
        unsupported_probe(Capability::Seccomp, linux_arm),
        Some(SecureModeError::CannotEnableSeccomp(
            "only supported on CPUs from the x86_64 family (usually Intel or AMD)".into()
        ))
    );
    assert_eq!(
        unsupported_probe(Capability::Seccomp, mac_x86),
        Some(SecureModeError::CannotEnableSeccomp("only supported on Linux".into()))
    );
    assert_eq!(
        unsupported_probe(Capability::Seccomp, mac_arm),
        Some(SecureModeError::CannotEnableSeccomp(
            "only supported on Linux and on CPUs from the x86_64 family (usually Intel or AMD)."
                .into()
        ))
    );
    assert_eq!(
        unsupported_probe(Capability::UnshareUserNamespaceAndChangeRoot, mac_x86),
        Some(SecureModeError::CannotUnshareUserNamespaceAndChangeRoot(
            "only available on Linux".into()
        ))
    );
}

#[test]
fn verdict_ignores_diagnostics() {
    let first = check_security_status(
        true,
        Err(SecureModeError::CannotEnableLandlock("a".into())),
        Ok(()),
        Err(SecureModeError::CannotUnshareUserNamespaceAndChangeRoot("b".into())),
    );
    let second = check_security_status(
        true,
        Err(SecureModeError::CannotEnableLandlock("other".into())),
        Ok(()),
        Err(SecureModeError::CannotUnshareUserNamespaceAndChangeRoot("text".into())),
    );
    assert_eq!(first.result, second.result);
    assert_eq!(first.log[0].level, second.log[0].level);
}
