//! Detection of the sandboxing primitives that a host offers, the policy that
//! decides whether the host may run untrusted code, and the extraction of
//! syscall-filter violations from the system audit log.
//!
//! Nothing here spawns a process or touches a file: the caller runs the
//! probes and reads the log, and hands the outcomes to these functions.

pub mod audit;
pub mod posture;
pub mod probe;
pub mod text;

pub use audit::{
    audit_event_pid_field, check_seccomp_violations_for_job, parse_audit_log_for_seccomp_event,
    seccomp_violations_in, PID_FIELD_PREFIX, SECCOMP_AUDIT_EVENT_TYPE, SYSCALL_FIELD_PREFIX,
};
pub use posture::{
    check_security_status, secure_mode_error_or_warning, Capability, FullSecurityStatus, LogLevel,
    LogMessage, SecureModeError, SecureModeResult, SecurityCheck, SecurityStatus,
    IGNORE_SECURE_MODE_TIP, SECURE_MODE_ERROR, SECURE_MODE_FAILURE, SECURE_MODE_NOTICE,
    SECURE_MODE_WARNING,
};
pub use probe::{
    failure_from_stderr, launch_failure, probe_flag, probe_result_from_output, temp_dir_failure,
    unsupported_probe, Platform,
};
pub use text::{chars_of, contains_chars, parse_u32, push_decimal, push_signed_decimal, trim_whitespace};
