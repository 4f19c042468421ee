//! The capability probes: which flag selects each self-test of the worker,
//! which platforms can run it at all, and how the outcome of a probe process
//! becomes a probe result.

use vstd::prelude::*;
use vstd::string::StringExecFns;
use crate::posture::{error_capability, Capability, SecureModeError, SecureModeResult};
use crate::text::{decimal, push_decimal, trim, trim_whitespace};

verus! {

/// The target that the node was built for, as far as the probes care.
#[derive(Clone, Copy, Debug, PartialEq, Eq, Structural)]
pub struct Platform {
    pub is_linux: bool,
    pub is_x86_64: bool,
}

pub const LANDLOCK_FLAG: &'static str = "--check-can-enable-landlock";

pub const SECCOMP_FLAG: &'static str = "--check-can-enable-seccomp";

pub const CHANGE_ROOT_FLAG: &'static str = "--check-can-unshare-user-namespace-and-change-root";

/// The worker flag that selects the self-test of capability `c`. The
/// namespace self-test also takes the path of a fresh temporary directory.
pub open spec fn probe_flag_spec(c: Capability) -> Seq<char> {
    match c {
        Capability::Landlock => LANDLOCK_FLAG@,
        Capability::Seccomp => SECCOMP_FLAG@,
        Capability::UnshareUserNamespaceAndChangeRoot => CHANGE_ROOT_FLAG@,
    }
}

/// The worker flag that selects the self-test of capability `c`.
pub fn probe_flag(c: Capability) -> (r: &'static str)
    ensures
        r@ == probe_flag_spec(c),
{
    match c {
        Capability::Landlock => LANDLOCK_FLAG,
        Capability::Seccomp => SECCOMP_FLAG,
        Capability::UnshareUserNamespaceAndChangeRoot => CHANGE_ROOT_FLAG,
    }
}

pub const ONLY_ON_LINUX: &'static str = "only available on Linux";

pub const SECCOMP_ONLY_ON_X86_64: &'static str =
    "only supported on CPUs from the x86_64 family (usually Intel or AMD)";

pub const SECCOMP_ONLY_ON_LINUX: &'static str = "only supported on Linux";

pub const SECCOMP_ONLY_ON_LINUX_X86_64: &'static str =
    "only supported on Linux and on CPUs from the x86_64 family (usually Intel or AMD).";

/// Why the probe of capability `c` cannot run on `platform`, if it cannot:
/// every probe needs Linux, and the seccomp probe also needs x86_64.
pub open spec fn unsupported_reason(c: Capability, platform: Platform) -> Option<Seq<char>> {
    match c {
        Capability::Seccomp => if platform.is_linux && platform.is_x86_64 {
            None
        } else if platform.is_linux {
            Some(SECCOMP_ONLY_ON_X86_64@)
        } else if platform.is_x86_64 {
            Some(SECCOMP_ONLY_ON_LINUX@)
        } else {
            Some(SECCOMP_ONLY_ON_LINUX_X86_64@)
        },
        _ => if platform.is_linux {
            None
        } else {
            Some(ONLY_ON_LINUX@)
        },
    }
}

/// The failure of the probe of capability `c` on a platform that cannot run
/// it, or `None` where the probe can run.
pub fn unsupported_probe(c: Capability, platform: Platform) -> (r: Option<SecureModeError>)
    ensures
        match unsupported_reason(c, platform) {
            None => r is None,
            Some(reason) => r is Some && error_capability(r->Some_0) == c && r->Some_0.detail()@
                == reason,
        },
{
    let reason: Option<&'static str> = match c {
        Capability::Seccomp => if platform.is_linux && platform.is_x86_64 {
            None
        } else if platform.is_linux {
            Some(SECCOMP_ONLY_ON_X86_64)
        } else if platform.is_x86_64 {
            Some(SECCOMP_ONLY_ON_LINUX)
        } else {
            Some(SECCOMP_ONLY_ON_LINUX_X86_64)
        },
        _ => if platform.is_linux {
            None
        } else {
            Some(ONLY_ON_LINUX)
        },
    };
    match reason {
        None => None,
        Some(text) => Some(SecureModeError::for_capability(c, String::from_str(text))),
    }
}

pub const NOT_AVAILABLE: &'static str = "not available";

pub const NOT_AVAILABLE_BECAUSE: &'static str = "not available: ";

pub const LANDLOCK_ABI_LEAD: &'static str = "landlock ABI ";

pub const LANDLOCK_ABI_TAIL: &'static str = " not available";

/// The diagnostic of a probe of capability `c` whose process failed and
/// wrote `stderr`, with surrounding whitespace removed, to standard error.
/// With nothing written, the landlock probe names the ABI version that it
/// asked for.
pub open spec fn failure_detail(c: Capability, stderr: Seq<char>, landlock_abi: u8) -> Seq<char> {
    if stderr.len() == 0 {
        match c {
            Capability::Landlock => LANDLOCK_ABI_LEAD@ + decimal(landlock_abi as nat)
                + LANDLOCK_ABI_TAIL@,
            _ => NOT_AVAILABLE@,
        }
    } else {
        NOT_AVAILABLE_BECAUSE@ + stderr
    }
}

/// The failure of a probe of capability `c` whose process did not succeed,
/// given the trimmed text of its standard error.
pub fn failure_from_stderr(c: Capability, trimmed_stderr: &str, landlock_abi: u8) -> (r:
    SecureModeError)
    ensures
        error_capability(r) == c,
        r.detail()@ == failure_detail(c, trimmed_stderr@, landlock_abi),
{
    let mut detail: String;
    if trimmed_stderr.is_empty() {
        match c {
            Capability::Landlock => {
                detail = String::from_str(LANDLOCK_ABI_LEAD);
                push_decimal(&mut detail, landlock_abi as u32);
                detail.append(LANDLOCK_ABI_TAIL);
            },
            _ => {
                detail = String::from_str(NOT_AVAILABLE);
            },
        }
    } else {
        detail = String::from_str(NOT_AVAILABLE_BECAUSE);
        detail.append(trimmed_stderr);
    }
    SecureModeError::for_capability(c, detail)
}

/// The result of a probe of capability `c` whose process ran to its end:
/// success when it exited successfully, otherwise a failure whose diagnostic
/// comes from its standard error with surrounding whitespace removed.
pub fn probe_result_from_output(c: Capability, success: bool, stderr: &str, landlock_abi: u8) -> (r:
    SecureModeResult)
    ensures
        success ==> r is Ok,
        !success ==> r is Err && error_capability(r->Err_0) == c && r->Err_0.detail()@
            == failure_detail(c, trim(stderr@), landlock_abi),
{
    if success {
        Ok(())
    } else {
        let trimmed = trim_whitespace(stderr);
        Err(failure_from_stderr(c, trimmed.as_str(), landlock_abi))
    }
}

pub const LAUNCH_FAILURE: &'static str = "could not start child process: ";

/// The failure of a probe of capability `c` whose process could not be
/// started, given the description of the launch error.
pub fn launch_failure(c: Capability, err: &str) -> (r: SecureModeError)
    ensures
        error_capability(r) == c,
        r.detail()@ == LAUNCH_FAILURE@ + err@,
{
    let mut detail = String::from_str(LAUNCH_FAILURE);
    detail.append(err);
    SecureModeError::for_capability(c, detail)
}

pub const TEMP_DIR_FAILURE_LEAD: &'static str = "could not create a temporary directory in ";

pub const TEMP_DIR_FAILURE_SEPARATOR: &'static str = ": ";

/// The failure of the namespace probe when no temporary directory could be
/// made under the cache path, given the quoted path and the error.
pub fn temp_dir_failure(quoted_cache_path: &str, err: &str) -> (r: SecureModeError)
    ensures
        error_capability(r) == Capability::UnshareUserNamespaceAndChangeRoot,
        r.detail()@ == TEMP_DIR_FAILURE_LEAD@ + quoted_cache_path@ + TEMP_DIR_FAILURE_SEPARATOR@
            + err@,
{
    let mut detail = String::from_str(TEMP_DIR_FAILURE_LEAD);
    detail.append(quoted_cache_path);
    detail.append(TEMP_DIR_FAILURE_SEPARATOR);
    detail.append(err);
    SecureModeError::CannotUnshareUserNamespaceAndChangeRoot(detail)
}

} // verus!
