//! The security posture of a host: which sandboxing capabilities it offers,
//! which of the missing ones a compensating capability makes tolerable, and
//! whether Secure Validator Mode can be run.

use vstd::prelude::*;
use vstd::string::StringExecFns;

verus! {

/// What the host offers, as a record that the rest of a node keeps for its
/// lifetime: whether secure mode is required, and which capabilities exist.
#[derive(Clone, Copy, Debug, PartialEq, Eq, Structural)]
pub struct SecurityStatus {
    pub secure_validator_mode: bool,
    pub can_enable_landlock: bool,
    pub can_enable_seccomp: bool,
    pub can_unshare_user_namespace_and_change_root: bool,
}

/// One of the three sandboxing capabilities that a host is probed for.
#[derive(Clone, Copy, Debug, PartialEq, Eq, Structural)]
pub enum Capability {
    /// The LSM-based per-process sandbox.
    Landlock,
    /// Syscall filtering.
    Seccomp,
    /// An unprivileged user namespace together with a change of root.
    UnshareUserNamespaceAndChangeRoot,
}

/// The compensating-control table: the capability whose presence makes the
/// absence of `c` tolerable in secure mode, if any.
pub open spec fn compensating(c: Capability) -> Option<Capability> {
    match c {
        Capability::Landlock => Some(Capability::UnshareUserNamespaceAndChangeRoot),
        Capability::Seccomp => None,
        Capability::UnshareUserNamespaceAndChangeRoot => Some(Capability::Landlock),
    }
}

/// Whether `status` records capability `c` as available.
pub open spec fn has_capability(status: SecurityStatus, c: Capability) -> bool {
    match c {
        Capability::Landlock => status.can_enable_landlock,
        Capability::Seccomp => status.can_enable_seccomp,
        Capability::UnshareUserNamespaceAndChangeRoot => status.can_unshare_user_namespace_and_change_root,
    }
}

/// Whether the absence of `c` is tolerable in secure mode under `status`:
/// its compensating capability exists and is available.
pub open spec fn tolerable(c: Capability, status: SecurityStatus) -> bool {
    match compensating(c) {
        Some(other) => has_capability(status, other),
        None => false,
    }
}

impl Capability {
    /// The capability whose presence makes the absence of this one tolerable.
    pub fn compensated_by(self) -> (r: Option<Capability>)
        ensures
            r == compensating(self),
    {
        match self {
            Capability::Landlock => Some(Capability::UnshareUserNamespaceAndChangeRoot),
            Capability::Seccomp => None,
            Capability::UnshareUserNamespaceAndChangeRoot => Some(Capability::Landlock),
        }
    }
}

impl SecurityStatus {
    /// Whether this record shows capability `c` as available.
    pub fn has(&self, c: Capability) -> (r: bool)
        ensures
            r == has_capability(*self, c),
    {
        match c {
            Capability::Landlock => self.can_enable_landlock,
            Capability::Seccomp => self.can_enable_seccomp,
            Capability::UnshareUserNamespaceAndChangeRoot => self.can_unshare_user_namespace_and_change_root,
        }
    }
}

pub const LANDLOCK_ERROR_PREFIX: &'static str =
    "Cannot enable landlock, a Linux 5.13+ kernel security feature: ";

pub const SECCOMP_ERROR_PREFIX: &'static str =
    "Cannot enable seccomp, a Linux-specific kernel security feature: ";

pub const CHANGE_ROOT_ERROR_PREFIX: &'static str =
    "Cannot unshare user namespace and change root, which are Linux-specific kernel security features: ";

/// A capability that could not be enabled, with a diagnostic.
#[derive(Debug, PartialEq, Eq)]
pub enum SecureModeError {
    CannotEnableLandlock(String),
    CannotEnableSeccomp(String),
    CannotUnshareUserNamespaceAndChangeRoot(String),
}

/// The outcome of one capability probe.
pub type SecureModeResult = Result<(), SecureModeError>;

/// The capability that error `e` reports as missing.
pub open spec fn error_capability(e: SecureModeError) -> Capability {
    match e {
        SecureModeError::CannotEnableLandlock(_) => Capability::Landlock,
        SecureModeError::CannotEnableSeccomp(_) => Capability::Seccomp,
        SecureModeError::CannotUnshareUserNamespaceAndChangeRoot(_) => Capability::UnshareUserNamespaceAndChangeRoot,
    }
}

/// The text that describes error `e` to an operator.
pub open spec fn error_message(e: SecureModeError) -> Seq<char> {
    match e {
        SecureModeError::CannotEnableLandlock(d) => LANDLOCK_ERROR_PREFIX@ + d@,
        SecureModeError::CannotEnableSeccomp(d) => SECCOMP_ERROR_PREFIX@ + d@,
        SecureModeError::CannotUnshareUserNamespaceAndChangeRoot(d) => CHANGE_ROOT_ERROR_PREFIX@ + d@,
    }
}

impl SecureModeError {
    /// The error that reports capability `c` as missing, with diagnostic `detail`.
    pub fn for_capability(c: Capability, detail: String) -> (r: SecureModeError)
        ensures
            error_capability(r) == c,
            r.detail()@ == detail@,
    {
        match c {
            Capability::Landlock => SecureModeError::CannotEnableLandlock(detail),
            Capability::Seccomp => SecureModeError::CannotEnableSeccomp(detail),
            Capability::UnshareUserNamespaceAndChangeRoot => SecureModeError::CannotUnshareUserNamespaceAndChangeRoot(detail),
        }
    }

    /// The diagnostic that the error carries.
    pub open spec fn detail(&self) -> String {
        match self {
            SecureModeError::CannotEnableLandlock(d) => *d,
            SecureModeError::CannotEnableSeccomp(d) => *d,
            SecureModeError::CannotUnshareUserNamespaceAndChangeRoot(d) => *d,
        }
    }

    /// The capability that this error reports as missing.
    pub fn capability(&self) -> (r: Capability)
        ensures
            r == error_capability(*self),
    {
        match self {
            SecureModeError::CannotEnableLandlock(_) => Capability::Landlock,
            SecureModeError::CannotEnableSeccomp(_) => Capability::Seccomp,
            SecureModeError::CannotUnshareUserNamespaceAndChangeRoot(_) => Capability::UnshareUserNamespaceAndChangeRoot,
        }
    }

    /// Whether this error is allowed with Secure Validator Mode enabled: the
    /// missing capability has a compensating one that `security_status` shows
    /// as available.
    pub fn is_allowed_in_secure_mode(&self, security_status: &SecurityStatus) -> (r: bool)
        ensures
            r == tolerable(error_capability(*self), *security_status),
    {
        match self.capability().compensated_by() {
            Some(other) => security_status.has(other),
            None => false,
        }
    }

    /// The text that describes this error to an operator.
    pub fn message(&self) -> (r: String)
        ensures
            r@ == error_message(*self),
    {
        match self {
            SecureModeError::CannotEnableLandlock(d) => {
                let mut r = String::from_str(LANDLOCK_ERROR_PREFIX);
                r.append(d.as_str());
                r
            },
            SecureModeError::CannotEnableSeccomp(d) => {
                let mut r = String::from_str(SECCOMP_ERROR_PREFIX);
                r.append(d.as_str());
                r
            },
            SecureModeError::CannotUnshareUserNamespaceAndChangeRoot(d) => {
                let mut r = String::from_str(CHANGE_ROOT_ERROR_PREFIX);
                r.append(d.as_str());
                r
            },
        }
    }
}

/// Whether a probe outcome is a success or a failure of capability `c`.
pub open spec fn outcome_of(r: SecureModeResult, c: Capability) -> bool {
    r is Err ==> error_capability(r->Err_0) == c
}

/// Whether each of the three probe outcomes stands in its own position: a
/// failure reports the capability of the probe that gave it.
pub open spec fn outcomes_in_place(
    landlock: SecureModeResult,
    seccomp: SecureModeResult,
    change_root: SecureModeResult,
) -> bool {
    &&& outcome_of(landlock, Capability::Landlock)
    &&& outcome_of(seccomp, Capability::Seccomp)
    &&& outcome_of(change_root, Capability::UnshareUserNamespaceAndChangeRoot)
}

/// The errors that a probe outcome contributes: none, or its one error.
pub open spec fn outcome_errors(r: SecureModeResult) -> Seq<SecureModeError> {
    match r {
        Ok(_) => Seq::empty(),
        Err(e) => seq![e],
    }
}

/// Whether every error in `errs` is tolerable under `status`, or secure mode
/// is not required at all.
pub open spec fn errors_allowed(status: SecurityStatus, errs: Seq<SecureModeError>) -> bool {
    !status.secure_validator_mode || forall|i: int|
        0 <= i < errs.len() ==> tolerable(error_capability(#[trigger] errs[i]), status)
}

pub const ERROR_LIST_ITEM: &'static str = "\n  - ";

pub const OPTIONAL_LABEL: &'static str = "Optional: ";

/// The list item that shows error `e` in a report under `status`, labelled
/// optional when its absence is tolerable.
pub open spec fn error_item(e: SecureModeError, status: SecurityStatus) -> Seq<char> {
    ERROR_LIST_ITEM@ + (if tolerable(error_capability(e), status) {
        OPTIONAL_LABEL@
    } else {
        Seq::empty()
    }) + error_message(e)
}

/// The list of `errs` in a report under `status`, one item per error, in order.
pub open spec fn error_list(errs: Seq<SecureModeError>, status: SecurityStatus) -> Seq<char>
    decreases errs.len(),
{
    if errs.len() == 0 {
        Seq::empty()
    } else {
        error_list(errs.drop_last(), status) + error_item(errs.last(), status)
    }
}

/// The probe results of one check together with the status record that they
/// give.
pub struct FullSecurityStatus {
    pub partial: SecurityStatus,
    pub errs: Vec<SecureModeError>,
}

impl FullSecurityStatus {
    /// Gathers the outcomes of the three probes: the status record shows a
    /// capability as available exactly when its probe succeeded, and the
    /// errors of the failed probes are kept in probe order.
    pub fn new(
        secure_validator_mode: bool,
        landlock: SecureModeResult,
        seccomp: SecureModeResult,
        change_root: SecureModeResult,
    ) -> (r: Self)
        requires
            outcomes_in_place(landlock, seccomp, change_root),
        ensures
            r.partial == (SecurityStatus {
                secure_validator_mode,
                can_enable_landlock: landlock is Ok,
                can_enable_seccomp: seccomp is Ok,
                can_unshare_user_namespace_and_change_root: change_root is Ok,
            }),
            r.errs@ == outcome_errors(landlock) + outcome_errors(seccomp) + outcome_errors(
                change_root,
            ),
    {
        let partial = SecurityStatus {
            secure_validator_mode,
            can_enable_landlock: landlock.is_ok(),
            can_enable_seccomp: seccomp.is_ok(),
            can_unshare_user_namespace_and_change_root: change_root.is_ok(),
        };
        let mut errs: Vec<SecureModeError> = Vec::new();
        match landlock {
            Ok(()) => {},
            Err(e) => errs.push(e),
        }
        match seccomp {
            Ok(()) => {},
            Err(e) => errs.push(e),
        }
        match change_root {
            Ok(()) => {},
            Err(e) => errs.push(e),
        }
        assert(errs@ =~= outcome_errors(landlock) + outcome_errors(seccomp) + outcome_errors(
            change_root,
        ));
        FullSecurityStatus { partial, errs }
    }

    /// The status record, without the errors.
    pub fn as_partial(&self) -> (r: SecurityStatus)
        ensures
            r == self.partial,
    {
        self.partial
    }

    /// Whether any probe failed.
    pub fn err_occurred(&self) -> (r: bool)
        ensures
            r == (self.errs@.len() > 0),
    {
        self.errs.len() > 0
    }

    /// Whether every failure is tolerable, or secure mode is not required.
    pub fn all_errs_allowed(&self) -> (r: bool)
        ensures
            r == errors_allowed(self.partial, self.errs@),
    {
        if !self.partial.secure_validator_mode {
            return true;
        }
        let mut i: usize = 0;
        while i < self.errs.len()
            invariant
                self.partial.secure_validator_mode,
                i <= self.errs@.len(),
                forall|k: int|
                    0 <= k < i ==> tolerable(error_capability(#[trigger] self.errs@[k]), self.partial),
            decreases self.errs@.len() - i,
        {
            if !self.errs[i].is_allowed_in_secure_mode(&self.partial) {
                assert(!tolerable(error_capability(self.errs@[i as int]), self.partial));
                return false;
            }
            i = i + 1;
        }
        true
    }

    /// The failures as a list, one item per line, each labelled optional when
    /// it is tolerable.
    pub fn errs_string(&self) -> (r: String)
        ensures
            r@ == error_list(self.errs@, self.partial),
    {
        let mut r = String::new();
        let mut i: usize = 0;
        while i < self.errs.len()
            invariant
                i <= self.errs@.len(),
                r@ == error_list(self.errs@.subrange(0, i as int), self.partial),
            decreases self.errs@.len() - i,
        {
            let err = &self.errs[i];
            r.append(ERROR_LIST_ITEM);
            if err.is_allowed_in_secure_mode(&self.partial) {
                r.append(OPTIONAL_LABEL);
            }
            let message = err.message();
            r.append(message.as_str());
            proof {
                let next = self.errs@.subrange(0, i + 1);
                assert(next.drop_last() =~= self.errs@.subrange(0, i as int));
            }
            i = i + 1;
            assert(r@ =~= error_list(self.errs@.subrange(0, i as int), self.partial));
        }
        assert(self.errs@.subrange(0, i as int) =~= self.errs@);
        r
    }
}

/// How loudly a message is meant to be logged.
#[derive(Clone, Copy, Debug, PartialEq, Eq, Structural)]
pub enum LogLevel {
    Info,
    Warn,
    Error,
}

/// A message for the operator, with its level.
#[derive(Debug, PartialEq, Eq)]
pub struct LogMessage {
    pub level: LogLevel,
    pub text: String,
}

/// Whether `m` is the message `text` at `level`.
pub open spec fn is_message(m: LogMessage, level: LogLevel, text: Seq<char>) -> bool {
    m.level == level && m.text@ == text
}

/// Opens the report when secure mode is required and some failure is not
/// tolerable.
pub const SECURE_MODE_ERROR: &'static str = "\u{1f6a8} Your system cannot securely run a validator. \
     \nRunning validation of malicious PVF code has a higher risk of compromising this machine.";

/// Opens the report when every failure is tolerable or secure mode is not
/// required.
pub const SECURE_MODE_WARNING: &'static str = "\u{1f6a8} Some security issues have been detected. \
     \nRunning validation of malicious PVF code has a higher risk of compromising this machine.";

/// Closes the report of a blocking failure: how to override the requirement.
pub const IGNORE_SECURE_MODE_TIP: &'static str =
    "\nYou can ignore this error with the `--insecure-validator-i-know-what-i-do` \
     command line argument if you understand and accept the risks of running insecurely. \
     \nMore information: https://wiki.polkadot.network/docs/maintain-guides-secure-validator#secure-validator-mode";

/// Confirms that the node runs in Secure Validator Mode.
pub const SECURE_MODE_NOTICE: &'static str =
    "\u{1f46e}\u{200d}\u{2640}\u{fe0f} Running in Secure Validator Mode. \
     It is highly recommended that you operate according to our security guidelines. \
     More information: https://wiki.polkadot.network/docs/maintain-guides-secure-validator.";

/// The error of a check that could not establish the required security level.
pub const SECURE_MODE_FAILURE: &'static str = "could not enable Secure Validator Mode; check logs";

/// The level of the report on the failures `errs` under `status`: an error
/// when some failure blocks secure mode, a warning otherwise.
pub open spec fn report_level(status: SecurityStatus, errs: Seq<SecureModeError>) -> LogLevel {
    if errors_allowed(status, errs) {
        LogLevel::Warn
    } else {
        LogLevel::Error
    }
}

/// The text of the report on the failures `errs` under `status`.
pub open spec fn report_text(status: SecurityStatus, errs: Seq<SecureModeError>) -> Seq<char> {
    if errors_allowed(status, errs) {
        SECURE_MODE_WARNING@ + error_list(errs, status)
    } else {
        SECURE_MODE_ERROR@ + error_list(errs, status) + IGNORE_SECURE_MODE_TIP@
    }
}

/// The report on the failures of a check: an error when secure mode is
/// required and some failure is not tolerable, a warning otherwise.
pub fn secure_mode_error_or_warning(security_status: &FullSecurityStatus) -> (r: LogMessage)
    ensures
        is_message(
            r,
            report_level(security_status.partial, security_status.errs@),
            report_text(security_status.partial, security_status.errs@),
        ),
{
    let all_errs_allowed = security_status.all_errs_allowed();
    let errs_string = security_status.errs_string();
    if all_errs_allowed {
        let mut text = String::from_str(SECURE_MODE_WARNING);
        text.append(errs_string.as_str());
        LogMessage { level: LogLevel::Warn, text }
    } else {
        let mut text = String::from_str(SECURE_MODE_ERROR);
        text.append(errs_string.as_str());
        text.append(IGNORE_SECURE_MODE_TIP);
        LogMessage { level: LogLevel::Error, text }
    }
}

/// What a security check decided, with the messages to log in order.
#[derive(Debug, PartialEq, Eq)]
pub struct SecurityCheck {
    pub result: Result<SecurityStatus, String>,
    pub log: Vec<LogMessage>,
}

/// The status record that the outcomes of the three probes give.
pub open spec fn probe_status(
    secure_validator_mode: bool,
    landlock: SecureModeResult,
    seccomp: SecureModeResult,
    change_root: SecureModeResult,
) -> SecurityStatus {
    SecurityStatus {
        secure_validator_mode,
        can_enable_landlock: landlock is Ok,
        can_enable_seccomp: seccomp is Ok,
        can_unshare_user_namespace_and_change_root: change_root is Ok,
    }
}

/// The errors of the failed probes, in probe order.
pub open spec fn probe_errors(
    landlock: SecureModeResult,
    seccomp: SecureModeResult,
    change_root: SecureModeResult,
) -> Seq<SecureModeError> {
    outcome_errors(landlock) + outcome_errors(seccomp) + outcome_errors(change_root)
}

/// Whether the check succeeds on these probe outcomes: secure mode is not
/// required, or every failure has an available compensating capability.
pub open spec fn check_succeeds(
    secure_validator_mode: bool,
    landlock: SecureModeResult,
    seccomp: SecureModeResult,
    change_root: SecureModeResult,
) -> bool {
    errors_allowed(
        probe_status(secure_validator_mode, landlock, seccomp, change_root),
        probe_errors(landlock, seccomp, change_root),
    )
}

/// What a security check owes on these probe outcomes: the status record or
/// the failure, a report on the failed probes first if there are any, and a
/// notice last when it succeeds in secure mode.
pub open spec fn security_check_spec(
    secure_validator_mode: bool,
    landlock: SecureModeResult,
    seccomp: SecureModeResult,
    change_root: SecureModeResult,
    r: SecurityCheck,
) -> bool {
    let status = probe_status(secure_validator_mode, landlock, seccomp, change_root);
    let errs = probe_errors(landlock, seccomp, change_root);
    let succeeds = check_succeeds(secure_validator_mode, landlock, seccomp, change_root);
    let notice = succeeds && secure_validator_mode;
    &&& succeeds ==> r.result == Ok::<SecurityStatus, String>(status)
    &&& !succeeds ==> r.result is Err && r.result->Err_0@ == SECURE_MODE_FAILURE@
    &&& errs.len() == 0 ==> r.log@.len() == (if notice { 1int } else { 0 })
    &&& errs.len() > 0 ==> r.log@.len() == (if notice { 2int } else { 1 }) && is_message(
        r.log@[0],
        report_level(status, errs),
        report_text(status, errs),
    )
    &&& notice ==> is_message(r.log@.last(), LogLevel::Info, SECURE_MODE_NOTICE@)
}

/// Decides the security posture from the outcomes of the three probes.
///
/// The result is an error only when secure mode is required and some failure
/// has no available compensating capability; otherwise it is the status
/// record, which may show capabilities as missing. Any failure is reported
/// first, as an error or a warning; a successful check in secure mode then
/// logs a notice.
pub fn check_security_status(
    secure_validator_mode: bool,
    landlock: SecureModeResult,
    seccomp: SecureModeResult,
    change_root: SecureModeResult,
) -> (r: SecurityCheck)
    requires
        outcomes_in_place(landlock, seccomp, change_root),
    ensures
        security_check_spec(secure_validator_mode, landlock, seccomp, change_root, r),
{
    let full_security_status = FullSecurityStatus::new(
        secure_validator_mode,
        landlock,
        seccomp,
        change_root,
    );
    let security_status = full_security_status.as_partial();
    let mut log: Vec<LogMessage> = Vec::new();
    if full_security_status.err_occurred() {
        log.push(secure_mode_error_or_warning(&full_security_status));
        if !full_security_status.all_errs_allowed() {
            return SecurityCheck { result: Err(String::from_str(SECURE_MODE_FAILURE)), log };
        }
    }
    if security_status.secure_validator_mode {
        log.push(LogMessage { level: LogLevel::Info, text: String::from_str(SECURE_MODE_NOTICE) });
    }
    SecurityCheck { result: Ok(security_status), log }
}

/// The compensating-control table: a missing landlock is tolerable exactly
/// when the namespace capability is available, a missing namespace capability
/// exactly when landlock is available, and a missing seccomp never.
pub proof fn lemma_compensating_controls(status: SecurityStatus)
    ensures
        tolerable(Capability::Landlock, status) == status.can_unshare_user_namespace_and_change_root,
        tolerable(Capability::UnshareUserNamespaceAndChangeRoot, status)
            == status.can_enable_landlock,
        !tolerable(Capability::Seccomp, status),
{
}

/// When secure mode is not required the check succeeds, whichever probes
/// failed.
pub proof fn lemma_optional_mode_never_fails(
    landlock: SecureModeResult,
    seccomp: SecureModeResult,
    change_root: SecureModeResult,
)
    ensures
        check_succeeds(false, landlock, seccomp, change_root),
{
}

/// With every capability available and secure mode required, the check
/// succeeds, reports no failure, and logs only the secure-mode notice.
pub proof fn lemma_full_capabilities_give_notice(r: SecurityCheck)
    requires
        security_check_spec(true, Ok(()), Ok(()), Ok(()), r),
    ensures
        r.result == Ok::<SecurityStatus, String>(
            SecurityStatus {
                secure_validator_mode: true,
                can_enable_landlock: true,
                can_enable_seccomp: true,
                can_unshare_user_namespace_and_change_root: true,
            },
        ),
        r.log@.len() == 1,
        is_message(r.log@[0], LogLevel::Info, SECURE_MODE_NOTICE@),
{
    assert(probe_errors(Ok(()), Ok(()), Ok(())) =~= Seq::<SecureModeError>::empty());
}

/// Deciding the posture twice on the same probe outcomes gives the same
/// verdict, the same status record and the same messages.
pub proof fn lemma_check_is_deterministic(
    secure_validator_mode: bool,
    landlock: SecureModeResult,
    seccomp: SecureModeResult,
    change_root: SecureModeResult,
    first: SecurityCheck,
    second: SecurityCheck,
)
    requires
        security_check_spec(secure_validator_mode, landlock, seccomp, change_root, first),
        security_check_spec(secure_validator_mode, landlock, seccomp, change_root, second),
    ensures
        first.result is Ok <==> second.result is Ok,
        first.result is Ok ==> first.result == second.result,
        first.result is Err ==> first.result->Err_0@ == second.result->Err_0@,
        first.log@.len() == second.log@.len(),
        forall|i: int|
            0 <= i < first.log@.len() ==> (#[trigger] first.log@[i]).level == second.log@[i].level
                && first.log@[i].text@ == second.log@[i].text@,
{
    let errs = probe_errors(landlock, seccomp, change_root);
    assert forall|i: int| 0 <= i < first.log@.len() implies (#[trigger] first.log@[i]).level
        == second.log@[i].level && first.log@[i].text@ == second.log@[i].text@ by {
        if errs.len() > 0 && i == 0 {
        } else {
            assert(i == first.log@.len() - 1);
        }
    }
}

/// With the outcomes in place, the check succeeds exactly when secure mode is
/// not required or each failed probe's capability has its compensating
/// capability available.
pub proof fn lemma_check_succeeds_by_availability(
    secure_validator_mode: bool,
    landlock: SecureModeResult,
    seccomp: SecureModeResult,
    change_root: SecureModeResult,
)
    requires
        outcomes_in_place(landlock, seccomp, change_root),
    ensures
        ({
            let status = probe_status(secure_validator_mode, landlock, seccomp, change_root);
            check_succeeds(secure_validator_mode, landlock, seccomp, change_root) == (
            !secure_validator_mode || ((landlock is Err ==> tolerable(Capability::Landlock, status))
                && seccomp is Ok && (change_root is Err ==> tolerable(
                Capability::UnshareUserNamespaceAndChangeRoot,
                status,
            ))))
        }),
{
    let status = probe_status(secure_validator_mode, landlock, seccomp, change_root);
    let errs = probe_errors(landlock, seccomp, change_root);
    let a = outcome_errors(landlock);
    let b = outcome_errors(seccomp);
    let c = outcome_errors(change_root);
    assert(errs == a + b + c);
    if secure_validator_mode {
        if errors_allowed(status, errs) {
            if landlock is Err {
                assert(errs[0] == landlock->Err_0);
            }
            if seccomp is Err {
                assert(errs[a.len() as int] == seccomp->Err_0);
            }
            if change_root is Err {
                assert(errs[(a.len() + b.len()) as int] == change_root->Err_0);
            }
        } else {
            let i = choose|i: int|
                0 <= i < errs.len() && !tolerable(error_capability(#[trigger] errs[i]), status);
            if i < a.len() {
                assert(errs[i] == landlock->Err_0);
            } else if i < a.len() + b.len() {
                assert(errs[i] == seccomp->Err_0);
            } else {
                assert(errs[i] == change_root->Err_0);
            }
        }
    }
}

/// The verdict depends on which probes succeeded, not on their diagnostics:
/// two sets of outcomes in place with the same successes give the same
/// status record and the same verdict.
pub proof fn lemma_verdict_depends_on_availability_only(
    secure_validator_mode: bool,
    landlock: SecureModeResult,
    seccomp: SecureModeResult,
    change_root: SecureModeResult,
    other_landlock: SecureModeResult,
    other_seccomp: SecureModeResult,
    other_change_root: SecureModeResult,
)
    requires
        outcomes_in_place(landlock, seccomp, change_root),
        outcomes_in_place(other_landlock, other_seccomp, other_change_root),
        landlock is Ok == other_landlock is Ok,
        seccomp is Ok == other_seccomp is Ok,
        change_root is Ok == other_change_root is Ok,
    ensures
        probe_status(secure_validator_mode, landlock, seccomp, change_root) == probe_status(
            secure_validator_mode,
            other_landlock,
            other_seccomp,
            other_change_root,
        ),
        check_succeeds(secure_validator_mode, landlock, seccomp, change_root) == check_succeeds(
            secure_validator_mode,
            other_landlock,
            other_seccomp,
            other_change_root,
        ),
{
    lemma_check_succeeds_by_availability(secure_validator_mode, landlock, seccomp, change_root);
    lemma_check_succeeds_by_availability(
        secure_validator_mode,
        other_landlock,
        other_seccomp,
        other_change_root,
    );
}

} // verus!
