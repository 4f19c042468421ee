//! Extraction of syscall-filter violations from the text that the system
//! audit log gained while a job ran.
//!
//! A log line counts as a violation of the job when it is a syscall-audit
//! record, names the job's process id, and carries a `syscall=<N>` field.
//! Process ids can be reused between the end of the job and the read of the
//! log, so the result is best effort only.

use vstd::prelude::*;
use vstd::string::StringExecFns;
use crate::text::{
    chars_of, contains, contains_chars, find_segment_end, has_prefix, matches_at,
    parse_u32, parse_u32_spec, push_signed_decimal, segment_end, signed_decimal, slice_chars,
};

verus! {

/// The event-type marker of syscall-audit records.
pub const SECCOMP_AUDIT_EVENT_TYPE: &'static str = "type=1326";

/// The prefix of the field that names the offending syscall.
pub const SYSCALL_FIELD_PREFIX: &'static str = "syscall=";

/// The prefix of the field that names the process.
pub const PID_FIELD_PREFIX: &'static str = "pid=";

/// The text of the first space-separated field of `s`, from the field that
/// starts at `from` on, that begins with `syscall=`, without that prefix.
pub open spec fn syscall_field_value(s: Seq<char>, from: int) -> Option<Seq<char>>
    decreases s.len() - from,
{
    if from < 0 || from > s.len() {
        None
    } else {
        let e = segment_end(s, from, ' ');
        if from <= e && has_prefix(s.subrange(from, e), SYSCALL_FIELD_PREFIX@) {
            Some(s.subrange(from + SYSCALL_FIELD_PREFIX@.len(), e))
        } else if from <= e < s.len() {
            syscall_field_value(s, e + 1)
        } else {
            None
        }
    }
}

/// Whether one of the space-separated fields of `s`, from the field that
/// starts at `from` on, equals `f` as a whole.
pub open spec fn field_present(s: Seq<char>, from: int, f: Seq<char>) -> bool
    decreases s.len() - from,
{
    if from < 0 || from > s.len() {
        false
    } else {
        let e = segment_end(s, from, ' ');
        (from <= e && s.subrange(from, e) == f) || (from <= e < s.len() && field_present(
            s,
            e + 1,
            f,
        ))
    }
}

/// Whether one of the space-separated fields of `s` equals `f` as a whole.
pub open spec fn has_field(s: Seq<char>, f: Seq<char>) -> bool {
    field_present(s, 0, f)
}

/// Whether one of the space-separated fields of `s` equals `f` as a whole.
pub fn has_field_chars(s: &Vec<char>, f: &Vec<char>) -> (r: bool)
    ensures
        r == has_field(s@, f@),
{
    let n: usize = s.len();
    let mut start: usize = 0;
    loop
        invariant
            n == s@.len(),
            start <= n,
            has_field(s@, f@) == field_present(s@, start as int, f@),
        decreases n - start,
    {
        let e = find_segment_end(s, start, ' ');
        let is_field = if e - start == f.len() {
            let m = matches_at(s, f, start);
            assert(m == (s@.subrange(start as int, e as int) == f@));
            m
        } else {
            assert(s@.subrange(start as int, e as int).len() != f@.len());
            false
        };
        if is_field {
            return true;
        }
        if e == n {
            return false;
        }
        start = e + 1;
    }
}

/// The syscall that the log line `event` reports for the process whose pid
/// field is `pid_field`, if it is a syscall-audit record of that process.
pub open spec fn seccomp_event_syscall(event: Seq<char>, pid_field: Seq<char>) -> Option<u32> {
    if !contains(event, SECCOMP_AUDIT_EVENT_TYPE@) || !has_field(event, pid_field) {
        None
    } else {
        match syscall_field_value(event, 0) {
            Some(v) => parse_u32_spec(v),
            None => None,
        }
    }
}

/// The pid field that names process `pid` in the audit log.
pub open spec fn pid_field(pid: int) -> Seq<char> {
    PID_FIELD_PREFIX@ + signed_decimal(pid)
}

/// The line of `s` that starts at `start` and ends at `end`, where `end` is
/// the index of its line feed or the end of `s`; a carriage return before the
/// line feed is not part of the line.
pub open spec fn line_at(s: Seq<char>, start: int, end: int) -> Seq<char> {
    if end < s.len() && end > start && s[end - 1] == '\r' {
        s.subrange(start, end - 1)
    } else {
        s.subrange(start, end)
    }
}

/// The syscalls reported for the process whose pid field is `pid_field` in
/// the lines of `s` from index `start` on, in the order of the lines.
pub open spec fn violations_from(s: Seq<char>, start: int, pid_field: Seq<char>) -> Seq<u32>
    decreases s.len() - start,
{
    if start < 0 || start >= s.len() {
        Seq::empty()
    } else {
        let e = segment_end(s, start, '\n');
        let here = match seccomp_event_syscall(line_at(s, start, e), pid_field) {
            Some(n) => seq![n],
            None => Seq::empty(),
        };
        if start <= e < s.len() {
            here + violations_from(s, e + 1, pid_field)
        } else {
            here
        }
    }
}

/// The syscalls reported for the process whose pid field is `pid_field` in
/// all lines of `log`, oldest first.
pub open spec fn log_violations(log: Seq<char>, pid_field: Seq<char>) -> Seq<u32> {
    violations_from(log, 0, pid_field)
}

fn syscall_of_event(event: &Vec<char>, pid_field: &Vec<char>) -> (r: Option<u32>)
    ensures
        r == seccomp_event_syscall(event@, pid_field@),
{
    let event_type = chars_of(SECCOMP_AUDIT_EVENT_TYPE);
    if !contains_chars(event, &event_type) || !has_field_chars(event, pid_field) {
        return None;
    }
    let prefix = chars_of(SYSCALL_FIELD_PREFIX);
    let n: usize = event.len();
    let mut start: usize = 0;
    loop
        invariant
            n == event@.len(),
            start <= n,
            prefix@ == SYSCALL_FIELD_PREFIX@,
            contains(event@, SECCOMP_AUDIT_EVENT_TYPE@),
            has_field(event@, pid_field@),
            syscall_field_value(event@, 0) == syscall_field_value(event@, start as int),
        decreases n - start,
    {
        let e = find_segment_end(event, start, ' ');
        let ghost field = event@.subrange(start as int, e as int);
        let is_syscall_field = if prefix.len() <= e - start {
            let m = matches_at(event, &prefix, start);
            assert(field.subrange(0, prefix@.len() as int) =~= event@.subrange(
                start as int,
                start + prefix@.len(),
            ));
            m
        } else {
            false
        };
        assert(is_syscall_field == has_prefix(field, SYSCALL_FIELD_PREFIX@));
        if is_syscall_field {
            let value = slice_chars(event, start + prefix.len(), e);
            return parse_u32(&value);
        }
        if e == n {
            return None;
        }
        start = e + 1;
    }
}

/// Reports the syscall of `event` when it is a syscall-audit record that
/// holds `audit_event_pid_field` as one of its fields.
///
/// The fields of a record need not come in a fixed order: the line
/// must hold the event-type marker somewhere and a field equal to the pid
/// field, and the first space-separated field that starts with `syscall=`
/// gives the syscall, which must parse as an unsigned 32-bit integer.
pub fn parse_audit_log_for_seccomp_event(event: &str, audit_event_pid_field: &str) -> (r: Option<
    u32,
>)
    ensures
        r == seccomp_event_syscall(event@, audit_event_pid_field@),
{
    let event_chars = chars_of(event);
    let pid_chars = chars_of(audit_event_pid_field);
    syscall_of_event(&event_chars, &pid_chars)
}

/// The pid field that names process `job_pid` in audit records.
pub fn audit_event_pid_field(job_pid: i32) -> (r: String)
    ensures
        r@ == pid_field(job_pid as int),
{
    let mut r = String::from_str(PID_FIELD_PREFIX);
    push_signed_decimal(&mut r, job_pid);
    r
}

/// The syscalls that the lines of `events` report as violations of process
/// `job_pid`, oldest first.
pub fn seccomp_violations_in(events: &str, job_pid: i32) -> (r: Vec<u32>)
    ensures
        r@ == log_violations(events@, pid_field(job_pid as int)),
{
    let field = audit_event_pid_field(job_pid);
    let pid_chars = chars_of(field.as_str());
    let s = chars_of(events);
    let n: usize = s.len();
    let mut violations: Vec<u32> = Vec::new();
    let mut start: usize = 0;
    while start < n
        invariant
            n == s@.len(),
            s@ == events@,
            pid_chars@ == pid_field(job_pid as int),
            violations@ + violations_from(s@, start as int, pid_chars@) == log_violations(
                events@,
                pid_chars@,
            ),
        decreases n - start,
    {
        let e = find_segment_end(&s, start, '\n');
        let line_end: usize = if e < n && e > start && s[e - 1] == '\r' {
            e - 1
        } else {
            e
        };
        let line = slice_chars(&s, start, line_end);
        assert(line@ == line_at(s@, start as int, e as int));
        let found = syscall_of_event(&line, &pid_chars);
        let ghost before = violations@;
        match found {
            Some(syscall) => {
                violations.push(syscall);
            },
            None => {},
        }
        if e == n {
            assert(violations_from(s@, n as int, pid_chars@) =~= Seq::<u32>::empty());
            assert(violations@ + violations_from(s@, n as int, pid_chars@) =~= before
                + violations_from(s@, start as int, pid_chars@));
            start = n;
        } else {
            assert(violations@ + violations_from(s@, e + 1, pid_chars@) =~= before
                + violations_from(s@, start as int, pid_chars@));
            start = e + 1;
        }
    }
    assert(violations@ + violations_from(s@, start as int, pid_chars@) =~= violations@);
    violations
}

/// The syscall-filter violations of a job, read from what the audit log
/// gained while the job ran: `None` when no audit log could be opened, which
/// gives no violations.
pub fn check_seccomp_violations_for_job(new_events: Option<&str>, job_pid: i32) -> (r: Vec<u32>)
    ensures
        match new_events {
            Some(events) => r@ == log_violations(events@, pid_field(job_pid as int)),
            None => r@.len() == 0,
        },
{
    match new_events {
        Some(events) => seccomp_violations_in(events, job_pid),
        None => Vec::new(),
    }
}

} // verus!
