//! Decisions around deploying a downloaded archive: which archives pass,
//! what the remote copy is called, and how a failed deploy is reported.
use vstd::prelude::*;
use crate::config::RunOptions;
use crate::support::{
    ensure_expected_top_level, outcome_label, outcome_succeeded, deploy_outcome_label,
    deploy_outcome_succeeded, top_level_ok, top_level_refusal, top_level_text, DeployOutcome,
    TarValidation,
};
use crate::text::{
    chars_of, decimal, lead_len, leading_count, push_all, push_decimal, push_str, slice,
    str_eq, string_of, trim, vec_trim, CharClass,
};

verus! {

/// Archives must have a single top-level directory when the deploy strips
/// path components or a top level is expected.
pub fn require_single_top_level(opts: &RunOptions) -> (r: bool)
    ensures
        r == (opts.config.deploy.remote_strip_components > 0
            || opts.deploy_expected_top_level is Some),
{
    opts.config.deploy.remote_strip_components > 0 || opts.deploy_expected_top_level.is_some()
}

/// The refusal of an archive without entries.
pub open spec fn empty_archive_message(tab_id: u16, path: Seq<char>) -> Seq<char> {
    "tab "@ + decimal(tab_id as nat) + " downloaded archive has zero tar entries: "@ + path
}

/// Judges a downloaded archive of tab `tab_id` at `local_path` by what
/// checking it found (`validation`, or the error of the check): it needs
/// entries, and the expected top level when one is set.
pub fn check_download_archive(
    opts: &RunOptions,
    tab_id: u16,
    local_path: &str,
    validation: Result<TarValidation, String>,
) -> (r: Result<(), String>)
    ensures
        match validation {
            Err(e) => r == Err::<(), String>(e),
            Ok(v) => if v.entry_count == 0 {
                r matches Err(m) && m@ == empty_archive_message(tab_id, local_path@)
            } else {
                match opts.deploy_expected_top_level {
                    Some(exp) => (r is Ok <==> top_level_ok(v.top_level, exp@)) && (r matches Err(
                        m,
                    ) ==> m@ == top_level_refusal(v.top_level, exp@)),
                    None => r is Ok,
                }
            },
        },
{
    let v = match validation {
        Err(e) => return Err(e),
        Ok(v) => v,
    };
    if v.entry_count == 0 {
        let mut out: Vec<char> = Vec::new();
        push_str(&mut out, "tab ");
        push_decimal(&mut out, tab_id as u64);
        push_str(&mut out, " downloaded archive has zero tar entries: ");
        push_str(&mut out, local_path);
        assert(out@ =~= empty_archive_message(tab_id, local_path@));
        return Err(string_of(&out));
    }
    match &opts.deploy_expected_top_level {
        Some(expected) => ensure_expected_top_level(&v, expected.as_str()),
        None => Ok(()),
    }
}

/// The name the archive gets on the remote host: the downloaded name
/// unless blank, else the file name of the local path, else a fixed name.
pub open spec fn archive_name_spec(local_name: Seq<char>, file_name: Option<Seq<char>>) -> Seq<char> {
    if trim(local_name).len() > 0 {
        local_name
    } else {
        match file_name {
            Some(f) => f,
            None => "chatgpt-output.tar.gz"@,
        }
    }
}

/// The refusal of an archive about to be deployed whose top level is not
/// exactly the expected one.
pub open spec fn deploy_top_level_refusal(top: Option<String>, expected: Seq<char>) -> Seq<char> {
    "archive top-level must be "@ + expected + "/, found "@ + top_level_text(top)
        + "; refusing remote upload"@
}

/// Judges an archive right before it is deployed, by what checking it
/// found: the check's error stands, and when a top level is expected the
/// archive's single top-level directory must be exactly it.
pub fn check_deploy_archive(expected_top_level: &Option<String>, validation: Result<
    TarValidation,
    String,
>) -> (r: Result<(), String>)
    ensures
        match validation {
            Err(e) => r == Err::<(), String>(e),
            Ok(v) => match *expected_top_level {
                Some(exp) => (r is Ok <==> (v.top_level matches Some(t) && t@ == exp@)) && (r matches Err(
                    m,
                ) ==> m@ == deploy_top_level_refusal(v.top_level, exp@)),
                None => r is Ok,
            },
        },
{
    let v = match validation {
        Err(e) => return Err(e),
        Ok(v) => v,
    };
    match expected_top_level {
        None => Ok(()),
        Some(exp) => {
            let matches = match &v.top_level {
                Some(t) => str_eq(t.as_str(), exp.as_str()),
                None => false,
            };
            if matches {
                Ok(())
            } else {
                let mut out: Vec<char> = Vec::new();
                push_str(&mut out, "archive top-level must be ");
                push_str(&mut out, exp.as_str());
                push_str(&mut out, "/, found ");
                match &v.top_level {
                    Some(t) => push_str(&mut out, t.as_str()),
                    None => push_str(&mut out, "(multiple)"),
                }
                push_str(&mut out, "; refusing remote upload");
                Err(string_of(&out))
            }
        },
    }
}

/// `file_name` is the last component of the local archive path, if it has
/// one that is valid UTF-8.
pub fn remote_archive_name(local_name: String, file_name: Option<String>) -> (r: String)
    ensures
        r@ == archive_name_spec(local_name@, crate::text::opt_chars(file_name)),
{
    let v = chars_of(local_name.as_str());
    let t = vec_trim(&v);
    if t.len() > 0 {
        return local_name;
    }
    match file_name {
        Some(f) => f,
        None => String::from_str("chatgpt-output.tar.gz"),
    }
}

/// The remote host and directory a deploy goes to; both must be configured,
/// the host first.
pub fn deploy_target(remote_host: Option<String>, remote_dir: Option<String>) -> (r: Result<
    (String, String),
    String,
>)
    ensures
        match (remote_host, remote_dir) {
            (None, _) => r matches Err(e) && e@ == "deploy remote host is not configured"@,
            (Some(_), None) => r matches Err(e) && e@ == "deploy remote dir is not configured"@,
            (Some(h), Some(d)) => r matches Ok(t) && t.0 == h && t.1 == d,
        },
{
    match remote_host {
        None => Err(String::from_str("deploy remote host is not configured")),
        Some(h) => match remote_dir {
            None => Err(String::from_str("deploy remote dir is not configured")),
            Some(d) => Ok((h, d)),
        },
    }
}

/// The remote command, `bash ci-fast-push.sh` unless one is configured.
pub fn remote_command_or_default(command: Option<String>) -> (r: String)
    ensures
        r@ == match command {
            Some(c) => c@,
            None => "bash ci-fast-push.sh"@,
        },
{
    match command {
        Some(c) => c,
        None => String::from_str("bash ci-fast-push.sh"),
    }
}

/// `n` printed in decimal with a leading minus when negative.
pub open spec fn signed_decimal(n: int) -> Seq<char> {
    if n < 0 { seq!['-'] + decimal((-n) as nat) } else { decimal(n as nat) }
}

pub(crate) fn push_signed(out: &mut Vec<char>, n: i32)
    ensures
        final(out)@ == old(out)@ + signed_decimal(n as int),
{
    if n < 0 {
        out.push('-');
        let m: u64 = (-(n as i64)) as u64;
        push_decimal(out, m);
    } else {
        push_decimal(out, n as u64);
    }
}

/// The first line of `s` that is not blank, trimmed.
pub open spec fn first_nonblank_line(s: Seq<char>) -> Option<Seq<char>>
    decreases s.len(),
{
    let k = lead_len(s, CharClass::Newline, false);
    if trim(s.take(k as int)).len() > 0 {
        Some(trim(s.take(k as int)))
    } else if k >= s.len() {
        None
    } else {
        first_nonblank_line(s.skip(k + 1int))
    }
}

fn first_nonblank_line_of(s: &str) -> (r: Option<Vec<char>>)
    ensures
        match r {
            Some(v) => first_nonblank_line(s@) == Some(v@),
            None => first_nonblank_line(s@) is None,
        },
{
    let mut cur = chars_of(s);
    loop
        invariant
            first_nonblank_line(cur@) == first_nonblank_line(s@),
        decreases cur.len(),
    {
        let k = leading_count(&cur, CharClass::Newline, false);
        let line = slice(&cur, 0, k);
        assert(line@ =~= cur@.take(k as int));
        let t = vec_trim(&line);
        if t.len() > 0 {
            return Some(t);
        }
        if k >= cur.len() {
            return None;
        }
        let rest = slice(&cur, k + 1, cur.len());
        assert(rest@ =~= cur@.skip(k + 1));
        cur = rest;
    }
}

/// The final status of a remote deploy as its receipt reports it.
#[derive(Debug, Clone, PartialEq, Eq)]
pub struct DeployReport {
    pub outcome: DeployOutcome,
    pub failure_reason: Option<String>,
    pub exit_code: Option<i32>,
    pub log_tail: String,
}

/// Why a deploy failed: its outcome, then the failure reason, the exit code
/// and the first non-blank line of the log tail, each when present.
pub open spec fn deploy_failure_text(report: DeployReport) -> Seq<char> {
    let base = "deploy finished with outcome "@ + outcome_label(report.outcome);
    let with_reason = match report.failure_reason {
        Some(f) => base + "; failure_reason="@ + f@,
        None => base,
    };
    let with_code = match report.exit_code {
        Some(c) => with_reason + "; exit_code="@ + signed_decimal(c as int),
        None => with_reason,
    };
    match first_nonblank_line(report.log_tail@) {
        Some(l) => with_code + "; log_tail="@ + l,
        None => with_code,
    }
}

/// A finished deploy: success when its outcome counts as success, else the
/// failure text.
pub fn deploy_report_result(report: &DeployReport) -> (r: Result<(), String>)
    ensures
        r is Ok <==> outcome_succeeded(report.outcome),
        r matches Err(m) ==> m@ == deploy_failure_text(*report),
{
    if deploy_outcome_succeeded(report.outcome) {
        return Ok(());
    }
    let mut out: Vec<char> = Vec::new();
    push_str(&mut out, "deploy finished with outcome ");
    push_str(&mut out, deploy_outcome_label(report.outcome));
    if let Some(f) = &report.failure_reason {
        push_str(&mut out, "; failure_reason=");
        push_str(&mut out, f.as_str());
    }
    if let Some(c) = report.exit_code {
        push_str(&mut out, "; exit_code=");
        push_signed(&mut out, c);
    }
    if let Some(line) = first_nonblank_line_of(report.log_tail.as_str()) {
        push_str(&mut out, "; log_tail=");
        push_all(&mut out, &line);
    }
    assert(out@ =~= deploy_failure_text(*report));
    Err(string_of(&out))
}

} // verus!
