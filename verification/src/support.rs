//! Small helpers of the orchestrator: repository names, default paths,
//! deploy outcomes, receipt names and run ids.
use vstd::prelude::*;
use crate::text::{
    before_first, chars_of, decimal, lead_len, leading_count, push_all, push_decimal, push_str,
    slice, starts_with, string_of, strip_suffix_all, trim, trim_end, trim_start, vec_before_first,
    split_whitespace, str_eq, strings_chars, vec_eq, vec_starts_with, words, vec_strip_suffix_all,
    vec_trim, vec_trim_end, vec_trim_start, opt_chars, CharClass,
};

verus! {

/// `owner/repo` from the path part of a GitHub URL: surrounding whitespace
/// and slashes and any query or fragment are dropped, the path must have
/// exactly two segments, and `.git` is removed from the end of the second.
pub open spec fn github_owner_repo(path: Seq<char>) -> Option<Seq<char>> {
    let p1 = trim_end(trim_start(trim(path), CharClass::Slash), CharClass::Slash);
    let p2 = before_first(p1, CharClass::QueryOrFragment);
    let k = lead_len(p2, CharClass::Slash, false);
    if k == p2.len() {
        None
    } else {
        let rest = p2.skip(k + 1int);
        if lead_len(rest, CharClass::Slash, false) < rest.len() {
            None
        } else {
            let owner = trim(p2.take(k as int));
            let repo = strip_suffix_all(trim(rest), ".git"@);
            if owner.len() == 0 || repo.len() == 0 {
                None
            } else {
                Some(owner + seq!['/'] + repo)
            }
        }
    }
}

/// The GitHub `owner/repo` a remote URL points at, for the SSH, HTTPS,
/// HTTP and `ssh://` forms of github.com remotes; `None` for anything else.
pub open spec fn github_repo_of_url(url: Seq<char>) -> Option<Seq<char>> {
    let v = trim(url);
    if v.len() == 0 {
        None
    } else if starts_with(v, "git@github.com:"@) {
        github_owner_repo(v.skip("git@github.com:"@.len() as int))
    } else if starts_with(v, "https://github.com/"@) {
        github_owner_repo(v.skip("https://github.com/"@.len() as int))
    } else if starts_with(v, "http://github.com/"@) {
        github_owner_repo(v.skip("http://github.com/"@.len() as int))
    } else if starts_with(v, "ssh://git@github.com/"@) {
        github_owner_repo(v.skip("ssh://git@github.com/"@.len() as int))
    } else {
        None
    }
}

fn owner_repo_of_chars(path: &Vec<char>) -> (r: Option<String>)
    ensures
        opt_chars(r) == github_owner_repo(path@),
{
    let t = vec_trim(path);
    let t1 = vec_trim_start(&t, CharClass::Slash);
    let p1 = vec_trim_end(&t1, CharClass::Slash);
    let p2 = vec_before_first(&p1, CharClass::QueryOrFragment);
    let k = leading_count(&p2, CharClass::Slash, false);
    if k == p2.len() {
        return None;
    }
    let rest = slice(&p2, k + 1, p2.len());
    assert(rest@ =~= p2@.skip(k + 1));
    let k2 = leading_count(&rest, CharClass::Slash, false);
    if k2 < rest.len() {
        return None;
    }
    let owner_raw = slice(&p2, 0, k);
    assert(owner_raw@ =~= p2@.take(k as int));
    let owner = vec_trim(&owner_raw);
    let repo_raw = vec_trim(&rest);
    let git = chars_of(".git");
    let repo = vec_strip_suffix_all(&repo_raw, &git);
    if owner.len() == 0 || repo.len() == 0 {
        return None;
    }
    let mut out = owner;
    out.push('/');
    let mut i: usize = 0;
    let ghost start = out@;
    while i < repo.len()
        invariant
            i <= repo.len(),
            out@ == start + repo@.take(i as int),
        decreases repo.len() - i,
    {
        out.push(repo[i]);
        assert(repo@.take(i + 1) =~= repo@.take(i as int).push(repo@[i as int]));
        i = i + 1;
    }
    assert(repo@.take(repo.len() as int) =~= repo@);
    Some(string_of(&out))
}

/// `owner/repo` from the path part of a GitHub URL.
pub fn owner_repo_from_github_path(path: &str) -> (r: Option<String>)
    ensures
        opt_chars(r) == github_owner_repo(path@),
{
    let v = chars_of(path);
    owner_repo_of_chars(&v)
}

/// The GitHub `owner/repo` of a remote URL, if it is a github.com remote.
pub fn infer_github_repo(url: &str) -> (r: Option<String>)
    ensures
        opt_chars(r) == github_repo_of_url(url@),
{
    let raw = chars_of(url);
    let v = vec_trim(&raw);
    if v.len() == 0 {
        return None;
    }
    let ssh = chars_of("git@github.com:");
    let https = chars_of("https://github.com/");
    let http = chars_of("http://github.com/");
    let ssh_url = chars_of("ssh://git@github.com/");
    if vec_starts_with(&v, &ssh) {
        let rest = slice(&v, ssh.len(), v.len());
        assert(rest@ =~= v@.skip(ssh@.len() as int));
        return owner_repo_of_chars(&rest);
    }
    if vec_starts_with(&v, &https) {
        let rest = slice(&v, https.len(), v.len());
        assert(rest@ =~= v@.skip(https@.len() as int));
        return owner_repo_of_chars(&rest);
    }
    if vec_starts_with(&v, &http) {
        let rest = slice(&v, http.len(), v.len());
        assert(rest@ =~= v@.skip(http@.len() as int));
        return owner_repo_of_chars(&rest);
    }
    if vec_starts_with(&v, &ssh_url) {
        let rest = slice(&v, ssh_url.len(), v.len());
        assert(rest@ =~= v@.skip(ssh_url@.len() as int));
        return owner_repo_of_chars(&rest);
    }
    None
}

} // verus!

verus! {

/// Whether `c` separates path components on a platform whose main
/// separator is `main_sep`: `/` always, and `main_sep` too (`\` on
/// Windows).
pub open spec fn is_path_sep(c: char, main_sep: char) -> bool {
    c == '/' || c == main_sep
}

/// `base` joined with the relative path `name` on a platform whose main
/// separator is `main_sep` (`PathBuf::join`): `main_sep` is added unless
/// `base` is empty or already ends in a separator.
pub open spec fn join_path_spec(base: Seq<char>, name: Seq<char>, main_sep: char) -> Seq<char> {
    if base.len() == 0 {
        name
    } else if is_path_sep(base.last(), main_sep) {
        base + name
    } else {
        base + seq![main_sep] + name
    }
}

/// Joins the relative path `name` onto `base`, for the main separator
/// `main_sep` of the platform.
pub fn join_path(base: &str, name: &str, main_sep: char) -> (r: String)
    ensures
        r@ == join_path_spec(base@, name@, main_sep),
{
    let b = chars_of(base);
    let mut out = slice(&b, 0, b.len());
    assert(out@ =~= b@);
    if b.len() > 0 && b[b.len() - 1] != '/' && b[b.len() - 1] != main_sep {
        out.push(main_sep);
    }
    push_str(&mut out, name);
    assert(out@ =~= join_path_spec(base@, name@, main_sep));
    string_of(&out)
}

/// The home directory, or the current directory when `HOME` is unset.
pub open spec fn home_or_current(home: Option<Seq<char>>) -> Seq<char> {
    match home {
        Some(h) => h,
        None => "."@,
    }
}

fn home_dir_or_current(home: Option<String>) -> (r: String)
    ensures
        r@ == home_or_current(opt_chars(home)),
{
    match home {
        Some(h) => h,
        None => String::from_str("."),
    }
}

/// The managed Chrome profile directory under the home directory `home`
/// (the value of `HOME`, if set).
pub fn default_managed_chrome_profile_dir(home: Option<String>, main_sep: char) -> (r: String)
    ensures
        r@ == join_path_spec(
            home_or_current(opt_chars(home)),
            ".google-profile-automation-profile"@,
            main_sep,
        ),
{
    let base = home_dir_or_current(home);
    join_path(base.as_str(), ".google-profile-automation-profile", main_sep)
}

/// The managed Chrome state directory under the home directory `home`
/// (the value of `HOME`, if set).
pub fn default_managed_chrome_state_dir(home: Option<String>, main_sep: char) -> (r: String)
    ensures
        r@ == join_path_spec(
            home_or_current(opt_chars(home)),
            ".google-profile-automation-state"@,
            main_sep,
        ),
{
    let base = home_dir_or_current(home);
    join_path(base.as_str(), ".google-profile-automation-state", main_sep)
}

/// How a remote deploy ended.
#[derive(Debug, Clone, Copy, PartialEq, Eq, Structural)]
pub enum DeployOutcome {
    Succeeded,
    SucceededCiFailed,
    SucceededCiSkipped,
    FailedPreserved,
    FailedHard,
    UploadShaMismatch,
    TimedOut,
    DryRunStaged,
}

/// A deploy counts as successful when it succeeded (with CI passing or
/// skipped) or was staged as a dry run.
pub open spec fn outcome_succeeded(o: DeployOutcome) -> bool {
    o == DeployOutcome::Succeeded || o == DeployOutcome::SucceededCiSkipped || o
        == DeployOutcome::DryRunStaged
}

pub fn deploy_outcome_succeeded(outcome: DeployOutcome) -> (r: bool)
    ensures
        r == outcome_succeeded(outcome),
{
    match outcome {
        DeployOutcome::Succeeded => true,
        DeployOutcome::SucceededCiSkipped => true,
        DeployOutcome::DryRunStaged => true,
        _ => false,
    }
}

pub open spec fn outcome_label(o: DeployOutcome) -> Seq<char> {
    match o {
        DeployOutcome::Succeeded => "succeeded"@,
        DeployOutcome::SucceededCiFailed => "succeeded-ci-failed"@,
        DeployOutcome::SucceededCiSkipped => "succeeded-ci-skipped"@,
        DeployOutcome::FailedPreserved => "failed-preserved"@,
        DeployOutcome::FailedHard => "failed-hard"@,
        DeployOutcome::UploadShaMismatch => "upload-sha-mismatch"@,
        DeployOutcome::TimedOut => "timed-out"@,
        DeployOutcome::DryRunStaged => "dry-run-staged"@,
    }
}

pub fn deploy_outcome_label(outcome: DeployOutcome) -> (r: &'static str)
    ensures
        r@ == outcome_label(outcome),
{
    match outcome {
        DeployOutcome::Succeeded => "succeeded",
        DeployOutcome::SucceededCiFailed => "succeeded-ci-failed",
        DeployOutcome::SucceededCiSkipped => "succeeded-ci-skipped",
        DeployOutcome::FailedPreserved => "failed-preserved",
        DeployOutcome::FailedHard => "failed-hard",
        DeployOutcome::UploadShaMismatch => "upload-sha-mismatch",
        DeployOutcome::TimedOut => "timed-out",
        DeployOutcome::DryRunStaged => "dry-run-staged",
    }
}

/// What checking a downloaded tar archive found.
#[derive(Debug, Clone, PartialEq, Eq)]
pub struct TarValidation {
    /// The single top-level directory of the archive, if it has one.
    pub top_level: Option<String>,
    pub entry_count: u64,
}

/// The top level named in refusals: the directory, or "(multiple)".
pub open spec fn top_level_text(top: Option<String>) -> Seq<char> {
    match top {
        Some(t) => t@,
        None => "(multiple)"@,
    }
}

/// An archive passes when no top level is expected (after trimming) or its
/// single top-level directory is the expected one.
pub open spec fn top_level_ok(top: Option<String>, expected: Seq<char>) -> bool {
    trim(expected).len() == 0 || (top matches Some(t) && t@ == trim(expected))
}

pub open spec fn top_level_refusal(top: Option<String>, expected: Seq<char>) -> Seq<char> {
    "archive top-level must be "@ + trim(expected) + "/, found "@ + top_level_text(top)
        + "; refusing remote upload"@
}

fn top_level_text_string(top: &Option<String>) -> (r: String)
    ensures
        r@ == top_level_text(*top),
{
    match top {
        Some(t) => t.clone(),
        None => String::from_str("(multiple)"),
    }
}

/// Refuses an archive whose top-level directory is not the expected one.
pub fn ensure_expected_top_level(validation: &TarValidation, expected: &str) -> (r: Result<(), String>)
    ensures
        r is Ok <==> top_level_ok(validation.top_level, expected@),
        r matches Err(m) ==> m@ == top_level_refusal(validation.top_level, expected@),
{
    let raw = chars_of(expected);
    let exp = vec_trim(&raw);
    if exp.len() == 0 {
        return Ok(());
    }
    let matches = match &validation.top_level {
        Some(t) => {
            let tv = chars_of(t.as_str());
            vec_eq(&tv, &exp)
        },
        None => false,
    };
    if matches {
        return Ok(());
    }
    let mut out: Vec<char> = Vec::new();
    push_str(&mut out, "archive top-level must be ");
    push_all(&mut out, &exp);
    push_str(&mut out, "/, found ");
    let top = top_level_text_string(&validation.top_level);
    push_str(&mut out, top.as_str());
    push_str(&mut out, "; refusing remote upload");
    assert(out@ =~= top_level_refusal(validation.top_level, expected@));
    Err(string_of(&out))
}

/// `n` printed with at least two digits (`{:02}`).
pub open spec fn two_digits(n: nat) -> Seq<char> {
    if n < 10 { seq!['0'] + decimal(n) } else { decimal(n) }
}

/// The file name of the deploy receipt of a tab: `<run>-tab-<NN>-deploy.json`.
pub open spec fn receipt_file_name_spec(run_id: Seq<char>, tab_id: u16) -> Seq<char> {
    run_id + "-tab-"@ + two_digits(tab_id as nat) + "-deploy.json"@
}

pub fn receipt_file_name(run_id: &str, tab_id: u16) -> (r: String)
    ensures
        r@ == receipt_file_name_spec(run_id@, tab_id),
{
    let mut out: Vec<char> = Vec::new();
    push_str(&mut out, run_id);
    push_str(&mut out, "-tab-");
    if tab_id < 10 {
        out.push('0');
    }
    push_decimal(&mut out, tab_id as u64);
    push_str(&mut out, "-deploy.json");
    assert(out@ =~= receipt_file_name_spec(run_id@, tab_id));
    string_of(&out)
}

/// Writes deploy receipts as JSON files into one directory.
#[derive(Debug, Clone)]
pub struct LocalReceiptWriter {
    pub receipt_dir: String,
}

impl LocalReceiptWriter {
    pub fn new(receipt_dir: String) -> (r: Self)
        ensures
            r.receipt_dir == receipt_dir,
    {
        LocalReceiptWriter { receipt_dir }
    }

    /// Where the receipt of tab `tab_id` of run `run_id` is written.
    pub fn receipt_path(&self, run_id: &str, tab_id: u16, main_sep: char) -> (r: String)
        ensures
            r@ == join_path_spec(
                self.receipt_dir@,
                receipt_file_name_spec(run_id@, tab_id),
                main_sep,
            ),
    {
        let name = receipt_file_name(run_id, tab_id);
        join_path(self.receipt_dir.as_str(), name.as_str(), main_sep)
    }
}

/// A lowercase hexadecimal digit.
pub open spec fn lower_hex(c: char) -> bool {
    ('0' <= c && c <= '9') || ('a' <= c && c <= 'f')
}

/// The hyphenated text of a version-4 UUID: 36 characters, hyphens at 8,
/// 13, 18 and 23, lowercase hexadecimal digits elsewhere, the version digit
/// `4` at 14.
pub open spec fn uuid_v4_text(s: Seq<char>) -> bool {
    &&& s.len() == 36
    &&& forall|i: int|
        0 <= i < 36 ==> if i == 8 || i == 13 || i == 18 || i == 23 {
            #[trigger] s[i] == '-'
        } else {
            lower_hex(s[i])
        }
    &&& s[14] == '4'
}

/// A fresh random UUID (`uuid::Uuid::new_v4`) printed with `to_string`,
/// which writes the lowercase hyphenated form. Which UUID comes back is
/// chance: only its shape is stated.
#[verifier::external_body]
fn new_uuid_string() -> (r: String)
    ensures
        uuid_v4_text(r@),
{
    uuid::Uuid::new_v4().to_string()
}

/// The run id given to a run whose request names none: `run-` and a
/// random UUID.
pub fn default_run_id() -> (r: String)
    ensures
        r@.len() == 40,
        r@.take(4) == "run-"@,
        uuid_v4_text(r@.skip(4)),
{
    let id = new_uuid_string();
    let mut out: Vec<char> = Vec::new();
    push_str(&mut out, "run-");
    push_str(&mut out, id.as_str());
    proof {
        reveal_strlit("run-");
        assert(out@.take(4) =~= "run-"@);
        assert(out@.skip(4) =~= id@);
    }
    string_of(&out)
}

/// A default run id names no directory: it holds no slash, backslash or
/// dot.
pub proof fn lemma_default_run_id_is_path_safe(r: Seq<char>)
    requires
        r.len() == 40,
        r.take(4) == "run-"@,
        uuid_v4_text(r.skip(4)),
    ensures
        forall|i: int| 0 <= i < r.len() ==> r[i] != '/' && r[i] != '\\' && r[i] != '.',
{
    reveal_strlit("run-");
    assert forall|i: int| 0 <= i < r.len() implies r[i] != '/' && r[i] != '\\' && r[i] != '.' by {
        if i < 4 {
            assert(r.take(4)[i] == r[i]);
        } else {
            assert(r.skip(4)[i - 4] == r[i]);
        }
    }
}

} // verus!

verus! {

/// What reading an environment variable gave.
#[derive(Debug, Clone, PartialEq, Eq)]
pub enum EnvValue {
    Present(String),
    NotPresent,
    NotUnicode,
}

/// The bridge command: the arguments given, else the words of
/// `JAILGUN_BRIDGE_CMD` (its value is `env`).
pub open spec fn bridge_command_spec(args: Seq<Seq<char>>, env: EnvValue) -> Result<
    Seq<Seq<char>>,
    Seq<char>,
> {
    if args.len() > 0 {
        Ok(args)
    } else {
        match env {
            EnvValue::Present(v) => if words(v@).len() == 0 {
                Err("JAILGUN_BRIDGE_CMD is empty"@)
            } else {
                Ok(words(v@))
            },
            EnvValue::NotPresent => Err(
                "bridge command must be provided with --bridge-cmd or JAILGUN_BRIDGE_CMD"@,
            ),
            EnvValue::NotUnicode => Err("JAILGUN_BRIDGE_CMD is not valid UTF-8"@),
        }
    }
}

pub open spec fn strings_result(r: Result<Vec<String>, String>) -> Result<Seq<Seq<char>>, Seq<char>> {
    match r {
        Ok(v) => Ok(strings_chars(v@)),
        Err(e) => Err(e@),
    }
}

pub open spec fn string_result(r: Result<String, String>) -> Result<Seq<char>, Seq<char>> {
    match r {
        Ok(v) => Ok(v@),
        Err(e) => Err(e@),
    }
}

pub fn bridge_command(args: Vec<String>, env: EnvValue) -> (r: Result<Vec<String>, String>)
    ensures
        strings_result(r) == bridge_command_spec(strings_chars(args@), env),
{
    if args.len() > 0 {
        return Ok(args);
    }
    match env {
        EnvValue::Present(value) => {
            let parts = split_whitespace(value.as_str());
            if parts.len() == 0 {
                Err(String::from_str("JAILGUN_BRIDGE_CMD is empty"))
            } else {
                Ok(parts)
            }
        },
        EnvValue::NotPresent => Err(
            String::from_str(
                "bridge command must be provided with --bridge-cmd or JAILGUN_BRIDGE_CMD",
            ),
        ),
        EnvValue::NotUnicode => Err(String::from_str("JAILGUN_BRIDGE_CMD is not valid UTF-8")),
    }
}

/// A required value: the one given unless blank, else the environment
/// variable `env_name` (its value is `env`) unless missing or blank.
pub open spec fn arg_or_env_spec(
    value: Option<Seq<char>>,
    env: EnvValue,
    env_name: Seq<char>,
    label: Seq<char>,
) -> Result<Seq<char>, Seq<char>> {
    if value matches Some(v) && trim(v).len() > 0 {
        Ok(value->0)
    } else {
        match env {
            EnvValue::Present(v) => if trim(v@).len() == 0 {
                Err(label + " from $"@ + env_name + " is empty"@)
            } else {
                Ok(v@)
            },
            _ => Err(label + " must be provided or set in $"@ + env_name),
        }
    }
}

fn is_blank(s: &str) -> (r: bool)
    ensures
        r == (trim(s@).len() == 0),
{
    let v = chars_of(s);
    let t = vec_trim(&v);
    t.len() == 0
}

pub fn arg_or_env(value: Option<String>, env: EnvValue, env_name: &str, label: &str) -> (r:
    Result<String, String>)
    ensures
        string_result(r) == arg_or_env_spec(opt_chars(value), env, env_name@, label@),
{
    if let Some(v) = &value {
        if !is_blank(v.as_str()) {
            return Ok(v.clone());
        }
    }
    match env {
        EnvValue::Present(v) => {
            if is_blank(v.as_str()) {
                let mut out: Vec<char> = Vec::new();
                push_str(&mut out, label);
                push_str(&mut out, " from $");
                push_str(&mut out, env_name);
                push_str(&mut out, " is empty");
                assert(out@ =~= label@ + " from $"@ + env_name@ + " is empty"@);
                Err(string_of(&out))
            } else {
                Ok(v)
            }
        },
        _ => {
            let mut out: Vec<char> = Vec::new();
            push_str(&mut out, label);
            push_str(&mut out, " must be provided or set in $");
            push_str(&mut out, env_name);
            assert(out@ =~= label@ + " must be provided or set in $"@ + env_name@);
            Err(string_of(&out))
        },
    }
}

/// The remote deploy command: the one given, else the environment variable
/// (its value is `env`); when unset, `bash ci-fast-push.sh` for
/// `JAILGUN_REMOTE_COMMAND` and empty for any other variable.
pub open spec fn remote_command_spec(value: Option<Seq<char>>, env_name: Seq<char>, env: EnvValue) -> Result<
    Seq<char>,
    Seq<char>,
> {
    match value {
        Some(v) => Ok(v),
        None => match env {
            EnvValue::Present(v) => Ok(v@),
            EnvValue::NotPresent => if env_name == "JAILGUN_REMOTE_COMMAND"@ {
                Ok("bash ci-fast-push.sh"@)
            } else {
                Ok(Seq::empty())
            },
            EnvValue::NotUnicode => Err(
                "remote command environment variable $"@ + env_name + " is not valid UTF-8"@,
            ),
        },
    }
}

pub fn deploy_remote_command(value: Option<String>, env_name: &str, env: EnvValue) -> (r: Result<
    String,
    String,
>)
    ensures
        string_result(r) == remote_command_spec(opt_chars(value), env_name@, env),
{
    if let Some(v) = value {
        return Ok(v);
    }
    match env {
        EnvValue::Present(v) => Ok(v),
        EnvValue::NotPresent => {
            if str_eq(env_name, "JAILGUN_REMOTE_COMMAND") {
                Ok(String::from_str("bash ci-fast-push.sh"))
            } else {
                Ok(String::new())
            }
        },
        EnvValue::NotUnicode => {
            let mut out: Vec<char> = Vec::new();
            push_str(&mut out, "remote command environment variable $");
            push_str(&mut out, env_name);
            push_str(&mut out, " is not valid UTF-8");
            assert(out@ =~= "remote command environment variable $"@ + env_name@
                + " is not valid UTF-8"@);
            Err(string_of(&out))
        },
    }
}

/// A path: the one given, else the environment variable (its value is
/// `env`, which must not be blank), else `default`.
pub open spec fn path_spec(
    value: Option<Seq<char>>,
    env_name: Seq<char>,
    env: EnvValue,
    default: Seq<char>,
) -> Result<Seq<char>, Seq<char>> {
    match value {
        Some(v) => Ok(v),
        None => match env {
            EnvValue::Present(v) => if trim(v@).len() > 0 {
                Ok(v@)
            } else {
                Err("path environment variable $"@ + env_name + " is empty"@)
            },
            EnvValue::NotPresent => Ok(default),
            EnvValue::NotUnicode => Err(
                "path environment variable $"@ + env_name + " is not valid UTF-8"@,
            ),
        },
    }
}

pub fn path_arg_or_env_or_default(
    value: Option<String>,
    env_name: &str,
    env: EnvValue,
    default: String,
) -> (r: Result<String, String>)
    ensures
        string_result(r) == path_spec(opt_chars(value), env_name@, env, default@),
{
    if let Some(v) = value {
        return Ok(v);
    }
    match env {
        EnvValue::Present(v) => {
            if !is_blank(v.as_str()) {
                Ok(v)
            } else {
                let mut out: Vec<char> = Vec::new();
                push_str(&mut out, "path environment variable $");
                push_str(&mut out, env_name);
                push_str(&mut out, " is empty");
                assert(out@ =~= "path environment variable $"@ + env_name@ + " is empty"@);
                Err(string_of(&out))
            }
        },
        EnvValue::NotPresent => Ok(default),
        EnvValue::NotUnicode => {
            let mut out: Vec<char> = Vec::new();
            push_str(&mut out, "path environment variable $");
            push_str(&mut out, env_name);
            push_str(&mut out, " is not valid UTF-8");
            assert(out@ =~= "path environment variable $"@ + env_name@ + " is not valid UTF-8"@);
            Err(string_of(&out))
        },
    }
}

} // verus!
