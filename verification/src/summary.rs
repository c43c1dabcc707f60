//! The summary of an agent run: its status and failures, the artifacts it
//! downloaded, and the deploy and CI state its events report.
use vstd::prelude::*;
use crate::fields::Fields;
use crate::run_event::{EventKind, JailgunEvent};
use crate::support::TarValidation;
use crate::text::{
    opt_chars, insert_sorted, strictly_sorted, strings_chars, chars_of, contains, ends_with, lower, parse_u64, parse_u64_spec, push_str, slice, str_eq, string_of, trim,
    vec_ascii_lowercase, vec_ends_with, vec_eq, vec_trim,
};

verus! {

/// A failure reported in a run summary.
#[derive(Debug, Clone, PartialEq, Eq)]
pub struct AgentFailure {
    /// The tab that failed; none for the run as a whole.
    pub tab_id: Option<u16>,
    pub code: String,
    pub message: String,
}

/// Tab 0 stands for the run as a whole.
pub open spec fn tab_or_none(tab: u16) -> Option<u16> {
    if tab == 0 {
        None
    } else {
        Some(tab)
    }
}

/// The orchestrator's failures as summary failures, in order.
pub fn orchestrator_failures(failures: &Vec<(u16, String)>) -> (r: Vec<AgentFailure>)
    ensures
        r@.len() == failures@.len(),
        forall|i: int|
            0 <= i < failures@.len() ==> (#[trigger] r@[i]).tab_id == tab_or_none(failures@[i].0)
                && r@[i].code@ == "orchestrator"@ && r@[i].message == failures@[i].1,
{
    let mut out: Vec<AgentFailure> = Vec::new();
    let mut i: usize = 0;
    while i < failures.len()
        invariant
            i <= failures.len(),
            out@.len() == i,
            forall|j: int|
                0 <= j < i ==> (#[trigger] out@[j]).tab_id == tab_or_none(failures@[j].0)
                    && out@[j].code@ == "orchestrator"@ && out@[j].message == failures@[j].1,
        decreases failures.len() - i,
    {
        let tab = failures[i].0;
        out.push(
            AgentFailure {
                tab_id: if tab != 0 {
                    Some(tab)
                } else {
                    None
                },
                code: String::from_str("orchestrator"),
                message: failures[i].1.clone(),
            },
        );
        i = i + 1;
    }
    out
}

/// The status of a finished run.
pub open spec fn run_status_spec(timed_out: bool, failure_count: nat) -> Seq<char> {
    if timed_out {
        "timed-out"@
    } else if failure_count == 0 {
        "succeeded"@
    } else {
        "failed"@
    }
}

/// A run that timed out is reported as timed out however many failures it
/// had; a run that was not cut short succeeded when nothing failed and
/// failed when anything did.
pub proof fn lemma_timeout_decides_status(n: nat, m: nat)
    ensures
        run_status_spec(true, n) == "timed-out"@,
        run_status_spec(true, n) == run_status_spec(true, m),
        run_status_spec(false, 0) == "succeeded"@,
        n > 0 ==> run_status_spec(false, n) == "failed"@,
        n > 0 && m > 0 ==> run_status_spec(false, n) == run_status_spec(false, m),
{
}

/// A run that timed out says so; otherwise it succeeded exactly when
/// nothing failed.
pub fn run_status(timed_out: bool, failure_count: usize) -> (r: &'static str)
    ensures
        r@ == run_status_spec(timed_out, failure_count as nat),
{
    if timed_out {
        "timed-out"
    } else if failure_count == 0 {
        "succeeded"
    } else {
        "failed"
    }
}

/// The failures of an agent run (those its run loop recorded, then those
/// found checking its downloads) and its status over all of them.
pub fn run_outcome(
    run_failures: &Vec<(u16, String)>,
    artifact_failures: Vec<AgentFailure>,
    timed_out: bool,
) -> (r: (Vec<AgentFailure>, &'static str))
    ensures
        r.0@.len() == run_failures@.len() + artifact_failures@.len(),
        forall|i: int|
            0 <= i < run_failures@.len() ==> (#[trigger] r.0@[i]).tab_id == tab_or_none(
                run_failures@[i].0,
            ) && r.0@[i].code@ == "orchestrator"@ && r.0@[i].message == run_failures@[i].1,
        forall|i: int|
            0 <= i < artifact_failures@.len() ==> r.0@[run_failures@.len() + i]
                == #[trigger] artifact_failures@[i],
        r.1@ == run_status_spec(timed_out, (run_failures@.len() + artifact_failures@.len()) as nat),
{
    let mut failures = orchestrator_failures(run_failures);
    let mut rest = artifact_failures;
    failures.append(&mut rest);
    let status = run_status(timed_out, failures.len());
    (failures, status)
}

/// The last event of `kind`, if any.
pub open spec fn last_of_kind(events: Seq<JailgunEvent>, kind: EventKind) -> Option<JailgunEvent>
    decreases events.len(),
{
    if events.len() == 0 {
        None
    } else if events.last().kind == kind {
        Some(events.last())
    } else {
        last_of_kind(events.drop_last(), kind)
    }
}

/// The value of `key` in the last event that has it, if any.
pub open spec fn last_field(events: Seq<JailgunEvent>, key: Seq<char>) -> Option<Seq<char>>
    decreases events.len(),
{
    if events.len() == 0 {
        None
    } else if events.last().fields@.contains_key(key) {
        Some(events.last().fields@[key])
    } else {
        last_field(events.drop_last(), key)
    }
}

/// The deploy status of a run: disabled, else the outcome the last deploy
/// reported, else not finished.
pub open spec fn deploy_status_spec(events: Seq<JailgunEvent>, deploy_enabled: bool) -> Seq<char> {
    if !deploy_enabled {
        "disabled"@
    } else {
        match last_of_kind(events, EventKind::DeployFinished) {
            Some(e) => if e.fields@.contains_key("outcome"@) {
                e.fields@["outcome"@]
            } else {
                "not-finished"@
            },
            None => "not-finished"@,
        }
    }
}

/// The deploy status of a run (see `deploy_status_spec`).
pub fn deploy_status_from_events(events: &Vec<JailgunEvent>, deploy_enabled: bool) -> (r: String)
    ensures
        r@ == deploy_status_spec(events@, deploy_enabled),
{
    if !deploy_enabled {
        return String::from_str("disabled");
    }
    let mut i = events.len();
    assert(events@.take(i as int) =~= events@);
    while i > 0
        invariant
            i <= events.len(),
            deploy_enabled,
            last_of_kind(events@, EventKind::DeployFinished) == last_of_kind(
                events@.take(i as int),
                EventKind::DeployFinished,
            ),
        decreases i,
    {
        assert(events@.take(i as int).drop_last() =~= events@.take(i - 1));
        assert(events@.take(i as int).last() == events@[i - 1]);
        let e = &events[i - 1];
        if e.kind == EventKind::DeployFinished {
            let r = match e.fields.get("outcome") {
                Some(v) => v.clone(),
                None => String::from_str("not-finished"),
            };
            return r;
        }
        i = i - 1;
    }
    assert(events@.take(0) =~= Seq::<JailgunEvent>::empty());
    String::from_str("not-finished")
}

/// The CI status of a run: disabled, else the CI state the last event
/// that carries one reported, else unknown.
pub open spec fn ci_status_spec(events: Seq<JailgunEvent>, ci_enabled: bool) -> Seq<char> {
    if !ci_enabled {
        "disabled"@
    } else {
        match last_field(events, "ci_state"@) {
            Some(v) => v,
            None => "unknown"@,
        }
    }
}

/// The CI status of a run: the last `ci_state` its events report (see
/// `ci_status_spec`).
pub fn ci_status_from_events(events: &Vec<JailgunEvent>, ci_enabled: bool) -> (r: String)
    ensures
        r@ == ci_status_spec(events@, ci_enabled),
{
    if !ci_enabled {
        return String::from_str("disabled");
    }
    let mut i = events.len();
    assert(events@.take(i as int) =~= events@);
    while i > 0
        invariant
            i <= events.len(),
            ci_enabled,
            last_field(events@, "ci_state"@) == last_field(events@.take(i as int), "ci_state"@),
        decreases i,
    {
        assert(events@.take(i as int).drop_last() =~= events@.take(i - 1));
        assert(events@.take(i as int).last() == events@[i - 1]);
        match events[i - 1].fields.get("ci_state") {
            Some(v) => {
                return v.clone();
            },
            None => {},
        }
        i = i - 1;
    }
    assert(events@.take(0) =~= Seq::<JailgunEvent>::empty());
    String::from_str("unknown")
}

/// The position of the last `c` in `s`, or -1 when there is none.
pub open spec fn last_pos(s: Seq<char>, c: char) -> int
    decreases s.len(),
{
    if s.len() == 0 {
        -1
    } else if s.last() == c {
        s.len() - 1
    } else {
        last_pos(s.drop_last(), c)
    }
}

/// The text of a path after its last `/` (all of it when it has none).
pub open spec fn last_segment(path: Seq<char>) -> Seq<char> {
    path.skip(last_pos(path, '/') + 1)
}

/// A path whose final component reads the same on every platform: it holds
/// no backslash and no colon (no Windows separator or prefix of its own),
/// does not start with `//` (a Windows network prefix), and its text after
/// the last `/` is a name: not empty, `.` or `..`.
pub open spec fn plain_path(path: Seq<char>) -> bool {
    &&& forall|i: int| 0 <= i < path.len() ==> #[trigger] path[i] != '\\' && path[i] != ':'
    &&& !(path.len() >= 2 && path[0] == '/' && path[1] == '/')
    &&& last_segment(path).len() > 0
    &&& last_segment(path) != "."@
    &&& last_segment(path) != ".."@
}

/// What `std::path::Path::file_name` documents of its result on every
/// platform: when there is one, it is a final component of the path, so
/// it is not empty, it is part of the path, and it is never `..`; and the
/// final component of a plain path is the name after its last `/`.
pub open spec fn file_name_facts(path: Seq<char>, name: Option<Seq<char>>) -> bool {
    &&& name matches Some(n) ==> n.len() > 0 && contains(path, n) && n != ".."@
    &&& plain_path(path) ==> name == Some(last_segment(path))
}

/// `std::path::Path::file_name` on `path`, as text. Which component it
/// picks in general depends on the platform's path syntax, so only the
/// documented facts of the result are stated.
#[verifier::external_body]
fn file_name_of(path: &str) -> (r: Option<String>)
    ensures
        file_name_facts(path@, opt_chars(r)),
{
    std::path::Path::new(path).file_name().and_then(|n| n.to_str()).map(|n| n.to_string())
}

/// The extension of a file name, as `std::path::Path::extension` documents
/// it: none without a file name, none without a `.`, none for a name that
/// begins with its only `.`, else what follows the last `.`.
pub open spec fn name_extension(name: Option<Seq<char>>) -> Option<Seq<char>> {
    match name {
        None => None,
        Some(n) => if last_pos(n, '.') < 0 || last_pos(n, '.') == 0 {
            None
        } else {
            Some(n.skip(last_pos(n, '.') + 1))
        },
    }
}

proof fn lemma_last_pos(s: Seq<char>, c: char, i: int)
    requires
        -1 <= i < s.len(),
        i >= 0 ==> s[i] == c,
        forall|j: int| i < j < s.len() ==> s[j] != c,
    ensures
        last_pos(s, c) == i,
    decreases s.len(),
{
    if s.len() > 0 && s.last() != c {
        lemma_last_pos(s.drop_last(), c, i);
    }
}

/// The extension of a file name (see `name_extension`).
pub fn extension_of_name(name: &Option<String>) -> (r: Option<String>)
    ensures
        opt_chars(r) == name_extension(opt_chars(*name)),
{
    match name {
        None => None,
        Some(n) => {
            let v = chars_of(n.as_str());
            let mut i = v.len();
            while i > 0 && v[i - 1] != '.'
                invariant
                    i <= v.len(),
                    forall|j: int| i <= j < v.len() ==> v@[j] != '.',
                decreases i,
            {
                i = i - 1;
            }
            proof {
                lemma_last_pos(v@, '.', i - 1);
            }
            if i <= 1 {
                None
            } else {
                let r = slice(&v, i, v.len());
                assert(r@ =~= v@.skip(i as int));
                Some(string_of(&r))
            }
        },
    }
}

/// Whether a receipt directory entry of this file name is a receipt: its
/// extension is `json`.
pub fn is_receipt_name(file_name: &Option<String>) -> (r: bool)
    ensures
        r == (name_extension(opt_chars(*file_name)) == Some("json"@)),
{
    match extension_of_name(file_name) {
        Some(x) => str_eq(x.as_str(), "json"),
        None => false,
    }
}

/// Whether a file in a run's receipt directory is a receipt: the file name
/// the platform gives its path has the extension `json`.
pub fn is_receipt_file(path: &str) -> (r: bool)
    ensures
        exists|n: Option<Seq<char>>|
            #[trigger] file_name_facts(path@, n) && r == (name_extension(n) == Some("json"@)),
        plain_path(path@) ==> r == (name_extension(Some(last_segment(path@))) == Some("json"@)),
{
    let n = file_name_of(path);
    let r = is_receipt_name(&n);
    assert(file_name_facts(path@, opt_chars(n)));
    r
}

/// The artifact kind a `file_kind` field names, if it names one: its
/// aliases folded, any other non-blank value kept.
pub open spec fn kind_from_field(k: Seq<char>) -> Option<Seq<char>> {
    if k == "downloaded-archive"@ || k == "archive"@ || k == "tar-gz"@ {
        Some("downloaded-archive"@)
    } else if k == "downloaded-tex"@ || k == "tex"@ {
        Some("downloaded-tex"@)
    } else if k == "downloaded-file"@ || k == "file"@ {
        Some("downloaded-file"@)
    } else if trim(k).len() > 0 {
        Some(k)
    } else {
        None
    }
}

/// The kind of a downloaded artifact: the one its event names, else an
/// archive by a `.tar.gz` file name, else TeX by a `.tex` extension (both
/// in any ASCII case), else a plain file.
pub open spec fn artifact_kind_spec(
    file_kind: Option<Seq<char>>,
    file_name: Option<Seq<char>>,
    extension: Option<Seq<char>>,
) -> Seq<char> {
    if file_kind matches Some(k) && kind_from_field(k) is Some {
        kind_from_field(file_kind->0)->0
    } else if file_name matches Some(n) && ends_with(lower(n), ".tar.gz"@) {
        "downloaded-archive"@
    } else if extension matches Some(x) && lower(x) == "tex"@ {
        "downloaded-tex"@
    } else {
        "downloaded-file"@
    }
}

fn kind_of_field(k: &str) -> (r: Option<String>)
    ensures
        opt_chars(r) == kind_from_field(k@),
{
    if str_eq(k, "downloaded-archive") || str_eq(k, "archive") || str_eq(k, "tar-gz") {
        Some(String::from_str("downloaded-archive"))
    } else if str_eq(k, "downloaded-tex") || str_eq(k, "tex") {
        Some(String::from_str("downloaded-tex"))
    } else if str_eq(k, "downloaded-file") || str_eq(k, "file") {
        Some(String::from_str("downloaded-file"))
    } else {
        let v = chars_of(k);
        let t = vec_trim(&v);
        if t.len() > 0 {
            Some(String::from_str(k))
        } else {
            None
        }
    }
}

/// The kind of a downloaded artifact from the `file_kind` its event names
/// and the file name of its path (see `artifact_kind_spec`).
pub fn artifact_kind(file_kind: Option<&String>, file_name: &Option<String>) -> (r: String)
    ensures
        r@ == artifact_kind_spec(
            match file_kind {
                Some(k) => Some(k@),
                None => None,
            },
            opt_chars(*file_name),
            name_extension(opt_chars(*file_name)),
        ),
{
    match file_kind {
        Some(k) => match kind_of_field(k.as_str()) {
            Some(kind) => {
                return kind;
            },
            None => {},
        },
        None => {},
    }
    match file_name {
        Some(n) => {
            let lowered = vec_ascii_lowercase(&chars_of(n.as_str()));
            if vec_ends_with(&lowered, &chars_of(".tar.gz")) {
                return String::from_str("downloaded-archive");
            }
        },
        None => {},
    }
    match extension_of_name(file_name) {
        Some(x) => {
            let lowered = vec_ascii_lowercase(&chars_of(x.as_str()));
            if vec_eq(&lowered, &chars_of("tex")) {
                return String::from_str("downloaded-tex");
            }
        },
        None => {},
    }
    String::from_str("downloaded-file")
}

/// Whether `kind` is the kind of the artifact an event reports at `path`
/// for a file name the platform may give the path.
pub open spec fn kind_fits(event: JailgunEvent, path: Seq<char>, kind: Seq<char>) -> bool {
    exists|n: Option<Seq<char>>|
        #[trigger] file_name_facts(path, n) && kind == artifact_kind_spec(
            field_of(event, "file_kind"@),
            n,
            name_extension(n),
        )
}

/// The kind of the artifact an event reports at `path`, by the file name
/// the platform gives the path.
pub fn artifact_kind_from_event(event: &JailgunEvent, path: &str) -> (r: String)
    ensures
        kind_fits(*event, path@, r@),
        plain_path(path@) ==> r@ == artifact_kind_spec(
            field_of(*event, "file_kind"@),
            Some(last_segment(path@)),
            name_extension(Some(last_segment(path@))),
        ),
{
    let n = file_name_of(path);
    let r = artifact_kind(event.fields.get("file_kind"), &n);
    assert(file_name_facts(path@, opt_chars(n)));
    r
}

/// Whether an artifact of `kind` is read as a tar archive.
pub fn needs_tar_check(kind: &str) -> (r: bool)
    ensures
        r == (kind@ == "downloaded-archive"@),
{
    str_eq(kind, "downloaded-archive")
}

/// What a look at a downloaded file on disk found: whether it is a
/// regular file and its length, or why it could not be read.
#[derive(Debug, Clone, PartialEq, Eq)]
pub enum FileStat {
    Found { is_file: bool, len: u64 },
    Unreadable(String),
}

/// The verdict on a downloaded file that is not read as an archive: it must
/// be readable, a regular file, and not empty.
pub open spec fn downloaded_file_verdict(path: Seq<char>, stat: FileStat) -> Result<(), Seq<char>> {
    match stat {
        FileStat::Unreadable(e) => Err("downloaded file is not readable: "@ + path + ": "@ + e@),
        FileStat::Found { is_file, len } => if !is_file {
            Err("downloaded path is not a file: "@ + path)
        } else if len == 0 {
            Err("downloaded file is empty: "@ + path)
        } else {
            Ok(())
        },
    }
}

/// Checks a downloaded file at `path` by what a look at it on disk found.
pub fn validate_downloaded_file(path: &str, stat: FileStat) -> (r: Result<(), String>)
    ensures
        match (r, downloaded_file_verdict(path@, stat)) {
            (Ok(_), Ok(_)) => true,
            (Err(m), Err(e)) => m@ == e,
            _ => false,
        },
{
    let mut m: Vec<char> = Vec::new();
    match stat {
        FileStat::Unreadable(e) => {
            push_str(&mut m, "downloaded file is not readable: ");
            push_str(&mut m, path);
            push_str(&mut m, ": ");
            push_str(&mut m, e.as_str());
        },
        FileStat::Found { is_file, len } => {
            if !is_file {
                push_str(&mut m, "downloaded path is not a file: ");
                push_str(&mut m, path);
            } else if len == 0 {
                push_str(&mut m, "downloaded file is empty: ");
                push_str(&mut m, path);
            } else {
                return Ok(());
            }
        },
    }
    Err(string_of(&m))
}

/// A file a run downloaded.
#[derive(Debug, Clone)]
pub struct Artifact {
    pub kind: String,
    pub path: String,
    pub sha256: Option<String>,
    pub size_bytes: Option<u64>,
    pub receipt_path: Option<String>,
    pub tar_validation: Option<TarValidation>,
    pub changed_files: Vec<String>,
}

/// What reading a downloaded archive found.
#[derive(Debug, Clone)]
pub struct ArchiveCheck {
    pub validation: TarValidation,
    /// The repository files the archive changes.
    pub changed_files: Vec<String>,
}

/// What checking a downloaded file on disk gave.
#[derive(Debug)]
pub enum DownloadCheck {
    /// An archive read as a tar archive, or why it could not be.
    Archive(Result<ArchiveCheck, String>),
    /// Any other file checked to be a readable, non-empty file, or why not.
    File(Result<(), String>),
}

/// The value of an event's field `key`, if set.
pub open spec fn field_of(event: JailgunEvent, key: Seq<char>) -> Option<Seq<char>> {
    if event.fields@.contains_key(key) {
        Some(event.fields@[key])
    } else {
        None
    }
}

/// Whether an event reports a download with a local path.
pub open spec fn is_receipt(event: JailgunEvent) -> bool {
    event.kind == EventKind::DownloadReceipt && event.fields@.contains_key("local_path"@)
}

/// The local path of a download an event reports.
pub fn receipt_local_path(event: &JailgunEvent) -> (r: Option<String>)
    ensures
        r is Some <==> is_receipt(*event),
        r matches Some(p) ==> p@ == event.fields@["local_path"@],
{
    if event.kind != EventKind::DownloadReceipt {
        return None;
    }
    match event.fields.get("local_path") {
        Some(p) => Some(p.clone()),
        None => None,
    }
}

/// The failure a check reports, as its code and message, if any: a tar
/// archive must have the expected top-level directory when one is
/// expected.
pub open spec fn check_failure(check: DownloadCheck, expected_top_level: Option<Seq<char>>) -> Option<
    (Seq<char>, Seq<char>),
> {
    match check {
        DownloadCheck::Archive(Ok(a)) => match expected_top_level {
            Some(x) => if a.validation.top_level matches Some(t) && t@ == x {
                None
            } else {
                Some(
                    (
                        "tar-validation"@,
                        "archive top-level must be "@ + x + "/, found "@
                            + crate::support::top_level_text(a.validation.top_level),
                    ),
                )
            },
            None => None,
        },
        DownloadCheck::Archive(Err(e)) => Some(("tar-validation"@, e@)),
        DownloadCheck::File(Err(e)) => Some(("file-validation"@, e@)),
        DownloadCheck::File(Ok(_)) => None,
    }
}

/// A failure taken by its tab, code and message.
pub open spec fn failure_view(f: AgentFailure) -> (Option<u16>, Seq<char>, Seq<char>) {
    (f.tab_id, f.code@, f.message@)
}

/// The artifact a receipt event reports at `path`, of kind `kind`, after
/// `check`: its digest, size and receipt from the event, the archive's
/// validation and changed files when it was read as one.
pub open spec fn artifact_matches(
    a: Artifact,
    event: JailgunEvent,
    path: Seq<char>,
    kind: Seq<char>,
    check: DownloadCheck,
) -> bool {
    &&& a.kind@ == kind
    &&& a.path@ == path
    &&& opt_chars(a.sha256) == field_of(event, "sha256"@)
    &&& a.size_bytes == match field_of(event, "size_bytes"@) {
        Some(v) => parse_u64_spec(v),
        None => None,
    }
    &&& opt_chars(a.receipt_path) == field_of(event, "receipt_path"@)
    &&& a.tar_validation == match check {
        DownloadCheck::Archive(Ok(c)) => Some(c.validation),
        _ => None,
    }
    &&& a.changed_files@ == match check {
        DownloadCheck::Archive(Ok(c)) => c.changed_files@,
        _ => Seq::<String>::empty(),
    }
}

fn opt_field(fields: &Fields, key: &str) -> (r: Option<String>)
    ensures
        r is Some <==> fields@.contains_key(key@),
        r matches Some(v) ==> v@ == fields@[key@],
{
    match fields.get(key) {
        Some(v) => Some(v.clone()),
        None => None,
    }
}

fn top_level_name(top: &Option<String>) -> (r: String)
    ensures
        r@ == crate::support::top_level_text(*top),
{
    match top {
        Some(t) => t.clone(),
        None => String::from_str("(multiple)"),
    }
}

/// The artifact a receipt event reports, and the failure its check found.
pub fn artifact_from_receipt(
    event: &JailgunEvent,
    path: String,
    kind: String,
    check: DownloadCheck,
    expected_top_level: &Option<String>,
) -> (r: (Artifact, Option<AgentFailure>))
    ensures
        artifact_matches(r.0, *event, path@, kind@, check),
        match check_failure(check, opt_chars(*expected_top_level)) {
            Some(f) => (r.1 matches Some(g) && failure_view(g) == (event.tab_id, f.0, f.1)),
            None => r.1 is None,
        },
{
    let sha256 = opt_field(&event.fields, "sha256");
    let size_bytes = match event.fields.get("size_bytes") {
        Some(v) => parse_u64(v.as_str()),
        None => None,
    };
    let receipt_path = opt_field(&event.fields, "receipt_path");
    let ghost check_value = check;
    let (validation, changed_files, failure) = match check {
        DownloadCheck::Archive(Ok(a)) => {
            let failure = match expected_top_level {
                Some(x) => {
                    let matches = match &a.validation.top_level {
                        Some(t) => str_eq(t.as_str(), x.as_str()),
                        None => false,
                    };
                    if matches {
                        None
                    } else {
                        let mut m: Vec<char> = Vec::new();
                        push_str(&mut m, "archive top-level must be ");
                        push_str(&mut m, x.as_str());
                        push_str(&mut m, "/, found ");
                        let top = top_level_name(&a.validation.top_level);
                        push_str(&mut m, top.as_str());
                        Some(
                            AgentFailure {
                                tab_id: event.tab_id,
                                code: String::from_str("tar-validation"),
                                message: string_of(&m),
                            },
                        )
                    }
                },
                None => None,
            };
            (Some(a.validation), a.changed_files, failure)
        },
        DownloadCheck::Archive(Err(e)) => (
            None,
            Vec::new(),
            Some(
                AgentFailure {
                    tab_id: event.tab_id,
                    code: String::from_str("tar-validation"),
                    message: e,
                },
            ),
        ),
        DownloadCheck::File(Err(e)) => (
            None,
            Vec::new(),
            Some(
                AgentFailure {
                    tab_id: event.tab_id,
                    code: String::from_str("file-validation"),
                    message: e,
                },
            ),
        ),
        DownloadCheck::File(Ok(())) => (None, Vec::new(), None),
    };
    let artifact = Artifact {
        kind,
        path,
        sha256,
        size_bytes,
        receipt_path,
        tar_validation: validation,
        changed_files,
    };
    (artifact, failure)
}

/// The positions of the receipt events, in order.
pub open spec fn receipt_indices(events: Seq<JailgunEvent>) -> Seq<int>
    decreases events.len(),
{
    if events.len() == 0 {
        seq![]
    } else if is_receipt(events.last()) {
        receipt_indices(events.drop_last()).push(events.len() - 1)
    } else {
        receipt_indices(events.drop_last())
    }
}

/// The failures the checks of the receipts at `idx` found, in order; the
/// check of the `k`-th receipt is `checks[k]`.
pub open spec fn failures_of(
    events: Seq<JailgunEvent>,
    idx: Seq<int>,
    checks: Seq<DownloadCheck>,
    expected_top_level: Option<Seq<char>>,
) -> Seq<(Option<u16>, Seq<char>, Seq<char>)>
    decreases idx.len(),
{
    if idx.len() == 0 {
        seq![]
    } else {
        let rest = failures_of(events, idx.drop_last(), checks, expected_top_level);
        match check_failure(checks[idx.len() - 1], expected_top_level) {
            Some(f) => rest.push((events[idx.last()].tab_id, f.0, f.1)),
            None => rest,
        }
    }
}

/// The receipts of a prefix of the events are a prefix of the receipts.
proof fn lemma_receipt_prefix(events: Seq<JailgunEvent>, j: int)
    requires
        0 <= j <= events.len(),
    ensures
        receipt_indices(events.take(j)) == receipt_indices(events).take(
            receipt_indices(events.take(j)).len() as int,
        ),
        receipt_indices(events.take(j)).len() <= receipt_indices(events).len(),
    decreases events.len(),
{
    if j == events.len() {
        assert(events.take(j) =~= events);
        assert(receipt_indices(events).take(receipt_indices(events).len() as int) =~= receipt_indices(events));
    } else {
        lemma_receipt_prefix(events.drop_last(), j);
        assert(events.drop_last().take(j) =~= events.take(j));
        let a = receipt_indices(events.take(j));
        let b = receipt_indices(events.drop_last());
        assert(receipt_indices(events).take(a.len() as int) =~= b.take(a.len() as int));
    }
}

/// The artifacts of a run's download receipts and the failures their
/// checks found: the `k`-th receipt is of kind `kinds[k]`, the kind its
/// event and path give it, and checking it on disk gave `checks[k]`, read
/// as a tar archive exactly when that kind asks for it.
pub fn artifacts_from_events(
    events: &Vec<JailgunEvent>,
    kinds: &Vec<String>,
    checks: Vec<DownloadCheck>,
    expected_top_level: &Option<String>,
) -> (r: (Vec<Artifact>, Vec<AgentFailure>))
    requires
        kinds@.len() == receipt_indices(events@).len(),
        checks@.len() == receipt_indices(events@).len(),
        forall|k: int|
            0 <= k < kinds@.len() ==> kind_fits(
                events@[receipt_indices(events@)[k]],
                events@[receipt_indices(events@)[k]].fields@["local_path"@],
                #[trigger] kinds@[k]@,
            ) && (checks@[k] is Archive <==> kinds@[k]@ == "downloaded-archive"@),
    ensures
        r.0@.len() == receipt_indices(events@).len(),
        forall|k: int|
            0 <= k < r.0@.len() ==> artifact_matches(
                #[trigger] r.0@[k],
                events@[receipt_indices(events@)[k]],
                events@[receipt_indices(events@)[k]].fields@["local_path"@],
                kinds@[k]@,
                checks@[k],
            ),
        r.1@.map_values(|f: AgentFailure| failure_view(f)) == failures_of(
            events@,
            receipt_indices(events@),
            checks@,
            opt_chars(*expected_top_level),
        ),
{
    let ghost all = checks@;
    let ghost expected = opt_chars(*expected_top_level);
    let mut rest = checks;
    let mut artifacts: Vec<Artifact> = Vec::new();
    let mut failures: Vec<AgentFailure> = Vec::new();
    let mut i: usize = 0;
    while i < events.len()
        invariant
            i <= events.len(),
            all.len() == receipt_indices(events@).len(),
            expected == opt_chars(*expected_top_level),
            artifacts@.len() == receipt_indices(events@.take(i as int)).len(),
            rest@ == all.skip(artifacts@.len() as int),
            kinds@.len() == all.len(),
            forall|k: int|
                0 <= k < artifacts@.len() ==> artifact_matches(
                    #[trigger] artifacts@[k],
                    events@[receipt_indices(events@.take(i as int))[k]],
                    events@[receipt_indices(events@.take(i as int))[k]].fields@["local_path"@],
                    kinds@[k]@,
                    all[k],
                ),
            forall|k: int|
                0 <= k < artifacts@.len() ==> 0 <= #[trigger] receipt_indices(
                    events@.take(i as int),
                )[k] < i,
            failures@.map_values(|f: AgentFailure| failure_view(f)) == failures_of(
                events@,
                receipt_indices(events@.take(i as int)),
                all,
                expected,
            ),
        decreases events.len() - i,
    {
        let ghost before = receipt_indices(events@.take(i as int));
        proof {
            assert(events@.take(i + 1).drop_last() =~= events@.take(i as int));
            assert(events@.take(i + 1).last() == events@[i as int]);
        }
        match receipt_local_path(&events[i]) {
            Some(path) => {
                proof {
                    lemma_receipt_prefix(events@, i + 1);
                    assert(receipt_indices(events@.take(i + 1)) == before.push(i as int));
                }
                let ghost k = artifacts@.len();
                proof {
                    lemma_receipt_prefix(events@, events@.len() as int);
                    assert(events@.take(events@.len() as int) =~= events@);
                }
                assert(k < kinds@.len());
                let kind = kinds[artifacts.len()].clone();
                assert(rest@.len() > 0);
                let check = rest.remove(0);
                assert(check == all[k as int]);
                let (artifact, failure) = artifact_from_receipt(
                    &events[i],
                    path,
                    kind,
                    check,
                    expected_top_level,
                );
                artifacts.push(artifact);
                let ghost fbefore = failures@;
                match failure {
                    Some(f) => {
                        failures.push(f);
                        assert(failures@.map_values(|f: AgentFailure| failure_view(f))
                            =~= fbefore.map_values(|f: AgentFailure| failure_view(f)).push(
                            failure_view(f),
                        ));
                    },
                    None => {},
                }
                proof {
                    let idx = receipt_indices(events@.take(i + 1));
                    assert(idx.drop_last() =~= before);
                    assert(rest@ =~= all.skip(artifacts@.len() as int));
                }
            },
            None => {
                assert(receipt_indices(events@.take(i + 1)) == before);
            },
        }
        i = i + 1;
    }
    assert(events@.take(events.len() as int) =~= events@);
    (artifacts, failures)
}

/// The receipt paths the events name.
pub open spec fn receipt_paths(events: Seq<JailgunEvent>) -> Set<Seq<char>> {
    Set::new(
        |p: Seq<char>|
            exists|i: int|
                0 <= i < events.len() && #[trigger] field_of(events[i], "receipt_path"@) == Some(
                    p,
                ),
    )
}

/// Every receipt path the events name, once each, in sorted order.
pub fn receipt_paths_from_events(events: &Vec<JailgunEvent>) -> (r: Vec<String>)
    ensures
        strictly_sorted(strings_chars(r@)),
        strings_chars(r@).to_set() == receipt_paths(events@),
{
    let mut out: Vec<String> = Vec::new();
    let mut i: usize = 0;
    assert(strings_chars(out@).to_set() =~= receipt_paths(events@.take(0)));
    while i < events.len()
        invariant
            i <= events.len(),
            strictly_sorted(strings_chars(out@)),
            strings_chars(out@).to_set() == receipt_paths(events@.take(i as int)),
        decreases events.len() - i,
    {
        let ghost t = events@.take(i as int);
        let ghost t1 = events@.take(i + 1);
        assert(forall|j: int| 0 <= j < i ==> t1[j] == #[trigger] t[j]);
        assert(t1[i as int] == events@[i as int]);
        match opt_field(&events[i].fields, "receipt_path") {
            Some(p) => {
                let ghost pv = p@;
                insert_sorted(&mut out, p);
                assert forall|q: Seq<char>|
                    receipt_paths(t).insert(pv).contains(q) implies receipt_paths(t1).contains(q) by {
                    if q == pv {
                        assert(field_of(t1[i as int], "receipt_path"@) == Some(q));
                    } else {
                        let j = choose|j: int|
                            0 <= j < t.len() && #[trigger] field_of(t[j], "receipt_path"@) == Some(
                                q,
                            );
                        assert(field_of(t1[j], "receipt_path"@) == Some(q));
                    }
                }
                assert forall|q: Seq<char>|
                    receipt_paths(t1).contains(q) implies receipt_paths(t).insert(pv).contains(q) by {
                    let j = choose|j: int|
                        0 <= j < t1.len() && #[trigger] field_of(t1[j], "receipt_path"@) == Some(q);
                    if j < i {
                        assert(field_of(t[j], "receipt_path"@) == Some(q));
                    }
                }
                assert(receipt_paths(t1) =~= receipt_paths(t).insert(pv));
            },
            None => {
                assert forall|q: Seq<char>|
                    receipt_paths(t).contains(q) implies receipt_paths(t1).contains(q) by {
                    let j = choose|j: int|
                        0 <= j < t.len() && #[trigger] field_of(t[j], "receipt_path"@) == Some(q);
                    assert(field_of(t1[j], "receipt_path"@) == Some(q));
                }
                assert forall|q: Seq<char>|
                    receipt_paths(t1).contains(q) implies receipt_paths(t).contains(q) by {
                    let j = choose|j: int|
                        0 <= j < t1.len() && #[trigger] field_of(t1[j], "receipt_path"@) == Some(q);
                    if j < i {
                        assert(field_of(t[j], "receipt_path"@) == Some(q));
                    }
                }
                assert(receipt_paths(t1) =~= receipt_paths(t));
            },
        }
        i = i + 1;
    }
    assert(events@.take(events.len() as int) =~= events@);
    out
}

/// Every file any artifact changes.
pub open spec fn changed_files_of(artifacts: Seq<Artifact>) -> Set<Seq<char>> {
    Set::new(
        |f: Seq<char>|
            exists|i: int, j: int|
                0 <= i < artifacts.len() && 0 <= j < artifacts[i].changed_files@.len()
                    && #[trigger] artifacts[i].changed_files@[j]@ == f,
    )
}

/// The files the artifacts change, each once, in sorted order.
pub fn merged_changed_files(artifacts: &Vec<Artifact>) -> (r: Vec<String>)
    ensures
        strictly_sorted(strings_chars(r@)),
        strings_chars(r@).to_set() == changed_files_of(artifacts@),
{
    let mut out: Vec<String> = Vec::new();
    let mut i: usize = 0;
    assert(strings_chars(out@).to_set() =~= changed_files_of(artifacts@.take(0)));
    while i < artifacts.len()
        invariant
            i <= artifacts.len(),
            strictly_sorted(strings_chars(out@)),
            strings_chars(out@).to_set() == changed_files_of(artifacts@.take(i as int)),
        decreases artifacts.len() - i,
    {
        let files = &artifacts[i].changed_files;
        let ghost before = strings_chars(out@).to_set();
        let mut j: usize = 0;
        while j < files.len()
            invariant
                i < artifacts.len(),
                *files == artifacts@[i as int].changed_files,
                j <= files.len(),
                strictly_sorted(strings_chars(out@)),
                strings_chars(out@).to_set() == before.union(
                    Set::new(|f: Seq<char>| exists|k: int| 0 <= k < j && #[trigger] files@[k]@ == f),
                ),
            decreases files.len() - j,
        {
            let ghost fv = files@[j as int]@;
            insert_sorted(&mut out, files[j].clone());
            assert(strings_chars(out@).to_set() =~= before.union(
                Set::new(|f: Seq<char>| exists|k: int| 0 <= k < j + 1 && #[trigger] files@[k]@ == f),
            )) by {
                assert(files@[j as int]@ == fv);
            }
            j = j + 1;
        }
        let ghost t = artifacts@.take(i as int);
        let ghost t1 = artifacts@.take(i + 1);
        assert(forall|k: int| 0 <= k < i ==> t1[k] == #[trigger] t[k]);
        assert(t1[i as int] == artifacts@[i as int]);
        assert forall|f: Seq<char>|
            changed_files_of(t1).contains(f) implies strings_chars(out@).to_set().contains(f) by {
            let (a, b) = choose|a: int, b: int|
                0 <= a < t1.len() && 0 <= b < t1[a].changed_files@.len()
                    && #[trigger] t1[a].changed_files@[b]@ == f;
            if a < i {
                assert(t[a].changed_files@[b]@ == f);
                assert(changed_files_of(t).contains(f));
            } else {
                assert(files@[b]@ == f);
            }
        }
        assert forall|f: Seq<char>|
            strings_chars(out@).to_set().contains(f) implies changed_files_of(t1).contains(f) by {
            if before.contains(f) {
                let (a, b) = choose|a: int, b: int|
                    0 <= a < t.len() && 0 <= b < t[a].changed_files@.len()
                        && #[trigger] t[a].changed_files@[b]@ == f;
                assert(t1[a].changed_files@[b]@ == f);
            } else {
                let k = choose|k: int| 0 <= k < files@.len() && #[trigger] files@[k]@ == f;
                assert(t1[i as int].changed_files@[k]@ == f);
            }
        }
        assert(strings_chars(out@).to_set() =~= changed_files_of(t1));
        i = i + 1;
    }
    assert(artifacts@.take(artifacts.len() as int) =~= artifacts@);
    out
}

} // verus!
