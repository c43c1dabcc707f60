//! Helpers of the review packet: changed-file lists, test-path detection
//! and patch capping.
use vstd::prelude::*;
use crate::fields::Fields;
use crate::text::{
    chars_of, contains, decimal, decimal_string, ends_with, lead_len, leading_count, lower,
    push_decimal, push_str, slice, starts_with, string_of, strings_chars, trim,
    vec_ascii_lowercase, vec_contains, vec_ends_with, vec_starts_with, vec_trim, CharClass,
};

verus! {

/// Bytes of the UTF-8 encoding of one character.
pub open spec fn utf8_width(c: char) -> nat {
    let u = c as u32;
    if u < 0x80 { 1 } else if u < 0x800 { 2 } else if u < 0x10000 { 3 } else { 4 }
}

fn char_utf8_width(c: char) -> (r: usize)
    ensures
        r == utf8_width(c),
{
    let u = c as u32;
    if u < 0x80 { 1 } else if u < 0x800 { 2 } else if u < 0x10000 { 3 } else { 4 }
}

/// How many leading characters of `s` fit, encoded as UTF-8, in `budget`
/// bytes: the last character boundary at or before `budget`.
pub open spec fn utf8_prefix_fit(s: Seq<char>, budget: nat) -> nat
    decreases s.len(),
{
    if s.len() > 0 && utf8_width(s[0]) <= budget {
        1 + utf8_prefix_fit(s.drop_first(), (budget - utf8_width(s[0])) as nat)
    } else {
        0
    }
}

/// Bytes of the UTF-8 encoding of `s`.
pub open spec fn utf8_len(s: Seq<char>) -> nat
    decreases s.len(),
{
    if s.len() == 0 {
        0
    } else {
        utf8_width(s[0]) + utf8_len(s.drop_first())
    }
}

/// Capping keeps the longest prefix whose UTF-8 encoding fits the budget:
/// it fits, one character more would not, and a text that fits whole is
/// kept whole.
pub proof fn lemma_capped_prefix_fits(s: Seq<char>, budget: nat)
    ensures
        utf8_prefix_fit(s, budget) <= s.len(),
        utf8_len(s.take(utf8_prefix_fit(s, budget) as int)) <= budget,
        utf8_prefix_fit(s, budget) < s.len() ==> utf8_len(
            s.take(utf8_prefix_fit(s, budget) + 1int),
        ) > budget,
        utf8_prefix_fit(s, budget) == s.len() <==> utf8_len(s) <= budget,
    decreases s.len(),
{
    let k = utf8_prefix_fit(s, budget);
    if s.len() > 0 && utf8_width(s[0]) <= budget {
        let rest = s.drop_first();
        let b2 = (budget - utf8_width(s[0])) as nat;
        lemma_capped_prefix_fits(rest, b2);
        let j = utf8_prefix_fit(rest, b2);
        assert(s.take(j + 1int)[0] == s[0]);
        assert(s.take(j + 1int).drop_first() =~= rest.take(j as int));
        if j + 1 < s.len() {
            assert(s.take(j + 2int)[0] == s[0]);
            assert(s.take(j + 2int).drop_first() =~= rest.take(j + 1int));
        }
    } else {
        assert(s.take(0) =~= Seq::<char>::empty());
        if s.len() > 0 {
            assert(s.take(1).drop_first() =~= Seq::<char>::empty());
        }
    }
}

/// A patch capped to `max_bytes`: unchanged when all of it fits, else cut
/// at the last character boundary within the limit and followed by a note.
pub open spec fn capped_patch(s: Seq<char>, max_bytes: nat) -> Seq<char> {
    let k = utf8_prefix_fit(s, max_bytes);
    if k == s.len() {
        s
    } else {
        s.take(k as int) + "\n[patch truncated at "@ + decimal(max_bytes) + " bytes]\n"@
    }
}

/// A patch capped to `max_bytes` (see `capped_patch`).
pub fn cap_utf8(text: String, max_bytes: usize) -> (r: String)
    ensures
        r@ == capped_patch(text@, max_bytes as nat),
{
    let v = chars_of(text.as_str());
    let n = v.len();
    let mut i: usize = 0;
    let mut used: usize = 0;
    assert(v@.skip(0) =~= v@);
    while i < n && char_utf8_width(v[i]) <= max_bytes - used
        invariant
            n == v.len(),
            i <= n,
            used <= max_bytes,
            utf8_prefix_fit(v@, max_bytes as nat) == i + utf8_prefix_fit(
                v@.skip(i as int),
                (max_bytes - used) as nat,
            ),
        decreases n - i,
    {
        let w = char_utf8_width(v[i]);
        assert(v@.skip(i as int).drop_first() =~= v@.skip(i + 1));
        used = used + w;
        i = i + 1;
    }
    if i == n {
        assert(v@.skip(n as int).len() == 0);
        return text;
    }
    let mut out = slice(&v, 0, i);
    assert(out@ =~= v@.take(i as int));
    push_str(&mut out, "\n[patch truncated at ");
    push_decimal(&mut out, max_bytes as u64);
    push_str(&mut out, " bytes]\n");
    assert(out@ =~= capped_patch(text@, max_bytes as nat));
    string_of(&out)
}

/// Whether a path names a test file or lies in a test directory (compared
/// in ASCII lowercase).
pub open spec fn test_path(path: Seq<char>) -> bool {
    let l = lower(path);
    starts_with(l, "tests/"@) || contains(l, "/tests/"@) || contains(l, "__tests__"@)
        || ends_with(l, "_test.rs"@) || ends_with(l, "_tests.rs"@) || ends_with(l, ".test.ts"@)
        || ends_with(l, ".test.tsx"@) || ends_with(l, ".spec.ts"@) || ends_with(l, ".spec.tsx"@)
        || ends_with(l, ".test.mjs"@)
}

/// Whether a path names a test (see `test_path`).
pub fn is_test_path(path: &str) -> (r: bool)
    ensures
        r == test_path(path@),
{
    let p = chars_of(path);
    let l = vec_ascii_lowercase(&p);
    vec_starts_with(&l, &chars_of("tests/")) || vec_contains(&l, &chars_of("/tests/"))
        || vec_contains(&l, &chars_of("__tests__")) || vec_ends_with(&l, &chars_of("_test.rs"))
        || vec_ends_with(&l, &chars_of("_tests.rs")) || vec_ends_with(&l, &chars_of(".test.ts"))
        || vec_ends_with(&l, &chars_of(".test.tsx")) || vec_ends_with(&l, &chars_of(".spec.ts"))
        || vec_ends_with(&l, &chars_of(".spec.tsx")) || vec_ends_with(
        &l,
        &chars_of(".test.mjs"),
    )
}

/// The pieces of `s` between the characters of `cls` (`str::split`): one
/// more piece than there are separators.
pub open spec fn split_on(s: Seq<char>, cls: CharClass) -> Seq<Seq<char>>
    decreases s.len(),
{
    let k = lead_len(s, cls, false);
    if k >= s.len() {
        seq![s]
    } else {
        seq![s.take(k as int)] + split_on(s.skip(k + 1int), cls)
    }
}

/// A line without its carriage return, if it ends in one.
pub open spec fn strip_cr(l: Seq<char>) -> Seq<char> {
    if l.len() > 0 && l.last() == '\r' { l.drop_last() } else { l }
}

/// The lines of `s` (`str::lines`): split at newlines, a final newline
/// ends the last line, and one trailing carriage return is removed from
/// each line.
pub open spec fn lines_of(s: Seq<char>) -> Seq<Seq<char>>
    decreases s.len(),
{
    if s.len() == 0 {
        seq![]
    } else {
        let k = lead_len(s, CharClass::Newline, false);
        if k >= s.len() {
            seq![strip_cr(s)]
        } else {
            seq![strip_cr(s.take(k as int))] + lines_of(s.skip(k + 1int))
        }
    }
}

pub fn split_chars(v: &Vec<char>, cls: CharClass) -> (r: Vec<Vec<char>>)
    ensures
        r@.map_values(|p: Vec<char>| p@) == split_on(v@, cls),
{
    let mut out: Vec<Vec<char>> = Vec::new();
    let mut cur = slice(v, 0, v.len());
    assert(cur@ =~= v@);
    loop
        invariant
            out@.map_values(|p: Vec<char>| p@) + split_on(cur@, cls) == split_on(v@, cls),
        decreases cur.len(),
    {
        let k = leading_count(&cur, cls, false);
        let ghost before = out@;
        if k >= cur.len() {
            let last = slice(&cur, 0, cur.len());
            assert(last@ =~= cur@);
            out.push(last);
            assert(out@.map_values(|p: Vec<char>| p@) =~= before.map_values(|p: Vec<char>| p@)
                + split_on(cur@, cls));
            return out;
        }
        let piece = slice(&cur, 0, k);
        let rest = slice(&cur, k + 1, cur.len());
        assert(piece@ =~= cur@.take(k as int));
        assert(rest@ =~= cur@.skip(k + 1));
        out.push(piece);
        assert(out@.map_values(|p: Vec<char>| p@) + split_on(rest@, cls) =~= before.map_values(
            |p: Vec<char>| p@,
        ) + split_on(cur@, cls));
        cur = rest;
    }
}

fn strip_cr_vec(v: Vec<char>) -> (r: Vec<char>)
    ensures
        r@ == strip_cr(v@),
{
    if v.len() > 0 && v[v.len() - 1] == '\r' {
        let r = slice(&v, 0, v.len() - 1);
        assert(r@ =~= v@.drop_last());
        r
    } else {
        v
    }
}

pub fn lines_chars(v: &Vec<char>) -> (r: Vec<Vec<char>>)
    ensures
        r@.map_values(|p: Vec<char>| p@) == lines_of(v@),
{
    let mut out: Vec<Vec<char>> = Vec::new();
    let mut cur = slice(v, 0, v.len());
    assert(cur@ =~= v@);
    loop
        invariant
            out@.map_values(|p: Vec<char>| p@) + lines_of(cur@) == lines_of(v@),
        decreases cur.len(),
    {
        let ghost before = out@;
        if cur.len() == 0 {
            assert(out@.map_values(|p: Vec<char>| p@) + lines_of(cur@) =~= out@.map_values(
                |p: Vec<char>| p@,
            ));
            return out;
        }
        let k = leading_count(&cur, CharClass::Newline, false);
        if k >= cur.len() {
            let last = slice(&cur, 0, cur.len());
            assert(last@ =~= cur@);
            out.push(strip_cr_vec(last));
            assert(out@.map_values(|p: Vec<char>| p@) =~= before.map_values(|p: Vec<char>| p@)
                + lines_of(cur@));
            return out;
        }
        let piece = slice(&cur, 0, k);
        let rest = slice(&cur, k + 1, cur.len());
        assert(piece@ =~= cur@.take(k as int));
        assert(rest@ =~= cur@.skip(k + 1));
        out.push(strip_cr_vec(piece));
        assert(out@.map_values(|p: Vec<char>| p@) + lines_of(rest@) =~= before.map_values(
            |p: Vec<char>| p@,
        ) + lines_of(cur@));
        cur = rest;
    }
}

/// One changed file of a diff: its status letter(s), path, and for renames
/// and copies the path it came from.
#[derive(Debug, Clone, PartialEq, Eq)]
pub struct ChangedFile {
    pub status: String,
    pub path: String,
    pub old_path: Option<String>,
}

/// A changed file by its characters.
pub struct ChangedFileView {
    pub status: Seq<char>,
    pub path: Seq<char>,
    pub old_path: Option<Seq<char>>,
}

pub open spec fn changed_file_view(f: ChangedFile) -> ChangedFileView {
    ChangedFileView {
        status: f.status@,
        path: f.path@,
        old_path: crate::text::opt_chars(f.old_path),
    }
}

/// One `git diff --name-status` line: tab-separated status and paths; a
/// rename or copy (status starting with R or C) names the old path then
/// the new one. Lines with too few fields are skipped.
pub open spec fn name_status_entry(line: Seq<char>) -> Option<ChangedFileView> {
    let parts = split_on(line, CharClass::Tab);
    let status = parts[0];
    if status.len() > 0 && (status[0] == 'R' || status[0] == 'C') {
        if parts.len() >= 3 {
            Some(ChangedFileView { status, path: parts[2], old_path: Some(parts[1]) })
        } else {
            None
        }
    } else if parts.len() >= 2 {
        Some(ChangedFileView { status, path: parts[1], old_path: None })
    } else {
        None
    }
}

pub open spec fn name_status_entries(ls: Seq<Seq<char>>) -> Seq<ChangedFileView>
    decreases ls.len(),
{
    if ls.len() == 0 {
        seq![]
    } else {
        let rest = name_status_entries(ls.drop_first());
        match name_status_entry(ls[0]) {
            Some(f) => seq![f] + rest,
            None => rest,
        }
    }
}

proof fn lemma_split_nonempty(s: Seq<char>, cls: CharClass)
    ensures
        split_on(s, cls).len() >= 1,
    decreases s.len(),
{
}

fn parse_name_status_line(line: &Vec<char>) -> (r: Option<ChangedFile>)
    ensures
        match r {
            Some(f) => name_status_entry(line@) == Some(changed_file_view(f)),
            None => name_status_entry(line@) is None,
        },
{
    let parts = split_chars(line, CharClass::Tab);
    proof {
        lemma_split_nonempty(line@, CharClass::Tab);
        assert(parts@.map_values(|p: Vec<char>| p@).len() == parts@.len());
    }
    let ghost views = parts@.map_values(|p: Vec<char>| p@);
    let status = &parts[0];
    assert(status@ == views[0]);
    if status.len() > 0 && (status[0] == 'R' || status[0] == 'C') {
        if parts.len() >= 3 {
            assert(parts[1]@ == views[1]);
            assert(parts[2]@ == views[2]);
            return Some(
                ChangedFile {
                    status: string_of(status),
                    path: string_of(&parts[2]),
                    old_path: Some(string_of(&parts[1])),
                },
            );
        }
        return None;
    }
    if parts.len() >= 2 {
        assert(parts[1]@ == views[1]);
        return Some(
            ChangedFile { status: string_of(status), path: string_of(&parts[1]), old_path: None },
        );
    }
    None
}

/// The changed files listed by `git diff --name-status` output.
pub fn parse_name_status(text: &str) -> (r: Vec<ChangedFile>)
    ensures
        r@.map_values(|f: ChangedFile| changed_file_view(f)) == name_status_entries(
            lines_of(text@),
        ),
{
    let v = chars_of(text);
    let ls = lines_chars(&v);
    let ghost lv = ls@.map_values(|p: Vec<char>| p@);
    let mut out: Vec<ChangedFile> = Vec::new();
    let mut i: usize = 0;
    assert(lv.skip(0) =~= lv);
    assert(out@.map_values(|f: ChangedFile| changed_file_view(f)) =~= Seq::<ChangedFileView>::empty());
    assert(Seq::<ChangedFileView>::empty() + name_status_entries(lv) =~= name_status_entries(lv));
    while i < ls.len()
        invariant
            i <= ls.len(),
            lv == lines_of(v@),
            lv == ls@.map_values(|p: Vec<char>| p@),
            out@.map_values(|f: ChangedFile| changed_file_view(f)) + name_status_entries(
                lv.skip(i as int),
            ) == name_status_entries(lv),
        decreases ls.len() - i,
    {
        let ghost before = out@;
        assert(lv.skip(i as int).drop_first() =~= lv.skip(i + 1));
        assert(lv.skip(i as int)[0] == ls@[i as int]@);
        match parse_name_status_line(&ls[i]) {
            Some(f) => {
                out.push(f);
                assert(out@.map_values(|f: ChangedFile| changed_file_view(f)) =~= before.map_values(
                    |f: ChangedFile| changed_file_view(f),
                ).push(changed_file_view(out@[before.len() as int])));
                assert(out@.map_values(|f: ChangedFile| changed_file_view(f)) + name_status_entries(
                    lv.skip(i + 1),
                ) =~= before.map_values(|f: ChangedFile| changed_file_view(f))
                    + name_status_entries(lv.skip(i as int)));
            },
            None => {},
        }
        i = i + 1;
    }
    assert(lv.skip(ls.len() as int) =~= Seq::<Seq<char>>::empty());
    assert(lv.skip(0) =~= lv);
    assert(out@.map_values(|f: ChangedFile| changed_file_view(f)) + Seq::<ChangedFileView>::empty()
        =~= out@.map_values(|f: ChangedFile| changed_file_view(f)));
    out
}

/// The paths of the changed files that are tests, in diff order.
pub open spec fn test_paths(fs: Seq<ChangedFileView>) -> Seq<Seq<char>>
    decreases fs.len(),
{
    if fs.len() == 0 {
        seq![]
    } else {
        let init = test_paths(fs.drop_last());
        if test_path(fs.last().path) {
            init.push(fs.last().path)
        } else {
            init
        }
    }
}

/// Test files are recognised by name, in any letter case: a path whose
/// ASCII-lowercase form ends in `_test.rs`, `_tests.rs`, `.test.ts`,
/// `.test.tsx`, `.spec.ts`, `.spec.tsx` or `.test.mjs` is a test path.
pub proof fn lemma_test_suffix_marks_test(path: Seq<char>, suffix: Seq<char>)
    requires
        suffix == "_test.rs"@ || suffix == "_tests.rs"@ || suffix == ".test.ts"@ || suffix
            == ".test.tsx"@ || suffix == ".spec.ts"@ || suffix == ".spec.tsx"@ || suffix
            == ".test.mjs"@,
        ends_with(lower(path), suffix),
    ensures
        test_path(path),
{
}

/// Test directories are recognised in any letter case: a path under
/// `tests/` at the top, or with a `tests` or `__tests__` directory anywhere,
/// is a test path.
pub proof fn lemma_test_directory_marks_test(path: Seq<char>, i: int)
    requires
        starts_with(lower(path), "tests/"@) || (0 <= i && i + 7 <= path.len() && lower(
            path,
        ).subrange(i, i + 7) == "/tests/"@) || (0 <= i && i + 9 <= path.len() && lower(
            path,
        ).subrange(i, i + 9) == "__tests__"@),
    ensures
        test_path(path),
{
    reveal_strlit("/tests/");
    reveal_strlit("__tests__");
    let l = lower(path);
    assert(l.len() == path.len());
    if 0 <= i && i + 7 <= path.len() && l.subrange(i, i + 7) == "/tests/"@ {
        assert(l.subrange(i, i + "/tests/"@.len()) == "/tests/"@);
        assert(contains(l, "/tests/"@));
    }
    if 0 <= i && i + 9 <= path.len() && l.subrange(i, i + 9) == "__tests__"@ {
        assert(l.subrange(i, i + "__tests__"@.len()) == "__tests__"@);
        assert(contains(l, "__tests__"@));
    }
}

/// The changed tests are exactly the changed files that are tests: every
/// changed file with a test path is listed, and nothing else is.
pub proof fn lemma_test_paths_are_the_tests(fs: Seq<ChangedFileView>)
    ensures
        forall|i: int|
            0 <= i < fs.len() && test_path(#[trigger] fs[i].path) ==> test_paths(fs).contains(
                fs[i].path,
            ),
        forall|q: Seq<char>|
            #[trigger] test_paths(fs).contains(q) ==> test_path(q) && exists|i: int|
                0 <= i < fs.len() && fs[i].path == q,
    decreases fs.len(),
{
    if fs.len() > 0 {
        let init = fs.drop_last();
        lemma_test_paths_are_the_tests(init);
        let r = test_paths(fs);
        assert forall|i: int|
            0 <= i < fs.len() && test_path(#[trigger] fs[i].path) implies r.contains(fs[i].path) by {
            if i < fs.len() - 1 {
                assert(init[i] == fs[i]);
                let k = choose|k: int| 0 <= k < test_paths(init).len() && test_paths(init)[k]
                    == init[i].path;
                assert(r[k] == fs[i].path);
            } else {
                assert(r[r.len() - 1] == fs[i].path);
            }
        }
        assert forall|q: Seq<char>| #[trigger] r.contains(q) implies test_path(q) && exists|i: int|
            0 <= i < fs.len() && fs[i].path == q by {
            let k = choose|k: int| 0 <= k < r.len() && r[k] == q;
            if k < test_paths(init).len() {
                assert(test_paths(init)[k] == q);
                assert(test_paths(init).contains(q));
                let i = choose|i: int| 0 <= i < init.len() && init[i].path == q;
                assert(fs[i] == init[i]);
            } else {
                assert(fs[fs.len() - 1].path == q);
            }
        }
    }
}

/// The changed files that are tests, by path.
pub fn changed_tests(files: &Vec<ChangedFile>) -> (r: Vec<String>)
    ensures
        strings_chars(r@) == test_paths(files@.map_values(|f: ChangedFile| changed_file_view(f))),
{
    let ghost fv = files@.map_values(|f: ChangedFile| changed_file_view(f));
    let mut out: Vec<String> = Vec::new();
    let mut i: usize = 0;
    assert(fv.take(0) =~= Seq::<ChangedFileView>::empty());
    assert(strings_chars(out@) =~= Seq::<Seq<char>>::empty());
    while i < files.len()
        invariant
            i <= files.len(),
            fv == files@.map_values(|f: ChangedFile| changed_file_view(f)),
            strings_chars(out@) == test_paths(fv.take(i as int)),
        decreases files.len() - i,
    {
        assert(fv.take(i + 1).drop_last() =~= fv.take(i as int));
        assert(fv.take(i + 1).last() == changed_file_view(files@[i as int]));
        if is_test_path(files[i].path.as_str()) {
            let ghost before = out@;
            out.push(files[i].path.clone());
            assert(strings_chars(out@) =~= strings_chars(before).push(files@[i as int].path@));
        }
        i = i + 1;
    }
    assert(fv.take(files.len() as int) =~= fv);
    out
}

/// The diff part of a review packet: the two commits, the diff statistics,
/// the changed files, the capped patch and the changed tests.
pub struct ReviewDiff {
    pub base_sha: String,
    pub head_sha: String,
    pub diff_stat: String,
    pub name_status: Vec<ChangedFile>,
    pub patch: String,
    pub changed_tests: Vec<String>,
}

/// Assembles the diff part of a review packet from what `git rev-parse`
/// printed for the two revisions, the `--stat`, `--name-status` and patch
/// outputs of the diff between them, and the patch budget in bytes.
pub fn review_diff(
    base_rev_output: &str,
    head_rev_output: &str,
    diff_stat: String,
    name_status_text: &str,
    patch: String,
    patch_bytes: usize,
) -> (r: ReviewDiff)
    ensures
        r.base_sha@ == trim(base_rev_output@),
        r.head_sha@ == trim(head_rev_output@),
        r.diff_stat == diff_stat,
        r.name_status@.map_values(|f: ChangedFile| changed_file_view(f)) == name_status_entries(
            lines_of(name_status_text@),
        ),
        r.patch@ == capped_patch(patch@, patch_bytes as nat),
        strings_chars(r.changed_tests@) == test_paths(
            name_status_entries(lines_of(name_status_text@)),
        ),
{
    let base_sha = string_of(&vec_trim(&chars_of(base_rev_output)));
    let head_sha = string_of(&vec_trim(&chars_of(head_rev_output)));
    let name_status = parse_name_status(name_status_text);
    let changed_tests = changed_tests(&name_status);
    let patch = cap_utf8(patch, patch_bytes);
    ReviewDiff { base_sha, head_sha, diff_stat, name_status, patch, changed_tests }
}

/// Where a review packet came from: the repository, the run summary file,
/// the run's event log, and the agent interface version.
pub fn review_source_metadata(
    repo_path: String,
    summary_json: String,
    events_jsonl: String,
    interface_version: u64,
) -> (r: Fields)
    ensures
        r@ == map![
            "repo_path"@ => repo_path@,
            "summary_json"@ => summary_json@,
            "events_jsonl"@ => events_jsonl@,
            "interface_version"@ => decimal(interface_version as nat),
        ],
{
    let mut m = Fields::new();
    m.insert(String::from_str("repo_path"), repo_path);
    m.insert(String::from_str("summary_json"), summary_json);
    m.insert(String::from_str("events_jsonl"), events_jsonl);
    m.insert(String::from_str("interface_version"), decimal_string(interface_version));
    proof {
        reveal_strlit("repo_path");
        reveal_strlit("summary_json");
        reveal_strlit("events_jsonl");
        reveal_strlit("interface_version");
    }
    assert(m@ =~= map![
        "repo_path"@ => repo_path@,
        "summary_json"@ => summary_json@,
        "events_jsonl"@ => events_jsonl@,
        "interface_version"@ => decimal(interface_version as nat),
    ]);
    m
}

} // verus!
