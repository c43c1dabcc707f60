use jekko_jailgun::config::SpawnCardinality;
use jekko_jailgun::flow::prompt_for_tab;
use jekko_jailgun::review::{
    cap_utf8, changed_tests, is_test_path, parse_name_status, review_diff, review_source_metadata,
};
use jekko_jailgun::support::{default_run_id, infer_github_repo, owner_repo_from_github_path};

#[test]
fn prompt_for_tab_prefixes_and_replaces_placeholders() {
    let prompt = "Build {{TAB_INDEX}} of {{TAB_COUNT}}.";
    let got = prompt_for_tab(prompt, 2, 7);
    assert!(got.starts_with("Batch tab: 2 of 7."));
    assert!(got.contains("Do not answer with the tab number by itself."));
    assert!(got.contains("Build 2 of 7."));
}

#[test]
fn prompt_for_tab_exact_text() {
    let got = prompt_for_tab("#{{TAB_NUMBER}}/{{TAB_COUNT}} {{TAB_INDEX}}{{TAB_INDEX}}", 12, 300);
    assert_eq!(
        got,
        "Batch tab: 12 of 300.\nIf a tab identifier is relevant, include tab 12 inside the requested artifact or notes only. Do not answer with the tab number by itself.\n\n#12/300 1212"
    );
}

#[test]
fn infer_github_repo_rejects_non_repo_remotes() {
    assert_eq!(infer_github_repo("git@example.com:org/repo.git"), None);
    assert_eq!(
        infer_github_repo("https://notgithub.com/example/repo.git"),
        None
    );
    assert_eq!(
        infer_github_repo("https://github.com/example/repo/tree/main"),
        None
    );
}

#[test]
fn infer_github_repo_accepts_github_remotes() {
    assert_eq!(
        infer_github_repo("  git@github.com:org/repo.git \n"),
        Some("org/repo".to_string())
    );
    assert_eq!(
        infer_github_repo("https://github.com/org/repo?tab=readme#top"),
        Some("org/repo".to_string())
    );
    assert_eq!(
        infer_github_repo("https://github.com/org/repo/?tab=readme#top"),
        None
    );
    assert_eq!(
        infer_github_repo("ssh://git@github.com//org/repo.git.git/"),
        Some("org/repo".to_string())
    );
    assert_eq!(infer_github_repo("http://github.com/org"), None);
    assert_eq!(infer_github_repo("   "), None);
    assert_eq!(owner_repo_from_github_path("org/.git"), None);
    assert_eq!(
        owner_repo_from_github_path(" a / b "),
        Some("a/b".to_string())
    );
}

#[test]
fn spawn_cardinality_reports_tab_count() {
    let card = SpawnCardinality::for_tabs(5);
    assert_eq!(card.runtime, "jailgun");
    assert_eq!(card.tabs, 5);
    assert_eq!(card.receipt_value(), "runtime:jailgun,tabs:5");
}

#[test]
fn caps_review_patch_on_utf8_boundary() {
    let capped = cap_utf8("abcédef".into(), 4);

    assert!(capped.starts_with("abc"));
    assert!(capped.contains("patch truncated at 4 bytes"));
}

#[test]
fn cap_utf8_keeps_text_that_fits() {
    assert_eq!(cap_utf8("abcé".into(), 5), "abcé");
    assert_eq!(
        cap_utf8("abcé".into(), 3),
        "abc\n[patch truncated at 3 bytes]\n"
    );
    assert_eq!(cap_utf8("".into(), 0), "");
}

#[test]
fn review_packet_helpers_parse_name_status_and_tests() {
    let files = parse_name_status("M\tcrates/lib.rs\nR100\told.test.ts\tnew.test.ts\n");

    assert_eq!(files.len(), 2);
    assert_eq!(files[0].status, "M");
    assert_eq!(files[0].path, "crates/lib.rs");
    assert_eq!(files[1].status, "R100");
    assert_eq!(files[1].old_path.as_deref(), Some("old.test.ts"));
    assert_eq!(files[1].path, "new.test.ts");
    assert!(is_test_path(&files[1].path));
    assert!(!is_test_path(&files[0].path));
}

#[test]
fn name_status_skips_short_lines_and_strips_carriage_returns() {
    let files = parse_name_status("M\r\nA\tx.rs\r\n\nC75\ta\n");
    assert_eq!(files.len(), 1);
    assert_eq!(files[0].status, "A");
    assert_eq!(files[0].path, "x.rs");
    assert!(is_test_path("src/Tests/unit.rs"));
    assert!(is_test_path("pkg/__tests__/a.js"));
    assert!(is_test_path("tests/a.rs"));
    assert!(!is_test_path("src/testing.rs"));
}

#[test]
fn review_diff_trims_revisions_and_lists_changed_tests() {
    let diff = review_diff(
        "  abc123\n",
        "def456\r\n",
        " 2 files changed".to_string(),
        "M\tsrc/lib.rs\nA\ttests/new.rs\nR90\ta_test.rs\tb_test.rs\n",
        "abcédef".to_string(),
        4,
    );
    assert_eq!(diff.base_sha, "abc123");
    assert_eq!(diff.head_sha, "def456");
    assert_eq!(diff.diff_stat, " 2 files changed");
    assert_eq!(diff.name_status.len(), 3);
    assert_eq!(diff.changed_tests, vec!["tests/new.rs".to_string(), "b_test.rs".to_string()]);
    assert_eq!(diff.patch, "abc\n[patch truncated at 4 bytes]\n");
    assert!(changed_tests(&parse_name_status("M\tsrc/main.rs\n")).is_empty());
}

#[test]
fn review_source_metadata_names_its_sources() {
    let m = review_source_metadata(
        "/repo".to_string(),
        "/out/summary.json".to_string(),
        "/out/events.jsonl".to_string(),
        1,
    );
    assert_eq!(m.get("repo_path").map(|v| v.as_str()), Some("/repo"));
    assert_eq!(m.get("summary_json").map(|v| v.as_str()), Some("/out/summary.json"));
    assert_eq!(m.get("events_jsonl").map(|v| v.as_str()), Some("/out/events.jsonl"));
    assert_eq!(m.get("interface_version").map(|v| v.as_str()), Some("1"));
}

#[test]
fn default_run_id_is_run_and_a_hyphenated_v4_uuid() {
    let id = default_run_id();
    assert_eq!(id.len(), 40);
    assert!(id.starts_with("run-"));
    let uuid: Vec<char> = id[4..].chars().collect();
    for (i, c) in uuid.iter().enumerate() {
        if i == 8 || i == 13 || i == 18 || i == 23 {
            assert_eq!(*c, '-');
        } else {
            assert!(c.is_ascii_digit() || ('a'..='f').contains(c));
        }
    }
    assert_eq!(uuid[14], '4');
    assert_ne!(default_run_id(), id);
}

#[test]
fn run_hello_announces_the_run_capabilities() {
    match jekko_jailgun::flow::run_hello("0.1.0".to_string()) {
        jekko_jailgun::bridge::command::BridgeCommand::Hello(p) => {
            assert_eq!(p.orchestrator_version, "0.1.0");
            assert_eq!(p.protocol_version, jekko_jailgun::bridge::protocol::PROTOCOL_VERSION);
            assert_eq!(p.capabilities, vec!["source-upload", "tar-capture", "rust-deploy"]);
        }
        _ => panic!("not a hello"),
    }
}
