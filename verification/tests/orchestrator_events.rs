use jekko_jailgun::auth::ReadyStep;
use jekko_jailgun::supervisor::run_ready_step;
use jekko_jailgun::bridge::command::BridgeCommandKind;
use jekko_jailgun::bridge::event::{
    ArchiveUploadedPayload, BridgeEvent, BridgeEventKind, BridgeLogPayload, DownloadCompletePayload,
    RateLimitDetectedPayload, TabProgressKind, TabProgressPayload,
};
use jekko_jailgun::bridge::protocol::{
    check_envelope_version, check_line_length, Envelope, ProtocolError, MAX_LINE_BYTES,
    PROTOCOL_VERSION,
};
use jekko_jailgun::config::{
    open_tab_profile_dir, BrowserSettings, DeploySettings, PromptPolicySettings, RunConfig,
    RunOptions, SourceArchiveSettings,
};
use jekko_jailgun::fields::Fields;
use jekko_jailgun::run_event::{map_bridge_event, EventKind, JailgunEvent, Severity};
use jekko_jailgun::summary::{
    artifact_kind_from_event, artifacts_from_events, ci_status_from_events, deploy_status_from_events,
    receipt_paths_from_events, DownloadCheck,
};
use jekko_jailgun::support::{deploy_outcome_succeeded, DeployOutcome};
use jekko_jailgun::timing::run_deadline;
use std::collections::BTreeMap;

fn config() -> RunConfig {
    RunConfig {
        browser: BrowserSettings {
            chat_url: "https://chatgpt.com/".to_string(),
            model: "gpt".to_string(),
            tabs: 2,
            poll_interval_seconds: 5,
            completion_check_seconds: 30,
            submit_delay_seconds: 60,
            submit_jitter_seconds: 15,
            tar_wait_minutes: 45,
            profile_dir_env: "JAILGUN_CHROME_PROFILE_DIR".to_string(),
            state_dir_env: "JAILGUN_CHROME_STATE_DIR".to_string(),
            profile_registry_env: "JAILGUN_BROWSER_PROFILES".to_string(),
        },
        source_archive: SourceArchiveSettings {
            enabled: true,
            ref_name: "main".to_string(),
            prefix: "repo/".to_string(),
            archive_filename: "source.tar.gz".to_string(),
            delete_after_upload: true,
        },
        deploy: DeploySettings { enabled: false, dry_run: true, remote_strip_components: 1 },
        prompt_policy: PromptPolicySettings {
            deny_github_write_by_default: true,
            allow_write_prompts: false,
            allow_info_prompts: true,
            allowed_repositories: Vec::new(),
        },
    }
}

fn options(tabs: u16, profile_dir: &str, profile_pool: Vec<String>) -> RunOptions {
    RunOptions {
        run_id: "run-1".to_string(),
        config: config(),
        prompt_text: "prompt".to_string(),
        tabs_override: Some(tabs),
        no_deploy: true,
        dry_run: true,
        profile_dir: profile_dir.to_string(),
        profile_pool,
        tab_profile_dirs: BTreeMap::new(),
        downloads_dir: "/tmp/downloads".to_string(),
        artifacts_dir: "/tmp/artifacts".to_string(),
        bridge_cmd: vec!["bridge".to_string()],
        bridge_env: Fields::new(),
        repo_url: "git@example.com:org/repo.git".to_string(),
        local_archive_path: None,
        deploy_remote_host: None,
        deploy_remote_dir: None,
        deploy_remote_command: None,
        deploy_expected_top_level: None,
        ci_tracker_enabled: false,
        ci_repo: None,
        ci_branch: "main".to_string(),
        ci_max_attempts: 1,
        ci_poll_seconds: 1,
        status_max_minutes: 1,
        max_runtime_seconds: Some(120),
        event_buffer: 64,
        deploy_concurrency: 1,
    }
}

fn field<'a>(event: &'a JailgunEvent, key: &str) -> Option<&'a str> {
    event.fields.get(key).map(|v| v.as_str())
}

#[test]
fn summary_helpers_extract_deploy_ci_and_receipts() {
    let event = JailgunEvent::new(
        "run-1".to_string(),
        EventKind::DeployFinished,
        "deploy finished".to_string(),
    )
    .with_field("outcome", "dry-run-staged".to_string())
    .with_field("ci_state", "skipped".to_string())
    .with_field("receipt_path", "target/receipts/deploy.json".to_string());
    let events = vec![event];

    assert_eq!(deploy_status_from_events(&events, true), "dry-run-staged");
    assert_eq!(ci_status_from_events(&events, true), "skipped");
    assert_eq!(
        receipt_paths_from_events(&events),
        vec!["target/receipts/deploy.json".to_string()]
    );
}

#[test]
fn summary_accepts_direct_tex_download_without_tar_validation() {
    let tex_path = "/tmp/summary-test/chapter-033-epoch-02.tex".to_string();
    let event = JailgunEvent::new(
        "run-1".to_string(),
        EventKind::DownloadReceipt,
        "download complete".to_string(),
    )
    .with_tab(1)
    .with_field("local_path", tex_path.clone())
    .with_field("receipt_path", "/tmp/summary-test/receipt.json".to_string())
    .with_field("sha256", "a".repeat(64))
    .with_field("size_bytes", "24".to_string())
    .with_field("file_kind", "downloaded-tex".to_string());

    let kinds = vec![artifact_kind_from_event(&event, &tex_path)];
    let (artifacts, failures) =
        artifacts_from_events(&vec![event], &kinds, vec![DownloadCheck::File(Ok(()))], &None);

    assert!(failures.is_empty(), "{failures:?}");
    assert_eq!(artifacts.len(), 1);
    assert_eq!(artifacts[0].kind, "downloaded-tex");
    assert!(artifacts[0].tar_validation.is_none());
    assert!(artifacts[0].changed_files.is_empty());
}

#[test]
fn rejects_wrong_version() {
    let mut envelope = Envelope::new(
        "ping".to_string(),
        "r".to_string(),
        "t".to_string(),
        serde_json::Value::Null,
    );
    envelope.v = 99;
    let err = check_envelope_version(envelope).expect_err("wrong version should be rejected");
    assert!(matches!(
        err,
        ProtocolError::UnsupportedVersion { got: 99, expected: PROTOCOL_VERSION }
    ));
}

#[test]
fn rejects_oversized_line() {
    let huge = "a".repeat(MAX_LINE_BYTES + 1);
    let err = check_line_length(huge.len()).expect_err("oversize");
    assert!(matches!(err, ProtocolError::LineTooLong { .. }));
}

#[test]
fn maps_archive_uploaded() {
    let event = BridgeEvent::ArchiveUploaded(ArchiveUploadedPayload {
        sha256: "a".repeat(64),
        size_bytes: 4096,
        commit: "abc".to_string(),
        archive_filename: "source.tar.gz".to_string(),
        deleted_temp: true,
    });
    let mapped = map_bridge_event("run-1", Some(2), &event).expect("mapped");
    assert_eq!(mapped.run_id, "run-1");
    assert_eq!(mapped.tab_id, Some(2));
    assert_eq!(field(&mapped, "archive_filename"), Some("source.tar.gz"));
}

#[test]
fn maps_download_complete_to_download_receipt_kind() {
    let event = BridgeEvent::DownloadComplete(DownloadCompletePayload {
        sha256: "b".repeat(64),
        size_bytes: 100,
        local_path: "/tmp/x.tar.gz".to_string(),
        receipt_path: "/tmp/r/x.tar.gz".to_string(),
        original_name: "x.tar.gz".to_string(),
        local_name: "x.tar.gz".to_string(),
        file_kind: Some("downloaded-archive".to_string()),
        download_url: None,
        entry_count: None,
        download_latency_ms: None,
        started_at: "2026-05-31T12:00:00Z".to_string(),
        finished_at: "2026-05-31T12:00:05Z".to_string(),
    });
    let mapped = map_bridge_event("run-1", Some(1), &event).expect("mapped");
    assert!(matches!(mapped.kind, EventKind::DownloadReceipt));
}

#[test]
fn skips_noisy_tab_progress_events() {
    let payload = TabProgressPayload {
        kind: TabProgressKind::CompletionCheck,
        phase: "active".to_string(),
        busy_reason: None,
        has_active_stop: true,
        has_final_actions: false,
        last_text_length: 0,
        page_url: "https://example.invalid/".to_string(),
    };
    let event = BridgeEvent::TabProgress(payload);
    assert!(map_bridge_event("run-1", Some(1), &event).is_none());
}

#[test]
fn maps_rate_limit_detected_to_warning_event() {
    let event = BridgeEvent::RateLimitDetected(RateLimitDetectedPayload {
        dismissed: true,
        excerpt: "Too many requests. Please wait a few minutes.".to_string(),
    });
    let mapped = map_bridge_event("run-1", Some(3), &event).expect("mapped");
    assert_eq!(mapped.kind, EventKind::RateLimitDetected);
    assert_eq!(mapped.severity, Severity::Warn);
    assert_eq!(field(&mapped, "dismissed"), Some("true"));
}

#[test]
fn maps_bridge_log_to_browser_log_event() {
    let mut fields = Fields::new();
    fields.insert("status".to_string(), "waiting".to_string());
    fields.insert(
        "selector".to_string(),
        "button[data-testid=\"send-button\"]".to_string(),
    );
    let event = BridgeEvent::BridgeLog(BridgeLogPayload {
        level: "warn".to_string(),
        phase: "prompt-submit-wait".to_string(),
        message: "waiting for send button readiness".to_string(),
        fields,
    });
    let mapped = map_bridge_event("run-1", Some(1), &event).expect("mapped");
    assert_eq!(mapped.kind, EventKind::BrowserLog);
    assert_eq!(mapped.severity, Severity::Warn);
    assert_eq!(field(&mapped, "phase"), Some("prompt-submit-wait"));
    assert_eq!(field(&mapped, "status"), Some("waiting"));
}

#[test]
fn run_deadline_honors_explicit_runtime_cap() {
    let mut opts = options(5, "/tmp/profile", Vec::new());
    assert_eq!(run_deadline(&opts, 5), 120);
    opts.max_runtime_seconds = None;
    assert!(run_deadline(&opts, 5) > 120);
}

#[test]
fn open_tab_profile_dir_is_omitted_for_profile_pool() {
    let mut opts = options(
        2,
        "/tmp/profile-a",
        vec!["/tmp/profile-a".to_string(), "/tmp/profile-b".to_string()],
    );
    assert_eq!(open_tab_profile_dir(&opts, 1), None);

    opts.profile_pool.clear();
    assert_eq!(
        open_tab_profile_dir(&opts, 1),
        Some("/tmp/profile-a".to_string())
    );
    opts.tab_profile_dirs.insert(2, "/tmp/profile-b".to_string());
    assert_eq!(
        open_tab_profile_dir(&opts, 2),
        Some("/tmp/profile-b".to_string())
    );
}

#[test]
fn failed_preserved_deploy_outcome_is_not_successful() {
    assert!(deploy_outcome_succeeded(DeployOutcome::Succeeded));
    assert!(deploy_outcome_succeeded(DeployOutcome::SucceededCiSkipped));
    assert!(!deploy_outcome_succeeded(DeployOutcome::FailedPreserved));
    assert!(!deploy_outcome_succeeded(DeployOutcome::SucceededCiFailed));
}

#[test]
fn unknown_command_kind_returns_protocol_error() {
    let err = BridgeCommandKind::from_name("does-not-exist").expect_err("unknown");
    assert!(matches!(err, ProtocolError::UnknownCommand(_)));
}

#[test]
fn unknown_event_kind_returns_protocol_error() {
    let err = BridgeEventKind::from_name("ghost-event").expect_err("unknown");
    assert!(matches!(err, ProtocolError::UnknownEvent(_)));
}

#[test]
fn known_kinds_decode_to_themselves() {
    assert_eq!(BridgeCommandKind::from_name("auth-submit-code").ok(), Some(BridgeCommandKind::AuthSubmitCode));
    assert_eq!(BridgeEventKind::from_name("download-complete").ok(), Some(BridgeEventKind::DownloadComplete));
    assert_eq!(BridgeEvent::Pong.kind(), "pong");
}

#[test]
fn new_events_are_stamped_in_rfc3339_utc() {
    let e = JailgunEvent::new("r".to_string(), EventKind::BrowserLog, "note".to_string());
    let t: Vec<char> = e.timestamp.chars().collect();
    assert!(t.len() >= 20);
    assert_eq!((t[4], t[7], t[10], t[13], t[16]), ('-', '-', 'T', ':', ':'));
    assert_eq!(*t.last().unwrap(), 'Z');
    for i in [0, 1, 2, 3, 5, 6, 8, 9, 11, 12, 14, 15, 17, 18] {
        assert!(t[i].is_ascii_digit());
    }
    if t.len() > 20 {
        assert_eq!(t[19], '.');
    }
}

#[test]
fn run_waits_for_bridge_ready_and_fails_on_startup_error() {
    let error = BridgeEvent::Error(jekko_jailgun::bridge::event::ErrorPayload {
        kind: "startup".to_string(),
        message: "no chrome".to_string(),
        recoverable: false,
        stack: None,
    });
    assert_eq!(
        run_ready_step(&error),
        ReadyStep::Failed("bridge startup failed: no chrome".to_string())
    );
    assert_eq!(run_ready_step(&BridgeEvent::Pong), ReadyStep::Continue);
}

#[test]
fn deploy_compares_the_expected_top_level_exactly() {
    let v = |top: Option<&str>| {
        Ok(jekko_jailgun::support::TarValidation {
            top_level: top.map(|t| t.to_string()),
            entry_count: 3,
        })
    };
    let check = jekko_jailgun::deploy::check_deploy_archive;
    assert_eq!(check(&None, v(None)), Ok(()));
    assert_eq!(check(&Some("repo".to_string()), v(Some("repo"))), Ok(()));
    assert_eq!(
        check(&Some(" repo".to_string()), v(Some("repo"))),
        Err("archive top-level must be  repo/, found repo; refusing remote upload".to_string())
    );
    assert_eq!(
        check(&Some("repo".to_string()), v(None)),
        Err("archive top-level must be repo/, found (multiple); refusing remote upload".to_string())
    );
    assert_eq!(check(&Some("repo".to_string()), Err("bad gzip".to_string())), Err("bad gzip".to_string()));
}

#[test]
fn runs_need_a_bridge_command() {
    let mut opts = options(1, "/tmp/profile", Vec::new());
    assert!(jekko_jailgun::supervisor::check_bridge_command(&opts).is_ok());
    opts.bridge_cmd = Vec::new();
    match jekko_jailgun::supervisor::check_bridge_command(&opts) {
        Err(jekko_jailgun::errors::OrchestratorError::Config(m)) => {
            assert_eq!(m, "bridge_cmd cannot be empty; pass --bridge-cmd or set JAILGUN_BRIDGE_CMD")
        }
        _ => panic!("empty bridge command accepted"),
    }
}

#[test]
fn paths_and_lists_follow_the_platform_separator() {
    assert_eq!(jekko_jailgun::accounts::pool_separator_for('\\'), ';');
    assert_eq!(jekko_jailgun::accounts::pool_separator_for('/'), ':');
    assert_eq!(jekko_jailgun::support::join_path("C:\\runs", "r1", '\\'), "C:\\runs\\r1");
    assert_eq!(jekko_jailgun::support::join_path("C:/runs/", "r1", '\\'), "C:/runs/r1");
    assert_eq!(jekko_jailgun::support::join_path("/runs", "r1", '/'), "/runs/r1");
    assert_eq!(jekko_jailgun::support::join_path("", "r1", '/'), "r1");
}
