use jekko_jailgun::publish::{
    deploy_queued_event, deploy_started_event, error_event, launch_delay_event,
    launch_started_event, run_started_event,
};
use jekko_jailgun::errors::OrchestratorError;
use jekko_jailgun::lease::{acquired_event, lease_failed_event, queue_timeout_event, queued_event, released_event, timed_out_summary};
use jekko_jailgun::summary::{merged_changed_files, run_outcome, AgentFailure, Artifact};
use jekko_jailgun::summary::{
    artifact_kind, artifact_kind_from_event, artifacts_from_events, extension_of_name,
    is_receipt_file, is_receipt_name, receipt_local_path, ArchiveCheck, DownloadCheck,
};
use jekko_jailgun::support::TarValidation;
use jekko_jailgun::agent::{accepted_response, run_output_paths};
use jekko_jailgun::auth::{
    auth_code, auth_run_id, auth_status_for_event, browser_bridge_env, control_bridge_command,
    ready_step, ReadyStep,
};
use jekko_jailgun::accounts::{BrowserAccount, BrowserAccountStatus};
use jekko_jailgun::bridge::event::{AuthFailedPayload, BridgeEvent, ErrorPayload};
use jekko_jailgun::gate::{
    admit_run_id, agent_run_access, browser_denial_code, browser_write_access,
    check_output_files, denial_status, websocket_access, websocket_denial_code, Denial,
};
use jekko_jailgun::ingress::{
    check_interface_version, normalize_account_ids, AccountValue, RunIngress,
};
use jekko_jailgun::lease::{lease_decision, LeaseAttempt, LeaseDecision, LeaseErrorKind};
use jekko_jailgun::mcp::{
    check_tool_arguments, classify_method, route_tool, McpErrorData, McpMethod, McpTool,
    ToolArguments,
};
use jekko_jailgun::run_event::{EventKind, JailgunEvent};
use jekko_jailgun::snapshot::{
    find_run, insert_run_snapshot, mark_agent_run_failed, prepared_snapshot, record_event,
    DeployQueueState, RunSnapshot,
};
use jekko_jailgun::text::{parse_u64, str_lt};

fn ev(run: &str, kind: EventKind) -> JailgunEvent {
    JailgunEvent::new(run.to_string(), kind, "m".to_string())
}

fn token(s: &str) -> Option<String> {
    Some(s.to_string())
}

#[test]
fn board_tracks_runs_and_tabs_from_events() {
    let mut events = Vec::new();
    let mut runs: Vec<RunSnapshot> = Vec::new();
    record_event(&mut events, &mut runs, ev("run-1", EventKind::RunQueued));
    assert_eq!(runs.len(), 1);
    assert_eq!(runs[0].status, "queued");
    record_event(
        &mut events,
        &mut runs,
        ev("run-1", EventKind::TabOpened).with_tab(2).with_field("page_url", "https://x/".to_string()),
    );
    assert_eq!(runs[0].tabs.len(), 1);
    assert_eq!(runs[0].tabs[0].tab_id, 2);
    assert_eq!(runs[0].tabs[0].status, "opening");
    assert_eq!(runs[0].tabs[0].page_url, "https://x/");
    assert_eq!(runs[0].tabs[0].deploy_status, "pending");
    record_event(
        &mut events,
        &mut runs,
        ev("run-1", EventKind::DownloadReceipt).with_tab(2).with_field("download_latency_ms", "+42".to_string()),
    );
    assert_eq!(runs[0].tabs.len(), 1);
    assert_eq!(runs[0].tabs[0].status, "downloaded");
    assert_eq!(runs[0].tabs[0].download_latency_ms, Some(42));
    record_event(&mut events, &mut runs, ev("run-1", EventKind::DeployFinished).with_tab(2));
    assert_eq!(runs[0].tabs[0].deploy_status, "succeeded");
    assert_eq!(runs[0].deploy_queue, DeployQueueState::Done);
    assert!(runs[0].finished_at.is_some());
    record_event(&mut events, &mut runs, ev("run-2", EventKind::DeployQueued));
    assert_eq!(runs.len(), 2);
    assert_eq!(runs[0].run_id, "run-2");
    assert_eq!(runs[0].status, "running");
    assert_eq!(runs[0].deploy_queue, DeployQueueState::Waiting);
    assert_eq!(events.len(), 5);
}

#[test]
fn policy_events_count_denials_and_info_answers() {
    let mut events = Vec::new();
    let mut runs = Vec::new();
    record_event(&mut events, &mut runs, ev("r", EventKind::PromptPolicy).with_field("decision", "deny".to_string()));
    record_event(&mut events, &mut runs, ev("r", EventKind::PromptPolicy).with_field("decision", "allow-info".to_string()));
    record_event(&mut events, &mut runs, ev("r", EventKind::PromptPolicy).with_field("decision", "other".to_string()));
    assert_eq!(runs[0].denied_github_prompts, 1);
    assert_eq!(runs[0].allowed_info_prompts, 1);
}

#[test]
fn failed_runs_are_marked_and_snapshots_replace_by_id() {
    let mut events = Vec::new();
    let mut runs = Vec::new();
    insert_run_snapshot(&mut runs, prepared_snapshot("a".to_string(), "t0".to_string(), true));
    insert_run_snapshot(&mut runs, prepared_snapshot("b".to_string(), "t1".to_string(), false));
    assert_eq!(runs[0].run_id, "b");
    assert_eq!(runs[1].status, "queued");
    insert_run_snapshot(&mut runs, prepared_snapshot("a".to_string(), "t2".to_string(), false));
    assert_eq!(runs.len(), 2);
    assert_eq!(runs[1].started_at, "t2");
    mark_agent_run_failed(&mut events, &mut runs, "a", "boom".to_string());
    assert_eq!(runs[1].status, "failed");
    assert_eq!(events.last().unwrap().message, "boom");
    assert_eq!(runs[1].finished_at.as_deref(), Some(events.last().unwrap().timestamp.as_str()));
}

#[test]
fn header_token_gates() {
    assert_eq!(browser_write_access(&None, &token("x")), Err(Denial::TokenRequired));
    assert_eq!(browser_write_access(&token("s"), &None), Err(Denial::Unauthorized));
    assert_eq!(browser_write_access(&token("s"), &token("t")), Err(Denial::Unauthorized));
    assert_eq!(browser_write_access(&token("s"), &token("s")), Ok(()));
    assert_eq!(browser_denial_code(Denial::TokenRequired), "browser-control-token-required");
    assert_eq!(websocket_denial_code(Denial::Unauthorized), "websocket-unauthorized");
    assert_eq!(denial_status(Denial::TokenRequired), 503);
    assert_eq!(denial_status(Denial::Unauthorized), 401);
}

#[test]
fn websocket_gate_accepts_header_or_query_token() {
    assert_eq!(websocket_access(&None, &token("s"), &None, &None), Err(Denial::TokenRequired));
    assert_eq!(websocket_access(&token("s"), &token("s"), &None, &None), Ok(()));
    assert_eq!(websocket_access(&token("s"), &None, &token("s"), &None), Ok(()));
    assert_eq!(websocket_access(&token("s"), &None, &token(""), &token("s")), Ok(()));
    assert_eq!(websocket_access(&token("s"), &None, &token("t"), &token("s")), Err(Denial::Unauthorized));
}

#[test]
fn run_gate_and_run_ids() {
    let refusal = agent_run_access(false, &token("s"), &token("s")).unwrap_err();
    assert_eq!((refusal.status, refusal.code.as_str()), (503, "agent-run-unavailable"));
    let refusal = agent_run_access(true, &None, &token("s")).unwrap_err();
    assert_eq!(refusal.reason, "x-jailgun-token is required when run ingestion is enabled");
    let refusal = agent_run_access(true, &token("s"), &token("t")).unwrap_err();
    assert_eq!((refusal.status, refusal.code.as_str()), (401, "agent-run-unauthorized"));
    assert!(agent_run_access(true, &token("s"), &token("s")).is_ok());

    let runs = vec![prepared_snapshot("taken".to_string(), "t".to_string(), false)];
    let conflict = admit_run_id(Some("taken".to_string()), &runs).unwrap_err();
    assert_eq!((conflict.status, conflict.reason.as_str()), (409, "run_id already exists"));
    assert_eq!(admit_run_id(Some("fresh".to_string()), &runs).unwrap(), "fresh");
    let generated = admit_run_id(None, &runs).unwrap();
    assert!(generated.starts_with("run-"));
    assert_eq!(generated.len(), 40);
    assert!(check_output_files(false, false).is_ok());
    assert_eq!(check_output_files(true, false).unwrap_err().reason, "run_id output files already exist");
}

#[test]
fn accepted_response_points_at_the_run() {
    let paths = run_output_paths("/r", "run-7", '/');
    assert_eq!(paths.events_jsonl, "/r/run-7/agent-events.jsonl");
    assert_eq!(paths.summary_json, "/r/run-7/agent-summary.json");
    let response = accepted_response("run-7".to_string(), paths);
    assert_eq!(response.status, "accepted");
    assert_eq!(response.run_url, "/api/runs/run-7");
    assert_eq!(response.summary_url, "/api/runs/run-7/agent-summary");
}

#[test]
fn account_aliases_must_agree_and_be_unique() {
    let ids = |v: &[&str]| AccountValue::Array(v.iter().map(|s| Some(s.to_string())).collect());
    assert_eq!(
        normalize_account_ids(&Some(ids(&["a", "b"])), &None, &None, RunIngress::Rest),
        Ok(Some(vec!["a".to_string(), "b".to_string()]))
    );
    assert_eq!(
        normalize_account_ids(&None, &Some(ids(&["a"])), &None, RunIngress::Rest),
        Ok(Some(vec!["a".to_string()]))
    );
    assert_eq!(
        normalize_account_ids(&Some(ids(&["a"])), &None, &Some(AccountValue::Text("b".to_string())), RunIngress::Mcp),
        Err("conflicting browser account routing aliases for Mcp".to_string())
    );
    assert_eq!(
        normalize_account_ids(&Some(ids(&["a"])), &Some(ids(&["b"])), &None, RunIngress::Rest),
        Err("conflicting browser account routing aliases for Rest".to_string())
    );
    assert_eq!(
        normalize_account_ids(&Some(ids(&["a", "b", "a"])), &None, &None, RunIngress::Rest),
        Err("duplicate browser account id requested: a".to_string())
    );
    assert_eq!(
        normalize_account_ids(
            &Some(AccountValue::Array(vec![Some("a".to_string()), None])),
            &None,
            &None,
            RunIngress::Rest
        ),
        Err("browser.account_ids[1] must be a string".to_string())
    );
    assert_eq!(
        normalize_account_ids(&None, &Some(AccountValue::Other), &None, RunIngress::Rest),
        Err("account_ids must be an array of browser account ids".to_string())
    );
    assert_eq!(
        normalize_account_ids(&None, &None, &Some(AccountValue::Other), RunIngress::Mcp),
        Err("account must be a browser account id string".to_string())
    );
    assert_eq!(normalize_account_ids(&None, &None, &None, RunIngress::Rest), Ok(None));
}

#[test]
fn interface_version_must_match() {
    assert!(check_interface_version(None, 1).is_ok());
    assert!(check_interface_version(Some(1), 1).is_ok());
    assert_eq!(
        check_interface_version(Some(2), 1),
        Err("unsupported Jailgun agent interface version 2; expected 1".to_string())
    );
}

#[test]
fn mcp_methods_and_tools_route() {
    assert_eq!(classify_method(Some("tools/call")), Ok(McpMethod::ToolsCall));
    assert_eq!(classify_method(Some("notifications/initialized")), Ok(McpMethod::Initialized));
    let e = classify_method(Some("nope")).unwrap_err();
    assert_eq!((e.code, e.message.as_str()), (-32601, "method not found"));
    assert_eq!(e.data, McpErrorData::Method("nope".to_string()));
    assert_eq!(classify_method(None).unwrap_err().code, -32600);
    assert_eq!(route_tool("jailgun.submit_code"), Ok(McpTool::SubmitCode));
    let e = route_tool("jailgun.nope").unwrap_err();
    assert_eq!((e.code, e.message.as_str()), (-32601, "unknown tool"));
    let args = ToolArguments { run_id: None, account_id: Some("a".to_string()), code: None };
    let e = check_tool_arguments(McpTool::SubmitCode, &args).unwrap_err();
    assert_eq!(e.data, McpErrorData::Reason("code is required".to_string()));
    assert!(check_tool_arguments(McpTool::AuthStatus, &args).is_ok());
    assert_eq!(
        check_tool_arguments(McpTool::RunStatus, &args).unwrap_err().data,
        McpErrorData::Reason("run_id is required".to_string())
    );
}

#[test]
fn auth_session_helpers() {
    assert_eq!(auth_run_id("acct"), "auth-acct");
    assert_eq!(auth_code(Some("  123456 ".to_string())), Some("123456".to_string()));
    assert_eq!(auth_code(Some("   ".to_string())), None);
    assert_eq!(
        auth_status_for_event(&BridgeEvent::AuthFailed(AuthFailedPayload {
            reason: "x".to_string(),
            manual_browser_required: false,
        })),
        Some((BrowserAccountStatus::Degraded, false))
    );
    let step = ready_step(&BridgeEvent::Error(ErrorPayload {
        kind: "k".to_string(),
        message: "no chrome".to_string(),
        recoverable: false,
        stack: None,
    }));
    assert_eq!(step, ReadyStep::Failed("chrome-bridge startup failed: no chrome".to_string()));
    assert_eq!(
        control_bridge_command(Some("  ".to_string()), Some("/w/bridge.mjs".to_string())),
        Ok(vec!["node".to_string(), "/w/bridge.mjs".to_string()])
    );
    assert_eq!(
        control_bridge_command(Some("node b.mjs".to_string()), None),
        Ok(vec!["node".to_string(), "b.mjs".to_string()])
    );
    let account = BrowserAccount {
        id: "acct".to_string(),
        email_hint: "a@example.com".to_string(),
        profile_dir: "/p".to_string(),
        state_dir: "/s".to_string(),
        downloads_dir: "/d".to_string(),
        cdp_port: 9224,
        max_tabs: 1,
        status: BrowserAccountStatus::Ready,
        last_verified_at: None,
    };
    let env = browser_bridge_env(&account);
    assert_eq!(env.get("JAILGUN_CHROME_PROFILE_PORTS").map(|v| v.as_str()), Some("acct=9224"));
    assert_eq!(env.get("JAILGUN_CDP_PORT").map(|v| v.as_str()), Some("9224"));
}

#[test]
fn lease_attempts_queue_then_time_out() {
    assert_eq!(lease_decision(LeaseAttempt::Acquired, false, 0, 10), LeaseDecision::Proceed);
    assert_eq!(
        lease_decision(LeaseAttempt::Refused(LeaseErrorKind::LeaseBusy), true, 3, 10),
        LeaseDecision::Retry
    );
    assert_eq!(
        lease_decision(LeaseAttempt::Refused(LeaseErrorKind::LeaseBusy), true, 10, 10),
        LeaseDecision::TimedOut
    );
    assert_eq!(
        lease_decision(LeaseAttempt::Refused(LeaseErrorKind::LeaseBusy), false, 0, 10),
        LeaseDecision::Fail("browser-account-capacity-busy".to_string())
    );
    assert_eq!(
        lease_decision(LeaseAttempt::Refused(LeaseErrorKind::Parse), true, 0, 10),
        LeaseDecision::Fail("browser-registry-parse-failed".to_string())
    );
}

#[test]
fn numbers_and_order_of_text() {
    assert_eq!(parse_u64("18446744073709551615"), Some(u64::MAX));
    assert_eq!(parse_u64("18446744073709551616"), None);
    assert_eq!(parse_u64("+7"), Some(7));
    assert_eq!(parse_u64("-7"), None);
    assert_eq!(parse_u64(""), None);
    assert_eq!(parse_u64("1a"), None);
    assert!(str_lt("a/b", "a/c"));
    assert!(str_lt("a", "ab"));
    assert!(!str_lt("b", "ab"));
    assert!(!str_lt("x", "x"));
}

#[test]
fn run_loop_events_carry_their_fields() {
    let started = run_started_event("r".to_string(), 3);
    assert_eq!(started.fields.get("tabs").map(|v| v.as_str()), Some("3"));
    let error = error_event("r".to_string(), Some(2), "bad".to_string());
    assert_eq!(error.tab_id, Some(2));
    assert_eq!(error.severity, jekko_jailgun::run_event::Severity::Error);
    let launch = launch_started_event("r".to_string(), 2, 5);
    assert_eq!(launch.fields.get("phase").map(|v| v.as_str()), Some("launch-tab"));
    assert_eq!(launch.fields.get("total_tabs").map(|v| v.as_str()), Some("5"));
    let delay = launch_delay_event("r".to_string(), 3, 60000, "prompt-accepted");
    assert_eq!(delay.fields.get("next_tab").map(|v| v.as_str()), Some("3"));
    assert_eq!(delay.fields.get("delay_ms").map(|v| v.as_str()), Some("60000"));
    assert_eq!(delay.fields.get("reason").map(|v| v.as_str()), Some("prompt-accepted"));
}

#[test]
fn orchestrator_errors_have_codes_and_messages() {
    let e = OrchestratorError::BridgeExited(Some(-2));
    assert_eq!(e.code(), "orchestrator-bridge-exited");
    assert_eq!(e.message(), "bridge exited unexpectedly with status Some(-2)");
    assert_eq!(OrchestratorError::BridgeExited(None).message(), "bridge exited unexpectedly with status None");
    let tab = OrchestratorError::Tab { tab_id: 4, reason: "gone".to_string() };
    assert_eq!(tab.message(), "tab 4 failed: gone");
    assert_eq!(OrchestratorError::HandshakeTimeout(30).message(), "bridge handshake timed out after 30 seconds");
    assert_eq!(OrchestratorError::Cancelled.code(), "orchestrator-cancelled");
    let io = OrchestratorError::Io(std::io::Error::new(std::io::ErrorKind::Other, "disk"));
    assert_eq!(io.message(), "io error: disk");
}

#[test]
fn lease_events_describe_the_lease() {
    let q = queued_event("r".to_string(), 2, 1, true, 600);
    assert_eq!(q.fields.get("allow_queueing").map(|v| v.as_str()), Some("true"));
    assert_eq!(q.fields.get("queue_timeout_seconds").map(|v| v.as_str()), Some("600"));
    assert_eq!(acquired_event("r".to_string(), 2, 3, 15).fields.get("queue_wait_ms").map(|v| v.as_str()), Some("15"));
    assert_eq!(released_event("r".to_string(), 2, 3).kind, EventKind::BrowserLeaseReleased);
    assert_eq!(queue_timeout_event("r".to_string(), 2, 60).message, "browser account queue timed out");
    let failed = lease_failed_event("r".to_string(), "browser-account-none-ready", 2);
    assert_eq!(failed.message, "browser lease failed: browser-account-none-ready");
    let summary = timed_out_summary("r".to_string(), 4);
    assert_eq!(summary.failures, vec![(0, "agent max runtime exceeded".to_string())]);
}

#[test]
fn changed_files_are_merged_sorted_and_unique() {
    let artifact = |files: &[&str]| Artifact {
        kind: "downloaded-archive".to_string(),
        path: "/a.tar.gz".to_string(),
        sha256: None,
        size_bytes: None,
        receipt_path: None,
        tar_validation: None,
        changed_files: files.iter().map(|f| f.to_string()).collect(),
    };
    let merged = merged_changed_files(&vec![artifact(&["src/b.rs", "src/a.rs"]), artifact(&["src/a.rs", "README"])]);
    assert_eq!(merged, vec!["README".to_string(), "src/a.rs".to_string(), "src/b.rs".to_string()]);
}

#[test]
fn archive_checks_report_top_level_and_read_failures() {
    let receipt = |path: &str| {
        JailgunEvent::new("r".to_string(), EventKind::DownloadReceipt, "d".to_string())
            .with_tab(1)
            .with_field("local_path", path.to_string())
            .with_field("size_bytes", "12".to_string())
    };
    let events = vec![
        receipt("/x/out.TAR.GZ"),
        ev("r", EventKind::RunStarted),
        receipt("/x/other.tar.gz"),
        receipt("/x/notes.txt"),
    ];
    let checks = vec![
        DownloadCheck::Archive(Ok(ArchiveCheck {
            validation: TarValidation { top_level: Some("other".to_string()), entry_count: 3 },
            changed_files: vec!["a".to_string()],
        })),
        DownloadCheck::Archive(Err("not a tar archive".to_string())),
        DownloadCheck::File(Err("downloaded file is empty: /x/notes.txt".to_string())),
    ];
    let kinds: Vec<String> = events
        .iter()
        .filter_map(|e| receipt_local_path(e).map(|p| artifact_kind_from_event(e, &p)))
        .collect();
    assert_eq!(kinds, vec!["downloaded-archive", "downloaded-archive", "downloaded-file"]);
    let (artifacts, failures) = artifacts_from_events(&events, &kinds, checks, &Some("repo".to_string()));
    assert_eq!(artifacts.len(), 3);
    assert_eq!(artifacts[0].kind, "downloaded-archive");
    assert_eq!(artifacts[0].size_bytes, Some(12));
    assert_eq!(artifacts[0].changed_files, vec!["a".to_string()]);
    assert_eq!(artifacts[2].kind, "downloaded-file");
    assert_eq!(failures.len(), 3);
    assert_eq!(failures[0].code, "tar-validation");
    assert_eq!(failures[0].message, "archive top-level must be repo/, found other");
    assert_eq!(failures[1].message, "not a tar archive");
    assert_eq!(failures[2].code, "file-validation");
}

#[test]
fn deploy_queue_events_carry_phase_status_and_archive() {
    let queued = deploy_queued_event("r".to_string(), 4, "/tmp/a.tar.gz".to_string(), "abc".to_string());
    assert_eq!(queued.kind, EventKind::DeployQueued);
    assert_eq!(queued.message, "deploy queued");
    assert_eq!(queued.tab_id, Some(4));
    assert_eq!(queued.fields.get("phase").map(|v| v.as_str()), Some("deploy-queue"));
    assert_eq!(queued.fields.get("status").map(|v| v.as_str()), Some("queued"));
    assert_eq!(queued.fields.get("local_path").map(|v| v.as_str()), Some("/tmp/a.tar.gz"));
    assert_eq!(queued.fields.get("sha256").map(|v| v.as_str()), Some("abc"));
    let started = deploy_started_event("r".to_string(), 4);
    assert_eq!(started.message, "deploy started");
    assert_eq!(started.fields.get("status").map(|v| v.as_str()), Some("started"));
    assert_eq!(started.fields.get("sha256"), None);
}

#[test]
fn run_outcome_joins_failures_and_sets_status() {
    let none: Vec<(u16, String)> = Vec::new();
    let (f, status) = run_outcome(&none, Vec::new(), false);
    assert!(f.is_empty());
    assert_eq!(status, "succeeded");
    let run = vec![(0u16, "bridge shut down".to_string()), (2u16, "tab failed".to_string())];
    let artifact = vec![AgentFailure {
        tab_id: Some(3),
        code: "artifact-validation".to_string(),
        message: "bad tar".to_string(),
    }];
    let (f, status) = run_outcome(&run, artifact.clone(), false);
    assert_eq!(status, "failed");
    assert_eq!(f.len(), 3);
    assert_eq!(f[0].tab_id, None);
    assert_eq!(f[0].code, "orchestrator");
    assert_eq!(f[1].tab_id, Some(2));
    assert_eq!(f[2], artifact[0]);
    let (_, status) = run_outcome(&none, Vec::new(), true);
    assert_eq!(status, "timed-out");
}

#[test]
fn errors_are_reported_to_agents_with_hints() {
    let report = OrchestratorError::Config("bad tabs".to_string()).agent_error();
    assert_eq!(report.code, "orchestrator-config");
    assert_eq!(report.purpose, "coordinate browser bridge and run lifecycle");
    assert_eq!(report.reason, "config error: bad tabs");
    assert_eq!(report.next_steps.len(), 3);
    assert_eq!(report.next_steps[1], "inspect NDJSON protocol frames");
    assert_eq!(report.docs, "docs/testing.md");
    let refused = jekko_jailgun::gate::refusal_report(jekko_jailgun::gate::invalid_run_request(
        "missing prompt".to_string(),
    ));
    assert_eq!(refused.code, "agent-run-invalid");
    assert_eq!(refused.purpose, "start a Jailgun agent run");
    assert_eq!(refused.reason, "missing prompt");
    assert_eq!(refused.next_steps[0], "verify the live server token and request body");
    assert_eq!(refused.retry, "rerun the agent request with a valid prompt file and token");
}

#[test]
fn artifact_kinds_follow_field_then_file_name() {
    let name = |n: &str| Some(n.to_string());
    assert_eq!(artifact_kind(Some(&"tar-gz".to_string()), &name("a.txt")), "downloaded-archive");
    assert_eq!(artifact_kind(Some(&"notes".to_string()), &None), "notes");
    assert_eq!(artifact_kind(Some(&"  ".to_string()), &name("b.Tar.Gz")), "downloaded-archive");
    assert_eq!(artifact_kind(None, &name("ch.TeX")), "downloaded-tex");
    assert_eq!(artifact_kind(None, &name("plain.txt")), "downloaded-file");
    assert_eq!(artifact_kind(None, &None), "downloaded-file");
}

#[test]
fn extensions_follow_the_documented_rule() {
    let ext = |n: &str| extension_of_name(&Some(n.to_string()));
    assert_eq!(ext("a.json"), Some("json".to_string()));
    assert_eq!(ext("archive.tar.gz"), Some("gz".to_string()));
    assert_eq!(ext(".bashrc"), None);
    assert_eq!(ext("..foo"), Some("foo".to_string()));
    assert_eq!(ext("noext"), None);
    assert_eq!(ext("trailing."), Some(String::new()));
    assert_eq!(extension_of_name(&None), None);
    assert!(is_receipt_name(&Some("deploy.json".to_string())));
    assert!(!is_receipt_name(&Some("deploy.json.bak".to_string())));
    assert!(is_receipt_file("/receipts/run-1/deploy.json"));
    assert!(!is_receipt_file("/receipts/run-1/deploy.txt"));
}

#[test]
fn recorded_runs_stay_on_the_board() {
    let mut events = Vec::new();
    let mut runs: Vec<RunSnapshot> = Vec::new();
    record_event(&mut events, &mut runs, ev("a", EventKind::RunStarted));
    record_event(&mut events, &mut runs, ev("b", EventKind::RunQueued));
    assert_eq!(runs.len(), 2);
    record_event(&mut events, &mut runs, ev("a", EventKind::Error));
    assert_eq!(runs.len(), 2);
    assert_eq!(events.len(), 3);
    let a = find_run(&runs, "a").expect("run a on the board");
    let b = find_run(&runs, "b").expect("run b on the board");
    assert_eq!(runs[a].status, "failed");
    assert_eq!(runs[b].status, "queued");
}

#[test]
fn artifact_kinds_come_from_plain_paths() {
    let e = JailgunEvent::new("r".to_string(), EventKind::DownloadReceipt, "d".to_string());
    assert_eq!(artifact_kind_from_event(&e, "/x/out.tar.gz"), "downloaded-archive");
    assert_eq!(artifact_kind_from_event(&e, "chapter.tex"), "downloaded-tex");
    assert_eq!(artifact_kind_from_event(&e, "/x/notes.txt"), "downloaded-file");
    let tagged = e.with_field("file_kind", "tex".to_string());
    assert_eq!(artifact_kind_from_event(&tagged, "/x/out.tar.gz"), "downloaded-tex");
}
