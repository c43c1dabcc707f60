use jekko_jailgun::deploy::deploy_target;
use jekko_jailgun::publish::error_event;
use jekko_jailgun::run_event::{map_bridge_event, EventKind, JailgunEvent};
use jekko_jailgun::bridge::event::{BridgeEvent, ErrorPayload};
use jekko_jailgun::summary::{validate_downloaded_file, FileStat};
use jekko_jailgun::supervisor::{handle_run_interrupt, BridgeAction, RunInterrupt, RunSummary};
use jekko_jailgun::tracker::RunTracker;

fn summary() -> RunSummary {
    RunSummary {
        run_id: "run-1".to_string(),
        total_tabs: 1,
        downloaded: 0,
        deployed: 0,
        failures: Vec::new(),
        denied_github_prompts: 0,
        allowed_info_prompts: 0,
    }
}

fn published(actions: &[BridgeAction]) -> Vec<String> {
    actions
        .iter()
        .map(|a| match a {
            BridgeAction::PublishError { tab_id, message } => {
                assert_eq!(*tab_id, None);
                message.clone()
            }
            other => panic!("unexpected action {other:?}"),
        })
        .collect()
}

#[test]
fn a_deadline_records_and_publishes_a_timeout_and_stops() {
    let mut s = summary();
    let tracker = RunTracker::new(1, false);
    let (actions, stops) = handle_run_interrupt(RunInterrupt::DeadlineReached, &mut s, &tracker);
    assert!(stops);
    let message = "run timed out waiting for bridge/deploy completion".to_string();
    assert_eq!(published(&actions), vec![message.clone()]);
    assert_eq!(s.failures, vec![(0, message)]);
}

#[test]
fn a_cancellation_publishes_without_recording_a_failure() {
    let mut s = summary();
    let tracker = RunTracker::new(1, false);
    let (actions, stops) = handle_run_interrupt(RunInterrupt::Cancelled, &mut s, &tracker);
    assert!(stops);
    assert_eq!(published(&actions), vec!["run cancelled".to_string()]);
    assert!(s.failures.is_empty());
    let (actions, stops) = handle_run_interrupt(RunInterrupt::ControlClosed, &mut s, &tracker);
    assert!(stops);
    assert!(actions.is_empty());
    assert!(s.failures.is_empty());
}

#[test]
fn a_closed_bridge_is_a_failure_only_before_completion() {
    let mut s = summary();
    let mut tracker = RunTracker::new(1, false);
    let (actions, stops) = handle_run_interrupt(RunInterrupt::BridgeClosed, &mut s, &tracker);
    assert!(stops);
    assert_eq!(published(&actions), vec!["bridge exited before run completed".to_string()]);
    assert_eq!(s.failures.len(), 1);
    tracker.mark_downloaded(1);
    let mut done = summary();
    let (actions, stops) = handle_run_interrupt(RunInterrupt::BridgeClosed, &mut done, &tracker);
    assert!(stops);
    assert!(actions.is_empty());
    assert!(done.failures.is_empty());
}

#[test]
fn a_stream_error_is_recorded_and_the_loop_goes_on() {
    let mut s = summary();
    let tracker = RunTracker::new(1, false);
    let interrupt = RunInterrupt::StreamError("bad line".to_string());
    let (actions, stops) = handle_run_interrupt(interrupt, &mut s, &tracker);
    assert!(!stops);
    assert_eq!(published(&actions), vec!["bad line".to_string()]);
    assert_eq!(s.failures, vec![(0, "bad line".to_string())]);
}

#[test]
fn deploys_need_a_remote_host_then_a_remote_dir() {
    assert_eq!(
        deploy_target(None, Some("/srv".to_string())),
        Err("deploy remote host is not configured".to_string())
    );
    assert_eq!(
        deploy_target(Some("host".to_string()), None),
        Err("deploy remote dir is not configured".to_string())
    );
    assert_eq!(
        deploy_target(Some("host".to_string()), Some("/srv".to_string())),
        Ok(("host".to_string(), "/srv".to_string()))
    );
}

#[test]
fn downloaded_files_must_be_readable_regular_and_non_empty() {
    assert_eq!(
        validate_downloaded_file("/d/a.txt", FileStat::Unreadable("No such file".to_string())),
        Err("downloaded file is not readable: /d/a.txt: No such file".to_string())
    );
    assert_eq!(
        validate_downloaded_file("/d", FileStat::Found { is_file: false, len: 4096 }),
        Err("downloaded path is not a file: /d".to_string())
    );
    assert_eq!(
        validate_downloaded_file("/d/a.txt", FileStat::Found { is_file: true, len: 0 }),
        Err("downloaded file is empty: /d/a.txt".to_string())
    );
    assert_eq!(validate_downloaded_file("/d/a.txt", FileStat::Found { is_file: true, len: 3 }), Ok(()));
}

fn rfc3339_shaped(t: &str) -> bool {
    let b = t.as_bytes();
    b.len() >= 20
        && b[4] == b'-'
        && b[7] == b'-'
        && b[10] == b'T'
        && b[13] == b':'
        && b[16] == b':'
        && t.ends_with('Z')
}

#[test]
fn events_are_stamped_in_rfc3339_utc() {
    let e = JailgunEvent::new("r".to_string(), EventKind::RunStarted, "m".to_string());
    assert!(rfc3339_shaped(&e.timestamp), "{}", e.timestamp);
    let err = error_event("r".to_string(), Some(2), "boom".to_string());
    assert!(rfc3339_shaped(&err.timestamp), "{}", err.timestamp);
    let mapped = map_bridge_event(
        "r",
        Some(1),
        &BridgeEvent::Error(ErrorPayload {
            kind: "k".to_string(),
            message: "x".to_string(),
            recoverable: false,
            stack: None,
        }),
    )
    .expect("errors are published");
    assert!(rfc3339_shaped(&mapped.timestamp), "{}", mapped.timestamp);
}
