use std::time::Duration;

use jekko_jailgun::launch::LaunchScheduler;
use jekko_jailgun::tracker::RunTracker;

#[test]
fn launch_scheduler_waits_for_prompt_acceptance_before_next_tab() {
    let mut scheduler = LaunchScheduler::new(3);
    assert_eq!(scheduler.next_tab, 1);
    scheduler.next_tab = 2;
    scheduler.waiting_for_acceptance = Some(1);

    assert!(scheduler
        .prompt_accepted(2, Duration::from_secs(60))
        .is_none());
    let delay = scheduler
        .prompt_accepted(1, Duration::from_secs(60))
        .expect("tab 2 scheduled after tab 1 acceptance");
    assert_eq!(delay.tab_id, 2);
    assert_eq!(delay.duration, Duration::from_secs(60));
    assert!(scheduler.consume_scheduled_launch(2));
}

#[test]
fn run_tracker_completes_when_a_tab_fails_before_download() {
    let mut tracker = RunTracker::new(2, true);
    tracker.mark_terminal(1);
    assert!(!tracker.is_complete());
    tracker.mark_downloaded(2);
    assert!(!tracker.is_complete());
    tracker.mark_deployed(2);
    assert!(tracker.is_complete());
}

#[test]
fn launches_hand_out_tabs_in_order_once() {
    let mut scheduler = LaunchScheduler::new(2);
    assert_eq!(scheduler.launch_next(), Some(1));
    assert_eq!(scheduler.waiting_for_acceptance, Some(1));
    let delay = scheduler
        .tab_terminal(1, Duration::from_millis(5))
        .expect("tab 2 scheduled after tab 1 ended");
    assert_eq!(delay.tab_id, 2);
    assert_eq!(delay.reason, "tab-terminal-before-prompt-accepted");
    assert!(scheduler
        .schedule_next(Duration::from_millis(1), "again")
        .is_none());
    assert!(scheduler.consume_scheduled_launch(2));
    assert!(!scheduler.consume_scheduled_launch(2));
    assert_eq!(scheduler.launch_next(), Some(2));
    assert_eq!(scheduler.launch_next(), None);
    assert_eq!(scheduler.next_tab, 3);
}

#[test]
fn failed_tab_cancels_scheduled_launch() {
    let mut scheduler = LaunchScheduler::new(3);
    assert_eq!(scheduler.launch_next(), Some(1));
    let delay = scheduler
        .prompt_accepted(1, Duration::from_secs(1))
        .expect("scheduled");
    assert_eq!(delay.reason, "prompt-accepted");
    scheduler.tab_failed(1);
    assert_eq!(scheduler.scheduled_launch, None);
    assert!(!scheduler.consume_scheduled_launch(2));
}

#[test]
fn tracker_counts_and_completion_rules() {
    let mut tracker = RunTracker::new(2, false);
    assert!(!tracker.tab_is_complete(1));
    tracker.mark_downloaded(1);
    tracker.mark_downloaded(1);
    assert_eq!(tracker.downloaded_count(), 1);
    assert!(tracker.tab_is_complete(1));
    assert!(!tracker.is_complete());
    tracker.mark_session_expired(2);
    assert!(tracker.tab_session_expired(2));
    assert!(!tracker.tab_session_expired(1));
    tracker.mark_terminal(2);
    assert!(tracker.is_complete());
    assert_eq!(tracker.deployed_count(), 0);
    assert!(RunTracker::new(0, true).is_complete());
}
