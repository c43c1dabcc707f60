use jekko_jailgun::tab::{TabState, TabTrigger};

fn step(state: TabState, trigger: TabTrigger) -> TabState {
    state.next(trigger, None).expect("legal transition")
}

#[test]
fn happy_path_reaches_deploy_complete() {
    let mut s = TabState::Opening;
    s = step(s, TabTrigger::TabOpened);
    s = step(s, TabTrigger::ArchiveUploaded);
    s = step(s, TabTrigger::PromptSubmitted);
    assert_eq!(s, TabState::Submitted);
    s = step(s, TabTrigger::FirstProgress);
    assert_eq!(s, TabState::Generating);
    s = step(s, TabTrigger::TarLinkFound);
    assert_eq!(s, TabState::TarDiscovered);
    s = step(s, TabTrigger::DownloadStarted);
    assert_eq!(s, TabState::Downloading);
    s = step(s, TabTrigger::DownloadComplete);
    s = step(s, TabTrigger::GenerationStopped);
    s = step(s, TabTrigger::TabClosed);
    assert_eq!(s, TabState::Closed);
    s = step(s, TabTrigger::DeployQueued);
    assert_eq!(s, TabState::Deploying);
    s = step(s, TabTrigger::DeployFinishedSuccess);
    assert_eq!(s, TabState::DeployComplete);
    assert!(s.is_terminal());
}

#[test]
fn fatal_error_from_any_non_terminal_state_marks_failed() {
    let s = TabState::Submitted;
    let next = s
        .next(TabTrigger::ErrorFatal, Some("bridge died".into()))
        .expect("error transition");
    assert_eq!(
        next,
        TabState::Failed {
            reason: "bridge died".into()
        }
    );
}

#[test]
fn illegal_transition_returns_error() {
    let err = TabState::Closed
        .next(TabTrigger::TabOpened, None)
        .expect_err("illegal");
    assert_eq!(err.trigger, TabTrigger::TabOpened);
}

#[test]
fn fatal_error_without_reason_uses_default_reason() {
    let next = TabState::DeployComplete
        .next(TabTrigger::ErrorFatal, None)
        .expect("fatal errors are always accepted");
    assert_eq!(
        next,
        TabState::Failed {
            reason: "fatal bridge error".into()
        }
    );
}

#[test]
fn deploy_failure_carries_reason_or_default() {
    let failed = TabState::Deploying
        .next(TabTrigger::DeployFinishedFailure, None)
        .expect("deploy failure");
    assert_eq!(
        failed,
        TabState::Failed {
            reason: "deploy failed".into()
        }
    );
    let failed = TabState::Deploying
        .next(TabTrigger::DeployFinishedFailure, Some("ssh down".into()))
        .expect("deploy failure");
    assert_eq!(
        failed,
        TabState::Failed {
            reason: "ssh down".into()
        }
    );
}

#[test]
fn terminal_states_reject_ordinary_triggers() {
    let err = TabState::DeployComplete
        .next(TabTrigger::DeployQueued, None)
        .expect_err("terminal");
    assert_eq!(err.from, TabState::DeployComplete);
    assert_eq!(err.trigger, TabTrigger::DeployQueued);
    let failed = TabState::Failed {
        reason: "x".into(),
    };
    assert!(failed.is_terminal());
    assert!(failed.next(TabTrigger::TabOpened, None).is_err());
    assert!(!TabState::Deploying.is_terminal());
}

#[test]
fn tar_link_is_accepted_before_first_progress() {
    assert_eq!(
        step(TabState::Submitted, TabTrigger::TarLinkFound),
        TabState::TarDiscovered
    );
}
