//! What the run loop does with each bridge event and deploy result: the
//! run summary and tracker it updates, the launches it frees, and the
//! errors and deploys it asks for.
use vstd::prelude::*;
use crate::bridge::event::{BridgeEvent, DownloadCompletePayload, ErrorPayload};
use crate::config::RunOptions;
use crate::launch::{
    delay_for, spec_consume, spec_launch_next, spec_release_wait, spec_tab_failed, LaunchDelay,
    LaunchScheduler,
};
use std::time::Duration;
use crate::tracker::{
    capped_count, run_complete, run_is_complete, with_deployed, with_downloaded, with_session_expired,
    with_terminal, RunTracker, TrackerView,
};
use crate::auth::ReadyStep;
use crate::errors::OrchestratorError;
use crate::text::{
    chars_of, ends_with, lower, push_str, str_eq, string_of, vec_ascii_lowercase, vec_ends_with,
};

verus! {

/// Totals of one run.
#[derive(Debug, Clone, PartialEq, Eq)]
pub struct RunSummary {
    pub run_id: String,
    pub total_tabs: u16,
    pub downloaded: u16,
    pub deployed: u16,
    pub failures: Vec<(u16, String)>,
    pub denied_github_prompts: u32,
    pub allowed_info_prompts: u32,
}

/// Failures of a run: the tab (0 for the run as a whole) and the reason.
pub open spec fn failure_list(s: RunSummary) -> Seq<(u16, Seq<char>)> {
    s.failures@.map_values(|f: (u16, String)| (f.0, f.1@))
}

/// What a bridge event means for the launch scheduler.
#[derive(Debug, Clone, Copy, PartialEq, Eq, Structural)]
pub struct BridgeEffects {
    pub prompt_submitted: Option<u16>,
    pub terminal_tab: Option<u16>,
    pub failed_tab: Option<u16>,
}

/// Work the run loop performs for an event.
#[allow(inconsistent_fields)]
#[derive(Debug, Clone, PartialEq, Eq)]
pub enum BridgeAction {
    /// Publish an error event for the run (and tab).
    PublishError { tab_id: Option<u16>, message: String },
    /// Queue the deploy of the archive a tab downloaded.
    QueueDeploy { tab_id: u16, local_path: String, local_name: String, sha256: String },
}

pub open spec fn no_effects() -> BridgeEffects {
    BridgeEffects { prompt_submitted: None, terminal_tab: None, failed_tab: None }
}

/// Whether downloads of this run are deployed.
pub open spec fn deploys(opts: RunOptions) -> bool {
    !opts.no_deploy && opts.config.deploy.enabled
}

/// A download is an archive when its kind says so, or, for an unknown kind,
/// when its path ends in `.tar.gz` (in any letter case).
pub open spec fn is_archive_download(p: DownloadCompletePayload) -> bool {
    match p.file_kind {
        Some(k) => if k@ == "downloaded-archive"@ || k@ == "archive"@ || k@ == "tar-gz"@ {
            true
        } else if k@ == "downloaded-tex"@ || k@ == "downloaded-file"@ || k@ == "tex"@ || k@
            == "file"@ {
            false
        } else {
            ends_with(lower(p.local_path@), ".tar.gz"@)
        },
        None => ends_with(lower(p.local_path@), ".tar.gz"@),
    }
}

pub fn download_complete_is_archive(payload: &DownloadCompletePayload) -> (r: bool)
    ensures
        r == is_archive_download(*payload),
{
    if let Some(kind) = &payload.file_kind {
        let k = kind.as_str();
        if str_eq(k, "downloaded-archive") || str_eq(k, "archive") || str_eq(k, "tar-gz") {
            return true;
        }
        if str_eq(k, "downloaded-tex") || str_eq(k, "downloaded-file") || str_eq(k, "tex")
            || str_eq(k, "file") {
            return false;
        }
    }
    let path = chars_of(payload.local_path.as_str());
    let lowered = vec_ascii_lowercase(&path);
    let suffix = chars_of(".tar.gz");
    vec_ends_with(&lowered, &suffix)
}

/// The message recorded when a deploying run downloads something that is
/// not an archive.
pub open spec fn non_archive_message() -> Seq<char> {
    "non-archive downloads cannot be deployed; expected a .tar.gz artifact"@
}

/// The message recorded when the bridge shuts down before the run completed.
pub open spec fn early_shutdown_message() -> Seq<char> {
    "bridge shut down before run completed"@
}

pub open spec fn tab_or_run(tab_id: Option<u16>) -> u16 {
    match tab_id {
        Some(t) => t,
        None => 0,
    }
}

pub open spec fn sat_inc(n: u32) -> u32 {
    if n == u32::MAX { n } else { (n + 1) as u32 }
}

/// The policy decisions counted as denied, and as allowed information prompts.
pub open spec fn is_deny(d: Seq<char>) -> bool {
    d == "deny"@ || d == "denied"@
}

pub open spec fn is_allow_info(d: Seq<char>) -> bool {
    d == "allow-info"@ || d == "allowed-info"@ || d == "allow"@
}

/// The summary fields other than failures and counters stayed as they were.
pub open spec fn same_run(a: RunSummary, b: RunSummary) -> bool {
    a.run_id == b.run_id && a.total_tabs == b.total_tabs
}

/// `b` is `a` with one more failure `(tab, msg)` and otherwise unchanged.
pub open spec fn one_more_failure(a: RunSummary, b: RunSummary, tab: u16, msg: Seq<char>) -> bool {
    &&& same_run(a, b)
    &&& failure_list(b) == failure_list(a).push((tab, msg))
    &&& b.downloaded == a.downloaded
    &&& b.deployed == a.deployed
    &&& b.denied_github_prompts == a.denied_github_prompts
    &&& b.allowed_info_prompts == a.allowed_info_prompts
}

fn push_failure(summary: &mut RunSummary, tab: u16, message: String)
    ensures
        one_more_failure(*old(summary), *final(summary), tab, message@),
{
    summary.failures.push((tab, message));
    proof {
        assert(failure_list(*summary) =~= failure_list(*old(summary)).push((tab, message@)));
    }
}

/// A line the bridge sent that could not be decoded: recorded as a failure
/// of its tab (or of the run), published as an error, and the tab ends.
pub fn handle_undecodable_event(
    tab_id: Option<u16>,
    error: String,
    summary: &mut RunSummary,
    tracker: &mut RunTracker,
) -> (r: (BridgeEffects, Vec<BridgeAction>))
    ensures
        one_more_failure(*old(summary), *final(summary), tab_or_run(tab_id), error@),
        r.1@ == seq![BridgeAction::PublishError { tab_id, message: error }],
        match tab_id {
            Some(t) => final(tracker)@ == with_terminal(old(tracker)@, t) && r.0 == (
            BridgeEffects { terminal_tab: Some(t), ..no_effects() }),
            None => final(tracker)@ == old(tracker)@ && r.0 == no_effects(),
        },
{
    let mut effects = BridgeEffects { prompt_submitted: None, terminal_tab: None, failed_tab: None };
    push_failure(summary, tab_or_zero(tab_id), error.clone());
    if let Some(t) = tab_id {
        tracker.mark_terminal(t);
        effects.terminal_tab = Some(t);
    }
    let mut actions: Vec<BridgeAction> = Vec::new();
    actions.push(BridgeAction::PublishError { tab_id, message: error });
    (effects, actions)
}

fn tab_or_zero(tab_id: Option<u16>) -> (r: u16)
    ensures
        r == tab_or_run(tab_id),
{
    match tab_id {
        Some(t) => t,
        None => 0,
    }
}

/// What a completed download of tab `t` does. `validation` is the result of
/// checking the archive on disk; it is read only for archive downloads.
pub open spec fn download_outcome(
    opts: RunOptions,
    p: DownloadCompletePayload,
    t: u16,
    validation: Result<(), String>,
    s0: RunSummary,
    v0: TrackerView,
    s1: RunSummary,
    v1: TrackerView,
    effects: BridgeEffects,
    actions: Seq<BridgeAction>,
) -> bool {
    if is_archive_download(p) && validation is Err {
        &&& one_more_failure(s0, s1, t, validation->Err_0@)
        &&& v1 == with_terminal(v0, t)
        &&& effects == (BridgeEffects { terminal_tab: Some(t), ..no_effects() })
        &&& actions == seq![
            BridgeAction::PublishError { tab_id: Some(t), message: validation->Err_0 },
        ]
    } else if !is_archive_download(p) && deploys(opts) {
        &&& one_more_failure(s0, s1, t, non_archive_message())
        &&& v1 == with_terminal(v0, t)
        &&& effects == (BridgeEffects { terminal_tab: Some(t), ..no_effects() })
        &&& actions.len() == 1
        &&& actions[0] matches BridgeAction::PublishError { tab_id, message } && tab_id == Some(t)
            && message@ == non_archive_message()
    } else {
        let downloaded = with_downloaded(v0, t);
        &&& same_run(s0, s1)
        &&& failure_list(s1) == failure_list(s0)
        &&& s1.denied_github_prompts == s0.denied_github_prompts
        &&& s1.allowed_info_prompts == s0.allowed_info_prompts
        &&& s1.downloaded == capped_count(downloaded.downloaded.len())
        &&& effects == no_effects()
        &&& if deploys(opts) {
            &&& v1 == downloaded
            &&& s1.deployed == s0.deployed
            &&& actions == seq![
                BridgeAction::QueueDeploy {
                    tab_id: t,
                    local_path: p.local_path,
                    local_name: p.local_name,
                    sha256: p.sha256,
                },
            ]
        } else {
            &&& v1 == with_deployed(downloaded, t)
            &&& s1.deployed == capped_count(v1.deployed.len())
            &&& actions.len() == 0
        }
    }
}

fn handle_download(
    opts: &RunOptions,
    p: &DownloadCompletePayload,
    t: u16,
    validation: Result<(), String>,
    summary: &mut RunSummary,
    tracker: &mut RunTracker,
) -> (r: (BridgeEffects, Vec<BridgeAction>))
    ensures
        download_outcome(
            *opts,
            *p,
            t,
            validation,
            *old(summary),
            old(tracker)@,
            *final(summary),
            final(tracker)@,
            r.0,
            r.1@,
        ),
{
    let mut actions: Vec<BridgeAction> = Vec::new();
    let is_archive = download_complete_is_archive(p);
    if is_archive {
        if let Err(reason) = validation {
            push_failure(summary, t, reason.clone());
            tracker.mark_terminal(t);
            actions.push(BridgeAction::PublishError { tab_id: Some(t), message: reason });
            return (BridgeEffects { prompt_submitted: None, terminal_tab: Some(t), failed_tab: None }, actions);
        }
    } else if !opts.no_deploy && opts.config.deploy.enabled {
        let reason = String::from_str(
            "non-archive downloads cannot be deployed; expected a .tar.gz artifact",
        );
        push_failure(summary, t, reason.clone());
        tracker.mark_terminal(t);
        actions.push(BridgeAction::PublishError { tab_id: Some(t), message: reason });
        return (BridgeEffects { prompt_submitted: None, terminal_tab: Some(t), failed_tab: None }, actions);
    }
    tracker.mark_downloaded(t);
    summary.downloaded = tracker.downloaded_count();
    if opts.no_deploy || !opts.config.deploy.enabled {
        tracker.mark_deployed(t);
        summary.deployed = tracker.deployed_count();
    } else {
        actions.push(
            BridgeAction::QueueDeploy {
                tab_id: t,
                local_path: p.local_path.clone(),
                local_name: p.local_name.clone(),
                sha256: p.sha256.clone(),
            },
        );
    }
    (BridgeEffects { prompt_submitted: None, terminal_tab: None, failed_tab: None }, actions)
}

/// What a decoded bridge event of tab `tab_id` does to the run. `validation`
/// is the result of checking a downloaded archive on disk, read only for an
/// archive download.
pub open spec fn event_outcome(
    opts: RunOptions,
    event: BridgeEvent,
    tab_id: Option<u16>,
    validation: Result<(), String>,
    s0: RunSummary,
    v0: TrackerView,
    s1: RunSummary,
    v1: TrackerView,
    effects: BridgeEffects,
    actions: Seq<BridgeAction>,
) -> bool {
    let unchanged = s1 == s0 && v1 == v0 && actions.len() == 0;
    match event {
        BridgeEvent::PromptSubmitted(_) => unchanged && effects == (BridgeEffects {
            prompt_submitted: tab_id,
            ..no_effects()
        }),
        BridgeEvent::DownloadComplete(p) => match tab_id {
            Some(t) => download_outcome(opts, p, t, validation, s0, v0, s1, v1, effects, actions),
            None => unchanged && effects == no_effects(),
        },
        BridgeEvent::PromptPolicyApplied(p) => {
            &&& same_run(s0, s1)
            &&& failure_list(s1) == failure_list(s0)
            &&& s1.downloaded == s0.downloaded
            &&& s1.deployed == s0.deployed
            &&& s1.denied_github_prompts == if is_deny(p.decision@) {
                sat_inc(s0.denied_github_prompts)
            } else {
                s0.denied_github_prompts
            }
            &&& s1.allowed_info_prompts == if is_allow_info(p.decision@) {
                sat_inc(s0.allowed_info_prompts)
            } else {
                s0.allowed_info_prompts
            }
            &&& v1 == v0
            &&& effects == no_effects()
            &&& actions.len() == 0
        },
        BridgeEvent::Error(p) => {
            &&& one_more_failure(s0, s1, tab_or_run(tab_id), p.message@)
            &&& actions.len() == 0
            &&& match tab_id {
                Some(t) => if p.recoverable {
                    v1 == v0 && effects == no_effects()
                } else {
                    &&& v1 == with_terminal(v0, t)
                    &&& effects == if v0.session_expired.contains(t) {
                        BridgeEffects { failed_tab: Some(t), ..no_effects() }
                    } else {
                        BridgeEffects { terminal_tab: Some(t), ..no_effects() }
                    }
                },
                None => v1 == v0 && effects == no_effects(),
            }
        },
        BridgeEvent::SessionExpired(p) => {
            &&& one_more_failure(s0, s1, tab_or_run(tab_id), p.reason@)
            &&& actions.len() == 0
            &&& match tab_id {
                Some(t) => v1 == with_terminal(with_session_expired(v0, t), t) && effects == (
                BridgeEffects { failed_tab: Some(t), ..no_effects() }),
                None => v1 == v0 && effects == no_effects(),
            }
        },
        BridgeEvent::BridgeShuttingDown(_) => {
            &&& v1 == v0
            &&& effects == no_effects()
            &&& actions.len() == 0
            &&& if run_complete(v0) {
                s1 == s0
            } else {
                one_more_failure(s0, s1, 0, early_shutdown_message())
            }
        },
        _ => unchanged && effects == no_effects(),
    }
}

/// A bridge error of a tab is recorded as that tab's failure. An error the
/// bridge cannot recover from ends the tab: the tab is counted as ended and
/// the effects name it, so the next launch is freed. A recoverable error
/// leaves the tab running: nothing is ended and nothing is freed.
pub proof fn lemma_bridge_error_ends_tab_unless_recoverable(
    opts: RunOptions,
    p: ErrorPayload,
    t: u16,
    validation: Result<(), String>,
    s0: RunSummary,
    v0: TrackerView,
    s1: RunSummary,
    v1: TrackerView,
    effects: BridgeEffects,
    actions: Seq<BridgeAction>,
)
    requires
        event_outcome(opts, BridgeEvent::Error(p), Some(t), validation, s0, v0, s1, v1, effects, actions),
    ensures
        failure_list(s1) == failure_list(s0).push((t, p.message@)),
        !p.recoverable ==> v1.terminal.contains(t) && (effects.terminal_tab == Some(t)
            || effects.failed_tab == Some(t)),
        !p.recoverable ==> v1.downloaded == v0.downloaded && v1.deployed == v0.deployed
            && v1.terminal.remove(t) == v0.terminal.remove(t),
        p.recoverable ==> v1 == v0 && effects.terminal_tab is None && effects.failed_tab is None,
{
    if !p.recoverable {
        assert(v1.terminal.remove(t) =~= v0.terminal.remove(t));
    }
}

/// Applies a decoded bridge event of tab `tab_id` to the run.
pub fn handle_bridge_event(
    opts: &RunOptions,
    event: &BridgeEvent,
    tab_id: Option<u16>,
    validation: Result<(), String>,
    summary: &mut RunSummary,
    tracker: &mut RunTracker,
) -> (r: (BridgeEffects, Vec<BridgeAction>))
    ensures
        event_outcome(
            *opts,
            *event,
            tab_id,
            validation,
            *old(summary),
            old(tracker)@,
            *final(summary),
            final(tracker)@,
            r.0,
            r.1@,
        ),
{
    let none = BridgeEffects { prompt_submitted: None, terminal_tab: None, failed_tab: None };
    match event {
        BridgeEvent::PromptSubmitted(_) => (
            BridgeEffects { prompt_submitted: tab_id, terminal_tab: None, failed_tab: None },
            Vec::new(),
        ),
        BridgeEvent::DownloadComplete(p) => match tab_id {
            Some(t) => handle_download(opts, p, t, validation, summary, tracker),
            None => (none, Vec::new()),
        },
        BridgeEvent::PromptPolicyApplied(p) => {
            let d = p.decision.as_str();
            if str_eq(d, "deny") || str_eq(d, "denied") {
                summary.denied_github_prompts = summary.denied_github_prompts.saturating_add(1);
            } else if str_eq(d, "allow-info") || str_eq(d, "allowed-info") || str_eq(d, "allow") {
                summary.allowed_info_prompts = summary.allowed_info_prompts.saturating_add(1);
            }
            proof {
                reveal_strlit("deny");
                reveal_strlit("denied");
                reveal_strlit("allow-info");
                reveal_strlit("allowed-info");
                reveal_strlit("allow");
                if is_deny(p.decision@) {
                    assert(p.decision@[0] == 'd');
                    assert(!is_allow_info(p.decision@));
                }
            }
            (none, Vec::new())
        },
        BridgeEvent::Error(p) => {
            push_failure(summary, tab_or_zero(tab_id), p.message.clone());
            let mut effects = none;
            if let Some(t) = tab_id {
                if !p.recoverable {
                    let expired = tracker.tab_session_expired(t);
                    tracker.mark_terminal(t);
                    if expired {
                        effects.failed_tab = Some(t);
                    } else {
                        effects.terminal_tab = Some(t);
                    }
                }
            }
            (effects, Vec::new())
        },
        BridgeEvent::SessionExpired(p) => {
            push_failure(summary, tab_or_zero(tab_id), p.reason.clone());
            let mut effects = none;
            if let Some(t) = tab_id {
                tracker.mark_session_expired(t);
                tracker.mark_terminal(t);
                effects.failed_tab = Some(t);
            }
            (effects, Vec::new())
        },
        BridgeEvent::BridgeShuttingDown(_) => {
            if !tracker.is_complete() {
                push_failure(
                    summary,
                    0,
                    String::from_str("bridge shut down before run completed"),
                );
            }
            (none, Vec::new())
        },
        _ => (none, Vec::new()),
    }
}

/// The outcome of one tab's deploy: a success counts the tab as deployed;
/// a failure is recorded, published, and ends the tab.
pub fn handle_deploy_result(
    tab_id: u16,
    result: Result<(), String>,
    summary: &mut RunSummary,
    tracker: &mut RunTracker,
) -> (r: Vec<BridgeAction>)
    ensures
        match result {
            Ok(()) => {
                &&& final(tracker)@ == with_deployed(old(tracker)@, tab_id)
                &&& final(summary).deployed == capped_count(final(tracker)@.deployed.len())
                &&& same_run(*old(summary), *final(summary))
                &&& failure_list(*final(summary)) == failure_list(*old(summary))
                &&& final(summary).downloaded == old(summary).downloaded
                &&& final(summary).denied_github_prompts == old(summary).denied_github_prompts
                &&& final(summary).allowed_info_prompts == old(summary).allowed_info_prompts
                &&& r@.len() == 0
            },
            Err(reason) => {
                &&& one_more_failure(*old(summary), *final(summary), tab_id, reason@)
                &&& final(tracker)@ == with_terminal(old(tracker)@, tab_id)
                &&& r@ == seq![BridgeAction::PublishError { tab_id: Some(tab_id), message: reason }]
            },
        },
{
    let mut actions: Vec<BridgeAction> = Vec::new();
    match result {
        Ok(()) => {
            tracker.mark_deployed(tab_id);
            summary.deployed = tracker.deployed_count();
        },
        Err(reason) => {
            push_failure(summary, tab_id, reason.clone());
            actions.push(BridgeAction::PublishError { tab_id: Some(tab_id), message: reason });
            tracker.mark_terminal(tab_id);
        },
    }
    actions
}

/// What interrupts a run's loop from outside its bridge's events.
#[derive(Debug, Clone, PartialEq, Eq)]
pub enum RunInterrupt {
    /// The run's deadline passed.
    DeadlineReached,
    /// The run was asked to stop.
    Cancelled,
    /// The channel that asks the run to stop was dropped.
    ControlClosed,
    /// The bridge's event stream ended.
    BridgeClosed,
    /// The bridge's event stream reported an error.
    StreamError(String),
}

/// The error an interrupt publishes for the run, if any; a closed bridge is
/// an error only while the run is not complete.
pub open spec fn interrupt_message(i: RunInterrupt, complete: bool) -> Option<Seq<char>> {
    match i {
        RunInterrupt::DeadlineReached => Some(
            "run timed out waiting for bridge/deploy completion"@,
        ),
        RunInterrupt::Cancelled => Some("run cancelled"@),
        RunInterrupt::ControlClosed => None,
        RunInterrupt::BridgeClosed => if complete {
            None
        } else {
            Some("bridge exited before run completed"@)
        },
        RunInterrupt::StreamError(e) => Some(e@),
    }
}

/// An interrupt: the error it publishes is also recorded as a failure of
/// the run, except for a cancellation; every interrupt but a stream error
/// ends the loop. `r.1` says whether the loop ends.
pub fn handle_run_interrupt(
    interrupt: RunInterrupt,
    summary: &mut RunSummary,
    tracker: &RunTracker,
) -> (r: (Vec<BridgeAction>, bool))
    ensures
        r.1 == !(interrupt is StreamError),
        match interrupt_message(interrupt, run_complete(tracker@)) {
            Some(m) => {
                &&& r.0@.len() == 1
                &&& r.0@[0] matches BridgeAction::PublishError { tab_id, message }
                    && tab_id is None && message@ == m
                &&& if interrupt is Cancelled {
                    *final(summary) == *old(summary)
                } else {
                    one_more_failure(*old(summary), *final(summary), 0, m)
                }
            },
            None => r.0@.len() == 0 && *final(summary) == *old(summary),
        },
{
    let mut actions: Vec<BridgeAction> = Vec::new();
    let (message, record, stops) = match interrupt {
        RunInterrupt::DeadlineReached => (
            Some(String::from_str("run timed out waiting for bridge/deploy completion")),
            true,
            true,
        ),
        RunInterrupt::Cancelled => (Some(String::from_str("run cancelled")), false, true),
        RunInterrupt::ControlClosed => (None, false, true),
        RunInterrupt::BridgeClosed => if run_is_complete(tracker) {
            (None, false, true)
        } else {
            (Some(String::from_str("bridge exited before run completed")), true, true)
        },
        RunInterrupt::StreamError(e) => (Some(e), true, false),
    };
    if let Some(m) = message {
        if record {
            push_failure(summary, 0, m.clone());
        }
        actions.push(BridgeAction::PublishError { tab_id: None, message: m });
    }
    (actions, stops)
}

} // verus!

verus! {

/// Frees the launch scheduler after a bridge event: an accepted prompt or
/// an ended tab lets the next launch be scheduled (with the given delays),
/// a failed tab cancels any scheduled launch.
pub fn apply_effects(
    launcher: &mut LaunchScheduler,
    effects: BridgeEffects,
    accepted_delay: Duration,
    terminal_delay: Duration,
) -> (r: Vec<LaunchDelay>)
    ensures
        ({
            let s0 = old(launcher)@;
            let a = match effects.prompt_submitted {
                Some(t) => spec_release_wait(s0, t),
                None => (s0, None),
            };
            let b = match effects.terminal_tab {
                Some(t) => spec_release_wait(a.0, t),
                None => (a.0, None),
            };
            let s3 = match effects.failed_tab {
                Some(t) => spec_tab_failed(b.0, t),
                None => b.0,
            };
            let d1 = delay_for(a.1, accepted_delay, "prompt-accepted");
            let d2 = delay_for(b.1, terminal_delay, "tab-terminal-before-prompt-accepted");
            &&& final(launcher)@ == s3
            &&& r@ == (if d1 is Some { seq![d1->0] } else { seq![] }) + (if d2 is Some {
                seq![d2->0]
            } else {
                seq![]
            })
        }),
{
    let mut delays: Vec<LaunchDelay> = Vec::new();
    if let Some(t) = effects.prompt_submitted {
        if let Some(d) = launcher.prompt_accepted(t, accepted_delay) {
            delays.push(d);
        }
    }
    let ghost after_first = delays@;
    if let Some(t) = effects.terminal_tab {
        if let Some(d) = launcher.tab_terminal(t, terminal_delay) {
            delays.push(d);
        }
    }
    if let Some(t) = effects.failed_tab {
        launcher.tab_failed(t);
    }
    proof {
        assert(delays@ =~= after_first + (delays@.skip(after_first.len() as int)));
    }
    delays
}

/// A launch timer fired for `tab_id`: when that launch is still the
/// scheduled one it is consumed and the next tab launches.
pub fn on_launch_trigger(launcher: &mut LaunchScheduler, tab_id: u16) -> (r: Option<u16>)
    ensures
        ({
            let c = spec_consume(old(launcher)@, tab_id);
            if c.1 {
                (final(launcher)@, r) == spec_launch_next(c.0)
            } else {
                final(launcher)@ == old(launcher)@ && r is None
            }
        }),
{
    if launcher.consume_scheduled_launch(tab_id) {
        launcher.launch_next()
    } else {
        None
    }
}

/// One event while a run waits for its bridge to be ready: ready, failed
/// to start, or any other event to publish while the wait goes on.
pub fn run_ready_step(event: &BridgeEvent) -> (r: ReadyStep)
    ensures
        event is BridgeReady ==> r == ReadyStep::Ready,
        event matches BridgeEvent::Error(p) ==> (r matches ReadyStep::Failed(m) && m@
            == "bridge startup failed: "@ + p.message@),
        !(event is BridgeReady) && !(event is Error) ==> r == ReadyStep::Continue,
{
    match event {
        BridgeEvent::BridgeReady(_) => ReadyStep::Ready,
        BridgeEvent::Error(p) => {
            let mut m: Vec<char> = Vec::new();
            push_str(&mut m, "bridge startup failed: ");
            push_str(&mut m, p.message.as_str());
            ReadyStep::Failed(string_of(&m))
        },
        _ => ReadyStep::Continue,
    }
}

/// A run needs a bridge command to start its bridge with.
pub fn check_bridge_command(opts: &RunOptions) -> (r: Result<(), OrchestratorError>)
    ensures
        r is Ok <==> opts.bridge_cmd@.len() > 0,
        r matches Err(e) ==> e matches OrchestratorError::Config(m) && m@
            == "bridge_cmd cannot be empty; pass --bridge-cmd or set JAILGUN_BRIDGE_CMD"@,
{
    if opts.bridge_cmd.len() == 0 {
        Err(
            OrchestratorError::Config(
                String::from_str(
                    "bridge_cmd cannot be empty; pass --bridge-cmd or set JAILGUN_BRIDGE_CMD",
                ),
            ),
        )
    } else {
        Ok(())
    }
}

} // verus!
