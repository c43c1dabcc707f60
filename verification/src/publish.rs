//! The events the run loop publishes of its own: the start of a run,
//! errors, and browser-log notes of tab launches.
use vstd::prelude::*;
use crate::run_event::{EventKind, JailgunEvent, Severity};
use crate::text::{decimal, decimal_string};

verus! {

/// The event that opens a run.
pub fn run_started_event(run_id: String, tabs: u16) -> (r: JailgunEvent)
    ensures
        crate::run_event::rfc3339_utc_text(r.timestamp@),
        r.run_id == run_id,
        r.kind == EventKind::RunStarted,
        r.severity == Severity::Info,
        r.tab_id is None,
        r.message@ == "run started"@,
        r.fields@ == map!["tabs"@ => decimal(tabs as nat)],
{
    let e = JailgunEvent::new(run_id, EventKind::RunStarted, String::from_str("run started"))
        .with_field("tabs", decimal_string(tabs as u64));
    assert(e.fields@ =~= map!["tabs"@ => decimal(tabs as nat)]);
    e
}

/// An error of the run, or of one of its tabs.
pub fn error_event(run_id: String, tab_id: Option<u16>, message: String) -> (r: JailgunEvent)
    ensures
        crate::run_event::rfc3339_utc_text(r.timestamp@),
        r.run_id == run_id,
        r.kind == EventKind::Error,
        r.severity == Severity::Error,
        r.tab_id == tab_id,
        r.message == message,
        r.fields@ == Map::<Seq<char>, Seq<char>>::empty(),
{
    let e = JailgunEvent::new(run_id, EventKind::Error, message).with_severity(Severity::Error);
    match tab_id {
        Some(t) => e.with_tab(t),
        None => e,
    }
}

/// The note that a tab is being launched.
pub fn launch_started_event(run_id: String, tab_id: u16, total_tabs: u16) -> (r: JailgunEvent)
    ensures
        crate::run_event::rfc3339_utc_text(r.timestamp@),
        r.run_id == run_id,
        r.kind == EventKind::BrowserLog,
        r.severity == Severity::Info,
        r.tab_id == Some(tab_id),
        r.message@ == "opening tab and queueing upload, submit, monitor commands"@,
        r.fields@ == map![
            "phase"@ => "launch-tab"@,
            "status"@ => "started"@,
            "tab_id"@ => decimal(tab_id as nat),
            "total_tabs"@ => decimal(total_tabs as nat),
        ],
{
    let e = JailgunEvent::new(
        run_id,
        EventKind::BrowserLog,
        String::from_str("opening tab and queueing upload, submit, monitor commands"),
    ).with_field("phase", String::from_str("launch-tab")).with_field(
        "status",
        String::from_str("started"),
    ).with_tab(tab_id).with_field("tab_id", decimal_string(tab_id as u64)).with_field(
        "total_tabs",
        decimal_string(total_tabs as u64),
    );
    assert(e.fields@ =~= map![
        "phase"@ => "launch-tab"@,
        "status"@ => "started"@,
        "tab_id"@ => decimal(tab_id as nat),
        "total_tabs"@ => decimal(total_tabs as nat),
    ]);
    e
}

/// The note that the next tab waits `delay_ms` milliseconds, and why.
pub fn launch_delay_event(run_id: String, tab_id: u16, delay_ms: u64, reason: &str) -> (r:
    JailgunEvent)
    ensures
        crate::run_event::rfc3339_utc_text(r.timestamp@),
        r.run_id == run_id,
        r.kind == EventKind::BrowserLog,
        r.severity == Severity::Info,
        r.tab_id == Some(tab_id),
        r.message@ == "waiting before launching next tab"@,
        r.fields@ == map![
            "phase"@ => "launch-delay"@,
            "status"@ => "waiting"@,
            "next_tab"@ => decimal(tab_id as nat),
            "delay_ms"@ => decimal(delay_ms as nat),
            "reason"@ => reason@,
        ],
{
    let e = JailgunEvent::new(
        run_id,
        EventKind::BrowserLog,
        String::from_str("waiting before launching next tab"),
    ).with_field("phase", String::from_str("launch-delay")).with_field(
        "status",
        String::from_str("waiting"),
    ).with_tab(tab_id).with_field("next_tab", decimal_string(tab_id as u64)).with_field(
        "delay_ms",
        decimal_string(delay_ms),
    ).with_field("reason", String::from_str(reason));
    assert(e.fields@ =~= map![
        "phase"@ => "launch-delay"@,
        "status"@ => "waiting"@,
        "next_tab"@ => decimal(tab_id as nat),
        "delay_ms"@ => decimal(delay_ms as nat),
        "reason"@ => reason@,
    ]);
    e
}

/// The note that a downloaded archive waits for a deploy slot.
pub fn deploy_queued_event(run_id: String, tab_id: u16, local_path: String, sha256: String) -> (r:
    JailgunEvent)
    ensures
        crate::run_event::rfc3339_utc_text(r.timestamp@),
        r.run_id == run_id,
        r.kind == EventKind::DeployQueued,
        r.severity == Severity::Info,
        r.tab_id == Some(tab_id),
        r.message@ == "deploy queued"@,
        r.fields@ == map![
            "phase"@ => "deploy-queue"@,
            "status"@ => "queued"@,
            "local_path"@ => local_path@,
            "sha256"@ => sha256@,
        ],
{
    let e = JailgunEvent::new(run_id, EventKind::DeployQueued, String::from_str("deploy queued"))
        .with_tab(tab_id).with_field("phase", String::from_str("deploy-queue")).with_field(
        "status",
        String::from_str("queued"),
    ).with_field("local_path", local_path).with_field("sha256", sha256);
    assert(e.fields@ =~= map![
        "phase"@ => "deploy-queue"@,
        "status"@ => "queued"@,
        "local_path"@ => local_path@,
        "sha256"@ => sha256@,
    ]);
    e
}

/// The note that a queued deploy got its slot and starts.
pub fn deploy_started_event(run_id: String, tab_id: u16) -> (r: JailgunEvent)
    ensures
        crate::run_event::rfc3339_utc_text(r.timestamp@),
        r.run_id == run_id,
        r.kind == EventKind::DeployQueued,
        r.severity == Severity::Info,
        r.tab_id == Some(tab_id),
        r.message@ == "deploy started"@,
        r.fields@ == map!["phase"@ => "deploy-queue"@, "status"@ => "started"@],
{
    let e = JailgunEvent::new(run_id, EventKind::DeployQueued, String::from_str("deploy started"))
        .with_tab(tab_id).with_field("phase", String::from_str("deploy-queue")).with_field(
        "status",
        String::from_str("started"),
    );
    assert(e.fields@ =~= map!["phase"@ => "deploy-queue"@, "status"@ => "started"@]);
    e
}

} // verus!
