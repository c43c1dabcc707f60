//! Events the bridge reports, and their payloads.
use vstd::prelude::*;
use crate::bridge::protocol::ProtocolError;
use crate::fields::Fields;
use crate::text::str_eq;

verus! {

#[derive(Debug, Clone, PartialEq, Eq)]
pub struct BridgeReadyPayload {
    pub node_version: String,
    pub playwright_version: String,
    pub browser: String,
    pub browser_version: String,
    pub cdp_url: Option<String>,
    pub managed_chrome_started: Option<bool>,
    pub profile_count: Option<u16>,
    pub profiles: Vec<BridgeProfilePayload>,
    pub capabilities: Vec<String>,
}

#[derive(Debug, Clone, PartialEq, Eq)]
pub struct BridgeProfilePayload {
    pub slot: u16,
    pub profile_name: String,
    pub profile_dir: String,
    pub state_dir: String,
    pub cdp_url: String,
}

#[derive(Debug, Clone, PartialEq, Eq)]
pub struct TabOpenedPayload {
    pub page_url: String,
    pub page_id: String,
    pub browser_profile: String,
    pub browser_profile_dir: String,
    pub browser_slot: Option<u16>,
    pub cdp_url: String,
}

#[derive(Debug, Clone, PartialEq, Eq)]
pub struct ArchiveUploadedPayload {
    pub sha256: String,
    pub size_bytes: u64,
    pub commit: String,
    pub archive_filename: String,
    pub deleted_temp: bool,
}

#[derive(Debug, Clone, PartialEq, Eq)]
pub struct PromptSubmittedPayload {
    pub char_count: u32,
}

#[derive(Debug, Clone, Copy, PartialEq, Eq)]
pub enum TabProgressKind {
    CompletionCheck,
    Telemetry,
}

#[derive(Debug, Clone, PartialEq, Eq)]
pub struct TabProgressPayload {
    pub kind: TabProgressKind,
    pub phase: String,
    pub busy_reason: Option<String>,
    pub has_active_stop: bool,
    pub has_final_actions: bool,
    pub last_text_length: u32,
    pub page_url: String,
}

#[derive(Debug, PartialEq, Eq)]
pub struct TarDiscoveredPayload {
    pub candidates: serde_json::Value,
    pub selected_index: Option<u32>,
}

#[derive(Debug, Clone, PartialEq, Eq)]
pub struct DownloadStartedPayload {
    pub candidate_index: u32,
    pub remote_url: String,
    pub target_path: String,
    pub started_at: String,
}

#[derive(Debug, Clone, PartialEq, Eq)]
pub struct DownloadCompletePayload {
    pub sha256: String,
    pub size_bytes: u64,
    pub local_path: String,
    pub receipt_path: String,
    pub original_name: String,
    pub local_name: String,
    pub file_kind: Option<String>,
    pub download_url: Option<String>,
    pub entry_count: Option<u64>,
    pub download_latency_ms: Option<u64>,
    pub started_at: String,
    pub finished_at: String,
}

#[derive(Debug, PartialEq, Eq)]
pub struct ToolPromptDetectedPayload {
    pub candidate: serde_json::Value,
}

#[derive(Debug, Clone, PartialEq, Eq)]
pub struct PromptPolicyAppliedPayload {
    pub signature: String,
    pub decision: String,
    pub clicked: bool,
    pub reason: Option<String>,
}

#[derive(Debug, Clone, PartialEq, Eq)]
pub struct RateLimitDetectedPayload {
    pub dismissed: bool,
    pub excerpt: String,
}

#[derive(Debug, Clone, PartialEq, Eq)]
pub struct GenerationStoppedPayload {
    pub method: String,
}

#[derive(Debug, Clone, PartialEq, Eq)]
pub struct TabClosedPayload {
    pub page_url: String,
    pub reason: String,
}

#[derive(Debug, Clone, PartialEq, Eq)]
pub struct BridgeLogPayload {
    pub level: String,
    pub phase: String,
    pub message: String,
    pub fields: Fields,
}

#[derive(Debug, Clone, PartialEq, Eq)]
pub struct AuthStatePayload {
    pub state: String,
    pub page_url: String,
    pub reason: Option<String>,
    pub composer_detected: bool,
    pub code_requested: bool,
}

#[derive(Debug, Clone, PartialEq, Eq)]
pub struct AuthActionNeededPayload {
    pub action: String,
    pub reason: String,
}

#[derive(Debug, Clone, PartialEq, Eq)]
pub struct AuthCodeRequestedPayload {
    pub channel: String,
    pub destination_hint: Option<String>,
}

#[derive(Debug, Clone, PartialEq, Eq)]
pub struct AuthCodeSubmittedPayload {
    pub accepted: bool,
}

#[derive(Debug, Clone, PartialEq, Eq)]
pub struct AuthCompletePayload {
    pub page_url: String,
    pub composer_detected: bool,
}

#[derive(Debug, Clone, PartialEq, Eq)]
pub struct AuthFailedPayload {
    pub reason: String,
    pub manual_browser_required: bool,
}

#[derive(Debug, Clone, PartialEq, Eq)]
pub struct SessionExpiredPayload {
    pub page_url: String,
    pub reason: String,
}

#[derive(Debug, Clone, PartialEq, Eq)]
pub struct BridgeShuttingDownPayload {
    pub reason: String,
}

#[derive(Debug, Clone, PartialEq, Eq)]
pub struct ErrorPayload {
    pub kind: String,
    pub message: String,
    pub recoverable: bool,
    pub stack: Option<String>,
}

/// An event reported by the bridge.
#[derive(Debug, PartialEq, Eq)]
pub enum BridgeEvent {
    BridgeReady(BridgeReadyPayload),
    TabOpened(TabOpenedPayload),
    ArchiveUploaded(ArchiveUploadedPayload),
    PromptSubmitted(PromptSubmittedPayload),
    TabProgress(TabProgressPayload),
    TarDiscovered(TarDiscoveredPayload),
    DownloadStarted(DownloadStartedPayload),
    DownloadComplete(DownloadCompletePayload),
    ToolPromptDetected(ToolPromptDetectedPayload),
    PromptPolicyApplied(PromptPolicyAppliedPayload),
    RateLimitDetected(RateLimitDetectedPayload),
    GenerationStopped(GenerationStoppedPayload),
    TabClosed(TabClosedPayload),
    BridgeLog(BridgeLogPayload),
    AuthState(AuthStatePayload),
    AuthActionNeeded(AuthActionNeededPayload),
    AuthCodeRequested(AuthCodeRequestedPayload),
    AuthCodeSubmitted(AuthCodeSubmittedPayload),
    AuthComplete(AuthCompletePayload),
    AuthFailed(AuthFailedPayload),
    SessionExpired(SessionExpiredPayload),
    Pong,
    BridgeShuttingDown(BridgeShuttingDownPayload),
    Error(ErrorPayload),
}

/// Which event a line carries, without its payload.
#[derive(Debug, Clone, Copy, PartialEq, Eq)]
pub enum BridgeEventKind {
    BridgeReady,
    TabOpened,
    ArchiveUploaded,
    PromptSubmitted,
    TabProgress,
    TarDiscovered,
    DownloadStarted,
    DownloadComplete,
    ToolPromptDetected,
    PromptPolicyApplied,
    RateLimitDetected,
    GenerationStopped,
    TabClosed,
    BridgeLog,
    AuthState,
    AuthActionNeeded,
    AuthCodeRequested,
    AuthCodeSubmitted,
    AuthComplete,
    AuthFailed,
    SessionExpired,
    Pong,
    BridgeShuttingDown,
    Error,
}

/// The wire name of each event kind.
pub open spec fn event_kind_name(k: BridgeEventKind) -> Seq<char> {
    match k {
        BridgeEventKind::BridgeReady => "bridge-ready"@,
        BridgeEventKind::TabOpened => "tab-opened"@,
        BridgeEventKind::ArchiveUploaded => "archive-uploaded"@,
        BridgeEventKind::PromptSubmitted => "prompt-submitted"@,
        BridgeEventKind::TabProgress => "tab-progress"@,
        BridgeEventKind::TarDiscovered => "tar-discovered"@,
        BridgeEventKind::DownloadStarted => "download-started"@,
        BridgeEventKind::DownloadComplete => "download-complete"@,
        BridgeEventKind::ToolPromptDetected => "tool-prompt-detected"@,
        BridgeEventKind::PromptPolicyApplied => "prompt-policy-applied"@,
        BridgeEventKind::RateLimitDetected => "rate-limit-detected"@,
        BridgeEventKind::GenerationStopped => "generation-stopped"@,
        BridgeEventKind::TabClosed => "tab-closed"@,
        BridgeEventKind::BridgeLog => "bridge-log"@,
        BridgeEventKind::AuthState => "auth-state"@,
        BridgeEventKind::AuthActionNeeded => "auth-action-needed"@,
        BridgeEventKind::AuthCodeRequested => "auth-code-requested"@,
        BridgeEventKind::AuthCodeSubmitted => "auth-code-submitted"@,
        BridgeEventKind::AuthComplete => "auth-complete"@,
        BridgeEventKind::AuthFailed => "auth-failed"@,
        BridgeEventKind::SessionExpired => "session-expired"@,
        BridgeEventKind::Pong => "pong"@,
        BridgeEventKind::BridgeShuttingDown => "bridge-shutting-down"@,
        BridgeEventKind::Error => "error"@,
    }
}

/// The kind of an event.
pub open spec fn event_kind_of(e: BridgeEvent) -> BridgeEventKind {
    match e {
        BridgeEvent::BridgeReady(_) => BridgeEventKind::BridgeReady,
        BridgeEvent::TabOpened(_) => BridgeEventKind::TabOpened,
        BridgeEvent::ArchiveUploaded(_) => BridgeEventKind::ArchiveUploaded,
        BridgeEvent::PromptSubmitted(_) => BridgeEventKind::PromptSubmitted,
        BridgeEvent::TabProgress(_) => BridgeEventKind::TabProgress,
        BridgeEvent::TarDiscovered(_) => BridgeEventKind::TarDiscovered,
        BridgeEvent::DownloadStarted(_) => BridgeEventKind::DownloadStarted,
        BridgeEvent::DownloadComplete(_) => BridgeEventKind::DownloadComplete,
        BridgeEvent::ToolPromptDetected(_) => BridgeEventKind::ToolPromptDetected,
        BridgeEvent::PromptPolicyApplied(_) => BridgeEventKind::PromptPolicyApplied,
        BridgeEvent::RateLimitDetected(_) => BridgeEventKind::RateLimitDetected,
        BridgeEvent::GenerationStopped(_) => BridgeEventKind::GenerationStopped,
        BridgeEvent::TabClosed(_) => BridgeEventKind::TabClosed,
        BridgeEvent::BridgeLog(_) => BridgeEventKind::BridgeLog,
        BridgeEvent::AuthState(_) => BridgeEventKind::AuthState,
        BridgeEvent::AuthActionNeeded(_) => BridgeEventKind::AuthActionNeeded,
        BridgeEvent::AuthCodeRequested(_) => BridgeEventKind::AuthCodeRequested,
        BridgeEvent::AuthCodeSubmitted(_) => BridgeEventKind::AuthCodeSubmitted,
        BridgeEvent::AuthComplete(_) => BridgeEventKind::AuthComplete,
        BridgeEvent::AuthFailed(_) => BridgeEventKind::AuthFailed,
        BridgeEvent::SessionExpired(_) => BridgeEventKind::SessionExpired,
        BridgeEvent::Pong => BridgeEventKind::Pong,
        BridgeEvent::BridgeShuttingDown(_) => BridgeEventKind::BridgeShuttingDown,
        BridgeEvent::Error(_) => BridgeEventKind::Error,
    }
}

impl BridgeEvent {
    /// The wire name of this event.
    pub fn kind(&self) -> (r: &'static str)
        ensures
            r@ == event_kind_name(event_kind_of(*self)),
    {
        match self {
            BridgeEvent::BridgeReady(_) => "bridge-ready",
            BridgeEvent::TabOpened(_) => "tab-opened",
            BridgeEvent::ArchiveUploaded(_) => "archive-uploaded",
            BridgeEvent::PromptSubmitted(_) => "prompt-submitted",
            BridgeEvent::TabProgress(_) => "tab-progress",
            BridgeEvent::TarDiscovered(_) => "tar-discovered",
            BridgeEvent::DownloadStarted(_) => "download-started",
            BridgeEvent::DownloadComplete(_) => "download-complete",
            BridgeEvent::ToolPromptDetected(_) => "tool-prompt-detected",
            BridgeEvent::PromptPolicyApplied(_) => "prompt-policy-applied",
            BridgeEvent::RateLimitDetected(_) => "rate-limit-detected",
            BridgeEvent::GenerationStopped(_) => "generation-stopped",
            BridgeEvent::TabClosed(_) => "tab-closed",
            BridgeEvent::BridgeLog(_) => "bridge-log",
            BridgeEvent::AuthState(_) => "auth-state",
            BridgeEvent::AuthActionNeeded(_) => "auth-action-needed",
            BridgeEvent::AuthCodeRequested(_) => "auth-code-requested",
            BridgeEvent::AuthCodeSubmitted(_) => "auth-code-submitted",
            BridgeEvent::AuthComplete(_) => "auth-complete",
            BridgeEvent::AuthFailed(_) => "auth-failed",
            BridgeEvent::SessionExpired(_) => "session-expired",
            BridgeEvent::Pong => "pong",
            BridgeEvent::BridgeShuttingDown(_) => "bridge-shutting-down",
            BridgeEvent::Error(_) => "error",
        }
    }
}

impl BridgeEventKind {
    /// The event kind a wire name denotes; an unknown name is refused.
    pub fn from_name(kind: &str) -> (r: Result<BridgeEventKind, ProtocolError>)
        ensures
            r matches Ok(k) ==> event_kind_name(k) == kind@,
            r is Err ==> (forall|k: BridgeEventKind| event_kind_name(k) != kind@),
            r matches Err(e) ==> e matches ProtocolError::UnknownEvent(name) && name@ == kind@,
    {
        if str_eq(kind, "bridge-ready") {
            Ok(BridgeEventKind::BridgeReady)
        } else if str_eq(kind, "tab-opened") {
            Ok(BridgeEventKind::TabOpened)
        } else if str_eq(kind, "archive-uploaded") {
            Ok(BridgeEventKind::ArchiveUploaded)
        } else if str_eq(kind, "prompt-submitted") {
            Ok(BridgeEventKind::PromptSubmitted)
        } else if str_eq(kind, "tab-progress") {
            Ok(BridgeEventKind::TabProgress)
        } else if str_eq(kind, "tar-discovered") {
            Ok(BridgeEventKind::TarDiscovered)
        } else if str_eq(kind, "download-started") {
            Ok(BridgeEventKind::DownloadStarted)
        } else if str_eq(kind, "download-complete") {
            Ok(BridgeEventKind::DownloadComplete)
        } else if str_eq(kind, "tool-prompt-detected") {
            Ok(BridgeEventKind::ToolPromptDetected)
        } else if str_eq(kind, "prompt-policy-applied") {
            Ok(BridgeEventKind::PromptPolicyApplied)
        } else if str_eq(kind, "rate-limit-detected") {
            Ok(BridgeEventKind::RateLimitDetected)
        } else if str_eq(kind, "generation-stopped") {
            Ok(BridgeEventKind::GenerationStopped)
        } else if str_eq(kind, "tab-closed") {
            Ok(BridgeEventKind::TabClosed)
        } else if str_eq(kind, "bridge-log") {
            Ok(BridgeEventKind::BridgeLog)
        } else if str_eq(kind, "auth-state") {
            Ok(BridgeEventKind::AuthState)
        } else if str_eq(kind, "auth-action-needed") {
            Ok(BridgeEventKind::AuthActionNeeded)
        } else if str_eq(kind, "auth-code-requested") {
            Ok(BridgeEventKind::AuthCodeRequested)
        } else if str_eq(kind, "auth-code-submitted") {
            Ok(BridgeEventKind::AuthCodeSubmitted)
        } else if str_eq(kind, "auth-complete") {
            Ok(BridgeEventKind::AuthComplete)
        } else if str_eq(kind, "auth-failed") {
            Ok(BridgeEventKind::AuthFailed)
        } else if str_eq(kind, "session-expired") {
            Ok(BridgeEventKind::SessionExpired)
        } else if str_eq(kind, "pong") {
            Ok(BridgeEventKind::Pong)
        } else if str_eq(kind, "bridge-shutting-down") {
            Ok(BridgeEventKind::BridgeShuttingDown)
        } else if str_eq(kind, "error") {
            Ok(BridgeEventKind::Error)
        } else {
            Err(ProtocolError::UnknownEvent(String::from_str(kind)))
        }
    }
}

/// No two event kinds share a wire name.
pub proof fn lemma_event_kind_names_distinct(a: BridgeEventKind, b: BridgeEventKind)
    requires
        event_kind_name(a) == event_kind_name(b),
    ensures
        a == b,
{
    reveal_strlit("bridge-ready");
    reveal_strlit("tab-opened");
    reveal_strlit("archive-uploaded");
    reveal_strlit("prompt-submitted");
    reveal_strlit("tab-progress");
    reveal_strlit("tar-discovered");
    reveal_strlit("download-started");
    reveal_strlit("download-complete");
    reveal_strlit("tool-prompt-detected");
    reveal_strlit("prompt-policy-applied");
    reveal_strlit("rate-limit-detected");
    reveal_strlit("generation-stopped");
    reveal_strlit("tab-closed");
    reveal_strlit("bridge-log");
    reveal_strlit("auth-state");
    reveal_strlit("auth-action-needed");
    reveal_strlit("auth-code-requested");
    reveal_strlit("auth-code-submitted");
    reveal_strlit("auth-complete");
    reveal_strlit("auth-failed");
    reveal_strlit("session-expired");
    reveal_strlit("pong");
    reveal_strlit("bridge-shutting-down");
    reveal_strlit("error");
    let na = event_kind_name(a);
    let nb = event_kind_name(b);
    assert(na.len() == nb.len());
    assert(na[4] == nb[4]);
    assert(na[10] == nb[10]);
}

} // verus!
