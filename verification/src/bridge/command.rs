//! Commands the orchestrator sends to the bridge, and their payloads.
use vstd::prelude::*;
use crate::bridge::protocol::ProtocolError;
use crate::text::str_eq;

verus! {

#[derive(Debug, Clone, PartialEq, Eq)]
pub struct HelloPayload {
    pub orchestrator_version: String,
    pub protocol_version: u8,
    pub capabilities: Vec<String>,
}

#[derive(Debug, Clone, PartialEq, Eq)]
pub struct OpenTabPayload {
    pub chat_url: String,
    pub model: String,
    pub profile_dir: Option<String>,
}

#[derive(Debug, Clone, PartialEq, Eq)]
pub struct UploadArchivePayload {
    pub repo_url: String,
    pub ref_name: String,
    pub prefix: String,
    pub archive_filename: String,
    pub local_archive_path: Option<String>,
    pub tmp_parent: Option<String>,
    pub delete_after_upload: bool,
    pub confirm_selectors: Vec<String>,
    pub timeout_ms: u64,
}

/// Git ref uploaded when a request names none.
pub fn default_ref_name() -> (r: String)
    ensures
        r@ == "HEAD"@,
{
    String::from_str("HEAD")
}

/// Whether the bridge deletes the temporary archive after the upload,
/// when a request does not say.
pub fn default_delete_after_upload() -> (r: bool)
    ensures
        r,
{
    true
}

/// Upload timeout in milliseconds when a request names none.
pub fn default_upload_timeout_ms() -> (r: u64)
    ensures
        r == 45000,
{
    45_000
}

#[derive(Debug, Clone, PartialEq, Eq)]
pub struct SubmitPromptPayload {
    pub prompt: String,
    pub submit_timeout_ms: u64,
}

#[derive(Debug, Clone, PartialEq, Eq)]
pub struct MonitorTabPayload {
    pub completion_check_ms: u64,
    pub telemetry_tick_ms: u64,
}

#[derive(Debug, Clone, PartialEq, Eq)]
pub struct CloseTabPayload {
    pub run_before_unload: bool,
}

#[derive(Debug, Clone, PartialEq, Eq)]
pub struct ApproveOrDenyPayload {
    pub signature: String,
    pub decision: String,
    pub reason: Option<String>,
}

#[derive(Debug, Clone, PartialEq, Eq)]
pub struct AuthStatusPayload {
    pub chat_url: String,
    pub profile_dir: Option<String>,
}

#[derive(Debug, Clone, PartialEq, Eq)]
pub struct AuthBeginPayload {
    pub chat_url: String,
    pub email_hint: String,
    pub prefer_email_code: bool,
    pub profile_dir: Option<String>,
}

#[derive(Debug, Clone, PartialEq, Eq)]
pub struct AuthSelectEmailCodePayload {
    pub profile_dir: Option<String>,
}

#[derive(Debug, Clone, PartialEq, Eq)]
pub struct AuthSubmitCodePayload {
    pub code: String,
    pub profile_dir: Option<String>,
}

#[derive(Debug, Clone, PartialEq, Eq)]
pub struct AuthScreenshotPayload {
    pub path: String,
    pub profile_dir: Option<String>,
}

#[derive(Debug, Clone, PartialEq, Eq)]
pub struct ShutdownPayload {
    pub drain_timeout_ms: u64,
}

/// A command for the bridge.
#[derive(Debug, Clone, PartialEq, Eq)]
pub enum BridgeCommand {
    Hello(HelloPayload),
    OpenTab(OpenTabPayload),
    UploadArchive(UploadArchivePayload),
    SubmitPrompt(SubmitPromptPayload),
    MonitorTab(MonitorTabPayload),
    StopGeneration,
    CloseTab(CloseTabPayload),
    ApproveOrDeny(ApproveOrDenyPayload),
    AuthStatus(AuthStatusPayload),
    AuthBegin(AuthBeginPayload),
    AuthSelectEmailCode(AuthSelectEmailCodePayload),
    AuthSubmitCode(AuthSubmitCodePayload),
    AuthScreenshot(AuthScreenshotPayload),
    AuthCancel,
    Shutdown(ShutdownPayload),
    Ping,
}

/// Which command a line carries, without its payload.
#[derive(Debug, Clone, Copy, PartialEq, Eq)]
pub enum BridgeCommandKind {
    Hello,
    OpenTab,
    UploadArchive,
    SubmitPrompt,
    MonitorTab,
    StopGeneration,
    CloseTab,
    ApproveOrDeny,
    AuthStatus,
    AuthBegin,
    AuthSelectEmailCode,
    AuthSubmitCode,
    AuthScreenshot,
    AuthCancel,
    Shutdown,
    Ping,
}

/// The wire name of each command kind.
pub open spec fn command_kind_name(k: BridgeCommandKind) -> Seq<char> {
    match k {
        BridgeCommandKind::Hello => "hello"@,
        BridgeCommandKind::OpenTab => "open-tab"@,
        BridgeCommandKind::UploadArchive => "upload-archive"@,
        BridgeCommandKind::SubmitPrompt => "submit-prompt"@,
        BridgeCommandKind::MonitorTab => "monitor-tab"@,
        BridgeCommandKind::StopGeneration => "stop-generation"@,
        BridgeCommandKind::CloseTab => "close-tab"@,
        BridgeCommandKind::ApproveOrDeny => "approve-or-deny"@,
        BridgeCommandKind::AuthStatus => "auth-status"@,
        BridgeCommandKind::AuthBegin => "auth-begin"@,
        BridgeCommandKind::AuthSelectEmailCode => "auth-select-email-code"@,
        BridgeCommandKind::AuthSubmitCode => "auth-submit-code"@,
        BridgeCommandKind::AuthScreenshot => "auth-screenshot"@,
        BridgeCommandKind::AuthCancel => "auth-cancel"@,
        BridgeCommandKind::Shutdown => "shutdown"@,
        BridgeCommandKind::Ping => "ping"@,
    }
}

/// The kind of a command.
pub open spec fn command_kind_of(c: BridgeCommand) -> BridgeCommandKind {
    match c {
        BridgeCommand::Hello(_) => BridgeCommandKind::Hello,
        BridgeCommand::OpenTab(_) => BridgeCommandKind::OpenTab,
        BridgeCommand::UploadArchive(_) => BridgeCommandKind::UploadArchive,
        BridgeCommand::SubmitPrompt(_) => BridgeCommandKind::SubmitPrompt,
        BridgeCommand::MonitorTab(_) => BridgeCommandKind::MonitorTab,
        BridgeCommand::StopGeneration => BridgeCommandKind::StopGeneration,
        BridgeCommand::CloseTab(_) => BridgeCommandKind::CloseTab,
        BridgeCommand::ApproveOrDeny(_) => BridgeCommandKind::ApproveOrDeny,
        BridgeCommand::AuthStatus(_) => BridgeCommandKind::AuthStatus,
        BridgeCommand::AuthBegin(_) => BridgeCommandKind::AuthBegin,
        BridgeCommand::AuthSelectEmailCode(_) => BridgeCommandKind::AuthSelectEmailCode,
        BridgeCommand::AuthSubmitCode(_) => BridgeCommandKind::AuthSubmitCode,
        BridgeCommand::AuthScreenshot(_) => BridgeCommandKind::AuthScreenshot,
        BridgeCommand::AuthCancel => BridgeCommandKind::AuthCancel,
        BridgeCommand::Shutdown(_) => BridgeCommandKind::Shutdown,
        BridgeCommand::Ping => BridgeCommandKind::Ping,
    }
}

impl BridgeCommand {
    /// The wire name of this command.
    pub fn kind(&self) -> (r: &'static str)
        ensures
            r@ == command_kind_name(command_kind_of(*self)),
    {
        match self {
            BridgeCommand::Hello(_) => "hello",
            BridgeCommand::OpenTab(_) => "open-tab",
            BridgeCommand::UploadArchive(_) => "upload-archive",
            BridgeCommand::SubmitPrompt(_) => "submit-prompt",
            BridgeCommand::MonitorTab(_) => "monitor-tab",
            BridgeCommand::StopGeneration => "stop-generation",
            BridgeCommand::CloseTab(_) => "close-tab",
            BridgeCommand::ApproveOrDeny(_) => "approve-or-deny",
            BridgeCommand::AuthStatus(_) => "auth-status",
            BridgeCommand::AuthBegin(_) => "auth-begin",
            BridgeCommand::AuthSelectEmailCode(_) => "auth-select-email-code",
            BridgeCommand::AuthSubmitCode(_) => "auth-submit-code",
            BridgeCommand::AuthScreenshot(_) => "auth-screenshot",
            BridgeCommand::AuthCancel => "auth-cancel",
            BridgeCommand::Shutdown(_) => "shutdown",
            BridgeCommand::Ping => "ping",
        }
    }
}

impl BridgeCommandKind {
    /// The command kind a wire name denotes; an unknown name is refused.
    pub fn from_name(kind: &str) -> (r: Result<BridgeCommandKind, ProtocolError>)
        ensures
            r matches Ok(k) ==> command_kind_name(k) == kind@,
            r is Err ==> (forall|k: BridgeCommandKind| command_kind_name(k) != kind@),
            r matches Err(e) ==> e matches ProtocolError::UnknownCommand(name) && name@ == kind@,
    {
        if str_eq(kind, "hello") {
            Ok(BridgeCommandKind::Hello)
        } else if str_eq(kind, "open-tab") {
            Ok(BridgeCommandKind::OpenTab)
        } else if str_eq(kind, "upload-archive") {
            Ok(BridgeCommandKind::UploadArchive)
        } else if str_eq(kind, "submit-prompt") {
            Ok(BridgeCommandKind::SubmitPrompt)
        } else if str_eq(kind, "monitor-tab") {
            Ok(BridgeCommandKind::MonitorTab)
        } else if str_eq(kind, "stop-generation") {
            Ok(BridgeCommandKind::StopGeneration)
        } else if str_eq(kind, "close-tab") {
            Ok(BridgeCommandKind::CloseTab)
        } else if str_eq(kind, "approve-or-deny") {
            Ok(BridgeCommandKind::ApproveOrDeny)
        } else if str_eq(kind, "auth-status") {
            Ok(BridgeCommandKind::AuthStatus)
        } else if str_eq(kind, "auth-begin") {
            Ok(BridgeCommandKind::AuthBegin)
        } else if str_eq(kind, "auth-select-email-code") {
            Ok(BridgeCommandKind::AuthSelectEmailCode)
        } else if str_eq(kind, "auth-submit-code") {
            Ok(BridgeCommandKind::AuthSubmitCode)
        } else if str_eq(kind, "auth-screenshot") {
            Ok(BridgeCommandKind::AuthScreenshot)
        } else if str_eq(kind, "auth-cancel") {
            Ok(BridgeCommandKind::AuthCancel)
        } else if str_eq(kind, "shutdown") {
            Ok(BridgeCommandKind::Shutdown)
        } else if str_eq(kind, "ping") {
            Ok(BridgeCommandKind::Ping)
        } else {
            proof {
                assert forall|k: BridgeCommandKind| command_kind_name(k) != kind@ by {
                    match k {
                        _ => {},
                    }
                }
            }
            Err(ProtocolError::UnknownCommand(String::from_str(kind)))
        }
    }
}

/// No two command kinds share a wire name.
pub proof fn lemma_command_kind_names_distinct(a: BridgeCommandKind, b: BridgeCommandKind)
    requires
        command_kind_name(a) == command_kind_name(b),
    ensures
        a == b,
{
    reveal_strlit("hello");
    reveal_strlit("open-tab");
    reveal_strlit("upload-archive");
    reveal_strlit("submit-prompt");
    reveal_strlit("monitor-tab");
    reveal_strlit("stop-generation");
    reveal_strlit("close-tab");
    reveal_strlit("approve-or-deny");
    reveal_strlit("auth-status");
    reveal_strlit("auth-begin");
    reveal_strlit("auth-select-email-code");
    reveal_strlit("auth-submit-code");
    reveal_strlit("auth-screenshot");
    reveal_strlit("auth-cancel");
    reveal_strlit("shutdown");
    reveal_strlit("ping");
    let na = command_kind_name(a);
    let nb = command_kind_name(b);
    assert(na.len() == nb.len());
    assert(na[0] == nb[0]);
    assert(na[5] == nb[5]);
}

} // verus!
