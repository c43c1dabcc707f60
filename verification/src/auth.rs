//! Signing a browser account in: the bridge session the server drives for
//! one account, the commands it sends, and what the bridge's answers say
//! of the account.
use vstd::prelude::*;
use crate::accounts::{BrowserAccount, BrowserAccountStatus};
use crate::bridge::command::{
    AuthBeginPayload, AuthStatusPayload, AuthSubmitCodePayload, BridgeCommand, HelloPayload,
    ShutdownPayload,
};
use crate::bridge::event::BridgeEvent;
use crate::bridge::protocol::PROTOCOL_VERSION;
use crate::fields::Fields;
use crate::text::{
    chars_of, decimal, push_decimal, push_str, string_of, trim, vec_trim, words, split_whitespace,
    strings_chars,
};

verus! {

/// What the server asks of an account's bridge session.
#[derive(Debug, Clone, Copy, PartialEq, Eq, Structural)]
pub enum AuthSessionMode {
    /// Report whether the account is signed in.
    Status,
    /// Start signing the account in.
    Begin,
}

/// The run id the events of an account's session carry.
pub fn auth_run_id(account_id: &str) -> (r: String)
    ensures
        r@ == "auth-"@ + account_id@,
{
    let mut out: Vec<char> = Vec::new();
    push_str(&mut out, "auth-");
    push_str(&mut out, account_id);
    string_of(&out)
}

/// The handshake the server opens a session with.
pub fn auth_hello(orchestrator_version: String) -> (r: BridgeCommand)
    ensures
        r matches BridgeCommand::Hello(p) && p.orchestrator_version == orchestrator_version
            && p.protocol_version == PROTOCOL_VERSION && strings_chars(p.capabilities@) == seq![
            "auth-control-plane"@,
        ],
{
    let mut capabilities: Vec<String> = Vec::new();
    capabilities.push(String::from_str("auth-control-plane"));
    assert(strings_chars(capabilities@) =~= seq!["auth-control-plane"@]);
    BridgeCommand::Hello(
        HelloPayload { orchestrator_version, protocol_version: PROTOCOL_VERSION, capabilities },
    )
}

/// The command of a session: a status check, or the start of a sign-in
/// that prefers an emailed code; both on the account's profile.
pub fn auth_command(chat_url: String, account: &BrowserAccount, mode: AuthSessionMode) -> (r:
    BridgeCommand)
    ensures
        mode == AuthSessionMode::Status ==> (r matches BridgeCommand::AuthStatus(p) && p.chat_url
            == chat_url && p.profile_dir == Some(account.profile_dir)),
        mode == AuthSessionMode::Begin ==> (r matches BridgeCommand::AuthBegin(p) && p.chat_url
            == chat_url && p.email_hint == account.email_hint && p.prefer_email_code
            && p.profile_dir == Some(account.profile_dir)),
{
    match mode {
        AuthSessionMode::Status => BridgeCommand::AuthStatus(
            AuthStatusPayload { chat_url, profile_dir: Some(account.profile_dir.clone()) },
        ),
        AuthSessionMode::Begin => BridgeCommand::AuthBegin(
            AuthBeginPayload {
                chat_url,
                email_hint: account.email_hint.clone(),
                prefer_email_code: true,
                profile_dir: Some(account.profile_dir.clone()),
            },
        ),
    }
}

/// The status a started session answers with.
pub fn auth_started_status(mode: AuthSessionMode) -> (r: &'static str)
    ensures
        r@ == match mode {
            AuthSessionMode::Status => "started"@,
            AuthSessionMode::Begin => "auth-started"@,
        },
{
    match mode {
        AuthSessionMode::Status => "started",
        AuthSessionMode::Begin => "auth-started",
    }
}

/// The command that ends a session, leaving the bridge a second to drain.
pub fn auth_shutdown() -> (r: BridgeCommand)
    ensures
        r == BridgeCommand::Shutdown(ShutdownPayload { drain_timeout_ms: 1000 }),
{
    BridgeCommand::Shutdown(ShutdownPayload { drain_timeout_ms: 1000 })
}

/// An emailed sign-in code, trimmed; a missing or blank code is refused.
pub fn auth_code(code: Option<String>) -> (r: Option<String>)
    ensures
        match code {
            Some(c) => if trim(c@).len() > 0 {
                r matches Some(t) && t@ == trim(c@)
            } else {
                r is None
            },
            None => r is None,
        },
{
    match code {
        Some(c) => {
            let t = vec_trim(&chars_of(c.as_str()));
            if t.len() > 0 {
                Some(string_of(&t))
            } else {
                None
            }
        },
        None => None,
    }
}

/// The command that submits a sign-in code on the account's profile.
pub fn submit_code_command(code: String, account: &BrowserAccount) -> (r: BridgeCommand)
    ensures
        r == BridgeCommand::AuthSubmitCode(
            AuthSubmitCodePayload { code, profile_dir: Some(account.profile_dir) },
        ),
{
    BridgeCommand::AuthSubmitCode(
        AuthSubmitCodePayload { code, profile_dir: Some(account.profile_dir.clone()) },
    )
}

/// The environment of an account's bridge: its directories, its CDP
/// endpoint, and a pool and port list of just this account.
pub open spec fn account_bridge_env(a: BrowserAccount) -> Map<Seq<char>, Seq<char>> {
    map![
        "JAILGUN_CHROME_PROFILE_DIR"@ => a.profile_dir@,
        "JAILGUN_CHROME_STATE_DIR"@ => a.state_dir@,
        "JAILGUN_DOWNLOADS_DIR"@ => a.downloads_dir@,
        "JAILGUN_CDP_HOST"@ => "127.0.0.1"@,
        "JAILGUN_CDP_PORT"@ => decimal(a.cdp_port as nat),
        "JAILGUN_CHROME_PROFILE_POOL"@ => a.id@ + "="@ + a.profile_dir@,
        "JAILGUN_CHROME_PROFILE_PORTS"@ => a.id@ + "="@ + decimal(a.cdp_port as nat),
    ]
}

/// The bridge environment of an account's sign-in session.
pub fn browser_bridge_env(account: &BrowserAccount) -> (r: Fields)
    ensures
        r@ == account_bridge_env(*account),
{
    let mut env = Fields::new();
    env.insert(String::from_str("JAILGUN_CHROME_PROFILE_DIR"), account.profile_dir.clone());
    env.insert(String::from_str("JAILGUN_CHROME_STATE_DIR"), account.state_dir.clone());
    env.insert(String::from_str("JAILGUN_DOWNLOADS_DIR"), account.downloads_dir.clone());
    env.insert(String::from_str("JAILGUN_CDP_HOST"), String::from_str("127.0.0.1"));
    let mut port: Vec<char> = Vec::new();
    push_decimal(&mut port, account.cdp_port as u64);
    env.insert(String::from_str("JAILGUN_CDP_PORT"), string_of(&port));
    let mut pool: Vec<char> = Vec::new();
    push_str(&mut pool, account.id.as_str());
    push_str(&mut pool, "=");
    push_str(&mut pool, account.profile_dir.as_str());
    env.insert(String::from_str("JAILGUN_CHROME_PROFILE_POOL"), string_of(&pool));
    let mut ports: Vec<char> = Vec::new();
    push_str(&mut ports, account.id.as_str());
    push_str(&mut ports, "=");
    push_decimal(&mut ports, account.cdp_port as u64);
    env.insert(String::from_str("JAILGUN_CHROME_PROFILE_PORTS"), string_of(&ports));
    assert(env@ =~= account_bridge_env(*account));
    env
}

/// The command that starts the control-plane bridge: the words of
/// `JAILGUN_BRIDGE_CMD` (its value is `env_command`, if set and readable)
/// unless there are none, else `node` on the workspace's bridge script when
/// it exists.
pub open spec fn control_bridge_command_spec(
    env_command: Option<Seq<char>>,
    script: Option<Seq<char>>,
) -> Result<Seq<Seq<char>>, Seq<char>> {
    if env_command matches Some(v) && words(v).len() > 0 {
        Ok(words(env_command->0))
    } else {
        match script {
            Some(p) => Ok(seq!["node"@, p]),
            None => Err("JAILGUN_BRIDGE_CMD is required for browser control-plane endpoints"@),
        }
    }
}

/// `script` is the workspace's bridge script when it exists on disk.
pub fn control_bridge_command(env_command: Option<String>, script: Option<String>) -> (r: Result<
    Vec<String>,
    String,
>)
    ensures
        match control_bridge_command_spec(crate::text::opt_chars(env_command), crate::text::opt_chars(script)) {
            Ok(ws) => (r matches Ok(v) && strings_chars(v@) == ws),
            Err(e) => (r matches Err(m) && m@ == e),
        },
{
    if let Some(v) = &env_command {
        let parts = split_whitespace(v.as_str());
        if parts.len() > 0 {
            return Ok(parts);
        }
    }
    match script {
        Some(p) => {
            let mut out: Vec<String> = Vec::new();
            out.push(String::from_str("node"));
            let ghost pv = p@;
            out.push(p);
            assert(strings_chars(out@) =~= seq!["node"@, pv]);
            Ok(out)
        },
        None => Err(
            String::from_str("JAILGUN_BRIDGE_CMD is required for browser control-plane endpoints"),
        ),
    }
}

/// What a bridge event says of the account's status, and whether it was
/// verified just now: ready when signed in, needing sign-in when asked for
/// a code or expired, needing a person at the browser when the bridge
/// cannot go on alone, degraded when sign-in failed otherwise.
pub open spec fn auth_status_spec(e: BridgeEvent) -> Option<(BrowserAccountStatus, bool)> {
    match e {
        BridgeEvent::AuthState(p) => if p.state@ == "ready"@ {
            Some((BrowserAccountStatus::Ready, true))
        } else if p.state@ == "auth-required"@ || p.state@ == "code-requested"@ || p.state@
            == "session-expired"@ {
            Some((BrowserAccountStatus::AuthRequired, false))
        } else {
            None
        },
        BridgeEvent::AuthComplete(_) => Some((BrowserAccountStatus::Ready, true)),
        BridgeEvent::AuthActionNeeded(_) => Some((BrowserAccountStatus::ManualBrowserRequired, false)),
        BridgeEvent::AuthFailed(p) => if p.manual_browser_required {
            Some((BrowserAccountStatus::ManualBrowserRequired, false))
        } else {
            Some((BrowserAccountStatus::Degraded, false))
        },
        BridgeEvent::SessionExpired(_) => Some((BrowserAccountStatus::AuthRequired, false)),
        _ => None,
    }
}

/// The account status a bridge event sets, and whether the account is to
/// be stamped as verified now.
pub fn auth_status_for_event(event: &BridgeEvent) -> (r: Option<(BrowserAccountStatus, bool)>)
    ensures
        r == auth_status_spec(*event),
{
    match event {
        BridgeEvent::AuthState(p) => {
            let s = p.state.as_str();
            if crate::text::str_eq(s, "ready") {
                Some((BrowserAccountStatus::Ready, true))
            } else if crate::text::str_eq(s, "auth-required") || crate::text::str_eq(
                s,
                "code-requested",
            ) || crate::text::str_eq(s, "session-expired") {
                Some((BrowserAccountStatus::AuthRequired, false))
            } else {
                None
            }
        },
        BridgeEvent::AuthComplete(_) => Some((BrowserAccountStatus::Ready, true)),
        BridgeEvent::AuthActionNeeded(_) => Some((BrowserAccountStatus::ManualBrowserRequired, false)),
        BridgeEvent::AuthFailed(p) => if p.manual_browser_required {
            Some((BrowserAccountStatus::ManualBrowserRequired, false))
        } else {
            Some((BrowserAccountStatus::Degraded, false))
        },
        BridgeEvent::SessionExpired(_) => Some((BrowserAccountStatus::AuthRequired, false)),
        _ => None,
    }
}

/// What waiting for the bridge to be ready does with one event.
#[derive(Debug, Clone, PartialEq, Eq)]
pub enum ReadyStep {
    /// The bridge is ready.
    Ready,
    /// The bridge failed to start, for this reason.
    Failed(String),
    /// Any other event: recorded, and the wait goes on.
    Continue,
}

/// One event while waiting for the bridge to be ready.
pub fn ready_step(event: &BridgeEvent) -> (r: ReadyStep)
    ensures
        event is BridgeReady ==> r == ReadyStep::Ready,
        event matches BridgeEvent::Error(p) ==> (r matches ReadyStep::Failed(m) && m@
            == "chrome-bridge startup failed: "@ + p.message@),
        !(event is BridgeReady) && !(event is Error) ==> r == ReadyStep::Continue,
{
    match event {
        BridgeEvent::BridgeReady(_) => ReadyStep::Ready,
        BridgeEvent::Error(p) => {
            let mut m: Vec<char> = Vec::new();
            push_str(&mut m, "chrome-bridge startup failed: ");
            push_str(&mut m, p.message.as_str());
            ReadyStep::Failed(string_of(&m))
        },
        _ => ReadyStep::Continue,
    }
}

} // verus!
