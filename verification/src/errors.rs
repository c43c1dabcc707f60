//! Errors of orchestrating a run, their messages and their stable codes.
use vstd::prelude::*;
use crate::deploy::{push_signed, signed_decimal};
use crate::text::{decimal, push_decimal, push_str, string_of, strings_chars};

verus! {

/// An I/O error of the standard library.
#[verifier::external_type_specification]
#[verifier::external_body]
pub struct ExIoError(std::io::Error);

/// Why orchestrating a run failed.
#[derive(Debug)]
pub enum OrchestratorError {
    BridgeSpawn(String),
    BridgeExited(Option<i32>),
    HandshakeTimeout(u64),
    Protocol(String),
    Io(std::io::Error),
    Serde(serde_json::Error),
    Tab { tab_id: u16, reason: String },
    Cancelled,
    Config(String),
}

/// The stable code of each error.
pub open spec fn error_code(e: OrchestratorError) -> Seq<char> {
    match e {
        OrchestratorError::BridgeSpawn(_) => "orchestrator-bridge-spawn"@,
        OrchestratorError::BridgeExited(_) => "orchestrator-bridge-exited"@,
        OrchestratorError::HandshakeTimeout(_) => "orchestrator-handshake-timeout"@,
        OrchestratorError::Protocol(_) => "orchestrator-protocol"@,
        OrchestratorError::Io(_) => "orchestrator-io"@,
        OrchestratorError::Serde(_) => "orchestrator-serde"@,
        OrchestratorError::Tab { .. } => "orchestrator-tab"@,
        OrchestratorError::Cancelled => "orchestrator-cancelled"@,
        OrchestratorError::Config(_) => "orchestrator-config"@,
    }
}

/// `Option<i32>` as `{:?}` prints it.
pub open spec fn debug_opt_i32(o: Option<i32>) -> Seq<char> {
    match o {
        Some(c) => "Some("@ + signed_decimal(c as int) + ")"@,
        None => "None"@,
    }
}

/// The message of each error whose parts the library holds as plain
/// values; an I/O or JSON error prints its cause after its prefix.
pub open spec fn error_message(e: OrchestratorError) -> Option<Seq<char>> {
    match e {
        OrchestratorError::BridgeSpawn(m) => Some("bridge spawn failed: "@ + m@),
        OrchestratorError::BridgeExited(c) => Some(
            "bridge exited unexpectedly with status "@ + debug_opt_i32(c),
        ),
        OrchestratorError::HandshakeTimeout(s) => Some(
            "bridge handshake timed out after "@ + decimal(s as nat) + " seconds"@,
        ),
        OrchestratorError::Protocol(m) => Some("bridge protocol error: "@ + m@),
        OrchestratorError::Tab { tab_id, reason } => Some(
            "tab "@ + decimal(tab_id as nat) + " failed: "@ + reason@,
        ),
        OrchestratorError::Cancelled => Some("run cancelled"@),
        OrchestratorError::Config(m) => Some("config error: "@ + m@),
        _ => None,
    }
}

/// The text of an I/O error (its `Display`). Nothing is stated of it.
#[verifier::external_body]
fn io_error_text(e: &std::io::Error) -> String {
    e.to_string()
}

/// The text of a `serde_json` error (its `Display`). Nothing is stated
/// of it.
#[verifier::external_body]
fn json_error_text(e: &serde_json::Error) -> String {
    e.to_string()
}

impl OrchestratorError {
    /// The stable code of the error, for agents and logs.
    pub fn code(&self) -> (r: &'static str)
        ensures
            r@ == error_code(*self),
    {
        match self {
            OrchestratorError::BridgeSpawn(_) => "orchestrator-bridge-spawn",
            OrchestratorError::BridgeExited(_) => "orchestrator-bridge-exited",
            OrchestratorError::HandshakeTimeout(_) => "orchestrator-handshake-timeout",
            OrchestratorError::Protocol(_) => "orchestrator-protocol",
            OrchestratorError::Io(_) => "orchestrator-io",
            OrchestratorError::Serde(_) => "orchestrator-serde",
            OrchestratorError::Tab { .. } => "orchestrator-tab",
            OrchestratorError::Cancelled => "orchestrator-cancelled",
            OrchestratorError::Config(_) => "orchestrator-config",
        }
    }

    /// The message of the error (what `to_string` gives).
    pub fn message(&self) -> (r: String)
        ensures
            error_message(*self) matches Some(m) ==> r@ == m,
            self is Io ==> starts_with_prefix(r@, "io error: "@),
            self is Serde ==> starts_with_prefix(r@, "serde error: "@),
    {
        let mut out: Vec<char> = Vec::new();
        match self {
            OrchestratorError::BridgeSpawn(m) => {
                push_str(&mut out, "bridge spawn failed: ");
                push_str(&mut out, m.as_str());
            },
            OrchestratorError::BridgeExited(c) => {
                push_str(&mut out, "bridge exited unexpectedly with status ");
                match c {
                    Some(code) => {
                        push_str(&mut out, "Some(");
                        push_signed(&mut out, *code);
                        push_str(&mut out, ")");
                    },
                    None => {
                        push_str(&mut out, "None");
                    },
                }
            },
            OrchestratorError::HandshakeTimeout(s) => {
                push_str(&mut out, "bridge handshake timed out after ");
                push_decimal(&mut out, *s);
                push_str(&mut out, " seconds");
            },
            OrchestratorError::Protocol(m) => {
                push_str(&mut out, "bridge protocol error: ");
                push_str(&mut out, m.as_str());
            },
            OrchestratorError::Io(e) => {
                push_str(&mut out, "io error: ");
                let ghost head = out@;
                let t = io_error_text(e);
                push_str(&mut out, t.as_str());
                assert(out@.take(head.len() as int) =~= head);
            },
            OrchestratorError::Serde(e) => {
                push_str(&mut out, "serde error: ");
                let ghost head = out@;
                let t = json_error_text(e);
                push_str(&mut out, t.as_str());
                assert(out@.take(head.len() as int) =~= head);
            },
            OrchestratorError::Tab { tab_id, reason } => {
                push_str(&mut out, "tab ");
                push_decimal(&mut out, *tab_id as u64);
                push_str(&mut out, " failed: ");
                push_str(&mut out, reason.as_str());
            },
            OrchestratorError::Cancelled => {
                push_str(&mut out, "run cancelled");
            },
            OrchestratorError::Config(m) => {
                push_str(&mut out, "config error: ");
                push_str(&mut out, m.as_str());
            },
        }
        string_of(&out)
    }
}

/// Whether `s` begins with `p`.
pub open spec fn starts_with_prefix(s: Seq<char>, p: Seq<char>) -> bool {
    p.len() <= s.len() && s.take(p.len() as int) == p
}

/// An error as reported to agents: its stable code, what was being done,
/// why it failed, what to try next, where to read, and how to retry.
#[derive(Debug, Clone, PartialEq, Eq)]
pub struct AgentErrorReport {
    pub code: String,
    pub purpose: String,
    pub reason: String,
    pub next_steps: Vec<String>,
    pub docs: String,
    pub retry: String,
}

/// An agent error report of `code`, `purpose` and `reason`, with the given
/// hints.
pub fn agent_error_report(
    code: &str,
    purpose: &str,
    reason: String,
    next_steps: &[&str; 3],
    docs: &str,
    retry: &str,
) -> (r: AgentErrorReport)
    ensures
        r.code@ == code@,
        r.purpose@ == purpose@,
        r.reason == reason,
        strings_chars(r.next_steps@) == seq![next_steps[0]@, next_steps[1]@, next_steps[2]@],
        r.docs@ == docs@,
        r.retry@ == retry@,
{
    let steps = vec![
        String::from_str(next_steps[0]),
        String::from_str(next_steps[1]),
        String::from_str(next_steps[2]),
    ];
    assert(strings_chars(steps@) =~= seq![next_steps[0]@, next_steps[1]@, next_steps[2]@]);
    AgentErrorReport {
        code: String::from_str(code),
        purpose: String::from_str(purpose),
        reason,
        next_steps: steps,
        docs: String::from_str(docs),
        retry: String::from_str(retry),
    }
}

impl OrchestratorError {
    /// The error as reported to agents: its code and message, with the
    /// orchestrator's hints.
    pub fn agent_error(&self) -> (r: AgentErrorReport)
        ensures
            r.code@ == error_code(*self),
            r.purpose@ == "coordinate browser bridge and run lifecycle"@,
            error_message(*self) matches Some(m) ==> r.reason@ == m,
            self is Io ==> starts_with_prefix(r.reason@, "io error: "@),
            self is Serde ==> starts_with_prefix(r.reason@, "serde error: "@),
            strings_chars(r.next_steps@) == seq![
                "check bridge command and environment config"@,
                "inspect NDJSON protocol frames"@,
                "rerun orchestrator bridge tests with bounded queues"@,
            ],
            r.docs@ == "docs/testing.md"@,
            r.retry@ == "rerun `cargo test -p jailgun-orchestrator`"@,
    {
        agent_error_report(
            self.code(),
            "coordinate browser bridge and run lifecycle",
            self.message(),
            &[
                "check bridge command and environment config",
                "inspect NDJSON protocol frames",
                "rerun orchestrator bridge tests with bounded queues",
            ],
            "docs/testing.md",
            "rerun `cargo test -p jailgun-orchestrator`",
        )
    }
}

} // verus!
