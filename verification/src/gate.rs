//! Who may use the server's control surfaces: each needs the configured
//! token given back, in the `x-jailgun-token` header (or, for the event
//! stream, in the query).
use vstd::prelude::*;
use crate::errors::{agent_error_report, AgentErrorReport};
use crate::snapshot::{find_run, run_position, runs_view, RunSnapshot};
use crate::support::{default_run_id, uuid_v4_text};
use crate::text::{chars_of, opt_chars, str_eq, strings_chars};

verus! {

/// Why a request was refused.
#[derive(Debug, Clone, Copy, PartialEq, Eq, Structural)]
pub enum Denial {
    /// The server has no token configured, so the surface is closed.
    TokenRequired,
    /// The token given is missing or not the configured one.
    Unauthorized,
}

/// Whether `provided` is the configured token.
pub open spec fn token_ok(configured: Option<Seq<char>>, provided: Option<Seq<char>>) -> bool {
    configured is Some && provided == configured
}

/// The answer of a surface guarded by the header token.
pub open spec fn header_gate(configured: Option<Seq<char>>, provided: Option<Seq<char>>) -> Result<
    (),
    Denial,
> {
    if configured is None {
        Err(Denial::TokenRequired)
    } else if token_ok(configured, provided) {
        Ok(())
    } else {
        Err(Denial::Unauthorized)
    }
}

fn same_token(expected: &str, provided: &Option<String>) -> (r: bool)
    ensures
        r == (provided matches Some(p) && p@ == expected@),
{
    match provided {
        Some(p) => str_eq(p.as_str(), expected),
        None => false,
    }
}

/// Browser control (and the health check): the header must carry the
/// configured token.
pub fn browser_write_access(configured: &Option<String>, provided: &Option<String>) -> (r: Result<
    (),
    Denial,
>)
    ensures
        r == header_gate(opt_chars(*configured), opt_chars(*provided)),
{
    match configured {
        None => Err(Denial::TokenRequired),
        Some(expected) => if same_token(expected.as_str(), provided) {
            Ok(())
        } else {
            Err(Denial::Unauthorized)
        },
    }
}

/// The error code a browser-control refusal answers with.
pub fn browser_denial_code(d: Denial) -> (r: &'static str)
    ensures
        r@ == match d {
            Denial::TokenRequired => "browser-control-token-required"@,
            Denial::Unauthorized => "browser-control-unauthorized"@,
        },
{
    match d {
        Denial::TokenRequired => "browser-control-token-required",
        Denial::Unauthorized => "browser-control-unauthorized",
    }
}

/// The error code an event-stream refusal answers with.
pub fn websocket_denial_code(d: Denial) -> (r: &'static str)
    ensures
        r@ == match d {
            Denial::TokenRequired => "websocket-token-required"@,
            Denial::Unauthorized => "websocket-unauthorized"@,
        },
{
    match d {
        Denial::TokenRequired => "websocket-token-required",
        Denial::Unauthorized => "websocket-unauthorized",
    }
}

/// The HTTP status of a refusal: unavailable without a token, else
/// unauthorized.
pub fn denial_status(d: Denial) -> (r: u16)
    ensures
        r == match d {
            Denial::TokenRequired => 503u16,
            Denial::Unauthorized => 401u16,
        },
{
    match d {
        Denial::TokenRequired => 503,
        Denial::Unauthorized => 401,
    }
}

/// The token the event stream's query gives: `token`, else
/// `jailgun_token`, each only when not empty.
pub open spec fn query_token(token: Option<Seq<char>>, jailgun_token: Option<Seq<char>>) -> Option<
    Seq<char>,
> {
    if token matches Some(t) && t.len() > 0 {
        token
    } else if jailgun_token matches Some(t) && t.len() > 0 {
        jailgun_token
    } else {
        None
    }
}

fn nonempty(o: &Option<String>) -> (r: bool)
    ensures
        r == (o matches Some(t) && t@.len() > 0),
{
    match o {
        Some(t) => chars_of(t.as_str()).len() > 0,
        None => false,
    }
}

/// The event stream: the header or the query must carry the configured
/// token.
pub fn websocket_access(
    configured: &Option<String>,
    header: &Option<String>,
    token: &Option<String>,
    jailgun_token: &Option<String>,
) -> (r: Result<(), Denial>)
    ensures
        r == if configured is None {
            Err(Denial::TokenRequired)
        } else if token_ok(opt_chars(*configured), opt_chars(*header)) || token_ok(
            opt_chars(*configured),
            query_token(opt_chars(*token), opt_chars(*jailgun_token)),
        ) {
            Ok(())
        } else {
            Err(Denial::Unauthorized)
        },
{
    let expected = match configured {
        None => {
            return Err(Denial::TokenRequired);
        },
        Some(e) => e,
    };
    let from_query = if nonempty(token) {
        token
    } else if nonempty(jailgun_token) {
        jailgun_token
    } else {
        &None
    };
    let query_ok = match from_query {
        Some(t) => str_eq(t.as_str(), expected.as_str()),
        None => false,
    };
    if same_token(expected.as_str(), header) || query_ok {
        Ok(())
    } else {
        Err(Denial::Unauthorized)
    }
}

/// Why a run was not started: an HTTP status, a stable code and a reason.
#[derive(Debug, Clone, PartialEq, Eq)]
pub struct RunRefusal {
    pub status: u16,
    pub code: String,
    pub reason: String,
}

/// A refusal taken by its status, code and reason.
pub open spec fn refusal_view(r: RunRefusal) -> (u16, Seq<char>, Seq<char>) {
    (r.status, r.code@, r.reason@)
}

fn refusal(status: u16, code: &str, reason: &str) -> (r: RunRefusal)
    ensures
        refusal_view(r) == (status, code@, reason@),
{
    RunRefusal { status, code: String::from_str(code), reason: String::from_str(reason) }
}

/// A refused run as reported to the agent that asked for it.
pub fn refusal_report(refusal: RunRefusal) -> (r: AgentErrorReport)
    ensures
        r.code@ == refusal.code@,
        r.purpose@ == "start a Jailgun agent run"@,
        r.reason == refusal.reason,
        strings_chars(r.next_steps@) == seq![
            "verify the live server token and request body"@,
            "check the configured prompt file path"@,
            "run the mapped rust test lane if the failure persists"@,
        ],
        r.docs@ == "docs/testing.md"@,
        r.retry@ == "rerun the agent request with a valid prompt file and token"@,
{
    agent_error_report(
        refusal.code.as_str(),
        "start a Jailgun agent run",
        refusal.reason,
        &[
            "verify the live server token and request body",
            "check the configured prompt file path",
            "run the mapped rust test lane if the failure persists",
        ],
        "docs/testing.md",
        "rerun the agent request with a valid prompt file and token",
    )
}

/// Who may start a run: the server must be live, have a token, and be
/// given it.
pub open spec fn run_gate(live: bool, configured: Option<Seq<char>>, provided: Option<Seq<char>>) -> Option<
    (u16, Seq<char>, Seq<char>),
> {
    if !live {
        Some(
            (
                503u16,
                "agent-run-unavailable"@,
                "live mode is required to start server-side runs"@,
            ),
        )
    } else if configured is None {
        Some(
            (
                503u16,
                "agent-run-unavailable"@,
                "x-jailgun-token is required when run ingestion is enabled"@,
            ),
        )
    } else if !token_ok(configured, provided) {
        Some(
            (
                401u16,
                "agent-run-unauthorized"@,
                "x-jailgun-token did not match the configured token"@,
            ),
        )
    } else {
        None
    }
}

/// Whether a request may start a run, or the refusal it gets.
pub fn agent_run_access(live: bool, configured: &Option<String>, provided: &Option<String>) -> (r:
    Result<(), RunRefusal>)
    ensures
        match run_gate(live, opt_chars(*configured), opt_chars(*provided)) {
            Some(v) => (r matches Err(e) && refusal_view(e) == v),
            None => r is Ok,
        },
{
    if !live {
        return Err(
            refusal(
                503,
                "agent-run-unavailable",
                "live mode is required to start server-side runs",
            ),
        );
    }
    match configured {
        None => Err(
            refusal(
                503,
                "agent-run-unavailable",
                "x-jailgun-token is required when run ingestion is enabled",
            ),
        ),
        Some(expected) => if same_token(expected.as_str(), provided) {
            Ok(())
        } else {
            Err(
                refusal(
                    401,
                    "agent-run-unauthorized",
                    "x-jailgun-token did not match the configured token",
                ),
            )
        },
    }
}

/// A request is refused as invalid with the parser's or preparer's reason.
pub fn invalid_run_request(reason: String) -> (r: RunRefusal)
    ensures
        refusal_view(r) == (400u16, "agent-run-invalid"@, reason@),
{
    RunRefusal { status: 400, code: String::from_str("agent-run-invalid"), reason }
}

/// The id of a new run: the one asked for, else a fresh `run-<uuid>`; an
/// id already on the board is refused, so a fresh id is refused only when
/// the draw hit a run already there.
pub fn admit_run_id(requested: Option<String>, runs: &Vec<RunSnapshot>) -> (r: Result<
    String,
    RunRefusal,
>)
    ensures
        requested matches Some(id) ==> match r {
            Ok(s) => s == id && run_position(runs_view(runs@), id@) is None,
            Err(e) => run_position(runs_view(runs@), id@) is Some && refusal_view(e) == (
                409u16,
                "agent-run-conflict"@,
                "run_id already exists"@,
            ),
        },
        requested is None ==> match r {
            Ok(s) => s@.len() == 40 && s@.take(4) == "run-"@ && uuid_v4_text(s@.skip(4))
                && run_position(runs_view(runs@), s@) is None,
            Err(e) => refusal_view(e) == (409u16, "agent-run-conflict"@, "run_id already exists"@),
        },
        requested is None && r is Err ==> exists|s: Seq<char>|
            #![trigger run_position(runs_view(runs@), s)]
            s.len() == 40 && s.take(4) == "run-"@ && uuid_v4_text(s.skip(4)) && run_position(
                runs_view(runs@),
                s,
            ) is Some,
        requested is None && runs@.len() == 0 ==> r is Ok,
{
    let run_id = match requested {
        Some(id) => id,
        None => default_run_id(),
    };
    match find_run(runs, run_id.as_str()) {
        Some(_) => Err(refusal(409, "agent-run-conflict", "run_id already exists")),
        None => Ok(run_id),
    }
}

/// A run whose output files already exist is refused.
pub fn check_output_files(summary_exists: bool, events_exist: bool) -> (r: Result<(), RunRefusal>)
    ensures
        r is Ok <==> !summary_exists && !events_exist,
        r matches Err(e) ==> refusal_view(e) == (
            409u16,
            "agent-run-conflict"@,
            "run_id output files already exist"@,
        ),
{
    if summary_exists || events_exist {
        Err(refusal(409, "agent-run-conflict", "run_id output files already exist"))
    } else {
        Ok(())
    }
}

/// On a live server, starting runs and controlling browsers are open to
/// exactly the same requests.
pub proof fn lemma_run_gate_matches_browser_gate(
    configured: Option<Seq<char>>,
    provided: Option<Seq<char>>,
)
    ensures
        run_gate(true, configured, provided) is None <==> header_gate(configured, provided) is Ok,
{
}

} // verus!
