//! The outputs of an agent run and the answer to a request that started
//! one.
use vstd::prelude::*;
use crate::support::{join_path, join_path_spec};
use crate::text::{push_str, string_of};

verus! {

/// Where an agent run writes its event log and its summary.
#[derive(Debug, Clone, PartialEq, Eq)]
pub struct AgentRunPaths {
    pub events_jsonl: String,
    pub summary_json: String,
}

/// The event log of the run whose directory is `run_dir`.
pub fn agent_events_path(run_dir: &str, main_sep: char) -> (r: String)
    ensures
        r@ == join_path_spec(run_dir@, "agent-events.jsonl"@, main_sep),
{
    join_path(run_dir, "agent-events.jsonl", main_sep)
}

/// The summary of the run whose directory is `run_dir`.
pub fn agent_summary_path(run_dir: &str, _run_id: &str, main_sep: char) -> (r: String)
    ensures
        r@ == join_path_spec(run_dir@, "agent-summary.json"@, main_sep),
{
    join_path(run_dir, "agent-summary.json", main_sep)
}

/// The outputs of run `run_id`: in its own directory under the receipts,
/// on a platform whose main path separator is `main_sep`.
pub fn run_output_paths(receipt_dir: &str, run_id: &str, main_sep: char) -> (r: AgentRunPaths)
    ensures
        r.events_jsonl@ == join_path_spec(
            join_path_spec(receipt_dir@, run_id@, main_sep),
            "agent-events.jsonl"@,
            main_sep,
        ),
        r.summary_json@ == join_path_spec(
            join_path_spec(receipt_dir@, run_id@, main_sep),
            "agent-summary.json"@,
            main_sep,
        ),
{
    let run_dir = join_path(receipt_dir, run_id, main_sep);
    AgentRunPaths {
        events_jsonl: agent_events_path(run_dir.as_str(), main_sep),
        summary_json: agent_summary_path(run_dir.as_str(), run_id, main_sep),
    }
}

/// The answer to a request that started a run.
#[derive(Debug, Clone, PartialEq, Eq)]
pub struct JailgunAgentRunAcceptedResponse {
    pub run_id: String,
    pub status: String,
    pub summary_json: String,
    pub events_jsonl: String,
    pub run_url: String,
    pub summary_url: String,
}

/// The answer to a started run: accepted, with its outputs and where to
/// follow it.
pub fn accepted_response(run_id: String, paths: AgentRunPaths) -> (r: JailgunAgentRunAcceptedResponse)
    ensures
        r.run_id == run_id,
        r.status@ == "accepted"@,
        r.summary_json == paths.summary_json,
        r.events_jsonl == paths.events_jsonl,
        r.run_url@ == "/api/runs/"@ + run_id@,
        r.summary_url@ == "/api/runs/"@ + run_id@ + "/agent-summary"@,
{
    let mut run_url: Vec<char> = Vec::new();
    push_str(&mut run_url, "/api/runs/");
    push_str(&mut run_url, run_id.as_str());
    let mut summary_url: Vec<char> = Vec::new();
    push_str(&mut summary_url, "/api/runs/");
    push_str(&mut summary_url, run_id.as_str());
    push_str(&mut summary_url, "/agent-summary");
    JailgunAgentRunAcceptedResponse {
        run_id,
        status: String::from_str("accepted"),
        summary_json: paths.summary_json,
        events_jsonl: paths.events_jsonl,
        run_url: string_of(&run_url),
        summary_url: string_of(&summary_url),
    }
}

/// The backend that runs agent runs through the orchestrator.
#[derive(Debug, Clone, Copy, PartialEq, Eq)]
pub struct DefaultAgentRunBackend;

/// An event sink that keeps nothing.
#[derive(Debug, Clone, Copy, PartialEq, Eq)]
pub struct NoopAgentRunEventSink;

} // verus!
