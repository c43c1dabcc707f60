# jekko-jailgun

Jailgun drives browser tabs of a chat assistant through a Node "chrome
bridge" child process: each tab gets a prompt (and optionally a source
archive), the archive the assistant produces is downloaded, checked and
deployed to a remote host, and every step is published as a run event. A
small HTTP/WebSocket server starts agent runs, shows the runs, and manages
the browser accounts (Chrome profiles) the runs use.

## Layout

- `src/` is the verified library (Verus). Each module states its behaviour
  in `requires`/`ensures` contracts over spec functions, and the properties
  that span several calls are proved as `lemma_*` proof functions.
  - `tab`, `tracker`, `launch`, `supervisor`, `flow`, `timing`, `deploy`,
    `publish`: the run loop's decisions (tab lifecycle, completion, tab
    launch pacing, what each bridge event does, the commands a tab gets).
  - `bridge::{protocol, command, event, spawn}`: the wire protocol's
    envelope checks, command and event kinds and payloads.
  - `run_event`, `fields`: run events and how bridge events map to them.
  - `accounts`, `lease`, `prepare`, `config`, `support`: which browser
    profiles a run uses, the bridge environment that routes it to them,
    and the run's options.
  - `summary`, `review`, `errors`: the summary of a finished agent run and
    the diff part of its review packet.
  - `snapshot`, `gate`, `ingress`, `mcp`, `auth`, `agent`, `bus`: the
    server's board of runs, its token checks, request normalisation, MCP
    routing and browser sign-in sessions.
  - `text`: character-sequence helpers every module builds on.
- `tests/` exercises the library on concrete values.
- `app/` is the I/O around the library: the JSON wire format, the bridge
  process, the async run loop, agent-run files and the axum server.
