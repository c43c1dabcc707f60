//! The server's MCP endpoint: which JSON-RPC method or tool a request
//! names, what each tool needs, and the errors it answers with.
use vstd::prelude::*;
use crate::text::{push_str, str_eq, string_of};

verus! {

/// A JSON-RPC error: its code, its message, and what its data names.
#[derive(Debug, Clone, PartialEq, Eq)]
pub struct McpError {
    pub code: i64,
    pub message: String,
    pub data: McpErrorData,
}

/// The data of an MCP error.
#[derive(Debug, Clone, PartialEq, Eq)]
pub enum McpErrorData {
    /// `{"reason": ...}`
    Reason(String),
    /// `{"method": ...}`
    Method(String),
    /// `{"tool": ...}`
    Tool(String),
}

/// What a request's method asks for.
#[derive(Debug, Clone, PartialEq, Eq)]
pub enum McpMethod {
    Initialize,
    /// The client's notification that it is initialized: answered with
    /// no content.
    Initialized,
    ToolsList,
    ToolsCall,
}

pub open spec fn method_spec(method: Option<Seq<char>>) -> Result<McpMethod, (i64, Seq<char>, McpErrorDataView)> {
    match method {
        None => Err((-32600i64, "invalid request"@, McpErrorDataView::Reason("request method is required"@))),
        Some(m) => if m == "initialize"@ {
            Ok(McpMethod::Initialize)
        } else if m == "notifications/initialized"@ {
            Ok(McpMethod::Initialized)
        } else if m == "tools/list"@ {
            Ok(McpMethod::ToolsList)
        } else if m == "tools/call"@ {
            Ok(McpMethod::ToolsCall)
        } else {
            Err((-32601i64, "method not found"@, McpErrorDataView::Method(m)))
        },
    }
}

/// The data of an MCP error, taken by its characters.
pub enum McpErrorDataView {
    Reason(Seq<char>),
    Method(Seq<char>),
    Tool(Seq<char>),
}

pub open spec fn data_view(d: McpErrorData) -> McpErrorDataView {
    match d {
        McpErrorData::Reason(s) => McpErrorDataView::Reason(s@),
        McpErrorData::Method(s) => McpErrorDataView::Method(s@),
        McpErrorData::Tool(s) => McpErrorDataView::Tool(s@),
    }
}

pub open spec fn error_view(e: McpError) -> (i64, Seq<char>, McpErrorDataView) {
    (e.code, e.message@, data_view(e.data))
}

fn mcp_error(code: i64, message: &str, data: McpErrorData) -> (r: McpError)
    ensures
        r.code == code,
        r.message@ == message@,
        r.data == data,
{
    McpError { code, message: String::from_str(message), data }
}

/// Classifies a request's method (`None` when it names none).
pub fn classify_method(method: Option<&str>) -> (r: Result<McpMethod, McpError>)
    ensures
        match method_spec(
            match method {
                Some(m) => Some(m@),
                None => None,
            },
        ) {
            Ok(m) => r == Ok::<McpMethod, McpError>(m),
            Err(v) => (r matches Err(e) && error_view(e) == v),
        },
{
    match method {
        None => Err(
            mcp_error(
                -32600,
                "invalid request",
                McpErrorData::Reason(String::from_str("request method is required")),
            ),
        ),
        Some(m) => if str_eq(m, "initialize") {
            Ok(McpMethod::Initialize)
        } else if str_eq(m, "notifications/initialized") {
            Ok(McpMethod::Initialized)
        } else if str_eq(m, "tools/list") {
            Ok(McpMethod::ToolsList)
        } else if str_eq(m, "tools/call") {
            Ok(McpMethod::ToolsCall)
        } else {
            Err(mcp_error(-32601, "method not found", McpErrorData::Method(String::from_str(m))))
        },
    }
}

/// A request whose body is not a JSON object.
pub fn not_an_object() -> (r: McpError)
    ensures
        error_view(r) == (
            -32600i64,
            "invalid request"@,
            McpErrorDataView::Reason("request body must be a JSON object"@),
        ),
{
    mcp_error(
        -32600,
        "invalid request",
        McpErrorData::Reason(String::from_str("request body must be a JSON object")),
    )
}

/// A tool call without a tool name (or without params).
pub fn tool_name_required() -> (r: McpError)
    ensures
        error_view(r) == (
            -32602i64,
            "invalid params"@,
            McpErrorDataView::Reason("tools/call requires params.name"@),
        ),
{
    mcp_error(
        -32602,
        "invalid params",
        McpErrorData::Reason(String::from_str("tools/call requires params.name")),
    )
}

/// The tools the endpoint offers.
#[derive(Debug, Clone, Copy, PartialEq, Eq, Structural)]
pub enum McpTool {
    Run,
    RunStatus,
    RunSummary,
    AuthStatus,
    SubmitCode,
}

pub open spec fn tool_name(t: McpTool) -> Seq<char> {
    match t {
        McpTool::Run => "jailgun.run"@,
        McpTool::RunStatus => "jailgun.run_status"@,
        McpTool::RunSummary => "jailgun.run_summary"@,
        McpTool::AuthStatus => "jailgun.auth_status"@,
        McpTool::SubmitCode => "jailgun.submit_code"@,
    }
}

/// The tool a call names; an unknown name is refused.
pub fn route_tool(name: &str) -> (r: Result<McpTool, McpError>)
    ensures
        match r {
            Ok(t) => tool_name(t) == name@,
            Err(e) => (forall|t: McpTool| tool_name(t) != name@) && error_view(e) == (
                -32601i64,
                "unknown tool"@,
                McpErrorDataView::Tool(name@),
            ),
        },
{
    if str_eq(name, "jailgun.run") {
        Ok(McpTool::Run)
    } else if str_eq(name, "jailgun.run_status") {
        Ok(McpTool::RunStatus)
    } else if str_eq(name, "jailgun.run_summary") {
        Ok(McpTool::RunSummary)
    } else if str_eq(name, "jailgun.auth_status") {
        Ok(McpTool::AuthStatus)
    } else if str_eq(name, "jailgun.submit_code") {
        Ok(McpTool::SubmitCode)
    } else {
        proof {
            assert forall|t: McpTool| tool_name(t) != name@ by {
                match t {
                    McpTool::Run => {},
                    McpTool::RunStatus => {},
                    McpTool::RunSummary => {},
                    McpTool::AuthStatus => {},
                    McpTool::SubmitCode => {},
                }
            }
        }
        Err(mcp_error(-32601, "unknown tool", McpErrorData::Tool(String::from_str(name))))
    }
}

/// The parameters each tool requires, in the order they are checked.
pub open spec fn required_params(t: McpTool) -> Seq<Seq<char>> {
    match t {
        McpTool::Run => seq![],
        McpTool::RunStatus => seq!["run_id"@],
        McpTool::RunSummary => seq!["run_id"@],
        McpTool::AuthStatus => seq!["account_id"@],
        McpTool::SubmitCode => seq!["account_id"@, "code"@],
    }
}

/// The arguments of a tool call that the endpoint reads.
#[derive(Debug, Clone)]
pub struct ToolArguments {
    pub run_id: Option<String>,
    pub account_id: Option<String>,
    pub code: Option<String>,
}

/// Whether the arguments give the parameter `name` as a string.
pub open spec fn has_param(a: ToolArguments, name: Seq<char>) -> bool {
    if name == "run_id"@ {
        a.run_id is Some
    } else if name == "account_id"@ {
        a.account_id is Some
    } else {
        name == "code"@ && a.code is Some
    }
}

/// The error for a missing parameter.
pub open spec fn missing_param(name: Seq<char>) -> (i64, Seq<char>, McpErrorDataView) {
    (-32602i64, "invalid params"@, McpErrorDataView::Reason(name + " is required"@))
}

fn missing(name: &str) -> (r: McpError)
    ensures
        error_view(r) == missing_param(name@),
{
    let mut m: Vec<char> = Vec::new();
    push_str(&mut m, name);
    push_str(&mut m, " is required");
    mcp_error(-32602, "invalid params", McpErrorData::Reason(string_of(&m)))
}

/// Checks that a call gives the parameters its tool requires; the first
/// one missing is named.
pub fn check_tool_arguments(tool: McpTool, args: &ToolArguments) -> (r: Result<(), McpError>)
    ensures
        r is Ok <==> forall|i: int|
            0 <= i < required_params(tool).len() ==> has_param(*args, #[trigger] required_params(tool)[i]),
        r matches Err(e) ==> exists|i: int|
            0 <= i < required_params(tool).len() && !has_param(*args, #[trigger] required_params(tool)[i])
                && (forall|j: int| 0 <= j < i ==> has_param(*args, #[trigger] required_params(tool)[j]))
                && error_view(e) == missing_param(required_params(tool)[i]),
{
    proof {
        reveal_strlit("run_id");
        reveal_strlit("account_id");
        reveal_strlit("code");
    }
    match tool {
        McpTool::Run => Ok(()),
        McpTool::RunStatus | McpTool::RunSummary => if args.run_id.is_some() {
            Ok(())
        } else {
            let e = missing("run_id");
            assert(!has_param(*args, required_params(tool)[0]));
            Err(e)
        },
        McpTool::AuthStatus => if args.account_id.is_some() {
            Ok(())
        } else {
            let e = missing("account_id");
            assert(!has_param(*args, required_params(tool)[0]));
            Err(e)
        },
        McpTool::SubmitCode => if args.account_id.is_none() {
            let e = missing("account_id");
            assert(!has_param(*args, required_params(tool)[0]));
            Err(e)
        } else if args.code.is_none() {
            let e = missing("code");
            assert(has_param(*args, required_params(tool)[0]));
            assert(!has_param(*args, required_params(tool)[1]));
            Err(e)
        } else {
            assert(has_param(*args, required_params(tool)[0]));
            assert(has_param(*args, required_params(tool)[1]));
            Ok(())
        },
    }
}

/// Whether a tool's calls need the browser-control token before they run.
pub fn tool_needs_browser_token(tool: McpTool) -> (r: bool)
    ensures
        r == (tool == McpTool::AuthStatus || tool == McpTool::SubmitCode),
{
    match tool {
        McpTool::AuthStatus | McpTool::SubmitCode => true,
        _ => false,
    }
}

/// What a tool's answer becomes: its body as text (the trimmed body, or,
/// when that is empty, the JSON it parsed to, if any), and whether the
/// answer was an error (a status outside 2xx).
pub fn tool_result_text(status: u16, trimmed_body: String, parsed_json_text: Option<String>) -> (r: (
    String,
    bool,
))
    ensures
        r.0@ == if trimmed_body@.len() > 0 {
            trimmed_body@
        } else {
            match parsed_json_text {
                Some(t) => t@,
                None => Seq::<char>::empty(),
            }
        },
        r.1 == !(200 <= status && status < 300),
{
    let is_error = !(200 <= status && status < 300);
    let empty = crate::text::chars_of(trimmed_body.as_str()).len() == 0;
    if !empty {
        (trimmed_body, is_error)
    } else {
        match parsed_json_text {
            Some(t) => (t, is_error),
            None => (String::new(), is_error),
        }
    }
}

} // verus!
