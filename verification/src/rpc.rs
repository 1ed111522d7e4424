//! How a JSON-RPC request is answered, by the server and by the command line
//! client.
//!
//! The first step of a request is a function of the request alone. What it needs
//! from outside (the registered projects, the graph) comes in with the functions
//! that finish the answer.

use crate::fs_utils;
use crate::fs_utils::clean_path;
use crate::json::{JsonModel, JsonValue};
use crate::mcp_common;
use crate::mcp_common::{
    error_response, get_tools_list, ok_response, InitializeResult, JsonRpcRequest,
    JsonRpcResponse, ResponseModel, ServerCapabilities, ServerInfo, ToolCallResult,
    ToolDefinition, ToolListResult, ToolModel, ToolsCapability,
};
use crate::projects;
use crate::projects::RegisteredProject;
use crate::text;
use crate::text::{concat2, concat3, lowercase, replace, same_text, trim, without_prefix};
use vstd::prelude::*;

verus! {

/// The tools of the command line client; tracing is left to the server.
pub const CLI_MCP_TOOLS: [&'static str; 5] = [
    "ozymem_get_schema",
    "ozymem_find_symbol",
    "graph_summary",
    "file_context",
    "record_lesson",
];

/// The tools of the server.
pub const SERVER_MCP_TOOLS: [&'static str; 4] = [
    "file_context",
    "graph_summary",
    "record_lesson",
    "file_trace",
];

// ---------------------------------------------------------------------------
// Lists of tools
// ---------------------------------------------------------------------------

/// The name is one of the names.
pub open spec fn named(name: Seq<char>, names: Seq<&str>) -> bool {
    exists|i: int| 0 <= i < names.len() && (#[trigger] names[i])@ == name
}

/// The tools whose names are among the names, in their order.
pub open spec fn selected(tools: Seq<ToolModel>, names: Seq<&str>) -> Seq<ToolModel>
    decreases tools.len(),
{
    if tools.len() == 0 {
        Seq::empty()
    } else if named(tools.last().name, names) {
        selected(tools.drop_last(), names).push(tools.last())
    } else {
        selected(tools.drop_last(), names)
    }
}

fn is_named(name: &str, names: &[&str]) -> (r: bool)
    ensures
        r == named(name@, names@),
{
    let mut i: usize = 0;
    while i < names.len()
        invariant
            i <= names.len(),
            forall|j: int| 0 <= j < i ==> (#[trigger] names@[j])@ != name@,
        decreases names.len() - i,
    {
        if same_text(names[i], name) {
            assert(names@[i as int]@ == name@);
            return true;
        }
        i += 1;
    }
    false
}

/// The tools whose names are among the names.
pub fn tools_named(names: &[&str]) -> (r: Vec<ToolDefinition>)
    ensures
        r.deep_view() == selected(mcp_common::tool_models(), names@),
{
    let mut rest = get_tools_list();
    let ghost all = rest.deep_view();
    let mut out: Vec<ToolDefinition> = Vec::new();
    let ghost mut done: int = 0;
    proof {
        assert(all.skip(0) == all);
        assert(selected(all.take(0), names@) =~= out.deep_view());
    }
    while rest.len() > 0
        invariant
            0 <= done <= all.len(),
            rest.deep_view() == all.skip(done),
            out.deep_view() == selected(all.take(done), names@),
        decreases rest@.len(),
    {
        let ghost before = rest.deep_view();
        let ghost kept = out.deep_view();
        assert(before.len() == rest@.len());
        let tool = rest.remove(0);
        proof {
            assert(before[0] == all[done]);
            assert(tool.deep_view() == all[done]);
            assert(rest.deep_view() =~= before.skip(1));
            assert(before.skip(1) =~= all.skip(done + 1));
            assert(all.take(done + 1).drop_last() =~= all.take(done));
            assert(all.take(done + 1).last() == all[done]);
        }
        if is_named(tool.name, names) {
            out.push(tool);
            assert(out.deep_view() =~= kept.push(tool.deep_view()));
        }
        proof {
            done = done + 1;
        }
    }
    proof {
        assert(rest.deep_view().len() == 0);
        assert(all.take(done) =~= all);
    }
    out
}

/// The client offers every tool but tracing, and the server every tool but the
/// two that need a project.
pub proof fn law_offered_tools()
    ensures
        selected(mcp_common::tool_models(), CLI_MCP_TOOLS@) == mcp_common::tool_models().take(5),
        selected(mcp_common::tool_models(), SERVER_MCP_TOOLS@) == mcp_common::tool_models().skip(2),
{
    let all = mcp_common::tool_models();
    reveal_strlit("ozymem_get_schema");
    reveal_strlit("ozymem_find_symbol");
    reveal_strlit("graph_summary");
    reveal_strlit("file_context");
    reveal_strlit("record_lesson");
    reveal_strlit("file_trace");
    assert("ozymem_get_schema"@.len() == 17 && "ozymem_find_symbol"@.len() == 18
        && "graph_summary"@.len() == 13 && "file_context"@.len() == 12 && "record_lesson"@.len()
        == 13 && "file_trace"@.len() == 10);
    let cli = CLI_MCP_TOOLS@;
    let server = SERVER_MCP_TOOLS@;
    assert(cli.len() == 5 && server.len() == 4);
    assert(cli[0]@ == all[0].name && cli[1]@ == all[1].name && cli[2]@ == all[2].name && cli[3]@
        == all[3].name && cli[4]@ == all[4].name);
    assert(server[0]@ == all[3].name && server[1]@ == all[2].name && server[2]@ == all[4].name
        && server[3]@ == all[5].name);
    assert(!named(all[5].name, cli));
    assert(!named(all[0].name, server));
    assert(!named(all[1].name, server));
    assert(all.take(6) =~= all);
    assert(all.take(6).drop_last() =~= all.take(5));
    assert(all.take(5).drop_last() =~= all.take(4));
    assert(all.take(4).drop_last() =~= all.take(3));
    assert(all.take(3).drop_last() =~= all.take(2));
    assert(all.take(2).drop_last() =~= all.take(1));
    assert(all.take(1).drop_last() =~= all.take(0));
    assert(selected(all.take(0), cli) =~= all.take(0));
    assert(selected(all.take(1), cli) =~= all.take(1));
    assert(selected(all.take(2), cli) =~= all.take(2));
    assert(selected(all.take(3), cli) =~= all.take(3));
    assert(selected(all.take(4), cli) =~= all.take(4));
    assert(selected(all.take(5), cli) =~= all.take(5));
    assert(selected(all.take(6), cli) =~= all.take(5));
    assert(selected(all.take(0), server) =~= Seq::<ToolModel>::empty());
    assert(selected(all.take(1), server) =~= Seq::<ToolModel>::empty());
    assert(selected(all.take(2), server) =~= Seq::<ToolModel>::empty());
    assert(selected(all.take(3), server) =~= all.subrange(2, 3));
    assert(selected(all.take(4), server) =~= all.subrange(2, 4));
    assert(selected(all.take(5), server) =~= all.subrange(2, 5));
    assert(selected(all.take(6), server) =~= all.skip(2));
}

// ---------------------------------------------------------------------------
// The first step
// ---------------------------------------------------------------------------

/// The first step of the answer to a request.
#[derive(Debug, PartialEq, Eq)]
pub enum RpcStep {
    /// The answer is ready.
    Respond(JsonRpcResponse),
    /// There is no answer.
    Ignore,
    /// The connection ends with an error.
    Fail(String),
    /// The client wants to begin.
    Initialize(JsonValue, Option<JsonValue>),
    /// The client calls a tool, with these parameters.
    CallTool(JsonValue, JsonValue),
}

/// A `JsonRpcRequest` as mathematics has it.
#[verifier::ext_equal]
pub struct RequestModel {
    pub jsonrpc: Seq<char>,
    pub id: Option<JsonModel>,
    pub method: Seq<char>,
    pub params: Option<JsonModel>,
}

/// An `RpcStep` as mathematics has it.
#[verifier::ext_equal]
pub enum RpcStepModel {
    Respond(ResponseModel),
    Ignore,
    Fail(Seq<char>),
    Initialize(JsonModel, Option<JsonModel>),
    CallTool(JsonModel, JsonModel),
}

pub open spec fn optional_model(value: Option<JsonValue>) -> Option<JsonModel> {
    match value {
        Some(v) => Some(v.model()),
        None => None,
    }
}

impl JsonRpcRequest {
    pub open spec fn model(self) -> RequestModel {
        RequestModel {
            jsonrpc: self.jsonrpc@,
            id: optional_model(self.id),
            method: self.method@,
            params: optional_model(self.params),
        }
    }
}

impl RpcStep {
    pub open spec fn model(self) -> RpcStepModel {
        match self {
            RpcStep::Respond(response) => RpcStepModel::Respond(response.model()),
            RpcStep::Ignore => RpcStepModel::Ignore,
            RpcStep::Fail(message) => RpcStepModel::Fail(message@),
            RpcStep::Initialize(id, params) => RpcStepModel::Initialize(
                id.model(),
                optional_model(params),
            ),
            RpcStep::CallTool(id, params) => RpcStepModel::CallTool(id.model(), params.model()),
        }
    }
}

/// The first step of the answer to a request, for an end that offers the tools
/// with the given names.
///
/// A request in another version of the protocol is refused. One without an id
/// wants no answer. A call of a tool without parameters ends the connection.
pub open spec fn first_step(request: RequestModel, tools: Seq<&str>) -> RpcStepModel {
    if request.jsonrpc != "2.0"@ {
        RpcStepModel::Respond(
            mcp_common::failure(
                match request.id {
                    Some(id) => id,
                    None => JsonModel::Null,
                },
                -32600,
                "Invalid JSON-RPC version"@,
            ),
        )
    } else {
        match request.id {
            None => RpcStepModel::Ignore,
            Some(id) => if request.method == "initialize"@ {
                RpcStepModel::Initialize(id, request.params)
            } else if request.method == "notifications/initialized"@ {
                RpcStepModel::Ignore
            } else if request.method == "tools/list"@ {
                RpcStepModel::Respond(
                    mcp_common::success(
                        id,
                        mcp_common::tools_json(selected(mcp_common::tool_models(), tools)),
                    ),
                )
            } else if request.method == "tools/call"@ {
                match request.params {
                    Some(params) => RpcStepModel::CallTool(id, params),
                    None => RpcStepModel::Fail("missing params for tools/call"@),
                }
            } else {
                RpcStepModel::Respond(mcp_common::failure(id, -32601, "Method not found"@))
            },
        }
    }
}

/// Begins the answer to a request, for an end that offers the tools with the
/// given names.
pub fn begin_request(request: JsonRpcRequest, tools: &[&str]) -> (r: RpcStep)
    ensures
        r.model() == first_step(request.model(), tools@),
{
    let JsonRpcRequest { jsonrpc, id, method, params } = request;
    if !same_text(jsonrpc.as_str(), "2.0") {
        let id = match id {
            Some(id) => id,
            None => JsonValue::Null,
        };
        return RpcStep::Respond(error_response(id, -32600, "Invalid JSON-RPC version"));
    }
    let id = match id {
        Some(id) => id,
        None => {
            return RpcStep::Ignore;
        },
    };
    if same_text(method.as_str(), "initialize") {
        return RpcStep::Initialize(id, params);
    }
    if same_text(method.as_str(), "notifications/initialized") {
        return RpcStep::Ignore;
    }
    if same_text(method.as_str(), "tools/list") {
        let list = ToolListResult { tools: tools_named(tools) };
        return RpcStep::Respond(ok_response(id, list.into_json()));
    }
    if same_text(method.as_str(), "tools/call") {
        return match params {
            Some(params) => RpcStep::CallTool(id, params),
            None => RpcStep::Fail("missing params for tools/call".to_string()),
        };
    }
    RpcStep::Respond(error_response(id, -32601, "Method not found"))
}

/// A request of the right version without an id is never answered.
pub proof fn law_notifications_get_no_answer(request: RequestModel, tools: Seq<&str>)
    requires
        request.jsonrpc == "2.0"@,
        request.id is None,
    ensures
        first_step(request, tools) == RpcStepModel::Ignore,
{
}

/// Every answer bears the id of its request, and the null id only if the request
/// has none.
pub proof fn law_answers_bear_the_id(request: RequestModel, tools: Seq<&str>)
    ensures
        first_step(request, tools) matches RpcStepModel::Respond(response) ==> response.id == (
        match request.id {
            Some(id) => id,
            None => JsonModel::Null,
        }),
{
}

// ---------------------------------------------------------------------------
// The answers of the server
// ---------------------------------------------------------------------------

/// What an end says of itself.
pub open spec fn greeting(name: &'static str, version: &'static str) -> JsonModel {
    mcp_common::initialize_json(
        InitializeResult {
            protocol_version: "2024-11-05",
            capabilities: ServerCapabilities {
                tools: ToolsCapability { list_changed: Some(true) },
            },
            server_info: ServerInfo { name, version },
        },
    )
}

fn greeting_value(name: &'static str, version: &'static str) -> (r: JsonValue)
    ensures
        r.model() == greeting(name, version),
{
    let info = InitializeResult {
        protocol_version: "2024-11-05",
        capabilities: ServerCapabilities { tools: ToolsCapability { list_changed: Some(true) } },
        server_info: ServerInfo { name, version },
    };
    info.into_json()
}

/// The answer of the server to `initialize`.
pub fn server_initialize(id: JsonValue, version: &'static str) -> (r: JsonRpcResponse)
    ensures
        r.model() == mcp_common::success(id.model(), greeting("ozymem-server", version)),
{
    ok_response(id, greeting_value("ozymem-server", version))
}

/// The refusal of a tool that the server does not offer; nothing if it offers it.
pub fn server_refusal(id: JsonValue, tool_name: &str) -> (r: Result<JsonValue, JsonRpcResponse>)
    ensures
        match r {
            Ok(same) => same == id && named(tool_name@, SERVER_MCP_TOOLS@),
            Err(response) => !named(tool_name@, SERVER_MCP_TOOLS@) && response.model()
                == mcp_common::failure(id.model(), -32601, "Unknown tool"@),
        },
{
    let offered = SERVER_MCP_TOOLS;
    if is_named(tool_name, offered.as_slice()) {
        Ok(id)
    } else {
        Err(error_response(id, -32601, "Unknown tool"))
    }
}

/// The answer when the graph cannot be reached.
pub fn connection_failure(id: JsonValue, error: &str) -> (r: JsonRpcResponse)
    ensures
        r.model() == mcp_common::failure(
            id.model(),
            -32603,
            "Memgraph connection failed: "@ + error@,
        ),
{
    error_response(id, -32603, concat2("Memgraph connection failed: ", error).as_str())
}

/// The answer to a call of a tool.
pub fn tool_response(id: JsonValue, outcome: Result<ToolCallResult, String>) -> (r: JsonRpcResponse)
    ensures
        r.model() == match outcome {
            Ok(result) => mcp_common::success(
                id.model(),
                mcp_common::result_json(result.blocks(), result.is_error),
            ),
            Err(error) => mcp_common::failure(
                id.model(),
                -32603,
                "Tool call error: "@ + error@,
            ),
        },
{
    match outcome {
        Ok(result) => ok_response(id, result.into_json()),
        Err(error) => error_response(
            id,
            -32603,
            concat2("Tool call error: ", error.as_str()).as_str(),
        ),
    }
}

// ---------------------------------------------------------------------------
// The answers of the client
// ---------------------------------------------------------------------------

/// The project that a client works on.
#[derive(Debug, Clone, PartialEq, Eq)]
pub struct McpSession {
    pub current_project: Option<String>,
    pub project_path: Option<String>,
}

/// The place that the parameters of `initialize` name: the root as an address or
/// as a path, or the first of the folders.
pub open spec fn root_of(params: JsonModel) -> Option<Seq<char>> {
    match params.text_at("rootUri"@) {
        Some(uri) => Some(uri),
        None => match params.text_at("rootPath"@) {
            Some(path) => Some(path),
            None => match params.get("workspaceFolders"@) {
                Some(folders) => match folders.first() {
                    Some(folder) => folder.text_at("uri"@),
                    None => None,
                },
                None => None,
            },
        },
    }
}

/// The place that the parameters of `initialize` name.
pub fn root_from_params<'a>(params: &'a JsonValue) -> (r: Option<&'a str>)
    ensures
        match r {
            Some(s) => root_of(params.model()) == Some(s@),
            None => root_of(params.model()) is None,
        },
{
    if let Some(uri) = params.get_str("rootUri") {
        return Some(uri);
    }
    if let Some(path) = params.get_str("rootPath") {
        return Some(path);
    }
    match params.get("workspaceFolders") {
        Some(folders) => match folders.first() {
            Some(folder) => folder.get_str("uri"),
            None => None,
        },
        None => None,
    }
}

pub open spec fn without(s: Seq<char>, prefix: Seq<char>) -> Seq<char> {
    if text::starts_with(s, prefix) {
        s.skip(prefix.len() as int)
    } else {
        s
    }
}

/// The path that an address of a root stands for, with backslashes.
pub open spec fn root_path(uri: Seq<char>) -> Seq<char> {
    let path = without(without(text::trim_text(uri), "file://"@), "/"@);
    let decoded = text::replace_text(text::replace_text(path, "%3A"@, ":"@), "%3a"@, ":"@);
    text::replace_text(decoded, "/"@, "\\"@)
}

fn drop_prefix(s: String, prefix: &str) -> (r: String)
    ensures
        r@ == without(s@, prefix@),
{
    match without_prefix(s.as_str(), prefix) {
        Some(rest) => rest,
        None => s,
    }
}

/// The path that an address of a root stands for, with backslashes.
pub fn parse_root_uri(root_uri: &str) -> (r: Option<String>)
    ensures
        r is Some,
        r->0@ == root_path(root_uri@),
{
    let path = drop_prefix(drop_prefix(trim(root_uri), "file://"), "/");
    proof {
        reveal_strlit("%3A");
        reveal_strlit("%3a");
        reveal_strlit("/");
    }
    let decoded = replace(replace(path.as_str(), "%3A", ":").as_str(), "%3a", ":");
    Some(replace(decoded.as_str(), "/", "\\"))
}

/// The path without the mark of an extended-length path.
pub fn clean_path_str(path_str: &str) -> (r: String)
    ensures
        r@ == fs_utils::cleaned(path_str@),
{
    clean_path(path_str)
}

/// The registered project that lies at the given place.
///
/// `target` is the path of the client as the file system resolves it.
pub fn validate_project_path(target: &str, projects: &Vec<RegisteredProject>) -> (r: Result<
    (String, String),
    String,
>)
    ensures
        match r {
            Ok((name, path)) => exists|i: int|
                0 <= i < projects@.len() && projects::lies_at(#[trigger] projects@[i], target@) && name@
                    == projects@[i].name@ && path@ == projects@[i].path@ && forall|j: int|
                    0 <= j < i ==> !projects::lies_at(#[trigger] projects@[j], target@),
            Err(message) => message@ == "Proyecto no registrado en ozymem.toml"@ && forall|j: int|
                0 <= j < projects@.len() ==> !projects::lies_at(#[trigger] projects@[j], target@),
        },
{
    let clean_target = lowercase(clean_path_str(target).as_str());
    let mut i: usize = 0;
    while i < projects.len()
        invariant
            i <= projects@.len(),
            clean_target@ == text::unicode_lowercase(fs_utils::cleaned(target@)),
            forall|j: int| 0 <= j < i ==> !projects::lies_at(#[trigger] projects@[j], target@),
        decreases projects@.len() - i,
    {
        let project = &projects[i];
        if let Some(canonical) = &project.canonical {
            let clean = lowercase(clean_path_str(canonical.as_str()).as_str());
            if same_text(clean_target.as_str(), clean.as_str()) {
                assert(projects::lies_at(projects@[i as int], target@));
                return Ok(
                    (project.name.as_str().to_string(), project.path.as_str().to_string()),
                );
            }
        }
        i += 1;
    }
    Err("Proyecto no registrado en ozymem.toml".to_string())
}

/// What the configuration gives when it is asked for its projects: the projects,
/// or the error in words.
pub type LoadedProjects = Result<Vec<RegisteredProject>, String>;

/// Why no project could be chosen, in words.
pub open spec fn fallback_text(loaded: LoadedProjects) -> Seq<char> {
    "Fallback failed. load_config result: "@ + (match loaded {
        Ok(_) => "Ok(\"Projects keys: []\")"@,
        Err(e) => "Err("@ + e@ + ")"@,
    }) + ". "@
}

/// The project that a client begins with: the one at its root if that is
/// registered, otherwise the first one there is.
pub open spec fn chosen_project(
    verified: Option<(String, String)>,
    loaded: LoadedProjects,
) -> Option<(Seq<char>, Seq<char>)> {
    match verified {
        Some((name, path)) => Some((name@, path@)),
        None => match loaded {
            Ok(projects) => if projects@.len() > 0 {
                Some((projects@[0].name@, projects@[0].path@))
            } else {
                None
            },
            Err(_) => None,
        },
    }
}

/// Answers `initialize` and sets the project of the session.
///
/// `root_uri` is the member of that name of the parameters, `verified` the
/// registered project at the root of the client, and `loaded` what the
/// configuration gives.
pub fn client_initialize(
    session: &mut McpSession,
    id: JsonValue,
    root_uri: Option<&str>,
    verified: Option<(String, String)>,
    loaded: LoadedProjects,
    version: &'static str,
) -> (r: JsonRpcResponse)
    ensures
        match chosen_project(verified, loaded) {
            Some((name, path)) => {
                &&& r.model() == mcp_common::success(id.model(), greeting("ozymem-mcp", version))
                &&& final(session).current_project.deep_view() == Some(name)
                &&& final(session).project_path.deep_view() == Some(path)
            },
            None => {
                &&& r.model() == mcp_common::failure(
                    id.model(),
                    -32603,
                    "Directorio no registrado. rootUri: "@ + (match root_uri {
                        Some(s) => s@,
                        None => "None"@,
                    }) + ". Diag: "@ + fallback_text(loaded),
                )
                &&& *final(session) == *old(session)
            },
        },
{
    let chosen: Option<(String, String)> = match verified {
        Some((name, path)) => Some((name, path)),
        None => match &loaded {
            Ok(projects) => {
                if projects.len() > 0 {
                    Some(
                        (
                            projects[0].name.as_str().to_string(),
                            projects[0].path.as_str().to_string(),
                        ),
                    )
                } else {
                    None
                }
            },
            Err(_) => None,
        },
    };
    match chosen {
        Some((name, path)) => {
            session.current_project = Some(name);
            session.project_path = Some(path);
            ok_response(id, greeting_value("ozymem-mcp", version))
        },
        None => {
            let mut message = "Directorio no registrado. rootUri: ".to_string();
            message.append(
                match root_uri {
                    Some(s) => s,
                    None => "None",
                },
            );
            message.append(". Diag: ");
            let mut diag = "Fallback failed. load_config result: ".to_string();
            match &loaded {
                Ok(_) => {
                    diag.append("Ok(\"Projects keys: []\")");
                },
                Err(e) => {
                    diag.append(concat3("Err(", e.as_str(), ")").as_str());
                },
            }
            diag.append(". ");
            message.append(diag.as_str());
            error_response(id, -32603, message.as_str())
        },
    }
}

/// The project path of the session, which a call of a tool needs, and the id; the
/// refusal if there is none.
pub fn client_project(session: &McpSession, id: JsonValue) -> (r: Result<
    (JsonValue, String),
    JsonRpcResponse,
>)
    ensures
        match r {
            Ok((same, path)) => same == id && session.project_path.deep_view() == Some(path@),
            Err(response) => session.project_path is None && response.model()
                == mcp_common::failure(
                id.model(),
                -32603,
                "MCP no inicializado con un proyecto válido"@,
            ),
        },
{
    match &session.project_path {
        Some(path) => Ok((id, path.as_str().to_string())),
        None => Err(error_response(id, -32603, "MCP no inicializado con un proyecto válido")),
    }
}

/// The tools that an end offers are those of all tools whose names are on its list,
/// every one of them, in their order.
pub proof fn law_every_named_tool_is_offered(tools: Seq<ToolModel>, names: Seq<&str>)
    ensures
        selected(tools, names) == tools.filter(
            |tool: ToolModel| exists|i: int| 0 <= i < names.len() && (#[trigger] names[i])@ == tool.name,
        ),
    decreases tools.len(),
{
    reveal(Seq::filter);
    let wanted = |tool: ToolModel|
        exists|i: int| 0 <= i < names.len() && (#[trigger] names[i])@ == tool.name;
    if tools.len() > 0 {
        law_every_named_tool_is_offered(tools.drop_last(), names);
        assert(named(tools.last().name, names) == wanted(tools.last()));
    }
}

/// What is done with a request goes by its method: a client that begins is greeted,
/// a list of tools holds those that are offered, a call goes on with its
/// parameters, and an unknown method is refused.
pub proof fn law_methods(id: JsonModel, method: Seq<char>, params: Option<JsonModel>, tools: Seq<&str>)
    ensures
        ({
            let request = |name: Seq<char>|
                RequestModel { jsonrpc: "2.0"@, id: Some(id), method: name, params };
            &&& first_step(request("initialize"@), tools) == RpcStepModel::Initialize(id, params)
            &&& first_step(request("notifications/initialized"@), tools) == RpcStepModel::Ignore
            &&& first_step(request("tools/list"@), tools) == RpcStepModel::Respond(
                mcp_common::success(
                    id,
                    mcp_common::tools_json(selected(mcp_common::tool_models(), tools)),
                ),
            )
            &&& first_step(request("tools/call"@), tools) == (match params {
                Some(given) => RpcStepModel::CallTool(id, given),
                None => RpcStepModel::Fail("missing params for tools/call"@),
            })
            &&& method != "initialize"@ && method != "notifications/initialized"@ && method
                != "tools/list"@ && method != "tools/call"@ ==> first_step(request(method), tools)
                == RpcStepModel::Respond(mcp_common::failure(id, -32601, "Method not found"@))
        }),
{
    reveal_strlit("initialize");
    reveal_strlit("notifications/initialized");
    reveal_strlit("tools/list");
    reveal_strlit("tools/call");
    assert("initialize"@.len() == 10 && "notifications/initialized"@.len() == 25
        && "tools/list"@.len() == 10 && "tools/call"@.len() == 10);
    assert("initialize"@[0] == 'i' && "tools/list"@[0] == 't' && "tools/call"@[0] == 't'
        && "tools/list"@[6] == 'l' && "tools/call"@[6] == 'c');
}

/// A request in another version of the protocol is refused, whatever it asks for.
pub proof fn law_other_versions_are_refused(request: RequestModel, tools: Seq<&str>)
    requires
        request.jsonrpc != "2.0"@,
    ensures
        first_step(request, tools) matches RpcStepModel::Respond(response) && response.error
            == Some((-32600int, "Invalid JSON-RPC version"@)),
{
}

/// An end says of itself the version of the protocol, that its tools can change, its
/// name and its version.
pub proof fn law_greetings(name: &'static str, version: &'static str)
    ensures
        greeting(name, version).get("protocolVersion"@) == Some(
            JsonModel::Text("2024-11-05"@),
        ),
        greeting(name, version).get("capabilities"@)->0.get("tools"@)->0.get("listChanged"@)
            == Some(JsonModel::Bool(true)),
        greeting(name, version).get("serverInfo"@)->0.get("name"@) == Some(
            JsonModel::Text(name@),
        ),
        greeting(name, version).get("serverInfo"@)->0.get("version"@) == Some(
            JsonModel::Text(version@),
        ),
{
    mcp_common::law_what_an_end_says_of_itself(
        InitializeResult {
            protocol_version: "2024-11-05",
            capabilities: ServerCapabilities {
                tools: ToolsCapability { list_changed: Some(true) },
            },
            server_info: ServerInfo { name, version },
        },
    );
}

/// The root as an address goes before the root as a path, and that before the first
/// of the folders.
pub proof fn law_where_the_root_is_named(params: JsonModel, root: Seq<char>, folder: JsonModel)
    ensures
        params.text_at("rootUri"@) == Some(root) ==> root_of(params) == Some(root),
        params.text_at("rootUri"@) is None && params.text_at("rootPath"@) == Some(root)
            ==> root_of(params) == Some(root),
        params.text_at("rootUri"@) is None && params.text_at("rootPath"@) is None && params.get(
            "workspaceFolders"@,
        ) is Some && params.get("workspaceFolders"@)->0.first() == Some(folder) ==> root_of(params)
            == folder.text_at("uri"@),
        params.text_at("rootUri"@) is None && params.text_at("rootPath"@) is None && params.get(
            "workspaceFolders"@,
        ) is None ==> root_of(params) is None,
{
}

/// The path of a root: the scheme and the slash behind it go, and every other slash
/// becomes a backslash; nothing else changes where nothing is encoded.
pub proof fn law_roots_are_paths(uri: Seq<char>, path: Seq<char>)
    requires
        text::trim_text(uri) == "file:///"@ + path,
        !path.contains('%'),
    ensures
        root_path(uri) == path.map_values(
            |c: char|
                if c == '/' {
                    '\\'
                } else {
                    c
                },
        ),
{
    reveal_strlit("file:///");
    reveal_strlit("file://");
    reveal_strlit("/");
    let whole = text::trim_text(uri);
    assert(whole.subrange(0, 7) =~= "file://"@);
    let rest = whole.skip(7);
    assert(rest =~= "/"@ + path);
    assert(rest.subrange(0, 1) =~= "/"@);
    assert(rest.skip(1) =~= path);
    lemma_nothing_to_decode(path);
    lemma_backslashes(path);
}

/// A colon that is encoded in the path of a root is decoded, in capital letters and in
/// small ones.
pub proof fn law_colons_are_decoded(uri: Seq<char>, drive: Seq<char>, path: Seq<char>, small: bool)
    requires
        text::trim_text(uri) == "file:///"@ + (drive + (if small {
            "%3a"@
        } else {
            "%3A"@
        }) + path),
        !drive.contains('%'),
        !path.contains('%'),
    ensures
        root_path(uri) == (drive + ":"@ + path).map_values(
            |c: char|
                if c == '/' {
                    '\\'
                } else {
                    c
                },
        ),
{
    reveal_strlit("file:///");
    reveal_strlit("file://");
    reveal_strlit("/");
    let sign = if small {
        "%3a"@
    } else {
        "%3A"@
    };
    let encoded = drive + sign + path;
    let decoded = drive + ":"@ + path;
    let whole = text::trim_text(uri);
    assert(whole.subrange(0, 7) =~= "file://"@);
    let rest = whole.skip(7);
    assert(rest =~= "/"@ + encoded);
    assert(rest.subrange(0, 1) =~= "/"@);
    assert(rest.skip(1) =~= encoded);
    lemma_decoded_once(drive, path);
    assert(!decoded.contains('%')) by {
        reveal_strlit(":");
        if decoded.contains('%') {
            let i = choose|i: int| 0 <= i < decoded.len() && decoded[i] == '%';
            if i < drive.len() {
                assert(drive[i] == '%');
            } else if i > drive.len() {
                assert(path[i - drive.len() - 1] == '%');
            }
        }
    }
    lemma_nothing_to_decode(decoded);
    lemma_backslashes(decoded);
}

proof fn lemma_backslashes(path: Seq<char>)
    ensures
        text::replace_text(path, "/"@, "\\"@) == path.map_values(
            |c: char|
                if c == '/' {
                    '\\'
                } else {
                    c
                },
        ),
{
    reveal_strlit("/");
    reveal_strlit("\\");
    assert("/"@ =~= seq!['/']);
    assert("\\"@ =~= seq!['\\']);
    text::law_replacing_characters(path, '/', '\\');
    assert(text::replace_text(path, "/"@, "\\"@) =~= path.map_values(
        |c: char|
            if c == '/' {
                '\\'
            } else {
                c
            },
    ));
}

proof fn lemma_absent(s: Seq<char>, sign: Seq<char>, to: Seq<char>)
    requires
        sign.len() > 0,
        forall|i: int| !#[trigger] text::occurs_at(s, sign, i),
    ensures
        text::replace_text(s, sign, to) == s,
{
    text::lemma_find_from(s, sign, 0);
    assert(text::split_text(s, sign) == seq![s]);
}

proof fn lemma_nothing_to_decode(s: Seq<char>)
    requires
        !s.contains('%'),
    ensures
        text::replace_text(s, "%3A"@, ":"@) == s,
        text::replace_text(s, "%3a"@, ":"@) == s,
{
    reveal_strlit("%3A");
    reveal_strlit("%3a");
    assert forall|i: int| !#[trigger] text::occurs_at(s, "%3A"@, i) by {
        if text::occurs_at(s, "%3A"@, i) {
            assert(s.subrange(i, i + 3)[0] == s[i]);
        }
    }
    assert forall|i: int| !#[trigger] text::occurs_at(s, "%3a"@, i) by {
        if text::occurs_at(s, "%3a"@, i) {
            assert(s.subrange(i, i + 3)[0] == s[i]);
        }
    }
    lemma_absent(s, "%3A"@, ":"@);
    lemma_absent(s, "%3a"@, ":"@);
}

proof fn lemma_replaced_once(front: Seq<char>, sign: Seq<char>, back: Seq<char>, to: Seq<char>)
    requires
        sign.len() == 3,
        sign[0] == '%',
        !front.contains('%'),
        !back.contains('%'),
    ensures
        text::replace_text(front + sign + back, sign, to) == front + to + back,
{
    let s = front + sign + back;
    let at = front.len() as int;
    text::lemma_find_from(s, sign, 0);
    assert(s.subrange(at, at + 3) =~= sign);
    assert(text::occurs_at(s, sign, at));
    let found = text::find_from(s, sign, 0);
    let i = found->0;
    assert(s.subrange(i, i + 3)[0] == s[i]);
    if i < at {
        assert(front[i] == '%');
    }
    assert(i == at);
    assert(s.take(at) =~= front);
    assert(s.skip(at + 3) =~= back);
    assert forall|k: int| !#[trigger] text::occurs_at(back, sign, k) by {
        if text::occurs_at(back, sign, k) {
            assert(back.subrange(k, k + 3)[0] == back[k]);
        }
    }
    lemma_absent(back, sign, to);
    text::lemma_split_nonempty(back, sign);
    text::lemma_join_front(front, text::split_text(back, sign), to);
}

proof fn lemma_decoded_once(drive: Seq<char>, path: Seq<char>)
    requires
        !drive.contains('%'),
        !path.contains('%'),
    ensures
        text::replace_text(drive + "%3A"@ + path, "%3A"@, ":"@) == drive + ":"@ + path,
        text::replace_text(drive + "%3a"@ + path, "%3A"@, ":"@) == drive + "%3a"@ + path,
        text::replace_text(drive + "%3a"@ + path, "%3a"@, ":"@) == drive + ":"@ + path,
{
    reveal_strlit("%3A");
    reveal_strlit("%3a");
    lemma_replaced_once(drive, "%3A"@, path, ":"@);
    lemma_replaced_once(drive, "%3a"@, path, ":"@);
    let s = drive + "%3a"@ + path;
    let at = drive.len() as int;
    assert forall|i: int| !#[trigger] text::occurs_at(s, "%3A"@, i) by {
        if text::occurs_at(s, "%3A"@, i) {
            assert(s.subrange(i, i + 3)[0] == s[i]);
            assert(s.subrange(i, i + 3)[2] == s[i + 2]);
            if i < at {
                assert(drive[i] == '%');
            } else if i >= at + 3 {
                assert(path[i - at - 3] == '%');
            }
        }
    }
    lemma_absent(s, "%3A"@, ":"@);
}

/// A client begins with the project at its root if that is registered, and else with
/// the first one there is; without either it is told what the configuration gave.
pub proof fn law_which_project_a_client_begins_with(
    name: String,
    path: String,
    loaded: LoadedProjects,
)
    ensures
        chosen_project(Some((name, path)), loaded) == Some((name@, path@)),
        loaded matches Ok(projects) ==> chosen_project(None, loaded) == (if projects@.len() == 0 {
            None
        } else {
            Some((projects@[0].name@, projects@[0].path@))
        }),
        loaded is Err ==> chosen_project(None, loaded) is None,
        loaded matches Err(error) ==> fallback_text(loaded)
            == "Fallback failed. load_config result: "@ + ("Err("@ + error@ + ")"@) + ". "@,
        loaded is Ok ==> fallback_text(loaded) == "Fallback failed. load_config result: "@
            + "Ok(\"Projects keys: []\")"@ + ". "@,
{
}

} // verus!
