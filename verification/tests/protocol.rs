use ozymem::json::{set_entry, JsonValue};
use ozymem::mcp_common::{
    error_response, format_file_context, format_graph_summary, get_tools_list, ok_response,
    prepend_historical_engrams, read_string_argument, JsonRpcRequest, JsonRpcResponse,
    ToolCallResult,
};
use ozymem::projects::RegisteredProject;
use ozymem::records::{FileGraphContext, GraphSummary, StoredFunction};
use ozymem::rpc::{
    begin_request, clean_path_str, client_initialize, client_project, connection_failure,
    parse_root_uri, root_from_params, server_initialize, server_refusal, tool_response,
    tools_named, validate_project_path, McpSession, RpcStep, CLI_MCP_TOOLS, SERVER_MCP_TOOLS,
};
use ozymem::tool_call::{
    resume_tool_call, start_tool_call, BackendQuery, BackendReply, ToolStep,
};

fn to_serde(value: &JsonValue) -> serde_json::Value {
    match value {
        JsonValue::Null => serde_json::Value::Null,
        JsonValue::Bool(b) => serde_json::Value::Bool(*b),
        JsonValue::Number(n) => serde_json::Value::from(n.parse::<i64>().unwrap()),
        JsonValue::Text(s) => serde_json::Value::String(s.clone()),
        JsonValue::List(items) => serde_json::Value::Array(items.iter().map(to_serde).collect()),
        JsonValue::Object(entries) => serde_json::Value::Object(
            entries.iter().map(|(key, value)| (key.clone(), to_serde(value))).collect(),
        ),
    }
}

fn response_text(response: JsonRpcResponse) -> String {
    serde_json::to_string(&to_serde(&response.into_json())).unwrap()
}

struct MockBackend {
    graph_summary: GraphSummary,
    file_context: Option<FileGraphContext>,
    historical: Vec<String>,
    incoming: Vec<String>,
}

impl MockBackend {
    fn new() -> Self {
        Self {
            graph_summary: GraphSummary {
                file_count: 5,
                function_count: 20,
                engram_count: 3,
                native_ast_function_count: 15,
                extension_wasm_function_count: 3,
                text_heuristic_function_count: 2,
                vertex_count: 0,
                edge_count: 0,
                memory_usage: "".into(),
            },
            file_context: Some(FileGraphContext {
                file_path: "src/main.rs".into(),
                language: "Rust".into(),
                functions: vec![StoredFunction {
                    name: "main".into(),
                    kind: "Function".into(),
                    start_line: 1,
                    end_line: 50,
                    strategy: "native".into(),
                }],
            }),
            historical: vec!["fix a".into(), "fix b".into()],
            incoming: vec!["src/other.rs".into()],
        }
    }

    fn answer(&self, query: &BackendQuery) -> BackendReply {
        match query {
            BackendQuery::GraphSummary => BackendReply::Summary(self.graph_summary.clone()),
            BackendQuery::FileContext { .. } => BackendReply::Context(self.file_context.clone()),
            BackendQuery::HistoricalEngrams { .. } => BackendReply::Texts(self.historical.clone()),
            BackendQuery::RecordLesson { .. } => BackendReply::Recorded,
            BackendQuery::IncomingDependencies { .. } => BackendReply::Texts(self.incoming.clone()),
            BackendQuery::FindSymbol { .. } => BackendReply::Texts(vec!["src/lib.rs".into()]),
        }
    }
}

fn call(
    backend: &MockBackend,
    tool: &str,
    arguments: &JsonValue,
    project: Option<&str>,
    path: Option<&str>,
) -> Result<ToolCallResult, String> {
    let mut step = start_tool_call(tool, arguments, project, path);
    loop {
        match step {
            ToolStep::Ask(query, state) => {
                let reply = backend.answer(&query);
                step = resume_tool_call(state, reply);
            }
            ToolStep::Done(result) => return Ok(result),
            ToolStep::Failed(error) => return Err(error),
        }
    }
}

#[test]
fn formats_missing_context() {
    let text = format_file_context(None, "src/lib.rs");
    assert!(text.contains("No indexed file found"));
}

#[test]
fn formats_file_context_with_functions() {
    let ctx = FileGraphContext {
        file_path: "src/main.rs".into(),
        language: "Rust".into(),
        functions: vec![StoredFunction {
            name: "main".into(),
            kind: "Function".into(),
            start_line: 1,
            end_line: 50,
            strategy: "native".into(),
        }],
    };
    let text = format_file_context(Some(&ctx), "src/main.rs");
    assert!(text.contains("File: src/main.rs"));
    assert!(text.contains("Language: Rust"));
    assert!(text.contains("Functions: 1"));
    assert!(text.contains("main"));
    assert!(text.contains("[Function]"));
    assert!(text.contains("native"));
    assert_eq!(
        text,
        "File: src/main.rs\nLanguage: Rust\nFunctions: 1\n- main [Function] lines 1-50 via native"
    );
}

#[test]
fn formats_summary() {
    let summary = GraphSummary {
        file_count: 2,
        function_count: 5,
        engram_count: 1,
        native_ast_function_count: 3,
        extension_wasm_function_count: 1,
        text_heuristic_function_count: 1,
        vertex_count: 0,
        edge_count: 0,
        memory_usage: "".to_string(),
    };
    let text = format_graph_summary(&summary);
    assert!(text.contains("Files: 2"));
    assert!(text.contains("Functions: 5"));
    assert!(text.contains("Engrams: 1"));
}

#[test]
fn prepends_historical_engrams_only_when_present() {
    let body = "File: a\nLanguage: Rust\nFunctions: 1".to_string();
    let with_history =
        prepend_historical_engrams(&["fix a".to_string(), "fix b".to_string()], body.clone());
    assert!(with_history.starts_with("[HISTORICAL ENGRAMS FOR THIS FILE:"));
    assert!(with_history.contains("- fix a"));
    assert!(with_history.contains("- fix b"));
    assert!(with_history.ends_with(&body));

    let without_history = prepend_historical_engrams(&[], body.clone());
    assert_eq!(without_history, body);
}

#[test]
fn ok_response_creates_valid_response() {
    let resp = ok_response(
        JsonValue::Null,
        JsonValue::object().with("key", JsonValue::text("value")),
    );
    assert_eq!(resp.jsonrpc, "2.0");
    assert_eq!(resp.id, JsonValue::Null);
    assert!(resp.result.is_some());
    assert!(resp.error.is_none());
}

#[test]
fn error_response_creates_valid_error() {
    let resp = error_response(JsonValue::number(1), -32601, "Method not found");
    assert_eq!(resp.jsonrpc, "2.0");
    assert_eq!(resp.id, JsonValue::number(1));
    assert!(resp.result.is_none());
    assert!(resp.error.is_some());
    assert_eq!(resp.error.as_ref().unwrap().code, -32601);
    assert_eq!(resp.error.as_ref().unwrap().message, "Method not found");
}

#[test]
fn read_string_argument_extracts_value() {
    let args = JsonValue::object().with("name", JsonValue::text("test_value"));
    let result = read_string_argument(&args, "name");
    assert!(result.is_ok());
    assert_eq!(result.unwrap(), "test_value");
}

#[test]
fn read_string_argument_missing_returns_error() {
    let args = JsonValue::object();
    let result = read_string_argument(&args, "missing");
    assert!(result.is_err());
}

#[test]
fn get_tools_list_includes_expected_tools() {
    let tools = get_tools_list();
    let names: Vec<&str> = tools.iter().map(|t| t.name).collect();
    assert!(names.contains(&"ozymem_get_schema"));
    assert!(names.contains(&"ozymem_find_symbol"));
    assert!(names.contains(&"graph_summary"));
    assert!(names.contains(&"file_context"));
    assert!(names.contains(&"record_lesson"));
    assert!(names.contains(&"file_trace"));
    assert_eq!(tools.len(), 6);
}

#[test]
fn all_tools_have_name_description_and_schema() {
    for tool in get_tools_list() {
        assert!(!tool.name.is_empty(), "tool name is empty");
        assert!(!tool.description.is_empty(), "tool '{}' description is empty", tool.name);
        assert!(
            matches!(tool.input_schema, JsonValue::Object(_)),
            "tool '{}' schema is not an object",
            tool.name
        );
    }
}

#[test]
fn error_response_round_trips_through_json() {
    let resp = error_response(JsonValue::number(42), -32000, "Test error");
    let json_str = response_text(resp);
    assert!(json_str.contains("\"jsonrpc\":\"2.0\""));
    assert!(json_str.contains("\"id\":42"));
    assert!(json_str.contains("\"code\":-32000"));
    assert!(json_str.contains("\"message\":\"Test error\""));
    assert!(json_str.contains("\"error\""));
    assert!(!json_str.contains("\"result\""));
}

#[test]
fn handle_ozymem_get_schema_returns_formatted_summary() {
    let backend = MockBackend::new();
    let args = JsonValue::object();
    let result = call(&backend, "ozymem_get_schema", &args, Some("proj"), Some("/path"));
    assert!(result.is_ok());
    let tc = result.unwrap();
    let text = &tc.content[0].text;
    assert!(text.contains("Proyecto Activo: proj"));
    assert!(text.contains("Ruta: /path"));
    assert!(text.contains("Total Archivos: 5"));
}

#[test]
fn handle_ozymem_find_symbol_returns_results() {
    let backend = MockBackend::new();
    let args = JsonValue::object().with("symbol_name", JsonValue::text("main"));
    let result = call(&backend, "ozymem_find_symbol", &args, Some("proj"), Some("/path"));
    assert!(result.is_ok());
    let tc = result.unwrap();
    assert!(tc.content[0].text.contains("src/lib.rs"));
}

#[test]
fn handle_graph_summary_returns_formatted_counters() {
    let backend = MockBackend::new();
    let args = JsonValue::object();
    let result = call(&backend, "graph_summary", &args, None, None);
    assert!(result.is_ok());
    let tc = result.unwrap();
    assert!(tc.content[0].text.contains("Files: 5"));
}

#[test]
fn handle_file_context_returns_context_with_historical() {
    let backend = MockBackend::new();
    let args = JsonValue::object().with("file_path", JsonValue::text("src/main.rs"));
    let result = call(&backend, "file_context", &args, None, None);
    assert!(result.is_ok());
    let tc = result.unwrap();
    assert!(tc.content[0].text.contains("File: src/main.rs"));
    assert!(tc.content[0].text.contains("[HISTORICAL ENGRAMS"));
}

#[test]
fn handle_file_context_accepts_path_fallback() {
    let backend = MockBackend::new();
    let args = JsonValue::object().with("path", JsonValue::text("src/main.rs"));
    let result = call(&backend, "file_context", &args, None, None);
    assert!(result.is_ok());
}

#[test]
fn handle_record_lesson_returns_success_message() {
    let backend = MockBackend::new();
    let args = JsonValue::object()
        .with("file_path", JsonValue::text("src/main.rs"))
        .with("error_context", JsonValue::text("compile error"))
        .with("solution", JsonValue::text("add semicolon"));
    let result = call(&backend, "record_lesson", &args, None, None);
    assert!(result.is_ok());
    let tc = result.unwrap();
    assert!(tc.content[0].text.contains("Recorded lesson for src/main.rs"));
}

#[test]
fn handle_file_trace_returns_incoming_deps() {
    let backend = MockBackend::new();
    let args = JsonValue::object().with("file_path", JsonValue::text("src/main.rs"));
    let result = call(&backend, "file_trace", &args, None, None);
    assert!(result.is_ok());
    let tc = result.unwrap();
    assert!(tc.content[0].text.contains("src/other.rs"));
}

#[test]
fn handle_unknown_tool_returns_error() {
    let backend = MockBackend::new();
    let args = JsonValue::object();
    let result = call(&backend, "nonexistent", &args, None, None);
    assert!(result.is_err());
    assert!(result.unwrap_err().contains("Unknown tool"));
}

#[test]
fn ok_response_round_trips_through_json() {
    let resp = ok_response(
        JsonValue::number(99),
        JsonValue::object().with("status", JsonValue::text("ok")),
    );
    let json_str = response_text(resp);
    assert!(json_str.contains("\"id\":99"));
    assert!(json_str.contains("\"result\""));
    assert!(json_str.contains("\"status\":\"ok\""));
    assert!(!json_str.contains("\"error\""));
}

// ---------------------------------------------------------------------------
// Tool calls
// ---------------------------------------------------------------------------

#[test]
fn the_lesson_that_is_recorded_is_the_one_that_was_given() {
    let args = JsonValue::object()
        .with("file_path", JsonValue::text("a.rs"))
        .with("symbol_name", JsonValue::text("run"))
        .with("error_context", JsonValue::text("E"))
        .with("solution", JsonValue::text("S"));
    match start_tool_call("record_lesson", &args, None, None) {
        ToolStep::Ask(query, state) => {
            assert_eq!(
                query,
                BackendQuery::RecordLesson {
                    file_path: "a.rs".to_string(),
                    symbol_name: Some("run".to_string()),
                    error_context: "E".to_string(),
                    solution: "S".to_string(),
                }
            );
            match resume_tool_call(state, BackendReply::Recorded) {
                ToolStep::Done(result) => {
                    assert_eq!(result.content[0].text, "Recorded lesson for a.rs::run");
                    assert_eq!(result.content[0].kind, "text");
                }
                other => panic!("unexpected step: {:?}", other),
            }
        }
        other => panic!("unexpected step: {:?}", other),
    }
}

#[test]
fn a_failing_graph_fails_the_call() {
    match start_tool_call("graph_summary", &JsonValue::object(), None, None) {
        ToolStep::Ask(query, state) => {
            assert_eq!(query, BackendQuery::GraphSummary);
            match resume_tool_call(state, BackendReply::Failed("down".to_string())) {
                ToolStep::Failed(error) => assert!(error.contains("down")),
                other => panic!("unexpected step: {:?}", other),
            }
        }
        other => panic!("unexpected step: {:?}", other),
    }
}

#[test]
fn a_missing_argument_fails_the_call() {
    assert!(matches!(
        start_tool_call("file_trace", &JsonValue::object(), None, None),
        ToolStep::Failed(_)
    ));
    assert!(matches!(
        start_tool_call("record_lesson", &JsonValue::object(), None, None),
        ToolStep::Failed(_)
    ));
}

#[test]
fn every_listed_tool_is_known() {
    for tool in get_tools_list() {
        let args = JsonValue::object()
            .with("file_path", JsonValue::text("a"))
            .with("symbol_name", JsonValue::text("b"))
            .with("error_context", JsonValue::text("c"))
            .with("solution", JsonValue::text("d"));
        assert!(matches!(
            start_tool_call(tool.name, &args, Some("p"), Some("/p")),
            ToolStep::Ask(_, _)
        ));
    }
}

// ---------------------------------------------------------------------------
// Requests
// ---------------------------------------------------------------------------

fn request(id: Option<i64>, method: &str, params: Option<JsonValue>) -> JsonRpcRequest {
    JsonRpcRequest {
        jsonrpc: "2.0".to_string(),
        id: id.map(JsonValue::number),
        method: method.to_string(),
        params,
    }
}

#[test]
fn requests_of_another_version_are_refused() {
    let mut other = request(Some(7), "tools/list", None);
    other.jsonrpc = "1.0".to_string();
    match begin_request(other, &CLI_MCP_TOOLS) {
        RpcStep::Respond(response) => {
            assert_eq!(response.id, JsonValue::number(7));
            assert_eq!(response.error.unwrap().code, -32600);
        }
        step => panic!("unexpected step: {:?}", step),
    }
}

#[test]
fn notifications_are_ignored() {
    assert_eq!(begin_request(request(None, "tools/list", None), &CLI_MCP_TOOLS), RpcStep::Ignore);
    assert_eq!(
        begin_request(request(Some(1), "notifications/initialized", None), &CLI_MCP_TOOLS),
        RpcStep::Ignore
    );
}

#[test]
fn unknown_methods_are_refused_with_the_id() {
    match begin_request(request(Some(3), "unknown", None), &CLI_MCP_TOOLS) {
        RpcStep::Respond(response) => {
            assert_eq!(response.id, JsonValue::number(3));
            let error = response.error.unwrap();
            assert_eq!(error.code, -32601);
            assert_eq!(error.message, "Method not found");
        }
        step => panic!("unexpected step: {:?}", step),
    }
}

#[test]
fn a_tool_call_needs_parameters() {
    assert_eq!(
        begin_request(request(Some(3), "tools/call", None), &CLI_MCP_TOOLS),
        RpcStep::Fail("missing params for tools/call".to_string())
    );
    assert_eq!(
        begin_request(request(Some(3), "tools/call", Some(JsonValue::Null)), &CLI_MCP_TOOLS),
        RpcStep::CallTool(JsonValue::number(3), JsonValue::Null)
    );
    assert_eq!(
        begin_request(request(Some(3), "initialize", None), &CLI_MCP_TOOLS),
        RpcStep::Initialize(JsonValue::number(3), None)
    );
}

#[test]
fn each_end_lists_its_own_tools() {
    let cli: Vec<&str> = tools_named(&CLI_MCP_TOOLS).iter().map(|t| t.name).collect();
    assert_eq!(
        cli,
        vec![
            "ozymem_get_schema",
            "ozymem_find_symbol",
            "graph_summary",
            "file_context",
            "record_lesson"
        ]
    );
    let server: Vec<&str> = tools_named(&SERVER_MCP_TOOLS).iter().map(|t| t.name).collect();
    assert_eq!(server, vec!["graph_summary", "file_context", "record_lesson", "file_trace"]);
    match begin_request(request(Some(1), "tools/list", None), &SERVER_MCP_TOOLS) {
        RpcStep::Respond(response) => {
            let text = response_text(response);
            assert!(text.contains("\"name\":\"file_trace\""));
            assert!(text.contains("\"inputSchema\""));
            assert!(!text.contains("ozymem_find_symbol"));
        }
        step => panic!("unexpected step: {:?}", step),
    }
}

#[test]
fn the_server_answers_for_its_tools_only() {
    assert_eq!(server_refusal(JsonValue::number(1), "file_trace"), Ok(JsonValue::number(1)));
    let refused = server_refusal(JsonValue::number(1), "ozymem_get_schema").unwrap_err();
    assert_eq!(refused.error.unwrap().message, "Unknown tool");
    let greeting = response_text(server_initialize(JsonValue::number(1), "1.2.3"));
    assert!(greeting.contains("\"protocolVersion\":\"2024-11-05\""));
    assert!(greeting.contains("\"name\":\"ozymem-server\""));
    assert!(greeting.contains("\"version\":\"1.2.3\""));
    let down = connection_failure(JsonValue::Null, "refused");
    assert_eq!(down.error.unwrap().message, "Memgraph connection failed: refused");
    let failed = tool_response(JsonValue::number(4), Err("x".to_string()));
    assert_eq!(failed.error.unwrap().message, "Tool call error: x");
}

#[test]
fn the_root_of_a_client_is_found_in_three_places() {
    let uri = JsonValue::object().with("rootUri", JsonValue::text("file:///c%3A/p"));
    assert_eq!(root_from_params(&uri), Some("file:///c%3A/p"));
    let path = JsonValue::object()
        .with("rootUri", JsonValue::Null)
        .with("rootPath", JsonValue::text("/p"));
    assert_eq!(root_from_params(&path), Some("/p"));
    let folders = JsonValue::object().with(
        "workspaceFolders",
        JsonValue::list().item(JsonValue::object().with("uri", JsonValue::text("file:///q"))),
    );
    assert_eq!(root_from_params(&folders), Some("file:///q"));
    assert_eq!(root_from_params(&JsonValue::object()), None);
}

#[test]
fn root_addresses_become_paths() {
    assert_eq!(parse_root_uri(" file:///c%3A/Users/p "), Some("c:\\Users\\p".to_string()));
    assert_eq!(parse_root_uri("/a/b"), Some("a\\b".to_string()));
    assert_eq!(clean_path_str(r"\\?\C:\p"), r"C:\p");
}

fn registered(name: &str, path: &str, canonical: Option<&str>) -> RegisteredProject {
    RegisteredProject {
        name: name.to_string(),
        path: path.to_string(),
        canonical: canonical.map(|c| c.to_string()),
    }
}

#[test]
fn projects_are_known_whatever_their_case() {
    let projects = vec![
        registered("gone", "/gone", None),
        registered("one", "/One", Some("/One")),
        registered("two", "/one", Some("/one")),
    ];
    assert_eq!(
        validate_project_path("/ONE", &projects),
        Ok(("one".to_string(), "/One".to_string()))
    );
    assert_eq!(
        validate_project_path("/one/below", &projects),
        Err("Proyecto no registrado en ozymem.toml".to_string())
    );
}

#[test]
fn a_client_begins_with_its_project_or_the_first() {
    let mut session = McpSession { current_project: None, project_path: None };
    let refused = client_project(&session, JsonValue::number(1)).unwrap_err();
    assert_eq!(refused.error.unwrap().message, "MCP no inicializado con un proyecto válido");

    let response =
        client_initialize(&mut session, JsonValue::number(1), Some("u"), None, Ok(Vec::new()), "1");
    assert_eq!(
        response.error.unwrap().message,
        "Directorio no registrado. rootUri: u. Diag: Fallback failed. load_config result: Ok(\"Projects keys: []\"). "
    );
    assert_eq!(session.project_path, None);

    let response = client_initialize(
        &mut session,
        JsonValue::number(1),
        None,
        None,
        Ok(vec![registered("one", "/one", None)]),
        "1",
    );
    assert!(response.error.is_none());
    assert_eq!(session.current_project, Some("one".to_string()));
    assert_eq!(
        client_project(&session, JsonValue::number(2)),
        Ok((JsonValue::number(2), "/one".to_string()))
    );
}

// ---------------------------------------------------------------------------
// JSON
// ---------------------------------------------------------------------------

#[test]
fn a_value_that_is_set_is_found() {
    let entries = vec![
        ("a".to_string(), JsonValue::number(1)),
        ("b".to_string(), JsonValue::number(2)),
    ];
    let object = JsonValue::Object(set_entry(entries, "a", JsonValue::text("x")));
    assert_eq!(object.get_str("a"), Some("x"));
    assert_eq!(object.get("b"), Some(&JsonValue::number(2)));
    match object {
        JsonValue::Object(entries) => {
            let object = JsonValue::Object(set_entry(entries, "c", JsonValue::Null));
            assert_eq!(object.get("c"), Some(&JsonValue::Null));
            assert_eq!(object.get("d"), None);
        }
        other => panic!("unexpected value: {:?}", other),
    }
}

#[test]
fn values_of_other_kinds_have_no_entries() {
    assert_eq!(JsonValue::Null.get("a"), None);
    assert_eq!(JsonValue::text("x").first(), None);
    assert_eq!(JsonValue::text("x").with("a", JsonValue::Null), JsonValue::text("x"));
    assert_eq!(JsonValue::list().item(JsonValue::Bool(true)).first(), Some(&JsonValue::Bool(true)));
    assert_eq!(JsonValue::number(-7), JsonValue::Number("-7".to_string()));
}
