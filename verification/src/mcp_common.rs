//! The Model Context Protocol: its messages and the tools that are offered.

use crate::json::{JsonModel, JsonValue};
use crate::records::{FileGraphContext, GraphSummary, StoredFunction};
use crate::text;
use crate::text::{concat2, concat3, decimal_i64, decimal_usize, join};
use vstd::prelude::*;

verus! {

/// A JSON-RPC 2.0 request.
#[derive(Debug, PartialEq, Eq)]
pub struct JsonRpcRequest {
    pub jsonrpc: String,
    pub id: Option<JsonValue>,
    pub method: String,
    pub params: Option<JsonValue>,
}

/// A JSON-RPC 2.0 response.
#[derive(Debug, PartialEq, Eq)]
pub struct JsonRpcResponse {
    pub jsonrpc: &'static str,
    pub id: JsonValue,
    pub result: Option<JsonValue>,
    pub error: Option<JsonRpcError>,
}

/// The error in a JSON-RPC 2.0 response.
#[derive(Debug, PartialEq, Eq)]
pub struct JsonRpcError {
    pub code: i64,
    pub message: String,
}

/// The result of `initialize`.
#[derive(Debug, PartialEq, Eq)]
pub struct InitializeResult {
    pub protocol_version: &'static str,
    pub capabilities: ServerCapabilities,
    pub server_info: ServerInfo,
}

/// What a server can do.
#[derive(Debug, PartialEq, Eq)]
pub struct ServerCapabilities {
    pub tools: ToolsCapability,
}

/// Whether the list of tools may change.
#[derive(Debug, PartialEq, Eq)]
pub struct ToolsCapability {
    pub list_changed: Option<bool>,
}

/// Name and version of a server.
#[derive(Debug, PartialEq, Eq)]
pub struct ServerInfo {
    pub name: &'static str,
    pub version: &'static str,
}

/// The result of `tools/list`.
#[derive(Debug, PartialEq, Eq)]
pub struct ToolListResult {
    pub tools: Vec<ToolDefinition>,
}

/// A tool: its name, what it does, and the JSON Schema of its arguments.
#[derive(Debug, PartialEq, Eq)]
pub struct ToolDefinition {
    pub name: &'static str,
    pub description: &'static str,
    pub input_schema: JsonValue,
}

/// The result of `tools/call`.
#[derive(Debug, PartialEq, Eq)]
pub struct ToolCallResult {
    pub content: Vec<ContentBlock>,
    pub is_error: Option<bool>,
}

/// A block of the result of a tool.
#[derive(Debug, PartialEq, Eq)]
pub struct ContentBlock {
    pub kind: &'static str,
    pub text: String,
}

/// The parameters of `tools/call`. The arguments are a JSON object.
#[derive(Debug, PartialEq, Eq)]
pub struct ToolCallParams {
    pub name: String,
    pub arguments: JsonValue,
}

// ---------------------------------------------------------------------------
// Tools
// ---------------------------------------------------------------------------

/// A `ToolDefinition` as mathematics has it.
#[verifier::ext_equal]
pub struct ToolModel {
    pub name: Seq<char>,
    pub description: Seq<char>,
    pub input_schema: JsonModel,
}

impl DeepView for ToolDefinition {
    type V = ToolModel;

    open spec fn deep_view(&self) -> ToolModel {
        ToolModel {
            name: self.name@,
            description: self.description@,
            input_schema: self.input_schema.model(),
        }
    }
}

/// The schema of an object with the given properties.
pub open spec fn object_schema(properties: JsonModel) -> JsonModel {
    JsonModel::object().with("type"@, JsonModel::Text("object"@)).with("properties"@, properties)
}

/// The schema of a text with a description.
pub open spec fn text_schema(description: Seq<char>) -> JsonModel {
    JsonModel::object().with("type"@, JsonModel::Text("string"@)).with(
        "description"@,
        JsonModel::Text(description),
    )
}

/// The schema of no arguments.
pub open spec fn no_arguments() -> JsonModel {
    object_schema(JsonModel::object()).with("additionalProperties"@, JsonModel::Bool(false))
}

/// The schema of one argument, a text.
pub open spec fn one_argument(name: Seq<char>, description: Seq<char>) -> JsonModel {
    object_schema(JsonModel::object().with(name, text_schema(description))).with(
        "required"@,
        JsonModel::list().item(JsonModel::Text(name)),
    ).with("additionalProperties"@, JsonModel::Bool(false))
}

/// The schema of the arguments of `record_lesson`.
pub open spec fn lesson_arguments() -> JsonModel {
    object_schema(
        JsonModel::object().with(
            "file_path"@,
            text_schema("Absolute path of the file that failed"@),
        ).with(
            "symbol_name"@,
            text_schema("Optional name of the class or function where the error occurred"@),
        ).with(
            "error_context"@,
            text_schema("Details about the error context or compilation message"@),
        ).with("solution"@, text_schema("Short fix or lesson learned"@)),
    ).with(
        "required"@,
        JsonModel::list().item(JsonModel::Text("file_path"@)).item(
            JsonModel::Text("error_context"@),
        ).item(JsonModel::Text("solution"@)),
    ).with("additionalProperties"@, JsonModel::Bool(false))
}

/// The tools, in the order in which they are listed.
pub open spec fn tool_models() -> Seq<ToolModel> {
    seq![
        ToolModel {
            name: "ozymem_get_schema"@,
            description: "Obtener esquema general de archivos e idiomas del proyecto actual registrado en Memgraph."@,
            input_schema: no_arguments(),
        },
        ToolModel {
            name: "ozymem_find_symbol"@,
            description: "Buscar la ubicación de un símbolo/función específico por nombre dentro del proyecto."@,
            input_schema: one_argument("symbol_name"@, "Nombre del símbolo o función a buscar"@),
        },
        ToolModel {
            name: "graph_summary"@,
            description: "Summarize the indexed graph with file and function counts."@,
            input_schema: no_arguments(),
        },
        ToolModel {
            name: "file_context"@,
            description: "Return the indexed file context, including language, strategy, and functions."@,
            input_schema: one_argument("file_path"@, "Path used when the file was indexed"@),
        },
        ToolModel {
            name: "record_lesson"@,
            description: "Record an error-to-fix lesson for a file or symbol as historical memory."@,
            input_schema: lesson_arguments(),
        },
        ToolModel {
            name: "file_trace"@,
            description: "Trace incoming/reverse dependencies of an indexed file (impact analysis / who depends on this file)."@,
            input_schema: one_argument(
                "file_path"@,
                "Path of the file to trace reverse dependencies for"@,
            ),
        },
    ]
}

fn object_schema_value(properties: JsonValue) -> (r: JsonValue)
    ensures
        r.model() == object_schema(properties.model()),
{
    JsonValue::object().with("type", JsonValue::text("object")).with("properties", properties)
}

fn text_schema_value(description: &str) -> (r: JsonValue)
    ensures
        r.model() == text_schema(description@),
{
    JsonValue::object().with("type", JsonValue::text("string")).with(
        "description",
        JsonValue::text(description),
    )
}

fn no_arguments_value() -> (r: JsonValue)
    ensures
        r.model() == no_arguments(),
{
    object_schema_value(JsonValue::object()).with("additionalProperties", JsonValue::Bool(false))
}

fn one_argument_value(name: &str, description: &str) -> (r: JsonValue)
    ensures
        r.model() == one_argument(name@, description@),
{
    object_schema_value(JsonValue::object().with(name, text_schema_value(description))).with(
        "required",
        JsonValue::list().item(JsonValue::text(name)),
    ).with("additionalProperties", JsonValue::Bool(false))
}

fn lesson_arguments_value() -> (r: JsonValue)
    ensures
        r.model() == lesson_arguments(),
{
    object_schema_value(
        JsonValue::object().with(
            "file_path",
            text_schema_value("Absolute path of the file that failed"),
        ).with(
            "symbol_name",
            text_schema_value("Optional name of the class or function where the error occurred"),
        ).with(
            "error_context",
            text_schema_value("Details about the error context or compilation message"),
        ).with("solution", text_schema_value("Short fix or lesson learned")),
    ).with(
        "required",
        JsonValue::list().item(JsonValue::text("file_path")).item(
            JsonValue::text("error_context"),
        ).item(JsonValue::text("solution")),
    ).with("additionalProperties", JsonValue::Bool(false))
}

/// All tools, with their name, description and JSON Schema.
pub fn get_tools_list() -> (r: Vec<ToolDefinition>)
    ensures
        r.deep_view() == tool_models(),
{
    let r = vec![
        ToolDefinition {
            name: "ozymem_get_schema",
            description: "Obtener esquema general de archivos e idiomas del proyecto actual registrado en Memgraph.",
            input_schema: no_arguments_value(),
        },
        ToolDefinition {
            name: "ozymem_find_symbol",
            description: "Buscar la ubicación de un símbolo/función específico por nombre dentro del proyecto.",
            input_schema: one_argument_value(
                "symbol_name",
                "Nombre del símbolo o función a buscar",
            ),
        },
        ToolDefinition {
            name: "graph_summary",
            description: "Summarize the indexed graph with file and function counts.",
            input_schema: no_arguments_value(),
        },
        ToolDefinition {
            name: "file_context",
            description: "Return the indexed file context, including language, strategy, and functions.",
            input_schema: one_argument_value("file_path", "Path used when the file was indexed"),
        },
        ToolDefinition {
            name: "record_lesson",
            description: "Record an error-to-fix lesson for a file or symbol as historical memory.",
            input_schema: lesson_arguments_value(),
        },
        ToolDefinition {
            name: "file_trace",
            description: "Trace incoming/reverse dependencies of an indexed file (impact analysis / who depends on this file).",
            input_schema: one_argument_value(
                "file_path",
                "Path of the file to trace reverse dependencies for",
            ),
        },
    ];
    assert(r.deep_view() =~= tool_models());
    r
}

// ---------------------------------------------------------------------------
// Texts
// ---------------------------------------------------------------------------

/// One line for each function of a file.
pub open spec fn function_lines(functions: Seq<StoredFunction>) -> Seq<char>
    decreases functions.len(),
{
    if functions.len() == 0 {
        Seq::empty()
    } else {
        let f = functions.last();
        function_lines(functions.drop_last()) + ("\n- "@ + f.name@ + " ["@ + f.kind@ + "] lines "@
            + text::decimal(f.start_line as int) + "-"@ + text::decimal(f.end_line as int)
            + " via "@ + f.strategy@)
    }
}

/// A file of the graph in words.
pub open spec fn context_text(context: Option<FileGraphContext>, file_path: Seq<char>) -> Seq<
    char,
> {
    match context {
        None => "No indexed file found for "@ + file_path,
        Some(c) => "File: "@ + c.file_path@ + "\nLanguage: "@ + c.language@ + "\nFunctions: "@
            + text::decimal(c.functions@.len() as int) + function_lines(c.functions@),
    }
}

/// A file of the graph in words, with one line for each of its functions.
pub fn format_file_context(context: Option<&FileGraphContext>, file_path: &str) -> (r: String)
    ensures
        r@ == context_text(
            match context {
                Some(c) => Some(*c),
                None => None,
            },
            file_path@,
        ),
{
    let context = match context {
        Some(context) => context,
        None => {
            return concat2("No indexed file found for ", file_path);
        },
    };
    let mut output = "File: ".to_string();
    output.append(context.file_path.as_str());
    output.append("\nLanguage: ");
    output.append(context.language.as_str());
    output.append("\nFunctions: ");
    output.append(decimal_usize(context.functions.len()).as_str());
    let ghost head = output@;
    let ghost all = context.functions@;
    let mut i: usize = 0;
    assert(head + function_lines(all.take(0)) == head);
    while i < context.functions.len()
        invariant
            i <= all.len(),
            all == context.functions@,
            output@ == head + function_lines(all.take(i as int)),
        decreases all.len() - i,
    {
        let f = &context.functions[i];
        let mut line = "\n- ".to_string();
        line.append(f.name.as_str());
        line.append(" [");
        line.append(f.kind.as_str());
        line.append("] lines ");
        line.append(decimal_i64(f.start_line).as_str());
        line.append("-");
        line.append(decimal_i64(f.end_line).as_str());
        line.append(" via ");
        line.append(f.strategy.as_str());
        let ghost before = output@;
        output.append(line.as_str());
        proof {
            assert(all.take(i + 1).drop_last() == all.take(i as int));
            assert(head + (function_lines(all.take(i as int)) + line@) == before + line@);
        }
        i += 1;
    }
    assert(all.take(i as int) == all);
    output
}

/// Each text as a line that begins with a dash.
pub open spec fn dashed_lines(items: Seq<Seq<char>>) -> Seq<char>
    decreases items.len(),
{
    if items.len() == 0 {
        Seq::empty()
    } else {
        dashed_lines(items.drop_last()) + ("- "@ + items.last() + "\n"@)
    }
}

/// A body with the solutions of the past in front of it, if there are any.
pub open spec fn with_engrams(history: Seq<Seq<char>>, body: Seq<char>) -> Seq<char> {
    if history.len() == 0 {
        body
    } else {
        "[HISTORICAL ENGRAMS FOR THIS FILE:\n"@ + dashed_lines(history) + "]\n\n"@ + body
    }
}

/// Appends each text as a line that begins with a dash.
fn append_dashed_lines(head: String, items: &[String]) -> (r: String)
    ensures
        r@ == head@ + dashed_lines(text::string_texts(items@)),
{
    let ghost all = text::string_texts(items@);
    let mut output = head;
    let mut i: usize = 0;
    assert(head@ + dashed_lines(all.take(0)) == head@);
    while i < items.len()
        invariant
            i <= items.len(),
            all == text::string_texts(items@),
            output@ == head@ + dashed_lines(all.take(i as int)),
        decreases items.len() - i,
    {
        let line = concat3("- ", items[i].as_str(), "\n");
        let ghost before = output@;
        output.append(line.as_str());
        proof {
            assert(all.take(i + 1).drop_last() == all.take(i as int));
            assert(all.take(i + 1).last() == items@[i as int]@);
            assert(head@ + (dashed_lines(all.take(i as int)) + line@) == before + line@);
        }
        i += 1;
    }
    assert(all.take(i as int) == all);
    output
}

/// A body with the solutions of the past in front of it, if there are any.
pub fn prepend_historical_engrams(history: &[String], body: String) -> (r: String)
    ensures
        r@ == with_engrams(text::string_texts(history@), body@),
{
    if history.len() == 0 {
        return body;
    }
    let mut output = append_dashed_lines(
        "[HISTORICAL ENGRAMS FOR THIS FILE:\n".to_string(),
        history,
    );
    output.append("]\n\n");
    output.append(body.as_str());
    output
}

/// The graph in numbers, in words.
pub open spec fn summary_text(summary: GraphSummary) -> Seq<char> {
    "Files: "@ + text::decimal(summary.file_count as int) + "\nFunctions: "@ + text::decimal(
        summary.function_count as int,
    ) + "\nEngrams: "@ + text::decimal(summary.engram_count as int) + "\nNative AST functions: "@
        + text::decimal(summary.native_ast_function_count as int)
        + "\nExtension WASM functions: "@ + text::decimal(
        summary.extension_wasm_function_count as int,
    ) + "\nText heuristic functions: "@ + text::decimal(
        summary.text_heuristic_function_count as int,
    )
}

/// The graph in numbers, in words.
pub fn format_graph_summary(summary: &GraphSummary) -> (r: String)
    ensures
        r@ == summary_text(*summary),
{
    let mut output = "Files: ".to_string();
    output.append(decimal_i64(summary.file_count).as_str());
    output.append("\nFunctions: ");
    output.append(decimal_i64(summary.function_count).as_str());
    output.append("\nEngrams: ");
    output.append(decimal_i64(summary.engram_count).as_str());
    output.append("\nNative AST functions: ");
    output.append(decimal_i64(summary.native_ast_function_count).as_str());
    output.append("\nExtension WASM functions: ");
    output.append(decimal_i64(summary.extension_wasm_function_count).as_str());
    output.append("\nText heuristic functions: ");
    output.append(decimal_i64(summary.text_heuristic_function_count).as_str());
    output
}

/// The active project and its graph in numbers, in words.
pub open spec fn schema_text(project: Seq<char>, path: Seq<char>, summary: GraphSummary) -> Seq<
    char,
> {
    "Proyecto Activo: "@ + project + "\nRuta: "@ + path + "\nTotal Archivos: "@ + text::decimal(
        summary.file_count as int,
    ) + "\nTotal Funciones Mapeadas: "@ + text::decimal(summary.function_count as int)
        + "\nTotal Engramas Formados: "@ + text::decimal(summary.engram_count as int)
}

pub fn format_schema(project: &str, path: &str, summary: &GraphSummary) -> (r: String)
    ensures
        r@ == schema_text(project@, path@, *summary),
{
    let mut output = "Proyecto Activo: ".to_string();
    output.append(project);
    output.append("\nRuta: ");
    output.append(path);
    output.append("\nTotal Archivos: ");
    output.append(decimal_i64(summary.file_count).as_str());
    output.append("\nTotal Funciones Mapeadas: ");
    output.append(decimal_i64(summary.function_count).as_str());
    output.append("\nTotal Engramas Formados: ");
    output.append(decimal_i64(summary.engram_count).as_str());
    output
}

/// What a search for a symbol found, in words.
pub open spec fn symbol_text(symbol: Seq<char>, project: Seq<char>, found: Seq<Seq<char>>) -> Seq<
    char,
> {
    if found.len() == 0 {
        "Símbolo '"@ + symbol + "' no encontrado en el proyecto '"@ + project + "'."@
    } else {
        "Resultados para la búsqueda de '"@ + symbol + "':\n"@ + text::join_texts(found, "\n"@)
    }
}

pub fn format_symbol(symbol: &str, project: &str, found: &Vec<String>) -> (r: String)
    ensures
        r@ == symbol_text(symbol@, project@, found.deep_view()),
{
    if found.len() == 0 {
        let mut output = "Símbolo '".to_string();
        output.append(symbol);
        output.append("' no encontrado en el proyecto '");
        output.append(project);
        output.append("'.");
        output
    } else {
        let mut output = "Resultados para la búsqueda de '".to_string();
        output.append(symbol);
        output.append("':\n");
        output.append(join(found, "\n").as_str());
        output
    }
}

/// The answer to a lesson that was recorded.
pub open spec fn lesson_text(file_path: Seq<char>, symbol: Option<Seq<char>>) -> Seq<char> {
    match symbol {
        Some(s) => "Recorded lesson for "@ + file_path + "::"@ + s,
        None => "Recorded lesson for "@ + file_path,
    }
}

pub fn format_lesson(file_path: &str, symbol: &Option<String>) -> (r: String)
    ensures
        r@ == lesson_text(file_path@, symbol.deep_view()),
{
    let mut output = concat2("Recorded lesson for ", file_path);
    if let Some(s) = symbol {
        output.append("::");
        output.append(s.as_str());
    }
    output
}

/// The files that depend on a file, in words.
pub open spec fn trace_text(file_path: Seq<char>, incoming: Seq<Seq<char>>) -> Seq<char> {
    "Reverse dependencies (files impacted by changes to "@ + file_path + "):\n"@ + if incoming.len()
        == 0 {
        "- (none)"@
    } else {
        dashed_lines(incoming)
    }
}

pub fn format_trace(file_path: &str, incoming: &Vec<String>) -> (r: String)
    ensures
        r@ == trace_text(file_path@, incoming.deep_view()),
{
    let head = concat3("Reverse dependencies (files impacted by changes to ", file_path, "):\n");
    if incoming.len() == 0 {
        concat2(head.as_str(), "- (none)")
    } else {
        assert(text::string_texts(incoming@) == incoming.deep_view());
        append_dashed_lines(head, incoming.as_slice())
    }
}

// ---------------------------------------------------------------------------
// Responses
// ---------------------------------------------------------------------------

/// A `JsonRpcResponse` as mathematics has it.
#[verifier::ext_equal]
pub struct ResponseModel {
    pub jsonrpc: Seq<char>,
    pub id: JsonModel,
    pub result: Option<JsonModel>,
    pub error: Option<(int, Seq<char>)>,
}

impl JsonRpcResponse {
    pub open spec fn model(self) -> ResponseModel {
        ResponseModel {
            jsonrpc: self.jsonrpc@,
            id: self.id.model(),
            result: match self.result {
                Some(v) => Some(v.model()),
                None => None,
            },
            error: match self.error {
                Some(e) => Some((e.code as int, e.message@)),
                None => None,
            },
        }
    }
}

pub open spec fn success(id: JsonModel, result: JsonModel) -> ResponseModel {
    ResponseModel { jsonrpc: "2.0"@, id, result: Some(result), error: None }
}

pub open spec fn failure(id: JsonModel, code: int, message: Seq<char>) -> ResponseModel {
    ResponseModel { jsonrpc: "2.0"@, id, result: None, error: Some((code, message)) }
}

/// The response to a request that went well.
pub fn ok_response(id: JsonValue, result: JsonValue) -> (r: JsonRpcResponse)
    ensures
        r.model() == success(id.model(), result.model()),
        r.id == id,
        r.result == Some(result),
{
    JsonRpcResponse { jsonrpc: "2.0", id, result: Some(result), error: None }
}

/// The response to a request that failed.
pub fn error_response(id: JsonValue, code: i64, message: &str) -> (r: JsonRpcResponse)
    ensures
        r.model() == failure(id.model(), code as int, message@),
        r.id == id,
{
    JsonRpcResponse {
        jsonrpc: "2.0",
        id,
        result: None,
        error: Some(JsonRpcError { code, message: message.to_string() }),
    }
}

/// The text that the arguments of a tool hold under a key; an error if they hold
/// none.
pub fn read_string_argument(arguments: &JsonValue, key: &str) -> (r: Result<String, String>)
    ensures
        match r {
            Ok(value) => arguments.model().text_at(key@) == Some(value@),
            Err(message) => arguments.model().text_at(key@) is None && message@
                == "missing required string argument: "@ + key@,
        },
{
    match arguments.get_str(key) {
        Some(value) => Ok(value.to_string()),
        None => Err(concat2("missing required string argument: ", key)),
    }
}

impl ResponseModel {
    /// The response in JSON: a result or an error is left out if there is none.
    pub open spec fn json(self) -> JsonModel {
        let head = JsonModel::object().with("jsonrpc"@, JsonModel::Text(self.jsonrpc)).with(
            "id"@,
            self.id,
        );
        let with_result = match self.result {
            Some(v) => head.with("result"@, v),
            None => head,
        };
        match self.error {
            Some((code, message)) => with_result.with(
                "error"@,
                JsonModel::object().with("code"@, JsonModel::Number(text::decimal(code))).with(
                    "message"@,
                    JsonModel::Text(message),
                ),
            ),
            None => with_result,
        }
    }
}

impl JsonRpcResponse {
    /// The response in JSON.
    pub fn into_json(self) -> (r: JsonValue)
        ensures
            r.model() == self.model().json(),
    {
        let JsonRpcResponse { jsonrpc, id, result, error } = self;
        let mut out = JsonValue::object().with("jsonrpc", JsonValue::text(jsonrpc)).with("id", id);
        if let Some(v) = result {
            out = out.with("result", v);
        }
        if let Some(e) = error {
            out = out.with(
                "error",
                JsonValue::object().with("code", JsonValue::number(e.code)).with(
                    "message",
                    JsonValue::text(e.message.as_str()),
                ),
            );
        }
        out
    }
}

/// The result of `initialize` in JSON.
pub open spec fn initialize_json(info: InitializeResult) -> JsonModel {
    let tools = match info.capabilities.tools.list_changed {
        Some(b) => JsonModel::object().with("listChanged"@, JsonModel::Bool(b)),
        None => JsonModel::object(),
    };
    JsonModel::object().with("protocolVersion"@, JsonModel::Text(info.protocol_version@)).with(
        "capabilities"@,
        JsonModel::object().with("tools"@, tools),
    ).with(
        "serverInfo"@,
        JsonModel::object().with("name"@, JsonModel::Text(info.server_info.name@)).with(
            "version"@,
            JsonModel::Text(info.server_info.version@),
        ),
    )
}

impl InitializeResult {
    /// The result in JSON.
    pub fn into_json(self) -> (r: JsonValue)
        ensures
            r.model() == initialize_json(self),
    {
        let tools = match self.capabilities.tools.list_changed {
            Some(b) => JsonValue::object().with("listChanged", JsonValue::Bool(b)),
            None => JsonValue::object(),
        };
        JsonValue::object().with("protocolVersion", JsonValue::text(self.protocol_version)).with(
            "capabilities",
            JsonValue::object().with("tools", tools),
        ).with(
            "serverInfo",
            JsonValue::object().with("name", JsonValue::text(self.server_info.name)).with(
                "version",
                JsonValue::text(self.server_info.version),
            ),
        )
    }
}

impl ToolModel {
    /// The tool in JSON.
    pub open spec fn json(self) -> JsonModel {
        JsonModel::object().with("name"@, JsonModel::Text(self.name)).with(
            "description"@,
            JsonModel::Text(self.description),
        ).with("inputSchema"@, self.input_schema)
    }
}

/// The tools in JSON.
pub open spec fn tools_json(tools: Seq<ToolModel>) -> JsonModel {
    JsonModel::object().with(
        "tools"@,
        JsonModel::List(Seq::new(tools.len(), |i: int| tools[i].json())),
    )
}

impl ToolListResult {
    /// The result in JSON.
    pub fn into_json(self) -> (r: JsonValue)
        ensures
            r.model() == tools_json(self.tools.deep_view()),
    {
        let ghost all = self.tools.deep_view();
        let mut rest = self.tools;
        let mut list = JsonValue::list();
        let ghost mut done: int = 0;
        assert(all.skip(0) == all);
        while rest.len() > 0
            invariant
                0 <= done <= all.len(),
                rest.deep_view() == all.skip(done),
                list.model() is List,
                list.model()->List_0.len() == done,
                forall|k: int|
                    0 <= k < done ==> (#[trigger] list.model()->List_0[k]) == all[k].json(),
            decreases rest@.len(),
        {
            let ghost before = rest.deep_view();
            assert(before.len() == rest@.len());
            assert(before[0] == all[done]);
            let tool = rest.remove(0);
            assert(tool.deep_view() == all[done]);
            let value = JsonValue::object().with("name", JsonValue::text(tool.name)).with(
                "description",
                JsonValue::text(tool.description),
            ).with("inputSchema", tool.input_schema);
            list = list.item(value);
            proof {
                assert(rest.deep_view() =~= before.skip(1));
                assert(before.skip(1) =~= all.skip(done + 1));
                done = done + 1;
            }
        }
        assert(rest.deep_view().len() == 0);
        assert(list.model()->List_0 =~= Seq::new(all.len(), |i: int| all[i].json()));
        JsonValue::object().with("tools", list)
    }
}

/// The result of a tool in JSON.
pub open spec fn result_json(content: Seq<(Seq<char>, Seq<char>)>, is_error: Option<bool>) -> JsonModel {
    let head = JsonModel::object().with(
        "content"@,
        JsonModel::List(
            Seq::new(
                content.len(),
                |i: int|
                    JsonModel::object().with("type"@, JsonModel::Text(content[i].0)).with(
                        "text"@,
                        JsonModel::Text(content[i].1),
                    ),
            ),
        ),
    );
    match is_error {
        Some(b) => head.with("isError"@, JsonModel::Bool(b)),
        None => head,
    }
}

impl ToolCallResult {
    pub open spec fn blocks(self) -> Seq<(Seq<char>, Seq<char>)> {
        Seq::new(self.content@.len(), |i: int| (self.content@[i].kind@, self.content@[i].text@))
    }

    /// The result in JSON.
    pub fn into_json(self) -> (r: JsonValue)
        ensures
            r.model() == result_json(self.blocks(), self.is_error),
    {
        let ghost all = self.blocks();
        let mut list = JsonValue::list();
        let mut i: usize = 0;
        assert(list.model()->List_0 == result_json(all.take(0), None)->Object_0[0].1->List_0);
        while i < self.content.len()
            invariant
                i <= self.content@.len(),
                all == self.blocks(),
                list.model() is List,
                list.model()->List_0.len() == i,
                forall|k: int|
                    0 <= k < i ==> (#[trigger] list.model()->List_0[k]) == JsonModel::object().with(
                        "type"@,
                        JsonModel::Text(all[k].0),
                    ).with("text"@, JsonModel::Text(all[k].1)),
            decreases self.content@.len() - i,
        {
            let block = &self.content[i];
            let value = JsonValue::object().with("type", JsonValue::text(block.kind)).with(
                "text",
                JsonValue::text(block.text.as_str()),
            );
            list = list.item(value);
            i += 1;
        }
        assert(list.model()->List_0 =~= Seq::new(
            all.len(),
            |i: int|
                JsonModel::object().with("type"@, JsonModel::Text(all[i].0)).with(
                    "text"@,
                    JsonModel::Text(all[i].1),
                ),
        ));
        let head = JsonValue::object().with("content", list);
        match self.is_error {
            Some(b) => head.with("isError", JsonValue::Bool(b)),
            None => head,
        }
    }
}

/// A response holds a result or an error, never both, and its JSON has a member
/// for the one that it holds alone.
pub proof fn law_result_or_error(
    id: JsonModel,
    result: JsonModel,
    code: int,
    message: Seq<char>,
)
    ensures
        success(id, result).json().get("id"@) == Some(id),
        success(id, result).json().get("result"@) == Some(result),
        success(id, result).json().get("error"@) is None,
        failure(id, code, message).json().get("id"@) == Some(id),
        failure(id, code, message).json().get("error"@) == Some(
            JsonModel::object().with("code"@, JsonModel::Number(text::decimal(code))).with(
                "message"@,
                JsonModel::Text(message),
            ),
        ),
        failure(id, code, message).json().get("result"@) is None,
{
    reveal_strlit("jsonrpc");
    reveal_strlit("id");
    reveal_strlit("result");
    reveal_strlit("error");
    assert("jsonrpc"@.len() == 7 && "id"@.len() == 2 && "result"@.len() == 6 && "error"@.len()
        == 5);
    reveal_with_fuel(crate::json::lookup, 5);
    let ok = success(id, result).json()->Object_0;
    let bad = failure(id, code, message).json()->Object_0;
    assert(ok.len() == 3 && bad.len() == 3);
    assert(ok.skip(1)[0] == ok[1] && ok.skip(1).skip(1)[0] == ok[2] && ok.skip(1).skip(1).skip(
        1,
    ).len() == 0);
    assert(bad.skip(1)[0] == bad[1] && bad.skip(1).skip(1)[0] == bad[2] && bad.skip(1).skip(
        1,
    ).skip(1).len() == 0);
}

/// The text on a file is a head, with its path, its language and the number of its
/// functions, and behind it one line for each function, in their order: as many lines
/// as there are functions, each with the name, the kind, the lines and the strategy of
/// its function.
pub proof fn law_every_function_has_its_line(context: FileGraphContext, file_path: Seq<char>)
    ensures
        context_text(Some(context), file_path) == "File: "@ + context.file_path@ + "\nLanguage: "@
            + context.language@ + "\nFunctions: "@ + text::decimal(
            context.functions@.len() as int,
        ) + Seq::new(
            context.functions@.len(),
            |i: int|
                "\n- "@ + context.functions@[i].name@ + " ["@ + context.functions@[i].kind@
                    + "] lines "@ + text::decimal(context.functions@[i].start_line as int) + "-"@
                    + text::decimal(context.functions@[i].end_line as int) + " via "@
                    + context.functions@[i].strategy@,
        ).flatten(),
{
    lemma_function_lines(context.functions@);
}

proof fn lemma_function_lines(functions: Seq<StoredFunction>)
    ensures
        function_lines(functions) == Seq::new(
            functions.len(),
            |i: int|
                "\n- "@ + functions[i].name@ + " ["@ + functions[i].kind@ + "] lines "@
                    + text::decimal(functions[i].start_line as int) + "-"@ + text::decimal(
                    functions[i].end_line as int,
                ) + " via "@ + functions[i].strategy@,
        ).flatten(),
    decreases functions.len(),
{
    let lines = Seq::new(
        functions.len(),
        |i: int|
            "\n- "@ + functions[i].name@ + " ["@ + functions[i].kind@ + "] lines "@
                + text::decimal(functions[i].start_line as int) + "-"@ + text::decimal(
                functions[i].end_line as int,
            ) + " via "@ + functions[i].strategy@,
    );
    if functions.len() == 0 {
        assert(lines.flatten() =~= Seq::<char>::empty());
    } else {
        let rest = functions.drop_last();
        lemma_function_lines(rest);
        let before = Seq::new(
            rest.len(),
            |i: int|
                "\n- "@ + rest[i].name@ + " ["@ + rest[i].kind@ + "] lines "@ + text::decimal(
                    rest[i].start_line as int,
                ) + "-"@ + text::decimal(rest[i].end_line as int) + " via "@ + rest[i].strategy@,
        );
        assert(lines =~= before.push(lines.last()));
        before.lemma_flatten_push(lines.last());
    }
}

/// Every dashed item has its line, in the order of the items and nothing else.
proof fn lemma_dashed_lines(items: Seq<Seq<char>>)
    ensures
        dashed_lines(items) == Seq::new(
            items.len(),
            |i: int| "- "@ + items[i] + "\n"@,
        ).flatten(),
    decreases items.len(),
{
    let lines = Seq::new(items.len(), |i: int| "- "@ + items[i] + "\n"@);
    if items.len() == 0 {
        assert(lines.flatten() =~= Seq::<char>::empty());
    } else {
        let rest = items.drop_last();
        lemma_dashed_lines(rest);
        let before = Seq::new(rest.len(), |i: int| "- "@ + rest[i] + "\n"@);
        assert(lines =~= before.push(lines.last()));
        before.lemma_flatten_push(lines.last());
    }
}

/// The solutions of the past stand in front of the body, each in a line of its own and
/// in their order; the body stays as it is.
pub proof fn law_past_solutions_come_first(history: Seq<Seq<char>>, body: Seq<char>)
    ensures
        with_engrams(Seq::empty(), body) == body,
        history.len() > 0 ==> with_engrams(history, body)
            == "[HISTORICAL ENGRAMS FOR THIS FILE:\n"@ + Seq::new(
            history.len(),
            |i: int| "- "@ + history[i] + "\n"@,
        ).flatten() + "]\n\n"@ + body,
{
    lemma_dashed_lines(history);
}

/// The files that depend on a file are all listed, each in a line of its own and in
/// their order; that there are none is said.
pub proof fn law_every_dependent_is_listed(file_path: Seq<char>, incoming: Seq<Seq<char>>)
    ensures
        incoming.len() > 0 ==> trace_text(file_path, incoming)
            == "Reverse dependencies (files impacted by changes to "@ + file_path + "):\n"@
            + Seq::new(incoming.len(), |i: int| "- "@ + incoming[i] + "\n"@).flatten(),
        trace_text(file_path, Seq::empty())
            == "Reverse dependencies (files impacted by changes to "@ + file_path + "):\n"@
            + "- (none)"@,
{
    lemma_dashed_lines(incoming);
}

/// A text that is given under a label, in a line of its own.
proof fn lemma_labelled(front: Seq<char>, feed: Seq<char>, label: Seq<char>, value: Seq<char>)
    requires
        feed == "\n"@ + label,
    ensures
        front + feed + value == front + "\n"@ + (label + value),
{
    assert(front + feed + value =~= front + "\n"@ + (label + value));
}

proof fn lemma_join_one_more(parts: Seq<Seq<char>>, part: Seq<char>, sep: Seq<char>)
    requires
        parts.len() > 0,
    ensures
        text::join_texts(parts.push(part), sep) == text::join_texts(parts, sep) + sep + part,
{
    assert(parts.push(part).drop_last() =~= parts);
}

/// The graph in words gives each of its numbers under its own label, in a line of its
/// own.
pub proof fn law_summaries_give_every_number(summary: GraphSummary)
    ensures
        summary_text(summary) == text::join_texts(
            seq![
                "Files: "@ + text::decimal(summary.file_count as int),
                "Functions: "@ + text::decimal(summary.function_count as int),
                "Engrams: "@ + text::decimal(summary.engram_count as int),
                "Native AST functions: "@ + text::decimal(summary.native_ast_function_count as int),
                "Extension WASM functions: "@ + text::decimal(
                    summary.extension_wasm_function_count as int,
                ),
                "Text heuristic functions: "@ + text::decimal(
                    summary.text_heuristic_function_count as int,
                ),
            ],
            "\n"@,
        ),
{
    let first = seq!["Files: "@ + text::decimal(summary.file_count as int)];
    let t1 = first[0];
    assert(text::join_texts(first, "\n"@) == t1);
    reveal_strlit("\n");
    let line2 = "Functions: "@ + text::decimal(summary.function_count as int);
    let parts2 = first.push(line2);
    assert("\nFunctions: "@ == "\n"@ + "Functions: "@) by {
        reveal_strlit("\nFunctions: ");
        reveal_strlit("Functions: ");
    }
    lemma_join_one_more(first, line2, "\n"@);
    lemma_labelled(
        text::join_texts(first, "\n"@),
        "\nFunctions: "@,
        "Functions: "@,
        text::decimal(summary.function_count as int),
    );
    let line3 = "Engrams: "@ + text::decimal(summary.engram_count as int);
    let parts3 = parts2.push(line3);
    assert("\nEngrams: "@ == "\n"@ + "Engrams: "@) by {
        reveal_strlit("\nEngrams: ");
        reveal_strlit("Engrams: ");
    }
    lemma_join_one_more(parts2, line3, "\n"@);
    lemma_labelled(
        text::join_texts(parts2, "\n"@),
        "\nEngrams: "@,
        "Engrams: "@,
        text::decimal(summary.engram_count as int),
    );
    let line4 = "Native AST functions: "@ + text::decimal(summary.native_ast_function_count as int);
    let parts4 = parts3.push(line4);
    assert("\nNative AST functions: "@ == "\n"@ + "Native AST functions: "@) by {
        reveal_strlit("\nNative AST functions: ");
        reveal_strlit("Native AST functions: ");
    }
    lemma_join_one_more(parts3, line4, "\n"@);
    lemma_labelled(
        text::join_texts(parts3, "\n"@),
        "\nNative AST functions: "@,
        "Native AST functions: "@,
        text::decimal(summary.native_ast_function_count as int),
    );
    let line5 = "Extension WASM functions: "@ + text::decimal(summary.extension_wasm_function_count as int);
    let parts5 = parts4.push(line5);
    assert("\nExtension WASM functions: "@ == "\n"@ + "Extension WASM functions: "@) by {
        reveal_strlit("\nExtension WASM functions: ");
        reveal_strlit("Extension WASM functions: ");
    }
    lemma_join_one_more(parts4, line5, "\n"@);
    lemma_labelled(
        text::join_texts(parts4, "\n"@),
        "\nExtension WASM functions: "@,
        "Extension WASM functions: "@,
        text::decimal(summary.extension_wasm_function_count as int),
    );
    let line6 = "Text heuristic functions: "@ + text::decimal(summary.text_heuristic_function_count as int);
    let parts6 = parts5.push(line6);
    assert("\nText heuristic functions: "@ == "\n"@ + "Text heuristic functions: "@) by {
        reveal_strlit("\nText heuristic functions: ");
        reveal_strlit("Text heuristic functions: ");
    }
    lemma_join_one_more(parts5, line6, "\n"@);
    lemma_labelled(
        text::join_texts(parts5, "\n"@),
        "\nText heuristic functions: "@,
        "Text heuristic functions: "@,
        text::decimal(summary.text_heuristic_function_count as int),
    );
    assert(parts6 =~= seq![t1, line2, line3, line4, line5, line6]);
}

/// What was found of a symbol is all named; that nothing was found is said, with the
/// symbol and the project.
pub proof fn law_every_place_of_a_symbol_is_named(
    symbol: Seq<char>,
    project: Seq<char>,
    found: Seq<Seq<char>>,
)
    ensures
        forall|i: int|
            0 <= i < found.len() ==> text::contains_text(
                symbol_text(symbol, project, found),
                #[trigger] found[i],
            ),
        found.len() > 0 ==> text::ends_with(
            symbol_text(symbol, project, found),
            "':\n"@ + text::join_texts(found, "\n"@),
        ),
        text::contains_text(symbol_text(symbol, project, found), symbol),
        found.len() == 0 ==> text::contains_text(symbol_text(symbol, project, found), project),
{
    let all = symbol_text(symbol, project, found);
    let joined = text::join_texts(found, "\n"@);
    if found.len() > 0 {
        let front = "Resultados para la búsqueda de '"@;
        assert(all =~= front + symbol + ("':\n"@ + joined));
        text::lemma_part_is_there(front, symbol, "':\n"@ + joined);
        let tail = "':\n"@ + joined;
        assert(all.subrange(all.len() - tail.len(), all.len() as int) =~= tail);
        assert forall|i: int| 0 <= i < found.len() implies text::contains_text(
            all,
            #[trigger] found[i],
        ) by {
            text::law_joined_pieces_are_there(found, "\n"@, i);
            let at = choose|at: int| text::occurs_at(joined, found[i], at);
            let before = all.len() - joined.len();
            assert(all.subrange(before + at, before + at + found[i].len()) =~= joined.subrange(
                at,
                at + found[i].len(),
            ));
            assert(text::occurs_at(all, found[i], before + at));
        }
    } else {
        let middle = "' no encontrado en el proyecto '"@;
        text::lemma_part_is_there("Símbolo '"@, symbol, middle + project + "'."@);
        assert(all =~= "Símbolo '"@ + symbol + (middle + project + "'."@));
        text::lemma_part_is_there("Símbolo '"@ + symbol + middle, project, "'."@);
    }
}

/// The answer to a recorded lesson names the file, and the symbol if there is one.
pub proof fn law_recorded_lessons_are_named(file_path: Seq<char>, symbol: Seq<char>)
    ensures
        text::ends_with(lesson_text(file_path, None), file_path),
        text::ends_with(lesson_text(file_path, Some(symbol)), file_path + "::"@ + symbol),
        lesson_text(file_path, None) == "Recorded lesson for "@ + file_path,
        lesson_text(file_path, Some(symbol)) == lesson_text(file_path, None) + "::"@ + symbol,
{
    let whole = lesson_text(file_path, None);
    assert(whole.subrange(whole.len() - file_path.len(), whole.len() as int) =~= file_path);
    let one = lesson_text(file_path, Some(symbol));
    let tail = file_path + "::"@ + symbol;
    assert(one.subrange(one.len() - tail.len(), one.len() as int) =~= tail);
}

/// The active project is told with its name, its path and the numbers of its graph,
/// each under its own label, in a line of its own.
pub proof fn law_schemas_tell_the_project(
    project: Seq<char>,
    path: Seq<char>,
    summary: GraphSummary,
)
    ensures
        schema_text(project, path, summary) == text::join_texts(
            seq![
                "Proyecto Activo: "@ + project,
                "Ruta: "@ + path,
                "Total Archivos: "@ + text::decimal(summary.file_count as int),
                "Total Funciones Mapeadas: "@ + text::decimal(summary.function_count as int),
                "Total Engramas Formados: "@ + text::decimal(summary.engram_count as int),
            ],
            "\n"@,
        ),
{
    reveal_strlit("\n");
    let parts1 = seq!["Proyecto Activo: "@ + project];
    let line2 = "Ruta: "@ + path;
    let line3 = "Total Archivos: "@ + text::decimal(summary.file_count as int);
    let line4 = "Total Funciones Mapeadas: "@ + text::decimal(summary.function_count as int);
    let line5 = "Total Engramas Formados: "@ + text::decimal(summary.engram_count as int);
    let parts2 = parts1.push(line2);
    let parts3 = parts2.push(line3);
    let parts4 = parts3.push(line4);
    let parts5 = parts4.push(line5);
    assert("\nRuta: "@ == "\n"@ + "Ruta: "@) by {
        reveal_strlit("\nRuta: ");
        reveal_strlit("Ruta: ");
    }
    assert("\nTotal Archivos: "@ == "\n"@ + "Total Archivos: "@) by {
        reveal_strlit("\nTotal Archivos: ");
        reveal_strlit("Total Archivos: ");
    }
    assert("\nTotal Funciones Mapeadas: "@ == "\n"@ + "Total Funciones Mapeadas: "@) by {
        reveal_strlit("\nTotal Funciones Mapeadas: ");
        reveal_strlit("Total Funciones Mapeadas: ");
    }
    assert("\nTotal Engramas Formados: "@ == "\n"@ + "Total Engramas Formados: "@) by {
        reveal_strlit("\nTotal Engramas Formados: ");
        reveal_strlit("Total Engramas Formados: ");
    }
    lemma_join_one_more(parts1, line2, "\n"@);
    lemma_join_one_more(parts2, line3, "\n"@);
    lemma_join_one_more(parts3, line4, "\n"@);
    lemma_join_one_more(parts4, line5, "\n"@);
    let joined1 = text::join_texts(parts1, "\n"@);
    let joined2 = text::join_texts(parts2, "\n"@);
    let joined3 = text::join_texts(parts3, "\n"@);
    let joined4 = text::join_texts(parts4, "\n"@);
    assert(joined1 == parts1[0]);
    lemma_labelled(joined1, "\nRuta: "@, "Ruta: "@, path);
    lemma_labelled(
        joined2,
        "\nTotal Archivos: "@,
        "Total Archivos: "@,
        text::decimal(summary.file_count as int),
    );
    lemma_labelled(
        joined3,
        "\nTotal Funciones Mapeadas: "@,
        "Total Funciones Mapeadas: "@,
        text::decimal(summary.function_count as int),
    );
    lemma_labelled(
        joined4,
        "\nTotal Engramas Formados: "@,
        "Total Engramas Formados: "@,
        text::decimal(summary.engram_count as int),
    );
    assert(parts5 =~= seq!["Proyecto Activo: "@ + project, line2, line3, line4, line5]);
}

/// A schema asks for the arguments that it names and for no others; an argument is
/// a text with its description.
pub proof fn law_schemas_ask_for_their_arguments(name: Seq<char>, description: Seq<char>)
    ensures
        no_arguments().get("properties"@) == Some(JsonModel::Object(Seq::empty())),
        no_arguments().get("required"@) is None,
        no_arguments().get("additionalProperties"@) == Some(JsonModel::Bool(false)),
        one_argument(name, description).get("type"@) == Some(JsonModel::Text("object"@)),
        one_argument(name, description).get("required"@) == Some(
            JsonModel::List(seq![JsonModel::Text(name)]),
        ),
        one_argument(name, description).get("additionalProperties"@) == Some(
            JsonModel::Bool(false),
        ),
        one_argument(name, description).get("properties"@) is Some,
        one_argument(name, description).get("properties"@)->0.get(name) == Some(
            text_schema(description),
        ),
        text_schema(description).get("type"@) == Some(JsonModel::Text("string"@)),
        text_schema(description).get("description"@) == Some(JsonModel::Text(description)),
{
    lemma_schema_words();
    reveal_with_fuel(crate::json::lookup, 6);
}

proof fn lemma_schema_words()
    ensures
        "type"@.len() == 4,
        "properties"@.len() == 10,
        "required"@.len() == 8,
        "additionalProperties"@.len() == 20,
        "description"@.len() == 11,
{
    reveal_strlit("type");
    reveal_strlit("properties");
    reveal_strlit("required");
    reveal_strlit("additionalProperties");
    reveal_strlit("description");
}

/// A lesson needs the file, the error and the solution; the symbol may be left out.
pub proof fn law_what_a_lesson_needs()
    ensures
        lesson_arguments().get("required"@) == Some(
            JsonModel::List(
                seq![
                    JsonModel::Text("file_path"@),
                    JsonModel::Text("error_context"@),
                    JsonModel::Text("solution"@),
                ],
            ),
        ),
        lesson_arguments().get("additionalProperties"@) == Some(JsonModel::Bool(false)),
        lesson_arguments().get("properties"@) is Some,
        ({
            let properties = lesson_arguments().get("properties"@)->0;
            &&& properties.get("file_path"@) is Some
            &&& properties.get("symbol_name"@) is Some
            &&& properties.get("error_context"@) is Some
            &&& properties.get("solution"@) is Some
        }),
{
    lemma_schema_words();
    reveal_strlit("file_path");
    reveal_strlit("symbol_name");
    reveal_strlit("error_context");
    reveal_strlit("solution");
    assert("file_path"@.len() == 9 && "symbol_name"@.len() == 11 && "error_context"@.len() == 13
        && "solution"@.len() == 8);
    reveal_with_fuel(crate::json::lookup, 6);
    let list = JsonModel::list().item(JsonModel::Text("file_path"@)).item(
        JsonModel::Text("error_context"@),
    ).item(JsonModel::Text("solution"@));
    assert(list->List_0 =~= seq![
        JsonModel::Text("file_path"@),
        JsonModel::Text("error_context"@),
        JsonModel::Text("solution"@),
    ]);
}

/// Which arguments each tool needs.
pub proof fn law_what_the_tools_need()
    ensures
        tool_models().len() == 6,
        tool_models()[0].name == "ozymem_get_schema"@ && tool_models()[0].input_schema.get(
            "required"@,
        ) is None,
        tool_models()[1].name == "ozymem_find_symbol"@ && tool_models()[1].input_schema.get(
            "required"@,
        ) == Some(JsonModel::List(seq![JsonModel::Text("symbol_name"@)])),
        tool_models()[2].name == "graph_summary"@ && tool_models()[2].input_schema.get(
            "required"@,
        ) is None,
        tool_models()[3].name == "file_context"@ && tool_models()[3].input_schema.get(
            "required"@,
        ) == Some(JsonModel::List(seq![JsonModel::Text("file_path"@)])),
        tool_models()[4].name == "record_lesson"@ && tool_models()[4].input_schema
            == lesson_arguments(),
        tool_models()[5].name == "file_trace"@ && tool_models()[5].input_schema.get("required"@)
            == Some(JsonModel::List(seq![JsonModel::Text("file_path"@)])),
{
    law_schemas_ask_for_their_arguments(
        "symbol_name"@,
        "Nombre del símbolo o función a buscar"@,
    );
    law_schemas_ask_for_their_arguments("file_path"@, "Path used when the file was indexed"@);
    law_schemas_ask_for_their_arguments(
        "file_path"@,
        "Path of the file to trace reverse dependencies for"@,
    );
}

/// Every tool that is listed is in the list, at its place, with its name, its
/// description and its schema.
pub proof fn law_every_tool_is_in_the_list(tools: Seq<ToolModel>)
    ensures
        tools_json(tools).get("tools"@) is Some,
        ({
            let list = tools_json(tools).get("tools"@)->0;
            &&& list is List
            &&& list->List_0.len() == tools.len()
            &&& forall|i: int|
                0 <= i < tools.len() ==> {
                    let tool = #[trigger] list->List_0[i];
                    &&& tool.get("name"@) == Some(JsonModel::Text(tools[i].name))
                    &&& tool.get("description"@) == Some(JsonModel::Text(tools[i].description))
                    &&& tool.get("inputSchema"@) == Some(tools[i].input_schema)
                }
        }),
{
    reveal_strlit("name");
    reveal_strlit("description");
    reveal_strlit("inputSchema");
    assert("name"@.len() == 4 && "description"@.len() == 11 && "inputSchema"@.len() == 11
        && "description"@[0] == 'd' && "inputSchema"@[0] == 'i');
    reveal_with_fuel(crate::json::lookup, 4);
    let list = tools_json(tools).get("tools"@)->0;
    assert forall|i: int| 0 <= i < tools.len() implies {
        let tool = #[trigger] list->List_0[i];
        &&& tool.get("name"@) == Some(JsonModel::Text(tools[i].name))
        &&& tool.get("description"@) == Some(JsonModel::Text(tools[i].description))
        &&& tool.get("inputSchema"@) == Some(tools[i].input_schema)
    } by {
        assert(list->List_0[i] == tools[i].json());
    }
}

/// The result of a tool holds every block of it, at its place, with its kind and its
/// text, and says whether it is an error if that is known.
pub proof fn law_results_hold_every_block(
    content: Seq<(Seq<char>, Seq<char>)>,
    is_error: Option<bool>,
)
    ensures
        result_json(content, is_error).get("isError"@) == (match is_error {
            Some(b) => Some(JsonModel::Bool(b)),
            None => None,
        }),
        result_json(content, is_error).get("content"@) is Some,
        ({
            let list = result_json(content, is_error).get("content"@)->0;
            &&& list is List
            &&& list->List_0.len() == content.len()
            &&& forall|i: int|
                0 <= i < content.len() ==> {
                    let block = #[trigger] list->List_0[i];
                    &&& block.get("type"@) == Some(JsonModel::Text(content[i].0))
                    &&& block.get("text"@) == Some(JsonModel::Text(content[i].1))
                }
        }),
{
    reveal_strlit("content");
    reveal_strlit("isError");
    reveal_strlit("type");
    reveal_strlit("text");
    assert("content"@[0] == 'c' && "isError"@[0] == 'i' && "type"@[1] == 'y' && "text"@[1] == 'e');
    reveal_with_fuel(crate::json::lookup, 4);
    let list = result_json(content, is_error).get("content"@)->0;
    assert forall|i: int| 0 <= i < content.len() implies {
        let block = #[trigger] list->List_0[i];
        &&& block.get("type"@) == Some(JsonModel::Text(content[i].0))
        &&& block.get("text"@) == Some(JsonModel::Text(content[i].1))
    } by {
        assert(list->List_0[i] == JsonModel::object().with(
            "type"@,
            JsonModel::Text(content[i].0),
        ).with("text"@, JsonModel::Text(content[i].1)));
    }
}

/// What an end says of itself at the beginning: the protocol, its name and its
/// version.
pub proof fn law_what_an_end_says_of_itself(info: InitializeResult)
    ensures
        initialize_json(info).get("protocolVersion"@) == Some(
            JsonModel::Text(info.protocol_version@),
        ),
        initialize_json(info).get("capabilities"@) is Some,
        initialize_json(info).get("capabilities"@)->0.get("tools"@) is Some,
        initialize_json(info).get("capabilities"@)->0.get("tools"@)->0.get("listChanged"@) == (
        match info.capabilities.tools.list_changed {
            Some(b) => Some(JsonModel::Bool(b)),
            None => None,
        }),
        initialize_json(info).get("serverInfo"@) is Some,
        initialize_json(info).get("serverInfo"@)->0.get("name"@) == Some(
            JsonModel::Text(info.server_info.name@),
        ),
        initialize_json(info).get("serverInfo"@)->0.get("version"@) == Some(
            JsonModel::Text(info.server_info.version@),
        ),
{
    reveal_strlit("protocolVersion");
    reveal_strlit("capabilities");
    reveal_strlit("serverInfo");
    reveal_strlit("name");
    reveal_strlit("version");
    assert("protocolVersion"@.len() == 15 && "capabilities"@.len() == 12 && "serverInfo"@.len()
        == 10 && "name"@.len() == 4 && "version"@.len() == 7);
    reveal_with_fuel(crate::json::lookup, 4);
}

/// Every response speaks version 2.0 of the protocol, and holds what it is made
/// from.
pub proof fn law_responses_hold_what_is_given(
    id: JsonModel,
    result: JsonModel,
    code: int,
    message: Seq<char>,
)
    ensures
        success(id, result).jsonrpc == "2.0"@,
        failure(id, code, message).jsonrpc == "2.0"@,
        success(id, result).json().get("jsonrpc"@) == Some(JsonModel::Text("2.0"@)),
        failure(id, code, message).json().get("jsonrpc"@) == Some(JsonModel::Text("2.0"@)),
        success(id, result).id == id && success(id, result).result == Some(result),
        failure(id, code, message).id == id && failure(id, code, message).error == Some(
            (code, message),
        ),
        success(id, result).error is None && failure(id, code, message).result is None,
{
    reveal_strlit("jsonrpc");
    reveal_strlit("id");
    reveal_strlit("result");
    reveal_strlit("error");
    assert("jsonrpc"@.len() == 7 && "id"@.len() == 2 && "result"@.len() == 6 && "error"@.len()
        == 5);
    reveal_with_fuel(crate::json::lookup, 5);
}

} // verus!
