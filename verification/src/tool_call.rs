//! The course of a tool call: what is asked of the graph, and what is answered.
//!
//! A call begins with `start_tool_call` and goes on with `resume_tool_call` for
//! each reply of the graph, until it is done or has failed.

use crate::json::{JsonModel, JsonValue};
use crate::mcp_common;
use crate::mcp_common::{
    format_file_context, format_graph_summary, format_lesson, format_schema, format_symbol,
    format_trace, prepend_historical_engrams, ContentBlock, ToolCallResult,
};
use crate::records::{FileGraphContext, GraphSummary};
use crate::text;
use crate::text::{concat2, same_text};
use vstd::prelude::*;

verus! {

/// What a tool call asks of the graph.
#[derive(Debug, PartialEq, Eq)]
pub enum BackendQuery {
    GraphSummary,
    FileContext { file_path: String },
    HistoricalEngrams { file_path: String },
    RecordLesson {
        file_path: String,
        symbol_name: Option<String>,
        error_context: String,
        solution: String,
    },
    IncomingDependencies { file_path: String },
    FindSymbol { symbol_name: String, project_path: String },
}

/// What the graph replies.
#[derive(Debug, PartialEq, Eq)]
pub enum BackendReply {
    Summary(GraphSummary),
    Context(Option<FileGraphContext>),
    Texts(Vec<String>),
    Recorded,
    Failed(String),
}

/// Where a tool call stands while it waits for a reply.
#[derive(Debug, PartialEq, Eq)]
pub enum ToolCallState {
    Schema { project: String, path: String },
    FindSymbol { symbol_name: String, project: String },
    Summary,
    Context { file_path: String },
    Engrams { body: String },
    Lesson { file_path: String, symbol_name: Option<String> },
    Trace { file_path: String },
}

/// The next step of a tool call.
#[derive(Debug, PartialEq, Eq)]
pub enum ToolStep {
    Ask(BackendQuery, ToolCallState),
    Done(ToolCallResult),
    Failed(String),
}

/// A `BackendQuery` as mathematics has it.
#[verifier::ext_equal]
pub enum QueryModel {
    GraphSummary,
    FileContext { file_path: Seq<char> },
    HistoricalEngrams { file_path: Seq<char> },
    RecordLesson {
        file_path: Seq<char>,
        symbol_name: Option<Seq<char>>,
        error_context: Seq<char>,
        solution: Seq<char>,
    },
    IncomingDependencies { file_path: Seq<char> },
    FindSymbol { symbol_name: Seq<char>, project_path: Seq<char> },
}

/// A `BackendReply` as mathematics has it.
#[verifier::ext_equal]
pub enum ReplyModel {
    Summary(GraphSummary),
    Context(Option<FileGraphContext>),
    Texts(Seq<Seq<char>>),
    Recorded,
    Failed(Seq<char>),
}

/// A `ToolCallState` as mathematics has it.
#[verifier::ext_equal]
pub enum StateModel {
    Schema { project: Seq<char>, path: Seq<char> },
    FindSymbol { symbol_name: Seq<char>, project: Seq<char> },
    Summary,
    Context { file_path: Seq<char> },
    Engrams { body: Seq<char> },
    Lesson { file_path: Seq<char>, symbol_name: Option<Seq<char>> },
    Trace { file_path: Seq<char> },
}

/// A `ToolCallResult` as mathematics has it.
#[verifier::ext_equal]
pub struct ResultModel {
    pub content: Seq<(Seq<char>, Seq<char>)>,
    pub is_error: Option<bool>,
}

/// A `ToolStep` as mathematics has it.
#[verifier::ext_equal]
pub enum StepModel {
    Ask(QueryModel, StateModel),
    Done(ResultModel),
    Failed(Seq<char>),
}

impl BackendQuery {
    pub open spec fn model(self) -> QueryModel {
        match self {
            BackendQuery::GraphSummary => QueryModel::GraphSummary,
            BackendQuery::FileContext { file_path } => QueryModel::FileContext {
                file_path: file_path@,
            },
            BackendQuery::HistoricalEngrams { file_path } => QueryModel::HistoricalEngrams {
                file_path: file_path@,
            },
            BackendQuery::RecordLesson { file_path, symbol_name, error_context, solution } => {
                QueryModel::RecordLesson {
                    file_path: file_path@,
                    symbol_name: symbol_name.deep_view(),
                    error_context: error_context@,
                    solution: solution@,
                }
            },
            BackendQuery::IncomingDependencies { file_path } => QueryModel::IncomingDependencies {
                file_path: file_path@,
            },
            BackendQuery::FindSymbol { symbol_name, project_path } => QueryModel::FindSymbol {
                symbol_name: symbol_name@,
                project_path: project_path@,
            },
        }
    }
}

impl BackendReply {
    pub open spec fn model(self) -> ReplyModel {
        match self {
            BackendReply::Summary(summary) => ReplyModel::Summary(summary),
            BackendReply::Context(context) => ReplyModel::Context(context),
            BackendReply::Texts(texts) => ReplyModel::Texts(texts.deep_view()),
            BackendReply::Recorded => ReplyModel::Recorded,
            BackendReply::Failed(message) => ReplyModel::Failed(message@),
        }
    }
}

impl ToolCallState {
    pub open spec fn model(self) -> StateModel {
        match self {
            ToolCallState::Schema { project, path } => StateModel::Schema {
                project: project@,
                path: path@,
            },
            ToolCallState::FindSymbol { symbol_name, project } => StateModel::FindSymbol {
                symbol_name: symbol_name@,
                project: project@,
            },
            ToolCallState::Summary => StateModel::Summary,
            ToolCallState::Context { file_path } => StateModel::Context { file_path: file_path@ },
            ToolCallState::Engrams { body } => StateModel::Engrams { body: body@ },
            ToolCallState::Lesson { file_path, symbol_name } => StateModel::Lesson {
                file_path: file_path@,
                symbol_name: symbol_name.deep_view(),
            },
            ToolCallState::Trace { file_path } => StateModel::Trace { file_path: file_path@ },
        }
    }
}

impl ToolCallResult {
    pub open spec fn model(self) -> ResultModel {
        ResultModel {
            content: self.blocks(),
            is_error: self.is_error,
        }
    }
}

impl ToolStep {
    pub open spec fn model(self) -> StepModel {
        match self {
            ToolStep::Ask(query, state) => StepModel::Ask(query.model(), state.model()),
            ToolStep::Done(result) => StepModel::Done(result.model()),
            ToolStep::Failed(message) => StepModel::Failed(message@),
        }
    }
}

/// A result of one block of text.
pub open spec fn text_result(text: Seq<char>) -> ResultModel {
    ResultModel { content: seq![("text"@, text)], is_error: None }
}

fn done(text: String) -> (r: ToolStep)
    ensures
        r.model() == StepModel::Done(text_result(text@)),
{
    let result = ToolCallResult {
        content: vec![ContentBlock { kind: "text", text }],
        is_error: None,
    };
    assert(result.model() =~= text_result(text@));
    ToolStep::Done(result)
}

fn failed(message: &str) -> (r: ToolStep)
    ensures
        r.model() == StepModel::Failed(message@),
{
    ToolStep::Failed(message.to_string())
}

/// The text, or nothing.
pub open spec fn or_empty(text: Option<Seq<char>>) -> Seq<char> {
    match text {
        Some(s) => s,
        None => ""@,
    }
}

/// The path that the arguments give, under its name or its short name.
pub open spec fn path_argument(arguments: JsonModel) -> Option<Seq<char>> {
    match arguments.text_at("file_path"@) {
        Some(path) => Some(path),
        None => arguments.text_at("path"@),
    }
}

/// The first step of a tool call.
pub open spec fn first_step(
    tool: Seq<char>,
    arguments: JsonModel,
    project: Seq<char>,
    path: Seq<char>,
) -> StepModel {
    if tool == "ozymem_get_schema"@ {
        StepModel::Ask(QueryModel::GraphSummary, StateModel::Schema { project, path })
    } else if tool == "ozymem_find_symbol"@ {
        match arguments.text_at("symbol_name"@) {
            Some(symbol_name) => StepModel::Ask(
                QueryModel::FindSymbol { symbol_name, project_path: path },
                StateModel::FindSymbol { symbol_name, project },
            ),
            None => StepModel::Failed("missing symbol_name argument"@),
        }
    } else if tool == "graph_summary"@ {
        StepModel::Ask(QueryModel::GraphSummary, StateModel::Summary)
    } else if tool == "file_context"@ {
        match path_argument(arguments) {
            Some(file_path) => StepModel::Ask(
                QueryModel::FileContext { file_path },
                StateModel::Context { file_path },
            ),
            None => StepModel::Failed("missing file_path argument"@),
        }
    } else if tool == "record_lesson"@ {
        match (
            arguments.text_at("file_path"@),
            arguments.text_at("error_context"@),
            arguments.text_at("solution"@),
        ) {
            (Some(file_path), Some(error_context), Some(solution)) => StepModel::Ask(
                QueryModel::RecordLesson {
                    file_path,
                    symbol_name: arguments.text_at("symbol_name"@),
                    error_context,
                    solution,
                },
                StateModel::Lesson { file_path, symbol_name: arguments.text_at("symbol_name"@) },
            ),
            (None, _, _) => StepModel::Failed("missing file_path"@),
            (Some(_), None, _) => StepModel::Failed("missing error_context"@),
            (Some(_), Some(_), None) => StepModel::Failed("missing solution"@),
        }
    } else if tool == "file_trace"@ {
        match path_argument(arguments) {
            Some(file_path) => StepModel::Ask(
                QueryModel::IncomingDependencies { file_path },
                StateModel::Trace { file_path },
            ),
            None => StepModel::Failed("missing file_path"@),
        }
    } else {
        StepModel::Failed("Unknown tool: "@ + tool)
    }
}

/// The step after a reply. A failure of the graph is handed on; a reply of
/// another kind than was asked for is a failure of its own.
pub open spec fn next_step(state: StateModel, reply: ReplyModel) -> StepModel {
    match (state, reply) {
        (_, ReplyModel::Failed(message)) => StepModel::Failed(message),
        (StateModel::Schema { project, path }, ReplyModel::Summary(summary)) => StepModel::Done(
            text_result(mcp_common::schema_text(project, path, summary)),
        ),
        (StateModel::FindSymbol { symbol_name, project }, ReplyModel::Texts(found)) => {
            StepModel::Done(text_result(mcp_common::symbol_text(symbol_name, project, found)))
        },
        (StateModel::Summary, ReplyModel::Summary(summary)) => StepModel::Done(
            text_result(mcp_common::summary_text(summary)),
        ),
        (StateModel::Context { file_path }, ReplyModel::Context(context)) => StepModel::Ask(
            QueryModel::HistoricalEngrams { file_path },
            StateModel::Engrams { body: mcp_common::context_text(context, file_path) },
        ),
        (StateModel::Engrams { body }, ReplyModel::Texts(history)) => StepModel::Done(
            text_result(mcp_common::with_engrams(history, body)),
        ),
        (StateModel::Lesson { file_path, symbol_name }, ReplyModel::Recorded) => StepModel::Done(
            text_result(mcp_common::lesson_text(file_path, symbol_name)),
        ),
        (StateModel::Trace { file_path }, ReplyModel::Texts(incoming)) => StepModel::Done(
            text_result(mcp_common::trace_text(file_path, incoming)),
        ),
        _ => StepModel::Failed("unexpected reply from the graph"@),
    }
}

fn owned(text: Option<&str>) -> (r: Option<String>)
    ensures
        match text {
            Some(s) => r is Some && r->0@ == s@,
            None => r is None,
        },
{
    match text {
        Some(s) => Some(s.to_string()),
        None => None,
    }
}

fn argument_path<'a>(arguments: &'a JsonValue) -> (r: Option<&'a str>)
    ensures
        match r {
            Some(s) => path_argument(arguments.model()) == Some(s@),
            None => path_argument(arguments.model()) is None,
        },
{
    match arguments.get_str("file_path") {
        Some(path) => Some(path),
        None => arguments.get_str("path"),
    }
}

/// Begins a tool call.
pub fn start_tool_call(
    tool_name: &str,
    arguments: &JsonValue,
    current_project: Option<&str>,
    project_path: Option<&str>,
) -> (r: ToolStep)
    ensures
        r.model() == first_step(
            tool_name@,
            arguments.model(),
            or_empty(
                match current_project {
                    Some(s) => Some(s@),
                    None => None,
                },
            ),
            or_empty(
                match project_path {
                    Some(s) => Some(s@),
                    None => None,
                },
            ),
        ),
{
    let project = match current_project {
        Some(s) => s,
        None => "",
    };
    let path = match project_path {
        Some(s) => s,
        None => "",
    };
    if same_text(tool_name, "ozymem_get_schema") {
        return ToolStep::Ask(
            BackendQuery::GraphSummary,
            ToolCallState::Schema { project: project.to_string(), path: path.to_string() },
        );
    }
    if same_text(tool_name, "ozymem_find_symbol") {
        return match arguments.get_str("symbol_name") {
            Some(symbol) => ToolStep::Ask(
                BackendQuery::FindSymbol {
                    symbol_name: symbol.to_string(),
                    project_path: path.to_string(),
                },
                ToolCallState::FindSymbol {
                    symbol_name: symbol.to_string(),
                    project: project.to_string(),
                },
            ),
            None => failed("missing symbol_name argument"),
        };
    }
    if same_text(tool_name, "graph_summary") {
        return ToolStep::Ask(BackendQuery::GraphSummary, ToolCallState::Summary);
    }
    if same_text(tool_name, "file_context") {
        return match argument_path(arguments) {
            Some(file_path) => ToolStep::Ask(
                BackendQuery::FileContext { file_path: file_path.to_string() },
                ToolCallState::Context { file_path: file_path.to_string() },
            ),
            None => failed("missing file_path argument"),
        };
    }
    if same_text(tool_name, "record_lesson") {
        let file_path = match arguments.get_str("file_path") {
            Some(s) => s,
            None => {
                return failed("missing file_path");
            },
        };
        let symbol_name = arguments.get_str("symbol_name");
        let error_context = match arguments.get_str("error_context") {
            Some(s) => s,
            None => {
                return failed("missing error_context");
            },
        };
        let solution = match arguments.get_str("solution") {
            Some(s) => s,
            None => {
                return failed("missing solution");
            },
        };
        return ToolStep::Ask(
            BackendQuery::RecordLesson {
                file_path: file_path.to_string(),
                symbol_name: owned(symbol_name),
                error_context: error_context.to_string(),
                solution: solution.to_string(),
            },
            ToolCallState::Lesson {
                file_path: file_path.to_string(),
                symbol_name: owned(symbol_name),
            },
        );
    }
    if same_text(tool_name, "file_trace") {
        return match argument_path(arguments) {
            Some(file_path) => ToolStep::Ask(
                BackendQuery::IncomingDependencies { file_path: file_path.to_string() },
                ToolCallState::Trace { file_path: file_path.to_string() },
            ),
            None => failed("missing file_path"),
        };
    }
    ToolStep::Failed(concat2("Unknown tool: ", tool_name))
}

/// Goes on with a tool call after a reply of the graph.
pub fn resume_tool_call(state: ToolCallState, reply: BackendReply) -> (r: ToolStep)
    ensures
        r.model() == next_step(state.model(), reply.model()),
{
    match (state, reply) {
        (_, BackendReply::Failed(message)) => ToolStep::Failed(message),
        (ToolCallState::Schema { project, path }, BackendReply::Summary(summary)) => done(
            format_schema(project.as_str(), path.as_str(), &summary),
        ),
        (ToolCallState::FindSymbol { symbol_name, project }, BackendReply::Texts(found)) => done(
            format_symbol(symbol_name.as_str(), project.as_str(), &found),
        ),
        (ToolCallState::Summary, BackendReply::Summary(summary)) => done(
            format_graph_summary(&summary),
        ),
        (ToolCallState::Context { file_path }, BackendReply::Context(context)) => {
            let body = format_file_context(
                match &context {
                    Some(c) => Some(c),
                    None => None,
                },
                file_path.as_str(),
            );
            ToolStep::Ask(
                BackendQuery::HistoricalEngrams { file_path },
                ToolCallState::Engrams { body },
            )
        },
        (ToolCallState::Engrams { body }, BackendReply::Texts(history)) => {
            assert(text::string_texts(history@) == history.deep_view());
            done(prepend_historical_engrams(history.as_slice(), body))
        },
        (ToolCallState::Lesson { file_path, symbol_name }, BackendReply::Recorded) => done(
            format_lesson(file_path.as_str(), &symbol_name),
        ),
        (ToolCallState::Trace { file_path }, BackendReply::Texts(incoming)) => done(
            format_trace(file_path.as_str(), &incoming),
        ),
        _ => failed("unexpected reply from the graph"),
    }
}

// ---------------------------------------------------------------------------
// Laws
// ---------------------------------------------------------------------------

/// A graph that has an answer to everything.
pub struct Oracle {
    pub summary: Result<GraphSummary, Seq<char>>,
    pub context: spec_fn(Seq<char>) -> Result<Option<FileGraphContext>, Seq<char>>,
    pub engrams: spec_fn(Seq<char>) -> Result<Seq<Seq<char>>, Seq<char>>,
    pub incoming: spec_fn(Seq<char>) -> Result<Seq<Seq<char>>, Seq<char>>,
    pub symbols: spec_fn(Seq<char>, Seq<char>) -> Result<Seq<Seq<char>>, Seq<char>>,
    pub record: spec_fn(QueryModel) -> Result<(), Seq<char>>,
}

pub open spec fn texts_reply(r: Result<Seq<Seq<char>>, Seq<char>>) -> ReplyModel {
    match r {
        Ok(texts) => ReplyModel::Texts(texts),
        Err(e) => ReplyModel::Failed(e),
    }
}

impl Oracle {
    pub open spec fn reply(self, query: QueryModel) -> ReplyModel {
        match query {
            QueryModel::GraphSummary => match self.summary {
                Ok(s) => ReplyModel::Summary(s),
                Err(e) => ReplyModel::Failed(e),
            },
            QueryModel::FileContext { file_path } => match (self.context)(file_path) {
                Ok(c) => ReplyModel::Context(c),
                Err(e) => ReplyModel::Failed(e),
            },
            QueryModel::HistoricalEngrams { file_path } => texts_reply((self.engrams)(file_path)),
            QueryModel::RecordLesson { .. } => match (self.record)(query) {
                Ok(_) => ReplyModel::Recorded,
                Err(e) => ReplyModel::Failed(e),
            },
            QueryModel::IncomingDependencies { file_path } => texts_reply(
                (self.incoming)(file_path),
            ),
            QueryModel::FindSymbol { symbol_name, project_path } => texts_reply(
                (self.symbols)(symbol_name, project_path),
            ),
        }
    }
}

/// Where a tool call stands after at most `n` replies.
pub open spec fn run(step: StepModel, oracle: Oracle, n: nat) -> StepModel
    decreases n,
{
    match step {
        StepModel::Ask(query, state) => if n == 0 {
            step
        } else {
            run(next_step(state, oracle.reply(query)), oracle, (n - 1) as nat)
        },
        _ => step,
    }
}

/// The outcome of a call of `file_context`: the file in words, with the
/// solutions of the past in front; the first failure of the graph, if one of
/// its two replies is one.
pub open spec fn context_outcome(file_path: Seq<char>, oracle: Oracle) -> StepModel {
    match (oracle.context)(file_path) {
        Err(e) => StepModel::Failed(e),
        Ok(context) => match (oracle.engrams)(file_path) {
            Err(e) => StepModel::Failed(e),
            Ok(history) => StepModel::Done(
                text_result(
                    mcp_common::with_engrams(history, mcp_common::context_text(context, file_path)),
                ),
            ),
        },
    }
}

/// A tool call comes to its end after at most two replies, whatever they are.
pub proof fn law_tool_calls_end(
    tool: Seq<char>,
    arguments: JsonModel,
    project: Seq<char>,
    path: Seq<char>,
    oracle: Oracle,
)
    ensures
        !(run(first_step(tool, arguments, project, path), oracle, 2) is Ask),
{
    reveal_with_fuel(run, 3);
}

/// A call of `file_context` tells the file with the solutions of the past.
pub proof fn law_file_context(
    tool: Seq<char>,
    arguments: JsonModel,
    project: Seq<char>,
    path: Seq<char>,
    file_path: Seq<char>,
    oracle: Oracle,
)
    requires
        tool == "file_context"@,
        path_argument(arguments) == Some(file_path),
    ensures
        run(first_step(tool, arguments, project, path), oracle, 2) == context_outcome(
            file_path,
            oracle,
        ),
{
    reveal_strlit("file_context");
    reveal_strlit("ozymem_get_schema");
    reveal_strlit("ozymem_find_symbol");
    reveal_strlit("graph_summary");
    assert("file_context"@.len() != "ozymem_get_schema"@.len());
    assert("file_context"@.len() != "ozymem_find_symbol"@.len());
    assert("file_context"@.len() != "graph_summary"@.len());
    reveal_with_fuel(run, 3);
}

/// Every tool that is listed is known, and no other.
pub proof fn law_listed_tools_are_known(
    tool: Seq<char>,
    arguments: JsonModel,
    project: Seq<char>,
    path: Seq<char>,
)
    ensures
        (exists|i: int|
            0 <= i < mcp_common::tool_models().len() && (#[trigger] mcp_common::tool_models()[i]).name
                == tool) <==> first_step(tool, arguments, project, path) != StepModel::Failed(
            "Unknown tool: "@ + tool,
        ),
{
    let models = mcp_common::tool_models();
    reveal_strlit("Unknown tool: ");
    reveal_strlit("missing symbol_name argument");
    reveal_strlit("missing file_path argument");
    reveal_strlit("missing file_path");
    reveal_strlit("missing error_context");
    reveal_strlit("missing solution");
    let unknown = "Unknown tool: "@ + tool;
    assert(unknown[0] == 'U');
    assert("missing symbol_name argument"@[0] == 'm');
    assert("missing file_path argument"@[0] == 'm');
    assert("missing file_path"@[0] == 'm');
    assert("missing error_context"@[0] == 'm');
    assert("missing solution"@[0] == 'm');
    assert(models.len() == 6);
    assert(models[0].name == "ozymem_get_schema"@);
    assert(models[1].name == "ozymem_find_symbol"@);
    assert(models[2].name == "graph_summary"@);
    assert(models[3].name == "file_context"@);
    assert(models[4].name == "record_lesson"@);
    assert(models[5].name == "file_trace"@);
}

/// A lesson is recorded only when a path, an error and a solution were given, and
/// it is recorded as it was given.
pub proof fn law_lessons_are_recorded_as_given(
    tool: Seq<char>,
    arguments: JsonModel,
    project: Seq<char>,
    path: Seq<char>,
)
    ensures
        first_step(tool, arguments, project, path) matches StepModel::Ask(
            QueryModel::RecordLesson { file_path, symbol_name, error_context, solution },
            _,
        ) ==> {
            &&& tool == "record_lesson"@
            &&& arguments.text_at("file_path"@) == Some(file_path)
            &&& arguments.text_at("symbol_name"@) == symbol_name
            &&& arguments.text_at("error_context"@) == Some(error_context)
            &&& arguments.text_at("solution"@) == Some(solution)
        },
{
}

proof fn lemma_tool_names()
    ensures
        "ozymem_get_schema"@.len() == 17 && "ozymem_get_schema"@[0] == 'o',
        "ozymem_find_symbol"@.len() == 18,
        "graph_summary"@.len() == 13 && "graph_summary"@[0] == 'g',
        "file_context"@.len() == 12,
        "record_lesson"@.len() == 13 && "record_lesson"@[0] == 'r',
        "file_trace"@.len() == 10,
{
    reveal_strlit("ozymem_get_schema");
    reveal_strlit("ozymem_find_symbol");
    reveal_strlit("graph_summary");
    reveal_strlit("file_context");
    reveal_strlit("record_lesson");
    reveal_strlit("file_trace");
}

/// A call of `record_lesson` with a path, an error and a solution records exactly that,
/// with the symbol if there is one, and names the file when it is recorded. Without one
/// of the three nothing is recorded.
pub proof fn law_record_lesson(
    arguments: JsonModel,
    project: Seq<char>,
    path: Seq<char>,
    oracle: Oracle,
)
    ensures
        ({
            let file_path = arguments.text_at("file_path"@);
            let error_context = arguments.text_at("error_context"@);
            let solution = arguments.text_at("solution"@);
            let symbol_name = arguments.text_at("symbol_name"@);
            let step = first_step("record_lesson"@, arguments, project, path);
            let outcome = run(step, oracle, 2);
            if file_path is Some && error_context is Some && solution is Some {
                let lesson = QueryModel::RecordLesson {
                    file_path: file_path->0,
                    symbol_name,
                    error_context: error_context->0,
                    solution: solution->0,
                };
                &&& step is Ask
                &&& step->Ask_0 == lesson
                &&& outcome == match (oracle.record)(lesson) {
                    Ok(_) => StepModel::Done(
                        ResultModel {
                            content: seq![
                                (
                                    "text"@,
                                    mcp_common::lesson_text(file_path->0, symbol_name),
                                ),
                            ],
                            is_error: None,
                        },
                    ),
                    Err(e) => StepModel::Failed(e),
                }
            } else {
                step is Failed
            }
        }),
{
    lemma_tool_names();
    reveal_with_fuel(run, 3);
}

/// A call of `file_trace` asks for the files that depend on the given one, and lists
/// them.
pub proof fn law_file_trace(
    arguments: JsonModel,
    project: Seq<char>,
    path: Seq<char>,
    file_path: Seq<char>,
    oracle: Oracle,
)
    requires
        arguments.text_at("file_path"@) == Some(file_path) || arguments.text_at("file_path"@)
            is None && arguments.text_at("path"@) == Some(file_path),
    ensures
        run(first_step("file_trace"@, arguments, project, path), oracle, 2) == match (
        oracle.incoming)(file_path) {
            Ok(incoming) => StepModel::Done(
                ResultModel {
                    content: seq![("text"@, mcp_common::trace_text(file_path, incoming))],
                    is_error: None,
                },
            ),
            Err(e) => StepModel::Failed(e),
        },
        path_argument(arguments) == Some(file_path),
{
    lemma_tool_names();
    reveal_with_fuel(run, 3);
}

/// A call of `ozymem_find_symbol` looks for the symbol in the files of the active
/// project, and names the places; without a symbol it fails.
pub proof fn law_find_symbol(
    arguments: JsonModel,
    project: Seq<char>,
    path: Seq<char>,
    oracle: Oracle,
)
    ensures
        ({
            let step = first_step("ozymem_find_symbol"@, arguments, project, path);
            match arguments.text_at("symbol_name"@) {
                None => step is Failed,
                Some(symbol) => {
                    &&& step is Ask
                    &&& step->Ask_0 == QueryModel::FindSymbol {
                        symbol_name: symbol,
                        project_path: path,
                    }
                    &&& run(step, oracle, 2) == match (oracle.symbols)(symbol, path) {
                        Ok(found) => StepModel::Done(
                            ResultModel {
                                content: seq![
                                    ("text"@, mcp_common::symbol_text(symbol, project, found)),
                                ],
                                is_error: None,
                            },
                        ),
                        Err(e) => StepModel::Failed(e),
                    }
                },
            }
        }),
{
    lemma_tool_names();
    reveal_with_fuel(run, 3);
}

/// Calls of `graph_summary` and `ozymem_get_schema` give the numbers of the graph.
pub proof fn law_summaries(
    arguments: JsonModel,
    project: Seq<char>,
    path: Seq<char>,
    oracle: Oracle,
)
    ensures
        run(first_step("graph_summary"@, arguments, project, path), oracle, 2) == match oracle.summary {
            Ok(summary) => StepModel::Done(
                ResultModel {
                    content: seq![("text"@, mcp_common::summary_text(summary))],
                    is_error: None,
                },
            ),
            Err(e) => StepModel::Failed(e),
        },
        run(first_step("ozymem_get_schema"@, arguments, project, path), oracle, 2) == match oracle.summary {
            Ok(summary) => StepModel::Done(
                ResultModel {
                    content: seq![("text"@, mcp_common::schema_text(project, path, summary))],
                    is_error: None,
                },
            ),
            Err(e) => StepModel::Failed(e),
        },
{
    lemma_tool_names();
    reveal_with_fuel(run, 3);
}

/// A failure of the graph is handed on as it is, wherever a call stands.
pub proof fn law_failures_are_handed_on(state: StateModel, message: Seq<char>)
    ensures
        next_step(state, ReplyModel::Failed(message)) == StepModel::Failed(message),
{
}

/// A call without an argument that it needs fails at once, and says which one it needs.
pub proof fn law_missing_arguments_are_named(
    arguments: JsonModel,
    project: Seq<char>,
    path: Seq<char>,
)
    ensures
        arguments.text_at("symbol_name"@) is None ==> first_step(
            "ozymem_find_symbol"@,
            arguments,
            project,
            path,
        ) == StepModel::Failed("missing symbol_name argument"@),
        arguments.text_at("file_path"@) is None && arguments.text_at("path"@) is None
            ==> first_step("file_context"@, arguments, project, path) == StepModel::Failed(
            "missing file_path argument"@,
        ) && first_step("file_trace"@, arguments, project, path) == StepModel::Failed(
            "missing file_path"@,
        ),
        arguments.text_at("file_path"@) is None ==> first_step(
            "record_lesson"@,
            arguments,
            project,
            path,
        ) == StepModel::Failed("missing file_path"@),
        arguments.text_at("file_path"@) is Some && arguments.text_at("error_context"@) is None
            ==> first_step("record_lesson"@, arguments, project, path) == StepModel::Failed(
            "missing error_context"@,
        ),
        arguments.text_at("file_path"@) is Some && arguments.text_at("error_context"@) is Some
            && arguments.text_at("solution"@) is None ==> first_step(
            "record_lesson"@,
            arguments,
            project,
            path,
        ) == StepModel::Failed("missing solution"@),
{
    reveal_strlit("ozymem_get_schema");
    reveal_strlit("ozymem_find_symbol");
    reveal_strlit("graph_summary");
    reveal_strlit("file_context");
    reveal_strlit("record_lesson");
    reveal_strlit("file_trace");
    assert("ozymem_get_schema"@.len() == 17 && "ozymem_find_symbol"@.len() == 18
        && "graph_summary"@.len() == 13 && "file_context"@.len() == 12 && "record_lesson"@.len()
        == 13 && "file_trace"@.len() == 10);
    assert("graph_summary"@[0] == 'g' && "record_lesson"@[0] == 'r');
}

/// A reply of another kind than was asked for is a failure of its own, and what a session
/// does not know is empty.
pub proof fn law_unexpected_replies_fail(
    state: StateModel,
    summary: GraphSummary,
    texts: Seq<Seq<char>>,
    known: Seq<char>,
)
    ensures
        !(state is Schema || state is Summary) ==> next_step(state, ReplyModel::Summary(summary))
            == StepModel::Failed("unexpected reply from the graph"@),
        !(state is FindSymbol || state is Engrams || state is Trace) ==> next_step(
            state,
            ReplyModel::Texts(texts),
        ) == StepModel::Failed("unexpected reply from the graph"@),
        !(state is Lesson) ==> next_step(state, ReplyModel::Recorded) == StepModel::Failed(
            "unexpected reply from the graph"@,
        ),
        or_empty(Some(known)) == known,
        or_empty(None) == Seq::<char>::empty(),
{
    reveal_strlit("");
    assert(""@ =~= Seq::<char>::empty());
}

} // verus!
