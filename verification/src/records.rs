//! What the graph keeps: files and their functions, lessons, users, sessions and
//! proposed changes.

use vstd::prelude::*;

verus! {

/// How to reach the graph database.
#[derive(Debug, Clone, PartialEq, Eq)]
pub struct MemgraphConfig {
    pub uri: String,
    pub user: String,
    pub password: String,
    pub database: String,
}

/// A function or class as it stands in the graph.
#[derive(Debug, Clone, PartialEq, Eq)]
pub struct StoredFunction {
    pub name: String,
    pub kind: String,
    pub start_line: i64,
    pub end_line: i64,
    pub strategy: String,
}

/// A file of the graph with its functions.
#[derive(Debug, Clone, PartialEq, Eq)]
pub struct FileGraphContext {
    pub file_path: String,
    pub language: String,
    pub functions: Vec<StoredFunction>,
}

/// The graph of a tenant in numbers.
#[derive(Debug, Clone, PartialEq, Eq)]
pub struct GraphSummary {
    pub file_count: i64,
    pub function_count: i64,
    pub engram_count: i64,
    pub native_ast_function_count: i64,
    pub extension_wasm_function_count: i64,
    pub text_heuristic_function_count: i64,
    pub vertex_count: i64,
    pub edge_count: i64,
    pub memory_usage: String,
}

/// A lesson: what went wrong in a file and what helped.
#[derive(Debug, Clone, PartialEq, Eq)]
pub struct LessonRecord {
    pub file_path: String,
    pub error_type: String,
    pub solution: String,
    pub timestamp: String,
}

#[derive(Debug, Clone, Copy, PartialEq, Eq, Structural)]
pub enum WalAction {
    Upsert,
    Delete,
}

/// A change that waits to be sent to the graph.
#[derive(Debug, Clone, PartialEq, Eq)]
pub struct WalEntry {
    pub timestamp: u64,
    pub action: WalAction,
    pub file_path: String,
}

/// A member of a tenant.
#[derive(Debug, Clone, PartialEq, Eq)]
pub struct UserRecord {
    pub name: String,
    pub role: String,
    pub token: String,
    pub tenant_id: String,
}

/// A proposed change to the graph.
#[derive(Debug, Clone, PartialEq, Eq)]
pub struct GprRecord {
    pub id: i64,
    pub user: String,
    pub message: String,
    pub timestamp: String,
    pub status: String,
    pub tenant_id: String,
}

/// A client that is connected, or was.
#[derive(Debug, Clone, PartialEq, Eq)]
pub struct SessionRecord {
    pub id: String,
    pub username: String,
    pub role: String,
    pub transport: String,
    pub pid: i64,
    pub started_at: String,
    pub last_seen: String,
}

/// A `StoredFunction` as mathematics has it.
#[verifier::ext_equal]
pub struct StoredModel {
    pub name: Seq<char>,
    pub kind: Seq<char>,
    pub start_line: int,
    pub end_line: int,
    pub strategy: Seq<char>,
}

impl DeepView for StoredFunction {
    type V = StoredModel;

    open spec fn deep_view(&self) -> StoredModel {
        StoredModel {
            name: self.name@,
            kind: self.kind@,
            start_line: self.start_line as int,
            end_line: self.end_line as int,
            strategy: self.strategy@,
        }
    }
}

/// A `FileGraphContext` as mathematics has it.
#[verifier::ext_equal]
pub struct ContextModel {
    pub file_path: Seq<char>,
    pub language: Seq<char>,
    pub functions: Seq<StoredModel>,
}

impl DeepView for FileGraphContext {
    type V = ContextModel;

    open spec fn deep_view(&self) -> ContextModel {
        ContextModel {
            file_path: self.file_path@,
            language: self.language@,
            functions: self.functions.deep_view(),
        }
    }
}

impl StoredFunction {
    /// A copy.
    pub fn copy(&self) -> (r: StoredFunction)
        ensures
            r.deep_view() == self.deep_view(),
    {
        StoredFunction {
            name: self.name.as_str().to_string(),
            kind: self.kind.as_str().to_string(),
            start_line: self.start_line,
            end_line: self.end_line,
            strategy: self.strategy.as_str().to_string(),
        }
    }
}

/// A copy of functions.
pub fn copy_functions(functions: &Vec<StoredFunction>) -> (r: Vec<StoredFunction>)
    ensures
        r.deep_view() == functions.deep_view(),
{
    let mut out: Vec<StoredFunction> = Vec::new();
    let mut i: usize = 0;
    while i < functions.len()
        invariant
            i <= functions@.len(),
            out@.len() == i,
            forall|k: int|
                0 <= k < i ==> (#[trigger] out@[k]).deep_view() == functions@[k].deep_view(),
        decreases functions@.len() - i,
    {
        out.push(functions[i].copy());
        i += 1;
    }
    assert(out.deep_view() =~= functions.deep_view());
    out
}

impl FileGraphContext {
    /// A copy.
    pub fn copy(&self) -> (r: FileGraphContext)
        ensures
            r.deep_view() == self.deep_view(),
    {
        FileGraphContext {
            file_path: self.file_path.as_str().to_string(),
            language: self.language.as_str().to_string(),
            functions: copy_functions(&self.functions),
        }
    }
}

/// The address of the graph database, unless another one is set.
pub fn default_memgraph_uri() -> (r: &'static str)
    ensures
        r@ == "127.0.0.1:7687"@,
{
    "127.0.0.1:7687"
}

/// The name of the graph database, unless another one is set.
pub fn default_memgraph_database() -> (r: &'static str)
    ensures
        r@ == "memgraph"@,
{
    "memgraph"
}

} // verus!
