//! The statements that are sent to the graph database, with their parameters.
//!
//! Every statement on the data of a tenant binds the parameter `tenant_id` to
//! that tenant.

use crate::language::{ExtractedFunction, FileDefinitionMap, ParseStrategy, SymbolKind};
use crate::text::concat2;
use vstd::prelude::*;

verus! {

/// A function as a parameter of a statement.
#[derive(Debug, Clone, PartialEq, Eq)]
pub struct FunctionRow {
    pub name: String,
    pub start_line: i64,
    pub end_line: i64,
    pub strategy: String,
    pub kind: String,
}

/// The value of a parameter.
#[derive(Debug, Clone, PartialEq, Eq)]
pub enum ParamValue {
    Text(String),
    Number(i64),
    Functions(Vec<FunctionRow>),
}

/// A statement with its parameters.
#[derive(Debug, Clone, PartialEq, Eq)]
pub struct Statement {
    pub text: &'static str,
    pub params: Vec<(&'static str, ParamValue)>,
}

/// A `FunctionRow` as mathematics has it.
#[verifier::ext_equal]
pub struct RowModel {
    pub name: Seq<char>,
    pub start_line: int,
    pub end_line: int,
    pub strategy: Seq<char>,
    pub kind: Seq<char>,
}

/// A `ParamValue` as mathematics has it.
#[verifier::ext_equal]
pub enum ParamModel {
    Text(Seq<char>),
    Number(int),
    Functions(Seq<RowModel>),
}

/// A `Statement` as mathematics has it.
#[verifier::ext_equal]
pub struct StatementModel {
    pub text: Seq<char>,
    pub params: Seq<(Seq<char>, ParamModel)>,
}

impl DeepView for FunctionRow {
    type V = RowModel;

    open spec fn deep_view(&self) -> RowModel {
        RowModel {
            name: self.name@,
            start_line: self.start_line as int,
            end_line: self.end_line as int,
            strategy: self.strategy@,
            kind: self.kind@,
        }
    }
}

impl DeepView for ParamValue {
    type V = ParamModel;

    open spec fn deep_view(&self) -> ParamModel {
        match self {
            ParamValue::Text(s) => ParamModel::Text(s@),
            ParamValue::Number(n) => ParamModel::Number(*n as int),
            ParamValue::Functions(rows) => ParamModel::Functions(rows.deep_view()),
        }
    }
}

impl DeepView for Statement {
    type V = StatementModel;

    open spec fn deep_view(&self) -> StatementModel {
        StatementModel {
            text: self.text@,
            params: Seq::new(
                self.params@.len(),
                |i: int| (self.params@[i].0@, self.params@[i].1.deep_view()),
            ),
        }
    }
}

impl StatementModel {
    /// The statement with the given text and no parameters.
    pub open spec fn new(text: Seq<char>) -> StatementModel {
        StatementModel { text, params: Seq::empty() }
    }

    /// The statement with one more parameter.
    pub open spec fn param(self, name: Seq<char>, value: ParamModel) -> StatementModel {
        StatementModel { text: self.text, params: self.params.push((name, value)) }
    }

    /// The statement with one more parameter, a text.
    pub open spec fn text(self, name: Seq<char>, value: Seq<char>) -> StatementModel {
        self.param(name, ParamModel::Text(value))
    }

    /// The statement with one more parameter, a number.
    pub open spec fn number(self, name: Seq<char>, value: int) -> StatementModel {
        self.param(name, ParamModel::Number(value))
    }

    /// The statement is bound to a tenant.
    pub open spec fn scoped(self, tenant_id: Seq<char>) -> bool {
        self.params.contains(("tenant_id"@, ParamModel::Text(tenant_id)))
    }
}

impl Statement {
    fn new(text: &'static str) -> (r: Statement)
        ensures
            r.deep_view() == StatementModel::new(text@),
    {
        let r = Statement { text, params: Vec::new() };
        assert(r.deep_view() =~= StatementModel::new(text@));
        r
    }

    fn param(self, name: &'static str, value: ParamValue) -> (r: Statement)
        ensures
            r.deep_view() == self.deep_view().param(name@, value.deep_view()),
    {
        let ghost before = self.deep_view();
        let mut params = self.params;
        params.push((name, value));
        let r = Statement { text: self.text, params };
        assert(r.deep_view().params =~= before.params.push((name@, value.deep_view())));
        r
    }

    fn text(self, name: &'static str, value: &str) -> (r: Statement)
        ensures
            r.deep_view() == self.deep_view().text(name@, value@),
    {
        self.param(name, ParamValue::Text(value.to_string()))
    }

    fn number(self, name: &'static str, value: i64) -> (r: Statement)
        ensures
            r.deep_view() == self.deep_view().number(name@, value as int),
    {
        self.param(name, ParamValue::Number(value))
    }

    /// Binds the statement to a tenant.
    fn scope(self, tenant_id: &str) -> (r: Statement)
        ensures
            r.deep_view() == self.deep_view().text("tenant_id"@, tenant_id@),
            r.deep_view().scoped(tenant_id@),
    {
        let r = self.text("tenant_id", tenant_id);
        assert(r.deep_view().params.last() == ("tenant_id"@, ParamModel::Text(tenant_id@)));
        r
    }
}

// ---------------------------------------------------------------------------
// Texts
// ---------------------------------------------------------------------------

pub const INDEX_FILES: &'static str = "CREATE INDEX ON :File(path)";

pub const INDEX_FUNCTIONS: &'static str = "CREATE INDEX ON :Function(name)";

pub const PING: &'static str = "RETURN 1 AS value";

pub const TENANT_USERS: &'static str =
    "MATCH (u:User)-[:BELONGS_TO]->(t:Tenant {id: $tenant_id})\n\
     RETURN u.name AS name, u.role AS role, u.token AS token, t.id AS tenant_id";

pub const CREATE_TENANT: &'static str = "MERGE (t:Tenant {id: $id})\nSET t.name = $name";

pub const CREATE_USER: &'static str =
    "MATCH (t:Tenant {id: $tenant_id})\n\
     MERGE (u:User {name: $username})\n\
     SET u.role = $role, u.token = $token\n\
     MERGE (u)-[:BELONGS_TO]->(t)";

pub const COUNT_USERS: &'static str = "MATCH (u:User) RETURN count(u) AS user_count";

pub const COUNT_ROLES: &'static str =
    "MATCH (u:User) RETURN u.role AS role, count(u) AS user_count ORDER BY role";

pub const COUNT_TENANTS: &'static str = "MATCH (t:Tenant) RETURN count(t) AS tenant_count";

pub const CLEAR_GRAPH: &'static str =
    "MATCH (n) WHERE (n:File OR n:Function OR n:Lesson OR n:ErrorLog OR n:Engram OR n:GprRequest OR n:StagingFile OR n:StagingFunction OR n:StagingLesson) AND n.tenant_id = $tenant_id DETACH DELETE n";

pub const SAVE_FILE: &'static str =
    "MERGE (f:File {path: $path, tenant_id: $tenant_id})\n\
     SET f.language = $language\n\
     WITH f\n\
     OPTIONAL MATCH (f)-[:CONTAINS]->(old_fn:Function)\n\
     DETACH DELETE old_fn\n\
     WITH f\n\
     UNWIND $functions AS fn_data\n\
     MERGE (fn:Function {name: fn_data.name, start_line: fn_data.start_line, end_line: fn_data.end_line, tenant_id: $tenant_id})\n\
     SET fn.strategy = fn_data.strategy,\n\
         fn.kind = fn_data.kind\n\
     MERGE (f)-[:CONTAINS]->(fn)";

pub const SAVE_DEPENDENCY: &'static str =
    "MATCH (origen:File {path: $ruta_origen, tenant_id: $tenant_id}), (destino:File {path: $ruta_destino, tenant_id: $tenant_id})\n\
     MERGE (origen)-[:DEPENDS_ON]->(destino)";

pub const RECORD_LESSON: &'static str =
    "MERGE (f:File {path: $file_path, tenant_id: $tenant_id})\n\
     WITH f\n\
     OPTIONAL MATCH (f)-[:CONTAINS]->(fn:Function {name: $symbol_name, tenant_id: $tenant_id})\n\
     WITH f, fn\n\
     CREATE (l:Lesson {error_context: $error_context, solution: $solution, timestamp: $timestamp, symbol_name: coalesce($symbol_name, ''), tenant_id: $tenant_id})\n\
     CREATE (e:ErrorLog {message: $error_context, type: $error_context, tenant_id: $tenant_id})\n\
     CREATE (eng:Engram {solution: $solution, timestamp: $timestamp, tenant_id: $tenant_id})\n\
     CREATE (e)-[:RESOLVED_BY]->(eng)\n\
     CREATE (f)-[:TRIGGERED]->(e)\n\
     WITH f, fn, l\n\
     FOREACH (x IN CASE WHEN fn IS NOT NULL THEN [fn] ELSE [] END |\n\
         CREATE (x)-[:LESSON_OF]->(l)\n\
         CREATE (l)-[:RESOLVED_WITH]->(x)\n\
     )\n\
     FOREACH (x IN CASE WHEN fn IS NULL THEN [f] ELSE [] END |\n\
         CREATE (x)-[:LESSON_OF]->(l)\n\
         CREATE (l)-[:RESOLVED_WITH]->(x)\n\
     )";

pub const CLEAR_FILE: &'static str =
    "MATCH (f:File {path: $path, tenant_id: $tenant_id})\n\
     OPTIONAL MATCH (f)-[r:DEPENDS_ON]->()\n\
     OPTIONAL MATCH (f)-[:CONTAINS]->(fn:Function)\n\
     DETACH DELETE r, fn";

pub const COUNT_FILE: &'static str =
    "MATCH (f:File {path: $path, tenant_id: $tenant_id}) RETURN count(f) AS file_count";

pub const DELETE_FILE: &'static str =
    "MATCH (f:File {path: $path, tenant_id: $tenant_id})\n\
     OPTIONAL MATCH (f)-[:CONTAINS]->(fn:Function)\n\
     DETACH DELETE f, fn";

pub const COUNT_PROJECT_FILES: &'static str =
    "MATCH (f:File) WHERE f.tenant_id = $tenant_id AND (f.path = $path OR f.path STARTS WITH $slash1 OR f.path STARTS WITH $slash2) RETURN count(f) AS file_count";

pub const DELETE_PROJECT_FILES: &'static str =
    "MATCH (f:File) WHERE f.tenant_id = $tenant_id AND (f.path = $path OR f.path STARTS WITH $slash1 OR f.path STARTS WITH $slash2)\n\
     OPTIONAL MATCH (f)-[:CONTAINS]->(fn:Function)\n\
     DETACH DELETE f, fn";

pub const ALL_FILES: &'static str =
    "MATCH (f:File {tenant_id: $tenant_id}) RETURN f.path AS path";

pub const ENGRAMS: &'static str =
    "OPTIONAL MATCH (f:File {path: $file_path, tenant_id: $tenant_id})-[:TRIGGERED]->(e:ErrorLog)-[:RESOLVED_BY]->(eng:Engram)\n\
     RETURN DISTINCT coalesce(eng.solution, '') AS solution";

pub const LESSONS_OF_FILES: &'static str =
    "MATCH (f:File)-[:TRIGGERED]->(e:ErrorLog)-[:RESOLVED_BY]->(eng:Engram)\n\
     WHERE f.tenant_id = $tenant_id AND f.path CONTAINS $file_filter\n\
     RETURN f.path AS file_path, coalesce(e.type, '') AS error_type, coalesce(eng.solution, '') AS solution, coalesce(eng.timestamp, '') AS timestamp\n\
     ORDER BY toInteger(eng.timestamp) DESC\n\
     LIMIT $limit";

pub const LESSONS: &'static str =
    "MATCH (f:File)-[:TRIGGERED]->(e:ErrorLog)-[:RESOLVED_BY]->(eng:Engram)\n\
     WHERE f.tenant_id = $tenant_id\n\
     RETURN f.path AS file_path, coalesce(e.type, '') AS error_type, coalesce(eng.solution, '') AS solution, coalesce(eng.timestamp, '') AS timestamp\n\
     ORDER BY toInteger(eng.timestamp) DESC\n\
     LIMIT $limit";

pub const OUTGOING: &'static str =
    "MATCH (f:File {path: $path, tenant_id: $tenant_id})-[:DEPENDS_ON]->(dep:File)\n\
     RETURN DISTINCT dep.path AS path\n\
     ORDER BY path";

pub const INCOMING: &'static str =
    "MATCH (dep:File)-[:DEPENDS_ON]->(f:File {path: $path, tenant_id: $tenant_id})\n\
     RETURN DISTINCT dep.path AS path\n\
     ORDER BY path";

pub const FILE_FUNCTIONS: &'static str =
    "MATCH (f:File {path: $path, tenant_id: $tenant_id})-[:CONTAINS]->(fn:Function)\n\
     RETURN fn.name AS name, coalesce(fn.kind, '') AS kind, coalesce(fn.start_line, 0) AS start_line, coalesce(fn.end_line, 0) AS end_line, coalesce(fn.strategy, '') AS strategy\n\
     ORDER BY start_line, name";

pub const FILE_CONTEXT: &'static str =
    "MATCH (f:File {path: $path, tenant_id: $tenant_id})\n\
     OPTIONAL MATCH (f)-[:CONTAINS]->(fn:Function)\n\
     RETURN f.path AS path, coalesce(f.language, 'Unknown') AS language, coalesce(fn.name, '') AS name, coalesce(fn.kind, '') AS kind, coalesce(fn.start_line, 0) AS start_line, coalesce(fn.end_line, 0) AS end_line, coalesce(fn.strategy, '') AS strategy\n\
     ORDER BY start_line, name";

pub const SUMMARY: &'static str =
    "MATCH (f:File {tenant_id: $tenant_id})\n\
     OPTIONAL MATCH (f)-[:CONTAINS]->(fn:Function)\n\
     RETURN count(DISTINCT f) AS file_count, count(DISTINCT fn) AS function_count, \
            coalesce(sum(CASE WHEN fn.strategy = 'NativeAST' THEN 1 ELSE 0 END), 0) AS native_ast_function_count, \
            coalesce(sum(CASE WHEN fn.strategy = 'ExtensionWASM' THEN 1 ELSE 0 END), 0) AS extension_wasm_function_count, \
            coalesce(sum(CASE WHEN fn.strategy = 'TextHeuristic' THEN 1 ELSE 0 END), 0) AS text_heuristic_function_count";

pub const COUNT_ENGRAMS: &'static str =
    "MATCH (f:File {tenant_id: $tenant_id})-[:TRIGGERED]->(:ErrorLog)-[:RESOLVED_BY]->(eng:Engram)\n\
     RETURN count(DISTINCT eng) AS engram_count";

pub const STORAGE_INFO: &'static str = "SHOW STORAGE INFO;";

pub const FIND_SYMBOL: &'static str =
    "MATCH (f:File)-[:CONTAINS]->(fn:Function) \
     WHERE f.tenant_id = $tenant_id AND fn.name = $symbol_name AND f.path STARTS WITH $project_path \
     RETURN f.path AS path, fn.start_line AS start_line";

pub const COUNT_GPRS: &'static str = "MATCH (g:GprRequest) RETURN count(g) AS gpr_count";

pub const CREATE_GPR: &'static str =
    "CREATE (g:GprRequest {id: $id, user: $user, message: $message, timestamp: $timestamp, status: 'PENDING', tenant_id: $tenant_id})";

pub const PROPOSE_FILE: &'static str =
    "MATCH (g:GprRequest {id: $id, tenant_id: $tenant_id})\n\
     CREATE (sf:StagingFile {path: $path, language: $language, tenant_id: $tenant_id})\n\
     CREATE (g)-[:PROPOSES]->(sf)";

pub const PROPOSE_FUNCTION: &'static str =
    "MATCH (g:GprRequest {id: $id, tenant_id: $tenant_id})-[:PROPOSES]->(sf:StagingFile {path: $path, tenant_id: $tenant_id})\n\
     CREATE (sfn:StagingFunction {name: $name, start_line: $start, end_line: $end, strategy: $strategy, kind: $kind, tenant_id: $tenant_id})\n\
     CREATE (sf)-[:CONTAINS]->(sfn)";

pub const PROPOSE_LESSON: &'static str =
    "MATCH (g:GprRequest {id: $id, tenant_id: $tenant_id})\n\
     CREATE (sl:StagingLesson {file_path: $file_path, symbol_name: $symbol_name, error_context: $error_context, solution: $solution, timestamp: $timestamp, tenant_id: $tenant_id})\n\
     CREATE (g)-[:PROPOSES_LESSON]->(sl)";

pub const PENDING_GPRS: &'static str =
    "MATCH (g:GprRequest {tenant_id: $tenant_id, status: 'PENDING'})\n\
     RETURN g.id AS id, g.user AS user, g.message AS message, g.timestamp AS timestamp, g.status AS status\n\
     ORDER BY id DESC";

pub const GPR_STATUS: &'static str =
    "MATCH (g:GprRequest {id: $id, tenant_id: $tenant_id}) RETURN g.status AS status";

pub const MERGE_FILES: &'static str =
    "MATCH (g:GprRequest {id: $id, tenant_id: $tenant_id})-[:PROPOSES]->(sf:StagingFile)\n\
     MERGE (f:File {path: sf.path, tenant_id: $tenant_id})\n\
     SET f.language = sf.language\n\
     WITH g, sf, f\n\
     OPTIONAL MATCH (f)-[:CONTAINS]->(old_fn:Function)\n\
     DETACH DELETE old_fn\n\
     WITH g, sf, f\n\
     MATCH (sf)-[:CONTAINS]->(sfn:StagingFunction)\n\
     MERGE (fn:Function {name: sfn.name, start_line: sfn.start_line, end_line: sfn.end_line, tenant_id: $tenant_id})\n\
     SET fn.strategy = sfn.strategy,\n\
         fn.kind = sfn.kind\n\
     MERGE (f)-[:CONTAINS]->(fn)";

pub const STAGED_LESSONS: &'static str =
    "MATCH (g:GprRequest {id: $id, tenant_id: $tenant_id})-[:PROPOSES_LESSON]->(sl:StagingLesson)\n\
     RETURN sl.file_path AS file_path, sl.symbol_name AS symbol_name, sl.error_context AS error_context, sl.solution AS solution, sl.timestamp AS timestamp";

pub const APPROVE_GPR: &'static str =
    "MATCH (g:GprRequest {id: $id, tenant_id: $tenant_id})\n\
     SET g.status = 'APPROVED'\n\
     WITH g\n\
     OPTIONAL MATCH (g)-[:PROPOSES]->(sf:StagingFile)\n\
     OPTIONAL MATCH (sf)-[:CONTAINS]->(sfn:StagingFunction)\n\
     OPTIONAL MATCH (g)-[:PROPOSES_LESSON]->(sl:StagingLesson)\n\
     DETACH DELETE sf, sfn, sl";

pub const GPR_META: &'static str =
    "MATCH (g:GprRequest {id: $id, tenant_id: $tenant_id}) RETURN g.message AS message, g.user AS user";

pub const STAGED_FILES: &'static str =
    "MATCH (g:GprRequest {id: $id, tenant_id: $tenant_id})-[:PROPOSES]->(sf:StagingFile)\n\
     RETURN sf.path AS path, sf.language AS language";

pub const STAGED_FUNCTIONS: &'static str =
    "MATCH (sf:StagingFile {path: $path, tenant_id: $tenant_id})-[:CONTAINS]->(sfn:StagingFunction)\n\
     RETURN sfn.name AS name, sfn.kind AS kind, sfn.start_line AS start_line, sfn.end_line AS end_line, sfn.strategy AS strategy";

pub const CREATE_SESSION: &'static str =
    "CREATE (s:Session {id: $id, username: $username, role: $role, transport: $transport, pid: $pid, started_at: $started_at, last_seen: $last_seen, tenant_id: $tenant_id})";

pub const TOUCH_SESSION: &'static str =
    "MATCH (s:Session {id: $id, tenant_id: $tenant_id})\n\
     SET s.last_seen = $last_seen";

pub const SESSION_STATES: &'static str =
    "MATCH (s:Session {tenant_id: $tenant_id})\n\
     RETURN s.id AS id, s.pid AS pid, s.last_seen AS last_seen";

pub const DELETE_SESSION: &'static str =
    "MATCH (s:Session {id: $id, tenant_id: $tenant_id}) DETACH DELETE s";

pub const SESSIONS: &'static str =
    "MATCH (s:Session {tenant_id: $tenant_id})\n\
     RETURN s.id AS id, s.username AS username, s.role AS role, s.transport AS transport, s.pid AS pid, s.started_at AS started_at, s.last_seen AS last_seen\n\
     ORDER BY s.started_at DESC";

pub const COUNT_SESSION: &'static str =
    "MATCH (s:Session {id: $id, tenant_id: $tenant_id}) RETURN count(s) AS count";

// ---------------------------------------------------------------------------
// Statements without a tenant
// ---------------------------------------------------------------------------

/// The statements that make the indexes.
pub fn index_statements() -> (r: Vec<Statement>)
    ensures
        r.deep_view() == seq![
            StatementModel::new(INDEX_FILES@),
            StatementModel::new(INDEX_FUNCTIONS@),
        ],
{
    let r = vec![Statement::new(INDEX_FILES), Statement::new(INDEX_FUNCTIONS)];
    assert(r.deep_view() =~= seq![
        StatementModel::new(INDEX_FILES@),
        StatementModel::new(INDEX_FUNCTIONS@),
    ]);
    r
}

/// The statement that asks for a sign of life.
pub fn ping() -> (r: Statement)
    ensures
        r.deep_view() == StatementModel::new(PING@),
{
    Statement::new(PING)
}

/// The statement that makes a tenant, or gives it another name.
pub fn create_tenant(name: &str, tenant_id: &str) -> (r: Statement)
    ensures
        r.deep_view() == StatementModel::new(CREATE_TENANT@).text("id"@, tenant_id@).text(
            "name"@,
            name@,
        ),
{
    Statement::new(CREATE_TENANT).text("id", tenant_id).text("name", name)
}

/// The statement that counts all users.
pub fn count_users() -> (r: Statement)
    ensures
        r.deep_view() == StatementModel::new(COUNT_USERS@),
{
    Statement::new(COUNT_USERS)
}

/// The statement that counts the users of each role.
pub fn count_users_by_role() -> (r: Statement)
    ensures
        r.deep_view() == StatementModel::new(COUNT_ROLES@),
{
    Statement::new(COUNT_ROLES)
}

/// The statement that counts all tenants.
pub fn count_tenants() -> (r: Statement)
    ensures
        r.deep_view() == StatementModel::new(COUNT_TENANTS@),
{
    Statement::new(COUNT_TENANTS)
}

/// The statement that asks for the state of the storage.
pub fn storage_info() -> (r: Statement)
    ensures
        r.deep_view() == StatementModel::new(STORAGE_INFO@),
{
    Statement::new(STORAGE_INFO)
}

/// The statement that counts all proposed changes.
pub fn count_gprs() -> (r: Statement)
    ensures
        r.deep_view() == StatementModel::new(COUNT_GPRS@),
{
    Statement::new(COUNT_GPRS)
}

// ---------------------------------------------------------------------------
// Users
// ---------------------------------------------------------------------------

/// The statement that lists the users of a tenant with what is stored of their
/// tokens.
pub fn tenant_users(tenant_id: &str) -> (r: Statement)
    ensures
        r.deep_view() == StatementModel::new(TENANT_USERS@).text("tenant_id"@, tenant_id@),
        r.deep_view().scoped(tenant_id@),
{
    Statement::new(TENANT_USERS).scope(tenant_id)
}

/// The statement that makes a user of a tenant. `stored_token` is what is stored
/// of the token.
pub fn create_user(tenant_id: &str, username: &str, role: &str, stored_token: &str) -> (r:
    Statement)
    ensures
        r.deep_view() == StatementModel::new(CREATE_USER@).text("username"@, username@).text(
            "role"@,
            role@,
        ).text("token"@, stored_token@).text("tenant_id"@, tenant_id@),
        r.deep_view().scoped(tenant_id@),
{
    Statement::new(CREATE_USER).text("username", username).text("role", role).text(
        "token",
        stored_token,
    ).scope(tenant_id)
}

// ---------------------------------------------------------------------------
// Files
// ---------------------------------------------------------------------------

/// The statement that removes everything of a tenant but its long-term memory of
/// users and sessions.
pub fn clear_graph(tenant_id: &str) -> (r: Statement)
    ensures
        r.deep_view() == StatementModel::new(CLEAR_GRAPH@).text("tenant_id"@, tenant_id@),
        r.deep_view().scoped(tenant_id@),
{
    Statement::new(CLEAR_GRAPH).scope(tenant_id)
}

/// The name of a kind of symbol.
pub open spec fn kind_name(kind: SymbolKind) -> Seq<char> {
    match kind {
        SymbolKind::Function => "Function"@,
        SymbolKind::Class => "Class"@,
    }
}

fn kind_text(kind: SymbolKind) -> (r: &'static str)
    ensures
        r@ == kind_name(kind),
{
    match kind {
        SymbolKind::Function => "Function",
        SymbolKind::Class => "Class",
    }
}

/// A function as a parameter.
pub open spec fn row_of(f: ExtractedFunction, strategy: ParseStrategy) -> RowModel {
    RowModel {
        name: f.name@,
        start_line: f.start_line as i64 as int,
        end_line: f.end_line as i64 as int,
        strategy: strategy.label(),
        kind: kind_name(f.kind),
    }
}

/// The functions of a file as a parameter.
pub open spec fn rows_of(file: FileDefinitionMap) -> Seq<RowModel> {
    Seq::new(file.functions@.len(), |i: int| row_of(file.functions@[i], file.strategy))
}

fn function_rows(file: &FileDefinitionMap) -> (r: Vec<FunctionRow>)
    ensures
        r.deep_view() == rows_of(*file),
{
    let mut out: Vec<FunctionRow> = Vec::new();
    let mut i: usize = 0;
    while i < file.functions.len()
        invariant
            i <= file.functions@.len(),
            out@.len() == i,
            forall|k: int|
                0 <= k < i ==> (#[trigger] out@[k]).deep_view() == row_of(
                    file.functions@[k],
                    file.strategy,
                ),
        decreases file.functions@.len() - i,
    {
        let f = &file.functions[i];
        out.push(
            FunctionRow {
                name: f.name.as_str().to_string(),
                start_line: f.start_line as i64,
                end_line: f.end_line as i64,
                strategy: file.strategy.as_str().to_string(),
                kind: kind_text(f.kind).to_string(),
            },
        );
        i += 1;
    }
    assert(out.deep_view() =~= rows_of(*file));
    out
}

/// The statement that puts a file and its functions in the place of what was
/// there of it.
pub fn save_file_definition(tenant_id: &str, file: &FileDefinitionMap) -> (r: Statement)
    ensures
        r.deep_view() == StatementModel::new(SAVE_FILE@).text("path"@, file.file_path@).text(
            "language"@,
            file.language@,
        ).param("functions"@, ParamModel::Functions(rows_of(*file))).text(
            "tenant_id"@,
            tenant_id@,
        ),
        r.deep_view().scoped(tenant_id@),
{
    let rows = function_rows(file);
    Statement::new(SAVE_FILE).text("path", file.file_path.as_str()).text(
        "language",
        file.language.as_str(),
    ).param("functions", ParamValue::Functions(rows)).scope(tenant_id)
}

/// The statement that says that a file depends on another one.
pub fn save_dependency_relation(tenant_id: &str, origin_path: &str, destination_path: &str) -> (r:
    Statement)
    ensures
        r.deep_view() == StatementModel::new(SAVE_DEPENDENCY@).text(
            "ruta_origen"@,
            origin_path@,
        ).text("ruta_destino"@, destination_path@).text("tenant_id"@, tenant_id@),
        r.deep_view().scoped(tenant_id@),
{
    Statement::new(SAVE_DEPENDENCY).text("ruta_origen", origin_path).text(
        "ruta_destino",
        destination_path,
    ).scope(tenant_id)
}

pub open spec fn lesson_statement(
    tenant_id: Seq<char>,
    file_path: Seq<char>,
    symbol_name: Seq<char>,
    error_context: Seq<char>,
    solution: Seq<char>,
    timestamp: Seq<char>,
) -> StatementModel {
    StatementModel::new(RECORD_LESSON@).text("file_path"@, file_path).text(
        "symbol_name"@,
        symbol_name,
    ).text("error_context"@, error_context).text("solution"@, solution).text(
        "timestamp"@,
        timestamp,
    ).text("tenant_id"@, tenant_id)
}

/// The statement that records a lesson. A lesson on a whole file has an empty
/// symbol name.
pub fn record_lesson(
    tenant_id: &str,
    file_path: &str,
    symbol_name: Option<&str>,
    error_context: &str,
    solution: &str,
    timestamp: &str,
) -> (r: Statement)
    ensures
        r.deep_view() == lesson_statement(
            tenant_id@,
            file_path@,
            match symbol_name {
                Some(s) => s@,
                None => ""@,
            },
            error_context@,
            solution@,
            timestamp@,
        ),
        r.deep_view().scoped(tenant_id@),
{
    let symbol = match symbol_name {
        Some(s) => s,
        None => "",
    };
    Statement::new(RECORD_LESSON).text("file_path", file_path).text("symbol_name", symbol).text(
        "error_context",
        error_context,
    ).text("solution", solution).text("timestamp", timestamp).scope(tenant_id)
}

/// The statement that removes the functions of a file and what it depends on.
pub fn clear_file_symbols_and_dependencies(tenant_id: &str, file_path: &str) -> (r: Statement)
    ensures
        r.deep_view() == StatementModel::new(CLEAR_FILE@).text("path"@, file_path@).text(
            "tenant_id"@,
            tenant_id@,
        ),
        r.deep_view().scoped(tenant_id@),
{
    Statement::new(CLEAR_FILE).text("path", file_path).scope(tenant_id)
}

/// The statement that counts a file: once if it is there.
pub fn count_file(tenant_id: &str, file_path: &str) -> (r: Statement)
    ensures
        r.deep_view() == StatementModel::new(COUNT_FILE@).text("path"@, file_path@).text(
            "tenant_id"@,
            tenant_id@,
        ),
        r.deep_view().scoped(tenant_id@),
{
    Statement::new(COUNT_FILE).text("path", file_path).scope(tenant_id)
}

/// The statement that removes a file with its functions, if the count says that
/// it is there.
pub fn delete_file(tenant_id: &str, file_path: &str, file_count: i64) -> (r: Option<Statement>)
    ensures
        r is None <==> file_count == 0,
        r is Some ==> r->0.deep_view() == StatementModel::new(DELETE_FILE@).text(
            "path"@,
            file_path@,
        ).text("tenant_id"@, tenant_id@) && r->0.deep_view().scoped(tenant_id@),
{
    if file_count == 0 {
        None
    } else {
        Some(Statement::new(DELETE_FILE).text("path", file_path).scope(tenant_id))
    }
}

pub open spec fn project_statement(
    text: Seq<char>,
    tenant_id: Seq<char>,
    project_path: Seq<char>,
) -> StatementModel {
    StatementModel::new(text).text("path"@, project_path).text(
        "slash1"@,
        project_path + "\\"@,
    ).text("slash2"@, project_path + "/"@).text("tenant_id"@, tenant_id)
}

/// The statement that counts the files of a project.
pub fn count_project_files(tenant_id: &str, project_path: &str) -> (r: Statement)
    ensures
        r.deep_view() == project_statement(COUNT_PROJECT_FILES@, tenant_id@, project_path@),
        r.deep_view().scoped(tenant_id@),
{
    Statement::new(COUNT_PROJECT_FILES).text("path", project_path).text(
        "slash1",
        concat2(project_path, "\\").as_str(),
    ).text("slash2", concat2(project_path, "/").as_str()).scope(tenant_id)
}

/// The statement that removes the files of a project with their functions, if the
/// count says that there are any.
pub fn delete_project_files(tenant_id: &str, project_path: &str, file_count: i64) -> (r: Option<
    Statement,
>)
    ensures
        r is Some <==> file_count > 0,
        r is Some ==> r->0.deep_view() == project_statement(
            DELETE_PROJECT_FILES@,
            tenant_id@,
            project_path@,
        ) && r->0.deep_view().scoped(tenant_id@),
{
    if file_count > 0 {
        Some(
            Statement::new(DELETE_PROJECT_FILES).text("path", project_path).text(
                "slash1",
                concat2(project_path, "\\").as_str(),
            ).text("slash2", concat2(project_path, "/").as_str()).scope(tenant_id),
        )
    } else {
        None
    }
}

// ---------------------------------------------------------------------------
// Questions
// ---------------------------------------------------------------------------

/// The statement that lists the files of a tenant.
pub fn all_file_paths(tenant_id: &str) -> (r: Statement)
    ensures
        r.deep_view() == StatementModel::new(ALL_FILES@).text("tenant_id"@, tenant_id@),
        r.deep_view().scoped(tenant_id@),
{
    Statement::new(ALL_FILES).scope(tenant_id)
}

/// The statement that lists the solutions that a file has seen.
pub open spec fn engrams_statement(tenant_id: Seq<char>, file_path: Seq<char>) -> StatementModel {
    StatementModel::new(ENGRAMS@).text("file_path"@, file_path).text("tenant_id"@, tenant_id)
}

/// The statement that lists the solutions that a file has seen.
pub fn historical_engrams(tenant_id: &str, file_path: &str) -> (r: Statement)
    ensures
        r.deep_view() == engrams_statement(tenant_id@, file_path@),
        r.deep_view().scoped(tenant_id@),
{
    Statement::new(ENGRAMS).text("file_path", file_path).scope(tenant_id)
}

/// The solutions of a file are asked for by the same path and tenant under which a
/// lesson on that file is recorded.
pub proof fn law_lessons_are_asked_for_as_recorded(
    tenant_id: Seq<char>,
    file_path: Seq<char>,
    symbol_name: Seq<char>,
    error_context: Seq<char>,
    solution: Seq<char>,
    timestamp: Seq<char>,
)
    ensures
        ({
            let recorded = lesson_statement(
                tenant_id,
                file_path,
                symbol_name,
                error_context,
                solution,
                timestamp,
            );
            let asked = engrams_statement(tenant_id, file_path);
            &&& forall|i: int| #![trigger asked.params[i]]
                0 <= i < asked.params.len() ==> recorded.params.contains(asked.params[i])
            &&& recorded.params.contains(("solution"@, ParamModel::Text(solution)))
        }),
{
    let recorded = lesson_statement(
        tenant_id,
        file_path,
        symbol_name,
        error_context,
        solution,
        timestamp,
    );
    let asked = engrams_statement(tenant_id, file_path);
    assert(asked.params.len() == 2);
    assert(asked.params[0] == recorded.params[0]);
    assert(asked.params[1] == recorded.params[5]);
    assert(recorded.params[3] == ("solution"@, ParamModel::Text(solution)));
}

/// The statement that lists the latest lessons, at most `limit`, of the files
/// whose path holds the filter if there is one.
pub fn recent_lessons(tenant_id: &str, limit: i64, file_filter: Option<&str>) -> (r: Statement)
    ensures
        r.deep_view() == match file_filter {
            Some(filter) => StatementModel::new(LESSONS_OF_FILES@).number(
                "limit"@,
                limit as int,
            ).text("file_filter"@, filter@).text("tenant_id"@, tenant_id@),
            None => StatementModel::new(LESSONS@).number("limit"@, limit as int).text(
                "tenant_id"@,
                tenant_id@,
            ),
        },
        r.deep_view().scoped(tenant_id@),
{
    match file_filter {
        Some(filter) => Statement::new(LESSONS_OF_FILES).number("limit", limit).text(
            "file_filter",
            filter,
        ).scope(tenant_id),
        None => Statement::new(LESSONS).number("limit", limit).scope(tenant_id),
    }
}

/// The statement that lists the files that a file depends on.
pub fn outgoing_dependencies(tenant_id: &str, file_path: &str) -> (r: Statement)
    ensures
        r.deep_view() == StatementModel::new(OUTGOING@).text("path"@, file_path@).text(
            "tenant_id"@,
            tenant_id@,
        ),
        r.deep_view().scoped(tenant_id@),
{
    Statement::new(OUTGOING).text("path", file_path).scope(tenant_id)
}

/// The statement that lists the files that depend on a file.
pub fn incoming_dependencies(tenant_id: &str, file_path: &str) -> (r: Statement)
    ensures
        r.deep_view() == StatementModel::new(INCOMING@).text("path"@, file_path@).text(
            "tenant_id"@,
            tenant_id@,
        ),
        r.deep_view().scoped(tenant_id@),
{
    Statement::new(INCOMING).text("path", file_path).scope(tenant_id)
}

/// The statement that lists the functions of a file.
pub fn file_functions(tenant_id: &str, file_path: &str) -> (r: Statement)
    ensures
        r.deep_view() == StatementModel::new(FILE_FUNCTIONS@).text("path"@, file_path@).text(
            "tenant_id"@,
            tenant_id@,
        ),
        r.deep_view().scoped(tenant_id@),
{
    Statement::new(FILE_FUNCTIONS).text("path", file_path).scope(tenant_id)
}

/// The statement that asks for a file with its functions.
pub fn file_context(tenant_id: &str, file_path: &str) -> (r: Statement)
    ensures
        r.deep_view() == StatementModel::new(FILE_CONTEXT@).text("path"@, file_path@).text(
            "tenant_id"@,
            tenant_id@,
        ),
        r.deep_view().scoped(tenant_id@),
{
    Statement::new(FILE_CONTEXT).text("path", file_path).scope(tenant_id)
}

/// The statement that counts the files and functions of a tenant.
pub fn graph_summary(tenant_id: &str) -> (r: Statement)
    ensures
        r.deep_view() == StatementModel::new(SUMMARY@).text("tenant_id"@, tenant_id@),
        r.deep_view().scoped(tenant_id@),
{
    Statement::new(SUMMARY).scope(tenant_id)
}

/// The statement that counts the engrams of a tenant.
pub fn count_engrams(tenant_id: &str) -> (r: Statement)
    ensures
        r.deep_view() == StatementModel::new(COUNT_ENGRAMS@).text("tenant_id"@, tenant_id@),
        r.deep_view().scoped(tenant_id@),
{
    Statement::new(COUNT_ENGRAMS).scope(tenant_id)
}

/// The statement that looks for a symbol in the files of a project.
pub fn find_symbol(tenant_id: &str, symbol_name: &str, project_path: &str) -> (r: Statement)
    ensures
        r.deep_view() == StatementModel::new(FIND_SYMBOL@).text("symbol_name"@, symbol_name@).text(
            "project_path"@,
            project_path@,
        ).text("tenant_id"@, tenant_id@),
        r.deep_view().scoped(tenant_id@),
{
    Statement::new(FIND_SYMBOL).text("symbol_name", symbol_name).text(
        "project_path",
        project_path,
    ).scope(tenant_id)
}

// ---------------------------------------------------------------------------
// Proposed changes
// ---------------------------------------------------------------------------

pub open spec fn gpr_statement(
    tenant_id: Seq<char>,
    gpr_id: int,
    username: Seq<char>,
    message: Seq<char>,
    timestamp: Seq<char>,
) -> StatementModel {
    StatementModel::new(CREATE_GPR@).number("id"@, gpr_id).text("user"@, username).text(
        "message"@,
        message,
    ).text("timestamp"@, timestamp).text("tenant_id"@, tenant_id)
}

pub open spec fn staging_file_statement(
    tenant_id: Seq<char>,
    gpr_id: int,
    file: FileDefinitionMap,
) -> StatementModel {
    StatementModel::new(PROPOSE_FILE@).number("id"@, gpr_id).text("path"@, file.file_path@).text(
        "language"@,
        file.language@,
    ).text("tenant_id"@, tenant_id)
}

pub open spec fn staging_function_statement(
    tenant_id: Seq<char>,
    gpr_id: int,
    file: FileDefinitionMap,
    f: ExtractedFunction,
) -> StatementModel {
    StatementModel::new(PROPOSE_FUNCTION@).number("id"@, gpr_id).text(
        "path"@,
        file.file_path@,
    ).text("name"@, f.name@).number("start"@, f.start_line as i64 as int).number(
        "end"@,
        f.end_line as i64 as int,
    ).text("strategy"@, file.strategy.label()).text("kind"@, kind_name(f.kind)).text(
        "tenant_id"@,
        tenant_id,
    )
}

/// The statements that propose a file: the file, then each of its functions.
pub open spec fn file_plan(tenant_id: Seq<char>, gpr_id: int, file: FileDefinitionMap) -> Seq<
    StatementModel,
> {
    seq![staging_file_statement(tenant_id, gpr_id, file)] + Seq::new(
        file.functions@.len(),
        |i: int| staging_function_statement(tenant_id, gpr_id, file, file.functions@[i]),
    )
}

/// The statements that propose the first `n` files.
pub open spec fn files_plan(
    tenant_id: Seq<char>,
    gpr_id: int,
    files: Seq<FileDefinitionMap>,
    n: nat,
) -> Seq<StatementModel>
    decreases n,
{
    if n == 0 || n > files.len() {
        Seq::empty()
    } else {
        files_plan(tenant_id, gpr_id, files, (n - 1) as nat) + file_plan(
            tenant_id,
            gpr_id,
            files[n - 1],
        )
    }
}

fn create_gpr_statement(
    tenant_id: &str,
    gpr_id: i64,
    username: &str,
    message: &str,
    timestamp: &str,
) -> (r: Statement)
    ensures
        r.deep_view() == gpr_statement(
            tenant_id@,
            gpr_id as int,
            username@,
            message@,
            timestamp@,
        ),
        r.deep_view().scoped(tenant_id@),
{
    Statement::new(CREATE_GPR).number("id", gpr_id).text("user", username).text(
        "message",
        message,
    ).text("timestamp", timestamp).scope(tenant_id)
}

fn propose_file(tenant_id: &str, gpr_id: i64, file: &FileDefinitionMap) -> (r: Vec<Statement>)
    ensures
        r.deep_view() == file_plan(tenant_id@, gpr_id as int, *file),
{
    let mut out: Vec<Statement> = Vec::new();
    out.push(
        Statement::new(PROPOSE_FILE).number("id", gpr_id).text("path", file.file_path.as_str()).text(
            "language",
            file.language.as_str(),
        ).scope(tenant_id),
    );
    let mut i: usize = 0;
    while i < file.functions.len()
        invariant
            i <= file.functions@.len(),
            out@.len() == i + 1,
            out@[0].deep_view() == staging_file_statement(tenant_id@, gpr_id as int, *file),
            forall|k: int|
                1 <= k <= i ==> (#[trigger] out@[k]).deep_view() == staging_function_statement(
                    tenant_id@,
                    gpr_id as int,
                    *file,
                    file.functions@[k - 1],
                ),
        decreases file.functions@.len() - i,
    {
        let f = &file.functions[i];
        out.push(
            Statement::new(PROPOSE_FUNCTION).number("id", gpr_id).text(
                "path",
                file.file_path.as_str(),
            ).text("name", f.name.as_str()).number("start", f.start_line as i64).number(
                "end",
                f.end_line as i64,
            ).text("strategy", file.strategy.as_str()).text("kind", kind_text(f.kind)).scope(
                tenant_id,
            ),
        );
        i += 1;
    }
    assert(out.deep_view() =~= file_plan(tenant_id@, gpr_id as int, *file));
    out
}

/// The statements of a proposed change of files, in their order.
pub open spec fn gpr_plan(
    tenant_id: Seq<char>,
    gpr_id: int,
    username: Seq<char>,
    message: Seq<char>,
    timestamp: Seq<char>,
    files: Seq<FileDefinitionMap>,
) -> Seq<StatementModel> {
    seq![gpr_statement(tenant_id, gpr_id, username, message, timestamp)] + files_plan(
        tenant_id,
        gpr_id,
        files,
        files.len(),
    )
}

/// The statements of a proposed change of files: the change itself, then each
/// file with its functions.
pub fn create_gpr_batch(
    tenant_id: &str,
    gpr_id: i64,
    username: &str,
    message: &str,
    timestamp: &str,
    files: &[FileDefinitionMap],
) -> (r: Vec<Statement>)
    ensures
        r.deep_view() == gpr_plan(
            tenant_id@,
            gpr_id as int,
            username@,
            message@,
            timestamp@,
            files@,
        ),
{
    let mut out = vec![create_gpr_statement(tenant_id, gpr_id, username, message, timestamp)];
    let ghost head = seq![gpr_statement(
        tenant_id@,
        gpr_id as int,
        username@,
        message@,
        timestamp@,
    )];
    assert(out.deep_view() =~= head + files_plan(tenant_id@, gpr_id as int, files@, 0));
    let mut n: usize = 0;
    while n < files.len()
        invariant
            n <= files.len(),
            out.deep_view() == head + files_plan(tenant_id@, gpr_id as int, files@, n as nat),
        decreases files.len() - n,
    {
        let ghost before = out.deep_view();
        let mut more = propose_file(tenant_id, gpr_id, &files[n]);
        let ghost part = more.deep_view();
        out.append(&mut more);
        n += 1;
        proof {
            assert(out.deep_view() =~= before + part);
            assert(before + part =~= head + (files_plan(
                tenant_id@,
                gpr_id as int,
                files@,
                (n - 1) as nat,
            ) + part));
        }
    }
    out
}

/// The statements of a proposed lesson.
pub fn create_lesson_gpr(
    tenant_id: &str,
    gpr_id: i64,
    username: &str,
    message: &str,
    file_path: &str,
    symbol_name: Option<&str>,
    error_context: &str,
    solution: &str,
    timestamp: &str,
) -> (r: Vec<Statement>)
    ensures
        r.deep_view() == seq![
            gpr_statement(tenant_id@, gpr_id as int, username@, message@, timestamp@),
            StatementModel::new(PROPOSE_LESSON@).number("id"@, gpr_id as int).text(
                "file_path"@,
                file_path@,
            ).text(
                "symbol_name"@,
                match symbol_name {
                    Some(s) => s@,
                    None => ""@,
                },
            ).text("error_context"@, error_context@).text("solution"@, solution@).text(
                "timestamp"@,
                timestamp@,
            ).text("tenant_id"@, tenant_id@),
        ],
{
    let symbol = match symbol_name {
        Some(s) => s,
        None => "",
    };
    let lesson = Statement::new(PROPOSE_LESSON).number("id", gpr_id).text(
        "file_path",
        file_path,
    ).text("symbol_name", symbol).text("error_context", error_context).text(
        "solution",
        solution,
    ).text("timestamp", timestamp).scope(tenant_id);
    let ghost lesson_model = lesson.deep_view();
    let r = vec![
        create_gpr_statement(tenant_id, gpr_id, username, message, timestamp),
        lesson,
    ];
    assert(r.deep_view() =~= seq![
        gpr_statement(tenant_id@, gpr_id as int, username@, message@, timestamp@),
        lesson_model,
    ]);
    r
}

/// The statement that lists the proposed changes that are not decided yet.
pub fn pending_gprs(tenant_id: &str) -> (r: Statement)
    ensures
        r.deep_view() == StatementModel::new(PENDING_GPRS@).text("tenant_id"@, tenant_id@),
        r.deep_view().scoped(tenant_id@),
{
    Statement::new(PENDING_GPRS).scope(tenant_id)
}

/// A question or a step that concerns one proposed change.
#[derive(Debug, Clone, Copy, PartialEq, Eq, Structural)]
pub enum GprStep {
    Status,
    MergeFiles,
    StagedLessons,
    Approve,
    Meta,
    StagedFiles,
}

impl GprStep {
    pub open spec fn statement_text(self) -> Seq<char> {
        match self {
            GprStep::Status => GPR_STATUS@,
            GprStep::MergeFiles => MERGE_FILES@,
            GprStep::StagedLessons => STAGED_LESSONS@,
            GprStep::Approve => APPROVE_GPR@,
            GprStep::Meta => GPR_META@,
            GprStep::StagedFiles => STAGED_FILES@,
        }
    }
}

/// The statement of a step that concerns one proposed change.
pub fn gpr_step(step: GprStep, tenant_id: &str, gpr_id: i64) -> (r: Statement)
    ensures
        r.deep_view() == StatementModel::new(step.statement_text()).number(
            "id"@,
            gpr_id as int,
        ).text("tenant_id"@, tenant_id@),
        r.deep_view().scoped(tenant_id@),
{
    let text = match step {
        GprStep::Status => GPR_STATUS,
        GprStep::MergeFiles => MERGE_FILES,
        GprStep::StagedLessons => STAGED_LESSONS,
        GprStep::Approve => APPROVE_GPR,
        GprStep::Meta => GPR_META,
        GprStep::StagedFiles => STAGED_FILES,
    };
    Statement::new(text).number("id", gpr_id).scope(tenant_id)
}

/// The statement that lists the proposed functions of a file.
pub fn staged_functions(tenant_id: &str, path: &str) -> (r: Statement)
    ensures
        r.deep_view() == StatementModel::new(STAGED_FUNCTIONS@).text("path"@, path@).text(
            "tenant_id"@,
            tenant_id@,
        ),
        r.deep_view().scoped(tenant_id@),
{
    Statement::new(STAGED_FUNCTIONS).text("path", path).scope(tenant_id)
}

// ---------------------------------------------------------------------------
// Sessions
// ---------------------------------------------------------------------------

/// The statement that registers a session, seen for the first time at `timestamp`.
pub fn create_session(
    tenant_id: &str,
    session_id: &str,
    username: &str,
    role: &str,
    transport: &str,
    pid: i64,
    timestamp: &str,
) -> (r: Statement)
    ensures
        r.deep_view() == StatementModel::new(CREATE_SESSION@).text("id"@, session_id@).text(
            "username"@,
            username@,
        ).text("role"@, role@).text("transport"@, transport@).number("pid"@, pid as int).text(
            "started_at"@,
            timestamp@,
        ).text("last_seen"@, timestamp@).text("tenant_id"@, tenant_id@),
        r.deep_view().scoped(tenant_id@),
{
    Statement::new(CREATE_SESSION).text("id", session_id).text("username", username).text(
        "role",
        role,
    ).text("transport", transport).number("pid", pid).text("started_at", timestamp).text(
        "last_seen",
        timestamp,
    ).scope(tenant_id)
}

/// The statement that says that a session was seen.
pub fn touch_session(tenant_id: &str, session_id: &str, timestamp: &str) -> (r: Statement)
    ensures
        r.deep_view() == StatementModel::new(TOUCH_SESSION@).text("id"@, session_id@).text(
            "last_seen"@,
            timestamp@,
        ).text("tenant_id"@, tenant_id@),
        r.deep_view().scoped(tenant_id@),
{
    Statement::new(TOUCH_SESSION).text("id", session_id).text("last_seen", timestamp).scope(
        tenant_id,
    )
}

/// The statement that lists when the sessions were seen.
pub fn session_states(tenant_id: &str) -> (r: Statement)
    ensures
        r.deep_view() == StatementModel::new(SESSION_STATES@).text("tenant_id"@, tenant_id@),
        r.deep_view().scoped(tenant_id@),
{
    Statement::new(SESSION_STATES).scope(tenant_id)
}

/// The statement that removes a session.
pub fn delete_session(tenant_id: &str, session_id: &str) -> (r: Statement)
    ensures
        r.deep_view() == StatementModel::new(DELETE_SESSION@).text("id"@, session_id@).text(
            "tenant_id"@,
            tenant_id@,
        ),
        r.deep_view().scoped(tenant_id@),
{
    Statement::new(DELETE_SESSION).text("id", session_id).scope(tenant_id)
}

/// The statement that revokes a session, if the count says that it is there.
pub fn kick_session(tenant_id: &str, session_id: &str, session_count: i64) -> (r: Option<Statement>)
    ensures
        r is None <==> session_count == 0,
        r is Some ==> r->0.deep_view() == StatementModel::new(DELETE_SESSION@).text(
            "id"@,
            session_id@,
        ).text("tenant_id"@, tenant_id@) && r->0.deep_view().scoped(tenant_id@),
{
    if session_count == 0 {
        None
    } else {
        Some(delete_session(tenant_id, session_id))
    }
}

/// The statement that lists the sessions, the latest first.
pub fn sessions(tenant_id: &str) -> (r: Statement)
    ensures
        r.deep_view() == StatementModel::new(SESSIONS@).text("tenant_id"@, tenant_id@),
        r.deep_view().scoped(tenant_id@),
{
    Statement::new(SESSIONS).scope(tenant_id)
}

/// The statement that counts a session: once if it is there.
pub fn count_session(tenant_id: &str, session_id: &str) -> (r: Statement)
    ensures
        r.deep_view() == StatementModel::new(COUNT_SESSION@).text("id"@, session_id@).text(
            "tenant_id"@,
            tenant_id@,
        ),
        r.deep_view().scoped(tenant_id@),
{
    Statement::new(COUNT_SESSION).text("id", session_id).scope(tenant_id)
}

// ---------------------------------------------------------------------------
// Laws
// ---------------------------------------------------------------------------

/// Every statement of a proposed change is bound to its tenant.
pub proof fn law_plans_are_scoped(
    tenant_id: Seq<char>,
    gpr_id: int,
    username: Seq<char>,
    message: Seq<char>,
    timestamp: Seq<char>,
    files: Seq<FileDefinitionMap>,
    i: int,
)
    requires
        0 <= i < gpr_plan(tenant_id, gpr_id, username, message, timestamp, files).len(),
    ensures
        gpr_plan(tenant_id, gpr_id, username, message, timestamp, files)[i].scoped(tenant_id),
{
    if i == 0 {
        let s = gpr_statement(tenant_id, gpr_id, username, message, timestamp);
        assert(s.params.last() == ("tenant_id"@, ParamModel::Text(tenant_id)));
    } else {
        lemma_files_scoped(tenant_id, gpr_id, files, files.len(), i - 1);
    }
}

proof fn lemma_files_scoped(
    tenant_id: Seq<char>,
    gpr_id: int,
    files: Seq<FileDefinitionMap>,
    n: nat,
    i: int,
)
    requires
        0 <= i < files_plan(tenant_id, gpr_id, files, n).len(),
    ensures
        files_plan(tenant_id, gpr_id, files, n)[i].scoped(tenant_id),
    decreases n,
{
    let first = files_plan(tenant_id, gpr_id, files, (n - 1) as nat);
    if i < first.len() {
        lemma_files_scoped(tenant_id, gpr_id, files, (n - 1) as nat, i);
    } else {
        let s = file_plan(tenant_id, gpr_id, files[n - 1])[i - first.len()];
        assert(s.params.last() == ("tenant_id"@, ParamModel::Text(tenant_id)));
    }
}

/// The number of functions in the first `n` files.
pub open spec fn function_count(files: Seq<FileDefinitionMap>, n: nat) -> nat
    decreases n,
{
    if n == 0 || n > files.len() {
        0
    } else {
        function_count(files, (n - 1) as nat) + files[n - 1].functions@.len()
    }
}

/// A proposed change takes one statement for itself, one for each file and one
/// for each function.
pub proof fn law_plan_length(
    tenant_id: Seq<char>,
    gpr_id: int,
    username: Seq<char>,
    message: Seq<char>,
    timestamp: Seq<char>,
    files: Seq<FileDefinitionMap>,
)
    ensures
        gpr_plan(tenant_id, gpr_id, username, message, timestamp, files).len() == 1 + files.len()
            + function_count(files, files.len()),
{
    lemma_files_plan_length(tenant_id, gpr_id, files, files.len());
}

proof fn lemma_files_plan_length(
    tenant_id: Seq<char>,
    gpr_id: int,
    files: Seq<FileDefinitionMap>,
    n: nat,
)
    requires
        n <= files.len(),
    ensures
        files_plan(tenant_id, gpr_id, files, n).len() == n + function_count(files, n),
    decreases n,
{
    if n > 0 {
        lemma_files_plan_length(tenant_id, gpr_id, files, (n - 1) as nat);
    }
}

/// A recorded lesson holds each value that is given under its own name, and nothing
/// else.
pub proof fn law_lessons_hold_what_is_given(
    tenant_id: Seq<char>,
    file_path: Seq<char>,
    symbol_name: Seq<char>,
    error_context: Seq<char>,
    solution: Seq<char>,
    timestamp: Seq<char>,
)
    ensures
        ({
            let recorded = lesson_statement(
                tenant_id,
                file_path,
                symbol_name,
                error_context,
                solution,
                timestamp,
            );
            &&& recorded.text == RECORD_LESSON@
            &&& recorded.params == seq![
                ("file_path"@, ParamModel::Text(file_path)),
                ("symbol_name"@, ParamModel::Text(symbol_name)),
                ("error_context"@, ParamModel::Text(error_context)),
                ("solution"@, ParamModel::Text(solution)),
                ("timestamp"@, ParamModel::Text(timestamp)),
                ("tenant_id"@, ParamModel::Text(tenant_id)),
            ]
        }),
{
}

proof fn lemma_file_at(
    tenant_id: Seq<char>,
    gpr_id: int,
    files: Seq<FileDefinitionMap>,
    n: nat,
    i: int,
    j: int,
)
    requires
        0 <= i < n <= files.len(),
        0 <= j <= files[i].functions@.len(),
    ensures
        i + function_count(files, i as nat) + j < files_plan(tenant_id, gpr_id, files, n).len(),
        files_plan(tenant_id, gpr_id, files, n)[i + function_count(files, i as nat) + j]
            == file_plan(tenant_id, gpr_id, files[i])[j],
    decreases n,
{
    let before = files_plan(tenant_id, gpr_id, files, (n - 1) as nat);
    lemma_files_plan_length(tenant_id, gpr_id, files, (n - 1) as nat);
    if i < n - 1 {
        lemma_file_at(tenant_id, gpr_id, files, (n - 1) as nat, i, j);
    }
}

/// Every file of a proposed change is proposed as it is, behind the files in front of
/// it and their functions: its statement binds its path and its language.
pub proof fn law_every_file_is_proposed(
    tenant_id: Seq<char>,
    gpr_id: int,
    username: Seq<char>,
    message: Seq<char>,
    timestamp: Seq<char>,
    files: Seq<FileDefinitionMap>,
    i: int,
)
    requires
        0 <= i < files.len(),
    ensures
        ({
            let plan = gpr_plan(tenant_id, gpr_id, username, message, timestamp, files);
            let at = 1 + i + function_count(files, i as nat);
            &&& plan[0].text == CREATE_GPR@
            &&& plan[0].params == seq![
                ("id"@, ParamModel::Number(gpr_id)),
                ("user"@, ParamModel::Text(username)),
                ("message"@, ParamModel::Text(message)),
                ("timestamp"@, ParamModel::Text(timestamp)),
                ("tenant_id"@, ParamModel::Text(tenant_id)),
            ]
            &&& at < plan.len()
            &&& plan[at].text == PROPOSE_FILE@
            &&& plan[at].params == seq![
                ("id"@, ParamModel::Number(gpr_id)),
                ("path"@, ParamModel::Text(files[i].file_path@)),
                ("language"@, ParamModel::Text(files[i].language@)),
                ("tenant_id"@, ParamModel::Text(tenant_id)),
            ]
        }),
{
    let plan = gpr_plan(tenant_id, gpr_id, username, message, timestamp, files);
    lemma_file_at(tenant_id, gpr_id, files, files.len(), i, 0);
    let at = 1 + i + function_count(files, i as nat);
    assert(plan[at] == files_plan(tenant_id, gpr_id, files, files.len())[at - 1]);
}

/// Every function of every file of a proposed change is proposed as it is, behind its
/// file and the functions in front of it: its statement binds the path of the file,
/// and the name, the first and the last line, and the kind of the function.
pub proof fn law_every_function_is_proposed(
    tenant_id: Seq<char>,
    gpr_id: int,
    username: Seq<char>,
    message: Seq<char>,
    timestamp: Seq<char>,
    files: Seq<FileDefinitionMap>,
    i: int,
    j: int,
)
    requires
        0 <= i < files.len(),
        0 <= j < files[i].functions@.len(),
        files[i].functions@[j].start_line <= i64::MAX,
        files[i].functions@[j].end_line <= i64::MAX,
    ensures
        ({
            let plan = gpr_plan(tenant_id, gpr_id, username, message, timestamp, files);
            let at = 1 + i + function_count(files, i as nat) + 1 + j;
            let f = files[i].functions@[j];
            &&& at < plan.len()
            &&& plan[at].text == PROPOSE_FUNCTION@
            &&& plan[at].params == seq![
                ("id"@, ParamModel::Number(gpr_id)),
                ("path"@, ParamModel::Text(files[i].file_path@)),
                ("name"@, ParamModel::Text(f.name@)),
                ("start"@, ParamModel::Number(f.start_line as int)),
                ("end"@, ParamModel::Number(f.end_line as int)),
                ("strategy"@, ParamModel::Text(files[i].strategy.label())),
                (
                    "kind"@,
                    ParamModel::Text(
                        if f.kind == SymbolKind::Class {
                            "Class"@
                        } else {
                            "Function"@
                        },
                    ),
                ),
                ("tenant_id"@, ParamModel::Text(tenant_id)),
            ]
        }),
{
    let plan = gpr_plan(tenant_id, gpr_id, username, message, timestamp, files);
    lemma_file_at(tenant_id, gpr_id, files, files.len(), i, 1 + j);
    let at = 1 + i + function_count(files, i as nat) + 1 + j;
    assert(plan[at] == files_plan(tenant_id, gpr_id, files, files.len())[at - 1]);
    assert(plan[at] == staging_function_statement(
        tenant_id,
        gpr_id,
        files[i],
        files[i].functions@[j],
    ));
}

/// A file is saved with all of its functions, in their order and as they are.
pub proof fn law_every_function_is_saved(file: FileDefinitionMap, i: int)
    requires
        0 <= i < file.functions@.len(),
        file.functions@[i].start_line <= i64::MAX,
        file.functions@[i].end_line <= i64::MAX,
    ensures
        rows_of(file).len() == file.functions@.len(),
        ({
            let row = rows_of(file)[i];
            let f = file.functions@[i];
            &&& row.name == f.name@
            &&& row.start_line == f.start_line
            &&& row.end_line == f.end_line
            &&& row.strategy == file.strategy.label()
            &&& row.kind == if f.kind == SymbolKind::Class {
                "Class"@
            } else {
                "Function"@
            }
        }),
{
}

/// The files of a project are the project itself and everything below it, with either
/// separator of paths, and of the tenant alone.
pub proof fn law_projects_are_asked_for_with_what_is_below(
    text: Seq<char>,
    tenant_id: Seq<char>,
    project_path: Seq<char>,
)
    ensures
        project_statement(text, tenant_id, project_path).text == text,
        project_statement(text, tenant_id, project_path).params == seq![
            ("path"@, ParamModel::Text(project_path)),
            ("slash1"@, ParamModel::Text(project_path.push('\\'))),
            ("slash2"@, ParamModel::Text(project_path.push('/'))),
            ("tenant_id"@, ParamModel::Text(tenant_id)),
        ],
{
    reveal_strlit("\\");
    reveal_strlit("/");
    assert(project_path + "\\"@ =~= project_path.push('\\'));
    assert(project_path + "/"@ =~= project_path.push('/'));
}

/// Each step of a proposed change sends its own statement.
pub proof fn law_steps_send_their_own_statements()
    ensures
        GprStep::Status.statement_text() == GPR_STATUS@,
        GprStep::MergeFiles.statement_text() == MERGE_FILES@,
        GprStep::StagedLessons.statement_text() == STAGED_LESSONS@,
        GprStep::Approve.statement_text() == APPROVE_GPR@,
        GprStep::Meta.statement_text() == GPR_META@,
        GprStep::StagedFiles.statement_text() == STAGED_FILES@,
{
}

/// The solutions of a file are asked for by its path and its tenant, and nothing else.
pub proof fn law_solutions_are_asked_for_by_file(tenant_id: Seq<char>, file_path: Seq<char>)
    ensures
        engrams_statement(tenant_id, file_path).text == ENGRAMS@,
        engrams_statement(tenant_id, file_path).params == seq![
            ("file_path"@, ParamModel::Text(file_path)),
            ("tenant_id"@, ParamModel::Text(tenant_id)),
        ],
{
}

/// What a file depends on and what depends on it are asked for by the same statement
/// with the two ends of the dependency exchanged: the file is the one of the path and
/// of the tenant, and the other end is returned. A dependency is saved from its origin
/// to its destination.
pub proof fn law_dependencies_are_asked_for_both_ways()
    ensures
        ({
            let file = "(f:File {path: $path, tenant_id: $tenant_id})"@;
            let other = "(dep:File)"@;
            let depends = "-[:DEPENDS_ON]->"@;
            let answer = "\nRETURN DISTINCT dep.path AS path\nORDER BY path"@;
            &&& OUTGOING@ == "MATCH "@ + file + depends + other + answer
            &&& INCOMING@ == "MATCH "@ + other + depends + file + answer
            &&& SAVE_DEPENDENCY@ == "MATCH (origen:File {path: $ruta_origen, tenant_id: $tenant_id}), (destino:File {path: $ruta_destino, tenant_id: $tenant_id})\nMERGE (origen)"@
                + depends + "(destino)"@
        }),
{
    let file = "(f:File {path: $path, tenant_id: $tenant_id})"@;
    let other = "(dep:File)"@;
    let depends = "-[:DEPENDS_ON]->"@;
    let answer = "\nRETURN DISTINCT dep.path AS path\nORDER BY path"@;
    assert(OUTGOING@ =~= "MATCH "@ + file + depends + other + answer) by {
        reveal_strlit("MATCH ");
        reveal_strlit("(f:File {path: $path, tenant_id: $tenant_id})");
        reveal_strlit("-[:DEPENDS_ON]->");
        reveal_strlit("(dep:File)");
        reveal_strlit("\nRETURN DISTINCT dep.path AS path\nORDER BY path");
        reveal_strlit(
            "MATCH (f:File {path: $path, tenant_id: $tenant_id})-[:DEPENDS_ON]->(dep:File)\n\
     RETURN DISTINCT dep.path AS path\n\
     ORDER BY path",
        );
    }
    assert(INCOMING@ =~= "MATCH "@ + other + depends + file + answer) by {
        reveal_strlit("MATCH ");
        reveal_strlit("(dep:File)");
        reveal_strlit("-[:DEPENDS_ON]->");
        reveal_strlit("(f:File {path: $path, tenant_id: $tenant_id})");
        reveal_strlit("\nRETURN DISTINCT dep.path AS path\nORDER BY path");
        reveal_strlit(
            "MATCH (dep:File)-[:DEPENDS_ON]->(f:File {path: $path, tenant_id: $tenant_id})\n\
     RETURN DISTINCT dep.path AS path\n\
     ORDER BY path",
        );
    }
    assert(SAVE_DEPENDENCY@ =~= "MATCH (origen:File {path: $ruta_origen, tenant_id: $tenant_id}), (destino:File {path: $ruta_destino, tenant_id: $tenant_id})\nMERGE (origen)"@
        + depends + "(destino)"@) by {
        reveal_strlit(
            "MATCH (origen:File {path: $ruta_origen, tenant_id: $tenant_id}), (destino:File {path: $ruta_destino, tenant_id: $tenant_id})\nMERGE (origen)",
        );
        reveal_strlit("-[:DEPENDS_ON]->");
        reveal_strlit("(destino)");
        reveal_strlit(
            "MATCH (origen:File {path: $ruta_origen, tenant_id: $tenant_id}), (destino:File {path: $ruta_destino, tenant_id: $tenant_id})\n\
     MERGE (origen)-[:DEPENDS_ON]->(destino)",
        );
    }
}

/// What is deleted is what is counted: the file of a path, the files of a project and
/// the session of an identifier are chosen by one condition each, of the tenant alone.
pub proof fn law_what_is_counted_is_deleted()
    ensures
        ({
            let file = "MATCH (f:File {path: $path, tenant_id: $tenant_id})"@;
            let project = "MATCH (f:File) WHERE f.tenant_id = $tenant_id AND (f.path = $path OR f.path STARTS WITH $slash1 OR f.path STARTS WITH $slash2)"@;
            let session = "MATCH (s:Session {id: $id, tenant_id: $tenant_id})"@;
            let functions = "\nOPTIONAL MATCH (f)-[:CONTAINS]->(fn:Function)"@;
            &&& COUNT_FILE@ == file + " RETURN count(f) AS file_count"@
            &&& DELETE_FILE@ == file + functions + "\nDETACH DELETE f, fn"@
            &&& CLEAR_FILE@ == file + "\nOPTIONAL MATCH (f)-[r:DEPENDS_ON]->()"@ + functions
                + "\nDETACH DELETE r, fn"@
            &&& COUNT_PROJECT_FILES@ == project + " RETURN count(f) AS file_count"@
            &&& DELETE_PROJECT_FILES@ == project + functions + "\nDETACH DELETE f, fn"@
            &&& COUNT_SESSION@ == session + " RETURN count(s) AS count"@
            &&& DELETE_SESSION@ == session + " DETACH DELETE s"@
            &&& TOUCH_SESSION@ == session + "\nSET s.last_seen = $last_seen"@
        }),
{
    let file = "MATCH (f:File {path: $path, tenant_id: $tenant_id})"@;
    let project = "MATCH (f:File) WHERE f.tenant_id = $tenant_id AND (f.path = $path OR f.path STARTS WITH $slash1 OR f.path STARTS WITH $slash2)"@;
    let session = "MATCH (s:Session {id: $id, tenant_id: $tenant_id})"@;
    let functions = "\nOPTIONAL MATCH (f)-[:CONTAINS]->(fn:Function)"@;
    assert(COUNT_FILE@ =~= file + " RETURN count(f) AS file_count"@) by {
        reveal_strlit("MATCH (f:File {path: $path, tenant_id: $tenant_id})");
        reveal_strlit(" RETURN count(f) AS file_count");
        reveal_strlit(
            "MATCH (f:File {path: $path, tenant_id: $tenant_id}) RETURN count(f) AS file_count",
        );
    }
    assert(DELETE_FILE@ =~= file + functions + "\nDETACH DELETE f, fn"@) by {
        reveal_strlit("MATCH (f:File {path: $path, tenant_id: $tenant_id})");
        reveal_strlit("\nOPTIONAL MATCH (f)-[:CONTAINS]->(fn:Function)");
        reveal_strlit("\nDETACH DELETE f, fn");
        reveal_strlit(
            "MATCH (f:File {path: $path, tenant_id: $tenant_id})\n\
     OPTIONAL MATCH (f)-[:CONTAINS]->(fn:Function)\n\
     DETACH DELETE f, fn",
        );
    }
    assert(CLEAR_FILE@ =~= file + "\nOPTIONAL MATCH (f)-[r:DEPENDS_ON]->()"@ + functions
        + "\nDETACH DELETE r, fn"@) by {
        reveal_strlit("MATCH (f:File {path: $path, tenant_id: $tenant_id})");
        reveal_strlit("\nOPTIONAL MATCH (f)-[r:DEPENDS_ON]->()");
        reveal_strlit("\nOPTIONAL MATCH (f)-[:CONTAINS]->(fn:Function)");
        reveal_strlit("\nDETACH DELETE r, fn");
        reveal_strlit(
            "MATCH (f:File {path: $path, tenant_id: $tenant_id})\n\
     OPTIONAL MATCH (f)-[r:DEPENDS_ON]->()\n\
     OPTIONAL MATCH (f)-[:CONTAINS]->(fn:Function)\n\
     DETACH DELETE r, fn",
        );
    }
    assert(COUNT_PROJECT_FILES@ =~= project + " RETURN count(f) AS file_count"@) by {
        reveal_strlit(
            "MATCH (f:File) WHERE f.tenant_id = $tenant_id AND (f.path = $path OR f.path STARTS WITH $slash1 OR f.path STARTS WITH $slash2)",
        );
        reveal_strlit(" RETURN count(f) AS file_count");
        reveal_strlit(
            "MATCH (f:File) WHERE f.tenant_id = $tenant_id AND (f.path = $path OR f.path STARTS WITH $slash1 OR f.path STARTS WITH $slash2) RETURN count(f) AS file_count",
        );
    }
    assert(DELETE_PROJECT_FILES@ =~= project + functions + "\nDETACH DELETE f, fn"@) by {
        reveal_strlit(
            "MATCH (f:File) WHERE f.tenant_id = $tenant_id AND (f.path = $path OR f.path STARTS WITH $slash1 OR f.path STARTS WITH $slash2)",
        );
        reveal_strlit("\nOPTIONAL MATCH (f)-[:CONTAINS]->(fn:Function)");
        reveal_strlit("\nDETACH DELETE f, fn");
        reveal_strlit(
            "MATCH (f:File) WHERE f.tenant_id = $tenant_id AND (f.path = $path OR f.path STARTS WITH $slash1 OR f.path STARTS WITH $slash2)\n\
     OPTIONAL MATCH (f)-[:CONTAINS]->(fn:Function)\n\
     DETACH DELETE f, fn",
        );
    }
    assert(COUNT_SESSION@ =~= session + " RETURN count(s) AS count"@) by {
        reveal_strlit("MATCH (s:Session {id: $id, tenant_id: $tenant_id})");
        reveal_strlit(" RETURN count(s) AS count");
        reveal_strlit("MATCH (s:Session {id: $id, tenant_id: $tenant_id}) RETURN count(s) AS count");
    }
    assert(DELETE_SESSION@ =~= session + " DETACH DELETE s"@) by {
        reveal_strlit("MATCH (s:Session {id: $id, tenant_id: $tenant_id})");
        reveal_strlit(" DETACH DELETE s");
        reveal_strlit("MATCH (s:Session {id: $id, tenant_id: $tenant_id}) DETACH DELETE s");
    }
    assert(TOUCH_SESSION@ =~= session + "\nSET s.last_seen = $last_seen"@) by {
        reveal_strlit("MATCH (s:Session {id: $id, tenant_id: $tenant_id})");
        reveal_strlit("\nSET s.last_seen = $last_seen");
        reveal_strlit(
            "MATCH (s:Session {id: $id, tenant_id: $tenant_id})\n\
     SET s.last_seen = $last_seen",
        );
    }
}

/// A lesson is recorded on its file, as an error that the file triggered and an engram
/// that resolved it, and the solutions, the lessons and the number of engrams are asked
/// for along the same way. The lessons of some files are those of all files, filtered.
pub proof fn law_solutions_are_found_where_they_are_recorded()
    ensures
        ({
            let file = "(f:File {path: $file_path, tenant_id: $tenant_id})"@;
            let triggered = "-[:TRIGGERED]->"@;
            let resolved = "-[:RESOLVED_BY]->"@;
            let lesson = "(l:Lesson {error_context: $error_context, solution: $solution, timestamp: $timestamp, symbol_name: coalesce($symbol_name, ''), tenant_id: $tenant_id})"@;
            let error = "(e:ErrorLog {message: $error_context, type: $error_context, tenant_id: $tenant_id})"@;
            let engram = "(eng:Engram {solution: $solution, timestamp: $timestamp, tenant_id: $tenant_id})"@;
            let answer = "\nRETURN f.path AS file_path, coalesce(e.type, '') AS error_type, coalesce(eng.solution, '') AS solution, coalesce(eng.timestamp, '') AS timestamp\nORDER BY toInteger(eng.timestamp) DESC\nLIMIT $limit"@;
            &&& RECORD_LESSON@ == "MERGE "@ + file
                + "\nWITH f\nOPTIONAL MATCH (f)-[:CONTAINS]->(fn:Function {name: $symbol_name, tenant_id: $tenant_id})\nWITH f, fn\nCREATE "@
                + lesson + "\nCREATE "@ + error + "\nCREATE "@ + engram + "\nCREATE (e)"@
                + resolved + "(eng)\nCREATE (f)"@ + triggered
                + "(e)\nWITH f, fn, l\nFOREACH (x IN CASE WHEN fn IS NOT NULL THEN [fn] ELSE [] END |\nCREATE (x)-[:LESSON_OF]->(l)\nCREATE (l)-[:RESOLVED_WITH]->(x)\n)\nFOREACH (x IN CASE WHEN fn IS NULL THEN [f] ELSE [] END |\nCREATE (x)-[:LESSON_OF]->(l)\nCREATE (l)-[:RESOLVED_WITH]->(x)\n)"@
            &&& ENGRAMS@ == "OPTIONAL MATCH "@ + file + triggered + "(e:ErrorLog)"@ + resolved
                + "(eng:Engram)\nRETURN DISTINCT coalesce(eng.solution, '') AS solution"@
            &&& LESSONS@ == "MATCH (f:File)"@ + triggered + "(e:ErrorLog)"@ + resolved
                + "(eng:Engram)\nWHERE f.tenant_id = $tenant_id"@ + answer
            &&& LESSONS_OF_FILES@ == "MATCH (f:File)"@ + triggered + "(e:ErrorLog)"@ + resolved
                + "(eng:Engram)\nWHERE f.tenant_id = $tenant_id"@
                + " AND f.path CONTAINS $file_filter"@ + answer
            &&& COUNT_ENGRAMS@ == "MATCH (f:File {tenant_id: $tenant_id})"@ + triggered
                + "(:ErrorLog)"@ + resolved
                + "(eng:Engram)\nRETURN count(DISTINCT eng) AS engram_count"@
        }),
{
    let file = "(f:File {path: $file_path, tenant_id: $tenant_id})"@;
    let triggered = "-[:TRIGGERED]->"@;
    let resolved = "-[:RESOLVED_BY]->"@;
    let lesson = "(l:Lesson {error_context: $error_context, solution: $solution, timestamp: $timestamp, symbol_name: coalesce($symbol_name, ''), tenant_id: $tenant_id})"@;
    let error = "(e:ErrorLog {message: $error_context, type: $error_context, tenant_id: $tenant_id})"@;
    let engram = "(eng:Engram {solution: $solution, timestamp: $timestamp, tenant_id: $tenant_id})"@;
    let answer = "\nRETURN f.path AS file_path, coalesce(e.type, '') AS error_type, coalesce(eng.solution, '') AS solution, coalesce(eng.timestamp, '') AS timestamp\nORDER BY toInteger(eng.timestamp) DESC\nLIMIT $limit"@;
    assert(RECORD_LESSON@ =~= "MERGE "@ + file
        + "\nWITH f\nOPTIONAL MATCH (f)-[:CONTAINS]->(fn:Function {name: $symbol_name, tenant_id: $tenant_id})\nWITH f, fn\nCREATE "@
        + lesson + "\nCREATE "@ + error + "\nCREATE "@ + engram + "\nCREATE (e)"@ + resolved
        + "(eng)\nCREATE (f)"@ + triggered
        + "(e)\nWITH f, fn, l\nFOREACH (x IN CASE WHEN fn IS NOT NULL THEN [fn] ELSE [] END |\nCREATE (x)-[:LESSON_OF]->(l)\nCREATE (l)-[:RESOLVED_WITH]->(x)\n)\nFOREACH (x IN CASE WHEN fn IS NULL THEN [f] ELSE [] END |\nCREATE (x)-[:LESSON_OF]->(l)\nCREATE (l)-[:RESOLVED_WITH]->(x)\n)"@) by {
        reveal_strlit("MERGE ");
        reveal_strlit("(f:File {path: $file_path, tenant_id: $tenant_id})");
        reveal_strlit(
            "\nWITH f\nOPTIONAL MATCH (f)-[:CONTAINS]->(fn:Function {name: $symbol_name, tenant_id: $tenant_id})\nWITH f, fn\nCREATE ",
        );
        reveal_strlit(
            "(l:Lesson {error_context: $error_context, solution: $solution, timestamp: $timestamp, symbol_name: coalesce($symbol_name, ''), tenant_id: $tenant_id})",
        );
        reveal_strlit("\nCREATE ");
        reveal_strlit(
            "(e:ErrorLog {message: $error_context, type: $error_context, tenant_id: $tenant_id})",
        );
        reveal_strlit(
            "(eng:Engram {solution: $solution, timestamp: $timestamp, tenant_id: $tenant_id})",
        );
        reveal_strlit("\nCREATE (e)");
        reveal_strlit("-[:RESOLVED_BY]->");
        reveal_strlit("(eng)\nCREATE (f)");
        reveal_strlit("-[:TRIGGERED]->");
        reveal_strlit(
            "(e)\nWITH f, fn, l\nFOREACH (x IN CASE WHEN fn IS NOT NULL THEN [fn] ELSE [] END |\nCREATE (x)-[:LESSON_OF]->(l)\nCREATE (l)-[:RESOLVED_WITH]->(x)\n)\nFOREACH (x IN CASE WHEN fn IS NULL THEN [f] ELSE [] END |\nCREATE (x)-[:LESSON_OF]->(l)\nCREATE (l)-[:RESOLVED_WITH]->(x)\n)",
        );
        reveal_strlit(
            "MERGE (f:File {path: $file_path, tenant_id: $tenant_id})\n\
     WITH f\n\
     OPTIONAL MATCH (f)-[:CONTAINS]->(fn:Function {name: $symbol_name, tenant_id: $tenant_id})\n\
     WITH f, fn\n\
     CREATE (l:Lesson {error_context: $error_context, solution: $solution, timestamp: $timestamp, symbol_name: coalesce($symbol_name, ''), tenant_id: $tenant_id})\n\
     CREATE (e:ErrorLog {message: $error_context, type: $error_context, tenant_id: $tenant_id})\n\
     CREATE (eng:Engram {solution: $solution, timestamp: $timestamp, tenant_id: $tenant_id})\n\
     CREATE (e)-[:RESOLVED_BY]->(eng)\n\
     CREATE (f)-[:TRIGGERED]->(e)\n\
     WITH f, fn, l\n\
     FOREACH (x IN CASE WHEN fn IS NOT NULL THEN [fn] ELSE [] END |\n\
         CREATE (x)-[:LESSON_OF]->(l)\n\
         CREATE (l)-[:RESOLVED_WITH]->(x)\n\
     )\n\
     FOREACH (x IN CASE WHEN fn IS NULL THEN [f] ELSE [] END |\n\
         CREATE (x)-[:LESSON_OF]->(l)\n\
         CREATE (l)-[:RESOLVED_WITH]->(x)\n\
     )",
        );
    }
    assert(ENGRAMS@ =~= "OPTIONAL MATCH "@ + file + triggered + "(e:ErrorLog)"@ + resolved
        + "(eng:Engram)\nRETURN DISTINCT coalesce(eng.solution, '') AS solution"@) by {
        reveal_strlit("OPTIONAL MATCH ");
        reveal_strlit("(f:File {path: $file_path, tenant_id: $tenant_id})");
        reveal_strlit("-[:TRIGGERED]->");
        reveal_strlit("(e:ErrorLog)");
        reveal_strlit("-[:RESOLVED_BY]->");
        reveal_strlit("(eng:Engram)\nRETURN DISTINCT coalesce(eng.solution, '') AS solution");
        reveal_strlit(
            "OPTIONAL MATCH (f:File {path: $file_path, tenant_id: $tenant_id})-[:TRIGGERED]->(e:ErrorLog)-[:RESOLVED_BY]->(eng:Engram)\n\
     RETURN DISTINCT coalesce(eng.solution, '') AS solution",
        );
    }
    assert(LESSONS@ =~= "MATCH (f:File)"@ + triggered + "(e:ErrorLog)"@ + resolved
        + "(eng:Engram)\nWHERE f.tenant_id = $tenant_id"@ + answer) by {
        reveal_strlit("MATCH (f:File)");
        reveal_strlit("-[:TRIGGERED]->");
        reveal_strlit("(e:ErrorLog)");
        reveal_strlit("-[:RESOLVED_BY]->");
        reveal_strlit("(eng:Engram)\nWHERE f.tenant_id = $tenant_id");
        reveal_strlit(
            "\nRETURN f.path AS file_path, coalesce(e.type, '') AS error_type, coalesce(eng.solution, '') AS solution, coalesce(eng.timestamp, '') AS timestamp\nORDER BY toInteger(eng.timestamp) DESC\nLIMIT $limit",
        );
        reveal_strlit(
            "MATCH (f:File)-[:TRIGGERED]->(e:ErrorLog)-[:RESOLVED_BY]->(eng:Engram)\n\
     WHERE f.tenant_id = $tenant_id\n\
     RETURN f.path AS file_path, coalesce(e.type, '') AS error_type, coalesce(eng.solution, '') AS solution, coalesce(eng.timestamp, '') AS timestamp\n\
     ORDER BY toInteger(eng.timestamp) DESC\n\
     LIMIT $limit",
        );
    }
    assert(LESSONS_OF_FILES@ =~= "MATCH (f:File)"@ + triggered + "(e:ErrorLog)"@ + resolved
        + "(eng:Engram)\nWHERE f.tenant_id = $tenant_id"@ + " AND f.path CONTAINS $file_filter"@
        + answer) by {
        reveal_strlit("MATCH (f:File)");
        reveal_strlit("-[:TRIGGERED]->");
        reveal_strlit("(e:ErrorLog)");
        reveal_strlit("-[:RESOLVED_BY]->");
        reveal_strlit("(eng:Engram)\nWHERE f.tenant_id = $tenant_id");
        reveal_strlit(" AND f.path CONTAINS $file_filter");
        reveal_strlit(
            "\nRETURN f.path AS file_path, coalesce(e.type, '') AS error_type, coalesce(eng.solution, '') AS solution, coalesce(eng.timestamp, '') AS timestamp\nORDER BY toInteger(eng.timestamp) DESC\nLIMIT $limit",
        );
        reveal_strlit(
            "MATCH (f:File)-[:TRIGGERED]->(e:ErrorLog)-[:RESOLVED_BY]->(eng:Engram)\n\
     WHERE f.tenant_id = $tenant_id AND f.path CONTAINS $file_filter\n\
     RETURN f.path AS file_path, coalesce(e.type, '') AS error_type, coalesce(eng.solution, '') AS solution, coalesce(eng.timestamp, '') AS timestamp\n\
     ORDER BY toInteger(eng.timestamp) DESC\n\
     LIMIT $limit",
        );
    }
    assert(COUNT_ENGRAMS@ =~= "MATCH (f:File {tenant_id: $tenant_id})"@ + triggered
        + "(:ErrorLog)"@ + resolved + "(eng:Engram)\nRETURN count(DISTINCT eng) AS engram_count"@) by {
        reveal_strlit("MATCH (f:File {tenant_id: $tenant_id})");
        reveal_strlit("-[:TRIGGERED]->");
        reveal_strlit("(:ErrorLog)");
        reveal_strlit("-[:RESOLVED_BY]->");
        reveal_strlit("(eng:Engram)\nRETURN count(DISTINCT eng) AS engram_count");
        reveal_strlit(
            "MATCH (f:File {tenant_id: $tenant_id})-[:TRIGGERED]->(:ErrorLog)-[:RESOLVED_BY]->(eng:Engram)\n\
     RETURN count(DISTINCT eng) AS engram_count",
        );
    }
}

/// What is proposed hangs on the proposed change of its number and of its tenant, and is
/// read, merged and cleared along the same way. A change is open when it is made, only
/// open changes are listed, and an approved one is open no longer.
pub proof fn law_what_is_proposed_is_staged_and_merged()
    ensures
        ({
            let change = "MATCH (g:GprRequest {id: $id, tenant_id: $tenant_id})"@;
            let proposes = "-[:PROPOSES]->"@;
            let teaches = "-[:PROPOSES_LESSON]->"@;
            let contains = "-[:CONTAINS]->"@;
            &&& PROPOSE_FILE@ == change
                + "\nCREATE (sf:StagingFile {path: $path, language: $language, tenant_id: $tenant_id})\nCREATE (g)"@
                + proposes + "(sf)"@
            &&& STAGED_FILES@ == change + proposes
                + "(sf:StagingFile)\nRETURN sf.path AS path, sf.language AS language"@
            &&& PROPOSE_FUNCTION@ == change + proposes
                + "(sf:StagingFile {path: $path, tenant_id: $tenant_id})\nCREATE (sfn:StagingFunction {name: $name, start_line: $start, end_line: $end, strategy: $strategy, kind: $kind, tenant_id: $tenant_id})\nCREATE (sf)"@
                + contains + "(sfn)"@
            &&& STAGED_FUNCTIONS@ == "MATCH (sf:StagingFile {path: $path, tenant_id: $tenant_id})"@
                + contains
                + "(sfn:StagingFunction)\nRETURN sfn.name AS name, sfn.kind AS kind, sfn.start_line AS start_line, sfn.end_line AS end_line, sfn.strategy AS strategy"@
            &&& PROPOSE_LESSON@ == change
                + "\nCREATE (sl:StagingLesson {file_path: $file_path, symbol_name: $symbol_name, error_context: $error_context, solution: $solution, timestamp: $timestamp, tenant_id: $tenant_id})\nCREATE (g)"@
                + teaches + "(sl)"@
            &&& STAGED_LESSONS@ == change + teaches
                + "(sl:StagingLesson)\nRETURN sl.file_path AS file_path, sl.symbol_name AS symbol_name, sl.error_context AS error_context, sl.solution AS solution, sl.timestamp AS timestamp"@
            &&& MERGE_FILES@ == change + proposes
                + "(sf:StagingFile)\nMERGE (f:File {path: sf.path, tenant_id: $tenant_id})\nSET f.language = sf.language\nWITH g, sf, f\nOPTIONAL MATCH (f)"@
                + contains + "(old_fn:Function)\nDETACH DELETE old_fn\nWITH g, sf, f\nMATCH (sf)"@
                + contains
                + "(sfn:StagingFunction)\nMERGE (fn:Function {name: sfn.name, start_line: sfn.start_line, end_line: sfn.end_line, tenant_id: $tenant_id})\nSET fn.strategy = sfn.strategy,\nfn.kind = sfn.kind\nMERGE (f)"@
                + contains + "(fn)"@
            &&& APPROVE_GPR@ == change
                + "\nSET g.status = 'APPROVED'\nWITH g\nOPTIONAL MATCH (g)"@ + proposes
                + "(sf:StagingFile)\nOPTIONAL MATCH (sf)"@ + contains
                + "(sfn:StagingFunction)\nOPTIONAL MATCH (g)"@ + teaches
                + "(sl:StagingLesson)\nDETACH DELETE sf, sfn, sl"@
            &&& GPR_STATUS@ == change + " RETURN g.status AS status"@
            &&& GPR_META@ == change + " RETURN g.message AS message, g.user AS user"@
            &&& CREATE_GPR@ == "CREATE (g:GprRequest {id: $id, user: $user, message: $message, timestamp: $timestamp, "@
                + "status: 'PENDING'"@ + ", tenant_id: $tenant_id})"@
            &&& PENDING_GPRS@ == "MATCH (g:GprRequest {tenant_id: $tenant_id, "@
                + "status: 'PENDING'"@
                + "})\nRETURN g.id AS id, g.user AS user, g.message AS message, g.timestamp AS timestamp, g.status AS status\nORDER BY id DESC"@
        }),
{
    let change = "MATCH (g:GprRequest {id: $id, tenant_id: $tenant_id})"@;
    let proposes = "-[:PROPOSES]->"@;
    let teaches = "-[:PROPOSES_LESSON]->"@;
    let contains = "-[:CONTAINS]->"@;
    assert(PROPOSE_FILE@ =~= change
        + "\nCREATE (sf:StagingFile {path: $path, language: $language, tenant_id: $tenant_id})\nCREATE (g)"@
        + proposes + "(sf)"@) by {
        reveal_strlit("MATCH (g:GprRequest {id: $id, tenant_id: $tenant_id})");
        reveal_strlit(
            "\nCREATE (sf:StagingFile {path: $path, language: $language, tenant_id: $tenant_id})\nCREATE (g)",
        );
        reveal_strlit("-[:PROPOSES]->");
        reveal_strlit("(sf)");
        reveal_strlit(
            "MATCH (g:GprRequest {id: $id, tenant_id: $tenant_id})\n\
     CREATE (sf:StagingFile {path: $path, language: $language, tenant_id: $tenant_id})\n\
     CREATE (g)-[:PROPOSES]->(sf)",
        );
    }
    assert(STAGED_FILES@ =~= change + proposes
        + "(sf:StagingFile)\nRETURN sf.path AS path, sf.language AS language"@) by {
        reveal_strlit("MATCH (g:GprRequest {id: $id, tenant_id: $tenant_id})");
        reveal_strlit("-[:PROPOSES]->");
        reveal_strlit("(sf:StagingFile)\nRETURN sf.path AS path, sf.language AS language");
        reveal_strlit(
            "MATCH (g:GprRequest {id: $id, tenant_id: $tenant_id})-[:PROPOSES]->(sf:StagingFile)\n\
     RETURN sf.path AS path, sf.language AS language",
        );
    }
    assert(PROPOSE_FUNCTION@ =~= change + proposes
        + "(sf:StagingFile {path: $path, tenant_id: $tenant_id})\nCREATE (sfn:StagingFunction {name: $name, start_line: $start, end_line: $end, strategy: $strategy, kind: $kind, tenant_id: $tenant_id})\nCREATE (sf)"@
        + contains + "(sfn)"@) by {
        reveal_strlit("MATCH (g:GprRequest {id: $id, tenant_id: $tenant_id})");
        reveal_strlit("-[:PROPOSES]->");
        reveal_strlit(
            "(sf:StagingFile {path: $path, tenant_id: $tenant_id})\nCREATE (sfn:StagingFunction {name: $name, start_line: $start, end_line: $end, strategy: $strategy, kind: $kind, tenant_id: $tenant_id})\nCREATE (sf)",
        );
        reveal_strlit("-[:CONTAINS]->");
        reveal_strlit("(sfn)");
        reveal_strlit(
            "MATCH (g:GprRequest {id: $id, tenant_id: $tenant_id})-[:PROPOSES]->(sf:StagingFile {path: $path, tenant_id: $tenant_id})\n\
     CREATE (sfn:StagingFunction {name: $name, start_line: $start, end_line: $end, strategy: $strategy, kind: $kind, tenant_id: $tenant_id})\n\
     CREATE (sf)-[:CONTAINS]->(sfn)",
        );
    }
    assert(STAGED_FUNCTIONS@ =~= "MATCH (sf:StagingFile {path: $path, tenant_id: $tenant_id})"@
        + contains
        + "(sfn:StagingFunction)\nRETURN sfn.name AS name, sfn.kind AS kind, sfn.start_line AS start_line, sfn.end_line AS end_line, sfn.strategy AS strategy"@) by {
        reveal_strlit("MATCH (sf:StagingFile {path: $path, tenant_id: $tenant_id})");
        reveal_strlit("-[:CONTAINS]->");
        reveal_strlit(
            "(sfn:StagingFunction)\nRETURN sfn.name AS name, sfn.kind AS kind, sfn.start_line AS start_line, sfn.end_line AS end_line, sfn.strategy AS strategy",
        );
        reveal_strlit(
            "MATCH (sf:StagingFile {path: $path, tenant_id: $tenant_id})-[:CONTAINS]->(sfn:StagingFunction)\n\
     RETURN sfn.name AS name, sfn.kind AS kind, sfn.start_line AS start_line, sfn.end_line AS end_line, sfn.strategy AS strategy",
        );
    }
    assert(PROPOSE_LESSON@ =~= change
        + "\nCREATE (sl:StagingLesson {file_path: $file_path, symbol_name: $symbol_name, error_context: $error_context, solution: $solution, timestamp: $timestamp, tenant_id: $tenant_id})\nCREATE (g)"@
        + teaches + "(sl)"@) by {
        reveal_strlit("MATCH (g:GprRequest {id: $id, tenant_id: $tenant_id})");
        reveal_strlit(
            "\nCREATE (sl:StagingLesson {file_path: $file_path, symbol_name: $symbol_name, error_context: $error_context, solution: $solution, timestamp: $timestamp, tenant_id: $tenant_id})\nCREATE (g)",
        );
        reveal_strlit("-[:PROPOSES_LESSON]->");
        reveal_strlit("(sl)");
        reveal_strlit(
            "MATCH (g:GprRequest {id: $id, tenant_id: $tenant_id})\n\
     CREATE (sl:StagingLesson {file_path: $file_path, symbol_name: $symbol_name, error_context: $error_context, solution: $solution, timestamp: $timestamp, tenant_id: $tenant_id})\n\
     CREATE (g)-[:PROPOSES_LESSON]->(sl)",
        );
    }
    assert(STAGED_LESSONS@ =~= change + teaches
        + "(sl:StagingLesson)\nRETURN sl.file_path AS file_path, sl.symbol_name AS symbol_name, sl.error_context AS error_context, sl.solution AS solution, sl.timestamp AS timestamp"@) by {
        reveal_strlit("MATCH (g:GprRequest {id: $id, tenant_id: $tenant_id})");
        reveal_strlit("-[:PROPOSES_LESSON]->");
        reveal_strlit(
            "(sl:StagingLesson)\nRETURN sl.file_path AS file_path, sl.symbol_name AS symbol_name, sl.error_context AS error_context, sl.solution AS solution, sl.timestamp AS timestamp",
        );
        reveal_strlit(
            "MATCH (g:GprRequest {id: $id, tenant_id: $tenant_id})-[:PROPOSES_LESSON]->(sl:StagingLesson)\n\
     RETURN sl.file_path AS file_path, sl.symbol_name AS symbol_name, sl.error_context AS error_context, sl.solution AS solution, sl.timestamp AS timestamp",
        );
    }
    assert(MERGE_FILES@ =~= change + proposes
        + "(sf:StagingFile)\nMERGE (f:File {path: sf.path, tenant_id: $tenant_id})\nSET f.language = sf.language\nWITH g, sf, f\nOPTIONAL MATCH (f)"@
        + contains + "(old_fn:Function)\nDETACH DELETE old_fn\nWITH g, sf, f\nMATCH (sf)"@
        + contains
        + "(sfn:StagingFunction)\nMERGE (fn:Function {name: sfn.name, start_line: sfn.start_line, end_line: sfn.end_line, tenant_id: $tenant_id})\nSET fn.strategy = sfn.strategy,\nfn.kind = sfn.kind\nMERGE (f)"@
        + contains + "(fn)"@) by {
        reveal_strlit("MATCH (g:GprRequest {id: $id, tenant_id: $tenant_id})");
        reveal_strlit("-[:PROPOSES]->");
        reveal_strlit(
            "(sf:StagingFile)\nMERGE (f:File {path: sf.path, tenant_id: $tenant_id})\nSET f.language = sf.language\nWITH g, sf, f\nOPTIONAL MATCH (f)",
        );
        reveal_strlit("-[:CONTAINS]->");
        reveal_strlit("(old_fn:Function)\nDETACH DELETE old_fn\nWITH g, sf, f\nMATCH (sf)");
        reveal_strlit(
            "(sfn:StagingFunction)\nMERGE (fn:Function {name: sfn.name, start_line: sfn.start_line, end_line: sfn.end_line, tenant_id: $tenant_id})\nSET fn.strategy = sfn.strategy,\nfn.kind = sfn.kind\nMERGE (f)",
        );
        reveal_strlit("(fn)");
        reveal_strlit(
            "MATCH (g:GprRequest {id: $id, tenant_id: $tenant_id})-[:PROPOSES]->(sf:StagingFile)\n\
     MERGE (f:File {path: sf.path, tenant_id: $tenant_id})\n\
     SET f.language = sf.language\n\
     WITH g, sf, f\n\
     OPTIONAL MATCH (f)-[:CONTAINS]->(old_fn:Function)\n\
     DETACH DELETE old_fn\n\
     WITH g, sf, f\n\
     MATCH (sf)-[:CONTAINS]->(sfn:StagingFunction)\n\
     MERGE (fn:Function {name: sfn.name, start_line: sfn.start_line, end_line: sfn.end_line, tenant_id: $tenant_id})\n\
     SET fn.strategy = sfn.strategy,\n\
         fn.kind = sfn.kind\n\
     MERGE (f)-[:CONTAINS]->(fn)",
        );
    }
    assert(APPROVE_GPR@ =~= change + "\nSET g.status = 'APPROVED'\nWITH g\nOPTIONAL MATCH (g)"@
        + proposes + "(sf:StagingFile)\nOPTIONAL MATCH (sf)"@ + contains
        + "(sfn:StagingFunction)\nOPTIONAL MATCH (g)"@ + teaches
        + "(sl:StagingLesson)\nDETACH DELETE sf, sfn, sl"@) by {
        reveal_strlit("MATCH (g:GprRequest {id: $id, tenant_id: $tenant_id})");
        reveal_strlit("\nSET g.status = 'APPROVED'\nWITH g\nOPTIONAL MATCH (g)");
        reveal_strlit("-[:PROPOSES]->");
        reveal_strlit("(sf:StagingFile)\nOPTIONAL MATCH (sf)");
        reveal_strlit("-[:CONTAINS]->");
        reveal_strlit("(sfn:StagingFunction)\nOPTIONAL MATCH (g)");
        reveal_strlit("-[:PROPOSES_LESSON]->");
        reveal_strlit("(sl:StagingLesson)\nDETACH DELETE sf, sfn, sl");
        reveal_strlit(
            "MATCH (g:GprRequest {id: $id, tenant_id: $tenant_id})\n\
     SET g.status = 'APPROVED'\n\
     WITH g\n\
     OPTIONAL MATCH (g)-[:PROPOSES]->(sf:StagingFile)\n\
     OPTIONAL MATCH (sf)-[:CONTAINS]->(sfn:StagingFunction)\n\
     OPTIONAL MATCH (g)-[:PROPOSES_LESSON]->(sl:StagingLesson)\n\
     DETACH DELETE sf, sfn, sl",
        );
    }
    assert(GPR_STATUS@ =~= change + " RETURN g.status AS status"@) by {
        reveal_strlit("MATCH (g:GprRequest {id: $id, tenant_id: $tenant_id})");
        reveal_strlit(" RETURN g.status AS status");
        reveal_strlit(
            "MATCH (g:GprRequest {id: $id, tenant_id: $tenant_id}) RETURN g.status AS status",
        );
    }
    assert(GPR_META@ =~= change + " RETURN g.message AS message, g.user AS user"@) by {
        reveal_strlit("MATCH (g:GprRequest {id: $id, tenant_id: $tenant_id})");
        reveal_strlit(" RETURN g.message AS message, g.user AS user");
        reveal_strlit(
            "MATCH (g:GprRequest {id: $id, tenant_id: $tenant_id}) RETURN g.message AS message, g.user AS user",
        );
    }
    assert(CREATE_GPR@ =~= "CREATE (g:GprRequest {id: $id, user: $user, message: $message, timestamp: $timestamp, "@
        + "status: 'PENDING'"@ + ", tenant_id: $tenant_id})"@) by {
        reveal_strlit(
            "CREATE (g:GprRequest {id: $id, user: $user, message: $message, timestamp: $timestamp, ",
        );
        reveal_strlit("status: 'PENDING'");
        reveal_strlit(", tenant_id: $tenant_id})");
        reveal_strlit(
            "CREATE (g:GprRequest {id: $id, user: $user, message: $message, timestamp: $timestamp, status: 'PENDING', tenant_id: $tenant_id})",
        );
    }
    assert(PENDING_GPRS@ =~= "MATCH (g:GprRequest {tenant_id: $tenant_id, "@
        + "status: 'PENDING'"@
        + "})\nRETURN g.id AS id, g.user AS user, g.message AS message, g.timestamp AS timestamp, g.status AS status\nORDER BY id DESC"@) by {
        reveal_strlit("MATCH (g:GprRequest {tenant_id: $tenant_id, ");
        reveal_strlit("status: 'PENDING'");
        reveal_strlit(
            "})\nRETURN g.id AS id, g.user AS user, g.message AS message, g.timestamp AS timestamp, g.status AS status\nORDER BY id DESC",
        );
        reveal_strlit(
            "MATCH (g:GprRequest {tenant_id: $tenant_id, status: 'PENDING'})\n\
     RETURN g.id AS id, g.user AS user, g.message AS message, g.timestamp AS timestamp, g.status AS status\n\
     ORDER BY id DESC",
        );
    }
}

/// A file is saved under its path and its tenant, with its functions in place of those
/// that it had, and is read, listed, counted and searched along the same way. The
/// functions of each strategy are counted by the name of that strategy.
pub proof fn law_files_are_read_as_they_are_saved()
    ensures
        ({
            let file = "(f:File {path: $path, tenant_id: $tenant_id})"@;
            let contains = "-[:CONTAINS]->"@;
            let figures = "coalesce(fn.kind, '') AS kind, coalesce(fn.start_line, 0) AS start_line, coalesce(fn.end_line, 0) AS end_line, coalesce(fn.strategy, '') AS strategy\nORDER BY start_line, name"@;
            let one = "' THEN 1 ELSE 0 END), 0) AS "@;
            let sum = "coalesce(sum(CASE WHEN fn.strategy = '"@;
            &&& SAVE_FILE@ == "MERGE "@ + file
                + "\nSET f.language = $language\nWITH f\nOPTIONAL MATCH (f)"@ + contains
                + "(old_fn:Function)\nDETACH DELETE old_fn\nWITH f\nUNWIND $functions AS fn_data\nMERGE (fn:Function {name: fn_data.name, start_line: fn_data.start_line, end_line: fn_data.end_line, tenant_id: $tenant_id})\nSET fn.strategy = fn_data.strategy,\nfn.kind = fn_data.kind\nMERGE (f)"@
                + contains + "(fn)"@
            &&& FILE_FUNCTIONS@ == "MATCH "@ + file + contains
                + "(fn:Function)\nRETURN fn.name AS name, "@ + figures
            &&& FILE_CONTEXT@ == "MATCH "@ + file + "\nOPTIONAL MATCH (f)"@ + contains
                + "(fn:Function)\nRETURN f.path AS path, coalesce(f.language, 'Unknown') AS language, coalesce(fn.name, '') AS name, "@
                + figures
            &&& ALL_FILES@ == "MATCH (f:File {tenant_id: $tenant_id}) RETURN f.path AS path"@
            &&& FIND_SYMBOL@ == "MATCH (f:File)"@ + contains
                + "(fn:Function) WHERE f.tenant_id = $tenant_id AND fn.name = $symbol_name AND f.path STARTS WITH $project_path RETURN f.path AS path, fn.start_line AS start_line"@
            &&& SUMMARY@ == "MATCH (f:File {tenant_id: $tenant_id})\nOPTIONAL MATCH (f)"@
                + contains
                + "(fn:Function)\nRETURN count(DISTINCT f) AS file_count, count(DISTINCT fn) AS function_count, "@
                + sum + ParseStrategy::NativeAst.label() + one + "native_ast_function_count, "@
                + sum + ParseStrategy::ExtensionWasm.label() + one
                + "extension_wasm_function_count, "@ + sum + ParseStrategy::TextHeuristic.label()
                + one + "text_heuristic_function_count"@
        }),
{
    let file = "(f:File {path: $path, tenant_id: $tenant_id})"@;
    let contains = "-[:CONTAINS]->"@;
    let figures = "coalesce(fn.kind, '') AS kind, coalesce(fn.start_line, 0) AS start_line, coalesce(fn.end_line, 0) AS end_line, coalesce(fn.strategy, '') AS strategy\nORDER BY start_line, name"@;
    let one = "' THEN 1 ELSE 0 END), 0) AS "@;
    let sum = "coalesce(sum(CASE WHEN fn.strategy = '"@;
    assert(SAVE_FILE@ =~= "MERGE "@ + file
        + "\nSET f.language = $language\nWITH f\nOPTIONAL MATCH (f)"@ + contains
        + "(old_fn:Function)\nDETACH DELETE old_fn\nWITH f\nUNWIND $functions AS fn_data\nMERGE (fn:Function {name: fn_data.name, start_line: fn_data.start_line, end_line: fn_data.end_line, tenant_id: $tenant_id})\nSET fn.strategy = fn_data.strategy,\nfn.kind = fn_data.kind\nMERGE (f)"@
        + contains + "(fn)"@) by {
        reveal_strlit("MERGE ");
        reveal_strlit("(f:File {path: $path, tenant_id: $tenant_id})");
        reveal_strlit("\nSET f.language = $language\nWITH f\nOPTIONAL MATCH (f)");
        reveal_strlit("-[:CONTAINS]->");
        reveal_strlit(
            "(old_fn:Function)\nDETACH DELETE old_fn\nWITH f\nUNWIND $functions AS fn_data\nMERGE (fn:Function {name: fn_data.name, start_line: fn_data.start_line, end_line: fn_data.end_line, tenant_id: $tenant_id})\nSET fn.strategy = fn_data.strategy,\nfn.kind = fn_data.kind\nMERGE (f)",
        );
        reveal_strlit("(fn)");
        reveal_strlit(
            "MERGE (f:File {path: $path, tenant_id: $tenant_id})\n\
     SET f.language = $language\n\
     WITH f\n\
     OPTIONAL MATCH (f)-[:CONTAINS]->(old_fn:Function)\n\
     DETACH DELETE old_fn\n\
     WITH f\n\
     UNWIND $functions AS fn_data\n\
     MERGE (fn:Function {name: fn_data.name, start_line: fn_data.start_line, end_line: fn_data.end_line, tenant_id: $tenant_id})\n\
     SET fn.strategy = fn_data.strategy,\n\
         fn.kind = fn_data.kind\n\
     MERGE (f)-[:CONTAINS]->(fn)",
        );
    }
    assert(FILE_FUNCTIONS@ =~= "MATCH "@ + file + contains
        + "(fn:Function)\nRETURN fn.name AS name, "@ + figures) by {
        reveal_strlit("MATCH ");
        reveal_strlit("(f:File {path: $path, tenant_id: $tenant_id})");
        reveal_strlit("-[:CONTAINS]->");
        reveal_strlit("(fn:Function)\nRETURN fn.name AS name, ");
        reveal_strlit(
            "coalesce(fn.kind, '') AS kind, coalesce(fn.start_line, 0) AS start_line, coalesce(fn.end_line, 0) AS end_line, coalesce(fn.strategy, '') AS strategy\nORDER BY start_line, name",
        );
        reveal_strlit(
            "MATCH (f:File {path: $path, tenant_id: $tenant_id})-[:CONTAINS]->(fn:Function)\n\
     RETURN fn.name AS name, coalesce(fn.kind, '') AS kind, coalesce(fn.start_line, 0) AS start_line, coalesce(fn.end_line, 0) AS end_line, coalesce(fn.strategy, '') AS strategy\n\
     ORDER BY start_line, name",
        );
    }
    assert(FILE_CONTEXT@ =~= "MATCH "@ + file + "\nOPTIONAL MATCH (f)"@ + contains
        + "(fn:Function)\nRETURN f.path AS path, coalesce(f.language, 'Unknown') AS language, coalesce(fn.name, '') AS name, "@
        + figures) by {
        reveal_strlit("MATCH ");
        reveal_strlit("(f:File {path: $path, tenant_id: $tenant_id})");
        reveal_strlit("\nOPTIONAL MATCH (f)");
        reveal_strlit("-[:CONTAINS]->");
        reveal_strlit(
            "(fn:Function)\nRETURN f.path AS path, coalesce(f.language, 'Unknown') AS language, coalesce(fn.name, '') AS name, ",
        );
        reveal_strlit(
            "coalesce(fn.kind, '') AS kind, coalesce(fn.start_line, 0) AS start_line, coalesce(fn.end_line, 0) AS end_line, coalesce(fn.strategy, '') AS strategy\nORDER BY start_line, name",
        );
        reveal_strlit(
            "MATCH (f:File {path: $path, tenant_id: $tenant_id})\n\
     OPTIONAL MATCH (f)-[:CONTAINS]->(fn:Function)\n\
     RETURN f.path AS path, coalesce(f.language, 'Unknown') AS language, coalesce(fn.name, '') AS name, coalesce(fn.kind, '') AS kind, coalesce(fn.start_line, 0) AS start_line, coalesce(fn.end_line, 0) AS end_line, coalesce(fn.strategy, '') AS strategy\n\
     ORDER BY start_line, name",
        );
    }
    assert(ALL_FILES@ =~= "MATCH (f:File {tenant_id: $tenant_id}) RETURN f.path AS path"@) by {
        reveal_strlit("MATCH (f:File {tenant_id: $tenant_id}) RETURN f.path AS path");
        reveal_strlit("MATCH (f:File {tenant_id: $tenant_id}) RETURN f.path AS path");
    }
    assert(FIND_SYMBOL@ =~= "MATCH (f:File)"@ + contains
        + "(fn:Function) WHERE f.tenant_id = $tenant_id AND fn.name = $symbol_name AND f.path STARTS WITH $project_path RETURN f.path AS path, fn.start_line AS start_line"@) by {
        reveal_strlit("MATCH (f:File)");
        reveal_strlit("-[:CONTAINS]->");
        reveal_strlit(
            "(fn:Function) WHERE f.tenant_id = $tenant_id AND fn.name = $symbol_name AND f.path STARTS WITH $project_path RETURN f.path AS path, fn.start_line AS start_line",
        );
        reveal_strlit(
            "MATCH (f:File)-[:CONTAINS]->(fn:Function) \
     WHERE f.tenant_id = $tenant_id AND fn.name = $symbol_name AND f.path STARTS WITH $project_path \
     RETURN f.path AS path, fn.start_line AS start_line",
        );
    }
    assert(SUMMARY@ =~= "MATCH (f:File {tenant_id: $tenant_id})\nOPTIONAL MATCH (f)"@ + contains
        + "(fn:Function)\nRETURN count(DISTINCT f) AS file_count, count(DISTINCT fn) AS function_count, "@
        + sum + ParseStrategy::NativeAst.label() + one + "native_ast_function_count, "@ + sum
        + ParseStrategy::ExtensionWasm.label() + one + "extension_wasm_function_count, "@ + sum
        + ParseStrategy::TextHeuristic.label() + one + "text_heuristic_function_count"@) by {
        reveal_strlit("MATCH (f:File {tenant_id: $tenant_id})\nOPTIONAL MATCH (f)");
        reveal_strlit("-[:CONTAINS]->");
        reveal_strlit(
            "(fn:Function)\nRETURN count(DISTINCT f) AS file_count, count(DISTINCT fn) AS function_count, ",
        );
        reveal_strlit("coalesce(sum(CASE WHEN fn.strategy = '");
        reveal_strlit("NativeAST");
        reveal_strlit("' THEN 1 ELSE 0 END), 0) AS ");
        reveal_strlit("native_ast_function_count, ");
        reveal_strlit("ExtensionWASM");
        reveal_strlit("extension_wasm_function_count, ");
        reveal_strlit("TextHeuristic");
        reveal_strlit("text_heuristic_function_count");
        reveal_strlit(
            "MATCH (f:File {tenant_id: $tenant_id})\n\
     OPTIONAL MATCH (f)-[:CONTAINS]->(fn:Function)\n\
     RETURN count(DISTINCT f) AS file_count, count(DISTINCT fn) AS function_count, \
            coalesce(sum(CASE WHEN fn.strategy = 'NativeAST' THEN 1 ELSE 0 END), 0) AS native_ast_function_count, \
            coalesce(sum(CASE WHEN fn.strategy = 'ExtensionWASM' THEN 1 ELSE 0 END), 0) AS extension_wasm_function_count, \
            coalesce(sum(CASE WHEN fn.strategy = 'TextHeuristic' THEN 1 ELSE 0 END), 0) AS text_heuristic_function_count",
        );
    }
}

/// A session is made with its identifier, its user, its process and its times, of its
/// tenant, and the sessions of a tenant are read with the same.
pub proof fn law_sessions_are_read_as_they_are_made()
    ensures
        ({
            let all = "MATCH (s:Session {tenant_id: $tenant_id})\nRETURN s.id AS id, "@;
            &&& CREATE_SESSION@ == "CREATE (s:Session {id: $id, username: $username, role: $role, transport: $transport, pid: $pid, started_at: $started_at, last_seen: $last_seen, tenant_id: $tenant_id})"@
            &&& SESSION_STATES@ == all + "s.pid AS pid, s.last_seen AS last_seen"@
            &&& SESSIONS@ == all
                + "s.username AS username, s.role AS role, s.transport AS transport, s.pid AS pid, s.started_at AS started_at, s.last_seen AS last_seen\nORDER BY s.started_at DESC"@
        }),
{
    let all = "MATCH (s:Session {tenant_id: $tenant_id})\nRETURN s.id AS id, "@;
    assert(CREATE_SESSION@ =~= "CREATE (s:Session {id: $id, username: $username, role: $role, transport: $transport, pid: $pid, started_at: $started_at, last_seen: $last_seen, tenant_id: $tenant_id})"@) by {
        reveal_strlit(
            "CREATE (s:Session {id: $id, username: $username, role: $role, transport: $transport, pid: $pid, started_at: $started_at, last_seen: $last_seen, tenant_id: $tenant_id})",
        );
        reveal_strlit(
            "CREATE (s:Session {id: $id, username: $username, role: $role, transport: $transport, pid: $pid, started_at: $started_at, last_seen: $last_seen, tenant_id: $tenant_id})",
        );
    }
    assert(SESSION_STATES@ =~= all + "s.pid AS pid, s.last_seen AS last_seen"@) by {
        reveal_strlit("MATCH (s:Session {tenant_id: $tenant_id})\nRETURN s.id AS id, ");
        reveal_strlit("s.pid AS pid, s.last_seen AS last_seen");
        reveal_strlit(
            "MATCH (s:Session {tenant_id: $tenant_id})\n\
     RETURN s.id AS id, s.pid AS pid, s.last_seen AS last_seen",
        );
    }
    assert(SESSIONS@ =~= all
        + "s.username AS username, s.role AS role, s.transport AS transport, s.pid AS pid, s.started_at AS started_at, s.last_seen AS last_seen\nORDER BY s.started_at DESC"@) by {
        reveal_strlit("MATCH (s:Session {tenant_id: $tenant_id})\nRETURN s.id AS id, ");
        reveal_strlit(
            "s.username AS username, s.role AS role, s.transport AS transport, s.pid AS pid, s.started_at AS started_at, s.last_seen AS last_seen\nORDER BY s.started_at DESC",
        );
        reveal_strlit(
            "MATCH (s:Session {tenant_id: $tenant_id})\n\
     RETURN s.id AS id, s.username AS username, s.role AS role, s.transport AS transport, s.pid AS pid, s.started_at AS started_at, s.last_seen AS last_seen\n\
     ORDER BY s.started_at DESC",
        );
    }
}

/// A user is made with a name, a role and a token, and belongs to the tenant that is
/// given; the users of a tenant are those that belong to it. What is cleared is of the
/// tenant alone, and holds no user.
pub proof fn law_users_are_read_as_they_are_made()
    ensures
        ({
            let belongs = "-[:BELONGS_TO]->"@;
            &&& CREATE_USER@ == "MATCH (t:Tenant {id: $tenant_id})\nMERGE (u:User {name: $username})\nSET u.role = $role, u.token = $token\nMERGE (u)"@
                + belongs + "(t)"@
            &&& TENANT_USERS@ == "MATCH (u:User)"@ + belongs
                + "(t:Tenant {id: $tenant_id})\nRETURN u.name AS name, u.role AS role, u.token AS token, t.id AS tenant_id"@
            &&& CREATE_TENANT@ == "MERGE (t:Tenant {id: $id})\nSET t.name = $name"@
            &&& COUNT_USERS@ == "MATCH (u:User) "@ + "RETURN count(u) AS user_count"@
            &&& COUNT_ROLES@ == "MATCH (u:User) "@
                + "RETURN u.role AS role, count(u) AS user_count ORDER BY role"@
            &&& COUNT_TENANTS@ == "MATCH (t:Tenant) "@ + "RETURN count(t) AS tenant_count"@
            &&& COUNT_GPRS@ == "MATCH (g:GprRequest) "@ + "RETURN count(g) AS gpr_count"@
            &&& CLEAR_GRAPH@ == "MATCH (n) WHERE (n:File OR n:Function OR n:Lesson OR n:ErrorLog OR n:Engram OR n:GprRequest OR n:StagingFile OR n:StagingFunction OR n:StagingLesson)"@
                + " AND n.tenant_id = $tenant_id DETACH DELETE n"@
        }),
{
    let belongs = "-[:BELONGS_TO]->"@;
    assert(CREATE_USER@ =~= "MATCH (t:Tenant {id: $tenant_id})\nMERGE (u:User {name: $username})\nSET u.role = $role, u.token = $token\nMERGE (u)"@
        + belongs + "(t)"@) by {
        reveal_strlit(
            "MATCH (t:Tenant {id: $tenant_id})\nMERGE (u:User {name: $username})\nSET u.role = $role, u.token = $token\nMERGE (u)",
        );
        reveal_strlit("-[:BELONGS_TO]->");
        reveal_strlit("(t)");
        reveal_strlit(
            "MATCH (t:Tenant {id: $tenant_id})\n\
     MERGE (u:User {name: $username})\n\
     SET u.role = $role, u.token = $token\n\
     MERGE (u)-[:BELONGS_TO]->(t)",
        );
    }
    assert(TENANT_USERS@ =~= "MATCH (u:User)"@ + belongs
        + "(t:Tenant {id: $tenant_id})\nRETURN u.name AS name, u.role AS role, u.token AS token, t.id AS tenant_id"@) by {
        reveal_strlit("MATCH (u:User)");
        reveal_strlit("-[:BELONGS_TO]->");
        reveal_strlit(
            "(t:Tenant {id: $tenant_id})\nRETURN u.name AS name, u.role AS role, u.token AS token, t.id AS tenant_id",
        );
        reveal_strlit(
            "MATCH (u:User)-[:BELONGS_TO]->(t:Tenant {id: $tenant_id})\n\
     RETURN u.name AS name, u.role AS role, u.token AS token, t.id AS tenant_id",
        );
    }
    assert(CREATE_TENANT@ =~= "MERGE (t:Tenant {id: $id})\nSET t.name = $name"@) by {
        reveal_strlit("MERGE (t:Tenant {id: $id})\nSET t.name = $name");
        reveal_strlit("MERGE (t:Tenant {id: $id})\nSET t.name = $name");
    }
    assert(COUNT_USERS@ =~= "MATCH (u:User) "@ + "RETURN count(u) AS user_count"@) by {
        reveal_strlit("MATCH (u:User) ");
        reveal_strlit("RETURN count(u) AS user_count");
        reveal_strlit("MATCH (u:User) RETURN count(u) AS user_count");
    }
    assert(COUNT_ROLES@ =~= "MATCH (u:User) "@
        + "RETURN u.role AS role, count(u) AS user_count ORDER BY role"@) by {
        reveal_strlit("MATCH (u:User) ");
        reveal_strlit("RETURN u.role AS role, count(u) AS user_count ORDER BY role");
        reveal_strlit("MATCH (u:User) RETURN u.role AS role, count(u) AS user_count ORDER BY role");
    }
    assert(COUNT_TENANTS@ =~= "MATCH (t:Tenant) "@ + "RETURN count(t) AS tenant_count"@) by {
        reveal_strlit("MATCH (t:Tenant) ");
        reveal_strlit("RETURN count(t) AS tenant_count");
        reveal_strlit("MATCH (t:Tenant) RETURN count(t) AS tenant_count");
    }
    assert(COUNT_GPRS@ =~= "MATCH (g:GprRequest) "@ + "RETURN count(g) AS gpr_count"@) by {
        reveal_strlit("MATCH (g:GprRequest) ");
        reveal_strlit("RETURN count(g) AS gpr_count");
        reveal_strlit("MATCH (g:GprRequest) RETURN count(g) AS gpr_count");
    }
    assert(CLEAR_GRAPH@ =~= "MATCH (n) WHERE (n:File OR n:Function OR n:Lesson OR n:ErrorLog OR n:Engram OR n:GprRequest OR n:StagingFile OR n:StagingFunction OR n:StagingLesson)"@
        + " AND n.tenant_id = $tenant_id DETACH DELETE n"@) by {
        reveal_strlit(
            "MATCH (n) WHERE (n:File OR n:Function OR n:Lesson OR n:ErrorLog OR n:Engram OR n:GprRequest OR n:StagingFile OR n:StagingFunction OR n:StagingLesson)",
        );
        reveal_strlit(" AND n.tenant_id = $tenant_id DETACH DELETE n");
        reveal_strlit(
            "MATCH (n) WHERE (n:File OR n:Function OR n:Lesson OR n:ErrorLog OR n:Engram OR n:GprRequest OR n:StagingFile OR n:StagingFunction OR n:StagingLesson) AND n.tenant_id = $tenant_id DETACH DELETE n",
        );
    }
}

} // verus!
