//! The interface of the server over HTTP: its endpoints, who may use them, and
//! what they answer.

use crate::credentials::Refusal;
use crate::json::{JsonModel, JsonValue};
use crate::records::UserRecord;
use crate::text;
use crate::text::{concat2, concat3, decimal_i64, same_text};
use vstd::prelude::*;

verus! {

/// What a client can ask of the server.
#[derive(Debug, Clone, Copy, PartialEq, Eq, Structural)]
pub enum Endpoint {
    Dashboard,
    Ping,
    Health,
    Status,
    Clear,
    FileDefinition,
    DependencyRelation,
    Lesson,
    ClearFileSymbols,
    DeleteFile,
    DeleteProjectFiles,
    Files,
    HistoricalEngrams,
    Lessons,
    OutgoingDependencies,
    IncomingDependencies,
    FileContext,
    GraphSummary,
    FindSymbol,
    CreateUser,
    GprPush,
    GprList,
    GprDiff,
    GprMerge,
    Sessions,
    KickSession,
}

/// The method of a request.
#[derive(Debug, Clone, Copy, PartialEq, Eq, Structural)]
pub enum Method {
    Get,
    Post,
}

impl Endpoint {
    pub open spec fn path_text(self) -> Seq<char> {
        match self {
            Endpoint::Dashboard => "/"@,
            Endpoint::Ping => "/api/ping"@,
            Endpoint::Health => "/api/health"@,
            Endpoint::Status => "/api/status"@,
            Endpoint::Clear => "/api/clear"@,
            Endpoint::FileDefinition => "/api/file-definition"@,
            Endpoint::DependencyRelation => "/api/dependency-relation"@,
            Endpoint::Lesson => "/api/lesson"@,
            Endpoint::ClearFileSymbols => "/api/clear-file-symbols"@,
            Endpoint::DeleteFile => "/api/delete-file"@,
            Endpoint::DeleteProjectFiles => "/api/delete-project-files"@,
            Endpoint::Files => "/api/files"@,
            Endpoint::HistoricalEngrams => "/api/historical-engrams"@,
            Endpoint::Lessons => "/api/lessons"@,
            Endpoint::OutgoingDependencies => "/api/outgoing-dependencies"@,
            Endpoint::IncomingDependencies => "/api/incoming-dependencies"@,
            Endpoint::FileContext => "/api/file-context"@,
            Endpoint::GraphSummary => "/api/graph-summary"@,
            Endpoint::FindSymbol => "/api/find-symbol"@,
            Endpoint::CreateUser => "/api/team/create"@,
            Endpoint::GprPush => "/api/gpr/push"@,
            Endpoint::GprList => "/api/gpr/list"@,
            Endpoint::GprDiff => "/api/gpr/diff"@,
            Endpoint::GprMerge => "/api/gpr/merge"@,
            Endpoint::Sessions => "/api/sessions"@,
            Endpoint::KickSession => "/api/sessions/kick"@,
        }
    }

    pub open spec fn posts(self) -> bool {
        match self {
            Endpoint::Clear
            | Endpoint::FileDefinition
            | Endpoint::DependencyRelation
            | Endpoint::Lesson
            | Endpoint::ClearFileSymbols
            | Endpoint::DeleteFile
            | Endpoint::DeleteProjectFiles
            | Endpoint::CreateUser
            | Endpoint::GprPush
            | Endpoint::GprMerge
            | Endpoint::KickSession => true,
            _ => false,
        }
    }

    /// Only a lead may ask.
    pub open spec fn lead_only(self) -> bool {
        match self {
            Endpoint::Clear
            | Endpoint::CreateUser
            | Endpoint::GprList
            | Endpoint::GprDiff
            | Endpoint::GprMerge => true,
            _ => false,
        }
    }

    /// The server has an answer. Sessions are known to the client alone.
    pub open spec fn served(self) -> bool {
        self != Endpoint::Sessions && self != Endpoint::KickSession
    }

    /// The client asks for it. The other endpoints are for browsers.
    pub open spec fn called(self) -> bool {
        self != Endpoint::Dashboard && self != Endpoint::Ping && self != Endpoint::Status
    }

    /// What the client says in front of the status when the request fails.
    /// `gpr_id` is the number of the proposed change that the request is about.
    pub open spec fn failure_name(self, gpr_id: int) -> Seq<char> {
        match self {
            Endpoint::Dashboard | Endpoint::Ping | Endpoint::Status => ""@,
            Endpoint::Health => "Remote ping failed: status "@,
            Endpoint::Clear => "Remote clear failed: status "@,
            Endpoint::FileDefinition => "Remote save_file_definition failed: status "@,
            Endpoint::DependencyRelation => "Remote save_dependency_relation failed: status "@,
            Endpoint::Lesson => "Remote record_lesson failed: status "@,
            Endpoint::ClearFileSymbols => "Remote clear_file_symbols_and_dependencies failed: status "@,
            Endpoint::DeleteFile => "Remote delete_file_definition failed: status "@,
            Endpoint::DeleteProjectFiles => "Remote delete_project_files failed: status "@,
            Endpoint::Files => "Remote get_all_file_paths failed: status "@,
            Endpoint::HistoricalEngrams => "Remote get_historical_engram_solutions failed: status "@,
            Endpoint::Lessons => "Remote get_recent_lessons failed: status "@,
            Endpoint::OutgoingDependencies => "Remote get_outgoing_dependencies failed: status "@,
            Endpoint::IncomingDependencies => "Remote get_incoming_dependencies failed: status "@,
            Endpoint::FileContext => "Remote get_file_context failed: status "@,
            Endpoint::GraphSummary => "Remote get_graph_summary failed: status "@,
            Endpoint::FindSymbol => "Remote find_symbol failed: status "@,
            Endpoint::CreateUser => "Remote team create failed: status "@,
            Endpoint::GprPush => "[ERROR] Falló el envío del GPR: "@,
            Endpoint::GprList => "[ERROR] Falló al listar GPRs: "@,
            Endpoint::GprDiff => "[ERROR] Falló al obtener diff de GPR "@ + text::decimal(gpr_id)
                + ": "@,
            Endpoint::GprMerge => "[ERROR] Falló la fusión del GPR "@ + text::decimal(gpr_id)
                + ": "@,
            Endpoint::Sessions => "Remote get sessions failed: status "@,
            Endpoint::KickSession => "Remote kick session failed: status "@,
        }
    }

    /// The path of the endpoint.
    pub fn path(self) -> (r: &'static str)
        ensures
            r@ == self.path_text(),
    {
        match self {
            Endpoint::Dashboard => "/",
            Endpoint::Ping => "/api/ping",
            Endpoint::Health => "/api/health",
            Endpoint::Status => "/api/status",
            Endpoint::Clear => "/api/clear",
            Endpoint::FileDefinition => "/api/file-definition",
            Endpoint::DependencyRelation => "/api/dependency-relation",
            Endpoint::Lesson => "/api/lesson",
            Endpoint::ClearFileSymbols => "/api/clear-file-symbols",
            Endpoint::DeleteFile => "/api/delete-file",
            Endpoint::DeleteProjectFiles => "/api/delete-project-files",
            Endpoint::Files => "/api/files",
            Endpoint::HistoricalEngrams => "/api/historical-engrams",
            Endpoint::Lessons => "/api/lessons",
            Endpoint::OutgoingDependencies => "/api/outgoing-dependencies",
            Endpoint::IncomingDependencies => "/api/incoming-dependencies",
            Endpoint::FileContext => "/api/file-context",
            Endpoint::GraphSummary => "/api/graph-summary",
            Endpoint::FindSymbol => "/api/find-symbol",
            Endpoint::CreateUser => "/api/team/create",
            Endpoint::GprPush => "/api/gpr/push",
            Endpoint::GprList => "/api/gpr/list",
            Endpoint::GprDiff => "/api/gpr/diff",
            Endpoint::GprMerge => "/api/gpr/merge",
            Endpoint::Sessions => "/api/sessions",
            Endpoint::KickSession => "/api/sessions/kick",
        }
    }

    /// The method of the endpoint.
    pub fn method(self) -> (r: Method)
        ensures
            r == if self.posts() {
                Method::Post
            } else {
                Method::Get
            },
    {
        match self {
            Endpoint::Clear
            | Endpoint::FileDefinition
            | Endpoint::DependencyRelation
            | Endpoint::Lesson
            | Endpoint::ClearFileSymbols
            | Endpoint::DeleteFile
            | Endpoint::DeleteProjectFiles
            | Endpoint::CreateUser
            | Endpoint::GprPush
            | Endpoint::GprMerge
            | Endpoint::KickSession => Method::Post,
            _ => Method::Get,
        }
    }

    fn failure_text(self, gpr_id: i64) -> (r: String)
        ensures
            r@ == self.failure_name(gpr_id as int),
    {
        match self {
            Endpoint::Dashboard | Endpoint::Ping | Endpoint::Status => "".to_string(),
            Endpoint::Health => "Remote ping failed: status ".to_string(),
            Endpoint::Clear => "Remote clear failed: status ".to_string(),
            Endpoint::FileDefinition => "Remote save_file_definition failed: status ".to_string(),
            Endpoint::DependencyRelation => "Remote save_dependency_relation failed: status ".to_string(),
            Endpoint::Lesson => "Remote record_lesson failed: status ".to_string(),
            Endpoint::ClearFileSymbols => "Remote clear_file_symbols_and_dependencies failed: status ".to_string(),
            Endpoint::DeleteFile => "Remote delete_file_definition failed: status ".to_string(),
            Endpoint::DeleteProjectFiles => "Remote delete_project_files failed: status ".to_string(),
            Endpoint::Files => "Remote get_all_file_paths failed: status ".to_string(),
            Endpoint::HistoricalEngrams => "Remote get_historical_engram_solutions failed: status ".to_string(),
            Endpoint::Lessons => "Remote get_recent_lessons failed: status ".to_string(),
            Endpoint::OutgoingDependencies => "Remote get_outgoing_dependencies failed: status ".to_string(),
            Endpoint::IncomingDependencies => "Remote get_incoming_dependencies failed: status ".to_string(),
            Endpoint::FileContext => "Remote get_file_context failed: status ".to_string(),
            Endpoint::GraphSummary => "Remote get_graph_summary failed: status ".to_string(),
            Endpoint::FindSymbol => "Remote find_symbol failed: status ".to_string(),
            Endpoint::CreateUser => "Remote team create failed: status ".to_string(),
            Endpoint::GprPush => "[ERROR] Falló el envío del GPR: ".to_string(),
            Endpoint::GprList => "[ERROR] Falló al listar GPRs: ".to_string(),
            Endpoint::GprDiff => concat3(
                "[ERROR] Falló al obtener diff de GPR ",
                decimal_i64(gpr_id).as_str(),
                ": ",
            ),
            Endpoint::GprMerge => concat3(
                "[ERROR] Falló la fusión del GPR ",
                decimal_i64(gpr_id).as_str(),
                ": ",
            ),
            Endpoint::Sessions => "Remote get sessions failed: status ".to_string(),
            Endpoint::KickSession => "Remote kick session failed: status ".to_string(),
        }
    }

    /// The address of the endpoint at a server.
    pub fn url(self, base: &str) -> (r: String)
        ensures
            r@ == base@ + self.path_text(),
    {
        concat2(base, self.path())
    }

    /// The error when the server answers with a status that is no success.
    pub fn failure(self, gpr_id: i64, status: &str) -> (r: String)
        requires
            self.called(),
        ensures
            r@ == self.failure_name(gpr_id as int) + status@,
    {
        concat2(self.failure_text(gpr_id).as_str(), status)
    }

    /// Whether the server lets a user in.
    pub fn admits(self, user: &UserRecord) -> (r: Result<(), Refusal>)
        ensures
            r is Ok <==> !self.lead_only() || user.role@ == "Lead"@,
            r is Err ==> r->Err_0 == Refusal::Forbidden,
    {
        let restricted = match self {
            Endpoint::Clear
            | Endpoint::CreateUser
            | Endpoint::GprList
            | Endpoint::GprDiff
            | Endpoint::GprMerge => true,
            _ => false,
        };
        if restricted && !same_text(user.role.as_str(), "Lead") {
            Err(Refusal::Forbidden)
        } else {
            Ok(())
        }
    }
}

/// The endpoints that the server answers.
pub const SERVED: [Endpoint; 24] = [
    Endpoint::Dashboard,
    Endpoint::Ping,
    Endpoint::Health,
    Endpoint::Status,
    Endpoint::Clear,
    Endpoint::FileDefinition,
    Endpoint::DependencyRelation,
    Endpoint::Lesson,
    Endpoint::ClearFileSymbols,
    Endpoint::DeleteFile,
    Endpoint::DeleteProjectFiles,
    Endpoint::Files,
    Endpoint::HistoricalEngrams,
    Endpoint::Lessons,
    Endpoint::OutgoingDependencies,
    Endpoint::IncomingDependencies,
    Endpoint::FileContext,
    Endpoint::GraphSummary,
    Endpoint::FindSymbol,
    Endpoint::CreateUser,
    Endpoint::GprPush,
    Endpoint::GprList,
    Endpoint::GprDiff,
    Endpoint::GprMerge,
];

/// The server answers every request of a client but those on sessions.
pub proof fn law_served_endpoints(e: Endpoint)
    ensures
        e.served() <==> exists|i: int| 0 <= i < SERVED@.len() && SERVED@[i] == e,
{
    let all = SERVED@;
    assert(all.len() == 24);
    assert(all[0] == Endpoint::Dashboard && all[1] == Endpoint::Ping && all[2] == Endpoint::Health
        && all[3] == Endpoint::Status && all[4] == Endpoint::Clear && all[5]
        == Endpoint::FileDefinition && all[6] == Endpoint::DependencyRelation && all[7]
        == Endpoint::Lesson && all[8] == Endpoint::ClearFileSymbols && all[9]
        == Endpoint::DeleteFile && all[10] == Endpoint::DeleteProjectFiles && all[11]
        == Endpoint::Files && all[12] == Endpoint::HistoricalEngrams && all[13]
        == Endpoint::Lessons && all[14] == Endpoint::OutgoingDependencies && all[15]
        == Endpoint::IncomingDependencies && all[16] == Endpoint::FileContext && all[17]
        == Endpoint::GraphSummary && all[18] == Endpoint::FindSymbol && all[19]
        == Endpoint::CreateUser && all[20] == Endpoint::GprPush && all[21] == Endpoint::GprList
        && all[22] == Endpoint::GprDiff && all[23] == Endpoint::GprMerge);
}

/// The length of a path, and its tenth character or the last one: enough to tell the
/// paths apart.
spec fn path_mark(e: Endpoint) -> (nat, char) {
    match e {
        Endpoint::Dashboard => (1, '/'),
        Endpoint::Ping => (9, 'g'),
        Endpoint::Health => (11, 't'),
        Endpoint::Status => (11, 'u'),
        Endpoint::Clear => (10, 'r'),
        Endpoint::FileDefinition => (20, '-'),
        Endpoint::DependencyRelation => (24, 'n'),
        Endpoint::Lesson => (11, 'o'),
        Endpoint::ClearFileSymbols => (23, 'r'),
        Endpoint::DeleteFile => (16, 't'),
        Endpoint::DeleteProjectFiles => (25, 't'),
        Endpoint::Files => (10, 's'),
        Endpoint::HistoricalEngrams => (23, 'o'),
        Endpoint::Lessons => (12, 'o'),
        Endpoint::OutgoingDependencies => (26, 'o'),
        Endpoint::IncomingDependencies => (26, 'm'),
        Endpoint::FileContext => (17, '-'),
        Endpoint::GraphSummary => (18, 'h'),
        Endpoint::FindSymbol => (16, '-'),
        Endpoint::CreateUser => (16, '/'),
        Endpoint::GprPush => (13, 'p'),
        Endpoint::GprList => (13, 'l'),
        Endpoint::GprDiff => (13, 'd'),
        Endpoint::GprMerge => (14, 'm'),
        Endpoint::Sessions => (13, 'i'),
        Endpoint::KickSession => (18, 'i'),
    }
}

proof fn lemma_path_mark(e: Endpoint)
    ensures
        e.path_text().len() == path_mark(e).0,
        e.path_text()[if e.path_text().len() > 9 {
            9
        } else {
            e.path_text().len() - 1
        }] == path_mark(e).1,
{
    match e {
        Endpoint::Dashboard => {
            reveal_strlit("/");
        },
        Endpoint::Ping => {
            reveal_strlit("/api/ping");
        },
        Endpoint::Health => {
            reveal_strlit("/api/health");
        },
        Endpoint::Status => {
            reveal_strlit("/api/status");
        },
        Endpoint::Clear => {
            reveal_strlit("/api/clear");
        },
        Endpoint::FileDefinition => {
            reveal_strlit("/api/file-definition");
        },
        Endpoint::DependencyRelation => {
            reveal_strlit("/api/dependency-relation");
        },
        Endpoint::Lesson => {
            reveal_strlit("/api/lesson");
        },
        Endpoint::ClearFileSymbols => {
            reveal_strlit("/api/clear-file-symbols");
        },
        Endpoint::DeleteFile => {
            reveal_strlit("/api/delete-file");
        },
        Endpoint::DeleteProjectFiles => {
            reveal_strlit("/api/delete-project-files");
        },
        Endpoint::Files => {
            reveal_strlit("/api/files");
        },
        Endpoint::HistoricalEngrams => {
            reveal_strlit("/api/historical-engrams");
        },
        Endpoint::Lessons => {
            reveal_strlit("/api/lessons");
        },
        Endpoint::OutgoingDependencies => {
            reveal_strlit("/api/outgoing-dependencies");
        },
        Endpoint::IncomingDependencies => {
            reveal_strlit("/api/incoming-dependencies");
        },
        Endpoint::FileContext => {
            reveal_strlit("/api/file-context");
        },
        Endpoint::GraphSummary => {
            reveal_strlit("/api/graph-summary");
        },
        Endpoint::FindSymbol => {
            reveal_strlit("/api/find-symbol");
        },
        Endpoint::CreateUser => {
            reveal_strlit("/api/team/create");
        },
        Endpoint::GprPush => {
            reveal_strlit("/api/gpr/push");
        },
        Endpoint::GprList => {
            reveal_strlit("/api/gpr/list");
        },
        Endpoint::GprDiff => {
            reveal_strlit("/api/gpr/diff");
        },
        Endpoint::GprMerge => {
            reveal_strlit("/api/gpr/merge");
        },
        Endpoint::Sessions => {
            reveal_strlit("/api/sessions");
        },
        Endpoint::KickSession => {
            reveal_strlit("/api/sessions/kick");
        },
    }
}

/// No two endpoints have the same path.
pub proof fn law_paths_are_distinct(a: Endpoint, b: Endpoint)
    requires
        a.path_text() == b.path_text(),
    ensures
        a == b,
{
    lemma_path_mark(a);
    lemma_path_mark(b);
}

// ---------------------------------------------------------------------------
// Changes
// ---------------------------------------------------------------------------

/// What becomes of a change that a user sends: it is merged at once, or proposed
/// with a message.
#[derive(Debug, Clone, PartialEq, Eq)]
pub enum SyncPlan {
    Merge,
    Propose(String),
}

/// A change of a lead is merged; that of another user is proposed.
pub open spec fn sync_plan(role: Seq<char>, message: Seq<char>, plan: SyncPlan) -> bool {
    match plan {
        SyncPlan::Merge => role == "Lead"@,
        SyncPlan::Propose(m) => role != "Lead"@ && m@ == message,
    }
}

fn plan_for(role: &str, message: String) -> (r: SyncPlan)
    ensures
        sync_plan(role@, message@, r),
{
    if same_text(role, "Lead") {
        SyncPlan::Merge
    } else {
        SyncPlan::Propose(message)
    }
}

/// What becomes of a file that a user sends.
pub fn file_sync(role: &str, file_path: &str) -> (r: SyncPlan)
    ensures
        sync_plan(role@, "Auto-sync: "@ + file_path@, r),
{
    plan_for(role, concat2("Auto-sync: ", file_path))
}

/// What becomes of a lesson that a user sends.
pub fn lesson_sync(role: &str, file_path: &str) -> (r: SyncPlan)
    ensures
        sync_plan(role@, "Lesson auto-sync: "@ + file_path@, r),
{
    plan_for(role, concat2("Lesson auto-sync: ", file_path))
}

/// What becomes of files that a user sends with a message.
pub fn push_sync(role: &str, message: &str) -> (r: SyncPlan)
    ensures
        sync_plan(role@, message@, r),
{
    plan_for(role, message.to_string())
}

// ---------------------------------------------------------------------------
// Answers
// ---------------------------------------------------------------------------

/// The answer on a change that was merged.
pub fn merged_answer() -> (r: JsonValue)
    ensures
        r.model() == JsonModel::object().with("status"@, JsonModel::Text("merged"@)),
{
    JsonValue::object().with("status", JsonValue::text("merged"))
}

/// The answer on a change that was proposed.
pub fn pending_answer(gpr_id: i64) -> (r: JsonValue)
    ensures
        r.model() == JsonModel::object().with("status"@, JsonModel::Text("pending"@)).with(
            "gpr_id"@,
            JsonModel::Number(text::decimal(gpr_id as int)),
        ),
{
    JsonValue::object().with("status", JsonValue::text("pending")).with(
        "gpr_id",
        JsonValue::number(gpr_id),
    )
}

/// The answer on a user that was made.
pub fn user_answer(username: &str, role: &str, credential: &str) -> (r: JsonValue)
    ensures
        r.model() == JsonModel::object().with("username"@, JsonModel::Text(username@)).with(
            "role"@,
            JsonModel::Text(role@),
        ).with("credential"@, JsonModel::Text(credential@)),
{
    JsonValue::object().with("username", JsonValue::text(username)).with(
        "role",
        JsonValue::text(role),
    ).with("credential", JsonValue::text(credential))
}

/// The answer on a file that was to be removed.
pub fn deleted_answer(deleted: bool) -> (r: JsonValue)
    ensures
        r.model() == JsonModel::object().with("deleted"@, JsonModel::Bool(deleted)),
{
    JsonValue::object().with("deleted", JsonValue::Bool(deleted))
}

/// The answer on the files of a project that were to be removed.
pub fn deleted_count_answer(count: i64) -> (r: JsonValue)
    ensures
        r.model() == JsonModel::object().with(
            "deleted_count"@,
            JsonModel::Number(text::decimal(count as int)),
        ),
{
    JsonValue::object().with("deleted_count", JsonValue::number(count))
}

/// The state of the server.
#[derive(Debug, Clone, PartialEq, Eq)]
pub struct ServerStatus {
    pub memgraph_connected: bool,
    pub users: Vec<(String, i64)>,
    pub tenants: i64,
    pub files: i64,
    pub functions: i64,
}

/// The first `n` roles with the number of their users, as an object.
pub open spec fn roles_json(users: Seq<(String, i64)>, n: nat) -> JsonModel
    decreases n,
{
    if n == 0 || n > users.len() {
        JsonModel::object()
    } else {
        roles_json(users, (n - 1) as nat).with(
            users[n - 1].0@,
            JsonModel::Number(text::decimal(users[n - 1].1 as int)),
        )
    }
}

/// The answer on the state of the server.
pub fn status_answer(version: &str, status: &ServerStatus) -> (r: JsonValue)
    ensures
        r.model() == JsonModel::object().with("version"@, JsonModel::Text(version@)).with(
            "memgraph_connected"@,
            JsonModel::Bool(status.memgraph_connected),
        ).with("users"@, roles_json(status.users@, status.users@.len())).with(
            "tenants"@,
            JsonModel::Number(text::decimal(status.tenants as int)),
        ).with("files"@, JsonModel::Number(text::decimal(status.files as int))).with(
            "functions"@,
            JsonModel::Number(text::decimal(status.functions as int)),
        ),
{
    let mut users = JsonValue::object();
    let mut i: usize = 0;
    while i < status.users.len()
        invariant
            i <= status.users@.len(),
            users.model() == roles_json(status.users@, i as nat),
        decreases status.users@.len() - i,
    {
        let role = &status.users[i];
        users = users.with(role.0.as_str(), JsonValue::number(role.1));
        i += 1;
    }
    JsonValue::object().with("version", JsonValue::text(version)).with(
        "memgraph_connected",
        JsonValue::Bool(status.memgraph_connected),
    ).with("users", users).with("tenants", JsonValue::number(status.tenants)).with(
        "files",
        JsonValue::number(status.files),
    ).with("functions", JsonValue::number(status.functions))
}

/// Only a lead may empty the graph, make users, and list, look at and merge proposed
/// changes; everyone else may do everything else.
pub proof fn law_what_leads_alone_may_do(e: Endpoint)
    ensures
        e.lead_only() <==> e == Endpoint::Clear || e == Endpoint::CreateUser || e
            == Endpoint::GprList || e == Endpoint::GprDiff || e == Endpoint::GprMerge,
{
}

/// What changes something is posted, and what only asks is not.
pub proof fn law_changes_are_posted(e: Endpoint)
    ensures
        e.posts() <==> e == Endpoint::Clear || e == Endpoint::FileDefinition || e
            == Endpoint::DependencyRelation || e == Endpoint::Lesson || e
            == Endpoint::ClearFileSymbols || e == Endpoint::DeleteFile || e
            == Endpoint::DeleteProjectFiles || e == Endpoint::CreateUser || e == Endpoint::GprPush
            || e == Endpoint::GprMerge || e == Endpoint::KickSession,
{
}

/// The change of a lead is merged at once; that of every other user is proposed, with
/// the message that is given.
pub proof fn law_leads_merge_and_others_propose(
    role: Seq<char>,
    message: Seq<char>,
    plan: SyncPlan,
)
    requires
        sync_plan(role, message, plan),
    ensures
        plan is Merge <==> role == "Lead"@,
        plan matches SyncPlan::Propose(m) ==> m@ == message,
{
}

/// Every role stands in the answer with the number of its users, in their order.
pub proof fn law_every_role_is_counted(users: Seq<(String, i64)>)
    ensures
        roles_json(users, users.len()) == JsonModel::Object(
            Seq::new(
                users.len(),
                |i: int| (users[i].0@, JsonModel::Number(text::decimal(users[i].1 as int))),
            ),
        ),
{
    lemma_roles(users, users.len());
}

proof fn lemma_roles(users: Seq<(String, i64)>, n: nat)
    requires
        n <= users.len(),
    ensures
        roles_json(users, n) == JsonModel::Object(
            Seq::new(
                n,
                |i: int| (users[i].0@, JsonModel::Number(text::decimal(users[i].1 as int))),
            ),
        ),
    decreases n,
{
    let entries = Seq::new(
        n,
        |i: int| (users[i].0@, JsonModel::Number(text::decimal(users[i].1 as int))),
    );
    if n > 0 {
        lemma_roles(users, (n - 1) as nat);
        let before = Seq::new(
            (n - 1) as nat,
            |i: int| (users[i].0@, JsonModel::Number(text::decimal(users[i].1 as int))),
        );
        assert(entries =~= before.push(
            (users[n - 1].0@, JsonModel::Number(text::decimal(users[n - 1].1 as int))),
        ));
    } else {
        assert(entries =~= Seq::<(Seq<char>, JsonModel)>::empty());
    }
}

/// The paths of the endpoints, each for what it is about.
pub proof fn law_paths_of_endpoints()
    ensures
        Endpoint::Dashboard.path_text() == "/"@,
        Endpoint::Ping.path_text() == "/api/ping"@,
        Endpoint::Health.path_text() == "/api/health"@,
        Endpoint::Status.path_text() == "/api/status"@,
        Endpoint::Clear.path_text() == "/api/clear"@,
        Endpoint::FileDefinition.path_text() == "/api/file-definition"@,
        Endpoint::DependencyRelation.path_text() == "/api/dependency-relation"@,
        Endpoint::Lesson.path_text() == "/api/lesson"@,
        Endpoint::ClearFileSymbols.path_text() == "/api/clear-file-symbols"@,
        Endpoint::DeleteFile.path_text() == "/api/delete-file"@,
        Endpoint::DeleteProjectFiles.path_text() == "/api/delete-project-files"@,
        Endpoint::Files.path_text() == "/api/files"@,
        Endpoint::HistoricalEngrams.path_text() == "/api/historical-engrams"@,
        Endpoint::Lessons.path_text() == "/api/lessons"@,
        Endpoint::OutgoingDependencies.path_text() == "/api/outgoing-dependencies"@,
        Endpoint::IncomingDependencies.path_text() == "/api/incoming-dependencies"@,
        Endpoint::FileContext.path_text() == "/api/file-context"@,
        Endpoint::GraphSummary.path_text() == "/api/graph-summary"@,
        Endpoint::FindSymbol.path_text() == "/api/find-symbol"@,
        Endpoint::CreateUser.path_text() == "/api/team/create"@,
        Endpoint::GprPush.path_text() == "/api/gpr/push"@,
        Endpoint::GprList.path_text() == "/api/gpr/list"@,
        Endpoint::GprDiff.path_text() == "/api/gpr/diff"@,
        Endpoint::GprMerge.path_text() == "/api/gpr/merge"@,
        Endpoint::Sessions.path_text() == "/api/sessions"@,
        Endpoint::KickSession.path_text() == "/api/sessions/kick"@,
{
}

/// What the client says when a request fails names what was asked for, and the proposed
/// change that it was about.
pub proof fn law_failures_are_named(gpr_id: int)
    ensures
        Endpoint::Status.failure_name(gpr_id) == ""@,
        Endpoint::Health.failure_name(gpr_id) == "Remote ping failed: status "@,
        Endpoint::Clear.failure_name(gpr_id) == "Remote clear failed: status "@,
        Endpoint::FileDefinition.failure_name(gpr_id) == "Remote save_file_definition failed: status "@,
        Endpoint::DependencyRelation.failure_name(gpr_id) == "Remote save_dependency_relation failed: status "@,
        Endpoint::Lesson.failure_name(gpr_id) == "Remote record_lesson failed: status "@,
        Endpoint::ClearFileSymbols.failure_name(gpr_id) == "Remote clear_file_symbols_and_dependencies failed: status "@,
        Endpoint::DeleteFile.failure_name(gpr_id) == "Remote delete_file_definition failed: status "@,
        Endpoint::DeleteProjectFiles.failure_name(gpr_id) == "Remote delete_project_files failed: status "@,
        Endpoint::Files.failure_name(gpr_id) == "Remote get_all_file_paths failed: status "@,
        Endpoint::HistoricalEngrams.failure_name(gpr_id) == "Remote get_historical_engram_solutions failed: status "@,
        Endpoint::Lessons.failure_name(gpr_id) == "Remote get_recent_lessons failed: status "@,
        Endpoint::OutgoingDependencies.failure_name(gpr_id) == "Remote get_outgoing_dependencies failed: status "@,
        Endpoint::IncomingDependencies.failure_name(gpr_id) == "Remote get_incoming_dependencies failed: status "@,
        Endpoint::FileContext.failure_name(gpr_id) == "Remote get_file_context failed: status "@,
        Endpoint::GraphSummary.failure_name(gpr_id) == "Remote get_graph_summary failed: status "@,
        Endpoint::FindSymbol.failure_name(gpr_id) == "Remote find_symbol failed: status "@,
        Endpoint::CreateUser.failure_name(gpr_id) == "Remote team create failed: status "@,
        Endpoint::GprPush.failure_name(gpr_id) == "[ERROR] Falló el envío del GPR: "@,
        Endpoint::GprList.failure_name(gpr_id) == "[ERROR] Falló al listar GPRs: "@,
        Endpoint::Sessions.failure_name(gpr_id) == "Remote get sessions failed: status "@,
        Endpoint::KickSession.failure_name(gpr_id) == "Remote kick session failed: status "@,
        Endpoint::GprDiff.failure_name(gpr_id) == "[ERROR] Falló al obtener diff de GPR "@
            + text::decimal(gpr_id) + ": "@,
        Endpoint::GprMerge.failure_name(gpr_id) == "[ERROR] Falló la fusión del GPR "@
            + text::decimal(gpr_id) + ": "@,
{
}

/// The client asks for every endpoint but those for browsers.
pub proof fn law_what_the_client_asks_for(e: Endpoint)
    ensures
        e.called() <==> e != Endpoint::Dashboard && e != Endpoint::Ping && e != Endpoint::Status,
{
}

} // verus!
