use ozymem::api::{
    deleted_answer, deleted_count_answer, file_sync, lesson_sync, merged_answer, pending_answer,
    push_sync, status_answer, user_answer, Endpoint, Method, ServerStatus, SyncPlan, SERVED,
};
use ozymem::credentials::{
    bearer_header, format_credential, new_identifier, new_token, parse_unified_credential,
    read_bearer, store_new_token, store_token, tenant_from_token, token_text, verify_stored_token,
    Refusal,
};
use ozymem::graph::{
    authenticate, context_from_rows, has_users, keep_non_blank, merge_decision, next_gpr_id,
    staged_file, staged_function, staged_lesson, summary_from_rows, symbol_location, ContextRow,
    FileCounts, StorageRow, UserRow,
};
use ozymem::json::JsonValue;
use ozymem::language::{ExtractedFunction, FileDefinitionMap, ParseStrategy, SymbolKind};
use ozymem::merge::{resume_merge, start_merge, MergeAction, MergeEvent, StagedLesson};
use ozymem::rate_limit::{IpRateLimiter, RateLimiter};
use ozymem::records::{FileGraphContext, StoredFunction, UserRecord};
use ozymem::server::{
    extract_client_ip, genesis_banner, genesis_credential, is_web_mode, let_in, port_from,
    startup_banner_lines, validate_environment, StartupFacts, GENESIS_TENANT,
};
use ozymem::sessions::{
    heartbeat_text, is_expired, is_zombie, kick_report, session_report, session_rows,
    zombie_sessions, SessionState, SESSION_TIMEOUT,
};
use ozymem::statements::{
    count_users, create_gpr_batch, create_lesson_gpr, create_user, delete_file, file_context,
    gpr_step, graph_summary, historical_engrams, index_statements, kick_session, record_lesson,
    recent_lessons, save_file_definition, GprStep, ParamValue, Statement,
};
use ozymem::records::SessionRecord;
use ozymem::tree::{
    load_tree, render_trace_node, render_tree_node, tree_report, LoadQuery, LoadReply, LoadStep,
    TreeKind, TreeNode,
};

// ---------------------------------------------------------------------------
// Trees
// ---------------------------------------------------------------------------

#[test]
fn render_trace_node_handles_cycles() {
    let node = TreeNode {
        path: "target.rs".to_string(),
        context: None,
        functions: Vec::new(),
        dependencies: vec![TreeNode {
            path: "dependent.rs".to_string(),
            context: None,
            functions: Vec::new(),
            dependencies: Vec::new(),
            truncated: false,
            cyclic: true,
        }],
        truncated: false,
        cyclic: false,
    };
    let lines = render_trace_node(&node, "", true, true);
    assert!(lines.iter().any(|line| line.contains("dependent.rs")));
}

fn context(path: &str) -> FileGraphContext {
    FileGraphContext {
        file_path: path.to_string(),
        language: "Rust".to_string(),
        functions: vec![StoredFunction {
            name: "run".to_string(),
            kind: "Function".to_string(),
            start_line: 1,
            end_line: 2,
            strategy: "NativeAST".to_string(),
        }],
    }
}

/// Loads a tree from a graph in which `a` depends on `b` and `c`, and `b` on `a`.
fn loaded(depth: u32) -> TreeNode {
    let mut replies: Vec<LoadReply> = Vec::new();
    loop {
        match load_tree("a", depth, &replies) {
            LoadStep::Ask(LoadQuery::Context(path)) => {
                replies.push(LoadReply::Context(Some(context(&path))));
            }
            LoadStep::Ask(LoadQuery::Links(path)) => {
                let links: Vec<String> = match path.as_str() {
                    "a" => vec!["b".to_string(), "c".to_string()],
                    "b" => vec!["a".to_string()],
                    _ => Vec::new(),
                };
                replies.push(LoadReply::Links(links));
            }
            LoadStep::Loaded(node) => return node,
            LoadStep::Failed(error) => panic!("failed: {}", error),
        }
        assert!(replies.len() < 100);
    }
}

#[test]
fn a_tree_shows_every_file_once() {
    let node = loaded(5);
    assert_eq!(node.path, "a");
    assert_eq!(node.dependencies.len(), 2);
    assert_eq!(node.dependencies[0].path, "b");
    assert!(node.dependencies[0].dependencies[0].cyclic);
    assert_eq!(node.dependencies[1].path, "c");
}

#[test]
fn a_tree_keeps_to_its_depth() {
    let node = loaded(0);
    assert!(node.dependencies.is_empty());
    let node = loaded(1);
    assert!(node.dependencies[0].dependencies.is_empty());
}

#[test]
fn a_tree_that_cannot_be_loaded_fails() {
    match load_tree("a", 1, &vec![LoadReply::Failed("down".to_string())]) {
        LoadStep::Failed(error) => assert!(error.contains("down")),
        other => panic!("unexpected step: {:?}", other),
    }
}

#[test]
fn a_tree_without_its_file_says_so() {
    let node = TreeNode {
        path: "x".to_string(),
        context: None,
        functions: Vec::new(),
        dependencies: Vec::new(),
        truncated: false,
        cyclic: false,
    };
    assert_eq!(
        tree_report(TreeKind::Dependencies, &node, "x"),
        vec!["No indexed file found for x".to_string()]
    );
    let lines = render_tree_node(&loaded(5), "", true, true);
    assert!(lines[0].contains("a"));
    assert!(lines.iter().any(|line| line.contains("[MEMBER: FUNCTION] run")));
}

// ---------------------------------------------------------------------------
// Statements
// ---------------------------------------------------------------------------

fn param<'a>(statement: &'a Statement, name: &str) -> &'a ParamValue {
    &statement.params.iter().find(|(n, _)| *n == name).expect("parameter").1
}

fn text_value(value: &str) -> ParamValue {
    ParamValue::Text(value.to_string())
}

fn sample_map() -> FileDefinitionMap {
    FileDefinitionMap {
        file_path: "/p/a.rs".to_string(),
        language: "Rust".to_string(),
        strategy: ParseStrategy::NativeAst,
        functions: vec![ExtractedFunction {
            name: "run".to_string(),
            kind: SymbolKind::Function,
            start_line: 3,
            end_line: 9,
        }],
    }
}

#[test]
fn statements_bear_the_tenant() {
    for statement in [
        file_context("t1", "/p/a.rs"),
        graph_summary("t1"),
        save_file_definition("t1", &sample_map()),
        gpr_step(GprStep::Status, "t1", 101),
        recent_lessons("t1", 5, None),
        create_user("t1", "ana", "Lead", "stored"),
    ] {
        assert_eq!(*param(&statement, "tenant_id"), text_value("t1"));
    }
    assert!(count_users().params.is_empty());
    assert_eq!(index_statements().len(), 2);
}

#[test]
fn a_file_is_saved_with_its_functions() {
    let statement = save_file_definition("t1", &sample_map());
    let functions = statement
        .params
        .iter()
        .find_map(|(_, value)| match value {
            ParamValue::Functions(rows) => Some(rows),
            _ => None,
        })
        .expect("functions");
    assert_eq!(functions.len(), 1);
    assert_eq!(functions[0].name, "run");
    assert_eq!(functions[0].start_line, 3);
    assert_eq!(functions[0].end_line, 9);
    assert_eq!(functions[0].kind, "Function");
    assert_eq!(functions[0].strategy, "NativeAST");
}

#[test]
fn a_file_that_is_not_there_is_not_deleted() {
    assert!(delete_file("t1", "/p/a.rs", 0).is_none());
    assert!(delete_file("t1", "/p/a.rs", 1).is_some());
}

#[test]
fn lessons_may_name_a_symbol() {
    let with = record_lesson("t1", "/p/a.rs", Some("run"), "E", "S", "now");
    assert_eq!(*param(&with, "solution"), text_value("S"));
    let one = create_lesson_gpr("t1", 101, "ana", "m", "/p/a.rs", None, "E", "S", "now");
    assert!(one.len() >= 2);
}

#[test]
fn a_proposal_has_a_statement_for_each_file_and_function() {
    let none = create_gpr_batch("t1", 101, "ana", "m", "now", &[]);
    let one = create_gpr_batch("t1", 101, "ana", "m", "now", &[sample_map()]);
    assert_eq!(none.len(), 1);
    assert_eq!(one.len(), 3);
    for statement in &one {
        assert_eq!(*param(statement, "tenant_id"), text_value("t1"));
    }
}

// ---------------------------------------------------------------------------
// Rows
// ---------------------------------------------------------------------------

#[test]
fn blank_texts_are_left_out() {
    let texts = vec!["a".to_string(), "  ".to_string(), "".to_string(), " b".to_string()];
    assert_eq!(keep_non_blank(&texts), vec!["a".to_string(), " b".to_string()]);
    assert_eq!(symbol_location("/p/a.rs", 3), "Archivo: /p/a.rs (Línea: 3)");
}

#[test]
fn recorded_solutions_are_asked_for_and_given_back() {
    let recorded = record_lesson("t1", "/p/a.rs", None, "E", "S", "now");
    let asked = historical_engrams("t1", "/p/a.rs");
    assert_eq!(asked.params.len(), 2);
    for (name, value) in &asked.params {
        assert_eq!(param(&recorded, name), value);
    }
    let rows = vec!["".to_string(), "S".to_string(), "T".to_string()];
    assert_eq!(keep_non_blank(&rows), vec!["S".to_string(), "T".to_string()]);
}

#[test]
fn a_context_is_that_of_its_rows() {
    assert_eq!(context_from_rows(&Vec::new()), None);
    let row = |name: &str| ContextRow {
        path: "/p/a.rs".to_string(),
        language: "Rust".to_string(),
        function: StoredFunction {
            name: name.to_string(),
            kind: "Function".to_string(),
            start_line: 1,
            end_line: 2,
            strategy: "NativeAST".to_string(),
        },
    };
    let found = context_from_rows(&vec![row("a"), row(""), row("b")]).unwrap();
    assert_eq!(found.file_path, "/p/a.rs");
    let names: Vec<&str> = found.functions.iter().map(|f| f.name.as_str()).collect();
    assert_eq!(names, vec!["a", "b"]);
}

#[test]
fn a_summary_reads_numbers_and_texts() {
    let row = |info: &str, number: Option<i64>, text: Option<&str>| StorageRow {
        info: Some(info.to_string()),
        number,
        text: text.map(|t| t.to_string()),
    };
    let counts = FileCounts {
        file_count: 1,
        function_count: 2,
        native_ast_function_count: 2,
        extension_wasm_function_count: 0,
        text_heuristic_function_count: 0,
    };
    let summary = summary_from_rows(
        counts,
        4,
        &vec![
            row("vertex_count", Some(7), None),
            row("edge_count", None, Some("9")),
            row("memory_res", None, Some("10MiB")),
        ],
    );
    assert_eq!(summary.vertex_count, 7);
    assert_eq!(summary.edge_count, 9);
    assert_eq!(summary.memory_usage, "10MiB");
    assert_eq!(summary.engram_count, 4);
}

#[test]
fn proposals_are_numbered_and_merged_once() {
    assert_eq!(next_gpr_id(None), 101);
    assert_eq!(next_gpr_id(Some(4)), 105);
    assert_eq!(merge_decision(Some("PENDING")), Ok(()));
    assert_eq!(
        merge_decision(Some("APPROVED")),
        Err("GPR status is already APPROVED".to_string())
    );
    assert_eq!(merge_decision(None), Err("GPR not found".to_string()));
    let function = staged_function("run".to_string(), "Class", 3, 9);
    assert_eq!(function.kind, SymbolKind::Class);
    assert_eq!((function.start_line, function.end_line), (3, 9));
    let file = staged_file("/a.rs".to_string(), "rust".to_string(), vec![function.clone()]);
    assert_eq!(file.file_path, "/a.rs");
    assert_eq!(file.language, "rust");
    assert_eq!(file.strategy, ParseStrategy::NativeAst);
    assert_eq!(file.functions, vec![function]);
    let lesson = staged_lesson(
        "/a.rs".to_string(),
        "E0308".to_string(),
        "convert".to_string(),
        "7".to_string(),
    );
    assert_eq!(lesson.file_path, "/a.rs");
    assert_eq!(lesson.error_type, "E0308");
    assert_eq!(lesson.solution, "convert");
    assert_eq!(lesson.timestamp, "7");
    assert!(has_users(Some(1)));
    assert!(!has_users(Some(0)));
    assert!(!has_users(None));
}

#[test]
fn a_user_is_known_by_the_stored_token() {
    let row = |name: &str, token: String| UserRow {
        name: name.to_string(),
        role: "Lead".to_string(),
        token,
        tenant_id: "t1".to_string(),
    };
    let users = vec![row("ana", store_token("00", "x")), row("eva", store_token("ff", "y"))];
    let user = authenticate(&users, "y").unwrap();
    assert_eq!(user.name, "eva");
    assert_eq!(user.token, "y");
    assert_eq!(authenticate(&users, "z"), None);
}

// ---------------------------------------------------------------------------
// Credentials
// ---------------------------------------------------------------------------

#[test]
fn credentials_are_read_back() {
    let credential = format_credential("acme", "0a1b");
    assert_eq!(credential, "ozy_partner_ctx_acme_usr_0a1b");
    assert_eq!(
        parse_unified_credential(&credential),
        Some(("acme".to_string(), "0a1b".to_string()))
    );
    assert_eq!(parse_unified_credential("ozy_partner_ctx_acme"), None);
    assert_eq!(parse_unified_credential("other_acme_usr_x"), None);
    assert_eq!(parse_unified_credential("ozy_partner_ctx_a_usr_b_usr_c"), None);
    assert_eq!(tenant_from_token(&credential, "local"), "acme");
    assert_eq!(tenant_from_token("plain", "local"), "local");
}

#[test]
fn requests_bear_credentials() {
    let header = bearer_header("ozy_partner_ctx_acme_usr_0a1b");
    assert_eq!(header, "Bearer ozy_partner_ctx_acme_usr_0a1b");
    assert_eq!(read_bearer(Some(&header)), Ok(("acme".to_string(), "0a1b".to_string())));
    assert_eq!(read_bearer(None), Err(Refusal::Unauthorized));
    assert_eq!(read_bearer(Some("Basic x")), Err(Refusal::Unauthorized));
    assert_eq!(Refusal::Unauthorized.status(), 401);
    assert_eq!(Refusal::Forbidden.status(), 403);
    assert_eq!(Refusal::NotFound.status(), 404);
    assert_eq!(Refusal::Internal.status(), 500);
}

#[test]
fn new_tokens_are_hexadecimal() {
    assert_eq!(token_text(&vec![0x00, 0x0f, 0xa0, 0xff]), "000fa0ff");
    let token = new_token();
    assert_eq!(token.len(), 32);
    assert!(token.chars().all(|c| c.is_ascii_hexdigit()));
    assert_ne!(token, new_token());
    assert_eq!(new_identifier().len(), 16);
}

#[test]
fn stored_tokens_are_salted_and_accepted() {
    let stored = store_token("abcd", "token");
    assert!(stored.starts_with("abcd:"));
    assert_eq!(stored.len(), 5 + 64);
    assert!(verify_stored_token(&stored, "token"));
    assert!(!verify_stored_token(&stored, "other"));
    assert_ne!(store_token("abce", "token")[5..], stored[5..]);
    let fresh = store_new_token("token");
    assert!(verify_stored_token(&fresh, "token"));
    assert_ne!(fresh, store_new_token("token"));
}

#[test]
fn digests_without_a_salt_are_refused() {
    // The SHA-256 digest of the empty text.
    let digest = "e3b0c44298fc1c149afbf4c8996fb92427ae41e4649b934ca495991b7852b855";
    assert!(!verify_stored_token(digest, ""));
    assert_eq!(store_token("", ""), format!(":{}", digest));
    assert!(!verify_stored_token("", ""));
}

// ---------------------------------------------------------------------------
// Rate limits
// ---------------------------------------------------------------------------

#[test]
fn the_limit_is_kept_within_the_window() {
    let mut limiter = RateLimiter::new(2, 60);
    assert!(limiter.check(100));
    assert!(limiter.check(110));
    assert!(!limiter.check(120));
    assert!(limiter.check(161));
}

#[test]
fn addresses_are_limited_one_by_one() {
    let mut limiter = IpRateLimiter::new(1, 60);
    assert!(limiter.check("a", 0));
    assert!(!limiter.check("a", 1));
    assert!(limiter.check("b", 1));
    assert!(limiter.check("a", 61));
}

// ---------------------------------------------------------------------------
// The interface
// ---------------------------------------------------------------------------

fn user(role: &str) -> UserRecord {
    UserRecord {
        name: "ana".to_string(),
        role: role.to_string(),
        token: "t".to_string(),
        tenant_id: "acme".to_string(),
    }
}

#[test]
fn endpoints_have_paths_of_their_own() {
    let paths: std::collections::HashSet<&str> = SERVED.iter().map(|e| e.path()).collect();
    assert_eq!(paths.len(), SERVED.len());
    assert_eq!(Endpoint::Health.url("http://h:1"), "http://h:1/api/health");
    assert_eq!(Endpoint::Health.method(), Method::Get);
    assert_eq!(Endpoint::Clear.method(), Method::Post);
    assert_eq!(Endpoint::Health.failure(0, "500"), "Remote ping failed: status 500");
}

#[test]
fn only_leads_merge() {
    assert_eq!(Endpoint::GprMerge.admits(&user("Lead")), Ok(()));
    assert_eq!(Endpoint::GprMerge.admits(&user("Developer")), Err(Refusal::Forbidden));
    assert_eq!(Endpoint::FileDefinition.admits(&user("Developer")), Ok(()));
    assert_eq!(file_sync("Lead", "/a"), SyncPlan::Merge);
    assert_eq!(file_sync("Developer", "/a"), SyncPlan::Propose("Auto-sync: /a".to_string()));
    assert_eq!(
        lesson_sync("Developer", "/a"),
        SyncPlan::Propose("Lesson auto-sync: /a".to_string())
    );
    assert_eq!(push_sync("Developer", "m"), SyncPlan::Propose("m".to_string()));
}

#[test]
fn answers_say_what_became_of_a_request() {
    assert_eq!(merged_answer().get_str("status"), Some("merged"));
    assert_eq!(pending_answer(104).get("gpr_id"), Some(&JsonValue::number(104)));
    assert_eq!(user_answer("ana", "Lead", "c").get_str("credential"), Some("c"));
    assert_eq!(deleted_answer(true).get("deleted"), Some(&JsonValue::Bool(true)));
    assert_eq!(deleted_count_answer(3).get("deleted_count"), Some(&JsonValue::number(3)));
    let status = ServerStatus {
        memgraph_connected: true,
        users: vec![("Lead".to_string(), 2)],
        tenants: 1,
        files: 3,
        functions: 4,
    };
    let answer = status_answer("1.0", &status);
    assert_eq!(answer.get("users").unwrap().get("Lead"), Some(&JsonValue::number(2)));
    assert_eq!(answer.get_str("version"), Some("1.0"));
}

// ---------------------------------------------------------------------------
// The server
// ---------------------------------------------------------------------------

#[test]
fn a_server_needs_its_variables() {
    assert_eq!(validate_environment(true, true), Ok(()));
    assert_eq!(
        validate_environment(false, false),
        Err("Security error: Missing required environment variables: MEMGRAPH_USER, MEMGRAPH_PASSWORD. These are required for production security. Do not use default credentials.".to_string())
    );
    assert!(validate_environment(true, false).unwrap_err().contains(": MEMGRAPH_PASSWORD."));
}

#[test]
fn a_server_speaks_http_unless_told_otherwise() {
    assert!(is_web_mode(false, None));
    assert!(is_web_mode(true, Some("stdio")));
    assert!(!is_web_mode(false, Some("stdio")));
    assert_eq!(port_from(None), 8080);
    assert_eq!(port_from(Some("9000")), 9000);
    assert_eq!(port_from(Some("70000")), 8080);
    assert_eq!(port_from(Some("x")), 8080);
}

#[test]
fn the_address_of_a_request_is_the_first_forwarded_one() {
    assert_eq!(extract_client_ip(Some(" 1.1.1.1 , 2.2.2.2"), Some("3"), Some("4")), "1.1.1.1");
    assert_eq!(extract_client_ip(None, Some(" 3 "), Some("4")), "3");
    assert_eq!(extract_client_ip(None, None, Some("4")), "4");
    assert_eq!(extract_client_ip(None, None, None), "unknown");
}

#[test]
fn unknown_users_are_not_let_in() {
    assert_eq!(let_in(None), Err(Refusal::Forbidden));
    assert_eq!(let_in(Some(user("Lead"))).unwrap().name, "ana");
}

#[test]
fn the_banner_tells_of_the_graph() {
    let mut facts = StartupFacts {
        memgraph_ok: true,
        users: vec![("Lead".to_string(), 1), ("Developer".to_string(), 2)],
        tenant_count: 1,
        file_count: 10,
        function_count: 20,
    };
    let lines = startup_banner_lines("1.0", &facts, 8080);
    assert!(lines.iter().any(|l| l.contains("3 total (Lead: 1, Developer: 2)")));
    assert!(lines.iter().any(|l| l.contains("10 files, 20 functions")));
    assert!(lines.iter().any(|l| l.contains("[CONNECTED]")));
    facts.memgraph_ok = false;
    let lines = startup_banner_lines("1.0", &facts, 8080);
    assert!(lines.iter().any(|l| l.contains("[DISCONNECTED]")));
    assert!(lines.iter().any(|l| l.contains("WARNING")));
}

#[test]
fn the_first_credential_is_read_back() {
    let credential = genesis_credential("0a");
    assert_eq!(
        parse_unified_credential(&credential),
        Some((GENESIS_TENANT.to_string(), "0a".to_string()))
    );
    assert!(genesis_banner(&credential).iter().any(|l| l.contains(&credential)));
}

// ---------------------------------------------------------------------------
// Sessions
// ---------------------------------------------------------------------------

#[test]
fn sessions_expire() {
    assert!(!is_expired(1060, "1000"));
    assert!(is_expired(1000 + SESSION_TIMEOUT + 1, "1000"));
    assert!(is_expired(100, "unreadable"));
    assert!(!is_expired(10, "unreadable"));
    assert!(is_zombie(1000, "1000", false));
    assert!(!is_zombie(1000, "1000", true));
    assert_eq!(heartbeat_text("1000", 1059), "Hace 59s");
    assert_eq!(heartbeat_text("1000", 1125), "Hace 2m 5s");
    assert_eq!(heartbeat_text("2000", 1000), "Hace 0s");
    assert_eq!(heartbeat_text("x", 1000), "N/A");
}

#[test]
fn sessions_are_shown_in_a_table() {
    assert_eq!(session_report(&Vec::new(), 0), "[INFO] No hay sesiones activas registradas.");
    let session = SessionRecord {
        id: "s1".to_string(),
        username: "ana".to_string(),
        role: "Lead".to_string(),
        transport: "stdio".to_string(),
        pid: 42,
        started_at: "0".to_string(),
        last_seen: "100".to_string(),
    };
    let sessions = vec![session];
    assert_eq!(session_rows(&sessions, 105), vec![vec!["s1", "ana", "stdio", "42", "Hace 5s"]]);
    let table = session_report(&sessions, 105);
    let lines: Vec<&str> = table.lines().collect();
    assert_eq!(lines.len(), 5);
    assert!(lines[0].starts_with("+--"));
    assert!(lines[1].contains("ID de Sesión"));
    assert!(lines[3].contains("| s1 "));
    assert!(lines[3].contains("Hace 5s"));
    assert_eq!(kick_report("s1", true), "[SUCCESS] Sesión 's1' revocada con éxito.");
    assert!(kick_report("s1", false).starts_with("[WARNING]"));
}

#[test]
fn dead_sessions_are_removed() {
    let state = |id: &str, last_seen: &str, process_alive: bool| SessionState {
        id: id.to_string(),
        last_seen: last_seen.to_string(),
        process_alive,
    };
    let states = vec![
        state("seen", "950", true),
        state("old", "939", true),
        state("gone", "1000", false),
        state("unreadable", "yesterday", true),
    ];
    assert_eq!(
        zombie_sessions(&states, 1000),
        vec!["old".to_string(), "gone".to_string(), "unreadable".to_string()]
    );
    assert!(zombie_sessions(&states[..1].to_vec(), 1000).is_empty());
}

#[test]
fn a_session_that_is_not_there_is_not_revoked() {
    assert_eq!(kick_session("t", "s", 0), None);
    let statement = kick_session("t", "s", 1).unwrap();
    assert_eq!(param(&statement, "id"), &text_value("s"));
    assert_eq!(param(&statement, "tenant_id"), &text_value("t"));
    assert_eq!(
        statement.text,
        "MATCH (s:Session {id: $id, tenant_id: $tenant_id}) DETACH DELETE s"
    );
}

// ---------------------------------------------------------------------------
// Merging
// ---------------------------------------------------------------------------

fn staged(file_path: &str) -> StagedLesson {
    StagedLesson {
        file_path: file_path.to_string(),
        symbol_name: "main".to_string(),
        error_context: "E0308".to_string(),
        solution: "convert".to_string(),
        timestamp: "7".to_string(),
    }
}

fn merged(status: Option<&str>, lessons: Vec<StagedLesson>) -> (Vec<Statement>, Option<String>) {
    let mut sent = Vec::new();
    let (mut state, mut action) = start_merge("t", 101);
    loop {
        let event = match action {
            MergeAction::ReadStatus(statement) => {
                sent.push(statement);
                MergeEvent::Status(status.map(|s| s.to_string()))
            }
            MergeAction::ReadLessons(statement) => {
                sent.push(statement);
                MergeEvent::Lessons(lessons.clone())
            }
            MergeAction::Run(statement) => {
                sent.push(statement);
                MergeEvent::Ran
            }
            MergeAction::End => return (sent, None),
            MergeAction::Fail(message) => return (sent, Some(message)),
        };
        (state, action) = resume_merge("t", 101, state, event);
    }
}

#[test]
fn an_open_change_is_merged_and_approved_last() {
    let (sent, error) = merged(Some("PENDING"), vec![staged("/a.rs"), staged("/b.rs")]);
    assert_eq!(error, None);
    assert_eq!(
        sent,
        vec![
            gpr_step(GprStep::Status, "t", 101),
            gpr_step(GprStep::MergeFiles, "t", 101),
            gpr_step(GprStep::StagedLessons, "t", 101),
            record_lesson("t", "/a.rs", Some("main"), "E0308", "convert", "7"),
            record_lesson("t", "/b.rs", Some("main"), "E0308", "convert", "7"),
            gpr_step(GprStep::Approve, "t", 101),
        ]
    );
}

#[test]
fn a_closed_change_is_refused() {
    let (sent, error) = merged(Some("APPROVED"), vec![staged("/a.rs")]);
    assert_eq!(sent, vec![gpr_step(GprStep::Status, "t", 101)]);
    assert_eq!(error, Some("GPR status is already APPROVED".to_string()));
    let (sent, error) = merged(None, Vec::new());
    assert_eq!(sent.len(), 1);
    assert_eq!(error, Some("GPR not found".to_string()));
}
