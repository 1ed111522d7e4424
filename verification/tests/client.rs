use ozymem::config::{
    choose_backend, client_tenant, install_server, local_settings, new_user_tenant, renew_token,
    set_token, BackendChoice, BrainConfig, OzymemConfig, Settings,
};
use ozymem::credentials::parse_unified_credential;
use ozymem::deregister::{
    resume_deregister, start_deregister, DeregisterAction, DeregisterEvent, DeregisterState,
};
use ozymem::doctor::{containers_up, doctor_json, doctor_report, is_healthy, DoctorFacts};
use ozymem::init::{
    init_plan, resume_init, start_init, InitAction, InitEvent, InitState, Service, MAX_ATTEMPTS,
};
use ozymem::json::JsonValue;
use ozymem::language::{ExtractedFunction, FileDefinitionMap, ParseStrategy, SymbolKind};
use ozymem::mcp_setup::{
    choose_option, enter_server, judge_trial, known_programs, mcp_targets, offer_targets,
    offered_programs, ozymem_command, partner_entry, partner_key, token_entry, trial_url, Offer,
    Platform, ServerTrial, ShownTarget, TargetBase, TargetProgram,
};
use ozymem::processes::{
    decide_server_start, decide_watcher_start, follow_log, log_announcement, log_file_name,
    log_project, nothing_to_stop, pid_file_name, server_started, server_stop_order, stop_order,
    stop_target, target_path, watcher_arguments, watcher_log_name, watcher_started,
    StartDecision, StopTarget,
};
use ozymem::records::{GprRecord, GraphSummary, LessonRecord};
use ozymem::reports::{
    clean_report, gpr_diff_report, gpr_list_report, ignorable_names, ignore_file,
    lesson_record_lines, lessons_report, local_push_report, merge_report, project_list_report,
    push_announcement, push_report, GPR_RULE,
};
use ozymem::status::{
    get_last_log_line, graph_report, log_line_fits, path_can_be_shortened, pid_from_text,
    server_status, shorten_path, status_json, watcher_report, watcher_status, LogFile,
    ProcessState, WatcherFacts, TABLE_RULE,
};
use ozymem::update::{
    resume_update, start_update, UpdateAction, UpdateEvent, UpdateState,
};

// ---------------------------------------------------------------------------
// Configuration
// ---------------------------------------------------------------------------

fn no_settings() -> Settings {
    Settings {
        server_url: None,
        memgraph_uri: None,
        server_id: None,
        user_token: None,
        mcp_token: None,
    }
}

#[test]
fn a_new_configuration_has_a_local_brain() {
    let config = OzymemConfig::default();
    assert_eq!(config.current_brain, "local_docker");
    assert_eq!(config.brain("local_docker").unwrap().port, 7687);
    assert!(config.projects.is_empty());
    assert_eq!(
        choose_backend(&config, &no_settings()),
        BackendChoice::Local { uri: "127.0.0.1:7687".to_string() }
    );
}

#[test]
fn projects_are_registered_and_removed() {
    let mut config = OzymemConfig::default();
    config.register_project("b", "/b");
    config.register_project("a", "/a");
    config.register_project("b", "/c");
    assert_eq!(config.project("b"), Some("/c"));
    assert_eq!(config.sorted_project_names(), vec!["a".to_string(), "b".to_string()]);
    assert!(config.remove_project("b"));
    assert!(!config.remove_project("b"));
    assert_eq!(config.project("b"), None);
    assert_eq!(config.project("a"), Some("/a"));
    config.set_brain("x", BrainConfig { host: "h".to_string(), port: 1 });
    assert_eq!(config.brain("x").unwrap().host, "h");
}

#[test]
fn a_server_is_used_over_http() {
    let config = OzymemConfig::default();
    let mut settings = no_settings();
    settings.server_url = Some("https://h".to_string());
    settings.server_id = Some("acme".to_string());
    settings.user_token = Some("0a".to_string());
    assert_eq!(
        choose_backend(&config, &settings),
        BackendChoice::Remote {
            url: "https://h".to_string(),
            token: "ozy_partner_ctx_acme_usr_0a".to_string()
        }
    );
    settings.server_url = None;
    settings.memgraph_uri = Some("db".to_string());
    assert_eq!(
        choose_backend(&config, &settings),
        BackendChoice::Local { uri: "db:7687".to_string() }
    );
}

#[test]
fn a_local_graph_needs_a_user_and_a_password() {
    let some = |s: &str| Some(s.to_string());
    let found = local_settings("u".to_string(), some("a"), some("b"), None).unwrap();
    assert_eq!(found.database, "memgraph");
    assert!(local_settings("u".to_string(), None, None, None)
        .unwrap_err()
        .starts_with("MEMGRAPH_USER"));
    assert!(local_settings("u".to_string(), some("a"), None, None)
        .unwrap_err()
        .starts_with("MEMGRAPH_PASSWORD"));
}

#[test]
fn tenants_come_from_tokens() {
    let mut config = OzymemConfig::default();
    assert_eq!(client_tenant(None, &config, &no_settings()), "local");
    assert_eq!(new_user_tenant(&config, &no_settings()), "default_tenant");
    config.token = Some("ozy_partner_ctx_acme_usr_0a".to_string());
    assert_eq!(client_tenant(None, &config, &no_settings()), "acme");
    assert_eq!(client_tenant(Some("x"), &config, &no_settings()), "local");
}

#[test]
fn an_installed_server_is_the_current_brain() {
    let mut config = OzymemConfig::default();
    install_server(&mut config, "acme", "http://h", "ozy_partner_ctx_acme_usr_0a");
    assert_eq!(config.current_brain, "remote_acme");
    let brain = config.brain("remote_acme").unwrap();
    assert_eq!((brain.host.as_str(), brain.port), ("http://h", 80));
    assert_eq!(config.token, Some("ozy_partner_ctx_acme_usr_0a".to_string()));
    assert!(config.brain("local_docker").is_some());
}

#[test]
fn a_new_token_keeps_the_tenant() {
    let mut config = OzymemConfig::default();
    assert_eq!(
        set_token(&mut config, "new", "0a"),
        ("new".to_string(), "ozy_partner_ctx_new_usr_0a".to_string())
    );
    let (tenant, token, credential) = renew_token(&mut config);
    assert_eq!(tenant, "new");
    assert_eq!(parse_unified_credential(&credential), Some((tenant, token)));
    assert_eq!(config.token, Some(credential));
}

// ---------------------------------------------------------------------------
// Status
// ---------------------------------------------------------------------------

#[test]
fn the_last_line_of_a_log_is_shown() {
    assert_eq!(get_last_log_line(&LogFile::Missing), "Watcher no inicializado.");
    assert_eq!(get_last_log_line(&LogFile::Unreadable), "Error al leer bitacora.");
    assert_eq!(get_last_log_line(&LogFile::Content(" \n\n".to_string())), "Bitacora vacia.");
    assert_eq!(get_last_log_line(&LogFile::Content("a\n b \n \n".to_string())), "b");
    let long = LogFile::Content("x".repeat(61));
    assert!(log_line_fits(&long));
    assert_eq!(get_last_log_line(&long), format!("{}...", "x".repeat(57)));
    let across = LogFile::Content(format!("{}ñ{}", "x".repeat(56), "y".repeat(9)));
    assert!(!log_line_fits(&across));
}

#[test]
fn paths_are_shortened_to_their_last_pieces() {
    assert_eq!(shorten_path("/a/b", 40), "/a/b");
    assert_eq!(shorten_path("/home/user/projects/alpha", 15), ".../alpha");
    assert_eq!(shorten_path("/home/user/projects/alpha", 18), ".../projects/alpha");
    assert_eq!(shorten_path(r"C:\Users\me\projects", 13), r"...\projects");
    assert!(path_can_be_shortened("abcdefghij", 6));
    assert_eq!(shorten_path("abcdefghij", 6), "...hij");
    assert!(!path_can_be_shortened("abcdefghij", 2));
}

#[test]
fn watchers_are_active_stopped_or_down() {
    let process = |alive: bool| Some(ProcessState { pid: 7, alive });
    assert_eq!(
        watcher_status(None, "x"),
        ("INACTIVO".to_string(), "Watcher no inicializado.".to_string())
    );
    assert_eq!(
        watcher_status(process(true), "ok"),
        ("ACTIVO (PID: 7)".to_string(), "ok".to_string())
    );
    assert_eq!(
        watcher_status(process(false), "fatal ERROR"),
        ("TUMBADO".to_string(), "Error: fatal ERROR".to_string())
    );
    assert_eq!(
        watcher_status(process(false), "bye"),
        ("DETENIDO".to_string(), "Último log: bye".to_string())
    );
    assert_eq!(
        watcher_status(process(false), "Bitacora vacia."),
        ("DETENIDO".to_string(), "Proceso terminado inesperadamente.".to_string())
    );
    assert_eq!(
        server_status(None, "x"),
        ("INACTIVO".to_string(), "Servidor no inicializado.".to_string())
    );
    assert_eq!(
        server_status(process(false), "bye"),
        ("TUMBADO".to_string(), "Error: bye".to_string())
    );
    assert_eq!(pid_from_text(" 42\n"), Some(42));
    assert_eq!(pid_from_text("4294967296"), None);
    assert_eq!(pid_from_text("x"), None);
}

fn summary() -> GraphSummary {
    GraphSummary {
        file_count: 1,
        function_count: 2,
        engram_count: 3,
        native_ast_function_count: 0,
        extension_wasm_function_count: 0,
        text_heuristic_function_count: 0,
        vertex_count: 0,
        edge_count: 0,
        memory_usage: "".to_string(),
    }
}

#[test]
fn the_status_shows_the_graph_and_the_watchers() {
    let lines = graph_report("bolt://h", &summary());
    assert_eq!(lines[2], "Database Target: bolt://h");
    assert_eq!(lines[6], "  Files: 1 | Functions: 2 | Engrams: 3");
    let watchers = vec![WatcherFacts {
        name: "one".to_string(),
        path: "/one".to_string(),
        process: None,
        last_line: "".to_string(),
    }];
    let lines = watcher_report(&watchers, None, "");
    assert_eq!(lines.len(), 8);
    assert_eq!(lines[7], TABLE_RULE);
    assert_eq!(lines[5].chars().count(), TABLE_RULE.chars().count());
    assert!(lines[5].starts_with("| one             | /one  "));
    assert!(lines[6].starts_with("| ozymem-mcp      |"));
    let json = status_json("bolt://h", &summary());
    assert_eq!(json.get("metrics").unwrap().get("engrams_formed"), Some(&JsonValue::number(3)));
    assert_eq!(json.get("database").unwrap().get_str("status"), Some("ACTIVE"));
}

// ---------------------------------------------------------------------------
// The examination of the environment
// ---------------------------------------------------------------------------

fn healthy_facts() -> DoctorFacts {
    DoctorFacts {
        config_exists: true,
        config_readable: true,
        docker_version: Some("Docker version 1\n".to_string()),
        docker_running: true,
        containers: Some("ozymem-memgraph-lab:Exited\nozymem-memgraph:Up 2 hours\n".to_string()),
        db_connected: true,
        db_ping_ok: true,
        env_uri: None,
        env_user: Some("me".to_string()),
        env_password_set: true,
        env_database: None,
    }
}

#[test]
fn a_healthy_environment_is_praised() {
    let facts = healthy_facts();
    assert_eq!(containers_up(&facts), (true, false));
    assert!(is_healthy(&facts));
    let lines = doctor_report(&facts);
    assert!(lines.contains(&"  [✔] Cliente Docker: Instalado (Docker version 1)".to_string()));
    assert!(lines.contains(&"  - MEMGRAPH_URI:      127.0.0.1:7687 (Por defecto)".to_string()));
    assert!(lines.iter().any(|l| l.starts_with("¡ENHORABUENA!")));
    let json = doctor_json(&facts);
    assert_eq!(json.get("lab_container_running"), Some(&JsonValue::Bool(false)));
    assert_eq!(json.get("env_vars").unwrap().get("MEMGRAPH_URI"), Some(&JsonValue::Null));
}

#[test]
fn nothing_is_up_without_docker() {
    let mut facts = healthy_facts();
    facts.docker_running = false;
    assert_eq!(containers_up(&facts), (false, false));
    assert!(!is_healthy(&facts));
    let lines = doctor_report(&facts);
    assert!(lines.iter().any(|l| l.contains("Docker no se está ejecutando")));
    assert!(lines.iter().any(|l| l.contains("-> Asegúrate")));
    assert!(!lines.iter().any(|l| l.contains("-> Ejecuta 'ozymem init'")));
}

#[test]
fn advice_is_given_for_what_is_missing() {
    let mut facts = healthy_facts();
    facts.config_exists = false;
    facts.db_ping_ok = false;
    let lines = doctor_report(&facts);
    assert!(lines.iter().any(|l| l.contains("-> Ejecuta un comando básico")));
    assert!(lines.iter().any(|l| l.contains("puerto 7687")));
    facts.containers = None;
    let lines = doctor_report(&facts);
    assert!(lines.iter().any(|l| l.contains("-> Ejecuta 'ozymem init'")));
}

// ---------------------------------------------------------------------------
// The start of an environment
// ---------------------------------------------------------------------------

fn two_projects() -> OzymemConfig {
    let mut config = OzymemConfig::default();
    config.register_project("web", "/web");
    config.register_project("ozymem", "/ozymem");
    config
}

#[test]
fn without_projects_nothing_is_started() {
    let plan = init_plan(&OzymemConfig::default());
    let (state, said, action) = start_init(&plan);
    assert_eq!(state, InitState::Ended);
    assert!(said[0].starts_with("[INFO] No hay proyectos"));
    assert_eq!(action, InitAction::End);
}

#[test]
fn services_start_without_a_graph() {
    let plan = init_plan(&two_projects());
    assert_eq!(plan.names, vec!["ozymem".to_string(), "web".to_string()]);
    let (state, _, action) = start_init(&plan);
    assert_eq!(action, InitAction::Choose);
    let (state, said, action) = resume_init(&plan, state, InitEvent::Chosen(Some(1)));
    assert_eq!(said, vec!["[INFO] Inicializando entorno para el proyecto 'web'...".to_string()]);
    assert_eq!(action, InitAction::Connect);
    let (state, _, action) = resume_init(&plan, state, InitEvent::Connection(None));
    assert_eq!(action, InitAction::StartDocker);
    let (state, _, action) = resume_init(&plan, state, InitEvent::CommandDone(false));
    assert_eq!(action, InitAction::ComposeUp("/ozymem".to_string()));
    let (mut state, _, action) = resume_init(&plan, state, InitEvent::CommandDone(false));
    assert_eq!(action, InitAction::WaitAndConnect);
    for attempt in 1..=MAX_ATTEMPTS {
        let (next, said, action) = resume_init(&plan, state, InitEvent::Connection(None));
        assert_eq!(
            said,
            vec![format!("[INFO] Re-intentando conexión a Memgraph (intento {}/5)...", attempt)]
        );
        if attempt < MAX_ATTEMPTS {
            assert_eq!(action, InitAction::WaitAndConnect);
        } else {
            assert_eq!(action, InitAction::StartServer);
        }
        state = next;
    }
    let (state, _, action) =
        resume_init(&plan, state, InitEvent::Started(Service::Running(Some(" 9\n".to_string()))));
    assert_eq!(action, InitAction::StartWatcher("/web".to_string()));
    let (state, said, action) =
        resume_init(&plan, state, InitEvent::Started(Service::Failed("no".to_string())));
    assert_eq!(state, InitState::Ended);
    assert_eq!(action, InitAction::End);
    assert_eq!(said[3], "  ✔ Docker / Memgraph: MODO WAL (Resiliencia local / Desconectado)");
    assert_eq!(said[4], "  ✔ Servidor MCP:      ACTIVO (PID: 9)");
    assert_eq!(said[5], "  ✔ Watcher Proyecto:  ERROR (no) -> /web");
}

#[test]
fn a_graph_that_answers_is_used() {
    let plan = init_plan(&two_projects());
    let (state, _, _) = start_init(&plan);
    let (state, _, _) = resume_init(&plan, state, InitEvent::Chosen(Some(0)));
    let (state, _, action) =
        resume_init(&plan, state, InitEvent::Connection(Some("bolt://h".to_string())));
    assert_eq!(action, InitAction::StartServer);
    assert_eq!(
        state,
        InitState::StartingServer { project: 0, database: Some("bolt://h".to_string()) }
    );
    let (state, _, _) = start_init(&plan);
    let (state, said, _) = resume_init(&plan, state, InitEvent::Chosen(None));
    assert_eq!(state, InitState::Ended);
    assert_eq!(said, vec!["Operación cancelada.".to_string()]);
}

// ---------------------------------------------------------------------------
// The removal of a project
// ---------------------------------------------------------------------------

fn answer(yes: bool) -> DeregisterEvent<String> {
    DeregisterEvent::Answer(yes)
}

#[test]
fn a_project_is_removed_after_the_last_question() {
    let mut config = two_projects();
    let names = config.sorted_project_names();
    let (state, _, action) = start_deregister(&config, None, Some("web".to_string()));
    assert_eq!(
        action,
        DeregisterAction::Confirm {
            prompt: "¿Desea desregistrar el proyecto 'web' del directorio actual?".to_string(),
            default: true
        }
    );
    let (state, _, action) = resume_deregister(&mut config, &names, state, answer(true));
    assert_eq!(action, DeregisterAction::LookForWatcher("web".to_string()));
    let (state, _, _) =
        resume_deregister(&mut config, &names, state, DeregisterEvent::Found(true));
    let (state, _, action) = resume_deregister(&mut config, &names, state, answer(true));
    assert_eq!(action, DeregisterAction::StopWatcher("web".to_string()));
    let (state, _, action) = resume_deregister(&mut config, &names, state, DeregisterEvent::Done);
    assert_eq!(
        action,
        DeregisterAction::Confirm {
            prompt: "¿Está seguro de que desea eliminar el registro de 'web'?".to_string(),
            default: false
        }
    );
    assert!(config.project("web").is_some());
    let (state, _, action) = resume_deregister(&mut config, &names, state, answer(true));
    assert!(config.project("web").is_none());
    assert!(config.project("ozymem").is_some());
    assert_eq!(action, DeregisterAction::Save("web".to_string()));
    let (state, said, action) =
        resume_deregister(&mut config, &names, state, DeregisterEvent::Done);
    assert_eq!(
        said,
        vec!["[SUCCESS] Registro del proyecto 'web' eliminado de ozymem.toml.".to_string()]
    );
    assert_eq!(action, DeregisterAction::Connect);
    let (state, _, _) =
        resume_deregister(&mut config, &names, state, DeregisterEvent::Found(true));
    let (state, _, action) = resume_deregister(&mut config, &names, state, answer(true));
    assert_eq!(action, DeregisterAction::DeleteFiles("/web".to_string()));
    let (state, said, _) =
        resume_deregister(&mut config, &names, state, DeregisterEvent::Deleted(4));
    assert_eq!(state, DeregisterState::Ended);
    assert!(said[0].contains("Se eliminaron 4 archivos"));
}

#[test]
fn a_watcher_that_stays_keeps_its_project() {
    let mut config = two_projects();
    let names = config.sorted_project_names();
    let (state, _, _) = start_deregister(&config, Some("web".to_string()), None);
    let (state, _, _) =
        resume_deregister(&mut config, &names, state, DeregisterEvent::Found(true));
    let (state, said, _) = resume_deregister(&mut config, &names, state, answer(false));
    assert_eq!(state, DeregisterState::Ended);
    assert!(said[0].starts_with("Operación abortada"));
    assert!(config.project("web").is_some());
}

#[test]
fn unknown_projects_cannot_be_removed() {
    let config = two_projects();
    let (_, _, action) = start_deregister(&config, Some("x".to_string()), None);
    assert_eq!(
        action,
        DeregisterAction::Fail("El proyecto 'x' no está registrado.".to_string())
    );
    let (_, said, _) = start_deregister(&OzymemConfig::default(), None, None);
    assert_eq!(said, vec!["[INFO] No hay proyectos registrados todavía.".to_string()]);
}

#[test]
fn a_project_can_be_selected_for_removal() {
    let mut config = two_projects();
    let names = config.sorted_project_names();
    let (state, _, action) = start_deregister(&config, None, None);
    assert_eq!(action, DeregisterAction::Select);
    let (state, _, action) =
        resume_deregister(&mut config, &names, state, DeregisterEvent::Selected(Some(0)));
    assert_eq!(action, DeregisterAction::LookForWatcher("ozymem".to_string()));
    let (state, _, _) =
        resume_deregister(&mut config, &names, state, DeregisterEvent::Found(false));
    let (_, said, _) = resume_deregister(&mut config, &names, state, answer(false));
    assert_eq!(said, vec!["Operación cancelada.".to_string()]);
    assert!(config.project("ozymem").is_some());
    let (_, _, action) = resume_deregister(
        &mut config,
        &names,
        DeregisterState::DeletingFiles,
        DeregisterEvent::DeletionFailed("x".to_string()),
    );
    assert_eq!(
        action,
        DeregisterAction::Warn(
            "[ERROR] No se pudieron eliminar los archivos del grafo: x".to_string()
        )
    );
}

// ---------------------------------------------------------------------------
// The update
// ---------------------------------------------------------------------------

fn output(text: &str) -> UpdateEvent<String> {
    UpdateEvent::Output(Some(text.to_string()))
}

fn compared(local: &str, remote: &str) -> (UpdateState<String>, Vec<String>, UpdateAction<String>) {
    let (state, _, action) = start_update();
    assert_eq!(action, UpdateAction::Fetch);
    let (state, _, action) = resume_update(state, UpdateEvent::Ran(true));
    assert_eq!(action, UpdateAction::ReadBranch);
    let (state, _, action) = resume_update(state, output("main\n"));
    assert_eq!(action, UpdateAction::ReadRevision("HEAD".to_string()));
    let (state, _, action) = resume_update(state, output(local));
    assert_eq!(action, UpdateAction::ReadRevision("origin/main".to_string()));
    resume_update(state, output(remote))
}

#[test]
fn the_same_revision_is_not_installed_again() {
    let (state, said, action) = compared("abc\n", " abc");
    assert_eq!(state, UpdateState::Ended);
    assert_eq!(said, vec!["Ozymem is already on the latest version.".to_string()]);
    assert_eq!(action, UpdateAction::End);
}

#[test]
fn a_newer_revision_is_pulled_and_installed() {
    let (state, _, action) = compared("abc", "def");
    assert_eq!(action, UpdateAction::IsAncestorOf("origin/main".to_string()));
    let (state, _, action) = resume_update(state, UpdateEvent::Ran(true));
    assert_eq!(action, UpdateAction::Pull);
    let (state, _, action) = resume_update(state, UpdateEvent::Ran(true));
    assert_eq!(action, UpdateAction::Install);
    let (state, said, action) = resume_update(state, UpdateEvent::Ran(true));
    assert_eq!(state, UpdateState::Ended);
    assert_eq!(said, vec!["Ozymem updated successfully!".to_string()]);
    assert_eq!(action, UpdateAction::End);
}

#[test]
fn an_update_that_goes_wrong_says_so() {
    let (state, _, _) = start_update();
    let (_, said, action) = resume_update(state, UpdateEvent::Ran(false));
    assert_eq!(said.len(), 7);
    assert_eq!(action, UpdateAction::End);
    let (_, _, action) = resume_update(UpdateState::Pulling, UpdateEvent::Ran(false));
    assert_eq!(action, UpdateAction::Fail("Failed to execute 'git pull'.".to_string()));
    let (_, _, action) = resume_update(UpdateState::Installing, UpdateEvent::Ran(false));
    assert_eq!(action, UpdateAction::Fail("Failed to execute 'cargo install'.".to_string()));
    let (_, said, _) = resume_update(UpdateState::Comparing, UpdateEvent::Ran(false));
    assert_eq!(said, vec!["Ozymem is already on the latest version.".to_string()]);
}

// ---------------------------------------------------------------------------
// Entries in other programs
// ---------------------------------------------------------------------------

#[test]
fn targets_lie_where_the_platform_keeps_them() {
    let programs = offered_programs(None);
    assert_eq!(programs, known_programs());
    let targets = mcp_targets(Platform::MacOs, &programs);
    assert_eq!(targets[0].name, "Cursor Editor");
    assert_eq!(targets[0].base, TargetBase::Home);
    assert_eq!(
        targets[0].pieces,
        vec![
            "Library",
            "Application Support",
            "Cursor",
            "User",
            "globalStorage",
            "cursor.mcp.json"
        ]
    );
    let targets = mcp_targets(Platform::Windows, &programs);
    assert_eq!(targets[1].base, TargetBase::AppData);
    assert_eq!(targets[1].pieces, vec!["Windsurf", "globalStorage", "windsurf.mcp.json"]);
    let targets = mcp_targets(Platform::Other, &programs);
    assert_eq!(targets[1].pieces[0], ".config");
}

#[test]
fn listed_programs_are_offered_in_their_order() {
    let program = |name: &str, file: &str| TargetProgram {
        name: name.to_string(),
        pieces: vec![name.to_string(), file.to_string()],
    };
    let listed = vec![program("Desk", "desk.json"), program("Edit", "edit.json")];
    let programs = offered_programs(Some(listed));
    let targets = mcp_targets(Platform::Other, &programs);
    assert_eq!(targets.len(), 2);
    assert_eq!(targets[0].name, "Desk");
    assert_eq!(targets[1].pieces, vec![".config", "Edit", "edit.json"]);
}

fn shown(name: &str, present: bool) -> ShownTarget {
    ShownTarget { name: name.to_string(), path: format!("/{}", name), present }
}

#[test]
fn a_single_target_is_taken_without_a_question() {
    let targets = vec![shown("a", false), shown("b", true)];
    assert_eq!(offer_targets(&targets), Offer::Only(1));
}

#[test]
fn targets_are_offered_by_number() {
    match offer_targets(&vec![shown("a", true), shown("b", false), shown("c", true)]) {
        Offer::Ask { options, lines, .. } => {
            assert_eq!(options, vec![0, 2]);
            assert_eq!(
                lines,
                vec!["Entornos MCP detectados:", "  1) a [/a]", "  2) c [/c]"]
            );
            assert_eq!(choose_option(&options, " 2\n"), Some(2));
            assert_eq!(choose_option(&options, "0"), None);
            assert_eq!(choose_option(&options, "3"), None);
            assert_eq!(choose_option(&options, ""), None);
        }
        other => panic!("unexpected offer: {:?}", other),
    }
    match offer_targets(&vec![shown("a", false), shown("b", false)]) {
        Offer::Ask { options, lines, .. } => {
            assert_eq!(options, vec![0, 1]);
            assert_eq!(lines[2], "2) b");
        }
        other => panic!("unexpected offer: {:?}", other),
    }
}

#[test]
fn entries_of_other_servers_are_kept() {
    let document = JsonValue::object()
        .with("theme", JsonValue::text("dark"))
        .with("mcpServers", JsonValue::object().with("other", JsonValue::Null));
    let entry = token_entry("ozymem", "t");
    let merged = enter_server(Some(document), "ozybase", entry);
    assert_eq!(merged.get_str("theme"), Some("dark"));
    let servers = merged.get("mcpServers").unwrap();
    assert_eq!(servers.get("other"), Some(&JsonValue::Null));
    assert_eq!(servers.get("ozybase").unwrap().get_str("command"), Some("ozymem"));

    let fresh = enter_server(None, "k", JsonValue::Bool(true));
    assert_eq!(fresh.get("mcpServers").unwrap().get("k"), Some(&JsonValue::Bool(true)));
    let without = enter_server(Some(JsonValue::object()), "k", JsonValue::Bool(true));
    assert_eq!(without.get("mcpServers").unwrap().get("k"), Some(&JsonValue::Bool(true)));
    assert_eq!(enter_server(Some(JsonValue::Null), "k", JsonValue::Null), JsonValue::Null);
    let odd = JsonValue::object().with("mcpServers", JsonValue::number(1));
    let kept = enter_server(Some(odd), "k", JsonValue::Null);
    assert_eq!(kept.get("mcpServers"), Some(&JsonValue::number(1)));
}

#[test]
fn a_server_is_tried_before_it_is_entered() {
    assert_eq!(trial_url(" http://h:1// "), "http://h:1/api/health");
    assert!(judge_trial(&ServerTrial::Accepted).0);
    let (goes_on, lines) = judge_trial(&ServerTrial::Answered("403 Forbidden".to_string()));
    assert!(!goes_on);
    assert_eq!(lines[0], "[ERROR] El servidor respondió con estado: 403 Forbidden");
    assert!(!judge_trial(&ServerTrial::Unreachable("x".to_string())).0);
    assert_eq!(partner_key("acme"), "ozymem-partner-acme");
    let entry = partner_entry("ozymem", " http://h ", "acme", "0a");
    assert_eq!(entry.get("env").unwrap().get_str("OZYMEM_SERVER_URL"), Some("http://h"));
    assert_eq!(ozymem_command("/bin/ozymem", true), "/bin/ozymem");
    assert_eq!(ozymem_command("/bin/ozymem", false), "ozymem");
}

// ---------------------------------------------------------------------------
// Processes
// ---------------------------------------------------------------------------

#[test]
fn a_living_process_is_not_started_again() {
    let process = |alive: bool| Some(ProcessState { pid: 7, alive });
    assert_eq!(
        decide_watcher_start("web", process(true)),
        StartDecision::AlreadyRunning(
            "[INFO] El watcher para 'web' ya se encuentra activo (PID: 7).".to_string()
        )
    );
    assert_eq!(
        decide_watcher_start("web", process(false)),
        StartDecision::Spawn { remove_pid_file: false }
    );
    assert_eq!(
        decide_server_start(process(false)),
        StartDecision::Spawn { remove_pid_file: true }
    );
    assert_eq!(decide_server_start(None), StartDecision::Spawn { remove_pid_file: false });
    assert!(matches!(decide_server_start(process(true)), StartDecision::AlreadyRunning(_)));
    assert_eq!(watcher_arguments("/p", true), vec!["watch", "/p", "--force"]);
    assert_eq!(watcher_arguments("/p", false), vec!["watch", "/p"]);
    assert!(watcher_started("web", 8).ends_with("(PID: 8)."));
    assert!(server_started(8).ends_with("(PID: 8)"));
}

#[test]
fn a_watcher_is_stopped_by_its_file() {
    let some = |s: &str| Some(s.to_string());
    assert_eq!(
        stop_target(some("a"), some("b"), true),
        Ok(StopTarget::Project("a".to_string()))
    );
    assert_eq!(stop_target(None, some("b"), true), Ok(StopTarget::Project("b".to_string())));
    assert_eq!(stop_target(None, None, true), Ok(StopTarget::Global));
    assert!(stop_target(None, None, false).is_err());
    let order = stop_order(&StopTarget::Project("a".to_string()), " 12\n");
    assert_eq!(order.pid, "12");
    assert_eq!(
        order.done,
        "[SUCCESS] Proceso del watcher para 'a' (PID: 12) detenido y limpiado."
    );
    assert!(stop_order(&StopTarget::Global, "12").done.contains("watcher global"));
    assert_eq!(server_stop_order("x"), None);
    assert_eq!(server_stop_order("12\n").unwrap().0, 12);
    assert!(nothing_to_stop("a").starts_with("[ERROR]"));
    assert_eq!(pid_file_name("a"), ".ozymem-a.pid");
}

#[test]
fn logs_are_followed_without_gaps() {
    assert_eq!(watcher_log_name("global"), ".ozymem-global.log");
    assert_eq!(watcher_log_name("a"), ".ozymem-a.log");
    assert_eq!(log_file_name("global"), ".ozymem.log");
    assert_eq!(log_file_name("mcp"), ".ozymem-mcp.log");
    assert_eq!(log_project(None, None), "global");
    assert_eq!(log_project(None, Some("b".to_string())), "b");
    assert!(log_announcement("a", None).starts_with("[INFO] No hay registros"));
    assert!(log_announcement("a", Some("/l")).contains("(Ruta: /l)"));
    assert_eq!(follow_log(10, 10), (None, 10));
    assert_eq!(follow_log(10, 15), (Some(10), 15));
    assert_eq!(follow_log(15, 3), (None, 15));
}

#[test]
fn a_target_may_be_the_name_of_a_project() {
    let config = two_projects();
    assert_eq!(target_path(&config, "web", false, true), "/web");
    assert_eq!(target_path(&config, "web", true, true), "web");
    assert_eq!(target_path(&config, "web", false, false), "web");
    assert_eq!(target_path(&config, "x", false, true), "x");
}

// ---------------------------------------------------------------------------
// Reports
// ---------------------------------------------------------------------------

fn lesson() -> LessonRecord {
    LessonRecord {
        file_path: "/a.rs".to_string(),
        error_type: "E".to_string(),
        solution: "S".to_string(),
        timestamp: "now".to_string(),
    }
}

#[test]
fn proposals_are_listed() {
    assert_eq!(
        gpr_list_report(&Vec::new()),
        vec!["No hay Graph Pull Requests pendientes.".to_string()]
    );
    let gpr = GprRecord {
        id: 101,
        user: "ana".to_string(),
        message: "m".to_string(),
        timestamp: "now".to_string(),
        status: "PENDING".to_string(),
        tenant_id: "t".to_string(),
    };
    let lines = gpr_list_report(&vec![gpr]);
    assert_eq!(lines.len(), 6);
    assert_eq!(lines[4].len(), GPR_RULE.len());
    assert!(lines[4].starts_with("| 101  | ana "));
}

#[test]
fn a_proposal_is_shown_with_its_files_and_lessons() {
    let file = FileDefinitionMap {
        file_path: "/a.rs".to_string(),
        language: "Rust".to_string(),
        strategy: ParseStrategy::NativeAst,
        functions: vec![ExtractedFunction {
            name: "run".to_string(),
            kind: SymbolKind::Function,
            start_line: 1,
            end_line: 2,
        }],
    };
    let lines = gpr_diff_report(101, "m", "ana", &vec![file], &vec![lesson()]);
    assert_eq!(
        lines,
        vec![
            "Detalles del Graph Pull Request #101",
            "========================================",
            "Usuario:   ana",
            "Mensaje:   m",
            "Archivos Propuestos (1):",
            "  - /a.rs (Rust): 1 símbolos",
            "      * run [Function] líneas 1-2",
            "Lecciones Propuestas (1):",
            "  - Archivo: /a.rs",
            "    Error:   E",
            "    Solución: S",
            "========================================",
        ]
    );
    assert_eq!(gpr_diff_report(1, "", "", &Vec::new(), &Vec::new()).len(), 6);
}

#[test]
fn the_answer_to_a_proposal_is_reported() {
    let merged = JsonValue::object().with("status", JsonValue::text("merged"));
    assert_eq!(push_report(&merged), "[SUCCESS] Cambios fusionados directamente (rol Lead).");
    let pending = JsonValue::object()
        .with("status", JsonValue::text("pending"))
        .with("gpr_id", JsonValue::number(104));
    assert!(push_report(&pending).ends_with("ID asignado: 104"));
    assert!(push_report(&JsonValue::Null).ends_with("ID asignado: 0"));
    assert!(local_push_report(101).ends_with("ID: 101"));
    assert_eq!(merge_report(5, true), "[SUCCESS] GPR #5 fusionado localmente con éxito.");
    assert_eq!(merge_report(5, false), "[SUCCESS] GPR #5 fusionado con éxito en el servidor.");
    assert!(!push_announcement(0, "m").0);
    assert_eq!(
        push_announcement(2, "m"),
        (true, "GPR: Enviando 2 archivos al servidor con el mensaje 'm'...".to_string())
    );
}

#[test]
fn lessons_are_listed() {
    assert_eq!(lessons_report(&Vec::new())[2], "No historical lessons found.");
    assert_eq!(lesson_record_lines(&lesson()), vec!["[Error: E] -> /a.rs", "Solution: S", ""]);
    assert_eq!(lessons_report(&vec![lesson(), lesson()]).len(), 8);
}

#[test]
fn projects_are_listed() {
    assert!(project_list_report(&OzymemConfig::default())[0].starts_with("[INFO] No hay"));
    let lines = project_list_report(&two_projects());
    assert_eq!(lines.len(), 6);
    assert!(lines.iter().any(|l| l.starts_with("| web  ")));
}

#[test]
fn all_but_the_repository_can_be_ignored() {
    let names = vec!["src".to_string(), ".git".to_string(), "docs".to_string()];
    let offered = ignorable_names(&names);
    assert_eq!(offered, vec!["docs".to_string(), "src".to_string()]);
    assert_eq!(ignore_file(&offered, &vec![1, 0]), "src\ndocs\n");
    assert_eq!(ignore_file(&offered, &Vec::new()), "");
    assert!(clean_report("/a", true).ends_with("fueron eliminados del grafo."));
    assert!(clean_report("/a", false).ends_with("Nada que eliminar."));
}

#[test]
fn what_is_shortened_fits() {
    for path in ["/home/user/projects/ozymem/crates/core/src/lib.rs", "C:\\\\a\\\\bbbbbbbbbbbbbbb\\\\c.rs"] {
        for max in 3..60 {
            assert!(shorten_path(path, max).len() <= max);
        }
    }
    let log = LogFile::Content("x".repeat(200));
    assert_eq!(get_last_log_line(&log).len(), 60);
}
