use ozymem::config::display_memgraph_uri;
use ozymem::fs_utils::{
    clean_path, has_excluded_component, is_browser_cache_path, is_excluded_directory,
    is_garbage_file, is_ignored_by_patterns, should_skip_path, slashed_path,
};
use ozymem::language::SupportedLanguage;
use ozymem::paths::{components, extension, file_name, strip_path_prefix};
use ozymem::projects::{
    authorize_scan, check_directory_authorized, classify_file, get_language_from_path,
    get_project_identifier, ignore_patterns, indexed_line, is_critical_root, project_at,
    resolve_project_root, should_descend, FileDecision, RegisteredProject, CRITICAL_ROOT_ERROR,
    UNREGISTERED_ERROR,
};
use ozymem::records::{default_memgraph_uri, WalAction};
use ozymem::watch::{
    after_send, connection_found, connection_lost, decide_change, decide_patterns, files_to_purge,
    patterns_changed, replay_failed, should_process_delete, should_watch_path, wal_entry,
    ChangeAction, ChangeKind, PatternAction, Replay, ReplayStep, WatchState,
};
use std::path::Path;

#[test]
fn maps_extensions_to_languages() {
    assert_eq!(get_language_from_path("file.py"), SupportedLanguage::Python);
    assert_eq!(get_language_from_path("file.go"), SupportedLanguage::Go);
    assert_eq!(get_language_from_path("file.rs"), SupportedLanguage::Rust);
    assert_eq!(get_language_from_path("file.js"), SupportedLanguage::JavaScript);
    assert_eq!(get_language_from_path("file.ts"), SupportedLanguage::TypeScriptReact);
    assert_eq!(get_language_from_path("file.tsx"), SupportedLanguage::TypeScriptReact);
    assert_eq!(get_language_from_path("file.jsx"), SupportedLanguage::TypeScriptReact);
    assert_eq!(get_language_from_path("file.sql"), SupportedLanguage::SQL);
    assert_eq!(get_language_from_path("file.txt"), SupportedLanguage::Unknown);
    assert_eq!(get_language_from_path("file"), SupportedLanguage::Unknown);
}

#[test]
fn formats_status_uri_as_bolt() {
    assert_eq!(
        display_memgraph_uri(default_memgraph_uri()),
        format!("bolt://{}", default_memgraph_uri())
    );
}

#[test]
fn dynamic_ignore_patterns_load_and_check() {
    let temp_root = "/tmp/ozymem-cli-ignore-test";
    let patterns =
        ignore_patterns(Some("pattern1\n# comment\npattern2\n"), Some("pattern3\n"));
    assert_eq!(patterns.len(), 3);
    assert!(patterns.contains(&"pattern1".to_string()));
    assert!(patterns.contains(&"pattern2".to_string()));
    assert!(patterns.contains(&"pattern3".to_string()));

    let file1 = "/tmp/ozymem-cli-ignore-test/pattern1";
    let file2 = "/tmp/ozymem-cli-ignore-test/other_file";
    let file3 = "/tmp/ozymem-cli-ignore-test/pattern3";

    assert!(is_ignored_by_patterns(file1, &patterns, temp_root));
    assert!(!is_ignored_by_patterns(file2, &patterns, temp_root));
    assert!(is_ignored_by_patterns(file3, &patterns, temp_root));
}

#[test]
fn test_clean_path_windows_unc() {
    let cleaned = clean_path(r"\\?\C:\Users\test\file.txt");
    assert_eq!(cleaned, r"C:\Users\test\file.txt");
}

#[test]
fn test_clean_path_normal() {
    let cleaned = clean_path(r"C:\Users\test\file.txt");
    assert_eq!(cleaned, r"C:\Users\test\file.txt");
}

#[test]
fn test_is_garbage_file() {
    assert!(is_garbage_file("test.log"));
    assert!(is_garbage_file("test.exe"));
    assert!(is_garbage_file("test.dll"));
    assert!(is_garbage_file("test.cache"));
    assert!(is_garbage_file("test.sqlite"));
    assert!(!is_garbage_file("test.rs"));
    assert!(!is_garbage_file("test.py"));
    assert!(!is_garbage_file("test.ts"));
}

#[test]
fn test_has_excluded_component() {
    assert!(has_excluded_component("src/.git/objects/abc"));
    assert!(has_excluded_component("target/debug/build"));
    assert!(has_excluded_component("src/node_modules/package"));
    assert!(!has_excluded_component("src/main.rs"));
    assert!(!has_excluded_component("crates/ozymem-core/src/lib.rs"));
}

// ---------------------------------------------------------------------------
// Paths
// ---------------------------------------------------------------------------

const PATHS: [&str; 16] = [
    "", "/", "a", "a/b", "/a/b", "a/b/", "a//b", "./a", "a/./b", "a/../b", "..", ".", "/.", "a.rs",
    "/x/.hidden", "x/y.tar.gz",
];

#[test]
fn names_and_extensions_are_those_of_the_file_system() {
    for path in PATHS {
        let expected = Path::new(path).file_name().map(|n| n.to_str().unwrap().to_string());
        assert_eq!(file_name(path), expected, "file name of {:?}", path);
        let expected = Path::new(path).extension().map(|e| e.to_str().unwrap().to_string());
        assert_eq!(extension(path), expected, "extension of {:?}", path);
    }
}

#[test]
fn prefixes_are_stripped_as_the_file_system_does() {
    for path in PATHS {
        for base in PATHS {
            let expected = Path::new(path)
                .strip_prefix(base)
                .ok()
                .map(|rest| Path::new(rest).components().count());
            let found = strip_path_prefix(path, base).map(|rest| Path::new(&rest).components().count());
            assert_eq!(found, expected, "{:?} without {:?}", path, base);
        }
    }
}

#[test]
fn components_are_those_of_the_file_system() {
    for path in PATHS {
        let expected: Vec<String> = Path::new(path)
            .components()
            .map(|c| c.as_os_str().to_str().unwrap().to_string())
            .collect();
        assert_eq!(components(path), expected, "components of {:?}", path);
    }
}

#[test]
fn excluded_directories_are_known() {
    assert!(is_excluded_directory("node_modules"));
    assert!(!is_excluded_directory("src"));
    assert!(!is_browser_cache_path("/home/u/project/src"));
}

#[test]
fn cleaning_a_path_twice_is_cleaning_it_once() {
    for path in [r"\\?\C:\a", r"C:\a", "/a/b", r"\\?\\\?\x"] {
        let once = clean_path(path);
        if !once.starts_with(r"\\?\") {
            assert_eq!(clean_path(&once), once);
        }
    }
}

#[test]
fn more_patterns_skip_more() {
    let few = vec!["docs".to_string()];
    let more = vec!["docs".to_string(), "notes.md".to_string()];
    for path in ["/p/docs/a.md", "/p/notes.md", "/p/src/a.rs"] {
        if should_skip_path(path, &few, "/p") {
            assert!(should_skip_path(path, &more, "/p"));
        }
    }
    assert!(!should_skip_path("/p/notes.md", &few, "/p"));
    assert!(should_skip_path("/p/notes.md", &more, "/p"));
}

// ---------------------------------------------------------------------------
// Projects
// ---------------------------------------------------------------------------

fn project(name: &str, path: &str) -> RegisteredProject {
    RegisteredProject {
        name: name.to_string(),
        path: path.to_string(),
        canonical: Some(path.to_string()),
    }
}

#[test]
fn a_registered_project_is_registered_with_what_is_below() {
    let projects = vec![project("one", "/home/u/one")];
    assert!(authorize_scan(false, "/home/u/one", &projects, None, None).is_ok());
    assert!(authorize_scan(false, "/home/u/ONE/src", &projects, None, None).is_ok());
    assert_eq!(
        authorize_scan(false, "/home/u/other", &projects, None, None),
        Err(UNREGISTERED_ERROR)
    );
    assert!(authorize_scan(true, "/home/u/other", &projects, None, None).is_ok());
    let home = vec![project("home", "/home/u")];
    assert_eq!(
        authorize_scan(false, "/home/u", &home, None, Some("/home/u")),
        Err(CRITICAL_ROOT_ERROR)
    );
}

#[test]
fn only_the_place_itself_is_authorized_to_be_watched() {
    let projects = vec![project("one", "/home/u/one")];
    assert!(check_directory_authorized("/home/u/one", &projects).is_ok());
    assert!(check_directory_authorized("/home/u/one/src", &projects).is_err());
}

#[test]
fn identifiers_of_unregistered_places_say_so() {
    let projects = vec![project("one", "/home/u/one")];
    assert_eq!(
        get_project_identifier("/home/u/One", &projects),
        ("one".to_string(), "/home/u/One".to_string())
    );
    assert_eq!(
        get_project_identifier("/home/u/two", &projects),
        ("unregistered-two".to_string(), "/home/u/two".to_string())
    );
    assert_eq!(project_at("/home/u/one", &projects), Some("one".to_string()));
    assert_eq!(project_at("/home/u/One", &projects), None);
}

#[test]
fn the_root_of_a_file_is_that_of_its_project() {
    let projects = vec![project("one", "/home/u/one")];
    assert_eq!(resolve_project_root("/home/u/one/src/a.rs", &projects), "/home/u/one");
}

#[test]
fn roots_are_critical() {
    assert!(is_critical_root("/", None, None));
    assert!(is_critical_root("/home/u", None, Some("/home/u")));
    assert!(!is_critical_root("/home/u/project", None, Some("/home/u")));
}

#[test]
fn scans_pass_what_is_not_wanted() {
    let patterns = vec!["secret".to_string()];
    assert!(!should_descend("/p/node_modules", &patterns, "/p"));
    assert!(!should_descend("/p/VENDOR", &patterns, "/p"));
    assert!(should_descend("/p/src", &patterns, "/p"));
    assert_eq!(
        classify_file("/p/a.rs", &patterns, "/p"),
        FileDecision::Read(SupportedLanguage::Rust)
    );
    assert_eq!(classify_file("/p/a.png", &patterns, "/p"), FileDecision::SkipBinary);
    assert_eq!(classify_file("/p/a.log", &patterns, "/p"), FileDecision::Skip);
    assert_eq!(classify_file("/p/secret", &patterns, "/p"), FileDecision::Skip);
    assert_eq!(indexed_line("/p/a.rs", "Rust", "NativeAST", 3), "Indexed /p/a.rs [Rust / NativeAST] (3 symbols)");
}

#[test]
fn patterns_say_something() {
    assert_eq!(ignore_patterns(None, Some("\n  \n# c\n a \n")), vec!["a".to_string()]);
    assert!(ignore_patterns(None, None).is_empty());
}

// ---------------------------------------------------------------------------
// Watchers
// ---------------------------------------------------------------------------

#[test]
fn changes_are_sent_or_logged() {
    let patterns: Vec<String> = Vec::new();
    let mut state = WatchState::new();
    assert_eq!(
        decide_change(&state, ChangeKind::Modify, "/p/a.rs", true, &patterns, "/p"),
        ChangeAction::Send(WalAction::Upsert)
    );
    assert!(connection_lost(&mut state));
    assert!(!connection_lost(&mut state));
    assert_eq!(
        decide_change(&state, ChangeKind::Create, "/p/a.rs", true, &patterns, "/p"),
        ChangeAction::Log(WalAction::Upsert)
    );
    assert_eq!(
        decide_change(&state, ChangeKind::Remove, "/p/a.rs", false, &patterns, "/p"),
        ChangeAction::Log(WalAction::Delete)
    );
    connection_found(&mut state);
    assert_eq!(
        decide_change(&state, ChangeKind::Remove, "/p/a.rs", false, &patterns, "/p"),
        ChangeAction::Send(WalAction::Delete)
    );
    replay_failed(&mut state);
    assert!(!state.connected && state.reconnecting);
}

#[test]
fn files_of_the_watcher_itself_are_passed() {
    let patterns: Vec<String> = Vec::new();
    let state = WatchState::new();
    for name in ["/p/.gitignore", "/p/.ozymemignore", "/p/.ozymem_wal"] {
        for kind in [ChangeKind::Create, ChangeKind::Modify, ChangeKind::Remove] {
            assert_eq!(
                decide_change(&state, kind, name, true, &patterns, "/p"),
                ChangeAction::Pass
            );
        }
    }
    assert_eq!(
        decide_change(&state, ChangeKind::Other, "/p/a.rs", true, &patterns, "/p"),
        ChangeAction::Pass
    );
    assert!(patterns_changed(&vec!["/p/a.rs".to_string(), "/p/.gitignore".to_string()]));
    assert!(!patterns_changed(&vec!["/p/a.rs".to_string()]));
}

#[test]
fn exactly_the_ignored_files_are_purged() {
    let patterns = vec!["old".to_string()];
    let all = vec!["/p/old/a.rs".to_string(), "/p/b.rs".to_string()];
    assert_eq!(files_to_purge(&all, &patterns, "/p"), vec!["/p/old/a.rs".to_string()]);
    assert!(!should_process_delete("/p/old/a.rs", &patterns, "/p"));
    assert!(should_watch_path("/p/b.rs", true, &patterns, "/p"));
    assert!(!should_watch_path("/p/b", false, &patterns, "/p"));
}

#[test]
fn the_log_is_sent_in_order_and_kept_on_failure() {
    let entries = vec![
        wal_entry(1, WalAction::Upsert, "/p/a.rs"),
        wal_entry(2, WalAction::Upsert, "/p/gone.rs"),
        wal_entry(3, WalAction::Delete, "/p/b.rs"),
    ];
    let mut replay = Replay::new(entries.clone());
    assert_eq!(replay.next_path(), Some("/p/a.rs"));
    assert_eq!(replay.step(true), ReplayStep::Index("/p/a.rs".to_string()));
    replay.advance(true);
    assert_eq!(replay.step(false), ReplayStep::Pass);
    replay.advance(true);
    assert_eq!(replay.step(false), ReplayStep::Delete("/p/b.rs".to_string()));
    replay.advance(true);
    assert_eq!(replay.next_path(), None);
    assert_eq!(replay.step(false), ReplayStep::Clear);

    let mut replay = Replay::new(entries);
    replay.advance(false);
    assert_eq!(replay.step(true), ReplayStep::Retry);
}

#[test]
fn a_change_that_cannot_be_sent_is_logged() {
    let mut state = WatchState::new();
    assert_eq!(after_send(&mut state, WalAction::Upsert, true), (None, false));
    assert!(state.connected);
    assert_eq!(after_send(&mut state, WalAction::Delete, false), (Some(WalAction::Delete), true));
    assert!(!state.connected);
    assert_eq!(
        decide_change(&state, ChangeKind::Modify, "/p/a.rs", true, &[], "/p"),
        ChangeAction::Log(WalAction::Upsert)
    );
    assert_eq!(after_send(&mut state, WalAction::Upsert, false), (Some(WalAction::Upsert), false));
}

#[test]
fn the_graph_is_purged_only_while_it_is_reached() {
    let mut state = WatchState::new();
    let other = vec!["/p/a.rs".to_string()];
    let ignore = vec!["/p/a.rs".to_string(), "/p/.gitignore".to_string()];
    assert_eq!(decide_patterns(&state, &other), PatternAction::Keep);
    assert_eq!(decide_patterns(&state, &ignore), PatternAction::ReloadAndPurge);
    connection_lost(&mut state);
    assert_eq!(decide_patterns(&state, &other), PatternAction::Keep);
    assert_eq!(decide_patterns(&state, &ignore), PatternAction::Reload);
}

#[test]
fn what_is_left_of_a_path_has_its_later_components() {
    for (path, base) in
        [("/a/./b//c.rs", "/a"), ("./x/y/", "."), ("a/b/../c", "a/b"), ("/a", "/a"), ("/", "/")]
    {
        let rest = strip_path_prefix(path, base).unwrap();
        let skipped = components(base).len();
        assert_eq!(components(&rest), components(path)[skipped..].to_vec());
    }
}

#[test]
fn paths_of_windows_are_read_with_slashes() {
    assert_eq!(slashed_path("\\\\?\\C:\\work\\app", true), "C:/work/app");
    assert_eq!(slashed_path("/a\\b", false), "/a\\b");
    let critical = |path: &str| {
        let profile = slashed_path("C:\\Users\\ana", true);
        is_critical_root(&slashed_path(path, true), Some(&profile), None)
    };
    assert!(critical("\\\\?\\C:\\"));
    assert!(critical("C:\\"));
    assert!(critical("\\\\?\\C:\\Users"));
    assert!(critical("\\\\?\\C:\\Users\\Ana"));
    assert!(!critical("\\\\?\\C:\\work"));
    assert!(!critical("C:\\work\\app"));
}
