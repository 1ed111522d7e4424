use ozymem::heuristics::{
    extract_heuristic_blocks, extract_identifier, find_brace_block_end, find_indented_block_end,
    indent_width, parse_declaration, HeuristicStyle,
};
use ozymem::language::{
    DependencyHintKind, ParseStrategy, SupportedLanguage, SymbolKind, PYTHON_SYMBOLS,
};
use ozymem::parser::{
    determine_raw_label, extract_dependency_hints, hints_from_captures, is_binary_file,
    parse_python_source, parse_source, parse_with_heuristics, symbols_from_captures, ParserError,
};
use ozymem::scan::{
    dependency_relations, relation_failure, scan_file, scan_hints, DependencyRelation, ReadOutcome,
    ResolvedHint, ScanOutcome,
};
use ozymem::syntax::SyntaxCapture;
use std::collections::HashSet;

#[test]
fn parses_python_functions_and_classes() {
    let source = r#"class Greeter:
    def greet(self):
        return "hello"


def top_level():
    return Greeter()
"#;

    let result = parse_source("sample.py", SupportedLanguage::Python, source)
        .expect("parser should succeed");

    assert_eq!(result.file_path, "sample.py");
    assert_eq!(result.language, "Python");
    assert_eq!(result.strategy, ParseStrategy::NativeAst);
    assert_eq!(result.functions.len(), 3);
    assert_eq!(result.functions[0].name, "Greeter");
    assert_eq!(result.functions[0].kind, SymbolKind::Class);
    assert_eq!(result.functions[0].start_line, 1);
    assert_eq!(result.functions[0].end_line, 3);

    assert_eq!(result.functions[1].name, "greet");
    assert_eq!(result.functions[1].kind, SymbolKind::Function);
    assert_eq!(result.functions[1].start_line, 2);
    assert_eq!(result.functions[1].end_line, 3);

    assert_eq!(result.functions[2].name, "top_level");
    assert_eq!(result.functions[2].kind, SymbolKind::Function);
    assert_eq!(result.functions[2].start_line, 6);
    assert_eq!(result.functions[2].end_line, 7);
}

#[test]
fn falls_back_to_heuristics_for_unknown_language() {
    let source = r#"func calcular_interes() {
    return 1;
}
"#;

    let result = parse_source("sample.rb", SupportedLanguage::Unknown, source)
        .expect("heuristic parser should succeed");

    assert_eq!(result.language, "rb");
    assert_eq!(result.strategy, ParseStrategy::TextHeuristic);
    assert_eq!(result.functions.len(), 1);
    assert_eq!(result.functions[0].name, "calcular_interes");
    assert_eq!(result.functions[0].kind, SymbolKind::Function);
    assert_eq!(result.functions[0].start_line, 1);
    assert_eq!(result.functions[0].end_line, 3);
}

#[test]
fn parses_rust_symbols_with_native_tree_sitter() {
    let source = r#"pub struct Client {
    id: usize,
}

pub enum Mode {
    A,
}

pub fn connect() {}
"#;

    let result = parse_source("src/lib.rs", SupportedLanguage::Rust, source)
        .expect("rust parser should succeed");

    assert_eq!(result.language, "Rust");
    assert_eq!(result.strategy, ParseStrategy::NativeAst);
    assert!(result.functions.len() >= 2);
    assert!(result.functions.iter().any(|function| function.name == "Mode"));
    assert!(result.functions.iter().any(|function| function.name == "connect"));
}

#[test]
fn extracts_rust_dependency_hints_for_use_and_mod() {
    let source = r#"pub mod router;
mod internal;

use crate::domain::User;
use ozymem_core::MemgraphConnection;
"#;

    let hints = extract_dependency_hints("src/lib.rs", SupportedLanguage::Rust, source)
        .expect("dependency hint extraction should succeed");

    assert_eq!(hints.len(), 4);

    let kinds: HashSet<_> = hints.iter().map(|hint| hint.kind).collect();
    assert!(kinds.contains(&DependencyHintKind::UseDeclaration));
    assert!(kinds.contains(&DependencyHintKind::ModItem));

    let labels: HashSet<_> = hints.iter().map(|hint| hint.label.as_str()).collect();
    assert!(labels.contains("router"));
    assert!(labels.contains("internal"));
    assert!(labels.contains("crate::domain::User"));
    assert!(labels.contains("ozymem_core::MemgraphConnection"));
}

#[test]
fn identifies_binary_files() {
    assert!(is_binary_file("document.pdf"));
    assert!(is_binary_file("archive.tar.gz"));
    assert!(is_binary_file("image.png"));
    assert!(!is_binary_file("source.rs"));
    assert!(!is_binary_file("script.py"));
}

#[test]
fn parses_braces_ignoring_strings_and_comments() {
    let source = r#"func test_escapes() {
            let s = "brace } inside string"; // a comment with { open brace
            /* block comment with } close brace */
            let s2 = "escaped \" quotes }";
        }
"#;
    let lines: Vec<&str> = source.lines().collect();
    let end = find_brace_block_end(&lines, 0);
    assert_eq!(end, 5);
}

#[test]
fn test_parse_python_full_module() {
    let code = r#"
import os
from pathlib import Path

class DataProcessor:
    def __init__(self, config):
        self.config = config
    
    def process(self, data):
        return [self._transform(item) for item in data]
    
    def _transform(self, item):
        return item.upper()

def main():
    processor = DataProcessor({})
    result = processor.process(["hello", "world"])
    print(result)

if __name__ == "__main__":
    main()
"#;
    let result = parse_source("test.py", SupportedLanguage::Python, code).unwrap();
    assert!(!result.functions.is_empty());

    // Should find DataProcessor class (kind: Class)
    let class_names: Vec<&str> = result
        .functions
        .iter()
        .filter(|f| f.kind == SymbolKind::Class)
        .map(|f| f.name.as_str())
        .collect();
    assert!(class_names.contains(&"DataProcessor"));

    // Should find functions (kind: Function)
    let func_names: Vec<&str> = result
        .functions
        .iter()
        .filter(|f| f.kind == SymbolKind::Function)
        .map(|f| f.name.as_str())
        .collect();
    assert!(func_names.contains(&"main"));
    assert!(func_names.contains(&"process"));
    assert!(func_names.contains(&"__init__"));
}

#[test]
fn test_parse_rust_structs_and_impls() {
    let code = r#"
pub struct Config {
    pub name: String,
    pub port: u16,
}

impl Config {
    pub fn new(name: &str, port: u16) -> Self {
        Self { name: name.to_string(), port }
    }
    
    pub fn default() -> Self {
        Self::new("default", 8080)
    }
}

pub enum Status {
    Active,
    Inactive,
}

pub trait Processor {
    fn process(&self) -> bool;
}
"#;
    let result = parse_source("lib.rs", SupportedLanguage::Rust, code).unwrap();
    assert!(!result.functions.is_empty());

    let func_names: Vec<&str> = result
        .functions
        .iter()
        .filter(|f| f.kind == SymbolKind::Function)
        .map(|f| f.name.as_str())
        .collect();
    assert!(func_names.contains(&"new"));
    assert!(func_names.contains(&"default"));
}

#[test]
fn test_parse_javascript_classes() {
    let code = r#"
class HttpClient {
    constructor(baseUrl) {
        this.baseUrl = baseUrl;
    }
    
    async get(path) {
        const response = await fetch(`${this.baseUrl}${path}`);
        return response.json();
    }
    
    async post(path, data) {
        return fetch(`${this.baseUrl}${path}`, {
            method: 'POST',
            body: JSON.stringify(data)
        });
    }
}

function createClient(url) {
    return new HttpClient(url);
}
"#;
    let result = parse_source("index.js", SupportedLanguage::JavaScript, code).unwrap();
    assert!(!result.functions.is_empty());

    let func_names: Vec<&str> = result
        .functions
        .iter()
        .filter(|f| f.kind == SymbolKind::Function)
        .map(|f| f.name.as_str())
        .collect();
    assert!(func_names.contains(&"createClient"));
}

#[test]
fn test_binary_detection() {
    assert!(!is_binary_file("/tmp/dir/test.txt"));
    assert!(is_binary_file("/tmp/dir/test.bin"));
}

#[test]
fn test_empty_source() {
    let result = parse_source("empty.py", SupportedLanguage::Python, "").unwrap();
    assert!(result.functions.is_empty());
}

#[test]
fn test_go_functions() {
    let code = r#"
package main

import "fmt"

func main() {
    fmt.Println("Hello, World!")
}

func add(a, b int) int {
    return a + b
}

type Server struct {
    addr string
    port int
}

func (s *Server) Listen() error {
    return nil
}
"#;
    let result = parse_source("main.go", SupportedLanguage::Go, code).unwrap();
    assert!(!result.functions.is_empty());

    let func_names: Vec<&str> = result
        .functions
        .iter()
        .filter(|f| f.kind == SymbolKind::Function)
        .map(|f| f.name.as_str())
        .collect();
    assert!(func_names.contains(&"main"));
    assert!(func_names.contains(&"add"));
}

#[test]
fn test_parse_returns_file_path() {
    let code = "def hello(): pass";
    let result = parse_source("hello.py", SupportedLanguage::Python, code).unwrap();
    assert_eq!(result.file_path, "hello.py");
}

#[test]
fn test_parse_returns_language() {
    let code = "def hello(): pass";
    let result = parse_source("hello.py", SupportedLanguage::Python, code).unwrap();
    assert_eq!(result.language, "Python");
}

#[test]
fn scans_python_file_in_temporary_directory() {
    let source = "class Sample:\n    def hello(self):\n        return 1\n";
    let parsed = parse_source("/tmp/ozymem-cli-test/sample.py", SupportedLanguage::Python, source)
        .expect("parser should succeed");
    assert_eq!(parsed.functions.len(), 2);
}

// ---------------------------------------------------------------------------
// Heuristics
// ---------------------------------------------------------------------------

#[test]
fn declarations_are_known_by_their_first_words() {
    assert_eq!(
        parse_declaration("def hello(name):"),
        Some(("hello".to_string(), SymbolKind::Function, HeuristicStyle::Indentation))
    );
    assert_eq!(
        parse_declaration("func hello() {"),
        Some(("hello".to_string(), SymbolKind::Function, HeuristicStyle::Brace))
    );
    assert_eq!(parse_declaration("let x = 1;"), None);
    assert_eq!(parse_declaration(""), None);
}

#[test]
fn identifiers_end_at_the_first_other_character() {
    assert_eq!(extract_identifier("calcular_interes() {"), "calcular_interes");
    assert_eq!(extract_identifier("("), "");
}

#[test]
fn a_block_without_a_closing_brace_is_one_line() {
    let lines = vec!["fn a() {", "    let x = 1;"];
    assert_eq!(find_brace_block_end(&lines, 0), 1);
}

#[test]
fn braces_in_single_quotes_and_line_comments_do_not_count() {
    let lines = vec!["fn a() {", "    let c = '}'; // }", "}", "fn b() {}"];
    assert_eq!(find_brace_block_end(&lines, 0), 3);
    assert_eq!(find_brace_block_end(&lines, 3), 4);
}

#[test]
fn a_block_comment_may_span_lines() {
    let lines = vec!["fn a() { /* }", "} */", "}"];
    assert_eq!(find_brace_block_end(&lines, 0), 3);
}

#[test]
fn indented_blocks_end_before_the_next_line_that_is_not_deeper() {
    let lines = vec!["def a():", "    x = 1", "", "    y = 2", "z = 3"];
    assert_eq!(find_indented_block_end(&lines, 0), 4);
    assert_eq!(indent_width("    y"), 4);
    assert_eq!(indent_width("y"), 0);
}

#[test]
fn heuristic_blocks_are_in_order_and_within_the_text() {
    let source = "def a():\n    return 1\n\nfunc b() {\n}\n";
    let blocks = extract_heuristic_blocks(source);
    let names: Vec<&str> = blocks.iter().map(|b| b.name.as_str()).collect();
    assert_eq!(names, vec!["a", "b"]);
    assert_eq!((blocks[0].start_line, blocks[0].end_line), (1, 2));
    assert_eq!((blocks[1].start_line, blocks[1].end_line), (4, 5));
}

#[test]
fn raw_labels_are_extensions_in_lower_case() {
    assert_eq!(determine_raw_label("a/b.RB"), "rb");
    assert_eq!(determine_raw_label("a/b"), "unknown");
    let map = parse_with_heuristics("x.sql", SupportedLanguage::SQL, "");
    assert_eq!(map.language, "SQL");
}

// ---------------------------------------------------------------------------
// Captures
// ---------------------------------------------------------------------------

fn capture(name: &str, kind: &str, text: Option<&str>, start: u32, end: u32) -> SyntaxCapture {
    SyntaxCapture {
        name: name.to_string(),
        kind: kind.to_string(),
        text: text.map(|t| t.to_string()),
        start_row: start,
        end_row: end,
    }
}

#[test]
fn symbols_come_from_complete_matches_only() {
    let matches = vec![
        vec![
            capture("symbol.name", "identifier", Some("run"), 3, 3),
            capture("symbol.definition", "function_definition", Some("def run"), 3, 7),
        ],
        vec![capture("symbol.name", "identifier", Some("lost"), 9, 9)],
        vec![
            capture("symbol.definition", "class_definition", None, 0, 1),
            capture("symbol.name", "identifier", Some("Box"), 0, 0),
        ],
    ];
    let symbols = symbols_from_captures(&matches);
    assert_eq!(symbols.len(), 2);
    assert_eq!(symbols[0].name, "run");
    assert_eq!(symbols[0].kind, SymbolKind::Function);
    assert_eq!((symbols[0].start_line, symbols[0].end_line), (4, 8));
    assert_eq!(symbols[1].name, "Box");
    assert_eq!(symbols[1].kind, SymbolKind::Class);
}

#[test]
fn hints_need_a_label_and_a_text() {
    let matches = vec![
        vec![
            capture("dependency.definition", "use_declaration", Some("use a::b;"), 0, 0),
            capture("dependency.label", "scoped_identifier", Some("a::b"), 0, 0),
        ],
        vec![capture("dependency.definition", "mod_item", Some("mod c;"), 1, 1)],
    ];
    let hints = hints_from_captures("src/lib.rs", &matches);
    assert_eq!(hints.len(), 1);
    assert_eq!(hints[0].file_path, "src/lib.rs");
    assert_eq!(hints[0].kind, DependencyHintKind::UseDeclaration);
    assert_eq!(hints[0].label, "a::b");
    assert_eq!(hints[0].raw_text, "use a::b;");
    assert_eq!((hints[0].start_line, hints[0].end_line), (1, 1));
}

#[test]
fn languages_without_a_dependency_query_have_no_hints() {
    let hints = extract_dependency_hints("a.py", SupportedLanguage::Python, "import os\n").unwrap();
    assert!(hints.is_empty());
    assert_eq!(SupportedLanguage::Python.query_pattern(), Some(PYTHON_SYMBOLS));
    assert_eq!(SupportedLanguage::SQL.query_pattern(), None);
}

#[test]
fn parser_errors_have_messages() {
    assert_eq!(ParserError::ParseFailed.message(), "could not parse source code into an AST");
}

#[test]
fn python_is_read_by_its_grammar() {
    let map = parse_python_source("a.py", "def f():\n    pass\n").unwrap();
    assert_eq!(map.strategy, ParseStrategy::NativeAst);
    assert_eq!(map.functions[0].name, "f");
}

#[test]
fn a_source_is_read_alike_each_time() {
    let python = "def año():\n    return 'ñ'\n";
    let first = parse_python_source("a.py", python).unwrap();
    assert_eq!(first.functions.len(), 1);
    assert_eq!(first.functions[0].name, "año");
    assert_eq!(parse_python_source("a.py", python).unwrap(), first);
    let rust = "use crate::a::B;\nfn run() {}\n";
    let hints = extract_dependency_hints("a.rs", SupportedLanguage::Rust, rust).unwrap();
    assert_eq!(hints.len(), 1);
    let again = extract_dependency_hints("a.rs", SupportedLanguage::Rust, rust).unwrap();
    assert_eq!(again, hints);
}

// ---------------------------------------------------------------------------
// Scans
// ---------------------------------------------------------------------------

#[test]
fn a_scan_indexes_text_and_says_so() {
    let outcome = scan_file(
        "lib.rs",
        "/p/lib.rs",
        SupportedLanguage::Rust,
        ReadOutcome::Source("mod a;\npub fn f() {}\n".to_string()),
    );
    match outcome {
        ScanOutcome::Indexed { map, said, hints, warning } => {
            assert_eq!(map.file_path, "/p/lib.rs");
            assert_eq!(said, "Indexed /p/lib.rs [Rust / NativeAST] (1 symbols)");
            assert_eq!(hints.len(), 1);
            assert_eq!(hints[0].label, "a");
            assert_eq!(warning, None);
        }
        other => panic!("unexpected outcome: {:?}", other),
    }
}

#[test]
fn a_scan_passes_what_cannot_be_read() {
    assert_eq!(
        scan_file("a.py", "/p/a.py", SupportedLanguage::Python, ReadOutcome::NotText),
        ScanOutcome::Skipped("Skipped binary/non-UTF8 file: a.py".to_string())
    );
    assert_eq!(
        scan_file(
            "a.py",
            "/p/a.py",
            SupportedLanguage::Python,
            ReadOutcome::Failed("denied".to_string())
        ),
        ScanOutcome::Failed("Failed to read a.py: denied".to_string())
    );
    assert_eq!(scan_hints("a.go", SupportedLanguage::Go, "package a"), (Vec::new(), None));
}

#[test]
fn escaped_quotes_do_not_end_a_string() {
    let lines = ["function f() {", "  let s = \"a \\\" } b\";", "}"];
    assert_eq!(find_brace_block_end(&lines, 0), 3);
    let lines = ["function f() {", "  let s = \"a \\\\\"; }", "}"];
    assert_eq!(find_brace_block_end(&lines, 0), 2);
}

#[test]
fn a_file_depends_on_what_its_hints_lead_to() {
    let hint = |internal: bool, target: Option<&str>| ResolvedHint {
        internal,
        target: target.map(|t| t.to_string()),
    };
    let hints = vec![
        hint(true, Some("/p/src/a.rs")),
        hint(false, Some("/p/src/b.rs")),
        hint(true, None),
        hint(true, Some("\\\\?\\C:\\p\\c.rs")),
    ];
    let relation = |target: &str, destination: &str| DependencyRelation {
        origin: "/p/src/lib.rs".to_string(),
        target: target.to_string(),
        destination: destination.to_string(),
    };
    assert_eq!(
        dependency_relations("/p/src/lib.rs", &hints),
        vec![
            relation("/p/src/a.rs", "/p/src/a.rs"),
            relation("\\\\?\\C:\\p\\c.rs", "C:\\p\\c.rs"),
        ]
    );
    assert_eq!(
        relation_failure("/a.rs", "/b.rs", "gone"),
        "Failed to persist dependency /a.rs -> /b.rs: gone"
    );
}

#[test]
fn languages_with_a_grammar_are_read_by_it() {
    let sources = [
        (SupportedLanguage::Python, "def f():\n    pass\n", "f"),
        (SupportedLanguage::Go, "package p\nfunc F() {}\n", "F"),
        (SupportedLanguage::Rust, "fn f() {}\n", "f"),
        (SupportedLanguage::JavaScript, "function f() {}\n", "f"),
    ];
    for (language, source, name) in sources {
        let map = parse_source("file", language, source).unwrap();
        assert_eq!(map.strategy, ParseStrategy::NativeAst);
        assert_eq!(map.functions.len(), 1);
        assert_eq!(map.functions[0].name, name);
        let broken = parse_source("file", language, "}} ((").unwrap();
        assert_eq!(broken.strategy, ParseStrategy::NativeAst);
    }
}
