//! From source text to symbols and dependency hints: by the syntax tree where a
//! grammar is at hand, by heuristics where it is not.

use crate::heuristics;
use crate::heuristics::extract_heuristic_blocks;
use crate::language::{
    hint_kind_for, symbol_kind_for, DefinitionsModel, DependencyHintKind, ExtractedFunction,
    FileDefinitionMap, FunctionModel, HintModel, NativeGrammar, ParseStrategy,
    ParsedDependencyHint, SupportedLanguage, SymbolKind,
};
use crate::language;
use crate::paths;
use crate::paths::extension;
use crate::syntax;
use crate::syntax::{
    build_query, captures, configure_parser, load_grammar, parse_text, CaptureModel,
    LoadedGrammar, SyntaxCapture,
};
use crate::text;
use crate::text::{finishes_with, lowercase, same_text, to_ascii_lowercase};
use vstd::prelude::*;

verus! {

/// Why a source text could not be read by its grammar.
#[derive(Debug)]
pub enum ParserError {
    ConfigureParser(tree_sitter::LanguageError),
    BuildQuery(tree_sitter::QueryError),
    ParseFailed,
}

/// The kind of a `ParserError`.
pub enum ParserFailure {
    ConfigureParser,
    BuildQuery,
    ParseFailed,
}

impl ParserError {
    pub open spec fn failure(self) -> ParserFailure {
        match self {
            ParserError::ConfigureParser(_) => ParserFailure::ConfigureParser,
            ParserError::BuildQuery(_) => ParserFailure::BuildQuery,
            ParserError::ParseFailed => ParserFailure::ParseFailed,
        }
    }

    /// The error in words.
    pub fn message(&self) -> (r: String)
        ensures
            r@ == match self.failure() {
                ParserFailure::ConfigureParser => "failed to configure parser"@,
                ParserFailure::BuildQuery => "failed to build Tree-sitter query"@,
                ParserFailure::ParseFailed => "could not parse source code into an AST"@,
            },
    {
        match self {
            ParserError::ConfigureParser(_) => "failed to configure parser".to_string(),
            ParserError::BuildQuery(_) => "failed to build Tree-sitter query".to_string(),
            ParserError::ParseFailed => "could not parse source code into an AST".to_string(),
        }
    }
}

impl SupportedLanguage {
    /// The grammar of the language, loaded, if it comes with the library.
    pub fn native_tree_sitter_language(self) -> (r: Option<LoadedGrammar>)
        ensures
            match r {
                Some(grammar) => self.native_grammar() == Some(grammar@),
                None => self.native_grammar() is None,
            },
    {
        match self {
            SupportedLanguage::Python => Some(load_grammar(NativeGrammar::Python)),
            SupportedLanguage::Go => Some(load_grammar(NativeGrammar::Go)),
            SupportedLanguage::Rust => Some(load_grammar(NativeGrammar::Rust)),
            SupportedLanguage::JavaScript => Some(load_grammar(NativeGrammar::JavaScript)),
            SupportedLanguage::TypeScriptReact | SupportedLanguage::SQL
            | SupportedLanguage::Unknown => None,
        }
    }
}

// ---------------------------------------------------------------------------
// From captures to symbols
// ---------------------------------------------------------------------------

/// The line, counted from 1, that a row counted from 0 is. The greatest number
/// that fits stands for what is beyond it.
pub open spec fn line_of_row(row: nat) -> nat {
    if row < usize::MAX {
        row + 1
    } else {
        row
    }
}

fn line_number(row: u32) -> (r: usize)
    ensures
        r == line_of_row(row as nat),
{
    (row as usize).saturating_add(1)
}

/// What the captures of one match say of a symbol.
#[verifier::ext_equal]
pub struct SymbolParts {
    pub name: Option<Seq<char>>,
    pub definition: Option<(SymbolKind, nat, nat)>,
}

/// The name is the text captured as `symbol.name`, and the kind and the lines
/// are those of the node captured as `symbol.definition`; a capture without a
/// text, or of a node of another kind, says nothing, and a later one wins.
pub open spec fn symbol_parts(captured: Seq<CaptureModel>) -> SymbolParts
    decreases captured.len(),
{
    if captured.len() == 0 {
        SymbolParts { name: None, definition: None }
    } else {
        let before = symbol_parts(captured.drop_last());
        let c = captured.last();
        if c.name == "symbol.name"@ {
            if c.text is Some {
                SymbolParts { name: c.text, ..before }
            } else {
                before
            }
        } else if c.name == "symbol.definition"@ {
            match language::symbol_kind_of_node(c.kind) {
                Some(kind) => SymbolParts {
                    definition: Some((kind, line_of_row(c.start_row), line_of_row(c.end_row))),
                    ..before
                },
                None => before,
            }
        } else {
            before
        }
    }
}

/// The symbol that a match finds, if both its parts were captured.
pub open spec fn symbol_of(captured: Seq<CaptureModel>) -> Option<FunctionModel> {
    let parts = symbol_parts(captured);
    match (parts.name, parts.definition) {
        (Some(name), Some((kind, start_line, end_line))) => Some(
            FunctionModel { name, kind, start_line, end_line },
        ),
        _ => None,
    }
}

/// The symbols of all matches, in their order.
pub open spec fn symbols_of(matches: Seq<Seq<CaptureModel>>) -> Seq<FunctionModel>
    decreases matches.len(),
{
    if matches.len() == 0 {
        Seq::empty()
    } else {
        match symbol_of(matches.last()) {
            Some(symbol) => symbols_of(matches.drop_last()).push(symbol),
            None => symbols_of(matches.drop_last()),
        }
    }
}

fn copy_text(source: &Option<String>) -> (r: Option<String>)
    ensures
        r.deep_view() == source.deep_view(),
{
    match source {
        Some(s) => Some(s.as_str().to_string()),
        None => None,
    }
}

fn symbol_from_captures(captured: &Vec<SyntaxCapture>) -> (r: Option<ExtractedFunction>)
    ensures
        r.deep_view() == symbol_of(captured.deep_view()),
{
    let ghost all = captured.deep_view();
    let mut name: Option<String> = None;
    let mut definition: Option<(SymbolKind, usize, usize)> = None;
    let mut i: usize = 0;
    while i < captured.len()
        invariant
            i <= captured@.len(),
            all == captured.deep_view(),
            name.deep_view() == symbol_parts(all.take(i as int)).name,
            match definition {
                Some((kind, start, end)) => symbol_parts(all.take(i as int)).definition == Some(
                    (kind, start as nat, end as nat),
                ),
                None => symbol_parts(all.take(i as int)).definition is None,
            },
        decreases captured@.len() - i,
    {
        let c = &captured[i];
        proof {
            assert(all.take(i + 1).drop_last() == all.take(i as int));
            assert(all.take(i + 1).last() == c.deep_view());
        }
        if same_text(c.name.as_str(), "symbol.name") {
            if c.text.is_some() {
                name = copy_text(&c.text);
            }
        } else if same_text(c.name.as_str(), "symbol.definition") {
            if let Some(kind) = symbol_kind_for(c.kind.as_str()) {
                definition = Some((kind, line_number(c.start_row), line_number(c.end_row)));
            }
        }
        i += 1;
    }
    assert(all.take(i as int) == all);
    match (name, definition) {
        (Some(name), Some((kind, start_line, end_line))) => Some(
            ExtractedFunction { name, kind, start_line, end_line },
        ),
        _ => None,
    }
}

/// The symbols that the captures of the matches of a symbol query tell of.
pub fn symbols_from_captures(matches: &Vec<Vec<SyntaxCapture>>) -> (r: Vec<ExtractedFunction>)
    ensures
        r.deep_view() == symbols_of(matches.deep_view()),
{
    let ghost all = matches.deep_view();
    let mut out: Vec<ExtractedFunction> = Vec::new();
    let mut i: usize = 0;
    while i < matches.len()
        invariant
            i <= matches@.len(),
            all == matches.deep_view(),
            out.deep_view() == symbols_of(all.take(i as int)),
        decreases matches@.len() - i,
    {
        proof {
            assert(all.take(i + 1).drop_last() == all.take(i as int));
            assert(all.take(i + 1).last() == matches@[i as int].deep_view());
        }
        let ghost before = out.deep_view();
        if let Some(symbol) = symbol_from_captures(&matches[i]) {
            out.push(symbol);
            assert(out.deep_view() == before.push(symbol.deep_view()));
        }
        i += 1;
    }
    assert(all.take(i as int) == all);
    out
}

// ---------------------------------------------------------------------------
// From captures to dependency hints
// ---------------------------------------------------------------------------

/// What the captures of one match say of a dependency hint.
#[verifier::ext_equal]
pub struct HintParts {
    pub label: Option<Seq<char>>,
    pub raw_text: Option<Seq<char>>,
    pub definition: Option<(DependencyHintKind, nat, nat)>,
}

/// The label is the text captured as `dependency.label`, and the rest comes from
/// the node captured as `dependency.definition`; a node of another kind says
/// nothing, and a later capture wins.
pub open spec fn hint_parts(captured: Seq<CaptureModel>) -> HintParts
    decreases captured.len(),
{
    if captured.len() == 0 {
        HintParts { label: None, raw_text: None, definition: None }
    } else {
        let before = hint_parts(captured.drop_last());
        let c = captured.last();
        if c.name == "dependency.definition"@ {
            match language::hint_kind_of_node(c.kind) {
                Some(kind) => HintParts {
                    raw_text: c.text,
                    definition: Some((kind, line_of_row(c.start_row), line_of_row(c.end_row))),
                    ..before
                },
                None => before,
            }
        } else if c.name == "dependency.label"@ {
            HintParts { label: c.text, ..before }
        } else {
            before
        }
    }
}

/// The hint that a match finds, if all its parts were captured.
pub open spec fn hint_of(file_path: Seq<char>, captured: Seq<CaptureModel>) -> Option<HintModel> {
    let parts = hint_parts(captured);
    match (parts.label, parts.raw_text, parts.definition) {
        (Some(label), Some(raw_text), Some((kind, start_line, end_line))) => Some(
            HintModel { file_path, kind, label, raw_text, start_line, end_line },
        ),
        _ => None,
    }
}

/// The hints of all matches, in their order.
pub open spec fn hints_of(file_path: Seq<char>, matches: Seq<Seq<CaptureModel>>) -> Seq<HintModel>
    decreases matches.len(),
{
    if matches.len() == 0 {
        Seq::empty()
    } else {
        match hint_of(file_path, matches.last()) {
            Some(hint) => hints_of(file_path, matches.drop_last()).push(hint),
            None => hints_of(file_path, matches.drop_last()),
        }
    }
}

fn hint_from_captures(file_path: &str, captured: &Vec<SyntaxCapture>) -> (r: Option<
    ParsedDependencyHint,
>)
    ensures
        r.deep_view() == hint_of(file_path@, captured.deep_view()),
{
    let ghost all = captured.deep_view();
    let mut label: Option<String> = None;
    let mut raw_text: Option<String> = None;
    let mut definition: Option<(DependencyHintKind, usize, usize)> = None;
    let mut i: usize = 0;
    while i < captured.len()
        invariant
            i <= captured@.len(),
            all == captured.deep_view(),
            label.deep_view() == hint_parts(all.take(i as int)).label,
            raw_text.deep_view() == hint_parts(all.take(i as int)).raw_text,
            match definition {
                Some((kind, start, end)) => hint_parts(all.take(i as int)).definition == Some(
                    (kind, start as nat, end as nat),
                ),
                None => hint_parts(all.take(i as int)).definition is None,
            },
        decreases captured@.len() - i,
    {
        let c = &captured[i];
        proof {
            assert(all.take(i + 1).drop_last() == all.take(i as int));
            assert(all.take(i + 1).last() == c.deep_view());
        }
        if same_text(c.name.as_str(), "dependency.definition") {
            if let Some(kind) = hint_kind_for(c.kind.as_str()) {
                raw_text = copy_text(&c.text);
                definition = Some((kind, line_number(c.start_row), line_number(c.end_row)));
            }
        } else if same_text(c.name.as_str(), "dependency.label") {
            label = copy_text(&c.text);
        }
        i += 1;
    }
    assert(all.take(i as int) == all);
    match (label, raw_text, definition) {
        (Some(label), Some(raw_text), Some((kind, start_line, end_line))) => Some(
            ParsedDependencyHint {
                file_path: file_path.to_string(),
                kind,
                label,
                raw_text,
                start_line,
                end_line,
            },
        ),
        _ => None,
    }
}

/// The dependency hints that the captures of the matches of a dependency query
/// tell of.
pub fn hints_from_captures(file_path: &str, matches: &Vec<Vec<SyntaxCapture>>) -> (r: Vec<
    ParsedDependencyHint,
>)
    ensures
        r.deep_view() == hints_of(file_path@, matches.deep_view()),
{
    let ghost all = matches.deep_view();
    let mut out: Vec<ParsedDependencyHint> = Vec::new();
    let mut i: usize = 0;
    while i < matches.len()
        invariant
            i <= matches@.len(),
            all == matches.deep_view(),
            out.deep_view() == hints_of(file_path@, all.take(i as int)),
        decreases matches@.len() - i,
    {
        proof {
            assert(all.take(i + 1).drop_last() == all.take(i as int));
            assert(all.take(i + 1).last() == matches@[i as int].deep_view());
        }
        let ghost before = out.deep_view();
        if let Some(hint) = hint_from_captures(file_path, &matches[i]) {
            out.push(hint);
            assert(out.deep_view() == before.push(hint.deep_view()));
        }
        i += 1;
    }
    assert(all.take(i as int) == all);
    out
}

// ---------------------------------------------------------------------------
// Parsing
// ---------------------------------------------------------------------------

/// `result` is what reading a source text by a grammar gives: the symbols that the
/// captures of the language's query hold. It fails for a language without a query,
/// and for one whose query is none for the grammar; the query of a language fits its
/// own grammar.
pub open spec fn native_result(
    file_path: Seq<char>,
    language: SupportedLanguage,
    source_code: Seq<char>,
    grammar: NativeGrammar,
    result: Result<DefinitionsModel, ParserFailure>,
) -> bool {
    match language.symbol_query() {
        None => result == Err::<DefinitionsModel, ParserFailure>(ParserFailure::ParseFailed),
        Some(pattern) => if language.native_grammar() == Some(grammar) || syntax::query_accepted(
            grammar,
            pattern,
        ) {
            exists|found: Seq<Seq<CaptureModel>>| #[trigger]
                syntax::captures_are(found, (grammar, pattern), (grammar, source_code)) && result
                    == Ok::<DefinitionsModel, ParserFailure>(
                    DefinitionsModel {
                        file_path,
                        language: language.label(),
                        strategy: ParseStrategy::NativeAst,
                        functions: symbols_of(found),
                    },
                )
        } else {
            result == Err::<DefinitionsModel, ParserFailure>(ParserFailure::BuildQuery)
        },
    }
}

/// Reads the symbols of a source text by a grammar.
pub fn parse_with_tree_sitter(
    file_path: &str,
    language: SupportedLanguage,
    source_code: &str,
    ts_language: LoadedGrammar,
) -> (r: Result<FileDefinitionMap, ParserError>)
    ensures
        native_result(
            file_path@,
            language,
            source_code@,
            ts_language@,
            match r {
                Ok(map) => Ok(map.deep_view()),
                Err(e) => Err(e.failure()),
            },
        ),
{
    let parser = match configure_parser(&ts_language) {
        Ok(parser) => parser,
        Err(e) => {
            return Err(ParserError::ConfigureParser(e));
        },
    };
    let pattern = match language.query_pattern() {
        Some(pattern) => pattern,
        None => {
            return Err(ParserError::ParseFailed);
        },
    };
    let tree = match parse_text(parser, source_code) {
        Some(tree) => tree,
        None => {
            return Err(ParserError::ParseFailed);
        },
    };
    let query = match build_query(&ts_language, pattern) {
        Ok(query) => query,
        Err(e) => {
            return Err(ParserError::BuildQuery(e));
        },
    };
    let found = captures(&query, &tree);
    assert(syntax::captures_are(found.deep_view(), query@, tree@));
    Ok(
        FileDefinitionMap {
            file_path: file_path.to_string(),
            language: language.as_str().to_string(),
            strategy: ParseStrategy::NativeAst,
            functions: symbols_from_captures(&found),
        },
    )
}

/// `hints` are the dependency hints of a source text: those that the captures of the
/// language's dependency query hold. A language without a grammar or without a
/// dependency query has none.
pub open spec fn hints_found(
    file_path: Seq<char>,
    language: SupportedLanguage,
    source_code: Seq<char>,
    hints: Seq<HintModel>,
) -> bool {
    match (language.native_grammar(), language.dependency_query()) {
        (Some(grammar), Some(pattern)) => exists|found: Seq<Seq<CaptureModel>>| #[trigger]
            syntax::captures_are(found, (grammar, pattern), (grammar, source_code)) && hints
                == hints_of(file_path, found),
        _ => hints == Seq::<HintModel>::empty(),
    }
}

/// Reads the dependency hints of a source text. A language without a grammar or
/// without a dependency query has none.
pub fn extract_dependency_hints(
    file_path: &str,
    language: SupportedLanguage,
    source_code: &str,
) -> (r: Result<Vec<ParsedDependencyHint>, ParserError>)
    ensures
        r is Ok,
        hints_found(file_path@, language, source_code@, r->Ok_0.deep_view()),
{
    let none: Vec<ParsedDependencyHint> = Vec::new();
    assert(none.deep_view() == Seq::<HintModel>::empty());
    let ts_language = match language.native_tree_sitter_language() {
        Some(ts_language) => ts_language,
        None => {
            return Ok(none);
        },
    };
    let pattern = match language.dependency_query_pattern() {
        Some(pattern) => pattern,
        None => {
            return Ok(none);
        },
    };
    let parser = match configure_parser(&ts_language) {
        Ok(parser) => parser,
        Err(e) => {
            return Err(ParserError::ConfigureParser(e));
        },
    };
    let tree = match parse_text(parser, source_code) {
        Some(tree) => tree,
        None => {
            return Err(ParserError::ParseFailed);
        },
    };
    let query = match build_query(&ts_language, pattern) {
        Ok(query) => query,
        Err(e) => {
            return Err(ParserError::BuildQuery(e));
        },
    };
    let found = captures(&query, &tree);
    assert(syntax::captures_are(found.deep_view(), query@, tree@));
    Ok(hints_from_captures(file_path, &found))
}

/// The label of a file in no known language: its extension, if it has one.
pub open spec fn raw_label(file_path: Seq<char>) -> Seq<char> {
    match paths::extension_of(file_path) {
        Some(e) => if e.len() > 0 {
            text::ascii_lowercase(e)
        } else {
            "unknown"@
        },
        None => "unknown"@,
    }
}

/// The label of a file in no known language: its extension, in lower case.
pub fn determine_raw_label(file_path: &str) -> (r: String)
    ensures
        r@ == raw_label(file_path@),
{
    match extension(file_path) {
        Some(e) => {
            if e.as_str().is_empty() {
                "unknown".to_string()
            } else {
                to_ascii_lowercase(e.as_str())
            }
        },
        None => "unknown".to_string(),
    }
}

/// `map` is what heuristics find in a source text.
pub open spec fn heuristic_result(
    file_path: Seq<char>,
    language: SupportedLanguage,
    source_code: Seq<char>,
    map: DefinitionsModel,
) -> bool {
    &&& map.file_path == file_path
    &&& map.language == if language == SupportedLanguage::Unknown {
        raw_label(file_path)
    } else {
        language.label()
    }
    &&& map.strategy == ParseStrategy::TextHeuristic
    &&& heuristics::declarations_of(
        text::lines_of(source_code),
        text::lines_of(source_code).len() as int,
        map.functions,
    )
}

/// Finds the symbols of a source text by heuristics.
pub fn parse_with_heuristics(
    file_path: &str,
    language: SupportedLanguage,
    source_code: &str,
) -> (r: FileDefinitionMap)
    ensures
        heuristic_result(file_path@, language, source_code@, r.deep_view()),
{
    let functions = extract_heuristic_blocks(source_code);
    let label = match language {
        SupportedLanguage::Unknown => determine_raw_label(file_path),
        _ => language.as_str().to_string(),
    };
    FileDefinitionMap {
        file_path: file_path.to_string(),
        language: label,
        strategy: ParseStrategy::TextHeuristic,
        functions,
    }
}

/// `map` is what reading a source text gives: by the grammar of its language, if
/// there is one, and by heuristics otherwise.
pub open spec fn source_result(
    file_path: Seq<char>,
    language: SupportedLanguage,
    source_code: Seq<char>,
    map: DefinitionsModel,
) -> bool {
    match language.native_grammar() {
        Some(grammar) => native_result(file_path, language, source_code, grammar, Ok(map)),
        None => heuristic_result(file_path, language, source_code, map),
    }
}

/// Reads the symbols of a source text. Never fails: where there is no grammar,
/// heuristics find them.
pub fn parse_source(file_path: &str, language: SupportedLanguage, source_code: &str) -> (r: Result<
    FileDefinitionMap,
    ParserError,
>)
    ensures
        r is Ok,
        source_result(file_path@, language, source_code@, r->Ok_0.deep_view()),
        language.native_grammar() is Some ==> r->Ok_0.strategy == ParseStrategy::NativeAst,
{
    if let Some(ts_language) = language.native_tree_sitter_language() {
        if let Ok(map) = parse_with_tree_sitter(file_path, language, source_code, ts_language) {
            return Ok(map);
        }
    }
    Ok(parse_with_heuristics(file_path, language, source_code))
}

/// Reads the symbols of a source text in Python.
pub fn parse_python_source(file_path: &str, source_code: &str) -> (r: Result<
    FileDefinitionMap,
    ParserError,
>)
    ensures
        r is Ok,
        source_result(file_path@, SupportedLanguage::Python, source_code@, r->Ok_0.deep_view()),
        r->Ok_0.strategy == ParseStrategy::NativeAst,
{
    parse_source(file_path, SupportedLanguage::Python, source_code)
}

/// Every result keeps the path that was given and says how it was found: a language
/// is read natively exactly if it has a grammar.
pub proof fn law_source_result_labels(
    file_path: Seq<char>,
    language: SupportedLanguage,
    source_code: Seq<char>,
    map: DefinitionsModel,
)
    requires
        source_result(file_path, language, source_code, map),
    ensures
        map.file_path == file_path,
        map.strategy == if language.native_grammar() is Some {
            ParseStrategy::NativeAst
        } else {
            ParseStrategy::TextHeuristic
        },
        language != SupportedLanguage::Unknown ==> map.language == language.label(),
{
}

/// Reading a source text of a language with a grammar twice gives the same symbols
/// and the same dependency hints, on any two machines, if its syntax tree is the same
/// on every machine.
pub proof fn law_steady_sources_have_one_result(
    file_path: Seq<char>,
    language: SupportedLanguage,
    source_code: Seq<char>,
    maps: (DefinitionsModel, DefinitionsModel),
    hints: (Seq<HintModel>, Seq<HintModel>),
)
    requires
        language.native_grammar() matches Some(grammar) && syntax::steady(grammar, source_code),
        source_result(file_path, language, source_code, maps.0),
        source_result(file_path, language, source_code, maps.1),
        hints_found(file_path, language, source_code, hints.0),
        hints_found(file_path, language, source_code, hints.1),
    ensures
        maps.0 == maps.1,
        hints.0 == hints.1,
{
}

// ---------------------------------------------------------------------------
// Binary files
// ---------------------------------------------------------------------------

pub open spec fn binary_extension(e: Seq<char>) -> bool {
    e == "pdf"@ || e == "rar"@ || e == "zip"@ || e == "jpeg"@ || e == "jpg"@ || e == "png"@ || e
        == "exe"@ || e == "gif"@ || e == "ico"@ || e == "bin"@ || e == "tar"@ || e == "gz"@ || e
        == "7z"@
}

/// The name of the file says that it is not text.
pub open spec fn binary_path(path: Seq<char>) -> bool {
    text::ends_with(text::unicode_lowercase(path), ".tar.gz"@) || match paths::extension_of(path) {
        Some(e) => binary_extension(text::unicode_lowercase(e)),
        None => false,
    }
}

/// Whether the name of a file says that it is not text.
pub fn is_binary_file(path: &str) -> (r: bool)
    ensures
        r == binary_path(path@),
{
    if finishes_with(lowercase(path).as_str(), ".tar.gz") {
        return true;
    }
    match extension(path) {
        Some(e) => {
            let e = lowercase(e.as_str());
            let e = e.as_str();
            same_text(e, "pdf") || same_text(e, "rar") || same_text(e, "zip") || same_text(e, "jpeg") || same_text(e, "jpg") || same_text(e, "png") || same_text(e, "exe") || same_text(e, "gif") || same_text(e, "ico") || same_text(e, "bin") || same_text(e, "tar") || same_text(e, "gz") || same_text(e, "7z")
        },
        None => false,
    }
}

/// The capture tells the name of a symbol.
spec fn tells_name(c: CaptureModel) -> bool {
    c.name == "symbol.name"@ && c.text is Some
}

/// The capture tells the kind and the lines of a symbol.
spec fn tells_extent(c: CaptureModel) -> bool {
    c.name == "symbol.definition"@ && language::symbol_kind_of_node(c.kind) is Some
}

proof fn lemma_symbol_parts(captured: Seq<CaptureModel>)
    ensures
        symbol_parts(captured).name is None ==> forall|k: int|
            0 <= k < captured.len() ==> !tells_name(#[trigger] captured[k]),
        symbol_parts(captured).name matches Some(name) ==> exists|i: int|
            0 <= i < captured.len() && tells_name(#[trigger] captured[i]) && captured[i].text
                == Some(name) && forall|k: int|
                i < k < captured.len() ==> !tells_name(#[trigger] captured[k]),
        symbol_parts(captured).definition is None ==> forall|k: int|
            0 <= k < captured.len() ==> !tells_extent(#[trigger] captured[k]),
        symbol_parts(captured).definition matches Some((kind, start, end)) ==> exists|i: int|
            0 <= i < captured.len() && tells_extent(#[trigger] captured[i])
                && language::symbol_kind_of_node(captured[i].kind) == Some(kind) && start
                == line_of_row(captured[i].start_row) && end == line_of_row(captured[i].end_row)
                && forall|k: int| i < k < captured.len() ==> !tells_extent(#[trigger] captured[k]),
    decreases captured.len(),
{
    if captured.len() > 0 {
        let rest = captured.drop_last();
        let last = captured.len() - 1;
        lemma_symbol_parts(rest);
        lemma_part_names();
        assert(forall|k: int| 0 <= k < last ==> #[trigger] rest[k] == captured[k]);
        if symbol_parts(captured).name is Some {
            if tells_name(captured[last]) {
            } else {
                let i = choose|i: int|
                    0 <= i < rest.len() && tells_name(#[trigger] rest[i]) && rest[i].text
                        == symbol_parts(rest).name && forall|k: int|
                        i < k < rest.len() ==> !tells_name(#[trigger] rest[k]);
                assert(tells_name(captured[i]));
                assert forall|k: int| i < k < captured.len() implies !tells_name(
                    #[trigger] captured[k],
                ) by {
                    if k < last {
                        assert(!tells_name(rest[k]));
                    }
                }
            }
        } else {
            assert forall|k: int| 0 <= k < captured.len() implies !tells_name(
                #[trigger] captured[k],
            ) by {
                if k < last {
                    assert(!tells_name(rest[k]));
                }
            }
        }
        if let Some((kind, start, end)) = symbol_parts(captured).definition {
            if !tells_extent(captured[last]) {
                let i = choose|i: int|
                    0 <= i < rest.len() && tells_extent(#[trigger] rest[i])
                        && language::symbol_kind_of_node(rest[i].kind) == Some(kind) && start
                        == line_of_row(rest[i].start_row) && end == line_of_row(rest[i].end_row)
                        && forall|k: int|
                        i < k < rest.len() ==> !tells_extent(#[trigger] rest[k]);
                assert(tells_extent(captured[i]));
                assert forall|k: int| i < k < captured.len() implies !tells_extent(
                    #[trigger] captured[k],
                ) by {
                    if k < last {
                        assert(!tells_extent(rest[k]));
                    }
                }
            }
        } else {
            assert forall|k: int| 0 <= k < captured.len() implies !tells_extent(
                #[trigger] captured[k],
            ) by {
                if k < last {
                    assert(!tells_extent(rest[k]));
                }
            }
        }
    }
}

proof fn lemma_part_names()
    ensures
        "symbol.name"@ != "symbol.definition"@,
        "dependency.label"@ != "dependency.definition"@,
{
    reveal_strlit("symbol.name");
    reveal_strlit("symbol.definition");
    reveal_strlit("dependency.label");
    reveal_strlit("dependency.definition");
    assert("symbol.name"@.len() != "symbol.definition"@.len());
    assert("dependency.label"@.len() != "dependency.definition"@.len());
}

/// A match gives a symbol exactly if a name and a definition of a known kind were
/// captured. The symbol bears that name and that kind, and its lines are the rows of
/// the definition, counted from 1; of several captures the last one counts.
pub proof fn law_symbols_are_what_was_captured(captured: Seq<CaptureModel>)
    ensures
        symbol_of(captured) is Some <==> (exists|i: int|
            0 <= i < captured.len() && (#[trigger] captured[i]).name == "symbol.name"@
                && captured[i].text is Some) && (exists|j: int|
            0 <= j < captured.len() && (#[trigger] captured[j]).name == "symbol.definition"@
                && language::symbol_kind_of_node(captured[j].kind) is Some),
        symbol_of(captured) matches Some(f) ==> {
            &&& exists|i: int|
                0 <= i < captured.len() && (#[trigger] captured[i]).name == "symbol.name"@
                    && captured[i].text == Some(f.name) && forall|k: int|
                    i < k < captured.len() && (#[trigger] captured[k]).name == "symbol.name"@
                        ==> captured[k].text is None
            &&& exists|j: int|
                0 <= j < captured.len() && (#[trigger] captured[j]).name == "symbol.definition"@
                    && language::symbol_kind_of_node(captured[j].kind) == Some(f.kind)
                    && (captured[j].start_row < usize::MAX ==> f.start_line
                    == captured[j].start_row + 1) && (captured[j].end_row < usize::MAX
                    ==> f.end_line == captured[j].end_row + 1) && forall|k: int|
                    j < k < captured.len() && (#[trigger] captured[k]).name
                        == "symbol.definition"@ ==> language::symbol_kind_of_node(
                        captured[k].kind,
                    ) is None
        },
{
    lemma_symbol_parts(captured);
    let parts = symbol_parts(captured);
    if parts.name is None {
        assert forall|i: int| 0 <= i < captured.len() implies !((#[trigger] captured[i]).name
            == "symbol.name"@ && captured[i].text is Some) by {
            assert(!tells_name(captured[i]));
        }
    }
    if parts.definition is None {
        assert forall|j: int| 0 <= j < captured.len() implies !((#[trigger] captured[j]).name
            == "symbol.definition"@ && language::symbol_kind_of_node(captured[j].kind) is Some) by {
            assert(!tells_extent(captured[j]));
        }
    }
    if symbol_of(captured) is Some {
        let f = symbol_of(captured)->0;
        let i = choose|i: int|
            0 <= i < captured.len() && tells_name(#[trigger] captured[i]) && captured[i].text
                == Some(f.name) && forall|k: int|
                i < k < captured.len() ==> !tells_name(#[trigger] captured[k]);
        assert(captured[i].name == "symbol.name"@);
        assert forall|k: int|
            i < k < captured.len() && (#[trigger] captured[k]).name
                == "symbol.name"@ implies captured[k].text is None by {
            assert(!tells_name(captured[k]));
        }
        let j = choose|j: int|
            0 <= j < captured.len() && tells_extent(#[trigger] captured[j])
                && language::symbol_kind_of_node(captured[j].kind) == Some(f.kind) && f.start_line
                == line_of_row(captured[j].start_row) && f.end_line == line_of_row(
                captured[j].end_row,
            ) && forall|k: int| j < k < captured.len() ==> !tells_extent(#[trigger] captured[k]);
        assert(captured[j].name == "symbol.definition"@);
        assert forall|k: int|
            j < k < captured.len() && (#[trigger] captured[k]).name
                == "symbol.definition"@ implies language::symbol_kind_of_node(
            captured[k].kind,
        ) is None by {
            assert(!tells_extent(captured[k]));
        }
    }
}

/// The symbols of a text are those of its matches: every match that gives a symbol
/// gives one, in the order of the matches, and nothing else does.
pub proof fn law_every_match_gives_its_symbol(matches: Seq<Seq<CaptureModel>>)
    ensures
        symbols_of(matches) == matches.filter(
            |m: Seq<CaptureModel>| symbol_of(m) is Some,
        ).map_values(|m: Seq<CaptureModel>| symbol_of(m)->0),
    decreases matches.len(),
{
    reveal(Seq::filter);
    let wanted = |m: Seq<CaptureModel>| symbol_of(m) is Some;
    let given = |m: Seq<CaptureModel>| symbol_of(m)->0;
    if matches.len() > 0 {
        law_every_match_gives_its_symbol(matches.drop_last());
        let before = matches.drop_last().filter(wanted);
        if wanted(matches.last()) {
            assert(before.push(matches.last()).map_values(given) =~= before.map_values(given).push(
                given(matches.last()),
            ));
        }
    } else {
        assert(symbols_of(matches) =~= matches.filter(wanted).map_values(given));
    }
}

/// The dependency hints of a text are those of its matches: every match that gives a
/// hint gives one, in the order of the matches, and nothing else does.
pub proof fn law_every_match_gives_its_hint(
    file_path: Seq<char>,
    matches: Seq<Seq<CaptureModel>>,
)
    ensures
        hints_of(file_path, matches) == matches.filter(
            |m: Seq<CaptureModel>| hint_of(file_path, m) is Some,
        ).map_values(|m: Seq<CaptureModel>| hint_of(file_path, m)->0),
    decreases matches.len(),
{
    reveal(Seq::filter);
    let wanted = |m: Seq<CaptureModel>| hint_of(file_path, m) is Some;
    let given = |m: Seq<CaptureModel>| hint_of(file_path, m)->0;
    if matches.len() > 0 {
        law_every_match_gives_its_hint(file_path, matches.drop_last());
        let before = matches.drop_last().filter(wanted);
        if wanted(matches.last()) {
            assert(before.push(matches.last()).map_values(given) =~= before.map_values(given).push(
                given(matches.last()),
            ));
        }
    } else {
        assert(hints_of(file_path, matches) =~= matches.filter(wanted).map_values(given));
    }
}

/// A match of two captures, a dependency and its label, gives a hint in whichever order
/// they come: with the file, the kind, the label, the text and the lines, counted from
/// 1.
pub proof fn law_hints_are_what_was_captured(
    file_path: Seq<char>,
    dependency: CaptureModel,
    label: CaptureModel,
)
    requires
        dependency.name == "dependency.definition"@,
        label.name == "dependency.label"@,
        dependency.start_row < usize::MAX,
        dependency.end_row < usize::MAX,
    ensures
        hint_of(file_path, seq![dependency, label]) == hint_of(file_path, seq![label, dependency]),
        hint_of(file_path, seq![dependency, label]) == match (
            language::hint_kind_of_node(dependency.kind),
            dependency.text,
            label.text,
        ) {
            (Some(kind), Some(raw_text), Some(label)) => Some(
                HintModel {
                    file_path,
                    kind,
                    label,
                    raw_text,
                    start_line: dependency.start_row + 1,
                    end_line: dependency.end_row + 1,
                },
            ),
            _ => None,
        },
{
    lemma_part_names();
    reveal_with_fuel(hint_parts, 4);
    let a = seq![dependency, label];
    let b = seq![label, dependency];
    assert(a.drop_last() =~= seq![dependency]);
    assert(b.drop_last() =~= seq![label]);
    assert(seq![dependency].drop_last() =~= Seq::<CaptureModel>::empty());
    assert(seq![label].drop_last() =~= Seq::<CaptureModel>::empty());
}

/// A file whose name ends in one of the known extensions of archives, pictures and
/// programs is no text, in whatever case it is written; one without an extension is.
pub proof fn law_binary_names(path: Seq<char>, e: Seq<char>)
    requires
        paths::extension_of(path) == Some(e),
    ensures
        ({
            let known = seq![
                "pdf"@,
                "rar"@,
                "zip"@,
                "jpeg"@,
                "jpg"@,
                "png"@,
                "exe"@,
                "gif"@,
                "ico"@,
                "bin"@,
                "tar"@,
                "gz"@,
                "7z"@,
            ];
            binary_path(path) <==> known.contains(text::unicode_lowercase(e)) || text::ends_with(
                text::unicode_lowercase(path),
                ".tar.gz"@,
            )
        }),
{
    let known = seq![
        "pdf"@,
        "rar"@,
        "zip"@,
        "jpeg"@,
        "jpg"@,
        "png"@,
        "exe"@,
        "gif"@,
        "ico"@,
        "bin"@,
        "tar"@,
        "gz"@,
        "7z"@,
    ];
    let lower = text::unicode_lowercase(e);
    assert(known[0] == "pdf"@ && known[1] == "rar"@ && known[2] == "zip"@ && known[3] == "jpeg"@
        && known[4] == "jpg"@ && known[5] == "png"@ && known[6] == "exe"@ && known[7] == "gif"@
        && known[8] == "ico"@ && known[9] == "bin"@ && known[10] == "tar"@ && known[11] == "gz"@
        && known[12] == "7z"@);
    if known.contains(lower) {
        let i = choose|i: int| 0 <= i < known.len() && known[i] == lower;
    }
}

/// A source text is read whole: by the captures of the language's own query if the
/// language has a grammar, and line by line if not, so that every line that declares
/// something gives its symbol and no symbol comes from elsewhere.
pub proof fn law_sources_are_read_whole(
    file_path: Seq<char>,
    language: SupportedLanguage,
    source_code: Seq<char>,
    map: DefinitionsModel,
)
    requires
        source_result(file_path, language, source_code, map),
    ensures
        language.native_grammar() matches Some(grammar) ==> exists|
            found: Seq<Seq<CaptureModel>>,
        | #[trigger]
            syntax::captures_are(
                found,
                (grammar, language.symbol_query()->0),
                (grammar, source_code),
            ) && map.functions == symbols_of(found),
        language.native_grammar() is None ==> {
            let lines = text::lines_of(source_code);
            &&& forall|k: int|
                0 <= k < lines.len() && (#[trigger] heuristics::declaration_of(
                    text::trim_start_text(lines[k]),
                )) is Some ==> exists|i: int|
                    0 <= i < map.functions.len() && heuristics::found_in(
                        #[trigger] map.functions[i],
                        lines,
                        k,
                    )
            &&& forall|i: int|
                0 <= i < map.functions.len() ==> {
                    let k = #[trigger] map.functions[i].start_line - 1;
                    0 <= k < lines.len() && heuristics::found_in(map.functions[i], lines, k)
                }
        },
        language == SupportedLanguage::Unknown ==> map.language == match paths::extension_of(
            file_path,
        ) {
            Some(e) => if e.len() == 0 {
                "unknown"@
            } else {
                text::ascii_lowercase(e)
            },
            None => "unknown"@,
        },
{
    if language.native_grammar() is None {
        let lines = text::lines_of(source_code);
        heuristics::law_every_declaration_is_found(lines, lines.len() as int, map.functions);
    }
}

/// Lines are counted from 1 and rows from 0; the greatest number stands for what is
/// beyond it.
pub proof fn law_lines_of_rows(row: nat)
    ensures
        row < usize::MAX ==> line_of_row(row) == row + 1,
        line_of_row(usize::MAX as nat) == usize::MAX,
{
}

} // verus!
