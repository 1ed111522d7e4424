//! Syntax trees, made and queried by tree-sitter.
//!
//! The types here keep, beside the value of tree-sitter, what that value was
//! made from. Their fields are private and only the functions of this module
//! make such values, so the two always belong together. The view of a value is
//! what it was made from.

use crate::language::{NativeGrammar, SupportedLanguage};
use tree_sitter::StreamingIterator;
use vstd::prelude::*;
use vstd::utf8::is_ascii_chars;

verus! {

#[verifier::external_type_specification]
#[verifier::external_body]
pub struct ExLanguage(tree_sitter::Language);

#[verifier::external_type_specification]
#[verifier::external_body]
pub struct ExParser(tree_sitter::Parser);

#[verifier::external_type_specification]
#[verifier::external_body]
pub struct ExTree(tree_sitter::Tree);

#[verifier::external_type_specification]
#[verifier::external_body]
pub struct ExQuery(tree_sitter::Query);

#[verifier::external_type_specification]
#[verifier::external_body]
pub struct ExLanguageError(tree_sitter::LanguageError);

#[verifier::external_type_specification]
#[verifier::external_body]
pub struct ExQueryError(tree_sitter::QueryError);

/// A grammar in the form that tree-sitter works with.
pub struct LoadedGrammar {
    grammar: NativeGrammar,
    language: tree_sitter::Language,
}

/// A parser set to a grammar.
pub struct SyntaxParser {
    grammar: NativeGrammar,
    parser: tree_sitter::Parser,
}

/// The syntax tree of a source text.
pub struct SyntaxTree {
    grammar: NativeGrammar,
    source: String,
    tree: tree_sitter::Tree,
}

/// A query on the syntax trees of a grammar.
pub struct SyntaxQuery {
    grammar: NativeGrammar,
    pattern: String,
    query: tree_sitter::Query,
}

impl View for LoadedGrammar {
    type V = NativeGrammar;

    closed spec fn view(&self) -> NativeGrammar {
        self.grammar
    }
}

impl View for SyntaxParser {
    type V = NativeGrammar;

    closed spec fn view(&self) -> NativeGrammar {
        self.grammar
    }
}

impl View for SyntaxTree {
    type V = (NativeGrammar, Seq<char>);

    closed spec fn view(&self) -> (NativeGrammar, Seq<char>) {
        (self.grammar, self.source@)
    }
}

impl View for SyntaxQuery {
    type V = (NativeGrammar, Seq<char>);

    closed spec fn view(&self) -> (NativeGrammar, Seq<char>) {
        (self.grammar, self.pattern@)
    }
}

/// A syntax node that a query captured: the name it was captured under, its
/// kind, its text if that is valid UTF-8, and its first and last row, counted
/// from 0.
#[derive(Debug, Clone, PartialEq, Eq)]
pub struct SyntaxCapture {
    pub name: String,
    pub kind: String,
    pub text: Option<String>,
    pub start_row: u32,
    pub end_row: u32,
}

/// A `SyntaxCapture` with its texts as sequences of characters.
#[verifier::ext_equal]
pub struct CaptureModel {
    pub name: Seq<char>,
    pub kind: Seq<char>,
    pub text: Option<Seq<char>>,
    pub start_row: nat,
    pub end_row: nat,
}

impl DeepView for SyntaxCapture {
    type V = CaptureModel;

    open spec fn deep_view(&self) -> CaptureModel {
        CaptureModel {
            name: self.name@,
            kind: self.kind@,
            text: self.text.deep_view(),
            start_row: self.start_row as nat,
            end_row: self.end_row as nat,
        }
    }
}

/// Names whether tree-sitter accepts a query for a grammar.
pub uninterp spec fn query_accepted(grammar: NativeGrammar, pattern: Seq<char>) -> bool;

/// Names the captures of every match of a query in the syntax tree of a source
/// text, in the order in which tree-sitter finds them.
pub uninterp spec fn query_captures(
    query: (NativeGrammar, Seq<char>),
    tree: (NativeGrammar, Seq<char>),
) -> Seq<Seq<CaptureModel>>;

/// The syntax tree of a source text is the same on every machine. The grammars of
/// Rust and of JavaScript ask the C library whether a character is a letter or a
/// space, and beyond ASCII its answer depends on the library and on the locale. The
/// grammars of Python and of Go ask it nothing.
pub open spec fn steady(grammar: NativeGrammar, source: Seq<char>) -> bool {
    grammar == NativeGrammar::Python || grammar == NativeGrammar::Go || is_ascii_chars(source)
}

/// `found` are captures that a query can have in the syntax tree of a source text:
/// exactly the named ones, if the tree is the same on every machine.
pub open spec fn captures_are(
    found: Seq<Seq<CaptureModel>>,
    query: (NativeGrammar, Seq<char>),
    tree: (NativeGrammar, Seq<char>),
) -> bool {
    steady(tree.0, tree.1) ==> found == query_captures(query, tree)
}

/// The constants `LANGUAGE` of the grammar crates, and `tree_sitter::Language::from`:
/// the grammar in the form of tree-sitter.
#[verifier::external_body]
pub(crate) fn load_grammar(grammar: NativeGrammar) -> (r: LoadedGrammar)
    ensures
        r@ == grammar,
{
    let language = match grammar {
        NativeGrammar::Python => tree_sitter_python::LANGUAGE.into(),
        NativeGrammar::Go => tree_sitter_go::LANGUAGE.into(),
        NativeGrammar::Rust => tree_sitter_rust::LANGUAGE.into(),
        NativeGrammar::JavaScript => tree_sitter_javascript::LANGUAGE.into(),
    };
    LoadedGrammar { grammar, language }
}

/// `tree_sitter::Parser::set_language` on a new parser: an error only if the version
/// of the grammar is not one that tree-sitter accepts. The versions of all the
/// grammars here are accepted.
#[verifier::external_body]
pub(crate) fn configure_parser(grammar: &LoadedGrammar) -> (r: Result<
    SyntaxParser,
    tree_sitter::LanguageError,
>)
    ensures
        r is Ok,
        r->Ok_0@ == grammar@,
{
    let mut parser = tree_sitter::Parser::new();
    parser.set_language(&grammar.language)?;
    Ok(SyntaxParser { grammar: grammar.grammar, parser })
}

/// `tree_sitter::Parser::parse` on a whole text: the syntax tree. There is none only
/// for a parser without a grammar, or one that is stopped by a timeout or a
/// cancellation flag; the parsers here have a grammar and neither of these.
#[verifier::external_body]
pub(crate) fn parse_text(parser: SyntaxParser, source: &str) -> (r: Option<SyntaxTree>)
    ensures
        r is Some,
        r->0@ == (parser@, source@),
{
    let SyntaxParser { grammar, mut parser } = parser;
    let tree = parser.parse(source, None)?;
    Some(SyntaxTree { grammar, source: source.to_string(), tree })
}

/// `tree_sitter::Query::new`: an error if the pattern is no query for the grammar. The
/// pattern is one of the library's own, since the reader of patterns goes one call
/// deeper for each bracket, without a bound. The queries of a language name only nodes
/// and fields that its grammar has, and are accepted for it.
#[verifier::external_body]
pub(crate) fn build_query(grammar: &LoadedGrammar, pattern: &str) -> (r: Result<
    SyntaxQuery,
    tree_sitter::QueryError,
>)
    requires
        exists|l: SupportedLanguage|
            #![trigger l.symbol_query()]
            #![trigger l.dependency_query()]
            l.symbol_query() == Some(pattern@) || l.dependency_query() == Some(pattern@),
    ensures
        r is Ok == query_accepted(grammar@, pattern@),
        r is Ok ==> r->Ok_0@ == (grammar@, pattern@),
        forall|l: SupportedLanguage|
            #![trigger l.symbol_query()]
            #![trigger l.dependency_query()]
            l.native_grammar() == Some(grammar@) && (l.symbol_query() == Some(pattern@)
                || l.dependency_query() == Some(pattern@)) ==> r is Ok,
{
    let query = tree_sitter::Query::new(&grammar.language, pattern)?;
    Ok(SyntaxQuery { grammar: grammar.grammar, pattern: pattern.to_string(), query })
}

/// `tree_sitter::QueryCursor::matches` from the root of a tree: the captures of
/// each match, as plain values. The query and the tree are of the same grammar.
/// Nothing is said of the captures in a text that is not `steady`.
#[verifier::external_body]
pub(crate) fn captures(query: &SyntaxQuery, tree: &SyntaxTree) -> (r: Vec<Vec<SyntaxCapture>>)
    requires
        query@.0 == tree@.0,
    ensures
        steady(tree@.0, tree@.1) ==> r.deep_view() == query_captures(query@, tree@),
{
    let bytes = tree.source.as_bytes();
    let mut cursor = tree_sitter::QueryCursor::new();
    let matches = cursor.matches(&query.query, tree.tree.root_node(), bytes);
    matches.map_deref(|m| m.captures.iter().map(|c| SyntaxCapture {
        name: query.query.capture_names()[c.index as usize].to_string(),
        kind: c.node.kind().to_string(),
        text: c.node.utf8_text(bytes).ok().map(str::to_string),
        start_row: c.node.start_position().row as u32,
        end_row: c.node.end_position().row as u32,
    }).collect()).collect()
}

} // verus!
