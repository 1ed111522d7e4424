//! Source languages, the symbols found in a file, and the queries that find
//! them in a syntax tree.

use crate::text::same_text;
use vstd::prelude::*;

verus! {

#[derive(Debug, Clone, PartialEq, Eq)]
pub struct ParsedSymbol {
    pub name: String,
    pub kind: SymbolKind,
}

#[derive(Debug, Clone, Copy, PartialEq, Eq, Structural)]
pub enum SymbolKind {
    Function,
    Class,
}

#[derive(Debug, Clone, PartialEq, Eq)]
pub struct ParsedRelation {
    pub caller: String,
    pub callee: String,
}

#[derive(Debug, Clone, Copy, PartialEq, Eq, Hash, Structural)]
pub enum DependencyHintKind {
    UseDeclaration,
    ModItem,
}

/// A place where a file names another module or crate.
#[derive(Debug, Clone, PartialEq, Eq)]
pub struct ParsedDependencyHint {
    pub file_path: String,
    pub kind: DependencyHintKind,
    pub label: String,
    pub raw_text: String,
    pub start_line: usize,
    pub end_line: usize,
}

/// A symbol of a file, with the lines it takes, counted from 1.
#[derive(Debug, Clone, PartialEq, Eq)]
pub struct ExtractedFunction {
    pub name: String,
    pub kind: SymbolKind,
    pub start_line: usize,
    pub end_line: usize,
}

/// What was found in a file, and how.
#[derive(Debug, Clone, PartialEq, Eq)]
pub struct FileDefinitionMap {
    pub file_path: String,
    pub language: String,
    pub strategy: ParseStrategy,
    pub functions: Vec<ExtractedFunction>,
}

#[derive(Debug, Clone, Copy, PartialEq, Eq, Structural)]
pub enum SupportedLanguage {
    Python,
    Go,
    Rust,
    JavaScript,
    TypeScriptReact,
    SQL,
    Unknown,
}

#[derive(Debug, Clone, Copy, PartialEq, Eq, Structural)]
pub enum ParseStrategy {
    NativeAst,
    ExtensionWasm,
    TextHeuristic,
}

/// The languages whose grammar comes with the library.
#[derive(Debug, Clone, Copy, PartialEq, Eq, Structural)]
pub enum NativeGrammar {
    Python,
    Go,
    Rust,
    JavaScript,
}

/// An `ExtractedFunction` with its name as a sequence of characters.
#[verifier::ext_equal]
pub struct FunctionModel {
    pub name: Seq<char>,
    pub kind: SymbolKind,
    pub start_line: nat,
    pub end_line: nat,
}

impl DeepView for ExtractedFunction {
    type V = FunctionModel;

    open spec fn deep_view(&self) -> FunctionModel {
        FunctionModel {
            name: self.name@,
            kind: self.kind,
            start_line: self.start_line as nat,
            end_line: self.end_line as nat,
        }
    }
}

/// A `ParsedDependencyHint` with its texts as sequences of characters.
#[verifier::ext_equal]
pub struct HintModel {
    pub file_path: Seq<char>,
    pub kind: DependencyHintKind,
    pub label: Seq<char>,
    pub raw_text: Seq<char>,
    pub start_line: nat,
    pub end_line: nat,
}

impl DeepView for ParsedDependencyHint {
    type V = HintModel;

    open spec fn deep_view(&self) -> HintModel {
        HintModel {
            file_path: self.file_path@,
            kind: self.kind,
            label: self.label@,
            raw_text: self.raw_text@,
            start_line: self.start_line as nat,
            end_line: self.end_line as nat,
        }
    }
}

/// A `FileDefinitionMap` with its texts as sequences of characters.
#[verifier::ext_equal]
pub struct DefinitionsModel {
    pub file_path: Seq<char>,
    pub language: Seq<char>,
    pub strategy: ParseStrategy,
    pub functions: Seq<FunctionModel>,
}

impl DeepView for FileDefinitionMap {
    type V = DefinitionsModel;

    open spec fn deep_view(&self) -> DefinitionsModel {
        DefinitionsModel {
            file_path: self.file_path@,
            language: self.language@,
            strategy: self.strategy,
            functions: self.functions.deep_view(),
        }
    }
}

pub const PYTHON_SYMBOLS: &'static str = r#"
                (function_definition
                    name: (identifier) @symbol.name
                ) @symbol.definition

                (class_definition
                    name: (identifier) @symbol.name
                ) @symbol.definition
                "#;

pub const GO_SYMBOLS: &'static str = r#"
                (function_declaration
                    name: (identifier) @symbol.name
                ) @symbol.definition

                (type_spec
                    name: (type_identifier) @symbol.name
                ) @symbol.definition
                "#;

pub const JAVASCRIPT_SYMBOLS: &'static str = r#"
                (function_declaration
                    name: (identifier) @symbol.name
                ) @symbol.definition

                (class_declaration
                    name: (identifier) @symbol.name
                ) @symbol.definition
                "#;

pub const RUST_SYMBOLS: &'static str = r#"
                (function_item
                    name: (identifier) @symbol.name
                ) @symbol.definition

                (struct_item
                    name: (type_identifier) @symbol.name
                ) @symbol.definition

                (enum_item
                    name: (type_identifier) @symbol.name
                ) @symbol.definition

                (trait_item
                    name: (type_identifier) @symbol.name
                ) @symbol.definition
                "#;

pub const RUST_DEPENDENCIES: &'static str = r#"
                (use_declaration
                    argument: (_) @dependency.label
                ) @dependency.definition

                (mod_item
                    name: (identifier) @dependency.label
                ) @dependency.definition
                "#;

impl SupportedLanguage {
    /// The label of the language.
    pub open spec fn label(self) -> Seq<char> {
        match self {
            SupportedLanguage::Python => "Python"@,
            SupportedLanguage::Go => "Go"@,
            SupportedLanguage::Rust => "Rust"@,
            SupportedLanguage::JavaScript => "JavaScript"@,
            SupportedLanguage::TypeScriptReact => "TypeScriptReact"@,
            SupportedLanguage::SQL => "SQL"@,
            SupportedLanguage::Unknown => "Unknown"@,
        }
    }

    /// The grammar of the language, if it comes with the library.
    pub open spec fn native_grammar(self) -> Option<NativeGrammar> {
        match self {
            SupportedLanguage::Python => Some(NativeGrammar::Python),
            SupportedLanguage::Go => Some(NativeGrammar::Go),
            SupportedLanguage::Rust => Some(NativeGrammar::Rust),
            SupportedLanguage::JavaScript => Some(NativeGrammar::JavaScript),
            SupportedLanguage::TypeScriptReact | SupportedLanguage::SQL
            | SupportedLanguage::Unknown => None,
        }
    }

    /// The query that finds functions and classes.
    pub open spec fn symbol_query(self) -> Option<Seq<char>> {
        match self {
            SupportedLanguage::Python => Some(PYTHON_SYMBOLS@),
            SupportedLanguage::Go => Some(GO_SYMBOLS@),
            SupportedLanguage::Rust => Some(RUST_SYMBOLS@),
            SupportedLanguage::JavaScript => Some(JAVASCRIPT_SYMBOLS@),
            SupportedLanguage::TypeScriptReact | SupportedLanguage::SQL
            | SupportedLanguage::Unknown => None,
        }
    }

    /// The query that finds dependency hints.
    pub open spec fn dependency_query(self) -> Option<Seq<char>> {
        if self == SupportedLanguage::Rust {
            Some(RUST_DEPENDENCIES@)
        } else {
            None
        }
    }

    pub fn as_str(self) -> (r: &'static str)
        ensures
            r@ == self.label(),
    {
        match self {
            SupportedLanguage::Python => "Python",
            SupportedLanguage::Go => "Go",
            SupportedLanguage::Rust => "Rust",
            SupportedLanguage::JavaScript => "JavaScript",
            SupportedLanguage::TypeScriptReact => "TypeScriptReact",
            SupportedLanguage::SQL => "SQL",
            SupportedLanguage::Unknown => "Unknown",
        }
    }

    /// The query that finds functions and classes in a syntax tree of the
    /// language, if the language has one.
    pub fn query_pattern(self) -> (r: Option<&'static str>)
        ensures
            match r {
                Some(p) => self.symbol_query() == Some(p@),
                None => self.symbol_query() is None,
            },
    {
        match self {
            SupportedLanguage::Python => Some(PYTHON_SYMBOLS),
            SupportedLanguage::Go => Some(GO_SYMBOLS),
            SupportedLanguage::JavaScript => Some(JAVASCRIPT_SYMBOLS),
            SupportedLanguage::Rust => Some(RUST_SYMBOLS),
            SupportedLanguage::TypeScriptReact | SupportedLanguage::SQL
            | SupportedLanguage::Unknown => None,
        }
    }

    /// The query that finds dependency hints in a syntax tree of the language,
    /// if the language has one.
    pub fn dependency_query_pattern(self) -> (r: Option<&'static str>)
        ensures
            match r {
                Some(p) => self.dependency_query() == Some(p@),
                None => self.dependency_query() is None,
            },
    {
        match self {
            SupportedLanguage::Rust => Some(RUST_DEPENDENCIES),
            _ => None,
        }
    }
}

impl ParseStrategy {
    pub open spec fn label(self) -> Seq<char> {
        match self {
            ParseStrategy::NativeAst => "NativeAST"@,
            ParseStrategy::ExtensionWasm => "ExtensionWASM"@,
            ParseStrategy::TextHeuristic => "TextHeuristic"@,
        }
    }

    pub fn as_str(self) -> (r: &'static str)
        ensures
            r@ == self.label(),
    {
        match self {
            ParseStrategy::NativeAst => "NativeAST",
            ParseStrategy::ExtensionWasm => "ExtensionWASM",
            ParseStrategy::TextHeuristic => "TextHeuristic",
        }
    }
}

/// The kind of symbol that a definition of the given syntax node kind is.
pub open spec fn symbol_kind_of_node(kind: Seq<char>) -> Option<SymbolKind> {
    if kind == "function_definition"@ || kind == "function_declaration"@ || kind
        == "function_item"@ {
        Some(SymbolKind::Function)
    } else if kind == "class_definition"@ || kind == "class_declaration"@ || kind == "type_spec"@
        || kind == "struct_item"@ || kind == "enum_item"@ || kind == "trait_item"@ || kind
        == "type_item"@ || kind == "union_item"@ {
        Some(SymbolKind::Class)
    } else {
        None
    }
}

/// The kind of dependency hint that a definition of the given syntax node kind is.
pub open spec fn hint_kind_of_node(kind: Seq<char>) -> Option<DependencyHintKind> {
    if kind == "use_declaration"@ {
        Some(DependencyHintKind::UseDeclaration)
    } else if kind == "mod_item"@ {
        Some(DependencyHintKind::ModItem)
    } else {
        None
    }
}

pub fn symbol_kind_for(kind: &str) -> (r: Option<SymbolKind>)
    ensures
        r == symbol_kind_of_node(kind@),
{
    if same_text(kind, "function_definition") || same_text(kind, "function_declaration")
        || same_text(kind, "function_item") {
        Some(SymbolKind::Function)
    } else if same_text(kind, "class_definition") || same_text(kind, "class_declaration")
        || same_text(kind, "type_spec") || same_text(kind, "struct_item") || same_text(
        kind,
        "enum_item",
    ) || same_text(kind, "trait_item") || same_text(kind, "type_item") || same_text(
        kind,
        "union_item",
    ) {
        Some(SymbolKind::Class)
    } else {
        None
    }
}

pub fn hint_kind_for(kind: &str) -> (r: Option<DependencyHintKind>)
    ensures
        r == hint_kind_of_node(kind@),
{
    if same_text(kind, "use_declaration") {
        Some(DependencyHintKind::UseDeclaration)
    } else if same_text(kind, "mod_item") {
        Some(DependencyHintKind::ModItem)
    } else {
        None
    }
}

/// Definitions of functions are functions, and definitions of types are classes, in
/// every language with a grammar.
pub proof fn law_kinds_of_definitions()
    ensures
        symbol_kind_of_node("function_definition"@) == Some(SymbolKind::Function),
        symbol_kind_of_node("function_declaration"@) == Some(SymbolKind::Function),
        symbol_kind_of_node("function_item"@) == Some(SymbolKind::Function),
        symbol_kind_of_node("class_definition"@) == Some(SymbolKind::Class),
        symbol_kind_of_node("class_declaration"@) == Some(SymbolKind::Class),
        symbol_kind_of_node("type_spec"@) == Some(SymbolKind::Class),
        symbol_kind_of_node("struct_item"@) == Some(SymbolKind::Class),
        symbol_kind_of_node("enum_item"@) == Some(SymbolKind::Class),
        symbol_kind_of_node("trait_item"@) == Some(SymbolKind::Class),
        hint_kind_of_node("use_declaration"@) == Some(DependencyHintKind::UseDeclaration),
        hint_kind_of_node("mod_item"@) == Some(DependencyHintKind::ModItem),
{
    reveal_strlit("function_definition");
    reveal_strlit("function_declaration");
    reveal_strlit("function_item");
    reveal_strlit("class_definition");
    reveal_strlit("class_declaration");
    reveal_strlit("type_spec");
    reveal_strlit("struct_item");
    reveal_strlit("enum_item");
    reveal_strlit("trait_item");
    reveal_strlit("use_declaration");
    reveal_strlit("mod_item");
    assert("function_definition"@.len() == 19 && "function_definition"@[0] == 'f');
    assert("function_declaration"@.len() == 20 && "function_declaration"@[0] == 'f');
    assert("function_item"@.len() == 13 && "function_item"@[0] == 'f');
    assert("class_definition"@[0] == 'c' && "class_declaration"@[0] == 'c');
    assert("type_spec"@[0] == 't' && "struct_item"@[0] == 's' && "enum_item"@[0] == 'e'
        && "trait_item"@[0] == 't');
    assert("use_declaration"@[0] == 'u' && "mod_item"@[0] == 'm');
}

/// Languages are told apart by their labels, and so are strategies.
pub proof fn law_labels_tell_apart(
    a: SupportedLanguage,
    b: SupportedLanguage,
    s: ParseStrategy,
    t: ParseStrategy,
)
    ensures
        a.label() == b.label() ==> a == b,
        s.label() == t.label() ==> s == t,
{
    reveal_strlit("Python");
    reveal_strlit("Go");
    reveal_strlit("Rust");
    reveal_strlit("JavaScript");
    reveal_strlit("TypeScriptReact");
    reveal_strlit("SQL");
    reveal_strlit("Unknown");
    reveal_strlit("NativeAST");
    reveal_strlit("ExtensionWASM");
    reveal_strlit("TextHeuristic");
    assert("Python"@.len() == 6 && "Go"@.len() == 2 && "Rust"@.len() == 4 && "JavaScript"@.len()
        == 10 && "TypeScriptReact"@.len() == 15 && "SQL"@.len() == 3 && "Unknown"@.len() == 7);
    assert("NativeAST"@[0] == 'N' && "ExtensionWASM"@[0] == 'E' && "TextHeuristic"@[0] == 'T');
}

/// Exactly the languages with a grammar have a query for symbols, each its own.
pub proof fn law_grammars_have_queries(language: SupportedLanguage)
    ensures
        language.native_grammar() is Some <==> language.symbol_query() is Some,
        language.symbol_query() == match language.native_grammar() {
            Some(NativeGrammar::Python) => Some(PYTHON_SYMBOLS@),
            Some(NativeGrammar::Go) => Some(GO_SYMBOLS@),
            Some(NativeGrammar::Rust) => Some(RUST_SYMBOLS@),
            Some(NativeGrammar::JavaScript) => Some(JAVASCRIPT_SYMBOLS@),
            None => None,
        },
        language.native_grammar() is None <==> language == SupportedLanguage::TypeScriptReact
            || language == SupportedLanguage::SQL || language == SupportedLanguage::Unknown,
        language.dependency_query() is Some <==> language == SupportedLanguage::Rust,
{
}

/// The queries capture, for every kind of definition of a language, the whole definition
/// and the name in it; that of dependencies captures the declarations of use with their
/// arguments and the modules with their names.
pub proof fn law_what_the_queries_capture()
    ensures
        ({
            let open = "\n                ("@;
            let name = "\n                    name: ("@;
            let captured = ") @symbol.name\n                ) @symbol.definition\n"@;
            let end = "                "@;
            &&& PYTHON_SYMBOLS@ == open + "function_definition"@ + name + "identifier"@ + captured
                + open + "class_definition"@ + name + "identifier"@ + captured + end
            &&& GO_SYMBOLS@ == open + "function_declaration"@ + name + "identifier"@ + captured
                + open + "type_spec"@ + name + "type_identifier"@ + captured + end
            &&& JAVASCRIPT_SYMBOLS@ == open + "function_declaration"@ + name + "identifier"@
                + captured + open + "class_declaration"@ + name + "identifier"@ + captured + end
            &&& RUST_SYMBOLS@ == open + "function_item"@ + name + "identifier"@ + captured + open
                + "struct_item"@ + name + "type_identifier"@ + captured + open + "enum_item"@ + name
                + "type_identifier"@ + captured + open + "trait_item"@ + name + "type_identifier"@
                + captured + end
            &&& RUST_DEPENDENCIES@ == open + "use_declaration"@
                + "\n                    argument: (_) @dependency.label\n                ) @dependency.definition\n"@
                + open + "mod_item"@
                + "\n                    name: (identifier) @dependency.label\n                ) @dependency.definition\n"@
                + end
        }),
{
    let open = "\n                ("@;
    let name = "\n                    name: ("@;
    let captured = ") @symbol.name\n                ) @symbol.definition\n"@;
    let end = "                "@;
    reveal_strlit("\n                (");
    reveal_strlit("\n                    name: (");
    reveal_strlit(") @symbol.name\n                ) @symbol.definition\n");
    reveal_strlit("                ");
    reveal_strlit("identifier");
    reveal_strlit("type_identifier");
    assert(PYTHON_SYMBOLS@ =~= open + "function_definition"@ + name + "identifier"@ + captured
        + open + "class_definition"@ + name + "identifier"@ + captured + end) by {
        reveal_strlit("function_definition");
        reveal_strlit("class_definition");
        reveal_strlit(
            r#"
                (function_definition
                    name: (identifier) @symbol.name
                ) @symbol.definition

                (class_definition
                    name: (identifier) @symbol.name
                ) @symbol.definition
                "#,
        );
    }
    assert(GO_SYMBOLS@ =~= open + "function_declaration"@ + name + "identifier"@ + captured + open
        + "type_spec"@ + name + "type_identifier"@ + captured + end) by {
        reveal_strlit("function_declaration");
        reveal_strlit("type_spec");
        reveal_strlit(
            r#"
                (function_declaration
                    name: (identifier) @symbol.name
                ) @symbol.definition

                (type_spec
                    name: (type_identifier) @symbol.name
                ) @symbol.definition
                "#,
        );
    }
    assert(JAVASCRIPT_SYMBOLS@ =~= open + "function_declaration"@ + name + "identifier"@ + captured
        + open + "class_declaration"@ + name + "identifier"@ + captured + end) by {
        reveal_strlit("function_declaration");
        reveal_strlit("class_declaration");
        reveal_strlit(
            r#"
                (function_declaration
                    name: (identifier) @symbol.name
                ) @symbol.definition

                (class_declaration
                    name: (identifier) @symbol.name
                ) @symbol.definition
                "#,
        );
    }
    assert(RUST_SYMBOLS@ =~= open + "function_item"@ + name + "identifier"@ + captured + open
        + "struct_item"@ + name + "type_identifier"@ + captured + open + "enum_item"@ + name
        + "type_identifier"@ + captured + open + "trait_item"@ + name + "type_identifier"@ + captured
        + end) by {
        reveal_strlit("function_item");
        reveal_strlit("struct_item");
        reveal_strlit("enum_item");
        reveal_strlit("trait_item");
        reveal_strlit(
            r#"
                (function_item
                    name: (identifier) @symbol.name
                ) @symbol.definition

                (struct_item
                    name: (type_identifier) @symbol.name
                ) @symbol.definition

                (enum_item
                    name: (type_identifier) @symbol.name
                ) @symbol.definition

                (trait_item
                    name: (type_identifier) @symbol.name
                ) @symbol.definition
                "#,
        );
    }
    let used =
        "\n                    argument: (_) @dependency.label\n                ) @dependency.definition\n"@;
    let module =
        "\n                    name: (identifier) @dependency.label\n                ) @dependency.definition\n"@;
    assert(RUST_DEPENDENCIES@ =~= open + "use_declaration"@ + used + open + "mod_item"@ + module
        + end) by {
        reveal_strlit("use_declaration");
        reveal_strlit("mod_item");
        reveal_strlit(
            "\n                    argument: (_) @dependency.label\n                ) @dependency.definition\n",
        );
        reveal_strlit(
            "\n                    name: (identifier) @dependency.label\n                ) @dependency.definition\n",
        );
        reveal_strlit(
            r#"
                (use_declaration
                    argument: (_) @dependency.label
                ) @dependency.definition

                (mod_item
                    name: (identifier) @dependency.label
                ) @dependency.definition
                "#,
        );
    }
}

/// A node of no known kind defines no symbol, and hints at no dependency.
pub proof fn law_other_nodes_define_nothing(kind: Seq<char>)
    ensures
        symbol_kind_of_node(kind) is Some <==> kind == "function_definition"@ || kind
            == "function_declaration"@ || kind == "function_item"@ || kind == "class_definition"@
            || kind == "class_declaration"@ || kind == "type_spec"@ || kind == "struct_item"@
            || kind == "enum_item"@ || kind == "trait_item"@ || kind == "type_item"@ || kind
            == "union_item"@,
        symbol_kind_of_node("type_item"@) == Some(SymbolKind::Class),
        symbol_kind_of_node("union_item"@) == Some(SymbolKind::Class),
        hint_kind_of_node(kind) is Some <==> kind == "use_declaration"@ || kind == "mod_item"@,
{
    reveal_strlit("type_item");
    reveal_strlit("union_item");
    reveal_strlit("function_definition");
    reveal_strlit("function_declaration");
    reveal_strlit("function_item");
    assert("type_item"@[0] == 't' && "union_item"@[0] == 'u' && "function_definition"@[0] == 'f'
        && "function_declaration"@[0] == 'f' && "function_item"@[0] == 'f');
}

/// The labels are the names of the languages and of the strategies.
pub proof fn law_labels(language: SupportedLanguage, strategy: ParseStrategy)
    ensures
        language.label() == (match language {
            SupportedLanguage::Python => "Python"@,
            SupportedLanguage::Go => "Go"@,
            SupportedLanguage::Rust => "Rust"@,
            SupportedLanguage::JavaScript => "JavaScript"@,
            SupportedLanguage::TypeScriptReact => "TypeScriptReact"@,
            SupportedLanguage::SQL => "SQL"@,
            SupportedLanguage::Unknown => "Unknown"@,
        }),
        strategy.label() == (match strategy {
            ParseStrategy::NativeAst => "NativeAST"@,
            ParseStrategy::ExtensionWasm => "ExtensionWASM"@,
            ParseStrategy::TextHeuristic => "TextHeuristic"@,
        }),
        language.native_grammar() == (match language {
            SupportedLanguage::Python => Some(NativeGrammar::Python),
            SupportedLanguage::Go => Some(NativeGrammar::Go),
            SupportedLanguage::Rust => Some(NativeGrammar::Rust),
            SupportedLanguage::JavaScript => Some(NativeGrammar::JavaScript),
            _ => None,
        }),
        language.dependency_query() == (match language {
            SupportedLanguage::Rust => Some(RUST_DEPENDENCIES@),
            _ => None,
        }),
{
}

} // verus!
