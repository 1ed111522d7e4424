//! What the rows that the graph database returns amount to.

use crate::credentials;
use crate::credentials::verify_stored_token;
use crate::language::{ExtractedFunction, FileDefinitionMap, ParseStrategy, SymbolKind};
use crate::records::{
    FileGraphContext, GraphSummary, LessonRecord, StoredFunction, StoredModel, UserRecord,
};
use crate::text;
use crate::text::{concat2, decimal_i64, is_blank, parse_i64, same_text};
use vstd::prelude::*;

verus! {

// ---------------------------------------------------------------------------
// Texts
// ---------------------------------------------------------------------------

/// The texts that are not blank, in their order.
pub open spec fn non_blank(texts: Seq<Seq<char>>) -> Seq<Seq<char>>
    decreases texts.len(),
{
    if texts.len() == 0 {
        Seq::empty()
    } else if text::trim_text(texts.last()).len() == 0 {
        non_blank(texts.drop_last())
    } else {
        non_blank(texts.drop_last()).push(texts.last())
    }
}

/// Leaves out the texts that are blank.
pub fn keep_non_blank(texts: &Vec<String>) -> (r: Vec<String>)
    ensures
        r.deep_view() == non_blank(texts.deep_view()),
{
    let ghost all = texts.deep_view();
    let mut out: Vec<String> = Vec::new();
    let mut i: usize = 0;
    assert(out.deep_view() =~= non_blank(all.take(0)));
    while i < texts.len()
        invariant
            i <= texts@.len(),
            all == texts.deep_view(),
            out.deep_view() == non_blank(all.take(i as int)),
        decreases texts@.len() - i,
    {
        proof {
            assert(all.take(i + 1).drop_last() =~= all.take(i as int));
            assert(all.take(i + 1).last() == texts@[i as int]@);
        }
        let ghost before = out.deep_view();
        if !is_blank(texts[i].as_str()) {
            let copy = texts[i].as_str().to_string();
            out.push(copy);
            assert(out.deep_view() =~= before.push(copy@));
        }
        i += 1;
    }
    assert(all.take(i as int) =~= all);
    out
}

proof fn lemma_push_contains(texts: Seq<Seq<char>>, last: Seq<char>, text: Seq<char>)
    ensures
        texts.push(last).contains(text) <==> texts.contains(text) || text == last,
{
    let all = texts.push(last);
    if texts.contains(text) {
        let i = choose|i: int| 0 <= i < texts.len() && texts[i] == text;
        assert(all[i] == text);
    }
    assert(all[texts.len() as int] == last);
    if all.contains(text) {
        let i = choose|i: int| 0 <= i < all.len() && all[i] == text;
        assert(i < texts.len() ==> texts[i] == text);
    }
}

/// Of the solutions that the graph returns for a file, exactly those that are not
/// blank are given back, and none twice if the graph returns none twice.
pub proof fn law_solutions_are_given_back(rows: Seq<Seq<char>>, solution: Seq<char>)
    ensures
        non_blank(rows).contains(solution) <==> rows.contains(solution) && text::trim_text(
            solution,
        ).len() > 0,
        rows.no_duplicates() ==> non_blank(rows).no_duplicates(),
    decreases rows.len(),
{
    if rows.len() > 0 {
        let rest = rows.drop_last();
        let last = rows.last();
        let kept = non_blank(rest);
        law_solutions_are_given_back(rest, solution);
        law_solutions_are_given_back(rest, last);
        assert(rows =~= rest.push(last));
        lemma_push_contains(rest, last, solution);
        lemma_push_contains(kept, last, solution);
        if rows.no_duplicates() {
            assert forall|i: int, j: int| 0 <= i < j < rest.len() implies rest[i] != rest[j] by {
                assert(rows[i] != rows[j]);
            }
            assert(rest.no_duplicates());
            assert(!rest.contains(last)) by {
                if rest.contains(last) {
                    let i = choose|i: int| 0 <= i < rest.len() && rest[i] == last;
                    assert(rows[i] == rows[rows.len() - 1]);
                }
            }
            assert forall|i: int| 0 <= i < kept.len() implies kept[i] != last by {
                assert(kept.contains(kept[i]));
            }
        }
    }
}

/// Where a symbol was found, in words.
pub fn symbol_location(path: &str, start_line: i64) -> (r: String)
    ensures
        r@ == "Archivo: "@ + path@ + " (Línea: "@ + text::decimal(start_line as int) + ")"@,
{
    let mut out = concat2("Archivo: ", path);
    out.append(" (Línea: ");
    out.append(decimal_i64(start_line).as_str());
    out.append(")");
    out
}

// ---------------------------------------------------------------------------
// Files
// ---------------------------------------------------------------------------

/// A row of the answer on a file: the file, and one of its functions. A file
/// without functions has one row with an empty name.
#[derive(Debug, Clone, PartialEq, Eq)]
pub struct ContextRow {
    pub path: String,
    pub language: String,
    pub function: StoredFunction,
}

/// The functions of the first `n` rows that have a name.
pub open spec fn named_functions(rows: Seq<ContextRow>, n: nat) -> Seq<StoredModel>
    decreases n,
{
    if n == 0 || n > rows.len() {
        Seq::empty()
    } else if rows[n - 1].function.name@.len() == 0 {
        named_functions(rows, (n - 1) as nat)
    } else {
        named_functions(rows, (n - 1) as nat).push(rows[n - 1].function.deep_view())
    }
}

/// The file that the rows tell of: nothing without rows, otherwise the file of
/// the first row with all the functions that have a name.
pub fn context_from_rows(rows: &Vec<ContextRow>) -> (r: Option<FileGraphContext>)
    ensures
        match r {
            None => rows@.len() == 0,
            Some(context) => {
                &&& rows@.len() > 0
                &&& context.file_path@ == rows@[0].path@
                &&& context.language@ == rows@[0].language@
                &&& context.functions.deep_view() == named_functions(rows@, rows@.len())
            },
        },
{
    if rows.len() == 0 {
        return None;
    }
    let mut functions: Vec<StoredFunction> = Vec::new();
    let mut i: usize = 0;
    assert(functions.deep_view() =~= named_functions(rows@, 0));
    while i < rows.len()
        invariant
            i <= rows@.len(),
            functions.deep_view() == named_functions(rows@, i as nat),
        decreases rows@.len() - i,
    {
        let ghost before = functions.deep_view();
        let f = &rows[i].function;
        if !f.name.as_str().is_empty() {
            let copy = f.copy();
            functions.push(copy);
            assert(functions.deep_view() =~= before.push(copy.deep_view()));
        }
        i += 1;
    }
    Some(
        FileGraphContext {
            file_path: rows[0].path.as_str().to_string(),
            language: rows[0].language.as_str().to_string(),
            functions,
        },
    )
}

// ---------------------------------------------------------------------------
// The summary
// ---------------------------------------------------------------------------

/// A row on the storage: what it is about, and its value as a number or as a
/// text, as far as it can be read so.
#[derive(Debug, Clone, PartialEq, Eq)]
pub struct StorageRow {
    pub info: Option<String>,
    pub number: Option<i64>,
    pub text: Option<String>,
}

/// The figures of the storage.
#[verifier::ext_equal]
pub struct StorageModel {
    pub vertex_count: int,
    pub edge_count: int,
    pub memory_usage: Seq<char>,
}

/// A count that a row gives: its number, or the number that its text stands for;
/// what was known before if it gives none.
pub open spec fn count_in(row: StorageRow, before: int) -> int {
    match row.number {
        Some(n) => n as int,
        None => match row.text {
            Some(t) => match text::parse_i64_text(t@) {
                Some(n) => n,
                None => before,
            },
            None => before,
        },
    }
}

/// The figures after a row.
pub open spec fn storage_step(before: StorageModel, row: StorageRow) -> StorageModel {
    match row.info {
        None => before,
        Some(info) => if info@ == "vertex_count"@ {
            StorageModel { vertex_count: count_in(row, before.vertex_count), ..before }
        } else if info@ == "edge_count"@ {
            StorageModel { edge_count: count_in(row, before.edge_count), ..before }
        } else if info@ == "db_storage_memory_tracked"@ || info@ == "memory_res"@ {
            match row.text {
                Some(t) => StorageModel { memory_usage: t@, ..before },
                None => before,
            }
        } else {
            before
        },
    }
}

/// The figures after the first `n` rows. Before any row nothing is stored.
pub open spec fn storage_of(rows: Seq<StorageRow>, n: nat) -> StorageModel
    decreases n,
{
    if n == 0 || n > rows.len() {
        StorageModel { vertex_count: 0, edge_count: 0, memory_usage: "0B"@ }
    } else {
        storage_step(storage_of(rows, (n - 1) as nat), rows[n - 1])
    }
}

fn read_count(row: &StorageRow, before: i64) -> (r: i64)
    ensures
        r == count_in(*row, before as int),
{
    match row.number {
        Some(n) => n,
        None => match &row.text {
            Some(t) => match parse_i64(t.as_str()) {
                Some(n) => n,
                None => before,
            },
            None => before,
        },
    }
}

/// The counts of files and functions, as the graph returns them.
#[derive(Debug, Clone, Copy, PartialEq, Eq, Structural)]
pub struct FileCounts {
    pub file_count: i64,
    pub function_count: i64,
    pub native_ast_function_count: i64,
    pub extension_wasm_function_count: i64,
    pub text_heuristic_function_count: i64,
}

/// The summary of a graph, from its counts and the rows on its storage.
pub fn summary_from_rows(counts: FileCounts, engram_count: i64, storage: &Vec<StorageRow>) -> (r:
    GraphSummary)
    ensures
        r.file_count == counts.file_count,
        r.function_count == counts.function_count,
        r.engram_count == engram_count,
        r.native_ast_function_count == counts.native_ast_function_count,
        r.extension_wasm_function_count == counts.extension_wasm_function_count,
        r.text_heuristic_function_count == counts.text_heuristic_function_count,
        (StorageModel {
            vertex_count: r.vertex_count as int,
            edge_count: r.edge_count as int,
            memory_usage: r.memory_usage@,
        }) == storage_of(storage@, storage@.len()),
{
    let mut vertex_count: i64 = 0;
    let mut edge_count: i64 = 0;
    let mut memory_usage = "0B".to_string();
    let mut i: usize = 0;
    while i < storage.len()
        invariant
            i <= storage@.len(),
            storage_of(storage@, i as nat) == (StorageModel {
                vertex_count: vertex_count as int,
                edge_count: edge_count as int,
                memory_usage: memory_usage@,
            }),
        decreases storage@.len() - i,
    {
        let row = &storage[i];
        if let Some(info) = &row.info {
            if same_text(info.as_str(), "vertex_count") {
                vertex_count = read_count(row, vertex_count);
            } else if same_text(info.as_str(), "edge_count") {
                edge_count = read_count(row, edge_count);
            } else if same_text(info.as_str(), "db_storage_memory_tracked") || same_text(
                info.as_str(),
                "memory_res",
            ) {
                if let Some(t) = &row.text {
                    memory_usage = t.as_str().to_string();
                }
            }
        }
        i += 1;
    }
    GraphSummary {
        file_count: counts.file_count,
        function_count: counts.function_count,
        engram_count,
        native_ast_function_count: counts.native_ast_function_count,
        extension_wasm_function_count: counts.extension_wasm_function_count,
        text_heuristic_function_count: counts.text_heuristic_function_count,
        vertex_count,
        edge_count,
        memory_usage,
    }
}

// ---------------------------------------------------------------------------
// Proposed changes
// ---------------------------------------------------------------------------

/// The number of the next proposed change, if there are `count` already; the
/// first one has the number 101.
pub fn next_gpr_id(count: Option<i64>) -> (r: i64)
    requires
        count matches Some(n) ==> n <= i64::MAX - 101,
    ensures
        r == (match count {
            Some(n) => n as int,
            None => 0,
        }) + 101,
{
    match count {
        Some(n) => n + 101,
        None => 101,
    }
}

/// Whether a proposed change can be merged: only if it is there and still open.
pub fn merge_decision(status: Option<&str>) -> (r: Result<(), String>)
    ensures
        match (status, r) {
            (None, Err(message)) => message@ == "GPR not found"@,
            (Some(s), Ok(_)) => s@ == "PENDING"@,
            (Some(s), Err(message)) => s@ != "PENDING"@ && message@ == "GPR status is already "@
                + s@,
            (None, Ok(_)) => false,
        },
{
    match status {
        None => Err("GPR not found".to_string()),
        Some(s) => {
            if same_text(s, "PENDING") {
                Ok(())
            } else {
                Err(concat2("GPR status is already ", s))
            }
        },
    }
}

/// The kind of symbol that a name stands for: a class, or else a function.
pub open spec fn kind_named(name: Seq<char>) -> SymbolKind {
    if name == "Class"@ {
        SymbolKind::Class
    } else {
        SymbolKind::Function
    }
}

/// A proposed function as the graph returns it.
pub fn staged_function(name: String, kind: &str, start_line: i64, end_line: i64) -> (r:
    ExtractedFunction)
    ensures
        r.name == name,
        r.kind == kind_named(kind@),
        r.start_line == start_line as usize,
        r.end_line == end_line as usize,
{
    ExtractedFunction {
        name,
        kind: if same_text(kind, "Class") {
            SymbolKind::Class
        } else {
            SymbolKind::Function
        },
        start_line: start_line as usize,
        end_line: end_line as usize,
    }
}

/// A proposed file as the graph returns it. The graph does not keep how the functions
/// of a proposed file were found: they count as found by a grammar.
pub fn staged_file(path: String, language: String, functions: Vec<ExtractedFunction>) -> (r:
    FileDefinitionMap)
    ensures
        r.file_path == path,
        r.language == language,
        r.strategy == ParseStrategy::NativeAst,
        r.functions == functions,
{
    FileDefinitionMap { file_path: path, language, strategy: ParseStrategy::NativeAst, functions }
}

/// A proposed lesson as the graph returns it: what went wrong stands for its type.
pub fn staged_lesson(
    file_path: String,
    error_context: String,
    solution: String,
    timestamp: String,
) -> (r: LessonRecord)
    ensures
        r.file_path == file_path,
        r.error_type == error_context,
        r.solution == solution,
        r.timestamp == timestamp,
{
    LessonRecord { file_path, error_type: error_context, solution, timestamp }
}

/// A function keeps its kind and its lines when it is proposed and read back.
pub proof fn law_staged_functions_are_read_back(f: ExtractedFunction)
    requires
        f.start_line <= i64::MAX,
        f.end_line <= i64::MAX,
    ensures
        kind_named(crate::statements::kind_name(f.kind)) == f.kind,
        (f.start_line as i64) as usize == f.start_line,
        (f.end_line as i64) as usize == f.end_line,
{
    reveal_strlit("Class");
    reveal_strlit("Function");
    assert("Class"@.len() != "Function"@.len());
}

// ---------------------------------------------------------------------------
// Users
// ---------------------------------------------------------------------------

/// A user of a tenant with what is stored of the token.
#[derive(Debug, Clone, PartialEq, Eq)]
pub struct UserRow {
    pub name: String,
    pub role: String,
    pub token: String,
    pub tenant_id: String,
}

/// The user whose stored token accepts the token: the first one, if there are
/// several.
pub fn authenticate(users: &Vec<UserRow>, user_token: &str) -> (r: Option<UserRecord>)
    ensures
        match r {
            Some(user) => exists|i: int|
                0 <= i < users@.len() && credentials::token_matches(
                    (#[trigger] users@[i]).token@,
                    user_token@,
                ) && user.name@ == users@[i].name@ && user.role@ == users@[i].role@
                    && user.tenant_id@ == users@[i].tenant_id@ && user.token@ == user_token@
                    && forall|j: int|
                    0 <= j < i ==> !credentials::token_matches(
                        (#[trigger] users@[j]).token@,
                        user_token@,
                    ),
            None => forall|j: int|
                0 <= j < users@.len() ==> !credentials::token_matches(
                    (#[trigger] users@[j]).token@,
                    user_token@,
                ),
        },
{
    let mut i: usize = 0;
    while i < users.len()
        invariant
            i <= users@.len(),
            forall|j: int|
                0 <= j < i ==> !credentials::token_matches(
                    (#[trigger] users@[j]).token@,
                    user_token@,
                ),
        decreases users@.len() - i,
    {
        let user = &users[i];
        if verify_stored_token(user.token.as_str(), user_token) {
            assert(credentials::token_matches(users@[i as int].token@, user_token@));
            return Some(
                UserRecord {
                    name: user.name.as_str().to_string(),
                    role: user.role.as_str().to_string(),
                    token: user_token.to_string(),
                    tenant_id: user.tenant_id.as_str().to_string(),
                },
            );
        }
        i += 1;
    }
    None
}

/// Whether there are users at all, from their count if there is one.
pub fn has_users(count: Option<i64>) -> (r: bool)
    ensures
        r == (count matches Some(n) && n > 0),
{
    match count {
        Some(n) => n > 0,
        None => false,
    }
}

// ---------------------------------------------------------------------------
// Laws
// ---------------------------------------------------------------------------

/// A file has the functions of all its rows that name one, in the order of the rows.
pub proof fn law_every_named_function_is_kept(rows: Seq<ContextRow>)
    ensures
        named_functions(rows, rows.len()) == rows.filter(
            |row: ContextRow| row.function.name@.len() > 0,
        ).map_values(|row: ContextRow| row.function.deep_view()),
{
    lemma_named_functions(rows, rows.len());
    assert(rows.take(rows.len() as int) =~= rows);
}

proof fn lemma_named_functions(rows: Seq<ContextRow>, n: nat)
    requires
        n <= rows.len(),
    ensures
        named_functions(rows, n) == rows.take(n as int).filter(
            |row: ContextRow| row.function.name@.len() > 0,
        ).map_values(|row: ContextRow| row.function.deep_view()),
    decreases n,
{
    reveal(Seq::filter);
    let named = |row: ContextRow| row.function.name@.len() > 0;
    let model = |row: ContextRow| row.function.deep_view();
    let part = rows.take(n as int);
    if n > 0 {
        lemma_named_functions(rows, (n - 1) as nat);
        assert(part.drop_last() =~= rows.take(n - 1));
        assert(part.last() == rows[n - 1]);
        let before = part.drop_last().filter(named);
        if named(part.last()) {
            assert(before.push(part.last()).map_values(model) =~= before.map_values(model).push(
                model(part.last()),
            ));
        }
    } else {
        assert(part.filter(named).map_values(model) =~= named_functions(rows, 0));
    }
}

/// The last row on a figure gives it: as its number, or as the number that its text
/// stands for. A row changes no other figure, and one that is on nothing known changes
/// none.
pub proof fn law_the_last_row_gives_a_figure(rows: Seq<StorageRow>, row: StorageRow, n: i64)
    ensures
        ({
            let before = storage_of(rows, rows.len());
            let after = storage_of(rows.push(row), rows.len() + 1);
            let on = match row.info {
                Some(info) => info@,
                None => ""@,
            };
            let numbered = row.number == Some(n) || row.number is None && (row.text matches Some(t)
                && t@ == text::decimal(n as int));
            &&& on == "vertex_count"@ && numbered ==> after.vertex_count == n
            &&& on == "edge_count"@ && numbered ==> after.edge_count == n
            &&& on == "db_storage_memory_tracked"@ || on == "memory_res"@ ==> match row.text {
                Some(t) => after.memory_usage == t@,
                None => after.memory_usage == before.memory_usage,
            }
            &&& on != "vertex_count"@ ==> after.vertex_count == before.vertex_count
            &&& on != "edge_count"@ ==> after.edge_count == before.edge_count
            &&& on != "db_storage_memory_tracked"@ && on != "memory_res"@ ==> after.memory_usage
                == before.memory_usage
        }),
        storage_of(Seq::empty(), 0).vertex_count == 0,
        storage_of(Seq::empty(), 0).edge_count == 0,
{
    let all = rows.push(row);
    lemma_storage_prefix(rows, row, rows.len());
    text::law_numbers_are_read_back(n);
    reveal_strlit("");
    reveal_strlit("vertex_count");
    reveal_strlit("edge_count");
    reveal_strlit("db_storage_memory_tracked");
    reveal_strlit("memory_res");
    assert(""@.len() == 0 && "vertex_count"@.len() == 12 && "edge_count"@.len() == 10
        && "edge_count"@[0] == 'e' && "db_storage_memory_tracked"@.len() == 25
        && "memory_res"@[0] == 'm' && "memory_res"@.len() == 10);
    assert(storage_of(all, all.len()) == storage_step(storage_of(all, rows.len()), row));
}

proof fn lemma_storage_prefix(rows: Seq<StorageRow>, row: StorageRow, n: nat)
    requires
        n <= rows.len(),
    ensures
        storage_of(rows.push(row), n) == storage_of(rows, n),
    decreases n,
{
    if n > 0 {
        lemma_storage_prefix(rows, row, (n - 1) as nat);
    }
}

/// Before any row nothing is stored, and a row without a number leaves a figure as it
/// was. A name that is not that of classes stands for functions.
pub proof fn law_figures_without_rows(rows: Seq<StorageRow>, row: StorageRow, name: Seq<char>)
    ensures
        storage_of(Seq::empty(), 0).memory_usage == "0B"@,
        row.number is None && row.text is None ==> storage_of(rows.push(row), rows.len() + 1)
            == storage_of(rows, rows.len()),
        kind_named("Class"@) == SymbolKind::Class,
        name != "Class"@ ==> kind_named(name) == SymbolKind::Function,
{
    lemma_storage_prefix(rows, row, rows.len());
}

} // verus!
