//! What the command line client prints of proposed changes, lessons and projects.

use crate::config::OzymemConfig;
use crate::json::{JsonModel, JsonValue};
use crate::language::{ExtractedFunction, FileDefinitionMap, SymbolKind};
use crate::records::{GprRecord, LessonRecord};
use crate::statements;
use crate::text;
use crate::text::{
    all_lines, concat2, concat3, decimal_i64, decimal_usize, no_lines, one_line, pad, parse_i64,
    same_text, sort,
};
use vstd::prelude::*;

verus! {

// ---------------------------------------------------------------------------
// Proposed changes
// ---------------------------------------------------------------------------

pub const GPR_RULE: &'static str =
    "+------+----------------------+----------------------+----------------------+";

/// The row of a proposed change.
pub open spec fn gpr_row(gpr: GprRecord) -> Seq<char> {
    "| "@ + text::pad_text(text::decimal(gpr.id as int), 4) + " | "@ + text::pad_text(gpr.user@, 20)
        + " | "@ + text::pad_text(gpr.message@, 20) + " | "@ + text::pad_text(gpr.timestamp@, 20)
        + " |"@
}

/// The table of the proposed changes.
pub open spec fn gpr_table(list: Seq<GprRecord>) -> Seq<Seq<char>> {
    if list.len() == 0 {
        seq!["No hay Graph Pull Requests pendientes."@]
    } else {
        seq![
            "Graph Pull Requests Pendientes:"@,
            GPR_RULE@,
            "| ID   | Usuario              | Mensaje              | Fecha                |"@,
            GPR_RULE@,
        ] + Seq::new(list.len(), |i: int| gpr_row(list[i])) + seq![GPR_RULE@]
    }
}

/// The table of the proposed changes.
pub fn gpr_list_report(list: &Vec<GprRecord>) -> (r: Vec<String>)
    ensures
        r.deep_view() == gpr_table(list@),
{
    if list.len() == 0 {
        return one_line("No hay Graph Pull Requests pendientes.".to_string());
    }
    let head = vec![
        "Graph Pull Requests Pendientes:".to_string(),
        GPR_RULE.to_string(),
        "| ID   | Usuario              | Mensaje              | Fecha                |".to_string(),
        GPR_RULE.to_string(),
    ];
    assert(head.deep_view() =~= seq![
        "Graph Pull Requests Pendientes:"@,
        GPR_RULE@,
        "| ID   | Usuario              | Mensaje              | Fecha                |"@,
        GPR_RULE@,
    ]);
    let mut rows: Vec<String> = Vec::new();
    let mut i: usize = 0;
    while i < list.len()
        invariant
            i <= list@.len(),
            rows@.len() == i,
            forall|k: int| 0 <= k < i ==> (#[trigger] rows@[k])@ == gpr_row(list@[k]),
        decreases list@.len() - i,
    {
        let gpr = &list[i];
        let mut row = concat3("| ", pad(decimal_i64(gpr.id).as_str(), 4).as_str(), " | ");
        row.append(pad(gpr.user.as_str(), 20).as_str());
        row.append(" | ");
        row.append(pad(gpr.message.as_str(), 20).as_str());
        row.append(" | ");
        row.append(pad(gpr.timestamp.as_str(), 20).as_str());
        row.append(" |");
        rows.push(row);
        i += 1;
    }
    assert(rows.deep_view() =~= Seq::new(list@.len(), |k: int| gpr_row(list@[k])));
    all_lines(all_lines(head, rows), one_line(GPR_RULE.to_string()))
}

pub open spec fn function_line(function: ExtractedFunction) -> Seq<char> {
    "      * "@ + function.name@ + " ["@ + statements::kind_name(function.kind) + "] líneas "@ + text::decimal(
        function.start_line as int,
    ) + "-"@ + text::decimal(function.end_line as int)
}

pub open spec fn file_lines(file: FileDefinitionMap) -> Seq<Seq<char>> {
    seq![
        "  - "@ + file.file_path@ + " ("@ + file.language@ + "): "@ + text::decimal(
            file.functions@.len() as int,
        ) + " símbolos"@,
    ] + Seq::new(file.functions@.len(), |i: int| function_line(file.functions@[i]))
}

pub open spec fn lesson_lines(lesson: LessonRecord) -> Seq<Seq<char>> {
    seq![
        "  - Archivo: "@ + lesson.file_path@,
        "    Error:   "@ + lesson.error_type@,
        "    Solución: "@ + lesson.solution@,
    ]
}

/// The lines of the first `n` items, one after the other.
pub open spec fn lines_of_all<T>(
    items: Seq<T>,
    n: nat,
    lines: spec_fn(T) -> Seq<Seq<char>>,
) -> Seq<Seq<char>>
    decreases n,
{
    if n == 0 || n > items.len() {
        Seq::empty()
    } else {
        lines_of_all(items, (n - 1) as nat, lines) + lines(items[n - 1])
    }
}

/// The account of a proposed change: its files with their symbols, and its
/// lessons.
pub open spec fn gpr_details(
    gpr_id: int,
    message: Seq<char>,
    user: Seq<char>,
    files: Seq<FileDefinitionMap>,
    lessons: Seq<LessonRecord>,
) -> Seq<Seq<char>> {
    seq![
        "Detalles del Graph Pull Request #"@ + text::decimal(gpr_id),
        "========================================"@,
        "Usuario:   "@ + user,
        "Mensaje:   "@ + message,
        "Archivos Propuestos ("@ + text::decimal(files.len() as int) + "):"@,
    ] + lines_of_all(files, files.len(), |file: FileDefinitionMap| file_lines(file)) + (
    if lessons.len() == 0 {
        Seq::empty()
    } else {
        seq!["Lecciones Propuestas ("@ + text::decimal(lessons.len() as int) + "):"@]
            + lines_of_all(lessons, lessons.len(), |lesson: LessonRecord| lesson_lines(lesson))
    }) + seq!["========================================"@]
}

fn file_report(file: &FileDefinitionMap) -> (r: Vec<String>)
    ensures
        r.deep_view() == file_lines(*file),
{
    let mut head = concat3("  - ", file.file_path.as_str(), " (");
    head.append(file.language.as_str());
    head.append("): ");
    head.append(decimal_usize(file.functions.len()).as_str());
    head.append(" símbolos");
    let mut rows: Vec<String> = Vec::new();
    let mut i: usize = 0;
    while i < file.functions.len()
        invariant
            i <= file.functions@.len(),
            rows@.len() == i,
            forall|k: int|
                0 <= k < i ==> (#[trigger] rows@[k])@ == function_line(file.functions@[k]),
        decreases file.functions@.len() - i,
    {
        let function = &file.functions[i];
        let kind = match function.kind {
            SymbolKind::Function => "Function",
            SymbolKind::Class => "Class",
        };
        let mut row = concat3("      * ", function.name.as_str(), " [");
        row.append(kind);
        row.append("] líneas ");
        row.append(decimal_usize(function.start_line).as_str());
        row.append("-");
        row.append(decimal_usize(function.end_line).as_str());
        rows.push(row);
        i += 1;
    }
    let ghost functions = file.functions@;
    assert(rows.deep_view() =~= Seq::new(functions.len(), |k: int| function_line(functions[k])));
    all_lines(one_line(head), rows)
}

fn lesson_report(lesson: &LessonRecord) -> (r: Vec<String>)
    ensures
        r.deep_view() == lesson_lines(*lesson),
{
    let r = vec![
        concat2("  - Archivo: ", lesson.file_path.as_str()),
        concat2("    Error:   ", lesson.error_type.as_str()),
        concat2("    Solución: ", lesson.solution.as_str()),
    ];
    assert(r.deep_view() =~= lesson_lines(*lesson));
    r
}

fn file_reports(files: &Vec<FileDefinitionMap>) -> (r: Vec<String>)
    ensures
        r.deep_view() == lines_of_all(
            files@,
            files@.len(),
            |file: FileDefinitionMap| file_lines(file),
        ),
{
    let ghost lines = |file: FileDefinitionMap| file_lines(file);
    let mut out = no_lines();
    let mut i: usize = 0;
    while i < files.len()
        invariant
            i <= files@.len(),
            lines == (|file: FileDefinitionMap| file_lines(file)),
            out.deep_view() == lines_of_all(files@, i as nat, lines),
        decreases files@.len() - i,
    {
        out = all_lines(out, file_report(&files[i]));
        i += 1;
    }
    out
}

fn lesson_reports(lessons: &Vec<LessonRecord>) -> (r: Vec<String>)
    ensures
        r.deep_view() == lines_of_all(
            lessons@,
            lessons@.len(),
            |lesson: LessonRecord| lesson_lines(lesson),
        ),
{
    let ghost lines = |lesson: LessonRecord| lesson_lines(lesson);
    let mut out = no_lines();
    let mut i: usize = 0;
    while i < lessons.len()
        invariant
            i <= lessons@.len(),
            lines == (|lesson: LessonRecord| lesson_lines(lesson)),
            out.deep_view() == lines_of_all(lessons@, i as nat, lines),
        decreases lessons@.len() - i,
    {
        out = all_lines(out, lesson_report(&lessons[i]));
        i += 1;
    }
    out
}

/// The account of a proposed change.
pub fn gpr_diff_report(
    gpr_id: i64,
    message: &str,
    user: &str,
    files: &Vec<FileDefinitionMap>,
    lessons: &Vec<LessonRecord>,
) -> (r: Vec<String>)
    ensures
        r.deep_view() == gpr_details(gpr_id as int, message@, user@, files@, lessons@),
{
    let head = vec![
        concat2("Detalles del Graph Pull Request #", decimal_i64(gpr_id).as_str()),
        "========================================".to_string(),
        concat2("Usuario:   ", user),
        concat2("Mensaje:   ", message),
        concat3("Archivos Propuestos (", decimal_usize(files.len()).as_str(), "):"),
    ];
    assert(head.deep_view() =~= seq![
        "Detalles del Graph Pull Request #"@ + text::decimal(gpr_id as int),
        "========================================"@,
        "Usuario:   "@ + user@,
        "Mensaje:   "@ + message@,
        "Archivos Propuestos ("@ + text::decimal(files@.len() as int) + "):"@,
    ]);
    let with_files = all_lines(head, file_reports(files));
    let tail = if lessons.len() == 0 {
        no_lines()
    } else {
        all_lines(
            one_line(
                concat3("Lecciones Propuestas (", decimal_usize(lessons.len()).as_str(), "):"),
            ),
            lesson_reports(lessons),
        )
    };
    all_lines(
        all_lines(with_files, tail),
        one_line("========================================".to_string()),
    )
}

/// The number of a proposed change in the server's answer, or 0.
pub open spec fn answered_id(answer: JsonModel) -> int {
    match answer.get("gpr_id"@) {
        Some(JsonModel::Number(digits)) => match text::parse_i64_text(digits) {
            Some(n) => n,
            None => 0,
        },
        _ => 0,
    }
}

/// What is said of the server's answer to a proposal.
pub fn push_report(answer: &JsonValue) -> (r: String)
    ensures
        r@ == if answer.model().text_at("status"@) == Some("merged"@) {
            "[SUCCESS] Cambios fusionados directamente (rol Lead)."@
        } else {
            "[SUCCESS] Graph Pull Request enviado con éxito. ID asignado: "@ + text::decimal(
                answered_id(answer.model()),
            )
        },
{
    let merged = match answer.get_str("status") {
        Some(status) => same_text(status, "merged"),
        None => false,
    };
    if merged {
        return "[SUCCESS] Cambios fusionados directamente (rol Lead).".to_string();
    }
    let id: i64 = match answer.get("gpr_id") {
        Some(JsonValue::Number(digits)) => match parse_i64(digits.as_str()) {
            Some(n) => n,
            None => 0,
        },
        _ => 0,
    };
    concat2(
        "[SUCCESS] Graph Pull Request enviado con éxito. ID asignado: ",
        decimal_i64(id).as_str(),
    )
}

/// What is said when a proposal was made in the local graph.
pub fn local_push_report(gpr_id: i64) -> (r: String)
    ensures
        r@ == "[SUCCESS] Graph Pull Request creado localmente con ID: "@ + text::decimal(
            gpr_id as int,
        ),
{
    concat2(
        "[SUCCESS] Graph Pull Request creado localmente con ID: ",
        decimal_i64(gpr_id).as_str(),
    )
}

/// What is said of the files of a proposal before it is made, and whether it is
/// made: a proposal without files is not.
pub fn push_announcement(count: usize, message: &str) -> (r: (bool, String))
    ensures
        r.0 == (count > 0),
        r.1@ == if count == 0 {
            "No se encontraron archivos de código para incluir en el GPR."@
        } else {
            "GPR: Enviando "@ + text::decimal(count as int) + " archivos al servidor con el mensaje '"@
                + message@ + "'..."@
        },
{
    if count == 0 {
        return (
            false,
            "No se encontraron archivos de código para incluir en el GPR.".to_string(),
        );
    }
    let mut out = concat3(
        "GPR: Enviando ",
        decimal_usize(count).as_str(),
        " archivos al servidor con el mensaje '",
    );
    out.append(message);
    out.append("'...");
    (true, out)
}

/// What is said when a proposed change was taken over.
pub fn merge_report(gpr_id: i64, local: bool) -> (r: String)
    ensures
        r@ == "[SUCCESS] GPR #"@ + text::decimal(gpr_id as int) + if local {
            " fusionado localmente con éxito."@
        } else {
            " fusionado con éxito en el servidor."@
        },
{
    concat3(
        "[SUCCESS] GPR #",
        decimal_i64(gpr_id).as_str(),
        if local {
            " fusionado localmente con éxito."
        } else {
            " fusionado con éxito en el servidor."
        },
    )
}

// ---------------------------------------------------------------------------
// Lessons
// ---------------------------------------------------------------------------

pub open spec fn engram_lines(lesson: LessonRecord) -> Seq<Seq<char>> {
    seq![
        "[Error: "@ + lesson.error_type@ + "] -> "@ + lesson.file_path@,
        "Solution: "@ + lesson.solution@,
        ""@,
    ]
}

/// What is known of earlier errors.
pub open spec fn knowledge_lines(lessons: Seq<LessonRecord>) -> Seq<Seq<char>> {
    seq!["HISTORICAL KNOWLEDGE BASE"@, "-------------------------"@] + if lessons.len() == 0 {
        seq!["No historical lessons found."@]
    } else {
        lines_of_all(lessons, lessons.len(), |lesson: LessonRecord| engram_lines(lesson))
    }
}

/// The lines on a lesson.
pub fn lesson_record_lines(lesson: &LessonRecord) -> (r: Vec<String>)
    ensures
        r.deep_view() == engram_lines(*lesson),
{
    let mut head = concat3("[Error: ", lesson.error_type.as_str(), "] -> ");
    head.append(lesson.file_path.as_str());
    let r = vec![head, concat2("Solution: ", lesson.solution.as_str()), "".to_string()];
    assert(r.deep_view() =~= engram_lines(*lesson));
    r
}

/// What is known of earlier errors.
pub fn lessons_report(lessons: &Vec<LessonRecord>) -> (r: Vec<String>)
    ensures
        r.deep_view() == knowledge_lines(lessons@),
{
    let ghost lines = |lesson: LessonRecord| engram_lines(lesson);
    let head = vec![
        "HISTORICAL KNOWLEDGE BASE".to_string(),
        "-------------------------".to_string(),
    ];
    assert(head.deep_view() =~= seq![
        "HISTORICAL KNOWLEDGE BASE"@,
        "-------------------------"@,
    ]);
    if lessons.len() == 0 {
        return all_lines(head, one_line("No historical lessons found.".to_string()));
    }
    let mut out = no_lines();
    let mut i: usize = 0;
    while i < lessons.len()
        invariant
            i <= lessons@.len(),
            lines == (|lesson: LessonRecord| engram_lines(lesson)),
            out.deep_view() == lines_of_all(lessons@, i as nat, lines),
        decreases lessons@.len() - i,
    {
        out = all_lines(out, lesson_record_lines(&lessons[i]));
        i += 1;
    }
    all_lines(head, out)
}

// ---------------------------------------------------------------------------
// Projects
// ---------------------------------------------------------------------------

pub const PROJECT_RULE: &'static str =
    "+---------------------------+------------------------------------------------------------+";

pub open spec fn project_row(project: (String, String)) -> Seq<char> {
    "| "@ + text::pad_text(project.0@, 25) + " | "@ + text::pad_text(project.1@, 58) + " |"@
}

/// The table of the registered projects.
pub open spec fn project_table(projects: Seq<(String, String)>) -> Seq<Seq<char>> {
    if projects.len() == 0 {
        seq![
            "[INFO] No hay proyectos registrados todavía. Usa 'ozymem register' para registrar uno."@,
        ]
    } else {
        seq![
            PROJECT_RULE@,
            "| Nombre del Proyecto       | Ruta Registrada                                            |"@,
            PROJECT_RULE@,
        ] + Seq::new(projects.len(), |i: int| project_row(projects[i])) + seq![PROJECT_RULE@]
    }
}

/// The table of the registered projects.
pub fn project_list_report(config: &OzymemConfig) -> (r: Vec<String>)
    ensures
        r.deep_view() == project_table(config.projects@),
{
    if config.projects.len() == 0 {
        return one_line(
            "[INFO] No hay proyectos registrados todavía. Usa 'ozymem register' para registrar uno.".to_string(),
        );
    }
    let head = vec![
        PROJECT_RULE.to_string(),
        "| Nombre del Proyecto       | Ruta Registrada                                            |".to_string(),
        PROJECT_RULE.to_string(),
    ];
    assert(head.deep_view() =~= seq![
        PROJECT_RULE@,
        "| Nombre del Proyecto       | Ruta Registrada                                            |"@,
        PROJECT_RULE@,
    ]);
    let mut rows: Vec<String> = Vec::new();
    let mut i: usize = 0;
    while i < config.projects.len()
        invariant
            i <= config.projects@.len(),
            rows@.len() == i,
            forall|k: int| 0 <= k < i ==> (#[trigger] rows@[k])@ == project_row(config.projects@[k]),
        decreases config.projects@.len() - i,
    {
        let project = &config.projects[i];
        let mut row = concat3("| ", pad(project.0.as_str(), 25).as_str(), " | ");
        row.append(pad(project.1.as_str(), 58).as_str());
        row.append(" |");
        rows.push(row);
        i += 1;
    }
    let ghost projects = config.projects@;
    assert(rows.deep_view() =~= Seq::new(projects.len(), |k: int| project_row(projects[k])));
    all_lines(all_lines(head, rows), one_line(PROJECT_RULE.to_string()))
}

/// The names without the one of the repository's own directory.
pub open spec fn without_git(names: Seq<Seq<char>>) -> Seq<Seq<char>>
    decreases names.len(),
{
    if names.len() == 0 {
        Seq::empty()
    } else {
        let before = without_git(names.drop_last());
        if names.last() == ".git"@ {
            before
        } else {
            before.push(names.last())
        }
    }
}

/// The names in a directory that can be ignored, in their order.
pub fn ignorable_names(names: &Vec<String>) -> (r: Vec<String>)
    ensures
        text::sorted_texts(r.deep_view()),
        r.deep_view().to_multiset() == without_git(names.deep_view()).to_multiset(),
{
    let ghost texts = names.deep_view();
    let mut kept = no_lines();
    let mut i: usize = 0;
    assert(texts.take(0) =~= Seq::empty());
    while i < names.len()
        invariant
            i <= names@.len(),
            texts == names.deep_view(),
            kept.deep_view() == without_git(texts.take(i as int)),
        decreases names@.len() - i,
    {
        proof {
            assert(texts.take(i + 1).drop_last() =~= texts.take(i as int));
            assert(texts.take(i + 1).last() == names@[i as int]@);
        }
        let name = names[i].as_str();
        if !same_text(name, ".git") {
            let ghost before = kept.deep_view();
            kept.push(name.to_string());
            assert(kept.deep_view() =~= before.push(name@));
        }
        i += 1;
    }
    assert(texts.take(names@.len() as int) =~= texts);
    sort(&kept)
}

/// The text of the file that lists what is ignored: a line for each name that was
/// chosen.
pub open spec fn ignore_text(names: Seq<Seq<char>>, chosen: Seq<usize>) -> Seq<char>
    decreases chosen.len(),
{
    if chosen.len() == 0 {
        ""@
    } else {
        ignore_text(names, chosen.drop_last()) + names[chosen.last() as int] + "\n"@
    }
}

/// The text of the file that lists what is ignored.
pub fn ignore_file(names: &Vec<String>, chosen: &Vec<usize>) -> (r: String)
    requires
        forall|i: int| 0 <= i < chosen@.len() ==> (#[trigger] chosen@[i]) < names@.len(),
    ensures
        r@ == ignore_text(names.deep_view(), chosen@),
{
    let mut out = "".to_string();
    let mut i: usize = 0;
    assert(chosen@.take(0) =~= Seq::empty());
    while i < chosen.len()
        invariant
            i <= chosen@.len(),
            forall|k: int| 0 <= k < chosen@.len() ==> (#[trigger] chosen@[k]) < names@.len(),
            out@ == ignore_text(names.deep_view(), chosen@.take(i as int)),
        decreases chosen@.len() - i,
    {
        assert(chosen@.take(i + 1).drop_last() =~= chosen@.take(i as int));
        out.append(names[chosen[i]].as_str());
        out.append("\n");
        i += 1;
    }
    assert(chosen@.take(chosen@.len() as int) =~= chosen@);
    out
}

/// What is said of the removal of a file from the graph.
pub fn clean_report(path: &str, deleted: bool) -> (r: String)
    ensures
        r@ == "[Core] El archivo "@ + path@ + if deleted {
            " y sus funciones fueron eliminados del grafo."@
        } else {
            " no se encontró en el grafo. Nada que eliminar."@
        },
{
    concat3(
        "[Core] El archivo ",
        path,
        if deleted {
            " y sus funciones fueron eliminados del grafo."
        } else {
            " no se encontró en el grafo. Nada que eliminar."
        },
    )
}

// ---------------------------------------------------------------------------
// Laws
// ---------------------------------------------------------------------------

/// Every proposed change has one row in the table, in the order of the list.
pub proof fn law_every_gpr_has_a_row(list: Seq<GprRecord>, i: int)
    requires
        0 <= i < list.len(),
    ensures
        gpr_table(list).len() == list.len() + 5,
        gpr_table(list)[i + 4] == gpr_row(list[i]),
{
}

/// The repository's own directory is never offered to be ignored, and every other
/// name is.
pub proof fn law_all_but_git_are_offered(names: Seq<Seq<char>>, name: Seq<char>)
    ensures
        without_git(names).contains(name) <==> names.contains(name) && name != ".git"@,
    decreases names.len(),
{
    if names.len() > 0 {
        let rest = names.drop_last();
        law_all_but_git_are_offered(rest, name);
        let kept = without_git(rest);
        assert(names =~= rest.push(names.last()));
        if rest.contains(name) {
            let j = choose|j: int| 0 <= j < rest.len() && rest[j] == name;
            assert(names[j] == name);
        }
        if names.contains(name) {
            let j = choose|j: int| 0 <= j < names.len() && names[j] == name;
            if j < rest.len() {
                assert(rest[j] == name);
            }
        }
        if names.last() != ".git"@ {
            let grown = kept.push(names.last());
            assert(grown[grown.len() - 1] == names.last());
            if kept.contains(name) {
                let j = choose|j: int| 0 <= j < kept.len() && kept[j] == name;
                assert(grown[j] == name);
            }
            if grown.contains(name) {
                let j = choose|j: int| 0 <= j < grown.len() && grown[j] == name;
                if j < kept.len() {
                    assert(kept[j] == name);
                }
            }
        }
    }
}

proof fn lemma_lines_of_all<T>(items: Seq<T>, n: nat, lines: spec_fn(T) -> Seq<Seq<char>>)
    requires
        n <= items.len(),
    ensures
        lines_of_all(items, n, lines) == items.take(n as int).map_values(lines).flatten(),
    decreases n,
{
    let parts = items.take(n as int).map_values(lines);
    if n == 0 {
        assert(parts.flatten() =~= Seq::<Seq<char>>::empty());
    } else {
        lemma_lines_of_all(items, (n - 1) as nat, lines);
        let before = items.take(n - 1).map_values(lines);
        assert(parts =~= before.push(lines(items[n - 1])));
        before.lemma_flatten_push(lines(items[n - 1]));
    }
}

/// The account of a proposed change holds every file with its path, its language and
/// every one of its functions, and every lesson with its file, its error and its
/// solution, all in their order and nothing else.
pub proof fn law_accounts_are_complete(
    gpr_id: int,
    message: Seq<char>,
    user: Seq<char>,
    files: Seq<FileDefinitionMap>,
    lessons: Seq<LessonRecord>,
)
    ensures
        gpr_details(gpr_id, message, user, files, lessons) == seq![
            "Detalles del Graph Pull Request #"@ + text::decimal(gpr_id),
            "========================================"@,
            "Usuario:   "@ + user,
            "Mensaje:   "@ + message,
            "Archivos Propuestos ("@ + text::decimal(files.len() as int) + "):"@,
        ] + files.map_values(
            |file: FileDefinitionMap|
                seq![
                    "  - "@ + file.file_path@ + " ("@ + file.language@ + "): "@ + text::decimal(
                        file.functions@.len() as int,
                    ) + " símbolos"@,
                ] + file.functions@.map_values(
                    |f: ExtractedFunction|
                        "      * "@ + f.name@ + " ["@ + (if f.kind == SymbolKind::Class {
                            "Class"@
                        } else {
                            "Function"@
                        }) + "] líneas "@ + text::decimal(f.start_line as int) + "-"@
                            + text::decimal(f.end_line as int),
                ),
        ).flatten() + (if lessons.len() == 0 {
            Seq::empty()
        } else {
            seq!["Lecciones Propuestas ("@ + text::decimal(lessons.len() as int) + "):"@]
                + lessons.map_values(
                |lesson: LessonRecord|
                    seq![
                        "  - Archivo: "@ + lesson.file_path@,
                        "    Error:   "@ + lesson.error_type@,
                        "    Solución: "@ + lesson.solution@,
                    ],
            ).flatten()
        }) + seq!["========================================"@],
{
    let shown = |file: FileDefinitionMap|
        seq![
            "  - "@ + file.file_path@ + " ("@ + file.language@ + "): "@ + text::decimal(
                file.functions@.len() as int,
            ) + " símbolos"@,
        ] + file.functions@.map_values(
            |f: ExtractedFunction|
                "      * "@ + f.name@ + " ["@ + (if f.kind == SymbolKind::Class {
                    "Class"@
                } else {
                    "Function"@
                }) + "] líneas "@ + text::decimal(f.start_line as int) + "-"@ + text::decimal(
                    f.end_line as int,
                ),
        );
    let told = |lesson: LessonRecord|
        seq![
            "  - Archivo: "@ + lesson.file_path@,
            "    Error:   "@ + lesson.error_type@,
            "    Solución: "@ + lesson.solution@,
        ];
    let file_part = |file: FileDefinitionMap| file_lines(file);
    let lesson_part = |lesson: LessonRecord| lesson_lines(lesson);
    lemma_lines_of_all(files, files.len(), file_part);
    lemma_lines_of_all(lessons, lessons.len(), lesson_part);
    assert(files.take(files.len() as int) =~= files);
    assert(lessons.take(lessons.len() as int) =~= lessons);
    assert forall|file: FileDefinitionMap| #[trigger] file_lines(file) =~= shown(file) by {
        let functions = file.functions@;
        assert(Seq::new(functions.len(), |i: int| function_line(functions[i]))
            =~= functions.map_values(
            |f: ExtractedFunction|
                "      * "@ + f.name@ + " ["@ + (if f.kind == SymbolKind::Class {
                    "Class"@
                } else {
                    "Function"@
                }) + "] líneas "@ + text::decimal(f.start_line as int) + "-"@ + text::decimal(
                    f.end_line as int,
                ),
        ));
    }
    assert(files.map_values(file_part) =~= files.map_values(shown));
    assert(lessons.map_values(lesson_part) =~= lessons.map_values(told));
}

/// What is known of earlier errors holds every lesson, with its error, its file and its
/// solution, in their order; that there is none is said.
pub proof fn law_every_lesson_is_told(lessons: Seq<LessonRecord>)
    ensures
        lessons.len() > 0 ==> knowledge_lines(lessons) == seq![
            "HISTORICAL KNOWLEDGE BASE"@,
            "-------------------------"@,
        ] + lessons.map_values(
            |lesson: LessonRecord|
                seq![
                    "[Error: "@ + lesson.error_type@ + "] -> "@ + lesson.file_path@,
                    "Solution: "@ + lesson.solution@,
                    ""@,
                ],
        ).flatten(),
        lessons.len() == 0 ==> knowledge_lines(lessons).last() == "No historical lessons found."@,
{
    let part = |lesson: LessonRecord| engram_lines(lesson);
    let told = |lesson: LessonRecord|
        seq![
            "[Error: "@ + lesson.error_type@ + "] -> "@ + lesson.file_path@,
            "Solution: "@ + lesson.solution@,
            ""@,
        ];
    lemma_lines_of_all(lessons, lessons.len(), part);
    assert(lessons.take(lessons.len() as int) =~= lessons);
    assert(lessons.map_values(part) =~= lessons.map_values(told));
}

/// The row of a proposed change holds its number, its user, its message and its time, in
/// this order, each filled up to the width of its column.
pub proof fn law_rows_hold_what_is_proposed(list: Seq<GprRecord>, i: int)
    requires
        0 <= i < list.len(),
    ensures
        gpr_table(list)[i + 4] == "| "@ + text::pad_text(text::decimal(list[i].id as int), 4)
            + " | "@ + text::pad_text(list[i].user@, 20) + " | "@ + text::pad_text(
            list[i].message@,
            20,
        ) + " | "@ + text::pad_text(list[i].timestamp@, 20) + " |"@,
{
}

/// Every registered project has its row, with its name and its path, in their order.
pub proof fn law_every_project_has_a_row(projects: Seq<(String, String)>, i: int)
    requires
        0 <= i < projects.len(),
    ensures
        project_table(projects).len() == projects.len() + 4,
        project_table(projects)[i + 3] == "| "@ + text::pad_text(projects[i].0@, 25) + " | "@
            + text::pad_text(projects[i].1@, 58) + " |"@,
{
}

/// The file that lists what is ignored has a line for each name that was chosen, in the
/// order of the choice, and nothing else.
pub proof fn law_every_choice_is_ignored(names: Seq<Seq<char>>, chosen: Seq<usize>)
    ensures
        ignore_text(names, chosen) == chosen.map_values(
            |k: usize| names[k as int].push('\n'),
        ).flatten(),
    decreases chosen.len(),
{
    reveal_strlit("");
    reveal_strlit("\n");
    let line = |k: usize| names[k as int].push('\n');
    let lines = chosen.map_values(line);
    if chosen.len() == 0 {
        assert(lines.flatten() =~= ignore_text(names, chosen));
    } else {
        law_every_choice_is_ignored(names, chosen.drop_last());
        let before = chosen.drop_last().map_values(line);
        assert(lines =~= before.push(line(chosen.last())));
        before.lemma_flatten_push(line(chosen.last()));
        let front = ignore_text(names, chosen.drop_last());
        assert(front + names[chosen.last() as int] + "\n"@ =~= front + line(chosen.last()));
    }
}

/// The number of a proposed change is read back from the server's answer.
pub proof fn law_answered_numbers_are_read_back(answer: JsonModel, gpr_id: i64)
    requires
        answer.get("gpr_id"@) == Some(JsonModel::Number(text::decimal(gpr_id as int))),
    ensures
        answered_id(answer) == gpr_id,
{
    text::law_numbers_are_read_back(gpr_id);
}

/// The rows of the tables are as wide as the rules above and below them, if what they
/// hold fits in their columns.
pub proof fn law_rows_are_as_wide_as_the_rules(gpr: GprRecord, project: (String, String))
    ensures
        text::decimal(gpr.id as int).len() <= 4 && gpr.user@.len() <= 20 && gpr.message@.len()
            <= 20 && gpr.timestamp@.len() <= 20 ==> gpr_row(gpr).len() == GPR_RULE@.len(),
        project.0@.len() <= 25 && project.1@.len() <= 58 ==> project_row(project).len()
            == PROJECT_RULE@.len(),
{
    reveal_strlit("+------+----------------------+----------------------+----------------------+");
    reveal_strlit(
        "+---------------------------+------------------------------------------------------------+",
    );
    reveal_strlit("| ");
    reveal_strlit(" | ");
    reveal_strlit(" |");
    text::law_filling_up_adds_blanks(text::decimal(gpr.id as int), 4);
    text::law_filling_up_adds_blanks(gpr.user@, 20);
    text::law_filling_up_adds_blanks(gpr.message@, 20);
    text::law_filling_up_adds_blanks(gpr.timestamp@, 20);
    text::law_filling_up_adds_blanks(project.0@, 25);
    text::law_filling_up_adds_blanks(project.1@, 58);
}

/// A table that would be empty is not shown; it is said that there is nothing. The
/// titles of the others name their columns.
pub proof fn law_titles_of_the_tables(list: Seq<GprRecord>, projects: Seq<(String, String)>)
    ensures
        list.len() == 0 ==> gpr_table(list) == seq!["No hay Graph Pull Requests pendientes."@],
        list.len() > 0 ==> gpr_table(list)[0] == "Graph Pull Requests Pendientes:"@
            && gpr_table(list)[2]
            == "| ID   | Usuario              | Mensaje              | Fecha                |"@
            && gpr_table(list)[1] == GPR_RULE@ && gpr_table(list)[3] == GPR_RULE@ && gpr_table(
            list,
        ).last() == GPR_RULE@,
        projects.len() == 0 ==> project_table(projects) == seq![
            "[INFO] No hay proyectos registrados todavía. Usa 'ozymem register' para registrar uno."@,
        ],
        projects.len() > 0 ==> project_table(projects)[1]
            == "| Nombre del Proyecto       | Ruta Registrada                                            |"@
            && project_table(projects)[0] == PROJECT_RULE@ && project_table(projects)[2]
            == PROJECT_RULE@ && project_table(projects).last() == PROJECT_RULE@,
{
}

} // verus!
