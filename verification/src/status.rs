//! What the command line client shows of the graph and of its watchers.

use crate::json::{JsonModel, JsonValue};
use crate::records::GraphSummary;
use crate::text;
use crate::text::{
    concat2, concat3, decimal_i64, decimal_u64, has_char, has_text, is_blank, lines, lowercase, pad,
    parse_unsigned, same_text, split, trim,
};
use vstd::prelude::*;
use vstd::utf8;

verus! {

// ---------------------------------------------------------------------------
// Bytes of a text
// ---------------------------------------------------------------------------

/// Number of bytes of a text.
pub open spec fn byte_len(s: Seq<char>) -> nat {
    utf8::encode_utf8(s).len()
}

/// The characters of the first `n` bytes.
pub open spec fn first_bytes(s: Seq<char>, n: int) -> Seq<char> {
    utf8::decode_utf8(utf8::encode_utf8(s).subrange(0, n))
}

/// The characters of the bytes from `n` on.
pub open spec fn bytes_from(s: Seq<char>, n: int) -> Seq<char> {
    utf8::decode_utf8(utf8::encode_utf8(s).subrange(n, utf8::encode_utf8(s).len() as int))
}

fn byte_count(s: &str) -> (r: usize)
    ensures
        r == byte_len(s@),
{
    s.as_bytes().len()
}

fn take_bytes(s: &str, n: usize) -> (r: String)
    requires
        utf8::is_char_boundary(utf8::encode_utf8(s@), n as int),
    ensures
        r@ == first_bytes(s@, n as int),
{
    let (head, _) = s.split_at(n);
    proof {
        utf8::encode_utf8_decode_utf8(head@);
    }
    head.to_string()
}

fn skip_bytes(s: &str, n: usize) -> (r: String)
    requires
        utf8::is_char_boundary(utf8::encode_utf8(s@), n as int),
    ensures
        r@ == bytes_from(s@, n as int),
{
    let (_, tail) = s.split_at(n);
    proof {
        utf8::encode_utf8_decode_utf8(tail@);
    }
    tail.to_string()
}

// ---------------------------------------------------------------------------
// Logs
// ---------------------------------------------------------------------------

/// A log file: not there, not readable, or its text.
#[derive(Debug, Clone, PartialEq, Eq)]
pub enum LogFile {
    Missing,
    Unreadable,
    Content(String),
}

/// The last line that is not blank.
pub open spec fn last_non_blank(lines: Seq<Seq<char>>) -> Option<Seq<char>>
    decreases lines.len(),
{
    if lines.len() == 0 {
        None
    } else if text::trim_text(lines.last()).len() == 0 {
        last_non_blank(lines.drop_last())
    } else {
        Some(text::trim_text(lines.last()))
    }
}

/// The last line of a log, without white space around it.
pub open spec fn last_line(log: LogFile) -> Option<Seq<char>> {
    match log {
        LogFile::Content(content) => last_non_blank(text::lines_of(content@)),
        _ => None,
    }
}

/// A line can be shortened: no character lies across the place of the cut.
pub open spec fn line_fits(line: Seq<char>) -> bool {
    byte_len(line) > 60 ==> utf8::is_char_boundary(utf8::encode_utf8(line), 57)
}

pub open spec fn log_fits(log: LogFile) -> bool {
    match last_line(log) {
        Some(line) => line_fits(line),
        None => true,
    }
}

/// The last line of a log, shortened to 60 bytes, or why there is none.
pub open spec fn log_line(log: LogFile) -> Seq<char> {
    match log {
        LogFile::Missing => "Watcher no inicializado."@,
        LogFile::Unreadable => "Error al leer bitacora."@,
        LogFile::Content(_) => match last_line(log) {
            None => "Bitacora vacia."@,
            Some(line) => if byte_len(line) > 60 {
                first_bytes(line, 57) + "..."@
            } else {
                line
            },
        },
    }
}

fn find_last_line(content: &str) -> (r: Option<String>)
    ensures
        match r {
            Some(line) => last_non_blank(text::lines_of(content@)) == Some(line@),
            None => last_non_blank(text::lines_of(content@)) is None,
        },
{
    let all = lines(content);
    let ghost texts = all.deep_view();
    let mut n: usize = all.len();
    assert(texts.take(n as int) =~= texts);
    while n > 0
        invariant
            n <= all@.len(),
            texts == all.deep_view(),
            texts == text::lines_of(content@),
            last_non_blank(texts) == last_non_blank(texts.take(n as int)),
        decreases n,
    {
        proof {
            assert(texts.take(n as int).drop_last() =~= texts.take(n - 1));
            assert(texts.take(n as int).last() == all@[n - 1]@);
        }
        if !is_blank(all[n - 1].as_str()) {
            return Some(trim(all[n - 1].as_str()));
        }
        n -= 1;
    }
    None
}

/// Whether the last line of a log can be shortened.
pub fn log_line_fits(log: &LogFile) -> (r: bool)
    ensures
        r == log_fits(*log),
{
    match log {
        LogFile::Content(content) => match find_last_line(content.as_str()) {
            Some(line) => byte_count(line.as_str()) <= 60 || line.as_str().is_char_boundary(57),
            None => true,
        },
        _ => true,
    }
}

/// The last line of a log, shortened, or why there is none.
pub fn get_last_log_line(log: &LogFile) -> (r: String)
    requires
        log_fits(*log),
    ensures
        r@ == log_line(*log),
{
    match log {
        LogFile::Missing => "Watcher no inicializado.".to_string(),
        LogFile::Unreadable => "Error al leer bitacora.".to_string(),
        LogFile::Content(content) => match find_last_line(content.as_str()) {
            None => "Bitacora vacia.".to_string(),
            Some(line) => {
                if byte_count(line.as_str()) > 60 {
                    concat2(take_bytes(line.as_str(), 57).as_str(), "...")
                } else {
                    line
                }
            },
        },
    }
}

// ---------------------------------------------------------------------------
// Paths
// ---------------------------------------------------------------------------

pub open spec fn separator_of(path: Seq<char>) -> Seq<char> {
    if path.contains('\\') {
        "\\"@
    } else {
        "/"@
    }
}

/// What is kept of a path: as many of its last pieces as fit. `used` counts the
/// bytes that are used already.
pub open spec fn kept_pieces(
    pieces: Seq<Seq<char>>,
    n: nat,
    kept: Seq<char>,
    used: nat,
    separator: Seq<char>,
    max: nat,
) -> Seq<char>
    decreases n,
{
    if n == 0 || n > pieces.len() {
        kept
    } else {
        let piece = pieces[n - 1];
        let more = used + byte_len(piece) + 1;
        if more > max {
            kept
        } else {
            kept_pieces(
                pieces,
                (n - 1) as nat,
                if kept.len() == 0 {
                    piece
                } else {
                    piece + separator + kept
                },
                more,
                separator,
                max,
            )
        }
    }
}

/// The last pieces of a path that fit.
pub open spec fn path_tail(path: Seq<char>, max: nat) -> Seq<char> {
    let pieces = text::split_text(path, separator_of(path));
    kept_pieces(pieces, pieces.len(), Seq::empty(), 3, separator_of(path), max)
}

/// A path can be shortened: where no piece fits, no character lies across the
/// place of the cut, and there is room for the dots.
pub open spec fn path_fits(path: Seq<char>, max: nat) -> bool {
    byte_len(path) > max && path_tail(path, max).len() == 0 ==> max >= 3 && utf8::is_char_boundary(
        utf8::encode_utf8(path),
        byte_len(path) - max + 3,
    )
}

/// A path in at most `max` bytes: dots, and as many of its last pieces as fit, or
/// its last bytes if no piece fits.
pub open spec fn shortened(path: Seq<char>, max: nat) -> Seq<char> {
    if byte_len(path) <= max {
        path
    } else if path_tail(path, max).len() == 0 {
        "..."@ + bytes_from(path, byte_len(path) - max + 3)
    } else {
        "..."@ + separator_of(path) + path_tail(path, max)
    }
}

fn tail_text(path: &str, separator: &str, max_len: usize) -> (r: String)
    requires
        separator@ == separator_of(path@),
    ensures
        r@ == path_tail(path@, max_len as nat),
{
    proof {
        reveal_strlit("\\");
        reveal_strlit("/");
    }
    let pieces = split(path, separator);
    let ghost texts = pieces.deep_view();
    let mut kept = "".to_string();
    let mut used: u128 = 3;
    let mut n: usize = pieces.len();
    proof {
        reveal_strlit("");
        assert(kept@ =~= Seq::empty());
        assert(texts.len() == pieces@.len());
    }
    while n > 0
        invariant
            n <= pieces@.len(),
            texts == pieces.deep_view(),
            texts.len() == pieces@.len(),
            used <= 3 || used <= max_len,
            kept_pieces(texts, n as nat, kept@, used as nat, separator@, max_len as nat)
                == path_tail(path@, max_len as nat),
        decreases n,
    {
        let piece = pieces[n - 1].as_str();
        assert(piece@ == texts[n - 1]);
        let length: usize = byte_count(piece);
        let more: u128 = used + length as u128 + 1;
        if more > max_len as u128 {
            return kept;
        }
        kept = if kept.as_str().is_empty() {
            piece.to_string()
        } else {
            concat3(piece, separator, kept.as_str())
        };
        used = more;
        n -= 1;
    }
    kept
}

fn separator_text(path: &str) -> (r: &'static str)
    ensures
        r@ == separator_of(path@),
{
    if has_char(path, '\\') {
        "\\"
    } else {
        "/"
    }
}

/// Whether a path can be shortened.
pub fn path_can_be_shortened(path_str: &str, max_len: usize) -> (r: bool)
    ensures
        r == path_fits(path_str@, max_len as nat),
{
    let length: usize = byte_count(path_str);
    if length <= max_len {
        return true;
    }
    if !tail_text(path_str, separator_text(path_str), max_len).as_str().is_empty() {
        return true;
    }
    max_len >= 3 && path_str.is_char_boundary(length - max_len + 3)
}

/// A path in at most `max_len` bytes.
pub fn shorten_path(path_str: &str, max_len: usize) -> (r: String)
    requires
        path_fits(path_str@, max_len as nat),
    ensures
        r@ == shortened(path_str@, max_len as nat),
{
    let length: usize = byte_count(path_str);
    if length <= max_len {
        return path_str.to_string();
    }
    let separator = separator_text(path_str);
    let tail = tail_text(path_str, separator, max_len);
    if tail.as_str().is_empty() {
        concat2("...", skip_bytes(path_str, length - max_len + 3).as_str())
    } else {
        concat3("...", separator, tail.as_str())
    }
}

// ---------------------------------------------------------------------------
// Watchers
// ---------------------------------------------------------------------------

/// The number of a process, from the text of its file.
pub fn pid_from_text(content: &str) -> (r: Option<u32>)
    ensures
        match r {
            Some(pid) => text::parse_unsigned_text(text::trim_text(content@), u32::MAX as nat)
                == Some(pid as nat),
            None => text::parse_unsigned_text(text::trim_text(content@), u32::MAX as nat) is None,
        },
{
    match parse_unsigned(trim(content).as_str(), u32::MAX as u64) {
        Some(n) => Some(n as u32),
        None => None,
    }
}

/// The process of a watcher or of the server: its number, and whether it lives.
#[derive(Debug, Clone, Copy, PartialEq, Eq, Structural)]
pub struct ProcessState {
    pub pid: u32,
    pub alive: bool,
}

/// The line tells of a failure.
pub open spec fn tells_of_failure(line: Seq<char>) -> bool {
    let lower = text::unicode_lowercase(line);
    text::contains_text(lower, "error"@) || text::contains_text(lower, "fail"@)
        || text::contains_text(lower, "panic"@)
}

/// The line says that there is nothing in the log.
pub open spec fn empty_log(line: Seq<char>) -> bool {
    line == "Watcher no inicializado."@ || line == "Bitacora vacia."@
}

/// The state of a watcher and the last thing that it said.
pub open spec fn watcher_state(process: Option<ProcessState>, line: Seq<char>) -> (
    Seq<char>,
    Seq<char>,
) {
    match process {
        None => ("INACTIVO"@, "Watcher no inicializado."@),
        Some(p) => if p.alive {
            ("ACTIVO (PID: "@ + text::decimal(p.pid as int) + ")"@, line)
        } else {
            (
                if tells_of_failure(line) {
                    "TUMBADO"@
                } else {
                    "DETENIDO"@
                },
                if empty_log(line) {
                    "Proceso terminado inesperadamente."@
                } else if tells_of_failure(line) {
                    "Error: "@ + line
                } else {
                    "Último log: "@ + line
                },
            )
        },
    }
}

/// The state of the server and the last thing that it said.
pub open spec fn server_state(process: Option<ProcessState>, line: Seq<char>) -> (
    Seq<char>,
    Seq<char>,
) {
    match process {
        None => ("INACTIVO"@, "Servidor no inicializado."@),
        Some(p) => if p.alive {
            ("ACTIVO (PID: "@ + text::decimal(p.pid as int) + ")"@, line)
        } else {
            (
                "TUMBADO"@,
                if empty_log(line) || line == "Servidor no inicializado."@ {
                    "Proceso terminado inesperadamente."@
                } else {
                    "Error: "@ + line
                },
            )
        },
    }
}

fn active_text(pid: u32) -> (r: String)
    ensures
        r@ == "ACTIVO (PID: "@ + text::decimal(pid as int) + ")"@,
{
    concat3("ACTIVO (PID: ", decimal_u64(pid as u64).as_str(), ")")
}

/// The state of a watcher and the last thing that it said.
pub fn watcher_status(process: Option<ProcessState>, last_line: &str) -> (r: (String, String))
    ensures
        (r.0@, r.1@) == watcher_state(process, last_line@),
{
    match process {
        None => ("INACTIVO".to_string(), "Watcher no inicializado.".to_string()),
        Some(p) => {
            if p.alive {
                return (active_text(p.pid), last_line.to_string());
            }
            let lower = lowercase(last_line);
            let failed = has_text(lower.as_str(), "error") || has_text(lower.as_str(), "fail")
                || has_text(lower.as_str(), "panic");
            let state = if failed {
                "TUMBADO".to_string()
            } else {
                "DETENIDO".to_string()
            };
            let said = if same_text(last_line, "Watcher no inicializado.") || same_text(
                last_line,
                "Bitacora vacia.",
            ) {
                "Proceso terminado inesperadamente.".to_string()
            } else if failed {
                concat2("Error: ", last_line)
            } else {
                concat2("Último log: ", last_line)
            };
            (state, said)
        },
    }
}

/// The state of the server and the last thing that it said.
pub fn server_status(process: Option<ProcessState>, last_line: &str) -> (r: (String, String))
    ensures
        (r.0@, r.1@) == server_state(process, last_line@),
{
    match process {
        None => ("INACTIVO".to_string(), "Servidor no inicializado.".to_string()),
        Some(p) => {
            if p.alive {
                return (active_text(p.pid), last_line.to_string());
            }
            let said = if same_text(last_line, "Watcher no inicializado.") || same_text(
                last_line,
                "Bitacora vacia.",
            ) || same_text(last_line, "Servidor no inicializado.") {
                "Proceso terminado inesperadamente.".to_string()
            } else {
                concat2("Error: ", last_line)
            };
            ("TUMBADO".to_string(), said)
        },
    }
}

// ---------------------------------------------------------------------------
// The report
// ---------------------------------------------------------------------------

/// A watcher as the report shows it.
#[derive(Debug, Clone, PartialEq, Eq)]
pub struct WatcherFacts {
    pub name: String,
    pub path: String,
    pub process: Option<ProcessState>,
    pub last_line: String,
}

/// A row of the table of watchers.
pub open spec fn table_row(a: Seq<char>, b: Seq<char>, c: Seq<char>, d: Seq<char>) -> Seq<char> {
    "| "@ + text::pad_text(a, 15) + " | "@ + text::pad_text(b, 40) + " | "@ + text::pad_text(c, 21)
        + " | "@ + text::pad_text(d, 59) + " |"@
}

fn row_text(a: &str, b: &str, c: &str, d: &str) -> (r: String)
    ensures
        r@ == table_row(a@, b@, c@, d@),
{
    let mut out = concat3("| ", pad(a, 15).as_str(), " | ");
    out.append(pad(b, 40).as_str());
    out.append(" | ");
    out.append(pad(c, 21).as_str());
    out.append(" | ");
    out.append(pad(d, 59).as_str());
    out.append(" |");
    out
}

pub const TABLE_RULE: &'static str =
    "+-----------------+------------------------------------------+-----------------------+-------------------------------------------------------------+";

/// The row of a watcher.
pub open spec fn watcher_row(facts: WatcherFacts) -> Seq<char> {
    let (state, said) = watcher_state(facts.process, facts.last_line@);
    table_row(facts.name@, shortened(facts.path@, 40), state, said)
}

/// The table of the watchers, with a row for the server at its end.
pub open spec fn watcher_table(
    watchers: Seq<WatcherFacts>,
    server: Option<ProcessState>,
    server_line: Seq<char>,
) -> Seq<Seq<char>> {
    let (state, said) = server_state(server, server_line);
    seq![
        ""@,
        "Project Environment Watchers:"@,
        TABLE_RULE@,
        table_row("Proyecto"@, "Ruta Asignada"@, "Estado"@, "Ultima Bitacora"@),
        TABLE_RULE@,
    ] + Seq::new(watchers.len(), |i: int| watcher_row(watchers[i])) + seq![
        table_row("ozymem-mcp"@, "Servidor Global de Red / Stdio"@, state, said),
        TABLE_RULE@,
    ]
}

/// The lines on the graph.
pub open spec fn graph_lines(display_uri: Seq<char>, summary: GraphSummary) -> Seq<Seq<char>> {
    seq![
        "OZYMEM CORE LOGISTICS"@,
        "---------------------"@,
        "Database Target: "@ + display_uri,
        "Storage Status: ACTIVE"@,
        ""@,
        "Graph Topology:"@,
        "  Files: "@ + text::decimal(summary.file_count as int) + " | Functions: "@ + text::decimal(
            summary.function_count as int,
        ) + " | Engrams: "@ + text::decimal(summary.engram_count as int),
    ]
}

/// The lines on the graph.
pub fn graph_report(display_uri: &str, summary: &GraphSummary) -> (r: Vec<String>)
    ensures
        r.deep_view() == graph_lines(display_uri@, *summary),
{
    let mut topology = concat3(
        "  Files: ",
        decimal_i64(summary.file_count).as_str(),
        " | Functions: ",
    );
    topology.append(decimal_i64(summary.function_count).as_str());
    topology.append(" | Engrams: ");
    topology.append(decimal_i64(summary.engram_count).as_str());
    let r = vec![
        "OZYMEM CORE LOGISTICS".to_string(),
        "---------------------".to_string(),
        concat2("Database Target: ", display_uri),
        "Storage Status: ACTIVE".to_string(),
        "".to_string(),
        "Graph Topology:".to_string(),
        topology,
    ];
    assert(r.deep_view() =~= graph_lines(display_uri@, *summary));
    r
}

/// The table of the watchers. The paths can be shortened to the width of their
/// column.
pub fn watcher_report(
    watchers: &Vec<WatcherFacts>,
    server: Option<ProcessState>,
    server_line: &str,
) -> (r: Vec<String>)
    requires
        forall|i: int|
            0 <= i < watchers@.len() ==> path_fits((#[trigger] watchers@[i]).path@, 40),
    ensures
        r.deep_view() == watcher_table(watchers@, server, server_line@),
{
    let mut out = vec![
        "".to_string(),
        "Project Environment Watchers:".to_string(),
        TABLE_RULE.to_string(),
        row_text("Proyecto", "Ruta Asignada", "Estado", "Ultima Bitacora"),
        TABLE_RULE.to_string(),
    ];
    let ghost head = out.deep_view();
    let mut i: usize = 0;
    while i < watchers.len()
        invariant
            i <= watchers@.len(),
            head.len() == 5,
            out@.len() == 5 + i,
            forall|k: int| 0 <= k < 5 ==> (#[trigger] out@[k])@ == head[k],
            forall|k: int|
                5 <= k < 5 + i ==> (#[trigger] out@[k])@ == watcher_row(watchers@[k - 5]),
            forall|k: int|
                0 <= k < watchers@.len() ==> path_fits((#[trigger] watchers@[k]).path@, 40),
        decreases watchers@.len() - i,
    {
        let w = &watchers[i];
        let (state, said) = watcher_status(w.process, w.last_line.as_str());
        let path = shorten_path(w.path.as_str(), 40);
        out.push(row_text(w.name.as_str(), path.as_str(), state.as_str(), said.as_str()));
        i += 1;
    }
    let (state, said) = server_status(server, server_line);
    out.push(
        row_text(
            "ozymem-mcp",
            "Servidor Global de Red / Stdio",
            state.as_str(),
            said.as_str(),
        ),
    );
    out.push(TABLE_RULE.to_string());
    assert(out.deep_view() =~= watcher_table(watchers@, server, server_line@));
    out
}

/// The state of the graph in JSON.
pub fn status_json(display_uri: &str, summary: &GraphSummary) -> (r: JsonValue)
    ensures
        r.model() == JsonModel::object().with(
            "database"@,
            JsonModel::object().with("status"@, JsonModel::Text("ACTIVE"@)).with(
                "uri"@,
                JsonModel::Text(display_uri@),
            ),
        ).with(
            "metrics"@,
            JsonModel::object().with(
                "files_indexed"@,
                JsonModel::Number(text::decimal(summary.file_count as int)),
            ).with(
                "functions_mapped"@,
                JsonModel::Number(text::decimal(summary.function_count as int)),
            ).with(
                "engrams_formed"@,
                JsonModel::Number(text::decimal(summary.engram_count as int)),
            ),
        ),
{
    JsonValue::object().with(
        "database",
        JsonValue::object().with("status", JsonValue::text("ACTIVE")).with(
            "uri",
            JsonValue::text(display_uri),
        ),
    ).with(
        "metrics",
        JsonValue::object().with("files_indexed", JsonValue::number(summary.file_count)).with(
            "functions_mapped",
            JsonValue::number(summary.function_count),
        ).with("engrams_formed", JsonValue::number(summary.engram_count)),
    )
}

// ---------------------------------------------------------------------------
// Laws
// ---------------------------------------------------------------------------

/// A path that fits stays as it is.
pub proof fn law_short_paths_stay(path: Seq<char>, max: nat)
    requires
        byte_len(path) <= max,
    ensures
        shortened(path, max) == path,
{
}

/// A path that is shortened fits.
pub proof fn law_shortened_paths_fit(path: Seq<char>, max: nat)
    requires
        path_fits(path, max),
    ensures
        byte_len(shortened(path, max)) <= max,
{
    if byte_len(path) > max {
        let tail = path_tail(path, max);
        let separator = separator_of(path);
        lemma_signs(path);
        if tail.len() == 0 {
            let bytes = utf8::encode_utf8(path);
            let at = byte_len(path) - max + 3;
            let rest = bytes.subrange(at, bytes.len() as int);
            utf8::encode_utf8_valid_utf8(path);
            utf8::valid_utf8_split(bytes, at);
            utf8::decode_utf8_encode_utf8(rest);
            lemma_byte_len_joined("..."@, bytes_from(path, at));
        } else {
            let pieces = text::split_text(path, separator);
            lemma_kept_pieces(pieces, pieces.len(), Seq::empty(), 3, separator, max);
            lemma_byte_len_joined("..."@ + separator, tail);
            lemma_byte_len_joined("..."@, separator);
        }
    }
}

/// What is shown of a log fits in 60 bytes.
pub proof fn law_log_lines_fit(log: LogFile)
    requires
        log_fits(log),
    ensures
        byte_len(log_line(log)) <= 60,
{
    reveal_strlit("Watcher no inicializado.");
    reveal_strlit("Error al leer bitacora.");
    reveal_strlit("Bitacora vacia.");
    utf8::is_ascii_chars_encode_utf8("Watcher no inicializado."@);
    utf8::is_ascii_chars_encode_utf8("Error al leer bitacora."@);
    utf8::is_ascii_chars_encode_utf8("Bitacora vacia."@);
    match last_line(log) {
        Some(line) => {
            if byte_len(line) > 60 {
                let bytes = utf8::encode_utf8(line);
                utf8::encode_utf8_valid_utf8(line);
                utf8::valid_utf8_split(bytes, 57);
                utf8::decode_utf8_encode_utf8(bytes.subrange(0, 57));
                lemma_signs(line);
                lemma_byte_len_joined(first_bytes(line, 57), "..."@);
            }
        },
        None => {},
    }
}

proof fn lemma_signs(path: Seq<char>)
    ensures
        byte_len("..."@) == 3,
        byte_len(separator_of(path)) == 1,
{
    reveal_strlit("...");
    reveal_strlit("\\");
    reveal_strlit("/");
    utf8::is_ascii_chars_encode_utf8("..."@);
    utf8::is_ascii_chars_encode_utf8(separator_of(path));
}

proof fn lemma_byte_len_joined(a: Seq<char>, b: Seq<char>)
    ensures
        byte_len(a + b) == byte_len(a) + byte_len(b),
    decreases a.len(),
{
    if a.len() == 0 {
        assert(a + b =~= b);
    } else {
        assert((a + b).drop_first() =~= a.drop_first() + b);
        lemma_byte_len_joined(a.drop_first(), b);
    }
}

proof fn lemma_kept_pieces(
    pieces: Seq<Seq<char>>,
    n: nat,
    kept: Seq<char>,
    used: nat,
    separator: Seq<char>,
    max: nat,
)
    requires
        byte_len(separator) == 1,
        if kept.len() == 0 {
            used >= 3
        } else {
            byte_len(kept) + 4 <= used <= max
        },
    ensures
        ({
            let tail = kept_pieces(pieces, n, kept, used, separator, max);
            tail.len() == 0 || byte_len(tail) + 4 <= max
        }),
    decreases n,
{
    if 0 < n <= pieces.len() {
        let piece = pieces[n - 1];
        let more = used + byte_len(piece) + 1;
        if more <= max {
            let longer = if kept.len() == 0 {
                piece
            } else {
                piece + separator + kept
            };
            lemma_byte_len_joined(piece + separator, kept);
            lemma_byte_len_joined(piece, separator);
            lemma_kept_pieces(pieces, (n - 1) as nat, longer, more, separator, max);
        }
    }
}

/// A log without lines to show is known by its text.
pub proof fn law_blank_logs(content: String)
    requires
        forall|i: int|
            0 <= i < text::lines_of(content@).len() ==> text::trim_text(
                #[trigger] text::lines_of(content@)[i],
            ).len() == 0,
    ensures
        log_line(LogFile::Content(content)) == "Bitacora vacia."@,
{
    lemma_all_blank(text::lines_of(content@));
}

proof fn lemma_all_blank(lines: Seq<Seq<char>>)
    requires
        forall|i: int| 0 <= i < lines.len() ==> text::trim_text(#[trigger] lines[i]).len() == 0,
    ensures
        last_non_blank(lines) is None,
    decreases lines.len(),
{
    if lines.len() > 0 {
        let rest = lines.drop_last();
        assert forall|i: int| 0 <= i < rest.len() implies text::trim_text(
            #[trigger] rest[i],
        ).len() == 0 by {
            assert(rest[i] == lines[i]);
        }
        assert(text::trim_text(lines[lines.len() - 1]).len() == 0);
        lemma_all_blank(rest);
    }
}

/// The line that is shown of a log is one of its lines, without the white space
/// around it, and only blank lines follow it.
pub proof fn law_the_last_line_is_shown(lines: Seq<Seq<char>>)
    ensures
        match last_non_blank(lines) {
            Some(line) => exists|i: int|
                0 <= i < lines.len() && line == text::trim_text(#[trigger] lines[i]) && line.len() > 0
                    && forall|j: int|
                    i < j < lines.len() ==> text::trim_text(#[trigger] lines[j]).len() == 0,
            None => forall|j: int|
                0 <= j < lines.len() ==> text::trim_text(#[trigger] lines[j]).len() == 0,
        },
    decreases lines.len(),
{
    if lines.len() > 0 {
        let rest = lines.drop_last();
        law_the_last_line_is_shown(rest);
        assert(forall|j: int| 0 <= j < rest.len() ==> #[trigger] rest[j] == lines[j]);
        if text::trim_text(lines.last()).len() == 0 {
            match last_non_blank(lines) {
                Some(line) => {
                    let i = choose|i: int|
                        0 <= i < rest.len() && line == text::trim_text(#[trigger] rest[i])
                            && line.len() > 0 && forall|j: int|
                            i < j < rest.len() ==> text::trim_text(#[trigger] rest[j]).len() == 0;
                    assert(line == text::trim_text(lines[i]));
                    assert forall|j: int| i < j < lines.len() implies text::trim_text(
                        #[trigger] lines[j],
                    ).len() == 0 by {
                        if j < rest.len() {
                            assert(rest[j] == lines[j]);
                        }
                    }
                },
                None => {
                    assert forall|j: int| 0 <= j < lines.len() implies text::trim_text(
                        #[trigger] lines[j],
                    ).len() == 0 by {
                        if j < rest.len() {
                            assert(rest[j] == lines[j]);
                        }
                    }
                },
            }
        } else {
            assert(lines[lines.len() - 1] == lines.last());
        }
    }
}

/// A line of a log that fits is shown whole; of a longer one the first 57 bytes are
/// shown, and dots after them.
pub proof fn law_what_is_shown_of_a_line(content: String, line: Seq<char>)
    requires
        last_non_blank(text::lines_of(content@)) == Some(line),
        line_fits(line),
    ensures
        byte_len(line) <= 60 ==> log_line(LogFile::Content(content)) == line,
        byte_len(line) > 60 ==> {
            let shown = log_line(LogFile::Content(content));
            &&& text::ends_with(shown, "..."@)
            &&& utf8::encode_utf8(shown.take(shown.len() - 3)) == utf8::encode_utf8(line).take(57)
        },
{
    if byte_len(line) > 60 {
        let shown = log_line(LogFile::Content(content));
        let bytes = utf8::encode_utf8(line);
        reveal_strlit("...");
        utf8::encode_utf8_valid_utf8(line);
        utf8::valid_utf8_split(bytes, 57);
        utf8::decode_utf8_encode_utf8(bytes.subrange(0, 57));
        assert(shown.take(shown.len() - 3) =~= first_bytes(line, 57));
        assert(shown.subrange(shown.len() - 3, shown.len() as int) =~= "..."@);
    }
}

/// What is kept of a path that is too long are its last pieces, and as many of them
/// as fit behind the dots.
pub proof fn law_as_many_pieces_as_fit(path: Seq<char>, max: nat)
    requires
        forall|i: int|
            0 <= i < text::split_text(path, separator_of(path)).len() ==> (
            #[trigger] text::split_text(path, separator_of(path))[i]).len() > 0,
    ensures
        exists|k: int| #[trigger]
            last_pieces_fit(
                text::split_text(path, separator_of(path)),
                k,
                separator_of(path),
                max,
                path_tail(path, max),
            ),
{
    let separator = separator_of(path);
    let pieces = text::split_text(path, separator);
    lemma_signs(path);
    assert(pieces.skip(pieces.len() as int) =~= Seq::<Seq<char>>::empty());
    lemma_last_pieces(pieces, pieces.len(), Seq::empty(), 3, separator, max);
    let tail = kept_pieces(pieces, pieces.len(), Seq::empty(), 3, separator, max);
    let k = choose|k: int| #[trigger] last_pieces_fit(pieces, k, separator, max, tail);
    assert(last_pieces_fit(pieces, k, separator, max, path_tail(path, max)));
}

/// The tail holds the pieces from the `k`-th on; with the dots and a separator it
/// fits, and with one more piece it would not.
pub open spec fn last_pieces_fit(
    pieces: Seq<Seq<char>>,
    k: int,
    separator: Seq<char>,
    max: nat,
    tail: Seq<char>,
) -> bool {
    &&& 0 <= k <= pieces.len()
    &&& tail == text::join_texts(pieces.skip(k), separator)
    &&& k < pieces.len() ==> byte_len(tail) + 4 <= max
    &&& k > 0 ==> byte_len(text::join_texts(pieces.skip(k - 1), separator)) + 4 > max
}

proof fn lemma_last_pieces(
    pieces: Seq<Seq<char>>,
    n: nat,
    kept: Seq<char>,
    used: nat,
    separator: Seq<char>,
    max: nat,
)
    requires
        byte_len(separator) == 1,
        n <= pieces.len(),
        forall|i: int| 0 <= i < pieces.len() ==> (#[trigger] pieces[i]).len() > 0,
        kept == text::join_texts(pieces.skip(n as int), separator),
        n == pieces.len() ==> used == 3 && kept.len() == 0,
        n < pieces.len() ==> used == byte_len(kept) + 4 && used <= max && kept.len() > 0,
    ensures
        exists|k: int| #[trigger]
            last_pieces_fit(
                pieces,
                k,
                separator,
                max,
                kept_pieces(pieces, n, kept, used, separator, max),
            ),
    decreases n,
{
    let tail = kept_pieces(pieces, n, kept, used, separator, max);
    if n == 0 {
        assert(last_pieces_fit(pieces, 0, separator, max, tail));
    } else {
        let piece = pieces[n - 1];
        let longer = if kept.len() == 0 {
            piece
        } else {
            piece + separator + kept
        };
        let more = used + byte_len(piece) + 1;
        let front = pieces.skip(n - 1);
        if n == pieces.len() {
            assert(front =~= seq![piece]);
            assert(front.drop_last() =~= Seq::<Seq<char>>::empty());
            assert(text::join_texts(front, separator) =~= piece);
        } else {
            assert(front.skip(1) =~= pieces.skip(n as int));
            text::lemma_join_front(piece, front.skip(1), separator);
            assert(seq![piece] + front.skip(1) =~= front);
        }
        assert(longer == text::join_texts(front, separator));
        lemma_byte_len_joined(piece + separator, kept);
        lemma_byte_len_joined(piece, separator);
        assert(more == byte_len(longer) + 4);
        if more <= max {
            lemma_last_pieces(pieces, (n - 1) as nat, longer, more, separator, max);
        } else {
            assert(last_pieces_fit(pieces, n as int, separator, max, tail));
        }
    }
}

/// A path that is too long and of which no piece fits shows its last bytes behind
/// dots, as many as there is room for.
pub proof fn law_last_bytes_are_shown(path: Seq<char>, max: nat)
    requires
        path_fits(path, max),
        byte_len(path) > max,
        path_tail(path, max).len() == 0,
    ensures
        ({
            let shown = utf8::encode_utf8(shortened(path, max));
            let whole = utf8::encode_utf8(path);
            &&& shown.len() == max
            &&& shown.skip(3) == whole.skip(whole.len() - max + 3)
        }),
{
    let bytes = utf8::encode_utf8(path);
    let at = byte_len(path) - max + 3;
    let rest = bytes.subrange(at, bytes.len() as int);
    lemma_signs(path);
    utf8::encode_utf8_valid_utf8(path);
    utf8::valid_utf8_split(bytes, at);
    utf8::decode_utf8_encode_utf8(rest);
    lemma_encoded_joined("..."@, bytes_from(path, at));
    assert(utf8::encode_utf8(shortened(path, max)).skip(3) =~= rest);
}

proof fn lemma_encoded_joined(a: Seq<char>, b: Seq<char>)
    ensures
        utf8::encode_utf8(a + b) == utf8::encode_utf8(a) + utf8::encode_utf8(b),
    decreases a.len(),
{
    if a.len() == 0 {
        assert(a + b =~= b);
        assert(utf8::encode_utf8(a) + utf8::encode_utf8(b) =~= utf8::encode_utf8(b));
    } else {
        assert((a + b).drop_first() =~= a.drop_first() + b);
        lemma_encoded_joined(a.drop_first(), b);
        assert(utf8::encode_utf8(a + b) =~= utf8::encode_utf8(a) + utf8::encode_utf8(b));
    }
}

/// A process that lives is shown as active under its number, with what it said
/// last; one that is not there is inactive; a dead watcher has fallen if its last
/// line tells of an error, a failure or a panic, and was stopped otherwise; a dead
/// server has always fallen.
pub proof fn law_states_of_processes(pid: u32, line: Seq<char>)
    ensures
        watcher_state(Some(ProcessState { pid, alive: true }), line) == (
            "ACTIVO (PID: "@ + text::decimal(pid as int) + ")"@,
            line,
        ),
        server_state(Some(ProcessState { pid, alive: true }), line) == (
            "ACTIVO (PID: "@ + text::decimal(pid as int) + ")"@,
            line,
        ),
        watcher_state(None, line) == ("INACTIVO"@, "Watcher no inicializado."@),
        server_state(None, line) == ("INACTIVO"@, "Servidor no inicializado."@),
        ({
            let lower = text::unicode_lowercase(line);
            let failed = text::contains_text(lower, "error"@) || text::contains_text(
                lower,
                "fail"@,
            ) || text::contains_text(lower, "panic"@);
            let (state, said) = watcher_state(Some(ProcessState { pid, alive: false }), line);
            let silent = line == "Watcher no inicializado."@ || line == "Bitacora vacia."@;
            &&& failed ==> state == "TUMBADO"@
            &&& !failed ==> state == "DETENIDO"@
            &&& silent ==> said == "Proceso terminado inesperadamente."@
            &&& !silent && failed ==> said == "Error: "@ + line
            &&& !silent && !failed ==> said == "Último log: "@ + line
        }),
        ({
            let (state, said) = server_state(Some(ProcessState { pid, alive: false }), line);
            let silent = line == "Watcher no inicializado."@ || line == "Bitacora vacia."@ || line
                == "Servidor no inicializado."@;
            &&& state == "TUMBADO"@
            &&& silent ==> said == "Proceso terminado inesperadamente."@
            &&& !silent ==> said == "Error: "@ + line
        }),
{
}

/// The table has a row for every watcher, in their order, with its name, its path,
/// its state and what it said last, and one more for the server.
pub proof fn law_every_watcher_has_its_row(
    watchers: Seq<WatcherFacts>,
    server: Option<ProcessState>,
    server_line: Seq<char>,
)
    ensures
        ({
            let table = watcher_table(watchers, server, server_line);
            let n = watchers.len() as int;
            &&& table.len() == n + 7
            &&& forall|i: int|
                0 <= i < n ==> #[trigger] table[i + 5] == "| "@ + text::pad_text(
                    watchers[i].name@,
                    15,
                ) + " | "@ + text::pad_text(shortened(watchers[i].path@, 40), 40) + " | "@
                    + text::pad_text(
                    watcher_state(watchers[i].process, watchers[i].last_line@).0,
                    21,
                ) + " | "@ + text::pad_text(
                    watcher_state(watchers[i].process, watchers[i].last_line@).1,
                    59,
                ) + " |"@
            &&& table[n + 5] == "| "@ + text::pad_text("ozymem-mcp"@, 15) + " | "@ + text::pad_text(
                "Servidor Global de Red / Stdio"@,
                40,
            ) + " | "@ + text::pad_text(server_state(server, server_line).0, 21) + " | "@
                + text::pad_text(server_state(server, server_line).1, 59) + " |"@
        }),
{
}

/// The account of the graph gives its address and the numbers of its files, of its
/// functions and of its engrams, each under its own label.
pub proof fn law_the_graph_is_told(display_uri: Seq<char>, summary: GraphSummary)
    ensures
        graph_lines(display_uri, summary).contains("Database Target: "@ + display_uri),
        graph_lines(display_uri, summary).contains(
            "  Files: "@ + text::decimal(summary.file_count as int) + " | Functions: "@
                + text::decimal(summary.function_count as int) + " | Engrams: "@ + text::decimal(
                summary.engram_count as int,
            ),
        ),
{
    let lines = graph_lines(display_uri, summary);
    assert(lines[2] == "Database Target: "@ + display_uri);
    assert(lines[6] == "  Files: "@ + text::decimal(summary.file_count as int) + " | Functions: "@
        + text::decimal(summary.function_count as int) + " | Engrams: "@ + text::decimal(
        summary.engram_count as int,
    ));
}

/// The rows of the table of watchers are as wide as its rules, if what they hold fits
/// in their columns.
pub proof fn law_rows_are_as_wide_as_the_rule(
    a: Seq<char>,
    b: Seq<char>,
    c: Seq<char>,
    d: Seq<char>,
)
    requires
        a.len() <= 15,
        b.len() <= 40,
        c.len() <= 21,
        d.len() <= 59,
    ensures
        table_row(a, b, c, d).len() == TABLE_RULE@.len(),
{
    reveal_strlit(
        "+-----------------+------------------------------------------+-----------------------+-------------------------------------------------------------+",
    );
    reveal_strlit("| ");
    reveal_strlit(" | ");
    reveal_strlit(" |");
    text::law_filling_up_adds_blanks(a, 15);
    text::law_filling_up_adds_blanks(b, 40);
    text::law_filling_up_adds_blanks(c, 21);
    text::law_filling_up_adds_blanks(d, 59);
}

/// A log can be shown whenever its last line is short, or no character lies across the
/// place of the cut, and in any case if it has no line to show.
pub proof fn law_logs_that_can_be_shown(content: String, line: Seq<char>)
    ensures
        log_fits(LogFile::Missing),
        log_fits(LogFile::Unreadable),
        last_non_blank(text::lines_of(content@)) is None ==> log_fits(LogFile::Content(content)),
        last_non_blank(text::lines_of(content@)) == Some(line) ==> (log_fits(
            LogFile::Content(content),
        ) <==> byte_len(line) <= 60 || utf8::is_char_boundary(utf8::encode_utf8(line), 57)),
        log_line(LogFile::Missing) == "Watcher no inicializado."@,
        log_line(LogFile::Unreadable) == "Error al leer bitacora."@,
{
}

/// A path can be shortened whenever it fits, or one of its pieces does, or there is room
/// for the dots and no character lies across the place of the cut.
pub proof fn law_paths_that_can_be_shortened(path: Seq<char>, max: nat)
    ensures
        path_fits(path, max) <==> byte_len(path) <= max || path_tail(path, max).len() > 0 || (max
            >= 3 && utf8::is_char_boundary(
            utf8::encode_utf8(path),
            byte_len(path) - max + 3,
        )),
        separator_of(path) == (if path.contains('\\') {
            seq!['\\']
        } else {
            seq!['/']
        }),
{
    reveal_strlit("\\");
    reveal_strlit("/");
    assert("\\"@ =~= seq!['\\']);
    assert("/"@ =~= seq!['/']);
}

} // verus!
