//! Finding the symbols of a source text without a grammar: declarations are
//! known by the words that a line begins with, and their extent by braces or by
//! indentation.

use crate::language::{ExtractedFunction, FunctionModel, SymbolKind};
use crate::text;
use crate::text::{chars_of, finishes_with, has_char, is_blank, lines, trim_start, without_prefix};
use vstd::prelude::*;

verus! {

/// How the extent of a declaration is found.
#[derive(Debug, Clone, Copy, PartialEq, Eq, Structural)]
pub enum HeuristicStyle {
    Brace,
    Indentation,
    SingleLine,
}

/// A declaration found in a line.
#[verifier::ext_equal]
pub struct DeclarationModel {
    pub name: Seq<char>,
    pub kind: SymbolKind,
    pub style: HeuristicStyle,
}

// ---------------------------------------------------------------------------
// Declarations
// ---------------------------------------------------------------------------

pub open spec fn identifier_char(c: char) -> bool {
    text::ascii_alphanumeric(c) || c == '_' || c == '$'
}

/// The longest beginning of `s` that is made of identifier characters.
pub open spec fn identifier_of(s: Seq<char>) -> Seq<char>
    decreases s.len(),
{
    if s.len() > 0 && identifier_char(s[0]) {
        seq![s[0]] + identifier_of(s.skip(1))
    } else {
        Seq::empty()
    }
}

/// The extent that the rest of a line announces.
pub open spec fn style_of(line: Seq<char>) -> HeuristicStyle {
    if line.contains('{') {
        HeuristicStyle::Brace
    } else if text::ends_with(line, ":"@) {
        HeuristicStyle::Indentation
    } else {
        HeuristicStyle::SingleLine
    }
}

pub open spec fn declared(
    line: Seq<char>,
    prefix: Seq<char>,
    kind: SymbolKind,
    style: HeuristicStyle,
) -> Option<DeclarationModel> {
    Some(
        DeclarationModel { name: identifier_of(line.skip(prefix.len() as int)), kind, style },
    )
}

/// The declaration that a line without leading white space makes.
pub open spec fn declaration_of(line: Seq<char>) -> Option<DeclarationModel> {
    if text::starts_with(line, "class "@) {
        declared(line, "class "@, SymbolKind::Class, style_of(line))
    } else if text::starts_with(line, "struct "@) {
        declared(line, "struct "@, SymbolKind::Class, style_of(line))
    } else if text::starts_with(line, "interface "@) {
        declared(line, "interface "@, SymbolKind::Class, style_of(line))
    } else if text::starts_with(line, "type "@) {
        declared(line, "type "@, SymbolKind::Class, style_of(line))
    } else if text::starts_with(line, "def "@) {
        declared(line, "def "@, SymbolKind::Function, style_of(line))
    } else if text::starts_with(line, "func "@) {
        declared(line, "func "@, SymbolKind::Function, style_of(line))
    } else if text::starts_with(line, "function "@) {
        declared(line, "function "@, SymbolKind::Function, style_of(line))
    } else if text::starts_with(line, "async function "@) {
        declared(line, "async function "@, SymbolKind::Function, HeuristicStyle::Brace)
    } else if text::starts_with(line, "export function "@) {
        declared(line, "export function "@, SymbolKind::Function, HeuristicStyle::Brace)
    } else {
        None
    }
}

/// The identifier that a text begins with.
pub fn extract_identifier(fragment: &str) -> (r: String)
    ensures
        r@ == identifier_of(fragment@),
{
    let chars = chars_of(fragment);
    let mut out = String::new();
    let mut i: usize = 0;
    assert(chars@.skip(0) == chars@);
    assert(out@ + identifier_of(chars@) == identifier_of(chars@));
    while i < chars.len()
        invariant
            i <= chars@.len(),
            chars@ == fragment@,
            out@ + identifier_of(chars@.skip(i as int)) == identifier_of(chars@),
        decreases chars@.len() - i,
    {
        let c = chars[i];
        let ghost rest = chars@.skip(i as int);
        let ghost before = out@;
        if !(('a' <= c && c <= 'z') || ('A' <= c && c <= 'Z') || ('0' <= c && c <= '9') || c == '_'
            || c == '$') {
            assert(identifier_of(rest) == Seq::<char>::empty());
            assert(before + Seq::<char>::empty() == before);
            return out;
        }
        out.push(c);
        proof {
            assert(rest.skip(1) == chars@.skip(i + 1));
            assert(before + (seq![c] + identifier_of(rest.skip(1))) == before.push(c)
                + identifier_of(rest.skip(1)));
        }
        i += 1;
    }
    proof {
        assert(chars@.skip(i as int).len() == 0);
        assert(identifier_of(chars@.skip(i as int)) == Seq::<char>::empty());
        assert(out@ + Seq::<char>::empty() == out@);
    }
    out
}

fn line_style(line: &str) -> (r: HeuristicStyle)
    ensures
        r == style_of(line@),
{
    if has_char(line, '{') {
        HeuristicStyle::Brace
    } else if finishes_with(line, ":") {
        HeuristicStyle::Indentation
    } else {
        HeuristicStyle::SingleLine
    }
}

/// The declaration that a line makes: its name, its kind, and how its extent is
/// found.
pub fn parse_declaration(line: &str) -> (r: Option<(String, SymbolKind, HeuristicStyle)>)
    ensures
        match r {
            Some((name, kind, style)) => declaration_of(line@) == Some(
                DeclarationModel { name: name@, kind, style },
            ),
            None => declaration_of(line@) is None,
        },
{
    if let Some(rest) = without_prefix(line, "class ") {
        return Some((extract_identifier(rest.as_str()), SymbolKind::Class, line_style(line)));
    }
    if let Some(rest) = without_prefix(line, "struct ") {
        return Some((extract_identifier(rest.as_str()), SymbolKind::Class, line_style(line)));
    }
    if let Some(rest) = without_prefix(line, "interface ") {
        return Some((extract_identifier(rest.as_str()), SymbolKind::Class, line_style(line)));
    }
    if let Some(rest) = without_prefix(line, "type ") {
        return Some((extract_identifier(rest.as_str()), SymbolKind::Class, line_style(line)));
    }
    if let Some(rest) = without_prefix(line, "def ") {
        return Some((extract_identifier(rest.as_str()), SymbolKind::Function, line_style(line)));
    }
    if let Some(rest) = without_prefix(line, "func ") {
        return Some((extract_identifier(rest.as_str()), SymbolKind::Function, line_style(line)));
    }
    if let Some(rest) = without_prefix(line, "function ") {
        return Some((extract_identifier(rest.as_str()), SymbolKind::Function, line_style(line)));
    }
    if let Some(rest) = without_prefix(line, "async function ") {
        return Some(
            (extract_identifier(rest.as_str()), SymbolKind::Function, HeuristicStyle::Brace),
        );
    }
    if let Some(rest) = without_prefix(line, "export function ") {
        return Some(
            (extract_identifier(rest.as_str()), SymbolKind::Function, HeuristicStyle::Brace),
        );
    }
    None
}

// ---------------------------------------------------------------------------
// Braces
// ---------------------------------------------------------------------------

/// What a scan for braces knows: whether it stands in a block comment or in a
/// string (and by which quote the string ends), how many braces are open, and
/// whether one was opened at all.
pub struct BraceScan {
    pub in_comment: bool,
    pub quote: Option<char>,
    pub depth: nat,
    pub seen_open: bool,
}

impl BraceScan {
    pub open spec fn start() -> BraceScan {
        BraceScan { in_comment: false, quote: None, depth: 0, seen_open: false }
    }

    /// In code: neither in a comment nor in a string.
    pub open spec fn in_code(self) -> bool {
        !self.in_comment && self.quote is None
    }

    /// The block that was opened is closed.
    pub open spec fn closed(self) -> bool {
        self.seen_open && self.depth == 0
    }
}

/// Number of backslashes that stand directly before position `i`.
pub open spec fn backslashes_before(line: Seq<char>, i: int) -> nat
    decreases i,
{
    if 0 < i <= line.len() && line[i - 1] == '\\' {
        backslashes_before(line, i - 1) + 1
    } else {
        0
    }
}

/// The two characters `a` and `b` stand at position `i`.
pub open spec fn pair_at(line: Seq<char>, i: int, a: char, b: char) -> bool {
    0 <= i && i + 1 < line.len() && line[i] == a && line[i + 1] == b
}

/// The scan over the rest of a line, from position `i` on.
///
/// A block comment goes on to its end mark, and a string to the quote that it
/// began with, unless an odd number of backslashes stands before the quote. In
/// code, `//` and `#` end the line, braces open and close, and a closing brace
/// with none open counts for nothing.
pub open spec fn scan_line(line: Seq<char>, i: int, scan: BraceScan) -> BraceScan
    decreases line.len() - i,
{
    if i < 0 || i >= line.len() {
        scan
    } else if scan.in_comment {
        if pair_at(line, i, '*', '/') {
            scan_line(line, i + 2, BraceScan { in_comment: false, ..scan })
        } else {
            scan_line(line, i + 1, scan)
        }
    } else if scan.quote is Some {
        if line[i] == scan.quote->0 && backslashes_before(line, i) % 2 == 0 {
            scan_line(line, i + 1, BraceScan { quote: None, ..scan })
        } else {
            scan_line(line, i + 1, scan)
        }
    } else if pair_at(line, i, '/', '/') || line[i] == '#' {
        scan
    } else if pair_at(line, i, '/', '*') {
        scan_line(line, i + 2, BraceScan { in_comment: true, ..scan })
    } else if line[i] == '"' || line[i] == '\'' {
        scan_line(line, i + 1, BraceScan { quote: Some(line[i]), ..scan })
    } else if line[i] == '{' {
        scan_line(line, i + 1, BraceScan { depth: scan.depth + 1, seen_open: true, ..scan })
    } else if line[i] == '}' && scan.depth > 0 {
        scan_line(line, i + 1, BraceScan { depth: (scan.depth - 1) as nat, ..scan })
    } else {
        scan_line(line, i + 1, scan)
    }
}

/// Number of the line, counted from 1, at whose end the block that begins in
/// line `start` is closed, as seen from line `index` on; the number of the first
/// line if the block is never closed.
pub open spec fn brace_block_end(
    lines: Seq<Seq<char>>,
    start: int,
    index: int,
    scan: BraceScan,
) -> int
    decreases lines.len() - index,
{
    if index < 0 || index >= lines.len() {
        start + 1
    } else {
        let after = scan_line(lines[index], 0, scan);
        if after.closed() {
            index + 1
        } else {
            brace_block_end(lines, start, index + 1, after)
        }
    }
}

/// The texts of a slice of string slices.
pub open spec fn line_texts(lines: Seq<&str>) -> Seq<Seq<char>> {
    Seq::new(lines.len(), |i: int| lines[i]@)
}

struct Scanner {
    in_comment: bool,
    quote: Option<char>,
    depth: u128,
    seen_open: bool,
}

impl Scanner {
    spec fn model(self) -> BraceScan {
        BraceScan {
            in_comment: self.in_comment,
            quote: self.quote,
            depth: self.depth as nat,
            seen_open: self.seen_open,
        }
    }
}

fn even_backslashes(line: &Vec<char>, at: usize) -> (r: bool)
    requires
        at <= line@.len(),
    ensures
        r == (backslashes_before(line@, at as int) % 2 == 0),
{
    let mut even = true;
    let mut i: usize = at;
    while i > 0 && line[i - 1] == '\\'
        invariant
            i <= at <= line@.len(),
            (backslashes_before(line@, at as int) % 2 == 0) == (even == (backslashes_before(
                line@,
                i as int,
            ) % 2 == 0)),
        decreases i,
    {
        even = !even;
        i -= 1;
    }
    even
}

/// Scans one line; each character opens at most one brace.
fn scan_chars(line: &Vec<char>, scanner: Scanner) -> (r: Scanner)
    requires
        scanner.depth + line@.len() <= u128::MAX,
    ensures
        r.model() == scan_line(line@, 0, scanner.model()),
        r.depth <= scanner.depth + line@.len(),
{
    let mut s = scanner;
    let mut i: usize = 0;
    while i < line.len()
        invariant
            i <= line.len(),
            s.depth <= scanner.depth + i,
            scanner.depth + line@.len() <= u128::MAX,
            scan_line(line@, i as int, s.model()) == scan_line(line@, 0, scanner.model()),
        decreases line@.len() - i,
    {
        let c = line[i];
        let more = line.len() - i > 1;
        if s.in_comment {
            if c == '*' && more && line[i + 1] == '/' {
                s.in_comment = false;
                i += 2;
            } else {
                i += 1;
            }
        } else if let Some(q) = s.quote {
            if c == q && even_backslashes(line, i) {
                s.quote = None;
            }
            i += 1;
        } else if (c == '/' && more && line[i + 1] == '/') || c == '#' {
            return s;
        } else if c == '/' && more && line[i + 1] == '*' {
            s.in_comment = true;
            i += 2;
        } else {
            if c == '"' || c == '\'' {
                s.quote = Some(c);
            } else if c == '{' {
                s.depth += 1;
                s.seen_open = true;
            } else if c == '}' && s.depth > 0 {
                s.depth -= 1;
            }
            i += 1;
        }
    }
    s
}

/// Number of the line, counted from 1, in which the braces that are opened from
/// line `start_index` on are closed again.
pub fn find_brace_block_end(lines: &[&str], start_index: usize) -> (r: usize)
    requires
        start_index < usize::MAX,
    ensures
        r == brace_block_end(
            line_texts(lines@),
            start_index as int,
            start_index as int,
            BraceScan::start(),
        ),
{
    let ghost texts = line_texts(lines@);
    let mut scanner = Scanner { in_comment: false, quote: None, depth: 0, seen_open: false };
    let mut index: usize = start_index;
    while index < lines.len()
        invariant
            start_index <= index,
            start_index < usize::MAX,
            index <= lines.len() || index == start_index,
            texts == line_texts(lines@),
            scanner.depth <= (index - start_index) * 0xffff_ffff_ffff_ffff,
            brace_block_end(texts, start_index as int, index as int, scanner.model())
                == brace_block_end(
                texts,
                start_index as int,
                start_index as int,
                BraceScan::start(),
            ),
        decreases lines.len() - index,
    {
        let line = chars_of(lines[index]);
        assert(line@ == texts[index as int]);
        assert(line.len() <= 0xffff_ffff_ffff_ffff);
        assert((index - start_index) * 0xffff_ffff_ffff_ffff + 0xffff_ffff_ffff_ffff <= u128::MAX);
        scanner = scan_chars(&line, scanner);
        index += 1;
        if scanner.seen_open && scanner.depth == 0 {
            return index;
        }
    }
    start_index + 1
}

// ---------------------------------------------------------------------------
// Indentation
// ---------------------------------------------------------------------------

/// Number of white space characters that a line begins with.
pub open spec fn indent_of(line: Seq<char>) -> int {
    line.len() - text::trim_start_text(line).len()
}

pub open spec fn blank(line: Seq<char>) -> bool {
    text::trim_text(line).len() == 0
}

/// The block that begins in line `start` may end in line `end`: every line after
/// the first is blank or indented deeper, and the last one is not blank.
pub open spec fn indented_block(lines: Seq<Seq<char>>, start: int, end: int) -> bool {
    &&& start <= end < lines.len()
    &&& forall|k: int|
        start < k <= end ==> blank(#[trigger] lines[k]) || indent_of(lines[k]) > indent_of(
            lines[start],
        )
    &&& end == start || !blank(lines[end])
}

/// Number of white space characters that a line begins with.
pub fn indent_width(line: &str) -> (r: usize)
    ensures
        r == indent_of(line@),
{
    let whole: usize = line.unicode_len();
    let rest = trim_start(line);
    proof {
        lemma_trim_start_shorter(line@);
    }
    whole - rest.as_str().unicode_len()
}

proof fn lemma_trim_start_shorter(s: Seq<char>)
    ensures
        text::trim_start_text(s).len() <= s.len(),
    decreases s.len(),
{
    if s.len() > 0 && text::white_space(s[0]) {
        lemma_trim_start_shorter(s.skip(1));
    }
}

/// Number of the last line, counted from 1, of the block that the indentation
/// below line `start_index` makes.
pub fn find_indented_block_end(lines: &[&str], start_index: usize) -> (r: usize)
    requires
        start_index < lines@.len(),
    ensures
        indented_block(line_texts(lines@), start_index as int, r - 1),
        forall|end: int|
            indented_block(line_texts(lines@), start_index as int, end) ==> end <= r - 1,
{
    let ghost texts = line_texts(lines@);
    let start_indent = indent_width(lines[start_index]);
    let mut end_index: usize = start_index;
    let mut index: usize = start_index + 1;
    while index < lines.len()
        invariant
            start_index <= end_index < index <= lines.len(),
            texts == line_texts(lines@),
            start_indent == indent_of(texts[start_index as int]),
            indented_block(texts, start_index as int, end_index as int),
            forall|k: int|
                start_index < k < index ==> blank(#[trigger] texts[k]) || indent_of(texts[k])
                    > indent_of(texts[start_index as int]),
            forall|k: int| end_index < k < index ==> blank(#[trigger] texts[k]),
        ensures
            start_index <= end_index < lines.len(),
            indented_block(texts, start_index as int, end_index as int),
            forall|end: int|
                indented_block(texts, start_index as int, end) ==> end <= end_index,
        decreases lines.len() - index,
    {
        let line = lines[index];
        assert(line@ == texts[index as int]);
        if !is_blank(line) {
            if indent_width(line) <= start_indent {
                proof {
                    assert forall|end: int| indented_block(texts, start_index as int, end) implies end
                        <= end_index by {
                        if end >= index {
                            assert(blank(texts[index as int]) || indent_of(texts[index as int])
                                > indent_of(texts[start_index as int]));
                        }
                    }
                }
                break;
            }
            end_index = index;
        }
        index += 1;
    }
    end_index + 1
}

// ---------------------------------------------------------------------------
// Whole texts
// ---------------------------------------------------------------------------

/// The end of the block that a declaration of the given style in line `index`
/// begins.
pub open spec fn block_end(
    lines: Seq<Seq<char>>,
    index: int,
    style: HeuristicStyle,
    end: int,
) -> bool {
    match style {
        HeuristicStyle::Brace => end == brace_block_end(lines, index, index, BraceScan::start()),
        HeuristicStyle::Indentation => indented_block(lines, index, end - 1) && forall|e: int|
            indented_block(lines, index, e) ==> e <= end - 1,
        HeuristicStyle::SingleLine => end == index + 1,
    }
}

/// `functions` are the declarations of the first `count` lines, in their order.
pub open spec fn declarations_of(
    lines: Seq<Seq<char>>,
    count: int,
    functions: Seq<FunctionModel>,
) -> bool
    decreases count,
{
    if count <= 0 {
        functions.len() == 0
    } else {
        match declaration_of(text::trim_start_text(lines[count - 1])) {
            Some(d) => functions.len() > 0 && {
                let f = functions.last();
                &&& f.name == d.name
                &&& f.kind == d.kind
                &&& f.start_line == count
                &&& block_end(lines, count - 1, d.style, f.end_line as int)
                &&& declarations_of(lines, count - 1, functions.drop_last())
            },
            None => declarations_of(lines, count - 1, functions),
        }
    }
}

/// The declarations of a text, line by line.
pub fn extract_heuristic_blocks(source_code: &str) -> (r: Vec<ExtractedFunction>)
    ensures
        declarations_of(
            text::lines_of(source_code@),
            text::lines_of(source_code@).len() as int,
            r.deep_view(),
        ),
{
    let owned = lines(source_code);
    let ghost texts = text::lines_of(source_code@);
    let mut all: Vec<&str> = Vec::new();
    let mut n: usize = 0;
    while n < owned.len()
        invariant
            n <= owned@.len(),
            all@.len() == n,
            forall|k: int| 0 <= k < n ==> (#[trigger] all@[k])@ == owned@[k]@,
        decreases owned@.len() - n,
    {
        all.push(owned[n].as_str());
        n += 1;
    }
    assert(line_texts(all@) == texts);
    let mut functions: Vec<ExtractedFunction> = Vec::new();
    let mut index: usize = 0;
    while index < all.len()
        invariant
            index <= all@.len(),
            line_texts(all@) == texts,
            declarations_of(texts, index as int, functions.deep_view()),
        decreases all@.len() - index,
    {
        let trimmed = trim_start(all[index]);
        assert(all@[index as int]@ == texts[index as int]);
        if let Some((name, kind, style)) = parse_declaration(trimmed.as_str()) {
            let start_line: usize = index + 1;
            let end_line: usize = match style {
                HeuristicStyle::Brace => find_brace_block_end(all.as_slice(), index),
                HeuristicStyle::Indentation => find_indented_block_end(all.as_slice(), index),
                HeuristicStyle::SingleLine => start_line,
            };
            let ghost before = functions.deep_view();
            functions.push(ExtractedFunction { name, kind, start_line, end_line });
            proof {
                assert(functions.deep_view().drop_last() == before);
                assert(block_end(texts, index as int, style, end_line as int));
            }
        }
        index += 1;
    }
    functions
}

// ---------------------------------------------------------------------------
// Laws
// ---------------------------------------------------------------------------

/// What a string holds counts for nothing: a scan that stands in code before a
/// string goes on after its end as it was. The string ends with the first quote of
/// its kind that an even number of backslashes stands before.
pub proof fn law_strings_are_skipped(line: Seq<char>, i: int, j: int, scan: BraceScan)
    requires
        scan.in_code(),
        0 <= i < j < line.len(),
        line[i] == '"' || line[i] == '\'',
        line[j] == line[i],
        backslashes_before(line, j) % 2 == 0,
        forall|k: int|
            i < k < j && #[trigger] line[k] == line[i] ==> backslashes_before(line, k) % 2 == 1,
    ensures
        scan_line(line, i, scan) == scan_line(line, j + 1, scan),
{
    let inside = BraceScan { quote: Some(line[i]), ..scan };
    lemma_string_body(line, i + 1, j, inside);
    assert(BraceScan { quote: None, ..inside } == scan);
}

proof fn lemma_string_body(line: Seq<char>, i: int, j: int, inside: BraceScan)
    requires
        0 <= i <= j < line.len(),
        !inside.in_comment,
        inside.quote is Some,
        forall|k: int|
            i <= k < j && #[trigger] line[k] == inside.quote->0 ==> backslashes_before(line, k) % 2
                == 1,
    ensures
        scan_line(line, i, inside) == scan_line(line, j, inside),
    decreases j - i,
{
    if i < j {
        lemma_string_body(line, i + 1, j, inside);
    }
}

/// What a block comment holds counts for nothing: a scan that stands in code
/// before a block comment goes on after its end as it was.
pub proof fn law_block_comments_are_skipped(line: Seq<char>, i: int, j: int, scan: BraceScan)
    requires
        scan.in_code(),
        pair_at(line, i, '/', '*'),
        i + 2 <= j,
        pair_at(line, j, '*', '/'),
        forall|k: int| i + 2 <= k < j ==> !pair_at(line, k, '*', '/'),
    ensures
        scan_line(line, i, scan) == scan_line(line, j + 2, scan),
{
    let inside = BraceScan { in_comment: true, ..scan };
    lemma_comment_body(line, i + 2, j, inside);
    assert(BraceScan { in_comment: false, ..inside } == scan);
}

proof fn lemma_comment_body(line: Seq<char>, i: int, j: int, inside: BraceScan)
    requires
        0 <= i <= j < line.len(),
        inside.in_comment,
        forall|k: int| i <= k < j ==> !pair_at(line, k, '*', '/'),
    ensures
        scan_line(line, i, inside) == scan_line(line, j, inside),
    decreases j - i,
{
    if i < j {
        lemma_comment_body(line, i + 1, j, inside);
    }
}

/// What follows `//` or `#` in code counts for nothing.
pub proof fn law_line_comments_are_skipped(line: Seq<char>, i: int, scan: BraceScan)
    requires
        scan.in_code(),
        0 <= i < line.len(),
        pair_at(line, i, '/', '/') || line[i] == '#',
    ensures
        scan_line(line, i, scan) == scan,
{
}

/// A string that a line does not end goes on in the next line, and so does a block
/// comment: nothing else of such a line counts.
pub proof fn law_strings_and_comments_go_on(line: Seq<char>, scan: BraceScan)
    requires
        scan.in_comment || scan.quote is Some,
        scan.in_comment ==> forall|k: int| 0 <= k < line.len() ==> !pair_at(line, k, '*', '/'),
        !scan.in_comment ==> forall|k: int|
            0 <= k < line.len() && #[trigger] line[k] == scan.quote->0 ==> backslashes_before(
                line,
                k,
            ) % 2 == 1,
    ensures
        scan_line(line, 0, scan) == scan,
{
    if line.len() > 0 {
        let last = line.len() - 1;
        if scan.in_comment {
            lemma_comment_body(line, 0, last, scan);
            assert(!pair_at(line, last, '*', '/'));
        } else {
            lemma_string_body(line, 0, last, scan);
            assert(line[last] == scan.quote->0 ==> backslashes_before(line, last) % 2 == 1);
        }
        assert(scan_line(line, last + 1, scan) == scan);
    }
}

/// A brace that is closed in code with none open counts for nothing.
pub proof fn law_unopened_braces_count_for_nothing(line: Seq<char>, i: int, scan: BraceScan)
    requires
        scan.in_code(),
        scan.depth == 0,
        0 <= i < line.len(),
        line[i] == '}',
    ensures
        scan_line(line, i, scan) == scan_line(line, i + 1, scan),
{
}

/// How many more braces a text opens than it closes.
pub open spec fn excess(s: Seq<char>) -> int {
    s.to_multiset().count('{') - s.to_multiset().count('}')
}

/// A text without quotes, comments and `#`.
pub open spec fn bare(s: Seq<char>) -> bool {
    &&& !s.contains('"')
    &&& !s.contains('\'')
    &&& !s.contains('#')
    &&& forall|k: int|
        0 <= k < s.len() - 1 && #[trigger] s[k] == '/' ==> s[k + 1] != '/' && s[k + 1] != '*'
}

proof fn lemma_excess_adds(a: Seq<char>, b: Seq<char>)
    ensures
        excess(a + b) == excess(a) + excess(b),
        (a + b).contains('{') <==> a.contains('{') || b.contains('{'),
{
    vstd::seq_lib::lemma_multiset_commutative(a, b);
    vstd::seq_lib::lemma_seq_concat_contains_all_elements(a, b, '{');
}

proof fn lemma_excess_of_one(c: char)
    ensures
        excess(seq![c]) == (if c == '{' {
            1int
        } else if c == '}' {
            -1int
        } else {
            0int
        }),
        seq![c].contains('{') <==> c == '{',
{
    let none = Seq::<char>::empty();
    assert(none.push(c) =~= seq![c]);
    none.to_multiset_ensures();
    seq![c].to_multiset_ensures();
    assert(none.to_multiset().len() == 0);
    assert(none.to_multiset() =~= vstd::multiset::Multiset::<char>::empty());
    assert(seq![c].to_multiset() =~= vstd::multiset::Multiset::<char>::empty().insert(c));
    assert(seq![c][0] == c);
}

/// Braces are counted: a scan that stands in code before a text without quotes,
/// comments and `#` stands in code behind it, with as many more open braces as the
/// text opens more than it closes. This holds as long as no brace is closed that was
/// not opened.
pub proof fn law_braces_are_counted(line: Seq<char>, scan: BraceScan)
    requires
        scan.in_code(),
        bare(line),
        forall|m: int| 0 <= m <= line.len() ==> scan.depth + excess(#[trigger] line.take(m)) >= 0,
    ensures
        scan_line(line, 0, scan).in_code(),
        scan_line(line, 0, scan).depth == scan.depth + excess(line),
        scan_line(line, 0, scan).seen_open <==> scan.seen_open || line.contains('{'),
{
    assert(line.take(0) =~= Seq::<char>::empty());
    line.take(0).to_multiset_ensures();
    assert(line.take(0).to_multiset().len() == 0);
    lemma_braces_counted(line, 0, scan, scan);
    assert(line.take(line.len() as int) =~= line);
}

proof fn lemma_braces_counted(line: Seq<char>, i: int, first: BraceScan, scan: BraceScan)
    requires
        first.in_code(),
        scan.in_code(),
        bare(line),
        0 <= i <= line.len(),
        scan.depth == first.depth + excess(line.take(i)),
        scan.seen_open <==> first.seen_open || line.take(i).contains('{'),
        forall|m: int| 0 <= m <= line.len() ==> first.depth + excess(#[trigger] line.take(m)) >= 0,
    ensures
        scan_line(line, i, scan).in_code(),
        scan_line(line, i, scan).depth == first.depth + excess(line.take(line.len() as int)),
        scan_line(line, i, scan).seen_open <==> first.seen_open || line.take(
            line.len() as int,
        ).contains('{'),
    decreases line.len() - i,
{
    if i < line.len() {
        let c = line[i];
        assert(line.take(i + 1) =~= line.take(i) + seq![c]);
        lemma_excess_adds(line.take(i), seq![c]);
        lemma_excess_of_one(c);
        assert(line.contains(c));
        let next = if c == '{' {
            BraceScan { depth: scan.depth + 1, seen_open: true, ..scan }
        } else if c == '}' {
            BraceScan { depth: (scan.depth - 1) as nat, ..scan }
        } else {
            scan
        };
        assert(first.depth + excess(line.take(i + 1)) >= 0);
        lemma_braces_counted(line, i + 1, first, next);
    }
}

proof fn lemma_open_block(lines: Seq<Seq<char>>, start: int, index: int, scan: BraceScan)
    requires
        0 <= start <= index <= lines.len(),
        scan.in_code(),
        scan.depth == excess(lines.subrange(start, index).flatten()),
        scan.seen_open <==> lines.subrange(start, index).flatten().contains('{'),
        index < lines.len(),
        bare(lines[index]),
        forall|m: int|
            0 <= m <= lines[index].len() ==> excess(
                lines.subrange(start, index).flatten() + #[trigger] lines[index].take(m),
            ) >= 0,
    ensures
        ({
            let after = scan_line(lines[index], 0, scan);
            let text = lines.subrange(start, index + 1).flatten();
            &&& after.in_code()
            &&& after.depth == excess(text)
            &&& after.seen_open <==> text.contains('{')
        }),
{
    let before = lines.subrange(start, index);
    let line = lines[index];
    assert(lines.subrange(start, index + 1) =~= before.push(line));
    before.lemma_flatten_push(line);
    lemma_excess_adds(before.flatten(), line);
    assert forall|m: int| 0 <= m <= line.len() implies scan.depth + excess(
        #[trigger] line.take(m),
    ) >= 0 by {
        lemma_excess_adds(before.flatten(), line.take(m));
    }
    law_braces_are_counted(line, scan);
}

/// From line `start` on the lines hold no quotes, comments and `#`, up to line `end`,
/// and no brace is closed that was not opened there.
pub open spec fn bare_lines(lines: Seq<Seq<char>>, start: int, end: int) -> bool {
    &&& 0 <= start <= end < lines.len()
    &&& forall|k: int| start <= k <= end ==> bare(#[trigger] lines[k])
    &&& forall|k: int, m: int|
        start <= k <= end && 0 <= m <= lines[k].len() ==> excess(
            lines.subrange(start, k).flatten() + #[trigger] lines[k].take(m),
        ) >= 0
}

/// The text from line `start` to line `end` opens braces and closes all of them.
pub open spec fn balanced(lines: Seq<Seq<char>>, start: int, end: int) -> bool {
    let text = lines.subrange(start, end + 1).flatten();
    text.contains('{') && excess(text) == 0
}

/// A block ends with the first line at whose end as many braces are closed as were
/// opened from the start of the block on: braces nest. A block in which that is no
/// line is one line long.
pub proof fn law_blocks_end_where_braces_balance(lines: Seq<Seq<char>>, start: int, end: int)
    requires
        bare_lines(lines, start, end),
        forall|k: int| start <= k < end ==> !#[trigger] balanced(lines, start, k),
    ensures
        balanced(lines, start, end) ==> brace_block_end(lines, start, start, BraceScan::start())
            == end + 1,
        !balanced(lines, start, end) && end + 1 == lines.len() ==> brace_block_end(
            lines,
            start,
            start,
            BraceScan::start(),
        ) == start + 1,
{
    let none = lines.subrange(start, start);
    assert(none.flatten() =~= Seq::<char>::empty());
    none.flatten().to_multiset_ensures();
    lemma_blocks_end(lines, start, start, end, BraceScan::start());
}

proof fn lemma_blocks_end(
    lines: Seq<Seq<char>>,
    start: int,
    index: int,
    end: int,
    scan: BraceScan,
)
    requires
        bare_lines(lines, start, end),
        start <= index <= end,
        scan.in_code(),
        scan.depth == excess(lines.subrange(start, index).flatten()),
        scan.seen_open <==> lines.subrange(start, index).flatten().contains('{'),
        forall|k: int| start <= k < end ==> !#[trigger] balanced(lines, start, k),
    ensures
        balanced(lines, start, end) ==> brace_block_end(lines, start, index, scan) == end + 1,
        !balanced(lines, start, end) && end + 1 == lines.len() ==> brace_block_end(
            lines,
            start,
            index,
            scan,
        ) == start + 1,
    decreases end - index,
{
    lemma_open_block(lines, start, index, scan);
    let after = scan_line(lines[index], 0, scan);
    assert(after.closed() <==> balanced(lines, start, index));
    if index < end {
        lemma_blocks_end(lines, start, index + 1, end, after);
    } else if !after.closed() && end + 1 == lines.len() {
        assert(brace_block_end(lines, start, index + 1, after) == start + 1);
    }
}

/// Exactly the backslashes that stand in a row before a position are counted there.
pub proof fn law_backslashes_are_counted(line: Seq<char>, i: int, n: nat)
    requires
        n <= i <= line.len(),
        forall|k: int| i - n <= k < i ==> #[trigger] line[k] == '\\',
        n < i ==> line[i - n - 1] != '\\',
    ensures
        backslashes_before(line, i) == n,
    decreases n,
{
    if n > 0 {
        assert(line[i - 1] == '\\');
        law_backslashes_are_counted(line, i - 1, (n - 1) as nat);
    }
}

/// An identifier is the longest beginning of a text that is made of ASCII letters and
/// digits, `_` and `$`.
pub proof fn law_identifiers_are_longest(s: Seq<char>)
    ensures
        identifier_of(s).is_prefix_of(s),
        forall|k: int|
            0 <= k < identifier_of(s).len() ==> {
                let c = #[trigger] s[k];
                ||| 'a' <= c <= 'z'
                ||| 'A' <= c <= 'Z'
                ||| '0' <= c <= '9'
                ||| c == '_'
                ||| c == '$'
            },
        identifier_of(s).len() < s.len() ==> {
            let c = s[identifier_of(s).len() as int];
            !('a' <= c <= 'z' || 'A' <= c <= 'Z' || '0' <= c <= '9' || c == '_' || c == '$')
        },
    decreases s.len(),
{
    if s.len() > 0 && identifier_char(s[0]) {
        let rest = s.skip(1);
        law_identifiers_are_longest(rest);
        let r = identifier_of(s);
        let n = identifier_of(rest).len();
        assert(identifier_of(rest) == rest.subrange(0, n as int));
        assert(r =~= s.subrange(0, r.len() as int)) by {
            assert forall|k: int| 0 <= k < r.len() implies r[k] == s[k] by {
                if k > 0 {
                    assert(identifier_of(rest)[k - 1] == rest[k - 1]);
                }
            }
        }
        assert forall|k: int| 0 <= k < r.len() implies identifier_char(#[trigger] s[k]) by {
            if k > 0 {
                assert(rest[k - 1] == s[k]);
            }
        }
        if r.len() < s.len() {
            assert(rest[n as int] == s[r.len() as int]);
        }
    }
}

/// The word stands in front of the rest of a line, and the line declares what the rest
/// begins with.
pub open spec fn declares(word: Seq<char>, rest: Seq<char>, kind: SymbolKind) -> bool {
    declaration_of(word + rest) matches Some(d) && d.name == identifier_of(rest) && d.kind == kind
}

/// Each of the known words, with a blank behind it, declares what follows: a class or
/// a function.
pub proof fn law_known_words_declare(rest: Seq<char>)
    ensures
        declares("class "@, rest, SymbolKind::Class),
        declares("struct "@, rest, SymbolKind::Class),
        declares("interface "@, rest, SymbolKind::Class),
        declares("type "@, rest, SymbolKind::Class),
        declares("def "@, rest, SymbolKind::Function),
        declares("func "@, rest, SymbolKind::Function),
        declares("function "@, rest, SymbolKind::Function),
        declares("async function "@, rest, SymbolKind::Function),
        declares("export function "@, rest, SymbolKind::Function),
{
    lemma_words();
    assert(declares("class "@, rest, SymbolKind::Class)) by {
        lemma_word_in_front("class "@, rest);
    }
    assert(declares("struct "@, rest, SymbolKind::Class)) by {
        lemma_word_in_front("struct "@, rest);
    }
    assert(declares("interface "@, rest, SymbolKind::Class)) by {
        lemma_word_in_front("interface "@, rest);
    }
    assert(declares("type "@, rest, SymbolKind::Class)) by {
        lemma_word_in_front("type "@, rest);
    }
    assert(declares("def "@, rest, SymbolKind::Function)) by {
        lemma_word_in_front("def "@, rest);
    }
    assert(declares("func "@, rest, SymbolKind::Function)) by {
        lemma_word_in_front("func "@, rest);
    }
    assert(declares("function "@, rest, SymbolKind::Function)) by {
        lemma_word_in_front("function "@, rest);
    }
    assert(declares("async function "@, rest, SymbolKind::Function)) by {
        lemma_word_in_front("async function "@, rest);
    }
    assert(declares("export function "@, rest, SymbolKind::Function)) by {
        lemma_word_in_front("export function "@, rest);
    }
}

proof fn lemma_words()
    ensures
        "class "@.len() == 6 && "class "@[0] == 'c',
        "struct "@.len() == 7 && "struct "@[0] == 's',
        "interface "@.len() == 10 && "interface "@[0] == 'i',
        "type "@.len() == 5 && "type "@[0] == 't',
        "def "@.len() == 4 && "def "@[0] == 'd',
        "func "@.len() == 5 && "func "@[0] == 'f' && "func "@[4] == ' ',
        "function "@.len() == 9 && "function "@[0] == 'f' && "function "@[4] == 't',
        "async function "@.len() == 15 && "async function "@[0] == 'a',
        "export function "@.len() == 16 && "export function "@[0] == 'e',
{
    reveal_strlit("class ");
    reveal_strlit("struct ");
    reveal_strlit("interface ");
    reveal_strlit("type ");
    reveal_strlit("def ");
    reveal_strlit("func ");
    reveal_strlit("function ");
    reveal_strlit("async function ");
    reveal_strlit("export function ");
}

proof fn lemma_word_in_front(word: Seq<char>, rest: Seq<char>)
    ensures
        text::starts_with(word + rest, word),
        (word + rest).skip(word.len() as int) == rest,
        forall|other: Seq<char>|
            word.len() > 0 && other.len() > 0 && other[0] != word[0] ==> !#[trigger]
                text::starts_with(word + rest, other),
        forall|other: Seq<char>|
            word.len() > 4 && other.len() > 4 && other[4] != word[4] ==> !#[trigger]
                text::starts_with(word + rest, other),
{
    let line = word + rest;
    assert(line.subrange(0, word.len() as int) =~= word);
    assert(line.skip(word.len() as int) =~= rest);
    assert forall|other: Seq<char>|
        word.len() > 0 && other.len() > 0 && other[0] != word[0] implies !#[trigger]
        text::starts_with(line, other) by {
        if text::starts_with(line, other) {
            assert(line.subrange(0, other.len() as int)[0] == line[0]);
        }
    }
    assert forall|other: Seq<char>|
        word.len() > 4 && other.len() > 4 && other[4] != word[4] implies !#[trigger]
        text::starts_with(line, other) by {
        if text::starts_with(line, other) {
            assert(line.subrange(0, other.len() as int)[4] == line[4]);
        }
    }
}

/// A line that begins with none of the known words declares nothing.
pub proof fn law_other_lines_declare_nothing(line: Seq<char>)
    requires
        !"class "@.is_prefix_of(line),
        !"struct "@.is_prefix_of(line),
        !"interface "@.is_prefix_of(line),
        !"type "@.is_prefix_of(line),
        !"def "@.is_prefix_of(line),
        !"func "@.is_prefix_of(line),
        !"function "@.is_prefix_of(line),
        !"async function "@.is_prefix_of(line),
        !"export function "@.is_prefix_of(line),
    ensures
        declaration_of(line) is None,
{
}

/// The extent of a declaration is found by braces if its line has one, by indentation
/// if its line ends with a colon, and is the line alone if not. The functions that
/// begin with two words are found by braces in any case.
pub proof fn law_extent_is_announced(line: Seq<char>)
    ensures
        declaration_of(line) matches Some(d) ==> {
            let two_words = "async function "@.is_prefix_of(line) || "export function "@.is_prefix_of(
                line,
            );
            &&& d.style == HeuristicStyle::Brace <==> line.contains('{') || two_words
            &&& d.style == HeuristicStyle::Indentation <==> !line.contains('{') && !two_words
                && line.last() == ':'
        },
{
    reveal_strlit(":");
    reveal_strlit("class ");
    reveal_strlit("struct ");
    reveal_strlit("interface ");
    reveal_strlit("type ");
    reveal_strlit("def ");
    reveal_strlit("func ");
    reveal_strlit("function ");
    reveal_strlit("async function ");
    reveal_strlit("export function ");
    if declaration_of(line) is Some {
        if "async function "@.is_prefix_of(line) {
            assert(line.subrange(0, 15)[0] == line[0]);
        }
        if "export function "@.is_prefix_of(line) {
            assert(line.subrange(0, 16)[0] == line[0]);
        }
        lemma_first_letter(line, "class "@);
        lemma_first_letter(line, "struct "@);
        lemma_first_letter(line, "interface "@);
        lemma_first_letter(line, "type "@);
        lemma_first_letter(line, "def "@);
        lemma_first_letter(line, "func "@);
        lemma_first_letter(line, "function "@);
        let n = line.len() as int;
        if text::ends_with(line, ":"@) {
            assert(line.subrange(n - 1, n)[0] == line[n - 1]);
        } else if line.last() == ':' {
            assert(line.subrange(n - 1, n) =~= ":"@);
        }
    }
}

proof fn lemma_first_letter(line: Seq<char>, word: Seq<char>)
    requires
        word.len() > 0,
    ensures
        text::starts_with(line, word) ==> line[0] == word[0],
{
    if text::starts_with(line, word) {
        assert(line.subrange(0, word.len() as int)[0] == line[0]);
    }
}

/// A declaration of the text that begins in the given line.
pub open spec fn found_in(f: FunctionModel, lines: Seq<Seq<char>>, k: int) -> bool {
    &&& f.start_line == k + 1
    &&& declaration_of(text::trim_start_text(lines[k])) matches Some(d) && f.name == d.name
        && f.kind == d.kind && block_end(lines, k, d.style, f.end_line as int)
}

/// Every line that declares something gives one symbol, with the name and the kind
/// that it declares, and every symbol comes from such a line.
pub proof fn law_every_declaration_is_found(
    lines: Seq<Seq<char>>,
    count: int,
    functions: Seq<FunctionModel>,
)
    requires
        declarations_of(lines, count, functions),
        0 <= count <= lines.len(),
    ensures
        forall|k: int|
            0 <= k < count && (#[trigger] declaration_of(text::trim_start_text(lines[k]))) is Some
                ==> exists|i: int|
                0 <= i < functions.len() && found_in(#[trigger] functions[i], lines, k),
        forall|i: int|
            0 <= i < functions.len() ==> {
                let k = #[trigger] functions[i].start_line - 1;
                0 <= k < count && found_in(functions[i], lines, k)
            },
    decreases count,
{
    if count > 0 {
        let declared = declaration_of(text::trim_start_text(lines[count - 1]));
        let before = if declared is Some {
            functions.drop_last()
        } else {
            functions
        };
        law_every_declaration_is_found(lines, count - 1, before);
        assert forall|k: int|
            0 <= k < count && (#[trigger] declaration_of(
                text::trim_start_text(lines[k]),
            )) is Some implies exists|i: int|
            0 <= i < functions.len() && found_in(#[trigger] functions[i], lines, k) by {
            if k == count - 1 {
                assert(found_in(functions[functions.len() - 1], lines, k));
            } else {
                let i = choose|i: int|
                    0 <= i < before.len() && found_in(#[trigger] before[i], lines, k);
                assert(found_in(functions[i], lines, k));
            }
        }
        assert forall|i: int| 0 <= i < functions.len() implies {
            let k = #[trigger] functions[i].start_line - 1;
            0 <= k < count && found_in(functions[i], lines, k)
        } by {
            if i < before.len() {
                assert(before[i] == functions[i]);
                let k = before[i].start_line - 1;
                assert(found_in(before[i], lines, k));
            }
        }
    }
}

/// The indentation of a line is the number of white space characters in front of its
/// first other character.
pub proof fn law_indentation_is_leading_space(line: Seq<char>, n: int)
    requires
        0 <= n < line.len(),
        forall|k: int| 0 <= k < n ==> text::white_space(#[trigger] line[k]),
        !text::white_space(line[n]),
    ensures
        indent_of(line) == n,
    decreases n,
{
    if n > 0 {
        assert(text::white_space(line[0]));
        law_indentation_is_leading_space(line.skip(1), n - 1);
    }
}

/// The extent of every declaration lies in the text: it begins in a line of the
/// text and ends in that line or a later one.
pub proof fn law_extents_lie_in_the_text(
    lines: Seq<Seq<char>>,
    count: int,
    functions: Seq<FunctionModel>,
    i: int,
)
    requires
        declarations_of(lines, count, functions),
        count <= lines.len(),
        0 <= i < functions.len(),
    ensures
        1 <= functions[i].start_line <= functions[i].end_line <= lines.len(),
        functions[i].start_line <= count,
    decreases count,
{
    match declaration_of(text::trim_start_text(lines[count - 1])) {
        Some(d) => {
            if i < functions.len() - 1 {
                law_extents_lie_in_the_text(lines, count - 1, functions.drop_last(), i);
            } else {
                lemma_brace_end_bounds(lines, count - 1, count - 1, BraceScan::start());
            }
        },
        None => {
            law_extents_lie_in_the_text(lines, count - 1, functions, i);
        },
    }
}

/// The declarations come in the order of the lines, at most one from each.
pub proof fn law_declarations_are_in_order(
    lines: Seq<Seq<char>>,
    count: int,
    functions: Seq<FunctionModel>,
    i: int,
    j: int,
)
    requires
        declarations_of(lines, count, functions),
        count <= lines.len(),
        0 <= i < j < functions.len(),
    ensures
        functions[i].start_line < functions[j].start_line,
    decreases count,
{
    match declaration_of(text::trim_start_text(lines[count - 1])) {
        Some(d) => {
            if j < functions.len() - 1 {
                law_declarations_are_in_order(lines, count - 1, functions.drop_last(), i, j);
            } else {
                law_extents_lie_in_the_text(lines, count - 1, functions.drop_last(), i);
            }
        },
        None => {
            law_declarations_are_in_order(lines, count - 1, functions, i, j);
        },
    }
}

proof fn lemma_brace_end_bounds(lines: Seq<Seq<char>>, start: int, index: int, scan: BraceScan)
    requires
        0 <= start <= index,
        start < lines.len(),
    ensures
        start + 1 <= brace_block_end(lines, start, index, scan) <= lines.len(),
    decreases lines.len() - index,
{
    if index < lines.len() {
        let after = scan_line(lines[index], 0, scan);
        if !after.closed() {
            lemma_brace_end_bounds(lines, start, index + 1, after);
        }
    }
}

/// A block by indentation holds the lines behind its first one that are indented deeper
/// or blank, and ends with the last of them that is not blank: the next line that is not
/// blank is indented no deeper than the first. A single line is a block of its own.
pub proof fn law_indented_blocks_end_with_their_indentation(
    lines: Seq<Seq<char>>,
    start: int,
    end: int,
    next: int,
)
    requires
        block_end(lines, start, HeuristicStyle::Indentation, end),
        0 <= start < lines.len(),
    ensures
        start < end <= lines.len(),
        forall|k: int|
            start < k < end ==> text::trim_text(#[trigger] lines[k]).len() == 0 || indent_of(
                lines[k],
            ) > indent_of(lines[start]),
        end > start + 1 ==> text::trim_text(lines[end - 1]).len() > 0,
        end <= next < lines.len() && text::trim_text(lines[next]).len() > 0 && (forall|k: int|
            end <= k < next ==> text::trim_text(#[trigger] lines[k]).len() == 0) ==> indent_of(
            lines[next],
        ) <= indent_of(lines[start]),
        forall|e: int|
            block_end(lines, start, HeuristicStyle::SingleLine, e) <==> e == start + 1,
{
    assert(indented_block(lines, start, end - 1));
    if end <= next < lines.len() && text::trim_text(lines[next]).len() > 0 && (forall|k: int|
        end <= k < next ==> text::trim_text(#[trigger] lines[k]).len() == 0) && indent_of(
        lines[next],
    ) > indent_of(lines[start]) {
        assert forall|k: int| start < k <= next implies blank(#[trigger] lines[k]) || indent_of(
            lines[k],
        ) > indent_of(lines[start]) by {
            if k < end {
            } else if k < next {
                assert(text::trim_text(lines[k]).len() == 0);
            }
        }
        assert(indented_block(lines, start, next));
    }
}

/// A block by braces ends where the braces say.
pub proof fn law_brace_blocks_end_with_their_braces(lines: Seq<Seq<char>>, start: int, end: int)
    ensures
        block_end(lines, start, HeuristicStyle::Brace, end) <==> end == brace_block_end(
            lines,
            start,
            start,
            BraceScan::start(),
        ),
{
}

} // verus!
