//! Registered projects: which one a directory belongs to, which directories may
//! be indexed, and what of them is read.

use crate::fs_utils;
use crate::fs_utils::{clean_path, is_garbage_file, is_ignored_by_patterns, should_skip_path};
use crate::language::SupportedLanguage;
use crate::parser;
use crate::parser::is_binary_file;
use crate::paths;
use crate::paths::{components, extension, file_name};
use crate::text;
use crate::text::{
    begins_with, concat2, concat3, decimal_usize, lines, lowercase, same_ignoring_ascii_case,
    same_text, to_ascii_lowercase, trim, trim_end_char,
};
use vstd::prelude::*;

verus! {

/// A registered project, with its path as the file system resolves it, if it
/// does.
#[derive(Debug, Clone, PartialEq, Eq)]
pub struct RegisteredProject {
    pub name: String,
    pub path: String,
    pub canonical: Option<String>,
}

// ---------------------------------------------------------------------------
// Places
// ---------------------------------------------------------------------------

/// A path in the form in which places are compared: without marks, in lower case.
pub open spec fn place(path: Seq<char>) -> Seq<char> {
    text::unicode_lowercase(fs_utils::cleaned(path))
}

/// The two paths are the same, whatever their case and their marks.
pub open spec fn same_place(a: Seq<char>, b: Seq<char>) -> bool {
    place(a) == place(b)
}

/// The path is that of the directory, or lies in it.
pub open spec fn in_place(path: Seq<char>, directory: Seq<char>) -> bool {
    same_place(path, directory) || text::starts_with(place(path), place(directory) + "\\"@)
        || text::starts_with(place(path), place(directory) + "/"@)
}

/// The project lies at the given place.
pub open spec fn lies_at(project: RegisteredProject, target: Seq<char>) -> bool {
    match project.canonical {
        Some(path) => same_place(target, path@),
        None => false,
    }
}

/// The given place lies in the project.
pub open spec fn covers(project: RegisteredProject, target: Seq<char>) -> bool {
    match project.canonical {
        Some(path) => in_place(target, path@),
        None => false,
    }
}

/// The path of the project is the given one, letter for letter but for marks.
pub open spec fn stands_at(project: RegisteredProject, target: Seq<char>) -> bool {
    match project.canonical {
        Some(path) => fs_utils::cleaned(path@) == fs_utils::cleaned(target),
        None => false,
    }
}

fn place_text(path: &str) -> (r: String)
    ensures
        r@ == place(path@),
{
    lowercase(clean_path(path).as_str())
}

fn project_lies_at(project: &RegisteredProject, target: &str) -> (r: bool)
    ensures
        r == lies_at(*project, target@),
{
    match &project.canonical {
        Some(path) => same_text(place_text(target).as_str(), place_text(path.as_str()).as_str()),
        None => false,
    }
}

fn project_covers(project: &RegisteredProject, target: &str) -> (r: bool)
    ensures
        r == covers(*project, target@),
{
    match &project.canonical {
        Some(path) => {
            let own = place_text(target);
            let directory = place_text(path.as_str());
            same_text(own.as_str(), directory.as_str()) || begins_with(
                own.as_str(),
                concat2(directory.as_str(), "\\").as_str(),
            ) || begins_with(own.as_str(), concat2(directory.as_str(), "/").as_str())
        },
        None => false,
    }
}

/// The first project that covers a place.
fn covering_project(target: &str, projects: &Vec<RegisteredProject>) -> (r: Option<usize>)
    ensures
        match r {
            Some(i) => i < projects@.len() && covers(projects@[i as int], target@) && forall|j: int|
                0 <= j < i ==> !covers(#[trigger] projects@[j], target@),
            None => forall|j: int|
                0 <= j < projects@.len() ==> !covers(#[trigger] projects@[j], target@),
        },
{
    let mut i: usize = 0;
    while i < projects.len()
        invariant
            i <= projects@.len(),
            forall|j: int| 0 <= j < i ==> !covers(#[trigger] projects@[j], target@),
        decreases projects@.len() - i,
    {
        if project_covers(&projects[i], target) {
            return Some(i);
        }
        i += 1;
    }
    None
}

/// Some project covers the place.
pub open spec fn registered(target: Seq<char>, projects: Seq<RegisteredProject>) -> bool {
    exists|i: int| 0 <= i < projects.len() && covers(#[trigger] projects[i], target)
}

/// `root` is the root of the project that a place belongs to: that of the first
/// project that covers it, or the place itself.
pub open spec fn is_root_of(
    root: Seq<char>,
    target: Seq<char>,
    projects: Seq<RegisteredProject>,
) -> bool {
    ||| !registered(target, projects) && root == target
    ||| exists|i: int|
        0 <= i < projects.len() && covers(#[trigger] projects[i], target) && projects[i].canonical
            is Some && root == projects[i].canonical->0@ && forall|j: int|
            0 <= j < i ==> !covers(#[trigger] projects[j], target)
}

/// The root of the project that a place belongs to.
pub fn resolve_project_root(target_path: &str, projects: &Vec<RegisteredProject>) -> (r: String)
    ensures
        is_root_of(r@, target_path@, projects@),
{
    match covering_project(target_path, projects) {
        Some(i) => {
            assert(covers(projects@[i as int], target_path@));
            match &projects[i].canonical {
                Some(path) => path.as_str().to_string(),
                None => target_path.to_string(),
            }
        },
        None => target_path.to_string(),
    }
}

/// Whether a directory is that of a registered project; the error says that it is
/// not.
pub fn check_directory_authorized(target: &str, projects: &Vec<RegisteredProject>) -> (r: Result<
    (),
    String,
>)
    ensures
        r is Ok <==> exists|i: int|
            0 <= i < projects@.len() && lies_at(#[trigger] projects@[i], target@),
        r is Err ==> r->Err_0@
            == "Error: Este directorio no está registrado en ozymem. Ejecuta 'ozymem register' primero para autorizarlo."@,
{
    let mut i: usize = 0;
    while i < projects.len()
        invariant
            i <= projects@.len(),
            forall|j: int| 0 <= j < i ==> !lies_at(#[trigger] projects@[j], target@),
        decreases projects@.len() - i,
    {
        if project_lies_at(&projects[i], target) {
            assert(lies_at(projects@[i as int], target@));
            return Ok(());
        }
        i += 1;
    }
    Err(
        "Error: Este directorio no está registrado en ozymem. Ejecuta 'ozymem register' primero para autorizarlo.".to_string(),
    )
}

/// The name that a directory goes by: that of the project at it, or one made of
/// the name of the directory.
pub open spec fn identifier_of(
    name: Seq<char>,
    target: Seq<char>,
    projects: Seq<RegisteredProject>,
) -> bool {
    ||| exists|i: int|
        0 <= i < projects.len() && lies_at(#[trigger] projects[i], target) && name
            == projects[i].name@ && forall|j: int|
            0 <= j < i ==> !lies_at(#[trigger] projects[j], target)
    ||| (forall|j: int| 0 <= j < projects.len() ==> !lies_at(#[trigger] projects[j], target))
        && name == "unregistered-"@ + match paths::file_name_of(target) {
        Some(folder) => folder,
        None => "unknown"@,
    }
}

/// The name that a directory goes by, and its path without marks.
pub fn get_project_identifier(target: &str, projects: &Vec<RegisteredProject>) -> (r: (
    String,
    String,
))
    ensures
        identifier_of(r.0@, target@, projects@),
        r.1@ == fs_utils::cleaned(target@),
{
    let clean = clean_path(target);
    let mut i: usize = 0;
    while i < projects.len()
        invariant
            i <= projects@.len(),
            clean@ == fs_utils::cleaned(target@),
            forall|j: int| 0 <= j < i ==> !lies_at(#[trigger] projects@[j], target@),
        decreases projects@.len() - i,
    {
        if project_lies_at(&projects[i], target) {
            assert(lies_at(projects@[i as int], target@));
            return (projects[i].name.as_str().to_string(), clean);
        }
        i += 1;
    }
    let folder = match file_name(target) {
        Some(folder) => folder,
        None => "unknown".to_string(),
    };
    (concat2("unregistered-", folder.as_str()), clean)
}

/// The name of the project whose path is the given one.
pub fn project_at(current: &str, projects: &Vec<RegisteredProject>) -> (r: Option<String>)
    ensures
        match r {
            Some(name) => exists|i: int|
                0 <= i < projects@.len() && stands_at(#[trigger] projects@[i], current@) && name@
                    == projects@[i].name@ && forall|j: int|
                    0 <= j < i ==> !stands_at(#[trigger] projects@[j], current@),
            None => forall|j: int|
                0 <= j < projects@.len() ==> !stands_at(#[trigger] projects@[j], current@),
        },
{
    let clean = clean_path(current);
    let mut i: usize = 0;
    while i < projects.len()
        invariant
            i <= projects@.len(),
            clean@ == fs_utils::cleaned(current@),
            forall|j: int| 0 <= j < i ==> !stands_at(#[trigger] projects@[j], current@),
        decreases projects@.len() - i,
    {
        if let Some(path) = &projects[i].canonical {
            if same_text(clean_path(path.as_str()).as_str(), clean.as_str()) {
                assert(stands_at(projects@[i as int], current@));
                return Some(projects[i].name.as_str().to_string());
            }
        }
        i += 1;
    }
    None
}

// ---------------------------------------------------------------------------
// Directories that are not indexed
// ---------------------------------------------------------------------------

/// A path in lower case, without separators at its end.
pub open spec fn bare(path: Seq<char>) -> Seq<char> {
    text::trim_end_char_text(text::trim_end_char_text(text::unicode_lowercase(path), '\\'), '/')
}

/// The directory is the root of a file system or the home of users.
pub open spec fn critical_root(
    path: Seq<char>,
    user_profile: Option<Seq<char>>,
    home: Option<Seq<char>>,
) -> bool {
    ||| paths::components_of(path).len() <= 1
    ||| bare(path) == "c:\\users"@
    ||| bare(path) == "c:/users"@
    ||| (match user_profile {
        Some(p) => bare(path) == bare(p),
        None => false,
    })
    ||| (match home {
        Some(p) => bare(path) == bare(p),
        None => false,
    })
}

fn bare_text(path: &str) -> (r: String)
    ensures
        r@ == bare(path@),
{
    trim_end_char(trim_end_char(lowercase(path).as_str(), '\\').as_str(), '/')
}

pub open spec fn setting(value: Option<&str>) -> Option<Seq<char>> {
    match value {
        Some(s) => Some(s@),
        None => None,
    }
}

/// Whether a directory is the root of a file system or the home of users.
/// `user_profile` and `home` are the settings of the environment of these names.
pub fn is_critical_root(path: &str, user_profile: Option<&str>, home: Option<&str>) -> (r: bool)
    ensures
        r == critical_root(path@, setting(user_profile), setting(home)),
{
    let parts = components(path);
    assert(parts.deep_view().len() == parts@.len());
    if parts.len() <= 1 {
        return true;
    }
    let own = bare_text(path);
    if same_text(own.as_str(), "c:\\users") || same_text(own.as_str(), "c:/users") {
        return true;
    }
    if let Some(p) = user_profile {
        if same_text(own.as_str(), bare_text(p).as_str()) {
            return true;
        }
    }
    if let Some(p) = home {
        if same_text(own.as_str(), bare_text(p).as_str()) {
            return true;
        }
    }
    false
}

pub const CRITICAL_ROOT_ERROR: &'static str =
    "Error: No se permite indexar desde la raíz del perfil de usuario por seguridad. Muévete a la carpeta de tu proyecto.";

pub const UNREGISTERED_ERROR: &'static str =
    "El directorio de ejecución no pertenece a ningún proyecto registrado. Regístralo primero o usa --force.";

/// Whether a directory may be scanned. It must belong to a registered project and
/// must not be a critical root, unless it is forced.
pub fn authorize_scan(
    force: bool,
    target: &str,
    projects: &Vec<RegisteredProject>,
    user_profile: Option<&str>,
    home: Option<&str>,
) -> (r: Result<(), &'static str>)
    ensures
        r is Ok <==> force || (registered(target@, projects@) && !critical_root(
            target@,
            setting(user_profile),
            setting(home),
        )),
        r is Err ==> r->Err_0@ == if registered(target@, projects@) {
            CRITICAL_ROOT_ERROR@
        } else {
            UNREGISTERED_ERROR@
        },
{
    if force {
        return Ok(());
    }
    match covering_project(target, projects) {
        Some(i) => {
            assert(covers(projects@[i as int], target@));
        },
        None => {
            return Err(UNREGISTERED_ERROR);
        },
    }
    if is_critical_root(target, user_profile, home) {
        return Err(CRITICAL_ROOT_ERROR);
    }
    Ok(())
}

// ---------------------------------------------------------------------------
// What is read
// ---------------------------------------------------------------------------

/// The language that an extension stands for.
pub open spec fn language_of_extension(e: Seq<char>) -> SupportedLanguage {
    if e == "py"@ {
        SupportedLanguage::Python
    } else if e == "go"@ {
        SupportedLanguage::Go
    } else if e == "rs"@ {
        SupportedLanguage::Rust
    } else if e == "js"@ {
        SupportedLanguage::JavaScript
    } else if e == "ts"@ || e == "tsx"@ || e == "jsx"@ {
        SupportedLanguage::TypeScriptReact
    } else if e == "sql"@ {
        SupportedLanguage::SQL
    } else {
        SupportedLanguage::Unknown
    }
}

/// The language of a file, by its extension.
pub open spec fn language_of(path: Seq<char>) -> SupportedLanguage {
    language_of_extension(
        text::ascii_lowercase(
            match paths::extension_of(path) {
                Some(e) => e,
                None => ""@,
            },
        ),
    )
}

/// The language of a file, by its extension.
pub fn get_language_from_path(path: &str) -> (r: SupportedLanguage)
    ensures
        r == language_of(path@),
{
    let e = match extension(path) {
        Some(e) => e,
        None => "".to_string(),
    };
    let e = to_ascii_lowercase(e.as_str());
    let e = e.as_str();
    if same_text(e, "py") {
        SupportedLanguage::Python
    } else if same_text(e, "go") {
        SupportedLanguage::Go
    } else if same_text(e, "rs") {
        SupportedLanguage::Rust
    } else if same_text(e, "js") {
        SupportedLanguage::JavaScript
    } else if same_text(e, "ts") || same_text(e, "tsx") || same_text(e, "jsx") {
        SupportedLanguage::TypeScriptReact
    } else if same_text(e, "sql") {
        SupportedLanguage::SQL
    } else {
        SupportedLanguage::Unknown
    }
}

/// Names of directories that a scan never enters, whatever their case.
pub const CARPETAS_EXCLUIDAS: [&'static str; 5] = [
    "vendor",
    "node_modules",
    "target",
    ".git",
    "storage",
];

pub open spec fn closed_directory(name: Seq<char>) -> bool {
    exists|i: int|
        0 <= i < CARPETAS_EXCLUIDAS@.len() && text::ascii_lowercase(
            (#[trigger] CARPETAS_EXCLUIDAS@[i])@,
        ) == text::ascii_lowercase(name)
}

/// A scan enters the directory, or looks at the file.
pub open spec fn entered(
    path: Seq<char>,
    patterns: Seq<Seq<char>>,
    project_root: Seq<char>,
) -> bool {
    match paths::file_name_of(path) {
        Some(name) => !closed_directory(name) && !fs_utils::path_skipped(
            path,
            patterns,
            project_root,
        ),
        None => true,
    }
}

fn is_closed_directory(name: &str) -> (r: bool)
    ensures
        r == closed_directory(name@),
{
    let closed = CARPETAS_EXCLUIDAS;
    let mut i: usize = 0;
    while i < closed.len()
        invariant
            closed@ == CARPETAS_EXCLUIDAS@,
            forall|j: int|
                0 <= j < i ==> text::ascii_lowercase((#[trigger] CARPETAS_EXCLUIDAS@[j])@)
                    != text::ascii_lowercase(name@),
        decreases closed@.len() - i,
    {
        if same_ignoring_ascii_case(closed[i], name) {
            assert(text::ascii_lowercase(CARPETAS_EXCLUIDAS@[i as int]@) == text::ascii_lowercase(
                name@,
            ));
            return true;
        }
        i += 1;
    }
    false
}

/// Whether a scan enters a directory, or looks at a file.
pub fn should_descend(path: &str, patterns: &[String], project_root: &str) -> (r: bool)
    ensures
        r == entered(path@, text::string_texts(patterns@), project_root@),
{
    match file_name(path) {
        Some(name) => !is_closed_directory(name.as_str()) && !should_skip_path(
            path,
            patterns,
            project_root,
        ),
        None => true,
    }
}

/// What a scan does with a file.
#[derive(Debug, Clone, Copy, PartialEq, Eq, Structural)]
pub enum FileDecision {
    /// Nothing.
    Skip,
    /// Nothing, but it says so.
    SkipBinary,
    /// It reads the file, in the language.
    Read(SupportedLanguage),
}

/// What a scan does with a file.
pub open spec fn decision(
    path: Seq<char>,
    patterns: Seq<Seq<char>>,
    project_root: Seq<char>,
) -> FileDecision {
    if fs_utils::ignored_by_patterns(path, patterns, project_root) || fs_utils::garbage_path(path) {
        FileDecision::Skip
    } else if parser::binary_path(path) {
        FileDecision::SkipBinary
    } else {
        FileDecision::Read(language_of(path))
    }
}

/// What a scan does with a file.
pub fn classify_file(path: &str, patterns: &[String], project_root: &str) -> (r: FileDecision)
    ensures
        r == decision(path@, text::string_texts(patterns@), project_root@),
{
    if is_ignored_by_patterns(path, patterns, project_root) || is_garbage_file(path) {
        FileDecision::Skip
    } else if is_binary_file(path) {
        FileDecision::SkipBinary
    } else {
        FileDecision::Read(get_language_from_path(path))
    }
}

/// The line on a file that was read.
pub fn indexed_line(file_path: &str, language: &str, strategy: &str, symbols: usize) -> (r: String)
    ensures
        r@ == "Indexed "@ + file_path@ + " ["@ + language@ + " / "@ + strategy@ + "] ("@
            + text::decimal(symbols as int) + " symbols)"@,
{
    let mut out = concat3("Indexed ", file_path, " [");
    out.append(language);
    out.append(" / ");
    out.append(strategy);
    out.append("] (");
    out.append(decimal_usize(symbols).as_str());
    out.append(" symbols)");
    out
}

/// The patterns of an ignore file: its lines without white space around them, but
/// for blank lines and comments.
pub open spec fn patterns_of(lines: Seq<Seq<char>>) -> Seq<Seq<char>>
    decreases lines.len(),
{
    if lines.len() == 0 {
        Seq::empty()
    } else {
        let line = text::trim_text(lines.last());
        if line.len() == 0 || text::starts_with(line, "#"@) {
            patterns_of(lines.drop_last())
        } else {
            patterns_of(lines.drop_last()).push(line)
        }
    }
}

fn add_patterns(out: &mut Vec<String>, content: &str)
    ensures
        final(out).deep_view() == old(out).deep_view() + patterns_of(text::lines_of(content@)),
{
    let ghost start = out.deep_view();
    let all = lines(content);
    let ghost texts = all.deep_view();
    let mut i: usize = 0;
    assert(start + patterns_of(texts.take(0)) =~= start);
    while i < all.len()
        invariant
            i <= all@.len(),
            texts == all.deep_view(),
            out.deep_view() == start + patterns_of(texts.take(i as int)),
        decreases all@.len() - i,
    {
        proof {
            assert(texts.take(i + 1).drop_last() =~= texts.take(i as int));
            assert(texts.take(i + 1).last() == all@[i as int]@);
        }
        let line = trim(all[i].as_str());
        let ghost before = out.deep_view();
        if !line.as_str().is_empty() && !begins_with(line.as_str(), "#") {
            out.push(line);
            assert(out.deep_view() =~= before.push(line@));
            assert(before.push(line@) =~= start + patterns_of(texts.take(i as int)).push(line@));
        }
        i += 1;
    }
    assert(texts.take(i as int) =~= texts);
}

pub open spec fn patterns_in(content: Option<&str>) -> Seq<Seq<char>> {
    match content {
        Some(c) => patterns_of(text::lines_of(c@)),
        None => Seq::empty(),
    }
}

/// The patterns of a project: those of its own ignore file, then those of Git's.
/// A file that is not there has no patterns.
pub fn ignore_patterns(ozymemignore: Option<&str>, gitignore: Option<&str>) -> (r: Vec<String>)
    ensures
        r.deep_view() == patterns_in(ozymemignore) + patterns_in(gitignore),
{
    let mut out: Vec<String> = Vec::new();
    if let Some(content) = ozymemignore {
        add_patterns(&mut out, content);
    }
    assert(out.deep_view() =~= patterns_in(ozymemignore));
    if let Some(content) = gitignore {
        add_patterns(&mut out, content);
    }
    assert(out.deep_view() =~= patterns_in(ozymemignore) + patterns_in(gitignore));
    out
}

// ---------------------------------------------------------------------------
// Laws
// ---------------------------------------------------------------------------

/// No pattern is blank or a comment.
pub proof fn law_patterns_say_something(lines: Seq<Seq<char>>, i: int)
    requires
        0 <= i < patterns_of(lines).len(),
    ensures
        patterns_of(lines)[i].len() > 0,
        !text::starts_with(patterns_of(lines)[i], "#"@),
    decreases lines.len(),
{
    let rest = patterns_of(lines.drop_last());
    if i < rest.len() {
        law_patterns_say_something(lines.drop_last(), i);
    }
}

/// A directory that belongs to a project in which it lies is registered with all
/// that is below it.
pub proof fn law_registered_with_what_is_below(
    target: Seq<char>,
    below: Seq<char>,
    projects: Seq<RegisteredProject>,
)
    requires
        text::starts_with(place(below), place(target) + "/"@) || text::starts_with(
            place(below),
            place(target) + "\\"@,
        ),
        registered(target, projects),
    ensures
        registered(below, projects),
{
    let i = choose|i: int| 0 <= i < projects.len() && covers(#[trigger] projects[i], target);
    let d = place(projects[i].canonical->0@);
    let b = place(below);
    let t = place(target);
    let slash = if text::starts_with(b, t + "/"@) {
        t + "/"@
    } else {
        t + "\\"@
    };
    assert forall|k: int| 0 <= k < t.len() implies b[k] == t[k] by {
        assert(b.subrange(0, slash.len() as int)[k] == slash[k]);
    }
    if t == d {
    } else if text::starts_with(t, d + "\\"@) {
        let p = d + "\\"@;
        assert(b.subrange(0, p.len() as int) =~= t.subrange(0, p.len() as int));
    } else {
        let p = d + "/"@;
        assert(b.subrange(0, p.len() as int) =~= t.subrange(0, p.len() as int));
    }
    assert(covers(projects[i], below));
}

/// Every file that a scan comes to is read, in the language of its path: what is
/// ignored, garbage or binary, or has the name of a closed directory, is passed
/// before.
pub proof fn law_read_files_are_wanted(
    path: Seq<char>,
    patterns: Seq<Seq<char>>,
    project_root: Seq<char>,
    name: Seq<char>,
)
    requires
        paths::file_name_of(path) == Some(name),
        entered(path, patterns, project_root),
    ensures
        decision(path, patterns, project_root) == FileDecision::Read(language_of(path)),
        !fs_utils::ignored_by_patterns(path, patterns, project_root),
        !fs_utils::garbage_path(path),
        !parser::binary_path(path),
        !closed_directory(name),
{
}

/// The extensions of the known languages; every other file is in none of them.
pub proof fn law_extensions_of_languages(e: Seq<char>)
    ensures
        language_of_extension("py"@) == SupportedLanguage::Python,
        language_of_extension("go"@) == SupportedLanguage::Go,
        language_of_extension("rs"@) == SupportedLanguage::Rust,
        language_of_extension("js"@) == SupportedLanguage::JavaScript,
        language_of_extension("ts"@) == SupportedLanguage::TypeScriptReact,
        language_of_extension("tsx"@) == SupportedLanguage::TypeScriptReact,
        language_of_extension("jsx"@) == SupportedLanguage::TypeScriptReact,
        language_of_extension("sql"@) == SupportedLanguage::SQL,
        e != "py"@ && e != "go"@ && e != "rs"@ && e != "js"@ && e != "ts"@ && e != "tsx"@ && e
            != "jsx"@ && e != "sql"@ ==> language_of_extension(e) == SupportedLanguage::Unknown,
{
    reveal_strlit("py");
    reveal_strlit("go");
    reveal_strlit("rs");
    reveal_strlit("js");
    reveal_strlit("ts");
    reveal_strlit("tsx");
    reveal_strlit("jsx");
    reveal_strlit("sql");
    assert("py"@.len() == 2 && "go"@.len() == 2 && "rs"@.len() == 2 && "js"@.len() == 2
        && "ts"@.len() == 2 && "tsx"@.len() == 3 && "jsx"@.len() == 3 && "sql"@.len() == 3);
    assert("py"@[0] == 'p' && "go"@[0] == 'g' && "rs"@[0] == 'r' && "js"@[0] == 'j' && "ts"@[0]
        == 't' && "tsx"@[0] == 't' && "jsx"@[0] == 'j' && "sql"@[0] == 's');
}

/// The language of a file is that of its extension, in whatever case it is written.
pub proof fn law_language_goes_by_the_extension(path: Seq<char>, e: Seq<char>)
    requires
        paths::extension_of(path) == Some(e),
    ensures
        language_of(path) == language_of_extension(text::ascii_lowercase(e)),
{
}

/// The patterns of an ignore file are its lines without the white space around them, in
/// their order; blank lines and comments are left out, and nothing else.
pub proof fn law_every_line_is_a_pattern(lines: Seq<Seq<char>>)
    ensures
        patterns_of(lines) == lines.map_values(|line: Seq<char>| text::trim_text(line)).filter(
            |line: Seq<char>| line.len() > 0 && line[0] != '#',
        ),
    decreases lines.len(),
{
    reveal(Seq::filter);
    reveal_strlit("#");
    let trimmed = |line: Seq<char>| text::trim_text(line);
    let kept = |line: Seq<char>| line.len() > 0 && line[0] != '#';
    let all = lines.map_values(trimmed);
    if lines.len() > 0 {
        law_every_line_is_a_pattern(lines.drop_last());
        assert(all.drop_last() =~= lines.drop_last().map_values(trimmed));
        let line = text::trim_text(lines.last());
        assert(all.last() == line);
        if line.len() > 0 {
            assert(text::starts_with(line, "#"@) <==> line[0] == '#') by {
                assert(line.subrange(0, 1)[0] == line[0]);
                if line[0] == '#' {
                    assert(line.subrange(0, 1) =~= "#"@);
                }
            }
        }
    } else {
        assert(all.filter(kept) =~= patterns_of(lines));
    }
}

/// A file is read exactly if no pattern covers it, no program made it for itself, and
/// it is text; that a file is no text is said only of one that is not passed for the
/// other reasons.
pub proof fn law_what_is_read(
    path: Seq<char>,
    patterns: Seq<Seq<char>>,
    project_root: Seq<char>,
)
    ensures
        ({
            let unwanted = fs_utils::ignored_by_patterns(path, patterns, project_root)
                || fs_utils::garbage_path(path);
            &&& decision(path, patterns, project_root) is Read <==> !unwanted
                && !parser::binary_path(path)
            &&& decision(path, patterns, project_root) == FileDecision::SkipBinary <==> !unwanted
                && parser::binary_path(path)
            &&& decision(path, patterns, project_root) is Read ==> decision(
                path,
                patterns,
                project_root,
            ) == FileDecision::Read(language_of(path))
        }),
{
}

/// The directories that a scan never enters.
pub proof fn law_closed_directories(name: Seq<char>)
    ensures
        ({
            let lower = text::ascii_lowercase(name);
            closed_directory(name) <==> lower == text::ascii_lowercase("vendor"@) || lower
                == text::ascii_lowercase("node_modules"@) || lower == text::ascii_lowercase(
                "target"@,
            ) || lower == text::ascii_lowercase(".git"@) || lower == text::ascii_lowercase(
                "storage"@,
            )
        }),
{
    let all = CARPETAS_EXCLUIDAS@;
    assert(all.len() == 5);
    assert(all[0]@ == "vendor"@ && all[1]@ == "node_modules"@ && all[2]@ == "target"@ && all[3]@
        == ".git"@ && all[4]@ == "storage"@);
    let lower = text::ascii_lowercase(name);
    if closed_directory(name) {
        let i = choose|i: int|
            0 <= i < all.len() && text::ascii_lowercase((#[trigger] all[i])@)
                == text::ascii_lowercase(name);
        assert(i == 0 || i == 1 || i == 2 || i == 3 || i == 4);
    }
}

/// The root of a file system is critical, and so is the home of a user by either of its
/// settings.
pub proof fn law_homes_are_critical(
    path: Seq<char>,
    user_profile: Option<Seq<char>>,
    home: Option<Seq<char>>,
)
    ensures
        paths::components_of(path).len() <= 1 ==> critical_root(path, user_profile, home),
        critical_root(path, user_profile, Some(path)),
        critical_root(path, Some(path), home),
        critical_root("/"@, None, None),
{
    reveal_strlit("/");
    reveal_strlit(".");
    let root = "/"@;
    text::lemma_find_from(root, root, 0);
    assert(root.subrange(0, 1) =~= root);
    assert(text::occurs_at(root, root, 0));
    reveal_with_fuel(text::split_text, 3);
    reveal_with_fuel(paths::significant_segments, 4);
    let rest = root.skip(1);
    assert(rest =~= Seq::<char>::empty());
    text::lemma_find_from(rest, root, 0);
    assert(root.take(0) =~= rest);
    assert(paths::segments(root) =~= seq![rest, rest]);
    assert(paths::segments(root).drop_last() =~= seq![rest]);
    assert(seq![rest].drop_last() =~= Seq::<Seq<char>>::empty());
    assert(paths::significant_segments(paths::segments(root)).len() == 0);
}

/// A place belongs to a project exactly if it is the project's own or lies below it,
/// behind either separator, whatever the case and the marks of the two paths; a project
/// whose path does not resolve holds no place.
pub proof fn law_what_belongs_to_a_project(project: RegisteredProject, target: Seq<char>)
    ensures
        project.canonical is None ==> !covers(project, target) && !lies_at(project, target)
            && !stands_at(project, target),
        project.canonical matches Some(path) ==> {
            let own = text::unicode_lowercase(fs_utils::cleaned(target));
            let root = text::unicode_lowercase(fs_utils::cleaned(path@));
            &&& covers(project, target) <==> own == root || root.push('/').is_prefix_of(own)
                || root.push('\\').is_prefix_of(own)
            &&& lies_at(project, target) <==> own == root
            &&& stands_at(project, target) <==> fs_utils::cleaned(target) == fs_utils::cleaned(
                path@,
            )
        },
{
    reveal_strlit("/");
    reveal_strlit("\\");
    if let Some(path) = project.canonical {
        let own = place(target);
        let root = place(path@);
        assert(root + "/"@ =~= root.push('/'));
        assert(root + "\\"@ =~= root.push('\\'));
    }
}

/// The root of a place is that of the first project that it belongs to, and the place
/// itself if it belongs to none.
pub proof fn law_roots_of_places(
    root: Seq<char>,
    target: Seq<char>,
    projects: Seq<RegisteredProject>,
    i: int,
)
    ensures
        0 <= i < projects.len() && covers(projects[i], target) && (forall|j: int|
            0 <= j < i ==> !covers(#[trigger] projects[j], target)) ==> projects[i].canonical
            is Some && (is_root_of(root, target, projects) <==> root
            == projects[i].canonical->0@),
        (forall|j: int| 0 <= j < projects.len() ==> !covers(#[trigger] projects[j], target)) ==> (
        is_root_of(root, target, projects) <==> root == target),
        registered(target, projects) <==> exists|j: int|
            0 <= j < projects.len() && covers(#[trigger] projects[j], target),
{
    if registered(target, projects) && is_root_of(root, target, projects) {
        let k = choose|k: int|
            0 <= k < projects.len() && covers(#[trigger] projects[k], target)
                && projects[k].canonical is Some && root == projects[k].canonical->0@ && forall|
                j: int,
            |
                0 <= j < k ==> !covers(#[trigger] projects[j], target);
        if 0 <= i < projects.len() && covers(projects[i], target) {
            assert(k <= i || !covers(projects[i], target));
            if forall|j: int| 0 <= j < i ==> !covers(#[trigger] projects[j], target) {
                assert(i <= k);
            }
        }
    }
}

/// A directory goes by the name of the first project that lies at it, and by the name
/// of its folder, marked as unregistered, if none does.
pub proof fn law_names_of_directories(
    name: Seq<char>,
    target: Seq<char>,
    projects: Seq<RegisteredProject>,
    i: int,
    folder: Seq<char>,
)
    ensures
        0 <= i < projects.len() && lies_at(projects[i], target) && (forall|j: int|
            0 <= j < i ==> !lies_at(#[trigger] projects[j], target)) ==> (identifier_of(
            name,
            target,
            projects,
        ) <==> name == projects[i].name@),
        (forall|j: int| 0 <= j < projects.len() ==> !lies_at(#[trigger] projects[j], target)) ==> {
            &&& paths::file_name_of(target) == Some(folder) ==> (identifier_of(
                name,
                target,
                projects,
            ) <==> name == "unregistered-"@ + folder)
            &&& paths::file_name_of(target) is None ==> (identifier_of(name, target, projects)
                <==> name == "unregistered-"@ + "unknown"@)
        },
{
    if identifier_of(name, target, projects) && exists|j: int|
        0 <= j < projects.len() && lies_at(#[trigger] projects[j], target) {
        let k = choose|k: int|
            0 <= k < projects.len() && lies_at(#[trigger] projects[k], target) && name
                == projects[k].name@ && forall|j: int|
                0 <= j < k ==> !lies_at(#[trigger] projects[j], target);
        if 0 <= i < projects.len() && lies_at(projects[i], target) {
            if forall|j: int| 0 <= j < i ==> !lies_at(#[trigger] projects[j], target) {
                assert(i <= k && k <= i);
            }
        }
    }
}

/// Exactly these directories are critical: one of at most one component, the directory
/// of all users on Windows, and the two homes that are set, whatever the case and the
/// separators at their ends.
pub proof fn law_which_directories_are_critical(
    path: Seq<char>,
    user_profile: Option<Seq<char>>,
    home: Option<Seq<char>>,
)
    ensures
        ({
            let form = |p: Seq<char>|
                text::trim_end_char_text(
                    text::trim_end_char_text(text::unicode_lowercase(p), '\\'),
                    '/',
                );
            critical_root(path, user_profile, home) <==> paths::components_of(path).len() <= 1
                || form(path) == "c:\\users"@ || form(path) == "c:/users"@ || (user_profile is Some
                && form(path) == form(user_profile->0)) || (home is Some && form(path) == form(
                home->0,
            ))
        }),
{
}

/// A scan enters what has a name, unless the name is that of a closed directory or the
/// path is passed over; what has no name it enters in any case.
pub proof fn law_what_a_scan_enters(
    path: Seq<char>,
    patterns: Seq<Seq<char>>,
    project_root: Seq<char>,
    name: Seq<char>,
)
    ensures
        paths::file_name_of(path) is None ==> entered(path, patterns, project_root),
        paths::file_name_of(path) == Some(name) ==> (entered(path, patterns, project_root)
            <==> !closed_directory(name) && !fs_utils::path_skipped(path, patterns, project_root)),
{
}

/// The patterns of an ignore file are those of its lines; a file that is not there has
/// none.
pub proof fn law_patterns_of_files(content: &str)
    ensures
        patterns_in(Some(content)) == patterns_of(text::lines_of(content@)),
        patterns_in(None) == Seq::<Seq<char>>::empty(),
{
}

/// A file without an extension is in no known language.
pub proof fn law_no_extension_no_language(path: Seq<char>)
    requires
        paths::extension_of(path) is None,
    ensures
        language_of(path) == SupportedLanguage::Unknown,
{
    reveal_strlit("");
    reveal_strlit("py");
    reveal_strlit("go");
    reveal_strlit("rs");
    reveal_strlit("js");
    reveal_strlit("ts");
    reveal_strlit("tsx");
    reveal_strlit("jsx");
    reveal_strlit("sql");
    assert(text::ascii_lowercase(""@).len() == 0);
    assert("py"@.len() == 2 && "go"@.len() == 2 && "rs"@.len() == 2 && "js"@.len() == 2
        && "ts"@.len() == 2 && "tsx"@.len() == 3 && "jsx"@.len() == 3 && "sql"@.len() == 3);
}

} // verus!
