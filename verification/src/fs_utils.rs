//! Which files of a project are worth reading.

use crate::parser;
use crate::parser::is_binary_file;
use crate::paths;
use crate::paths::{components, extension, strip_path_prefix};
use crate::text;
use crate::text::{begins_with, concat2, has_text, lowercase, replace, same_text, without_prefix};
use vstd::prelude::*;

verus! {

/// Names of directories that hold nothing of a project: folders of the system,
/// of version control, of development environments, of browsers and of editors.
pub const EXCLUDED_DIRECTORIES: [&'static str; 24] = [
    "appdata",
    "program files",
    "programdata",
    "system32",
    "windows",
    ".git",
    ".svn",
    "node_modules",
    "__pycache__",
    ".venv",
    "env",
    "target",
    "dist",
    "build",
    "ebwebview",
    "bravesoftware",
    "cache",
    "local storage",
    ".cursor",
    ".vscode",
    ".idea",
    ".config",
    ".anthropic",
    ".ollama",
];

/// The name, whatever its case, is that of an excluded directory.
pub open spec fn excluded_directory(name: Seq<char>) -> bool {
    exists|i: int|
        0 <= i < EXCLUDED_DIRECTORIES@.len() && (#[trigger] EXCLUDED_DIRECTORIES@[i])@
            == text::unicode_lowercase(name)
}

pub fn is_excluded_directory(name: &str) -> (r: bool)
    ensures
        r == excluded_directory(name@),
{
    let name_lower = lowercase(name);
    let excluded = EXCLUDED_DIRECTORIES;
    let mut i: usize = 0;
    while i < excluded.len()
        invariant
            excluded@ == EXCLUDED_DIRECTORIES@,
            name_lower@ == text::unicode_lowercase(name@),
            forall|j: int| 0 <= j < i ==> (#[trigger] EXCLUDED_DIRECTORIES@[j])@ != name_lower@,
        decreases excluded@.len() - i,
    {
        if same_text(excluded[i], name_lower.as_str()) {
            assert(EXCLUDED_DIRECTORIES@[i as int]@ == name_lower@);
            return true;
        }
        i += 1;
    }
    false
}

/// The path leads through the data of a browser.
pub open spec fn browser_cache_path(path_lower: Seq<char>) -> bool {
    text::contains_text(path_lower, "google/chrome"@) || text::contains_text(
        path_lower,
        "google\\chrome"@,
    ) || text::contains_text(path_lower, "microsoft/edge"@) || text::contains_text(
        path_lower,
        "microsoft\\edge"@,
    )
}

pub fn is_browser_cache_path(path_str_lower: &str) -> (r: bool)
    ensures
        r == browser_cache_path(path_str_lower@),
{
    has_text(path_str_lower, "google/chrome") || has_text(path_str_lower, "google\\chrome")
        || has_text(path_str_lower, "microsoft/edge") || has_text(
        path_str_lower,
        "microsoft\\edge",
    )
}

/// The mark in front of an extended-length path of Windows.
pub const EXTENDED_PREFIX: &'static str = "\\\\?\\";

/// The path without the mark of an extended-length path.
pub open spec fn cleaned(path: Seq<char>) -> Seq<char> {
    if text::starts_with(path, EXTENDED_PREFIX@) {
        path.skip(EXTENDED_PREFIX@.len() as int)
    } else {
        path
    }
}

/// The path without the mark of an extended-length path.
pub fn clean_path(path: &str) -> (r: String)
    ensures
        r@ == cleaned(path@),
{
    match without_prefix(path, EXTENDED_PREFIX) {
        Some(stripped) => stripped,
        None => path.to_string(),
    }
}

/// A path of the machine in the form in which paths are read here: on Windows without
/// its mark and with slashes, elsewhere as it is.
pub open spec fn slashed(path: Seq<char>, windows: bool) -> Seq<char> {
    if windows {
        text::replace_text(cleaned(path), "\\"@, "/"@)
    } else {
        path
    }
}

/// A path of the machine in the form in which paths are read here.
pub fn slashed_path(path: &str, windows: bool) -> (r: String)
    ensures
        r@ == slashed(path@, windows),
{
    if windows {
        proof {
            reveal_strlit("\\");
        }
        replace(clean_path(path).as_str(), "\\", "/")
    } else {
        path.to_string()
    }
}

pub open spec fn garbage_extension(e: Seq<char>) -> bool {
    e == "log"@ || e == "history"@ || e == "bin"@ || e == "dat"@ || e == "cache"@ || e == "exe"@
        || e == "dll"@ || e == "so"@ || e == "dylib"@ || e == "db"@ || e == "sqlite"@ || e
        == "sqlite3"@ || e == "pstat"@ || e == "lock"@ || e == "pid"@
}

/// The extension says that the file is made by a program for itself.
pub open spec fn garbage_path(path: Seq<char>) -> bool {
    match paths::extension_of(path) {
        Some(e) => garbage_extension(text::unicode_lowercase(e)),
        None => false,
    }
}

/// Whether the extension says that the file is made by a program for itself.
pub fn is_garbage_file(path: &str) -> (r: bool)
    ensures
        r == garbage_path(path@),
{
    match extension(path) {
        Some(e) => {
            let e = lowercase(e.as_str());
            let e = e.as_str();
            same_text(e, "log") || same_text(e, "history") || same_text(e, "bin") || same_text(
                e,
                "dat",
            ) || same_text(e, "cache") || same_text(e, "exe") || same_text(e, "dll") || same_text(
                e,
                "so",
            ) || same_text(e, "dylib") || same_text(e, "db") || same_text(e, "sqlite") || same_text(
                e,
                "sqlite3",
            ) || same_text(e, "pstat") || same_text(e, "lock") || same_text(e, "pid")
        },
        None => false,
    }
}

/// A pattern in the form in which it is compared: in lower case, with slashes.
pub open spec fn pattern_form(pattern: Seq<char>) -> Seq<char> {
    text::replace_text(text::unicode_lowercase(pattern), "\\"@, "/"@)
}

/// The part of a path that patterns are compared with: below the root of the
/// project, if the path lies there.
pub open spec fn relative_form(path: Seq<char>, project_root: Seq<char>) -> Seq<char> {
    match paths::path_below(cleaned(path), project_root) {
        Some(rest) => rest,
        None => cleaned(path),
    }
}

/// A relative path is covered by a pattern: it is the pattern, or lies in the
/// directory that the pattern names, or has a component of that name.
pub open spec fn covered_by(relative: Seq<char>, pattern: Seq<char>) -> bool {
    let form = pattern_form(pattern);
    let lower = text::unicode_lowercase(text::replace_text(relative, "\\"@, "/"@));
    ||| lower == form
    ||| text::starts_with(lower, form + "/"@)
    ||| exists|i: int|
        0 <= i < paths::components_of(relative).len() && text::unicode_lowercase(
            #[trigger] paths::components_of(relative)[i],
        ) == form
}

/// The path is covered by one of the patterns.
pub open spec fn ignored_by_patterns(
    path: Seq<char>,
    patterns: Seq<Seq<char>>,
    project_root: Seq<char>,
) -> bool {
    exists|i: int|
        0 <= i < patterns.len() && covered_by(
            relative_form(path, project_root),
            #[trigger] patterns[i],
        )
}

/// Whether a path is covered by one of the patterns.
pub fn is_ignored_by_patterns(path: &str, patterns: &[String], project_root: &str) -> (r: bool)
    ensures
        r == ignored_by_patterns(path@, text::string_texts(patterns@), project_root@),
{
    let cleaned_path = clean_path(path);
    let relative = match strip_path_prefix(cleaned_path.as_str(), project_root) {
        Some(rest) => rest,
        None => cleaned_path,
    };
    proof {
        reveal_strlit("\\");
    }
    let lower = lowercase(replace(relative.as_str(), "\\", "/").as_str());
    let parts = components(relative.as_str());
    let ghost rel = relative_form(path@, project_root@);
    let ghost all = text::string_texts(patterns@);
    let mut i: usize = 0;
    while i < patterns.len()
        invariant
            i <= patterns.len(),
            all == text::string_texts(patterns@),
            rel == relative_form(path@, project_root@),
            rel == relative@,
            "\\"@.len() > 0,
            lower@ == text::unicode_lowercase(text::replace_text(rel, "\\"@, "/"@)),
            parts.deep_view() == paths::components_of(rel),
            forall|j: int| 0 <= j < i ==> !covered_by(rel, #[trigger] all[j]),
        decreases patterns.len() - i,
    {
        let form = replace(lowercase(patterns[i].as_str()).as_str(), "\\", "/");
        assert(all[i as int] == patterns@[i as int]@);
        if same_text(lower.as_str(), form.as_str()) {
            assert(covered_by(rel, all[i as int]));
            return true;
        }
        let directory = concat2(form.as_str(), "/");
        if begins_with(lower.as_str(), directory.as_str()) {
            assert(covered_by(rel, all[i as int]));
            return true;
        }
        let mut k: usize = 0;
        while k < parts.len()
            invariant
                i < patterns.len(),
                k <= parts@.len(),
                all == text::string_texts(patterns@),
                all[i as int] == patterns@[i as int]@,
                rel == relative_form(path@, project_root@),
                form@ == pattern_form(all[i as int]),
                parts.deep_view() == paths::components_of(rel),
                forall|j: int|
                    0 <= j < k ==> text::unicode_lowercase(
                        #[trigger] paths::components_of(rel)[j],
                    ) != form@,
            decreases parts@.len() - k,
        {
            let name = lowercase(parts[k].as_str());
            assert(parts@[k as int]@ == paths::components_of(rel)[k as int]);
            if same_text(name.as_str(), form.as_str()) {
                assert(covered_by(rel, all[i as int]));
                return true;
            }
            k += 1;
        }
        i += 1;
    }
    false
}

/// A component that keeps what lies below it out: an excluded directory, or a
/// hidden name.
pub open spec fn excluded_component(name: Seq<char>) -> bool {
    excluded_directory(name) || (text::starts_with(name, "."@) && name != "."@)
}

/// The path leads through an excluded component or through the data of a browser.
pub open spec fn path_excluded(path: Seq<char>) -> bool {
    ||| paths::components_of(path).len() > 0 && browser_cache_path(text::unicode_lowercase(path))
    ||| exists|i: int|
        0 <= i < paths::components_of(path).len() && excluded_component(
            #[trigger] paths::components_of(path)[i],
        )
}

/// Whether a path leads through an excluded component or through the data of a
/// browser.
pub fn has_excluded_component(path: &str) -> (r: bool)
    ensures
        r == path_excluded(path@),
{
    let lower = lowercase(path);
    let in_browser = is_browser_cache_path(lower.as_str());
    let parts = components(path);
    let ghost all = paths::components_of(path@);
    let mut i: usize = 0;
    while i < parts.len()
        invariant
            i <= parts@.len(),
            all == paths::components_of(path@),
            parts.deep_view() == all,
            in_browser == browser_cache_path(text::unicode_lowercase(path@)),
            i > 0 ==> !in_browser,
            forall|j: int| 0 <= j < i ==> !excluded_component(#[trigger] all[j]),
        decreases parts@.len() - i,
    {
        let name = parts[i].as_str();
        assert(name@ == all[i as int]);
        if is_excluded_directory(name) || in_browser || (begins_with(name, ".") && !same_text(
            name,
            ".",
        )) {
            return true;
        }
        i += 1;
    }
    false
}

/// The file is passed over.
pub open spec fn path_skipped(
    path: Seq<char>,
    patterns: Seq<Seq<char>>,
    project_root: Seq<char>,
) -> bool {
    ignored_by_patterns(path, patterns, project_root) || parser::binary_path(path) || garbage_path(
        path,
    ) || path_excluded(path)
}

/// Whether a file is passed over.
pub fn should_skip_path(path: &str, ignore_patterns: &[String], project_root: &str) -> (r: bool)
    ensures
        r == path_skipped(path@, text::string_texts(ignore_patterns@), project_root@),
{
    is_ignored_by_patterns(path, ignore_patterns, project_root) || is_binary_file(path)
        || is_garbage_file(path) || has_excluded_component(path)
}

/// More patterns never bring back a file that fewer patterns passed over.
pub proof fn law_more_patterns_skip_more(
    path: Seq<char>,
    patterns: Seq<Seq<char>>,
    more: Seq<Seq<char>>,
    project_root: Seq<char>,
)
    requires
        path_skipped(path, patterns, project_root),
        forall|i: int| 0 <= i < patterns.len() ==> more.contains(#[trigger] patterns[i]),
    ensures
        path_skipped(path, more, project_root),
{
    if ignored_by_patterns(path, patterns, project_root) {
        let i = choose|i: int|
            0 <= i < patterns.len() && covered_by(
                relative_form(path, project_root),
                #[trigger] patterns[i],
            );
        let k = choose|k: int| 0 <= k < more.len() && more[k] == patterns[i];
        assert(covered_by(relative_form(path, project_root), more[k]));
    }
}

/// Cleaning a path that bears the mark once leaves a path that cleaning does not
/// change.
pub proof fn law_cleaning_is_done_once(rest: Seq<char>)
    requires
        !text::starts_with(rest, EXTENDED_PREFIX@),
    ensures
        cleaned(EXTENDED_PREFIX@ + rest) == rest,
        cleaned(rest) == rest,
{
    let whole = EXTENDED_PREFIX@ + rest;
    assert(whole.subrange(0, EXTENDED_PREFIX@.len() as int) == EXTENDED_PREFIX@);
    assert(whole.skip(EXTENDED_PREFIX@.len() as int) == rest);
}

/// A pattern covers a path below the root of a project exactly if the path is what the
/// pattern names, or lies in the directory that it names, or has a component of that
/// name, whatever the case and the separators.
pub proof fn law_patterns_cover(relative: Seq<char>, pattern: Seq<char>)
    ensures
        ({
            let slashes = |s: Seq<char>|
                Seq::new(
                    s.len(),
                    |i: int|
                        if s[i] == '\\' {
                            '/'
                        } else {
                            s[i]
                        },
                );
            let named = slashes(text::unicode_lowercase(pattern));
            let own = text::unicode_lowercase(slashes(relative));
            covered_by(relative, pattern) <==> own == named || named.push('/').is_prefix_of(own)
                || exists|i: int|
                0 <= i < paths::components_of(relative).len() && text::unicode_lowercase(
                    #[trigger] paths::components_of(relative)[i],
                ) == named
        }),
{
    reveal_strlit("\\");
    reveal_strlit("/");
    assert("\\"@ =~= seq!['\\']);
    assert("/"@ =~= seq!['/']);
    text::law_replacing_characters(text::unicode_lowercase(pattern), '\\', '/');
    text::law_replacing_characters(relative, '\\', '/');
    let form = pattern_form(pattern);
    assert(form + "/"@ =~= form.push('/'));
}

/// A path through a hidden name or an excluded directory is excluded, and so is one
/// through the data of a browser; no other is.
pub proof fn law_what_is_excluded(path: Seq<char>)
    ensures
        ({
            let parts = paths::components_of(path);
            let lower = text::unicode_lowercase(path);
            path_excluded(path) <==> (exists|i: int|
                0 <= i < parts.len() && (#[trigger] parts[i]).len() > 1 && parts[i][0] == '.')
                || (exists|i: int| 0 <= i < parts.len() && excluded_directory(#[trigger] parts[i]))
                || parts.len() > 0 && (text::contains_text(lower, "google/chrome"@)
                || text::contains_text(lower, "google\\chrome"@) || text::contains_text(
                lower,
                "microsoft/edge"@,
            ) || text::contains_text(lower, "microsoft\\edge"@))
        }),
{
    reveal_strlit(".");
    let parts = paths::components_of(path);
    assert forall|i: int| 0 <= i < parts.len() implies (excluded_component(#[trigger] parts[i])
        <==> excluded_directory(parts[i]) || parts[i].len() > 1 && parts[i][0] == '.') by {
        let name = parts[i];
        if text::starts_with(name, "."@) {
            assert(name.subrange(0, 1)[0] == name[0]);
            if name.len() == 1 {
                assert(name =~= "."@);
            }
        } else if name.len() > 1 && name[0] == '.' {
            assert(name.subrange(0, 1) =~= "."@);
        }
    }
    if path_excluded(path) && !(parts.len() > 0 && browser_cache_path(
        text::unicode_lowercase(path),
    )) {
        let i = choose|i: int| 0 <= i < parts.len() && excluded_component(#[trigger] parts[i]);
        assert(excluded_directory(parts[i]) || parts[i].len() > 1 && parts[i][0] == '.');
    }
    if exists|i: int| 0 <= i < parts.len() && (#[trigger] parts[i]).len() > 1 && parts[i][0] == '.' {
        let i = choose|i: int|
            0 <= i < parts.len() && (#[trigger] parts[i]).len() > 1 && parts[i][0] == '.';
        assert(excluded_component(parts[i]));
    }
    if exists|i: int| 0 <= i < parts.len() && excluded_directory(#[trigger] parts[i]) {
        let i = choose|i: int| 0 <= i < parts.len() && excluded_directory(#[trigger] parts[i]);
        assert(excluded_component(parts[i]));
    }
}

/// A file is passed over exactly for one of four reasons: a pattern covers it, it is no
/// text, a program made it for itself, or its path is excluded.
pub proof fn law_why_files_are_skipped(
    path: Seq<char>,
    patterns: Seq<Seq<char>>,
    project_root: Seq<char>,
)
    ensures
        path_skipped(path, patterns, project_root) <==> (exists|i: int|
            0 <= i < patterns.len() && covered_by(
                relative_form(path, project_root),
                #[trigger] patterns[i],
            )) || parser::binary_path(path) || garbage_path(path) || path_excluded(path),
{
}

/// The extensions of files that programs make for themselves, in whatever case they are
/// written.
pub proof fn law_garbage_names(path: Seq<char>, e: Seq<char>)
    requires
        paths::extension_of(path) == Some(e),
    ensures
        ({
            let known = seq![
                "log"@,
                "history"@,
                "bin"@,
                "dat"@,
                "cache"@,
                "exe"@,
                "dll"@,
                "so"@,
                "dylib"@,
                "db"@,
                "sqlite"@,
                "sqlite3"@,
                "pstat"@,
                "lock"@,
                "pid"@,
            ];
            garbage_path(path) <==> known.contains(text::unicode_lowercase(e))
        }),
{
    let known = seq![
        "log"@,
        "history"@,
        "bin"@,
        "dat"@,
        "cache"@,
        "exe"@,
        "dll"@,
        "so"@,
        "dylib"@,
        "db"@,
        "sqlite"@,
        "sqlite3"@,
        "pstat"@,
        "lock"@,
        "pid"@,
    ];
    let lower = text::unicode_lowercase(e);
    assert(known[0] == "log"@ && known[1] == "history"@ && known[2] == "bin"@ && known[3] == "dat"@
        && known[4] == "cache"@ && known[5] == "exe"@ && known[6] == "dll"@ && known[7] == "so"@
        && known[8] == "dylib"@ && known[9] == "db"@ && known[10] == "sqlite"@ && known[11]
        == "sqlite3"@ && known[12] == "pstat"@ && known[13] == "lock"@ && known[14] == "pid"@);
    if known.contains(lower) {
        let i = choose|i: int| 0 <= i < known.len() && known[i] == lower;
    }
}

/// The directories that hold nothing of a project, in whatever case their names are
/// written.
pub proof fn law_excluded_directories(name: Seq<char>)
    ensures
        ({
            let known = seq![
                "appdata"@,
                "program files"@,
                "programdata"@,
                "system32"@,
                "windows"@,
                ".git"@,
                ".svn"@,
                "node_modules"@,
                "__pycache__"@,
                ".venv"@,
                "env"@,
                "target"@,
                "dist"@,
                "build"@,
                "ebwebview"@,
                "bravesoftware"@,
                "cache"@,
                "local storage"@,
                ".cursor"@,
                ".vscode"@,
                ".idea"@,
                ".config"@,
                ".anthropic"@,
                ".ollama"@,
            ];
            excluded_directory(name) <==> known.contains(text::unicode_lowercase(name))
        }),
{
    let known = seq![
        "appdata"@,
        "program files"@,
        "programdata"@,
        "system32"@,
        "windows"@,
        ".git"@,
        ".svn"@,
        "node_modules"@,
        "__pycache__"@,
        ".venv"@,
        "env"@,
        "target"@,
        "dist"@,
        "build"@,
        "ebwebview"@,
        "bravesoftware"@,
        "cache"@,
        "local storage"@,
        ".cursor"@,
        ".vscode"@,
        ".idea"@,
        ".config"@,
        ".anthropic"@,
        ".ollama"@,
    ];
    let list = EXCLUDED_DIRECTORIES@;
    assert(list.len() == known.len());
    assert forall|i: int| 0 <= i < known.len() implies (#[trigger] list[i])@ == known[i] by {
    }
    let lower = text::unicode_lowercase(name);
    if excluded_directory(name) {
        let i = choose|i: int| 0 <= i < list.len() && (#[trigger] list[i])@ == lower;
        assert(known[i] == lower);
    }
    if known.contains(lower) {
        let i = choose|i: int| 0 <= i < known.len() && known[i] == lower;
        assert(list[i]@ == lower);
    }
}

/// The mark of an extended-length path is two backslashes, a question mark and a
/// backslash. A path of Windows is read without it and with slashes in place of its
/// backslashes; every other path is read as it is.
pub proof fn law_paths_are_read_with_slashes(path: Seq<char>)
    ensures
        EXTENDED_PREFIX@ == seq!['\\', '\\', '?', '\\'],
        slashed(path, false) == path,
        slashed(path, true) == cleaned(path).map_values(
            |c: char|
                if c == '\\' {
                    '/'
                } else {
                    c
                },
        ),
{
    reveal_strlit("\\\\?\\");
    reveal_strlit("\\");
    reveal_strlit("/");
    assert(EXTENDED_PREFIX@ =~= seq!['\\', '\\', '?', '\\']);
    assert("\\"@ =~= seq!['\\']);
    assert("/"@ =~= seq!['/']);
    text::law_replacing_characters(cleaned(path), '\\', '/');
    assert(slashed(path, true) =~= cleaned(path).map_values(
        |c: char|
            if c == '\\' {
                '/'
            } else {
                c
            },
    ));
}

/// Patterns are compared with what is below the root of the project, and with the whole
/// path where it does not lie there.
pub proof fn law_patterns_are_relative(path: Seq<char>, project_root: Seq<char>, rest: Seq<char>)
    ensures
        paths::path_below(cleaned(path), project_root) == Some(rest) ==> relative_form(
            path,
            project_root,
        ) == rest,
        paths::path_below(cleaned(path), project_root) is None ==> relative_form(
            path,
            project_root,
        ) == cleaned(path),
{
}

} // verus!
