//! What a scan makes of a file once it was read: its symbols, and for Rust the
//! places where it names other modules, with the files that it depends on by them.

use crate::fs_utils;
use crate::fs_utils::clean_path;
use crate::language;
use crate::language::{FileDefinitionMap, ParsedDependencyHint, SupportedLanguage};
use crate::parser;
use crate::parser::{extract_dependency_hints, parse_source};
use crate::projects::indexed_line;
use crate::text;
use crate::text::{concat2, concat3};
use vstd::prelude::*;

verus! {

/// What came of the reading of a file: its text, or that it is no text, or an
/// error.
#[derive(Debug, Clone, PartialEq, Eq)]
pub enum ReadOutcome {
    Source(String),
    NotText,
    Failed(String),
}

/// What a scan makes of a file.
#[derive(Debug, Clone, PartialEq, Eq)]
pub enum ScanOutcome {
    /// The symbols go to the graph, and what is said of them. A warning would say that
    /// hints could not be looked for.
    Indexed {
        map: FileDefinitionMap,
        said: String,
        hints: Vec<ParsedDependencyHint>,
        warning: Option<String>,
    },
    /// The file is passed, with a line for the output.
    Skipped(String),
    /// The file is passed, with a line for the error output.
    Failed(String),
}

/// What is said of a file that was indexed.
pub open spec fn said_of(map: language::DefinitionsModel) -> Seq<char> {
    "Indexed "@ + map.file_path + " ["@ + map.language + " / "@ + map.strategy.label() + "] ("@
        + text::decimal(map.functions.len() as int) + " symbols)"@
}

/// The hints are those of the source text, without a warning. Only Rust has hints.
pub open spec fn hints_are(
    hints: Seq<language::HintModel>,
    warning: Option<Seq<char>>,
    file_path: Seq<char>,
    language: SupportedLanguage,
    source: Seq<char>,
) -> bool {
    parser::hints_found(file_path, language, source, hints) && warning is None
}

/// What a scan makes of a file, shown under `shown` and stored under `file_path`.
pub open spec fn scanned(
    outcome: ScanOutcome,
    shown: Seq<char>,
    file_path: Seq<char>,
    language: SupportedLanguage,
    read: ReadOutcome,
) -> bool {
    match (read, outcome) {
        (ReadOutcome::Source(source), ScanOutcome::Indexed { map, said, hints, warning }) => {
            &&& parser::source_result(file_path, language, source@, map.deep_view())
            &&& said@ == said_of(map.deep_view())
            &&& hints_are(
                hints.deep_view(),
                match warning {
                    Some(line) => Some(line@),
                    None => None,
                },
                file_path,
                language,
                source@,
            )
        },
        (ReadOutcome::NotText, ScanOutcome::Skipped(line)) => line@
            == "Skipped binary/non-UTF8 file: "@ + shown,
        (ReadOutcome::Failed(error), ScanOutcome::Failed(line)) => line@ == "Failed to read "@
            + shown + ": "@ + error@,
        _ => false,
    }
}

/// The hints of a source text, and the warning where they could not be found.
pub fn scan_hints(file_path: &str, language: SupportedLanguage, source: &str) -> (r: (
    Vec<ParsedDependencyHint>,
    Option<String>,
))
    ensures
        hints_are(
            r.0.deep_view(),
            match r.1 {
                Some(line) => Some(line@),
                None => None,
            },
            file_path@,
            language,
            source@,
        ),
{
    if language != SupportedLanguage::Rust {
        let none: Vec<ParsedDependencyHint> = Vec::new();
        assert(none.deep_view() =~= Seq::<language::HintModel>::empty());
        return (none, None);
    }
    match extract_dependency_hints(file_path, language, source) {
        Ok(hints) => (hints, None),
        Err(error) => {
            let mut line = concat3(
                "Failed to extract Rust dependency hints for ",
                file_path,
                ": ",
            );
            line.append(error.message().as_str());
            (Vec::new(), Some(line))
        },
    }
}

/// What a scan makes of a file, shown under `shown` and stored under `file_path`.
pub fn scan_file(shown: &str, file_path: &str, language: SupportedLanguage, read: ReadOutcome) -> (r:
    ScanOutcome)
    ensures
        scanned(r, shown@, file_path@, language, read),
{
    match read {
        ReadOutcome::NotText => ScanOutcome::Skipped(
            concat2("Skipped binary/non-UTF8 file: ", shown),
        ),
        ReadOutcome::Failed(error) => {
            let mut line = concat3("Failed to read ", shown, ": ");
            line.append(error.as_str());
            ScanOutcome::Failed(line)
        },
        ReadOutcome::Source(source) => match parse_source(file_path, language, source.as_str()) {
            Ok(map) => {
                let said = indexed_line(
                    map.file_path.as_str(),
                    map.language.as_str(),
                    map.strategy.as_str(),
                    map.functions.len(),
                );
                let (hints, warning) = scan_hints(file_path, language, source.as_str());
                assert(map.deep_view().functions.len() == map.functions@.len());
                ScanOutcome::Indexed { map, said, hints, warning }
            },
            Err(error) => {
                let mut line = concat3("Error parsing ", file_path, ": ");
                line.append(error.message().as_str());
                ScanOutcome::Failed(line)
            },
        },
    }
}

// ---------------------------------------------------------------------------
// Dependencies
// ---------------------------------------------------------------------------

/// What was found out of a hint: whether it is about a module of the project itself,
/// and the path of the file that it leads to, if it leads to one.
#[derive(Debug, Clone, PartialEq, Eq)]
pub struct ResolvedHint {
    pub internal: bool,
    pub target: Option<String>,
}

/// A file depends on another one: the path that the hint leads to, and the path under
/// which the graph has the file there.
#[derive(Debug, Clone, PartialEq, Eq)]
pub struct DependencyRelation {
    pub origin: String,
    pub target: String,
    pub destination: String,
}

/// A `DependencyRelation` with its texts as sequences of characters.
#[verifier::ext_equal]
pub struct RelationModel {
    pub origin: Seq<char>,
    pub target: Seq<char>,
    pub destination: Seq<char>,
}

impl DeepView for DependencyRelation {
    type V = RelationModel;

    open spec fn deep_view(&self) -> RelationModel {
        RelationModel {
            origin: self.origin@,
            target: self.target@,
            destination: self.destination@,
        }
    }
}

/// The path of the file that a hint leads to, if it is about the project itself.
pub open spec fn internal_target(hint: ResolvedHint) -> Option<Seq<char>> {
    match hint.target {
        Some(path) => if hint.internal {
            Some(path@)
        } else {
            None
        },
        None => None,
    }
}

/// The files that a file depends on, by its hints and in their order.
pub open spec fn relations_of(origin: Seq<char>, hints: Seq<ResolvedHint>) -> Seq<RelationModel>
    decreases hints.len(),
{
    if hints.len() == 0 {
        Seq::empty()
    } else {
        let before = relations_of(origin, hints.drop_last());
        match internal_target(hints.last()) {
            Some(path) => before.push(
                RelationModel { origin, target: path, destination: fs_utils::cleaned(path) },
            ),
            None => before,
        }
    }
}

/// The files that a file depends on, by its hints and in their order.
pub fn dependency_relations(origin: &str, hints: &Vec<ResolvedHint>) -> (r: Vec<DependencyRelation>)
    ensures
        r.deep_view() == relations_of(origin@, hints@),
{
    let mut out: Vec<DependencyRelation> = Vec::new();
    let mut i: usize = 0;
    assert(hints@.take(0) =~= Seq::empty());
    assert(out.deep_view() =~= relations_of(origin@, hints@.take(0)));
    while i < hints.len()
        invariant
            i <= hints@.len(),
            out.deep_view() == relations_of(origin@, hints@.take(i as int)),
        decreases hints@.len() - i,
    {
        assert(hints@.take(i + 1).drop_last() =~= hints@.take(i as int));
        assert(hints@.take(i + 1).last() == hints@[i as int]);
        let hint = &hints[i];
        if hint.internal {
            if let Some(path) = &hint.target {
                let ghost before = out.deep_view();
                let relation = DependencyRelation {
                    origin: origin.to_string(),
                    target: path.as_str().to_string(),
                    destination: clean_path(path.as_str()),
                };
                out.push(relation);
                assert(out.deep_view() =~= before.push(relation.deep_view()));
            }
        }
        i += 1;
    }
    assert(hints@.take(hints@.len() as int) =~= hints@);
    out
}

/// What is said of a dependency that could not be saved.
pub fn relation_failure(origin: &str, target: &str, error: &str) -> (r: String)
    ensures
        r@ == "Failed to persist dependency "@ + origin@ + " -> "@ + target@ + ": "@ + error@,
{
    let mut line = concat3("Failed to persist dependency ", origin, " -> ");
    line.append(target);
    line.append(": ");
    line.append(error);
    line
}

// ---------------------------------------------------------------------------
// Laws
// ---------------------------------------------------------------------------

/// The hint leads from the origin to the destination of a relation.
pub open spec fn leads(origin: Seq<char>, hint: ResolvedHint, relation: RelationModel) -> bool {
    &&& relation.origin == origin
    &&& internal_target(hint) == Some(relation.target)
    &&& relation.destination == fs_utils::cleaned(relation.target)
}

/// A file depends on another one exactly if a hint about the project itself leads
/// there.
pub proof fn law_relations_come_from_hints(
    origin: Seq<char>,
    hints: Seq<ResolvedHint>,
    relation: RelationModel,
)
    ensures
        relations_of(origin, hints).contains(relation) <==> exists|i: int|
            0 <= i < hints.len() && leads(origin, #[trigger] hints[i], relation),
    decreases hints.len(),
{
    if hints.len() > 0 {
        let rest = hints.drop_last();
        let before = relations_of(origin, rest);
        let all = relations_of(origin, hints);
        law_relations_come_from_hints(origin, rest, relation);
        if leads(origin, hints.last(), relation) {
            assert(all[all.len() - 1] == relation);
            assert(leads(origin, hints[hints.len() - 1], relation));
        }
        if before.contains(relation) {
            let j = choose|j: int| 0 <= j < before.len() && before[j] == relation;
            assert(all[j] == relation);
            let i = choose|i: int|
                0 <= i < rest.len() && leads(origin, #[trigger] rest[i], relation);
            assert(leads(origin, hints[i], relation));
        }
        if all.contains(relation) {
            let j = choose|j: int| 0 <= j < all.len() && all[j] == relation;
            if j < before.len() {
                assert(before[j] == relation);
            } else {
                assert(leads(origin, hints.last(), relation));
            }
        }
        if exists|i: int| 0 <= i < hints.len() && leads(origin, #[trigger] hints[i], relation) {
            let i = choose|i: int|
                0 <= i < hints.len() && leads(origin, #[trigger] hints[i], relation);
            if i < rest.len() {
                assert(leads(origin, rest[i], relation));
            }
        }
    }
}

/// Every file that is text is indexed, without a warning.
pub proof fn law_text_is_indexed(
    outcome: ScanOutcome,
    shown: Seq<char>,
    file_path: Seq<char>,
    language: SupportedLanguage,
    source: String,
)
    requires
        scanned(outcome, shown, file_path, language, ReadOutcome::Source(source)),
    ensures
        outcome is Indexed,
        outcome->map.file_path@ == file_path,
        outcome->warning is None,
{
    parser::law_source_result_labels(file_path, language, source@, outcome->map.deep_view());
}

/// A file that is text is indexed as it was read: what is saved of it is what reading it
/// in its language gives, its dependency hints are those of its text, and the line that
/// is said names it, its language, the strategy and the number of its symbols.
pub proof fn law_indexed_as_read(
    outcome: ScanOutcome,
    shown: Seq<char>,
    file_path: Seq<char>,
    language: SupportedLanguage,
    source: String,
)
    requires
        scanned(outcome, shown, file_path, language, ReadOutcome::Source(source)),
    ensures
        outcome is Indexed,
        parser::source_result(file_path, language, source@, outcome->map.deep_view()),
        parser::hints_found(file_path, language, source@, outcome->hints.deep_view()),
        outcome->said@ == "Indexed "@ + outcome->map.file_path@ + " ["@ + outcome->map.language@
            + " / "@ + outcome->map.strategy.label() + "] ("@ + text::decimal(
            outcome->map.functions@.len() as int,
        ) + " symbols)"@,
{
}

/// A file that is no text, or that cannot be read, is not indexed, and is named in what
/// is said.
pub proof fn law_other_files_are_named(
    outcome: ScanOutcome,
    shown: Seq<char>,
    file_path: Seq<char>,
    language: SupportedLanguage,
    error: String,
)
    ensures
        scanned(outcome, shown, file_path, language, ReadOutcome::NotText) ==> outcome is Skipped
            && text::ends_with(outcome->Skipped_0@, shown),
        scanned(outcome, shown, file_path, language, ReadOutcome::Failed(error)) ==> outcome is Failed
            && text::ends_with(outcome->Failed_0@, shown + ": "@ + error@),
{
    if scanned(outcome, shown, file_path, language, ReadOutcome::NotText) {
        let line = outcome->Skipped_0@;
        assert(line.subrange(line.len() - shown.len(), line.len() as int) =~= shown);
    }
    if scanned(outcome, shown, file_path, language, ReadOutcome::Failed(error)) {
        let line = outcome->Failed_0@;
        let tail = shown + ": "@ + error@;
        assert(line.subrange(line.len() - tail.len(), line.len() as int) =~= tail);
    }
}

/// A file depends on the files that its hints about the project itself lead to, one for
/// each of these hints and in their order.
pub proof fn law_every_internal_hint_is_a_relation(origin: Seq<char>, hints: Seq<ResolvedHint>)
    ensures
        relations_of(origin, hints) == hints.filter(
            |hint: ResolvedHint| hint.internal && hint.target is Some,
        ).map_values(
            |hint: ResolvedHint|
                RelationModel {
                    origin,
                    target: hint.target->0@,
                    destination: fs_utils::cleaned(hint.target->0@),
                },
        ),
    decreases hints.len(),
{
    reveal(Seq::filter);
    let wanted = |hint: ResolvedHint| hint.internal && hint.target is Some;
    let relation = |hint: ResolvedHint|
        RelationModel {
            origin,
            target: hint.target->0@,
            destination: fs_utils::cleaned(hint.target->0@),
        };
    if hints.len() > 0 {
        law_every_internal_hint_is_a_relation(origin, hints.drop_last());
        let before = hints.drop_last().filter(wanted);
        if wanted(hints.last()) {
            assert(before.push(hints.last()).map_values(relation) =~= before.map_values(
                relation,
            ).push(relation(hints.last())));
        }
    } else {
        assert(hints.filter(wanted).map_values(relation) =~= relations_of(origin, hints));
    }
}

} // verus!
