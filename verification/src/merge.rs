//! The merge of a proposed change into the graph. The program around this library
//! sends the statements and reports what came of them.

use crate::graph::merge_decision;
use crate::statements;
use crate::statements::{gpr_step, record_lesson, GprStep, Statement, StatementModel};
use vstd::prelude::*;

verus! {

/// A lesson of a proposed change.
#[derive(Debug, Clone, PartialEq, Eq)]
pub struct StagedLesson {
    pub file_path: String,
    pub symbol_name: String,
    pub error_context: String,
    pub solution: String,
    pub timestamp: String,
}

/// How far the merge has come. `rest` holds the lessons that are still to be
/// recorded.
#[derive(Debug, Clone, PartialEq, Eq)]
pub enum MergeState<L> {
    Checking,
    MergingFiles,
    ReadingLessons,
    Recording { rest: L },
    Approving,
    Ended,
}

/// What came of a statement: the status of the proposed change if it is there, its
/// lessons, or that the statement was carried out.
#[derive(Debug, Clone, PartialEq, Eq)]
pub enum MergeEvent<T, L> {
    Status(Option<T>),
    Lessons(L),
    Ran,
}

/// What is to be done next.
#[derive(Debug, Clone, PartialEq, Eq)]
pub enum MergeAction<T, S> {
    ReadStatus(S),
    ReadLessons(S),
    Run(S),
    End,
    /// The merge fails.
    Fail(T),
}

impl MergeState<Vec<StagedLesson>> {
    pub open spec fn model(self) -> MergeState<Seq<StagedLesson>> {
        match self {
            MergeState::Checking => MergeState::Checking,
            MergeState::MergingFiles => MergeState::MergingFiles,
            MergeState::ReadingLessons => MergeState::ReadingLessons,
            MergeState::Recording { rest } => MergeState::Recording { rest: rest@ },
            MergeState::Approving => MergeState::Approving,
            MergeState::Ended => MergeState::Ended,
        }
    }
}

impl MergeEvent<String, Vec<StagedLesson>> {
    pub open spec fn model(self) -> MergeEvent<Seq<char>, Seq<StagedLesson>> {
        match self {
            MergeEvent::Status(Some(status)) => MergeEvent::Status(Some(status@)),
            MergeEvent::Status(None) => MergeEvent::Status(None),
            MergeEvent::Lessons(lessons) => MergeEvent::Lessons(lessons@),
            MergeEvent::Ran => MergeEvent::Ran,
        }
    }
}

impl MergeAction<String, Statement> {
    pub open spec fn model(self) -> MergeAction<Seq<char>, StatementModel> {
        match self {
            MergeAction::ReadStatus(statement) => MergeAction::ReadStatus(statement.deep_view()),
            MergeAction::ReadLessons(statement) => MergeAction::ReadLessons(statement.deep_view()),
            MergeAction::Run(statement) => MergeAction::Run(statement.deep_view()),
            MergeAction::End => MergeAction::End,
            MergeAction::Fail(error) => MergeAction::Fail(error@),
        }
    }
}

/// A state, and what is to be done in it.
pub type MergeStep = (MergeState<Seq<StagedLesson>>, MergeAction<Seq<char>, StatementModel>);

/// A statement on the proposed change.
pub open spec fn step_statement(step: GprStep, tenant_id: Seq<char>, gpr_id: int) -> StatementModel {
    StatementModel::new(step.statement_text()).number("id"@, gpr_id).text("tenant_id"@, tenant_id)
}

/// The statement that records a lesson of the proposed change.
pub open spec fn lesson_of(tenant_id: Seq<char>, lesson: StagedLesson) -> StatementModel {
    statements::lesson_statement(
        tenant_id,
        lesson.file_path@,
        lesson.symbol_name@,
        lesson.error_context@,
        lesson.solution@,
        lesson.timestamp@,
    )
}

/// The first step: whether the proposed change is there and still open.
pub open spec fn first_step(tenant_id: Seq<char>, gpr_id: int) -> MergeStep {
    (
        MergeState::Checking,
        MergeAction::ReadStatus(step_statement(GprStep::Status, tenant_id, gpr_id)),
    )
}

/// The step with lessons left: the first of them is recorded; after the last one
/// the change is approved.
pub open spec fn recording_step(
    tenant_id: Seq<char>,
    gpr_id: int,
    rest: Seq<StagedLesson>,
) -> MergeStep {
    if rest.len() == 0 {
        (
            MergeState::Approving,
            MergeAction::Run(step_statement(GprStep::Approve, tenant_id, gpr_id)),
        )
    } else {
        (
            MergeState::Recording { rest: rest.skip(1) },
            MergeAction::Run(lesson_of(tenant_id, rest[0])),
        )
    }
}

/// The step after an event. An event that the state does not wait for ends the
/// merge.
pub open spec fn next_step(
    tenant_id: Seq<char>,
    gpr_id: int,
    state: MergeState<Seq<StagedLesson>>,
    event: MergeEvent<Seq<char>, Seq<StagedLesson>>,
) -> MergeStep {
    match (state, event) {
        (MergeState::Checking, MergeEvent::Status(None)) => (
            MergeState::Ended,
            MergeAction::Fail("GPR not found"@),
        ),
        (MergeState::Checking, MergeEvent::Status(Some(status))) => if status == "PENDING"@ {
            (
                MergeState::MergingFiles,
                MergeAction::Run(step_statement(GprStep::MergeFiles, tenant_id, gpr_id)),
            )
        } else {
            (MergeState::Ended, MergeAction::Fail("GPR status is already "@ + status))
        },
        (MergeState::MergingFiles, MergeEvent::Ran) => (
            MergeState::ReadingLessons,
            MergeAction::ReadLessons(step_statement(GprStep::StagedLessons, tenant_id, gpr_id)),
        ),
        (MergeState::ReadingLessons, MergeEvent::Lessons(lessons)) => recording_step(
            tenant_id,
            gpr_id,
            lessons,
        ),
        (MergeState::Recording { rest }, MergeEvent::Ran) => recording_step(
            tenant_id,
            gpr_id,
            rest,
        ),
        _ => (MergeState::Ended, MergeAction::End),
    }
}

fn record_next(tenant_id: &str, gpr_id: i64, rest: Vec<StagedLesson>) -> (r: (
    MergeState<Vec<StagedLesson>>,
    MergeAction<String, Statement>,
))
    ensures
        (r.0.model(), r.1.model()) == recording_step(tenant_id@, gpr_id as int, rest@),
{
    if rest.len() == 0 {
        return (
            MergeState::Approving,
            MergeAction::Run(gpr_step(GprStep::Approve, tenant_id, gpr_id)),
        );
    }
    let ghost all = rest@;
    let mut rest = rest;
    let lesson = rest.remove(0);
    assert(rest@ =~= all.skip(1));
    let statement = record_lesson(
        tenant_id,
        lesson.file_path.as_str(),
        Some(lesson.symbol_name.as_str()),
        lesson.error_context.as_str(),
        lesson.solution.as_str(),
        lesson.timestamp.as_str(),
    );
    (MergeState::Recording { rest }, MergeAction::Run(statement))
}

/// The first step: whether the proposed change is there and still open.
pub fn start_merge(tenant_id: &str, gpr_id: i64) -> (r: (
    MergeState<Vec<StagedLesson>>,
    MergeAction<String, Statement>,
))
    ensures
        (r.0.model(), r.1.model()) == first_step(tenant_id@, gpr_id as int),
{
    (MergeState::Checking, MergeAction::ReadStatus(gpr_step(GprStep::Status, tenant_id, gpr_id)))
}

/// The step after an event.
pub fn resume_merge(
    tenant_id: &str,
    gpr_id: i64,
    state: MergeState<Vec<StagedLesson>>,
    event: MergeEvent<String, Vec<StagedLesson>>,
) -> (r: (MergeState<Vec<StagedLesson>>, MergeAction<String, Statement>))
    ensures
        (r.0.model(), r.1.model()) == next_step(
            tenant_id@,
            gpr_id as int,
            state.model(),
            event.model(),
        ),
{
    match (state, event) {
        (MergeState::Checking, MergeEvent::Status(status)) => {
            let decision = match &status {
                Some(s) => merge_decision(Some(s.as_str())),
                None => merge_decision(None),
            };
            match decision {
                Ok(_) => (
                    MergeState::MergingFiles,
                    MergeAction::Run(gpr_step(GprStep::MergeFiles, tenant_id, gpr_id)),
                ),
                Err(message) => (MergeState::Ended, MergeAction::Fail(message)),
            }
        },
        (MergeState::MergingFiles, MergeEvent::Ran) => (
            MergeState::ReadingLessons,
            MergeAction::ReadLessons(gpr_step(GprStep::StagedLessons, tenant_id, gpr_id)),
        ),
        (MergeState::ReadingLessons, MergeEvent::Lessons(lessons)) => record_next(
            tenant_id,
            gpr_id,
            lessons,
        ),
        (MergeState::Recording { rest }, MergeEvent::Ran) => record_next(tenant_id, gpr_id, rest),
        _ => (MergeState::Ended, MergeAction::End),
    }
}

// ---------------------------------------------------------------------------
// Laws
// ---------------------------------------------------------------------------

/// What a graph answers in which the proposed change has the given status and the
/// given lessons.
pub open spec fn answer(
    action: MergeAction<Seq<char>, StatementModel>,
    status: Option<Seq<char>>,
    lessons: Seq<StagedLesson>,
) -> MergeEvent<Seq<char>, Seq<StagedLesson>> {
    match action {
        MergeAction::ReadStatus(_) => MergeEvent::Status(status),
        MergeAction::ReadLessons(_) => MergeEvent::Lessons(lessons),
        _ => MergeEvent::Ran,
    }
}

/// The first `count` actions of a merge from a step on.
pub open spec fn actions_from(
    tenant_id: Seq<char>,
    gpr_id: int,
    step: MergeStep,
    status: Option<Seq<char>>,
    lessons: Seq<StagedLesson>,
    count: nat,
) -> Seq<MergeAction<Seq<char>, StatementModel>>
    decreases count,
{
    if count == 0 {
        Seq::empty()
    } else {
        let next = next_step(tenant_id, gpr_id, step.0, answer(step.1, status, lessons));
        seq![step.1] + actions_from(
            tenant_id,
            gpr_id,
            next,
            status,
            lessons,
            (count - 1) as nat,
        )
    }
}

/// The actions that record the given lessons.
pub open spec fn recordings(tenant_id: Seq<char>, lessons: Seq<StagedLesson>) -> Seq<
    MergeAction<Seq<char>, StatementModel>,
> {
    Seq::new(lessons.len(), |i: int| MergeAction::Run(lesson_of(tenant_id, lessons[i])))
}

proof fn lemma_recording(
    tenant_id: Seq<char>,
    gpr_id: int,
    rest: Seq<StagedLesson>,
    status: Option<Seq<char>>,
    lessons: Seq<StagedLesson>,
)
    ensures
        actions_from(
            tenant_id,
            gpr_id,
            recording_step(tenant_id, gpr_id, rest),
            status,
            lessons,
            rest.len() + 2,
        ) == recordings(tenant_id, rest) + seq![
            MergeAction::Run(step_statement(GprStep::Approve, tenant_id, gpr_id)),
            MergeAction::End,
        ],
    decreases rest.len(),
{
    let step = recording_step(tenant_id, gpr_id, rest);
    let approve: MergeAction<Seq<char>, StatementModel> = MergeAction::Run(
        step_statement(GprStep::Approve, tenant_id, gpr_id),
    );
    let end: MergeAction<Seq<char>, StatementModel> = MergeAction::End;
    if rest.len() == 0 {
        let last: MergeStep = (MergeState::Ended, MergeAction::End);
        assert(actions_from(tenant_id, gpr_id, last, status, lessons, 1) =~= seq![end]) by {
            reveal_with_fuel(actions_from, 2);
        }
        assert(recordings(tenant_id, rest) + seq![approve, end] =~= seq![approve] + seq![end]);
    } else {
        lemma_recording(tenant_id, gpr_id, rest.skip(1), status, lessons);
        let first: MergeAction<Seq<char>, StatementModel> = MergeAction::Run(
            lesson_of(tenant_id, rest[0]),
        );
        assert(recordings(tenant_id, rest) =~= seq![first] + recordings(tenant_id, rest.skip(1)));
        assert(recordings(tenant_id, rest) + seq![approve, end] =~= seq![first] + (recordings(
            tenant_id,
            rest.skip(1),
        ) + seq![approve, end]));
    }
}

/// An open change is merged as a whole: its files first, then each of its lessons
/// once and in order, and it is approved last.
pub proof fn law_open_changes_are_merged(
    tenant_id: Seq<char>,
    gpr_id: int,
    lessons: Seq<StagedLesson>,
)
    ensures
        actions_from(
            tenant_id,
            gpr_id,
            first_step(tenant_id, gpr_id),
            Some("PENDING"@),
            lessons,
            lessons.len() + 5,
        ) == seq![
            MergeAction::ReadStatus(step_statement(GprStep::Status, tenant_id, gpr_id)),
            MergeAction::Run(step_statement(GprStep::MergeFiles, tenant_id, gpr_id)),
            MergeAction::ReadLessons(step_statement(GprStep::StagedLessons, tenant_id, gpr_id)),
        ] + recordings(tenant_id, lessons) + seq![
            MergeAction::Run(step_statement(GprStep::Approve, tenant_id, gpr_id)),
            MergeAction::End,
        ],
{
    let status = Some("PENDING"@);
    lemma_recording(tenant_id, gpr_id, lessons, status, lessons);
    let step = first_step(tenant_id, gpr_id);
    let files = next_step(tenant_id, gpr_id, step.0, answer(step.1, status, lessons));
    let reading = next_step(tenant_id, gpr_id, files.0, answer(files.1, status, lessons));
    let recording = next_step(tenant_id, gpr_id, reading.0, answer(reading.1, status, lessons));
    assert(recording == recording_step(tenant_id, gpr_id, lessons));
    let tail = actions_from(tenant_id, gpr_id, recording, status, lessons, lessons.len() + 2);
    let third = actions_from(tenant_id, gpr_id, reading, status, lessons, lessons.len() + 3);
    assert(third == seq![reading.1] + tail);
    let second = actions_from(tenant_id, gpr_id, files, status, lessons, lessons.len() + 4);
    assert(second == seq![files.1] + third);
    let whole = actions_from(tenant_id, gpr_id, step, status, lessons, lessons.len() + 5);
    assert(whole == seq![step.1] + second);
    assert(whole =~= seq![step.1, files.1, reading.1] + tail);
}

/// A change that is not there or no longer open changes nothing: only its status is
/// read, and the merge fails.
pub proof fn law_closed_changes_are_refused(
    tenant_id: Seq<char>,
    gpr_id: int,
    status: Option<Seq<char>>,
    lessons: Seq<StagedLesson>,
)
    requires
        status != Some("PENDING"@),
    ensures
        actions_from(tenant_id, gpr_id, first_step(tenant_id, gpr_id), status, lessons, 2) == seq![
            MergeAction::ReadStatus(step_statement(GprStep::Status, tenant_id, gpr_id)),
            MergeAction::Fail(
                match status {
                    None => "GPR not found"@,
                    Some(s) => "GPR status is already "@ + s,
                },
            ),
        ],
{
    reveal_with_fuel(actions_from, 3);
}

/// Every statement of a merge is on the proposed change and its tenant, and every lesson
/// is recorded as it was proposed.
pub proof fn law_merged_as_proposed(
    step: GprStep,
    tenant_id: Seq<char>,
    gpr_id: int,
    lesson: StagedLesson,
)
    ensures
        step_statement(step, tenant_id, gpr_id).text == step.statement_text(),
        step_statement(step, tenant_id, gpr_id).params == seq![
            ("id"@, statements::ParamModel::Number(gpr_id)),
            ("tenant_id"@, statements::ParamModel::Text(tenant_id)),
        ],
        lesson_of(tenant_id, lesson).params == seq![
            ("file_path"@, statements::ParamModel::Text(lesson.file_path@)),
            ("symbol_name"@, statements::ParamModel::Text(lesson.symbol_name@)),
            ("error_context"@, statements::ParamModel::Text(lesson.error_context@)),
            ("solution"@, statements::ParamModel::Text(lesson.solution@)),
            ("timestamp"@, statements::ParamModel::Text(lesson.timestamp@)),
            ("tenant_id"@, statements::ParamModel::Text(tenant_id)),
        ],
{
    statements::law_lessons_hold_what_is_given(
        tenant_id,
        lesson.file_path@,
        lesson.symbol_name@,
        lesson.error_context@,
        lesson.solution@,
        lesson.timestamp@,
    );
}

} // verus!
