//! The update of the program from its repository. The program around this library
//! runs the commands and reports what became of them.

use crate::text;
use crate::text::{concat2, no_lines, one_line, same_text, trim};
use vstd::prelude::*;

verus! {

/// How far the update has come.
#[derive(Debug, Clone, PartialEq, Eq)]
pub enum UpdateState<T> {
    Fetching,
    ReadingBranch,
    ReadingLocal { branch: T },
    ReadingRemote { branch: T, local: T },
    Comparing,
    Pulling,
    Installing,
    Ended,
}

/// What became of a command: whether it succeeded, or what it wrote if it did.
#[derive(Debug, Clone, PartialEq, Eq)]
pub enum UpdateEvent<T> {
    Ran(bool),
    Output(Option<T>),
}

/// What is to be done next.
#[derive(Debug, Clone, PartialEq, Eq)]
pub enum UpdateAction<T> {
    /// `git fetch origin`
    Fetch,
    /// `git rev-parse --abbrev-ref HEAD`
    ReadBranch,
    /// `git rev-parse` of a revision.
    ReadRevision(T),
    /// Whether `HEAD` is an ancestor of a revision.
    IsAncestorOf(T),
    /// `git pull`
    Pull,
    /// `cargo install` of the command line client.
    Install,
    End,
    /// The update fails.
    Fail(T),
}

impl UpdateState<String> {
    pub open spec fn model(self) -> UpdateState<Seq<char>> {
        match self {
            UpdateState::Fetching => UpdateState::Fetching,
            UpdateState::ReadingBranch => UpdateState::ReadingBranch,
            UpdateState::ReadingLocal { branch } => UpdateState::ReadingLocal { branch: branch@ },
            UpdateState::ReadingRemote { branch, local } => UpdateState::ReadingRemote {
                branch: branch@,
                local: local@,
            },
            UpdateState::Comparing => UpdateState::Comparing,
            UpdateState::Pulling => UpdateState::Pulling,
            UpdateState::Installing => UpdateState::Installing,
            UpdateState::Ended => UpdateState::Ended,
        }
    }
}

impl UpdateEvent<String> {
    pub open spec fn model(self) -> UpdateEvent<Seq<char>> {
        match self {
            UpdateEvent::Ran(ok) => UpdateEvent::Ran(ok),
            UpdateEvent::Output(Some(output)) => UpdateEvent::Output(Some(output@)),
            UpdateEvent::Output(None) => UpdateEvent::Output(None),
        }
    }
}

impl UpdateAction<String> {
    pub open spec fn model(self) -> UpdateAction<Seq<char>> {
        match self {
            UpdateAction::Fetch => UpdateAction::Fetch,
            UpdateAction::ReadBranch => UpdateAction::ReadBranch,
            UpdateAction::ReadRevision(revision) => UpdateAction::ReadRevision(revision@),
            UpdateAction::IsAncestorOf(revision) => UpdateAction::IsAncestorOf(revision@),
            UpdateAction::Pull => UpdateAction::Pull,
            UpdateAction::Install => UpdateAction::Install,
            UpdateAction::End => UpdateAction::End,
            UpdateAction::Fail(error) => UpdateAction::Fail(error@),
        }
    }
}

/// A state, what is said on the way to it, and what is to be done in it.
pub type UpdateStep = (UpdateState<Seq<char>>, Seq<Seq<char>>, UpdateAction<Seq<char>>);

/// What is said where there is no repository to update from.
pub open spec fn update_error() -> Seq<Seq<char>> {
    seq![
        "Error: El subcomando 'update' no puede ejecutarse en este directorio."@,
        "---------------------------------------------------------------------"@,
        "Razón: Esta carpeta no es un repositorio Git válido o no cuenta con"@,
        "       el origen remoto del ecosistema Ozymem."@,
        ""@,
        "Solución: Para buscar y aplicar actualizaciones del sistema, primero"@,
        "          debes navegar a la carpeta raíz de tu monorepo local."@,
    ]
}

pub open spec fn refused() -> UpdateStep {
    (UpdateState::Ended, update_error(), UpdateAction::End)
}

pub open spec fn up_to_date() -> UpdateStep {
    (
        UpdateState::Ended,
        seq!["Ozymem is already on the latest version."@],
        UpdateAction::End,
    )
}

/// The first step.
pub open spec fn first_step() -> UpdateStep {
    (UpdateState::Fetching, Seq::empty(), UpdateAction::Fetch)
}

/// The step after an event. An event that the state does not wait for ends the
/// update.
pub open spec fn next_step(
    state: UpdateState<Seq<char>>,
    event: UpdateEvent<Seq<char>>,
) -> UpdateStep {
    match (state, event) {
        (UpdateState::Fetching, UpdateEvent::Ran(ok)) => if ok {
            (UpdateState::ReadingBranch, Seq::empty(), UpdateAction::ReadBranch)
        } else {
            refused()
        },
        (UpdateState::ReadingBranch, UpdateEvent::Output(Some(output))) => (
            UpdateState::ReadingLocal { branch: text::trim_text(output) },
            Seq::empty(),
            UpdateAction::ReadRevision("HEAD"@),
        ),
        (UpdateState::ReadingBranch, UpdateEvent::Output(None)) => refused(),
        (UpdateState::ReadingLocal { branch }, UpdateEvent::Output(Some(output))) => (
            UpdateState::ReadingRemote { branch, local: text::trim_text(output) },
            Seq::empty(),
            UpdateAction::ReadRevision("origin/"@ + branch),
        ),
        (UpdateState::ReadingLocal { branch: _ }, UpdateEvent::Output(None)) => refused(),
        (
            UpdateState::ReadingRemote { branch, local },
            UpdateEvent::Output(Some(output)),
        ) => if local == text::trim_text(output) {
            up_to_date()
        } else {
            (
                UpdateState::Comparing,
                Seq::empty(),
                UpdateAction::IsAncestorOf("origin/"@ + branch),
            )
        },
        (UpdateState::ReadingRemote { .. }, UpdateEvent::Output(None)) => refused(),
        (UpdateState::Comparing, UpdateEvent::Ran(behind)) => if behind {
            (
                UpdateState::Pulling,
                seq!["A new version of Ozymem is available. Updating..."@],
                UpdateAction::Pull,
            )
        } else {
            up_to_date()
        },
        (UpdateState::Pulling, UpdateEvent::Ran(ok)) => if ok {
            (
                UpdateState::Installing,
                seq!["Reinstalling ozymem-cli globally..."@],
                UpdateAction::Install,
            )
        } else {
            (
                UpdateState::Ended,
                Seq::empty(),
                UpdateAction::Fail("Failed to execute 'git pull'."@),
            )
        },
        (UpdateState::Installing, UpdateEvent::Ran(ok)) => if ok {
            (
                UpdateState::Ended,
                seq!["Ozymem updated successfully!"@],
                UpdateAction::End,
            )
        } else {
            (
                UpdateState::Ended,
                Seq::empty(),
                UpdateAction::Fail("Failed to execute 'cargo install'."@),
            )
        },
        _ => (UpdateState::Ended, Seq::empty(), UpdateAction::End),
    }
}

fn refuse() -> (r: (UpdateState<String>, Vec<String>, UpdateAction<String>))
    ensures
        (r.0.model(), r.1.deep_view(), r.2.model()) == refused(),
{
    let said = vec![
        "Error: El subcomando 'update' no puede ejecutarse en este directorio.".to_string(),
        "---------------------------------------------------------------------".to_string(),
        "Razón: Esta carpeta no es un repositorio Git válido o no cuenta con".to_string(),
        "       el origen remoto del ecosistema Ozymem.".to_string(),
        "".to_string(),
        "Solución: Para buscar y aplicar actualizaciones del sistema, primero".to_string(),
        "          debes navegar a la carpeta raíz de tu monorepo local.".to_string(),
    ];
    assert(said.deep_view() =~= update_error());
    (UpdateState::Ended, said, UpdateAction::End)
}

fn current() -> (r: (UpdateState<String>, Vec<String>, UpdateAction<String>))
    ensures
        (r.0.model(), r.1.deep_view(), r.2.model()) == up_to_date(),
{
    (
        UpdateState::Ended,
        one_line("Ozymem is already on the latest version.".to_string()),
        UpdateAction::End,
    )
}

/// The first step.
pub fn start_update() -> (r: (UpdateState<String>, Vec<String>, UpdateAction<String>))
    ensures
        (r.0.model(), r.1.deep_view(), r.2.model()) == first_step(),
{
    (UpdateState::Fetching, no_lines(), UpdateAction::Fetch)
}

/// The step after an event.
pub fn resume_update(state: UpdateState<String>, event: UpdateEvent<String>) -> (r: (
    UpdateState<String>,
    Vec<String>,
    UpdateAction<String>,
))
    ensures
        (r.0.model(), r.1.deep_view(), r.2.model()) == next_step(state.model(), event.model()),
{
    match (state, event) {
        (UpdateState::Fetching, UpdateEvent::Ran(ok)) => {
            if ok {
                (UpdateState::ReadingBranch, no_lines(), UpdateAction::ReadBranch)
            } else {
                refuse()
            }
        },
        (UpdateState::ReadingBranch, UpdateEvent::Output(Some(output))) => (
            UpdateState::ReadingLocal { branch: trim(output.as_str()) },
            no_lines(),
            UpdateAction::ReadRevision("HEAD".to_string()),
        ),
        (UpdateState::ReadingBranch, UpdateEvent::Output(None)) => refuse(),
        (UpdateState::ReadingLocal { branch }, UpdateEvent::Output(Some(output))) => {
            let revision = concat2("origin/", branch.as_str());
            (
                UpdateState::ReadingRemote { branch, local: trim(output.as_str()) },
                no_lines(),
                UpdateAction::ReadRevision(revision),
            )
        },
        (UpdateState::ReadingLocal { branch: _ }, UpdateEvent::Output(None)) => refuse(),
        (UpdateState::ReadingRemote { branch, local }, UpdateEvent::Output(Some(output))) => {
            if same_text(local.as_str(), trim(output.as_str()).as_str()) {
                current()
            } else {
                (
                    UpdateState::Comparing,
                    no_lines(),
                    UpdateAction::IsAncestorOf(concat2("origin/", branch.as_str())),
                )
            }
        },
        (UpdateState::ReadingRemote { .. }, UpdateEvent::Output(None)) => refuse(),
        (UpdateState::Comparing, UpdateEvent::Ran(behind)) => {
            if behind {
                (
                    UpdateState::Pulling,
                    one_line("A new version of Ozymem is available. Updating...".to_string()),
                    UpdateAction::Pull,
                )
            } else {
                current()
            }
        },
        (UpdateState::Pulling, UpdateEvent::Ran(ok)) => {
            if ok {
                (
                    UpdateState::Installing,
                    one_line("Reinstalling ozymem-cli globally...".to_string()),
                    UpdateAction::Install,
                )
            } else {
                (
                    UpdateState::Ended,
                    no_lines(),
                    UpdateAction::Fail("Failed to execute 'git pull'.".to_string()),
                )
            }
        },
        (UpdateState::Installing, UpdateEvent::Ran(ok)) => {
            if ok {
                (
                    UpdateState::Ended,
                    one_line("Ozymem updated successfully!".to_string()),
                    UpdateAction::End,
                )
            } else {
                (
                    UpdateState::Ended,
                    no_lines(),
                    UpdateAction::Fail("Failed to execute 'cargo install'.".to_string()),
                )
            }
        },
        _ => (UpdateState::Ended, no_lines(), UpdateAction::End),
    }
}

/// How many steps there can still be.
pub open spec fn steps_left(state: UpdateState<Seq<char>>) -> nat {
    match state {
        UpdateState::Fetching => 7,
        UpdateState::ReadingBranch => 6,
        UpdateState::ReadingLocal { .. } => 5,
        UpdateState::ReadingRemote { .. } => 4,
        UpdateState::Comparing => 3,
        UpdateState::Pulling => 2,
        UpdateState::Installing => 1,
        UpdateState::Ended => 0,
    }
}

/// The update ends: every step leaves fewer steps to come.
pub proof fn law_update_ends(state: UpdateState<Seq<char>>, event: UpdateEvent<Seq<char>>)
    requires
        !(state is Ended),
    ensures
        steps_left(next_step(state, event).0) < steps_left(state),
{
}

/// Nothing is pulled unless the local revision differs from the remote one and
/// is behind it, and nothing is installed that was not pulled.
pub proof fn law_only_newer_versions_are_installed(
    state: UpdateState<Seq<char>>,
    event: UpdateEvent<Seq<char>>,
)
    ensures
        ({
            let (next, _, action) = next_step(state, event);
            &&& action is Install ==> state is Pulling && event == UpdateEvent::<Seq<char>>::Ran(
                true,
            )
            &&& action is Pull ==> state is Comparing && event == UpdateEvent::<Seq<char>>::Ran(
                true,
            )
            &&& next is Comparing ==> (match (state, event) {
                (
                    UpdateState::ReadingRemote { branch: _, local },
                    UpdateEvent::Output(Some(remote)),
                ) => local != text::trim_text(remote),
                _ => false,
            })
        }),
{
}

/// The branch that is read is the one whose revision at the origin is read and
/// compared with, and the local revision is that of the head; white space around
/// what a command writes does not count.
pub proof fn law_the_branch_is_compared_with_its_origin(
    branch: Seq<char>,
    local: Seq<char>,
    remote: Seq<char>,
)
    ensures
        ({
            let head = next_step(
                UpdateState::ReadingBranch,
                UpdateEvent::Output(Some(branch)),
            );
            let origin = next_step(head.0, UpdateEvent::Output(Some(local)));
            let compared = next_step(origin.0, UpdateEvent::Output(Some(remote)));
            let revision = "origin/"@ + text::trim_text(branch);
            &&& head.2 == UpdateAction::ReadRevision("HEAD"@)
            &&& origin.2 == UpdateAction::ReadRevision(revision)
            &&& text::trim_text(local) != text::trim_text(remote) ==> compared.2
                == UpdateAction::IsAncestorOf(revision)
            &&& text::trim_text(local) == text::trim_text(remote) ==> compared.2 is End
                && compared.1 == seq!["Ozymem is already on the latest version."@]
        }),
{
}

/// A program that is behind is pulled and then installed, and each step comes after
/// the one before it succeeded; one that is not behind is left as it is.
pub proof fn law_what_is_behind_is_updated()
    ensures
        first_step().2 is Fetch,
        next_step(first_step().0, UpdateEvent::Ran(true)).2 is ReadBranch,
        next_step(UpdateState::Comparing, UpdateEvent::Ran(true)).2 is Pull,
        next_step(UpdateState::Comparing, UpdateEvent::Ran(false)).1 == seq![
            "Ozymem is already on the latest version."@,
        ],
        next_step(UpdateState::Pulling, UpdateEvent::Ran(true)).2 is Install,
        next_step(UpdateState::Installing, UpdateEvent::Ran(true)).1 == seq![
            "Ozymem updated successfully!"@,
        ],
        next_step(UpdateState::Installing, UpdateEvent::Ran(true)).2 is End,
{
}

/// A command that fails while the revisions are read ends the update with the same
/// explanation; a pull or an installation that fails is an error.
pub proof fn law_failures_end_the_update(
    state: UpdateState<Seq<char>>,
    event: UpdateEvent<Seq<char>>,
)
    requires
        event == UpdateEvent::<Seq<char>>::Ran(false) || event == UpdateEvent::<Seq<char>>::Output(
            None,
        ),
    ensures
        next_step(state, event).0 is Ended,
        state is Fetching && event is Ran || (state is ReadingBranch || state is ReadingLocal
            || state is ReadingRemote) && event is Output ==> next_step(state, event) == (
            UpdateState::<Seq<char>>::Ended,
            seq![
                "Error: El subcomando 'update' no puede ejecutarse en este directorio."@,
                "---------------------------------------------------------------------"@,
                "Razón: Esta carpeta no es un repositorio Git válido o no cuenta con"@,
                "       el origen remoto del ecosistema Ozymem."@,
                ""@,
                "Solución: Para buscar y aplicar actualizaciones del sistema, primero"@,
                "          debes navegar a la carpeta raíz de tu monorepo local."@,
            ],
            UpdateAction::<Seq<char>>::End,
        ),
        state is Pulling && event is Ran ==> next_step(state, event).2 == UpdateAction::Fail(
            "Failed to execute 'git pull'."@,
        ),
        state is Installing && event is Ran ==> next_step(state, event).2 == UpdateAction::Fail(
            "Failed to execute 'cargo install'."@,
        ),
{
}

} // verus!
