//! The removal of a project from the configuration, and of its files from the
//! graph. The program around this library asks the questions, performs the actions
//! and reports what became of them.

use crate::config::OzymemConfig;
use crate::text;
use crate::text::{concat3, decimal_i64, no_lines, one_line};
use vstd::prelude::*;

verus! {

/// How far the removal has come.
#[derive(Debug, Clone, PartialEq, Eq)]
pub enum DeregisterState<T> {
    ConfirmingProject { name: T },
    Selecting,
    LookingForWatcher { name: T },
    ConfirmingStop { name: T },
    StoppingWatcher { name: T },
    ConfirmingRemoval { name: T },
    Saving { name: T, path: T },
    Connecting { path: T },
    ConfirmingFiles { path: T },
    DeletingFiles,
    Ended,
}

/// What became of an action: an answer, a choice, whether something is there, that
/// it is done, or how many files were deleted.
#[derive(Debug, Clone, PartialEq, Eq)]
pub enum DeregisterEvent<T> {
    Answer(bool),
    Selected(Option<usize>),
    Found(bool),
    Done,
    Deleted(i64),
    DeletionFailed(T),
}

/// What is to be done next.
#[derive(Debug, Clone, PartialEq, Eq)]
pub enum DeregisterAction<T> {
    Confirm { prompt: T, default: bool },
    Select,
    LookForWatcher(T),
    StopWatcher(T),
    /// The configuration is to be saved, and the log of the project removed.
    Save(T),
    Connect,
    DeleteFiles(T),
    End,
    /// The removal ends with a line for the error output.
    Warn(T),
    /// The removal fails.
    Fail(T),
}

impl DeregisterState<String> {
    pub open spec fn model(self) -> DeregisterState<Seq<char>> {
        match self {
            DeregisterState::ConfirmingProject { name } => DeregisterState::ConfirmingProject {
                name: name@,
            },
            DeregisterState::Selecting => DeregisterState::Selecting,
            DeregisterState::LookingForWatcher { name } => DeregisterState::LookingForWatcher {
                name: name@,
            },
            DeregisterState::ConfirmingStop { name } => DeregisterState::ConfirmingStop {
                name: name@,
            },
            DeregisterState::StoppingWatcher { name } => DeregisterState::StoppingWatcher {
                name: name@,
            },
            DeregisterState::ConfirmingRemoval { name } => DeregisterState::ConfirmingRemoval {
                name: name@,
            },
            DeregisterState::Saving { name, path } => DeregisterState::Saving {
                name: name@,
                path: path@,
            },
            DeregisterState::Connecting { path } => DeregisterState::Connecting { path: path@ },
            DeregisterState::ConfirmingFiles { path } => DeregisterState::ConfirmingFiles {
                path: path@,
            },
            DeregisterState::DeletingFiles => DeregisterState::DeletingFiles,
            DeregisterState::Ended => DeregisterState::Ended,
        }
    }
}

impl DeregisterEvent<String> {
    pub open spec fn model(self) -> DeregisterEvent<Seq<char>> {
        match self {
            DeregisterEvent::Answer(yes) => DeregisterEvent::Answer(yes),
            DeregisterEvent::Selected(choice) => DeregisterEvent::Selected(choice),
            DeregisterEvent::Found(there) => DeregisterEvent::Found(there),
            DeregisterEvent::Done => DeregisterEvent::Done,
            DeregisterEvent::Deleted(count) => DeregisterEvent::Deleted(count),
            DeregisterEvent::DeletionFailed(error) => DeregisterEvent::DeletionFailed(error@),
        }
    }
}

impl DeregisterAction<String> {
    pub open spec fn model(self) -> DeregisterAction<Seq<char>> {
        match self {
            DeregisterAction::Confirm { prompt, default } => DeregisterAction::Confirm {
                prompt: prompt@,
                default,
            },
            DeregisterAction::Select => DeregisterAction::Select,
            DeregisterAction::LookForWatcher(name) => DeregisterAction::LookForWatcher(name@),
            DeregisterAction::StopWatcher(name) => DeregisterAction::StopWatcher(name@),
            DeregisterAction::Save(name) => DeregisterAction::Save(name@),
            DeregisterAction::Connect => DeregisterAction::Connect,
            DeregisterAction::DeleteFiles(path) => DeregisterAction::DeleteFiles(path@),
            DeregisterAction::End => DeregisterAction::End,
            DeregisterAction::Warn(line) => DeregisterAction::Warn(line@),
            DeregisterAction::Fail(error) => DeregisterAction::Fail(error@),
        }
    }
}

/// A state, what is said on the way to it, and what is to be done in it.
pub type DeregisterStep = (
    DeregisterState<Seq<char>>,
    Seq<Seq<char>>,
    DeregisterAction<Seq<char>>,
);

pub open spec fn ended(said: Seq<Seq<char>>) -> DeregisterStep {
    (DeregisterState::Ended, said, DeregisterAction::End)
}

/// The step once a name is known: it must be that of a registered project.
pub open spec fn named_step(config: OzymemConfig, name: Seq<char>) -> DeregisterStep {
    match config.project_path(name) {
        Some(_) => (
            DeregisterState::LookingForWatcher { name },
            Seq::empty(),
            DeregisterAction::LookForWatcher(name),
        ),
        None => (
            DeregisterState::Ended,
            Seq::empty(),
            DeregisterAction::Fail("El proyecto '"@ + name + "' no está registrado."@),
        ),
    }
}

/// The question that stands before every removal.
pub open spec fn removal_step(name: Seq<char>) -> DeregisterStep {
    (
        DeregisterState::ConfirmingRemoval { name },
        Seq::empty(),
        DeregisterAction::Confirm {
            prompt: "¿Está seguro de que desea eliminar el registro de '"@ + name + "'?"@,
            default: false,
        },
    )
}

/// The first step, for the name that was given, or else for the project of the
/// current directory.
pub open spec fn first_step(
    config: OzymemConfig,
    given: Option<Seq<char>>,
    here: Option<Seq<char>>,
) -> DeregisterStep {
    if config.projects@.len() == 0 {
        ended(seq!["[INFO] No hay proyectos registrados todavía."@])
    } else {
        match (given, here) {
            (Some(name), _) => named_step(config, name),
            (None, Some(name)) => (
                DeregisterState::ConfirmingProject { name },
                Seq::empty(),
                DeregisterAction::Confirm {
                    prompt: "¿Desea desregistrar el proyecto '"@ + name
                        + "' del directorio actual?"@,
                    default: true,
                },
            ),
            (None, None) => (
                DeregisterState::Selecting,
                Seq::empty(),
                DeregisterAction::Select,
            ),
        }
    }
}

/// The step after an event. An event that the state does not wait for ends the
/// removal.
pub open spec fn next_step(
    config: OzymemConfig,
    names: Seq<Seq<char>>,
    state: DeregisterState<Seq<char>>,
    event: DeregisterEvent<Seq<char>>,
) -> DeregisterStep {
    match (state, event) {
        (
            DeregisterState::ConfirmingProject { name },
            DeregisterEvent::Answer(yes),
        ) => if yes {
            named_step(config, name)
        } else {
            ended(seq!["Operación cancelada."@])
        },
        (DeregisterState::Selecting, DeregisterEvent::Selected(Some(index))) => named_step(
            config,
            names[index as int],
        ),
        (DeregisterState::Selecting, DeregisterEvent::Selected(None)) => ended(
            seq!["Operación cancelada."@],
        ),
        (
            DeregisterState::LookingForWatcher { name },
            DeregisterEvent::Found(there),
        ) => if there {
            (
                DeregisterState::ConfirmingStop { name },
                Seq::empty(),
                DeregisterAction::Confirm {
                    prompt: "El watcher para '"@ + name
                        + "' está activo. ¿Desea detenerlo automáticamente antes de desregistrar?"@,
                    default: true,
                },
            )
        } else {
            removal_step(name)
        },
        (DeregisterState::ConfirmingStop { name }, DeregisterEvent::Answer(yes)) => if yes {
            (
                DeregisterState::StoppingWatcher { name },
                Seq::empty(),
                DeregisterAction::StopWatcher(name),
            )
        } else {
            ended(seq!["Operación abortada por seguridad (el watcher sigue activo)."@])
        },
        (DeregisterState::StoppingWatcher { name }, DeregisterEvent::Done) => removal_step(name),
        (
            DeregisterState::ConfirmingRemoval { name },
            DeregisterEvent::Answer(yes),
        ) => if yes {
            (
                DeregisterState::Saving {
                    name,
                    path: match config.project_path(name) {
                        Some(path) => path,
                        None => ""@,
                    },
                },
                Seq::empty(),
                DeregisterAction::Save(name),
            )
        } else {
            ended(seq!["Operación cancelada."@])
        },
        (DeregisterState::Saving { name, path }, DeregisterEvent::Done) => (
            DeregisterState::Connecting { path },
            seq![
                "[SUCCESS] Registro del proyecto '"@ + name + "' eliminado de ozymem.toml."@,
            ],
            DeregisterAction::Connect,
        ),
        (DeregisterState::Connecting { path }, DeregisterEvent::Found(there)) => if there {
            (
                DeregisterState::ConfirmingFiles { path },
                Seq::empty(),
                DeregisterAction::Confirm {
                    prompt: "¿Desea eliminar también todos los archivos indexados de este proyecto del grafo en Memgraph?"@,
                    default: true,
                },
            )
        } else {
            ended(Seq::empty())
        },
        (DeregisterState::ConfirmingFiles { path }, DeregisterEvent::Answer(yes)) => if yes {
            (
                DeregisterState::DeletingFiles,
                seq!["[Core] Eliminando archivos del proyecto del grafo..."@],
                DeregisterAction::DeleteFiles(path),
            )
        } else {
            ended(Seq::empty())
        },
        (DeregisterState::DeletingFiles, DeregisterEvent::Deleted(count)) => ended(
            seq![
                "[SUCCESS] Se eliminaron "@ + text::decimal(count as int)
                    + " archivos y sus funciones asociadas del grafo."@,
            ],
        ),
        (DeregisterState::DeletingFiles, DeregisterEvent::DeletionFailed(error)) => (
            DeregisterState::Ended,
            Seq::empty(),
            DeregisterAction::Warn(
                "[ERROR] No se pudieron eliminar los archivos del grafo: "@ + error,
            ),
        ),
        _ => ended(Seq::empty()),
    }
}

/// The answer that removes a project.
pub open spec fn removes(
    state: DeregisterState<Seq<char>>,
    event: DeregisterEvent<Seq<char>>,
) -> Option<Seq<char>> {
    match (state, event) {
        (DeregisterState::ConfirmingRemoval { name }, DeregisterEvent::Answer(true)) => Some(name),
        _ => None,
    }
}

// ---------------------------------------------------------------------------
// Execution
// ---------------------------------------------------------------------------

fn end(said: Vec<String>) -> (r: (
    DeregisterState<String>,
    Vec<String>,
    DeregisterAction<String>,
))
    ensures
        (r.0.model(), r.1.deep_view(), r.2.model()) == ended(said.deep_view()),
{
    (DeregisterState::Ended, said, DeregisterAction::End)
}

fn after_name(config: &OzymemConfig, name: String) -> (r: (
    DeregisterState<String>,
    Vec<String>,
    DeregisterAction<String>,
))
    ensures
        (r.0.model(), r.1.deep_view(), r.2.model()) == named_step(*config, name@),
{
    match config.project(name.as_str()) {
        Some(_) => {
            let again = name.as_str().to_string();
            (
                DeregisterState::LookingForWatcher { name },
                no_lines(),
                DeregisterAction::LookForWatcher(again),
            )
        },
        None => (
            DeregisterState::Ended,
            no_lines(),
            DeregisterAction::Fail(
                concat3("El proyecto '", name.as_str(), "' no está registrado."),
            ),
        ),
    }
}

fn ask_removal(name: String) -> (r: (
    DeregisterState<String>,
    Vec<String>,
    DeregisterAction<String>,
))
    ensures
        (r.0.model(), r.1.deep_view(), r.2.model()) == removal_step(name@),
{
    let prompt = concat3(
        "¿Está seguro de que desea eliminar el registro de '",
        name.as_str(),
        "'?",
    );
    (
        DeregisterState::ConfirmingRemoval { name },
        no_lines(),
        DeregisterAction::Confirm { prompt, default: false },
    )
}

/// The first step, for the name that was given, or else for the project of the
/// current directory.
pub fn start_deregister(config: &OzymemConfig, given: Option<String>, here: Option<String>) -> (r: (
    DeregisterState<String>,
    Vec<String>,
    DeregisterAction<String>,
))
    ensures
        (r.0.model(), r.1.deep_view(), r.2.model()) == first_step(
            *config,
            match given {
                Some(name) => Some(name@),
                None => None,
            },
            match here {
                Some(name) => Some(name@),
                None => None,
            },
        ),
{
    if config.projects.len() == 0 {
        return end(one_line("[INFO] No hay proyectos registrados todavía.".to_string()));
    }
    match (given, here) {
        (Some(name), _) => after_name(config, name),
        (None, Some(name)) => {
            let prompt = concat3(
                "¿Desea desregistrar el proyecto '",
                name.as_str(),
                "' del directorio actual?",
            );
            (
                DeregisterState::ConfirmingProject { name },
                no_lines(),
                DeregisterAction::Confirm { prompt, default: true },
            )
        },
        (None, None) => (DeregisterState::Selecting, no_lines(), DeregisterAction::Select),
    }
}

/// The step after an event. The project leaves the configuration with the answer
/// to the last question, and in no other step; nothing else in the configuration
/// changes.
pub fn resume_deregister(
    config: &mut OzymemConfig,
    names: &Vec<String>,
    state: DeregisterState<String>,
    event: DeregisterEvent<String>,
) -> (r: (DeregisterState<String>, Vec<String>, DeregisterAction<String>))
    requires
        old(config).wf(),
        event matches DeregisterEvent::Selected(Some(index)) ==> index < names@.len(),
    ensures
        (r.0.model(), r.1.deep_view(), r.2.model()) == next_step(
            *old(config),
            names.deep_view(),
            state.model(),
            event.model(),
        ),
        final(config).wf(),
        match removes(state.model(), event.model()) {
            Some(name) => {
                &&& final(config).project_path(name) is None
                &&& forall|other: Seq<char>|
                    other != name ==> #[trigger] final(config).project_path(other) == old(
                        config,
                    ).project_path(other)
                &&& final(config).brains == old(config).brains
                &&& final(config).current_brain == old(config).current_brain
                &&& final(config).token == old(config).token
            },
            None => *final(config) == *old(config),
        },
{
    match (state, event) {
        (DeregisterState::ConfirmingProject { name }, DeregisterEvent::Answer(yes)) => {
            if yes {
                after_name(config, name)
            } else {
                end(one_line("Operación cancelada.".to_string()))
            }
        },
        (DeregisterState::Selecting, DeregisterEvent::Selected(Some(index))) => after_name(
            config,
            names[index].as_str().to_string(),
        ),
        (DeregisterState::Selecting, DeregisterEvent::Selected(None)) => end(
            one_line("Operación cancelada.".to_string()),
        ),
        (DeregisterState::LookingForWatcher { name }, DeregisterEvent::Found(there)) => {
            if there {
                let prompt = concat3(
                    "El watcher para '",
                    name.as_str(),
                    "' está activo. ¿Desea detenerlo automáticamente antes de desregistrar?",
                );
                (
                    DeregisterState::ConfirmingStop { name },
                    no_lines(),
                    DeregisterAction::Confirm { prompt, default: true },
                )
            } else {
                ask_removal(name)
            }
        },
        (DeregisterState::ConfirmingStop { name }, DeregisterEvent::Answer(yes)) => {
            if yes {
                let again = name.as_str().to_string();
                (
                    DeregisterState::StoppingWatcher { name },
                    no_lines(),
                    DeregisterAction::StopWatcher(again),
                )
            } else {
                end(
                    one_line(
                        "Operación abortada por seguridad (el watcher sigue activo).".to_string(),
                    ),
                )
            }
        },
        (DeregisterState::StoppingWatcher { name }, DeregisterEvent::Done) => ask_removal(name),
        (DeregisterState::ConfirmingRemoval { name }, DeregisterEvent::Answer(yes)) => {
            if yes {
                let path = match config.project(name.as_str()) {
                    Some(path) => path.to_string(),
                    None => "".to_string(),
                };
                let _ = config.remove_project(name.as_str());
                let again = name.as_str().to_string();
                (DeregisterState::Saving { name, path }, no_lines(), DeregisterAction::Save(again))
            } else {
                end(one_line("Operación cancelada.".to_string()))
            }
        },
        (DeregisterState::Saving { name, path }, DeregisterEvent::Done) => (
            DeregisterState::Connecting { path },
            one_line(
                concat3(
                    "[SUCCESS] Registro del proyecto '",
                    name.as_str(),
                    "' eliminado de ozymem.toml.",
                ),
            ),
            DeregisterAction::Connect,
        ),
        (DeregisterState::Connecting { path }, DeregisterEvent::Found(there)) => {
            if there {
                (
                    DeregisterState::ConfirmingFiles { path },
                    no_lines(),
                    DeregisterAction::Confirm {
                        prompt: "¿Desea eliminar también todos los archivos indexados de este proyecto del grafo en Memgraph?".to_string(),
                        default: true,
                    },
                )
            } else {
                end(no_lines())
            }
        },
        (DeregisterState::ConfirmingFiles { path }, DeregisterEvent::Answer(yes)) => {
            if yes {
                (
                    DeregisterState::DeletingFiles,
                    one_line("[Core] Eliminando archivos del proyecto del grafo...".to_string()),
                    DeregisterAction::DeleteFiles(path),
                )
            } else {
                end(no_lines())
            }
        },
        (DeregisterState::DeletingFiles, DeregisterEvent::Deleted(count)) => end(
            one_line(
                concat3(
                    "[SUCCESS] Se eliminaron ",
                    decimal_i64(count).as_str(),
                    " archivos y sus funciones asociadas del grafo.",
                ),
            ),
        ),
        (DeregisterState::DeletingFiles, DeregisterEvent::DeletionFailed(error)) => {
            let mut line = "[ERROR] No se pudieron eliminar los archivos del grafo: ".to_string();
            line.append(error.as_str());
            (DeregisterState::Ended, no_lines(), DeregisterAction::Warn(line))
        },
        _ => end(no_lines()),
    }
}

// ---------------------------------------------------------------------------
// Laws
// ---------------------------------------------------------------------------

/// How many steps there can still be.
pub open spec fn steps_left(state: DeregisterState<Seq<char>>) -> nat {
    match state {
        DeregisterState::ConfirmingProject { .. } | DeregisterState::Selecting => 9,
        DeregisterState::LookingForWatcher { .. } => 8,
        DeregisterState::ConfirmingStop { .. } => 7,
        DeregisterState::StoppingWatcher { .. } => 6,
        DeregisterState::ConfirmingRemoval { .. } => 5,
        DeregisterState::Saving { .. } => 4,
        DeregisterState::Connecting { .. } => 3,
        DeregisterState::ConfirmingFiles { .. } => 2,
        DeregisterState::DeletingFiles => 1,
        DeregisterState::Ended => 0,
    }
}

/// The removal ends: every step leaves fewer steps to come.
pub proof fn law_deregister_ends(
    config: OzymemConfig,
    names: Seq<Seq<char>>,
    state: DeregisterState<Seq<char>>,
    event: DeregisterEvent<Seq<char>>,
)
    requires
        !(state is Ended),
    ensures
        steps_left(next_step(config, names, state, event).0) < steps_left(state),
{
}

/// The files of a project are deleted from the graph only after the project left
/// the configuration, and only after a question of its own.
pub proof fn law_files_go_last(
    config: OzymemConfig,
    names: Seq<Seq<char>>,
    state: DeregisterState<Seq<char>>,
    event: DeregisterEvent<Seq<char>>,
)
    ensures
        ({
            let (next, _, action) = next_step(config, names, state, event);
            &&& action is DeleteFiles ==> state is ConfirmingFiles && event
                == DeregisterEvent::<Seq<char>>::Answer(true)
            &&& next is ConfirmingFiles ==> state is Connecting
            &&& next is Connecting ==> state is Saving
            &&& next is Saving ==> removes(state, event) is Some
        }),
{
}

/// A watcher that runs is stopped before the project is removed: the last question
/// comes when no watcher was found, or after one was stopped.
pub proof fn law_no_watcher_is_left(
    config: OzymemConfig,
    names: Seq<Seq<char>>,
    state: DeregisterState<Seq<char>>,
    event: DeregisterEvent<Seq<char>>,
)
    requires
        next_step(config, names, state, event).0 is ConfirmingRemoval,
    ensures
        state is StoppingWatcher || (state is LookingForWatcher && event
            == DeregisterEvent::<Seq<char>>::Found(false)),
{
}

/// Only a registered project comes as far as the question for its removal.
pub proof fn law_unknown_projects_fail(
    config: OzymemConfig,
    name: Seq<char>,
    here: Option<Seq<char>>,
)
    requires
        config.projects@.len() > 0,
        config.project_path(name) is None,
    ensures
        first_step(config, Some(name), here).0 is Ended,
        first_step(config, Some(name), here).2 is Fail,
{
}

/// The project that a state of the removal is about.
pub open spec fn name_of(state: DeregisterState<Seq<char>>) -> Option<Seq<char>> {
    match state {
        DeregisterState::ConfirmingProject { name } => Some(name),
        DeregisterState::LookingForWatcher { name } => Some(name),
        DeregisterState::ConfirmingStop { name } => Some(name),
        DeregisterState::StoppingWatcher { name } => Some(name),
        DeregisterState::ConfirmingRemoval { name } => Some(name),
        DeregisterState::Saving { name, .. } => Some(name),
        _ => None,
    }
}

/// One removal is about one project: no step goes over to another one, and what is
/// looked for, stopped and removed is its watcher and its entry.
pub proof fn law_one_project_throughout(
    config: OzymemConfig,
    names: Seq<Seq<char>>,
    state: DeregisterState<Seq<char>>,
    event: DeregisterEvent<Seq<char>>,
)
    requires
        name_of(state) is Some,
    ensures
        ({
            let (next, said, action) = next_step(config, names, state, event);
            &&& name_of(next) is Some ==> name_of(next) == name_of(state)
            &&& match action {
                DeregisterAction::LookForWatcher(name) => name == name_of(state)->0,
                DeregisterAction::StopWatcher(name) => name == name_of(state)->0,
                DeregisterAction::Save(name) => name == name_of(state)->0,
                _ => true,
            }
            &&& next is Connecting ==> said == seq![
                "[SUCCESS] Registro del proyecto '"@ + name_of(state)->0
                    + "' eliminado de ozymem.toml."@,
            ]
        }),
{
}

/// The files that are deleted from the graph are those below the path that the
/// project had in the configuration when its removal was confirmed.
pub proof fn law_its_own_files_are_deleted(
    config: OzymemConfig,
    later: OzymemConfig,
    names: Seq<Seq<char>>,
    name: Seq<char>,
    path: Seq<char>,
)
    requires
        config.project_path(name) == Some(path),
    ensures
        ({
            let confirmed = next_step(
                config,
                names,
                DeregisterState::ConfirmingRemoval { name },
                DeregisterEvent::Answer(true),
            );
            let saved = next_step(later, names, confirmed.0, DeregisterEvent::Done);
            let connected = next_step(later, names, saved.0, DeregisterEvent::Found(true));
            let asked = next_step(later, names, connected.0, DeregisterEvent::Answer(true));
            &&& confirmed.2 == DeregisterAction::Save(name)
            &&& saved.2 is Connect
            &&& connected.2 is Confirm
            &&& asked.2 == DeregisterAction::DeleteFiles(path)
        }),
{
}

/// A question that is answered with no ends the removal, and so does a choice that
/// is not made; nothing is done then.
pub proof fn law_a_no_ends_the_removal(
    config: OzymemConfig,
    names: Seq<Seq<char>>,
    state: DeregisterState<Seq<char>>,
)
    ensures
        next_step(config, names, state, DeregisterEvent::Answer(false)).0 is Ended,
        next_step(config, names, state, DeregisterEvent::Answer(false)).2 is End,
        next_step(config, names, state, DeregisterEvent::Selected(None)).0 is Ended,
        next_step(config, names, state, DeregisterEvent::Selected(None)).2 is End,
{
}

/// Every yes leads on: to the watcher of the registered project, to its end, to the
/// removal, and to the files.
pub proof fn law_a_yes_leads_on(
    config: OzymemConfig,
    names: Seq<Seq<char>>,
    name: Seq<char>,
    path: Seq<char>,
)
    requires
        config.project_path(name) is Some,
    ensures
        next_step(
            config,
            names,
            DeregisterState::ConfirmingProject { name },
            DeregisterEvent::Answer(true),
        ).2 == DeregisterAction::LookForWatcher(name),
        next_step(
            config,
            names,
            DeregisterState::LookingForWatcher { name },
            DeregisterEvent::Found(true),
        ).0 == (DeregisterState::ConfirmingStop { name }),
        next_step(
            config,
            names,
            DeregisterState::LookingForWatcher { name },
            DeregisterEvent::Found(false),
        ).0 == (DeregisterState::ConfirmingRemoval { name }),
        next_step(
            config,
            names,
            DeregisterState::ConfirmingStop { name },
            DeregisterEvent::Answer(true),
        ).2 == DeregisterAction::StopWatcher(name),
        next_step(
            config,
            names,
            DeregisterState::StoppingWatcher { name },
            DeregisterEvent::Done,
        ).0 == (DeregisterState::ConfirmingRemoval { name }),
        next_step(
            config,
            names,
            DeregisterState::ConfirmingFiles { path },
            DeregisterEvent::Answer(true),
        ).2 == DeregisterAction::DeleteFiles(path),
{
}

/// A name that is given goes before the project of the current directory, which is
/// asked about; without either, a project is to be selected, and the one that is
/// selected is the one at its place in the list.
pub proof fn law_which_project_is_meant(
    config: OzymemConfig,
    given: Seq<char>,
    here: Seq<char>,
    other: Option<Seq<char>>,
    names: Seq<Seq<char>>,
    index: usize,
)
    requires
        config.projects@.len() > 0,
        config.project_path(given) is Some,
        config.project_path(names[index as int]) is Some,
    ensures
        first_step(config, Some(given), other).2 == DeregisterAction::LookForWatcher(given),
        first_step(config, Some(given), other).0 == (DeregisterState::LookingForWatcher {
            name: given,
        }),
        first_step(config, None, Some(here)).0 == (DeregisterState::ConfirmingProject {
            name: here,
        }),
        first_step(config, None, Some(here)).2 == (DeregisterAction::Confirm {
            prompt: "¿Desea desregistrar el proyecto '"@ + here + "' del directorio actual?"@,
            default: true,
        }),
        first_step(config, None, None).2 is Select,
        next_step(
            config,
            names,
            DeregisterState::Selecting,
            DeregisterEvent::Selected(Some(index)),
        ).2 == DeregisterAction::LookForWatcher(names[index as int]),
{
}

/// The number of files that were deleted is told as it was reported, and so is the
/// error where they could not be.
pub proof fn law_the_end_is_told(
    config: OzymemConfig,
    names: Seq<Seq<char>>,
    count: i64,
    error: Seq<char>,
)
    ensures
        next_step(
            config,
            names,
            DeregisterState::DeletingFiles,
            DeregisterEvent::Deleted(count),
        ).1 == seq![
            "[SUCCESS] Se eliminaron "@ + text::decimal(count as int)
                + " archivos y sus funciones asociadas del grafo."@,
        ],
        next_step(
            config,
            names,
            DeregisterState::DeletingFiles,
            DeregisterEvent::DeletionFailed(error),
        ).2 == DeregisterAction::Warn(
            "[ERROR] No se pudieron eliminar los archivos del grafo: "@ + error,
        ),
        config.projects@.len() == 0 ==> first_step(config, None, None).0 is Ended,
{
}

/// The removal of an entry is asked for with no as the answer that is taken for
/// granted, and the question names the project.
pub proof fn law_removal_is_asked_for(
    config: OzymemConfig,
    names: Seq<Seq<char>>,
    state: DeregisterState<Seq<char>>,
    event: DeregisterEvent<Seq<char>>,
    name: Seq<char>,
)
    requires
        next_step(config, names, state, event).0 == (DeregisterState::ConfirmingRemoval { name }),
    ensures
        next_step(config, names, state, event).2 == (DeregisterAction::Confirm {
            prompt: "¿Está seguro de que desea eliminar el registro de '"@ + name + "'?"@,
            default: false,
        }),
{
}

} // verus!
