//! The start of a project's environment: the graph, the server and the watcher.
//! The program around this library performs the actions and reports what became
//! of them.

use crate::config::OzymemConfig;
use crate::text;
use crate::text::{concat2, concat3, decimal_u64, no_lines, one_line, trim};
use vstd::prelude::*;

verus! {

/// How often the graph is tried again.
pub const MAX_ATTEMPTS: u32 = 5;

/// What became of the start of a service: it runs, with the content of its
/// process file if there is one, or it failed with an error.
#[derive(Debug, Clone, PartialEq, Eq)]
pub enum Service<T> {
    Running(Option<T>),
    Failed(T),
}

/// How far the start has come. A project is named by its place in the plan.
#[derive(Debug, Clone, PartialEq, Eq)]
pub enum InitState<T> {
    Choosing,
    Connecting { project: usize },
    StartingDocker { project: usize },
    Composing { project: usize },
    Retrying { project: usize, attempt: u32 },
    StartingServer { project: usize, database: Option<T> },
    StartingWatcher { project: usize, database: Option<T>, server: Service<T> },
    Ended,
}

/// What became of an action. A connection has the address of the graph.
#[derive(Debug, Clone, PartialEq, Eq)]
pub enum InitEvent<T> {
    Chosen(Option<usize>),
    Connection(Option<T>),
    CommandDone(bool),
    Started(Service<T>),
}

/// What is to be done next.
#[derive(Debug, Clone, PartialEq, Eq)]
pub enum InitAction<T> {
    Choose,
    Connect,
    StartDocker,
    ComposeUp(T),
    WaitAndConnect,
    StartServer,
    StartWatcher(T),
    End,
}

/// The projects that can be started, in the order of their names, with their
/// paths, and the directory in which the containers can be composed.
#[derive(Debug, Clone, PartialEq, Eq)]
pub struct InitPlan {
    pub names: Vec<String>,
    pub paths: Vec<String>,
    pub compose: Option<String>,
}

/// An `InitPlan` as mathematics has it.
#[verifier::ext_equal]
pub struct PlanModel {
    pub names: Seq<Seq<char>>,
    pub paths: Seq<Seq<char>>,
    pub compose: Option<Seq<char>>,
}

pub open spec fn text_option(value: Option<String>) -> Option<Seq<char>> {
    match value {
        Some(s) => Some(s@),
        None => None,
    }
}

impl InitPlan {
    pub open spec fn model(self) -> PlanModel {
        PlanModel {
            names: self.names.deep_view(),
            paths: self.paths.deep_view(),
            compose: text_option(self.compose),
        }
    }

    /// Every name has a path.
    pub open spec fn wf(self) -> bool {
        self.names@.len() == self.paths@.len()
    }
}

impl Service<String> {
    pub open spec fn model(self) -> Service<Seq<char>> {
        match self {
            Service::Running(pid) => Service::Running(text_option(pid)),
            Service::Failed(error) => Service::Failed(error@),
        }
    }
}

impl InitState<String> {
    pub open spec fn model(self) -> InitState<Seq<char>> {
        match self {
            InitState::Choosing => InitState::Choosing,
            InitState::Connecting { project } => InitState::Connecting { project },
            InitState::StartingDocker { project } => InitState::StartingDocker { project },
            InitState::Composing { project } => InitState::Composing { project },
            InitState::Retrying { project, attempt } => InitState::Retrying { project, attempt },
            InitState::StartingServer { project, database } => InitState::StartingServer {
                project,
                database: text_option(database),
            },
            InitState::StartingWatcher { project, database, server } => InitState::StartingWatcher {
                project,
                database: text_option(database),
                server: server.model(),
            },
            InitState::Ended => InitState::Ended,
        }
    }
}

impl InitEvent<String> {
    pub open spec fn model(self) -> InitEvent<Seq<char>> {
        match self {
            InitEvent::Chosen(choice) => InitEvent::Chosen(choice),
            InitEvent::Connection(uri) => InitEvent::Connection(text_option(uri)),
            InitEvent::CommandDone(ok) => InitEvent::CommandDone(ok),
            InitEvent::Started(service) => InitEvent::Started(service.model()),
        }
    }
}

impl InitAction<String> {
    pub open spec fn model(self) -> InitAction<Seq<char>> {
        match self {
            InitAction::Choose => InitAction::Choose,
            InitAction::Connect => InitAction::Connect,
            InitAction::StartDocker => InitAction::StartDocker,
            InitAction::ComposeUp(dir) => InitAction::ComposeUp(dir@),
            InitAction::WaitAndConnect => InitAction::WaitAndConnect,
            InitAction::StartServer => InitAction::StartServer,
            InitAction::StartWatcher(path) => InitAction::StartWatcher(path@),
            InitAction::End => InitAction::End,
        }
    }
}

/// A state, what is said on the way to it, and what is to be done in it.
pub type InitStep = (InitState<Seq<char>>, Seq<Seq<char>>, InitAction<Seq<char>>);

/// The plan for a configuration.
pub fn init_plan(config: &OzymemConfig) -> (r: InitPlan)
    ensures
        r.wf(),
        text::sorted_texts(r.names.deep_view()),
        r.names.deep_view().to_multiset() == crate::config::names_of(
            config.projects@,
        ).to_multiset(),
        forall|i: int|
            0 <= i < r.names@.len() ==> config.project_path((#[trigger] r.names@[i])@) == Some(
                r.paths@[i]@,
            ),
        text_option(r.compose) == config.project_path("ozymem"@),
{
    let names = config.sorted_project_names();
    let mut paths: Vec<String> = Vec::new();
    let mut i: usize = 0;
    proof {
        assert forall|k: int| 0 <= k < names@.len() implies config.project_path(
            (#[trigger] names@[k])@,
        ) is Some by {
            lemma_sorted_is_registered(*config, names.deep_view(), k);
        }
    }
    while i < names.len()
        invariant
            i <= names@.len(),
            paths@.len() == i,
            forall|k: int|
                0 <= k < names@.len() ==> config.project_path((#[trigger] names@[k])@) is Some,
            forall|k: int|
                0 <= k < i ==> config.project_path((#[trigger] names@[k])@) == Some(paths@[k]@),
        decreases names@.len() - i,
    {
        assert(config.project_path(names@[i as int]@) is Some);
        let path = match config.project(names[i].as_str()) {
            Some(path) => path.to_string(),
            None => "".to_string(),
        };
        paths.push(path);
        i += 1;
    }
    let compose = match config.project("ozymem") {
        Some(path) => Some(path.to_string()),
        None => None,
    };
    InitPlan { names, paths, compose }
}

proof fn lemma_sorted_is_registered(config: OzymemConfig, names: Seq<Seq<char>>, k: int)
    requires
        names.to_multiset() == crate::config::names_of(config.projects@).to_multiset(),
        0 <= k < names.len(),
    ensures
        config.project_path(names[k]) is Some,
{
    let all = crate::config::names_of(config.projects@);
    names.to_multiset_ensures();
    all.to_multiset_ensures();
    assert(names.contains(names[k]));
    assert(all.to_multiset().count(names[k]) > 0);
    assert(all.contains(names[k]));
    let j = choose|j: int| 0 <= j < all.len() && all[j] == names[k];
    assert(config.projects@[j].0@ == names[k]);
    crate::config::lemma_position_of(config.projects@, names[k]);
}

// ---------------------------------------------------------------------------
// Steps
// ---------------------------------------------------------------------------

/// The first step: nothing is done unless there is a project.
pub open spec fn first_step(plan: PlanModel) -> InitStep {
    if plan.names.len() == 0 {
        (
            InitState::Ended,
            seq![
                "[INFO] No hay proyectos registrados todavía. Usa 'ozymem register' para registrar uno."@,
            ],
            InitAction::End,
        )
    } else {
        (InitState::Choosing, Seq::empty(), InitAction::Choose)
    }
}

pub open spec fn service_text(service: Service<Seq<char>>) -> Seq<char> {
    match service {
        Service::Running(Some(pid)) => "ACTIVO (PID: "@ + text::trim_text(pid) + ")"@,
        Service::Running(None) => "ACTIVO"@,
        Service::Failed(error) => "ERROR ("@ + error + ")"@,
    }
}

pub open spec fn database_text(database: Option<Seq<char>>) -> Seq<char> {
    match database {
        Some(uri) => "CONECTADO ("@ + uri + ")"@,
        None => "MODO WAL (Resiliencia local / Desconectado)"@,
    }
}

/// The account of what was started.
pub open spec fn summary_lines(
    name: Seq<char>,
    path: Seq<char>,
    database: Option<Seq<char>>,
    server: Service<Seq<char>>,
    watcher: Service<Seq<char>>,
) -> Seq<Seq<char>> {
    seq![
        "[SUCCESS] ¡Entorno Ozymem inicializado con éxito!"@,
        ""@,
        "Resumen de Servicios:"@,
        "  ✔ Docker / Memgraph: "@ + database_text(database),
        "  ✔ Servidor MCP:      "@ + service_text(server),
        "  ✔ Watcher Proyecto:  "@ + service_text(watcher) + " -> "@ + path,
        ""@,
        "Para auditar los registros en tiempo real, utiliza:"@,
        "  - Logs del Watcher:  ozymem logs "@ + name,
        "  - Logs del MCP:      ozymem logs mcp"@,
    ]
}

/// The step after an event. An event that the state does not wait for ends the
/// start.
pub open spec fn next_step(
    plan: PlanModel,
    state: InitState<Seq<char>>,
    event: InitEvent<Seq<char>>,
) -> InitStep {
    match (state, event) {
        (InitState::Choosing, InitEvent::Chosen(Some(project))) => (
            InitState::Connecting { project },
            seq![
                "[INFO] Inicializando entorno para el proyecto '"@ + plan.names[project as int]
                    + "'..."@,
            ],
            InitAction::Connect,
        ),
        (InitState::Choosing, InitEvent::Chosen(None)) => (
            InitState::Ended,
            seq!["Operación cancelada."@],
            InitAction::End,
        ),
        (InitState::Connecting { project }, InitEvent::Connection(Some(uri))) => (
            InitState::StartingServer { project, database: Some(uri) },
            Seq::empty(),
            InitAction::StartServer,
        ),
        (InitState::Connecting { project }, InitEvent::Connection(None)) => (
            InitState::StartingDocker { project },
            seq![
                "[INFO] No se pudo conectar a Memgraph. Intentando arrancar contenedores Docker..."@,
            ],
            InitAction::StartDocker,
        ),
        (InitState::StartingDocker { project }, InitEvent::CommandDone(ok)) => match plan.compose {
            Some(dir) => if ok {
                (
                    InitState::Retrying { project, attempt: 1 },
                    Seq::empty(),
                    InitAction::WaitAndConnect,
                )
            } else {
                (InitState::Composing { project }, Seq::empty(), InitAction::ComposeUp(dir))
            },
            None => (
                InitState::Retrying { project, attempt: 1 },
                Seq::empty(),
                InitAction::WaitAndConnect,
            ),
        },
        (InitState::Composing { project }, InitEvent::CommandDone(_)) => (
            InitState::Retrying { project, attempt: 1 },
            Seq::empty(),
            InitAction::WaitAndConnect,
        ),
        (InitState::Retrying { project, attempt: _ }, InitEvent::Connection(Some(uri))) => (
            InitState::StartingServer { project, database: Some(uri) },
            Seq::empty(),
            InitAction::StartServer,
        ),
        (InitState::Retrying { project, attempt }, InitEvent::Connection(None)) => {
            let said = seq![
                "[INFO] Re-intentando conexión a Memgraph (intento "@ + text::decimal(
                    attempt as int,
                ) + "/5)..."@,
            ];
            if attempt < MAX_ATTEMPTS {
                (
                    InitState::Retrying { project, attempt: (attempt + 1) as u32 },
                    said,
                    InitAction::WaitAndConnect,
                )
            } else {
                (
                    InitState::StartingServer { project, database: None },
                    said,
                    InitAction::StartServer,
                )
            }
        },
        (InitState::StartingServer { project, database }, InitEvent::Started(server)) => (
            InitState::StartingWatcher { project, database, server },
            Seq::empty(),
            InitAction::StartWatcher(plan.paths[project as int]),
        ),
        (
            InitState::StartingWatcher { project, database, server },
            InitEvent::Started(watcher),
        ) => (
            InitState::Ended,
            summary_lines(
                plan.names[project as int],
                plan.paths[project as int],
                database,
                server,
                watcher,
            ),
            InitAction::End,
        ),
        _ => (InitState::Ended, Seq::empty(), InitAction::End),
    }
}

/// The project of a state.
pub open spec fn project_of<T>(state: InitState<T>) -> Option<usize> {
    match state {
        InitState::Choosing | InitState::Ended => None,
        InitState::Connecting { project } => Some(project),
        InitState::StartingDocker { project } => Some(project),
        InitState::Composing { project } => Some(project),
        InitState::Retrying { project, .. } => Some(project),
        InitState::StartingServer { project, .. } => Some(project),
        InitState::StartingWatcher { project, .. } => Some(project),
    }
}

/// The state speaks of a project of the plan.
pub open spec fn state_fits<T>(count: nat, state: InitState<T>) -> bool {
    match project_of(state) {
        Some(project) => project < count,
        None => true,
    }
}

/// The choice is one of those that were offered.
pub open spec fn event_fits<T>(count: nat, event: InitEvent<T>) -> bool {
    match event {
        InitEvent::Chosen(Some(project)) => project < count,
        _ => true,
    }
}

fn service_line(service: &Service<String>) -> (r: String)
    ensures
        r@ == service_text(service.model()),
{
    match service {
        Service::Running(Some(pid)) => concat3(
            "ACTIVO (PID: ",
            trim(pid.as_str()).as_str(),
            ")",
        ),
        Service::Running(None) => "ACTIVO".to_string(),
        Service::Failed(error) => concat3("ERROR (", error.as_str(), ")"),
    }
}

fn summary(
    name: &str,
    path: &str,
    database: &Option<String>,
    server: &Service<String>,
    watcher: &Service<String>,
) -> (r: Vec<String>)
    ensures
        r.deep_view() == summary_lines(
            name@,
            path@,
            text_option(*database),
            server.model(),
            watcher.model(),
        ),
{
    let graph = match database {
        Some(uri) => concat3("CONECTADO (", uri.as_str(), ")"),
        None => "MODO WAL (Resiliencia local / Desconectado)".to_string(),
    };
    let mut watcher_text = concat3("  ✔ Watcher Proyecto:  ", service_line(watcher).as_str(), " -> ");
    watcher_text.append(path);
    let r = vec![
        "[SUCCESS] ¡Entorno Ozymem inicializado con éxito!".to_string(),
        "".to_string(),
        "Resumen de Servicios:".to_string(),
        concat2("  ✔ Docker / Memgraph: ", graph.as_str()),
        concat2("  ✔ Servidor MCP:      ", service_line(server).as_str()),
        watcher_text,
        "".to_string(),
        "Para auditar los registros en tiempo real, utiliza:".to_string(),
        concat2("  - Logs del Watcher:  ozymem logs ", name),
        "  - Logs del MCP:      ozymem logs mcp".to_string(),
    ];
    assert(r.deep_view() =~= summary_lines(
        name@,
        path@,
        text_option(*database),
        server.model(),
        watcher.model(),
    ));
    r
}

/// The first step.
pub fn start_init(plan: &InitPlan) -> (r: (InitState<String>, Vec<String>, InitAction<String>))
    ensures
        (r.0.model(), r.1.deep_view(), r.2.model()) == first_step(plan.model()),
{
    if plan.names.len() == 0 {
        (
            InitState::Ended,
            one_line(
                "[INFO] No hay proyectos registrados todavía. Usa 'ozymem register' para registrar uno.".to_string(),
            ),
            InitAction::End,
        )
    } else {
        (InitState::Choosing, no_lines(), InitAction::Choose)
    }
}

/// The step after an event.
pub fn resume_init(plan: &InitPlan, state: InitState<String>, event: InitEvent<String>) -> (r: (
    InitState<String>,
    Vec<String>,
    InitAction<String>,
))
    requires
        plan.wf(),
        state_fits(plan.names@.len(), state),
        event_fits(plan.names@.len(), event),
    ensures
        (r.0.model(), r.1.deep_view(), r.2.model()) == next_step(
            plan.model(),
            state.model(),
            event.model(),
        ),
        state_fits(plan.names@.len(), r.0),
{
    match (state, event) {
        (InitState::Choosing, InitEvent::Chosen(Some(project))) => (
            InitState::Connecting { project },
            one_line(
                concat3(
                    "[INFO] Inicializando entorno para el proyecto '",
                    plan.names[project].as_str(),
                    "'...",
                ),
            ),
            InitAction::Connect,
        ),
        (InitState::Choosing, InitEvent::Chosen(None)) => (
            InitState::Ended,
            one_line("Operación cancelada.".to_string()),
            InitAction::End,
        ),
        (InitState::Connecting { project }, InitEvent::Connection(Some(uri))) => (
            InitState::StartingServer { project, database: Some(uri) },
            no_lines(),
            InitAction::StartServer,
        ),
        (InitState::Connecting { project }, InitEvent::Connection(None)) => (
            InitState::StartingDocker { project },
            one_line(
                "[INFO] No se pudo conectar a Memgraph. Intentando arrancar contenedores Docker...".to_string(),
            ),
            InitAction::StartDocker,
        ),
        (InitState::StartingDocker { project }, InitEvent::CommandDone(ok)) => match &plan.compose {
            Some(dir) => {
                if ok {
                    (
                        InitState::Retrying { project, attempt: 1 },
                        no_lines(),
                        InitAction::WaitAndConnect,
                    )
                } else {
                    (
                        InitState::Composing { project },
                        no_lines(),
                        InitAction::ComposeUp(dir.as_str().to_string()),
                    )
                }
            },
            None => (
                InitState::Retrying { project, attempt: 1 },
                no_lines(),
                InitAction::WaitAndConnect,
            ),
        },
        (InitState::Composing { project }, InitEvent::CommandDone(_)) => (
            InitState::Retrying { project, attempt: 1 },
            no_lines(),
            InitAction::WaitAndConnect,
        ),
        (InitState::Retrying { project, attempt: _ }, InitEvent::Connection(Some(uri))) => (
            InitState::StartingServer { project, database: Some(uri) },
            no_lines(),
            InitAction::StartServer,
        ),
        (InitState::Retrying { project, attempt }, InitEvent::Connection(None)) => {
            let said = one_line(
                concat3(
                    "[INFO] Re-intentando conexión a Memgraph (intento ",
                    decimal_u64(attempt as u64).as_str(),
                    "/5)...",
                ),
            );
            if attempt < MAX_ATTEMPTS {
                (
                    InitState::Retrying { project, attempt: attempt + 1 },
                    said,
                    InitAction::WaitAndConnect,
                )
            } else {
                (
                    InitState::StartingServer { project, database: None },
                    said,
                    InitAction::StartServer,
                )
            }
        },
        (InitState::StartingServer { project, database }, InitEvent::Started(server)) => (
            InitState::StartingWatcher { project, database, server },
            no_lines(),
            InitAction::StartWatcher(plan.paths[project].as_str().to_string()),
        ),
        (
            InitState::StartingWatcher { project, database, server },
            InitEvent::Started(watcher),
        ) => (
            InitState::Ended,
            summary(
                plan.names[project].as_str(),
                plan.paths[project].as_str(),
                &database,
                &server,
                &watcher,
            ),
            InitAction::End,
        ),
        _ => (InitState::Ended, no_lines(), InitAction::End),
    }
}

// ---------------------------------------------------------------------------
// Laws
// ---------------------------------------------------------------------------

/// How many steps there can still be.
pub open spec fn steps_left(state: InitState<Seq<char>>) -> nat {
    match state {
        InitState::Choosing => 11,
        InitState::Connecting { .. } => 10,
        InitState::StartingDocker { .. } => 9,
        InitState::Composing { .. } => 8,
        InitState::Retrying { attempt, .. } => if attempt <= MAX_ATTEMPTS {
            (MAX_ATTEMPTS - attempt + 3) as nat
        } else {
            3
        },
        InitState::StartingServer { .. } => 2,
        InitState::StartingWatcher { .. } => 1,
        InitState::Ended => 0,
    }
}

/// The state waits for the event.
pub open spec fn waits_for<T>(state: InitState<T>, event: InitEvent<T>) -> bool {
    match state {
        InitState::Choosing => event is Chosen,
        InitState::Connecting { .. } | InitState::Retrying { .. } => event is Connection,
        InitState::StartingDocker { .. } | InitState::Composing { .. } => event is CommandDone,
        InitState::StartingServer { .. } | InitState::StartingWatcher { .. } => event is Started,
        InitState::Ended => false,
    }
}

/// The start ends, whatever happens: every step leaves fewer steps to come.
pub proof fn law_init_ends(
    plan: PlanModel,
    state: InitState<Seq<char>>,
    event: InitEvent<Seq<char>>,
)
    requires
        !(state is Ended),
    ensures
        steps_left(next_step(plan, state, event).0) < steps_left(state),
{
}

/// Once a project is chosen, the server and the watcher are started, whether or
/// not the graph can be reached: no event that is waited for ends the start
/// before that.
pub proof fn law_services_are_started(
    plan: PlanModel,
    state: InitState<Seq<char>>,
    event: InitEvent<Seq<char>>,
)
    requires
        project_of(state) is Some,
        waits_for(state, event),
    ensures
        state is StartingWatcher <==> next_step(plan, state, event).0 is Ended,
        !(state is StartingWatcher) ==> project_of(next_step(plan, state, event).0) == project_of(
            state,
        ),
{
}

/// The account at the end is of the project that was chosen: its own path is
/// watched, and what became of the graph, of the server and of the watcher is told
/// as it was reported.
pub proof fn law_what_is_started_is_told(
    plan: PlanModel,
    project: usize,
    database: Option<Seq<char>>,
    server: Service<Seq<char>>,
    watcher: Service<Seq<char>>,
)
    ensures
        ({
            let (middle, _, action) = next_step(
                plan,
                InitState::StartingServer { project, database },
                InitEvent::Started(server),
            );
            let (end, said, _) = next_step(plan, middle, InitEvent::Started(watcher));
            &&& action == InitAction::StartWatcher(plan.paths[project as int])
            &&& end is Ended
            &&& said.contains(
                "  ✔ Docker / Memgraph: "@ + (match database {
                    Some(uri) => "CONECTADO ("@ + uri + ")"@,
                    None => "MODO WAL (Resiliencia local / Desconectado)"@,
                }),
            )
            &&& said.contains("  ✔ Servidor MCP:      "@ + service_text(server))
            &&& said.contains(
                "  ✔ Watcher Proyecto:  "@ + service_text(watcher) + " -> "@
                    + plan.paths[project as int],
            )
            &&& said.contains("  - Logs del Watcher:  ozymem logs "@ + plan.names[project as int])
            &&& said.len() == 10
            &&& said[0] == "[SUCCESS] ¡Entorno Ozymem inicializado con éxito!"@
            &&& said[1] == ""@ && said[6] == ""@
            &&& said[2] == "Resumen de Servicios:"@
            &&& said[7] == "Para auditar los registros en tiempo real, utiliza:"@
            &&& said[9] == "  - Logs del MCP:      ozymem logs mcp"@
        }),
{
    let middle = next_step(
        plan,
        InitState::StartingServer { project, database },
        InitEvent::Started(server),
    ).0;
    let said = next_step(plan, middle, InitEvent::Started(watcher)).1;
    assert(said[3] == "  ✔ Docker / Memgraph: "@ + (match database {
        Some(uri) => "CONECTADO ("@ + uri + ")"@,
        None => "MODO WAL (Resiliencia local / Desconectado)"@,
    }));
    assert(said[4] == "  ✔ Servidor MCP:      "@ + service_text(server));
    assert(said[5] == "  ✔ Watcher Proyecto:  "@ + service_text(watcher) + " -> "@
        + plan.paths[project as int]);
    assert(said[8] == "  - Logs del Watcher:  ozymem logs "@ + plan.names[project as int]);
}

/// A service that runs is shown with its process, if that is known, and one that
/// failed with its error.
pub proof fn law_services_are_shown(pid: Seq<char>, error: Seq<char>)
    ensures
        service_text(Service::Running(Some(pid))) == "ACTIVO (PID: "@ + text::trim_text(pid)
            + ")"@,
        service_text(Service::Running(None)) == "ACTIVO"@,
        service_text(Service::Failed(error)) == "ERROR ("@ + error + ")"@,
{
}

/// A graph that answers, at once or after it was tried again, is the one that the
/// account names; Docker is started only if it does not answer at once.
pub proof fn law_the_graph_that_answers_is_used(
    plan: PlanModel,
    project: usize,
    attempt: u32,
    uri: Seq<char>,
)
    ensures
        next_step(
            plan,
            InitState::Connecting { project },
            InitEvent::Connection(Some(uri)),
        ) == (
            InitState::<Seq<char>>::StartingServer { project, database: Some(uri) },
            Seq::<Seq<char>>::empty(),
            InitAction::<Seq<char>>::StartServer,
        ),
        next_step(
            plan,
            InitState::Retrying { project, attempt },
            InitEvent::Connection(Some(uri)),
        ) == (
            InitState::<Seq<char>>::StartingServer { project, database: Some(uri) },
            Seq::<Seq<char>>::empty(),
            InitAction::<Seq<char>>::StartServer,
        ),
        next_step(plan, InitState::Connecting { project }, InitEvent::Connection(None)).2
            is StartDocker,
{
}

/// A graph that does not answer is tried five times after Docker was started, and
/// then the services are started without it. The containers are composed only if
/// Docker could not start them and there is a directory to compose them in.
pub proof fn law_the_graph_is_tried_five_times(plan: PlanModel, project: usize, started: bool)
    ensures
        ({
            let (after_docker, _, action) = next_step(
                plan,
                InitState::StartingDocker { project },
                InitEvent::CommandDone(started),
            );
            &&& (!started && plan.compose is Some) ==> action == InitAction::ComposeUp(
                plan.compose->0,
            ) && after_docker == (InitState::<Seq<char>>::Composing { project })
            &&& (started || plan.compose is None) ==> action is WaitAndConnect && after_docker == (
            InitState::<Seq<char>>::Retrying { project, attempt: 1 })
        }),
        forall|ok: bool| #[trigger]
            next_step(plan, InitState::Composing { project }, InitEvent::CommandDone(ok)).0 == (
            InitState::<Seq<char>>::Retrying { project, attempt: 1 }),
        forall|attempt: u32|
            1 <= attempt < 5 ==> ({
                let (next, said, action) = #[trigger] next_step(
                    plan,
                    InitState::Retrying { project, attempt },
                    InitEvent::Connection(None),
                );
                &&& next == (InitState::<Seq<char>>::Retrying {
                    project,
                    attempt: (attempt + 1) as u32,
                })
                &&& said == seq![
                    "[INFO] Re-intentando conexión a Memgraph (intento "@ + text::decimal(
                        attempt as int,
                    ) + "/5)..."@,
                ]
                &&& action is WaitAndConnect
            }),
        ({
            let (next, _, action) = next_step(
                plan,
                InitState::Retrying { project, attempt: 5 },
                InitEvent::Connection(None),
            );
            &&& next == (InitState::<Seq<char>>::StartingServer { project, database: None })
            &&& action is StartServer
        }),
{
}

/// Nothing is started where there is no project, or where none is chosen; the
/// project that is chosen is the one that is named.
pub proof fn law_the_chosen_project_is_started(plan: PlanModel, project: usize)
    ensures
        plan.names.len() == 0 <==> first_step(plan).0 is Ended,
        plan.names.len() > 0 ==> first_step(plan).2 is Choose,
        next_step(plan, InitState::Choosing, InitEvent::Chosen(None)).2 is End,
        next_step(plan, InitState::Choosing, InitEvent::Chosen(None)).1 == seq![
            "Operación cancelada."@,
        ],
        next_step(plan, InitState::Choosing, InitEvent::Chosen(Some(project))) == (
            InitState::<Seq<char>>::Connecting { project },
            seq![
                "[INFO] Inicializando entorno para el proyecto '"@ + plan.names[project as int]
                    + "'..."@,
            ],
            InitAction::<Seq<char>>::Connect,
        ),
{
}

/// A state fits a plan if it is about a project of the plan, or about none, and so does a
/// choice.
pub proof fn law_what_fits_a_plan(count: nat, project: usize, attempt: u32)
    ensures
        state_fits(count, InitState::<Seq<char>>::Choosing),
        state_fits(count, InitState::<Seq<char>>::Ended),
        state_fits(count, InitState::<Seq<char>>::Connecting { project }) <==> project < count,
        state_fits(count, InitState::<Seq<char>>::Retrying { project, attempt }) <==> project
            < count,
        event_fits(count, InitEvent::<Seq<char>>::Chosen(Some(project))) <==> project < count,
        event_fits(count, InitEvent::<Seq<char>>::Chosen(None)),
{
}

} // verus!
