//! The examination of the environment: the configuration, Docker and its
//! containers, the connection to the graph, the environment variables.

use crate::json::{JsonModel, JsonValue};
use crate::records::{default_memgraph_database, default_memgraph_uri};
use crate::text;
use crate::text::{all_lines, concat2, concat3, has_text, lines, lowercase, trim};
use vstd::prelude::*;

verus! {

/// What was found when the environment was examined.
#[derive(Debug, Clone, PartialEq, Eq)]
pub struct DoctorFacts {
    pub config_exists: bool,
    /// The configuration could be read.
    pub config_readable: bool,
    /// What Docker said of its version, if it could be called.
    pub docker_version: Option<String>,
    /// Docker gave an account of itself.
    pub docker_running: bool,
    /// Docker's list of containers, if it gave one.
    pub containers: Option<String>,
    pub db_connected: bool,
    pub db_ping_ok: bool,
    pub env_uri: Option<String>,
    pub env_user: Option<String>,
    pub env_password_set: bool,
    pub env_database: Option<String>,
}

/// The line of a container list is on the container of the user interface.
pub open spec fn on_lab(line: Seq<char>) -> bool {
    text::contains_text(line, "ozymem-memgraph-lab"@)
}

/// The line of a container list is on the container of the graph.
pub open spec fn on_memgraph(line: Seq<char>) -> bool {
    !on_lab(line) && text::contains_text(line, "ozymem-memgraph"@)
}

/// The line of a container list says that the container is up.
pub open spec fn says_up(line: Seq<char>) -> bool {
    text::contains_text(text::unicode_lowercase(line), "up"@)
}

/// The last line on a container says that it is up.
pub open spec fn last_says_up(lines: Seq<Seq<char>>, on: spec_fn(Seq<char>) -> bool) -> bool
    decreases lines.len(),
{
    if lines.len() == 0 {
        false
    } else if on(lines.last()) {
        says_up(lines.last())
    } else {
        last_says_up(lines.drop_last(), on)
    }
}

pub open spec fn container_lines(facts: DoctorFacts) -> Seq<Seq<char>> {
    match facts.containers {
        Some(list) => if facts.docker_running {
            text::lines_of(list@)
        } else {
            Seq::empty()
        },
        None => Seq::empty(),
    }
}

impl DoctorFacts {
    pub open spec fn config_valid(self) -> bool {
        self.config_exists && self.config_readable
    }

    pub open spec fn memgraph_up(self) -> bool {
        last_says_up(container_lines(self), |line: Seq<char>| on_memgraph(line))
    }

    pub open spec fn lab_up(self) -> bool {
        last_says_up(container_lines(self), |line: Seq<char>| on_lab(line))
    }

    /// Everything that is needed is there.
    pub open spec fn sound(self) -> bool {
        self.config_valid() && self.docker_running && self.memgraph_up() && self.db_ping_ok
    }
}

/// Whether the containers of the graph and of its user interface are up, from
/// Docker's list of containers.
pub fn containers_up(facts: &DoctorFacts) -> (r: (bool, bool))
    ensures
        r == (facts.memgraph_up(), facts.lab_up()),
{
    let ghost memgraph = |line: Seq<char>| on_memgraph(line);
    let ghost lab = |line: Seq<char>| on_lab(line);
    if !facts.docker_running {
        return (false, false);
    }
    match &facts.containers {
        None => (false, false),
        Some(list) => {
            let all = lines(list.as_str());
            let ghost texts = all.deep_view();
            let mut memgraph_up = false;
            let mut lab_up = false;
            let mut i: usize = 0;
            while i < all.len()
                invariant
                    i <= all@.len(),
                    texts == all.deep_view(),
                    memgraph == (|line: Seq<char>| on_memgraph(line)),
                    lab == (|line: Seq<char>| on_lab(line)),
                    memgraph_up == last_says_up(texts.take(i as int), memgraph),
                    lab_up == last_says_up(texts.take(i as int), lab),
                decreases all@.len() - i,
            {
                proof {
                    assert(texts.take(i + 1).drop_last() =~= texts.take(i as int));
                    assert(texts.take(i + 1).last() == all@[i as int]@);
                }
                let line = all[i].as_str();
                if has_text(line, "ozymem-memgraph-lab") {
                    lab_up = has_text(lowercase(line).as_str(), "up");
                } else if has_text(line, "ozymem-memgraph") {
                    memgraph_up = has_text(lowercase(line).as_str(), "up");
                }
                i += 1;
            }
            assert(texts.take(all@.len() as int) =~= texts);
            (memgraph_up, lab_up)
        },
    }
}

/// Whether everything that is needed is there.
pub fn is_healthy(facts: &DoctorFacts) -> (r: bool)
    ensures
        r == facts.sound(),
{
    let (memgraph_up, _) = containers_up(facts);
    facts.config_exists && facts.config_readable && facts.docker_running && memgraph_up
        && facts.db_ping_ok
}

// ---------------------------------------------------------------------------
// In JSON
// ---------------------------------------------------------------------------

pub open spec fn optional_text(value: Option<String>) -> JsonModel {
    match value {
        Some(s) => JsonModel::Text(s@),
        None => JsonModel::Null,
    }
}

fn optional_json(value: &Option<String>) -> (r: JsonValue)
    ensures
        r.model() == optional_text(*value),
{
    match value {
        Some(s) => JsonValue::text(s.as_str()),
        None => JsonValue::Null,
    }
}

fn truth(b: bool) -> (r: JsonValue)
    ensures
        r.model() == JsonModel::Bool(b),
{
    JsonValue::Bool(b)
}

pub open spec fn doctor_model(facts: DoctorFacts) -> JsonModel {
    JsonModel::object().with("config_exists"@, JsonModel::Bool(facts.config_exists)).with(
        "config_valid"@,
        JsonModel::Bool(facts.config_valid()),
    ).with("docker_installed"@, JsonModel::Bool(facts.docker_version is Some)).with(
        "docker_running"@,
        JsonModel::Bool(facts.docker_running),
    ).with("memgraph_container_running"@, JsonModel::Bool(facts.memgraph_up())).with(
        "lab_container_running"@,
        JsonModel::Bool(facts.lab_up()),
    ).with("db_connected"@, JsonModel::Bool(facts.db_connected)).with(
        "db_ping_ok"@,
        JsonModel::Bool(facts.db_ping_ok),
    ).with(
        "env_vars"@,
        JsonModel::object().with("MEMGRAPH_URI"@, optional_text(facts.env_uri)).with(
            "MEMGRAPH_USER"@,
            optional_text(facts.env_user),
        ).with("MEMGRAPH_PASSWORD_SET"@, JsonModel::Bool(facts.env_password_set)).with(
            "MEMGRAPH_DATABASE"@,
            optional_text(facts.env_database),
        ),
    )
}

/// The examination in JSON. The password itself is not in it.
pub fn doctor_json(facts: &DoctorFacts) -> (r: JsonValue)
    ensures
        r.model() == doctor_model(*facts),
{
    let (memgraph_up, lab_up) = containers_up(facts);
    JsonValue::object().with("config_exists", truth(facts.config_exists)).with(
        "config_valid",
        truth(facts.config_exists && facts.config_readable),
    ).with("docker_installed", truth(facts.docker_version.is_some())).with(
        "docker_running",
        truth(facts.docker_running),
    ).with("memgraph_container_running", truth(memgraph_up)).with(
        "lab_container_running",
        truth(lab_up),
    ).with("db_connected", truth(facts.db_connected)).with("db_ping_ok", truth(facts.db_ping_ok)).with(
        "env_vars",
        JsonValue::object().with("MEMGRAPH_URI", optional_json(&facts.env_uri)).with(
            "MEMGRAPH_USER",
            optional_json(&facts.env_user),
        ).with("MEMGRAPH_PASSWORD_SET", truth(facts.env_password_set)).with(
            "MEMGRAPH_DATABASE",
            optional_json(&facts.env_database),
        ),
    )
}

// ---------------------------------------------------------------------------
// In words
// ---------------------------------------------------------------------------

pub open spec fn config_line(facts: DoctorFacts) -> Seq<char> {
    if facts.config_valid() {
        "  [✔] Configuración Local: Encontrada y válida (.ozymem.toml)"@
    } else if facts.config_exists {
        "  [✘] Configuración Local: Encontrada pero INVÁLIDA (.ozymem.toml)"@
    } else {
        "  [✘] Configuración Local: No encontrada (.ozymem.toml no existe)"@
    }
}

pub open spec fn client_line(facts: DoctorFacts) -> Seq<char> {
    match facts.docker_version {
        Some(version) => "  [✔] Cliente Docker: Instalado ("@ + text::trim_text(version@) + ")"@,
        None => "  [✘] Cliente Docker: No detectado en el PATH"@,
    }
}

pub open spec fn daemon_line(facts: DoctorFacts) -> Seq<char> {
    if facts.docker_running {
        "  [✔] Docker Daemon: Activo y en ejecución"@
    } else {
        "  [✘] Docker Daemon: Inactivo o inaccesible (¿está Docker abierto?)"@
    }
}

pub open spec fn container_report(facts: DoctorFacts) -> Seq<Seq<char>> {
    if facts.docker_running {
        seq![
            if facts.memgraph_up() {
                "  [✔] Contenedor ozymem-memgraph: ACTIVO / EJECUTÁNDOSE"@
            } else {
                "  [✘] Contenedor ozymem-memgraph: DETENIDO o INEXISTENTE (usa 'ozymem init' para inicializarlo)"@
            },
            if facts.lab_up() {
                "  [✔] Contenedor ozymem-memgraph-lab: ACTIVO / EJECUTÁNDOSE"@
            } else {
                "  [✘] Contenedor ozymem-memgraph-lab: DETENIDO o INEXISTENTE"@
            },
        ]
    } else {
        seq![
            "  [-] Contenedores de Memgraph: No se pudo verificar (Docker no se está ejecutando)"@,
        ]
    }
}

pub open spec fn connection_line(facts: DoctorFacts) -> Seq<char> {
    if facts.db_ping_ok {
        "  [✔] Conexión al Cerebro (Memgraph): EXITOSA (Ping respondido)"@
    } else if facts.db_connected {
        "  [✘] Conexión al Cerebro (Memgraph): Establecida pero falló el PING (¿puerto bloqueado?)"@
    } else {
        "  [✘] Conexión al Cerebro (Memgraph): CONEXIÓN FALLIDA (¿está Memgraph encendido?)"@
    }
}

pub open spec fn or_default(value: Option<String>, default: Seq<char>) -> Seq<char> {
    match value {
        Some(s) => s@,
        None => default + " (Por defecto)"@,
    }
}

pub open spec fn variable_lines(facts: DoctorFacts) -> Seq<Seq<char>> {
    seq![
        ""@,
        "Variables de Entorno:"@,
        "  - MEMGRAPH_URI:      "@ + or_default(facts.env_uri, "127.0.0.1:7687"@),
        "  - MEMGRAPH_USER:     "@ + match facts.env_user {
            Some(user) => user@,
            None => "[NO ESTABLECIDA - REQUERIDA]"@,
        },
        "  - MEMGRAPH_PASSWORD: "@ + if facts.env_password_set {
            "[ESTABLECIDA]"@
        } else {
            "[NO ESTABLECIDA - REQUERIDA]"@
        },
        "  - MEMGRAPH_DATABASE: "@ + or_default(facts.env_database, "memgraph"@),
        ""@,
    ]
}

/// The line, if the condition holds.
pub open spec fn line_if(condition: bool, line: Seq<char>) -> Seq<Seq<char>> {
    if condition {
        seq![line]
    } else {
        Seq::empty()
    }
}

pub open spec fn verdict_lines(facts: DoctorFacts) -> Seq<Seq<char>> {
    if facts.sound() {
        seq!["¡ENHORABUENA! Tu entorno de Ozymem está en perfectas condiciones."@]
    } else {
        seq![
            "ADVERTENCIA: Se han detectado problemas en el entorno."@,
            "Soluciones sugeridas:"@,
        ] + line_if(
            !facts.config_exists,
            "  -> Ejecuta un comando básico de ozymem o crea el archivo .ozymem.toml en tu perfil."@,
        ) + line_if(
            !facts.docker_running,
            "  -> Asegúrate de que la aplicación Docker Desktop o el servicio Docker esté iniciado."@,
        ) + line_if(
            facts.docker_running && !facts.memgraph_up(),
            "  -> Ejecuta 'ozymem init' para arrancar los contenedores del ecosistema."@,
        ) + line_if(
            !facts.db_ping_ok && facts.memgraph_up(),
            "  -> Verifica que el puerto 7687 no esté ocupado por otra base de datos."@,
        )
    }
}

/// The whole examination in words.
pub open spec fn doctor_lines(facts: DoctorFacts) -> Seq<Seq<char>> {
    seq![
        "========================================="@,
        "     OZYMEM SYSTEM ENVIRONMENT DOCTOR    "@,
        "========================================="@,
        ""@,
        config_line(facts),
        client_line(facts),
        daemon_line(facts),
    ] + container_report(facts) + seq![connection_line(facts)] + variable_lines(facts)
        + verdict_lines(facts) + seq!["========================================="@]
}

fn first_lines(facts: &DoctorFacts) -> (r: Vec<String>)
    ensures
        r.deep_view() == seq![
            "========================================="@,
            "     OZYMEM SYSTEM ENVIRONMENT DOCTOR    "@,
            "========================================="@,
            ""@,
            config_line(*facts),
            client_line(*facts),
            daemon_line(*facts),
        ],
{
    let config = if facts.config_exists && facts.config_readable {
        "  [✔] Configuración Local: Encontrada y válida (.ozymem.toml)".to_string()
    } else if facts.config_exists {
        "  [✘] Configuración Local: Encontrada pero INVÁLIDA (.ozymem.toml)".to_string()
    } else {
        "  [✘] Configuración Local: No encontrada (.ozymem.toml no existe)".to_string()
    };
    let client = match &facts.docker_version {
        Some(version) => concat3(
            "  [✔] Cliente Docker: Instalado (",
            trim(version.as_str()).as_str(),
            ")",
        ),
        None => "  [✘] Cliente Docker: No detectado en el PATH".to_string(),
    };
    let daemon = if facts.docker_running {
        "  [✔] Docker Daemon: Activo y en ejecución".to_string()
    } else {
        "  [✘] Docker Daemon: Inactivo o inaccesible (¿está Docker abierto?)".to_string()
    };
    vec![
        "=========================================".to_string(),
        "     OZYMEM SYSTEM ENVIRONMENT DOCTOR    ".to_string(),
        "=========================================".to_string(),
        "".to_string(),
        config,
        client,
        daemon,
    ]
}

fn container_texts(facts: &DoctorFacts) -> (r: Vec<String>)
    ensures
        r.deep_view() == container_report(*facts),
{
    let (memgraph_up, lab_up) = containers_up(facts);
    let r = if facts.docker_running {
        vec![
            if memgraph_up {
                "  [✔] Contenedor ozymem-memgraph: ACTIVO / EJECUTÁNDOSE".to_string()
            } else {
                "  [✘] Contenedor ozymem-memgraph: DETENIDO o INEXISTENTE (usa 'ozymem init' para inicializarlo)".to_string()
            },
            if lab_up {
                "  [✔] Contenedor ozymem-memgraph-lab: ACTIVO / EJECUTÁNDOSE".to_string()
            } else {
                "  [✘] Contenedor ozymem-memgraph-lab: DETENIDO o INEXISTENTE".to_string()
            },
        ]
    } else {
        vec![
            "  [-] Contenedores de Memgraph: No se pudo verificar (Docker no se está ejecutando)".to_string(),
        ]
    };
    assert(r.deep_view() =~= container_report(*facts));
    r
}

fn connection_text(facts: &DoctorFacts) -> (r: Vec<String>)
    ensures
        r.deep_view() == seq![connection_line(*facts)],
{
    if facts.db_ping_ok {
        vec!["  [✔] Conexión al Cerebro (Memgraph): EXITOSA (Ping respondido)".to_string()]
    } else if facts.db_connected {
        vec![
            "  [✘] Conexión al Cerebro (Memgraph): Establecida pero falló el PING (¿puerto bloqueado?)".to_string(),
        ]
    } else {
        vec![
            "  [✘] Conexión al Cerebro (Memgraph): CONEXIÓN FALLIDA (¿está Memgraph encendido?)".to_string(),
        ]
    }
}

fn default_text(value: &Option<String>, default: &str) -> (r: String)
    ensures
        r@ == or_default(*value, default@),
{
    match value {
        Some(s) => s.as_str().to_string(),
        None => concat2(default, " (Por defecto)"),
    }
}

fn variable_texts(facts: &DoctorFacts) -> (r: Vec<String>)
    ensures
        r.deep_view() == variable_lines(*facts),
{
    let uri = default_text(&facts.env_uri, default_memgraph_uri());
    let database = default_text(&facts.env_database, default_memgraph_database());
    let user = match &facts.env_user {
        Some(user) => user.as_str(),
        None => "[NO ESTABLECIDA - REQUERIDA]",
    };
    let password = if facts.env_password_set {
        "[ESTABLECIDA]"
    } else {
        "[NO ESTABLECIDA - REQUERIDA]"
    };
    let r = vec![
        "".to_string(),
        "Variables de Entorno:".to_string(),
        concat2("  - MEMGRAPH_URI:      ", uri.as_str()),
        concat2("  - MEMGRAPH_USER:     ", user),
        concat2("  - MEMGRAPH_PASSWORD: ", password),
        concat2("  - MEMGRAPH_DATABASE: ", database.as_str()),
        "".to_string(),
    ];
    assert(r.deep_view() =~= variable_lines(*facts));
    r
}

fn optional_line(condition: bool, line: &str) -> (r: Vec<String>)
    ensures
        r.deep_view() == line_if(condition, line@),
{
    let r = if condition {
        vec![line.to_string()]
    } else {
        Vec::new()
    };
    assert(r.deep_view() =~= line_if(condition, line@));
    r
}

fn verdict_texts(facts: &DoctorFacts) -> (r: Vec<String>)
    ensures
        r.deep_view() == verdict_lines(*facts),
{
    if is_healthy(facts) {
        let r = vec![
            "¡ENHORABUENA! Tu entorno de Ozymem está en perfectas condiciones.".to_string(),
        ];
        assert(r.deep_view() =~= verdict_lines(*facts));
        return r;
    }
    let (memgraph_up, _) = containers_up(facts);
    let head = vec![
        "ADVERTENCIA: Se han detectado problemas en el entorno.".to_string(),
        "Soluciones sugeridas:".to_string(),
    ];
    assert(head.deep_view() =~= seq![
        "ADVERTENCIA: Se han detectado problemas en el entorno."@,
        "Soluciones sugeridas:"@,
    ]);
    let config = optional_line(
        !facts.config_exists,
        "  -> Ejecuta un comando básico de ozymem o crea el archivo .ozymem.toml en tu perfil.",
    );
    let docker = optional_line(
        !facts.docker_running,
        "  -> Asegúrate de que la aplicación Docker Desktop o el servicio Docker esté iniciado.",
    );
    let container = optional_line(
        facts.docker_running && !memgraph_up,
        "  -> Ejecuta 'ozymem init' para arrancar los contenedores del ecosistema.",
    );
    let port = optional_line(
        !facts.db_ping_ok && memgraph_up,
        "  -> Verifica que el puerto 7687 no esté ocupado por otra base de datos.",
    );
    all_lines(all_lines(all_lines(all_lines(head, config), docker), container), port)
}

/// The whole examination in words.
pub fn doctor_report(facts: &DoctorFacts) -> (r: Vec<String>)
    ensures
        r.deep_view() == doctor_lines(*facts),
{
    let last = vec!["=========================================".to_string()];
    assert(last.deep_view() =~= seq!["========================================="@]);
    let tests = all_lines(
        all_lines(first_lines(facts), container_texts(facts)),
        connection_text(facts),
    );
    all_lines(
        all_lines(all_lines(tests, variable_texts(facts)), verdict_texts(facts)),
        last,
    )
}

// ---------------------------------------------------------------------------
// Laws
// ---------------------------------------------------------------------------

/// The environment cannot be sound while Docker does not run: no container is up
/// then, whatever list of containers there is.
pub proof fn law_no_containers_without_docker(facts: DoctorFacts)
    requires
        !facts.docker_running,
    ensures
        !facts.memgraph_up(),
        !facts.lab_up(),
        !facts.sound(),
{
}

/// The examination in words ends well exactly if the environment is sound.
pub proof fn law_verdict(facts: DoctorFacts)
    ensures
        facts.sound() <==> verdict_lines(facts).len() == 1,
{
}

/// Whether a container is up is what the last of its lines says, and a container
/// without a line is not up.
pub proof fn law_the_last_line_on_a_container_counts(
    lines: Seq<Seq<char>>,
    on: spec_fn(Seq<char>) -> bool,
)
    ensures
        last_says_up(lines, on) <==> exists|i: int|
            0 <= i < lines.len() && on(#[trigger] lines[i]) && text::contains_text(
                text::unicode_lowercase(lines[i]),
                "up"@,
            ) && forall|j: int| i < j < lines.len() ==> !on(#[trigger] lines[j]),
    decreases lines.len(),
{
    if lines.len() > 0 {
        let rest = lines.drop_last();
        let last = lines.len() - 1;
        law_the_last_line_on_a_container_counts(rest, on);
        assert(forall|j: int| 0 <= j < rest.len() ==> #[trigger] rest[j] == lines[j]);
        assert(lines[last] == lines.last());
        if !on(lines.last()) {
            if last_says_up(rest, on) {
                let i = choose|i: int|
                    0 <= i < rest.len() && on(#[trigger] rest[i]) && text::contains_text(
                        text::unicode_lowercase(rest[i]),
                        "up"@,
                    ) && forall|j: int| i < j < rest.len() ==> !on(#[trigger] rest[j]);
                assert(on(lines[i]));
                assert forall|j: int| i < j < lines.len() implies !on(#[trigger] lines[j]) by {
                    if j < last {
                        assert(rest[j] == lines[j]);
                    }
                }
            } else if exists|i: int|
                0 <= i < lines.len() && on(#[trigger] lines[i]) && text::contains_text(
                    text::unicode_lowercase(lines[i]),
                    "up"@,
                ) && forall|j: int| i < j < lines.len() ==> !on(#[trigger] lines[j]) {
                let i = choose|i: int|
                    0 <= i < lines.len() && on(#[trigger] lines[i]) && text::contains_text(
                        text::unicode_lowercase(lines[i]),
                        "up"@,
                    ) && forall|j: int| i < j < lines.len() ==> !on(#[trigger] lines[j]);
                assert(on(rest[i]));
                assert forall|j: int| i < j < rest.len() implies !on(#[trigger] rest[j]) by {
                    assert(rest[j] == lines[j]);
                }
            }
        }
    }
}

/// The containers are told apart by their names: a line with the longer name is on
/// the user interface, and one with the shorter name alone on the graph. The lines
/// are those of Docker's list while Docker runs.
pub proof fn law_which_containers_are_up(facts: DoctorFacts)
    requires
        facts.docker_running,
        facts.containers is Some,
    ensures
        facts.lab_up() == last_says_up(
            text::lines_of(facts.containers->0@),
            |line: Seq<char>| text::contains_text(line, "ozymem-memgraph-lab"@),
        ),
        facts.memgraph_up() == last_says_up(
            text::lines_of(facts.containers->0@),
            |line: Seq<char>|
                text::contains_text(line, "ozymem-memgraph"@) && !text::contains_text(
                    line,
                    "ozymem-memgraph-lab"@,
                ),
        ),
{
    assert((|line: Seq<char>| on_lab(line)) =~= (|line: Seq<char>|
        text::contains_text(line, "ozymem-memgraph-lab"@)));
    assert((|line: Seq<char>| on_memgraph(line)) =~= (|line: Seq<char>|
        text::contains_text(line, "ozymem-memgraph"@) && !text::contains_text(
            line,
            "ozymem-memgraph-lab"@,
        )));
}

/// The environment is sound exactly if the configuration is there and can be read,
/// Docker runs, the container of the graph is up, and the graph answers.
pub proof fn law_what_is_needed(facts: DoctorFacts)
    ensures
        facts.sound() <==> facts.config_exists && facts.config_readable && facts.docker_running
            && facts.memgraph_up() && facts.db_ping_ok,
{
}

/// The examination in JSON tells every fact under its own name, and of the password
/// only whether it is set.
pub proof fn law_every_fact_is_told(facts: DoctorFacts)
    ensures
        doctor_model(facts).get("config_exists"@) == Some(JsonModel::Bool(facts.config_exists)),
        doctor_model(facts).get("config_valid"@) == Some(
            JsonModel::Bool(facts.config_exists && facts.config_readable),
        ),
        doctor_model(facts).get("docker_installed"@) == Some(
            JsonModel::Bool(facts.docker_version is Some),
        ),
        doctor_model(facts).get("docker_running"@) == Some(JsonModel::Bool(facts.docker_running)),
        doctor_model(facts).get("memgraph_container_running"@) == Some(
            JsonModel::Bool(facts.memgraph_up()),
        ),
        doctor_model(facts).get("lab_container_running"@) == Some(
            JsonModel::Bool(facts.lab_up()),
        ),
        doctor_model(facts).get("db_connected"@) == Some(JsonModel::Bool(facts.db_connected)),
        doctor_model(facts).get("db_ping_ok"@) == Some(JsonModel::Bool(facts.db_ping_ok)),
        doctor_model(facts).get("env_vars"@) is Some,
        ({
            let vars = doctor_model(facts).get("env_vars"@)->0;
            &&& vars.get("MEMGRAPH_URI"@) == Some(
                match facts.env_uri {
                    Some(uri) => JsonModel::Text(uri@),
                    None => JsonModel::Null,
                },
            )
            &&& vars.get("MEMGRAPH_USER"@) == Some(
                match facts.env_user {
                    Some(user) => JsonModel::Text(user@),
                    None => JsonModel::Null,
                },
            )
            &&& vars.get("MEMGRAPH_PASSWORD_SET"@) == Some(JsonModel::Bool(facts.env_password_set))
            &&& vars.get("MEMGRAPH_DATABASE"@) == Some(
                match facts.env_database {
                    Some(database) => JsonModel::Text(database@),
                    None => JsonModel::Null,
                },
            )
        }),
{
    reveal_strlit("config_exists");
    reveal_strlit("config_valid");
    reveal_strlit("docker_installed");
    reveal_strlit("docker_running");
    reveal_strlit("memgraph_container_running");
    reveal_strlit("lab_container_running");
    reveal_strlit("db_connected");
    reveal_strlit("db_ping_ok");
    reveal_strlit("env_vars");
    reveal_strlit("MEMGRAPH_URI");
    reveal_strlit("MEMGRAPH_USER");
    reveal_strlit("MEMGRAPH_PASSWORD_SET");
    reveal_strlit("MEMGRAPH_DATABASE");
    assert("config_exists"@.len() == 13 && "config_valid"@.len() == 12 && "docker_installed"@.len()
        == 16 && "docker_running"@.len() == 14 && "memgraph_container_running"@.len() == 26
        && "lab_container_running"@.len() == 21 && "db_connected"@.len() == 12 && "db_ping_ok"@.len()
        == 10 && "env_vars"@.len() == 8);
    assert("config_valid"@[0] == 'c' && "db_connected"@[0] == 'd');
    assert("MEMGRAPH_URI"@.len() == 12 && "MEMGRAPH_USER"@.len() == 13
        && "MEMGRAPH_PASSWORD_SET"@.len() == 21 && "MEMGRAPH_DATABASE"@.len() == 17);
    reveal_with_fuel(crate::json::lookup, 12);
}

/// The line of a test is marked as passed exactly if the test is.
pub proof fn law_marks_follow_the_facts(facts: DoctorFacts)
    ensures
        text::starts_with(config_line(facts), "  [✔] "@) <==> facts.config_exists
            && facts.config_readable,
        text::starts_with(client_line(facts), "  [✔] "@) <==> facts.docker_version is Some,
        text::starts_with(daemon_line(facts), "  [✔] "@) <==> facts.docker_running,
        text::starts_with(connection_line(facts), "  [✔] "@) <==> facts.db_ping_ok,
        facts.docker_running ==> container_report(facts).len() == 2 && (text::starts_with(
            container_report(facts)[0],
            "  [✔] "@,
        ) <==> facts.memgraph_up()) && (text::starts_with(container_report(facts)[1], "  [✔] "@)
            <==> facts.lab_up()),
        !facts.docker_running ==> container_report(facts).len() == 1 && !text::starts_with(
            container_report(facts)[0],
            "  [✔] "@,
        ),
{
    assert("  [✔] "@.len() == 6 && "  [✔] "@[3] == '✔' && "  [✔] "@ == seq![
        ' ',
        ' ',
        '[',
        '✔',
        ']',
        ' ',
    ]) by {
        reveal_strlit("  [✔] ");
    }
    lemma_config_marks(facts);
    lemma_client_marks(facts);
    lemma_daemon_marks(facts);
    lemma_connection_marks(facts);
    lemma_container_marks(facts);
}

spec fn passed(line: Seq<char>) -> bool {
    text::starts_with(line, seq![' ', ' ', '[', '✔', ']', ' '])
}

proof fn lemma_passed(line: Seq<char>)
    requires
        line.len() > 6,
        line[0] == ' ' && line[1] == ' ' && line[2] == '[' && line[4] == ']' && line[5] == ' ',
    ensures
        passed(line) <==> line[3] == '✔',
{
    let mark = seq![' ', ' ', '[', '✔', ']', ' '];
    if line[3] == '✔' {
        assert(line.subrange(0, 6) =~= mark);
    } else {
        assert(line.subrange(0, 6)[3] != mark[3]);
    }
}

proof fn lemma_config_marks(facts: DoctorFacts)
    ensures
        passed(config_line(facts)) <==> facts.config_exists && facts.config_readable,
{
    reveal_strlit("  [✔] Configuración Local: Encontrada y válida (.ozymem.toml)");
    reveal_strlit("  [✘] Configuración Local: Encontrada pero INVÁLIDA (.ozymem.toml)");
    reveal_strlit("  [✘] Configuración Local: No encontrada (.ozymem.toml no existe)");
    lemma_passed(config_line(facts));
}

proof fn lemma_client_marks(facts: DoctorFacts)
    ensures
        passed(client_line(facts)) <==> facts.docker_version is Some,
{
    reveal_strlit("  [✔] Cliente Docker: Instalado (");
    reveal_strlit("  [✘] Cliente Docker: No detectado en el PATH");
    lemma_passed(client_line(facts));
}

proof fn lemma_daemon_marks(facts: DoctorFacts)
    ensures
        passed(daemon_line(facts)) <==> facts.docker_running,
{
    reveal_strlit("  [✔] Docker Daemon: Activo y en ejecución");
    reveal_strlit("  [✘] Docker Daemon: Inactivo o inaccesible (¿está Docker abierto?)");
    lemma_passed(daemon_line(facts));
}

proof fn lemma_connection_marks(facts: DoctorFacts)
    ensures
        passed(connection_line(facts)) <==> facts.db_ping_ok,
{
    reveal_strlit("  [✔] Conexión al Cerebro (Memgraph): EXITOSA (Ping respondido)");
    reveal_strlit(
        "  [✘] Conexión al Cerebro (Memgraph): Establecida pero falló el PING (¿puerto bloqueado?)",
    );
    reveal_strlit(
        "  [✘] Conexión al Cerebro (Memgraph): CONEXIÓN FALLIDA (¿está Memgraph encendido?)",
    );
    lemma_passed(connection_line(facts));
}

proof fn lemma_container_marks(facts: DoctorFacts)
    ensures
        facts.docker_running ==> container_report(facts).len() == 2 && (passed(
            container_report(facts)[0],
        ) <==> facts.memgraph_up()) && (passed(container_report(facts)[1]) <==> facts.lab_up()),
        !facts.docker_running ==> container_report(facts).len() == 1 && !passed(
            container_report(facts)[0],
        ),
{
    reveal_strlit("  [✔] Contenedor ozymem-memgraph: ACTIVO / EJECUTÁNDOSE");
    reveal_strlit(
        "  [✘] Contenedor ozymem-memgraph: DETENIDO o INEXISTENTE (usa 'ozymem init' para inicializarlo)",
    );
    reveal_strlit("  [✔] Contenedor ozymem-memgraph-lab: ACTIVO / EJECUTÁNDOSE");
    reveal_strlit("  [✘] Contenedor ozymem-memgraph-lab: DETENIDO o INEXISTENTE");
    reveal_strlit(
        "  [-] Contenedores de Memgraph: No se pudo verificar (Docker no se está ejecutando)",
    );
    lemma_passed(container_report(facts)[0]);
    if facts.docker_running {
        lemma_passed(container_report(facts)[1]);
    }
}

/// The values of the variables are shown as they are set, or as what stands in for
/// them; of the password only whether it is set.
pub proof fn law_variables_are_shown(facts: DoctorFacts)
    ensures
        variable_lines(facts).len() == 7,
        variable_lines(facts)[2] == "  - MEMGRAPH_URI:      "@ + (match facts.env_uri {
            Some(uri) => uri@,
            None => "127.0.0.1:7687"@ + " (Por defecto)"@,
        }),
        variable_lines(facts)[3] == "  - MEMGRAPH_USER:     "@ + (match facts.env_user {
            Some(user) => user@,
            None => "[NO ESTABLECIDA - REQUERIDA]"@,
        }),
        variable_lines(facts)[4] == "  - MEMGRAPH_PASSWORD: "@ + (if facts.env_password_set {
            "[ESTABLECIDA]"@
        } else {
            "[NO ESTABLECIDA - REQUERIDA]"@
        }),
        variable_lines(facts)[5] == "  - MEMGRAPH_DATABASE: "@ + (match facts.env_database {
            Some(database) => database@,
            None => "memgraph"@ + " (Por defecto)"@,
        }),
{
}

/// The number of ways out that are suggested is the number of things that are
/// found to be amiss, and each is suggested when its own thing is.
pub proof fn law_every_problem_has_its_way_out(facts: DoctorFacts)
    requires
        !facts.sound(),
    ensures
        ({
            let said = verdict_lines(facts);
            &&& said.len() == 2 + (if facts.config_exists {
                0int
            } else {
                1
            }) + (if facts.docker_running {
                0int
            } else {
                1
            }) + (if facts.docker_running && !facts.memgraph_up() {
                1int
            } else {
                0
            }) + (if facts.memgraph_up() && !facts.db_ping_ok {
                1int
            } else {
                0
            })
            &&& !facts.config_exists ==> said[2]
                == "  -> Ejecuta un comando básico de ozymem o crea el archivo .ozymem.toml en tu perfil."@
            &&& !facts.docker_running ==> said.last()
                == "  -> Asegúrate de que la aplicación Docker Desktop o el servicio Docker esté iniciado."@
            &&& facts.docker_running && !facts.memgraph_up() ==> said.last()
                == "  -> Ejecuta 'ozymem init' para arrancar los contenedores del ecosistema."@
            &&& facts.memgraph_up() && !facts.db_ping_ok ==> said.last()
                == "  -> Verifica que el puerto 7687 no esté ocupado por otra base de datos."@
        }),
{
    if !facts.docker_running {
        law_no_containers_without_docker(facts);
    }
}

/// The whole examination holds the account of every test, in their order, then the
/// variables and the verdict.
pub proof fn law_every_test_is_reported(facts: DoctorFacts)
    ensures
        ({
            let all = doctor_lines(facts);
            let c = container_report(facts).len() as int;
            let v = verdict_lines(facts).len() as int;
            &&& all.len() == 7 + c + 1 + 7 + v + 1
            &&& all[4] == config_line(facts)
            &&& all[5] == client_line(facts)
            &&& all[6] == daemon_line(facts)
            &&& all.subrange(7, 7 + c) == container_report(facts)
            &&& all[7 + c] == connection_line(facts)
            &&& all.subrange(8 + c, 15 + c) == variable_lines(facts)
            &&& all.subrange(15 + c, 15 + c + v) == verdict_lines(facts)
        }),
{
    let all = doctor_lines(facts);
    let c = container_report(facts).len() as int;
    let v = verdict_lines(facts).len() as int;
    assert(all.subrange(7, 7 + c) =~= container_report(facts));
    assert(all.subrange(8 + c, 15 + c) =~= variable_lines(facts));
    assert(all.subrange(15 + c, 15 + c + v) =~= verdict_lines(facts));
}

/// The examination in words stands between rules, under its title.
pub proof fn law_frame_of_the_examination(facts: DoctorFacts)
    ensures
        ({
            let all = doctor_lines(facts);
            let rule = "========================================="@;
            &&& all[0] == rule && all[2] == rule && all.last() == rule
            &&& all[1] == "     OZYMEM SYSTEM ENVIRONMENT DOCTOR    "@
            &&& all[3] == ""@
        }),
{
}

} // verus!
