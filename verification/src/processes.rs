//! The processes in the background: the watchers of the projects and the server.
//! Each has a file with its process number and a log.

use crate::config::OzymemConfig;
use crate::status::{pid_from_text, ProcessState};
use crate::text;
use crate::text::{concat3, decimal_u64, same_text, trim};
use vstd::prelude::*;

verus! {

/// The name of the file with the process number of a project's watcher.
pub fn pid_file_name(project: &str) -> (r: String)
    ensures
        r@ == ".ozymem-"@ + project@ + ".pid"@,
{
    concat3(".ozymem-", project, ".pid")
}

/// The name of the log of a project's watcher.
pub fn watcher_log_name(project: &str) -> (r: String)
    ensures
        r@ == ".ozymem-"@ + project@ + ".log"@,
{
    concat3(".ozymem-", project, ".log")
}

/// The name of the log that is followed for a project: that of its watcher, but for
/// `global`, which names the log that belongs to no project.
pub fn log_file_name(project: &str) -> (r: String)
    ensures
        r@ == if project@ == "global"@ {
            ".ozymem.log"@
        } else {
            ".ozymem-"@ + project@ + ".log"@
        },
{
    if same_text(project, "global") {
        ".ozymem.log".to_string()
    } else {
        watcher_log_name(project)
    }
}

// ---------------------------------------------------------------------------
// Start
// ---------------------------------------------------------------------------

/// Whether a process is to be started. If not, what is said; if it is, whether the
/// file of a dead process is removed before.
#[derive(Debug, Clone, PartialEq, Eq)]
pub enum StartDecision {
    AlreadyRunning(String),
    Spawn { remove_pid_file: bool },
}

/// A watcher is started unless its process lives.
pub fn decide_watcher_start(project: &str, process: Option<ProcessState>) -> (r: StartDecision)
    ensures
        match r {
            StartDecision::AlreadyRunning(line) => {
                &&& process matches Some(p) && p.alive && line@ == "[INFO] El watcher para '"@
                    + project@ + "' ya se encuentra activo (PID: "@ + text::decimal(p.pid as int)
                    + ")."@
            },
            StartDecision::Spawn { remove_pid_file } => {
                &&& !remove_pid_file
                &&& (process matches Some(p) ==> !p.alive)
            },
        },
{
    match process {
        Some(p) => {
            if p.alive {
                let mut line = concat3(
                    "[INFO] El watcher para '",
                    project,
                    "' ya se encuentra activo (PID: ",
                );
                line.append(decimal_u64(p.pid as u64).as_str());
                line.append(").");
                StartDecision::AlreadyRunning(line)
            } else {
                StartDecision::Spawn { remove_pid_file: false }
            }
        },
        None => StartDecision::Spawn { remove_pid_file: false },
    }
}

/// The server is started unless its process lives. The file of a dead one goes.
pub fn decide_server_start(process: Option<ProcessState>) -> (r: StartDecision)
    ensures
        match r {
            StartDecision::AlreadyRunning(line) => {
                &&& process matches Some(p) && p.alive && line@
                    == "[INFO] El servidor MCP ya se encuentra activo bajo el PID "@
                    + text::decimal(p.pid as int) + "."@
            },
            StartDecision::Spawn { remove_pid_file } => {
                &&& remove_pid_file == (process is Some)
                &&& (process matches Some(p) ==> !p.alive)
            },
        },
{
    match process {
        Some(p) => {
            if p.alive {
                StartDecision::AlreadyRunning(
                    concat3(
                        "[INFO] El servidor MCP ya se encuentra activo bajo el PID ",
                        decimal_u64(p.pid as u64).as_str(),
                        ".",
                    ),
                )
            } else {
                StartDecision::Spawn { remove_pid_file: true }
            }
        },
        None => StartDecision::Spawn { remove_pid_file: false },
    }
}

/// The arguments with which a watcher is started.
pub fn watcher_arguments(target: &str, force: bool) -> (r: Vec<String>)
    ensures
        r.deep_view() == if force {
            seq!["watch"@, target@, "--force"@]
        } else {
            seq!["watch"@, target@]
        },
{
    let mut r = vec!["watch".to_string(), target.to_string()];
    if force {
        r.push("--force".to_string());
    }
    assert(r.deep_view() =~= if force {
        seq!["watch"@, target@, "--force"@]
    } else {
        seq!["watch"@, target@]
    });
    r
}

/// What is said when a watcher was started.
pub fn watcher_started(project: &str, pid: u32) -> (r: String)
    ensures
        r@ == "[SUCCESS] Watcher para '"@ + project@
            + "' iniciado en segundo plano de forma exitosa (PID: "@ + text::decimal(pid as int)
            + ")."@,
{
    let mut out = concat3(
        "[SUCCESS] Watcher para '",
        project,
        "' iniciado en segundo plano de forma exitosa (PID: ",
    );
    out.append(decimal_u64(pid as u64).as_str());
    out.append(").");
    out
}

/// What is said when the server was started.
pub fn server_started(pid: u32) -> (r: String)
    ensures
        r@ == "[SUCCESS] Servidor MCP iniciado en segundo plano (PID: "@ + text::decimal(pid as int)
            + ")"@,
{
    concat3(
        "[SUCCESS] Servidor MCP iniciado en segundo plano (PID: ",
        decimal_u64(pid as u64).as_str(),
        ")",
    )
}

// ---------------------------------------------------------------------------
// Stop
// ---------------------------------------------------------------------------

/// Which watcher is to be stopped.
#[derive(Debug, Clone, PartialEq, Eq)]
pub enum StopTarget {
    Project(String),
    Global,
}

/// The watcher to stop: that of the project that was named, or of the project of
/// the current directory, or the one that belongs to no project if there is one.
pub fn stop_target(given: Option<String>, here: Option<String>, global_exists: bool) -> (r: Result<
    StopTarget,
    String,
>)
    ensures
        match r {
            Ok(StopTarget::Project(name)) => {
                ||| given == Some(name)
                ||| given is None && here == Some(name)
            },
            Ok(StopTarget::Global) => given is None && here is None && global_exists,
            Err(message) => given is None && here is None && !global_exists && message@
                == "No se pudo determinar el proyecto del directorio actual. Especifica el nombre del proyecto."@,
        },
{
    match (given, here) {
        (Some(name), _) => Ok(StopTarget::Project(name)),
        (None, Some(name)) => Ok(StopTarget::Project(name)),
        (None, None) => {
            if global_exists {
                Ok(StopTarget::Global)
            } else {
                Err(
                    "No se pudo determinar el proyecto del directorio actual. Especifica el nombre del proyecto.".to_string(),
                )
            }
        },
    }
}

/// The process to end, and what is said then.
#[derive(Debug, Clone, PartialEq, Eq)]
pub struct StopOrder {
    pub pid: String,
    pub done: String,
}

pub open spec fn stopped_line(target: StopTarget, pid: Seq<char>) -> Seq<char> {
    match target {
        StopTarget::Project(name) => "[SUCCESS] Proceso del watcher para '"@ + name@ + "' (PID: "@
            + pid + ") detenido y limpiado."@,
        StopTarget::Global => "[SUCCESS] Proceso del watcher global (PID: "@ + pid
            + ") detenido y limpiado."@,
    }
}

/// The order to stop a watcher, from the content of its process file.
pub fn stop_order(target: &StopTarget, pid_file: &str) -> (r: StopOrder)
    ensures
        r.pid@ == text::trim_text(pid_file@),
        r.done@ == stopped_line(*target, text::trim_text(pid_file@)),
{
    let pid = trim(pid_file);
    let done = match target {
        StopTarget::Project(name) => {
            let mut out = concat3(
                "[SUCCESS] Proceso del watcher para '",
                name.as_str(),
                "' (PID: ",
            );
            out.append(pid.as_str());
            out.append(") detenido y limpiado.");
            out
        },
        StopTarget::Global => concat3(
            "[SUCCESS] Proceso del watcher global (PID: ",
            pid.as_str(),
            ") detenido y limpiado.",
        ),
    };
    StopOrder { pid, done }
}

/// What is said when a project has no process file.
pub fn nothing_to_stop(project: &str) -> (r: String)
    ensures
        r@ == "[ERROR] No se encontró ningún proceso activo para el proyecto '"@ + project@ + "'."@,
{
    concat3("[ERROR] No se encontró ningún proceso activo para el proyecto '", project, "'.")
}

/// The order to stop the server, from the content of its process file; there is
/// none if that is no process number.
pub fn server_stop_order(pid_file: &str) -> (r: Option<(u32, String)>)
    ensures
        match r {
            Some((pid, done)) => {
                &&& text::parse_unsigned_text(text::trim_text(pid_file@), u32::MAX as nat) == Some(
                    pid as nat,
                )
                &&& done@ == "[SUCCESS] Proceso del servidor MCP (PID: "@ + text::trim_text(
                    pid_file@,
                ) + ") detenido y limpiado."@
            },
            None => text::parse_unsigned_text(
                text::trim_text(pid_file@),
                u32::MAX as nat,
            ) is None,
        },
{
    match pid_from_text(pid_file) {
        Some(pid) => Some(
            (
                pid,
                concat3(
                    "[SUCCESS] Proceso del servidor MCP (PID: ",
                    trim(pid_file).as_str(),
                    ") detenido y limpiado.",
                ),
            ),
        ),
        None => None,
    }
}

// ---------------------------------------------------------------------------
// Logs
// ---------------------------------------------------------------------------

/// The project whose log is shown: the one that was named, or the one of the
/// current directory, or none.
pub fn log_project(given: Option<String>, here: Option<String>) -> (r: String)
    ensures
        match (given, here) {
            (Some(name), _) => r == name,
            (None, Some(name)) => r == name,
            (None, None) => r@ == "global"@,
        },
{
    match (given, here) {
        (Some(name), _) => name,
        (None, Some(name)) => name,
        (None, None) => "global".to_string(),
    }
}

/// What is said before a log is shown.
pub fn log_announcement(project: &str, path: Option<&str>) -> (r: String)
    ensures
        r@ == match path {
            Some(path) => "[INFO] Mostrando registros en tiempo real para '"@ + project@
                + "' (Ruta: "@ + path@ + "). Presiona Ctrl+C para salir."@,
            None => "[INFO] No hay registros de logs disponibles todavía para '"@ + project@
                + "'."@,
        },
{
    match path {
        Some(path) => {
            let mut out = concat3(
                "[INFO] Mostrando registros en tiempo real para '",
                project,
                "' (Ruta: ",
            );
            out.append(path);
            out.append("). Presiona Ctrl+C para salir.");
            out
        },
        None => concat3(
            "[INFO] No hay registros de logs disponibles todavía para '",
            project,
            "'.",
        ),
    }
}

/// The place from which a log is to be shown when its length is looked at again,
/// and the place up to which it is known then. A log that did not grow shows
/// nothing.
pub open spec fn looked_at(position: u64, length: u64) -> (Option<u64>, u64) {
    if length > position {
        (Some(position), length)
    } else {
        (None, position)
    }
}

/// The place from which a log is to be shown when its length is looked at again,
/// and the place up to which it is known then.
pub fn follow_log(position: u64, length: u64) -> (r: (Option<u64>, u64))
    ensures
        r == looked_at(position, length),
{
    if length > position {
        (Some(position), length)
    } else {
        (None, position)
    }
}

// ---------------------------------------------------------------------------
// Targets
// ---------------------------------------------------------------------------

/// The path that a target of a command means: the target itself if it is there,
/// or else the path of the project of that name if that is there.
pub fn target_path(
    config: &OzymemConfig,
    target: &str,
    target_exists: bool,
    project_exists: bool,
) -> (r: String)
    ensures
        r@ == match config.project_path(target@) {
            Some(path) => if !target_exists && project_exists {
                path
            } else {
                target@
            },
            None => target@,
        },
{
    match config.project(target) {
        Some(path) => {
            if !target_exists && project_exists {
                path.to_string()
            } else {
                target.to_string()
            }
        },
        None => target.to_string(),
    }
}

// ---------------------------------------------------------------------------
// Laws
// ---------------------------------------------------------------------------

/// The place up to which a log is known after it was looked at with the given
/// lengths.
pub open spec fn followed(position: u64, lengths: Seq<u64>) -> u64
    decreases lengths.len(),
{
    if lengths.len() == 0 {
        position
    } else {
        looked_at(followed(position, lengths.drop_last()), lengths.last()).1
    }
}

/// A log is shown without gaps and without repetition: what a look shows begins at
/// the place that was known before it and ends at the place that is known after it.
pub proof fn law_looks_join(position: u64, lengths: Seq<u64>, k: int)
    requires
        0 <= k < lengths.len(),
    ensures
        ({
            let before = followed(position, lengths.take(k));
            let after = followed(position, lengths.take(k + 1));
            &&& before <= after
            &&& looked_at(before, lengths[k]) == if before < after {
                (Some(before), after)
            } else {
                (None, after)
            }
        }),
{
    assert(lengths.take(k + 1).drop_last() =~= lengths.take(k));
    assert(lengths.take(k + 1).last() == lengths[k]);
}

/// A log is followed up to the greatest length that it was seen with.
pub proof fn law_logs_are_followed(position: u64, lengths: Seq<u64>)
    ensures
        position <= followed(position, lengths),
        forall|i: int| 0 <= i < lengths.len() ==> #[trigger] lengths[i] <= followed(position, lengths),
        followed(position, lengths) == position || lengths.contains(followed(position, lengths)),
    decreases lengths.len(),
{
    if lengths.len() > 0 {
        let rest = lengths.drop_last();
        law_logs_are_followed(position, rest);
        assert forall|i: int| 0 <= i < lengths.len() implies #[trigger] lengths[i] <= followed(
            position,
            lengths,
        ) by {
            if i < rest.len() {
                assert(rest[i] == lengths[i]);
            }
        }
        let before = followed(position, rest);
        if lengths.last() > before {
            assert(lengths[lengths.len() - 1] == followed(position, lengths));
        } else if before != position {
            let j = choose|j: int| 0 <= j < rest.len() && rest[j] == before;
            assert(lengths[j] == before);
        }
    }
}

/// What is said of a watcher that was stopped names its process, and its project if
/// it has one.
pub proof fn law_stopped_watchers_are_named(name: String, pid: Seq<char>)
    ensures
        stopped_line(StopTarget::Project(name), pid) == "[SUCCESS] Proceso del watcher para '"@
            + name@ + "' (PID: "@ + pid + ") detenido y limpiado."@,
        stopped_line(StopTarget::Global, pid) == "[SUCCESS] Proceso del watcher global (PID: "@
            + pid + ") detenido y limpiado."@,
{
}

} // verus!
