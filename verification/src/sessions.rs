//! Sessions: how long ago they were seen, and which of them are dead.

use crate::records::SessionRecord;
use crate::text;
use crate::text::{concat3, decimal_i64, decimal_u64, parse_unsigned};
use vstd::prelude::*;

verus! {

/// The seconds after which a session that was not seen is dead.
pub const SESSION_TIMEOUT: u64 = 60;

/// When a session was seen, in seconds; 0 if that cannot be read.
pub open spec fn last_seen_of(text: Seq<char>) -> nat {
    match text::parse_unsigned_text(text, u64::MAX as nat) {
        Some(n) => n,
        None => 0,
    }
}

/// The session was not seen for too long.
pub open spec fn expired(now: u64, last_seen: Seq<char>) -> bool {
    now > last_seen_of(last_seen) + SESSION_TIMEOUT
}

/// Whether a session was not seen for too long.
pub fn is_expired(now: u64, last_seen: &str) -> (r: bool)
    ensures
        r == expired(now, last_seen@),
{
    let seen: u64 = match parse_unsigned(last_seen, u64::MAX) {
        Some(n) => n,
        None => 0,
    };
    now > seen && now - seen > SESSION_TIMEOUT
}

/// Whether a session is to be removed: it was not seen for too long, or its
/// process is gone.
pub fn is_zombie(now: u64, last_seen: &str, process_alive: bool) -> (r: bool)
    ensures
        r == (expired(now, last_seen@) || !process_alive),
{
    is_expired(now, last_seen) || !process_alive
}

/// A session, when it was seen, and whether its process lives.
#[derive(Debug, Clone, PartialEq, Eq)]
pub struct SessionState {
    pub id: String,
    pub last_seen: String,
    pub process_alive: bool,
}

/// The session is to be removed.
pub open spec fn dead(state: SessionState, now: u64) -> bool {
    expired(now, state.last_seen@) || !state.process_alive
}

/// The names of the sessions that are to be removed.
pub open spec fn dead_names(states: Seq<SessionState>, now: u64) -> Seq<Seq<char>>
    decreases states.len(),
{
    if states.len() == 0 {
        Seq::empty()
    } else {
        let before = dead_names(states.drop_last(), now);
        if dead(states.last(), now) {
            before.push(states.last().id@)
        } else {
            before
        }
    }
}

/// The names of the sessions that are to be removed, in their order.
pub fn zombie_sessions(states: &Vec<SessionState>, now: u64) -> (r: Vec<String>)
    ensures
        r.deep_view() == dead_names(states@, now),
{
    let mut out: Vec<String> = Vec::new();
    let mut i: usize = 0;
    assert(states@.take(0) =~= Seq::empty());
    assert(out.deep_view() =~= dead_names(states@.take(0), now));
    while i < states.len()
        invariant
            i <= states@.len(),
            out.deep_view() == dead_names(states@.take(i as int), now),
        decreases states@.len() - i,
    {
        assert(states@.take(i + 1).drop_last() =~= states@.take(i as int));
        let state = &states[i];
        if is_zombie(now, state.last_seen.as_str(), state.process_alive) {
            let ghost before = out.deep_view();
            out.push(state.id.as_str().to_string());
            assert(out.deep_view() =~= before.push(state.id@));
        }
        i += 1;
    }
    assert(states@.take(states@.len() as int) =~= states@);
    out
}

/// How long ago a session was seen, in words.
pub open spec fn heartbeat(last_seen: Seq<char>, now: u64) -> Seq<char> {
    match text::parse_unsigned_text(last_seen, u64::MAX as nat) {
        None => "N/A"@,
        Some(seen) => {
            let diff = if now >= seen {
                now - seen
            } else {
                0
            };
            if diff < 60 {
                "Hace "@ + text::decimal(diff) + "s"@
            } else {
                "Hace "@ + text::decimal(diff / 60) + "m "@ + text::decimal(diff % 60) + "s"@
            }
        },
    }
}

/// How long ago a session was seen, in words.
pub fn heartbeat_text(last_seen: &str, now: u64) -> (r: String)
    ensures
        r@ == heartbeat(last_seen@, now),
{
    match parse_unsigned(last_seen, u64::MAX) {
        None => "N/A".to_string(),
        Some(seen) => {
            let diff: u64 = now.saturating_sub(seen);
            if diff < 60 {
                concat3("Hace ", decimal_u64(diff).as_str(), "s")
            } else {
                let mut out = concat3("Hace ", decimal_u64(diff / 60).as_str(), "m ");
                out.append(decimal_u64(diff % 60).as_str());
                out.append("s");
                out
            }
        },
    }
}

// ---------------------------------------------------------------------------
// The table of sessions
// ---------------------------------------------------------------------------

/// The text of a table with a header and rows, in the layout of `comfy_table`.
pub uninterp spec fn table_text(header: Seq<Seq<char>>, rows: Seq<Seq<Seq<char>>>) -> Seq<char>;

/// `comfy_table::Table`: a new table is given the header by `set_header` and the
/// rows by `add_rows`, and is turned into a text by its `Display`. The columns are
/// as wide as what they hold and no cell is styled, so that the text depends on
/// the header and the rows alone.
#[verifier::external_body]
fn render_table(header: Vec<String>, rows: Vec<Vec<String>>) -> (r: String)
    ensures
        r@ == table_text(header.deep_view(), rows.deep_view()),
{
    let mut table = comfy_table::Table::new();
    table.set_header(header);
    table.add_rows(rows);
    table.to_string()
}

pub open spec fn session_header() -> Seq<Seq<char>> {
    seq![
        "ID de Sesión"@,
        "Usuario"@,
        "Transporte"@,
        "PID"@,
        "Última Actividad (Heartbeat)"@,
    ]
}

/// The row of a session: who it is, over what it came, its process, and how long
/// ago it was seen.
pub open spec fn session_row(session: SessionRecord, now: u64) -> Seq<Seq<char>> {
    seq![
        session.id@,
        session.username@,
        session.transport@,
        text::decimal(session.pid as int),
        heartbeat(session.last_seen@, now),
    ]
}

pub open spec fn session_rows_of(sessions: Seq<SessionRecord>, now: u64) -> Seq<Seq<Seq<char>>> {
    Seq::new(sessions.len(), |i: int| session_row(sessions[i], now))
}

/// What is shown of the sessions: a table of them, if there are any.
pub open spec fn session_text(sessions: Seq<SessionRecord>, now: u64) -> Seq<char> {
    if sessions.len() == 0 {
        "[INFO] No hay sesiones activas registradas."@
    } else {
        table_text(session_header(), session_rows_of(sessions, now))
    }
}

/// The rows of the table of sessions.
pub fn session_rows(sessions: &Vec<SessionRecord>, now: u64) -> (r: Vec<Vec<String>>)
    ensures
        r.deep_view() == session_rows_of(sessions@, now),
{
    let mut rows: Vec<Vec<String>> = Vec::new();
    let mut i: usize = 0;
    while i < sessions.len()
        invariant
            i <= sessions@.len(),
            rows@.len() == i,
            forall|k: int|
                0 <= k < i ==> (#[trigger] rows@[k]).deep_view() == session_row(sessions@[k], now),
        decreases sessions@.len() - i,
    {
        let session = &sessions[i];
        let row = vec![
            session.id.as_str().to_string(),
            session.username.as_str().to_string(),
            session.transport.as_str().to_string(),
            decimal_i64(session.pid),
            heartbeat_text(session.last_seen.as_str(), now),
        ];
        assert(row.deep_view() =~= session_row(sessions@[i as int], now));
        rows.push(row);
        i += 1;
    }
    assert(rows.deep_view() =~= session_rows_of(sessions@, now));
    rows
}

/// What is shown of the sessions: a table of them, if there are any.
pub fn session_report(sessions: &Vec<SessionRecord>, now: u64) -> (r: String)
    ensures
        r@ == session_text(sessions@, now),
{
    if sessions.len() == 0 {
        return "[INFO] No hay sesiones activas registradas.".to_string();
    }
    let header = vec![
        "ID de Sesión".to_string(),
        "Usuario".to_string(),
        "Transporte".to_string(),
        "PID".to_string(),
        "Última Actividad (Heartbeat)".to_string(),
    ];
    assert(header.deep_view() =~= session_header());
    render_table(header, session_rows(sessions, now))
}

/// What is said when a session was revoked, or was not there.
pub fn kick_report(session_id: &str, kicked: bool) -> (r: String)
    ensures
        r@ == if kicked {
            "[SUCCESS] Sesión '"@ + session_id@ + "' revocada con éxito."@
        } else {
            "[WARNING] No se encontró ninguna sesión activa con ID '"@ + session_id@ + "'."@
        },
{
    if kicked {
        concat3("[SUCCESS] Sesión '", session_id, "' revocada con éxito.")
    } else {
        concat3("[WARNING] No se encontró ninguna sesión activa con ID '", session_id, "'.")
    }
}

/// A session that is seen now is not removed while its process lives.
pub proof fn law_seen_sessions_stay(now: u64, last_seen: Seq<char>)
    requires
        last_seen == text::decimal(now as int),
    ensures
        !expired(now, last_seen),
{
    text::lemma_decimal_read_back(now as nat);
}

/// A session that is dead stays dead until it is seen again.
pub proof fn law_expired_sessions_stay_expired(now: u64, later: u64, last_seen: Seq<char>)
    requires
        expired(now, last_seen),
        now <= later,
    ensures
        expired(later, last_seen),
{
}

/// A session is removed exactly if it was not seen for too long or its process is
/// gone.
pub proof fn law_dead_sessions_go(states: Seq<SessionState>, now: u64, name: Seq<char>)
    ensures
        dead_names(states, now).contains(name) <==> exists|i: int|
            0 <= i < states.len() && (#[trigger] states[i]).id@ == name && dead(states[i], now),
    decreases states.len(),
{
    if states.len() > 0 {
        let rest = states.drop_last();
        law_dead_sessions_go(rest, now, name);
        let before = dead_names(rest, now);
        let all = dead_names(states, now);
        if dead(states.last(), now) {
            assert(all[all.len() - 1] == states.last().id@);
        }
        if before.contains(name) {
            let j = choose|j: int| 0 <= j < before.len() && before[j] == name;
            assert(all[j] == name);
            let i = choose|i: int|
                0 <= i < rest.len() && (#[trigger] rest[i]).id@ == name && dead(rest[i], now);
            assert(states[i] == rest[i]);
        }
        if all.contains(name) && !before.contains(name) {
            let j = choose|j: int| 0 <= j < all.len() && all[j] == name;
            assert(j < before.len() ==> before[j] == name);
            assert(states[states.len() - 1].id@ == name);
        }
        if exists|i: int|
            0 <= i < states.len() && (#[trigger] states[i]).id@ == name && dead(states[i], now) {
            let i = choose|i: int|
                0 <= i < states.len() && (#[trigger] states[i]).id@ == name && dead(
                    states[i],
                    now,
                );
            if i < rest.len() {
                assert(rest[i] == states[i]);
            }
        }
    }
}

/// A session is dead once it was not seen for more than a minute, or at once if its
/// process is gone.
pub proof fn law_a_minute_unseen_is_dead(state: SessionState, now: u64, seen: u64)
    requires
        state.last_seen@ == text::decimal(seen as int),
    ensures
        dead(state, now) <==> !state.process_alive || now > seen + 60,
{
    text::lemma_decimal_read_back(seen as nat);
}

/// The sessions to be removed come in the order of the sessions, each once.
pub proof fn law_every_dead_session_goes_once(states: Seq<SessionState>, now: u64)
    ensures
        dead_names(states, now) == states.filter(|s: SessionState| dead(s, now)).map_values(
            |s: SessionState| s.id@,
        ),
    decreases states.len(),
{
    reveal(Seq::filter);
    let gone = |s: SessionState| dead(s, now);
    let name = |s: SessionState| s.id@;
    if states.len() > 0 {
        law_every_dead_session_goes_once(states.drop_last(), now);
        let before = states.drop_last().filter(gone);
        if gone(states.last()) {
            assert(before.push(states.last()).map_values(name) =~= before.map_values(name).push(
                name(states.last()),
            ));
        }
    } else {
        assert(states.filter(gone).map_values(name) =~= dead_names(states, now));
    }
}

/// How long ago a session was seen is given in minutes and seconds, the minutes only if
/// there are any. A session that was seen in the future was seen just now.
pub proof fn law_heartbeats_tell_the_time(now: u64, seen: u64, minutes: nat, seconds: nat)
    requires
        seconds < 60,
        60 * minutes + seconds == if now >= seen {
            now - seen
        } else {
            0
        },
    ensures
        heartbeat(text::decimal(seen as int), now) == if minutes == 0 {
            "Hace "@ + text::decimal(seconds as int) + "s"@
        } else {
            "Hace "@ + text::decimal(minutes as int) + "m "@ + text::decimal(seconds as int) + "s"@
        },
{
    text::lemma_decimal_read_back(seen as nat);
    let diff = if now >= seen {
        now - seen
    } else {
        0
    };
    assert(diff / 60 == minutes && diff % 60 == seconds);
}

/// Every session has its row, in the order of the sessions: with its identifier, its
/// user, its transport, its process and how long ago it was seen.
pub proof fn law_every_session_has_its_row(sessions: Seq<SessionRecord>, now: u64, i: int)
    requires
        0 <= i < sessions.len(),
    ensures
        session_rows_of(sessions, now).len() == sessions.len(),
        session_rows_of(sessions, now)[i] == seq![
            sessions[i].id@,
            sessions[i].username@,
            sessions[i].transport@,
            text::decimal(sessions[i].pid as int),
            heartbeat(sessions[i].last_seen@, now),
        ],
        session_rows_of(sessions, now)[i].len() == session_header().len(),
        session_text(sessions, now) == table_text(
            session_header(),
            session_rows_of(sessions, now),
        ),
{
}

/// The columns of the table of sessions are named in the order in which the rows hold
/// them; where there is no session, that is said.
pub proof fn law_columns_of_the_sessions(sessions: Seq<SessionRecord>, now: u64)
    ensures
        session_header() == seq![
            "ID de Sesión"@,
            "Usuario"@,
            "Transporte"@,
            "PID"@,
            "Última Actividad (Heartbeat)"@,
        ],
        sessions.len() == 0 ==> session_text(sessions, now)
            == "[INFO] No hay sesiones activas registradas."@,
        SESSION_TIMEOUT == 60,
{
}

/// A session of which it cannot be read when it was seen was seen at the beginning of
/// time, and is shown without a time.
pub proof fn law_unreadable_times(now: u64, last_seen: Seq<char>)
    requires
        text::parse_unsigned_text(last_seen, u64::MAX as nat) is None,
    ensures
        expired(now, last_seen) <==> now > 60,
        heartbeat(last_seen, now) == "N/A"@,
{
}

} // verus!
