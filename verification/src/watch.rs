//! Watching a project: what is done about a change, and how changes are kept
//! while the graph cannot be reached.
//!
//! While the graph is reached, a change is sent to it at once. When sending fails,
//! the change goes to a log, and so do all changes until the graph answers again.
//! Then the log is sent in its order, and emptied when all of it was sent.

use crate::fs_utils;
use crate::fs_utils::{is_ignored_by_patterns, should_skip_path};
use crate::paths;
use crate::paths::file_name;
use crate::records::{WalAction, WalEntry};
use crate::text;
use crate::text::same_text;
use vstd::prelude::*;

verus! {

/// The kind of a change of a file.
#[derive(Debug, Clone, Copy, PartialEq, Eq, Structural)]
pub enum ChangeKind {
    Create,
    Modify,
    Remove,
    Other,
}

/// The state of a watcher: whether the graph is reached, and whether it is being
/// waited for.
#[derive(Debug, Clone, Copy, PartialEq, Eq, Structural)]
pub struct WatchState {
    pub connected: bool,
    pub reconnecting: bool,
}

impl WatchState {
    /// The graph is reached, or it is being waited for; never both.
    pub open spec fn wf(self) -> bool {
        self.connected == !self.reconnecting
    }

    /// The state of a new watcher.
    pub fn new() -> (r: WatchState)
        ensures
            r.wf(),
            r.connected,
    {
        WatchState { connected: true, reconnecting: false }
    }
}

// ---------------------------------------------------------------------------
// Decisions
// ---------------------------------------------------------------------------

/// The name of a file with patterns.
pub open spec fn ignore_file(name: Seq<char>) -> bool {
    name == ".ozymemignore"@ || name == ".gitignore"@
}

/// A change of the file changes the patterns.
pub open spec fn changes_patterns(path: Seq<char>) -> bool {
    match paths::file_name_of(path) {
        Some(name) => ignore_file(name),
        None => false,
    }
}

/// The file is one of the watcher's own.
pub open spec fn own_file(path: Seq<char>) -> bool {
    match paths::file_name_of(path) {
        Some(name) => ignore_file(name) || name == ".ozymem_wal"@,
        None => false,
    }
}

fn is_ignore_file(path: &str) -> (r: bool)
    ensures
        r == changes_patterns(path@),
{
    match file_name(path) {
        Some(name) => same_text(name.as_str(), ".ozymemignore") || same_text(
            name.as_str(),
            ".gitignore",
        ),
        None => false,
    }
}

fn is_own_file(path: &str) -> (r: bool)
    ensures
        r == own_file(path@),
{
    match file_name(path) {
        Some(name) => same_text(name.as_str(), ".ozymemignore") || same_text(
            name.as_str(),
            ".gitignore",
        ) || same_text(name.as_str(), ".ozymem_wal"),
        None => false,
    }
}

/// Whether one of the files that changed holds patterns, so that the patterns
/// must be read again.
pub fn patterns_changed(changed: &Vec<String>) -> (r: bool)
    ensures
        r == exists|i: int|
            0 <= i < changed@.len() && changes_patterns((#[trigger] changed@[i])@),
{
    let mut i: usize = 0;
    while i < changed.len()
        invariant
            i <= changed@.len(),
            forall|j: int| 0 <= j < i ==> !changes_patterns((#[trigger] changed@[j])@),
        decreases changed@.len() - i,
    {
        if is_ignore_file(changed[i].as_str()) {
            assert(changes_patterns(changed@[i as int]@));
            return true;
        }
        i += 1;
    }
    false
}

/// What is done about the patterns when files changed.
#[derive(Debug, Clone, Copy, PartialEq, Eq, Structural)]
pub enum PatternAction {
    /// They stay.
    Keep,
    /// They are read again.
    Reload,
    /// They are read again, and the files that they cover are removed from the graph.
    ReloadAndPurge,
}

/// What is done about the patterns when files changed. The graph is purged only
/// while it is reached.
pub fn decide_patterns(state: &WatchState, changed: &Vec<String>) -> (r: PatternAction)
    ensures
        r is Keep <==> !exists|i: int|
            0 <= i < changed@.len() && changes_patterns((#[trigger] changed@[i])@),
        r is Reload ==> !state.connected,
        r is ReloadAndPurge ==> state.connected,
{
    if !patterns_changed(changed) {
        PatternAction::Keep
    } else if state.connected {
        PatternAction::ReloadAndPurge
    } else {
        PatternAction::Reload
    }
}

/// The files of the graph that the patterns cover now, in their order.
pub open spec fn purged(
    all: Seq<Seq<char>>,
    patterns: Seq<Seq<char>>,
    project_root: Seq<char>,
) -> Seq<Seq<char>>
    decreases all.len(),
{
    if all.len() == 0 {
        Seq::empty()
    } else if fs_utils::ignored_by_patterns(all.last(), patterns, project_root) {
        purged(all.drop_last(), patterns, project_root).push(all.last())
    } else {
        purged(all.drop_last(), patterns, project_root)
    }
}

/// The files of the graph that are to be removed because the patterns cover them
/// now.
pub fn files_to_purge(all: &Vec<String>, patterns: &[String], project_root: &str) -> (r: Vec<String>)
    ensures
        r.deep_view() == purged(
            all.deep_view(),
            text::string_texts(patterns@),
            project_root@,
        ),
{
    let ghost texts = all.deep_view();
    let ghost pats = text::string_texts(patterns@);
    let mut out: Vec<String> = Vec::new();
    let mut i: usize = 0;
    assert(out.deep_view() =~= purged(texts.take(0), pats, project_root@));
    while i < all.len()
        invariant
            i <= all@.len(),
            texts == all.deep_view(),
            pats == text::string_texts(patterns@),
            out.deep_view() == purged(texts.take(i as int), pats, project_root@),
        decreases all@.len() - i,
    {
        proof {
            assert(texts.take(i + 1).drop_last() =~= texts.take(i as int));
            assert(texts.take(i + 1).last() == all@[i as int]@);
        }
        let ghost before = out.deep_view();
        if is_ignored_by_patterns(all[i].as_str(), patterns, project_root) {
            let copy = all[i].as_str().to_string();
            out.push(copy);
            assert(out.deep_view() =~= before.push(copy@));
        }
        i += 1;
    }
    assert(texts.take(i as int) =~= texts);
    out
}

/// Whether the removal of a file is of interest.
pub fn should_process_delete(path: &str, ignore_patterns: &[String], project_root: &str) -> (r: bool)
    ensures
        r == !fs_utils::path_skipped(
            path@,
            text::string_texts(ignore_patterns@),
            project_root@,
        ),
{
    !should_skip_path(path, ignore_patterns, project_root)
}

/// Whether a new or changed file is of interest. `is_file` says that it is there
/// and no directory.
pub fn should_watch_path(
    path: &str,
    is_file: bool,
    ignore_patterns: &[String],
    project_root: &str,
) -> (r: bool)
    ensures
        r == (is_file && !fs_utils::path_skipped(
            path@,
            text::string_texts(ignore_patterns@),
            project_root@,
        )),
{
    !should_skip_path(path, ignore_patterns, project_root) && is_file
}

/// What is done about a change of a file.
#[derive(Debug, Clone, Copy, PartialEq, Eq, Structural)]
pub enum ChangeAction {
    /// Nothing.
    Pass,
    /// It is sent to the graph.
    Send(WalAction),
    /// It goes to the log.
    Log(WalAction),
}

/// The change that a file of the graph needs, if it is of interest.
pub open spec fn wanted_change(
    kind: ChangeKind,
    path: Seq<char>,
    is_file: bool,
    patterns: Seq<Seq<char>>,
    project_root: Seq<char>,
) -> Option<WalAction> {
    if own_file(path) || fs_utils::path_skipped(path, patterns, project_root) {
        None
    } else {
        match kind {
            ChangeKind::Create | ChangeKind::Modify => if is_file {
                Some(WalAction::Upsert)
            } else {
                None
            },
            ChangeKind::Remove => Some(WalAction::Delete),
            ChangeKind::Other => None,
        }
    }
}

/// What is done about a change of a file.
pub open spec fn action_on(state: WatchState, wanted: Option<WalAction>) -> ChangeAction {
    match wanted {
        None => ChangeAction::Pass,
        Some(action) => if state.connected {
            ChangeAction::Send(action)
        } else {
            ChangeAction::Log(action)
        },
    }
}

/// What is done about a change of a file.
pub fn decide_change(
    state: &WatchState,
    kind: ChangeKind,
    path: &str,
    is_file: bool,
    ignore_patterns: &[String],
    project_root: &str,
) -> (r: ChangeAction)
    ensures
        r == action_on(
            *state,
            wanted_change(
                kind,
                path@,
                is_file,
                text::string_texts(ignore_patterns@),
                project_root@,
            ),
        ),
{
    if is_own_file(path) {
        return ChangeAction::Pass;
    }
    let wanted = match kind {
        ChangeKind::Create | ChangeKind::Modify => {
            if should_watch_path(path, is_file, ignore_patterns, project_root) {
                Some(WalAction::Upsert)
            } else {
                None
            }
        },
        ChangeKind::Remove => {
            if should_process_delete(path, ignore_patterns, project_root) {
                Some(WalAction::Delete)
            } else {
                None
            }
        },
        ChangeKind::Other => None,
    };
    match wanted {
        None => ChangeAction::Pass,
        Some(action) => {
            if state.connected {
                ChangeAction::Send(action)
            } else {
                ChangeAction::Log(action)
            }
        },
    }
}

// ---------------------------------------------------------------------------
// Losing and finding the graph
// ---------------------------------------------------------------------------

/// Notes that sending failed. Says whether the graph is to be waited for from now
/// on: not if that is done already.
pub fn connection_lost(state: &mut WatchState) -> (r: bool)
    requires
        old(state).wf(),
    ensures
        final(state).wf(),
        !final(state).connected,
        r == !old(state).reconnecting,
{
    if state.reconnecting {
        return false;
    }
    state.connected = false;
    state.reconnecting = true;
    true
}

/// The state after a change was sent, or could not be.
pub open spec fn state_after(state: WatchState, sent: bool) -> WatchState {
    if sent {
        state
    } else {
        WatchState { connected: false, reconnecting: true }
    }
}

/// Notes whether a change was sent. One that was not goes to the log. Says what goes
/// there, and whether the graph is to be waited for from now on.
pub fn after_send(state: &mut WatchState, action: WalAction, sent: bool) -> (r: (
    Option<WalAction>,
    bool,
))
    requires
        old(state).wf(),
    ensures
        final(state).wf(),
        *final(state) == state_after(*old(state), sent),
        r.0 == if sent {
            None
        } else {
            Some(action)
        },
        r.1 == (!sent && !old(state).reconnecting),
{
    if sent {
        return (None, false);
    }
    let wait = connection_lost(state);
    (Some(action), wait)
}

/// Notes that the graph answers again.
pub fn connection_found(state: &mut WatchState)
    ensures
        final(state).wf(),
        final(state).connected,
{
    state.connected = true;
    state.reconnecting = false;
}

/// Notes that the log could not be sent to its end: the graph is waited for once
/// more.
pub fn replay_failed(state: &mut WatchState)
    ensures
        final(state).wf(),
        !final(state).connected,
{
    state.connected = false;
    state.reconnecting = true;
}

/// The entry of the log for a change.
pub fn wal_entry(timestamp: u64, action: WalAction, file_path: &str) -> (r: WalEntry)
    ensures
        r.timestamp == timestamp,
        r.action == action,
        r.file_path@ == file_path@,
{
    WalEntry { timestamp, action, file_path: file_path.to_string() }
}

// ---------------------------------------------------------------------------
// Sending the log
// ---------------------------------------------------------------------------

/// The next step of sending the log.
#[derive(Debug, Clone, PartialEq, Eq)]
pub enum ReplayStep {
    /// The file is read and sent.
    Index(String),
    /// The file is removed from the graph.
    Delete(String),
    /// Nothing is sent: the file is gone.
    Pass,
    /// The log is emptied; all of it was sent.
    Clear,
    /// The log is kept; the graph is waited for.
    Retry,
}

/// A `ReplayStep` as mathematics has it.
#[verifier::ext_equal]
pub enum ReplayModel {
    Index(Seq<char>),
    Delete(Seq<char>),
    Pass,
    Clear,
    Retry,
}

impl ReplayStep {
    pub open spec fn model(self) -> ReplayModel {
        match self {
            ReplayStep::Index(path) => ReplayModel::Index(path@),
            ReplayStep::Delete(path) => ReplayModel::Delete(path@),
            ReplayStep::Pass => ReplayModel::Pass,
            ReplayStep::Clear => ReplayModel::Clear,
            ReplayStep::Retry => ReplayModel::Retry,
        }
    }
}

/// The step at a position of the log. `present` says whether the file of the entry
/// there is there.
pub open spec fn replay_step(
    entries: Seq<WalEntry>,
    position: nat,
    failed: bool,
    present: bool,
) -> ReplayModel {
    if failed {
        ReplayModel::Retry
    } else if position >= entries.len() {
        ReplayModel::Clear
    } else {
        let entry = entries[position as int];
        match entry.action {
            WalAction::Upsert => if present {
                ReplayModel::Index(entry.file_path@)
            } else {
                ReplayModel::Pass
            },
            WalAction::Delete => ReplayModel::Delete(entry.file_path@),
        }
    }
}

/// A log that is being sent: its entries, how many are done, and whether one
/// failed.
#[derive(Debug, Clone, PartialEq, Eq)]
pub struct Replay {
    entries: Vec<WalEntry>,
    done: usize,
    failed: bool,
}

impl Replay {
    pub closed spec fn entries(self) -> Seq<WalEntry> {
        self.entries@
    }

    /// How many entries are done.
    pub closed spec fn position(self) -> nat {
        self.done as nat
    }

    pub closed spec fn has_failed(self) -> bool {
        self.failed
    }

    pub open spec fn wf(self) -> bool {
        self.position() <= self.entries().len()
    }

    /// Begins to send a log.
    pub fn new(entries: Vec<WalEntry>) -> (r: Replay)
        ensures
            r.wf(),
            r.entries() == entries@,
            r.position() == 0,
            !r.has_failed(),
    {
        Replay { entries, done: 0, failed: false }
    }

    /// The file that the next entry is about, so that one can see whether it is
    /// there.
    pub fn next_path(&self) -> (r: Option<&str>)
        requires
            self.wf(),
        ensures
            match r {
                Some(path) => self.position() < self.entries().len() && path@
                    == self.entries()[self.position() as int].file_path@,
                None => self.position() == self.entries().len(),
            },
    {
        if self.done < self.entries.len() {
            Some(self.entries[self.done].file_path.as_str())
        } else {
            None
        }
    }

    /// The next step. `present` says whether the file of the next entry is there.
    pub fn step(&self, present: bool) -> (r: ReplayStep)
        requires
            self.wf(),
        ensures
            r.model() == replay_step(self.entries(), self.position(), self.has_failed(), present),
    {
        if self.failed {
            return ReplayStep::Retry;
        }
        if self.done >= self.entries.len() {
            return ReplayStep::Clear;
        }
        let entry = &self.entries[self.done];
        match entry.action {
            WalAction::Upsert => {
                if present {
                    ReplayStep::Index(entry.file_path.as_str().to_string())
                } else {
                    ReplayStep::Pass
                }
            },
            WalAction::Delete => ReplayStep::Delete(entry.file_path.as_str().to_string()),
        }
    }

    /// Notes whether the step went well. An entry that failed is not done.
    pub fn advance(&mut self, went_well: bool)
        requires
            old(self).wf(),
            old(self).position() < old(self).entries().len(),
        ensures
            final(self).wf(),
            final(self).entries() == old(self).entries(),
            final(self).position() == if went_well {
                old(self).position() + 1
            } else {
                old(self).position()
            },
            final(self).has_failed() == (old(self).has_failed() || !went_well),
    {
        if went_well {
            assert(self.done < self.entries.len());
            self.done = self.done + 1;
        } else {
            self.failed = true;
        }
    }
}

// ---------------------------------------------------------------------------
// Laws
// ---------------------------------------------------------------------------

/// Entry `i` is sent, and not passed over.
pub open spec fn is_sent(entries: Seq<WalEntry>, present: spec_fn(int) -> bool, i: int) -> bool {
    entries[i].action == WalAction::Delete || present(i)
}

/// Where sending a log ends: the position, and whether the log is emptied.
/// `present(i)` says whether the file of entry `i` is there, and `sends(i)` whether
/// sending it goes well.
pub open spec fn replay_end(
    entries: Seq<WalEntry>,
    position: nat,
    present: spec_fn(int) -> bool,
    sends: spec_fn(int) -> bool,
) -> (nat, bool)
    decreases entries.len() - position,
{
    match replay_step(entries, position, false, present(position as int)) {
        ReplayModel::Clear => (position, true),
        ReplayModel::Retry => (position, false),
        ReplayModel::Pass => if position < entries.len() {
            replay_end(entries, position + 1, present, sends)
        } else {
            (position, true)
        },
        _ => if position < entries.len() && sends(position as int) {
            replay_end(entries, position + 1, present, sends)
        } else {
            (position, false)
        },
    }
}

/// The log is sent in its order, and emptied only if all of it was sent: every
/// entry before the end went well, and where the log is kept it was the entry at
/// the end that failed, with nothing sent after it.
pub proof fn law_log_is_sent_in_order(
    entries: Seq<WalEntry>,
    position: nat,
    present: spec_fn(int) -> bool,
    sends: spec_fn(int) -> bool,
)
    requires
        position <= entries.len(),
    ensures
        ({
            let (end, cleared) = replay_end(entries, position, present, sends);
            &&& position <= end <= entries.len()
            &&& forall|i: int|
                position <= i < end && #[trigger] is_sent(entries, present, i) ==> sends(i)
            &&& cleared ==> end == entries.len()
            &&& !cleared ==> end < entries.len() && is_sent(entries, present, end as int) && !sends(
                end as int,
            )
        }),
    decreases entries.len() - position,
{
    if position < entries.len() {
        let p = position as int;
        if !is_sent(entries, present, p) || sends(p) {
            law_log_is_sent_in_order(entries, position + 1, present, sends);
        }
    }
}

/// What becomes of changes that follow one another while the graph is not found
/// again: the state, which of them were sent, and which went to the log. `sends(i)`
/// says whether sending change `i` goes well.
pub open spec fn handled(
    state: WatchState,
    changes: Seq<Option<WalAction>>,
    sends: spec_fn(int) -> bool,
) -> (WatchState, Seq<int>, Seq<int>)
    decreases changes.len(),
{
    if changes.len() == 0 {
        (state, Seq::empty(), Seq::empty())
    } else {
        let i = changes.len() - 1;
        let (before, sent, logged) = handled(state, changes.drop_last(), sends);
        match action_on(before, changes.last()) {
            ChangeAction::Pass => (before, sent, logged),
            ChangeAction::Log(_) => (before, sent, logged.push(i)),
            ChangeAction::Send(_) => if sends(i) {
                (state_after(before, true), sent.push(i), logged)
            } else {
                (state_after(before, false), sent, logged.push(i))
            },
        }
    }
}

/// A change is never lost, and the order of the changes is kept: each change that is
/// of interest is sent or goes to the log, and once one went to the log all later
/// ones do.
pub proof fn law_changes_are_kept(
    state: WatchState,
    changes: Seq<Option<WalAction>>,
    sends: spec_fn(int) -> bool,
)
    requires
        state.wf(),
    ensures
        ({
            let (after, sent, logged) = handled(state, changes, sends);
            &&& after.wf()
            &&& after.connected ==> logged.len() == 0
            &&& forall|i: int|
                0 <= i < changes.len() && (#[trigger] changes[i]) is Some ==> sent.contains(i)
                    || logged.contains(i)
            &&& forall|a: int|
                0 <= a < sent.len() ==> 0 <= #[trigger] sent[a] < changes.len()
                    && changes[sent[a]] is Some && sends(sent[a])
            &&& forall|b: int|
                0 <= b < logged.len() ==> 0 <= #[trigger] logged[b] < changes.len()
                    && changes[logged[b]] is Some
            &&& forall|a: int, b: int|
                0 <= a < sent.len() && 0 <= b < logged.len() ==> #[trigger] sent[a]
                    < #[trigger] logged[b]
            &&& forall|a: int, b: int|
                0 <= a < b < sent.len() ==> #[trigger] sent[a] < #[trigger] sent[b]
            &&& forall|a: int, b: int|
                0 <= a < b < logged.len() ==> #[trigger] logged[a] < #[trigger] logged[b]
        }),
    decreases changes.len(),
{
    if changes.len() > 0 {
        let rest = changes.drop_last();
        law_changes_are_kept(state, rest, sends);
        let (before, sent0, logged0) = handled(state, rest, sends);
        let (after, sent, logged) = handled(state, changes, sends);
        let last = changes.len() - 1;
        assert forall|i: int| 0 <= i < changes.len() && (#[trigger] changes[i]) is Some implies sent.contains(
            i,
        ) || logged.contains(i) by {
            if i < last {
                assert(rest[i] is Some);
                if sent0.contains(i) {
                    let a = choose|a: int| 0 <= a < sent0.len() && sent0[a] == i;
                    assert(sent[a] == i);
                } else {
                    let b = choose|b: int| 0 <= b < logged0.len() && logged0[b] == i;
                    assert(logged[b] == i);
                }
            } else if sent.len() > sent0.len() {
                assert(sent[sent0.len() as int] == i);
            } else {
                assert(logged[logged0.len() as int] == i);
            }
        }
    }
}

/// The watcher does not act on its own files.
pub proof fn law_own_files_are_passed(
    state: WatchState,
    kind: ChangeKind,
    path: Seq<char>,
    is_file: bool,
    patterns: Seq<Seq<char>>,
    project_root: Seq<char>,
)
    requires
        own_file(path),
    ensures
        action_on(state, wanted_change(kind, path, is_file, patterns, project_root))
            == ChangeAction::Pass,
{
}

/// After a purge no file that the patterns cover is left out: exactly those are
/// removed.
pub proof fn law_purge_is_exact(
    all: Seq<Seq<char>>,
    patterns: Seq<Seq<char>>,
    project_root: Seq<char>,
    path: Seq<char>,
)
    ensures
        purged(all, patterns, project_root).contains(path) <==> all.contains(path)
            && fs_utils::ignored_by_patterns(path, patterns, project_root),
    decreases all.len(),
{
    if all.len() > 0 {
        let rest = all.drop_last();
        let before = purged(rest, patterns, project_root);
        law_purge_is_exact(rest, patterns, project_root, path);
        assert(all.contains(path) <==> rest.contains(path) || all.last() == path) by {
            if all.contains(path) {
                let i = choose|i: int| 0 <= i < all.len() && all[i] == path;
                if i < rest.len() {
                    assert(rest[i] == path);
                }
            }
            if rest.contains(path) {
                let i = choose|i: int| 0 <= i < rest.len() && rest[i] == path;
                assert(all[i] == path);
            }
            if all.last() == path {
                assert(all[all.len() - 1] == path);
            }
        }
        if fs_utils::ignored_by_patterns(all.last(), patterns, project_root) {
            let after = before.push(all.last());
            assert(after.contains(path) <==> before.contains(path) || all.last() == path) by {
                if after.contains(path) {
                    let i = choose|i: int| 0 <= i < after.len() && after[i] == path;
                    if i < before.len() {
                        assert(before[i] == path);
                    }
                }
                if before.contains(path) {
                    let i = choose|i: int| 0 <= i < before.len() && before[i] == path;
                    assert(after[i] == path);
                }
                if all.last() == path {
                    assert(after[after.len() - 1] == path);
                }
            }
        }
    }
}

/// A file that is there and new or changed is put into the graph, and one that is gone
/// is removed from it, unless the file is one of the watcher's own or is passed over.
pub proof fn law_changes_of_interest(
    kind: ChangeKind,
    path: Seq<char>,
    is_file: bool,
    patterns: Seq<Seq<char>>,
    project_root: Seq<char>,
)
    ensures
        ({
            let passed = own_file(path) || fs_utils::path_skipped(path, patterns, project_root);
            let wanted = wanted_change(kind, path, is_file, patterns, project_root);
            &&& wanted == Some(WalAction::Upsert) <==> !passed && is_file && (kind
                == ChangeKind::Create || kind == ChangeKind::Modify)
            &&& wanted == Some(WalAction::Delete) <==> !passed && kind == ChangeKind::Remove
        }),
{
}

/// A change of interest is sent as it is while the graph is reached, and goes to the log
/// as it is while it is not. Once sending fails the graph is not reached.
pub proof fn law_changes_go_to_the_graph_or_the_log(state: WatchState, action: WalAction)
    ensures
        state.connected ==> action_on(state, Some(action)) == ChangeAction::Send(action),
        !state.connected ==> action_on(state, Some(action)) == ChangeAction::Log(action),
        action_on(state, None) == ChangeAction::Pass,
        !state_after(state, false).connected,
        state_after(state, false).reconnecting,
        state_after(state, true) == state,
{
}

/// The files that hold patterns, and the log, are the watcher's own.
pub proof fn law_own_files(path: Seq<char>, name: Seq<char>)
    requires
        paths::file_name_of(path) == Some(name),
    ensures
        changes_patterns(path) <==> name == ".ozymemignore"@ || name == ".gitignore"@,
        own_file(path) <==> name == ".ozymemignore"@ || name == ".gitignore"@ || name
            == ".ozymem_wal"@,
{
}

/// Sending the log sends each entry as it was noted: a file that was put in and is there
/// is read again, and one that was removed is removed. After the last entry the log is
/// emptied, and after a failure it is kept.
pub proof fn law_entries_are_sent_as_noted(
    entries: Seq<WalEntry>,
    position: nat,
    failed: bool,
    present: bool,
)
    ensures
        ({
            let step = replay_step(entries, position, failed, present);
            let entry = entries[position as int];
            &&& step is Retry <==> failed
            &&& step is Clear <==> !failed && position >= entries.len()
            &&& !failed && position < entries.len() && entry.action == WalAction::Delete ==> step
                == ReplayModel::Delete(entry.file_path@)
            &&& !failed && position < entries.len() && entry.action == WalAction::Upsert
                && present ==> step == ReplayModel::Index(entry.file_path@)
            &&& !failed && position < entries.len() && entry.action == WalAction::Upsert
                && !present ==> step is Pass
        }),
{
}

/// The files that are removed because patterns cover them come in their order, each as
/// often as it is there.
pub proof fn law_purged_in_order(
    all: Seq<Seq<char>>,
    patterns: Seq<Seq<char>>,
    project_root: Seq<char>,
)
    ensures
        purged(all, patterns, project_root) == all.filter(
            |path: Seq<char>| fs_utils::ignored_by_patterns(path, patterns, project_root),
        ),
    decreases all.len(),
{
    reveal(Seq::filter);
    let covered = |path: Seq<char>| fs_utils::ignored_by_patterns(path, patterns, project_root);
    if all.len() > 0 {
        law_purged_in_order(all.drop_last(), patterns, project_root);
    } else {
        assert(all.filter(covered) =~= purged(all, patterns, project_root));
    }
}

/// A path without a name is no file of the watcher's own, and changes no patterns.
pub proof fn law_paths_without_names(path: Seq<char>)
    requires
        paths::file_name_of(path) is None,
    ensures
        !changes_patterns(path),
        !own_file(path),
{
}

} // verus!
