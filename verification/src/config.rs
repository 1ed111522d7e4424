//! The configuration of the command line client: the brains it knows, the
//! registered projects, and the backend that it works with.

use crate::credentials;
use crate::credentials::{format_credential, new_identifier, new_token, tenant_from_token};
use crate::records::{default_memgraph_database, MemgraphConfig};
use crate::text;
use crate::text::{begins_with, concat2, concat3, decimal_u64, has_char, has_text, same_text, sort};
use vstd::prelude::*;

verus! {

/// Where a brain is.
#[derive(Debug, Clone, PartialEq, Eq)]
pub struct BrainConfig {
    pub host: String,
    pub port: u16,
}

/// The configuration. No name stands twice among the brains, nor among the
/// projects.
#[derive(Debug, Clone, PartialEq, Eq)]
pub struct OzymemConfig {
    pub current_brain: String,
    pub brains: Vec<(String, BrainConfig)>,
    pub projects: Vec<(String, String)>,
    pub token: Option<String>,
}

#[derive(Debug, Clone, PartialEq, Eq)]
pub enum McpSubcommand {
    Run,
    Setup,
    Start,
    Stop,
    Install,
}

#[derive(Debug, Clone, PartialEq, Eq)]
pub enum TeamSubcommand {
    Create { user: String, role: String },
}

#[derive(Debug, Clone, PartialEq, Eq)]
pub enum GprSubcommand {
    Push { message: String },
    List,
    Diff { gpr_id: i64 },
    Merge { gpr_id: i64 },
}

#[derive(Debug, Clone, PartialEq, Eq)]
pub enum AuthSubcommand {
    ResetToken,
}

#[derive(Debug, Clone, PartialEq, Eq)]
pub enum SessionSubcommand {
    List,
    Kick { session_id: String },
}

// ---------------------------------------------------------------------------
// Entries
// ---------------------------------------------------------------------------

/// The position of a name, if it stands among the entries.
pub open spec fn position_of<T>(entries: Seq<(String, T)>, name: Seq<char>) -> Option<int>
    decreases entries.len(),
{
    if entries.len() == 0 {
        None
    } else {
        match position_of(entries.drop_last(), name) {
            Some(i) => Some(i),
            None => if entries.last().0@ == name {
                Some(entries.len() - 1)
            } else {
                None
            },
        }
    }
}

/// No name stands twice.
pub open spec fn unique_names<T>(entries: Seq<(String, T)>) -> bool {
    forall|i: int, j: int|
        #![trigger entries[i], entries[j]]
        0 <= i < j < entries.len() ==> entries[i].0@ != entries[j].0@
}

/// The names of the entries.
pub open spec fn names_of<T>(entries: Seq<(String, T)>) -> Seq<Seq<char>> {
    Seq::new(entries.len(), |i: int| entries[i].0@)
}

pub proof fn lemma_position_of<T>(entries: Seq<(String, T)>, name: Seq<char>)
    ensures
        match position_of(entries, name) {
            Some(i) => 0 <= i < entries.len() && entries[i].0@ == name && forall|j: int|
                0 <= j < i ==> (#[trigger] entries[j]).0@ != name,
            None => forall|j: int| 0 <= j < entries.len() ==> (#[trigger] entries[j]).0@ != name,
        },
    decreases entries.len(),
{
    if entries.len() > 0 {
        let rest = entries.drop_last();
        lemma_position_of(rest, name);
        assert(forall|j: int| 0 <= j < rest.len() ==> rest[j] == entries[j]);
        if position_of(rest, name) is None {
            assert forall|j: int| 0 <= j < entries.len() - 1 implies (#[trigger] entries[j]).0@
                != name by {
                assert(rest[j] == entries[j]);
            }
        }
    }
}

fn find_entry<T>(entries: &Vec<(String, T)>, name: &str) -> (r: Option<usize>)
    ensures
        match r {
            Some(i) => i < entries@.len() && position_of(entries@, name@) == Some(i as int)
                && entries@[i as int].0@ == name@,
            None => position_of(entries@, name@) is None,
        },
{
    let mut i: usize = 0;
    while i < entries.len()
        invariant
            i <= entries@.len(),
            forall|j: int| 0 <= j < i ==> (#[trigger] entries@[j]).0@ != name@,
        decreases entries@.len() - i,
    {
        if same_text(entries[i].0.as_str(), name) {
            proof {
                lemma_position_of(entries@, name@);
                assert(entries@[i as int].0@ == name@);
            }
            return Some(i);
        }
        i += 1;
    }
    proof {
        lemma_position_of(entries@, name@);
    }
    None
}

impl OzymemConfig {
    /// No name stands twice among the brains, nor among the projects.
    pub open spec fn wf(self) -> bool {
        unique_names(self.brains@) && unique_names(self.projects@)
    }

    /// The path of a registered project.
    pub open spec fn project_path(self, name: Seq<char>) -> Option<Seq<char>> {
        match position_of(self.projects@, name) {
            Some(i) => Some(self.projects@[i].1@),
            None => None,
        }
    }

    /// The host and the port of a brain.
    pub open spec fn brain_address(self, name: Seq<char>) -> Option<(Seq<char>, u16)> {
        match position_of(self.brains@, name) {
            Some(i) => Some((self.brains@[i].1.host@, self.brains@[i].1.port)),
            None => None,
        }
    }

    /// The path of a registered project.
    pub fn project(&self, name: &str) -> (r: Option<&str>)
        ensures
            match r {
                Some(path) => self.project_path(name@) == Some(path@),
                None => self.project_path(name@) is None,
            },
    {
        match find_entry(&self.projects, name) {
            Some(i) => Some(self.projects[i].1.as_str()),
            None => None,
        }
    }

    /// Where a brain is.
    pub fn brain(&self, name: &str) -> (r: Option<&BrainConfig>)
        ensures
            match r {
                Some(b) => self.brain_address(name@) == Some((b.host@, b.port)),
                None => self.brain_address(name@) is None,
            },
    {
        match find_entry(&self.brains, name) {
            Some(i) => Some(&self.brains[i].1),
            None => None,
        }
    }

    /// Registers a project, or moves it to another path.
    pub fn register_project(&mut self, name: &str, path: &str)
        requires
            old(self).wf(),
        ensures
            final(self).wf(),
            final(self).project_path(name@) == Some(path@),
            forall|other: Seq<char>|
                other != name@ ==> #[trigger] final(self).project_path(other) == old(
                    self,
                ).project_path(other),
            final(self).brains == old(self).brains,
            final(self).current_brain == old(self).current_brain,
            final(self).token == old(self).token,
    {
        let ghost before = self.projects@;
        match find_entry(&self.projects, name) {
            Some(i) => {
                self.projects[i].1 = path.to_string();
                proof {
                    let after = self.projects@;
                    assert(forall|k: int| 0 <= k < after.len() ==> after[k].0 == before[k].0);
                    assert forall|other: Seq<char>| position_of(after, other) == position_of(
                        before,
                        other,
                    ) by {
                        lemma_same_names(before, after, other);
                    }
                    lemma_position_of(before, name@);
                    assert forall|other: Seq<char>| other != name@ implies #[trigger] self.project_path(
                        other,
                    ) == old(self).project_path(other) by {
                        lemma_position_of(before, other);
                    }
                }
            },
            None => {
                self.projects.push((name.to_string(), path.to_string()));
                proof {
                    let after = self.projects@;
                    lemma_position_of(before, name@);
                    assert(after.drop_last() =~= before);
                    assert forall|i: int, j: int| 0 <= i < j < after.len() implies after[i].0@
                        != after[j].0@ by {
                        if j == after.len() - 1 {
                            assert(after[i] == before[i]);
                        } else {
                            assert(after[i] == before[i] && after[j] == before[j]);
                        }
                    }
                    assert forall|other: Seq<char>| other != name@ implies #[trigger] self.project_path(
                        other,
                    ) == old(self).project_path(other) by {
                        lemma_position_of(before, other);
                    }
                }
            },
        }
    }

    /// Takes a project out of the registered ones. Says whether it was there.
    pub fn remove_project(&mut self, name: &str) -> (r: bool)
        requires
            old(self).wf(),
        ensures
            final(self).wf(),
            r == old(self).project_path(name@) is Some,
            final(self).project_path(name@) is None,
            forall|other: Seq<char>|
                other != name@ ==> #[trigger] final(self).project_path(other) == old(
                    self,
                ).project_path(other),
            !r ==> *final(self) == *old(self),
            final(self).brains == old(self).brains,
            final(self).current_brain == old(self).current_brain,
            final(self).token == old(self).token,
    {
        let ghost before = self.projects@;
        match find_entry(&self.projects, name) {
            Some(i) => {
                self.projects.remove(i);
                proof {
                    let after = self.projects@;
                    assert(after =~= before.remove(i as int));
                    assert forall|a: int, b: int| 0 <= a < b < after.len() implies after[a].0@
                        != after[b].0@ by {
                        let x = if a < i {
                            a
                        } else {
                            a + 1
                        };
                        let y = if b < i {
                            b
                        } else {
                            b + 1
                        };
                        assert(after[a] == before[x] && after[b] == before[y]);
                    }
                    lemma_position_of(before, name@);
                    lemma_position_of(after, name@);
                    assert(position_of(after, name@) is None) by {
                        if let Some(k) = position_of(after, name@) {
                            let x = if k < i {
                                k
                            } else {
                                k + 1
                            };
                            assert(after[k] == before[x]);
                            assert(before[x].0@ == before[i as int].0@);
                        }
                    }
                    assert forall|other: Seq<char>| other != name@ implies #[trigger] self.project_path(
                        other,
                    ) == old(self).project_path(other) by {
                        lemma_removed_entry(before, i as int, other);
                    }
                }
                true
            },
            None => false,
        }
    }

    /// Sets where a brain is.
    pub fn set_brain(&mut self, name: &str, brain: BrainConfig)
        requires
            old(self).wf(),
        ensures
            final(self).wf(),
            final(self).brain_address(name@) == Some((brain.host@, brain.port)),
            final(self).projects == old(self).projects,
            final(self).current_brain == old(self).current_brain,
            final(self).token == old(self).token,
            forall|other: Seq<char>|
                other != name@ ==> #[trigger] final(self).brain_address(other) == old(
                    self,
                ).brain_address(other),
    {
        let ghost before = self.brains@;
        match find_entry(&self.brains, name) {
            Some(i) => {
                self.brains[i].1 = brain;
                proof {
                    let after = self.brains@;
                    assert(forall|k: int| 0 <= k < after.len() ==> after[k].0 == before[k].0);
                    lemma_position_of(before, name@);
                    lemma_same_names(before, after, name@);
                    assert forall|other: Seq<char>| other != name@ implies #[trigger] self.brain_address(
                        other,
                    ) == old(self).brain_address(other) by {
                        lemma_same_names(before, after, other);
                        lemma_position_of(before, other);
                    }
                }
            },
            None => {
                self.brains.push((name.to_string(), brain));
                proof {
                    let after = self.brains@;
                    lemma_position_of(before, name@);
                    assert(after.drop_last() =~= before);
                    assert forall|i: int, j: int| 0 <= i < j < after.len() implies after[i].0@
                        != after[j].0@ by {
                        if j == after.len() - 1 {
                            assert(after[i] == before[i]);
                        } else {
                            assert(after[i] == before[i] && after[j] == before[j]);
                        }
                    }
                    assert forall|other: Seq<char>| other != name@ implies #[trigger] self.brain_address(
                        other,
                    ) == old(self).brain_address(other) by {
                        lemma_position_of(before, other);
                    }
                }
            },
        }
    }

    /// The names of the registered projects, in the order of a dictionary.
    pub fn sorted_project_names(&self) -> (r: Vec<String>)
        ensures
            text::sorted_texts(r.deep_view()),
            r.deep_view().to_multiset() == names_of(self.projects@).to_multiset(),
            r@.len() == self.projects@.len(),
    {
        let mut names: Vec<String> = Vec::new();
        let mut i: usize = 0;
        while i < self.projects.len()
            invariant
                i <= self.projects@.len(),
                names@.len() == i,
                forall|k: int| 0 <= k < i ==> (#[trigger] names@[k])@ == self.projects@[k].0@,
            decreases self.projects@.len() - i,
        {
            names.push(self.projects[i].0.as_str().to_string());
            i += 1;
        }
        assert(names.deep_view() =~= names_of(self.projects@));
        sort(&names)
    }
}

proof fn lemma_same_names<T>(before: Seq<(String, T)>, after: Seq<(String, T)>, name: Seq<char>)
    requires
        before.len() == after.len(),
        forall|k: int| 0 <= k < after.len() ==> (#[trigger] after[k]).0 == before[k].0,
    ensures
        position_of(after, name) == position_of(before, name),
    decreases before.len(),
{
    if before.len() > 0 {
        let a = after.drop_last();
        let b = before.drop_last();
        assert forall|k: int| 0 <= k < a.len() implies (#[trigger] a[k]).0 == b[k].0 by {
            assert(a[k] == after[k] && b[k] == before[k]);
        }
        lemma_same_names(b, a, name);
    }
}

proof fn lemma_removed_entry(before: Seq<(String, String)>, at: int, name: Seq<char>)
    requires
        unique_names(before),
        0 <= at < before.len(),
        before[at].0@ != name,
    ensures
        ({
            let after = before.remove(at);
            match position_of(before, name) {
                Some(i) => position_of(after, name) matches Some(j) && after[j].1 == before[i].1,
                None => position_of(after, name) is None,
            }
        }),
{
    let after = before.remove(at);
    lemma_position_of(before, name);
    lemma_position_of(after, name);
    match position_of(before, name) {
        Some(i) => {
            let k = if i < at {
                i
            } else {
                i - 1
            };
            assert(after[k] == before[i]);
            let j = position_of(after, name)->0;
            let x = if j < at {
                j
            } else {
                j + 1
            };
            assert(after[j] == before[x]);
            if x < i {
                assert(before[x].0@ != before[i].0@);
            } else if x > i {
                assert(before[i].0@ != before[x].0@);
            }
        },
        None => {
            if let Some(j) = position_of(after, name) {
                let x = if j < at {
                    j
                } else {
                    j + 1
                };
                assert(after[j] == before[x]);
            }
        },
    }
}

impl Default for OzymemConfig {
    /// One brain, on this machine, and no projects.
    fn default() -> (r: OzymemConfig)
        ensures
            r.wf(),
            r.current_brain@ == "local_docker"@,
            r.brains@.len() == 1,
            r.brains@[0].0@ == "local_docker"@,
            r.brains@[0].1.host@ == "127.0.0.1"@,
            r.brains@[0].1.port == 7687,
            r.projects@.len() == 0,
            r.token is None,
    {
        OzymemConfig {
            current_brain: "local_docker".to_string(),
            brains: vec![
                (
                    "local_docker".to_string(),
                    BrainConfig { host: "127.0.0.1".to_string(), port: 7687 },
                ),
            ],
            projects: Vec::new(),
            token: None,
        }
    }
}

// ---------------------------------------------------------------------------
// The backend
// ---------------------------------------------------------------------------

/// The settings of the environment, as far as they are set.
#[derive(Debug, Clone, PartialEq, Eq)]
pub struct Settings {
    pub server_url: Option<String>,
    pub memgraph_uri: Option<String>,
    pub server_id: Option<String>,
    pub user_token: Option<String>,
    pub mcp_token: Option<String>,
}

/// The backend that the client works with: a server over HTTP, or a graph
/// database at an address.
#[derive(Debug, Clone, PartialEq, Eq)]
pub enum BackendChoice {
    Remote { url: String, token: String },
    Local { uri: String },
}

/// A `BackendChoice` as mathematics has it.
#[verifier::ext_equal]
pub enum ChoiceModel {
    Remote { url: Seq<char>, token: Seq<char> },
    Local { uri: Seq<char> },
}

impl BackendChoice {
    pub open spec fn model(self) -> ChoiceModel {
        match self {
            BackendChoice::Remote { url, token } => ChoiceModel::Remote { url: url@, token: token@ },
            BackendChoice::Local { uri } => ChoiceModel::Local { uri: uri@ },
        }
    }
}

/// The host: the server that is set, or the graph database that is set, or the
/// current brain.
pub open spec fn host_of(config: OzymemConfig, settings: Settings) -> Seq<char> {
    match settings.server_url {
        Some(url) => url@,
        None => match settings.memgraph_uri {
            Some(uri) => uri@,
            None => config.current_brain@,
        },
    }
}

/// The token that is set, or that of the configuration, or none.
pub open spec fn plain_token(config: OzymemConfig, settings: Settings) -> Seq<char> {
    match settings.mcp_token {
        Some(token) => token@,
        None => match config.token {
            Some(token) => token@,
            None => ""@,
        },
    }
}

/// The token for the backend: a server and a user that are both set come first.
pub open spec fn token_of(config: OzymemConfig, settings: Settings) -> Seq<char> {
    match (settings.server_id, settings.user_token) {
        (Some(server), Some(user)) => credentials::credential(server@, user@),
        _ => plain_token(config, settings),
    }
}

/// The address of a graph database on a host: the brain of that name, or the host
/// itself. A host with a colon is a full address.
pub open spec fn local_uri(config: OzymemConfig, host: Seq<char>) -> Seq<char> {
    let (name, port) = match config.brain_address(host) {
        Some((name, port)) => (name, port),
        None => (host, 7687u16),
    };
    if name.contains(':') {
        name
    } else {
        name + ":"@ + text::decimal(port as int)
    }
}

/// The backend that the client works with.
pub open spec fn backend_of(config: OzymemConfig, settings: Settings) -> ChoiceModel {
    let host = host_of(config, settings);
    if text::starts_with(host, "http://"@) || text::starts_with(host, "https://"@) {
        ChoiceModel::Remote { url: host, token: token_of(config, settings) }
    } else {
        ChoiceModel::Local { uri: local_uri(config, host) }
    }
}

fn plain_token_text(config: &OzymemConfig, settings: &Settings) -> (r: String)
    ensures
        r@ == plain_token(*config, *settings),
{
    match &settings.mcp_token {
        Some(token) => token.as_str().to_string(),
        None => match &config.token {
            Some(token) => token.as_str().to_string(),
            None => "".to_string(),
        },
    }
}

/// The backend that the client works with.
pub fn choose_backend(config: &OzymemConfig, settings: &Settings) -> (r: BackendChoice)
    ensures
        r.model() == backend_of(*config, *settings),
{
    let host = match &settings.server_url {
        Some(url) => url.as_str(),
        None => match &settings.memgraph_uri {
            Some(uri) => uri.as_str(),
            None => config.current_brain.as_str(),
        },
    };
    if begins_with(host, "http://") || begins_with(host, "https://") {
        let token = match (&settings.server_id, &settings.user_token) {
            (Some(server), Some(user)) => format_credential(server.as_str(), user.as_str()),
            _ => plain_token_text(config, settings),
        };
        return BackendChoice::Remote { url: host.to_string(), token };
    }
    let (name, port) = match config.brain(host) {
        Some(brain) => (brain.host.as_str(), brain.port),
        None => (host, 7687u16),
    };
    let uri = if has_char(name, ':') {
        name.to_string()
    } else {
        concat3(name, ":", decimal_u64(port as u64).as_str())
    };
    BackendChoice::Local { uri }
}

/// How to reach a graph database. A user and a password must be set.
pub fn local_settings(
    uri: String,
    user: Option<String>,
    password: Option<String>,
    database: Option<String>,
) -> (r: Result<MemgraphConfig, String>)
    ensures
        match r {
            Ok(c) => user == Some(c.user) && password == Some(c.password) && c.uri == uri
                && c.database@ == (match database {
                Some(d) => d@,
                None => "memgraph"@,
            }),
            Err(message) => {
                ||| user is None && message@
                    == "MEMGRAPH_USER environment variable is required. Set it to your Memgraph username."@
                ||| user is Some && password is None && message@
                    == "MEMGRAPH_PASSWORD environment variable is required. Set it to your Memgraph password."@
            },
        },
{
    match (user, password) {
        (None, _) => Err(
            "MEMGRAPH_USER environment variable is required. Set it to your Memgraph username.".to_string(),
        ),
        (Some(_), None) => Err(
            "MEMGRAPH_PASSWORD environment variable is required. Set it to your Memgraph password.".to_string(),
        ),
        (Some(user), Some(password)) => {
            let database = match database {
                Some(d) => d,
                None => default_memgraph_database().to_string(),
            };
            Ok(MemgraphConfig { uri, user, password, database })
        },
    }
}

/// An address with its scheme: that of the database protocol unless it has one.
pub open spec fn display_address(uri: Seq<char>) -> Seq<char> {
    if text::contains_text(uri, "://"@) {
        uri
    } else {
        "bolt://"@ + uri
    }
}

/// An address with its scheme.
pub fn display_memgraph_uri(uri: &str) -> (r: String)
    ensures
        r@ == display_address(uri@),
{
    if has_text(uri, "://") {
        uri.to_string()
    } else {
        concat2("bolt://", uri)
    }
}

/// The tenant whose graph a client works on: the one that its token names, or the
/// local one. Without a server the token is the one that is set or configured.
pub fn client_tenant(remote_token: Option<&str>, config: &OzymemConfig, settings: &Settings) -> (r:
    String)
    ensures
        r@ == credentials::tenant_of(
            match remote_token {
                Some(token) => token@,
                None => plain_token(*config, *settings),
            },
            "local"@,
        ),
{
    match remote_token {
        Some(token) => tenant_from_token(token, "local"),
        None => tenant_from_token(plain_token_text(config, settings).as_str(), "local"),
    }
}

/// The tenant that a new user of a local graph belongs to.
pub fn new_user_tenant(config: &OzymemConfig, settings: &Settings) -> (r: String)
    ensures
        r@ == credentials::tenant_of(plain_token(*config, *settings), "default_tenant"@),
{
    tenant_from_token(plain_token_text(config, settings).as_str(), "default_tenant")
}

/// Sets the server that the client works with from now on.
pub fn install_server(config: &mut OzymemConfig, server_uuid: &str, server_url: &str, credential: &str)
    requires
        old(config).wf(),
    ensures
        final(config).wf(),
        final(config).current_brain@ == "remote_"@ + server_uuid@,
        final(config).brain_address("remote_"@ + server_uuid@) == Some((server_url@, 80u16)),
        final(config).token.deep_view() == Some(credential@),
        final(config).projects == old(config).projects,
        forall|other: Seq<char>|
            other != "remote_"@ + server_uuid@ ==> #[trigger] final(config).brain_address(other)
                == old(config).brain_address(other),
{
    let name = concat2("remote_", server_uuid);
    config.set_brain(name.as_str(), BrainConfig { host: server_url.to_string(), port: 80 });
    let ghost placed = *config;
    config.current_brain = name;
    config.token = Some(credential.to_string());
    assert forall|other: Seq<char>| #[trigger] config.brain_address(other) == placed.brain_address(
        other,
    ) by {}
}

/// The tenant of the configured token, or a new one.
pub open spec fn renewed_tenant(config: OzymemConfig, identifier: Seq<char>) -> Seq<char> {
    credentials::tenant_of(
        match config.token {
            Some(token) => token@,
            None => ""@,
        },
        identifier,
    )
}

/// Puts a new token into the configuration, for the tenant of the old one, or for
/// a new tenant if there is none. Gives the tenant and the new credential.
pub fn set_token(config: &mut OzymemConfig, identifier: &str, token: &str) -> (r: (String, String))
    requires
        old(config).wf(),
    ensures
        final(config).wf(),
        r.0@ == renewed_tenant(*old(config), identifier@),
        r.1@ == credentials::credential(r.0@, token@),
        final(config).token.deep_view() == Some(r.1@),
        final(config).projects == old(config).projects,
        final(config).brains == old(config).brains,
        final(config).current_brain == old(config).current_brain,
{
    let tenant = match &config.token {
        Some(current) => tenant_from_token(current.as_str(), identifier),
        None => tenant_from_token("", identifier),
    };
    let credential = format_credential(tenant.as_str(), token);
    config.token = Some(credential.as_str().to_string());
    (tenant, credential)
}

/// Puts a new random token into the configuration. Gives the tenant, the token and
/// the credential.
pub fn renew_token(config: &mut OzymemConfig) -> (r: (String, String, String))
    requires
        old(config).wf(),
    ensures
        final(config).wf(),
        exists|identifier: Seq<u8>|
            identifier.len() == 8 && r.0@ == renewed_tenant(
                *old(config),
                #[trigger] credentials::hex_text(identifier),
            ),
        exists|bytes: Seq<u8>| bytes.len() == 16 && r.1@ == #[trigger] credentials::hex_text(bytes),
        r.2@ == credentials::credential(r.0@, r.1@),
        final(config).token.deep_view() == Some(r.2@),
        final(config).projects == old(config).projects,
        final(config).brains == old(config).brains,
        final(config).current_brain == old(config).current_brain,
{
    let identifier = new_identifier();
    let token = new_token();
    let (tenant, credential) = set_token(config, identifier.as_str(), token.as_str());
    (tenant, token, credential)
}

// ---------------------------------------------------------------------------
// Laws
// ---------------------------------------------------------------------------

/// A new token is one of the same tenant as the old one.
pub proof fn law_renewed_tokens_keep_the_tenant(
    config: OzymemConfig,
    identifier: Seq<char>,
    tenant: Seq<char>,
    token: Seq<char>,
)
    requires
        config.token is Some,
        credentials::parsed_credential(config.token->0@) == Some((tenant, token)),
    ensures
        renewed_tenant(config, identifier) == tenant,
{
    let whole = config.token->0@;
    let start = credentials::CREDENTIAL_PREFIX@.len() as int;
    let rest = whole.skip(start);
    let separator = credentials::CREDENTIAL_SEPARATOR@;
    text::lemma_find_from(rest, separator, 0);
    let i = text::find_from(rest, separator, 0)->0;
    assert(text::occurs_at(rest, separator, i));
    assert(whole.subrange(start + i, start + i + separator.len()) == rest.subrange(
        i,
        i + separator.len(),
    ));
    assert(text::occurs_at(whole, separator, start + i));
}

/// A server is used over HTTP exactly if its address says so.
pub proof fn law_http_means_remote(config: OzymemConfig, settings: Settings)
    ensures
        backend_of(config, settings) is Remote <==> text::starts_with(
            host_of(config, settings),
            "http://"@,
        ) || text::starts_with(host_of(config, settings), "https://"@),
{
}

/// The settings come before the configuration: with a server set, what the
/// configuration says of brains makes no difference.
pub proof fn law_settings_come_first(a: OzymemConfig, b: OzymemConfig, settings: Settings)
    requires
        settings.server_url is Some,
        settings.server_id is Some,
        settings.user_token is Some,
        text::starts_with(settings.server_url->0@, "http://"@),
    ensures
        backend_of(a, settings) == backend_of(b, settings),
{
}

/// The address that is used comes from the server that is set, or else from the graph
/// database that is set, or else from the current brain. An address of HTTP is a server
/// over HTTP, and gets a token.
pub proof fn law_where_the_backend_is(config: OzymemConfig, settings: Settings, host: Seq<char>)
    requires
        host == if settings.server_url is Some {
            settings.server_url->0@
        } else if settings.memgraph_uri is Some {
            settings.memgraph_uri->0@
        } else {
            config.current_brain@
        },
    ensures
        "http://"@.is_prefix_of(host) || "https://"@.is_prefix_of(host) ==> backend_of(
            config,
            settings,
        ) == (ChoiceModel::Remote { url: host, token: token_of(config, settings) }),
        !"http://"@.is_prefix_of(host) && !"https://"@.is_prefix_of(host) ==> backend_of(
            config,
            settings,
        ) == (ChoiceModel::Local { uri: local_uri(config, host) }),
{
}

/// A graph database is reached at the host and the port of the brain of that name, or at
/// the host itself with the usual port; a host with a port is taken as it is.
pub proof fn law_addresses_of_brains(
    config: OzymemConfig,
    name: Seq<char>,
    host: Seq<char>,
    port: u16,
)
    ensures
        config.brain_address(name) == Some((host, port)) && !host.contains(':') ==> local_uri(
            config,
            name,
        ) == host + ":"@ + text::decimal(port as int),
        config.brain_address(name) == Some((host, port)) && host.contains(':') ==> local_uri(
            config,
            name,
        ) == host,
        config.brain_address(host) is None && !host.contains(':') ==> local_uri(config, host)
            == host + ":"@ + text::decimal(7687),
        config.brain_address(host) is None && host.contains(':') ==> local_uri(config, host)
            == host,
{
}

/// The token is made of the server and the user that are set, if both are; else it is
/// the one that is set, or else the one of the configuration, or else empty.
pub proof fn law_which_token_is_used(config: OzymemConfig, settings: Settings)
    ensures
        settings.server_id is Some && settings.user_token is Some ==> token_of(config, settings)
            == credentials::credential(settings.server_id->0@, settings.user_token->0@),
        settings.server_id is None || settings.user_token is None ==> token_of(config, settings)
            == plain_token(config, settings),
        settings.mcp_token matches Some(token) ==> plain_token(config, settings) == token@,
        settings.mcp_token is None && config.token is Some ==> plain_token(config, settings)
            == config.token->0@,
        settings.mcp_token is None && config.token is None ==> plain_token(config, settings)
            == ""@,
{
}

/// The path of a project is that of the entry with its name, and so is the address of a
/// brain; a name without an entry has none.
pub proof fn law_entries_go_by_name(config: OzymemConfig, i: int, name: Seq<char>)
    requires
        config.wf(),
    ensures
        0 <= i < config.projects@.len() ==> config.project_path(config.projects@[i].0@) == Some(
            config.projects@[i].1@,
        ),
        0 <= i < config.brains@.len() ==> config.brain_address(config.brains@[i].0@) == Some(
            (config.brains@[i].1.host@, config.brains@[i].1.port),
        ),
        (forall|k: int| 0 <= k < config.projects@.len() ==> (#[trigger] config.projects@[k]).0@
            != name) ==> config.project_path(name) is None,
{
    lemma_position_of(config.projects@, name);
    if 0 <= i < config.projects@.len() {
        let own = config.projects@[i].0@;
        lemma_position_of(config.projects@, own);
        let k = position_of(config.projects@, own)->0;
        assert(config.projects@[k].0@ == config.projects@[i].0@);
    }
    if 0 <= i < config.brains@.len() {
        let own = config.brains@[i].0@;
        lemma_position_of(config.brains@, own);
        let k = position_of(config.brains@, own)->0;
        assert(config.brains@[k].0@ == config.brains@[i].0@);
    }
}

/// An address without a scheme is shown with that of the database protocol, and one with
/// a scheme as it is.
pub proof fn law_shown_addresses_have_a_scheme(uri: Seq<char>)
    ensures
        text::contains_text(display_address(uri), "://"@),
        text::contains_text(uri, "://"@) ==> display_address(uri) == uri,
        !text::contains_text(uri, "://"@) ==> display_address(uri) == "bolt://"@ + uri,
{
    reveal_strlit("bolt://");
    reveal_strlit("://");
    let shown = "bolt://"@ + uri;
    assert(shown.subrange(4, 7) =~= "://"@);
    assert(text::occurs_at(shown, "://"@, 4));
}

/// Without a token, or with one that does not begin as credentials do, the tenant of a new
/// token is the new one.
pub proof fn law_first_tokens_make_a_tenant(config: OzymemConfig, identifier: Seq<char>)
    requires
        config.token matches Some(token) ==> !"ozy_partner_ctx_"@.is_prefix_of(token@),
    ensures
        renewed_tenant(config, identifier) == identifier,
{
    match config.token {
        Some(token) => {
            credentials::law_other_texts_are_no_credentials(token@, identifier);
        },
        None => {
            reveal_strlit("");
            reveal_strlit("ozy_partner_ctx_");
            assert(!"ozy_partner_ctx_"@.is_prefix_of(""@));
            credentials::law_other_texts_are_no_credentials(""@, identifier);
        },
    }
}

} // verus!
