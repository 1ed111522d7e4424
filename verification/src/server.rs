//! The server: what it needs to start, who asks, and what it says of itself.

use crate::credentials::{format_credential, Refusal};
use crate::credentials;
use crate::records::UserRecord;
use crate::text;
use crate::text::{
    concat2, concat3, decimal_i128, decimal_i64, decimal_u64, join, pad, parse_unsigned, same_text,
    split, trim,
};
use vstd::prelude::*;

verus! {

// ---------------------------------------------------------------------------
// Starting
// ---------------------------------------------------------------------------

/// The names of the variables that must be set and are not.
pub open spec fn missing_variables(user_set: bool, password_set: bool) -> Seq<Seq<char>> {
    (if user_set {
        Seq::empty()
    } else {
        seq!["MEMGRAPH_USER"@]
    }) + (if password_set {
        Seq::empty()
    } else {
        seq!["MEMGRAPH_PASSWORD"@]
    })
}

/// Whether the variables that the server needs are set; the error names those
/// that are not.
pub fn validate_environment(user_set: bool, password_set: bool) -> (r: Result<(), String>)
    ensures
        r is Ok <==> user_set && password_set,
        r is Err ==> r->Err_0@ == "Security error: Missing required environment variables: "@
            + text::join_texts(missing_variables(user_set, password_set), ", "@)
            + ". These are required for production security. Do not use default credentials."@,
{
    let mut missing: Vec<String> = Vec::new();
    if !user_set {
        missing.push("MEMGRAPH_USER".to_string());
    }
    if !password_set {
        missing.push("MEMGRAPH_PASSWORD".to_string());
    }
    assert(missing.deep_view() =~= missing_variables(user_set, password_set));
    if missing.len() == 0 {
        return Ok(());
    }
    Err(
        concat3(
            "Security error: Missing required environment variables: ",
            join(&missing, ", ").as_str(),
            ". These are required for production security. Do not use default credentials.",
        ),
    )
}

/// Whether the server speaks HTTP: by a flag, or by its mode, which is `web`
/// unless it is set to another one.
pub fn is_web_mode(web_flag: bool, mode: Option<&str>) -> (r: bool)
    ensures
        r == (web_flag || match mode {
            Some(m) => m@ == "web"@,
            None => true,
        }),
{
    web_flag || match mode {
        Some(m) => same_text(m, "web"),
        None => true,
    }
}

/// The port of the server: 8080 unless another one is set.
pub fn port_from(setting: Option<&str>) -> (r: u16)
    ensures
        r as nat == match setting {
            Some(s) => match text::parse_unsigned_text(s@, u16::MAX as nat) {
                Some(n) => n,
                None => 8080,
            },
            None => 8080,
        },
{
    match setting {
        Some(s) => match parse_unsigned(s, u16::MAX as u64) {
            Some(n) => n as u16,
            None => 8080,
        },
        None => 8080,
    }
}

/// The limits that the server keeps: requests of one address, the seconds they
/// are counted over, and the bytes of a request.
pub const MAX_REQUESTS: usize = 100;

pub const WINDOW_SECONDS: u64 = 60;

pub const MAX_BODY_BYTES: usize = 10_485_760;

// ---------------------------------------------------------------------------
// Who asks
// ---------------------------------------------------------------------------

/// The address that a request comes from: the first one that a proxy forwards,
/// or the real one that a proxy names, or that of the connection.
pub open spec fn client_ip(
    forwarded: Option<Seq<char>>,
    real_ip: Option<Seq<char>>,
    socket: Option<Seq<char>>,
) -> Seq<char> {
    match forwarded {
        Some(value) => text::trim_text(text::split_text(value, ","@)[0]),
        None => match real_ip {
            Some(value) => text::trim_text(value),
            None => match socket {
                Some(value) => value,
                None => "unknown"@,
            },
        },
    }
}

pub open spec fn optional_text(value: Option<&str>) -> Option<Seq<char>> {
    match value {
        Some(s) => Some(s@),
        None => None,
    }
}

/// The address that a request comes from.
pub fn extract_client_ip(forwarded: Option<&str>, real_ip: Option<&str>, socket: Option<&str>) -> (r:
    String)
    ensures
        r@ == client_ip(optional_text(forwarded), optional_text(real_ip), optional_text(socket)),
{
    if let Some(value) = forwarded {
        proof {
            reveal_strlit(",");
        }
        let parts = split(value, ",");
        assert(parts@[0]@ == parts.deep_view()[0]);
        return trim(parts[0].as_str());
    }
    if let Some(value) = real_ip {
        return trim(value);
    }
    match socket {
        Some(value) => value.to_string(),
        None => "unknown".to_string(),
    }
}

/// The answer to a credential that was read: the user that it belongs to, or the
/// refusal if it belongs to none.
pub fn let_in(user: Option<UserRecord>) -> (r: Result<UserRecord, Refusal>)
    ensures
        match (user, r) {
            (Some(u), Ok(same)) => same == u,
            (None, Err(refusal)) => refusal == Refusal::Forbidden,
            _ => false,
        },
{
    match user {
        Some(user) => Ok(user),
        None => Err(Refusal::Forbidden),
    }
}

// ---------------------------------------------------------------------------
// Banners
// ---------------------------------------------------------------------------

/// The number of all users.
pub open spec fn total_users(users: Seq<(String, i64)>) -> int
    decreases users.len(),
{
    if users.len() == 0 {
        0
    } else {
        total_users(users.drop_last()) + users.last().1
    }
}

/// The roles with the number of their users.
pub open spec fn role_texts(users: Seq<(String, i64)>) -> Seq<Seq<char>> {
    Seq::new(users.len(), |i: int| users[i].0@ + ": "@ + text::decimal(users[i].1 as int))
}

/// What the server knows when it starts.
#[derive(Debug, Clone, PartialEq, Eq)]
pub struct StartupFacts {
    pub memgraph_ok: bool,
    pub users: Vec<(String, i64)>,
    pub tenant_count: i64,
    pub file_count: i64,
    pub function_count: i64,
}

pub const RULE: &'static str = "  +=====================================================+";

pub const GAP: &'static str = "  |                                                       |";

/// The lines on a server that has its graph.
pub open spec fn connected_lines(facts: StartupFacts, port: u16) -> Seq<Seq<char>> {
    let users = facts.users@;
    let roles = if users.len() == 0 {
        "none"@
    } else {
        text::join_texts(role_texts(users), ", "@)
    };
    seq![
        "  |  Users:     "@ + text::pad_text(
            text::decimal(total_users(users)) + " total ("@ + roles + ")"@,
            41,
        ) + "|"@,
        "  |  Tenants:   "@ + text::pad_text(text::decimal(facts.tenant_count as int), 41) + "|"@,
        "  |  Graph:     "@ + text::pad_text(
            text::decimal(facts.file_count as int) + " files, "@ + text::decimal(
                facts.function_count as int,
            ) + " functions"@,
            41,
        ) + "|"@,
        GAP@,
        "  |  Dashboard: http://localhost:"@ + text::decimal(port as int)
            + "/                     |"@,
    ]
}

/// The lines on a server without its graph.
pub open spec fn disconnected_lines() -> Seq<Seq<char>> {
    seq![
        "  |  WARNING: Memgraph connection failed.                |"@,
        "  |  Check MEMGRAPH_URI, MEMGRAPH_USER, MEMGRAPH_PASSWORD|"@,
        GAP@,
    ]
}

/// The lines that every server shows.
pub open spec fn head_lines(version: Seq<char>, memgraph_ok: bool, port: u16) -> Seq<Seq<char>> {
    let state = if memgraph_ok {
        "[CONNECTED]"@
    } else {
        "[DISCONNECTED]"@
    };
    seq![
        ""@,
        RULE@,
        "  |         OZYMEM PARTNER v"@ + text::pad_text(version + " "@, 27) + "|"@,
        "  |         Knowledge Graph Backend Server              |"@,
        RULE@,
        GAP@,
        "  |  Server:    http://0.0.0.0:"@ + text::pad_text(text::decimal(port as int), 5)
            + "                     |"@,
        "  |  Ping:      /api/ping                                |"@,
        "  |  Health:    /api/health                              |"@,
        "  |  Status:    /api/status                              |"@,
        "  |  Memgraph:  bolt://memgraph:7687  "@ + text::pad_text(state, 20) + "|"@,
        GAP@,
    ]
}

/// What a server shows when it starts.
pub open spec fn startup_banner(version: Seq<char>, facts: StartupFacts, port: u16) -> Seq<
    Seq<char>,
> {
    head_lines(version, facts.memgraph_ok, port) + (if facts.memgraph_ok {
        connected_lines(facts, port)
    } else {
        disconnected_lines()
    }) + seq![RULE@, ""@]
}

fn users_summary(users: &Vec<(String, i64)>) -> (r: String)
    ensures
        r@ == text::decimal(total_users(users@)) + " total ("@ + (if users@.len() == 0 {
            "none"@
        } else {
            text::join_texts(role_texts(users@), ", "@)
        }) + ")"@,
{
    let mut total: i128 = 0;
    let mut roles: Vec<String> = Vec::new();
    let ghost all = users@;
    let mut i: usize = 0;
    while i < users.len()
        invariant
            i <= users.len(),
            all == users@,
            total == total_users(all.take(i as int)),
            -(i as int) * 0x8000_0000_0000_0000 <= total <= i * 0x8000_0000_0000_0000,
            roles@.len() == i,
            forall|k: int| 0 <= k < i ==> (#[trigger] roles@[k])@ == role_texts(all)[k],
        decreases users.len() - i,
    {
        let user = &users[i];
        proof {
            assert(all.take(i + 1).drop_last() =~= all.take(i as int));
            assert(i < users.len() <= usize::MAX);
        }
        total = total + user.1 as i128;
        roles.push(concat3(user.0.as_str(), ": ", decimal_i64(user.1).as_str()));
        i += 1;
    }
    proof {
        assert(all.take(i as int) =~= all);
        assert(roles.deep_view() =~= role_texts(all));
    }
    let mut out = decimal_i128(total);
    out.append(" total (");
    if users.len() == 0 {
        out.append("none");
    } else {
        out.append(join(&roles, ", ").as_str());
    }
    out.append(")");
    out
}

fn connected_part(facts: &StartupFacts, port: u16) -> (r: Vec<String>)
    ensures
        r.deep_view() == connected_lines(*facts, port),
{
    let mut graph = concat2(decimal_i64(facts.file_count).as_str(), " files, ");
    graph.append(decimal_i64(facts.function_count).as_str());
    graph.append(" functions");
    let r = vec![
        concat3("  |  Users:     ", pad(users_summary(&facts.users).as_str(), 41).as_str(), "|"),
        concat3(
            "  |  Tenants:   ",
            pad(decimal_i64(facts.tenant_count).as_str(), 41).as_str(),
            "|",
        ),
        concat3("  |  Graph:     ", pad(graph.as_str(), 41).as_str(), "|"),
        GAP.to_string(),
        concat3(
            "  |  Dashboard: http://localhost:",
            decimal_u64(port as u64).as_str(),
            "/                     |",
        ),
    ];
    assert(r.deep_view() =~= connected_lines(*facts, port));
    r
}

fn disconnected_part() -> (r: Vec<String>)
    ensures
        r.deep_view() == disconnected_lines(),
{
    let r = vec![
        "  |  WARNING: Memgraph connection failed.                |".to_string(),
        "  |  Check MEMGRAPH_URI, MEMGRAPH_USER, MEMGRAPH_PASSWORD|".to_string(),
        GAP.to_string(),
    ];
    assert(r.deep_view() =~= disconnected_lines());
    r
}

fn head_part(version: &str, memgraph_ok: bool, port: u16) -> (r: Vec<String>)
    ensures
        r.deep_view() == head_lines(version@, memgraph_ok, port),
{
    let state = if memgraph_ok {
        "[CONNECTED]"
    } else {
        "[DISCONNECTED]"
    };
    let r = vec![
        "".to_string(),
        RULE.to_string(),
        concat3(
            "  |         OZYMEM PARTNER v",
            pad(concat2(version, " ").as_str(), 27).as_str(),
            "|",
        ),
        "  |         Knowledge Graph Backend Server              |".to_string(),
        RULE.to_string(),
        GAP.to_string(),
        concat3(
            "  |  Server:    http://0.0.0.0:",
            pad(decimal_u64(port as u64).as_str(), 5).as_str(),
            "                     |",
        ),
        "  |  Ping:      /api/ping                                |".to_string(),
        "  |  Health:    /api/health                              |".to_string(),
        "  |  Status:    /api/status                              |".to_string(),
        concat3("  |  Memgraph:  bolt://memgraph:7687  ", pad(state, 20).as_str(), "|"),
        GAP.to_string(),
    ];
    assert(r.deep_view() =~= head_lines(version@, memgraph_ok, port));
    r
}

/// What a server shows when it starts.
pub fn startup_banner_lines(version: &str, facts: &StartupFacts, port: u16) -> (r: Vec<String>)
    ensures
        r.deep_view() == startup_banner(version@, *facts, port),
{
    let mut out = head_part(version, facts.memgraph_ok, port);
    let ghost head = out.deep_view();
    let mut middle = if facts.memgraph_ok {
        connected_part(facts, port)
    } else {
        disconnected_part()
    };
    let ghost mid = middle.deep_view();
    out.append(&mut middle);
    out.push(RULE.to_string());
    out.push("".to_string());
    assert(out.deep_view() =~= head + mid + seq![RULE@, ""@]);
    out
}

// ---------------------------------------------------------------------------
// The first user
// ---------------------------------------------------------------------------

/// The tenant and the user that an empty graph begins with.
pub const GENESIS_TENANT: &'static str = "default_tenant";

pub const GENESIS_TENANT_NAME: &'static str = "Default Tenant";

pub const GENESIS_USER: &'static str = "admin";

pub const GENESIS_ROLE: &'static str = "Lead";

/// The credential of the first user with the given token.
pub fn genesis_credential(token: &str) -> (r: String)
    ensures
        r@ == credentials::credential(GENESIS_TENANT@, token@),
{
    format_credential(GENESIS_TENANT, token)
}

/// What is shown when the first user was made.
pub open spec fn genesis_lines(credential: Seq<char>) -> Seq<Seq<char>> {
    seq![
        ""@,
        RULE@,
        "  |           GENESIS SETUP - FIRST BOOT                 |"@,
        RULE@,
        GAP@,
        "  |  Empty database detected.                             |"@,
        "  |  Creating default tenant and Lead user...             |"@,
        GAP@,
        "  |  [OK] Tenant:    Default Tenant                       |"@,
        "  |  [OK] User:      admin (Lead Developer)               |"@,
        GAP@,
        "  |  YOUR MASTER CREDENTIAL:                              |"@,
        "  |  "@ + credential,
        GAP@,
        "  |  WARNING: Save this credential now.                   |"@,
        "  |  It will not be shown again.                          |"@,
        GAP@,
        "  |  NEXT STEPS:                                          |"@,
        "  |  1. Open http://localhost:5857/ in your browser        |"@,
        "  |  2. Install CLI:  cargo install ozymem-cli            |"@,
        "  |  3. Authenticate: ozymem login <credential>           |"@,
        "  |  4. Push code:    ozymem push                         |"@,
        GAP@,
        RULE@,
        ""@,
    ]
}

/// What is shown when the first user was made.
pub fn genesis_banner(credential: &str) -> (r: Vec<String>)
    ensures
        r.deep_view() == genesis_lines(credential@),
{
    let r = vec![
        "".to_string(),
        RULE.to_string(),
        "  |           GENESIS SETUP - FIRST BOOT                 |".to_string(),
        RULE.to_string(),
        GAP.to_string(),
        "  |  Empty database detected.                             |".to_string(),
        "  |  Creating default tenant and Lead user...             |".to_string(),
        GAP.to_string(),
        "  |  [OK] Tenant:    Default Tenant                       |".to_string(),
        "  |  [OK] User:      admin (Lead Developer)               |".to_string(),
        GAP.to_string(),
        "  |  YOUR MASTER CREDENTIAL:                              |".to_string(),
        concat2("  |  ", credential),
        GAP.to_string(),
        "  |  WARNING: Save this credential now.                   |".to_string(),
        "  |  It will not be shown again.                          |".to_string(),
        GAP.to_string(),
        "  |  NEXT STEPS:                                          |".to_string(),
        "  |  1. Open http://localhost:5857/ in your browser        |".to_string(),
        "  |  2. Install CLI:  cargo install ozymem-cli            |".to_string(),
        "  |  3. Authenticate: ozymem login <credential>           |".to_string(),
        "  |  4. Push code:    ozymem push                         |".to_string(),
        GAP.to_string(),
        RULE.to_string(),
        "".to_string(),
    ];
    assert(r.deep_view() =~= genesis_lines(credential@));
    r
}

/// The credential of the first user is read back as the first tenant with the
/// token.
pub proof fn law_genesis_credential_is_read_back(bytes: Seq<u8>)
    ensures
        credentials::parsed_credential(
            credentials::credential(GENESIS_TENANT@, credentials::hex_text(bytes)),
        ) == Some((GENESIS_TENANT@, credentials::hex_text(bytes))),
{
    reveal_strlit("default_tenant");
    reveal_strlit("_usr");
    reveal_strlit("_usr_");
    let t = GENESIS_TENANT@;
    assert(!text::contains_text(t, credentials::CREDENTIAL_SEPARATOR@)) by {
        if text::contains_text(t, credentials::CREDENTIAL_SEPARATOR@) {
            let i = choose|i: int| text::occurs_at(t, credentials::CREDENTIAL_SEPARATOR@, i);
            assert(t.subrange(i, i + 5)[1] == t[i + 1]);
            assert(t[i + 1] == 'u');
            assert(t[3] == 'a' && t[4] == 'u' && t[5] == 'l');
            assert(t.subrange(i, i + 5)[2] == t[i + 2]);
        }
    }
    assert(!text::ends_with(t, "_usr"@)) by {
        assert(t.subrange(t.len() - 4, t.len() as int)[3] == t[13]);
    }
    credentials::law_new_credentials_are_read_back(t, bytes);
}

/// The variables that are named as missing are those that are not set.
pub proof fn law_missing_variables_are_named(user_set: bool, password_set: bool)
    ensures
        missing_variables(user_set, password_set).contains("MEMGRAPH_USER"@) <==> !user_set,
        missing_variables(user_set, password_set).contains("MEMGRAPH_PASSWORD"@) <==> !password_set,
        missing_variables(false, false) == seq!["MEMGRAPH_USER"@, "MEMGRAPH_PASSWORD"@],
{
    reveal_strlit("MEMGRAPH_USER");
    reveal_strlit("MEMGRAPH_PASSWORD");
    assert("MEMGRAPH_USER"@.len() == 13 && "MEMGRAPH_PASSWORD"@.len() == 17);
    let missing = missing_variables(user_set, password_set);
    if !user_set {
        assert(missing[0] == "MEMGRAPH_USER"@);
    }
    if !password_set {
        assert(missing.last() == "MEMGRAPH_PASSWORD"@);
    }
    assert(missing_variables(false, false) =~= seq!["MEMGRAPH_USER"@, "MEMGRAPH_PASSWORD"@]);
}

/// The address of a request that came through proxies is the first one of the list,
/// whatever follows it; without a list it is the one that a proxy names, and
/// without that the one of the connection.
pub proof fn law_whose_request_it_is(
    first: Seq<char>,
    others: Seq<char>,
    address: Seq<char>,
    any: Option<Seq<char>>,
    socket: Option<Seq<char>>,
)
    requires
        !first.contains(','),
    ensures
        client_ip(Some(first), any, socket) == text::trim_text(first),
        client_ip(Some(first + seq![','] + others), any, socket) == text::trim_text(first),
        client_ip(None, Some(address), socket) == text::trim_text(address),
        client_ip(None, None, Some(address)) == address,
        client_ip(None, None, None) == "unknown"@,
{
    reveal_strlit(",");
    assert(","@ =~= seq![',']);
    lemma_first_of_a_list(first);
    lemma_first_of_more(first, others);
}

proof fn lemma_first_of_a_list(first: Seq<char>)
    requires
        !first.contains(','),
    ensures
        text::split_text(first, seq![','])[0] == first,
{
    text::lemma_find_from(first, seq![','], 0);
    if let Some(i) = text::find_from(first, seq![','], 0) {
        assert(first.subrange(i, i + 1)[0] == first[i]);
    }
}

proof fn lemma_first_of_more(first: Seq<char>, others: Seq<char>)
    requires
        !first.contains(','),
    ensures
        text::split_text(first + seq![','] + others, seq![','])[0] == first,
{
    let all = first + seq![','] + others;
    let at = first.len() as int;
    text::lemma_find_from(all, seq![','], 0);
    assert(all.subrange(at, at + 1) =~= seq![',']);
    assert(text::occurs_at(all, seq![','], at));
    if let Some(i) = text::find_from(all, seq![','], 0) {
        assert(all.subrange(i, i + 1)[0] == all[i]);
        if i < at {
            assert(first[i] == ',');
        }
        assert(i == at);
        assert(all.take(i) =~= first);
    }
}

/// The number of users is the sum of those of the roles: the users of two lists
/// together are those of both, and those of a single role are its own.
pub proof fn law_every_user_is_counted(
    some: Seq<(String, i64)>,
    more: Seq<(String, i64)>,
    role: (String, i64),
)
    ensures
        total_users(some + more) == total_users(some) + total_users(more),
        total_users(seq![role]) == role.1,
    decreases more.len(),
{
    let none = seq![role].drop_last();
    assert(total_users(none) == 0);
    if more.len() == 0 {
        assert(some + more =~= some);
    } else {
        law_every_user_is_counted(some, more.drop_last(), role);
        assert((some + more).drop_last() =~= some + more.drop_last());
        assert((some + more).last() == more.last());
    }
}

/// The banner of a server that has its graph gives the users with every role, the
/// tenants, and the numbers of the graph; every banner gives the version, the port
/// and the state of the graph, and one without the graph warns.
pub proof fn law_banners_tell_the_facts(version: Seq<char>, facts: StartupFacts, port: u16)
    ensures
        ({
            let lines = startup_banner(version, facts, port);
            &&& lines[2] == "  |         OZYMEM PARTNER v"@ + text::pad_text(version + " "@, 27)
                + "|"@
            &&& lines[6] == "  |  Server:    http://0.0.0.0:"@ + text::pad_text(
                text::decimal(port as int),
                5,
            ) + "                     |"@
            &&& lines[10] == "  |  Memgraph:  bolt://memgraph:7687  "@ + text::pad_text(
                if facts.memgraph_ok {
                    "[CONNECTED]"@
                } else {
                    "[DISCONNECTED]"@
                },
                20,
            ) + "|"@
            &&& !facts.memgraph_ok ==> lines.len() == 17 && lines[12]
                == "  |  WARNING: Memgraph connection failed.                |"@
            &&& facts.memgraph_ok ==> {
                &&& lines.len() == 19
                &&& lines[13] == "  |  Tenants:   "@ + text::pad_text(
                    text::decimal(facts.tenant_count as int),
                    41,
                ) + "|"@
                &&& lines[14] == "  |  Graph:     "@ + text::pad_text(
                    text::decimal(facts.file_count as int) + " files, "@ + text::decimal(
                        facts.function_count as int,
                    ) + " functions"@,
                    41,
                ) + "|"@
                &&& lines[16] == "  |  Dashboard: http://localhost:"@ + text::decimal(port as int)
                    + "/                     |"@
                &&& facts.users@.len() == 0 ==> lines[12] == "  |  Users:     "@ + text::pad_text(
                    text::decimal(0) + " total ("@ + "none"@ + ")"@,
                    41,
                ) + "|"@
                &&& facts.users@.len() > 0 ==> lines[12] == "  |  Users:     "@ + text::pad_text(
                    text::decimal(total_users(facts.users@)) + " total ("@ + text::join_texts(
                        facts.users@.map_values(
                            |user: (String, i64)|
                                user.0@ + ": "@ + text::decimal(user.1 as int),
                        ),
                        ", "@,
                    ) + ")"@,
                    41,
                ) + "|"@
            }
        }),
{
    let users = facts.users@;
    assert(role_texts(users) =~= users.map_values(
        |user: (String, i64)| user.0@ + ": "@ + text::decimal(user.1 as int),
    ));
    let lines = startup_banner(version, facts, port);
    let head = head_lines(version, facts.memgraph_ok, port);
    assert(head.len() == 12);
    assert(lines[2] == head[2] && lines[6] == head[6] && lines[10] == head[10]);
    if facts.memgraph_ok {
        let middle = connected_lines(facts, port);
        assert(middle.len() == 5);
        assert(lines[12] == middle[0] && lines[13] == middle[1] && lines[14] == middle[2]
            && lines[16] == middle[4]);
    } else {
        assert(lines[12] == disconnected_lines()[0]);
    }
}

/// The credential of the first user is shown as it is, in a line of its own, below
/// the line that announces it.
pub proof fn law_the_first_credential_is_shown(credential: Seq<char>)
    ensures
        genesis_lines(credential).contains("  |  "@ + credential),
        genesis_lines(credential)[11]
            == "  |  YOUR MASTER CREDENTIAL:                              |"@,
        genesis_lines(credential)[12] == "  |  "@ + credential,
{
}

/// What the server allows: a hundred requests of one address in a minute, and ten
/// mebibytes for one of them; and whom it begins with.
pub proof fn law_limits_of_the_server()
    ensures
        MAX_REQUESTS == 100,
        WINDOW_SECONDS == 60,
        MAX_BODY_BYTES == 10 * 1024 * 1024,
        GENESIS_TENANT@ == "default_tenant"@,
        GENESIS_TENANT_NAME@ == "Default Tenant"@,
        GENESIS_USER@ == "admin"@,
        GENESIS_ROLE@ == "Lead"@,
{
}

/// A server without its graph says what to look at, and every banner says where the
/// server can be asked.
pub proof fn law_what_banners_advise(version: Seq<char>, facts: StartupFacts, port: u16)
    ensures
        ({
            let lines = startup_banner(version, facts, port);
            &&& !facts.memgraph_ok ==> lines[13]
                == "  |  Check MEMGRAPH_URI, MEMGRAPH_USER, MEMGRAPH_PASSWORD|"@
            &&& lines[3] == "  |         Knowledge Graph Backend Server              |"@
            &&& lines[7] == "  |  Ping:      /api/ping                                |"@
            &&& lines[8] == "  |  Health:    /api/health                              |"@
            &&& lines[9] == "  |  Status:    /api/status                              |"@
            &&& lines[0] == ""@ && lines.last() == ""@
        }),
{
    let lines = startup_banner(version, facts, port);
    let head = head_lines(version, facts.memgraph_ok, port);
    assert(head.len() == 12);
    assert(lines[3] == head[3] && lines[7] == head[7] && lines[8] == head[8] && lines[9]
        == head[9]);
    if !facts.memgraph_ok {
        assert(lines[13] == disconnected_lines()[1]);
    }
}

} // verus!
