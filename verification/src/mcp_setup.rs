//! The entry of this program in the configuration files of editors and assistants.

use crate::json;
use crate::json::{JsonModel, JsonValue};
use crate::text;
use crate::text::{
    all_lines, concat2, concat3, copy_texts, decimal_usize, no_lines, one_line, parse_unsigned,
    trim, trim_end_char,
};
use vstd::prelude::*;

verus! {

// ---------------------------------------------------------------------------
// Targets
// ---------------------------------------------------------------------------

#[derive(Debug, Clone, Copy, PartialEq, Eq, Structural)]
pub enum Platform {
    Windows,
    MacOs,
    Other,
}

/// The directory that a path is taken from.
#[derive(Debug, Clone, Copy, PartialEq, Eq, Structural)]
pub enum TargetBase {
    Home,
    AppData,
}

/// A program that can call this one, and where its configuration file lies in the
/// configuration of the platform.
#[derive(Debug, Clone, PartialEq, Eq)]
pub struct TargetProgram {
    pub name: String,
    pub pieces: Vec<String>,
}

/// A configuration file: of which program, and where it lies.
#[derive(Debug, Clone, PartialEq, Eq)]
pub struct McpTarget {
    pub name: String,
    pub base: TargetBase,
    pub pieces: Vec<String>,
}

pub open spec fn target_base(platform: Platform) -> TargetBase {
    match platform {
        Platform::Windows => TargetBase::AppData,
        _ => TargetBase::Home,
    }
}

/// Where programs keep their configuration.
pub open spec fn config_root(platform: Platform) -> Seq<Seq<char>> {
    match platform {
        Platform::Windows => Seq::empty(),
        Platform::MacOs => seq!["Library"@, "Application Support"@],
        Platform::Other => seq![".config"@],
    }
}

/// The target is the configuration file of the program.
pub open spec fn target_is(target: McpTarget, program: TargetProgram, platform: Platform) -> bool {
    &&& target.name@ == program.name@
    &&& target.base == target_base(platform)
    &&& target.pieces.deep_view() == config_root(platform) + program.pieces.deep_view()
}

fn target(program: &TargetProgram, platform: Platform) -> (r: McpTarget)
    ensures
        target_is(r, *program, platform),
{
    let base = match platform {
        Platform::Windows => TargetBase::AppData,
        _ => TargetBase::Home,
    };
    let root: Vec<String> = match platform {
        Platform::Windows => no_lines(),
        Platform::MacOs => vec!["Library".to_string(), "Application Support".to_string()],
        Platform::Other => one_line(".config".to_string()),
    };
    assert(root.deep_view() =~= config_root(platform));
    McpTarget {
        name: program.name.as_str().to_string(),
        base,
        pieces: all_lines(root, copy_texts(&program.pieces)),
    }
}

/// The configuration files that this program can enter itself in.
pub fn mcp_targets(platform: Platform, programs: &Vec<TargetProgram>) -> (r: Vec<McpTarget>)
    ensures
        r@.len() == programs@.len(),
        forall|i: int|
            0 <= i < programs@.len() ==> target_is(#[trigger] r@[i], programs@[i], platform),
{
    let mut out: Vec<McpTarget> = Vec::new();
    let mut i: usize = 0;
    while i < programs.len()
        invariant
            i <= programs@.len(),
            out@.len() == i,
            forall|k: int| 0 <= k < i ==> target_is(#[trigger] out@[k], programs@[k], platform),
        decreases programs@.len() - i,
    {
        out.push(target(&programs[i], platform));
        i += 1;
    }
    out
}

/// The programs are the editors that are known without being listed.
pub open spec fn known(programs: Seq<TargetProgram>) -> bool {
    &&& programs.len() == 2
    &&& programs[0].name@ == "Cursor Editor"@
    &&& programs[0].pieces.deep_view() == seq![
        "Cursor"@,
        "User"@,
        "globalStorage"@,
        "cursor.mcp.json"@,
    ]
    &&& programs[1].name@ == "Windsurf IDE"@
    &&& programs[1].pieces.deep_view() == seq![
        "Windsurf"@,
        "globalStorage"@,
        "windsurf.mcp.json"@,
    ]
}

/// The editors that are known without being listed.
pub fn known_programs() -> (r: Vec<TargetProgram>)
    ensures
        known(r@),
{
    let cursor = vec![
        "Cursor".to_string(),
        "User".to_string(),
        "globalStorage".to_string(),
        "cursor.mcp.json".to_string(),
    ];
    assert(cursor.deep_view() =~= seq!["Cursor"@, "User"@, "globalStorage"@, "cursor.mcp.json"@]);
    let windsurf = vec![
        "Windsurf".to_string(),
        "globalStorage".to_string(),
        "windsurf.mcp.json".to_string(),
    ];
    assert(windsurf.deep_view() =~= seq!["Windsurf"@, "globalStorage"@, "windsurf.mcp.json"@]);
    vec![
        TargetProgram { name: "Cursor Editor".to_string(), pieces: cursor },
        TargetProgram { name: "Windsurf IDE".to_string(), pieces: windsurf },
    ]
}

/// The programs that are offered: those that the user lists, in their order, or the
/// known ones where nothing is listed.
pub fn offered_programs(listed: Option<Vec<TargetProgram>>) -> (r: Vec<TargetProgram>)
    ensures
        match listed {
            Some(programs) => r == programs,
            None => known(r@),
        },
{
    match listed {
        Some(programs) => programs,
        None => known_programs(),
    }
}

// ---------------------------------------------------------------------------
// The choice of a target
// ---------------------------------------------------------------------------

/// A target as it is shown: the name of its program, its path, and whether the
/// file is there.
#[derive(Debug, Clone, PartialEq, Eq)]
pub struct ShownTarget {
    pub name: String,
    pub path: String,
    pub present: bool,
}

/// What is offered: a single target, or a question with its options. An option is
/// the place of a target.
#[derive(Debug, Clone, PartialEq, Eq)]
pub enum Offer {
    Only(usize),
    Ask { options: Vec<usize>, lines: Vec<String>, prompt: String },
}

/// The places of the targets whose files are there, among the first `n`.
pub open spec fn present_places(targets: Seq<ShownTarget>, n: nat) -> Seq<usize>
    decreases n,
{
    if n == 0 || n > targets.len() {
        Seq::empty()
    } else {
        let before = present_places(targets, (n - 1) as nat);
        if targets[n - 1].present {
            before.push((n - 1) as usize)
        } else {
            before
        }
    }
}

/// All places.
pub open spec fn all_places(count: nat) -> Seq<usize> {
    Seq::new(count, |i: int| i as usize)
}

/// What is offered, as mathematics has it.
pub enum OfferModel {
    Only(usize),
    Ask { options: Seq<usize>, lines: Seq<Seq<char>>, prompt: Seq<char> },
}

impl Offer {
    pub open spec fn model(self) -> OfferModel {
        match self {
            Offer::Only(place) => OfferModel::Only(place),
            Offer::Ask { options, lines, prompt } => OfferModel::Ask {
                options: options@,
                lines: lines.deep_view(),
                prompt: prompt@,
            },
        }
    }
}

pub open spec fn plain_line(targets: Seq<ShownTarget>, i: int) -> Seq<char> {
    text::decimal(i + 1) + ") "@ + targets[i].name@
}

pub open spec fn path_line(targets: Seq<ShownTarget>, places: Seq<usize>, i: int) -> Seq<char> {
    let target = targets[places[i] as int];
    "  "@ + text::decimal(i + 1) + ") "@ + target.name@ + " ["@ + target.path@ + "]"@
}

/// The files that are there are offered; a single one is taken without a question;
/// if none is there, all targets are offered.
pub open spec fn offer_of(targets: Seq<ShownTarget>) -> OfferModel {
    let present = present_places(targets, targets.len());
    if present.len() == 0 {
        OfferModel::Ask {
            options: all_places(targets.len()),
            lines: seq!["No se detectó ningún archivo de configuración MCP activo."@] + Seq::new(
                targets.len(),
                |i: int| plain_line(targets, i),
            ),
            prompt: "Selecciona una opción para inicializarla (Enter para omitir): "@,
        }
    } else if present.len() == 1 {
        OfferModel::Only(present[0])
    } else {
        OfferModel::Ask {
            options: present,
            lines: seq!["Entornos MCP detectados:"@] + Seq::new(
                present.len(),
                |i: int| path_line(targets, present, i),
            ),
            prompt: "Selecciona el número del entorno a configurar (Enter para omitir): "@,
        }
    }
}

proof fn lemma_present_places(targets: Seq<ShownTarget>, n: nat)
    requires
        n <= targets.len() <= usize::MAX,
    ensures
        present_places(targets, n).len() <= n,
        forall|k: int|
            0 <= k < present_places(targets, n).len() ==> {
                let place = #[trigger] present_places(targets, n)[k];
                place < n && targets[place as int].present
            },
    decreases n,
{
    if n > 0 {
        lemma_present_places(targets, (n - 1) as nat);
    }
}

/// What is offered of the targets.
pub fn offer_targets(targets: &Vec<ShownTarget>) -> (r: Offer)
    ensures
        r.model() == offer_of(targets@),
{
    let mut present: Vec<usize> = Vec::new();
    let mut i: usize = 0;
    while i < targets.len()
        invariant
            i <= targets@.len(),
            present@ == present_places(targets@, i as nat),
        decreases targets@.len() - i,
    {
        if targets[i].present {
            present.push(i);
        }
        i += 1;
    }
    assert(targets.len() == targets@.len());
    proof {
        lemma_present_places(targets@, targets@.len());
    }
    if present.len() == 1 {
        return Offer::Only(present[0]);
    }
    if present.len() == 0 {
        let mut options: Vec<usize> = Vec::new();
        let mut lines = one_line(
            "No se detectó ningún archivo de configuración MCP activo.".to_string(),
        );
        let mut k: usize = 0;
        assert(lines.deep_view()[0] == lines@[0]@);
        while k < targets.len()
            invariant
                k <= targets@.len(),
                options@ =~= all_places(k as nat),
                lines@.len() == k + 1,
                lines@[0]@ == "No se detectó ningún archivo de configuración MCP activo."@,
                forall|j: int|
                    0 <= j < k ==> (#[trigger] lines@[j + 1])@ == plain_line(targets@, j),
            decreases targets@.len() - k,
        {
            let line = concat3(decimal_usize(k + 1).as_str(), ") ", targets[k].name.as_str());
            let ghost before = lines@;
            lines.push(line);
            assert forall|j: int| 0 <= j < k + 1 implies (#[trigger] lines@[j + 1])@
                == plain_line(targets@, j) by {
                if j < k {
                    assert(lines@[j + 1] == before[j + 1]);
                }
            }
            options.push(k);
            k += 1;
        }
        let r = Offer::Ask {
            options,
            lines,
            prompt: "Selecciona una opción para inicializarla (Enter para omitir): ".to_string(),
        };
        assert(r.model()->lines =~= offer_of(targets@)->lines) by {
            assert forall|j: int| 0 < j < lines@.len() implies (#[trigger] lines@[j])@
                == plain_line(targets@, j - 1) by {
                assert(lines@[(j - 1) + 1]@ == plain_line(targets@, j - 1));
            }
        }
        return r;
    }
    let mut lines = one_line("Entornos MCP detectados:".to_string());
    let mut k: usize = 0;
    assert(lines.deep_view()[0] == lines@[0]@);
    while k < present.len()
        invariant
            k <= present@.len(),
            lines@.len() == k + 1,
            lines@[0]@ == "Entornos MCP detectados:"@,
            forall|j: int|
                0 <= j < present@.len() ==> (#[trigger] present@[j]) < targets@.len(),
            forall|j: int|
                0 <= j < k ==> (#[trigger] lines@[j + 1])@ == path_line(targets@, present@, j),
        decreases present@.len() - k,
    {
        let shown = &targets[present[k]];
        let mut line = concat3("  ", decimal_usize(k + 1).as_str(), ") ");
        line.append(shown.name.as_str());
        line.append(" [");
        line.append(shown.path.as_str());
        line.append("]");
        let ghost before = lines@;
        lines.push(line);
        assert forall|j: int| 0 <= j < k + 1 implies (#[trigger] lines@[j + 1])@ == path_line(
            targets@,
            present@,
            j,
        ) by {
            if j < k {
                assert(lines@[j + 1] == before[j + 1]);
            }
        }
        k += 1;
    }
    let r = Offer::Ask {
        options: present,
        lines,
        prompt: "Selecciona el número del entorno a configurar (Enter para omitir): ".to_string(),
    };
    assert(r.model()->lines =~= offer_of(targets@)->lines) by {
        assert forall|j: int| 0 < j < lines@.len() implies (#[trigger] lines@[j])@ == path_line(
            targets@,
            present@,
            j - 1,
        ) by {
            assert(lines@[(j - 1) + 1]@ == path_line(targets@, present@, j - 1));
        }
    }
    r
}

/// The option that an answer names by its number, from 1 on.
pub open spec fn chosen_option(options: Seq<usize>, answer: Seq<char>) -> Option<usize> {
    match text::parse_unsigned_text(text::trim_text(answer), usize::MAX as nat) {
        Some(number) => if 1 <= number <= options.len() {
            Some(options[number - 1])
        } else {
            None
        },
        None => None,
    }
}

/// The option that an answer names by its number, from 1 on.
pub fn choose_option(options: &Vec<usize>, answer: &str) -> (r: Option<usize>)
    ensures
        r == chosen_option(options@, answer@),
{
    match parse_unsigned(trim(answer).as_str(), usize::MAX as u64) {
        Some(number) => {
            let count: usize = options.len();
            if 1 <= number && number <= count as u64 {
                Some(options[(number - 1) as usize])
            } else {
                None
            }
        },
        None => None,
    }
}

// ---------------------------------------------------------------------------
// The entry
// ---------------------------------------------------------------------------

/// The configuration of a program with an entry for a server: under the key in
/// `mcpServers`. A configuration that is no object, or in which `mcpServers` is
/// none, stays as it is.
pub open spec fn with_server(document: JsonModel, key: Seq<char>, entry: JsonModel) -> JsonModel {
    match document {
        JsonModel::Object(entries) => match json::lookup(entries, "mcpServers"@) {
            Some(JsonModel::Object(servers)) => JsonModel::Object(
                json::updated(
                    entries,
                    "mcpServers"@,
                    JsonModel::Object(json::updated(servers, key, entry)),
                ),
            ),
            Some(_) => document,
            None => JsonModel::Object(
                json::updated(
                    entries,
                    "mcpServers"@,
                    JsonModel::Object(json::updated(Seq::empty(), key, entry)),
                ),
            ),
        },
        _ => document,
    }
}

/// The configuration of a program that has none that can be read.
pub open spec fn empty_document() -> JsonModel {
    JsonModel::object().with("mcpServers"@, JsonModel::object())
}

/// The configuration of a program with an entry for a server. Where there is no
/// configuration that can be read, a new one is made.
pub fn enter_server(document: Option<JsonValue>, key: &str, entry: JsonValue) -> (r: JsonValue)
    ensures
        r.model() == with_server(
            match document {
                Some(d) => d.model(),
                None => empty_document(),
            },
            key@,
            entry.model(),
        ),
{
    let document = match document {
        Some(d) => d,
        None => JsonValue::object().with("mcpServers", JsonValue::object()),
    };
    let ghost whole = document.model();
    match document {
        JsonValue::Object(entries) => {
            let mut entries = entries;
            let ghost texts = JsonValue::Object(entries).model()->Object_0;
            proof {
                json::lemma_place(texts, "mcpServers"@);
                assert(whole == JsonModel::Object(texts));
            }
            match json::place_of(&entries, "mcpServers") {
                Some(place) => {
                    let ghost before = entries@;
                    let (name, servers) = entries.remove(place);
                    assert(before[place as int] == (name, servers));
                    assert(texts[place as int] == (name@, servers.model()));
                    match servers {
                        JsonValue::Object(servers) => {
                            let servers = json::set_entry(servers, key, entry);
                            let value = JsonValue::Object(servers);
                            entries.insert(place, (name, value));
                            let r = JsonValue::Object(entries);
                            assert(r.model()->Object_0 =~= texts.update(
                                place as int,
                                ("mcpServers"@, value.model()),
                            ));
                            assert(json::updated(texts, "mcpServers"@, value.model())
                                == texts.update(place as int, ("mcpServers"@, value.model())));
                            r
                        },
                        other => {
                            entries.insert(place, (name, other));
                            let r = JsonValue::Object(entries);
                            assert(r.model()->Object_0 =~= texts);
                            r
                        },
                    }
                },
                None => {
                    let servers: Vec<(String, JsonValue)> = Vec::new();
                    assert(JsonValue::Object(servers).model()->Object_0 =~= Seq::empty());
                    let value = JsonValue::Object(json::set_entry(servers, key, entry));
                    JsonValue::Object(json::set_entry(entries, "mcpServers", value))
                },
            }
        },
        other => other,
    }
}

/// The key of the entry for a server.
pub fn partner_key(server_uuid: &str) -> (r: String)
    ensures
        r@ == "ozymem-partner-"@ + server_uuid@,
{
    concat2("ozymem-partner-", server_uuid)
}

pub open spec fn command_model(command: Seq<char>) -> JsonModel {
    JsonModel::object().with("command"@, JsonModel::Text(command)).with(
        "args"@,
        JsonModel::list().item(JsonModel::Text("mcp"@)).item(JsonModel::Text("run"@)),
    )
}

fn command_json(command: &str) -> (r: JsonValue)
    ensures
        r.model() == command_model(command@),
{
    JsonValue::object().with("command", JsonValue::text(command)).with(
        "args",
        JsonValue::list().item(JsonValue::text("mcp")).item(JsonValue::text("run")),
    )
}

/// The entry for a server: how the program is called, and the server and the user
/// that it is called for.
pub fn partner_entry(command: &str, server_url: &str, server_uuid: &str, user_token: &str) -> (r:
    JsonValue)
    ensures
        r.model() == command_model(command@).with(
            "env"@,
            JsonModel::object().with(
                "OZYMEM_SERVER_URL"@,
                JsonModel::Text(text::trim_text(server_url@)),
            ).with("OZYMEM_SERVER_ID"@, JsonModel::Text(server_uuid@)).with(
                "OZYMEM_USER_TOKEN"@,
                JsonModel::Text(user_token@),
            ),
        ),
{
    command_json(command).with(
        "env",
        JsonValue::object().with(
            "OZYMEM_SERVER_URL",
            JsonValue::text(trim(server_url).as_str()),
        ).with("OZYMEM_SERVER_ID", JsonValue::text(server_uuid)).with(
            "OZYMEM_USER_TOKEN",
            JsonValue::text(user_token),
        ),
    )
}

/// The entry for a token.
pub fn token_entry(command: &str, token: &str) -> (r: JsonValue)
    ensures
        r.model() == command_model(command@).with(
            "env"@,
            JsonModel::object().with("OZYBASE_MCP_TOKEN"@, JsonModel::Text(token@)),
        ),
{
    command_json(command).with(
        "env",
        JsonValue::object().with("OZYBASE_MCP_TOKEN", JsonValue::text(token)),
    )
}

/// The command by which this program is called: its path, if it lies where it is
/// installed.
pub fn ozymem_command(installed_path: &str, installed: bool) -> (r: String)
    ensures
        r@ == if installed {
            installed_path@
        } else {
            "ozymem"@
        },
{
    if installed {
        installed_path.to_string()
    } else {
        "ozymem".to_string()
    }
}

// ---------------------------------------------------------------------------
// The installation for a server
// ---------------------------------------------------------------------------

/// What a server said when it was tried.
#[derive(Debug, Clone, PartialEq, Eq)]
pub enum ServerTrial {
    Accepted,
    Answered(String),
    Unreachable(String),
}

/// The address under which a server is tried.
pub fn trial_url(server_url: &str) -> (r: String)
    ensures
        r@ == text::trim_end_char_text(text::trim_text(server_url@), '/') + "/api/health"@,
{
    concat2(trim_end_char(trim(server_url).as_str(), '/').as_str(), "/api/health")
}

pub open spec fn trial_lines(trial: ServerTrial) -> Seq<Seq<char>> {
    match trial {
        ServerTrial::Accepted => seq!["[SUCCESS] Conexión y credencial validadas con éxito."@],
        ServerTrial::Answered(status) => seq![
            "[ERROR] El servidor respondió con estado: "@ + status@,
            "Por favor verifica la credencial o el estado del servidor."@,
        ],
        ServerTrial::Unreachable(error) => seq![
            "[ERROR] No se pudo conectar al servidor: "@ + error@,
            "Por favor verifica la URL del servidor y tu conexión de red."@,
        ],
    }
}

/// Whether the installation goes on, and what is said.
pub fn judge_trial(trial: &ServerTrial) -> (r: (bool, Vec<String>))
    ensures
        r.0 == (*trial is Accepted),
        r.1.deep_view() == trial_lines(*trial),
{
    match trial {
        ServerTrial::Accepted => (
            true,
            one_line("[SUCCESS] Conexión y credencial validadas con éxito.".to_string()),
        ),
        ServerTrial::Answered(status) => {
            let lines = vec![
                concat2("[ERROR] El servidor respondió con estado: ", status.as_str()),
                "Por favor verifica la credencial o el estado del servidor.".to_string(),
            ];
            assert(lines.deep_view() =~= trial_lines(*trial));
            (false, lines)
        },
        ServerTrial::Unreachable(error) => {
            let lines = vec![
                concat2("[ERROR] No se pudo conectar al servidor: ", error.as_str()),
                "Por favor verifica la URL del servidor y tu conexión de red.".to_string(),
            ];
            assert(lines.deep_view() =~= trial_lines(*trial));
            (false, lines)
        },
    }
}

// ---------------------------------------------------------------------------
// Laws
// ---------------------------------------------------------------------------

/// The servers in the configuration of a program.
pub open spec fn server_entry(document: JsonModel, key: Seq<char>) -> Option<JsonModel> {
    match document.get("mcpServers"@) {
        Some(servers) => servers.get(key),
        None => None,
    }
}

/// An entry that is made is found, the entries for other servers stay, and so does
/// everything else in the configuration.
pub proof fn law_entries_are_kept(
    document: JsonModel,
    key: Seq<char>,
    entry: JsonModel,
    other: Seq<char>,
)
    requires
        document is Object,
        match document.get("mcpServers"@) {
            Some(servers) => servers is Object,
            None => true,
        },
    ensures
        server_entry(with_server(document, key, entry), key) == Some(entry),
        other != key ==> server_entry(with_server(document, key, entry), other) == server_entry(
            document,
            other,
        ),
        other != "mcpServers"@ ==> with_server(document, key, entry).get(other) == document.get(
            other,
        ),
{
    let entries = document->Object_0;
    let servers = match json::lookup(entries, "mcpServers"@) {
        Some(JsonModel::Object(servers)) => servers,
        _ => Seq::empty(),
    };
    let value = JsonModel::Object(json::updated(servers, key, entry));
    json::law_updated_is_found(servers, key, entry, other);
    json::law_updated_is_found(entries, "mcpServers"@, value, other);
}

/// The places that are offered are those of the targets whose files are there, each
/// of them once and in their order.
pub proof fn law_targets_that_are_there_are_offered(targets: Seq<ShownTarget>)
    requires
        targets.len() <= usize::MAX,
    ensures
        present_places(targets, targets.len()) == all_places(targets.len()).filter(
            |place: usize| targets[place as int].present,
        ),
{
    lemma_present_is_filter(targets, targets.len());
}

proof fn lemma_present_is_filter(targets: Seq<ShownTarget>, n: nat)
    requires
        n <= targets.len() <= usize::MAX,
    ensures
        present_places(targets, n) == all_places(n).filter(
            |place: usize| targets[place as int].present,
        ),
    decreases n,
{
    reveal(Seq::filter);
    if n > 0 {
        lemma_present_is_filter(targets, (n - 1) as nat);
        assert(all_places(n).drop_last() =~= all_places((n - 1) as nat));
        assert(all_places(n).last() == (n - 1) as usize);
    }
}

/// A single file that is there is taken without a question. Among several, each is
/// shown under its number with its name and its path, and the answer with that
/// number chooses it. If none is there, every target is shown under its number.
pub proof fn law_shown_numbers_choose(targets: Seq<ShownTarget>, k: int)
    requires
        targets.len() < usize::MAX,
    ensures
        ({
            let present = all_places(targets.len()).filter(
                |place: usize| targets[place as int].present,
            );
            match offer_of(targets) {
                OfferModel::Only(place) => present == seq![place],
                OfferModel::Ask { options, lines, prompt: _ } => {
                    &&& options == (if present.len() == 0 {
                        all_places(targets.len())
                    } else {
                        present
                    })
                    &&& lines.len() == options.len() + 1
                    &&& 0 <= k < options.len() && present.len() > 0 ==> lines[k + 1] == "  "@
                        + text::decimal(k + 1) + ") "@ + targets[options[k] as int].name@ + " ["@
                        + targets[options[k] as int].path@ + "]"@
                    &&& 0 <= k < options.len() && present.len() == 0 ==> lines[k + 1]
                        == text::decimal(k + 1) + ") "@ + targets[options[k] as int].name@
                    &&& present.len() != 1
                },
            }
        }),
{
    law_targets_that_are_there_are_offered(targets);
    let present = present_places(targets, targets.len());
    if present.len() == 1 {
        assert(present =~= seq![present[0]]);
    }
}

/// The answer with the number of an option, from 1 on, chooses that option; every
/// other number, and what is no number, chooses none.
pub proof fn law_answers_choose_by_number(options: Seq<usize>, answer: Seq<char>, number: nat)
    requires
        text::trim_text(answer) == text::decimal(number as int),
        options.len() <= usize::MAX,
    ensures
        chosen_option(options, answer) == (if 1 <= number <= options.len() {
            Some(options[number - 1])
        } else {
            None
        }),
        chosen_option(options, Seq::empty()) is None,
{
    text::lemma_decimal_read_back(number);
    if number > usize::MAX {
        assert(text::is_digit(text::decimal_nat(number)[0]));
    }
    text::lemma_blank(Seq::<char>::empty());
}

/// Where a program has no configuration, an entry that is made is the only one.
pub proof fn law_first_entries(key: Seq<char>, entry: JsonModel, other: Seq<char>)
    ensures
        server_entry(with_server(empty_document(), key, entry), key) == Some(entry),
        other != key ==> server_entry(with_server(empty_document(), key, entry), other) is None,
{
    reveal_with_fuel(json::lookup, 3);
    assert(json::lookup(Seq::<(Seq<char>, JsonModel)>::empty(), "mcpServers"@) is None);
    law_entries_are_kept(empty_document(), key, entry, other);
}

/// A configuration that cannot take an entry stays as it is.
pub proof fn law_other_documents_stay(document: JsonModel, key: Seq<char>, entry: JsonModel)
    requires
        !(document is Object) || document.get("mcpServers"@) is Some && !(document.get(
            "mcpServers"@,
        )->0 is Object),
    ensures
        with_server(document, key, entry) == document,
{
}

/// The program is called by its command, to run as a server.
pub proof fn law_how_the_program_is_called(command: Seq<char>)
    ensures
        command_model(command).get("command"@) == Some(JsonModel::Text(command)),
        command_model(command).get("args"@) == Some(
            JsonModel::List(seq![JsonModel::Text("mcp"@), JsonModel::Text("run"@)]),
        ),
{
    reveal_strlit("command");
    reveal_strlit("args");
    assert("command"@.len() == 7 && "args"@.len() == 4);
    reveal_with_fuel(json::lookup, 3);
    let list = JsonModel::list().item(JsonModel::Text("mcp"@)).item(JsonModel::Text("run"@));
    assert(list->List_0 =~= seq![JsonModel::Text("mcp"@), JsonModel::Text("run"@)]);
}

/// What a server said when it was tried is told with its words.
pub proof fn law_trials_are_told(words: String)
    ensures
        trial_lines(ServerTrial::Accepted) == seq![
            "[SUCCESS] Conexión y credencial validadas con éxito."@,
        ],
        trial_lines(ServerTrial::Answered(words))[0]
            == "[ERROR] El servidor respondió con estado: "@ + words@,
        trial_lines(ServerTrial::Answered(words))[1]
            == "Por favor verifica la credencial o el estado del servidor."@,
        trial_lines(ServerTrial::Unreachable(words))[0]
            == "[ERROR] No se pudo conectar al servidor: "@ + words@,
        trial_lines(ServerTrial::Unreachable(words))[1]
            == "Por favor verifica la URL del servidor y tu conexión de red."@,
{
}

/// Where the configuration of a program lies on each platform, and what the known
/// editors are.
pub proof fn law_where_configurations_lie(
    target: McpTarget,
    program: TargetProgram,
    platform: Platform,
)
    requires
        target_is(target, program, platform),
    ensures
        target.name@ == program.name@,
        platform == Platform::Windows ==> target.base == TargetBase::AppData
            && target.pieces.deep_view() == program.pieces.deep_view(),
        platform == Platform::MacOs ==> target.base == TargetBase::Home
            && target.pieces.deep_view() == seq!["Library"@, "Application Support"@]
            + program.pieces.deep_view(),
        platform == Platform::Other ==> target.base == TargetBase::Home
            && target.pieces.deep_view() == seq![".config"@] + program.pieces.deep_view(),
{
    if platform == Platform::Windows {
        assert(config_root(platform) + program.pieces.deep_view() =~= program.pieces.deep_view());
    }
}

/// The known editors are two, with the places of their configuration files.
pub proof fn law_known_editors(programs: Seq<TargetProgram>)
    ensures
        known(programs) <==> programs.len() == 2 && programs[0].name@ == "Cursor Editor"@
            && programs[1].name@ == "Windsurf IDE"@ && programs[0].pieces.deep_view() == seq![
            "Cursor"@,
            "User"@,
            "globalStorage"@,
            "cursor.mcp.json"@,
        ] && programs[1].pieces.deep_view() == seq![
            "Windsurf"@,
            "globalStorage"@,
            "windsurf.mcp.json"@,
        ],
{
}

} // verus!
