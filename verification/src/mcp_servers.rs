//! What the tool pipeline knows of the configured MCP servers: which is on,
//! which tools each offers and allows, how it is labelled, and how long its
//! tool payloads are kept.

use vstd::prelude::*;
use crate::text::{
    ascii_lower_seq, concat2, concat3, eq_ignore_ascii_case, is_blank, join_strings, join_with,
    push_str, str_eq, str_to_string, strings_view, trim_seq,
};

verus! {

/// The id of the built-in server that answers instant-recall calls.
pub const MCP_SESSION_MEMORY_SERVER_ID: &'static str = "session_memory";

/// The name of the instant-recall tool.
pub const MCP_INSTANT_RECALL_TOOL: &'static str = "instant_recall";

/// The name of the tool that lists a server's resources.
pub const MCP_LIST_RESOURCES_TOOL: &'static str = "mcp_list_resources";

/// The name of the tool that reads a server's resource.
pub const MCP_READ_RESOURCE_TOOL: &'static str = "mcp_read_resource";

/// The tool name under which sampling requests of a server are allowed or
/// blocked.
pub const MCP_SAMPLING_TOOL: &'static str = "mcp_sampling";

/// A decision the user stored for a server's tool.
#[derive(Clone, Copy, Debug, PartialEq, Eq, Structural)]
pub enum ToolPermissionDecision {
    /// Allowed for the rest of the session.
    AllowSession,
    /// Always refused.
    Block,
}

/// How long the payloads of a server's tool calls stay in the context.
#[derive(Clone, Copy, Debug, PartialEq, Eq, Structural)]
pub enum PayloadRetention {
    /// Only for the current turn.
    Turn,
    /// For the last few calls to the server.
    Window,
    /// For the whole conversation.
    All,
}

/// A configured MCP server as the tool pipeline sees it.
pub struct McpServerInfo {
    pub id: String,
    pub display_name: String,
    pub enabled: bool,
    pub yolo: bool,
    /// Whether the server announced a resources capability, when its
    /// details are known.
    pub resources_capability: Option<bool>,
    /// The names of the tools it listed, once they are known.
    pub tools: Option<Vec<String>>,
    /// The tools the configuration allows, when it restricts them.
    pub allowed_tools: Option<Vec<String>>,
    pub tool_payloads: PayloadRetention,
    pub tool_payload_window: usize,
    /// The input schema of each listed tool that gave one, by tool name.
    pub tool_schemas: Vec<(String, crate::json::JsonValue)>,
}

/// Equality ignoring ASCII case.
pub open spec fn eq_ci(a: Seq<char>, b: Seq<char>) -> bool {
    ascii_lower_seq(a) == ascii_lower_seq(b)
}

/// Position of the first server with id `id`.
pub open spec fn server_index(servers: Seq<McpServerInfo>, id: Seq<char>) -> Option<int> {
    if exists|k: int| 0 <= k < servers.len() && #[trigger] servers[k].id@ == id {
        Some(
            choose|k: int|
                0 <= k < servers.len() && #[trigger] servers[k].id@ == id && forall|m: int|
                    0 <= m < k ==> #[trigger] servers[m].id@ != id,
        )
    } else {
        None
    }
}

/// The server with id `id`.
pub open spec fn server_by_id(servers: Seq<McpServerInfo>, id: Seq<char>) -> Option<McpServerInfo> {
    match server_index(servers, id) {
        Some(k) => Some(servers[k]),
        None => None,
    }
}

/// Finds the server with id `id`.
pub fn find_server(servers: &Vec<McpServerInfo>, id: &str) -> (r: Option<usize>)
    ensures
        match r {
            Some(k) => server_index(servers@, id@) == Some(k as int) && k < servers@.len(),
            None => server_index(servers@, id@) is None,
        },
{
    let mut i: usize = 0;
    while i < servers.len()
        invariant
            i <= servers@.len(),
            forall|m: int| 0 <= m < i ==> #[trigger] servers@[m].id@ != id@,
        decreases servers.len() - i,
    {
        if str_eq(servers[i].id.as_str(), id) {
            proof {
                let c = choose|k: int|
                    0 <= k < servers@.len() && #[trigger] servers@[k].id@ == id@ && forall|m: int|
                        0 <= m < k ==> #[trigger] servers@[m].id@ != id@;
                assert(servers@[i as int].id@ == id@);
                if c < i {
                    assert(servers@[c].id@ != id@);
                } else if c > i {
                    assert(servers@[i as int].id@ != id@);
                }
            }
            return Some(i);
        }
        i = i + 1;
    }
    None
}

/// A server's label: its display name, or its id when the name is blank.
pub open spec fn server_label(s: McpServerInfo) -> Seq<char> {
    if trim_seq(s.display_name@).len() == 0 {
        s.id@
    } else {
        s.display_name@
    }
}

fn label_of(s: &McpServerInfo) -> (r: String)
    ensures
        r@ == server_label(*s),
{
    if is_blank(s.display_name.as_str()) {
        s.id.clone()
    } else {
        s.display_name.clone()
    }
}

/// The label shown for a server id in the inspect view: the server's label,
/// or the id itself for an unknown server.
pub open spec fn inspect_server_label(servers: Seq<McpServerInfo>, id: Seq<char>) -> Seq<char> {
    match server_by_id(servers, id) {
        Some(s) => server_label(s),
        None => id,
    }
}

/// The label of server `server_id` as the inspect view shows it.
pub fn server_label_for_inspect(servers: &Vec<McpServerInfo>, server_id: &str) -> (r: String)
    ensures
        r@ == inspect_server_label(servers@, server_id@),
{
    match find_server(servers, server_id) {
        Some(k) => label_of(&servers[k]),
        None => str_to_string(server_id),
    }
}

/// The label a tool result names its server by: "Instant recall" for the
/// session-memory server, otherwise as in the inspect view.
pub open spec fn result_server_label(servers: Seq<McpServerInfo>, id: Seq<char>) -> Seq<char> {
    if eq_ci(id, MCP_SESSION_MEMORY_SERVER_ID@) {
        "Instant recall"@
    } else {
        inspect_server_label(servers, id)
    }
}

/// The label a tool result names server `server_id` by.
pub fn resolve_server_label(servers: &Vec<McpServerInfo>, server_id: &str) -> (r: String)
    ensures
        r@ == result_server_label(servers@, server_id@),
{
    if eq_ignore_ascii_case(server_id, MCP_SESSION_MEMORY_SERVER_ID) {
        return str_to_string("Instant recall");
    }
    server_label_for_inspect(servers, server_id)
}

/// Whether a server takes resource calls: yes unless its details say it
/// has no resources capability.
pub open spec fn supports_resources(s: McpServerInfo) -> bool {
    match s.resources_capability {
        Some(b) => b,
        None => true,
    }
}

/// Whether server `s` takes resource calls.
pub fn server_supports_resources(s: &McpServerInfo) -> (r: bool)
    ensures
        r == supports_resources(*s),
{
    match s.resources_capability {
        Some(b) => b,
        None => true,
    }
}

/// Whether the configuration of `s` lets tool `name` be called.
pub open spec fn tool_allowed(s: McpServerInfo, name: Seq<char>) -> bool {
    match s.allowed_tools {
        None => true,
        Some(list) => exists|k: int| 0 <= k < list@.len() && eq_ci(#[trigger] list@[k]@, name),
    }
}

fn any_eq_ci(list: &Vec<String>, name: &str) -> (r: bool)
    ensures
        r == exists|k: int| 0 <= k < list@.len() && eq_ci(#[trigger] list@[k]@, name@),
{
    let mut i: usize = 0;
    while i < list.len()
        invariant
            i <= list@.len(),
            forall|m: int| 0 <= m < i ==> !eq_ci(#[trigger] list@[m]@, name@),
        decreases list.len() - i,
    {
        if eq_ignore_ascii_case(list[i].as_str(), name) {
            return true;
        }
        i = i + 1;
    }
    false
}

fn is_tool_allowed(s: &McpServerInfo, name: &str) -> (r: bool)
    ensures
        r == tool_allowed(*s, name@),
{
    match &s.allowed_tools {
        None => true,
        Some(list) => any_eq_ci(list, name),
    }
}

/// Whether tool `list[k]` answers to `name` and is allowed on `s`.
pub open spec fn offers_at(s: McpServerInfo, list: Seq<String>, k: int, name: Seq<char>) -> bool {
    eq_ci(list[k]@, name) && tool_allowed(s, list[k]@)
}

/// Position of the first listed tool of `s` that answers to `name` and is
/// allowed.
pub open spec fn offered_index(s: McpServerInfo, name: Seq<char>) -> Option<int> {
    match s.tools {
        None => None,
        Some(list) => if exists|k: int| 0 <= k < list@.len() && #[trigger] offers_at(s, list@, k, name) {
            Some(
                choose|k: int|
                    0 <= k < list@.len() && #[trigger] offers_at(s, list@, k, name) && forall|m: int|
                        0 <= m < k ==> !#[trigger] offers_at(s, list@, m, name),
            )
        } else {
            None
        },
    }
}

/// The name, as the server lists it, of the tool of `s` that answers to
/// `name`.
pub open spec fn offered_tool(s: McpServerInfo, name: Seq<char>) -> Option<Seq<char>> {
    match offered_index(s, name) {
        Some(k) => Some(s.tools->0@[k]@),
        None => None,
    }
}

fn find_offered(s: &McpServerInfo, name: &str) -> (r: Option<String>)
    ensures
        match r {
            Some(t) => offered_tool(*s, name@) == Some(t@),
            None => offered_tool(*s, name@) is None,
        },
{
    let list = match &s.tools {
        Some(list) => list,
        None => {
            return None;
        },
    };
    let mut i: usize = 0;
    while i < list.len()
        invariant
            i <= list@.len(),
            s.tools == Some(*list),
            forall|m: int| 0 <= m < i ==> !#[trigger] offers_at(*s, list@, m, name@),
        decreases list.len() - i,
    {
        if eq_ignore_ascii_case(list[i].as_str(), name) && is_tool_allowed(s, list[i].as_str()) {
            proof {
                assert(s.tools->0 == *list);
                assert(offers_at(*s, list@, i as int, name@));
                let c = choose|k: int|
                    0 <= k < list@.len() && #[trigger] offers_at(*s, list@, k, name@) && forall|
                        m: int,
                    | 0 <= m < k ==> !#[trigger] offers_at(*s, list@, m, name@);
                if c < i {
                    assert(!offers_at(*s, list@, c, name@));
                } else if c > i {
                    assert(!offers_at(*s, list@, i as int, name@));
                }
                assert(offered_index(*s, name@) == Some(i as int));
            }
            return Some(list[i].clone());
        }
        i = i + 1;
    }
    None
}

/// The listed name of tool `tool_name` on server `server_id`, when that
/// server lists it and allows it.
pub open spec fn mcp_tool_of(servers: Seq<McpServerInfo>, server_id: Seq<char>, tool_name: Seq<char>) -> Option<
    Seq<char>,
> {
    match server_by_id(servers, server_id) {
        Some(s) => offered_tool(s, tool_name),
        None => None,
    }
}

/// Looks up tool `tool_name` on server `server_id` (see `mcp_tool_of`).
pub fn find_mcp_tool(servers: &Vec<McpServerInfo>, server_id: &str, tool_name: &str) -> (r: Option<
    String,
>)
    ensures
        match r {
            Some(t) => mcp_tool_of(servers@, server_id@, tool_name@) == Some(t@),
            None => mcp_tool_of(servers@, server_id@, tool_name@) is None,
        },
{
    match find_server(servers, server_id) {
        Some(k) => find_offered(&servers[k], tool_name),
        None => None,
    }
}

/// Whether enabled server `s` offers tool `name`.
pub open spec fn provides(s: McpServerInfo, name: Seq<char>) -> bool {
    s.enabled && offered_index(s, name) is Some
}

/// The servers that offer tool `name`, in order.
pub open spec fn providers(servers: Seq<McpServerInfo>, name: Seq<char>) -> Seq<McpServerInfo>
    decreases servers.len(),
{
    if servers.len() == 0 {
        seq![]
    } else {
        let rest = providers(servers.drop_last(), name);
        if provides(servers.last(), name) {
            rest.push(servers.last())
        } else {
            rest
        }
    }
}

/// The labels of servers.
pub open spec fn labels_of(servers: Seq<McpServerInfo>) -> Seq<Seq<char>> {
    servers.map_values(|s: McpServerInfo| server_label(s))
}

/// Which server runs tool `name`: the one enabled server that offers it;
/// an error when none or several do.
pub open spec fn tool_server_choice(servers: Seq<McpServerInfo>, name: Seq<char>) -> Result<
    (Seq<char>, Seq<char>),
    Seq<char>,
> {
    let p = providers(servers, name);
    if p.len() == 0 {
        Err("No MCP server provides tool '"@ + name + "'."@)
    } else if p.len() == 1 {
        Ok((p[0].id@, server_label(p[0])))
    } else {
        Err(
            "Tool '"@ + name + "' is available on multiple MCP servers: "@ + join_with(
                labels_of(p),
                ", "@,
            ) + "."@,
        )
    }
}

/// The server (id and label) that runs tool `tool_name` (see
/// `tool_server_choice`).
pub fn resolve_tool_server(servers: &Vec<McpServerInfo>, tool_name: &str) -> (r: Result<
    (String, String),
    String,
>)
    ensures
        match (r, tool_server_choice(servers@, tool_name@)) {
            (Ok((id, label)), Ok((sid, slabel))) => id@ == sid && label@ == slabel,
            (Err(e), Err(se)) => e@ == se,
            _ => false,
        },
{
    let mut ids: Vec<String> = Vec::new();
    let mut labels: Vec<String> = Vec::new();
    let mut i: usize = 0;
    while i < servers.len()
        invariant
            i <= servers@.len(),
            ids@.len() == providers(servers@.take(i as int), tool_name@).len(),
            strings_view(labels@) == labels_of(providers(servers@.take(i as int), tool_name@)),
            forall|k: int|
                0 <= k < ids@.len() ==> #[trigger] ids@[k]@ == providers(
                    servers@.take(i as int),
                    tool_name@,
                )[k].id@,
        decreases servers.len() - i,
    {
        let ghost q = servers@.take(i + 1);
        assert(q.drop_last() =~= servers@.take(i as int));
        assert(q.last() == servers@[i as int]);
        let s = &servers[i];
        if s.enabled {
            match find_offered(s, tool_name) {
                Some(_) => {
                    let ghost p = providers(servers@.take(i as int), tool_name@);
                    let ghost old_labels = strings_view(labels@);
                    assert(provides(*s, tool_name@));
                    assert(providers(q, tool_name@) == p.push(*s));
                    ids.push(s.id.clone());
                    let l = label_of(s);
                    labels.push(l);
                    assert(strings_view(labels@) =~= old_labels.push(server_label(*s)));
                    assert(labels_of(p.push(*s)) =~= labels_of(p).push(server_label(*s)));
                },
                None => {},
            }
        }
        i = i + 1;
    }
    assert(servers@.take(servers@.len() as int) =~= servers@);
    if ids.len() == 0 {
        let mut e = concat3("No MCP server provides tool '", tool_name, "'.");
        Err(e)
    } else if ids.len() == 1 {
        assert(strings_view(labels@)[0] == labels@[0]@);
        assert(labels_of(providers(servers@, tool_name@))[0] == server_label(
            providers(servers@, tool_name@)[0],
        ));
        Ok((ids[0].clone(), labels[0].clone()))
    } else {
        let joined = join_strings(&labels, ", ");
        let mut e = concat3("Tool '", tool_name, "' is available on multiple MCP servers: ");
        push_str(&mut e, joined.as_str());
        push_str(&mut e, ".");
        Err(e)
    }
}

/// How long the payloads of server `server_id` are kept, and the window
/// size: for the current turn only when the server is not given or not
/// known.
pub open spec fn payload_policy(servers: Seq<McpServerInfo>, server_id: Option<Seq<char>>) -> (
    PayloadRetention,
    usize,
) {
    match server_id {
        None => (PayloadRetention::Turn, 0),
        Some(id) => match server_by_id(servers, id) {
            Some(s) => (s.tool_payloads, s.tool_payload_window),
            None => (PayloadRetention::Turn, 0),
        },
    }
}

/// The payload policy of server `server_id` (see `payload_policy`).
pub fn resolve_tool_payload_policy(servers: &Vec<McpServerInfo>, server_id: Option<&str>) -> (r: (
    PayloadRetention,
    usize,
))
    ensures
        r == payload_policy(servers@, match server_id {
            Some(s) => Some(s@),
            None => None,
        }),
{
    match server_id {
        None => (PayloadRetention::Turn, 0),
        Some(id) => match find_server(servers, id) {
            Some(k) => (servers[k].tool_payloads, servers[k].tool_payload_window),
            None => (PayloadRetention::Turn, 0),
        },
    }
}

/// Whether calls to server `server_id` run without asking.
pub fn is_mcp_yolo_enabled(servers: &Vec<McpServerInfo>, server_id: &str) -> (r: bool)
    ensures
        r == (server_by_id(servers@, server_id@) matches Some(s) && s.yolo),
{
    match find_server(servers, server_id) {
        Some(k) => servers[k].yolo,
        None => false,
    }
}

/// Whether `tool_name` is the instant-recall tool (ignoring ASCII case).
pub fn is_instant_recall_tool(tool_name: &str) -> (r: bool)
    ensures
        r == eq_ci(tool_name@, MCP_INSTANT_RECALL_TOOL@),
{
    eq_ignore_ascii_case(tool_name, MCP_INSTANT_RECALL_TOOL)
}

} // verus!
