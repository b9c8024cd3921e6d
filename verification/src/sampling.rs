//! Sampling requests of MCP servers: which one runs next, and whether the
//! user is asked first.

use vstd::prelude::*;
use crate::mcp_servers::{
    McpServerInfo, ToolPermissionDecision, MCP_SAMPLING_TOOL, is_mcp_yolo_enabled,
    resolve_server_label, result_server_label, server_by_id,
};
use crate::text::{str_to_string, push_str};

verus! {

/// What the application does with the sampling queue.
pub enum SamplingStep {
    /// A request is running or the user is already being asked.
    Busy,
    /// No request is waiting.
    Idle,
    /// The next request becomes active and runs.
    Run,
    /// The next request is refused; the server gets this error.
    Refuse { code: i64, message: String },
    /// The next request becomes active while the user is asked.
    Ask { server_name: String, tool_name: String, display_name: String },
}

/// The question put to the user before server `server_name` may sample
/// `model`.
pub open spec fn sampling_question(server_name: Seq<char>, model: Seq<char>) -> Seq<char> {
    "Allow "@ + server_name + " to generate text with "@ + model + "?"@
}

/// The error a blocked sampling request is answered with.
pub open spec fn sampling_blocked_message() -> Seq<char> {
    "Sampling blocked by user."@
}

/// Takes the sampling queue forward. Nothing happens while a request is
/// active or a prompt is open, nor when the queue is empty. The next
/// request (of server `next_server`) runs at once when its server runs
/// calls without asking or the user allowed sampling for the session; it is
/// refused when the user blocked it; otherwise the user is asked.
/// `decision` is the stored decision for that server's sampling.
pub fn advance_sampling_queue(
    active: bool,
    prompt_open: bool,
    next_server: Option<&str>,
    servers: &Vec<McpServerInfo>,
    decision: Option<ToolPermissionDecision>,
    model: &str,
) -> (r: SamplingStep)
    ensures
        (active || prompt_open) ==> r is Busy,
        (!active && !prompt_open && next_server is None) ==> r is Idle,
        (!active && !prompt_open && next_server is Some) ==> {
            let id = next_server->0@;
            let yolo = server_by_id(servers@, id) matches Some(s) && s.yolo;
            if yolo {
                r is Run
            } else {
                match decision {
                    Some(ToolPermissionDecision::Block) => r matches SamplingStep::Refuse { code, message }
                        && code == -1 && message@ == sampling_blocked_message(),
                    Some(ToolPermissionDecision::AllowSession) => r is Run,
                    None => r matches SamplingStep::Ask { server_name, tool_name, display_name }
                        && server_name@ == result_server_label(servers@, id) && tool_name@
                        == MCP_SAMPLING_TOOL@ && display_name@ == sampling_question(
                        server_name@,
                        model@,
                    ),
                }
            }
        },
{
    if active || prompt_open {
        return SamplingStep::Busy;
    }
    let server_id = match next_server {
        Some(id) => id,
        None => {
            return SamplingStep::Idle;
        },
    };
    if is_mcp_yolo_enabled(servers, server_id) {
        return SamplingStep::Run;
    }
    match decision {
        Some(ToolPermissionDecision::Block) => SamplingStep::Refuse {
            code: -1,
            message: str_to_string("Sampling blocked by user."),
        },
        Some(ToolPermissionDecision::AllowSession) => SamplingStep::Run,
        None => {
            let server_name = resolve_server_label(servers, server_id);
            let mut display_name = str_to_string("Allow ");
            push_str(&mut display_name, server_name.as_str());
            push_str(&mut display_name, " to generate text with ");
            push_str(&mut display_name, model);
            push_str(&mut display_name, "?");
            SamplingStep::Ask {
                server_name,
                tool_name: str_to_string(MCP_SAMPLING_TOOL),
                display_name,
            }
        },
    }
}

} // verus!
