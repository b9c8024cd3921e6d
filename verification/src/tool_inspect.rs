//! The inspect view of tool calls: finished calls with their result or
//! their request, and calls still waiting for permission.

use vstd::prelude::*;
use crate::inspect::{ToolInspectKind, ToolInspectView};
use crate::mcp_servers::{McpServerInfo, inspect_server_label, server_label_for_inspect};
use crate::picker_meta::{build_inspect_text, inspect_text, push_line};
use crate::session::{SessionContext, ToolCallRequest, ToolResultRecord};
use crate::text::{
    concat2, concat3, decimal, is_blank, lines_of, lines_spec, push_decimal, push_str, str_eq,
    str_to_string, strings_view, trim, trim_seq,
};

verus! {

/// What `serde_json` makes of `text` when it reads it as a JSON value and
/// writes it back with `to_string_pretty`; `None` when it is not JSON.
pub uninterp spec fn pretty_json_text(text: Seq<char>) -> Option<Seq<char>>;

/// `serde_json::from_str::<Value>(text)` followed by
/// `serde_json::to_string_pretty`: the pretty-printed JSON, or `None` when
/// either step fails. What the pretty form is, is left to the name.
#[verifier::external_body]
fn reformat_json(text: &str) -> (r: Option<String>)
    ensures
        match r {
            Some(p) => pretty_json_text(text@) == Some(p@),
            None => pretty_json_text(text@) is None,
        },
{
    match serde_json::from_str::<serde_json::Value>(text) {
        Ok(value) => serde_json::to_string_pretty(&value).ok(),
        Err(_) => None,
    }
}

/// A tool payload or argument text as the inspect view shows it: trimmed,
/// and pretty-printed when it is JSON.
pub open spec fn inspect_json(text: Seq<char>) -> Seq<char> {
    let t = trim_seq(text);
    if t.len() == 0 {
        seq![]
    } else {
        match pretty_json_text(t) {
            Some(p) => p,
            None => t,
        }
    }
}

/// A tool payload as the inspect view shows it (see `inspect_json`).
pub fn format_tool_payload_for_inspect(payload: &str) -> (r: String)
    ensures
        r@ == inspect_json(payload@),
{
    let trimmed = trim(payload);
    if crate::text::str_is_empty(trimmed.as_str()) {
        return String::new();
    }
    match reformat_json(trimmed.as_str()) {
        Some(p) => p,
        None => trimmed,
    }
}

/// Tool call arguments as the inspect view shows them (see `inspect_json`).
pub fn format_tool_arguments_for_inspect(raw_arguments: &str) -> (r: String)
    ensures
        r@ == inspect_json(raw_arguments@),
{
    format_tool_payload_for_inspect(raw_arguments)
}

/// `lines` with `prefix` put before each.
pub open spec fn indented(lines: Seq<Seq<char>>, prefix: Seq<char>) -> Seq<Seq<char>> {
    Seq::new(lines.len(), |i: int| prefix + lines[i])
}

fn push_indented(lines: &mut Vec<String>, text: &str)
    ensures
        strings_view(final(lines)@) == strings_view(old(lines)@) + indented(lines_spec(text@), "  "@),
{
    let split = lines_of(text);
    let ghost start = strings_view(lines@);
    let ghost target = indented(lines_spec(text@), "  "@);
    let mut i: usize = 0;
    while i < split.len()
        invariant
            i <= split@.len(),
            strings_view(split@) == lines_spec(text@),
            target == indented(lines_spec(text@), "  "@),
            strings_view(lines@) == start + target.take(i as int),
        decreases split.len() - i,
    {
        let ghost before = strings_view(lines@);
        lines.push(concat2("  ", split[i].as_str()));
        assert(strings_view(split@)[i as int] == split@[i as int]@);
        assert(strings_view(lines@) =~= before.push("  "@ + split@[i as int]@));
        assert(target.take(i + 1) =~= target.take(i as int).push(target[i as int]));
        i = i + 1;
    }
    assert(target.take(split@.len() as int) =~= target);
}

/// `lines` followed by the tool call id line, when the id is not blank.
pub open spec fn with_call_id(lines: Seq<Seq<char>>, id: Option<String>) -> Seq<Seq<char>> {
    match id {
        Some(t) => if trim_seq(t@).len() > 0 {
            lines.push("Tool call id: "@ + t@)
        } else {
            lines
        },
        None => lines,
    }
}

fn push_call_id(lines: &mut Vec<String>, id: &Option<String>)
    ensures
        strings_view(final(lines)@) == with_call_id(strings_view(old(lines)@), *id),
{
    if let Some(t) = id {
        if !is_blank(t.as_str()) {
            push_line(lines, concat2("Tool call id: ", t.as_str()));
        }
    }
}

/// The lines of the result page of a finished call.
pub open spec fn result_lines(r: ToolResultRecord) -> Seq<Seq<char>> {
    let l1 = seq!["Tool: "@ + r.tool_name@, "Status: "@ + r.status.display_spec()];
    let l2 = match r.server_name {
        Some(s) => if trim_seq(s@).len() > 0 {
            l1.push("Server: "@ + s@)
        } else {
            l1
        },
        None => l1,
    };
    let l3 = with_call_id(l2, r.tool_call_id).push(seq![]).push("Result:"@);
    let payload = inspect_json(r.content@);
    if trim_seq(payload).len() == 0 {
        l3.push("  (empty)"@)
    } else {
        l3 + indented(lines_spec(payload), "  "@)
    }
}

/// The result page of a finished tool call.
pub fn build_tool_result_content(record: &ToolResultRecord) -> (r: String)
    ensures
        r@ == inspect_text(result_lines(*record)),
{
    let mut lines: Vec<String> = Vec::new();
    push_line(&mut lines, concat2("Tool: ", record.tool_name.as_str()));
    push_line(&mut lines, concat2("Status: ", record.status.display()));
    let ghost l1 = seq!["Tool: "@ + record.tool_name@, "Status: "@ + record.status.display_spec()];
    assert(strings_view(lines@) =~= l1);
    if let Some(server) = &record.server_name {
        if !is_blank(server.as_str()) {
            push_line(&mut lines, concat2("Server: ", server.as_str()));
        }
    }
    let ghost l2 = strings_view(lines@);
    push_call_id(&mut lines, &record.tool_call_id);
    push_line(&mut lines, String::new());
    push_line(&mut lines, str_to_string("Result:"));
    let ghost l3 = with_call_id(l2, record.tool_call_id).push(seq![]).push("Result:"@);
    assert(strings_view(lines@) =~= l3);
    let payload = format_tool_payload_for_inspect(record.content.as_str());
    if is_blank(payload.as_str()) {
        push_line(&mut lines, str_to_string("  (empty)"));
    } else {
        push_indented(&mut lines, payload.as_str());
    }
    assert(strings_view(lines@) =~= result_lines(*record));
    build_inspect_text(lines)
}

/// The server label of a finished call: its name, else its id, trimmed,
/// when that is not blank.
pub open spec fn record_server_label(r: ToolResultRecord) -> Option<Seq<char>> {
    let chosen = match r.server_name {
        Some(n) => Some(n),
        None => r.server_id,
    };
    match chosen {
        Some(v) => if trim_seq(v@).len() > 0 {
            Some(trim_seq(v@))
        } else {
            None
        },
        None => None,
    }
}

/// The lines of the request page of a finished call.
pub open spec fn request_lines(r: ToolResultRecord) -> Seq<Seq<char>> {
    let label = record_server_label(r);
    let l1 = seq!["Tool: "@ + r.tool_name@];
    let l2 = match label {
        Some(l) => l1.push("Server: "@ + l),
        None => l1,
    };
    let l3 = match (r.server_id, label) {
        (Some(id), Some(l)) => if trim_seq(id@) != trim_seq(l) {
            l2.push("Server ID: "@ + id@)
        } else {
            l2
        },
        _ => l2,
    };
    let l4 = with_call_id(l3, r.tool_call_id).push(seq![]).push("Arguments:"@);
    let args = match r.raw_arguments {
        Some(a) => inspect_json(a@),
        None => seq![],
    };
    if trim_seq(args).len() == 0 {
        l4.push(
            if r.raw_arguments is Some {
                "  (none)"@
            } else {
                "  (unavailable)"@
            },
        )
    } else {
        l4 + indented(lines_spec(args), "  "@)
    }
}

/// The request page of a finished tool call: tool, server, call id and the
/// arguments, pretty-printed when they are JSON.
pub fn build_tool_request_content(record: &ToolResultRecord) -> (r: String)
    ensures
        r@ == inspect_text(request_lines(*record)),
{
    let mut lines: Vec<String> = Vec::new();
    push_line(&mut lines, concat2("Tool: ", record.tool_name.as_str()));
    let chosen: Option<&String> = match &record.server_name {
        Some(n) => Some(n),
        None => record.server_id.as_ref(),
    };
    let label: Option<String> = match chosen {
        Some(v) => {
            let t = trim(v.as_str());
            if crate::text::str_is_empty(t.as_str()) {
                None
            } else {
                Some(t)
            }
        },
        None => None,
    };
    assert(match label {
        Some(l) => record_server_label(*record) == Some(l@),
        None => record_server_label(*record) is None,
    });
    if let Some(l) = &label {
        push_line(&mut lines, concat2("Server: ", l.as_str()));
    }
    let ghost l2 = strings_view(lines@);
    assert(l2 =~= match record_server_label(*record) {
        Some(l) => seq!["Tool: "@ + record.tool_name@].push("Server: "@ + l),
        None => seq!["Tool: "@ + record.tool_name@],
    });
    if let (Some(id), Some(l)) = (&record.server_id, &label) {
        let a = trim(id.as_str());
        let b = trim(l.as_str());
        if !str_eq(a.as_str(), b.as_str()) {
            push_line(&mut lines, concat2("Server ID: ", id.as_str()));
        }
    }
    let ghost l3 = strings_view(lines@);
    push_call_id(&mut lines, &record.tool_call_id);
    push_line(&mut lines, String::new());
    push_line(&mut lines, str_to_string("Arguments:"));
    assert(strings_view(lines@) =~= with_call_id(l3, record.tool_call_id).push(seq![]).push(
        "Arguments:"@,
    ));
    let args = match &record.raw_arguments {
        Some(a) => format_tool_arguments_for_inspect(a.as_str()),
        None => String::new(),
    };
    if is_blank(args.as_str()) {
        if record.raw_arguments.is_some() {
            push_line(&mut lines, str_to_string("  (none)"));
        } else {
            push_line(&mut lines, str_to_string("  (unavailable)"));
        }
    } else {
        push_indented(&mut lines, args.as_str());
    }
    assert(strings_view(lines@) =~= request_lines(*record));
    build_inspect_text(lines)
}

/// The lines of the page of a call waiting for permission.
pub open spec fn pending_lines(r: ToolCallRequest, label: Seq<char>) -> Seq<Seq<char>> {
    let l1 = seq!["Tool: "@ + r.tool_name@, "Server: "@ + label];
    let l2 = if trim_seq(r.server_id@) != trim_seq(label) {
        l1.push("Server ID: "@ + r.server_id@)
    } else {
        l1
    };
    let l3 = with_call_id(l2, r.tool_call_id).push(seq![]).push("Arguments:"@);
    let args = inspect_json(r.raw_arguments@);
    if trim_seq(args).len() == 0 {
        l3.push("  (none)"@)
    } else {
        l3 + indented(lines_spec(args), "  "@)
    }
}

/// The page of a tool call waiting for permission.
pub fn build_tool_pending_content(request: &ToolCallRequest, servers: &Vec<McpServerInfo>) -> (r:
    String)
    ensures
        r@ == inspect_text(pending_lines(*request, inspect_server_label(servers@, request.server_id@))),
{
    let label = server_label_for_inspect(servers, request.server_id.as_str());
    let mut lines: Vec<String> = Vec::new();
    push_line(&mut lines, concat2("Tool: ", request.tool_name.as_str()));
    push_line(&mut lines, concat2("Server: ", label.as_str()));
    assert(strings_view(lines@) =~= seq!["Tool: "@ + request.tool_name@, "Server: "@ + label@]);
    let a = trim(request.server_id.as_str());
    let b = trim(label.as_str());
    if !str_eq(a.as_str(), b.as_str()) {
        push_line(&mut lines, concat2("Server ID: ", request.server_id.as_str()));
    }
    let ghost l2 = strings_view(lines@);
    push_call_id(&mut lines, &request.tool_call_id);
    push_line(&mut lines, String::new());
    push_line(&mut lines, str_to_string("Arguments:"));
    assert(strings_view(lines@) =~= with_call_id(l2, request.tool_call_id).push(seq![]).push(
        "Arguments:"@,
    ));
    let args = format_tool_arguments_for_inspect(request.raw_arguments.as_str());
    if is_blank(args.as_str()) {
        push_line(&mut lines, str_to_string("  (none)"));
    } else {
        push_indented(&mut lines, args.as_str());
    }
    assert(strings_view(lines@) =~= pending_lines(*request, label@));
    build_inspect_text(lines)
}

/// "i/n" for the entry at `index` of `total`, counting from one; a total of
/// zero counts as one.
pub open spec fn position_text(index: nat, total: nat) -> Seq<char> {
    decimal(index + 1) + "/"@ + decimal(if total == 0 {
        1
    } else {
        total
    })
}

fn position(index: usize, total: usize) -> (r: String)
    requires
        index < usize::MAX,
    ensures
        r@ == position_text(index as nat, total as nat),
{
    let mut s = String::new();
    push_decimal(&mut s, index + 1);
    push_str(&mut s, "/");
    push_decimal(&mut s, if total == 0 {
        1
    } else {
        total
    });
    assert(s@ =~= position_text(index as nat, total as nat));
    s
}

/// The title of the result page of a finished call.
pub open spec fn result_title(r: ToolResultRecord, index: nat, total: nat) -> Seq<char> {
    "Tool call (completed, "@ + position_text(index, total) + ") \u{2013} "@ + r.tool_name@ + " ("@
        + r.status.display_spec() + ")"@
}

/// Title of the result page of finished call `index` of `total`.
pub fn build_tool_result_title(record: &ToolResultRecord, index: usize, total: usize) -> (r: String)
    requires
        index < usize::MAX,
    ensures
        r@ == result_title(*record, index as nat, total as nat),
{
    let pos = position(index, total);
    let mut s = concat3("Tool call (completed, ", pos.as_str(), ") \u{2013} ");
    push_str(&mut s, record.tool_name.as_str());
    push_str(&mut s, " (");
    push_str(&mut s, record.status.display());
    push_str(&mut s, ")");
    s
}

/// The title of the request page of a finished call.
pub open spec fn request_title(r: ToolResultRecord, index: nat, total: nat) -> Seq<char> {
    "Tool call (completed, "@ + position_text(index, total) + ") \u{2013} "@ + r.tool_name@
}

/// Title of the request page of finished call `index` of `total`.
pub fn build_tool_request_title(record: &ToolResultRecord, index: usize, total: usize) -> (r: String)
    requires
        index < usize::MAX,
    ensures
        r@ == request_title(*record, index as nat, total as nat),
{
    let pos = position(index, total);
    let mut s = concat3("Tool call (completed, ", pos.as_str(), ") \u{2013} ");
    push_str(&mut s, record.tool_name.as_str());
    s
}

/// The title of the page of a call waiting for permission.
pub open spec fn pending_title(r: ToolCallRequest, index: nat, total: nat, label: Seq<char>) -> Seq<
    char,
> {
    "Tool call (pending, "@ + position_text(index, total) + ") \u{2013} "@ + r.tool_name@ + " on "@
        + label + " (permission pending)"@
}

/// Title of the page of waiting call `index` of `total`.
pub fn build_tool_pending_title(
    request: &ToolCallRequest,
    index: usize,
    total: usize,
    servers: &Vec<McpServerInfo>,
) -> (r: String)
    requires
        index < usize::MAX,
    ensures
        r@ == pending_title(
            *request,
            index as nat,
            total as nat,
            inspect_server_label(servers@, request.server_id@),
        ),
{
    let label = server_label_for_inspect(servers, request.server_id.as_str());
    let pos = position(index, total);
    let mut s = concat3("Tool call (pending, ", pos.as_str(), ") \u{2013} ");
    push_str(&mut s, request.tool_name.as_str());
    push_str(&mut s, " on ");
    push_str(&mut s, label.as_str());
    push_str(&mut s, " (permission pending)");
    s
}

// ---------------------------------------------------------------------------
// Choosing the page
// ---------------------------------------------------------------------------

/// The calls that wait: the one being asked about, then the queue.
pub open spec fn pending_requests(s: SessionContext) -> Seq<ToolCallRequest> {
    match s.active_tool_request {
        Some(a) => seq![a] + s.pending_tool_queue@,
        None => s.pending_tool_queue@,
    }
}

/// The status when there is no tool call at all.
pub open spec fn no_tool_calls() -> Seq<char> {
    "No tool calls to inspect yet."@
}

/// A page of the tool-call inspect view.
pub struct ToolInspectPage {
    pub index: usize,
    pub title: String,
    pub content: String,
    pub kind: ToolInspectKind,
    pub view: ToolInspectView,
    pub status: String,
}

/// The status shown with a page of kind `kind`.
pub open spec fn page_status(kind: ToolInspectKind) -> Seq<char> {
    match kind {
        ToolInspectKind::Pending => "Inspecting tool call (permission pending \u{2022} Esc=Close)"@,
        ToolInspectKind::Result => "Inspecting tool result (Tab=Toggle \u{2022} Esc=Close)"@,
    }
}

/// `p` is page `index` of the tool calls of `s`: finished calls first (their
/// result or request page, as `view` asks), then waiting ones (a position
/// past the end shows the last).
pub open spec fn page_spec(
    s: SessionContext,
    servers: Seq<McpServerInfo>,
    index: usize,
    view: ToolInspectView,
    p: ToolInspectPage,
) -> bool {
    let results = s.tool_result_history@;
    let pend = pending_requests(s);
    &&& p.index == index
    &&& p.status@ == page_status(p.kind)
    &&& if index < results.len() {
        let rec = results[index as int];
        &&& p.kind == ToolInspectKind::Result
        &&& p.view == view
        &&& p.title@ == if view == ToolInspectView::Result {
            result_title(rec, index as nat, results.len())
        } else {
            request_title(rec, index as nat, results.len())
        }
        &&& p.content@ == if view == ToolInspectView::Result {
            inspect_text(result_lines(rec))
        } else {
            inspect_text(request_lines(rec))
        }
    } else {
        let pi = index - results.len();
        let k = if pi < pend.len() {
            pi
        } else {
            pend.len() - 1
        };
        let req = pend[k];
        let label = inspect_server_label(servers, req.server_id@);
        &&& p.kind == ToolInspectKind::Pending
        &&& p.view == ToolInspectView::Request
        &&& p.title@ == pending_title(req, k as nat, pend.len(), label)
        &&& p.content@ == inspect_text(pending_lines(req, label))
    }
}

fn pending_count(session: &SessionContext) -> (r: usize)
    requires
        pending_requests(*session).len() <= usize::MAX,
    ensures
        r == pending_requests(*session).len(),
{
    let q = session.pending_tool_queue.len();
    if session.active_tool_request.is_some() {
        q + 1
    } else {
        q
    }
}

fn pending_at(session: &SessionContext, k: usize) -> (r: &ToolCallRequest)
    requires
        k < pending_requests(*session).len(),
    ensures
        *r == pending_requests(*session)[k as int],
{
    match &session.active_tool_request {
        Some(a) => if k == 0 {
            a
        } else {
            &session.pending_tool_queue[k - 1]
        },
        None => &session.pending_tool_queue[k],
    }
}

/// Page `index` of the tool calls (see `page_spec`), or the status saying
/// there are none.
pub fn tool_inspect_page(
    session: &SessionContext,
    servers: &Vec<McpServerInfo>,
    index: usize,
    view: ToolInspectView,
) -> (r: Result<ToolInspectPage, String>)
    requires
        session.tool_result_history@.len() + pending_requests(*session).len() <= usize::MAX,
        index < usize::MAX,
        index < session.tool_result_history@.len() || pending_requests(*session).len() > 0
            || session.tool_result_history@.len() == 0,
    ensures
        match r {
            Err(e) => session.tool_result_history@.len() + pending_requests(*session).len() == 0
                && e@ == no_tool_calls(),
            Ok(p) => session.tool_result_history@.len() + pending_requests(*session).len() > 0
                && page_spec(*session, servers@, index, view, p),
        },
{
    let rlen = session.tool_result_history.len();
    let plen = pending_count(session);
    if rlen == 0 && plen == 0 {
        return Err(str_to_string("No tool calls to inspect yet."));
    }
    if index < rlen {
        let rec = &session.tool_result_history[index];
        let (title, content) = match view {
            ToolInspectView::Result => (
                build_tool_result_title(rec, index, rlen),
                build_tool_result_content(rec),
            ),
            ToolInspectView::Request => (
                build_tool_request_title(rec, index, rlen),
                build_tool_request_content(rec),
            ),
        };
        Ok(
            ToolInspectPage {
                index,
                title,
                content,
                kind: ToolInspectKind::Result,
                view,
                status: str_to_string("Inspecting tool result (Tab=Toggle \u{2022} Esc=Close)"),
            },
        )
    } else {
        let pi = index - rlen;
        let k = if pi < plen {
            pi
        } else {
            plen - 1
        };
        let req = pending_at(session, k);
        Ok(
            ToolInspectPage {
                index,
                title: build_tool_pending_title(req, k, plen, servers),
                content: build_tool_pending_content(req, servers),
                kind: ToolInspectKind::Pending,
                view: ToolInspectView::Request,
                status: str_to_string(
                    "Inspecting tool call (permission pending \u{2022} Esc=Close)",
                ),
            },
        )
    }
}

/// The page the tool-call view opens on: the waiting call being asked about
/// while its prompt is shown, else the last finished call's result, else
/// the first waiting call. `None` when there is no call at all.
pub fn latest_tool_inspect_target(session: &SessionContext, prompt_open: bool) -> (r: Option<
    (usize, ToolInspectView),
>)
    requires
        pending_requests(*session).len() <= usize::MAX,
    ensures
        ({
            let rlen = session.tool_result_history@.len();
            let plen = pending_requests(*session).len();
            if rlen == 0 && plen == 0 {
                r is None
            } else if prompt_open && plen > 0 {
                r == Some((rlen as usize, ToolInspectView::Request))
            } else if rlen > 0 {
                r == Some(((rlen - 1) as usize, ToolInspectView::Result))
            } else {
                r == Some((rlen as usize, ToolInspectView::Request))
            }
        }),
{
    let rlen = session.tool_result_history.len();
    let plen = pending_count(session);
    if rlen == 0 && plen == 0 {
        None
    } else if prompt_open && plen > 0 {
        Some((rlen, ToolInspectView::Request))
    } else if rlen > 0 {
        Some((rlen - 1, ToolInspectView::Result))
    } else {
        Some((rlen, ToolInspectView::Request))
    }
}

/// The position after stepping from `index` through `total` pages: one on
/// for a non-negative `delta`, one back otherwise, wrapping around. `None`
/// with fewer than two pages.
pub open spec fn stepped_index(index: int, delta: int, total: int) -> Option<int> {
    if total < 2 {
        None
    } else {
        Some((index + if delta >= 0 {
            1
        } else {
            total - 1
        }) % total)
    }
}

/// Steps through the tool-call pages (see `stepped_index`).
pub fn step_tool_inspect_index(index: usize, delta: i32, total: usize) -> (r: Option<usize>)
    requires
        total < 2 || index + (if delta >= 0 {
            1
        } else {
            total - 1
        }) <= usize::MAX,
    ensures
        match r {
            Some(n) => stepped_index(index as int, delta as int, total as int) == Some(n as int),
            None => stepped_index(index as int, delta as int, total as int) is None,
        },
{
    if total < 2 {
        return None;
    }
    let step: usize = if delta >= 0 {
        1
    } else {
        total - 1
    };
    Some((index + step) % total)
}

/// Tab in the tool-call view: the other face of a finished call; a waiting
/// call has only its request, which the error says.
pub fn toggle_tool_inspect_view(kind: ToolInspectKind, view: ToolInspectView) -> (r: Result<
    ToolInspectView,
    String,
>)
    ensures
        match r {
            Ok(v) => kind == ToolInspectKind::Result && v == view.toggled(),
            Err(e) => kind == ToolInspectKind::Pending && e@
                == "Pending tool calls have no result to show yet."@,
        },
{
    match kind {
        ToolInspectKind::Pending => Err(
            str_to_string("Pending tool calls have no result to show yet."),
        ),
        ToolInspectKind::Result => Ok(view.toggle()),
    }
}

} // verus!
