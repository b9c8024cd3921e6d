//! The tool-call pipeline: reading the arguments a model gave, choosing the
//! server for each call, refusing the calls that cannot run, and recording
//! every result with the payload history the servers ask to keep.

use vstd::prelude::*;
use crate::json::{
    JsonValue, json_read, read_json, read_view, field_of, get_str_field, json_quote, json_text, set_field, str_field_of, to_json_string,
    with_field,
};
use crate::mcp_servers::{
    McpServerInfo, PayloadRetention, eq_ci, payload_policy, resolve_tool_payload_policy,
};
use crate::session::{
    ChatMessage, ChatToolCall, ChatToolCallFunction, SessionContext, ToolFailureKind,
    ToolPayloadHistoryEntry, ToolResultRecord, ToolResultStatus,
};
use crate::text::{
    abbreviate_spec, abbreviate_tool_call_value, ascii_lower_seq, collapse_whitespace, concat2,
    concat3, eq_ignore_ascii_case, is_blank, join_strings, join_with, normalize_ws, push_str,
    str_eq, str_is_empty, str_to_string, strings_view, to_ascii_lowercase, trim, trim_seq,
};

verus! {

// ---------------------------------------------------------------------------
// Result metadata and summaries
// ---------------------------------------------------------------------------

/// What is known of a tool call when its result is recorded.
pub struct ToolResultMeta {
    pub server_label: Option<String>,
    pub server_id: Option<String>,
    pub tool_call_id: Option<String>,
    pub raw_arguments: Option<String>,
    pub failure_kind: Option<ToolFailureKind>,
}

impl ToolResultMeta {
    /// Metadata with no failure kind.
    pub fn new(
        server_label: Option<String>,
        server_id: Option<String>,
        tool_call_id: Option<String>,
        raw_arguments: Option<String>,
    ) -> (r: Self)
        ensures
            r.server_label == server_label,
            r.server_id == server_id,
            r.tool_call_id == tool_call_id,
            r.raw_arguments == raw_arguments,
            r.failure_kind is None,
    {
        ToolResultMeta { server_label, server_id, tool_call_id, raw_arguments, failure_kind: None }
    }
}

/// The status word of a result: for an error, the failure kind when known.
pub open spec fn status_label(status: ToolResultStatus, failure_kind: Option<ToolFailureKind>) -> Seq<
    char,
> {
    if status == ToolResultStatus::Error {
        match failure_kind {
            Some(k) => k.label_spec(),
            None => status.label_spec(),
        }
    } else {
        status.label_spec()
    }
}

/// "<tool> on <server> (<status>)", without the server part when its label
/// is missing or blank.
pub open spec fn result_heading(
    tool_name: Seq<char>,
    server_label: Option<String>,
    status: ToolResultStatus,
    failure_kind: Option<ToolFailureKind>,
) -> Seq<char> {
    let on = match server_label {
        Some(s) => if trim_seq(s@).len() > 0 {
            " on "@ + s@
        } else {
            seq![]
        },
        None => seq![],
    };
    tool_name + on + " ("@ + status_label(status, failure_kind) + ")"@
}

fn heading_text(
    tool_name: &str,
    server_label: &Option<String>,
    status: ToolResultStatus,
    failure_kind: Option<ToolFailureKind>,
) -> (r: String)
    ensures
        r@ == result_heading(tool_name@, *server_label, status, failure_kind),
{
    let mut s = str_to_string(tool_name);
    if let Some(server) = server_label {
        if !is_blank(server.as_str()) {
            push_str(&mut s, " on ");
            push_str(&mut s, server.as_str());
        }
    }
    push_str(&mut s, " (");
    let label = match status {
        ToolResultStatus::Error => match failure_kind {
            Some(k) => k.label(),
            None => status.label(),
        },
        _ => status.label(),
    };
    push_str(&mut s, label);
    push_str(&mut s, ")");
    proof {
        reveal_strlit("");
    }
    s
}

/// The abbreviated arguments shown in a summary: nothing for the
/// placeholder that stands for no arguments.
pub open spec fn shown_arguments(abbreviated: Seq<char>) -> Seq<char> {
    if abbreviated == "(none)"@ {
        seq![]
    } else {
        abbreviated
    }
}

/// The arguments part of a summary, given their abbreviation; the
/// "(none)" placeholder gives nothing.
pub fn summarize_tool_arguments(abbreviated: &str) -> (r: String)
    ensures
        r@ == shown_arguments(abbreviated@),
{
    if str_eq(abbreviated, "(none)") {
        proof {
            reveal_strlit("(none)");
        }
        String::new()
    } else {
        str_to_string(abbreviated)
    }
}

/// The one-line summary of a recorded result: its heading, then the
/// abbreviated arguments when the call had arguments and they show
/// anything.
pub open spec fn result_summary(
    tool_name: Seq<char>,
    meta: ToolResultMeta,
    status: ToolResultStatus,
    abbreviated: Seq<char>,
) -> Seq<char> {
    let head = result_heading(tool_name, meta.server_label, status, meta.failure_kind);
    if meta.raw_arguments is Some && shown_arguments(abbreviated).len() > 0 {
        head + " args: "@ + shown_arguments(abbreviated)
    } else {
        head
    }
}

/// The summary line of a recorded result (see `result_summary`);
/// `abbreviated` is the abbreviation of the call's raw arguments.
pub fn build_tool_result_summary(
    tool_name: &str,
    meta: &ToolResultMeta,
    status: ToolResultStatus,
    abbreviated: &str,
) -> (r: String)
    ensures
        r@ == result_summary(tool_name@, *meta, status, abbreviated@),
{
    let mut summary = heading_text(tool_name, &meta.server_label, status, meta.failure_kind);
    if meta.raw_arguments.is_some() {
        let shown = summarize_tool_arguments(abbreviated);
        if !str_is_empty(shown.as_str()) {
            push_str(&mut summary, " args: ");
            push_str(&mut summary, shown.as_str());
        }
    }
    summary
}

// ---------------------------------------------------------------------------
// Payload history
// ---------------------------------------------------------------------------

/// Whether a history entry belongs to server `server_id` (ignoring ASCII case).
pub open spec fn entry_of(e: ToolPayloadHistoryEntry, server_id: Seq<char>) -> bool {
    e.server_id matches Some(id) && eq_ci(id@, server_id)
}

/// The number of entries of server `server_id`.
pub open spec fn entries_of(h: Seq<ToolPayloadHistoryEntry>, server_id: Seq<char>) -> nat
    decreases h.len(),
{
    if h.len() == 0 {
        0
    } else {
        entries_of(h.drop_last(), server_id) + if entry_of(h.last(), server_id) {
            1nat
        } else {
            0nat
        }
    }
}

/// `h` without the first `n` entries of server `server_id`.
pub open spec fn without_oldest(h: Seq<ToolPayloadHistoryEntry>, server_id: Seq<char>, n: nat) -> Seq<
    ToolPayloadHistoryEntry,
>
    decreases h.len(),
{
    if h.len() == 0 {
        seq![]
    } else {
        let rest = without_oldest(h.drop_last(), server_id, n);
        if entry_of(h.last(), server_id) && entries_of(h.drop_last(), server_id) < n {
            rest
        } else {
            rest.push(h.last())
        }
    }
}

/// The history after keeping at most `window` entries of server
/// `server_id`: its oldest entries go first; the others stay in order.
pub open spec fn trimmed_history(
    h: Seq<ToolPayloadHistoryEntry>,
    server_id: Option<Seq<char>>,
    window: nat,
) -> Seq<ToolPayloadHistoryEntry> {
    match server_id {
        None => h,
        Some(s) => if entries_of(h, s) <= window {
            h
        } else {
            without_oldest(h, s, (entries_of(h, s) - window) as nat)
        },
    }
}

fn is_entry_of(e: &ToolPayloadHistoryEntry, server_id: &str) -> (r: bool)
    ensures
        r == entry_of(*e, server_id@),
{
    match &e.server_id {
        Some(id) => eq_ignore_ascii_case(id.as_str(), server_id),
        None => false,
    }
}

/// Dropping the `n` oldest entries of a server that has at least `n`
/// leaves it `n` fewer.
pub proof fn lemma_without_oldest_counts(h: Seq<ToolPayloadHistoryEntry>, s: Seq<char>, n: nat)
    requires
        n <= entries_of(h, s),
    ensures
        entries_of(without_oldest(h, s, n), s) == entries_of(h, s) - n,
    decreases h.len(),
{
    if h.len() > 0 {
        let d = h.drop_last();
        let rest = without_oldest(d, s, n);
        if entry_of(h.last(), s) && entries_of(d, s) < n {
            lemma_without_oldest_counts_all(d, s, n);
        } else {
            lemma_without_oldest_counts(d, s, n);
            assert(rest.push(h.last()).drop_last() =~= rest);
        }
    }
}

/// Dropping at least as many entries as a server has leaves none of it.
proof fn lemma_without_oldest_counts_all(h: Seq<ToolPayloadHistoryEntry>, s: Seq<char>, n: nat)
    requires
        entries_of(h, s) <= n,
    ensures
        entries_of(without_oldest(h, s, n), s) == 0,
    decreases h.len(),
{
    if h.len() > 0 {
        let d = h.drop_last();
        lemma_without_oldest_counts_all(d, s, n);
        let rest = without_oldest(d, s, n);
        if !(entry_of(h.last(), s) && entries_of(d, s) < n) {
            assert(rest.push(h.last()).drop_last() =~= rest);
        }
    }
}

impl SessionContext {
    /// Keeps at most `window` payload entries of server `server_id`,
    /// dropping its oldest ones; nothing happens without a server id.
    pub fn trim_tool_payload_history(&mut self, server_id: Option<&str>, window: usize)
        ensures
            *final(self) == (SessionContext {
                tool_payload_history: final(self).tool_payload_history,
                ..*old(self)
            }),
            final(self).tool_payload_history@ == trimmed_history(
                old(self).tool_payload_history@,
                match server_id {
                    Some(s) => Some(s@),
                    None => None,
                },
                window as nat,
            ),
    {
        let sid = match server_id {
            Some(s) => s,
            None => {
                return ;
            },
        };
        let n = self.tool_payload_history.len();
        let mut count: usize = 0;
        let mut i: usize = 0;
        while i < n
            invariant
                n == self.tool_payload_history@.len(),
                i <= n,
                count <= i,
                count == entries_of(self.tool_payload_history@.take(i as int), sid@),
            decreases n - i,
        {
            let ghost q = self.tool_payload_history@.take(i + 1);
            assert(q.drop_last() =~= self.tool_payload_history@.take(i as int));
            if is_entry_of(&self.tool_payload_history[i], sid) {
                count = count + 1;
            }
            i = i + 1;
        }
        assert(self.tool_payload_history@.take(n as int) =~= self.tool_payload_history@);
        if count <= window {
            return ;
        }
        let drop_total: usize = count - window;
        let mut entries: Vec<ToolPayloadHistoryEntry> = Vec::new();
        std::mem::swap(&mut entries, &mut self.tool_payload_history);
        let ghost h = entries@;
        let mut keep: Vec<ToolPayloadHistoryEntry> = Vec::new();
        let mut seen: usize = 0;
        let mut j: usize = 0;
        assert(h.subrange(0, n as int) =~= h);
        assert(h.take(0) =~= Seq::<ToolPayloadHistoryEntry>::empty());
        while j < n
            invariant
                n == h.len(),
                j <= n,
                entries@ =~= h.subrange(j as int, n as int),
                seen == entries_of(h.take(j as int), sid@),
                seen <= j,
                keep@ == without_oldest(h.take(j as int), sid@, drop_total as nat),
            decreases n - j,
        {
            let e = entries.remove(0);
            assert(entries@ =~= h.subrange(j + 1, n as int));
            let ghost q = h.take(j + 1);
            assert(q.drop_last() =~= h.take(j as int));
            assert(q.last() == e);
            let hit = is_entry_of(&e, sid);
            if !(hit && seen < drop_total) {
                keep.push(e);
            }
            if hit {
                seen = seen + 1;
            }
            j = j + 1;
        }
        assert(h.take(n as int) =~= h);
        self.tool_payload_history = keep;
    }
}

// ---------------------------------------------------------------------------
// Recording a result
// ---------------------------------------------------------------------------

/// `m` is the tool message carrying `content` for call `id`.
pub open spec fn is_tool_message(m: ChatMessage, content: Seq<char>, id: Option<String>) -> bool {
    &&& m.role@ == "tool"@
    &&& m.content@ == content
    &&& m.name is None
    &&& m.tool_call_id == id
    &&& m.tool_calls is None
}

/// `e` keeps the exchange of call `id` of tool `tool_name` so it can be
/// replayed: the assistant turn that asked for it and the tool's answer.
pub open spec fn is_payload_entry(
    e: ToolPayloadHistoryEntry,
    server_id: Option<String>,
    id: String,
    tool_name: Seq<char>,
    raw_arguments: Option<String>,
    payload: Seq<char>,
    assistant_index: Option<usize>,
) -> bool {
    &&& e.server_id == server_id
    &&& e.tool_call_id == Some(id)
    &&& e.assistant_message_index == assistant_index
    &&& e.assistant_message.role@ == "assistant"@
    &&& e.assistant_message.content@.len() == 0
    &&& e.assistant_message.name is None
    &&& e.assistant_message.tool_call_id is None
    &&& e.assistant_message.tool_calls matches Some(calls) && calls@.len() == 1 && calls@[0].id
        == id && calls@[0].kind@ == "function"@ && calls@[0].function.name@ == tool_name
        && calls@[0].function.arguments@ == match raw_arguments {
        Some(a) => a@,
        None => seq![],
    }
    &&& is_tool_message(e.tool_message, payload, Some(id))
}

/// `r` records a result of tool `tool_name` with `meta`, `status`, `payload`
/// and `summary`, tied to assistant message `assistant_index`.
pub open spec fn is_result_record(
    r: ToolResultRecord,
    tool_name: Seq<char>,
    meta: ToolResultMeta,
    status: ToolResultStatus,
    payload: Seq<char>,
    summary: Seq<char>,
    assistant_index: Option<usize>,
) -> bool {
    &&& r.tool_name@ == tool_name
    &&& r.server_name == meta.server_label
    &&& r.server_id == meta.server_id
    &&& r.status == status
    &&& r.failure_kind == meta.failure_kind
    &&& r.content@ == payload
    &&& r.summary@ == summary
    &&& r.tool_call_id == meta.tool_call_id
    &&& r.raw_arguments == meta.raw_arguments
    &&& r.assistant_message_index == assistant_index
}

/// `after` is `before` with a tool result recorded: the tool message added
/// to this turn's results, the record added to the history, and, when the
/// server keeps payloads beyond the turn and the call has an id, the
/// exchange added to the payload history, trimmed to the server's window.
pub open spec fn result_recorded(
    before: SessionContext,
    after: SessionContext,
    servers: Seq<McpServerInfo>,
    tool_name: Seq<char>,
    meta: ToolResultMeta,
    payload: Seq<char>,
    status: ToolResultStatus,
    abbreviated: Seq<char>,
) -> bool {
    let idx = before.active_assistant_message_index;
    let (policy, window) = payload_policy(servers, match meta.server_id {
        Some(s) => Some(s@),
        None => None,
    });
    &&& after == (SessionContext {
        tool_results: after.tool_results,
        tool_result_history: after.tool_result_history,
        tool_payload_history: after.tool_payload_history,
        ..before
    })
    &&& after.tool_results@.len() == before.tool_results@.len() + 1
    &&& after.tool_results@.drop_last() == before.tool_results@
    &&& is_tool_message(after.tool_results@.last(), payload, meta.tool_call_id)
    &&& after.tool_result_history@.len() == before.tool_result_history@.len() + 1
    &&& after.tool_result_history@.drop_last() == before.tool_result_history@
    &&& is_result_record(
        after.tool_result_history@.last(),
        tool_name,
        meta,
        status,
        payload,
        result_summary(tool_name, meta, status, abbreviated),
        idx,
    )
    &&& if (policy == PayloadRetention::Window || policy == PayloadRetention::All)
        && meta.tool_call_id is Some {
        exists|e: ToolPayloadHistoryEntry|
            is_payload_entry(
                e,
                meta.server_id,
                meta.tool_call_id->0,
                tool_name,
                meta.raw_arguments,
                payload,
                idx,
            ) && after.tool_payload_history@ == if policy == PayloadRetention::Window && window
                > 0 {
                trimmed_history(
                    before.tool_payload_history@.push(e),
                    match meta.server_id {
                        Some(s) => Some(s@),
                        None => None,
                    },
                    window as nat,
                )
            } else {
                before.tool_payload_history@.push(e)
            }
    } else {
        after.tool_payload_history == before.tool_payload_history
    }
}

fn copy_opt(s: &Option<String>) -> (r: Option<String>)
    ensures
        r == *s,
{
    match s {
        Some(v) => Some(v.clone()),
        None => None,
    }
}

fn tool_message(content: String, id: Option<String>) -> (r: ChatMessage)
    ensures
        is_tool_message(r, content@, id),
{
    ChatMessage {
        role: str_to_string("tool"),
        content,
        name: None,
        tool_call_id: id,
        tool_calls: None,
    }
}

impl SessionContext {
    /// Records the result of a tool call (see `result_recorded`);
    /// `abbreviated` is the abbreviation of the call's raw arguments for the
    /// summary. The transcript line ("<tool> on <server> (<status>)") comes
    /// back.
    pub fn record_tool_result(
        &mut self,
        servers: &Vec<McpServerInfo>,
        tool_name: &str,
        meta: ToolResultMeta,
        payload: String,
        status: ToolResultStatus,
        abbreviated: &str,
    ) -> (r: String)
        ensures
            result_recorded(
                *old(self),
                *final(self),
                servers@,
                tool_name@,
                meta,
                payload@,
                status,
                abbreviated@,
            ),
            r@ == result_heading(tool_name@, meta.server_label, status, meta.failure_kind),
    {
        let ghost meta0 = meta;
        let idx = self.active_assistant_message_index;
        let summary = build_tool_result_summary(tool_name, &meta, status, abbreviated);
        let server_ref: Option<&str> = match &meta.server_id {
            Some(s) => Some(s.as_str()),
            None => None,
        };
        let (policy, window) = resolve_tool_payload_policy(servers, server_ref);
        let transcript = heading_text(tool_name, &meta.server_label, status, meta.failure_kind);
        self.tool_results.push(tool_message(payload.clone(), copy_opt(&meta.tool_call_id)));
        let record = ToolResultRecord {
            tool_name: str_to_string(tool_name),
            server_name: copy_opt(&meta.server_label),
            server_id: copy_opt(&meta.server_id),
            status,
            failure_kind: meta.failure_kind,
            content: payload.clone(),
            summary,
            tool_call_id: copy_opt(&meta.tool_call_id),
            raw_arguments: copy_opt(&meta.raw_arguments),
            assistant_message_index: idx,
        };
        self.tool_result_history.push(record);
        let keeps = match policy {
            PayloadRetention::Window => true,
            PayloadRetention::All => true,
            PayloadRetention::Turn => false,
        };
        if keeps {
            if let Some(id) = &meta.tool_call_id {
                let args = match &meta.raw_arguments {
                    Some(a) => a.clone(),
                    None => String::new(),
                };
                let call = ChatToolCall {
                    id: id.clone(),
                    kind: str_to_string("function"),
                    function: ChatToolCallFunction { name: str_to_string(tool_name), arguments: args },
                };
                let mut calls: Vec<ChatToolCall> = Vec::new();
                calls.push(call);
                let assistant_message = ChatMessage {
                    role: str_to_string("assistant"),
                    content: String::new(),
                    name: None,
                    tool_call_id: None,
                    tool_calls: Some(calls),
                };
                let entry = ToolPayloadHistoryEntry {
                    server_id: copy_opt(&meta.server_id),
                    tool_call_id: Some(id.clone()),
                    assistant_message,
                    tool_message: tool_message(payload.clone(), Some(id.clone())),
                    assistant_message_index: idx,
                };
                let ghost e = entry;
                self.tool_payload_history.push(entry);
                if policy == PayloadRetention::Window && window > 0 {
                    self.trim_tool_payload_history(server_ref, window);
                }
                proof {
                    reveal_strlit("");
                    assert(is_payload_entry(
                        e,
                        meta.server_id,
                        meta.tool_call_id->0,
                        tool_name@,
                        meta.raw_arguments,
                        payload@,
                        idx,
                    ));
                }
            }
        }
        assert(self.tool_results@.drop_last() =~= old(self).tool_results@);
        assert(is_tool_message(self.tool_results@.last(), payload@, meta.tool_call_id));
        assert(self.tool_result_history@.drop_last() =~= old(self).tool_result_history@);
        assert(is_result_record(
            self.tool_result_history@.last(),
            tool_name@,
            meta,
            status,
            payload@,
            result_summary(tool_name@, meta, status, abbreviated@),
            old(self).active_assistant_message_index,
        ));
        transcript
    }
}

// ---------------------------------------------------------------------------
// Reading the arguments
// ---------------------------------------------------------------------------

/// The members of the JSON object given as tool arguments: nothing for
/// blank text, otherwise `parsed`, what `serde_json` read from the trimmed
/// text, which must be an object.
pub open spec fn arguments_map(raw: Seq<char>, parsed: Result<JsonValue, Seq<char>>) -> Result<
    Option<Vec<(String, JsonValue)>>,
    Seq<char>,
> {
    if trim_seq(raw).len() == 0 {
        Ok(None)
    } else {
        match parsed {
            Ok(JsonValue::Object(m)) => Ok(Some(m)),
            Ok(_) => Err("Tool arguments must be a JSON object."@),
            Err(e) => Err(e),
        }
    }
}

/// `raw` read as tool arguments: nothing when blank, else the value that
/// `serde_json` gave for the trimmed text (`parsed`), or its error.
pub fn tool_arguments_value(raw: &str, parsed: Result<JsonValue, String>) -> (r: Result<
    Option<JsonValue>,
    String,
>)
    ensures
        trim_seq(raw@).len() == 0 ==> r == Ok::<Option<JsonValue>, String>(None),
        trim_seq(raw@).len() > 0 ==> match parsed {
            Ok(v) => r == Ok::<Option<JsonValue>, String>(Some(v)),
            Err(e) => r == Err::<Option<JsonValue>, String>(e),
        },
{
    let t = trim(raw);
    if str_is_empty(t.as_str()) {
        return Ok(None);
    }
    match parsed {
        Ok(v) => Ok(Some(v)),
        Err(e) => Err(e),
    }
}

/// `raw` read as tool arguments with `serde_json`: nothing when blank, else
/// the value read from the trimmed text, or the reader's error message.
pub fn parse_tool_arguments_value(raw: &str) -> (r: Result<Option<JsonValue>, String>)
    ensures
        trim_seq(raw@).len() == 0 ==> r == Ok::<Option<JsonValue>, String>(None),
        trim_seq(raw@).len() > 0 ==> match json_read(trim_seq(raw@)) {
            Ok(v) => r == Ok::<Option<JsonValue>, String>(Some(v)),
            Err(e) => r matches Err(x) && x@ == e,
        },
{
    let t = trim(raw);
    if str_is_empty(t.as_str()) {
        return Ok(None);
    }
    match read_json(t.as_str()) {
        Ok(v) => Ok(Some(v)),
        Err(e) => Err(e),
    }
}

/// The members of an object value; other values are refused.
pub fn value_to_argument_map(value: Option<JsonValue>) -> (r: Result<
    Option<Vec<(String, JsonValue)>>,
    String,
>)
    ensures
        match value {
            None => r == Ok::<Option<Vec<(String, JsonValue)>>, String>(None),
            Some(JsonValue::Object(m)) => r == Ok::<Option<Vec<(String, JsonValue)>>, String>(
                Some(m),
            ),
            Some(_) => r matches Err(e) && e@ == "Tool arguments must be a JSON object."@,
        },
{
    match value {
        None => Ok(None),
        Some(JsonValue::Object(m)) => Ok(Some(m)),
        Some(_) => Err(str_to_string("Tool arguments must be a JSON object.")),
    }
}

/// `raw` read as a JSON object of tool arguments (see `arguments_map`).
pub fn parse_tool_arguments(raw: &str, parsed: Result<JsonValue, String>) -> (r: Result<
    Option<Vec<(String, JsonValue)>>,
    String,
>)
    ensures
        match r {
            Ok(m) => arguments_map(raw@, read_view(parsed)) == Ok::<
                Option<Vec<(String, JsonValue)>>,
                Seq<char>,
            >(m),
            Err(e) => arguments_map(raw@, read_view(parsed)) == Err::<
                Option<Vec<(String, JsonValue)>>,
                Seq<char>,
            >(e@),
        },
{
    let ghost p0 = parsed;
    match tool_arguments_value(raw, parsed) {
        Ok(v) => value_to_argument_map(v),
        Err(e) => Err(e),
    }
}

/// What reading resource-read arguments gives: the server id, the uri and
/// the members.
pub open spec fn resource_read_args(raw: Seq<char>, parsed: Result<JsonValue, Seq<char>>) -> Result<
    (Seq<char>, Seq<char>, Vec<(String, JsonValue)>),
    Seq<char>,
> {
    match arguments_map(raw, parsed) {
        Err(e) => Err(e),
        Ok(None) => Err("Resource read arguments are required."@),
        Ok(Some(m)) => match str_field_of(m@, "server_id"@) {
            None => Err("Resource read requires server_id."@),
            Some(sid) => match str_field_of(m@, "uri"@) {
                None => Err("Resource read requires uri."@),
                Some(uri) => Ok((sid, uri, m)),
            },
        },
    }
}

/// Reads the arguments of a resource read (see `resource_read_args`).
pub fn parse_resource_read_arguments(raw: &str, parsed: Result<JsonValue, String>) -> (r: Result<
    (String, String, Vec<(String, JsonValue)>),
    String,
>)
    ensures
        match r {
            Ok((sid, uri, m)) => resource_read_args(raw@, read_view(parsed)) == Ok::<
                (Seq<char>, Seq<char>, Vec<(String, JsonValue)>),
                Seq<char>,
            >((sid@, uri@, m)),
            Err(e) => resource_read_args(raw@, read_view(parsed)) == Err::<
                (Seq<char>, Seq<char>, Vec<(String, JsonValue)>),
                Seq<char>,
            >(e@),
        },
{
    let arguments = match parse_tool_arguments(raw, parsed) {
        Err(e) => {
            return Err(e);
        },
        Ok(None) => {
            return Err(str_to_string("Resource read arguments are required."));
        },
        Ok(Some(m)) => m,
    };
    let server_id = match get_str_field(&arguments, "server_id") {
        Some(s) => s,
        None => {
            return Err(str_to_string("Resource read requires server_id."));
        },
    };
    let uri = match get_str_field(&arguments, "uri") {
        Some(u) => u,
        None => {
            return Err(str_to_string("Resource read requires uri."));
        },
    };
    Ok((server_id, uri, arguments))
}

/// What a resource listing asks for.
#[derive(Clone, Copy, Debug, PartialEq, Eq, Structural)]
pub enum ResourceListKind {
    Resources,
    Templates,
}

/// The name a listing kind is written with.
pub open spec fn list_kind_name(k: ResourceListKind) -> Seq<char> {
    match k {
        ResourceListKind::Resources => "resources"@,
        ResourceListKind::Templates => "templates"@,
    }
}

/// The listing kind and cursor of resource-list arguments: a cursor must
/// not be blank; the kind, compared in ASCII lowercase, is "resources"
/// (also "resource" or none) or "templates" (also "template" or
/// "resource_templates").
pub open spec fn resource_list_kind(m: Seq<(String, JsonValue)>) -> Result<
    (ResourceListKind, Option<Seq<char>>),
    Seq<char>,
> {
    let cursor = str_field_of(m, "cursor"@);
    if cursor matches Some(c) && trim_seq(c).len() == 0 {
        Err("Resource list cursor cannot be empty."@)
    } else {
        match str_field_of(m, "kind"@) {
            None => Ok((ResourceListKind::Resources, cursor)),
            Some(k) => {
                let l = ascii_lower_seq(k);
                if l == "resources"@ || l == "resource"@ {
                    Ok((ResourceListKind::Resources, cursor))
                } else if l == "templates"@ || l == "template"@ || l == "resource_templates"@ {
                    Ok((ResourceListKind::Templates, cursor))
                } else {
                    Err(
                        "Resource list kind must be \"resources\" or \"templates\" (got "@ + l
                            + ")."@,
                    )
                }
            },
        }
    }
}

/// Reads the listing kind and cursor (see `resource_list_kind`).
pub fn parse_resource_list_kind(arguments: &Vec<(String, JsonValue)>) -> (r: Result<
    (ResourceListKind, Option<String>),
    String,
>)
    ensures
        match r {
            Ok((k, c)) => resource_list_kind(arguments@) == Ok::<
                (ResourceListKind, Option<Seq<char>>),
                Seq<char>,
            >(
                (
                    k,
                    match c {
                        Some(x) => Some(x@),
                        None => None,
                    },
                ),
            ),
            Err(e) => resource_list_kind(arguments@) == Err::<
                (ResourceListKind, Option<Seq<char>>),
                Seq<char>,
            >(e@),
        },
{
    let cursor = get_str_field(arguments, "cursor");
    if let Some(c) = &cursor {
        if is_blank(c.as_str()) {
            proof {
                crate::text::lemma_trim_empty_iff_all_ws(c@);
            }
            return Err(str_to_string("Resource list cursor cannot be empty."));
        }
    }
    let ghost gc = cursor;
    proof {
        match gc {
            Some(c) => crate::text::lemma_trim_empty_iff_all_ws(c@),
            None => {},
        }
    }
    let kind = match get_str_field(arguments, "kind") {
        None => ResourceListKind::Resources,
        Some(k) => {
            let l = to_ascii_lowercase(k.as_str());
            if str_eq(l.as_str(), "resources") || str_eq(l.as_str(), "resource") {
                ResourceListKind::Resources
            } else if str_eq(l.as_str(), "templates") || str_eq(l.as_str(), "template") || str_eq(
                l.as_str(),
                "resource_templates",
            ) {
                ResourceListKind::Templates
            } else {
                let mut e = concat3(
                    "Resource list kind must be \"resources\" or \"templates\" (got ",
                    l.as_str(),
                    ").",
                );
                return Err(e);
            }
        },
    };
    Ok((kind, cursor))
}

/// What reading resource-list arguments gives: the server id, the kind,
/// the cursor, and the members as given.
pub open spec fn resource_list_args(raw: Seq<char>, parsed: Result<JsonValue, Seq<char>>) -> Result<
    (Seq<char>, ResourceListKind, Option<Seq<char>>, Vec<(String, JsonValue)>),
    Seq<char>,
> {
    match arguments_map(raw, parsed) {
        Err(e) => Err(e),
        Ok(None) => Err("Resource list arguments are required."@),
        Ok(Some(m)) => match str_field_of(m@, "server_id"@) {
            None => Err("Resource list requires server_id."@),
            Some(sid) => match resource_list_kind(m@) {
                Err(e) => Err(e),
                Ok((k, c)) => Ok((sid, k, c, m)),
            },
        },
    }
}

/// `out` is `m` with member `kind` set to the name of listing kind `k`.
pub open spec fn kind_member_set(
    m: Seq<(String, JsonValue)>,
    k: ResourceListKind,
    out: Seq<(String, JsonValue)>,
) -> bool {
    exists|key: String, name: String|
        #![trigger with_field(m, key, JsonValue::Str(name))]
        key@ == "kind"@ && name@ == list_kind_name(k) && out == with_field(
            m,
            key,
            JsonValue::Str(name),
        )
}

/// Reads the arguments of a resource listing (see `resource_list_args`);
/// the members come back with `kind` set to the kind's name.
pub fn parse_resource_list_arguments(raw: &str, parsed: Result<JsonValue, String>) -> (r: Result<
    (String, ResourceListKind, Option<String>, Vec<(String, JsonValue)>),
    String,
>)
    ensures
        match (r, resource_list_args(raw@, read_view(parsed))) {
            (Ok((sid, k, c, out)), Ok((ssid, sk, sc, m))) => sid@ == ssid && k == sk && match c {
                Some(x) => sc == Some(x@),
                None => sc is None,
            } && kind_member_set(m@, k, out@),
            (Err(e), Err(se)) => e@ == se,
            _ => false,
        },
{
    let mut arguments = match parse_tool_arguments(raw, parsed) {
        Err(e) => {
            return Err(e);
        },
        Ok(None) => {
            return Err(str_to_string("Resource list arguments are required."));
        },
        Ok(Some(m)) => m,
    };
    let ghost m0 = arguments;
    let server_id = match get_str_field(&arguments, "server_id") {
        Some(s) => s,
        None => {
            return Err(str_to_string("Resource list requires server_id."));
        },
    };
    let (kind, cursor) = match parse_resource_list_kind(&arguments) {
        Ok(x) => x,
        Err(e) => {
            return Err(e);
        },
    };
    let name = match kind {
        ResourceListKind::Resources => str_to_string("resources"),
        ResourceListKind::Templates => str_to_string("templates"),
    };
    let key = str_to_string("kind");
    let ghost gk = key;
    let ghost gn = name;
    set_field(&mut arguments, key, JsonValue::Str(name));
    assert(kind_member_set(m0@, kind, arguments@)) by {
        assert(arguments@ == with_field(m0@, gk, JsonValue::Str(gn)));
    }
    Ok((server_id, kind, cursor, arguments))
}

/// What reading instant-recall arguments gives: the members, which must
/// name a non-blank `tool_call_id`.
pub open spec fn instant_recall_args(raw: Seq<char>, parsed: Result<JsonValue, Seq<char>>) -> Result<
    Vec<(String, JsonValue)>,
    Seq<char>,
> {
    match arguments_map(raw, parsed) {
        Err(e) => Err(e),
        Ok(None) => Err("Instant recall arguments are required."@),
        Ok(Some(m)) => match str_field_of(m@, "tool_call_id"@) {
            None => Err("Instant recall requires tool_call_id."@),
            Some(id) => if trim_seq(id).len() == 0 {
                Err("Instant recall requires tool_call_id."@)
            } else {
                Ok(m)
            },
        },
    }
}

/// Reads the arguments of an instant recall (see `instant_recall_args`).
pub fn parse_instant_recall_arguments(raw: &str, parsed: Result<JsonValue, String>) -> (r: Result<
    Vec<(String, JsonValue)>,
    String,
>)
    ensures
        match r {
            Ok(m) => instant_recall_args(raw@, read_view(parsed)) == Ok::<Vec<(String, JsonValue)>, Seq<char>>(
                m,
            ),
            Err(e) => instant_recall_args(raw@, read_view(parsed)) == Err::<
                Vec<(String, JsonValue)>,
                Seq<char>,
            >(e@),
        },
{
    let arguments = match parse_tool_arguments(raw, parsed) {
        Err(e) => {
            return Err(e);
        },
        Ok(None) => {
            return Err(str_to_string("Instant recall arguments are required."));
        },
        Ok(Some(m)) => m,
    };
    let id = match get_str_field(&arguments, "tool_call_id") {
        Some(i) => i,
        None => {
            return Err(str_to_string("Instant recall requires tool_call_id."));
        },
    };
    let t = trim(id.as_str());
    if str_is_empty(t.as_str()) {
        return Err(str_to_string("Instant recall requires tool_call_id."));
    }
    Ok(arguments)
}

// ---------------------------------------------------------------------------
// Planning the calls of a turn
// ---------------------------------------------------------------------------

/// A tool call that could not be queued, with why.
pub struct PendingToolError {
    pub tool_name: String,
    pub server_id: Option<String>,
    pub tool_call_id: Option<String>,
    pub raw_arguments: Option<String>,
    pub error: String,
    pub failure_kind: Option<ToolFailureKind>,
}

/// A call to a server tool whose arguments still have to be checked
/// against the tool's schema.
pub struct ValidationRequest {
    pub server_id: String,
    pub tool_name: String,
    pub tool_call_id: String,
    pub raw_arguments: String,
    pub value: Option<JsonValue>,
}

/// What becomes of one tool call of a turn.
pub enum CallPlan {
    Failed(PendingToolError),
    Ready(crate::session::ToolCallRequest),
    Validate(ValidationRequest),
}

pub open spec fn opt_view(s: Option<String>) -> Option<Seq<char>> {
    match s {
        Some(v) => Some(v@),
        None => None,
    }
}

/// The tool name of a call: "unknown" when it has none.
pub open spec fn call_tool_name(call: crate::session::PendingToolCall) -> Seq<char> {
    match call.name {
        Some(n) => n@,
        None => "unknown"@,
    }
}

/// The id of call `index`: its own, else "tool-call-<index>".
pub open spec fn call_id_text(index: u32, call: crate::session::PendingToolCall) -> Seq<char> {
    match call.id {
        Some(i) => i@,
        None => "tool-call-"@ + crate::text::decimal(index as nat),
    }
}

/// `r` is the record of call `index` kept for the assistant turn.
pub open spec fn is_call_record(r: ChatToolCall, index: u32, call: crate::session::PendingToolCall) -> bool {
    &&& r.id@ == call_id_text(index, call)
    &&& r.kind@ == "function"@
    &&& r.function.name@ == call_tool_name(call)
    &&& r.function.arguments@ == trim_seq(call.arguments@)
}

/// `p` refuses call (`name`, `id`, `raw`) with `error`.
pub open spec fn failed_with(
    p: CallPlan,
    name: Seq<char>,
    id: Seq<char>,
    raw: Seq<char>,
    server: Option<Seq<char>>,
    error: Seq<char>,
    kind: ToolFailureKind,
) -> bool {
    p matches CallPlan::Failed(e) && e.tool_name@ == name && opt_view(e.server_id) == server
        && opt_view(e.tool_call_id) == Some(id) && opt_view(e.raw_arguments) == Some(raw)
        && e.error@ == error && e.failure_kind == Some(kind)
}

/// `p` queues call (`name`, `id`, `raw`) for server `server` with `args`.
pub open spec fn ready_with(
    p: CallPlan,
    name: Seq<char>,
    id: Seq<char>,
    raw: Seq<char>,
    server: Seq<char>,
    args: Option<Vec<(String, JsonValue)>>,
) -> bool {
    p matches CallPlan::Ready(r) && r.server_id@ == server && r.tool_name@ == name && r.arguments
        == args && r.raw_arguments@ == raw && opt_view(r.tool_call_id) == Some(id)
}

/// The plan for a resource call on server `sid` once its arguments are read:
/// the server must be known, enabled and, for a listing, take resources.
pub open spec fn resource_server_plan(
    p: CallPlan,
    servers: Seq<McpServerInfo>,
    listing: bool,
    name: Seq<char>,
    id: Seq<char>,
    raw: Seq<char>,
    sid: Seq<char>,
) -> bool {
    match crate::mcp_servers::server_by_id(servers, sid) {
        None => failed_with(
            p,
            name,
            id,
            raw,
            Some(sid),
            "Unknown MCP server id: "@ + sid + "."@,
            ToolFailureKind::ToolCallFailure,
        ),
        Some(s) => if !s.enabled {
            failed_with(
                p,
                name,
                id,
                raw,
                Some(sid),
                "MCP server is disabled: "@ + sid + "."@,
                ToolFailureKind::ToolCallFailure,
            )
        } else if listing && !crate::mcp_servers::supports_resources(s) {
            failed_with(
                p,
                name,
                id,
                raw,
                Some(sid),
                "MCP server does not support resources: "@ + sid + "."@,
                ToolFailureKind::ToolCallFailure,
            )
        } else {
            p matches CallPlan::Ready(_)
        },
    }
}

/// `p` is the plan for call `index`: a call without a name fails; the
/// resource tools and instant recall read their arguments and check their
/// server; any other tool is routed to the one server offering it and its
/// arguments are read, to be checked against the tool's schema next.
/// `parsed` is what `serde_json` made of the trimmed arguments.
pub open spec fn call_plan_spec(
    index: u32,
    call: crate::session::PendingToolCall,
    servers: Seq<McpServerInfo>,
    parsed: Result<JsonValue, Seq<char>>,
    p: CallPlan,
) -> bool {
    let name = call_tool_name(call);
    let id = call_id_text(index, call);
    let raw = trim_seq(call.arguments@);
    if call.name is None {
        failed_with(p, name, id, raw, None, "Missing tool name."@, ToolFailureKind::ToolCallFailure)
    } else if eq_ci(name, crate::mcp_servers::MCP_LIST_RESOURCES_TOOL@) {
        match resource_list_args(raw, parsed) {
            Err(e) => failed_with(p, name, id, raw, None, e, ToolFailureKind::ToolCallFailure),
            Ok((sid, k, c, m)) => resource_server_plan(p, servers, true, name, id, raw, sid) && (
            p is Ready ==> (p matches CallPlan::Ready(r) && r.server_id@ == sid && r.tool_name@
                == name && r.raw_arguments@ == raw && opt_view(r.tool_call_id) == Some(id)
                && (r.arguments matches Some(out) && kind_member_set(m@, k, out@)))),
        }
    } else if eq_ci(name, crate::mcp_servers::MCP_READ_RESOURCE_TOOL@) {
        match resource_read_args(raw, parsed) {
            Err(e) => failed_with(p, name, id, raw, None, e, ToolFailureKind::ToolCallFailure),
            Ok((sid, uri, m)) => resource_server_plan(p, servers, false, name, id, raw, sid) && (
            p is Ready ==> ready_with(p, name, id, raw, sid, Some(m))),
        }
    } else if eq_ci(name, crate::mcp_servers::MCP_INSTANT_RECALL_TOOL@) {
        match instant_recall_args(raw, parsed) {
            Err(e) => failed_with(
                p,
                name,
                id,
                raw,
                Some(crate::mcp_servers::MCP_SESSION_MEMORY_SERVER_ID@),
                e,
                ToolFailureKind::ToolCallFailure,
            ),
            Ok(m) => ready_with(
                p,
                name,
                id,
                raw,
                crate::mcp_servers::MCP_SESSION_MEMORY_SERVER_ID@,
                Some(m),
            ),
        }
    } else {
        match crate::mcp_servers::tool_server_choice(servers, name) {
            Err(e) => failed_with(p, name, id, raw, None, e, ToolFailureKind::ToolCallFailure),
            Ok((sid, _)) => if trim_seq(raw).len() == 0 {
                p matches CallPlan::Validate(v) && v.server_id@ == sid && v.tool_name@ == name
                    && v.tool_call_id@ == id && v.raw_arguments@ == raw && v.value is None
            } else {
                match parsed {
                    Err(e) => failed_with(
                        p,
                        name,
                        id,
                        raw,
                        Some(sid),
                        "Invalid tool arguments: "@ + e,
                        ToolFailureKind::ToolCallFailure,
                    ),
                    Ok(val) => p matches CallPlan::Validate(v) && v.server_id@ == sid
                        && v.tool_name@ == name && v.tool_call_id@ == id && v.raw_arguments@ == raw
                        && v.value == Some(val),
                }
            },
        }
    }
}

fn fail(
    name: &String,
    id: &String,
    raw: &String,
    server: Option<String>,
    error: String,
    kind: ToolFailureKind,
) -> (r: CallPlan)
    ensures
        failed_with(r, name@, id@, raw@, opt_view(server), error@, kind),
{
    CallPlan::Failed(
        PendingToolError {
            tool_name: name.clone(),
            server_id: server,
            tool_call_id: Some(id.clone()),
            raw_arguments: Some(raw.clone()),
            error,
            failure_kind: Some(kind),
        },
    )
}

fn check_resource_server(
    servers: &Vec<McpServerInfo>,
    listing: bool,
    name: &String,
    id: &String,
    raw: &String,
    sid: &String,
) -> (r: Option<CallPlan>)
    ensures
        match r {
            Some(p) => resource_server_plan(p, servers@, listing, name@, id@, raw@, sid@) && p is Failed,
            None => crate::mcp_servers::server_by_id(servers@, sid@) matches Some(s) && s.enabled
                && (listing ==> crate::mcp_servers::supports_resources(s)),
        },
{
    match crate::mcp_servers::find_server(servers, sid.as_str()) {
        None => {
            let e = concat3("Unknown MCP server id: ", sid.as_str(), ".");
            Some(fail(name, id, raw, Some(sid.clone()), e, ToolFailureKind::ToolCallFailure))
        },
        Some(k) => {
            let s = &servers[k];
            if !s.enabled {
                let e = concat3("MCP server is disabled: ", sid.as_str(), ".");
                Some(fail(name, id, raw, Some(sid.clone()), e, ToolFailureKind::ToolCallFailure))
            } else if listing && !crate::mcp_servers::server_supports_resources(s) {
                let e = concat3("MCP server does not support resources: ", sid.as_str(), ".");
                Some(fail(name, id, raw, Some(sid.clone()), e, ToolFailureKind::ToolCallFailure))
            } else {
                None
            }
        },
    }
}

/// The record and the plan for call `index` of a turn (see
/// `call_plan_spec`); `parsed` is what `serde_json` made of its trimmed
/// arguments.
pub fn plan_tool_call(
    index: u32,
    call: &crate::session::PendingToolCall,
    servers: &Vec<McpServerInfo>,
    parsed: Result<JsonValue, String>,
) -> (r: (ChatToolCall, CallPlan))
    ensures
        is_call_record(r.0, index, *call),
        call_plan_spec(index, *call, servers@, read_view(parsed), r.1),
{
    let name = match &call.name {
        Some(n) => n.clone(),
        None => str_to_string("unknown"),
    };
    let id = match &call.id {
        Some(i) => i.clone(),
        None => {
            let mut s = str_to_string("tool-call-");
            crate::text::push_decimal_u64(&mut s, index as u64);
            s
        },
    };
    let raw = trim(call.arguments.as_str());
    let record = ChatToolCall {
        id: id.clone(),
        kind: str_to_string("function"),
        function: ChatToolCallFunction { name: name.clone(), arguments: raw.clone() },
    };
    if call.name.is_none() {
        let e = str_to_string("Missing tool name.");
        return (record, fail(&name, &id, &raw, None, e, ToolFailureKind::ToolCallFailure));
    }
    if eq_ignore_ascii_case(name.as_str(), crate::mcp_servers::MCP_LIST_RESOURCES_TOOL) {
        let plan = match parse_resource_list_arguments(raw.as_str(), parsed) {
            Err(e) => fail(&name, &id, &raw, None, e, ToolFailureKind::ToolCallFailure),
            Ok((sid, _kind, _cursor, arguments)) => {
                match check_resource_server(servers, true, &name, &id, &raw, &sid) {
                    Some(p) => p,
                    None => CallPlan::Ready(
                        crate::session::ToolCallRequest {
                            server_id: sid,
                            tool_name: name.clone(),
                            arguments: Some(arguments),
                            raw_arguments: raw.clone(),
                            tool_call_id: Some(id.clone()),
                        },
                    ),
                }
            },
        };
        return (record, plan);
    }
    if eq_ignore_ascii_case(name.as_str(), crate::mcp_servers::MCP_READ_RESOURCE_TOOL) {
        let plan = match parse_resource_read_arguments(raw.as_str(), parsed) {
            Err(e) => fail(&name, &id, &raw, None, e, ToolFailureKind::ToolCallFailure),
            Ok((sid, _uri, arguments)) => {
                match check_resource_server(servers, false, &name, &id, &raw, &sid) {
                    Some(p) => p,
                    None => CallPlan::Ready(
                        crate::session::ToolCallRequest {
                            server_id: sid,
                            tool_name: name.clone(),
                            arguments: Some(arguments),
                            raw_arguments: raw.clone(),
                            tool_call_id: Some(id.clone()),
                        },
                    ),
                }
            },
        };
        return (record, plan);
    }
    if crate::mcp_servers::is_instant_recall_tool(name.as_str()) {
        let plan = match parse_instant_recall_arguments(raw.as_str(), parsed) {
            Err(e) => fail(
                &name,
                &id,
                &raw,
                Some(str_to_string(crate::mcp_servers::MCP_SESSION_MEMORY_SERVER_ID)),
                e,
                ToolFailureKind::ToolCallFailure,
            ),
            Ok(arguments) => CallPlan::Ready(
                crate::session::ToolCallRequest {
                    server_id: str_to_string(crate::mcp_servers::MCP_SESSION_MEMORY_SERVER_ID),
                    tool_name: name.clone(),
                    arguments: Some(arguments),
                    raw_arguments: raw.clone(),
                    tool_call_id: Some(id.clone()),
                },
            ),
        };
        return (record, plan);
    }
    let sid = match crate::mcp_servers::resolve_tool_server(servers, name.as_str()) {
        Err(e) => {
            return (record, fail(&name, &id, &raw, None, e, ToolFailureKind::ToolCallFailure));
        },
        Ok((sid, _label)) => sid,
    };
    let plan = match tool_arguments_value(raw.as_str(), parsed) {
        Err(e) => {
            let msg = concat2("Invalid tool arguments: ", e.as_str());
            fail(&name, &id, &raw, Some(sid), msg, ToolFailureKind::ToolCallFailure)
        },
        Ok(value) => CallPlan::Validate(
            ValidationRequest {
                server_id: sid,
                tool_name: name.clone(),
                tool_call_id: id.clone(),
                raw_arguments: raw.clone(),
                value,
            },
        ),
    };
    (record, plan)
}

// ---------------------------------------------------------------------------
// Schema violations
// ---------------------------------------------------------------------------

/// What the JSON schema validator found wrong, in plain values.
pub enum SchemaErrorKind {
    /// A required property is missing; its name when the schema gave a string.
    Required { property: Option<String> },
    AdditionalProperties { unexpected: Vec<String> },
    UnevaluatedProperties { unexpected: Vec<String> },
    /// The value has the wrong type; the names of the expected types.
    Type { kinds: Vec<String> },
    AdditionalItems,
    UnevaluatedItems,
    AnyOf,
    /// The value differs from a constant; the constant as it is quoted.
    Constant { expected: String },
    Contains,
    Enum,
    ExclusiveMaximum { limit: String },
    ExclusiveMinimum { limit: String },
    FalseSchema,
    Format { format: String },
    MaxItems { limit: String },
    Maximum { limit: String },
    MaxLength { limit: String },
    MaxProperties { limit: String },
    MinItems { limit: String },
    Minimum { limit: String },
    MinLength { limit: String },
    MinProperties { limit: String },
    MultipleOf { multiple_of: String },
    Not,
    OneOfMultipleValid,
    OneOfNotValid,
    Pattern { pattern: String },
    PropertyNames,
    UniqueItems,
    Custom,
    /// A problem of the schema itself (encoding, media type, references,
    /// regular-expression limits).
    SchemaProblem,
}

/// One error of the validator: where, on what value, its message and kind.
pub struct SchemaError {
    pub instance_path: String,
    pub instance: JsonValue,
    pub message: String,
    pub kind: SchemaErrorKind,
}

/// One violation as the tool error payload reports it.
pub struct ToolValidationViolation {
    pub path: String,
    pub expected: String,
    pub actual: String,
    pub issue: String,
    pub hint: String,
}

/// The five texts of a violation.
pub type ViolationText = (Seq<char>, Seq<char>, Seq<char>, Seq<char>, Seq<char>);

pub open spec fn violation_view(v: ToolValidationViolation) -> ViolationText {
    (v.path@, v.expected@, v.actual@, v.issue@, v.hint@)
}

/// A JSON pointer for display: "/" for the root.
pub open spec fn instance_path_text(path: Seq<char>) -> Seq<char> {
    if path.len() == 0 {
        "/"@
    } else {
        path
    }
}

/// The instance path of a schema error for display (see
/// `instance_path_text`).
pub fn format_instance_path(path: &str) -> (r: String)
    ensures
        r@ == instance_path_text(path@),
{
    if str_is_empty(path) {
        str_to_string("/")
    } else {
        str_to_string(path)
    }
}

/// A number's text without its minus sign.
pub open spec fn unsigned_part(n: Seq<char>) -> Seq<char> {
    if n.len() > 0 && n[0] == '-' {
        n.drop_first()
    } else {
        n
    }
}

pub open spec fn is_digit(c: char) -> bool {
    '0' <= c && c <= '9'
}

/// Whether a number's text is an integer: optional minus, then digits.
pub open spec fn integer_text(n: Seq<char>) -> bool {
    unsigned_part(n).len() > 0 && forall|i: int|
        0 <= i < unsigned_part(n).len() ==> is_digit(#[trigger] unsigned_part(n)[i])
}

fn is_integer_text(n: &str) -> (r: bool)
    ensures
        r == integer_text(n@),
{
    let v = crate::text::chars_of(n);
    let start: usize = if v.len() > 0 && v[0] == '-' {
        1
    } else {
        0
    };
    if start >= v.len() {
        return false;
    }
    let mut i: usize = start;
    while i < v.len()
        invariant
            start <= i <= v@.len(),
            v@ == n@,
            unsigned_part(n@).len() == v@.len() - start,
            forall|k: int| 0 <= k < unsigned_part(n@).len() ==> #[trigger] unsigned_part(n@)[k]
                == v@[k + start],
            forall|k: int| 0 <= k < i - start ==> is_digit(#[trigger] unsigned_part(n@)[k]),
        decreases v.len() - i,
    {
        if !('0' <= v[i] && v[i] <= '9') {
            assert(!is_digit(unsigned_part(n@)[i - start]));
            return false;
        }
        assert(is_digit(unsigned_part(n@)[i - start]));
        i = i + 1;
    }
    true
}

/// The JSON type of a value as schemas name it; an integer number is
/// "integer".
pub open spec fn json_type_name(v: JsonValue) -> Seq<char> {
    match v {
        JsonValue::Null => "null"@,
        JsonValue::Bool(_) => "boolean"@,
        JsonValue::Number(n) => if integer_text(n@) {
            "integer"@
        } else {
            "number"@
        },
        JsonValue::Str(_) => "string"@,
        JsonValue::Array(_) => "array"@,
        JsonValue::Object(_) => "object"@,
    }
}

fn json_kind_name(v: &JsonValue) -> (r: &'static str)
    ensures
        r@ == json_type_name(*v),
{
    match v {
        JsonValue::Null => "null",
        JsonValue::Bool(_) => "boolean",
        JsonValue::Number(n) => if is_integer_text(n.as_str()) {
            "integer"
        } else {
            "number"
        },
        JsonValue::Str(_) => "string",
        JsonValue::Array(_) => "array",
        JsonValue::Object(_) => "object",
    }
}

/// Whether `serde_json` reads `text` as a JSON object.
pub uninterp spec fn json_object_text(text: Seq<char>) -> bool;

/// `serde_json::from_str::<Value>(text)` gives an object. What texts those
/// are is left to the name.
#[verifier::external_body]
fn parses_as_json_object(text: &str) -> (r: bool)
    ensures
        r == json_object_text(text@),
{
    matches!(serde_json::from_str::<serde_json::Value>(text), Ok(serde_json::Value::Object(_)))
}

/// A string value whose text is itself a JSON object.
pub open spec fn serialized_object(v: JsonValue) -> bool {
    v matches JsonValue::Str(t) && json_object_text(t@)
}

fn is_serialized_json_object(v: &JsonValue) -> (r: bool)
    ensures
        r == serialized_object(*v),
{
    match v {
        JsonValue::Str(t) => parses_as_json_object(t.as_str()),
        _ => false,
    }
}

/// The pieces of `s` between the occurrences of `c`.
pub open spec fn split_on(s: Seq<char>, c: char) -> Seq<Seq<char>>
    decreases s.len(),
{
    if s.len() == 0 {
        seq![seq![]]
    } else {
        let p = split_on(s.drop_last(), c);
        if s.last() == c {
            p.push(seq![])
        } else {
            p.update(p.len() - 1, p.last().push(s.last()))
        }
    }
}

pub proof fn lemma_split_on_nonempty(s: Seq<char>, c: char)
    ensures
        split_on(s, c).len() >= 1,
    decreases s.len(),
{
    if s.len() > 0 {
        lemma_split_on_nonempty(s.drop_last(), c);
    }
}

pub(crate) fn split_chars(s: &str, c: char) -> (r: Vec<String>)
    ensures
        strings_view(r@) == split_on(s@, c),
{
    let v = crate::text::chars_of(s);
    let mut done: Vec<String> = Vec::new();
    let mut cur: Vec<char> = Vec::new();
    let mut i: usize = 0;
    assert(v@.take(0) =~= Seq::<char>::empty());
    while i < v.len()
        invariant
            i <= v@.len(),
            v@ == s@,
            split_on(v@.take(i as int), c).len() >= 1,
            strings_view(done@) == split_on(v@.take(i as int), c).drop_last(),
            cur@ == split_on(v@.take(i as int), c).last(),
        decreases v.len() - i,
    {
        let ghost p = split_on(v@.take(i as int), c);
        let ghost q = v@.take(i + 1);
        assert(q.drop_last() =~= v@.take(i as int));
        assert(q.last() == v@[i as int]);
        if v[i] == c {
            let piece = crate::text::string_from_chars(&cur);
            let ghost old_done = strings_view(done@);
            done.push(piece);
            cur = Vec::new();
            assert(strings_view(done@) =~= old_done.push(p.last()));
            assert(split_on(q, c) == p.push(seq![]));
            assert(p.push(seq![]).drop_last() =~= p);
            assert(p =~= p.drop_last().push(p.last()));
        } else {
            cur.push(v[i]);
            let ghost u = p.update(p.len() - 1, p.last().push(v@[i as int]));
            assert(split_on(q, c) == u);
            assert(u.drop_last() =~= p.drop_last());
        }
        i = i + 1;
    }
    assert(v@.take(v@.len() as int) =~= v@);
    let last = crate::text::string_from_chars(&cur);
    let ghost old_done = strings_view(done@);
    done.push(last);
    let ghost p = split_on(s@, c);
    assert(strings_view(done@) =~= old_done.push(p.last()));
    assert(p =~= p.drop_last().push(p.last()));
    done
}

/// Whether a type list such as "object | null" names "object".
pub open spec fn names_object(expected: Seq<char>) -> bool {
    exists|k: int|
        0 <= k < split_on(expected, '|').len() && trim_seq(#[trigger] split_on(expected, '|')[k])
            == "object"@
}

fn has_object_kind(expected: &str) -> (r: bool)
    ensures
        r == names_object(expected@),
{
    let parts = split_chars(expected, '|');
    let mut i: usize = 0;
    while i < parts.len()
        invariant
            i <= parts@.len(),
            strings_view(parts@) == split_on(expected@, '|'),
            forall|k: int|
                0 <= k < i ==> trim_seq(#[trigger] split_on(expected@, '|')[k]) != "object"@,
        decreases parts.len() - i,
    {
        let t = trim(parts[i].as_str());
        assert(strings_view(parts@)[i as int] == parts@[i as int]@);
        if str_eq(t.as_str(), "object") {
            return true;
        }
        i = i + 1;
    }
    false
}

/// The last non-empty segment of a JSON pointer: the field it ends at.
pub open spec fn last_field(path: Seq<char>) -> Option<Seq<char>> {
    let parts = split_on(path, '/');
    if exists|k: int| 0 <= k < parts.len() && #[trigger] parts[k].len() > 0 {
        Some(
            parts[choose|k: int|
                0 <= k < parts.len() && #[trigger] parts[k].len() > 0 && forall|m: int|
                    k < m < parts.len() ==> #[trigger] parts[m].len() == 0],
        )
    } else {
        None
    }
}

fn field_name(path: &str) -> (r: Option<String>)
    ensures
        match r {
            Some(f) => last_field(path@) == Some(f@),
            None => last_field(path@) is None,
        },
{
    let parts = split_chars(path, '/');
    let ghost sp = split_on(path@, '/');
    let mut i: usize = parts.len();
    while i > 0
        invariant
            i <= parts@.len(),
            strings_view(parts@) == sp,
            sp == split_on(path@, '/'),
            forall|m: int| i <= m < sp.len() ==> #[trigger] sp[m].len() == 0,
        decreases i,
    {
        assert(strings_view(parts@)[i - 1] == parts@[i - 1]@);
        if !str_is_empty(parts[i - 1].as_str()) {
            proof {
                let k = (i - 1) as int;
                let c = choose|k: int|
                    0 <= k < sp.len() && #[trigger] sp[k].len() > 0 && forall|m: int|
                        k < m < sp.len() ==> #[trigger] sp[m].len() == 0;
                assert(sp[k].len() > 0);
                if c < k {
                    assert(sp[k].len() == 0);
                } else if c > k {
                    assert(sp[c].len() == 0);
                }
            }
            return Some(parts[i - 1].clone());
        }
        i = i - 1;
    }
    proof {
        if exists|k: int| 0 <= k < sp.len() && #[trigger] sp[k].len() > 0 {
            let k = choose|k: int| 0 <= k < sp.len() && #[trigger] sp[k].len() > 0;
            assert(sp[k].len() == 0);
        }
    }
    None
}

/// The issue of a type mismatch.
pub open spec fn type_mismatch_issue_text(value: JsonValue, expected: Seq<char>) -> Seq<char> {
    type_mismatch_issue_given(value, expected, serialized_object(value))
}

/// The issue text of a type mismatch, given whether `value` is a string
/// whose text reads as a JSON object (`quoted_object`).
pub open spec fn type_mismatch_issue_given(value: JsonValue, expected: Seq<char>, quoted_object: bool) -> Seq<char> {
    if names_object(expected) && quoted_object {
        "Expected a JSON object, but received a serialized JSON string."@
    } else {
        "Expected "@ + expected + ", but received "@ + json_type_name(value) + "."@
    }
}

/// The issue text of a type mismatch (see `type_mismatch_issue_given`),
/// given whether `value` is a quoted JSON object.
pub fn type_mismatch_issue_with(value: &JsonValue, expected: &str, quoted_object: bool) -> (r: String)
    ensures
        r@ == type_mismatch_issue_given(*value, expected@, quoted_object),
{
    if has_object_kind(expected) && quoted_object {
        str_to_string("Expected a JSON object, but received a serialized JSON string.")
    } else {
        let mut s = concat3("Expected ", expected, ", but received ");
        push_str(&mut s, json_kind_name(value));
        push_str(&mut s, ".");
        s
    }
}

/// The issue text of a type mismatch: a quoted JSON object where an object
/// was expected is named as such.
pub fn type_mismatch_issue(value: &JsonValue, expected: &str) -> (r: String)
    ensures
        r@ == type_mismatch_issue_text(*value, expected@),
{
    let quoted = has_object_kind(expected) && is_serialized_json_object(value);
    type_mismatch_issue_with(value, expected, quoted)
}

/// The hint for a type mismatch, naming the field when the path ends at one.
pub open spec fn type_mismatch_hint_text(path: Seq<char>, value: JsonValue, expected: Seq<char>) -> Seq<
    char,
> {
    type_mismatch_hint_given(path, expected, serialized_object(value))
}

/// The hint for a type mismatch, given whether the value is a string whose
/// text reads as a JSON object (`quoted_object`).
pub open spec fn type_mismatch_hint_given(path: Seq<char>, expected: Seq<char>, quoted_object: bool) -> Seq<
    char,
> {
    let field = last_field(path);
    if names_object(expected) && quoted_object {
        match field {
            None => "Send tool arguments as a JSON object, not as a quoted JSON string."@,
            Some(f) => "Pass `"@ + f + "` as an object, not as a quoted JSON string."@,
        }
    } else {
        match field {
            None => "Send tool arguments using the expected JSON types: "@ + expected + "."@,
            Some(f) => "Update `"@ + f + "` to use the expected JSON type: "@ + expected + "."@,
        }
    }
}

/// The hint for a type mismatch (see `type_mismatch_hint_given`), given
/// whether the value is a quoted JSON object.
pub fn type_mismatch_hint_with(path: &str, expected: &str, quoted_object: bool) -> (r: String)
    ensures
        r@ == type_mismatch_hint_given(path@, expected@, quoted_object),
{
    let field = field_name(path);
    if has_object_kind(expected) && quoted_object {
        return match field {
            None => str_to_string("Send tool arguments as a JSON object, not as a quoted JSON string."),
            Some(f) => concat3("Pass `", f.as_str(), "` as an object, not as a quoted JSON string."),
        };
    }
    match field {
        None => concat3("Send tool arguments using the expected JSON types: ", expected, "."),
        Some(f) => {
            let mut s = concat3("Update `", f.as_str(), "` to use the expected JSON type: ");
            push_str(&mut s, expected);
            push_str(&mut s, ".");
            s
        },
    }
}

/// The hint for a type mismatch (see `type_mismatch_hint_text`).
pub fn type_mismatch_hint(path: &str, value: &JsonValue, expected: &str) -> (r: String)
    ensures
        r@ == type_mismatch_hint_text(path@, *value, expected@),
{
    let quoted = has_object_kind(expected) && is_serialized_json_object(value);
    type_mismatch_hint_with(path, expected, quoted)
}

/// A child path: "/<segment>" under the root, "<base>/<segment>" otherwise.
pub open spec fn joined_path(base: Seq<char>, segment: Seq<char>) -> Seq<char> {
    if base.len() == 0 || base == "/"@ {
        "/"@ + segment
    } else {
        base + "/"@ + segment
    }
}

/// The path of `segment` under `base` (see `joined_path`).
pub fn join_json_path(base: &str, segment: &str) -> (r: String)
    ensures
        r@ == joined_path(base@, segment@),
{
    if str_is_empty(base) || str_eq(base, "/") {
        concat2("/", segment)
    } else {
        concat3(base, "/", segment)
    }
}

/// A violation; an empty path is the root.
pub fn build_violation(path: &str, expected: &str, actual: &str, issue: String, hint: String) -> (r:
    ToolValidationViolation)
    ensures
        violation_view(r) == (instance_path_text(path@), expected@, actual@, issue@, hint@),
{
    ToolValidationViolation {
        path: format_instance_path(path),
        expected: str_to_string(expected),
        actual: str_to_string(actual),
        issue,
        hint,
    }
}

/// The expected side of a violation of `kind` (other than a missing or
/// unexpected property, or a wrong type, which have their own).
pub open spec fn expected_label(kind: SchemaErrorKind) -> Seq<char> {
    match kind {
        SchemaErrorKind::AdditionalItems => "no additional items"@,
        SchemaErrorKind::UnevaluatedItems => "no additional items"@,
        SchemaErrorKind::AnyOf => "anyOf"@,
        SchemaErrorKind::Constant { expected } => "const "@ + expected@,
        SchemaErrorKind::Contains => "contains"@,
        SchemaErrorKind::Enum => "enum"@,
        SchemaErrorKind::ExclusiveMaximum { limit } => "exclusiveMaximum "@ + limit@,
        SchemaErrorKind::ExclusiveMinimum { limit } => "exclusiveMinimum "@ + limit@,
        SchemaErrorKind::FalseSchema => "true"@,
        SchemaErrorKind::Format { format } => "format "@ + format@,
        SchemaErrorKind::MaxItems { limit } => "maxItems "@ + limit@,
        SchemaErrorKind::Maximum { limit } => "maximum "@ + limit@,
        SchemaErrorKind::MaxLength { limit } => "maxLength "@ + limit@,
        SchemaErrorKind::MaxProperties { limit } => "maxProperties "@ + limit@,
        SchemaErrorKind::MinItems { limit } => "minItems "@ + limit@,
        SchemaErrorKind::Minimum { limit } => "minimum "@ + limit@,
        SchemaErrorKind::MinLength { limit } => "minLength "@ + limit@,
        SchemaErrorKind::MinProperties { limit } => "minProperties "@ + limit@,
        SchemaErrorKind::MultipleOf { multiple_of } => "multipleOf "@ + multiple_of@,
        SchemaErrorKind::Not => "not"@,
        SchemaErrorKind::OneOfMultipleValid => "oneOf"@,
        SchemaErrorKind::OneOfNotValid => "oneOf"@,
        SchemaErrorKind::Pattern { pattern } => "pattern /"@ + pattern@ + "/"@,
        SchemaErrorKind::PropertyNames => "propertyNames"@,
        SchemaErrorKind::UniqueItems => "uniqueItems"@,
        SchemaErrorKind::Type { kinds } => join_with(strings_view(kinds@), " | "@),
        SchemaErrorKind::Custom => "custom"@,
        _ => "schema"@,
    }
}

/// The expected side of a violation (see `expected_label`).
pub fn expected_label_for_error(kind: &SchemaErrorKind) -> (r: String)
    ensures
        r@ == expected_label(*kind),
{
    match kind {
        SchemaErrorKind::AdditionalItems => str_to_string("no additional items"),
        SchemaErrorKind::UnevaluatedItems => str_to_string("no additional items"),
        SchemaErrorKind::AnyOf => str_to_string("anyOf"),
        SchemaErrorKind::Constant { expected } => concat2("const ", expected.as_str()),
        SchemaErrorKind::Contains => str_to_string("contains"),
        SchemaErrorKind::Enum => str_to_string("enum"),
        SchemaErrorKind::ExclusiveMaximum { limit } => concat2("exclusiveMaximum ", limit.as_str()),
        SchemaErrorKind::ExclusiveMinimum { limit } => concat2("exclusiveMinimum ", limit.as_str()),
        SchemaErrorKind::FalseSchema => str_to_string("true"),
        SchemaErrorKind::Format { format } => concat2("format ", format.as_str()),
        SchemaErrorKind::MaxItems { limit } => concat2("maxItems ", limit.as_str()),
        SchemaErrorKind::Maximum { limit } => concat2("maximum ", limit.as_str()),
        SchemaErrorKind::MaxLength { limit } => concat2("maxLength ", limit.as_str()),
        SchemaErrorKind::MaxProperties { limit } => concat2("maxProperties ", limit.as_str()),
        SchemaErrorKind::MinItems { limit } => concat2("minItems ", limit.as_str()),
        SchemaErrorKind::Minimum { limit } => concat2("minimum ", limit.as_str()),
        SchemaErrorKind::MinLength { limit } => concat2("minLength ", limit.as_str()),
        SchemaErrorKind::MinProperties { limit } => concat2("minProperties ", limit.as_str()),
        SchemaErrorKind::MultipleOf { multiple_of } => concat2("multipleOf ", multiple_of.as_str()),
        SchemaErrorKind::Not => str_to_string("not"),
        SchemaErrorKind::OneOfMultipleValid => str_to_string("oneOf"),
        SchemaErrorKind::OneOfNotValid => str_to_string("oneOf"),
        SchemaErrorKind::Pattern { pattern } => concat3("pattern /", pattern.as_str(), "/"),
        SchemaErrorKind::PropertyNames => str_to_string("propertyNames"),
        SchemaErrorKind::UniqueItems => str_to_string("uniqueItems"),
        SchemaErrorKind::Type { kinds } => join_strings(kinds, " | "),
        SchemaErrorKind::Custom => str_to_string("custom"),
        _ => str_to_string("schema"),
    }
}

/// The actual side of a violation: the length of a string, the size of an
/// array or object for the size limits, "duplicate items" for uniqueness,
/// else the value's type.
pub open spec fn actual_label(value: JsonValue, actual_type: Seq<char>, kind: SchemaErrorKind) -> Seq<
    char,
> {
    match kind {
        SchemaErrorKind::MaxLength { .. } | SchemaErrorKind::MinLength { .. } => match value {
            JsonValue::Str(t) => "length "@ + crate::text::decimal(t@.len()),
            _ => actual_type,
        },
        SchemaErrorKind::MaxItems { .. } | SchemaErrorKind::MinItems { .. } => match value {
            JsonValue::Array(items) => crate::text::decimal(items@.len()) + " items"@,
            _ => actual_type,
        },
        SchemaErrorKind::MaxProperties { .. } | SchemaErrorKind::MinProperties { .. } => match value {
            JsonValue::Object(m) => crate::text::decimal(m@.len()) + " properties"@,
            _ => actual_type,
        },
        SchemaErrorKind::UniqueItems => "duplicate items"@,
        _ => actual_type,
    }
}

/// The actual side of a violation (see `actual_label`).
pub fn actual_label_for_error(value: &JsonValue, actual_type: &str, kind: &SchemaErrorKind) -> (r:
    String)
    ensures
        r@ == actual_label(*value, actual_type@, *kind),
{
    match kind {
        SchemaErrorKind::MaxLength { .. } | SchemaErrorKind::MinLength { .. } => match value {
            JsonValue::Str(t) => {
                let v = crate::text::chars_of(t.as_str());
                let mut s = str_to_string("length ");
                crate::text::push_decimal(&mut s, v.len());
                s
            },
            _ => str_to_string(actual_type),
        },
        SchemaErrorKind::MaxItems { .. } | SchemaErrorKind::MinItems { .. } => match value {
            JsonValue::Array(items) => {
                let mut s = String::new();
                crate::text::push_decimal(&mut s, items.len());
                push_str(&mut s, " items");
                assert(s@ =~= crate::text::decimal(items@.len()) + " items"@);
                s
            },
            _ => str_to_string(actual_type),
        },
        SchemaErrorKind::MaxProperties { .. } | SchemaErrorKind::MinProperties { .. } => match value {
            JsonValue::Object(m) => {
                let mut s = String::new();
                crate::text::push_decimal(&mut s, m.len());
                push_str(&mut s, " properties");
                assert(s@ =~= crate::text::decimal(m@.len()) + " properties"@);
                s
            },
            _ => str_to_string(actual_type),
        },
        SchemaErrorKind::UniqueItems => str_to_string("duplicate items"),
        _ => str_to_string(actual_type),
    }
}

/// The hint of a violation of `kind` at `path` on `value`.
pub open spec fn hint_text(path: Seq<char>, value: JsonValue, kind: SchemaErrorKind) -> Seq<char> {
    match kind {
        SchemaErrorKind::AdditionalItems | SchemaErrorKind::UnevaluatedItems =>
            "Remove the extra item or update the tool schema."@,
        SchemaErrorKind::AnyOf => "Update the value to match one of the schema alternatives."@,
        SchemaErrorKind::Constant { .. } => "Use the exact value required by the tool schema."@,
        SchemaErrorKind::Contains =>
            "Include at least one item that matches the schema in `contains`."@,
        SchemaErrorKind::Enum => "Choose one of the enum values declared in the tool schema."@,
        SchemaErrorKind::ExclusiveMaximum { .. } | SchemaErrorKind::Maximum { .. } =>
            "Reduce the value to satisfy the maximum."@,
        SchemaErrorKind::ExclusiveMinimum { .. } | SchemaErrorKind::Minimum { .. } =>
            "Increase the value to satisfy the minimum."@,
        SchemaErrorKind::Format { format } => "Provide a value that satisfies the `"@ + format@
            + "` format."@,
        SchemaErrorKind::MaxItems { .. } => "Remove items from the array."@,
        SchemaErrorKind::MaxLength { .. } => "Shorten the string value."@,
        SchemaErrorKind::MaxProperties { .. } => "Remove properties from the object."@,
        SchemaErrorKind::MinItems { .. } => "Add more items to the array."@,
        SchemaErrorKind::MinLength { .. } => "Provide a longer string value."@,
        SchemaErrorKind::MinProperties { .. } => "Add more properties to the object."@,
        SchemaErrorKind::MultipleOf { .. } => "Adjust the value to match the required step size."@,
        SchemaErrorKind::OneOfMultipleValid | SchemaErrorKind::OneOfNotValid =>
            "Update the value to satisfy exactly one schema alternative."@,
        SchemaErrorKind::Pattern { .. } =>
            "Update the value to satisfy the pattern declared in the tool schema."@,
        SchemaErrorKind::PropertyNames => "Rename the object keys to satisfy the schema."@,
        SchemaErrorKind::Type { kinds } => type_mismatch_hint_text(
            path,
            value,
            join_with(strings_view(kinds@), " | "@),
        ),
        SchemaErrorKind::UniqueItems => "Remove duplicate items from the array."@,
        _ => "Update the value to satisfy the tool schema."@,
    }
}

/// The hint of a violation (see `hint_text`).
pub fn hint_for_error(path: &str, value: &JsonValue, kind: &SchemaErrorKind) -> (r: String)
    ensures
        r@ == hint_text(path@, *value, *kind),
{
    match kind {
        SchemaErrorKind::AdditionalItems | SchemaErrorKind::UnevaluatedItems => str_to_string(
            "Remove the extra item or update the tool schema.",
        ),
        SchemaErrorKind::AnyOf => str_to_string(
            "Update the value to match one of the schema alternatives.",
        ),
        SchemaErrorKind::Constant { .. } => str_to_string(
            "Use the exact value required by the tool schema.",
        ),
        SchemaErrorKind::Contains => str_to_string(
            "Include at least one item that matches the schema in `contains`.",
        ),
        SchemaErrorKind::Enum => str_to_string(
            "Choose one of the enum values declared in the tool schema.",
        ),
        SchemaErrorKind::ExclusiveMaximum { .. } | SchemaErrorKind::Maximum { .. } => str_to_string(
            "Reduce the value to satisfy the maximum.",
        ),
        SchemaErrorKind::ExclusiveMinimum { .. } | SchemaErrorKind::Minimum { .. } => str_to_string(
            "Increase the value to satisfy the minimum.",
        ),
        SchemaErrorKind::Format { format } => concat3(
            "Provide a value that satisfies the `",
            format.as_str(),
            "` format.",
        ),
        SchemaErrorKind::MaxItems { .. } => str_to_string("Remove items from the array."),
        SchemaErrorKind::MaxLength { .. } => str_to_string("Shorten the string value."),
        SchemaErrorKind::MaxProperties { .. } => str_to_string("Remove properties from the object."),
        SchemaErrorKind::MinItems { .. } => str_to_string("Add more items to the array."),
        SchemaErrorKind::MinLength { .. } => str_to_string("Provide a longer string value."),
        SchemaErrorKind::MinProperties { .. } => str_to_string("Add more properties to the object."),
        SchemaErrorKind::MultipleOf { .. } => str_to_string(
            "Adjust the value to match the required step size.",
        ),
        SchemaErrorKind::OneOfMultipleValid | SchemaErrorKind::OneOfNotValid => str_to_string(
            "Update the value to satisfy exactly one schema alternative.",
        ),
        SchemaErrorKind::Pattern { .. } => str_to_string(
            "Update the value to satisfy the pattern declared in the tool schema.",
        ),
        SchemaErrorKind::PropertyNames => str_to_string(
            "Rename the object keys to satisfy the schema.",
        ),
        SchemaErrorKind::Type { kinds } => {
            let expected = join_strings(kinds, " | ");
            type_mismatch_hint(path, value, expected.as_str())
        },
        SchemaErrorKind::UniqueItems => str_to_string("Remove duplicate items from the array."),
        _ => str_to_string("Update the value to satisfy the tool schema."),
    }
}

/// The type of member `name` of an object value, else "missing".
pub open spec fn member_type(value: JsonValue, name: Seq<char>) -> Seq<char> {
    match value {
        JsonValue::Object(m) => match field_of(m@, name) {
            Some(v) => json_type_name(v),
            None => "missing"@,
        },
        _ => "missing"@,
    }
}

fn member_kind(value: &JsonValue, name: &str) -> (r: &'static str)
    ensures
        r@ == member_type(*value, name@),
{
    match value {
        JsonValue::Object(m) => {
            let mut i: usize = 0;
            assert(m@.skip(0) =~= m@);
            while i < m.len()
                invariant
                    i <= m@.len(),
                    *value == JsonValue::Object(*m),
                    field_of(m@, name@) == field_of(m@.skip(i as int), name@),
                decreases m.len() - i,
            {
                let ghost rest = m@.skip(i as int);
                assert(rest[0] == m@[i as int]);
                if str_eq(m[i].0.as_str(), name) {
                    return json_kind_name(&m[i].1);
                }
                assert(rest.drop_first() =~= m@.skip(i + 1));
                i = i + 1;
            }
            "missing"
        },
        _ => "missing",
    }
}

/// The violation reported for an unexpected property `name`.
pub open spec fn unexpected_violation(base: Seq<char>, value: JsonValue, name: Seq<char>) -> ViolationText {
    (
        instance_path_text(joined_path(base, name)),
        "no additional properties"@,
        member_type(value, name),
        "Unexpected argument `"@ + name + "`."@,
        "Remove `"@ + name + "` or add it to the tool schema."@,
    )
}

/// The violations that a schema error of `kind` at `path` with `message`
/// gives, `inst` being the value at `path`: one per unexpected property,
/// else one.
#[verifier::opaque]
pub open spec fn violations_at(
    path: Seq<char>,
    message: Seq<char>,
    kind: SchemaErrorKind,
    inst: JsonValue,
) -> Seq<ViolationText> {
    let base = instance_path_text(path);
    let actual_type = json_type_name(inst);
    match kind {
        SchemaErrorKind::Required { property } => {
            let name = match property {
                Some(p) => p@,
                None => "value"@,
            };
            seq![
                (
                    instance_path_text(joined_path(base, name)),
                    "present"@,
                    "missing"@,
                    message,
                    "Include `"@ + name + "` in the tool arguments object."@,
                ),
            ]
        },
        SchemaErrorKind::AdditionalProperties { unexpected } | SchemaErrorKind::UnevaluatedProperties {
            unexpected,
        } => Seq::new(
            unexpected@.len(),
            |i: int| unexpected_violation(base, inst, unexpected@[i]@),
        ),
        SchemaErrorKind::Type { kinds } => {
            let expected = join_with(strings_view(kinds@), " | "@);
            seq![
                (
                    instance_path_text(base),
                    expected,
                    actual_type,
                    type_mismatch_issue_text(inst, expected),
                    type_mismatch_hint_text(base, inst, expected),
                ),
            ]
        },
        _ => seq![
            (
                instance_path_text(base),
                expected_label(kind),
                actual_label(inst, actual_type, kind),
                message,
                hint_text(base, inst, kind),
            ),
        ],
    }
}

/// The violations a schema error gives (see `violations_at`).
pub open spec fn violations_of(e: SchemaError) -> Seq<ViolationText> {
    violations_at(e.instance_path@, e.message@, e.kind, e.instance)
}

/// The views of violations.
pub open spec fn violations_view(v: Seq<ToolValidationViolation>) -> Seq<ViolationText> {
    v.map_values(|x: ToolValidationViolation| violation_view(x))
}

/// Appends the violations that a schema error gives (see `violations_at`).
pub fn push_violations_at(
    out: &mut Vec<ToolValidationViolation>,
    path: &str,
    message: &String,
    kind: &SchemaErrorKind,
    inst: &JsonValue,
)
    ensures
        violations_view(final(out)@) == violations_view(old(out)@) + violations_at(
            path@,
            message@,
            *kind,
            *inst,
        ),
{
    proof {
        reveal(violations_at);
    }
    let base = format_instance_path(path);
    let actual_type = json_kind_name(inst);
    let ghost start = violations_view(out@);
    match kind {
        SchemaErrorKind::Required { property } => {
            let name: &str = match property {
                Some(p) => p.as_str(),
                None => "value",
            };
            let joined = join_json_path(base.as_str(), name);
            let hint = concat3("Include `", name, "` in the tool arguments object.");
            out.push(build_violation(joined.as_str(), "present", "missing", message.clone(), hint));
            assert(violations_view(out@) =~= start + violations_at(path@, message@, *kind, *inst));
        },
        SchemaErrorKind::AdditionalProperties { unexpected }
        | SchemaErrorKind::UnevaluatedProperties { unexpected } => {
            let ghost target = violations_at(path@, message@, *kind, *inst);
            let mut i: usize = 0;
            while i < unexpected.len()
                invariant
                    i <= unexpected@.len(),
                    base@ == instance_path_text(path@),
                    target == Seq::new(
                        unexpected@.len(),
                        |k: int| unexpected_violation(base@, *inst, unexpected@[k]@),
                    ),
                    violations_view(out@) == start + target.take(i as int),
                decreases unexpected.len() - i,
            {
                let name = unexpected[i].as_str();
                let joined = join_json_path(base.as_str(), name);
                let actual = member_kind(inst, name);
                let issue = concat3("Unexpected argument `", name, "`.");
                let hint = concat3("Remove `", name, "` or add it to the tool schema.");
                let ghost before = violations_view(out@);
                out.push(build_violation(joined.as_str(), "no additional properties", actual, issue, hint));
                assert(violations_view(out@) =~= before.push(target[i as int]));
                assert(target.take(i + 1) =~= target.take(i as int).push(target[i as int]));
                i = i + 1;
            }
            assert(target.take(unexpected@.len() as int) =~= target);
        },
        SchemaErrorKind::Type { kinds } => {
            let expected = join_strings(kinds, " | ");
            let issue = type_mismatch_issue(inst, expected.as_str());
            let hint = type_mismatch_hint(base.as_str(), inst, expected.as_str());
            out.push(build_violation(base.as_str(), expected.as_str(), actual_type, issue, hint));
            assert(violations_view(out@) =~= start + violations_at(path@, message@, *kind, *inst));
        },
        _ => {
            let expected = expected_label_for_error(kind);
            let actual = actual_label_for_error(inst, actual_type, kind);
            let hint = hint_for_error(base.as_str(), inst, kind);
            out.push(build_violation(base.as_str(), expected.as_str(), actual.as_str(), message.clone(), hint));
            assert(violations_view(out@) =~= start + violations_at(path@, message@, *kind, *inst));
        },
    }
}

/// Appends the violations that schema error `e` gives (see `violations_of`).
pub fn push_violations(out: &mut Vec<ToolValidationViolation>, e: &SchemaError)
    ensures
        violations_view(final(out)@) == violations_view(old(out)@) + violations_of(*e),
{
    push_violations_at(out, e.instance_path.as_str(), &e.message, &e.kind, &e.instance);
}

// ---------------------------------------------------------------------------
// The payload for arguments that break the schema
// ---------------------------------------------------------------------------

/// The JSON text of one violation.
pub open spec fn violation_json(v: ViolationText) -> Seq<char> {
    "{\"path\":"@ + json_quote(v.0) + ",\"expected\":"@ + json_quote(v.1) + ",\"actual\":"@
        + json_quote(v.2) + ",\"issue\":"@ + json_quote(v.3) + ",\"hint\":"@ + json_quote(v.4)
        + "}"@
}

/// The JSON texts of violations, separated by commas.
pub open spec fn violations_json(vs: Seq<ViolationText>) -> Seq<char>
    decreases vs.len(),
{
    if vs.len() == 0 {
        seq![]
    } else if vs.len() == 1 {
        violation_json(vs[0])
    } else {
        violations_json(vs.drop_last()) + ","@ + violation_json(vs.last())
    }
}

/// The error payload a tool call gets when its arguments break the tool's
/// schema, as `serde_json::to_string` writes it.
pub open spec fn validation_payload(tool: Seq<char>, server_id: Seq<char>, vs: Seq<ViolationText>) -> Seq<
    char,
> {
    "{\"isError\":true,\"error\":{\"kind\":\"invalid_arguments\",\"tool\":"@ + json_quote(tool)
        + ",\"server_id\":"@ + json_quote(server_id)
        + ",\"message\":\"Tool arguments did not match the expected schema.\",\"violations\":["@
        + violations_json(vs) + "]}}"@
}

fn push_violation_json(out: &mut String, v: &ToolValidationViolation)
    ensures
        final(out)@ == old(out)@ + violation_json(violation_view(*v)),
{
    push_str(out, "{\"path\":");
    crate::json::push_json_string(out, v.path.as_str());
    push_str(out, ",\"expected\":");
    crate::json::push_json_string(out, v.expected.as_str());
    push_str(out, ",\"actual\":");
    crate::json::push_json_string(out, v.actual.as_str());
    push_str(out, ",\"issue\":");
    crate::json::push_json_string(out, v.issue.as_str());
    push_str(out, ",\"hint\":");
    crate::json::push_json_string(out, v.hint.as_str());
    push_str(out, "}");
    assert(final(out)@ =~= old(out)@ + violation_json(violation_view(*v)));
}

/// The error payload for `violations` of tool `tool` on `server_id` (see
/// `validation_payload`).
pub fn build_validation_payload(
    tool: &str,
    server_id: &str,
    violations: &Vec<ToolValidationViolation>,
) -> (r: String)
    ensures
        r@ == validation_payload(tool@, server_id@, violations_view(violations@)),
{
    let mut out = str_to_string(
        "{\"isError\":true,\"error\":{\"kind\":\"invalid_arguments\",\"tool\":",
    );
    crate::json::push_json_string(&mut out, tool);
    push_str(&mut out, ",\"server_id\":");
    crate::json::push_json_string(&mut out, server_id);
    push_str(
        &mut out,
        ",\"message\":\"Tool arguments did not match the expected schema.\",\"violations\":[",
    );
    let ghost start = out@;
    let ghost vv = violations_view(violations@);
    let mut i: usize = 0;
    while i < violations.len()
        invariant
            i <= violations@.len(),
            vv == violations_view(violations@),
            out@ == start + violations_json(vv.take(i as int)),
        decreases violations.len() - i,
    {
        if i > 0 {
            push_str(&mut out, ",");
        }
        push_violation_json(&mut out, &violations[i]);
        let ghost t = vv.take(i + 1);
        assert(t.drop_last() =~= vv.take(i as int));
        assert(t.last() == violation_view(violations@[i as int]));
        assert(out@ =~= start + violations_json(t));
        i = i + 1;
    }
    assert(vv.take(violations@.len() as int) =~= vv);
    push_str(&mut out, "]}}");
    assert(out@ =~= validation_payload(tool@, server_id@, vv));
    out
}

/// The violations that schema errors give, in order.
pub open spec fn all_violations(errors: Seq<SchemaError>) -> Seq<ViolationText>
    decreases errors.len(),
{
    if errors.len() == 0 {
        seq![]
    } else {
        all_violations(errors.drop_last()) + violations_of(errors.last())
    }
}

/// The plan for a call once its arguments were checked: `check` is the
/// tool's listed name and the errors the validator reported for the value
/// (an empty object when there is none), or `None` when the tool has no
/// schema to check against. Violations refuse the call with their payload;
/// otherwise the arguments must be an object.
pub open spec fn validated_plan_spec(
    req: ValidationRequest,
    check: Option<(String, Vec<SchemaError>)>,
    p: CallPlan,
) -> bool {
    checked_plan_spec(
        req,
        match check {
            Some((t, errors)) => Some((t@, errors@)),
            None => None,
        },
        p,
    )
}

/// The plan of a call whose arguments were checked: `check` is the name of
/// the tool and the schema errors found, when there was a schema.
pub open spec fn checked_plan_spec(
    req: ValidationRequest,
    check: Option<(Seq<char>, Seq<SchemaError>)>,
    p: CallPlan,
) -> bool {
    match check {
        Some((t, errors)) => violations_plan_spec(req, t, all_violations(errors), p),
        None => violations_plan_spec(req, seq![], seq![], p),
    }
}

/// The plan of a call whose arguments broke the schema of tool `tool` with
/// violations `vs` (none when they kept to it, or when there was no
/// schema): refused with the violations payload when there are any, else
/// ready with the arguments object.
pub open spec fn violations_plan_spec(
    req: ValidationRequest,
    tool: Seq<char>,
    vs: Seq<ViolationText>,
    p: CallPlan,
) -> bool {
    if vs.len() > 0 {
        failed_with(
            p,
            req.tool_name@,
            req.tool_call_id@,
            req.raw_arguments@,
            Some(req.server_id@),
            validation_payload(tool, req.server_id@, vs),
            ToolFailureKind::ToolError,
        )
    } else {
        match req.value {
            None => ready_with(p, req.tool_name@, req.tool_call_id@, req.raw_arguments@, req.server_id@, None),
            Some(JsonValue::Object(m)) => ready_with(
                p,
                req.tool_name@,
                req.tool_call_id@,
                req.raw_arguments@,
                req.server_id@,
                Some(m),
            ),
            Some(_) => failed_with(
                p,
                req.tool_name@,
                req.tool_call_id@,
                req.raw_arguments@,
                Some(req.server_id@),
                "Invalid tool arguments: "@ + "Tool arguments must be a JSON object."@,
                ToolFailureKind::ToolError,
            ),
        }
    }
}

/// The violations that schema errors give (see `all_violations`).
pub fn collect_violations(errors: &Vec<SchemaError>) -> (r: Vec<ToolValidationViolation>)
    ensures
        violations_view(r@) == all_violations(errors@),
{
    let mut violations: Vec<ToolValidationViolation> = Vec::new();
    assert(violations_view(violations@) =~= Seq::<ViolationText>::empty());
    let mut i: usize = 0;
    assert(errors@.take(0) =~= Seq::<SchemaError>::empty());
    while i < errors.len()
        invariant
            i <= errors@.len(),
            violations_view(violations@) == all_violations(errors@.take(i as int)),
        decreases errors.len() - i,
    {
        let ghost t = errors@.take(i + 1);
        assert(t.drop_last() =~= errors@.take(i as int));
        assert(t.last() == errors@[i as int]);
        push_violations(&mut violations, &errors[i]);
        i = i + 1;
    }
    assert(errors@.take(errors@.len() as int) =~= errors@);
    violations
}

/// Finishes the plan of a call whose arguments were checked (see
/// `validated_plan_spec`).
pub fn finish_validation(req: ValidationRequest, check: Option<(String, Vec<SchemaError>)>) -> (r:
    CallPlan)
    ensures
        validated_plan_spec(req, check, r),
{
    match &check {
        Some((tool, errors)) => {
            let violations = collect_violations(errors);
            finish_with_violations(req, tool.as_str(), violations)
        },
        None => {
            let r = finish_with_violations(req, "", Vec::new());
            proof {
                reveal_strlit("");
            }
            r
        },
    }
}

/// Finishes the plan of a call whose arguments broke the schema of tool
/// `tool` with `violations` (see `violations_plan_spec`).
pub fn finish_with_violations(
    req: ValidationRequest,
    tool: &str,
    violations: Vec<ToolValidationViolation>,
) -> (r: CallPlan)
    ensures
        violations_plan_spec(req, tool@, violations_view(violations@), r),
{
    assert(violations_view(violations@).len() == violations@.len());
    if violations.len() > 0 {
        let payload = build_validation_payload(tool, req.server_id.as_str(), &violations);
        return fail(
            &req.tool_name,
            &req.tool_call_id,
            &req.raw_arguments,
            Some(req.server_id.clone()),
            payload,
            ToolFailureKind::ToolError,
        );
    }
    let ValidationRequest { server_id, tool_name, tool_call_id, raw_arguments, value } = req;
    match value_to_argument_map(value) {
        Ok(arguments) => CallPlan::Ready(
            crate::session::ToolCallRequest {
                server_id,
                tool_name,
                arguments,
                raw_arguments,
                tool_call_id: Some(tool_call_id),
            },
        ),
        Err(e) => {
            let msg = concat2("Invalid tool arguments: ", e.as_str());
            fail(&tool_name, &tool_call_id, &raw_arguments, Some(server_id), msg, ToolFailureKind::ToolError)
        },
    }
}

// ---------------------------------------------------------------------------
// Starting the calls of a turn
// ---------------------------------------------------------------------------

/// The calls of `plans` that can run, in order.
pub open spec fn ready_requests(plans: Seq<CallPlan>) -> Seq<crate::session::ToolCallRequest>
    decreases plans.len(),
{
    if plans.len() == 0 {
        seq![]
    } else {
        let rest = ready_requests(plans.drop_last());
        match plans.last() {
            CallPlan::Ready(r) => rest.push(r),
            _ => rest,
        }
    }
}

/// The refusals of `plans`, in order.
pub open spec fn refused_calls(plans: Seq<CallPlan>) -> Seq<PendingToolError>
    decreases plans.len(),
{
    if plans.len() == 0 {
        seq![]
    } else {
        let rest = refused_calls(plans.drop_last());
        match plans.last() {
            CallPlan::Failed(e) => rest.push(e),
            _ => rest,
        }
    }
}

impl SessionContext {
    /// Starts the tool calls of a turn: their records are kept for the
    /// assistant message, the calls that can run are queued in order, no
    /// call is active and the turn has no result yet. The refused calls come
    /// back, in order, to be recorded. Every plan must be finished (none
    /// still waits for its arguments to be checked).
    pub fn start_tool_flow(&mut self, records: Vec<ChatToolCall>, plans: Vec<CallPlan>) -> (r: Vec<
        PendingToolError,
    >)
        requires
            forall|k: int| 0 <= k < plans@.len() ==> !(#[trigger] plans@[k] is Validate),
        ensures
            *final(self) == (SessionContext {
                tool_call_records: final(self).tool_call_records,
                pending_tool_queue: final(self).pending_tool_queue,
                active_tool_request: None,
                tool_results: final(self).tool_results,
                ..*old(self)
            }),
            final(self).tool_call_records == records,
            final(self).pending_tool_queue@ == ready_requests(plans@),
            final(self).tool_results@.len() == 0,
            r@ == refused_calls(plans@),
    {
        let ghost all = plans@;
        let mut queue: std::collections::VecDeque<crate::session::ToolCallRequest> =
            std::collections::VecDeque::new();
        let mut errors: Vec<PendingToolError> = Vec::new();
        let mut rest = plans;
        let n = rest.len();
        let mut i: usize = 0;
        assert(all.subrange(0, n as int) =~= all);
        assert(all.take(0) =~= Seq::<CallPlan>::empty());
        while i < n
            invariant
                n == all.len(),
                i <= n,
                rest@ =~= all.subrange(i as int, n as int),
                queue@ == ready_requests(all.take(i as int)),
                errors@ == refused_calls(all.take(i as int)),
            decreases n - i,
        {
            let p = rest.remove(0);
            assert(rest@ =~= all.subrange(i + 1, n as int));
            let ghost q = all.take(i + 1);
            assert(q.drop_last() =~= all.take(i as int));
            assert(q.last() == p);
            match p {
                CallPlan::Ready(req) => queue.push_back(req),
                CallPlan::Failed(e) => errors.push(e),
                CallPlan::Validate(_) => {},
            }
            i = i + 1;
        }
        assert(all.take(n as int) =~= all);
        self.tool_call_records = records;
        self.pending_tool_queue = queue;
        self.active_tool_request = None;
        self.tool_results = Vec::new();
        errors
    }
}

/// `m` describes refused call `e`: its server labelled as results label it.
pub open spec fn refusal_meta(m: ToolResultMeta, e: PendingToolError, servers: Seq<McpServerInfo>) -> bool {
    &&& opt_view(m.server_label) == match e.server_id {
        Some(id) => Some(crate::mcp_servers::result_server_label(servers, id@)),
        None => None,
    }
    &&& m.server_id == e.server_id
    &&& m.tool_call_id == e.tool_call_id
    &&& m.raw_arguments == e.raw_arguments
    &&& m.failure_kind == e.failure_kind
}

impl SessionContext {
    /// Records refused call `e` as a failed result (see `result_recorded`);
    /// `abbreviated` abbreviates its arguments. The transcript line comes
    /// back.
    pub fn record_refused_call(
        &mut self,
        servers: &Vec<McpServerInfo>,
        e: PendingToolError,
        abbreviated: &str,
    ) -> (r: String)
        ensures
            exists|m: ToolResultMeta|
                #![trigger refusal_meta(m, e, servers@)]
                refusal_meta(m, e, servers@) && result_recorded(
                    *old(self),
                    *final(self),
                    servers@,
                    e.tool_name@,
                    m,
                    e.error@,
                    ToolResultStatus::Error,
                    abbreviated@,
                ) && r@ == result_heading(
                    e.tool_name@,
                    m.server_label,
                    ToolResultStatus::Error,
                    m.failure_kind,
                ),
    {
        let ghost e0 = e;
        let label = match &e.server_id {
            Some(id) => Some(crate::mcp_servers::resolve_server_label(servers, id.as_str())),
            None => None,
        };
        let meta = ToolResultMeta {
            server_label: label,
            server_id: e.server_id,
            tool_call_id: e.tool_call_id,
            raw_arguments: e.raw_arguments,
            failure_kind: e.failure_kind,
        };
        let ghost m = meta;
        assert(refusal_meta(m, e0, servers@));
        self.record_tool_result(
            servers,
            e.tool_name.as_str(),
            meta,
            e.error,
            ToolResultStatus::Error,
            abbreviated,
        )
    }
}

// ---------------------------------------------------------------------------
// Summaries of arguments
// ---------------------------------------------------------------------------

/// "key=value" for one argument, the value abbreviated JSON.
pub open spec fn argument_part(f: (String, JsonValue)) -> Seq<char> {
    f.0@ + "="@ + abbreviate_spec(json_text(f.1))
}

/// The one-line summary of raw tool arguments; `parsed` is what
/// `serde_json` made of them. An object lists its members, other values
/// are shown abbreviated, and text that is not JSON is shown abbreviated
/// with its whitespace collapsed. Nothing for empty arguments or an empty
/// summary.
pub open spec fn arguments_summary(raw: Seq<char>, parsed: Result<JsonValue, Seq<char>>) -> Option<
    Seq<char>,
> {
    if raw.len() == 0 {
        None
    } else {
        let summary = match parsed {
            Ok(JsonValue::Object(m)) => join_with(
                m@.map_values(|f: (String, JsonValue)| argument_part(f)),
                ", "@,
            ),
            Ok(JsonValue::Array(items)) => abbreviate_spec(json_text(JsonValue::Array(items))),
            Ok(JsonValue::Str(t)) => abbreviate_spec(json_quote(t@)),
            Ok(JsonValue::Number(n)) => n@,
            Ok(JsonValue::Bool(b)) => if b {
                "true"@
            } else {
                "false"@
            },
            Ok(JsonValue::Null) => "null"@,
            Err(_) => abbreviate_spec(normalize_ws(raw)),
        };
        if normalize_ws(summary).len() == 0 {
            None
        } else {
            Some(normalize_ws(summary))
        }
    }
}

/// Summarizes raw tool arguments, given what `serde_json` read from them
/// (see `arguments_summary`).
pub fn summarize_parsed_arguments(raw: &str, parsed: &Result<JsonValue, String>) -> (r: Option<
    String,
>)
    ensures
        match r {
            Some(s) => arguments_summary(raw@, read_view(*parsed)) == Some(s@),
            None => arguments_summary(raw@, read_view(*parsed)) is None,
        },
{
    if str_is_empty(raw) {
        return None;
    }
    let summary = match parsed {
        Ok(JsonValue::Object(m)) => {
            let mut parts: Vec<String> = Vec::new();
            let mut i: usize = 0;
            while i < m.len()
                invariant
                    i <= m@.len(),
                    strings_view(parts@) == m@.take(i as int).map_values(
                        |f: (String, JsonValue)| argument_part(f),
                    ),
                decreases m.len() - i,
            {
                let text = to_json_string(&m[i].1);
                let value = abbreviate_tool_call_value(text.as_str());
                let part = concat3(m[i].0.as_str(), "=", value.as_str());
                let ghost before = strings_view(parts@);
                parts.push(part);
                assert(strings_view(parts@) =~= before.push(argument_part(m@[i as int])));
                assert(m@.take(i + 1).map_values(|f: (String, JsonValue)| argument_part(f))
                    =~= m@.take(i as int).map_values(|f: (String, JsonValue)| argument_part(f)).push(
                    argument_part(m@[i as int]),
                ));
                i = i + 1;
            }
            assert(m@.take(m@.len() as int) =~= m@);
            join_strings(&parts, ", ")
        },
        Ok(v) => match v {
            JsonValue::Array(_) => {
                let text = to_json_string(v);
                abbreviate_tool_call_value(text.as_str())
            },
            JsonValue::Str(t) => {
                let mut text = String::new();
                crate::json::push_json_string(&mut text, t.as_str());
                assert(text@ =~= json_quote(t@));
                abbreviate_tool_call_value(text.as_str())
            },
            JsonValue::Number(n) => n.clone(),
            JsonValue::Bool(b) => if *b {
                str_to_string("true")
            } else {
                str_to_string("false")
            },
            JsonValue::Null => str_to_string("null"),
            JsonValue::Object(_) => String::new(),
        },
        Err(_) => {
            let c = collapse_whitespace(raw);
            abbreviate_tool_call_value(c.as_str())
        },
    };
    let collapsed = collapse_whitespace(summary.as_str());
    if str_is_empty(collapsed.as_str()) {
        None
    } else {
        Some(collapsed)
    }
}

/// Summarizes raw tool arguments, reading them with `serde_json` (see
/// `arguments_summary`).
pub fn summarize_tool_call_arguments(raw: &str) -> (r: Option<String>)
    ensures
        match r {
            Some(s) => arguments_summary(raw@, json_read(raw@)) == Some(s@),
            None => arguments_summary(raw@, json_read(raw@)) is None,
        },
{
    if str_is_empty(raw) {
        return None;
    }
    let parsed = read_json(raw);
    summarize_parsed_arguments(raw, &parsed)
}

// ---------------------------------------------------------------------------
// Instant recall
// ---------------------------------------------------------------------------

/// Position of the first recorded result of call `id`.
pub open spec fn recorded_result_index(history: Seq<ToolResultRecord>, id: Seq<char>) -> Option<int> {
    if exists|k: int| 0 <= k < history.len() && opt_view(#[trigger] history[k].tool_call_id) == Some(id) {
        Some(
            choose|k: int|
                0 <= k < history.len() && opt_view(#[trigger] history[k].tool_call_id) == Some(id)
                    && forall|m: int| 0 <= m < k ==> opt_view(#[trigger] history[m].tool_call_id) != Some(id),
        )
    } else {
        None
    }
}

/// What an instant recall gives back: the payload and summary of the
/// recorded result of the call named by `tool_call_id`, or why not.
pub open spec fn recall_result(
    history: Seq<ToolResultRecord>,
    arguments: Option<Vec<(String, JsonValue)>>,
) -> Result<(Seq<char>, Seq<char>), Seq<char>> {
    match arguments {
        None => Err("Instant recall arguments are required."@),
        Some(m) => match str_field_of(m@, "tool_call_id"@) {
            None => Err("Instant recall requires tool_call_id."@),
            Some(raw_id) => {
                let id = trim_seq(raw_id);
                if id.len() == 0 {
                    Err("Instant recall requires tool_call_id."@)
                } else {
                    match recorded_result_index(history, id) {
                        Some(k) => Ok((history[k].content@, history[k].summary@)),
                        None => Err("No tool result found for tool_call_id="@ + id + "."@),
                    }
                }
            },
        },
    }
}

fn find_recorded_result(history: &Vec<ToolResultRecord>, id: &str) -> (r: Option<usize>)
    ensures
        match r {
            Some(k) => recorded_result_index(history@, id@) == Some(k as int) && k < history@.len(),
            None => recorded_result_index(history@, id@) is None,
        },
{
    let mut i: usize = 0;
    while i < history.len()
        invariant
            i <= history@.len(),
            forall|m: int| 0 <= m < i ==> opt_view(#[trigger] history@[m].tool_call_id) != Some(id@),
        decreases history.len() - i,
    {
        let hit = match &history[i].tool_call_id {
            Some(x) => str_eq(x.as_str(), id),
            None => false,
        };
        if hit {
            proof {
                let c = choose|k: int|
                    0 <= k < history@.len() && opt_view(#[trigger] history@[k].tool_call_id) == Some(
                        id@,
                    ) && forall|m: int|
                        0 <= m < k ==> opt_view(#[trigger] history@[m].tool_call_id) != Some(id@);
                assert(opt_view(history@[i as int].tool_call_id) == Some(id@));
                if c < i {
                    assert(opt_view(history@[c].tool_call_id) != Some(id@));
                } else if c > i {
                    assert(opt_view(history@[i as int].tool_call_id) != Some(id@));
                }
            }
            return Some(i);
        }
        i = i + 1;
    }
    None
}

/// Looks up the result an instant recall asks for (see `recall_result`).
pub fn recall_tool_payload(
    history: &Vec<ToolResultRecord>,
    arguments: &Option<Vec<(String, JsonValue)>>,
) -> (r: Result<(String, String), String>)
    ensures
        match (r, recall_result(history@, *arguments)) {
            (Ok((p, s)), Ok((sp, ss))) => p@ == sp && s@ == ss,
            (Err(e), Err(se)) => e@ == se,
            _ => false,
        },
{
    let m = match arguments {
        None => {
            return Err(str_to_string("Instant recall arguments are required."));
        },
        Some(m) => m,
    };
    let raw_id = match get_str_field(m, "tool_call_id") {
        None => {
            return Err(str_to_string("Instant recall requires tool_call_id."));
        },
        Some(x) => x,
    };
    let id = trim(raw_id.as_str());
    if str_is_empty(id.as_str()) {
        return Err(str_to_string("Instant recall requires tool_call_id."));
    }
    match find_recorded_result(history, id.as_str()) {
        Some(k) => Ok((history[k].content.clone(), history[k].summary.clone())),
        None => Err(concat3("No tool result found for tool_call_id=", id.as_str(), ".")),
    }
}

/// The message shown after an instant recall of call `call_id`.
pub open spec fn recall_message(call_id: Option<String>, outcome: Result<(Seq<char>, Seq<char>), Seq<char>>) -> Seq<
    char,
> {
    match outcome {
        Ok((_, summary)) => match call_id {
            Some(id) => "Recalling result from previous tool call "@ + id@ + ": "@ + summary,
            None => "Recalling result from previous tool call: "@ + summary,
        },
        Err(e) => "Instant recall failed: "@ + e,
    }
}

/// The payload an instant recall answers with: the recalled one, or the
/// error.
pub open spec fn recall_payload(outcome: Result<(Seq<char>, Seq<char>), Seq<char>>) -> Seq<char> {
    match outcome {
        Ok((p, _)) => p,
        Err(e) => e,
    }
}

// ---------------------------------------------------------------------------
// Advancing the queue
// ---------------------------------------------------------------------------

/// What advancing the tool queue leaves for the application.
pub enum QueueStep {
    /// A call is already running or waiting for the user.
    Busy,
    /// The queue is empty: the conversation goes on with the results.
    Done,
    /// An instant recall was answered from the history; `message` is to be
    /// shown (as a warning when `failed`). The queue goes on.
    Recalled { message: String, failed: bool },
    /// The active call runs on its server without asking.
    Run,
    /// The call was refused by a stored decision and recorded; the line is
    /// for the transcript. The queue goes on.
    Blocked { transcript: String },
    /// The user is asked whether the active call may run.
    Ask {
        server_id: String,
        server_name: String,
        tool_name: String,
        display_name: String,
        raw_arguments: String,
        batch_index: usize,
    },
}

/// Position of the record of call `id` among the records of the turn.
pub open spec fn record_position(records: Seq<ChatToolCall>, id: Option<String>) -> usize {
    match id {
        None => 0,
        Some(i) => if exists|k: int| 0 <= k < records.len() && #[trigger] records[k].id@ == i@ {
            (choose|k: int|
                0 <= k < records.len() && #[trigger] records[k].id@ == i@ && forall|m: int|
                    0 <= m < k ==> #[trigger] records[m].id@ != i@) as usize
        } else {
            0
        },
    }
}

fn find_record_position(records: &Vec<ChatToolCall>, id: &Option<String>) -> (r: usize)
    ensures
        r == record_position(records@, *id),
{
    let i_ref = match id {
        None => {
            return 0;
        },
        Some(x) => x,
    };
    let mut i: usize = 0;
    while i < records.len()
        invariant
            i <= records@.len(),
            *id == Some(*i_ref),
            forall|m: int| 0 <= m < i ==> #[trigger] records@[m].id@ != i_ref@,
        decreases records.len() - i,
    {
        if str_eq(records[i].id.as_str(), i_ref.as_str()) {
            proof {
                let c = choose|k: int|
                    0 <= k < records@.len() && #[trigger] records@[k].id@ == i_ref@ && forall|m: int|
                        0 <= m < k ==> #[trigger] records@[m].id@ != i_ref@;
                assert(records@[i as int].id@ == i_ref@);
                if c < i {
                    assert(records@[c].id@ != i_ref@);
                } else if c > i {
                    assert(records@[i as int].id@ != i_ref@);
                }
            }
            return i;
        }
        i = i + 1;
    }
    0
}

/// `after` is `before` with the first queued call taken off the queue.
pub open spec fn dequeued(before: SessionContext, after: SessionContext) -> bool {
    after.pending_tool_queue@ == before.pending_tool_queue@.drop_first()
}

impl SessionContext {
    /// Takes the next queued call forward. With a call active nothing
    /// happens; with an empty queue the turn's calls are done. An instant
    /// recall is answered from the recorded results; a call to a server that
    /// runs calls without asking, or that a stored decision allows, becomes
    /// active and runs; one a stored decision blocks is recorded as blocked;
    /// any other becomes active while the user is asked. `blocked` is the
    /// stored decision for the next call (`Some(true)` to block), and
    /// `abbreviated` abbreviates its arguments.
    pub fn advance_tool_queue(
        &mut self,
        servers: &Vec<McpServerInfo>,
        blocked: Option<bool>,
        abbreviated: &str,
    ) -> (r: QueueStep)
        ensures
            old(self).active_tool_request is Some ==> r is Busy && *final(self) == *old(self),
            old(self).active_tool_request is None && old(self).pending_tool_queue@.len() == 0 ==> r is Done
                && *final(self) == *old(self),
            old(self).active_tool_request is None && old(self).pending_tool_queue@.len() > 0 ==> {
                let req = old(self).pending_tool_queue@[0];
                let yolo = crate::mcp_servers::server_by_id(servers@, req.server_id@) matches Some(
                    s,
                ) && s.yolo;
                &&& dequeued(*old(self), *final(self))
                &&& final(self).tool_call_records == old(self).tool_call_records
                &&& if eq_ci(req.tool_name@, crate::mcp_servers::MCP_INSTANT_RECALL_TOOL@) {
                    let outcome = recall_result(old(self).tool_result_history@, req.arguments);
                    &&& r matches QueueStep::Recalled { message, failed } && message@ == recall_message(
                        req.tool_call_id,
                        outcome,
                    ) && failed == outcome is Err
                    &&& final(self).active_tool_request is None
                    &&& final(self).tool_results@.len() == old(self).tool_results@.len() + 1
                    &&& final(self).tool_results@.drop_last() == old(self).tool_results@
                    &&& is_tool_message(
                        final(self).tool_results@.last(),
                        recall_payload(outcome),
                        req.tool_call_id,
                    )
                } else if yolo || blocked == Some(false) {
                    r is Run && final(self).active_tool_request == Some(req)
                } else if blocked == Some(true) {
                    &&& final(self).active_tool_request is None
                    &&& r matches QueueStep::Blocked { transcript } && transcript@ == result_heading(
                        req.tool_name@,
                        final(self).tool_result_history@.last().server_name,
                        ToolResultStatus::Blocked,
                        None,
                    )
                    &&& final(self).tool_result_history@.len() == old(self).tool_result_history@.len() + 1
                    &&& final(self).tool_result_history@.last().status == ToolResultStatus::Blocked
                    &&& final(self).tool_result_history@.last().content@ == "Tool blocked by user."@
                    &&& opt_view(final(self).tool_result_history@.last().server_name) == Some(
                        crate::mcp_servers::result_server_label(servers@, req.server_id@),
                    )
                } else {
                    let label = crate::mcp_servers::result_server_label(servers@, req.server_id@);
                    &&& final(self).active_tool_request == Some(req)
                    &&& r matches QueueStep::Ask {
                        server_id,
                        server_name,
                        tool_name,
                        display_name,
                        raw_arguments,
                        batch_index,
                    } && server_id == req.server_id && server_name@ == label && tool_name
                        == req.tool_name && display_name@ == "Allow "@ + label + " to run "@
                        + req.tool_name@ + "?"@ && raw_arguments == req.raw_arguments
                        && batch_index == record_position(old(self).tool_call_records@, req.tool_call_id)
                }
            },
    {
        if self.active_tool_request.is_some() {
            return QueueStep::Busy;
        }
        if self.pending_tool_queue.len() == 0 {
            return QueueStep::Done;
        }
        let req = match self.pending_tool_queue.pop_front() {
            None => {
                return QueueStep::Done;
            },
            Some(r) => r,
        };
        if crate::mcp_servers::is_instant_recall_tool(req.tool_name.as_str()) {
            let outcome = recall_tool_payload(&self.tool_result_history, &req.arguments);
            let (payload, message, failed) = match outcome {
                Ok((p, summary)) => {
                    let message = match &req.tool_call_id {
                        Some(id) => {
                            let mut m = concat3(
                                "Recalling result from previous tool call ",
                                id.as_str(),
                                ": ",
                            );
                            push_str(&mut m, summary.as_str());
                            m
                        },
                        None => concat2("Recalling result from previous tool call: ", summary.as_str()),
                    };
                    (p, message, false)
                },
                Err(e) => {
                    let message = concat2("Instant recall failed: ", e.as_str());
                    (e, message, true)
                },
            };
            let id = copy_opt(&req.tool_call_id);
            self.tool_results.push(tool_message(payload, id));
            self.active_tool_request = None;
            return QueueStep::Recalled { message, failed };
        }
        let yolo = crate::mcp_servers::is_mcp_yolo_enabled(servers, req.server_id.as_str());
        let allowed = match blocked {
            Some(b) => !b,
            None => false,
        };
        if yolo || allowed {
            self.active_tool_request = Some(req);
            return QueueStep::Run;
        }
        let label = crate::mcp_servers::resolve_server_label(servers, req.server_id.as_str());
        if blocked == Some(true) {
            let meta = ToolResultMeta {
                server_label: Some(label),
                server_id: Some(req.server_id.clone()),
                tool_call_id: copy_opt(&req.tool_call_id),
                raw_arguments: Some(req.raw_arguments.clone()),
                failure_kind: None,
            };
            let transcript = self.record_tool_result(
                servers,
                req.tool_name.as_str(),
                meta,
                str_to_string("Tool blocked by user."),
                ToolResultStatus::Blocked,
                abbreviated,
            );
            return QueueStep::Blocked { transcript };
        }
        let batch_index = find_record_position(&self.tool_call_records, &req.tool_call_id);
        let mut display_name = concat3("Allow ", label.as_str(), " to run ");
        push_str(&mut display_name, req.tool_name.as_str());
        push_str(&mut display_name, "?");
        let step = QueueStep::Ask {
            server_id: req.server_id.clone(),
            server_name: label,
            tool_name: req.tool_name.clone(),
            display_name,
            raw_arguments: req.raw_arguments.clone(),
            batch_index,
        };
        self.active_tool_request = Some(req);
        step
    }
}

// ---------------------------------------------------------------------------
// Continuing a turn after its tool calls
// ---------------------------------------------------------------------------

/// An API message as plain values: role, content, name, tool call id and
/// tool calls.
pub type ChatMessageView = (
    Seq<char>,
    Seq<char>,
    Option<Seq<char>>,
    Option<Seq<char>>,
    Option<Seq<ChatToolCall>>,
);

pub open spec fn chat_message_view(m: ChatMessage) -> ChatMessageView {
    (
        m.role@,
        m.content@,
        opt_view(m.name),
        opt_view(m.tool_call_id),
        match m.tool_calls {
            Some(v) => Some(v@),
            None => None,
        },
    )
}

pub open spec fn chat_messages_view(s: Seq<ChatMessage>) -> Seq<ChatMessageView> {
    s.map_values(|m: ChatMessage| chat_message_view(m))
}

fn copy_tool_call(c: &ChatToolCall) -> (r: ChatToolCall)
    ensures
        r == *c,
{
    ChatToolCall {
        id: c.id.clone(),
        kind: c.kind.clone(),
        function: ChatToolCallFunction {
            name: c.function.name.clone(),
            arguments: c.function.arguments.clone(),
        },
    }
}

fn copy_tool_calls(v: &Vec<ChatToolCall>) -> (r: Vec<ChatToolCall>)
    ensures
        r@ == v@,
{
    let mut out: Vec<ChatToolCall> = Vec::new();
    let mut i: usize = 0;
    while i < v.len()
        invariant
            i <= v@.len(),
            out@ == v@.take(i as int),
        decreases v.len() - i,
    {
        out.push(copy_tool_call(&v[i]));
        assert(out@ =~= v@.take(i + 1));
        i = i + 1;
    }
    assert(v@.take(v@.len() as int) =~= v@);
    out
}

/// A copy of each message of `v`.
pub(crate) fn copy_chat_messages(v: &Vec<ChatMessage>) -> (r: Vec<ChatMessage>)
    ensures
        chat_messages_view(r@) == chat_messages_view(v@),
{
    let mut out: Vec<ChatMessage> = Vec::new();
    let mut i: usize = 0;
    while i < v.len()
        invariant
            i <= v@.len(),
            chat_messages_view(out@) == chat_messages_view(v@.take(i as int)),
        decreases v.len() - i,
    {
        let m = copy_chat_message(&v[i]);
        let ghost before = out@;
        out.push(m);
        assert(chat_messages_view(out@) =~= chat_messages_view(before).push(chat_message_view(m)));
        assert(chat_messages_view(v@.take(i + 1)) =~= chat_messages_view(v@.take(i as int)).push(
            chat_message_view(v@[i as int]),
        ));
        i = i + 1;
    }
    assert(v@.take(v@.len() as int) =~= v@);
    out
}

fn copy_chat_message(m: &ChatMessage) -> (r: ChatMessage)
    ensures
        chat_message_view(r) == chat_message_view(*m),
{
    ChatMessage {
        role: m.role.clone(),
        content: m.content.clone(),
        name: copy_opt(&m.name),
        tool_call_id: copy_opt(&m.tool_call_id),
        tool_calls: match &m.tool_calls {
            Some(v) => Some(copy_tool_calls(v)),
            None => None,
        },
    }
}

/// The assistant message that asked for the tool calls `records`, when
/// there were any.
pub open spec fn call_request_entry(records: Seq<ChatToolCall>) -> Seq<ChatMessageView> {
    if records.len() > 0 {
        seq![("assistant"@, Seq::<char>::empty(), None, None, Some(records))]
    } else {
        seq![]
    }
}

impl SessionContext {
    /// The request that continues a turn after its tool calls: `base`, the
    /// request the turn was sent with, then the assistant message that
    /// asked for the calls (when there were any), then their results.
    pub fn continuation_request(&self, base: Vec<ChatMessage>) -> (r: Vec<ChatMessage>)
        ensures
            chat_messages_view(r@) == chat_messages_view(base@) + call_request_entry(
                self.tool_call_records@,
            ) + chat_messages_view(self.tool_results@),
    {
        let mut out = base;
        let ghost head = chat_messages_view(out@);
        if self.tool_call_records.len() > 0 {
            let m = ChatMessage {
                role: str_to_string("assistant"),
                content: String::new(),
                name: None,
                tool_call_id: None,
                tool_calls: Some(copy_tool_calls(&self.tool_call_records)),
            };
            out.push(m);
            proof {
                reveal_strlit("assistant");
            }
            assert(chat_messages_view(out@) =~= head + call_request_entry(self.tool_call_records@));
        } else {
            assert(chat_messages_view(out@) =~= head + call_request_entry(self.tool_call_records@));
        }
        let ghost mid = chat_messages_view(out@);
        let mut i: usize = 0;
        while i < self.tool_results.len()
            invariant
                i <= self.tool_results@.len(),
                chat_messages_view(out@) == mid + chat_messages_view(self.tool_results@.take(i as int)),
            decreases self.tool_results.len() - i,
        {
            let m = copy_chat_message(&self.tool_results[i]);
            let ghost before = out@;
            out.push(m);
            assert(chat_messages_view(out@) =~= chat_messages_view(before).push(chat_message_view(m)));
            assert(chat_messages_view(self.tool_results@.take(i + 1)) =~= chat_messages_view(
                self.tool_results@.take(i as int),
            ).push(chat_message_view(self.tool_results@[i as int])));
            i = i + 1;
        }
        assert(self.tool_results@.take(self.tool_results@.len() as int) =~= self.tool_results@);
        out
    }
}

} // verus!
