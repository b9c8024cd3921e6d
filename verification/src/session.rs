//! Session state: the provider and model in use, the active character, and
//! the records the tool-call pipeline keeps.

use vstd::prelude::*;
use std::collections::VecDeque;
use crate::json::JsonValue;
use crate::text::{is_blank, str_eq, trim_seq, push_str, str_to_string};

verus! {

/// A tool call as it streams in: id, tool name and raw argument text.
pub struct PendingToolCall {
    pub id: Option<String>,
    pub name: Option<String>,
    pub arguments: String,
}

/// Outcome of a tool call.
#[derive(Clone, Copy, Debug, PartialEq, Eq, Structural)]
pub enum ToolResultStatus {
    Success,
    Error,
    Denied,
    Blocked,
}

/// Why a failed tool call failed: the tool reported an error, or the call
/// itself could not be made.
#[derive(Clone, Copy, Debug, PartialEq, Eq, Structural)]
pub enum ToolFailureKind {
    ToolError,
    ToolCallFailure,
}

impl ToolFailureKind {
    pub open spec fn label_spec(self) -> Seq<char> {
        match self {
            ToolFailureKind::ToolError => "tool error"@,
            ToolFailureKind::ToolCallFailure => "tool call failure"@,
        }
    }

    /// Lowercase label used inside sentences.
    pub fn label(self) -> (r: &'static str)
        ensures
            r@ == self.label_spec(),
    {
        match self {
            ToolFailureKind::ToolError => "tool error",
            ToolFailureKind::ToolCallFailure => "tool call failure",
        }
    }

    /// Capitalised label used on its own.
    pub fn display(self) -> (r: &'static str)
        ensures
            self == ToolFailureKind::ToolError ==> r@ == "Tool error"@,
            self == ToolFailureKind::ToolCallFailure ==> r@ == "Tool call failure"@,
    {
        match self {
            ToolFailureKind::ToolError => "Tool error",
            ToolFailureKind::ToolCallFailure => "Tool call failure",
        }
    }
}

impl ToolResultStatus {
    pub open spec fn label_spec(self) -> Seq<char> {
        match self {
            ToolResultStatus::Success => "success"@,
            ToolResultStatus::Error => "failed"@,
            ToolResultStatus::Denied => "denied"@,
            ToolResultStatus::Blocked => "blocked"@,
        }
    }

    pub open spec fn display_spec(self) -> Seq<char> {
        match self {
            ToolResultStatus::Success => "Success"@,
            ToolResultStatus::Error => "Failed"@,
            ToolResultStatus::Denied => "Denied"@,
            ToolResultStatus::Blocked => "Blocked"@,
        }
    }

    /// Lowercase label used inside sentences.
    pub fn label(self) -> (r: &'static str)
        ensures
            r@ == self.label_spec(),
    {
        match self {
            ToolResultStatus::Success => "success",
            ToolResultStatus::Error => "failed",
            ToolResultStatus::Denied => "denied",
            ToolResultStatus::Blocked => "blocked",
        }
    }

    /// Capitalised label used on its own.
    pub fn display(self) -> (r: &'static str)
        ensures
            r@ == self.display_spec(),
    {
        match self {
            ToolResultStatus::Success => "Success",
            ToolResultStatus::Error => "Failed",
            ToolResultStatus::Denied => "Denied",
            ToolResultStatus::Blocked => "Blocked",
        }
    }
}

/// A finished tool call as the transcript and inspect view show it.
pub struct ToolResultRecord {
    pub tool_name: String,
    pub server_name: Option<String>,
    pub server_id: Option<String>,
    pub status: ToolResultStatus,
    pub failure_kind: Option<ToolFailureKind>,
    pub content: String,
    pub summary: String,
    pub tool_call_id: Option<String>,
    pub raw_arguments: Option<String>,
    pub assistant_message_index: Option<usize>,
}

/// The function part of a tool call sent to the model.
pub struct ChatToolCallFunction {
    pub name: String,
    pub arguments: String,
}

/// A tool call sent to the model.
pub struct ChatToolCall {
    pub id: String,
    pub kind: String,
    pub function: ChatToolCallFunction,
}

/// A message of the chat API.
pub struct ChatMessage {
    pub role: String,
    pub content: String,
    pub name: Option<String>,
    pub tool_call_id: Option<String>,
    pub tool_calls: Option<Vec<ChatToolCall>>,
}

/// A tool exchange kept so it can be replayed to the model later.
pub struct ToolPayloadHistoryEntry {
    pub server_id: Option<String>,
    pub tool_call_id: Option<String>,
    pub assistant_message: ChatMessage,
    pub tool_message: ChatMessage,
    pub assistant_message_index: Option<usize>,
}

/// A tool call ready to be run on an MCP server.
pub struct ToolCallRequest {
    pub server_id: String,
    pub tool_name: String,
    pub arguments: Option<Vec<(String, JsonValue)>>,
    pub raw_arguments: String,
    pub tool_call_id: Option<String>,
}

/// A prompt of an MCP server to run, with its arguments.
pub struct McpPromptRequest {
    pub server_id: String,
    pub prompt_name: String,
    pub arguments: Vec<(String, String)>,
}

/// The fields of a character card that the session reads.
#[derive(Clone, Debug)]
pub struct CharacterData {
    pub name: String,
    pub description: String,
    pub personality: String,
    pub scenario: String,
    pub first_mes: String,
    pub mes_example: String,
    pub system_prompt: Option<String>,
    pub creator_notes: Option<String>,
    pub post_history_instructions: Option<String>,
    pub alternate_greetings: Option<Vec<String>>,
    pub tags: Option<Vec<String>>,
    pub creator: Option<String>,
    pub character_version: Option<String>,
}

/// A character card.
#[derive(Clone, Debug)]
pub struct CharacterCard {
    pub spec: String,
    pub spec_version: String,
    pub data: CharacterData,
}

/// Runtime state of a chat session.
pub struct SessionContext {
    pub model: String,
    pub api_key: String,
    pub base_url: String,
    pub provider_name: String,
    pub provider_display_name: String,
    pub current_stream_id: u64,
    pub retrying_message_index: Option<usize>,
    pub is_refining: bool,
    pub original_refining_content: Option<String>,
    pub last_refine_prompt: Option<String>,
    pub refine_instructions: String,
    pub refine_prefix: String,
    pub startup_env_only: bool,
    pub mcp_disabled: bool,
    pub active_character: Option<CharacterCard>,
    pub character_greeting_shown: bool,
    pub has_received_assistant_message: bool,
    /// Tool calls of the reply being streamed, by their index, in
    /// increasing order of it.
    pub pending_tool_calls: Vec<(u32, PendingToolCall)>,
    pub mcp_init_in_progress: bool,
    pub mcp_init_complete: bool,
    pub pending_mcp_message: Option<String>,
    pub pending_tool_queue: VecDeque<ToolCallRequest>,
    pub active_tool_request: Option<ToolCallRequest>,
    pub tool_call_records: Vec<ChatToolCall>,
    pub tool_results: Vec<ChatMessage>,
    pub tool_result_history: Vec<ToolResultRecord>,
    pub tool_payload_history: Vec<ToolPayloadHistoryEntry>,
    pub active_assistant_message_index: Option<usize>,
    pub last_stream_api_messages: Option<Vec<ChatMessage>>,
    pub last_stream_api_messages_base: Option<Vec<ChatMessage>>,
    pub mcp_tools_enabled: bool,
    pub mcp_tools_unsupported: bool,
}

/// `after` equals `before` except for the character and its greeting flag.
pub open spec fn same_but_character(before: SessionContext, after: SessionContext) -> bool {
    after == SessionContext {
        active_character: after.active_character,
        character_greeting_shown: after.character_greeting_shown,
        ..before
    }
}

/// Whether a greeting is due: a character is active, its greeting has not
/// been shown, and its first message is not blank.
pub open spec fn greeting_due(s: SessionContext) -> bool {
    match s.active_character {
        Some(c) => !s.character_greeting_shown && trim_seq(c.data.first_mes@).len() > 0,
        None => false,
    }
}

impl SessionContext {
    /// A session with no provider or model chosen yet, nothing streamed and
    /// no tool activity.
    pub fn uninitialized(refine_instructions: String, refine_prefix: String) -> (r: Self)
        ensures
            r.model@.len() == 0,
            r.api_key@.len() == 0,
            r.base_url@.len() == 0,
            r.provider_name@.len() == 0,
            r.provider_display_name@ == "(no provider selected)"@,
            r.refine_instructions == refine_instructions,
            r.refine_prefix == refine_prefix,
            r.current_stream_id == 0,
            r.active_character is None,
            !r.character_greeting_shown,
            r.pending_tool_queue@.len() == 0,
            r.pending_tool_calls@.len() == 0,
            r.active_tool_request is None,
            r.tool_result_history@.len() == 0,
            r.tool_payload_history@.len() == 0,
            r.tool_call_records@.len() == 0,
            r.tool_results@.len() == 0,
            r.active_assistant_message_index is None,
            !r.mcp_tools_enabled,
            !r.mcp_tools_unsupported,
    {
        SessionContext {
            model: String::new(),
            api_key: String::new(),
            base_url: String::new(),
            provider_name: String::new(),
            provider_display_name: str_to_string("(no provider selected)"),
            current_stream_id: 0,
            retrying_message_index: None,
            is_refining: false,
            original_refining_content: None,
            last_refine_prompt: None,
            refine_instructions,
            refine_prefix,
            startup_env_only: false,
            mcp_disabled: false,
            active_character: None,
            character_greeting_shown: false,
            has_received_assistant_message: false,
            pending_tool_calls: Vec::new(),
            mcp_init_in_progress: false,
            mcp_init_complete: false,
            pending_mcp_message: None,
            pending_tool_queue: VecDeque::new(),
            active_tool_request: None,
            tool_call_records: Vec::new(),
            tool_results: Vec::new(),
            tool_result_history: Vec::new(),
            tool_payload_history: Vec::new(),
            active_assistant_message_index: None,
            last_stream_api_messages: None,
            last_stream_api_messages_base: None,
            mcp_tools_enabled: false,
            mcp_tools_unsupported: false,
        }
    }

    /// Makes `card` the active character. The greeting flag is reset unless
    /// the character of that name was already active.
    pub fn set_character(&mut self, card: CharacterCard)
        ensures
            same_but_character(*old(self), *final(self)),
            final(self).active_character == Some(card),
            final(self).character_greeting_shown == (old(self).character_greeting_shown && (
            old(self).active_character matches Some(c) && c.data.name@ == card.data.name@)),
    {
        let is_same_character = match &self.active_character {
            Some(current) => str_eq(current.data.name.as_str(), card.data.name.as_str()),
            None => false,
        };
        self.active_character = Some(card);
        if !is_same_character {
            self.character_greeting_shown = false;
        }
    }

    /// Leaves character mode.
    pub fn clear_character(&mut self)
        ensures
            same_but_character(*old(self), *final(self)),
            final(self).active_character is None,
            !final(self).character_greeting_shown,
    {
        self.active_character = None;
        self.character_greeting_shown = false;
    }

    /// The active character.
    pub fn get_character(&self) -> (r: Option<&CharacterCard>)
        ensures
            r is Some == self.active_character is Some,
            r matches Some(c) ==> *c == self.active_character->0,
    {
        self.active_character.as_ref()
    }

    /// Whether the character greeting should be shown now.
    pub fn should_show_greeting(&self) -> (r: bool)
        ensures
            r == greeting_due(*self),
    {
        match &self.active_character {
            Some(character) => !self.character_greeting_shown && !is_blank(
                character.data.first_mes.as_str(),
            ),
            None => false,
        }
    }

    /// Records that the greeting has been shown.
    pub fn mark_greeting_shown(&mut self)
        ensures
            same_but_character(*old(self), *final(self)),
            final(self).active_character == old(self).active_character,
            final(self).character_greeting_shown,
    {
        self.character_greeting_shown = true;
    }
}

/// Once shown, a greeting is not due again until another character is set
/// or the character is cleared and set again.
pub proof fn lemma_greeting_not_due_after_mark(s: SessionContext)
    requires
        s.character_greeting_shown,
    ensures
        !greeting_due(s),
{
}

/// Setting the character that is already active (by name) keeps the
/// greeting flag; setting a different one makes a non-blank greeting due.
pub proof fn lemma_set_character_greeting(
    before: SessionContext,
    after: SessionContext,
    card: CharacterCard,
)
    requires
        after.active_character == Some(card),
        after.character_greeting_shown == (before.character_greeting_shown && (
        before.active_character matches Some(c) && c.data.name@ == card.data.name@)),
    ensures
        (before.active_character matches Some(c) && c.data.name@ == card.data.name@)
            ==> after.character_greeting_shown == before.character_greeting_shown,
        !(before.active_character matches Some(c) && c.data.name@ == card.data.name@)
            ==> (greeting_due(after) == (trim_seq(card.data.first_mes@).len() > 0)),
{
}

// ---------------------------------------------------------------------------
// Pruning tool records
// ---------------------------------------------------------------------------

/// Which assistant message indices a prune removes.
pub enum PruneRule {
    /// Exactly this index.
    At(usize),
    /// This index and every later one.
    From(usize),
}

pub open spec fn prune_hits(rule: PruneRule, idx: usize) -> bool {
    match rule {
        PruneRule::At(i) => idx == i,
        PruneRule::From(i) => idx >= i,
    }
}

/// Whether a record tied to `idx` survives a prune.
pub open spec fn survives(rule: PruneRule, idx: Option<usize>) -> bool {
    match idx {
        Some(i) => !prune_hits(rule, i),
        None => true,
    }
}

pub open spec fn kept_records(rule: PruneRule, s: Seq<ToolResultRecord>) -> Seq<ToolResultRecord>
    decreases s.len(),
{
    if s.len() == 0 {
        seq![]
    } else if survives(rule, s.last().assistant_message_index) {
        kept_records(rule, s.drop_last()).push(s.last())
    } else {
        kept_records(rule, s.drop_last())
    }
}

pub open spec fn kept_payloads(rule: PruneRule, s: Seq<ToolPayloadHistoryEntry>) -> Seq<
    ToolPayloadHistoryEntry,
>
    decreases s.len(),
{
    if s.len() == 0 {
        seq![]
    } else if survives(rule, s.last().assistant_message_index) {
        kept_payloads(rule, s.drop_last()).push(s.last())
    } else {
        kept_payloads(rule, s.drop_last())
    }
}

fn prune_hits_exec(rule: &PruneRule, idx: usize) -> (r: bool)
    ensures
        r == prune_hits(*rule, idx),
{
    match rule {
        PruneRule::At(i) => idx == *i,
        PruneRule::From(i) => idx >= *i,
    }
}

fn survives_exec(rule: &PruneRule, idx: Option<usize>) -> (r: bool)
    ensures
        r == survives(*rule, idx),
{
    match idx {
        Some(i) => !prune_hits_exec(rule, i),
        None => true,
    }
}

/// `after` is `before` with the tool records of pruned assistant messages
/// dropped (records tied to no message stay) and the active assistant index
/// cleared when it is pruned.
pub open spec fn pruned(rule: PruneRule, before: SessionContext, after: SessionContext) -> bool {
    after == SessionContext {
        tool_result_history: after.tool_result_history,
        tool_payload_history: after.tool_payload_history,
        active_assistant_message_index: after.active_assistant_message_index,
        ..before
    } && after.tool_result_history@ == kept_records(rule, before.tool_result_history@)
        && after.tool_payload_history@ == kept_payloads(rule, before.tool_payload_history@)
        && after.active_assistant_message_index == match before.active_assistant_message_index {
        Some(i) => if prune_hits(rule, i) {
            None
        } else {
            Some(i)
        },
        None => None,
    }
}

impl SessionContext {
    fn prune_tool_records(&mut self, rule: PruneRule)
        ensures
            pruned(rule, *old(self), *final(self)),
    {
        let mut records: Vec<ToolResultRecord> = Vec::new();
        std::mem::swap(&mut records, &mut self.tool_result_history);
        let ghost rin = records@;
        let mut kept: Vec<ToolResultRecord> = Vec::new();
        let n = records.len();
        let mut i: usize = 0;
        assert(rin.take(0) =~= Seq::<ToolResultRecord>::empty());
        assert(rin.subrange(0, n as int) =~= rin);
        while i < n
            invariant
                n == rin.len(),
                i <= n,
                records@ =~= rin.subrange(i as int, n as int),
                kept@ == kept_records(rule, rin.take(i as int)),
            decreases n - i,
        {
            let r = records.remove(0);
            assert(records@ =~= rin.subrange(i + 1, n as int));
            let ghost q = rin.take(i + 1);
            assert(q.drop_last() =~= rin.take(i as int));
            assert(q.last() == r);
            if survives_exec(&rule, r.assistant_message_index) {
                kept.push(r);
            }
            i = i + 1;
        }
        assert(rin.take(n as int) =~= rin);
        self.tool_result_history = kept;

        let mut payloads: Vec<ToolPayloadHistoryEntry> = Vec::new();
        std::mem::swap(&mut payloads, &mut self.tool_payload_history);
        let ghost pin = payloads@;
        let mut kept_p: Vec<ToolPayloadHistoryEntry> = Vec::new();
        let m = payloads.len();
        let mut j: usize = 0;
        assert(pin.take(0) =~= Seq::<ToolPayloadHistoryEntry>::empty());
        assert(pin.subrange(0, m as int) =~= pin);
        while j < m
            invariant
                m == pin.len(),
                j <= m,
                payloads@ =~= pin.subrange(j as int, m as int),
                kept_p@ == kept_payloads(rule, pin.take(j as int)),
            decreases m - j,
        {
            let e = payloads.remove(0);
            assert(payloads@ =~= pin.subrange(j + 1, m as int));
            let ghost q = pin.take(j + 1);
            assert(q.drop_last() =~= pin.take(j as int));
            assert(q.last() == e);
            if survives_exec(&rule, e.assistant_message_index) {
                kept_p.push(e);
            }
            j = j + 1;
        }
        assert(pin.take(m as int) =~= pin);
        self.tool_payload_history = kept_p;

        if let Some(active) = self.active_assistant_message_index {
            if prune_hits_exec(&rule, active) {
                self.active_assistant_message_index = None;
            }
        }
    }

    /// Drops the tool records of assistant message `index`.
    pub fn prune_tool_records_for_assistant_index(&mut self, index: usize)
        ensures
            pruned(PruneRule::At(index), *old(self), *final(self)),
    {
        self.prune_tool_records(PruneRule::At(index));
    }

    /// Drops the tool records of assistant message `start_index` and of every
    /// later message.
    pub fn prune_tool_records_from_index(&mut self, start_index: usize)
        ensures
            pruned(PruneRule::From(start_index), *old(self), *final(self)),
    {
        self.prune_tool_records(PruneRule::From(start_index));
    }
}

/// After a prune, no remaining record is tied to a pruned message.
pub proof fn lemma_pruned_records_survive(rule: PruneRule, s: Seq<ToolResultRecord>)
    ensures
        forall|k: int|
            0 <= k < kept_records(rule, s).len() ==> survives(
                rule,
                (#[trigger] kept_records(rule, s)[k]).assistant_message_index,
            ),
        kept_records(rule, s).len() <= s.len(),
    decreases s.len(),
{
    if s.len() > 0 {
        lemma_pruned_records_survive(rule, s.drop_last());
        let d = kept_records(rule, s.drop_last());
        if survives(rule, s.last().assistant_message_index) {
            assert forall|k: int| 0 <= k < d.push(s.last()).len() implies survives(
                rule,
                (#[trigger] d.push(s.last())[k]).assistant_message_index,
            ) by {
                if k < d.len() {
                    assert(d.push(s.last())[k] == d[k]);
                }
            }
        }
    }
}

// ---------------------------------------------------------------------------
// The character a session starts with
// ---------------------------------------------------------------------------

/// The character a session starts with, and what went wrong on the way.
pub struct CharacterLoadOutcome {
    pub character: Option<CharacterCard>,
    pub errors: Vec<String>,
}

/// The message when the default character could not be loaded.
pub open spec fn default_load_error(
    configured: Option<Seq<char>>,
    provider: Seq<char>,
    model: Seq<char>,
    err: Seq<char>,
) -> Seq<char> {
    match configured {
        Some(d) => "Failed to load default character '"@ + d + "' for "@ + provider + ":"@ + model
            + ": "@ + err,
        None => "Failed to load default character for "@ + provider + ":"@ + model + ": "@ + err,
    }
}

/// The character a session starts with: the one named on the command line
/// (whose loading failure is the error), else the default for the provider
/// and model, else none. `cli_character` is what resolving the name given on
/// the command line gave, if one was given; `default_character` is what
/// loading the default gave, consulted only without one; `configured` names
/// the default in the configuration. A default that fails to load leaves no
/// character and one error message.
pub fn load_character_for_session(
    cli_character: Option<Result<CharacterCard, String>>,
    default_character: Result<Option<CharacterCard>, String>,
    configured: Option<&str>,
    provider: &str,
    model: &str,
) -> (r: Result<CharacterLoadOutcome, String>)
    ensures
        match cli_character {
            Some(Ok(card)) => r matches Ok(o) && o.character == Some(card) && o.errors@.len() == 0,
            Some(Err(e)) => r == Err::<CharacterLoadOutcome, String>(e),
            None => r matches Ok(o) && match default_character {
                Ok(c) => o.character == c && o.errors@.len() == 0,
                Err(err) => o.character is None && o.errors@.len() == 1 && o.errors@[0]@
                    == default_load_error(
                    match configured {
                        Some(d) => Some(d@),
                        None => None,
                    },
                    provider@,
                    model@,
                    err@,
                ),
            },
        },
{
    match cli_character {
        Some(Ok(card)) => {
            return Ok(CharacterLoadOutcome { character: Some(card), errors: Vec::new() });
        },
        Some(Err(e)) => {
            return Err(e);
        },
        None => {},
    }
    match default_character {
        Ok(c) => Ok(CharacterLoadOutcome { character: c, errors: Vec::new() }),
        Err(err) => {
            let mut message = match configured {
                Some(d) => {
                    let mut m = crate::text::concat3("Failed to load default character '", d, "' for ");
                    push_str(&mut m, provider);
                    m
                },
                None => crate::text::concat2("Failed to load default character for ", provider),
            };
            push_str(&mut message, ":");
            push_str(&mut message, model);
            push_str(&mut message, ": ");
            push_str(&mut message, err.as_str());
            let mut errors: Vec<String> = Vec::new();
            errors.push(message);
            Ok(CharacterLoadOutcome { character: None, errors })
        },
    }
}

/// Credentials and endpoint of the provider a session talks to.
pub struct ProviderSession {
    pub api_key: String,
    pub base_url: String,
    pub provider_id: String,
    pub provider_display_name: String,
}

/// What a caller asks of a new authenticated session.
pub struct AppInitConfig {
    pub model: String,
    pub log_file: Option<String>,
    pub provider: Option<String>,
    pub env_only: bool,
    pub pre_resolved_session: Option<ProviderSession>,
    pub character: Option<String>,
    pub persona: Option<String>,
    pub preset: Option<String>,
}

/// The model a session starts with: the one asked for, unless that is the
/// word `default`, in which case the provider's configured default, or no
/// model at all when none is configured.
pub open spec fn session_model_spec(requested: Seq<char>, configured_default: Option<Seq<char>>) -> Seq<char> {
    if requested != "default"@ {
        requested
    } else {
        match configured_default {
            Some(m) => m,
            None => Seq::empty(),
        }
    }
}

/// Picks the model a session starts with (see [`session_model_spec`]).
pub fn session_model(requested: String, configured_default: Option<String>) -> (r: String)
    ensures
        r@ == session_model_spec(requested@, match configured_default {
            Some(m) => Some(m@),
            None => None,
        }),
{
    proof {
        reveal_strlit("default");
    }
    if !str_eq(requested.as_str(), "default") {
        requested
    } else {
        match configured_default {
            Some(m) => m,
            None => String::new(),
        }
    }
}

impl SessionContext {
    /// A session bound to a resolved provider: its credentials and names are
    /// taken over, the model is chosen by [`session_model`], and nothing has
    /// streamed and no tool has run yet.
    pub fn with_provider(
        provider: ProviderSession,
        requested_model: String,
        configured_default: Option<String>,
        refine_instructions: String,
        refine_prefix: String,
        active_character: Option<CharacterCard>,
    ) -> (r: Self)
        ensures
            r.model@ == session_model_spec(requested_model@, match configured_default {
                Some(m) => Some(m@),
                None => None,
            }),
            r.api_key == provider.api_key,
            r.base_url == provider.base_url,
            r.provider_name == provider.provider_id,
            r.provider_display_name == provider.provider_display_name,
            r.refine_instructions == refine_instructions,
            r.refine_prefix == refine_prefix,
            r.active_character == active_character,
            !r.character_greeting_shown,
            !r.startup_env_only,
            !r.mcp_disabled,
            r.current_stream_id == 0,
            r.retrying_message_index is None,
            !r.is_refining,
            r.pending_tool_queue@.len() == 0,
            r.pending_tool_calls@.len() == 0,
            r.active_tool_request is None,
            r.tool_result_history@.len() == 0,
            r.tool_payload_history@.len() == 0,
            r.tool_call_records@.len() == 0,
            r.tool_results@.len() == 0,
            r.active_assistant_message_index is None,
            !r.mcp_tools_enabled,
            !r.mcp_tools_unsupported,
    {
        let model = session_model(requested_model, configured_default);
        SessionContext {
            model,
            api_key: provider.api_key,
            base_url: provider.base_url,
            provider_name: provider.provider_id,
            provider_display_name: provider.provider_display_name,
            current_stream_id: 0,
            retrying_message_index: None,
            is_refining: false,
            original_refining_content: None,
            last_refine_prompt: None,
            refine_instructions,
            refine_prefix,
            startup_env_only: false,
            mcp_disabled: false,
            active_character,
            character_greeting_shown: false,
            has_received_assistant_message: false,
            pending_tool_calls: Vec::new(),
            mcp_init_in_progress: false,
            mcp_init_complete: false,
            pending_mcp_message: None,
            pending_tool_queue: VecDeque::new(),
            active_tool_request: None,
            tool_call_records: Vec::new(),
            tool_results: Vec::new(),
            tool_result_history: Vec::new(),
            tool_payload_history: Vec::new(),
            active_assistant_message_index: None,
            last_stream_api_messages: None,
            last_stream_api_messages_base: None,
            mcp_tools_enabled: false,
            mcp_tools_unsupported: false,
        }
    }
}

// ---------------------------------------------------------------------------
// Tool calls streamed in pieces
// ---------------------------------------------------------------------------

/// A piece of a tool call as the stream delivers it: the call's index and
/// whatever part of its id, name and arguments this piece carries.
pub struct ToolCallDelta {
    pub index: u32,
    pub id: Option<String>,
    pub name: Option<String>,
    pub arguments: Option<String>,
}

/// A pending call as plain values: id, name and argument text.
pub type CallView = (Option<Seq<char>>, Option<Seq<char>>, Seq<char>);

pub open spec fn opt_text(s: Option<String>) -> Option<Seq<char>> {
    match s {
        Some(v) => Some(v@),
        None => None,
    }
}

pub open spec fn call_view(c: PendingToolCall) -> CallView {
    (opt_text(c.id), opt_text(c.name), c.arguments@)
}

pub open spec fn calls_view(p: Seq<(u32, PendingToolCall)>) -> Seq<(u32, CallView)> {
    p.map_values(|e: (u32, PendingToolCall)| (e.0, call_view(e.1)))
}

/// A call after a piece of it arrived: a new id or name replaces the old
/// one, new argument text is appended.
pub open spec fn merged_view(v: CallView, d: ToolCallDelta) -> CallView {
    (
        match d.id {
            Some(i) => Some(i@),
            None => v.0,
        },
        match d.name {
            Some(n) => Some(n@),
            None => v.1,
        },
        match d.arguments {
            Some(a) => v.2 + a@,
            None => v.2,
        },
    )
}

pub open spec fn empty_call_view() -> CallView {
    (None, None, Seq::empty())
}

/// The pending calls after piece `d` arrived: merged into the call with its
/// index, or a new call at the place its index takes among the others.
pub open spec fn with_delta(p: Seq<(u32, CallView)>, d: ToolCallDelta) -> Seq<(u32, CallView)>
    decreases p.len(),
{
    if p.len() == 0 {
        seq![(d.index, merged_view(empty_call_view(), d))]
    } else if p[0].0 == d.index {
        seq![(d.index, merged_view(p[0].1, d))] + p.drop_first()
    } else if p[0].0 > d.index {
        seq![(d.index, merged_view(empty_call_view(), d))] + p
    } else {
        seq![p[0]] + with_delta(p.drop_first(), d)
    }
}

/// Indices of the pending calls increase strictly.
pub open spec fn keys_increasing(p: Seq<(u32, PendingToolCall)>) -> bool {
    forall|i: int, j: int| 0 <= i < j < p.len() ==> p[i].0 < p[j].0
}

proof fn lemma_with_delta_prefix(p: Seq<(u32, CallView)>, d: ToolCallDelta, i: int)
    requires
        0 <= i <= p.len(),
        forall|j: int| 0 <= j < i ==> (#[trigger] p[j]).0 < d.index,
    ensures
        with_delta(p, d) == p.take(i) + with_delta(p.skip(i), d),
    decreases i,
{
    if i == 0 {
        assert(p.take(0) + with_delta(p.skip(0), d) =~= with_delta(p, d)) by {
            assert(p.skip(0) =~= p);
        }
    } else {
        let q = p.drop_first();
        assert forall|j: int| 0 <= j < i - 1 implies (#[trigger] q[j]).0 < d.index by {
            assert(q[j] == p[j + 1]);
        }
        lemma_with_delta_prefix(q, d, i - 1);
        assert(p[0].0 < d.index);
        assert(q.skip(i - 1) =~= p.skip(i));
        assert(seq![p[0]] + q.take(i - 1) =~= p.take(i));
        assert(with_delta(p, d) == seq![p[0]] + with_delta(q, d));
        assert(seq![p[0]] + (q.take(i - 1) + with_delta(q.skip(i - 1), d)) =~= p.take(i) + with_delta(
            p.skip(i),
            d,
        ));
    }
}

fn merge_call(c: &PendingToolCall, d: &ToolCallDelta) -> (r: PendingToolCall)
    ensures
        call_view(r) == merged_view(call_view(*c), *d),
{
    let id = match &d.id {
        Some(i) => Some(i.clone()),
        None => match &c.id {
            Some(i) => Some(i.clone()),
            None => None,
        },
    };
    let name = match &d.name {
        Some(n) => Some(n.clone()),
        None => match &c.name {
            Some(n) => Some(n.clone()),
            None => None,
        },
    };
    let mut arguments = c.arguments.clone();
    if let Some(a) = &d.arguments {
        push_str(&mut arguments, a.as_str());
    }
    PendingToolCall { id, name, arguments }
}

impl SessionContext {
    /// Merges a streamed piece of a tool call into the pending calls (see
    /// [`with_delta`]); their indices keep increasing.
    pub fn append_tool_call_delta(&mut self, delta: ToolCallDelta)
        ensures
            calls_view(final(self).pending_tool_calls@) == with_delta(
                calls_view(old(self).pending_tool_calls@),
                delta,
            ),
            keys_increasing(old(self).pending_tool_calls@) ==> keys_increasing(
                final(self).pending_tool_calls@,
            ),
            *final(self) == (SessionContext {
                pending_tool_calls: final(self).pending_tool_calls,
                ..*old(self)
            }),
    {
        let ghost p = self.pending_tool_calls@;
        let n = self.pending_tool_calls.len();
        let mut i: usize = 0;
        while i < n
            invariant
                n == p.len(),
                self.pending_tool_calls@ == p,
                i <= n,
                forall|j: int| 0 <= j < i ==> (#[trigger] p[j]).0 < delta.index,
            ensures
                self.pending_tool_calls@ == p,
                i <= n,
                forall|j: int| 0 <= j < i ==> (#[trigger] p[j]).0 < delta.index,
                i < n ==> p[i as int].0 >= delta.index,
            decreases n - i,
        {
            if self.pending_tool_calls[i].0 >= delta.index {
                break;
            }
            i = i + 1;
        }
        let ghost pv = calls_view(p);
        assert forall|j: int| 0 <= j < i implies (#[trigger] pv[j]).0 < delta.index by {
            assert(pv[j].0 == p[j].0);
        }
        proof {
            lemma_with_delta_prefix(pv, delta, i as int);
        }
        if i < n && self.pending_tool_calls[i].0 == delta.index {
            let merged = merge_call(&self.pending_tool_calls[i].1, &delta);
            self.pending_tool_calls[i] = (delta.index, merged);
            proof {
                lemma_delta_update(p, delta, i as int, merged);
            }
        } else {
            let fresh = merge_call(
                &PendingToolCall { id: None, name: None, arguments: String::new() },
                &delta,
            );
            self.pending_tool_calls.insert(i, (delta.index, fresh));
            proof {
                lemma_delta_insert(p, delta, i as int, fresh);
            }
        }
    }
}

proof fn lemma_delta_update(p: Seq<(u32, PendingToolCall)>, d: ToolCallDelta, i: int, merged: PendingToolCall)
    requires
        0 <= i < p.len(),
        p[i].0 == d.index,
        call_view(merged) == merged_view(call_view(p[i].1), d),
        with_delta(calls_view(p), d) == calls_view(p).take(i) + with_delta(calls_view(p).skip(i), d),
    ensures
        calls_view(p.update(i, (d.index, merged))) == with_delta(calls_view(p), d),
        keys_increasing(p) ==> keys_increasing(p.update(i, (d.index, merged))),
{
    let pv = calls_view(p);
    assert(pv.skip(i)[0] == pv[i]);
    assert(pv.skip(i).drop_first() =~= pv.skip(i + 1));
    assert(calls_view(p.update(i, (d.index, merged))) =~= pv.take(i) + (seq![
        (d.index, merged_view(pv[i].1, d)),
    ] + pv.skip(i + 1)));
}

proof fn lemma_delta_insert(p: Seq<(u32, PendingToolCall)>, d: ToolCallDelta, i: int, fresh: PendingToolCall)
    requires
        0 <= i <= p.len(),
        forall|j: int| 0 <= j < i ==> (#[trigger] p[j]).0 < d.index,
        i < p.len() ==> p[i].0 > d.index,
        call_view(fresh) == merged_view(empty_call_view(), d),
        with_delta(calls_view(p), d) == calls_view(p).take(i) + with_delta(calls_view(p).skip(i), d),
    ensures
        calls_view(p.insert(i, (d.index, fresh))) == with_delta(calls_view(p), d),
        keys_increasing(p) ==> keys_increasing(p.insert(i, (d.index, fresh))),
{
    let pv = calls_view(p);
    if i < p.len() {
        assert(pv.skip(i)[0] == pv[i]);
    } else {
        assert(pv.skip(i) =~= Seq::<(u32, CallView)>::empty());
    }
    assert(calls_view(p.insert(i, (d.index, fresh))) =~= pv.take(i) + (seq![
        (d.index, merged_view(empty_call_view(), d)),
    ] + pv.skip(i)));
    if keys_increasing(p) {
        let q = p.insert(i, (d.index, fresh));
        assert forall|a: int, b: int| 0 <= a < b < q.len() implies q[a].0 < q[b].0 by {
            if b < i {
                assert(q[a] == p[a] && q[b] == p[b]);
            } else if a < i && b == i {
                assert(q[a] == p[a]);
            } else if a < i && b > i {
                assert(q[a] == p[a] && q[b] == p[b - 1]);
            } else if a == i {
                assert(q[b] == p[b - 1]);
                assert(p[i].0 <= p[b - 1].0);
            } else {
                assert(q[a] == p[a - 1] && q[b] == p[b - 1]);
            }
        }
    }
}

} // verus!
