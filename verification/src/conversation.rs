//! The chat transcript: the messages shown to the user, the request sent to
//! the model for a new turn, and the bookkeeping of retries and refinements.

use vstd::prelude::*;
use crate::session::{ChatMessage, SessionContext, PruneRule, kept_records, kept_payloads};
use crate::actions::UiMode;
use crate::text::{is_blank, str_to_string, trim_seq, push_str, str_is_empty};
use crate::tool_flow::{opt_view, arguments_summary, summarize_tool_call_arguments};
use crate::session::PendingToolCall;
use crate::json::json_read;
use crate::mcp_servers::{eq_ci, is_instant_recall_tool, MCP_INSTANT_RECALL_TOOL};
use crate::text::trim;

verus! {

/// The kind of a message that the application itself adds to the transcript.
#[derive(Clone, Copy, Debug, PartialEq, Eq, Structural)]
pub enum AppMessageKind {
    Info,
    Warning,
    Error,
    Log,
}

/// Who a transcript message comes from.
#[derive(Clone, Copy, Debug, PartialEq, Eq, Hash, Structural)]
pub enum TranscriptRole {
    User,
    Assistant,
    AppInfo,
    AppWarning,
    AppError,
    AppLog,
    ToolCall,
    ToolResult,
}

/// One entry of the transcript.
pub struct Message {
    pub role: TranscriptRole,
    pub content: String,
}

/// The transcript role of an application message of kind `kind`.
pub open spec fn app_role(kind: AppMessageKind) -> TranscriptRole {
    match kind {
        AppMessageKind::Info => TranscriptRole::AppInfo,
        AppMessageKind::Warning => TranscriptRole::AppWarning,
        AppMessageKind::Error => TranscriptRole::AppError,
        AppMessageKind::Log => TranscriptRole::AppLog,
    }
}

impl Message {
    pub fn new(role: TranscriptRole, content: String) -> (r: Message)
        ensures
            r.role == role,
            r.content == content,
    {
        Message { role, content }
    }

    /// A message the application adds, of kind `kind`.
    pub fn app(kind: AppMessageKind, content: String) -> (r: Message)
        ensures
            r.role == app_role(kind),
            r.content == content,
    {
        let role = match kind {
            AppMessageKind::Info => TranscriptRole::AppInfo,
            AppMessageKind::Warning => TranscriptRole::AppWarning,
            AppMessageKind::Error => TranscriptRole::AppError,
            AppMessageKind::Log => TranscriptRole::AppLog,
        };
        Message { role, content }
    }

    pub fn tool_call(content: String) -> (r: Message)
        ensures
            r.role == TranscriptRole::ToolCall,
            r.content == content,
    {
        Message { role: TranscriptRole::ToolCall, content }
    }

    pub fn tool_result(content: String) -> (r: Message)
        ensures
            r.role == TranscriptRole::ToolResult,
            r.content == content,
    {
        Message { role: TranscriptRole::ToolResult, content }
    }

    pub fn is_user(&self) -> (r: bool)
        ensures
            r == (self.role == TranscriptRole::User),
    {
        match self.role {
            TranscriptRole::User => true,
            _ => false,
        }
    }

    pub fn is_assistant(&self) -> (r: bool)
        ensures
            r == (self.role == TranscriptRole::Assistant),
    {
        match self.role {
            TranscriptRole::Assistant => true,
            _ => false,
        }
    }
}

fn copy_message(m: &Message) -> (r: Message)
    ensures
        r == *m,
{
    Message { role: m.role, content: m.content.clone() }
}

/// Whether a text holds nothing but whitespace.
pub open spec fn blank(s: Seq<char>) -> bool {
    trim_seq(s).len() == 0
}

/// A role and a content, as the chat API receives them.
pub type WireEntry = (Seq<char>, Seq<char>);

/// The entries of the API request that a transcript yields: user messages,
/// and assistant messages that are not blank, in order; every other message
/// (the application's own, tool calls and results) stays local.
pub open spec fn history_wire(h: Seq<Message>) -> Seq<WireEntry>
    decreases h.len(),
{
    if h.len() == 0 {
        seq![]
    } else {
        let rest = history_wire(h.drop_last());
        let m = h.last();
        if m.role == TranscriptRole::User {
            rest.push(("user"@, m.content@))
        } else if m.role == TranscriptRole::Assistant && !blank(m.content@) {
            rest.push(("assistant"@, m.content@))
        } else {
            rest
        }
    }
}

/// The system prompt of a request: the base prompt, followed by the
/// additional instructions after a blank line when both are present.
pub open spec fn system_text(base: Seq<char>, additional: Option<Seq<char>>) -> Seq<char> {
    match additional {
        None => base,
        Some(a) => if base.len() > 0 {
            base + "\n\n"@ + a
        } else {
            a
        },
    }
}

/// The whole request: the system prompt when it is not empty, the history,
/// and the post-history instructions when they are not blank.
pub open spec fn api_wire(
    h: Seq<Message>,
    base: Seq<char>,
    additional: Option<Seq<char>>,
    post: Option<Seq<char>>,
) -> Seq<WireEntry> {
    let sys = system_text(base, additional);
    let head: Seq<WireEntry> = if sys.len() > 0 {
        seq![("system"@, sys)]
    } else {
        seq![]
    };
    let tail: Seq<WireEntry> = match post {
        Some(p) => if !blank(p) {
            seq![("system"@, p)]
        } else {
            seq![]
        },
        None => seq![],
    };
    head + history_wire(h) + tail
}

/// The role and content of each API message.
pub open spec fn wire(r: Seq<ChatMessage>) -> Seq<WireEntry> {
    r.map_values(|m: ChatMessage| (m.role@, m.content@))
}

/// No API message carries a name, a tool call id or tool calls.
pub open spec fn plain(r: Seq<ChatMessage>) -> bool {
    forall|i: int|
        0 <= i < r.len() ==> (#[trigger] r[i]).name is None && r[i].tool_call_id is None
            && r[i].tool_calls is None
}

fn plain_message(role: &str, content: String) -> (r: ChatMessage)
    ensures
        r.role@ == role@,
        r.content == content,
        r.name is None,
        r.tool_call_id is None,
        r.tool_calls is None,
{
    ChatMessage {
        role: str_to_string(role),
        content,
        name: None,
        tool_call_id: None,
        tool_calls: None,
    }
}

fn push_plain(out: &mut Vec<ChatMessage>, role: &str, content: String)
    requires
        plain(old(out)@),
    ensures
        plain(final(out)@),
        wire(final(out)@) == wire(old(out)@).push((role@, content@)),
{
    let m = plain_message(role, content);
    let ghost before = out@;
    out.push(m);
    assert(wire(out@) =~= wire(before).push((role@, m.content@)));
}

/// The request for the first `count` messages of `history` (all of them when
/// there are fewer), with `system_prompt` extended by `additional` and the
/// post-history instructions `post_history` at the end.
pub fn api_messages_for(
    history: &Vec<Message>,
    count: usize,
    system_prompt: &str,
    additional: Option<String>,
    post_history: &Option<String>,
) -> (r: Vec<ChatMessage>)
    ensures
        wire(r@) == api_wire(
            history@.take(if count <= history@.len() { count as int } else { history@.len() as int }),
            system_prompt@,
            opt_view(additional),
            opt_view(*post_history),
        ),
        plain(r@),
{
    let ghost add = opt_view(additional);
    let mut out: Vec<ChatMessage> = Vec::new();
    let mut sys = str_to_string(system_prompt);
    match additional {
        Some(a) => {
            if !str_is_empty(sys.as_str()) {
                push_str(&mut sys, "\n\n");
                proof {
                    reveal_strlit("\n\n");
                }
            }
            push_str(&mut sys, a.as_str());
        },
        None => {},
    }
    assert(sys@ == system_text(system_prompt@, add));
    if !str_is_empty(sys.as_str()) {
        push_plain(&mut out, "system", sys);
    }
    proof {
        reveal_strlit("system");
        reveal_strlit("user");
        reveal_strlit("assistant");
    }
    let ghost head = wire(out@);
    let n: usize = if count <= history.len() {
        count
    } else {
        history.len()
    };
    let ghost h = history@.take(n as int);
    let mut i: usize = 0;
    while i < n
        invariant
            n <= history@.len(),
            h == history@.take(n as int),
            i <= n,
            plain(out@),
            wire(out@) == head + history_wire(h.take(i as int)),
        decreases n - i,
    {
        let m = &history[i];
        assert(h.take(i + 1).drop_last() =~= h.take(i as int));
        assert(h.take(i + 1).last() == *m);
        if m.is_user() {
            push_plain(&mut out, "user", m.content.clone());
            assert(head + history_wire(h.take(i + 1)) =~= (head + history_wire(
                h.take(i as int),
            )).push(("user"@, m.content@)));
        } else if m.is_assistant() && !is_blank(m.content.as_str()) {
            push_plain(&mut out, "assistant", m.content.clone());
            assert(head + history_wire(h.take(i + 1)) =~= (head + history_wire(
                h.take(i as int),
            )).push(("assistant"@, m.content@)));
        }
        i = i + 1;
    }
    assert(h.take(n as int) =~= h);
    let ghost mid = wire(out@);
    match post_history {
        Some(p) => {
            if !is_blank(p.as_str()) {
                push_plain(&mut out, "system", p.clone());
            }
        },
        None => {},
    }
    assert(wire(out@) =~= api_wire(h, system_prompt@, add, opt_view(*post_history)));
    out
}

/// Where the transcript view should scroll after an operation.
#[derive(Clone, Copy, Debug, PartialEq, Eq, Structural)]
pub enum ScrollTarget {
    /// Leave the view where it is.
    Keep,
    /// The top of the transcript.
    Top,
    /// Bring the message at this index into view.
    Message(usize),
}

/// The screen state the conversation and the input area work on.
pub struct UiState {
    pub messages: Vec<Message>,
    pub current_response: String,
    pub status: Option<String>,
    pub auto_scroll: bool,
    pub scroll_target: ScrollTarget,
    /// The first transcript line shown.
    pub scroll_offset: u16,
    /// What the input area is doing.
    pub mode: UiMode,
    /// Whether Enter inserts a line break instead of sending.
    pub compose_mode: bool,
    /// The text of the input area.
    pub input: String,
    /// The cursor in the input text, in characters.
    pub input_cursor_position: usize,
    /// The first input line shown.
    pub input_scroll_offset: u16,
}

/// `after` keeps the input area of `before`: mode, text, cursor and scroll.
pub open spec fn same_input_state(before: UiState, after: UiState) -> bool {
    &&& after.mode == before.mode
    &&& after.compose_mode == before.compose_mode
    &&& after.input == before.input
    &&& after.input_cursor_position == before.input_cursor_position
    &&& after.input_scroll_offset == before.input_scroll_offset
}

/// Texts the active character and persona contribute to a request: the
/// system prompt (already adapted to the persona), the post-history
/// instructions and the greeting of the active character.
pub struct PromptTexts {
    pub system_prompt: String,
    pub post_history: Option<String>,
    pub greeting: Option<String>,
}

/// The conversation: session state, the transcript and the prompt texts.
pub struct ConversationController {
    pub session: SessionContext,
    pub ui: UiState,
    pub prompts: PromptTexts,
}

/// The greeting the active character opens with, when there is one and it is
/// not blank.
pub open spec fn greeting_text(c: ConversationController) -> Option<Seq<char>> {
    match c.prompts.greeting {
        Some(g) => if c.session.active_character is Some && !blank(g@) {
            Some(g@)
        } else {
            None
        },
        None => None,
    }
}

/// Post-history instructions apply only while a character is active.
pub open spec fn post_history_of(c: ConversationController) -> Option<Seq<char>> {
    if c.session.active_character is Some {
        opt_view(c.prompts.post_history)
    } else {
        None
    }
}

/// The request for the first `count` messages of the transcript.
pub open spec fn request_for(
    c: ConversationController,
    h: Seq<Message>,
    additional: Option<Seq<char>>,
) -> Seq<WireEntry> {
    api_wire(h, c.prompts.system_prompt@, additional, post_history_of(c))
}

/// The transcript without the assistant messages that end it and are blank.
pub open spec fn without_trailing_blank_assistants(h: Seq<Message>) -> Seq<Message>
    decreases h.len(),
{
    if h.len() > 0 && h.last().role == TranscriptRole::Assistant && blank(h.last().content@) {
        without_trailing_blank_assistants(h.drop_last())
    } else {
        h
    }
}

/// The retry index after the transcript shrank from `before` to `after`
/// messages: dropped when it no longer points into the transcript.
pub open spec fn retry_after_shrink(retrying: Option<usize>, before: nat, after: nat) -> Option<usize> {
    match retrying {
        Some(i) => if after < before && i >= after {
            None
        } else {
            Some(i)
        },
        None => None,
    }
}

/// `after` keeps everything of `before` but the transcript messages, the
/// current response, the status and the session.
pub open spec fn same_prompts_and_scroll(before: ConversationController, after: ConversationController) -> bool {
    &&& after.prompts == before.prompts
    &&& after.ui.auto_scroll == before.ui.auto_scroll
    &&& after.ui.scroll_target == before.ui.scroll_target
    &&& after.ui.scroll_offset == before.ui.scroll_offset
    &&& same_input_state(before.ui, after.ui)
}

/// What streaming `content` into the reply does: into the message being
/// retried, or else into the last message when that is an assistant message;
/// the first chunk of a refinement replaces the old text.
pub open spec fn response_appended(c0: ConversationController, c1: ConversationController, content: Seq<char>) -> bool {
    let h = c0.ui.messages@;
    &&& match stream_target(h, c0.session.retrying_message_index) {
        Some(i) => transcript(c1.ui.messages@) == transcript(h).update(
            i,
            (
                TranscriptRole::Assistant,
                appended(
                    h[i].content@,
                    content,
                    c0.session.is_refining && c0.session.retrying_message_index is Some,
                ),
            ),
        ),
        None => c1.ui.messages@ == h,
    }
    &&& c1.ui.current_response@ == c0.ui.current_response@ + content
    &&& c1.session == (SessionContext {
        is_refining: false,
        has_received_assistant_message: c0.session.has_received_assistant_message
            || content.len() > 0,
        ..c0.session
    })
    &&& c1.ui.status == c0.ui.status
    &&& same_prompts_and_scroll(c0, c1)
}

/// What adding an application message does: it is appended, after a
/// warning when it is a log line whose writing failed with `log_failure`.
pub open spec fn app_message_added(
    c0: ConversationController,
    c1: ConversationController,
    kind: AppMessageKind,
    content: String,
    log_failure: Option<String>,
) -> bool {
    let added = Message { role: app_role(kind), content: content };
    &&& c1.session == c0.session
    &&& same_prompts_and_scroll(c0, c1)
    &&& c1.ui.current_response == c0.ui.current_response
    &&& c1.ui.status == c0.ui.status
    &&& match log_failure {
        Some(e) => if kind == AppMessageKind::Log {
            c1.ui.messages@.len() == c0.ui.messages@.len() + 2
                && c1.ui.messages@.drop_last().drop_last() == c0.ui.messages@
                && c1.ui.messages@[c0.ui.messages@.len() as int].role == TranscriptRole::AppWarning
                && c1.ui.messages@[c0.ui.messages@.len() as int].content@ == log_incomplete_warning(e@)
                && c1.ui.messages@.last() == added
        } else {
            c1.ui.messages@ == c0.ui.messages@.push(added)
        },
        None => c1.ui.messages@ == c0.ui.messages@.push(added),
    }
}

/// `after` differs from `before` at most in the transcript messages.
pub open spec fn same_but_messages(before: ConversationController, after: ConversationController) -> bool {
    &&& after.session == before.session
    &&& same_prompts_and_scroll(before, after)
    &&& after.ui.current_response == before.ui.current_response
    &&& after.ui.status == before.ui.status
}

/// What showing the greeting does: when it is due and the character has a
/// greeting that is not blank, it is added as an assistant message and
/// marked as shown; otherwise nothing changes.
pub open spec fn greeted(c0: ConversationController, c1: ConversationController) -> bool {
    let shown = crate::session::greeting_due(c0.session) && greeting_text(c0) is Some;
    &&& same_prompts_and_scroll(c0, c1)
    &&& c1.ui.current_response == c0.ui.current_response
    &&& c1.ui.status == c0.ui.status
    &&& shown ==> transcript(c1.ui.messages@) == transcript(c0.ui.messages@).push(
        (TranscriptRole::Assistant, greeting_text(c0)->0),
    ) && c1.session == (SessionContext { character_greeting_shown: true, ..c0.session })
    &&& !shown ==> c1.ui.messages == c0.ui.messages && c1.session == c0.session
}

/// The warning shown when the user's message could not be logged.
pub open spec fn conversation_log_warning(e: Seq<char>) -> Seq<char> {
    "Logging error: "@ + e + ". Conversation will continue but may not be saved."@
}

/// The warning shown when a log line of the application could not be written.
pub open spec fn log_incomplete_warning(e: Seq<char>) -> Seq<char> {
    "Logging error: "@ + e + ". Log file may be incomplete."@
}

/// The warning shown when a response could not be logged.
pub open spec fn response_log_warning(e: Seq<char>) -> Seq<char> {
    "Logging error: "@ + e + ". Response may not be saved to log."@
}

fn warning_text(prefix: &str, e: &str, suffix: &str) -> (r: String)
    ensures
        r@ == prefix@ + e@ + suffix@,
{
    let mut out = str_to_string(prefix);
    push_str(&mut out, e);
    push_str(&mut out, suffix);
    out
}

impl ConversationController {
    pub fn new(session: SessionContext, ui: UiState, prompts: PromptTexts) -> (r: Self)
        ensures
            r.session == session,
            r.ui == ui,
            r.prompts == prompts,
    {
        ConversationController { session, ui, prompts }
    }

    fn character_greeting_text(&self) -> (r: Option<String>)
        ensures
            opt_view(r) == greeting_text(*self),
    {
        if self.session.active_character.is_none() {
            return None;
        }
        match &self.prompts.greeting {
            Some(g) => {
                if is_blank(g.as_str()) {
                    None
                } else {
                    Some(g.clone())
                }
            },
            None => None,
        }
    }

    /// Shows the character's greeting as an assistant message when it is
    /// due and not blank, and records that it was shown (see [`greeted`]).
    pub fn show_character_greeting_if_needed(&mut self)
        ensures
            greeted(*old(self), *final(self)),
    {
        if self.session.should_show_greeting() {
            if let Some(greeting) = self.character_greeting_text() {
                let ghost before = self.ui.messages@;
                self.ui.messages.push(Message::new(TranscriptRole::Assistant, greeting));
                assert(transcript(self.ui.messages@) =~= transcript(before).push(
                    (TranscriptRole::Assistant, greeting@),
                ));
                self.session.mark_greeting_shown();
            }
        }
    }

    /// Drops the blank assistant messages that end the transcript; a retry
    /// index that no longer points into it is dropped too.
    pub fn remove_trailing_empty_assistant_messages(&mut self)
        ensures
            same_prompts_and_scroll(*old(self), *final(self)),
            final(self).ui.current_response == old(self).ui.current_response,
            final(self).ui.status == old(self).ui.status,
            final(self).ui.messages@ == without_trailing_blank_assistants(old(self).ui.messages@),
            final(self).session == (SessionContext {
                retrying_message_index: retry_after_shrink(
                    old(self).session.retrying_message_index,
                    old(self).ui.messages@.len(),
                    final(self).ui.messages@.len(),
                ),
                ..old(self).session
            }),
    {
        let ghost orig = self.ui.messages@;
        let mut removed = false;
        loop
            invariant
                without_trailing_blank_assistants(self.ui.messages@) == without_trailing_blank_assistants(orig),
                removed == (self.ui.messages@.len() < orig.len()),
                self.ui.messages@.len() <= orig.len(),
                same_but_messages(*old(self), *self),
            ensures
                self.ui.messages@ == without_trailing_blank_assistants(orig),
                removed == (self.ui.messages@.len() < orig.len()),
                same_but_messages(*old(self), *self),
            decreases self.ui.messages@.len(),
        {
            let n = self.ui.messages.len();
            if n == 0 {
                break;
            }
            let drop = {
                let last = &self.ui.messages[n - 1];
                last.is_assistant() && is_blank(last.content.as_str())
            };
            if !drop {
                break;
            }
            let ghost cur = self.ui.messages@;
            self.ui.messages.pop();
            assert(self.ui.messages@ =~= cur.drop_last());
            removed = true;
        }
        if removed {
            if let Some(index) = self.session.retrying_message_index {
                if index >= self.ui.messages.len() {
                    self.session.retrying_message_index = None;
                }
            }
        }
    }

    /// The request for the whole transcript.
    pub fn api_messages_from_history(&self) -> (r: Vec<ChatMessage>)
        ensures
            wire(r@) == request_for(*self, self.ui.messages@, None),
            plain(r@),
    {
        let post = self.post_history();
        let r = api_messages_for(
            &self.ui.messages,
            self.ui.messages.len(),
            self.prompts.system_prompt.as_str(),
            None,
            &post,
        );
        assert(self.ui.messages@.take(self.ui.messages@.len() as int) =~= self.ui.messages@);
        r
    }

    pub(crate) fn post_history(&self) -> (r: Option<String>)
        ensures
            opt_view(r) == post_history_of(*self),
    {
        if self.session.active_character.is_some() {
            match &self.prompts.post_history {
                Some(p) => Some(p.clone()),
                None => None,
            }
        } else {
            None
        }
    }

    /// Appends `message` to the transcript.
    pub fn add_message(&mut self, message: Message)
        ensures
            final(self).ui.messages@ == old(self).ui.messages@.push(message),
            final(self).session == old(self).session,
            final(self).prompts == old(self).prompts,
            final(self).ui.current_response == old(self).ui.current_response,
            final(self).ui.status == old(self).ui.status,
            final(self).ui.auto_scroll == old(self).ui.auto_scroll,
            final(self).ui.scroll_target == old(self).ui.scroll_target,
            same_input_state(old(self).ui, final(self).ui),
            final(self).ui.scroll_offset == old(self).ui.scroll_offset,
    {
        self.ui.messages.push(message);
    }

    /// Adds a message of the application. When a log line could not be
    /// written (`log_failure`, for messages of kind `Log`), a warning saying
    /// so comes first.
    pub fn add_app_message(&mut self, kind: AppMessageKind, content: String, log_failure: Option<String>)
        ensures
            app_message_added(*old(self), *final(self), kind, content, log_failure),
    {
        let ghost h = self.ui.messages@;
        if let AppMessageKind::Log = kind {
            if let Some(e) = &log_failure {
                let text = warning_text("Logging error: ", e.as_str(), ". Log file may be incomplete.");
                self.ui.messages.push(Message::app(AppMessageKind::Warning, text));
            }
        }
        self.ui.messages.push(Message::app(kind, content));
        assert(self.ui.messages@.drop_last().drop_last() =~= h || self.ui.messages@ =~= h.push(
            self.ui.messages@.last(),
        ));
    }

    /// Adds the result of a tool call to the transcript.
    pub fn add_tool_result_message(&mut self, content: String)
        ensures
            final(self).ui.messages@ == old(self).ui.messages@.push(Message::tool_result_spec(content)),
            final(self).session == old(self).session,
            same_prompts_and_scroll(*old(self), *final(self)),
            final(self).ui.current_response == old(self).ui.current_response,
            final(self).ui.status == old(self).ui.status,
    {
        self.ui.messages.push(Message::tool_result(content));
    }

    pub fn set_status(&mut self, s: String)
        ensures
            final(self).ui.status == Some(s),
            final(self).ui.messages == old(self).ui.messages,
            final(self).ui.current_response == old(self).ui.current_response,
            final(self).session == old(self).session,
            same_prompts_and_scroll(*old(self), *final(self)),
    {
        self.ui.status = Some(s);
    }

    pub fn clear_status(&mut self)
        ensures
            final(self).ui.status is None,
            final(self).ui.messages == old(self).ui.messages,
            final(self).ui.current_response == old(self).ui.current_response,
            final(self).session == old(self).session,
            same_prompts_and_scroll(*old(self), *final(self)),
    {
        self.ui.status = None;
    }
}

impl Message {
    pub open spec fn tool_result_spec(content: String) -> Message {
        Message { role: TranscriptRole::ToolResult, content }
    }
}

/// The role and text of each transcript message.
pub open spec fn transcript(h: Seq<Message>) -> Seq<(TranscriptRole, Seq<char>)> {
    h.map_values(|m: Message| (m.role, m.content@))
}

/// The transcript messages a pending tool call leaves: its tool name and a
/// summary of its arguments, as far as they are known.
pub open spec fn tool_call_line(name: Option<Seq<char>>, summary: Option<Seq<char>>) -> Seq<char> {
    match name {
        Some(n) => match summary {
            Some(s) => n + " | Arguments: "@ + s,
            None => n,
        },
        None => match summary {
            Some(s) => "Arguments: "@ + s,
            None => "Unknown tool call"@,
        },
    }
}

/// Calls of the instant-recall tool leave no line in the transcript.
pub open spec fn is_recall_call(c: PendingToolCall) -> bool {
    match c.name {
        Some(n) => eq_ci(n@, MCP_INSTANT_RECALL_TOOL@),
        None => false,
    }
}

/// The line of a call, its trimmed arguments read by `serde_json`.
pub open spec fn call_line(c: PendingToolCall) -> Seq<char> {
    let args = trim_seq(c.arguments@);
    tool_call_line(opt_view(c.name), arguments_summary(args, json_read(args)))
}

/// The transcript entries of the first `k` pending calls.
pub open spec fn call_messages(
    p: Seq<(u32, PendingToolCall)>,
    k: nat,
) -> Seq<(TranscriptRole, Seq<char>)>
    decreases k,
{
    if k == 0 {
        seq![]
    } else {
        let rest = call_messages(p, (k - 1) as nat);
        let c = p[k - 1].1;
        if is_recall_call(c) {
            rest
        } else {
            rest.push((TranscriptRole::ToolCall, call_line(c)))
        }
    }
}

/// The assistant message after `chunk` streamed into it: a first chunk of a
/// refinement replaces the old text.
pub open spec fn appended(old_text: Seq<char>, chunk: Seq<char>, replace: bool) -> Seq<char> {
    if replace {
        chunk
    } else {
        old_text + chunk
    }
}

/// The message a streamed chunk goes to: the message being retried when
/// there is one, else the last message; only an assistant message takes it.
pub open spec fn stream_target(h: Seq<Message>, retrying: Option<usize>) -> Option<int> {
    match retrying {
        Some(i) => if i < h.len() && h[i as int].role == TranscriptRole::Assistant {
            Some(i as int)
        } else {
            None
        },
        None => if h.len() > 0 && h.last().role == TranscriptRole::Assistant {
            Some(h.len() - 1)
        } else {
            None
        },
    }
}

/// The warning for a failed log rewrite: only when a reply with text ends
/// while a message is being retried.
pub open spec fn rewrite_warnings(c: ConversationController, failure: Option<String>) -> Seq<
    (TranscriptRole, Seq<char>),
> {
    match failure {
        Some(e) => if c.ui.current_response@.len() > 0 && c.session.retrying_message_index is Some {
            seq![(TranscriptRole::AppWarning, log_incomplete_warning(e@))]
        } else {
            seq![]
        },
        None => seq![],
    }
}

/// The warning for a reply with text that could not be logged.
pub open spec fn response_warnings(c: ConversationController, failure: Option<String>) -> Seq<
    (TranscriptRole, Seq<char>),
> {
    match failure {
        Some(e) => if c.ui.current_response@.len() > 0 {
            seq![(TranscriptRole::AppWarning, response_log_warning(e@))]
        } else {
            seq![]
        },
        None => seq![],
    }
}

/// The index of the last assistant message with text, if any.
pub open spec fn last_filled_assistant(h: Seq<Message>) -> Option<int>
    decreases h.len(),
{
    if h.len() == 0 {
        None
    } else if h.last().role == TranscriptRole::Assistant && h.last().content@.len() > 0 {
        Some(h.len() - 1)
    } else {
        last_filled_assistant(h.drop_last())
    }
}

/// What `last_filled_assistant` finds: the last assistant message with text,
/// and none when there is no such message.
pub proof fn lemma_last_filled_assistant(h: Seq<Message>)
    ensures
        match last_filled_assistant(h) {
            Some(i) => 0 <= i < h.len() && h[i].role == TranscriptRole::Assistant && h[i].content@.len()
                > 0 && forall|j: int|
                i < j < h.len() ==> !((#[trigger] h[j]).role == TranscriptRole::Assistant
                    && h[j].content@.len() > 0),
            None => forall|j: int|
                0 <= j < h.len() ==> !((#[trigger] h[j]).role == TranscriptRole::Assistant
                    && h[j].content@.len() > 0),
        },
    decreases h.len(),
{
    if h.len() > 0 {
        lemma_last_filled_assistant(h.drop_last());
        assert forall|j: int| 0 <= j < h.len() - 1 implies h[j] == h.drop_last()[j] by {}
    }
}

fn find_last_filled_assistant(h: &Vec<Message>) -> (r: Option<usize>)
    ensures
        match r {
            Some(i) => last_filled_assistant(h@) == Some(i as int),
            None => last_filled_assistant(h@) is None,
        },
{
    let mut k: usize = h.len();
    assert(h@.take(k as int) =~= h@);
    while k > 0
        invariant
            k <= h@.len(),
            last_filled_assistant(h@) == last_filled_assistant(h@.take(k as int)),
        decreases k,
    {
        let m = &h[k - 1];
        let ghost t = h@.take(k as int);
        assert(t.last() == *m);
        assert(t.drop_last() =~= h@.take(k - 1));
        if m.is_assistant() && !str_is_empty(m.content.as_str()) {
            return Some(k - 1);
        }
        k = k - 1;
    }
    None
}

/// What taking the tool calls of a finished reply does (see
/// `take_pending_tool_calls`): `r` are the pending calls, in order, and a
/// line for each is added to the transcript.
pub open spec fn pending_calls_taken(
    c0: ConversationController,
    c1: ConversationController,
    r: Seq<(u32, PendingToolCall)>,
) -> bool {
    &&& r == c0.session.pending_tool_calls@
    &&& c1.session.pending_tool_calls@.len() == 0
    &&& r.len() == 0 ==> c1.ui.messages@ == c0.ui.messages@
    &&& r.len() == 0 ==> c1.session == c0.session
    &&& r.len() > 0 ==> ({
        let base = if blank(c0.ui.current_response@) {
            without_trailing_blank_assistants(c0.ui.messages@)
        } else {
            c0.ui.messages@
        };
        &&& transcript(c1.ui.messages@) == transcript(base) + call_messages(r, r.len())
        &&& c1.session == (SessionContext {
            retrying_message_index: retry_after_shrink(
                c0.session.retrying_message_index,
                c0.ui.messages@.len(),
                base.len(),
            ),
            pending_tool_calls: c1.session.pending_tool_calls,
            ..c0.session
        })
    })
    &&& c1.ui.current_response == c0.ui.current_response
    &&& c1.ui.status == c0.ui.status
    &&& same_prompts_and_scroll(c0, c1)
}

/// What ending a reply does (see `finalize_response`).
pub open spec fn response_finalized(
    c0: ConversationController,
    c1: ConversationController,
    rewrite_failure: Option<String>,
    log_failure: Option<String>,
) -> bool {
    &&& transcript(c1.ui.messages@) == transcript(c0.ui.messages@) + rewrite_warnings(
        c0,
        rewrite_failure,
    ) + response_warnings(c0, log_failure)
    &&& c1.session == (SessionContext {
        retrying_message_index: if c0.session.original_refining_content is None {
            None
        } else {
            c0.session.retrying_message_index
        },
        is_refining: false,
        ..c0.session
    })
    &&& c1.ui.current_response@.len() == 0
    &&& c1.ui.status == c0.ui.status
    &&& same_prompts_and_scroll(c0, c1)
}

/// What adding the user's message does (see `add_user_message`); `r` is the
/// request sent for it.
pub open spec fn user_message_added(
    c0: ConversationController,
    c1: ConversationController,
    content: String,
    log_failure: Option<String>,
    r: Seq<ChatMessage>,
) -> bool {
    let stripped = transcript(without_trailing_blank_assistants(c0.ui.messages@));
    let warned = match log_failure {
        Some(e) => stripped.push((TranscriptRole::AppWarning, conversation_log_warning(e@))),
        None => stripped,
    };
    &&& transcript(c1.ui.messages@) =~= warned + seq![
        (TranscriptRole::User, content@),
        (TranscriptRole::Assistant, Seq::<char>::empty()),
    ]
    &&& wire(r) =~= request_for(c0, c1.ui.messages@.drop_last(), None)
    &&& plain(r)
    &&& c1.session == (SessionContext {
        active_assistant_message_index: Some((c1.ui.messages@.len() - 1) as usize),
        retrying_message_index: None,
        original_refining_content: None,
        ..c0.session
    })
    &&& c1.ui.status is None
    &&& c1.ui.current_response@.len() == 0
    &&& same_prompts_and_scroll(c0, c1)
}

/// What adding an empty assistant message for a reply does (see
/// `add_assistant_placeholder`).
pub open spec fn placeholder_added(c0: ConversationController, c1: ConversationController) -> bool {
    &&& transcript(c1.ui.messages@) =~= transcript(c0.ui.messages@).push(
        (TranscriptRole::Assistant, Seq::<char>::empty()),
    )
    &&& c1.session == (SessionContext {
        active_assistant_message_index: Some(c0.ui.messages@.len() as usize),
        retrying_message_index: None,
        original_refining_content: None,
        is_refining: false,
        has_received_assistant_message: false,
        ..c0.session
    })
    &&& c1.ui.current_response@.len() == 0
    &&& c1.ui.status == c0.ui.status
    &&& same_prompts_and_scroll(c0, c1)
}

impl ConversationController {
    /// Adds the user's message and an empty assistant message for the reply,
    /// after dropping blank assistant messages at the end; when the message
    /// could not be logged (`log_failure`) a warning comes before it. Returns
    /// the request for the transcript up to the user's message.
    pub fn add_user_message(&mut self, content: String, log_failure: Option<String>) -> (r: Vec<
        ChatMessage,
    >)
        ensures
            user_message_added(*old(self), *final(self), content, log_failure, r@),
    {
        self.clear_status();
        self.remove_trailing_empty_assistant_messages();
        let ghost stripped = self.ui.messages@;
        if let Some(e) = &log_failure {
            let text = warning_text(
                "Logging error: ",
                e.as_str(),
                ". Conversation will continue but may not be saved.",
            );
            self.ui.messages.push(Message::app(AppMessageKind::Warning, text));
        }
        let ghost warned = self.ui.messages@;
        self.ui.messages.push(Message::new(TranscriptRole::User, content));
        self.ui.messages.push(Message::new(TranscriptRole::Assistant, String::new()));
        self.ui.current_response = String::new();
        let n = self.ui.messages.len();
        self.session.active_assistant_message_index = Some(n - 1);
        self.session.retrying_message_index = None;
        self.session.original_refining_content = None;
        assert(transcript(self.ui.messages@) =~= transcript(warned) + seq![
            (TranscriptRole::User, content@),
            (TranscriptRole::Assistant, Seq::<char>::empty()),
        ]);
        let post = self.post_history();
        let r = api_messages_for(
            &self.ui.messages,
            n - 1,
            self.prompts.system_prompt.as_str(),
            None,
            &post,
        );
        assert(self.ui.messages@.take(n - 1) =~= self.ui.messages@.drop_last());
        r
    }

    /// Adds an empty assistant message for a reply that is about to stream.
    pub fn add_assistant_placeholder(&mut self)
        ensures
            placeholder_added(*old(self), *final(self)),
    {
        let ghost before = self.ui.messages@;
        self.ui.messages.push(Message::new(TranscriptRole::Assistant, String::new()));
        assert(transcript(self.ui.messages@) =~= transcript(before).push(
            (TranscriptRole::Assistant, Seq::<char>::empty()),
        ));
        self.ui.current_response = String::new();
        let n = self.ui.messages.len();
        self.session.active_assistant_message_index = Some(n - 1);
        self.session.retrying_message_index = None;
        self.session.original_refining_content = None;
        self.session.is_refining = false;
        self.session.has_received_assistant_message = false;
    }

    /// Streams `content` into the reply: into the message being retried, or
    /// else into the last message, when that is an assistant message. The
    /// first chunk of a refinement replaces the old text.
    pub fn append_to_response(&mut self, content: &str)
        ensures
            response_appended(*old(self), *final(self), content@),
    {
        let first_refine_chunk = self.session.is_refining;
        if first_refine_chunk {
            self.session.is_refining = false;
        }
        let ghost h = self.ui.messages@;
        match self.session.retrying_message_index {
            Some(i) => {
                if i < self.ui.messages.len() && self.ui.messages[i].is_assistant() {
                    let mut text = if first_refine_chunk {
                        String::new()
                    } else {
                        self.ui.messages[i].content.clone()
                    };
                    push_str(&mut text, content);
                    self.ui.messages[i] = Message::new(TranscriptRole::Assistant, text);
                    assert(transcript(self.ui.messages@) =~= transcript(h).update(
                        i as int,
                        (TranscriptRole::Assistant, appended(h[i as int].content@, content@, first_refine_chunk)),
                    ));
                }
            },
            None => {
                let n = self.ui.messages.len();
                if n > 0 && self.ui.messages[n - 1].is_assistant() {
                    let mut text = self.ui.messages[n - 1].content.clone();
                    push_str(&mut text, content);
                    self.ui.messages[n - 1] = Message::new(TranscriptRole::Assistant, text);
                    assert(transcript(self.ui.messages@) =~= transcript(h).update(
                        n - 1,
                        (TranscriptRole::Assistant, appended(h[n - 1].content@, content@, false)),
                    ));
                }
            },
        }
        push_str(&mut self.ui.current_response, content);
        if !str_is_empty(content) {
            self.session.has_received_assistant_message = true;
        }
    }

    /// Ends a reply. When it had text, warnings for a failed log rewrite
    /// (only while retrying) and a failed log write are added. The retry
    /// index is dropped unless a refinement keeps the original text, and the
    /// current response is cleared.
    #[verifier::rlimit(80)]
    pub fn finalize_response(&mut self, rewrite_failure: Option<String>, log_failure: Option<String>)
        ensures
            response_finalized(*old(self), *final(self), rewrite_failure, log_failure),
    {
        let ghost h = transcript(self.ui.messages@);
        let ghost w1 = rewrite_warnings(*self, rewrite_failure);
        let ghost w2 = response_warnings(*self, log_failure);
        if !str_is_empty(self.ui.current_response.as_str()) {
            if self.session.retrying_message_index.is_some() {
                if let Some(e) = &rewrite_failure {
                    let text = warning_text("Logging error: ", e.as_str(), ". Log file may be incomplete.");
                    self.push_warning(text);
                }
            }
            assert(transcript(self.ui.messages@) =~= h + w1);
            if let Some(e) = &log_failure {
                let text = warning_text(
                    "Logging error: ",
                    e.as_str(),
                    ". Response may not be saved to log.",
                );
                self.push_warning(text);
            }
            assert(transcript(self.ui.messages@) =~= h + w1 + w2);
        } else {
            assert(transcript(self.ui.messages@) =~= h + w1 + w2);
        }
        if self.session.original_refining_content.is_none() {
            self.session.retrying_message_index = None;
        }
        self.session.is_refining = false;
        self.ui.current_response = String::new();
    }

    fn push_warning(&mut self, text: String)
        ensures
            transcript(final(self).ui.messages@) == transcript(old(self).ui.messages@).push(
                (TranscriptRole::AppWarning, text@),
            ),
            same_but_messages(*old(self), *final(self)),
    {
        let ghost b = self.ui.messages@;
        self.ui.messages.push(Message::app(AppMessageKind::Warning, text));
        assert(transcript(self.ui.messages@) =~= transcript(b).push((TranscriptRole::AppWarning, text@)));
    }

    /// Whether some assistant message has text that a retry could replace.
    pub fn can_retry(&self) -> (r: bool)
        ensures
            r == (last_filled_assistant(self.ui.messages@) is Some),
            r == exists|i: int|
                0 <= i < self.ui.messages@.len() && (#[trigger] self.ui.messages@[i]).role
                    == TranscriptRole::Assistant && self.ui.messages@[i].content@.len() > 0,
    {
        proof {
            lemma_last_filled_assistant(self.ui.messages@);
        }
        find_last_filled_assistant(&self.ui.messages).is_some()
    }

    /// Takes the tool calls the reply asked for, in order of their index,
    /// and adds a line for each to the transcript (none for instant
    /// recall), its arguments summarized as `serde_json` reads them. When
    /// the reply had no text, the blank assistant messages at the end are
    /// dropped first.
    pub fn take_pending_tool_calls(&mut self) -> (r: Vec<(u32, PendingToolCall)>)
        ensures
            pending_calls_taken(*old(self), *final(self), r@),
    {
        if self.session.pending_tool_calls.len() == 0 {
            let none: Vec<(u32, PendingToolCall)> = Vec::new();
            assert(none@ =~= self.session.pending_tool_calls@);
            return none;
        }
        if is_blank(self.ui.current_response.as_str()) {
            self.remove_trailing_empty_assistant_messages();
        }
        let mut pending: Vec<(u32, PendingToolCall)> = Vec::new();
        std::mem::swap(&mut pending, &mut self.session.pending_tool_calls);
        let ghost base = self.ui.messages@;
        let ghost pre = *self;
        let n = pending.len();
        let mut k: usize = 0;
        while k < n
            invariant
                n == pending@.len(),
                k <= n,
                transcript(self.ui.messages@) == transcript(base) + call_messages(pending@, k as nat),
                same_but_messages(pre, *self),
            decreases n - k,
        {
            let call = &pending[k].1;
            let skip = match &call.name {
                Some(name) => is_instant_recall_tool(name.as_str()),
                None => false,
            };
            if !skip {
                let args = trim(call.arguments.as_str());
                let summary = summarize_tool_call_arguments(args.as_str());
                let line = match &call.name {
                    Some(name) => match &summary {
                        Some(s) => warning_text(name.as_str(), " | Arguments: ", s.as_str()),
                        None => name.clone(),
                    },
                    None => match &summary {
                        Some(s) => warning_text("Arguments: ", s.as_str(), ""),
                        None => str_to_string("Unknown tool call"),
                    },
                };
                proof {
                    reveal_strlit("");
                }
                assert(line@ == call_line(*call));
                let ghost b = self.ui.messages@;
                self.ui.messages.push(Message::tool_call(line));
                assert(transcript(self.ui.messages@) =~= transcript(b).push(
                    (TranscriptRole::ToolCall, call_line(*call)),
                ));
            }
            k = k + 1;
        }
        pending
    }

    /// Forgets the tool calls of the reply being streamed.
    pub fn clear_pending_tool_calls(&mut self)
        ensures
            final(self).session == (SessionContext {
                pending_tool_calls: final(self).session.pending_tool_calls,
                ..old(self).session
            }),
            final(self).session.pending_tool_calls@.len() == 0,
            final(self).ui == old(self).ui,
            final(self).prompts == old(self).prompts,
    {
        self.session.pending_tool_calls = Vec::new();
    }
}

/// The message a retry or refinement regenerates: the one already being
/// retried, else the last assistant message with text.
pub open spec fn regen_target(c: ConversationController) -> int {
    match c.session.retrying_message_index {
        Some(i) => i as int,
        None => last_filled_assistant(c.ui.messages@)->0,
    }
}

/// The scroll position that shows the user message before message `t`.
pub open spec fn scroll_before(t: int) -> ScrollTarget {
    if t > 0 {
        ScrollTarget::Message((t - 1) as usize)
    } else {
        ScrollTarget::Top
    }
}

/// The text a refinement starts from: the one kept from an earlier
/// refinement when `use_original` asks for it, else the current text of the
/// message being refined.
pub open spec fn refine_original(c: ConversationController, use_original: bool) -> Option<String> {
    let kept = if use_original {
        c.session.original_refining_content
    } else {
        None
    };
    match kept {
        Some(o) => Some(o),
        None => {
            let t = regen_target(c);
            if t < c.ui.messages@.len() {
                Some(c.ui.messages@[t].content)
            } else {
                None
            }
        },
    }
}

/// The history a refinement sends: the transcript up to and including the
/// refined message, whose text is the original one when `use_original`
/// asks for it.
pub open spec fn refine_history(
    h: Seq<Message>,
    t: int,
    original: Option<String>,
    use_original: bool,
) -> Seq<Message> {
    let h0 = h.take(
        if t + 1 <= h.len() {
            t + 1
        } else {
            h.len() as int
        },
    );
    match original {
        Some(o) => if use_original && h0.len() > 0 && h0.last().role == TranscriptRole::Assistant {
            h0.update(h0.len() - 1, Message { role: TranscriptRole::Assistant, content: o })
        } else {
            h0
        },
        None => h0,
    }
}

/// The request of a refinement: the history with the refinement
/// instructions added to the system prompt, then the user's prompt behind
/// the refinement prefix.
pub open spec fn refine_request(
    c: ConversationController,
    prompt: Seq<char>,
    use_original: bool,
) -> Seq<WireEntry> {
    let t = regen_target(c);
    request_for(
        c,
        refine_history(c.ui.messages@, t, refine_original(c, use_original), use_original),
        Some(c.session.refine_instructions@),
    ).push(("user"@, c.session.refine_prefix@ + " "@ + prompt))
}

/// What `prepare_refine` does: nothing when no assistant message has text;
/// otherwise it marks the target message as being refined, keeps the text
/// it starts from and the prompt (unless it reuses the earlier ones), asks
/// to scroll to the user message before it, and returns the request.
pub open spec fn refined(
    c0: ConversationController,
    prompt: String,
    use_original: bool,
    c1: ConversationController,
    r: Option<Vec<ChatMessage>>,
) -> bool {
    if last_filled_assistant(c0.ui.messages@) is None {
        r is None && c1 == c0
    } else {
        let t = regen_target(c0);
        &&& c1.session == (SessionContext {
            is_refining: true,
            retrying_message_index: Some(t as usize),
            original_refining_content: refine_original(c0, use_original),
            last_refine_prompt: if use_original {
                c0.session.last_refine_prompt
            } else {
                Some(prompt)
            },
            ..c0.session
        })
        &&& c1.ui.messages == c0.ui.messages
        &&& c1.ui.current_response == c0.ui.current_response
        &&& c1.ui.status == c0.ui.status
        &&& same_input_state(c0.ui, c1.ui)
        &&& c1.ui.scroll_offset == c0.ui.scroll_offset
        &&& c1.prompts == c0.prompts
        &&& c1.ui.auto_scroll
        &&& c1.ui.scroll_target == scroll_before(t)
        &&& match r {
            Some(v) => wire(v@) == refine_request(c0, prompt@, use_original) && plain(v@),
            None => false,
        }
    }
}

fn copy_prefix(h: &Vec<Message>, count: usize) -> (r: Vec<Message>)
    requires
        count <= h@.len(),
    ensures
        r@ == h@.take(count as int),
{
    let mut out: Vec<Message> = Vec::new();
    let mut i: usize = 0;
    while i < count
        invariant
            count <= h@.len(),
            i <= count,
            out@ == h@.take(i as int),
        decreases count - i,
    {
        let m = copy_message(&h[i]);
        out.push(m);
        assert(out@ =~= h@.take(i + 1));
        i = i + 1;
    }
    out
}

impl ConversationController {
    fn begin_refine(&mut self, prompt: &String, use_original: bool)
        requires
            last_filled_assistant(old(self).ui.messages@) is Some,
        ensures
            final(self).session == (SessionContext {
                is_refining: true,
                retrying_message_index: Some(regen_target(*old(self)) as usize),
                original_refining_content: refine_original(*old(self), use_original),
                last_refine_prompt: if use_original {
                    old(self).session.last_refine_prompt
                } else {
                    Some(*prompt)
                },
                ..old(self).session
            }),
            final(self).ui == old(self).ui,
            final(self).prompts == old(self).prompts,
    {
        proof {
            lemma_last_filled_assistant(self.ui.messages@);
        }
        let target = match self.session.retrying_message_index {
            Some(i) => i,
            None => match find_last_filled_assistant(&self.ui.messages) {
                Some(i) => i,
                None => 0,
            },
        };
        let kept = if use_original {
            match &self.session.original_refining_content {
                Some(o) => Some(o.clone()),
                None => None,
            }
        } else {
            None
        };
        let original = match kept {
            Some(o) => Some(o),
            None => if target < self.ui.messages.len() {
                Some(self.ui.messages[target].content.clone())
            } else {
                None
            },
        };
        self.session.is_refining = true;
        self.session.retrying_message_index = Some(target);
        self.session.original_refining_content = original;
        if !use_original {
            self.session.last_refine_prompt = Some(prompt.clone());
        }
    }

    fn refine_request_messages(&self, ri: usize, prompt: &str, use_original: bool) -> (r: Vec<ChatMessage>)
        requires
            ri < usize::MAX,
        ensures
            wire(r@) == request_for(
                *self,
                refine_history(
                    self.ui.messages@,
                    ri as int,
                    self.session.original_refining_content,
                    use_original,
                ),
                Some(self.session.refine_instructions@),
            ).push(("user"@, self.session.refine_prefix@ + " "@ + prompt@)),
            plain(r@),
    {
        let n = self.ui.messages.len();
        let take = if ri + 1 <= n {
            ri + 1
        } else {
            n
        };
        let mut history = copy_prefix(&self.ui.messages, take);
        if use_original {
            if let Some(o) = &self.session.original_refining_content {
                let k = history.len();
                if k > 0 && history[k - 1].is_assistant() {
                    history[k - 1] = Message::new(TranscriptRole::Assistant, o.clone());
                }
            }
        }
        assert(history@ =~= refine_history(
            self.ui.messages@,
            ri as int,
            self.session.original_refining_content,
            use_original,
        ));
        let post = self.post_history();
        let mut api = api_messages_for(
            &history,
            history.len(),
            self.prompts.system_prompt.as_str(),
            Some(self.session.refine_instructions.clone()),
            &post,
        );
        assert(history@.take(history@.len() as int) =~= history@);
        let mut line = self.session.refine_prefix.clone();
        push_str(&mut line, " ");
        push_str(&mut line, prompt);
        push_plain(&mut api, "user", line);
        proof {
            reveal_strlit("user");
        }
        api
    }

    /// Asks the model to rework the last reply along `prompt` (see
    /// [`refined`]). With `use_original` the text and prompt kept from the
    /// previous refinement are reused.
    pub fn prepare_refine(&mut self, prompt: String, use_original: bool) -> (r: Option<Vec<ChatMessage>>)
        requires
            old(self).session.retrying_message_index != Some(usize::MAX),
        ensures
            refined(*old(self), prompt, use_original, *final(self), r),
    {
        proof {
            lemma_last_filled_assistant(self.ui.messages@);
        }
        let ghost c0 = *self;
        if !self.can_retry() {
            return None;
        }
        let count = self.ui.messages.len();
        assert(0 <= regen_target(c0) < usize::MAX) by {
            if c0.session.retrying_message_index is None {
                assert(c0.ui.messages@.len() == count);
            }
        }
        self.begin_refine(&prompt, use_original);
        let ri = match self.session.retrying_message_index {
            Some(ri) => ri,
            None => {
                return None;
            },
        };
        assert(ri as int == regen_target(c0));
        if ri > 0 {
            self.ui.scroll_target = ScrollTarget::Message(ri - 1);
        } else {
            self.ui.scroll_target = ScrollTarget::Top;
        }
        self.ui.auto_scroll = true;
        let api = self.refine_request_messages(ri, prompt.as_str(), use_original);
        assert(post_history_of(*self) == post_history_of(c0));
        assert(self.ui.messages@ == c0.ui.messages@);
        assert(wire(api@) == refine_request(c0, prompt@, use_original));
        Some(api)
    }
}

/// The session after a retry of message `t`: the tool records of that
/// message are dropped, it becomes the active assistant message, and the
/// retry index is `retrying`.
pub open spec fn retry_pruned(
    before: SessionContext,
    after: SessionContext,
    t: usize,
    retrying: Option<usize>,
) -> bool {
    &&& after.tool_result_history@ == kept_records(PruneRule::At(t), before.tool_result_history@)
    &&& after.tool_payload_history@ == kept_payloads(PruneRule::At(t), before.tool_payload_history@)
    &&& after == (SessionContext {
        tool_result_history: after.tool_result_history,
        tool_payload_history: after.tool_payload_history,
        active_assistant_message_index: Some(t),
        retrying_message_index: retrying,
        ..before
    })
}

/// What `prepare_retry` does. With no assistant message that has text it
/// does nothing; while a refinement keeps its original text and prompt it
/// refines again with them. Otherwise it regenerates the target message
/// (see [`regen_target`]): when no reply has arrived yet and the active
/// character has a greeting, the greeting is put back in place and nothing
/// is sent; else the message is emptied, marked as being retried, the view
/// scrolls to the user message before it, and the request for the
/// transcript before it is returned.
pub open spec fn retried(c0: ConversationController, c1: ConversationController, r: Option<Vec<ChatMessage>>) -> bool {
    if last_filled_assistant(c0.ui.messages@) is None {
        r is None && c1 == c0
    } else if c0.session.original_refining_content is Some && c0.session.last_refine_prompt is Some {
        refined(c0, c0.session.last_refine_prompt->0, true, c1, r)
    } else {
        regenerated(c0, c1, r)
    }
}

/// A retry that is no refinement (see [`retried`]).
pub open spec fn regenerated(c0: ConversationController, c1: ConversationController, r: Option<Vec<ChatMessage>>) -> bool {
    {
        let h = c0.ui.messages@;
        let t = regen_target(c0);
        let in_range = t < h.len();
        let assistant = in_range && h[t].role == TranscriptRole::Assistant;
        let reinsert = assistant && !c0.session.has_received_assistant_message && greeting_text(c0) is Some;
        let prunes = in_range && (c0.session.retrying_message_index is Some || !reinsert);
        &&& c1.prompts == c0.prompts
        &&& c1.ui.status == c0.ui.status
        &&& same_input_state(c0.ui, c1.ui)
        &&& c1.ui.scroll_offset == c0.ui.scroll_offset
        &&& prunes ==> retry_pruned(
            c0.session,
            c1.session,
            t as usize,
            if reinsert {
                None
            } else {
                Some(t as usize)
            },
        )
        &&& !prunes ==> c1.session == c0.session
        &&& reinsert ==> {
            &&& r is None
            &&& transcript(c1.ui.messages@) == transcript(h).update(
                t,
                (TranscriptRole::Assistant, greeting_text(c0)->0),
            )
            &&& c1.ui.current_response@.len() == 0
            &&& c1.ui.auto_scroll == c0.ui.auto_scroll
            &&& c1.ui.scroll_target == c0.ui.scroll_target
        }
        &&& !reinsert ==> {
            &&& assistant ==> transcript(c1.ui.messages@) == transcript(h).update(
                t,
                (TranscriptRole::Assistant, Seq::<char>::empty()),
            ) && c1.ui.current_response@.len() == 0
            &&& !assistant ==> c1.ui.messages@ == h && c1.ui.current_response
                == c0.ui.current_response
            &&& c1.ui.auto_scroll
            &&& c1.ui.scroll_target == scroll_before(t)
            &&& match r {
                Some(v) => wire(v@) == request_for(
                    c0,
                    h.take(
                        if in_range {
                            t
                        } else {
                            h.len() as int
                        },
                    ),
                    None,
                ) && plain(v@),
                None => false,
            }
        }
    }
}

impl ConversationController {
    fn prune_for_retry(&mut self, t: usize)
        ensures
            retry_pruned(
                old(self).session,
                final(self).session,
                t,
                old(self).session.retrying_message_index,
            ),
            final(self).ui == old(self).ui,
            final(self).prompts == old(self).prompts,
    {
        self.session.prune_tool_records_for_assistant_index(t);
        self.session.active_assistant_message_index = Some(t);
    }

    fn set_message_text(&mut self, t: usize, text: String)
        requires
            t < old(self).ui.messages@.len(),
        ensures
            final(self).ui.messages@ == old(self).ui.messages@.update(
                t as int,
                Message { role: TranscriptRole::Assistant, content: text },
            ),
            transcript(final(self).ui.messages@) == transcript(old(self).ui.messages@).update(
                t as int,
                (TranscriptRole::Assistant, text@),
            ),
            final(self).ui.current_response@.len() == 0,
            final(self).session == old(self).session,
            final(self).prompts == old(self).prompts,
            final(self).ui.status == old(self).ui.status,
            final(self).ui.auto_scroll == old(self).ui.auto_scroll,
            final(self).ui.scroll_target == old(self).ui.scroll_target,
            same_input_state(old(self).ui, final(self).ui),
            final(self).ui.scroll_offset == old(self).ui.scroll_offset,
    {
        let ghost h = self.ui.messages@;
        self.ui.messages[t] = Message::new(TranscriptRole::Assistant, text);
        assert(transcript(self.ui.messages@) =~= transcript(h).update(
            t as int,
            (TranscriptRole::Assistant, text@),
        ));
        self.ui.current_response = String::new();
    }

    fn retry_reinsert(&mut self, t: usize, greeting: String)
        requires
            t < old(self).ui.messages@.len(),
        ensures
            old(self).session.retrying_message_index is Some ==> retry_pruned(
                old(self).session,
                final(self).session,
                t,
                None,
            ),
            old(self).session.retrying_message_index is None ==> final(self).session == old(self).session,
            final(self).ui.messages@ == old(self).ui.messages@.update(
                t as int,
                Message { role: TranscriptRole::Assistant, content: greeting },
            ),
            transcript(final(self).ui.messages@) == transcript(old(self).ui.messages@).update(
                t as int,
                (TranscriptRole::Assistant, greeting@),
            ),
            final(self).ui.current_response@.len() == 0,
            final(self).prompts == old(self).prompts,
            final(self).ui.status == old(self).ui.status,
            final(self).ui.auto_scroll == old(self).ui.auto_scroll,
            final(self).ui.scroll_target == old(self).ui.scroll_target,
            same_input_state(old(self).ui, final(self).ui),
            final(self).ui.scroll_offset == old(self).ui.scroll_offset,
    {
        if self.session.retrying_message_index.is_some() {
            self.prune_for_retry(t);
        }
        self.set_message_text(t, greeting);
        self.session.retrying_message_index = None;
    }

    fn retry_regenerate(&mut self, t: usize) -> (r: Vec<ChatMessage>)
        ensures
            t < old(self).ui.messages@.len() ==> retry_pruned(
                old(self).session,
                final(self).session,
                t,
                Some(t),
            ),
            t >= old(self).ui.messages@.len() ==> final(self).session == old(self).session,
            ({
                let h = old(self).ui.messages@;
                &&& (t < h.len() && h[t as int].role == TranscriptRole::Assistant) ==> transcript(
                    final(self).ui.messages@,
                ) == transcript(h).update(t as int, (TranscriptRole::Assistant, Seq::<char>::empty()))
                    && final(self).ui.current_response@.len() == 0
                &&& !(t < h.len() && h[t as int].role == TranscriptRole::Assistant) ==> final(self).ui.messages@ == h && final(self).ui.current_response == old(self).ui.current_response
                &&& wire(r@) == request_for(
                    *old(self),
                    h.take(
                        if t < h.len() {
                            t as int
                        } else {
                            h.len() as int
                        },
                    ),
                    None,
                )
            }),
            plain(r@),
            final(self).prompts == old(self).prompts,
            final(self).ui.status == old(self).ui.status,
            same_input_state(old(self).ui, final(self).ui),
            final(self).ui.scroll_offset == old(self).ui.scroll_offset,
            final(self).ui.auto_scroll,
            final(self).ui.scroll_target == scroll_before(t as int),
    {
        let ghost h = self.ui.messages@;
        let n = self.ui.messages.len();
        let assistant = t < n && self.ui.messages[t].is_assistant();
        if t < n {
            self.prune_for_retry(t);
            self.session.retrying_message_index = Some(t);
        }
        if assistant {
            self.set_message_text(t, String::new());
        }
        if t > 0 {
            self.ui.scroll_target = ScrollTarget::Message(t - 1);
        } else {
            self.ui.scroll_target = ScrollTarget::Top;
        }
        self.ui.auto_scroll = true;
        let post = self.post_history();
        let api = api_messages_for(&self.ui.messages, t, self.prompts.system_prompt.as_str(), None, &post);
        let ghost k = if t < n {
            t as int
        } else {
            n as int
        };
        assert(self.ui.messages@.take(k) =~= h.take(k));
        api
    }

    fn retry_message(&mut self) -> (r: Option<Vec<ChatMessage>>)
        requires
            last_filled_assistant(old(self).ui.messages@) is Some,
        ensures
            regenerated(*old(self), *final(self), r),
    {
        proof {
            lemma_last_filled_assistant(self.ui.messages@);
        }
        let ghost c0 = *self;
        let greeting = if !self.session.has_received_assistant_message {
            self.character_greeting_text()
        } else {
            None
        };
        let t = match self.session.retrying_message_index {
            Some(ri) => ri,
            None => match find_last_filled_assistant(&self.ui.messages) {
                Some(i) => i,
                None => {
                    return None;
                },
            },
        };
        assert(t as int == regen_target(c0));
        let n = self.ui.messages.len();
        let assistant = t < n && self.ui.messages[t].is_assistant();
        if assistant {
            if let Some(g) = greeting {
                self.retry_reinsert(t, g);
                return None;
            }
        }
        let api = self.retry_regenerate(t);
        Some(api)
    }

    /// Regenerates the last reply, or the one being retried (see
    /// [`retried`]).
    pub fn prepare_retry(&mut self) -> (r: Option<Vec<ChatMessage>>)
        requires
            old(self).session.retrying_message_index != Some(usize::MAX),
        ensures
            retried(*old(self), *final(self), r),
    {
        if !self.can_retry() {
            return None;
        }
        if self.session.original_refining_content.is_some() {
            if let Some(p) = &self.session.last_refine_prompt {
                let prompt = p.clone();
                return self.prepare_refine(prompt, true);
            }
        }
        self.retry_message()
    }
}

/// Rows left for the transcript: the terminal height less the input area,
/// its two border rows and the status row, and never below zero.
pub open spec fn available_height_spec(term_height: int, input_area_height: int) -> int {
    let rest = term_height - (input_area_height + 2);
    if rest <= 1 {
        0
    } else {
        rest - 1
    }
}

impl ConversationController {
    /// Rows left for the transcript (see [`available_height_spec`]).
    pub fn calculate_available_height(&self, term_height: u16, input_area_height: u16) -> (r: u16)
        requires
            input_area_height + 2 <= u16::MAX,
        ensures
            r == available_height_spec(term_height as int, input_area_height as int),
    {
        term_height.saturating_sub(input_area_height + 2).saturating_sub(1)
    }
}

/// Whether message `i` of `h` is one the user wrote.
pub open spec fn user_at(h: Seq<Message>, i: int) -> bool {
    0 <= i < h.len() && h[i].role == TranscriptRole::User
}

impl UiState {
    /// The index of the last user message, if any.
    pub fn last_user_message_index(&self) -> (r: Option<usize>)
        ensures
            match r {
                Some(i) => user_at(self.messages@, i as int) && forall|j: int|
                    i < j < self.messages@.len() ==> !user_at(self.messages@, j),
                None => forall|j: int| 0 <= j < self.messages@.len() ==> !user_at(self.messages@, j),
            },
    {
        self.prev_user_message_index(self.messages.len())
    }

    /// The index of the last user message before `from_index`, if any.
    pub fn prev_user_message_index(&self, from_index: usize) -> (r: Option<usize>)
        ensures
            match r {
                Some(i) => i < from_index && user_at(self.messages@, i as int) && forall|j: int|
                    i < j < from_index ==> !user_at(self.messages@, j),
                None => forall|j: int| 0 <= j < from_index ==> !user_at(self.messages@, j),
            },
    {
        let n = self.messages.len();
        let mut k: usize = if from_index < n {
            from_index
        } else {
            n
        };
        while k > 0
            invariant
                k <= n,
                n == self.messages@.len(),
                k <= from_index,
                forall|j: int| k <= j < from_index ==> !user_at(self.messages@, j),
            decreases k,
        {
            if self.messages[k - 1].is_user() {
                return Some(k - 1);
            }
            k = k - 1;
        }
        None
    }

    /// The index of the first user message after `from_index`, if any.
    pub fn next_user_message_index(&self, from_index: usize) -> (r: Option<usize>)
        requires
            from_index < usize::MAX,
        ensures
            match r {
                Some(i) => from_index < i && user_at(self.messages@, i as int) && forall|j: int|
                    from_index < j < i ==> !user_at(self.messages@, j),
                None => forall|j: int| from_index < j ==> !user_at(self.messages@, j),
            },
    {
        let n = self.messages.len();
        let mut k: usize = from_index + 1;
        while k < n
            invariant
                n == self.messages@.len(),
                from_index < k,
                forall|j: int| from_index < j < k ==> !user_at(self.messages@, j),
            decreases n - k,
        {
            if self.messages[k].is_user() {
                return Some(k);
            }
            k = k + 1;
        }
        None
    }

    /// The index of the first user message, if any.
    pub fn first_user_message_index(&self) -> (r: Option<usize>)
        ensures
            match r {
                Some(i) => user_at(self.messages@, i as int) && forall|j: int|
                    0 <= j < i ==> !user_at(self.messages@, j),
                None => forall|j: int| 0 <= j < self.messages@.len() ==> !user_at(self.messages@, j),
            },
    {
        let n = self.messages.len();
        let mut k: usize = 0;
        while k < n
            invariant
                n == self.messages@.len(),
                k <= n,
                forall|j: int| 0 <= j < k ==> !user_at(self.messages@, j),
            decreases n - k,
        {
            if self.messages[k].is_user() {
                return Some(k);
            }
            k = k + 1;
        }
        None
    }
}

} // verus!
