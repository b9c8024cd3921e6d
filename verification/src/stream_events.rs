//! Streams of a reply: their ids, the events they report, and what the
//! conversation does with each. An event of a stream that is no longer the
//! current one is dropped.

use vstd::prelude::*;
use crate::conversation::{
    api_messages_for, app_message_added, pending_calls_taken, placeholder_added, plain, refined,
    request_for, response_appended, response_finalized, retried, retry_after_shrink,
    same_prompts_and_scroll, user_message_added, without_trailing_blank_assistants, wire,
    AppMessageKind, ConversationController, Message, TranscriptRole,
};
use crate::mcp_prompt::{mcp_prompt_report, prompt_report};
use crate::session::{
    calls_view, keys_increasing, with_delta, ChatMessage, McpPromptRequest, PendingToolCall,
    SessionContext, ToolCallDelta,
};
use crate::stream_errors::{stream_error_handled, StreamErrorOutcome};
use crate::text::{str_is_empty, trim, trim_seq};
use crate::tool_flow::{call_request_entry, chat_messages_view, opt_view};

verus! {

/// What a running stream reports, with the id of the stream.
pub enum StreamEvent {
    AppendResponseChunk { content: String, stream_id: u64 },
    StreamAppMessage { kind: AppMessageKind, message: String, stream_id: u64 },
    StreamToolCallDelta { delta: ToolCallDelta, stream_id: u64 },
    StreamErrored { message: String, stream_id: u64 },
    StreamCompleted { stream_id: u64 },
}

/// The stream an event comes from.
pub open spec fn event_stream(e: StreamEvent) -> u64 {
    match e {
        StreamEvent::AppendResponseChunk { stream_id, .. } => stream_id,
        StreamEvent::StreamAppMessage { stream_id, .. } => stream_id,
        StreamEvent::StreamToolCallDelta { stream_id, .. } => stream_id,
        StreamEvent::StreamErrored { stream_id, .. } => stream_id,
        StreamEvent::StreamCompleted { stream_id } => stream_id,
    }
}

/// What became of a stream event.
pub enum StreamEventOutcome {
    /// It came from a stream that is no longer the current one.
    Stale,
    /// It was taken into the conversation.
    Applied,
    /// The stream failed; what to show, or whether to send again.
    Failed(StreamErrorOutcome),
    /// The current stream is done; the caller parses the arguments of the
    /// pending tool calls and calls `finalize_stream`.
    Finished,
}

/// `before` without the tool work of the reply in flight: its pending and
/// queued calls, the active request, the call records and the results.
pub open spec fn without_tool_work(before: SessionContext, after: SessionContext) -> bool {
    &&& after == (SessionContext {
        pending_tool_calls: after.pending_tool_calls,
        pending_tool_queue: after.pending_tool_queue,
        active_tool_request: None,
        tool_call_records: after.tool_call_records,
        tool_results: after.tool_results,
        ..before
    })
    &&& after.pending_tool_calls@.len() == 0
    &&& after.pending_tool_queue@.len() == 0
    &&& after.tool_call_records@.len() == 0
    &&& after.tool_results@.len() == 0
}

/// A chunk of reply text: an empty one changes nothing.
pub open spec fn chunk_taken(c0: ConversationController, c1: ConversationController, chunk: Seq<
    char,
>) -> bool {
    if chunk.len() == 0 {
        c1 == c0
    } else {
        response_appended(c0, c1, chunk)
    }
}

/// A message of the stream, trimmed: a blank one changes nothing.
pub open spec fn stream_message_taken(
    c0: ConversationController,
    c1: ConversationController,
    kind: AppMessageKind,
    message: Seq<char>,
    log_failure: Option<String>,
) -> bool {
    if trim_seq(message).len() == 0 {
        c1 == c0
    } else {
        exists|t: String|
            t@ == trim_seq(message) && #[trigger] app_message_added(c0, c1, kind, t, log_failure)
    }
}

/// A piece of a tool call merged into the pending calls.
pub open spec fn delta_taken(c0: ConversationController, c1: ConversationController, d: ToolCallDelta) -> bool {
    &&& calls_view(c1.session.pending_tool_calls@) == with_delta(
        calls_view(c0.session.pending_tool_calls@),
        d,
    )
    &&& keys_increasing(c0.session.pending_tool_calls@) ==> keys_increasing(
        c1.session.pending_tool_calls@,
    )
    &&& c1.session == (SessionContext {
        pending_tool_calls: c1.session.pending_tool_calls,
        ..c0.session
    })
    &&& c1.ui == c0.ui
    &&& c1.prompts == c0.prompts
}

/// What taking `e` does: an event of any stream but the current one changes
/// nothing; the others are applied as their kind says.
pub open spec fn event_taken(
    c0: ConversationController,
    c1: ConversationController,
    e: StreamEvent,
    log_failure: Option<String>,
    r: StreamEventOutcome,
) -> bool {
    if event_stream(e) != c0.session.current_stream_id {
        r is Stale && c1 == c0
    } else {
        match e {
            StreamEvent::AppendResponseChunk { content, .. } => r is Applied && chunk_taken(
                c0,
                c1,
                content@,
            ),
            StreamEvent::StreamAppMessage { kind, message, .. } => r is Applied
                && stream_message_taken(c0, c1, kind, message@, log_failure),
            StreamEvent::StreamToolCallDelta { delta, .. } => r is Applied && delta_taken(c0, c1, delta),
            StreamEvent::StreamErrored { message, .. } => r matches StreamEventOutcome::Failed(o)
                && stream_error_handled(c0, c1, message@, o),
            StreamEvent::StreamCompleted { .. } => r is Finished && c1 == c0,
        }
    }
}

/// What starting a stream does (see `start_new_stream`).
pub open spec fn stream_started(c0: ConversationController, c1: ConversationController, id: u64) -> bool {
    &&& id == c0.session.current_stream_id + 1
    &&& without_tool_work(
        SessionContext { current_stream_id: id, mcp_tools_enabled: false, ..c0.session },
        c1.session,
    )
    &&& c1.ui == c0.ui
    &&& c1.prompts == c0.prompts
}


/// Preparing a retry leaves the stream id alone.
proof fn lemma_retry_keeps_stream_id(
    c0: ConversationController,
    c1: ConversationController,
    m: Option<Vec<ChatMessage>>,
)
    requires
        retried(c0, c1, m),
    ensures
        c1.session.current_stream_id == c0.session.current_stream_id,
{
}

impl SessionContext {
    /// Whether `stream_id` is the stream being listened to.
    pub fn is_current_stream(&self, stream_id: u64) -> (r: bool)
        ensures
            r == (stream_id == self.current_stream_id),
    {
        stream_id == self.current_stream_id
    }
}

impl ConversationController {
    /// Starts a stream without touching the screen: the pending tool calls
    /// are forgotten and the stream gets the next id, which comes back.
    pub fn start_new_stream_headless(&mut self) -> (r: u64)
        requires
            old(self).session.current_stream_id < u64::MAX,
        ensures
            r == old(self).session.current_stream_id + 1,
            final(self).session == (SessionContext {
                current_stream_id: r,
                pending_tool_calls: final(self).session.pending_tool_calls,
                ..old(self).session
            }),
            final(self).session.pending_tool_calls@.len() == 0,
            final(self).ui == old(self).ui,
            final(self).prompts == old(self).prompts,
    {
        self.clear_pending_tool_calls();
        self.session.current_stream_id = self.session.current_stream_id + 1;
        self.session.current_stream_id
    }

    /// Starts a stream: the tool work of the previous reply is dropped, tool
    /// calling stays off until tools are offered again, and the stream gets
    /// the next id, which comes back.
    pub fn start_new_stream(&mut self) -> (r: u64)
        requires
            old(self).session.current_stream_id < u64::MAX,
        ensures
            stream_started(*old(self), *final(self), r),
    {
        self.reset_tool_work();
        self.session.mcp_tools_enabled = false;
        self.session.current_stream_id = self.session.current_stream_id + 1;
        self.session.current_stream_id
    }

    fn reset_tool_work(&mut self)
        ensures
            without_tool_work(old(self).session, final(self).session),
            final(self).ui == old(self).ui,
            final(self).prompts == old(self).prompts,
    {
        self.session.pending_tool_calls = Vec::new();
        self.session.pending_tool_queue = std::collections::VecDeque::new();
        self.session.active_tool_request = None;
        self.session.tool_call_records = Vec::new();
        self.session.tool_results = Vec::new();
    }

    /// Empties the transcript and forgets the retry, the refinement, the
    /// greeting and the tool work of the conversation.
    pub fn clear_transcript(&mut self)
        ensures
            final(self).ui.messages@.len() == 0,
            final(self).ui.current_response@.len() == 0,
            without_tool_work(
                SessionContext {
                    retrying_message_index: None,
                    is_refining: false,
                    original_refining_content: None,
                    last_refine_prompt: None,
                    has_received_assistant_message: false,
                    character_greeting_shown: false,
                    ..old(self).session
                },
                final(self).session,
            ),
            final(self).ui.status == old(self).ui.status,
            same_prompts_and_scroll(*old(self), *final(self)),
    {
        self.ui.messages = Vec::new();
        self.ui.current_response = String::new();
        self.session.retrying_message_index = None;
        self.session.is_refining = false;
        self.session.original_refining_content = None;
        self.session.last_refine_prompt = None;
        self.session.has_received_assistant_message = false;
        self.session.character_greeting_shown = false;
        self.reset_tool_work();
    }

    /// Streams a chunk of the reply in; an empty chunk changes nothing.
    pub fn append_response_chunk(&mut self, chunk: &str)
        ensures
            chunk_taken(*old(self), *final(self), chunk@),
    {
        if str_is_empty(chunk) {
            return;
        }
        self.append_to_response(chunk);
    }

    /// Adds a message the stream reported, trimmed; a blank one is dropped.
    /// `log_failure` is why writing it to the log failed, if it did.
    pub fn append_stream_app_message(
        &mut self,
        kind: AppMessageKind,
        message: &str,
        log_failure: Option<String>,
    )
        ensures
            stream_message_taken(*old(self), *final(self), kind, message@, log_failure),
    {
        let trimmed = trim(message);
        if str_is_empty(trimmed.as_str()) {
            return;
        }
        let ghost t = trimmed;
        self.add_app_message(kind, trimmed, log_failure);
        assert(app_message_added(*old(self), *self, kind, t, log_failure));
    }

    /// Ends the current stream: the pending tool calls are taken (a line for
    /// each goes to the transcript) and the reply is finalized. With no tool
    /// call the messages sent for the stream are forgotten. The two failures
    /// are those of rewriting and of writing the log.
    pub fn finalize_stream(
        &mut self,
        rewrite_failure: Option<String>,
        log_failure: Option<String>,
    ) -> (r: Vec<(u32, PendingToolCall)>)
        ensures
            exists|c1: ConversationController, c2: ConversationController|
                #[trigger] pending_calls_taken(*old(self), c1, r@) && #[trigger]
                response_finalized(c1, c2, rewrite_failure, log_failure) && *final(self) == if r@.len()
                    == 0 {
                    ConversationController {
                        session: SessionContext { last_stream_api_messages: None, ..c2.session },
                        ..c2
                    }
                } else {
                    c2
                },
    {
        let pending = self.take_pending_tool_calls();
        let ghost c1 = *self;
        self.finalize_response(rewrite_failure, log_failure);
        let ghost c2 = *self;
        if pending.len() == 0 {
            self.session.last_stream_api_messages = None;
        }
        assert(pending_calls_taken(*old(self), c1, pending@));
        assert(response_finalized(c1, c2, rewrite_failure, log_failure));
        pending
    }

    /// Sends the user's message: a stream starts, then the message and an
    /// empty reply join the transcript. Returns the request for the message
    /// and the stream's id. `log_failure` is why logging the message failed,
    /// if it did.
    pub fn stream_for_message(&mut self, message: String, log_failure: Option<String>) -> (r: (
        Vec<ChatMessage>,
        u64,
    ))
        requires
            old(self).session.current_stream_id < u64::MAX,
        ensures
            exists|c1: ConversationController|
                #[trigger] stream_started(*old(self), c1, r.1) && user_message_added(
                    c1,
                    *final(self),
                    message,
                    log_failure,
                    r.0@,
                ),
    {
        let ghost msg = message;
        let ghost lf = log_failure;
        let id = self.start_new_stream();
        let ghost c1 = *self;
        let request = self.add_user_message(message, log_failure);
        assert(stream_started(*old(self), c1, id) && user_message_added(c1, *self, msg, lf, request@));
        assert(exists|c: ConversationController|
            #[trigger] stream_started(*old(self), c, id) && user_message_added(
                c,
                *self,
                msg,
                lf,
                request@,
            ));
        let r = (request, id);
        assert(r.1 == id && r.0@ == request@);
        r
    }

    /// Starts a stream whose reply goes into a new empty assistant message;
    /// returns the stream's id.
    pub fn start_reply_stream(&mut self) -> (r: u64)
        requires
            old(self).session.current_stream_id < u64::MAX,
        ensures
            exists|c1: ConversationController|
                #[trigger] stream_started(*old(self), c1, r) && placeholder_added(c1, *final(self)),
    {
        let id = self.start_new_stream();
        let ghost c1 = *self;
        self.add_assistant_placeholder();
        assert(stream_started(*old(self), c1, id));
        id
    }

    /// Retries the last reply: nothing happens within 200 ms of the previous
    /// retry or when the terminal has no size; otherwise the retry is
    /// prepared (see `prepare_retry`) and, when there is something to
    /// retry, a stream is started for it. Returns the request and the id.
    pub fn retry_stream(&mut self, millis_since_last_retry: u128, term_width: u16, term_height: u16)
        -> (r: Option<(Vec<ChatMessage>, u64)>)
        requires
            old(self).session.retrying_message_index != Some(usize::MAX),
            old(self).session.current_stream_id < u64::MAX,
        ensures
            millis_since_last_retry < 200 || term_width == 0 || term_height == 0 ==> r is None
                && *final(self) == *old(self),
            !(millis_since_last_retry < 200 || term_width == 0 || term_height == 0) ==> exists|
                c1: ConversationController,
                m: Option<Vec<ChatMessage>>,
            |
                #[trigger] retried(*old(self), c1, m) && match m {
                    None => r is None && *final(self) == c1,
                    Some(request) => r matches Some((q, id)) && q == request && stream_started(
                        c1,
                        *final(self),
                        id,
                    ),
                },
    {
        if millis_since_last_retry < 200 || term_width == 0 || term_height == 0 {
            return None;
        }
        let m = self.prepare_retry();
        let ghost c1 = *self;
        let ghost mg = m;
        assert(retried(*old(self), c1, mg));
        match m {
            None => None,
            Some(request) => {
                proof {
                    lemma_retry_keeps_stream_id(*old(self), c1, mg);
                }
                let id = self.start_new_stream();
                Some((request, id))
            },
        }
    }

    /// Refines the last reply with `prompt`: nothing happens when the
    /// terminal has no size; otherwise the refinement is prepared (see
    /// `prepare_refine`) and, when there is something to refine, a stream is
    /// started for it. Returns the request and the id.
    pub fn refine_stream(&mut self, prompt: String, term_width: u16, term_height: u16) -> (r: Option<
        (Vec<ChatMessage>, u64),
    >)
        requires
            old(self).session.retrying_message_index != Some(usize::MAX),
            old(self).session.current_stream_id < u64::MAX,
        ensures
            term_width == 0 || term_height == 0 ==> r is None && *final(self) == *old(self),
            !(term_width == 0 || term_height == 0) ==> exists|
                c1: ConversationController,
                m: Option<Vec<ChatMessage>>,
            |
                #[trigger] refined(*old(self), prompt, false, c1, m) && match m {
                    None => r is None && *final(self) == c1,
                    Some(request) => r matches Some((q, id)) && q == request && stream_started(
                        c1,
                        *final(self),
                        id,
                    ),
                },
    {
        if term_width == 0 || term_height == 0 {
            return None;
        }
        let ghost p = prompt;
        let m = self.prepare_refine(prompt, false);
        let ghost c1 = *self;
        let ghost mg = m;
        assert(refined(*old(self), p, false, c1, mg));
        match m {
            None => None,
            Some(request) => {
                assert(c1.session.current_stream_id == old(self).session.current_stream_id);
                let id = self.start_new_stream();
                Some((request, id))
            },
        }
    }

    /// Sends the turn again after its tool calls: the request is `base` (the
    /// one the turn was sent with), the assistant message that asked for the
    /// calls and their results (see `continuation_request`). Nothing happens
    /// without a base or when the terminal has no size; otherwise a stream is
    /// started for a new reply. Returns the request and the id.
    pub fn stream_after_tools(&mut self, base: Option<Vec<ChatMessage>>, term_width: u16, term_height: u16)
        -> (r: Option<(Vec<ChatMessage>, u64)>)
        requires
            old(self).session.current_stream_id < u64::MAX,
        ensures
            base is None || term_width == 0 || term_height == 0 ==> r is None && *final(self)
                == *old(self),
            !(base is None || term_width == 0 || term_height == 0) ==> (r matches Some((q, id))
                && chat_messages_view(q@) == chat_messages_view(base->0@) + call_request_entry(
                old(self).session.tool_call_records@,
            ) + chat_messages_view(old(self).session.tool_results@) && exists|
                c1: ConversationController,
            | #[trigger] stream_started(*old(self), c1, id) && placeholder_added(c1, *final(self))),
    {
        let b = match base {
            Some(b) => b,
            None => return None,
        };
        let request = self.session.continuation_request(b);
        if term_width == 0 || term_height == 0 {
            return None;
        }
        let ghost c0 = *self;
        assert(c0 == *old(self));
        let id = self.start_reply_stream();
        let ghost c1 = choose|c1: ConversationController|
            #[trigger] stream_started(c0, c1, id) && placeholder_added(c1, *self);
        assert(stream_started(*old(self), c1, id) && placeholder_added(c1, *self));
        assert(exists|c: ConversationController|
            #[trigger] stream_started(*old(self), c, id) && placeholder_added(c, *self));
        let r = Some((request, id));
        assert(r matches Some((q, i)) && q@ == request@ && i == id);
        r
    }

    /// Sends the turn again without tools after the model refused them:
    /// nothing happens without the request of the turn or when the terminal
    /// has no size; otherwise a stream is started for a new reply. Returns
    /// that request and the id.
    pub fn resend_without_tools(&mut self, term_width: u16, term_height: u16) -> (r: Option<
        (Vec<ChatMessage>, u64),
    >)
        requires
            old(self).session.current_stream_id < u64::MAX,
        ensures
            old(self).session.last_stream_api_messages_base is None || term_width == 0
                || term_height == 0 ==> r is None && *final(self) == *old(self),
            !(old(self).session.last_stream_api_messages_base is None || term_width == 0
                || term_height == 0) ==> (r matches Some((q, id)) && chat_messages_view(q@)
                == chat_messages_view(old(self).session.last_stream_api_messages_base->0@) && exists|
                c1: ConversationController,
            | #[trigger] stream_started(*old(self), c1, id) && placeholder_added(c1, *final(self))),
    {
        let base = match &self.session.last_stream_api_messages_base {
            Some(b) => crate::tool_flow::copy_chat_messages(b),
            None => return None,
        };
        if term_width == 0 || term_height == 0 {
            return None;
        }
        let ghost c0 = *self;
        let id = self.start_reply_stream();
        let ghost c1 = choose|c1: ConversationController|
            #[trigger] stream_started(c0, c1, id) && placeholder_added(c1, *self);
        assert(stream_started(*old(self), c1, id) && placeholder_added(c1, *self));
        assert(exists|c: ConversationController|
            #[trigger] stream_started(*old(self), c, id) && placeholder_added(c, *self));
        let r = Some((base, id));
        assert(r matches Some((q, i)) && q@ == base@ && i == id);
        r
    }

    /// Takes what running an MCP prompt gave: the status is cleared; an
    /// error or an empty answer is reported; otherwise the blank assistant
    /// messages at the end are dropped, the prompt's messages and a note
    /// that it was applied join the transcript, and a stream is started for
    /// the whole transcript. Returns that request and the stream's id.
    pub fn apply_mcp_prompt_result(&mut self, request: &McpPromptRequest, result: Result<
        Vec<Message>,
        String,
    >) -> (r: Option<(Vec<ChatMessage>, u64)>)
        requires
            old(self).session.current_stream_id < u64::MAX,
        ensures
            final(self).ui.status is None,
            final(self).prompts == old(self).prompts,
            final(self).ui.current_response == old(self).ui.current_response,
            same_prompts_and_scroll(*old(self), *final(self)),
            result matches Err(e) ==> r is None && final(self).session == old(self).session
                && final(self).ui.messages@ == old(self).ui.messages@.push(
                Message {
                    role: TranscriptRole::AppError,
                    content: final(self).ui.messages@.last().content,
                },
            ) && final(self).ui.messages@.last().content@ == prompt_report(*request, Err(e@)),
            result matches Ok(ms) && ms@.len() == 0 ==> r is None && final(self).session == old(
                self,
            ).session && final(self).ui.messages@ == old(self).ui.messages@.push(
                Message {
                    role: TranscriptRole::AppWarning,
                    content: final(self).ui.messages@.last().content,
                },
            ) && final(self).ui.messages@.last().content@ == prompt_report(*request, Ok(0)),
            result is Ok && result->Ok_0@.len() > 0 ==> ({
                let ms = result->Ok_0;
                let kept = without_trailing_blank_assistants(old(self).ui.messages@);
                &&& r matches Some((q, id)) && wire(q@) == request_for(
                    *final(self),
                    final(self).ui.messages@,
                    None,
                ) && stream_started(
                    ConversationController {
                        session: SessionContext {
                            retrying_message_index: retry_after_shrink(
                                old(self).session.retrying_message_index,
                                old(self).ui.messages@.len(),
                                kept.len(),
                            ),
                            ..old(self).session
                        },
                        ui: final(self).ui,
                        ..*old(self)
                    },
                    *final(self),
                    id,
                )
                &&& final(self).ui.messages@.drop_last() == kept + ms@
                &&& final(self).ui.messages@.last().role == TranscriptRole::AppInfo
                &&& final(self).ui.messages@.last().content@ == prompt_report(
                    *request,
                    Ok(ms@.len()),
                )
            }),
    {
        self.clear_status();
        match result {
            Err(e) => {
                let out: Result<usize, String> = Err(e);
                let text = mcp_prompt_report(request, &out);
                self.add_app_message(AppMessageKind::Error, text, None);
                None
            },
            Ok(ms) => {
                if ms.len() == 0 {
                    let text = mcp_prompt_report(request, &Ok(0));
                    self.add_app_message(AppMessageKind::Warning, text, None);
                    return None;
                }
                self.remove_trailing_empty_assistant_messages();
                let ghost c1 = *self;
                let ghost kept = self.ui.messages@;
                let mut i: usize = 0;
                while i < ms.len()
                    invariant
                        i <= ms@.len(),
                        self.ui.messages@ == kept + ms@.take(i as int),
                        self.session == c1.session,
                        self.prompts == c1.prompts,
                        self.ui.status == c1.ui.status,
                        self.ui.current_response == c1.ui.current_response,
                        same_prompts_and_scroll(c1, *self),
                    decreases ms.len() - i,
                {
                    let m = Message { role: ms[i].role, content: ms[i].content.clone() };
                    self.add_message(m);
                    assert(ms@.take(i + 1) =~= ms@.take(i as int).push(ms@[i as int]));
                    i = i + 1;
                }
                assert(ms@.take(ms@.len() as int) =~= ms@);
                let n = ms.len();
                let text = mcp_prompt_report(request, &Ok(n));
                self.add_app_message(AppMessageKind::Info, text, None);
                let ghost c2 = *self;
                assert(c2.ui.messages@.drop_last() =~= kept + ms@);
                let id = self.start_new_stream();
                let q = self.api_messages_from_history();
                let r = Some((q, id));
                assert(r matches Some((x, i)) && x == q && i == id);
                r
            },
        }
    }

    /// The request for `messages` in a stream started without touching the
    /// screen (see `start_new_stream_headless`), with `additional_system_prompt`
    /// added to the system prompt. Returns the request and the stream's id.
    pub fn stream_parameters(&mut self, messages: Vec<Message>, additional_system_prompt: Option<
        String,
    >) -> (r: (Vec<ChatMessage>, u64))
        requires
            old(self).session.current_stream_id < u64::MAX,
        ensures
            r.1 == old(self).session.current_stream_id + 1,
            final(self).session == (SessionContext {
                current_stream_id: r.1,
                pending_tool_calls: final(self).session.pending_tool_calls,
                ..old(self).session
            }),
            final(self).session.pending_tool_calls@.len() == 0,
            final(self).ui == old(self).ui,
            final(self).prompts == old(self).prompts,
            wire(r.0@) == request_for(*old(self), messages@, opt_view(additional_system_prompt)),
            plain(r.0@),
    {
        let ghost add = additional_system_prompt;
        let id = self.start_new_stream_headless();
        let post = self.post_history();
        let q = api_messages_for(
            &messages,
            messages.len(),
            self.prompts.system_prompt.as_str(),
            additional_system_prompt,
            &post,
        );
        assert(messages@.take(messages@.len() as int) =~= messages@);
        let r = (q, id);
        assert(r.1 == id && r.0@ == q@);
        r
    }

    /// Takes an event of a stream. Events of any stream but the current one
    /// change nothing and come back `Stale`.
    pub fn apply_stream_event(&mut self, event: StreamEvent, log_failure: Option<String>) -> (r:
        StreamEventOutcome)
        ensures
            event_taken(*old(self), *final(self), event, log_failure, r),
    {
        let id = match &event {
            StreamEvent::AppendResponseChunk { stream_id, .. } => *stream_id,
            StreamEvent::StreamAppMessage { stream_id, .. } => *stream_id,
            StreamEvent::StreamToolCallDelta { stream_id, .. } => *stream_id,
            StreamEvent::StreamErrored { stream_id, .. } => *stream_id,
            StreamEvent::StreamCompleted { stream_id } => *stream_id,
        };
        if !self.session.is_current_stream(id) {
            return StreamEventOutcome::Stale;
        }
        match event {
            StreamEvent::AppendResponseChunk { content, .. } => {
                self.append_response_chunk(content.as_str());
                StreamEventOutcome::Applied
            },
            StreamEvent::StreamAppMessage { kind, message, .. } => {
                self.append_stream_app_message(kind, message.as_str(), log_failure);
                StreamEventOutcome::Applied
            },
            StreamEvent::StreamToolCallDelta { delta, .. } => {
                self.session.append_tool_call_delta(delta);
                StreamEventOutcome::Applied
            },
            StreamEvent::StreamErrored { message, .. } => {
                let o = self.handle_stream_error(message.as_str());
                StreamEventOutcome::Failed(o)
            },
            StreamEvent::StreamCompleted { .. } => StreamEventOutcome::Finished,
        }
    }
}

} // verus!
