//! What a failed response stream means: an ordinary error to show, or a
//! model that does not take tool definitions, in which case tool calling is
//! switched off and the request is sent again without tools.

use vstd::prelude::*;
use crate::session::SessionContext;
use crate::conversation::{
    AppMessageKind, ConversationController, Message, TranscriptRole, retry_after_shrink,
    same_prompts_and_scroll, transcript, without_trailing_blank_assistants,
};
use crate::text::{ascii_lower_seq, contains_str, seq_contains, str_to_string, to_ascii_lowercase, trim, trim_seq};

verus! {

/// Words by which an error speaks of tool calling.
pub open spec fn mentions_tools(lower: Seq<char>) -> bool {
    ||| seq_contains(lower, "tools"@)
    ||| seq_contains(lower, "tool_calls"@)
    ||| seq_contains(lower, "tool call"@)
    ||| seq_contains(lower, "function_call"@)
    ||| seq_contains(lower, "function calling"@)
}

/// Words by which an error says something is not supported.
pub open spec fn signals_unsupported(lower: Seq<char>) -> bool {
    ||| seq_contains(lower, "not supported"@)
    ||| seq_contains(lower, "unsupported"@)
    ||| seq_contains(lower, "unknown field"@)
    ||| seq_contains(lower, "unknown parameter"@)
    ||| seq_contains(lower, "unrecognized"@)
    ||| seq_contains(lower, "unexpected field"@)
    ||| seq_contains(lower, "invalid parameter"@)
    ||| seq_contains(lower, "extra fields"@)
    ||| seq_contains(lower, "does not support"@)
}

/// Whether an error message, in ASCII lowercase, speaks of tool calling
/// and says it is not supported.
pub open spec fn tool_unsupported(message: Seq<char>) -> bool {
    mentions_tools(ascii_lower_seq(message)) && signals_unsupported(ascii_lower_seq(message))
}

/// Whether a stream error says the model does not take tool definitions
/// (see `tool_unsupported`).
pub fn is_tool_unsupported_error(message: &str) -> (r: bool)
    ensures
        r == tool_unsupported(message@),
{
    let lower = to_ascii_lowercase(message);
    let l = lower.as_str();
    let mentions = contains_str(l, "tools") || contains_str(l, "tool_calls") || contains_str(
        l,
        "tool call",
    ) || contains_str(l, "function_call") || contains_str(l, "function calling");
    if !mentions {
        return false;
    }
    contains_str(l, "not supported") || contains_str(l, "unsupported") || contains_str(
        l,
        "unknown field",
    ) || contains_str(l, "unknown parameter") || contains_str(l, "unrecognized") || contains_str(
        l,
        "unexpected field",
    ) || contains_str(l, "invalid parameter") || contains_str(l, "extra fields") || contains_str(
        l,
        "does not support",
    )
}

/// What a stream error leads to.
pub enum StreamErrorOutcome {
    /// Show the (trimmed) error.
    ShowError(String),
    /// Tool calling was switched off: show the warning and, when the
    /// messages of the failed request are kept, send them again.
    ToolsDisabled { warning: String, resend: bool },
}

/// The warning shown when the model does not take tools.
pub open spec fn tools_disabled_warning() -> Seq<char> {
    "MCP tool-calling is enabled, but the currently selected model does not support it. It will be disabled until you switch models."@
}

impl SessionContext {
    /// A stream failed with `message`. When tools were offered, were not
    /// already known to be unsupported, and the error says they are not
    /// supported, tool calling is switched off for the model; otherwise the
    /// trimmed error is to be shown and the session is unchanged.
    pub fn classify_stream_error(&mut self, message: &str) -> (r: StreamErrorOutcome)
        ensures
            ({
                let t = trim_seq(message@);
                if old(self).mcp_tools_enabled && !old(self).mcp_tools_unsupported
                    && tool_unsupported(t) {
                    &&& *final(self) == (SessionContext {
                        mcp_tools_unsupported: true,
                        mcp_tools_enabled: false,
                        ..*old(self)
                    })
                    &&& r matches StreamErrorOutcome::ToolsDisabled { warning, resend }
                    &&& warning@ == tools_disabled_warning()
                    &&& resend == old(self).last_stream_api_messages_base is Some
                } else {
                    *final(self) == *old(self) && (r matches StreamErrorOutcome::ShowError(m)
                        && m@ == t)
                }
            }),
    {
        let trimmed = trim(message);
        if self.mcp_tools_enabled && !self.mcp_tools_unsupported && is_tool_unsupported_error(
            trimmed.as_str(),
        ) {
            self.mcp_tools_unsupported = true;
            self.mcp_tools_enabled = false;
            return StreamErrorOutcome::ToolsDisabled {
                warning: str_to_string(
                    "MCP tool-calling is enabled, but the currently selected model does not support it. It will be disabled until you switch models.",
                ),
                resend: self.last_stream_api_messages_base.is_some(),
            };
        }
        StreamErrorOutcome::ShowError(trimmed)
    }
}

/// Whether a stream error with `message` switches tool calling off for the
/// session `s` (see `classify_stream_error`).
pub open spec fn disables_tools(s: SessionContext, message: Seq<char>) -> bool {
    s.mcp_tools_enabled && !s.mcp_tools_unsupported && tool_unsupported(trim_seq(message))
}

/// What a failed stream does to the conversation (see `handle_stream_error`).
pub open spec fn stream_error_handled(
    c0: ConversationController,
    c1: ConversationController,
    message: Seq<char>,
    r: StreamErrorOutcome,
) -> bool {
    let off = disables_tools(c0.session, message);
    let stripped = without_trailing_blank_assistants(c0.ui.messages@);
    &&& c1.session == (SessionContext {
        mcp_tools_unsupported: if off {
            true
        } else {
            c0.session.mcp_tools_unsupported
        },
        mcp_tools_enabled: if off {
            false
        } else {
            c0.session.mcp_tools_enabled
        },
        retrying_message_index: retry_after_shrink(
            c0.session.retrying_message_index,
            c0.ui.messages@.len(),
            stripped.len(),
        ),
        pending_tool_calls: c1.session.pending_tool_calls,
        ..c0.session
    })
    &&& c1.session.pending_tool_calls@.len() == 0
    &&& off ==> (r matches StreamErrorOutcome::ToolsDisabled { warning, resend } && warning@
        == tools_disabled_warning() && resend == c0.session.last_stream_api_messages_base is Some)
    &&& off ==> transcript(c1.ui.messages@) == transcript(stripped).push(
        (TranscriptRole::AppWarning, tools_disabled_warning()),
    )
    &&& !off ==> (r matches StreamErrorOutcome::ShowError(m) && m@ == trim_seq(message))
    &&& !off ==> transcript(c1.ui.messages@) == transcript(stripped).push(
        (TranscriptRole::AppError, trim_seq(message)),
    )
    &&& c1.ui.current_response == c0.ui.current_response
    &&& c1.ui.status == c0.ui.status
    &&& same_prompts_and_scroll(c0, c1)
}

impl ConversationController {
    /// A stream failed with `message`: the blank assistant messages at the
    /// end of the transcript are dropped, the pending tool calls forgotten,
    /// and the outcome of
    /// `classify_stream_error` is reported in it, as an error (the trimmed
    /// message) or as the warning that tool calling was switched off.
    pub fn handle_stream_error(&mut self, message: &str) -> (r: StreamErrorOutcome)
        ensures
            stream_error_handled(*old(self), *final(self), message@, r),
    {
        let r = self.session.classify_stream_error(message);
        self.remove_trailing_empty_assistant_messages();
        self.clear_pending_tool_calls();
        let ghost stripped = self.ui.messages@;
        match &r {
            StreamErrorOutcome::ShowError(m) => {
                self.ui.messages.push(Message::app(AppMessageKind::Error, m.clone()));
                assert(transcript(self.ui.messages@) =~= transcript(stripped).push(
                    (TranscriptRole::AppError, m@),
                ));
            },
            StreamErrorOutcome::ToolsDisabled { warning, resend } => {
                self.ui.messages.push(Message::app(AppMessageKind::Warning, warning.clone()));
                assert(transcript(self.ui.messages@) =~= transcript(stripped).push(
                    (TranscriptRole::AppWarning, warning@),
                ));
            },
        }
        r
    }
}

} // verus!
