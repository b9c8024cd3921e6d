use chabeau::actions::UiMode;
use chabeau::conversation::{
    AppMessageKind, ConversationController, Message, PromptTexts, ScrollTarget, TranscriptRole,
    UiState,
};
use chabeau::session::{SessionContext, ToolCallDelta};
use chabeau::stream_errors::StreamErrorOutcome;
use chabeau::stream_events::{StreamEvent, StreamEventOutcome};

fn controller() -> ConversationController {
    ConversationController::new(
        SessionContext::uninitialized(String::new(), String::new()),
        UiState {
            messages: Vec::new(),
            current_response: String::new(),
            status: None,
            auto_scroll: true,
            scroll_target: ScrollTarget::Keep,
            scroll_offset: 0,
            mode: UiMode::Typing,
            compose_mode: false,
            input: String::new(),
            input_cursor_position: 0,
            input_scroll_offset: 0,
        },
        PromptTexts { system_prompt: String::new(), post_history: None, greeting: None },
    )
}

#[test]
fn stream_app_message_adds_trimmed_content_and_keeps_stream_alive() {
    let mut c = controller();
    let stream_id = c.start_new_stream();
    c.add_user_message("Hello there".to_string(), None);
    let out = c.apply_stream_event(
        StreamEvent::StreamAppMessage {
            kind: AppMessageKind::Warning,
            message: "  invalid utf8  ".to_string(),
            stream_id,
        },
        None,
    );
    assert!(matches!(out, StreamEventOutcome::Applied));
    let done = c.apply_stream_event(StreamEvent::StreamCompleted { stream_id }, None);
    assert!(matches!(done, StreamEventOutcome::Finished));
    let pending = c.finalize_stream(None, None);
    assert!(pending.is_empty());
    let last = c.ui.messages.last().expect("message");
    assert_eq!(last.role, TranscriptRole::AppWarning);
    assert_eq!(last.content, "invalid utf8");
    assert!(stream_id > 0);
}

#[test]
fn finalize_stream_clears_interrupt_token_when_done() {
    let mut c = controller();
    c.start_new_stream();
    c.add_user_message("Hello there".to_string(), None);
    c.session.last_stream_api_messages = Some(Vec::new());
    let pending = c.finalize_stream(None, None);
    assert!(pending.is_empty());
    assert!(c.session.last_stream_api_messages.is_none());
    assert!(c.ui.current_response.is_empty());
}

#[test]
fn events_of_an_earlier_stream_change_nothing() {
    let mut c = controller();
    let first = c.start_new_stream();
    c.add_user_message("Hi".to_string(), None);
    let second = c.start_new_stream();
    assert_eq!(second, first + 1);
    let before = c.ui.messages.len();
    let out = c.apply_stream_event(
        StreamEvent::AppendResponseChunk { content: "late".to_string(), stream_id: first },
        None,
    );
    assert!(matches!(out, StreamEventOutcome::Stale));
    let out = c.apply_stream_event(
        StreamEvent::StreamErrored { message: "boom".to_string(), stream_id: first },
        None,
    );
    assert!(matches!(out, StreamEventOutcome::Stale));
    assert_eq!(c.ui.messages.len(), before);
    assert!(c.ui.current_response.is_empty());
}

#[test]
fn chunks_of_the_current_stream_fill_the_reply() {
    let mut c = controller();
    let id = c.start_new_stream();
    c.add_user_message("Hi".to_string(), None);
    for piece in ["Hel", "", "lo"] {
        let out = c.apply_stream_event(
            StreamEvent::AppendResponseChunk { content: piece.to_string(), stream_id: id },
            None,
        );
        assert!(matches!(out, StreamEventOutcome::Applied));
    }
    assert_eq!(c.ui.current_response, "Hello");
    assert_eq!(c.ui.messages.last().unwrap().content, "Hello");
    assert_eq!(c.ui.messages.last().unwrap().role, TranscriptRole::Assistant);
}

#[test]
fn blank_stream_message_is_dropped() {
    let mut c = controller();
    let id = c.start_new_stream();
    let out = c.apply_stream_event(
        StreamEvent::StreamAppMessage {
            kind: AppMessageKind::Info,
            message: "   ".to_string(),
            stream_id: id,
        },
        None,
    );
    assert!(matches!(out, StreamEventOutcome::Applied));
    assert!(c.ui.messages.is_empty());
}

#[test]
fn stream_error_event_reports_trimmed_error() {
    let mut c = controller();
    let id = c.start_new_stream();
    c.add_user_message("Hi".to_string(), None);
    let out = c.apply_stream_event(
        StreamEvent::StreamErrored { message: " network failure ".to_string(), stream_id: id },
        None,
    );
    match out {
        StreamEventOutcome::Failed(StreamErrorOutcome::ShowError(m)) => {
            assert_eq!(m, "network failure")
        }
        _ => panic!("expected an error"),
    }
    let last = c.ui.messages.last().unwrap();
    assert_eq!(last.role, TranscriptRole::AppError);
    assert!(c.ui.messages.iter().any(|m| m.role == TranscriptRole::User));
}

#[test]
fn tool_call_delta_event_then_completion_takes_calls() {
    let mut c = controller();
    let id = c.start_new_stream();
    c.add_user_message("Run".to_string(), None);
    let out = c.apply_stream_event(
        StreamEvent::StreamToolCallDelta {
            delta: ToolCallDelta {
                index: 0,
                id: Some("call-1".to_string()),
                name: Some("lookup".to_string()),
                arguments: Some("{}".to_string()),
            },
            stream_id: id,
        },
        None,
    );
    assert!(matches!(out, StreamEventOutcome::Applied));
    let pending = c.finalize_stream(None, None);
    assert_eq!(pending.len(), 1);
    assert_eq!(pending[0].1.name.as_deref(), Some("lookup"));
    assert!(c.session.pending_tool_calls.is_empty());
    assert!(c.ui.messages.iter().any(|m| m.role == TranscriptRole::ToolCall));
}

#[test]
fn clear_transcript_forgets_conversation_state() {
    let mut c = controller();
    c.ui.messages.push(Message::new(TranscriptRole::User, "hi".to_string()));
    c.ui.messages.push(Message::new(TranscriptRole::Assistant, "hello".to_string()));
    c.session.retrying_message_index = Some(1);
    c.session.is_refining = true;
    c.session.character_greeting_shown = true;
    c.clear_transcript();
    assert!(c.ui.messages.is_empty());
    assert!(c.session.retrying_message_index.is_none());
    assert!(!c.session.is_refining);
    assert!(!c.session.character_greeting_shown);
    assert!(!c.session.has_received_assistant_message);
}

#[test]
fn headless_stream_start_keeps_tools_enabled() {
    let mut c = controller();
    c.session.mcp_tools_enabled = true;
    let id = c.start_new_stream_headless();
    assert_eq!(id, 1);
    assert!(c.session.mcp_tools_enabled);
    assert!(c.session.is_current_stream(1));
    assert!(!c.session.is_current_stream(0));
    c.start_new_stream();
    assert!(!c.session.mcp_tools_enabled);
    assert_eq!(c.session.current_stream_id, 2);
}

fn chat(role: &str, content: &str) -> chabeau::session::ChatMessage {
    chabeau::session::ChatMessage {
        role: role.to_string(),
        content: content.to_string(),
        name: None,
        tool_call_id: None,
        tool_calls: None,
    }
}

#[test]
fn stream_for_message_starts_stream_then_adds_turn() {
    let mut c = controller();
    let (request, id) = c.stream_for_message("Hello".to_string(), None);
    assert_eq!(id, 1);
    assert_eq!(c.session.current_stream_id, 1);
    assert_eq!(request.last().unwrap().role, "user");
    assert_eq!(request.last().unwrap().content, "Hello");
    assert_eq!(c.ui.messages.len(), 2);
    assert_eq!(c.ui.messages[1].role, TranscriptRole::Assistant);
    assert!(c.ui.messages[1].content.is_empty());
}

#[test]
fn retry_within_200_ms_or_without_size_does_nothing() {
    let mut c = controller();
    c.ui.messages.push(Message::new(TranscriptRole::User, "q".to_string()));
    c.ui.messages.push(Message::new(TranscriptRole::Assistant, "a".to_string()));
    assert!(c.retry_stream(199, 80, 24).is_none());
    assert!(c.retry_stream(500, 0, 24).is_none());
    assert_eq!(c.session.current_stream_id, 0);
    assert_eq!(c.ui.messages.len(), 2);
    let (request, id) = c.retry_stream(200, 80, 24).expect("retry");
    assert_eq!(id, 1);
    assert_eq!(request.last().unwrap().content, "q");
}

#[test]
fn retry_without_reply_starts_no_stream() {
    let mut c = controller();
    c.ui.messages.push(Message::new(TranscriptRole::User, "q".to_string()));
    assert!(c.retry_stream(1000, 80, 24).is_none());
    assert_eq!(c.session.current_stream_id, 0);
}

#[test]
fn refine_stream_needs_a_terminal_size() {
    let mut c = controller();
    c.ui.messages.push(Message::new(TranscriptRole::User, "q".to_string()));
    c.ui.messages.push(Message::new(TranscriptRole::Assistant, "a".to_string()));
    assert!(c.refine_stream("shorter".to_string(), 80, 0).is_none());
    assert!(!c.session.is_refining);
    let (_request, id) = c.refine_stream("shorter".to_string(), 80, 24).expect("refine");
    assert_eq!(id, 1);
    assert!(c.session.is_refining);
    assert_eq!(c.session.last_refine_prompt.as_deref(), Some("shorter"));
}

#[test]
fn stream_after_tools_sends_results_and_opens_reply() {
    let mut c = controller();
    c.session.tool_results.push(chat("tool", "result"));
    assert!(c.stream_after_tools(None, 80, 24).is_none());
    let (request, id) = c
        .stream_after_tools(Some(vec![chat("user", "q")]), 80, 24)
        .expect("continuation");
    assert_eq!(id, 1);
    assert_eq!(request.len(), 2);
    assert_eq!(request[1].content, "result");
    assert!(c.session.tool_results.is_empty());
    assert_eq!(c.ui.messages.last().unwrap().role, TranscriptRole::Assistant);
}

#[test]
fn resend_without_tools_uses_base_request() {
    let mut c = controller();
    assert!(c.resend_without_tools(80, 24).is_none());
    c.session.last_stream_api_messages_base = Some(vec![chat("user", "q")]);
    assert!(c.resend_without_tools(0, 24).is_none());
    let (request, id) = c.resend_without_tools(80, 24).expect("resend");
    assert_eq!(id, 1);
    assert_eq!(request.len(), 1);
    assert_eq!(request[0].content, "q");
    assert!(!c.session.mcp_tools_enabled);
}

fn prompt_request() -> chabeau::session::McpPromptRequest {
    chabeau::session::McpPromptRequest {
        server_id: "docs".to_string(),
        prompt_name: "summarize".to_string(),
        arguments: Vec::new(),
    }
}

#[test]
fn mcp_prompt_error_is_reported() {
    let mut c = controller();
    c.ui.status = Some("Running prompt".to_string());
    let r = c.apply_mcp_prompt_result(&prompt_request(), Err("timeout".to_string()));
    assert!(r.is_none());
    assert!(c.ui.status.is_none());
    let last = c.ui.messages.last().unwrap();
    assert_eq!(last.role, TranscriptRole::AppError);
    assert_eq!(last.content, "MCP prompt docs:summarize failed: timeout");
    assert_eq!(c.session.current_stream_id, 0);
}

#[test]
fn mcp_prompt_without_messages_warns() {
    let mut c = controller();
    let r = c.apply_mcp_prompt_result(&prompt_request(), Ok(Vec::new()));
    assert!(r.is_none());
    let last = c.ui.messages.last().unwrap();
    assert_eq!(last.role, TranscriptRole::AppWarning);
    assert_eq!(last.content, "MCP prompt docs:summarize returned no messages.");
}

#[test]
fn mcp_prompt_messages_are_applied_and_sent() {
    let mut c = controller();
    c.ui.messages.push(Message::new(TranscriptRole::User, "earlier".to_string()));
    c.ui.messages.push(Message::new(TranscriptRole::Assistant, "  ".to_string()));
    let msgs = vec![
        Message::new(TranscriptRole::User, "Summarize this".to_string()),
        Message::new(TranscriptRole::Assistant, "Sure".to_string()),
    ];
    let (request, id) = c.apply_mcp_prompt_result(&prompt_request(), Ok(msgs)).expect("stream");
    assert_eq!(id, 1);
    let roles: Vec<TranscriptRole> = c.ui.messages.iter().map(|m| m.role).collect();
    assert_eq!(
        roles,
        vec![
            TranscriptRole::User,
            TranscriptRole::User,
            TranscriptRole::Assistant,
            TranscriptRole::AppInfo
        ]
    );
    assert_eq!(c.ui.messages[3].content, "Applied MCP prompt docs:summarize.");
    let contents: Vec<&str> = request.iter().map(|m| m.content.as_str()).collect();
    assert_eq!(contents, vec!["earlier", "Summarize this", "Sure"]);
}

#[test]
fn stream_parameters_builds_request_for_given_messages() {
    let mut c = controller();
    c.prompts.system_prompt = "You are terse.".to_string();
    c.session.append_tool_call_delta(ToolCallDelta {
        index: 0,
        id: None,
        name: Some("x".to_string()),
        arguments: None,
    });
    let msgs = vec![Message::new(TranscriptRole::User, "hi".to_string())];
    let (request, id) = c.stream_parameters(msgs, Some("Answer in French.".to_string()));
    assert_eq!(id, 1);
    assert!(c.session.pending_tool_calls.is_empty());
    assert_eq!(request.len(), 2);
    assert_eq!(request[0].role, "system");
    assert_eq!(request[0].content, "You are terse.\n\nAnswer in French.");
    assert_eq!(request[1].role, "user");
    assert_eq!(request[1].content, "hi");
    assert!(c.ui.messages.is_empty());
}
