use chabeau::actions::UiMode;
use chabeau::conversation::{
    AppMessageKind, ConversationController, Message, PromptTexts, ScrollTarget, TranscriptRole,
    UiState,
};
use chabeau::json::JsonValue;
use chabeau::stream_errors::StreamErrorOutcome;
use chabeau::mcp_servers::McpServerInfo;
use chabeau::session::{CharacterCard, CharacterData, PendingToolCall, SessionContext, ToolCallDelta};
use chabeau::tool_flow::plan_tool_call;

fn controller() -> ConversationController {
    ConversationController::new(
        SessionContext::uninitialized("Improve the answer.".to_string(), "REFINE:".to_string()),
        UiState {
            messages: Vec::new(),
            current_response: String::new(),
            status: None,
            auto_scroll: false,
            scroll_target: ScrollTarget::Keep,
            scroll_offset: 0,
            mode: UiMode::Typing,
            compose_mode: false,
            input: String::new(),
            input_cursor_position: 0,
            input_scroll_offset: 0,
        },
        PromptTexts { system_prompt: String::new(), post_history: None, greeting: None },
    )
}

fn msg(role: TranscriptRole, content: &str) -> Message {
    Message::new(role, content.to_string())
}

fn test_bot(first_mes: &str, system_prompt: Option<&str>, post: Option<&str>) -> CharacterCard {
    CharacterCard {
        spec: "chara_card_v2".to_string(),
        spec_version: "2.0".to_string(),
        data: CharacterData {
            name: "TestBot".to_string(),
            description: "A test character".to_string(),
            personality: "Helpful".to_string(),
            scenario: "Testing".to_string(),
            first_mes: first_mes.to_string(),
            mes_example: String::new(),
            creator_notes: None,
            system_prompt: system_prompt.map(|s| s.to_string()),
            post_history_instructions: post.map(|s| s.to_string()),
            alternate_greetings: None,
            tags: None,
            creator: None,
            character_version: None,
        },
    }
}

/// A controller with the character active and the texts the character
/// module derives from its card.
fn with_character(card: CharacterCard, system_prompt: &str) -> ConversationController {
    let mut c = controller();
    c.prompts = PromptTexts {
        system_prompt: system_prompt.to_string(),
        post_history: card.data.post_history_instructions.clone(),
        greeting: Some(card.data.first_mes.clone()),
    };
    c.session.set_character(card);
    c
}

fn roles(messages: &[chabeau::session::ChatMessage]) -> Vec<&str> {
    messages.iter().map(|m| m.role.as_str()).collect()
}

#[test]
fn test_app_messages_excluded_from_api() {
    let mut c = controller();
    c.ui.messages.push(msg(TranscriptRole::User, "Hello"));
    c.add_app_message(
        AppMessageKind::Info,
        "This is an app message that should not be sent to API".to_string(),
        None,
    );
    c.ui.messages.push(msg(TranscriptRole::Assistant, "Hi there!"));
    c.add_app_message(AppMessageKind::Warning, "Another app message".to_string(), None);

    let api_messages = c.add_user_message("How are you?".to_string(), None);

    assert_eq!(api_messages.len(), 3);
    assert_eq!(api_messages[0].role, "user");
    assert_eq!(api_messages[0].content, "Hello");
    assert_eq!(api_messages[1].role, "assistant");
    assert_eq!(api_messages[1].content, "Hi there!");
    assert_eq!(api_messages[2].role, "user");
    assert_eq!(api_messages[2].content, "How are you?");
    for m in &api_messages {
        assert!(m.role == "user" || m.role == "assistant" || m.role == "system");
    }
}

#[test]
fn add_user_message_omits_trailing_empty_assistant_turns() {
    let mut c = controller();
    c.ui.messages.push(msg(TranscriptRole::User, "First attempt"));
    c.ui.messages.push(msg(TranscriptRole::Assistant, ""));

    let api_messages = c.add_user_message("Try again?".to_string(), None);

    assert_eq!(api_messages.len(), 2);
    assert_eq!(api_messages[0].role, "user");
    assert_eq!(api_messages[0].content, "First attempt");
    assert_eq!(api_messages[1].role, "user");
    assert_eq!(api_messages[1].content, "Try again?");
    assert!(api_messages.iter().all(|m| m.role != "assistant" || !m.content.trim().is_empty()));

    let mut iter = c.ui.messages.iter().rev();
    let last = iter.next().expect("missing assistant placeholder");
    assert_eq!(last.role, TranscriptRole::Assistant);
    assert!(last.content.is_empty());
    let second_last = iter.next().expect("missing user retry message");
    assert_eq!(second_last.role, TranscriptRole::User);
    assert_eq!(second_last.content, "Try again?");
    assert_eq!(
        c.ui.messages
            .iter()
            .filter(|m| m.role == TranscriptRole::Assistant && m.content.is_empty())
            .count(),
        1
    );
}

#[test]
fn conversation_test_prepare_retry_excludes_system_messages() {
    let mut c = controller();
    c.ui.messages.push(msg(TranscriptRole::User, "Test question"));
    c.add_app_message(
        AppMessageKind::Info,
        "App message between user and assistant".to_string(),
        None,
    );
    c.ui.messages.push(msg(TranscriptRole::Assistant, "Test response"));
    c.session.retrying_message_index = Some(2);
    c.session.has_received_assistant_message = true;

    let api_messages = c.prepare_retry().unwrap();

    assert_eq!(api_messages.len(), 1);
    assert_eq!(api_messages[0].role, "user");
    assert_eq!(api_messages[0].content, "Test question");
}

#[test]
fn test_add_user_message_with_character_active() {
    let card = test_bot("Hello!", Some("You are TestBot."), Some("Always be polite."));
    let mut c = with_character(card, "You are TestBot.\n\nCharacter: TestBot");
    c.ui.messages.push(msg(TranscriptRole::User, "Previous message"));
    c.ui.messages.push(msg(TranscriptRole::Assistant, "Previous response"));

    let api_messages = c.add_user_message("New message".to_string(), None);

    assert_eq!(api_messages.len(), 5);
    assert_eq!(api_messages[0].role, "system");
    assert!(api_messages[0].content.contains("You are TestBot."));
    assert!(api_messages[0].content.contains("Character: TestBot"));
    assert_eq!(api_messages[1].role, "user");
    assert_eq!(api_messages[1].content, "Previous message");
    assert_eq!(api_messages[2].role, "assistant");
    assert_eq!(api_messages[2].content, "Previous response");
    assert_eq!(api_messages[3].role, "user");
    assert_eq!(api_messages[3].content, "New message");
    assert_eq!(api_messages[4].role, "system");
    assert_eq!(api_messages[4].content, "Always be polite.");
}

#[test]
fn test_add_user_message_with_character_no_post_history() {
    let card = test_bot("Hi", None, None);
    let mut c = with_character(card, "Character: TestBot");

    let api_messages = c.add_user_message("Test message".to_string(), None);

    assert_eq!(api_messages.len(), 2);
    assert_eq!(api_messages[0].role, "system");
    assert!(api_messages[0].content.contains("Character: TestBot"));
    assert_eq!(api_messages[1].role, "user");
    assert_eq!(api_messages[1].content, "Test message");
}

#[test]
fn test_add_user_message_without_character() {
    let mut c = controller();
    assert!(c.session.get_character().is_none());

    let api_messages = c.add_user_message("Test message".to_string(), None);

    assert_eq!(api_messages.len(), 1);
    assert_eq!(api_messages[0].role, "user");
    assert_eq!(api_messages[0].content, "Test message");
}

#[test]
fn test_prepare_retry_with_character_active() {
    let card = test_bot("Hello!", Some("You are TestBot."), Some("Be concise."));
    let mut c = with_character(card, "You are TestBot.");
    c.ui.messages.push(msg(TranscriptRole::User, "First question"));
    c.ui.messages.push(msg(TranscriptRole::Assistant, "First response"));
    c.ui.messages.push(msg(TranscriptRole::User, "Second question"));
    c.ui.messages.push(msg(TranscriptRole::Assistant, "Second response to retry"));
    c.session.retrying_message_index = Some(3);
    c.session.has_received_assistant_message = true;

    let api_messages = c.prepare_retry().unwrap();

    assert_eq!(api_messages.len(), 5);
    assert_eq!(api_messages[0].role, "system");
    assert!(api_messages[0].content.contains("You are TestBot."));
    assert_eq!(api_messages[1].role, "user");
    assert_eq!(api_messages[1].content, "First question");
    assert_eq!(api_messages[2].role, "assistant");
    assert_eq!(api_messages[2].content, "First response");
    assert_eq!(api_messages[3].role, "user");
    assert_eq!(api_messages[3].content, "Second question");
    assert_eq!(api_messages[4].role, "system");
    assert_eq!(api_messages[4].content, "Be concise.");
}

#[test]
fn test_prepare_retry_without_character() {
    let mut c = controller();
    c.ui.messages.push(msg(TranscriptRole::User, "Question"));
    c.ui.messages.push(msg(TranscriptRole::Assistant, "Response to retry"));
    c.session.retrying_message_index = Some(1);
    c.session.has_received_assistant_message = true;

    let api_messages = c.prepare_retry().unwrap();

    assert_eq!(api_messages.len(), 1);
    assert_eq!(api_messages[0].role, "user");
    assert_eq!(api_messages[0].content, "Question");
}

#[test]
fn test_retry_character_greeting_reinserts_locally() {
    let card = test_bot("Hello! I'm TestBot.", Some("You are TestBot."), None);
    let mut c = with_character(card, "You are TestBot.");

    c.show_character_greeting_if_needed();
    assert_eq!(c.ui.messages.len(), 1);
    assert_eq!(c.ui.messages[0].role, TranscriptRole::Assistant);
    assert!(!c.session.has_received_assistant_message);

    c.session.retrying_message_index = Some(0);
    let result = c.prepare_retry();

    assert!(result.is_none());
    assert_eq!(c.ui.messages[0].content, "Hello! I'm TestBot.");
    assert!(c.session.retrying_message_index.is_none());
    assert!(!c.session.has_received_assistant_message);
}

#[test]
fn test_character_messages_with_transcript_system_messages() {
    let card = test_bot("Hello!", Some("You are TestBot."), None);
    let mut c = with_character(card, "You are TestBot.");
    c.ui.messages.push(msg(TranscriptRole::User, "Hello"));
    c.add_app_message(AppMessageKind::Info, "Help text displayed in UI".to_string(), None);
    c.ui.messages.push(msg(TranscriptRole::Assistant, "Hi there!"));

    let api_messages = c.add_user_message("How are you?".to_string(), None);

    assert_eq!(api_messages.len(), 4);
    assert_eq!(api_messages[0].role, "system");
    assert!(api_messages[0].content.contains("You are TestBot."));
    assert_eq!(api_messages[1].role, "user");
    assert_eq!(api_messages[1].content, "Hello");
    assert_eq!(api_messages[2].role, "assistant");
    assert_eq!(api_messages[2].content, "Hi there!");
    assert_eq!(api_messages[3].role, "user");
    assert_eq!(api_messages[3].content, "How are you?");
    for m in &api_messages {
        assert_ne!(m.content, "Help text displayed in UI");
    }
}

#[test]
fn test_show_character_greeting_if_needed() {
    let card = test_bot("Hello! I'm TestBot.", None, None);
    let mut c = with_character(card, "");
    assert_eq!(c.ui.messages.len(), 0);

    c.show_character_greeting_if_needed();

    assert_eq!(c.ui.messages.len(), 1);
    let greeting = c.ui.messages.first().unwrap();
    assert_eq!(greeting.role, TranscriptRole::Assistant);
    assert_eq!(greeting.content, "Hello! I'm TestBot.");
    assert!(c.session.character_greeting_shown);

    c.show_character_greeting_if_needed();
    assert_eq!(c.ui.messages.len(), 1);
}

#[test]
fn test_show_character_greeting_empty_greeting() {
    let card = test_bot("   ", None, None);
    let mut c = with_character(card, "");

    c.show_character_greeting_if_needed();

    assert_eq!(c.ui.messages.len(), 0);
    assert!(!c.session.character_greeting_shown);
}

#[test]
fn test_show_character_greeting_no_character() {
    let mut c = controller();
    assert!(c.session.get_character().is_none());

    c.show_character_greeting_if_needed();

    assert_eq!(c.ui.messages.len(), 0);
    assert!(!c.session.character_greeting_shown);
}

#[test]
fn test_character_greeting_included_in_api_messages() {
    let card = test_bot("Greetings!", Some("You are TestBot."), None);
    let mut c = with_character(card, "You are TestBot.");

    c.show_character_greeting_if_needed();
    let api_messages = c.add_user_message("Hello".to_string(), None);

    assert_eq!(api_messages.len(), 3);
    assert_eq!(api_messages[0].role, "system");
    assert!(api_messages[0].content.contains("You are TestBot."));
    assert_eq!(api_messages[1].role, "assistant");
    assert_eq!(api_messages[1].content, "Greetings!");
    assert_eq!(api_messages[2].role, "user");
    assert_eq!(api_messages[2].content, "Hello");
}

// Further cases of the library's own.

#[test]
fn add_user_message_reports_logging_failure_before_the_message() {
    let mut c = controller();
    let api_messages = c.add_user_message("Hi".to_string(), Some("disk full".to_string()));

    assert_eq!(roles(&api_messages), vec!["user"]);
    assert_eq!(c.ui.messages.len(), 3);
    assert_eq!(c.ui.messages[0].role, TranscriptRole::AppWarning);
    assert_eq!(
        c.ui.messages[0].content,
        "Logging error: disk full. Conversation will continue but may not be saved."
    );
    assert_eq!(c.ui.messages[1].role, TranscriptRole::User);
    assert_eq!(c.session.active_assistant_message_index, Some(2));
}

#[test]
fn blank_assistant_turns_at_the_end_are_dropped_and_retry_index_follows() {
    let mut c = controller();
    c.ui.messages.push(msg(TranscriptRole::User, "a"));
    c.ui.messages.push(msg(TranscriptRole::Assistant, "  "));
    c.ui.messages.push(msg(TranscriptRole::Assistant, ""));
    c.session.retrying_message_index = Some(2);

    c.remove_trailing_empty_assistant_messages();

    assert_eq!(c.ui.messages.len(), 1);
    assert_eq!(c.session.retrying_message_index, None);
}

#[test]
fn streamed_chunks_go_to_the_last_assistant_message() {
    let mut c = controller();
    c.add_user_message("Q".to_string(), None);
    c.append_to_response("Hel");
    c.append_to_response("lo");

    assert_eq!(c.ui.messages[1].content, "Hello");
    assert_eq!(c.ui.current_response, "Hello");
    assert!(c.session.has_received_assistant_message);
}

#[test]
fn first_refine_chunk_replaces_the_refined_message() {
    let mut c = controller();
    c.ui.messages.push(msg(TranscriptRole::User, "Q"));
    c.ui.messages.push(msg(TranscriptRole::Assistant, "old answer"));
    c.session.retrying_message_index = Some(1);
    c.session.is_refining = true;

    c.append_to_response("new");
    c.append_to_response(" answer");

    assert_eq!(c.ui.messages[1].content, "new answer");
    assert!(!c.session.is_refining);
}

#[test]
fn prepare_refine_sends_history_with_instructions_and_prompt() {
    let mut c = controller();
    c.ui.messages.push(msg(TranscriptRole::User, "Q"));
    c.ui.messages.push(msg(TranscriptRole::Assistant, "A"));

    let api_messages = c.prepare_refine("shorter".to_string(), false).unwrap();

    assert_eq!(roles(&api_messages), vec!["system", "user", "assistant", "user"]);
    assert_eq!(api_messages[0].content, "Improve the answer.");
    assert_eq!(api_messages[3].content, "REFINE: shorter");
    assert_eq!(c.session.retrying_message_index, Some(1));
    assert_eq!(c.session.original_refining_content.as_deref(), Some("A"));
    assert_eq!(c.session.last_refine_prompt.as_deref(), Some("shorter"));
    assert!(c.session.is_refining);
    assert_eq!(c.ui.scroll_target, ScrollTarget::Message(0));
}

#[test]
fn retry_after_refine_reuses_original_text_and_prompt() {
    let mut c = controller();
    c.ui.messages.push(msg(TranscriptRole::User, "Q"));
    c.ui.messages.push(msg(TranscriptRole::Assistant, "A"));
    c.prepare_refine("shorter".to_string(), false).unwrap();
    c.append_to_response("B");
    c.finalize_response(None, None);

    let api_messages = c.prepare_retry().unwrap();

    assert_eq!(api_messages[2].content, "A");
    assert_eq!(api_messages[3].content, "REFINE: shorter");
}

#[test]
fn retry_without_anything_to_retry_changes_nothing() {
    let mut c = controller();
    c.ui.messages.push(msg(TranscriptRole::User, "Q"));
    assert!(!c.can_retry());
    assert!(c.prepare_retry().is_none());
    assert!(c.prepare_refine("x".to_string(), false).is_none());
    assert_eq!(c.ui.messages.len(), 1);
    assert!(!c.session.is_refining);
}

#[test]
fn retry_picks_last_assistant_reply_and_clears_it() {
    let mut c = controller();
    c.ui.messages.push(msg(TranscriptRole::User, "Q1"));
    c.ui.messages.push(msg(TranscriptRole::Assistant, "A1"));
    c.ui.messages.push(msg(TranscriptRole::User, "Q2"));
    c.ui.messages.push(msg(TranscriptRole::Assistant, "A2"));
    c.session.has_received_assistant_message = true;

    let api_messages = c.prepare_retry().unwrap();

    assert_eq!(roles(&api_messages), vec!["user", "assistant", "user"]);
    assert_eq!(c.session.retrying_message_index, Some(3));
    assert_eq!(c.session.active_assistant_message_index, Some(3));
    assert!(c.ui.messages[3].content.is_empty());
    assert!(c.ui.auto_scroll);
    assert_eq!(c.ui.scroll_target, ScrollTarget::Message(2));
}

#[test]
fn finalize_reports_log_failures_only_for_replies_with_text() {
    let mut c = controller();
    c.add_user_message("Q".to_string(), None);
    c.finalize_response(None, Some("denied".to_string()));
    assert_eq!(c.ui.messages.len(), 2);

    c.append_to_response("A");
    c.finalize_response(None, Some("denied".to_string()));
    assert_eq!(c.ui.messages.len(), 3);
    assert_eq!(
        c.ui.messages[2].content,
        "Logging error: denied. Response may not be saved to log."
    );
    assert!(c.ui.current_response.is_empty());
}

#[test]
fn log_kind_messages_report_log_failures() {
    let mut c = controller();
    c.add_app_message(AppMessageKind::Log, "note".to_string(), Some("no space".to_string()));
    assert_eq!(c.ui.messages.len(), 2);
    assert_eq!(c.ui.messages[0].content, "Logging error: no space. Log file may be incomplete.");
    assert_eq!(c.ui.messages[1].role, TranscriptRole::AppLog);

    c.add_app_message(AppMessageKind::Info, "info".to_string(), Some("ignored".to_string()));
    assert_eq!(c.ui.messages.len(), 3);
}

#[test]
fn pending_tool_calls_leave_one_line_each_except_instant_recall() {
    let mut c = controller();
    c.add_user_message("Q".to_string(), None);
    c.session.pending_tool_calls = vec![
        (
            0u32,
            PendingToolCall {
                id: Some("c1".to_string()),
                name: Some("search".to_string()),
                arguments: " {\"q\": \"rust\"} ".to_string(),
            },
        ),
        (
            1u32,
            PendingToolCall {
                id: Some("c2".to_string()),
                name: Some("Instant_Recall".to_string()),
                arguments: "{}".to_string(),
            },
        ),
        (2u32, PendingToolCall { id: None, name: None, arguments: String::new() }),
    ];
    let taken = c.take_pending_tool_calls();

    assert_eq!(taken.len(), 3);
    assert_eq!(taken[1].0, 1);
    assert!(c.session.pending_tool_calls.is_empty());
    // The empty assistant placeholder is dropped because no text streamed.
    assert_eq!(c.ui.messages.len(), 3);
    assert_eq!(c.ui.messages[1].role, TranscriptRole::ToolCall);
    assert_eq!(c.ui.messages[1].content, "search | Arguments: q=\"rust\"");
    assert_eq!(c.ui.messages[2].content, "Unknown tool call");
}

#[test]
fn test_system_messages_excluded_from_api() {
    let mut c = controller();
    c.ui.messages.push(msg(TranscriptRole::User, "Hello"));
    c.add_app_message(
        AppMessageKind::Info,
        "This is a system message that should not be sent to API".to_string(),
        None,
    );
    c.ui.messages.push(msg(TranscriptRole::Assistant, "Hi there!"));
    c.add_app_message(AppMessageKind::Info, "Another system message".to_string(), None);

    let api_messages = c.add_user_message("How are you?".to_string(), None);

    assert_eq!(api_messages.len(), 3);
    assert_eq!(api_messages[0].role, "user");
    assert_eq!(api_messages[0].content, "Hello");
    assert_eq!(api_messages[1].role, "assistant");
    assert_eq!(api_messages[1].content, "Hi there!");
    assert_eq!(api_messages[2].role, "user");
    assert_eq!(api_messages[2].content, "How are you?");
    for m in &api_messages {
        assert_ne!(m.role, "system");
    }
}

#[test]
fn test_last_and_first_user_message_index() {
    let mut c = controller();
    assert_eq!(c.ui.last_user_message_index(), None);
    assert_eq!(c.ui.first_user_message_index(), None);

    c.ui.messages.push(msg(TranscriptRole::User, "u1"));
    c.ui.messages.push(msg(TranscriptRole::Assistant, "a1"));
    c.ui.messages.push(msg(TranscriptRole::User, "u2"));

    assert_eq!(c.ui.first_user_message_index(), Some(0));
    assert_eq!(c.ui.last_user_message_index(), Some(2));
}

#[test]
fn test_prev_next_user_message_index_navigation() {
    let mut c = controller();
    c.ui.messages.push(msg(TranscriptRole::User, "u1"));
    c.ui.messages.push(msg(TranscriptRole::Assistant, "a1"));
    c.ui.messages.push(msg(TranscriptRole::AppInfo, "s1"));
    c.ui.messages.push(msg(TranscriptRole::User, "u2"));

    assert_eq!(c.ui.prev_user_message_index(3), Some(0));
    assert_eq!(c.ui.next_user_message_index(0), Some(3));
    assert_eq!(c.ui.prev_user_message_index(1), Some(0));
    assert_eq!(c.ui.next_user_message_index(1), Some(3));
}

#[test]
fn stream_error_trims_message_and_keeps_user_history() {
    let mut c = controller();
    c.add_user_message("Hello there".to_string(), None);

    let outcome = c.handle_stream_error(" network failure ");

    assert!(matches!(outcome, StreamErrorOutcome::ShowError(ref m) if m == "network failure"));
    assert!(c
        .ui
        .messages
        .iter()
        .all(|m| m.role != TranscriptRole::Assistant || !m.content.trim().is_empty()));
    let last = c.ui.messages.last().expect("last");
    assert_eq!(last.role, TranscriptRole::AppError);
    assert_eq!(last.content, "network failure");
    assert_eq!(c.ui.messages.first().expect("first").role, TranscriptRole::User);
}

#[test]
fn stream_errored_drops_empty_assistant_placeholder() {
    let mut c = controller();
    c.add_user_message("Hello there".to_string(), None);
    assert!(c
        .ui
        .messages
        .iter()
        .any(|m| m.role == TranscriptRole::Assistant && m.content.is_empty()));

    c.handle_stream_error(" network failure ");

    assert!(c
        .ui
        .messages
        .iter()
        .all(|m| m.role != TranscriptRole::Assistant || !m.content.trim().is_empty()));
    let last = c.ui.messages.last().expect("expected trailing error message");
    assert_eq!(last.role, TranscriptRole::AppError);
    assert_eq!(last.content, "network failure");
    assert_eq!(c.ui.messages.len(), 2);
    let first = c.ui.messages.first().expect("missing user message");
    assert_eq!(first.role, TranscriptRole::User);
    assert_eq!(first.content, "Hello there");
}

#[test]
fn unsupported_tools_error_switches_tools_off_with_a_warning() {
    let mut c = controller();
    c.session.mcp_tools_enabled = true;
    c.add_user_message("Hi".to_string(), None);

    let outcome = c.handle_stream_error("Error: 'tools' is not supported by this model");

    assert!(matches!(outcome, StreamErrorOutcome::ToolsDisabled { resend: false, .. }));
    assert!(c.session.mcp_tools_unsupported);
    assert!(!c.session.mcp_tools_enabled);
    assert_eq!(c.ui.messages.last().unwrap().role, TranscriptRole::AppWarning);
}

#[test]
fn app_test_prepare_retry_excludes_system_messages() {
    let mut c = controller();
    c.ui.messages.push(msg(TranscriptRole::User, "Test question"));
    c.add_app_message(
        AppMessageKind::Info,
        "System message between user and assistant".to_string(),
        None,
    );
    c.ui.messages.push(msg(TranscriptRole::Assistant, "Test response"));
    c.session.retrying_message_index = Some(2);

    let api_messages = c.prepare_retry().unwrap();

    assert_eq!(api_messages.len(), 1);
    assert_eq!(api_messages[0].role, "user");
    assert_eq!(api_messages[0].content, "Test question");
    for m in &api_messages {
        assert_ne!(m.role, "system");
    }
}

#[test]
fn stream_tool_call_delta_flushes_on_complete() {
    let mut c = controller();
    c.add_user_message("Run a tool".to_string(), None);
    c.session.append_tool_call_delta(ToolCallDelta {
        index: 0,
        id: Some("call-1".into()),
        name: Some("lookup".into()),
        arguments: Some("{\"q\":".into()),
    });
    c.session.append_tool_call_delta(ToolCallDelta {
        index: 0,
        id: None,
        name: None,
        arguments: Some("\"mcp\"}".into()),
    });
    assert_eq!(c.session.pending_tool_calls.len(), 1);
    assert_eq!(c.session.pending_tool_calls[0].1.arguments, "{\"q\":\"mcp\"}");

    let q_mcp = || -> Result<JsonValue, String> {
        Ok(JsonValue::Object(vec![("q".to_string(), JsonValue::Str("mcp".to_string()))]))
    };
    let calls = c.take_pending_tool_calls();
    assert!(c.ui.messages.iter().any(|m| m.role == TranscriptRole::ToolCall));

    // No server offers "lookup": the call is refused and its result recorded.
    let servers: Vec<McpServerInfo> = Vec::new();
    let (record, plan) = plan_tool_call(calls[0].0, &calls[0].1, &servers, q_mcp());
    let refused = c.session.start_tool_flow(vec![record], vec![plan]);
    for e in refused {
        let line = c.session.record_refused_call(&servers, e, "");
        c.add_tool_result_message(line);
    }
    assert!(c.ui.messages.iter().any(|m| m.role == TranscriptRole::ToolResult));
}

#[test]
fn tool_call_deltas_keep_calls_ordered_by_index() {
    let mut c = controller();
    for (index, name) in [(2u32, "b"), (0u32, "a"), (1u32, "m")] {
        c.session.append_tool_call_delta(ToolCallDelta {
            index,
            id: None,
            name: Some(name.to_string()),
            arguments: None,
        });
    }
    let indices: Vec<u32> = c.session.pending_tool_calls.iter().map(|e| e.0).collect();
    assert_eq!(indices, vec![0, 1, 2]);
    assert_eq!(c.session.pending_tool_calls[1].1.name.as_deref(), Some("m"));
}

#[test]
fn complete_in_place_edit_updates_message() {
    let mut c = controller();
    c.ui.messages.push(msg(TranscriptRole::User, "old"));
    c.ui.start_in_place_edit(0);

    c.ui.complete_in_place_edit(0, "new content".into());

    assert_eq!(c.ui.messages[0].content, "new content");
    assert!(c.ui.in_place_edit_index().is_none());
}

#[test]
fn in_place_edit_of_another_message_changes_nothing() {
    let mut c = controller();
    c.ui.messages.push(msg(TranscriptRole::User, "old"));
    c.ui.messages.push(msg(TranscriptRole::Assistant, "reply"));
    c.ui.start_in_place_edit(1);

    assert!(!c.ui.complete_in_place_edit(0, "new".into()));
    assert_eq!(c.ui.messages[0].content, "old");
    assert!(c.ui.in_place_edit_index().is_none());
}
