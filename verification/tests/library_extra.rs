use chabeau::inspect::{InspectController, ToolInspectKind, ToolInspectView};
use chabeau::json::JsonValue;
use chabeau::mcp_prompt::{complete_mcp_prompt_arg, mcp_prompt_report, McpPromptArg, McpPromptInput, PromptArgStep};
use chabeau::mcp_servers::{McpServerInfo, PayloadRetention, ToolPermissionDecision};
use chabeau::model_picker::{Model, ModelsResponse};
use chabeau::picker::{
    filter_items, CharacterPickerState, PickerController, PickerData, PickerItem, PickerSession,
    PickerState, SortMode,
};
use chabeau::picker_actions::{
    character_set_status, model_picker_error_status, not_default_message, persona_activated_status,
    preset_activated_status, theme_applied_status, unset_default_status, DefaultSave,
    PickerMovement, UnsetDefaultRequest,
};
use chabeau::sampling::{advance_sampling_queue, SamplingStep};
use chabeau::session::{
    ChatMessage, ChatToolCall, ChatToolCallFunction, McpPromptRequest, SessionContext,
    ToolCallRequest, ToolPayloadHistoryEntry, ToolResultRecord, ToolResultStatus,
};
use chabeau::tool_flow::{
    type_mismatch_hint, type_mismatch_hint_with, type_mismatch_issue, type_mismatch_issue_with, CallPlan,
    PendingToolError, QueueStep,
};
use chabeau::tool_inspect::{format_tool_payload_for_inspect, step_tool_inspect_index, toggle_tool_inspect_view};

fn session() -> SessionContext {
    let mut s = SessionContext::uninitialized("Refine".to_string(), "REFINE:".to_string());
    s.provider_name = "openai".to_string();
    s.model = "gpt-4".to_string();
    s
}

fn server(id: &str, name: &str, yolo: bool) -> McpServerInfo {
    McpServerInfo {
        id: id.to_string(),
        display_name: name.to_string(),
        enabled: true,
        yolo,
        resources_capability: None,
        tools: Some(vec!["search".to_string()]),
        allowed_tools: None,
        tool_payloads: PayloadRetention::Turn,
        tool_payload_window: 0,
        tool_schemas: Vec::new(),
    }
}

fn item(id: &str, label: &str) -> PickerItem {
    PickerItem {
        id: id.to_string(),
        label: label.to_string(),
        metadata: None,
        inspect_metadata: None,
        sort_key: None,
    }
}

fn character_picker(items: Vec<PickerItem>) -> PickerController {
    let mut c = PickerController::new();
    c.picker_session = Some(PickerSession {
        state: PickerState::new("Pick Character", items.clone(), 0),
        data: PickerData::Character(CharacterPickerState {
            search_filter: String::new(),
            all_items: items,
        }),
    });
    c
}

fn plain_message(role: &str, content: &str) -> ChatMessage {
    ChatMessage {
        role: role.to_string(),
        content: content.to_string(),
        name: None,
        tool_call_id: None,
        tool_calls: None,
    }
}

fn model(id: &str, name: Option<&str>, created: Option<u64>) -> Model {
    Model {
        id: id.to_string(),
        display_name: name.map(|n| n.to_string()),
        created,
        created_at: None,
        owned_by: None,
    }
}

// Model listings: creation times are formatted by chrono.

#[test]
fn model_picker_formats_creation_times_and_stars_default() {
    let mut c = PickerController::new();
    let listing = ModelsResponse {
        data: vec![
            model("gpt-4", Some("GPT-4"), Some(1_700_000_000)),
            model("gpt-3.5", None, Some(1_700_000_000_000)),
        ],
    };

    c.populate_model_picker_from_response(&session(), Some("gpt-4".to_string()), listing).unwrap();

    let all = match &c.session().unwrap().data {
        PickerData::Model(m) => {
            assert!(m.has_dates);
            assert_eq!(m.before_model.as_deref(), Some("gpt-4"));
            m.all_items.clone()
        }
        _ => panic!("model picker expected"),
    };
    let gpt4 = all.iter().find(|it| it.id == "gpt-4").unwrap();
    assert_eq!(gpt4.label, "gpt-4 (GPT-4)*");
    assert_eq!(gpt4.metadata.as_deref(), Some("Created: 2023-11-14 22:13 UTC"));
    let gpt35 = all.iter().find(|it| it.id == "gpt-3.5").unwrap();
    assert_eq!(gpt35.metadata.as_deref(), Some("Created: 2023-11-14 22:13 UTC"));
    let selected = &c.state().unwrap().items[c.state().unwrap().selected];
    assert_eq!(selected.id, "gpt-4");
}

#[test]
fn model_picker_refuses_empty_listing() {
    let mut c = PickerController::new();
    let r = c.populate_model_picker_from_response(&session(), None, ModelsResponse { data: vec![] });
    assert_eq!(r, Err("No models available from this provider".to_string()));
    assert!(c.session().is_none());
}

// Text that goes through serde_json.

#[test]
fn tool_payloads_are_pretty_printed_for_inspection() {
    assert_eq!(format_tool_payload_for_inspect(" {\"a\":1} "), "{\n  \"a\": 1\n}");
    assert_eq!(format_tool_payload_for_inspect("not json "), "not json");
    assert_eq!(format_tool_payload_for_inspect("   "), "");
}

#[test]
fn quoted_objects_are_named_in_type_mismatches() {
    let quoted = JsonValue::Str("{\"a\":1}".to_string());
    assert_eq!(
        type_mismatch_issue(&quoted, "object"),
        "Expected a JSON object, but received a serialized JSON string."
    );
    let plain = JsonValue::Str("a".to_string());
    assert_eq!(type_mismatch_issue(&plain, "object"), "Expected object, but received string.");
}

#[test]
fn type_mismatch_texts_follow_the_quoted_object_answer() {
    let text = JsonValue::Str("x".to_string());
    assert_eq!(
        type_mismatch_issue_with(&text, "object | null", true),
        "Expected a JSON object, but received a serialized JSON string."
    );
    assert_eq!(
        type_mismatch_issue_with(&text, "string", true),
        "Expected string, but received string."
    );
    assert_eq!(
        type_mismatch_hint_with("/filters", "object", true),
        "Pass `filters` as an object, not as a quoted JSON string."
    );
    assert_eq!(
        type_mismatch_hint_with("/filters", "object", false),
        "Update `filters` to use the expected JSON type: object."
    );
    let quoted = JsonValue::Str("{\"a\":1}".to_string());
    assert_eq!(
        type_mismatch_hint("", &quoted, "object"),
        "Send tool arguments as a JSON object, not as a quoted JSON string."
    );
}

#[test]
fn picker_filter_ignores_unicode_case() {
    let items = vec![item("éclair", "Éclair"), item("tart", "Tart")];
    let shown = filter_items(&items, "ÉCL", None);
    assert_eq!(shown.len(), 1);
    assert_eq!(shown[0].id, "éclair");
}

// Laws, on concrete values.

#[test]
fn cycling_the_sort_mode_twice_restores_it() {
    let mut c = character_picker(vec![item("a", "A"), item("b", "B")]);
    let before = c.state().unwrap().sort_mode;
    c.cycle_sort(false);
    assert_ne!(c.state().unwrap().sort_mode, before);
    c.cycle_sort(false);
    assert_eq!(c.state().unwrap().sort_mode, before);
    assert_eq!(before, SortMode::Name);
}

#[test]
fn selection_stays_in_the_list() {
    let mut c = character_picker(vec![item("a", "A"), item("b", "B")]);
    c.move_selection(false, PickerMovement::End);
    c.move_selection(false, PickerMovement::Down);
    assert_eq!(c.state().unwrap().selected, 1);
    c.move_selection(false, PickerMovement::Start);
    c.move_selection(false, PickerMovement::Up);
    assert_eq!(c.state().unwrap().selected, 0);
}

#[test]
fn typing_then_erasing_restores_the_filter() {
    let mut c = character_picker(vec![item("alice", "Alice"), item("bob", "Bob")]);
    c.type_filter_char(false, 'b');
    assert_eq!(c.state().unwrap().items.len(), 1);
    c.erase_filter_char(false);
    assert_eq!(c.state().unwrap().items.len(), 2);
    match &c.session().unwrap().data {
        PickerData::Character(s) => assert!(s.search_filter.is_empty()),
        _ => panic!("character picker expected"),
    }
}

#[test]
fn payload_window_keeps_newest_entries_of_the_server() {
    let mut s = session();
    for (i, server_id) in ["alpha", "beta", "alpha", "alpha"].iter().enumerate() {
        s.tool_payload_history.push(ToolPayloadHistoryEntry {
            server_id: Some(server_id.to_string()),
            tool_call_id: Some(format!("call-{i}")),
            assistant_message: plain_message("assistant", ""),
            tool_message: plain_message("tool", "{}"),
            assistant_message_index: None,
        });
    }

    s.trim_tool_payload_history(Some("alpha"), 1);

    let ids: Vec<&str> =
        s.tool_payload_history.iter().map(|e| e.tool_call_id.as_deref().unwrap()).collect();
    assert_eq!(ids, vec!["call-1", "call-3"]);
}

#[test]
fn instant_recall_reads_the_recorded_result() {
    let mut s = session();
    s.tool_result_history.push(ToolResultRecord {
        tool_name: "search".to_string(),
        server_name: Some("Alpha".to_string()),
        server_id: Some("alpha".to_string()),
        status: ToolResultStatus::Success,
        failure_kind: None,
        content: "{\"ok\":true}".to_string(),
        summary: "search(q=rust)".to_string(),
        tool_call_id: Some("call-1".to_string()),
        raw_arguments: None,
        assistant_message_index: None,
    });
    s.pending_tool_queue.push_back(ToolCallRequest {
        server_id: "session_memory".to_string(),
        tool_name: "instant_recall".to_string(),
        arguments: Some(vec![("tool_call_id".to_string(), JsonValue::Str("call-1".to_string()))]),
        raw_arguments: "{\"tool_call_id\":\"call-1\"}".to_string(),
        tool_call_id: Some("call-9".to_string()),
    });

    let step = s.advance_tool_queue(&Vec::new(), None, "");

    match step {
        QueueStep::Recalled { message, failed } => {
            assert!(!failed);
            assert_eq!(message, "Recalling result from previous tool call call-9: search(q=rust)");
        }
        _ => panic!("expected a recall"),
    }
    let answer = s.tool_results.last().unwrap();
    assert_eq!(answer.content, "{\"ok\":true}");
    assert_eq!(answer.tool_call_id.as_deref(), Some("call-9"));
}

#[test]
fn every_call_is_queued_or_refused() {
    let mut s = session();
    let record = |id: &str| ChatToolCall {
        id: id.to_string(),
        kind: "function".to_string(),
        function: ChatToolCallFunction { name: "search".to_string(), arguments: "{}".to_string() },
    };
    let plans = vec![
        CallPlan::Ready(ToolCallRequest {
            server_id: "alpha".to_string(),
            tool_name: "search".to_string(),
            arguments: None,
            raw_arguments: "{}".to_string(),
            tool_call_id: Some("call-1".to_string()),
        }),
        CallPlan::Failed(PendingToolError {
            tool_name: "missing".to_string(),
            server_id: None,
            tool_call_id: Some("call-2".to_string()),
            raw_arguments: None,
            error: "Unknown tool".to_string(),
            failure_kind: None,
        }),
    ];

    let refused = s.start_tool_flow(vec![record("call-1"), record("call-2")], plans);

    assert_eq!(refused.len() + s.pending_tool_queue.len(), 2);
    assert_eq!(refused[0].tool_name, "missing");
    assert_eq!(s.tool_call_records.len(), 2);
}

#[test]
fn prompt_values_stay_unique_by_name() {
    let input = McpPromptInput {
        server_id: "alpha".to_string(),
        prompt_name: "summarize".to_string(),
        pending_args: vec![McpPromptArg { name: "topic".to_string(), title: None, required: true }],
        next_index: 0,
        collected: vec![("topic".to_string(), "old".to_string())],
    };

    match complete_mcp_prompt_arg(input, "  new  ") {
        PromptArgStep::Run(request) => {
            assert_eq!(request.arguments, vec![("topic".to_string(), "new".to_string())]);
            assert_eq!(request.server_id, "alpha");
        }
        _ => panic!("expected the prompt to run"),
    }
}

// MCP prompts.

#[test]
fn blank_required_prompt_argument_is_refused() {
    let input = McpPromptInput {
        server_id: "alpha".to_string(),
        prompt_name: "summarize".to_string(),
        pending_args: vec![
            McpPromptArg { name: "topic".to_string(), title: Some("Topic".to_string()), required: true },
            McpPromptArg { name: "tone".to_string(), title: None, required: false },
        ],
        next_index: 0,
        collected: Vec::new(),
    };
    match complete_mcp_prompt_arg(input, "   ") {
        PromptArgStep::ValueRequired { status } => assert_eq!(status, "Value required for Topic"),
        _ => panic!("expected a refusal"),
    }
}

#[test]
fn optional_prompt_argument_may_stay_blank() {
    let input = McpPromptInput {
        server_id: "alpha".to_string(),
        prompt_name: "summarize".to_string(),
        pending_args: vec![
            McpPromptArg { name: "tone".to_string(), title: None, required: false },
            McpPromptArg { name: "topic".to_string(), title: None, required: true },
        ],
        next_index: 0,
        collected: Vec::new(),
    };
    match complete_mcp_prompt_arg(input, "") {
        PromptArgStep::Next(next) => {
            assert_eq!(next.next_index, 1);
            assert!(next.collected.is_empty());
        }
        _ => panic!("expected the next argument"),
    }
}

#[test]
fn prompt_reports_name_the_prompt() {
    let request = McpPromptRequest {
        server_id: "alpha".to_string(),
        prompt_name: "summarize".to_string(),
        arguments: Vec::new(),
    };
    assert_eq!(mcp_prompt_report(&request, &Ok(2)), "Applied MCP prompt alpha:summarize.");
    assert_eq!(
        mcp_prompt_report(&request, &Ok(0)),
        "MCP prompt alpha:summarize returned no messages."
    );
    assert_eq!(
        mcp_prompt_report(&request, &Err("timeout".to_string())),
        "MCP prompt alpha:summarize failed: timeout"
    );
}

// Sampling requests.

#[test]
fn sampling_waits_while_busy_and_idles_when_empty() {
    let servers = vec![server("alpha", "Alpha", false)];
    assert!(matches!(advance_sampling_queue(true, false, Some("alpha"), &servers, None, "m"), SamplingStep::Busy));
    assert!(matches!(advance_sampling_queue(false, true, Some("alpha"), &servers, None, "m"), SamplingStep::Busy));
    assert!(matches!(advance_sampling_queue(false, false, None, &servers, None, "m"), SamplingStep::Idle));
}

#[test]
fn sampling_runs_refuses_or_asks() {
    let servers = vec![server("alpha", "Alpha", false), server("fast", "Fast", true)];
    assert!(matches!(advance_sampling_queue(false, false, Some("fast"), &servers, None, "m"), SamplingStep::Run));
    assert!(matches!(
        advance_sampling_queue(false, false, Some("alpha"), &servers, Some(ToolPermissionDecision::AllowSession), "m"),
        SamplingStep::Run
    ));
    match advance_sampling_queue(false, false, Some("alpha"), &servers, Some(ToolPermissionDecision::Block), "m") {
        SamplingStep::Refuse { code, message } => {
            assert_eq!(code, -1);
            assert_eq!(message, "Sampling blocked by user.");
        }
        _ => panic!("expected a refusal"),
    }
    match advance_sampling_queue(false, false, Some("alpha"), &servers, None, "gpt-4") {
        SamplingStep::Ask { server_name, display_name, .. } => {
            assert_eq!(server_name, "Alpha");
            assert_eq!(display_name, "Allow Alpha to generate text with gpt-4?");
        }
        _ => panic!("expected a question"),
    }
}

// Picker statuses and requests.

#[test]
fn picker_statuses_say_what_happened() {
    assert_eq!(theme_applied_status("dark", true, &Ok(())), "Theme set: dark (saved to config)");
    assert_eq!(theme_applied_status("dark", false, &Err("bad".to_string())), "Theme error: bad");
    assert_eq!(model_picker_error_status("offline"), "Model picker error: offline");
    assert_eq!(
        character_set_status("Aria", &DefaultSave::Saved, "openai", "gpt-4"),
        "Character set: Aria (saved as default for openai:gpt-4)"
    );
    assert_eq!(
        persona_activated_status("Mentor", &DefaultSave::SaveFailed("ro".to_string()), "p", "m"),
        "Persona activated: Mentor (failed to save as default: ro)"
    );
    assert_eq!(
        preset_activated_status("focus", &DefaultSave::NotRequested, "p", "m"),
        "Preset activated: focus"
    );
    assert_eq!(not_default_message(), "Del key only works on default items (marked with *)");
    assert!(unset_default_status("dark", &Ok(())).contains("dark"));
}

#[test]
fn del_only_unsets_starred_entries() {
    let c = character_picker(vec![item("alice", "alice*"), item("bob", "bob")]);
    assert!(matches!(c.unset_default_request(), UnsetDefaultRequest::Unset { ref id, .. } if id == "alice"));

    let mut c = character_picker(vec![item("alice", "alice*"), item("bob", "bob")]);
    c.move_selection(false, PickerMovement::Down);
    assert!(matches!(c.unset_default_request(), UnsetDefaultRequest::NotDefault));
}

#[test]
fn inspecting_an_entry_without_text_says_so() {
    let c = character_picker(vec![item("alice", "Alice")]);
    let plan = c.inspect_selection();
    assert!(plan.open.is_none());
    assert_eq!(plan.status.as_deref(), Some("Nothing to inspect for this item"));

    let mut described = item("bob", "Bob*");
    described.inspect_metadata = Some("A friendly character".to_string());
    let c = character_picker(vec![described]);
    let plan = c.inspect_selection();
    let (title, text) = plan.open.expect("a view");
    assert_eq!(title, "Pick Character \u{2013} Bob");
    assert_eq!(text, "A friendly character");
}

#[test]
fn model_selection_closes_picker_and_reports() {
    let mut c = character_picker(vec![item("a", "A")]);
    c.in_provider_model_transition = true;
    c.provider_model_transition_state = Some((
        "p".into(),
        "P".into(),
        "m".into(),
        "k".into(),
        "u".into(),
    ));
    let f = c.finish_model_selection("gpt-4", true, &Ok(()));
    assert_eq!(f.status, "Model set: gpt-4 (saved to config)");
    assert!(f.load_defaults);
    assert!(c.session().is_none());
    assert!(!c.in_provider_model_transition);
    assert!(c.provider_model_transition_state.is_none());
}

#[test]
fn turning_character_mode_off_drops_the_character() {
    let mut c = character_picker(vec![item("a", "A")]);
    let mut s = session();
    s.active_character = None;
    let status = c.turn_off_character(&mut s);
    assert_eq!(status, "Character mode disabled");
    assert!(s.active_character.is_none());
    assert!(c.session().is_none());
}

// Continuing after tool calls, and the inspect view.

#[test]
fn continuation_request_appends_calls_and_results() {
    let mut s = session();
    s.tool_call_records.push(ChatToolCall {
        id: "call-1".to_string(),
        kind: "function".to_string(),
        function: ChatToolCallFunction { name: "search".to_string(), arguments: "{}".to_string() },
    });
    let mut result = plain_message("tool", "{\"ok\":true}");
    result.tool_call_id = Some("call-1".to_string());
    s.tool_results.push(result);

    let request = s.continuation_request(vec![plain_message("user", "Q")]);

    assert_eq!(request.len(), 3);
    assert_eq!(request[1].role, "assistant");
    assert_eq!(request[1].tool_calls.as_ref().unwrap()[0].id, "call-1");
    assert_eq!(request[2].role, "tool");
    assert_eq!(request[2].tool_call_id.as_deref(), Some("call-1"));
}

#[test]
fn continuation_without_calls_adds_no_assistant_message() {
    let s = session();
    let request = s.continuation_request(vec![plain_message("user", "Q")]);
    assert_eq!(request.len(), 1);
}

#[test]
fn inspect_view_scrolls_and_steps_between_calls() {
    let mut inspect = InspectController::new();
    inspect.open_tool_calls(
        "Tool call".to_string(),
        "body".to_string(),
        0,
        ToolInspectView::Result,
        ToolInspectKind::Result,
    );
    inspect.scroll(5);
    assert_eq!(inspect.state().unwrap().scroll_offset, 5);
    inspect.scroll(-10);
    assert_eq!(inspect.state().unwrap().scroll_offset, 0);
    inspect.scroll_to_end();
    assert_eq!(inspect.state().unwrap().scroll_offset, u16::MAX);
    inspect.scroll_to_start();
    assert_eq!(inspect.state().unwrap().scroll_offset, 0);

    assert_eq!(step_tool_inspect_index(2, 1, 3), Some(0));
    assert_eq!(step_tool_inspect_index(0, -1, 3), Some(2));
    assert_eq!(step_tool_inspect_index(0, 1, 1), None);
    assert!(toggle_tool_inspect_view(ToolInspectKind::Pending, ToolInspectView::Request).is_err());
    assert!(matches!(
        toggle_tool_inspect_view(ToolInspectKind::Result, ToolInspectView::Result),
        Ok(ToolInspectView::Request)
    ));
}
