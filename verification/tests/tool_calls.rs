use chabeau::json::JsonValue;
use chabeau::mcp_servers::{McpServerInfo, PayloadRetention};
use chabeau::session::{
    PendingToolCall, SessionContext, ToolFailureKind, ToolResultRecord, ToolResultStatus,
};
use chabeau::text::abbreviate_tool_call_value;
use chabeau::schema_check::{plan_turn_calls, tool_input_schema, validate_call};
use chabeau::tool_flow::{
    parse_tool_arguments_value, plan_tool_call, summarize_tool_call_arguments, CallPlan, QueueStep,
};
use chabeau::inspect::ToolInspectKind;
use chabeau::session::ToolCallRequest;
use chabeau::tool_inspect::{build_tool_request_content, latest_tool_inspect_target, tool_inspect_page};

fn alpha_server() -> McpServerInfo {
    alpha_server_with(object(vec![("type", JsonValue::Str("object".to_string()))]))
}

fn str_value(s: &str) -> JsonValue {
    JsonValue::Str(s.to_string())
}

/// The input schema `ToolInputSchema::new(required, Some(properties), None)`
/// stands for.
fn input_schema(required: Vec<&str>, properties: Vec<(&str, JsonValue)>) -> JsonValue {
    let mut members = vec![
        ("properties", object(properties)),
        ("type", str_value("object")),
    ];
    if !required.is_empty() {
        members.insert(1, ("required", JsonValue::Array(required.into_iter().map(str_value).collect())));
    }
    object(members)
}

fn nullable_object_schema() -> JsonValue {
    object(vec![(
        "anyOf",
        JsonValue::Array(vec![
            object(vec![("type", str_value("object"))]),
            object(vec![("type", str_value("null"))]),
        ]),
    )])
}

fn alpha_server_with(schema: JsonValue) -> McpServerInfo {
    McpServerInfo {
        id: "alpha".to_string(),
        display_name: "Alpha MCP".to_string(),
        enabled: true,
        yolo: false,
        resources_capability: None,
        tools: Some(vec!["search".to_string()]),
        allowed_tools: None,
        tool_payloads: PayloadRetention::Turn,
        tool_payload_window: 0,
        tool_schemas: vec![("search".to_string(), schema)],
    }
}

fn session() -> SessionContext {
    SessionContext::uninitialized("Refine this.".to_string(), "REFINE:".to_string())
}

fn search_call(arguments: &str) -> PendingToolCall {
    PendingToolCall {
        id: Some("call-1".to_string()),
        name: Some("search".to_string()),
        arguments: arguments.to_string(),
    }
}

fn object(members: Vec<(&str, JsonValue)>) -> JsonValue {
    JsonValue::Object(members.into_iter().map(|(k, v)| (k.to_string(), v)).collect())
}

/// Plans one call, checks its arguments against the tool's schema and
/// starts the flow, recording what was refused.
fn run_flow(
    session: &mut SessionContext,
    servers: &Vec<McpServerInfo>,
    call: PendingToolCall,
) {
    let refused = session.start_turn_tool_flow(&vec![(0, call)], servers);
    for e in refused {
        session.record_refused_call(servers, e, "");
    }
}

#[test]
fn tool_request_inspect_formats_arguments() {
    let record = ToolResultRecord {
        tool_name: "mcp_read_resource".to_string(),
        server_name: Some("Example Server".to_string()),
        server_id: Some("example".to_string()),
        status: ToolResultStatus::Success,
        failure_kind: None,
        content: "{\"ok\":true}".to_string(),
        summary: String::new(),
        tool_call_id: Some("tool-call-1".to_string()),
        raw_arguments: Some("{\"uri\":\"mcp://example/resource\"}".to_string()),
        assistant_message_index: None,
    };

    let content = build_tool_request_content(&record);
    assert!(content.contains("Arguments:"));
    assert!(content.contains("\"uri\": \"mcp://example/resource\""));
}

#[test]
fn tool_request_inspect_handles_missing_arguments() {
    let record = ToolResultRecord {
        tool_name: "no_args".to_string(),
        server_name: None,
        server_id: None,
        status: ToolResultStatus::Success,
        failure_kind: None,
        content: "{}".to_string(),
        summary: String::new(),
        tool_call_id: None,
        raw_arguments: None,
        assistant_message_index: None,
    };

    let content = build_tool_request_content(&record);
    assert!(content.contains("(unavailable)"));
}

#[test]
fn test_tool_call_argument_values_truncate_long_strings() {
    let long_value = "a".repeat(120);
    let raw = format!(r#"{{"q":"{long_value}","n":1}}"#);
    let summary = summarize_tool_call_arguments(&raw).expect("summary");
    let expected_q =
        abbreviate_tool_call_value(&serde_json::to_string(&long_value).expect("json"));

    assert!(summary.contains(&format!("q={expected_q}")));
    assert!(summary.contains("n=1"));
}

#[test]
fn prepare_tool_flow_returns_structured_schema_validation_error() {
    let schema = input_schema(vec![], vec![("filters", object(vec![("type", str_value("object"))]))]);
    let servers = vec![alpha_server_with(schema)];
    let mut session = session();
    run_flow(
        &mut session,
        &servers,
        search_call(r#"{"filters":"{\"tag\":\"compost\"}"}"#),
    );

    assert!(session.pending_tool_queue.is_empty());
    let record = session.tool_result_history.last().expect("tool error record");
    assert_eq!(record.failure_kind, Some(ToolFailureKind::ToolError));

    let payload: serde_json::Value = serde_json::from_str(&record.content).expect("validation payload");
    assert_eq!(payload["isError"], serde_json::Value::Bool(true));
    assert_eq!(payload["error"]["kind"], "invalid_arguments");
    assert_eq!(payload["error"]["violations"][0]["path"], "/filters");
    assert_eq!(payload["error"]["violations"][0]["expected"], "object");
    assert_eq!(payload["error"]["violations"][0]["actual"], "string");
    assert!(payload["error"]["violations"][0]["hint"]
        .as_str()
        .expect("hint")
        .contains("quoted JSON string"));
}

#[test]
fn prepare_tool_flow_flags_missing_required_arguments_before_dispatch() {
    let schema = input_schema(vec!["query"], vec![("query", object(vec![("type", str_value("string"))]))]);
    let servers = vec![alpha_server_with(schema)];
    let mut session = session();
    run_flow(&mut session, &servers, search_call(""));

    assert!(session.pending_tool_queue.is_empty());
    let record = session.tool_result_history.last().expect("tool error record");
    assert_eq!(record.failure_kind, Some(ToolFailureKind::ToolError));

    let payload: serde_json::Value = serde_json::from_str(&record.content).expect("validation payload");
    assert_eq!(payload["error"]["violations"][0]["path"], "/query");
    assert_eq!(payload["error"]["violations"][0]["expected"], "present");
    assert_eq!(payload["error"]["violations"][0]["actual"], "missing");
}

#[test]
fn prepare_tool_flow_rejects_any_of_union_mismatches() {
    let schema = input_schema(vec![], vec![("filters", nullable_object_schema())]);
    let servers = vec![alpha_server_with(schema)];
    let mut session = session();
    run_flow(
        &mut session,
        &servers,
        search_call(r#"{"filters":7}"#),
    );

    assert!(session.pending_tool_queue.is_empty());
    let record = session.tool_result_history.last().expect("tool error record");
    let payload: serde_json::Value = serde_json::from_str(&record.content).expect("validation payload");
    assert_eq!(payload["error"]["violations"][0]["path"], "/filters");
    assert_eq!(payload["error"]["violations"][0]["expected"], "anyOf");
}

#[test]
fn prepare_tool_flow_accepts_any_of_union_matches() {
    let schema = input_schema(vec![], vec![("filters", nullable_object_schema())]);
    let servers = vec![alpha_server_with(schema)];
    let mut session = session();
    run_flow(
        &mut session,
        &servers,
        search_call(r#"{"filters":null}"#),
    );

    assert_eq!(session.pending_tool_queue.len(), 1);
    let step = session.advance_tool_queue(&servers, None, "");
    assert!(session.pending_tool_queue.is_empty());
    assert!(session.active_tool_request.is_some());
    assert!(matches!(step, QueueStep::Ask { .. }));
}

fn completed_record() -> ToolResultRecord {
    ToolResultRecord {
        tool_name: "completed_tool".to_string(),
        server_name: Some("Alpha MCP".to_string()),
        server_id: Some("alpha".to_string()),
        status: ToolResultStatus::Success,
        failure_kind: None,
        content: "{}".to_string(),
        summary: String::new(),
        tool_call_id: Some("call-1".to_string()),
        raw_arguments: Some("{\"ok\":true}".to_string()),
        assistant_message_index: None,
    }
}

#[test]
fn inspect_tool_calls_prefers_pending_prompt() {
    let mut s = session();
    s.tool_result_history.push(completed_record());
    s.pending_tool_queue.push_back(ToolCallRequest {
        server_id: "alpha".to_string(),
        tool_name: "pending_tool".to_string(),
        arguments: None,
        raw_arguments: "{\"q\":\"pending\"}".to_string(),
        tool_call_id: Some("call-2".to_string()),
    });
    let servers = vec![alpha_server()];

    let (index, view) = latest_tool_inspect_target(&s, true).expect("a target");
    let page = tool_inspect_page(&s, &servers, index, view).expect("a page");

    assert!(page.title.contains("pending"));
    assert!(matches!(page.kind, ToolInspectKind::Pending));
}

#[test]
fn inspect_tool_calls_labels_completed() {
    let mut s = session();
    s.tool_result_history.push(completed_record());
    let servers = vec![alpha_server()];

    let (index, view) = latest_tool_inspect_target(&s, false).expect("a target");
    let page = tool_inspect_page(&s, &servers, index, view).expect("a page");

    assert!(page.title.contains("completed"));
    assert!(matches!(page.kind, ToolInspectKind::Result));
}

fn validate_with(schema: Option<JsonValue>, arguments: &str, parsed: JsonValue) -> CallPlan {
    let servers = match schema {
        Some(s) => vec![alpha_server_with(s)],
        None => {
            let mut s = alpha_server();
            s.tool_schemas.clear();
            vec![s]
        }
    };
    let (_record, plan) = plan_tool_call(0, &search_call(arguments), &servers, Ok(parsed));
    match plan {
        CallPlan::Validate(req) => validate_call(req, "search", tool_input_schema(&servers, "alpha", "search")),
        other => other,
    }
}

fn failure_payload(plan: CallPlan) -> serde_json::Value {
    match plan {
        CallPlan::Failed(e) => serde_json::from_str(&e.error).expect("validation payload"),
        _ => panic!("expected a refused call"),
    }
}

#[test]
fn tool_without_schema_is_not_checked() {
    let plan = validate_with(None, r#"{"q":1}"#, object(vec![("q", JsonValue::Number("1".to_string()))]));
    assert!(matches!(plan, CallPlan::Ready(_)));
}

#[test]
fn schema_limits_and_unexpected_properties_are_reported() {
    let schema = object(vec![
        ("additionalProperties", JsonValue::Bool(false)),
        ("properties", object(vec![(
            "n",
            object(vec![("maximum", JsonValue::Number("3".to_string())), ("type", str_value("integer"))]),
        )])),
        ("type", str_value("object")),
    ]);
    let parsed = object(vec![
        ("extra", JsonValue::Bool(true)),
        ("n", JsonValue::Number("9".to_string())),
    ]);
    let payload = failure_payload(validate_with(Some(schema), r#"{"extra":true,"n":9}"#, parsed));
    let violations = payload["error"]["violations"].as_array().expect("violations");
    assert!(violations.iter().any(|v| v["path"] == "/extra"
        && v["expected"] == "no additional properties"
        && v["actual"] == "boolean"));
    assert!(violations.iter().any(|v| v["path"] == "/n" && v["expected"] == "maximum 3"));
}

#[test]
fn array_items_are_found_by_index() {
    let schema = object(vec![
        ("properties", object(vec![(
            "tags",
            object(vec![("items", object(vec![("type", str_value("string"))])), ("type", str_value("array"))]),
        )])),
        ("type", str_value("object")),
    ]);
    let parsed = object(vec![(
        "tags",
        JsonValue::Array(vec![str_value("a"), JsonValue::Number("5".to_string())]),
    )]);
    let payload = failure_payload(validate_with(Some(schema), r#"{"tags":["a",5]}"#, parsed));
    let v = &payload["error"]["violations"][0];
    assert_eq!(v["path"], "/tags/1");
    assert_eq!(v["expected"], "string");
    assert_eq!(v["actual"], "integer");
}

#[test]
fn const_violations_name_strings_quoted_and_other_values_as_json() {
    let string_schema = object(vec![
        ("properties", object(vec![("mode", object(vec![("const", str_value("fast"))]))])),
        ("type", str_value("object")),
    ]);
    let payload = failure_payload(validate_with(
        Some(string_schema),
        r#"{"mode":"slow"}"#,
        object(vec![("mode", str_value("slow"))]),
    ));
    assert_eq!(payload["error"]["violations"][0]["expected"], "const \"fast\"");

    let number_schema = object(vec![
        ("properties", object(vec![("n", object(vec![("const", JsonValue::Number("3".to_string()))]))])),
        ("type", str_value("object")),
    ]);
    let payload = failure_payload(validate_with(
        Some(number_schema),
        r#"{"n":4}"#,
        object(vec![("n", JsonValue::Number("4".to_string()))]),
    ));
    assert_eq!(payload["error"]["violations"][0]["expected"], "const 3");
}

#[test]
fn tool_arguments_are_read_from_their_trimmed_text() {
    assert!(matches!(parse_tool_arguments_value("  \n"), Ok(None)));
    match parse_tool_arguments_value(" {\"a\":1} ") {
        Ok(Some(JsonValue::Object(members))) => {
            assert_eq!(members.len(), 1);
            assert_eq!(members[0].0, "a");
            assert!(matches!(&members[0].1, JsonValue::Number(n) if n == "1"));
        }
        _ => panic!("expected an object"),
    }
    match parse_tool_arguments_value("{") {
        Err(err) => assert!(err.contains("EOF")),
        Ok(_) => panic!("expected an error"),
    }
}

#[test]
fn turn_planning_refuses_arguments_that_are_not_json() {
    let servers = vec![alpha_server()];
    let (records, plans) = plan_turn_calls(&vec![(0, search_call("{oops"))], &servers);
    assert_eq!(records[0].function.arguments, "{oops");
    match &plans[0] {
        CallPlan::Failed(e) => assert!(e.error.starts_with("Invalid tool arguments: ")),
        _ => panic!("expected a refused call"),
    }
}

#[test]
fn argument_summaries_fall_back_to_the_raw_text() {
    assert_eq!(summarize_tool_call_arguments("not   json"), Some("not json".to_string()));
    assert_eq!(summarize_tool_call_arguments(""), None);
    assert_eq!(summarize_tool_call_arguments("[1, 2]"), Some("[1,2]".to_string()));
}

#[test]
fn a_turn_queues_the_runnable_calls_and_hands_back_the_refused_ones() {
    let servers = vec![alpha_server()];
    let mut s = session();
    let unknown = PendingToolCall {
        id: Some("call-2".to_string()),
        name: Some("missing_tool".to_string()),
        arguments: "{}".to_string(),
    };
    let refused = s.start_turn_tool_flow(&vec![(0, search_call(r#"{"q":"x"}"#)), (1, unknown)], &servers);
    assert_eq!(s.tool_call_records.len(), 2);
    assert_eq!(s.tool_call_records[1].id, "call-2");
    assert_eq!(s.pending_tool_queue.len(), 1);
    assert_eq!(s.pending_tool_queue[0].tool_name, "search");
    assert_eq!(refused.len(), 1);
    assert_eq!(refused[0].tool_name, "missing_tool");
    assert!(s.active_tool_request.is_none());
}

#[test]
fn json_strings_are_quoted_and_escaped() {
    let mut out = String::from("x=");
    chabeau::json::push_json_string(&mut out, "say \"hi\"\n");
    assert_eq!(out, "x=\"say \\\"hi\\\"\\n\"");
}
