//! Requests, answers and streams, converted from one API to the other.
use std::borrow::Borrow;
use std::sync::{Arc, Mutex};

use bytes::Bytes;
use copilot_bridge::error::AIError;
use copilot_bridge::json::Json;
use copilot_bridge::request::{translate, Request, Temperature};
use copilot_bridge::response::{retain_response_item, translate_response, TranslatedResponse};
use copilot_bridge::responses::{render_items, OutputStatus};
use copilot_bridge::stream::{
    translate_stream, StreamSettings, StreamTelemetry, StrictSseJsonEvent,
};
use copilot_bridge::stream_blocks::Moment;
use copilot_bridge::items::stream_message_item;
use copilot_bridge::stream_state::{ResponsesStreamState, StreamTextBlock};
use copilot_bridge::tools::State;
use copilot_bridge::toplevel::typed_projection;
use serde_json::Value;

fn j(text: &str) -> Value {
    serde_json::from_str(text).expect("valid JSON")
}

fn val<T: serde::Serialize + ?Sized>(t: &T) -> Value {
    serde_json::to_value(t).expect("a JSON value")
}

fn arr(items: Vec<Value>) -> Value {
    Value::Array(items)
}

fn obj(fields: Vec<(&str, Value)>) -> Value {
    Value::Object(fields.into_iter().map(|(k, v)| (k.to_string(), v)).collect())
}

fn json_of(value: &Value) -> Json {
    Json::parse(&serde_json::to_vec(value).expect("a JSON text")).expect("a JSON value")
}

/// Whether a request without its conversation and its tools has fields of the right shapes.
fn decodes(projection: &Json) -> bool {
    let p: Value = serde_json::from_slice(&projection.to_bytes()).expect("a JSON text");
    let identified = |v: &Value| v.is_null() || v["id"].is_string();
    (p["text"].is_null() || p["text"].is_object())
        && (p["conversation"].is_string() || identified(&p["conversation"]))
        && identified(&p["prompt"])
}

fn raw_request(value: Value) -> Request {
    let raw = json_of(&value);
    let typed = decodes(&typed_projection(&raw));
    Request {
        typed,
        model: value["model"].as_str().map(String::from),
        stream: value["stream"].as_bool(),
        max_output_tokens: value["max_output_tokens"].as_u64(),
        temperature: value["temperature"].as_f64().map(|t| Temperature {
            number: json_of(&value["temperature"]),
            in_unit_range: t.is_finite() && (0.0..=1.0).contains(&t),
        }),
        top_p: value["top_p"].as_f64().map(|_| json_of(&value["top_p"])),
        raw,
    }
}

fn request(mut value: Value) -> Request {
    let object = value.as_object_mut().expect("request object");
    object.entry("store").or_insert(Value::Bool(false));
    raw_request(value)
}

fn translate_error(bytes: &Bytes, status: http::StatusCode) -> Result<Vec<u8>, AIError> {
    copilot_bridge::request::translate_error(bytes, status.as_u16())
}

#[derive(Default)]
struct Logged {
    input_tokens: Option<u64>,
    output_tokens: Option<u64>,
    total_tokens: Option<u64>,
    cached_input_tokens: Option<u64>,
    cache_creation_input_tokens: Option<u64>,
    reasoning_tokens: Option<u64>,
    provider_model: Option<String>,
    service_tier: Option<String>,
    completion: Option<Vec<String>>,
    first_token: Option<u64>,
}

#[derive(Default)]
struct Info {
    response: Logged,
}

/// Counts what a stream has logged.
#[derive(Default)]
struct Logger {
    info: Arc<Mutex<Info>>,
    first: Arc<Mutex<usize>>,
    updates: Arc<Mutex<usize>>,
}

impl Logger {
    fn take(&self, t: StreamTelemetry) {
        if t.first_token.is_some() {
            *self.first.lock().unwrap() += 1;
        }
        *self.updates.lock().unwrap() += 1;
        self.info.lock().unwrap().response = Logged {
            input_tokens: Some(t.input_tokens),
            output_tokens: Some(t.output_tokens),
            total_tokens: Some(t.total_tokens),
            cached_input_tokens: Some(t.cached_input_tokens),
            cache_creation_input_tokens: t.cache_creation_input_tokens,
            reasoning_tokens: t.reasoning_tokens,
            provider_model: t.provider_model,
            service_tier: t.service_tier,
            completion: t.completion.map(|text| vec![text]),
            first_token: t.first_token,
        };
    }
}

fn test_logger() -> (Logger, Arc<Mutex<Info>>, Arc<Mutex<usize>>, Arc<Mutex<usize>>) {
    let logger = Logger::default();
    let (info, first, updates) = (
        logger.info.clone(),
        logger.first.clone(),
        logger.updates.clone(),
    );
    (logger, info, first, updates)
}

/// Takes server-sent events apart. A frame that is too long, or that is cut off, is an error.
fn decode(text: &str, limit: usize) -> Vec<StrictSseJsonEvent> {
    let mut events = Vec::new();
    let mut rest = text;
    while let Some(end) = rest.find("\n\n") {
        let frame = &rest[..end];
        rest = &rest[end + 2..];
        if frame.len() > limit {
            events.push(StrictSseJsonEvent::TransportError);
            return events;
        }
        let field = |name: &str| {
            frame
                .lines()
                .find_map(|line| line.strip_prefix(name))
                .map(String::from)
        };
        let data = field("data: ").expect("SSE data");
        if data == "[DONE]" {
            events.push(StrictSseJsonEvent::Done);
        } else {
            events.push(StrictSseJsonEvent::Data {
                event_name: field("event: "),
                data: data.into_bytes(),
            });
        }
    }
    if !rest.is_empty() {
        events.push(StrictSseJsonEvent::TransportError);
    }
    events.push(StrictSseJsonEvent::Eof);
    events
}

fn told(
    stream: &mut ResponsesStreamState,
    event: StrictSseJsonEvent,
    limit: usize,
    state: &State,
    logger: &Logger,
    instant: u64,
) -> (Vec<Value>, bool) {
    let settings = StreamSettings {
        buffer_limit: limit,
        model: "vendor-sonnet-4-5".to_string(),
        log_tool_calls: false,
    };
    let at = Moment {
        seconds: 1_700_000_000,
        instant,
    };
    let step = translate_stream(stream, event, &settings, state, at);
    if let Some(t) = step.telemetry {
        logger.take(t);
    }
    let events = step
        .events
        .iter()
        .map(|event| {
            let body: Value = serde_json::from_slice(&event.body.to_bytes()).expect("event JSON");
            assert_eq!(body["type"], event.name);
            body
        })
        .collect();
    (events, step.terminated)
}

fn run_stream(
    arrivals: Vec<StrictSseJsonEvent>,
    limit: usize,
    state: &State,
    logger: Logger,
    include_completion_in_log: bool,
) -> Vec<Value> {
    let mut stream = ResponsesStreamState::new(include_completion_in_log);
    let mut events = Vec::new();
    for (n, arrival) in arrivals.into_iter().enumerate() {
        let (more, _) = told(&mut stream, arrival, limit, state, &logger, n as u64);
        events.extend(more);
    }
    events
}

fn translated_stream(frames: Vec<String>, state: impl Borrow<State>) -> Vec<Value> {
    translated_stream_with(frames, state, Logger::default(), false)
}

fn translated_stream_with(
    frames: Vec<String>,
    state: impl Borrow<State>,
    logger: Logger,
    include_completion_in_log: bool,
) -> Vec<Value> {
    run_stream(
        decode(&frames.concat(), 1024 * 1024),
        1024 * 1024,
        state.borrow(),
        logger,
        include_completion_in_log,
    )
}

fn translated_body(body: String, buffer_limit: usize) -> Vec<Value> {
    run_stream(
        decode(&body, buffer_limit),
        buffer_limit,
        &State::default(),
        Logger::default(),
        false,
    )
}

fn buffered_translate(body: Value, state: &State) -> TranslatedResponse {
    let bytes = Bytes::from(serde_json::to_vec(&body).expect("response fixture should encode"));
    translate_response(&bytes, "vendor-sonnet-4", state, 1024 * 1024)
        .expect("response should translate")
}

#[test]
fn stream_streams_text_immediately_without_waiting_for_terminal_classification() {
    let (logger, info, first_updates, updates) = test_logger();
    let mut stream = ResponsesStreamState::new(false);
    let state = State::default();
    let mut events = Vec::new();
    for (n, frame) in [
        stream_message_start(),
        block_start(0, j(r#"{"type":"text","text":""}"#)),
        block_delta(0, j(r#"{"type":"text_delta","text":"held"}"#)),
    ]
    .into_iter()
    .enumerate()
    {
        let arrival = decode(&frame, 1024 * 1024).remove(0);
        let (more, over) = told(&mut stream, arrival, 1024 * 1024, &state, &logger, n as u64);
        assert!(!over);
        events.extend(more);
    }
    // The delta must be there without waiting for the block to stop or the answer to end, for
    // what tells of these has not come yet.
    let types: Vec<_> = events.iter().map(|e| e["type"].as_str().unwrap()).collect();
    assert!(types.contains(&"response.created"));
    assert!(types.contains(&"response.in_progress"));
    let delta = events
        .iter()
        .find(|e| e["type"] == "response.output_text.delta")
        .expect("delta lifecycle frame");
    assert_eq!(delta["delta"], "held");
    assert_eq!(*updates.lock().unwrap(), 0);
    let rest = [block_stop(0), stream_terminal("end_turn", 1).concat()].concat();
    let mut remaining = Vec::new();
    for arrival in decode(&rest, 1024 * 1024) {
        let (more, _) = told(&mut stream, arrival, 1024 * 1024, &state, &logger, 9);
        remaining.extend(more);
    }
    let types: Vec<_> = remaining.iter().map(|e| e["type"].as_str().unwrap()).collect();
    assert!(types.contains(&"response.output_text.done"));
    assert!(types.contains(&"response.completed"));
    assert_eq!(info.lock().unwrap().response.first_token, Some(2));
    assert_eq!(*first_updates.lock().unwrap(), 1);
    assert_eq!(*updates.lock().unwrap(), 1);
}

#[test]
fn stream_decoder_and_body_failures_emit_one_safe_error() {
    let oversized = translated_body(format!("event: ping\ndata: {}\n\n", "x".repeat(128)), 64);
    assert_one_safe_stream_error(&oversized, "oversized SSE frame");

    let truncated = translated_body("event: message_start\ndata: {".to_string(), 1024);
    assert_one_safe_stream_error(&truncated, "truncated SSE frame");

    let mut arrivals = decode(&stream_message_start(), 1024);
    arrivals.pop();
    arrivals.push(StrictSseJsonEvent::TransportError);
    let failed = run_stream(arrivals, 1024, &State::default(), Logger::default(), false);
    assert_one_safe_stream_error(&failed, "upstream body error");
}

#[test]
fn stream_terminal_output_closes_without_polling_stalled_upstream() {
    let mut success = vec![stream_message_start()];
    success.extend(stream_terminal("end_turn", 1));
    let malformed = vec![
        stream_message_start(),
        "event: ping\ndata: {bad}\n\n".to_string(),
    ];

    for (case, frames, terminal) in [
        ("success", success, "response.completed"),
        ("error", malformed, "error"),
    ] {
        let mut arrivals = decode(&frames.concat(), 1024 * 1024);
        arrivals.pop();
        let mut stream = ResponsesStreamState::new(false);
        let logger = Logger::default();
        let mut last = (Vec::new(), false);
        for arrival in arrivals {
            last = told(
                &mut stream,
                arrival,
                1024 * 1024,
                &State::default(),
                &logger,
                0,
            );
        }
        assert!(last.1, "{case} terminal did not close downstream");
        assert_eq!(
            last.0.last().and_then(|event| event["type"].as_str()),
            Some(terminal)
        );
    }
}

#[test]
fn stream_retained_byte_limit_emits_one_error() {
    let mut chunks = vec![
        stream_message_start(),
        block_start(0, j(r#"{"type":"text","text":""}"#)),
    ];
    for _ in 0..61 {
        chunks.push(block_delta(
            0,
            j(r#"{"type":"text_delta","text":"0123456789"}"#),
        ));
    }
    let events = translated_body(chunks.concat(), 600);
    assert_eq!(
        events.iter().filter(|event| event["type"] == "error").count(),
        1,
        "{events:?}"
    );
}

#[test]
fn stream_completed_output_byte_count_matches_serialized_vector() {
    let mut state = ResponsesStreamState::default();
    for (id, text) in [("one", ""), ("two", "content")] {
        state
            .retain_output(stream_message_item(
                id.to_string(),
                text.to_string(),
                OutputStatus::Completed,
            ))
            .expect("output byte count");
    }

    assert_eq!(
        state.retained_output_bytes + 2,
        render_items(&state.output).to_bytes().len()
    );
}

#[test]
fn stream_adjacent_text_output_byte_count_matches_serialized_vector() {
    let mut state = ResponsesStreamState::default();
    state
        .retain_text_part(&StreamTextBlock {
            index: 0,
            output_index: 0,
            content_index: 0,
            item_id: "message".to_string(),
            text: "one".to_string(),
        })
        .expect("first text part");
    state
        .retain_text_part(&StreamTextBlock {
            index: 1,
            output_index: 0,
            content_index: 1,
            item_id: "message".to_string(),
            text: "two".to_string(),
        })
        .expect("adjacent text part");

    assert_eq!(
        state.retained_output_bytes + 2,
        render_items(&state.output).to_bytes().len()
    );
}

#[test]
fn stream_sequence_overflow_falls_back_to_one_safe_error() {
    let mut state = ResponsesStreamState {
        sequence_number: u64::MAX,
        ..Default::default()
    };
    assert!(state.sequence().is_err());
    let events = state.error_event();
    assert_eq!(events.len(), 1);
    assert_eq!(events[0].name, "error");
}

#[test]
fn retain_response_item_rejects_incrementally_without_the_final_serialization_check() {
    let mut output = Vec::new();
    let mut retained_bytes = 0usize;
    let item = json_of(&j(r#"{"type":"function_call","id":"fc_1","arguments":"{}"}"#));
    let item_bytes = item.to_bytes().len();
    let buffer_limit = item_bytes * 3;

    for _ in 0..3 {
        retain_response_item(&mut output, item.copy(), buffer_limit, &mut retained_bytes)
            .expect("item should fit under the limit");
    }
    assert_eq!(output.len(), 3);
    assert_eq!(retained_bytes, item_bytes * 3);

    let err = retain_response_item(&mut output, item.copy(), buffer_limit, &mut retained_bytes);
    assert!(
        err.is_err(),
        "a 4th item pushing the running total past buffer_limit must be rejected immediately"
    );
    assert_eq!(
        output.len(),
        3,
        "the rejected item must not have been pushed onto output"
    );
    assert_eq!(
        retained_bytes,
        item_bytes * 3,
        "the rejected item must not have been charged against retained_bytes either"
    );
}

fn translated(value: Value) -> Value {
    let (body, _) = translate(&request(value)).expect("request should translate");
    serde_json::from_slice(&body).expect("valid Messages request")
}

fn translation_fails(value: Value) -> bool {
    translate(&request(value)).is_err()
}

fn error_status_map_is_closed_and_provider_data_is_redacted_case(
    status: u16,
    expected_type: &str,
) {
    let markers = [
        "SENSITIVE_REPLAY_CARRIER",
        "SENSITIVE_THINKING_SIGNATURE",
        "SENSITIVE_REDACTED_DATA",
        "SENSITIVE_TOOL_ARGUMENTS",
    ];
    let body = Bytes::from(
        serde_json::to_vec(&obj(vec![
            ("type", val("error")),
            (
                "error",
                obj(vec![
                    ("type", val("invalid_request_error")),
                    ("message", val(&markers.join(" "))),
                ]),
            ),
        ]))
        .expect("valid Anthropic error envelope"),
    );
    let status = http::StatusCode::from_u16(status).expect("valid test status");

    let translated = translate_error(&body, status).expect("error should translate");
    let value: Value =
        serde_json::from_slice(&translated).expect("valid Responses error");

    assert_eq!(
        value,
        obj(vec![
            (
                "error",
                obj(vec![
                    (
                        "message",
                        val(&format!(
                    "Upstream Anthropic request failed with HTTP {}",
                    status.as_u16()
                )),
                    ),
                    ("type", val(&expected_type)),
                    ("param", Value::Null),
                    ("code", Value::Null),
                ]),
            ),
        ])
    );
    let translated = String::from_utf8_lossy(&translated);
    for marker in markers {
        assert!(
            !translated.contains(marker),
            "translated error leaked {marker}"
        );
    }
}

#[test]
fn error_status_map_is_closed_and_provider_data_is_redacted() {
    error_status_map_is_closed_and_provider_data_is_redacted_case(400, "invalid_request_error");
    error_status_map_is_closed_and_provider_data_is_redacted_case(401, "authentication_error");
    error_status_map_is_closed_and_provider_data_is_redacted_case(403, "permission_error");
    error_status_map_is_closed_and_provider_data_is_redacted_case(404, "not_found_error");
    error_status_map_is_closed_and_provider_data_is_redacted_case(409, "conflict_error");
    error_status_map_is_closed_and_provider_data_is_redacted_case(413, "request_too_large");
    error_status_map_is_closed_and_provider_data_is_redacted_case(429, "rate_limit_error");
    error_status_map_is_closed_and_provider_data_is_redacted_case(500, "server_error");
    error_status_map_is_closed_and_provider_data_is_redacted_case(502, "server_error");
}

#[test]
fn error_malformed_json_is_not_reflected() {
    let marker = "SENSITIVE_MALFORMED_JSON";
    let translated = translate_error(
        &Bytes::from(format!(r#"{{"message":"{marker}""#)),
        http::StatusCode::BAD_GATEWAY,
    )
    .expect("malformed provider error should translate");
    let value: Value =
        serde_json::from_slice(&translated).expect("valid Responses error");

    assert_eq!(value["error"]["type"], "server_error");
    assert_eq!(
        value["error"]["message"],
        "Upstream Anthropic request failed with HTTP 502"
    );
    assert!(!String::from_utf8_lossy(&translated).contains(marker));
}

fn tool_declarations() -> Value {
    j(
        r#"[
          {
            "type": "function",
            "name": "weather",
            "description": "Get weather",
            "parameters": {
              "type": "object",
              "properties": {"city":{"type":"string"}},
              "required": ["city"]
            },
            "strict": false
          },
          {
            "type": "namespace",
            "name": "crm",
            "description": "CRM tools",
            "tools": [
              {"type":"function","name":"lookup","parameters":{"type":"object"}},
              {"type":"custom","name":"query","format":{"type":"text"}}
            ]
          },
          {"type":"custom","name":"python","description":"Run Python","format":{"type":"text"}},
          {"type":"local_shell"},
          {"type":"shell","environment":{"type":"local"}},
          {"type":"apply_patch"}
        ]"#,
    )
}

fn buffered_state() -> State {
    let (body, state) = translate(&request(obj(vec![
        ("input", val("work")),
        ("model", val("vendor-sonnet-4-5")),
        ("tools", val(&tool_declarations())),
    ])))
    .expect("state request should translate");
    assert!(!body.is_empty());
    state
}

fn sse_event(name: &str, data: Value) -> String {
    format!("event: {name}\ndata: {data}\n\n")
}

fn stream_message_start() -> String {
    stream_message_start_with_usage(j(r#"{"input_tokens":2,"output_tokens":0}"#))
}

fn stream_message_start_with_usage(usage: Value) -> String {
    sse_event(
        "message_start",
        obj(vec![
            ("type", val("message_start")),
            (
                "message",
                obj(vec![
                    ("id", val("msg_upstream_123")),
                    ("type", val("message")),
                    ("role", val("assistant")),
                    ("content", j(r#"[]"#)),
                    ("model", val("vendor-upstream")),
                    ("stop_reason", Value::Null),
                    ("stop_sequence", Value::Null),
                    ("usage", val(&usage)),
                ]),
            ),
        ]),
    )
}

fn stream_terminal(stop_reason: &str, output_tokens: usize) -> Vec<String> {
    stream_terminal_with(
        stop_reason,
        Value::Null,
        obj(vec![("output_tokens", val(&output_tokens))]),
    )
}

fn stream_terminal_with(
    stop_reason: &str,
    stop_sequence: Value,
    usage: Value,
) -> Vec<String> {
    vec![
        sse_event(
            "message_delta",
            obj(vec![
                ("type", val("message_delta")),
                (
                    "delta",
                    obj(vec![
                        ("stop_reason", val(&stop_reason)),
                        ("stop_sequence", val(&stop_sequence)),
                    ]),
                ),
                ("usage", val(&usage)),
            ]),
        ),
        sse_event("message_stop", j(r#"{"type":"message_stop"}"#)),
    ]
}

#[test]
fn stream_text_fragmented_lifecycle_is_standard_and_contiguous() {
    let frames = vec![
        sse_event(
            "message_start",
            j(
                r#"{
                  "type": "message_start",
                  "message": {
                    "id": "msg_upstream_123",
                    "type": "message",
                    "role": "assistant",
                    "content": [],
                    "model": "vendor-upstream",
                    "stop_reason": null,
                    "stop_sequence": null,
                    "usage": {"input_tokens":2,"output_tokens":0}
                  }
                }"#,
            ),
        ),
        sse_event(
            "content_block_start",
            j(
                r#"{
                  "type": "content_block_start",
                  "index": 0,
                  "content_block": {"type":"text","text":""}
                }"#,
            ),
        ),
        sse_event(
            "content_block_delta",
            j(
                r#"{
                  "type": "content_block_delta",
                  "index": 0,
                  "delta": {"type":"text_delta","text":"hel"}
                }"#,
            ),
        ),
        sse_event(
            "content_block_delta",
            j(
                r#"{
                  "type": "content_block_delta",
                  "index": 0,
                  "delta": {"type":"text_delta","text":"lo"}
                }"#,
            ),
        ),
        sse_event(
            "content_block_stop",
            j(r#"{"type":"content_block_stop","index":0}"#),
        ),
        sse_event(
            "message_delta",
            j(
                r#"{
                  "type": "message_delta",
                  "delta": {"stop_reason":"end_turn","stop_sequence":null},
                  "usage": {"output_tokens":1}
                }"#,
            ),
        ),
        sse_event("message_stop", j(r#"{"type":"message_stop"}"#)),
    ];

    let events = translated_stream(frames, State::default());
    assert_eq!(
        events
            .iter()
            .map(|event| event["type"].as_str().expect("event type"))
            .collect::<Vec<_>>(),
        vec![
            "response.created",
            "response.in_progress",
            "response.output_item.added",
            "response.content_part.added",
            "response.output_text.delta",
            "response.output_text.delta",
            "response.output_text.done",
            "response.content_part.done",
            "response.output_item.done",
            "response.completed",
        ]
    );
    assert_eq!(
        events
            .iter()
            .map(|event| event["sequence_number"].as_u64().expect("sequence number"))
            .collect::<Vec<_>>(),
        (0_u64..10).collect::<Vec<_>>()
    );
    assert_eq!(events[8]["item"], events[9]["response"]["output"][0]);
}

#[test]
fn stream_late_refusal_after_streamed_text_fails_instead_of_rewriting() {
    // Anthropic only reveals a refusal via the terminal stop_reason, but Responses commits to
    // output_text vs refusal typing as soon as content_part.added is sent. Once text has actually
    // streamed to the client, it cannot be retyped, so a late refusal must fail the stream instead
    // of silently relabeling already-emitted content as a refusal.
    let (logger, info, first_token_updates, updates) = test_logger();
    let mut frames = vec![
        stream_message_start(),
        block_start(0, j(r#"{"type":"text","text":""}"#)),
        block_delta(0, j(r#"{"type":"text_delta","text":"cannot"}"#)),
        block_delta(0, j(r#"{"type":"text_delta","text":" comply"}"#)),
        block_stop(0),
    ];
    frames.extend(stream_terminal("refusal", 2));
    let events = translated_stream_with(frames, State::default(), logger, true);
    assert_eq!(
        events
            .iter()
            .map(|event| event["type"].as_str().expect("event type"))
            .collect::<Vec<_>>(),
        vec![
            "response.created",
            "response.in_progress",
            "response.output_item.added",
            "response.content_part.added",
            "response.output_text.delta",
            "response.output_text.delta",
            "response.output_text.done",
            "response.content_part.done",
            "error",
        ]
    );
    assert_eq!(
        events
            .iter()
            .map(|event| event["sequence_number"].as_u64().expect("sequence"))
            .collect::<Vec<_>>(),
        (0..9).collect::<Vec<_>>()
    );
    assert_eq!(events[4]["delta"], "cannot");
    assert_eq!(events[5]["delta"], " comply");
    assert_eq!(events[6]["text"], "cannot comply");
    let error = events.last().expect("error event");
    assert_eq!(error["code"], "refusal_after_streaming");
    assert_eq!(*updates.lock().expect("updates lock"), 1);
    assert_eq!(*first_token_updates.lock().expect("first-token lock"), 1);
    let info = info.lock().expect("test reporter lock");
    assert_eq!(info.response.input_tokens, Some(2));
    assert_eq!(info.response.output_tokens, Some(2));
    assert_eq!(info.response.total_tokens, Some(4));
    assert_eq!(
        info.response.provider_model.as_deref(),
        Some("vendor-upstream")
    );
    assert_eq!(
        info.response.completion,
        Some(vec!["cannot comply".to_string()])
    );
}

#[test]
fn stream_late_refusal_with_only_empty_text_block_still_fails() {
    // Even zero characters of text still commits content_part.added to type "output_text" on
    // the wire, so a late refusal must still fail rather than pretend nothing was typed.
    let mut frames = vec![
        stream_message_start(),
        block_start(0, j(r#"{"type":"text","text":""}"#)),
        block_stop(0),
    ];
    frames.extend(stream_terminal("refusal", 1));
    let events = translated_stream(frames, State::default());
    assert_eq!(events.last().expect("terminal event")["type"], "error");
    assert_eq!(
        events.last().expect("terminal event")["code"],
        "refusal_after_streaming"
    );
}

#[test]
fn stream_drops_thinking_blocks_after_optional_completed_text() {
    let cases = [
        (
            "thinking",
            j(r#"{"type":"thinking","thinking":"","signature":""}"#),
            vec![
                j(r#"{"type":"thinking_delta","thinking":"SECRET_REASONING"}"#),
                j(r#"{"type":"signature_delta","signature":"SECRET_SIGNATURE"}"#),
            ],
        ),
        (
            "redacted",
            j(r#"{"type":"redacted_thinking","data":"opaque"}"#),
            vec![],
        ),
    ];
    for (case, block, deltas) in cases {
        for after_text in [false, true] {
            let mut frames = vec![stream_message_start()];
            if after_text {
                frames.extend([
                    block_start(0, j(r#"{"type":"text","text":""}"#)),
                    block_delta(0, j(r#"{"type":"text_delta","text":"secret"}"#)),
                    block_stop(0),
                ]);
            }
            let block_index = usize::from(after_text);
            frames.push(block_start(block_index, block.clone()));
            for delta in &deltas {
                frames.push(block_delta(block_index, delta.clone()));
            }
            frames.push(block_stop(block_index));
            frames.extend(stream_terminal("end_turn", 0));
            let events = translated_stream(frames, State::default());
            // Adaptive thinking is the default for several models, so the block
            // is absorbed and the stream completes normally instead of erroring.
            let expected_types: Vec<&str> = if after_text {
                vec![
                    "response.created",
                    "response.in_progress",
                    "response.output_item.added",
                    "response.content_part.added",
                    "response.output_text.delta",
                    "response.output_text.done",
                    "response.content_part.done",
                    "response.output_item.done",
                    "response.completed",
                ]
            } else {
                vec![
                    "response.created",
                    "response.in_progress",
                    "response.completed",
                ]
            };
            assert_eq!(
                events
                    .iter()
                    .map(|event| event["type"].as_str().expect("type"))
                    .collect::<Vec<_>>(),
                expected_types,
                "{case} after_text={after_text}: {events:?}"
            );
            assert_eq!(
                events
                    .iter()
                    .map(|event| event["sequence_number"].as_u64().expect("sequence"))
                    .collect::<Vec<_>>(),
                (0..events.len() as u64).collect::<Vec<_>>(),
                "{case} after_text={after_text}"
            );
            let serialized = serde_json::to_string(&events).unwrap();
            // Reasoning content must never reach the client.
            assert!(
                !serialized.contains("SECRET_REASONING"),
                "{case}: {events:?}"
            );
            assert!(
                !serialized.contains("SECRET_SIGNATURE"),
                "{case}: {events:?}"
            );
            assert!(!serialized.contains("opaque"), "{case}: {events:?}");
            if after_text {
                assert!(
                    serialized.contains("secret"),
                    "{case}: text before a dropped thinking block must still stream"
                );
            } else {
                assert!(!serialized.contains("secret"), "{case}: {events:?}");
            }
        }
    }
}

#[test]
fn stream_empty_text_keeps_completed_output_part_snapshot() {
    let mut frames = vec![
        stream_message_start(),
        block_start(0, j(r#"{"type":"text","text":""}"#)),
        block_stop(0),
    ];
    frames.extend(stream_terminal("end_turn", 0));
    let events = translated_stream(frames, State::default());
    let added = events
        .iter()
        .find(|event| event["type"] == "response.output_item.added")
        .expect("added item");
    assert_eq!(added["item"]["content"], j(r#"[]"#));
    let done = events
        .iter()
        .find(|event| event["type"] == "response.output_item.done")
        .expect("done item");
    assert_eq!(
        done["item"]["content"],
        j(r#"[{"type":"output_text","annotations":[],"logprobs":null,"text":""}]"#)
    );
    assert_eq!(
        done["item"],
        events.last().unwrap()["response"]["output"][0]
    );
}

#[test]
fn stream_adjacent_text_blocks_share_one_message_item() {
    let mut frames = vec![
        stream_message_start(),
        block_start(0, j(r#"{"type":"text","text":""}"#)),
        block_delta(0, j(r#"{"type":"text_delta","text":"one"}"#)),
        block_stop(0),
        block_start(1, j(r#"{"type":"text","text":""}"#)),
        block_delta(1, j(r#"{"type":"text_delta","text":"two"}"#)),
        block_stop(1),
    ];
    frames.extend(stream_terminal("end_turn", 2));

    let events = translated_stream(frames, State::default());
    let terminal = events.last().expect("terminal event");
    let output = terminal["response"]["output"].as_array().expect("output");
    assert_eq!(output.len(), 1);
    assert_eq!(
        output[0]["content"],
        j(
            r#"[
              {"type":"output_text","annotations":[],"logprobs":null,"text":"one"},
              {"type":"output_text","annotations":[],"logprobs":null,"text":"two"}
            ]"#,
        )
    );
    assert_eq!(
        events
            .iter()
            .filter(|event| event["type"] == "response.output_item.added")
            .count(),
        1
    );
    assert_eq!(
        events
            .iter()
            .filter(|event| event["type"] == "response.output_item.done")
            .count(),
        1
    );
    assert_eq!(
        events
            .iter()
            .filter(|event| event["type"] == "response.content_part.added")
            .map(|event| event["content_index"].as_u64().expect("content index"))
            .collect::<Vec<_>>(),
        vec![0, 1]
    );
}

#[test]
fn stream_terminal_lifecycles_preserve_closed_item_statuses() {
    let cases = [
        (
            "end_turn",
            Value::Null,
            "response.completed",
            None,
            true,
            false,
        ),
        (
            "tool_use",
            Value::Null,
            "response.completed",
            None,
            false,
            true,
        ),
        (
            "stop_sequence",
            val("STOP"),
            "response.completed",
            None,
            true,
            false,
        ),
        // A refusal without any streamed text (nothing to retype) still completes normally,
        // matching the non-streaming translate_response semantics. Refusal after text has
        // already streamed is covered separately by
        // stream_late_refusal_after_streamed_text_fails_instead_of_rewriting.
        (
            "refusal",
            Value::Null,
            "response.completed",
            None,
            false,
            false,
        ),
        (
            "max_tokens",
            Value::Null,
            "response.incomplete",
            Some("max_output_tokens"),
            true,
            false,
        ),
        (
            "model_context_window_exceeded",
            Value::Null,
            "response.incomplete",
            Some("max_output_tokens"),
            true,
            false,
        ),
    ];
    for (reason, sequence, terminal_type, incomplete, with_text, with_tool) in cases {
        let state = if with_tool {
            buffered_state()
        } else {
            State::default()
        };
        let mut frames = vec![stream_message_start()];
        if with_text {
            frames.extend([
                block_start(0, j(r#"{"type":"text","text":""}"#)),
                block_delta(0, j(r#"{"type":"text_delta","text":"answer"}"#)),
                block_stop(0),
            ]);
        } else if with_tool {
            frames.extend([
                block_start(
                    0,
                    j(r#"{"type":"tool_use","id":"call","name":"weather","input":{}}"#),
                ),
                block_stop(0),
            ]);
        }
        frames.extend(stream_terminal_with(
            reason,
            sequence,
            j(r#"{"output_tokens":1}"#),
        ));
        let events = translated_stream(frames, state);
        let terminal = events.last().expect("terminal event");
        assert_eq!(terminal["type"], terminal_type, "{reason}");
        assert_eq!(
            terminal["response"]["incomplete_details"]["reason"].as_str(),
            incomplete,
            "{reason}"
        );
        if with_text || with_tool {
            let expected_item_status = if terminal_type == "response.incomplete" {
                "incomplete"
            } else {
                "completed"
            };
            assert_eq!(
                terminal["response"]["output"][0]["status"], expected_item_status,
                "{reason}"
            );
        } else {
            assert_eq!(
                terminal["response"]["output"][0]["content"][0],
                j(r#"{"type":"refusal","refusal":""}"#),
                "empty refusal"
            );
        }
    }
}

#[test]
fn stream_empty_refusal_emits_added_before_done() {
    let frames = [
        vec![stream_message_start()],
        stream_terminal_with(
            "refusal",
            Value::Null,
            j(r#"{"output_tokens":1}"#),
        ),
    ]
    .concat();
    let events = translated_stream(frames, State::default());

    let event_types = events
        .iter()
        .map(|event| event["type"].as_str().expect("event type"))
        .collect::<Vec<_>>();
    assert_eq!(
        event_types,
        vec![
            "response.created",
            "response.in_progress",
            "response.output_item.added",
            "response.content_part.added",
            "response.refusal.done",
            "response.content_part.done",
            "response.output_item.done",
            "response.completed",
        ]
    );
    assert_eq!(events[2]["item"]["content"], j(r#"[]"#));
    assert_eq!(events[3]["part"], j(r#"{"type":"refusal","refusal":""}"#));
    assert_eq!(events[4]["refusal"], "");
    assert_eq!(events[5]["part"], j(r#"{"type":"refusal","refusal":""}"#));
}

#[test]
fn stream_pause_turn_emits_one_safe_error() {
    let mut frames = text_stream_prefix();
    frames.push(block_stop(0));
    frames.extend(stream_terminal("pause_turn", 1));
    let events = translated_stream(frames, State::default());
    assert_one_safe_stream_error(&events, "pause turn");
}

fn block_start(index: usize, content_block: Value) -> String {
    sse_event(
        "content_block_start",
        obj(vec![
            ("type", val("content_block_start")),
            ("index", val(&index)),
            ("content_block", val(&content_block)),
        ]),
    )
}

fn block_delta(index: usize, delta: Value) -> String {
    sse_event(
        "content_block_delta",
        obj(vec![
            ("type", val("content_block_delta")),
            ("index", val(&index)),
            ("delta", val(&delta)),
        ]),
    )
}

fn block_stop(index: usize) -> String {
    sse_event(
        "content_block_stop",
        obj(vec![("type", val("content_block_stop")), ("index", val(&index))]),
    )
}

#[test]
fn stream_tools_ping_and_sequential_blocks_use_standard_lifecycles() {
    let state = buffered_state();
    let mut frames = vec![
        stream_message_start(),
        sse_event("ping", j(r#"{"type":"ping"}"#)),
        block_start(
            0,
            j(r#"{"type":"tool_use","id":"call_0","name":"weather","input":{}}"#),
        ),
        block_delta(
            0,
            j(r#"{"type":"input_json_delta","partial_json":"{\"city\":\"Pa"}"#),
        ),
        block_delta(
            0,
            j(r#"{"type":"input_json_delta","partial_json":"ris\"}"}"#),
        ),
        block_stop(0),
        block_start(
            1,
            j(r#"{"type":"tool_use","id":"call_1","name":"weather","input":{}}"#),
        ),
        block_stop(1),
        block_start(
            2,
            j(
                r#"{
                  "type": "tool_use",
                  "id": "call_2",
                  "name": "agentgateway__responses__namespace_function_1",
                  "input": {}
                }"#,
            ),
        ),
        block_delta(
            2,
            j(r#"{"type":"input_json_delta","partial_json":"{\"arguments\":{\"id\":1}}"}"#),
        ),
        block_stop(2),
        block_start(
            3,
            j(
                r#"{
                  "type": "tool_use",
                  "id": "call_3",
                  "name": "agentgateway__responses__custom_3",
                  "input": {}
                }"#,
            ),
        ),
        block_delta(
            3,
            j(r#"{"type":"input_json_delta","partial_json":"{\"input\":\"print(1)\"}"}"#),
        ),
        block_stop(3),
        block_start(
            4,
            j(
                r#"{
                  "type": "tool_use",
                  "id": "call_4",
                  "name": "agentgateway__responses__local_shell_4",
                  "input": {}
                }"#,
            ),
        ),
        block_delta(
            4,
            j(
                r#"{
                  "type": "input_json_delta",
                  "partial_json": "{\"action\":{\"command\":[\"pwd\"],\"env\":{},\"timeout_ms\":1000,\"user\":null,\"working_directory\":\"/tmp\"}}"
                }"#,
            ),
        ),
        block_stop(4),
        block_start(
            5,
            j(
                r#"{
                  "type": "tool_use",
                  "id": "call_5",
                  "name": "agentgateway__responses__shell_5",
                  "input": {}
                }"#,
            ),
        ),
        block_delta(
            5,
            j(
                r#"{
                  "type": "input_json_delta",
                  "partial_json": "{\"action\":{\"commands\":[\"true\"],\"timeout_ms\":1000,\"max_output_length\":1024}}"
                }"#,
            ),
        ),
        block_stop(5),
        block_start(
            6,
            j(
                r#"{
                  "type": "tool_use",
                  "id": "call_6",
                  "name": "agentgateway__responses__apply_patch_6",
                  "input": {}
                }"#,
            ),
        ),
        block_delta(
            6,
            j(
                r#"{
                  "type": "input_json_delta",
                  "partial_json": "{\"operation\":{\"type\":\"update_file\",\"path\":\"src/lib.rs\",\"diff\":\"@@\"}}"
                }"#,
            ),
        ),
        block_stop(6),
    ];
    frames.extend(stream_terminal("tool_use", 7));

    let events = translated_stream(frames, state);
    assert_eq!(
        events.last().and_then(|event| event["type"].as_str()),
        Some("response.completed")
    );
    assert_eq!(
        events.last().expect("terminal")["response"]["output"]
            .as_array()
            .expect("output")
            .len(),
        7
    );

    let per_output = |index: u64| {
        events
            .iter()
            .filter(|event| event["output_index"].as_u64() == Some(index))
            .map(|event| event["type"].as_str().expect("event type"))
            .collect::<Vec<_>>()
    };
    assert_eq!(
        per_output(0),
        vec![
            "response.output_item.added",
            "response.function_call_arguments.delta",
            "response.function_call_arguments.delta",
            "response.function_call_arguments.done",
            "response.output_item.done"
        ]
    );
    assert_eq!(
        per_output(1),
        vec![
            "response.output_item.added",
            "response.function_call_arguments.done",
            "response.output_item.done"
        ]
    );
    assert_eq!(
        per_output(2),
        vec![
            "response.output_item.added",
            "response.function_call_arguments.delta",
            "response.function_call_arguments.done",
            "response.output_item.done"
        ]
    );
    assert_eq!(
        per_output(3),
        vec![
            "response.output_item.added",
            "response.custom_tool_call_input.delta",
            "response.custom_tool_call_input.done",
            "response.output_item.done"
        ]
    );
    for index in 4..=6 {
        assert_eq!(
            per_output(index),
            vec!["response.output_item.added", "response.output_item.done"]
        );
    }
    assert_eq!(
        events.last().expect("terminal")["response"]["output"][0]["arguments"],
        r#"{"city":"Paris"}"#
    );
    assert_eq!(
        events.last().expect("terminal")["response"]["output"][1]["arguments"],
        "{}"
    );
    assert_eq!(
        events.last().expect("terminal")["response"]["output"][2]["namespace"],
        "crm"
    );
    assert_eq!(
        events.last().expect("terminal")["response"]["output"][3]["input"],
        "print(1)"
    );
    let done_items = events
        .iter()
        .filter(|event| event["type"] == "response.output_item.done")
        .map(|event| event["item"].clone())
        .collect::<Vec<_>>();
    assert_eq!(
        events.last().expect("terminal")["response"]["output"],
        val(&done_items)
    );
}

#[test]
fn stream_apply_patch_transitions_from_in_progress_to_completed() {
    let mut frames = vec![
        stream_message_start(),
        block_start(
            0,
            j(
                r#"{
                  "type": "tool_use",
                  "id": "call",
                  "name": "agentgateway__responses__apply_patch_6",
                  "input": {}
                }"#,
            ),
        ),
        block_delta(
            0,
            j(
                r#"{
                  "type": "input_json_delta",
                  "partial_json": "{\"operation\":{\"type\":\"create_file\",\"path\":\"verified.txt\",\"diff\":\"ok\"}}"
                }"#,
            ),
        ),
        block_stop(0),
    ];
    frames.extend(stream_terminal("tool_use", 1));

    let events = translated_stream(frames, buffered_state());
    let added = events
        .iter()
        .find(|event| event["type"] == "response.output_item.added")
        .expect("apply_patch added event");
    let done = events
        .iter()
        .find(|event| event["type"] == "response.output_item.done")
        .expect("apply_patch done event");

    assert_eq!(added["item"]["type"], "apply_patch_call");
    assert_eq!(added["item"]["status"], "in_progress");
    assert_eq!(done["item"]["status"], "completed");
    assert_eq!(
        events.last().expect("terminal")["response"]["output"][0]["status"],
        "completed"
    );
}

#[test]
fn stream_ping_after_message_delta_before_stop_is_accepted() {
    let frames = vec![
        stream_message_start(),
        stream_terminal("end_turn", 1)[0].clone(),
        sse_event("ping", j(r#"{"type":"ping"}"#)),
        sse_event("message_stop", j(r#"{"type":"message_stop"}"#)),
    ];
    let events = translated_stream(frames, State::default());
    assert_eq!(
        events.last().and_then(|event| event["type"].as_str()),
        Some("response.completed")
    );
    assert_eq!(
        events.last().expect("terminal")["response"]["usage"]["input_tokens_details"]["cache_write_tokens"],
        0
    );
    assert!(events.iter().all(|event| event["type"] != "error"));
}

#[test]
fn stream_ping_before_message_start_is_accepted() {
    // Anthropic may send a content-free ping keepalive at any point, including while a request
    // is queued before message_start -- unlike every other event type, it references no
    // established message state, so it must not be treated as an out-of-order error.
    let mut frames = vec![
        sse_event("ping", j(r#"{"type":"ping"}"#)),
        stream_message_start(),
    ];
    frames.extend(stream_terminal("end_turn", 1));
    let events = translated_stream(frames, State::default());
    assert!(events.iter().all(|event| event["type"] != "error"));
    assert_eq!(
        events.last().and_then(|event| event["type"].as_str()),
        Some("response.completed")
    );
}

#[test]
fn stream_namespace_custom_uses_custom_lifecycle_and_restores_identity() {
    let state = buffered_state();
    let mut frames = vec![
        stream_message_start(),
        block_start(
            0,
            j(
                r#"{
                  "type": "tool_use",
                  "id": "call",
                  "name": "agentgateway__responses__namespace_custom_2",
                  "input": {}
                }"#,
            ),
        ),
        block_delta(
            0,
            j(r#"{"type":"input_json_delta","partial_json":"{\"input\":\"select 1\"}"}"#),
        ),
        block_stop(0),
    ];
    frames.extend(stream_terminal("tool_use", 1));
    let events = translated_stream(frames, state);
    assert_eq!(
        events
            .iter()
            .filter(|event| event["output_index"] == 0)
            .map(|event| event["type"].as_str().unwrap())
            .collect::<Vec<_>>(),
        vec![
            "response.output_item.added",
            "response.custom_tool_call_input.delta",
            "response.custom_tool_call_input.done",
            "response.output_item.done"
        ]
    );
    let item = &events.last().unwrap()["response"]["output"][0];
    assert_eq!(item["namespace"], "crm");
    assert_eq!(item["name"], "query");
    assert_eq!(item["input"], "select 1");
    let done = events
        .iter()
        .find(|event| event["type"] == "response.output_item.done")
        .expect("done item");
    assert_eq!(done["item"], *item);
}

#[test]
fn stream_wrapped_tool_restored_delta_is_emitted_once_before_done() {
    for (name, partial, delta_type) in [
        (
            "agentgateway__responses__namespace_function_1",
            "{\"arguments\":{\"id\":1}}",
            "response.function_call_arguments.delta",
        ),
        (
            "agentgateway__responses__custom_3",
            "{\"input\":\"print(1)\"}",
            "response.custom_tool_call_input.delta",
        ),
    ] {
        let mut frames = vec![
            stream_message_start(),
            block_start(
                0,
                obj(vec![
                    ("type", val("tool_use")),
                    ("id", val("call")),
                    ("name", val(&name)),
                    ("input", j(r#"{}"#)),
                ]),
            ),
            block_delta(0, obj(vec![
                ("type", val("input_json_delta")),
                ("partial_json", val(&partial)),
            ])),
            block_delta(0, j(r#"{"type":"input_json_delta","partial_json":" \n"}"#)),
            block_stop(0),
        ];
        frames.extend(stream_terminal("tool_use", 1));
        let events = translated_stream(frames, buffered_state());
        assert_eq!(
            events
                .iter()
                .filter(|event| event["type"] == delta_type)
                .count(),
            1,
            "{name}: {events:?}"
        );
    }
}

#[test]
fn stream_first_visible_token_and_completion_telemetry_update_once() {
    let (logger, info, updates, calls) = test_logger();
    let mut frames = vec![
        stream_message_start(),
        block_start(0, j(r#"{"type":"text","text":""}"#)),
        block_delta(0, j(r#"{"type":"text_delta","text":"a"}"#)),
        block_delta(0, j(r#"{"type":"text_delta","text":"b"}"#)),
        block_stop(0),
    ];
    frames.extend(stream_terminal("end_turn", 2));
    let _ = translated_stream_with(frames, State::default(), logger, true);

    assert_eq!(*updates.lock().expect("counter lock"), 1);
    assert_eq!(*calls.lock().expect("updates lock"), 1);
    assert_eq!(
        info.lock().expect("test reporter lock").response.completion,
        Some(vec!["ab".to_string()])
    );
}

#[test]
fn stream_usage_cache_arithmetic_tiers_and_private_telemetry_are_exact() {
    for (tier, public) in [
        (None, None),
        (Some("standard"), Some("default")),
        (Some("priority"), Some("priority")),
    ] {
        let mut usage = j(
            r#"{
              "input_tokens": 8,
              "output_tokens": 0,
              "cache_read_input_tokens": 2,
              "cache_creation_input_tokens": 1
            }"#,
        );
        if let Some(tier) = tier {
            usage["service_tier"] = val(&tier);
        }
        let (logger, info, _, updates) = test_logger();
        let mut frames = vec![stream_message_start_with_usage(usage)];
        frames.extend(stream_terminal_with(
            "end_turn",
            Value::Null,
            j(
                r#"{
                  "input_tokens": 10,
                  "output_tokens": 5,
                  "cache_read_input_tokens": 4,
                  "cache_creation_input_tokens": 1
                }"#,
            ),
        ));
        let events = translated_stream_with(frames, State::default(), logger, false);
        for snapshot in [
            &events[0]["response"],
            &events[1]["response"],
            &events.last().unwrap()["response"],
        ] {
            assert_eq!(snapshot["service_tier"].as_str(), public, "tier {tier:?}");
        }
        let terminal = &events.last().unwrap()["response"];
        assert_eq!(terminal["usage"]["input_tokens"], 15);
        assert_eq!(
            terminal["usage"]["input_tokens_details"]["cached_tokens"],
            4
        );
        assert_eq!(
            terminal["usage"]["output_tokens_details"]["reasoning_tokens"],
            0
        );
        assert_eq!(terminal["usage"]["total_tokens"], 20);
        assert!(
            !terminal["usage"]
                .as_object()
                .unwrap()
                .contains_key("cache_creation_input_tokens")
        );
        assert!(
            !terminal
                .as_object()
                .unwrap()
                .contains_key("cache_creation_input_tokens")
        );
        assert_eq!(*updates.lock().unwrap(), 1);
        let info = info.lock().unwrap();
        assert_eq!(info.response.input_tokens, Some(10));
        assert_eq!(info.response.output_tokens, Some(5));
        assert_eq!(info.response.total_tokens, Some(15));
        assert_eq!(info.response.cached_input_tokens, Some(4));
        assert_eq!(info.response.cache_creation_input_tokens, Some(1));
        assert_eq!(
            info.response.provider_model.as_deref(),
            Some("vendor-upstream")
        );
        assert_eq!(info.response.service_tier.as_deref(), tier);
    }

    let (logger, info, _, updates) = test_logger();
    let events = translated_stream_with(
        vec![stream_message_start_with_usage(
            j(r#"{"input_tokens":1,"output_tokens":0,"service_tier":"secret-unknown"}"#),
        )],
        State::default(),
        logger,
        false,
    );
    assert_eq!(
        events
            .iter()
            .map(|event| event["type"].as_str().unwrap())
            .collect::<Vec<_>>(),
        vec!["error"]
    );
    assert!(
        !serde_json::to_string(&events)
            .unwrap()
            .contains("secret-unknown")
    );
    assert_eq!(*updates.lock().unwrap(), 0);
    assert!(info.lock().unwrap().response.service_tier.is_none());
}

#[test]
fn stream_thinking_tokens_use_terminal_value_and_initial_fallback() {
    for (terminal_details, expected) in [(j(r#"{"thinking_tokens":5}"#), 5), (j(r#"{}"#), 2)] {
        let (logger, info, _, updates) = test_logger();
        let mut frames = vec![stream_message_start_with_usage(j(
            r#"{"input_tokens":2,"output_tokens":2,"output_tokens_details":{"thinking_tokens":2}}"#,
        ))];
        frames.extend(stream_terminal_with(
            "end_turn",
            Value::Null,
            obj(vec![
                ("output_tokens", j(r#"5"#)),
                ("output_tokens_details", val(&terminal_details)),
            ]),
        ));
        let events = translated_stream_with(frames, State::default(), logger, false);
        assert_eq!(
            events.last().unwrap()["response"]["usage"]["output_tokens_details"]["reasoning_tokens"],
            expected
        );
        assert_eq!(
            info.lock().unwrap().response.reasoning_tokens,
            Some(expected)
        );
        assert_eq!(*updates.lock().unwrap(), 1);
    }
}

#[test]
fn stream_rejects_invalid_thinking_token_details() {
    let cases = [
        (
            "regression",
            j(r#"{"thinking_tokens":2}"#),
            j(r#"{"thinking_tokens":1}"#),
            2,
        ),
        (
            "greater_than_output",
            j(r#"{}"#),
            j(r#"{"thinking_tokens":6}"#),
            5,
        ),
        (
            "unknown",
            j(r#"{}"#),
            j(r#"{"thinking_tokens":1,"future":1}"#),
            5,
        ),
    ];
    for (case, initial_details, terminal_details, output_tokens) in cases {
        let (logger, info, _, updates) = test_logger();
        let mut frames = vec![stream_message_start_with_usage(obj(vec![
            ("input_tokens", j(r#"2"#)),
            ("output_tokens", j(r#"2"#)),
            ("output_tokens_details", val(&initial_details)),
        ]))];
        frames.extend(stream_terminal_with(
            "end_turn",
            Value::Null,
            obj(vec![
                ("output_tokens", val(&output_tokens)),
                ("output_tokens_details", val(&terminal_details)),
            ]),
        ));
        let events = translated_stream_with(frames, State::default(), logger, false);
        assert_one_safe_stream_error(&events, case);
        assert_eq!(*updates.lock().unwrap(), 0);
        assert!(info.lock().unwrap().response.reasoning_tokens.is_none());
    }
}

#[test]
fn stream_usage_overflows_emit_one_contiguous_safe_error() {
    let cases = [
        obj(vec![
            ("input_tokens", val(&(usize::MAX))),
            ("output_tokens", j(r#"0"#)),
            ("cache_read_input_tokens", j(r#"1"#)),
        ]),
        obj(vec![
            ("input_tokens", val(&(usize::MAX))),
            ("output_tokens", j(r#"0"#)),
            ("cache_creation_input_tokens", j(r#"1"#)),
        ]),
        obj(vec![("input_tokens", val(&(u64::from(u32::MAX)+1))), ("output_tokens", j(r#"0"#))]),
        obj(vec![("input_tokens", j(r#"0"#)), ("output_tokens", val(&(u64::from(u32::MAX)+1)))]),
        obj(vec![("input_tokens", val(&(u32::MAX))), ("output_tokens", j(r#"1"#))]),
        obj(vec![
            ("input_tokens", j(r#"0"#)),
            ("output_tokens", j(r#"0"#)),
            ("cache_read_input_tokens", val(&(u64::from(u32::MAX)+1))),
        ]),
        obj(vec![
            ("input_tokens", j(r#"0"#)),
            ("output_tokens", j(r#"0"#)),
            ("cache_creation_input_tokens", val(&(u64::from(u32::MAX)+1))),
        ]),
    ];
    for usage in cases {
        let mut frames = vec![stream_message_start()];
        frames.extend(stream_terminal_with(
            "end_turn",
            Value::Null,
            usage,
        ));
        let events = translated_stream(frames, State::default());
        assert_one_safe_stream_error(&events, "usage overflow");
        assert_eq!(
            events
                .iter()
                .map(|event| event["sequence_number"].as_u64().unwrap())
                .collect::<Vec<_>>(),
            (0..events.len() as u64).collect::<Vec<_>>()
        );
    }
}

#[test]
fn stream_first_token_covers_text_and_tool_arguments_but_never_failures() {
    for kind in ["text", "tool"] {
        let (logger, info, first, updates) = test_logger();
        let state = if kind == "tool" {
            buffered_state()
        } else {
            State::default()
        };
        let mut frames = vec![stream_message_start()];
        match kind {
            "text" => frames.extend([
                block_start(0, j(r#"{"type":"text","text":""}"#)),
                block_delta(0, j(r#"{"type":"text_delta","text":"x"}"#)),
                block_stop(0),
            ]),
            "tool" => frames.extend([
                block_start(
                    0,
                    j(r#"{"type":"tool_use","id":"call","name":"weather","input":{}}"#),
                ),
                block_delta(0, j(r#"{"type":"input_json_delta","partial_json":"{}"}"#)),
                block_stop(0),
            ]),
            _ => unreachable!(),
        }
        frames.extend(stream_terminal(
            if kind == "tool" {
                "tool_use"
            } else {
                "end_turn"
            },
            1,
        ));
        let _ = translated_stream_with(frames, state, logger, false);
        assert_eq!(*first.lock().unwrap(), 1, "{kind}");
        assert_eq!(*updates.lock().unwrap(), 1, "{kind}");
        assert!(
            info.lock().unwrap().response.completion.is_none(),
            "disabled completion"
        );
    }

    let (logger, info, first, updates) = test_logger();
    let _ = translated_stream_with(
        vec![
            stream_message_start(),
            block_start(0, j(r#"{"type":"text","text":""}"#)),
            block_delta(0, j(r#"{"type":"text_delta","text":"x"}"#)),
        ],
        State::default(),
        logger,
        true,
    );
    assert_eq!(*first.lock().unwrap(), 0);
    assert_eq!(*updates.lock().unwrap(), 0);
    assert!(info.lock().unwrap().response.completion.is_none());
}

#[test]
fn stream_buffered_tool_items_set_first_token_when_they_become_visible() {
    for (kind, name, input) in [
        (
            "local_shell",
            "agentgateway__responses__local_shell_4",
            "{\"action\":{\"command\":[\"pwd\"],\"env\":{},\"timeout_ms\":1000,\"user\":null,\"working_directory\":\"/tmp\"}}",
        ),
        (
            "shell",
            "agentgateway__responses__shell_5",
            "{\"action\":{\"commands\":[\"true\"],\"timeout_ms\":1000,\"max_output_length\":1024}}",
        ),
        (
            "apply_patch",
            "agentgateway__responses__apply_patch_6",
            "{\"operation\":{\"type\":\"update_file\",\"path\":\"src/lib.rs\",\"diff\":\"@@\"}}",
        ),
    ] {
        let (logger, _, first, updates) = test_logger();
        let mut frames = vec![
            stream_message_start(),
            block_start(
                0,
                obj(vec![
                    ("type", val("tool_use")),
                    ("id", val("call")),
                    ("name", val(&name)),
                    ("input", j(r#"{}"#)),
                ]),
            ),
            block_delta(0, obj(vec![
                ("type", val("input_json_delta")),
                ("partial_json", val(&input)),
            ])),
            block_stop(0),
        ];
        frames.extend(stream_terminal("tool_use", 1));
        let _ = translated_stream_with(frames, buffered_state(), logger, false);
        assert_eq!(*first.lock().unwrap(), 1, "{kind}");
        assert_eq!(*updates.lock().unwrap(), 1, "{kind}");
    }
}

fn text_stream_prefix() -> Vec<String> {
    vec![
        stream_message_start(),
        block_start(0, j(r#"{"type":"text","text":""}"#)),
        block_delta(0, j(r#"{"type":"text_delta","text":"ok"}"#)),
    ]
}

fn assert_one_safe_stream_error(events: &[Value], case: &str) {
    assert_eq!(
        events
            .iter()
            .filter(|event| event["type"] == "error")
            .count(),
        1,
        "{case}: {events:?}"
    );
    assert!(
        events.iter().all(|event| !matches!(
            event["type"].as_str(),
            Some("response.completed" | "response.incomplete" | "response.failed")
        )),
        "{case}: {events:?}"
    );
    let serialized = serde_json::to_string(events).expect("events serialize");
    for marker in [
        "signature-secret",
        "redacted-secret",
        "complete-tool-arguments",
    ] {
        assert!(!serialized.contains(marker), "{case} leaked {marker}");
    }
}

#[test]
fn stream_invalid_pre_terminal_sequences_emit_one_safe_error() {
    let start = stream_message_start();
    let cases = vec![
        (
            "malformed_json",
            vec!["event: message_start\ndata: {bad}\n\n".to_string()],
        ),
        (
            "event_name_mismatch",
            vec![sse_event(
                "ping",
                j(r#"{"type":"message_start","message":{}}"#),
            )],
        ),
        (
            "wrong_index",
            vec![
                start.clone(),
                block_start(1, j(r#"{"type":"text","text":""}"#)),
            ],
        ),
        (
            "overlap",
            vec![
                start.clone(),
                block_start(0, j(r#"{"type":"text","text":""}"#)),
                block_start(1, j(r#"{"type":"text","text":""}"#)),
            ],
        ),
        (
            "delta_before_start",
            vec![
                start.clone(),
                block_delta(0, j(r#"{"type":"text_delta","text":"bad"}"#)),
            ],
        ),
        ("missing_signature", {
            let mut frames = vec![
                start.clone(),
                block_start(0, j(r#"{"type":"thinking","thinking":"","signature":""}"#)),
                block_delta(0, j(r#"{"type":"thinking_delta","thinking":"plan"}"#)),
                block_stop(0),
            ];
            frames.extend(stream_terminal("end_turn", 1));
            frames
        }),
        ("text_after_signature", {
            let mut frames = vec![
                start.clone(),
                block_start(0, j(r#"{"type":"thinking","thinking":"","signature":""}"#)),
                block_delta(
                    0,
                    j(r#"{"type":"signature_delta","signature":"signature-secret"}"#),
                ),
                block_delta(0, j(r#"{"type":"thinking_delta","thinking":"bad"}"#)),
                block_stop(0),
            ];
            frames.extend(stream_terminal("end_turn", 1));
            frames
        }),
        ("empty_signature", {
            let mut frames = vec![
                start.clone(),
                block_start(0, j(r#"{"type":"thinking","thinking":"","signature":""}"#)),
                block_delta(0, j(r#"{"type":"signature_delta","signature":""}"#)),
                block_stop(0),
            ];
            frames.extend(stream_terminal("end_turn", 1));
            frames
        }),
        ("duplicate_signature", {
            let mut frames = vec![
                start.clone(),
                block_start(0, j(r#"{"type":"thinking","thinking":"","signature":""}"#)),
                block_delta(0, j(r#"{"type":"signature_delta","signature":"first"}"#)),
                block_delta(0, j(r#"{"type":"signature_delta","signature":"second"}"#)),
                block_stop(0),
            ];
            frames.extend(stream_terminal("end_turn", 1));
            frames
        }),
        ("redacted_delta", {
            let mut frames = vec![
                start.clone(),
                block_start(
                    0,
                    j(r#"{"type":"redacted_thinking","data":"redacted-secret"}"#),
                ),
                block_delta(0, j(r#"{"type":"thinking_delta","thinking":"bad"}"#)),
                block_stop(0),
            ];
            frames.extend(stream_terminal("end_turn", 1));
            frames
        }),
        (
            "message_delta_before_block_close",
            vec![
                start.clone(),
                block_start(0, j(r#"{"type":"text","text":""}"#)),
                stream_terminal("end_turn", 1)[0].clone(),
            ],
        ),
        (
            "message_stop_before_delta",
            vec![
                start.clone(),
                sse_event("message_stop", j(r#"{"type":"message_stop"}"#)),
            ],
        ),
        (
            "absent_stop_reason",
            vec![
                start.clone(),
                sse_event(
                    "message_delta",
                    j(
                        r#"{
                          "type": "message_delta",
                          "delta": {"stop_reason":null,"stop_sequence":null},
                          "usage": {"output_tokens":1}
                        }"#,
                    ),
                ),
            ],
        ),
        (
            "inconsistent_stop_sequence",
            vec![
                start.clone(),
                sse_event(
                    "message_delta",
                    j(
                        r#"{
                          "type": "message_delta",
                          "delta": {"stop_reason":"stop_sequence","stop_sequence":null},
                          "usage": {"output_tokens":1}
                        }"#,
                    ),
                ),
                sse_event("message_stop", j(r#"{"type":"message_stop"}"#)),
            ],
        ),
        (
            "upstream_done",
            vec![start.clone(), "data: [DONE]\n\n".to_string()],
        ),
        ("early_eof", vec![start.clone()]),
        (
            "in_band_error",
            vec![
                start,
                sse_event(
                    "error",
                    j(
                        r#"{
                          "type": "error",
                          "error": {"type":"api_error","message":"complete-tool-arguments"}
                        }"#,
                    ),
                ),
            ],
        ),
    ];

    for (case, frames) in cases {
        let events = translated_stream(frames, State::default());
        assert_one_safe_stream_error(&events, case);
    }
}

#[test]
fn stream_duplicate_delta_content_after_delta_and_open_terminal_are_invalid() {
    let mut duplicate = text_stream_prefix();
    duplicate.push(block_stop(0));
    duplicate.push(stream_terminal("end_turn", 1)[0].clone());
    duplicate.push(stream_terminal("end_turn", 1)[0].clone());

    let mut content_after = text_stream_prefix();
    content_after.push(block_stop(0));
    content_after.push(stream_terminal("end_turn", 1)[0].clone());
    content_after.push(block_start(1, j(r#"{"type":"text","text":""}"#)));

    let mut open_terminal = text_stream_prefix();
    open_terminal.push(stream_terminal("end_turn", 1)[0].clone());

    for (case, frames) in [
        ("duplicate_message_delta", duplicate),
        ("content_after_message_delta", content_after),
        ("open_block_at_terminal", open_terminal),
    ] {
        let events = translated_stream(frames, State::default());
        assert_one_safe_stream_error(&events, case);
    }
}

#[test]
fn stream_eof_after_partial_content_emits_completed_parts_then_one_error() {
    let open = text_stream_prefix();
    let mut closed = text_stream_prefix();
    closed.push(block_stop(0));
    let mut closed_then_open = closed.clone();
    closed_then_open.extend([
        block_start(1, j(r#"{"type":"text","text":""}"#)),
        block_delta(1, j(r#"{"type":"text_delta","text":"invalid-open"}"#)),
    ]);
    // A block that closed cleanly before the EOF already streamed its done events; only a block
    // still open when the stream cuts out is missing them.
    for (case, frames, expected_output_text_done) in [
        ("open", open, 0),
        ("closed", closed, 1),
        ("closed_then_open", closed_then_open, 1),
    ] {
        let events = translated_stream(frames, State::default());
        assert_one_safe_stream_error(&events, case);
        assert_eq!(
            events
                .iter()
                .filter(|event| event["type"] == "response.output_item.done")
                .count(),
            0,
            "{case}"
        );
        assert_eq!(
            events
                .iter()
                .filter(|event| event["type"] == "response.output_text.done")
                .count(),
            expected_output_text_done,
            "{case}"
        );
        assert_eq!(
            events
                .iter()
                .map(|event| event["sequence_number"].as_u64().unwrap())
                .collect::<Vec<_>>(),
            (0..events.len() as u64).collect::<Vec<_>>(),
            "{case}: sequence numbers must stay contiguous across a mid-stream EOF"
        );
    }
}

#[test]
fn stream_malformed_final_tools_sequences_and_usage_regressions_are_invalid() {
    let state = buffered_state();
    for (case, partial) in [("malformed", "{\"x\":"), ("non_object", "[]")] {
        let frames = vec![
            stream_message_start(),
            block_start(
                0,
                j(r#"{"type":"tool_use","id":"call","name":"weather","input":{}}"#),
            ),
            block_delta(0, obj(vec![
                ("type", val("input_json_delta")),
                ("partial_json", val(&partial)),
            ])),
            block_stop(0),
        ];
        let events = translated_stream(frames, &state);
        assert_one_safe_stream_error(&events, case);
        assert_eq!(
            events
                .iter()
                .filter(|event| event["type"] == "response.output_item.done")
                .count(),
            0
        );
    }

    for (case, reason, sequence) in [
        ("empty_stop_sequence", "stop_sequence", val("")),
        ("inverse_stop_sequence", "end_turn", val("STOP")),
    ] {
        let mut frames = vec![stream_message_start()];
        frames.extend(stream_terminal_with(
            reason,
            sequence,
            j(r#"{"output_tokens":1}"#),
        ));
        assert_one_safe_stream_error(&translated_stream(frames, State::default()), case);
    }

    for (field, initial, terminal) in [
        ("output_tokens", 2, 1),
        ("cache_read_input_tokens", 2, 1),
        ("cache_creation_input_tokens", 2, 1),
    ] {
        let mut start_usage = j(r#"{"input_tokens":2,"output_tokens":0}"#);
        start_usage[field] = val(&initial);
        let mut terminal_usage = j(r#"{"output_tokens":2}"#);
        terminal_usage[field] = val(&terminal);
        let mut frames = vec![stream_message_start_with_usage(start_usage)];
        frames.extend(stream_terminal_with(
            "end_turn",
            Value::Null,
            terminal_usage,
        ));
        assert_one_safe_stream_error(&translated_stream(frames, State::default()), field);
    }
}

#[test]
fn stream_regressing_cumulative_usage_is_invalid() {
    let frames = vec![
        stream_message_start(),
        sse_event(
            "message_delta",
            j(
                r#"{
                  "type": "message_delta",
                  "delta": {"stop_reason":"end_turn","stop_sequence":null},
                  "usage": {"input_tokens":1,"output_tokens":0}
                }"#,
            ),
        ),
        sse_event("message_stop", j(r#"{"type":"message_stop"}"#)),
    ];
    let events = translated_stream(frames, State::default());
    assert_one_safe_stream_error(&events, "regressing_cumulative_usage");
}

#[test]
fn stream_duplicate_tool_ids_and_inconsistent_tool_stop_are_invalid() {
    let state = buffered_state();
    let duplicate = vec![
        stream_message_start(),
        block_start(
            0,
            j(r#"{"type":"tool_use","id":"same","name":"weather","input":{}}"#),
        ),
        block_stop(0),
        block_start(
            1,
            j(r#"{"type":"tool_use","id":"same","name":"weather","input":{}}"#),
        ),
    ];
    let mut no_tool = vec![stream_message_start()];
    no_tool.extend(stream_terminal("tool_use", 1));
    let mut tool_end_turn = vec![
        stream_message_start(),
        block_start(
            0,
            j(r#"{"type":"tool_use","id":"call","name":"weather","input":{}}"#),
        ),
        block_stop(0),
    ];
    tool_end_turn.extend(stream_terminal("end_turn", 1));

    for (case, frames) in [
        ("duplicate_tool_id", duplicate),
        ("tool_use_without_tool", no_tool),
        ("tool_with_end_turn", tool_end_turn),
    ] {
        let events = translated_stream(frames, &state);
        assert_one_safe_stream_error(&events, case);
    }
}

#[test]
fn stream_after_verified_terminal_is_silent_for_data_error_and_duplicate_terminal() {
    let mut frames = text_stream_prefix();
    frames.push(block_stop(0));
    frames.extend(stream_terminal("end_turn", 1));
    frames.extend([
        sse_event("ping", j(r#"{"type":"ping"}"#)),
        sse_event(
            "error",
            j(r#"{"type":"error","error":{"message":"signature-secret"}}"#),
        ),
        sse_event("message_stop", j(r#"{"type":"message_stop"}"#)),
    ]);
    let (logger, _, _, updates) = test_logger();
    let events = translated_stream_with(frames, State::default(), logger, false);
    assert_eq!(
        events
            .iter()
            .filter(|event| event["type"] == "response.completed")
            .count(),
        1
    );
    assert_eq!(
        events
            .iter()
            .filter(|event| event["type"] == "error")
            .count(),
        0
    );
    assert_eq!(*updates.lock().unwrap(), 1);
}

#[test]
fn stream_many_empty_completed_blocks_count_toward_retained_limit() {
    let mut frames = vec![stream_message_start()];
    for index in 0..12 {
        frames.push(block_start(index, j(r#"{"type":"text","text":""}"#)));
        frames.push(block_stop(index));
    }
    frames.extend(stream_terminal("end_turn", 1));
    let events = translated_body(frames.concat(), 512);
    assert_one_safe_stream_error(&events, "many empty completed blocks");
}

#[test]
fn stream_terminal_phase_counts_toward_retained_limit() {
    let mut frames = text_stream_prefix();
    frames.push(block_stop(0));
    frames.extend(stream_terminal("end_turn", 1));
    let events = translated_body(frames.concat(), 258);

    assert!(
        events
            .iter()
            .any(|event| event["type"] == "response.output_text.done")
    );
    assert_one_safe_stream_error(&events, "terminal phase exceeds retained limit");
}

#[test]
fn stream_discarded_retained_limit_batch_keeps_emitted_sequences_contiguous() {
    let frame = sse_event(
        "message_start",
        obj(vec![
            ("type", val("message_start")),
            (
                "message",
                obj(vec![
                    ("id", val(&"m".repeat(240))),
                    ("type", val("message")),
                    ("role", val("assistant")),
                    ("content", j(r#"[]"#)),
                    ("model", val("vendor-upstream")),
                    ("stop_reason", Value::Null),
                    ("stop_sequence", Value::Null),
                    ("usage", j(r#"{"input_tokens":2,"output_tokens":0}"#)),
                ]),
            ),
        ]),
    );
    assert!(frame.len() < 512, "fixture must pass the decoder limit");
    let events = translated_body(frame, 512);
    assert_eq!(
        events
            .iter()
            .map(|event| event["sequence_number"].as_u64().unwrap())
            .collect::<Vec<_>>(),
        (0..events.len() as u64).collect::<Vec<_>>()
    );
}

fn buffered_body(
    content: Value,
    stop_reason: &str,
    stop_sequence: Value,
    usage: Value,
) -> Value {
    obj(vec![
        ("id", val("msg_upstream_123")),
        ("type", val("message")),
        ("role", val("assistant")),
        ("content", val(&content)),
        ("model", val("vendor-upstream-model")),
        ("stop_reason", val(&stop_reason)),
        ("stop_sequence", val(&stop_sequence)),
        ("usage", val(&usage)),
    ])
}

fn buffered_usage() -> Value {
    j(
        r#"{
          "input_tokens": 10,
          "output_tokens": 5,
          "cache_creation_input_tokens": 1,
          "cache_read_input_tokens": 4,
          "service_tier": "standard"
        }"#,
    )
}

fn buffered_value(body: Value, state: &State) -> Value {
    let translated = buffered_translate(body, state);
    serde_json::from_slice(&translated.serialize())
        .expect("serialized Responses response")
}

#[test]
fn buffered_response_visits_output_text() {
    let body = buffered_body(
        j(r#"[{"type":"text","text":"sensitive"}]"#),
        "end_turn",
        Value::Null,
        buffered_usage(),
    );
    let mut translated = buffered_translate(body, &buffered_state());

    translated.visit_text_mut(|_: &str| "masked".to_owned());

    let value: Value =
        serde_json::from_slice(&translated.serialize())
            .expect("serialized Responses response");
    assert_eq!(value["output"][0]["content"][0]["text"], "masked");
}

#[test]
fn buffered_response_output_is_bounded_by_buffer_limit() {
    // A malicious/compromised upstream can pair a long message id with a handful of minimal
    // tool_use blocks to try to amplify a small response body into a much larger translated
    // output: each translated `function_call` item embeds its own full copy of `message_id`
    // (see response_tool_output's `"id": format!("fc_{message_id}_{index}")`), so a message id
    // that appears once in the input is duplicated once per tool_use block in the output. The
    // non-streaming path must charge each generated item against buffer_limit the same way the
    // streaming path already does via ensure_retained_limit, instead of allocating unbounded
    // output. The chosen limit sits strictly between the input's own size and the amplified
    // output's size, so this specifically exercises the amplification guard rather than merely
    // rejecting an already-oversized input.
    let state = buffered_state();
    let content: Vec<Value> = (0..5)
        .map(|index| {
            obj(vec![
                ("type", val("tool_use")),
                ("id", val(&format!("call_{index}"))),
                ("name", val("weather")),
                ("input", j(r#"{}"#)),
            ])
        })
        .collect();
    let mut body = buffered_body(
        val(&content),
        "tool_use",
        Value::Null,
        j(r#"{"input_tokens":1,"output_tokens":1}"#),
    );
    body["id"] = val(&"x".repeat(1000));
    let bytes = Bytes::from(serde_json::to_vec(&body).expect("fixture should encode"));
    assert!(
        bytes.len() < 2048,
        "fixture input itself must stay well under the tested limit, or this only proves an \
         oversized-input rejection rather than genuine output amplification (input was {} bytes)",
        bytes.len()
    );

    assert!(
        translate_response(&bytes, "vendor-sonnet-4", &state, 2048).is_err(),
        "response output amplified far beyond the input size must be rejected"
    );
    assert!(
        translate_response(&bytes, "vendor-sonnet-4", &state, 1024 * 1024).is_ok(),
        "the same response must still translate under a generous limit"
    );
}

#[test]
fn buffered_response_output_budget_accounts_for_final_serialization() {
    // The per-item size check runs on the compact Value this module builds, but the
    // final response is round-tripped through the vendored async-openai LocalShellExecAction
    // struct, whose timeout_ms/user/working_directory fields have no skip_serializing_if -- an
    // absent optional field becomes an explicit `null` on the way back out, so the final
    // serialized bytes can be larger than what the per-item check measured.
    let state = buffered_state();
    let body = buffered_body(
        j(
            r#"[
              {
                "type": "tool_use",
                "id": "call_4",
                "name": "agentgateway__responses__local_shell_4",
                "input": {"action":{"command":["pwd"],"env":{}}}
              }
            ]"#,
        ),
        "tool_use",
        Value::Null,
        j(r#"{"input_tokens":1,"output_tokens":1}"#),
    );
    let bytes = Bytes::from(serde_json::to_vec(&body).expect("fixture should encode"));

    let translated = translate_response(&bytes, "vendor-sonnet-4", &state, 1024 * 1024)
        .expect("should translate under a generous limit");
    let final_len = translated.serialize().len();

    assert!(
        translate_response(&bytes, "vendor-sonnet-4", &state, final_len - 1).is_err(),
        "a limit just below the actual final serialized size must still be rejected"
    );
}

#[test]
fn buffered_response_ignores_copilot_extensions() {
    let mut body = buffered_body(
        j(r#"[{"type":"text","text":"ok"}]"#),
        "end_turn",
        Value::Null,
        buffered_usage(),
    );
    body["copilot_usage"] = j(r#"{"token_details":[]}"#);
    body["stop_details"] = j(r#"{"type":"end_turn"}"#);
    body["usage"]["cache_creation"] = j(r#"{"ephemeral_5m_input_tokens":0}"#);
    body["usage"]["inference_geo"] = val("us");

    let value = buffered_value(body, &buffered_state());

    assert!(value.get("copilot_usage").is_none());
    assert!(value.get("stop_details").is_none());
    assert_eq!(value["output"][0]["content"][0]["text"], "ok");
}

#[test]
fn buffered_response_ignores_copilot_tool_caller() {
    let body = buffered_body(
        j(
            r#"[
              {
                "type": "tool_use",
                "id": "call_0",
                "name": "weather",
                "input": {"city":"Seattle"},
                "caller": {"type":"direct"}
              }
            ]"#,
        ),
        "tool_use",
        Value::Null,
        buffered_usage(),
    );

    let value = buffered_value(body, &buffered_state());

    assert_eq!(value["output"][0]["type"], "function_call");
    assert!(value["output"][0].get("caller").is_none());
}

#[test]
fn buffered_response_rejects_non_direct_tool_callers() {
    for caller in [
        Value::Null,
        j(r#"{}"#),
        j(r#"{"type":"server"}"#),
        j(r#"{"type":"direct","future":true}"#),
        val("direct"),
    ] {
        let body = buffered_body(
            arr(vec![
                obj(vec![
                    ("type", val("tool_use")),
                    ("id", val("call_0")),
                    ("name", val("weather")),
                    ("input", j(r#"{}"#)),
                    ("caller", val(&caller)),
                ]),
            ]),
            "tool_use",
            Value::Null,
            buffered_usage(),
        );
        let bytes = Bytes::from(serde_json::to_vec(&body).expect("response fixture"));
        assert!(translate_response(&bytes, "vendor-sonnet-4", &buffered_state(), 1024 * 1024).is_err());
    }
}

#[test]
fn stream_rejects_non_direct_tool_caller() {
    let frames = vec![
        stream_message_start(),
        block_start(
            0,
            j(
                r#"{
                  "type": "tool_use",
                  "id": "call_0",
                  "name": "weather",
                  "input": {},
                  "caller": {"type":"server"}
                }"#,
            ),
        ),
    ];
    let events = translated_stream(frames, buffered_state());
    assert_one_safe_stream_error(&events, "non_direct_tool_caller");
}

#[test]
fn buffered_response_preserves_order_wrappers_usage_and_stable_ids() {
    let state = buffered_state();
    let body = buffered_body(
        j(
            r#"[
              {"type":"text","text":"one"},
              {"type":"text","text":"two"},
              {"type":"tool_use","id":"call_0","name":"weather","input":{"city":"Paris"}},
              {
                "type": "tool_use",
                "id": "call_1",
                "name": "agentgateway__responses__namespace_function_1",
                "input": {"arguments":{"id":1}}
              },
              {
                "type": "tool_use",
                "id": "call_2",
                "name": "agentgateway__responses__namespace_custom_2",
                "input": {"input":"select account"}
              },
              {
                "type": "tool_use",
                "id": "call_3",
                "name": "agentgateway__responses__custom_3",
                "input": {"input":"print(1)"}
              },
              {
                "type": "tool_use",
                "id": "call_4",
                "name": "agentgateway__responses__local_shell_4",
                "input": {
                  "action": {
                    "command": ["pwd"],
                    "env": {},
                    "timeout_ms": 1000,
                    "user": null,
                    "working_directory": "/tmp"
                  }
                }
              },
              {
                "type": "tool_use",
                "id": "call_5",
                "name": "agentgateway__responses__shell_5",
                "input": {
                  "action": {"commands":["true"],"timeout_ms":1000,"max_output_length":1024}
                }
              },
              {
                "type": "tool_use",
                "id": "call_6",
                "name": "agentgateway__responses__apply_patch_6",
                "input": {"operation":{"type":"update_file","path":"src/lib.rs","diff":"@@"}}
              },
              {"type":"text","text":"after"}
            ]"#,
        ),
        "tool_use",
        Value::Null,
        buffered_usage(),
    );
    let first = buffered_value(body.clone(), &state);
    let second = buffered_value(body, &state);

    assert_eq!(first["id"], "resp_msg_upstream_123");
    assert_eq!(first["status"], "completed");
    assert_eq!(first["model"], "vendor-sonnet-4");
    assert_eq!(first["service_tier"], "default");
    assert_eq!(first["usage"]["input_tokens"], 15);
    assert_eq!(first["usage"]["input_tokens_details"]["cached_tokens"], 4);
    assert_eq!(first["usage"]["output_tokens"], 5);
    assert_eq!(
        first["usage"]["output_tokens_details"]["reasoning_tokens"],
        0
    );
    assert_eq!(first["usage"]["total_tokens"], 20);
    assert_eq!(first["output"], second["output"]);

    let output = first["output"].as_array().expect("output array");
    assert_eq!(output.len(), 9);
    assert_eq!(output[0]["type"], "message");
    assert_eq!(output[0]["id"], "msg_msg_upstream_123_0");
    assert_eq!(output[0]["phase"], "commentary");
    assert_eq!(output[0]["content"][0]["text"], "one");
    assert_eq!(output[0]["content"][1]["text"], "two");
    assert_eq!(output[1]["type"], "function_call");
    assert_eq!(output[1]["id"], "fc_msg_upstream_123_2");
    assert_eq!(output[1]["call_id"], "call_0");
    assert_ne!(output[1]["id"], output[1]["call_id"]);
    assert_eq!(output[1]["arguments"], r#"{"city":"Paris"}"#);
    assert_eq!(output[1]["status"], "completed");
    assert_eq!(output[2]["namespace"], "crm");
    assert_eq!(output[2]["id"], "fc_msg_upstream_123_3");
    assert_eq!(output[2]["name"], "lookup");
    assert_eq!(output[2]["arguments"], r#"{"id":1}"#);
    assert_eq!(output[3]["type"], "custom_tool_call");
    assert_eq!(output[3]["id"], "ctc_msg_upstream_123_4");
    assert_eq!(output[3]["namespace"], "crm");
    assert_eq!(output[3]["input"], "select account");
    assert_eq!(output[4]["id"], "ctc_msg_upstream_123_5");
    assert_eq!(output[4]["name"], "python");
    assert_eq!(output[4]["input"], "print(1)");
    assert_eq!(output[5]["type"], "local_shell_call");
    assert_eq!(output[5]["id"], "lsc_msg_upstream_123_6");
    assert_eq!(output[5]["action"]["command"], j(r#"["pwd"]"#));
    assert_eq!(output[5]["action"]["working_directory"], "/tmp");
    assert_eq!(output[5]["status"], "completed");
    assert_eq!(output[6]["type"], "shell_call");
    assert_eq!(output[6]["id"], "shc_msg_upstream_123_7");
    assert_eq!(output[6]["action"]["commands"], j(r#"["true"]"#));
    assert_eq!(output[6]["action"]["max_output_length"], 1024);
    assert_eq!(output[6]["status"], "completed");
    assert_eq!(output[6]["environment"], j(r#"{"type":"local"}"#));
    assert_eq!(output[7]["type"], "apply_patch_call");
    assert_eq!(output[7]["id"], "apc_msg_upstream_123_8");
    assert_eq!(output[7]["operation"]["type"], "update_file");
    assert_eq!(output[7]["operation"]["path"], "src/lib.rs");
    assert_eq!(output[7]["status"], "completed");
    assert_eq!(output[8]["type"], "message");
    assert_eq!(output[8]["id"], "msg_msg_upstream_123_9");
    assert_eq!(output[8]["content"][0]["text"], "after");
    // Trailing text is still not the final answer while the turn waits on a tool result.
    assert_eq!(output[8]["phase"], "commentary");
}

fn buffered_message_phase_marks_unfinished_turns_as_commentary_case(
    stop_reason: &str,
    with_tool: bool,
    expected_phase: &str,
) {
    let mut content = vec![j(r#"{"type":"text","text":"checking"}"#)];
    if with_tool {
        content.push(j(
            r#"{"type":"tool_use","id":"call_0","name":"weather","input":{"city":"Paris"}}"#,
        ));
    }
    let stop_sequence = if stop_reason == "stop_sequence" {
        val("STOP")
    } else {
        Value::Null
    };
    let body = buffered_body(val(&content), stop_reason, stop_sequence, buffered_usage());

    let value = buffered_value(body, &buffered_state());

    assert_eq!(value["output"][0]["type"], "message");
    assert_eq!(value["output"][0]["phase"], expected_phase);
}

#[test]
fn buffered_message_phase_marks_unfinished_turns_as_commentary() {
    buffered_message_phase_marks_unfinished_turns_as_commentary_case("tool_use", true, "commentary");
    buffered_message_phase_marks_unfinished_turns_as_commentary_case("end_turn", false, "final_answer");
    buffered_message_phase_marks_unfinished_turns_as_commentary_case("stop_sequence", false, "final_answer");
    buffered_message_phase_marks_unfinished_turns_as_commentary_case("max_tokens", false, "final_answer");
}

fn stream_message_phase_marks_unfinished_turns_as_commentary_case(
    stop_reason: &str,
    with_tool: bool,
    expected_phase: &str,
) {
    let mut frames = vec![
        stream_message_start(),
        block_start(0, j(r#"{"type":"text","text":""}"#)),
        block_delta(0, j(r#"{"type":"text_delta","text":"checking"}"#)),
        block_stop(0),
    ];
    if with_tool {
        frames.extend([
            block_start(
                1,
                j(r#"{"type":"tool_use","id":"call_0","name":"weather","input":{}}"#),
            ),
            block_delta(
                1,
                j(r#"{"type":"input_json_delta","partial_json":"{\"city\":\"Paris\"}"}"#),
            ),
            block_stop(1),
        ]);
    }
    frames.extend(stream_terminal(stop_reason, 3));

    let events = translated_stream(frames, buffered_state());

    // The in-flight item cannot claim a phase it does not yet know.
    let added = events
        .iter()
        .find(|event| {
            event["type"] == "response.output_item.added" && event["item"]["type"] == "message"
        })
        .expect("message output_item.added");
    assert_eq!(added["item"].get("phase"), None);
    let done = events
        .iter()
        .find(|event| {
            event["type"] == "response.output_item.done" && event["item"]["type"] == "message"
        })
        .expect("message output_item.done");
    assert_eq!(done["item"]["phase"], expected_phase);
    let completed = events
        .iter()
        .find(|event| event["type"] == "response.completed")
        .expect("response.completed");
    assert_eq!(completed["response"]["output"][0]["phase"], expected_phase);
}

#[test]
fn stream_message_phase_marks_unfinished_turns_as_commentary() {
    stream_message_phase_marks_unfinished_turns_as_commentary_case("tool_use", true, "commentary");
    stream_message_phase_marks_unfinished_turns_as_commentary_case("end_turn", false, "final_answer");
}

#[test]
fn buffered_response_retains_cache_write_only_in_telemetry() {
    let state = buffered_state();
    let translated = buffered_translate(
        buffered_body(
            j(r#"[{"type":"text","text":"ok"}]"#),
            "end_turn",
            Value::Null,
            buffered_usage(),
        ),
        &state,
    );
    let telemetry = translated.to_llm_response();
    let value: Value =
        serde_json::from_slice(&translated.serialize())
            .expect("serialized response");

    assert_eq!(value["usage"]["input_tokens"], 15);
    assert_eq!(value["usage"]["total_tokens"], 20);
    assert_eq!(telemetry.input_tokens, Some(10));
    assert_eq!(telemetry.output_tokens, Some(5));
    assert_eq!(telemetry.total_tokens, Some(15));
    assert_eq!(telemetry.cached_input_tokens, Some(4));
    assert_eq!(telemetry.cache_creation_input_tokens, Some(1));
    assert_eq!(telemetry.service_tier.as_deref(), Some("standard"));
    assert!(value["usage"].get("cache_creation_input_tokens").is_none());
    assert!(value["output"][0].get("encrypted_content").is_none());
}

#[test]
fn buffered_response_telemetry_uses_upstream_provider_model() {
    let state = buffered_state();
    let translated = buffered_translate(
        buffered_body(
            j(r#"[{"type":"text","text":"ok"}]"#),
            "end_turn",
            Value::Null,
            buffered_usage(),
        ),
        &state,
    );
    let value: Value =
        serde_json::from_slice(&translated.serialize())
            .expect("serialized response");
    let telemetry = translated.to_llm_response();

    assert_eq!(value["model"], "vendor-sonnet-4");
    assert_eq!(
        telemetry.provider_model.as_deref(),
        Some("vendor-upstream-model")
    );
}

fn buffered_terminal_mapping_case(
    stop_reason: &str,
    stop_sequence: Value,
    status: &str,
    incomplete_reason: Option<&str>,
) {
    let value = buffered_value(
        buffered_body(j(r#"[]"#), stop_reason, stop_sequence, buffered_usage()),
        &buffered_state(),
    );
    assert_eq!(value["status"], status);
    assert_eq!(
        value["incomplete_details"]["reason"].as_str(),
        incomplete_reason
    );
    if stop_reason == "refusal" {
        assert_eq!(value["output"][0]["content"][0]["type"], "refusal");
    } else {
        assert_eq!(value["output"], j(r#"[]"#));
    }
}

#[test]
fn buffered_terminal_mapping() {
    buffered_terminal_mapping_case("end_turn", Value::Null, "completed", None);
    buffered_terminal_mapping_case("stop_sequence", val("STOP"), "completed", None);
    buffered_terminal_mapping_case("refusal", Value::Null, "completed", None);
    buffered_terminal_mapping_case("max_tokens",
    Value::Null,
    "incomplete",
    Some("max_output_tokens"));
    buffered_terminal_mapping_case("model_context_window_exceeded",
    Value::Null,
    "incomplete",
    Some("max_output_tokens"));
}

#[test]
fn buffered_pause_turn_is_rejected() {
    let body = buffered_body(
        j(r#"[]"#),
        "pause_turn",
        Value::Null,
        buffered_usage(),
    );
    let bytes = Bytes::from(serde_json::to_vec(&body).expect("response fixture"));
    let error = translate_response(&bytes, "vendor-sonnet-4", &buffered_state(), 1024 * 1024)
        .err()
        .expect("pause turn must fail");
    assert_eq!(
        error.to_text(),
        "invalid response: invalid Anthropic Messages response"
    );
}

#[test]
fn buffered_empty_refusal_is_completed_with_an_empty_refusal_marker() {
    let value = buffered_value(
        buffered_body(
            j(r#"[]"#),
            "refusal",
            Value::Null,
            j(r#"{"input_tokens":0,"output_tokens":0}"#),
        ),
        &buffered_state(),
    );
    assert_eq!(value["status"], "completed");
    assert_eq!(value["output"].as_array().expect("output array").len(), 1);
    assert_eq!(value["output"][0]["content"][0]["type"], "refusal");
    assert_eq!(value["output"][0]["content"][0]["refusal"], "");
    assert_eq!(value["usage"]["total_tokens"], 0);
}

#[test]
fn buffered_refusal_maps_nonempty_text_to_refusal_content() {
    let value = buffered_value(
        buffered_body(
            j(r#"[{"type":"text","text":"I cannot help with that."}]"#),
            "refusal",
            Value::Null,
            buffered_usage(),
        ),
        &buffered_state(),
    );
    assert_eq!(value["status"], "completed");
    assert_eq!(
        value["output"][0]["content"][0]["refusal"],
        "I cannot help with that."
    );
    assert_eq!(value["output"][0]["content"][0]["type"], "refusal");
}

fn buffered_drops_thinking_blocks_case(block: Value) {
    // Adaptive thinking is the default for several models, so a
    // thinking block is a valid upstream response. Reasoning cannot round-trip through the
    // Responses bridge, so it is dropped rather than failing the whole response.
    let value = buffered_value(
        buffered_body(
            arr(vec![val(&block), j(r#"{"type":"text","text":"visible"}"#)]),
            "end_turn",
            Value::Null,
            buffered_usage(),
        ),
        &buffered_state(),
    );
    assert_eq!(value["output"].as_array().expect("output array").len(), 1);
    assert_eq!(value["output"][0]["type"], "message");
    assert_eq!(value["output"][0]["content"][0]["type"], "output_text");
    assert_eq!(value["output"][0]["content"][0]["text"], "visible");
    assert!(
        !serde_json::to_string(&value["output"])
            .expect("serialize output")
            .contains("thinking")
    );
    // Reasoning content must never reach the client, redacted or not.
    let rendered = serde_json::to_string(&value).expect("serialize response");
    assert!(!rendered.contains("hidden"));
    assert!(!rendered.contains("opaque"));
}

#[test]
fn buffered_drops_thinking_blocks() {
    buffered_drops_thinking_blocks_case(j(
        r#"{"type":"thinking","thinking":"hidden","signature":"sig"}"#,
    ));
    buffered_drops_thinking_blocks_case(j(r#"{"type":"redacted_thinking","data":"opaque"}"#));
    buffered_drops_thinking_blocks_case(j(
        r#"{"type":"thinking","thinking":"hidden","signature":""}"#,
    ));
    buffered_drops_thinking_blocks_case(j(r#"{"type":"redacted_thinking","data":""}"#));
}

fn buffered_rejects_malformed_thinking_blocks_case(block: Value) {
    let body = buffered_body(
        arr(vec![val(&block)]),
        "end_turn",
        Value::Null,
        buffered_usage(),
    );
    let bytes = Bytes::from(serde_json::to_vec(&body).expect("response fixture"));
    let error = translate_response(&bytes, "vendor-sonnet-4", &buffered_state(), 1024 * 1024)
        .err()
        .expect("unknown thinking field must fail");
    assert_eq!(
        error.to_text(),
        "invalid response: invalid Anthropic Messages response"
    );
}

#[test]
fn buffered_rejects_malformed_thinking_blocks() {
    buffered_rejects_malformed_thinking_blocks_case(j(
        r#"{"type":"thinking","thinking":"a","signature":"s","extra":1}"#,
    ));
    buffered_rejects_malformed_thinking_blocks_case(j(
        r#"{"type":"redacted_thinking","data":"opaque","extra":1}"#,
    ));
}

#[test]
fn buffered_thinking_between_text_keeps_one_message_item() {
    let value = buffered_value(
        buffered_body(
            j(
                r#"[
                  {"type":"text","text":"before"},
                  {"type":"thinking","thinking":"hidden","signature":"sig"},
                  {"type":"text","text":"after"}
                ]"#,
            ),
            "end_turn",
            Value::Null,
            buffered_usage(),
        ),
        &buffered_state(),
    );
    assert_eq!(value["output"].as_array().expect("output array").len(), 1);
    let content = value["output"][0]["content"]
        .as_array()
        .expect("content array");
    assert_eq!(content.len(), 2);
    assert_eq!(content[0]["text"], "before");
    assert_eq!(content[1]["text"], "after");
}

#[test]
fn buffered_thinking_tokens_map_to_public_and_private_usage() {
    let mut usage = buffered_usage();
    usage["output_tokens_details"] = j(r#"{"thinking_tokens":3}"#);
    let translated = buffered_translate(
        buffered_body(
            j(r#"[{"type":"text","text":"ok"}]"#),
            "end_turn",
            Value::Null,
            usage,
        ),
        &buffered_state(),
    );
    let telemetry = translated.to_llm_response();
    let value: Value =
        serde_json::from_slice(&translated.serialize())
            .expect("serialized response");
    assert_eq!(value["usage"]["output_tokens"], 5);
    assert_eq!(
        value["usage"]["output_tokens_details"]["reasoning_tokens"],
        3
    );
    assert_eq!(value["usage"]["total_tokens"], 20);
    assert_eq!(telemetry.reasoning_tokens, Some(3));
    assert_eq!(telemetry.output_tokens, Some(5));
    assert_eq!(telemetry.input_tokens, Some(10));
    assert_eq!(telemetry.total_tokens, Some(15));
}

fn buffered_rejects_invalid_thinking_token_details_case(details: Value) {
    let mut usage = buffered_usage();
    usage["output_tokens_details"] = details;
    let body = buffered_body(
        j(r#"[{"type":"text","text":"ok"}]"#),
        "end_turn",
        Value::Null,
        usage,
    );
    let bytes = Bytes::from(serde_json::to_vec(&body).expect("response fixture"));
    assert!(translate_response(&bytes, "vendor-sonnet-4", &buffered_state(), 1024 * 1024).is_err());
}

#[test]
fn buffered_rejects_invalid_thinking_token_details() {
    buffered_rejects_invalid_thinking_token_details_case(j(r#"{"thinking_tokens":6}"#));
    buffered_rejects_invalid_thinking_token_details_case(j(r#"{"thinking_tokens":3,"future":1}"#));
}

#[test]
fn buffered_empty_thinking_token_details_are_absent() {
    let mut usage = buffered_usage();
    usage["output_tokens_details"] = j(r#"{}"#);
    let translated = buffered_translate(
        buffered_body(
            j(r#"[{"type":"text","text":"ok"}]"#),
            "end_turn",
            Value::Null,
            usage,
        ),
        &buffered_state(),
    );
    let telemetry = translated.to_llm_response();
    let value: Value =
        serde_json::from_slice(&translated.serialize())
            .expect("serialized response");
    assert_eq!(
        value["usage"]["output_tokens_details"]["reasoning_tokens"],
        0
    );
    assert_eq!(telemetry.reasoning_tokens, None);
}

#[test]
fn buffered_incomplete_marks_text_and_tool_items_incomplete() {
    let value = buffered_value(
        buffered_body(
            j(
                r#"[
                  {"type":"text","text":"partial"},
                  {"type":"tool_use","id":"call_0","name":"weather","input":{}}
                ]"#,
            ),
            "max_tokens",
            Value::Null,
            buffered_usage(),
        ),
        &buffered_state(),
    );
    assert_eq!(value["status"], "incomplete");
    for item in value["output"].as_array().expect("output") {
        assert_eq!(item["status"], "incomplete");
    }
}

#[test]
fn buffered_incomplete_uses_only_representable_wrapped_item_statuses() {
    let value = buffered_value(
        buffered_body(
            j(
                r#"[
                  {
                    "type": "tool_use",
                    "id": "call_custom",
                    "name": "agentgateway__responses__custom_3",
                    "input": {"input":"work"}
                  },
                  {
                    "type": "tool_use",
                    "id": "call_patch",
                    "name": "agentgateway__responses__apply_patch_6",
                    "input": {"operation":{"type":"delete_file","path":"old.txt"}}
                  }
                ]"#,
            ),
            "max_tokens",
            Value::Null,
            buffered_usage(),
        ),
        &buffered_state(),
    );
    assert_eq!(value["status"], "incomplete");
    assert!(value["output"][0].get("status").is_none());
    assert_eq!(value["output"][1]["status"], "completed");
}

fn buffered_usage_overflow_is_rejected_case(usage: Value) {
    let body = buffered_body(j(r#"[]"#), "end_turn", Value::Null, usage);
    let bytes = Bytes::from(serde_json::to_vec(&body).expect("response fixture"));
    let error = translate_response(&bytes, "vendor-sonnet-4", &buffered_state(), 1024 * 1024)
        .err()
        .expect("overflow must fail");
    assert_eq!(
        error.to_text(),
        "invalid response: invalid Anthropic Messages response"
    );
}

#[test]
fn buffered_usage_overflow_is_rejected() {
    buffered_usage_overflow_is_rejected_case(obj(vec![
        ("input_tokens", val(&(usize::MAX))),
        ("output_tokens", j(r#"0"#)),
        ("cache_read_input_tokens", j(r#"1"#)),
    ]));
    buffered_usage_overflow_is_rejected_case(obj(vec![
        ("input_tokens", val(&(usize::MAX))),
        ("output_tokens", j(r#"0"#)),
        ("cache_creation_input_tokens", j(r#"1"#)),
    ]));
    buffered_usage_overflow_is_rejected_case(obj(vec![
        ("input_tokens", val(&(u64::from(u32::MAX) + 1))),
        ("output_tokens", j(r#"0"#)),
    ]));
    buffered_usage_overflow_is_rejected_case(obj(vec![
        ("input_tokens", j(r#"0"#)),
        ("output_tokens", j(r#"0"#)),
        ("cache_read_input_tokens", val(&(u64::from(u32::MAX) + 1))),
    ]));
    buffered_usage_overflow_is_rejected_case(obj(vec![
        ("input_tokens", j(r#"0"#)),
        ("output_tokens", val(&(u64::from(u32::MAX) + 1))),
    ]));
    buffered_usage_overflow_is_rejected_case(obj(vec![
        ("input_tokens", val(&(u32::MAX))),
        ("output_tokens", j(r#"1"#)),
    ]));
}

fn buffered_service_tier_mapping_case(upstream: &str, expected: &str) {
    let value = buffered_value(
        buffered_body(
            j(r#"[]"#),
            "end_turn",
            Value::Null,
            obj(vec![
                ("input_tokens", j(r#"0"#)),
                ("output_tokens", j(r#"0"#)),
                ("service_tier", val(&upstream)),
            ]),
        ),
        &buffered_state(),
    );
    assert_eq!(value["service_tier"], expected);
}

#[test]
fn buffered_service_tier_mapping() {
    buffered_service_tier_mapping_case("standard", "default");
    buffered_service_tier_mapping_case("priority", "priority");
}

#[test]
fn buffered_absent_service_tier_stays_absent() {
    let value = buffered_value(
        buffered_body(
            j(r#"[]"#),
            "end_turn",
            Value::Null,
            j(r#"{"input_tokens":0,"output_tokens":0}"#),
        ),
        &buffered_state(),
    );
    assert!(value.get("service_tier").is_none());
}

fn buffered_malformed_response_is_fixed_and_redacted_case(
    marker: &str,
    changes: Value,
) {
    let mut body = buffered_body(
        j(r#"[]"#),
        "end_turn",
        Value::Null,
        j(r#"{"input_tokens":0,"output_tokens":0}"#),
    );
    for (key, value) in changes.as_object().expect("object changes") {
        body[key] = value.clone();
    }
    let bytes = Bytes::from(serde_json::to_vec(&body).expect("response fixture"));
    let error = translate_response(&bytes, "vendor-sonnet-4", &buffered_state(), 1024 * 1024)
        .err()
        .expect("malformed response must fail");
    let text = error.to_text();
    assert_eq!(
        text,
        "invalid response: invalid Anthropic Messages response"
    );
    assert!(!text.contains(marker));
}

#[test]
fn buffered_malformed_response_is_fixed_and_redacted() {
    buffered_malformed_response_is_fixed_and_redacted_case("SENSITIVE_TYPE", j(
        r#"{"type":"future","role":"assistant"}"#,
    ));
    buffered_malformed_response_is_fixed_and_redacted_case("SENSITIVE_ROLE", j(
        r#"{"type":"message","role":"user"}"#,
    ));
    buffered_malformed_response_is_fixed_and_redacted_case("SENSITIVE_ENVELOPE", j(
        r#"{"type":"message","role":"assistant","future":"SENSITIVE_ENVELOPE"}"#,
    ));
    buffered_malformed_response_is_fixed_and_redacted_case("SENSITIVE_BLOCK", j(
        r#"{
          "type": "message",
          "role": "assistant",
          "content": [{"type":"future","data":"SENSITIVE_BLOCK"}]
        }"#,
    ));
    buffered_malformed_response_is_fixed_and_redacted_case("SENSITIVE_TEXT", j(
        r#"{
          "type": "message",
          "role": "assistant",
          "content": [{"type":"text","text":"ok","future":"SENSITIVE_TEXT"}]
        }"#,
    ));
    buffered_malformed_response_is_fixed_and_redacted_case("SENSITIVE_THINKING", j(
        r#"{
          "type": "message",
          "role": "assistant",
          "content": [{"type":"thinking","thinking":"SENSITIVE_THINKING"}]
        }"#,
    ));
    buffered_malformed_response_is_fixed_and_redacted_case("SENSITIVE_EMPTY_ID", j(
        r#"{
          "type": "message",
          "role": "assistant",
          "stop_reason": "tool_use",
          "content": [
            {"type":"tool_use","id":"","name":"weather","input":{"marker":"SENSITIVE_EMPTY_ID"}}
          ]
        }"#,
    ));
    buffered_malformed_response_is_fixed_and_redacted_case("SENSITIVE_TOOL_JSON", j(
        r#"{
          "type": "message",
          "role": "assistant",
          "stop_reason": "tool_use",
          "content": [
            {"type":"tool_use","id":"call_0","name":"weather","input":"SENSITIVE_TOOL_JSON"}
          ]
        }"#,
    ));
    buffered_malformed_response_is_fixed_and_redacted_case("SENSITIVE_UNDECLARED", j(
        r#"{
          "type": "message",
          "role": "assistant",
          "stop_reason": "tool_use",
          "content": [{"type":"tool_use","id":"call_0","name":"SENSITIVE_UNDECLARED","input":{}}]
        }"#,
    ));
    buffered_malformed_response_is_fixed_and_redacted_case("SENSITIVE_WRAPPER", j(
        r#"{
          "type": "message",
          "role": "assistant",
          "stop_reason": "tool_use",
          "content": [
            {
              "type": "tool_use",
              "id": "call_0",
              "name": "agentgateway__responses__shell_5",
              "input": {"action":{"commands":"SENSITIVE_WRAPPER"}}
            }
          ]
        }"#,
    ));
    buffered_malformed_response_is_fixed_and_redacted_case("SENSITIVE_DUPLICATE", j(
        r#"{
          "type": "message",
          "role": "assistant",
          "stop_reason": "tool_use",
          "content": [
            {"type":"tool_use","id":"SENSITIVE_DUPLICATE","name":"weather","input":{}},
            {"type":"tool_use","id":"SENSITIVE_DUPLICATE","name":"weather","input":{}}
          ]
        }"#,
    ));
    buffered_malformed_response_is_fixed_and_redacted_case("SENSITIVE_TOOL_STOP", j(
        r#"{
          "type": "message",
          "role": "assistant",
          "stop_reason": "tool_use",
          "content": [{"type":"text","text":"SENSITIVE_TOOL_STOP"}]
        }"#,
    ));
    buffered_malformed_response_is_fixed_and_redacted_case("SENSITIVE_TOOL_REASON", j(
        r#"{
          "type": "message",
          "role": "assistant",
          "stop_reason": "end_turn",
          "content": [
            {
              "type": "tool_use",
              "id": "call_0",
              "name": "weather",
              "input": {"marker":"SENSITIVE_TOOL_REASON"}
            }
          ]
        }"#,
    ));
    buffered_malformed_response_is_fixed_and_redacted_case("SENSITIVE_REFUSAL", j(
        r#"{
          "type": "message",
          "role": "assistant",
          "stop_reason": "refusal",
          "content": [
            {
              "type": "tool_use",
              "id": "call_0",
              "name": "weather",
              "input": {"marker":"SENSITIVE_REFUSAL"}
            }
          ]
        }"#,
    ));
    buffered_malformed_response_is_fixed_and_redacted_case("SENSITIVE_SEQUENCE", j(
        r#"{"type":"message","role":"assistant","stop_sequence":"SENSITIVE_SEQUENCE"}"#,
    ));
    buffered_malformed_response_is_fixed_and_redacted_case("SENSITIVE_MISSING_SEQUENCE", j(
        r#"{
          "type": "message",
          "role": "assistant",
          "stop_reason": "stop_sequence",
          "stop_sequence": null,
          "content": [{"type":"text","text":"SENSITIVE_MISSING_SEQUENCE"}]
        }"#,
    ));
    buffered_malformed_response_is_fixed_and_redacted_case("SENSITIVE_EMPTY_SEQUENCE", j(
        r#"{
          "type": "message",
          "role": "assistant",
          "stop_reason": "stop_sequence",
          "stop_sequence": "",
          "content": [{"type":"text","text":"SENSITIVE_EMPTY_SEQUENCE"}]
        }"#,
    ));
    buffered_malformed_response_is_fixed_and_redacted_case("SENSITIVE_SEQUENCE_TYPE", j(
        r#"{
          "type": "message",
          "role": "assistant",
          "stop_reason": "stop_sequence",
          "stop_sequence": {"marker":"SENSITIVE_SEQUENCE_TYPE"}
        }"#,
    ));
    buffered_malformed_response_is_fixed_and_redacted_case("SENSITIVE_STOP", j(
        r#"{"type":"message","role":"assistant","stop_reason":"SENSITIVE_STOP"}"#,
    ));
    buffered_malformed_response_is_fixed_and_redacted_case("SENSITIVE_TIER", j(
        r#"{
          "type": "message",
          "role": "assistant",
          "usage": {"input_tokens":0,"output_tokens":0,"service_tier":"SENSITIVE_TIER"}
        }"#,
    ));
}

#[test]
fn buffered_malformed_json_error_is_fixed_and_redacted() {
    let marker = "SENSITIVE_PARSE_MARKER";
    let bytes = Bytes::from(format!(r#"{{"marker":"{marker}""#));
    let error = translate_response(&bytes, "vendor-sonnet-4", &buffered_state(), 1024 * 1024)
        .err()
        .expect("malformed JSON must fail");
    let text = error.to_text();
    assert_eq!(
        text,
        "invalid response: invalid Anthropic Messages response"
    );
    assert!(!text.contains(marker));
}

#[test]
fn tool_declarations_flatten_and_wrap_every_supported_kind() {
    let (body, state) = translate(&request(obj(vec![
        ("input", val("work")),
        ("model", val("vendor-sonnet-4-5")),
        ("tools", val(&tool_declarations())),
    ])))
    .expect("supported tools should translate");
    let actual: Value = serde_json::from_slice(&body).expect("Messages request");
    let tools = actual["tools"].as_array().expect("Messages tools");

    assert_eq!(tools.len(), 7);
    assert_eq!(tools[0]["name"], "weather");
    assert_eq!(
        tools[1]["name"],
        "agentgateway__responses__namespace_function_1"
    );
    assert_eq!(
        tools[2]["name"],
        "agentgateway__responses__namespace_custom_2"
    );
    assert_eq!(tools[3]["name"], "agentgateway__responses__custom_3");
    assert_eq!(tools[4]["name"], "agentgateway__responses__local_shell_4");
    assert_eq!(tools[5]["name"], "agentgateway__responses__shell_5");
    assert_eq!(tools[6]["name"], "agentgateway__responses__apply_patch_6");
    assert_eq!(
        tools[0]["input_schema"],
        tool_declarations()[0]["parameters"]
    );
    assert_eq!(tools[1]["input_schema"]["required"], j(r#"["arguments"]"#));
    assert_eq!(tools[2]["input_schema"]["required"], j(r#"["input"]"#));
    assert_eq!(
        tools[1]["description"],
        "Responses tool crm.lookup. CRM tools"
    );
    assert_eq!(
        tools[2]["description"],
        "Responses tool crm.query. CRM tools"
    );
    assert_eq!(tools[3]["description"], "Responses tool python. Run Python");
    assert_eq!(
        tools[4]["description"],
        "Execute one command on the client's local computer. Provide command as an argv array, env as string environment variables, and optional timeout_ms, user, and working_directory."
    );
    assert_eq!(
        tools[4]["input_schema"],
        j(
            r#"{
              "type": "object",
              "properties": {
                "action": {
                  "type": "object",
                  "properties": {
                    "command": {"type":"array","items":{"type":"string"}},
                    "env": {"type":"object","additionalProperties":{"type":"string"}},
                    "timeout_ms": {"type":["integer","null"],"minimum":0},
                    "user": {"type":["string","null"]},
                    "working_directory": {"type":["string","null"]}
                  },
                  "required": ["command","env"],
                  "additionalProperties": false
                }
              },
              "required": ["action"],
              "additionalProperties": false
            }"#,
        )
    );
    assert_eq!(
        tools[5]["description"],
        "Execute one or more shell command strings in order on the client's local computer. Optional timeout_ms and max_output_length values limit total execution time and captured output."
    );
    assert_eq!(
        tools[5]["input_schema"],
        j(
            r#"{
              "type": "object",
              "properties": {
                "action": {
                  "type": "object",
                  "properties": {
                    "commands": {"type":"array","items":{"type":"string"}},
                    "timeout_ms": {"type":["integer","null"],"minimum":0},
                    "max_output_length": {"type":["integer","null"],"minimum":0}
                  },
                  "required": ["commands"],
                  "additionalProperties": false
                }
              },
              "required": ["action"],
              "additionalProperties": false
            }"#,
        )
    );
    assert_eq!(
        tools[6]["description"],
        "Create, delete, or update one file in the client's local workspace. Create and update operations use path and diff. Delete operations use path."
    );
    assert_eq!(
        tools[6]["input_schema"],
        j(
            r#"{
              "type": "object",
              "properties": {
                "operation": {
                  "oneOf": [
                    {
                      "type": "object",
                      "properties": {
                        "type": {"const":"create_file"},
                        "path": {"type":"string"},
                        "diff": {"type":"string"}
                      },
                      "required": ["type","path","diff"],
                      "additionalProperties": false
                    },
                    {
                      "type": "object",
                      "properties": {"type":{"const":"delete_file"},"path":{"type":"string"}},
                      "required": ["type","path"],
                      "additionalProperties": false
                    },
                    {
                      "type": "object",
                      "properties": {
                        "type": {"const":"update_file"},
                        "path": {"type":"string"},
                        "diff": {"type":"string"}
                      },
                      "required": ["type","path","diff"],
                      "additionalProperties": false
                    }
                  ]
                }
              },
              "required": ["operation"],
              "additionalProperties": false
            }"#,
        )
    );
    assert_eq!(state.len(), 7);
}

#[test]
fn namespace_function_schema_refs_are_rewritten_for_the_wrapper_nesting() {
    // Wrapping a namespace_function's caller-supplied `parameters` under properties.arguments
    // moves it one level deeper in the document. A root-relative $ref (into $defs, or a bare "#"
    // self-reference) must be rewritten to keep pointing at the same target instead of silently
    // resolving against the new wrapper root.
    let actual = translated(j(
        r##"{
          "input": "work",
          "model": "vendor-sonnet-4-5",
          "tools": [
            {
              "type": "namespace",
              "name": "crm",
              "description": "CRM tools",
              "tools": [
                {
                  "type": "function",
                  "name": "lookup",
                  "parameters": {
                    "type": "object",
                    "properties": {"customer":{"$ref":"#/$defs/Customer"},"self":{"$ref":"#"}},
                    "$defs": {"Customer":{"type":"object","properties":{"id":{"type":"integer"}}}}
                  }
                }
              ]
            }
          ]
        }"##,
    ));
    let schema = &actual["tools"].as_array().expect("Messages tools")[0]["input_schema"];
    assert_eq!(
        schema["properties"]["arguments"]["properties"]["customer"]["$ref"],
        "#/properties/arguments/$defs/Customer"
    );
    assert_eq!(
        schema["properties"]["arguments"]["properties"]["self"]["$ref"],
        "#/properties/arguments"
    );
    // The referenced $defs entry itself must still be reachable at the rewritten location.
    assert_eq!(
        schema["properties"]["arguments"]["$defs"]["Customer"]["properties"]["id"]["type"],
        "integer"
    );
}

#[test]
fn namespace_function_schema_ref_rewriting_does_not_corrupt_non_schema_data() {
    // "const" (and similarly "enum"/"default") hold a literal data value, not a nested schema --
    // an object shaped like {"$ref": ...} under one of these keywords is just data that happens
    // to look like a ref, and must survive untouched. Meanwhile array-shaped applicators
    // ("items" tuple form, "oneOf") and map-shaped applicators ("$defs") must still have their
    // genuine nested-schema $refs rewritten.
    let actual = translated(j(
        r##"{
          "input": "work",
          "model": "vendor-sonnet-4-5",
          "tools": [
            {
              "type": "namespace",
              "name": "crm",
              "description": "CRM tools",
              "tools": [
                {
                  "type": "function",
                  "name": "lookup",
                  "parameters": {
                    "type": "object",
                    "properties": {
                      "literal": {"const":{"$ref":"#/$defs/NotARef"}},
                      "tuple": {"items":[{"$ref":"#/$defs/First"},{"$ref":"#/$defs/Second"}]},
                      "union": {"oneOf":[{"$ref":"#/$defs/First"},{"type":"string"}]}
                    },
                    "$defs": {
                      "First": {"type":"object"},
                      "Second": {"type":"object"},
                      "NotARef": {"type":"object"}
                    }
                  }
                }
              ]
            }
          ]
        }"##,
    ));
    let schema = &actual["tools"].as_array().expect("Messages tools")[0]["input_schema"];
    let args = &schema["properties"]["arguments"];
    // Untouched: this "$ref" is data under "const", not a schema reference.
    assert_eq!(
        args["properties"]["literal"]["const"]["$ref"],
        "#/$defs/NotARef"
    );
    // Rewritten: genuine schema references inside array- and map-shaped applicators.
    assert_eq!(
        args["properties"]["tuple"]["items"][0]["$ref"],
        "#/properties/arguments/$defs/First"
    );
    assert_eq!(
        args["properties"]["tuple"]["items"][1]["$ref"],
        "#/properties/arguments/$defs/Second"
    );
    assert_eq!(
        args["properties"]["union"]["oneOf"][0]["$ref"],
        "#/properties/arguments/$defs/First"
    );
}

#[test]
fn wrapped_tool_descriptions_preserve_client_punctuation() {
    let actual = translated(j(
        r#"{
          "input": "work",
          "model": "vendor-sonnet-4-5",
          "tools": [
            {
              "type": "namespace",
              "name": "warehouse",
              "description": "Warehouse inventory tools.",
              "tools": [{"type":"custom","name":"lookup","description":"Use carefully!"}]
            }
          ]
        }"#,
    ));
    assert_eq!(
        actual["tools"][0]["description"],
        "Responses tool warehouse.lookup. Warehouse inventory tools. Use carefully!"
    );
}

fn tool_choice_maps_supported_modes_and_declarations_case(
    choice: Value,
    expected: Value,
) {
    let actual = translated(obj(vec![
        ("input", val("work")),
        ("model", val("vendor-sonnet-4-5")),
        ("tools", val(&tool_declarations())),
        ("tool_choice", val(&choice)),
        ("parallel_tool_calls", j(r#"false"#)),
    ]));

    assert_eq!(actual["tool_choice"], expected);
}

#[test]
fn tool_choice_maps_supported_modes_and_declarations() {
    tool_choice_maps_supported_modes_and_declarations_case(val("auto"), j(
        r#"{"type":"auto","disable_parallel_tool_use":true}"#,
    ));
    tool_choice_maps_supported_modes_and_declarations_case(val("required"), j(
        r#"{"type":"any","disable_parallel_tool_use":true}"#,
    ));
    tool_choice_maps_supported_modes_and_declarations_case(val("none"), j(r#"{"type":"none"}"#));
    tool_choice_maps_supported_modes_and_declarations_case(j(
        r#"{"type":"function","name":"weather"}"#,
    ), j(r#"{"type":"tool","name":"weather","disable_parallel_tool_use":true}"#));
    tool_choice_maps_supported_modes_and_declarations_case(j(
        r#"{"type":"function","name":"lookup"}"#,
    ), j(
        r#"{
          "type": "tool",
          "name": "agentgateway__responses__namespace_function_1",
          "disable_parallel_tool_use": true
        }"#,
    ));
    tool_choice_maps_supported_modes_and_declarations_case(j(
        r#"{"type":"custom","name":"query"}"#,
    ), j(
        r#"{
          "type": "tool",
          "name": "agentgateway__responses__namespace_custom_2",
          "disable_parallel_tool_use": true
        }"#,
    ));
    tool_choice_maps_supported_modes_and_declarations_case(j(
        r#"{"type":"custom","name":"python"}"#,
    ), j(
        r#"{
          "type": "tool",
          "name": "agentgateway__responses__custom_3",
          "disable_parallel_tool_use": true
        }"#,
    ));
    tool_choice_maps_supported_modes_and_declarations_case(j(
        r#"{"type":"local_shell"}"#,
    ), j(
        r#"{
          "type": "tool",
          "name": "agentgateway__responses__local_shell_4",
          "disable_parallel_tool_use": true
        }"#,
    ));
    tool_choice_maps_supported_modes_and_declarations_case(j(
        r#"{"type":"shell"}"#,
    ), j(
        r#"{
          "type": "tool",
          "name": "agentgateway__responses__shell_5",
          "disable_parallel_tool_use": true
        }"#,
    ));
    tool_choice_maps_supported_modes_and_declarations_case(j(
        r#"{"type":"apply_patch"}"#,
    ), j(
        r#"{
          "type": "tool",
          "name": "agentgateway__responses__apply_patch_6",
          "disable_parallel_tool_use": true
        }"#,
    ));
}

#[test]
fn tool_parallel_false_without_choice_emits_disabled_auto_choice() {
    let actual = translated(obj(vec![
        ("input", val("work")),
        ("model", val("vendor-sonnet-4-5")),
        ("tools", val(&tool_declarations())),
        ("parallel_tool_calls", j(r#"false"#)),
    ]));

    assert_eq!(
        actual["tool_choice"],
        j(r#"{"type":"auto","disable_parallel_tool_use":true}"#)
    );
}

#[test]
fn tool_choice_omitted_when_parallel_tool_calls_is_not_explicitly_false() {
    for (case, parallel_tool_calls) in [
        ("absent", None),
        ("null", Some(Value::Null)),
        ("true", Some(j(r#"true"#))),
    ] {
        let mut request = obj(vec![
            ("input", val("work")),
            ("model", val("vendor-sonnet-4-5")),
            ("tools", val(&tool_declarations())),
        ]);
        if let Some(value) = parallel_tool_calls {
            request
                .as_object_mut()
                .expect("request object")
                .insert("parallel_tool_calls".to_string(), value);
        }
        let actual = translated(request);
        assert!(
            !actual
                .as_object()
                .expect("Messages request object")
                .contains_key("tool_choice"),
            "{case}: tool_choice must be omitted, not merely null, when parallel_tool_calls is not \
             explicitly false"
        );
    }
}

#[test]
fn tool_history_preserves_calls_outputs_and_error_status() {
    let actual = translated(obj(vec![
        ("model", val("vendor-sonnet-4-5")),
        ("tools", val(&tool_declarations())),
        (
            "input",
            j(
                r#"[
                  {
                    "type": "function_call",
                    "call_id": "call_0",
                    "name": "weather",
                    "arguments": "{\"city\":\"Paris\"}",
                    "status": "completed"
                  },
                  {
                    "type": "function_call_output",
                    "call_id": "call_0",
                    "output": "sunny",
                    "status": "completed"
                  },
                  {
                    "type": "function_call",
                    "call_id": "call_1",
                    "namespace": "crm",
                    "name": "lookup",
                    "arguments": "{\"id\":1}"
                  },
                  {"type":"function_call_output","call_id":"call_1","output":"found"},
                  {
                    "type": "custom_tool_call",
                    "id": "item_2",
                    "call_id": "call_2",
                    "namespace": "crm",
                    "name": "query",
                    "input": "select account",
                    "status": "completed"
                  },
                  {"type":"custom_tool_call_output","call_id":"call_2","output":"account"},
                  {
                    "type": "custom_tool_call",
                    "id": "item_3",
                    "call_id": "call_3",
                    "name": "python",
                    "input": "print(1)"
                  },
                  {"type":"custom_tool_call_output","call_id":"call_3","output":"1"},
                  {
                    "type": "local_shell_call",
                    "id": "item_4",
                    "call_id": "call_4",
                    "status": "completed",
                    "action": {
                      "command": ["pwd"],
                      "env": {},
                      "timeout_ms": 1000,
                      "user": null,
                      "working_directory": "/tmp"
                    }
                  },
                  {
                    "type": "local_shell_call_output",
                    "id": "call_4",
                    "output": "/tmp",
                    "status": "incomplete"
                  },
                  {
                    "type": "shell_call",
                    "call_id": "call_5",
                    "status": "completed",
                    "action": {"commands":["true"],"timeout_ms":1000,"max_output_length":1024},
                    "environment": {"type":"local"}
                  },
                  {
                    "type": "shell_call_output",
                    "call_id": "call_5",
                    "output": [{"stdout":"","stderr":"","outcome":{"type":"exit","exit_code":0}}]
                  },
                  {
                    "type": "apply_patch_call",
                    "call_id": "call_6",
                    "operation": {"type":"update_file","path":"src/lib.rs","diff":"@@"}
                  },
                  {
                    "type": "apply_patch_call_output",
                    "call_id": "call_6",
                    "status": "failed",
                    "output": "conflict"
                  }
                ]"#,
            ),
        ),
    ]));
    let messages = actual["messages"].as_array().expect("Messages history");

    assert_eq!(messages.len(), 14);
    assert_eq!(
        messages[0]["content"][0],
        j(r#"{"type":"tool_use","id":"call_0","name":"weather","input":{"city":"Paris"}}"#)
    );
    assert_eq!(messages[1]["content"][0]["content"], "sunny");
    assert_eq!(
        messages[2]["content"][0]["name"],
        "agentgateway__responses__namespace_function_1"
    );
    assert_eq!(
        messages[2]["content"][0]["input"],
        j(r#"{"arguments":{"id":1}}"#)
    );
    assert_eq!(messages[3]["content"][0]["content"], "found");
    assert_eq!(
        messages[4]["content"][0]["input"],
        j(r#"{"input":"select account"}"#)
    );
    assert_eq!(messages[5]["content"][0]["content"], "account");
    assert_eq!(messages[7]["content"][0]["content"], "1");
    assert_eq!(
        messages[8]["content"][0]["input"]["action"]["working_directory"],
        "/tmp"
    );
    assert_eq!(messages[9]["content"][0]["content"], "/tmp");
    assert_eq!(messages[9]["content"][0]["is_error"], true);
    assert_eq!(
        messages[10]["content"][0]["input"]["action"]["max_output_length"],
        1024
    );
    assert_eq!(
        messages[11]["content"][0]["content"],
        r#"[{"stdout":"","stderr":"","outcome":{"type":"exit","exit_code":0}}]"#
    );
    assert_eq!(messages[13]["content"][0]["content"], "conflict");
    assert_eq!(messages[13]["content"][0]["is_error"], true);
}

fn hosted_search_is_rejected_case(external_web_access: bool) {
    let error = translate(&request(obj(vec![
        ("input", val("work")),
        ("model", val("vendor-sonnet-5")),
        (
            "tools",
            arr(vec![
                obj(vec![
                    ("type", val("web_search")),
                    ("external_web_access", val(&external_web_access)),
                ]),
            ]),
        ),
    ])))
    .expect_err("hosted search should be rejected");

    assert_eq!(
        error.to_text(),
        "unsupported conversion: Responses hosted web search is unsupported"
    );
}

#[test]
fn hosted_search_is_rejected() {
    hosted_search_is_rejected_case(false);
    hosted_search_is_rejected_case(true);
}

#[test]
fn tool_call_with_incomplete_status_replays_as_history() {
    let actual = translated(obj(vec![
        ("model", val("vendor-sonnet-4-5")),
        ("tools", val(&tool_declarations())),
        (
            "input",
            j(
                r#"[
                  {
                    "type": "function_call",
                    "call_id": "call_1",
                    "name": "weather",
                    "arguments": "{\"city\":\"Paris\"}",
                    "status": "incomplete"
                  },
                  {"type":"function_call_output","call_id":"call_1","output":"sunny"}
                ]"#,
            ),
        ),
    ]));
    let messages = actual["messages"].as_array().expect("Messages history");
    assert_eq!(messages.len(), 2);
    assert_eq!(
        messages[0]["content"][0],
        j(r#"{"type":"tool_use","id":"call_1","name":"weather","input":{"city":"Paris"}}"#)
    );
}

fn tool_declaration_rejections_case(tools: Value) {
    assert!(translation_fails(obj(vec![
        ("input", val("work")),
        ("model", val("vendor-sonnet-4-5")),
        ("tools", val(&tools)),
    ])));
}

#[test]
fn tool_declaration_rejections() {
    tool_declaration_rejections_case(j(
        r#"[{"type":"function","name":"agentgateway__responses__bad","parameters":{}}]"#,
    ));
    tool_declaration_rejections_case(j(
        r#"[{"type":"function","name":"bad.name","parameters":{}}]"#,
    ));
    tool_declaration_rejections_case(j(
        r#"[
          {
            "type": "function",
            "name": "aaaaaaaaaaaaaaaaaaaaaaaaaaaaaaaaaaaaaaaaaaaaaaaaaaaaaaaaaaaaaaaaa",
            "parameters": {}
          }
        ]"#,
    ));
    tool_declaration_rejections_case(j(
        r#"[
          {"type":"function","name":"same","parameters":{}},
          {"type":"function","name":"same","parameters":{}}
        ]"#,
    ));
    tool_declaration_rejections_case(j(
        r#"[
          {
            "type": "namespace",
            "name": "crm",
            "description": "one",
            "tools": [{"type":"function","name":"same","parameters":{}}]
          },
          {
            "type": "namespace",
            "name": "crm",
            "description": "two",
            "tools": [{"type":"function","name":"same","parameters":{}}]
          }
        ]"#,
    ));
    tool_declaration_rejections_case(j(
        r#"[
          {
            "type": "namespace",
            "name": "crm",
            "description": "one",
            "tools": [{"type":"function","name":"one","parameters":{}}]
          },
          {
            "type": "namespace",
            "name": "crm",
            "description": "two",
            "tools": [{"type":"function","name":"two","parameters":{}}]
          }
        ]"#,
    ));
    tool_declaration_rejections_case(j(
        r#"[{"type":"function","name":"strict","parameters":{},"strict":true}]"#,
    ));
    tool_declaration_rejections_case(j(
        r#"[{"type":"function","name":"deferred","parameters":{},"defer_loading":true}]"#,
    ));
    tool_declaration_rejections_case(j(
        r#"[
          {
            "type": "custom",
            "name": "grammar",
            "format": {"type":"grammar","syntax":"lark","definition":"start: WORD"}
          }
        ]"#,
    ));
    tool_declaration_rejections_case(j(r#"[{"type":"web_search"}]"#));
}

fn tool_history_rejections_case(input: Value) {
    let input = match input {
        Value::Array(items) => items,
        item => vec![item],
    };
    assert!(translation_fails(obj(vec![
        ("input", val(&input)),
        ("model", val("vendor-sonnet-4-5")),
        ("tools", val(&tool_declarations())),
    ])));
}

#[test]
fn tool_history_rejections() {
    tool_history_rejections_case(j(
        r#"{"type":"function_call","name":"weather","arguments":"{}"}"#,
    ));
    tool_history_rejections_case(j(
        r#"{"type":"function_call","call_id":"call_1","name":"missing","arguments":"{}"}"#,
    ));
    tool_history_rejections_case(j(
        r#"[
          {"type":"function_call","call_id":"call_1","name":"weather","arguments":"{}"},
          {"type":"function_call","call_id":"call_1","name":"weather","arguments":"{}"}
        ]"#,
    ));
    tool_history_rejections_case(j(
        r#"{"type":"function_call_output","call_id":"call_1","output":"late"}"#,
    ));
    tool_history_rejections_case(j(
        r#"{
          "type": "function_call",
          "call_id": "call_1",
          "name": "weather",
          "arguments": "{}",
          "status": "future"
        }"#,
    ));
    tool_history_rejections_case(j(
        r#"{
          "type": "local_shell_call",
          "call_id": "call_1",
          "status": "completed",
          "action": {"command":["pwd"],"env":{}}
        }"#,
    ));
    tool_history_rejections_case(j(
        r#"[
          {"type":"function_call","call_id":"call_1","name":"weather","arguments":"{}"},
          {"type":"custom_tool_call_output","call_id":"call_1","output":"wrong"}
        ]"#,
    ));
    tool_history_rejections_case(j(
        r#"[
          {"type":"function_call","call_id":"call_1","name":"weather","arguments":"{}"},
          {"type":"function_call_output","call_id":"call_1","output":"one"},
          {"type":"function_call_output","call_id":"call_1","output":"two"}
        ]"#,
    ));
    tool_history_rejections_case(j(
        r#"[
          {"type":"function_call","call_id":"call_1","name":"weather","arguments":"{}"},
          {"role":"user","content":"before the result"},
          {"type":"function_call_output","call_id":"call_1","output":"late"}
        ]"#,
    ));
    tool_history_rejections_case(j(
        r#"[
          {
            "type": "local_shell_call",
            "id": "item_1",
            "call_id": "call_1",
            "status": "completed",
            "action": {"command":["pwd"],"env":{}}
          },
          {"type":"local_shell_call_output","output":"pwd","status":"completed"}
        ]"#,
    ));
}

fn tool_malformed_actions_are_rejected_case(malformed: Value) {
    let (tools, item) = if malformed.get("command").is_some() {
        (
            j(r#"[{"type":"local_shell"}]"#),
            obj(vec![
                ("type", val("local_shell_call")),
                ("id", val("item_1")),
                ("call_id", val("call_1")),
                ("status", val("completed")),
                ("action", val(&malformed)),
            ]),
        )
    } else if malformed.get("commands").is_some() {
        (
            j(r#"[{"type":"shell","environment":{"type":"local"}}]"#),
            obj(vec![
                ("type", val("shell_call")),
                ("call_id", val("call_1")),
                ("status", val("completed")),
                ("action", val(&malformed)),
            ]),
        )
    } else {
        (
            j(r#"[{"type":"apply_patch"}]"#),
            obj(vec![
                ("type", val("apply_patch_call")),
                ("call_id", val("call_1")),
                ("status", val("completed")),
                ("operation", val(&malformed)),
            ]),
        )
    };
    assert!(translation_fails(obj(vec![
        ("input", arr(vec![val(&item)])),
        ("model", val("vendor-sonnet-4-5")),
        ("tools", val(&tools)),
    ])));
}

#[test]
fn tool_malformed_actions_are_rejected() {
    tool_malformed_actions_are_rejected_case(j(r#"{"command":"pwd","env":{}}"#));
    tool_malformed_actions_are_rejected_case(j(r#"{"commands":"pwd"}"#));
    tool_malformed_actions_are_rejected_case(j(r#"{"type":"update_file","path":"src/lib.rs"}"#));
}

fn tool_shell_declaration_rejects_malformed_environment_case(environment: Value) {
    assert!(translation_fails(obj(vec![
        ("input", val("work")),
        ("model", val("vendor-sonnet-4-5")),
        ("tools", arr(vec![obj(vec![("type", val("shell")), ("environment", val(&environment))])])),
    ])));
}

#[test]
fn tool_shell_declaration_rejects_malformed_environment() {
    tool_shell_declaration_rejects_malformed_environment_case(j(r#"{"type":"remote"}"#));
    tool_shell_declaration_rejects_malformed_environment_case(j(
        r#"{"type":"container_reference"}"#,
    ));
    tool_shell_declaration_rejects_malformed_environment_case(j(
        r#"{"type":"local","future":true}"#,
    ));
    tool_shell_declaration_rejects_malformed_environment_case(j(
        r#"{"type":"local","skills":false}"#,
    ));
    tool_shell_declaration_rejects_malformed_environment_case(j(r#"{"type":"local","skills":""}"#));
    tool_shell_declaration_rejects_malformed_environment_case(j(r#"{"type":"local","skills":{}}"#));
    tool_shell_declaration_rejects_malformed_environment_case(j(
        r#"{"type":"local","skills":[null]}"#,
    ));
}

#[test]
fn tool_shell_declaration_rejects_hosted_and_effectful_local_environments() {
    assert!(translation_fails(j(
        r#"{"input":"work","model":"vendor-sonnet-4-5","tools":[{"type":"shell"}]}"#,
    )));
    assert!(translation_fails(j(
        r#"{
          "input": "work",
          "model": "vendor-sonnet-4-5",
          "tools": [
            {
              "type": "shell",
              "environment": {
                "type": "container_auto",
                "skills": [
                  {"type":"skill_reference","skill_id":"skill_1","version":"1"},
                  {
                    "type": "inline",
                    "name": "lint",
                    "description": "Lint code",
                    "source": {"media_type":"application/zip","data":"eA=="}
                  }
                ]
              }
            }
          ]
        }"#,
    )));
    assert!(translation_fails(j(
        r#"{
          "input": "work",
          "model": "vendor-sonnet-4-5",
          "tools": [
            {
              "type": "shell",
              "environment": {"type":"container_reference","container_id":"container_1"}
            }
          ]
        }"#,
    )));
    assert!(translation_fails(j(
        r#"{
          "input": "work",
          "model": "vendor-sonnet-4-5",
          "tools": [
            {
              "type": "shell",
              "environment": {
                "type": "local",
                "skills": [{"name":"lint","description":"Lint code","path":"/skills/lint"}]
              }
            }
          ]
        }"#,
    )));
    assert!(translation_fails(j(
        r#"{
          "input": "work",
          "model": "vendor-sonnet-4-5",
          "tools": [
            {"type":"shell","environment":{"type":"container_auto","skills":[{"anything":true}]}}
          ]
        }"#,
    )));
}

#[test]
fn tool_shell_history_rejects_container_auto_environment() {
    assert!(translation_fails(j(
        r#"{
          "input": [
            {
              "type": "shell_call",
              "call_id": "call_1",
              "status": "completed",
              "action": {"commands":["true"]},
              "environment": {"type":"container_auto"}
            }
          ],
          "model": "vendor-sonnet-4-5",
          "tools": [{"type":"shell","environment":{"type":"local"}}]
        }"#,
    )));
}

fn tool_shell_history_rejects_malformed_local_skills_case(skills: Value) {
    assert!(translation_fails(obj(vec![
        (
            "input",
            arr(vec![
                obj(vec![
                    ("type", val("shell_call")),
                    ("call_id", val("call_1")),
                    ("status", val("completed")),
                    ("action", j(r#"{"commands":["true"]}"#)),
                    ("environment", obj(vec![("type", val("local")), ("skills", val(&skills))])),
                ]),
            ]),
        ),
        ("model", val("vendor-sonnet-4-5")),
        ("tools", j(r#"[{"type":"shell","environment":{"type":"local"}}]"#)),
    ])));
}

#[test]
fn tool_shell_history_rejects_malformed_local_skills() {
    tool_shell_history_rejects_malformed_local_skills_case(false.into());
    tool_shell_history_rejects_malformed_local_skills_case(val(""));
    tool_shell_history_rejects_malformed_local_skills_case(j(r#"{}"#));
    tool_shell_history_rejects_malformed_local_skills_case(j(r#"[null]"#));
}

fn tool_output_rejects_unsupported_status_fields_case(
    call: Value,
    output: Value,
) {
    assert!(translation_fails(obj(vec![
        ("input", arr(vec![val(&call), val(&output)])),
        ("model", val("vendor-sonnet-4-5")),
        ("tools", val(&tool_declarations())),
    ])));
}

#[test]
fn tool_output_rejects_unsupported_status_fields() {
    tool_output_rejects_unsupported_status_fields_case(j(
        r#"{"type":"function_call","call_id":"call_1","name":"weather","arguments":"{}"}"#,
    ),
    j(r#"{"type":"function_call_output","call_id":"call_1","output":"bad","status":"failed"}"#));
    tool_output_rejects_unsupported_status_fields_case(j(
        r#"{
          "type": "custom_tool_call",
          "id": "item_1",
          "call_id": "call_1",
          "name": "python",
          "input": "x"
        }"#,
    ),
    j(
        r#"{"type":"custom_tool_call_output","call_id":"call_1","output":"x","status":"completed"}"#,
    ));
    tool_output_rejects_unsupported_status_fields_case(j(
        r#"{
          "type": "shell_call",
          "call_id": "call_1",
          "status": "completed",
          "action": {"commands":["true"]}
        }"#,
    ),
    j(r#"{"type":"shell_call_output","call_id":"call_1","status":"completed","output":[]}"#));
}

#[test]
fn tool_choice_rejects_ambiguous_namespace_child_name() {
    assert!(translation_fails(j(
        r#"{
          "input": "work",
          "model": "vendor-sonnet-4-5",
          "tools": [
            {
              "type": "namespace",
              "name": "one",
              "description": "one",
              "tools": [{"type":"function","name":"lookup","parameters":{}}]
            },
            {
              "type": "namespace",
              "name": "two",
              "description": "two",
              "tools": [{"type":"function","name":"lookup","parameters":{}}]
            }
          ],
          "tool_choice": {"type":"function","name":"lookup"}
        }"#,
    )));
}

#[test]
fn tool_rich_function_and_custom_outputs_preserve_supported_parts() {
    let actual = translated(obj(vec![
        ("model", val("vendor-sonnet-4-5")),
        ("tools", val(&tool_declarations())),
        (
            "input",
            j(
                r#"[
                  {"type":"function_call","call_id":"call_1","name":"weather","arguments":"{}"},
                  {
                    "type": "function_call_output",
                    "call_id": "call_1",
                    "output": [
                      {"type":"input_text","text":"forecast"},
                      {"type":"input_image","image_url":"data:image/png;base64,aQ=="}
                    ]
                  },
                  {
                    "type": "custom_tool_call",
                    "id": "item_2",
                    "call_id": "call_2",
                    "name": "python",
                    "input": "x"
                  },
                  {
                    "type": "custom_tool_call_output",
                    "call_id": "call_2",
                    "output": [{"type":"input_file","file_data":"data:text/plain;base64,aGk="}]
                  }
                ]"#,
            ),
        ),
    ]));

    assert_eq!(
        actual["messages"][1]["content"][0]["content"][0]["text"],
        "forecast"
    );
    assert_eq!(
        actual["messages"][1]["content"][0]["content"][1]["type"],
        "image"
    );
    assert_eq!(
        actual["messages"][3]["content"][0]["content"][0]["source"]["data"],
        "hi"
    );
}

fn tool_choice_requires_matching_declaration_case(tool_choice: Value) {
    let tools = (tool_choice["name"] == "missing").then(tool_declarations);
    assert!(translation_fails(obj(vec![
        ("input", val("work")),
        ("model", val("vendor-sonnet-4-5")),
        ("tools", val(&tools.unwrap_or_else(|| j(r#"[]"#)))),
        ("tool_choice", val(&tool_choice)),
    ])));
}

#[test]
fn tool_choice_requires_matching_declaration() {
    tool_choice_requires_matching_declaration_case(val("required"));
    tool_choice_requires_matching_declaration_case(j(r#"{"type":"function","name":"weather"}"#));
    tool_choice_requires_matching_declaration_case(j(r#"{"type":"function","name":"missing"}"#));
}

fn tool_shell_failure_outcomes_are_errors_case(outcome: Value) {
    let actual = translated(obj(vec![
        ("model", val("vendor-sonnet-4-5")),
        ("tools", j(r#"[{"type":"shell","environment":{"type":"local"}}]"#)),
        (
            "input",
            arr(vec![
                j(r#"{"type":"shell_call","call_id":"call_1","action":{"commands":["false"]}}"#),
                obj(vec![
                    ("type", val("shell_call_output")),
                    ("call_id", val("call_1")),
                    (
                        "output",
                        arr(vec![
                            obj(vec![
                                ("stdout", val("")),
                                ("stderr", val("failure")),
                                ("outcome", val(&outcome)),
                            ]),
                        ]),
                    ),
                ]),
            ]),
        ),
    ]));

    assert_eq!(actual["messages"][1]["content"][0]["is_error"], true);
}

#[test]
fn tool_shell_failure_outcomes_are_errors() {
    tool_shell_failure_outcomes_are_errors_case(j(r#"{"type":"timeout"}"#));
    tool_shell_failure_outcomes_are_errors_case(j(r#"{"type":"exit","exit_code":9}"#));
}

#[test]
fn tool_shell_output_rejects_exit_code_outside_i32() {
    assert!(translation_fails(obj(vec![
        ("model", val("vendor-sonnet-4-5")),
        ("tools", j(r#"[{"type":"shell","environment":{"type":"local"}}]"#)),
        (
            "input",
            arr(vec![
                j(r#"{"type":"shell_call","call_id":"call_1","action":{"commands":["false"]}}"#),
                obj(vec![
                    ("type", val("shell_call_output")),
                    ("call_id", val("call_1")),
                    (
                        "output",
                        arr(vec![
                            obj(vec![
                                ("stdout", val("")),
                                ("stderr", val("failure")),
                                (
                                    "outcome",
                                    obj(vec![
                                        ("type", val("exit")),
                                        ("exit_code", val(&2147483648_i64)),
                                    ]),
                                ),
                            ]),
                        ]),
                    ),
                ]),
            ]),
        ),
    ])));
}

#[test]
fn input_string_becomes_one_user_text_message() {
    let actual = translated(j(r#"{"input":"hello","model":"vendor-sonnet-4-5"}"#));

    assert_eq!(
        actual,
        j(
            r#"{
              "messages": [{"role":"user","content":[{"type":"text","text":"hello"}]}],
              "model": "vendor-sonnet-4-5",
              "max_tokens": 4096
            }"#,
        )
    );
}

#[test]
fn instructions_and_leading_system_items_become_ordered_system_blocks() {
    let actual = translated(j(
        r#"{
          "input": [
            {"role":"system","content":"system item"},
            {
              "type": "message",
              "role": "developer",
              "content": [{"type":"input_text","text":"developer item"}]
            },
            {"role":"user","content":"question"}
          ],
          "instructions": "instructions",
          "model": "vendor-sonnet-4-5"
        }"#,
    ));

    assert_eq!(
        actual["system"],
        j(
            r#"[
              {"type":"text","text":"instructions"},
              {"type":"text","text":"system item"},
              {"type":"text","text":"developer item"}
            ]"#,
        )
    );
    assert_eq!(
        actual["messages"],
        j(r#"[{"role":"user","content":[{"type":"text","text":"question"}]}]"#)
    );
}

#[test]
fn raw_history_preserves_block_order_and_groups_only_adjacent_roles() {
    let actual = translated(j(
        r#"{
          "input": [
            {
              "role": "user",
              "content": [{"type":"input_text","text":"one"},{"type":"input_text","text":"two"}]
            },
            {"role":"user","content":"three"},
            {
              "type": "message",
              "role": "assistant",
              "phase": "commentary",
              "status": "completed",
              "content": [
                {"type":"output_text","text":"four","annotations":[],"logprobs":[]},
                {"type":"output_text","text":"five"}
              ]
            },
            {"role":"assistant","phase":"final_answer","content":"six"},
            {"role":"user","content":"seven"}
          ],
          "model": "vendor-sonnet-4-5"
        }"#,
    ));

    assert_eq!(
        actual["messages"],
        j(
            r#"[
              {
                "role": "user",
                "content": [
                  {"type":"text","text":"one"},
                  {"type":"text","text":"two"},
                  {"type":"text","text":"three"}
                ]
              },
              {
                "role": "assistant",
                "content": [
                  {"type":"text","text":"four"},
                  {"type":"text","text":"five"},
                  {"type":"text","text":"six"}
                ]
              },
              {"role":"user","content":[{"type":"text","text":"seven"}]}
            ]"#,
        )
    );
}

#[test]
fn rejects_system_or_developer_items_after_conversation_starts() {
    for role in ["system", "developer"] {
        assert!(translation_fails(obj(vec![
            (
                "input",
                arr(vec![
                    j(r#"{"role":"user","content":"question"}"#),
                    obj(vec![("role", val(&role)), ("content", val("late instruction"))]),
                ]),
            ),
            ("model", val("vendor-sonnet-4-5")),
        ])));
    }
}

fn raw_item_shape_policy_case(role: &str, extra: &str, accepted: bool) {
    let mut item = obj(vec![("role", val(&role)), ("content", val("hello"))]);
    let extra: Value = serde_json::from_str(extra).expect("valid test JSON");
    item
        .as_object_mut()
        .expect("message object")
        .extend(extra.as_object().expect("extra object").clone());

    assert_eq!(
        translate(&request(obj(vec![
            ("input", arr(vec![val(&item)])),
            ("model", val("vendor-sonnet-4-5")),
        ])))
        .is_ok(),
        accepted
    );
}

#[test]
fn raw_item_shape_policy() {
    raw_item_shape_policy_case("user", "{}", true);
    raw_item_shape_policy_case("user", r#"{"type":"message"}"#, true);
    raw_item_shape_policy_case("user", r#"{"type":null}"#, false);
    raw_item_shape_policy_case("user", r#"{"type":false}"#, false);
    raw_item_shape_policy_case("user", r#"{"id":"msg_1"}"#, true);
    raw_item_shape_policy_case("user", r#"{"id":""}"#, true);
    raw_item_shape_policy_case("user", r#"{"id":null}"#, false);
    raw_item_shape_policy_case("user", r#"{"id":1}"#, false);
    raw_item_shape_policy_case("user", r#"{"id":false}"#, false);
    raw_item_shape_policy_case("user", r#"{"id":[]}"#, false);
    raw_item_shape_policy_case("user", r#"{"id":{}}"#, false);
    raw_item_shape_policy_case("user", r#"{"future":"enabled"}"#, false);
    raw_item_shape_policy_case("user", r#"{"future":null}"#, false);
    raw_item_shape_policy_case("user", r#"{"phase":"commentary"}"#, false);
    raw_item_shape_policy_case("assistant", r#"{"phase":"commentary"}"#, true);
}

fn message_content_rejects_empty_and_accepts_nonempty_case(
    role: &str,
    content: Value,
    accepted: bool,
) {
    assert_eq!(
        translate(&request(obj(vec![
            ("input", arr(vec![obj(vec![("role", val(&role)), ("content", val(&content))])])),
            ("model", val("vendor-sonnet-4-5")),
        ])))
        .is_ok(),
        accepted
    );
}

#[test]
fn message_content_rejects_empty_and_accepts_nonempty() {
    message_content_rejects_empty_and_accepts_nonempty_case("user", val(""), false);
    message_content_rejects_empty_and_accepts_nonempty_case("user", j(r#"[]"#), false);
    message_content_rejects_empty_and_accepts_nonempty_case("user", j(
        r#"[{"type":"input_text","text":""}]"#,
    ), false);
    message_content_rejects_empty_and_accepts_nonempty_case("user", val("hello"), true);
    message_content_rejects_empty_and_accepts_nonempty_case("assistant", val(""), false);
    message_content_rejects_empty_and_accepts_nonempty_case("assistant", j(r#"[]"#), false);
    message_content_rejects_empty_and_accepts_nonempty_case("assistant",
    j(r#"[{"type":"output_text","text":""}]"#),
    false);
    message_content_rejects_empty_and_accepts_nonempty_case("assistant", val("hello"), true);
    message_content_rejects_empty_and_accepts_nonempty_case("system", val(""), false);
    message_content_rejects_empty_and_accepts_nonempty_case("system", j(r#"[]"#), false);
    message_content_rejects_empty_and_accepts_nonempty_case("system", j(
        r#"[{"type":"input_text","text":""}]"#,
    ), false);
    message_content_rejects_empty_and_accepts_nonempty_case("system", val("hello"), true);
    message_content_rejects_empty_and_accepts_nonempty_case("developer", val(""), false);
    message_content_rejects_empty_and_accepts_nonempty_case("developer",
    j(r#"[{"type":"input_text","text":""}]"#),
    false);
}

fn top_level_input_rejects_empty_and_accepts_nonempty_case(
    input: Value,
    accepted: bool,
) {
    assert_eq!(
        translate(&request(obj(vec![("input", val(&input)), ("model", val("vendor-sonnet-4-5"))])))
        .is_ok(),
        accepted
    );
}

#[test]
fn top_level_input_rejects_empty_and_accepts_nonempty() {
    top_level_input_rejects_empty_and_accepts_nonempty_case(val(""), false);
    top_level_input_rejects_empty_and_accepts_nonempty_case(j(r#"[]"#), false);
    top_level_input_rejects_empty_and_accepts_nonempty_case(val("hello"), true);
}

#[test]
fn instructions_rejects_empty_string() {
    assert!(translation_fails(j(
        r#"{"input":"hello","model":"vendor-sonnet-4-5","instructions":""}"#,
    )));
}

fn content_part_shape_policy_case(
    role: &str,
    content_type: &str,
    extra: &str,
    accepted: bool,
) {
    let mut part = obj(vec![("type", val(&content_type)), ("text", val("hello"))]);
    let extra: Value = serde_json::from_str(extra).expect("valid test JSON");
    part
        .as_object_mut()
        .expect("content part object")
        .extend(extra.as_object().expect("extra object").clone());

    assert_eq!(
        translate(&request(obj(vec![
            (
                "input",
                arr(vec![obj(vec![("role", val(&role)), ("content", arr(vec![val(&part)]))])]),
            ),
            ("model", val("vendor-sonnet-4-5")),
        ])))
        .is_ok(),
        accepted
    );
}

#[test]
fn content_part_shape_policy() {
    content_part_shape_policy_case("user", "input_text", r#"{"future":true}"#, false);
    content_part_shape_policy_case("user", "input_text", r#"{"future":false}"#, false);
    content_part_shape_policy_case("system",
    "input_text",
    r#"{"future":"enabled"}"#,
    false);
    content_part_shape_policy_case("developer",
    "input_text",
    r#"{"future":"enabled"}"#,
    false);
    content_part_shape_policy_case("assistant",
    "output_text",
    r#"{"future":1}"#,
    false);
    content_part_shape_policy_case("assistant",
    "output_text",
    r#"{"future":null}"#,
    false);
}

fn assistant_content_metadata_shape_policy_case(extra: &str, accepted: bool) {
    let mut part = j(r#"{"type":"output_text","text":"answer"}"#);
    let extra: Value = serde_json::from_str(extra).expect("valid test JSON");
    part
        .as_object_mut()
        .expect("content part object")
        .extend(extra.as_object().expect("extra object").clone());

    assert_eq!(
        translate(&request(obj(vec![
            (
                "input",
                arr(vec![
                    obj(vec![("role", val("assistant")), ("content", arr(vec![val(&part)]))]),
                ]),
            ),
            ("model", val("vendor-sonnet-4-5")),
        ])))
        .is_ok(),
        accepted
    );
}

#[test]
fn assistant_content_metadata_shape_policy() {
    assistant_content_metadata_shape_policy_case("{}", true);
    assistant_content_metadata_shape_policy_case(r#"{"annotations":[]}"#, true);
    assistant_content_metadata_shape_policy_case(r#"{"annotations":false}"#, false);
    assistant_content_metadata_shape_policy_case(r#"{"annotations":null}"#, false);
    assistant_content_metadata_shape_policy_case(r#"{"annotations":""}"#, false);
    assistant_content_metadata_shape_policy_case(r#"{"annotations":{}}"#, false);
    assistant_content_metadata_shape_policy_case(r#"{"annotations":[{"type":"citation"}]}"#, false);
    assistant_content_metadata_shape_policy_case(r#"{"logprobs":[]}"#, true);
    assistant_content_metadata_shape_policy_case(r#"{"logprobs":null}"#, true);
    assistant_content_metadata_shape_policy_case(r#"{"logprobs":false}"#, false);
    assistant_content_metadata_shape_policy_case(r#"{"logprobs":""}"#, false);
    assistant_content_metadata_shape_policy_case(r#"{"logprobs":{}}"#, false);
    assistant_content_metadata_shape_policy_case(r#"{"logprobs":[{"token":"answer"}]}"#, false);
}

fn assistant_history_policy_case(
    phase: Option<&str>,
    status: Option<&str>,
    content_type: &str,
    annotations: bool,
    logprobs: bool,
    null_field: Option<&str>,
    accepted: bool,
) {
    let content = if content_type == "refusal" {
        j(r#"[{"type":"refusal","refusal":"declined"}]"#)
    } else {
        arr(vec![
            obj(vec![
                ("type", val("output_text")),
                ("text", val("answer")),
                (
                    "annotations",
                    val(&(if annotations { vec![j(r#"{"type":"citation"}"#)] } else { Vec::new() })),
                ),
                (
                    "logprobs",
                    val(&(if logprobs { vec![j(r#"{"token":"answer"}"#)] } else { Vec::new() })),
                ),
            ]),
        ])
    };
    let mut message = obj(vec![("role", val("assistant")), ("content", val(&content))]);
    if let Some(phase) = phase {
        message["phase"] = val(&phase);
    }
    if let Some(status) = status {
        message["status"] = val(&status);
    }
    if let Some(field) = null_field {
        message[field] = Value::Null;
    }

    let result = translate(&request(obj(vec![
        ("input", arr(vec![val(&message)])),
        ("model", val("vendor-sonnet-4-5")),
    ])));
    assert_eq!(result.is_ok(), accepted);
}

#[test]
fn assistant_history_policy() {
    assistant_history_policy_case(None, None, "output_text", false, false, None, true);
    assistant_history_policy_case(Some("commentary"), None, "output_text", false, false, None, true);
    assistant_history_policy_case(Some("final_answer"), None, "output_text", false, false, None, true);
    assistant_history_policy_case(Some("analysis"), None, "output_text", false, false, None, false);
    assistant_history_policy_case(None, None, "output_text", false, false, Some("phase"), false);
    assistant_history_policy_case(None, None, "output_text", false, false, None, true);
    assistant_history_policy_case(None, Some("completed"), "output_text", false, false, None, true);
    assistant_history_policy_case(None, Some("in_progress"), "output_text", false, false, None, false);
    assistant_history_policy_case(None, Some("incomplete"), "output_text", false, false, None, true);
    assistant_history_policy_case(None, None, "output_text", false, false, Some("status"), false);
    assistant_history_policy_case(None, None, "refusal", false, false, None, true);
    assistant_history_policy_case(None, None, "output_text", true, false, None, false);
    assistant_history_policy_case(None, None, "output_text", false, true, None, false);
}

#[test]
fn assistant_refusal_history_replays_as_text_content() {
    // A prior turn's refusal (this crate's own output shape) must be replayable as history on
    // the next turn, since this route requires store:false and relies on the client resending
    // the API's own assistant content verbatim.
    let translated = translated(j(
        r#"{
          "input": [
            {"role":"assistant","content":[{"type":"refusal","refusal":"I can't help with that."}]}
          ],
          "model": "vendor-sonnet-4-5"
        }"#,
    ));
    assert_eq!(
        translated["messages"][0]["content"][0]["text"],
        "I can't help with that."
    );
}

#[test]
fn assistant_incomplete_history_replays_as_continuation_prompt() {
    // A prior turn truncated by max_output_tokens (this crate's own output shape, status:
    // "incomplete") must be replayable as history so the client can continue the conversation --
    // store:false means the client, not this crate, carries that history forward.
    let translated = translated(j(
        r#"{
          "input": [
            {
              "role": "assistant",
              "status": "incomplete",
              "content": [
                {
                  "type": "output_text",
                  "text": "The answer starts with",
                  "annotations": [],
                  "logprobs": []
                }
              ]
            },
            {"role":"user","content":"please continue"}
          ],
          "model": "vendor-sonnet-4-5"
        }"#,
    ));
    assert_eq!(
        translated["messages"][0]["content"][0]["text"],
        "The answer starts with"
    );
    assert_eq!(
        translated["messages"][1]["content"][0]["text"],
        "please continue"
    );
}

#[test]
fn assistant_refusal_history_rejects_unknown_field() {
    assert!(translation_fails(j(
        r#"{
          "input": [
            {
              "role": "assistant",
              "content": [{"type":"refusal","refusal":"declined","future":"field"}]
            }
          ],
          "model": "vendor-sonnet-4-5"
        }"#,
    )));
}

#[test]
fn assistant_refusal_history_rejects_non_string_refusal() {
    assert!(translation_fails(j(
        r#"{
          "input": [{"role":"assistant","content":[{"type":"refusal","refusal":null}]}],
          "model": "vendor-sonnet-4-5"
        }"#,
    )));
}

#[test]
fn assistant_content_free_refusal_history_is_rejected_instead_of_replayed_as_empty_text() {
    assert!(translation_fails(j(
        r#"{
          "input": [{"role":"assistant","content":[{"type":"refusal","refusal":""}]}],
          "model": "vendor-sonnet-4-5"
        }"#,
    )));
}

fn top_level_policy_case(extra: &str, accepted: bool) {
    let mut value = j(r#"{"input":"hello","model":"vendor-sonnet-4-5","store":false}"#);
    let extra: Value = serde_json::from_str(extra).expect("valid test JSON");
    value
        .as_object_mut()
        .expect("request object")
        .extend(extra.as_object().expect("extra object").clone());

    let result = translate(&raw_request(value));
    assert_eq!(result.is_ok(), accepted);
}

#[test]
fn top_level_policy() {
    top_level_policy_case("{}", true);
    top_level_policy_case(r#"{"include":null}"#, true);
    top_level_policy_case(r#"{"include":[]}"#, true);
    top_level_policy_case(r#"{"include":["reasoning.encrypted_content"]}"#, true);
    top_level_policy_case(r#"{"include":["message.output_text.logprobs"]}"#, false);
    top_level_policy_case(r#"{"include":["reasoning.encrypted_content","message.output_text.logprobs"]}"#,
    false);
    top_level_policy_case(r#"{"previous_response_id":""}"#, true);
    top_level_policy_case(r#"{"previous_response_id":"resp_1"}"#, false);
    top_level_policy_case(r#"{"conversation":{}}"#, false);
    top_level_policy_case(r#"{"conversation":{"id":"conv_1"}}"#, false);
    top_level_policy_case(r#"{"prompt":{}}"#, false);
    top_level_policy_case(r#"{"prompt":{"id":"pmpt_1"}}"#, false);
    top_level_policy_case("{}", true);
    top_level_policy_case(r#"{"background":false}"#, true);
    top_level_policy_case(r#"{"background":null}"#, false);
    top_level_policy_case(r#"{"background":""}"#, false);
    top_level_policy_case(r#"{"background":true}"#, false);
    top_level_policy_case(r#"{"background":0}"#, false);
    top_level_policy_case("{}", true);
    top_level_policy_case(r#"{"stream_options":{}}"#, false);
    top_level_policy_case(r#"{"stream_options":{"include_obfuscation":false}}"#, true);
    top_level_policy_case(r#"{"stream_options":{"include_obfuscation":null}}"#, false);
    top_level_policy_case(r#"{"stream_options":{"include_obfuscation":""}}"#, false);
    top_level_policy_case(r#"{"stream_options":{"include_obfuscation":true}}"#, false);
    top_level_policy_case(r#"{"stream_options":{"include_obfuscation":0}}"#, false);
    top_level_policy_case(r#"{"stream_options":{"future":"enabled"}}"#, false);
    top_level_policy_case(r#"{"stream":true}"#, true);
    top_level_policy_case(r#"{"stream":true,"stream_options":{}}"#, false);
    top_level_policy_case(r#"{"stream":true,"stream_options":{"include_obfuscation":false}}"#,
    true);
    top_level_policy_case(r#"{"prompt_cache_key":"cache"}"#, true);
    top_level_policy_case(r#"{"prompt_cache_retention":"24h"}"#, true);
    top_level_policy_case(r#"{"metadata":{"key":"value"}}"#, true);
    top_level_policy_case("{}", true);
    top_level_policy_case(r#"{"user":null}"#, true);
    top_level_policy_case(r#"{"user":""}"#, true);
    top_level_policy_case(r#"{"user":"user_1"}"#, true);
    top_level_policy_case(r#"{"user":1}"#, false);
    top_level_policy_case(r#"{"user":false}"#, false);
    top_level_policy_case(r#"{"user":[]}"#, false);
    top_level_policy_case(r#"{"user":{}}"#, false);
    top_level_policy_case(r#"{"safety_identifier":"safe_1"}"#, true);
    top_level_policy_case(r#"{"reasoning":{}}"#, true);
    top_level_policy_case(r#"{"reasoning":{"summary":"auto"}}"#, true);
    top_level_policy_case(r#"{"reasoning":{"effort":"none","summary":"auto"}}"#,
    true);
    top_level_policy_case(r#"{"reasoning":{"summary":"concise"}}"#, true);
    top_level_policy_case(r#"{"reasoning":{"summary":"detailed"}}"#, true);
    top_level_policy_case(r#"{"reasoning":{"summary":"verbose"}}"#, false);
    top_level_policy_case(r#"{"reasoning":{"effort":null}}"#, false);
    top_level_policy_case(r#"{"reasoning":{"effort":"minimal"}}"#, false);
    top_level_policy_case(r#"{"reasoning":false}"#, false);
    top_level_policy_case(r#"{"reasoning":{"future":null}}"#, true);
    top_level_policy_case(r#"{"reasoning":{"future":"enabled"}}"#, false);
    top_level_policy_case("{}", true);
    top_level_policy_case(r#"{"truncation":"disabled"}"#, true);
    top_level_policy_case(r#"{"truncation":false}"#, false);
    top_level_policy_case(r#"{"truncation":""}"#, false);
    top_level_policy_case(r#"{"truncation":null}"#, false);
    top_level_policy_case(r#"{"truncation":"auto"}"#, false);
    top_level_policy_case(r#"{"truncation":"future"}"#, false);
    top_level_policy_case(r#"{"max_tool_calls":null}"#, true);
    top_level_policy_case(r#"{"max_tool_calls":1}"#, false);
    top_level_policy_case(r#"{"service_tier":null}"#, true);
    top_level_policy_case(r#"{"service_tier":"auto"}"#, false);
    top_level_policy_case("{}", true);
    top_level_policy_case(r#"{"logprobs":null}"#, true);
    top_level_policy_case(r#"{"logprobs":false}"#, true);
    top_level_policy_case(r#"{"logprobs":true}"#, false);
    top_level_policy_case(r#"{"logprobs":""}"#, false);
    top_level_policy_case(r#"{"logprobs":[]}"#, false);
    top_level_policy_case(r#"{"logprobs":{}}"#, false);
    top_level_policy_case(r#"{"logprobs":1}"#, false);
    top_level_policy_case(r#"{"top_logprobs":null}"#, true);
    top_level_policy_case(r#"{"top_logprobs":1}"#, false);
    top_level_policy_case(r#"{"text":{"verbosity":"low"}}"#, false);
    top_level_policy_case(r#"{"text":{"verbosity":"medium"}}"#, false);
    top_level_policy_case(r#"{"text":{"verbosity":"high"}}"#, false);
    top_level_policy_case(r#"{"text":""}"#, false);
    top_level_policy_case(r#"{"text":{"future":null}}"#, false);
    top_level_policy_case(r#"{"text":{"future":"enabled"}}"#, false);
    top_level_policy_case(r#"{"text":{}}"#, true);
    top_level_policy_case(r#"{"text":{"format":{"type":"text"}}}"#, true);
    top_level_policy_case(r#"{"text":{"format":{"type":"text","strict":false}}}"#, false);
    top_level_policy_case(r#"{"text":{"format":{"type":"text","strict":true}}}"#, false);
    top_level_policy_case(r#"{"text":{"format":{"type":"json_object"}}}"#, false);
    top_level_policy_case(r#"{"text":{"format":{"type":"json_schema","name":"answer","schema":{}}}}"#,
    false);
    top_level_policy_case("{}", true);
    top_level_policy_case(r#"{"tools":[]}"#, true);
    top_level_policy_case(r#"{"tools":[{"type":"function","name":"lookup"}]}"#, true);
    top_level_policy_case(r#"{"tool_choice":null}"#, true);
    top_level_policy_case(r#"{"tool_choice":"auto"}"#, true);
    top_level_policy_case(r#"{"parallel_tool_calls":null}"#, true);
    top_level_policy_case(r#"{"parallel_tool_calls":false}"#, true);
    top_level_policy_case(r#"{"parallel_tool_calls":true}"#, true);
    top_level_policy_case(r#"{"client_metadata":{"session_id":"local-session"}}"#, true);
    top_level_policy_case(r#"{"future_field":null}"#, true);
    top_level_policy_case(r#"{"future_field":false}"#, true);
    top_level_policy_case(r#"{"future_field":""}"#, true);
    top_level_policy_case(r#"{"future_field":[]}"#, true);
    top_level_policy_case(r#"{"future_field":{}}"#, true);
    top_level_policy_case(r#"{"future_field":"enabled"}"#, false);
}

fn metadata_and_cache_hints_do_not_change_translated_request_case(extra: &str) {
    let baseline = j(r#"{"input":"hello","model":"vendor-sonnet-4-5"}"#);
    let mut with_hint = baseline.clone();
    let extra: Value = serde_json::from_str(extra).expect("valid test JSON");
    with_hint
        .as_object_mut()
        .expect("request object")
        .extend(extra.as_object().expect("extra object").clone());

    assert_eq!(translated(with_hint), translated(baseline));
}

#[test]
fn metadata_and_cache_hints_do_not_change_translated_request() {
    metadata_and_cache_hints_do_not_change_translated_request_case(r#"{"client_metadata":{"session_id":"local-session"}}"#);
    metadata_and_cache_hints_do_not_change_translated_request_case(r#"{"metadata":{"key":"value"}}"#);
    metadata_and_cache_hints_do_not_change_translated_request_case(r#"{"prompt_cache_key":"cache"}"#);
    metadata_and_cache_hints_do_not_change_translated_request_case(r#"{"prompt_cache_retention":"24h"}"#);
}

fn explicit_store_policy_case(store: Option<Value>, accepted: bool) {
    let mut value = j(r#"{"input":"hello","model":"vendor-sonnet-4-5"}"#);
    if let Some(store) = store {
        value["store"] = store;
    }
    assert_eq!(translate(&raw_request(value)).is_ok(), accepted);
}

#[test]
fn explicit_store_policy() {
    explicit_store_policy_case(None, false);
    explicit_store_policy_case(Some(j(r#"false"#)), true);
    explicit_store_policy_case(Some(Value::Null), false);
    explicit_store_policy_case(Some(j(r#"true"#)), false);
    explicit_store_policy_case(Some(j(r#"0"#)), false);
}

fn rejected_request_errors_are_fixed_case(extra: &str, expected: &str) {
    let mut value = j(r#"{"input":"hello","model":"vendor-sonnet-4-5"}"#);
    let extra: Value = serde_json::from_str(extra).expect("valid test JSON");
    value
        .as_object_mut()
        .expect("request object")
        .extend(extra.as_object().expect("extra object").clone());

    let error = translate(&request(value)).expect_err("request should be rejected");
    assert_eq!(error.to_text(), expected);
}

#[test]
fn rejected_request_errors_are_fixed() {
    rejected_request_errors_are_fixed_case(r#"{"logprobs":true}"#,
    "unsupported conversion: Responses logprobs are unsupported");
    rejected_request_errors_are_fixed_case(r#"{"logprobs":""}"#,
    "unsupported conversion: unsupported Responses logprobs");
    rejected_request_errors_are_fixed_case(r#"{"logprobs":1}"#,
    "unsupported conversion: unsupported Responses logprobs");
    rejected_request_errors_are_fixed_case(r#"{"max_tool_calls":4}"#,
    "unsupported conversion: Responses max_tool_calls is unsupported");
    rejected_request_errors_are_fixed_case(r#"{"service_tier":"priority"}"#,
    "unsupported conversion: Responses service_tier is unsupported");
    rejected_request_errors_are_fixed_case(r#"{"top_logprobs":3}"#,
    "unsupported conversion: Responses top_logprobs is unsupported");
    rejected_request_errors_are_fixed_case(r#"{"previous_response_id":"resp_1"}"#,
    "unsupported conversion: Responses previous_response_id is unsupported");
    rejected_request_errors_are_fixed_case(r#"{"conversation":"conv_1"}"#,
    "unsupported conversion: Responses conversation is unsupported");
    rejected_request_errors_are_fixed_case(r#"{"prompt":{"id":"pmpt_1"}}"#,
    "unsupported conversion: Responses prompt is unsupported");
    rejected_request_errors_are_fixed_case(r#"{"reasoning":{"future":"enabled"}}"#,
    "unsupported conversion: Responses reasoning is unsupported");
    rejected_request_errors_are_fixed_case(r#"{"text":{"future":"enabled"}}"#,
    "unsupported conversion: unsupported Responses text option");
    rejected_request_errors_are_fixed_case(r#"{"text":{"format":{"type":"text","strict":true}}}"#,
    "unsupported conversion: unsupported Responses text format option");
}

#[test]
fn request_temperature_requires_anthropic_range() {
    for temperature in [0.0, 0.25, 1.0] {
        assert!(!translation_fails(obj(vec![
            ("input", val("hello")),
            ("temperature", val(&temperature)),
        ])));
    }
    for temperature in [-0.1, 1.1] {
        assert!(translation_fails(obj(vec![
            ("input", val("hello")),
            ("temperature", val(&temperature)),
        ])));
    }
}

fn request_metadata_maps_first_nonempty_identifier_case(
    safety_identifier: Option<&str>,
    user: Option<&str>,
    expected: Option<&str>,
) {
    let mut value = j(r#"{"input":"hello"}"#);
    if let Some(identifier) = safety_identifier {
        value["safety_identifier"] = val(&identifier);
    }
    if let Some(identifier) = user {
        value["user"] = val(&identifier);
    }
    let actual = translated(value);
    assert_eq!(
        actual
            .pointer("/metadata/user_id")
            .and_then(Value::as_str),
        expected
    );
    assert_eq!(actual.get("metadata").is_some(), expected.is_some());
}

#[test]
fn request_metadata_maps_first_nonempty_identifier() {
    request_metadata_maps_first_nonempty_identifier_case(Some("safe"), Some("legacy"), Some("safe"));
    request_metadata_maps_first_nonempty_identifier_case(Some(""), Some("legacy"), Some("legacy"));
    request_metadata_maps_first_nonempty_identifier_case(None, Some("legacy"), Some("legacy"));
    request_metadata_maps_first_nonempty_identifier_case(Some("  "), Some("legacy"), Some("  "));
    request_metadata_maps_first_nonempty_identifier_case(Some(""), Some(""), None);
    request_metadata_maps_first_nonempty_identifier_case(None, None, None);
}

#[test]
fn copies_parameters_uses_neutral_defaults() {
    let (body, _) = translate(&request(j(
        r#"{
          "input": "hello",
          "model": "vendor-opus-4-1",
          "max_output_tokens": 123,
          "stream": true,
          "temperature": 0.25,
          "top_p": 0.75
        }"#,
    )))
    .expect("request should translate");
    let actual: Value = serde_json::from_slice(&body).expect("valid Messages request");

    assert_eq!(actual["model"], "vendor-opus-4-1");
    assert_eq!(actual["max_tokens"], 123);
    assert_eq!(actual["stream"], true);
    assert_eq!(actual["temperature"], 0.25);
    assert_eq!(actual["top_p"], 0.75);
    for field in [
        "stop_sequences",
        "top_k",
        "tools",
        "tool_choice",
        "metadata",
        "thinking",
        "output_config",
    ] {
        assert!(actual.get(field).is_none());
    }
}

fn reasoning_sampling_policy_case(
    effort: Option<&str>,
    temperature: Option<f32>,
    top_p: Option<f32>,
    accepted: bool,
) {
    let mut value = j(r#"{"input":"hello","model":"vendor-sonnet-4-5"}"#);
    if let Some(effort) = effort {
        value["reasoning"] = obj(vec![("effort", val(&effort))]);
    }
    if let Some(temperature) = temperature {
        value["temperature"] = val(&temperature);
    }
    if let Some(top_p) = top_p {
        value["top_p"] = val(&top_p);
    }

    assert_eq!(translate(&request(value)).is_ok(), accepted);
}

#[test]
fn reasoning_sampling_policy() {
    reasoning_sampling_policy_case(None, Some(0.25), Some(0.75), true);
    reasoning_sampling_policy_case(Some("none"), Some(0.25), Some(0.75), true);
    reasoning_sampling_policy_case(Some("minimal"), Some(0.25), None, false);
    reasoning_sampling_policy_case(Some("low"), Some(0.25), None, true);
    reasoning_sampling_policy_case(Some("medium"), Some(0.25), None, true);
    reasoning_sampling_policy_case(Some("high"), Some(0.25), None, true);
    reasoning_sampling_policy_case(Some("xhigh"), Some(0.25), None, true);
    reasoning_sampling_policy_case(Some("max"), Some(0.25), None, true);
    reasoning_sampling_policy_case(Some("medium"), None, Some(0.75), true);
    reasoning_sampling_policy_case(Some("medium"), None, None, true);
}

#[test]
fn user_http_input_image_becomes_url_image_block_in_order() {
    let actual = translated(j(
        r#"{
          "input": [
            {
              "role": "user",
              "content": [
                {"type":"input_text","text":"before"},
                {"type":"input_image","image_url":"http://example.com/image.png"},
                {"type":"input_text","text":"after"}
              ]
            }
          ],
          "model": "vendor-sonnet-4-5"
        }"#,
    ));

    assert_eq!(
        actual["messages"][0]["content"],
        j(
            r#"[
              {"type":"text","text":"before"},
              {"type":"image","source":{"type":"url","url":"http://example.com/image.png"}},
              {"type":"text","text":"after"}
            ]"#,
        )
    );
}

#[test]
fn user_https_input_image_accepts_auto_detail() {
    let actual = translated(j(
        r#"{
          "input": [
            {
              "role": "user",
              "content": [
                {"type":"input_image","image_url":"https://example.com/image.webp","detail":"auto"}
              ]
            }
          ],
          "model": "vendor-sonnet-4-5"
        }"#,
    ));

    assert_eq!(
        actual["messages"][0]["content"][0],
        j(r#"{"type":"image","source":{"type":"url","url":"https://example.com/image.webp"}}"#)
    );
}

fn user_data_url_input_image_becomes_base64_image_block_case(
    media_type: &str,
    data: &str,
) {
    let actual = translated(obj(vec![
        (
            "input",
            arr(vec![
                obj(vec![
                    ("role", val("user")),
                    (
                        "content",
                        arr(vec![
                            obj(vec![
                                ("type", val("input_image")),
                                ("image_url", val(&format!("data:{media_type};base64,{data}"))),
                            ]),
                        ]),
                    ),
                ]),
            ]),
        ),
        ("model", val("vendor-sonnet-4-5")),
    ]));

    assert_eq!(
        actual["messages"][0]["content"][0],
        obj(vec![
            ("type", val("image")),
            (
                "source",
                obj(vec![
                    ("type", val("base64")),
                    ("media_type", val(&media_type)),
                    ("data", val(&data)),
                ]),
            ),
        ])
    );
}

#[test]
fn user_data_url_input_image_becomes_base64_image_block() {
    user_data_url_input_image_becomes_base64_image_block_case("image/jpeg", "/9j/");
    user_data_url_input_image_becomes_base64_image_block_case("image/png", "iVBORw==");
    user_data_url_input_image_becomes_base64_image_block_case("image/gif", "R0lGODlh");
    user_data_url_input_image_becomes_base64_image_block_case("image/webp", "UklGRg==");
}

#[test]
fn input_image_rejects_file_id_even_when_null() {
    assert!(translation_fails(j(
        r#"{
          "input": [
            {
              "role": "user",
              "content": [
                {"type":"input_image","image_url":"https://example.com/image.png","file_id":null}
              ]
            }
          ],
          "model": "vendor-sonnet-4-5"
        }"#,
    )));
}

#[test]
fn pdf_data_url_input_file_becomes_base64_document() {
    let actual = translated(j(
        r#"{
          "input": [
            {
              "role": "user",
              "content": [
                {"type":"input_file","file_data":"data:application/pdf;base64,JVBERi0xLjQK"}
              ]
            }
          ],
          "model": "vendor-sonnet-4-5"
        }"#,
    ));

    assert_eq!(
        actual["messages"][0]["content"][0],
        j(
            r#"{
              "type": "document",
              "source": {"type":"base64","media_type":"application/pdf","data":"JVBERi0xLjQK"}
            }"#,
        )
    );
}

#[test]
fn text_data_url_input_file_decodes_to_titled_text_document() {
    let actual = translated(j(
        r#"{
          "input": [
            {
              "role": "user",
              "content": [
                {
                  "type": "input_file",
                  "file_data": "data:text/plain;base64,aGVsbG8gd29ybGQ=",
                  "filename": "notes.txt",
                  "detail": "low"
                }
              ]
            }
          ],
          "model": "vendor-sonnet-4-5"
        }"#,
    ));

    assert_eq!(
        actual["messages"][0]["content"][0],
        j(
            r#"{
              "type": "document",
              "source": {"type":"text","media_type":"text/plain","data":"hello world"},
              "title": "notes.txt"
            }"#,
        )
    );
}

fn url_input_file_becomes_url_document_case(file_url: &str) {
    let actual = translated(obj(vec![
        (
            "input",
            arr(vec![
                obj(vec![
                    ("role", val("user")),
                    (
                        "content",
                        arr(vec![
                            obj(vec![("type", val("input_file")), ("file_url", val(&file_url))]),
                        ]),
                    ),
                ]),
            ]),
        ),
        ("model", val("vendor-sonnet-4-5")),
    ]));

    assert_eq!(
        actual["messages"][0]["content"][0],
        obj(vec![
            ("type", val("document")),
            ("source", obj(vec![("type", val("url")), ("url", val(&file_url))])),
        ])
    );
}

#[test]
fn url_input_file_becomes_url_document() {
    url_input_file_becomes_url_document_case("http://example.com/report.pdf");
    url_input_file_becomes_url_document_case("https://example.com/report.pdf");
}

#[test]
fn input_file_accepts_explicit_auto_detail() {
    let actual = translated(j(
        r#"{
          "input": [
            {
              "role": "user",
              "content": [
                {"type":"input_file","file_url":"https://example.com/report.pdf","detail":"auto"}
              ]
            }
          ],
          "model": "vendor-sonnet-4-5"
        }"#,
    ));

    assert_eq!(
        actual["messages"][0]["content"][0]["source"],
        j(r#"{"type":"url","url":"https://example.com/report.pdf"}"#)
    );
}

#[test]
fn strict_json_schema_becomes_messages_output_format() {
    let schema = j(
        r#"{
          "type": "object",
          "properties": {"answer":{"type":"string"}},
          "required": ["answer"],
          "additionalProperties": false
        }"#,
    );
    let actual = translated(obj(vec![
        ("input", val("question")),
        ("model", val("vendor-sonnet-4-5")),
        (
            "text",
            obj(vec![
                (
                    "format",
                    obj(vec![
                        ("type", val("json_schema")),
                        ("name", val("answer")),
                        ("schema", val(&schema)),
                        ("strict", j(r#"true"#)),
                    ]),
                ),
            ]),
        ),
    ]));

    assert_eq!(
        actual["output_config"],
        obj(vec![("format", obj(vec![("type", val("json_schema")), ("schema", val(&schema))]))])
    );
}

#[test]
fn strict_json_schema_description_is_folded_into_the_schema() {
    let schema = j(
        r#"{
          "type": "object",
          "properties": {"answer":{"type":"string"}},
          "required": ["answer"],
          "additionalProperties": false
        }"#,
    );
    let actual = translated(obj(vec![
        ("input", val("question")),
        ("model", val("vendor-sonnet-4-5")),
        (
            "text",
            obj(vec![
                (
                    "format",
                    obj(vec![
                        ("type", val("json_schema")),
                        ("name", val("answer")),
                        ("description", val("answer the question concisely")),
                        ("schema", val(&schema)),
                        ("strict", j(r#"true"#)),
                    ]),
                ),
            ]),
        ),
    ]));

    assert_eq!(
        actual["output_config"]["format"]["schema"]["description"],
        val("answer the question concisely")
    );
}

#[test]
fn strict_json_schema_description_does_not_overwrite_an_existing_schema_description() {
    let schema = j(
        r#"{
          "type": "object",
          "properties": {"answer":{"type":"string"}},
          "description": "the schema's own description",
          "required": ["answer"],
          "additionalProperties": false
        }"#,
    );
    let actual = translated(obj(vec![
        ("input", val("question")),
        ("model", val("vendor-sonnet-4-5")),
        (
            "text",
            obj(vec![
                (
                    "format",
                    obj(vec![
                        ("type", val("json_schema")),
                        ("name", val("answer")),
                        ("description", val("sibling description")),
                        ("schema", val(&schema)),
                        ("strict", j(r#"true"#)),
                    ]),
                ),
            ]),
        ),
    ]));

    assert_eq!(
        actual["output_config"]["format"]["schema"]["description"],
        val("the schema's own description")
    );
}

#[test]
fn reasoning_history_is_rejected() {
    for item in [
        j(r#"{"type":"reasoning"}"#),
        j(r#"{"type":"reasoning","summary":[]}"#),
        j(r#"{"type":"reasoning","encrypted_content":"opaque"}"#),
    ] {
        assert!(translation_fails(obj(vec![
            ("input", arr(vec![val(&item)])),
            ("model", val("vendor-sonnet-4-5")),
        ])));
    }
}

#[test]
fn input_image_validation_rejects_invalid_sources_details_and_fields() {
    let cases = [
        ("missing source", j(r#"{"type":"input_image"}"#)),
        (
            "relative URL",
            j(r#"{"type":"input_image","image_url":"/image.png"}"#),
        ),
        (
            "non-HTTP URL",
            j(r#"{"type":"input_image","image_url":"ftp://example.com/image.png"}"#),
        ),
        (
            "malformed HTTP URL",
            j(r#"{"type":"input_image","image_url":"https://"}"#),
        ),
        (
            "malformed base64",
            j(r#"{"type":"input_image","image_url":"data:image/png;base64,%%%"}"#),
        ),
        (
            "unsupported media type",
            j(r#"{"type":"input_image","image_url":"data:image/svg+xml;base64,PHN2Zz4="}"#),
        ),
        (
            "file ID",
            j(
                r#"{
                  "type": "input_image",
                  "image_url": "https://example.com/image.png",
                  "file_id": "file-secret"
                }"#,
            ),
        ),
        (
            "low detail",
            j(
                r#"{
                  "type": "input_image",
                  "image_url": "https://example.com/image.png",
                  "detail": "low"
                }"#,
            ),
        ),
        (
            "high detail",
            j(
                r#"{
                  "type": "input_image",
                  "image_url": "https://example.com/image.png",
                  "detail": "high"
                }"#,
            ),
        ),
        (
            "null detail",
            j(
                r#"{
                  "type": "input_image",
                  "image_url": "https://example.com/image.png",
                  "detail": null
                }"#,
            ),
        ),
        (
            "unknown effective field",
            j(
                r#"{
                  "type": "input_image",
                  "image_url": "https://example.com/image.png",
                  "future": true
                }"#,
            ),
        ),
    ];

    for (name, part) in cases {
        assert!(
            translation_fails(obj(vec![
                (
                    "input",
                    arr(vec![obj(vec![("role", val("user")), ("content", arr(vec![val(&part)]))])]),
                ),
                ("model", val("vendor-sonnet-4-5")),
            ])),
            "{name} should be rejected"
        );
    }
}

#[test]
fn input_file_validation_rejects_invalid_sources_data_details_and_fields() {
    let cases = [
        ("missing source", j(r#"{"type":"input_file"}"#)),
        (
            "combined sources",
            j(
                r#"{
                  "type": "input_file",
                  "file_data": "data:application/pdf;base64,JVBERg==",
                  "file_url": "https://example.com/report.pdf"
                }"#,
            ),
        ),
        (
            "null data",
            j(r#"{"type":"input_file","file_data":null}"#),
        ),
        ("null URL", j(r#"{"type":"input_file","file_url":null}"#)),
        (
            "file ID",
            j(r#"{"type":"input_file","file_id":null,"file_url":"https://example.com/a"}"#),
        ),
        (
            "relative URL",
            j(r#"{"type":"input_file","file_url":"report.pdf"}"#),
        ),
        (
            "non-HTTP URL",
            j(r#"{"type":"input_file","file_url":"ftp://example.com/report.pdf"}"#),
        ),
        (
            "malformed HTTP URL",
            j(r#"{"type":"input_file","file_url":"http://"}"#),
        ),
        (
            "not a data URL",
            j(r#"{"type":"input_file","file_data":"JVBERg=="}"#),
        ),
        (
            "malformed base64",
            j(r#"{"type":"input_file","file_data":"data:application/pdf;base64,%%%"}"#),
        ),
        (
            "unsupported media type",
            j(r#"{"type":"input_file","file_data":"data:text/csv;base64,YQ=="}"#),
        ),
        (
            "invalid UTF-8",
            j(r#"{"type":"input_file","file_data":"data:text/plain;base64,/w=="}"#),
        ),
        (
            "high detail",
            j(r#"{"type":"input_file","file_url":"https://example.com/a","detail":"high"}"#),
        ),
        (
            "null detail",
            j(r#"{"type":"input_file","file_url":"https://example.com/a","detail":null}"#),
        ),
        (
            "invalid filename",
            j(r#"{"type":"input_file","file_url":"https://example.com/a","filename":1}"#),
        ),
        (
            "unknown effective field",
            j(
                r#"{
                  "type": "input_file",
                  "file_url": "https://example.com/a",
                  "future": "secret-marker"
                }"#,
            ),
        ),
    ];

    for (name, part) in cases {
        assert!(
            translation_fails(obj(vec![
                (
                    "input",
                    arr(vec![obj(vec![("role", val("user")), ("content", arr(vec![val(&part)]))])]),
                ),
                ("model", val("vendor-sonnet-4-5")),
            ])),
            "{name} should be rejected"
        );
    }
}

fn media_url_rejects_authority_without_host_case(part: Value) {
    assert!(translation_fails(obj(vec![
        ("input", arr(vec![obj(vec![("role", val("user")), ("content", arr(vec![val(&part)]))])])),
        ("model", val("vendor-sonnet-4-5")),
    ])));
}

#[test]
fn media_url_rejects_authority_without_host() {
    media_url_rejects_authority_without_host_case(j(
        r#"{"type":"input_image","image_url":"http://:443/path"}"#,
    ));
    media_url_rejects_authority_without_host_case(j(
        r#"{"type":"input_file","file_url":"http://:443/path"}"#,
    ));
}

#[test]
fn media_is_rejected_outside_user_message_content() {
    for role in ["system", "developer", "assistant"] {
        for part in [
            j(r#"{"type":"input_image","image_url":"https://example.com/image.png"}"#),
            j(r#"{"type":"input_file","file_url":"https://example.com/report.pdf"}"#),
        ] {
            assert!(
                translation_fails(obj(vec![
                    (
                        "input",
                        arr(vec![
                            obj(vec![("role", val(&role)), ("content", arr(vec![val(&part)]))]),
                        ]),
                    ),
                    ("model", val("vendor-sonnet-4-5")),
                ])),
                "{role} media should be rejected"
            );
        }
    }
}

#[test]
fn user_file_content_preserves_order_and_adjacent_user_grouping() {
    let actual = translated(j(
        r#"{
          "input": [
            {
              "role": "user",
              "content": [
                {"type":"input_text","text":"before"},
                {"type":"input_file","file_url":"https://example.com/report.pdf"}
              ]
            },
            {"role":"user","content":"after"}
          ],
          "model": "vendor-sonnet-4-5"
        }"#,
    ));

    assert_eq!(actual["messages"].as_array().map(Vec::len), Some(1));
    assert_eq!(
        actual["messages"][0]["content"],
        j(
            r#"[
              {"type":"text","text":"before"},
              {"type":"document","source":{"type":"url","url":"https://example.com/report.pdf"}},
              {"type":"text","text":"after"}
            ]"#,
        )
    );
}

#[test]
fn output_format_rejects_non_strict_legacy_missing_and_unknown_shapes() {
    let formats = [
        j(r#"{"type":"json_schema","name":"answer","schema":{}}"#),
        j(r#"{"type":"json_schema","name":"answer","schema":{},"strict":false}"#),
        j(r#"{"type":"json_schema","name":"answer","schema":{},"strict":null}"#),
        j(r#"{"type":"json_schema","name":"answer","schema":{},"strict":"true"}"#),
        j(r#"{"type":"json_schema","name":"answer","strict":true}"#),
        j(
            r#"{
              "type": "json_schema",
              "name": "answer",
              "schema": {},
              "strict": true,
              "future": "secret-marker"
            }"#,
        ),
        j(r#"{"type":"json_schema","name":"answer","schema":{},"strict":true,"future":null}"#),
        j(r#"{"type":"json_schema","name":"answer","schema":{},"strict":true,"future":false}"#),
        j(r#"{"type":"json_object"}"#),
    ];

    for format in formats {
        assert!(translation_fails(obj(vec![
            ("input", val("question")),
            ("model", val("vendor-sonnet-4-5")),
            ("text", obj(vec![("format", val(&format))])),
        ])));
    }
}

#[test]
fn absent_reasoning_emits_no_thinking_or_effort() {
    let actual = translated(j(r#"{"input":"question","model":"vendor-sonnet-4-5"}"#));
    assert!(actual.get("thinking").is_none());
    assert!(actual.get("output_config").is_none());
}

#[test]
fn none_reasoning_disables_thinking() {
    let actual = translated(j(
        r#"{"input":"question","model":"vendor-sonnet-4-5","reasoning":{"effort":"none"}}"#,
    ));
    assert_eq!(actual["thinking"], j(r#"{"type":"disabled"}"#));
    assert!(actual.get("output_config").is_none());
}

fn reasoning_effort_becomes_adaptive_thinking_case(effort: &str) {
    let actual = translated(obj(vec![
        ("input", val("question")),
        ("model", val("vendor-sonnet-4-5")),
        ("reasoning", obj(vec![("effort", val(&effort))])),
    ]));

    assert_eq!(actual["thinking"], j(r#"{"type":"adaptive"}"#));
    assert_eq!(actual["output_config"], obj(vec![("effort", val(&effort))]));
}

#[test]
fn reasoning_effort_becomes_adaptive_thinking() {
    reasoning_effort_becomes_adaptive_thinking_case("low");
    reasoning_effort_becomes_adaptive_thinking_case("medium");
    reasoning_effort_becomes_adaptive_thinking_case("high");
    reasoning_effort_becomes_adaptive_thinking_case("xhigh");
    reasoning_effort_becomes_adaptive_thinking_case("max");
}

#[test]
fn captured_default_codex_reasoning_translates_effort_and_discards_hints() {
    let actual = translated(j(
        r#"{
          "input": "question",
          "model": "vendor-sonnet-5",
          "reasoning": {"effort":"high","summary":"concise"},
          "include": ["reasoning.encrypted_content"]
        }"#,
    ));

    assert_eq!(actual["thinking"], j(r#"{"type":"adaptive"}"#));
    assert_eq!(actual["output_config"], j(r#"{"effort":"high"}"#));
    assert!(actual.get("reasoning").is_none());
    assert!(actual.get("include").is_none());
}

#[test]
fn reasoning_effort_merges_with_structured_output() {
    let schema = j(
        r#"{
          "type": "object",
          "properties": {"answer":{"type":"string"}},
          "required": ["answer"],
          "additionalProperties": false
        }"#,
    );
    let actual = translated(obj(vec![
        ("input", val("question")),
        ("model", val("vendor-sonnet-4-5")),
        ("reasoning", j(r#"{"effort":"high"}"#)),
        (
            "text",
            obj(vec![
                (
                    "format",
                    obj(vec![
                        ("type", val("json_schema")),
                        ("name", val("answer")),
                        ("schema", val(&schema)),
                        ("strict", j(r#"true"#)),
                    ]),
                ),
            ]),
        ),
    ]));

    assert_eq!(actual["thinking"], j(r#"{"type":"adaptive"}"#));
    assert_eq!(
        actual["output_config"],
        obj(vec![
            ("effort", val("high")),
            ("format", obj(vec![("type", val("json_schema")), ("schema", val(&schema))])),
        ])
    );
}

fn closed_nested_shapes_reject_inert_unknown_fields_case(shape: &str) {
    for inert in [Value::Null, j(r#"false"#), val(""), j(r#"[]"#), j(r#"{}"#)] {
        let value = match shape {
            "input_image" => obj(vec![
                (
                    "input",
                    arr(vec![
                        obj(vec![
                            ("role", val("user")),
                            (
                                "content",
                                arr(vec![
                                    obj(vec![
                                        ("type", val("input_image")),
                                        ("image_url", val("https://example.com/image.png")),
                                        ("future", val(&inert)),
                                    ]),
                                ]),
                            ),
                        ]),
                    ]),
                ),
                ("model", val("vendor-sonnet-4-5")),
            ]),
            "input_file" => obj(vec![
                (
                    "input",
                    arr(vec![
                        obj(vec![
                            ("role", val("user")),
                            (
                                "content",
                                arr(vec![
                                    obj(vec![
                                        ("type", val("input_file")),
                                        ("file_url", val("https://example.com/report.pdf")),
                                        ("future", val(&inert)),
                                    ]),
                                ]),
                            ),
                        ]),
                    ]),
                ),
                ("model", val("vendor-sonnet-4-5")),
            ]),
            "plain_text_format" => obj(vec![
                ("input", val("question")),
                ("model", val("vendor-sonnet-4-5")),
                (
                    "text",
                    obj(vec![
                        ("format", obj(vec![("type", val("text")), ("future", val(&inert))])),
                    ]),
                ),
            ]),
            "json_schema_format" => obj(vec![
                ("input", val("question")),
                ("model", val("vendor-sonnet-4-5")),
                (
                    "text",
                    obj(vec![
                        (
                            "format",
                            obj(vec![
                                ("type", val("json_schema")),
                                ("name", val("answer")),
                                ("schema", j(r#"{}"#)),
                                ("strict", j(r#"true"#)),
                                ("future", val(&inert)),
                            ]),
                        ),
                    ]),
                ),
            ]),
            _ => unreachable!("known test shape"),
        };
        assert!(
            translation_fails(value),
            "{shape} accepted inert unknown field"
        );
    }
}

#[test]
fn closed_nested_shapes_reject_inert_unknown_fields() {
    closed_nested_shapes_reject_inert_unknown_fields_case("input_image");
    closed_nested_shapes_reject_inert_unknown_fields_case("input_file");
    closed_nested_shapes_reject_inert_unknown_fields_case("plain_text_format");
    closed_nested_shapes_reject_inert_unknown_fields_case("json_schema_format");
}
