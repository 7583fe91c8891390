//! What answers come to, whole and in pieces, and what holds of all of them.
use std::time::{SystemTime, UNIX_EPOCH};

use copilot_bridge::error::{AIError, Malformed};
use copilot_bridge::json::Json;
use copilot_bridge::request::{translate, translate_error, Request};
use copilot_bridge::history::History;
use copilot_bridge::response::{
    translate_response, translate_response_at, translate_response_when, validate_response_tool,
    LAST_SECOND,
};
use copilot_bridge::stream::{translate_stream, StreamSettings, StrictSseJsonEvent};
use copilot_bridge::stream_blocks::Moment;
use copilot_bridge::stream_state::ResponsesStreamState;
use copilot_bridge::tools::{DeclaredOf, DeclaredTool, State, WrappedKind, WrappedOf};
use serde_json::Value;

fn j(text: &str) -> Value {
    serde_json::from_str(text).expect("a JSON value")
}

fn converted(text: &str) -> (Value, State) {
    let request = Request {
        raw: Json::parse(text.as_bytes()).expect("a JSON value"),
        typed: true,
        model: None,
        stream: None,
        max_output_tokens: None,
        temperature: None,
        top_p: None,
    };
    let (body, state) = translate(&request).expect("the request should be taken");
    (serde_json::from_slice(&body).expect("a JSON value"), state)
}

const TOOLS: &str = r#"[
    {"type":"function","name":"f","parameters":{"type":"object"},"strict":false},
    {"type":"custom","name":"c","format":{"type":"text"}},
    {"type":"local_shell"},{"type":"shell","environment":{"type":"local"}},{"type":"apply_patch"},
    {"type":"namespace","name":"n","description":"of n","tools":[
        {"type":"function","name":"g","parameters":{"type":"object"},"strict":false},
        {"type":"custom","name":"h","format":{"type":"text"}}]}]"#;

fn declared() -> (Vec<String>, State) {
    let (body, state) = converted(&format!(
        r#"{{"input":"hi","store":false,"tools":{TOOLS}}}"#
    ));
    let names = body["tools"].as_array().expect("tools");
    let names = names.iter().map(|t| t["name"].as_str().expect("a name").to_string());
    (names.collect(), state)
}

#[test]
fn an_answer_is_written_field_by_field() {
    let answer = br#"{"id":"m1","type":"message","role":"assistant","model":"up","stop_reason":"max_tokens",
        "content":[{"type":"text","text":"a"}],
        "usage":{"input_tokens":2,"cache_creation_input_tokens":3,"cache_read_input_tokens":4,
                 "output_tokens":5,"output_tokens_details":{"thinking_tokens":1},"service_tier":"standard"}}"#;
    let got = translate_response_at(answer, "m", &State::default(), 4096, 7).unwrap();
    let v: Value = serde_json::from_slice(&got.serialize()).unwrap();
    assert_eq!(v["id"], "resp_m1");
    assert_eq!(v["object"], "response");
    assert_eq!(v["created_at"], 7);
    assert_eq!(v["status"], "incomplete");
    assert_eq!(v["incomplete_details"]["reason"], "max_output_tokens");
    assert_eq!(v["model"], "m");
    assert_eq!(v["service_tier"], "default");
    assert_eq!(v["usage"]["input_tokens"], 9);
    assert_eq!(v["usage"]["input_tokens_details"]["cached_tokens"], 4);
    assert_eq!(v["usage"]["output_tokens"], 5);
    assert_eq!(v["usage"]["output_tokens_details"]["reasoning_tokens"], 1);
    assert_eq!(v["usage"]["total_tokens"], 14);
    assert_eq!(v["output"].as_array().unwrap().len(), 1);
    assert_eq!(v["output"][0]["content"][0]["text"], "a");
    let logged = got.to_llm_response();
    assert_eq!(logged.input_tokens, Some(2));
    assert_eq!(logged.output_tokens, Some(5));
    assert_eq!(logged.total_tokens, Some(7));
    assert_eq!(logged.provider_model.as_deref(), Some("up"));
    assert_eq!(logged.service_tier.as_deref(), Some("standard"));
}

#[test]
fn an_answer_is_dated_by_the_clock() {
    let answer = br#"{"id":"m1","type":"message","role":"assistant","model":"up",
        "stop_reason":"end_turn","content":[],"usage":{"input_tokens":1,"output_tokens":0}}"#;
    let seconds = || {
        SystemTime::now()
            .duration_since(UNIX_EPOCH)
            .expect("a clock")
            .as_secs()
    };
    let before = seconds();
    let got = translate_response(answer, "m", &State::default(), 4096).unwrap();
    let after = seconds();
    let v: Value = serde_json::from_slice(&got.serialize()).unwrap();
    let created_at = v["created_at"].as_u64().unwrap();
    assert!(before <= created_at && created_at <= after);
}

#[test]
fn an_answer_needs_a_time_that_can_be_told() {
    let answer = br#"{"id":"m1","type":"message","role":"assistant","model":"up",
        "stop_reason":"end_turn","content":[],"usage":{"input_tokens":1,"output_tokens":0}}"#;
    let dated = |answer: &[u8], nanos| {
        translate_response_when(answer, "m", &State::default(), 4096, nanos)
            .map(|got| serde_json::from_slice::<Value>(&got.serialize()).unwrap()["created_at"].clone())
    };
    let nanos = |seconds: u64| Some(u128::from(seconds) * 1_000_000_000 + 999_999_999);
    assert_eq!(dated(answer, nanos(0)), Ok(Value::from(0)));
    assert_eq!(dated(answer, nanos(1_700_000_000)), Ok(Value::from(1_700_000_000)));
    assert_eq!(dated(answer, nanos(LAST_SECOND)), Ok(Value::from(LAST_SECOND)));
    for untold in [None, nanos(LAST_SECOND + 1), Some(u128::MAX)] {
        assert_eq!(dated(answer, untold), Err(AIError::UnsupportedClock));
        assert_eq!(
            dated(b"{", untold),
            Err(AIError::InvalidResponse(Malformed::Response))
        );
    }
    assert_eq!(AIError::UnsupportedClock.to_text(), "unsupported clock value");
}

#[test]
fn the_id_of_a_tool_use_is_noted_before_its_tool_is_looked_up() {
    let block = |text: &str| match Json::parse(text.as_bytes()) {
        Some(Json::Object(object)) => object,
        _ => panic!("an object"),
    };
    let (names, state) = declared();
    let mut ids = Vec::new();
    let unknown = block(r#"{"type":"tool_use","id":"a","name":"nobody","input":{}}"#);
    assert!(validate_response_tool(&unknown, &state, &mut ids).is_err());
    assert_eq!(ids, ["a"]);
    let nameless = block(r#"{"type":"tool_use","id":"b","name":"","input":{}}"#);
    assert!(validate_response_tool(&nameless, &state, &mut ids).is_err());
    assert_eq!(ids, ["a"]);
    let good = |id: &str| {
        block(&format!(
            r#"{{"type":"tool_use","id":"{id}","name":"{}","input":{{}}}}"#,
            names[0]
        ))
    };
    assert!(validate_response_tool(&good("a"), &state, &mut ids).is_err());
    assert!(validate_response_tool(&good("b"), &state, &mut ids).is_ok());
    assert_eq!(ids, ["a", "b"]);
}

#[test]
fn a_second_call_of_an_id_takes_the_place_of_the_first() {
    let mut history = History::new();
    let wrapped: DeclaredTool = DeclaredOf::Wrapped(WrappedOf {
        kind: WrappedKind::Custom,
        name: "c".to_string(),
        namespace: None,
    });
    assert!(history.record_call("x", DeclaredOf::Function).is_ok());
    assert!(history.record_call("y", DeclaredOf::Function).is_ok());
    assert!(history.record_call("x", wrapped).is_err());
    let calls = &history.calls;
    assert_eq!(calls.len(), 2);
    assert!(calls[0].0 == "x" && matches!(calls[0].1, DeclaredOf::Wrapped(_)));
    assert!(calls[1].0 == "y" && matches!(calls[1].1, DeclaredOf::Function));
}

#[test]
fn each_error_of_an_answer_comes_of_its_cause() {
    let answer = |text: &str, limit| {
        translate_response_at(text.as_bytes(), "m", &State::default(), limit, 0).err()
    };
    let invalid = Some(AIError::InvalidResponse(Malformed::Response));
    let good = r#"{"id":"m1","type":"message","role":"assistant","model":"up","stop_reason":"end_turn",
        "content":[{"type":"text","text":"a"}],"usage":{"input_tokens":1,"output_tokens":1}}"#;
    assert_eq!(answer(good, 4096), None);
    assert_eq!(
        answer(good, 64),
        Some(AIError::InvalidResponse(Malformed::OutputTooLarge))
    );
    assert_eq!(answer("{", 4096), invalid);
    for (was, is) in [
        ("m1", ""),
        ("end_turn", "tool_use"),
        ("end_turn", "future"),
        (r#""text":"a""#, r#""text":1"#),
        (r#""input_tokens":1,"#, ""),
        (r#""input_tokens":1"#, r#""input_tokens":-1"#),
        ("assistant", "user"),
    ] {
        assert_eq!(answer(&good.replace(was, is), 4096), invalid, "{was} {is}");
    }
}

#[test]
fn failures_upstream_are_named_by_their_status() {
    for (status, kind) in [
        (400, "invalid_request_error"),
        (401, "authentication_error"),
        (403, "permission_error"),
        (404, "not_found_error"),
        (409, "conflict_error"),
        (413, "request_too_large"),
        (429, "rate_limit_error"),
        (500, "server_error"),
    ] {
        let v: Value = serde_json::from_slice(&translate_error(b"secret", status).unwrap()).unwrap();
        assert_eq!(v["error"]["type"], kind);
        assert!(v["error"]["message"]
            .as_str()
            .unwrap()
            .ends_with(&format!("HTTP {status}")));
        assert!(v["error"]["param"].is_null() && v["error"]["code"].is_null());
    }
}

/// An answer with a text and a call of every tool.
fn blocks(names: &[String]) -> Value {
    let inputs = [
        r#"{"a":[1,null,"x"]}"#,
        r#"{"input":"typed"}"#,
        r#"{"action":{"command":["ls"],"env":{}}}"#,
        r#"{"action":{"commands":["ls"]}}"#,
        r#"{"operation":{"type":"delete_file","path":"p"}}"#,
        r#"{"arguments":{"b":true}}"#,
        r#"{"input":"in n"}"#,
    ];
    let mut blocks = vec![j(r#"{"type":"text","text":"so"}"#)];
    for (n, (name, input)) in names.iter().zip(inputs).enumerate() {
        blocks.push(j(&format!(
            r#"{{"type":"tool_use","id":"call{n}","name":"{name}","input":{input}}}"#
        )));
    }
    Value::Array(blocks)
}

/// What a client says that had the tools run.
fn outputs(items: &[Value]) -> Vec<Value> {
    let mut said = Vec::new();
    for item in items {
        let (kind, output) = match item["type"].as_str().expect("a type") {
            "function_call" => ("function_call_output", r#""done""#),
            "custom_tool_call" => ("custom_tool_call_output", r#""done""#),
            "local_shell_call" => ("local_shell_call_output", r#""done""#),
            "shell_call" => (
                "shell_call_output",
                r#"[{"stdout":"","stderr":"","outcome":{"type":"exit","exit_code":0}}]"#,
            ),
            "apply_patch_call" => ("apply_patch_call_output", r#""done""#),
            _ => continue,
        };
        let call = if item["call_id"].is_string() {
            item["call_id"].as_str()
        } else {
            item["id"].as_str()
        };
        let call = call.expect("a call");
        let key = if kind == "local_shell_call_output" { "id" } else { "call_id" };
        let status = if kind == "apply_patch_call_output" {
            r#","status":"completed""#
        } else {
            ""
        };
        said.push(j(&format!(
            r#"{{"type":"{kind}","{key}":"{call}","output":{output}{status}}}"#
        )));
    }
    said
}

#[test]
fn what_an_answer_says_can_be_said_back() {
    let (names, state) = declared();
    assert_eq!(names.len(), 7);
    let content = blocks(&names);
    let answer = format!(
        r#"{{"id":"m1","type":"message","role":"assistant","model":"up","stop_reason":"tool_use",
            "content":{content},"usage":{{"input_tokens":1,"output_tokens":1}}}}"#
    );
    let got = translate_response_at(answer.as_bytes(), "m", &state, 1 << 20, 0).unwrap();
    let v: Value = serde_json::from_slice(&got.serialize()).unwrap();
    let items = v["output"].as_array().unwrap();
    assert_eq!(items.len(), 8);
    let mut input = vec![j(r#"{"role":"user","content":"hi"}"#)];
    input.extend(items.iter().cloned());
    input.extend(outputs(items));
    let (body, _) = converted(&format!(
        r#"{{"input":{},"store":false,"tools":{TOOLS}}}"#,
        Value::Array(input)
    ));
    assert_eq!(body["messages"][1]["role"], "assistant");
    let said = body["messages"][1]["content"].as_array().unwrap();
    for (said, was) in said.iter().zip(content.as_array().unwrap()) {
        assert_eq!(said["type"], was["type"]);
        assert_eq!(said["text"], was["text"]);
        assert_eq!(said["id"], was["id"]);
        assert_eq!(said["name"], was["name"]);
        if was["name"] != names[2].as_str() && was["name"] != names[3].as_str() {
            assert_eq!(said["input"], was["input"]);
        }
    }
    assert_eq!(said.len(), 8);
    assert_eq!(body["messages"][2]["content"].as_array().unwrap().len(), 7);
}

fn settings(buffer_limit: usize) -> StreamSettings {
    StreamSettings {
        buffer_limit,
        model: "m".to_string(),
        log_tool_calls: true,
    }
}

/// The bodies of what a stream puts out, and whether it is over.
fn run(events: &[String], limit: usize, tools: &State) -> (Vec<Value>, bool) {
    run_at(events, limit, tools, 5)
}

fn run_at(
    events: &[String],
    limit: usize,
    tools: &State,
    seconds: u64,
) -> (Vec<Value>, bool) {
    let mut stream = ResponsesStreamState::new(true);
    let mut out = Vec::new();
    let mut over = false;
    for (n, event) in events.iter().enumerate() {
        let arrival = StrictSseJsonEvent::Data {
            event_name: Some(j(event)["type"].as_str().expect("a type").to_string()),
            data: event.clone().into_bytes(),
        };
        let at = Moment {
            seconds,
            instant: n as u64,
        };
        let step = translate_stream(&mut stream, arrival, &settings(limit), tools, at);
        assert!(!over || step.events.is_empty());
        out.extend(
            step.events
                .iter()
                .map(|e| serde_json::from_slice::<Value>(&e.body.to_bytes()).expect("JSON")),
        );
        over = over || step.terminated;
    }
    (out, over)
}

fn story(pieces: &[&str]) -> Vec<String> {
    let mut events = vec![
        r#"{"type":"message_start","message":{"id":"m1","type":"message","role":"assistant","content":[],"model":"up","stop_reason":null,"stop_sequence":null,"usage":{"input_tokens":2,"output_tokens":0}}}"#.to_string(),
        r#"{"type":"content_block_start","index":0,"content_block":{"type":"text","text":""}}"#.to_string(),
    ];
    for piece in pieces {
        events.push(format!(
            r#"{{"type":"content_block_delta","index":0,"delta":{{"type":"text_delta","text":"{piece}"}}}}"#
        ));
    }
    events.push(r#"{"type":"content_block_stop","index":0}"#.to_string());
    events.push(r#"{"type":"message_delta","delta":{"stop_reason":"end_turn","stop_sequence":null},"usage":{"output_tokens":3}}"#.to_string());
    events.push(r#"{"type":"message_stop"}"#.to_string());
    events
}

#[test]
fn pieces_of_a_stream_are_numbered_and_add_up() {
    let (out, over) = run(&story(&["Hel", "lo ", "you"]), 1 << 20, &State::default());
    assert!(over);
    for (n, event) in out.iter().enumerate() {
        assert_eq!(event["sequence_number"], n as u64);
    }
    let told: String = out
        .iter()
        .filter(|e| e["type"] == "response.output_text.delta")
        .map(|e| e["delta"].as_str().expect("a piece"))
        .collect();
    assert_eq!(told, "Hello you");
    let done = out
        .iter()
        .find(|e| e["type"] == "response.output_text.done")
        .expect("the end of the text");
    assert_eq!(done["text"], "Hello you");
    let last = out.last().expect("the end");
    assert_eq!(last["type"], "response.completed");
    assert_eq!(last["response"]["output"][0]["content"][0]["text"], "Hello you");
    assert_eq!(last["response"]["usage"]["total_tokens"], 5);
    assert_eq!(last["response"]["created_at"], 5);
}

#[test]
fn a_stream_ends_once() {
    let mut events = story(&["a"]);
    events.push(r#"{"type":"ping"}"#.to_string());
    let (out, over) = run(&events, 1 << 20, &State::default());
    assert!(over);
    assert_eq!(out.last().expect("the end")["type"], "response.completed");
    // What cannot come next ends the stream with an error, and nothing follows it.
    let mut events = story(&["a"]);
    events.remove(1);
    let (out, over) = run(&events, 1 << 20, &State::default());
    assert!(over);
    assert_eq!(out.last().expect("the end")["type"], "error");
    assert_eq!(out.iter().filter(|e| e["type"] == "error").count(), 1);
}

#[test]
fn a_stream_keeps_no_more_than_it_may() {
    let long = "x".repeat(300);
    let (out, over) = run(&story(&[&long, &long]), 500, &State::default());
    assert!(over);
    assert_eq!(out.last().expect("the end")["type"], "error");
    let (out, _) = run(&story(&[&long, &long]), 5000, &State::default());
    assert_eq!(out.last().expect("the end")["type"], "response.completed");
}

#[test]
fn what_a_model_has_used_only_grows() {
    let mut events = story(&["a"]);
    events[0] = events[0].replace(r#""output_tokens":0"#, r#""output_tokens":4"#);
    let (out, _) = run(&events, 1 << 20, &State::default());
    assert_eq!(out.last().expect("the end")["type"], "error");
}

#[test]
fn texts_are_rewritten_and_nothing_else() {
    let answer = br#"{"id":"m1","type":"message","role":"assistant","model":"up","stop_reason":"end_turn",
        "content":[{"type":"text","text":"a"},{"type":"text","text":"b"}],
        "usage":{"input_tokens":1,"output_tokens":1}}"#;
    let mut got = translate_response_at(answer, "m", &State::default(), 4096, 7).unwrap();
    let before: Value = serde_json::from_slice(&got.serialize()).unwrap();
    got.visit_text_mut(|text: &str| text.to_uppercase());
    let after: Value = serde_json::from_slice(&got.serialize()).unwrap();
    let rewritten = before.to_string().replace(r#""text":"a""#, r#""text":"A""#);
    let rewritten = rewritten.replace(r#""text":"b""#, r#""text":"B""#);
    assert_eq!(after, j(&rewritten));
    assert_ne!(after, before);
}

#[test]
fn a_call_keeps_its_id() {
    let (names, state) = declared();
    let inputs = [r#"{"a":1}"#, r#"{"input":"typed"}"#];
    for (name, input) in names.iter().zip(inputs) {
        let mut events = story(&[]);
        events[1] = format!(
            r#"{{"type":"content_block_start","index":0,"content_block":{{"type":"tool_use","id":"call","name":"{name}","input":{{}}}}}}"#
        );
        let piece = Value::String(input.to_string());
        events.insert(
            2,
            format!(
                r#"{{"type":"content_block_delta","index":0,"delta":{{"type":"input_json_delta","partial_json":{piece}}}}}"#
            ),
        );
        events[4] = events[4].replace("end_turn", "tool_use");
        let (out, over) = run(&events, 1 << 20, &state);
        assert!(over);
        let item = |kind: &str| {
            let event = out.iter().find(|e| e["type"] == kind);
            event.unwrap_or_else(|| panic!("{kind} in {out:?}"))["item"].clone()
        };
        let (added, done) = (
            item("response.output_item.added"),
            item("response.output_item.done"),
        );
        assert_eq!(added["id"], done["id"]);
        let answer = format!(
            r#"{{"id":"m1","type":"message","role":"assistant","model":"up","stop_reason":"tool_use",
                "content":[{{"type":"tool_use","id":"call","name":"{name}","input":{input}}}],
                "usage":{{"input_tokens":2,"output_tokens":3}}}}"#
        );
        let got = translate_response_at(answer.as_bytes(), "m", &state, 1 << 20, 5).unwrap();
        let v: Value = serde_json::from_slice(&got.serialize()).unwrap();
        assert_eq!(v["output"][0], done);
        let last = out.last().expect("the end");
        assert_eq!(last["response"], v);
    }
}

#[test]
fn a_streamed_answer_is_the_whole_answer() {
    let (names, state) = declared();
    let start = |index: usize, block: &str| {
        format!(r#"{{"type":"content_block_start","index":{index},"content_block":{block}}}"#)
    };
    let delta = |index: usize, delta: &str| {
        format!(r#"{{"type":"content_block_delta","index":{index},"delta":{delta}}}"#)
    };
    let stop = |index: usize| format!(r#"{{"type":"content_block_stop","index":{index}}}"#);
    let tool = &names[0];
    let mut events = story(&["Hel", "lo"]);
    let rest = events.split_off(5);
    events.extend([
        start(1, r#"{"type":"thinking","thinking":"","signature":""}"#),
        delta(1, r#"{"type":"thinking_delta","thinking":"hm"}"#),
        delta(1, r#"{"type":"signature_delta","signature":"s"}"#),
        stop(1),
        start(2, r#"{"type":"text","text":""}"#),
        delta(2, r#"{"type":"text_delta","text":"you"}"#),
        stop(2),
        start(3, &format!(r#"{{"type":"tool_use","id":"c","name":"{tool}","input":{{}}}}"#)),
        delta(3, r#"{"type":"input_json_delta","partial_json":"{\"a\":"}"#),
        delta(3, r#"{"type":"input_json_delta","partial_json":"[1, 2]}"}"#),
        stop(3),
        start(4, r#"{"type":"text","text":""}"#),
        stop(4),
    ]);
    events.extend(rest.iter().map(|e| e.replace("end_turn", "tool_use")));
    let (out, over) = run(&events, 1 << 20, &state);
    assert!(over);
    let answer = format!(
        r#"{{"id":"m1","type":"message","role":"assistant","model":"up","stop_reason":"tool_use",
            "content":[{{"type":"text","text":"Hello"}},
                {{"type":"thinking","thinking":"hm","signature":"s"}},
                {{"type":"text","text":"you"}},
                {{"type":"tool_use","id":"c","name":"{tool}","input":{{"a":[1,2]}}}},
                {{"type":"text","text":""}}],
            "usage":{{"input_tokens":2,"output_tokens":3}}}}"#
    );
    let whole = translate_response_at(answer.as_bytes(), "m", &state, 1 << 20, 5).unwrap();
    let whole: Value = serde_json::from_slice(&whole.serialize()).unwrap();
    assert_eq!(whole["output"].as_array().unwrap().len(), 3);
    assert_eq!(out.last().expect("the end")["response"], whole);
}

#[test]
fn pings_and_thoughts_are_not_told() {
    let thinking = |thought: &str, signature: &str, data: &str| {
        let mut events = story(&["Hel", "lo"]);
        let rest = events.split_off(5);
        let delta = |kind: &str, name: &str, text: &str| {
            format!(
                r#"{{"type":"content_block_delta","index":1,"delta":{{"type":"{kind}","{name}":"{text}"}}}}"#
            )
        };
        events.extend([
            r#"{"type":"content_block_start","index":1,"content_block":{"type":"thinking","thinking":"","signature":""}}"#.to_string(),
            delta("thinking_delta", "thinking", thought),
            delta("signature_delta", "signature", signature),
            r#"{"type":"content_block_stop","index":1}"#.to_string(),
            format!(
                r#"{{"type":"content_block_start","index":2,"content_block":{{"type":"redacted_thinking","data":"{data}"}}}}"#
            ),
            r#"{"type":"content_block_stop","index":2}"#.to_string(),
        ]);
        events.extend(rest);
        events
    };
    let undated = |events: Vec<Value>| {
        let undate = |mut event: Value| {
            if let Some(created_at) = event.pointer_mut("/response/created_at") {
                *created_at = Value::Null;
            }
            event
        };
        events.into_iter().map(undate).collect::<Vec<Value>>()
    };
    let tools = State::default();
    let (plain, over) = run(&thinking("hm", "s", "d"), 1 << 20, &tools);
    assert!(over);
    let mut pinged = vec![r#"{"type":"ping"}"#.to_string()];
    for event in thinking("quite another thought", "other", "") {
        pinged.push(event);
        pinged.push(r#"{"type":"ping"}"#.to_string());
    }
    let (other, over) = run_at(&pinged, 1 << 20, &tools, 99);
    assert!(over);
    assert_ne!(plain, other);
    assert_eq!(undated(plain), undated(other));
    let (unsigned, _) = run(&thinking("hm", "", "d"), 1 << 20, &tools);
    assert_eq!(unsigned.last().expect("the end")["type"], "error");
}
