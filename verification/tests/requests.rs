//! What requests come to, one error at a time, and what holds of every request.
use copilot_bridge::error::{AIError, Unsupported, Unsupported as U};
use copilot_bridge::json::Json;
use copilot_bridge::request::{translate, Request, Temperature};
use copilot_bridge::tools::State;
use copilot_bridge::toplevel::typed_projection;
use serde_json::Value;

fn request(text: &str) -> Request {
    let raw = Json::parse(text.as_bytes()).expect("a JSON value");
    let value: Value = serde_json::from_str(text).expect("a JSON value");
    Request {
        raw,
        typed: true,
        model: value["model"].as_str().map(String::from),
        stream: value["stream"].as_bool(),
        max_output_tokens: value["max_output_tokens"].as_u64(),
        temperature: value.get("temperature").map(|t| Temperature {
            number: Json::parse(t.to_string().as_bytes()).expect("a number"),
            in_unit_range: (0.0..=1.0).contains(&t.as_f64().expect("a number")),
        }),
        top_p: value
            .get("top_p")
            .map(|p| Json::parse(p.to_string().as_bytes()).expect("a number")),
    }
}

fn body(text: &str) -> (String, State) {
    let (body, state) = translate(&request(text)).expect("the request should be taken");
    (String::from_utf8(body).expect("UTF-8"), state)
}

fn value(text: &str) -> Value {
    serde_json::from_str(&body(text).0).expect("a JSON value")
}

fn refusal(text: &str) -> Unsupported {
    match translate(&request(text)) {
        Err(AIError::UnsupportedConversion(what)) => what,
        Err(other) => panic!("{other:?} for {text}"),
        Ok((body, _)) => panic!("{} for {text}", String::from_utf8_lossy(&body)),
    }
}

#[test]
fn a_request_is_written_field_by_field() {
    let (written, state) = body(
        r#"{"model":"m","input":"hi","instructions":"be brief","store":false,"stream":true,
            "temperature":0.25,"top_p":0.5,"max_output_tokens":7,"user":"u","safety_identifier":"s",
            "reasoning":{"effort":"low"}}"#,
    );
    assert_eq!(
        serde_json::from_str::<Value>(&written).unwrap(),
        serde_json::from_str::<Value>(
            r#"{"messages":[{"role":"user","content":[{"type":"text","text":"hi"}]}],
                "system":[{"type":"text","text":"be brief"}],
                "model":"m","max_tokens":7,"stream":true,"temperature":0.25,"top_p":0.5,
                "metadata":{"user_id":"s"},"thinking":{"type":"adaptive"},
                "output_config":{"effort":"low"}}"#
        )
        .unwrap()
    );
    assert_eq!(state.len(), 0);
}

#[test]
fn what_a_request_leaves_out_has_a_default() {
    let v = value(r#"{"input":"hi","store":false}"#);
    assert_eq!(v["max_tokens"], 4096);
    assert!(v.get("stream").is_none());
    assert_eq!(v["model"], "");
    assert!(v.get("thinking").is_none());
    assert!(v.get("metadata").is_none());
    let v = value(r#"{"input":"hi","store":false,"reasoning":{"effort":"none"},"user":"u"}"#);
    assert_eq!(v["thinking"]["type"], "disabled");
    assert_eq!(v["metadata"]["user_id"], "u");
}

#[test]
fn each_error_of_a_request_comes_of_its_cause() {
    let with = |more: &str| format!(r#"{{"input":"hi","store":false,{more}}}"#);
    for (more, due) in [
        (r#""future":1"#, U::RequestField),
        (r#""user":1"#, U::UserIdentifier),
        (r#""safety_identifier":[]"#, U::UserIdentifier),
        (r#""previous_response_id":"r""#, U::PreviousResponseId),
        (r#""conversation":"c""#, U::Conversation),
        (r#""prompt":{"id":"p"}"#, U::Prompt),
        (r#""background":true"#, U::Background),
        (r#""background":null"#, U::Background),
        (r#""stream_options":null"#, U::StreamOptions),
        (r#""stream_options":{"include_obfuscation":true}"#, U::StreamOptions),
        (r#""logprobs":true"#, U::Logprobs),
        (r#""logprobs":1"#, U::LogprobsShape),
        (r#""max_tool_calls":1"#, U::MaxToolCalls),
        (r#""service_tier":"auto""#, U::ServiceTier),
        (r#""top_logprobs":2"#, U::TopLogprobs),
        (r#""truncation":"auto""#, U::Truncation),
        (r#""text":{"future":null}"#, U::TextOption),
        (r#""text":{"verbosity":"low"}"#, U::TextVerbosity),
        (r#""vendor_extensions":{"a":1}"#, U::VendorExtensions),
        (r#""reasoning":null"#, U::Reasoning),
        (r#""reasoning":{"effort":"tiny"}"#, U::Reasoning),
        (r#""reasoning":{"summary":"long"}"#, U::Reasoning),
        (r#""include":["a"]"#, U::IncludeList),
        (r#""temperature":1.5"#, U::Temperature),
        (r#""tools":{}"#, U::ToolDeclaration),
        (r#""tools":[{"type":"function"}]"#, U::ToolDeclaration),
        (r#""tools":[{"type":"web_search"}]"#, U::ToolDeclaration),
        (
            r#""tools":[{"type":"web_search","external_web_access":false}]"#,
            U::HostedWebSearch,
        ),
        (r#""tool_choice":"required""#, U::ToolChoice),
        (r#""tool_choice":{"type":"function","name":"f"}"#, U::ToolChoice),
        (r#""text":{"format":"json"}"#, U::OutputFormat),
        (r#""text":{"format":{"type":"json_object"}}"#, U::OutputFormat),
        (r#""text":{"format":{"type":"text","a":1}}"#, U::TextFormatOption),
        (r#""text":{"format":{"type":"json_schema","schema":{}}}"#, U::SchemaStrict),
        (r#""text":{"format":{"type":"json_schema","strict":true}}"#, U::SchemaMissing),
        (r#""instructions":"""#, U::InstructionsEmpty),
    ] {
        assert_eq!(refusal(&with(more)), due, "{more}");
    }
    assert_eq!(refusal("[]"), U::RequestShape);
    assert_eq!(refusal(r#"{"input":"hi"}"#), U::StoreRequired);
    assert_eq!(refusal(r#"{"input":"hi","store":true}"#), U::StoreRequired);
    assert_eq!(refusal(r#"{"store":false}"#), U::InputRequired);
    let mut untyped = request(r#"{"input":"hi","store":false}"#);
    untyped.typed = false;
    assert_eq!(
        translate(&untyped).err(),
        Some(AIError::UnsupportedConversion(U::RequestField))
    );
}

#[test]
fn each_error_of_a_conversation_comes_of_its_cause() {
    let input = |items: &str| format!(r#"{{"input":{items},"store":false}}"#);
    for (items, due) in [
        (r#""""#, U::InputEmpty),
        (r#"[]"#, U::InputEmpty),
        (r#"1"#, U::Input),
        (r#"["a"]"#, U::InputItem),
        (r#"[{"type":"future"}]"#, U::InputItem),
        (r#"[{"type":"reasoning"}]"#, U::ReasoningHistory),
        (r#"[{"id":1}]"#, U::MessageId),
        (r#"[{"type":"message"}]"#, U::MessageRoleRequired),
        (r#"[{"role":"user","phase":"commentary"}]"#, U::InputItemField),
        (r#"[{"role":"user"}]"#, U::MessageContentRequired),
        (
            r#"[{"role":"user","content":"a"},{"role":"system","content":"b"}]"#,
            U::SystemOrder,
        ),
        (r#"[{"role":"tool","content":"a"}]"#, U::MessageRole),
        (r#"[{"type":"function_call"}]"#, U::ToolHistory),
        (
            r#"[{"type":"function_call_output","call_id":"c","output":"o"}]"#,
            U::ToolHistory,
        ),
    ] {
        assert_eq!(refusal(&input(items)), due, "{items}");
    }
    let assistant = |more: &str| input(&format!(r#"[{{"role":"assistant",{more}}}]"#));
    for (more, due) in [
        (r#""content":"a","phase":"p""#, U::AssistantPhase),
        (r#""content":"a","status":"in_progress""#, U::AssistantStatus),
        (r#""content":"""#, U::AssistantContentEmpty),
        (r#""content":1"#, U::AssistantContent),
        (r#""content":[{"type":"input_text","text":"a"}]"#, U::AssistantContent),
        (
            r#""content":[{"type":"output_text","text":"a","b":1}]"#,
            U::AssistantContentField,
        ),
        (
            r#""content":[{"type":"output_text","text":"a","annotations":[1]}]"#,
            U::AssistantAnnotations,
        ),
        (
            r#""content":[{"type":"output_text","text":"a","logprobs":[1]}]"#,
            U::AssistantLogprobs,
        ),
        (r#""content":[{"type":"output_text","text":""}]"#, U::AssistantText),
        (r#""content":[{"type":"refusal"}]"#, U::AssistantRefusal),
        (r#""content":[{"type":"refusal","refusal":""}]"#, U::EmptyRefusal),
    ] {
        assert_eq!(refusal(&assistant(more)), due, "{more}");
    }
    let user = |part: &str| input(&format!(r#"[{{"role":"user","content":[{part}]}}]"#));
    for (part, due) in [
        (r#""#, U::ContentEmpty),
        (r#"1"#, U::Content),
        (r#"{"type":"output_text","text":"a"}"#, U::Content),
        (r#"{"type":"input_text","text":"a","b":1}"#, U::ContentField),
        (r#"{"type":"input_text","text":""}"#, U::TextRequired),
        (r#"{"type":"input_image","file_id":"f"}"#, U::Image),
        (r#"{"type":"input_image","detail":"high"}"#, U::Image),
        (r#"{"type":"input_image"}"#, U::ImageUrlRequired),
        (
            r#"{"type":"input_image","image_url":"data:image/bmp;base64,YQ=="}"#,
            U::ImageMediaType,
        ),
        (r#"{"type":"input_image","image_url":"/a.png"}"#, U::ImageUrl),
        (
            r#"{"type":"input_image","image_url":"data:image/png;base64,Y*=="}"#,
            U::ImageUrl,
        ),
        (r#"{"type":"input_file","file_id":"f"}"#, U::File),
        (r#"{"type":"input_file","detail":"high"}"#, U::FileDetail),
        (r#"{"type":"input_file","filename":1}"#, U::FileName),
        (r#"{"type":"input_file","file_url":"ftp://h/f"}"#, U::FileUrl),
        (r#"{"type":"input_file"}"#, U::FileSource),
        (r#"{"type":"input_file","file_data":"YQ=="}"#, U::FileData),
        (
            r#"{"type":"input_file","file_data":"data:text/plain;base64,/w=="}"#,
            U::FileUtf8,
        ),
        (
            r#"{"type":"input_file","file_data":"data:text/html;base64,YQ=="}"#,
            U::FileMediaType,
        ),
    ] {
        assert_eq!(refusal(&user(part)), due, "{part}");
    }
}

#[test]
fn media_are_passed_on_as_they_came() {
    let v = value(
        r#"{"store":false,"input":[{"role":"user","content":[
            {"type":"input_image","image_url":"data:image/png;base64,aGk="},
            {"type":"input_image","image_url":"https://h.test/a.png","detail":"auto"},
            {"type":"input_file","file_data":"data:text/plain;base64,aMOkdHRl","filename":"f"},
            {"type":"input_file","file_data":"data:application/pdf;base64,aGk=","filename":""},
            {"type":"input_file","file_url":"http://h.test/f","detail":"low"}]}]}"#,
    );
    assert_eq!(
        v["messages"][0]["content"],
        serde_json::from_str::<Value>(
            r#"[{"type":"image","source":{"type":"base64","media_type":"image/png","data":"aGk="}},
                {"type":"image","source":{"type":"url","url":"https://h.test/a.png"}},
                {"type":"document","title":"f",
                 "source":{"type":"text","media_type":"text/plain","data":"hätte"}},
                {"type":"document",
                 "source":{"type":"base64","media_type":"application/pdf","data":"aGk="}},
                {"type":"document","source":{"type":"url","url":"http://h.test/f"}}]"#
        )
        .unwrap()
    );
}

#[test]
fn roles_take_turns() {
    let v = value(
        r#"{"store":false,"input":[{"role":"developer","content":"d"},
            {"role":"user","content":"a"},{"role":"user","content":"b"},
            {"role":"assistant","content":"c"},{"role":"assistant","content":"d"},
            {"role":"user","content":"e"}]}"#,
    );
    let messages = v["messages"].as_array().unwrap();
    assert_eq!(messages.len(), 3);
    for pair in messages.windows(2) {
        assert_ne!(pair[0]["role"], pair[1]["role"]);
    }
    assert_eq!(messages[0]["content"].as_array().unwrap().len(), 2);
    assert_eq!(messages[1]["content"].as_array().unwrap().len(), 2);
}

const TOOLS: &str = r#"[
    {"type":"function","name":"f","parameters":{"type":"object"},"strict":false},
    {"type":"custom","name":"c","format":{"type":"text"}},
    {"type":"local_shell"},
    {"type":"namespace","name":"n","description":"of n","tools":[
        {"type":"function","name":"g","parameters":{"type":"object"},"strict":false}]},
    {"type":"namespace","name":"m","description":"of m","tools":[
        {"type":"function","name":"g","parameters":{"type":"object"},"strict":false}]}]"#;

#[test]
fn every_tool_that_is_declared_is_known() {
    let (written, state) = body(&format!(r#"{{"input":"hi","store":false,"tools":{TOOLS}}}"#));
    let v: Value = serde_json::from_str(&written).unwrap();
    let tools = v["tools"].as_array().unwrap();
    assert_eq!(tools.len(), 5);
    assert_eq!(state.len(), 5);
    for tool in tools {
        assert!(state.get(tool["name"].as_str().unwrap()).is_some());
    }
}

#[test]
fn a_choice_needs_one_tool_that_it_can_mean() {
    let with = |choice: &str| {
        format!(r#"{{"input":"hi","store":false,"tools":{TOOLS},"tool_choice":{choice}}}"#)
    };
    let v = value(&with(r#"{"type":"function","name":"f"}"#));
    assert_eq!(v["tool_choice"]["type"], "tool");
    assert_eq!(v["tool_choice"]["name"], "f");
    let v = value(&with(r#"{"type":"custom","name":"c"}"#));
    assert_eq!(v["tool_choice"]["type"], "tool");
    let v = value(&with(r#"{"type":"local_shell"}"#));
    assert_eq!(v["tool_choice"]["type"], "tool");
    // Two namespaces have a function of this name.
    assert_eq!(
        refusal(&with(r#"{"type":"function","name":"g"}"#)),
        Unsupported::ToolChoice
    );
    assert_eq!(refusal(&with(r#"{"type":"shell"}"#)), Unsupported::ToolChoice);
}

#[test]
fn hints_change_nothing() {
    let plain = body(r#"{"model":"m","input":"hi","store":false}"#).0;
    for hint in [
        r#""metadata":{"a":"b"}"#,
        r#""client_metadata":{"a":"b"}"#,
        r#""prompt_cache_key":"k""#,
        r#""prompt_cache_retention":"24h""#,
        r#""future":{"a":[false,null,""]}"#,
    ] {
        let hinted = body(&format!(
            r#"{{"model":"m","input":"hi","store":false,{hint}}}"#
        ));
        assert_eq!(hinted.0, plain, "{hint}");
    }
}

#[test]
fn the_projection_keeps_what_is_read_by_type() {
    let raw = Json::parse(
        br#"{"model":"m","future":1,"metadata":{},"reasoning":{},"input":"hi","tools":[1],"user":"u"}"#,
    )
    .unwrap();
    let projected: Value = serde_json::from_slice(&typed_projection(&raw).to_bytes()).unwrap();
    assert_eq!(
        projected,
        serde_json::from_str::<Value>(
            r#"{"model":"m","user":"u","input":[],"tools":[],"tool_choice":null}"#
        )
        .unwrap()
    );
}

#[test]
fn references_move_with_the_schema_they_are_in() {
    let v = value(
        r##"{"input":"hi","store":false,"tools":[
            {"type":"namespace","name":"n","description":"d","tools":[
             {"type":"function","name":"g","strict":false,"parameters":{"type":"object",
              "properties":{"a":{"$ref":"#/$defs/x"},"$ref":{"type":"string"}},
              "default":{"$ref":"#/kept"},
              "$defs":{"x":{"type":"object"},
               "y":{"$id":"https://h.test/y","items":{"$ref":"#/z"}}}}}]}]}"##,
    );
    let schema = &v["tools"][0]["input_schema"]["properties"]["arguments"];
    assert_eq!(
        schema["properties"]["a"]["$ref"],
        "#/properties/arguments/$defs/x"
    );
    assert_eq!(schema["properties"]["$ref"]["type"], "string");
    assert_eq!(schema["default"]["$ref"], "#/kept");
    assert_eq!(schema["$defs"]["y"]["items"]["$ref"], "#/z");
}

#[test]
fn numbers_are_kept_as_they_are_written() {
    let v = body(
        r#"{"input":"hi","store":false,"tools":[{"type":"function","name":"f","strict":false,
            "parameters":{"type":"object","maximum":18446744073709551615,"minimum":-2,"x":1.5e300}}]}"#,
    )
    .0;
    assert!(v.contains("18446744073709551615"), "{v}");
    assert!(v.contains("-2"), "{v}");
    assert!(v.contains("1.5e300") || v.contains("1.5e+300"), "{v}");
}
