//! What a request asks for besides its conversation and its tools.
use vstd::prelude::*;

use crate::error::{refuse, unsupported, AIError, Unsupported};
use crate::json::{
    absent_or_false, effect, effectful_unknown, field, has_effect, has_effectful_unknown_field, off,
    only, put, text_field, view_in, Fields, Json, JsonView, Object,
};
use crate::messages::ThinkingEffort;
use crate::request_types::{effort_name, json_in};
use crate::text::{is_named, named, same};

verus! {

broadcast use crate::json::lemma_array_view;

/// The fields that a request may have.
pub open spec fn request_fields() -> Seq<&'static str> {
    seq![
        "background",
        "client_metadata",
        "conversation",
        "include",
        "input",
        "instructions",
        "logprobs",
        "max_output_tokens",
        "max_tool_calls",
        "metadata",
        "model",
        "parallel_tool_calls",
        "previous_response_id",
        "prompt",
        "prompt_cache_key",
        "prompt_cache_retention",
        "reasoning",
        "safety_identifier",
        "service_tier",
        "store",
        "stream",
        "stream_options",
        "temperature",
        "text",
        "tool_choice",
        "tools",
        "top_logprobs",
        "top_p",
        "truncation",
        "user",
        "vendor_extensions",
    ]
}

fn known_fields() -> (r: [&'static str; 31])
    ensures
        r@ == request_fields(),
{
    let known = [
        "background",
        "client_metadata",
        "conversation",
        "include",
        "input",
        "instructions",
        "logprobs",
        "max_output_tokens",
        "max_tool_calls",
        "metadata",
        "model",
        "parallel_tool_calls",
        "previous_response_id",
        "prompt",
        "prompt_cache_key",
        "prompt_cache_retention",
        "reasoning",
        "safety_identifier",
        "service_tier",
        "store",
        "stream",
        "stream_options",
        "temperature",
        "text",
        "tool_choice",
        "tools",
        "top_logprobs",
        "top_p",
        "truncation",
        "user",
        "vendor_extensions",
    ];
    assert(known@ == request_fields());
    known
}

/// The schema that the answer is to follow, where one is asked for; or why what is asked for
/// cannot be had.
pub open spec fn schema_asked(raw: JsonView) -> Result<Option<JsonView>, AIError> {
    match raw.get("text"@) {
        Some(JsonView::Object(text)) => match field(text, "format"@) {
            Some(format) => if !effect(format) {
                Ok(None)
            } else {
                match format {
                    JsonView::Object(f) => format_asked(f),
                    _ => Err(unsupported(Unsupported::OutputFormat)),
                }
            },
            None => Ok(None),
        },
        _ => Ok(None),
    }
}

/// The schema of a format, where it has one; or why the format cannot be had.
pub open spec fn format_asked(f: Fields) -> Result<Option<JsonView>, AIError> {
    let kind = text_field(f, "type"@);
    if kind == Some("text"@) {
        if only(f, seq!["type"]) {
            Ok(None)
        } else {
            Err(unsupported(Unsupported::TextFormatOption))
        }
    } else if kind == Some("json_schema"@) {
        if !only(f, seq!["type", "name", "description", "schema", "strict"]) {
            Err(unsupported(Unsupported::TextFormatOption))
        } else if field(f, "strict"@) != Some(JsonView::Bool(true)) {
            Err(unsupported(Unsupported::SchemaStrict))
        } else {
            match field(f, "schema"@) {
                Some(schema) => Ok(Some(described(schema, text_field(f, "description"@)))),
                None => Err(unsupported(Unsupported::SchemaMissing)),
            }
        }
    } else {
        Err(unsupported(Unsupported::OutputFormat))
    }
}

/// A schema with a description, unless it has its own or is no object.
pub open spec fn described(schema: JsonView, description: Option<Seq<char>>) -> JsonView {
    match (schema, description) {
        (JsonView::Object(o), Some(text)) => if field(o, "description"@) is None {
            schema.with("description"@, JsonView::Text(text))
        } else {
            schema
        },
        _ => schema,
    }
}

fn describe(schema: &Json, description: Option<&str>) -> (r: Json)
    ensures
        r@ == described(schema@, crate::text::text_of(description)),
{
    match (schema, description) {
        (Json::Object(object), Some(text)) => if !object.has("description") {
            schema.copy().with("description", Json::text(text))
        } else {
            schema.copy()
        },
        _ => schema.copy(),
    }
}

fn read_format(format: &Object) -> (r: Result<Option<Json>, AIError>)
    ensures
        match format_asked(format@) {
            Ok(schema) => r is Ok && json_in(r->Ok_0) == schema,
            Err(e) => r is Err && r->Err_0 == e,
        },
{
    let kind = match format.text("type") {
        Some(kind) => kind,
        None => return Err(refuse(Unsupported::OutputFormat)),
    };
    if same(kind, "text") {
        let known = ["type"];
        assert(known@ == seq!["type"]);
        if format.has_unknown_field(&known) {
            Err(refuse(Unsupported::TextFormatOption))
        } else {
            Ok(None)
        }
    } else if same(kind, "json_schema") {
        if format.has_unknown_field(&["type", "name", "description", "schema", "strict"]) {
            return Err(refuse(Unsupported::TextFormatOption));
        }
        match format.get("strict") {
            Some(Json::Bool(true)) => {},
            _ => return Err(refuse(Unsupported::SchemaStrict)),
        }
        match format.get("schema") {
            Some(schema) => Ok(Some(describe(schema, format.text("description")))),
            None => Err(refuse(Unsupported::SchemaMissing)),
        }
    } else {
        Err(refuse(Unsupported::OutputFormat))
    }
}

/// The schema that the answer is to follow, where one is asked for.
pub fn responses_output_format(raw: &Json) -> (r: Result<Option<Json>, AIError>)
    ensures
        match schema_asked(raw@) {
            Ok(schema) => r is Ok && json_in(r->Ok_0) == schema,
            Err(e) => r is Err && r->Err_0 == e,
        },
{
    let text = match raw.get("text") {
        Some(Json::Object(text)) => text,
        _ => return Ok(None),
    };
    let format = match text.get("format") {
        Some(format) => format,
        None => return Ok(None),
    };
    if !has_effect(format) {
        return Ok(None);
    }
    match format {
        Json::Object(format) => read_format(format),
        _ => Err(refuse(Unsupported::OutputFormat)),
    }
}

/// The effort of a name.
pub open spec fn effort_named(name: Seq<char>) -> Option<ThinkingEffort> {
    if name == effort_name(ThinkingEffort::Low) {
        Some(ThinkingEffort::Low)
    } else if name == effort_name(ThinkingEffort::Medium) {
        Some(ThinkingEffort::Medium)
    } else if name == effort_name(ThinkingEffort::High) {
        Some(ThinkingEffort::High)
    } else if name == effort_name(ThinkingEffort::XHigh) {
        Some(ThinkingEffort::XHigh)
    } else if name == effort_name(ThinkingEffort::Max) {
        Some(ThinkingEffort::Max)
    } else {
        None
    }
}

fn parse_effort(name: &str) -> (r: Option<ThinkingEffort>)
    ensures
        r == effort_named(name@),
{
    if same(name, "low") {
        Some(ThinkingEffort::Low)
    } else if same(name, "medium") {
        Some(ThinkingEffort::Medium)
    } else if same(name, "high") {
        Some(ThinkingEffort::High)
    } else if same(name, "xhigh") {
        Some(ThinkingEffort::XHigh)
    } else if same(name, "max") {
        Some(ThinkingEffort::Max)
    } else {
        None
    }
}

/// Whether a summary of the reasoning is one that may be asked for, if any is.
pub open spec fn summary_ok(v: Option<JsonView>) -> bool {
    match v {
        None => true,
        Some(JsonView::Text(s)) => s == "auto"@ || s == "concise"@ || s == "detailed"@,
        Some(_) => false,
    }
}

/// The effort that a request asks for, where it asks for any; or why it cannot be had.
pub open spec fn effort_asked(o: Fields) -> Result<Option<ThinkingEffort>, AIError> {
    match field(o, "reasoning"@) {
        None => Ok(None),
        Some(JsonView::Object(r)) => if effectful_unknown(r, seq!["effort", "summary"])
            || !summary_ok(field(r, "summary"@)) {
            Err(unsupported(Unsupported::Reasoning))
        } else {
            match field(r, "effort"@) {
                None => Ok(None),
                Some(JsonView::Text(name)) => if name == "none"@ {
                    Ok(None)
                } else {
                    match effort_named(name) {
                        Some(effort) => Ok(Some(effort)),
                        None => Err(unsupported(Unsupported::Reasoning)),
                    }
                },
                Some(_) => Err(unsupported(Unsupported::Reasoning)),
            }
        },
        Some(_) => Err(unsupported(Unsupported::Reasoning)),
    }
}

/// The effort that a request asks for, where it asks for any.
pub fn responses_reasoning_effort(object: &Object) -> (r: Result<Option<ThinkingEffort>, AIError>)
    ensures
        r == effort_asked(object@),
{
    let reasoning = match object.get("reasoning") {
        None => return Ok(None),
        Some(Json::Object(reasoning)) => reasoning,
        Some(_) => return Err(refuse(Unsupported::Reasoning)),
    };
    let summary_fits = match reasoning.get("summary") {
        None => true,
        Some(Json::Text(s)) => same(s.as_str(), "auto") || same(s.as_str(), "concise") || same(
            s.as_str(),
            "detailed",
        ),
        Some(_) => false,
    };
    if has_effectful_unknown_field(reasoning, &["effort", "summary"]) || !summary_fits {
        return Err(refuse(Unsupported::Reasoning));
    }
    match reasoning.get("effort") {
        None => Ok(None),
        Some(Json::Text(name)) => if same(name.as_str(), "none") {
            Ok(None)
        } else {
            match parse_effort(name.as_str()) {
                Some(effort) => Ok(Some(effort)),
                None => Err(refuse(Unsupported::Reasoning)),
            }
        },
        Some(_) => Err(refuse(Unsupported::Reasoning)),
    }
}

/// Whether a field does something.
pub open spec fn acts(o: Fields, name: Seq<char>) -> bool {
    field(o, name) matches Some(v) && effect(v)
}

fn does_act(object: &Object, name: &str) -> (r: bool)
    ensures
        r == acts(object@, name@),
{
    match object.get(name) {
        Some(v) => has_effect(v),
        None => false,
    }
}

/// Whether a field is a string, null or absent.
pub open spec fn maybe_string(v: Option<JsonView>) -> bool {
    v is None || v->0 is Null || v->0 is Text
}

fn is_maybe_string(v: Option<&Json>) -> (r: bool)
    ensures
        r == maybe_string(view_in(v)),
{
    match v {
        None | Some(Json::Null) | Some(Json::Text(_)) => true,
        Some(_) => false,
    }
}

/// Whether the options of a stream are those that can be had.
pub open spec fn stream_options_ok(v: Option<JsonView>) -> bool {
    match v {
        None => true,
        Some(JsonView::Object(options)) => options.len() == 1 && field(
            options,
            "include_obfuscation"@,
        ) == Some(JsonView::Bool(false)),
        Some(_) => false,
    }
}

/// Whether a request asks for nothing that is not put out, or for what it may ask for and not get.
pub open spec fn includes_ok(v: Option<JsonView>) -> bool {
    match v {
        None | Some(JsonView::Null) => true,
        Some(JsonView::Array(items)) => items.len() == 0 || (items.len() == 1 && items[0]
            == JsonView::Text("reasoning.encrypted_content"@)),
        Some(_) => false,
    }
}

/// The fields of the text options of a request, where it has any.
pub open spec fn text_options(o: Fields) -> Option<Fields> {
    match field(o, "text"@) {
        Some(JsonView::Object(text)) => Some(text),
        _ => None,
    }
}

/// What keeps the state that a request needs from being had, if anything does.
pub open spec fn state_fault(o: Fields) -> Option<Unsupported> {
    if effectful_unknown(o, request_fields()) {
        Some(Unsupported::RequestField)
    } else if !maybe_string(field(o, "user"@)) || !maybe_string(field(o, "safety_identifier"@)) {
        Some(Unsupported::UserIdentifier)
    } else if field(o, "store"@) != Some(JsonView::Bool(false)) {
        Some(Unsupported::StoreRequired)
    } else if acts(o, "previous_response_id"@) {
        Some(Unsupported::PreviousResponseId)
    } else if acts(o, "conversation"@) {
        Some(Unsupported::Conversation)
    } else if acts(o, "prompt"@) {
        Some(Unsupported::Prompt)
    } else if !off(field(o, "background"@)) {
        Some(Unsupported::Background)
    } else {
        None
    }
}

/// What keeps the options of a request from being had, if anything does.
pub open spec fn options_fault(o: Fields) -> Option<Unsupported> {
    let logprobs = field(o, "logprobs"@);
    if !stream_options_ok(field(o, "stream_options"@)) {
        Some(Unsupported::StreamOptions)
    } else if logprobs == Some(JsonView::Bool(true)) {
        Some(Unsupported::Logprobs)
    } else if !(logprobs is None || logprobs == Some(JsonView::Null) || logprobs == Some(
        JsonView::Bool(false),
    )) {
        Some(Unsupported::LogprobsShape)
    } else if acts(o, "max_tool_calls"@) {
        Some(Unsupported::MaxToolCalls)
    } else if acts(o, "service_tier"@) {
        Some(Unsupported::ServiceTier)
    } else if acts(o, "top_logprobs"@) {
        Some(Unsupported::TopLogprobs)
    } else if !(field(o, "truncation"@) is None || text_field(o, "truncation"@) == Some(
        "disabled"@,
    )) {
        Some(Unsupported::Truncation)
    } else if text_options(o) matches Some(text) && !only(text, seq!["format", "verbosity"]) {
        Some(Unsupported::TextOption)
    } else if text_options(o) matches Some(text) && acts(text, "verbosity"@) {
        Some(Unsupported::TextVerbosity)
    } else if acts(o, "vendor_extensions"@) {
        Some(Unsupported::VendorExtensions)
    } else {
        None
    }
}

/// The effort that a request asks for, where it asks for any; or why what it asks for cannot be
/// had. `typed` says whether [`typed_projection`] of the request decodes as a request.
pub open spec fn top_level(raw: JsonView, typed: bool) -> Result<Option<ThinkingEffort>, AIError> {
    match raw {
        JsonView::Object(o) => match (state_fault(o), options_fault(o)) {
            (Some(fault), _) => Err(unsupported(fault)),
            (None, Some(fault)) => Err(unsupported(fault)),
            (None, None) => match effort_asked(o) {
                Err(e) => Err(e),
                Ok(effort) => if !includes_ok(field(o, "include"@)) {
                    Err(unsupported(Unsupported::IncludeList))
                } else if !typed {
                    Err(unsupported(Unsupported::RequestField))
                } else {
                    Ok(effort)
                },
            },
        },
        _ => Err(unsupported(Unsupported::RequestShape)),
    }
}

fn find_state_fault(object: &Object) -> (r: Option<Unsupported>)
    ensures
        r == state_fault(object@),
{
    let known = known_fields();
    if has_effectful_unknown_field(object, &known) {
        return Some(Unsupported::RequestField);
    }
    if !is_maybe_string(object.get("user")) || !is_maybe_string(object.get("safety_identifier")) {
        return Some(Unsupported::UserIdentifier);
    }
    match object.get("store") {
        Some(Json::Bool(false)) => {},
        _ => return Some(Unsupported::StoreRequired),
    }
    if does_act(object, "previous_response_id") {
        return Some(Unsupported::PreviousResponseId);
    }
    if does_act(object, "conversation") {
        return Some(Unsupported::Conversation);
    }
    if does_act(object, "prompt") {
        return Some(Unsupported::Prompt);
    }
    if !absent_or_false(object.get("background")) {
        return Some(Unsupported::Background);
    }
    None
}

fn find_options_fault(object: &Object) -> (r: Option<Unsupported>)
    ensures
        r == options_fault(object@),
{
    let stream_fits = match object.get("stream_options") {
        None => true,
        Some(Json::Object(options)) => options.len() == 1 && match options.get(
            "include_obfuscation",
        ) {
            Some(Json::Bool(on)) => !*on,
            _ => false,
        },
        Some(_) => false,
    };
    if !stream_fits {
        return Some(Unsupported::StreamOptions);
    }
    match object.get("logprobs") {
        None | Some(Json::Null) => {},
        Some(Json::Bool(on)) => if *on {
            return Some(Unsupported::Logprobs);
        },
        Some(_) => return Some(Unsupported::LogprobsShape),
    }
    if does_act(object, "max_tool_calls") {
        return Some(Unsupported::MaxToolCalls);
    }
    if does_act(object, "service_tier") {
        return Some(Unsupported::ServiceTier);
    }
    if does_act(object, "top_logprobs") {
        return Some(Unsupported::TopLogprobs);
    }
    let truncation_fits = match object.get("truncation") {
        None => true,
        Some(Json::Text(truncation)) => same(truncation.as_str(), "disabled"),
        Some(_) => false,
    };
    if !truncation_fits {
        return Some(Unsupported::Truncation);
    }
    match object.get("text") {
        Some(Json::Object(text)) => {
            if text.has_unknown_field(&["format", "verbosity"]) {
                return Some(Unsupported::TextOption);
            }
            if does_act(text, "verbosity") {
                return Some(Unsupported::TextVerbosity);
            }
        },
        _ => {},
    }
    if does_act(object, "vendor_extensions") {
        return Some(Unsupported::VendorExtensions);
    }
    None
}

/// The effort that a request asks for, where it asks for any. `typed` says whether
/// [`typed_projection`] of the request decodes as a request.
pub fn validate_top_level(raw: &Json, typed: bool) -> (r: Result<Option<ThinkingEffort>, AIError>)
    ensures
        r == top_level(raw@, typed),
{
    let object = match raw {
        Json::Object(object) => object,
        _ => return Err(refuse(Unsupported::RequestShape)),
    };
    match find_state_fault(object) {
        Some(fault) => return Err(refuse(fault)),
        None => {},
    }
    match find_options_fault(object) {
        Some(fault) => return Err(refuse(fault)),
        None => {},
    }
    let effort = match responses_reasoning_effort(object) {
        Ok(effort) => effort,
        Err(e) => return Err(e),
    };
    let includes_fit = match object.get("include") {
        None | Some(Json::Null) => true,
        Some(Json::Array(items)) => {
            assert(field(object@, "include"@) == Some(JsonView::Array(crate::json::views(items@))));
            items.len() == 0 || (items.len() == 1 && match &items[0] {
                Json::Text(item) => same(item.as_str(), "reasoning.encrypted_content"),
                _ => false,
            })
        },
        Some(_) => false,
    };
    if !includes_fit {
        return Err(refuse(Unsupported::IncludeList));
    }
    if !typed {
        return Err(refuse(Unsupported::RequestField));
    }
    Ok(effort)
}

/// The fields of a request that its projection leaves out.
pub open spec fn dropped_fields() -> Seq<&'static str> {
    seq![
        "client_metadata",
        "metadata",
        "prompt_cache_key",
        "prompt_cache_retention",
        "reasoning",
    ]
}

/// Whether the projection of a request has a field of the request.
pub open spec fn projected(name: Seq<char>) -> bool {
    named(request_fields(), name) && !named(dropped_fields(), name)
}

/// The fields that a projection has of the first `n` fields.
pub open spec fn kept(o: Fields, n: int) -> Fields
    decreases n,
{
    if n <= 0 || n > o.len() {
        Seq::empty()
    } else if projected(o[n - 1].0) {
        put(kept(o, n - 1), o[n - 1].0, o[n - 1].1)
    } else {
        kept(o, n - 1)
    }
}

/// A request without its conversation, its tools and what need not be of one shape.
pub open spec fn projection(raw: JsonView) -> JsonView {
    match raw {
        JsonView::Object(o) => JsonView::Object(
            put(
                put(
                    put(kept(o, o.len() as int), "input"@, JsonView::Array(Seq::empty())),
                    "tools"@,
                    JsonView::Array(Seq::empty()),
                ),
                "tool_choice"@,
                JsonView::Null,
            ),
        ),
        _ => raw,
    }
}

/// A request without its conversation, its tools and what need not be of one shape. Whether this
/// decodes as a request tells whether the rest of the fields have the shapes that they must have.
pub fn typed_projection(raw: &Json) -> (r: Json)
    ensures
        r@ == projection(raw@),
{
    let object = match raw {
        Json::Object(object) => object,
        _ => return raw.copy(),
    };
    let known = known_fields();
    let dropped = [
        "client_metadata",
        "metadata",
        "prompt_cache_key",
        "prompt_cache_retention",
        "reasoning",
    ];
    assert(dropped@ == dropped_fields());
    let mut out = Object::new();
    let mut i: usize = 0;
    while i < object.len()
        invariant
            i <= object@.len(),
            known@ == request_fields(),
            dropped@ == dropped_fields(),
            out@ == kept(object@, i as int),
        decreases object@.len() - i,
    {
        let name = object.name(i);
        if is_named(&known, name) && !is_named(&dropped, name) {
            out.insert(name, object.value(i).copy());
        }
        i = i + 1;
    }
    let none: Vec<Json> = Vec::new();
    assert(crate::json::views(none@) == Seq::<JsonView>::empty());
    out.insert("input", Json::Array(none));
    let none: Vec<Json> = Vec::new();
    assert(crate::json::views(none@) == Seq::<JsonView>::empty());
    out.insert("tools", Json::Array(none));
    out.insert("tool_choice", Json::Null);
    Json::Object(out)
}

/// The projection of a request has the value of every field that it keeps, and no other field of
/// the request.
pub proof fn lemma_projection_keeps(o: Fields, name: Seq<char>)
    requires
        crate::json::distinct(o),
        name != "input"@,
        name != "tools"@,
        name != "tool_choice"@,
    ensures
        projection(JsonView::Object(o)).get(name) == (if projected(name) {
            field(o, name)
        } else {
            None
        }),
{
    let first = kept(o, o.len() as int);
    let second = put(first, "input"@, JsonView::Array(Seq::empty()));
    let third = put(second, "tools"@, JsonView::Array(Seq::empty()));
    crate::json::lemma_put_field(first, "input"@, JsonView::Array(Seq::empty()), name);
    crate::json::lemma_put_field(second, "tools"@, JsonView::Array(Seq::empty()), name);
    crate::json::lemma_put_field(third, "tool_choice"@, JsonView::Null, name);
    lemma_kept(o, o.len() as int, name);
    crate::json::lemma_position(o, name, 0);
}

proof fn lemma_kept(o: Fields, n: int, name: Seq<char>)
    requires
        crate::json::distinct(o),
        0 <= n <= o.len(),
    ensures
        match field(kept(o, n), name) {
            Some(v) => projected(name) && exists|i: int|
                0 <= i < n && (#[trigger] o[i]).0 == name && o[i].1 == v,
            None => projected(name) ==> forall|i: int| 0 <= i < n ==> (#[trigger] o[i]).0 != name,
        },
    decreases n,
{
    if n > 0 {
        lemma_kept(o, n - 1, name);
        if projected(o[n - 1].0) {
            crate::json::lemma_put_field(kept(o, n - 1), o[n - 1].0, o[n - 1].1, name);
        }
    }
}

} // verus!
