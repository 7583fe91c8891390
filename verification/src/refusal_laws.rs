//! What holds of every request that cannot be had in full: it is refused, not taken in part.
use vstd::prelude::*;

use crate::json::{effect, field, lemma_position, Fields, JsonView};
use crate::messages::Role;
use crate::request::{converted, RequestInView};
use crate::request_types::ContentView;
use crate::talk_laws::lemma_plain_conversation;
use crate::text::named;
use crate::toplevel::request_fields;

verus! {

/// Whether a value asks for something: it holds `true`, a number or a string that is not empty,
/// or something in it does.
pub open spec fn asks(v: JsonView) -> bool
    decreases v,
{
    match v {
        JsonView::Null => false,
        JsonView::Bool(on) => on,
        JsonView::Text(text) => text.len() != 0,
        JsonView::Array(items) => exists|i: int| 0 <= i < items.len() && asks(#[trigger] items[i]),
        JsonView::Object(o) => exists|i: int| 0 <= i < o.len() && asks((#[trigger] o[i]).1),
        _ => true,
    }
}

/// What asks for something has an effect, and nothing else has.
pub proof fn lemma_asks(v: JsonView)
    ensures
        asks(v) == effect(v),
    decreases v,
{
    match v {
        JsonView::Array(items) => {
            assert forall|i: int| 0 <= i < items.len() implies asks(#[trigger] items[i]) == effect(
                items[i],
            ) by {
                lemma_asks(items[i]);
            }
        },
        JsonView::Object(o) => {
            assert forall|i: int| 0 <= i < o.len() implies asks((#[trigger] o[i]).1) == effect(
                o[i].1,
            ) by {
                lemma_asks(o[i].1);
            }
        },
        _ => {},
    }
}

/// Whether a field of a request is there and asks for something.
pub open spec fn asks_for_field(raw: JsonView, name: Seq<char>) -> bool {
    raw.get(name) is Some && asks(raw.get(name)->0)
}

/// What cannot be had is refused: state kept upstream, work in the background, probabilities,
/// limits on calls, tiers, truncation, extensions, verbosity, what is not put out, and options of
/// a stream that are not known.
#[verifier::rlimit(60)]
#[verifier::spinoff_prover]
pub proof fn lemma_not_taken_in_part(req: RequestInView)
    ensures
        !(req.raw is Object) ==> converted(req) is Err,
        req.raw.get("store"@) != Some(JsonView::Bool(false)) ==> converted(req) is Err,
        asks_for_field(req.raw, "previous_response_id"@) ==> converted(req) is Err,
        asks_for_field(req.raw, "conversation"@) ==> converted(req) is Err,
        asks_for_field(req.raw, "prompt"@) ==> converted(req) is Err,
        asks_for_field(req.raw, "max_tool_calls"@) ==> converted(req) is Err,
        asks_for_field(req.raw, "service_tier"@) ==> converted(req) is Err,
        asks_for_field(req.raw, "top_logprobs"@) ==> converted(req) is Err,
        asks_for_field(req.raw, "vendor_extensions"@) ==> converted(req) is Err,
        req.raw.get("background"@) is Some && req.raw.get("background"@) != Some(
            JsonView::Bool(false),
        ) ==> converted(req) is Err,
        req.raw.get("logprobs"@) is Some && req.raw.get("logprobs"@) != Some(JsonView::Null)
            && req.raw.get("logprobs"@) != Some(JsonView::Bool(false)) ==> converted(req) is Err,
        req.raw.get("truncation"@) is Some && req.raw.get("truncation"@) != Some(
            JsonView::Text("disabled"@),
        ) ==> converted(req) is Err,
        req.raw.get("user"@) is Some && !(req.raw.get("user"@)->0 is Null) && !(req.raw.get(
            "user"@,
        )->0 is Text) ==> converted(req) is Err,
        req.raw.get("safety_identifier"@) is Some && !(req.raw.get("safety_identifier"@)->0 is Null)
            && !(req.raw.get("safety_identifier"@)->0 is Text) ==> converted(req) is Err,
        req.raw.get("stream_options"@) is Some && !(req.raw.get("stream_options"@)->0 is Object)
            ==> converted(req) is Err,
        req.raw.get("stream_options"@) is Some && req.raw.get("stream_options"@)->0.get(
            "include_obfuscation"@,
        ) != Some(JsonView::Bool(false)) ==> converted(req) is Err,
        req.raw.get("include"@) matches Some(JsonView::Array(list)) ==> (list.len() > 1
            || list.len() == 1 && list[0] != JsonView::Text("reasoning.encrypted_content"@)
            ==> converted(req) is Err),
        req.raw.get("text"@) is Some && asks_for_field(req.raw.get("text"@)->0, "verbosity"@)
            ==> converted(req) is Err,
        req.temperature is Some && !req.temperature->0.in_unit_range ==> converted(req) is Err,
        req.raw.get("instructions"@) == Some(JsonView::Text(Seq::empty())) ==> converted(
            req,
        ) is Err,
        req.raw.get("input"@) is None || req.raw.get("input"@) == Some(
            JsonView::Text(Seq::empty()),
        ) || req.raw.get("input"@) == Some(JsonView::Array(Seq::empty())) ==> converted(
            req,
        ) is Err,
        !req.typed ==> converted(req) is Err,
{
    lemma_asks(req.raw.get("previous_response_id"@)->0);
    lemma_asks(req.raw.get("conversation"@)->0);
    lemma_asks(req.raw.get("prompt"@)->0);
    lemma_asks(req.raw.get("max_tool_calls"@)->0);
    lemma_asks(req.raw.get("service_tier"@)->0);
    lemma_asks(req.raw.get("top_logprobs"@)->0);
    lemma_asks(req.raw.get("vendor_extensions"@)->0);
    lemma_asks(req.raw.get("text"@)->0.get("verbosity"@)->0);
    match req.raw.get("instructions"@) {
        Some(JsonView::Text(text)) => {
            assert(text.len() == 0 ==> text == Seq::<char>::empty());
        },
        _ => {},
    }
}

/// Whether a name is that of a field that a request may have.
pub open spec fn known_field(name: Seq<char>) -> bool {
    ||| name == "background"@
    ||| name == "client_metadata"@
    ||| name == "conversation"@
    ||| name == "include"@
    ||| name == "input"@
    ||| name == "instructions"@
    ||| name == "logprobs"@
    ||| name == "max_output_tokens"@
    ||| name == "max_tool_calls"@
    ||| name == "metadata"@
    ||| name == "model"@
    ||| name == "parallel_tool_calls"@
    ||| name == "previous_response_id"@
    ||| name == "prompt"@
    ||| name == "prompt_cache_key"@
    ||| name == "prompt_cache_retention"@
    ||| name == "reasoning"@
    ||| name == "safety_identifier"@
    ||| name == "service_tier"@
    ||| name == "store"@
    ||| name == "stream"@
    ||| name == "stream_options"@
    ||| name == "temperature"@
    ||| name == "text"@
    ||| name == "tool_choice"@
    ||| name == "tools"@
    ||| name == "top_logprobs"@
    ||| name == "top_p"@
    ||| name == "truncation"@
    ||| name == "user"@
    ||| name == "vendor_extensions"@
}

/// A field that is not known is refused where it asks for something.
pub proof fn lemma_unknown_field_is_refused(req: RequestInView, o: Fields, i: int)
    requires
        req.raw == JsonView::Object(o),
        0 <= i < o.len(),
        !known_field(o[i].0),
        asks(o[i].1),
    ensures
        converted(req) is Err,
{
    lemma_asks(o[i].1);
    assert(!named(request_fields(), o[i].0));
    assert(crate::json::effectful_unknown(o, request_fields()));
}

proof fn lemma_plain_names()
    ensures
        "model"@ != "input"@,
        "model"@ != "store"@,
        "model"@ != "instructions"@,
        "model"@ != "stream"@,
        "model"@ != "max_output_tokens"@,
        "model"@ != "temperature"@,
        "model"@ != "top_p"@,
        "model"@ != "background"@,
        "model"@ != "logprobs"@,
        "model"@ != "stream_options"@,
        "model"@ != "truncation"@,
        "model"@ != "include"@,
        "model"@ != "user"@,
        "model"@ != "safety_identifier"@,
        "model"@ != "reasoning"@,
        "model"@ != "text"@,
        "model"@ != "tools"@,
        "model"@ != "tool_choice"@,
        "model"@ != "parallel_tool_calls"@,
        "model"@ != "previous_response_id"@,
        "model"@ != "conversation"@,
        "model"@ != "prompt"@,
        "model"@ != "max_tool_calls"@,
        "model"@ != "service_tier"@,
        "model"@ != "top_logprobs"@,
        "model"@ != "vendor_extensions"@,
        "input"@ != "store"@,
        "input"@ != "instructions"@,
        "input"@ != "stream"@,
        "input"@ != "max_output_tokens"@,
        "input"@ != "temperature"@,
        "input"@ != "top_p"@,
        "input"@ != "background"@,
        "input"@ != "logprobs"@,
        "input"@ != "stream_options"@,
        "input"@ != "truncation"@,
        "input"@ != "include"@,
        "input"@ != "user"@,
        "input"@ != "safety_identifier"@,
        "input"@ != "reasoning"@,
        "input"@ != "text"@,
        "input"@ != "tools"@,
        "input"@ != "tool_choice"@,
        "input"@ != "parallel_tool_calls"@,
        "input"@ != "previous_response_id"@,
        "input"@ != "conversation"@,
        "input"@ != "prompt"@,
        "input"@ != "max_tool_calls"@,
        "input"@ != "service_tier"@,
        "input"@ != "top_logprobs"@,
        "input"@ != "vendor_extensions"@,
        "store"@ != "instructions"@,
        "store"@ != "stream"@,
        "store"@ != "max_output_tokens"@,
        "store"@ != "temperature"@,
        "store"@ != "top_p"@,
        "store"@ != "background"@,
        "store"@ != "logprobs"@,
        "store"@ != "stream_options"@,
        "store"@ != "truncation"@,
        "store"@ != "include"@,
        "store"@ != "user"@,
        "store"@ != "safety_identifier"@,
        "store"@ != "reasoning"@,
        "store"@ != "text"@,
        "store"@ != "tools"@,
        "store"@ != "tool_choice"@,
        "store"@ != "parallel_tool_calls"@,
        "store"@ != "previous_response_id"@,
        "store"@ != "conversation"@,
        "store"@ != "prompt"@,
        "store"@ != "max_tool_calls"@,
        "store"@ != "service_tier"@,
        "store"@ != "top_logprobs"@,
        "store"@ != "vendor_extensions"@,
        "instructions"@ != "stream"@,
        "instructions"@ != "max_output_tokens"@,
        "instructions"@ != "temperature"@,
        "instructions"@ != "top_p"@,
        "instructions"@ != "background"@,
        "instructions"@ != "logprobs"@,
        "instructions"@ != "stream_options"@,
        "instructions"@ != "truncation"@,
        "instructions"@ != "include"@,
        "instructions"@ != "user"@,
        "instructions"@ != "safety_identifier"@,
        "instructions"@ != "reasoning"@,
        "instructions"@ != "text"@,
        "instructions"@ != "tools"@,
        "instructions"@ != "tool_choice"@,
        "instructions"@ != "parallel_tool_calls"@,
        "instructions"@ != "previous_response_id"@,
        "instructions"@ != "conversation"@,
        "instructions"@ != "prompt"@,
        "instructions"@ != "max_tool_calls"@,
        "instructions"@ != "service_tier"@,
        "instructions"@ != "top_logprobs"@,
        "instructions"@ != "vendor_extensions"@,
        "stream"@ != "max_output_tokens"@,
        "stream"@ != "temperature"@,
        "stream"@ != "top_p"@,
        "stream"@ != "background"@,
        "stream"@ != "logprobs"@,
        "stream"@ != "stream_options"@,
        "stream"@ != "truncation"@,
        "stream"@ != "include"@,
        "stream"@ != "user"@,
        "stream"@ != "safety_identifier"@,
        "stream"@ != "reasoning"@,
        "stream"@ != "text"@,
        "stream"@ != "tools"@,
        "stream"@ != "tool_choice"@,
        "stream"@ != "parallel_tool_calls"@,
        "stream"@ != "previous_response_id"@,
        "stream"@ != "conversation"@,
        "stream"@ != "prompt"@,
        "stream"@ != "max_tool_calls"@,
        "stream"@ != "service_tier"@,
        "stream"@ != "top_logprobs"@,
        "stream"@ != "vendor_extensions"@,
        "max_output_tokens"@ != "temperature"@,
        "max_output_tokens"@ != "top_p"@,
        "max_output_tokens"@ != "background"@,
        "max_output_tokens"@ != "logprobs"@,
        "max_output_tokens"@ != "stream_options"@,
        "max_output_tokens"@ != "truncation"@,
        "max_output_tokens"@ != "include"@,
        "max_output_tokens"@ != "user"@,
        "max_output_tokens"@ != "safety_identifier"@,
        "max_output_tokens"@ != "reasoning"@,
        "max_output_tokens"@ != "text"@,
        "max_output_tokens"@ != "tools"@,
        "max_output_tokens"@ != "tool_choice"@,
        "max_output_tokens"@ != "parallel_tool_calls"@,
        "max_output_tokens"@ != "previous_response_id"@,
        "max_output_tokens"@ != "conversation"@,
        "max_output_tokens"@ != "prompt"@,
        "max_output_tokens"@ != "max_tool_calls"@,
        "max_output_tokens"@ != "service_tier"@,
        "max_output_tokens"@ != "top_logprobs"@,
        "max_output_tokens"@ != "vendor_extensions"@,
        "temperature"@ != "top_p"@,
        "temperature"@ != "background"@,
        "temperature"@ != "logprobs"@,
        "temperature"@ != "stream_options"@,
        "temperature"@ != "truncation"@,
        "temperature"@ != "include"@,
        "temperature"@ != "user"@,
        "temperature"@ != "safety_identifier"@,
        "temperature"@ != "reasoning"@,
        "temperature"@ != "text"@,
        "temperature"@ != "tools"@,
        "temperature"@ != "tool_choice"@,
        "temperature"@ != "parallel_tool_calls"@,
        "temperature"@ != "previous_response_id"@,
        "temperature"@ != "conversation"@,
        "temperature"@ != "prompt"@,
        "temperature"@ != "max_tool_calls"@,
        "temperature"@ != "service_tier"@,
        "temperature"@ != "top_logprobs"@,
        "temperature"@ != "vendor_extensions"@,
        "top_p"@ != "background"@,
        "top_p"@ != "logprobs"@,
        "top_p"@ != "stream_options"@,
        "top_p"@ != "truncation"@,
        "top_p"@ != "include"@,
        "top_p"@ != "user"@,
        "top_p"@ != "safety_identifier"@,
        "top_p"@ != "reasoning"@,
        "top_p"@ != "text"@,
        "top_p"@ != "tools"@,
        "top_p"@ != "tool_choice"@,
        "top_p"@ != "parallel_tool_calls"@,
        "top_p"@ != "previous_response_id"@,
        "top_p"@ != "conversation"@,
        "top_p"@ != "prompt"@,
        "top_p"@ != "max_tool_calls"@,
        "top_p"@ != "service_tier"@,
        "top_p"@ != "top_logprobs"@,
        "top_p"@ != "vendor_extensions"@,
        "background"@ != "logprobs"@,
        "background"@ != "stream_options"@,
        "background"@ != "truncation"@,
        "background"@ != "include"@,
        "background"@ != "user"@,
        "background"@ != "safety_identifier"@,
        "background"@ != "reasoning"@,
        "background"@ != "text"@,
        "background"@ != "tools"@,
        "background"@ != "tool_choice"@,
        "background"@ != "parallel_tool_calls"@,
        "background"@ != "previous_response_id"@,
        "background"@ != "conversation"@,
        "background"@ != "prompt"@,
        "background"@ != "max_tool_calls"@,
        "background"@ != "service_tier"@,
        "background"@ != "top_logprobs"@,
        "background"@ != "vendor_extensions"@,
        "logprobs"@ != "stream_options"@,
        "logprobs"@ != "truncation"@,
        "logprobs"@ != "include"@,
        "logprobs"@ != "user"@,
        "logprobs"@ != "safety_identifier"@,
        "logprobs"@ != "reasoning"@,
        "logprobs"@ != "text"@,
        "logprobs"@ != "tools"@,
        "logprobs"@ != "tool_choice"@,
        "logprobs"@ != "parallel_tool_calls"@,
        "logprobs"@ != "previous_response_id"@,
        "logprobs"@ != "conversation"@,
        "logprobs"@ != "prompt"@,
        "logprobs"@ != "max_tool_calls"@,
        "logprobs"@ != "service_tier"@,
        "logprobs"@ != "top_logprobs"@,
        "logprobs"@ != "vendor_extensions"@,
        "stream_options"@ != "truncation"@,
        "stream_options"@ != "include"@,
        "stream_options"@ != "user"@,
        "stream_options"@ != "safety_identifier"@,
        "stream_options"@ != "reasoning"@,
        "stream_options"@ != "text"@,
        "stream_options"@ != "tools"@,
        "stream_options"@ != "tool_choice"@,
        "stream_options"@ != "parallel_tool_calls"@,
        "stream_options"@ != "previous_response_id"@,
        "stream_options"@ != "conversation"@,
        "stream_options"@ != "prompt"@,
        "stream_options"@ != "max_tool_calls"@,
        "stream_options"@ != "service_tier"@,
        "stream_options"@ != "top_logprobs"@,
        "stream_options"@ != "vendor_extensions"@,
        "truncation"@ != "include"@,
        "truncation"@ != "user"@,
        "truncation"@ != "safety_identifier"@,
        "truncation"@ != "reasoning"@,
        "truncation"@ != "text"@,
        "truncation"@ != "tools"@,
        "truncation"@ != "tool_choice"@,
        "truncation"@ != "parallel_tool_calls"@,
        "truncation"@ != "previous_response_id"@,
        "truncation"@ != "conversation"@,
        "truncation"@ != "prompt"@,
        "truncation"@ != "max_tool_calls"@,
        "truncation"@ != "service_tier"@,
        "truncation"@ != "top_logprobs"@,
        "truncation"@ != "vendor_extensions"@,
        "include"@ != "user"@,
        "include"@ != "safety_identifier"@,
        "include"@ != "reasoning"@,
        "include"@ != "text"@,
        "include"@ != "tools"@,
        "include"@ != "tool_choice"@,
        "include"@ != "parallel_tool_calls"@,
        "include"@ != "previous_response_id"@,
        "include"@ != "conversation"@,
        "include"@ != "prompt"@,
        "include"@ != "max_tool_calls"@,
        "include"@ != "service_tier"@,
        "include"@ != "top_logprobs"@,
        "include"@ != "vendor_extensions"@,
        "user"@ != "safety_identifier"@,
        "user"@ != "reasoning"@,
        "user"@ != "text"@,
        "user"@ != "tools"@,
        "user"@ != "tool_choice"@,
        "user"@ != "parallel_tool_calls"@,
        "user"@ != "previous_response_id"@,
        "user"@ != "conversation"@,
        "user"@ != "prompt"@,
        "user"@ != "max_tool_calls"@,
        "user"@ != "service_tier"@,
        "user"@ != "top_logprobs"@,
        "user"@ != "vendor_extensions"@,
        "safety_identifier"@ != "reasoning"@,
        "safety_identifier"@ != "text"@,
        "safety_identifier"@ != "tools"@,
        "safety_identifier"@ != "tool_choice"@,
        "safety_identifier"@ != "parallel_tool_calls"@,
        "safety_identifier"@ != "previous_response_id"@,
        "safety_identifier"@ != "conversation"@,
        "safety_identifier"@ != "prompt"@,
        "safety_identifier"@ != "max_tool_calls"@,
        "safety_identifier"@ != "service_tier"@,
        "safety_identifier"@ != "top_logprobs"@,
        "safety_identifier"@ != "vendor_extensions"@,
        "reasoning"@ != "text"@,
        "reasoning"@ != "tools"@,
        "reasoning"@ != "tool_choice"@,
        "reasoning"@ != "parallel_tool_calls"@,
        "reasoning"@ != "previous_response_id"@,
        "reasoning"@ != "conversation"@,
        "reasoning"@ != "prompt"@,
        "reasoning"@ != "max_tool_calls"@,
        "reasoning"@ != "service_tier"@,
        "reasoning"@ != "top_logprobs"@,
        "reasoning"@ != "vendor_extensions"@,
        "text"@ != "tools"@,
        "text"@ != "tool_choice"@,
        "text"@ != "parallel_tool_calls"@,
        "text"@ != "previous_response_id"@,
        "text"@ != "conversation"@,
        "text"@ != "prompt"@,
        "text"@ != "max_tool_calls"@,
        "text"@ != "service_tier"@,
        "text"@ != "top_logprobs"@,
        "text"@ != "vendor_extensions"@,
        "tools"@ != "tool_choice"@,
        "tools"@ != "parallel_tool_calls"@,
        "tools"@ != "previous_response_id"@,
        "tools"@ != "conversation"@,
        "tools"@ != "prompt"@,
        "tools"@ != "max_tool_calls"@,
        "tools"@ != "service_tier"@,
        "tools"@ != "top_logprobs"@,
        "tools"@ != "vendor_extensions"@,
        "tool_choice"@ != "parallel_tool_calls"@,
        "tool_choice"@ != "previous_response_id"@,
        "tool_choice"@ != "conversation"@,
        "tool_choice"@ != "prompt"@,
        "tool_choice"@ != "max_tool_calls"@,
        "tool_choice"@ != "service_tier"@,
        "tool_choice"@ != "top_logprobs"@,
        "tool_choice"@ != "vendor_extensions"@,
        "parallel_tool_calls"@ != "previous_response_id"@,
        "parallel_tool_calls"@ != "conversation"@,
        "parallel_tool_calls"@ != "prompt"@,
        "parallel_tool_calls"@ != "max_tool_calls"@,
        "parallel_tool_calls"@ != "service_tier"@,
        "parallel_tool_calls"@ != "top_logprobs"@,
        "parallel_tool_calls"@ != "vendor_extensions"@,
        "previous_response_id"@ != "conversation"@,
        "previous_response_id"@ != "prompt"@,
        "previous_response_id"@ != "max_tool_calls"@,
        "previous_response_id"@ != "service_tier"@,
        "previous_response_id"@ != "top_logprobs"@,
        "previous_response_id"@ != "vendor_extensions"@,
        "conversation"@ != "prompt"@,
        "conversation"@ != "max_tool_calls"@,
        "conversation"@ != "service_tier"@,
        "conversation"@ != "top_logprobs"@,
        "conversation"@ != "vendor_extensions"@,
        "prompt"@ != "max_tool_calls"@,
        "prompt"@ != "service_tier"@,
        "prompt"@ != "top_logprobs"@,
        "prompt"@ != "vendor_extensions"@,
        "max_tool_calls"@ != "service_tier"@,
        "max_tool_calls"@ != "top_logprobs"@,
        "max_tool_calls"@ != "vendor_extensions"@,
        "service_tier"@ != "top_logprobs"@,
        "service_tier"@ != "vendor_extensions"@,
        "top_logprobs"@ != "vendor_extensions"@,
{
    reveal_strlit("model");
    reveal_strlit("input");
    reveal_strlit("store");
    reveal_strlit("instructions");
    reveal_strlit("stream");
    reveal_strlit("max_output_tokens");
    reveal_strlit("temperature");
    reveal_strlit("top_p");
    reveal_strlit("background");
    reveal_strlit("logprobs");
    reveal_strlit("stream_options");
    reveal_strlit("truncation");
    reveal_strlit("include");
    reveal_strlit("user");
    reveal_strlit("safety_identifier");
    reveal_strlit("reasoning");
    reveal_strlit("text");
    reveal_strlit("tools");
    reveal_strlit("tool_choice");
    reveal_strlit("parallel_tool_calls");
    reveal_strlit("previous_response_id");
    reveal_strlit("conversation");
    reveal_strlit("prompt");
    reveal_strlit("max_tool_calls");
    reveal_strlit("service_tier");
    reveal_strlit("top_logprobs");
    reveal_strlit("vendor_extensions");
    assert("model"@.len() == 5);
    assert("input"@.len() == 5);
    assert("store"@.len() == 5);
    assert("instructions"@.len() == 12);
    assert("stream"@.len() == 6);
    assert("max_output_tokens"@.len() == 17);
    assert("temperature"@.len() == 11);
    assert("top_p"@.len() == 5);
    assert("background"@.len() == 10);
    assert("logprobs"@.len() == 8);
    assert("stream_options"@.len() == 14);
    assert("truncation"@.len() == 10);
    assert("include"@.len() == 7);
    assert("user"@.len() == 4);
    assert("safety_identifier"@.len() == 17);
    assert("reasoning"@.len() == 9);
    assert("text"@.len() == 4);
    assert("tools"@.len() == 5);
    assert("tool_choice"@.len() == 11);
    assert("parallel_tool_calls"@.len() == 19);
    assert("previous_response_id"@.len() == 20);
    assert("conversation"@.len() == 12);
    assert("prompt"@.len() == 6);
    assert("max_tool_calls"@.len() == 14);
    assert("service_tier"@.len() == 12);
    assert("top_logprobs"@.len() == 12);
    assert("vendor_extensions"@.len() == 17);
    assert("model"@[0] == 'm');
    assert("input"@[0] == 'i');
    assert("store"@[0] == 's');
    assert("top_p"@[0] == 't');
    assert("tools"@[0] == 't');
    assert("instructions"@[0] == 'i');
    assert("conversation"@[0] == 'c');
    assert("service_tier"@[0] == 's');
    assert("top_logprobs"@[0] == 't');
    assert("stream"@[0] == 's');
    assert("prompt"@[0] == 'p');
    assert("max_output_tokens"@[0] == 'm');
    assert("safety_identifier"@[0] == 's');
    assert("vendor_extensions"@[0] == 'v');
    assert("temperature"@[1] == 'e');
    assert("tool_choice"@[1] == 'o');
    assert("top_p"@[2] == 'p');
    assert("tools"@[2] == 'o');
    assert("background"@[0] == 'b');
    assert("truncation"@[0] == 't');
    assert("stream_options"@[0] == 's');
    assert("max_tool_calls"@[0] == 'm');
    assert("user"@[0] == 'u');
    assert("text"@[0] == 't');
}


proof fn lemma_plain_field(o: Fields, name: Seq<char>)
    requires
        forall|i: int|
            0 <= i < o.len() ==> plain_field((#[trigger] o[i]).0),
        !plain_field(name),
    ensures
        field(o, name) is None,
{
    lemma_position(o, name, 0);
}

/// Whether a name is that of a field that a plain request has.
pub open spec fn plain_field(name: Seq<char>) -> bool {
    ||| name == "model"@
    ||| name == "input"@
    ||| name == "store"@
    ||| name == "instructions"@
    ||| name == "stream"@
    ||| name == "max_output_tokens"@
    ||| name == "temperature"@
    ||| name == "top_p"@
}

/// A plain request is taken: one that is not to be stored, with a text that is not empty, and no
/// more than instructions, a model, a limit, a temperature, a nucleus and whether to stream. Its
/// text is what the user says, and its instructions are the system's.
#[verifier::rlimit(60)]
#[verifier::spinoff_prover]
pub proof fn lemma_plain_request_is_taken(req: RequestInView, o: Fields, text: Seq<char>)
    requires
        req.raw == JsonView::Object(o),
        req.typed,
        forall|i: int| 0 <= i < o.len() ==> plain_field((#[trigger] o[i]).0),
        field(o, "store"@) == Some(JsonView::Bool(false)),
        field(o, "input"@) == Some(JsonView::Text(text)),
        text.len() > 0,
        field(o, "instructions"@) matches Some(JsonView::Text(told)) ==> told.len() > 0,
        req.temperature is Some ==> req.temperature->0.in_unit_range,
        req.max_output_tokens is Some ==> req.max_output_tokens->0 <= u32::MAX,
    ensures
        converted(req) is Ok,
        ({
            let taken = (converted(req)->Ok_0).0;
            &&& taken.messages.len() == 1
            &&& taken.messages[0].role == Role::User
            &&& taken.messages[0].content == seq![ContentView::Text(text)]
            &&& taken.system == (match field(o, "instructions"@) {
                Some(JsonView::Text(told)) => Some(seq![told]),
                _ => None,
            })
            &&& taken.tools is None
            &&& taken.tool_choice is None
            &&& (converted(req)->Ok_0).1.len() == 0
        }),
{
    lemma_plain_names();
    lemma_plain_field(o, "background"@);
    lemma_plain_field(o, "logprobs"@);
    lemma_plain_field(o, "stream_options"@);
    lemma_plain_field(o, "truncation"@);
    lemma_plain_field(o, "include"@);
    lemma_plain_field(o, "user"@);
    lemma_plain_field(o, "safety_identifier"@);
    lemma_plain_field(o, "reasoning"@);
    lemma_plain_field(o, "text"@);
    lemma_plain_field(o, "tools"@);
    lemma_plain_field(o, "tool_choice"@);
    lemma_plain_field(o, "parallel_tool_calls"@);
    lemma_plain_field(o, "previous_response_id"@);
    lemma_plain_field(o, "conversation"@);
    lemma_plain_field(o, "prompt"@);
    lemma_plain_field(o, "max_tool_calls"@);
    lemma_plain_field(o, "service_tier"@);
    lemma_plain_field(o, "top_logprobs"@);
    lemma_plain_field(o, "vendor_extensions"@);
    let known = request_fields();
    assert forall|i: int| 0 <= i < o.len() implies named(known, (#[trigger] o[i]).0) by {
        assert(known[10]@ == "model"@);
        assert(known[4]@ == "input"@);
        assert(known[19]@ == "store"@);
        assert(known[5]@ == "instructions"@);
        assert(known[20]@ == "stream"@);
        assert(known[7]@ == "max_output_tokens"@);
        assert(known[22]@ == "temperature"@);
        assert(known[27]@ == "top_p"@);
    }
    assert(!crate::json::effectful_unknown(o, known));
    lemma_plain_conversation(
        text,
        req.raw.text_at("instructions"@),
        crate::declare::nothing_declared().state,
    );
}

} // verus!
