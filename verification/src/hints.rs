//! Fields of a request that are hints for whoever serves it, and nothing more.
use vstd::prelude::*;

use crate::choice::choice_of;
use crate::declare::tools_declared;
use crate::json::{distinct, effect, effectful_unknown, field, lemma_position, Fields, JsonView};
use crate::request::{converted, end_user, talk_converted, thinking_off, RequestInOf, RequestInView};
use crate::text::named;
use crate::toplevel::{
    effort_asked, options_fault, request_fields, schema_asked, state_fault, top_level,
};

verus! {

/// The fields that are hints.
pub open spec fn hint_fields() -> Seq<&'static str> {
    seq!["client_metadata", "metadata", "prompt_cache_key", "prompt_cache_retention"]
}

/// Whether two objects have the same fields but for hints.
pub open spec fn same_but_hints(a: Fields, b: Fields) -> bool {
    forall|name: Seq<char>|
        !named(hint_fields(), name) ==> #[trigger] field(a, name) == field(b, name)
}

proof fn lemma_not_hints()
    ensures
        !named(hint_fields(), "text"@),
        !named(hint_fields(), "user"@),
        !named(hint_fields(), "safety_identifier"@),
        !named(hint_fields(), "store"@),
        !named(hint_fields(), "previous_response_id"@),
        !named(hint_fields(), "conversation"@),
        !named(hint_fields(), "prompt"@),
        !named(hint_fields(), "background"@),
        !named(hint_fields(), "stream_options"@),
        !named(hint_fields(), "logprobs"@),
        !named(hint_fields(), "max_tool_calls"@),
        !named(hint_fields(), "service_tier"@),
        !named(hint_fields(), "top_logprobs"@),
        !named(hint_fields(), "truncation"@),
        !named(hint_fields(), "vendor_extensions"@),
        !named(hint_fields(), "reasoning"@),
        !named(hint_fields(), "include"@),
        !named(hint_fields(), "tools"@),
        !named(hint_fields(), "tool_choice"@),
        !named(hint_fields(), "parallel_tool_calls"@),
        !named(hint_fields(), "input"@),
        !named(hint_fields(), "instructions"@),
{
    reveal_strlit("client_metadata");
    reveal_strlit("metadata");
    reveal_strlit("prompt_cache_key");
    reveal_strlit("prompt_cache_retention");
    reveal_strlit("text");
    reveal_strlit("user");
    reveal_strlit("safety_identifier");
    reveal_strlit("store");
    reveal_strlit("previous_response_id");
    reveal_strlit("conversation");
    reveal_strlit("prompt");
    reveal_strlit("background");
    reveal_strlit("stream_options");
    reveal_strlit("logprobs");
    reveal_strlit("max_tool_calls");
    reveal_strlit("service_tier");
    reveal_strlit("top_logprobs");
    reveal_strlit("truncation");
    reveal_strlit("vendor_extensions");
    reveal_strlit("reasoning");
    reveal_strlit("include");
    reveal_strlit("tools");
    reveal_strlit("tool_choice");
    reveal_strlit("parallel_tool_calls");
    reveal_strlit("input");
    reveal_strlit("instructions");
    let h = hint_fields();
    assert(h[0]@.len() == 15 && h[1]@.len() == 8 && h[2]@.len() == 16 && h[3]@.len() == 22);
    assert(h[1]@[0] == 'm');
    assert forall|name: Seq<char>|
        name.len() != 15 && name.len() != 16 && name.len() != 22 && !(name.len() == 8 && name[0]
            == 'm') implies !#[trigger] named(h, name) by {
        if named(h, name) {
            let i = choose|i: int| 0 <= i < h.len() && (#[trigger] h[i])@ == name;
            assert(i == 0 || i == 1 || i == 2 || i == 3);
        }
    }
}

proof fn lemma_hints_are_known(name: Seq<char>)
    requires
        named(hint_fields(), name),
    ensures
        named(request_fields(), name),
{
    let h = hint_fields();
    let k = request_fields();
    let i = choose|i: int| 0 <= i < h.len() && (#[trigger] h[i])@ == name;
    assert(k[1]@ == "client_metadata"@);
    assert(k[9]@ == "metadata"@);
    assert(k[14]@ == "prompt_cache_key"@);
    assert(k[15]@ == "prompt_cache_retention"@);
    assert(i == 0 || i == 1 || i == 2 || i == 3);
}

proof fn lemma_unknown_fields_agree(a: Fields, b: Fields)
    requires
        distinct(a),
        same_but_hints(a, b),
        effectful_unknown(a, request_fields()),
    ensures
        effectful_unknown(b, request_fields()),
{
    let i = choose|i: int|
        0 <= i < a.len() && !named(request_fields(), (#[trigger] a[i]).0) && effect(a[i].1);
    let name = a[i].0;
    if named(hint_fields(), name) {
        lemma_hints_are_known(name);
    }
    lemma_position(a, name, 0);
    lemma_position(b, name, 0);
    assert(field(a, name) == Some(a[i].1));
    assert(field(b, name) == Some(a[i].1));
}

/// What a client says of itself and of how its requests are cached does not count: two requests
/// that differ in nothing else come to the same, or fail for the same reason.
pub proof fn lemma_hints_do_not_count(req: RequestInView, a: Fields, b: Fields)
    requires
        distinct(a),
        distinct(b),
        same_but_hints(a, b),
    ensures
        converted((RequestInOf { raw: JsonView::Object(a), ..req })) == converted(
            (RequestInOf { raw: JsonView::Object(b), ..req }),
        ),
{
    lemma_not_hints();
    let ra = JsonView::Object(a);
    let rb = JsonView::Object(b);
    assert(schema_asked(ra) == schema_asked(rb)) by {
        assert(field(a, "text"@) == field(b, "text"@));
    }
    if effectful_unknown(a, request_fields()) {
        lemma_unknown_fields_agree(a, b);
    }
    if effectful_unknown(b, request_fields()) {
        assert(same_but_hints(b, a));
        lemma_unknown_fields_agree(b, a);
    }
    assert(state_fault(a) == state_fault(b)) by {
        assert(field(a, "user"@) == field(b, "user"@));
        assert(field(a, "safety_identifier"@) == field(b, "safety_identifier"@));
        assert(field(a, "store"@) == field(b, "store"@));
        assert(field(a, "previous_response_id"@) == field(b, "previous_response_id"@));
        assert(field(a, "conversation"@) == field(b, "conversation"@));
        assert(field(a, "prompt"@) == field(b, "prompt"@));
        assert(field(a, "background"@) == field(b, "background"@));
    }
    assert(options_fault(a) == options_fault(b)) by {
        assert(field(a, "stream_options"@) == field(b, "stream_options"@));
        assert(field(a, "logprobs"@) == field(b, "logprobs"@));
        assert(field(a, "max_tool_calls"@) == field(b, "max_tool_calls"@));
        assert(field(a, "service_tier"@) == field(b, "service_tier"@));
        assert(field(a, "top_logprobs"@) == field(b, "top_logprobs"@));
        assert(field(a, "truncation"@) == field(b, "truncation"@));
        assert(field(a, "text"@) == field(b, "text"@));
        assert(field(a, "vendor_extensions"@) == field(b, "vendor_extensions"@));
    }
    assert(effort_asked(a) == effort_asked(b)) by {
        assert(field(a, "reasoning"@) == field(b, "reasoning"@));
    }
    assert(top_level(ra, req.typed) == top_level(rb, req.typed)) by {
        assert(field(a, "include"@) == field(b, "include"@));
    }
    assert(tools_declared(ra) == tools_declared(rb)) by {
        assert(field(a, "tools"@) == field(b, "tools"@));
    }
    assert(field(a, "parallel_tool_calls"@) == field(b, "parallel_tool_calls"@));
    assert(field(a, "tool_choice"@) == field(b, "tool_choice"@));
    assert(field(a, "input"@) == field(b, "input"@));
    assert(field(a, "instructions"@) == field(b, "instructions"@));
    assert(end_user(ra) == end_user(rb)) by {
        assert(field(a, "user"@) == field(b, "user"@));
        assert(field(a, "safety_identifier"@) == field(b, "safety_identifier"@));
    }
    assert(thinking_off(ra) == thinking_off(rb)) by {
        assert(field(a, "reasoning"@) == field(b, "reasoning"@));
    }
    match tools_declared(ra) {
        Ok(d) => {
            assert(choice_of(ra, d.state) == choice_of(rb, d.state));
            assert(talk_converted((RequestInOf { raw: ra, ..req }), d) == talk_converted(
                (RequestInOf { raw: rb, ..req }),
                d,
            ));
        },
        Err(_) => {},
    }
}

} // verus!
