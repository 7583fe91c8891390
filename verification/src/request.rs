//! Requests of the Responses API, as requests of the Messages API.
use vstd::prelude::*;
use vstd::utf8::encode_utf8;

use crate::choice::{choice_of, translate_tool_choice};
use crate::codec::json_text;
use crate::declare::{tools_declared, translate_tools, DeclView};
use crate::error::{refuse, unsupported, AIError, Unsupported};
use crate::input::{conversation, translate_input};
use crate::json::{text_field, Json, JsonView, Object};
use crate::messages::ThinkingEffort;
use crate::request_types::{
    json_in, request_json, MessagesRequest, RequestOf, RequestView, ThinkingInput, ToolChoiceView,
    ToolView, TurnView,
};
use crate::text::{
    blank, decimal, decimal_text, join, owned, owned_opt, same, text_in, text_of, texts,
};
use crate::tools::{State, Table};
use crate::toplevel::{responses_output_format, schema_asked, top_level, validate_top_level};

verus! {

/// How freely the model is to choose its words: the number as it is written, and whether it is
/// from zero to one.
#[derive(Debug)]
pub struct TemperatureOf<J> {
    pub number: J,
    pub in_unit_range: bool,
}

pub type Temperature = TemperatureOf<Json>;

/// A request of the Responses API: all of it as JSON, and what is read of it by type.
#[derive(Debug)]
pub struct RequestInOf<S, J> {
    pub raw: J,
    /// Whether [`crate::toplevel::typed_projection`] of `raw` decodes as a request.
    pub typed: bool,
    pub model: Option<S>,
    pub stream: Option<bool>,
    pub max_output_tokens: Option<u64>,
    pub temperature: Option<TemperatureOf<J>>,
    pub top_p: Option<J>,
}

pub type Request = RequestInOf<String, Json>;

pub type RequestInView = RequestInOf<Seq<char>, JsonView>;

impl View for RequestInOf<String, Json> {
    type V = RequestInOf<Seq<char>, JsonView>;

    open spec fn view(&self) -> RequestInView {
        RequestInOf {
            raw: self.raw@,
            typed: self.typed,
            model: text_in(self.model),
            stream: self.stream,
            max_output_tokens: self.max_output_tokens,
            temperature: match self.temperature {
                Some(t) => Some(
                    TemperatureOf { number: t.number@, in_unit_range: t.in_unit_range },
                ),
                None => None,
            },
            top_p: json_in(self.top_p),
        }
    }
}

/// Whether a request asks the model not to think.
pub open spec fn thinking_off(raw: JsonView) -> bool {
    match raw.get("reasoning"@) {
        Some(JsonView::Object(reasoning)) => text_field(reasoning, "effort"@) == Some("none"@),
        _ => false,
    }
}

fn is_thinking_off(raw: &Json) -> (r: bool)
    ensures
        r == thinking_off(raw@),
{
    match raw.get("reasoning") {
        Some(Json::Object(reasoning)) => match reasoning.text("effort") {
            Some(effort) => same(effort, "none"),
            None => false,
        },
        _ => false,
    }
}

/// A string of a value that is not empty.
pub open spec fn full_text(v: JsonView, name: Seq<char>) -> Option<Seq<char>> {
    match v.text_at(name) {
        Some(text) => if text.len() > 0 {
            Some(text)
        } else {
            None
        },
        None => None,
    }
}

fn read_full_text<'a>(v: &'a Json, name: &str) -> (r: Option<&'a str>)
    ensures
        text_of(r) == full_text(v@, name@),
{
    match v.text_at(name) {
        Some(text) => if blank(text) {
            None
        } else {
            Some(text)
        },
        None => None,
    }
}

/// Who the end user is: by the safety identifier, or else by the name of the user.
pub open spec fn end_user(raw: JsonView) -> Option<Seq<char>> {
    match full_text(raw, "safety_identifier"@) {
        Some(id) => Some(id),
        None => full_text(raw, "user"@),
    }
}

/// How many tokens an answer may have where a request does not say.
pub const DEFAULT_MAX_TOKENS: usize = 4096;

/// How many tokens an answer may have, or why so many cannot be asked for.
pub open spec fn token_limit(asked: Option<u64>) -> Result<usize, AIError> {
    match asked {
        None => Ok(DEFAULT_MAX_TOKENS),
        Some(n) => if n <= usize::MAX {
            Ok(n as usize)
        } else {
            Err(unsupported(Unsupported::MaxOutputTokens))
        },
    }
}

fn read_token_limit(asked: Option<u64>) -> (r: Result<usize, AIError>)
    ensures
        r == token_limit(asked),
{
    match asked {
        None => Ok(DEFAULT_MAX_TOKENS),
        Some(n) => if n <= usize::MAX as u64 {
            Ok(n as usize)
        } else {
            Err(refuse(Unsupported::MaxOutputTokens))
        },
    }
}

/// Whether the model is to think: not where the request says so, else where it asks for effort.
pub open spec fn thinking_asked(raw: JsonView, effort: Option<ThinkingEffort>) -> Option<
    ThinkingInput,
> {
    if thinking_off(raw) {
        Some(ThinkingInput::Disabled)
    } else if effort is Some {
        Some(ThinkingInput::Adaptive)
    } else {
        None
    }
}

/// What a request is once everything that it says was taken.
pub open spec fn assembled(
    req: RequestInView,
    schema: Option<JsonView>,
    effort: Option<ThinkingEffort>,
    tools: Seq<ToolView>,
    tool_choice: Option<ToolChoiceView>,
    messages: Seq<TurnView>,
    system: Option<Seq<Seq<char>>>,
    max_tokens: usize,
) -> RequestView {
    RequestOf {
        messages,
        system,
        model: match req.model {
            Some(model) => model,
            None => Seq::empty(),
        },
        max_tokens,
        stream: req.stream == Some(true),
        temperature: match req.temperature {
            Some(t) => Some(t.number),
            None => None,
        },
        top_p: req.top_p,
        tools: if tools.len() == 0 {
            None
        } else {
            Some(tools)
        },
        tool_choice,
        user_id: end_user(req.raw),
        thinking: thinking_asked(req.raw, effort),
        effort,
        schema,
    }
}

/// The request that a request comes to, and its tools; or what it asks for that cannot be had.
/// Of several such things it is the first in this order: the output format, the other fields of
/// the request, the temperature, the tools, the choice among them, the conversation, and the
/// length of the answer.
pub open spec fn converted(req: RequestInView) -> Result<(RequestView, Table), AIError> {
    match (schema_asked(req.raw), top_level(req.raw, req.typed)) {
        (Err(e), _) => Err(e),
        (_, Err(e)) => Err(e),
        (Ok(schema), Ok(effort)) => if req.temperature matches Some(t) && !t.in_unit_range {
            Err(unsupported(Unsupported::Temperature))
        } else {
            match tools_declared(req.raw) {
                Err(e) => Err(e),
                Ok(d) => match talk_converted(req, d) {
                    Err(e) => Err(e),
                    Ok((choice, messages, system, max_tokens)) => Ok(
                        (
                            assembled(
                                req,
                                schema,
                                effort,
                                d.tools,
                                choice,
                                messages,
                                system,
                                max_tokens,
                            ),
                            d.state,
                        ),
                    ),
                },
            }
        },
    }
}

/// The choice of tools, the messages and the system texts of a request, and the length that its
/// answer may have.
pub open spec fn talk_converted(req: RequestInView, d: DeclView) -> Result<
    (Option<ToolChoiceView>, Seq<TurnView>, Option<Seq<Seq<char>>>, usize),
    AIError,
> {
    match choice_of(req.raw, d.state) {
        Err(e) => Err(e),
        Ok(choice) => match req.raw.get("input"@) {
            None => Err(unsupported(Unsupported::InputRequired)),
            Some(input) => match conversation(input, req.raw.text_at("instructions"@), d.state) {
                Err(e) => Err(e),
                Ok((messages, system)) => match token_limit(req.max_output_tokens) {
                    Err(e) => Err(e),
                    Ok(max_tokens) => Ok((choice, messages, system, max_tokens)),
                },
            },
        },
    }
}

/// The request of the Messages API that a request of the Responses API comes to, and the tools by
/// which its answer is to be understood.
pub fn convert_request(req: &Request) -> (r: Result<(MessagesRequest, State), AIError>)
    ensures
        match converted(req@) {
            Ok((request, tools)) => r is Ok && (r->Ok_0).0@ == request && (r->Ok_0).1@ == tools,
            Err(e) => r is Err && r->Err_0 == e,
        },
{
    let schema = match responses_output_format(&req.raw) {
        Ok(schema) => schema,
        Err(e) => return Err(e),
    };
    let effort = match validate_top_level(&req.raw, req.typed) {
        Ok(effort) => effort,
        Err(e) => return Err(e),
    };
    let temperature = match &req.temperature {
        Some(t) => {
            if !t.in_unit_range {
                return Err(refuse(Unsupported::Temperature));
            }
            Some(t.number.copy())
        },
        None => None,
    };
    let declared = match translate_tools(&req.raw) {
        Ok(declared) => declared,
        Err(e) => return Err(e),
    };
    let ghost d = declared@;
    let state = declared.state;
    let tools = declared.tools;
    let tool_choice = match translate_tool_choice(&req.raw, &state) {
        Ok(choice) => choice,
        Err(e) => return Err(e),
    };
    let input = match req.raw.get("input") {
        Some(input) => input,
        None => return Err(refuse(Unsupported::InputRequired)),
    };
    let (messages, system) = match translate_input(
        input,
        req.raw.text_at("instructions"),
        &state,
    ) {
        Ok(talk) => talk,
        Err(e) => return Err(e),
    };
    let max_tokens: usize = match read_token_limit(req.max_output_tokens) {
        Ok(limit) => limit,
        Err(e) => return Err(e),
    };
    let user_id = match read_full_text(&req.raw, "safety_identifier") {
        Some(id) => Some(owned(id)),
        None => owned_opt(read_full_text(&req.raw, "user")),
    };
    let thinking = if is_thinking_off(&req.raw) {
        Some(ThinkingInput::Disabled)
    } else if effort.is_some() {
        Some(ThinkingInput::Adaptive)
    } else {
        None
    };
    let model = match &req.model {
        Some(model) => owned(model.as_str()),
        None => String::new(),
    };
    let request = RequestOf {
        messages,
        system,
        model,
        max_tokens,
        stream: match req.stream {
            Some(on) => on,
            None => false,
        },
        temperature,
        top_p: match &req.top_p {
            Some(number) => Some(number.copy()),
            None => None,
        },
        tools: if tools.len() == 0 {
            None
        } else {
            Some(tools)
        },
        tool_choice,
        user_id,
        thinking,
        effort,
        schema,
    };
    proof {
        let due = converted(req@)->Ok_0.0;
        assert(request@.model == due.model);
        assert(request@.messages == due.messages);
        assert(request@.system == due.system);
        assert(request@.tools == due.tools);
        assert(request@.tool_choice == due.tool_choice);
        assert(request@.user_id == due.user_id);
        assert(request@.temperature == due.temperature);
        assert(request@.top_p == due.top_p);
        assert(request@.schema == due.schema);
        assert(request@ == due);
    }
    Ok((request, state))
}

/// The body of the request of the Messages API that a request of the Responses API comes to, and
/// the tools by which its answer is to be understood.
pub fn translate(req: &Request) -> (r: Result<(Vec<u8>, State), AIError>)
    ensures
        match converted(req@) {
            Ok((request, tools)) => r is Ok && (r->Ok_0).0@ == encode_utf8(
                json_text(request_json(request)),
            ) && (r->Ok_0).1@ == tools,
            Err(e) => r is Err && r->Err_0 == e,
        },
{
    match convert_request(req) {
        Ok((request, state)) => Ok((request.to_json().to_bytes(), state)),
        Err(e) => Err(e),
    }
}

/// The type of error that an HTTP status stands for.
pub open spec fn error_type(status: u16) -> Seq<char> {
    if status == 400 {
        "invalid_request_error"@
    } else if status == 401 {
        "authentication_error"@
    } else if status == 403 {
        "permission_error"@
    } else if status == 404 {
        "not_found_error"@
    } else if status == 409 {
        "conflict_error"@
    } else if status == 413 {
        "request_too_large"@
    } else if status == 429 {
        "rate_limit_error"@
    } else {
        "server_error"@
    }
}

fn name_error(status: u16) -> (r: &'static str)
    ensures
        r@ == error_type(status),
{
    if status == 400 {
        "invalid_request_error"
    } else if status == 401 {
        "authentication_error"
    } else if status == 403 {
        "permission_error"
    } else if status == 404 {
        "not_found_error"
    } else if status == 409 {
        "conflict_error"
    } else if status == 413 {
        "request_too_large"
    } else if status == 429 {
        "rate_limit_error"
    } else {
        "server_error"
    }
}

/// What a client is told of a request that failed upstream with a status.
pub open spec fn error_body(status: u16) -> JsonView {
    JsonView::object().with(
        "error"@,
        JsonView::object().with(
            "message"@,
            JsonView::Text(
                "Upstream Anthropic request failed with HTTP "@ + decimal(status as nat),
            ),
        ).with("type"@, JsonView::Text(error_type(status))).with("param"@, JsonView::Null).with(
            "code"@,
            JsonView::Null,
        ),
    )
}

/// What a client is told of a request that failed upstream. What upstream said of it is not
/// passed on.
pub fn translate_error(_bytes: &[u8], status: u16) -> (r: Result<Vec<u8>, AIError>)
    ensures
        r is Ok,
        r->Ok_0@ == encode_utf8(json_text(error_body(status))),
{
    let message = join(
        "Upstream Anthropic request failed with HTTP ",
        decimal_text(status as u64).as_str(),
    );
    let body = Json::object().with(
        "error",
        Json::object().with("message", Json::text(message.as_str())).with(
            "type",
            Json::text(name_error(status)),
        ).with("param", Json::Null).with("code", Json::Null),
    );
    Ok(body.to_bytes())
}

} // verus!
