//! What a request of the Messages API is made of, and its JSON form.
use vstd::prelude::*;

use crate::json::{views, Json, JsonView};
use crate::messages::{Role, ThinkingEffort};
use crate::responses::text_json;
use crate::text::{text_in, texts};

verus! {

broadcast use crate::json::lemma_array_view;

/// A piece of what a tool gave back.
#[derive(Debug)]
pub enum ResultPartOf<S, J> {
    Text(S),
    Image { source: J },
    Document { source: J, title: Option<S> },
}

/// What a tool gave back.
#[derive(Debug)]
pub enum ResultOf<S, L> {
    Text(S),
    Array(L),
}

/// A block of a message.
#[derive(Debug)]
pub enum ContentOf<S, J, R> {
    Text(S),
    Image { source: J },
    Document { source: J, title: Option<S> },
    ToolUse { id: S, name: S, input: J },
    ToolResult { tool_use_id: S, content: R, is_error: bool },
}

/// A message.
#[derive(Debug)]
pub struct TurnOf<L> {
    pub role: Role,
    pub content: L,
}

pub type ToolResultContentPart = ResultPartOf<String, Json>;

pub type ToolResultContent = ResultOf<String, Vec<ToolResultContentPart>>;

pub type ContentBlock = ContentOf<String, Json, ToolResultContent>;

pub type Message = TurnOf<Vec<ContentBlock>>;

pub type ResultPartView = ResultPartOf<Seq<char>, JsonView>;

pub type ResultView = ResultOf<Seq<char>, Seq<ResultPartView>>;

pub type ContentView = ContentOf<Seq<char>, JsonView, ResultView>;

pub type TurnView = TurnOf<Seq<ContentView>>;

impl View for ResultPartOf<String, Json> {
    type V = ResultPartOf<Seq<char>, JsonView>;

    open spec fn view(&self) -> ResultPartView {
        match self {
            ResultPartOf::Text(s) => ResultPartOf::Text(s@),
            ResultPartOf::Image { source } => ResultPartOf::Image { source: source@ },
            ResultPartOf::Document { source, title } => ResultPartOf::Document {
                source: source@,
                title: text_in(*title),
            },
        }
    }
}

/// What the pieces of a list hold.
pub open spec fn result_part_views(parts: Seq<ToolResultContentPart>) -> Seq<ResultPartView> {
    parts.map_values(|p: ToolResultContentPart| p@)
}

impl View for ResultOf<String, Vec<ToolResultContentPart>> {
    type V = ResultOf<Seq<char>, Seq<ResultPartView>>;

    open spec fn view(&self) -> ResultView {
        match self {
            ResultOf::Text(s) => ResultOf::Text(s@),
            ResultOf::Array(parts) => ResultOf::Array(result_part_views(parts@)),
        }
    }
}

impl View for ContentOf<String, Json, ToolResultContent> {
    type V = ContentOf<Seq<char>, JsonView, ResultView>;

    open spec fn view(&self) -> ContentView {
        match self {
            ContentOf::Text(s) => ContentOf::Text(s@),
            ContentOf::Image { source } => ContentOf::Image { source: source@ },
            ContentOf::Document { source, title } => ContentOf::Document {
                source: source@,
                title: text_in(*title),
            },
            ContentOf::ToolUse { id, name, input } => ContentOf::ToolUse {
                id: id@,
                name: name@,
                input: input@,
            },
            ContentOf::ToolResult { tool_use_id, content, is_error } => ContentOf::ToolResult {
                tool_use_id: tool_use_id@,
                content: content@,
                is_error: *is_error,
            },
        }
    }
}

/// What the blocks of a list hold.
pub open spec fn content_views(blocks: Seq<ContentBlock>) -> Seq<ContentView> {
    blocks.map_values(|b: ContentBlock| b@)
}

impl View for TurnOf<Vec<ContentBlock>> {
    type V = TurnOf<Seq<ContentView>>;

    open spec fn view(&self) -> TurnView {
        TurnOf { role: self.role, content: content_views(self.content@) }
    }
}

/// What the messages of a list hold.
pub open spec fn turn_views(messages: Seq<Message>) -> Seq<TurnView> {
    messages.map_values(|m: Message| m@)
}

/// The JSON form of an image.
pub open spec fn image_json(source: JsonView) -> JsonView {
    JsonView::object().with("type"@, JsonView::Text("image"@)).with("source"@, source)
}

/// The JSON form of a document.
pub open spec fn document_json(source: JsonView, title: Option<Seq<char>>) -> JsonView {
    JsonView::object().with("type"@, JsonView::Text("document"@)).with("source"@, source).with_some(
        "title"@,
        text_json(title),
    )
}

/// The JSON form of a text.
pub open spec fn plain_json(text: Seq<char>) -> JsonView {
    JsonView::object().with("type"@, JsonView::Text("text"@)).with("text"@, JsonView::Text(text))
}

fn image_to_json(source: &Json) -> (r: Json)
    ensures
        r@ == image_json(source@),
{
    Json::object().with("type", Json::text("image")).with("source", source.copy())
}

fn document_to_json(source: &Json, title: &Option<String>) -> (r: Json)
    ensures
        r@ == document_json(source@, text_in(*title)),
{
    let title = match title {
        Some(title) => Some(Json::text(title.as_str())),
        None => None,
    };
    Json::object().with("type", Json::text("document")).with("source", source.copy()).with_some(
        "title",
        title,
    )
}

fn plain_to_json(text: &str) -> (r: Json)
    ensures
        r@ == plain_json(text@),
{
    Json::object().with("type", Json::text("text")).with("text", Json::text(text))
}

/// The JSON form of a piece of what a tool gave back.
pub open spec fn result_part_json(part: ResultPartView) -> JsonView {
    match part {
        ResultPartOf::Text(text) => plain_json(text),
        ResultPartOf::Image { source } => image_json(source),
        ResultPartOf::Document { source, title } => document_json(source, title),
    }
}

/// The JSON form of what a tool gave back.
pub open spec fn result_json(content: ResultView) -> JsonView {
    match content {
        ResultOf::Text(text) => JsonView::Text(text),
        ResultOf::Array(parts) => JsonView::Array(
            parts.map_values(|p: ResultPartView| result_part_json(p)),
        ),
    }
}

/// The JSON form of a block.
pub open spec fn content_json(block: ContentView) -> JsonView {
    match block {
        ContentOf::Text(text) => plain_json(text),
        ContentOf::Image { source } => image_json(source),
        ContentOf::Document { source, title } => document_json(source, title),
        ContentOf::ToolUse { id, name, input } => JsonView::object().with(
            "type"@,
            JsonView::Text("tool_use"@),
        ).with("id"@, JsonView::Text(id)).with("name"@, JsonView::Text(name)).with(
            "input"@,
            input,
        ),
        ContentOf::ToolResult { tool_use_id, content, is_error } => JsonView::object().with(
            "type"@,
            JsonView::Text("tool_result"@),
        ).with("tool_use_id"@, JsonView::Text(tool_use_id)).with(
            "content"@,
            result_json(content),
        ).with_some(
            "is_error"@,
            if is_error {
                Some(JsonView::Bool(true))
            } else {
                None
            },
        ),
    }
}

/// The name of a role.
pub open spec fn role_name(role: Role) -> Seq<char> {
    match role {
        Role::User => "user"@,
        Role::Assistant => "assistant"@,
        Role::System => "system"@,
    }
}

/// The JSON form of a message.
pub open spec fn turn_json(m: TurnView) -> JsonView {
    JsonView::object().with("role"@, JsonView::Text(role_name(m.role))).with(
        "content"@,
        JsonView::Array(m.content.map_values(|b: ContentView| content_json(b))),
    )
}

/// The JSON form of a list of messages.
pub open spec fn turns_json(messages: Seq<TurnView>) -> JsonView {
    JsonView::Array(messages.map_values(|m: TurnView| turn_json(m)))
}

impl ResultPartOf<String, Json> {
    fn to_json(&self) -> (r: Json)
        ensures
            r@ == result_part_json(self@),
    {
        match self {
            ResultPartOf::Text(text) => plain_to_json(text.as_str()),
            ResultPartOf::Image { source } => image_to_json(source),
            ResultPartOf::Document { source, title } => document_to_json(source, title),
        }
    }
}

impl ResultOf<String, Vec<ToolResultContentPart>> {
    fn to_json(&self) -> (r: Json)
        ensures
            r@ == result_json(self@),
    {
        match self {
            ResultOf::Text(text) => Json::text(text.as_str()),
            ResultOf::Array(parts) => {
                let mut list: Vec<Json> = Vec::new();
                let mut i: usize = 0;
                while i < parts.len()
                    invariant
                        i <= parts.len(),
                        list.len() == i,
                        forall|j: int|
                            0 <= j < i ==> (#[trigger] list@[j])@ == result_part_json(
                                parts@[j]@,
                            ),
                    decreases parts.len() - i,
                {
                    list.push(parts[i].to_json());
                    i = i + 1;
                }
                assert(views(list@) == result_part_views(parts@).map_values(
                    |p: ResultPartView| result_part_json(p),
                ));
                Json::Array(list)
            },
        }
    }
}

impl ContentOf<String, Json, ToolResultContent> {
    /// The JSON form.
    pub fn to_json(&self) -> (r: Json)
        ensures
            r@ == content_json(self@),
    {
        match self {
            ContentOf::Text(text) => plain_to_json(text.as_str()),
            ContentOf::Image { source } => image_to_json(source),
            ContentOf::Document { source, title } => document_to_json(source, title),
            ContentOf::ToolUse { id, name, input } => Json::object().with(
                "type",
                Json::text("tool_use"),
            ).with("id", Json::text(id.as_str())).with("name", Json::text(name.as_str())).with(
                "input",
                input.copy(),
            ),
            ContentOf::ToolResult { tool_use_id, content, is_error } => {
                let error = if *is_error {
                    Some(Json::Bool(true))
                } else {
                    None
                };
                Json::object().with("type", Json::text("tool_result")).with(
                    "tool_use_id",
                    Json::text(tool_use_id.as_str()),
                ).with("content", content.to_json()).with_some("is_error", error)
            },
        }
    }
}

impl TurnOf<Vec<ContentBlock>> {
    /// The JSON form.
    pub fn to_json(&self) -> (r: Json)
        ensures
            r@ == turn_json(self@),
    {
        let role = match self.role {
            Role::User => "user",
            Role::Assistant => "assistant",
            Role::System => "system",
        };
        let mut list: Vec<Json> = Vec::new();
        let mut i: usize = 0;
        while i < self.content.len()
            invariant
                i <= self.content.len(),
                list.len() == i,
                forall|j: int|
                    0 <= j < i ==> (#[trigger] list@[j])@ == content_json(self.content@[j]@),
            decreases self.content.len() - i,
        {
            list.push(self.content[i].to_json());
            i = i + 1;
        }
        assert(views(list@) == self@.content.map_values(|b: ContentView| content_json(b)));
        Json::object().with("role", Json::text(role)).with("content", Json::Array(list))
    }
}

/// The JSON form of a list of messages.
pub fn render_turns(messages: &Vec<Message>) -> (r: Json)
    ensures
        r@ == turns_json(turn_views(messages@)),
{
    let mut list: Vec<Json> = Vec::new();
    let mut i: usize = 0;
    while i < messages.len()
        invariant
            i <= messages.len(),
            list.len() == i,
            forall|j: int| 0 <= j < i ==> (#[trigger] list@[j])@ == turn_json(messages@[j]@),
        decreases messages.len() - i,
    {
        list.push(messages[i].to_json());
        i = i + 1;
    }
    assert(views(list@) == turn_views(messages@).map_values(|m: TurnView| turn_json(m)));
    Json::Array(list)
}

/// A tool that the model may use.
#[derive(Debug)]
pub struct ToolOf<S, J> {
    pub name: S,
    pub description: Option<S>,
    pub input_schema: J,
}

pub type Tool = ToolOf<String, Json>;

pub type ToolView = ToolOf<Seq<char>, JsonView>;

impl View for ToolOf<String, Json> {
    type V = ToolOf<Seq<char>, JsonView>;

    open spec fn view(&self) -> ToolView {
        ToolOf {
            name: self.name@,
            description: text_in(self.description),
            input_schema: self.input_schema@,
        }
    }
}

/// What the tools of a list hold.
pub open spec fn tool_views(tools: Seq<Tool>) -> Seq<ToolView> {
    tools.map_values(|t: Tool| t@)
}

/// The JSON form of a tool.
pub open spec fn tool_json(t: ToolView) -> JsonView {
    JsonView::object().with("name"@, JsonView::Text(t.name)).with_some(
        "description"@,
        text_json(t.description),
    ).with("input_schema"@, t.input_schema)
}

/// The JSON form of a list of tools.
pub fn render_tools(tools: &Vec<Tool>) -> (r: Json)
    ensures
        r@ == JsonView::Array(tool_views(tools@).map_values(|t: ToolView| tool_json(t))),
{
    let mut list: Vec<Json> = Vec::new();
    let mut i: usize = 0;
    while i < tools.len()
        invariant
            i <= tools.len(),
            list.len() == i,
            forall|j: int| 0 <= j < i ==> (#[trigger] list@[j])@ == tool_json(tools@[j]@),
        decreases tools.len() - i,
    {
        let t = &tools[i];
        let description = match &t.description {
            Some(d) => Some(Json::text(d.as_str())),
            None => None,
        };
        list.push(
            Json::object().with("name", Json::text(t.name.as_str())).with_some(
                "description",
                description,
            ).with("input_schema", t.input_schema.copy()),
        );
        i = i + 1;
    }
    assert(views(list@) == tool_views(tools@).map_values(|t: ToolView| tool_json(t)));
    Json::Array(list)
}

/// Which tools the model is asked to use.
#[derive(Debug)]
pub enum ToolChoiceOf<S> {
    Auto { one_at_a_time: bool },
    Any { one_at_a_time: bool },
    Tool { name: S, one_at_a_time: bool },
    Never,
}

pub type ToolChoice = ToolChoiceOf<String>;

pub type ToolChoiceView = ToolChoiceOf<Seq<char>>;

impl View for ToolChoiceOf<String> {
    type V = ToolChoiceOf<Seq<char>>;

    open spec fn view(&self) -> ToolChoiceView {
        match self {
            ToolChoiceOf::Auto { one_at_a_time } => ToolChoiceOf::Auto {
                one_at_a_time: *one_at_a_time,
            },
            ToolChoiceOf::Any { one_at_a_time } => ToolChoiceOf::Any {
                one_at_a_time: *one_at_a_time,
            },
            ToolChoiceOf::Tool { name, one_at_a_time } => ToolChoiceOf::Tool {
                name: name@,
                one_at_a_time: *one_at_a_time,
            },
            ToolChoiceOf::Never => ToolChoiceOf::Never,
        }
    }
}

pub open spec fn one_at_a_time_json(on: bool) -> Option<JsonView> {
    if on {
        Some(JsonView::Bool(true))
    } else {
        None
    }
}

/// The JSON form of a choice of tools.
pub open spec fn choice_json(c: ToolChoiceView) -> JsonView {
    match c {
        ToolChoiceOf::Auto { one_at_a_time } => JsonView::object().with(
            "type"@,
            JsonView::Text("auto"@),
        ).with_some("disable_parallel_tool_use"@, one_at_a_time_json(one_at_a_time)),
        ToolChoiceOf::Any { one_at_a_time } => JsonView::object().with(
            "type"@,
            JsonView::Text("any"@),
        ).with_some("disable_parallel_tool_use"@, one_at_a_time_json(one_at_a_time)),
        ToolChoiceOf::Tool { name, one_at_a_time } => JsonView::object().with(
            "type"@,
            JsonView::Text("tool"@),
        ).with("name"@, JsonView::Text(name)).with_some(
            "disable_parallel_tool_use"@,
            one_at_a_time_json(one_at_a_time),
        ),
        ToolChoiceOf::Never => JsonView::object().with("type"@, JsonView::Text("none"@)),
    }
}

fn one_at_a_time_value(on: bool) -> (r: Option<Json>)
    ensures
        (match r {
            Some(j) => Some(j@),
            None => None,
        }) == one_at_a_time_json(on),
{
    if on {
        Some(Json::Bool(true))
    } else {
        None
    }
}

impl ToolChoiceOf<String> {
    /// The JSON form.
    pub fn to_json(&self) -> (r: Json)
        ensures
            r@ == choice_json(self@),
    {
        match self {
            ToolChoiceOf::Auto { one_at_a_time } => Json::object().with(
                "type",
                Json::text("auto"),
            ).with_some("disable_parallel_tool_use", one_at_a_time_value(*one_at_a_time)),
            ToolChoiceOf::Any { one_at_a_time } => Json::object().with(
                "type",
                Json::text("any"),
            ).with_some("disable_parallel_tool_use", one_at_a_time_value(*one_at_a_time)),
            ToolChoiceOf::Tool { name, one_at_a_time } => Json::object().with(
                "type",
                Json::text("tool"),
            ).with("name", Json::text(name.as_str())).with_some(
                "disable_parallel_tool_use",
                one_at_a_time_value(*one_at_a_time),
            ),
            ToolChoiceOf::Never => Json::object().with("type", Json::text("none")),
        }
    }
}

/// The name of an effort.
pub open spec fn effort_name(effort: ThinkingEffort) -> Seq<char> {
    match effort {
        ThinkingEffort::Low => "low"@,
        ThinkingEffort::Medium => "medium"@,
        ThinkingEffort::High => "high"@,
        ThinkingEffort::XHigh => "xhigh"@,
        ThinkingEffort::Max => "max"@,
    }
}

/// Whether the model is to think.
#[derive(Debug, Clone, Copy, PartialEq, Eq, Structural)]
pub enum ThinkingInput {
    Adaptive,
    Disabled,
}

/// A request of the Messages API.
#[derive(Debug)]
pub struct RequestOf<S, J, M, T, L> {
    pub messages: M,
    /// The texts of the system prompt, where there is one.
    pub system: Option<L>,
    pub model: S,
    pub max_tokens: usize,
    pub stream: bool,
    pub temperature: Option<J>,
    pub top_p: Option<J>,
    /// The tools, where there are any.
    pub tools: Option<T>,
    pub tool_choice: Option<ToolChoiceOf<S>>,
    /// The id of the end user, where one is given.
    pub user_id: Option<S>,
    pub thinking: Option<ThinkingInput>,
    pub effort: Option<ThinkingEffort>,
    /// The JSON schema that the answer must follow, where there is one.
    pub schema: Option<J>,
}

pub type MessagesRequest = RequestOf<String, Json, Vec<Message>, Vec<Tool>, Vec<String>>;

pub type RequestView = RequestOf<
    Seq<char>,
    JsonView,
    Seq<TurnView>,
    Seq<ToolView>,
    Seq<Seq<char>>,
>;

/// What an optional value holds.
pub open spec fn json_in(j: Option<Json>) -> Option<JsonView> {
    match j {
        Some(j) => Some(j@),
        None => None,
    }
}

impl View for RequestOf<String, Json, Vec<Message>, Vec<Tool>, Vec<String>> {
    type V = RequestOf<Seq<char>, JsonView, Seq<TurnView>, Seq<ToolView>, Seq<Seq<char>>>;

    open spec fn view(&self) -> RequestView {
        RequestOf {
            messages: turn_views(self.messages@),
            system: match self.system {
                Some(list) => Some(texts(list@)),
                None => None,
            },
            model: self.model@,
            max_tokens: self.max_tokens,
            stream: self.stream,
            temperature: json_in(self.temperature),
            top_p: json_in(self.top_p),
            tools: match self.tools {
                Some(list) => Some(tool_views(list@)),
                None => None,
            },
            tool_choice: match self.tool_choice {
                Some(c) => Some(c@),
                None => None,
            },
            user_id: text_in(self.user_id),
            thinking: self.thinking,
            effort: self.effort,
            schema: json_in(self.schema),
        }
    }
}

/// The JSON form of whether the model is to think.
pub open spec fn thinking_json(t: ThinkingInput) -> JsonView {
    JsonView::object().with(
        "type"@,
        JsonView::Text(
            match t {
                ThinkingInput::Adaptive => "adaptive"@,
                ThinkingInput::Disabled => "disabled"@,
            },
        ),
    )
}

/// The JSON form of what the output is to be like, where anything is asked of it.
pub open spec fn output_config_json(
    effort: Option<ThinkingEffort>,
    schema: Option<JsonView>,
) -> Option<JsonView> {
    if effort is None && schema is None {
        None
    } else {
        Some(
            JsonView::object().with_some("effort"@, match effort {
                Some(e) => Some(JsonView::Text(effort_name(e))),
                None => None,
            }).with_some("format"@, match schema {
                Some(s) => Some(
                    JsonView::object().with("type"@, JsonView::Text("json_schema"@)).with(
                        "schema"@,
                        s,
                    ),
                ),
                None => None,
            }),
        )
    }
}

/// The JSON form of a request.
pub open spec fn request_json(r: RequestView) -> JsonView {
    JsonView::object().with("messages"@, turns_json(r.messages)).with_some(
        "system"@,
        match r.system {
            Some(list) => Some(
                JsonView::Array(list.map_values(|s: Seq<char>| plain_json(s))),
            ),
            None => None,
        },
    ).with("model"@, JsonView::Text(r.model)).with(
        "max_tokens"@,
        JsonView::Unsigned(r.max_tokens as u64),
    ).with_some(
        "stream"@,
        if r.stream {
            Some(JsonView::Bool(true))
        } else {
            None
        },
    ).with_some("temperature"@, r.temperature).with_some("top_p"@, r.top_p).with_some(
        "tools"@,
        match r.tools {
            Some(list) => Some(JsonView::Array(list.map_values(|t: ToolView| tool_json(t)))),
            None => None,
        },
    ).with_some("tool_choice"@, match r.tool_choice {
        Some(c) => Some(choice_json(c)),
        None => None,
    }).with_some("metadata"@, match r.user_id {
        Some(id) => Some(JsonView::object().with("user_id"@, JsonView::Text(id))),
        None => None,
    }).with_some("thinking"@, match r.thinking {
        Some(t) => Some(thinking_json(t)),
        None => None,
    }).with_some("output_config"@, output_config_json(r.effort, r.schema))
}

fn copy_json(j: &Option<Json>) -> (r: Option<Json>)
    ensures
        json_in(r) == json_in(*j),
{
    match j {
        Some(j) => Some(j.copy()),
        None => None,
    }
}

impl RequestOf<String, Json, Vec<Message>, Vec<Tool>, Vec<String>> {
    fn system_json(&self) -> (r: Option<Json>)
        ensures
            json_in(r) == (match self@.system {
                Some(list) => Some(
                    JsonView::Array(list.map_values(|s: Seq<char>| plain_json(s))),
                ),
                None => None,
            }),
    {
        match &self.system {
            Some(list) => {
                let mut blocks: Vec<Json> = Vec::new();
                let mut i: usize = 0;
                while i < list.len()
                    invariant
                        i <= list.len(),
                        blocks.len() == i,
                        forall|j: int|
                            0 <= j < i ==> (#[trigger] blocks@[j])@ == plain_json(list@[j]@),
                    decreases list.len() - i,
                {
                    blocks.push(plain_to_json(list[i].as_str()));
                    i = i + 1;
                }
                assert(views(blocks@) == texts(list@).map_values(|s: Seq<char>| plain_json(s)));
                Some(Json::Array(blocks))
            },
            None => None,
        }
    }

    fn output_config(&self) -> (r: Option<Json>)
        ensures
            json_in(r) == output_config_json(self.effort, json_in(self.schema)),
    {
        if self.effort.is_none() && self.schema.is_none() {
            return None;
        }
        let effort = match self.effort {
            Some(e) => Some(
                Json::text(
                    match e {
                        ThinkingEffort::Low => "low",
                        ThinkingEffort::Medium => "medium",
                        ThinkingEffort::High => "high",
                        ThinkingEffort::XHigh => "xhigh",
                        ThinkingEffort::Max => "max",
                    },
                ),
            ),
            None => None,
        };
        let format = match &self.schema {
            Some(s) => Some(
                Json::object().with("type", Json::text("json_schema")).with("schema", s.copy()),
            ),
            None => None,
        };
        Some(Json::object().with_some("effort", effort).with_some("format", format))
    }

    /// The JSON form.
    pub fn to_json(&self) -> (r: Json)
        ensures
            r@ == request_json(self@),
    {
        let stream = if self.stream {
            Some(Json::Bool(true))
        } else {
            None
        };
        let tools = match &self.tools {
            Some(list) => Some(render_tools(list)),
            None => None,
        };
        let choice = match &self.tool_choice {
            Some(c) => Some(c.to_json()),
            None => None,
        };
        let metadata = match &self.user_id {
            Some(id) => Some(Json::object().with("user_id", Json::text(id.as_str()))),
            None => None,
        };
        let thinking = match self.thinking {
            Some(t) => Some(
                Json::object().with(
                    "type",
                    Json::text(
                        match t {
                            ThinkingInput::Adaptive => "adaptive",
                            ThinkingInput::Disabled => "disabled",
                        },
                    ),
                ),
            ),
            None => None,
        };
        Json::object().with("messages", render_turns(&self.messages)).with_some(
            "system",
            self.system_json(),
        ).with("model", Json::text(self.model.as_str())).with(
            "max_tokens",
            Json::Unsigned(self.max_tokens as u64),
        ).with_some("stream", stream).with_some(
            "temperature",
            copy_json(&self.temperature),
        ).with_some("top_p", copy_json(&self.top_p)).with_some("tools", tools).with_some(
            "tool_choice",
            choice,
        ).with_some("metadata", metadata).with_some("thinking", thinking).with_some(
            "output_config",
            self.output_config(),
        )
    }
}

} // verus!
