//! What keeps a request or a response from being converted.
use vstd::prelude::*;

use crate::text::{join, owned};

verus! {

/// Why a conversion failed.
#[derive(Debug, Clone, Copy, PartialEq, Eq, Structural)]
pub enum AIError {
    /// The request asks for something that has no counterpart.
    UnsupportedConversion(Unsupported),
    /// What the provider answered is no valid response.
    InvalidResponse(Malformed),
    /// The machine's clock stands at a time that cannot be told.
    UnsupportedClock,
}

/// What a provider's answer suffers from.
#[derive(Debug, Clone, Copy, PartialEq, Eq, Structural)]
pub enum Malformed {
    Response,
    OutputTooLarge,
}

/// What a request asks for that has no counterpart.
#[derive(Debug, Clone, Copy, PartialEq, Eq, Structural)]
pub enum Unsupported {
    RequestShape,
    RequestField,
    UserIdentifier,
    StoreRequired,
    PreviousResponseId,
    Conversation,
    Prompt,
    Background,
    StreamOptions,
    Logprobs,
    LogprobsShape,
    MaxToolCalls,
    ServiceTier,
    TopLogprobs,
    Truncation,
    TextOption,
    TextVerbosity,
    VendorExtensions,
    Reasoning,
    IncludeList,
    Temperature,
    InputRequired,
    MaxOutputTokens,
    ToolDeclaration,
    HostedWebSearch,
    ToolChoice,
    ToolHistory,
    OutputFormat,
    TextFormatOption,
    SchemaStrict,
    SchemaMissing,
    InstructionsEmpty,
    InputEmpty,
    InputItem,
    ReasoningHistory,
    MessageId,
    MessageRoleRequired,
    InputItemField,
    MessageContentRequired,
    SystemOrder,
    MessageRole,
    Input,
    AssistantPhase,
    AssistantStatus,
    AssistantContentEmpty,
    AssistantContent,
    AssistantContentField,
    AssistantAnnotations,
    AssistantLogprobs,
    AssistantText,
    AssistantRefusal,
    EmptyRefusal,
    ContentEmpty,
    Content,
    ContentField,
    TextRequired,
    Image,
    ImageUrlRequired,
    ImageMediaType,
    ImageUrl,
    File,
    FileDetail,
    FileName,
    FileUrl,
    FileSource,
    FileData,
    FileUtf8,
    FileMediaType,
}

impl Unsupported {
    pub open spec fn message_spec(self) -> Seq<char> {
        match self {
            Unsupported::RequestShape => "unsupported Responses request"@,
            Unsupported::RequestField => "unsupported Responses request field"@,
            Unsupported::UserIdentifier => "unsupported Responses user identifier"@,
            Unsupported::StoreRequired => "Responses requests must set store to false"@,
            Unsupported::PreviousResponseId => "Responses previous_response_id is unsupported"@,
            Unsupported::Conversation => "Responses conversation is unsupported"@,
            Unsupported::Prompt => "Responses prompt is unsupported"@,
            Unsupported::Background => "Responses background mode is unsupported"@,
            Unsupported::StreamOptions => "Responses stream options must be omitted or disable obfuscation"@,
            Unsupported::Logprobs => "Responses logprobs are unsupported"@,
            Unsupported::LogprobsShape => "unsupported Responses logprobs"@,
            Unsupported::MaxToolCalls => "Responses max_tool_calls is unsupported"@,
            Unsupported::ServiceTier => "Responses service_tier is unsupported"@,
            Unsupported::TopLogprobs => "Responses top_logprobs is unsupported"@,
            Unsupported::Truncation => "unsupported Responses truncation"@,
            Unsupported::TextOption => "unsupported Responses text option"@,
            Unsupported::TextVerbosity => "Responses text verbosity is unsupported"@,
            Unsupported::VendorExtensions => "Responses vendor extensions are unsupported"@,
            Unsupported::Reasoning => "Responses reasoning is unsupported"@,
            Unsupported::IncludeList => "Responses include is unsupported"@,
            Unsupported::Temperature => "Responses temperature must be between 0 and 1"@,
            Unsupported::InputRequired => "Responses input is required"@,
            Unsupported::MaxOutputTokens => "Responses max_output_tokens is too large"@,
            Unsupported::ToolDeclaration => "invalid Responses tool declaration"@,
            Unsupported::HostedWebSearch => "Responses hosted web search is unsupported"@,
            Unsupported::ToolChoice => "invalid Responses tool choice"@,
            Unsupported::ToolHistory => "invalid Responses tool history"@,
            Unsupported::OutputFormat => "Responses output formats are unsupported"@,
            Unsupported::TextFormatOption => "unsupported Responses text format option"@,
            Unsupported::SchemaStrict => "Responses JSON schema output requires strict true"@,
            Unsupported::SchemaMissing => "Responses JSON schema output requires a schema"@,
            Unsupported::InstructionsEmpty => "Responses instructions must not be empty"@,
            Unsupported::InputEmpty => "Responses input must not be empty"@,
            Unsupported::InputItem => "unsupported Responses input item"@,
            Unsupported::ReasoningHistory => "Responses reasoning history is unsupported"@,
            Unsupported::MessageId => "unsupported Responses message id"@,
            Unsupported::MessageRoleRequired => "Responses message role is required"@,
            Unsupported::InputItemField => "unsupported Responses input item field"@,
            Unsupported::MessageContentRequired => "Responses message content is required"@,
            Unsupported::SystemOrder => "Responses system messages must precede conversation messages"@,
            Unsupported::MessageRole => "unsupported Responses message role"@,
            Unsupported::Input => "unsupported Responses input"@,
            Unsupported::AssistantPhase => "unsupported Responses assistant phase"@,
            Unsupported::AssistantStatus => "unsupported Responses assistant status"@,
            Unsupported::AssistantContentEmpty => "Responses assistant content must not be empty"@,
            Unsupported::AssistantContent => "unsupported Responses assistant content"@,
            Unsupported::AssistantContentField => "unsupported Responses assistant content field"@,
            Unsupported::AssistantAnnotations => "Responses assistant annotations are unsupported"@,
            Unsupported::AssistantLogprobs => "Responses assistant logprobs are unsupported"@,
            Unsupported::AssistantText => "Responses assistant text is required"@,
            Unsupported::AssistantRefusal => "Responses assistant refusal text is required"@,
            Unsupported::EmptyRefusal => "a content-free Responses refusal cannot be replayed as history"@,
            Unsupported::ContentEmpty => "Responses message content must not be empty"@,
            Unsupported::Content => "unsupported Responses message content"@,
            Unsupported::ContentField => "unsupported Responses message content field"@,
            Unsupported::TextRequired => "Responses text content is required"@,
            Unsupported::Image => "unsupported Responses input image"@,
            Unsupported::ImageUrlRequired => "Responses input image URL is required"@,
            Unsupported::ImageMediaType => "unsupported Responses input image media type"@,
            Unsupported::ImageUrl => "invalid Responses input image URL"@,
            Unsupported::File => "unsupported Responses input file"@,
            Unsupported::FileDetail => "unsupported Responses input file detail"@,
            Unsupported::FileName => "unsupported Responses input file filename"@,
            Unsupported::FileUrl => "invalid Responses input file URL"@,
            Unsupported::FileSource => "Responses input file requires exactly one source"@,
            Unsupported::FileData => "invalid Responses input file data"@,
            Unsupported::FileUtf8 => "Responses text file must be UTF-8"@,
            Unsupported::FileMediaType => "unsupported Responses input file media type"@,
        }
    }

    /// The fixed message of the reason. It holds nothing of the request.
    pub fn message(&self) -> (r: &'static str)
        ensures
            r@ == self.message_spec(),
    {
        match self {
            Unsupported::RequestShape => "unsupported Responses request",
            Unsupported::RequestField => "unsupported Responses request field",
            Unsupported::UserIdentifier => "unsupported Responses user identifier",
            Unsupported::StoreRequired => "Responses requests must set store to false",
            Unsupported::PreviousResponseId => "Responses previous_response_id is unsupported",
            Unsupported::Conversation => "Responses conversation is unsupported",
            Unsupported::Prompt => "Responses prompt is unsupported",
            Unsupported::Background => "Responses background mode is unsupported",
            Unsupported::StreamOptions => "Responses stream options must be omitted or disable obfuscation",
            Unsupported::Logprobs => "Responses logprobs are unsupported",
            Unsupported::LogprobsShape => "unsupported Responses logprobs",
            Unsupported::MaxToolCalls => "Responses max_tool_calls is unsupported",
            Unsupported::ServiceTier => "Responses service_tier is unsupported",
            Unsupported::TopLogprobs => "Responses top_logprobs is unsupported",
            Unsupported::Truncation => "unsupported Responses truncation",
            Unsupported::TextOption => "unsupported Responses text option",
            Unsupported::TextVerbosity => "Responses text verbosity is unsupported",
            Unsupported::VendorExtensions => "Responses vendor extensions are unsupported",
            Unsupported::Reasoning => "Responses reasoning is unsupported",
            Unsupported::IncludeList => "Responses include is unsupported",
            Unsupported::Temperature => "Responses temperature must be between 0 and 1",
            Unsupported::InputRequired => "Responses input is required",
            Unsupported::MaxOutputTokens => "Responses max_output_tokens is too large",
            Unsupported::ToolDeclaration => "invalid Responses tool declaration",
            Unsupported::HostedWebSearch => "Responses hosted web search is unsupported",
            Unsupported::ToolChoice => "invalid Responses tool choice",
            Unsupported::ToolHistory => "invalid Responses tool history",
            Unsupported::OutputFormat => "Responses output formats are unsupported",
            Unsupported::TextFormatOption => "unsupported Responses text format option",
            Unsupported::SchemaStrict => "Responses JSON schema output requires strict true",
            Unsupported::SchemaMissing => "Responses JSON schema output requires a schema",
            Unsupported::InstructionsEmpty => "Responses instructions must not be empty",
            Unsupported::InputEmpty => "Responses input must not be empty",
            Unsupported::InputItem => "unsupported Responses input item",
            Unsupported::ReasoningHistory => "Responses reasoning history is unsupported",
            Unsupported::MessageId => "unsupported Responses message id",
            Unsupported::MessageRoleRequired => "Responses message role is required",
            Unsupported::InputItemField => "unsupported Responses input item field",
            Unsupported::MessageContentRequired => "Responses message content is required",
            Unsupported::SystemOrder => "Responses system messages must precede conversation messages",
            Unsupported::MessageRole => "unsupported Responses message role",
            Unsupported::Input => "unsupported Responses input",
            Unsupported::AssistantPhase => "unsupported Responses assistant phase",
            Unsupported::AssistantStatus => "unsupported Responses assistant status",
            Unsupported::AssistantContentEmpty => "Responses assistant content must not be empty",
            Unsupported::AssistantContent => "unsupported Responses assistant content",
            Unsupported::AssistantContentField => "unsupported Responses assistant content field",
            Unsupported::AssistantAnnotations => "Responses assistant annotations are unsupported",
            Unsupported::AssistantLogprobs => "Responses assistant logprobs are unsupported",
            Unsupported::AssistantText => "Responses assistant text is required",
            Unsupported::AssistantRefusal => "Responses assistant refusal text is required",
            Unsupported::EmptyRefusal => "a content-free Responses refusal cannot be replayed as history",
            Unsupported::ContentEmpty => "Responses message content must not be empty",
            Unsupported::Content => "unsupported Responses message content",
            Unsupported::ContentField => "unsupported Responses message content field",
            Unsupported::TextRequired => "Responses text content is required",
            Unsupported::Image => "unsupported Responses input image",
            Unsupported::ImageUrlRequired => "Responses input image URL is required",
            Unsupported::ImageMediaType => "unsupported Responses input image media type",
            Unsupported::ImageUrl => "invalid Responses input image URL",
            Unsupported::File => "unsupported Responses input file",
            Unsupported::FileDetail => "unsupported Responses input file detail",
            Unsupported::FileName => "unsupported Responses input file filename",
            Unsupported::FileUrl => "invalid Responses input file URL",
            Unsupported::FileSource => "Responses input file requires exactly one source",
            Unsupported::FileData => "invalid Responses input file data",
            Unsupported::FileUtf8 => "Responses text file must be UTF-8",
            Unsupported::FileMediaType => "unsupported Responses input file media type",
        }
    }
}

impl Malformed {
    pub open spec fn message_spec(self) -> Seq<char> {
        match self {
            Malformed::Response => "invalid Anthropic Messages response"@,
            Malformed::OutputTooLarge =>
                "Anthropic Messages response output exceeds the configured size limit"@,
        }
    }

    /// The fixed message of the reason. It holds nothing of the answer.
    pub fn message(&self) -> (r: &'static str)
        ensures
            r@ == self.message_spec(),
    {
        match self {
            Malformed::Response => "invalid Anthropic Messages response",
            Malformed::OutputTooLarge =>
                "Anthropic Messages response output exceeds the configured size limit",
        }
    }
}

impl AIError {
    pub open spec fn text_spec(self) -> Seq<char> {
        match self {
            AIError::UnsupportedConversion(u) => "unsupported conversion: "@ + u.message_spec(),
            AIError::InvalidResponse(m) => "invalid response: "@ + m.message_spec(),
            AIError::UnsupportedClock => "unsupported clock value"@,
        }
    }

    /// The error as text.
    pub fn to_text(&self) -> (r: String)
        ensures
            r@ == self.text_spec(),
    {
        match self {
            AIError::UnsupportedConversion(u) => join("unsupported conversion: ", u.message()),
            AIError::InvalidResponse(m) => join("invalid response: ", m.message()),
            AIError::UnsupportedClock => owned("unsupported clock value"),
        }
    }
}

/// The provider's answer is no valid response.
pub open spec fn invalid() -> AIError {
    AIError::InvalidResponse(Malformed::Response)
}

/// The provider's answer is no valid response.
pub fn invalid_response() -> (r: AIError)
    ensures
        r == invalid(),
{
    AIError::InvalidResponse(Malformed::Response)
}

/// The error for what has no counterpart.
pub open spec fn unsupported(u: Unsupported) -> AIError {
    AIError::UnsupportedConversion(u)
}

/// The error for what has no counterpart.
pub fn refuse(u: Unsupported) -> (r: AIError)
    ensures
        r == unsupported(u),
{
    AIError::UnsupportedConversion(u)
}

} // verus!
