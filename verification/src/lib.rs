//! Verified core of a bridge between the Responses API and the Messages API, and of the
//! credentials that let callers use it.

pub mod action_laws;
pub mod actions;
pub mod agreement;
pub mod answer;
pub mod answer_laws;
pub mod call_laws;
pub mod calls;
pub mod check_laws;
pub mod choice;
pub mod codec;
pub mod content;
pub mod declare;
pub mod declare_laws;
pub mod decode;
pub mod device;
pub mod envelope;
pub mod error;
pub mod event_laws;
pub mod fault;
pub mod gate_laws;
pub mod hints;
pub mod history;
pub mod history_laws;
pub mod ingress;
pub mod input;
pub mod items;
pub mod json;
pub mod login;
pub mod login_laws;
pub mod lookups;
pub mod media;
pub mod media_laws;
pub mod messages;
pub mod order_laws;
pub mod outgoing;
pub mod output_laws;
pub mod policy;
pub mod read_laws;
pub mod refusal_laws;
pub mod replay;
pub mod request;
pub mod request_laws;
pub mod request_types;
pub mod response;
pub mod responses;
pub mod schema;
pub mod schema_laws;
pub mod stream;
pub mod stream_blocks;
pub mod stream_ends;
pub mod stream_events;
pub mod stream_laws;
pub mod stream_silence;
pub mod stream_state;
pub mod talk_laws;
pub mod text;
pub mod tool_laws;
pub mod tools;
pub mod toplevel;
pub mod usage;
pub mod yaml;
