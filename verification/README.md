# copilot_bridge

A gateway lets clients that speak the Responses API use models that speak the Messages API, and
lets GitHub Copilot users in with credentials of its own. This crate is the part of it that
decides: how requests, answers and streams are converted, whose credentials are made and taken, and
how a login goes. Verus proves it.

## Layout

`src/` is the library. Everything in it is verified; what it takes from other crates on trust is
said in the doc comments of the functions that call them.

- JSON and text: `json`, `codec`, `text`, `yaml`.
- Requests: `toplevel`, `schema`, `declare`, `choice`, `media`, `content`, `actions`, `history`,
  `input`, `request_types`, `request`, and `error` for what cannot be converted.
- Answers: `messages`, `decode`, `usage`, `responses`, `items`, `calls`, `response`, `answer`.
- Streams: `stream_state`, `stream_events`, `stream_blocks`, `stream`.
- Credentials: `envelope`, `policy`, `ingress`, `login`, `device`, `outgoing`, and `fault` for what
  is not taken.
- What holds of all of them: `declare_laws`, `hints`, `replay`, `answer_laws`, `stream_laws`,
  `stream_ends`, `stream_silence`, `agreement`, and the public proof functions at the end of the
  other modules.

`app/` is ordinary Rust around the library: HTTP, GitHub over the network, files, the environment,
and the shapes that serde reads. `tests/` runs the library with the crates it calls.

## Reading a contract

A type that holds strings or lists is generic over them, so that `EnvelopeOf<String>` is the value
and `EnvelopeOf<Seq<char>>` is what contracts say of it. Most functions have a specification of the
same shape beside them, and a contract that says: the result is that specification, errors
included.
