//! A typed client library for OpenAI-compatible chat-completion services
//! (OpenAI, DeepSeek, Qwen), with every decision verified.
//!
//! - [`json`]: the JSON document tree that payloads are read from and built
//!   as, with serde_json as the parser.
//! - [`chat`]: the request schema and its JSON form, and the streaming and
//!   single-response schemas with their lenient decoders.
//! - [`rest`]: the checks made before a request goes out, the status rules,
//!   and the state machine that turns the events of a streamed response into
//!   chunks, ending at the `[DONE]` marker.
//! - [`files`]: the form fields of a file upload and the file object returned.
//! - [`errors`]: the error type shared by all of the above.
//!
//! The network itself (HTTP, TLS, server-sent-event framing) is the caller's:
//! the library takes what the transport delivers (a status, a body, the data
//! of each event) and says what it means.
pub mod chat;
pub mod errors;
pub mod files;
pub mod json;
pub mod rest;
