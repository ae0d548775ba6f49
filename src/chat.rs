//! Chat completions: the request schema, the two response schemas and what
//! they share.
pub mod no_streaming;
pub mod request;
pub mod response;
pub mod streaming;
