//! The request-execution contract: the checks made before a request goes out,
//! what is done with a single response, and the state machine that turns the
//! events of a streamed response into chunks.
pub mod post;
pub mod stream;
