//! A client library for a minimal real-time chat protocol.
//!
//! The library covers the protocol layer of a chat session: encoding
//! outbound packets (join, chat, ping, stats request) to their wire text,
//! decoding inbound wire text into typed packets, and classifying each
//! transport frame into the next step a session should take (yield a
//! domain event, answer a control ping, skip, or end the stream).
//! Carrying the frames over an actual socket is left to the embedding
//! application.

pub mod codec;
pub mod session;
mod wire;

pub use session::ChatEvent;
pub use session::Frame;
pub use session::Session;
pub use session::StreamStep;
