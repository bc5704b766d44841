//! A real-time chat hub: an append-only message history, a lossy fan-out bus
//! with one bounded buffer per subscriber, and the decisions around the
//! optional AI reply that augments each human message.

pub mod message;
pub mod history;
pub mod bus;
pub mod augment;
pub mod hub;
