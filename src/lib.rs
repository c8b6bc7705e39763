//! Inbound message pipeline of a spot market-data websocket client: topic
//! rendering, envelope decoding, payload classification, normalisation into
//! typed messages, and a bounded broadcast hub.

pub mod book_ticker;
pub mod deals;
pub mod hub;
pub mod json;
pub mod message;
pub mod numeric;
pub mod raw;
pub mod topic;
