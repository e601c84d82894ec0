//! Turns the unpredictable text that a generative model returns into either a
//! graph document or a tagged failure, and frames the reply to the caller.
pub mod json;
pub mod normalize;
pub mod gateway;
pub mod auth;
