//! The deciding part of a client for one chat-completion exchange: what is
//! kept of the line that was typed, the request that is sent for the prompt,
//! the text that is taken from the response, and the course of the exchange
//! in between. Reading the environment, the HTTP round trip, JSON and the
//! console stay with the caller, who drives the exchange step by step.

pub mod call;
pub mod chat;
pub mod console;
pub mod error;
pub mod exchange;
pub mod policy;
pub mod prompt;
