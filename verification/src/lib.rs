//! A small client-side model of a chat-completion conversation: a bounded
//! message history, the request it gives rise to, and the reading of the reply.

pub mod history;
pub mod json;
pub mod message;
pub mod openai;
pub mod parse;
pub mod reply;
pub mod request;
