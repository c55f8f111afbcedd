use crate::message::{turns, Message, MessageModel};
use vstd::prelude::*;

verus! {

/// Where every completion request goes.
pub open spec fn endpoint() -> Seq<char> {
    "https://api.openai.com/v1/chat/completions"@
}

/// The model that every completion request names, and the one a new
/// conversation is configured with.
pub open spec fn default_model() -> Seq<char> {
    "gpt-4o-mini"@
}

/// The value of the `Authorization` header for a credential.
pub open spec fn bearer(api_key: Seq<char>) -> Seq<char> {
    "Bearer "@ + api_key
}

/// A completion request as mathematics.
pub struct RequestModel {
    pub url: Seq<char>,
    pub authorization: Seq<char>,
    pub model: Seq<char>,
    pub messages: Seq<MessageModel>,
}

/// All that one completion request consists of: a `POST` to `url`, with
/// `authorization` as the value of its `Authorization` header and, as its
/// body, the JSON object with the two members `model` and `messages`.
#[derive(Debug, PartialEq, Eq)]
pub struct CompletionRequest {
    pub url: String,
    pub authorization: String,
    pub model: String,
    pub messages: Vec<Message>,
}

impl View for CompletionRequest {
    type V = RequestModel;

    open spec fn view(&self) -> RequestModel {
        RequestModel {
            url: self.url@,
            authorization: self.authorization@,
            model: self.model@,
            messages: turns(self.messages@),
        }
    }
}

} // verus!
