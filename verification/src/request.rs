//! The chat request that is sent to the engine.
use vstd::prelude::*;
use crate::model::OllamaChatMessage;

verus! {

/// A chat message request to Sakura AI Engine: the model's name, the messages of the
/// conversation, and whether the answer is to be streamed.
#[derive(Clone, Debug)]
pub struct ChatMessageRequest {
    pub model_name: String,
    pub messages: Vec<OllamaChatMessage>,
    pub stream: bool,
}

impl ChatMessageRequest {
    /// A request for `model_name` with `messages`, not streamed; the send methods
    /// set the streaming flag before they send it.
    pub fn new(model_name: String, messages: Vec<OllamaChatMessage>) -> (r: Self)
        ensures
            r.model_name == model_name,
            r.messages == messages,
            !r.stream,
    {
        ChatMessageRequest { model_name, messages, stream: false }
    }

    /// This request with the streaming flag set to `stream`.
    pub fn with_stream(self, stream: bool) -> (r: Self)
        ensures
            r.model_name == self.model_name,
            r.messages == self.messages,
            r.stream == stream,
    {
        ChatMessageRequest { stream, ..self }
    }

    /// This request with its messages replaced by `messages`.
    pub fn with_messages(self, messages: Vec<OllamaChatMessage>) -> (r: Self)
        ensures
            r.model_name == self.model_name,
            r.messages == messages,
            r.stream == self.stream,
    {
        ChatMessageRequest { messages, ..self }
    }
}

} // verus!
