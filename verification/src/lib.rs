//! A client library for the Sakura AI Engine chat-completion API, shaped so that
//! code written against ollama-rs can switch to it with few changes.
//!
//! The modules hold the verified core of the client:
//! - [`text`]: Unicode whitespace, trimming and prefix stripping on characters;
//! - [`stream`]: framing of the server-sent event stream into JSON payloads;
//! - [`model`]: plain-value models of the ollama-rs message types;
//! - [`chat`]: the Sakura AI Engine response types and their conversion;
//! - [`request`]: the chat request sent to the engine;
//! - [`history`]: bookkeeping of the conversation history;
//! - [`client`]: the service address of a client.
pub mod chat;
pub mod client;
pub mod history;
pub mod model;
pub mod request;
pub mod stream;
pub mod text;


pub use chat::{ChatMessage, ChatMessageChoice, ChatMessageResponse, ChatMessageUsage};
pub use client::{SakuraAI, ServiceUrl, UrlError};
pub use history::StreamRecorder;
pub use model::{MessageRole, OllamaChatMessage, OllamaChatMessageResponse, ToolCall};
pub use request::ChatMessageRequest;
pub use stream::StreamDecoder;
