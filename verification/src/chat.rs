//! The chat-completion response of the Sakura AI Engine and its conversion into the
//! ollama-rs response shape.
use vstd::prelude::*;
use crate::model::{
    opt_view, plain_message, tool_call_views, duplicate_tool_calls, MessageRole,
    OllamaChatMessage, OllamaChatMessageResponse, OllamaChatMessageResponseView,
    OllamaChatMessageView, ToolCall, ToolCallView,
};

verus! {

/// A chat message as the engine sends it: every part may be absent.
#[derive(Clone, Debug)]
pub struct ChatMessage {
    pub role: Option<MessageRole>,
    pub content: Option<String>,
    pub reasoning_content: Option<String>,
    pub tool_calls: Vec<ToolCall>,
}

/// The value of a [`ChatMessage`].
pub struct ChatMessageView {
    pub role: Option<MessageRole>,
    pub content: Option<Seq<char>>,
    pub reasoning_content: Option<Seq<char>>,
    pub tool_calls: Seq<ToolCallView>,
}

impl View for ChatMessage {
    type V = ChatMessageView;

    open spec fn view(&self) -> ChatMessageView {
        ChatMessageView {
            role: self.role,
            content: opt_view(self.content),
            reasoning_content: opt_view(self.reasoning_content),
            tool_calls: tool_call_views(self.tool_calls@),
        }
    }
}

/// The message of `role` with `content` and nothing else.
pub open spec fn engine_message(role: MessageRole, content: Seq<char>) -> ChatMessageView {
    ChatMessageView {
        role: Some(role),
        content: Some(content),
        reasoning_content: None,
        tool_calls: Seq::empty(),
    }
}

/// The ollama-rs message that stands for an engine message: a missing content is
/// empty, a missing role is the assistant's, and tool calls are kept only on a
/// message of the tool role; the reasoning content is dropped.
pub open spec fn ollama_message_of(m: ChatMessageView) -> OllamaChatMessageView {
    let content = match m.content {
        Some(c) => c,
        None => Seq::empty(),
    };
    match m.role {
        Some(MessageRole::Tool) => OllamaChatMessageView {
            tool_calls: m.tool_calls,
            ..plain_message(MessageRole::Tool, content)
        },
        Some(role) => plain_message(role, content),
        None => plain_message(MessageRole::Assistant, content),
    }
}

impl ChatMessage {
    /// A message of `role` with `content`.
    pub fn new(role: MessageRole, content: String) -> (m: Self)
        ensures
            m@ == engine_message(role, content@),
            m.role == Some(role),
            m.content == Some(content),
            m.reasoning_content is None,
            m.tool_calls@.len() == 0,
    {
        let m = ChatMessage {
            role: Some(role),
            content: Some(content),
            reasoning_content: None,
            tool_calls: Vec::new(),
        };
        assert(tool_call_views(m.tool_calls@) =~= Seq::empty());
        m
    }

    /// A message written by the user.
    pub fn user(content: String) -> (m: Self)
        ensures
            m@ == engine_message(MessageRole::User, content@),
            m.role == Some(MessageRole::User),
            m.content == Some(content),
            m.reasoning_content is None,
            m.tool_calls@.len() == 0,
    {
        Self::new(MessageRole::User, content)
    }

    /// A message written by the assistant.
    pub fn assistant(content: String) -> (m: Self)
        ensures
            m@ == engine_message(MessageRole::Assistant, content@),
            m.role == Some(MessageRole::Assistant),
            m.content == Some(content),
            m.reasoning_content is None,
            m.tool_calls@.len() == 0,
    {
        Self::new(MessageRole::Assistant, content)
    }

    /// A system message.
    pub fn system(content: String) -> (m: Self)
        ensures
            m@ == engine_message(MessageRole::System, content@),
            m.role == Some(MessageRole::System),
            m.content == Some(content),
            m.reasoning_content is None,
            m.tool_calls@.len() == 0,
    {
        Self::new(MessageRole::System, content)
    }

    /// A message that carries a tool's output.
    pub fn tool(content: String) -> (m: Self)
        ensures
            m@ == engine_message(MessageRole::Tool, content@),
            m.role == Some(MessageRole::Tool),
            m.content == Some(content),
            m.reasoning_content is None,
            m.tool_calls@.len() == 0,
    {
        Self::new(MessageRole::Tool, content)
    }

    /// The ollama-rs message that stands for this message.
    pub fn to_ollama(&self) -> (m: OllamaChatMessage)
        ensures
            m@ == ollama_message_of(self@),
    {
        let content = match &self.content {
            Some(c) => c.clone(),
            None => String::new(),
        };
        match self.role {
            Some(MessageRole::User) => OllamaChatMessage::user(content),
            Some(MessageRole::Assistant) => OllamaChatMessage::assistant(content),
            Some(MessageRole::System) => OllamaChatMessage::system(content),
            Some(MessageRole::Tool) => {
                let mut m = OllamaChatMessage::tool(content);
                if self.tool_calls.len() > 0 {
                    m.tool_calls = duplicate_tool_calls(&self.tool_calls);
                } else {
                    assert(tool_call_views(self.tool_calls@) =~= Seq::empty());
                }
                assert(m@.tool_calls == self@.tool_calls);
                m
            },
            None => OllamaChatMessage::assistant(content),
        }
    }
}

/// One of the choices of a response.
#[derive(Clone, Debug)]
pub struct ChatMessageChoice {
    pub index: u32,
    /// The whole message, in a response that is not streamed.
    pub message: Option<ChatMessage>,
    /// The part of the message, in a streamed response.
    pub delta: Option<ChatMessage>,
    /// Why the completion finished, once it has.
    pub finish_reason: Option<String>,
}

/// The value of a [`ChatMessageChoice`].
pub struct ChatMessageChoiceView {
    pub index: u32,
    pub message: Option<ChatMessageView>,
    pub delta: Option<ChatMessageView>,
    pub finish_reason: Option<Seq<char>>,
}

/// The value of an optional message.
pub open spec fn opt_message_view(o: Option<ChatMessage>) -> Option<ChatMessageView> {
    match o {
        Some(m) => Some(m@),
        None => None,
    }
}

impl View for ChatMessageChoice {
    type V = ChatMessageChoiceView;

    open spec fn view(&self) -> ChatMessageChoiceView {
        ChatMessageChoiceView {
            index: self.index,
            message: opt_message_view(self.message),
            delta: opt_message_view(self.delta),
            finish_reason: opt_view(self.finish_reason),
        }
    }
}

/// The token counts of a completion.
#[derive(Clone, Copy, Debug, PartialEq, Eq, Structural)]
pub struct ChatMessageUsage {
    /// Number of tokens in the prompt
    pub prompt_tokens: u64,
    /// Total number of tokens
    pub total_tokens: u64,
    /// Number of tokens generating the response
    pub completion_tokens: u64,
}

/// A chat-completion response of the engine.
#[derive(Clone, Debug)]
pub struct ChatMessageResponse {
    /// The unique identifier for the completion.
    pub id: String,
    /// The type of the object returned.
    pub object: String,
    /// The creation time of the completion, in seconds since the Unix epoch.
    pub created: i64,
    /// The name of the model used for the completion.
    pub model: String,
    /// The list of choices returned by the completion.
    pub choices: Vec<ChatMessageChoice>,
    /// The usage information for the completion.
    pub usage: ChatMessageUsage,
}

/// The value of a [`ChatMessageResponse`].
pub struct ChatMessageResponseView {
    pub id: Seq<char>,
    pub object: Seq<char>,
    pub created: i64,
    pub model: Seq<char>,
    pub choices: Seq<ChatMessageChoiceView>,
    pub usage: ChatMessageUsage,
}

impl View for ChatMessageResponse {
    type V = ChatMessageResponseView;

    open spec fn view(&self) -> ChatMessageResponseView {
        ChatMessageResponseView {
            id: self.id@,
            object: self.object@,
            created: self.created,
            model: self.model@,
            choices: self.choices@.map_values(|c: ChatMessageChoice| c@),
            usage: self.usage,
        }
    }
}

/// The ollama-rs response that stands for an engine response created at
/// `created_at`: it carries the first choice's message, or else its delta, and is
/// done when that choice has a finish reason; without a first choice that holds
/// either, it carries an empty assistant message and is not done.
pub open spec fn ollama_response_of(
    r: ChatMessageResponseView,
    created_at: Seq<char>,
) -> OllamaChatMessageResponseView {
    let empty = OllamaChatMessageResponseView {
        model: r.model,
        created_at,
        message: plain_message(MessageRole::Assistant, Seq::empty()),
        done: false,
    };
    if r.choices.len() > 0 {
        let choice = r.choices[0];
        let carried = match choice.message {
            Some(m) => Some(m),
            None => choice.delta,
        };
        match carried {
            Some(m) => OllamaChatMessageResponseView {
                model: r.model,
                created_at,
                message: ollama_message_of(m),
                done: choice.finish_reason is Some,
            },
            None => empty,
        }
    } else {
        empty
    }
}

/// A message built with a role and a content has that role and that content, and
/// no reasoning content or tool calls, whatever the role.
pub proof fn law_engine_message(role: MessageRole, content: Seq<char>)
    ensures
        engine_message(role, content).role == Some(role),
        engine_message(role, content).content == Some(content),
        engine_message(role, content).reasoning_content is None,
        engine_message(role, content).tool_calls.len() == 0,
{
}

/// What converting a message does, for every message: the content is the
/// message's content (empty when it has none) and nothing else; the role is the
/// message's role, or the assistant's when it has none; the tool calls are kept
/// on a tool message and dropped on any other; no images and no thinking are set.
pub proof fn law_message_conversion(m: ChatMessageView)
    ensures
        m.content matches Some(c) ==> ollama_message_of(m).content == c,
        m.content is None ==> ollama_message_of(m).content.len() == 0,
        m.role matches Some(r) ==> ollama_message_of(m).role == r,
        m.role is None ==> ollama_message_of(m).role == MessageRole::Assistant,
        m.role == Some(MessageRole::Tool) ==> ollama_message_of(m).tool_calls == m.tool_calls,
        m.role != Some(MessageRole::Tool) ==> ollama_message_of(m).tool_calls.len() == 0,
        ollama_message_of(m).images is None,
        ollama_message_of(m).thinking is None,
{
}

/// The reasoning content of a message never reaches the converted message: two
/// messages that differ only in it convert alike.
pub proof fn law_reasoning_not_carried(m: ChatMessageView, reasoning: Option<Seq<char>>)
    ensures
        ollama_message_of(ChatMessageView { reasoning_content: reasoning, ..m })
            == ollama_message_of(m),
{
}

/// What converting a response does, for every response and time stamp: the model
/// and the stamp are carried; when the first choice holds a message, that message
/// is carried, and otherwise its delta; either way the result is done exactly when
/// the first choice has a finish reason; without a first choice that holds either,
/// the result is an empty assistant message that is not done.
pub proof fn law_response_conversion(r: ChatMessageResponseView, created_at: Seq<char>)
    ensures
        ollama_response_of(r, created_at).model == r.model,
        ollama_response_of(r, created_at).created_at == created_at,
        r.choices.len() > 0 && r.choices[0].message is Some ==> ollama_response_of(
            r,
            created_at,
        ).message == ollama_message_of(r.choices[0].message->Some_0) && ollama_response_of(
            r,
            created_at,
        ).done == (r.choices[0].finish_reason is Some),
        r.choices.len() > 0 && r.choices[0].message is None && r.choices[0].delta is Some
            ==> ollama_response_of(r, created_at).message == ollama_message_of(
            r.choices[0].delta->Some_0,
        ) && ollama_response_of(r, created_at).done == (r.choices[0].finish_reason is Some),
        (r.choices.len() == 0 || (r.choices[0].message is None && r.choices[0].delta is None))
            ==> !ollama_response_of(r, created_at).done && ollama_response_of(
            r,
            created_at,
        ).message.role == MessageRole::Assistant && ollama_response_of(
            r,
            created_at,
        ).message.content.len() == 0 && ollama_response_of(r, created_at).message.tool_calls.len()
            == 0,
{
}

/// Only the first choice counts: two responses of the same model whose first
/// choices agree convert alike, whatever their other choices.
pub proof fn law_only_first_choice(
    r1: ChatMessageResponseView,
    r2: ChatMessageResponseView,
    created_at: Seq<char>,
)
    requires
        r1.model == r2.model,
        r1.choices.len() > 0,
        r2.choices.len() > 0,
        r1.choices[0] == r2.choices[0],
    ensures
        ollama_response_of(r1, created_at) == ollama_response_of(r2, created_at),
{
}

/// The RFC 3339 text of the instant `secs` seconds after the Unix epoch, as
/// `DateTime::<Utc>::from_timestamp_secs(secs)` and `to_rfc3339` of chrono give it;
/// `None` where chrono finds `secs` out of its range.
pub uninterp spec fn timestamp_rfc3339(secs: i64) -> Option<Seq<char>>;

/// `DateTime::<Utc>::from_timestamp_secs(secs)` of chrono, written out with
/// `to_rfc3339`: the result is what [`timestamp_rfc3339`] names.
#[verifier::external_body]
fn rfc3339_from_timestamp(secs: i64) -> (r: Option<String>)
    ensures
        opt_view(r) == timestamp_rfc3339(secs),
{
    match chrono::DateTime::<chrono::Utc>::from_timestamp_secs(secs) {
        Some(t) => Some(t.to_rfc3339()),
        None => None,
    }
}

/// `Utc::now()` of chrono, written out with `to_rfc3339`. The result depends on the
/// clock, so nothing is stated of it.
#[verifier::external_body]
fn rfc3339_now() -> (r: String) {
    chrono::Utc::now().to_rfc3339()
}

impl ChatMessageResponse {
    /// The creation time in RFC 3339 form; where chrono cannot represent `created`,
    /// the current time instead.
    pub fn created_at(&self) -> (t: String)
        ensures
            timestamp_rfc3339(self.created) matches Some(s) ==> t@ == s,
    {
        match rfc3339_from_timestamp(self.created) {
            Some(t) => t,
            None => rfc3339_now(),
        }
    }

    /// The ollama-rs response that stands for this response, stamped `created_at`.
    pub fn to_ollama_at(&self, created_at: String) -> (r: OllamaChatMessageResponse)
        ensures
            r@ == ollama_response_of(self@, created_at@),
    {
        let model = self.model.clone();
        if self.choices.len() > 0 {
            let choice = &self.choices[0];
            assert(self@.choices[0] == choice@);
            let done = choice.finish_reason.is_some();
            match &choice.message {
                Some(m) => {
                    return OllamaChatMessageResponse {
                        model,
                        created_at,
                        message: m.to_ollama(),
                        done,
                    };
                },
                None => {},
            }
            match &choice.delta {
                Some(d) => {
                    return OllamaChatMessageResponse {
                        model,
                        created_at,
                        message: d.to_ollama(),
                        done,
                    };
                },
                None => {},
            }
        }
        OllamaChatMessageResponse {
            model,
            created_at,
            message: OllamaChatMessage::assistant(String::new()),
            done: false,
        }
    }

    /// The ollama-rs response that stands for this response, stamped with its
    /// creation time (see [`ChatMessageResponse::created_at`]).
    pub fn to_ollama(&self) -> (r: OllamaChatMessageResponse)
        ensures
            r@ == ollama_response_of(self@, r.created_at@),
            timestamp_rfc3339(self.created) matches Some(s) ==> r.created_at@ == s,
    {
        let created_at = self.created_at();
        self.to_ollama_at(created_at)
    }
}

} // verus!
