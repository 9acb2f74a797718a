//! Plain-value models of the ollama-rs chat types that this client produces and
//! keeps in a conversation history: the role of a message, a tool call, a chat
//! message and a chat response.
use vstd::prelude::*;

verus! {

/// Who wrote a chat message.
#[derive(Clone, Copy, Debug, PartialEq, Eq, Structural)]
pub enum MessageRole {
    User,
    Assistant,
    System,
    Tool,
}

/// A call of a tool requested by the model: the function's name and its arguments
/// as JSON text.
#[derive(Clone, Debug)]
pub struct ToolCall {
    pub function_name: String,
    pub arguments: String,
}

/// The value of a [`ToolCall`].
pub struct ToolCallView {
    pub function_name: Seq<char>,
    pub arguments: Seq<char>,
}

impl View for ToolCall {
    type V = ToolCallView;

    open spec fn view(&self) -> ToolCallView {
        ToolCallView { function_name: self.function_name@, arguments: self.arguments@ }
    }
}

/// The values of a sequence of tool calls.
pub open spec fn tool_call_views(v: Seq<ToolCall>) -> Seq<ToolCallView> {
    v.map_values(|t: ToolCall| t@)
}

/// The value of an optional string.
pub open spec fn opt_view(o: Option<String>) -> Option<Seq<char>> {
    match o {
        Some(s) => Some(s@),
        None => None,
    }
}

/// The values of an optional list of strings.
pub open spec fn opt_strings_view(o: Option<Vec<String>>) -> Option<Seq<Seq<char>>> {
    match o {
        Some(v) => Some(v@.map_values(|s: String| s@)),
        None => None,
    }
}

impl ToolCall {
    /// A call of `function_name` with the JSON `arguments`.
    pub fn new(function_name: String, arguments: String) -> (t: Self)
        ensures
            t.function_name == function_name,
            t.arguments == arguments,
    {
        ToolCall { function_name, arguments }
    }

    /// A copy of this call.
    pub fn duplicate(&self) -> (t: Self)
        ensures
            t@ == self@,
    {
        ToolCall { function_name: self.function_name.clone(), arguments: self.arguments.clone() }
    }
}

/// A copy of a list of tool calls.
pub fn duplicate_tool_calls(v: &Vec<ToolCall>) -> (r: Vec<ToolCall>)
    ensures
        tool_call_views(r@) == tool_call_views(v@),
{
    let mut r: Vec<ToolCall> = Vec::new();
    let mut i: usize = 0;
    while i < v.len()
        invariant
            i <= v.len(),
            tool_call_views(r@) == tool_call_views(v@.take(i as int)),
        decreases v.len() - i,
    {
        let t = v[i].duplicate();
        let ghost before = r@;
        r.push(t);
        assert(tool_call_views(r@) =~= tool_call_views(before).push(t@));
        assert(v@.take(i + 1) =~= v@.take(i as int).push(v@[i as int]));
        assert(tool_call_views(v@.take(i + 1)) =~= tool_call_views(v@.take(i as int)).push(
            v@[i as int]@,
        ));
        i = i + 1;
    }
    assert(v@.take(v.len() as int) =~= v@);
    r
}

/// A copy of a list of strings.
pub fn duplicate_strings(v: &Vec<String>) -> (r: Vec<String>)
    ensures
        r@.map_values(|s: String| s@) == v@.map_values(|s: String| s@),
{
    let mut r: Vec<String> = Vec::new();
    let mut i: usize = 0;
    while i < v.len()
        invariant
            i <= v.len(),
            r@.len() == i,
            forall|k: int| 0 <= k < i ==> r@[k]@ == v@[k]@,
        decreases v.len() - i,
    {
        r.push(v[i].clone());
        i = i + 1;
    }
    assert(r@.map_values(|s: String| s@) =~= v@.map_values(|s: String| s@));
    r
}

/// A chat message as ollama-rs holds it.
#[derive(Clone, Debug)]
pub struct OllamaChatMessage {
    pub role: MessageRole,
    pub content: String,
    pub tool_calls: Vec<ToolCall>,
    /// Images attached to the message, base64-encoded.
    pub images: Option<Vec<String>>,
    pub thinking: Option<String>,
}

/// The value of an [`OllamaChatMessage`].
pub struct OllamaChatMessageView {
    pub role: MessageRole,
    pub content: Seq<char>,
    pub tool_calls: Seq<ToolCallView>,
    pub images: Option<Seq<Seq<char>>>,
    pub thinking: Option<Seq<char>>,
}

impl View for OllamaChatMessage {
    type V = OllamaChatMessageView;

    open spec fn view(&self) -> OllamaChatMessageView {
        OllamaChatMessageView {
            role: self.role,
            content: self.content@,
            tool_calls: tool_call_views(self.tool_calls@),
            images: opt_strings_view(self.images),
            thinking: opt_view(self.thinking),
        }
    }
}

/// The message of `role` with `content` and nothing else, as `ChatMessage::new`
/// of ollama-rs makes it.
pub open spec fn plain_message(role: MessageRole, content: Seq<char>) -> OllamaChatMessageView {
    OllamaChatMessageView {
        role,
        content,
        tool_calls: Seq::empty(),
        images: None,
        thinking: None,
    }
}

/// A message built with a role and a content has that role and that content, and
/// no tool calls, images or thinking, whatever the role.
pub proof fn law_plain_message(role: MessageRole, content: Seq<char>)
    ensures
        plain_message(role, content).role == role,
        plain_message(role, content).content == content,
        plain_message(role, content).tool_calls.len() == 0,
        plain_message(role, content).images is None,
        plain_message(role, content).thinking is None,
{
}

/// The values of a sequence of messages.
pub open spec fn message_views(v: Seq<OllamaChatMessage>) -> Seq<OllamaChatMessageView> {
    v.map_values(|m: OllamaChatMessage| m@)
}

impl OllamaChatMessage {
    /// A message of `role` with `content`, no tool calls, no images and no thinking.
    pub fn new(role: MessageRole, content: String) -> (m: Self)
        ensures
            m@ == plain_message(role, content@),
            m.role == role,
            m.content == content,
            m.tool_calls@.len() == 0,
            m.images is None,
            m.thinking is None,
    {
        let m = OllamaChatMessage {
            role,
            content,
            tool_calls: Vec::new(),
            images: None,
            thinking: None,
        };
        assert(tool_call_views(m.tool_calls@) =~= Seq::empty());
        m
    }

    /// A message written by the user.
    pub fn user(content: String) -> (m: Self)
        ensures
            m@ == plain_message(MessageRole::User, content@),
            m.role == MessageRole::User,
            m.content == content,
            m.tool_calls@.len() == 0,
    {
        Self::new(MessageRole::User, content)
    }

    /// A message written by the assistant.
    pub fn assistant(content: String) -> (m: Self)
        ensures
            m@ == plain_message(MessageRole::Assistant, content@),
            m.role == MessageRole::Assistant,
            m.content == content,
            m.tool_calls@.len() == 0,
    {
        Self::new(MessageRole::Assistant, content)
    }

    /// A system message.
    pub fn system(content: String) -> (m: Self)
        ensures
            m@ == plain_message(MessageRole::System, content@),
            m.role == MessageRole::System,
            m.content == content,
            m.tool_calls@.len() == 0,
    {
        Self::new(MessageRole::System, content)
    }

    /// A message that carries a tool's output.
    pub fn tool(content: String) -> (m: Self)
        ensures
            m@ == plain_message(MessageRole::Tool, content@),
            m.role == MessageRole::Tool,
            m.content == content,
            m.tool_calls@.len() == 0,
    {
        Self::new(MessageRole::Tool, content)
    }

    /// A copy of this message.
    pub fn duplicate(&self) -> (m: Self)
        ensures
            m@ == self@,
    {
        let images = match &self.images {
            Some(v) => Some(duplicate_strings(v)),
            None => None,
        };
        OllamaChatMessage {
            role: self.role,
            content: self.content.clone(),
            tool_calls: duplicate_tool_calls(&self.tool_calls),
            images,
            thinking: self.thinking.clone(),
        }
    }
}

/// A copy of a list of messages.
pub fn duplicate_messages(v: &Vec<OllamaChatMessage>) -> (r: Vec<OllamaChatMessage>)
    ensures
        message_views(r@) == message_views(v@),
{
    let mut r: Vec<OllamaChatMessage> = Vec::new();
    let mut i: usize = 0;
    while i < v.len()
        invariant
            i <= v.len(),
            r@.len() == i,
            forall|k: int| 0 <= k < i ==> r@[k]@ == v@[k]@,
        decreases v.len() - i,
    {
        r.push(v[i].duplicate());
        i = i + 1;
    }
    assert(message_views(r@) =~= message_views(v@));
    r
}

/// A chat response as ollama-rs holds it; the log probabilities and the final
/// statistics are absent from every response of this client.
#[derive(Clone, Debug)]
pub struct OllamaChatMessageResponse {
    pub model: String,
    /// The creation time, in RFC 3339 form.
    pub created_at: String,
    pub message: OllamaChatMessage,
    pub done: bool,
}

/// The value of an [`OllamaChatMessageResponse`].
pub struct OllamaChatMessageResponseView {
    pub model: Seq<char>,
    pub created_at: Seq<char>,
    pub message: OllamaChatMessageView,
    pub done: bool,
}

impl View for OllamaChatMessageResponse {
    type V = OllamaChatMessageResponseView;

    open spec fn view(&self) -> OllamaChatMessageResponseView {
        OllamaChatMessageResponseView {
            model: self.model@,
            created_at: self.created_at@,
            message: self.message@,
            done: self.done,
        }
    }
}

} // verus!
