use sakura_ai_rs::{
    ChatMessage, ChatMessageChoice, ChatMessageResponse, ChatMessageUsage, MessageRole,
    ToolCall,
};

fn usage() -> ChatMessageUsage {
    ChatMessageUsage { prompt_tokens: 3, total_tokens: 10, completion_tokens: 7 }
}

fn response(created: i64, choices: Vec<ChatMessageChoice>) -> ChatMessageResponse {
    ChatMessageResponse {
        id: "chatcmpl-1".to_string(),
        object: "chat.completion".to_string(),
        created,
        model: "gpt-oss-120b".to_string(),
        choices,
        usage: usage(),
    }
}

fn choice(message: Option<ChatMessage>, delta: Option<ChatMessage>, finish: Option<&str>) -> ChatMessageChoice {
    ChatMessageChoice { index: 0, message, delta, finish_reason: finish.map(|s| s.to_string()) }
}

#[test]
fn message_constructors() {
    let m = ChatMessage::user("hi".to_string());
    assert_eq!(m.role, Some(MessageRole::User));
    assert_eq!(m.content.as_deref(), Some("hi"));
    assert!(m.reasoning_content.is_none());
    assert!(m.tool_calls.is_empty());
    assert_eq!(ChatMessage::assistant("a".into()).role, Some(MessageRole::Assistant));
    assert_eq!(ChatMessage::system("s".into()).role, Some(MessageRole::System));
    assert_eq!(ChatMessage::tool("t".into()).role, Some(MessageRole::Tool));
    assert_eq!(ChatMessage::new(MessageRole::User, "x".into()).content.as_deref(), Some("x"));
}

#[test]
fn message_without_role_becomes_assistant_with_empty_content() {
    let m = ChatMessage { role: None, content: None, reasoning_content: Some("why".into()), tool_calls: vec![] };
    let o = m.to_ollama();
    assert_eq!(o.role, MessageRole::Assistant);
    assert_eq!(o.content, "");
    assert!(o.thinking.is_none());
    assert!(o.images.is_none());
}

#[test]
fn tool_calls_are_kept_only_for_tool_messages() {
    let call = ToolCall::new("get_weather".into(), "{\"city\":\"Tokyo\"}".into());
    let tool = ChatMessage { role: Some(MessageRole::Tool), content: Some("out".into()), reasoning_content: None, tool_calls: vec![call.clone()] };
    let o = tool.to_ollama();
    assert_eq!(o.role, MessageRole::Tool);
    assert_eq!(o.tool_calls.len(), 1);
    assert_eq!(o.tool_calls[0].function_name, "get_weather");
    assert_eq!(o.tool_calls[0].arguments, "{\"city\":\"Tokyo\"}");

    let user = ChatMessage { role: Some(MessageRole::User), content: Some("in".into()), reasoning_content: None, tool_calls: vec![call] };
    let o = user.to_ollama();
    assert_eq!(o.role, MessageRole::User);
    assert!(o.tool_calls.is_empty());
}

#[test]
fn created_time_is_written_in_rfc3339() {
    let r = response(0, vec![]);
    assert_eq!(r.created_at(), "1970-01-01T00:00:00+00:00");
    let r = response(1_700_000_000, vec![]);
    assert_eq!(r.to_ollama().created_at, "2023-11-14T22:13:20+00:00");
}

#[test]
fn full_message_is_carried_and_done_follows_finish_reason() {
    let r = response(0, vec![choice(Some(ChatMessage::assistant("blue".into())), None, Some("stop"))]);
    let o = r.to_ollama();
    assert_eq!(o.model, "gpt-oss-120b");
    assert_eq!(o.message.role, MessageRole::Assistant);
    assert_eq!(o.message.content, "blue");
    assert!(o.done);
}

#[test]
fn delta_is_carried_when_message_is_absent() {
    let r = response(0, vec![choice(None, Some(ChatMessage::assistant("bl".into())), None)]);
    let o = r.to_ollama_at("T".to_string());
    assert_eq!(o.created_at, "T");
    assert_eq!(o.message.content, "bl");
    assert!(!o.done);
}

#[test]
fn message_wins_over_delta_and_only_first_choice_counts() {
    let first = choice(Some(ChatMessage::user("m".into())), Some(ChatMessage::assistant("d".into())), None);
    let second = choice(Some(ChatMessage::system("other".into())), None, Some("stop"));
    let o = response(0, vec![first, second]).to_ollama();
    assert_eq!(o.message.role, MessageRole::User);
    assert_eq!(o.message.content, "m");
    assert!(!o.done);
}

#[test]
fn empty_response_gives_empty_assistant_message() {
    let o = response(0, vec![]).to_ollama();
    assert_eq!(o.message.role, MessageRole::Assistant);
    assert_eq!(o.message.content, "");
    assert!(!o.done);
    let o = response(0, vec![choice(None, None, Some("stop"))]).to_ollama();
    assert_eq!(o.message.content, "");
    assert!(!o.done);
}

#[test]
fn usage_is_plain_data() {
    let u = usage();
    assert_eq!(u, ChatMessageUsage { prompt_tokens: 3, total_tokens: 10, completion_tokens: 7 });
}
