use sakura_ai_rs::history::{record_outcome, record_request};
use sakura_ai_rs::{
    ChatMessageRequest, MessageRole, OllamaChatMessage, OllamaChatMessageResponse, SakuraAI,
    ServiceUrl, StreamRecorder,
};

fn answer(text: &str, done: bool) -> OllamaChatMessageResponse {
    OllamaChatMessageResponse {
        model: "gpt-oss-120b".to_string(),
        created_at: "1970-01-01T00:00:00+00:00".to_string(),
        message: OllamaChatMessage::assistant(text.to_string()),
        done,
    }
}

#[test]
fn request_is_not_streamed_until_sent() {
    let r = ChatMessageRequest::new("m".into(), vec![OllamaChatMessage::user("q".into())]);
    assert!(!r.stream);
    let r = r.with_stream(true);
    assert!(r.stream);
    assert_eq!(r.model_name, "m");
    assert_eq!(r.messages.len(), 1);
}

#[test]
fn history_grows_by_two_per_exchange() {
    let mut history: Vec<OllamaChatMessage> = vec![];
    let first = ChatMessageRequest::new(
        "gpt-oss-120b".into(),
        vec![OllamaChatMessage::user("Why is the sky blue?".into())],
    );
    let sent = record_request(&mut history, first);
    assert_eq!(sent.messages.len(), 1);
    assert_eq!(history.len(), 1);
    let res: Result<_, String> = record_outcome(&mut history, Ok(answer("Rayleigh", true)));
    assert!(res.unwrap().done);
    assert_eq!(history.len(), 2);

    let second = ChatMessageRequest::new(
        "gpt-oss-120b".into(),
        vec![OllamaChatMessage::user("Second message".into())],
    );
    let sent = record_request(&mut history, second);
    assert_eq!(sent.messages.len(), 3);
    assert_eq!(sent.messages[1].content, "Rayleigh");
    let _ = record_outcome::<String>(&mut history, Ok(answer("Again", true)));
    assert_eq!(history.len(), 4);
    assert_eq!(history[2].content, "Second message");
    assert_eq!(history[2].role, MessageRole::User);
    assert_eq!(history[3].content, "Again");
}

#[test]
fn failed_exchange_keeps_only_the_request() {
    let mut history: Vec<OllamaChatMessage> = vec![];
    let req = ChatMessageRequest::new("m".into(), vec![OllamaChatMessage::user("q".into())]);
    let _ = record_request(&mut history, req);
    let res = record_outcome(&mut history, Err::<OllamaChatMessageResponse, _>("network".to_string()));
    assert_eq!(res.unwrap_err(), "network");
    assert_eq!(history.len(), 1);
}

#[test]
fn streamed_answer_recorded_once_done() {
    let mut history: Vec<OllamaChatMessage> = vec![];
    let mut rec = StreamRecorder::new();
    rec.observe_into(&mut history, &answer("Hel", false));
    rec.observe_into(&mut history, &answer("lo", false));
    assert!(history.is_empty());
    rec.observe_into(&mut history, &answer("ignored", true));
    assert_eq!(history.len(), 1);
    assert_eq!(history[0].role, MessageRole::Assistant);
    assert_eq!(history[0].content, "Hello");

    let mut rec = StreamRecorder::new();
    assert!(rec.observe(&answer("x", false)).is_none());
    let m = rec.observe(&answer("", true)).unwrap();
    assert_eq!(m.content, "x");
}

#[test]
fn default_service_endpoint() {
    let c = SakuraAI::try_new("https://api.ai.sakura.ad.jp").unwrap();
    assert_eq!(c.url_str(), "https://api.ai.sakura.ad.jp/");
    assert_eq!(c.uri(), "api.ai.sakura.ad.jp");
    assert_eq!(c.chat_completions_url(), "https://api.ai.sakura.ad.jp/v1/chat/completions");
    assert_eq!(c.url().scheme(), "https");
}

#[test]
fn port_is_set_in_the_url() {
    let c = SakuraAI::new("http://localhost", 8080);
    assert_eq!(c.url_str(), "http://localhost:8080/");
    assert_eq!(c.uri(), "localhost");
    let c = SakuraAI::try_new_with_port("https://example.com/base/", 443).unwrap();
    assert_eq!(c.url_str(), "https://example.com/base/");
    assert!(SakuraAI::try_new_with_port("file:///tmp/x", 1).is_none());
    assert!(SakuraAI::try_new_with_port("mailto:rms@example.net", 1).is_none());
    assert!(SakuraAI::try_new_with_port("not a url", 1).is_none());
}

#[test]
fn parse_errors_are_described() {
    let e = SakuraAI::try_new("relative/path").unwrap_err();
    assert_eq!(e.description, "relative URL without a base");
    let e = ServiceUrl::parse("http://").unwrap_err();
    assert_eq!(e.description, "empty host");
    let u = ServiceUrl::parse("data:text/plain,x").unwrap();
    assert_eq!(u.host(), None);
    let c = SakuraAI::from_url(u.duplicate());
    assert_eq!(c.url_str(), "data:text/plain,x");
    assert!(u.with_port(1).is_none());
}
