//! Bookkeeping of a conversation history kept in a `Vec` of messages.
//!
//! An exchange appends the request's messages to the history and sends the whole
//! history; when the answer arrives, its message is appended too. A streamed answer
//! is recorded once its final item arrives, as one assistant message that holds the
//! text of the items before it.
use vstd::prelude::*;
use crate::model::{
    message_views, plain_message, MessageRole, OllamaChatMessage, OllamaChatMessageResponse,
    OllamaChatMessageResponseView, OllamaChatMessageView,
};
use crate::request::ChatMessageRequest;

verus! {

/// Appends the request's messages to `history` and returns the request to send:
/// the same request, carrying the whole history.
pub fn record_request(history: &mut Vec<OllamaChatMessage>, request: ChatMessageRequest) -> (sent:
    ChatMessageRequest)
    ensures
        message_views(final(history)@) == message_views(old(history)@) + message_views(
            request.messages@,
        ),
        message_views(sent.messages@) == message_views(final(history)@),
        sent.model_name == request.model_name,
        sent.stream == request.stream,
{
    let ghost start = message_views(history@);
    let mut i: usize = 0;
    while i < request.messages.len()
        invariant
            i <= request.messages.len(),
            message_views(history@) == start + message_views(request.messages@.take(i as int)),
        decreases request.messages.len() - i,
    {
        let m = request.messages[i].duplicate();
        let ghost before = history@;
        history.push(m);
        assert(message_views(history@) =~= message_views(before).push(m@));
        assert(request.messages@.take(i + 1) =~= request.messages@.take(i as int).push(
            request.messages@[i as int],
        ));
        assert(message_views(request.messages@.take(i + 1)) =~= message_views(
            request.messages@.take(i as int),
        ).push(request.messages@[i as int]@));
        i = i + 1;
    }
    assert(request.messages@.take(request.messages.len() as int) =~= request.messages@);
    let messages = crate::model::duplicate_messages(history);
    request.with_messages(messages)
}

/// Appends the answer's message to `history` when the exchange succeeded, and hands
/// the outcome back unchanged.
pub fn record_outcome<E>(
    history: &mut Vec<OllamaChatMessage>,
    outcome: Result<OllamaChatMessageResponse, E>,
) -> (r: Result<OllamaChatMessageResponse, E>)
    ensures
        r == outcome,
        outcome matches Ok(answer) ==> message_views(final(history)@) == message_views(
            old(history)@,
        ).push(answer.message@),
        outcome is Err ==> final(history)@ == old(history)@,
{
    match &outcome {
        Ok(answer) => {
            let m = answer.message.duplicate();
            let ghost before = history@;
            history.push(m);
            assert(message_views(history@) =~= message_views(before).push(m@));
        },
        Err(_) => {},
    }
    outcome
}

/// One step of recording a streamed answer that has gathered `text` so far: the
/// final item records an assistant message with `text` (its own content is not
/// added); any other item adds its content to `text`.
pub open spec fn stream_step(text: Seq<char>, item: OllamaChatMessageResponseView) -> (
    Seq<char>,
    Option<OllamaChatMessageView>,
) {
    if item.done {
        (text, Some(plain_message(MessageRole::Assistant, text)))
    } else {
        (text + item.message.content, None)
    }
}

/// The gathered text and the recorded messages after `items`, from `text`.
pub open spec fn stream_record(text: Seq<char>, items: Seq<OllamaChatMessageResponseView>) -> (
    Seq<char>,
    Seq<OllamaChatMessageView>,
)
    decreases items.len(),
{
    if items.len() == 0 {
        (text, Seq::empty())
    } else {
        let before = stream_record(text, items.drop_last());
        let step = stream_step(before.0, items.last());
        match step.1 {
            Some(m) => (step.0, before.1.push(m)),
            None => (step.0, before.1),
        }
    }
}

/// The contents of `items`, one after the other.
pub open spec fn joined_contents(items: Seq<OllamaChatMessageResponseView>) -> Seq<char>
    decreases items.len(),
{
    if items.len() == 0 {
        Seq::empty()
    } else {
        joined_contents(items.drop_last()) + items.last().message.content
    }
}

/// The text of a streamed answer being recorded.
pub struct StreamRecorder {
    text: String,
}

impl View for StreamRecorder {
    type V = Seq<char>;

    /// The text gathered so far.
    closed spec fn view(&self) -> Seq<char> {
        self.text@
    }
}

impl StreamRecorder {
    /// A recorder that has gathered nothing.
    pub fn new() -> (r: Self)
        ensures
            r@ == Seq::<char>::empty(),
    {
        StreamRecorder { text: String::new() }
    }

    /// Takes in one item of the answer and returns the message to record, if any.
    pub fn observe(&mut self, item: &OllamaChatMessageResponse) -> (record: Option<
        OllamaChatMessage,
    >)
        ensures
            final(self)@ == stream_step(old(self)@, item@).0,
            match record {
                Some(m) => stream_step(old(self)@, item@).1 == Some(m@),
                None => stream_step(old(self)@, item@).1 is None,
            },
    {
        if item.done {
            Some(OllamaChatMessage::assistant(self.text.clone()))
        } else {
            self.text.append(item.message.content.as_str());
            None
        }
    }

    /// Takes in one item of the answer and appends the message it records, if any,
    /// to `history`.
    pub fn observe_into(
        &mut self,
        history: &mut Vec<OllamaChatMessage>,
        item: &OllamaChatMessageResponse,
    )
        ensures
            final(self)@ == stream_step(old(self)@, item@).0,
            match stream_step(old(self)@, item@).1 {
                Some(m) => message_views(final(history)@) == message_views(old(history)@).push(m),
                None => final(history)@ == old(history)@,
            },
    {
        match self.observe(item) {
            Some(m) => {
                let ghost before = history@;
                history.push(m);
                assert(message_views(history@) =~= message_views(before).push(m@));
            },
            None => {},
        }
    }
}

/// One step of recording a streamed answer, for every gathered text and item: the
/// final item records one assistant message that holds exactly the text gathered
/// before it, with nothing else, and leaves the text as it was; any other item
/// records nothing and adds its own content at the end of the text.
pub proof fn law_stream_step(text: Seq<char>, item: OllamaChatMessageResponseView)
    ensures
        item.done ==> stream_step(text, item).0 == text,
        item.done ==> (stream_step(text, item).1 matches Some(m) && m.role
            == MessageRole::Assistant && m.content == text && m.tool_calls.len() == 0
            && m.images is None && m.thinking is None),
        !item.done ==> stream_step(text, item).0 == text + item.message.content,
        !item.done ==> stream_step(text, item).1 is None,
{
}

/// The joined contents of no items are empty, and one more item adds its content
/// at the end.
pub proof fn law_joined_contents(
    items: Seq<OllamaChatMessageResponseView>,
    item: OllamaChatMessageResponseView,
)
    ensures
        joined_contents(Seq::empty()) == Seq::<char>::empty(),
        joined_contents(items.push(item)) == joined_contents(items) + item.message.content,
{
    assert(items.push(item).drop_last() =~= items);
}

/// A streamed answer whose last item, and only that one, is final is recorded as
/// exactly one assistant message, which holds the contents of all the items before
/// the final one.
pub proof fn law_streamed_answer_recorded(items: Seq<OllamaChatMessageResponseView>)
    requires
        items.len() > 0,
        items.last().done,
        forall|i: int| 0 <= i < items.len() - 1 ==> !(#[trigger] items[i]).done,
    ensures
        stream_record(Seq::empty(), items).1 == seq![
            plain_message(MessageRole::Assistant, joined_contents(items.drop_last())),
        ],
{
    lemma_stream_gathers(items.drop_last());
}

/// Items none of which is final record nothing and gather their contents.
proof fn lemma_stream_gathers(items: Seq<OllamaChatMessageResponseView>)
    requires
        forall|i: int| 0 <= i < items.len() ==> !(#[trigger] items[i]).done,
    ensures
        stream_record(Seq::empty(), items) == (joined_contents(items), Seq::<
            OllamaChatMessageView,
        >::empty()),
    decreases items.len(),
{
    if items.len() > 0 {
        assert forall|i: int| 0 <= i < items.drop_last().len() implies !(
        #[trigger] items.drop_last()[i]).done by {
            assert(items.drop_last()[i] == items[i]);
        }
        lemma_stream_gathers(items.drop_last());
        assert(!items[items.len() - 1].done);
    }
}

/// After an exchange that succeeded, the history holds the messages of the request
/// that was sent, followed by the answer's message: the earlier history, then the
/// request's own messages, then the answer.
pub proof fn law_exchange_history(
    history: Seq<OllamaChatMessageView>,
    request: Seq<OllamaChatMessageView>,
    sent: Seq<OllamaChatMessageView>,
    after_request: Seq<OllamaChatMessageView>,
    answer: OllamaChatMessageView,
    after_answer: Seq<OllamaChatMessageView>,
)
    requires
        after_request == history + request,
        sent == after_request,
        after_answer == after_request.push(answer),
    ensures
        after_answer == sent.push(answer),
        after_answer.len() == history.len() + request.len() + 1,
        after_answer.subrange(0, history.len() as int) == history,
        after_answer.subrange(history.len() as int, (history.len() + request.len()) as int) == request,
        after_answer.last() == answer,
{
    assert(after_answer.subrange(0, history.len() as int) =~= history);
    assert(after_answer.subrange(history.len() as int, (history.len() + request.len()) as int) =~= request);
}

} // verus!
