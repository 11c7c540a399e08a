//! Streaming: one event for the start of a chat stream, one for each token
//! that the engine produces.

use vstd::prelude::*;
use vstd::string::*;
use crate::chat::ChatRole;
use crate::protocol::FinishReason;
use crate::protocol::OpenaiStreamType;
use crate::protocol::StreamDetails;
use crate::protocol::Token;
use crate::response::CompletionChoices;
use crate::response::CompletionChoicesView;
use crate::response::CompletionsResponse;
use crate::response::CompletionsResponseView;
use crate::timestamp::chat_completion_id;
use crate::timestamp::completion_id;
use crate::timestamp::make_chat_completion_id;
use crate::timestamp::make_completion_id;

verus! {

/// What one chunk of a chat stream adds: the role on the first chunk, a piece
/// of content on the others.
#[derive(Clone, Debug, PartialEq, Eq)]
pub struct ChatDeltaStreamMessage {
    pub role: Option<ChatRole>,
    pub content: Option<String>,
}

pub struct ChatDeltaStreamMessageView {
    pub role: Option<ChatRole>,
    pub content: Option<Seq<char>>,
}

impl View for ChatDeltaStreamMessage {
    type V = ChatDeltaStreamMessageView;

    open spec fn view(&self) -> ChatDeltaStreamMessageView {
        ChatDeltaStreamMessageView {
            role: self.role,
            content: match self.content {
                Some(c) => Some(c@),
                None => None,
            },
        }
    }
}

/// The one choice of a chunk of a chat stream.
#[derive(Clone, Debug, PartialEq, Eq)]
pub struct ChatCompletionDeltaStreamChoices {
    pub delta: ChatDeltaStreamMessage,
    pub finish_reason: Option<FinishReason>,
    pub index: u32,
}

pub struct ChatCompletionDeltaStreamChoicesView {
    pub delta: ChatDeltaStreamMessageView,
    pub finish_reason: Option<FinishReason>,
    pub index: u32,
}

impl View for ChatCompletionDeltaStreamChoices {
    type V = ChatCompletionDeltaStreamChoicesView;

    open spec fn view(&self) -> ChatCompletionDeltaStreamChoicesView {
        ChatCompletionDeltaStreamChoicesView {
            delta: self.delta@,
            finish_reason: self.finish_reason,
            index: self.index,
        }
    }
}

/// One chunk of a chat stream.
#[derive(Clone, Debug, PartialEq, Eq)]
pub struct ChatCompletionsStreamResponse {
    pub id: String,
    pub object: String,
    pub created: u64,
    pub model: String,
    pub choices: Vec<ChatCompletionDeltaStreamChoices>,
}

pub struct ChatCompletionsStreamResponseView {
    pub id: Seq<char>,
    pub object: Seq<char>,
    pub created: u64,
    pub model: Seq<char>,
    pub choices: Seq<ChatCompletionDeltaStreamChoicesView>,
}

impl View for ChatCompletionsStreamResponse {
    type V = ChatCompletionsStreamResponseView;

    open spec fn view(&self) -> ChatCompletionsStreamResponseView {
        ChatCompletionsStreamResponseView {
            id: self.id@,
            object: self.object@,
            created: self.created,
            model: self.model@,
            choices: self.choices@.map_values(|c: ChatCompletionDeltaStreamChoices| c@),
        }
    }
}

/// The payload of one streaming event, in the shape of the stream it belongs
/// to.
#[derive(Clone, Debug, PartialEq, Eq)]
pub enum StreamEvent {
    ChatCompletions(ChatCompletionsStreamResponse),
    Completions(CompletionsResponse),
}

pub enum StreamEventView {
    ChatCompletions(ChatCompletionsStreamResponseView),
    Completions(CompletionsResponseView),
}

impl View for StreamEvent {
    type V = StreamEventView;

    open spec fn view(&self) -> StreamEventView {
        match self {
            StreamEvent::ChatCompletions(chunk) => StreamEventView::ChatCompletions(chunk@),
            StreamEvent::Completions(chunk) => StreamEventView::Completions(chunk@),
        }
    }
}

/// The finish reason that a fragment carries: that of its details, absent
/// where it has none.
pub open spec fn stream_finish_reason(details: Option<StreamDetails>) -> Option<FinishReason> {
    match details {
        Some(d) => Some(d.finish_reason),
        None => None,
    }
}

/// A chunk of a chat stream with the given delta.
pub open spec fn chat_chunk(
    created: u64,
    model: Seq<char>,
    delta: ChatDeltaStreamMessageView,
    finish_reason: Option<FinishReason>,
) -> ChatCompletionsStreamResponseView {
    ChatCompletionsStreamResponseView {
        id: chat_completion_id(created),
        object: "chat.completion.chunk"@,
        created,
        model,
        choices: seq![ChatCompletionDeltaStreamChoicesView { delta, finish_reason, index: 0 }],
    }
}

/// The chunk that opens a chat stream: the assistant's role, no content, no
/// finish reason.
pub open spec fn chat_start(created: u64, model: Seq<char>) -> ChatCompletionsStreamResponseView {
    chat_chunk(
        created,
        model,
        ChatDeltaStreamMessageView { role: Some(ChatRole::Assistant), content: None },
        None,
    )
}

/// The chunk of a chat stream for one token: its text as content, no role.
pub open spec fn chat_token_chunk(
    created: u64,
    model: Seq<char>,
    text: Seq<char>,
    details: Option<StreamDetails>,
) -> ChatCompletionsStreamResponseView {
    chat_chunk(
        created,
        model,
        ChatDeltaStreamMessageView { role: None, content: Some(text) },
        stream_finish_reason(details),
    )
}

/// The chunk of a completion stream for one token: its text, and no usage.
pub open spec fn completion_token_chunk(
    created: u64,
    model: Seq<char>,
    text: Seq<char>,
    details: Option<StreamDetails>,
) -> CompletionsResponseView {
    CompletionsResponseView {
        id: completion_id(created),
        object: "text_completion"@,
        created,
        model,
        choices: seq![
            CompletionChoicesView {
                text,
                finish_reason: stream_finish_reason(details),
                logprobs: None,
                index: 0,
            },
        ],
        usage: None,
    }
}

/// The event for one token, in the shape that the stream type selects.
pub open spec fn streaming_event(
    stream_type: OpenaiStreamType,
    created: u64,
    details: Option<StreamDetails>,
    text: Seq<char>,
    model: Seq<char>,
) -> StreamEventView {
    match stream_type {
        OpenaiStreamType::ChatCompletionsStreamResponse => StreamEventView::ChatCompletions(
            chat_token_chunk(created, model, text, details),
        ),
        OpenaiStreamType::CompletionsResponse => StreamEventView::Completions(
            completion_token_chunk(created, model, text, details),
        ),
    }
}

/// What the engine produces at one step of a stream: a token and the details
/// that come with it, if any.
#[derive(Clone, Debug, PartialEq, Eq)]
pub struct StreamFragment {
    pub token: Token,
    pub details: Option<StreamDetails>,
}

/// A fragment as a mathematical value: the text of its token and its details.
pub struct Fragment {
    pub text: Seq<char>,
    pub details: Option<StreamDetails>,
}

impl View for StreamFragment {
    type V = Fragment;

    open spec fn view(&self) -> Fragment {
        Fragment { text: self.token.text@, details: self.details }
    }
}

/// All the chunks of a chat stream created at `created`: the opening chunk,
/// then one chunk for each fragment, in the order produced.
pub open spec fn chat_stream(
    created: u64,
    model: Seq<char>,
    fragments: Seq<Fragment>,
) -> Seq<ChatCompletionsStreamResponseView> {
    seq![chat_start(created, model)] + fragments.map_values(
        |f: Fragment| chat_token_chunk(created, model, f.text, f.details),
    )
}

/// The events that open a stream: the opening chunk for a chat stream, none
/// for a completion stream.
pub open spec fn opening_events(
    stream_type: OpenaiStreamType,
    created: u64,
    model: Seq<char>,
) -> Seq<StreamEventView> {
    match stream_type {
        OpenaiStreamType::ChatCompletionsStreamResponse => seq![
            StreamEventView::ChatCompletions(chat_start(created, model)),
        ],
        OpenaiStreamType::CompletionsResponse => Seq::<StreamEventView>::empty(),
    }
}

/// All the events of a stream created at `created`: what opens it, then one
/// event for each fragment, in the order produced.
pub open spec fn event_stream(
    stream_type: OpenaiStreamType,
    created: u64,
    model: Seq<char>,
    fragments: Seq<Fragment>,
) -> Seq<StreamEventView> {
    opening_events(stream_type, created, model) + fragments.map_values(
        |f: Fragment| streaming_event(stream_type, created, f.details, f.text, model),
    )
}

/// The views of a sequence of events.
pub open spec fn event_views(events: Seq<StreamEvent>) -> Seq<StreamEventView> {
    events.map_values(|e: StreamEvent| e@)
}

/// The views of a sequence of fragments.
pub open spec fn fragment_views(fragments: Seq<StreamFragment>) -> Seq<Fragment> {
    fragments.map_values(|f: StreamFragment| f@)
}

/// Builds the chunk that opens a chat stream.
pub fn chat_start_message(created_time: u64, model_name: &String) -> (chunk:
    ChatCompletionsStreamResponse)
    ensures
        chunk@ == chat_start(created_time, model_name@),
{
    let choices = ChatCompletionDeltaStreamChoices {
        delta: ChatDeltaStreamMessage { content: None, role: Some(ChatRole::Assistant) },
        finish_reason: None,
        index: 0,
    };
    let chunk = ChatCompletionsStreamResponse {
        choices: vec![choices],
        created: created_time,
        id: make_chat_completion_id(created_time),
        object: String::from_str("chat.completion.chunk"),
        model: model_name.clone(),
    };
    assert(chunk@.choices =~= chat_start(created_time, model_name@).choices);
    chunk
}

/// Reads the finish reason that a fragment carries.
pub fn finish_reason_of(details: Option<StreamDetails>) -> (reason: Option<FinishReason>)
    ensures
        reason == stream_finish_reason(details),
{
    match details {
        Some(d) => Some(d.finish_reason),
        None => None,
    }
}

/// Builds the event for one produced token. `created_time` is the timestamp
/// of the stream, the same for each of its events.
pub fn create_streaming_event(
    stream_type: &OpenaiStreamType,
    created_time: u64,
    details: Option<StreamDetails>,
    token: Token,
    model_name: &String,
) -> (event: StreamEvent)
    ensures
        event@ == streaming_event(*stream_type, created_time, details, token.text@, model_name@),
{
    match stream_type {
        OpenaiStreamType::ChatCompletionsStreamResponse => {
            let choices = ChatCompletionDeltaStreamChoices {
                delta: ChatDeltaStreamMessage { content: Some(token.text), role: None },
                finish_reason: finish_reason_of(details),
                index: 0,
            };
            let response = ChatCompletionsStreamResponse {
                choices: vec![choices],
                created: created_time,
                id: make_chat_completion_id(created_time),
                object: String::from_str("chat.completion.chunk"),
                model: model_name.clone(),
            };
            assert(response@.choices =~= chat_token_chunk(
                created_time,
                model_name@,
                token.text@,
                details,
            ).choices);
            StreamEvent::ChatCompletions(response)
        },
        OpenaiStreamType::CompletionsResponse => {
            let choices = CompletionChoices {
                text: token.text,
                finish_reason: finish_reason_of(details),
                logprobs: None,
                index: 0,
            };
            let response = CompletionsResponse {
                choices: vec![choices],
                created: created_time,
                id: make_completion_id(created_time),
                object: String::from_str("text_completion"),
                model: model_name.clone(),
                usage: None,
            };
            assert(response@.choices =~= completion_token_chunk(
                created_time,
                model_name@,
                token.text@,
                details,
            ).choices);
            StreamEvent::Completions(response)
        },
    }
}

/// Builds every event of a stream at once: for a chat stream the opening
/// chunk, then for either kind one event for each fragment, in the order in
/// which the engine produced them and all with the timestamp of the stream.
pub fn stream_events(
    stream_type: &OpenaiStreamType,
    created_time: u64,
    fragments: &Vec<StreamFragment>,
    model_name: &String,
) -> (events: Vec<StreamEvent>)
    ensures
        event_views(events@) == event_stream(
            *stream_type,
            created_time,
            model_name@,
            fragment_views(fragments@),
        ),
{
    let mut events: Vec<StreamEvent> = Vec::new();
    match stream_type {
        OpenaiStreamType::ChatCompletionsStreamResponse => {
            events.push(StreamEvent::ChatCompletions(chat_start_message(created_time, model_name)));
        },
        OpenaiStreamType::CompletionsResponse => {},
    }
    assert(event_views(events@) =~= opening_events(*stream_type, created_time, model_name@));
    let ghost opening = event_views(events@);
    let mut i: usize = 0;
    while i < fragments.len()
        invariant
            i <= fragments.len(),
            opening == opening_events(*stream_type, created_time, model_name@),
            event_views(events@) == opening + fragment_views(fragments@).take(i as int).map_values(
                |f: Fragment|
                    streaming_event(*stream_type, created_time, f.details, f.text, model_name@),
            ),
        decreases fragments.len() - i,
    {
        let fragment = &fragments[i];
        let token = Token {
            id: fragment.token.id,
            text: fragment.token.text.clone(),
            logprob: fragment.token.logprob,
            special: fragment.token.special,
        };
        let ghost before = event_views(events@);
        let event = create_streaming_event(
            stream_type,
            created_time,
            fragment.details,
            token,
            model_name,
        );
        events.push(event);
        proof {
            let views = fragment_views(fragments@);
            assert(views[i as int] == fragments@[i as int]@);
            assert(event_views(events@) =~= before.push(event@));
            assert(views.take(i + 1) =~= views.take(i as int).push(views[i as int]));
            assert(event_views(events@) =~= opening + views.take(i + 1).map_values(
                |f: Fragment|
                    streaming_event(*stream_type, created_time, f.details, f.text, model_name@),
            ));
        }
        i += 1;
    }
    proof {
        let views = fragment_views(fragments@);
        assert(views.take(i as int) =~= views);
    }
    events
}

/// The events of a chat stream are its chunks, one for one.
pub proof fn lemma_chat_event_stream(created: u64, model: Seq<char>, fragments: Seq<Fragment>)
    ensures
        event_stream(OpenaiStreamType::ChatCompletionsStreamResponse, created, model, fragments)
            == chat_stream(created, model, fragments).map_values(
            |c: ChatCompletionsStreamResponseView| StreamEventView::ChatCompletions(c),
        ),
{
    assert(event_stream(
        OpenaiStreamType::ChatCompletionsStreamResponse,
        created,
        model,
        fragments,
    ) =~= chat_stream(created, model, fragments).map_values(
        |c: ChatCompletionsStreamResponseView| StreamEventView::ChatCompletions(c),
    ));
}

/// A completion stream has one event for each fragment and none before them.
pub proof fn lemma_completion_event_stream(created: u64, model: Seq<char>, fragments: Seq<Fragment>)
    ensures
        event_stream(OpenaiStreamType::CompletionsResponse, created, model, fragments).len()
            == fragments.len(),
        forall|i: int|
            0 <= i < fragments.len() ==> #[trigger] event_stream(
                OpenaiStreamType::CompletionsResponse,
                created,
                model,
                fragments,
            )[i] == StreamEventView::Completions(
                completion_token_chunk(created, model, fragments[i].text, fragments[i].details),
            ),
{
}

/// The shape of a chat stream. It has one chunk more than the engine produced
/// fragments, each with one choice at index 0 and the timestamp of the
/// stream. The first chunk carries the assistant's role, no content and no
/// finish reason. Every later chunk carries no role, the text of its fragment
/// as content, and a finish reason exactly where its fragment has details: so
/// where only the last fragment has details, only the last chunk has a finish
/// reason.
pub proof fn lemma_chat_stream_shape(created: u64, model: Seq<char>, fragments: Seq<Fragment>)
    ensures
        chat_stream(created, model, fragments).len() == fragments.len() + 1,
        forall|i: int|
            0 <= i <= fragments.len() ==> {
                let chunk = #[trigger] chat_stream(created, model, fragments)[i];
                &&& chunk.created == created
                &&& chunk.choices.len() == 1
                &&& chunk.choices[0].index == 0
            },
        ({
            let first = chat_stream(created, model, fragments)[0].choices[0];
            &&& first.delta.role == Some(ChatRole::Assistant)
            &&& first.delta.content is None
            &&& first.finish_reason is None
        }),
        forall|i: int|
            1 <= i <= fragments.len() ==> {
                let choice = (#[trigger] chat_stream(created, model, fragments)[i]).choices[0];
                &&& choice.delta.role is None
                &&& choice.delta.content == Some(fragments[i - 1].text)
                &&& (choice.finish_reason is Some <==> fragments[i - 1].details is Some)
                &&& choice.finish_reason == stream_finish_reason(fragments[i - 1].details)
            },
        (forall|j: int| 0 <= j < fragments.len() - 1 ==> (#[trigger] fragments[j]).details is None)
            ==> forall|i: int|
            0 <= i < fragments.len() ==> (#[trigger] chat_stream(
                created,
                model,
                fragments,
            )[i]).choices[0].finish_reason is None,
{
    let stream = chat_stream(created, model, fragments);
    assert forall|i: int| 1 <= i <= fragments.len() implies #[trigger] stream[i]
        == chat_token_chunk(created, model, fragments[i - 1].text, fragments[i - 1].details) by {}
    assert(stream[0] == chat_start(created, model));
}

} // verus!
