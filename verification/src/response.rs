//! Response synthesis: a finished native generation turned into one
//! OpenAI-shaped response.

use vstd::prelude::*;
use vstd::string::*;
use crate::chat::ChatMessage;
use crate::chat::ChatMessageView;
use crate::chat::ChatRole;
use crate::protocol::FinishReason;
use crate::protocol::GenerateResponse;
use crate::protocol::Info;
use crate::timestamp::chat_completion_id;
use crate::timestamp::completion_id;
use crate::timestamp::create_timestamp;
use crate::timestamp::make_chat_completion_id;
use crate::timestamp::make_completion_id;

verus! {

/// Token accounting of one response.
#[derive(Clone, Copy, Debug, PartialEq, Eq, Structural)]
pub struct Usage {
    pub total_tokens: u32,
    pub completion_tokens: u32,
    pub prompt_tokens: u32,
}

impl Usage {
    /// The total is the sum of the two counts.
    pub open spec fn consistent(&self) -> bool {
        self.total_tokens == self.completion_tokens + self.prompt_tokens
    }
}

/// The one choice of a text completion.
#[derive(Clone, Debug, PartialEq, Eq)]
pub struct CompletionChoices {
    pub text: String,
    pub finish_reason: Option<FinishReason>,
    pub logprobs: Option<Vec<u32>>,
    pub index: u32,
}

pub struct CompletionChoicesView {
    pub text: Seq<char>,
    pub finish_reason: Option<FinishReason>,
    pub logprobs: Option<Seq<u32>>,
    pub index: u32,
}

impl View for CompletionChoices {
    type V = CompletionChoicesView;

    open spec fn view(&self) -> CompletionChoicesView {
        CompletionChoicesView {
            text: self.text@,
            finish_reason: self.finish_reason,
            logprobs: match self.logprobs {
                Some(l) => Some(l@),
                None => None,
            },
            index: self.index,
        }
    }
}

/// A text completion, complete or one chunk of a stream.
#[derive(Clone, Debug, PartialEq, Eq)]
pub struct CompletionsResponse {
    pub id: String,
    pub object: String,
    pub created: u64,
    pub model: String,
    pub choices: Vec<CompletionChoices>,
    pub usage: Option<Usage>,
}

pub struct CompletionsResponseView {
    pub id: Seq<char>,
    pub object: Seq<char>,
    pub created: u64,
    pub model: Seq<char>,
    pub choices: Seq<CompletionChoicesView>,
    pub usage: Option<Usage>,
}

impl View for CompletionsResponse {
    type V = CompletionsResponseView;

    open spec fn view(&self) -> CompletionsResponseView {
        CompletionsResponseView {
            id: self.id@,
            object: self.object@,
            created: self.created,
            model: self.model@,
            choices: self.choices@.map_values(|c: CompletionChoices| c@),
            usage: self.usage,
        }
    }
}

/// The one choice of a chat completion.
#[derive(Clone, Debug, PartialEq, Eq)]
pub struct ChatCompletionChoices {
    pub message: ChatMessage,
    pub finish_reason: Option<FinishReason>,
    pub index: u32,
}

pub struct ChatCompletionChoicesView {
    pub message: ChatMessageView,
    pub finish_reason: Option<FinishReason>,
    pub index: u32,
}

impl View for ChatCompletionChoices {
    type V = ChatCompletionChoicesView;

    open spec fn view(&self) -> ChatCompletionChoicesView {
        ChatCompletionChoicesView {
            message: self.message@,
            finish_reason: self.finish_reason,
            index: self.index,
        }
    }
}

/// A complete chat completion.
#[derive(Clone, Debug, PartialEq, Eq)]
pub struct ChatCompletionsResponse {
    pub id: String,
    pub object: String,
    pub created: u64,
    pub model: String,
    pub choices: Vec<ChatCompletionChoices>,
    pub usage: Usage,
}

pub struct ChatCompletionsResponseView {
    pub id: Seq<char>,
    pub object: Seq<char>,
    pub created: u64,
    pub model: Seq<char>,
    pub choices: Seq<ChatCompletionChoicesView>,
    pub usage: Usage,
}

impl View for ChatCompletionsResponse {
    type V = ChatCompletionsResponseView;

    open spec fn view(&self) -> ChatCompletionsResponseView {
        ChatCompletionsResponseView {
            id: self.id@,
            object: self.object@,
            created: self.created,
            model: self.model@,
            choices: self.choices@.map_values(|c: ChatCompletionChoices| c@),
            usage: self.usage,
        }
    }
}

/// The usage of a native response: the generated tokens, the length of the
/// prefill, and their sum; all zero where the engine gave no details.
pub open spec fn usage_of(resp: GenerateResponse) -> Usage
    recommends
        resp.counts_fit(),
{
    Usage {
        total_tokens: (resp.completion_tokens() + resp.prompt_tokens()) as u32,
        completion_tokens: resp.completion_tokens() as u32,
        prompt_tokens: resp.prompt_tokens() as u32,
    }
}

/// The text completion that answers with `resp`, for the model `model`,
/// created at `created`.
pub open spec fn completions_of(
    resp: GenerateResponse,
    model: Seq<char>,
    created: u64,
) -> CompletionsResponseView {
    CompletionsResponseView {
        id: completion_id(created),
        object: "text_completion"@,
        created,
        model,
        choices: seq![
            CompletionChoicesView {
                text: resp.generated_text@,
                finish_reason: resp.finish_reason(),
                logprobs: None,
                index: 0,
            },
        ],
        usage: Some(usage_of(resp)),
    }
}

/// The chat completion that answers with `resp`, for the model `model`,
/// created at `created`.
pub open spec fn chat_completions_of(
    resp: GenerateResponse,
    model: Seq<char>,
    created: u64,
) -> ChatCompletionsResponseView {
    ChatCompletionsResponseView {
        id: chat_completion_id(created),
        object: "chat.completion"@,
        created,
        model,
        choices: seq![
            ChatCompletionChoicesView {
                message: ChatMessageView {
                    role: ChatRole::Assistant,
                    content: resp.generated_text@,
                },
                finish_reason: resp.finish_reason(),
                index: 0,
            },
        ],
        usage: usage_of(resp),
    }
}

/// Computes the usage of a native response.
pub fn usage_from(resp: &GenerateResponse) -> (usage: Usage)
    requires
        resp.counts_fit(),
    ensures
        usage == usage_of(*resp),
        usage.consistent(),
        resp.details is None ==> usage == (Usage {
            total_tokens: 0,
            completion_tokens: 0,
            prompt_tokens: 0,
        }),
{
    match &resp.details {
        Some(details) => {
            let gen_tokens: u32 = details.generated_tokens;
            let prefill_len: u32 = details.prefill.len() as u32;
            Usage {
                completion_tokens: gen_tokens,
                total_tokens: gen_tokens + prefill_len,
                prompt_tokens: prefill_len,
            }
        },
        None => Usage { completion_tokens: 0, total_tokens: 0, prompt_tokens: 0 },
    }
}

/// Reads the finish reason of a native response.
pub fn finish_reason_from(resp: &GenerateResponse) -> (reason: Option<FinishReason>)
    ensures
        reason == resp.finish_reason(),
{
    match &resp.details {
        Some(details) => Some(details.finish_reason),
        None => None,
    }
}

/// Synthesises the text completion for a native response, created at
/// `created_time`.
pub fn generate_to_completions_at(resp: GenerateResponse, info: Info, created_time: u64) -> (out:
    CompletionsResponse)
    requires
        resp.counts_fit(),
    ensures
        out@ == completions_of(resp, info.model_id@, created_time),
        out.usage is Some && out.usage->0.consistent(),
        resp.details is None ==> out.usage == Some(
            (Usage { total_tokens: 0, completion_tokens: 0, prompt_tokens: 0 }),
        ) && out@.choices[0].finish_reason is None,
{
    let usage = usage_from(&resp);
    let finish_reason = finish_reason_from(&resp);
    let choices = CompletionChoices {
        text: resp.generated_text,
        finish_reason,
        logprobs: None,
        index: 0,
    };
    let out = CompletionsResponse {
        choices: vec![choices],
        created: created_time,
        id: make_completion_id(created_time),
        object: String::from_str("text_completion"),
        model: info.model_id,
        usage: Some(usage),
    };
    assert(out@.choices =~= completions_of(resp, info.model_id@, created_time).choices);
    out
}

/// Synthesises the text completion for a native response, created now.
pub fn generate_to_completions(resp: GenerateResponse, info: Info) -> (out: CompletionsResponse)
    requires
        resp.counts_fit(),
    ensures
        out@ == completions_of(resp, info.model_id@, out.created),
        out.usage is Some && out.usage->0.consistent(),
        resp.details is None ==> out.usage == Some(
            (Usage { total_tokens: 0, completion_tokens: 0, prompt_tokens: 0 }),
        ) && out@.choices[0].finish_reason is None,
{
    let created_time = create_timestamp();
    generate_to_completions_at(resp, info, created_time)
}

/// Synthesises the chat completion for a native response, created at
/// `created_time`.
pub fn generate_to_chatcompletions_at(resp: GenerateResponse, info: Info, created_time: u64) -> (out:
    ChatCompletionsResponse)
    requires
        resp.counts_fit(),
    ensures
        out@ == chat_completions_of(resp, info.model_id@, created_time),
        out.usage.consistent(),
        resp.details is None ==> out.usage == (Usage {
            total_tokens: 0,
            completion_tokens: 0,
            prompt_tokens: 0,
        }) && out@.choices[0].finish_reason is None,
{
    let usage = usage_from(&resp);
    let finish_reason = finish_reason_from(&resp);
    let choices = ChatCompletionChoices {
        message: ChatMessage { role: ChatRole::Assistant, content: resp.generated_text },
        finish_reason,
        index: 0,
    };
    let out = ChatCompletionsResponse {
        choices: vec![choices],
        created: created_time,
        id: make_chat_completion_id(created_time),
        object: String::from_str("chat.completion"),
        model: info.model_id,
        usage,
    };
    assert(out@.choices =~= chat_completions_of(resp, info.model_id@, created_time).choices);
    out
}

/// Synthesises the chat completion for a native response, created now.
pub fn generate_to_chatcompletions(resp: GenerateResponse, info: Info) -> (out:
    ChatCompletionsResponse)
    requires
        resp.counts_fit(),
    ensures
        out@ == chat_completions_of(resp, info.model_id@, out.created),
        out.usage.consistent(),
        resp.details is None ==> out.usage == (Usage {
            total_tokens: 0,
            completion_tokens: 0,
            prompt_tokens: 0,
        }) && out@.choices[0].finish_reason is None,
{
    let created_time = create_timestamp();
    generate_to_chatcompletions_at(resp, info, created_time)
}

} // verus!
