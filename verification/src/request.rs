//! Request normalisation: OpenAI-shaped requests turned into native generate
//! requests.

use vstd::prelude::*;
use vstd::std_specs::convert::FromSpecImpl;
use crate::chat::ChatFormatter;
use crate::chat::ChatMessage;
use crate::protocol::default_max_new_tokens;
use crate::protocol::spec_default_max_new_tokens;
use crate::protocol::F32Bits;
use crate::protocol::GenerateParameters;
use crate::protocol::GenerateRequest;

verus! {

/// A penalty in both conventions: the presence penalty as the request gave
/// it, and the repetition penalty that the engine takes in its place. The
/// second comes from the first by adding two and halving, which is done in
/// floating point where the request is read; here the two travel together.
#[derive(Clone, Copy, Debug, PartialEq, Eq, Structural)]
pub struct Penalty {
    pub presence: F32Bits,
    pub repetition: F32Bits,
}

/// A completion request: one prompt and the decoding options.
#[derive(Clone, Debug, PartialEq, Eq)]
pub struct CompatCompletionRequest {
    pub prompt: String,
    pub best_of: Option<usize>,
    pub temperature: Option<F32Bits>,
    pub presence_penalty: Option<Penalty>,
    pub top_k: Option<i32>,
    pub top_p: Option<F32Bits>,
    pub typical_p: Option<F32Bits>,
    pub do_sample: bool,
    pub max_tokens: Option<u32>,
    pub echo: Option<bool>,
    pub stop: Vec<String>,
    pub truncate: Option<usize>,
    pub watermark: bool,
    pub decoder_input_details: bool,
    pub seed: Option<u64>,
    pub stream: bool,
}

/// A chat request: a conversation and the decoding options.
#[derive(Clone, Debug, PartialEq, Eq)]
pub struct CompatChatCompletionRequest {
    pub messages: Vec<ChatMessage>,
    pub best_of: Option<usize>,
    pub temperature: Option<F32Bits>,
    pub presence_penalty: Option<Penalty>,
    pub top_k: Option<i32>,
    pub top_p: Option<F32Bits>,
    pub typical_p: Option<F32Bits>,
    pub do_sample: bool,
    pub max_tokens: Option<u32>,
    pub echo: Option<bool>,
    pub stop: Vec<String>,
    pub truncate: Option<usize>,
    pub watermark: bool,
    pub decoder_input_details: bool,
    pub seed: Option<u64>,
    pub stream: bool,
}

/// The native repetition penalty of a request: the penalty in the engine's
/// convention, unset where the request sets none.
pub open spec fn native_penalty(penalty: Option<Penalty>) -> Option<F32Bits> {
    match penalty {
        Some(p) => Some(p.repetition),
        None => None,
    }
}

/// The number of new tokens of a request: what it asks for, or the default.
pub open spec fn max_new_tokens_or_default(max_tokens: Option<u32>) -> u32 {
    match max_tokens {
        Some(n) => n,
        None => spec_default_max_new_tokens(),
    }
}

/// Picks the native repetition penalty of a request.
pub fn repetition_penalty(penalty: Option<Penalty>) -> (native: Option<F32Bits>)
    ensures
        native == native_penalty(penalty),
        native is None <==> penalty is None,
{
    match penalty {
        Some(p) => Some(p.repetition),
        None => None,
    }
}

/// Picks the number of new tokens of a request.
pub fn max_new_tokens(max_tokens: Option<u32>) -> (n: u32)
    ensures
        n == max_new_tokens_or_default(max_tokens),
{
    match max_tokens {
        Some(n) => n,
        None => default_max_new_tokens(),
    }
}

impl CompatCompletionRequest {
    /// The native parameters of this request: each option as given, the
    /// penalty in its native form, the default where no token count is
    /// given, and details always asked for.
    pub open spec fn native_parameters(&self) -> GenerateParameters {
        GenerateParameters {
            best_of: self.best_of,
            temperature: self.temperature,
            repetition_penalty: native_penalty(self.presence_penalty),
            top_k: self.top_k,
            top_p: self.top_p,
            typical_p: self.typical_p,
            do_sample: self.do_sample,
            max_new_tokens: max_new_tokens_or_default(self.max_tokens),
            return_full_text: self.echo,
            stop: self.stop,
            truncate: self.truncate,
            watermark: self.watermark,
            details: true,
            decoder_input_details: self.decoder_input_details,
            seed: self.seed,
        }
    }
}

impl CompatChatCompletionRequest {
    /// The native parameters of this request: each option as given, the
    /// penalty in its native form, the default where no token count is
    /// given, and details always asked for.
    pub open spec fn native_parameters(&self) -> GenerateParameters {
        GenerateParameters {
            best_of: self.best_of,
            temperature: self.temperature,
            repetition_penalty: native_penalty(self.presence_penalty),
            top_k: self.top_k,
            top_p: self.top_p,
            typical_p: self.typical_p,
            do_sample: self.do_sample,
            max_new_tokens: max_new_tokens_or_default(self.max_tokens),
            return_full_text: self.echo,
            stop: self.stop,
            truncate: self.truncate,
            watermark: self.watermark,
            details: true,
            decoder_input_details: self.decoder_input_details,
            seed: self.seed,
        }
    }
}

impl FromSpecImpl<CompatCompletionRequest> for GenerateRequest {
    open spec fn obeys_from_spec() -> bool {
        true
    }

    /// The native request of a completion request: the prompt verbatim and
    /// the native parameters.
    open spec fn from_spec(req: CompatCompletionRequest) -> GenerateRequest {
        GenerateRequest { inputs: req.prompt, parameters: req.native_parameters() }
    }
}

impl From<CompatCompletionRequest> for GenerateRequest {
    /// Normalises a completion request into a native request.
    fn from(req: CompatCompletionRequest) -> (native: GenerateRequest) {
        GenerateRequest {
            inputs: req.prompt,
            parameters: GenerateParameters {
                best_of: req.best_of,
                temperature: req.temperature,
                repetition_penalty: repetition_penalty(req.presence_penalty),
                top_k: req.top_k,
                top_p: req.top_p,
                typical_p: req.typical_p,
                do_sample: req.do_sample,
                max_new_tokens: max_new_tokens(req.max_tokens),
                return_full_text: req.echo,
                stop: req.stop,
                truncate: req.truncate,
                watermark: req.watermark,
                details: true,
                decoder_input_details: req.decoder_input_details,
                seed: req.seed,
            },
        }
    }
}

/// Normalises a chat request into a native request: the conversation
/// linearised by the formatter, and the native parameters.
pub fn chat_to_generate_request(
    req: CompatChatCompletionRequest,
    formatter: &ChatFormatter,
) -> (native: GenerateRequest)
    ensures
        native.inputs@ == formatter.linearize(req.messages@),
        native.parameters == req.native_parameters(),
{
    let prompt = formatter.linearize_messages(&req.messages);
    GenerateRequest {
        inputs: prompt,
        parameters: GenerateParameters {
            best_of: req.best_of,
            temperature: req.temperature,
            repetition_penalty: repetition_penalty(req.presence_penalty),
            top_k: req.top_k,
            top_p: req.top_p,
            typical_p: req.typical_p,
            do_sample: req.do_sample,
            max_new_tokens: max_new_tokens(req.max_tokens),
            return_full_text: req.echo,
            stop: req.stop,
            truncate: req.truncate,
            watermark: req.watermark,
            details: true,
            decoder_input_details: req.decoder_input_details,
            seed: req.seed,
        },
    }
}

} // verus!
