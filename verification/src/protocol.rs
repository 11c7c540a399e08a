//! The native generate protocol: what the inference engine takes and returns.

use vstd::prelude::*;

verus! {

/// A single-precision number held by its IEEE-754 bit pattern.
///
/// The library carries such numbers from one protocol to the other and never
/// computes on them, so the bit pattern is all it needs.
#[derive(Clone, Copy, Debug, PartialEq, Eq, Structural)]
pub struct F32Bits {
    pub bits: u32,
}

/// Why a generation stopped.
#[derive(Clone, Copy, Debug, PartialEq, Eq, Structural)]
pub enum FinishReason {
    Length,
    EndOfSequenceToken,
    StopSequence,
}

/// Which of the two stream shapes an endpoint opened.
#[derive(Clone, Copy, Debug, PartialEq, Eq, Structural)]
pub enum OpenaiStreamType {
    ChatCompletionsStreamResponse,
    CompletionsResponse,
}

/// Sampling and decoding configuration of one native request.
#[derive(Clone, Debug, PartialEq, Eq)]
pub struct GenerateParameters {
    pub best_of: Option<usize>,
    pub temperature: Option<F32Bits>,
    pub repetition_penalty: Option<F32Bits>,
    pub top_k: Option<i32>,
    pub top_p: Option<F32Bits>,
    pub typical_p: Option<F32Bits>,
    pub do_sample: bool,
    pub max_new_tokens: u32,
    pub return_full_text: Option<bool>,
    pub stop: Vec<String>,
    pub truncate: Option<usize>,
    pub watermark: bool,
    pub details: bool,
    pub decoder_input_details: bool,
    pub seed: Option<u64>,
}

/// One native request: the prompt and how to decode.
#[derive(Clone, Debug, PartialEq, Eq)]
pub struct GenerateRequest {
    pub inputs: String,
    pub parameters: GenerateParameters,
}

/// A token of the prompt, as the engine reports it.
#[derive(Clone, Debug, PartialEq, Eq)]
pub struct PrefillToken {
    pub id: u32,
    pub text: String,
    pub logprob: F32Bits,
}

/// A generated token.
#[derive(Clone, Debug, PartialEq, Eq)]
pub struct Token {
    pub id: u32,
    pub text: String,
    pub logprob: F32Bits,
    pub special: bool,
}

/// What the engine reports of a finished generation.
#[derive(Clone, Debug, PartialEq, Eq)]
pub struct Details {
    pub finish_reason: FinishReason,
    pub generated_tokens: u32,
    pub seed: Option<u64>,
    pub prefill: Vec<PrefillToken>,
    pub tokens: Vec<Token>,
}

/// What the engine attaches to the last fragment of a stream.
#[derive(Clone, Copy, Debug, PartialEq, Eq, Structural)]
pub struct StreamDetails {
    pub finish_reason: FinishReason,
    pub generated_tokens: u32,
    pub seed: Option<u64>,
}

/// The engine's answer to a native request.
#[derive(Clone, Debug, PartialEq, Eq)]
pub struct GenerateResponse {
    pub generated_text: String,
    pub details: Option<Details>,
}

/// What the process knows of the model it serves.
#[derive(Clone, Debug, PartialEq, Eq)]
pub struct Info {
    pub model_id: String,
}

/// The number of new tokens asked for when a request names none.
pub open spec fn spec_default_max_new_tokens() -> u32 {
    20
}

#[verifier::when_used_as_spec(spec_default_max_new_tokens)]
pub fn default_max_new_tokens() -> (n: u32)
    ensures
        n == 20,
{
    20
}

impl GenerateResponse {
    /// Number of tokens generated: zero where the engine gave no details.
    pub open spec fn completion_tokens(&self) -> nat {
        match self.details {
            Some(d) => d.generated_tokens as nat,
            None => 0,
        }
    }

    /// Number of prompt tokens: the length of the prefill, zero where the
    /// engine gave no details.
    pub open spec fn prompt_tokens(&self) -> nat {
        match self.details {
            Some(d) => d.prefill@.len(),
            None => 0,
        }
    }

    /// The finish reason, absent where the engine gave no details.
    pub open spec fn finish_reason(&self) -> Option<FinishReason> {
        match self.details {
            Some(d) => Some(d.finish_reason),
            None => None,
        }
    }

    /// The token counts and their sum fit the 32-bit counters of a usage
    /// record.
    pub open spec fn counts_fit(&self) -> bool {
        self.completion_tokens() + self.prompt_tokens() <= u32::MAX
    }

    /// Tests whether the token counts and their sum fit a usage record.
    pub fn usage_fits(&self) -> (fits: bool)
        ensures
            fits == self.counts_fit(),
    {
        match &self.details {
            Some(details) => {
                let room: u32 = u32::MAX - details.generated_tokens;
                details.prefill.len() <= room as usize
            },
            None => true,
        }
    }
}

} // verus!
