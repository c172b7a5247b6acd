//! The value types exchanged with the generation and tokenization backends,
//! and the aggregated response the unary pipeline produces.

use vstd::prelude::*;

verus! {

use crate::detection::DetectionPhase;
use crate::errors::ErrorResponse;

/// One text to tokenize.
#[derive(Debug)]
pub struct TokenizeRequest {
    pub text: String,
}

/// A batched tokenization request: one entry per segment, with no
/// truncation and no extra return fields.
#[derive(Debug)]
pub struct BatchedTokenizeRequest {
    pub model_id: String,
    pub requests: Vec<TokenizeRequest>,
    pub return_tokens: bool,
    pub return_offsets: bool,
    pub truncate_input_tokens: u32,
}

/// The tokenization backend's answer.
#[derive(Debug)]
pub struct TokenizeResponse {
    pub token_count: u32,
}

/// One streamed generation increment: the cumulative token counters and the
/// newly generated text fragment.
#[derive(Debug)]
pub struct GenerationResponse {
    pub input_token_count: u32,
    pub generated_token_count: u32,
    pub text: String,
}

impl GenerationResponse {
    /// An exact copy of the increment.
    pub fn duplicate(&self) -> (r: GenerationResponse)
        ensures
            r == *self,
    {
        GenerationResponse {
            input_token_count: self.input_token_count,
            generated_token_count: self.generated_token_count,
            text: self.text.clone(),
        }
    }
}

/// The unary generation backend's answer: the full output text and its
/// token count.
#[derive(Debug)]
pub struct GeneratedText {
    pub text: String,
    pub generated_token_count: u32,
}

/// The detection results attached to a response for one detection phase.
#[derive(Debug)]
pub enum DetectionAttachment {
    /// No detectors were configured for this phase.
    NotRequested,
    /// The phase completed; individual detectors may still have failed, see
    /// their reports.
    Completed(DetectionPhase),
    /// Every detector of the phase failed; the phase carries no results.
    Failed,
}

/// The aggregated unary response: token counts, the generated text, and the
/// outcome of each detection phase.
#[derive(Debug)]
pub struct AggregatedResult {
    pub input_token_count: u32,
    pub generated_token_count: u32,
    pub generated_text: String,
    pub input_detections: DetectionAttachment,
    pub output_detections: DetectionAttachment,
}

/// One unit of a streamed response delivered to the client.
#[derive(Debug)]
pub enum OutgoingEvent {
    /// One generation increment, forwarded in backend order.
    Token(GenerationResponse),
    /// The buffered output detection results, before the end marker.
    Detections(DetectionPhase),
    /// Output detection failed entirely; the generated stream stands, this
    /// marker replaces its detection results.
    DetectionFailed,
    /// The stream failed; this terminal event closes it early.
    Error(ErrorResponse),
    /// The end marker closing a completed stream.
    End,
}

/// A batched tokenization request for this model over exactly these texts,
/// in order, with truncation and extra return fields switched off.
pub open spec fn tokenize_request_for(
    r: BatchedTokenizeRequest,
    model_id: Seq<char>,
    texts: Seq<String>,
) -> bool {
    &&& r.model_id@ == model_id
    &&& r.requests@.len() == texts.len()
    &&& forall|i: int| 0 <= i < texts.len() ==> (#[trigger] r.requests@[i]).text@ == texts[i]@
    &&& !r.return_tokens
    &&& !r.return_offsets
    &&& r.truncate_input_tokens == 0
}

/// Builds the tokenization request covering the given texts.
#[verifier::loop_isolation(false)]
pub fn build_tokenize_request(model_id: &String, texts: &Vec<String>) -> (r: BatchedTokenizeRequest)
    ensures
        tokenize_request_for(r, model_id@, texts@),
{
    let mut requests: Vec<TokenizeRequest> = Vec::new();
    let mut i: usize = 0;
    while i < texts.len()
        invariant
            i <= texts@.len(),
            requests@.len() == i,
            forall|l: int| 0 <= l < i ==> (#[trigger] requests@[l]).text@ == texts@[l]@,
        decreases texts@.len() - i,
    {
        requests.push(TokenizeRequest { text: texts[i].clone() });
        i = i + 1;
    }
    BatchedTokenizeRequest {
        model_id: model_id.clone(),
        requests,
        return_tokens: false,
        return_offsets: false,
        truncate_input_tokens: 0,
    }
}

} // verus!
