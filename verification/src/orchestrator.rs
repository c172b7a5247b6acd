//! The request orchestrator: one client request drives a state machine that
//! orders input detection, tokenization, generation and output detection,
//! for the unary and the streaming mode.
//!
//! Every backend call is an asynchronous operation of the transport layer,
//! so the machine never calls anything itself: each step takes the current
//! state and one event (the outcome of the call the previous step asked
//! for, or a cancellation) and returns the next state together with the one
//! action the caller must perform. A flagged input detection short-circuits
//! the run before any generation action is issued; cancellation finishes
//! the run at once, and a finished run directs no further work.
//!
//! In streaming mode each increment is forwarded the moment it arrives;
//! when output detectors are configured the generated text is buffered
//! alongside and detected once the stream completes (buffer-then-detect),
//! the results going out as one event before the end marker.

use vstd::prelude::*;

verus! {

use vstd::string::StringExecFns;

use crate::detection::{DetectionPhase, any_flagged, phase_flagged};
use crate::errors::{
    BackendError,
    ErrorKind,
    ErrorResponse,
    backend_error_kind,
    error_response,
    kind_of_backend_error,
};
use crate::generation::{
    AggregatedResult,
    BatchedTokenizeRequest,
    DetectionAttachment,
    GeneratedText,
    GenerationResponse,
    OutgoingEvent,
    TokenizeResponse,
    build_tokenize_request,
    tokenize_request_for,
};
use crate::slicer::{all_spans_ok, segment_of, slice_input};

/// Guardrail settings for the input side: optional mask spans and the input
/// detectors to run.
#[derive(Debug)]
pub struct GuardrailsConfigInput {
    pub masks: Option<Vec<(usize, usize)>>,
    pub models: Vec<String>,
}

/// Guardrail settings for the output side: the output detectors to run.
#[derive(Debug)]
pub struct GuardrailsConfigOutput {
    pub models: Vec<String>,
}

/// The optional guardrail configuration of one request.
#[derive(Debug)]
pub struct GuardrailsConfig {
    pub input: Option<GuardrailsConfigInput>,
    pub output: Option<GuardrailsConfigOutput>,
}

/// One client request: the model to use, the input text, and the optional
/// guardrail configuration.
#[derive(Debug)]
pub struct GuardrailsHttpRequest {
    pub model_id: String,
    pub inputs: String,
    pub guardrail_config: Option<GuardrailsConfig>,
}

/// Which transport shape the client asked for.
#[derive(Clone, Copy, PartialEq, Eq, Structural, Debug)]
pub enum PipelineMode {
    Unary,
    Streaming,
}

/// The validated, request-scoped data one run of the machine works from.
#[derive(Debug)]
pub struct RequestContext {
    pub model_id: String,
    pub input_text: String,
    /// The sliced input segments detection works on.
    pub segments: Vec<String>,
    /// The input detectors to run; empty when none are configured.
    pub input_detectors: Vec<String>,
    /// The output detectors to run; empty when none are configured.
    pub output_detectors: Vec<String>,
    /// The block policy threshold, in thousandths of a confidence score;
    /// a finding scoring strictly above it flags the request.
    pub threshold: u32,
    pub mode: PipelineMode,
}

/// The mask spans the request supplies, if any.
pub open spec fn config_input_masks(req: GuardrailsHttpRequest) -> Option<Seq<(usize, usize)>> {
    match req.guardrail_config {
        Option::Some(gc) => match gc.input {
            Option::Some(ic) => match ic.masks {
                Option::Some(ms) => Option::Some(ms@),
                Option::None => Option::None,
            },
            Option::None => Option::None,
        },
        Option::None => Option::None,
    }
}

/// The input detectors the request configures (empty when absent).
pub open spec fn config_input_models(req: GuardrailsHttpRequest) -> Seq<String> {
    match req.guardrail_config {
        Option::Some(gc) => match gc.input {
            Option::Some(ic) => ic.models@,
            Option::None => Seq::empty(),
        },
        Option::None => Seq::empty(),
    }
}

/// The output detectors the request configures (empty when absent).
pub open spec fn config_output_models(req: GuardrailsHttpRequest) -> Seq<String> {
    match req.guardrail_config {
        Option::Some(gc) => match gc.output {
            Option::Some(oc) => oc.models@,
            Option::None => Seq::empty(),
        },
        Option::None => Seq::empty(),
    }
}

/// An element-wise copy of a list of strings.
#[verifier::loop_isolation(false)]
fn copy_strings(xs: &Vec<String>) -> (r: Vec<String>)
    ensures
        r@ == xs@,
{
    let mut r: Vec<String> = Vec::new();
    let mut i: usize = 0;
    while i < xs.len()
        invariant
            i <= xs@.len(),
            r@ == xs@.take(i as int),
        decreases xs@.len() - i,
    {
        r.push(xs[i].clone());
        proof {
            assert(xs@.take((i + 1) as int) =~= xs@.take(i as int).push(xs@[i as int]));
        }
        i = i + 1;
    }
    proof {
        assert(xs@.take(xs@.len() as int) =~= xs@);
    }
    r
}

/// Validates and normalizes one client request: slices the input along its
/// mask spans and collects the configured detector lists. A bad mask span
/// rejects the request before any backend call.
pub fn normalize_request(req: &GuardrailsHttpRequest, mode: PipelineMode, threshold: u32) -> (r:
    Result<RequestContext, ErrorKind>)
    ensures
        match r {
            Ok(ctx) => {
                &&& ctx.model_id@ == req.model_id@
                &&& ctx.input_text@ == req.inputs@
                &&& ctx.input_detectors@ == config_input_models(*req)
                &&& ctx.output_detectors@ == config_output_models(*req)
                &&& ctx.threshold == threshold
                &&& ctx.mode == mode
                &&& match config_input_masks(*req) {
                    Option::None => ctx.segments@.len() == 1 && ctx.segments@[0]@ == req.inputs@,
                    Option::Some(ms) => if ms.len() == 0 {
                        ctx.segments@.len() == 1 && ctx.segments@[0]@ == req.inputs@
                    } else {
                        &&& all_spans_ok(ms, req.inputs@.len())
                        &&& ctx.segments@.len() == ms.len()
                        &&& forall|i: int|
                            0 <= i < ms.len() ==> ctx.segments@[i]@ == segment_of(
                                req.inputs@,
                                #[trigger] ms[i],
                            )
                    },
                }
            },
            Err(k) => {
                &&& k == ErrorKind::InvalidSpan
                &&& config_input_masks(*req) matches Option::Some(ms) && !all_spans_ok(
                    ms,
                    req.inputs@.len(),
                )
            },
        },
{
    let no_masks: Option<Vec<(usize, usize)>> = None;
    let sliced = match &req.guardrail_config {
        Some(gc) => match &gc.input {
            Some(ic) => slice_input(req.inputs.as_str(), &ic.masks),
            None => slice_input(req.inputs.as_str(), &no_masks),
        },
        None => slice_input(req.inputs.as_str(), &no_masks),
    };
    let segments = match sliced {
        Ok(segments) => segments,
        Err(k) => {
            return Err(k);
        },
    };
    let input_detectors = match &req.guardrail_config {
        Some(gc) => match &gc.input {
            Some(ic) => copy_strings(&ic.models),
            None => Vec::new(),
        },
        None => Vec::new(),
    };
    let output_detectors = match &req.guardrail_config {
        Some(gc) => match &gc.output {
            Some(oc) => copy_strings(&oc.models),
            None => Vec::new(),
        },
        None => Vec::new(),
    };
    Ok(
        RequestContext {
            model_id: req.model_id.clone(),
            input_text: req.inputs.clone(),
            segments,
            input_detectors,
            output_detectors,
            threshold,
            mode,
        },
    )
}

/// Where one run of the machine stands.
#[derive(Debug)]
pub enum OrchestratorState {
    /// Nothing has happened yet; feed `Begin`.
    Started,
    /// Input detection was asked for and is awaited.
    InputDetecting,
    /// Tokenization is awaited; carries the completed input detection, if
    /// one was configured.
    Tokenizing { input_detections: Option<DetectionPhase> },
    /// Unary generation is awaited.
    Generating { input_detections: Option<DetectionPhase>, input_token_count: u32 },
    /// Output detection over the generated text is awaited.
    OutputDetecting {
        input_detections: Option<DetectionPhase>,
        input_token_count: u32,
        generated: GeneratedText,
    },
    /// The backend stream is open; `collected` buffers the text generated
    /// so far for end-of-stream output detection.
    Streaming { collected: String },
    /// The stream ended and its buffered output detection is awaited.
    StreamDetecting,
    /// The run is over; no further work is directed.
    Finished,
}

/// What happened: the outcome of the asked-for backend call, or a consumer
/// cancellation.
#[derive(Debug)]
pub enum OrchestratorEvent {
    Begin,
    InputDetectionDone(Result<DetectionPhase, ErrorKind>),
    TokenizeDone(Result<TokenizeResponse, BackendError>),
    GenerateDone(Result<GeneratedText, BackendError>),
    StreamFragment(GenerationResponse),
    StreamEnd,
    StreamError(BackendError),
    OutputDetectionDone(Result<DetectionPhase, ErrorKind>),
    Cancel,
}

/// The one thing the caller must do next.
#[derive(Debug)]
pub enum OrchestratorAction {
    /// Run the named detectors over the segments and feed back
    /// `InputDetectionDone`.
    DetectInput { detectors: Vec<String>, segments: Vec<String> },
    /// Place this tokenization call and feed back `TokenizeDone`.
    Tokenize { request: BatchedTokenizeRequest },
    /// Place the unary generation call and feed back `GenerateDone`.
    Generate { model_id: String, text: String },
    /// Open the generation stream and feed back each `StreamFragment`, then
    /// `StreamEnd` (or `StreamError`).
    OpenStream { model_id: String, text: String },
    /// Run the named detectors over the segments and feed back
    /// `OutputDetectionDone`.
    DetectOutput { detectors: Vec<String>, segments: Vec<String> },
    /// Return this unary response to the client; the run is over.
    Respond(Result<AggregatedResult, ErrorResponse>),
    /// Forward this event to the stream consumer and keep feeding the
    /// machine.
    Emit(OutgoingEvent),
    /// Forward these events in order and close the stream; the run is over.
    EmitAll(Vec<OutgoingEvent>),
    /// Do nothing further: the run was cancelled or is already over.
    Halt,
}

/// The detection attachment recorded for an optional completed phase.
pub open spec fn attachment_of(id: Option<DetectionPhase>) -> DetectionAttachment {
    match id {
        Option::Some(phase) => DetectionAttachment::Completed(phase),
        Option::None => DetectionAttachment::NotRequested,
    }
}

/// The action asks for input detection over exactly the context's segments
/// and input detectors.
pub open spec fn detect_input_action(ctx: RequestContext, act: OrchestratorAction) -> bool {
    act matches OrchestratorAction::DetectInput { detectors, segments } && detectors@
        == ctx.input_detectors@ && segments@ == ctx.segments@
}

/// The action asks for output detection of the given text (one segment)
/// with the context's output detectors.
pub open spec fn detect_output_action(
    ctx: RequestContext,
    text: Seq<char>,
    act: OrchestratorAction,
) -> bool {
    act matches OrchestratorAction::DetectOutput { detectors, segments } && detectors@
        == ctx.output_detectors@ && segments@.len() == 1 && segments@[0]@ == text
}

/// What dispatching into the generation pipeline looks like, once input
/// detection is out of the way: unary mode tokenizes the segments, streaming
/// mode opens the stream with an empty buffer.
pub open spec fn proceed_post(
    ctx: RequestContext,
    id: Option<DetectionPhase>,
    post: OrchestratorState,
    act: OrchestratorAction,
) -> bool {
    match ctx.mode {
        PipelineMode::Unary => {
            &&& post matches OrchestratorState::Tokenizing { input_detections }
                && input_detections == id
            &&& act matches OrchestratorAction::Tokenize { request } && tokenize_request_for(
                request,
                ctx.model_id@,
                ctx.segments@,
            )
        },
        PipelineMode::Streaming => {
            &&& post matches OrchestratorState::Streaming { collected } && collected@
                == Seq::<char>::empty()
            &&& act matches OrchestratorAction::OpenStream { model_id, text } && model_id@
                == ctx.model_id@ && text@ == ctx.input_text@
        },
    }
}

/// The short-circuit: a flagged input detection finishes the run at once,
/// returning the detection result itself and nothing generated.
pub open spec fn blocked_post(
    ctx: RequestContext,
    phase: DetectionPhase,
    post: OrchestratorState,
    act: OrchestratorAction,
) -> bool {
    &&& post is Finished
    &&& match ctx.mode {
        PipelineMode::Unary => act matches OrchestratorAction::Respond(res) && res matches Ok(agg)
            && agg.input_token_count == 0 && agg.generated_token_count == 0
            && agg.generated_text@ == Seq::<char>::empty() && agg.input_detections
            == DetectionAttachment::Completed(phase) && agg.output_detections is NotRequested,
        PipelineMode::Streaming => act matches OrchestratorAction::EmitAll(evs) && evs@.len() == 2
            && evs@[0] == OutgoingEvent::Detections(phase) && evs@[1] is End,
    }
}

/// A failure that ends the whole run: unary requests get the structured
/// error, streams get one terminal error event.
pub open spec fn request_failed_post(
    ctx: RequestContext,
    k: ErrorKind,
    post: OrchestratorState,
    act: OrchestratorAction,
) -> bool {
    &&& post is Finished
    &&& match ctx.mode {
        PipelineMode::Unary => act matches OrchestratorAction::Respond(res) && res matches Err(er)
            && er.kind == k,
        PipelineMode::Streaming => act matches OrchestratorAction::EmitAll(evs) && evs@.len() == 1
            && (evs@[0] matches OutgoingEvent::Error(er) && er.kind == k),
    }
}

/// The run responds with the aggregated unary result built from these
/// pieces.
pub open spec fn respond_aggregated(
    id: Option<DetectionPhase>,
    input_token_count: u32,
    generated: GeneratedText,
    output: DetectionAttachment,
    act: OrchestratorAction,
) -> bool {
    act matches OrchestratorAction::Respond(res) && res matches Ok(agg) && agg.input_token_count
        == input_token_count && agg.generated_token_count == generated.generated_token_count
        && agg.generated_text@ == generated.text@ && agg.input_detections == attachment_of(id)
        && agg.output_detections == output
}

/// The machine's full transition relation: what each step promises of the
/// next state and the directed action, for every state and event.
pub open spec fn step_post(
    ctx: RequestContext,
    pre: OrchestratorState,
    ev: OrchestratorEvent,
    post: OrchestratorState,
    act: OrchestratorAction,
) -> bool {
    match (pre, ev) {
        (OrchestratorState::Started, OrchestratorEvent::Begin) => if ctx.input_detectors@.len()
            > 0 {
            post is InputDetecting && detect_input_action(ctx, act)
        } else {
            proceed_post(ctx, Option::None, post, act)
        },
        (
            OrchestratorState::InputDetecting,
            OrchestratorEvent::InputDetectionDone(res),
        ) => match res {
            Ok(phase) => if phase_flagged(phase, ctx.threshold) {
                blocked_post(ctx, phase, post, act)
            } else {
                proceed_post(ctx, Option::Some(phase), post, act)
            },
            Err(k) => request_failed_post(ctx, k, post, act),
        },
        (
            OrchestratorState::Tokenizing { input_detections },
            OrchestratorEvent::TokenizeDone(res),
        ) => match res {
            Ok(tr) => post matches OrchestratorState::Generating {
                input_detections: id2,
                input_token_count: n,
            } && id2 == input_detections && n == tr.token_count && (
            act matches OrchestratorAction::Generate { model_id, text } && model_id@
                == ctx.model_id@ && text@ == ctx.input_text@),
            Err(be) => request_failed_post(ctx, backend_error_kind(be), post, act),
        },
        (
            OrchestratorState::Generating { input_detections, input_token_count },
            OrchestratorEvent::GenerateDone(res),
        ) => match res {
            Ok(gt) => if ctx.output_detectors@.len() > 0 {
                post matches OrchestratorState::OutputDetecting {
                    input_detections: id2,
                    input_token_count: n2,
                    generated: g2,
                } && id2 == input_detections && n2 == input_token_count && g2 == gt
                    && detect_output_action(ctx, gt.text@, act)
            } else {
                post is Finished && respond_aggregated(
                    input_detections,
                    input_token_count,
                    gt,
                    DetectionAttachment::NotRequested,
                    act,
                )
            },
            Err(be) => request_failed_post(ctx, backend_error_kind(be), post, act),
        },
        (
            OrchestratorState::OutputDetecting { input_detections, input_token_count, generated },
            OrchestratorEvent::OutputDetectionDone(res),
        ) => {
            &&& post is Finished
            &&& match res {
                Ok(phase) => respond_aggregated(
                    input_detections,
                    input_token_count,
                    generated,
                    DetectionAttachment::Completed(phase),
                    act,
                ),
                Err(_) => respond_aggregated(
                    input_detections,
                    input_token_count,
                    generated,
                    DetectionAttachment::Failed,
                    act,
                ),
            }
        },
        (
            OrchestratorState::Streaming { collected },
            OrchestratorEvent::StreamFragment(f),
        ) => {
            post matches OrchestratorState::Streaming { collected: c2 } && c2@ == collected@
                + f.text@ && (act matches OrchestratorAction::Emit(out) && out
                == OutgoingEvent::Token(f))
        },
        (OrchestratorState::Streaming { collected }, OrchestratorEvent::StreamEnd) => if ctx.output_detectors@.len()
            > 0 {
            post is StreamDetecting && detect_output_action(ctx, collected@, act)
        } else {
            &&& post is Finished
            &&& act matches OrchestratorAction::EmitAll(evs) && evs@.len() == 1 && evs@[0] is End
        },
        (OrchestratorState::Streaming { .. }, OrchestratorEvent::StreamError(be)) => {
            &&& post is Finished
            &&& act matches OrchestratorAction::EmitAll(evs) && evs@.len() == 1 && (
            evs@[0] matches OutgoingEvent::Error(er) && er.kind == backend_error_kind(be))
        },
        (
            OrchestratorState::StreamDetecting,
            OrchestratorEvent::OutputDetectionDone(res),
        ) => {
            &&& post is Finished
            &&& act matches OrchestratorAction::EmitAll(evs) && evs@.len() == 2 && evs@[1] is End
                && match res {
                Ok(phase) => evs@[0] == OutgoingEvent::Detections(phase),
                Err(_) => evs@[0] is DetectionFailed,
            }
        },
        (_, OrchestratorEvent::Cancel) => post is Finished && act is Halt,
        _ => post is Finished && act is Halt,
    }
}

/// Dispatches into the generation pipeline for the context's mode.
fn proceed(ctx: &RequestContext, id: Option<DetectionPhase>) -> (r: (
    OrchestratorState,
    OrchestratorAction,
))
    ensures
        proceed_post(*ctx, id, r.0, r.1),
{
    match ctx.mode {
        PipelineMode::Unary => (
            OrchestratorState::Tokenizing { input_detections: id },
            OrchestratorAction::Tokenize {
                request: build_tokenize_request(&ctx.model_id, &ctx.segments),
            },
        ),
        PipelineMode::Streaming => (
            OrchestratorState::Streaming { collected: String::new() },
            OrchestratorAction::OpenStream {
                model_id: ctx.model_id.clone(),
                text: ctx.input_text.clone(),
            },
        ),
    }
}

/// Ends the run with a whole-request failure of this kind.
fn fail_request(ctx: &RequestContext, k: ErrorKind) -> (r: (
    OrchestratorState,
    OrchestratorAction,
))
    ensures
        request_failed_post(*ctx, k, r.0, r.1),
{
    match ctx.mode {
        PipelineMode::Unary => (
            OrchestratorState::Finished,
            OrchestratorAction::Respond(Err(error_response(k))),
        ),
        PipelineMode::Streaming => (
            OrchestratorState::Finished,
            OrchestratorAction::EmitAll(vec![OutgoingEvent::Error(error_response(k))]),
        ),
    }
}

/// One step of the orchestrator: consumes the current state and one event,
/// returns the next state and the one action the caller must perform. See
/// `step_post` for the full transition relation; in particular a flagged
/// input detection short-circuits the run, cancellation is honoured in
/// every state, and a finished run only ever halts.
pub fn orchestrator_step(
    ctx: &RequestContext,
    state: OrchestratorState,
    event: OrchestratorEvent,
) -> (r: (OrchestratorState, OrchestratorAction))
    ensures
        step_post(*ctx, state, event, r.0, r.1),
{
    match (state, event) {
        (OrchestratorState::Started, OrchestratorEvent::Begin) => {
            if ctx.input_detectors.len() > 0 {
                (
                    OrchestratorState::InputDetecting,
                    OrchestratorAction::DetectInput {
                        detectors: copy_strings(&ctx.input_detectors),
                        segments: copy_strings(&ctx.segments),
                    },
                )
            } else {
                proceed(ctx, None)
            }
        },
        (OrchestratorState::InputDetecting, OrchestratorEvent::InputDetectionDone(res)) => {
            match res {
                Ok(phase) => {
                    if any_flagged(&phase, ctx.threshold) {
                        match ctx.mode {
                            PipelineMode::Unary => (
                                OrchestratorState::Finished,
                                OrchestratorAction::Respond(
                                    Ok(
                                        AggregatedResult {
                                            input_token_count: 0,
                                            generated_token_count: 0,
                                            generated_text: String::new(),
                                            input_detections: DetectionAttachment::Completed(phase),
                                            output_detections: DetectionAttachment::NotRequested,
                                        },
                                    ),
                                ),
                            ),
                            PipelineMode::Streaming => (
                                OrchestratorState::Finished,
                                OrchestratorAction::EmitAll(
                                    vec![OutgoingEvent::Detections(phase), OutgoingEvent::End],
                                ),
                            ),
                        }
                    } else {
                        proceed(ctx, Some(phase))
                    }
                },
                Err(k) => fail_request(ctx, k),
            }
        },
        (OrchestratorState::Tokenizing { input_detections }, OrchestratorEvent::TokenizeDone(res)) => {
            match res {
                Ok(tr) => (
                    OrchestratorState::Generating {
                        input_detections,
                        input_token_count: tr.token_count,
                    },
                    OrchestratorAction::Generate {
                        model_id: ctx.model_id.clone(),
                        text: ctx.input_text.clone(),
                    },
                ),
                Err(be) => fail_request(ctx, kind_of_backend_error(be)),
            }
        },
        (
            OrchestratorState::Generating { input_detections, input_token_count },
            OrchestratorEvent::GenerateDone(res),
        ) => {
            match res {
                Ok(gt) => {
                    if ctx.output_detectors.len() > 0 {
                        let segment = gt.text.clone();
                        (
                            OrchestratorState::OutputDetecting {
                                input_detections,
                                input_token_count,
                                generated: gt,
                            },
                            OrchestratorAction::DetectOutput {
                                detectors: copy_strings(&ctx.output_detectors),
                                segments: vec![segment],
                            },
                        )
                    } else {
                        (
                            OrchestratorState::Finished,
                            OrchestratorAction::Respond(
                                Ok(
                                    AggregatedResult {
                                        input_token_count,
                                        generated_token_count: gt.generated_token_count,
                                        generated_text: gt.text,
                                        input_detections: attach(input_detections),
                                        output_detections: DetectionAttachment::NotRequested,
                                    },
                                ),
                            ),
                        )
                    }
                },
                Err(be) => fail_request(ctx, kind_of_backend_error(be)),
            }
        },
        (
            OrchestratorState::OutputDetecting { input_detections, input_token_count, generated },
            OrchestratorEvent::OutputDetectionDone(res),
        ) => {
            let output_detections = match res {
                Ok(phase) => DetectionAttachment::Completed(phase),
                Err(_) => DetectionAttachment::Failed,
            };
            (
                OrchestratorState::Finished,
                OrchestratorAction::Respond(
                    Ok(
                        AggregatedResult {
                            input_token_count,
                            generated_token_count: generated.generated_token_count,
                            generated_text: generated.text,
                            input_detections: attach(input_detections),
                            output_detections,
                        },
                    ),
                ),
            )
        },
        (OrchestratorState::Streaming { collected }, OrchestratorEvent::StreamFragment(f)) => {
            let mut collected = collected;
            collected.append(f.text.as_str());
            (
                OrchestratorState::Streaming { collected },
                OrchestratorAction::Emit(OutgoingEvent::Token(f)),
            )
        },
        (OrchestratorState::Streaming { collected }, OrchestratorEvent::StreamEnd) => {
            if ctx.output_detectors.len() > 0 {
                (
                    OrchestratorState::StreamDetecting,
                    OrchestratorAction::DetectOutput {
                        detectors: copy_strings(&ctx.output_detectors),
                        segments: vec![collected],
                    },
                )
            } else {
                (
                    OrchestratorState::Finished,
                    OrchestratorAction::EmitAll(vec![OutgoingEvent::End]),
                )
            }
        },
        (OrchestratorState::Streaming { .. }, OrchestratorEvent::StreamError(be)) => {
            (
                OrchestratorState::Finished,
                OrchestratorAction::EmitAll(
                    vec![OutgoingEvent::Error(error_response(kind_of_backend_error(be)))],
                ),
            )
        },
        (OrchestratorState::StreamDetecting, OrchestratorEvent::OutputDetectionDone(res)) => {
            let evs = match res {
                Ok(phase) => vec![OutgoingEvent::Detections(phase), OutgoingEvent::End],
                Err(_) => vec![OutgoingEvent::DetectionFailed, OutgoingEvent::End],
            };
            (OrchestratorState::Finished, OrchestratorAction::EmitAll(evs))
        },
        (_, OrchestratorEvent::Cancel) => (OrchestratorState::Finished, OrchestratorAction::Halt),
        _ => (OrchestratorState::Finished, OrchestratorAction::Halt),
    }
}

/// The detection attachment for an optional completed phase.
fn attach(id: Option<DetectionPhase>) -> (r: DetectionAttachment)
    ensures
        r == attachment_of(id),
{
    match id {
        Some(phase) => DetectionAttachment::Completed(phase),
        None => DetectionAttachment::NotRequested,
    }
}

/// Law: a cancellation event, in whatever state, finishes the run with no
/// emission and no further backend instruction.
pub proof fn lemma_cancel_halts(
    ctx: RequestContext,
    pre: OrchestratorState,
    post: OrchestratorState,
    act: OrchestratorAction,
)
    requires
        step_post(ctx, pre, OrchestratorEvent::Cancel, post, act),
    ensures
        post is Finished,
        act is Halt,
{
}

/// Law: a finished run is absorbing — whatever event arrives afterwards,
/// the machine stays finished and directs no action, so no backend call and
/// no emission ever follows the end of a run.
pub proof fn lemma_finished_absorbs(
    ctx: RequestContext,
    ev: OrchestratorEvent,
    post: OrchestratorState,
    act: OrchestratorAction,
)
    requires
        step_post(ctx, OrchestratorState::Finished, ev, post, act),
    ensures
        post is Finished,
        act is Halt,
{
}

/// Law: an input detection that flags a block condition short-circuits the
/// run: the step finishes it at once and directs neither a generation nor a
/// stream-opening nor a tokenization action, and by `lemma_finished_absorbs`
/// none can follow later either.
pub proof fn lemma_flagged_input_short_circuits(
    ctx: RequestContext,
    phase: DetectionPhase,
    post: OrchestratorState,
    act: OrchestratorAction,
)
    requires
        step_post(
            ctx,
            OrchestratorState::InputDetecting,
            OrchestratorEvent::InputDetectionDone(Ok(phase)),
            post,
            act,
        ),
        phase_flagged(phase, ctx.threshold),
    ensures
        post is Finished,
        !(act is Generate),
        !(act is OpenStream),
        !(act is Tokenize),
{
}

/// The input side of a run is clear when its detection phase, if one was
/// configured, completed without a flag.
pub open spec fn input_cleared(ctx: RequestContext, id: Option<DetectionPhase>) -> bool {
    match id {
        Option::Some(phase) => !phase_flagged(phase, ctx.threshold),
        Option::None => ctx.input_detectors@.len() == 0,
    }
}

/// Every generation-side state records a clear input side.
pub open spec fn run_invariant(ctx: RequestContext, state: OrchestratorState) -> bool {
    match state {
        OrchestratorState::Tokenizing { input_detections } => input_cleared(ctx, input_detections),
        OrchestratorState::Generating { input_detections, .. } => input_cleared(
            ctx,
            input_detections,
        ),
        OrchestratorState::OutputDetecting { input_detections, .. } => input_cleared(
            ctx,
            input_detections,
        ),
        _ => true,
    }
}

/// Law: the clear-input invariant is preserved by every step, and a step
/// directs generation (unary or streaming) only when input detection was
/// never configured or completed without a flag — generation never runs
/// after a blocking input-detection flag.
pub proof fn lemma_generation_respects_input_detection(
    ctx: RequestContext,
    pre: OrchestratorState,
    ev: OrchestratorEvent,
    post: OrchestratorState,
    act: OrchestratorAction,
)
    requires
        step_post(ctx, pre, ev, post, act),
        run_invariant(ctx, pre),
    ensures
        run_invariant(ctx, post),
        (act is Generate || act is OpenStream) ==> ((pre matches OrchestratorState::Started
            && ctx.input_detectors@.len() == 0) || (
        ev matches OrchestratorEvent::InputDetectionDone(Ok(phase)) && !phase_flagged(
            phase,
            ctx.threshold,
        )) || (pre matches OrchestratorState::Tokenizing { input_detections } && input_cleared(
            ctx,
            input_detections,
        ))),
{
}

/// Runs the streaming phase over a complete backend fragment sequence, for
/// a run with no output detection configured: each fragment is wrapped into
/// an outgoing token event, in backend order with nothing reordered or
/// dropped, and the end marker closes the sequence.
#[verifier::loop_isolation(false)]
pub fn pump_stream(ctx: &RequestContext, fragments: &Vec<GenerationResponse>) -> (r: Vec<
    OutgoingEvent,
>)
    requires
        ctx.output_detectors@.len() == 0,
    ensures
        r@.len() == fragments@.len() + 1,
        forall|i: int|
            0 <= i < fragments@.len() ==> (#[trigger] r@[i]) == OutgoingEvent::Token(
                fragments@[i],
            ),
        r@[fragments@.len() as int] is End,
{
    let mut out: Vec<OutgoingEvent> = Vec::new();
    let mut state = OrchestratorState::Streaming { collected: String::new() };
    let mut i: usize = 0;
    while i < fragments.len()
        invariant
            i <= fragments@.len(),
            state is Streaming,
            out@.len() == i,
            forall|l: int|
                0 <= l < i ==> (#[trigger] out@[l]) == OutgoingEvent::Token(fragments@[l]),
        decreases fragments@.len() - i,
    {
        let f = fragments[i].duplicate();
        let stepped = orchestrator_step(ctx, state, OrchestratorEvent::StreamFragment(f));
        state = stepped.0;
        match stepped.1 {
            OrchestratorAction::Emit(ev) => {
                out.push(ev);
            },
            _ => {
                proof {
                    assert(false);
                }
            },
        }
        i = i + 1;
    }
    let stepped = orchestrator_step(ctx, state, OrchestratorEvent::StreamEnd);
    match stepped.1 {
        OrchestratorAction::EmitAll(mut evs) => {
            match evs.pop() {
                Some(ev) => {
                    out.push(ev);
                },
                None => {
                    proof {
                        assert(false);
                    }
                },
            }
        },
        _ => {
            proof {
                assert(false);
            }
        },
    }
    out
}

} // verus!
