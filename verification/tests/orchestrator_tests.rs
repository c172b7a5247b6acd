use guardrails_orchestrator::detection::{DetectionResult, aggregate_detections};
use guardrails_orchestrator::errors::{BackendError, ErrorKind};
use guardrails_orchestrator::generation::{
    DetectionAttachment, GeneratedText, GenerationResponse, OutgoingEvent, TokenizeResponse,
    build_tokenize_request,
};
use guardrails_orchestrator::orchestrator::{
    GuardrailsConfig, GuardrailsConfigInput, GuardrailsConfigOutput, GuardrailsHttpRequest,
    OrchestratorAction, OrchestratorEvent, OrchestratorState, PipelineMode, RequestContext,
    normalize_request, orchestrator_step, pump_stream,
};

const THRESHOLD: u32 = 500;

fn request(
    masks: Option<Vec<(usize, usize)>>,
    input_models: Option<Vec<&str>>,
    output_models: Option<Vec<&str>>,
) -> GuardrailsHttpRequest {
    let to_strings = |names: Vec<&str>| names.into_iter().map(String::from).collect();
    GuardrailsHttpRequest {
        model_id: String::from("test-model"),
        inputs: String::from("hello world"),
        guardrail_config: Some(GuardrailsConfig {
            input: input_models.map(|models| GuardrailsConfigInput {
                masks,
                models: to_strings(models),
            }),
            output: output_models.map(|models| GuardrailsConfigOutput {
                models: to_strings(models),
            }),
        }),
    }
}

fn context(req: &GuardrailsHttpRequest, mode: PipelineMode) -> RequestContext {
    normalize_request(req, mode, THRESHOLD).unwrap()
}

fn finding(score: u32) -> DetectionResult {
    DetectionResult {
        start: 0,
        end: 3,
        word: String::from("moo"),
        entity: String::from("cow"),
        entity_group: String::from("cow"),
        score,
        token_count: 1,
    }
}

#[test]
fn normalize_without_guardrail_config() {
    let req = GuardrailsHttpRequest {
        model_id: String::from("m"),
        inputs: String::from("text"),
        guardrail_config: None,
    };
    let ctx = normalize_request(&req, PipelineMode::Unary, THRESHOLD).unwrap();
    assert_eq!(ctx.segments, vec!["text"]);
    assert!(ctx.input_detectors.is_empty());
    assert!(ctx.output_detectors.is_empty());
}

#[test]
fn normalize_rejects_bad_mask_before_any_backend_call() {
    let req = request(Some(vec![(4, 2)]), Some(vec!["pii"]), None);
    let r = normalize_request(&req, PipelineMode::Unary, THRESHOLD);
    assert!(matches!(r, Err(ErrorKind::InvalidSpan)));
}

#[test]
fn build_tokenize_request_covers_all_segments() {
    let model_id = String::from("m");
    let texts = vec![String::from("a"), String::from("b")];
    let r = build_tokenize_request(&model_id, &texts);
    assert_eq!(r.model_id, "m");
    assert_eq!(r.requests.len(), 2);
    assert_eq!(r.requests[0].text, "a");
    assert_eq!(r.requests[1].text, "b");
    assert!(!r.return_tokens);
    assert!(!r.return_offsets);
    assert_eq!(r.truncate_input_tokens, 0);
}

#[test]
fn unary_flow_without_detection() {
    let req = request(None, None, None);
    let ctx = context(&req, PipelineMode::Unary);
    let (state, action) =
        orchestrator_step(&ctx, OrchestratorState::Started, OrchestratorEvent::Begin);
    let tokenize_request = match action {
        OrchestratorAction::Tokenize { request } => request,
        other => panic!("expected a tokenize action, got {:?}", other),
    };
    assert_eq!(tokenize_request.requests.len(), 1);
    assert_eq!(tokenize_request.requests[0].text, "hello world");

    let (state, action) = orchestrator_step(
        &ctx,
        state,
        OrchestratorEvent::TokenizeDone(Ok(TokenizeResponse { token_count: 9 })),
    );
    match &action {
        OrchestratorAction::Generate { model_id, text } => {
            assert_eq!(model_id, "test-model");
            assert_eq!(text, "hello world");
        }
        other => panic!("expected a generate action, got {:?}", other),
    }

    let (_, action) = orchestrator_step(
        &ctx,
        state,
        OrchestratorEvent::GenerateDone(Ok(GeneratedText {
            text: String::from("generated!"),
            generated_token_count: 3,
        })),
    );
    match action {
        OrchestratorAction::Respond(Ok(agg)) => {
            assert_eq!(agg.input_token_count, 9);
            assert_eq!(agg.generated_token_count, 3);
            assert_eq!(agg.generated_text, "generated!");
            assert!(matches!(agg.input_detections, DetectionAttachment::NotRequested));
            assert!(matches!(agg.output_detections, DetectionAttachment::NotRequested));
        }
        other => panic!("expected the aggregated response, got {:?}", other),
    }
}

#[test]
fn unary_tokenize_failure_fails_the_request() {
    let req = request(None, None, None);
    let ctx = context(&req, PipelineMode::Unary);
    let (state, _) = orchestrator_step(&ctx, OrchestratorState::Started, OrchestratorEvent::Begin);
    let (_, action) = orchestrator_step(
        &ctx,
        state,
        OrchestratorEvent::TokenizeDone(Err(BackendError::Unavailable)),
    );
    match action {
        OrchestratorAction::Respond(Err(er)) => assert_eq!(er.kind, ErrorKind::BackendUnavailable),
        other => panic!("expected an error response, got {:?}", other),
    }
}

#[test]
fn one_failed_output_detector_keeps_the_response_successful() {
    let req = request(None, None, Some(vec!["pii", "hap"]));
    let ctx = context(&req, PipelineMode::Unary);
    let (state, _) = orchestrator_step(&ctx, OrchestratorState::Started, OrchestratorEvent::Begin);
    let (state, _) = orchestrator_step(
        &ctx,
        state,
        OrchestratorEvent::TokenizeDone(Ok(TokenizeResponse { token_count: 9 })),
    );
    let (state, action) = orchestrator_step(
        &ctx,
        state,
        OrchestratorEvent::GenerateDone(Ok(GeneratedText {
            text: String::from("generated!"),
            generated_token_count: 3,
        })),
    );
    let detectors = match action {
        OrchestratorAction::DetectOutput { detectors, segments } => {
            assert_eq!(segments, vec!["generated!"]);
            detectors
        }
        other => panic!("expected an output detection action, got {:?}", other),
    };
    assert_eq!(detectors, vec!["pii", "hap"]);

    let outcomes = vec![vec![Ok(vec![finding(400)])], vec![Err(BackendError::Timeout)]];
    let phase = aggregate_detections(&detectors, &outcomes).unwrap();
    let (_, action) = orchestrator_step(
        &ctx,
        state,
        OrchestratorEvent::OutputDetectionDone(Ok(phase)),
    );
    match action {
        OrchestratorAction::Respond(Ok(agg)) => {
            assert_eq!(agg.generated_text, "generated!");
            match agg.output_detections {
                DetectionAttachment::Completed(phase) => {
                    assert!(phase.reports[0].outcome.is_ok());
                    assert!(matches!(
                        phase.reports[1].outcome,
                        Err(ErrorKind::BackendTimeout)
                    ));
                }
                other => panic!("expected completed output detections, got {:?}", other),
            }
        }
        other => panic!("expected the aggregated response, got {:?}", other),
    }
}

#[test]
fn all_output_detectors_failing_still_returns_generated_text() {
    let req = request(None, None, Some(vec!["pii", "hap"]));
    let ctx = context(&req, PipelineMode::Unary);
    let (state, _) = orchestrator_step(&ctx, OrchestratorState::Started, OrchestratorEvent::Begin);
    let (state, _) = orchestrator_step(
        &ctx,
        state,
        OrchestratorEvent::TokenizeDone(Ok(TokenizeResponse { token_count: 9 })),
    );
    let (state, action) = orchestrator_step(
        &ctx,
        state,
        OrchestratorEvent::GenerateDone(Ok(GeneratedText {
            text: String::from("generated!"),
            generated_token_count: 3,
        })),
    );
    let detectors = match action {
        OrchestratorAction::DetectOutput { detectors, .. } => detectors,
        other => panic!("expected an output detection action, got {:?}", other),
    };
    let outcomes = vec![
        vec![Err(BackendError::Unavailable)],
        vec![Err(BackendError::Timeout)],
    ];
    let total_failure = match aggregate_detections(&detectors, &outcomes) {
        Err(k) => {
            assert_eq!(k, ErrorKind::DetectionTotalFailure);
            k
        }
        Ok(_) => panic!("both detectors failed, the phase must fail"),
    };
    let (_, action) = orchestrator_step(
        &ctx,
        state,
        OrchestratorEvent::OutputDetectionDone(Err(total_failure)),
    );
    match action {
        OrchestratorAction::Respond(Ok(agg)) => {
            assert_eq!(agg.generated_text, "generated!");
            assert_eq!(agg.input_token_count, 9);
            assert!(matches!(agg.output_detections, DetectionAttachment::Failed));
        }
        other => panic!("expected the aggregated response, got {:?}", other),
    }
}

#[test]
fn stream_emits_three_ordered_events_then_end() {
    let req = request(None, None, None);
    let ctx = context(&req, PipelineMode::Streaming);
    let words = ["This", "is", "good"];
    let fragments: Vec<GenerationResponse> = words
        .iter()
        .enumerate()
        .map(|(i, w)| GenerationResponse {
            input_token_count: 9,
            generated_token_count: (i + 1) as u32,
            text: String::from(*w),
        })
        .collect();
    let events = pump_stream(&ctx, &fragments);
    assert_eq!(events.len(), 4);
    for (i, word) in words.iter().enumerate() {
        match &events[i] {
            OutgoingEvent::Token(f) => {
                assert_eq!(f.text, *word);
                assert_eq!(f.generated_token_count, (i + 1) as u32);
                assert_eq!(f.input_token_count, 9);
            }
            other => panic!("expected a token event, got {:?}", other),
        }
    }
    assert!(matches!(events[3], OutgoingEvent::End));
}

#[test]
fn cancelling_a_stream_stops_emission_and_backend_calls() {
    let req = request(None, None, None);
    let ctx = context(&req, PipelineMode::Streaming);
    let (state, action) =
        orchestrator_step(&ctx, OrchestratorState::Started, OrchestratorEvent::Begin);
    assert!(matches!(action, OrchestratorAction::OpenStream { .. }));
    let (state, action) = orchestrator_step(
        &ctx,
        state,
        OrchestratorEvent::StreamFragment(GenerationResponse {
            input_token_count: 1,
            generated_token_count: 1,
            text: String::from("This"),
        }),
    );
    assert!(matches!(action, OrchestratorAction::Emit(OutgoingEvent::Token(_))));

    let (state, action) = orchestrator_step(&ctx, state, OrchestratorEvent::Cancel);
    assert!(matches!(state, OrchestratorState::Finished));
    assert!(matches!(action, OrchestratorAction::Halt));

    // A late fragment after cancellation neither emits nor directs work.
    let (state, action) = orchestrator_step(
        &ctx,
        state,
        OrchestratorEvent::StreamFragment(GenerationResponse {
            input_token_count: 2,
            generated_token_count: 2,
            text: String::from("is"),
        }),
    );
    assert!(matches!(state, OrchestratorState::Finished));
    assert!(matches!(action, OrchestratorAction::Halt));
}

#[test]
fn flagged_input_detection_prevents_generation() {
    let req = request(None, Some(vec!["pii"]), None);
    let ctx = context(&req, PipelineMode::Unary);
    let (state, action) =
        orchestrator_step(&ctx, OrchestratorState::Started, OrchestratorEvent::Begin);
    let detectors = match action {
        OrchestratorAction::DetectInput { detectors, segments } => {
            assert_eq!(segments, vec!["hello world"]);
            detectors
        }
        other => panic!("expected an input detection action, got {:?}", other),
    };
    assert_eq!(detectors, vec!["pii"]);

    let outcomes = vec![vec![Ok(vec![finding(900)])]];
    let phase = aggregate_detections(&detectors, &outcomes).unwrap();
    let (state, action) = orchestrator_step(
        &ctx,
        state,
        OrchestratorEvent::InputDetectionDone(Ok(phase)),
    );
    assert!(matches!(state, OrchestratorState::Finished));
    match action {
        OrchestratorAction::Respond(Ok(agg)) => {
            assert_eq!(agg.generated_text, "");
            assert_eq!(agg.generated_token_count, 0);
            assert!(matches!(agg.input_detections, DetectionAttachment::Completed(_)));
        }
        other => panic!("a blocked request must respond at once, got {:?}", other),
    }

    // Nothing can start generation afterwards.
    let (state, action) = orchestrator_step(
        &ctx,
        state,
        OrchestratorEvent::TokenizeDone(Ok(TokenizeResponse { token_count: 9 })),
    );
    assert!(matches!(state, OrchestratorState::Finished));
    assert!(matches!(action, OrchestratorAction::Halt));
}

#[test]
fn unflagged_input_detection_proceeds_to_generation() {
    let req = request(Some(vec![(0, 5)]), Some(vec!["pii"]), None);
    let ctx = context(&req, PipelineMode::Unary);
    let (state, action) =
        orchestrator_step(&ctx, OrchestratorState::Started, OrchestratorEvent::Begin);
    match &action {
        OrchestratorAction::DetectInput { segments, .. } => {
            assert_eq!(segments, &vec!["hello"]);
        }
        other => panic!("expected an input detection action, got {:?}", other),
    }
    let names = vec![String::from("pii")];
    let outcomes = vec![vec![Ok(vec![finding(100)])]];
    let phase = aggregate_detections(&names, &outcomes).unwrap();
    let (_, action) = orchestrator_step(
        &ctx,
        state,
        OrchestratorEvent::InputDetectionDone(Ok(phase)),
    );
    match action {
        OrchestratorAction::Tokenize { request } => {
            assert_eq!(request.requests.len(), 1);
            assert_eq!(request.requests[0].text, "hello");
        }
        other => panic!("a clear input must proceed to tokenization, got {:?}", other),
    }
}

#[test]
fn flagged_input_detection_blocks_the_stream() {
    let req = request(None, Some(vec!["pii"]), None);
    let ctx = context(&req, PipelineMode::Streaming);
    let (state, action) =
        orchestrator_step(&ctx, OrchestratorState::Started, OrchestratorEvent::Begin);
    let detectors = match action {
        OrchestratorAction::DetectInput { detectors, .. } => detectors,
        other => panic!("expected an input detection action, got {:?}", other),
    };
    let outcomes = vec![vec![Ok(vec![finding(900)])]];
    let phase = aggregate_detections(&detectors, &outcomes).unwrap();
    let (state, action) = orchestrator_step(
        &ctx,
        state,
        OrchestratorEvent::InputDetectionDone(Ok(phase)),
    );
    assert!(matches!(state, OrchestratorState::Finished));
    match action {
        OrchestratorAction::EmitAll(events) => {
            assert_eq!(events.len(), 2);
            assert!(matches!(events[0], OutgoingEvent::Detections(_)));
            assert!(matches!(events[1], OutgoingEvent::End));
        }
        other => panic!("a blocked stream must close at once, got {:?}", other),
    }
}

#[test]
fn stream_output_detection_total_failure_keeps_the_stream() {
    let req = request(None, None, Some(vec!["pii", "hap"]));
    let ctx = context(&req, PipelineMode::Streaming);
    let (state, _) = orchestrator_step(&ctx, OrchestratorState::Started, OrchestratorEvent::Begin);
    let (state, action) = orchestrator_step(&ctx, state, OrchestratorEvent::StreamEnd);
    assert!(matches!(action, OrchestratorAction::DetectOutput { .. }));
    let (state, action) = orchestrator_step(
        &ctx,
        state,
        OrchestratorEvent::OutputDetectionDone(Err(ErrorKind::DetectionTotalFailure)),
    );
    assert!(matches!(state, OrchestratorState::Finished));
    match action {
        OrchestratorAction::EmitAll(events) => {
            assert_eq!(events.len(), 2);
            assert!(matches!(events[0], OutgoingEvent::DetectionFailed));
            assert!(matches!(events[1], OutgoingEvent::End));
        }
        other => panic!("expected the failure marker and end, got {:?}", other),
    }
}

#[test]
fn stream_error_emits_terminal_error_event() {
    let req = request(None, None, None);
    let ctx = context(&req, PipelineMode::Streaming);
    let (state, _) = orchestrator_step(&ctx, OrchestratorState::Started, OrchestratorEvent::Begin);
    let (state, action) =
        orchestrator_step(&ctx, state, OrchestratorEvent::StreamError(BackendError::Timeout));
    assert!(matches!(state, OrchestratorState::Finished));
    match action {
        OrchestratorAction::EmitAll(events) => {
            assert_eq!(events.len(), 1);
            match &events[0] {
                OutgoingEvent::Error(er) => assert_eq!(er.kind, ErrorKind::BackendTimeout),
                other => panic!("expected a terminal error event, got {:?}", other),
            }
        }
        other => panic!("expected terminal events, got {:?}", other),
    }
}

#[test]
fn stream_with_output_detection_buffers_then_detects() {
    let req = request(None, None, Some(vec!["pii"]));
    let ctx = context(&req, PipelineMode::Streaming);
    let (state, _) = orchestrator_step(&ctx, OrchestratorState::Started, OrchestratorEvent::Begin);
    let mut state = state;
    for word in ["This", "is", "good"] {
        let (next, action) = orchestrator_step(
            &ctx,
            state,
            OrchestratorEvent::StreamFragment(GenerationResponse {
                input_token_count: 1,
                generated_token_count: 1,
                text: String::from(word),
            }),
        );
        assert!(matches!(action, OrchestratorAction::Emit(_)));
        state = next;
    }
    let (state, action) = orchestrator_step(&ctx, state, OrchestratorEvent::StreamEnd);
    let detectors = match action {
        OrchestratorAction::DetectOutput { detectors, segments } => {
            // Buffer-then-detect: the whole generated text is one segment.
            assert_eq!(segments, vec!["Thisisgood"]);
            detectors
        }
        other => panic!("expected an output detection action, got {:?}", other),
    };
    let outcomes = vec![vec![Ok(vec![finding(100)])]];
    let phase = aggregate_detections(&detectors, &outcomes).unwrap();
    let (_, action) = orchestrator_step(
        &ctx,
        state,
        OrchestratorEvent::OutputDetectionDone(Ok(phase)),
    );
    match action {
        OrchestratorAction::EmitAll(events) => {
            assert_eq!(events.len(), 2);
            assert!(matches!(events[0], OutgoingEvent::Detections(_)));
            assert!(matches!(events[1], OutgoingEvent::End));
        }
        other => panic!("expected the detection and end events, got {:?}", other),
    }
}
