use std::cell::Cell;

use geist::adapter::final_response;
use geist::compositor::{FailureMode, Phase, PhaseStep, Sequence, SequenceOutcome};
use geist::phase::{HeaderMutations, ImmediateResponse, PhaseResult, ProcessingMode};
use geist::processor::{Processor, ProcessorError};

#[test]
fn headers_only_is_default() {
    assert_eq!(ProcessingMode::default(), ProcessingMode::HEADERS_ONLY());
    assert!(!ProcessingMode::HEADERS_ONLY().request_body);
    assert!(!ProcessingMode::HEADERS_ONLY().response_body);
}

#[test]
fn full_enables_all_phases() {
    let mode = ProcessingMode::FULL();
    assert!(mode.request_body);
    assert!(mode.response_body);
}

#[test]
fn union_takes_most_permissive() {
    let a = ProcessingMode::HEADERS_ONLY();
    let b = ProcessingMode { request_body: true, ..ProcessingMode::HEADERS_ONLY() };
    let merged = a.union(b);
    assert!(merged.request_body);
    assert!(!merged.response_body);
}

#[test]
fn phase_result_terminal() {
    assert!(!PhaseResult::Continue.is_terminal());

    let mutation = HeaderMutations::new();
    assert!(!PhaseResult::Mutate(mutation).is_terminal());

    let response = ImmediateResponse::with_status(http::StatusCode::OK);
    assert!(PhaseResult::Respond(response).is_terminal());
}

#[test]
fn immediate_response_builder() {
    let resp = ImmediateResponse::with_status(http::StatusCode::FORBIDDEN)
        .body(bytes::Bytes::from("denied"))
        .header(http::header::CONTENT_TYPE, http::HeaderValue::from_static("application/json"));
    assert_eq!(resp.status, http::StatusCode::FORBIDDEN);
    assert_eq!(resp.body, "denied");
    assert_eq!(resp.headers.get(http::header::CONTENT_TYPE).unwrap(), "application/json");
}

#[test]
fn header_mutations_builder() {
    let mutations = HeaderMutations::new()
        .set_header(http::header::HeaderName::from_static("x-custom"), http::HeaderValue::from_static("value"))
        .remove_header(http::header::HeaderName::from_static("x-remove"));
    assert_eq!(mutations.set.len(), 1);
    assert_eq!(mutations.remove.len(), 1);
}

#[test]
fn processor_is_headers_only() {
    assert_eq!(ProcessingMode::default(), ProcessingMode::HEADERS_ONLY());
}

#[test]
fn processor_error_renders_processor_and_message() {
    let e = ProcessorError::new("failing", "intentional failure");
    assert_eq!(e.to_string(), "processor 'failing': intentional failure");
    assert!(e.source.is_none());
    let s = ProcessorError::with_source("p", "m", "io error");
    assert_eq!(s.source.as_deref(), Some("io error"));
    assert_eq!(s.to_string(), "processor 'p': m");
}

// ---------- the sequence compositor, driven step by step ----------

enum TestProc {
    Passthrough,
    Deny,
    Mutating(&'static str, &'static str),
    Failing,
    Body,
    Recording(Cell<bool>),
}

impl Processor for TestProc {
    fn name(&self) -> &str {
        match self {
            TestProc::Passthrough => "passthrough",
            TestProc::Deny => "deny",
            TestProc::Mutating(..) => "mutating",
            TestProc::Failing => "failing",
            TestProc::Body => "body",
            TestProc::Recording(_) => "recording",
        }
    }

    fn spec_mode(&self) -> ProcessingMode {
        self.mode()
    }

    fn mode(&self) -> ProcessingMode {
        match self {
            TestProc::Body => ProcessingMode::FULL(),
            _ => ProcessingMode::HEADERS_ONLY(),
        }
    }
}

fn handle(p: &TestProc) -> Result<PhaseResult, ProcessorError> {
    match p {
        TestProc::Deny => Ok(PhaseResult::Respond(ImmediateResponse::with_status(http::StatusCode::FORBIDDEN))),
        TestProc::Mutating(n, v) => Ok(PhaseResult::Mutate(
            HeaderMutations::new().set_header(http::HeaderName::from_static(n), http::HeaderValue::from_static(v)),
        )),
        TestProc::Failing => Err(ProcessorError::new("failing", "intentional failure")),
        TestProc::Recording(called) => {
            called.set(true);
            Ok(PhaseResult::Continue)
        }
        _ => Ok(PhaseResult::Continue),
    }
}

fn run(seq: &Sequence<TestProc>, phase: Phase) -> SequenceOutcome {
    let mut step = seq.start(phase);
    loop {
        match step {
            PhaseStep::Done(outcome) => return outcome,
            PhaseStep::Next(run) => {
                let i = run.current();
                let result = handle(seq.processor(i));
                step = run.step(result);
            }
        }
    }
}

#[test]
fn empty_pipeline_continues() {
    let seq: Sequence<TestProc> = Sequence::builder().build();
    let outcome = run(&seq, Phase::RequestHeaders);
    assert!(matches!(outcome, SequenceOutcome::Continue(m) if m.is_empty()));
    assert!(seq.is_empty());
}

#[test]
fn passthrough_continues() {
    let seq = Sequence::builder().processor(TestProc::Passthrough).build();
    let outcome = run(&seq, Phase::RequestHeaders);
    assert!(matches!(outcome, SequenceOutcome::Continue(m) if m.is_empty()));
}

#[test]
fn deny_short_circuits() {
    let seq = Sequence::builder().processor(TestProc::Deny).processor(TestProc::Passthrough).build();
    assert!(matches!(run(&seq, Phase::RequestHeaders), SequenceOutcome::Respond(_)));
}

#[test]
fn mutations_accumulate() {
    let seq = Sequence::builder()
        .processor(TestProc::Mutating("x-first", "1"))
        .processor(TestProc::Mutating("x-second", "2"))
        .build();
    match run(&seq, Phase::RequestHeaders) {
        SequenceOutcome::Continue(mutations) => {
            assert_eq!(mutations.len(), 2);
            assert_eq!(mutations[0].set[0].0.as_str(), "x-first");
            assert_eq!(mutations[1].set[0].0.as_str(), "x-second");
        }
        _ => panic!("expected Continue with mutations"),
    }
}

#[test]
fn deny_before_mutation_skips_mutation() {
    let seq = Sequence::builder()
        .processor(TestProc::Deny)
        .processor(TestProc::Mutating("x-should-not-appear", "nope"))
        .build();
    assert!(matches!(run(&seq, Phase::RequestHeaders), SequenceOutcome::Respond(_)));
}

#[test]
fn error_fail_closed() {
    let seq = Sequence::builder()
        .failure_mode(FailureMode::FailClosed)
        .processor(TestProc::Failing)
        .processor(TestProc::Passthrough)
        .build();
    assert!(matches!(run(&seq, Phase::RequestHeaders), SequenceOutcome::Error(_)));
}

#[test]
fn error_fail_open() {
    let seq = Sequence::builder()
        .failure_mode(FailureMode::FailOpen)
        .processor(TestProc::Failing)
        .processor(TestProc::Passthrough)
        .build();
    assert!(matches!(run(&seq, Phase::RequestHeaders), SequenceOutcome::Continue(_)));
}

#[test]
fn failure_mode_defaults_to_fail_closed() {
    assert_eq!(FailureMode::default(), FailureMode::FailClosed);
    let seq: Sequence<TestProc> = Sequence::builder().build();
    assert_eq!(seq.failure_mode(), FailureMode::FailClosed);
}

#[test]
fn aggregate_mode_computed_from_processors() {
    let seq = Sequence::builder().processor(TestProc::Passthrough).processor(TestProc::Body).build();
    assert!(seq.mode().request_body);
    assert!(seq.mode().response_body);
    assert_eq!(seq.len(), 2);
}

#[test]
fn body_phase_skipped_when_no_processor_opts_in() {
    let seq = Sequence::builder().processor(TestProc::Passthrough).build();
    assert!(!seq.mode().request_body);
    assert!(matches!(run(&seq, Phase::RequestBody), SequenceOutcome::Continue(m) if m.is_empty()));
}

#[test]
fn body_phase_calls_only_opted_in_processors() {
    let seq = Sequence::builder().processor(TestProc::Failing).processor(TestProc::Body).build();
    assert!(matches!(run(&seq, Phase::ResponseBody), SequenceOutcome::Continue(m) if m.is_empty()));
    assert!(matches!(run(&seq, Phase::RequestHeaders), SequenceOutcome::Error(_)));
}

#[test]
fn cross_phase_termination_on_immediate_response() {
    let seq = Sequence::builder().processor(TestProc::Deny).processor(TestProc::Recording(Cell::new(false))).build();
    let outcome = run(&seq, Phase::RequestHeaders);
    assert!(matches!(outcome, SequenceOutcome::Respond(_)));
    match seq.processor(1) {
        TestProc::Recording(called) => assert!(!called.get()),
        _ => panic!("expected the recorder"),
    }
    assert!(outcome.is_terminal());
}

#[test]
fn response_headers_phase() {
    let seq = Sequence::builder().processor(TestProc::Passthrough).build();
    assert!(matches!(run(&seq, Phase::ResponseHeaders), SequenceOutcome::Continue(m) if m.is_empty()));
}

// ---------- the answer for an outcome ----------

#[test]
fn empty_pipeline_returns_200() {
    let seq: Sequence<TestProc> = Sequence::builder().build();
    let resp = final_response(run(&seq, Phase::RequestHeaders));
    assert_eq!(resp.status, http::StatusCode::OK);
    assert_eq!(resp.body, "pipeline passed");
    assert_eq!(resp.headers.get(http::header::CONTENT_TYPE).unwrap(), "text/plain; charset=utf-8");
}

#[test]
fn deny_processor_returns_403() {
    let seq = Sequence::builder().processor(TestProc::Deny).build();
    let resp = final_response(run(&seq, Phase::RequestHeaders));
    assert_eq!(resp.status, http::StatusCode::FORBIDDEN);
}

#[test]
fn error_processor_returns_500() {
    let seq = Sequence::builder().processor(TestProc::Failing).build();
    let resp = final_response(run(&seq, Phase::RequestHeaders));
    assert_eq!(resp.status, http::StatusCode::INTERNAL_SERVER_ERROR);
    assert_eq!(resp.body, "internal error");
}
