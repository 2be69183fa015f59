use phantom_strike_core::domain::decision::{
    DecisionSubmissionResult, SignalDecisionRecord, ValidatedSignalDecision,
};
use phantom_strike_core::http::trace_context::RequestContext;
use phantom_strike_core::config::AppConfig;
use phantom_strike_core::errors::AppError;
use phantom_strike_core::http::handlers::answer_unsaved_decision;
use phantom_strike_core::services::signal_decision::SignalDecisionService;

fn decision(signal_id: &str, band: &str, trace: &str, correlation: &str) -> ValidatedSignalDecision {
    ValidatedSignalDecision {
        signal_id: signal_id.to_string(),
        baseline_confidence_bits: 0.5f64.to_bits(),
        confidence_delta_bits: 0.25f64.to_bits(),
        updated_confidence_bits: 0.75f64.to_bits(),
        confidence_band: band.to_string(),
        disposition: "escalate".to_string(),
        reasoning: "because".to_string(),
        trace_id: trace.to_string(),
        correlation_id: correlation.to_string(),
    }
}

fn context() -> RequestContext {
    RequestContext::from_headers(None, None, None)
}

#[test]
fn read_after_submit_gives_the_decision_record() {
    let mut store = SignalDecisionService::new();
    let d = decision("s1", "elevated", "t1", "c1");
    store.submit(&d, &context());
    let record = store.get_by_signal_id("s1").expect("record should be kept");
    assert_eq!(record.signal_id, "s1");
    assert_eq!(record.confidence_band, "elevated");
    assert_eq!(f64::from_bits(record.updated_confidence_bits), 0.75);
    assert_eq!(record.trace_id, "t1");
    assert_eq!(record.correlation_id, "c1");
    assert!(store.get_by_signal_id("s2").is_none());
}

#[test]
fn submit_keeps_other_signals() {
    let mut store = SignalDecisionService::new();
    store.submit(&decision("s1", "low", "t1", "c1"), &context());
    store.submit(&decision("s2", "high", "t2", "c2"), &context());
    assert_eq!(store.get_by_signal_id("s1").expect("s1 kept").confidence_band, "low");
    assert_eq!(store.get_by_signal_id("s2").expect("s2 kept").confidence_band, "high");
    assert_eq!(store.records().len(), 2);
}

#[test]
fn last_submission_for_a_signal_wins() {
    let mut store = SignalDecisionService::new();
    store.submit(&decision("s1", "low", "t1", "c1"), &context());
    store.submit(&decision("s1", "high", "t9", "c9"), &context());
    let record = store.get_by_signal_id("s1").expect("s1 kept");
    assert_eq!(record.confidence_band, "high");
    assert_eq!(record.trace_id, "t9");
    assert_eq!(store.records().len(), 1);
    assert!(store.get_by_trace_id("t1").is_none());
}

#[test]
fn submitting_twice_keeps_one_record() {
    let mut store = SignalDecisionService::new();
    let d = decision("s1", "low", "t1", "c1");
    store.submit(&d, &context());
    store.submit(&d, &context());
    assert_eq!(store.records().len(), 1);
}

#[test]
fn submission_result_echoes_the_decision() {
    let mut store = SignalDecisionService::new();
    let result: DecisionSubmissionResult = store.submit(&decision("abc", "low", "tr", "co"), &context());
    assert_eq!(result.signal_id, "abc");
    assert!(result.submitted);
    assert_eq!(result.target_service, "core");
    assert_eq!(result.target_endpoint, "/v1/signals/abc/decision");
    assert_eq!(result.trace_id, "tr");
    assert_eq!(result.correlation_id, "co");
}

#[test]
fn restored_records_later_one_wins() {
    let record = |id: &str, band: &str| SignalDecisionRecord::from_decision(&decision(id, band, "t", "c"));
    let store = SignalDecisionService::from_records(vec![
        record("a", "low"),
        record("b", "moderate"),
        record("a", "high"),
    ]);
    assert_eq!(store.get_by_signal_id("a").expect("a kept").confidence_band, "high");
    assert_eq!(store.get_by_signal_id("b").expect("b kept").confidence_band, "moderate");
    assert_eq!(store.records().len(), 2);
    let again = SignalDecisionService::from_records(store.records());
    assert_eq!(again.get_by_signal_id("a").expect("a kept").confidence_band, "high");
    assert_eq!(again.records().len(), 2);
}

#[test]
fn lookup_by_trace_and_correlation() {
    let mut store = SignalDecisionService::new();
    store.submit(&decision("s1", "low", "t1", "c1"), &context());
    store.submit(&decision("s2", "low", "t2", "c2"), &context());
    assert_eq!(store.get_by_trace_id("t2").expect("t2 kept").signal_id, "s2");
    assert_eq!(store.get_by_correlation_id("c1").expect("c1 kept").signal_id, "s1");
    assert!(store.get_by_correlation_id("c3").is_none());
}

#[test]
fn unsaved_decision_is_rolled_back() {
    let mut store = SignalDecisionService::new();
    store.submit(&decision("s1", "low", "t1", "c1"), &context());
    let previous = store.records();
    store.submit(&decision("s2", "high", "t2", "c2"), &context());
    let config = AppConfig::from_values(None, None, None, None, None).ok().expect("config");
    let response = answer_unsaved_decision(
        &mut store,
        previous,
        AppError::configuration("disk full".to_string()),
        &config,
        &context(),
    );
    assert_eq!(response.status, 500);
    assert_eq!(response.envelope.error.code, "CONFIGURATION_ERROR");
    assert_eq!(response.envelope.error.message, "disk full");
    assert_eq!(response.envelope.meta.audit.schema.schema_name, "decisionSubmissionResult");
    assert!(store.get_by_signal_id("s2").is_none());
    assert_eq!(store.get_by_signal_id("s1").expect("s1 kept").confidence_band, "low");
}
