//! Decisions on signals: the validated decision, the record kept of it, and
//! the result of submitting it.
use vstd::prelude::*;
use crate::errors::{AppError, ErrorDetails};
use crate::text::{concat3, owned};

verus! {

broadcast use vstd::string::group_string_axioms;

/// A decision on a signal that has passed its contract. Confidence values are
/// held as the bit patterns of their `f64` values (`f64::to_bits`).
pub struct ValidatedSignalDecision {
    pub signal_id: String,
    pub baseline_confidence_bits: u64,
    pub confidence_delta_bits: u64,
    pub updated_confidence_bits: u64,
    pub confidence_band: String,
    pub disposition: String,
    pub reasoning: String,
    pub trace_id: String,
    pub correlation_id: String,
}

/// The outcome of submitting a decision.
pub struct DecisionSubmissionResult {
    pub signal_id: String,
    pub submitted: bool,
    pub target_service: &'static str,
    pub target_endpoint: String,
    pub trace_id: String,
    pub correlation_id: String,
}

/// The record kept of a decision. Confidence values are held as in
/// `ValidatedSignalDecision`.
pub struct SignalDecisionRecord {
    pub signal_id: String,
    pub baseline_confidence_bits: u64,
    pub confidence_delta_bits: u64,
    pub updated_confidence_bits: u64,
    pub confidence_band: String,
    pub disposition: String,
    pub reasoning: String,
    pub trace_id: String,
    pub correlation_id: String,
}

/// The record kept of `decision`: all of its fields.
pub open spec fn record_of(decision: ValidatedSignalDecision) -> SignalDecisionRecord {
    SignalDecisionRecord {
        signal_id: decision.signal_id,
        baseline_confidence_bits: decision.baseline_confidence_bits,
        confidence_delta_bits: decision.confidence_delta_bits,
        updated_confidence_bits: decision.updated_confidence_bits,
        confidence_band: decision.confidence_band,
        disposition: decision.disposition,
        reasoning: decision.reasoning,
        trace_id: decision.trace_id,
        correlation_id: decision.correlation_id,
    }
}

/// The endpoint a decision on `signal_id` is submitted to.
pub open spec fn decision_endpoint(signal_id: Seq<char>) -> Seq<char> {
    "/v1/signals/"@ + signal_id + "/decision"@
}

/// `result` reports that `decision` was submitted to the core service, with
/// the decision's own trace and correlation identifiers.
pub open spec fn submission_of(result: DecisionSubmissionResult, decision: ValidatedSignalDecision) -> bool {
    &&& result.signal_id == decision.signal_id
    &&& result.submitted
    &&& result.target_service@ == "core"@
    &&& result.target_endpoint@ == decision_endpoint(decision.signal_id@)
    &&& result.trace_id == decision.trace_id
    &&& result.correlation_id == decision.correlation_id
}

/// `error` reports that a validated payload could not be mapped into the
/// model named by `model`, described in the details as `expected`, with the
/// mapper's words `received`.
pub open spec fn is_mapping_failure(
    error: AppError,
    model: Seq<char>,
    expected: Seq<char>,
    received: Seq<char>,
) -> bool {
    &&& error matches AppError::Validation { code, message, details }
    &&& code@ == "CONTRACT_MAPPING_FAILED"@
    &&& message@ == "validated payload could not be mapped into the "@ + model
    &&& details matches Some(ErrorDetails::MappingFailed { expected: e, received: r })
    &&& e@ == expected
    &&& r@ == received
}

/// The error for a validated payload that could not be mapped into `model`.
pub fn mapping_failure(model: &str, expected: &str, received: String) -> (error: AppError)
    ensures
        is_mapping_failure(error, model@, expected@, received@),
{
    AppError::validation(
        "CONTRACT_MAPPING_FAILED",
        crate::text::concat2("validated payload could not be mapped into the ", model),
        Some(ErrorDetails::MappingFailed { expected: owned(expected), received }),
    )
}

impl ValidatedSignalDecision {
    /// The decision that a validated payload was mapped into, or, where the
    /// mapping failed with the given words, the error that reports it.
    pub fn from_value(mapped: Result<ValidatedSignalDecision, String>) -> (res: Result<
        ValidatedSignalDecision,
        AppError,
    >)
        ensures
            match mapped {
                Ok(decision) => res == Ok::<ValidatedSignalDecision, AppError>(decision),
                Err(text) => res matches Err(e) && is_mapping_failure(
                    e,
                    "core decision model"@,
                    "ValidatedSignalDecision"@,
                    text@,
                ),
            },
    {
        match mapped {
            Ok(decision) => Ok(decision),
            Err(text) => Err(mapping_failure("core decision model", "ValidatedSignalDecision", text)),
        }
    }
}

impl DecisionSubmissionResult {
    /// The result of submitting `decision`.
    pub fn from_decision(decision: &ValidatedSignalDecision) -> (result: DecisionSubmissionResult)
        ensures
            submission_of(result, *decision),
    {
        DecisionSubmissionResult {
            signal_id: decision.signal_id.clone(),
            submitted: true,
            target_service: "core",
            target_endpoint: concat3("/v1/signals/", decision.signal_id.as_str(), "/decision"),
            trace_id: decision.trace_id.clone(),
            correlation_id: decision.correlation_id.clone(),
        }
    }
}

impl SignalDecisionRecord {
    /// The record kept of `decision`.
    pub fn from_decision(decision: &ValidatedSignalDecision) -> (record: SignalDecisionRecord)
        ensures
            record == record_of(*decision),
            record.signal_id == decision.signal_id,
            record.baseline_confidence_bits == decision.baseline_confidence_bits,
            record.confidence_delta_bits == decision.confidence_delta_bits,
            record.updated_confidence_bits == decision.updated_confidence_bits,
            record.confidence_band == decision.confidence_band,
            record.disposition == decision.disposition,
            record.reasoning == decision.reasoning,
            record.trace_id == decision.trace_id,
            record.correlation_id == decision.correlation_id,
    {
        SignalDecisionRecord {
            signal_id: decision.signal_id.clone(),
            baseline_confidence_bits: decision.baseline_confidence_bits,
            confidence_delta_bits: decision.confidence_delta_bits,
            updated_confidence_bits: decision.updated_confidence_bits,
            confidence_band: decision.confidence_band.clone(),
            disposition: decision.disposition.clone(),
            reasoning: decision.reasoning.clone(),
            trace_id: decision.trace_id.clone(),
            correlation_id: decision.correlation_id.clone(),
        }
    }
}

impl Clone for SignalDecisionRecord {
    fn clone(&self) -> (record: Self)
        ensures
            record == *self,
    {
        SignalDecisionRecord {
            signal_id: self.signal_id.clone(),
            baseline_confidence_bits: self.baseline_confidence_bits,
            confidence_delta_bits: self.confidence_delta_bits,
            updated_confidence_bits: self.updated_confidence_bits,
            confidence_band: self.confidence_band.clone(),
            disposition: self.disposition.clone(),
            reasoning: self.reasoning.clone(),
            trace_id: self.trace_id.clone(),
            correlation_id: self.correlation_id.clone(),
        }
    }
}

/// The record kept of a decision holds each of the decision's fields, unchanged.
pub proof fn law_record_keeps_decision_fields(decision: ValidatedSignalDecision)
    ensures
        record_of(decision).signal_id == decision.signal_id,
        record_of(decision).baseline_confidence_bits == decision.baseline_confidence_bits,
        record_of(decision).confidence_delta_bits == decision.confidence_delta_bits,
        record_of(decision).updated_confidence_bits == decision.updated_confidence_bits,
        record_of(decision).confidence_band == decision.confidence_band,
        record_of(decision).disposition == decision.disposition,
        record_of(decision).reasoning == decision.reasoning,
        record_of(decision).trace_id == decision.trace_id,
        record_of(decision).correlation_id == decision.correlation_id,
{
}

} // verus!
