//! Signals: the validated signal and the acceptance answered for it.
use vstd::prelude::*;
use crate::domain::decision::{is_mapping_failure, mapping_failure};
use crate::errors::AppError;

verus! {

broadcast use vstd::string::group_string_axioms;

/// A signal that has passed its contract.
pub struct ValidatedSignal {
    pub signal_id: String,
    pub title: String,
    pub summary: String,
    pub category: String,
    pub status: String,
    pub severity: String,
    pub observed_at: String,
    pub created_at: String,
    pub updated_at: String,
    pub tags: Vec<String>,
    pub scores: Vec<SignalScore>,
    pub related_source_ids: Vec<String>,
    pub audit: SignalAudit,
}

/// A score of a signal. The score is held as the bit pattern of its `f64`
/// value (`f64::to_bits`).
pub struct SignalScore {
    pub score_bits: u64,
    pub confidence_band: String,
    pub rationale: String,
    pub generated_at: String,
}

/// The audit record a signal carries.
pub struct SignalAudit {
    pub schema: SignalSchemaDescriptor,
    pub trace: SignalTrace,
    pub recorded_at: String,
    pub tags: Vec<String>,
}

/// The contract schema a signal was written against.
pub struct SignalSchemaDescriptor {
    pub contract_version: String,
    pub schema_name: String,
    pub schema_revision: u32,
    pub package_version: String,
}

/// The trace a signal belongs to.
pub struct SignalTrace {
    pub request_id: String,
    pub trace_id: String,
    pub correlation_id: String,
    pub actor_service: String,
    pub environment: String,
}

/// The answer to an accepted signal.
pub struct SignalAcceptance {
    pub status: &'static str,
    pub schema: &'static str,
    pub signal_id: String,
    pub accepted_at: String,
}

/// `acceptance` accepts `signal` at the moment `accepted_at`.
pub open spec fn acceptance_of(
    acceptance: SignalAcceptance,
    signal: ValidatedSignal,
    accepted_at: Seq<char>,
) -> bool {
    &&& acceptance.status@ == "accepted"@
    &&& acceptance.schema@ == "signal"@
    &&& acceptance.signal_id == signal.signal_id
    &&& acceptance.accepted_at@ == accepted_at
}

impl ValidatedSignal {
    /// The signal that a validated payload was mapped into, or, where the
    /// mapping failed with the given words, the error that reports it.
    pub fn from_value(mapped: Result<ValidatedSignal, String>) -> (res: Result<
        ValidatedSignal,
        AppError,
    >)
        ensures
            match mapped {
                Ok(signal) => res == Ok::<ValidatedSignal, AppError>(signal),
                Err(text) => res matches Err(e) && is_mapping_failure(
                    e,
                    "core signal model"@,
                    "ValidatedSignal"@,
                    text@,
                ),
            },
    {
        match mapped {
            Ok(signal) => Ok(signal),
            Err(text) => Err(mapping_failure("core signal model", "ValidatedSignal", text)),
        }
    }
}

impl SignalAcceptance {
    /// The acceptance of `signal` at the moment `accepted_at`.
    pub fn from_signal(signal: &ValidatedSignal, accepted_at: String) -> (acceptance:
        SignalAcceptance)
        ensures
            acceptance_of(acceptance, *signal, accepted_at@),
    {
        SignalAcceptance {
            status: "accepted",
            schema: "signal",
            signal_id: signal.signal_id.clone(),
            accepted_at,
        }
    }
}

} // verus!
