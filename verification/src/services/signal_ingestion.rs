//! Accepting signals that have passed their contract.
use vstd::prelude::*;
use crate::clock::{is_recorded_now, now_rfc3339};
use crate::domain::signal::{acceptance_of, SignalAcceptance, ValidatedSignal};
use crate::http::trace_context::RequestContext;

verus! {

/// The service that accepts signals.
pub struct SignalIngestionService;

impl SignalIngestionService {
    /// The service.
    pub fn new() -> (service: SignalIngestionService)
        ensures
            service == SignalIngestionService,
    {
        SignalIngestionService
    }

    /// Accepts `signal`, received in the request `context`, now.
    pub fn accept(&self, signal: &ValidatedSignal, context: &RequestContext) -> (acceptance:
        SignalAcceptance)
        ensures
            acceptance_of(acceptance, *signal, acceptance.accepted_at@),
            is_recorded_now(acceptance.accepted_at@),
    {
        SignalAcceptance::from_signal(signal, now_rfc3339())
    }
}

} // verus!
