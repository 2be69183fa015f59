//! What each endpoint answers: the decisions of the HTTP handlers, from the
//! request's parts to the envelope or error response written back.
use vstd::prelude::*;
use crate::clock::is_recorded_now;
use crate::config::AppConfig;
use crate::contracts::validation::{payload_accepted, payload_rejection, validate_payload};
use crate::contracts::SchemaRegistry;
use crate::domain::decision::{
    is_mapping_failure, record_of, submission_of, DecisionSubmissionResult, SignalDecisionRecord,
    ValidatedSignalDecision,
};
use crate::domain::signal::{acceptance_of, SignalAcceptance, ValidatedSignal};
use crate::errors::{answers, AppError, ErrorDetails, ErrorResponse, Received, Violation};
use crate::http::response::{meta_matches, package_version, ResponseMeta, SuccessEnvelope};
use crate::http::trace_context::RequestContext;
use crate::services::signal_decision::{after_submit, records_by_signal, SignalDecisionService};
use crate::services::signal_ingestion::SignalIngestionService;
use crate::text::owned;

verus! {

broadcast use vstd::string::group_string_axioms;

/// What the health endpoint reports.
pub struct HealthData {
    pub status: &'static str,
    pub service: &'static str,
}

/// What the version endpoint reports.
pub struct VersionData {
    pub service: &'static str,
    pub version: &'static str,
    pub environment: String,
    pub contracts_commit: &'static str,
}

/// `envelope` is a successful response to the request `context` written
/// against `schema_name`, with the given confidence band, recorded now.
pub open spec fn succeeds_with<T>(
    envelope: SuccessEnvelope<T>,
    config: AppConfig,
    context: RequestContext,
    schema_name: Seq<char>,
    confidence_band: Option<Seq<char>>,
) -> bool {
    &&& envelope.success
    &&& meta_matches(envelope.meta, config, context, schema_name, confidence_band, seq![])
    &&& is_recorded_now(envelope.meta.audit.recorded_at@)
}

/// `error` reports a request body that is not JSON, in the words `received`.
pub open spec fn is_invalid_json_body(error: AppError, received: Seq<char>) -> bool {
    &&& error matches AppError::Validation { code, message, details }
    &&& code@ == "INVALID_JSON_BODY"@
    &&& message@ == "request body must be valid JSON"@
    &&& details matches Some(ErrorDetails::Violations { violations })
    &&& violations.len() == 1
    &&& violations[0].field@ == "body"@
    &&& violations[0].issue@ == "invalid_json"@
    &&& violations[0].expected@ == "valid JSON document"@
    &&& violations[0].received matches Received::Text(text)
    &&& text@ == received
}

/// `error` reports that the signal named in the path, `path_signal_id`,
/// is not the one named in the body, `body_signal_id`.
pub open spec fn is_signal_id_mismatch(
    error: AppError,
    path_signal_id: Seq<char>,
    body_signal_id: Seq<char>,
) -> bool {
    &&& error matches AppError::Validation { code, message, details }
    &&& code@ == "SIGNAL_ID_MISMATCH"@
    &&& message@ == "path signal_id must match body signal_id"@
    &&& details matches Some(ErrorDetails::Violations { violations })
    &&& violations.len() == 1
    &&& violations[0].field@ == "signal_id"@
    &&& violations[0].issue@ == "mismatch"@
    &&& violations[0].expected@ == path_signal_id
    &&& violations[0].received matches Received::Text(text)
    &&& text@ == body_signal_id
}

/// `error` reports that no decision record was found whose `field` is `value`.
pub open spec fn is_decision_not_found(error: AppError, field: Seq<char>, value: Seq<char>) -> bool {
    &&& error matches AppError::NotFound { code, message, details }
    &&& code@ == "SIGNAL_DECISION_NOT_FOUND"@
    &&& message@ == "no decision record found for the requested "@ + field
    &&& details matches Some(ErrorDetails::Lookup { field: f, value: v })
    &&& f@ == field
    &&& v@ == value
}

/// The error for a request body that is not JSON.
pub fn invalid_json_body(received: String) -> (error: AppError)
    ensures
        is_invalid_json_body(error, received@),
{
    let mut violations: Vec<Violation> = Vec::new();
    violations.push(
        Violation {
            field: owned("body"),
            issue: owned("invalid_json"),
            expected: owned("valid JSON document"),
            received: Received::Text(received),
        },
    );
    AppError::validation(
        "INVALID_JSON_BODY",
        owned("request body must be valid JSON"),
        Some(ErrorDetails::Violations { violations }),
    )
}

/// The error for a path and a body that name different signals.
pub fn signal_id_mismatch(path_signal_id: &str, body_signal_id: &str) -> (error: AppError)
    ensures
        is_signal_id_mismatch(error, path_signal_id@, body_signal_id@),
{
    let mut violations: Vec<Violation> = Vec::new();
    violations.push(
        Violation {
            field: owned("signal_id"),
            issue: owned("mismatch"),
            expected: owned(path_signal_id),
            received: Received::Text(owned(body_signal_id)),
        },
    );
    AppError::validation(
        "SIGNAL_ID_MISMATCH",
        owned("path signal_id must match body signal_id"),
        Some(ErrorDetails::Violations { violations }),
    )
}

/// The error for a decision record looked up by `field` and not found.
pub fn decision_not_found(field: &str, value: &str) -> (error: AppError)
    ensures
        is_decision_not_found(error, field@, value@),
{
    AppError::not_found(
        "SIGNAL_DECISION_NOT_FOUND",
        crate::text::concat2("no decision record found for the requested ", field),
        Some(ErrorDetails::Lookup { field: owned(field), value: owned(value) }),
    )
}

/// `GET /health`.
pub fn health(config: &AppConfig, context: &RequestContext) -> (envelope: SuccessEnvelope<
    HealthData,
>)
    ensures
        succeeds_with(envelope, *config, *context, "health-status"@, None),
        envelope.data.status@ == "ok"@,
        envelope.data.service == config.service_name,
{
    SuccessEnvelope::new(
        HealthData { status: "ok", service: config.service_name },
        ResponseMeta::from_context(config, context, "health-status", None, Vec::new()),
    )
}

/// `GET /version`.
pub fn version(config: &AppConfig, context: &RequestContext) -> (envelope: SuccessEnvelope<
    VersionData,
>)
    ensures
        succeeds_with(envelope, *config, *context, "service-version"@, None),
        envelope.data.service == config.service_name,
        envelope.data.version@ == package_version(),
        envelope.data.environment == config.environment,
        envelope.data.contracts_commit == config.contracts_commit,
{
    SuccessEnvelope::new(
        VersionData {
            service: config.service_name,
            version: "0.1.0",
            environment: config.environment.clone(),
            contracts_commit: config.contracts_commit,
        },
        ResponseMeta::from_context(config, context, "service-version", None, Vec::new()),
    )
}

/// The request body, as the JSON reader gave it, is JSON that passes the
/// schema `schema_name`.
pub open spec fn body_passes(
    registry: SchemaRegistry,
    schema_name: Seq<char>,
    body: Result<serde_json::Value, String>,
) -> bool {
    body matches Ok(payload) && payload_accepted(registry, schema_name, payload)
}

/// `response` refuses the request body `body` for the schema `schema_name`:
/// a body that is not JSON, with the reader's words; else a payload that
/// fails the schema, with what validation reports.
pub open spec fn body_refused(
    registry: SchemaRegistry,
    config: AppConfig,
    context: RequestContext,
    schema_name: Seq<char>,
    body: Result<serde_json::Value, String>,
    response: ErrorResponse,
) -> bool {
    match body {
        Err(text) => exists|e: AppError|
            is_invalid_json_body(e, text@) && answers(response, e, config, context, schema_name),
        Ok(payload) => exists|e: AppError|
            payload_rejection(registry, schema_name, payload, e) && answers(
                response,
                e,
                config,
                context,
                schema_name,
            ),
    }
}

/// `res` answers a signal mapped as `mapped` from a payload that passed the
/// `signal` schema: its acceptance, recorded now, or the mapping failure.
pub open spec fn signal_answer(
    config: AppConfig,
    context: RequestContext,
    mapped: Result<ValidatedSignal, String>,
    res: Result<SuccessEnvelope<SignalAcceptance>, ErrorResponse>,
) -> bool {
    match mapped {
        Err(text) => res matches Err(response) && exists|e: AppError|
            is_mapping_failure(e, "core signal model"@, "ValidatedSignal"@, text@) && answers(
                response,
                e,
                config,
                context,
                "signal"@,
            ),
        Ok(signal) => res matches Ok(envelope) && succeeds_with(
            envelope,
            config,
            context,
            "signal"@,
            None,
        ) && acceptance_of(envelope.data, signal, envelope.data.accepted_at@) && is_recorded_now(
            envelope.data.accepted_at@,
        ),
    }
}

/// `res` answers a decision mapped as `mapped` from a payload that passed the
/// `signalDecision` schema and was posted for `path_signal_id`, and the store
/// went from `before` to `after`: the mapping failure or the mismatch of the
/// two signals, with nothing kept; else the decision kept for its signal and
/// its submission reported.
pub open spec fn decision_answer(
    before: Map<Seq<char>, SignalDecisionRecord>,
    after: Map<Seq<char>, SignalDecisionRecord>,
    config: AppConfig,
    context: RequestContext,
    path_signal_id: Seq<char>,
    mapped: Result<ValidatedSignalDecision, String>,
    res: Result<SuccessEnvelope<DecisionSubmissionResult>, ErrorResponse>,
) -> bool {
    match mapped {
        Err(text) => {
            &&& after == before
            &&& res matches Err(response) && exists|e: AppError|
                is_mapping_failure(
                    e,
                    "core decision model"@,
                    "ValidatedSignalDecision"@,
                    text@,
                ) && answers(response, e, config, context, "signalDecision"@)
        },
        Ok(decision) => if decision.signal_id@ != path_signal_id {
            &&& after == before
            &&& res matches Err(response) && exists|e: AppError|
                is_signal_id_mismatch(e, path_signal_id, decision.signal_id@) && answers(
                    response,
                    e,
                    config,
                    context,
                    "signalDecision"@,
                )
        } else {
            &&& after == after_submit(before, decision)
            &&& res matches Ok(envelope)
            &&& succeeds_with(
                envelope,
                config,
                context,
                "decisionSubmissionResult"@,
                Some(decision.confidence_band@),
            )
            &&& submission_of(envelope.data, decision)
        },
    }
}

/// The first step of a `POST` that carries a contract payload: the body, as
/// the JSON reader gave it (or the reader's words where it is not JSON), is
/// kept where it passes the schema `schema_name`, and answered with an error
/// response otherwise.
pub fn accept_json_body(
    registry: &SchemaRegistry,
    config: &AppConfig,
    context: &RequestContext,
    schema_name: &str,
    body: Result<serde_json::Value, String>,
) -> (res: Result<serde_json::Value, ErrorResponse>)
    ensures
        res is Ok <==> body_passes(*registry, schema_name@, body),
        res matches Ok(kept) ==> body == Ok::<serde_json::Value, String>(kept),
        res matches Err(response) ==> body_refused(
            *registry,
            *config,
            *context,
            schema_name@,
            body,
            response,
        ),
{
    match body {
        Err(text) => {
            let error = invalid_json_body(text);
            Err(error.into_response_with_context(config, context, schema_name))
        },
        Ok(payload) => match validate_payload(registry, schema_name, &payload) {
            Ok(()) => Ok(payload),
            Err(error) => Err(error.into_response_with_context(config, context, schema_name)),
        },
    }
}

/// `POST /v1/signals`, once the body has passed the `signal` schema: the
/// payload as mapped into a signal (or the mapper's words), answered with
/// its acceptance.
pub fn create_signal(
    service: &SignalIngestionService,
    config: &AppConfig,
    context: &RequestContext,
    mapped: Result<ValidatedSignal, String>,
) -> (res: Result<SuccessEnvelope<SignalAcceptance>, ErrorResponse>)
    ensures
        signal_answer(*config, *context, mapped, res),
        mapped is Ok ==> (res matches Ok(envelope) && envelope.meta.trace_id == context.trace_id
            && envelope.meta.correlation_id == context.correlation_id
            && envelope.meta.audit.trace.request_id == context.request_id
            && envelope.meta.audit.trace.trace_id == context.trace_id
            && envelope.meta.audit.trace.correlation_id == context.correlation_id
            && envelope.meta.audit.schema.schema_name@ == "signal"@),
{
    let signal = match ValidatedSignal::from_value(mapped) {
        Ok(signal) => signal,
        Err(error) => {
            return Err(error.into_response_with_context(config, context, "signal"));
        },
    };
    let data = service.accept(&signal, context);
    Ok(
        SuccessEnvelope::new(
            data,
            ResponseMeta::from_context(config, context, "signal", None, Vec::new()),
        ),
    )
}

/// `POST /v1/signals`, whole: the body as the JSON reader gave it, and, for a
/// body that is JSON, the payload as mapped into a signal. The checks run in
/// order: the body is JSON, the payload passes the `signal` schema, the
/// payload maps into a signal; the first that fails is answered.
pub fn create_signal_request(
    registry: &SchemaRegistry,
    service: &SignalIngestionService,
    config: &AppConfig,
    context: &RequestContext,
    body: Result<serde_json::Value, String>,
    mapped: Option<Result<ValidatedSignal, String>>,
) -> (res: Result<SuccessEnvelope<SignalAcceptance>, ErrorResponse>)
    requires
        body is Ok ==> mapped is Some,
    ensures
        if body_passes(*registry, "signal"@, body) {
            signal_answer(*config, *context, mapped->Some_0, res)
        } else {
            res matches Err(response) && body_refused(
                *registry,
                *config,
                *context,
                "signal"@,
                body,
                response,
            )
        },
{
    if let Err(response) = accept_json_body(registry, config, context, "signal", body) {
        return Err(response);
    }
    create_signal(service, config, context, mapped.unwrap())
}

/// `POST /v1/signals/:signal_id/decision`, once the body has passed the
/// `signalDecision` schema: the payload as mapped into a decision (or the
/// mapper's words) is kept for its signal when the path names the same signal,
/// and answered with the submission; otherwise nothing is kept and the error
/// is answered.
pub fn submit_signal_decision(
    service: &mut SignalDecisionService,
    config: &AppConfig,
    context: &RequestContext,
    path_signal_id: &str,
    mapped: Result<ValidatedSignalDecision, String>,
) -> (res: Result<SuccessEnvelope<DecisionSubmissionResult>, ErrorResponse>)
    ensures
        decision_answer(
            old(service)@,
            final(service)@,
            *config,
            *context,
            path_signal_id@,
            mapped,
            res,
        ),
        match mapped {
            Ok(decision) => if decision.signal_id@ == path_signal_id@ {
                final(service)@ == old(service)@.insert(decision.signal_id@, record_of(decision))
                    && res is Ok
            } else {
                final(service)@ == old(service)@ && res is Err
            },
            Err(_) => final(service)@ == old(service)@ && res is Err,
        },
{
    let decision = match ValidatedSignalDecision::from_value(mapped) {
        Ok(decision) => decision,
        Err(error) => {
            return Err(error.into_response_with_context(config, context, "signalDecision"));
        },
    };
    let path = owned(path_signal_id);
    if decision.signal_id != path {
        let error = signal_id_mismatch(path_signal_id, decision.signal_id.as_str());
        return Err(error.into_response_with_context(config, context, "signalDecision"));
    }
    let data = service.submit(&decision, context);
    Ok(
        SuccessEnvelope::new(
            data,
            ResponseMeta::from_context(
                config,
                context,
                "decisionSubmissionResult",
                Some(decision.confidence_band.as_str()),
                Vec::new(),
            ),
        ),
    )
}

/// `POST /v1/signals/:signal_id/decision`, whole: the body as the JSON reader
/// gave it, and, for a body that is JSON, the payload as mapped into a
/// decision. The checks run in order: the body is JSON, the payload passes the
/// `signalDecision` schema, the payload maps into a decision, the decision is
/// for the signal in the path; the first that fails is answered and nothing
/// is kept, and a decision that passes all of them is kept for its signal.
pub fn submit_signal_decision_request(
    registry: &SchemaRegistry,
    service: &mut SignalDecisionService,
    config: &AppConfig,
    context: &RequestContext,
    path_signal_id: &str,
    body: Result<serde_json::Value, String>,
    mapped: Option<Result<ValidatedSignalDecision, String>>,
) -> (res: Result<SuccessEnvelope<DecisionSubmissionResult>, ErrorResponse>)
    requires
        body is Ok ==> mapped is Some,
    ensures
        if body_passes(*registry, "signalDecision"@, body) {
            decision_answer(
                old(service)@,
                final(service)@,
                *config,
                *context,
                path_signal_id@,
                mapped->Some_0,
                res,
            )
        } else {
            &&& final(service)@ == old(service)@
            &&& res matches Err(response) && body_refused(
                *registry,
                *config,
                *context,
                "signalDecision"@,
                body,
                response,
            )
        },
{
    if let Err(response) = accept_json_body(registry, config, context, "signalDecision", body) {
        return Err(response);
    }
    submit_signal_decision(service, config, context, path_signal_id, mapped.unwrap())
}

/// The answer when the store that a decision was just kept in could not be
/// saved: the store goes back to the records it held before the submission,
/// and `error` is answered against `decisionSubmissionResult`.
pub fn answer_unsaved_decision(
    service: &mut SignalDecisionService,
    previous: Vec<SignalDecisionRecord>,
    error: AppError,
    config: &AppConfig,
    context: &RequestContext,
) -> (response: ErrorResponse)
    ensures
        final(service)@ == records_by_signal(previous@),
        answers(response, error, *config, *context, "decisionSubmissionResult"@),
{
    *service = SignalDecisionService::from_records(previous);
    error.into_response_with_context(config, context, "decisionSubmissionResult")
}

/// The answer to a lookup of a decision record: the record found, or the
/// not-found error for `field` and `value`.
fn answer_lookup(
    found: Option<SignalDecisionRecord>,
    config: &AppConfig,
    context: &RequestContext,
    field: &str,
    value: &str,
) -> (res: Result<SuccessEnvelope<SignalDecisionRecord>, ErrorResponse>)
    ensures
        match found {
            Some(record) => res matches Ok(envelope) && envelope.data == record && succeeds_with(
                envelope,
                *config,
                *context,
                "signalDecisionRecord"@,
                Some(record.confidence_band@),
            ),
            None => res matches Err(response) && exists|e: AppError|
                is_decision_not_found(e, field@, value@) && answers(
                    response,
                    e,
                    *config,
                    *context,
                    "signalDecisionRecord"@,
                ),
        },
{
    match found {
        Some(record) => {
            let meta = ResponseMeta::from_context(
                config,
                context,
                "signalDecisionRecord",
                Some(record.confidence_band.as_str()),
                Vec::new(),
            );
            Ok(SuccessEnvelope::new(record, meta))
        },
        None => {
            let error = decision_not_found(field, value);
            Err(error.into_response_with_context(config, context, "signalDecisionRecord"))
        },
    }
}

/// `GET /v1/signals/:signal_id/decision`: the record kept for the signal, or
/// a not-found error.
pub fn get_signal_decision(
    service: &SignalDecisionService,
    config: &AppConfig,
    context: &RequestContext,
    signal_id: &str,
) -> (res: Result<SuccessEnvelope<SignalDecisionRecord>, ErrorResponse>)
    ensures
        if service@.contains_key(signal_id@) {
            res matches Ok(envelope) && envelope.data == service@[signal_id@] && succeeds_with(
                envelope,
                *config,
                *context,
                "signalDecisionRecord"@,
                Some(service@[signal_id@].confidence_band@),
            )
        } else {
            res matches Err(response) && exists|e: AppError|
                is_decision_not_found(e, "signal_id"@, signal_id@) && answers(
                    response,
                    e,
                    *config,
                    *context,
                    "signalDecisionRecord"@,
                )
        },
{
    let found = service.get_by_signal_id(signal_id);
    answer_lookup(found, config, context, "signal_id", signal_id)
}

/// `GET /v1/decisions/by-trace/:trace_id`: a record kept whose trace is
/// `trace_id`, or a not-found error when none is.
pub fn get_signal_decision_by_trace_id(
    service: &SignalDecisionService,
    config: &AppConfig,
    context: &RequestContext,
    trace_id: &str,
) -> (res: Result<SuccessEnvelope<SignalDecisionRecord>, ErrorResponse>)
    ensures
        match res {
            Ok(envelope) => {
                &&& exists|id: Seq<char>|
                    service@.contains_key(id) && #[trigger] service@[id] == envelope.data
                &&& envelope.data.trace_id@ == trace_id@
                &&& succeeds_with(
                    envelope,
                    *config,
                    *context,
                    "signalDecisionRecord"@,
                    Some(envelope.data.confidence_band@),
                )
            },
            Err(response) => {
                &&& forall|id: Seq<char>|
                    service@.contains_key(id) ==> (#[trigger] service@[id]).trace_id@ != trace_id@
                &&& exists|e: AppError|
                    is_decision_not_found(e, "trace_id"@, trace_id@) && answers(
                        response,
                        e,
                        *config,
                        *context,
                        "signalDecisionRecord"@,
                    )
            },
        },
{
    let found = service.get_by_trace_id(trace_id);
    answer_lookup(found, config, context, "trace_id", trace_id)
}

/// `GET /v1/decisions/by-correlation/:correlation_id`: a record kept whose
/// correlation is `correlation_id`, or a not-found error when none is.
pub fn get_signal_decision_by_correlation_id(
    service: &SignalDecisionService,
    config: &AppConfig,
    context: &RequestContext,
    correlation_id: &str,
) -> (res: Result<SuccessEnvelope<SignalDecisionRecord>, ErrorResponse>)
    ensures
        match res {
            Ok(envelope) => {
                &&& exists|id: Seq<char>|
                    service@.contains_key(id) && #[trigger] service@[id] == envelope.data
                &&& envelope.data.correlation_id@ == correlation_id@
                &&& succeeds_with(
                    envelope,
                    *config,
                    *context,
                    "signalDecisionRecord"@,
                    Some(envelope.data.confidence_band@),
                )
            },
            Err(response) => {
                &&& forall|id: Seq<char>|
                    service@.contains_key(id) ==> (#[trigger] service@[id]).correlation_id@
                        != correlation_id@
                &&& exists|e: AppError|
                    is_decision_not_found(e, "correlation_id"@, correlation_id@) && answers(
                        response,
                        e,
                        *config,
                        *context,
                        "signalDecisionRecord"@,
                    )
            },
        },
{
    let found = service.get_by_correlation_id(correlation_id);
    answer_lookup(found, config, context, "correlation_id", correlation_id)
}

/// A decision that maps and is for the signal in the path is kept: the store
/// afterwards is the store before with that signal's entry set to the
/// decision's record, whether or not the signal had one, and every other
/// signal keeps its entry.
pub proof fn law_accepted_decision_replaces(
    before: Map<Seq<char>, SignalDecisionRecord>,
    after: Map<Seq<char>, SignalDecisionRecord>,
    config: AppConfig,
    context: RequestContext,
    decision: ValidatedSignalDecision,
    res: Result<SuccessEnvelope<DecisionSubmissionResult>, ErrorResponse>,
    other: Seq<char>,
)
    requires
        decision_answer(before, after, config, context, decision.signal_id@, Ok(decision), res),
    ensures
        after == before.insert(decision.signal_id@, record_of(decision)),
        after.contains_key(decision.signal_id@),
        after[decision.signal_id@] == record_of(decision),
        other != decision.signal_id@ ==> (after.contains_key(other) == before.contains_key(other)
            && (before.contains_key(other) ==> after[other] == before[other])),
        res matches Ok(envelope) && envelope.data.submitted,
{
}

/// An accepted signal is answered with the metadata of the request it came
/// in: the request's own trace and correlation identifiers, whatever the
/// signal's audit trace says.
pub proof fn law_signal_answer_carries_request_trace(
    config: AppConfig,
    context: RequestContext,
    signal: ValidatedSignal,
    res: Result<SuccessEnvelope<SignalAcceptance>, ErrorResponse>,
)
    requires
        signal_answer(config, context, Ok(signal), res),
    ensures
        res matches Ok(envelope) && envelope.meta.trace_id == context.trace_id
            && envelope.meta.correlation_id == context.correlation_id
            && envelope.meta.audit.trace.request_id == context.request_id
            && envelope.meta.audit.trace.trace_id == context.trace_id
            && envelope.meta.audit.trace.correlation_id == context.correlation_id
            && envelope.data.signal_id == signal.signal_id,
{
}

} // verus!
