use phantom_strike_core::config::AppConfig;
use phantom_strike_core::contracts::{SchemaRegistry, SchemaSource};
use phantom_strike_core::domain::decision::ValidatedSignalDecision;
use phantom_strike_core::errors::{ErrorDetails, ErrorResponse, Received};
use phantom_strike_core::http::handlers::{
    accept_json_body, get_signal_decision, get_signal_decision_by_correlation_id,
    get_signal_decision_by_trace_id, health, submit_signal_decision, submit_signal_decision_request,
    version,
};
use phantom_strike_core::http::trace_context::RequestContext;
use phantom_strike_core::services::signal_decision::SignalDecisionService;

const DECISION_SCHEMA: &str = r#"{
    "type": "object",
    "additionalProperties": false,
    "required": ["signal_id", "baseline_confidence", "confidence_delta", "updated_confidence",
                 "confidence_band", "disposition", "reasoning", "trace_id", "correlation_id"],
    "properties": {
        "signal_id": {"type": "string", "minLength": 1},
        "baseline_confidence": {"type": "number", "minimum": 0, "maximum": 1},
        "confidence_delta": {"type": "number"},
        "updated_confidence": {"type": "number", "minimum": 0, "maximum": 1},
        "confidence_band": {"enum": ["low", "moderate", "elevated", "high"]},
        "disposition": {"type": "string", "minLength": 1},
        "reasoning": {"type": "string", "minLength": 1},
        "trace_id": {"type": "string", "minLength": 1},
        "correlation_id": {"type": "string", "minLength": 1}
    }
}"#;

fn test_config() -> AppConfig {
    AppConfig {
        service_name: "phantom-strike-core",
        contract_actor_service: "core",
        environment: "test".to_string(),
        log_level: "debug".to_string(),
        port: 3000,
        contracts_schema_dir: "schemas/v1".to_string(),
        decision_store_path: "data/test-decisions.json".to_string(),
        contracts_commit: "528603a",
    }
}

fn context() -> RequestContext {
    RequestContext::from_headers(
        Some("req-1".to_string()),
        Some("trace-header".to_string()),
        Some("corr-header".to_string()),
    )
}

fn registry() -> SchemaRegistry {
    let source = |path: &str, text: &str| SchemaSource {
        path: path.to_string(),
        contents: Ok(text.to_string()),
    };
    SchemaRegistry::load(vec![
        source("signal.json", r#"{"type": "object"}"#),
        source("confidenceGate.json", r#"{"type": "object"}"#),
        source("signalDecision.json", DECISION_SCHEMA),
    ])
    .ok()
    .expect("schemas should load")
}

fn valid_decision_payload(signal_id: &str) -> serde_json::Value {
    let mut payload: serde_json::Value = serde_json::from_str(
        r#"{
            "baseline_confidence": 0.62,
            "confidence_delta": 0.128,
            "updated_confidence": 0.748,
            "confidence_band": "elevated",
            "disposition": "escalate",
            "reasoning": "Supporting evidence outweighed contradiction after adversarial penalty.",
            "trace_id": "trace-001-alpha",
            "correlation_id": "e5b11411-2732-486f-9d0a-f4144ea20395"
        }"#,
    )
    .expect("payload should parse");
    payload
        .as_object_mut()
        .expect("payload is an object")
        .insert("signal_id".to_string(), serde_json::Value::String(signal_id.to_string()));
    payload
}

fn text(value: &serde_json::Value, key: &str) -> Result<String, String> {
    value[key].as_str().map(|s| s.to_string()).ok_or(format!("missing field `{key}`"))
}

fn bits(value: &serde_json::Value, key: &str) -> Result<u64, String> {
    value[key].as_f64().map(f64::to_bits).ok_or(format!("missing field `{key}`"))
}

/// Maps a payload into a decision, field by field.
fn map_decision(value: &serde_json::Value) -> Result<ValidatedSignalDecision, String> {
    Ok(ValidatedSignalDecision {
        signal_id: text(value, "signal_id")?,
        baseline_confidence_bits: bits(value, "baseline_confidence")?,
        confidence_delta_bits: bits(value, "confidence_delta")?,
        updated_confidence_bits: bits(value, "updated_confidence")?,
        confidence_band: text(value, "confidence_band")?,
        disposition: text(value, "disposition")?,
        reasoning: text(value, "reasoning")?,
        trace_id: text(value, "trace_id")?,
        correlation_id: text(value, "correlation_id")?,
    })
}

/// Runs a decision submission through both steps.
fn post_decision(
    service: &mut SignalDecisionService,
    registry: &SchemaRegistry,
    path_signal_id: &str,
    body: serde_json::Value,
) -> Result<phantom_strike_core::http::response::SuccessEnvelope<
    phantom_strike_core::domain::decision::DecisionSubmissionResult,
>, ErrorResponse> {
    let config = test_config();
    let context = context();
    let mapped = Some(map_decision(&body));
    submit_signal_decision_request(registry, service, &config, &context, path_signal_id, Ok(body), mapped)
}

#[test]
fn accepts_valid_signal_decision_payload() {
    let registry = registry();
    let mut service = SignalDecisionService::new();
    let envelope = post_decision(
        &mut service,
        &registry,
        "df1eab71-aa5f-4ce2-9915-64ccf314e3b9",
        valid_decision_payload("df1eab71-aa5f-4ce2-9915-64ccf314e3b9"),
    )
    .ok()
    .expect("submission should succeed");
    assert_eq!(envelope.success, true);
    assert_eq!(envelope.data.submitted, true);
    assert_eq!(envelope.data.target_service, "core");
    assert_eq!(envelope.meta.confidence_band, Some("elevated".to_string()));
    assert_eq!(
        envelope.data.target_endpoint,
        "/v1/signals/df1eab71-aa5f-4ce2-9915-64ccf314e3b9/decision"
    );
    assert_eq!(envelope.data.trace_id, "trace-001-alpha");
    assert_eq!(envelope.data.correlation_id, "e5b11411-2732-486f-9d0a-f4144ea20395");
    assert_eq!(envelope.meta.trace_id, "trace-header");
    assert_eq!(envelope.meta.correlation_id, "corr-header");
    assert_eq!(envelope.meta.audit.schema.schema_name, "decisionSubmissionResult");
}

#[test]
fn rejects_invalid_signal_decision_payload() {
    let registry = registry();
    let mut service = SignalDecisionService::new();
    let body: serde_json::Value =
        serde_json::from_str(r#"{ "signal_id": "df1eab71-aa5f-4ce2-9915-64ccf314e3b9" }"#)
            .expect("body should parse");
    let response = match post_decision(
        &mut service,
        &registry,
        "df1eab71-aa5f-4ce2-9915-64ccf314e3b9",
        body,
    ) {
        Ok(_) => panic!("submission should fail"),
        Err(response) => response,
    };
    assert_eq!(response.status, 400);
    assert_eq!(response.envelope.success, false);
    assert_eq!(response.envelope.error.code, "CONTRACT_VALIDATION_FAILED");
    assert!(service.records().is_empty());
}

#[test]
fn rejects_signal_id_mismatch() {
    let registry = registry();
    let mut service = SignalDecisionService::new();
    let response = match post_decision(
        &mut service,
        &registry,
        "11111111-1111-1111-1111-111111111111",
        valid_decision_payload("df1eab71-aa5f-4ce2-9915-64ccf314e3b9"),
    ) {
        Ok(_) => panic!("submission should fail"),
        Err(response) => response,
    };
    assert_eq!(response.status, 400);
    assert_eq!(response.envelope.success, false);
    assert_eq!(response.envelope.error.code, "SIGNAL_ID_MISMATCH");
    match &response.envelope.error.details {
        Some(ErrorDetails::Violations { violations }) => {
            assert_eq!(violations[0].expected, "11111111-1111-1111-1111-111111111111");
            match &violations[0].received {
                Received::Text(t) => assert_eq!(t, "df1eab71-aa5f-4ce2-9915-64ccf314e3b9"),
                _ => panic!("received should be the body's signal_id"),
            }
        }
        _ => panic!("details should list the mismatch"),
    }
    assert!(service.records().is_empty());
}

#[test]
fn retrieves_persisted_signal_decision() {
    let registry = registry();
    let mut service = SignalDecisionService::new();
    assert!(post_decision(
        &mut service,
        &registry,
        "df1eab71-aa5f-4ce2-9915-64ccf314e3b9",
        valid_decision_payload("df1eab71-aa5f-4ce2-9915-64ccf314e3b9"),
    )
    .is_ok());
    let restored = SignalDecisionService::from_records(service.records());
    for store in [&service, &restored] {
        let envelope = get_signal_decision(
            store,
            &test_config(),
            &context(),
            "df1eab71-aa5f-4ce2-9915-64ccf314e3b9",
        )
        .ok()
        .expect("record should be found");
        assert_eq!(envelope.success, true);
        assert_eq!(envelope.data.signal_id, "df1eab71-aa5f-4ce2-9915-64ccf314e3b9");
        assert_eq!(envelope.data.disposition, "escalate");
        assert_eq!(envelope.data.confidence_band, "elevated");
        assert_eq!(envelope.meta.confidence_band, Some("elevated".to_string()));
        assert_eq!(f64::from_bits(envelope.data.baseline_confidence_bits), 0.62);
    }
}

#[test]
fn returns_not_found_for_missing_signal_decision() {
    let service = SignalDecisionService::new();
    let response = match get_signal_decision(
        &service,
        &test_config(),
        &context(),
        "aaaaaaaa-aaaa-4aaa-8aaa-aaaaaaaaaaaa",
    ) {
        Ok(_) => panic!("lookup should fail"),
        Err(response) => response,
    };
    assert_eq!(response.status, 404);
    assert_eq!(response.envelope.success, false);
    assert_eq!(response.envelope.error.code, "SIGNAL_DECISION_NOT_FOUND");
    match &response.envelope.error.details {
        Some(ErrorDetails::Lookup { field, value }) => {
            assert_eq!(field, "signal_id");
            assert_eq!(value, "aaaaaaaa-aaaa-4aaa-8aaa-aaaaaaaaaaaa");
        }
        _ => panic!("details should name the lookup"),
    }
}

#[test]
fn invalid_json_body_is_rejected() {
    let registry = registry();
    let response = match accept_json_body(
        &registry,
        &test_config(),
        &context(),
        "signalDecision",
        Err("Failed to parse the request body as JSON".to_string()),
    ) {
        Ok(_) => panic!("body should be refused"),
        Err(response) => response,
    };
    assert_eq!(response.status, 400);
    assert_eq!(response.envelope.error.code, "INVALID_JSON_BODY");
    assert_eq!(response.envelope.error.message, "request body must be valid JSON");
    assert_eq!(response.envelope.meta.audit.schema.schema_name, "signalDecision");
}

#[test]
fn unmappable_decision_is_rejected_and_not_kept() {
    let mut service = SignalDecisionService::new();
    let response = match submit_signal_decision(
        &mut service,
        &test_config(),
        &context(),
        "x",
        Err("missing field `reasoning`".to_string()),
    ) {
        Ok(_) => panic!("mapping failure should be refused"),
        Err(response) => response,
    };
    assert_eq!(response.status, 400);
    assert_eq!(response.envelope.error.code, "CONTRACT_MAPPING_FAILED");
    assert_eq!(
        response.envelope.error.message,
        "validated payload could not be mapped into the core decision model"
    );
    match &response.envelope.error.details {
        Some(ErrorDetails::MappingFailed { expected, received }) => {
            assert_eq!(expected, "ValidatedSignalDecision");
            assert_eq!(received, "missing field `reasoning`");
        }
        _ => panic!("details should describe the mapping"),
    }
    assert!(service.records().is_empty());
}

#[test]
fn decisions_found_by_trace_and_correlation() {
    let registry = registry();
    let mut service = SignalDecisionService::new();
    assert!(post_decision(&mut service, &registry, "sig-a", valid_decision_payload("sig-a")).is_ok());
    let by_trace = get_signal_decision_by_trace_id(&service, &test_config(), &context(), "trace-001-alpha")
        .ok()
        .expect("trace lookup should succeed");
    assert_eq!(by_trace.data.signal_id, "sig-a");
    let by_correlation = get_signal_decision_by_correlation_id(
        &service,
        &test_config(),
        &context(),
        "e5b11411-2732-486f-9d0a-f4144ea20395",
    )
    .ok()
    .expect("correlation lookup should succeed");
    assert_eq!(by_correlation.data.signal_id, "sig-a");
    match get_signal_decision_by_trace_id(&service, &test_config(), &context(), "nope") {
        Err(response) => {
            assert_eq!(response.status, 404);
            assert_eq!(
                response.envelope.error.message,
                "no decision record found for the requested trace_id"
            );
        }
        Ok(_) => panic!("unknown trace should not be found"),
    }
}

#[test]
fn health_and_version_report_service() {
    let config = test_config();
    let h = health(&config, &context());
    assert!(h.success);
    assert_eq!(h.data.status, "ok");
    assert_eq!(h.data.service, "phantom-strike-core");
    assert_eq!(h.meta.audit.schema.schema_name, "health-status");
    let v = version(&config, &context());
    assert_eq!(v.data.version, "0.1.0");
    assert_eq!(v.data.environment, "test");
    assert_eq!(v.data.contracts_commit, "528603a");
    assert_eq!(v.meta.audit.schema.schema_name, "service-version");
    assert_eq!(v.meta.audit.schema.package_version, "0.1.0");
}

#[test]
fn decision_request_checks_run_in_order() {
    let registry = registry();
    let mut service = SignalDecisionService::new();
    let config = test_config();
    let context = context();
    let code = |res: Result<_, ErrorResponse>| match res {
        Ok(_) => panic!("request should be refused"),
        Err(response) => response.envelope.error.code,
    };
    // Not JSON: refused before anything else is looked at.
    let res = submit_signal_decision_request(
        &registry, &mut service, &config, &context, "other", Err("bad".to_string()), None,
    );
    assert_eq!(code(res), "INVALID_JSON_BODY");
    // Fails the schema, even though it would also fail mapping and the path check.
    let body: serde_json::Value = serde_json::from_str(r#"{"signal_id": "x"}"#).expect("parses");
    let res = submit_signal_decision_request(
        &registry, &mut service, &config, &context, "other", Ok(body),
        Some(Err("missing field".to_string())),
    );
    assert_eq!(code(res), "CONTRACT_VALIDATION_FAILED");
    // Passes the schema but does not map.
    let res = submit_signal_decision_request(
        &registry, &mut service, &config, &context, "other", Ok(valid_decision_payload("s")),
        Some(Err("mapping".to_string())),
    );
    assert_eq!(code(res), "CONTRACT_MAPPING_FAILED");
    // Maps, but names another signal than the path.
    let body = valid_decision_payload("s");
    let mapped = Some(map_decision(&body));
    let res = submit_signal_decision_request(
        &registry, &mut service, &config, &context, "other", Ok(body), mapped,
    );
    assert_eq!(code(res), "SIGNAL_ID_MISMATCH");
    assert!(service.records().is_empty());
}
