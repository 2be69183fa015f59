use phantom_strike_core::contracts::validation::{
    extract_required_field, normalize_expected, normalize_issue, normalize_violation,
    pointer_field_name, schema_validation_error, validate_payload, ViolationReport,
};
use phantom_strike_core::contracts::{SchemaRegistry, SchemaSource};
use phantom_strike_core::errors::{AppError, ErrorDetails, Received};

fn parse(text: &str) -> serde_json::Value {
    serde_json::from_str(text).expect("test JSON should parse")
}

fn source(path: &str, text: &str) -> SchemaSource {
    SchemaSource { path: path.to_string(), contents: Ok(text.to_string()) }
}

const DECISION_SCHEMA: &str = r#"{
    "type": "object",
    "required": ["signal_id", "baseline_confidence", "confidence_band"],
    "properties": {
        "signal_id": {"type": "string", "minLength": 3},
        "baseline_confidence": {"type": "number", "minimum": 0, "maximum": 1},
        "confidence_band": {"enum": ["low", "elevated", "high"]}
    }
}"#;

fn registry() -> SchemaRegistry {
    SchemaRegistry::load(vec![
        source("s/signal.json", r#"{"type": "object"}"#),
        source("s/confidenceGate.json", r#"{"type": "object"}"#),
        source("s/signalDecision.json", DECISION_SCHEMA),
    ])
    .ok()
    .expect("schemas should load")
}

#[test]
fn required_field_is_text_between_first_two_quotes() {
    assert_eq!(
        extract_required_field("\"signal_id\" is a required property"),
        Some("signal_id".to_string())
    );
    assert_eq!(extract_required_field("no quotes here"), None);
    assert_eq!(extract_required_field("\"\" is a required property"), None);
    assert_eq!(extract_required_field("only \"one quote"), Some("one quote".to_string()));
}

#[test]
fn pointer_field_is_last_nonempty_segment_or_root() {
    assert_eq!(pointer_field_name("/audit/trace/trace_id"), "trace_id");
    assert_eq!(pointer_field_name("/scores/0/"), "0");
    assert_eq!(pointer_field_name(""), "root");
    assert_eq!(pointer_field_name("///"), "root");
}

#[test]
fn issue_follows_failed_keyword() {
    assert_eq!(normalize_issue("/properties/observed_at/format"), "format_mismatch");
    assert_eq!(normalize_issue("/properties/signal_id/type"), "type_mismatch");
    assert_eq!(normalize_issue("/properties/band/enum"), "enum_mismatch");
    assert_eq!(normalize_issue("/properties/score/minimum"), "range_mismatch");
    assert_eq!(normalize_issue("/properties/score/maximum"), "range_mismatch");
    assert_eq!(normalize_issue("/properties/title/minLength"), "length_mismatch");
    assert_eq!(normalize_issue("/properties/title/maxLength"), "length_mismatch");
    assert_eq!(normalize_issue("/required"), "missing");
    assert_eq!(normalize_issue("/additionalProperties"), "invalid");
    assert_eq!(normalize_issue("/type/extra"), "invalid");
}

#[test]
fn expected_is_failed_keyword_or_constraint() {
    assert_eq!(normalize_expected("/properties/signal_id/minLength"), "minLength");
    assert_eq!(normalize_expected("/properties/x/"), "x");
    assert_eq!(normalize_expected(""), "constraint");
}

#[test]
fn violation_for_required_message_is_missing_field() {
    let payload = parse(r#"{"a": 1}"#);
    let v = normalize_violation(&payload, "\"b\" is a required property", "", "/required");
    assert_eq!(v.field, "b");
    assert_eq!(v.issue, "missing");
    assert_eq!(v.expected, "required");
    assert!(matches!(v.received, Received::Null));
}

#[test]
fn violation_takes_received_value_from_payload() {
    let payload = parse(r#"{"audit": {"score": 7}}"#);
    let v = normalize_violation(
        &payload,
        "7 is greater than the maximum of 1",
        "/audit/score",
        "/properties/audit/properties/score/maximum",
    );
    assert_eq!(v.field, "score");
    assert_eq!(v.issue, "range_mismatch");
    assert_eq!(v.expected, "maximum");
    match v.received {
        Received::Json(value) => assert_eq!(value, parse("7")),
        _ => panic!("received should be the payload value"),
    }
    let missing = normalize_violation(&payload, "bad", "/nowhere", "/x/type");
    assert!(matches!(missing.received, Received::Null));
    assert_eq!(missing.field, "nowhere");
}

#[test]
fn validation_error_lists_each_report() {
    let payload = parse(r#"{"x": "y"}"#);
    let reports = vec![
        ViolationReport {
            message: "\"id\" is a required property".to_string(),
            instance_path: "".to_string(),
            schema_path: "/required".to_string(),
        },
        ViolationReport {
            message: "wrong".to_string(),
            instance_path: "/x".to_string(),
            schema_path: "/properties/x/type".to_string(),
        },
    ];
    match schema_validation_error(&payload, "signal", &reports) {
        AppError::Validation { code, message, details } => {
            assert_eq!(code, "CONTRACT_VALIDATION_FAILED");
            assert_eq!(message, "payload failed schema validation for signal");
            match details {
                Some(ErrorDetails::SchemaViolations { schema, violations }) => {
                    assert_eq!(schema, "signal");
                    assert_eq!(violations.len(), 2);
                    assert_eq!(violations[0].field, "id");
                    assert_eq!(violations[1].field, "x");
                    assert_eq!(violations[1].issue, "type_mismatch");
                    assert_eq!(violations[1].expected, "type");
                }
                _ => panic!("details should list violations"),
            }
        }
        _ => panic!("should be a validation error"),
    }
}

#[test]
fn valid_payload_passes_schema() {
    let registry = registry();
    let payload = parse(
        r#"{"signal_id": "abc-1", "baseline_confidence": 0.5, "confidence_band": "elevated"}"#,
    );
    assert!(validate_payload(&registry, "signalDecision", &payload).is_ok());
}

#[test]
fn invalid_payload_reports_normalized_violations() {
    let registry = registry();
    let payload = parse(r#"{"signal_id": "ab", "baseline_confidence": 3, "confidence_band": "x"}"#);
    match validate_payload(&registry, "signalDecision", &payload) {
        Err(AppError::Validation { code, details, .. }) => {
            assert_eq!(code, "CONTRACT_VALIDATION_FAILED");
            match details {
                Some(ErrorDetails::SchemaViolations { violations, .. }) => {
                    assert_eq!(violations.len(), 3);
                    let range = violations
                        .iter()
                        .find(|v| v.issue == "range_mismatch")
                        .expect("the number out of range is reported");
                    assert_eq!(range.field, "baseline_confidence");
                    assert_eq!(range.expected, "maximum");
                    match &range.received {
                        Received::Json(value) => assert_eq!(value, &parse("3")),
                        _ => panic!("received should be the payload value"),
                    }
                    // A validator message that quotes the offending string is
                    // read as naming a missing property, as the quoted text.
                    let quoted = violations
                        .iter()
                        .find(|v| v.field == "ab")
                        .expect("the short string is reported");
                    assert_eq!(quoted.issue, "missing");
                    assert!(violations.iter().any(|v| v.field == "x" && v.issue == "missing"));
                }
                _ => panic!("details should list violations"),
            }
        }
        _ => panic!("payload should fail"),
    }
    let missing = parse(r#"{"signal_id": "abc"}"#);
    match validate_payload(&registry, "signalDecision", &missing) {
        Err(AppError::Validation { details: Some(ErrorDetails::SchemaViolations { violations, .. }), .. }) => {
            assert_eq!(violations.len(), 2);
            assert!(violations.iter().all(|v| v.issue == "missing" && v.expected == "required"));
            assert_eq!(violations[0].field, "baseline_confidence");
            assert_eq!(violations[1].field, "confidence_band");
        }
        _ => panic!("payload should fail"),
    }
}

#[test]
fn unregistered_schema_is_a_loading_error() {
    let registry = registry();
    match validate_payload(&registry, "unknown", &parse("{}")) {
        Err(AppError::SchemaLoading { message }) => {
            assert_eq!(message, "schema unknown is not registered")
        }
        _ => panic!("unknown schema should fail"),
    }
}
