use phantom_strike_core::contracts::{required_schemas, SchemaRegistry, SchemaSource};
use phantom_strike_core::errors::AppError;

fn source(path: &str, contents: Result<&str, &str>) -> SchemaSource {
    SchemaSource {
        path: path.to_string(),
        contents: contents.map(|c| c.to_string()).map_err(|e| e.to_string()),
    }
}

fn message_of(result: Result<SchemaRegistry, AppError>) -> String {
    match result {
        Ok(_) => panic!("schema loading should fail"),
        Err(error) => error.message().clone(),
    }
}

#[test]
fn required_schemas_in_load_order() {
    let required = required_schemas();
    assert_eq!(
        required,
        vec![
            ("signal", "signal.json"),
            ("confidence_gate", "confidenceGate.json"),
            ("signalDecision", "signalDecision.json"),
        ]
    );
}

#[test]
fn fails_startup_when_required_schema_is_missing() {
    let error = message_of(SchemaRegistry::load(vec![
        source("/tmp/s/signal.json", Ok(r#"{"type": "object"}"#)),
        source("/tmp/s/confidenceGate.json", Ok(r#"{"type": "object"}"#)),
        source(
            "/tmp/s/signalDecision.json",
            Err("No such file or directory (os error 2)"),
        ),
    ]));
    assert!(
        error.contains("failed reading schema signalDecision"),
        "unexpected error: {error}"
    );
    assert_eq!(
        error,
        "failed reading schema signalDecision from /tmp/s/signalDecision.json: No such file or directory (os error 2)"
    );
}

#[test]
fn first_failing_schema_is_reported() {
    let error = message_of(SchemaRegistry::load(vec![
        source("a/signal.json", Ok("{ not json")),
        source("a/confidenceGate.json", Err("missing")),
        source("a/signalDecision.json", Ok("{}")),
    ]));
    let words = serde_json::from_str::<serde_json::Value>("{ not json")
        .err()
        .expect("text is not JSON")
        .to_string();
    assert_eq!(error, format!("failed parsing schema signal from a/signal.json: {words}"));
}

#[test]
fn non_schema_document_fails_compiling() {
    let error = message_of(SchemaRegistry::load(vec![
        source("a/signal.json", Ok("{}")),
        source("a/confidenceGate.json", Ok(r#"{"type": 12}"#)),
        source("a/signalDecision.json", Ok("{}")),
    ]));
    let document: serde_json::Value = serde_json::from_str(r#"{"type": 12}"#).expect("parses");
    let words = match jsonschema::JSONSchema::compile(&document) {
        Ok(_) => panic!("document is not a schema"),
        Err(error) => error.to_string(),
    };
    assert_eq!(
        error,
        format!("failed compiling schema confidence_gate from a/confidenceGate.json: {words}")
    );
}

#[test]
fn loaded_registry_serves_exactly_required_names() {
    let registry = SchemaRegistry::load(vec![
        source("signal.json", Ok("{}")),
        source("confidenceGate.json", Ok("{}")),
        source("signalDecision.json", Ok("{}")),
    ])
    .ok()
    .expect("schemas should load");
    assert!(registry.get("signal").is_ok());
    assert!(registry.get("confidence_gate").is_ok());
    assert!(registry.get("signalDecision").is_ok());
    match registry.get("signal_decision") {
        Err(AppError::SchemaLoading { message }) => {
            assert_eq!(message, "schema signal_decision is not registered")
        }
        _ => panic!("unregistered name should fail"),
    }
}
