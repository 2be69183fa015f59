//! Validating request payloads against contract schemas, and reporting what
//! a payload got wrong in a uniform shape.
use vstd::prelude::*;
use crate::contracts::{schema_compiled_from, SchemaRegistry};
use crate::errors::{AppError, ErrorDetails, Received, Violation};
use crate::json::{json_pointer, json_pointer_target};
use crate::text::{
    chars_of, concat2, ends_with, has_suffix, last_nonempty, last_nonempty_segment, opt_view, owned,
    split, split_bounds, substring,
};

verus! {

broadcast use vstd::string::group_string_axioms;

/// One finding of a schema validator: its message, the JSON pointer to the
/// offending value in the payload, and the pointer to the schema keyword that
/// failed.
pub struct ViolationReport {
    pub message: String,
    pub instance_path: String,
    pub schema_path: String,
}

/// The findings, as text, of a validator compiled from the schema `document`
/// on `instance`: empty when the instance is valid.
pub uninterp spec fn schema_findings(
    document: serde_json::Value,
    instance: serde_json::Value,
) -> Seq<(Seq<char>, Seq<char>, Seq<char>)>;

/// The text of each report.
pub open spec fn report_views(reports: Seq<ViolationReport>) -> Seq<(Seq<char>, Seq<char>, Seq<char>)> {
    reports.map_values(
        |r: ViolationReport| (r.message@, r.instance_path@, r.schema_path@),
    )
}

/// Runs the validator `schema` on `instance` (`JSONSchema::validate`), writing
/// each error by its `Display` and its two paths by theirs. Trusted: the
/// findings are a function of the validator and the instance, and an error
/// comes back exactly when there is at least one (the crate returns `Err`
/// only after peeking a first error). Compilation and validation are
/// deterministic, so every validator compiled from a document finds the same.
#[verifier::external_body]
pub fn run_validator(schema: &jsonschema::JSONSchema, instance: &serde_json::Value) -> (res: Result<
    (),
    Vec<ViolationReport>,
>)
    ensures
        forall|document: serde_json::Value|
            #[trigger] schema_compiled_from(*schema, document) ==> match res {
                Ok(_) => schema_findings(document, *instance).len() == 0,
                Err(reports) => reports.len() > 0 && report_views(reports@) == schema_findings(
                    document,
                    *instance,
                ),
            },
{
    schema.validate(instance).map_err(
        |errors|
            errors.map(
                |error|
                    ViolationReport {
                        message: error.to_string(),
                        instance_path: error.instance_path.to_string(),
                        schema_path: error.schema_path.to_string(),
                    },
            ).collect(),
    )
}

/// The property a "required" message names: the text between its first and
/// second double quote, when there is such text.
pub open spec fn required_field(message: Seq<char>) -> Option<Seq<char>> {
    let parts = split(message, '"');
    if parts.len() > 1 && parts[1].len() > 0 {
        Some(parts[1])
    } else {
        None
    }
}

/// The name of the field a JSON pointer ends at: its last non-empty segment,
/// or `root` for a pointer with none.
pub open spec fn pointer_field(instance_path: Seq<char>) -> Seq<char> {
    match last_nonempty(split(instance_path, '/')) {
        Some(segment) => segment,
        None => "root"@,
    }
}

/// The kind of issue the failed schema keyword at `schema_path` reports.
pub open spec fn issue_for(schema_path: Seq<char>) -> Seq<char> {
    if has_suffix(schema_path, "/format"@) {
        "format_mismatch"@
    } else if has_suffix(schema_path, "/type"@) {
        "type_mismatch"@
    } else if has_suffix(schema_path, "/enum"@) {
        "enum_mismatch"@
    } else if has_suffix(schema_path, "/minimum"@) || has_suffix(schema_path, "/maximum"@) {
        "range_mismatch"@
    } else if has_suffix(schema_path, "/minLength"@) || has_suffix(schema_path, "/maxLength"@) {
        "length_mismatch"@
    } else if has_suffix(schema_path, "/required"@) {
        "missing"@
    } else {
        "invalid"@
    }
}

/// What the failed schema keyword at `schema_path` expected: the keyword
/// itself (the pointer's last non-empty segment), or `constraint`.
pub open spec fn expected_for(schema_path: Seq<char>) -> Seq<char> {
    match last_nonempty(split(schema_path, '/')) {
        Some(segment) => segment,
        None => "constraint"@,
    }
}

/// `violation` is the uniform form of the validator finding `(message,
/// instance_path, schema_path)` on `payload`: a missing property where the
/// message names one, else the field, issue and expectation read off the two
/// paths, with the offending value taken from the payload.
pub open spec fn normalizes(
    violation: Violation,
    payload: serde_json::Value,
    message: Seq<char>,
    instance_path: Seq<char>,
    schema_path: Seq<char>,
) -> bool {
    match required_field(message) {
        Some(field) => {
            &&& violation.field@ == field
            &&& violation.issue@ == "missing"@
            &&& violation.expected@ == "required"@
            &&& violation.received is Null
        },
        None => {
            &&& violation.field@ == pointer_field(instance_path)
            &&& violation.issue@ == issue_for(schema_path)
            &&& violation.expected@ == expected_for(schema_path)
            &&& violation.received == match json_pointer_target(payload, instance_path) {
                Some(value) => Received::Json(value),
                None => Received::Null,
            }
        },
    }
}

/// `error` reports that `payload` failed the schema `schema_name` with the
/// given findings, each in its uniform form and in the validator's order.
pub open spec fn is_schema_failure(
    error: AppError,
    payload: serde_json::Value,
    schema_name: Seq<char>,
    findings: Seq<(Seq<char>, Seq<char>, Seq<char>)>,
) -> bool {
    &&& error matches AppError::Validation { code, message, details }
    &&& code@ == "CONTRACT_VALIDATION_FAILED"@
    &&& message@ == "payload failed schema validation for "@ + schema_name
    &&& details matches Some(ErrorDetails::SchemaViolations { schema, violations })
    &&& schema@ == schema_name
    &&& violations.len() == findings.len()
    &&& forall|i: int|
        0 <= i < violations.len() ==> normalizes(
            #[trigger] violations[i],
            payload,
            findings[i].0,
            findings[i].1,
            findings[i].2,
        )
}

/// The property a validator message names as required, if it names one.
pub fn extract_required_field(message: &str) -> (field: Option<String>)
    ensures
        opt_view(field) == required_field(message@),
{
    let chars = chars_of(message);
    let bounds = split_bounds(&chars, '"');
    if bounds.len() > 1 {
        let (from, to) = bounds[1];
        if from < to {
            return Some(substring(message, from, to));
        }
    }
    None
}

/// The name of the field that `instance_path` points at.
pub fn pointer_field_name(instance_path: &str) -> (field: String)
    ensures
        field@ == pointer_field(instance_path@),
{
    match last_nonempty_segment(instance_path, '/') {
        Some(segment) => segment,
        None => owned("root"),
    }
}

/// The kind of issue that the failed keyword at `schema_path` reports.
pub fn normalize_issue(schema_path: &str) -> (issue: &'static str)
    ensures
        issue@ == issue_for(schema_path@),
{
    let chars = chars_of(schema_path);
    if ends_with(&chars, "/format") {
        "format_mismatch"
    } else if ends_with(&chars, "/type") {
        "type_mismatch"
    } else if ends_with(&chars, "/enum") {
        "enum_mismatch"
    } else if ends_with(&chars, "/minimum") || ends_with(&chars, "/maximum") {
        "range_mismatch"
    } else if ends_with(&chars, "/minLength") || ends_with(&chars, "/maxLength") {
        "length_mismatch"
    } else if ends_with(&chars, "/required") {
        "missing"
    } else {
        "invalid"
    }
}

/// What the failed keyword at `schema_path` expected.
pub fn normalize_expected(schema_path: &str) -> (expected: String)
    ensures
        expected@ == expected_for(schema_path@),
{
    match last_nonempty_segment(schema_path, '/') {
        Some(segment) => segment,
        None => owned("constraint"),
    }
}

/// The uniform form of one validator finding on `payload`.
pub fn normalize_violation(
    payload: &serde_json::Value,
    message: &str,
    instance_path: &str,
    schema_path: &str,
) -> (violation: Violation)
    ensures
        normalizes(violation, *payload, message@, instance_path@, schema_path@),
{
    if let Some(field) = extract_required_field(message) {
        return Violation {
            field,
            issue: owned("missing"),
            expected: owned("required"),
            received: Received::Null,
        };
    }
    let field = pointer_field_name(instance_path);
    let received = match json_pointer(payload, instance_path) {
        Some(value) => Received::Json(value),
        None => Received::Null,
    };
    Violation {
        field,
        issue: owned(normalize_issue(schema_path)),
        expected: normalize_expected(schema_path),
        received,
    }
}

/// The error for `payload` failing the schema `schema_name` with the given
/// validator findings.
pub fn schema_validation_error(
    payload: &serde_json::Value,
    schema_name: &str,
    reports: &Vec<ViolationReport>,
) -> (error: AppError)
    ensures
        is_schema_failure(error, *payload, schema_name@, report_views(reports@)),
{
    let mut violations: Vec<Violation> = Vec::new();
    let mut i: usize = 0;
    while i < reports.len()
        invariant
            i <= reports.len(),
            violations.len() == i,
            forall|k: int|
                0 <= k < i ==> normalizes(
                    #[trigger] violations[k],
                    *payload,
                    reports[k].message@,
                    reports[k].instance_path@,
                    reports[k].schema_path@,
                ),
        decreases reports.len() - i,
    {
        let report = &reports[i];
        violations.push(
            normalize_violation(
                payload,
                report.message.as_str(),
                report.instance_path.as_str(),
                report.schema_path.as_str(),
            ),
        );
        i = i + 1;
    }
    AppError::validation(
        "CONTRACT_VALIDATION_FAILED",
        concat2("payload failed schema validation for ", schema_name),
        Some(ErrorDetails::SchemaViolations { schema: owned(schema_name), violations }),
    )
}

/// `payload` passes the schema registered as `schema_name`.
pub open spec fn payload_accepted(
    registry: SchemaRegistry,
    schema_name: Seq<char>,
    payload: serde_json::Value,
) -> bool {
    &&& registry.document_for(schema_name) matches Some(document)
    &&& schema_findings(document, payload).len() == 0
}

/// `error` is what validating `payload` against the schema registered as
/// `schema_name` reports: that no such schema is registered, or the
/// schema's findings.
pub open spec fn payload_rejection(
    registry: SchemaRegistry,
    schema_name: Seq<char>,
    payload: serde_json::Value,
    error: AppError,
) -> bool {
    match registry.document_for(schema_name) {
        None => error matches AppError::SchemaLoading { message } && message@ == "schema "@
            + schema_name + " is not registered"@,
        Some(document) => is_schema_failure(
            error,
            payload,
            schema_name,
            schema_findings(document, payload),
        ),
    }
}

/// Validates `payload` against the schema registered as `schema_name`.
pub fn validate_payload(
    registry: &SchemaRegistry,
    schema_name: &str,
    payload: &serde_json::Value,
) -> (res: Result<(), AppError>)
    ensures
        res is Ok <==> payload_accepted(*registry, schema_name@, *payload),
        res matches Err(e) ==> payload_rejection(*registry, schema_name@, *payload, e),
{
    let schema = registry.get(schema_name)?;
    match run_validator(&schema.validator, payload) {
        Ok(()) => Ok(()),
        Err(reports) => Err(schema_validation_error(payload, schema_name, &reports)),
    }
}

} // verus!
