//! The errors of the service, and the error responses written for them.
use vstd::prelude::*;
use crate::clock::is_recorded_now;
use crate::config::AppConfig;
use crate::http::response::{meta_matches, ResponseMeta};
use crate::http::trace_context::RequestContext;
use crate::text::owned;

verus! {

broadcast use vstd::string::group_string_axioms;

/// What a violation reports having received.
pub enum Received {
    /// Nothing: the JSON `null`.
    Null,
    /// A piece of text.
    Text(String),
    /// A JSON value taken from the request.
    Json(serde_json::Value),
}

/// One way in which a request broke its contract.
pub struct Violation {
    pub field: String,
    pub issue: String,
    pub expected: String,
    pub received: Received,
}

/// The details an error response carries.
pub enum ErrorDetails {
    /// `{"schema": .., "violations": [..]}`: the violations found by a schema.
    SchemaViolations { schema: String, violations: Vec<Violation> },
    /// `{"violations": [..]}`.
    Violations { violations: Vec<Violation> },
    /// `{"issue": "mapping_failed", "expected": .., "received": ..}`.
    MappingFailed { expected: String, received: String },
    /// `{"lookup": {"field": .., "value": ..}}`: what was looked up and not found.
    Lookup { field: String, value: String },
}

/// An error of the service.
pub enum AppError {
    /// The service is configured wrongly.
    Configuration { message: String },
    /// A contract schema could not be loaded.
    SchemaLoading { message: String },
    /// A request broke its contract.
    Validation { code: &'static str, message: String, details: Option<ErrorDetails> },
    /// What a request asked for does not exist.
    NotFound { code: &'static str, message: String, details: Option<ErrorDetails> },
}

/// An error response: its HTTP status and its body.
pub struct ErrorResponse {
    pub status: u16,
    pub envelope: ErrorEnvelope,
}

/// The body of an error response.
pub struct ErrorEnvelope {
    pub success: bool,
    pub error: ErrorBody,
    pub meta: ResponseMeta,
}

/// What an error response says of the error.
pub struct ErrorBody {
    pub code: String,
    pub message: String,
    pub trace_id: String,
    pub retryable: bool,
    pub details: Option<ErrorDetails>,
}

/// The HTTP status answered for `error`.
pub open spec fn status_of(error: AppError) -> u16 {
    match error {
        AppError::Configuration { .. } => 500,
        AppError::SchemaLoading { .. } => 500,
        AppError::Validation { .. } => 400,
        AppError::NotFound { .. } => 404,
    }
}

/// The code an error response gives for `error`.
pub open spec fn code_of(error: AppError) -> Seq<char> {
    match error {
        AppError::Configuration { .. } => "CONFIGURATION_ERROR"@,
        AppError::SchemaLoading { .. } => "SCHEMA_LOADING_FAILED"@,
        AppError::Validation { code, .. } => code@,
        AppError::NotFound { code, .. } => code@,
    }
}

/// The message of `error`.
pub open spec fn message_of(error: AppError) -> String {
    match error {
        AppError::Configuration { message } => message,
        AppError::SchemaLoading { message } => message,
        AppError::Validation { message, .. } => message,
        AppError::NotFound { message, .. } => message,
    }
}

/// The details of `error`.
pub open spec fn details_of(error: AppError) -> Option<ErrorDetails> {
    match error {
        AppError::Validation { details, .. } => details,
        AppError::NotFound { details, .. } => details,
        _ => None,
    }
}

/// `response` answers `error` for the request `context`, written against
/// `schema_name`: the error's status, code, message and details, the
/// request's trace, never retryable, with the response metadata of that
/// request and schema.
pub open spec fn answers(
    response: ErrorResponse,
    error: AppError,
    config: AppConfig,
    context: RequestContext,
    schema_name: Seq<char>,
) -> bool {
    &&& response.status == status_of(error)
    &&& !response.envelope.success
    &&& response.envelope.error.code@ == code_of(error)
    &&& response.envelope.error.message == message_of(error)
    &&& response.envelope.error.trace_id == context.trace_id
    &&& !response.envelope.error.retryable
    &&& response.envelope.error.details == details_of(error)
    &&& meta_matches(response.envelope.meta, config, context, schema_name, None, seq![])
    &&& is_recorded_now(response.envelope.meta.audit.recorded_at@)
}

impl AppError {
    /// A configuration error.
    pub fn configuration(message: String) -> (e: AppError)
        ensures
            e == (AppError::Configuration { message }),
    {
        AppError::Configuration { message }
    }

    /// An error in loading a contract schema.
    pub fn schema_loading(message: String) -> (e: AppError)
        ensures
            e == (AppError::SchemaLoading { message }),
    {
        AppError::SchemaLoading { message }
    }

    /// A request that broke its contract.
    pub fn validation(code: &'static str, message: String, details: Option<ErrorDetails>) -> (e:
        AppError)
        ensures
            e == (AppError::Validation { code, message, details }),
    {
        AppError::Validation { code, message, details }
    }

    /// A request for something that does not exist.
    pub fn not_found(code: &'static str, message: String, details: Option<ErrorDetails>) -> (e:
        AppError)
        ensures
            e == (AppError::NotFound { code, message, details }),
    {
        AppError::NotFound { code, message, details }
    }

    /// The message of the error: what its `Display` writes.
    pub fn message(&self) -> (m: &String)
        ensures
            *m == message_of(*self),
    {
        match self {
            AppError::Configuration { message } => message,
            AppError::SchemaLoading { message } => message,
            AppError::Validation { message, .. } => message,
            AppError::NotFound { message, .. } => message,
        }
    }

    /// The error response to the request `context` for this error, written
    /// against `schema_name`.
    pub fn into_response_with_context(
        self,
        config: &AppConfig,
        context: &RequestContext,
        schema_name: &str,
    ) -> (response: ErrorResponse)
        ensures
            answers(response, self, *config, *context, schema_name@),
    {
        let ghost error = self;
        let (status, code, message, details, retryable) = match self {
            AppError::Configuration { message } => (
                500u16,
                owned("CONFIGURATION_ERROR"),
                message,
                None,
                false,
            ),
            AppError::SchemaLoading { message } => (
                500u16,
                owned("SCHEMA_LOADING_FAILED"),
                message,
                None,
                false,
            ),
            AppError::Validation { code, message, details } => (
                400u16,
                owned(code),
                message,
                details,
                false,
            ),
            AppError::NotFound { code, message, details } => (
                404u16,
                owned(code),
                message,
                details,
                false,
            ),
        };
        let envelope = ErrorEnvelope::from_context(
            config,
            context,
            schema_name,
            code,
            message,
            details,
            retryable,
        );
        ErrorResponse { status, envelope }
    }
}

impl ErrorEnvelope {
    /// The body of an error response to the request `context`.
    pub fn from_context(
        config: &AppConfig,
        context: &RequestContext,
        schema_name: &str,
        code: String,
        message: String,
        details: Option<ErrorDetails>,
        retryable: bool,
    ) -> (envelope: ErrorEnvelope)
        ensures
            !envelope.success,
            envelope.error.code == code,
            envelope.error.message == message,
            envelope.error.trace_id == context.trace_id,
            envelope.error.retryable == retryable,
            envelope.error.details == details,
            meta_matches(envelope.meta, *config, *context, schema_name@, None, seq![]),
            is_recorded_now(envelope.meta.audit.recorded_at@),
    {
        ErrorEnvelope {
            success: false,
            error: ErrorBody {
                code,
                message,
                trace_id: context.trace_id.clone(),
                retryable,
                details,
            },
            meta: ResponseMeta::from_context(config, context, schema_name, None, Vec::new()),
        }
    }
}

} // verus!
