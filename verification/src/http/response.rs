//! The envelopes that every response is written in, and their metadata.
use vstd::prelude::*;
use crate::clock::{is_recorded_now, now_rfc3339};
use crate::config::AppConfig;
use crate::http::trace_context::RequestContext;
use crate::text::owned;

verus! {

broadcast use vstd::string::group_string_axioms;

/// The version of this package, as responses report it.
pub open spec fn package_version() -> Seq<char> {
    "0.1.0"@
}

/// A successful response: its data and metadata.
pub struct SuccessEnvelope<T> {
    pub success: bool,
    pub data: T,
    pub meta: ResponseMeta,
}

/// What every response says of itself.
pub struct ResponseMeta {
    pub audit: AuditMetadata,
    pub confidence_band: Option<String>,
    pub warnings: Vec<String>,
    pub trace_id: String,
    pub correlation_id: String,
}

/// The audit record of a response.
pub struct AuditMetadata {
    pub schema: SchemaDescriptor,
    pub trace: TraceMetadata,
    pub recorded_at: String,
    pub tags: Vec<String>,
}

/// The contract schema a response is written against.
pub struct SchemaDescriptor {
    pub contract_version: &'static str,
    pub schema_name: String,
    pub schema_revision: u32,
    pub package_version: &'static str,
}

/// The trace a response belongs to.
pub struct TraceMetadata {
    pub request_id: String,
    pub trace_id: String,
    pub correlation_id: String,
    pub actor_service: &'static str,
    pub environment: String,
}

/// The view of an optional borrowed string.
pub open spec fn opt_str_view(o: Option<&str>) -> Option<Seq<char>> {
    match o {
        Some(s) => Some(s@),
        None => None,
    }
}

/// `meta` is the metadata of a response written against `schema_name` for the
/// request `context`, under `config`, with the given band and warnings; the
/// moment it was recorded aside.
pub open spec fn meta_matches(
    meta: ResponseMeta,
    config: AppConfig,
    context: RequestContext,
    schema_name: Seq<char>,
    confidence_band: Option<Seq<char>>,
    warnings: Seq<String>,
) -> bool {
    &&& meta.audit.schema.contract_version@ == "v1"@
    &&& meta.audit.schema.schema_name@ == schema_name
    &&& meta.audit.schema.schema_revision == 0
    &&& meta.audit.schema.package_version@ == package_version()
    &&& meta.audit.trace.request_id == context.request_id
    &&& meta.audit.trace.trace_id == context.trace_id
    &&& meta.audit.trace.correlation_id == context.correlation_id
    &&& meta.audit.trace.actor_service == config.contract_actor_service
    &&& meta.audit.trace.environment == config.environment
    &&& meta.audit.tags@.len() == 0
    &&& crate::text::opt_view(meta.confidence_band) == confidence_band
    &&& meta.warnings@ == warnings
    &&& meta.trace_id == context.trace_id
    &&& meta.correlation_id == context.correlation_id
}

impl<T> SuccessEnvelope<T> {
    /// A successful response carrying `data`.
    pub fn new(data: T, meta: ResponseMeta) -> (envelope: Self)
        ensures
            envelope.success,
            envelope.data == data,
            envelope.meta == meta,
    {
        SuccessEnvelope { success: true, data, meta }
    }
}

impl ResponseMeta {
    /// The metadata of a response, recorded at `recorded_at`.
    pub fn from_context_at(
        config: &AppConfig,
        context: &RequestContext,
        schema_name: &str,
        confidence_band: Option<&str>,
        warnings: Vec<String>,
        recorded_at: String,
    ) -> (meta: ResponseMeta)
        ensures
            meta_matches(
                meta,
                *config,
                *context,
                schema_name@,
                opt_str_view(confidence_band),
                warnings@,
            ),
            meta.audit.recorded_at == recorded_at,
    {
        let confidence_band = match confidence_band {
            Some(band) => Some(owned(band)),
            None => None,
        };
        ResponseMeta {
            audit: AuditMetadata {
                schema: SchemaDescriptor {
                    contract_version: "v1",
                    schema_name: owned(schema_name),
                    schema_revision: 0,
                    package_version: "0.1.0",
                },
                trace: TraceMetadata {
                    request_id: context.request_id.clone(),
                    trace_id: context.trace_id.clone(),
                    correlation_id: context.correlation_id.clone(),
                    actor_service: config.contract_actor_service,
                    environment: config.environment.clone(),
                },
                recorded_at,
                tags: Vec::new(),
            },
            confidence_band,
            warnings,
            trace_id: context.trace_id.clone(),
            correlation_id: context.correlation_id.clone(),
        }
    }

    /// The metadata of a response, recorded now.
    pub fn from_context(
        config: &AppConfig,
        context: &RequestContext,
        schema_name: &str,
        confidence_band: Option<&str>,
        warnings: Vec<String>,
    ) -> (meta: ResponseMeta)
        ensures
            meta_matches(
                meta,
                *config,
                *context,
                schema_name@,
                opt_str_view(confidence_band),
                warnings@,
            ),
            is_recorded_now(meta.audit.recorded_at@),
    {
        let recorded_at = now_rfc3339();
        Self::from_context_at(config, context, schema_name, confidence_band, warnings, recorded_at)
    }
}

} // verus!
