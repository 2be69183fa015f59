//! The identifiers that tie a request to its trace.
use vstd::prelude::*;
use crate::ids::{is_uuid_v4_text, new_v4_text};

verus! {

/// The identifiers of one request: its own, its trace's and its correlation's.
pub struct RequestContext {
    pub request_id: String,
    pub trace_id: String,
    pub correlation_id: String,
}

/// The identifier kept for one header: the header's value where the request
/// carries one, a fresh random identifier where it does not.
pub open spec fn resolved_id(header: Option<String>, id: String) -> bool {
    match header {
        Some(value) => id == value,
        None => is_uuid_v4_text(id@),
    }
}

/// The header's value, or a fresh random identifier.
fn id_or_fresh(header: Option<String>) -> (id: String)
    ensures
        resolved_id(header, id),
        header matches Some(value) ==> id == value,
        header is None ==> is_uuid_v4_text(id@),
{
    match header {
        Some(value) => value,
        None => new_v4_text(),
    }
}

impl RequestContext {
    /// The context of a request whose `x-request-id`, `x-trace-id` and
    /// `x-correlation-id` headers hold the given text (`None` where a header is
    /// absent or not visible ASCII): each identifier is the header's value, or a
    /// fresh random UUID where there is none.
    pub fn from_headers(
        request_id: Option<String>,
        trace_id: Option<String>,
        correlation_id: Option<String>,
    ) -> (context: RequestContext)
        ensures
            resolved_id(request_id, context.request_id),
            resolved_id(trace_id, context.trace_id),
            resolved_id(correlation_id, context.correlation_id),
            request_id matches Some(value) ==> context.request_id == value,
            trace_id matches Some(value) ==> context.trace_id == value,
            correlation_id matches Some(value) ==> context.correlation_id == value,
    {
        let request_id = id_or_fresh(request_id);
        let trace_id = id_or_fresh(trace_id);
        let correlation_id = id_or_fresh(correlation_id);
        RequestContext { request_id, trace_id, correlation_id }
    }
}

/// A header that is present is kept as the identifier, whatever its value; a
/// fresh identifier stands only for a header that is absent.
pub proof fn law_present_header_kept(header: Option<String>, id: String)
    requires
        resolved_id(header, id),
    ensures
        header matches Some(value) ==> id == value,
        header is None ==> is_uuid_v4_text(id@),
{
}

} // verus!
