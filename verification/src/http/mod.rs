pub mod handlers;
pub mod response;
pub mod trace_context;
