//! The log filter the service's tracing is configured with.
use vstd::prelude::*;
use crate::config::AppConfig;
use crate::errors::AppError;
use crate::text::concat2;

verus! {

broadcast use vstd::string::group_string_axioms;

/// A log filter, as `tracing_subscriber` builds it.
#[verifier::external_type_specification]
#[verifier::external_body]
pub struct ExEnvFilter(tracing_subscriber::EnvFilter);

/// The words (its error's `Display`) with which `EnvFilter::try_new` refuses
/// `directives`, or `None` where it reads them.
pub uninterp spec fn log_filter_error(directives: Seq<char>) -> Option<Seq<char>>;

/// Builds a log filter from `directives` with `EnvFilter::try_new`, writing a
/// refusal by its error's `Display`. Trusted: whether a filter comes out, and
/// the words of a refusal, are a function of the directives, and empty
/// directives always give one (as the builder's `parse` shows).
#[verifier::external_body]
pub fn parse_log_filter(directives: &str) -> (res: Result<tracing_subscriber::EnvFilter, String>)
    ensures
        match res {
            Ok(_) => log_filter_error(directives@) is None,
            Err(words) => log_filter_error(directives@) == Some(words@),
        },
        directives@.len() == 0 ==> res is Ok,
{
    tracing_subscriber::EnvFilter::try_new(directives).map_err(|error| error.to_string())
}

/// The log filter for the configured `LOG_LEVEL`, or the configuration error
/// that reports directives it cannot read, followed by the parser's words.
pub fn log_filter(config: &AppConfig) -> (res: Result<tracing_subscriber::EnvFilter, AppError>)
    ensures
        res is Ok == (log_filter_error(config.log_level@) is None),
        res matches Err(e) ==> e matches AppError::Configuration { message }
            && message@ == "invalid LOG_LEVEL: "@ + log_filter_error(config.log_level@)->Some_0,
{
    match parse_log_filter(config.log_level.as_str()) {
        Ok(filter) => Ok(filter),
        Err(words) => Err(AppError::configuration(concat2("invalid LOG_LEVEL: ", words.as_str()))),
    }
}

} // verus!
