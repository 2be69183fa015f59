//! The verified core of the phantom-strike-core service.
pub mod clock;
pub mod config;
pub mod contracts;
pub mod domain;
pub mod errors;
pub mod http;
pub mod ids;
pub mod json;
pub mod observability;
pub mod services;
pub mod text;
