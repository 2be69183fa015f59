pub mod signal_decision;
pub mod signal_ingestion;
