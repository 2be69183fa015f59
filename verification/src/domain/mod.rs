pub mod decision;
pub mod signal;
