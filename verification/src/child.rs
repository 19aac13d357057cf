//! Child-side bootstrap and status reporting.

pub mod bootstrap;
pub mod status_reporter;
