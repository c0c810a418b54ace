//! One fetcher for each kind of expression.

pub mod fetch_identifier;
pub mod fetch_pipeline;
