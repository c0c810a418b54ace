//! The values that expressions of a schema stand for.

pub mod fetchers;
