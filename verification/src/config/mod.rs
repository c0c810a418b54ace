//! What a schema configures.

pub mod connector;
