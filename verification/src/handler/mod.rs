//! Request handlers declared by a schema.

pub mod default;
pub mod handler;
