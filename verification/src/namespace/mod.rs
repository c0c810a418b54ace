//! The registry of what a schema declares.

pub mod namespace;

pub use namespace::Namespace;
