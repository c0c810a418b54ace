//! Interfaces declared by a schema.

pub mod field;
