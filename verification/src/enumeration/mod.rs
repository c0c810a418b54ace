//! Enums declared by a schema.

pub mod enumeration;
pub mod member;
