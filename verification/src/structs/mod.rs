//! Instances of structs declared by a schema.

pub mod object;
