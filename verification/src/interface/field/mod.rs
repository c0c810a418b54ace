//! The fields of an interface.

pub mod decorator;
pub mod field;
