//! The standard pipeline items on strings.

pub mod validation;
