//! The tagged-union runtime value and its ordered dictionary.

pub mod decimal;
pub mod interface_enum_variant;
pub mod value;
