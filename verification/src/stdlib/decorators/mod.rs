//! The standard decorators.

pub mod model_field_decorators;
