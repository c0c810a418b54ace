//! Pipelines: ordered value transformers used for defaults, validation,
//! permissions and callbacks.

pub mod ctx;
pub mod item;
pub mod pipeline;
pub mod run;
