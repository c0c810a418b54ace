//! The request on whose behalf an operation runs.

pub mod ctx;

pub use ctx::Ctx;
