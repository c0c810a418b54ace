//! What a pipeline item hands back.

pub mod item;
pub mod transform;
pub mod validator;
