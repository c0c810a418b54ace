//! Key paths into nested input and the errors reported at them.

pub mod error;
pub mod key_path;
