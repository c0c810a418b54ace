//! The standard pipeline items.

pub mod identity;
pub mod math;
pub mod string;
