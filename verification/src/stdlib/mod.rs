//! The decorators and pipeline items that every schema can use.

pub mod decorators;
pub mod pipeline_items;
