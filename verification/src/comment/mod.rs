//! Documentation comments carried over from the schema.

pub mod comment;
