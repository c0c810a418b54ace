//! Ordered collections keyed by names.

pub mod key_set;
pub mod names;
pub mod ordered_keys;
pub mod search;
