//! What the runtime takes from a parsed schema.

pub mod fetch;
