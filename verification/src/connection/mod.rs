//! Handles to the store.

pub mod transaction;
