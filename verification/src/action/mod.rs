//! The bitset that names the operation under way.

pub mod action;
