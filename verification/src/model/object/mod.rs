//! The record object: one row of one model, with its dirty tracking and its
//! pending relation mutations.

pub mod arena;
pub mod copy;
pub mod delete;
pub mod hydrate;
pub mod identifier;
pub mod input;
pub mod laws;
pub mod fetch;
pub mod link;
pub mod linking;
pub mod machine;
pub mod nested;
pub mod object;
pub mod property;
pub mod refresh;
pub mod relations;
pub mod save;
pub mod script;
pub mod on_save;
pub mod operation;
pub mod select;
pub mod set_teon;
pub mod to_json;
pub mod tracking;
pub mod update;
pub mod validate;
