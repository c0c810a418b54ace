//! Runtime core of a schema-driven data server: typed values, the schema
//! registry, pipelines and the record object with its nested mutations.

pub mod action;
pub mod arguments;
pub mod collections;
pub mod config;
pub mod comment;
pub mod connection;
pub mod enumeration;
pub mod handler;
pub mod interface;
pub mod model;
pub mod namespace;
pub mod object;
pub mod path;
pub mod pipeline;
pub mod request;
pub mod schema;
pub mod stdlib;
pub mod structs;
pub mod value;
