//! Models, their fields, relations and properties, and the record object.

pub mod decorator;
pub mod field;
pub mod model;
pub mod object;
pub mod property;
pub mod relation;
