//! Named arguments bound to decorators and pipeline items.

pub mod arguments;
