use vstd::prelude::*;

verus! {

/// What a decorator of an interface field does to the field.
#[derive(Debug, Copy, Clone, PartialEq, Eq, Structural)]
pub enum Call {
    /// Leaves the field as it is.
    Keep,
    /// Marks the field optional.
    Optional,
    /// Marks the field required.
    Required,
}

/// A decorator that can be written on an interface field.
#[derive(Debug)]
pub struct Decorator {
    pub path: Vec<String>,
    pub call: Call,
}

} // verus!
