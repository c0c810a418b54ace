use vstd::prelude::*;

verus! {

/// A handle to the transaction in which records are read and written. All
/// records born within one transaction carry the same handle.
#[derive(Debug, Copy, Clone, PartialEq, Eq, Structural)]
pub struct Ctx {
    pub id: u64,
}

} // verus!
