use vstd::prelude::*;

verus! {

/// A handle to the request on whose behalf records are read and written.
#[derive(Debug, Copy, Clone, PartialEq, Eq, Structural)]
pub struct Ctx {
    pub id: u64,
}

} // verus!
