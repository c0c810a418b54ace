use vstd::prelude::*;

verus! {

/// The documentation comment of a declaration.
#[derive(Debug)]
pub struct Comment {
    pub name: Option<String>,
    pub desc: Option<String>,
}

} // verus!
