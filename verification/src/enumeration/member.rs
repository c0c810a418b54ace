use vstd::prelude::*;
use crate::comment::comment::Comment;
use crate::value::value::Value;

verus! {

/// One member of an enum.
#[derive(Debug)]
pub struct Member {
    pub name: String,
    pub value: Value,
    pub comment: Option<Comment>,
}

} // verus!
