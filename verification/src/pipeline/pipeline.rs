use vstd::prelude::*;
use crate::arguments::arguments::Arguments;

verus! {

/// One step of a pipeline: the path of the item to call and the arguments it
/// is bound to.
#[derive(Debug)]
pub struct BoundedItem {
    pub path: Vec<String>,
    pub arguments: Arguments,
}

/// An ordered sequence of bound items. Each item receives the value that the
/// one before it produced.
#[derive(Debug)]
pub struct Pipeline {
    pub items: Vec<BoundedItem>,
}

impl Pipeline {
    /// A pipeline without items, which hands its input back.
    pub fn new() -> (pipeline: Pipeline)
        ensures
            pipeline.items@.len() == 0,
    {
        Pipeline { items: Vec::new() }
    }

    /// Whether the pipeline has no item.
    pub fn is_empty(&self) -> (empty: bool)
        ensures
            empty == (self.items@.len() == 0),
    {
        self.items.len() == 0
    }

    /// The number of items.
    pub fn len(&self) -> (n: usize)
        ensures
            n == self.items@.len(),
    {
        self.items.len()
    }
}

} // verus!
