use vstd::prelude::*;
use crate::comment::comment::Comment;

verus! {

/// A field of an interface.
#[derive(Debug)]
pub struct Field {
    pub name: String,
    pub comment: Option<Comment>,
    pub optional: bool,
}

impl Field {
    /// A required field without name or comment.
    pub fn new() -> (field: Field)
        ensures
            field.name@.len() == 0,
            field.comment is None,
            !field.optional,
    {
        Field { name: String::new(), comment: None, optional: false }
    }

    pub fn set_optional(&mut self)
        ensures
            final(self).optional,
            final(self).name == old(self).name,
            final(self).comment == old(self).comment,
    {
        self.optional = true;
    }

    pub fn set_required(&mut self)
        ensures
            !final(self).optional,
            final(self).name == old(self).name,
            final(self).comment == old(self).comment,
    {
        self.optional = false;
    }
}

} // verus!
