use vstd::prelude::*;
use crate::collections::names::text_eq;
use crate::collections::names::{lemma_position, lemma_position_is, position};
use crate::object::{Object, ObjectInner};
use crate::path::error::{Error, ErrorKind, ErrorView};
use crate::path::key_path::{ItemView, KeyPath};
use crate::pipeline::pipeline::Pipeline;
use crate::value::interface_enum_variant::InterfaceEnumVariant;
use crate::value::value::Value;

verus! {

/// The named arguments of a decorator or of a pipeline item, in the order in
/// which they were written.
#[derive(Debug)]
pub struct Arguments {
    pub entries: Vec<(String, Object)>,
}

impl Arguments {
    /// The position of the first argument named `name`, or the number of
    /// arguments when there is none.
    pub open spec fn spec_index(&self, name: Seq<char>) -> int {
        crate::collections::names::position(self.names(), name)
    }

    /// The names of the arguments, in order.
    pub open spec fn names(&self) -> Seq<Seq<char>> {
        Seq::new(self.entries.len() as nat, |i: int| self.entries[i].0@)
    }

    /// The argument named `name`, if there is one.
    pub open spec fn spec_get(&self, name: Seq<char>) -> Option<Object> {
        if self.spec_index(name) < self.entries.len() {
            Some(self.entries[self.spec_index(name)].1)
        } else {
            None
        }
    }

    /// No arguments.
    pub fn new() -> (arguments: Arguments)
        ensures
            arguments.entries@.len() == 0,
    {
        Arguments { entries: Vec::new() }
    }

    /// The argument named `name`, if there is one.
    pub fn get_object(&self, name: &str) -> (found: Option<&Object>)
        ensures
            match found {
                Some(object) => self.spec_get(name@) == Some(*object),
                None => self.spec_get(name@) is None,
            },
    {
        let mut i: usize = 0;
        while i < self.entries.len()
            invariant
                i <= self.entries.len(),
                forall|j: int| 0 <= j < i ==> #[trigger] self.names()[j] != name@,
            decreases self.entries.len() - i,
        {
            if text_eq(self.entries[i].0.as_str(), name) {
                proof {
                    crate::collections::names::lemma_position_is(self.names(), name@, i as int);
                }
                return Some(&self.entries[i].1);
            }
            i += 1;
        }
        proof {
            crate::collections::names::lemma_position(self.names(), name@);
        }
        None
    }
}

/// The error for an argument that is missing or of the wrong kind.
pub open spec fn invalid_argument(name: Seq<char>) -> ErrorView {
    ErrorView {
        kind: ErrorKind::TypeError,
        message: "invalid argument"@,
        path: Some(seq![ItemView::Key(name)]),
    }
}

/// The error for an argument that is missing or of the wrong kind.
pub fn bad_argument(name: &str) -> (error: Error)
    ensures
        error@ == invalid_argument(name@),
{
    let path = KeyPath::new().with_key(name);
    assert(path@ =~= seq![ItemView::Key(name@)]);
    Error::at(ErrorKind::TypeError, "invalid argument", &path)
}

impl Arguments {
    /// The plain value of the argument named `name`.
    pub open spec fn spec_value(&self, name: Seq<char>) -> Option<Value> {
        match self.spec_get(name) {
            Some(object) => match object.inner {
                ObjectInner::Teon(value) => Some(value),
                _ => None,
            },
            None => None,
        }
    }

    /// The pipeline of the argument named `name`.
    pub open spec fn spec_pipeline(&self, name: Seq<char>) -> Option<Pipeline> {
        match self.spec_get(name) {
            Some(object) => match object.inner {
                ObjectInner::Pipeline(pipeline) => Some(pipeline),
                _ => None,
            },
            None => None,
        }
    }

    /// The interface enum variant of the argument named `name`.
    pub open spec fn spec_variant(&self, name: Seq<char>) -> Option<InterfaceEnumVariant> {
        match self.spec_get(name) {
            Some(object) => match object.inner {
                ObjectInner::InterfaceEnumVariant(variant) => Some(variant),
                _ => None,
            },
            None => None,
        }
    }

    /// Takes the argument named `name` out of the arguments.
    pub fn take(&mut self, name: &str) -> (taken: Option<Object>)
        ensures
            taken == old(self).spec_get(name@),
            match taken {
                Some(_) => final(self).entries@ == old(self).entries@.remove(
                    old(self).spec_index(name@),
                ),
                None => final(self).entries@ == old(self).entries@,
            },
    {
        let mut i: usize = 0;
        while i < self.entries.len()
            invariant
                i <= self.entries.len(),
                *self == *old(self),
                forall|j: int| 0 <= j < i ==> #[trigger] self.names()[j] != name@,
            decreases self.entries.len() - i,
        {
            if text_eq(self.entries[i].0.as_str(), name) {
                proof {
                    lemma_position_is(self.names(), name@, i as int);
                }
                let (_, object) = self.entries.remove(i);
                return Some(object);
            }
            i += 1;
        }
        proof {
            lemma_position(self.names(), name@);
        }
        None
    }

    /// Takes the plain value of the argument named `name` out of the
    /// arguments. An argument that is missing or no plain value is refused.
    pub fn take_value(&mut self, name: &str) -> (result: Result<Value, Error>)
        ensures
            match result {
                Ok(value) => old(self).spec_value(name@) == Some(value),
                Err(error) => old(self).spec_value(name@) is None && error@ == invalid_argument(
                    name@,
                ),
            },
    {
        match self.take(name) {
            Some(object) => match object.inner {
                ObjectInner::Teon(value) => Ok(value),
                _ => Err(bad_argument(name)),
            },
            None => Err(bad_argument(name)),
        }
    }

    /// Takes the plain value of the argument named `name` out of the
    /// arguments, if there is such an argument. An argument that is no
    /// plain value is refused.
    pub fn take_optional_value(&mut self, name: &str) -> (result: Result<Option<Value>, Error>)
        ensures
            match result {
                Ok(Some(value)) => old(self).spec_value(name@) == Some(value),
                Ok(None) => old(self).spec_get(name@) is None,
                Err(error) => old(self).spec_get(name@) is Some && old(self).spec_value(name@)
                    is None && error@ == invalid_argument(name@),
            },
    {
        match self.take(name) {
            Some(object) => match object.inner {
                ObjectInner::Teon(value) => Ok(Some(value)),
                _ => Err(bad_argument(name)),
            },
            None => Ok(None),
        }
    }

    /// Takes the pipeline of the argument named `name` out of the
    /// arguments. An argument that is missing or no pipeline is refused.
    pub fn take_pipeline(&mut self, name: &str) -> (result: Result<Pipeline, Error>)
        ensures
            match result {
                Ok(pipeline) => old(self).spec_pipeline(name@) == Some(pipeline),
                Err(error) => old(self).spec_pipeline(name@) is None && error@
                    == invalid_argument(name@),
            },
    {
        match self.take(name) {
            Some(object) => match object.inner {
                ObjectInner::Pipeline(pipeline) => Ok(pipeline),
                _ => Err(bad_argument(name)),
            },
            None => Err(bad_argument(name)),
        }
    }

    /// Takes the interface enum variant of the argument named `name` out
    /// of the arguments. An argument that is missing or no such variant is
    /// refused.
    pub fn take_variant(&mut self, name: &str) -> (result: Result<InterfaceEnumVariant, Error>)
        ensures
            match result {
                Ok(variant) => old(self).spec_variant(name@) == Some(variant),
                Err(error) => old(self).spec_variant(name@) is None && error@ == invalid_argument(
                    name@,
                ),
            },
    {
        match self.take(name) {
            Some(object) => match object.inner {
                ObjectInner::InterfaceEnumVariant(variant) => Ok(variant),
                _ => Err(bad_argument(name)),
            },
            None => Err(bad_argument(name)),
        }
    }
}

} // verus!
