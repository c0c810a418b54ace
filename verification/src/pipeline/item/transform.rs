use vstd::prelude::*;
use crate::path::error::Error;

verus! {

/// What a transforming item returns: a value, or a value or an error.
#[derive(Debug)]
pub enum TransformResult<T> {
    Object(T),
    Result(Result<T, Error>),
}

impl<T> TransformResult<T> {
    /// The value or the error that the result stands for.
    pub open spec fn spec_flatten(self) -> Result<T, Error> {
        match self {
            TransformResult::Object(value) => Ok(value),
            TransformResult::Result(result) => result,
        }
    }

    /// The value or the error that the result stands for.
    pub fn flatten(self) -> (result: Result<T, Error>)
        ensures
            result == self.spec_flatten(),
    {
        match self {
            TransformResult::Object(value) => Ok(value),
            TransformResult::Result(result) => result,
        }
    }

    /// A result that holds a value.
    pub fn from_object(value: T) -> (result: Self)
        ensures
            result == TransformResult::Object(value),
    {
        TransformResult::Object(value)
    }

    /// A result that holds a value or an error.
    pub fn from_result(result: Result<T, Error>) -> (transformed: Self)
        ensures
            transformed == TransformResult::Result(result),
    {
        match result {
            Ok(t) => TransformResult::Result(Ok(t)),
            Err(err) => TransformResult::Result(Err(err)),
        }
    }
}

} // verus!
