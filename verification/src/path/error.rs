use vstd::prelude::*;
use crate::path::key_path::{ItemView, KeyPath};

verus! {

/// What went wrong.
#[derive(Debug, Copy, Clone, PartialEq, Eq, Structural)]
pub enum ErrorKind {
    /// A name that is no field, relation or property of the model.
    InvalidKey,
    /// A value could not be coerced to the type asked for.
    TypeError,
    /// A validator or a write rule rejected a value.
    ValueError,
    /// A value that the optionality of its field asks for is missing.
    MissingRequiredInput,
    /// A permission pipeline did not pass.
    PermissionDenied,
    /// The store held no row where one was required.
    NotFound,
    /// A relation with the delete rule deny still has related rows.
    DeletionDenied,
    /// A one-to-one relation that must not be empty would lose its record.
    CannotDisconnectPreviousRelation,
    /// The operation is not allowed in the current state.
    InvalidOperation,
    /// The store failed.
    StoreError,
}

/// An error of the runtime, with the place in the input that it is about.
#[derive(Debug, PartialEq, Eq)]
pub struct Error {
    pub kind: ErrorKind,
    pub message: String,
    pub path: Option<KeyPath>,
}

/// The mathematical content of an [`Error`].
pub struct ErrorView {
    pub kind: ErrorKind,
    pub message: Seq<char>,
    pub path: Option<Seq<ItemView>>,
}

impl View for Error {
    type V = ErrorView;

    open spec fn view(&self) -> ErrorView {
        ErrorView {
            kind: self.kind,
            message: self.message@,
            path: match self.path {
                Some(path) => Some(path@),
                None => None,
            },
        }
    }
}

impl Clone for Error {
    fn clone(&self) -> (copy: Self)
        ensures
            copy@ == self@,
    {
        Error {
            kind: self.kind,
            message: self.message.clone(),
            path: match &self.path {
                Some(path) => Some(path.clone()),
                None => None,
            },
        }
    }
}

impl Error {
    /// An error of a kind with a message and no path.
    pub fn new(kind: ErrorKind, message: &str) -> (error: Error)
        ensures
            error@ == (ErrorView { kind, message: message@, path: None }),
    {
        Error { kind, message: message.to_owned(), path: None }
    }

    /// An error of a kind with a message, at a path.
    pub fn at(kind: ErrorKind, message: &str, path: &KeyPath) -> (error: Error)
        ensures
            error@ == (ErrorView { kind, message: message@, path: Some(path@) }),
    {
        Error { kind, message: message.to_owned(), path: Some(path.clone()) }
    }

    /// The same error with `prefix`, a colon and a space before its message.
    pub fn message_prefixed(&self, prefix: &str) -> (error: Error)
        ensures
            error@ == (ErrorView { message: prefix@ + ": "@ + self.message@, ..self@ }),
    {
        let mut message = prefix.to_owned();
        message.append(": ");
        message.append(self.message.as_str());
        Error {
            kind: self.kind,
            message,
            path: match &self.path {
                Some(path) => Some(path.clone()),
                None => None,
            },
        }
    }
}

} // verus!
