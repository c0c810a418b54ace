use vstd::prelude::*;
use crate::action::action::Action;
use crate::path::error::{Error, ErrorKind, ErrorView};
use crate::path::key_path::{ItemView, KeyPath};
use crate::pipeline::ctx::PipelineRef;
use crate::pipeline::item::validator::Validity;
use crate::value::value::Value;

verus! {

/// What the host is asked to do before it resumes an operation.
#[derive(Debug)]
pub enum Request {
    /// Nothing: resume at once.
    Continue,
    /// Call the item at `index` of a pipeline on `value`.
    CallItem {
        pipeline: PipelineRef,
        index: usize,
        value: Value,
        object: Option<usize>,
        path: KeyPath,
        action: Action,
    },
    /// Run the per-action transform of a model on a nested payload.
    TransformAction { model: Vec<String>, value: Value, action: Action, path: KeyPath },
    /// Find the one row of a model that a finder names.
    FindUnique { model: Vec<String>, finder: Value, action: Action },
    /// Find the first row of a model that matches a finder.
    FindFirst { model: Vec<String>, finder: Value, action: Action },
    /// Find every row of a model that matches a finder.
    FindMany { model: Vec<String>, finder: Value, action: Action },
    /// Count the rows of a model that match a finder.
    Count { model: Vec<String>, finder: Value },
    /// Write the record with this number to the store.
    SaveObject { object: usize },
    /// Delete the row of the record with this number from the store.
    DeleteObject { object: usize },
    /// The operation has ended.
    Finished(Result<Returned, Error>),
}

/// What a pipeline item hands back.
#[derive(Debug)]
pub enum ItemOutcome {
    Value(Value),
    Validity(Validity),
    Error(Error),
}

/// What the host answers to a request.
#[derive(Debug)]
pub enum Reply {
    /// The answer to `Continue`.
    Nothing,
    /// The answer to `CallItem`.
    Item(ItemOutcome),
    /// The answer to `TransformAction`.
    Transformed(Result<(Value, Action), Error>),
    /// The answer to `FindUnique` and `FindFirst`.
    Row(Result<Option<Value>, Error>),
    /// The answer to `FindMany`.
    Rows(Result<Vec<Value>, Error>),
    /// The answer to `Count`.
    Count(Result<u64, Error>),
    /// The answer to `SaveObject`: the values that the store generated.
    Saved(Result<Value, Error>),
    /// The answer to `DeleteObject`.
    Deleted(Result<(), Error>),
}

/// What a finished part of an operation hands to the part that started it.
#[derive(Debug, PartialEq)]
pub enum Returned {
    Done,
    Value(Value),
    Record(usize),
    Records(Vec<usize>),
    Flag(bool),
}

/// What a part of an operation is resumed with.
#[derive(Debug)]
pub enum Input {
    /// The part runs for the first time, or again after `Step::Again`.
    Start,
    /// The host's answer to the request that the part emitted.
    Reply(Reply),
    /// The result of the part that this part called.
    Returned(Result<Returned, Error>),
}

/// A part of an operation: what it works on and how far it has come.
#[derive(Debug)]
pub enum Frame {
    Pipeline(crate::pipeline::run::Run),
    SetTeon(crate::model::object::set_teon::SetTeon),
    OnSave(crate::model::object::on_save::OnSave),
    Save(crate::model::object::save::Save),
    Relations(crate::model::object::relations::Relations),
    ToJson(crate::model::object::to_json::ToJson),
    Delete(crate::model::object::delete::Delete),
    Link(crate::model::object::linking::Link),
    Join(crate::model::object::linking::Join),
    Fetch(crate::model::object::fetch::Fetch),
    Script(crate::model::object::script::Script),
    Update(crate::model::object::update::Update),
    Refresh(crate::model::object::refresh::Refresh),
    Property(crate::model::object::property::Property),
}

/// What a part of an operation does next.
#[derive(Debug)]
pub enum Step {
    /// The part waits for the host's answer to a request.
    Emit(Frame, Request),
    /// The part waits for another part, which runs first.
    Call(Frame, Frame),
    /// The part goes on at once.
    Again(Frame),
    /// The part has ended.
    Return(Result<Returned, Error>),
}

/// Whether `step` ends the part with success.
pub open spec fn ends_well(step: Step) -> bool {
    match step {
        Step::Return(Ok(_)) => true,
        _ => false,
    }
}

/// Whether `step` ends the part with the error `error`.
pub open spec fn fails_with(step: Step, error: ErrorView) -> bool {
    match step {
        Step::Return(Err(cause)) => cause@ == error,
        _ => false,
    }
}

/// The error for an answer that does not fit the request.
pub open spec fn unexpected_reply() -> ErrorView {
    ErrorView { kind: ErrorKind::InvalidOperation, message: "unexpected reply"@, path: None }
}

/// The error for an answer that does not fit the request.
pub fn unexpected() -> (error: Error)
    ensures
        error@ == unexpected_reply(),
{
    Error::new(ErrorKind::InvalidOperation, "unexpected reply")
}

/// The error for a record number that the operation does not know.
pub open spec fn unknown_record() -> ErrorView {
    ErrorView { kind: ErrorKind::InvalidOperation, message: "unknown record"@, path: None }
}

/// The error for a model path that the namespace does not know.
pub open spec fn unknown_model() -> ErrorView {
    ErrorView { kind: ErrorKind::InvalidOperation, message: "unknown model"@, path: None }
}

/// The error for a record number that the operation does not know.
pub fn no_record() -> (error: Error)
    ensures
        error@ == unknown_record(),
{
    Error::new(ErrorKind::InvalidOperation, "unknown record")
}

/// The error for a model path that the namespace does not know.
pub fn no_model() -> (error: Error)
    ensures
        error@ == unknown_model(),
{
    Error::new(ErrorKind::InvalidOperation, "unknown model")
}

/// The error of a failed pipeline as a denied permission at `path`.
pub open spec fn denied(cause: ErrorView, path: Seq<ItemView>) -> ErrorView {
    ErrorView { kind: ErrorKind::PermissionDenied, message: cause.message, path: Some(path) }
}

/// The error of a failed pipeline as a denied permission at `path`.
pub fn permission_denied(cause: &Error, path: &KeyPath) -> (error: Error)
    ensures
        error@ == denied(cause@, path@),
{
    Error { kind: ErrorKind::PermissionDenied, message: cause.message.clone(), path: Some(path.clone()) }
}

} // verus!
