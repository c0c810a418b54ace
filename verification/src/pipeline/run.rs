use vstd::prelude::*;
use crate::action::action::Action;
use crate::model::object::machine::{
    unexpected, unexpected_reply, Input, ItemOutcome, Reply, Request,
};
use crate::namespace::namespace::Namespace;
use crate::path::error::{Error, ErrorKind};
use crate::path::key_path::{ItemView, KeyPath};
use crate::pipeline::ctx::{Place, PipelineRef};
use crate::pipeline::item::validator::Validity;
use crate::value::value::{copy_value, Value, ValueView};

verus! {

/// A pipeline under way: the items before `index` have run, and `value` is
/// what the last of them produced.
#[derive(Debug)]
pub struct Run {
    pub pipeline: PipelineRef,
    pub index: usize,
    pub value: Value,
    pub object: Option<usize>,
    pub path: KeyPath,
    pub action: Action,
    pub waiting: bool,
}

/// What a run does next.
#[derive(Debug)]
pub enum RunStep {
    /// The item at the current index is to be called on the current value.
    Call(Run, Request),
    /// Every item has run: the pipeline produced this value.
    Produced(Value),
    /// An item failed or found the value invalid.
    Failed(Error),
}

/// A copy of a place.
pub fn copy_place(place: &Place) -> (copy: Place)
    ensures
        same_place(copy, *place),
{
    match place {
        Place::ModelCanRead => Place::ModelCanRead,
        Place::ModelCanMutate => Place::ModelCanMutate,
        Place::BeforeSave => Place::BeforeSave,
        Place::AfterSave => Place::AfterSave,
        Place::BeforeDelete => Place::BeforeDelete,
        Place::AfterDelete => Place::AfterDelete,
        Place::FieldOnSet(name) => Place::FieldOnSet(name.clone()),
        Place::FieldOnSave(name) => Place::FieldOnSave(name.clone()),
        Place::FieldOnOutput(name) => Place::FieldOnOutput(name.clone()),
        Place::FieldCanRead(name) => Place::FieldCanRead(name.clone()),
        Place::FieldCanMutate(name) => Place::FieldCanMutate(name.clone()),
        Place::FieldDefault(name) => Place::FieldDefault(name.clone()),
        Place::FieldWriteIf(name) => Place::FieldWriteIf(name.clone()),
        Place::FieldPresentIf(name) => Place::FieldPresentIf(name.clone()),
        Place::PropertyGetter(name) => Place::PropertyGetter(name.clone()),
        Place::PropertySetter(name) => Place::PropertySetter(name.clone()),
    }
}

/// Whether two places are the same place.
pub open spec fn same_place(left: Place, right: Place) -> bool {
    left == right
}

/// The number of items of the pipeline that a reference names; none where it
/// names no pipeline.
pub open spec fn spec_length(namespace: &Namespace, pipeline: PipelineRef) -> nat {
    match pipeline.spec_resolve(namespace) {
        Some(found) => found.items.len() as nat,
        None => 0,
    }
}

/// Whether `request` asks for the item at the current index of `run`, on
/// its current value.
pub open spec fn asks_item(run: Run, request: Request) -> bool {
    match request {
        Request::CallItem { pipeline, index, value, object, path, action } => {
            &&& crate::collections::names::names_of(pipeline.model)
                == crate::collections::names::names_of(run.pipeline.model)
            &&& same_place(pipeline.place, run.pipeline.place)
            &&& index == run.index
            &&& value@ == run.value@
            &&& object == run.object
            &&& path@ == run.path@
            &&& action == run.action
        },
        _ => false,
    }
}

/// Whether `step` is what `run` does when it goes on: it asks for the item
/// at its index while there is one, and else ends with its value.
pub open spec fn proceeded(run: Run, namespace: &Namespace, step: RunStep) -> bool {
    match step {
        RunStep::Call(waiting, request) => run.index < spec_length(namespace, run.pipeline)
            && waiting == (Run { waiting: true, ..run }) && asks_item(run, request),
        RunStep::Produced(value) => run.index >= spec_length(namespace, run.pipeline) && value
            == run.value,
        RunStep::Failed(error) => false,
    }
}

/// What a run is after it took in what the item handed back: a value
/// replaces the current value; a verdict of valid leaves it as it is; a
/// verdict of invalid becomes a value error at the path of the run; an
/// error ends the run.
pub open spec fn taken(run: Run, outcome: ItemOutcome) -> Result<Run, Error> {
    match outcome {
        ItemOutcome::Value(value) => Ok(
            Run { index: (run.index + 1) as usize, value, waiting: false, ..run },
        ),
        ItemOutcome::Validity(Validity::Valid) => Ok(
            Run { index: (run.index + 1) as usize, waiting: false, ..run },
        ),
        ItemOutcome::Validity(Validity::Invalid(reason)) => Err(
            Error { kind: ErrorKind::ValueError, message: reason, path: Some(run.path) },
        ),
        ItemOutcome::Error(cause) => Err(cause),
    }
}

/// Whether `step` ends the run with the error for an answer that does not
/// fit.
pub open spec fn refused(step: RunStep) -> bool {
    match step {
        RunStep::Failed(error) => error@ == unexpected_reply(),
        _ => false,
    }
}

/// Whether `step` is what `run` does when it is resumed with `input`.
///
/// A run that waits for an item takes in what the item handed back and goes
/// on; a run that does not wait goes on at once. Any answer that does not
/// fit ends the run with an error.
pub open spec fn resumed(run: Run, namespace: &Namespace, input: Input, step: RunStep) -> bool {
    match input {
        Input::Start => if run.waiting {
            refused(step)
        } else {
            proceeded(run, namespace, step)
        },
        Input::Reply(Reply::Item(outcome)) => if !run.waiting || run.index == usize::MAX {
            refused(step)
        } else {
            match taken(run, outcome) {
                Ok(next) => proceeded(next, namespace, step),
                Err(error) => step == RunStep::Failed(error),
            }
        },
        _ => refused(step),
    }
}

impl Run {
    /// A run of a pipeline that has not started yet.
    pub fn new(pipeline: PipelineRef, value: Value, object: Option<usize>, path: KeyPath, action: Action) -> (run: Run)
        ensures
            run == (Run { pipeline, index: 0, value, object, path, action, waiting: false }),
    {
        Run { pipeline, index: 0, value, object, path, action, waiting: false }
    }

    /// Takes in what the item that was called handed back.
    pub fn take(self, outcome: ItemOutcome) -> (next: Result<Run, Error>)
        requires
            self.index < usize::MAX,
        ensures
            next == taken(self, outcome),
    {
        match outcome {
            ItemOutcome::Value(value) => Ok(
                Run { index: self.index + 1, value, waiting: false, ..self },
            ),
            ItemOutcome::Validity(Validity::Valid) => Ok(
                Run { index: self.index + 1, waiting: false, ..self },
            ),
            ItemOutcome::Validity(Validity::Invalid(reason)) => Err(
                Error { kind: ErrorKind::ValueError, message: reason, path: Some(self.path) },
            ),
            ItemOutcome::Error(cause) => Err(cause),
        }
    }

    /// Goes on with the run: asks for the item at the current index, or ends
    /// with the current value where every item has run.
    pub fn proceed(self, namespace: &Namespace) -> (step: RunStep)
        ensures
            proceeded(self, namespace, step),
    {
        let length = match self.pipeline.resolve(namespace) {
            Some(found) => found.len(),
            None => 0,
        };
        if self.index >= length {
            RunStep::Produced(self.value)
        } else {
            let request = Request::CallItem {
                pipeline: PipelineRef {
                    model: crate::collections::names::copy_names(&self.pipeline.model),
                    place: copy_place(&self.pipeline.place),
                },
                index: self.index,
                value: copy_value(&self.value),
                object: self.object,
                path: self.path.clone(),
                action: self.action,
            };
            RunStep::Call(Run { waiting: true, ..self }, request)
        }
    }

    /// Resumes the run with what the host answered.
    pub fn resume(self, namespace: &Namespace, input: Input) -> (step: RunStep)
        ensures
            resumed(self, namespace, input, step),
    {
        match input {
            Input::Start => {
                if self.waiting {
                    RunStep::Failed(unexpected())
                } else {
                    self.proceed(namespace)
                }
            },
            Input::Reply(Reply::Item(outcome)) => {
                if !self.waiting || self.index == usize::MAX {
                    RunStep::Failed(unexpected())
                } else {
                    match self.take(outcome) {
                        Ok(run) => run.proceed(namespace),
                        Err(error) => RunStep::Failed(error),
                    }
                }
            },
            _ => RunStep::Failed(unexpected()),
        }
    }
}

/// Whether `run` is a fresh run of the pipeline at `place` of the model at
/// `model`, on `value`, for the record `object`, at `path`.
pub open spec fn starts(run: Run, model: Seq<Seq<char>>, place: Place, value: ValueView, object: Option<usize>, path: Seq<ItemView>, action: Action) -> bool {
    &&& crate::collections::names::names_of(run.pipeline.model) == model
    &&& run.pipeline.place == place
    &&& run.index == 0
    &&& run.value@ == value
    &&& run.object == object
    &&& run.path@ == path
    &&& run.action == action
    &&& !run.waiting
}

/// A fresh run of the pipeline at `place` of the model at `model`.
pub fn start(model: &Vec<String>, place: Place, value: Value, object: Option<usize>, path: KeyPath, action: Action) -> (run: Run)
    ensures
        starts(run, crate::collections::names::names_of(*model), place, value@, object, path@, action),
{
    Run::new(
        PipelineRef { model: crate::collections::names::copy_names(model), place },
        value,
        object,
        path,
        action,
    )
}

} // verus!
