use vstd::prelude::*;
use crate::model::object::delete::{Delete, DeleteMode};
use crate::model::object::fetch::Fetch;
use crate::model::object::machine::{
    ends_well, unexpected, unexpected_reply, Frame, Input, Reply, Request, Returned, Step,
};
use crate::model::object::object::Object;
use crate::model::object::property::Property;
use crate::model::object::refresh::Refresh;
use crate::model::object::save::{Save, SaveStage};
use crate::model::object::script::as_entries;
use crate::model::object::set_teon::SetTeon;
use crate::model::object::to_json::ToJson;
use crate::model::object::update::Update;
use crate::namespace::namespace::Namespace;
use crate::path::key_path::KeyPath;
use crate::pipeline::run::{resumed, RunStep};
use crate::value::value::{copy_value, Value};

verus! {

/// An operation on records under way.
///
/// The operation decides; the host acts. Each call of `resume` hands the
/// host a request: to call a pipeline item, to ask the store, or just to
/// resume. The host answers with the next call, until the request says
/// that the operation has ended. The records of the operation are numbered;
/// the record that the operation was started on has the number 0.
#[derive(Debug)]
pub struct Operation {
    pub records: Vec<Object>,
    /// The parts of the operation that are under way, the innermost last.
    pub stack: Vec<Frame>,
    /// What the innermost part is resumed with next, where it is not the
    /// answer of the host.
    pub pending: Option<Input>,
}

/// Whether `step`, and the records after it, are what a part of an operation
/// makes of `input`: what its own kind of part makes of it. The run of a
/// pipeline asks for the call of its next item, or ends with the value or the
/// error that the run produced.
#[verifier::opaque]
pub open spec fn stepped(frame: Frame, namespace: &Namespace, earlier: Vec<Object>, later: Vec<Object>, input: Input, step: Step) -> bool {
    match frame {
        Frame::Pipeline(run) => later@ == earlier@ && match step {
            Step::Emit(Frame::Pipeline(next), request) => resumed(
                run,
                namespace,
                input,
                RunStep::Call(next, request),
            ),
            Step::Return(Ok(Returned::Value(value))) => resumed(
                run,
                namespace,
                input,
                RunStep::Produced(value),
            ),
            Step::Return(Err(error)) => resumed(run, namespace, input, RunStep::Failed(error)),
            _ => false,
        },
        Frame::SetTeon(part) => part.set_teon_with_path_and_user_mode_step(
            namespace,
            earlier,
            later,
            input,
            step,
        ),
        Frame::OnSave(part) => part.apply_on_save_pipeline_and_validate_required_fields_step(
            namespace,
            earlier,
            later,
            input,
            step,
        ),
        Frame::Save(part) => part.save_with_session_and_path_and_ignore_step(
            namespace,
            earlier,
            later,
            input,
            step,
        ),
        Frame::Relations(part) => part.perform_relation_manipulations_step(
            namespace,
            earlier,
            later,
            input,
            step,
        ),
        Frame::ToJson(part) => part.to_json_internal_step(namespace, earlier, later, input, step),
        Frame::Delete(part) => part.delete_from_database_step(
            namespace,
            earlier,
            later,
            input,
            step,
        ),
        Frame::Link(part) => part.link_and_save_relation_object_step(
            namespace,
            earlier,
            later,
            input,
            step,
        ),
        Frame::Join(part) => if part.create {
            part.create_join_object_step(namespace, earlier, later, input, step)
        } else {
            part.delete_join_object_step(namespace, earlier, later, input, step)
        },
        Frame::Fetch(part) => part.fetch_relation_objects_step(
            namespace,
            earlier,
            later,
            input,
            step,
        ),
        Frame::Script(part) => part.resume_step(namespace, earlier, later, input, step),
        Frame::Update(part) => part.update_teon_step(namespace, earlier, later, input, step),
        Frame::Refresh(part) => part.refreshed_step(namespace, earlier, later, input, step),
        Frame::Property(part) => part.get_property_step(namespace, earlier, later, input, step),
    }
}

/// Resumes a part of an operation.
pub fn step_frame(frame: Frame, namespace: &Namespace, records: &mut Vec<Object>, input: Input) -> (step: Step)
    ensures
        stepped(frame, namespace, *old(records), *final(records), input, step),
        frame matches Frame::Save(save) ==> (ends_well(step) ==> save.object < final(records).len() && final(records)[save.object as int].is_clean()),
        frame matches Frame::Save(save) ==> (step is Emit ==> save.dirty),
        frame matches Frame::SetTeon(set) ==> (ends_well(step) ==> set.object < final(records).len() && final(records)[set.object as int].is_initialized),
        frame matches Frame::ToJson(json) ==> (json.object < old(records).len() && json.object
            < final(records).len() ==> crate::model::object::to_json::keeps_covered(
            json,
            step,
            namespace,
            old(records)@,
        )),
{
    reveal(stepped);
    match frame {
        Frame::Pipeline(run) => match run.resume(namespace, input) {
            RunStep::Call(run, request) => Step::Emit(Frame::Pipeline(run), request),
            RunStep::Produced(value) => Step::Return(Ok(Returned::Value(value))),
            RunStep::Failed(error) => Step::Return(Err(error)),
        },
        Frame::SetTeon(frame) => frame.set_teon_with_path_and_user_mode(namespace, records, input),
        Frame::OnSave(frame) => frame.apply_on_save_pipeline_and_validate_required_fields(
            namespace,
            records,
            input,
        ),
        Frame::Save(frame) => frame.save_with_session_and_path_and_ignore(
            namespace,
            records,
            input,
        ),
        Frame::Relations(frame) => frame.perform_relation_manipulations(namespace, records, input),
        Frame::ToJson(frame) => frame.to_json_internal(namespace, records, input),
        Frame::Delete(frame) => frame.delete_from_database(namespace, records, input),
        Frame::Link(frame) => frame.link_and_save_relation_object(namespace, records, input),
        Frame::Join(frame) => if frame.create {
            frame.create_join_object(namespace, records, input)
        } else {
            frame.delete_join_object(namespace, records, input)
        },
        Frame::Fetch(frame) => frame.fetch_relation_objects(namespace, records, input),
        Frame::Script(frame) => frame.resume(namespace, records, input),
        Frame::Update(frame) => frame.update_teon(namespace, records, input),
        Frame::Refresh(frame) => frame.refreshed(namespace, records, input),
        Frame::Property(frame) => frame.get_property(namespace, records, input),
    }
}

/// Whether `request` says that the operation refuses to be resumed.
pub open spec fn is_refusal(request: Request) -> bool {
    match request {
        Request::Finished(Err(error)) => error@ == unexpected_reply(),
        _ => false,
    }
}

/// Whether `request` says that the operation has ended well.
pub open spec fn ended_well(request: Request) -> bool {
    match request {
        Request::Finished(Ok(_)) => true,
        _ => false,
    }
}

/// Whether an operation stands as `step` leaves it: `rest` are the parts
/// that wait for the part that made the step, `stack` and `pending` are
/// the parts under way and the next input after the step, and `request`
/// is what the host is asked.
///
/// A part that asks the host waits on the stack for the answer. A part
/// that calls another, or goes on by itself, is resumed at once. What a
/// part returns is handed to the part that waits for it, or ends the
/// operation where none does.
pub open spec fn moved_on(rest: Seq<Frame>, step: Step, stack: Seq<Frame>, pending: Option<Input>, request: Request) -> bool {
    match step {
        Step::Emit(_, Request::Finished(_)) => stack == rest && if rest.len() == 0 {
            is_refusal(request) && pending is None
        } else {
            request is Continue && (pending matches Some(Input::Returned(Err(error))) && error@
                == unexpected_reply())
        },
        Step::Emit(frame, Request::Continue) => stack == rest.push(frame) && pending == Some(
            Input::Start,
        ) && request is Continue,
        Step::Emit(frame, asked) => stack == rest.push(frame) && pending is None && request
            == asked,
        Step::Call(caller, callee) => stack == rest.push(caller).push(callee) && pending == Some(
            Input::Start,
        ) && request is Continue,
        Step::Again(frame) => stack == rest.push(frame) && pending == Some(Input::Start)
            && request is Continue,
        Step::Return(result) => stack == rest && if rest.len() == 0 {
            request == Request::Finished(result) && pending is None
        } else {
            request is Continue && pending == Some(Input::Returned(result))
        },
    }
}

/// The innermost of the parts of an operation that are under way.
pub open spec fn innermost(stack: Seq<Frame>) -> Option<Frame> {
    if stack.len() > 0 {
        Some(stack.last())
    } else {
        None
    }
}

impl Operation {
    /// The input that the innermost part is resumed with next: the one
    /// that the operation holds for it, or else the answer of the host.
    pub open spec fn due(self, reply: Reply) -> Input {
        match self.pending {
            Some(input) => input,
            None => Input::Reply(reply),
        }
    }

    /// Whether `after` and `request` are what the operation makes of the
    /// answer `reply` of the host: the innermost part takes in the input
    /// that is due, which is the answer of the host unless the operation
    /// holds another, and the operation stands as the step of that part
    /// leaves it. An operation that has ended refuses and stays as it is.
    pub open spec fn resumes(self, namespace: &Namespace, reply: Reply, after: Operation, request: Request) -> bool {
        if self.stack.len() == 0 {
            is_refusal(request) && after.records == self.records && after.stack@ == self.stack@
                && after.pending == self.pending
        } else {
            exists|step: Step|
                #[trigger] stepped(
                    self.stack@.last(),
                    namespace,
                    self.records,
                    after.records,
                    self.due(reply),
                    step,
                ) && moved_on(self.stack@.drop_last(), step, after.stack@, after.pending, request)
        }
    }

    /// An operation that starts with `frame` on the record `object`.
    pub fn start(object: Object, frame: Frame) -> (operation: Operation)
        ensures
            operation.records@ == seq![object],
            operation.stack@ == seq![frame],
            operation.pending == Some(Input::Start),
    {
        Operation { records: vec![object], stack: vec![frame], pending: Some(Input::Start) }
    }

    /// The record with this number.
    pub fn record(&self, number: usize) -> (record: Option<&Object>)
        ensures
            match record {
                Some(found) => number < self.records.len() && *found == self.records[number as int],
                None => number >= self.records.len(),
            },
    {
        if number < self.records.len() {
            Some(&self.records[number])
        } else {
            None
        }
    }

    /// The records of the operation, by their numbers.
    pub fn into_records(self) -> (records: Vec<Object>)
        ensures
            records == self.records,
    {
        self.records
    }

    /// Whether the operation has ended.
    pub fn is_finished(&self) -> (finished: bool)
        ensures
            finished == (self.stack.len() == 0),
    {
        self.stack.len() == 0
    }

    /// Resumes the operation with the answer of the host to the request of
    /// the call before, and hands back the next request.
    ///
    /// An operation that has ended refuses to be resumed. A request that
    /// says that the operation has ended is the last one. A save that ends
    /// well leaves its record clean, and the store is asked to write the
    /// row of a record only by a save that found it new or modified.
    pub fn resume(&mut self, namespace: &Namespace, reply: Reply) -> (request: Request)
        ensures
            old(self).resumes(namespace, reply, *final(self), request),
            old(self).stack.len() == 0 ==> is_refusal(request) && final(self).records == old(self).records && final(self).stack@ == old(self).stack@,
            request is Finished ==> final(self).stack.len() == 0 && old(self).stack.len() <= 1,
            ended_well(request) ==> match innermost(old(self).stack@) {
                Some(Frame::Save(save)) => save.object < final(self).records.len() && final(self).records[save.object as int].is_clean(),
                Some(Frame::SetTeon(set)) => set.object < final(self).records.len() && final(self).records[set.object as int].is_initialized,
                Some(_) => true,
                None => false,
            },
            request is SaveObject ==> match innermost(old(self).stack@) {
                Some(Frame::Save(save)) => save.dirty,
                Some(_) => true,
                None => false,
            },
    {
        let frame = match self.stack.pop() {
            Some(frame) => frame,
            None => {
                return Request::Finished(Err(unexpected()));
            },
        };
        let mut pending: Option<Input> = None;
        core::mem::swap(&mut self.pending, &mut pending);
        let input = match pending {
            Some(input) => input,
            None => Input::Reply(reply),
        };
        let ghost rest = self.stack@;
        let ghost top = frame;
        let ghost given = input;
        assert(rest =~= old(self).stack@.drop_last());
        let made = step_frame(frame, namespace, &mut self.records, input);
        let ghost raw = made;
        let step = match made {
            Step::Emit(frame, Request::Finished(_)) => Step::Return(Err(unexpected())),
            Step::Emit(frame, Request::Continue) => Step::Again(frame),
            step => step,
        };
        let request = match step {
            Step::Emit(frame, request) => {
                self.stack.push(frame);
                request
            },
            Step::Call(caller, callee) => {
                self.stack.push(caller);
                self.stack.push(callee);
                self.pending = Some(Input::Start);
                Request::Continue
            },
            Step::Again(frame) => {
                self.stack.push(frame);
                self.pending = Some(Input::Start);
                Request::Continue
            },
            Step::Return(result) => {
                if self.stack.len() == 0 {
                    Request::Finished(result)
                } else {
                    self.pending = Some(Input::Returned(result));
                    Request::Continue
                }
            },
        };
        proof {
            assert(top == old(self).stack@.last());
            assert(given == old(self).due(reply));
            assert(stepped(top, namespace, old(self).records, self.records, given, raw));
            assert(moved_on(rest, raw, self.stack@, self.pending, request));
        }
        request
    }
}

/// Whether `held` is a copy of what `given` refers to, or both are nothing.
pub open spec fn holds_copy(held: Option<Value>, given: Option<&Value>) -> bool {
    match (held, given) {
        (Some(copy), Some(value)) => copy@ == value@,
        (None, None) => true,
        _ => false,
    }
}

/// Whether `operation` has just been started on `object` alone.
pub open spec fn started_on(operation: Operation, object: Object) -> bool {
    &&& operation.records@ == seq![object]
    &&& operation.stack.len() == 1
    &&& operation.pending == Some(Input::Start)
}

impl Object {
    /// Starts the assignment of a payload from the user: the keys of the
    /// payload are checked against the input keys of the model, and the
    /// permission pipelines run.
    pub fn set_teon(self, value: &Value) -> (operation: Operation)
        ensures
            started_on(operation, self),
            operation.stack[0] matches Frame::SetTeon(set) && set.object == 0 && set.payload@
                == crate::model::object::hydrate::row_entries(value@) && set.path@.len() == 0
                && !set.bypass && set.index == 0 && set.stage
                == crate::model::object::set_teon::SetStage::Begin && set.keys@.len() == 0
                && set.held is None,
    {
        let frame = SetTeon::new(0, as_entries(copy_value(value)), KeyPath::new(), false);
        Operation::start(self, Frame::SetTeon(frame))
    }

    /// Starts the assignment of a payload at a path of the input. Keys and
    /// permissions are checked unless `bypass` is set, as it is for
    /// payloads that the runtime makes itself.
    pub fn set_teon_with_path(self, value: &Value, path: &KeyPath, bypass: bool) -> (operation: Operation)
        ensures
            started_on(operation, self),
            operation.stack[0] matches Frame::SetTeon(set) && set.object == 0 && set.payload@
                == crate::model::object::hydrate::row_entries(value@) && set.path@ == path@
                && set.bypass == bypass && set.index == 0 && set.stage
                == crate::model::object::set_teon::SetStage::Begin && set.keys@.len() == 0
                && set.held is None,
    {
        let frame = SetTeon::new(0, as_entries(copy_value(value)), path.clone(), bypass);
        Operation::start(self, Frame::SetTeon(frame))
    }

    /// Starts a partial update from a payload: fields are assigned without
    /// any pipeline, properties through their setters.
    pub fn update_teon(self, value: &Value) -> (operation: Operation)
        ensures
            started_on(operation, self),
            operation.stack[0] matches Frame::Update(update) && update.object == 0
                && update.payload@ == crate::model::object::hydrate::row_entries(value@)
                && update.index == 0 && !update.waiting,
    {
        let frame = Update::new(0, as_entries(copy_value(value)));
        Operation::start(self, Frame::Update(frame))
    }

    /// Starts a save.
    pub fn save(self) -> (operation: Operation)
        ensures
            started_on(operation, self),
            operation.stack[0] matches Frame::Save(save) && save.object == 0 && save.path@.len()
                == 0 && !save.ignore_required_relation && save.stage == SaveStage::Begin
                && !save.dirty,
    {
        Operation::start(self, Frame::Save(Save::new(0, KeyPath::new(), false)))
    }

    /// Starts a save that does not ask for the records of required
    /// relations, as seeding needs it.
    pub fn save_for_seed_without_required_relation(self) -> (operation: Operation)
        ensures
            started_on(operation, self),
            operation.stack[0] matches Frame::Save(save) && save.object == 0 && save.path@.len()
                == 0 && save.ignore_required_relation && save.stage == SaveStage::Begin
                && !save.dirty,
    {
        Operation::start(self, Frame::Save(Save::new(0, KeyPath::new(), true)))
    }

    /// Starts a save at a path of the input.
    pub fn save_with_session_and_path(self, path: &KeyPath) -> (operation: Operation)
        ensures
            started_on(operation, self),
            operation.stack[0] matches Frame::Save(save) && save.object == 0 && save.path@
                == path@ && !save.ignore_required_relation && save.stage == SaveStage::Begin
                && !save.dirty,
    {
        Operation::start(self, Frame::Save(Save::new(0, path.clone(), false)))
    }

    /// Starts a deletion, with the callbacks of the model around it.
    pub fn delete(self) -> (operation: Operation)
        ensures
            started_on(operation, self),
            operation.stack[0] matches Frame::Delete(delete) && delete.object == 0 && delete.mode
                == DeleteMode::Callbacks && delete.stage
                == crate::model::object::delete::DeleteStage::Begin && delete.path@.len() == 0
                && delete.index == 0 && delete.found@.len() == 0 && delete.cursor == 0,
    {
        Operation::start(
            self,
            Frame::Delete(Delete::new(0, KeyPath::new(), DeleteMode::Callbacks)),
        )
    }

    /// Starts a deletion at a path of the input, with the write permission
    /// of the model before it and the callbacks of the model around it.
    pub fn delete_internal(self, path: &KeyPath) -> (operation: Operation)
        ensures
            started_on(operation, self),
            operation.stack[0] matches Frame::Delete(delete) && delete.object == 0 && delete.path@
                == path@ && delete.mode == DeleteMode::Guarded && delete.stage
                == crate::model::object::delete::DeleteStage::Begin && delete.index == 0
                && delete.found@.len() == 0 && delete.cursor == 0,
    {
        Operation::start(self, Frame::Delete(Delete::new(0, path.clone(), DeleteMode::Guarded)))
    }

    /// Starts the output of the record at a path.
    pub fn to_json(self, path: &KeyPath) -> (operation: Operation)
        ensures
            started_on(operation, self),
            operation.stack[0] matches Frame::ToJson(json) && json.object == 0 && json.path@
                == path@ && json.index == 0 && json.output@.len() == 0 && json.stage
                == crate::model::object::to_json::JsonStage::Begin && json.items@.len() == 0
                && json.child == 0,
    {
        Operation::start(self, Frame::ToJson(ToJson::new(0, path.clone())))
    }

    /// Starts the re-reading of the record from the store.
    pub fn refreshed(self, inclusion: Option<&Value>, select: Option<&Value>) -> (operation: Operation)
        ensures
            started_on(operation, self),
            operation.stack[0] matches Frame::Refresh(refresh) && refresh.object == 0
                && !refresh.waiting && holds_copy(refresh.select, select) && holds_copy(
                refresh.inclusion,
                inclusion,
            ),
    {
        let inclusion = match inclusion {
            Some(value) => Some(copy_value(value)),
            None => None,
        };
        let select = match select {
            Some(value) => Some(copy_value(value)),
            None => None,
        };
        Operation::start(self, Frame::Refresh(Refresh::new(0, inclusion, select)))
    }

    /// Starts the fetching of the one record of a to-one relation.
    pub fn fetch_relation_object(self, key: &str, find_unique_arg: Option<&Value>) -> (operation: Operation)
        ensures
            started_on(operation, self),
            operation.stack[0] matches Frame::Fetch(fetch) && fetch.object == 0 && fetch.key@
                == key@ && !fetch.many && !fetch.reuse && fetch.stage
                == crate::model::object::fetch::FetchStage::Begin && holds_copy(
                fetch.arguments,
                find_unique_arg,
            ),
    {
        let arguments = match find_unique_arg {
            Some(value) => Some(copy_value(value)),
            None => None,
        };
        Operation::start(self, Frame::Fetch(Fetch::new(0, key.to_owned(), false, arguments)))
    }

    /// Starts the fetching of the records of a to-many relation.
    pub fn fetch_relation_objects(self, key: &str, find_many_arg: Option<&Value>) -> (operation: Operation)
        ensures
            started_on(operation, self),
            operation.stack[0] matches Frame::Fetch(fetch) && fetch.object == 0 && fetch.key@
                == key@ && fetch.many && !fetch.reuse && fetch.stage
                == crate::model::object::fetch::FetchStage::Begin && holds_copy(
                fetch.arguments,
                find_many_arg,
            ),
    {
        let arguments = match find_many_arg {
            Some(value) => Some(copy_value(value)),
            None => None,
        };
        Operation::start(self, Frame::Fetch(Fetch::new(0, key.to_owned(), true, arguments)))
    }

    /// Starts the fetching of the records of a to-many relation, with the
    /// arguments given.
    pub fn force_get_relation_objects(self, key: &str, find_many_args: &Value) -> (operation: Operation)
        ensures
            started_on(operation, self),
            operation.stack[0] matches Frame::Fetch(fetch) && fetch.object == 0 && fetch.key@
                == key@ && fetch.many && !fetch.reuse && fetch.stage
                == crate::model::object::fetch::FetchStage::Begin && holds_copy(
                fetch.arguments,
                Some(find_many_args),
            ),
    {
        self.fetch_relation_objects(key, Some(find_many_args))
    }

    /// Starts the reading of the one record of a to-one relation: the
    /// record that was fetched before where the relation was fetched, else
    /// the record that the store holds.
    pub fn force_get_relation_object(self, key: &str) -> (operation: Operation)
        ensures
            started_on(operation, self),
            operation.stack[0] matches Frame::Fetch(fetch) && fetch.object == 0 && fetch.key@
                == key@ && !fetch.many && fetch.reuse && fetch.stage
                == crate::model::object::fetch::FetchStage::Begin && fetch.arguments is None,
    {
        let frame = Fetch { reuse: true, ..Fetch::new(0, key.to_owned(), false, None) };
        Operation::start(self, Frame::Fetch(frame))
    }

    /// Starts the assignment of a value to a property through its setter.
    pub fn set_property(self, key: &str, value: Value) -> (operation: Operation)
        ensures
            started_on(operation, self),
            operation.stack[0] matches Frame::Property(property) && property.object == 0
                && property.key@ == key@ && property.value == Some(value) && !property.waiting,
    {
        Operation::start(self, Frame::Property(Property::set(0, key.to_owned(), value)))
    }

    /// Starts the reading of a property: from its cached value, or through
    /// its getter.
    pub fn get_property(self, key: &str) -> (operation: Operation)
        ensures
            started_on(operation, self),
            operation.stack[0] matches Frame::Property(property) && property.object == 0
                && property.key@ == key@ && property.value is None && !property.waiting,
    {
        Operation::start(self, Frame::Property(Property::get(0, key.to_owned())))
    }
}

} // verus!
