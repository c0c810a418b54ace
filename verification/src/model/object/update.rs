use vstd::prelude::*;
use crate::collections::names::names_of;
use crate::model::model::Model;
use crate::model::object::machine::{
    ends_well, fails_with, no_model, no_record, unexpected, unexpected_reply, Frame, Input,
    Returned, Step,
};
use crate::model::object::object::{assign, invalid_key_error, Object};
use crate::model::object::set_teon::{others_same, unexpected_input_type};
use crate::model::object::validate::check_user_json_keys;
use crate::namespace::namespace::Namespace;
use crate::path::error::{Error, ErrorKind};
use crate::path::key_path::{ItemView, KeyPath};
use crate::pipeline::ctx::Place;
use crate::value::value::{copy_value, Dictionary, ValueView};

verus! {

/// A partial update from a payload under way: the entries of the payload
/// before `index` are done.
#[derive(Debug)]
pub struct Update {
    pub object: usize,
    pub payload: Dictionary,
    pub index: usize,
    pub waiting: bool,
}

impl Update {
    /// An update of the record numbered `object` that has not started yet.
    pub fn new(object: usize, payload: Dictionary) -> (frame: Update)
        ensures
            frame == (Update { object, payload, index: 0, waiting: false }),
    {
        Update { object, payload, index: 0, waiting: false }
    }

    /// Whether the frame knows its record and the record's model.
    pub open spec fn grounded(&self, namespace: &Namespace, records: Seq<Object>) -> bool {
        &&& self.object < records.len()
        &&& namespace.spec_model(names_of(records[self.object as int].model_path)) is Some
    }

    /// The model of the frame's record.
    pub open spec fn model(&self, namespace: &Namespace, records: Seq<Object>) -> Model {
        namespace.spec_model(names_of(records[self.object as int].model_path))->0
    }

    /// Whether `step`, and the records after it, are what
    /// [`Update::next_entry`] makes of the update as it stands.
    pub open spec fn next_entry_step(self, namespace: &Namespace, earlier: Vec<Object>, later: Vec<Object>, step: Step) -> bool {
        &&& others_same(earlier@, later@, self.object)
        &&& !self.grounded(namespace, earlier@) ==> step is Return && !ends_well(step)
        &&& ends_well(step) ==> self.index >= self.payload@.len() && later[self.object as int].is_initialized
        &&& (self.grounded(namespace, earlier@) ==> {
            let model = self.model(namespace, earlier@);
            let before = earlier[self.object as int];
            let refused = crate::collections::names::first_where(
                crate::model::object::validate::entry_keys(self.payload@),
                |key: Seq<char>| !names_of(model.cache.input_keys).contains(key),
            );
            if self.index == 0 && refused < self.payload@.len() {
                fails_with(
                    step,
                    crate::model::object::validate::key_not_allowed(
                        self.payload@[refused].0,
                        crate::model::object::validate::model_name(&model),
                    ),
                ) && later@ == earlier@
            } else if self.index >= self.payload@.len() {
                step == Step::Return(Ok(Returned::Done)) && later[self.object as int]
                    == (Object { is_initialized: true, ..before })
            } else {
                let key = self.payload@[self.index as int].0;
                let value = self.payload@[self.index as int].1;
                if model.spec_field(key) is Some {
                    if names_of(model.cache.save_keys_and_virtual_keys).contains(key) {
                        &&& step == Step::Again(
                            Frame::Update(
                                Update { index: (self.index + 1) as usize, ..self },
                            ),
                        )
                        &&& later[self.object as int].tracking() == assign(
                            before.tracking(),
                            before.is_new,
                            &model,
                            key,
                            value,
                        )
                        &&& later[self.object as int].same_besides_values(&before)
                    } else {
                        fails_with(step, invalid_key_error(key)) && later@ == earlier@
                    }
                } else if let Some(property) = model.spec_property(key) {
                    later@ == earlier@ && if property.setter is Some {
                        step matches Step::Call(Frame::Update(next), callee) && next == (
                        Update { waiting: true, ..self }) && runs_setter(
                            callee,
                            names_of(before.model_path),
                            key,
                            value,
                            self.object,
                            before.action,
                        )
                    } else {
                        fails_with(step, unexpected_input_type(seq![ItemView::Key(key)]))
                    }
                } else {
                    step == Step::Again(
                        Frame::Update(Update { index: (self.index + 1) as usize, ..self }),
                    ) && later@ == earlier@
                }
            }
        })
    }

    /// Handles the entry of the payload at the index: a field is assigned
    /// without any pipeline, a property has its setter run, any other key
    /// is skipped. Before the first entry the keys of the payload are
    /// checked against the input keys of the model; after the last the
    /// record is initialized and the update ends.
    pub fn next_entry(self, namespace: &Namespace, records: &mut Vec<Object>) -> (step: Step)
        requires
            self.index < usize::MAX,
        ensures
            self.next_entry_step(namespace, *old(records), *final(records), step),
    {
        if self.object >= records.len() {
            return Step::Return(Err(no_record()));
        }
        let model = match namespace.model_at_path(&records[self.object].model_path) {
            Some(model) => model,
            None => {
                return Step::Return(Err(no_model()));
            },
        };
        if self.index == 0 {
            match check_user_json_keys(&self.payload, &model.cache.input_keys, model) {
                Err(error) => {
                    return Step::Return(Err(error));
                },
                Ok(()) => {},
            }
        }
        let (key, value) = match self.payload.entry_at(self.index) {
            Some((key, value)) => (key.clone(), copy_value(value)),
            None => {
                records[self.object].is_initialized = true;
                return Step::Return(Ok(Returned::Done));
            },
        };
        if model.field(key.as_str()).is_some() {
            match records[self.object].set_value(model, key.as_str(), value) {
                Err(error) => {
                    assert(records@ =~= old(records)@);
                    Step::Return(Err(error))
                },
                Ok(()) => Step::Again(Frame::Update(Update { index: self.index + 1, ..self })),
            }
        } else if let Some(property) = model.property(key.as_str()) {
            let path = KeyPath::new().with_key(key.as_str());
            assert(path@ =~= seq![ItemView::Key(key@)]);
            if property.setter.is_none() {
                return Step::Return(
                    Err(Error::at(ErrorKind::TypeError, "unexpected input type", &path)),
                );
            }
            let record = &records[self.object];
            let run = crate::pipeline::run::start(
                &record.model_path,
                Place::PropertySetter(key),
                value,
                Some(self.object),
                path,
                record.action,
            );
            Step::Call(Frame::Update(Update { waiting: true, ..self }), Frame::Pipeline(run))
        } else {
            Step::Again(Frame::Update(Update { index: self.index + 1, ..self }))
        }
    }

    /// Whether `step`, and the records after it, are what the update makes of
    /// `input`: each stage takes in what it waits for, and any other input ends
    /// the update with an error and leaves the records as they are.
    pub open spec fn update_teon_step(self, namespace: &Namespace, earlier: Vec<Object>, later: Vec<Object>, input: Input, step: Step) -> bool {
        &&& others_same(earlier@, later@, self.object)
        &&& ends_well(step) ==> self.object < later.len() && later[self.object as int].is_initialized
        &&& self.waiting && self.index < usize::MAX ==> match input {
            Input::Returned(Err(cause)) => step == Step::Return(Err(cause)),
            Input::Returned(Ok(_)) => step == Step::Again(
                Frame::Update(
                    Update { index: (self.index + 1) as usize, waiting: false, ..self },
                ),
            ),
            _ => fails_with(step, unexpected_reply()),
        }
        &&& if self.index == usize::MAX {
            fails_with(step, unexpected_reply()) && later@ == earlier@
        } else {
            match (self.waiting, input) {
                (false, Input::Start) => self.next_entry_step(namespace, earlier, later, step),
                (true, Input::Returned(Err(cause))) => step == Step::Return(Err(cause)) && later@ == earlier@,
                (true, Input::Returned(Ok(_))) => step == Step::Again(
                    Frame::Update(Update { index: (self.index + 1) as usize, waiting: false, ..self }),
                ) && later@ == earlier@,
                _ => fails_with(step, unexpected_reply()) && later@ == earlier@,
            }
        }
    }

    /// Resumes the update.
    pub fn update_teon(self, namespace: &Namespace, records: &mut Vec<Object>, input: Input) -> (step: Step)
        ensures
            self.update_teon_step(namespace, *old(records), *final(records), input, step),
    {
        if self.index == usize::MAX {
            return Step::Return(Err(unexpected()));
        }
        match (self.waiting, input) {
            (false, Input::Start) => self.next_entry(namespace, records),
            (true, Input::Returned(Err(cause))) => Step::Return(Err(cause)),
            (true, Input::Returned(Ok(_))) => Step::Again(
                Frame::Update(Update { index: self.index + 1, waiting: false, ..self }),
            ),
            _ => Step::Return(Err(unexpected())),
        }
    }
}

/// Whether `frame` is a fresh run of the setter of the property `key` on
/// `value`, at the path of the key.
pub open spec fn runs_setter(frame: Frame, model: Seq<Seq<char>>, key: Seq<char>, value: ValueView, object: usize, action: crate::action::action::Action) -> bool {
    match frame {
        Frame::Pipeline(run) => names_of(run.pipeline.model) == model && (match run.pipeline.place {
            Place::PropertySetter(name) => name@ == key,
            _ => false,
        }) && run.index == 0 && run.value@ == value && run.object == Some(object) && run.path@
            == seq![ItemView::Key(key)] && run.action == action && !run.waiting,
        _ => false,
    }
}

} // verus!
