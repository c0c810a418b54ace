use vstd::prelude::*;
use crate::collections::names::names_of;
use crate::model::model::Model;
use crate::model::object::machine::{
    fails_with, no_model, no_record, unexpected, unexpected_reply, Frame, Input, Returned, Step,
};
use crate::model::object::object::{invalid_key, invalid_key_error, Object};
use crate::model::object::set_teon::others_same;
use crate::model::object::update::runs_setter;
use crate::namespace::namespace::Namespace;
use crate::path::error::{Error, ErrorKind, ErrorView};
use crate::path::key_path::{ItemView, KeyPath};
use crate::pipeline::ctx::Place;
use crate::value::value::{copy_value, Value};

verus! {

/// The reading or the assignment of a property of the record numbered
/// `object`.
#[derive(Debug)]
pub struct Property {
    pub object: usize,
    pub key: String,
    /// The value to assign; `None` where the property is read.
    pub value: Option<Value>,
    pub waiting: bool,
}

/// The error for a property that has no pipeline for what is asked of it.
pub open spec fn no_accessor(key: Seq<char>) -> ErrorView {
    ErrorView {
        kind: ErrorKind::InvalidOperation,
        message: "property has no accessor"@,
        path: Some(seq![ItemView::Key(key)]),
    }
}

/// Whether `frame` is a fresh run of the getter of the property `key` on
/// null, at the path of the key.
pub open spec fn runs_getter(frame: Frame, model: Seq<Seq<char>>, key: Seq<char>, object: usize, action: crate::action::action::Action) -> bool {
    match frame {
        Frame::Pipeline(run) => names_of(run.pipeline.model) == model && (match run.pipeline.place {
            Place::PropertyGetter(name) => name@ == key,
            _ => false,
        }) && run.index == 0 && run.value@ is Null && run.object == Some(object) && run.path@
            == seq![ItemView::Key(key)] && run.action == action && !run.waiting,
        _ => false,
    }
}

impl Property {
    /// The reading of the property `key`, not started yet.
    pub fn get(object: usize, key: String) -> (frame: Property)
        ensures
            frame == (Property { object, key, value: None, waiting: false }),
    {
        Property { object, key, value: None, waiting: false }
    }

    /// The assignment of `value` to the property `key`, not started yet.
    pub fn set(object: usize, key: String, value: Value) -> (frame: Property)
        ensures
            frame == (Property { object, key, value: Some(value), waiting: false }),
    {
        Property { object, key, value: Some(value), waiting: false }
    }

    /// Whether the frame knows its record, the record's model and the
    /// property.
    pub open spec fn ready(&self, namespace: &Namespace, records: Seq<Object>) -> bool {
        &&& self.object < records.len()
        &&& namespace.spec_model(names_of(records[self.object as int].model_path)) is Some
        &&& self.model(namespace, records).spec_property(self.key@) is Some
    }

    /// The model of the frame's record.
    pub open spec fn model(&self, namespace: &Namespace, records: Seq<Object>) -> Model {
        namespace.spec_model(names_of(records[self.object as int].model_path))->0
    }

    /// Whether `step`, and the records after it, are what [`Property::begin`]
    /// makes of the work on the property as it stands.
    pub open spec fn begin_step(self, namespace: &Namespace, records: &Vec<Object>, step: Step) -> bool {
        &&& self.object < records.len() && namespace.spec_model(
            names_of(records[self.object as int].model_path),
        ) is Some && !self.ready(namespace, records@) ==> fails_with(
            step,
            invalid_key_error(self.key@),
        )
        &&& (self.ready(namespace, records@) ==> {
            let property = self.model(namespace, records@).spec_property(self.key@)->0;
            let record = records[self.object as int];
            match self.value {
                Some(value) => if property.setter is Some {
                    step matches Step::Call(Frame::Property(next), callee) && next == (
                    Property { waiting: true, ..self }) && runs_setter(
                        callee,
                        names_of(record.model_path),
                        self.key@,
                        value@,
                        self.object,
                        record.action,
                    )
                } else {
                    fails_with(step, no_accessor(self.key@))
                },
                None => if property.cached && record.cached_properties().contains_key(
                    self.key@,
                ) {
                    step matches Step::Return(Ok(Returned::Value(value))) && value@
                        == record.cached_properties()[self.key@]
                } else if property.getter is Some {
                    step matches Step::Call(Frame::Property(next), callee) && next == (
                    Property { waiting: true, ..self }) && runs_getter(
                        callee,
                        names_of(record.model_path),
                        self.key@,
                        self.object,
                        record.action,
                    )
                } else {
                    fails_with(step, no_accessor(self.key@))
                },
            }
        })
    }

    /// Starts the work on the property. A key that is no property is
    /// refused. An assignment runs the setter on the value. A reading
    /// hands back the cached value where the property is cached and has
    /// one, and runs the getter else.
    pub fn begin(self, namespace: &Namespace, records: &Vec<Object>) -> (step: Step)
        ensures
            self.begin_step(namespace, records, step),
    {
        if self.object >= records.len() {
            return Step::Return(Err(no_record()));
        }
        let record = &records[self.object];
        let model = match namespace.model_at_path(&record.model_path) {
            Some(model) => model,
            None => {
                return Step::Return(Err(no_model()));
            },
        };
        let property = match model.property(self.key.as_str()) {
            Some(property) => property,
            None => {
                return Step::Return(Err(invalid_key(self.key.as_str())));
            },
        };
        let path = KeyPath::new().with_key(self.key.as_str());
        assert(path@ =~= seq![ItemView::Key(self.key@)]);
        let Property { object, key, value, waiting } = self;
        match value {
            Some(value) => {
                if property.setter.is_none() {
                    return Step::Return(
                        Err(Error::at(ErrorKind::InvalidOperation, "property has no accessor", &path)),
                    );
                }
                let run = crate::pipeline::run::start(
                    &record.model_path,
                    Place::PropertySetter(key.clone()),
                    copy_value(&value),
                    Some(object),
                    path,
                    record.action,
                );
                Step::Call(
                    Frame::Property(Property { object, key, value: Some(value), waiting: true }),
                    Frame::Pipeline(run),
                )
            },
            None => {
                if property.cached {
                    match record.cached_property_map.get(key.as_str()) {
                        Some(cached) => {
                            return Step::Return(Ok(Returned::Value(copy_value(cached))));
                        },
                        None => {},
                    }
                }
                if property.getter.is_none() {
                    return Step::Return(
                        Err(Error::at(ErrorKind::InvalidOperation, "property has no accessor", &path)),
                    );
                }
                let run = crate::pipeline::run::start(
                    &record.model_path,
                    Place::PropertyGetter(key.clone()),
                    Value::Null,
                    Some(object),
                    path,
                    record.action,
                );
                Step::Call(
                    Frame::Property(Property { object, key, value: None, waiting: true }),
                    Frame::Pipeline(run),
                )
            },
        }
    }

    /// Whether `step`, and the records after it, are what
    /// [`Property::after_running`] makes of the work on the property as it
    /// stands.
    pub open spec fn after_running_step(self, namespace: &Namespace, earlier: Vec<Object>, later: Vec<Object>, result: Result<Returned, Error>, step: Step) -> bool {
        &&& others_same(earlier@, later@, self.object)
        &&& match result {
            Err(cause) => step == Step::Return(Err(cause)) && later@ == earlier@,
            Ok(Returned::Value(value)) => match self.value {
                Some(_) => step == Step::Return(Ok(Returned::Done)) && later@ == earlier@,
                None => self.ready(namespace, earlier@) ==> {
                    let property = self.model(namespace, earlier@).spec_property(
                        self.key@,
                    )->0;
                    &&& step == Step::Return(Ok(Returned::Value(value)))
                    &&& later[self.object as int].cached_properties()
                        == if property.cached {
                        earlier[self.object as int].cached_properties().insert(
                            self.key@,
                            value@,
                        )
                    } else {
                        earlier[self.object as int].cached_properties()
                    }
                },
            },
            Ok(_) => later@ == earlier@ && match self.value {
                Some(_) => step == Step::Return(Ok(Returned::Done)),
                None => fails_with(step, unexpected_reply()),
            },
        }
    }

    /// Takes in what the pipeline of the property produced: what a setter
    /// produced is dropped; what a getter produced is handed back, and
    /// cached where the property is cached.
    pub fn after_running(self, namespace: &Namespace, records: &mut Vec<Object>, result: Result<Returned, Error>) -> (step: Step)
        ensures
            self.after_running_step(namespace, *old(records), *final(records), result, step),
    {
        let produced = match result {
            Err(cause) => {
                return Step::Return(Err(cause));
            },
            Ok(produced) => produced,
        };
        if self.value.is_some() {
            return Step::Return(Ok(Returned::Done));
        }
        let value = match produced {
            Returned::Value(value) => value,
            _ => {
                return Step::Return(Err(unexpected()));
            },
        };
        if self.object >= records.len() {
            return Step::Return(Err(no_record()));
        }
        let model = match namespace.model_at_path(&records[self.object].model_path) {
            Some(model) => model,
            None => {
                return Step::Return(Err(no_model()));
            },
        };
        match model.property(self.key.as_str()) {
            Some(property) => {
                if property.cached {
                    records[self.object].cached_property_map.insert(self.key, copy_value(&value));
                }
            },
            None => {},
        }
        Step::Return(Ok(Returned::Value(value)))
    }

    /// Whether `step`, and the records after it, are what the work on the
    /// property makes of `input`: each stage takes in what it waits for, and
    /// any other input ends the work on the property with an error and leaves
    /// the records as they are.
    pub open spec fn get_property_step(self, namespace: &Namespace, earlier: Vec<Object>, later: Vec<Object>, input: Input, step: Step) -> bool {
        &&& others_same(earlier@, later@, self.object)
        &&& match (self.waiting, input) {
            (false, Input::Start) => self.begin_step(
                namespace,
                &earlier,
                step,
            ) && later@ == earlier@,
            (true, Input::Returned(result)) => self.after_running_step(
                namespace,
                earlier,
                later,
                result,
                step,
            ),
            _ => fails_with(step, unexpected_reply()) && later@ == earlier@,
        }
    }

    /// Resumes the work on the property.
    pub fn get_property(self, namespace: &Namespace, records: &mut Vec<Object>, input: Input) -> (step: Step)
        ensures
            self.get_property_step(namespace, *old(records), *final(records), input, step),
    {
        match (self.waiting, input) {
            (false, Input::Start) => self.begin(namespace, records),
            (true, Input::Returned(result)) => self.after_running(namespace, records, result),
            _ => Step::Return(Err(unexpected())),
        }
    }
}

} // verus!
