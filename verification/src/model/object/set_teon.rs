use vstd::prelude::*;
use crate::action::action::Action;
use crate::collections::names::{copy_names, names_of};
use crate::model::field::Write;
use crate::model::model::Model;
use crate::model::object::input::{is_atomic_updater, Input as FieldInput};
use crate::model::object::machine::{
    denied, ends_well, fails_with, no_model, no_record, permission_denied, unexpected,
    unexpected_reply, unknown_model, unknown_record, Frame, Input, Returned, Step,
};
use crate::model::object::object::{assign, Object};
use crate::model::object::validate::{check_user_json_keys, permitted, unexpected_key};
use crate::namespace::namespace::Namespace;
use crate::path::error::{Error, ErrorKind, ErrorView};
use crate::path::key_path::{ItemView, KeyPath};
use crate::pipeline::ctx::Place;
use crate::value::value::{copy_value, lookup, Dictionary, Value, ValueView};

verus! {

/// How far an assignment from a payload has come.
#[derive(Debug, Copy, Clone, PartialEq, Eq, Structural)]
pub enum SetStage {
    /// Nothing was done yet.
    Begin,
    /// The model's permission pipeline runs.
    Permission,
    /// The next key is due.
    Keys,
    /// The default pipeline of the current field runs.
    Default,
    /// The permission pipeline of the current field runs.
    FieldPermission,
    /// The on-set pipeline of the current field runs.
    OnSet,
    /// The condition of the current field's write rule runs.
    WriteIf,
    /// The setter of the current property runs.
    Setter,
}

/// An assignment from a payload under way: the keys before `index` are done.
#[derive(Debug)]
pub struct SetTeon {
    pub object: usize,
    pub payload: Dictionary,
    pub path: KeyPath,
    /// Set for internal hydration: keys are not checked against the input
    /// keys of the model, and no permission pipeline runs.
    pub bypass: bool,
    pub keys: Vec<String>,
    pub index: usize,
    pub stage: SetStage,
    pub held: Option<Value>,
}

/// What is done for one key of the model when a payload is assigned.
#[derive(Debug, Copy, Clone, PartialEq, Eq, Structural)]
pub enum KeyPlan {
    /// Nothing.
    Skip,
    /// The payload omits the field and the record is uninitialized: the
    /// default pipeline of the field runs on null.
    DefaultPipeline,
    /// The payload omits the field and the record is uninitialized: the
    /// default value of the field is assigned.
    DefaultValue,
    /// The payload holds the field: its permission pipeline runs, then the
    /// input is taken in.
    FieldWithPermission,
    /// The payload holds the field and permissions are bypassed: the input
    /// is taken in.
    Field,
    /// The payload holds the relation: it is queued for the next save.
    Relation,
    /// The payload holds the property: its setter runs.
    Setter,
    /// The payload holds the property with an atomic updater, or the
    /// property has no setter: a type error.
    Refuse,
}

/// The error for a property that cannot be assigned at `path`.
pub open spec fn unexpected_input_type(path: Seq<ItemView>) -> ErrorView {
    ErrorView { kind: ErrorKind::TypeError, message: "unexpected input type"@, path: Some(path) }
}

/// What is done for the key `key` of `model`, given the payload and whether
/// the record is initialized.
pub open spec fn spec_plan(model: &Model, payload: Seq<(Seq<char>, ValueView)>, key: Seq<char>, initialized: bool, bypass: bool) -> KeyPlan {
    if let Some(field) = model.spec_field(key) {
        match lookup(payload, key) {
            None => if initialized {
                KeyPlan::Skip
            } else {
                match field.default {
                    Some(object) => match object.inner {
                        crate::object::ObjectInner::Pipeline(_) => KeyPlan::DefaultPipeline,
                        crate::object::ObjectInner::Teon(_) => KeyPlan::DefaultValue,
                        _ => KeyPlan::Skip,
                    },
                    None => KeyPlan::Skip,
                }
            },
            Some(_) => if bypass {
                KeyPlan::Field
            } else {
                KeyPlan::FieldWithPermission
            },
        }
    } else if model.spec_relation(key) is Some {
        if lookup(payload, key) is Some {
            KeyPlan::Relation
        } else {
            KeyPlan::Skip
        }
    } else if let Some(property) = model.spec_property(key) {
        match lookup(payload, key) {
            Some(value) => if property.setter is Some && !is_atomic_updater(value) {
                KeyPlan::Setter
            } else {
                KeyPlan::Refuse
            },
            None => KeyPlan::Skip,
        }
    } else {
        KeyPlan::Skip
    }
}

/// What is done for the key `key` of `model`.
pub fn plan_key(model: &Model, payload: &Dictionary, key: &str, initialized: bool, bypass: bool) -> (plan: KeyPlan)
    ensures
        plan == spec_plan(model, payload@, key@, initialized, bypass),
{
    if let Some(field) = model.field(key) {
        match payload.get(key) {
            None => if initialized {
                KeyPlan::Skip
            } else {
                match &field.default {
                    Some(object) => if object.is_pipeline() {
                        KeyPlan::DefaultPipeline
                    } else if object.is_teon() {
                        KeyPlan::DefaultValue
                    } else {
                        KeyPlan::Skip
                    },
                    None => KeyPlan::Skip,
                }
            },
            Some(_) => if bypass {
                KeyPlan::Field
            } else {
                KeyPlan::FieldWithPermission
            },
        }
    } else if model.relation(key).is_some() {
        if payload.get(key).is_some() {
            KeyPlan::Relation
        } else {
            KeyPlan::Skip
        }
    } else if let Some(property) = model.property(key) {
        match payload.get(key) {
            Some(value) => {
                let plain = match FieldInput::decode_field(value) {
                    FieldInput::SetValue(_) => true,
                    FieldInput::AtomicUpdater(_) => false,
                };
                if property.setter.is_some() && plain {
                    KeyPlan::Setter
                } else {
                    KeyPlan::Refuse
                }
            },
            None => KeyPlan::Skip,
        }
    } else {
        KeyPlan::Skip
    }
}

/// The keys that an assignment walks: every key of the model for a record
/// that is not initialized, else the keys of the model that the payload
/// holds; in schema order.
pub open spec fn walked_keys(model: &Model, payload: Seq<(Seq<char>, ValueView)>, initialized: bool) -> Seq<Seq<char>> {
    if initialized {
        crate::collections::names::kept(
            names_of(model.cache.all_keys),
            |key: Seq<char>| lookup(payload, key) is Some,
        )
    } else {
        names_of(model.cache.all_keys)
    }
}

/// The keys that an assignment walks.
pub fn keys_to_walk(model: &Model, payload: &Dictionary, initialized: bool) -> (keys: Vec<String>)
    ensures
        names_of(keys) == walked_keys(model, payload@, initialized),
{
    if !initialized {
        return copy_names(&model.cache.all_keys);
    }
    let ghost held = |key: Seq<char>| lookup(payload@, key) is Some;
    let ghost all = names_of(model.cache.all_keys);
    let mut keys: Vec<String> = Vec::new();
    let mut i: usize = 0;
    assert(names_of(keys) =~= crate::collections::names::kept(all.take(0), held));
    while i < model.cache.all_keys.len()
        invariant
            i <= model.cache.all_keys.len(),
            all == names_of(model.cache.all_keys),
            held == (|key: Seq<char>| lookup(payload@, key) is Some),
            names_of(keys) == crate::collections::names::kept(all.take(i as int), held),
        decreases model.cache.all_keys.len() - i,
    {
        let key = model.cache.all_keys[i].as_str();
        let ghost before = names_of(keys);
        assert(all.take(i + 1).drop_last() =~= all.take(i as int));
        assert(all.take(i + 1).last() == key@);
        if payload.contains_key(key) {
            keys.push(model.cache.all_keys[i].clone());
            assert(names_of(keys) =~= before.push(key@));
        }
        i += 1;
    }
    assert(all.take(i as int) =~= all);
    keys
}

/// Whether `frame` is a fresh run of the pipeline at `place` of the model
/// at `model`.
pub open spec fn calls(frame: Frame, model: Seq<Seq<char>>, place: Place, value: ValueView, object: usize, path: Seq<ItemView>, action: Action) -> bool {
    match frame {
        Frame::Pipeline(run) => crate::pipeline::run::starts(
            run,
            model,
            place,
            value,
            Some(object),
            path,
            action,
        ),
        _ => false,
    }
}

/// Whether the records other than the one numbered `object` are the same in
/// both lists, which are of the same length.
pub open spec fn others_same(before: Seq<Object>, after: Seq<Object>, object: usize) -> bool {
    &&& after.len() == before.len()
    &&& forall|j: int| 0 <= j < before.len() && j != object ==> #[trigger] after[j] == before[j]
}

impl SetTeon {
    /// Whether the assignment is one of the payload `payload` from the
    /// user to the record numbered `object`, at `path`, that has not
    /// started yet.
    pub open spec fn starts(self, object: usize, payload: ValueView, path: KeyPath) -> bool {
        &&& self.object == object
        &&& self.payload@ == crate::model::object::hydrate::row_entries(payload)
        &&& self.path == path
        &&& !self.bypass
        &&& self.keys@.len() == 0
        &&& self.index == 0
        &&& self.stage == SetStage::Begin
        &&& self.held is None
    }

    /// An assignment of `payload` to the record numbered `object` that has
    /// not started yet.
    pub fn new(object: usize, payload: Dictionary, path: KeyPath, bypass: bool) -> (frame: SetTeon)
        ensures
            frame.object == object,
            frame.payload == payload,
            frame.path == path,
            frame.bypass == bypass,
            frame.keys@.len() == 0,
            frame.index == 0,
            frame.stage == SetStage::Begin,
            frame.held is None,
    {
        SetTeon {
            object,
            payload,
            path,
            bypass,
            keys: Vec::new(),
            index: 0,
            stage: SetStage::Begin,
            held: None,
        }
    }

    /// Whether the frame can go on with its current key: it knows its record
    /// and the record's model, and the key exists.
    pub open spec fn ready(&self, namespace: &Namespace, records: Seq<Object>) -> bool {
        &&& self.object < records.len()
        &&& namespace.spec_model(names_of(records[self.object as int].model_path)) is Some
        &&& self.index < self.keys.len()
    }

    /// The model of the frame's record.
    pub open spec fn model(&self, namespace: &Namespace, records: Seq<Object>) -> Model {
        namespace.spec_model(names_of(records[self.object as int].model_path))->0
    }

    /// The path of the current key.
    pub open spec fn key_path(&self) -> Seq<ItemView> {
        self.path@.push(ItemView::Key(self.keys[self.index as int]@))
    }

    /// The frame at the next key.
    pub open spec fn advanced(self) -> SetTeon {
        SetTeon { index: (self.index + 1) as usize, stage: SetStage::Keys, held: None, ..self }
    }

    /// Whether `step`, and the records after it, are what [`SetTeon::begin`]
    /// makes of the assignment as it stands.
    pub open spec fn begin_step(self, namespace: &Namespace, records: &Vec<Object>, step: Step) -> bool {
        &&& !ends_well(step)
        &&& (if self.object >= records.len() {
            step matches Step::Return(Err(error)) && error@ == unknown_record()
        } else {
            match namespace.spec_model(names_of(records[self.object as int].model_path)) {
                None => step matches Step::Return(Err(error)) && error@ == unknown_model(),
                Some(model) => if self.bypass {
                    step matches Step::Again(Frame::SetTeon(next)) && next.stage
                        == SetStage::Keys && names_of(next.keys) == walked_keys(
                        &model,
                        self.payload@,
                        records[self.object as int].is_initialized,
                    ) && next == (SetTeon {
                        stage: SetStage::Keys,
                        keys: next.keys,
                        index: 0,
                        ..self
                    })
                } else {
                    let refused = crate::collections::names::first_where(
                        crate::model::object::validate::entry_keys(self.payload@),
                        |key: Seq<char>| !names_of(model.cache.input_keys).contains(key),
                    );
                    if refused < self.payload@.len() {
                        step matches Step::Return(Err(error)) && error@
                            == crate::model::object::validate::key_not_allowed(
                            self.payload@[refused].0,
                            crate::model::object::validate::model_name(&model),
                        )
                    } else {
                        step matches Step::Call(Frame::SetTeon(next), callee) && next == (
                        SetTeon { stage: SetStage::Permission, ..self }) && calls(
                            callee,
                            names_of(records[self.object as int].model_path),
                            Place::ModelCanMutate,
                            ValueView::Null,
                            self.object,
                            self.path@,
                            records[self.object as int].action,
                        )
                    }
                },
            }
        })
    }

    /// Starts the assignment: checks the keys of the payload against the
    /// input keys of the model and starts the model's permission pipeline,
    /// unless both are bypassed.
    pub fn begin(self, namespace: &Namespace, records: &Vec<Object>) -> (step: Step)
        ensures
            self.begin_step(namespace, records, step),
    {
        if self.object >= records.len() {
            return Step::Return(Err(no_record()));
        }
        let record = &records[self.object];
        let model = match namespace.model_at_path(&record.model_path) {
            Some(model) => model,
            None => {
                return Step::Return(Err(no_model()));
            },
        };
        if self.bypass {
            let keys = keys_to_walk(model, &self.payload, record.is_initialized);
            return Step::Again(
                Frame::SetTeon(SetTeon { stage: SetStage::Keys, keys, index: 0, ..self }),
            );
        }
        match check_user_json_keys(&self.payload, &model.cache.input_keys, model) {
            Err(error) => Step::Return(Err(error)),
            Ok(()) => {
                let run = crate::pipeline::run::start(
                    &record.model_path,
                    Place::ModelCanMutate,
                    Value::Null,
                    Some(self.object),
                    self.path.clone(),
                    record.action,
                );
                Step::Call(
                    Frame::SetTeon(SetTeon { stage: SetStage::Permission, ..self }),
                    Frame::Pipeline(run),
                )
            },
        }
    }

    /// Whether `step`, and the records after it, are what
    /// [`SetTeon::permitted`] makes of the assignment as it stands.
    pub open spec fn permitted_step(self, namespace: &Namespace, records: &Vec<Object>, result: Result<Returned, Error>, step: Step) -> bool {
        &&& !ends_well(step)
        &&& (match result {
            Err(cause) => step matches Step::Return(Err(error)) && error@ == denied(
                cause@,
                self.path@,
            ),
            Ok(_) => if self.object >= records.len() {
                step matches Step::Return(Err(error)) && error@ == unknown_record()
            } else {
                match namespace.spec_model(names_of(records[self.object as int].model_path)) {
                    None => step matches Step::Return(Err(error)) && error@ == unknown_model(),
                    Some(model) => step matches Step::Again(Frame::SetTeon(next)) && next.stage
                        == SetStage::Keys && names_of(next.keys) == walked_keys(
                        &model,
                        self.payload@,
                        records[self.object as int].is_initialized,
                    ) && next == (SetTeon {
                        stage: SetStage::Keys,
                        keys: next.keys,
                        index: 0,
                        ..self
                    }),
                }
            },
        })
    }

    /// Takes in the result of the model's permission pipeline: a failure
    /// denies the assignment at the path of the payload, a success lets it
    /// go on with the keys.
    pub fn permitted(self, namespace: &Namespace, records: &Vec<Object>, result: Result<Returned, Error>) -> (step: Step)
        ensures
            self.permitted_step(namespace, records, result, step),
    {
        match result {
            Err(cause) => Step::Return(Err(permission_denied(&cause, &self.path))),
            Ok(_) => {
                if self.object >= records.len() {
                    return Step::Return(Err(no_record()));
                }
                let record = &records[self.object];
                match namespace.model_at_path(&record.model_path) {
                    Some(model) => {
                        let keys = keys_to_walk(model, &self.payload, record.is_initialized);
                        Step::Again(
                            Frame::SetTeon(
                                SetTeon { stage: SetStage::Keys, keys, index: 0, ..self },
                            ),
                        )
                    },
                    None => Step::Return(Err(no_model())),
                }
            },
        }
    }
}

impl SetTeon {
    /// Whether `step`, and the records after it, are what [`SetTeon::take_input`]
    /// makes of the assignment as it stands.
    pub open spec fn take_input_step(self, namespace: &Namespace, earlier: Vec<Object>, later: Vec<Object>, step: Step) -> bool {
        &&& !ends_well(step)
        &&& others_same(earlier@, later@, self.object)
        &&& (self.ready(namespace, earlier@) ==> match lookup(
            self.payload@,
            self.keys[self.index as int]@,
        ) {
            Some(value) => if is_atomic_updater(value) {
                &&& step == Step::Again(Frame::SetTeon(self.advanced()))
                &&& later[self.object as int].atomic_updaters() == earlier[self.object as int].atomic_updaters().insert(
                    self.keys[self.index as int]@,
                    value,
                )
                &&& later[self.object as int].values() == earlier[self.object as int].values().remove(
                    self.keys[self.index as int]@,
                )
                &&& later[self.object as int].previous_values() == if earlier[self.object as int].keeps_previous(
                    &self.model(namespace, earlier@),
                    self.keys[self.index as int]@,
                ) {
                    earlier[self.object as int].previous_values().insert(
                        self.keys[self.index as int]@,
                        earlier[self.object as int].value_or_null(self.keys[self.index as int]@),
                    )
                } else {
                    earlier[self.object as int].previous_values()
                }
                &&& later[self.object as int].is_modified == (earlier[self.object as int].is_modified
                    || !earlier[self.object as int].is_new)
                &&& later[self.object as int].modified_fields@ == if earlier[self.object as int].is_new {
                    earlier[self.object as int].modified_fields@
                } else {
                    earlier[self.object as int].modified_fields@.insert(
                        self.keys[self.index as int]@,
                    )
                }
                &&& later[self.object as int].cached_property_map == earlier[self.object as int].cached_property_map
                &&& later[self.object as int].same_besides_values(&earlier[self.object as int])
            } else {
                &&& step matches Step::Call(Frame::SetTeon(next), callee) && next == (SetTeon {
                    stage: SetStage::OnSet,
                    ..self
                }) && calls(
                    callee,
                    names_of(earlier[self.object as int].model_path),
                    Place::FieldOnSet(self.keys[self.index as int]),
                    value,
                    self.object,
                    self.key_path(),
                    earlier[self.object as int].action,
                )
                &&& later@ == earlier@
            },
            None => step == Step::Again(Frame::SetTeon(self.advanced())) && later@
                == earlier@,
        })
        &&& !self.ready(namespace, earlier@) ==> step is Return && later@ == earlier@
    }

    /// Takes in what the payload holds for the current key, a field: an
    /// atomic updater is queued in place of the value that the record held,
    /// which is recorded where the field keeps its previous value, and the
    /// next key is due; any other value goes through the on-set pipeline of
    /// the field first.
    pub fn take_input(self, namespace: &Namespace, records: &mut Vec<Object>) -> (step: Step)
        requires
            self.index < usize::MAX,
        ensures
            self.take_input_step(namespace, *old(records), *final(records), step),
    {
        if self.object >= records.len() || self.index >= self.keys.len() {
            return Step::Return(Err(no_record()));
        }
        let model = match namespace.model_at_path(&records[self.object].model_path) {
            Some(model) => model,
            None => {
                return Step::Return(Err(no_model()));
            },
        };
        let key = self.keys[self.index].as_str();
        let input = match self.payload.get(key) {
            Some(value) => FieldInput::decode_field(value),
            None => {
                return Step::Again(
                    Frame::SetTeon(
                        SetTeon { index: self.index + 1, stage: SetStage::Keys, held: None, ..self },
                    ),
                );
            },
        };
        match input {
            FieldInput::AtomicUpdater(updater) => {
                records[self.object].record_previous_value_for_field_if_needed(model, key);
                records[self.object].set_value_to_atomic_updator_map(key, updater);
                Step::Again(
                    Frame::SetTeon(
                        SetTeon { index: self.index + 1, stage: SetStage::Keys, held: None, ..self },
                    ),
                )
            },
            FieldInput::SetValue(value) => {
                let record = &records[self.object];
                let run = crate::pipeline::run::start(
                    &record.model_path,
                    Place::FieldOnSet(self.keys[self.index].clone()),
                    value,
                    Some(self.object),
                    self.path.with_key(key),
                    record.action,
                );
                Step::Call(
                    Frame::SetTeon(SetTeon { stage: SetStage::OnSet, ..self }),
                    Frame::Pipeline(run),
                )
            },
        }
    }

    /// Assigns `value` to the current key, a field, where the write rule of
    /// the field permits it, and refuses the key where it does not.
    /// `condition` says whether the condition of a conditional write rule
    /// passed.
    pub fn finish(self, namespace: &Namespace, records: &mut Vec<Object>, value: Value, condition: bool) -> (step: Step)
        requires
            self.index < usize::MAX,
        ensures
            !ends_well(step),
            others_same(old(records)@, final(records)@, self.object),
            self.ready(namespace, old(records)@) ==> {
                let before = old(records)[self.object as int];
                let key = self.keys[self.index as int]@;
                match self.model(namespace, old(records)@).spec_field(key) {
                    Some(field) => if permitted(
                        field.write,
                        before.is_new,
                        before.value_or_null(key) is Null,
                        value@ is Null,
                        condition,
                    ) {
                        &&& step == Step::Again(Frame::SetTeon(self.advanced()))
                        &&& final(records)[self.object as int].tracking() == assign(
                            before.tracking(),
                            before.is_new,
                            &self.model(namespace, old(records)@),
                            key,
                            value@,
                        )
                        &&& final(records)[self.object as int].same_besides_values(&before)
                        &&& (before.wf() ==> final(records)[self.object as int].wf())
                    } else {
                        &&& step matches Step::Return(Err(error)) && error@ == unexpected_key(
                            self.key_path(),
                        )
                        &&& final(records)@ == old(records)@
                    },
                    None => step is Return && final(records)@ == old(records)@,
                }
            },
            !self.ready(namespace, old(records)@) ==> step is Return && final(records)@ == old(records)@,
    {
        if self.object >= records.len() || self.index >= self.keys.len() {
            return Step::Return(Err(no_record()));
        }
        let model = match namespace.model_at_path(&records[self.object].model_path) {
            Some(model) => model,
            None => {
                return Step::Return(Err(no_model()));
            },
        };
        let key = self.keys[self.index].as_str();
        match records[self.object].check_write_rule(model, key, &value, &self.path, condition) {
            Err(error) => Step::Return(Err(error)),
            Ok(()) => {
                records[self.object].set_value_to_value_map(model, key, value);
                Step::Again(
                    Frame::SetTeon(
                        SetTeon { index: self.index + 1, stage: SetStage::Keys, held: None, ..self },
                    ),
                )
            },
        }
    }

    /// Whether `step`, and the records after it, are what
    /// [`SetTeon::after_on_set`] makes of the assignment as it stands.
    pub open spec fn after_on_set_step(self, namespace: &Namespace, earlier: Vec<Object>, later: Vec<Object>, result: Result<Returned, Error>, step: Step) -> bool {
        &&& !ends_well(step)
        &&& others_same(earlier@, later@, self.object)
        &&& (match result {
            Err(cause) => step == Step::Return(Err(cause)) && later@ == earlier@,
            Ok(Returned::Value(value)) => self.ready(namespace, earlier@) ==> {
                let before = earlier[self.object as int];
                let key = self.keys[self.index as int]@;
                match self.model(namespace, earlier@).spec_field(key) {
                    Some(field) => if field.write is WriteIf {
                        &&& step matches Step::Call(Frame::SetTeon(next), callee) && next.stage
                            == SetStage::WriteIf && next.held == Some(value) && next.index
                            == self.index && next.keys == self.keys && next.object
                            == self.object && next.path == self.path && calls(
                            callee,
                            names_of(before.model_path),
                            Place::FieldWriteIf(self.keys[self.index as int]),
                            value@,
                            self.object,
                            self.key_path(),
                            before.action,
                        )
                        &&& later@ == earlier@
                    } else if permitted(
                        field.write,
                        before.is_new,
                        before.value_or_null(key) is Null,
                        value@ is Null,
                        false,
                    ) {
                        &&& step == Step::Again(Frame::SetTeon(self.advanced()))
                        &&& later[self.object as int].tracking() == assign(
                            before.tracking(),
                            before.is_new,
                            &self.model(namespace, earlier@),
                            key,
                            value@,
                        )
                        &&& later[self.object as int].same_besides_values(&before)
                    } else {
                        &&& step matches Step::Return(Err(error)) && error@ == unexpected_key(
                            self.key_path(),
                        )
                        &&& later@ == earlier@
                    },
                    None => step is Return && later@ == earlier@,
                }
            },
            Ok(_) => step matches Step::Return(Err(error)) && error@ == unexpected_reply()
                && later@ == earlier@,
        })
    }

    /// Takes in what the on-set pipeline of the current field produced: the
    /// value is assigned under the write rule of the field, after the
    /// rule's condition has run where it has one.
    pub fn after_on_set(self, namespace: &Namespace, records: &mut Vec<Object>, result: Result<Returned, Error>) -> (step: Step)
        requires
            self.index < usize::MAX,
        ensures
            self.after_on_set_step(namespace, *old(records), *final(records), result, step),
    {
        let value = match result {
            Err(cause) => {
                return Step::Return(Err(cause));
            },
            Ok(Returned::Value(value)) => value,
            Ok(_) => {
                return Step::Return(Err(unexpected()));
            },
        };
        if self.object >= records.len() || self.index >= self.keys.len() {
            return Step::Return(Err(no_record()));
        }
        let record = &records[self.object];
        let model = match namespace.model_at_path(&record.model_path) {
            Some(model) => model,
            None => {
                return Step::Return(Err(no_model()));
            },
        };
        let key = self.keys[self.index].as_str();
        let conditional = match model.field(key) {
            Some(field) => match &field.write {
                Write::WriteIf(_) => true,
                _ => false,
            },
            None => false,
        };
        if conditional {
            let run = crate::pipeline::run::start(
                &record.model_path,
                Place::FieldWriteIf(self.keys[self.index].clone()),
                copy_value(&value),
                Some(self.object),
                self.path.with_key(key),
                record.action,
            );
            Step::Call(
                Frame::SetTeon(SetTeon { stage: SetStage::WriteIf, held: Some(value), ..self }),
                Frame::Pipeline(run),
            )
        } else {
            self.finish(namespace, records, value, false)
        }
    }
}

/// The default value written on a field, where it is a plain value.
pub open spec fn default_value(model: &Model, key: Seq<char>) -> Option<Value> {
    match model.spec_field(key) {
        Some(field) => match field.default {
            Some(object) => match object.inner {
                crate::object::ObjectInner::Teon(value) => Some(value),
                _ => None,
            },
            None => None,
        },
        None => None,
    }
}

impl SetTeon {
    /// Whether `step`, and the records after it, are what [`SetTeon::next_key`]
    /// makes of the assignment as it stands.
    pub open spec fn next_key_step(self, namespace: &Namespace, earlier: Vec<Object>, later: Vec<Object>, step: Step) -> bool {
        &&& ends_well(step) ==> self.object < later.len() && later[self.object as int].is_initialized
        &&& others_same(earlier@, later@, self.object)
        &&& self.object < earlier.len() && self.index >= self.keys.len() ==> {
            &&& step == Step::Return(Ok(Returned::Done))
            &&& later[self.object as int] == (Object {
                is_initialized: true,
                ..earlier[self.object as int]
            })
        }
        &&& (self.ready(namespace, earlier@) ==> {
            let before = earlier[self.object as int];
            let model = self.model(namespace, earlier@);
            let key = self.keys[self.index as int]@;
            match spec_plan(&model, self.payload@, key, before.is_initialized, self.bypass) {
                KeyPlan::Skip => step == Step::Again(Frame::SetTeon(self.advanced())) && later@ == earlier@,
                KeyPlan::DefaultPipeline => {
                    &&& step matches Step::Call(Frame::SetTeon(next), callee) && next == (
                    SetTeon { stage: SetStage::Default, ..self }) && calls(
                        callee,
                        names_of(before.model_path),
                        Place::FieldDefault(self.keys[self.index as int]),
                        ValueView::Null,
                        self.object,
                        self.key_path(),
                        before.action,
                    )
                    &&& later@ == earlier@
                },
                KeyPlan::DefaultValue => {
                    &&& step == Step::Again(Frame::SetTeon(self.advanced()))
                    &&& later[self.object as int].tracking() == assign(
                        before.tracking(),
                        before.is_new,
                        &model,
                        key,
                        default_value(&model, key)->0@,
                    )
                    &&& later[self.object as int].same_besides_values(&before)
                },
                KeyPlan::FieldWithPermission => {
                    &&& step matches Step::Call(Frame::SetTeon(next), callee) && next == (
                    SetTeon { stage: SetStage::FieldPermission, ..self }) && calls(
                        callee,
                        names_of(before.model_path),
                        Place::FieldCanMutate(self.keys[self.index as int]),
                        ValueView::Null,
                        self.object,
                        self.key_path(),
                        before.action,
                    )
                    &&& later@ == earlier@
                },
                KeyPlan::Field => self.take_input_step(namespace, earlier, later, step),
                KeyPlan::Relation => {
                    &&& step == Step::Again(Frame::SetTeon(self.advanced()))
                    &&& later[self.object as int].relation_mutations()
                        == before.relation_mutations().insert(
                        key,
                        lookup(self.payload@, key)->0,
                    )
                    &&& later[self.object as int].value_map == before.value_map
                    &&& later[self.object as int].same_besides_queues(&before)
                },
                KeyPlan::Setter => {
                    &&& step matches Step::Call(Frame::SetTeon(next), callee) && next == (
                    SetTeon { stage: SetStage::Setter, ..self }) && calls(
                        callee,
                        names_of(before.model_path),
                        Place::PropertySetter(self.keys[self.index as int]),
                        lookup(self.payload@, key)->0,
                        self.object,
                        self.key_path(),
                        before.action,
                    )
                    &&& later@ == earlier@
                },
                KeyPlan::Refuse => {
                    &&& step matches Step::Return(Err(error)) && error@
                        == unexpected_input_type(self.key_path())
                    &&& later@ == earlier@
                },
            }
        })
    }

    /// Handles the current key, or ends the assignment where every key is
    /// done: the record is then initialized.
    pub fn next_key(self, namespace: &Namespace, records: &mut Vec<Object>) -> (step: Step)
        requires
            self.index < usize::MAX,
        ensures
            self.next_key_step(namespace, *old(records), *final(records), step),
    {
        if self.object >= records.len() {
            return Step::Return(Err(no_record()));
        }
        if self.index >= self.keys.len() {
            records[self.object].is_initialized = true;
            return Step::Return(Ok(Returned::Done));
        }
        let model = match namespace.model_at_path(&records[self.object].model_path) {
            Some(model) => model,
            None => {
                return Step::Return(Err(no_model()));
            },
        };
        let key = self.keys[self.index].as_str();
        let plan = plan_key(model, &self.payload, key, records[self.object].is_initialized, self.bypass);
        match plan {
            KeyPlan::Skip => Step::Again(
                Frame::SetTeon(
                    SetTeon { index: self.index + 1, stage: SetStage::Keys, held: None, ..self },
                ),
            ),
            KeyPlan::DefaultPipeline => {
                let record = &records[self.object];
                let run = crate::pipeline::run::start(
                    &record.model_path,
                    Place::FieldDefault(self.keys[self.index].clone()),
                    Value::Null,
                    Some(self.object),
                    self.path.with_key(key),
                    record.action,
                );
                Step::Call(
                    Frame::SetTeon(SetTeon { stage: SetStage::Default, ..self }),
                    Frame::Pipeline(run),
                )
            },
            KeyPlan::DefaultValue => {
                let value = match model.field(key) {
                    Some(field) => match &field.default {
                        Some(object) => match object.as_teon() {
                            Some(value) => copy_value(value),
                            None => Value::Null,
                        },
                        None => Value::Null,
                    },
                    None => Value::Null,
                };
                records[self.object].set_value_to_value_map(model, key, value);
                Step::Again(
                    Frame::SetTeon(
                        SetTeon { index: self.index + 1, stage: SetStage::Keys, held: None, ..self },
                    ),
                )
            },
            KeyPlan::FieldWithPermission => {
                let record = &records[self.object];
                let run = crate::pipeline::run::start(
                    &record.model_path,
                    Place::FieldCanMutate(self.keys[self.index].clone()),
                    Value::Null,
                    Some(self.object),
                    self.path.with_key(key),
                    record.action,
                );
                Step::Call(
                    Frame::SetTeon(SetTeon { stage: SetStage::FieldPermission, ..self }),
                    Frame::Pipeline(run),
                )
            },
            KeyPlan::Field => self.take_input(namespace, records),
            KeyPlan::Relation => {
                match self.payload.get(key) {
                    Some(value) => {
                        records[self.object].set_value_to_relation_manipulation_map(key, value);
                    },
                    None => {},
                }
                Step::Again(
                    Frame::SetTeon(
                        SetTeon { index: self.index + 1, stage: SetStage::Keys, held: None, ..self },
                    ),
                )
            },
            KeyPlan::Setter => {
                let value = match self.payload.get(key) {
                    Some(value) => copy_value(value),
                    None => Value::Null,
                };
                let record = &records[self.object];
                let run = crate::pipeline::run::start(
                    &record.model_path,
                    Place::PropertySetter(self.keys[self.index].clone()),
                    value,
                    Some(self.object),
                    self.path.with_key(key),
                    record.action,
                );
                Step::Call(
                    Frame::SetTeon(SetTeon { stage: SetStage::Setter, ..self }),
                    Frame::Pipeline(run),
                )
            },
            KeyPlan::Refuse => Step::Return(
                Err(
                    Error::at(ErrorKind::TypeError, "unexpected input type", &self.path.with_key(key)),
                ),
            ),
        }
    }

    /// Whether `step`, and the records after it, are what
    /// [`SetTeon::after_default`] makes of the assignment as it stands.
    pub open spec fn after_default_step(self, namespace: &Namespace, earlier: Vec<Object>, later: Vec<Object>, result: Result<Returned, Error>, step: Step) -> bool {
        &&& !ends_well(step)
        &&& others_same(earlier@, later@, self.object)
        &&& (match result {
            Err(cause) => step == Step::Return(Err(cause)) && later@ == earlier@,
            Ok(Returned::Value(value)) => self.ready(namespace, earlier@) ==> {
                let before = earlier[self.object as int];
                &&& step == Step::Again(Frame::SetTeon(self.advanced()))
                &&& later[self.object as int].tracking() == assign(
                    before.tracking(),
                    before.is_new,
                    &self.model(namespace, earlier@),
                    self.keys[self.index as int]@,
                    value@,
                )
                &&& later[self.object as int].same_besides_values(&before)
            },
            Ok(_) => step matches Step::Return(Err(error)) && error@ == unexpected_reply()
                && later@ == earlier@,
        })
    }

    /// Takes in what the default pipeline of the current field produced: the
    /// value is assigned and the next key is due.
    pub fn after_default(self, namespace: &Namespace, records: &mut Vec<Object>, result: Result<Returned, Error>) -> (step: Step)
        requires
            self.index < usize::MAX,
        ensures
            self.after_default_step(namespace, *old(records), *final(records), result, step),
    {
        let value = match result {
            Err(cause) => {
                return Step::Return(Err(cause));
            },
            Ok(Returned::Value(value)) => value,
            Ok(_) => {
                return Step::Return(Err(unexpected()));
            },
        };
        if self.object >= records.len() || self.index >= self.keys.len() {
            return Step::Return(Err(no_record()));
        }
        let model = match namespace.model_at_path(&records[self.object].model_path) {
            Some(model) => model,
            None => {
                return Step::Return(Err(no_model()));
            },
        };
        records[self.object].set_value_to_value_map(model, self.keys[self.index].as_str(), value);
        Step::Again(
            Frame::SetTeon(
                SetTeon { index: self.index + 1, stage: SetStage::Keys, held: None, ..self },
            ),
        )
    }

    /// Whether `step`, and the records after it, are what
    /// [`SetTeon::after_field_permission`] makes of the assignment as it
    /// stands.
    pub open spec fn after_field_permission_step(self, namespace: &Namespace, earlier: Vec<Object>, later: Vec<Object>, result: Result<Returned, Error>, step: Step) -> bool {
        &&& !ends_well(step)
        &&& others_same(earlier@, later@, self.object)
        &&& (match result {
            Err(cause) => later@ == earlier@ && (self.index < self.keys.len()
                ==> fails_with(step, denied(cause@, self.key_path()))),
            Ok(_) => self.take_input_step(namespace, earlier, later, step),
        })
    }

    /// Takes in the result of the permission pipeline of the current field:
    /// a failure denies the assignment at the path of the key, a success
    /// lets the input be taken in.
    pub fn after_field_permission(self, namespace: &Namespace, records: &mut Vec<Object>, result: Result<Returned, Error>) -> (step: Step)
        requires
            self.index < usize::MAX,
        ensures
            self.after_field_permission_step(namespace, *old(records), *final(records), result, step),
    {
        match result {
            Err(cause) => {
                if self.index >= self.keys.len() {
                    return Step::Return(Err(no_record()));
                }
                let path = self.path.with_key(self.keys[self.index].as_str());
                Step::Return(Err(permission_denied(&cause, &path)))
            },
            Ok(_) => self.take_input(namespace, records),
        }
    }

    /// Whether `step`, and the records after it, are what
    /// [`SetTeon::after_write_if`] makes of the assignment as it stands.
    pub open spec fn after_write_if_step(self, namespace: &Namespace, earlier: Vec<Object>, later: Vec<Object>, result: Result<Returned, Error>, step: Step) -> bool {
        &&& !ends_well(step)
        &&& others_same(earlier@, later@, self.object)
        &&& (self.ready(namespace, earlier@) && self.held is Some ==> {
            let before = earlier[self.object as int];
            let key = self.keys[self.index as int]@;
            match self.model(namespace, earlier@).spec_field(key) {
                Some(field) => if permitted(
                    field.write,
                    before.is_new,
                    before.value_or_null(key) is Null,
                    self.held->0@ is Null,
                    result is Ok,
                ) {
                    &&& step matches Step::Again(Frame::SetTeon(next)) && next.index
                        == self.index + 1 && next.stage == SetStage::Keys
                    &&& later[self.object as int].tracking() == assign(
                        before.tracking(),
                        before.is_new,
                        &self.model(namespace, earlier@),
                        key,
                        self.held->0@,
                    )
                    &&& later[self.object as int].same_besides_values(&before)
                } else {
                    &&& step matches Step::Return(Err(error)) && error@ == unexpected_key(
                        self.key_path(),
                    )
                    &&& later@ == earlier@
                },
                None => step is Return && later@ == earlier@,
            }
        })
        &&& self.held is None ==> fails_with(step, unexpected_reply()) && later@ == earlier@
    }

    /// Takes in the result of the condition of the current field's write
    /// rule: the value that the on-set pipeline produced is assigned where
    /// the condition passed, and the key is refused where it failed.
    pub fn after_write_if(self, namespace: &Namespace, records: &mut Vec<Object>, result: Result<Returned, Error>) -> (step: Step)
        requires
            self.index < usize::MAX,
        ensures
            self.after_write_if_step(namespace, *old(records), *final(records), result, step),
    {
        let condition = result.is_ok();
        let SetTeon { object, payload, path, bypass, keys, index, stage, held } = self;
        match held {
            Some(value) => {
                let frame = SetTeon { object, payload, path, bypass, keys, index, stage, held: None };
                frame.finish(namespace, records, value, condition)
            },
            None => Step::Return(Err(unexpected())),
        }
    }

    /// Whether `step`, and the records after it, are what
    /// [`SetTeon::after_setter`] makes of the assignment as it stands.
    pub open spec fn after_setter_step(self, result: Result<Returned, Error>, step: Step) -> bool {
        &&& !ends_well(step)
        &&& match result {
            Err(cause) => step == Step::Return(Err(cause)),
            Ok(_) => step == Step::Again(Frame::SetTeon(self.advanced())),
        }
    }

    /// Takes in the result of the setter of the current property: what the
    /// setter produced is dropped, and the next key is due.
    pub fn after_setter(self, result: Result<Returned, Error>) -> (step: Step)
        requires
            self.index < usize::MAX,
        ensures
            self.after_setter_step(result, step),
    {
        match result {
            Err(cause) => Step::Return(Err(cause)),
            Ok(_) => Step::Again(
                Frame::SetTeon(
                    SetTeon { index: self.index + 1, stage: SetStage::Keys, held: None, ..self },
                ),
            ),
        }
    }

    /// Whether `step`, and the records after it, are what the assignment makes
    /// of `input`: each stage takes in what it waits for, and any other input
    /// ends the assignment with an error and leaves the records as they are.
    pub open spec fn set_teon_with_path_and_user_mode_step(self, namespace: &Namespace, earlier: Vec<Object>, later: Vec<Object>, input: Input, step: Step) -> bool {
        &&& others_same(earlier@, later@, self.object)
        &&& self.index == usize::MAX ==> fails_with(step, unexpected_reply()) && later@
            == earlier@
        &&& ends_well(step) ==> self.object < later.len() && later[self.object as int].is_initialized
        &&& if self.index == usize::MAX {
            fails_with(step, unexpected_reply()) && later@ == earlier@
        } else {
            match (self.stage, input) {
                (SetStage::Begin, Input::Start) => self.begin_step(
                    namespace,
                    &earlier,
                    step,
                ) && later@ == earlier@,
                (SetStage::Permission, Input::Returned(result)) => self.permitted_step(
                    namespace,
                    &earlier,
                    result,
                    step,
                ) && later@ == earlier@,
                (SetStage::Keys, Input::Start) => self.next_key_step(
                    namespace,
                    earlier,
                    later,
                    step,
                ),
                (SetStage::Default, Input::Returned(result)) => self.after_default_step(
                    namespace,
                    earlier,
                    later,
                    result,
                    step,
                ),
                (SetStage::FieldPermission, Input::Returned(result)) => self.after_field_permission_step(
                    namespace,
                    earlier,
                    later,
                    result,
                    step,
                ),
                (SetStage::OnSet, Input::Returned(result)) => self.after_on_set_step(
                    namespace,
                    earlier,
                    later,
                    result,
                    step,
                ),
                (SetStage::WriteIf, Input::Returned(result)) => self.after_write_if_step(
                    namespace,
                    earlier,
                    later,
                    result,
                    step,
                ),
                (SetStage::Setter, Input::Returned(result)) => self.after_setter_step(
                    result,
                    step,
                ) && later@ == earlier@,
                _ => fails_with(step, unexpected_reply()) && later@ == earlier@,
            }
        }
    }

    /// Resumes the assignment.
    ///
    /// A stage that waits for a pipeline takes in its result; the other
    /// stages go on at once. Any input that does not fit the stage ends the
    /// assignment with an error. Only the record of the assignment can
    /// change.
    pub fn set_teon_with_path_and_user_mode(self, namespace: &Namespace, records: &mut Vec<Object>, input: Input) -> (step: Step)
        ensures
            self.set_teon_with_path_and_user_mode_step(namespace, *old(records), *final(records), input, step),
    {
        if self.index == usize::MAX {
            return Step::Return(Err(unexpected()));
        }
        match (self.stage, input) {
            (SetStage::Begin, Input::Start) => self.begin(namespace, records),
            (SetStage::Permission, Input::Returned(result)) => self.permitted(
                namespace,
                records,
                result,
            ),
            (SetStage::Keys, Input::Start) => self.next_key(namespace, records),
            (SetStage::Default, Input::Returned(result)) => self.after_default(
                namespace,
                records,
                result,
            ),
            (SetStage::FieldPermission, Input::Returned(result)) => self.after_field_permission(
                namespace,
                records,
                result,
            ),
            (SetStage::OnSet, Input::Returned(result)) => self.after_on_set(
                namespace,
                records,
                result,
            ),
            (SetStage::WriteIf, Input::Returned(result)) => self.after_write_if(
                namespace,
                records,
                result,
            ),
            (SetStage::Setter, Input::Returned(result)) => self.after_setter(result),
            _ => Step::Return(Err(unexpected())),
        }
    }
}

} // verus!
