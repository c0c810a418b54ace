use vstd::prelude::*;
use crate::collections::names::names_of;
use crate::model::model::Model;
use crate::model::object::machine::{
    ends_well, fails_with, no_model, no_record, unexpected, unexpected_reply, Frame, Input,
    Returned, Step,
};
use crate::model::object::object::{assign, Object};
use crate::model::object::set_teon::{calls, others_same};
use crate::model::object::validate::{
    field_requirement, missing_required_input, relation_key_lacks, Requirement,
};
use crate::namespace::namespace::Namespace;
use crate::path::error::Error;
use crate::path::key_path::{ItemView, KeyPath};
use crate::pipeline::ctx::Place;
use crate::value::value::{Value, ValueView};

verus! {

/// How far the preparation of a save has come.
#[derive(Debug, Copy, Clone, PartialEq, Eq, Structural)]
pub enum OnSaveStage {
    /// The on-save pipeline of the next saved key is due.
    Pipelines,
    /// The on-save pipeline of the current key runs.
    Running,
    /// The validation of the next saved key is due.
    Validation,
    /// The condition of the current key's optionality runs.
    Condition,
}

/// The preparation of a save under way: the on-save pipelines of the saved
/// keys run first, then every saved key and every relation is validated.
#[derive(Debug)]
pub struct OnSave {
    pub object: usize,
    pub path: KeyPath,
    pub ignore_required_relation: bool,
    pub index: usize,
    pub stage: OnSaveStage,
}

impl OnSave {
    /// The preparation of a save of the record numbered `object` that has
    /// not started yet.
    pub fn new(object: usize, path: KeyPath, ignore_required_relation: bool) -> (frame: OnSave)
        ensures
            frame == (OnSave {
                object,
                path,
                ignore_required_relation,
                index: 0,
                stage: OnSaveStage::Pipelines,
            }),
    {
        OnSave { object, path, ignore_required_relation, index: 0, stage: OnSaveStage::Pipelines }
    }

    /// Whether the frame knows its record and the record's model.
    pub open spec fn grounded(&self, namespace: &Namespace, records: Seq<Object>) -> bool {
        &&& self.object < records.len()
        &&& namespace.spec_model(names_of(records[self.object as int].model_path)) is Some
    }

    /// The model of the frame's record.
    pub open spec fn model(&self, namespace: &Namespace, records: Seq<Object>) -> Model {
        namespace.spec_model(names_of(records[self.object as int].model_path))->0
    }

    /// The frame at the next key of the same stage.
    pub open spec fn advanced(self, stage: OnSaveStage) -> OnSave {
        OnSave { index: (self.index + 1) as usize, stage, ..self }
    }

    /// Whether the saved key at the frame's index is a field with an on-save
    /// pipeline.
    pub open spec fn has_on_save(model: &Model, key: Seq<char>) -> bool {
        model.spec_field(key) matches Some(field) && field.on_save.items@.len() > 0
    }

    /// Whether `step`, and the records after it, are what
    /// [`OnSave::run_on_save`] makes of the preparation as it stands.
    pub open spec fn run_on_save_step(self, namespace: &Namespace, records: &Vec<Object>, step: Step) -> bool {
        &&& !ends_well(step)
        &&& !self.grounded(namespace, records@) ==> step is Return
        &&& (self.grounded(namespace, records@) ==> {
            let model = self.model(namespace, records@);
            let record = records[self.object as int];
            if self.index >= model.cache.save_keys.len() {
                step == Step::Again(
                    Frame::OnSave(
                        OnSave { index: 0, stage: OnSaveStage::Validation, ..self },
                    ),
                )
            } else {
                let key = model.cache.save_keys[self.index as int];
                if Self::has_on_save(&model, key@) {
                    step matches Step::Call(Frame::OnSave(next), callee) && next == (OnSave {
                        stage: OnSaveStage::Running,
                        ..self
                    }) && calls(
                        callee,
                        names_of(record.model_path),
                        Place::FieldOnSave(key),
                        record.value_or_null(key@),
                        self.object,
                        self.path@.push(ItemView::Key(key@)),
                        record.action,
                    )
                } else {
                    step == Step::Again(Frame::OnSave(self.advanced(OnSaveStage::Pipelines)))
                }
            }
        })
    }

    /// Starts the on-save pipeline of the current saved key where it is a
    /// field that has one, on the value that the record holds for it. Once
    /// every saved key is done, validation is due.
    pub fn run_on_save(self, namespace: &Namespace, records: &Vec<Object>) -> (step: Step)
        requires
            self.index < usize::MAX,
        ensures
            self.run_on_save_step(namespace, records, step),
    {
        if self.object >= records.len() {
            return Step::Return(Err(no_record()));
        }
        let record = &records[self.object];
        let model = match namespace.model_at_path(&record.model_path) {
            Some(model) => model,
            None => {
                return Step::Return(Err(no_model()));
            },
        };
        if self.index >= model.cache.save_keys.len() {
            return Step::Again(
                Frame::OnSave(OnSave { index: 0, stage: OnSaveStage::Validation, ..self }),
            );
        }
        let key = &model.cache.save_keys[self.index];
        let needed = match model.field(key.as_str()) {
            Some(field) => field.needs_on_save_callback(),
            None => false,
        };
        if needed {
            let run = crate::pipeline::run::start(
                &record.model_path,
                Place::FieldOnSave(key.clone()),
                record.get_value_map_value(key.as_str()),
                Some(self.object),
                self.path.with_key(key.as_str()),
                record.action,
            );
            Step::Call(
                Frame::OnSave(OnSave { stage: OnSaveStage::Running, ..self }),
                Frame::Pipeline(run),
            )
        } else {
            Step::Again(
                Frame::OnSave(
                    OnSave { index: self.index + 1, stage: OnSaveStage::Pipelines, ..self },
                ),
            )
        }
    }

    /// Whether `step`, and the records after it, are what
    /// [`OnSave::after_on_save`] makes of the preparation as it stands.
    pub open spec fn after_on_save_step(self, namespace: &Namespace, earlier: Vec<Object>, later: Vec<Object>, result: Result<Returned, Error>, step: Step) -> bool {
        &&& !ends_well(step)
        &&& others_same(earlier@, later@, self.object)
        &&& match result {
            Err(cause) => step == Step::Return(Err(cause)) && later@ == earlier@,
            Ok(Returned::Value(value)) => self.grounded(namespace, earlier@) && self.index
                < self.model(namespace, earlier@).cache.save_keys.len() ==> {
                let before = earlier[self.object as int];
                let model = self.model(namespace, earlier@);
                &&& step == Step::Again(Frame::OnSave(self.advanced(OnSaveStage::Pipelines)))
                &&& later[self.object as int].tracking() == assign(
                    before.tracking(),
                    before.is_new,
                    &model,
                    model.cache.save_keys[self.index as int]@,
                    value@,
                )
                &&& later[self.object as int].same_besides_values(&before)
                &&& (before.wf() ==> later[self.object as int].wf())
            },
            Ok(_) => fails_with(step, unexpected_reply()) && later@ == earlier@,
        }
    }

    /// Takes in what the on-save pipeline of the current saved key produced:
    /// the value is assigned to the key.
    pub fn after_on_save(self, namespace: &Namespace, records: &mut Vec<Object>, result: Result<Returned, Error>) -> (step: Step)
        requires
            self.index < usize::MAX,
        ensures
            self.after_on_save_step(namespace, *old(records), *final(records), result, step),
    {
        let value = match result {
            Err(cause) => {
                return Step::Return(Err(cause));
            },
            Ok(Returned::Value(value)) => value,
            Ok(_) => {
                return Step::Return(Err(unexpected()));
            },
        };
        if self.object >= records.len() {
            return Step::Return(Err(no_record()));
        }
        let model = match namespace.model_at_path(&records[self.object].model_path) {
            Some(model) => model,
            None => {
                return Step::Return(Err(no_model()));
            },
        };
        if self.index >= model.cache.save_keys.len() {
            return Step::Return(Err(unexpected()));
        }
        records[self.object].set_value_to_value_map(
            model,
            model.cache.save_keys[self.index].as_str(),
            value,
        );
        Step::Again(
            Frame::OnSave(OnSave { index: self.index + 1, stage: OnSaveStage::Pipelines, ..self }),
        )
    }

    /// Whether `step`, and the records after it, are what [`OnSave::validate`]
    /// makes of the preparation as it stands.
    pub open spec fn validate_step(self, namespace: &Namespace, records: &Vec<Object>, step: Step) -> bool {
        &&& !self.grounded(namespace, records@) ==> step is Return && !ends_well(step)
        &&& (self.grounded(namespace, records@) ==> {
            let model = self.model(namespace, records@);
            let record = records[self.object as int];
            if self.index >= model.cache.save_keys.len() {
                let lacking = crate::collections::names::first_where(
                    names_of(model.cache.relation_output_keys),
                    |key: Seq<char>|
                        relation_key_lacks(
                            &record,
                            &model,
                            key,
                            self.ignore_required_relation,
                        ),
                );
                if lacking < model.cache.relation_output_keys.len() {
                    fails_with(
                        step,
                        missing_required_input(
                            self.path@.push(
                                ItemView::Key(model.cache.relation_output_keys[lacking]@),
                            ),
                        ),
                    )
                } else {
                    step == Step::Return(Ok(Returned::Done))
                }
            } else {
                let key = model.cache.save_keys[self.index as int];
                match model.spec_field(key@) {
                    Some(field) => match field_requirement(field, record.values()) {
                        Requirement::Satisfied => step == Step::Again(
                            Frame::OnSave(self.advanced(OnSaveStage::Validation)),
                        ),
                        Requirement::Missing => fails_with(
                            step,
                            missing_required_input(self.path@.push(ItemView::Key(key@))),
                        ),
                        Requirement::Ask => step matches Step::Call(
                            Frame::OnSave(next),
                            callee,
                        ) && next == (OnSave { stage: OnSaveStage::Condition, ..self })
                            && calls(
                            callee,
                            names_of(record.model_path),
                            Place::FieldPresentIf(key),
                            ValueView::Null,
                            self.object,
                            self.path@.push(ItemView::Key(key@)),
                            record.action,
                        ),
                    },
                    None => step == Step::Again(
                        Frame::OnSave(self.advanced(OnSaveStage::Validation)),
                    ),
                }
            }
        })
    }

    /// Validates the current saved key: a value that is required and missing
    /// ends the preparation with an error at the path of the key; a field
    /// whose optionality has a condition and that holds no value has the
    /// condition run first. Once every saved key is done, the relations are
    /// validated and the preparation ends.
    pub fn validate(self, namespace: &Namespace, records: &Vec<Object>) -> (step: Step)
        requires
            self.index < usize::MAX,
        ensures
            self.validate_step(namespace, records, step),
    {
        if self.object >= records.len() {
            return Step::Return(Err(no_record()));
        }
        let record = &records[self.object];
        let model = match namespace.model_at_path(&record.model_path) {
            Some(model) => model,
            None => {
                return Step::Return(Err(no_model()));
            },
        };
        if self.index >= model.cache.save_keys.len() {
            return match record.validate_required_relations(
                model,
                &self.path,
                self.ignore_required_relation,
            ) {
                Ok(()) => Step::Return(Ok(Returned::Done)),
                Err(error) => Step::Return(Err(error)),
            };
        }
        let key = &model.cache.save_keys[self.index];
        match record.requirement(model, key.as_str()) {
            Requirement::Satisfied => Step::Again(
                Frame::OnSave(
                    OnSave { index: self.index + 1, stage: OnSaveStage::Validation, ..self },
                ),
            ),
            Requirement::Missing => match record.validate_required_field(
                model,
                key.as_str(),
                &self.path,
                true,
            ) {
                Err(error) => Step::Return(Err(error)),
                Ok(()) => Step::Return(Err(unexpected())),
            },
            Requirement::Ask => {
                let run = crate::pipeline::run::start(
                    &record.model_path,
                    Place::FieldPresentIf(key.clone()),
                    Value::Null,
                    Some(self.object),
                    self.path.with_key(key.as_str()),
                    record.action,
                );
                Step::Call(
                    Frame::OnSave(OnSave { stage: OnSaveStage::Condition, ..self }),
                    Frame::Pipeline(run),
                )
            },
        }
    }

    /// Whether `step`, and the records after it, are what
    /// [`OnSave::after_condition`] makes of the preparation as it stands.
    pub open spec fn after_condition_step(self, namespace: &Namespace, records: &Vec<Object>, result: Result<Returned, Error>, step: Step) -> bool {
        &&& !ends_well(step)
        &&& self.grounded(namespace, records@) && self.index
            < self.model(namespace, records@).cache.save_keys.len() ==> {
            let model = self.model(namespace, records@);
            let key = model.cache.save_keys[self.index as int]@;
            if records[self.object as int].field_is_missing(&model, key, result is Ok) {
                fails_with(step, missing_required_input(self.path@.push(ItemView::Key(key))))
            } else {
                step == Step::Again(Frame::OnSave(self.advanced(OnSaveStage::Validation)))
            }
        }
    }

    /// Takes in the result of the condition of the current key's
    /// optionality: where the condition passed, the value is required and
    /// missing; where it failed, the next key is due.
    pub fn after_condition(self, namespace: &Namespace, records: &Vec<Object>, result: Result<Returned, Error>) -> (step: Step)
        requires
            self.index < usize::MAX,
        ensures
            self.after_condition_step(namespace, records, result, step),
    {
        if self.object >= records.len() {
            return Step::Return(Err(no_record()));
        }
        let record = &records[self.object];
        let model = match namespace.model_at_path(&record.model_path) {
            Some(model) => model,
            None => {
                return Step::Return(Err(no_model()));
            },
        };
        if self.index >= model.cache.save_keys.len() {
            return Step::Return(Err(unexpected()));
        }
        match record.validate_required_field(
            model,
            model.cache.save_keys[self.index].as_str(),
            &self.path,
            result.is_ok(),
        ) {
            Err(error) => Step::Return(Err(error)),
            Ok(()) => Step::Again(
                Frame::OnSave(
                    OnSave { index: self.index + 1, stage: OnSaveStage::Validation, ..self },
                ),
            ),
        }
    }

    /// Whether `step`, and the records after it, are what the preparation makes
    /// of `input`: each stage takes in what it waits for, and any other input
    /// ends the preparation with an error and leaves the records as they are.
    pub open spec fn apply_on_save_pipeline_and_validate_required_fields_step(self, namespace: &Namespace, earlier: Vec<Object>, later: Vec<Object>, input: Input, step: Step) -> bool {
        &&& others_same(earlier@, later@, self.object)
        &&& self.index == usize::MAX ==> fails_with(step, unexpected_reply())
        &&& ends_well(step) ==> self.stage == OnSaveStage::Validation && self.grounded(
            namespace,
            earlier@,
        ) && later@ == earlier@ && self.index >= self.model(
            namespace,
            earlier@,
        ).cache.save_keys.len()
        &&& if self.index == usize::MAX {
            fails_with(step, unexpected_reply()) && later@ == earlier@
        } else {
            match (self.stage, input) {
                (OnSaveStage::Pipelines, Input::Start) => self.run_on_save_step(
                    namespace,
                    &earlier,
                    step,
                ) && later@ == earlier@,
                (OnSaveStage::Running, Input::Returned(result)) => self.after_on_save_step(
                    namespace,
                    earlier,
                    later,
                    result,
                    step,
                ),
                (OnSaveStage::Validation, Input::Start) => self.validate_step(
                    namespace,
                    &earlier,
                    step,
                ) && later@ == earlier@,
                (OnSaveStage::Condition, Input::Returned(result)) => self.after_condition_step(
                    namespace,
                    &earlier,
                    result,
                    step,
                ) && later@ == earlier@,
                _ => fails_with(step, unexpected_reply()) && later@ == earlier@,
            }
        }
    }

    /// Resumes the preparation of a save.
    ///
    /// A stage that waits for a pipeline takes in its result; the other
    /// stages go on at once. Any input that does not fit the stage ends the
    /// preparation with an error. Only the record of the frame can change.
    pub fn apply_on_save_pipeline_and_validate_required_fields(self, namespace: &Namespace, records: &mut Vec<Object>, input: Input) -> (step: Step)
        ensures
            self.apply_on_save_pipeline_and_validate_required_fields_step(namespace, *old(records), *final(records), input, step),
    {
        if self.index == usize::MAX {
            return Step::Return(Err(unexpected()));
        }
        match (self.stage, input) {
            (OnSaveStage::Pipelines, Input::Start) => self.run_on_save(namespace, records),
            (OnSaveStage::Running, Input::Returned(result)) => self.after_on_save(
                namespace,
                records,
                result,
            ),
            (OnSaveStage::Validation, Input::Start) => self.validate(namespace, records),
            (OnSaveStage::Condition, Input::Returned(result)) => self.after_condition(
                namespace,
                records,
                result,
            ),
            _ => Step::Return(Err(unexpected())),
        }
    }
}

} // verus!
