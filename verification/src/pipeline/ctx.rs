use vstd::prelude::*;
use crate::action::action::Action;
use crate::collections::names::names_of;
use crate::model::field::{Optionality, Write};
use crate::model::model::Model;
use crate::namespace::namespace::Namespace;
use crate::path::key_path::KeyPath;
use crate::pipeline::pipeline::Pipeline;
use crate::value::value::Value;

verus! {

/// Where in a model a pipeline is written.
#[derive(Debug)]
pub enum Place {
    ModelCanRead,
    ModelCanMutate,
    BeforeSave,
    AfterSave,
    BeforeDelete,
    AfterDelete,
    FieldOnSet(String),
    FieldOnSave(String),
    FieldOnOutput(String),
    FieldCanRead(String),
    FieldCanMutate(String),
    FieldDefault(String),
    FieldWriteIf(String),
    FieldPresentIf(String),
    PropertyGetter(String),
    PropertySetter(String),
}

/// A pipeline of the schema, named by the model and the place it is written
/// at.
#[derive(Debug)]
pub struct PipelineRef {
    pub model: Vec<String>,
    pub place: Place,
}

/// What a pipeline runs on: the current value, the record it belongs to, the
/// path of the value in the input, and the operation under way.
#[derive(Debug)]
pub struct Ctx {
    pub value: Value,
    pub object: Option<usize>,
    pub path: KeyPath,
    pub action: Action,
}

/// The pipeline written at `place` of `model`, if there is one.
pub open spec fn spec_pipeline_of(model: &Model, place: Place) -> Option<Pipeline> {
    match place {
        Place::ModelCanRead => Some(model.can_read),
        Place::ModelCanMutate => Some(model.can_mutate),
        Place::BeforeSave => Some(model.before_save),
        Place::AfterSave => Some(model.after_save),
        Place::BeforeDelete => Some(model.before_delete),
        Place::AfterDelete => Some(model.after_delete),
        Place::FieldOnSet(name) => match model.spec_field(name@) {
            Some(field) => Some(field.on_set),
            None => None,
        },
        Place::FieldOnSave(name) => match model.spec_field(name@) {
            Some(field) => Some(field.on_save),
            None => None,
        },
        Place::FieldOnOutput(name) => match model.spec_field(name@) {
            Some(field) => Some(field.on_output),
            None => None,
        },
        Place::FieldCanRead(name) => match model.spec_field(name@) {
            Some(field) => Some(field.can_read),
            None => None,
        },
        Place::FieldCanMutate(name) => match model.spec_field(name@) {
            Some(field) => Some(field.can_mutate),
            None => None,
        },
        Place::FieldDefault(name) => match model.spec_field(name@) {
            Some(field) => match field.default {
                Some(object) => match object.inner {
                    crate::object::ObjectInner::Pipeline(pipeline) => Some(pipeline),
                    _ => None,
                },
                None => None,
            },
            None => None,
        },
        Place::FieldWriteIf(name) => match model.spec_field(name@) {
            Some(field) => match field.write {
                Write::WriteIf(pipeline) => Some(pipeline),
                _ => None,
            },
            None => None,
        },
        Place::FieldPresentIf(name) => match model.spec_field(name@) {
            Some(field) => match field.optionality {
                Optionality::PresentIf(pipeline) => Some(pipeline),
                _ => None,
            },
            None => None,
        },
        Place::PropertyGetter(name) => match model.spec_property(name@) {
            Some(property) => property.getter,
            None => None,
        },
        Place::PropertySetter(name) => match model.spec_property(name@) {
            Some(property) => property.setter,
            None => None,
        },
    }
}

/// The pipeline written at `place` of `model`, if there is one.
pub fn pipeline_of<'a>(model: &'a Model, place: &Place) -> (found: Option<&'a Pipeline>)
    ensures
        match found {
            Some(pipeline) => spec_pipeline_of(model, *place) == Some(*pipeline),
            None => spec_pipeline_of(model, *place) is None,
        },
{
    match place {
        Place::ModelCanRead => Some(&model.can_read),
        Place::ModelCanMutate => Some(&model.can_mutate),
        Place::BeforeSave => Some(&model.before_save),
        Place::AfterSave => Some(&model.after_save),
        Place::BeforeDelete => Some(&model.before_delete),
        Place::AfterDelete => Some(&model.after_delete),
        Place::FieldOnSet(name) => match model.field(name.as_str()) {
            Some(field) => Some(&field.on_set),
            None => None,
        },
        Place::FieldOnSave(name) => match model.field(name.as_str()) {
            Some(field) => Some(&field.on_save),
            None => None,
        },
        Place::FieldOnOutput(name) => match model.field(name.as_str()) {
            Some(field) => Some(&field.on_output),
            None => None,
        },
        Place::FieldCanRead(name) => match model.field(name.as_str()) {
            Some(field) => Some(&field.can_read),
            None => None,
        },
        Place::FieldCanMutate(name) => match model.field(name.as_str()) {
            Some(field) => Some(&field.can_mutate),
            None => None,
        },
        Place::FieldDefault(name) => match model.field(name.as_str()) {
            Some(field) => match &field.default {
                Some(object) => object.as_pipeline(),
                None => None,
            },
            None => None,
        },
        Place::FieldWriteIf(name) => match model.field(name.as_str()) {
            Some(field) => match &field.write {
                Write::WriteIf(pipeline) => Some(pipeline),
                _ => None,
            },
            None => None,
        },
        Place::FieldPresentIf(name) => match model.field(name.as_str()) {
            Some(field) => match &field.optionality {
                Optionality::PresentIf(pipeline) => Some(pipeline),
                _ => None,
            },
            None => None,
        },
        Place::PropertyGetter(name) => match model.property(name.as_str()) {
            Some(property) => property.getter.as_ref(),
            None => None,
        },
        Place::PropertySetter(name) => match model.property(name.as_str()) {
            Some(property) => property.setter.as_ref(),
            None => None,
        },
    }
}

impl PipelineRef {
    /// The pipeline that the reference names in `namespace`.
    pub open spec fn spec_resolve(&self, namespace: &Namespace) -> Option<Pipeline> {
        match namespace.spec_model(names_of(self.model)) {
            Some(model) => spec_pipeline_of(&model, self.place),
            None => None,
        }
    }

    /// The pipeline that the reference names in `namespace`.
    pub fn resolve<'a>(&self, namespace: &'a Namespace) -> (found: Option<&'a Pipeline>)
        ensures
            match found {
                Some(pipeline) => self.spec_resolve(namespace) == Some(*pipeline),
                None => self.spec_resolve(namespace) is None,
            },
    {
        match namespace.model_at_path(&self.model) {
            Some(model) => pipeline_of(model, &self.place),
            None => None,
        }
    }
}

} // verus!
