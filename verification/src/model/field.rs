use vstd::prelude::*;
use crate::object::Object;
use crate::pipeline::pipeline::Pipeline;
use crate::value::value::Value;

verus! {

/// One name, or a group of names of which any one counts.
#[derive(Debug)]
pub enum FieldNames {
    One(String),
    Any(Vec<String>),
}

/// When a field must hold a value at save time.
#[derive(Debug)]
pub enum Optionality {
    Optional,
    Required,
    /// Must be present when any of the named fields is.
    PresentWith(Vec<FieldNames>),
    /// Must be present when none of the named fields is.
    PresentWithout(Vec<FieldNames>),
    /// Must be present when the pipeline passes.
    PresentIf(Pipeline),
}

/// When a field may be written.
#[derive(Debug)]
pub enum Write {
    NoWrite,
    Write,
    WriteOnCreate,
    WriteOnce,
    WriteNonNull,
    WriteIf(Pipeline),
}

/// When a field may be read.
#[derive(Debug)]
pub enum Read {
    NoRead,
    Read,
    ReadIf(Pipeline),
}

/// Whether the value a field had when its record was loaded is kept after
/// the field is changed.
#[derive(Debug, Copy, Clone, PartialEq, Eq, Structural)]
pub enum Previous {
    Dropped,
    Keep,
}

/// The kind of index a field takes part in.
#[derive(Debug, Copy, Clone, PartialEq, Eq, Structural)]
pub enum IndexKind {
    Primary,
    Index,
    Unique,
}

/// The order of an index.
#[derive(Debug, Copy, Clone, PartialEq, Eq, Structural)]
pub enum Sort {
    Asc,
    Desc,
}

/// The index settings written on a single field.
#[derive(Debug)]
pub struct FieldIndex {
    pub kind: IndexKind,
    pub name: Option<String>,
    pub sort: Sort,
    pub length: Option<usize>,
}

/// How a field took part in earlier versions of the schema.
#[derive(Debug)]
pub struct Migration {
    pub renamed: Vec<String>,
    pub version: Option<String>,
    pub default: Option<Value>,
    pub priority: Option<i64>,
}

/// A scalar field of a model.
#[derive(Debug)]
pub struct Field {
    pub name: String,
    pub column_name: String,
    pub database_type: Option<String>,
    pub optionality: Optionality,
    pub write: Write,
    pub read: Read,
    pub on_set: Pipeline,
    pub on_save: Pipeline,
    pub on_output: Pipeline,
    pub can_read: Pipeline,
    pub can_mutate: Pipeline,
    pub default: Option<Object>,
    pub auto: bool,
    pub auto_increment: bool,
    pub foreign_key: bool,
    pub is_virtual: bool,
    pub atomic: bool,
    pub input_omissible: bool,
    pub output_omissible: bool,
    pub previous: Previous,
    pub queryable: bool,
    pub sortable: bool,
    pub dropped: bool,
    pub index: Option<FieldIndex>,
    pub migration: Option<Migration>,
}

impl Field {
    /// A readable, writable, optional field named `name`, stored in the
    /// column of the same name, with empty pipelines and no flag set.
    pub fn new(name: &str) -> (field: Field)
        ensures
            field.name@ == name@,
            field.column_name@ == name@,
            field.database_type is None,
            field.optionality is Optional,
            field.write is Write,
            field.read is Read,
            field.on_set.items@.len() == 0,
            field.on_save.items@.len() == 0,
            field.on_output.items@.len() == 0,
            field.can_read.items@.len() == 0,
            field.can_mutate.items@.len() == 0,
            field.default is None,
            !field.auto && !field.auto_increment && !field.foreign_key && !field.is_virtual
                && !field.atomic && !field.input_omissible && !field.output_omissible
                && !field.dropped,
            field.previous == Previous::Dropped,
            field.queryable && field.sortable,
            field.index is None,
            field.migration is None,
    {
        Field {
            name: name.to_owned(),
            column_name: name.to_owned(),
            database_type: None,
            optionality: Optionality::Optional,
            write: Write::Write,
            read: Read::Read,
            on_set: Pipeline::new(),
            on_save: Pipeline::new(),
            on_output: Pipeline::new(),
            can_read: Pipeline::new(),
            can_mutate: Pipeline::new(),
            default: None,
            auto: false,
            auto_increment: false,
            foreign_key: false,
            is_virtual: false,
            atomic: false,
            input_omissible: false,
            output_omissible: false,
            previous: Previous::Dropped,
            queryable: true,
            sortable: true,
            dropped: false,
            index: None,
            migration: None,
        }
    }

    /// Whether an on-save pipeline has to run for this field.
    pub fn needs_on_save_callback(&self) -> (needed: bool)
        ensures
            needed == (self.on_save.items@.len() > 0),
    {
        !self.on_save.is_empty()
    }
}

} // verus!
