use vstd::prelude::*;
use crate::arguments::arguments::{bad_argument, invalid_argument, Arguments};
use crate::model::field::{
    Field, FieldIndex, FieldNames, IndexKind, Migration, Optionality, Read, Sort, Write,
};
use crate::object::ObjectInner;
use crate::path::error::Error;
use crate::pipeline::pipeline::Pipeline;
use crate::value::value::{copy_value, Value};

verus! {

/// What a decorator of a model field does to the field.
#[derive(Debug, Copy, Clone, PartialEq, Eq, Structural)]
pub enum Call {
    MapColumn,
    Db,
    Readonly,
    Writeonly,
    Internal,
    WriteOnCreate,
    WriteOnce,
    WriteNonNull,
    Readwrite,
    ReadIf,
    WriteIf,
    PresentWith,
    PresentWithout,
    PresentIf,
    Atomic,
    Nonatomic,
    Id,
    Index,
    Unique,
    Virtual,
    InputOmissible,
    OutputOmissible,
    Auto,
    AutoIncrement,
    Default,
    ForeignKey,
    OnSet,
    OnSave,
    OnOutput,
    Queryable,
    Unqueryable,
    Sortable,
    Unsortable,
    CanRead,
    CanMutate,
    Dropped,
    Migration,
}

/// A decorator that can be written on a model field.
#[derive(Debug)]
pub struct Decorator {
    pub path: Vec<String>,
    pub call: Call,
}

/// The name of a field as a decorator argument gives it: a string, or an
/// enum variant.
pub open spec fn spec_name_of(value: Value) -> Option<String> {
    match value {
        Value::String(name) => Some(name),
        Value::EnumVariant(name) => Some(name),
        _ => None,
    }
}

/// Whether `groups` are the field names that a decorator argument gives:
/// the one name, or the names of the list, each a group of its own.
pub open spec fn names_given(value: Value, groups: Vec<FieldNames>) -> bool {
    match value {
        Value::Array(items) => groups.len() == items.len() && forall|i: int|
            0 <= i < items.len() ==> spec_name_of(items[i]) is Some && #[trigger] groups[i]
                == FieldNames::One(spec_name_of(items[i])->0),
        other => spec_name_of(other) is Some && groups.len() == 1 && groups[0] == FieldNames::One(
            spec_name_of(other)->0,
        ),
    }
}

/// Whether a decorator argument gives field names.
pub open spec fn gives_names(value: Value) -> bool {
    match value {
        Value::Array(items) => forall|i: int|
            0 <= i < items.len() ==> spec_name_of(#[trigger] items[i]) is Some,
        other => spec_name_of(other) is Some,
    }
}

/// The name of a field as a decorator argument gives it.
fn name_of(value: Value) -> (name: Option<String>)
    ensures
        name == spec_name_of(value),
{
    match value {
        Value::String(name) => Some(name),
        Value::EnumVariant(name) => Some(name),
        _ => None,
    }
}

/// The field names that a decorator argument gives.
#[verifier::loop_isolation(false)]
fn names_from(value: Value) -> (groups: Option<Vec<FieldNames>>)
    ensures
        match groups {
            Some(groups) => names_given(value, groups) && gives_names(value),
            None => !gives_names(value),
        },
{
    match value {
        Value::Array(items) => {
            let mut items = items;
            let ghost all = items@;
            let mut groups: Vec<FieldNames> = Vec::new();
            while items.len() > 0
                invariant
                    groups.len() + items.len() == all.len(),
                    items@ == all.subrange(groups.len() as int, all.len() as int),
                    forall|i: int| 0 <= i < groups.len() ==> spec_name_of(#[trigger] all[i]) is Some,
                    forall|i: int|
                        0 <= i < groups.len() ==> spec_name_of(all[i]) is Some
                            && #[trigger] groups[i] == FieldNames::One(spec_name_of(all[i])->0),
                decreases items.len(),
            {
                let ghost done = groups.len();
                let ghost before = groups@;
                let item = items.remove(0);
                assert(item == all[done as int]);
                match name_of(item) {
                    Some(name) => {
                        groups.push(FieldNames::One(name));
                    },
                    None => {
                        return None;
                    },
                }
                assert(items@ =~= all.subrange(groups.len() as int, all.len() as int));
                assert forall|i: int| 0 <= i < groups.len() implies spec_name_of(all[i]) is Some
                    && #[trigger] groups[i] == FieldNames::One(spec_name_of(all[i])->0) by {
                    if i < done {
                        assert(groups[i] == before[i]);
                    }
                }
            }
            Some(groups)
        },
        other => match name_of(other) {
            Some(name) => Some(vec![FieldNames::One(name)]),
            None => None,
        },
    }
}

/// The argument that `call` needs and `arguments` do not give in the kind
/// asked for; `None` where `call` takes its arguments.
pub open spec fn missing_argument(call: Call, arguments: Arguments) -> Option<Seq<char>> {
    match call {
        Call::MapColumn => if arguments.spec_value("columnName"@) matches Some(Value::String(_)) {
            None
        } else {
            Some("columnName"@)
        },
        Call::Db => if arguments.spec_variant("type"@) is Some {
            None
        } else {
            Some("type"@)
        },
        Call::ReadIf => needs_pipeline(arguments, "cond"@),
        Call::WriteIf => needs_pipeline(arguments, "cond"@),
        Call::PresentIf => needs_pipeline(arguments, "cond"@),
        Call::OnSet => needs_pipeline(arguments, "pipeline"@),
        Call::OnSave => needs_pipeline(arguments, "pipeline"@),
        Call::OnOutput => needs_pipeline(arguments, "pipeline"@),
        Call::CanRead => needs_pipeline(arguments, "pipeline"@),
        Call::CanMutate => needs_pipeline(arguments, "pipeline"@),
        Call::PresentWith => needs_names(arguments),
        Call::PresentWithout => needs_names(arguments),
        Call::Default => match arguments.spec_get("value"@) {
            Some(object) => if object.inner is Teon || object.inner is Pipeline {
                None
            } else {
                Some("value"@)
            },
            None => Some("value"@),
        },
        Call::Migration => if !renames(arguments) {
            Some("renamed"@)
        } else if arguments.spec_get("version"@) is Some && !(arguments.spec_value(
            "version"@,
        ) matches Some(Value::String(_))) {
            Some("version"@)
        } else if arguments.spec_get("default"@) is Some && arguments.spec_value("default"@)
            is None {
            Some("default"@)
        } else if arguments.spec_get("priority"@) is Some && !(arguments.spec_value(
            "priority"@,
        ) matches Some(Value::Int(_))) {
            Some("priority"@)
        } else {
            None
        },
        _ => None,
    }
}

/// The name `name` where `arguments` give no pipeline under it.
pub open spec fn needs_pipeline(arguments: Arguments, name: Seq<char>) -> Option<Seq<char>> {
    if arguments.spec_pipeline(name) is Some {
        None
    } else {
        Some(name)
    }
}

/// The name `fields` where `arguments` give no field names under it.
pub open spec fn needs_names(arguments: Arguments) -> Option<Seq<char>> {
    match arguments.spec_value("fields"@) {
        Some(value) => if gives_names(value) {
            None
        } else {
            Some("fields"@)
        },
        None => Some("fields"@),
    }
}

/// Whether `arguments` give, under `renamed`, nothing or field names.
pub open spec fn renames(arguments: Arguments) -> bool {
    match arguments.spec_get("renamed"@) {
        Some(object) => match object.inner {
            ObjectInner::Teon(value) => gives_names(value),
            _ => false,
        },
        None => true,
    }
}

/// The index that a field takes part in by a decorator of its own.
pub open spec fn own_index(kind: IndexKind) -> FieldIndex {
    FieldIndex { kind, name: None, sort: Sort::Asc, length: None }
}

/// Whether `after` is the field `before` as the decorator `call` leaves it
/// when it is written with `arguments` that it takes.
pub open spec fn decorates(call: Call, arguments: Arguments, before: Field, after: Field) -> bool {
    match call {
        Call::MapColumn => after == (Field {
            column_name: arguments.spec_value("columnName"@)->0->String_0,
            ..before
        }),
        Call::Db => after == (Field {
            database_type: Some(arguments.spec_variant("type"@)->0.value),
            ..before
        }),
        Call::Readonly => after == (Field { write: Write::NoWrite, ..before }),
        Call::Writeonly => after == (Field { read: Read::NoRead, ..before }),
        Call::Internal => after == (Field { write: Write::NoWrite, read: Read::NoRead, ..before }),
        Call::WriteOnCreate => after == (Field { write: Write::WriteOnCreate, ..before }),
        Call::WriteOnce => after == (Field { write: Write::WriteOnce, ..before }),
        Call::WriteNonNull => after == (Field { write: Write::WriteNonNull, ..before }),
        Call::Readwrite => after == (Field { write: Write::Write, read: Read::Read, ..before }),
        Call::ReadIf => after == (Field {
            read: Read::ReadIf(arguments.spec_pipeline("cond"@)->0),
            ..before
        }),
        Call::WriteIf => after == (Field {
            write: Write::WriteIf(arguments.spec_pipeline("cond"@)->0),
            ..before
        }),
        Call::PresentWith => after == (Field { optionality: after.optionality, ..before }) && (
        match after.optionality {
            Optionality::PresentWith(groups) => names_given(
                arguments.spec_value("fields"@)->0,
                groups,
            ),
            _ => false,
        }),
        Call::PresentWithout => after == (Field { optionality: after.optionality, ..before }) && (
        match after.optionality {
            Optionality::PresentWithout(groups) => names_given(
                arguments.spec_value("fields"@)->0,
                groups,
            ),
            _ => false,
        }),
        Call::PresentIf => after == (Field {
            optionality: Optionality::PresentIf(arguments.spec_pipeline("cond"@)->0),
            ..before
        }),
        Call::Atomic => after == (Field { atomic: true, ..before }),
        Call::Nonatomic => after == (Field { atomic: false, ..before }),
        Call::Id => after == (Field { index: Some(own_index(IndexKind::Primary)), ..before }),
        Call::Index => after == (Field { index: Some(own_index(IndexKind::Index)), ..before }),
        Call::Unique => after == (Field { index: Some(own_index(IndexKind::Unique)), ..before }),
        Call::Virtual => after == (Field { is_virtual: true, ..before }),
        Call::InputOmissible => after == (Field { input_omissible: true, ..before }),
        Call::OutputOmissible => after == (Field { output_omissible: true, ..before }),
        Call::Auto => after == (Field { auto: true, input_omissible: true, ..before }),
        Call::AutoIncrement => after == (Field {
            auto_increment: true,
            input_omissible: true,
            ..before
        }),
        Call::Default => after == (Field {
            default: arguments.spec_get("value"@),
            input_omissible: true,
            ..before
        }),
        Call::ForeignKey => after == (Field { foreign_key: true, input_omissible: true, ..before }),
        Call::OnSet => after == (Field {
            on_set: arguments.spec_pipeline("pipeline"@)->0,
            ..before
        }),
        Call::OnSave => after == (Field {
            on_save: arguments.spec_pipeline("pipeline"@)->0,
            ..before
        }),
        Call::OnOutput => after == (Field {
            on_output: arguments.spec_pipeline("pipeline"@)->0,
            ..before
        }),
        Call::Queryable => after == (Field { queryable: true, ..before }),
        Call::Unqueryable => after == (Field { queryable: false, ..before }),
        Call::Sortable => after == (Field { sortable: true, ..before }),
        Call::Unsortable => after == (Field { sortable: false, ..before }),
        Call::CanRead => after == (Field {
            can_read: arguments.spec_pipeline("pipeline"@)->0,
            ..before
        }),
        Call::CanMutate => after == (Field {
            can_mutate: arguments.spec_pipeline("pipeline"@)->0,
            ..before
        }),
        Call::Dropped => after == (Field { dropped: true, ..before }),
        Call::Migration => after == (Field { migration: after.migration, ..before }) && (
        match after.migration {
            Some(migration) => migrates(arguments, migration),
            None => false,
        }),
    }
}

/// Whether `migration` is what the arguments of the decorator `migration`
/// say: the earlier names of the field, the version, the default value and
/// the priority, each where it is given.
pub open spec fn migrates(arguments: Arguments, migration: Migration) -> bool {
    &&& match arguments.spec_value("renamed"@) {
        Some(value) => renamed_to(value, migration.renamed),
        None => migration.renamed.len() == 0,
    }
    &&& match arguments.spec_value("version"@) {
        Some(Value::String(version)) => migration.version is Some && migration.version->0@
            == version@,
        _ => migration.version is None,
    }
    &&& match arguments.spec_value("default"@) {
        Some(value) => migration.default is Some && migration.default->0@ == value@,
        None => migration.default is None,
    }
    &&& match arguments.spec_value("priority"@) {
        Some(Value::Int(priority)) => migration.priority == Some(priority as i64),
        _ => migration.priority is None,
    }
}

/// Whether `renamed` holds the names that a decorator argument gives.
pub open spec fn renamed_to(value: Value, renamed: Vec<String>) -> bool {
    match value {
        Value::Array(items) => renamed.len() == items.len() && forall|i: int|
            0 <= i < items.len() ==> spec_name_of(items[i]) is Some && (#[trigger] renamed[i])@
                == spec_name_of(items[i])->0@,
        other => spec_name_of(other) is Some && renamed.len() == 1 && renamed[0]@
            == spec_name_of(other)->0@,
    }
}

/// A copy of the name that a decorator argument gives.
fn copy_name(value: &Value) -> (name: Option<String>)
    ensures
        match name {
            Some(name) => spec_name_of(*value) is Some && name@ == spec_name_of(*value)->0@,
            None => spec_name_of(*value) is None,
        },
{
    match value {
        Value::String(name) => Some(name.clone()),
        Value::EnumVariant(name) => Some(name.clone()),
        _ => None,
    }
}

/// Copies of the names that a decorator argument gives.
#[verifier::loop_isolation(false)]
fn copy_renamed(value: &Value) -> (renamed: Option<Vec<String>>)
    ensures
        match renamed {
            Some(renamed) => renamed_to(*value, renamed) && gives_names(*value),
            None => !gives_names(*value),
        },
{
    match value {
        Value::Array(items) => {
            let mut renamed: Vec<String> = Vec::new();
            let mut i: usize = 0;
            while i < items.len()
                invariant
                    i <= items.len(),
                    renamed.len() == i,
                    forall|j: int| 0 <= j < i ==> spec_name_of(#[trigger] items[j]) is Some,
                    forall|j: int|
                        0 <= j < i ==> (#[trigger] renamed[j])@ == spec_name_of(items[j])->0@,
                decreases items.len() - i,
            {
                let ghost before = renamed@;
                match copy_name(&items[i]) {
                    Some(name) => {
                        renamed.push(name);
                    },
                    None => {
                        assert(spec_name_of(items[i as int]) is None);
                        return None;
                    },
                }
                proof {
                    assert forall|j: int| 0 <= j < i + 1 implies (#[trigger] renamed[j])@
                        == spec_name_of(items[j])->0@ by {
                        if j < i {
                            assert(renamed[j] == before[j]);
                        }
                    }
                }
                i += 1;
            }
            Some(renamed)
        },
        other => match copy_name(other) {
            Some(name) => Some(vec![name]),
            None => None,
        },
    }
}

/// What the arguments of the decorator `migration` say.
fn migration_from(arguments: &Arguments) -> (result: Result<Migration, Error>)
    ensures
        match result {
            Ok(migration) => missing_argument(Call::Migration, *arguments) is None && migrates(
                *arguments,
                migration,
            ),
            Err(error) => missing_argument(Call::Migration, *arguments) is Some && error@
                == invalid_argument(missing_argument(Call::Migration, *arguments)->0),
        },
{
    let renamed = match arguments.get_object("renamed") {
        Some(object) => match object.as_teon() {
            Some(value) => match copy_renamed(value) {
                Some(renamed) => renamed,
                None => {
                    return Err(bad_argument("renamed"));
                },
            },
            None => {
                return Err(bad_argument("renamed"));
            },
        },
        None => Vec::new(),
    };
    let version = match arguments.get_object("version") {
        Some(object) => match object.as_teon() {
            Some(Value::String(version)) => Some(version.clone()),
            _ => {
                return Err(bad_argument("version"));
            },
        },
        None => None,
    };
    let default = match arguments.get_object("default") {
        Some(object) => match object.as_teon() {
            Some(value) => Some(copy_value(value)),
            None => {
                return Err(bad_argument("default"));
            },
        },
        None => None,
    };
    let priority = match arguments.get_object("priority") {
        Some(object) => match object.as_teon() {
            Some(Value::Int(priority)) => Some(*priority as i64),
            _ => {
                return Err(bad_argument("priority"));
            },
        },
        None => None,
    };
    Ok(Migration { renamed, version, default, priority })
}

/// Whether the decorator takes no argument.
pub open spec fn is_flag(call: Call) -> bool {
    !(call is MapColumn || call is Db || call is ReadIf || call is WriteIf || call is PresentWith
        || call is PresentWithout || call is PresentIf || call is Default || call is OnSet
        || call is OnSave || call is OnOutput || call is CanRead || call is CanMutate
        || call is Migration)
}

/// Whether the decorator takes one pipeline.
pub open spec fn takes_pipeline(call: Call) -> bool {
    call is ReadIf || call is WriteIf || call is PresentIf || call is OnSet || call is OnSave
        || call is OnOutput || call is CanRead || call is CanMutate
}

impl Call {
    /// Applies a decorator that takes no argument.
    fn set_flag(self, arguments: &Arguments, field: &mut Field)
        requires
            is_flag(self),
        ensures
            missing_argument(self, *arguments) is None,
            decorates(self, *arguments, *old(field), *final(field)),
    {
        match self {
            Call::Readonly => {
                field.write = Write::NoWrite;
            },
            Call::Writeonly => {
                field.read = Read::NoRead;
            },
            Call::Internal => {
                field.write = Write::NoWrite;
                field.read = Read::NoRead;
            },
            Call::WriteOnCreate => {
                field.write = Write::WriteOnCreate;
            },
            Call::WriteOnce => {
                field.write = Write::WriteOnce;
            },
            Call::WriteNonNull => {
                field.write = Write::WriteNonNull;
            },
            Call::Readwrite => {
                field.write = Write::Write;
                field.read = Read::Read;
            },
            Call::Atomic => {
                field.atomic = true;
            },
            Call::Nonatomic => {
                field.atomic = false;
            },
            Call::Id => {
                field.index = Some(
                    FieldIndex { kind: IndexKind::Primary, name: None, sort: Sort::Asc, length: None },
                );
            },
            Call::Index => {
                field.index = Some(
                    FieldIndex { kind: IndexKind::Index, name: None, sort: Sort::Asc, length: None },
                );
            },
            Call::Unique => {
                field.index = Some(
                    FieldIndex { kind: IndexKind::Unique, name: None, sort: Sort::Asc, length: None },
                );
            },
            Call::Virtual => {
                field.is_virtual = true;
            },
            Call::InputOmissible => {
                field.input_omissible = true;
            },
            Call::OutputOmissible => {
                field.output_omissible = true;
            },
            Call::Auto => {
                field.auto = true;
                field.input_omissible = true;
            },
            Call::AutoIncrement => {
                field.auto_increment = true;
                field.input_omissible = true;
            },
            Call::ForeignKey => {
                field.foreign_key = true;
                field.input_omissible = true;
            },
            Call::Queryable => {
                field.queryable = true;
            },
            Call::Unqueryable => {
                field.queryable = false;
            },
            Call::Sortable => {
                field.sortable = true;
            },
            Call::Unsortable => {
                field.sortable = false;
            },
            Call::Dropped => {
                field.dropped = true;
            },
            _ => {},
        }
    }

    /// Applies a decorator that takes one pipeline.
    fn set_pipeline(self, arguments: Arguments, field: &mut Field) -> (result: Result<(), Error>)
        requires
            takes_pipeline(self),
        ensures
            match result {
                Ok(()) => missing_argument(self, arguments) is None && decorates(
                    self,
                    arguments,
                    *old(field),
                    *final(field),
                ),
                Err(error) => missing_argument(self, arguments) is Some && error@
                    == invalid_argument(missing_argument(self, arguments)->0) && *final(field)
                    == *old(field),
            },
    {
        let mut arguments = arguments;
        let name = match self {
            Call::ReadIf => "cond",
            Call::WriteIf => "cond",
            Call::PresentIf => "cond",
            _ => "pipeline",
        };
        let pipeline = match arguments.take_pipeline(name) {
            Ok(pipeline) => pipeline,
            Err(error) => {
                return Err(error);
            },
        };
        match self {
            Call::ReadIf => {
                field.read = Read::ReadIf(pipeline);
            },
            Call::WriteIf => {
                field.write = Write::WriteIf(pipeline);
            },
            Call::PresentIf => {
                field.optionality = Optionality::PresentIf(pipeline);
            },
            Call::OnSet => {
                field.on_set = pipeline;
            },
            Call::OnSave => {
                field.on_save = pipeline;
            },
            Call::OnOutput => {
                field.on_output = pipeline;
            },
            Call::CanRead => {
                field.can_read = pipeline;
            },
            Call::CanMutate => {
                field.can_mutate = pipeline;
            },
            _ => {},
        }
        Ok(())
    }

    /// Applies a decorator that takes values.
    fn set_values(self, arguments: Arguments, field: &mut Field) -> (result: Result<(), Error>)
        requires
            !is_flag(self),
            !takes_pipeline(self),
        ensures
            match result {
                Ok(()) => missing_argument(self, arguments) is None && decorates(
                    self,
                    arguments,
                    *old(field),
                    *final(field),
                ),
                Err(error) => missing_argument(self, arguments) is Some && error@
                    == invalid_argument(missing_argument(self, arguments)->0) && *final(field)
                    == *old(field),
            },
    {
        let mut arguments = arguments;
        match self {
            Call::MapColumn => match arguments.take_value("columnName") {
                Ok(Value::String(name)) => {
                    field.column_name = name;
                },
                _ => {
                    return Err(bad_argument("columnName"));
                },
            },
            Call::Db => {
                let variant = match arguments.take_variant("type") {
                    Ok(variant) => variant,
                    Err(error) => {
                        return Err(error);
                    },
                };
                field.database_type = Some(variant.value);
            },
            Call::PresentWith => {
                let groups = match arguments.take_value("fields") {
                    Ok(value) => names_from(value),
                    Err(_) => None,
                };
                match groups {
                    Some(groups) => {
                        field.optionality = Optionality::PresentWith(groups);
                    },
                    None => {
                        return Err(bad_argument("fields"));
                    },
                }
            },
            Call::PresentWithout => {
                let groups = match arguments.take_value("fields") {
                    Ok(value) => names_from(value),
                    Err(_) => None,
                };
                match groups {
                    Some(groups) => {
                        field.optionality = Optionality::PresentWithout(groups);
                    },
                    None => {
                        return Err(bad_argument("fields"));
                    },
                }
            },
            Call::Default => {
                match arguments.take("value") {
                    Some(object) => {
                        if object.is_teon() || object.is_pipeline() {
                            field.default = Some(object);
                            field.input_omissible = true;
                        } else {
                            return Err(bad_argument("value"));
                        }
                    },
                    None => {
                        return Err(bad_argument("value"));
                    },
                }
            },
            Call::Migration => {
                let migration = match migration_from(&arguments) {
                    Ok(migration) => migration,
                    Err(error) => {
                        return Err(error);
                    },
                };
                field.migration = Some(migration);
            },
            _ => {},
        }
        Ok(())
    }

    /// Applies the decorator to `field`, with the arguments that it was
    /// written with.
    ///
    /// A decorator whose arguments are missing or of the wrong kind is
    /// refused with the name of the first such argument, and leaves the
    /// field as it is.
    pub fn call(self, arguments: Arguments, field: &mut Field) -> (result: Result<(), Error>)
        ensures
            match result {
                Ok(()) => missing_argument(self, arguments) is None && decorates(
                    self,
                    arguments,
                    *old(field),
                    *final(field),
                ),
                Err(error) => missing_argument(self, arguments) is Some && error@
                    == invalid_argument(missing_argument(self, arguments)->0) && *final(field)
                    == *old(field),
            },
    {
        match self {
            Call::MapColumn => self.set_values(arguments, field),
            Call::Db => self.set_values(arguments, field),
            Call::PresentWith => self.set_values(arguments, field),
            Call::PresentWithout => self.set_values(arguments, field),
            Call::Default => self.set_values(arguments, field),
            Call::Migration => self.set_values(arguments, field),
            Call::ReadIf => self.set_pipeline(arguments, field),
            Call::WriteIf => self.set_pipeline(arguments, field),
            Call::PresentIf => self.set_pipeline(arguments, field),
            Call::OnSet => self.set_pipeline(arguments, field),
            Call::OnSave => self.set_pipeline(arguments, field),
            Call::OnOutput => self.set_pipeline(arguments, field),
            Call::CanRead => self.set_pipeline(arguments, field),
            Call::CanMutate => self.set_pipeline(arguments, field),
            _ => {
                self.set_flag(&arguments, field);
                Ok(())
            },
        }
    }
}

} // verus!
