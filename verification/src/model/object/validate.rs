use vstd::prelude::*;
use crate::collections::names::{
    first_where, has_name, lemma_first_where_is, lemma_first_where_none, names_of,
};
use crate::model::field::{Field, FieldNames, Optionality, Write};
use crate::model::model::Model;
use crate::model::object::object::{invalid_key, invalid_key_error, value_in, Object};
use crate::model::relation::Relation;
use crate::path::error::{Error, ErrorKind, ErrorView};
use crate::path::key_path::{ItemView, KeyPath};
use crate::value::value::{Dictionary, Value, ValueView};

verus! {

/// Whether a field that a record holds no value for may stay empty.
#[derive(Debug, Copy, Clone, PartialEq, Eq, Structural)]
pub enum Requirement {
    /// Nothing is missing.
    Satisfied,
    /// A value is required and missing.
    Missing,
    /// A value is required if the field's condition pipeline passes.
    Ask,
}

/// Whether a name group is present: the one field, or any of the fields, is
/// not null.
pub open spec fn group_present(values: Map<Seq<char>, ValueView>, group: FieldNames) -> bool {
    match group {
        FieldNames::One(name) => !(value_in(values, name@) is Null),
        FieldNames::Any(names) => exists|i: int|
            0 <= i < names.len() && !(value_in(values, #[trigger] names[i]@) is Null),
    }
}

/// Whether any of the name groups is present.
pub open spec fn any_present(values: Map<Seq<char>, ValueView>, groups: Vec<FieldNames>) -> bool {
    exists|i: int| 0 <= i < groups.len() && group_present(values, #[trigger] groups[i])
}

/// Whether the field may stay as it is at save time, given the values of
/// the record.
///
/// Fields that the store fills, and foreign keys, are never asked for. A
/// required field must not be null. A field that is present with others
/// must not be null when any of them is present; one that is present
/// without others must not be null when none of them is. A field with a
/// condition must not be null when the condition passes.
pub open spec fn field_requirement(field: Field, values: Map<Seq<char>, ValueView>) -> Requirement {
    if field.auto || field.auto_increment || field.foreign_key {
        Requirement::Satisfied
    } else if !(value_in(values, field.name@) is Null) {
        Requirement::Satisfied
    } else {
        match field.optionality {
            Optionality::Optional => Requirement::Satisfied,
            Optionality::Required => Requirement::Missing,
            Optionality::PresentWith(groups) => if any_present(values, groups) {
                Requirement::Missing
            } else {
                Requirement::Satisfied
            },
            Optionality::PresentWithout(groups) => if any_present(values, groups) {
                Requirement::Satisfied
            } else {
                Requirement::Missing
            },
            Optionality::PresentIf(_) => Requirement::Ask,
        }
    }
}

/// The error for a required value that is missing at `path`.
pub open spec fn missing_required_input(path: Seq<ItemView>) -> ErrorView {
    ErrorView {
        kind: ErrorKind::MissingRequiredInput,
        message: "missing required input"@,
        path: Some(path),
    }
}

/// The error for a key that the write rule of its field refuses.
pub open spec fn unexpected_key(path: Seq<ItemView>) -> ErrorView {
    ErrorView { kind: ErrorKind::ValueError, message: "unexpected key"@, path: Some(path) }
}

/// Whether a write rule permits an assignment.
///
/// `condition` says whether the condition pipeline of a conditional rule
/// passed; other rules do not read it.
pub open spec fn permitted(write: Write, is_new: bool, current_is_null: bool, new_is_null: bool, condition: bool) -> bool {
    match write {
        Write::NoWrite => false,
        Write::Write => true,
        Write::WriteOnCreate => is_new,
        Write::WriteOnce => is_new || current_is_null,
        Write::WriteNonNull => is_new || !new_is_null,
        Write::WriteIf(_) => condition,
    }
}

/// Whether a relation that must hold a record has none in sight: the record
/// is new, the relation is to one record and required, no payload for it is
/// queued, and one of its local fields is null.
pub open spec fn relation_lacks(object: &Object, relation: Relation) -> bool {
    &&& object.is_new
    &&& relation.is_required
    &&& !relation.is_vec
    &&& !object.relation_mutations().contains_key(relation.name@)
    &&& exists|i: int|
        0 <= i < relation.fields.len() && object.value_or_null(#[trigger] relation.fields[i]@) is Null
}

/// Whether the relation named `key` fails required-relation validation on
/// `object`.
pub open spec fn relation_key_lacks(object: &Object, model: &Model, key: Seq<char>, ignore_required: bool) -> bool {
    match model.spec_relation(key) {
        Some(relation) => {
            &&& !(object.ignore_relation matches Some(ignored) && ignored@ == relation.name@)
            &&& !ignore_required
            &&& relation_lacks(object, relation)
        },
        None => false,
    }
}

/// Whether a name group is present among the values of `object`.
#[verifier::loop_isolation(false)]
fn is_group_present(object: &Object, group: &FieldNames) -> (present: bool)
    ensures
        present == group_present(object.values(), *group),
{
    match group {
        FieldNames::One(name) => !object.get_value_map_value(name.as_str()).is_null(),
        FieldNames::Any(names) => {
            let mut i: usize = 0;
            while i < names.len()
                invariant
                    i <= names.len(),
                    forall|j: int|
                        0 <= j < i ==> value_in(object.values(), #[trigger] names[j]@) is Null,
                decreases names.len() - i,
            {
                if !object.get_value_map_value(names[i].as_str()).is_null() {
                    assert(!(value_in(object.values(), names[i as int]@) is Null));
                    return true;
                }
                i += 1;
            }
            false
        },
    }
}

/// Whether any of the name groups is present among the values of `object`.
fn is_any_present(object: &Object, groups: &Vec<FieldNames>) -> (present: bool)
    ensures
        present == any_present(object.values(), *groups),
{
    let mut i: usize = 0;
    while i < groups.len()
        invariant
            i <= groups.len(),
            forall|j: int| 0 <= j < i ==> !group_present(object.values(), #[trigger] groups[j]),
        decreases groups.len() - i,
    {
        if is_group_present(object, &groups[i]) {
            return true;
        }
        i += 1;
    }
    false
}

impl Object {
    /// Whether the write rule of the field `key` permits to assign `value`.
    ///
    /// `condition` says whether the condition pipeline of a conditional rule
    /// passed; other rules do not read it.
    pub fn check_write_rule(&self, model: &Model, key: &str, value: &Value, path: &KeyPath, condition: bool) -> (result: Result<(), Error>)
        ensures
            match result {
                Ok(()) => model.spec_field(key@) matches Some(field) && permitted(
                    field.write,
                    self.is_new,
                    self.value_or_null(key@) is Null,
                    value@ is Null,
                    condition,
                ),
                Err(error) => match model.spec_field(key@) {
                    Some(field) => !permitted(
                        field.write,
                        self.is_new,
                        self.value_or_null(key@) is Null,
                        value@ is Null,
                        condition,
                    ) && error@ == unexpected_key(path@.push(ItemView::Key(key@))),
                    None => error@ == invalid_key_error(key@),
                },
            },
    {
        let field = match model.field(key) {
            Some(field) => field,
            None => {
                return Err(invalid_key(key));
            },
        };
        let is_new = self.is_new;
        let valid = match &field.write {
            Write::NoWrite => false,
            Write::Write => true,
            Write::WriteOnCreate => is_new,
            Write::WriteOnce => is_new || self.get_value_map_value(key).is_null(),
            Write::WriteNonNull => is_new || !value.is_null(),
            Write::WriteIf(_) => condition,
        };
        if !valid {
            Err(Error::at(ErrorKind::ValueError, "unexpected key", &path.with_key(key)))
        } else {
            Ok(())
        }
    }

    /// Whether the field `key` may stay as it is at save time.
    pub fn requirement(&self, model: &Model, key: &str) -> (requirement: Requirement)
        ensures
            requirement == match model.spec_field(key@) {
                Some(field) => field_requirement(field, self.values()),
                None => Requirement::Satisfied,
            },
    {
        let field = match model.field(key) {
            Some(field) => field,
            None => {
                return Requirement::Satisfied;
            },
        };
        if field.auto || field.auto_increment || field.foreign_key {
            return Requirement::Satisfied;
        }
        if !self.get_value_map_value(field.name.as_str()).is_null() {
            return Requirement::Satisfied;
        }
        match &field.optionality {
            Optionality::Optional => Requirement::Satisfied,
            Optionality::Required => Requirement::Missing,
            Optionality::PresentWith(groups) => if is_any_present(self, groups) {
                Requirement::Missing
            } else {
                Requirement::Satisfied
            },
            Optionality::PresentWithout(groups) => if is_any_present(self, groups) {
                Requirement::Satisfied
            } else {
                Requirement::Missing
            },
            Optionality::PresentIf(_) => Requirement::Ask,
        }
    }

    /// Reports the field `key` as missing where a value is required and
    /// there is none. `condition` says whether the condition pipeline of a
    /// field with a condition passed.
    pub fn validate_required_field(&self, model: &Model, key: &str, path: &KeyPath, condition: bool) -> (result: Result<(), Error>)
        ensures
            match result {
                Ok(()) => !self.field_is_missing(model, key@, condition),
                Err(error) => self.field_is_missing(model, key@, condition) && error@
                    == missing_required_input(path@.push(ItemView::Key(key@))),
            },
    {
        let missing = match self.requirement(model, key) {
            Requirement::Satisfied => false,
            Requirement::Missing => true,
            Requirement::Ask => condition,
        };
        if missing {
            Err(Error::at(ErrorKind::MissingRequiredInput, "missing required input", &path.with_key(key)))
        } else {
            Ok(())
        }
    }

    /// Whether a value for the field `key` is required and missing.
    pub open spec fn field_is_missing(&self, model: &Model, key: Seq<char>, condition: bool) -> bool {
        match model.spec_field(key) {
            Some(field) => match field_requirement(field, self.values()) {
                Requirement::Satisfied => false,
                Requirement::Missing => true,
                Requirement::Ask => condition,
            },
            None => false,
        }
    }

    /// Reports the first relation, in schema order, that must hold a record
    /// and has none in sight. The relation named by `ignore_relation` is
    /// skipped, and every relation where `ignore_required_relation` is set.
    pub fn validate_required_relations(&self, model: &Model, path: &KeyPath, ignore_required_relation: bool) -> (result: Result<(), Error>)
        ensures
            match result {
                Ok(()) => first_where(
                    names_of(model.cache.relation_output_keys),
                    |key: Seq<char>| relation_key_lacks(self, model, key, ignore_required_relation),
                ) == model.cache.relation_output_keys.len(),
                Err(error) => {
                    let at = first_where(
                        names_of(model.cache.relation_output_keys),
                        |key: Seq<char>|
                            relation_key_lacks(self, model, key, ignore_required_relation),
                    );
                    at < model.cache.relation_output_keys.len() && error@ == missing_required_input(
                        path@.push(ItemView::Key(model.cache.relation_output_keys[at]@)),
                    )
                },
            },
    {
        let keys = &model.cache.relation_output_keys;
        let ghost lacks = |key: Seq<char>|
            relation_key_lacks(self, model, key, ignore_required_relation);
        let mut i: usize = 0;
        while i < keys.len()
            invariant
                i <= keys.len(),
                *keys == model.cache.relation_output_keys,
                lacks == (|key: Seq<char>|
                    relation_key_lacks(self, model, key, ignore_required_relation)),
                forall|j: int| 0 <= j < i ==> !lacks(#[trigger] names_of(*keys)[j]),
            decreases keys.len() - i,
        {
            let key = keys[i].as_str();
            if self.relation_lacks_record(model, key, ignore_required_relation) {
                proof {
                    lemma_first_where_is(names_of(*keys), lacks, i as int);
                }
                return Err(
                    Error::at(
                        ErrorKind::MissingRequiredInput,
                        "missing required input",
                        &path.with_key(key),
                    ),
                );
            }
            i += 1;
        }
        proof {
            lemma_first_where_none(names_of(*keys), lacks);
        }
        Ok(())
    }

    /// Whether the relation named `key` fails required-relation validation.
    #[verifier::loop_isolation(false)]
    pub fn relation_lacks_record(&self, model: &Model, key: &str, ignore_required_relation: bool) -> (lacks: bool)
        ensures
            lacks == relation_key_lacks(self, model, key@, ignore_required_relation),
    {
        let relation = match model.relation(key) {
            Some(relation) => relation,
            None => {
                return false;
            },
        };
        match &self.ignore_relation {
            Some(ignored) => {
                if crate::collections::names::text_eq(ignored.as_str(), relation.name.as_str()) {
                    return false;
                }
            },
            None => {},
        }
        if !(self.is_new && relation.is_required && !relation.is_vec) {
            return false;
        }
        if ignore_required_relation {
            return false;
        }
        if self.relation_mutation_map.contains_key(relation.name.as_str()) {
            return false;
        }
        let mut i: usize = 0;
        while i < relation.fields.len()
            invariant
                i <= relation.fields.len(),
                forall|j: int|
                    0 <= j < i ==> !(self.value_or_null(#[trigger] relation.fields[j]@) is Null),
            decreases relation.fields.len() - i,
        {
            if self.get_value_map_value(relation.fields[i].as_str()).is_null() {
                assert(0 <= i < relation.fields.len() && self.value_or_null(
                    relation.fields[i as int]@,
                ) is Null);
                return true;
            }
            i += 1;
        }
        false
    }
}

/// The error for a payload key that the model does not take as input.
pub open spec fn key_not_allowed(key: Seq<char>, model_name: Seq<char>) -> ErrorView {
    ErrorView {
        kind: ErrorKind::InvalidKey,
        message: "key '"@ + key + "' is not allowed for "@ + model_name,
        path: None,
    }
}

/// The name of a model: the last segment of its path, empty where the path
/// is.
pub open spec fn model_name(model: &Model) -> Seq<char> {
    if model.path.len() > 0 {
        model.path[model.path.len() - 1]@
    } else {
        Seq::empty()
    }
}

/// The keys of a dictionary, in order.
pub open spec fn entry_keys(entries: Seq<(Seq<char>, ValueView)>) -> Seq<Seq<char>> {
    Seq::new(entries.len(), |i: int| entries[i].0)
}

/// Reports the first key of a payload that is not among the allowed ones.
pub fn check_user_json_keys(map: &Dictionary, allowed: &Vec<String>, model: &Model) -> (result: Result<(), Error>)
    ensures
        match result {
            Ok(()) => first_where(
                entry_keys(map@),
                |key: Seq<char>| !names_of(*allowed).contains(key),
            ) == map@.len(),
            Err(error) => {
                let at = first_where(
                    entry_keys(map@),
                    |key: Seq<char>| !names_of(*allowed).contains(key),
                );
                at < map@.len() && error@ == key_not_allowed(map@[at].0, model_name(model))
            },
        },
{
    let ghost refused = |key: Seq<char>| !names_of(*allowed).contains(key);
    let mut i: usize = 0;
    while i < map.len()
        invariant
            i <= map@.len(),
            refused == (|key: Seq<char>| !names_of(*allowed).contains(key)),
            forall|j: int| 0 <= j < i ==> !refused(#[trigger] entry_keys(map@)[j]),
        decreases map@.len() - i,
    {
        match map.entry_at(i) {
            Some((key, _)) => {
                if !has_name(allowed, key.as_str()) {
                    proof {
                        lemma_first_where_is(entry_keys(map@), refused, i as int);
                    }
                    let mut message = "key '".to_owned();
                    message.append(key.as_str());
                    message.append("' is not allowed for ");
                    if model.path.len() > 0 {
                        message.append(model.path[model.path.len() - 1].as_str());
                    }
                    assert(message@ =~= "key '"@ + key@ + "' is not allowed for "@ + model_name(
                        model,
                    ));
                    return Err(Error { kind: ErrorKind::InvalidKey, message, path: None });
                }
            },
            None => {},
        }
        i += 1;
    }
    proof {
        lemma_first_where_none(entry_keys(map@), refused);
    }
    Ok(())
}

} // verus!
