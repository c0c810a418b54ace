use vstd::prelude::*;
use crate::action::action::Action;
use crate::collections::key_set::KeySet;
use crate::collections::names::{copy_names, has_name, names_of};
use crate::model::field::Previous;
use crate::path::error::{Error, ErrorKind, ErrorView};
use crate::value::value::copy_value;
use crate::connection::transaction;
use crate::model::model::Model;
use crate::request;
use crate::value::value::{Dictionary, Value, ValueView};

verus! {

/// One row of one model.
///
/// A record is new until it was saved or filled from a row of the store.
/// Once it is not new, every assignment is tracked: the record is marked
/// modified and the assigned key joins the modified fields, until the next
/// save clears both.
#[derive(Debug)]
pub struct Object {
    pub request_ctx: Option<request::Ctx>,
    pub transaction_ctx: transaction::Ctx,
    pub model_path: Vec<String>,
    pub action: Action,
    pub is_initialized: bool,
    pub is_new: bool,
    pub is_modified: bool,
    pub is_partial: bool,
    pub is_deleted: bool,
    pub inside_before_save_callback: bool,
    pub inside_after_save_callback: bool,
    /// Whether a selection restricts the output of the record to
    /// `selected_fields`.
    pub is_selected: bool,
    pub selected_fields: Vec<String>,
    pub modified_fields: KeySet,
    pub previous_value_map: Dictionary,
    pub value_map: Dictionary,
    pub atomic_updater_map: Dictionary,
    pub relation_mutation_map: Dictionary,
    pub cached_property_map: Dictionary,
    pub relation_query_map: Vec<(String, Vec<Object>)>,
    pub object_set_map: Vec<(String, Option<Object>)>,
    pub object_set_many_map: Vec<(String, Vec<Object>)>,
    pub object_connect_map: Vec<(String, Vec<Object>)>,
    pub object_disconnect_map: Vec<(String, Vec<Object>)>,
    pub ignore_relation: Option<String>,
}

impl Object {
    /// The values the record holds, by field name.
    pub open spec fn values(&self) -> Map<Seq<char>, ValueView> {
        self.value_map.map()
    }

    /// The values that fields held before they were first changed.
    pub open spec fn previous_values(&self) -> Map<Seq<char>, ValueView> {
        self.previous_value_map.map()
    }

    /// The value of a key, null where the record holds none.
    pub open spec fn value_or_null(&self, key: Seq<char>) -> ValueView {
        if self.values().contains_key(key) {
            self.values()[key]
        } else {
            ValueView::Null
        }
    }

    /// No key of the record holds null: a null assignment removes the key.
    /// And no key holds a value while an atomic updater is queued for it.
    pub open spec fn wf(&self) -> bool {
        &&& forall|key: Seq<char>|
            self.values().contains_key(key) ==> !(#[trigger] self.values()[key] is Null)
        &&& forall|key: Seq<char>|
            #![trigger self.atomic_updater_map.map().contains_key(key)]
            !(self.values().contains_key(key) && self.atomic_updater_map.map().contains_key(key))
    }

    /// Whether the record is a blank record of `model` for a request, a
    /// transaction and an action: new, not initialized, not modified, with
    /// no value, no selection, nothing fetched and no pending relation
    /// mutation.
    pub open spec fn is_blank(self, request_ctx: Option<request::Ctx>, transaction_ctx: transaction::Ctx, model: &Model, action: Action) -> bool {
        &&& self.request_ctx == request_ctx
        &&& self.transaction_ctx == transaction_ctx
        &&& names_of(self.model_path) == names_of(model.path)
        &&& self.action == action
        &&& self.is_new
        &&& !self.is_initialized
        &&& !self.is_modified
        &&& !self.is_partial
        &&& !self.is_deleted
        &&& !self.inside_before_save_callback
        &&& !self.inside_after_save_callback
        &&& !self.is_selected
        &&& self.selected_fields@.len() == 0
        &&& self.modified_fields@ == Set::<Seq<char>>::empty()
        &&& self.value_map@.len() == 0
        &&& self.previous_value_map@.len() == 0
        &&& self.atomic_updater_map@.len() == 0
        &&& self.relation_mutation_map@.len() == 0
        &&& self.cached_property_map@.len() == 0
        &&& self.relation_query_map@.len() == 0
        &&& self.object_set_map@.len() == 0
        &&& self.object_set_many_map@.len() == 0
        &&& self.object_connect_map@.len() == 0
        &&& self.object_disconnect_map@.len() == 0
        &&& self.ignore_relation is None
        &&& self.wf()
    }

    /// A blank record of `model`: new, not initialized, not modified, with
    /// no value and no pending relation mutation.
    pub fn new(
        request_ctx: Option<request::Ctx>,
        transaction_ctx: transaction::Ctx,
        model: &Model,
        action: Action,
    ) -> (object: Object)
        ensures
            object.is_blank(request_ctx, transaction_ctx, model, action),
    {
        let object = Object {
            request_ctx,
            transaction_ctx,
            model_path: copy_names(&model.path),
            action,
            is_initialized: false,
            is_new: true,
            is_modified: false,
            is_partial: false,
            is_deleted: false,
            inside_before_save_callback: false,
            inside_after_save_callback: false,
            is_selected: false,
            selected_fields: Vec::new(),
            modified_fields: KeySet::new(),
            previous_value_map: Dictionary::new(),
            value_map: Dictionary::new(),
            atomic_updater_map: Dictionary::new(),
            relation_mutation_map: Dictionary::new(),
            cached_property_map: Dictionary::new(),
            relation_query_map: Vec::new(),
            object_set_map: Vec::new(),
            object_set_many_map: Vec::new(),
            object_connect_map: Vec::new(),
            object_disconnect_map: Vec::new(),
            ignore_relation: None,
        };
        proof {
            crate::value::value::lemma_first_index_absent_everywhere(object.value_map@);
        }
        object
    }

    pub fn transaction_ctx(&self) -> (ctx: transaction::Ctx)
        ensures
            ctx == self.transaction_ctx,
    {
        self.transaction_ctx
    }

    pub fn request_ctx(&self) -> (ctx: Option<request::Ctx>)
        ensures
            ctx == self.request_ctx,
    {
        self.request_ctx
    }

    pub fn is_new(&self) -> (is_new: bool)
        ensures
            is_new == self.is_new,
    {
        self.is_new
    }

    pub fn is_modified(&self) -> (is_modified: bool)
        ensures
            is_modified == self.is_modified,
    {
        self.is_modified
    }

    pub fn action(&self) -> (action: Action)
        ensures
            action == self.action,
    {
        self.action
    }
}

/// The error for a key that the model does not have.
pub open spec fn invalid_key_error(key: Seq<char>) -> ErrorView {
    ErrorView { kind: ErrorKind::InvalidKey, message: "invalid key "@ + key, path: None }
}

/// The error for a key that the model does not have.
pub fn invalid_key(key: &str) -> (error: Error)
    ensures
        error@ == invalid_key_error(key@),
{
    let mut message = "invalid key ".to_owned();
    message.append(key);
    Error { kind: ErrorKind::InvalidKey, message, path: None }
}

/// The names of the cached properties among the first `below` properties of
/// `model` that depend on the field `key`.
pub open spec fn dependents_below(model: &Model, key: Seq<char>, below: int) -> Set<Seq<char>> {
    Set::new(
        |name: Seq<char>|
            exists|j: int|
                0 <= j < below && #[trigger] model.depends_on(j, key) && model.properties[j].name@
                    == name,
    )
}

/// The names of the cached properties of `model` that depend on the field
/// `key`.
pub open spec fn dependents(model: &Model, key: Seq<char>) -> Set<Seq<char>> {
    dependents_below(model, key, model.properties.len() as int)
}

/// What assignments read and change of a record: its values, the values
/// its fields held before they were first changed, the cached values of its
/// properties, what was modified since it was loaded or saved, and the
/// atomic updaters that are queued.
pub struct Tracking {
    pub values: Map<Seq<char>, ValueView>,
    pub previous: Map<Seq<char>, ValueView>,
    pub cached: Map<Seq<char>, ValueView>,
    pub is_modified: bool,
    pub modified: Set<Seq<char>>,
    /// The atomic updaters queued for the next save.
    pub updaters: Map<Seq<char>, ValueView>,
}

/// The value under `key`, null where there is none.
pub open spec fn value_in(values: Map<Seq<char>, ValueView>, key: Seq<char>) -> ValueView {
    if values.contains_key(key) {
        values[key]
    } else {
        ValueView::Null
    }
}

/// Whether the field `key` of `model` keeps the value it held before it was
/// first changed.
pub open spec fn field_keeps_previous(model: &Model, key: Seq<char>) -> bool {
    model.spec_field(key) matches Some(field) && field.previous == Previous::Keep
}

/// The tracking of a record after `value` was assigned to `key`.
///
/// A null value removes the key, any other value is stored under it. On a
/// record that is not new, the value that the key held is recorded where the
/// field keeps its previous value and none was recorded yet; the record and
/// the key are marked modified; and the cached properties that depend on the
/// key are forgotten and marked modified. An atomic updater that was queued
/// for the key is dropped: a key is written by its value or by its updater.
pub open spec fn assign(before: Tracking, is_new: bool, model: &Model, key: Seq<char>, value: ValueView) -> Tracking {
    Tracking {
        values: if value is Null {
            before.values.remove(key)
        } else {
            before.values.insert(key, value)
        },
        previous: if !is_new && field_keeps_previous(model, key) && !before.previous.contains_key(
            key,
        ) {
            before.previous.insert(key, value_in(before.values, key))
        } else {
            before.previous
        },
        cached: if is_new {
            before.cached
        } else {
            before.cached.remove_keys(dependents(model, key))
        },
        is_modified: before.is_modified || !is_new,
        modified: if is_new {
            before.modified
        } else {
            before.modified.insert(key).union(dependents(model, key))
        },
        updaters: before.updaters.remove(key),
    }
}

impl Object {
    /// Whether the two records differ at most in what an assignment touches:
    /// the values, the previous values, the cached properties, the modified
    /// flag, the modified fields and the atomic updaters.
    pub open spec fn same_besides_values(&self, other: &Object) -> bool {
        &&& self.request_ctx == other.request_ctx
        &&& self.transaction_ctx == other.transaction_ctx
        &&& self.model_path == other.model_path
        &&& self.action == other.action
        &&& self.is_initialized == other.is_initialized
        &&& self.is_new == other.is_new
        &&& self.is_partial == other.is_partial
        &&& self.is_deleted == other.is_deleted
        &&& self.inside_before_save_callback == other.inside_before_save_callback
        &&& self.inside_after_save_callback == other.inside_after_save_callback
        &&& self.is_selected == other.is_selected
        &&& self.selected_fields == other.selected_fields
        &&& self.relation_mutation_map == other.relation_mutation_map
        &&& self.relation_query_map == other.relation_query_map
        &&& self.object_set_map == other.object_set_map
        &&& self.object_set_many_map == other.object_set_many_map
        &&& self.object_connect_map == other.object_connect_map
        &&& self.object_disconnect_map == other.object_disconnect_map
        &&& self.ignore_relation == other.ignore_relation
    }

    /// The cached values of properties, by property name.
    pub open spec fn cached_properties(&self) -> Map<Seq<char>, ValueView> {
        self.cached_property_map.map()
    }

    /// Whether an assignment to `key` is the one that records the value the
    /// field held before: the record is not new, the field keeps its previous
    /// value, and none was recorded yet.
    pub open spec fn keeps_previous(&self, model: &Model, key: Seq<char>) -> bool {
        &&& !self.is_new
        &&& model.spec_field(key) matches Some(field) && field.previous == Previous::Keep
        &&& !self.previous_values().contains_key(key)
    }

    /// The value the record holds under `key`, null where it holds none.
    pub fn get_value_map_value(&self, key: &str) -> (value: Value)
        ensures
            value@ == self.value_or_null(key@),
    {
        match self.value_map.get(key) {
            Some(value) => copy_value(value),
            None => Value::Null,
        }
    }

    /// The value of a key of the model, null where the record holds none.
    pub fn get_value(&self, model: &Model, key: &str) -> (result: Result<Value, Error>)
        ensures
            match result {
                Ok(value) => model.has_key(key@) && value@ == self.value_or_null(key@),
                Err(error) => !model.has_key(key@) && error@ == invalid_key_error(key@),
            },
    {
        if !has_name(model.all_keys(), key) {
            return Err(invalid_key(key));
        }
        Ok(self.get_value_map_value(key))
    }

    /// The value of a key of the model, null where the record holds none.
    pub fn get(&self, model: &Model, key: &str) -> (result: Result<Value, Error>)
        ensures
            match result {
                Ok(value) => model.has_key(key@) && value@ == self.value_or_null(key@),
                Err(error) => !model.has_key(key@) && error@ == invalid_key_error(key@),
            },
    {
        self.get_value(model, key)
    }

    /// The value that a key of the model held before it was first changed,
    /// null where none was recorded.
    pub fn get_previous_value(&self, model: &Model, key: &str) -> (result: Result<Value, Error>)
        ensures
            match result {
                Ok(value) => model.has_key(key@) && value@ == if self.previous_values().contains_key(
                    key@,
                ) {
                    self.previous_values()[key@]
                } else {
                    ValueView::Null
                },
                Err(error) => !model.has_key(key@) && error@ == invalid_key_error(key@),
            },
    {
        if !has_name(model.all_keys(), key) {
            return Err(invalid_key(key));
        }
        match self.previous_value_map.get(key) {
            Some(value) => Ok(copy_value(value)),
            None => Ok(Value::Null),
        }
    }

    /// The atomic updater queued for a key, if there is one.
    pub fn get_atomic_updator(&self, key: &str) -> (updater: Option<Value>)
        ensures
            match updater {
                Some(value) => self.atomic_updater_map.map().contains_key(key@) && value@
                    == self.atomic_updater_map.map()[key@],
                None => !self.atomic_updater_map.map().contains_key(key@),
            },
    {
        match self.atomic_updater_map.get(key) {
            Some(value) => Some(copy_value(value)),
            None => None,
        }
    }

    /// Records the value that the field `key` holds, if this is the first
    /// change of a field that keeps its previous value on a record that is
    /// not new.
    pub fn record_previous_value_for_field_if_needed(&mut self, model: &Model, key: &str)
        ensures
            final(self).previous_values() == if old(self).keeps_previous(model, key@) {
                old(self).previous_values().insert(key@, old(self).value_or_null(key@))
            } else {
                old(self).previous_values()
            },
            final(self).same_besides_values(old(self)),
            final(self).atomic_updater_map == old(self).atomic_updater_map,
            final(self).value_map == old(self).value_map,
            final(self).cached_property_map == old(self).cached_property_map,
            final(self).modified_fields == old(self).modified_fields,
            final(self).is_modified == old(self).is_modified,
    {
        if self.is_new {
            return ;
        }
        match model.field(key) {
            Some(field) => {
                let keep = match field.previous {
                    Previous::Keep => true,
                    Previous::Dropped => false,
                };
                if keep && self.previous_value_map.get(key).is_none() {
                    let current = self.get_value_map_value(key);
                    self.previous_value_map.insert(key.to_owned(), current);
                }
            },
            None => {},
        }
    }

    /// Marks `key` as modified, on a record that is not new.
    pub fn set_modified_field(&mut self, key: &str)
        ensures
            final(self).is_modified == (old(self).is_modified || !old(self).is_new),
            final(self).modified_fields@ == if old(self).is_new {
                old(self).modified_fields@
            } else {
                old(self).modified_fields@.insert(key@)
            },
            final(self).same_besides_values(old(self)),
            final(self).atomic_updater_map == old(self).atomic_updater_map,
            final(self).value_map == old(self).value_map,
            final(self).previous_value_map == old(self).previous_value_map,
            final(self).cached_property_map == old(self).cached_property_map,
    {
        if !self.is_new {
            self.is_modified = true;
            self.modified_fields.insert(key.to_owned());
        }
    }

    /// Forgets the cached values of the properties that depend on the field
    /// `key` and marks those properties as modified.
    fn evict_dependents(&mut self, model: &Model, key: &str)
        ensures
            final(self).modified_fields@ == old(self).modified_fields@.union(dependents(model, key@)),
            final(self).cached_properties() == old(self).cached_properties().remove_keys(
                dependents(model, key@),
            ),
            final(self).same_besides_values(old(self)),
            final(self).atomic_updater_map == old(self).atomic_updater_map,
            final(self).value_map == old(self).value_map,
            final(self).previous_value_map == old(self).previous_value_map,
            final(self).is_modified == old(self).is_modified,
    {
        let mut i: usize = 0;
        assert(self.modified_fields@ =~= old(self).modified_fields@.union(
            dependents_below(model, key@, 0),
        ));
        assert(self.cached_properties() =~= old(self).cached_properties().remove_keys(
            dependents_below(model, key@, 0),
        ));
        while i < model.properties.len()
            invariant
                i <= model.properties.len(),
                self.modified_fields@ == old(self).modified_fields@.union(
                    dependents_below(model, key@, i as int),
                ),
                self.cached_properties() == old(self).cached_properties().remove_keys(
                    dependents_below(model, key@, i as int),
                ),
                self.same_besides_values(old(self)),
                self.atomic_updater_map == old(self).atomic_updater_map,
                self.value_map == old(self).value_map,
                self.previous_value_map == old(self).previous_value_map,
                self.is_modified == old(self).is_modified,
            decreases model.properties.len() - i,
        {
            let property = &model.properties[i];
            let ghost before = dependents_below(model, key@, i as int);
            let ghost after = dependents_below(model, key@, i + 1);
            if property.cached && has_name(&property.dependencies, key) {
                assert(model.depends_on(i as int, key@));
                self.modified_fields.insert(property.name.clone());
                self.cached_property_map.remove(property.name.as_str());
                assert(after =~= before.insert(property.name@));
                assert(self.modified_fields@ =~= old(self).modified_fields@.union(after));
                assert(self.cached_properties() =~= old(self).cached_properties().remove_keys(
                    after,
                ));
            } else {
                assert(!model.depends_on(i as int, key@));
                assert(after =~= before);
            }
            i += 1;
        }
    }

    /// Assigns `value` to `key`: a null value removes the key. On a record
    /// that is not new the assignment is tracked: the previous value is
    /// recorded where the field keeps it, the record and the key are marked
    /// modified, and the cached properties that depend on the key are
    /// forgotten and marked modified too.
    pub fn set_value_to_value_map(&mut self, model: &Model, key: &str, value: Value)
        ensures
            final(self).values() == if value@ is Null {
                old(self).values().remove(key@)
            } else {
                old(self).values().insert(key@, value@)
            },
            final(self).previous_values() == if old(self).keeps_previous(model, key@) {
                old(self).previous_values().insert(key@, old(self).value_or_null(key@))
            } else {
                old(self).previous_values()
            },
            final(self).is_modified == (old(self).is_modified || !old(self).is_new),
            final(self).modified_fields@ == if old(self).is_new {
                old(self).modified_fields@
            } else {
                old(self).modified_fields@.insert(key@).union(dependents(model, key@))
            },
            final(self).cached_properties() == if old(self).is_new {
                old(self).cached_properties()
            } else {
                old(self).cached_properties().remove_keys(dependents(model, key@))
            },
            final(self).tracking() == assign(
                old(self).tracking(),
                old(self).is_new,
                model,
                key@,
                value@,
            ),
            final(self).atomic_updater_map.map() == old(self).atomic_updater_map.map().remove(key@),
            final(self).same_besides_values(old(self)),
            old(self).wf() ==> final(self).wf(),
    {
        self.record_previous_value_for_field_if_needed(model, key);
        if value.is_null() {
            self.value_map.remove(key);
        } else {
            self.value_map.insert(key.to_owned(), value);
        }
        self.atomic_updater_map.remove(key);
        if !self.is_new {
            self.set_modified_field(key);
            self.evict_dependents(model, key);
        }
    }

    /// Assigns `value` to a key that can be assigned directly: a saved key
    /// or a virtual field. No pipeline runs.
    pub fn set_value(&mut self, model: &Model, key: &str, value: Value) -> (result: Result<(), Error>)
        ensures
            match result {
                Ok(()) => names_of(model.cache.save_keys_and_virtual_keys).contains(key@)
                    && final(self).tracking() == assign(
                    old(self).tracking(),
                    old(self).is_new,
                    model,
                    key@,
                    value@,
                ) && final(self).same_besides_values(old(self)) && (old(self).wf()
                    ==> final(self).wf()),
                Err(error) => !names_of(model.cache.save_keys_and_virtual_keys).contains(key@)
                    && error@ == invalid_key_error(key@) && *final(self) == *old(self),
            },
    {
        if !has_name(&model.cache.save_keys_and_virtual_keys, key) {
            return Err(invalid_key(key));
        }
        self.set_value_to_value_map(model, key, value);
        Ok(())
    }

    /// Assigns `value` to a key that can be assigned directly.
    pub fn set(&mut self, model: &Model, key: &str, value: Value) -> (result: Result<(), Error>)
        ensures
            match result {
                Ok(()) => names_of(model.cache.save_keys_and_virtual_keys).contains(key@)
                    && final(self).tracking() == assign(
                    old(self).tracking(),
                    old(self).is_new,
                    model,
                    key@,
                    value@,
                ) && final(self).same_besides_values(old(self)) && (old(self).wf()
                    ==> final(self).wf()),
                Err(error) => !names_of(model.cache.save_keys_and_virtual_keys).contains(key@)
                    && error@ == invalid_key_error(key@) && *final(self) == *old(self),
            },
    {
        self.set_value(model, key, value)
    }

    /// What assignments read and change of the record.
    pub open spec fn tracking(&self) -> Tracking {
        Tracking {
            values: self.values(),
            previous: self.previous_values(),
            cached: self.cached_properties(),
            is_modified: self.is_modified,
            modified: self.modified_fields@,
            updaters: self.atomic_updater_map.map(),
        }
    }
}

} // verus!
