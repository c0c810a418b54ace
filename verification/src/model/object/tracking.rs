use vstd::prelude::*;
use crate::collections::key_set::KeySet;
use crate::collections::names::{find_pair, has_name, names_of, pair_named, put_pair};
use crate::model::model::Model;
use crate::model::object::object::{invalid_key, invalid_key_error, Object};
use crate::path::error::{Error, ErrorKind, ErrorView};
use crate::value::value::{copy_value, Value, ValueView};

verus! {

/// The error for a save that is started from inside a before-save callback
/// of the same record.
pub open spec fn save_inside_callback_error() -> ErrorView {
    ErrorView {
        kind: ErrorKind::InvalidOperation,
        message: "Save called inside before callback."@,
        path: None,
    }
}

/// What a save writes under a key.
#[derive(Debug, PartialEq)]
pub enum Pending {
    /// The value of the key; null where the record holds none.
    Value(Value),
    /// The update that the store applies to the value it holds.
    Updater(Value),
}

impl Object {
    /// The atomic updaters queued for the next save, by field name.
    pub open spec fn atomic_updaters(&self) -> Map<Seq<char>, ValueView> {
        self.atomic_updater_map.map()
    }

    /// The relation payloads queued for the next save, by relation name.
    pub open spec fn relation_mutations(&self) -> Map<Seq<char>, ValueView> {
        self.relation_mutation_map.map()
    }

    /// The records fetched for the relation `key`, if it was fetched.
    pub open spec fn fetched(&self, key: Seq<char>) -> Option<Vec<Object>> {
        pair_named(self.relation_query_map, key)
    }

    /// Whether the two records differ at most in what queueing touches: the
    /// atomic updaters, the relation payloads, the values, the modified
    /// flag and the modified fields.
    pub open spec fn same_besides_queues(&self, other: &Object) -> bool {
        &&& self.request_ctx == other.request_ctx
        &&& self.transaction_ctx == other.transaction_ctx
        &&& self.model_path == other.model_path
        &&& self.action == other.action
        &&& self.is_initialized == other.is_initialized
        &&& self.is_new == other.is_new
        &&& self.is_partial == other.is_partial
        &&& self.is_deleted == other.is_deleted
        &&& self.inside_before_save_callback == other.inside_before_save_callback
        &&& self.inside_after_save_callback == other.inside_after_save_callback
        &&& self.is_selected == other.is_selected
        &&& self.selected_fields == other.selected_fields
        &&& self.previous_value_map == other.previous_value_map
        &&& self.cached_property_map == other.cached_property_map
        &&& self.relation_query_map == other.relation_query_map
        &&& self.object_set_map == other.object_set_map
        &&& self.object_set_many_map == other.object_set_many_map
        &&& self.object_connect_map == other.object_connect_map
        &&& self.object_disconnect_map == other.object_disconnect_map
        &&& self.ignore_relation == other.ignore_relation
    }

    /// Queues an atomic updater for the field `key` and marks the key
    /// modified. The value that the record held under the key is dropped:
    /// a key is written by its value or by its updater, never by both.
    pub fn set_value_to_atomic_updator_map(&mut self, key: &str, value: Value)
        ensures
            final(self).atomic_updaters() == old(self).atomic_updaters().insert(key@, value@),
            final(self).values() == old(self).values().remove(key@),
            final(self).previous_value_map == old(self).previous_value_map,
            final(self).cached_property_map == old(self).cached_property_map,
            final(self).relation_mutation_map == old(self).relation_mutation_map,
            old(self).wf() ==> final(self).wf(),
            final(self).is_modified == (old(self).is_modified || !old(self).is_new),
            final(self).modified_fields@ == if old(self).is_new {
                old(self).modified_fields@
            } else {
                old(self).modified_fields@.insert(key@)
            },
            final(self).same_besides_queues(old(self)),
    {
        self.atomic_updater_map.insert(key.to_owned(), value);
        self.value_map.remove(key);
        self.set_modified_field(key);
    }

    /// Queues the payload of the relation `key` for the next save and marks
    /// the key modified.
    pub fn set_value_to_relation_manipulation_map(&mut self, key: &str, value: &Value)
        ensures
            final(self).relation_mutations() == old(self).relation_mutations().insert(key@, value@),
            final(self).atomic_updater_map == old(self).atomic_updater_map,
            final(self).value_map == old(self).value_map,
            final(self).is_modified == (old(self).is_modified || !old(self).is_new),
            final(self).modified_fields@ == if old(self).is_new {
                old(self).modified_fields@
            } else {
                old(self).modified_fields@.insert(key@)
            },
            final(self).same_besides_queues(old(self)),
    {
        self.relation_mutation_map.insert(key.to_owned(), copy_value(value));
        self.set_modified_field(key);
    }

    /// Marks the record as stored and unmodified. The modified fields stay.
    pub fn clear_new_state(&mut self)
        ensures
            *final(self) == (Object { is_new: false, is_modified: false, ..*old(self) }),
    {
        self.is_new = false;
        self.is_modified = false;
    }

    /// Marks the record as stored and clean: not new, not modified, no
    /// modified field.
    pub fn clear_state(&mut self)
        ensures
            !final(self).is_new,
            !final(self).is_modified,
            final(self).modified_fields@ == Set::<Seq<char>>::empty(),
            *final(self) == (Object {
                is_new: false,
                is_modified: false,
                modified_fields: final(self).modified_fields,
                ..*old(self)
            }),
    {
        self.is_new = false;
        self.is_modified = false;
        self.modified_fields = KeySet::new();
    }

    /// Refuses a save that is started from inside a before-save callback of
    /// this record.
    pub fn before_save_callback_check(&self) -> (result: Result<(), Error>)
        ensures
            match result {
                Ok(()) => !self.inside_before_save_callback,
                Err(error) => self.inside_before_save_callback && error@
                    == save_inside_callback_error(),
            },
    {
        if self.inside_before_save_callback {
            return Err(
                Error::new(ErrorKind::InvalidOperation, "Save called inside before callback."),
            );
        }
        Ok(())
    }

    /// Names the relation that required-relation validation skips for this
    /// record.
    pub fn ignore_relation(&mut self, name: &str)
        ensures
            final(self).ignore_relation is Some,
            final(self).ignore_relation->0@ == name@,
            *final(self) == (Object { ignore_relation: final(self).ignore_relation, ..*old(self) }),
    {
        self.ignore_relation = Some(name.to_owned());
    }

    /// Whether the relation `key` was fetched.
    pub fn has_query_relation_fetched(&self, key: &str) -> (fetched: bool)
        ensures
            fetched == (self.fetched(key@) is Some),
    {
        find_pair(&self.relation_query_map, key).is_some()
    }

    /// Whether the relation `key` was fetched. Mutations read the same map
    /// of fetched relations that queries fill.
    pub fn has_mutation_relation_fetched(&self, key: &str) -> (fetched: bool)
        ensures
            fetched == (self.fetched(key@) is Some),
    {
        find_pair(&self.relation_query_map, key).is_some()
    }

    /// The first record fetched for the relation `key`.
    pub fn get_query_relation_object(&self, model: &Model, key: &str) -> (result: Result<
        Option<&Object>,
        Error,
    >)
        ensures
            match result {
                Ok(Some(object)) => model.has_key(key@) && self.fetched(key@) is Some
                    && self.fetched(key@)->0.len() > 0 && *object == self.fetched(key@)->0[0],
                Ok(None) => model.has_key(key@) && (self.fetched(key@) is None || self.fetched(
                    key@,
                )->0.len() == 0),
                Err(error) => !model.has_key(key@) && error@ == invalid_key_error(key@),
            },
    {
        if !has_name(model.all_keys(), key) {
            return Err(invalid_key(key));
        }
        match find_pair(&self.relation_query_map, key) {
            Some(index) => {
                let list = &self.relation_query_map[index].1;
                if list.len() > 0 {
                    Ok(Some(&list[0]))
                } else {
                    Ok(None)
                }
            },
            None => Ok(None),
        }
    }

    /// The first record fetched for the relation `key`. Mutations read the
    /// same map of fetched relations that queries fill.
    pub fn get_mutation_relation_object(&self, model: &Model, key: &str) -> (result: Result<
        Option<&Object>,
        Error,
    >)
        ensures
            match result {
                Ok(Some(object)) => model.has_key(key@) && self.fetched(key@) is Some
                    && self.fetched(key@)->0.len() > 0 && *object == self.fetched(key@)->0[0],
                Ok(None) => model.has_key(key@) && (self.fetched(key@) is None || self.fetched(
                    key@,
                )->0.len() == 0),
                Err(error) => !model.has_key(key@) && error@ == invalid_key_error(key@),
            },
    {
        self.get_query_relation_object(model, key)
    }

    /// The records fetched for the relation `key`, none where it was not
    /// fetched.
    pub fn get_relation_vec(&self, model: &Model, key: &str) -> (result: Result<Vec<&Object>, Error>)
        ensures
            match result {
                Ok(list) => model.has_key(key@) && match self.fetched(key@) {
                    Some(fetched) => list.len() == fetched.len() && forall|i: int|
                        0 <= i < list.len() ==> *(#[trigger] list[i]) == fetched[i],
                    None => list.len() == 0,
                },
                Err(error) => !model.has_key(key@) && error@ == invalid_key_error(key@),
            },
    {
        if !has_name(model.all_keys(), key) {
            return Err(invalid_key(key));
        }
        let mut list: Vec<&Object> = Vec::new();
        match find_pair(&self.relation_query_map, key) {
            Some(index) => {
                let fetched = &self.relation_query_map[index].1;
                let mut i: usize = 0;
                while i < fetched.len()
                    invariant
                        i <= fetched.len(),
                        list.len() == i,
                        forall|j: int| 0 <= j < i ==> *(#[trigger] list[j]) == fetched[j],
                    decreases fetched.len() - i,
                {
                    list.push(&fetched[i]);
                    i += 1;
                }
            },
            None => {},
        }
        Ok(list)
    }

    /// Asks the next save to make `objects` the records of the to-many
    /// relation `key`.
    pub fn force_set_relation_objects(&mut self, key: &str, objects: Vec<Object>)
        ensures
            pair_named(final(self).object_set_many_map, key@) == Some(objects),
            forall|other: Seq<char>| other != key@ ==> pair_named(final(self).object_set_many_map, other)
                == pair_named(old(self).object_set_many_map, other),
            *final(self) == (Object {
                object_set_many_map: final(self).object_set_many_map,
                ..*old(self)
            }),
    {
        put_pair(&mut self.object_set_many_map, key.to_owned(), objects);
    }

    /// Asks the next save to connect `objects` through the relation `key`.
    pub fn force_add_relation_objects(&mut self, key: &str, objects: Vec<Object>)
        ensures
            pair_named(final(self).object_connect_map, key@) == Some(objects),
            forall|other: Seq<char>| other != key@ ==> pair_named(final(self).object_connect_map, other)
                == pair_named(old(self).object_connect_map, other),
            *final(self) == (Object {
                object_connect_map: final(self).object_connect_map,
                ..*old(self)
            }),
    {
        put_pair(&mut self.object_connect_map, key.to_owned(), objects);
    }

    /// Asks the next save to disconnect `objects` from the relation `key`.
    pub fn force_remove_relation_objects(&mut self, key: &str, objects: Vec<Object>)
        ensures
            pair_named(final(self).object_disconnect_map, key@) == Some(objects),
            forall|other: Seq<char>| other != key@ ==> pair_named(final(self).object_disconnect_map, other)
                == pair_named(old(self).object_disconnect_map, other),
            *final(self) == (Object {
                object_disconnect_map: final(self).object_disconnect_map,
                ..*old(self)
            }),
    {
        put_pair(&mut self.object_disconnect_map, key.to_owned(), objects);
    }

    /// Asks the next save to make `object` the record of the to-one relation
    /// `key`, or to leave the relation empty where `object` is `None`.
    pub fn force_set_relation_object(&mut self, key: &str, object: Option<Object>)
        ensures
            pair_named(final(self).object_set_map, key@) == Some(object),
            forall|other: Seq<char>| other != key@ ==> pair_named(final(self).object_set_map, other)
                == pair_named(old(self).object_set_map, other),
            *final(self) == (Object { object_set_map: final(self).object_set_map, ..*old(self) }),
    {
        put_pair(&mut self.object_set_map, key.to_owned(), object);
    }

    /// The keys that the next save writes to the store: every saved key for
    /// a new record, else the saved keys that were modified or have an
    /// atomic updater queued.
    pub fn keys_for_save<'a>(&self, model: &'a Model) -> (keys: Vec<&'a str>)
        ensures
            Seq::new(keys.len() as nat, |i: int| keys[i]@) == crate::collections::names::kept(
                names_of(model.cache.save_keys),
                |key: Seq<char>| self.saves_key(key),
            ),
    {
        let ghost keep = |key: Seq<char>| self.saves_key(key);
        let ghost all = names_of(model.cache.save_keys);
        let mut keys: Vec<&'a str> = Vec::new();
        let mut i: usize = 0;
        assert(Seq::new(keys.len() as nat, |j: int| keys[j]@) =~= crate::collections::names::kept(
            all.take(0),
            keep,
        ));
        while i < model.cache.save_keys.len()
            invariant
                i <= model.cache.save_keys.len(),
                all == names_of(model.cache.save_keys),
                keep == (|key: Seq<char>| self.saves_key(key)),
                Seq::new(keys.len() as nat, |j: int| keys[j]@) == crate::collections::names::kept(
                    all.take(i as int),
                    keep,
                ),
            decreases model.cache.save_keys.len() - i,
        {
            let key = model.cache.save_keys[i].as_str();
            let ghost before = Seq::new(keys.len() as nat, |j: int| keys[j]@);
            assert(all.take(i + 1).drop_last() =~= all.take(i as int));
            assert(all.take(i + 1).last() == key@);
            let wanted = self.is_new || self.modified_fields.contains(key)
                || self.atomic_updater_map.contains_key(key);
            assert(wanted == keep(key@));
            if wanted {
                keys.push(key);
                assert(Seq::new(keys.len() as nat, |j: int| keys[j]@) =~= before.push(key@));
            }
            i += 1;
        }
        assert(all.take(i as int) =~= all);
        keys
    }

    /// What the next save writes under a key: the atomic updater that is
    /// queued for the key where there is one, and else the value that the
    /// record holds under it. So no save writes a key both ways.
    pub fn pending_write(&self, key: &str) -> (pending: Pending)
        ensures
            match pending {
                Pending::Updater(updater) => self.atomic_updaters().contains_key(key@)
                    && updater@ == self.atomic_updaters()[key@],
                Pending::Value(value) => !self.atomic_updaters().contains_key(key@) && value@
                    == self.value_or_null(key@),
            },
    {
        match self.atomic_updater_map.get(key) {
            Some(updater) => Pending::Updater(copy_value(updater)),
            None => Pending::Value(self.get_value_map_value(key)),
        }
    }

    /// Whether the next save writes the saved key `key`.
    pub open spec fn saves_key(&self, key: Seq<char>) -> bool {
        self.is_new || self.modified_fields@.contains(key) || self.atomic_updaters().contains_key(
            key,
        )
    }
}

} // verus!
