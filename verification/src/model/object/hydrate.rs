use vstd::prelude::*;
use crate::action::action::{Action, FIND, MANY, NESTED, SINGLE};
use crate::collections::names::put_pair;
use crate::model::model::Model;
use crate::model::object::object::{assign, Object, Tracking};
use crate::model::object::select::{selection, valid_selection};
use crate::namespace::namespace::Namespace;
use crate::value::value::{copy_value, lookup, Value, ValueView};

verus! {

/// The tracking of a record after one entry of a stored row was taken in: a
/// field is assigned, the value of a property is cached, a relation and any
/// other key leave the tracking as it is.
pub open spec fn hydrate_entry(before: Tracking, is_new: bool, model: &Model, key: Seq<char>, value: ValueView) -> Tracking {
    if model.spec_field(key) is Some {
        assign(before, is_new, model, key, value)
    } else if model.spec_relation(key) is Some {
        before
    } else if model.spec_property(key) is Some {
        Tracking { cached: before.cached.insert(key, value), ..before }
    } else {
        before
    }
}

/// The tracking of a record after the entries of a stored row were taken in,
/// one after the other.
pub open spec fn hydrate_entries(before: Tracking, is_new: bool, model: &Model, entries: Seq<(Seq<char>, ValueView)>) -> Tracking
    decreases entries.len(),
{
    if entries.len() == 0 {
        before
    } else {
        hydrate_entry(
            hydrate_entries(before, is_new, model, entries.drop_last()),
            is_new,
            model,
            entries.last().0,
            entries.last().1,
        )
    }
}

/// The entries of a stored row; none where the row is no dictionary.
pub open spec fn row_entries(row: ValueView) -> Seq<(Seq<char>, ValueView)> {
    match row {
        ValueView::Dictionary(entries) => entries,
        _ => Seq::empty(),
    }
}

/// Whether one of the first `below` entries of a row is named `key`, a
/// relation of `model`.
pub open spec fn row_has_relation(model: &Model, entries: Seq<(Seq<char>, ValueView)>, key: Seq<char>, below: int) -> bool {
    &&& model.spec_field(key) is None
    &&& model.spec_relation(key) is Some
    &&& exists|i: int| 0 <= i < below && i < entries.len() && (#[trigger] entries[i]).0 == key
}

/// The position of the last of the first `below` entries of a row that is
/// named `key`; minus one where none of them is.
pub open spec fn last_named(entries: Seq<(Seq<char>, ValueView)>, key: Seq<char>, below: int) -> int
    decreases below,
{
    if below <= 0 || below > entries.len() {
        -1
    } else if entries[below - 1].0 == key {
        below - 1
    } else {
        last_named(entries, key, below - 1)
    }
}

/// One of the first `below` entries of a row is named `key` just where the
/// position of the last of them is not negative, and that position holds
/// an entry named `key`.
pub proof fn lemma_last_named(entries: Seq<(Seq<char>, ValueView)>, key: Seq<char>, below: int)
    requires
        0 <= below <= entries.len(),
    ensures
        last_named(entries, key, below) >= 0 <==> exists|i: int|
            0 <= i < below && i < entries.len() && (#[trigger] entries[i]).0 == key,
        last_named(entries, key, below) >= 0 ==> last_named(entries, key, below) < below
            && entries[last_named(entries, key, below)].0 == key,
        last_named(entries, key, below) >= -1,
    decreases below,
{
    if below > 0 {
        lemma_last_named(entries, key, below - 1);
        if entries[below - 1].0 != key {
            if exists|i: int| 0 <= i < below && i < entries.len() && (#[trigger] entries[i]).0 == key {
                let at = choose|i: int|
                    0 <= i < below && i < entries.len() && (#[trigger] entries[i]).0 == key;
                assert(at < below - 1);
            }
        }
    }
}

/// Whether `child` is what a nested row of the model `related` is when it
/// was taken in below `parent`: a record of that model, of the same
/// request and transaction, found by a nested query, that holds the row
/// and is stored and unmodified.
pub open spec fn taken_below(child: Object, parent: Object, related: &Model, row: ValueView, is_vec: bool) -> bool {
    &&& crate::collections::names::names_of(child.model_path)
        == crate::collections::names::names_of(related.path)
    &&& child.request_ctx == parent.request_ctx
    &&& child.transaction_ctx == parent.transaction_ctx
    &&& child.action == Action(
        FIND | (if is_vec {
            MANY
        } else {
            SINGLE
        }) | NESTED,
    )
    &&& !child.is_new
    &&& child.tracking() == (Tracking {
        is_modified: false,
        ..hydrate_entries(crate::model::object::arena::blank(), true, related, row_entries(row))
    })
}

/// Whether `children` are the records fetched for `relation` from what a
/// row holds under the name of the relation: one record for each of the
/// nested rows, in their order, where the row holds a list of rows and the
/// related model is known, and none else.
pub open spec fn fetched_below(children: Vec<Object>, parent: Object, namespace: &Namespace, relation: crate::model::relation::Relation, held: ValueView) -> bool {
    match (
        namespace.spec_model(crate::collections::names::names_of(relation.model_path)),
        held,
    ) {
        (Some(related), ValueView::Array(rows)) => children.len() == rows.len() && forall|j: int|
            0 <= j < rows.len() ==> taken_below(
                #[trigger] children[j],
                parent,
                &related,
                rows[j],
                relation.is_vec,
            ),
        _ => children.len() == 0,
    }
}

/// The rows of the related model that a row of `model` holds under the
/// name `key` of a relation: those of the list that it holds there, where
/// it holds one and the related model is known, and none else.
pub open spec fn nested_rows(namespace: &Namespace, model: &Model, key: Seq<char>, row: ValueView) -> Seq<ValueView> {
    let entries = row_entries(row);
    if model.spec_field(key) is None && model.spec_relation(key) is Some && last_named(
        entries,
        key,
        entries.len() as int,
    ) >= 0 && namespace.spec_model(
        crate::collections::names::names_of(model.spec_relation(key)->0.model_path),
    ) is Some {
        match entries[last_named(entries, key, entries.len() as int)].1 {
            ValueView::Array(rows) => rows,
            _ => Seq::empty(),
        }
    } else {
        Seq::empty()
    }
}

/// The entry of a dictionary value under `key`.
fn entry_of<'a>(value: Option<&'a Value>, key: &str) -> (found: Option<&'a Value>)
    ensures
        match found {
            Some(inner) => value matches Some(outer) && lookup(row_entries(outer@), key@) == Some(
                inner@,
            ),
            None => match value {
                Some(outer) => lookup(row_entries(outer@), key@) is None,
                None => true,
            },
        },
{
    match value {
        Some(outer) => match outer.as_dictionary() {
            Some(entries) => entries.get(key),
            None => {
                proof {
                    crate::value::value::lemma_first_index(row_entries(outer@), key@);
                }
                None
            },
        },
        None => None,
    }
}

impl Object {
    /// Whether the two records differ at most in what taking in a stored row
    /// touches: the tracking, with the atomic updaters, the fetched
    /// relations, the selection and whether the record is new.
    pub open spec fn same_besides_hydration(&self, other: &Object) -> bool {
        &&& self.request_ctx == other.request_ctx
        &&& self.transaction_ctx == other.transaction_ctx
        &&& self.model_path == other.model_path
        &&& self.action == other.action
        &&& self.is_initialized == other.is_initialized
        &&& self.is_partial == other.is_partial
        &&& self.is_deleted == other.is_deleted
        &&& self.inside_before_save_callback == other.inside_before_save_callback
        &&& self.inside_after_save_callback == other.inside_after_save_callback
        &&& self.relation_mutation_map == other.relation_mutation_map
        &&& self.object_set_map == other.object_set_map
        &&& self.object_set_many_map == other.object_set_many_map
        &&& self.object_connect_map == other.object_connect_map
        &&& self.object_disconnect_map == other.object_disconnect_map
        &&& self.ignore_relation == other.ignore_relation
    }

    /// Takes in a row of the store.
    ///
    /// Each field of the row is assigned, each property value is cached,
    /// and for each relation the nested rows become fetched records of the
    /// related model, filled in the same way with the selection and the
    /// inclusion written under the relation's name in `inclusion`. The
    /// selection is applied where it is valid. The record is then stored
    /// and unmodified.
    pub fn set_from_database_result_value(
        &mut self,
        namespace: &Namespace,
        model: &Model,
        value: &Value,
        select: Option<&Value>,
        inclusion: Option<&Value>,
    )
        ensures
            final(self).tracking() == (Tracking {
                is_modified: false,
                ..hydrate_entries(
                    old(self).tracking(),
                    old(self).is_new,
                    model,
                    row_entries(value@),
                )
            }),
            !final(self).is_new,
            forall|key: Seq<char>|
                #![trigger final(self).fetched(key)]
                final(self).fetched(key) is Some <==> old(self).fetched(key) is Some
                    || row_has_relation(
                    model,
                    row_entries(value@),
                    key,
                    row_entries(value@).len() as int,
                ),
            final(self).is_selected == (old(self).is_selected || (select matches Some(chosen)
                && valid_selection(chosen@) && row_entries(chosen@).len() > 0)),
            crate::collections::names::names_of(final(self).selected_fields) == match select {
                Some(chosen) => if valid_selection(chosen@) && row_entries(chosen@).len() > 0 {
                    selection(model, row_entries(chosen@))
                } else {
                    crate::collections::names::names_of(old(self).selected_fields)
                },
                None => crate::collections::names::names_of(old(self).selected_fields),
            },
            forall|key: Seq<char>|
                #![trigger final(self).fetched(key)]
                row_has_relation(
                    model,
                    row_entries(value@),
                    key,
                    row_entries(value@).len() as int,
                ) ==> fetched_below(
                    final(self).fetched(key)->0,
                    *old(self),
                    namespace,
                    model.spec_relation(key)->0,
                    row_entries(value@)[last_named(
                        row_entries(value@),
                        key,
                        row_entries(value@).len() as int,
                    )].1,
                ),
            final(self).same_besides_hydration(old(self)),
            old(self).wf() ==> final(self).wf(),
        decreases value,
    {
        let was_new = self.is_new;
        match value.as_dictionary() {
            Some(row) => {
                let mut i: usize = 0;
                while i < row.len()
                    invariant
                        i <= row@.len(),
                        row@ == row_entries(value@),
                        value@ == ValueView::Dictionary(row@),
                        was_new == old(self).is_new,
                        self.is_new == old(self).is_new,
                        self.tracking() == hydrate_entries(
                            old(self).tracking(),
                            old(self).is_new,
                            model,
                            row@.take(i as int),
                        ),
                        *value == Value::Dictionary(*row),
                        forall|key: Seq<char>|
                            #![trigger self.fetched(key)]
                            self.fetched(key) is Some <==> old(self).fetched(key) is Some
                                || row_has_relation(model, row@, key, i as int),
                        forall|key: Seq<char>|
                            #![trigger self.fetched(key)]
                            row_has_relation(model, row@, key, i as int) ==> fetched_below(
                                self.fetched(key)->0,
                                *old(self),
                                namespace,
                                model.spec_relation(key)->0,
                                row@[last_named(row@, key, i as int)].1,
                            ),
                        self.selected_fields == old(self).selected_fields,
                        self.is_selected == old(self).is_selected,
                        self.same_besides_hydration(old(self)),
                        old(self).wf() ==> self.wf(),
                    decreases row@.len() - i,
                {
                    let ghost before = *self;
                    assert(row@.take(i + 1).drop_last() =~= row@.take(i as int));
                    assert(row@.take(i + 1).last() == row@[i as int]);
                    match row.entry_at(i) {
                        Some((key, entry)) => {
                            let name = key.as_str();
                            if model.field(name).is_some() {
                                self.set_value_to_value_map(model, name, copy_value(entry));
                            } else if let Some(relation) = model.relation(name) {
                                let inside = entry_of(inclusion, name);
                                let inner_select = entry_of(inside, "select");
                                let inner_inclusion = entry_of(inside, "include");
                                let mut children: Vec<Object> = Vec::new();
                                match (namespace.model_at_path(&relation.model_path), entry.as_array()) {
                                    (Some(related), Some(rows)) => {
                                        let mut j: usize = 0;
                                        while j < rows.len()
                                            invariant
                                                j <= rows.len(),
                                                children.len() == j,
                                                self.same_besides_hydration(old(self)),
                                                namespace.spec_model(
                                                    crate::collections::names::names_of(
                                                        relation.model_path,
                                                    ),
                                                ) == Some(*related),
                                                forall|k: int|
                                                    0 <= k < j ==> taken_below(
                                                        #[trigger] children[k],
                                                        *old(self),
                                                        related,
                                                        rows[k]@,
                                                        relation.is_vec,
                                                    ),
                                                entry@ == ValueView::Array(
                                                    crate::value::value::values_view(*rows),
                                                ),
                                                *entry == Value::Array(*rows),
                                                decreases_to!(*row => *entry),
                                                *value == Value::Dictionary(*row),
                                            decreases rows.len() - j,
                                        {
                                            let bits = FIND | (if relation.is_vec {
                                                MANY
                                            } else {
                                                SINGLE
                                            }) | NESTED;
                                            let mut child = Object::new(
                                                self.request_ctx,
                                                self.transaction_ctx,
                                                related,
                                                Action::from_u32(bits),
                                            );
                                            proof {
                                                assert(child.tracking().values
                                                    =~= Map::<Seq<char>, ValueView>::empty()) by {
                                                    crate::value::value::lemma_first_index_absent_everywhere(
                                                        child.value_map@,
                                                    );
                                                }
                                                assert(child.tracking().previous
                                                    =~= Map::<Seq<char>, ValueView>::empty()) by {
                                                    crate::value::value::lemma_first_index_absent_everywhere(
                                                        child.previous_value_map@,
                                                    );
                                                }
                                                assert(child.tracking().cached
                                                    =~= Map::<Seq<char>, ValueView>::empty()) by {
                                                    crate::value::value::lemma_first_index_absent_everywhere(
                                                        child.cached_property_map@,
                                                    );
                                                }
                                                assert(child.tracking().updaters =~= Map::<Seq<char>, ValueView>::empty()) by {
                                                    crate::value::value::lemma_first_index_absent_everywhere(child.atomic_updater_map@);
                                                }
                                                assert(child.tracking()
                                                    == crate::model::object::arena::blank());
                                                assert(crate::value::value::values_view(*rows)[j as int]
                                                    == rows[j as int]@);
                                                assert(decreases_to!(*rows => rows[j as int]));
                                                assert(decreases_to!(*entry => *rows));
                                                assert(decreases_to!(*row => *entry));
                                                assert(value->Dictionary_0 == *row);
                                                assert(decreases_to!(*value => *row));
                                            }
                                            child.set_from_database_result_value(
                                                namespace,
                                                related,
                                                &rows[j],
                                                inner_select,
                                                inner_inclusion,
                                            );
                                            children.push(child);
                                            j += 1;
                                        }
                                    },
                                    _ => {},
                                }
                                assert(fetched_below(
                                    children,
                                    *old(self),
                                    namespace,
                                    *relation,
                                    entry@,
                                ));
                                put_pair(&mut self.relation_query_map, key.clone(), children);
                            } else if model.property(name).is_some() {
                                self.cached_property_map.insert(key.clone(), copy_value(entry));
                            }
                            proof {
                                assert forall|other: Seq<char>|
                                    #![trigger self.fetched(other)]
                                    self.fetched(other) is Some <==> old(self).fetched(other) is Some
                                        || row_has_relation(model, row@, other, i + 1) by {
                                    assert(before.fetched(other) is Some <==> old(self).fetched(
                                        other,
                                    ) is Some || row_has_relation(model, row@, other, i as int));
                                    if row_has_relation(model, row@, other, i + 1) {
                                        let at = choose|k: int|
                                            0 <= k < i + 1 && k < row@.len() && (#[trigger] row@[k]).0
                                                == other;
                                        if at < i {
                                            assert(row_has_relation(model, row@, other, i as int));
                                        }
                                    }
                                    if row_has_relation(model, row@, other, i as int) {
                                        let at = choose|k: int|
                                            0 <= k < i && k < row@.len() && (#[trigger] row@[k]).0
                                                == other;
                                        assert(row@[at].0 == other);
                                    }
                                    if other == key@ {
                                        assert(row@[i as int].0 == other);
                                    }
                                }
                                assert forall|other: Seq<char>|
                                    #![trigger self.fetched(other)]
                                    row_has_relation(model, row@, other, i + 1) implies fetched_below(
                                    self.fetched(other)->0,
                                    *old(self),
                                    namespace,
                                    model.spec_relation(other)->0,
                                    row@[last_named(row@, other, i + 1)].1,
                                ) by {
                                    if other == key@ {
                                        assert(last_named(row@, other, i + 1) == i);
                                    } else {
                                        assert(last_named(row@, other, i + 1) == last_named(
                                            row@,
                                            other,
                                            i as int,
                                        ));
                                        assert(before.fetched(other) == self.fetched(other));
                                        let at = choose|k: int|
                                            0 <= k < i + 1 && k < row@.len() && (#[trigger] row@[k]).0
                                                == other;
                                        assert(at < i);
                                        assert(row_has_relation(model, row@, other, i as int));
                                    }
                                }
                            }
                        },
                        None => {},
                    }
                    i += 1;
                }
                assert(row@.take(i as int) =~= row@);
            },
            None => {},
        }
        let ghost filled = *self;
        let _ = self.set_select(model, select);
        self.is_new = false;
        self.is_modified = false;
        assert forall|key: Seq<char>|
            #![trigger self.fetched(key)]
            self.fetched(key) is Some <==> old(self).fetched(key) is Some || row_has_relation(
                model,
                row_entries(value@),
                key,
                row_entries(value@).len() as int,
            ) by {
            assert(filled.fetched(key) == self.fetched(key));
        }
        assert forall|key: Seq<char>|
            #![trigger self.fetched(key)]
            row_has_relation(
                model,
                row_entries(value@),
                key,
                row_entries(value@).len() as int,
            ) implies fetched_below(
            self.fetched(key)->0,
            *old(self),
            namespace,
            model.spec_relation(key)->0,
            row_entries(value@)[last_named(
                row_entries(value@),
                key,
                row_entries(value@).len() as int,
            )].1,
        ) by {
            assert(filled.fetched(key) == self.fetched(key));
        }
    }
}

} // verus!
