use vstd::prelude::*;
use crate::action::action::NestedAction;
use crate::collections::names::{has_name, kept, names_of};
use crate::model::model::Model;
use crate::model::object::object::{assign, Object, Tracking};
use crate::model::relation::Relation;
use crate::value::value::{
    copy_value, entries_insert, values_view, Dictionary, Value, ValueView,
};

verus! {

/// The tracking of a record after each value was assigned, one after the
/// other, to the key at the same position.
pub open spec fn assign_each(
    before: Tracking,
    is_new: bool,
    model: &Model,
    keys: Seq<Seq<char>>,
    values: Seq<ValueView>,
) -> Tracking
    decreases keys.len(),
{
    if keys.len() == 0 || values.len() == 0 {
        before
    } else {
        assign(
            assign_each(before, is_new, model, keys.drop_last(), values.drop_last()),
            is_new,
            model,
            keys.last(),
            values.last(),
        )
    }
}

/// Whether the field `name` of `model` is virtual and can be assigned.
pub open spec fn is_copied_virtual(model: &Model, name: Seq<char>) -> bool {
    &&& model.spec_field(name) matches Some(field) && field.is_virtual
    &&& names_of(model.cache.save_keys_and_virtual_keys).contains(name)
}

/// The payload of a nested action on a to-one relation, made complete: a
/// create payload is put under `create`; an update payload under `update`,
/// beside the filter under `where`; a delete becomes the filter under
/// `where`; a disconnect becomes the filter itself; an upsert payload gets
/// the filter under `where`. Every other payload stays as it is.
pub open spec fn normalized_one(action: NestedAction, value: ValueView, filter: ValueView) -> ValueView {
    match action {
        NestedAction::Create => ValueView::Dictionary(seq![("create"@, value)]),
        NestedAction::Update => ValueView::Dictionary(seq![("update"@, value), ("where"@, filter)]),
        NestedAction::Delete => ValueView::Dictionary(seq![("where"@, filter)]),
        NestedAction::Disconnect => filter,
        NestedAction::Upsert => match value {
            ValueView::Dictionary(entries) => ValueView::Dictionary(
                entries_insert(entries, "where"@, filter),
            ),
            _ => value,
        },
        _ => value,
    }
}

/// The payload of a nested action on a to-many relation, made complete: a
/// create payload is put under `create`, every other payload stays as it is.
pub open spec fn normalized_many(action: NestedAction, value: ValueView) -> ValueView {
    match action {
        NestedAction::Create => ValueView::Dictionary(seq![("create"@, value)]),
        _ => value,
    }
}

/// A dictionary value with one entry.
fn single_entry(key: &str, value: Value) -> (d: Dictionary)
    ensures
        d@ == seq![(key@, value@)],
{
    let mut d = Dictionary::new();
    proof {
        crate::value::value::lemma_first_index(d@, key@);
    }
    d.insert(key.to_owned(), value);
    assert(d@ =~= seq![(key@, value@)]);
    d
}

impl Object {
    /// Assigns to the first `count` keys, one after the other, the value at
    /// the same position.
    pub fn assign_values(&mut self, model: &Model, keys: &Vec<String>, values: &Vec<Value>, count: usize)
        requires
            count <= keys.len(),
            count <= values.len(),
        ensures
            final(self).tracking() == assign_each(
                old(self).tracking(),
                old(self).is_new,
                model,
                names_of(*keys).take(count as int),
                values_view(*values).take(count as int),
            ),
            final(self).same_besides_values(old(self)),
            old(self).wf() ==> final(self).wf(),
    {
        let ghost names = names_of(*keys);
        let ghost views = values_view(*values);
        let mut i: usize = 0;
        while i < count
            invariant
                i <= count,
                count <= keys.len(),
                count <= values.len(),
                names == names_of(*keys),
                views == values_view(*values),
                self.tracking() == assign_each(
                    old(self).tracking(),
                    old(self).is_new,
                    model,
                    names.take(i as int),
                    views.take(i as int),
                ),
                self.same_besides_values(old(self)),
                old(self).wf() ==> self.wf(),
            decreases count - i,
        {
            assert(names.take(i + 1).drop_last() =~= names.take(i as int));
            assert(views.take(i + 1).drop_last() =~= views.take(i as int));
            assert(names.take(i + 1).last() == keys[i as int]@);
            assert(views.take(i + 1).last() == values[i as int]@);
            self.set_value_to_value_map(model, keys[i].as_str(), copy_value(&values[i]));
            i += 1;
        }
    }

    /// Copies, for each pair of `relation`, the value that this record holds
    /// under the referenced field to the local field of `object`, a record
    /// of `model`.
    pub fn assign_linked_values_to_related_object(
        &self,
        object: &mut Object,
        model: &Model,
        relation: &Relation,
    )
        ensures
            final(object).tracking() == assign_each(
                old(object).tracking(),
                old(object).is_new,
                model,
                names_of(relation.fields).take(relation.spec_pair_count() as int),
                Seq::new(
                    relation.spec_pair_count(),
                    |i: int| self.value_or_null(relation.references[i]@),
                ),
            ),
            final(object).same_besides_values(old(object)),
            old(object).wf() ==> final(object).wf(),
    {
        let count = relation.pair_count();
        let mut values: Vec<Value> = Vec::new();
        let mut i: usize = 0;
        while i < count
            invariant
                i <= count,
                count == relation.spec_pair_count(),
                values.len() == i,
                forall|j: int|
                    0 <= j < i ==> (#[trigger] values[j])@ == self.value_or_null(
                        relation.references[j]@,
                    ),
            decreases count - i,
        {
            values.push(self.get_value_map_value(relation.references[i].as_str()));
            i += 1;
        }
        assert(values_view(values).take(count as int) =~= Seq::new(
            relation.spec_pair_count(),
            |i: int| self.value_or_null(relation.references[i]@),
        ));
        object.assign_values(model, &relation.fields, &values, count);
    }

    /// Assigns null to each local field of `relation` on this record, a
    /// record of `model`.
    pub fn remove_linked_values_from_related_relation(&mut self, model: &Model, relation: &Relation)
        ensures
            final(self).tracking() == assign_each(
                old(self).tracking(),
                old(self).is_new,
                model,
                names_of(relation.fields).take(relation.spec_pair_count() as int),
                Seq::new(relation.spec_pair_count(), |i: int| ValueView::Null),
            ),
            final(self).same_besides_values(old(self)),
            old(self).wf() ==> final(self).wf(),
    {
        let count = relation.pair_count();
        let values = nulls(count);
        assert(values_view(values).take(count as int) =~= Seq::new(
            relation.spec_pair_count(),
            |i: int| ValueView::Null,
        ));
        self.assign_values(model, &relation.fields, &values, count);
    }

    /// Assigns null to each referenced field of `relation` on `object`, a
    /// record of `model` on the other side of the relation.
    pub fn remove_linked_values_from_related_relation_on_related_object(
        relation: &Relation,
        object: &mut Object,
        model: &Model,
    )
        ensures
            final(object).tracking() == assign_each(
                old(object).tracking(),
                old(object).is_new,
                model,
                names_of(relation.references).take(relation.spec_pair_count() as int),
                Seq::new(relation.spec_pair_count(), |i: int| ValueView::Null),
            ),
            final(object).same_besides_values(old(object)),
            old(object).wf() ==> final(object).wf(),
    {
        let count = relation.pair_count();
        let values = nulls(count);
        assert(values_view(values).take(count as int) =~= Seq::new(
            relation.spec_pair_count(),
            |i: int| ValueView::Null,
        ));
        object.assign_values(model, &relation.references, &values, count);
    }

    /// Copies the value of every virtual field that can be assigned from
    /// this record to `other`, a record of the same model.
    pub fn copy_virtual_fields(&self, model: &Model, other: &mut Object)
        ensures
            final(other).tracking() == assign_each(
                old(other).tracking(),
                old(other).is_new,
                model,
                kept(model.field_names(), |name: Seq<char>| is_copied_virtual(model, name)),
                kept(
                    model.field_names(),
                    |name: Seq<char>| is_copied_virtual(model, name),
                ).map_values(|name: Seq<char>| self.value_or_null(name)),
            ),
            final(other).same_besides_values(old(other)),
            old(other).wf() ==> final(other).wf(),
    {
        let ghost keep = |name: Seq<char>| is_copied_virtual(model, name);
        let ghost all = model.field_names();
        let mut keys: Vec<String> = Vec::new();
        let mut values: Vec<Value> = Vec::new();
        let mut i: usize = 0;
        assert(names_of(keys) =~= kept(all.take(0), keep));
        while i < model.fields.len()
            invariant
                i <= model.fields.len(),
                all == model.field_names(),
                keep == (|name: Seq<char>| is_copied_virtual(model, name)),
                keys.len() == values.len(),
                names_of(keys) == kept(all.take(i as int), keep),
                forall|j: int|
                    0 <= j < keys.len() ==> (#[trigger] values[j])@ == self.value_or_null(keys[j]@),
            decreases model.fields.len() - i,
        {
            let name = model.fields[i].name.as_str();
            let ghost before = names_of(keys);
            assert(all.take(i + 1).drop_last() =~= all.take(i as int));
            assert(all.take(i + 1).last() == name@);
            let is_virtual = match model.field(name) {
                Some(field) => field.is_virtual,
                None => false,
            };
            if is_virtual && has_name(&model.cache.save_keys_and_virtual_keys, name) {
                keys.push(model.fields[i].name.clone());
                values.push(self.get_value_map_value(name));
                assert(names_of(keys) =~= before.push(name@));
            }
            i += 1;
        }
        assert(all.take(i as int) =~= all);
        let count = keys.len();
        assert(names_of(keys).take(count as int) =~= names_of(keys));
        assert(values_view(values).take(count as int) =~= names_of(keys).map_values(
            |name: Seq<char>| self.value_or_null(name),
        ));
        other.assign_values(model, &keys, &values, count);
    }

    /// Makes the payload of a nested action on the to-one relation
    /// `relation` complete.
    pub fn normalize_relation_one_value(&self, relation: &Relation, action: NestedAction, value: &Value) -> (normalized: Value)
        ensures
            normalized@ == normalized_one(action, value@, self.spec_intrinsic_filter(relation)),
    {
        let filter = self.intrinsic_where_unique_for_relation(relation);
        let ghost witness = filter;
        let normalized = match action {
            NestedAction::Create => Value::Dictionary(single_entry("create", copy_value(value))),
            NestedAction::Update => {
                let mut d = single_entry("update", copy_value(value));
                proof {
                    reveal_strlit("update");
                    reveal_strlit("where");
                    assert("update"@.len() == 6);
                    assert("where"@.len() == 5);
                    assert("update"@ != "where"@);
                    crate::value::value::lemma_first_index(d@, "where"@);
                }
                d.insert("where".to_owned(), filter);
                assert(d@ =~= seq![("update"@, value@), ("where"@, witness@)]);
                Value::Dictionary(d)
            },
            NestedAction::Delete => Value::Dictionary(single_entry("where", filter)),
            NestedAction::Disconnect => filter,
            NestedAction::Upsert => match value {
                Value::Dictionary(entries) => {
                    let mut d = entries.clone();
                    d.insert("where".to_owned(), filter);
                    Value::Dictionary(d)
                },
                _ => copy_value(value),
            },
            _ => copy_value(value),
        };
        assert(normalized@ == normalized_one(action, value@, witness@));
        normalized
    }

    /// The filter of [`Object::intrinsic_where_unique_for_relation`].
    pub open spec fn spec_intrinsic_filter(&self, relation: &Relation) -> ValueView {
        ValueView::Dictionary(
            crate::value::value::entries_from(
                names_of(relation.references).take(relation.spec_pair_count() as int),
                Seq::new(
                    relation.spec_pair_count(),
                    |i: int| self.value_or_null(relation.fields[i]@),
                ),
            ),
        )
    }

    /// Makes the payload of a nested action on a to-many relation complete.
    pub fn normalize_relation_many_value(action: NestedAction, value: &Value) -> (normalized: Value)
        ensures
            normalized@ == normalized_many(action, value@),
    {
        match action {
            NestedAction::Create => Value::Dictionary(single_entry("create", copy_value(value))),
            _ => copy_value(value),
        }
    }
}

/// A list of `count` null values.
fn nulls(count: usize) -> (values: Vec<Value>)
    ensures
        values.len() == count,
        forall|i: int| 0 <= i < count ==> (#[trigger] values[i])@ is Null,
{
    let mut values: Vec<Value> = Vec::new();
    let mut i: usize = 0;
    while i < count
        invariant
            i <= count,
            values.len() == i,
            forall|j: int| 0 <= j < i ==> (#[trigger] values[j])@ is Null,
        decreases count - i,
    {
        values.push(Value::Null);
        i += 1;
    }
    values
}

} // verus!
