use vstd::prelude::*;
use crate::collections::names::names_of;
use crate::model::model::Model;
use crate::model::object::object::{value_in, Object};
use crate::model::relation::Relation;
use crate::value::value::{copy_value, entries_from, Dictionary, Value, ValueView};

verus! {

impl Object {
    /// The value that identifies the stored row at the field `key`: where the
    /// field was modified and a value other than null was recorded for it
    /// before the change, that value; else the current one.
    pub open spec fn previous_or_current(&self, key: Seq<char>) -> ValueView {
        if self.modified_fields@.contains(key) && !(value_in(self.previous_values(), key) is Null) {
            value_in(self.previous_values(), key)
        } else {
            self.value_or_null(key)
        }
    }

    /// The value under which the store knows the field `key`: the recorded
    /// previous value where the field was modified, else the current one.
    pub open spec fn stored_value(&self, key: Seq<char>) -> ValueView {
        if self.modified_fields@.contains(key) {
            value_in(self.previous_values(), key)
        } else {
            self.value_or_null(key)
        }
    }

    /// The name of the column that holds the field `key`: the field's column
    /// name, or the key itself where the model has no such field.
    pub open spec fn column_of(model: &Model, key: Seq<char>) -> Seq<char> {
        match model.spec_field(key) {
            Some(field) => field.column_name@,
            None => key,
        }
    }

    /// The current identifier: the current value of each field of the primary
    /// index, by field name.
    pub fn identifier(&self, model: &Model) -> (identifier: Value)
        ensures
            identifier@ == ValueView::Dictionary(
                entries_from(
                    names_of(model.primary_index),
                    Seq::new(
                        model.primary_index.len() as nat,
                        |i: int| self.value_or_null(model.primary_index[i]@),
                    ),
                ),
            ),
    {
        let mut values: Vec<Value> = Vec::new();
        let mut i: usize = 0;
        while i < model.primary_index.len()
            invariant
                i <= model.primary_index.len(),
                values.len() == i,
                forall|j: int|
                    0 <= j < i ==> (#[trigger] values[j])@ == self.value_or_null(
                        model.primary_index[j]@,
                    ),
            decreases model.primary_index.len() - i,
        {
            values.push(self.get_value_map_value(model.primary_index[i].as_str()));
            i += 1;
        }
        assert(crate::value::value::values_view(values) =~= Seq::new(
            model.primary_index.len() as nat,
            |i: int| self.value_or_null(model.primary_index[i]@),
        ));
        Value::Dictionary(Dictionary::from_lists(&model.primary_index, &values))
    }

    /// The previous identifier: for each field of the primary index, by field
    /// name, the value recorded before the field was changed where the field
    /// was modified and that value is not null, else the current value.
    pub fn previous_identifier(&self, model: &Model) -> (identifier: Value)
        ensures
            identifier@ == ValueView::Dictionary(
                entries_from(
                    names_of(model.primary_index),
                    Seq::new(
                        model.primary_index.len() as nat,
                        |i: int| self.previous_or_current(model.primary_index[i]@),
                    ),
                ),
            ),
    {
        let mut values: Vec<Value> = Vec::new();
        let mut i: usize = 0;
        while i < model.primary_index.len()
            invariant
                i <= model.primary_index.len(),
                values.len() == i,
                forall|j: int|
                    0 <= j < i ==> (#[trigger] values[j])@ == self.previous_or_current(
                        model.primary_index[j]@,
                    ),
            decreases model.primary_index.len() - i,
        {
            let key = model.primary_index[i].as_str();
            let mut value = self.get_value_map_value(key);
            if self.modified_fields.contains(key) {
                match self.previous_value_map.get(key) {
                    Some(previous) => {
                        if !previous.is_null() {
                            value = copy_value(previous);
                        }
                    },
                    None => {},
                }
            }
            values.push(value);
            i += 1;
        }
        assert(crate::value::value::values_view(values) =~= Seq::new(
            model.primary_index.len() as nat,
            |i: int| self.previous_or_current(model.primary_index[i]@),
        ));
        Value::Dictionary(Dictionary::from_lists(&model.primary_index, &values))
    }

    /// The identifier of the stored row: for each field of the primary index,
    /// by column name, the value recorded before the field was changed where
    /// the field was modified, else the current value.
    pub fn db_identifier(&self, model: &Model) -> (identifier: Value)
        ensures
            identifier@ == ValueView::Dictionary(
                entries_from(
                    Seq::new(
                        model.primary_index.len() as nat,
                        |i: int| Self::column_of(model, model.primary_index[i]@),
                    ),
                    Seq::new(
                        model.primary_index.len() as nat,
                        |i: int| self.stored_value(model.primary_index[i]@),
                    ),
                ),
            ),
    {
        let mut columns: Vec<String> = Vec::new();
        let mut values: Vec<Value> = Vec::new();
        let mut i: usize = 0;
        while i < model.primary_index.len()
            invariant
                i <= model.primary_index.len(),
                values.len() == i,
                columns.len() == i,
                forall|j: int|
                    0 <= j < i ==> (#[trigger] values[j])@ == self.stored_value(
                        model.primary_index[j]@,
                    ),
                forall|j: int|
                    0 <= j < i ==> (#[trigger] columns[j])@ == Self::column_of(
                        model,
                        model.primary_index[j]@,
                    ),
            decreases model.primary_index.len() - i,
        {
            let key = model.primary_index[i].as_str();
            let value = if self.modified_fields.contains(key) {
                match self.previous_value_map.get(key) {
                    Some(previous) => copy_value(previous),
                    None => Value::Null,
                }
            } else {
                self.get_value_map_value(key)
            };
            let column = match model.field(key) {
                Some(field) => field.column_name.clone(),
                None => model.primary_index[i].clone(),
            };
            values.push(value);
            columns.push(column);
            i += 1;
        }
        assert(crate::value::value::values_view(values) =~= Seq::new(
            model.primary_index.len() as nat,
            |i: int| self.stored_value(model.primary_index[i]@),
        ));
        assert(names_of(columns) =~= Seq::new(
            model.primary_index.len() as nat,
            |i: int| Self::column_of(model, model.primary_index[i]@),
        ));
        Value::Dictionary(Dictionary::from_lists(&columns, &values))
    }

    /// The filter that finds, on the other side of `relation`, the records
    /// linked to this one: each referenced field of the other model paired
    /// with the current value of the local field it is matched with.
    pub fn intrinsic_where_unique_for_relation(&self, relation: &Relation) -> (filter: Value)
        ensures
            filter@ == ValueView::Dictionary(
                entries_from(
                    names_of(relation.references).take(relation.spec_pair_count() as int),
                    Seq::new(
                        relation.spec_pair_count(),
                        |i: int| self.value_or_null(relation.fields[i]@),
                    ),
                ),
            ),
    {
        let count = relation.pair_count();
        let mut references: Vec<String> = Vec::new();
        let mut values: Vec<Value> = Vec::new();
        let mut i: usize = 0;
        while i < count
            invariant
                i <= count,
                count == relation.spec_pair_count(),
                values.len() == i,
                references.len() == i,
                forall|j: int|
                    0 <= j < i ==> (#[trigger] values[j])@ == self.value_or_null(
                        relation.fields[j]@,
                    ),
                forall|j: int| 0 <= j < i ==> (#[trigger] references[j])@ == relation.references[j]@,
            decreases count - i,
        {
            values.push(self.get_value_map_value(relation.fields[i].as_str()));
            references.push(relation.references[i].clone());
            i += 1;
        }
        assert(crate::value::value::values_view(values) =~= Seq::new(
            relation.spec_pair_count(),
            |i: int| self.value_or_null(relation.fields[i]@),
        ));
        assert(names_of(references) =~= names_of(relation.references).take(
            relation.spec_pair_count() as int,
        ));
        Value::Dictionary(Dictionary::from_lists(&references, &values))
    }
}

} // verus!
