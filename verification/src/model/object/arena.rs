use vstd::prelude::*;
use crate::action::action::Action;
use crate::collections::names::names_of;
use crate::connection::transaction;
use crate::model::model::Model;
use crate::model::object::hydrate::{hydrate_entries, row_entries};
use crate::model::object::object::{Object, Tracking};
use crate::model::object::to_json::grown;
use crate::namespace::namespace::Namespace;
use crate::request;
use crate::value::value::{Value, ValueView};

verus! {

/// The tracking of a blank record.
pub open spec fn blank() -> Tracking {
    Tracking {
        values: Map::empty(),
        previous: Map::empty(),
        cached: Map::empty(),
        is_modified: false,
        modified: Set::empty(),
        updaters: Map::empty(),
    }
}

/// Whether `record` is what a row of `model` is when it was just found: a
/// record of the model, of the same transaction and request as `parent`,
/// that holds the row and is stored and unmodified.
pub open spec fn found_as(record: Object, parent: Object, model: &Model, row: ValueView, action: Action) -> bool {
    &&& names_of(record.model_path) == names_of(model.path)
    &&& record.transaction_ctx == parent.transaction_ctx
    &&& record.request_ctx == parent.request_ctx
    &&& record.action == action
    &&& !record.is_new
    &&& !record.is_modified
    &&& record.modified_fields@ == Set::<Seq<char>>::empty()
    &&& record.values() == hydrate_entries(blank(), true, model, row_entries(row)).values
    &&& record.relation_mutation_map@.len() == 0
    &&& record.wf()
}

/// Adds a record for a row of `model` that the store found, and hands back
/// its number.
pub fn add_found(
    namespace: &Namespace,
    records: &mut Vec<Object>,
    parent: usize,
    model: &Model,
    row: &Value,
    action: Action,
) -> (number: usize)
    requires
        parent < old(records).len(),
    ensures
        number == old(records).len(),
        final(records).len() == old(records).len() + 1,
        grown(old(records)@, final(records)@),
        found_as(final(records)[number as int], old(records)[parent as int], model, row@, action),
{
    let mut record = Object::new(
        records[parent].request_ctx,
        records[parent].transaction_ctx,
        model,
        action,
    );
    proof {
        assert(record.tracking().values =~= Map::<Seq<char>, ValueView>::empty()) by {
            crate::value::value::lemma_first_index_absent_everywhere(record.value_map@);
        }
        assert(record.tracking().previous =~= Map::<Seq<char>, ValueView>::empty()) by {
            crate::value::value::lemma_first_index_absent_everywhere(record.previous_value_map@);
        }
        assert(record.tracking().cached =~= Map::<Seq<char>, ValueView>::empty()) by {
            crate::value::value::lemma_first_index_absent_everywhere(record.cached_property_map@);
        }
        assert(record.tracking().updaters =~= Map::<Seq<char>, ValueView>::empty()) by {
            crate::value::value::lemma_first_index_absent_everywhere(record.atomic_updater_map@);
        }
        assert(record.tracking() == blank());
    }
    record.set_from_database_result_value(namespace, model, row, None, None);
    proof {
        lemma_fresh_stays_clean(model, row_entries(row@));
    }
    let number = records.len();
    records.push(record);
    number
}

/// Taking a row into a blank, new record marks no field modified.
pub proof fn lemma_fresh_stays_clean(model: &Model, entries: Seq<(Seq<char>, ValueView)>)
    ensures
        hydrate_entries(blank(), true, model, entries).modified == Set::<Seq<char>>::empty(),
    decreases entries.len(),
{
    if entries.len() > 0 {
        lemma_fresh_stays_clean(model, entries.drop_last());
    }
}

} // verus!
