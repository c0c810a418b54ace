use vstd::prelude::*;
use crate::collections::names::{lemma_kept, names_of};
use crate::model::model::Model;
use crate::model::object::hydrate::{hydrate_entries, last_named};
use crate::model::object::link::assign_each;
use crate::model::object::delete::{rule_of, Delete, DeleteMode, RulePlan};
use crate::model::object::machine::{ends_well, Frame, Input, Step};
use crate::model::object::save::{Save, SaveStage};
use crate::namespace::namespace::Namespace;
use crate::model::object::object::{assign, field_keeps_previous, value_in, Object, Tracking};
use crate::model::object::select::{chosen, passes, selection};
use crate::model::object::to_json::{covered, may_appear};
use crate::value::value::ValueView;

verus! {

/// The tracking of a record after each of `values` was assigned, one after
/// the other, to the key `key`.
pub open spec fn assigned_in_turn(before: Tracking, is_new: bool, model: &Model, key: Seq<char>, values: Seq<ValueView>) -> Tracking
    decreases values.len(),
{
    if values.len() == 0 {
        before
    } else {
        assign(
            assigned_in_turn(before, is_new, model, key, values.drop_last()),
            is_new,
            model,
            key,
            values.last(),
        )
    }
}

/// On a record that is not new, a field that keeps its previous value and
/// has none recorded yet records, with the first assignment, the value that
/// it held before, and keeps it through every assignment that follows.
pub proof fn law_previous_value_is_kept(before: Tracking, model: &Model, key: Seq<char>, values: Seq<ValueView>)
    requires
        field_keeps_previous(model, key),
        !before.previous.contains_key(key),
        values.len() > 0,
    ensures
        assigned_in_turn(before, false, model, key, values).previous.contains_key(key),
        assigned_in_turn(before, false, model, key, values).previous[key] == value_in(
            before.values,
            key,
        ),
    decreases values.len(),
{
    if values.len() > 1 {
        law_previous_value_is_kept(before, model, key, values.drop_last());
    } else {
        assert(values.drop_last().len() == 0);
        assert(assigned_in_turn(before, false, model, key, values.drop_last()) == before);
    }
}

/// A save that ends well leaves its record stored and clean: not new, not
/// modified, and with no modified field.
pub proof fn law_saved_record_is_clean(save: Save, namespace: &Namespace, earlier: Vec<Object>, later: Vec<Object>, input: Input, step: Step)
    requires
        save.save_with_session_and_path_and_ignore_step(namespace, earlier, later, input, step),
        ends_well(step),
    ensures
        save.object < later.len(),
        !later[save.object as int].is_new,
        !later[save.object as int].is_modified,
        later[save.object as int].modified_fields@ == Set::<Seq<char>>::empty(),
{
}

/// The delete rules reach every related record that the store found: under
/// the rule nullify the record holds nothing under the fields that link it
/// to the deleted record when its save starts, and under the rule cascade
/// its own deletion from the store starts.
pub proof fn law_delete_rules_reach_related_records(delete: Delete, namespace: &Namespace, earlier: Vec<Object>, later: Vec<Object>, step: Step)
    requires
        delete.children_step(namespace, earlier, later, step),
        delete.ready(namespace, earlier@),
        namespace.spec_model(names_of(delete.relation(namespace, earlier@).model_path)) is Some,
        delete.cursor < delete.found.len(),
        delete.found[delete.cursor as int] < earlier.len(),
    ensures
        match delete.plan(namespace, earlier@) {
            RulePlan::Nullify => (forall|i: int|
                0 <= i < rule_of(
                    namespace,
                    delete.relation(namespace, earlier@),
                    names_of(delete.model(namespace, earlier@).path),
                )->0.fields.len() ==> later[delete.found[delete.cursor as int] as int].value_or_null(
                    #[trigger] rule_of(
                        namespace,
                        delete.relation(namespace, earlier@),
                        names_of(delete.model(namespace, earlier@).path),
                    )->0.fields[i]@,
                ) is Null) && (step matches Step::Call(_, Frame::Save(child)) && child.object
                == delete.found[delete.cursor as int]),
            RulePlan::Cascade => step matches Step::Call(_, Frame::Delete(child)) && child.object
                == delete.found[delete.cursor as int] && child.mode == DeleteMode::Database,
            RulePlan::Skip => true,
        },
{
}

/// The save that `step` goes on with, where it goes on with one.
pub open spec fn save_after(step: Step) -> Option<Save> {
    match step {
        Step::Emit(Frame::Save(next), _) => Some(next),
        Step::Call(Frame::Save(next), _) => Some(next),
        Step::Again(Frame::Save(next)) => Some(next),
        _ => None,
    }
}

/// A save that finds its record clean writes nothing: it starts without
/// asking for the row to be written, and a save that does not ask for it
/// never turns to the host and goes on as a save that does not ask for it.
/// So the second of two saves in a row, with no change between them, leaves
/// the store alone.
pub proof fn law_clean_save_writes_nothing(save: Save, namespace: &Namespace, earlier: Vec<Object>, later: Vec<Object>, input: Input, step: Step)
    requires
        save.grounded(namespace, earlier@),
        save.save_with_session_and_path_and_ignore_step(namespace, earlier, later, input, step),
        save.stage == SaveStage::Begin ==> earlier[save.object as int].is_clean(),
        save.stage != SaveStage::Begin ==> !save.dirty,
    ensures
        !(step is Emit),
        save_after(step) matches Some(next) ==> !next.dirty,
{
}

/// After null was assigned to each of `keys`, the record holds no value
/// under any of them, and every other key holds what it held.
pub proof fn law_nullified_keys_hold_nothing(before: Tracking, is_new: bool, model: &Model, keys: Seq<Seq<char>>)
    ensures
        forall|i: int|
            0 <= i < keys.len() ==> value_in(
                assign_each(
                    before,
                    is_new,
                    model,
                    keys,
                    Seq::new(keys.len(), |j: int| ValueView::Null),
                ).values,
                #[trigger] keys[i],
            ) is Null,
        forall|other: Seq<char>|
            !keys.contains(other) ==> value_in(
                assign_each(
                    before,
                    is_new,
                    model,
                    keys,
                    Seq::new(keys.len(), |j: int| ValueView::Null),
                ).values,
                other,
            ) == value_in(before.values, other),
    decreases keys.len(),
{
    let nulls = Seq::new(keys.len(), |j: int| ValueView::Null);
    if keys.len() > 0 {
        let head = keys.drop_last();
        let fewer = Seq::new(head.len(), |j: int| ValueView::Null);
        assert(nulls.drop_last() =~= fewer);
        law_nullified_keys_hold_nothing(before, is_new, model, head);
        let middle = assign_each(before, is_new, model, head, fewer);
        let after = assign_each(before, is_new, model, keys, nulls);
        assert(after == assign(middle, is_new, model, keys.last(), ValueView::Null));
        assert forall|i: int| 0 <= i < keys.len() implies value_in(
            after.values,
            #[trigger] keys[i],
        ) is Null by {
            if i < head.len() {
                assert(head[i] == keys[i]);
            }
        }
        assert forall|other: Seq<char>| !keys.contains(other) implies value_in(
            after.values,
            other,
        ) == value_in(before.values, other) by {
            if head.contains(other) {
                let at = choose|i: int| 0 <= i < head.len() && head[i] == other;
                assert(keys[at] == other);
            }
            assert(keys[keys.len() - 1] == keys.last());
        }
    }
}

/// The position of the last entry of a name among the first entries of a
/// row does not depend on the entries behind them.
proof fn lemma_last_named_of_head(entries: Seq<(Seq<char>, ValueView)>, key: Seq<char>, below: int)
    requires
        entries.len() > 0,
        0 <= below <= entries.len() - 1,
    ensures
        last_named(entries.drop_last(), key, below) == last_named(entries, key, below),
    decreases below,
{
    if below > 0 {
        lemma_last_named_of_head(entries, key, below - 1);
        assert(entries.drop_last()[below - 1] == entries[below - 1]);
    }
}

/// A record holds what it took in: after the entries of a row of the store
/// were taken in, one after the other, a field of the model holds the value
/// that the last entry of its name gives, and what it held before where
/// the row has no entry of its name. So a record that is read again from
/// the row that its save wrote holds the values that were saved.
pub proof fn law_row_taken_in_is_held(before: Tracking, model: &Model, row: Seq<(Seq<char>, ValueView)>, key: Seq<char>)
    requires
        model.spec_field(key) is Some,
    ensures
        value_in(hydrate_entries(before, true, model, row).values, key) == if last_named(
            row,
            key,
            row.len() as int,
        ) >= 0 {
            row[last_named(row, key, row.len() as int)].1
        } else {
            value_in(before.values, key)
        },
    decreases row.len(),
{
    if row.len() > 0 {
        let head = row.drop_last();
        law_row_taken_in_is_held(before, model, head, key);
        lemma_last_named_of_head(row, key, row.len() - 1);
        let at = last_named(head, key, head.len() as int);
        if at >= 0 {
            crate::model::object::hydrate::lemma_last_named(head, key, head.len() as int);
            assert(head[at] == row[at]);
        }
    }
}

/// A selection that maps the one name `name` to true lets only that name
/// through.
pub proof fn lemma_single_selection(model: &Model, name: Seq<char>, key: Seq<char>)
    ensures
        selection(model, seq![(name, ValueView::Bool(true))]).contains(key) ==> key == name,
{
    let select = seq![(name, ValueView::Bool(true))];
    let keep = |k: Seq<char>| passes(select, k);
    lemma_kept(names_of(model.cache.all_keys), keep);
    assert(select[0] == (name, ValueView::Bool(true)));
    assert(chosen(select, true).contains(name));
    if selection(model, select).contains(key) {
        assert(passes(select, key));
        assert(chosen(select, true).contains(key));
    }
}

/// Selection bounds the output: where the selection of a record is the one
/// that maps the single name `name` to true, every key of an output that
/// holds only keys that may appear is `name`. So the output is empty where
/// `name` is no key of the model.
pub proof fn law_selection_bounds_output(model: &Model, record: &Object, name: Seq<char>, output: Seq<(Seq<char>, ValueView)>)
    requires
        record.is_selected,
        names_of(record.selected_fields) == selection(model, seq![(name, ValueView::Bool(true))]),
        covered(output, model, record),
    ensures
        forall|i: int| 0 <= i < output.len() ==> (#[trigger] output[i]).0 == name,
{
    assert forall|i: int| 0 <= i < output.len() implies (#[trigger] output[i]).0 == name by {
        let key = output[i].0;
        assert(may_appear(model, record, key));
        lemma_single_selection(model, name, key);
    }
}

} // verus!
