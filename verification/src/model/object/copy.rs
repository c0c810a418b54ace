use vstd::prelude::*;
use crate::collections::names::{copy_names, names_of, pair_names};
use crate::model::object::object::Object;

verus! {

/// Whether two lists of records hold, position by position, records of the
/// same content.
pub open spec fn same_records(left: Vec<Object>, right: Vec<Object>) -> bool
    decreases left,
{
    &&& left.len() == right.len()
    &&& forall|i: int| 0 <= i < left.len() ==> same_record(#[trigger] left[i], right[i])
}

/// Whether two records have the same content: the same model, action and
/// flags, the same values, tracking and queued payloads, the same selection,
/// and records of the same content fetched, and asked to be set, connected
/// or disconnected, under the same relations.
pub open spec fn same_record(left: Object, right: Object) -> bool
    decreases left,
{
    &&& left.request_ctx == right.request_ctx
    &&& left.transaction_ctx == right.transaction_ctx
    &&& names_of(left.model_path) == names_of(right.model_path)
    &&& left.action == right.action
    &&& left.is_initialized == right.is_initialized
    &&& left.is_new == right.is_new
    &&& left.is_modified == right.is_modified
    &&& left.is_partial == right.is_partial
    &&& left.is_deleted == right.is_deleted
    &&& left.inside_before_save_callback == right.inside_before_save_callback
    &&& left.inside_after_save_callback == right.inside_after_save_callback
    &&& left.is_selected == right.is_selected
    &&& names_of(left.selected_fields) == names_of(right.selected_fields)
    &&& left.modified_fields@ == right.modified_fields@
    &&& left.previous_value_map@ == right.previous_value_map@
    &&& left.value_map@ == right.value_map@
    &&& left.atomic_updater_map@ == right.atomic_updater_map@
    &&& left.relation_mutation_map@ == right.relation_mutation_map@
    &&& left.cached_property_map@ == right.cached_property_map@
    &&& pair_names(left.relation_query_map) == pair_names(right.relation_query_map)
    &&& forall|i: int|
        0 <= i < left.relation_query_map.len() ==> same_records(
            (#[trigger] left.relation_query_map[i]).1,
            right.relation_query_map[i].1,
        )
    &&& same_lists(left.object_set_many_map, right.object_set_many_map)
    &&& same_lists(left.object_connect_map, right.object_connect_map)
    &&& same_lists(left.object_disconnect_map, right.object_disconnect_map)
    &&& pair_names(left.object_set_map) == pair_names(right.object_set_map)
    &&& forall|i: int|
        0 <= i < left.object_set_map.len() ==> match (
            (#[trigger] left.object_set_map[i]).1,
            right.object_set_map[i].1,
        ) {
            (Some(l), Some(r)) => same_record(l, r),
            (None, None) => true,
            _ => false,
        }
    &&& match (left.ignore_relation, right.ignore_relation) {
        (Some(l), Some(r)) => l@ == r@,
        (None, None) => true,
        _ => false,
    }
}

/// Whether two lists of named lists of records hold, under the same names
/// in the same order, records of the same content.
pub open spec fn same_lists(left: Vec<(String, Vec<Object>)>, right: Vec<(String, Vec<Object>)>) -> bool
    decreases left,
{
    &&& pair_names(left) == pair_names(right)
    &&& forall|i: int|
        0 <= i < left.len() ==> same_records((#[trigger] left[i]).1, right[i].1)
}

/// A deep copy of a list of records.
pub fn copy_records(list: &Vec<Object>) -> (copy: Vec<Object>)
    ensures
        same_records(*list, copy),
    decreases list,
{
    let mut copy: Vec<Object> = Vec::new();
    let mut i: usize = 0;
    while i < list.len()
        invariant
            i <= list.len(),
            copy.len() == i,
            forall|j: int| 0 <= j < i ==> same_record(#[trigger] list[j], copy[j]),
        decreases list.len() - i,
    {
        copy.push(copy_object(&list[i]));
        i += 1;
    }
    copy
}

/// A deep copy of a list of named lists of records.
fn copy_lists(lists: &Vec<(String, Vec<Object>)>) -> (copy: Vec<(String, Vec<Object>)>)
    ensures
        pair_names(*lists) == pair_names(copy),
        forall|i: int|
            0 <= i < lists.len() ==> same_records((#[trigger] lists[i]).1, copy[i].1),
        same_lists(*lists, copy),
    decreases lists,
{
    let mut copy: Vec<(String, Vec<Object>)> = Vec::new();
    let mut i: usize = 0;
    while i < lists.len()
        invariant
            i <= lists.len(),
            copy.len() == i,
            forall|j: int| 0 <= j < i ==> (#[trigger] copy[j]).0@ == lists[j].0@,
            forall|j: int| 0 <= j < i ==> same_records((#[trigger] lists[j]).1, copy[j].1),
        decreases lists.len() - i,
    {
        copy.push((lists[i].0.clone(), copy_records(&lists[i].1)));
        i += 1;
    }
    assert(pair_names(*lists) =~= pair_names(copy));
    copy
}

/// A deep copy of a list of named optional records.
fn copy_options(lists: &Vec<(String, Option<Object>)>) -> (copy: Vec<(String, Option<Object>)>)
    ensures
        copy.len() == lists.len(),
        pair_names(*lists) == pair_names(copy),
        forall|i: int|
            0 <= i < lists.len() ==> match ((#[trigger] lists[i]).1, copy[i].1) {
                (Some(l), Some(r)) => same_record(l, r),
                (None, None) => true,
                _ => false,
            },
    decreases lists,
{
    let mut copy: Vec<(String, Option<Object>)> = Vec::new();
    let mut i: usize = 0;
    while i < lists.len()
        invariant
            i <= lists.len(),
            copy.len() == i,
            forall|j: int| 0 <= j < i ==> (#[trigger] copy[j]).0@ == lists[j].0@,
            forall|j: int|
                0 <= j < i ==> match ((#[trigger] lists[j]).1, copy[j].1) {
                    (Some(l), Some(r)) => same_record(l, r),
                    (None, None) => true,
                    _ => false,
                },
        decreases lists.len() - i,
    {
        let item = match &lists[i].1 {
            Some(object) => Some(copy_object(object)),
            None => None,
        };
        copy.push((lists[i].0.clone(), item));
        i += 1;
    }
    assert(pair_names(*lists) =~= pair_names(copy));
    copy
}

/// A deep copy of a record.
pub fn copy_object(object: &Object) -> (copy: Object)
    ensures
        same_record(*object, copy),
    decreases object,
{
    Object {
        request_ctx: object.request_ctx,
        transaction_ctx: object.transaction_ctx,
        model_path: copy_names(&object.model_path),
        action: object.action,
        is_initialized: object.is_initialized,
        is_new: object.is_new,
        is_modified: object.is_modified,
        is_partial: object.is_partial,
        is_deleted: object.is_deleted,
        inside_before_save_callback: object.inside_before_save_callback,
        inside_after_save_callback: object.inside_after_save_callback,
        is_selected: object.is_selected,
        selected_fields: copy_names(&object.selected_fields),
        modified_fields: object.modified_fields.clone(),
        previous_value_map: object.previous_value_map.clone(),
        value_map: object.value_map.clone(),
        atomic_updater_map: object.atomic_updater_map.clone(),
        relation_mutation_map: object.relation_mutation_map.clone(),
        cached_property_map: object.cached_property_map.clone(),
        relation_query_map: copy_lists(&object.relation_query_map),
        object_set_map: copy_options(&object.object_set_map),
        object_set_many_map: copy_lists(&object.object_set_many_map),
        object_connect_map: copy_lists(&object.object_connect_map),
        object_disconnect_map: copy_lists(&object.object_disconnect_map),
        ignore_relation: match &object.ignore_relation {
            Some(name) => Some(name.clone()),
            None => None,
        },
    }
}

impl Clone for Object {
    fn clone(&self) -> (copy: Self)
        ensures
            same_record(*self, copy),
    {
        copy_object(self)
    }
}

} // verus!
