//! Ordered sets of names, kept by `indexmap::IndexSet`.

use vstd::prelude::*;

verus! {

/// `indexmap::IndexSet`: a set that keeps its items in the order in which
/// they were inserted. Nothing is known of a value of it but what the
/// functions below say.
#[verifier::external_type_specification]
#[verifier::external_body]
#[verifier::reject_recursive_types(T)]
#[verifier::reject_recursive_types(S)]
pub struct ExIndexSet<T, S>(indexmap::IndexSet<T, S>);

/// The names an ordered name set holds, in insertion order.
pub uninterp spec fn ordered_keys(keys: indexmap::IndexSet<String>) -> Seq<Seq<char>>;

/// Whether `name` occurs at position `index` of `keys` and nowhere else.
pub open spec fn sole_position(keys: Seq<Seq<char>>, name: Seq<char>, index: int) -> bool {
    &&& 0 <= index < keys.len()
    &&& keys[index] == name
    &&& forall|j: int| 0 <= j < keys.len() && j != index ==> keys[j] != name
}

/// `indexmap::IndexSet::new`: the new set holds no name.
#[verifier::external_body]
pub(crate) fn keys_new() -> (keys: indexmap::IndexSet<String>)
    ensures
        ordered_keys(keys) == Seq::<Seq<char>>::empty(),
{
    indexmap::IndexSet::new()
}

/// `indexmap::IndexSet::len`: the number of names held.
#[verifier::external_body]
pub(crate) fn keys_len(keys: &indexmap::IndexSet<String>) -> (len: usize)
    ensures
        len == ordered_keys(*keys).len(),
{
    keys.len()
}

/// `indexmap::IndexSet::get_index_of`: the position of `name`, which is then
/// the only one that holds it, or `None` when the set does not hold it.
#[verifier::external_body]
pub(crate) fn keys_index_of(keys: &indexmap::IndexSet<String>, name: &str) -> (index: Option<usize>)
    ensures
        match index {
            Some(i) => sole_position(ordered_keys(*keys), name@, i as int),
            None => !ordered_keys(*keys).contains(name@),
        },
{
    keys.get_index_of(name)
}

/// `indexmap::IndexSet::get_index`: the name at a position below the length,
/// `None` at any other position.
#[verifier::external_body]
pub(crate) fn keys_at(keys: &indexmap::IndexSet<String>, index: usize) -> (name: Option<&String>)
    ensures
        match name {
            Some(n) => index < ordered_keys(*keys).len() && n@ == ordered_keys(*keys)[index as int],
            None => index >= ordered_keys(*keys).len(),
        },
{
    keys.get_index(index)
}

/// `indexmap::IndexSet::insert_full`: a name the set does not hold is added
/// last and reported with its position and `true`; a name it holds leaves the
/// set as it was and is reported with its sole position and `false`.
#[verifier::external_body]
pub(crate) fn keys_insert(keys: &mut indexmap::IndexSet<String>, name: String) -> (placed: (usize, bool))
    ensures
        placed.1 <==> !ordered_keys(*old(keys)).contains(name@),
        placed.1 ==> ordered_keys(*final(keys)) == ordered_keys(*old(keys)).push(name@)
            && placed.0 == ordered_keys(*old(keys)).len(),
        !placed.1 ==> ordered_keys(*final(keys)) == ordered_keys(*old(keys))
            && sole_position(ordered_keys(*old(keys)), name@, placed.0 as int),
{
    keys.insert_full(name)
}

/// `indexmap::IndexSet::shift_remove_full`: a name the set holds is taken out,
/// the names behind it move up by one, and its position is reported; a name
/// it does not hold leaves the set as it was.
#[verifier::external_body]
pub(crate) fn keys_remove(keys: &mut indexmap::IndexSet<String>, name: &str) -> (removed: Option<usize>)
    ensures
        match removed {
            Some(i) => sole_position(ordered_keys(*old(keys)), name@, i as int)
                && ordered_keys(*final(keys)) == ordered_keys(*old(keys)).remove(i as int),
            None => !ordered_keys(*old(keys)).contains(name@)
                && ordered_keys(*final(keys)) == ordered_keys(*old(keys)),
        },
{
    keys.shift_remove_full(name).map(|(index, _)| index)
}

/// `Clone::clone` of `indexmap::IndexSet`: the copy holds the same names in
/// the same order.
#[verifier::external_body]
pub(crate) fn keys_clone(keys: &indexmap::IndexSet<String>) -> (copy: indexmap::IndexSet<String>)
    ensures
        ordered_keys(copy) == ordered_keys(*keys),
{
    keys.clone()
}

} // verus!
