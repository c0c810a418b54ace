use vstd::prelude::*;

verus! {

/// The position of the first occurrence of `name` in `names`, or the length of
/// `names` when it does not occur.
pub open spec fn position(names: Seq<Seq<char>>, name: Seq<char>) -> int
    decreases names.len(),
{
    if names.len() == 0 {
        0
    } else {
        let before = position(names.drop_last(), name);
        if before < names.len() - 1 {
            before
        } else if names.last() == name {
            names.len() - 1
        } else {
            names.len() as int
        }
    }
}

/// The names of a list of strings.
pub open spec fn names_of(list: Vec<String>) -> Seq<Seq<char>> {
    Seq::new(list.len() as nat, |i: int| list[i]@)
}

/// The position is in range, holds the name when it is below the length, and
/// no earlier position does.
pub proof fn lemma_position(names: Seq<Seq<char>>, name: Seq<char>)
    ensures
        0 <= position(names, name) <= names.len(),
        position(names, name) < names.len() ==> names[position(names, name)] == name,
        forall|j: int| 0 <= j < position(names, name) ==> #[trigger] names[j] != name,
        position(names, name) < names.len() <==> names.contains(name),
    decreases names.len(),
{
    if names.len() > 0 {
        lemma_position(names.drop_last(), name);
        let before = position(names.drop_last(), name);
        assert forall|j: int| 0 <= j < position(names, name) implies #[trigger] names[j] != name by {
            if j < names.len() - 1 {
                assert(names.drop_last()[j] == names[j]);
            }
        }
        if before < names.len() - 1 {
            assert(names.drop_last()[before] == names[before]);
        }
    }
    if names.contains(name) {
        let at = choose|i: int| 0 <= i < names.len() && names[i] == name;
        assert(position(names, name) <= at);
    }
}

/// A position that holds the name while no earlier one does is the position
/// of the name.
pub proof fn lemma_position_is(names: Seq<Seq<char>>, name: Seq<char>, index: int)
    requires
        0 <= index < names.len(),
        names[index] == name,
        forall|j: int| 0 <= j < index ==> #[trigger] names[j] != name,
    ensures
        position(names, name) == index,
{
    lemma_position(names, name);
}

/// `PartialEq::eq` of `str`: two texts are equal when they hold the same
/// characters in the same order.
#[verifier::external_body]
pub(crate) fn text_eq(left: &str, right: &str) -> (same: bool)
    ensures
        same == (left@ == right@),
{
    left == right
}

/// Whether one text comes before another in the order of strings: at the
/// first place where they differ the first text holds the character with
/// the smaller code point, or it ends there and the second goes on.
pub open spec fn text_is_less(left: Seq<char>, right: Seq<char>) -> bool
    decreases left.len(),
{
    if right.len() == 0 {
        false
    } else if left.len() == 0 {
        true
    } else if left[0] != right[0] {
        (left[0] as u32) < (right[0] as u32)
    } else {
        text_is_less(left.drop_first(), right.drop_first())
    }
}

/// `PartialOrd::lt` of `str`: whether the first text comes before the
/// second in the lexicographic order of their bytes, which is the order of
/// their characters by code point.
#[verifier::external_body]
pub(crate) fn text_less(left: &str, right: &str) -> (less: bool)
    ensures
        less == text_is_less(left@, right@),
{
    left < right
}

/// The position of `name` in a list of strings, if it occurs.
pub fn find_name(list: &Vec<String>, name: &str) -> (found: Option<usize>)
    ensures
        match found {
            Some(index) => index < list.len() && position(names_of(*list), name@) == index,
            None => position(names_of(*list), name@) == list.len(),
        },
{
    let mut i: usize = 0;
    while i < list.len()
        invariant
            i <= list.len(),
            forall|j: int| 0 <= j < i ==> #[trigger] names_of(*list)[j] != name@,
        decreases list.len() - i,
    {
        if text_eq(list[i].as_str(), name) {
            proof {
                lemma_position_is(names_of(*list), name@, i as int);
            }
            return Some(i);
        }
        i += 1;
    }
    proof {
        lemma_position(names_of(*list), name@);
    }
    None
}

/// Whether `name` occurs in a list of strings.
pub fn has_name(list: &Vec<String>, name: &str) -> (held: bool)
    ensures
        held == names_of(*list).contains(name@),
{
    proof {
        lemma_position(names_of(*list), name@);
    }
    find_name(list, name).is_some()
}

/// Whether two lists of strings hold the same names in the same order.
pub fn same_names(left: &Vec<String>, right: &Vec<String>) -> (same: bool)
    ensures
        same == (names_of(*left) == names_of(*right)),
{
    if left.len() != right.len() {
        assert(names_of(*left).len() != names_of(*right).len());
        return false;
    }
    let mut i: usize = 0;
    while i < left.len()
        invariant
            i <= left.len(),
            left.len() == right.len(),
            forall|j: int| 0 <= j < i ==> #[trigger] names_of(*left)[j] == names_of(*right)[j],
        decreases left.len() - i,
    {
        if !text_eq(left[i].as_str(), right[i].as_str()) {
            assert(names_of(*left)[i as int] != names_of(*right)[i as int]);
            return false;
        }
        i += 1;
    }
    assert(names_of(*left) =~= names_of(*right));
    true
}

/// A copy of a list of strings.
pub fn copy_names(list: &Vec<String>) -> (copy: Vec<String>)
    ensures
        names_of(copy) == names_of(*list),
{
    let mut copy: Vec<String> = Vec::new();
    let mut i: usize = 0;
    while i < list.len()
        invariant
            i <= list.len(),
            copy.len() == i,
            forall|j: int| 0 <= j < i ==> (#[trigger] copy[j])@ == list[j]@,
        decreases list.len() - i,
    {
        copy.push(list[i].clone());
        i += 1;
    }
    assert(names_of(copy) =~= names_of(*list));
    copy
}

/// The names of a list of named items.
pub open spec fn pair_names<T>(list: Vec<(String, T)>) -> Seq<Seq<char>> {
    Seq::new(list.len() as nat, |i: int| list[i].0@)
}

/// The item stored under `name` in a list of named items: the first of that
/// name.
pub open spec fn pair_named<T>(list: Vec<(String, T)>, name: Seq<char>) -> Option<T> {
    if position(pair_names(list), name) < list.len() {
        Some(list[position(pair_names(list), name)].1)
    } else {
        None
    }
}

/// The position of the first item named `name` in a list of named items.
pub fn find_pair<T>(list: &Vec<(String, T)>, name: &str) -> (found: Option<usize>)
    ensures
        match found {
            Some(index) => index < list.len() && position(pair_names(*list), name@) == index,
            None => position(pair_names(*list), name@) == list.len(),
        },
{
    let mut i: usize = 0;
    while i < list.len()
        invariant
            i <= list.len(),
            forall|j: int| 0 <= j < i ==> #[trigger] pair_names(*list)[j] != name@,
        decreases list.len() - i,
    {
        if text_eq(list[i].0.as_str(), name) {
            proof {
                lemma_position_is(pair_names(*list), name@, i as int);
            }
            return Some(i);
        }
        i += 1;
    }
    proof {
        lemma_position(pair_names(*list), name@);
    }
    None
}

/// Stores `item` under `name` in a list of named items: in place of the
/// first item of that name, or last where there is none.
pub fn put_pair<T>(list: &mut Vec<(String, T)>, name: String, item: T)
    ensures
        final(list)@ == if position(pair_names(*old(list)), name@) < old(list).len() {
            old(list)@.update(position(pair_names(*old(list)), name@), (name, item))
        } else {
            old(list)@.push((name, item))
        },
        pair_named(*final(list), name@) == Some(item),
        forall|other: Seq<char>| other != name@ ==> pair_named(*final(list), other) == pair_named(*old(list), other),
{
    let ghost before = pair_names(*list);
    let found = find_pair(list, name.as_str());
    proof {
        lemma_position(before, name@);
    }
    match found {
        Some(index) => {
            list[index] = (name, item);
            proof {
                let after = pair_names(*list);
                assert(after =~= before);
                assert forall|other: Seq<char>| other != name@ implies pair_named(*list, other)
                    == pair_named(*old(list), other) by {
                    lemma_position(before, other);
                }
            }
        },
        None => {
            list.push((name, item));
            proof {
                let after = pair_names(*list);
                assert(after =~= before.push(name@));
                lemma_position_is(after, name@, before.len() as int);
                assert forall|other: Seq<char>| other != name@ implies pair_named(*list, other)
                    == pair_named(*old(list), other) by {
                    lemma_position(before, other);
                    lemma_position(after, other);
                    if position(before, other) < before.len() {
                        lemma_position_is(after, other, position(before, other));
                    }
                }
            }
        },
    }
}

/// The names of `names` that `keep` holds of, in their order.
pub open spec fn kept(names: Seq<Seq<char>>, keep: spec_fn(Seq<char>) -> bool) -> Seq<Seq<char>>
    decreases names.len(),
{
    if names.len() == 0 {
        names
    } else if keep(names.last()) {
        kept(names.drop_last(), keep).push(names.last())
    } else {
        kept(names.drop_last(), keep)
    }
}

/// Every kept name is one of the names and one that `keep` holds of.
pub proof fn lemma_kept(names: Seq<Seq<char>>, keep: spec_fn(Seq<char>) -> bool)
    ensures
        forall|name: Seq<char>| #[trigger]
            kept(names, keep).contains(name) <==> names.contains(name) && keep(name),
    decreases names.len(),
{
    if names.len() > 0 {
        let head = names.drop_last();
        lemma_kept(head, keep);
        assert forall|name: Seq<char>| #[trigger]
            kept(names, keep).contains(name) <==> names.contains(name) && keep(name) by {
            if names.contains(name) {
                let at = choose|i: int| 0 <= i < names.len() && names[i] == name;
                if at < head.len() {
                    assert(head[at] == name);
                }
            }
            if head.contains(name) {
                let at = choose|i: int| 0 <= i < head.len() && head[i] == name;
                assert(names[at] == name);
            }
            assert(names[names.len() - 1] == names.last());
            if keep(names.last()) {
                let grown = kept(head, keep).push(names.last());
                if kept(head, keep).contains(name) {
                    let at = choose|i: int| 0 <= i < kept(head, keep).len() && kept(head, keep)[i] == name;
                    assert(grown[at] == name);
                }
                if name == names.last() {
                    assert(grown[kept(head, keep).len() as int] == name);
                }
            }
        }
    }
}

/// The position of the first name that `holds` is true of, or the length of
/// `names` when it is true of none.
pub open spec fn first_where(names: Seq<Seq<char>>, holds: spec_fn(Seq<char>) -> bool) -> int
    decreases names.len(),
{
    if names.len() == 0 {
        0
    } else {
        let before = first_where(names.drop_last(), holds);
        if before < names.len() - 1 {
            before
        } else if holds(names.last()) {
            names.len() - 1
        } else {
            names.len() as int
        }
    }
}

/// The first position is in range, `holds` is true of the name there when it
/// is below the length, and of no earlier name.
pub proof fn lemma_first_where(names: Seq<Seq<char>>, holds: spec_fn(Seq<char>) -> bool)
    ensures
        0 <= first_where(names, holds) <= names.len(),
        first_where(names, holds) < names.len() ==> holds(names[first_where(names, holds)]),
        forall|j: int| 0 <= j < first_where(names, holds) ==> !holds(#[trigger] names[j]),
    decreases names.len(),
{
    if names.len() > 0 {
        lemma_first_where(names.drop_last(), holds);
        let before = first_where(names.drop_last(), holds);
        assert forall|j: int| 0 <= j < first_where(names, holds) implies !holds(
            #[trigger] names[j],
        ) by {
            if j < names.len() - 1 {
                assert(names.drop_last()[j] == names[j]);
            }
        }
        if before < names.len() - 1 {
            assert(names.drop_last()[before] == names[before]);
        }
    }
}

/// A position whose name `holds` is true of, while it is true of no earlier
/// name, is the first position.
pub proof fn lemma_first_where_is(names: Seq<Seq<char>>, holds: spec_fn(Seq<char>) -> bool, index: int)
    requires
        0 <= index < names.len(),
        holds(names[index]),
        forall|j: int| 0 <= j < index ==> !holds(#[trigger] names[j]),
    ensures
        first_where(names, holds) == index,
{
    lemma_first_where(names, holds);
}

/// Where `holds` is true of no name, the first position is the length.
pub proof fn lemma_first_where_none(names: Seq<Seq<char>>, holds: spec_fn(Seq<char>) -> bool)
    requires
        forall|j: int| 0 <= j < names.len() ==> !holds(#[trigger] names[j]),
    ensures
        first_where(names, holds) == names.len(),
{
    lemma_first_where(names, holds);
}

/// Takes the first item named `name` out of a list of named items.
pub fn take_pair<T>(list: &mut Vec<(String, T)>, name: &str) -> (taken: Option<T>)
    ensures
        taken == pair_named(*old(list), name@),
        match taken {
            Some(_) => final(list)@ == old(list)@.remove(position(pair_names(*old(list)), name@)),
            None => final(list)@ == old(list)@,
        },
{
    match find_pair(list, name) {
        Some(index) => {
            let (_, item) = list.remove(index);
            Some(item)
        },
        None => None,
    }
}

} // verus!
