use vstd::prelude::*;
use crate::collections::names::{has_name, kept, names_of};
use crate::model::model::Model;
use crate::model::object::object::Object;
use crate::path::error::{Error, ErrorKind, ErrorView};
use crate::value::value::{Dictionary, Value, ValueView};

verus! {

/// The names that the first `below` entries of a selection map to `flag`.
pub open spec fn chosen_below(select: Seq<(Seq<char>, ValueView)>, flag: bool, below: int) -> Set<
    Seq<char>,
> {
    Set::new(
        |name: Seq<char>|
            exists|i: int|
                0 <= i < below && i < select.len() && #[trigger] select[i] == (
                    name,
                    ValueView::Bool(flag),
                ),
    )
}

/// The names that a selection maps to `flag`.
pub open spec fn chosen(select: Seq<(Seq<char>, ValueView)>, flag: bool) -> Set<Seq<char>> {
    chosen_below(select, flag, select.len() as int)
}

/// Whether every entry of a selection maps its name to a boolean.
pub open spec fn all_flags(select: Seq<(Seq<char>, ValueView)>) -> bool {
    forall|i: int| 0 <= i < select.len() ==> (#[trigger] select[i]).1 is Bool
}

/// Whether a selection lets the key `name` through: where it maps any name
/// to true, only the names it maps to true pass; else every name passes
/// that it does not map to false.
pub open spec fn passes(select: Seq<(Seq<char>, ValueView)>, name: Seq<char>) -> bool {
    if chosen(select, true) != Set::<Seq<char>>::empty() {
        chosen(select, true).contains(name)
    } else {
        !chosen(select, false).contains(name)
    }
}

/// The keys of `model` that a selection lets through, in schema order:
/// fields, relations and properties alike.
pub open spec fn selection(model: &Model, select: Seq<(Seq<char>, ValueView)>) -> Seq<Seq<char>> {
    kept(names_of(model.cache.all_keys), |name: Seq<char>| passes(select, name))
}

/// Whether a value is a selection: a map from names to booleans.
pub open spec fn valid_selection(value: ValueView) -> bool {
    match value {
        ValueView::Dictionary(entries) => all_flags(entries),
        _ => false,
    }
}

/// The error for a selection that is no map from names to booleans.
pub open spec fn select_type_error() -> ErrorView {
    ErrorView { kind: ErrorKind::TypeError, message: "select: expect map of booleans"@, path: None }
}

/// The names that a selection maps to true and the names it maps to false,
/// or `None` where an entry is no boolean.
fn flagged(select: &Dictionary) -> (lists: Option<(Vec<String>, Vec<String>)>)
    ensures
        match lists {
            Some((trues, falses)) => all_flags(select@) && (forall|name: Seq<char>|
                names_of(trues).contains(name) <==> #[trigger] chosen(select@, true).contains(name))
                && (forall|name: Seq<char>|
                names_of(falses).contains(name) <==> #[trigger] chosen(select@, false).contains(
                    name,
                )),
            None => !all_flags(select@),
        },
{
    let mut trues: Vec<String> = Vec::new();
    let mut falses: Vec<String> = Vec::new();
    let mut i: usize = 0;
    while i < select.len()
        invariant
            i <= select@.len(),
            forall|j: int| 0 <= j < i ==> (#[trigger] select@[j]).1 is Bool,
            forall|name: Seq<char>|
                names_of(trues).contains(name) <==> #[trigger] chosen_below(
                    select@,
                    true,
                    i as int,
                ).contains(name),
            forall|name: Seq<char>|
                names_of(falses).contains(name) <==> #[trigger] chosen_below(
                    select@,
                    false,
                    i as int,
                ).contains(name),
        decreases select@.len() - i,
    {
        match select.entry_at(i) {
            Some((key, value)) => {
                match value.as_bool() {
                    Some(flag) => {
                        let ghost old_trues = names_of(trues);
                        let ghost old_falses = names_of(falses);
                        assert(select@[i as int] == (key@, ValueView::Bool(flag)));
                        if flag {
                            trues.push(key.clone());
                            assert(names_of(trues) =~= old_trues.push(key@));
                        } else {
                            falses.push(key.clone());
                            assert(names_of(falses) =~= old_falses.push(key@));
                        }
                        proof {
                            assert forall|name: Seq<char>|
                                names_of(trues).contains(name) <==> #[trigger] chosen_below(
                                    select@,
                                    true,
                                    i + 1,
                                ).contains(name) by {
                                lemma_grown(old_trues, names_of(trues), key@, flag, name);
                                lemma_chosen_step(select@, true, i as int, name);
                            }
                            assert forall|name: Seq<char>|
                                names_of(falses).contains(name) <==> #[trigger] chosen_below(
                                    select@,
                                    false,
                                    i + 1,
                                ).contains(name) by {
                                lemma_grown(old_falses, names_of(falses), key@, !flag, name);
                                lemma_chosen_step(select@, false, i as int, name);
                            }
                        }
                    },
                    None => {
                        return None;
                    },
                }
            },
            None => {
                return None;
            },
        }
        i += 1;
    }
    Some((trues, falses))
}

/// What a list of names holds after a name may have been added to it.
proof fn lemma_grown(before: Seq<Seq<char>>, after: Seq<Seq<char>>, added: Seq<char>, grew: bool, name: Seq<char>)
    requires
        after == if grew {
            before.push(added)
        } else {
            before
        },
    ensures
        after.contains(name) <==> before.contains(name) || (grew && name == added),
{
    if grew {
        if before.contains(name) {
            let at = choose|i: int| 0 <= i < before.len() && before[i] == name;
            assert(after[at] == name);
        }
        if name == added {
            assert(after[before.len() as int] == name);
        }
    }
}

/// The names chosen below a position and below the next one.
proof fn lemma_chosen_step(select: Seq<(Seq<char>, ValueView)>, flag: bool, below: int, name: Seq<char>)
    requires
        0 <= below < select.len(),
    ensures
        chosen_below(select, flag, below + 1).contains(name) <==> chosen_below(
            select,
            flag,
            below,
        ).contains(name) || select[below] == (name, ValueView::Bool(flag)),
{
    if chosen_below(select, flag, below + 1).contains(name) {
        let at = choose|i: int|
            0 <= i < below + 1 && i < select.len() && #[trigger] select[i] == (
                name,
                ValueView::Bool(flag),
            );
        if at < below {
            assert(chosen_below(select, flag, below).contains(name));
        }
    }
    if chosen_below(select, flag, below).contains(name) {
        let at = choose|i: int|
            0 <= i < below && i < select.len() && #[trigger] select[i] == (
                name,
                ValueView::Bool(flag),
            );
        assert(select[at] == (name, ValueView::Bool(flag)));
    }
    if select[below] == (name, ValueView::Bool(flag)) {
        assert(chosen_below(select, flag, below + 1).contains(name));
    }
}

impl Object {
    /// Sets the keys that output is restricted to.
    ///
    /// Without a selection, or with one that has no entry, nothing changes.
    /// A selection that maps any name to true selects the keys of the model
    /// that it maps to true, and no key where it maps none of them to true;
    /// one that maps names to false only selects every key but those. A
    /// selection that is no map from names to booleans is refused.
    pub fn set_select(&mut self, model: &Model, select: Option<&Value>) -> (result: Result<(), Error>)
        ensures
            match result {
                Ok(()) => match select {
                    None => *final(self) == *old(self),
                    Some(value) => match value@ {
                        ValueView::Dictionary(entries) => all_flags(entries) && if entries.len()
                            == 0 {
                            *final(self) == *old(self)
                        } else {
                            names_of(final(self).selected_fields) == selection(model, entries)
                                && *final(self) == (Object {
                                is_selected: true,
                                selected_fields: final(self).selected_fields,
                                ..*old(self)
                            })
                        },
                        _ => false,
                    },
                },
                Err(error) => error@ == select_type_error() && *final(self) == *old(self) && (
                match select {
                    Some(value) => !valid_selection(value@),
                    None => false,
                }),
            },
    {
        let value = match select {
            Some(value) => value,
            None => {
                return Ok(());
            },
        };
        let entries = match value.as_dictionary() {
            Some(entries) => entries,
            None => {
                return Err(Error::new(ErrorKind::TypeError, "select: expect map of booleans"));
            },
        };
        let (trues, falses) = match flagged(entries) {
            Some(lists) => lists,
            None => {
                return Err(Error::new(ErrorKind::TypeError, "select: expect map of booleans"));
            },
        };
        if entries.len() == 0 {
            return Ok(());
        }
        let only_trues = trues.len() > 0;
        proof {
            if only_trues {
                assert(names_of(trues)[0] == trues[0]@);
                assert(names_of(trues).contains(trues[0]@));
                assert(chosen(entries@, true).contains(trues[0]@));
            } else {
                assert forall|name: Seq<char>| !chosen(entries@, true).contains(name) by {
                    if names_of(trues).contains(name) {
                    }
                }
                assert(chosen(entries@, true) =~= Set::<Seq<char>>::empty());
            }
        }
        let ghost keep = |name: Seq<char>| passes(entries@, name);
        let ghost all = names_of(model.cache.all_keys);
        let mut result: Vec<String> = Vec::new();
        let mut i: usize = 0;
        assert(names_of(result) =~= kept(all.take(0), keep));
        while i < model.cache.all_keys.len()
            invariant
                i <= model.cache.all_keys.len(),
                all == names_of(model.cache.all_keys),
                keep == (|name: Seq<char>| passes(entries@, name)),
                only_trues == (chosen(entries@, true) != Set::<Seq<char>>::empty()),
                forall|name: Seq<char>|
                    names_of(trues).contains(name) <==> #[trigger] chosen(entries@, true).contains(
                        name,
                    ),
                forall|name: Seq<char>|
                    names_of(falses).contains(name) <==> #[trigger] chosen(entries@, false).contains(
                        name,
                    ),
                names_of(result) == kept(all.take(i as int), keep),
            decreases model.cache.all_keys.len() - i,
        {
            let key = model.cache.all_keys[i].as_str();
            let ghost before = names_of(result);
            assert(all.take(i + 1).drop_last() =~= all.take(i as int));
            assert(all.take(i + 1).last() == key@);
            let passing = if only_trues {
                has_name(&trues, key)
            } else {
                !has_name(&falses, key)
            };
            assert(passing == passes(entries@, key@));
            assert(passing == keep(key@));
            if passing {
                result.push(model.cache.all_keys[i].clone());
                assert(names_of(result) =~= before.push(key@));
            }
            i += 1;
        }
        assert(all.take(i as int) =~= all);
        self.selected_fields = result;
        self.is_selected = true;
        Ok(())
    }
}

} // verus!
