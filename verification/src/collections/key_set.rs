use vstd::prelude::*;
use crate::collections::ordered_keys::{keys_clone, keys_index_of, keys_insert, keys_len, keys_new, ordered_keys};

verus! {

/// A set of names that remembers the order in which they were added.
#[derive(Debug)]
pub struct KeySet {
    pub keys: indexmap::IndexSet<String>,
}

impl View for KeySet {
    type V = Set<Seq<char>>;

    open spec fn view(&self) -> Set<Seq<char>> {
        Set::new(|name: Seq<char>| ordered_keys(self.keys).contains(name))
    }
}

impl KeySet {
    /// The empty set.
    pub fn new() -> (set: KeySet)
        ensures
            set@ == Set::<Seq<char>>::empty(),
    {
        let set = KeySet { keys: keys_new() };
        assert(set@ =~= Set::<Seq<char>>::empty());
        set
    }

    /// Whether the set holds no name.
    pub fn is_empty(&self) -> (empty: bool)
        ensures
            empty == (self@ == Set::<Seq<char>>::empty()),
    {
        let empty = keys_len(&self.keys) == 0;
        proof {
            if empty {
                assert(self@ =~= Set::<Seq<char>>::empty());
            } else {
                assert(self@.contains(ordered_keys(self.keys)[0]));
            }
        }
        empty
    }

    /// Whether the set holds `name`.
    pub fn contains(&self, name: &str) -> (held: bool)
        ensures
            held == self@.contains(name@),
    {
        keys_index_of(&self.keys, name).is_some()
    }

    /// Adds `name` to the set.
    pub fn insert(&mut self, name: String)
        ensures
            final(self)@ == old(self)@.insert(name@),
    {
        let ghost before = ordered_keys(self.keys);
        let _ = keys_insert(&mut self.keys, name);
        proof {
            let after = ordered_keys(self.keys);
            assert forall|other: Seq<char>| after.contains(other) == (before.contains(other) || other
                == name@) by {
                if after == before {
                } else {
                    assert(after == before.push(name@));
                    if before.contains(other) {
                        let at = choose|i: int| 0 <= i < before.len() && before[i] == other;
                        assert(after[at] == other);
                    }
                    if other == name@ {
                        assert(after[before.len() as int] == other);
                    }
                }
            }
            assert(self@ =~= old(self)@.insert(name@));
        }
    }
}

impl Clone for KeySet {
    fn clone(&self) -> (copy: Self)
        ensures
            copy@ == self@,
    {
        let copy = KeySet { keys: keys_clone(&self.keys) };
        assert(copy@ =~= self@);
        copy
    }
}

} // verus!
