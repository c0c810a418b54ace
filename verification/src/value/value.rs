use vstd::prelude::*;
use vstd::std_specs::cmp::PartialEqSpecImpl;
use crate::collections::names::text_eq;
use crate::collections::ordered_keys::{
    ordered_keys, keys_new, keys_index_of, keys_at, keys_insert, keys_remove, keys_clone,
};
use crate::value::decimal::{Decimal, DecimalView};

verus! {

/// A runtime value.
///
/// Floating-point numbers are carried as their IEEE 754 bit patterns; dates,
/// object ids, regular expressions and files are carried in their textual
/// form.
#[derive(Debug)]
pub enum Value {
    Null,
    Bool(bool),
    Int(i32),
    Int64(i64),
    Float32(u32),
    Float(u64),
    Decimal(Decimal),
    ObjectId(String),
    String(String),
    Date(String),
    DateTime(String),
    Array(Vec<Value>),
    Dictionary(Dictionary),
    Range(bool, Box<Value>, Box<Value>),
    Tuple(Vec<Value>),
    EnumVariant(String),
    OptionVariant(i32),
    Regex(String),
    File(String),
}

/// An ordered map from names to values; insertion order is preserved.
#[derive(Debug)]
pub struct Dictionary {
    keys: indexmap::IndexSet<String>,
    values: Vec<Value>,
}

/// The mathematical content of a [`Value`].
pub enum ValueView {
    Null,
    Bool(bool),
    Int(i32),
    Int64(i64),
    Float32(u32),
    Float(u64),
    Decimal(DecimalView),
    ObjectId(Seq<char>),
    String(Seq<char>),
    Date(Seq<char>),
    DateTime(Seq<char>),
    Array(Seq<ValueView>),
    Dictionary(Seq<(Seq<char>, ValueView)>),
    Range(bool, Box<ValueView>, Box<ValueView>),
    Tuple(Seq<ValueView>),
    EnumVariant(Seq<char>),
    OptionVariant(i32),
    Regex(Seq<char>),
    File(Seq<char>),
}

/// The content of a value, nested values included.
pub open spec fn value_view(value: Value) -> ValueView
    decreases value,
{
    match value {
        Value::Null => ValueView::Null,
        Value::Bool(b) => ValueView::Bool(b),
        Value::Int(i) => ValueView::Int(i),
        Value::Int64(i) => ValueView::Int64(i),
        Value::Float32(bits) => ValueView::Float32(bits),
        Value::Float(bits) => ValueView::Float(bits),
        Value::Decimal(d) => ValueView::Decimal(d@),
        Value::ObjectId(s) => ValueView::ObjectId(s@),
        Value::String(s) => ValueView::String(s@),
        Value::Date(s) => ValueView::Date(s@),
        Value::DateTime(s) => ValueView::DateTime(s@),
        Value::Array(items) => ValueView::Array(values_view(items)),
        Value::Dictionary(d) => ValueView::Dictionary(dictionary_view(d)),
        Value::Range(closed, start, end) => ValueView::Range(
            closed,
            Box::new(value_view(*start)),
            Box::new(value_view(*end)),
        ),
        Value::Tuple(items) => ValueView::Tuple(values_view(items)),
        Value::EnumVariant(s) => ValueView::EnumVariant(s@),
        Value::OptionVariant(bits) => ValueView::OptionVariant(bits),
        Value::Regex(s) => ValueView::Regex(s@),
        Value::File(s) => ValueView::File(s@),
    }
}

/// The contents of a list of values, in order.
pub open spec fn values_view(items: Vec<Value>) -> Seq<ValueView>
    decreases items,
{
    Seq::new(
        items.len() as nat,
        |i: int|
            if 0 <= i < items.len() {
                value_view(items[i])
            } else {
                ValueView::Null
            },
    )
}

/// The entries of a dictionary, in insertion order.
pub closed spec fn dictionary_view(d: Dictionary) -> Seq<(Seq<char>, ValueView)>
    decreases d,
{
    paired(ordered_keys(d.keys), d.values)
}

impl View for Value {
    type V = ValueView;

    open spec fn view(&self) -> ValueView {
        value_view(*self)
    }
}

impl View for Dictionary {
    type V = Seq<(Seq<char>, ValueView)>;

    open spec fn view(&self) -> Seq<(Seq<char>, ValueView)> {
        dictionary_view(*self)
    }
}

/// The position of the first entry named `key`, or the number of entries
/// when none is.
pub open spec fn first_index(entries: Seq<(Seq<char>, ValueView)>, key: Seq<char>) -> int
    decreases entries.len(),
{
    if entries.len() == 0 {
        0
    } else {
        let before = first_index(entries.drop_last(), key);
        if before < entries.len() - 1 {
            before
        } else if entries.last().0 == key {
            entries.len() - 1
        } else {
            entries.len() as int
        }
    }
}

/// What `entries` holds under `key`: the value of the first entry of that name.
pub open spec fn lookup(entries: Seq<(Seq<char>, ValueView)>, key: Seq<char>) -> Option<ValueView> {
    if first_index(entries, key) < entries.len() {
        Some(entries[first_index(entries, key)].1)
    } else {
        None
    }
}

/// The entries read as a map from names to values.
pub open spec fn entries_map(entries: Seq<(Seq<char>, ValueView)>) -> Map<Seq<char>, ValueView> {
    Map::new(
        |key: Seq<char>| lookup(entries, key) is Some,
        |key: Seq<char>| lookup(entries, key)->0,
    )
}

/// `entries` with `value` stored under `key`: in place where the name is
/// held, at the end where it is not.
pub open spec fn entries_insert(
    entries: Seq<(Seq<char>, ValueView)>,
    key: Seq<char>,
    value: ValueView,
) -> Seq<(Seq<char>, ValueView)> {
    if first_index(entries, key) < entries.len() {
        entries.update(first_index(entries, key), (key, value))
    } else {
        entries.push((key, value))
    }
}

/// `entries` without the first entry named `key`.
pub open spec fn entries_remove(entries: Seq<(Seq<char>, ValueView)>, key: Seq<char>) -> Seq<
    (Seq<char>, ValueView),
> {
    if first_index(entries, key) < entries.len() {
        entries.remove(first_index(entries, key))
    } else {
        entries
    }
}

/// The first index is in range, names the key when it is below the length,
/// and no earlier entry does.
pub proof fn lemma_first_index(entries: Seq<(Seq<char>, ValueView)>, key: Seq<char>)
    ensures
        0 <= first_index(entries, key) <= entries.len(),
        first_index(entries, key) < entries.len() ==> entries[first_index(entries, key)].0 == key,
        forall|j: int| 0 <= j < first_index(entries, key) ==> (#[trigger] entries[j]).0 != key,
    decreases entries.len(),
{
    if entries.len() > 0 {
        lemma_first_index(entries.drop_last(), key);
        let before = first_index(entries.drop_last(), key);
        assert forall|j: int| 0 <= j < first_index(entries, key) implies (#[trigger] entries[j]).0
            != key by {
            if j < entries.len() - 1 {
                assert(entries.drop_last()[j] == entries[j]);
            }
        }
        if before < entries.len() - 1 {
            assert(entries.drop_last()[before] == entries[before]);
        }
    }
}

/// An entry that names the key while no earlier one does is the first index.
pub proof fn lemma_first_index_is(entries: Seq<(Seq<char>, ValueView)>, key: Seq<char>, index: int)
    requires
        0 <= index < entries.len(),
        entries[index].0 == key,
        forall|j: int| 0 <= j < index ==> (#[trigger] entries[j]).0 != key,
    ensures
        first_index(entries, key) == index,
        lookup(entries, key) == Some(entries[index].1),
{
    lemma_first_index(entries, key);
}

/// Where no entry names the key, nothing is found.
pub proof fn lemma_first_index_absent(entries: Seq<(Seq<char>, ValueView)>, key: Seq<char>)
    requires
        forall|j: int| 0 <= j < entries.len() ==> (#[trigger] entries[j]).0 != key,
    ensures
        first_index(entries, key) == entries.len(),
        lookup(entries, key) is None,
{
    lemma_first_index(entries, key);
}

/// Entries without any entry hold no key.
pub proof fn lemma_first_index_absent_everywhere(entries: Seq<(Seq<char>, ValueView)>)
    requires
        entries.len() == 0,
    ensures
        forall|key: Seq<char>| !(#[trigger] entries_map(entries).contains_key(key)),
{
}

/// After storing `value` under `key`, that key reads `value` and every other
/// key reads what it read before.
pub proof fn lemma_insert_lookup(
    entries: Seq<(Seq<char>, ValueView)>,
    key: Seq<char>,
    value: ValueView,
    other: Seq<char>,
)
    ensures
        lookup(entries_insert(entries, key, value), other) == if other == key {
            Some(value)
        } else {
            lookup(entries, other)
        },
{
    let after = entries_insert(entries, key, value);
    let at = first_index(entries, key);
    let found = first_index(entries, other);
    lemma_first_index(entries, key);
    lemma_first_index(entries, other);
    if other == key {
        if at < entries.len() {
            lemma_first_index_is(after, key, at);
        } else {
            lemma_first_index_is(after, key, entries.len() as int);
        }
    } else if found < entries.len() {
        lemma_first_index_is(after, other, found);
    } else {
        lemma_first_index_absent(after, other);
    }
}

/// After removing the first entry named `key`, every other key reads what it
/// read before.
pub proof fn lemma_remove_lookup(
    entries: Seq<(Seq<char>, ValueView)>,
    key: Seq<char>,
    other: Seq<char>,
)
    requires
        other != key,
    ensures
        lookup(entries_remove(entries, key), other) == lookup(entries, other),
{
    let after = entries_remove(entries, key);
    let at = first_index(entries, key);
    let found = first_index(entries, other);
    lemma_first_index(entries, key);
    lemma_first_index(entries, other);
    if at < entries.len() {
        if found < entries.len() {
            let moved = if found < at { found } else { found - 1 };
            assert forall|j: int| 0 <= j < moved implies (#[trigger] after[j]).0 != other by {
                if j < at {
                    assert(after[j] == entries[j]);
                } else {
                    assert(after[j] == entries[j + 1]);
                }
            }
            lemma_first_index_is(after, other, moved);
        } else {
            assert forall|j: int| 0 <= j < after.len() implies (#[trigger] after[j]).0 != other by {
                if j < at {
                    assert(after[j] == entries[j]);
                } else {
                    assert(after[j] == entries[j + 1]);
                }
            }
            lemma_first_index_absent(after, other);
        }
    }
}

/// Storing a value changes the map read off the entries at that key alone.
pub proof fn lemma_insert_map(entries: Seq<(Seq<char>, ValueView)>, key: Seq<char>, value: ValueView)
    ensures
        entries_map(entries_insert(entries, key, value)) == entries_map(entries).insert(key, value),
{
    let after = entries_map(entries_insert(entries, key, value));
    let expected = entries_map(entries).insert(key, value);
    assert forall|k: Seq<char>| #[trigger] after.dom().contains(k) == expected.dom().contains(k) by {
        lemma_insert_lookup(entries, key, value, k);
    }
    assert forall|k: Seq<char>| #[trigger] after.dom().contains(k) implies after[k] == expected[k] by {
        lemma_insert_lookup(entries, key, value, k);
    }
    assert(after =~= expected);
}

/// Stores `value` under `key` in a pair of name set and value list of equal
/// length.
fn store_entry(keys: &mut indexmap::IndexSet<String>, values: &mut Vec<Value>, key: String, value: Value)
    requires
        ordered_keys(*old(keys)).len() == old(values).len(),
    ensures
        ordered_keys(*final(keys)).len() == final(values).len(),
        paired(ordered_keys(*final(keys)), *final(values)) == entries_insert(
            paired(ordered_keys(*old(keys)), *old(values)),
            key@,
            value@,
        ),
{
    let ghost before = paired(ordered_keys(*keys), *values);
    let ghost name = key@;
    let (index, fresh) = keys_insert(keys, key);
    if fresh {
        proof {
            lemma_first_index_absent(before, name);
        }
        values.push(value);
        assert(paired(ordered_keys(*keys), *values) =~= before.push((name, value@)));
    } else {
        proof {
            lemma_first_index_is(before, name, index as int);
        }
        values[index] = value;
        assert(paired(ordered_keys(*keys), *values) =~= before.update(
            index as int,
            (name, value@),
        ));
    }
}

/// Takes the entry named `key` out of a pair of name set and value list of
/// equal length.
fn drop_entry(keys: &mut indexmap::IndexSet<String>, values: &mut Vec<Value>, key: &str)
    requires
        ordered_keys(*old(keys)).len() == old(values).len(),
    ensures
        ordered_keys(*final(keys)).len() == final(values).len(),
        paired(ordered_keys(*final(keys)), *final(values)) == entries_remove(
            paired(ordered_keys(*old(keys)), *old(values)),
            key@,
        ),
        lookup(paired(ordered_keys(*final(keys)), *final(values)), key@) is None,
{
    let ghost before = paired(ordered_keys(*keys), *values);
    let ghost old_keys = ordered_keys(*keys);
    match keys_remove(keys, key) {
        Some(index) => {
            proof {
                lemma_first_index_is(before, key@, index as int);
            }
            let _ = values.remove(index);
            let ghost after = paired(ordered_keys(*keys), *values);
            assert(after =~= before.remove(index as int));
            assert forall|j: int| 0 <= j < after.len() implies (#[trigger] after[j]).0 != key@ by {
                if j < index {
                    assert(after[j].0 == old_keys[j]);
                } else {
                    assert(after[j].0 == old_keys[j + 1]);
                }
            }
            proof {
                lemma_first_index_absent(after, key@);
            }
        },
        None => {
            proof {
                lemma_first_index_absent(before, key@);
            }
        },
    }
}

/// The entries that a name sequence and a value list of equal length stand for.
pub open spec fn paired(keys: Seq<Seq<char>>, values: Vec<Value>) -> Seq<(Seq<char>, ValueView)>
    decreases values,
{
    Seq::new(
        if keys.len() <= values.len() {
            keys.len()
        } else {
            values.len() as nat
        },
        |i: int|
            (
                keys[i],
                if 0 <= i < values.len() {
                    value_view(values[i])
                } else {
                    ValueView::Null
                },
            ),
    )
}

impl Dictionary {
    #[verifier::type_invariant]
    spec fn balanced(&self) -> bool {
        ordered_keys(self.keys).len() == self.values.len()
    }

    /// The dictionary read as a map from names to values.
    pub open spec fn map(&self) -> Map<Seq<char>, ValueView> {
        entries_map(self@)
    }

    /// A dictionary without entries.
    pub fn new() -> (d: Dictionary)
        ensures
            d@ == Seq::<(Seq<char>, ValueView)>::empty(),
    {
        let d = Dictionary { keys: keys_new(), values: Vec::new() };
        assert(d@ =~= Seq::<(Seq<char>, ValueView)>::empty());
        d
    }

    /// The number of entries.
    pub fn len(&self) -> (n: usize)
        ensures
            n == self@.len(),
    {
        proof {
            use_type_invariant(self);
        }
        self.values.len()
    }

    /// The entry at a position, in insertion order.
    pub fn entry_at(&self, index: usize) -> (entry: Option<(&String, &Value)>)
        ensures
            match entry {
                Some((key, value)) => index < self@.len() && key@ == self@[index as int].0
                    && value@ == self@[index as int].1 && decreases_to!(*self => *value),
                None => index >= self@.len(),
            },
    {
        proof {
            use_type_invariant(self);
        }
        match keys_at(&self.keys, index) {
            Some(key) => Some((key, &self.values[index])),
            None => None,
        }
    }

    /// The value stored under `key`.
    pub fn get(&self, key: &str) -> (found: Option<&Value>)
        ensures
            match found {
                Some(value) => lookup(self@, key@) == Some(value@) && decreases_to!(*self => *value),
                None => lookup(self@, key@) is None,
            },
    {
        proof {
            use_type_invariant(self);
        }
        match keys_index_of(&self.keys, key) {
            Some(index) => {
                proof {
                    lemma_first_index_is(self@, key@, index as int);
                }
                Some(&self.values[index])
            },
            None => {
                proof {
                    lemma_first_index_absent(self@, key@);
                }
                None
            },
        }
    }

    /// Whether an entry is stored under `key`.
    pub fn contains_key(&self, key: &str) -> (held: bool)
        ensures
            held == (lookup(self@, key@) is Some),
    {
        self.get(key).is_some()
    }

    /// Stores `value` under `key`: in place where the name is held, last
    /// where it is not.
    pub fn insert(&mut self, key: String, value: Value)
        ensures
            final(self)@ == entries_insert(old(self)@, key@, value@),
            final(self).map() == old(self).map().insert(key@, value@),
    {
        proof {
            lemma_insert_map(self@, key@, value@);
        }
        let mut taken = Dictionary::new();
        core::mem::swap(self, &mut taken);
        let mut updated = taken.with_entry(key, value);
        core::mem::swap(self, &mut updated);
    }

    /// The dictionary with `value` stored under `key`.
    pub fn with_entry(self, key: String, value: Value) -> (d: Dictionary)
        ensures
            d@ == entries_insert(self@, key@, value@),
    {
        proof {
            use_type_invariant(&self);
        }
        let Dictionary { mut keys, mut values } = self;
        store_entry(&mut keys, &mut values, key, value);
        Dictionary { keys, values }
    }

    /// The dictionary without the entry stored under `key`.
    pub fn without_entry(self, key: &str) -> (d: Dictionary)
        ensures
            d@ == entries_remove(self@, key@),
            lookup(d@, key@) is None,
    {
        proof {
            use_type_invariant(&self);
        }
        let Dictionary { mut keys, mut values } = self;
        drop_entry(&mut keys, &mut values, key);
        Dictionary { keys, values }
    }

    /// Removes the entry stored under `key`, if there is one.
    pub fn remove(&mut self, key: &str)
        ensures
            final(self)@ == entries_remove(old(self)@, key@),
            lookup(final(self)@, key@) is None,
            forall|other: Seq<char>| other != key@ ==> lookup(final(self)@, other) == lookup(old(self)@, other),
            final(self).map() == old(self).map().remove(key@),
    {
        proof {
            assert forall|other: Seq<char>| other != key@ implies lookup(
                entries_remove(self@, key@),
                other,
            ) == lookup(self@, other) by {
                lemma_remove_lookup(self@, key@, other);
            }
        }
        let mut taken = Dictionary::new();
        core::mem::swap(self, &mut taken);
        let mut updated = taken.without_entry(key);
        core::mem::swap(self, &mut updated);
        assert(self.map() =~= old(self).map().remove(key@));
    }
}

/// A deep copy of a value.
pub fn copy_value(value: &Value) -> (copy: Value)
    ensures
        copy@ == value@,
    decreases value,
{
    match value {
        Value::Null => Value::Null,
        Value::Bool(b) => Value::Bool(*b),
        Value::Int(i) => Value::Int(*i),
        Value::Int64(i) => Value::Int64(*i),
        Value::Float32(bits) => Value::Float32(*bits),
        Value::Float(bits) => Value::Float(*bits),
        Value::Decimal(d) => Value::Decimal(d.clone()),
        Value::ObjectId(s) => Value::ObjectId(s.clone()),
        Value::String(s) => Value::String(s.clone()),
        Value::Date(s) => Value::Date(s.clone()),
        Value::DateTime(s) => Value::DateTime(s.clone()),
        Value::Array(items) => Value::Array(copy_values(items)),
        Value::Dictionary(d) => {
            proof {
                use_type_invariant(d);
            }
            let copy = Dictionary { keys: keys_clone(&d.keys), values: copy_values(&d.values) };
            assert(copy@ =~= d@);
            Value::Dictionary(copy)
        },
        Value::Range(closed, start, end) => Value::Range(
            *closed,
            Box::new(copy_value(start)),
            Box::new(copy_value(end)),
        ),
        Value::Tuple(items) => Value::Tuple(copy_values(items)),
        Value::EnumVariant(s) => Value::EnumVariant(s.clone()),
        Value::OptionVariant(bits) => Value::OptionVariant(*bits),
        Value::Regex(s) => Value::Regex(s.clone()),
        Value::File(s) => Value::File(s.clone()),
    }
}

/// A deep copy of a list of values.
pub fn copy_values(items: &Vec<Value>) -> (copy: Vec<Value>)
    ensures
        copy.len() == items.len(),
        values_view(copy) == values_view(*items),
        forall|i: int| 0 <= i < items.len() ==> (#[trigger] copy[i])@ == items[i]@,
    decreases items,
{
    let mut copy: Vec<Value> = Vec::new();
    let mut i: usize = 0;
    while i < items.len()
        invariant
            i <= items.len(),
            copy.len() == i,
            forall|j: int| 0 <= j < i ==> (#[trigger] copy[j])@ == items[j]@,
        decreases items.len() - i,
    {
        copy.push(copy_value(&items[i]));
        i += 1;
    }
    assert(values_view(copy) =~= values_view(*items));
    copy
}

/// Whether two decimals are written the same: with the same digits and
/// the same scale.
pub fn same_decimal(left: &Decimal, right: &Decimal) -> (same: bool)
    ensures
        same == (left@ == right@),
{
    if left.scale != right.scale || left.unscaled.len() != right.unscaled.len() {
        assert(left@.unscaled.len() == left.unscaled.len());
        return false;
    }
    let mut i: usize = 0;
    while i < left.unscaled.len()
        invariant
            i <= left.unscaled.len(),
            left.unscaled.len() == right.unscaled.len(),
            forall|j: int| 0 <= j < i ==> left.unscaled[j] == right.unscaled[j],
        decreases left.unscaled.len() - i,
    {
        if left.unscaled[i] != right.unscaled[i] {
            assert(left@.unscaled[i as int] != right@.unscaled[i as int]);
            return false;
        }
        i += 1;
    }
    assert(left@.unscaled =~= right@.unscaled);
    true
}

/// Whether two values are the same: of one kind and with the same content,
/// the entries of dictionaries in the same order.
pub fn same_value(left: &Value, right: &Value) -> (same: bool)
    ensures
        same == (left@ == right@),
    decreases left,
{
    match (left, right) {
        (Value::Null, Value::Null) => true,
        (Value::Bool(a), Value::Bool(b)) => *a == *b,
        (Value::Int(a), Value::Int(b)) => *a == *b,
        (Value::Int64(a), Value::Int64(b)) => *a == *b,
        (Value::Float32(a), Value::Float32(b)) => *a == *b,
        (Value::Float(a), Value::Float(b)) => *a == *b,
        (Value::Decimal(a), Value::Decimal(b)) => same_decimal(a, b),
        (Value::ObjectId(a), Value::ObjectId(b)) => text_eq(a.as_str(), b.as_str()),
        (Value::String(a), Value::String(b)) => text_eq(a.as_str(), b.as_str()),
        (Value::Date(a), Value::Date(b)) => text_eq(a.as_str(), b.as_str()),
        (Value::DateTime(a), Value::DateTime(b)) => text_eq(a.as_str(), b.as_str()),
        (Value::Array(a), Value::Array(b)) => same_values(a, b),
        (Value::Dictionary(a), Value::Dictionary(b)) => same_entries(a, b),
        (Value::Range(closed, start, end), Value::Range(other, from, to)) => *closed == *other
            && same_value(start, from) && same_value(end, to),
        (Value::Tuple(a), Value::Tuple(b)) => same_values(a, b),
        (Value::EnumVariant(a), Value::EnumVariant(b)) => text_eq(a.as_str(), b.as_str()),
        (Value::OptionVariant(a), Value::OptionVariant(b)) => *a == *b,
        (Value::Regex(a), Value::Regex(b)) => text_eq(a.as_str(), b.as_str()),
        (Value::File(a), Value::File(b)) => text_eq(a.as_str(), b.as_str()),
        _ => false,
    }
}

/// Whether two lists hold the same values in the same order.
pub fn same_values(left: &Vec<Value>, right: &Vec<Value>) -> (same: bool)
    ensures
        same == (values_view(*left) == values_view(*right)),
    decreases left,
{
    if left.len() != right.len() {
        assert(values_view(*left).len() != values_view(*right).len());
        return false;
    }
    let mut i: usize = 0;
    while i < left.len()
        invariant
            i <= left.len(),
            left.len() == right.len(),
            forall|j: int| 0 <= j < i ==> (#[trigger] left[j])@ == right[j]@,
        decreases left.len() - i,
    {
        if !same_value(&left[i], &right[i]) {
            assert(values_view(*left)[i as int] != values_view(*right)[i as int]);
            return false;
        }
        i += 1;
    }
    assert(values_view(*left) =~= values_view(*right));
    true
}

/// Whether two dictionaries hold the same entries in the same order.
pub fn same_entries(left: &Dictionary, right: &Dictionary) -> (same: bool)
    ensures
        same == (left@ == right@),
    decreases left,
{
    if left.len() != right.len() {
        return false;
    }
    let mut i: usize = 0;
    while i < left.len()
        invariant
            i <= left@.len(),
            left@.len() == right@.len(),
            forall|j: int| 0 <= j < i ==> left@[j] == right@[j],
        decreases left@.len() - i,
    {
        match (left.entry_at(i), right.entry_at(i)) {
            (Some((key, value)), Some((name, other))) => {
                if !text_eq(key.as_str(), name.as_str()) || !same_value(value, other) {
                    assert(left@[i as int] != right@[i as int]);
                    return false;
                }
            },
            _ => {
                return false;
            },
        }
        i += 1;
    }
    assert(left@ =~= right@);
    true
}

impl PartialEq for Value {
    fn eq(&self, other: &Self) -> (same: bool) {
        same_value(self, other)
    }
}

impl PartialEqSpecImpl for Value {
    open spec fn obeys_eq_spec() -> bool {
        true
    }

    open spec fn eq_spec(&self, other: &Self) -> bool {
        self@ == other@
    }
}

impl PartialEq for Dictionary {
    fn eq(&self, other: &Self) -> (same: bool) {
        same_entries(self, other)
    }
}

impl PartialEqSpecImpl for Dictionary {
    open spec fn obeys_eq_spec() -> bool {
        true
    }

    open spec fn eq_spec(&self, other: &Self) -> bool {
        self@ == other@
    }
}

impl Clone for Value {
    fn clone(&self) -> (copy: Self)
        ensures
            copy@ == self@,
    {
        copy_value(self)
    }
}

impl Clone for Dictionary {
    fn clone(&self) -> (copy: Self)
        ensures
            copy@ == self@,
    {
        proof {
            use_type_invariant(self);
        }
        let copy = Dictionary { keys: keys_clone(&self.keys), values: copy_values(&self.values) };
        assert(copy@ =~= self@);
        copy
    }
}

impl Value {
    pub fn is_null(&self) -> (is: bool)
        ensures
            is == (self@ is Null),
    {
        match self {
            Value::Null => true,
            _ => false,
        }
    }

    pub fn as_bool(&self) -> (b: Option<bool>)
        ensures
            b == match self@ {
                ValueView::Bool(v) => Some(v),
                _ => None,
            },
    {
        match self {
            Value::Bool(v) => Some(*v),
            _ => None,
        }
    }

    pub fn as_str(&self) -> (text: Option<&str>)
        ensures
            match text {
                Some(t) => self@ == ValueView::String(t@),
                None => !(self@ is String),
            },
    {
        match self {
            Value::String(v) => Some(v.as_str()),
            _ => None,
        }
    }

    pub fn is_string(&self) -> (is: bool)
        ensures
            is == (self@ is String),
    {
        match self {
            Value::String(_) => true,
            _ => false,
        }
    }

    pub fn as_array(&self) -> (items: Option<&Vec<Value>>)
        ensures
            match items {
                Some(a) => self@ == ValueView::Array(values_view(*a)) && *self == Value::Array(*a),
                None => !(self@ is Array),
            },
    {
        match self {
            Value::Array(v) => Some(v),
            _ => None,
        }
    }

    pub fn as_dictionary(&self) -> (entries: Option<&Dictionary>)
        ensures
            match entries {
                Some(d) => self@ == ValueView::Dictionary(d@) && *self == Value::Dictionary(*d),
                None => !(self@ is Dictionary),
            },
    {
        match self {
            Value::Dictionary(v) => Some(v),
            _ => None,
        }
    }

    /// Whether the value is an integer of either width.
    pub fn is_any_int(&self) -> (is: bool)
        ensures
            is == (self@ is Int || self@ is Int64),
    {
        match self {
            Value::Int(_) => true,
            Value::Int64(_) => true,
            _ => false,
        }
    }

    /// Whether the value is a floating-point number of either width.
    pub fn is_any_float(&self) -> (is: bool)
        ensures
            is == (self@ is Float32 || self@ is Float),
    {
        match self {
            Value::Float32(_) => true,
            Value::Float(_) => true,
            _ => false,
        }
    }

    pub fn is_decimal(&self) -> (is: bool)
        ensures
            is == (self@ is Decimal),
    {
        match self {
            Value::Decimal(_) => true,
            _ => false,
        }
    }

    /// The value as a 64-bit integer, where it is an integer.
    pub fn to_int64(&self) -> (i: Option<i64>)
        ensures
            i == spec_to_int64(self@),
    {
        match self {
            Value::Int(v) => Some(*v as i64),
            Value::Int64(v) => Some(*v),
            _ => None,
        }
    }

    /// The value as a 32-bit integer, where it is an integer that fits.
    pub fn to_int(&self) -> (i: Option<i32>)
        ensures
            i == spec_to_int(self@),
    {
        match self {
            Value::Int(v) => Some(*v),
            Value::Int64(v) => if -0x8000_0000 <= *v && *v <= 0x7fff_ffff {
                Some(*v as i32)
            } else {
                None
            },
            _ => None,
        }
    }
}

/// An integer value widened to 64 bits.
pub open spec fn spec_to_int64(value: ValueView) -> Option<i64> {
    match value {
        ValueView::Int(v) => Some(v as i64),
        ValueView::Int64(v) => Some(v),
        _ => None,
    }
}

/// An integer value as 32 bits, where it fits.
pub open spec fn spec_to_int(value: ValueView) -> Option<i32> {
    match value {
        ValueView::Int(v) => Some(v),
        ValueView::Int64(v) => if -0x8000_0000 <= v <= 0x7fff_ffff {
            Some(v as i32)
        } else {
            None
        },
        _ => None,
    }
}

/// The entries made by storing, one after the other, each value under the
/// key at the same position.
pub open spec fn entries_from(keys: Seq<Seq<char>>, values: Seq<ValueView>) -> Seq<
    (Seq<char>, ValueView),
>
    decreases keys.len(),
{
    if keys.len() == 0 || values.len() == 0 {
        Seq::empty()
    } else {
        entries_insert(
            entries_from(keys.drop_last(), values.drop_last()),
            keys.last(),
            values.last(),
        )
    }
}

/// The shorter of two lengths.
pub open spec fn shorter(left: usize, right: usize) -> int {
    if left <= right {
        left as int
    } else {
        right as int
    }
}

impl Dictionary {
    /// The dictionary made by storing, one after the other, each value under
    /// the key at the same position. Keys and values beyond the length of
    /// the shorter list are left out.
    pub fn from_lists(keys: &Vec<String>, values: &Vec<Value>) -> (d: Dictionary)
        ensures
            d@ == entries_from(
                crate::collections::names::names_of(*keys).take(shorter(keys.len(), values.len())),
                values_view(*values).take(shorter(keys.len(), values.len())),
            ),
            keys.len() == values.len() ==> d@ == entries_from(
                crate::collections::names::names_of(*keys),
                values_view(*values),
            ),
    {
        let ghost names = crate::collections::names::names_of(*keys);
        let ghost views = values_view(*values);
        let mut d = Dictionary::new();
        let mut i: usize = 0;
        assert(names.take(0) =~= Seq::<Seq<char>>::empty());
        while i < keys.len() && i < values.len()
            invariant
                i <= keys.len(),
                i <= values.len(),
                names == crate::collections::names::names_of(*keys),
                views == values_view(*values),
                d@ == entries_from(names.take(i as int), views.take(i as int)),
            decreases keys.len() - i,
        {
            assert(names.take(i + 1).drop_last() =~= names.take(i as int));
            assert(views.take(i + 1).drop_last() =~= views.take(i as int));
            assert(names.take(i + 1).last() == keys[i as int]@);
            assert(views.take(i + 1).last() == values[i as int]@);
            d.insert(keys[i].clone(), copy_value(&values[i]));
            i += 1;
        }
        proof {
            if keys.len() == values.len() {
                assert(names.take(i as int) =~= names);
                assert(views.take(i as int) =~= views);
            }
        }
        d
    }
}

} // verus!
