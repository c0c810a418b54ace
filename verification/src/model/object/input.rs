use vstd::prelude::*;
use crate::collections::names::text_eq;
use crate::value::value::{copy_value, Value, ValueView};

verus! {

/// What the input for a field asks for: a new value, or an update that the
/// store applies to the value it holds.
#[derive(Debug)]
pub enum Input {
    SetValue(Value),
    AtomicUpdater(Value),
}

/// Whether `name` is one of the operators of an atomic updater.
pub open spec fn is_updater_name(name: Seq<char>) -> bool {
    name == "increment"@ || name == "decrement"@ || name == "multiply"@ || name == "divide"@
        || name == "push"@
}

/// Whether a value is an atomic updater: a map with a single entry, named
/// after one of the operators.
pub open spec fn is_atomic_updater(value: ValueView) -> bool {
    match value {
        ValueView::Dictionary(entries) => entries.len() == 1 && is_updater_name(entries[0].0),
        _ => false,
    }
}

impl Input {
    /// Tells an atomic updater from a plain value.
    pub fn decode_field(value: &Value) -> (input: Input)
        ensures
            match input {
                Input::AtomicUpdater(updater) => is_atomic_updater(value@) && updater@ == value@,
                Input::SetValue(plain) => !is_atomic_updater(value@) && plain@ == value@,
            },
    {
        match value.as_dictionary() {
            Some(entries) => {
                if entries.len() == 1 {
                    match entries.entry_at(0) {
                        Some((key, _)) => {
                            let name = key.as_str();
                            if text_eq(name, "increment") || text_eq(name, "decrement") || text_eq(
                                name,
                                "multiply",
                            ) || text_eq(name, "divide") || text_eq(name, "push") {
                                return Input::AtomicUpdater(copy_value(value));
                            }
                        },
                        None => {},
                    }
                }
                Input::SetValue(copy_value(value))
            },
            None => Input::SetValue(copy_value(value)),
        }
    }
}

} // verus!
