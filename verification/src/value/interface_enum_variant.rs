use vstd::prelude::*;
use crate::value::value::Dictionary;

verus! {

/// A variant of an interface enum, with the arguments it was written with.
#[derive(Debug)]
pub struct InterfaceEnumVariant {
    pub value: String,
    pub args: Option<Dictionary>,
}

impl Clone for InterfaceEnumVariant {
    fn clone(&self) -> (copy: Self)
        ensures
            copy.value@ == self.value@,
            copy.args is Some == self.args is Some,
            copy.args is Some ==> copy.args->0@ == self.args->0@,
    {
        InterfaceEnumVariant {
            value: self.value.clone(),
            args: match &self.args {
                Some(args) => Some(args.clone()),
                None => None,
            },
        }
    }
}

} // verus!
