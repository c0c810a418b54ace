use vstd::prelude::*;
use crate::pipeline::pipeline::Pipeline;

verus! {

/// A derived value of a model, computed by a getter pipeline and assigned
/// through a setter pipeline.
#[derive(Debug)]
pub struct Property {
    pub name: String,
    pub cached: bool,
    pub getter: Option<Pipeline>,
    pub setter: Option<Pipeline>,
    pub dependencies: Vec<String>,
}

impl Property {
    /// A property named `name` that is not cached, has neither getter nor
    /// setter and depends on no field.
    pub fn new(name: &str) -> (property: Property)
        ensures
            property.name@ == name@,
            !property.cached,
            property.getter is None,
            property.setter is None,
            property.dependencies@.len() == 0,
    {
        Property {
            name: name.to_owned(),
            cached: false,
            getter: None,
            setter: None,
            dependencies: Vec::new(),
        }
    }
}

} // verus!
