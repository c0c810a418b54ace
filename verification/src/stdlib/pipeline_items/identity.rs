use vstd::prelude::*;
use crate::collections::names::{names_of, same_names};
use crate::pipeline::pipeline::Pipeline;
use crate::value::value::{copy_value, Value};

verus! {

/// The item that runs a pipeline on the identity that started the request.
#[derive(Debug)]
pub struct IdentityItem {
    pub pipeline: Pipeline,
}

impl IdentityItem {
    pub fn new(pipeline: Pipeline) -> (item: Self)
        ensures
            item.pipeline == pipeline,
    {
        Self { pipeline }
    }
}

/// The item that connects a record to the identity that started the request.
#[derive(Debug, Copy, Clone, PartialEq, Eq, Structural)]
pub struct ConnectIdentityItem {}

impl ConnectIdentityItem {
    pub fn new() -> (item: Self)
        ensures
            item == (ConnectIdentityItem {}),
    {
        Self {}
    }
}

/// Who started the request.
#[derive(Debug)]
pub enum Initiator {
    /// An identity: a record of a model, or null where nobody has signed
    /// in.
    Identity(Option<Value>),
    /// The program itself.
    ProgramCode,
    /// A seeding run.
    Seed,
}

/// What the identity item does with the value that it was called on.
#[derive(Debug)]
pub enum IdentityPlan {
    /// The value is handed on as it is.
    PassThrough,
    /// The pipeline of the item runs on the identity, and what it produces
    /// is handed on.
    Run(Value),
}

impl IdentityItem {
    /// What the item does for a request: its pipeline runs on the identity
    /// that started the request; a request that no identity started, or a
    /// null identity, passes the value through.
    pub fn call(&self, initiator: &Initiator) -> (plan: IdentityPlan)
        ensures
            match initiator {
                Initiator::Identity(Some(user)) => plan matches IdentityPlan::Run(value) && value@
                    == user@,
                _ => plan is PassThrough,
            },
    {
        match initiator {
            Initiator::Identity(Some(user)) => IdentityPlan::Run(copy_value(user)),
            _ => IdentityPlan::PassThrough,
        }
    }
}

impl ConnectIdentityItem {
    /// Whether the identity that started the request is a record of the
    /// model that the relation leads to, so that it can be connected
    /// through the relation. The value that the item was called on is
    /// handed on as it is either way.
    pub fn call(&self, relation_model: &Vec<String>, identity_model: Option<&Vec<String>>) -> (connects: bool)
        ensures
            connects == match identity_model {
                Some(model) => names_of(*relation_model) == names_of(*model),
                None => false,
            },
    {
        match identity_model {
            Some(model) => same_names(relation_model, model),
            None => false,
        }
    }
}

} // verus!
