use vstd::prelude::*;
use crate::collections::names::names_of;

verus! {

/// What happens to the records on the other side when a record is deleted.
#[derive(Debug, Copy, Clone, PartialEq, Eq, Structural)]
pub enum Delete {
    Default,
    Deny,
    Nullify,
    Cascade,
}

/// A relation from one model to another.
///
/// `fields` are the local fields and `references` the fields of the other
/// model that they are matched with, pair by pair. A relation with a join
/// table names the join model in `through` and the join model's relations
/// back to either side in `local` and `foreign`.
#[derive(Debug)]
pub struct Relation {
    pub name: String,
    pub model_path: Vec<String>,
    pub is_vec: bool,
    pub is_required: bool,
    pub fields: Vec<String>,
    pub references: Vec<String>,
    pub through: Option<Vec<String>>,
    pub local: Option<String>,
    pub foreign: Option<String>,
    pub delete: Delete,
    pub has_foreign_key: bool,
}

impl Relation {
    /// The number of pairs of a local field and a referenced field.
    pub open spec fn spec_pair_count(&self) -> nat {
        if self.fields.len() <= self.references.len() {
            self.fields.len() as nat
        } else {
            self.references.len() as nat
        }
    }

    /// Whether the relation goes through a join table.
    pub open spec fn spec_has_join_table(&self) -> bool {
        self.through is Some
    }

    pub fn has_join_table(&self) -> (through: bool)
        ensures
            through == self.spec_has_join_table(),
    {
        self.through.is_some()
    }

    pub fn has_foreign_key(&self) -> (held: bool)
        ensures
            held == self.has_foreign_key,
    {
        self.has_foreign_key
    }

    pub fn is_required(&self) -> (required: bool)
        ensures
            required == self.is_required,
    {
        self.is_required
    }

    pub fn delete_rule(&self) -> (rule: Delete)
        ensures
            rule == self.delete,
    {
        self.delete
    }

    /// The number of pairs of a local field and a referenced field.
    pub fn pair_count(&self) -> (n: usize)
        ensures
            n == self.spec_pair_count(),
    {
        if self.fields.len() <= self.references.len() {
            self.fields.len()
        } else {
            self.references.len()
        }
    }

    /// A relation named `name` to the model at `model_path`: to one record,
    /// not required, without fields, join table or delete rule.
    pub fn new(name: &str, model_path: Vec<String>) -> (relation: Relation)
        ensures
            relation.name@ == name@,
            names_of(relation.model_path) == names_of(model_path),
            !relation.is_vec && !relation.is_required && !relation.has_foreign_key,
            relation.fields@.len() == 0 && relation.references@.len() == 0,
            relation.through is None && relation.local is None && relation.foreign is None,
            relation.delete == Delete::Default,
    {
        Relation {
            name: name.to_owned(),
            model_path,
            is_vec: false,
            is_required: false,
            fields: Vec::new(),
            references: Vec::new(),
            through: None,
            local: None,
            foreign: None,
            delete: Delete::Default,
            has_foreign_key: false,
        }
    }
}

} // verus!
