use vstd::prelude::*;
use crate::collections::names::{names_of, same_names, text_eq};
use crate::collections::search::{first_match, lemma_first_match_is, lemma_first_match_none};
use crate::model::decorator::{Call, Decorator};
use crate::model::model::Model;
use crate::pipeline::item::item::{Item, ItemCall};
use crate::model::relation::Relation;

verus! {

/// What a schema declares and can use: its models, and the decorators and
/// pipeline items that were defined for it.
#[derive(Debug)]
pub struct Namespace {
    pub models: Vec<Model>,
    pub model_field_decorators: Vec<Decorator>,
    pub pipeline_items: Vec<Item>,
}

/// Whether `decorator` is the decorator named `name` that does `call`.
pub open spec fn is_decorator(decorator: Decorator, name: Seq<char>, call: Call) -> bool {
    names_of(decorator.path) == seq![name] && decorator.call == call
}

/// Whether `item` is the pipeline item named `name` that does `call`.
pub open spec fn is_item(item: Item, name: Seq<char>, call: ItemCall) -> bool {
    names_of(item.path) == seq![name] && item.call == call
}

/// Whether two optional names are both absent or hold the same name.
pub open spec fn same_optional_name(left: Option<String>, right: Option<String>) -> bool {
    match (left, right) {
        (Some(l), Some(r)) => l@ == r@,
        (None, None) => true,
        _ => false,
    }
}

/// Whether `other`, a relation of the model that `relation` leads to, is the
/// way back to the model at `home`.
///
/// Two relations through a join table are opposite when they go through the
/// same join model and each names as its local side what the other names as
/// its foreign side. Two direct relations are opposite when the local fields
/// of each are the referenced fields of the other.
pub open spec fn is_opposite(relation: Relation, home: Seq<Seq<char>>, other: Relation) -> bool {
    &&& names_of(other.model_path) == home
    &&& match (relation.through, other.through) {
        (Some(through), Some(back)) => names_of(through) == names_of(back) && same_optional_name(
            relation.local,
            other.foreign,
        ) && same_optional_name(relation.foreign, other.local),
        (None, None) => names_of(other.fields) == names_of(relation.references) && names_of(
            other.references,
        ) == names_of(relation.fields),
        _ => false,
    }
}

/// Whether two optional names are both absent or hold the same name.
fn optional_names_match(left: &Option<String>, right: &Option<String>) -> (same: bool)
    ensures
        same == same_optional_name(*left, *right),
{
    match (left, right) {
        (Some(l), Some(r)) => text_eq(l.as_str(), r.as_str()),
        (None, None) => true,
        _ => false,
    }
}

impl Namespace {
    /// A namespace without models, decorators or pipeline items.
    pub fn new() -> (namespace: Namespace)
        ensures
            namespace.models@.len() == 0,
            namespace.model_field_decorators@.len() == 0,
            namespace.pipeline_items@.len() == 0,
    {
        Namespace {
            models: Vec::new(),
            model_field_decorators: Vec::new(),
            pipeline_items: Vec::new(),
        }
    }

    /// Defines the model field decorator named `name`.
    pub fn define_model_field_decorator(&mut self, name: &str, call: Call)
        ensures
            final(self).model_field_decorators@.len() == old(self).model_field_decorators@.len()
                + 1,
            final(self).model_field_decorators@.drop_last() == old(self).model_field_decorators@,
            is_decorator(final(self).model_field_decorators@.last(), name@, call),
            final(self).models == old(self).models,
            final(self).pipeline_items == old(self).pipeline_items,
    {
        let path = vec![name.to_owned()];
        assert(names_of(path) =~= seq![name@]);
        self.model_field_decorators.push(Decorator { path, call });
        assert(self.model_field_decorators@.drop_last() =~= old(self).model_field_decorators@);
    }

    /// Defines the pipeline item named `name`.
    pub fn define_pipeline_item(&mut self, name: &str, call: ItemCall)
        ensures
            final(self).pipeline_items@.len() == old(self).pipeline_items@.len() + 1,
            final(self).pipeline_items@.drop_last() == old(self).pipeline_items@,
            is_item(final(self).pipeline_items@.last(), name@, call),
            final(self).models == old(self).models,
            final(self).model_field_decorators == old(self).model_field_decorators,
    {
        let path = vec![name.to_owned()];
        assert(names_of(path) =~= seq![name@]);
        self.pipeline_items.push(Item { path, call });
        assert(self.pipeline_items@.drop_last() =~= old(self).pipeline_items@);
    }

    /// The first model field decorator at `path`.
    pub fn model_field_decorator_at_path(&self, path: &Vec<String>) -> (found: Option<&Decorator>)
        ensures
            match found {
                Some(decorator) => names_of(decorator.path) == names_of(*path) && first_match(
                    self.model_field_decorators@,
                    |d: Decorator| names_of(d.path) == names_of(*path),
                ) < self.model_field_decorators.len() && *decorator
                    == self.model_field_decorators[first_match(
                    self.model_field_decorators@,
                    |d: Decorator| names_of(d.path) == names_of(*path),
                )],
                None => first_match(
                    self.model_field_decorators@,
                    |d: Decorator| names_of(d.path) == names_of(*path),
                ) == self.model_field_decorators.len(),
            },
    {
        let ghost at_path = |d: Decorator| names_of(d.path) == names_of(*path);
        let mut i: usize = 0;
        while i < self.model_field_decorators.len()
            invariant
                i <= self.model_field_decorators.len(),
                at_path == (|d: Decorator| names_of(d.path) == names_of(*path)),
                forall|j: int| 0 <= j < i ==> !at_path(#[trigger] self.model_field_decorators@[j]),
            decreases self.model_field_decorators.len() - i,
        {
            if same_names(&self.model_field_decorators[i].path, path) {
                proof {
                    lemma_first_match_is(self.model_field_decorators@, at_path, i as int);
                }
                return Some(&self.model_field_decorators[i]);
            }
            i += 1;
        }
        proof {
            lemma_first_match_none(self.model_field_decorators@, at_path);
        }
        None
    }

    /// The first pipeline item at `path`.
    pub fn pipeline_item_at_path(&self, path: &Vec<String>) -> (found: Option<&Item>)
        ensures
            match found {
                Some(item) => names_of(item.path) == names_of(*path) && first_match(
                    self.pipeline_items@,
                    |d: Item| names_of(d.path) == names_of(*path),
                ) < self.pipeline_items.len() && *item == self.pipeline_items[first_match(
                    self.pipeline_items@,
                    |d: Item| names_of(d.path) == names_of(*path),
                )],
                None => first_match(
                    self.pipeline_items@,
                    |d: Item| names_of(d.path) == names_of(*path),
                ) == self.pipeline_items.len(),
            },
    {
        let ghost at_path = |d: Item| names_of(d.path) == names_of(*path);
        let mut i: usize = 0;
        while i < self.pipeline_items.len()
            invariant
                i <= self.pipeline_items.len(),
                at_path == (|d: Item| names_of(d.path) == names_of(*path)),
                forall|j: int| 0 <= j < i ==> !at_path(#[trigger] self.pipeline_items@[j]),
            decreases self.pipeline_items.len() - i,
        {
            if same_names(&self.pipeline_items[i].path, path) {
                proof {
                    lemma_first_match_is(self.pipeline_items@, at_path, i as int);
                }
                return Some(&self.pipeline_items[i]);
            }
            i += 1;
        }
        proof {
            lemma_first_match_none(self.pipeline_items@, at_path);
        }
        None
    }

    /// The position of the first model at `path`, or the number of models
    /// when there is none.
    pub open spec fn spec_model_index(&self, path: Seq<Seq<char>>) -> int {
        first_match(self.models@, |model: Model| names_of(model.path) == path)
    }

    /// The first model at `path`.
    pub open spec fn spec_model(&self, path: Seq<Seq<char>>) -> Option<Model> {
        if self.spec_model_index(path) < self.models.len() {
            Some(self.models[self.spec_model_index(path)])
        } else {
            None
        }
    }

    /// The position of the first relation of `model` that is opposite to
    /// `relation`, a relation of the model at `home`.
    pub open spec fn spec_opposite_index(model: Model, relation: Relation, home: Seq<Seq<char>>) -> int {
        first_match(model.relations@, |other: Relation| is_opposite(relation, home, other))
    }

    /// The first model at `path`.
    pub fn model_at_path(&self, path: &Vec<String>) -> (found: Option<&Model>)
        ensures
            match found {
                Some(model) => self.spec_model(names_of(*path)) == Some(*model) && names_of(
                    model.path,
                ) == names_of(*path),
                None => self.spec_model(names_of(*path)) is None,
            },
    {
        let ghost at_path = |model: Model| names_of(model.path) == names_of(*path);
        let mut i: usize = 0;
        while i < self.models.len()
            invariant
                i <= self.models.len(),
                at_path == (|model: Model| names_of(model.path) == names_of(*path)),
                forall|j: int| 0 <= j < i ==> !at_path(#[trigger] self.models@[j]),
            decreases self.models.len() - i,
        {
            if same_names(&self.models[i].path, path) {
                proof {
                    lemma_first_match_is(self.models@, at_path, i as int);
                }
                return Some(&self.models[i]);
            }
            i += 1;
        }
        proof {
            lemma_first_match_none(self.models@, at_path);
        }
        None
    }

    /// The model that `relation` leads to with, on that model, the relation
    /// that leads back to the model at `home`, where there are both.
    pub open spec fn spec_opposite_relation(&self, relation: Relation, home: Seq<Seq<char>>) -> Option<
        (Model, Relation),
    > {
        match self.spec_model(names_of(relation.model_path)) {
            Some(model) => if Self::spec_opposite_index(model, relation, home)
                < model.relations.len() {
                Some((model, model.relations[Self::spec_opposite_index(model, relation, home)]))
            } else {
                None
            },
            None => None,
        }
    }

    /// The model that `relation` leads to and, on that model, the relation
    /// that leads back to the model at `home`.
    #[verifier::loop_isolation(false)]
    pub fn opposite_relation(&self, relation: &Relation, home: &Vec<String>) -> (found: (
        Option<&Model>,
        Option<&Relation>,
    ))
        ensures
            match found.0 {
                Some(model) => self.spec_model(names_of(relation.model_path)) == Some(*model)
                    && match found.1 {
                    Some(other) => Self::spec_opposite_index(*model, *relation, names_of(*home))
                        < model.relations.len() && *other == model.relations[Self::spec_opposite_index(
                        *model,
                        *relation,
                        names_of(*home),
                    )],
                    None => Self::spec_opposite_index(*model, *relation, names_of(*home))
                        == model.relations.len(),
                },
                None => self.spec_model(names_of(relation.model_path)) is None && found.1 is None,
            },
    {
        let model = match self.model_at_path(&relation.model_path) {
            Some(model) => model,
            None => {
                return (None, None);
            },
        };
        let ghost back = |other: Relation| is_opposite(*relation, names_of(*home), other);
        let mut i: usize = 0;
        while i < model.relations.len()
            invariant
                i <= model.relations.len(),
                back == (|other: Relation| is_opposite(*relation, names_of(*home), other)),
                forall|j: int| 0 <= j < i ==> !back(#[trigger] model.relations@[j]),
            decreases model.relations.len() - i,
        {
            let other = &model.relations[i];
            let matches = same_names(&other.model_path, home) && match (
                &relation.through,
                &other.through,
            ) {
                (Some(through), Some(way_back)) => same_names(through, way_back)
                    && optional_names_match(&relation.local, &other.foreign)
                    && optional_names_match(&relation.foreign, &other.local),
                (None, None) => same_names(&other.fields, &relation.references) && same_names(
                    &other.references,
                    &relation.fields,
                ),
                _ => false,
            };
            if matches {
                proof {
                    lemma_first_match_is(model.relations@, back, i as int);
                }
                return (Some(model), Some(other));
            }
            i += 1;
        }
        proof {
            lemma_first_match_none(model.relations@, back);
        }
        (Some(model), None)
    }
}

} // verus!
