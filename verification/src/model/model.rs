use vstd::prelude::*;
use crate::collections::names::{lemma_position, lemma_position_is, names_of, position, text_eq};
use crate::model::field::Field;
use crate::model::property::Property;
use crate::model::relation::Relation;
use crate::pipeline::pipeline::Pipeline;

verus! {

/// The key lists of a model, each in schema order.
#[derive(Debug)]
pub struct Cache {
    /// Every field, relation and property.
    pub all_keys: Vec<String>,
    /// The keys that input may hold.
    pub input_keys: Vec<String>,
    /// The keys that output may hold.
    pub output_keys: Vec<String>,
    /// The keys that are written to the store.
    pub save_keys: Vec<String>,
    /// The keys that can be assigned directly: the saved ones and the
    /// virtual fields.
    pub save_keys_and_virtual_keys: Vec<String>,
    /// The relations that output may hold.
    pub relation_output_keys: Vec<String>,
}

/// A model of the schema.
#[derive(Debug)]
pub struct Model {
    pub path: Vec<String>,
    pub fields: Vec<Field>,
    pub relations: Vec<Relation>,
    pub properties: Vec<Property>,
    /// The fields of the primary index.
    pub primary_index: Vec<String>,
    pub can_read: Pipeline,
    pub can_mutate: Pipeline,
    pub before_save: Pipeline,
    pub after_save: Pipeline,
    pub before_delete: Pipeline,
    pub after_delete: Pipeline,
    pub is_virtual: bool,
    pub cache: Cache,
}

impl Model {
    /// The names of the fields, in schema order.
    pub open spec fn field_names(&self) -> Seq<Seq<char>> {
        Seq::new(self.fields.len() as nat, |i: int| self.fields[i].name@)
    }

    /// The names of the relations, in schema order.
    pub open spec fn relation_names(&self) -> Seq<Seq<char>> {
        Seq::new(self.relations.len() as nat, |i: int| self.relations[i].name@)
    }

    /// The names of the properties, in schema order.
    pub open spec fn property_names(&self) -> Seq<Seq<char>> {
        Seq::new(self.properties.len() as nat, |i: int| self.properties[i].name@)
    }

    /// The first field named `name`.
    pub open spec fn spec_field(&self, name: Seq<char>) -> Option<Field> {
        if position(self.field_names(), name) < self.fields.len() {
            Some(self.fields[position(self.field_names(), name)])
        } else {
            None
        }
    }

    /// The first relation named `name`.
    pub open spec fn spec_relation(&self, name: Seq<char>) -> Option<Relation> {
        if position(self.relation_names(), name) < self.relations.len() {
            Some(self.relations[position(self.relation_names(), name)])
        } else {
            None
        }
    }

    /// The first property named `name`.
    pub open spec fn spec_property(&self, name: Seq<char>) -> Option<Property> {
        if position(self.property_names(), name) < self.properties.len() {
            Some(self.properties[position(self.property_names(), name)])
        } else {
            None
        }
    }

    /// Whether `name` is a key of the model.
    pub open spec fn has_key(&self, name: Seq<char>) -> bool {
        names_of(self.cache.all_keys).contains(name)
    }

    /// Whether the property at `index` is cached and depends on the field
    /// named `field`.
    pub open spec fn depends_on(&self, index: int, field: Seq<char>) -> bool {
        &&& 0 <= index < self.properties.len()
        &&& self.properties[index].cached
        &&& names_of(self.properties[index].dependencies).contains(field)
    }

    /// The position of the field named `name`.
    pub fn field_index(&self, name: &str) -> (found: Option<usize>)
        ensures
            match found {
                Some(index) => index < self.fields.len() && position(self.field_names(), name@)
                    == index,
                None => position(self.field_names(), name@) == self.fields.len(),
            },
    {
        let mut i: usize = 0;
        while i < self.fields.len()
            invariant
                i <= self.fields.len(),
                forall|j: int| 0 <= j < i ==> #[trigger] self.field_names()[j] != name@,
            decreases self.fields.len() - i,
        {
            if text_eq(self.fields[i].name.as_str(), name) {
                proof {
                    lemma_position_is(self.field_names(), name@, i as int);
                }
                return Some(i);
            }
            i += 1;
        }
        proof {
            lemma_position(self.field_names(), name@);
        }
        None
    }

    /// The field named `name`.
    pub fn field(&self, name: &str) -> (found: Option<&Field>)
        ensures
            match found {
                Some(field) => self.spec_field(name@) == Some(*field),
                None => self.spec_field(name@) is None,
            },
    {
        match self.field_index(name) {
            Some(index) => Some(&self.fields[index]),
            None => None,
        }
    }

    /// The position of the relation named `name`.
    pub fn relation_index(&self, name: &str) -> (found: Option<usize>)
        ensures
            match found {
                Some(index) => index < self.relations.len() && position(
                    self.relation_names(),
                    name@,
                ) == index,
                None => position(self.relation_names(), name@) == self.relations.len(),
            },
    {
        let mut i: usize = 0;
        while i < self.relations.len()
            invariant
                i <= self.relations.len(),
                forall|j: int| 0 <= j < i ==> #[trigger] self.relation_names()[j] != name@,
            decreases self.relations.len() - i,
        {
            if text_eq(self.relations[i].name.as_str(), name) {
                proof {
                    lemma_position_is(self.relation_names(), name@, i as int);
                }
                return Some(i);
            }
            i += 1;
        }
        proof {
            lemma_position(self.relation_names(), name@);
        }
        None
    }

    /// The relation named `name`.
    pub fn relation(&self, name: &str) -> (found: Option<&Relation>)
        ensures
            match found {
                Some(relation) => self.spec_relation(name@) == Some(*relation),
                None => self.spec_relation(name@) is None,
            },
    {
        match self.relation_index(name) {
            Some(index) => Some(&self.relations[index]),
            None => None,
        }
    }

    /// The property named `name`.
    pub fn property(&self, name: &str) -> (found: Option<&Property>)
        ensures
            match found {
                Some(property) => self.spec_property(name@) == Some(*property),
                None => self.spec_property(name@) is None,
            },
    {
        let mut i: usize = 0;
        while i < self.properties.len()
            invariant
                i <= self.properties.len(),
                forall|j: int| 0 <= j < i ==> #[trigger] self.property_names()[j] != name@,
            decreases self.properties.len() - i,
        {
            if text_eq(self.properties[i].name.as_str(), name) {
                proof {
                    lemma_position_is(self.property_names(), name@, i as int);
                }
                return Some(&self.properties[i]);
            }
            i += 1;
        }
        proof {
            lemma_position(self.property_names(), name@);
        }
        None
    }

    /// Every key of the model, in schema order.
    pub fn all_keys(&self) -> (keys: &Vec<String>)
        ensures
            *keys == self.cache.all_keys,
    {
        &self.cache.all_keys
    }

    /// The keys that are written to the store, in schema order.
    pub fn save_keys(&self) -> (keys: &Vec<String>)
        ensures
            *keys == self.cache.save_keys,
    {
        &self.cache.save_keys
    }

    /// The keys that output may hold, in schema order.
    pub fn output_keys(&self) -> (keys: &Vec<String>)
        ensures
            *keys == self.cache.output_keys,
    {
        &self.cache.output_keys
    }

    /// The relations that output may hold, in schema order.
    pub fn relation_output_keys(&self) -> (keys: &Vec<String>)
        ensures
            *keys == self.cache.relation_output_keys,
    {
        &self.cache.relation_output_keys
    }

    /// Whether the model is kept in memory only and never stored.
    pub fn is_virtual(&self) -> (is_virtual: bool)
        ensures
            is_virtual == self.is_virtual,
    {
        self.is_virtual
    }

    /// Whether any field of the model is virtual.
    pub fn has_virtual_fields(&self) -> (any: bool)
        ensures
            any == exists|i: int| 0 <= i < self.fields.len() && (#[trigger] self.fields[i]).is_virtual,
    {
        let mut i: usize = 0;
        while i < self.fields.len()
            invariant
                i <= self.fields.len(),
                forall|j: int| 0 <= j < i ==> !(#[trigger] self.fields[j]).is_virtual,
            decreases self.fields.len() - i,
        {
            if self.fields[i].is_virtual {
                return true;
            }
            i += 1;
        }
        false
    }

    /// A model at `path` without fields, relations or properties.
    pub fn new(path: Vec<String>) -> (model: Model)
        ensures
            names_of(model.path) == names_of(path),
            model.fields@.len() == 0,
            model.relations@.len() == 0,
            model.properties@.len() == 0,
            model.primary_index@.len() == 0,
            model.cache.all_keys@.len() == 0,
            model.cache.input_keys@.len() == 0,
            model.cache.output_keys@.len() == 0,
            model.cache.save_keys@.len() == 0,
            model.cache.save_keys_and_virtual_keys@.len() == 0,
            model.cache.relation_output_keys@.len() == 0,
            !model.is_virtual,
    {
        Model {
            path,
            fields: Vec::new(),
            relations: Vec::new(),
            properties: Vec::new(),
            primary_index: Vec::new(),
            can_read: Pipeline::new(),
            can_mutate: Pipeline::new(),
            before_save: Pipeline::new(),
            after_save: Pipeline::new(),
            before_delete: Pipeline::new(),
            after_delete: Pipeline::new(),
            is_virtual: false,
            cache: Cache {
                all_keys: Vec::new(),
                input_keys: Vec::new(),
                output_keys: Vec::new(),
                save_keys: Vec::new(),
                save_keys_and_virtual_keys: Vec::new(),
                relation_output_keys: Vec::new(),
            },
        }
    }
}

} // verus!
