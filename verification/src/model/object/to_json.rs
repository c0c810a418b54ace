use vstd::prelude::*;
use crate::collections::names::{find_pair, has_name, names_of};
use crate::model::model::Model;
use crate::model::object::copy::{copy_object, same_record};
use crate::model::object::machine::{
    denied, ends_well, fails_with, no_model, no_record, permission_denied, unexpected,
    unexpected_reply, Frame, Input, Returned, Step,
};
use crate::model::object::object::Object;
use crate::model::object::set_teon::calls;
use crate::namespace::namespace::Namespace;
use crate::path::error::Error;
use crate::path::key_path::{ItemView, KeyPath};
use crate::pipeline::ctx::Place;
use crate::value::value::{
    entries_insert, lemma_first_index, values_view, Dictionary, Value, ValueView,
};

verus! {

/// How far an output has come.
#[derive(Debug, Copy, Clone, PartialEq, Eq, Structural)]
pub enum JsonStage {
    /// Nothing was done yet.
    Begin,
    /// The model's read permission runs.
    Permission,
    /// The next output key is due.
    Keys,
    /// The output of the one record of the current relation runs.
    RelationOne,
    /// The next record of the current relation is due.
    RelationMany,
    /// The output of a record of the current relation runs.
    RelationItem,
    /// The read permission of the current field runs.
    FieldPermission,
    /// The on-output pipeline of the current field runs.
    Output,
    /// The getter of the current property runs.
    Getter,
}

/// An output under way: the output keys before `index` are done, and
/// `output` holds what they gave.
#[derive(Debug)]
pub struct ToJson {
    pub object: usize,
    pub path: KeyPath,
    pub index: usize,
    pub stage: JsonStage,
    pub output: Dictionary,
    pub items: Vec<Value>,
    pub child: usize,
}

/// Whether the selection of `record` lets `key` through: no selection
/// restricts the output, or the key is selected.
pub open spec fn is_chosen(record: &Object, key: Seq<char>) -> bool {
    !record.is_selected || names_of(record.selected_fields).contains(key)
}

/// Whether the output of `record` may hold `key`: the selection lets the
/// key through, and a relation was fetched.
pub open spec fn may_appear(model: &Model, record: &Object, key: Seq<char>) -> bool {
    is_chosen(record, key) && (model.spec_relation(key) is Some ==> record.fetched(key) is Some)
}

/// Whether every key of `output` may appear in the output of `record`.
pub open spec fn covered(output: Seq<(Seq<char>, ValueView)>, model: &Model, record: &Object) -> bool {
    forall|i: int| 0 <= i < output.len() ==> may_appear(model, record, (#[trigger] output[i]).0)
}

/// Storing a value under a key that may appear keeps the output covered.
pub proof fn lemma_covered_insert(output: Seq<(Seq<char>, ValueView)>, model: &Model, record: &Object, key: Seq<char>, value: ValueView)
    requires
        covered(output, model, record),
        may_appear(model, record, key),
    ensures
        covered(entries_insert(output, key, value), model, record),
{
    lemma_first_index(output, key);
    let after = entries_insert(output, key, value);
    assert forall|i: int| 0 <= i < after.len() implies may_appear(
        model,
        record,
        (#[trigger] after[i]).0,
    ) by {
        if i < output.len() && i != crate::value::value::first_index(output, key) {
            assert(after[i] == output[i]);
        }
    }
}

/// Whether the output of `record` may hold `key`.
pub fn key_may_appear(model: &Model, record: &Object, key: &str) -> (may: bool)
    ensures
        may == may_appear(model, record, key@),
{
    let chosen = !record.is_selected || has_name(&record.selected_fields, key);
    if model.relation(key).is_some() {
        chosen && find_pair(&record.relation_query_map, key).is_some()
    } else {
        chosen
    }
}

impl ToJson {
    /// An output of the record numbered `object` that has not started yet.
    pub fn new(object: usize, path: KeyPath) -> (frame: ToJson)
        ensures
            frame.object == object,
            frame.path == path,
            frame.index == 0,
            frame.stage == JsonStage::Begin,
            frame.output@.len() == 0,
            frame.items@.len() == 0,
            frame.child == 0,
    {
        ToJson {
            object,
            path,
            index: 0,
            stage: JsonStage::Begin,
            output: Dictionary::new(),
            items: Vec::new(),
            child: 0,
        }
    }

    /// Whether the frame knows its record, the record's model and its
    /// current key.
    pub open spec fn ready(&self, namespace: &Namespace, records: Seq<Object>) -> bool {
        &&& self.object < records.len()
        &&& namespace.spec_model(names_of(records[self.object as int].model_path)) is Some
        &&& self.index < self.model(namespace, records).cache.output_keys.len()
    }

    /// The model of the frame's record.
    pub open spec fn model(&self, namespace: &Namespace, records: Seq<Object>) -> Model {
        namespace.spec_model(names_of(records[self.object as int].model_path))->0
    }

    /// The current output key.
    pub open spec fn key(&self, namespace: &Namespace, records: Seq<Object>) -> String {
        self.model(namespace, records).cache.output_keys[self.index as int]
    }

    /// Whether the output so far holds only keys that may appear.
    pub open spec fn is_covered(&self, namespace: &Namespace, records: Seq<Object>) -> bool {
        covered(self.output@, &self.model(namespace, records), &records[self.object as int])
    }

    /// The frame at the next key.
    pub open spec fn advanced(self) -> ToJson {
        ToJson { index: (self.index + 1) as usize, stage: JsonStage::Keys, ..self }
    }

    /// Whether `next` is the frame at the next key, with `value` stored
    /// under the current key unless it is null or the key may not appear.
    pub open spec fn gave(self, next: ToJson, namespace: &Namespace, records: Seq<Object>, value: ValueView) -> bool {
        &&& next.output@ == if value is Null || !may_appear(
            &self.model(namespace, records),
            &records[self.object as int],
            self.key(namespace, records)@,
        ) {
            self.output@
        } else {
            entries_insert(self.output@, self.key(namespace, records)@, value)
        }
        &&& next.index == self.index + 1
        &&& next.stage == JsonStage::Keys
        &&& next.object == self.object
        &&& next.path == self.path
    }

    /// Whether `step`, and the records after it, are what [`ToJson::begin`]
    /// makes of the output as it stands.
    pub open spec fn begin_step(self, namespace: &Namespace, records: &Vec<Object>, step: Step) -> bool {
        &&& keeps_covered(self, step, namespace, records@)
        &&& !ends_well(step)
        &&& self.object >= records.len() ==> step is Return
        &&& (self.object < records.len() ==> (step matches Step::Call(
            Frame::ToJson(next),
            callee,
        ) && next == (ToJson { stage: JsonStage::Permission, ..self }) && calls(
            callee,
            names_of(records[self.object as int].model_path),
            Place::ModelCanRead,
            ValueView::Null,
            self.object,
            self.path@,
            records[self.object as int].action,
        )))
    }

    /// Starts the output: the model's read permission runs first.
    pub fn begin(self, namespace: &Namespace, records: &Vec<Object>) -> (step: Step)
        ensures
            self.begin_step(namespace, records, step),
    {
        if self.object >= records.len() {
            return Step::Return(Err(no_record()));
        }
        let record = &records[self.object];
        let run = crate::pipeline::run::start(
            &record.model_path,
            Place::ModelCanRead,
            Value::Null,
            Some(self.object),
            self.path.clone(),
            record.action,
        );
        Step::Call(
            Frame::ToJson(ToJson { stage: JsonStage::Permission, ..self }),
            Frame::Pipeline(run),
        )
    }

    /// Whether `step`, and the records after it, are what
    /// [`ToJson::after_permission`] makes of the output as it stands.
    pub open spec fn after_permission_step(self, result: Result<Returned, Error>, step: Step) -> bool {
        &&& !ends_well(step)
        &&& match result {
            Err(cause) => fails_with(step, denied(cause@, self.path@)),
            Ok(_) => step == Step::Again(
                Frame::ToJson(ToJson { stage: JsonStage::Keys, ..self }),
            ),
        }
    }

    /// Takes in the result of the model's read permission: a failure denies
    /// the output at its path, a success lets it go on with the keys.
    pub fn after_permission(self, result: Result<Returned, Error>) -> (step: Step)
        ensures
            self.after_permission_step(result, step),
    {
        match result {
            Err(cause) => Step::Return(Err(permission_denied(&cause, &self.path))),
            Ok(_) => Step::Again(Frame::ToJson(ToJson { stage: JsonStage::Keys, ..self })),
        }
    }

    /// Stores `value` under the current key unless it is null, and goes on
    /// with the next key.
    pub fn give(self, namespace: &Namespace, records: &Vec<Object>, value: Value) -> (step: Step)
        requires
            self.index < usize::MAX,
        ensures
            !ends_well(step),
            !self.ready(namespace, records@) ==> step is Return,
            self.ready(namespace, records@) ==> (step matches Step::Again(Frame::ToJson(next))
                && self.gave(next, namespace, records@, value@)),
            keeps_covered(self, step, namespace, records@),
    {
        if self.object >= records.len() {
            return Step::Return(Err(no_record()));
        }
        let model = match namespace.model_at_path(&records[self.object].model_path) {
            Some(model) => model,
            None => {
                return Step::Return(Err(no_model()));
            },
        };
        if self.index >= model.cache.output_keys.len() {
            return Step::Return(Err(unexpected()));
        }
        let mut output = self.output;
        if !value.is_null() && key_may_appear(
            model,
            &records[self.object],
            model.cache.output_keys[self.index].as_str(),
        ) {
            proof {
                if covered(output@, model, &records[self.object as int]) {
                    lemma_covered_insert(
                        output@,
                        model,
                        &records[self.object as int],
                        model.cache.output_keys[self.index as int]@,
                        value@,
                    );
                }
            }
            output.insert(model.cache.output_keys[self.index].clone(), value);
        }
        Step::Again(
            Frame::ToJson(
                ToJson { index: self.index + 1, stage: JsonStage::Keys, output, ..self },
            ),
        )
    }
}

/// Whether the records of `before` are all still there, unchanged, at the
/// start of `after`.
pub open spec fn grown(before: Seq<Object>, after: Seq<Object>) -> bool {
    &&& before.len() <= after.len()
    &&& forall|j: int| 0 <= j < before.len() ==> #[trigger] after[j] == before[j]
}

/// Whether the records of `before` that are still there are unchanged but
/// for their tracking: no record changes its number.
pub open spec fn grown_or_same(before: Seq<Object>, after: Seq<Object>) -> bool {
    before.len() <= after.len()
}

/// Whether `step` keeps the output of `frame` to the keys that may appear:
/// a frame that goes on holds a covered output where `frame` did, and an
/// output that ends hands back what `frame` holds.
pub open spec fn keeps_covered(frame: ToJson, step: Step, namespace: &Namespace, records: Seq<Object>) -> bool {
    match step {
        Step::Emit(Frame::ToJson(next), _) => next.object == frame.object && (frame.is_covered(
            namespace,
            records,
        ) ==> next.is_covered(namespace, records)),
        Step::Call(Frame::ToJson(next), _) => next.object == frame.object && (frame.is_covered(
            namespace,
            records,
        ) ==> next.is_covered(namespace, records)),
        Step::Again(Frame::ToJson(next)) => next.object == frame.object && (frame.is_covered(
            namespace,
            records,
        ) ==> next.is_covered(namespace, records)),
        Step::Return(Ok(Returned::Value(value))) => value@ == ValueView::Dictionary(frame.output@),
        Step::Return(Ok(_)) => false,
        Step::Return(Err(_)) => true,
        _ => false,
    }
}

impl ToJson {
    /// Whether `step`, and the records after it, are what [`ToJson::next_key`]
    /// makes of the output as it stands.
    pub open spec fn next_key_step(self, namespace: &Namespace, earlier: Vec<Object>, later: Vec<Object>, step: Step) -> bool {
        &&& grown(earlier@, later@)
        &&& later.len() <= earlier.len() + 1
        &&& keeps_covered(self, step, namespace, earlier@)
        &&& ends_well(step) ==> self.object < earlier.len() && later@ == earlier@
        &&& self.ready(namespace, earlier@) && !may_appear(
            &self.model(namespace, earlier@),
            &earlier[self.object as int],
            self.key(namespace, earlier@)@,
        ) ==> step == Step::Again(Frame::ToJson(self.advanced())) && later@ == earlier@
        &&& !(self.object < earlier.len() && namespace.spec_model(
            names_of(earlier[self.object as int].model_path),
        ) is Some) ==> step is Return && !ends_well(step)
        &&& (self.object < earlier.len() && namespace.spec_model(
            names_of(earlier[self.object as int].model_path),
        ) is Some ==> if self.ready(namespace, earlier@) {
            self.handles_key(namespace, earlier@, later@, step)
        } else {
            (step matches Step::Return(Ok(Returned::Value(value))) && value@
                == ValueView::Dictionary(self.output@)) && later@ == earlier@
        })
    }

    /// Whether `step`, and the records after it, are what the output makes of
    /// its current key.
    ///
    /// A key that the selection does not let through is skipped. A
    /// relation is put out where it was fetched: a to-many relation
    /// through the list of the outputs of its records, a to-one relation
    /// through the output of a copy of its record, which becomes a record
    /// of the operation. A field is put out after its read permission, a
    /// property from its cached value or else from its getter. Every other
    /// key is skipped.
    pub open spec fn handles_key(self, namespace: &Namespace, earlier: Seq<Object>, later: Seq<Object>, step: Step) -> bool {
        let model = self.model(namespace, earlier);
        let record = earlier[self.object as int];
        let key = self.key(namespace, earlier);
        let skips = step == Step::Again(Frame::ToJson(self.advanced())) && later == earlier;
        if !is_chosen(&record, key@) {
            skips
        } else if let Some(relation) = model.spec_relation(key@) {
            match record.fetched(key@) {
                None => skips,
                Some(children) => if relation.is_vec {
                    later == earlier && (step matches Step::Again(Frame::ToJson(next))
                        && next.items@.len() == 0 && next == (ToJson {
                        stage: JsonStage::RelationMany,
                        items: next.items,
                        child: 0,
                        ..self
                    }))
                } else if children.len() > 0 {
                    later.len() == earlier.len() + 1 && same_record(
                        children[0],
                        later[earlier.len() as int],
                    ) && (step matches Step::Call(Frame::ToJson(next), Frame::ToJson(callee))
                        && next == (ToJson { stage: JsonStage::RelationOne, ..self })
                        && callee.starts(
                        earlier.len() as usize,
                        self.path@.push(ItemView::Key(key@)),
                    ))
                } else {
                    skips
                },
            }
        } else if model.spec_field(key@) is Some {
            later == earlier && (step matches Step::Call(Frame::ToJson(next), callee) && next
                == (ToJson { stage: JsonStage::FieldPermission, ..self }) && calls(
                callee,
                names_of(record.model_path),
                Place::FieldCanRead(key),
                ValueView::Null,
                self.object,
                self.path@,
                record.action,
            ))
        } else if let Some(property) = model.spec_property(key@) {
            later == earlier && match (
                property.cached,
                crate::value::value::lookup(record.cached_property_map@, key@),
            ) {
                (true, Some(value)) => step matches Step::Again(Frame::ToJson(next)) && self.gave(
                    next,
                    namespace,
                    earlier,
                    value,
                ),
                _ => if property.getter is Some {
                    step matches Step::Call(Frame::ToJson(next), callee) && next == (ToJson {
                        stage: JsonStage::Getter,
                        ..self
                    }) && calls(
                        callee,
                        names_of(record.model_path),
                        Place::PropertyGetter(key),
                        ValueView::Null,
                        self.object,
                        self.path@.push(ItemView::Key(key@)),
                        record.action,
                    )
                } else {
                    step == Step::Again(Frame::ToJson(self.advanced()))
                },
            }
        } else {
            skips
        }
    }

    /// Whether the output is one of the record numbered `object`, at
    /// `path`, that has not started yet.
    pub open spec fn starts(self, object: usize, path: Seq<ItemView>) -> bool {
        &&& self.object == object
        &&& self.path@ == path
        &&& self.index == 0
        &&& self.stage == JsonStage::Begin
        &&& self.output@.len() == 0
        &&& self.items@.len() == 0
        &&& self.child == 0
    }

    /// Handles the current output key, or ends the output where every key
    /// is done.
    ///
    /// A relation is put out where it was fetched: the output of its one
    /// record, or the list of the outputs of its records. A field or a
    /// property is put out where nothing is selected or the key is: a field
    /// after its read permission and its on-output pipeline, a property
    /// from its cached value or from its getter. Every other key is
    /// skipped.
    pub fn next_key(self, namespace: &Namespace, records: &mut Vec<Object>) -> (step: Step)
        requires
            self.index < usize::MAX,
        ensures
            self.next_key_step(namespace, *old(records), *final(records), step),
    {
        if self.object >= records.len() {
            return Step::Return(Err(no_record()));
        }
        let model = match namespace.model_at_path(&records[self.object].model_path) {
            Some(model) => model,
            None => {
                return Step::Return(Err(no_model()));
            },
        };
        if self.index >= model.cache.output_keys.len() {
            return Step::Return(Ok(Returned::Value(Value::Dictionary(self.output))));
        }
        let key = &model.cache.output_keys[self.index];
        let selected = !records[self.object].is_selected || has_name(
            &records[self.object].selected_fields,
            key.as_str(),
        );
        if !selected {
            return Step::Again(
                Frame::ToJson(ToJson { index: self.index + 1, stage: JsonStage::Keys, ..self }),
            );
        }
        if let Some(relation) = model.relation(key.as_str()) {
            let position = find_pair(&records[self.object].relation_query_map, key.as_str());
            match position {
                None => Step::Again(
                    Frame::ToJson(
                        ToJson { index: self.index + 1, stage: JsonStage::Keys, ..self },
                    ),
                ),
                Some(at) => {
                    if relation.is_vec {
                        Step::Again(
                            Frame::ToJson(
                                ToJson {
                                    stage: JsonStage::RelationMany,
                                    items: Vec::new(),
                                    child: 0,
                                    ..self
                                },
                            ),
                        )
                    } else if records[self.object].relation_query_map[at].1.len() > 0 {
                        let copy = copy_object(&records[self.object].relation_query_map[at].1[0]);
                        let number = records.len();
                        records.push(copy);
                        let callee = ToJson::new(number, self.path.with_key(key.as_str()));
                        Step::Call(
                            Frame::ToJson(ToJson { stage: JsonStage::RelationOne, ..self }),
                            Frame::ToJson(callee),
                        )
                    } else {
                        Step::Again(
                            Frame::ToJson(
                                ToJson { index: self.index + 1, stage: JsonStage::Keys, ..self },
                            ),
                        )
                    }
                },
            }
        } else {
            let record = &records[self.object];
            if model.field(key.as_str()).is_some() {
                let run = crate::pipeline::run::start(
                    &record.model_path,
                    Place::FieldCanRead(key.clone()),
                    Value::Null,
                    Some(self.object),
                    self.path.clone(),
                    record.action,
                );
                Step::Call(
                    Frame::ToJson(ToJson { stage: JsonStage::FieldPermission, ..self }),
                    Frame::Pipeline(run),
                )
            } else if let Some(property) = model.property(key.as_str()) {
                let cached = if property.cached {
                    record.cached_property_map.get(key.as_str())
                } else {
                    None
                };
                match cached {
                    Some(value) => {
                        let value = crate::value::value::copy_value(value);
                        self.give(namespace, records, value)
                    },
                    None => {
                        if property.getter.is_some() {
                            let run = crate::pipeline::run::start(
                                &record.model_path,
                                Place::PropertyGetter(key.clone()),
                                Value::Null,
                                Some(self.object),
                                self.path.with_key(key.as_str()),
                                record.action,
                            );
                            Step::Call(
                                Frame::ToJson(ToJson { stage: JsonStage::Getter, ..self }),
                                Frame::Pipeline(run),
                            )
                        } else {
                            Step::Again(
                                Frame::ToJson(
                                    ToJson {
                                        index: self.index + 1,
                                        stage: JsonStage::Keys,
                                        ..self
                                    },
                                ),
                            )
                        }
                    },
                }
            } else {
                Step::Again(
                    Frame::ToJson(
                        ToJson { index: self.index + 1, stage: JsonStage::Keys, ..self },
                    ),
                )
            }
        }
    }
}

impl ToJson {
    /// Takes the copy of a fetched record, which was made for its output,
    /// out of the records again.
    fn drop_copy(records: &mut Vec<Object>)
        ensures
            old(records).len() > 0 ==> final(records)@ == old(records)@.drop_last(),
            old(records).len() == 0 ==> final(records)@ == old(records)@,
    {
        let _ = records.pop();
    }

    /// Whether `step`, and the records after it, are what
    /// [`ToJson::after_relation_one`] makes of the output as it stands.
    pub open spec fn after_relation_one_step(self, namespace: &Namespace, earlier: Vec<Object>, later: Vec<Object>, result: Result<Returned, Error>, step: Step) -> bool {
        &&& keeps_covered(self, step, namespace, later@)
        &&& !ends_well(step)
        &&& earlier.len() > 0 ==> later@ == earlier@.drop_last()
        &&& (match result {
            Err(cause) => step == Step::Return(Err(cause)),
            Ok(Returned::Value(value)) => self.ready(namespace, later@) ==> (
            step matches Step::Again(Frame::ToJson(next)) && self.gave(next, namespace, later@, value@)),
            Ok(_) => fails_with(step, unexpected_reply()),
        })
    }

    /// Takes in the output of the one record of the current relation and
    /// stores it under the relation's key.
    pub fn after_relation_one(self, namespace: &Namespace, records: &mut Vec<Object>, result: Result<Returned, Error>) -> (step: Step)
        requires
            self.index < usize::MAX,
        ensures
            self.after_relation_one_step(namespace, *old(records), *final(records), result, step),
    {
        Self::drop_copy(records);
        match result {
            Err(cause) => Step::Return(Err(cause)),
            Ok(Returned::Value(value)) => self.give(namespace, records, value),
            Ok(_) => Step::Return(Err(unexpected())),
        }
    }

    /// Whether `step`, and the records after it, are what
    /// [`ToJson::relation_many`] makes of the output as it stands.
    pub open spec fn relation_many_step(self, namespace: &Namespace, earlier: Vec<Object>, later: Vec<Object>, step: Step) -> bool {
        &&& keeps_covered(self, step, namespace, earlier@)
        &&& !ends_well(step)
        &&& grown(earlier@, later@)
        &&& later.len() <= earlier.len() + 1
        &&& (self.ready(namespace, earlier@) ==> match earlier[self.object as int].fetched(
            self.key(namespace, earlier@)@,
        ) {
            Some(children) => if self.child < children.len() {
                &&& later.len() == earlier.len() + 1
                &&& same_record(children[self.child as int], later[earlier.len() as int])
                &&& step matches Step::Call(Frame::ToJson(next), Frame::ToJson(callee))
                    && next == (ToJson { stage: JsonStage::RelationItem, ..self })
                    && callee.object == earlier.len() && callee.path@
                    == self.path@.push(
                    ItemView::Key(self.key(namespace, earlier@)@),
                ).push(ItemView::Index(self.child)) && callee.index == 0 && callee.stage
                    == JsonStage::Begin && callee.output@.len() == 0
            } else {
                &&& later@ == earlier@
                &&& step matches Step::Again(Frame::ToJson(next)) && next.index == self.index
                    + 1 && next.stage == JsonStage::Keys && next.object == self.object
                    && next.output@ == if may_appear(
                    &self.model(namespace, earlier@),
                    &earlier[self.object as int],
                    self.key(namespace, earlier@)@,
                ) {
                    entries_insert(
                        self.output@,
                        self.key(namespace, earlier@)@,
                        ValueView::Array(values_view(self.items)),
                    )
                } else {
                    self.output@
                }
            },
            None => step is Return && later@ == earlier@,
        })
    }

    /// Starts the output of the next fetched record of the current
    /// relation, or stores the list of the outputs under the relation's key
    /// where every record is done.
    pub fn relation_many(self, namespace: &Namespace, records: &mut Vec<Object>) -> (step: Step)
        requires
            self.index < usize::MAX,
        ensures
            self.relation_many_step(namespace, *old(records), *final(records), step),
    {
        if self.object >= records.len() {
            return Step::Return(Err(no_record()));
        }
        let model = match namespace.model_at_path(&records[self.object].model_path) {
            Some(model) => model,
            None => {
                return Step::Return(Err(no_model()));
            },
        };
        if self.index >= model.cache.output_keys.len() {
            return Step::Return(Err(unexpected()));
        }
        let key = &model.cache.output_keys[self.index];
        let at = match find_pair(&records[self.object].relation_query_map, key.as_str()) {
            Some(at) => at,
            None => {
                return Step::Return(Err(unexpected()));
            },
        };
        if self.child < records[self.object].relation_query_map[at].1.len() {
            let copy = copy_object(&records[self.object].relation_query_map[at].1[self.child]);
            let number = records.len();
            records.push(copy);
            let callee = ToJson::new(
                number,
                self.path.with_key(key.as_str()).with_index(self.child),
            );
            Step::Call(
                Frame::ToJson(ToJson { stage: JsonStage::RelationItem, ..self }),
                Frame::ToJson(callee),
            )
        } else {
            let may = key_may_appear(model, &records[self.object], key.as_str());
            proof {
                if may && self.is_covered(namespace, old(records)@) {
                    lemma_covered_insert(
                        self.output@,
                        &self.model(namespace, old(records)@),
                        &old(records)[self.object as int],
                        key@,
                        ValueView::Array(values_view(self.items)),
                    );
                }
            }
            let ToJson { object, path, index, stage, output, items, child } = self;
            let mut output = output;
            if may {
                output.insert(key.clone(), Value::Array(items));
            }
            Step::Again(
                Frame::ToJson(
                    ToJson {
                        object,
                        path,
                        index: index + 1,
                        stage: JsonStage::Keys,
                        output,
                        items: Vec::new(),
                        child: 0,
                    },
                ),
            )
        }
    }

    /// Whether `step`, and the records after it, are what
    /// [`ToJson::after_relation_item`] makes of the output as it stands.
    pub open spec fn after_relation_item_step(self, namespace: &Namespace, earlier: Vec<Object>, later: Vec<Object>, result: Result<Returned, Error>, step: Step) -> bool {
        &&& keeps_covered(self, step, namespace, later@)
        &&& !ends_well(step)
        &&& earlier.len() > 0 ==> later@ == earlier@.drop_last()
        &&& (match result {
            Err(cause) => step == Step::Return(Err(cause)),
            Ok(Returned::Value(value)) => if self.child < usize::MAX {
                step matches Step::Again(Frame::ToJson(next)) && next.items@
                    == self.items@.push(value) && next.child == self.child + 1 && next.stage
                    == JsonStage::RelationMany && next.output == self.output && next.index
                    == self.index && next.object == self.object && next.path == self.path
            } else {
                fails_with(step, unexpected_reply())
            },
            Ok(_) => fails_with(step, unexpected_reply()),
        })
    }

    /// Takes in the output of a fetched record of the current relation and
    /// adds it to the list.
    pub fn after_relation_item(self, namespace: &Namespace, records: &mut Vec<Object>, result: Result<Returned, Error>) -> (step: Step)
        ensures
            self.after_relation_item_step(namespace, *old(records), *final(records), result, step),
    {
        Self::drop_copy(records);
        match result {
            Err(cause) => Step::Return(Err(cause)),
            Ok(Returned::Value(value)) => {
                if self.child == usize::MAX {
                    return Step::Return(Err(unexpected()));
                }
                let mut items = self.items;
                items.push(value);
                Step::Again(
                    Frame::ToJson(
                        ToJson {
                            object: self.object,
                            path: self.path,
                            index: self.index,
                            stage: JsonStage::RelationMany,
                            output: self.output,
                            items,
                            child: self.child + 1,
                        },
                    ),
                )
            },
            Ok(_) => Step::Return(Err(unexpected())),
        }
    }

    /// Whether `step`, and the records after it, are what
    /// [`ToJson::after_field_permission`] makes of the output as it stands.
    pub open spec fn after_field_permission_step(self, namespace: &Namespace, records: &Vec<Object>, result: Result<Returned, Error>, step: Step) -> bool {
        &&& keeps_covered(self, step, namespace, records@)
        &&& !ends_well(step)
        &&& (match result {
            Err(_) => step == Step::Again(Frame::ToJson(self.advanced())),
            Ok(_) => self.ready(namespace, records@) ==> (step matches Step::Call(
                Frame::ToJson(next),
                callee,
            ) && next == (ToJson { stage: JsonStage::Output, ..self }) && calls(
                callee,
                names_of(records[self.object as int].model_path),
                Place::FieldOnOutput(self.key(namespace, records@)),
                records[self.object as int].value_or_null(self.key(namespace, records@)@),
                self.object,
                seq![ItemView::Key(self.key(namespace, records@)@)],
                records[self.object as int].action,
            )),
        })
        &&& result is Ok && !self.ready(namespace, records@) ==> step is Return
    }

    /// Takes in the result of the read permission of the current field: a
    /// field that may not be read is left out; one that may be read goes
    /// through its on-output pipeline.
    pub fn after_field_permission(self, namespace: &Namespace, records: &Vec<Object>, result: Result<Returned, Error>) -> (step: Step)
        requires
            self.index < usize::MAX,
        ensures
            self.after_field_permission_step(namespace, records, result, step),
    {
        match result {
            Err(_) => Step::Again(
                Frame::ToJson(ToJson { index: self.index + 1, stage: JsonStage::Keys, ..self }),
            ),
            Ok(_) => {
                if self.object >= records.len() {
                    return Step::Return(Err(no_record()));
                }
                let record = &records[self.object];
                let model = match namespace.model_at_path(&record.model_path) {
                    Some(model) => model,
                    None => {
                        return Step::Return(Err(no_model()));
                    },
                };
                if self.index >= model.cache.output_keys.len() {
                    return Step::Return(Err(unexpected()));
                }
                let key = &model.cache.output_keys[self.index];
                let path = KeyPath::new().with_key(key.as_str());
                assert(path@ =~= seq![ItemView::Key(key@)]);
                let run = crate::pipeline::run::start(
                    &record.model_path,
                    Place::FieldOnOutput(key.clone()),
                    record.get_value_map_value(key.as_str()),
                    Some(self.object),
                    path,
                    record.action,
                );
                Step::Call(
                    Frame::ToJson(ToJson { stage: JsonStage::Output, ..self }),
                    Frame::Pipeline(run),
                )
            },
        }
    }

    /// Whether `step`, and the records after it, are what
    /// [`ToJson::after_value`] makes of the output as it stands.
    pub open spec fn after_value_step(self, namespace: &Namespace, records: &Vec<Object>, result: Result<Returned, Error>, step: Step) -> bool {
        &&& keeps_covered(self, step, namespace, records@)
        &&& !ends_well(step)
        &&& (match result {
            Err(cause) => step == Step::Return(Err(cause)),
            Ok(Returned::Value(value)) => self.ready(namespace, records@) ==> (
            step matches Step::Again(Frame::ToJson(next)) && self.gave(next, namespace, records@, value@)),
            Ok(_) => fails_with(step, unexpected_reply()),
        })
        &&& (result matches Ok(Returned::Value(_)) && !self.ready(namespace, records@) ==> step is Return)
    }

    /// Takes in what the on-output pipeline of the current field, or the
    /// getter of the current property, produced: the value is stored under
    /// the key unless it is null.
    pub fn after_value(self, namespace: &Namespace, records: &Vec<Object>, result: Result<Returned, Error>) -> (step: Step)
        requires
            self.index < usize::MAX,
        ensures
            self.after_value_step(namespace, records, result, step),
    {
        match result {
            Err(cause) => Step::Return(Err(cause)),
            Ok(Returned::Value(value)) => self.give(namespace, records, value),
            Ok(_) => Step::Return(Err(unexpected())),
        }
    }
}

impl ToJson {
    /// Whether `step`, and the records after it, are what the output makes of
    /// `input`: each stage takes in what it waits for, and any other input ends
    /// the output with an error and leaves the records as they are.
    pub open spec fn to_json_internal_step(self, namespace: &Namespace, earlier: Vec<Object>, later: Vec<Object>, input: Input, step: Step) -> bool {
        &&& self.object < earlier.len() && self.object < later.len() ==> later[self.object as int] == earlier[self.object as int]
        &&& self.object < earlier.len() && self.object < later.len()
            ==> keeps_covered(self, step, namespace, earlier@)
        &&& ends_well(step) ==> self.stage == JsonStage::Keys
        &&& if self.index == usize::MAX {
            fails_with(step, unexpected_reply()) && later@ == earlier@
        } else {
            match (self.stage, input) {
                (JsonStage::Begin, Input::Start) => self.begin_step(
                    namespace,
                    &earlier,
                    step,
                ) && later@ == earlier@,
                (JsonStage::Permission, Input::Returned(result)) => self.after_permission_step(
                    result,
                    step,
                ) && later@ == earlier@,
                (JsonStage::Keys, Input::Start) => self.next_key_step(
                    namespace,
                    earlier,
                    later,
                    step,
                ),
                (JsonStage::RelationOne, Input::Returned(result)) => self.after_relation_one_step(
                    namespace,
                    earlier,
                    later,
                    result,
                    step,
                ),
                (JsonStage::RelationMany, Input::Start) => self.relation_many_step(
                    namespace,
                    earlier,
                    later,
                    step,
                ),
                (JsonStage::RelationItem, Input::Returned(result)) => self.after_relation_item_step(
                    namespace,
                    earlier,
                    later,
                    result,
                    step,
                ),
                (JsonStage::FieldPermission, Input::Returned(result)) => self.after_field_permission_step(
                    namespace,
                    &earlier,
                    result,
                    step,
                ) && later@ == earlier@,
                (JsonStage::Output, Input::Returned(result)) => self.after_value_step(
                    namespace,
                    &earlier,
                    result,
                    step,
                ) && later@ == earlier@,
                (JsonStage::Getter, Input::Returned(result)) => self.after_value_step(
                    namespace,
                    &earlier,
                    result,
                    step,
                ) && later@ == earlier@,
                _ => fails_with(step, unexpected_reply()) && later@ == earlier@,
            }
        }
    }

    /// Resumes the output.
    ///
    /// A stage that waits takes in what it waited for; any input that does
    /// not fit the stage ends the output with an error. The records that
    /// were there stay as they are, but for the copy of a fetched record
    /// that is made for its output and dropped after it. The output holds
    /// only keys that may appear: fetched relations, and the fields and
    /// properties that the selection lets through.
    pub fn to_json_internal(self, namespace: &Namespace, records: &mut Vec<Object>, input: Input) -> (step: Step)
        ensures
            self.to_json_internal_step(namespace, *old(records), *final(records), input, step),
    {
        if self.index == usize::MAX {
            return Step::Return(Err(unexpected()));
        }
        match (self.stage, input) {
            (JsonStage::Begin, Input::Start) => self.begin(namespace, records),
            (JsonStage::Permission, Input::Returned(result)) => self.after_permission(result),
            (JsonStage::Keys, Input::Start) => self.next_key(namespace, records),
            (JsonStage::RelationOne, Input::Returned(result)) => self.after_relation_one(
                namespace,
                records,
                result,
            ),
            (JsonStage::RelationMany, Input::Start) => self.relation_many(namespace, records),
            (JsonStage::RelationItem, Input::Returned(result)) => self.after_relation_item(
                namespace,
                records,
                result,
            ),
            (JsonStage::FieldPermission, Input::Returned(result)) => self.after_field_permission(
                namespace,
                records,
                result,
            ),
            (JsonStage::Output, Input::Returned(result)) => self.after_value(
                namespace,
                records,
                result,
            ),
            (JsonStage::Getter, Input::Returned(result)) => self.after_value(
                namespace,
                records,
                result,
            ),
            _ => Step::Return(Err(unexpected())),
        }
    }
}

} // verus!
