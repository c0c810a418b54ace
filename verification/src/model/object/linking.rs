use vstd::prelude::*;
use crate::action::action::{Action, CREATE, DELETE, JOIN_CREATE, JOIN_DELETE, SINGLE};
use crate::collections::names::{copy_names, names_of};
use crate::model::model::Model;
use crate::model::object::arena::add_found;
use crate::model::object::delete::{where_finder, Delete, DeleteMode};
use crate::model::object::link::assign_each;
use crate::model::object::machine::{
    ends_well, fails_with, no_model, no_record, unexpected, unexpected_reply, Frame, Input, Reply,
    Request, Returned, Step,
};
use crate::model::object::object::Object;
use crate::model::object::save::Save;
use crate::model::object::set_teon::SetTeon;
use crate::model::object::to_json::grown;
use crate::model::relation::Relation;
use crate::namespace::namespace::Namespace;
use crate::path::error::{Error, ErrorKind, ErrorView};
use crate::path::key_path::KeyPath;
use crate::value::value::{values_view, Dictionary, Value, ValueView};

verus! {

/// The values that `record` holds under the first `count` of `keys`.
pub fn values_under(record: &Object, keys: &Vec<String>, count: usize) -> (values: Vec<Value>)
    requires
        count <= keys.len(),
    ensures
        values.len() == count,
        values_view(values) == Seq::new(count as nat, |i: int| record.value_or_null(keys[i]@)),
{
    let mut values: Vec<Value> = Vec::new();
    let mut i: usize = 0;
    while i < count
        invariant
            i <= count,
            count <= keys.len(),
            values.len() == i,
            forall|j: int| 0 <= j < i ==> (#[trigger] values[j])@ == record.value_or_null(keys[j]@),
        decreases count - i,
    {
        values.push(record.get_value_map_value(keys[i].as_str()));
        i += 1;
    }
    assert(values_view(values) =~= Seq::new(
        count as nat,
        |i: int| record.value_or_null(keys[i]@),
    ));
    values
}

/// Copies, for each pair of `relation`, the value that the record numbered
/// `from` holds under the referenced field to the local field of the
/// record numbered `to`, a record of `model`.
pub fn copy_link(records: &mut Vec<Object>, from: usize, to: usize, model: &Model, relation: &Relation)
    requires
        from < old(records).len(),
        to < old(records).len(),
    ensures
        crate::model::object::set_teon::others_same(old(records)@, final(records)@, to),
        final(records)[to as int].tracking() == assign_each(
            old(records)[to as int].tracking(),
            old(records)[to as int].is_new,
            model,
            names_of(relation.fields).take(relation.spec_pair_count() as int),
            Seq::new(
                relation.spec_pair_count(),
                |i: int| old(records)[from as int].value_or_null(relation.references[i]@),
            ),
        ),
        final(records)[to as int].same_besides_values(&old(records)[to as int]),
        old(records)[to as int].wf() ==> final(records)[to as int].wf(),
{
    let count = relation.pair_count();
    let values = values_under(&records[from], &relation.references, count);
    assert(values_view(values).take(count as int) =~= values_view(values));
    records[to].assign_values(model, &relation.fields, &values, count);
}

/// How far the linking of a record has come.
#[derive(Debug, Copy, Clone, PartialEq, Eq, Structural)]
pub enum LinkStage {
    /// Nothing was done yet.
    Begin,
    /// The record is saved.
    Saving,
    /// The join record is made.
    Joining,
}

/// The linking of the record numbered `child` to the record numbered
/// `parent`, through the relation at `relation` of the parent's model.
#[derive(Debug)]
pub struct Link {
    pub parent: usize,
    pub child: usize,
    pub relation: usize,
    pub path: KeyPath,
    pub stage: LinkStage,
    /// Whether the child holds the link.
    pub linked: bool,
}

/// The error for a join record that cannot be made, found or deleted.
pub open spec fn join_error(message: Seq<char>, path: Seq<crate::path::key_path::ItemView>) -> ErrorView {
    ErrorView { kind: ErrorKind::ValueError, message, path: Some(path) }
}

impl Link {
    /// A linking that has not started yet.
    pub fn new(parent: usize, child: usize, relation: usize, path: KeyPath) -> (frame: Link)
        ensures
            frame == (Link { parent, child, relation, path, stage: LinkStage::Begin, linked: false }),
    {
        Link { parent, child, relation, path, stage: LinkStage::Begin, linked: false }
    }

    /// Whether the frame knows its records, the parent's model and the
    /// relation.
    pub open spec fn ready(&self, namespace: &Namespace, records: Seq<Object>) -> bool {
        &&& self.parent < records.len()
        &&& self.child < records.len()
        &&& namespace.spec_model(names_of(records[self.parent as int].model_path)) is Some
        &&& self.relation < self.model(namespace, records).relations.len()
    }

    /// The model of the parent.
    pub open spec fn model(&self, namespace: &Namespace, records: Seq<Object>) -> Model {
        namespace.spec_model(names_of(records[self.parent as int].model_path))->0
    }

    /// Whether `step`, and the records after it, are what [`Link::begin`] makes
    /// of the linking as it stands.
    pub open spec fn begin_step(self, namespace: &Namespace, earlier: Vec<Object>, later: Vec<Object>, step: Step) -> bool {
        &&& !ends_well(step)
        &&& !(step is Emit)
        &&& !self.ready(namespace, earlier@) ==> step is Return && later@ == earlier@
        &&& (self.ready(namespace, earlier@) ==> {
            let model = self.model(namespace, earlier@);
            let relation = model.relations[self.relation as int];
            let back = namespace.spec_opposite_relation(relation, names_of(model.path));
            let copies = back matches Some((_, opposite)) && opposite.has_foreign_key
                && self.parent != self.child;
            &&& crate::model::object::set_teon::others_same(earlier@, later@, self.child)
            &&& step matches Step::Call(Frame::Link(next), Frame::Save(callee)) && next == (Link {
                stage: LinkStage::Saving,
                linked: copies,
                ..self
            }) && callee.path@ == self.path@ && callee == (Save {
                object: self.child,
                path: callee.path,
                ignore_required_relation: false,
                dirty: false,
                stage: crate::model::object::save::SaveStage::Begin,
            })
            &&& if copies {
                let (related, opposite) = back->0;
                &&& later[self.child as int].same_besides_values(&earlier[self.child as int])
                &&& later[self.child as int].tracking() == assign_each(
                    earlier[self.child as int].tracking(),
                    earlier[self.child as int].is_new,
                    &related,
                    names_of(opposite.fields).take(opposite.spec_pair_count() as int),
                    Seq::new(
                        opposite.spec_pair_count(),
                        |i: int|
                            earlier[self.parent as int].value_or_null(opposite.references[i]@),
                    ),
                )
            } else {
                later@ == earlier@
            }
        })
    }

    /// Starts the linking: where the other side holds the link, the values
    /// of the parent that the link refers to are copied to the link fields
    /// of the child. The child is then saved.
    pub fn begin(self, namespace: &Namespace, records: &mut Vec<Object>) -> (step: Step)
        ensures
            self.begin_step(namespace, *old(records), *final(records), step),
    {
        if self.parent >= records.len() || self.child >= records.len() {
            return Step::Return(Err(no_record()));
        }
        let model = match namespace.model_at_path(&records[self.parent].model_path) {
            Some(model) => model,
            None => {
                return Step::Return(Err(no_model()));
            },
        };
        if self.relation >= model.relations.len() {
            return Step::Return(Err(unexpected()));
        }
        let relation = &model.relations[self.relation];
        let mut linked = false;
        match namespace.opposite_relation(relation, &model.path) {
            (Some(related), Some(opposite)) => {
                if opposite.has_foreign_key() && self.parent != self.child {
                    copy_link(records, self.parent, self.child, related, opposite);
                    linked = true;
                }
            },
            _ => {},
        }
        let callee = Save::new(self.child, self.path.clone(), false);
        Step::Call(
            Frame::Link(Link { stage: LinkStage::Saving, linked, ..self }),
            Frame::Save(callee),
        )
    }

    /// Whether `step`, and the records after it, are what
    /// [`Link::after_saving`] makes of the linking as it stands.
    pub open spec fn after_saving_step(self, namespace: &Namespace, earlier: Vec<Object>, later: Vec<Object>, result: Result<Returned, Error>, step: Step) -> bool {
        &&& !(step is Emit)
        &&& crate::model::object::set_teon::others_same(earlier@, later@, self.parent)
        &&& (match result {
            Err(cause) => step == Step::Return(Err(cause)) && later@ == earlier@,
            Ok(_) => self.ready(namespace, earlier@) ==> {
                let relation = self.model(namespace, earlier@).relations[self.relation as int];
                if self.linked {
                    step == Step::Return(Ok(Returned::Done)) && later@ == earlier@
                } else if relation.has_foreign_key && self.parent != self.child {
                    &&& step == Step::Return(Ok(Returned::Done))
                    &&& later[self.parent as int].tracking() == assign_each(
                        earlier[self.parent as int].tracking(),
                        earlier[self.parent as int].is_new,
                        &self.model(namespace, earlier@),
                        names_of(relation.fields).take(relation.spec_pair_count() as int),
                        Seq::new(
                            relation.spec_pair_count(),
                            |i: int|
                                earlier[self.child as int].value_or_null(
                                    relation.references[i]@,
                                ),
                        ),
                    )
                    &&& later[self.parent as int].same_besides_values(
                        &earlier[self.parent as int],
                    )
                } else if relation.through is Some && !relation.has_foreign_key {
                    step matches Step::Call(Frame::Link(next), Frame::Join(callee)) && next
                        == (Link { stage: LinkStage::Joining, ..self }) && callee.path@
                        == self.path@ && callee == (Join {
                        parent: self.parent,
                        child: self.child,
                        relation: self.relation,
                        path: callee.path,
                        create: true,
                        stage: JoinStage::Begin,
                        join: 0,
                    }) && later@ == earlier@
                } else {
                    step == Step::Return(Ok(Returned::Done)) && later@ == earlier@
                }
            },
        })
    }

    /// Takes in the result of the save of the child: where the parent holds
    /// the link, the values of the child that the link refers to are copied
    /// to the link fields of the parent; where a join table holds it, the
    /// join record is made.
    pub fn after_saving(self, namespace: &Namespace, records: &mut Vec<Object>, result: Result<Returned, Error>) -> (step: Step)
        ensures
            self.after_saving_step(namespace, *old(records), *final(records), result, step),
    {
        match result {
            Err(cause) => {
                return Step::Return(Err(cause));
            },
            Ok(_) => {},
        }
        if self.parent >= records.len() || self.child >= records.len() {
            return Step::Return(Err(no_record()));
        }
        let model = match namespace.model_at_path(&records[self.parent].model_path) {
            Some(model) => model,
            None => {
                return Step::Return(Err(no_model()));
            },
        };
        if self.relation >= model.relations.len() {
            return Step::Return(Err(unexpected()));
        }
        let relation = &model.relations[self.relation];
        if self.linked {
            return Step::Return(Ok(Returned::Done));
        }
        if relation.has_foreign_key() {
            if self.parent != self.child {
                copy_link(records, self.child, self.parent, model, relation);
            }
            Step::Return(Ok(Returned::Done))
        } else if relation.has_join_table() {
            let callee = Join::new(self.parent, self.child, self.relation, self.path.clone(), true);
            Step::Call(
                Frame::Link(Link { stage: LinkStage::Joining, ..self }),
                Frame::Join(callee),
            )
        } else {
            Step::Return(Ok(Returned::Done))
        }
    }

    /// Whether `step`, and the records after it, are what the linking makes of
    /// `input`: each stage takes in what it waits for, and any other input ends
    /// the linking with an error and leaves the records as they are.
    pub open spec fn link_and_save_relation_object_step(self, namespace: &Namespace, earlier: Vec<Object>, later: Vec<Object>, input: Input, step: Step) -> bool {
        &&& later.len() == earlier.len()
        &&& !(step is Emit)
        &&& ends_well(step) ==> self.stage != LinkStage::Begin
        &&& match (self.stage, input) {
            (LinkStage::Begin, Input::Start) => self.begin_step(namespace, earlier, later, step),
            (LinkStage::Saving, Input::Returned(result)) => self.after_saving_step(
                namespace,
                earlier,
                later,
                result,
                step,
            ),
            (LinkStage::Joining, Input::Returned(result)) => step == Step::Return(result) && later@ == earlier@,
            _ => fails_with(step, unexpected_reply()) && later@ == earlier@,
        }
    }

    /// Resumes the linking.
    pub fn link_and_save_relation_object(self, namespace: &Namespace, records: &mut Vec<Object>, input: Input) -> (step: Step)
        ensures
            self.link_and_save_relation_object_step(namespace, *old(records), *final(records), input, step),
    {
        match (self.stage, input) {
            (LinkStage::Begin, Input::Start) => self.begin(namespace, records),
            (LinkStage::Saving, Input::Returned(result)) => self.after_saving(
                namespace,
                records,
                result,
            ),
            (LinkStage::Joining, Input::Returned(result)) => Step::Return(result),
            _ => Step::Return(Err(unexpected())),
        }
    }
}

/// How far the making or the deletion of a join record has come.
#[derive(Debug, Copy, Clone, PartialEq, Eq, Structural)]
pub enum JoinStage {
    /// Nothing was done yet.
    Begin,
    /// The new join record is initialized.
    Initializing,
    /// The store finds the join record.
    Finding,
    /// The join record is saved or deleted.
    Finishing,
}

/// The making, or the deletion, of the join record between the record
/// numbered `parent` and the record numbered `child`.
#[derive(Debug)]
pub struct Join {
    pub parent: usize,
    pub child: usize,
    pub relation: usize,
    pub path: KeyPath,
    /// Whether the join record is made; it is deleted otherwise.
    pub create: bool,
    pub stage: JoinStage,
    pub join: usize,
}

/// The models and relations that the join record of a relation lies
/// between.
pub struct Joint<'a> {
    /// The join model.
    pub through: &'a Model,
    /// The relation of the join model that leads to the parent.
    pub near: &'a Relation,
    /// The relation of the join model that leads to the child.
    pub far: &'a Relation,
}

/// The filter that finds the join record between `parent` and `child`:
/// each link field of the join model paired with the value that the
/// record on its side holds under the field that it refers to, those of
/// the side of the parent first.
pub open spec fn join_filter(parent: Object, child: Object, near: Relation, far: Relation) -> Seq<
    (Seq<char>, ValueView),
> {
    crate::model::object::nested::extended(
        crate::value::value::entries_from(
            names_of(near.fields).take(near.spec_pair_count() as int),
            Seq::new(near.spec_pair_count(), |i: int| parent.value_or_null(near.references[i]@)),
        ),
        Seq::new(
            far.spec_pair_count(),
            |i: int| (far.fields[i]@, child.value_or_null(far.references[i]@)),
        ),
    )
}

/// The join model of the relation at `relation` of `model`, with the
/// relation of the join model that leads to the model and the one that
/// leads to the related model: the relation names its join model and, as
/// its local side, a relation of that model; the relation that leads back
/// from the related model names the other one as its own local side.
pub open spec fn spec_joint(namespace: &Namespace, model: &Model, relation: &Relation) -> Option<
    (Model, Relation, Relation),
> {
    match (
        relation.through,
        relation.local,
        namespace.spec_model(names_of(relation.model_path)),
    ) {
        (Some(path), Some(near), Some(related)) => {
            let back = Namespace::spec_opposite_index(related, *relation, names_of(model.path));
            match namespace.spec_model(names_of(path)) {
                Some(through) => if back < related.relations.len() {
                    match related.relations[back].local {
                        Some(far) => match (
                            through.spec_relation(near@),
                            through.spec_relation(far@),
                        ) {
                            (Some(n), Some(f)) => Some((through, n, f)),
                            _ => None,
                        },
                        None => None,
                    }
                } else {
                    None
                },
                None => None,
            }
        },
        _ => None,
    }
}

/// The join model of the relation at `relation` of `model`, with its
/// relations to either side.
pub fn joint<'a>(namespace: &'a Namespace, model: &Model, relation: &Relation) -> (found: Option<Joint<'a>>)
    ensures
        match found {
            Some(joint) => spec_joint(namespace, model, relation) == Some(
                (*joint.through, *joint.near, *joint.far),
            ),
            None => spec_joint(namespace, model, relation) is None,
        },
        found matches Some(joint) ==> relation.through is Some && namespace.spec_model(
            names_of(relation.through->0),
        ) == Some(*joint.through) && relation.local is Some && joint.through.spec_relation(
            relation.local->0@,
        ) == Some(*joint.near),
{
    let through = match &relation.through {
        Some(path) => match namespace.model_at_path(path) {
            Some(through) => through,
            None => {
                return None;
            },
        },
        None => {
            return None;
        },
    };
    let opposite = match namespace.opposite_relation(relation, &model.path) {
        (_, Some(opposite)) => opposite,
        _ => {
            return None;
        },
    };
    let near = match &relation.local {
        Some(name) => match through.relation(name.as_str()) {
            Some(near) => near,
            None => {
                return None;
            },
        },
        None => {
            return None;
        },
    };
    let far = match &opposite.local {
        Some(name) => match through.relation(name.as_str()) {
            Some(far) => far,
            None => {
                return None;
            },
        },
        None => {
            return None;
        },
    };
    Some(Joint { through, near, far })
}

impl Join {
    /// The making or the deletion of a join record, not started yet.
    pub fn new(parent: usize, child: usize, relation: usize, path: KeyPath, create: bool) -> (frame: Join)
        ensures
            frame == (Join { parent, child, relation, path, create, stage: JoinStage::Begin, join: 0 }),
    {
        Join { parent, child, relation, path, create, stage: JoinStage::Begin, join: 0 }
    }

    /// Whether the frame knows its records, the parent's model and the
    /// relation.
    pub open spec fn ready(&self, namespace: &Namespace, records: Seq<Object>) -> bool {
        &&& self.parent < records.len()
        &&& self.child < records.len()
        &&& namespace.spec_model(names_of(records[self.parent as int].model_path)) is Some
        &&& self.relation < self.model(namespace, records).relations.len()
    }

    /// The model of the parent.
    pub open spec fn model(&self, namespace: &Namespace, records: Seq<Object>) -> Model {
        namespace.spec_model(names_of(records[self.parent as int].model_path))->0
    }

    /// The join model of the relation, with its relations to either side.
    pub open spec fn between(&self, namespace: &Namespace, records: Seq<Object>) -> Option<
        (Model, Relation, Relation),
    > {
        spec_joint(
            namespace,
            &self.model(namespace, records),
            &self.model(namespace, records).relations[self.relation as int],
        )
    }

    /// Whether `step` fails for want of a record, of its model or of the
    /// join model, where one of them is wanting, and `found` holds else of
    /// the join model and its relations to the parent and to the child.
    pub open spec fn with_joint(&self, namespace: &Namespace, records: Seq<Object>, step: Step, found: spec_fn(Model, Relation, Relation) -> bool) -> bool {
        if !self.ready(namespace, records) {
            fails_with(step, crate::model::object::machine::unknown_record())
        } else {
            match self.between(namespace, records) {
                Some((through, near, far)) => found(through, near, far),
                None => fails_with(step, crate::model::object::machine::unknown_model()),
            }
        }
    }

    /// The relation of the frame, with the parent's model.
    fn grounds<'a>(&self, namespace: &'a Namespace, records: &Vec<Object>) -> (found: Option<(&'a Model, &'a Relation)>)
        ensures
            match found {
                Some((model, relation)) => self.ready(namespace, records@) && *model == self.model(
                    namespace,
                    records@,
                ) && *relation == model.relations[self.relation as int],
                None => !self.ready(namespace, records@),
            },
    {
        if self.parent >= records.len() || self.child >= records.len() {
            return None;
        }
        let model = match namespace.model_at_path(&records[self.parent].model_path) {
            Some(model) => model,
            None => {
                return None;
            },
        };
        if self.relation >= model.relations.len() {
            return None;
        }
        Some((model, &model.relations[self.relation]))
    }

    /// Whether `step`, and the records after it, are what [`Join::begin`] makes
    /// of the work on the join record as it stands: a new join record is
    /// made and initialized, or the store is asked for the join record
    /// that links the two records.
    pub open spec fn begin_step(self, namespace: &Namespace, earlier: Vec<Object>, later: Vec<Object>, step: Step) -> bool {
        &&& !ends_well(step)
        &&& grown(earlier@, later@)
        &&& self.create ==> !(step is Emit)
        &&& !self.create ==> later@ == earlier@
        &&& (step matches Step::Emit(_, request) ==> request is FindUnique)
        &&& step is Return ==> later@ == earlier@
        &&& self.with_joint(
            namespace,
            earlier@,
            step,
            |through: Model, near: Relation, far: Relation|
                if self.create {
                    &&& later.len() == earlier.len() + 1
                    &&& later[earlier.len() as int].is_blank(
                        earlier[self.parent as int].request_ctx,
                        earlier[self.parent as int].transaction_ctx,
                        &through,
                        Action(JOIN_CREATE | CREATE | SINGLE),
                    )
                    &&& step matches Step::Call(Frame::Join(next), Frame::SetTeon(set)) && next
                        == (Join {
                        stage: JoinStage::Initializing,
                        join: earlier.len() as usize,
                        ..self
                    }) && set.object == earlier.len() && set.payload@.len() == 0 && set.path@
                        == self.path@ && set.bypass && set.keys@.len() == 0 && set.index == 0
                        && set.stage == crate::model::object::set_teon::SetStage::Begin
                        && set.held is None
                } else {
                    step matches Step::Emit(Frame::Join(next), request) && next == (Join {
                        stage: JoinStage::Finding,
                        ..self
                    }) && crate::model::object::script::asks_unique(
                        request,
                        names_of(through.path),
                        ValueView::Dictionary(
                            seq![
                                (
                                    "where"@,
                                    ValueView::Dictionary(
                                        join_filter(
                                            earlier[self.parent as int],
                                            earlier[self.child as int],
                                            near,
                                            far,
                                        ),
                                    ),
                                ),
                            ],
                        ),
                        Action(JOIN_DELETE | DELETE | SINGLE),
                    )
                },
        )
    }

    /// Starts the work on the join record: a new join record is made and
    /// initialized, or the store is asked for the join record that links
    /// the two records.
    pub fn begin(self, namespace: &Namespace, records: &mut Vec<Object>) -> (step: Step)
        ensures
            self.begin_step(namespace, *old(records), *final(records), step),
    {
        let (model, relation) = match self.grounds(namespace, records) {
            Some(found) => found,
            None => {
                return Step::Return(Err(no_record()));
            },
        };
        let joint = match joint(namespace, model, relation) {
            Some(joint) => joint,
            None => {
                return Step::Return(Err(no_model()));
            },
        };
        if self.create {
            let record = Object::new(
                records[self.parent].request_ctx,
                records[self.parent].transaction_ctx,
                joint.through,
                Action::from_u32(JOIN_CREATE | CREATE | SINGLE),
            );
            let number = records.len();
            records.push(record);
            let callee = SetTeon::new(number, Dictionary::new(), self.path.clone(), true);
            Step::Call(
                Frame::Join(Join { stage: JoinStage::Initializing, join: number, ..self }),
                Frame::SetTeon(callee),
            )
        } else {
            let near = values_under(&records[self.parent], &joint.near.references, joint.near.pair_count());
            let far = values_under(&records[self.child], &joint.far.references, joint.far.pair_count());
            assert(values_view(near).take(near.len() as int) =~= values_view(near));
            let mut filter = Dictionary::from_lists(&joint.near.fields, &near);
            let ghost pairs = Seq::new(
                joint.far.spec_pair_count(),
                |i: int|
                    (
                        joint.far.fields[i]@,
                        records[self.child as int].value_or_null(joint.far.references[i]@),
                    ),
            );
            let ghost base = filter@;
            let mut i: usize = 0;
            assert(pairs.take(0) =~= Seq::empty());
            while i < far.len() && i < joint.far.fields.len()
                invariant
                    i <= far.len(),
                    far.len() == joint.far.spec_pair_count(),
                    far.len() <= joint.far.fields.len(),
                    values_view(far) == Seq::new(
                        joint.far.spec_pair_count(),
                        |i: int| records[self.child as int].value_or_null(joint.far.references[i]@),
                    ),
                    pairs == Seq::new(
                        joint.far.spec_pair_count(),
                        |i: int|
                            (
                                joint.far.fields[i]@,
                                records[self.child as int].value_or_null(
                                    joint.far.references[i]@,
                                ),
                            ),
                    ),
                    filter@ == crate::model::object::nested::extended(base, pairs.take(i as int)),
                decreases far.len() - i,
            {
                assert(pairs.take(i + 1).drop_last() =~= pairs.take(i as int));
                assert(pairs.take(i + 1).last() == pairs[i as int]);
                assert(far[i as int]@ == values_view(far)[i as int]);
                filter.insert(joint.far.fields[i].clone(), crate::value::value::copy_value(&far[i]));
                i += 1;
            }
            assert(pairs.take(i as int) =~= pairs);
            Step::Emit(
                Frame::Join(Join { stage: JoinStage::Finding, ..self }),
                Request::FindUnique {
                    model: copy_names(&joint.through.path),
                    finder: where_finder(Value::Dictionary(filter)),
                    action: Action::from_u32(JOIN_DELETE | DELETE | SINGLE),
                },
            )
        }
    }

    /// Whether `step`, and the records after it, are what
    /// [`Join::after_initializing`] makes of the making of the join record as
    /// it stands.
    pub open spec fn after_initializing_step(self, namespace: &Namespace, earlier: Vec<Object>, later: Vec<Object>, result: Result<Returned, Error>, step: Step) -> bool {
        &&& !ends_well(step)
        &&& !(step is Emit)
        &&& later.len() == earlier.len()
        &&& step is Return ==> later@ == earlier@
        &&& (match result {
            Err(cause) => step == Step::Return(Err(cause)),
            Ok(_) => self.with_joint(
                namespace,
                earlier@,
                step,
                |through: Model, near: Relation, far: Relation|
                    if self.join >= earlier.len() {
                        fails_with(step, crate::model::object::machine::unknown_record())
                    } else {
                        let join = earlier[self.join as int];
                        let linked = assign_each(
                            join.tracking(),
                            join.is_new,
                            &through,
                            names_of(near.fields).take(near.spec_pair_count() as int),
                            Seq::new(
                                near.spec_pair_count(),
                                |i: int|
                                    earlier[self.parent as int].value_or_null(
                                        near.references[i]@,
                                    ),
                            ),
                        );
                        &&& crate::model::object::set_teon::others_same(
                            earlier@,
                            later@,
                            self.join,
                        )
                        &&& later[self.join as int].same_besides_values(&join)
                        &&& self.join != self.child ==> later[self.join as int].tracking()
                            == assign_each(
                            linked,
                            join.is_new,
                            &through,
                            names_of(far.fields).take(far.spec_pair_count() as int),
                            Seq::new(
                                far.spec_pair_count(),
                                |i: int|
                                    earlier[self.child as int].value_or_null(far.references[i]@),
                            ),
                        )
                        &&& step matches Step::Call(Frame::Join(next), Frame::Save(callee))
                            && next == (Join { stage: JoinStage::Finishing, ..self })
                            && callee.path@ == self.path@ && callee == (Save {
                            object: self.join,
                            path: callee.path,
                            ignore_required_relation: false,
                            dirty: false,
                            stage: crate::model::object::save::SaveStage::Begin,
                        })
                    },
            ),
        })
    }

    /// Takes in the result of the initialization of the new join record:
    /// the values that link it to either side are copied to it, and it is
    /// saved.
    pub fn after_initializing(self, namespace: &Namespace, records: &mut Vec<Object>, result: Result<Returned, Error>) -> (step: Step)
        ensures
            self.after_initializing_step(namespace, *old(records), *final(records), result, step),
    {
        match result {
            Err(cause) => {
                return Step::Return(Err(cause));
            },
            Ok(_) => {},
        }
        let (model, relation) = match self.grounds(namespace, records) {
            Some(found) => found,
            None => {
                return Step::Return(Err(no_record()));
            },
        };
        let joint = match joint(namespace, model, relation) {
            Some(joint) => joint,
            None => {
                return Step::Return(Err(no_model()));
            },
        };
        if self.join >= records.len() {
            return Step::Return(Err(no_record()));
        }
        copy_link(records, self.parent, self.join, joint.through, joint.near);
        copy_link(records, self.child, self.join, joint.through, joint.far);
        let callee = Save::new(self.join, self.path.clone(), false);
        Step::Call(
            Frame::Join(Join { stage: JoinStage::Finishing, ..self }),
            Frame::Save(callee),
        )
    }

    /// Whether `step`, and the records after it, are what
    /// [`Join::after_finding`] makes of the deletion of the join record as it
    /// stands.
    pub open spec fn after_finding_step(self, namespace: &Namespace, earlier: Vec<Object>, later: Vec<Object>, reply: Reply, step: Step) -> bool {
        &&& !ends_well(step)
        &&& !(step is Emit)
        &&& grown(earlier@, later@)
        &&& step is Return ==> later@ == earlier@
        &&& (match reply {
            Reply::Row(Err(_)) => fails_with(
                step,
                join_error("Join object is not found."@, self.path@),
            ),
            Reply::Row(Ok(None)) => fails_with(
                step,
                (ErrorView {
                    kind: ErrorKind::NotFound,
                    message: "Join object is not found."@,
                    path: Some(self.path@),
                }),
            ),
            Reply::Row(Ok(Some(row))) => self.with_joint(
                namespace,
                earlier@,
                step,
                |through: Model, near: Relation, far: Relation|
                    {
                        &&& later.len() == earlier.len() + 1
                        &&& crate::model::object::arena::found_as(
                            later[earlier.len() as int],
                            earlier[self.parent as int],
                            &through,
                            row@,
                            Action(JOIN_DELETE | DELETE | SINGLE),
                        )
                        &&& step matches Step::Call(Frame::Join(next), Frame::Delete(callee))
                            && next == (Join {
                            stage: JoinStage::Finishing,
                            join: earlier.len() as usize,
                            ..self
                        }) && callee.object == earlier.len() && callee.path@ == self.path@
                            && callee.mode == DeleteMode::Database && callee.stage
                            == crate::model::object::delete::DeleteStage::Begin && callee.index
                            == 0 && callee.found@.len() == 0 && callee.cursor == 0
                    },
            ),
            _ => fails_with(step, unexpected_reply()),
        })
    }

    /// Takes in the answer of the store: the join record that it found is
    /// deleted. A failure of the store is reported as a join record that
    /// is not found.
    pub fn after_finding(self, namespace: &Namespace, records: &mut Vec<Object>, reply: Reply) -> (step: Step)
        ensures
            self.after_finding_step(namespace, *old(records), *final(records), reply, step),
    {
        let row = match reply {
            Reply::Row(Ok(Some(row))) => row,
            Reply::Row(Ok(None)) => {
                return Step::Return(
                    Err(Error::at(ErrorKind::NotFound, "Join object is not found.", &self.path)),
                );
            },
            Reply::Row(Err(_)) => {
                return Step::Return(
                    Err(Error::at(ErrorKind::ValueError, "Join object is not found.", &self.path)),
                );
            },
            _ => {
                return Step::Return(Err(unexpected()));
            },
        };
        let (model, relation) = match self.grounds(namespace, records) {
            Some(found) => found,
            None => {
                return Step::Return(Err(no_record()));
            },
        };
        let joint = match joint(namespace, model, relation) {
            Some(joint) => joint,
            None => {
                return Step::Return(Err(no_model()));
            },
        };
        let number = add_found(
            namespace,
            records,
            self.parent,
            joint.through,
            &row,
            Action::from_u32(JOIN_DELETE | DELETE | SINGLE),
        );
        let callee = Delete::new(number, self.path.clone(), DeleteMode::Database);
        Step::Call(
            Frame::Join(Join { stage: JoinStage::Finishing, join: number, ..self }),
            Frame::Delete(callee),
        )
    }

    /// Whether `step`, and the records after it, are what
    /// [`Join::after_finishing`] makes of the work on the join record as it
    /// stands.
    pub open spec fn after_finishing_step(self, result: Result<Returned, Error>, step: Step) -> bool {
        &&& match result {
            Ok(_) => step == Step::Return(Ok(Returned::Done)),
            Err(_) => fails_with(
                step,
                join_error(
                    if self.create {
                        "Can't create join record."@
                    } else {
                        "Can't delete join record."@
                    },
                    self.path@,
                ),
            ),
        }
    }

    /// Takes in the result of the save or the deletion of the join record:
    /// a failure is reported as a join record that cannot be made or
    /// deleted.
    pub fn after_finishing(self, result: Result<Returned, Error>) -> (step: Step)
        ensures
            self.after_finishing_step(result, step),
    {
        match result {
            Ok(_) => Step::Return(Ok(Returned::Done)),
            Err(_) => {
                let message = if self.create {
                    "Can't create join record."
                } else {
                    "Can't delete join record."
                };
                Step::Return(Err(Error::at(ErrorKind::ValueError, message, &self.path)))
            },
        }
    }

    /// Whether `step`, and the records after it, are what the making of the
    /// join record makes of `input`: each stage takes in what it waits for, and
    /// any other input ends the making of the join record with an error and
    /// leaves the records as they are.
    pub open spec fn create_join_object_step(self, namespace: &Namespace, earlier: Vec<Object>, later: Vec<Object>, input: Input, step: Step) -> bool {
        &&& grown(earlier@, later@) || later.len() == earlier.len()
        &&& ends_well(step) ==> self.stage == JoinStage::Finishing
        &&& !self.create ==> fails_with(step, unexpected_reply()) && later@ == earlier@
        &&& if !self.create {
            fails_with(step, unexpected_reply()) && later@ == earlier@
        } else {
            match (self.stage, input) {
                (JoinStage::Begin, Input::Start) => self.begin_step(
                    namespace,
                    earlier,
                    later,
                    step,
                ),
                (JoinStage::Initializing, Input::Returned(result)) => self.after_initializing_step(
                    namespace,
                    earlier,
                    later,
                    result,
                    step,
                ),
                (JoinStage::Finishing, Input::Returned(result)) => self.after_finishing_step(
                    result,
                    step,
                ) && later@ == earlier@,
                _ => fails_with(step, unexpected_reply()) && later@ == earlier@,
            }
        }
    }

    /// Resumes the making of a join record.
    pub fn create_join_object(self, namespace: &Namespace, records: &mut Vec<Object>, input: Input) -> (step: Step)
        ensures
            self.create_join_object_step(namespace, *old(records), *final(records), input, step),
    {
        if !self.create {
            return Step::Return(Err(unexpected()));
        }
        match (self.stage, input) {
            (JoinStage::Begin, Input::Start) => self.begin(namespace, records),
            (JoinStage::Initializing, Input::Returned(result)) => self.after_initializing(
                namespace,
                records,
                result,
            ),
            (JoinStage::Finishing, Input::Returned(result)) => self.after_finishing(result),
            _ => Step::Return(Err(unexpected())),
        }
    }

    /// Whether `step`, and the records after it, are what the deletion of the
    /// join record makes of `input`: each stage takes in what it waits for, and
    /// any other input ends the deletion of the join record with an error and
    /// leaves the records as they are.
    pub open spec fn delete_join_object_step(self, namespace: &Namespace, earlier: Vec<Object>, later: Vec<Object>, input: Input, step: Step) -> bool {
        &&& grown(earlier@, later@)
        &&& ends_well(step) ==> self.stage == JoinStage::Finishing
        &&& self.create ==> fails_with(step, unexpected_reply()) && later@ == earlier@
        &&& if self.create {
            fails_with(step, unexpected_reply()) && later@ == earlier@
        } else {
            match (self.stage, input) {
                (JoinStage::Begin, Input::Start) => self.begin_step(
                    namespace,
                    earlier,
                    later,
                    step,
                ),
                (JoinStage::Finding, Input::Reply(reply)) => self.after_finding_step(
                    namespace,
                    earlier,
                    later,
                    reply,
                    step,
                ),
                (JoinStage::Finishing, Input::Returned(result)) => self.after_finishing_step(
                    result,
                    step,
                ) && later@ == earlier@,
                _ => fails_with(step, unexpected_reply()) && later@ == earlier@,
            }
        }
    }

    /// Resumes the deletion of a join record.
    pub fn delete_join_object(self, namespace: &Namespace, records: &mut Vec<Object>, input: Input) -> (step: Step)
        ensures
            self.delete_join_object_step(namespace, *old(records), *final(records), input, step),
    {
        if self.create {
            return Step::Return(Err(unexpected()));
        }
        match (self.stage, input) {
            (JoinStage::Begin, Input::Start) => self.begin(namespace, records),
            (JoinStage::Finding, Input::Reply(reply)) => self.after_finding(
                namespace,
                records,
                reply,
            ),
            (JoinStage::Finishing, Input::Returned(result)) => self.after_finishing(result),
            _ => Step::Return(Err(unexpected())),
        }
    }
}

} // verus!
