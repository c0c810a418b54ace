use vstd::prelude::*;
use crate::action::action::{Action, DELETE, DISCONNECT, MANY, PROGRAM_CODE, SINGLE};
use crate::collections::names::{copy_names, names_of};
use crate::model::model::Model;
use crate::model::object::machine::{
    denied, ends_well, fails_with, no_model, no_record, permission_denied, unexpected,
    unexpected_reply, Frame, Input, Reply, Request, Returned, Step,
};
use crate::model::object::object::Object;
use crate::model::object::save::Save;
use crate::model::object::set_teon::calls;
use crate::model::object::to_json::grown;
use crate::model::relation::{Delete as DeleteRule, Relation};
use crate::namespace::namespace::Namespace;
use crate::path::error::{Error, ErrorKind, ErrorView};
use crate::path::key_path::KeyPath;
use crate::pipeline::ctx::Place;
use crate::value::value::{Dictionary, Value, ValueView};

verus! {

/// What runs around the deletion of the row.
#[derive(Debug, Copy, Clone, PartialEq, Eq, Structural)]
pub enum DeleteMode {
    /// Nothing: the row is deleted and the delete rules are applied.
    Database,
    /// The before-delete and after-delete callbacks.
    Callbacks,
    /// The model's write permission, then the callbacks.
    Guarded,
}

/// How far a deletion has come.
#[derive(Debug, Copy, Clone, PartialEq, Eq, Structural)]
pub enum DeleteStage {
    /// Nothing was done yet.
    Begin,
    /// The model's write permission runs.
    Permission,
    /// The before-delete callbacks run.
    BeforeCallbacks,
    /// The next relation is checked for the rule deny.
    Deny,
    /// The store counts the records that a relation with the rule deny
    /// leads to.
    Counting,
    /// The store deletes the row.
    Deleting,
    /// The delete rule of the next relation is applied.
    Rules,
    /// The store finds the records that a relation leads to.
    Finding,
    /// The next of the records found is unlinked or deleted.
    Children,
    /// A record found is saved or deleted.
    Child,
    /// The after-delete callbacks run.
    AfterCallbacks,
}

/// A deletion under way.
#[derive(Debug)]
pub struct Delete {
    pub object: usize,
    pub path: KeyPath,
    pub mode: DeleteMode,
    pub stage: DeleteStage,
    /// The relation that is due.
    pub index: usize,
    /// The records that the current relation leads to.
    pub found: Vec<usize>,
    /// The record among them that is due.
    pub cursor: usize,
}

/// The error for a deletion that the relation `relation` denies.
pub open spec fn deletion_denied(relation: Seq<char>) -> ErrorView {
    ErrorView { kind: ErrorKind::DeletionDenied, message: relation, path: None }
}

/// The delete rule that applies to the records on the other side of
/// `relation`, a relation of the model at `home` without a join table: the
/// rule written on the opposite relation.
pub open spec fn rule_of(namespace: &Namespace, relation: Relation, home: Seq<Seq<char>>) -> Option<Relation> {
    if relation.through is Some {
        None
    } else {
        match namespace.spec_model(names_of(relation.model_path)) {
            Some(model) => {
                let at = Namespace::spec_opposite_index(model, relation, home);
                if at < model.relations.len() {
                    Some(model.relations[at])
                } else {
                    None
                }
            },
            None => None,
        }
    }
}

/// The opposite of `relation`, a relation of the model at `home` without a
/// join table.
pub fn opposite_of<'a>(namespace: &'a Namespace, relation: &Relation, home: &Vec<String>) -> (found: Option<&'a Relation>)
    ensures
        match found {
            Some(opposite) => rule_of(namespace, *relation, names_of(*home)) == Some(*opposite),
            None => rule_of(namespace, *relation, names_of(*home)) is None,
        },
{
    if relation.through.is_some() {
        return None;
    }
    let (_, opposite) = namespace.opposite_relation(relation, home);
    opposite
}

/// A finder with `filter` under the key `where`.
pub fn where_finder(filter: Value) -> (finder: Value)
    ensures
        finder@ == ValueView::Dictionary(seq![("where"@, filter@)]),
{
    let mut entries = Dictionary::new();
    proof {
        crate::value::value::lemma_first_index(entries@, "where"@);
    }
    entries.insert("where".to_owned(), filter);
    assert(entries@ =~= seq![("where"@, filter@)]);
    Value::Dictionary(entries)
}

impl Object {
    /// Assigns null to each of `fields`, fields of this record, a record of
    /// `model`: afterwards the record holds no value under any of them.
    pub fn nullify(&mut self, model: &Model, fields: &Vec<String>)
        ensures
            forall|i: int|
                0 <= i < fields.len() ==> final(self).value_or_null(#[trigger] fields[i]@) is Null,
            forall|key: Seq<char>|
                !names_of(*fields).contains(key) ==> final(self).value_or_null(key) == old(self).value_or_null(key),
            final(self).same_besides_values(old(self)),
            old(self).wf() ==> final(self).wf(),
            fields.len() > 0 && !old(self).is_new ==> final(self).is_modified,
            final(self).is_modified || final(self).is_modified == old(self).is_modified,
    {
        let mut i: usize = 0;
        while i < fields.len()
            invariant
                i <= fields.len(),
                forall|j: int| 0 <= j < i ==> self.value_or_null(#[trigger] fields[j]@) is Null,
                forall|key: Seq<char>|
                    !names_of(*fields).contains(key) ==> self.value_or_null(key) == old(self).value_or_null(key),
                self.same_besides_values(old(self)),
                old(self).wf() ==> self.wf(),
                i > 0 && !old(self).is_new ==> self.is_modified,
                self.is_modified || self.is_modified == old(self).is_modified,
            decreases fields.len() - i,
        {
            let ghost before = *self;
            self.set_value_to_value_map(model, fields[i].as_str(), Value::Null);
            proof {
                assert(names_of(*fields)[i as int] == fields[i as int]@);
                assert forall|j: int| 0 <= j < i + 1 implies self.value_or_null(
                    #[trigger] fields[j]@,
                ) is Null by {
                    if j < i {
                        assert(before.value_or_null(fields[j]@) is Null);
                    }
                }
            }
            i += 1;
        }
    }
}

/// What a deletion does with the relation at its index.
#[derive(Debug, Copy, Clone, PartialEq, Eq, Structural)]
pub enum RulePlan {
    /// Nothing: the relation has a join table or no opposite, or its rule
    /// asks for nothing here.
    Skip,
    /// The records on the other side lose their link to the deleted record.
    Nullify,
    /// The records on the other side are deleted too.
    Cascade,
}

/// What a deletion does, after the row is gone, with `relation`, a relation
/// of the model at `home`.
pub open spec fn spec_rule_plan(namespace: &Namespace, relation: Relation, home: Seq<Seq<char>>) -> RulePlan {
    match rule_of(namespace, relation, home) {
        Some(opposite) => match opposite.delete {
            DeleteRule::Nullify => if opposite.has_foreign_key {
                RulePlan::Nullify
            } else {
                RulePlan::Skip
            },
            DeleteRule::Cascade => RulePlan::Cascade,
            _ => RulePlan::Skip,
        },
        None => RulePlan::Skip,
    }
}

/// Whether a deletion of a record of the model at `home` is denied while
/// `relation` leads to any record.
pub open spec fn spec_denies(namespace: &Namespace, relation: Relation, home: Seq<Seq<char>>) -> bool {
    rule_of(namespace, relation, home) matches Some(opposite) && opposite.delete
        == DeleteRule::Deny
}

/// What a deletion does, after the row is gone, with `relation`.
pub fn rule_plan(namespace: &Namespace, relation: &Relation, home: &Vec<String>) -> (plan: RulePlan)
    ensures
        plan == spec_rule_plan(namespace, *relation, names_of(*home)),
{
    match opposite_of(namespace, relation, home) {
        Some(opposite) => match opposite.delete {
            DeleteRule::Nullify => if opposite.has_foreign_key {
                RulePlan::Nullify
            } else {
                RulePlan::Skip
            },
            DeleteRule::Cascade => RulePlan::Cascade,
            _ => RulePlan::Skip,
        },
        None => RulePlan::Skip,
    }
}

/// Whether a deletion is denied while `relation` leads to any record.
pub fn denies(namespace: &Namespace, relation: &Relation, home: &Vec<String>) -> (denied: bool)
    ensures
        denied == spec_denies(namespace, *relation, names_of(*home)),
{
    match opposite_of(namespace, relation, home) {
        Some(opposite) => match opposite.delete {
            DeleteRule::Deny => true,
            _ => false,
        },
        None => false,
    }
}

impl Delete {
    /// A deletion of the record numbered `object` that has not started yet.
    pub fn new(object: usize, path: KeyPath, mode: DeleteMode) -> (frame: Delete)
        ensures
            frame.object == object,
            frame.path == path,
            frame.mode == mode,
            frame.stage == DeleteStage::Begin,
            frame.index == 0,
            frame.found@.len() == 0,
            frame.cursor == 0,
    {
        Delete {
            object,
            path,
            mode,
            stage: DeleteStage::Begin,
            index: 0,
            found: Vec::new(),
            cursor: 0,
        }
    }

    /// Whether the frame knows its record and the record's model.
    pub open spec fn grounded(&self, namespace: &Namespace, records: Seq<Object>) -> bool {
        &&& self.object < records.len()
        &&& namespace.spec_model(names_of(records[self.object as int].model_path)) is Some
    }

    /// The model of the frame's record.
    pub open spec fn model(&self, namespace: &Namespace, records: Seq<Object>) -> Model {
        namespace.spec_model(names_of(records[self.object as int].model_path))->0
    }

    /// Starts the callbacks of the model at `place`.
    fn callbacks(self, records: &Vec<Object>, place: Place, stage: DeleteStage) -> (step: Step)
        ensures
            !ends_well(step),
            !(step is Emit),
            self.object >= records.len() ==> step is Return,
            self.object < records.len() ==> (step matches Step::Call(Frame::Delete(next), callee)
                && next == (Delete { stage, ..self }) && calls(
                callee,
                names_of(records[self.object as int].model_path),
                place,
                ValueView::Null,
                self.object,
                self.path@,
                records[self.object as int].action,
            )),
    {
        if self.object >= records.len() {
            return Step::Return(Err(no_record()));
        }
        let record = &records[self.object];
        let run = crate::pipeline::run::start(
            &record.model_path,
            place,
            Value::Null,
            Some(self.object),
            self.path.clone(),
            record.action,
        );
        Step::Call(Frame::Delete(Delete { stage, ..self }), Frame::Pipeline(run))
    }

    /// Whether `step`, and the records after it, are what [`Delete::begin`]
    /// makes of the deletion as it stands.
    pub open spec fn begin_step(self, records: &Vec<Object>, step: Step) -> bool {
        &&& !ends_well(step)
        &&& !(step is Emit)
        &&& (match self.mode {
            DeleteMode::Database => step == Step::Again(
                Frame::Delete(Delete { stage: DeleteStage::Deny, index: 0, ..self }),
            ),
            DeleteMode::Callbacks => self.object < records.len() ==> (step matches Step::Call(
                Frame::Delete(next),
                callee,
            ) && next == (Delete { stage: DeleteStage::BeforeCallbacks, ..self }) && calls(
                callee,
                names_of(records[self.object as int].model_path),
                Place::BeforeDelete,
                ValueView::Null,
                self.object,
                self.path@,
                records[self.object as int].action,
            )),
            DeleteMode::Guarded => self.object < records.len() ==> (step matches Step::Call(
                Frame::Delete(next),
                callee,
            ) && next == (Delete { stage: DeleteStage::Permission, ..self }) && calls(
                callee,
                names_of(records[self.object as int].model_path),
                Place::ModelCanMutate,
                ValueView::Null,
                self.object,
                self.path@,
                records[self.object as int].action,
            )),
        })
    }

    /// Starts the deletion: with the model's write permission, with the
    /// before-delete callbacks, or with the check of the delete rules,
    /// as the mode asks.
    pub fn begin(self, records: &Vec<Object>) -> (step: Step)
        ensures
            self.begin_step(records, step),
    {
        match self.mode {
            DeleteMode::Database => Step::Again(
                Frame::Delete(Delete { stage: DeleteStage::Deny, index: 0, ..self }),
            ),
            DeleteMode::Callbacks => self.callbacks(
                records,
                Place::BeforeDelete,
                DeleteStage::BeforeCallbacks,
            ),
            DeleteMode::Guarded => self.callbacks(
                records,
                Place::ModelCanMutate,
                DeleteStage::Permission,
            ),
        }
    }

    /// Whether `step`, and the records after it, are what
    /// [`Delete::after_permission`] makes of the deletion as it stands.
    pub open spec fn after_permission_step(self, records: &Vec<Object>, result: Result<Returned, Error>, step: Step) -> bool {
        &&& !ends_well(step)
        &&& !(step is Emit)
        &&& (match result {
            Err(cause) => fails_with(step, denied(cause@, self.path@)),
            Ok(_) => self.object < records.len() ==> (step matches Step::Call(
                Frame::Delete(next),
                callee,
            ) && next == (Delete { stage: DeleteStage::BeforeCallbacks, ..self }) && calls(
                callee,
                names_of(records[self.object as int].model_path),
                Place::BeforeDelete,
                ValueView::Null,
                self.object,
                self.path@,
                records[self.object as int].action,
            )),
        })
    }

    /// Takes in the result of the model's write permission: a failure
    /// denies the deletion at its path, a success lets the before-delete
    /// callbacks run.
    pub fn after_permission(self, records: &Vec<Object>, result: Result<Returned, Error>) -> (step: Step)
        ensures
            self.after_permission_step(records, result, step),
    {
        match result {
            Err(cause) => Step::Return(Err(permission_denied(&cause, &self.path))),
            Ok(_) => self.callbacks(records, Place::BeforeDelete, DeleteStage::BeforeCallbacks),
        }
    }

    /// Whether `step`, and the records after it, are what
    /// [`Delete::after_before_callbacks`] makes of the deletion as it stands.
    pub open spec fn after_before_callbacks_step(self, result: Result<Returned, Error>, step: Step) -> bool {
        &&& match result {
            Err(cause) => step == Step::Return(Err(cause)),
            Ok(_) => step == Step::Again(
                Frame::Delete(Delete { stage: DeleteStage::Deny, index: 0, ..self }),
            ),
        }
    }

    /// Takes in the result of the before-delete callbacks: a success lets
    /// the delete rules be checked.
    pub fn after_before_callbacks(self, result: Result<Returned, Error>) -> (step: Step)
        ensures
            self.after_before_callbacks_step(result, step),
    {
        match result {
            Err(cause) => Step::Return(Err(cause)),
            Ok(_) => Step::Again(
                Frame::Delete(Delete { stage: DeleteStage::Deny, index: 0, ..self }),
            ),
        }
    }

    /// Whether `step`, and the records after it, are what [`Delete::deny`]
    /// makes of the deletion as it stands.
    pub open spec fn deny_step(self, namespace: &Namespace, records: &Vec<Object>, step: Step) -> bool {
        &&& !ends_well(step)
        &&& !self.grounded(namespace, records@) ==> step is Return
        &&& (self.grounded(namespace, records@) ==> {
            let model = self.model(namespace, records@);
            let record = records[self.object as int];
            if self.index >= model.relations.len() {
                step == Step::Emit(
                    Frame::Delete(Delete { stage: DeleteStage::Deleting, ..self }),
                    Request::DeleteObject { object: self.object },
                )
            } else if spec_denies(
                namespace,
                model.relations[self.index as int],
                names_of(model.path),
            ) {
                step matches Step::Emit(
                    Frame::Delete(next),
                    Request::Count { model: counted, finder },
                ) && next == (Delete { stage: DeleteStage::Counting, ..self }) && names_of(
                    counted,
                ) == names_of(model.relations[self.index as int].model_path) && finder@
                    == record.spec_intrinsic_filter(&model.relations[self.index as int])
            } else {
                step == Step::Again(
                    Frame::Delete(
                        Delete {
                            index: (self.index + 1) as usize,
                            stage: DeleteStage::Deny,
                            ..self
                        },
                    ),
                )
            }
        })
    }

    /// Checks the relation at the index for the rule deny: where the rule
    /// applies, the store counts the records that the relation leads to.
    /// Once every relation is checked, the store is asked to delete the
    /// row.
    pub fn deny(self, namespace: &Namespace, records: &Vec<Object>) -> (step: Step)
        requires
            self.index < usize::MAX,
        ensures
            self.deny_step(namespace, records, step),
    {
        if self.object >= records.len() {
            return Step::Return(Err(no_record()));
        }
        let record = &records[self.object];
        let model = match namespace.model_at_path(&record.model_path) {
            Some(model) => model,
            None => {
                return Step::Return(Err(no_model()));
            },
        };
        if self.index >= model.relations.len() {
            let object = self.object;
            return Step::Emit(
                Frame::Delete(Delete { stage: DeleteStage::Deleting, ..self }),
                Request::DeleteObject { object },
            );
        }
        let relation = &model.relations[self.index];
        if denies(namespace, relation, &model.path) {
            let finder = record.intrinsic_where_unique_for_relation(relation);
            Step::Emit(
                Frame::Delete(Delete { stage: DeleteStage::Counting, ..self }),
                Request::Count { model: copy_names(&relation.model_path), finder },
            )
        } else {
            Step::Again(
                Frame::Delete(Delete { index: self.index + 1, stage: DeleteStage::Deny, ..self }),
            )
        }
    }

    /// Whether `step`, and the records after it, are what
    /// [`Delete::after_count`] makes of the deletion as it stands.
    pub open spec fn after_count_step(self, namespace: &Namespace, records: &Vec<Object>, reply: Reply, step: Step) -> bool {
        &&& !ends_well(step)
        &&& !(step is Emit)
        &&& match reply {
            Reply::Count(Err(cause)) => step == Step::Return(Err(cause)),
            Reply::Count(Ok(count)) => if count == 0 {
                step == Step::Again(
                    Frame::Delete(
                        Delete {
                            index: (self.index + 1) as usize,
                            stage: DeleteStage::Deny,
                            ..self
                        },
                    ),
                )
            } else {
                self.grounded(namespace, records@) && self.index < self.model(
                    namespace,
                    records@,
                ).relations.len() ==> fails_with(
                    step,
                    deletion_denied(
                        self.model(namespace, records@).relations[self.index as int].name@,
                    ),
                )
            },
            _ => fails_with(step, unexpected_reply()),
        }
        &&& (step is Return || reply matches Reply::Count(Ok(0)))
    }

    /// Takes in the count of the records that the relation at the index
    /// leads to: any record denies the deletion.
    pub fn after_count(self, namespace: &Namespace, records: &Vec<Object>, reply: Reply) -> (step: Step)
        requires
            self.index < usize::MAX,
        ensures
            self.after_count_step(namespace, records, reply, step),
    {
        match reply {
            Reply::Count(Err(cause)) => Step::Return(Err(cause)),
            Reply::Count(Ok(count)) => {
                if count == 0 {
                    return Step::Again(
                        Frame::Delete(
                            Delete { index: self.index + 1, stage: DeleteStage::Deny, ..self },
                        ),
                    );
                }
                if self.object >= records.len() {
                    return Step::Return(Err(no_record()));
                }
                let model = match namespace.model_at_path(&records[self.object].model_path) {
                    Some(model) => model,
                    None => {
                        return Step::Return(Err(no_model()));
                    },
                };
                if self.index >= model.relations.len() {
                    return Step::Return(Err(unexpected()));
                }
                Step::Return(
                    Err(
                        Error {
                            kind: ErrorKind::DeletionDenied,
                            message: model.relations[self.index].name.clone(),
                            path: None,
                        },
                    ),
                )
            },
            _ => Step::Return(Err(unexpected())),
        }
    }

    /// Whether `step`, and the records after it, are what
    /// [`Delete::after_deleting`] makes of the deletion as it stands.
    pub open spec fn after_deleting_step(self, earlier: Vec<Object>, later: Vec<Object>, reply: Reply, step: Step) -> bool {
        &&& !ends_well(step)
        &&& !(step is Emit)
        &&& crate::model::object::set_teon::others_same(earlier@, later@, self.object)
        &&& match reply {
            Reply::Deleted(Err(cause)) => step == Step::Return(Err(cause)) && later@
                == earlier@,
            Reply::Deleted(Ok(())) => self.object < earlier.len() ==> {
                &&& step == Step::Again(
                    Frame::Delete(Delete { stage: DeleteStage::Rules, index: 0, ..self }),
                )
                &&& later[self.object as int] == (Object {
                    is_deleted: true,
                    ..earlier[self.object as int]
                })
            },
            _ => fails_with(step, unexpected_reply()) && later@ == earlier@,
        }
    }

    /// Takes in the answer of the store: the row is gone and the record is
    /// marked deleted; the delete rules are applied next.
    pub fn after_deleting(self, records: &mut Vec<Object>, reply: Reply) -> (step: Step)
        ensures
            self.after_deleting_step(*old(records), *final(records), reply, step),
    {
        match reply {
            Reply::Deleted(Err(cause)) => Step::Return(Err(cause)),
            Reply::Deleted(Ok(())) => {
                if self.object >= records.len() {
                    return Step::Return(Err(no_record()));
                }
                records[self.object].is_deleted = true;
                Step::Again(Frame::Delete(Delete { stage: DeleteStage::Rules, index: 0, ..self }))
            },
            _ => Step::Return(Err(unexpected())),
        }
    }
}

impl Delete {
    /// Whether the frame knows its record, the record's model and the
    /// relation at its index.
    pub open spec fn ready(&self, namespace: &Namespace, records: Seq<Object>) -> bool {
        self.grounded(namespace, records) && self.index < self.model(
            namespace,
            records,
        ).relations.len()
    }

    /// The relation at the frame's index.
    pub open spec fn relation(&self, namespace: &Namespace, records: Seq<Object>) -> Relation {
        self.model(namespace, records).relations[self.index as int]
    }

    /// What the deletion does with the relation at its index.
    pub open spec fn plan(&self, namespace: &Namespace, records: Seq<Object>) -> RulePlan {
        spec_rule_plan(
            namespace,
            self.relation(namespace, records),
            names_of(self.model(namespace, records).path),
        )
    }

    /// Whether `step`, and the records after it, are what [`Delete::rules`]
    /// makes of the deletion as it stands.
    pub open spec fn rules_step(self, namespace: &Namespace, records: &Vec<Object>, step: Step) -> bool {
        &&& !self.grounded(namespace, records@) ==> step is Return && !ends_well(step)
        &&& ends_well(step) ==> self.mode == DeleteMode::Database
        &&& (self.grounded(namespace, records@) ==> {
            let model = self.model(namespace, records@);
            let record = records[self.object as int];
            if self.index >= model.relations.len() {
                if self.mode == DeleteMode::Database {
                    step == Step::Return(Ok(Returned::Done))
                } else {
                    step matches Step::Call(Frame::Delete(next), callee) && next == (Delete { stage: DeleteStage::AfterCallbacks, ..self }) && calls(
                        callee,
                        names_of(record.model_path),
                        Place::AfterDelete,
                        ValueView::Null,
                        self.object,
                        self.path@,
                        record.action,
                    )
                }
            } else {
                match self.plan(namespace, records@) {
                    RulePlan::Skip => step == Step::Again(
                        Frame::Delete(
                            Delete {
                                index: (self.index + 1) as usize,
                                stage: DeleteStage::Rules,
                                ..self
                            },
                        ),
                    ),
                    _ => step matches Step::Emit(
                        Frame::Delete(next),
                        Request::FindMany { model: sought, finder, action },
                    ) && next == (Delete { stage: DeleteStage::Finding, ..self }) && names_of(
                        sought,
                    ) == names_of(self.relation(namespace, records@).model_path) && finder@
                        == ValueView::Dictionary(
                        seq![
                            (
                                "where"@,
                                record.spec_intrinsic_filter(
                                    &self.relation(namespace, records@),
                                ),
                            ),
                        ],
                    ),
                }
            }
        })
    }

    /// Applies the delete rule of the relation at the index: where the
    /// records on the other side are to be unlinked or deleted, the store
    /// is asked to find them. Once every relation is done, the deletion
    /// ends, after the after-delete callbacks where the mode asks for them.
    pub fn rules(self, namespace: &Namespace, records: &Vec<Object>) -> (step: Step)
        requires
            self.index < usize::MAX,
        ensures
            self.rules_step(namespace, records, step),
    {
        if self.object >= records.len() {
            return Step::Return(Err(no_record()));
        }
        let record = &records[self.object];
        let model = match namespace.model_at_path(&record.model_path) {
            Some(model) => model,
            None => {
                return Step::Return(Err(no_model()));
            },
        };
        if self.index >= model.relations.len() {
            return match self.mode {
                DeleteMode::Database => Step::Return(Ok(Returned::Done)),
                _ => self.callbacks(records, Place::AfterDelete, DeleteStage::AfterCallbacks),
            };
        }
        let relation = &model.relations[self.index];
        let arity = if relation.is_vec {
            MANY
        } else {
            SINGLE
        };
        let bits = match rule_plan(namespace, relation, &model.path) {
            RulePlan::Skip => {
                return Step::Again(
                    Frame::Delete(
                        Delete { index: self.index + 1, stage: DeleteStage::Rules, ..self },
                    ),
                );
            },
            RulePlan::Nullify => PROGRAM_CODE | DISCONNECT | arity,
            RulePlan::Cascade => PROGRAM_CODE | DELETE | arity,
        };
        let finder = where_finder(record.intrinsic_where_unique_for_relation(relation));
        Step::Emit(
            Frame::Delete(Delete { stage: DeleteStage::Finding, ..self }),
            Request::FindMany {
                model: copy_names(&relation.model_path),
                finder,
                action: Action::from_u32(bits),
            },
        )
    }

    /// Whether `step`, and the records after it, are what
    /// [`Delete::after_finding`] makes of the deletion as it stands.
    pub open spec fn after_finding_step(self, namespace: &Namespace, earlier: Vec<Object>, later: Vec<Object>, reply: Reply, step: Step) -> bool {
        &&& !ends_well(step)
        &&& !(step is Emit)
        &&& grown(earlier@, later@)
        &&& (match reply {
            Reply::Rows(Err(cause)) => step == Step::Return(Err(cause)) && later@
                == earlier@,
            Reply::Rows(Ok(rows)) => self.ready(namespace, earlier@) && namespace.spec_model(
                names_of(self.relation(namespace, earlier@).model_path),
            ) is Some ==> {
                let related = namespace.spec_model(
                    names_of(self.relation(namespace, earlier@).model_path),
                )->0;
                &&& later.len() == earlier.len() + rows.len()
                &&& step matches Step::Again(Frame::Delete(next)) && next.stage
                    == DeleteStage::Children && next.cursor == 0 && next.index == self.index
                    && next.object == self.object && next.mode == self.mode && next.found@
                    == Seq::new(rows.len() as nat, |i: int| (earlier.len() + i) as usize)
                &&& forall|i: int|
                    0 <= i < rows.len() ==> crate::model::object::arena::found_as(
                        #[trigger] later[earlier.len() + i],
                        earlier[self.object as int],
                        &related,
                        rows[i]@,
                        earlier[self.object as int].action,
                    )
            },
            _ => fails_with(step, unexpected_reply()) && later@ == earlier@,
        })
    }

    /// Takes in the rows that the store found on the other side of the
    /// relation at the index: each becomes a record of the operation.
    pub fn after_finding(self, namespace: &Namespace, records: &mut Vec<Object>, reply: Reply) -> (step: Step)
        requires
            self.index < usize::MAX,
        ensures
            self.after_finding_step(namespace, *old(records), *final(records), reply, step),
    {
        let rows = match reply {
            Reply::Rows(Ok(rows)) => rows,
            Reply::Rows(Err(cause)) => {
                return Step::Return(Err(cause));
            },
            _ => {
                return Step::Return(Err(unexpected()));
            },
        };
        if self.object >= records.len() {
            return Step::Return(Err(no_record()));
        }
        let model = match namespace.model_at_path(&records[self.object].model_path) {
            Some(model) => model,
            None => {
                return Step::Return(Err(no_model()));
            },
        };
        if self.index >= model.relations.len() {
            return Step::Return(Err(unexpected()));
        }
        let related = match namespace.model_at_path(&model.relations[self.index].model_path) {
            Some(related) => related,
            None => {
                return Step::Return(Err(no_model()));
            },
        };
        let action = records[self.object].action;
        let mut found: Vec<usize> = Vec::new();
        let mut i: usize = 0;
        while i < rows.len()
            invariant
                i <= rows.len(),
                self.object < old(records).len(),
                records.len() == old(records).len() + i,
                grown(old(records)@, records@),
                action == old(records)[self.object as int].action,
                found@ == Seq::new(i as nat, |k: int| (old(records).len() + k) as usize),
                forall|k: int|
                    0 <= k < i ==> crate::model::object::arena::found_as(
                        #[trigger] records[old(records).len() + k],
                        old(records)[self.object as int],
                        related,
                        rows[k]@,
                        action,
                    ),
            decreases rows.len() - i,
        {
            let ghost before = records@;
            let number = crate::model::object::arena::add_found(
                namespace,
                records,
                self.object,
                related,
                &rows[i],
                action,
            );
            found.push(number);
            proof {
                assert(found@ =~= Seq::new((i + 1) as nat, |k: int| (old(records).len() + k) as usize));
                assert forall|k: int| 0 <= k < i + 1 implies crate::model::object::arena::found_as(
                    #[trigger] records[old(records).len() + k],
                    old(records)[self.object as int],
                    related,
                    rows[k]@,
                    action,
                ) by {
                    if k < i {
                        assert(records[old(records).len() + k] == before[old(records).len() + k]);
                    }
                }
            }
            i += 1;
        }
        Step::Again(
            Frame::Delete(Delete { stage: DeleteStage::Children, found, cursor: 0, ..self }),
        )
    }

    /// Whether `step`, and the records after it, are what [`Delete::children`]
    /// makes of the deletion as it stands.
    pub open spec fn children_step(self, namespace: &Namespace, earlier: Vec<Object>, later: Vec<Object>, step: Step) -> bool {
        &&& !ends_well(step)
        &&& !(step is Emit)
        &&& later.len() == earlier.len()
        &&& self.cursor >= self.found.len() ==> step == Step::Again(
            Frame::Delete(
                Delete {
                    index: (self.index + 1) as usize,
                    stage: DeleteStage::Rules,
                    cursor: 0,
                    ..self
                },
            ),
        ) && later@ == earlier@
        &&& (self.cursor < self.found.len() && self.ready(namespace, earlier@)
            && self.found[self.cursor as int] < earlier.len() ==> {
            let child = self.found[self.cursor as int];
            match self.plan(namespace, earlier@) {
                RulePlan::Nullify => {
                    let opposite = rule_of(
                        namespace,
                        self.relation(namespace, earlier@),
                        names_of(self.model(namespace, earlier@).path),
                    )->0;
                    &&& namespace.spec_model(
                        names_of(self.relation(namespace, earlier@).model_path),
                    ) is Some ==> (forall|i: int|
                        0 <= i < opposite.fields.len() ==> later[child as int].value_or_null(#[trigger] opposite.fields[i]@) is Null)
                        && (step matches Step::Call(
                        Frame::Delete(next),
                        Frame::Save(callee),
                    ) && next == (Delete { stage: DeleteStage::Child, ..self }) && callee.object
                        == child && callee.stage
                        == crate::model::object::save::SaveStage::Begin)
                    &&& crate::model::object::set_teon::others_same(
                        earlier@,
                        later@,
                        child,
                    )
                },
                RulePlan::Cascade => {
                    &&& step matches Step::Call(Frame::Delete(next), Frame::Delete(callee))
                        && next == (Delete { stage: DeleteStage::Child, ..self })
                        && callee.object == child && callee.mode == DeleteMode::Database
                        && callee.stage == DeleteStage::Begin
                    &&& later@ == earlier@
                },
                RulePlan::Skip => step is Return && later@ == earlier@,
            }
        })
    }

    /// Handles the next of the records found on the other side of the
    /// relation at the index: under the rule nullify, the fields that link
    /// it to the deleted record are set to null and it is saved; under the
    /// rule cascade it is deleted. Once every record is done, the next
    /// relation is due.
    pub fn children(self, namespace: &Namespace, records: &mut Vec<Object>) -> (step: Step)
        requires
            self.index < usize::MAX,
        ensures
            self.children_step(namespace, *old(records), *final(records), step),
    {
        if self.cursor >= self.found.len() {
            return Step::Again(
                Frame::Delete(
                    Delete { index: self.index + 1, stage: DeleteStage::Rules, cursor: 0, ..self },
                ),
            );
        }
        if self.object >= records.len() {
            return Step::Return(Err(no_record()));
        }
        let model = match namespace.model_at_path(&records[self.object].model_path) {
            Some(model) => model,
            None => {
                return Step::Return(Err(no_model()));
            },
        };
        if self.index >= model.relations.len() {
            return Step::Return(Err(unexpected()));
        }
        let relation = &model.relations[self.index];
        let child = self.found[self.cursor];
        if child >= records.len() {
            return Step::Return(Err(no_record()));
        }
        match rule_plan(namespace, relation, &model.path) {
            RulePlan::Skip => Step::Return(Err(unexpected())),
            RulePlan::Nullify => {
                let opposite = match opposite_of(namespace, relation, &model.path) {
                    Some(opposite) => opposite,
                    None => {
                        return Step::Return(Err(unexpected()));
                    },
                };
                let related = match namespace.model_at_path(&relation.model_path) {
                    Some(related) => related,
                    None => {
                        return Step::Return(Err(no_model()));
                    },
                };
                records[child].nullify(related, &opposite.fields);
                let callee = Save::new(child, KeyPath::new(), false);
                Step::Call(
                    Frame::Delete(Delete { stage: DeleteStage::Child, ..self }),
                    Frame::Save(callee),
                )
            },
            RulePlan::Cascade => {
                let callee = Delete::new(child, KeyPath::new(), DeleteMode::Database);
                Step::Call(
                    Frame::Delete(Delete { stage: DeleteStage::Child, ..self }),
                    Frame::Delete(callee),
                )
            },
        }
    }

    /// Whether `step`, and the records after it, are what
    /// [`Delete::after_child`] makes of the deletion as it stands.
    pub open spec fn after_child_step(self, result: Result<Returned, Error>, step: Step) -> bool {
        &&& match result {
            Err(cause) => step == Step::Return(Err(cause)),
            Ok(_) => if self.cursor < usize::MAX {
                step == Step::Again(
                    Frame::Delete(
                        Delete {
                            cursor: (self.cursor + 1) as usize,
                            stage: DeleteStage::Children,
                            ..self
                        },
                    ),
                )
            } else {
                fails_with(step, unexpected_reply())
            },
        }
    }

    /// Takes in the result of the save or the deletion of a record found:
    /// the next record is due.
    pub fn after_child(self, result: Result<Returned, Error>) -> (step: Step)
        ensures
            self.after_child_step(result, step),
    {
        match result {
            Err(cause) => Step::Return(Err(cause)),
            Ok(_) => {
                if self.cursor == usize::MAX {
                    return Step::Return(Err(unexpected()));
                }
                Step::Again(
                    Frame::Delete(
                        Delete { cursor: self.cursor + 1, stage: DeleteStage::Children, ..self },
                    ),
                )
            },
        }
    }

    /// Whether `step`, and the records after it, are what
    /// [`Delete::after_after_callbacks`] makes of the deletion as it stands.
    pub open spec fn after_after_callbacks_step(self, result: Result<Returned, Error>, step: Step) -> bool {
        &&& match result {
            Err(cause) => step == Step::Return(Err(cause)),
            Ok(_) => step == Step::Return(Ok(Returned::Done)),
        }
    }

    /// Takes in the result of the after-delete callbacks: the deletion has
    /// ended.
    pub fn after_after_callbacks(self, result: Result<Returned, Error>) -> (step: Step)
        ensures
            self.after_after_callbacks_step(result, step),
    {
        match result {
            Err(cause) => Step::Return(Err(cause)),
            Ok(_) => Step::Return(Ok(Returned::Done)),
        }
    }

    /// Whether `step`, and the records after it, are what the deletion makes of
    /// `input`: each stage takes in what it waits for, and any other input ends
    /// the deletion with an error and leaves the records as they are.
    pub open spec fn delete_from_database_step(self, namespace: &Namespace, earlier: Vec<Object>, later: Vec<Object>, input: Input, step: Step) -> bool {
        &&& grown(earlier@, later@) || (later.len() == earlier.len())
        &&& (step matches Step::Emit(_, Request::DeleteObject { object }) ==> self.stage
            == DeleteStage::Deny && object == self.object)
        &&& ends_well(step) ==> self.stage == DeleteStage::Rules || self.stage
            == DeleteStage::AfterCallbacks
        &&& if self.index == usize::MAX {
            fails_with(step, unexpected_reply()) && later@ == earlier@
        } else {
            match (self.stage, input) {
                (DeleteStage::Begin, Input::Start) => self.begin_step(
                    &earlier,
                    step,
                ) && later@ == earlier@,
                (DeleteStage::Permission, Input::Returned(result)) => self.after_permission_step(
                    &earlier,
                    result,
                    step,
                ) && later@ == earlier@,
                (DeleteStage::BeforeCallbacks, Input::Returned(result)) => self.after_before_callbacks_step(
                    result,
                    step,
                ) && later@ == earlier@,
                (DeleteStage::Deny, Input::Start) => self.deny_step(
                    namespace,
                    &earlier,
                    step,
                ) && later@ == earlier@,
                (DeleteStage::Counting, Input::Reply(reply)) => self.after_count_step(
                    namespace,
                    &earlier,
                    reply,
                    step,
                ) && later@ == earlier@,
                (DeleteStage::Deleting, Input::Reply(reply)) => self.after_deleting_step(
                    earlier,
                    later,
                    reply,
                    step,
                ),
                (DeleteStage::Rules, Input::Start) => self.rules_step(
                    namespace,
                    &earlier,
                    step,
                ) && later@ == earlier@,
                (DeleteStage::Finding, Input::Reply(reply)) => self.after_finding_step(
                    namespace,
                    earlier,
                    later,
                    reply,
                    step,
                ),
                (DeleteStage::Children, Input::Start) => self.children_step(
                    namespace,
                    earlier,
                    later,
                    step,
                ),
                (DeleteStage::Child, Input::Returned(result)) => self.after_child_step(
                    result,
                    step,
                ) && later@ == earlier@,
                (DeleteStage::AfterCallbacks, Input::Returned(result)) => self.after_after_callbacks_step(
                    result,
                    step,
                ) && later@ == earlier@,
                _ => fails_with(step, unexpected_reply()) && later@ == earlier@,
            }
        }
    }

    /// Resumes the deletion.
    ///
    /// A stage that waits takes in what it waited for; any input that does
    /// not fit the stage ends the deletion with an error. The store is
    /// asked to delete the row only after every relation was checked for
    /// the rule deny, and the deletion ends well only after the delete
    /// rules of every relation were applied. Records are added for the
    /// rows that the store finds, none is taken away.
    pub fn delete_from_database(self, namespace: &Namespace, records: &mut Vec<Object>, input: Input) -> (step: Step)
        ensures
            self.delete_from_database_step(namespace, *old(records), *final(records), input, step),
    {
        if self.index == usize::MAX {
            return Step::Return(Err(unexpected()));
        }
        match (self.stage, input) {
            (DeleteStage::Begin, Input::Start) => self.begin(records),
            (DeleteStage::Permission, Input::Returned(result)) => self.after_permission(
                records,
                result,
            ),
            (DeleteStage::BeforeCallbacks, Input::Returned(result)) => self.after_before_callbacks(
                result,
            ),
            (DeleteStage::Deny, Input::Start) => self.deny(namespace, records),
            (DeleteStage::Counting, Input::Reply(reply)) => self.after_count(
                namespace,
                records,
                reply,
            ),
            (DeleteStage::Deleting, Input::Reply(reply)) => self.after_deleting(records, reply),
            (DeleteStage::Rules, Input::Start) => self.rules(namespace, records),
            (DeleteStage::Finding, Input::Reply(reply)) => self.after_finding(
                namespace,
                records,
                reply,
            ),
            (DeleteStage::Children, Input::Start) => self.children(namespace, records),
            (DeleteStage::Child, Input::Returned(result)) => self.after_child(result),
            (DeleteStage::AfterCallbacks, Input::Returned(result)) => self.after_after_callbacks(
                result,
            ),
            _ => Step::Return(Err(unexpected())),
        }
    }
}

} // verus!
