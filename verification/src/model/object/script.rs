use vstd::prelude::*;
use crate::action::action::{Action, NestedAction};
use crate::collections::names::{copy_names, find_pair, names_of};
use crate::model::model::Model;
use crate::model::object::arena::{add_found, found_as};
use crate::model::object::copy::copy_object;
use crate::model::object::delete::{where_finder, Delete, DeleteMode};
use crate::model::object::fetch::{not_found, Fetch};
use crate::model::object::hydrate::{
    lemma_last_named, nested_rows, row_entries, taken_below,
};
use crate::model::object::linking::{joint, spec_joint, values_under, Join, Link};
use crate::model::object::machine::{
    ends_well, fails_with, no_model, no_record, unexpected, unexpected_reply, Frame, Input, Reply,
    Request, Returned, Step,
};
use crate::model::object::nested::Op;
use crate::model::object::object::{value_in, Object};
use crate::model::object::save::Save;
use crate::model::object::set_teon::SetTeon;
use crate::model::relation::Relation;
use crate::namespace::namespace::Namespace;
use crate::path::error::{Error, ErrorKind, ErrorView};
use crate::path::key_path::KeyPath;
use crate::value::value::{
    copy_value, entries_from, entries_insert, values_view, Dictionary, Value, ValueView,
};

verus! {

/// What the operations of a relation mutation wait for.
#[derive(Debug, Copy, Clone, PartialEq, Eq, Structural)]
pub enum Wait {
    /// Nothing: the next operation is due.
    Ready,
    /// A part of the operation whose failure ends the mutation.
    Child,
    /// A part of the operation whose failure is dropped.
    Forgiven,
    /// The record that an operation asked the store for.
    Found,
    /// The record that decides which operations run next.
    FoundOr,
    /// The records that an operation asked the store for.
    FoundAll,
    /// The records of the relation.
    Fetched,
    /// The operations on one of the records found.
    Each,
    /// The payload and the action as the related model transformed them.
    Transformed,
    /// The record that holds the record to connect.
    Vacating,
    /// The join row that leads to the record sought.
    FoundJoined,
    /// The join rows that lead to the records sought.
    FoundAllJoined,
}

/// The operations of a relation mutation under way, on the record numbered
/// `owner` and the relation at `relation` of its model.
#[derive(Debug)]
pub struct Script {
    pub owner: usize,
    pub relation: usize,
    pub path: KeyPath,
    /// The operations that are still due, in order.
    pub ops: Vec<Op>,
    pub target: Option<usize>,
    pub wait: Wait,
    /// The records that the operations of `body` run on.
    pub found: Vec<usize>,
    pub cursor: usize,
    pub body: Vec<Op>,
    /// The operations that run where a record is found, and where none is.
    pub otherwise: Vec<Op>,
    /// Whether the payload under transformation is for a to-many relation.
    pub many: bool,
    /// The message for a failure of the store to find the record sought.
    pub failure: String,
    /// The path of the payload under transformation.
    pub at: KeyPath,
}

/// Whether two operations say the same: they are of one kind and hold the
/// same names, values, paths and operations.
pub open spec fn same_op(left: Op, right: Op) -> bool
    decreases left,
{
    match (left, right) {
        (Op::Refuse { kind: k, message: m }, Op::Refuse { kind, message }) => k == kind && m@
            == message@,
        (Op::Attempt(l), Op::Attempt(r)) => same_ops(l, r),
        (Op::Find { finder: f, action: a, failure: t }, Op::Find { finder, action, failure }) => f@
            == finder@ && a == action && t@ == failure@,
        (
            Op::FindOr { finder: f, action: a, found: l, missing: n },
            Op::FindOr { finder, action, found, missing },
        ) => f@ == finder@ && a == action && same_ops(l, found) && same_ops(n, missing),
        (Op::FindAll { finder: f, action: a, each: l }, Op::FindAll { finder, action, each }) => f@
            == finder@ && a == action && same_ops(l, each),
        (Op::FetchAll { each: l }, Op::FetchAll { each }) => same_ops(l, each),
        (Op::Create { payload: v, path: p, action: a }, Op::Create { payload, path, action }) => v@
            == payload@ && p@ == path@ && a == action,
        (Op::Assign { payload: v, path: p }, Op::Assign { payload, path }) => v@ == payload@ && p@
            == path@,
        (Op::IgnoreOpposite, Op::IgnoreOpposite) => true,
        (Op::Link, Op::Link) => true,
        (Op::Save { path: p }, Op::Save { path }) => p@ == path@,
        (Op::Delete, Op::Delete) => true,
        (Op::DropJoin, Op::DropJoin) => true,
        (Op::ClearChild, Op::ClearChild) => true,
        (Op::ClearSelf, Op::ClearSelf) => true,
        (Op::Vacate { finder: f }, Op::Vacate { finder }) => f@ == finder@,
        (
            Op::Transform { action: a, value: v, path: p, many: m },
            Op::Transform { action, value, path, many },
        ) => a == action && v@ == value@ && p@ == path@ && m == many,
        (Op::Target(l), Op::Target(r)) => l == r,
        (Op::FindJoined { filter: f, action: a }, Op::FindJoined { filter, action }) => f@
            == filter@ && a == action,
        (
            Op::FindAllJoined { filter: f, action: a, each: l },
            Op::FindAllJoined { filter, action, each },
        ) => f@ == filter@ && a == action && same_ops(l, each),
        _ => false,
    }
}

/// Whether two lists of operations say the same, one by one.
pub open spec fn same_ops(left: Vec<Op>, right: Vec<Op>) -> bool
    decreases left,
{
    left.len() == right.len() && forall|i: int|
        0 <= i < left.len() ==> same_op(#[trigger] left[i], right[i])
}

/// A copy of a list of operations.
pub fn copy_ops(ops: &Vec<Op>) -> (copy: Vec<Op>)
    ensures
        same_ops(*ops, copy),
    decreases ops,
{
    let mut copy: Vec<Op> = Vec::new();
    let mut i: usize = 0;
    while i < ops.len()
        invariant
            i <= ops.len(),
            copy.len() == i,
            forall|j: int| 0 <= j < i ==> same_op(#[trigger] ops[j], copy[j]),
        decreases ops.len() - i,
    {
        copy.push(copy_op(&ops[i]));
        i += 1;
    }
    copy
}

/// A copy of an operation.
pub fn copy_op(op: &Op) -> (copy: Op)
    ensures
        same_op(*op, copy),
    decreases op,
{
    match op {
        Op::Refuse { kind, message } => Op::Refuse { kind: *kind, message: message.clone() },
        Op::Attempt(inner) => Op::Attempt(copy_ops(inner)),
        Op::Find { finder, action, failure } => Op::Find {
            finder: copy_value(finder),
            action: *action,
            failure: failure.clone(),
        },
        Op::FindOr { finder, action, found, missing } => Op::FindOr {
            finder: copy_value(finder),
            action: *action,
            found: copy_ops(found),
            missing: copy_ops(missing),
        },
        Op::FindAll { finder, action, each } => Op::FindAll {
            finder: copy_value(finder),
            action: *action,
            each: copy_ops(each),
        },
        Op::FetchAll { each } => Op::FetchAll { each: copy_ops(each) },
        Op::Create { payload, path, action } => Op::Create {
            payload: copy_value(payload),
            path: path.clone(),
            action: *action,
        },
        Op::Assign { payload, path } => Op::Assign {
            payload: copy_value(payload),
            path: path.clone(),
        },
        Op::IgnoreOpposite => Op::IgnoreOpposite,
        Op::Link => Op::Link,
        Op::Save { path } => Op::Save { path: path.clone() },
        Op::Delete => Op::Delete,
        Op::DropJoin => Op::DropJoin,
        Op::ClearChild => Op::ClearChild,
        Op::ClearSelf => Op::ClearSelf,
        Op::Vacate { finder } => Op::Vacate { finder: copy_value(finder) },
        Op::Transform { action, value, path, many } => Op::Transform {
            action: *action,
            value: copy_value(value),
            path: path.clone(),
            many: *many,
        },
        Op::Target(number) => Op::Target(*number),
        Op::FindJoined { filter, action } => Op::FindJoined {
            filter: copy_value(filter),
            action: *action,
        },
        Op::FindAllJoined { filter, action, each } => Op::FindAllJoined {
            filter: copy_value(filter),
            action: *action,
            each: copy_ops(each),
        },
    }
}

/// The error that an operation refuses with.
pub open spec fn refusal(kind: ErrorKind, message: Seq<char>, path: Seq<crate::path::key_path::ItemView>) -> ErrorView {
    ErrorView { kind, message, path: Some(path) }
}

/// The error for an operation that needs a target while there is none.
pub open spec fn no_target() -> ErrorView {
    ErrorView { kind: ErrorKind::InvalidOperation, message: "no target"@, path: None }
}

/// The payload as a dictionary; an empty one where it is none.
pub fn as_entries(payload: Value) -> (entries: Dictionary)
    ensures
        entries@ == crate::model::object::hydrate::row_entries(payload@),
{
    match payload {
        Value::Dictionary(entries) => entries,
        _ => Dictionary::new(),
    }
}

impl Script {
    /// The operations `ops` on the relation at `relation` of the record
    /// numbered `owner`, not started yet.
    pub fn new(owner: usize, relation: usize, path: KeyPath, ops: Vec<Op>, target: Option<usize>) -> (frame: Script)
        ensures
            frame.owner == owner,
            frame.relation == relation,
            frame.path == path,
            frame.ops == ops,
            frame.target == target,
            frame.wait == Wait::Ready,
            frame.found@.len() == 0,
            frame.cursor == 0,
            frame.body@.len() == 0,
            frame.otherwise@.len() == 0,
    {
        Script {
            owner,
            relation,
            path,
            ops,
            target,
            wait: Wait::Ready,
            found: Vec::new(),
            cursor: 0,
            body: Vec::new(),
            otherwise: Vec::new(),
            many: false,
            failure: String::new(),
            at: KeyPath::new(),
        }
    }

    /// The operations `ops` as a part of this mutation, on the target
    /// given.
    fn part(&self, ops: Vec<Op>, target: Option<usize>, path: KeyPath) -> (frame: Frame)
        ensures
            frame matches Frame::Script(script) && script.owner == self.owner && script.relation
                == self.relation && script.ops == ops && script.target == target && script.wait
                == Wait::Ready && script.path == path,
    {
        Frame::Script(Script::new(self.owner, self.relation, path, ops, target))
    }

    /// The model of the owner and the relation of the mutation.
    pub fn grounds<'a>(&self, namespace: &'a Namespace, records: &Vec<Object>) -> (found: Option<
        (&'a Model, &'a Relation),
    >)
        ensures
            match found {
                Some((model, relation)) => self.owner < records.len() && namespace.spec_model(
                    names_of(records[self.owner as int].model_path),
                ) == Some(*model) && self.relation < model.relations.len() && *relation
                    == model.relations[self.relation as int] && names_of(model.path) == names_of(
                    records[self.owner as int].model_path,
                ),
                None => !(self.owner < records.len() && namespace.spec_model(
                    names_of(records[self.owner as int].model_path),
                ) is Some && self.relation < namespace.spec_model(
                    names_of(records[self.owner as int].model_path),
                )->0.relations.len()),
            },
    {
        if self.owner >= records.len() {
            return None;
        }
        let model = match namespace.model_at_path(&records[self.owner].model_path) {
            Some(model) => model,
            None => {
                return None;
            },
        };
        if self.relation >= model.relations.len() {
            return None;
        }
        Some((model, &model.relations[self.relation]))
    }

    /// The target, where there is one among the records.
    fn aim(&self, records: &Vec<Object>) -> (target: Option<usize>)
        ensures
            match target {
                Some(number) => number < records.len() && self.target == Some(number),
                None => match self.target {
                    Some(number) => number >= records.len(),
                    None => true,
                },
            },
    {
        match self.target {
            Some(number) => if number < records.len() {
                Some(number)
            } else {
                None
            },
            None => None,
        }
    }
}

/// Whether `request` asks the store for the one record of the model at
/// `model` that `finder` names.
pub open spec fn asks_unique(request: Request, model: Seq<Seq<char>>, finder: ValueView, action: Action) -> bool {
    match request {
        Request::FindUnique { model: sought, finder: by, action: under } => names_of(sought)
            == model && by@ == finder && under == action,
        _ => false,
    }
}

/// Whether `request` asks the store for every record of the model at
/// `model` that `finder` names.
pub open spec fn asks_many(request: Request, model: Seq<Seq<char>>, finder: ValueView, action: Action) -> bool {
    match request {
        Request::FindMany { model: sought, finder: by, action: under } => names_of(sought)
            == model && by@ == finder && under == action,
        _ => false,
    }
}

/// Whether `request` asks the store for the first record of the model at
/// `model` that `finder` names.
pub open spec fn asks_first(request: Request, model: Seq<Seq<char>>, finder: ValueView, action: Action) -> bool {
    match request {
        Request::FindFirst { model: sought, finder: by, action: under } => names_of(sought)
            == model && by@ == finder && under == action,
        _ => false,
    }
}

/// A dictionary value with one entry.
pub open spec fn one_entry(key: Seq<char>, value: ValueView) -> ValueView {
    ValueView::Dictionary(entries_insert(Seq::empty(), key, value))
}

/// The finder for the record of the owner's model that holds, through the
/// relation named `relation`, the record that `finder` names.
pub open spec fn holder_finder(relation: Seq<char>, finder: ValueView) -> ValueView {
    ValueView::Dictionary(seq![("where"@, one_entry(relation, one_entry("is"@, finder)))])
}

/// The finder for the join rows between `owner` and the related records
/// that `filter` names, with those records: a join row is sought by the
/// values that link it to the owner and by the filter on the record that
/// its relation `far` leads to, and that record is asked for with it.
pub open spec fn joined_finder(owner: Object, near: Relation, far: Relation, filter: ValueView) -> ValueView {
    let by = entries_insert(
        entries_from(
            names_of(near.fields).take(near.spec_pair_count() as int),
            Seq::new(near.spec_pair_count(), |i: int| owner.value_or_null(near.references[i]@)),
        ),
        far.name@,
        one_entry("is"@, filter),
    );
    ValueView::Dictionary(
        entries_insert(
            entries_insert(Seq::empty(), "where"@, ValueView::Dictionary(by)),
            "include"@,
            one_entry(far.name@, ValueView::Bool(true)),
        ),
    )
}

/// Whether `step` asks the store for the join rows between the owner and
/// the related records that `filter` names: for the first of them, or for
/// all of them and with the operations to run on each.
pub open spec fn asks_joined(frame: Script, namespace: &Namespace, records: Seq<Object>, filter: ValueView, action: Action, each: Vec<Op>, many: bool, step: Step) -> bool {
    let model = namespace.spec_model(names_of(records[frame.owner as int].model_path))->0;
    let relation = model.relations[frame.relation as int];
    match crate::model::object::linking::spec_joint(namespace, &model, &relation) {
        Some((through, near, far)) => step matches Step::Emit(Frame::Script(next), request) && {
            let finder = joined_finder(records[frame.owner as int], near, far, filter);
            if many {
                next == (Script { wait: Wait::FoundAllJoined, body: each, ..frame }) && asks_many(
                    request,
                    names_of(through.path),
                    finder,
                    action,
                )
            } else {
                next == (Script { wait: Wait::FoundJoined, ..frame }) && asks_first(
                    request,
                    names_of(through.path),
                    finder,
                    action,
                )
            }
        },
        None => fails_with(step, crate::model::object::machine::unknown_model()),
    }
}

impl Script {
    /// Whether `step`, and the records after it, are what [`Script::run_local`]
    /// makes of `op`, an operation that needs neither the store nor another
    /// part.
    pub open spec fn run_local_step(self, namespace: &Namespace, earlier: Vec<Object>, later: Vec<Object>, op: Op, step: Step) -> bool {
        let grounded = self.owner < earlier.len() && namespace.spec_model(
            names_of(earlier[self.owner as int].model_path),
        ) is Some && self.relation < namespace.spec_model(
            names_of(earlier[self.owner as int].model_path),
        )->0.relations.len();
        let model = namespace.spec_model(names_of(earlier[self.owner as int].model_path))->0;
        let relation = model.relations[self.relation as int];
        let goes_on = step == Step::Again(Frame::Script(Script { wait: Wait::Ready, ..self }));
        &&& !ends_well(step)
        &&& later.len() == earlier.len()
        &&& (match op {
            Op::Refuse { kind, message } => fails_with(
                step,
                refusal(kind, message@, self.path@),
            ) && later@ == earlier@,
            Op::Target(number) => step == Step::Again(
                Frame::Script(Script { target: Some(number), wait: Wait::Ready, ..self }),
            ) && later@ == earlier@,
            Op::ClearSelf => if grounded {
                &&& goes_on
                &&& crate::model::object::set_teon::others_same(earlier@, later@, self.owner)
                &&& later[self.owner as int].same_besides_values(&earlier[self.owner as int])
                &&& later[self.owner as int].tracking()
                    == crate::model::object::link::assign_each(
                    earlier[self.owner as int].tracking(),
                    earlier[self.owner as int].is_new,
                    &model,
                    names_of(relation.fields).take(relation.spec_pair_count() as int),
                    Seq::new(relation.spec_pair_count(), |i: int| ValueView::Null),
                )
            } else {
                fails_with(step, crate::model::object::machine::unknown_record()) && later@
                    == earlier@
            },
            Op::ClearChild => if !grounded {
                fails_with(step, crate::model::object::machine::unknown_record()) && later@
                    == earlier@
            } else {
                match (
                    aimed(self, earlier.len() as int),
                    namespace.spec_model(names_of(relation.model_path)),
                ) {
                    (None, _) => fails_with(step, no_target()) && later@ == earlier@,
                    (Some(_), None) => fails_with(
                        step,
                        crate::model::object::machine::unknown_model(),
                    ) && later@ == earlier@,
                    (Some(number), Some(related)) => {
                        &&& goes_on
                        &&& crate::model::object::set_teon::others_same(earlier@, later@, number)
                        &&& later[number as int].same_besides_values(&earlier[number as int])
                        &&& later[number as int].tracking()
                            == crate::model::object::link::assign_each(
                            earlier[number as int].tracking(),
                            earlier[number as int].is_new,
                            &related,
                            names_of(relation.references).take(relation.spec_pair_count() as int),
                            Seq::new(relation.spec_pair_count(), |i: int| ValueView::Null),
                        )
                    },
                }
            },
            Op::IgnoreOpposite => if !grounded {
                fails_with(step, crate::model::object::machine::unknown_record()) && later@
                    == earlier@
            } else {
                match aimed(self, earlier.len() as int) {
                    None => fails_with(step, no_target()) && later@ == earlier@,
                    Some(number) => {
                        &&& goes_on
                        &&& crate::model::object::set_teon::others_same(earlier@, later@, number)
                        &&& match self.leads_back(namespace, model, relation) {
                            Some(opposite) => later[number as int].ignore_relation matches Some(
                                name,
                            ) && name@ == opposite.name@ && later[number as int] == (Object {
                                ignore_relation: later[number as int].ignore_relation,
                                ..earlier[number as int]
                            }),
                            None => later@ == earlier@,
                        }
                    },
                }
            },
            _ => fails_with(step, unexpected_reply()) && later@ == earlier@,
        })
    }

    /// The relation of the related model that leads back to `model` from
    /// `relation`, if there is one.
    pub open spec fn leads_back(self, namespace: &Namespace, model: Model, relation: Relation) -> Option<Relation> {
        match namespace.spec_model(names_of(relation.model_path)) {
            Some(related) => {
                let back = Namespace::spec_opposite_index(related, relation, names_of(model.path));
                if back < related.relations.len() {
                    Some(related.relations[back])
                } else {
                    None
                }
            },
            None => None,
        }
    }

    /// Runs an operation that needs neither the store nor another part of
    /// the operation.
    fn run_local(self, namespace: &Namespace, records: &mut Vec<Object>, op: Op) -> (step: Step)
        requires
            op is Refuse || op is IgnoreOpposite || op is ClearChild || op is ClearSelf
                || op is Target,
        ensures
            self.run_local_step(namespace, *old(records), *final(records), op, step),
    {
        match op {
            Op::Refuse { kind, message } => Step::Return(
                Err(Error { kind, message, path: Some(self.path) }),
            ),
            Op::Target(number) => Step::Again(
                Frame::Script(Script { target: Some(number), wait: Wait::Ready, ..self }),
            ),
            Op::ClearSelf => {
                let (model, relation) = match self.grounds(namespace, records) {
                    Some(found) => found,
                    None => {
                        return Step::Return(Err(no_record()));
                    },
                };
                records[self.owner].remove_linked_values_from_related_relation(model, relation);
                Step::Again(Frame::Script(Script { wait: Wait::Ready, ..self }))
            },
            Op::ClearChild => {
                let (_, relation) = match self.grounds(namespace, records) {
                    Some(found) => found,
                    None => {
                        return Step::Return(Err(no_record()));
                    },
                };
                let target = match self.aim(records) {
                    Some(target) => target,
                    None => {
                        return Step::Return(
                            Err(Error::new(ErrorKind::InvalidOperation, "no target")),
                        );
                    },
                };
                let related = match namespace.model_at_path(&relation.model_path) {
                    Some(related) => related,
                    None => {
                        return Step::Return(Err(no_model()));
                    },
                };
                Object::remove_linked_values_from_related_relation_on_related_object(
                    relation,
                    &mut records[target],
                    related,
                );
                Step::Again(Frame::Script(Script { wait: Wait::Ready, ..self }))
            },
            Op::IgnoreOpposite => {
                let (model, relation) = match self.grounds(namespace, records) {
                    Some(found) => found,
                    None => {
                        return Step::Return(Err(no_record()));
                    },
                };
                let target = match self.aim(records) {
                    Some(target) => target,
                    None => {
                        return Step::Return(
                            Err(Error::new(ErrorKind::InvalidOperation, "no target")),
                        );
                    },
                };
                match namespace.opposite_relation(relation, &model.path) {
                    (_, Some(opposite)) => {
                        records[target].ignore_relation(opposite.name.as_str());
                    },
                    _ => {},
                }
                Step::Again(Frame::Script(Script { wait: Wait::Ready, ..self }))
            },
            _ => Step::Return(Err(unexpected())),
        }
    }

    /// Whether `step`, and the records after it, are what [`Script::run_ask`]
    /// makes of `op`, an operation that asks the store or the related model.
    pub open spec fn run_ask_step(self, namespace: &Namespace, records: &Vec<Object>, op: Op, step: Step) -> bool {
        let grounded = self.owner < records.len() && namespace.spec_model(
            names_of(records[self.owner as int].model_path),
        ) is Some && self.relation < namespace.spec_model(
            names_of(records[self.owner as int].model_path),
        )->0.relations.len();
        let relation = namespace.spec_model(
            names_of(records[self.owner as int].model_path),
        )->0.relations[self.relation as int];
        &&& !ends_well(step)
        &&& !grounded ==> fails_with(step, crate::model::object::machine::unknown_record())
        &&& (grounded ==> match op {
            Op::Find { finder, action, failure } => step matches Step::Emit(
                Frame::Script(next),
                request,
            ) && next == (Script { wait: Wait::Found, failure, ..self }) && asks_unique(
                request,
                names_of(relation.model_path),
                finder@,
                action,
            ),
            Op::FindOr { finder, action, found, missing } => step matches Step::Emit(
                Frame::Script(next),
                request,
            ) && next == (Script {
                wait: Wait::FoundOr,
                body: found,
                otherwise: missing,
                ..self
            }) && asks_unique(request, names_of(relation.model_path), finder@, action),
            Op::FindAll { finder, action, each } => step matches Step::Emit(
                Frame::Script(next),
                request,
            ) && next == (Script { wait: Wait::FoundAll, body: each, ..self }) && asks_many(
                request,
                names_of(relation.model_path),
                finder@,
                action,
            ),
            Op::Transform { action, value, path, many } => step matches Step::Emit(
                Frame::Script(next),
                Request::TransformAction { model, value: sent, action: bits, path: at },
            ) && next.wait == Wait::Transformed && next.many == many && next.at@ == path@
                && next == (Script {
                wait: Wait::Transformed,
                many,
                at: next.at,
                ..self
            }) && names_of(model) == names_of(relation.model_path) && bits.0
                == action.spec_bits() && at@ == path@ && sent@ == if many {
                crate::model::object::link::normalized_many(action, value@)
            } else {
                crate::model::object::link::normalized_one(
                    action,
                    value@,
                    records[self.owner as int].spec_intrinsic_filter(&relation),
                )
            },
            Op::Vacate { finder } => step matches Step::Emit(Frame::Script(next), request)
                && next == (Script { wait: Wait::Vacating, ..self }) && asks_unique(
                request,
                names_of(records[self.owner as int].model_path),
                holder_finder(relation.name@, finder@),
                records[self.owner as int].action,
            ),
            Op::FindJoined { filter, action } => asks_joined(
                self,
                namespace,
                records@,
                filter@,
                action,
                self.body,
                false,
                step,
            ),
            Op::FindAllJoined { filter, action, each } => asks_joined(
                self,
                namespace,
                records@,
                filter@,
                action,
                each,
                true,
                step,
            ),
            _ => fails_with(step, unexpected_reply()),
        })
    }

    /// Runs an operation that asks the store for records of the related
    /// model, or the related model for a transformation.
    fn run_ask(self, namespace: &Namespace, records: &Vec<Object>, op: Op) -> (step: Step)
        requires
            op is Find || op is FindOr || op is FindAll || op is Vacate || op is Transform
                || op is FindJoined || op is FindAllJoined,
        ensures
            self.run_ask_step(namespace, records, op, step),
    {
        let (model, relation) = match self.grounds(namespace, records) {
            Some(found) => found,
            None => {
                return Step::Return(Err(no_record()));
            },
        };
        let related = copy_names(&relation.model_path);
        match op {
            Op::Find { finder, action, failure } => Step::Emit(
                Frame::Script(Script { wait: Wait::Found, failure, ..self }),
                Request::FindUnique { model: related, finder, action },
            ),
            Op::FindOr { finder, action, found, missing } => Step::Emit(
                Frame::Script(
                    Script { wait: Wait::FoundOr, body: found, otherwise: missing, ..self },
                ),
                Request::FindUnique { model: related, finder, action },
            ),
            Op::FindAll { finder, action, each } => Step::Emit(
                Frame::Script(Script { wait: Wait::FoundAll, body: each, ..self }),
                Request::FindMany { model: related, finder, action },
            ),
            Op::Vacate { finder } => {
                let mut is = Dictionary::new();
                is.insert("is".to_owned(), finder);
                let mut by = Dictionary::new();
                by.insert(relation.name.clone(), Value::Dictionary(is));
                assert(names_of(model.path) == names_of(records[self.owner as int].model_path));
                Step::Emit(
                    Frame::Script(Script { wait: Wait::Vacating, ..self }),
                    Request::FindUnique {
                        model: copy_names(&model.path),
                        finder: where_finder(Value::Dictionary(by)),
                        action: records[self.owner].action,
                    },
                )
            },
            Op::Transform { action, value, path, many } => {
                let sent = if many {
                    Object::normalize_relation_many_value(action, &value)
                } else {
                    records[self.owner].normalize_relation_one_value(relation, action, &value)
                };
                Step::Emit(
                    Frame::Script(
                        Script { wait: Wait::Transformed, many, at: path.clone(), ..self },
                    ),
                    Request::TransformAction {
                        model: related,
                        value: sent,
                        action: Action::from_u32(action.bits()),
                        path,
                    },
                )
            },
            Op::FindJoined { filter, action } => self.ask_joined(
                namespace,
                records,
                filter,
                action,
                Vec::new(),
                false,
            ),
            Op::FindAllJoined { filter, action, each } => self.ask_joined(
                namespace,
                records,
                filter,
                action,
                each,
                true,
            ),
            _ => Step::Return(Err(unexpected())),
        }
    }

    /// Asks the store for the join rows between the owner and the related
    /// records that `filter` names, with those records.
    fn ask_joined(self, namespace: &Namespace, records: &Vec<Object>, filter: Value, action: Action, each: Vec<Op>, many: bool) -> (step: Step)
        ensures
            !ends_well(step),
            step is Emit || step is Return,
            self.owner < records.len() && namespace.spec_model(
                names_of(records[self.owner as int].model_path),
            ) is Some && self.relation < namespace.spec_model(
                names_of(records[self.owner as int].model_path),
            )->0.relations.len() ==> asks_joined(
                self,
                namespace,
                records@,
                filter@,
                action,
                each,
                many,
                step,
            ),
    {
        let (model, relation) = match self.grounds(namespace, records) {
            Some(found) => found,
            None => {
                return Step::Return(Err(no_record()));
            },
        };
        let joint = match joint(namespace, model, relation) {
            Some(joint) => joint,
            None => {
                return Step::Return(Err(no_model()));
            },
        };
        let near = values_under(&records[self.owner], &joint.near.references, joint.near.pair_count());
        assert(crate::value::value::values_view(near).take(near.len() as int)
            =~= crate::value::value::values_view(near));
        let mut by = Dictionary::from_lists(&joint.near.fields, &near);
        let mut is = Dictionary::new();
        is.insert("is".to_owned(), filter);
        by.insert(joint.far.name.clone(), Value::Dictionary(is));
        let mut inclusion = Dictionary::new();
        inclusion.insert(joint.far.name.clone(), Value::Bool(true));
        let mut finder = Dictionary::new();
        finder.insert("where".to_owned(), Value::Dictionary(by));
        finder.insert("include".to_owned(), Value::Dictionary(inclusion));
        let through = copy_names(&joint.through.path);
        if many {
            Step::Emit(
                Frame::Script(Script { wait: Wait::FoundAllJoined, body: each, ..self }),
                Request::FindMany { model: through, finder: Value::Dictionary(finder), action },
            )
        } else {
            Step::Emit(
                Frame::Script(Script { wait: Wait::FoundJoined, ..self }),
                Request::FindFirst { model: through, finder: Value::Dictionary(finder), action },
            )
        }
    }
}

/// The part of the operation that `step` starts.
pub open spec fn callee(step: Step) -> Frame {
    match step {
        Step::Call(_, callee) => callee,
        _ => arbitrary(),
    }
}

/// The target of a mutation, where it is one of `count` records.
pub open spec fn aimed(frame: Script, count: int) -> Option<usize> {
    match frame.target {
        Some(number) => if number < count {
            Some(number)
        } else {
            None
        },
        None => None,
    }
}

/// Whether `step`, and the records after it, start the part of the
/// operation that does `op`.
///
/// The operations on the target fail where the mutation has none. A
/// creation adds a blank record of the related model, makes it the target
/// and assigns the payload to it. Every other operation leaves the records
/// as they are.
pub open spec fn started(frame: Script, namespace: &Namespace, earlier: Seq<Object>, later: Seq<Object>, op: Op, step: Step) -> bool {
    let grounded = frame.owner < earlier.len() && namespace.spec_model(
        names_of(earlier[frame.owner as int].model_path),
    ) is Some && frame.relation < namespace.spec_model(
        names_of(earlier[frame.owner as int].model_path),
    )->0.relations.len();
    let relation = namespace.spec_model(
        names_of(earlier[frame.owner as int].model_path),
    )->0.relations[frame.relation as int];
    let waits_for_child = step matches Step::Call(Frame::Script(next), _) && next == (Script {
        wait: Wait::Child,
        ..frame
    });
    match op {
        Op::Attempt(inner) => later == earlier && (step matches Step::Call(
            Frame::Script(next),
            Frame::Script(part),
        ) && next == (Script { wait: Wait::Forgiven, ..frame }) && part.begins(
            frame,
            inner,
            frame.target,
        )),
        Op::FetchAll { each } => later == earlier && if grounded {
            step matches Step::Call(Frame::Script(next), Frame::Fetch(fetch)) && next == (Script {
                wait: Wait::Fetched,
                body: each,
                ..frame
            }) && fetch.object == frame.owner && fetch.key@ == relation.name@ && fetch.many
                && fetch.arguments is None && !fetch.reuse && fetch.stage
                == crate::model::object::fetch::FetchStage::Begin
        } else {
            fails_with(step, crate::model::object::machine::unknown_record())
        },
        Op::Create { payload, path, action } => if !grounded {
            later == earlier && fails_with(step, crate::model::object::machine::unknown_record())
        } else {
            match namespace.spec_model(names_of(relation.model_path)) {
                Some(related) => later.len() == earlier.len() + 1 && later.drop_last() == earlier
                    && later.last().is_blank(
                    earlier[frame.owner as int].request_ctx,
                    earlier[frame.owner as int].transaction_ctx,
                    &related,
                    action,
                ) && (step matches Step::Call(Frame::Script(next), Frame::SetTeon(set)) && next
                    == (Script {
                    wait: Wait::Child,
                    target: Some(earlier.len() as usize),
                    ..frame
                }) && set.starts(earlier.len() as usize, payload@, path)),
                None => later == earlier && fails_with(
                    step,
                    crate::model::object::machine::unknown_model(),
                ),
            }
        },
        Op::Assign { payload, path } => later == earlier && match aimed(frame, earlier.len() as int) {
            Some(number) => waits_for_child && match callee(step) {
                Frame::SetTeon(set) => set.starts(number, payload@, path),
                _ => false,
            },
            None => fails_with(step, no_target()),
        },
        Op::Link => later == earlier && match aimed(frame, earlier.len() as int) {
            Some(number) => waits_for_child && match callee(step) {
                Frame::Link(link) => link == (Link {
                    parent: frame.owner,
                    child: number,
                    relation: frame.relation,
                    path: link.path,
                    stage: crate::model::object::linking::LinkStage::Begin,
                    linked: false,
                }) && link.path@ == frame.path@,
                _ => false,
            },
            None => fails_with(step, no_target()),
        },
        Op::Save { path } => later == earlier && match aimed(frame, earlier.len() as int) {
            Some(number) => waits_for_child && match callee(step) {
                Frame::Save(save) => save == (Save {
                    object: number,
                    path,
                    ignore_required_relation: false,
                    dirty: false,
                    stage: crate::model::object::save::SaveStage::Begin,
                }),
                _ => false,
            },
            None => fails_with(step, no_target()),
        },
        Op::Delete => later == earlier && match aimed(frame, earlier.len() as int) {
            Some(number) => waits_for_child && match callee(step) {
                Frame::Delete(delete) => delete.object == number && delete.mode
                    == DeleteMode::Database && delete.path@ == frame.path@ && delete.stage
                    == crate::model::object::delete::DeleteStage::Begin && delete.index == 0
                    && delete.found@.len() == 0 && delete.cursor == 0,
                _ => false,
            },
            None => fails_with(step, no_target()),
        },
        Op::DropJoin => later == earlier && match aimed(frame, earlier.len() as int) {
            Some(number) => waits_for_child && match callee(step) {
                Frame::Join(join) => join == (Join {
                    parent: frame.owner,
                    child: number,
                    relation: frame.relation,
                    path: join.path,
                    create: false,
                    stage: crate::model::object::linking::JoinStage::Begin,
                    join: 0,
                }) && join.path@ == frame.path@,
                _ => false,
            },
            None => fails_with(step, no_target()),
        },
        _ => later == earlier && fails_with(step, unexpected_reply()),
    }
}

/// The rows of the related model that a list of join rows leads to: the
/// first of the rows that each join row holds under the name `key` of its
/// relation to that model, where it holds one.
pub open spec fn joined_rows(namespace: &Namespace, through: &Model, key: Seq<char>, rows: Seq<ValueView>) -> Seq<ValueView>
    decreases rows.len(),
{
    if rows.len() == 0 {
        Seq::empty()
    } else {
        let nested = nested_rows(namespace, through, key, rows.last());
        if nested.len() > 0 {
            joined_rows(namespace, through, key, rows.drop_last()).push(nested[0])
        } else {
            joined_rows(namespace, through, key, rows.drop_last())
        }
    }
}

impl Script {
    /// Whether `later` is `earlier` with one more record for each of the
    /// rows of the related model that the join rows `rows` lead to, and
    /// `numbers` are the numbers of those records.
    pub open spec fn joined(self, namespace: &Namespace, earlier: Seq<Object>, later: Seq<Object>, through: Model, key: Seq<char>, rows: Seq<ValueView>, numbers: Seq<usize>) -> bool {
        let reached = joined_rows(namespace, &through, key, rows);
        let linking = through.spec_relation(key)->0;
        &&& later.len() == earlier.len() + reached.len()
        &&& crate::model::object::to_json::grown(earlier, later)
        &&& numbers == Seq::new(reached.len(), |k: int| (earlier.len() + k) as usize)
        &&& forall|k: int|
            0 <= k < reached.len() ==> taken_below(
                #[trigger] later[earlier.len() + k],
                earlier[self.owner as int],
                &namespace.spec_model(names_of(linking.model_path))->0,
                reached[k],
                linking.is_vec,
            )
    }

    /// Whether the mutation knows its owner, the owner's model and its
    /// relation.
    pub open spec fn grounded(self, namespace: &Namespace, records: Seq<Object>) -> bool {
        self.owner < records.len() && namespace.spec_model(
            names_of(records[self.owner as int].model_path),
        ) is Some && self.relation < namespace.spec_model(
            names_of(records[self.owner as int].model_path),
        )->0.relations.len()
    }

    /// The model of the owner.
    pub open spec fn home(self, namespace: &Namespace, records: Seq<Object>) -> Model {
        namespace.spec_model(names_of(records[self.owner as int].model_path))->0
    }

    /// The relation of the mutation.
    pub open spec fn link(self, namespace: &Namespace, records: Seq<Object>) -> Relation {
        self.home(namespace, records).relations[self.relation as int]
    }

    /// Whether `later` is `earlier` with one more record: the row `row` of
    /// `model` as the store found it for the owner.
    pub open spec fn took_in(self, earlier: Seq<Object>, later: Seq<Object>, model: &Model, row: ValueView) -> bool {
        &&& later.len() == earlier.len() + 1
        &&& crate::model::object::to_json::grown(earlier, later)
        &&& found_as(
            later[earlier.len() as int],
            earlier[self.owner as int],
            model,
            row,
            earlier[self.owner as int].action,
        )
    }

    /// Whether `step` fails for want of the owner, of its model or of the
    /// related model, where one of them is wanting, and `found` holds else
    /// of the related model.
    pub open spec fn with_related(self, namespace: &Namespace, records: Seq<Object>, step: Step, found: spec_fn(Model) -> bool) -> bool {
        if !self.grounded(namespace, records) {
            fails_with(step, crate::model::object::machine::unknown_record())
        } else {
            match namespace.spec_model(names_of(self.link(namespace, records).model_path)) {
                Some(related) => found(related),
                None => fails_with(step, crate::model::object::machine::unknown_model()),
            }
        }
    }

    /// Whether the mutation is a part of `whole` that has not started yet:
    /// it runs `ops` on `target`, for the same owner and relation and at
    /// the same path.
    pub open spec fn begins(self, whole: Script, ops: Vec<Op>, target: Option<usize>) -> bool {
        &&& self.owner == whole.owner
        &&& self.relation == whole.relation
        &&& self.path@ == whole.path@
        &&& self.ops == ops
        &&& self.target == target
        &&& self.wait == Wait::Ready
    }
}

impl Script {
    /// Whether `step`, and the records after it, are what [`Script::run_call`]
    /// makes of `op`, an operation that another part of the operation does.
    pub open spec fn run_call_step(self, namespace: &Namespace, earlier: Vec<Object>, later: Vec<Object>, op: Op, step: Step) -> bool {
        &&& !ends_well(step)
        &&& !(step is Emit)
        &&& crate::model::object::to_json::grown(earlier@, later@)
        &&& !(op is Create) ==> later@ == earlier@
        &&& started(self, namespace, earlier@, later@, op, step)
    }

    /// Runs an operation that is done by another part of the operation.
    fn run_call(self, namespace: &Namespace, records: &mut Vec<Object>, op: Op) -> (step: Step)
        requires
            op is Attempt || op is FetchAll || op is Create || op is Assign || op is Link
                || op is Save || op is Delete || op is DropJoin,
        ensures
            self.run_call_step(namespace, *old(records), *final(records), op, step),
    {
        let aim = self.aim(records);
        match op {
            Op::Attempt(inner) => {
                let part = self.part(inner, self.target, self.path.clone());
                Step::Call(Frame::Script(Script { wait: Wait::Forgiven, ..self }), part)
            },
            Op::FetchAll { each } => {
                let (_, relation) = match self.grounds(namespace, records) {
                    Some(found) => found,
                    None => {
                        return Step::Return(Err(no_record()));
                    },
                };
                let fetch = Fetch::new(self.owner, relation.name.clone(), true, None);
                Step::Call(
                    Frame::Script(Script { wait: Wait::Fetched, body: each, ..self }),
                    Frame::Fetch(fetch),
                )
            },
            Op::Create { payload, path, action } => {
                let (_, relation) = match self.grounds(namespace, records) {
                    Some(found) => found,
                    None => {
                        return Step::Return(Err(no_record()));
                    },
                };
                let related = match namespace.model_at_path(&relation.model_path) {
                    Some(related) => related,
                    None => {
                        return Step::Return(Err(no_model()));
                    },
                };
                let record = Object::new(
                    records[self.owner].request_ctx,
                    records[self.owner].transaction_ctx,
                    related,
                    action,
                );
                let number = records.len();
                records.push(record);
                assert(records@.drop_last() =~= old(records)@);
                let set = SetTeon::new(number, as_entries(payload), path, false);
                Step::Call(
                    Frame::Script(Script { wait: Wait::Child, target: Some(number), ..self }),
                    Frame::SetTeon(set),
                )
            },
            Op::Assign { payload, path } => match aim {
                Some(target) => Step::Call(
                    Frame::Script(Script { wait: Wait::Child, ..self }),
                    Frame::SetTeon(SetTeon::new(target, as_entries(payload), path, false)),
                ),
                None => Step::Return(Err(Error::new(ErrorKind::InvalidOperation, "no target"))),
            },
            Op::Link => match aim {
                Some(target) => {
                    let link = Link::new(self.owner, target, self.relation, self.path.clone());
                    Step::Call(
                        Frame::Script(Script { wait: Wait::Child, ..self }),
                        Frame::Link(link),
                    )
                },
                None => Step::Return(Err(Error::new(ErrorKind::InvalidOperation, "no target"))),
            },
            Op::Save { path } => match aim {
                Some(target) => Step::Call(
                    Frame::Script(Script { wait: Wait::Child, ..self }),
                    Frame::Save(Save::new(target, path, false)),
                ),
                None => Step::Return(Err(Error::new(ErrorKind::InvalidOperation, "no target"))),
            },
            Op::Delete => match aim {
                Some(target) => {
                    let delete = Delete::new(target, self.path.clone(), DeleteMode::Database);
                    Step::Call(
                        Frame::Script(Script { wait: Wait::Child, ..self }),
                        Frame::Delete(delete),
                    )
                },
                None => Step::Return(Err(Error::new(ErrorKind::InvalidOperation, "no target"))),
            },
            Op::DropJoin => match aim {
                Some(target) => {
                    let join = Join::new(
                        self.owner,
                        target,
                        self.relation,
                        self.path.clone(),
                        false,
                    );
                    Step::Call(
                        Frame::Script(Script { wait: Wait::Child, ..self }),
                        Frame::Join(join),
                    )
                },
                None => Step::Return(Err(Error::new(ErrorKind::InvalidOperation, "no target"))),
            },
            _ => Step::Return(Err(unexpected())),
        }
    }

    /// Whether `step`, and the records after it, are what the mutation makes of
    /// `op`, by the kind of the operation.
    pub open spec fn ran(self, namespace: &Namespace, earlier: Vec<Object>, later: Vec<Object>, op: Op, step: Step) -> bool {
        if op is Refuse || op is IgnoreOpposite || op is ClearChild || op is ClearSelf
            || op is Target {
            self.run_local_step(namespace, earlier, later, op, step)
        } else if op is Find || op is FindOr || op is FindAll || op is Vacate || op is Transform
            || op is FindJoined || op is FindAllJoined {
            self.run_ask_step(namespace, &earlier, op, step) && later@ == earlier@
        } else {
            self.run_call_step(namespace, earlier, later, op, step)
        }
    }

    /// Whether `step`, and the records after it, are what [`Script::next`]
    /// makes of the mutation as it stands: a mutation with no operation left
    /// ends well; else the first operation is taken off and run on the mutation
    /// that holds the rest.
    pub open spec fn next_step(self, namespace: &Namespace, earlier: Vec<Object>, later: Vec<Object>, step: Step) -> bool {
        &&& crate::model::object::to_json::grown_or_same(earlier@, later@)
        &&& self.ops.len() == 0 ==> step == Step::Return(Ok(Returned::Done)) && later@
            == earlier@
        &&& self.ops.len() > 0 ==> !ends_well(step)
        &&& self.ops.len() > 0 ==> match self.ops[0] {
            Op::Refuse { kind, message } => fails_with(
                step,
                refusal(kind, message@, self.path@),
            ) && later@ == earlier@,
            _ => true,
        }
        &&& self.ops.len() > 0 ==> exists|rest: Script|
            rest.ops@ == self.ops@.drop_first() && rest == (Script {
                ops: rest.ops,
                wait: Wait::Ready,
                ..self
            }) && #[trigger] rest.ran(namespace, earlier, later, self.ops[0], step)
    }

    /// Runs the next operation, or ends the mutation where none is left.
    pub fn next(self, namespace: &Namespace, records: &mut Vec<Object>) -> (step: Step)
        ensures
            self.next_step(namespace, *old(records), *final(records), step),
    {
        if self.ops.len() == 0 {
            return Step::Return(Ok(Returned::Done));
        }
        let Script {
            owner,
            relation,
            path,
            ops,
            target,
            wait,
            found,
            cursor,
            body,
            otherwise,
            many,
            failure,
            at,
        } = self;
        let mut ops = ops;
        let op = ops.remove(0);
        let frame = Script {
            owner,
            relation,
            path,
            ops,
            target,
            wait: Wait::Ready,
            found,
            cursor,
            body,
            otherwise,
            many,
            failure,
            at,
        };
        let ghost rest = frame;
        let ghost first = op;
        assert(rest.ops@ =~= self.ops@.drop_first());
        let step = match op {
            Op::Refuse { .. } => frame.run_local(namespace, records, op),
            Op::IgnoreOpposite => frame.run_local(namespace, records, op),
            Op::ClearChild => frame.run_local(namespace, records, op),
            Op::ClearSelf => frame.run_local(namespace, records, op),
            Op::Target(_) => frame.run_local(namespace, records, op),
            Op::Find { .. } => frame.run_ask(namespace, records, op),
            Op::FindOr { .. } => frame.run_ask(namespace, records, op),
            Op::FindAll { .. } => frame.run_ask(namespace, records, op),
            Op::Vacate { .. } => frame.run_ask(namespace, records, op),
            Op::Transform { .. } => frame.run_ask(namespace, records, op),
            Op::FindJoined { .. } => frame.run_ask(namespace, records, op),
            Op::FindAllJoined { .. } => frame.run_ask(namespace, records, op),
            _ => frame.run_call(namespace, records, op),
        };
        assert(rest.ran(namespace, *old(records), *records, first, step));
        step
    }
}

/// The error for a record that the store failed to find.
pub open spec fn find_failure(message: Seq<char>, path: Seq<crate::path::key_path::ItemView>) -> ErrorView {
    ErrorView { kind: ErrorKind::ValueError, message, path: Some(path) }
}

/// The error for a record that would be taken away from a relation that
/// must hold one.
pub open spec fn cannot_disconnect_previous() -> ErrorView {
    ErrorView {
        kind: ErrorKind::CannotDisconnectPreviousRelation,
        message: "Cannot disconnect previous relation."@,
        path: None,
    }
}

impl Script {
    /// Adds a record for each of `rows`, rows of `model`, and hands back
    /// their numbers.
    fn add_rows(&self, namespace: &Namespace, records: &mut Vec<Object>, model: &Model, rows: &Vec<Value>) -> (found: Vec<usize>)
        requires
            self.owner < old(records).len(),
        ensures
            crate::model::object::to_json::grown(old(records)@, final(records)@),
            final(records).len() == old(records).len() + rows.len(),
            found@ == Seq::new(rows.len() as nat, |i: int| (old(records).len() + i) as usize),
            forall|i: int|
                0 <= i < rows.len() ==> found_as(
                    #[trigger] final(records)[old(records).len() + i],
                    old(records)[self.owner as int],
                    model,
                    rows[i]@,
                    old(records)[self.owner as int].action,
                ),
    {
        let action = records[self.owner].action;
        let mut found: Vec<usize> = Vec::new();
        let mut i: usize = 0;
        while i < rows.len()
            invariant
                i <= rows.len(),
                self.owner < old(records).len(),
                records.len() == old(records).len() + i,
                crate::model::object::to_json::grown(old(records)@, records@),
                found@ == Seq::new(i as nat, |k: int| (old(records).len() + k) as usize),
                action == old(records)[self.owner as int].action,
                forall|k: int|
                    0 <= k < i ==> found_as(
                        #[trigger] records[old(records).len() + k],
                        old(records)[self.owner as int],
                        model,
                        rows[k]@,
                        action,
                    ),
            decreases rows.len() - i,
        {
            let number = add_found(namespace, records, self.owner, model, &rows[i], action);
            found.push(number);
            assert(found@ =~= Seq::new((i + 1) as nat, |k: int| (old(records).len() + k) as usize));
            i += 1;
        }
        found
    }

    /// Whether `step`, and the records after it, are what
    /// [`Script::after_found`] makes of the mutation as it stands.
    pub open spec fn after_found_step(self, namespace: &Namespace, earlier: Vec<Object>, later: Vec<Object>, reply: Reply, step: Step) -> bool {
        &&& !ends_well(step)
        &&& !(step is Emit)
        &&& crate::model::object::to_json::grown(earlier@, later@)
        &&& match reply {
            Reply::Row(Err(_)) => fails_with(step, find_failure(self.failure@, self.path@))
                && later@ == earlier@,
            Reply::Row(Ok(None)) => fails_with(step, not_found()) && later@ == earlier@,
            Reply::Row(Ok(Some(row))) => (step is Return ==> later@ == earlier@)
                && self.with_related(
                namespace,
                earlier@,
                step,
                |related: Model|
                    self.took_in(earlier@, later@, &related, row@) && step == Step::Again(
                        Frame::Script(
                            Script {
                                target: Some(earlier.len() as usize),
                                wait: Wait::Ready,
                                ..self
                            },
                        ),
                    ),
            ),
            _ => fails_with(step, unexpected_reply()) && later@ == earlier@,
        }
    }

    /// Takes in the record that the store found: it becomes the target. No
    /// record is reported as not found, a failure of the store as a value
    /// error with the message of the operation.
    pub fn after_found(self, namespace: &Namespace, records: &mut Vec<Object>, reply: Reply) -> (step: Step)
        ensures
            self.after_found_step(namespace, *old(records), *final(records), reply, step),
    {
        let row = match reply {
            Reply::Row(Ok(Some(row))) => row,
            Reply::Row(Ok(None)) => {
                return Step::Return(Err(Error::new(ErrorKind::NotFound, "object is not found")));
            },
            Reply::Row(Err(_)) => {
                return Step::Return(
                    Err(
                        Error {
                            kind: ErrorKind::ValueError,
                            message: self.failure,
                            path: Some(self.path),
                        },
                    ),
                );
            },
            _ => {
                return Step::Return(Err(unexpected()));
            },
        };
        let (_, relation) = match self.grounds(namespace, records) {
            Some(found) => found,
            None => {
                return Step::Return(Err(no_record()));
            },
        };
        let related = match namespace.model_at_path(&relation.model_path) {
            Some(related) => related,
            None => {
                return Step::Return(Err(no_model()));
            },
        };
        let action = records[self.owner].action;
        let number = add_found(namespace, records, self.owner, related, &row, action);
        Step::Again(Frame::Script(Script { target: Some(number), wait: Wait::Ready, ..self }))
    }

    /// Whether `step`, and the records after it, are what
    /// [`Script::after_found_or`] makes of the mutation as it stands.
    pub open spec fn after_found_or_step(self, namespace: &Namespace, earlier: Vec<Object>, later: Vec<Object>, reply: Reply, step: Step) -> bool {
        let waits = step matches Step::Call(Frame::Script(next), _) && next.body.len() == 0
            && next.otherwise.len() == 0 && next == (Script {
            wait: Wait::Child,
            body: next.body,
            otherwise: next.otherwise,
            ..self
        });
        &&& !ends_well(step)
        &&& !(step is Emit)
        &&& crate::model::object::to_json::grown(earlier@, later@)
        &&& match reply {
            Reply::Row(Ok(Some(row))) => (step is Return ==> later@ == earlier@)
                && self.with_related(
                namespace,
                earlier@,
                step,
                |related: Model|
                    self.took_in(earlier@, later@, &related, row@) && waits && match callee(step) {
                        Frame::Script(part) => part.begins(
                            self,
                            self.body,
                            Some(earlier.len() as usize),
                        ),
                        _ => false,
                    },
            ),
            Reply::Row(Ok(None)) => later@ == earlier@ && waits && match callee(step) {
                Frame::Script(part) => part.begins(self, self.otherwise, None),
                _ => false,
            },
            Reply::Row(Err(cause)) => step == Step::Return(Err(cause)) && later@ == earlier@,
            _ => fails_with(step, unexpected_reply()) && later@ == earlier@,
        }
    }

    /// Takes in the record that the store found or did not find: where
    /// there is one it becomes the target of the operations that run then;
    /// where there is none the other operations run. A failure of the store
    /// ends the mutation with that failure.
    pub fn after_found_or(self, namespace: &Namespace, records: &mut Vec<Object>, reply: Reply) -> (step: Step)
        ensures
            self.after_found_or_step(namespace, *old(records), *final(records), reply, step),
    {
        let found = match reply {
            Reply::Row(Ok(found)) => found,
            Reply::Row(Err(cause)) => {
                return Step::Return(Err(cause));
            },
            _ => {
                return Step::Return(Err(unexpected()));
            },
        };
        let Script {
            owner,
            relation,
            path,
            ops,
            target,
            wait,
            found: held,
            cursor,
            body,
            otherwise,
            many,
            failure,
            at,
        } = self;
        let frame = Script {
            owner,
            relation,
            path,
            ops,
            target,
            wait: Wait::Child,
            found: held,
            cursor,
            body: Vec::new(),
            otherwise: Vec::new(),
            many,
            failure,
            at,
        };
        match found {
            Some(row) => {
                let (_, link) = match frame.grounds(namespace, records) {
                    Some(found) => found,
                    None => {
                        return Step::Return(Err(no_record()));
                    },
                };
                let related = match namespace.model_at_path(&link.model_path) {
                    Some(related) => related,
                    None => {
                        return Step::Return(Err(no_model()));
                    },
                };
                let action = records[frame.owner].action;
                let number = add_found(namespace, records, frame.owner, related, &row, action);
                let part = frame.part(body, Some(number), frame.path.clone());
                Step::Call(Frame::Script(frame), part)
            },
            None => {
                let part = frame.part(otherwise, None, frame.path.clone());
                Step::Call(Frame::Script(frame), part)
            },
        }
    }

    /// Whether `step`, and the records after it, are what
    /// [`Script::after_found_all`] makes of the mutation as it stands.
    pub open spec fn after_found_all_step(self, namespace: &Namespace, earlier: Vec<Object>, later: Vec<Object>, input: Input, step: Step) -> bool {
        &&& !ends_well(step)
        &&& !(step is Emit)
        &&& crate::model::object::to_json::grown(earlier@, later@)
        &&& (match input {
            Input::Reply(Reply::Rows(Err(cause))) => step == Step::Return(Err(cause)) && later@
                == earlier@,
            Input::Returned(Err(cause)) => step == Step::Return(Err(cause)) && later@
                == earlier@,
            Input::Returned(Ok(Returned::Records(found))) => step == Step::Again(
                Frame::Script(Script { found, cursor: 0, wait: Wait::Each, ..self }),
            ) && later@ == earlier@,
            Input::Reply(Reply::Rows(Ok(rows))) => (step is Return ==> later@ == earlier@)
                && self.with_related(
                namespace,
                earlier@,
                step,
                |related: Model|
                    later.len() == earlier.len() + rows.len() && (forall|i: int|
                        0 <= i < rows.len() ==> found_as(
                            #[trigger] later[earlier.len() + i],
                            earlier[self.owner as int],
                            &related,
                            rows[i]@,
                            earlier[self.owner as int].action,
                        )) && (step matches Step::Again(Frame::Script(next)) && next.found@
                        == Seq::new(rows.len() as nat, |i: int| (earlier.len() + i) as usize)
                        && next == (Script {
                        found: next.found,
                        cursor: 0,
                        wait: Wait::Each,
                        ..self
                    })),
            ),
            _ => fails_with(step, unexpected_reply()) && later@ == earlier@,
        })
    }

    /// Takes in the records that the store found, or the records of the
    /// relation that were fetched: the operations of the loop run on each
    /// of them.
    pub fn after_found_all(self, namespace: &Namespace, records: &mut Vec<Object>, input: Input) -> (step: Step)
        ensures
            self.after_found_all_step(namespace, *old(records), *final(records), input, step),
    {
        let found = match input {
            Input::Reply(Reply::Rows(Ok(rows))) => {
                let (_, relation) = match self.grounds(namespace, records) {
                    Some(found) => found,
                    None => {
                        return Step::Return(Err(no_record()));
                    },
                };
                let related = match namespace.model_at_path(&relation.model_path) {
                    Some(related) => related,
                    None => {
                        return Step::Return(Err(no_model()));
                    },
                };
                self.add_rows(namespace, records, related, &rows)
            },
            Input::Reply(Reply::Rows(Err(cause))) => {
                return Step::Return(Err(cause));
            },
            Input::Returned(Ok(Returned::Records(found))) => found,
            Input::Returned(Err(cause)) => {
                return Step::Return(Err(cause));
            },
            _ => {
                return Step::Return(Err(unexpected()));
            },
        };
        Step::Again(Frame::Script(Script { found, cursor: 0, wait: Wait::Each, ..self }))
    }

    /// Whether `step`, and the records after it, are what [`Script::each`]
    /// makes of the mutation as it stands.
    pub open spec fn each_step(self, input: Input, step: Step) -> bool {
        &&& !ends_well(step)
        &&& !(step is Emit)
        &&& (match input {
            Input::Returned(Err(cause)) => step == Step::Return(Err(cause)),
            Input::Returned(Ok(_)) => if self.cursor < usize::MAX {
                step == Step::Again(
                    Frame::Script(Script { cursor: (self.cursor + 1) as usize, ..self }),
                )
            } else {
                fails_with(step, unexpected_reply())
            },
            Input::Start => if self.cursor >= self.found.len() {
                step == Step::Again(Frame::Script(Script { wait: Wait::Ready, ..self }))
            } else {
                step matches Step::Call(Frame::Script(next), Frame::Script(part)) && next
                    == self && part.target == Some(self.found[self.cursor as int])
                    && same_ops(self.body, part.ops) && part.owner == self.owner
                    && part.relation == self.relation
            },
            _ => fails_with(step, unexpected_reply()),
        })
    }

    /// Runs the operations of the loop on the next of the records found,
    /// or goes on with the operations after the loop where every record is
    /// done.
    pub fn each(self, input: Input) -> (step: Step)
        ensures
            self.each_step(input, step),
    {
        match input {
            Input::Returned(Err(cause)) => Step::Return(Err(cause)),
            Input::Returned(Ok(_)) => {
                if self.cursor == usize::MAX {
                    return Step::Return(Err(unexpected()));
                }
                Step::Again(Frame::Script(Script { cursor: self.cursor + 1, ..self }))
            },
            Input::Start => {
                if self.cursor >= self.found.len() {
                    return Step::Again(Frame::Script(Script { wait: Wait::Ready, ..self }));
                }
                let part = self.part(
                    copy_ops(&self.body),
                    Some(self.found[self.cursor]),
                    self.path.clone(),
                );
                Step::Call(Frame::Script(self), part)
            },
            _ => Step::Return(Err(unexpected())),
        }
    }
}

/// The error for an action that is no nested action.
pub open spec fn unknown_action(path: Seq<crate::path::key_path::ItemView>) -> ErrorView {
    ErrorView { kind: ErrorKind::ValueError, message: "unexpected action"@, path: Some(path) }
}

impl Script {
    /// Whether `step`, and the records after it, are what
    /// [`Script::after_transformed`] makes of the mutation as it stands.
    pub open spec fn after_transformed_step(self, namespace: &Namespace, records: &Vec<Object>, reply: Reply, step: Step) -> bool {
        &&& !ends_well(step)
        &&& !(step is Emit)
        &&& match reply {
            Reply::Transformed(Err(cause)) => step == Step::Return(Err(cause)),
            Reply::Transformed(Ok((value, action))) => match NestedAction::spec_from_bits(
                action.0,
            ) {
                None => fails_with(step, unknown_action(self.at@)),
                Some(kind) => if !self.grounded(namespace, records@) {
                    fails_with(step, crate::model::object::machine::unknown_record())
                } else {
                    step matches Step::Call(Frame::Script(next), Frame::Script(part)) && next
                        == (Script { wait: Wait::Child, ..self }) && part.owner == self.owner
                        && part.relation == self.relation && part.path@ == self.at@
                        && part.target is None && part.wait == Wait::Ready && {
                        let owner = records[self.owner as int];
                        let relation = self.link(namespace, records@);
                        if self.many {
                            owner.perform_relation_manipulation_many_inner_step(
                                &relation,
                                kind,
                                &value,
                                &self.at,
                                part.ops,
                            )
                        } else {
                            owner.perform_relation_manipulation_one_inner_step(
                                &relation,
                                match self.leads_back(
                                    namespace,
                                    self.home(namespace, records@),
                                    relation,
                                ) {
                                    Some(opposite) => Some(opposite.is_vec),
                                    None => None,
                                },
                                kind,
                                &value,
                                &self.at,
                                part.ops,
                            )
                        }
                    }
                },
            },
            _ => fails_with(step, unexpected_reply()),
        }
    }

    /// Takes in the payload and the action as the related model
    /// transformed them: the plan for the action runs next.
    pub fn after_transformed(self, namespace: &Namespace, records: &Vec<Object>, reply: Reply) -> (step: Step)
        ensures
            self.after_transformed_step(namespace, records, reply, step),
    {
        let (value, action) = match reply {
            Reply::Transformed(Ok(transformed)) => transformed,
            Reply::Transformed(Err(cause)) => {
                return Step::Return(Err(cause));
            },
            _ => {
                return Step::Return(Err(unexpected()));
            },
        };
        let kind = match NestedAction::from_bits(action.to_u32()) {
            Some(kind) => kind,
            None => {
                return Step::Return(
                    Err(Error::at(ErrorKind::ValueError, "unexpected action", &self.at)),
                );
            },
        };
        let (model, relation) = match self.grounds(namespace, records) {
            Some(found) => found,
            None => {
                return Step::Return(Err(no_record()));
            },
        };
        let owner = &records[self.owner];
        let ops = if self.many {
            owner.perform_relation_manipulation_many_inner(relation, kind, &value, &self.at)
        } else {
            let opposite_is_vec = match namespace.opposite_relation(relation, &model.path) {
                (_, Some(opposite)) => Some(opposite.is_vec),
                _ => None,
            };
            owner.perform_relation_manipulation_one_inner(
                relation,
                opposite_is_vec,
                kind,
                &value,
                &self.at,
            )
        };
        let part = self.part(ops, None, self.at.clone());
        Step::Call(Frame::Script(Script { wait: Wait::Child, ..self }), part)
    }

    /// Whether `step`, and the records after it, are what
    /// [`Script::after_vacating`] makes of the mutation as it stands.
    pub open spec fn after_vacating_step(self, namespace: &Namespace, earlier: Vec<Object>, later: Vec<Object>, reply: Reply, step: Step) -> bool {
        &&& !ends_well(step)
        &&& !(step is Emit)
        &&& crate::model::object::to_json::grown(earlier@, later@)
        &&& match reply {
            Reply::Row(Ok(Some(row))) => if !self.grounded(namespace, earlier@) {
                fails_with(step, crate::model::object::machine::unknown_record()) && later@
                    == earlier@
            } else if self.link(namespace, earlier@).is_required {
                fails_with(step, cannot_disconnect_previous()) && later@ == earlier@
            } else {
                let relation = self.link(namespace, earlier@);
                let holder = later[earlier.len() as int];
                &&& later.len() == earlier.len() + 1
                &&& forall|i: int|
                    0 <= i < relation.fields.len() ==> holder.value_or_null(
                        #[trigger] relation.fields[i]@,
                    ) is Null
                &&& forall|key: Seq<char>|
                    !names_of(relation.fields).contains(key) ==> #[trigger] holder.value_or_null(
                        key,
                    ) == value_in(
                        crate::model::object::hydrate::hydrate_entries(
                            crate::model::object::arena::blank(),
                            true,
                            &self.home(namespace, earlier@),
                            crate::model::object::hydrate::row_entries(row@),
                        ).values,
                        key,
                    )
                &&& names_of(holder.model_path) == names_of(self.home(namespace, earlier@).path)
                &&& !holder.is_new
                &&& step == Step::Call(
                    Frame::Script(Script { wait: Wait::Child, ..self }),
                    Frame::Save(
                        Save {
                            object: earlier.len() as usize,
                            path: callee(step)->Save_0.path,
                            ignore_required_relation: false,
                            dirty: false,
                            stage: crate::model::object::save::SaveStage::Begin,
                        },
                    ),
                )
                &&& callee(step)->Save_0.path@.len() == 0
            },
            Reply::Row(Ok(None)) => step == Step::Again(
                Frame::Script(Script { wait: Wait::Ready, ..self }),
            ) && later@ == earlier@,
            Reply::Row(Err(cause)) => step == Step::Return(Err(cause)) && later@ == earlier@,
            _ => fails_with(step, unexpected_reply()) && later@ == earlier@,
        }
    }

    /// Takes in the record of the owner's model that holds the record to
    /// connect: where the relation must hold a record the mutation ends
    /// with an error; else the link fields of that record are set to null
    /// and it is saved. Where no record holds it, the next operation is
    /// due. A failure of the store ends the mutation with that failure.
    pub fn after_vacating(self, namespace: &Namespace, records: &mut Vec<Object>, reply: Reply) -> (step: Step)
        ensures
            self.after_vacating_step(namespace, *old(records), *final(records), reply, step),
    {
        let row = match reply {
            Reply::Row(Ok(Some(row))) => row,
            Reply::Row(Ok(None)) => {
                return Step::Again(Frame::Script(Script { wait: Wait::Ready, ..self }));
            },
            Reply::Row(Err(cause)) => {
                return Step::Return(Err(cause));
            },
            _ => {
                return Step::Return(Err(unexpected()));
            },
        };
        let (model, relation) = match self.grounds(namespace, records) {
            Some(found) => found,
            None => {
                return Step::Return(Err(no_record()));
            },
        };
        if relation.is_required() {
            return Step::Return(
                Err(
                    Error::new(
                        ErrorKind::CannotDisconnectPreviousRelation,
                        "Cannot disconnect previous relation.",
                    ),
                ),
            );
        }
        let action = records[self.owner].action;
        let that = add_found(namespace, records, self.owner, model, &row, action);
        records[that].nullify(model, &relation.fields);
        let save = Save::new(that, KeyPath::new(), false);
        Step::Call(Frame::Script(Script { wait: Wait::Child, ..self }), Frame::Save(save))
    }

    /// Adds a record for each of the related records that the join rows
    /// `rows` lead to, and hands back their numbers; `None` where the owner,
    /// its model, the relation or the join model is not known.
    fn add_joined(&self, namespace: &Namespace, records: &mut Vec<Object>, rows: &Vec<Value>) -> (found: Option<Vec<usize>>)
        ensures
            crate::model::object::to_json::grown(old(records)@, final(records)@),
            found matches Some(numbers) ==> forall|i: int|
                0 <= i < numbers.len() ==> old(records).len() <= #[trigger] numbers[i] < final(records).len(),
            match found {
                Some(numbers) => self.grounded(namespace, old(records)@) && (spec_joint(
                    namespace,
                    &self.home(namespace, old(records)@),
                    &self.link(namespace, old(records)@),
                ) matches Some((through, near, far)) && self.joined(
                    namespace,
                    old(records)@,
                    final(records)@,
                    through,
                    far.name@,
                    values_view(*rows),
                    numbers@,
                )),
                None => final(records)@ == old(records)@ && !(self.grounded(
                    namespace,
                    old(records)@,
                ) && spec_joint(
                    namespace,
                    &self.home(namespace, old(records)@),
                    &self.link(namespace, old(records)@),
                ) is Some),
            },
    {
        let (model, relation) = match self.grounds(namespace, records) {
            Some(found) => found,
            None => {
                return None;
            },
        };
        let joint = match joint(namespace, model, relation) {
            Some(joint) => joint,
            None => {
                return None;
            },
        };
        let mut inclusion = Dictionary::new();
        inclusion.insert(joint.far.name.clone(), Value::Bool(true));
        let inclusion = Value::Dictionary(inclusion);
        let ghost key = joint.far.name@;
        let ghost all = values_view(*rows);
        let ghost owner = old(records)[self.owner as int];
        let ghost linking = joint.through.spec_relation(key)->0;
        let ghost related = namespace.spec_model(names_of(linking.model_path))->0;
        let mut found: Vec<usize> = Vec::new();
        let mut i: usize = 0;
        assert(all.take(0) =~= Seq::<ValueView>::empty());
        while i < rows.len()
            invariant
                i <= rows.len(),
                self.owner < old(records).len(),
                all == values_view(*rows),
                key == joint.far.name@,
                owner == old(records)[self.owner as int],
                linking == joint.through.spec_relation(key)->0,
                related == namespace.spec_model(names_of(linking.model_path))->0,
                crate::model::object::to_json::grown(old(records)@, records@),
                records.len() == old(records).len() + joined_rows(
                    namespace,
                    joint.through,
                    key,
                    all.take(i as int),
                ).len(),
                found@ == Seq::new(
                    joined_rows(namespace, joint.through, key, all.take(i as int)).len(),
                    |k: int| (old(records).len() + k) as usize,
                ),
                forall|k: int|
                    0 <= k < joined_rows(namespace, joint.through, key, all.take(i as int)).len()
                        ==> taken_below(
                        #[trigger] records[old(records).len() + k],
                        owner,
                        &related,
                        joined_rows(namespace, joint.through, key, all.take(i as int))[k],
                        linking.is_vec,
                    ),
            decreases rows.len() - i,
        {
            let ghost reached = joined_rows(namespace, joint.through, key, all.take(i as int));
            let ghost entries = row_entries(rows[i as int]@);
            let mut join = Object::new(
                records[self.owner].request_ctx,
                records[self.owner].transaction_ctx,
                joint.through,
                records[self.owner].action,
            );
            let ghost blank = join;
            proof {
                crate::collections::names::lemma_position(
                    crate::collections::names::pair_names(join.relation_query_map),
                    key,
                );
                lemma_last_named(entries, key, entries.len() as int);
                assert(all.take(i + 1).drop_last() =~= all.take(i as int));
                assert(all.take(i + 1).last() == rows[i as int]@);
            }
            join.set_from_database_result_value(
                namespace,
                joint.through,
                &rows[i],
                None,
                Some(&inclusion),
            );
            let ghost nested = nested_rows(namespace, joint.through, key, rows[i as int]@);
            match find_pair(&join.relation_query_map, joint.far.name.as_str()) {
                Some(at) => {
                    assert(join.fetched(key) == Some(join.relation_query_map[at as int].1));
                    assert(join.relation_query_map[at as int].1.len() == nested.len());
                    if join.relation_query_map[at].1.len() > 0 {
                        found.push(records.len());
                        records.push(copy_object(&join.relation_query_map[at].1[0]));
                        assert(found@ =~= Seq::new(
                            reached.len() + 1,
                            |k: int| (old(records).len() + k) as usize,
                        ));
                    }
                },
                None => {
                    proof {
                        crate::collections::names::lemma_position(
                            crate::collections::names::pair_names(join.relation_query_map),
                            key,
                        );
                    }
                    assert(nested.len() == 0);
                },
            }
            i += 1;
        }
        assert(all.take(i as int) =~= all);
        Some(found)
    }

    /// Whether `step`, and the records after it, are what
    /// [`Script::after_found_joined`] makes of the mutation as it stands.
    pub open spec fn after_found_joined_step(self, namespace: &Namespace, earlier: Vec<Object>, later: Vec<Object>, reply: Reply, step: Step) -> bool {
        &&& !ends_well(step)
        &&& !(step is Emit)
        &&& crate::model::object::to_json::grown(earlier@, later@)
        &&& (match reply {
            Reply::Rows(Err(_)) => fails_with(
                step,
                find_failure("Object is not found."@, self.path@),
            ) && later@ == earlier@,
            Reply::Row(Err(_)) => fails_with(
                step,
                find_failure("Object is not found."@, self.path@),
            ) && later@ == earlier@,
            Reply::Row(Ok(None)) => fails_with(
                step,
                find_failure("Object is not found."@, self.path@),
            ) && later@ == earlier@,
            Reply::Row(Ok(Some(row))) => self.with_join_rows(
                namespace,
                earlier@,
                later@,
                seq![row@],
                step,
                |numbers: Seq<usize>|
                    if numbers.len() > 0 {
                        step == Step::Again(
                            Frame::Script(
                                Script { target: Some(numbers[0]), wait: Wait::Ready, ..self },
                            ),
                        )
                    } else {
                        fails_with(step, find_failure("Object is not found."@, self.path@))
                    },
            ),
            Reply::Rows(Ok(rows)) => self.with_join_rows(
                namespace,
                earlier@,
                later@,
                values_view(rows),
                step,
                |numbers: Seq<usize>|
                    step matches Step::Again(Frame::Script(next)) && next.found@ == numbers
                        && next == (Script {
                        found: next.found,
                        cursor: 0,
                        wait: Wait::Each,
                        ..self
                    }),
            ),
            _ => fails_with(step, unexpected_reply()) && later@ == earlier@,
        })
    }

    /// Whether `step` fails for want of the owner, of its model, of the
    /// relation or of the join model, where one of them is wanting, and
    /// else `later` is `earlier` with the records that the join rows lead
    /// to, and `goes_on` holds of their numbers.
    pub open spec fn with_join_rows(self, namespace: &Namespace, earlier: Seq<Object>, later: Seq<Object>, rows: Seq<ValueView>, step: Step, goes_on: spec_fn(Seq<usize>) -> bool) -> bool {
        if !self.grounded(namespace, earlier) {
            fails_with(step, crate::model::object::machine::unknown_record()) && later == earlier
        } else {
            match spec_joint(
                namespace,
                &self.home(namespace, earlier),
                &self.link(namespace, earlier),
            ) {
                Some((through, near, far)) => {
                    let numbers = Seq::new(
                        joined_rows(namespace, &through, far.name@, rows).len(),
                        |k: int| (earlier.len() + k) as usize,
                    );
                    self.joined(namespace, earlier, later, through, far.name@, rows, numbers)
                        && goes_on(numbers)
                },
                None => fails_with(step, crate::model::object::machine::unknown_record())
                    && later == earlier,
            }
        }
    }

    /// Takes in the join rows that the store found: the related records
    /// that they lead to become the target, or the records of the loop.
    pub fn after_found_joined(self, namespace: &Namespace, records: &mut Vec<Object>, reply: Reply) -> (step: Step)
        ensures
            self.after_found_joined_step(namespace, *old(records), *final(records), reply, step),
    {
        let (rows, many) = match reply {
            Reply::Rows(Ok(rows)) => (rows, true),
            Reply::Row(Ok(Some(row))) => {
                let ghost one = row@;
                let rows = vec![row];
                assert(values_view(rows) =~= seq![one]);
                (rows, false)
            },
            Reply::Rows(Err(_)) => {
                return Step::Return(
                    Err(Error::at(ErrorKind::ValueError, "Object is not found.", &self.path)),
                );
            },
            Reply::Row(Err(_)) => {
                return Step::Return(
                    Err(Error::at(ErrorKind::ValueError, "Object is not found.", &self.path)),
                );
            },
            Reply::Row(Ok(None)) => {
                return Step::Return(
                    Err(Error::at(ErrorKind::ValueError, "Object is not found.", &self.path)),
                );
            },
            _ => {
                return Step::Return(Err(unexpected()));
            },
        };
        let found = match self.add_joined(namespace, records, &rows) {
            Some(found) => found,
            None => {
                return Step::Return(Err(no_record()));
            },
        };
        if many {
            Step::Again(Frame::Script(Script { found, cursor: 0, wait: Wait::Each, ..self }))
        } else if found.len() > 0 {
            let number = found[0];
            Step::Again(Frame::Script(Script { target: Some(number), wait: Wait::Ready, ..self }))
        } else {
            Step::Return(Err(Error::at(ErrorKind::ValueError, "Object is not found.", &self.path)))
        }
    }

    /// Whether `step`, and the records after it, are what
    /// [`Script::after_part`] makes of the mutation as it stands.
    pub open spec fn after_part_step(self, result: Result<Returned, Error>, step: Step) -> bool {
        &&& !ends_well(step)
        &&& match result {
            Err(cause) => if self.wait == Wait::Forgiven {
                step == Step::Again(Frame::Script(Script { wait: Wait::Ready, ..self }))
            } else {
                step == Step::Return(Err(cause))
            },
            Ok(_) => step == Step::Again(Frame::Script(Script { wait: Wait::Ready, ..self })),
        }
    }

    /// Takes in the result of a part of the operation: a failure ends the
    /// mutation, unless the part was only attempted.
    pub fn after_part(self, result: Result<Returned, Error>) -> (step: Step)
        ensures
            self.after_part_step(result, step),
    {
        match result {
            Err(cause) => match self.wait {
                Wait::Forgiven => Step::Again(Frame::Script(Script { wait: Wait::Ready, ..self })),
                _ => Step::Return(Err(cause)),
            },
            Ok(_) => Step::Again(Frame::Script(Script { wait: Wait::Ready, ..self })),
        }
    }

    /// Whether `step`, and the records after it, are what the mutation makes of
    /// `input`: each stage takes in what it waits for, and any other input ends
    /// the mutation with an error and leaves the records as they are.
    pub open spec fn resume_step(self, namespace: &Namespace, earlier: Vec<Object>, later: Vec<Object>, input: Input, step: Step) -> bool {
        &&& earlier.len() <= later.len()
        &&& ends_well(step) ==> self.wait == Wait::Ready && self.ops.len() == 0 && later@
            == earlier@
        &&& self.wait == Wait::Ready && input is Start && self.ops.len() > 0 ==> match self.ops[0] {
            Op::Refuse { kind, message } => fails_with(
                step,
                refusal(kind, message@, self.path@),
            ) && later@ == earlier@,
            _ => true,
        }
        &&& match (self.wait, input) {
            (Wait::Ready, Input::Start) => self.next_step(namespace, earlier, later, step),
            (Wait::Child, Input::Returned(result)) => self.after_part_step(
                result,
                step,
            ) && later@ == earlier@,
            (Wait::Forgiven, Input::Returned(result)) => self.after_part_step(
                result,
                step,
            ) && later@ == earlier@,
            (Wait::Found, Input::Reply(reply)) => self.after_found_step(
                namespace,
                earlier,
                later,
                reply,
                step,
            ),
            (Wait::FoundOr, Input::Reply(reply)) => self.after_found_or_step(
                namespace,
                earlier,
                later,
                reply,
                step,
            ),
            (Wait::FoundAll, input) => self.after_found_all_step(
                namespace,
                earlier,
                later,
                input,
                step,
            ),
            (Wait::Fetched, input) => self.after_found_all_step(
                namespace,
                earlier,
                later,
                input,
                step,
            ),
            (Wait::Each, input) => self.each_step(input, step) && later@ == earlier@,
            (Wait::Transformed, Input::Reply(reply)) => self.after_transformed_step(
                namespace,
                &earlier,
                reply,
                step,
            ) && later@ == earlier@,
            (Wait::Vacating, Input::Reply(reply)) => self.after_vacating_step(
                namespace,
                earlier,
                later,
                reply,
                step,
            ),
            (Wait::FoundJoined, Input::Reply(reply)) => self.after_found_joined_step(
                namespace,
                earlier,
                later,
                reply,
                step,
            ),
            (Wait::FoundAllJoined, Input::Reply(reply)) => self.after_found_joined_step(
                namespace,
                earlier,
                later,
                reply,
                step,
            ),
            _ => fails_with(step, unexpected_reply()) && later@ == earlier@,
        }
    }

    /// Resumes the operations of a relation mutation.
    ///
    /// A mutation that waits takes in what it waited for; any input that
    /// does not fit ends it with an error. The mutation ends well only
    /// when no operation is left, and an operation that refuses ends it
    /// with the error of the operation at the path of the mutation. No
    /// record is taken away.
    pub fn resume(self, namespace: &Namespace, records: &mut Vec<Object>, input: Input) -> (step: Step)
        ensures
            self.resume_step(namespace, *old(records), *final(records), input, step),
    {
        match (self.wait, input) {
            (Wait::Ready, Input::Start) => self.next(namespace, records),
            (Wait::Child, Input::Returned(result)) => self.after_part(result),
            (Wait::Forgiven, Input::Returned(result)) => self.after_part(result),
            (Wait::Found, Input::Reply(reply)) => self.after_found(namespace, records, reply),
            (Wait::FoundOr, Input::Reply(reply)) => self.after_found_or(
                namespace,
                records,
                reply,
            ),
            (Wait::FoundAll, input) => self.after_found_all(namespace, records, input),
            (Wait::Fetched, input) => self.after_found_all(namespace, records, input),
            (Wait::Each, input) => self.each(input),
            (Wait::Transformed, Input::Reply(reply)) => self.after_transformed(
                namespace,
                records,
                reply,
            ),
            (Wait::Vacating, Input::Reply(reply)) => self.after_vacating(
                namespace,
                records,
                reply,
            ),
            (Wait::FoundJoined, Input::Reply(reply)) => self.after_found_joined(
                namespace,
                records,
                reply,
            ),
            (Wait::FoundAllJoined, Input::Reply(reply)) => self.after_found_joined(
                namespace,
                records,
                reply,
            ),
            _ => Step::Return(Err(unexpected())),
        }
    }
}

} // verus!
