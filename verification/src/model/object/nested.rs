use vstd::prelude::*;
use crate::action::action::{
    Action, NestedAction, CONNECT, CONNECT_OR_CREATE, CREATE, DELETE, DISCONNECT, JOIN_DELETE, MANY,
    NESTED, SET, SINGLE, UPDATE, UPSERT,
};
use crate::model::object::delete::where_finder;
use crate::model::object::object::Object;
use crate::model::relation::Relation;
use crate::path::error::ErrorKind;
use crate::path::key_path::{ItemView, KeyPath};
use crate::value::value::{
    copy_value, entries_insert, lookup, Dictionary, Value, ValueView,
};

verus! {

/// One operation of the plan for a relation mutation. The operations
/// of a plan run in order, on the record that owns the relation and
/// on a target: the record that an operation found or made.
#[derive(Debug)]
pub enum Op {
    /// Fail with an error at the path of the mutation.
    Refuse { kind: ErrorKind, message: String },
    /// Run the operations; a failure among them is dropped.
    Attempt(Vec<Op>),
    /// Find the record that the finder names: it becomes the target. No
    /// such record is the error not found; a failure of the store is a
    /// value error with the message given.
    Find { finder: Value, action: Action, failure: String },
    /// Find the record that the finder names: where there is one it
    /// becomes the target and the first operations run, else the second.
    FindOr { finder: Value, action: Action, found: Vec<Op>, missing: Vec<Op> },
    /// Find every record that the finder names, and run the operations on
    /// each as the target.
    FindAll { finder: Value, action: Action, each: Vec<Op> },
    /// Fetch the records of the relation, and run the operations on each
    /// as the target.
    FetchAll { each: Vec<Op> },
    /// Make a record of the related model and assign the payload to it: it
    /// becomes the target.
    Create { payload: Value, path: KeyPath, action: Action },
    /// Assign the payload to the target.
    Assign { payload: Value, path: KeyPath },
    /// Let the target skip the validation of the relation that leads back.
    IgnoreOpposite,
    /// Link the target to the owner and save it.
    Link,
    /// Save the target.
    Save { path: KeyPath },
    /// Delete the target.
    Delete,
    /// Delete the join record between the owner and the target.
    DropJoin,
    /// Set the fields of the target that link it to the owner to null.
    ClearChild,
    /// Set the fields of the owner that link it to its related record to
    /// null.
    ClearSelf,
    /// Free the record that the finder names from the record of the
    /// owner's model that holds it now.
    Vacate { finder: Value },
    /// Let the related model transform the payload and the action, then
    /// run the plan for what comes back.
    Transform { action: NestedAction, value: Value, path: KeyPath, many: bool },
    /// Make the record with this number the target.
    Target(usize),
    /// Find, through the join table, the related record that the filter
    /// names: it becomes the target.
    FindJoined { filter: Value, action: Action },
    /// Find, through the join table, every related record that the filter
    /// names, and run the operations on each as the target.
    FindAllJoined { filter: Value, action: Action, each: Vec<Op> },
}

/// The entries of `left` with every entry of `right` stored, one after the
/// other.
pub open spec fn extended(left: Seq<(Seq<char>, ValueView)>, right: Seq<(Seq<char>, ValueView)>) -> Seq<(Seq<char>, ValueView)>
    decreases right.len(),
{
    if right.len() == 0 {
        left
    } else {
        entries_insert(extended(left, right.drop_last()), right.last().0, right.last().1)
    }
}

/// The filter `left` with every entry of the filter `right` stored; `left`
/// where `right` is no dictionary, and `right` alone where `left` is none.
pub open spec fn spec_merged_filter(left: ValueView, right: ValueView) -> ValueView {
    match (left, right) {
        (ValueView::Dictionary(l), ValueView::Dictionary(r)) => ValueView::Dictionary(
            extended(l, r),
        ),
        (ValueView::Dictionary(l), _) => left,
        _ => right,
    }
}

/// The filter `left` with every entry of the filter `right` stored.
pub fn merged_filter(left: &Value, right: &Value) -> (merged: Value)
    ensures
        merged@ == spec_merged_filter(left@, right@),
{
    match (left, right) {
        (Value::Dictionary(l), Value::Dictionary(r)) => {
            let mut merged = l.clone();
            let mut i: usize = 0;
            while i < r.len()
                invariant
                    i <= r@.len(),
                    merged@ == extended(l@, r@.take(i as int)),
                decreases r@.len() - i,
            {
                assert(r@.take(i + 1).drop_last() =~= r@.take(i as int));
                assert(r@.take(i + 1).last() == r@[i as int]);
                match r.entry_at(i) {
                    Some((key, value)) => {
                        merged.insert(key.clone(), copy_value(value));
                    },
                    None => {},
                }
                i += 1;
            }
            assert(r@.take(i as int) =~= r@);
            Value::Dictionary(merged)
        },
        (Value::Dictionary(_), _) => copy_value(left),
        _ => copy_value(right),
    }
}

/// What a payload holds under `key`, null where it holds nothing or is no
/// dictionary.
pub open spec fn spec_part(value: ValueView, key: Seq<char>) -> ValueView {
    match value {
        ValueView::Dictionary(entries) => match lookup(entries, key) {
            Some(part) => part,
            None => ValueView::Null,
        },
        _ => ValueView::Null,
    }
}

/// What a payload holds under `key`.
pub fn part(value: &Value, key: &str) -> (found: Value)
    ensures
        found@ == spec_part(value@, key@),
{
    match value.as_dictionary() {
        Some(entries) => match entries.get(key) {
            Some(found) => copy_value(found),
            None => Value::Null,
        },
        None => Value::Null,
    }
}

/// Whether `op` finds the record that `filter` names, under `where`.
pub open spec fn finds(op: Op, filter: ValueView, bits: u32, failure: Seq<char>) -> bool {
    match op {
        Op::Find { finder, action, failure: message } => finder@ == ValueView::Dictionary(
            seq![("where"@, filter)],
        ) && action.0 == bits && message@ == failure,
        _ => false,
    }
}

/// Whether `op` refuses with a value error of the message given.
pub open spec fn refuses(op: Op, kind: ErrorKind, message: Seq<char>) -> bool {
    match op {
        Op::Refuse { kind: held, message: text } => held == kind && text@ == message,
        _ => false,
    }
}

/// The operation that finds the record that `filter` names.
pub fn find(filter: Value, bits: u32, failure: &str) -> (op: Op)
    ensures
        finds(op, filter@, bits, failure@),
{
    Op::Find {
        finder: where_finder(filter),
        action: Action::from_u32(bits),
        failure: failure.to_owned(),
    }
}

/// The operation that refuses with a value error.
pub fn refuse(message: &str) -> (op: Op)
    ensures
        refuses(op, ErrorKind::ValueError, message@),
{
    Op::Refuse { kind: ErrorKind::ValueError, message: message.to_owned() }
}

/// Whether `op` saves the target at `path`.
pub open spec fn saves_at(op: Op, path: Seq<ItemView>) -> bool {
    match op {
        Op::Save { path: at } => at@ == path,
        _ => false,
    }
}

/// Whether `op` assigns `payload` to the target at `path`.
pub open spec fn assigns(op: Op, payload: ValueView, path: Seq<ItemView>) -> bool {
    match op {
        Op::Assign { payload: held, path: at } => held@ == payload && at@ == path,
        _ => false,
    }
}

/// Whether `op` makes a record from `payload` at `path`.
pub open spec fn creates(op: Op, payload: ValueView, path: Seq<ItemView>, bits: u32) -> bool {
    match op {
        Op::Create { payload: held, path: at, action } => held@ == payload && at@ == path
            && action.0 == bits,
        _ => false,
    }
}

/// Whether `ops` make a record from `payload` at `path`, link it and save
/// it.
pub open spec fn creates_and_links(ops: Seq<Op>, payload: ValueView, path: Seq<ItemView>, bits: u32) -> bool {
    ops.len() == 2 && creates(ops[0], payload, path, bits) && ops[1] is Link
}

/// Whether a relation to one record must always hold one.
pub open spec fn must_hold(relation: Relation) -> bool {
    !relation.is_vec && relation.is_required
}

/// The error for a required relation that would lose its record.
pub open spec fn keeps_required(op: Op, message: Seq<char>) -> bool {
    refuses(op, ErrorKind::CannotDisconnectPreviousRelation, message)
}

/// The operation that refuses to empty a required relation.
pub fn refuse_required(message: &str) -> (op: Op)
    ensures
        keeps_required(op, message@),
{
    Op::Refuse { kind: ErrorKind::CannotDisconnectPreviousRelation, message: message.to_owned() }
}

/// Whether `ops` unlink the target from the owner of `relation` without
/// looking at whether the relation may be empty: where the owner holds the
/// foreign key its link fields are cleared; where a join table holds the
/// link the join record is deleted; else the link fields of the target are
/// cleared and the target is saved.
pub open spec fn unlinks_target(ops: Seq<Op>, relation: Relation, path: Seq<ItemView>) -> bool {
    if relation.has_foreign_key {
        ops.len() == 1 && ops[0] is ClearSelf
    } else if relation.through is Some {
        ops.len() == 1 && ops[0] is DropJoin
    } else {
        ops.len() == 2 && ops[0] is ClearChild && saves_at(ops[1], path)
    }
}

/// Whether `ops` empty the relation of its owner by the filter given: where
/// the owner holds the foreign key its link fields are cleared; else the
/// record that the filter names is found, its link fields are cleared and
/// it is saved.
pub open spec fn detaches(ops: Seq<Op>, relation: Relation, filter: ValueView, path: Seq<ItemView>) -> bool {
    if relation.has_foreign_key {
        ops.len() == 1 && ops[0] is ClearSelf
    } else {
        ops.len() == 3 && finds(ops[0], filter, NESTED | DISCONNECT | SINGLE, "object is not found"@)
            && ops[1] is ClearChild && saves_at(ops[2], path)
    }
}

/// Whether `op` tries to empty the relation of its owner by the filter
/// given, and drops a failure to do so.
pub open spec fn attempts_detach(op: Op, relation: Relation, filter: ValueView, path: Seq<ItemView>) -> bool {
    match op {
        Op::Attempt(inner) => detaches(inner@, relation, filter, path),
        _ => false,
    }
}

/// Whether `op` finds the record that `filter` names and then runs `found`
/// where there is one, `missing` where there is none.
pub open spec fn finds_or(op: Op, filter: ValueView, bits: u32) -> bool {
    match op {
        Op::FindOr { finder, action, found, missing } => finder@ == ValueView::Dictionary(
            seq![("where"@, filter)],
        ) && action.0 == bits,
        _ => false,
    }
}

/// The operations that `op` runs where it finds a record.
pub open spec fn when_found(op: Op) -> Seq<Op> {
    match op {
        Op::FindOr { finder, action, found, missing } => found@,
        _ => Seq::empty(),
    }
}

/// The operations that `op` runs where it finds no record.
pub open spec fn when_missing(op: Op) -> Seq<Op> {
    match op {
        Op::FindOr { finder, action, found, missing } => missing@,
        _ => Seq::empty(),
    }
}

impl Object {
    /// Whether `ops` is the plan for a nested create: a record of the related
    /// model is made from what the payload holds under `create`, told to skip
    /// the validation of the relation that leads back, linked and saved.
    pub open spec fn nested_create_relation_object_plan(value: &Value, path: &KeyPath, ops: Seq<Op>) -> bool {
        &&& ops.len() == 3
        &&& creates(ops[0], spec_part(value@, "create"@), path@, NESTED | CREATE | SINGLE)
        &&& ops[1] is IgnoreOpposite
        &&& ops[2] is Link
    }

    /// The plan for a nested create: a record of the related model is
    /// made from what the payload holds under `create`, told to skip the
    /// validation of the relation that leads back, linked and saved.
    pub fn nested_create_relation_object(value: &Value, path: &KeyPath) -> (ops: Vec<Op>)
        ensures
            Self::nested_create_relation_object_plan(value, path, ops@),
    {
        vec![
            Op::Create {
                payload: part(value, "create"),
                path: path.clone(),
                action: Action::from_u32(NESTED | CREATE | SINGLE),
            },
            Op::IgnoreOpposite,
            Op::Link,
        ]
    }

    /// Whether `ops` is the plan for a nested connect: the record that the
    /// payload names is found, linked and saved.
    pub open spec fn nested_connect_relation_object_plan(value: &Value, ops: Seq<Op>) -> bool {
        &&& ops.len() == 2
        &&& finds(ops[0], value@, NESTED | CONNECT | SINGLE, "Object is not found."@)
        &&& ops[1] is Link
    }

    /// The plan for a nested connect: the record that the payload
    /// names is found, linked and saved.
    pub fn nested_connect_relation_object(value: &Value) -> (ops: Vec<Op>)
        ensures
            Self::nested_connect_relation_object_plan(value, ops@),
    {
        vec![find(copy_value(value), NESTED | CONNECT | SINGLE, "Object is not found."), Op::Link]
    }

    /// The plan for a disconnect that does not look at whether the
    /// relation may be empty.
    pub fn nested_disconnect_relation_object_no_check(relation: &Relation, value: &Value, path: &KeyPath) -> (ops: Vec<Op>)
        ensures
            detaches(ops@, *relation, value@, path@),
    {
        if relation.has_foreign_key() {
            vec![Op::ClearSelf]
        } else {
            vec![
                find(copy_value(value), NESTED | DISCONNECT | SINGLE, "object is not found"),
                Op::ClearChild,
                Op::Save { path: path.clone() },
            ]
        }
    }

    /// The plan for a nested disconnect on a to-one relation: a
    /// relation that must hold a record refuses, any other is emptied.
    pub fn nested_disconnect_relation_object(relation: &Relation, value: &Value, path: &KeyPath) -> (ops: Vec<Op>)
        ensures
            disconnects(ops@, *relation, value@, path@),
            if must_hold(*relation) {
                ops.len() == 1 && keeps_required(ops[0], "Cannot disconnect required relation."@)
            } else {
                detaches(ops@, *relation, value@, path@)
            },
    {
        if !relation.is_vec && relation.is_required() {
            vec![refuse_required("Cannot disconnect required relation.")]
        } else {
            Self::nested_disconnect_relation_object_no_check(relation, value, path)
        }
    }

    /// The plan for the disconnection of the target: a relation that
    /// must hold a record refuses, any other loses the target.
    pub fn nested_disconnect_relation_object_object(relation: &Relation, path: &KeyPath) -> (ops: Vec<Op>)
        ensures
            if must_hold(*relation) {
                ops.len() == 1 && keeps_required(ops[0], "Cannot disconnect required relation."@)
            } else {
                unlinks_target(ops@, *relation, path@)
            },
    {
        if !relation.is_vec && relation.is_required() {
            vec![refuse_required("Cannot disconnect required relation.")]
        } else {
            Self::unlink_target(relation, path)
        }
    }

    /// The plan for the disconnection of the target, whatever the
    /// relation asks for.
    pub fn unlink_target(relation: &Relation, path: &KeyPath) -> (ops: Vec<Op>)
        ensures
            unlinks_target(ops@, *relation, path@),
    {
        if relation.has_foreign_key() {
            vec![Op::ClearSelf]
        } else if relation.has_join_table() {
            vec![Op::DropJoin]
        } else {
            vec![Op::ClearChild, Op::Save { path: path.clone() }]
        }
    }

    /// Whether `ops` is the plan for a nested set on a to-one relation: the
    /// current record is disconnected, unless the owner holds the foreign key
    /// of a relation that must hold a record, and a failure to do so is
    /// dropped; then the record that the payload names, if it names one, is
    /// found, linked and saved.
    pub open spec fn nested_set_relation_object_plan(&self, relation: &Relation, value: &Value, path: &KeyPath, ops: Seq<Op>) -> bool {
        &&& ops.len() == (if relation.has_foreign_key && relation.is_required {
            0nat
        } else {
            1nat
        }) + (if value@ is Null {
            0nat
        } else {
            2nat
        })
        &&& !(relation.has_foreign_key && relation.is_required) ==> attempts_detach(
            ops[0],
            *relation,
            self.spec_intrinsic_filter(relation),
            path@,
        )
        &&& !(value@ is Null) ==> finds(
            ops[ops.len() - 2],
            value@,
            NESTED | SET | SINGLE,
            "Object is not found."@,
        ) && ops[ops.len() - 1] is Link
    }

    /// The plan for a nested set on a to-one relation: the current
    /// record is disconnected, unless the owner holds the foreign key of a
    /// relation that must hold a record, and a failure to do so is dropped;
    /// then the record that the payload names, if it names one, is found,
    /// linked and saved.
    pub fn nested_set_relation_object(&self, relation: &Relation, value: &Value, path: &KeyPath) -> (ops: Vec<Op>)
        ensures
            self.nested_set_relation_object_plan(relation, value, path, ops@),
    {
        let mut ops: Vec<Op> = Vec::new();
        if !(relation.has_foreign_key() && relation.is_required()) {
            let filter = self.intrinsic_where_unique_for_relation(relation);
            ops.push(
                Op::Attempt(Self::nested_disconnect_relation_object_no_check(relation, &filter, path)),
            );
        }
        if !value.is_null() {
            ops.push(find(copy_value(value), NESTED | SET | SINGLE, "Object is not found."));
            ops.push(Op::Link);
        }
        ops
    }

    /// Whether `ops` is the plan for a nested connect-or-create: the record
    /// that the payload names under `where` is linked and saved where it
    /// exists; else a record is made from what the payload holds under
    /// `create`, linked and saved.
    pub open spec fn nested_connect_or_create_relation_object_plan(value: &Value, path: &KeyPath, ops: Seq<Op>) -> bool {
        &&& ops.len() == 1
        &&& finds_or(
            ops[0],
            spec_part(value@, "where"@),
            CONNECT_OR_CREATE | CONNECT | NESTED | SINGLE,
        )
        &&& when_found(ops[0]).len() == 1 && when_found(ops[0])[0] is Link
        &&& creates_and_links(
            when_missing(ops[0]),
            spec_part(value@, "create"@),
            path@.push(ItemView::Key("create"@)),
            CONNECT_OR_CREATE | CONNECT | NESTED | SINGLE,
        )
    }

    /// The plan for a nested connect-or-create: the record that the
    /// payload names under `where` is linked and saved where it exists;
    /// else a record is made from what the payload holds under `create`,
    /// linked and saved.
    pub fn nested_connect_or_create_relation_object(value: &Value, path: &KeyPath) -> (ops: Vec<Op>)
        ensures
            Self::nested_connect_or_create_relation_object_plan(value, path, ops@),
    {
        let action = Action::from_u32(CONNECT_OR_CREATE | CONNECT | NESTED | SINGLE);
        vec![
            Op::FindOr {
                finder: where_finder(part(value, "where")),
                action,
                found: vec![Op::Link],
                missing: vec![
                    Op::Create {
                        payload: part(value, "create"),
                        path: path.with_key("create"),
                        action,
                    },
                    Op::Link,
                ],
            },
        ]
    }

    /// Whether `ops` is the plan for a nested upsert: the record that the
    /// payload names under `where`, among those linked to the owner, is updated
    /// from what the payload holds under `update` and saved where it exists;
    /// else a record is made from what the payload holds under `create`, linked
    /// and saved.
    pub open spec fn nested_upsert_relation_object_plan(&self, relation: &Relation, value: &Value, path: &KeyPath, ops: Seq<Op>) -> bool {
        &&& ops.len() == 1
        &&& finds_or(
            ops[0],
            spec_merged_filter(
                self.spec_intrinsic_filter(relation),
                spec_part(value@, "where"@),
            ),
            NESTED | UPSERT | UPDATE | SINGLE,
        )
        &&& when_found(ops[0]).len() == 2
        &&& assigns(
            when_found(ops[0])[0],
            spec_part(value@, "update"@),
            path@.push(ItemView::Key("update"@)),
        )
        &&& saves_at(when_found(ops[0])[1], path@.push(ItemView::Key("update"@)))
        &&& creates_and_links(
            when_missing(ops[0]),
            spec_part(value@, "create"@),
            path@.push(ItemView::Key("create"@)),
            NESTED | UPSERT | CREATE | SINGLE,
        )
    }

    /// The plan for a nested upsert: the record that the payload
    /// names under `where`, among those linked to the owner, is updated
    /// from what the payload holds under `update` and saved where it
    /// exists; else a record is made from what the payload holds under
    /// `create`, linked and saved.
    pub fn nested_upsert_relation_object(&self, relation: &Relation, value: &Value, path: &KeyPath) -> (ops: Vec<Op>)
        ensures
            self.nested_upsert_relation_object_plan(relation, value, path, ops@),
    {
        let filter = merged_filter(
            &self.intrinsic_where_unique_for_relation(relation),
            &part(value, "where"),
        );
        vec![
            Op::FindOr {
                finder: where_finder(filter),
                action: Action::from_u32(NESTED | UPSERT | UPDATE | SINGLE),
                found: vec![
                    Op::Assign { payload: part(value, "update"), path: path.with_key("update") },
                    Op::Save { path: path.with_key("update") },
                ],
                missing: vec![
                    Op::Create {
                        payload: part(value, "create"),
                        path: path.with_key("create"),
                        action: Action::from_u32(NESTED | UPSERT | CREATE | SINGLE),
                    },
                    Op::Link,
                ],
            },
        ]
    }

    /// Whether `ops` is the plan for a nested update on a to-one relation: the
    /// record that the payload names under `where` is found, updated from what
    /// the payload holds under `update`, and saved.
    pub open spec fn nested_update_relation_object_plan(value: &Value, path: &KeyPath, ops: Seq<Op>) -> bool {
        &&& ops.len() == 3
        &&& finds(
            ops[0],
            spec_part(value@, "where"@),
            NESTED | UPDATE | SINGLE,
            "update: object not found"@,
        )
        &&& assigns(ops[1], spec_part(value@, "update"@), path@)
        &&& saves_at(ops[2], path@)
    }

    /// The plan for a nested update on a to-one relation: the record
    /// that the payload names under `where` is found, updated from what
    /// the payload holds under `update`, and saved.
    pub fn nested_update_relation_object(value: &Value, path: &KeyPath) -> (ops: Vec<Op>)
        ensures
            Self::nested_update_relation_object_plan(value, path, ops@),
    {
        vec![
            find(part(value, "where"), NESTED | UPDATE | SINGLE, "update: object not found"),
            Op::Assign { payload: part(value, "update"), path: path.clone() },
            Op::Save { path: path.clone() },
        ]
    }

    /// Whether `ops` is the plan for a nested delete on a to-one relation: a
    /// relation that must hold a record refuses; else the record that the
    /// payload names under `where` is found and deleted, with the join record
    /// where there is a join table, and the link fields of the owner are
    /// cleared where it holds the foreign key.
    pub open spec fn nested_delete_relation_object_plan(relation: &Relation, value: &Value, ops: Seq<Op>) -> bool {
        &&& if must_hold(*relation) {
            ops.len() == 1 && keeps_required(ops[0], "Cannot delete required relation."@)
        } else {
            &&& ops.len() == 2 + (if relation.through is Some {
                1nat
            } else {
                0nat
            }) + (if relation.has_foreign_key {
                1nat
            } else {
                0nat
            })
            &&& finds(
                ops[0],
                spec_part(value@, "where"@),
                NESTED | DELETE | SINGLE,
                "delete: object not found"@,
            )
            &&& ops[1] is Delete
            &&& relation.through is Some ==> ops[2] is DropJoin
            &&& relation.has_foreign_key ==> ops[ops.len() - 1] is ClearSelf
        }
    }

    /// The plan for a nested delete on a to-one relation: a relation
    /// that must hold a record refuses; else the record that the payload
    /// names under `where` is found and deleted, with the join record where
    /// there is a join table, and the link fields of the owner are cleared
    /// where it holds the foreign key.
    pub fn nested_delete_relation_object(relation: &Relation, value: &Value) -> (ops: Vec<Op>)
        ensures
            Self::nested_delete_relation_object_plan(relation, value, ops@),
    {
        if !relation.is_vec && relation.is_required() {
            return vec![refuse_required("Cannot delete required relation.")];
        }
        let mut ops: Vec<Op> = vec![
            find(part(value, "where"), NESTED | DELETE | SINGLE, "delete: object not found"),
            Op::Delete,
        ];
        if relation.has_join_table() {
            ops.push(Op::DropJoin);
        }
        if relation.has_foreign_key() {
            ops.push(Op::ClearSelf);
        }
        ops
    }
}

/// Whether `op` finds, among the records linked to the owner of
/// `relation`, the one that `filter` names: through the join table where
/// there is one, else by the filter merged with the filter of the link.
pub open spec fn finds_linked(op: Op, relation: Relation, link: ValueView, filter: ValueView, bits: u32) -> bool {
    if relation.through is Some {
        op matches Op::FindJoined { filter: held, action } && held@ == filter && action.0 == bits
    } else {
        finds(op, spec_merged_filter(link, filter), bits, "Object is not found."@)
    }
}

/// Whether `op` finds, among the records linked to the owner of
/// `relation`, every one that `filter` names.
pub open spec fn finds_all_linked(op: Op, relation: Relation, link: ValueView, filter: ValueView, bits: u32) -> bool {
    if relation.through is Some {
        op matches Op::FindAllJoined { filter: held, action, each } && held@ == filter && action.0
            == bits
    } else {
        op matches Op::FindAll { finder, action, each } && finder@ == ValueView::Dictionary(
            seq![("where"@, spec_merged_filter(link, filter))],
        ) && action.0 == bits
    }
}

/// The operations that `op` runs on each record it finds.
pub open spec fn for_each(op: Op) -> Seq<Op> {
    match op {
        Op::FindAll { finder, action, each } => each@,
        Op::FindAllJoined { filter, action, each } => each@,
        Op::FetchAll { each } => each@,
        _ => Seq::empty(),
    }
}

/// Whether `ops` delete the target, with the join record where `relation`
/// has a join table.
pub open spec fn deletes_target(ops: Seq<Op>, relation: Relation) -> bool {
    if relation.through is Some {
        ops.len() == 2 && ops[0] is Delete && ops[1] is DropJoin
    } else {
        ops.len() == 1 && ops[0] is Delete
    }
}

/// The position, in a plan that starts with one operation and goes
/// on with pairs, of the first operation of the pair numbered `i`.
pub open spec fn slot(i: int) -> int {
    1 + 2 * i
}

/// Whether, after its first operation, `ops` find, link and save one after
/// the other the record that each of `items` names.
pub open spec fn connects_each(ops: Seq<Op>, items: Seq<ValueView>) -> bool {
    forall|i: int|
        0 <= i < items.len() ==> finds(
            #[trigger] ops[slot(i)],
            items[i],
            NESTED | CONNECT | SINGLE,
            "Object is not found."@,
        ) && ops[slot(i) + 1] is Link
}

/// The values of a payload that is a list; none where it is no list.
pub open spec fn listed(value: ValueView) -> Seq<ValueView> {
    match value {
        ValueView::Array(items) => items,
        _ => Seq::empty(),
    }
}

impl Object {
    /// The operation that finds, among the records linked to this one
    /// through `relation`, the one that `value` names.
    pub fn find_relation_object_by_value(&self, relation: &Relation, value: &Value, bits: u32) -> (op: Op)
        ensures
            finds_linked(op, *relation, self.spec_intrinsic_filter(relation), value@, bits),
    {
        if relation.has_join_table() {
            Op::FindJoined { filter: copy_value(value), action: Action::from_u32(bits) }
        } else {
            find(
                merged_filter(&self.intrinsic_where_unique_for_relation(relation), value),
                bits,
                "Object is not found.",
            )
        }
    }

    /// The operation that finds, among the records linked to this one
    /// through `relation`, every one that `value` names, and runs `each`
    /// on it.
    pub fn find_relation_objects_by_value(&self, relation: &Relation, value: &Value, bits: u32, each: Vec<Op>) -> (op: Op)
        ensures
            finds_all_linked(op, *relation, self.spec_intrinsic_filter(relation), value@, bits),
            for_each(op) == each@,
    {
        if relation.has_join_table() {
            Op::FindAllJoined { filter: copy_value(value), action: Action::from_u32(bits), each }
        } else {
            Op::FindAll {
                finder: where_finder(
                    merged_filter(&self.intrinsic_where_unique_for_relation(relation), value),
                ),
                action: Action::from_u32(bits),
                each,
            }
        }
    }

    /// Whether `ops` is the plan for a nested set on a to-many relation: every
    /// record of the relation is disconnected, then each record that the
    /// payload names is found, linked and saved.
    pub open spec fn nested_set_many_relation_object_plan(relation: &Relation, value: &Value, path: &KeyPath, ops: Seq<Op>) -> bool {
        &&& ops.len() == 1 + 2 * listed(value@).len()
        &&& ops[0] is FetchAll
        &&& if must_hold(*relation) {
            for_each(ops[0]).len() == 1 && keeps_required(
                for_each(ops[0])[0],
                "Cannot disconnect required relation."@,
            )
        } else {
            unlinks_target(for_each(ops[0]), *relation, path@)
        }
        &&& connects_each(ops, listed(value@))
    }

    /// The plan for a nested set on a to-many relation: every record
    /// of the relation is disconnected, then each record that the payload
    /// names is found, linked and saved.
    pub fn nested_set_many_relation_object(relation: &Relation, value: &Value, path: &KeyPath) -> (ops: Vec<Op>)
        ensures
            Self::nested_set_many_relation_object_plan(relation, value, path, ops@),
    {
        let mut ops: Vec<Op> = vec![
            Op::FetchAll { each: Self::nested_disconnect_relation_object_object(relation, path) },
        ];
        match value.as_array() {
            Some(items) => {
                let mut i: usize = 0;
                while i < items.len()
                    invariant
                        i <= items.len(),
                        value@ == ValueView::Array(crate::value::value::values_view(*items)),
                        ops.len() == 1 + 2 * i,
                        ops[0] is FetchAll,
                        if must_hold(*relation) {
                            for_each(ops[0]).len() == 1 && keeps_required(
                                for_each(ops[0])[0],
                                "Cannot disconnect required relation."@,
                            )
                        } else {
                            unlinks_target(for_each(ops[0]), *relation, path@)
                        },
                        forall|k: int|
                            0 <= k < i ==> finds(
                                #[trigger] ops[slot(k)],
                                listed(value@)[k],
                                NESTED | CONNECT | SINGLE,
                                "Object is not found."@,
                            ) && ops[slot(k) + 1] is Link,
                    decreases items.len() - i,
                {
                    let ghost before = ops@;
                    ops.push(
                        find(copy_value(&items[i]), NESTED | CONNECT | SINGLE, "Object is not found."),
                    );
                    ops.push(Op::Link);
                    proof {
                        assert(listed(value@)[i as int] == items[i as int]@);
                        assert forall|k: int| 0 <= k < i + 1 implies finds(
                            #[trigger] ops[slot(k)],
                            listed(value@)[k],
                            NESTED | CONNECT | SINGLE,
                            "Object is not found."@,
                        ) && ops[slot(k) + 1] is Link by {
                            if k < i {
                                assert(ops[slot(k)] == before[slot(k)]);
                                assert(ops[slot(k) + 1] == before[slot(k) + 1]);
                            }
                        }
                    }
                    i += 1;
                }
                assert(listed(value@).len() == items.len());
                assert(connects_each(ops@, listed(value@)));
            },
            None => {
                assert(listed(value@).len() == 0);
                assert(connects_each(ops@, listed(value@)));
            },
        }
        assert(connects_each(ops@, listed(value@)));
        ops
    }

    /// The plan for a programmatic set on a to-many relation: every
    /// record of the relation is disconnected, then each of the records
    /// given is linked and saved.
    pub fn nested_set_many_relation_object_object(relation: &Relation, objects: &Vec<usize>, path: &KeyPath) -> (ops: Vec<Op>)
        ensures
            replaces_many(ops@, *relation, objects@, path@),
            ops.len() == 1 + 2 * objects.len(),
            ops[0] is FetchAll,
            if must_hold(*relation) {
                for_each(ops[0]).len() == 1 && keeps_required(
                    for_each(ops[0])[0],
                    "Cannot disconnect required relation."@,
                )
            } else {
                unlinks_target(for_each(ops[0]), *relation, path@)
            },
            forall|i: int|
                0 <= i < objects.len() ==> #[trigger] ops[slot(i)] == Op::Target(objects[i])
                    && ops[slot(i) + 1] is Link,
    {
        let mut ops: Vec<Op> = vec![
            Op::FetchAll { each: Self::nested_disconnect_relation_object_object(relation, path) },
        ];
        let mut i: usize = 0;
        while i < objects.len()
            invariant
                i <= objects.len(),
                ops.len() == 1 + 2 * i,
                ops[0] is FetchAll,
                if must_hold(*relation) {
                    for_each(ops[0]).len() == 1 && keeps_required(
                        for_each(ops[0])[0],
                        "Cannot disconnect required relation."@,
                    )
                } else {
                    unlinks_target(for_each(ops[0]), *relation, path@)
                },
                forall|k: int|
                    0 <= k < i ==> #[trigger] ops[slot(k)] == Op::Target(objects[k]) && ops[slot(k) + 1] is Link,
            decreases objects.len() - i,
        {
            let ghost before = ops@;
            ops.push(Op::Target(objects[i]));
            ops.push(Op::Link);
            proof {
                assert forall|k: int| 0 <= k < i + 1 implies #[trigger] ops[slot(k)]
                    == Op::Target(objects[k]) && ops[slot(k) + 1] is Link by {
                    if k < i {
                        assert(ops[slot(k)] == before[slot(k)]);
                        assert(ops[slot(k) + 1] == before[slot(k) + 1]);
                    }
                }
            }
            i += 1;
        }
        ops
    }

    /// Whether `ops` is the plan for a nested disconnect on a to-many relation:
    /// with a join table the record that the payload names is found and the
    /// join record is deleted; else the record that the payload names among
    /// those linked to the owner is found, its link fields are cleared and it
    /// is saved.
    pub open spec fn nested_many_disconnect_relation_object_plan(&self, relation: &Relation, value: &Value, path: &KeyPath, ops: Seq<Op>) -> bool {
        &&& if relation.through is Some {
            ops.len() == 2 && finds(
                ops[0],
                value@,
                JOIN_DELETE | DELETE | SINGLE,
                "Object is not found."@,
            ) && ops[1] is DropJoin
        } else {
            ops.len() == 3 && finds(
                ops[0],
                spec_merged_filter(self.spec_intrinsic_filter(relation), value@),
                DISCONNECT | NESTED | SINGLE,
                "Object is not found."@,
            ) && ops[1] is ClearChild && saves_at(ops[2], path@)
        }
    }

    /// The plan for a nested disconnect on a to-many relation: with
    /// a join table the record that the payload names is found and the
    /// join record is deleted; else the record that the payload names
    /// among those linked to the owner is found, its link fields are
    /// cleared and it is saved.
    pub fn nested_many_disconnect_relation_object(&self, relation: &Relation, value: &Value, path: &KeyPath) -> (ops: Vec<Op>)
        ensures
            self.nested_many_disconnect_relation_object_plan(relation, value, path, ops@),
    {
        if relation.has_join_table() {
            vec![
                find(copy_value(value), JOIN_DELETE | DELETE | SINGLE, "Object is not found."),
                Op::DropJoin,
            ]
        } else {
            vec![
                find(
                    merged_filter(&self.intrinsic_where_unique_for_relation(relation), value),
                    DISCONNECT | NESTED | SINGLE,
                    "Object is not found.",
                ),
                Op::ClearChild,
                Op::Save { path: path.clone() },
            ]
        }
    }

    /// Whether `ops` is the plan for a nested update on a to-many relation: the
    /// record that the payload names under `where`, among those linked to the
    /// owner, is found, updated from what the payload holds under `update`, and
    /// saved.
    pub open spec fn nested_many_update_relation_object_plan(&self, relation: &Relation, value: &Value, path: &KeyPath, ops: Seq<Op>) -> bool {
        &&& ops.len() == 3
        &&& finds_linked(
            ops[0],
            *relation,
            self.spec_intrinsic_filter(relation),
            spec_part(value@, "where"@),
            NESTED | UPDATE | SINGLE,
        )
        &&& assigns(ops[1], spec_part(value@, "update"@), path@.push(ItemView::Key("update"@)))
        &&& saves_at(ops[2], path@)
    }

    /// The plan for a nested update on a to-many relation: the
    /// record that the payload names under `where`, among those linked to
    /// the owner, is found, updated from what the payload holds under
    /// `update`, and saved.
    pub fn nested_many_update_relation_object(&self, relation: &Relation, value: &Value, path: &KeyPath) -> (ops: Vec<Op>)
        ensures
            self.nested_many_update_relation_object_plan(relation, value, path, ops@),
    {
        vec![
            self.find_relation_object_by_value(
                relation,
                &part(value, "where"),
                NESTED | UPDATE | SINGLE,
            ),
            Op::Assign { payload: part(value, "update"), path: path.with_key("update") },
            Op::Save { path: path.clone() },
        ]
    }

    /// Whether `ops` is the plan for a nested update-many: every record that
    /// the payload names under `where`, among those linked to the owner, is
    /// updated from what the payload holds under `update`, and saved.
    pub open spec fn nested_many_update_many_relation_object_plan(&self, relation: &Relation, value: &Value, path: &KeyPath, ops: Seq<Op>) -> bool {
        &&& ops.len() == 1
        &&& finds_all_linked(
            ops[0],
            *relation,
            self.spec_intrinsic_filter(relation),
            spec_part(value@, "where"@),
            NESTED | UPDATE | MANY,
        )
        &&& for_each(ops[0]).len() == 2
        &&& assigns(for_each(ops[0])[0], spec_part(value@, "update"@), path@)
        &&& saves_at(for_each(ops[0])[1], path@)
    }

    /// The plan for a nested update-many: every record that the
    /// payload names under `where`, among those linked to the owner, is
    /// updated from what the payload holds under `update`, and saved.
    pub fn nested_many_update_many_relation_object(&self, relation: &Relation, value: &Value, path: &KeyPath) -> (ops: Vec<Op>)
        ensures
            self.nested_many_update_many_relation_object_plan(relation, value, path, ops@),
    {
        let each = vec![
            Op::Assign { payload: part(value, "update"), path: path.clone() },
            Op::Save { path: path.clone() },
        ];
        vec![
            self.find_relation_objects_by_value(
                relation,
                &part(value, "where"),
                NESTED | UPDATE | MANY,
                each,
            ),
        ]
    }

    /// The operations that delete the target, with the join record where
    /// `relation` has a join table.
    pub fn delete_target(relation: &Relation) -> (ops: Vec<Op>)
        ensures
            deletes_target(ops@, *relation),
    {
        if relation.has_join_table() {
            vec![Op::Delete, Op::DropJoin]
        } else {
            vec![Op::Delete]
        }
    }

    /// Whether `ops` is the plan for a nested delete on a to-many relation: the
    /// record that the payload names, among those linked to the owner, is found
    /// and deleted, with the join record where there is a join table.
    pub open spec fn nested_many_delete_relation_object_plan(&self, relation: &Relation, value: &Value, ops: Seq<Op>) -> bool {
        &&& ops.len() >= 1
        &&& finds_linked(
            ops[0],
            *relation,
            self.spec_intrinsic_filter(relation),
            value@,
            NESTED | DELETE | SINGLE,
        )
        &&& deletes_target(ops.subrange(1, ops.len() as int), *relation)
    }

    /// The plan for a nested delete on a to-many relation: the
    /// record that the payload names, among those linked to the owner, is
    /// found and deleted, with the join record where there is a join
    /// table.
    pub fn nested_many_delete_relation_object(&self, relation: &Relation, value: &Value) -> (ops: Vec<Op>)
        ensures
            self.nested_many_delete_relation_object_plan(relation, value, ops@),
    {
        let mut ops: Vec<Op> = vec![
            self.find_relation_object_by_value(relation, value, NESTED | DELETE | SINGLE),
            Op::Delete,
        ];
        if relation.has_join_table() {
            ops.push(Op::DropJoin);
        }
        assert(ops@.subrange(1, ops.len() as int).len() == ops.len() - 1);
        assert(ops@.subrange(1, ops.len() as int)[0] == ops[1]);
        if relation.has_join_table() {
            assert(ops@.subrange(1, ops.len() as int)[1] == ops[2]);
        }
        ops
    }

    /// Whether `ops` is the plan for a nested delete-many: every record that
    /// the payload names, among those linked to the owner, is deleted, with the
    /// join record where there is a join table.
    pub open spec fn nested_many_delete_many_relation_object_plan(&self, relation: &Relation, value: &Value, ops: Seq<Op>) -> bool {
        &&& ops.len() == 1
        &&& finds_all_linked(
            ops[0],
            *relation,
            self.spec_intrinsic_filter(relation),
            value@,
            NESTED | DELETE | MANY,
        )
        &&& deletes_target(for_each(ops[0]), *relation)
    }

    /// The plan for a nested delete-many: every record that the
    /// payload names, among those linked to the owner, is deleted, with
    /// the join record where there is a join table.
    pub fn nested_many_delete_many_relation_object(&self, relation: &Relation, value: &Value) -> (ops: Vec<Op>)
        ensures
            self.nested_many_delete_many_relation_object_plan(relation, value, ops@),
    {
        vec![
            self.find_relation_objects_by_value(
                relation,
                value,
                NESTED | DELETE | MANY,
                Self::delete_target(relation),
            ),
        ]
    }

    /// The operation that frees the record that `value` names from the
    /// record of this record's model that holds it now.
    pub fn disconnect_object_which_connects_to(value: &Value) -> (op: Op)
        ensures
            op matches Op::Vacate { finder } && finder@ == value@,
    {
        Op::Vacate { finder: copy_value(value) }
    }
}

/// Whether a nested action on a to-one relation first empties the
/// relation: the other side holds the link, the owner is stored, and the
/// action brings a record.
pub open spec fn empties_first(owner: &Object, relation: Relation, action: NestedAction) -> bool {
    &&& !relation.is_vec
    &&& !relation.has_foreign_key
    &&& !owner.is_new
    &&& (action == NestedAction::Create || action == NestedAction::Connect || action
        == NestedAction::ConnectOrCreate)
}

/// The filter of the record that a nested action on a one-to-one relation,
/// whose link the owner holds, takes away from the record that holds it
/// now; `None` where the action takes none away.
pub open spec fn vacated(relation: Relation, opposite_is_vec: Option<bool>, action: NestedAction, value: ValueView) -> Option<ValueView> {
    if !relation.is_vec && relation.has_foreign_key && opposite_is_vec == Some(false) {
        match action {
            NestedAction::Connect => if value is Null {
                None
            } else {
                Some(value)
            },
            NestedAction::SetLinks => if value is Null {
                None
            } else {
                Some(value)
            },
            NestedAction::ConnectOrCreate => Some(spec_part(value, "where"@)),
            _ => None,
        }
    } else {
        None
    }
}

/// The number of operations that run before the plan for a nested
/// action on a to-one relation proper.
pub open spec fn lead(owner: &Object, relation: Relation, opposite_is_vec: Option<bool>, action: NestedAction, value: ValueView) -> nat {
    (if empties_first(owner, relation, action) {
        1nat
    } else {
        0nat
    }) + (if vacated(relation, opposite_is_vec, action, value) is Some {
        1nat
    } else {
        0nat
    })
}

/// Whether `op` frees the record that `filter` names.
pub open spec fn vacates(op: Op, filter: ValueView) -> bool {
    match op {
        Op::Vacate { finder } => finder@ == filter,
        _ => false,
    }
}

/// The error for an action that the relation does not take.
pub open spec fn wrong_action(op: Op) -> bool {
    refuses(op, ErrorKind::ValueError, "unexpected action"@)
}

impl Object {
    /// Adds the operations of `more` to `ops`, in order.
    fn add_all(ops: &mut Vec<Op>, more: Vec<Op>)
        ensures
            final(ops)@ == old(ops)@ + more@,
    {
        let mut more = more;
        ops.append(&mut more);
    }

    /// Whether `ops` is the plan for a nested action on the to-one
    /// relation `relation` of this record, as
    /// [`Object::perform_relation_manipulation_one_inner`] makes it.
    pub open spec fn perform_relation_manipulation_one_inner_step(&self, relation: &Relation, opposite_is_vec: Option<bool>, action: NestedAction, value: &Value, path: &KeyPath, ops: Vec<Op>) -> bool {
        &&& ops.len() >= lead(self, *relation, opposite_is_vec, action, value@)
        &&& empties_first(self, *relation, action) ==> attempts_detach(
            ops[0],
            *relation,
            self.spec_intrinsic_filter(relation),
            path@,
        )
        &&& vacated(*relation, opposite_is_vec, action, value@) is Some ==> vacates(
            ops[lead(self, *relation, opposite_is_vec, action, value@) - 1],
            vacated(*relation, opposite_is_vec, action, value@)->0,
        )
        &&& self.one_planned(
            relation,
            action,
            value,
            path,
            ops@.subrange(
                lead(self, *relation, opposite_is_vec, action, value@) as int,
                ops.len() as int,
            ),
        )
    }

    /// Whether `ops` is the plan for a nested action on a to-one relation
    /// proper, by the action: what the planner of that action makes of the
    /// payload. An action for to-many relations is refused.
    pub open spec fn one_planned(&self, relation: &Relation, action: NestedAction, value: &Value, path: &KeyPath, ops: Seq<Op>) -> bool {
        match action {
            NestedAction::Create => Self::nested_create_relation_object_plan(value, path, ops),
            NestedAction::Connect => Self::nested_connect_relation_object_plan(value, ops),
            NestedAction::SetLinks => self.nested_set_relation_object_plan(
                relation,
                value,
                path,
                ops,
            ),
            NestedAction::ConnectOrCreate => Self::nested_connect_or_create_relation_object_plan(
                value,
                path,
                ops,
            ),
            NestedAction::Disconnect => disconnects(ops, *relation, value@, path@),
            NestedAction::Update => Self::nested_update_relation_object_plan(value, path, ops),
            NestedAction::Delete => Self::nested_delete_relation_object_plan(
                relation,
                value,
                ops,
            ),
            NestedAction::Upsert => self.nested_upsert_relation_object_plan(
                relation,
                value,
                path,
                ops,
            ),
            _ => ops.len() == 1 && wrong_action(ops[0]),
        }
    }

    /// The plan for a nested action on a to-one relation.
    ///
    /// Where the other side holds the link and the owner is stored, an
    /// action that brings a record first empties the relation, and a
    /// failure to do so is dropped. Where the owner holds the link of a
    /// one-to-one relation, an action that connects a record first frees
    /// it from the record that holds it now. Then comes the plan for
    /// the action itself; an action for to-many relations is refused.
    pub fn perform_relation_manipulation_one_inner(
        &self,
        relation: &Relation,
        opposite_is_vec: Option<bool>,
        action: NestedAction,
        value: &Value,
        path: &KeyPath,
    ) -> (ops: Vec<Op>)
        ensures
            self.perform_relation_manipulation_one_inner_step(relation, opposite_is_vec, action, value, path, ops),
    {
        let mut ops: Vec<Op> = Vec::new();
        let brings = match action {
            NestedAction::Create => true,
            NestedAction::Connect => true,
            NestedAction::ConnectOrCreate => true,
            _ => false,
        };
        if !relation.is_vec && !relation.has_foreign_key() && !self.is_new && brings {
            let filter = self.intrinsic_where_unique_for_relation(relation);
            ops.push(
                Op::Attempt(Self::nested_disconnect_relation_object_no_check(relation, &filter, path)),
            );
        }
        let one_to_one = match opposite_is_vec {
            Some(many) => !many,
            None => false,
        };
        if !relation.is_vec && relation.has_foreign_key() && one_to_one {
            match action {
                NestedAction::Connect => {
                    if !value.is_null() {
                        ops.push(Self::disconnect_object_which_connects_to(value));
                    }
                },
                NestedAction::SetLinks => {
                    if !value.is_null() {
                        ops.push(Self::disconnect_object_which_connects_to(value));
                    }
                },
                NestedAction::ConnectOrCreate => {
                    ops.push(Self::disconnect_object_which_connects_to(&part(value, "where")));
                },
                _ => {},
            }
        }
        let ghost before = ops@;
        let main = match action {
            NestedAction::Create => Self::nested_create_relation_object(value, path),
            NestedAction::Connect => Self::nested_connect_relation_object(value),
            NestedAction::SetLinks => self.nested_set_relation_object(relation, value, path),
            NestedAction::ConnectOrCreate => Self::nested_connect_or_create_relation_object(
                value,
                path,
            ),
            NestedAction::Disconnect => Self::nested_disconnect_relation_object(
                relation,
                value,
                path,
            ),
            NestedAction::Update => Self::nested_update_relation_object(value, path),
            NestedAction::Delete => Self::nested_delete_relation_object(relation, value),
            NestedAction::Upsert => self.nested_upsert_relation_object(relation, value, path),
            _ => vec![refuse("unexpected action")],
        };
        Self::add_all(&mut ops, main);
        proof {
            assert(ops@.subrange(before.len() as int, ops.len() as int) =~= main@);
        }
        ops
    }

    /// Whether `ops` is the plan for a nested action on the to-many
    /// relation `relation` of this record, as
    /// [`Object::perform_relation_manipulation_many_inner`] makes it.
    pub open spec fn perform_relation_manipulation_many_inner_step(&self, relation: &Relation, action: NestedAction, value: &Value, path: &KeyPath, ops: Vec<Op>) -> bool {
        match action {
            NestedAction::Create => Self::nested_create_relation_object_plan(value, path, ops@),
            NestedAction::Connect => Self::nested_connect_relation_object_plan(value, ops@),
            NestedAction::SetLinks => Self::nested_set_many_relation_object_plan(
                relation,
                value,
                path,
                ops@,
            ),
            NestedAction::ConnectOrCreate => Self::nested_connect_or_create_relation_object_plan(
                value,
                path,
                ops@,
            ),
            NestedAction::Disconnect => self.nested_many_disconnect_relation_object_plan(
                relation,
                value,
                path,
                ops@,
            ),
            NestedAction::Upsert => self.nested_upsert_relation_object_plan(
                relation,
                value,
                path,
                ops@,
            ),
            NestedAction::Update => self.nested_many_update_relation_object_plan(
                relation,
                value,
                path,
                ops@,
            ),
            NestedAction::UpdateMany => self.nested_many_update_many_relation_object_plan(
                relation,
                value,
                path,
                ops@,
            ),
            NestedAction::Delete => self.nested_many_delete_relation_object_plan(
                relation,
                value,
                ops@,
            ),
            NestedAction::DeleteMany => self.nested_many_delete_many_relation_object_plan(
                relation,
                value,
                ops@,
            ),
        }
    }

    /// The plan for a nested action on a to-many relation.
    pub fn perform_relation_manipulation_many_inner(&self, relation: &Relation, action: NestedAction, value: &Value, path: &KeyPath) -> (ops: Vec<Op>)
        ensures
            self.perform_relation_manipulation_many_inner_step(relation, action, value, path, ops),
    {
        match action {
            NestedAction::Create => Self::nested_create_relation_object(value, path),
            NestedAction::Connect => Self::nested_connect_relation_object(value),
            NestedAction::SetLinks => Self::nested_set_many_relation_object(relation, value, path),
            NestedAction::ConnectOrCreate => Self::nested_connect_or_create_relation_object(
                value,
                path,
            ),
            NestedAction::Disconnect => self.nested_many_disconnect_relation_object(
                relation,
                value,
                path,
            ),
            NestedAction::Upsert => self.nested_upsert_relation_object(relation, value, path),
            NestedAction::Update => self.nested_many_update_relation_object(relation, value, path),
            NestedAction::UpdateMany => self.nested_many_update_many_relation_object(
                relation,
                value,
                path,
            ),
            NestedAction::Delete => self.nested_many_delete_relation_object(relation, value),
            NestedAction::DeleteMany => self.nested_many_delete_many_relation_object(
                relation,
                value,
            ),
        }
    }
}

/// Whether `op` hands the payload `value` of the nested action named
/// `key` to the related model for transformation, or refuses a key that
/// names no nested action.
pub open spec fn transforms(op: Op, key: Seq<char>, value: ValueView, path: Seq<ItemView>, many: bool) -> bool {
    match NestedAction::spec_from_name(key) {
        Some(action) => match op {
            Op::Transform { action: held, value: sent, path: at, many: wide } => held == action
                && sent@ == value && at@ == path && wide == many,
            _ => false,
        },
        None => refuses(op, ErrorKind::InvalidKey, key),
    }
}

/// The operation that hands the payload of the nested action named `key`
/// to the related model for transformation.
pub fn transform(key: &str, value: &Value, path: KeyPath, many: bool) -> (op: Op)
    ensures
        transforms(op, key@, value@, path@, many),
{
    match NestedAction::from_name(key) {
        Some(action) => Op::Transform { action, value: copy_value(value), path, many },
        None => Op::Refuse { kind: ErrorKind::InvalidKey, message: key.to_owned() },
    }
}

/// Whether the payload of the nested action named `key` on a to-many
/// relation is handled item by item: it is a list, and the action is not a
/// set.
pub open spec fn itemwise(key: Seq<char>, value: ValueView) -> bool {
    value is Array && NestedAction::spec_from_name(key) != Some(NestedAction::SetLinks)
}

/// The number of operations that the entries of a payload on a to-many
/// relation are planned as.
pub open spec fn many_count(entries: Seq<(Seq<char>, ValueView)>) -> nat
    decreases entries.len(),
{
    if entries.len() == 0 {
        0
    } else {
        many_count(entries.drop_last()) + if itemwise(entries.last().0, entries.last().1) {
            listed(entries.last().1).len()
        } else {
            1
        }
    }
}

/// Whether `ops` is the plan for the entries of a payload on a to-one
/// relation: each entry, in order, hands its payload to the related model
/// for transformation, at the path of the entry.
pub open spec fn plans_one(ops: Seq<Op>, entries: Seq<(Seq<char>, ValueView)>, path: Seq<ItemView>) -> bool {
    &&& ops.len() == entries.len()
    &&& forall|i: int|
        0 <= i < ops.len() ==> transforms(
            #[trigger] ops[i],
            entries[i].0,
            entries[i].1,
            path.push(ItemView::Key(entries[i].0)),
            false,
        )
}

/// Whether `ops` is the plan that makes the records numbered `numbers` the
/// records of a to-many relation: every record of the relation is fetched
/// and unlinked, or refused where the relation must hold one; then each of
/// the records is made the target and linked, in order.
pub open spec fn replaces_many(ops: Seq<Op>, relation: Relation, numbers: Seq<usize>, path: Seq<ItemView>) -> bool {
    &&& ops.len() == 1 + 2 * numbers.len()
    &&& ops[0] is FetchAll
    &&& if must_hold(relation) {
        for_each(ops[0]).len() == 1 && keeps_required(
            for_each(ops[0])[0],
            "Cannot disconnect required relation."@,
        )
    } else {
        unlinks_target(for_each(ops[0]), relation, path)
    }
    &&& forall|i: int|
        0 <= i < numbers.len() ==> #[trigger] ops[slot(i)] == Op::Target(numbers[i]) && ops[slot(
            i,
        ) + 1] is Link
}

/// Whether `ops` is the plan for the disconnection of the record that
/// `filter` names from a to-one relation: refused where the relation must
/// hold a record, and else as [`detaches`] says.
pub open spec fn disconnects(ops: Seq<Op>, relation: Relation, filter: ValueView, path: Seq<ItemView>) -> bool {
    if must_hold(relation) {
        ops.len() == 1 && keeps_required(ops[0], "Cannot disconnect required relation."@)
    } else {
        detaches(ops, relation, filter, path)
    }
}

/// Whether `ops` is the plan for the entries of a payload on a to-many
/// relation, in their order: an entry whose payload is a list, and whose
/// action is no set, hands each item of the list to the related model for
/// transformation, at the path of the entry with the position of the item;
/// any other entry hands its payload over whole, at the path of the entry.
pub open spec fn plans_many(ops: Seq<Op>, entries: Seq<(Seq<char>, ValueView)>, path: Seq<ItemView>) -> bool
    decreases entries.len(),
{
    if entries.len() == 0 {
        ops.len() == 0
    } else {
        let key = entries.last().0;
        let value = entries.last().1;
        let width = if itemwise(key, value) {
            listed(value).len() as int
        } else {
            1
        };
        let cut = ops.len() - width;
        let tail = ops.subrange(cut, ops.len() as int);
        &&& cut >= 0
        &&& plans_many(ops.subrange(0, cut), entries.drop_last(), path)
        &&& if itemwise(key, value) {
            forall|j: int|
                0 <= j < width ==> transforms(
                    #[trigger] tail[j],
                    key,
                    listed(value)[j],
                    path.push(ItemView::Key(key)).push(ItemView::Index(j as usize)),
                    true,
                )
        } else {
            transforms(tail[0], key, value, path.push(ItemView::Key(key)), true)
        }
    }
}

impl Object {
    /// The plan for the payload of a to-one relation: each entry, a
    /// nested action with its payload, is handed to the related model for
    /// transformation, in order.
    pub fn perform_relation_manipulation_one(value: &Value, path: &KeyPath) -> (ops: Vec<Op>)
        ensures
            plans_one(ops@, crate::model::object::hydrate::row_entries(value@), path@),
            ops.len() == crate::model::object::hydrate::row_entries(value@).len(),
            forall|i: int|
                0 <= i < ops.len() ==> transforms(
                    #[trigger] ops[i],
                    crate::model::object::hydrate::row_entries(value@)[i].0,
                    crate::model::object::hydrate::row_entries(value@)[i].1,
                    path@.push(
                        ItemView::Key(crate::model::object::hydrate::row_entries(value@)[i].0),
                    ),
                    false,
                ),
    {
        let mut ops: Vec<Op> = Vec::new();
        match value.as_dictionary() {
            Some(entries) => {
                let mut i: usize = 0;
                while i < entries.len()
                    invariant
                        i <= entries@.len(),
                        ops.len() == i,
                        forall|k: int|
                            0 <= k < i ==> transforms(
                                #[trigger] ops[k],
                                entries@[k].0,
                                entries@[k].1,
                                path@.push(ItemView::Key(entries@[k].0)),
                                false,
                            ),
                    decreases entries@.len() - i,
                {
                    match entries.entry_at(i) {
                        Some((key, item)) => {
                            ops.push(transform(key.as_str(), item, path.with_key(key.as_str()), false));
                        },
                        None => {},
                    }
                    i += 1;
                }
                assert(ops.len() == crate::model::object::hydrate::row_entries(value@).len());
            },
            None => {},
        }
        ops
    }

    /// The plan for the payload of a to-many relation: each entry, a
    /// nested action with its payload, is handed to the related model for
    /// transformation, in order; a payload that is a list, for any action
    /// but a set, is handed over item by item.
    pub fn perform_relation_manipulation_many(value: &Value, path: &KeyPath) -> (ops: Vec<Op>)
        ensures
            ops.len() == many_count(crate::model::object::hydrate::row_entries(value@)),
            plans_many(ops@, crate::model::object::hydrate::row_entries(value@), path@),
    {
        let mut ops: Vec<Op> = Vec::new();
        match value.as_dictionary() {
            Some(entries) => {
                let mut i: usize = 0;
                assert(entries@.take(0) =~= Seq::empty());
                while i < entries.len()
                    invariant
                        i <= entries@.len(),
                        ops.len() == many_count(entries@.take(i as int)),
                        plans_many(ops@, entries@.take(i as int), path@),
                    decreases entries@.len() - i,
                {
                    assert(entries@.take(i + 1).drop_last() =~= entries@.take(i as int));
                    assert(entries@.take(i + 1).last() == entries@[i as int]);
                    let ghost held = ops@;
                    match entries.entry_at(i) {
                        Some((key, item)) => {
                            let set = match NestedAction::from_name(key.as_str()) {
                                Some(NestedAction::SetLinks) => true,
                                _ => false,
                            };
                            let ghost at = path@.push(ItemView::Key(key@));
                            match item.as_array() {
                                Some(items) => {
                                    if set {
                                        ops.push(
                                            transform(
                                                key.as_str(),
                                                item,
                                                path.with_key(key.as_str()),
                                                true,
                                            ),
                                        );
                                        assert(ops@.subrange(0, held.len() as int) =~= held);
                                    } else {
                                        let ghost base = ops.len();
                                        let mut j: usize = 0;
                                        while j < items.len()
                                            invariant
                                                j <= items.len(),
                                                ops.len() == base + j,
                                                base == held.len(),
                                                at == path@.push(ItemView::Key(key@)),
                                                ops@.subrange(0, base as int) == held,
                                                forall|k: int|
                                                    0 <= k < j ==> transforms(
                                                        #[trigger] ops@.subrange(
                                                            base as int,
                                                            ops.len() as int,
                                                        )[k],
                                                        key@,
                                                        items[k]@,
                                                        at.push(ItemView::Index(k as usize)),
                                                        true,
                                                    ),
                                            decreases items.len() - j,
                                        {
                                            let ghost before = ops@;
                                            ops.push(
                                                transform(
                                                    key.as_str(),
                                                    &items[j],
                                                    path.with_key(key.as_str()).with_index(j),
                                                    true,
                                                ),
                                            );
                                            proof {
                                                assert(ops@.subrange(0, base as int) =~= held);
                                                assert forall|k: int| 0 <= k < j + 1 implies transforms(
                                                    #[trigger] ops@.subrange(
                                                        base as int,
                                                        ops.len() as int,
                                                    )[k],
                                                    key@,
                                                    items[k]@,
                                                    at.push(ItemView::Index(k as usize)),
                                                    true,
                                                ) by {
                                                    if k < j {
                                                        assert(ops@.subrange(
                                                            base as int,
                                                            ops.len() as int,
                                                        )[k] == before.subrange(
                                                            base as int,
                                                            before.len() as int,
                                                        )[k]);
                                                    }
                                                }
                                            }
                                            j += 1;
                                        }
                                        assert(listed(item@) =~= crate::value::value::values_view(
                                            *items,
                                        ));
                                    }
                                },
                                None => {
                                    ops.push(
                                        transform(
                                            key.as_str(),
                                            item,
                                            path.with_key(key.as_str()),
                                            true,
                                        ),
                                    );
                                    assert(ops@.subrange(0, held.len() as int) =~= held);
                                },
                            }
                        },
                        None => {},
                    }
                    i += 1;
                }
                assert(entries@.take(i as int) =~= entries@);
            },
            None => {},
        }
        ops
    }
}

} // verus!
