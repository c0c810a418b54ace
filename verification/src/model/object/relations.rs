use vstd::prelude::*;
use crate::collections::names::{names_of, pair_named, pair_names, position, take_pair};
use crate::model::model::Model;
use crate::model::relation::Relation;
use crate::model::object::machine::{
    ends_well, fails_with, no_model, no_record, unexpected, unexpected_reply, Frame, Input,
    Returned, Step,
};
use crate::model::object::hydrate::row_entries;
use crate::model::object::nested::{
    disconnects, plans_many, plans_one, replaces_many, unlinks_target, Op,
};
use crate::model::object::object::Object;
use crate::model::object::script::Script;
use crate::namespace::namespace::Namespace;
use crate::path::error::Error;
use crate::path::key_path::{ItemView, KeyPath};
use crate::value::value::lookup;

verus! {

/// Which of the mutations queued for a relation is due.
#[derive(Debug, Copy, Clone, PartialEq, Eq, Structural)]
pub enum Phase {
    /// The mutations of the relation at the index are due.
    Replace,
    /// The mutations of the relation at the index run.
    Running,
}

/// The mutations queued for the relations of a record under way: the
/// relations before `index` are done.
#[derive(Debug)]
pub struct Relations {
    pub object: usize,
    pub path: KeyPath,
    /// Whether the relations that hold the foreign key on this record are
    /// walked, or the other ones.
    pub foreign_key_side: bool,
    pub index: usize,
    pub phase: Phase,
}

/// Moves `objects` to the end of `records` and hands back their numbers.
pub fn enroll(records: &mut Vec<Object>, objects: Vec<Object>) -> (numbers: Vec<usize>)
    ensures
        final(records)@ == old(records)@ + objects@,
        numbers@ == Seq::new(objects.len() as nat, |i: int| (old(records).len() + i) as usize),
{
    let count = objects.len();
    let start = records.len();
    let mut objects = objects;
    records.append(&mut objects);
    let mut numbers: Vec<usize> = Vec::new();
    let mut i: usize = 0;
    while i < count
        invariant
            i <= count,
            records.len() == start + count,
            numbers@ == Seq::new(i as nat, |k: int| (start + k) as usize),
        decreases count - i,
    {
        numbers.push(start + i);
        assert(numbers@ =~= Seq::new((i + 1) as nat, |k: int| (start + k) as usize));
        i += 1;
    }
    numbers
}

/// The number of operations that follow the operation that makes a record
/// the target: the one that links it, or those that unlink it.
pub open spec fn width_after_target(relation: Relation, link: bool) -> int {
    if link || relation.has_foreign_key || relation.through is Some {
        1
    } else {
        2
    }
}

/// Whether `added` holds, for each of `numbers` in their order, the
/// operation that makes the record of that number the target, followed by
/// the operation that links the target and saves it, or else by the
/// operations that unlink it from the owner of `relation`.
pub open spec fn targets_each(added: Seq<Op>, numbers: Seq<usize>, relation: Relation, path: Seq<ItemView>, link: bool) -> bool
    decreases numbers.len(),
{
    if numbers.len() == 0 {
        added.len() == 0
    } else {
        let cut = added.len() - 1 - width_after_target(relation, link);
        &&& cut >= 0
        &&& targets_each(added.subrange(0, cut), numbers.drop_last(), relation, path, link)
        &&& added[cut] == Op::Target(numbers.last())
        &&& if link {
            added[cut + 1] is Link
        } else {
            unlinks_target(added.subrange(cut + 1, added.len() as int), relation, path)
        }
    }
}

/// Adds to `ops`, for each of the records numbered `numbers`, the operation
/// that makes it the target and then the operation that links it, or the
/// operations that unlink it. The operations that `ops` held stay first.
fn for_targets(ops: &mut Vec<Op>, numbers: &Vec<usize>, relation: &crate::model::relation::Relation, path: &KeyPath, link: bool)
    ensures
        final(ops).len() >= old(ops).len(),
        forall|i: int| 0 <= i < old(ops).len() ==> #[trigger] final(ops)[i] == old(ops)[i],
        final(ops)@.subrange(0, old(ops).len() as int) == old(ops)@,
        targets_each(
            final(ops)@.subrange(old(ops).len() as int, final(ops).len() as int),
            numbers@,
            *relation,
            path@,
            link,
        ),
{
    let ghost before = ops@;
    let ghost start = ops.len() as int;
    let mut i: usize = 0;
    assert(ops@.subrange(0, start) =~= before);
    assert(ops@.subrange(start, ops.len() as int).len() == 0);
    assert(numbers@.take(0).len() == 0);
    while i < numbers.len()
        invariant
            i <= numbers.len(),
            start == before.len(),
            ops.len() >= before.len(),
            forall|k: int| 0 <= k < before.len() ==> #[trigger] ops[k] == before[k],
            ops@.subrange(0, start) == before,
            targets_each(
                ops@.subrange(start, ops.len() as int),
                numbers@.take(i as int),
                *relation,
                path@,
                link,
            ),
        decreases numbers.len() - i,
    {
        let ghost held = ops@;
        ops.push(Op::Target(numbers[i]));
        if link {
            ops.push(Op::Link);
        } else {
            let mut unlink = Object::unlink_target(relation, path);
            let ghost tail = unlink@;
            ops.append(&mut unlink);
            assert(ops@.subrange(held.len() as int + 1, ops.len() as int) =~= tail);
        }
        proof {
            let added = ops@.subrange(start, ops.len() as int);
            let cut = added.len() - 1 - width_after_target(*relation, link);
            assert(cut == held.len() - start);
            assert(added.subrange(0, cut) =~= held.subrange(start, held.len() as int));
            assert(numbers@.take(i + 1).drop_last() =~= numbers@.take(i as int));
            assert(numbers@.take(i + 1).last() == numbers[i as int]);
            assert(added[cut] == ops@[held.len() as int]);
            if !link {
                assert(added.subrange(cut + 1, added.len() as int) =~= ops@.subrange(
                    held.len() as int + 1,
                    ops.len() as int,
                ));
            }
            assert(ops@.subrange(0, start) =~= before);
        }
        i += 1;
    }
    assert(numbers@.take(i as int) =~= numbers@);
}

/// The numbers of `count` records that follow one another from `first`.
pub open spec fn numbered(first: int, count: nat) -> Seq<usize> {
    Seq::new(count, |i: int| (first + i) as usize)
}

/// The records under `name` in a list of named lists of records; none
/// where the list has no such name.
pub open spec fn listed_under(list: Vec<(String, Vec<Object>)>, name: Seq<char>) -> Seq<Object> {
    match pair_named(list, name) {
        Some(objects) => objects@,
        None => Seq::empty(),
    }
}

/// The records that the program asked to make the records of `relation`:
/// those of the list under its name for a to-many relation, the one record
/// under its name, where there is one, for a to-one relation.
pub open spec fn records_to_set(record: Object, relation: Relation) -> Seq<Object> {
    if relation.is_vec {
        listed_under(record.object_set_many_map, relation.name@)
    } else {
        match pair_named(record.object_set_map, relation.name@) {
            Some(Some(object)) => seq![object],
            _ => Seq::empty(),
        }
    }
}

/// Whether `after` is `before` without its first item named `name`.
pub open spec fn taken_out<T>(before: Vec<(String, T)>, after: Vec<(String, T)>, name: Seq<char>) -> bool {
    if pair_named(before, name) is Some {
        after@ == before@.remove(position(pair_names(before), name))
    } else {
        after@ == before@
    }
}

/// Whether `ops` is the plan that makes the records that the program asked
/// to set the records of `relation`: for a to-many relation what
/// [`replaces_many`] says; for a to-one relation the disconnection of the
/// record that the relation holds, and then, where the program named a
/// record, what makes it the target and links it. Nothing is planned where
/// the program asked for nothing. The records are numbered from `first`.
pub open spec fn set_planned(ops: Seq<Op>, record: Object, relation: Relation, path: Seq<ItemView>, first: int) -> bool {
    let name = relation.name@;
    if relation.is_vec {
        match pair_named(record.object_set_many_map, name) {
            Some(objects) => replaces_many(
                ops,
                relation,
                numbered(first, objects.len() as nat),
                path,
            ),
            None => ops.len() == 0,
        }
    } else {
        match pair_named(record.object_set_map, name) {
            Some(wanted) => {
                let cut = ops.len() - (if wanted is Some {
                    2int
                } else {
                    0int
                });
                &&& cut >= 0
                &&& crate::model::object::nested::disconnects(
                    ops.subrange(0, cut),
                    relation,
                    record.spec_intrinsic_filter(&relation),
                    path,
                )
                &&& targets_each(
                    ops.subrange(cut, ops.len() as int),
                    numbered(first, records_to_set(record, relation).len()),
                    relation,
                    path,
                    true,
                )
            },
            None => ops.len() == 0,
        }
    }
}

/// Whether `ops` is the plan for the payload that the user sent for
/// `relation`; nothing is planned where there is none.
pub open spec fn payload_planned(ops: Seq<Op>, record: Object, relation: Relation, path: Seq<ItemView>) -> bool {
    match lookup(record.relation_mutation_map@, relation.name@) {
        Some(payload) => if relation.is_vec {
            plans_many(ops, row_entries(payload), path.push(ItemView::Key(relation.name@)))
        } else {
            plans_one(ops, row_entries(payload), path.push(ItemView::Key(relation.name@)))
        },
        None => ops.len() == 0,
    }
}

/// Whether `ops`, cut at `a`, `b` and `c`, is the plan for the mutations of
/// `relation` that are queued on `record`, in this order: what makes the
/// records to set the records of the relation; what links the records to
/// connect; what unlinks the records to disconnect; and the plan for the
/// payload of the user. The records that the program named are numbered
/// from `first` on, in the same order.
pub open spec fn planned(ops: Seq<Op>, a: int, b: int, c: int, record: Object, relation: Relation, path: Seq<ItemView>, first: int) -> bool {
    let name = relation.name@;
    let sets = records_to_set(record, relation);
    let connects = listed_under(record.object_connect_map, name);
    let disconnects = listed_under(record.object_disconnect_map, name);
    &&& 0 <= a <= b <= c <= ops.len()
    &&& set_planned(ops.subrange(0, a), record, relation, path, first)
    &&& targets_each(
        ops.subrange(a, b),
        numbered(first + sets.len(), connects.len()),
        relation,
        path,
        true,
    )
    &&& targets_each(
        ops.subrange(b, c),
        numbered(first + sets.len() + connects.len(), disconnects.len()),
        relation,
        path,
        false,
    )
    &&& payload_planned(ops.subrange(c, ops.len() as int), record, relation, path)
}

/// Whether `later` is `earlier` after the records that the program named
/// for `relation` were taken out of the record numbered `object` and became
/// records themselves, in this order: the records to set, to connect, to
/// disconnect. Nothing else of the record changes.
pub open spec fn enrolled(earlier: Seq<Object>, later: Seq<Object>, object: usize, relation: Relation) -> bool {
    let before = earlier[object as int];
    let after = later[object as int];
    let name = relation.name@;
    &&& later == earlier.update(object as int, after) + records_to_set(before, relation)
        + listed_under(before.object_connect_map, name) + listed_under(
        before.object_disconnect_map,
        name,
    )
    &&& after == (Object {
        object_set_map: after.object_set_map,
        object_set_many_map: after.object_set_many_map,
        object_connect_map: after.object_connect_map,
        object_disconnect_map: after.object_disconnect_map,
        ..before
    })
    &&& if relation.is_vec {
        taken_out(before.object_set_many_map, after.object_set_many_map, name)
            && after.object_set_map == before.object_set_map
    } else {
        taken_out(before.object_set_map, after.object_set_map, name) && after.object_set_many_map
            == before.object_set_many_map
    }
    &&& taken_out(before.object_connect_map, after.object_connect_map, name)
    &&& taken_out(before.object_disconnect_map, after.object_disconnect_map, name)
}

/// Takes the records that the program asked to make the records of
/// `relation` out of the record numbered `object`, makes them records of
/// their own, and plans what sets them.
fn plan_set(records: &mut Vec<Object>, object: usize, relation: &Relation, path: &KeyPath) -> (ops: Vec<Op>)
    requires
        object < old(records).len(),
    ensures
        set_planned(ops@, old(records)[object as int], *relation, path@, old(records).len() as int),
        final(records)@ == old(records)@.update(object as int, final(records)[object as int])
            + records_to_set(old(records)[object as int], *relation),
        final(records)[object as int] == (Object {
            object_set_map: final(records)[object as int].object_set_map,
            object_set_many_map: final(records)[object as int].object_set_many_map,
            ..old(records)[object as int]
        }),
        if relation.is_vec {
            taken_out(
                old(records)[object as int].object_set_many_map,
                final(records)[object as int].object_set_many_map,
                relation.name@,
            ) && final(records)[object as int].object_set_map == old(records)[object as int].object_set_map
        } else {
            taken_out(
                old(records)[object as int].object_set_map,
                final(records)[object as int].object_set_map,
                relation.name@,
            ) && final(records)[object as int].object_set_many_map == old(records)[object as int].object_set_many_map
        },
{
    let name = relation.name.as_str();
    let ghost first = records.len() as int;
    let ghost start = records@;
    let mut ops: Vec<Op> = Vec::new();
    if relation.is_vec {
        match take_pair(&mut records[object].object_set_many_map, name) {
            Some(objects) => {
                let ghost held = records@;
                let numbers = enroll(records, objects);
                assert(numbers@ =~= numbered(first, objects.len() as nat));
                assert(records@ =~= start.update(object as int, records[object as int])
                    + objects@);
                return Object::nested_set_many_relation_object_object(relation, &numbers, path);
            },
            None => {
                assert(records@ =~= start.update(object as int, records[object as int])
                    + Seq::<Object>::empty());
            },
        }
    } else {
        match take_pair(&mut records[object].object_set_map, name) {
            Some(wanted) => {
                let filter = records[object].intrinsic_where_unique_for_relation(relation);
                proof {
                    let now = records[object as int];
                    let then = start[object as int];
                    assert(now.value_map == then.value_map);
                    assert(Seq::new(
                        relation.spec_pair_count(),
                        |i: int| now.value_or_null(relation.fields[i]@),
                    ) =~= Seq::new(
                        relation.spec_pair_count(),
                        |i: int| then.value_or_null(relation.fields[i]@),
                    ));
                    assert(now.spec_intrinsic_filter(relation) == then.spec_intrinsic_filter(
                        relation,
                    ));
                }
                let mut detach = Object::nested_disconnect_relation_object(relation, &filter, path);
                let ghost plan = detach@;
                ops.append(&mut detach);
                assert(ops@ =~= plan);
                match wanted {
                    Some(object_to_set) => {
                        let numbers = enroll(records, vec![object_to_set]);
                        assert(numbers@ =~= numbered(first, 1));
                        assert(records@ =~= start.update(object as int, records[object as int])
                            + seq![object_to_set]);
                        for_targets(&mut ops, &numbers, relation, path, true);
                        proof {
                            reveal_with_fuel(targets_each, 2);
                            let added = ops@.subrange(plan.len() as int, ops.len() as int);
                            assert(numbers@.drop_last().len() == 0);
                            assert(added.subrange(0, added.len() - 2).len() == 0);
                            assert(added.len() == 2);
                            assert(ops@.subrange(0, ops.len() - 2) =~= plan);
                            assert(ops@.subrange(ops.len() - 2, ops.len() as int) =~= added);
                        }
                    },
                    None => {
                        assert(ops@.subrange(0, ops.len() as int) =~= plan);
                        assert(ops@.subrange(ops.len() as int, ops.len() as int).len() == 0);
                        assert(numbered(first, 0).len() == 0);
                        assert(records@ =~= start.update(object as int, records[object as int])
                            + Seq::<Object>::empty());
                    },
                }
            },
            None => {
                assert(records@ =~= start.update(object as int, records[object as int])
                    + Seq::<Object>::empty());
            },
        }
    }
    ops
}

/// Takes the records that the program asked to connect through `relation`,
/// or to disconnect from it, out of the record numbered `object`, makes
/// them records of their own, and plans what links or unlinks each.
fn plan_linked(records: &mut Vec<Object>, object: usize, relation: &Relation, path: &KeyPath, link: bool) -> (ops: Vec<Op>)
    requires
        object < old(records).len(),
    ensures
        targets_each(
            ops@,
            numbered(
                old(records).len() as int,
                (if link {
                    listed_under(old(records)[object as int].object_connect_map, relation.name@)
                } else {
                    listed_under(old(records)[object as int].object_disconnect_map, relation.name@)
                }).len(),
            ),
            *relation,
            path@,
            link,
        ),
        final(records)@ == old(records)@.update(object as int, final(records)[object as int])
            + (if link {
            listed_under(old(records)[object as int].object_connect_map, relation.name@)
        } else {
            listed_under(old(records)[object as int].object_disconnect_map, relation.name@)
        }),
        final(records)[object as int] == (Object {
            object_connect_map: final(records)[object as int].object_connect_map,
            object_disconnect_map: final(records)[object as int].object_disconnect_map,
            ..old(records)[object as int]
        }),
        if link {
            taken_out(
                old(records)[object as int].object_connect_map,
                final(records)[object as int].object_connect_map,
                relation.name@,
            ) && final(records)[object as int].object_disconnect_map == old(records)[object as int].object_disconnect_map
        } else {
            taken_out(
                old(records)[object as int].object_disconnect_map,
                final(records)[object as int].object_disconnect_map,
                relation.name@,
            ) && final(records)[object as int].object_connect_map == old(records)[object as int].object_connect_map
        },
{
    let name = relation.name.as_str();
    let ghost first = records.len() as int;
    let ghost start = records@;
    let mut ops: Vec<Op> = Vec::new();
    let taken = if link {
        take_pair(&mut records[object].object_connect_map, name)
    } else {
        take_pair(&mut records[object].object_disconnect_map, name)
    };
    match taken {
        Some(objects) => {
            let numbers = enroll(records, objects);
            assert(numbers@ =~= numbered(first, objects.len() as nat));
            assert(records@ =~= start.update(object as int, records[object as int]) + objects@);
            for_targets(&mut ops, &numbers, relation, path, link);
            assert(ops@.subrange(0, ops.len() as int) =~= ops@);
        },
        None => {
            assert(numbered(first, 0).len() == 0);
            assert(records@ =~= start.update(object as int, records[object as int])
                + Seq::<Object>::empty());
        },
    }
    ops
}

/// Plans the mutations of `relation` that are queued on the record numbered
/// `object`: what the program asked for, the records to set, to connect
/// and to disconnect, in this order, and then the payload of the user. The
/// records that the program named are taken out of the record and become
/// records of their own.
fn plan_relation(records: &mut Vec<Object>, object: usize, relation: &Relation, path: &KeyPath) -> (ops: Vec<Op>)
    requires
        object < old(records).len(),
    ensures
        exists|a: int, b: int, c: int|
            #[trigger] planned(
                ops@,
                a,
                b,
                c,
                old(records)[object as int],
                *relation,
                path@,
                old(records).len() as int,
            ),
        enrolled(old(records)@, final(records)@, object, *relation),
{
    let name = relation.name.as_str();
    let at = path.with_key(name);
    let ghost start = records@;
    let ghost before = records[object as int];
    let ghost first = records.len() as int;
    let ghost sets = records_to_set(before, *relation);
    let ghost connects = listed_under(before.object_connect_map, name@);
    let ghost disconnects = listed_under(before.object_disconnect_map, name@);
    let mut ops = plan_set(records, object, relation, path);
    let ghost a = ops.len() as int;
    let ghost set_part = ops@;
    let ghost after_set = records@;
    let mut link = plan_linked(records, object, relation, path, true);
    let ghost link_part = link@;
    let ghost after_link = records@;
    ops.append(&mut link);
    let ghost b = ops.len() as int;
    let mut unlink = plan_linked(records, object, relation, path, false);
    let ghost unlink_part = unlink@;
    ops.append(&mut unlink);
    let ghost c = ops.len() as int;
    let mut payload_part: Vec<Op> = Vec::new();
    match records[object].relation_mutation_map.get(name) {
        Some(payload) => {
            payload_part = if relation.is_vec {
                Object::perform_relation_manipulation_many(payload, &at)
            } else {
                Object::perform_relation_manipulation_one(payload, &at)
            };
        },
        None => {},
    }
    let ghost rest = payload_part@;
    ops.append(&mut payload_part);
    proof {
        assert(ops@.subrange(0, a) =~= set_part);
        assert(ops@.subrange(a, b) =~= link_part);
        assert(ops@.subrange(b, c) =~= unlink_part);
        assert(ops@.subrange(c, ops.len() as int) =~= rest);
        assert(after_set.len() == first + sets.len());
        assert(after_link.len() == first + sets.len() + connects.len());
        assert(planned(ops@, a, b, c, before, *relation, path@, first));
        assert(records@ =~= start.update(object as int, records[object as int])
            + sets + connects + disconnects);
    }
    ops
}

impl Relations {
    /// The mutations of the record numbered `object`, not started yet.
    pub fn new(object: usize, path: KeyPath, foreign_key_side: bool) -> (frame: Relations)
        ensures
            frame == (Relations { object, path, foreign_key_side, index: 0, phase: Phase::Replace }),
    {
        Relations { object, path, foreign_key_side, index: 0, phase: Phase::Replace }
    }

    /// Whether the frame knows its record and the record's model.
    pub open spec fn grounded(&self, namespace: &Namespace, records: Seq<Object>) -> bool {
        &&& self.object < records.len()
        &&& namespace.spec_model(names_of(records[self.object as int].model_path)) is Some
    }

    /// The model of the frame's record.
    pub open spec fn model(&self, namespace: &Namespace, records: Seq<Object>) -> Model {
        namespace.spec_model(names_of(records[self.object as int].model_path))->0
    }

    /// Whether `step`, and the records after it, are what [`Relations::start`]
    /// makes of the walk as it stands.
    pub open spec fn start_step(self, namespace: &Namespace, earlier: Vec<Object>, later: Vec<Object>, step: Step) -> bool {
        &&& earlier.len() <= later.len()
        &&& forall|j: int|
            0 <= j < earlier.len() && j != self.object ==> #[trigger] later[j]
                == earlier[j]
        &&& !self.grounded(namespace, earlier@) ==> step is Return && !ends_well(step)
        &&& (self.grounded(namespace, earlier@) ==> {
            let model = self.model(namespace, earlier@);
            if self.index >= model.relations.len() {
                step == Step::Return(Ok(Returned::Done)) && later@ == earlier@
            } else if model.relations[self.index as int].has_foreign_key
                != self.foreign_key_side {
                step == Step::Again(
                    Frame::Relations(
                        Relations { index: (self.index + 1) as usize, ..self },
                    ),
                ) && later@ == earlier@
            } else {
                &&& step matches Step::Call(Frame::Relations(next), Frame::Script(script))
                    && next == (Relations { phase: Phase::Running, ..self }) && script.owner
                    == self.object && script.relation == self.index && script.path@
                    == self.path@ && script.target is None
                    && script.wait == crate::model::object::script::Wait::Ready
                    && exists|a: int, b: int, c: int|
                    #[trigger] planned(
                        script.ops@,
                        a,
                        b,
                        c,
                        earlier[self.object as int],
                        model.relations[self.index as int],
                        self.path@,
                        earlier.len() as int,
                    )
                &&& enrolled(earlier@, later@, self.object, model.relations[self.index as int])
                &&& later[self.object as int].value_map == earlier[self.object as int].value_map
                &&& later[self.object as int].relation_mutation_map == earlier[self.object as int].relation_mutation_map
                &&& later[self.object as int].is_new == earlier[self.object as int].is_new
                &&& later[self.object as int].is_modified == earlier[self.object as int].is_modified
                &&& later[self.object as int].modified_fields == earlier[self.object as int].modified_fields
            }
        })
    }

    /// Starts the mutations of the relation at the index, where it is on
    /// the side that is walked: first what the program asked for, the
    /// records to set, to connect and to disconnect, then the payload that
    /// the user sent. What the program asked for is taken out of the
    /// record. Once every relation is done, the walk ends.
    pub fn start(self, namespace: &Namespace, records: &mut Vec<Object>) -> (step: Step)
        requires
            self.index < usize::MAX,
        ensures
            self.start_step(namespace, *old(records), *final(records), step),
    {
        if self.object >= records.len() {
            return Step::Return(Err(no_record()));
        }
        let model = match namespace.model_at_path(&records[self.object].model_path) {
            Some(model) => model,
            None => {
                return Step::Return(Err(no_model()));
            },
        };
        if self.index >= model.relations.len() {
            return Step::Return(Ok(Returned::Done));
        }
        let relation = &model.relations[self.index];
        if relation.has_foreign_key() != self.foreign_key_side {
            return Step::Again(Frame::Relations(Relations { index: self.index + 1, ..self }));
        }
        let ops = plan_relation(records, self.object, relation, &self.path);
        let script = Script::new(self.object, self.index, self.path.clone(), ops, None);
        Step::Call(
            Frame::Relations(Relations { phase: Phase::Running, ..self }),
            Frame::Script(script),
        )
    }

    /// Whether `step`, and the records after it, are what
    /// [`Relations::after_running`] makes of the walk as it stands.
    pub open spec fn after_running_step(self, result: Result<Returned, Error>, step: Step) -> bool {
        &&& match result {
            Err(cause) => step == Step::Return(Err(cause)),
            Ok(_) => step == Step::Again(
                Frame::Relations(
                    Relations {
                        index: (self.index + 1) as usize,
                        phase: Phase::Replace,
                        ..self
                    },
                ),
            ),
        }
    }

    /// Takes in the result of the mutations of the relation at the index:
    /// the next relation is due.
    pub fn after_running(self, result: Result<Returned, Error>) -> (step: Step)
        requires
            self.index < usize::MAX,
        ensures
            self.after_running_step(result, step),
    {
        match result {
            Err(cause) => Step::Return(Err(cause)),
            Ok(_) => Step::Again(
                Frame::Relations(
                    Relations { index: self.index + 1, phase: Phase::Replace, ..self },
                ),
            ),
        }
    }

    /// Whether `step`, and the records after it, are what the walk makes of
    /// `input`: each stage takes in what it waits for, and any other input ends
    /// the walk with an error and leaves the records as they are.
    pub open spec fn perform_relation_manipulations_step(self, namespace: &Namespace, earlier: Vec<Object>, later: Vec<Object>, input: Input, step: Step) -> bool {
        &&& earlier.len() <= later.len()
        &&& forall|j: int|
            0 <= j < earlier.len() && j != self.object ==> #[trigger] later[j]
                == earlier[j]
        &&& !(step is Emit)
        &&& ends_well(step) ==> self.phase == Phase::Replace && self.grounded(
            namespace,
            earlier@,
        ) && self.index >= self.model(namespace, earlier@).relations.len() && later@ == earlier@
        &&& if self.index == usize::MAX {
            fails_with(step, unexpected_reply()) && later@ == earlier@
        } else {
            match (self.phase, input) {
                (Phase::Replace, Input::Start) => self.start_step(namespace, earlier, later, step),
                (Phase::Running, Input::Returned(result)) => self.after_running_step(
                    result,
                    step,
                ) && later@ == earlier@,
                _ => fails_with(step, unexpected_reply()) && later@ == earlier@,
            }
        }
    }

    /// Resumes the walk of the relations.
    ///
    /// The records that the program asked to set, connect or disconnect
    /// are taken out of the record and become records of the operation;
    /// nothing else of the record changes, and no other record does. The
    /// walk ends well only when every relation is done.
    pub fn perform_relation_manipulations(self, namespace: &Namespace, records: &mut Vec<Object>, input: Input) -> (step: Step)
        ensures
            self.perform_relation_manipulations_step(namespace, *old(records), *final(records), input, step),
    {
        if self.index == usize::MAX {
            return Step::Return(Err(unexpected()));
        }
        match (self.phase, input) {
            (Phase::Replace, Input::Start) => self.start(namespace, records),
            (Phase::Running, Input::Returned(result)) => self.after_running(result),
            _ => Step::Return(Err(unexpected())),
        }
    }
}

} // verus!
