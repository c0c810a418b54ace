use vstd::prelude::*;
use crate::action::action::{Action, FIND, INTERNAL_POSITION, MANY, NESTED, PROGRAM_CODE, SINGLE};
use crate::collections::names::{copy_names, find_pair, names_of, put_pair};
use crate::model::model::Model;
use crate::model::object::arena::{add_found, found_as};
use crate::model::object::copy::{copy_object, same_record};
use crate::model::object::hydrate::{
    lemma_last_named, nested_rows, row_entries, taken_below,
};
use crate::model::object::machine::{
    fails_with, no_model, no_record, unexpected, unexpected_reply, Frame, Input, Reply, Request,
    Returned, Step,
};
use crate::model::object::nested::{extended, part, spec_part};
use crate::model::object::object::{invalid_key, invalid_key_error, Object};
use crate::model::object::to_json::grown;
use crate::model::relation::Relation;
use crate::namespace::namespace::Namespace;
use crate::path::error::{Error, ErrorKind, ErrorView};
use crate::value::value::{copy_value, entries_insert, values_view, Dictionary, Value, ValueView};

verus! {

/// How far the fetching of the records of a relation has come.
#[derive(Debug, Copy, Clone, PartialEq, Eq, Structural)]
pub enum FetchStage {
    /// Nothing was done yet.
    Begin,
    /// The store finds the records.
    Finding,
    /// The store finds the owner again, with the records of the relation.
    Including,
}

/// The fetching of the records of the relation `key` of the record
/// numbered `object`.
#[derive(Debug)]
pub struct Fetch {
    pub object: usize,
    pub key: String,
    /// Whether every record is fetched, as for a to-many relation, or the
    /// one record of a to-one relation.
    pub many: bool,
    pub arguments: Option<Value>,
    pub stage: FetchStage,
    /// Whether records that were fetched before are handed back without
    /// asking the store again.
    pub reuse: bool,
}

/// The error for a related record that the store does not hold.
pub open spec fn not_found() -> ErrorView {
    ErrorView { kind: ErrorKind::NotFound, message: "object is not found"@, path: None }
}

/// The entries of `arguments` with, under `where`, what they hold there
/// merged with `link`.
pub open spec fn linked_finder(arguments: Seq<(Seq<char>, ValueView)>, link: Seq<(Seq<char>, ValueView)>) -> Seq<(Seq<char>, ValueView)> {
    entries_insert(
        arguments,
        "where"@,
        ValueView::Dictionary(
            extended(row_entries(spec_part(ValueView::Dictionary(arguments), "where"@)), link),
        ),
    )
}

/// The finder for a record with the records of one of its relations: the
/// identifier of the record under `where`, and under `include` the
/// arguments of the caller under the name of the relation.
pub open spec fn including_finder(identifier: ValueView, key: Seq<char>, arguments: ValueView) -> ValueView {
    ValueView::Dictionary(
        entries_insert(
            entries_insert(Seq::empty(), "where"@, identifier),
            "include"@,
            ValueView::Dictionary(entries_insert(Seq::empty(), key, arguments)),
        ),
    )
}

/// The finder for the records that `link` names, with the arguments of
/// the caller.
pub fn finder_with(arguments: Option<&Value>, link: &Value) -> (finder: Value)
    ensures
        finder@ == ValueView::Dictionary(
            linked_finder(
                match arguments {
                    Some(given) => row_entries(given@),
                    None => Seq::empty(),
                },
                row_entries(link@),
            ),
        ),
{
    let mut entries = match arguments {
        Some(given) => match given.as_dictionary() {
            Some(entries) => entries.clone(),
            None => Dictionary::new(),
        },
        None => Dictionary::new(),
    };
    let given = part(&Value::Dictionary(entries.clone()), "where");
    let base = match given {
        Value::Dictionary(_) => given,
        _ => Value::Dictionary(Dictionary::new()),
    };
    let link = match link {
        Value::Dictionary(_) => copy_value(link),
        _ => Value::Dictionary(Dictionary::new()),
    };
    let merged = crate::model::object::nested::merged_filter(&base, &link);
    entries.insert("where".to_owned(), merged);
    Value::Dictionary(entries)
}

impl Object {
    /// Whether the record holds a value for every local field of
    /// `relation`; a record that does not is linked to no record.
    pub open spec fn holds_link(&self, relation: &Relation) -> bool {
        forall|i: int|
            0 <= i < relation.spec_pair_count() ==> !(self.value_or_null(
                #[trigger] relation.fields[i]@,
            ) is Null)
    }

    /// Whether the record holds a value for every local field of
    /// `relation`.
    pub fn has_link(&self, relation: &Relation) -> (held: bool)
        ensures
            held == self.holds_link(relation),
    {
        let count = relation.pair_count();
        let mut i: usize = 0;
        let mut held = true;
        while i < count
            invariant
                i <= count,
                count == relation.spec_pair_count(),
                held == (forall|j: int|
                    0 <= j < i ==> !(self.value_or_null(#[trigger] relation.fields[j]@) is Null)),
            decreases count - i,
        {
            if self.get_value_map_value(relation.fields[i].as_str()).is_null() {
                held = false;
            }
            i += 1;
        }
        held
    }
}

impl Fetch {
    /// The fetching of the records of a relation, not started yet.
    pub fn new(object: usize, key: String, many: bool, arguments: Option<Value>) -> (frame: Fetch)
        ensures
            frame == (Fetch {
                object,
                key,
                many,
                arguments,
                stage: FetchStage::Begin,
                reuse: false,
            }),
    {
        Fetch { object, key, many, arguments, stage: FetchStage::Begin, reuse: false }
    }

    /// Whether `step`, and the records after it, are what [`Fetch::recall`]
    /// makes of the fetching as it stands.
    pub open spec fn recall_step(&self, earlier: Vec<Object>, later: Vec<Object>, step: Option<Step>) -> bool {
        &&& grown(earlier@, later@)
        &&& match step {
            None => later@ == earlier@ && !(self.object < earlier.len()
                && earlier[self.object as int].fetched(self.key@) is Some),
            Some(step) => self.object < earlier.len() && match earlier[self.object as int].fetched(self.key@) {
                Some(children) => if children.len() > 0 {
                    step == Step::Return(Ok(Returned::Record(earlier.len()))) && later.len() == earlier.len() + 1 && same_record(
                        children[0],
                        later[earlier.len() as int],
                    )
                } else {
                    step == Step::Return(Ok(Returned::Done)) && later@ == earlier@
                },
                None => false,
            },
        }
    }

    /// Hands back the record of the relation that was fetched before, as a
    /// record of the operation, where the relation was fetched.
    pub fn recall(&self, records: &mut Vec<Object>) -> (step: Option<Step>)
        ensures
            self.recall_step(*old(records), *final(records), step),
    {
        if self.object >= records.len() {
            return None;
        }
        match find_pair(&records[self.object].relation_query_map, self.key.as_str()) {
            Some(at) => {
                if records[self.object].relation_query_map[at].1.len() > 0 {
                    let copy = copy_object(&records[self.object].relation_query_map[at].1[0]);
                    let number = records.len();
                    records.push(copy);
                    Some(Step::Return(Ok(Returned::Record(number))))
                } else {
                    Some(Step::Return(Ok(Returned::Done)))
                }
            },
            None => None,
        }
    }

    /// Whether the frame knows its record, the record's model and the
    /// relation.
    pub open spec fn ready(&self, namespace: &Namespace, records: Seq<Object>) -> bool {
        &&& self.object < records.len()
        &&& namespace.spec_model(names_of(records[self.object as int].model_path)) is Some
        &&& self.model(namespace, records).spec_relation(self.key@) is Some
    }

    /// The model of the frame's record.
    pub open spec fn model(&self, namespace: &Namespace, records: Seq<Object>) -> Model {
        namespace.spec_model(names_of(records[self.object as int].model_path))->0
    }

    /// The relation that is fetched.
    pub open spec fn relation(&self, namespace: &Namespace, records: Seq<Object>) -> Relation {
        self.model(namespace, records).spec_relation(self.key@)->0
    }

    /// Whether `step`, and the records after it, are what [`Fetch::begin`]
    /// makes of the fetching as it stands.
    pub open spec fn begin_step(self, namespace: &Namespace, records: &Vec<Object>, step: Step) -> bool {
        &&& self.object < records.len() && namespace.spec_model(
            names_of(records[self.object as int].model_path),
        ) is Some && !self.ready(namespace, records@) ==> fails_with(
            step,
            invalid_key_error(self.key@),
        )
        &&& (self.ready(namespace, records@) ==> {
            let relation = self.relation(namespace, records@);
            let record = records[self.object as int];
            if self.many && relation.through is Some {
                step matches Step::Emit(
                    Frame::Fetch(next),
                    Request::FindUnique { model, finder, action },
                ) && next == (Fetch { stage: FetchStage::Including, ..self }) && names_of(model)
                    == names_of(record.model_path) && action.0 == INTERNAL_POSITION | FIND
                    | PROGRAM_CODE | MANY && finder@ == including_finder(
                    ValueView::Dictionary(
                        crate::value::value::entries_from(
                            names_of(self.model(namespace, records@).primary_index),
                            Seq::new(
                                self.model(namespace, records@).primary_index.len() as nat,
                                |i: int|
                                    record.value_or_null(
                                        self.model(namespace, records@).primary_index[i]@,
                                    ),
                            ),
                        ),
                    ),
                    self.key@,
                    match self.arguments {
                        Some(given) => given@,
                        None => ValueView::Dictionary(Seq::empty()),
                    },
                )
            } else if self.many && !record.holds_link(&relation) {
                step matches Step::Return(Ok(Returned::Records(found))) && found.len() == 0
            } else if self.many {
                step matches Step::Emit(
                    Frame::Fetch(next),
                    Request::FindMany { model, finder, action },
                ) && next == (Fetch { stage: FetchStage::Finding, ..self }) && names_of(model)
                    == names_of(relation.model_path) && action.0 == INTERNAL_POSITION | FIND
                    | PROGRAM_CODE | MANY && finder@ == ValueView::Dictionary(
                    linked_finder(
                        match self.arguments {
                            Some(given) => row_entries(given@),
                            None => Seq::empty(),
                        },
                        row_entries(record.spec_intrinsic_filter(&relation)),
                    ),
                )
            } else {
                step matches Step::Emit(
                    Frame::Fetch(next),
                    Request::FindUnique { model, finder, action },
                ) && next == (Fetch { stage: FetchStage::Finding, ..self }) && names_of(model)
                    == names_of(relation.model_path) && action.0 == NESTED | FIND
                    | PROGRAM_CODE | SINGLE && finder@ == ValueView::Dictionary(
                    linked_finder(
                        match self.arguments {
                            Some(given) => row_entries(given@),
                            None => Seq::empty(),
                        },
                        row_entries(record.spec_intrinsic_filter(&relation)),
                    ),
                )
            }
        })
    }

    /// Starts the fetching. A key that is no relation is refused. For a
    /// relation with a join table the store is asked for the owner again,
    /// with the records of the relation; for any other relation it is
    /// asked for the records that the link fields of the owner name, and a
    /// to-many relation of an owner that holds no link has no record.
    pub fn begin(self, namespace: &Namespace, records: &Vec<Object>) -> (step: Step)
        ensures
            self.begin_step(namespace, records, step),
    {
        if self.object >= records.len() {
            return Step::Return(Err(no_record()));
        }
        let record = &records[self.object];
        let model = match namespace.model_at_path(&record.model_path) {
            Some(model) => model,
            None => {
                return Step::Return(Err(no_model()));
            },
        };
        let relation = match model.relation(self.key.as_str()) {
            Some(relation) => relation,
            None => {
                return Step::Return(Err(invalid_key(self.key.as_str())));
            },
        };
        if self.many && relation.has_join_table() {
            let inside = match &self.arguments {
                Some(given) => copy_value(given),
                None => Value::Dictionary(Dictionary::new()),
            };
            let mut inclusion = Dictionary::new();
            inclusion.insert(self.key.clone(), inside);
            let mut finder = Dictionary::new();
            finder.insert("where".to_owned(), record.identifier(model));
            finder.insert("include".to_owned(), Value::Dictionary(inclusion));
            return Step::Emit(
                Frame::Fetch(Fetch { stage: FetchStage::Including, ..self }),
                Request::FindUnique {
                    model: copy_names(&record.model_path),
                    finder: Value::Dictionary(finder),
                    action: Action::from_u32(INTERNAL_POSITION | FIND | PROGRAM_CODE | MANY),
                },
            );
        }
        if self.many && !record.has_link(relation) {
            return Step::Return(Ok(Returned::Records(Vec::new())));
        }
        let link = record.intrinsic_where_unique_for_relation(relation);
        let finder = finder_with(self.arguments.as_ref(), &link);
        let sought = copy_names(&relation.model_path);
        if self.many {
            Step::Emit(
                Frame::Fetch(Fetch { stage: FetchStage::Finding, ..self }),
                Request::FindMany {
                    model: sought,
                    finder,
                    action: Action::from_u32(INTERNAL_POSITION | FIND | PROGRAM_CODE | MANY),
                },
            )
        } else {
            Step::Emit(
                Frame::Fetch(Fetch { stage: FetchStage::Finding, ..self }),
                Request::FindUnique {
                    model: sought,
                    finder,
                    action: Action::from_u32(NESTED | FIND | PROGRAM_CODE | SINGLE),
                },
            )
        }
    }

    /// Whether the record `after` is `before` with copies of `found` as the
    /// fetched records of the relation, and with nothing else changed.
    pub open spec fn remembers(&self, before: Object, after: Object, found: Seq<Object>) -> bool {
        &&& after.fetched(self.key@) matches Some(copies) && copies.len() == found.len()
            && forall|i: int| 0 <= i < found.len() ==> same_record(found[i], #[trigger] copies[i])
        &&& after == (Object { relation_query_map: after.relation_query_map, ..before })
        &&& forall|other: Seq<char>|
            other != self.key@ ==> after.fetched(other) == before.fetched(other)
    }

    /// Stores copies of the records numbered `found` as the fetched records
    /// of the relation.
    fn remember(&self, records: &mut Vec<Object>, found: &Vec<usize>)
        requires
            self.object < old(records).len(),
            forall|i: int| 0 <= i < found.len() ==> #[trigger] found[i] < old(records).len(),
        ensures
            crate::model::object::set_teon::others_same(old(records)@, final(records)@, self.object),
            final(records)[self.object as int].fetched(self.key@) is Some,
            final(records)[self.object as int] == (Object {
                relation_query_map: final(records)[self.object as int].relation_query_map,
                ..old(records)[self.object as int]
            }),
            forall|other: Seq<char>|
                other != self.key@ ==> final(records)[self.object as int].fetched(other) == old(records)[self.object as int].fetched(other),
            self.remembers(
                old(records)[self.object as int],
                final(records)[self.object as int],
                Seq::new(found.len() as nat, |i: int| old(records)[found[i] as int]),
            ),
    {
        let mut copies: Vec<Object> = Vec::new();
        let mut i: usize = 0;
        while i < found.len()
            invariant
                i <= found.len(),
                records == old(records),
                copies.len() == i,
                forall|k: int| 0 <= k < found.len() ==> #[trigger] found[k] < records.len(),
                forall|k: int|
                    0 <= k < i ==> same_record(records[found[k] as int], #[trigger] copies[k]),
            decreases found.len() - i,
        {
            if found[i] < records.len() {
                copies.push(copy_object(&records[found[i]]));
            }
            i += 1;
        }
        put_pair(&mut records[self.object].relation_query_map, self.key.clone(), copies);
    }

    /// Whether `step`, and the records after it, are what
    /// [`Fetch::after_finding`] makes of the fetching as it stands.
    pub open spec fn after_finding_step(self, namespace: &Namespace, earlier: Vec<Object>, later: Vec<Object>, reply: Reply, step: Step) -> bool {
        &&& grown_besides(earlier@, later@, self.object)
        &&& (match reply {
            Reply::Rows(Err(cause)) => step == Step::Return(Err(cause)),
            Reply::Row(Err(cause)) => step == Step::Return(Err(cause)),
            Reply::Row(Ok(None)) => fails_with(step, not_found()),
            Reply::Row(Ok(Some(row))) => if self.many {
                fails_with(step, unexpected_reply())
            } else {
                self.ready(namespace, earlier@) && namespace.spec_model(
                    names_of(self.relation(namespace, earlier@).model_path),
                ) is Some ==> {
                    &&& step == Step::Return(Ok(Returned::Record(earlier.len())))
                    &&& self.took_in(namespace, earlier@, later@, seq![row@])
                }
            },
            Reply::Rows(Ok(rows)) => if !self.many {
                fails_with(step, unexpected_reply())
            } else {
                self.ready(namespace, earlier@) && namespace.spec_model(
                    names_of(self.relation(namespace, earlier@).model_path),
                ) is Some ==> {
                    &&& step matches Step::Return(Ok(Returned::Records(found))) && found@
                        == Seq::new(rows.len() as nat, |i: int| (earlier.len() + i) as usize)
                    &&& self.took_in(namespace, earlier@, later@, values_view(rows))
                }
            },
            _ => fails_with(step, unexpected_reply()),
        })
    }

    /// Whether `later` is `earlier` with one more record for each of
    /// `rows`, rows of the related model as the store found them, and with
    /// copies of those records as the fetched records of the relation.
    pub open spec fn took_in(self, namespace: &Namespace, earlier: Seq<Object>, later: Seq<Object>, rows: Seq<ValueView>) -> bool {
        let relation = self.relation(namespace, earlier);
        let related = namespace.spec_model(names_of(relation.model_path))->0;
        &&& later.len() == earlier.len() + rows.len()
        &&& forall|i: int|
            0 <= i < rows.len() ==> found_as(
                #[trigger] later[earlier.len() + i],
                earlier[self.object as int],
                &related,
                rows[i],
                Action(
                    if self.many {
                        INTERNAL_POSITION | FIND | PROGRAM_CODE | MANY
                    } else {
                        NESTED | FIND | PROGRAM_CODE | SINGLE
                    },
                ),
            )
        &&& self.remembers(
            earlier[self.object as int],
            later[self.object as int],
            Seq::new(rows.len(), |i: int| later[earlier.len() + i]),
        )
    }

    /// Takes in the rows that the store found: each becomes a record of the
    /// operation, and copies of them become the fetched records of the
    /// relation. A to-one relation whose record the store does not hold is
    /// reported as not found.
    pub fn after_finding(self, namespace: &Namespace, records: &mut Vec<Object>, reply: Reply) -> (step: Step)
        ensures
            self.after_finding_step(namespace, *old(records), *final(records), reply, step),
    {
        let rows = match reply {
            Reply::Rows(Ok(rows)) => {
                if !self.many {
                    return Step::Return(Err(unexpected()));
                }
                rows
            },
            Reply::Row(Ok(Some(row))) => {
                if self.many {
                    return Step::Return(Err(unexpected()));
                }
                vec![row]
            },
            Reply::Row(Ok(None)) => {
                return Step::Return(Err(Error::new(ErrorKind::NotFound, "object is not found")));
            },
            Reply::Rows(Err(cause)) => {
                return Step::Return(Err(cause));
            },
            Reply::Row(Err(cause)) => {
                return Step::Return(Err(cause));
            },
            _ => {
                return Step::Return(Err(unexpected()));
            },
        };
        if self.object >= records.len() {
            return Step::Return(Err(no_record()));
        }
        let model = match namespace.model_at_path(&records[self.object].model_path) {
            Some(model) => model,
            None => {
                return Step::Return(Err(no_model()));
            },
        };
        let relation = match model.relation(self.key.as_str()) {
            Some(relation) => relation,
            None => {
                return Step::Return(Err(invalid_key(self.key.as_str())));
            },
        };
        let related = match namespace.model_at_path(&relation.model_path) {
            Some(related) => related,
            None => {
                return Step::Return(Err(no_model()));
            },
        };
        let bits = if self.many {
            INTERNAL_POSITION | FIND | PROGRAM_CODE | MANY
        } else {
            NESTED | FIND | PROGRAM_CODE | SINGLE
        };
        let mut found: Vec<usize> = Vec::new();
        let mut i: usize = 0;
        while i < rows.len()
            invariant
                i <= rows.len(),
                self.object < old(records).len(),
                records.len() == old(records).len() + i,
                grown(old(records)@, records@),
                found@ == Seq::new(i as nat, |k: int| (old(records).len() + k) as usize),
                forall|k: int|
                    0 <= k < i ==> found_as(
                        #[trigger] records[old(records).len() + k],
                        old(records)[self.object as int],
                        related,
                        rows[k]@,
                        Action(bits),
                    ),
            decreases rows.len() - i,
        {
            let number = add_found(
                namespace,
                records,
                self.object,
                related,
                &rows[i],
                Action::from_u32(bits),
            );
            found.push(number);
            assert(found@ =~= Seq::new((i + 1) as nat, |k: int| (old(records).len() + k) as usize));
            i += 1;
        }
        let ghost grown_records = records@;
        self.remember(records, &found);
        proof {
            assert(Seq::new(found.len() as nat, |i: int| grown_records[found[i] as int])
                =~= Seq::new(rows.len() as nat, |i: int| records[old(records).len() + i]));
            assert(values_view(rows).len() == rows.len());
        }
        if self.many {
            Step::Return(Ok(Returned::Records(found)))
        } else {
            Step::Return(Ok(Returned::Record(found[0])))
        }
    }

    /// Whether `step`, and the records after it, are what
    /// [`Fetch::after_including`] makes of the fetching as it stands.
    pub open spec fn after_including_step(self, namespace: &Namespace, earlier: Vec<Object>, later: Vec<Object>, reply: Reply, step: Step) -> bool {
        &&& grown_besides(earlier@, later@, self.object)
        &&& (match reply {
            Reply::Row(Err(cause)) => step == Step::Return(Err(cause)),
            Reply::Row(Ok(None)) => fails_with(step, not_found()),
            Reply::Row(Ok(Some(row))) => self.ready(namespace, earlier@) ==> {
                let rows = self.included(namespace, earlier@, row@);
                &&& step matches Step::Return(Ok(Returned::Records(found))) && found@
                    == Seq::new(rows.len(), |i: int| (earlier.len() + i) as usize)
                &&& later.len() == earlier.len() + rows.len()
                &&& forall|i: int|
                    0 <= i < rows.len() ==> taken_below(
                        #[trigger] later[earlier.len() + i],
                        earlier[self.object as int],
                        &namespace.spec_model(
                            names_of(self.relation(namespace, earlier@).model_path),
                        )->0,
                        rows[i],
                        self.relation(namespace, earlier@).is_vec,
                    )
                &&& self.remembers(
                    earlier[self.object as int],
                    later[self.object as int],
                    Seq::new(rows.len(), |i: int| later[earlier.len() + i]),
                )
            },
            _ => fails_with(step, unexpected_reply()),
        })
    }

    /// The rows of the related model that `row`, the owner as the store
    /// found it again, holds under the name of the relation: those of the
    /// list that it holds there, where it holds one and the related model
    /// is known, and none else.
    pub open spec fn included(self, namespace: &Namespace, records: Seq<Object>, row: ValueView) -> Seq<ValueView> {
        nested_rows(namespace, &self.model(namespace, records), self.key@, row)
    }

    /// Takes in the owner as the store found it again, with the records of
    /// the relation: each of them becomes a record of the operation, and
    /// copies of them become the fetched records of the relation.
    pub fn after_including(self, namespace: &Namespace, records: &mut Vec<Object>, reply: Reply) -> (step: Step)
        ensures
            self.after_including_step(namespace, *old(records), *final(records), reply, step),
    {
        let row = match reply {
            Reply::Row(Ok(Some(row))) => row,
            Reply::Row(Ok(None)) => {
                return Step::Return(Err(Error::new(ErrorKind::NotFound, "object is not found")));
            },
            Reply::Row(Err(cause)) => {
                return Step::Return(Err(cause));
            },
            _ => {
                return Step::Return(Err(unexpected()));
            },
        };
        if self.object >= records.len() {
            return Step::Return(Err(no_record()));
        }
        let model = match namespace.model_at_path(&records[self.object].model_path) {
            Some(model) => model,
            None => {
                return Step::Return(Err(no_model()));
            },
        };
        if model.relation(self.key.as_str()).is_none() {
            return Step::Return(Err(invalid_key(self.key.as_str())));
        }
        let mut inclusion = Dictionary::new();
        inclusion.insert(self.key.clone(), Value::Bool(true));
        let mut again = Object::new(
            records[self.object].request_ctx,
            records[self.object].transaction_ctx,
            model,
            records[self.object].action,
        );
        proof {
            crate::collections::names::lemma_position(
                crate::collections::names::pair_names(again.relation_query_map),
                self.key@,
            );
        }
        again.set_from_database_result_value(
            namespace,
            model,
            &row,
            None,
            Some(&Value::Dictionary(inclusion)),
        );
        let ghost rows = self.included(namespace, old(records)@, row@);
        let ghost related = namespace.spec_model(
            names_of(self.relation(namespace, old(records)@).model_path),
        )->0;
        let ghost owner = old(records)[self.object as int];
        let ghost is_vec = self.relation(namespace, old(records)@).is_vec;
        proof {
            lemma_last_named(row_entries(row@), self.key@, row_entries(row@).len() as int);
        }
        let mut found: Vec<usize> = Vec::new();
        match find_pair(&again.relation_query_map, self.key.as_str()) {
            Some(at) => {
                let children = &again.relation_query_map[at].1;
                assert(again.fetched(self.key@) == Some(*children));
                assert(children.len() == rows.len());
                let mut i: usize = 0;
                while i < children.len()
                    invariant
                        i <= children.len(),
                        children.len() == rows.len(),
                        self.object < old(records).len(),
                        grown(old(records)@, records@),
                        records.len() == old(records).len() + i,
                        found@ == Seq::new(i as nat, |k: int| (old(records).len() + k) as usize),
                        forall|k: int|
                            0 <= k < rows.len() ==> taken_below(
                                #[trigger] children[k],
                                owner,
                                &related,
                                rows[k],
                                is_vec,
                            ),
                        forall|k: int|
                            0 <= k < i ==> taken_below(
                                #[trigger] records[old(records).len() + k],
                                owner,
                                &related,
                                rows[k],
                                is_vec,
                            ),
                    decreases children.len() - i,
                {
                    found.push(records.len());
                    records.push(copy_object(&children[i]));
                    assert(found@ =~= Seq::new(
                        (i + 1) as nat,
                        |k: int| (old(records).len() + k) as usize,
                    ));
                    i += 1;
                }
            },
            None => {
                proof {
                    crate::collections::names::lemma_position(
                        crate::collections::names::pair_names(again.relation_query_map),
                        self.key@,
                    );
                }
                assert(rows.len() == 0);
                assert(found@ =~= Seq::new(0nat, |k: int| (old(records).len() + k) as usize));
            },
        }
        let ghost grown_records = records@;
        self.remember(records, &found);
        proof {
            assert(Seq::new(found.len() as nat, |i: int| grown_records[found[i] as int])
                =~= Seq::new(rows.len(), |i: int| records[old(records).len() + i]));
        }
        Step::Return(Ok(Returned::Records(found)))
    }

    /// Whether `step`, and the records after it, are what the fetching makes of
    /// `input`: each stage takes in what it waits for, and any other input ends
    /// the fetching with an error and leaves the records as they are.
    pub open spec fn fetch_relation_objects_step(self, namespace: &Namespace, earlier: Vec<Object>, later: Vec<Object>, input: Input, step: Step) -> bool {
        &&& grown_besides(earlier@, later@, self.object)
        &&& (self.stage == FetchStage::Begin && !(input is Start)) || (self.stage
            != FetchStage::Begin && !(input is Reply)) ==> fails_with(
            step,
            unexpected_reply(),
        )
        &&& match (self.stage, input) {
            (FetchStage::Begin, Input::Start) => if self.reuse && self.object < earlier.len() && earlier[self.object as int].fetched(
                self.key@,
            ) is Some {
                self.recall_step(earlier, later, Some(step))
            } else {
                self.begin_step(namespace, &earlier, step) && later@ == earlier@
            },
            (FetchStage::Finding, Input::Reply(reply)) => self.after_finding_step(
                namespace,
                earlier,
                later,
                reply,
                step,
            ),
            (FetchStage::Including, Input::Reply(reply)) => self.after_including_step(
                namespace,
                earlier,
                later,
                reply,
                step,
            ),
            _ => fails_with(step, unexpected_reply()) && later@ == earlier@,
        }
    }

    /// Resumes the fetching.
    pub fn fetch_relation_objects(self, namespace: &Namespace, records: &mut Vec<Object>, input: Input) -> (step: Step)
        ensures
            self.fetch_relation_objects_step(namespace, *old(records), *final(records), input, step),
    {
        match (self.stage, input) {
            (FetchStage::Begin, Input::Start) => {
                if self.reuse {
                    match self.recall(records) {
                        Some(step) => {
                            return step;
                        },
                        None => {},
                    }
                }
                self.begin(namespace, records)
            },
            (FetchStage::Finding, Input::Reply(reply)) => self.after_finding(
                namespace,
                records,
                reply,
            ),
            (FetchStage::Including, Input::Reply(reply)) => self.after_including(
                namespace,
                records,
                reply,
            ),
            _ => Step::Return(Err(unexpected())),
        }
    }
}

/// Whether the records of `before` other than the one numbered `object` are
/// all still there, unchanged, at the start of `after`.
pub open spec fn grown_besides(before: Seq<Object>, after: Seq<Object>, object: usize) -> bool {
    &&& before.len() <= after.len()
    &&& forall|j: int| 0 <= j < before.len() && j != object ==> #[trigger] after[j] == before[j]
}

} // verus!
