use vstd::prelude::*;
use crate::collections::names::names_of;
use crate::model::model::Model;
use crate::model::object::hydrate::row_entries;
use crate::model::object::machine::{
    ends_well, fails_with, no_model, no_record, unexpected, unexpected_reply, Frame, Input, Reply,
    Request, Returned, Step,
};
use crate::model::object::object::Object;
use crate::model::object::on_save::OnSave;
use crate::model::object::relations::Relations;
use crate::model::object::set_teon::{calls, others_same};
use crate::model::object::tracking::save_inside_callback_error;
use crate::namespace::namespace::Namespace;
use crate::path::error::Error;
use crate::path::key_path::KeyPath;
use crate::pipeline::ctx::Place;
use crate::value::value::{copy_value, Dictionary, Value, ValueView};

verus! {

/// How far a save has come.
#[derive(Debug, Copy, Clone, PartialEq, Eq, Structural)]
pub enum SaveStage {
    /// Nothing was done yet.
    Begin,
    /// The on-save pipelines and the validation run.
    Preparing,
    /// The before-save callbacks run.
    BeforeCallbacks,
    /// The mutations of the relations that hold the foreign key on this
    /// record run.
    ForeignKeys,
    /// The store writes the row.
    Persisting,
    /// The mutations of the other relations run.
    Others,
    /// The after-save callbacks run.
    AfterCallbacks,
}

/// A save under way.
#[derive(Debug)]
pub struct Save {
    pub object: usize,
    pub path: KeyPath,
    pub ignore_required_relation: bool,
    /// Whether the record was new or modified when the save began.
    pub dirty: bool,
    pub stage: SaveStage,
}

/// The values of a record after it took in the values that the store
/// generated: each field of the row is stored, a null removes the key.
pub open spec fn merged(values: Map<Seq<char>, ValueView>, model: &Model, row: Seq<(Seq<char>, ValueView)>) -> Map<Seq<char>, ValueView>
    decreases row.len(),
{
    if row.len() == 0 {
        values
    } else {
        let before = merged(values, model, row.drop_last());
        if model.spec_field(row.last().0) is None {
            before
        } else if row.last().1 is Null {
            before.remove(row.last().0)
        } else {
            before.insert(row.last().0, row.last().1)
        }
    }
}

/// The atomic updaters of a record after it took in the values that the
/// store generated: the updater of each field that the row gives a value is
/// dropped.
pub open spec fn unqueued(updaters: Map<Seq<char>, ValueView>, model: &Model, row: Seq<(Seq<char>, ValueView)>) -> Map<Seq<char>, ValueView>
    decreases row.len(),
{
    if row.len() == 0 {
        updaters
    } else {
        let before = unqueued(updaters, model, row.drop_last());
        if model.spec_field(row.last().0) is None || row.last().1 is Null {
            before
        } else {
            before.remove(row.last().0)
        }
    }
}

impl Object {
    /// Takes in the values that the store generated when it wrote the row.
    /// Nothing is tracked; the atomic updater of a field that the row gives
    /// a value is dropped.
    pub fn merge_generated(&mut self, model: &Model, row: &Value)
        ensures
            final(self).values() == merged(old(self).values(), model, row_entries(row@)),
            final(self).atomic_updaters() == unqueued(
                old(self).atomic_updaters(),
                model,
                row_entries(row@),
            ),
            *final(self) == (Object {
                value_map: final(self).value_map,
                atomic_updater_map: final(self).atomic_updater_map,
                ..*old(self)
            }),
            old(self).wf() ==> final(self).wf(),
    {
        match row.as_dictionary() {
            Some(entries) => {
                let mut i: usize = 0;
                while i < entries.len()
                    invariant
                        i <= entries@.len(),
                        entries@ == row_entries(row@),
                        self.values() == merged(old(self).values(), model, entries@.take(i as int)),
                        self.atomic_updaters() == unqueued(
                            old(self).atomic_updaters(),
                            model,
                            entries@.take(i as int),
                        ),
                        *self == (Object {
                            value_map: self.value_map,
                            atomic_updater_map: self.atomic_updater_map,
                            ..*old(self)
                        }),
                        old(self).wf() ==> self.wf(),
                    decreases entries@.len() - i,
                {
                    assert(entries@.take(i + 1).drop_last() =~= entries@.take(i as int));
                    assert(entries@.take(i + 1).last() == entries@[i as int]);
                    match entries.entry_at(i) {
                        Some((key, value)) => {
                            if model.field(key.as_str()).is_some() {
                                if value.is_null() {
                                    self.value_map.remove(key.as_str());
                                } else {
                                    self.value_map.insert(key.clone(), copy_value(value));
                                    self.atomic_updater_map.remove(key.as_str());
                                }
                            }
                        },
                        None => {},
                    }
                    i += 1;
                }
                assert(entries@.take(i as int) =~= entries@);
            },
            None => {},
        }
    }

    /// Ends a save: the record is stored and clean, and every mutation that
    /// was queued for the save is dropped.
    pub fn settle(&mut self)
        ensures
            !final(self).is_new,
            !final(self).is_modified,
            final(self).modified_fields@ == Set::<Seq<char>>::empty(),
            final(self).atomic_updater_map@.len() == 0,
            final(self).relation_mutation_map@.len() == 0,
            final(self).object_set_map@.len() == 0,
            final(self).object_set_many_map@.len() == 0,
            final(self).object_connect_map@.len() == 0,
            final(self).object_disconnect_map@.len() == 0,
            final(self).value_map == old(self).value_map,
            final(self).previous_value_map == old(self).previous_value_map,
            final(self).cached_property_map == old(self).cached_property_map,
            final(self).relation_query_map == old(self).relation_query_map,
            final(self).selected_fields == old(self).selected_fields,
            final(self).is_selected == old(self).is_selected,
            final(self).model_path == old(self).model_path,
            final(self).action == old(self).action,
            final(self).transaction_ctx == old(self).transaction_ctx,
            final(self).request_ctx == old(self).request_ctx,
            final(self).is_initialized == old(self).is_initialized,
            final(self).inside_before_save_callback == old(self).inside_before_save_callback,
            final(self).inside_after_save_callback == old(self).inside_after_save_callback,
    {
        self.clear_state();
        self.atomic_updater_map = Dictionary::new();
        self.relation_mutation_map = Dictionary::new();
        self.object_set_map = Vec::new();
        self.object_set_many_map = Vec::new();
        self.object_connect_map = Vec::new();
        self.object_disconnect_map = Vec::new();
    }

    /// Whether the record is clean: stored, not modified, no modified field.
    pub open spec fn is_clean(&self) -> bool {
        !self.is_new && !self.is_modified && self.modified_fields@ == Set::<Seq<char>>::empty()
    }
}

impl Save {
    /// A save of the record numbered `object` that has not started yet.
    pub fn new(object: usize, path: KeyPath, ignore_required_relation: bool) -> (frame: Save)
        ensures
            frame == (Save {
                object,
                path,
                ignore_required_relation,
                dirty: false,
                stage: SaveStage::Begin,
            }),
    {
        Save { object, path, ignore_required_relation, dirty: false, stage: SaveStage::Begin }
    }

    /// Whether the frame knows its record and the record's model.
    pub open spec fn grounded(&self, namespace: &Namespace, records: Seq<Object>) -> bool {
        &&& self.object < records.len()
        &&& namespace.spec_model(names_of(records[self.object as int].model_path)) is Some
    }

    /// Whether `frame` walks the relations of the record of this save on
    /// the given side.
    pub open spec fn walks(&self, frame: Frame, foreign_key_side: bool) -> bool {
        match frame {
            Frame::Relations(relations) => relations.object == self.object && relations.path@
                == self.path@ && relations.foreign_key_side == foreign_key_side && relations.index
                == 0 && relations.phase == crate::model::object::relations::Phase::Replace,
            _ => false,
        }
    }

    /// Whether `step`, and the records after it, are what [`Save::begin`] makes
    /// of the save as it stands.
    pub open spec fn begin_step(self, namespace: &Namespace, records: &Vec<Object>, step: Step) -> bool {
        &&& !(step is Emit)
        &&& !ends_well(step)
        &&& self.object >= records.len() ==> step is Return
        &&& (self.object < records.len() ==> {
            let record = records[self.object as int];
            if record.inside_before_save_callback {
                fails_with(step, save_inside_callback_error())
            } else if record.is_new || record.is_modified {
                step matches Step::Call(Frame::Save(next), Frame::OnSave(callee)) && next == (
                Save { dirty: true, stage: SaveStage::Preparing, ..self }) && callee.object
                    == self.object && callee.path@ == self.path@
                    && callee.ignore_required_relation == self.ignore_required_relation
                    && callee.index == 0 && callee.stage
                    == crate::model::object::on_save::OnSaveStage::Pipelines
            } else {
                step matches Step::Call(Frame::Save(next), callee) && next == (Save {
                    dirty: false,
                    stage: SaveStage::ForeignKeys,
                    ..self
                }) && self.walks(callee, true)
            }
        })
    }

    /// Starts the save. A save from inside a before-save callback of the
    /// same record is refused. A record that is new or modified is prepared
    /// first; a clean record goes on with its relations at once.
    pub fn begin(self, namespace: &Namespace, records: &Vec<Object>) -> (step: Step)
        ensures
            self.begin_step(namespace, records, step),
    {
        if self.object >= records.len() {
            return Step::Return(Err(no_record()));
        }
        let record = &records[self.object];
        match record.before_save_callback_check() {
            Err(error) => {
                return Step::Return(Err(error));
            },
            Ok(()) => {},
        }
        if record.is_modified() || record.is_new() {
            let callee = OnSave::new(self.object, self.path.clone(), self.ignore_required_relation);
            Step::Call(
                Frame::Save(Save { dirty: true, stage: SaveStage::Preparing, ..self }),
                Frame::OnSave(callee),
            )
        } else {
            let callee = Relations::new(self.object, self.path.clone(), true);
            Step::Call(
                Frame::Save(Save { dirty: false, stage: SaveStage::ForeignKeys, ..self }),
                Frame::Relations(callee),
            )
        }
    }

    /// Whether `step`, and the records after it, are what
    /// [`Save::after_preparing`] makes of the save as it stands.
    pub open spec fn after_preparing_step(self, earlier: Vec<Object>, later: Vec<Object>, result: Result<Returned, Error>, step: Step) -> bool {
        &&& !(step is Emit)
        &&& !ends_well(step)
        &&& others_same(earlier@, later@, self.object)
        &&& (match result {
            Err(cause) => step == Step::Return(Err(cause)) && later@ == earlier@,
            Ok(_) => self.object < earlier.len() ==> {
                let before = earlier[self.object as int];
                &&& step matches Step::Call(Frame::Save(next), callee) && next == (Save {
                    stage: SaveStage::BeforeCallbacks,
                    ..self
                }) && calls(
                    callee,
                    names_of(before.model_path),
                    Place::BeforeSave,
                    ValueView::Null,
                    self.object,
                    self.path@,
                    before.action,
                )
                &&& later[self.object as int] == (Object {
                    inside_before_save_callback: true,
                    ..before
                })
            },
        })
    }

    /// Takes in the result of the preparation: the before-save callbacks of
    /// the model run next, and while they run the record refuses to be
    /// saved again.
    pub fn after_preparing(self, records: &mut Vec<Object>, result: Result<Returned, Error>) -> (step: Step)
        ensures
            self.after_preparing_step(*old(records), *final(records), result, step),
    {
        match result {
            Err(cause) => Step::Return(Err(cause)),
            Ok(_) => {
                if self.object >= records.len() {
                    return Step::Return(Err(no_record()));
                }
                records[self.object].inside_before_save_callback = true;
                let record = &records[self.object];
                let run = crate::pipeline::run::start(
                    &record.model_path,
                    Place::BeforeSave,
                    Value::Null,
                    Some(self.object),
                    self.path.clone(),
                    record.action,
                );
                Step::Call(
                    Frame::Save(Save { stage: SaveStage::BeforeCallbacks, ..self }),
                    Frame::Pipeline(run),
                )
            },
        }
    }

    /// Whether `step`, and the records after it, are what
    /// [`Save::after_before_callbacks`] makes of the save as it stands.
    pub open spec fn after_before_callbacks_step(self, earlier: Vec<Object>, later: Vec<Object>, result: Result<Returned, Error>, step: Step) -> bool {
        &&& !(step is Emit)
        &&& !ends_well(step)
        &&& others_same(earlier@, later@, self.object)
        &&& (self.object < earlier.len() ==> later[self.object as int] == (Object {
            inside_before_save_callback: false,
            ..earlier[self.object as int]
        }) && match result {
            Err(cause) => step == Step::Return(Err(cause)),
            Ok(_) => step matches Step::Call(Frame::Save(next), callee) && next == (Save {
                stage: SaveStage::ForeignKeys,
                ..self
            }) && self.walks(callee, true),
        })
    }

    /// Takes in the result of the before-save callbacks: the record can be
    /// saved again, and the relations that hold the foreign key on this
    /// record are walked.
    pub fn after_before_callbacks(self, records: &mut Vec<Object>, result: Result<Returned, Error>) -> (step: Step)
        ensures
            self.after_before_callbacks_step(*old(records), *final(records), result, step),
    {
        if self.object >= records.len() {
            return Step::Return(Err(no_record()));
        }
        records[self.object].inside_before_save_callback = false;
        match result {
            Err(cause) => Step::Return(Err(cause)),
            Ok(_) => {
                let callee = Relations::new(self.object, self.path.clone(), true);
                Step::Call(
                    Frame::Save(Save { stage: SaveStage::ForeignKeys, ..self }),
                    Frame::Relations(callee),
                )
            },
        }
    }

    /// Whether the save writes the row of its record: the record was new or
    /// modified when the save began, and its model is stored.
    pub open spec fn writes_row(&self, namespace: &Namespace, records: Seq<Object>) -> bool {
        self.dirty && !namespace.spec_model(names_of(records[self.object as int].model_path))->0.is_virtual
    }

    /// Whether `step`, and the records after it, are what
    /// [`Save::after_foreign_keys`] makes of the save as it stands.
    pub open spec fn after_foreign_keys_step(self, namespace: &Namespace, records: &Vec<Object>, result: Result<Returned, Error>, step: Step) -> bool {
        &&& !ends_well(step)
        &&& (match result {
            Err(cause) => step == Step::Return(Err(cause)),
            Ok(_) => self.grounded(namespace, records@) ==> (if self.writes_row(
                namespace,
                records@,
            ) {
                step == Step::Emit(
                    Frame::Save(Save { stage: SaveStage::Persisting, ..self }),
                    Request::SaveObject { object: self.object },
                )
            } else {
                step matches Step::Call(Frame::Save(next), callee) && next == (Save {
                    stage: SaveStage::Others,
                    ..self
                }) && self.walks(callee, false)
            }),
        })
        &&& step is Emit ==> self.dirty
    }

    /// Takes in the result of the first walk of the relations: the store is
    /// asked to write the row where the record was new or modified when the
    /// save began and its model is stored; else the other relations are
    /// walked at once.
    pub fn after_foreign_keys(self, namespace: &Namespace, records: &Vec<Object>, result: Result<Returned, Error>) -> (step: Step)
        ensures
            self.after_foreign_keys_step(namespace, records, result, step),
    {
        match result {
            Err(cause) => Step::Return(Err(cause)),
            Ok(_) => {
                if self.object >= records.len() {
                    return Step::Return(Err(no_record()));
                }
                let model = match namespace.model_at_path(&records[self.object].model_path) {
                    Some(model) => model,
                    None => {
                        return Step::Return(Err(no_model()));
                    },
                };
                if self.dirty && !model.is_virtual() {
                    let object = self.object;
                    Step::Emit(
                        Frame::Save(Save { stage: SaveStage::Persisting, ..self }),
                        Request::SaveObject { object },
                    )
                } else {
                    let callee = Relations::new(self.object, self.path.clone(), false);
                    Step::Call(
                        Frame::Save(Save { stage: SaveStage::Others, ..self }),
                        Frame::Relations(callee),
                    )
                }
            },
        }
    }

    /// Whether `step`, and the records after it, are what
    /// [`Save::after_persisting`] makes of the save as it stands.
    pub open spec fn after_persisting_step(self, namespace: &Namespace, earlier: Vec<Object>, later: Vec<Object>, reply: Reply, step: Step) -> bool {
        &&& !(step is Emit)
        &&& !ends_well(step)
        &&& others_same(earlier@, later@, self.object)
        &&& (match reply {
            Reply::Saved(Err(cause)) => step == Step::Return(Err(cause)) && later@
                == earlier@,
            Reply::Saved(Ok(row)) => self.grounded(namespace, earlier@) ==> {
                let before = earlier[self.object as int];
                let after = later[self.object as int];
                &&& step matches Step::Call(Frame::Save(next), callee) && next == (Save {
                    stage: SaveStage::Others,
                    ..self
                }) && self.walks(callee, false)
                &&& after.values() == merged(
                    before.values(),
                    &namespace.spec_model(names_of(before.model_path))->0,
                    row_entries(row@),
                )
                &&& after.atomic_updaters() == unqueued(
                    before.atomic_updaters(),
                    &namespace.spec_model(names_of(before.model_path))->0,
                    row_entries(row@),
                )
                &&& after == (Object {
                    is_new: false,
                    is_modified: false,
                    value_map: after.value_map,
                    atomic_updater_map: after.atomic_updater_map,
                    ..before
                })
            },
            _ => fails_with(step, unexpected_reply()) && later@ == earlier@,
        })
    }

    /// Takes in the answer of the store: the values that it generated are
    /// taken in, the record is stored and unmodified, and the other
    /// relations are walked. A failure of the store ends the save.
    pub fn after_persisting(self, namespace: &Namespace, records: &mut Vec<Object>, reply: Reply) -> (step: Step)
        ensures
            self.after_persisting_step(namespace, *old(records), *final(records), reply, step),
    {
        let row = match reply {
            Reply::Saved(Ok(row)) => row,
            Reply::Saved(Err(cause)) => {
                return Step::Return(Err(cause));
            },
            _ => {
                return Step::Return(Err(unexpected()));
            },
        };
        if self.object >= records.len() {
            return Step::Return(Err(no_record()));
        }
        let model = match namespace.model_at_path(&records[self.object].model_path) {
            Some(model) => model,
            None => {
                return Step::Return(Err(no_model()));
            },
        };
        records[self.object].merge_generated(model, &row);
        records[self.object].clear_new_state();
        let callee = Relations::new(self.object, self.path.clone(), false);
        Step::Call(Frame::Save(Save { stage: SaveStage::Others, ..self }), Frame::Relations(callee))
    }

    /// Whether `step`, and the records after it, are what
    /// [`Save::after_others`] makes of the save as it stands.
    pub open spec fn after_others_step(self, earlier: Vec<Object>, later: Vec<Object>, result: Result<Returned, Error>, step: Step) -> bool {
        &&& !(step is Emit)
        &&& others_same(earlier@, later@, self.object)
        &&& ends_well(step) ==> self.object < later.len() && later[self.object as int].is_clean()
        &&& (match result {
            Err(cause) => step == Step::Return(Err(cause)) && later@ == earlier@,
            Ok(_) => self.object < earlier.len() ==> {
                let before = earlier[self.object as int];
                let after = later[self.object as int];
                &&& after.is_clean()
                &&& after.value_map == before.value_map
                &&& after.relation_mutation_map@.len() == 0
                &&& after.atomic_updater_map@.len() == 0
                &&& after.object_set_map@.len() == 0
                &&& after.object_set_many_map@.len() == 0
                &&& after.object_connect_map@.len() == 0
                &&& after.object_disconnect_map@.len() == 0
                &&& if self.dirty && !before.inside_after_save_callback {
                    step matches Step::Call(Frame::Save(next), callee) && next == (Save {
                        stage: SaveStage::AfterCallbacks,
                        ..self
                    }) && calls(
                        callee,
                        names_of(before.model_path),
                        Place::AfterSave,
                        ValueView::Null,
                        self.object,
                        self.path@,
                        before.action,
                    ) && after.inside_after_save_callback
                } else {
                    step == Step::Return(Ok(Returned::Done)) && after.inside_after_save_callback
                        == before.inside_after_save_callback
                }
            },
        })
    }

    /// Takes in the result of the second walk of the relations: the record
    /// is clean and every queued mutation is dropped. Where the record was
    /// new or modified when the save began, the after-save callbacks run,
    /// unless they are running already.
    pub fn after_others(self, records: &mut Vec<Object>, result: Result<Returned, Error>) -> (step: Step)
        ensures
            self.after_others_step(*old(records), *final(records), result, step),
    {
        match result {
            Err(cause) => Step::Return(Err(cause)),
            Ok(_) => {
                if self.object >= records.len() {
                    return Step::Return(Err(no_record()));
                }
                records[self.object].settle();
                if self.dirty && !records[self.object].inside_after_save_callback {
                    records[self.object].inside_after_save_callback = true;
                    let record = &records[self.object];
                    let run = crate::pipeline::run::start(
                        &record.model_path,
                        Place::AfterSave,
                        Value::Null,
                        Some(self.object),
                        self.path.clone(),
                        record.action,
                    );
                    Step::Call(
                        Frame::Save(Save { stage: SaveStage::AfterCallbacks, ..self }),
                        Frame::Pipeline(run),
                    )
                } else {
                    Step::Return(Ok(Returned::Done))
                }
            },
        }
    }

    /// Whether `step`, and the records after it, are what
    /// [`Save::after_after_callbacks`] makes of the save as it stands.
    pub open spec fn after_after_callbacks_step(self, earlier: Vec<Object>, later: Vec<Object>, result: Result<Returned, Error>, step: Step) -> bool {
        &&& !(step is Emit)
        &&& others_same(earlier@, later@, self.object)
        &&& ends_well(step) ==> self.object < later.len() && later[self.object as int].is_clean()
        &&& match result {
            Err(cause) => step == Step::Return(Err(cause)) && later@ == earlier@,
            Ok(_) => self.object < earlier.len() ==> {
                &&& step == Step::Return(Ok(Returned::Done))
                &&& later[self.object as int].is_clean()
                &&& !later[self.object as int].inside_after_save_callback
                &&& later[self.object as int].value_map == earlier[self.object as int].value_map
            },
        }
    }

    /// Takes in the result of the after-save callbacks: the save has ended,
    /// and the record is clean whatever ran since it was written.
    pub fn after_after_callbacks(self, records: &mut Vec<Object>, result: Result<Returned, Error>) -> (step: Step)
        ensures
            self.after_after_callbacks_step(*old(records), *final(records), result, step),
    {
        match result {
            Err(cause) => Step::Return(Err(cause)),
            Ok(_) => {
                if self.object >= records.len() {
                    return Step::Return(Err(no_record()));
                }
                records[self.object].inside_after_save_callback = false;
                records[self.object].clear_state();
                Step::Return(Ok(Returned::Done))
            },
        }
    }

    /// Whether `step`, and the records after it, are what the save makes of
    /// `input`: each stage takes in what it waits for, and any other input ends
    /// the save with an error and leaves the records as they are.
    pub open spec fn save_with_session_and_path_and_ignore_step(self, namespace: &Namespace, earlier: Vec<Object>, later: Vec<Object>, input: Input, step: Step) -> bool {
        &&& others_same(earlier@, later@, self.object)
        &&& ends_well(step) ==> self.object < later.len() && later[self.object as int].is_clean()
        &&& step is Emit ==> self.dirty && self.stage == SaveStage::ForeignKeys
        &&& match (self.stage, input) {
            (SaveStage::Begin, Input::Start) => self.begin_step(
                namespace,
                &earlier,
                step,
            ) && later@ == earlier@,
            (SaveStage::Preparing, Input::Returned(result)) => self.after_preparing_step(
                earlier,
                later,
                result,
                step,
            ),
            (SaveStage::BeforeCallbacks, Input::Returned(result)) => self.after_before_callbacks_step(
                earlier,
                later,
                result,
                step,
            ),
            (SaveStage::ForeignKeys, Input::Returned(result)) => self.after_foreign_keys_step(
                namespace,
                &earlier,
                result,
                step,
            ) && later@ == earlier@,
            (SaveStage::Persisting, Input::Reply(reply)) => self.after_persisting_step(
                namespace,
                earlier,
                later,
                reply,
                step,
            ),
            (SaveStage::Others, Input::Returned(result)) => self.after_others_step(
                earlier,
                later,
                result,
                step,
            ),
            (SaveStage::AfterCallbacks, Input::Returned(result)) => self.after_after_callbacks_step(
                earlier,
                later,
                result,
                step,
            ),
            _ => fails_with(step, unexpected_reply()) && later@ == earlier@,
        }
    }

    /// Resumes the save.
    ///
    /// A stage that waits takes in what it waited for; any input that does
    /// not fit the stage ends the save with an error. Only the record of
    /// the save can change, the store is asked to write its row only where
    /// it was new or modified when the save began, and a save that ends
    /// well leaves the record clean.
    pub fn save_with_session_and_path_and_ignore(self, namespace: &Namespace, records: &mut Vec<Object>, input: Input) -> (step: Step)
        ensures
            self.save_with_session_and_path_and_ignore_step(namespace, *old(records), *final(records), input, step),
    {
        match (self.stage, input) {
            (SaveStage::Begin, Input::Start) => self.begin(namespace, records),
            (SaveStage::Preparing, Input::Returned(result)) => self.after_preparing(
                records,
                result,
            ),
            (SaveStage::BeforeCallbacks, Input::Returned(result)) => self.after_before_callbacks(
                records,
                result,
            ),
            (SaveStage::ForeignKeys, Input::Returned(result)) => self.after_foreign_keys(
                namespace,
                records,
                result,
            ),
            (SaveStage::Persisting, Input::Reply(reply)) => self.after_persisting(
                namespace,
                records,
                reply,
            ),
            (SaveStage::Others, Input::Returned(result)) => self.after_others(records, result),
            (SaveStage::AfterCallbacks, Input::Returned(result)) => self.after_after_callbacks(
                records,
                result,
            ),
            _ => Step::Return(Err(unexpected())),
        }
    }
}

} // verus!
