use vstd::prelude::*;
use crate::collections::names::{copy_names, kept, names_of};
use crate::model::model::Model;
use crate::model::object::fetch::not_found;
use crate::model::object::machine::{
    ends_well, fails_with, no_model, no_record, unexpected, unexpected_reply, Frame, Input, Reply,
    Request, Returned, Step,
};
use crate::model::object::arena::blank;
use crate::model::object::hydrate::{hydrate_entries, row_entries};
use crate::model::object::link::{assign_each, is_copied_virtual};
use crate::model::object::object::{Object, Tracking};
use crate::model::object::select::{selection, valid_selection};
use crate::model::object::set_teon::others_same;
use crate::model::object::to_json::grown;
use crate::namespace::namespace::Namespace;
use crate::path::error::{Error, ErrorKind};
use crate::value::value::{copy_value, entries_insert, Dictionary, Value, ValueView};

verus! {

/// The re-reading of the record numbered `object` from the store.
#[derive(Debug)]
pub struct Refresh {
    pub object: usize,
    pub inclusion: Option<Value>,
    pub select: Option<Value>,
    pub waiting: bool,
}

/// The finder of a refresh: the identifier under `where`, then the
/// inclusion and the selection of the caller where they are given.
pub open spec fn refresh_finder(identifier: ValueView, inclusion: Option<ValueView>, select: Option<ValueView>) -> Seq<(Seq<char>, ValueView)> {
    let base = seq![("where"@, identifier)];
    let included = match inclusion {
        Some(value) => entries_insert(base, "include"@, value),
        None => base,
    };
    match select {
        Some(value) => entries_insert(included, "select"@, value),
        None => included,
    }
}

impl Refresh {
    /// A refresh of the record numbered `object` that has not started yet.
    pub fn new(object: usize, inclusion: Option<Value>, select: Option<Value>) -> (frame: Refresh)
        ensures
            frame == (Refresh { object, inclusion, select, waiting: false }),
    {
        Refresh { object, inclusion, select, waiting: false }
    }

    /// Whether the frame knows its record and the record's model.
    pub open spec fn grounded(&self, namespace: &Namespace, records: Seq<Object>) -> bool {
        &&& self.object < records.len()
        &&& namespace.spec_model(names_of(records[self.object as int].model_path)) is Some
    }

    /// The model of the frame's record.
    pub open spec fn model(&self, namespace: &Namespace, records: Seq<Object>) -> Model {
        namespace.spec_model(names_of(records[self.object as int].model_path))->0
    }

    /// Whether `step`, and the records after it, are what [`Refresh::begin`]
    /// makes of the refresh as it stands.
    pub open spec fn begin_step(self, namespace: &Namespace, earlier: Vec<Object>, later: Vec<Object>, step: Step) -> bool {
        &&& others_same(earlier@, later@, self.object)
        &&& !self.grounded(namespace, earlier@) ==> step is Return && !ends_well(step)
        &&& (self.grounded(namespace, earlier@) ==> {
            let model = self.model(namespace, earlier@);
            let before = earlier[self.object as int];
            if model.is_virtual {
                let after = later[self.object as int];
                &&& step == Step::Return(Ok(Returned::Record(self.object)))
                &&& match self.select {
                    Some(chosen) => if valid_selection(chosen@) && row_entries(chosen@).len()
                        > 0 {
                        names_of(after.selected_fields) == selection(&model, row_entries(chosen@))
                            && after == (Object {
                            is_selected: true,
                            selected_fields: after.selected_fields,
                            ..before
                        })
                    } else {
                        after == before
                    },
                    None => after == before,
                }
            } else {
                &&& later@ == earlier@
                &&& step matches Step::Emit(
                    Frame::Refresh(next),
                    Request::FindUnique { model: sought, finder, action },
                ) && next == (Refresh { waiting: true, ..self }) && names_of(sought)
                    == names_of(before.model_path) && action == before.action && finder@
                    == ValueView::Dictionary(
                    refresh_finder(
                        ValueView::Dictionary(
                            crate::value::value::entries_from(
                                names_of(model.primary_index),
                                Seq::new(
                                    model.primary_index.len() as nat,
                                    |i: int| before.value_or_null(model.primary_index[i]@),
                                ),
                            ),
                        ),
                        match self.inclusion {
                            Some(value) => Some(value@),
                            None => None,
                        },
                        match self.select {
                            Some(value) => Some(value@),
                            None => None,
                        },
                    ),
                )
            }
        })
    }

    /// Starts the refresh: a record of a model that is not stored takes the
    /// selection and is handed back as it is; for any other record the
    /// store is asked for the row that the identifier of the record names.
    pub fn begin(self, namespace: &Namespace, records: &mut Vec<Object>) -> (step: Step)
        ensures
            self.begin_step(namespace, *old(records), *final(records), step),
    {
        if self.object >= records.len() {
            return Step::Return(Err(no_record()));
        }
        let model = match namespace.model_at_path(&records[self.object].model_path) {
            Some(model) => model,
            None => {
                return Step::Return(Err(no_model()));
            },
        };
        if model.is_virtual() {
            let _ = records[self.object].set_select(model, self.select.as_ref());
            return Step::Return(Ok(Returned::Record(self.object)));
        }
        let record = &records[self.object];
        let mut finder = Dictionary::new();
        proof {
            crate::value::value::lemma_first_index(finder@, "where"@);
        }
        let identifier = record.identifier(model);
        let ghost named = identifier@;
        finder.insert("where".to_owned(), identifier);
        assert(finder@ =~= seq![("where"@, named)]);
        match &self.inclusion {
            Some(value) => {
                finder.insert("include".to_owned(), copy_value(value));
            },
            None => {},
        }
        match &self.select {
            Some(value) => {
                finder.insert("select".to_owned(), copy_value(value));
            },
            None => {},
        }
        let sought = copy_names(&record.model_path);
        let action = record.action;
        Step::Emit(
            Frame::Refresh(Refresh { waiting: true, ..self }),
            Request::FindUnique { model: sought, finder: Value::Dictionary(finder), action },
        )
    }

    /// Whether `step`, and the records after it, are what
    /// [`Refresh::after_finding`] makes of the refresh as it stands.
    pub open spec fn after_finding_step(self, namespace: &Namespace, earlier: Vec<Object>, later: Vec<Object>, reply: Reply, step: Step) -> bool {
        &&& grown(earlier@, later@)
        &&& match reply {
            Reply::Row(Err(cause)) => step == Step::Return(Err(cause)) && later@
                == earlier@,
            Reply::Row(Ok(None)) => fails_with(step, not_found()) && later@ == earlier@,
            Reply::Row(Ok(Some(row))) => if self.grounded(namespace, earlier@) {
                let fresh = later[earlier.len() as int];
                &&& step == Step::Return(Ok(Returned::Record(earlier.len())))
                &&& later.len() == earlier.len() + 1
                &&& !fresh.is_new
                &&& names_of(fresh.model_path) == names_of(
                    earlier[self.object as int].model_path,
                )
                &&& fresh.transaction_ctx == earlier[self.object as int].transaction_ctx
                &&& fresh.request_ctx == earlier[self.object as int].request_ctx
                &&& fresh.action == earlier[self.object as int].action
                &&& fresh.tracking() == self.refreshed_tracking(
                    &self.model(namespace, earlier@),
                    earlier[self.object as int],
                    row@,
                )
                &&& fresh.is_selected == (self.select matches Some(chosen) && valid_selection(
                    chosen@,
                ) && row_entries(chosen@).len() > 0)
                &&& names_of(fresh.selected_fields) == match self.select {
                    Some(chosen) => if valid_selection(chosen@) && row_entries(chosen@).len()
                        > 0 {
                        selection(&self.model(namespace, earlier@), row_entries(chosen@))
                    } else {
                        Seq::empty()
                    },
                    None => Seq::empty(),
                }
            } else {
                step is Return && !ends_well(step) && later@ == earlier@
            },
            _ => fails_with(step, unexpected_reply()) && later@ == earlier@,
        }
    }

    /// The tracking of the record that a refresh makes of a row of the
    /// store: the row taken into a blank record, and then, where the model
    /// has virtual fields, the values that `before` holds under the virtual
    /// fields that can be assigned, assigned one after the other.
    pub open spec fn refreshed_tracking(self, model: &Model, before: Object, row: ValueView) -> Tracking {
        let taken = Tracking {
            is_modified: false,
            ..hydrate_entries(blank(), true, model, row_entries(row))
        };
        let virtuals = kept(model.field_names(), |name: Seq<char>| is_copied_virtual(model, name));
        if exists|i: int| 0 <= i < model.fields.len() && (#[trigger] model.fields[i]).is_virtual {
            assign_each(
                taken,
                false,
                model,
                virtuals,
                virtuals.map_values(|name: Seq<char>| before.value_or_null(name)),
            )
        } else {
            taken
        }
    }

    /// Takes in the row that the store found: it becomes a new record of
    /// the operation, which takes over the values of the virtual fields of
    /// the old one. No row is reported as not found.
    pub fn after_finding(self, namespace: &Namespace, records: &mut Vec<Object>, reply: Reply) -> (step: Step)
        ensures
            self.after_finding_step(namespace, *old(records), *final(records), reply, step),
    {
        let row = match reply {
            Reply::Row(Ok(Some(row))) => row,
            Reply::Row(Ok(None)) => {
                return Step::Return(Err(Error::new(ErrorKind::NotFound, "object is not found")));
            },
            Reply::Row(Err(cause)) => {
                return Step::Return(Err(cause));
            },
            _ => {
                return Step::Return(Err(unexpected()));
            },
        };
        if self.object >= records.len() {
            return Step::Return(Err(no_record()));
        }
        let model = match namespace.model_at_path(&records[self.object].model_path) {
            Some(model) => model,
            None => {
                return Step::Return(Err(no_model()));
            },
        };
        let record = &records[self.object];
        let mut fresh = Object::new(
            record.request_ctx,
            record.transaction_ctx,
            model,
            record.action,
        );
        proof {
            assert(fresh.tracking().values =~= Map::<Seq<char>, ValueView>::empty()) by {
                crate::value::value::lemma_first_index_absent_everywhere(fresh.value_map@);
            }
            assert(fresh.tracking().previous =~= Map::<Seq<char>, ValueView>::empty()) by {
                crate::value::value::lemma_first_index_absent_everywhere(fresh.previous_value_map@);
            }
            assert(fresh.tracking().cached =~= Map::<Seq<char>, ValueView>::empty()) by {
                crate::value::value::lemma_first_index_absent_everywhere(
                    fresh.cached_property_map@,
                );
            }
            assert(fresh.tracking().updaters =~= Map::<Seq<char>, ValueView>::empty()) by {
                crate::value::value::lemma_first_index_absent_everywhere(fresh.atomic_updater_map@);
            }
            assert(fresh.tracking() == blank());
            assert(names_of(fresh.selected_fields) =~= Seq::<Seq<char>>::empty());
        }
        fresh.set_from_database_result_value(
            namespace,
            model,
            &row,
            self.select.as_ref(),
            self.inclusion.as_ref(),
        );
        if model.has_virtual_fields() {
            record.copy_virtual_fields(model, &mut fresh);
        }
        let number = records.len();
        records.push(fresh);
        Step::Return(Ok(Returned::Record(number)))
    }

    /// Whether `step`, and the records after it, are what the refresh makes of
    /// `input`: each stage takes in what it waits for, and any other input ends
    /// the refresh with an error and leaves the records as they are.
    pub open spec fn refreshed_step(self, namespace: &Namespace, earlier: Vec<Object>, later: Vec<Object>, input: Input, step: Step) -> bool {
        &&& earlier.len() <= later.len()
        &&& forall|j: int|
            0 <= j < earlier.len() && j != self.object ==> #[trigger] later[j]
                == earlier[j]
        &&& match (self.waiting, input) {
            (false, Input::Start) => self.begin_step(namespace, earlier, later, step),
            (true, Input::Reply(reply)) => self.after_finding_step(
                namespace,
                earlier,
                later,
                reply,
                step,
            ),
            _ => fails_with(step, unexpected_reply()) && later@ == earlier@,
        }
    }

    /// Resumes the refresh.
    pub fn refreshed(self, namespace: &Namespace, records: &mut Vec<Object>, input: Input) -> (step: Step)
        ensures
            self.refreshed_step(namespace, *old(records), *final(records), input, step),
    {
        match (self.waiting, input) {
            (false, Input::Start) => self.begin(namespace, records),
            (true, Input::Reply(reply)) => self.after_finding(namespace, records, reply),
            _ => Step::Return(Err(unexpected())),
        }
    }
}

} // verus!
