use vstd::prelude::*;
use crate::arguments::arguments::Arguments;
use crate::collections::search::{first_match, lemma_first_match_is, lemma_first_match_none};
use crate::object::{Object, ObjectInner};
use crate::path::error::{Error, ErrorKind, ErrorView};
use crate::pipeline::pipeline::{BoundedItem, Pipeline};

verus! {

/// What an expression of a pipeline resolves to.
#[derive(Debug)]
pub enum UnitItem {
    /// A namespace: the identifier after it is looked up in it.
    Space,
    /// A pipeline item, with its path and the arguments written after it.
    Item(Vec<String>, Arguments),
    /// An identifier that names nothing.
    Missing,
    /// An expression that is no identifier.
    Other,
}

/// The error for an identifier of a pipeline that names no item.
pub open spec fn item_not_found() -> ErrorView {
    ErrorView { kind: ErrorKind::ValueError, message: "pipeline item not found"@, path: None }
}

/// The pipeline items among the expressions of a unit, in order.
pub open spec fn items_of(unit: Seq<UnitItem>) -> Seq<BoundedItem>
    decreases unit.len(),
{
    if unit.len() == 0 {
        Seq::empty()
    } else {
        match unit.last() {
            UnitItem::Item(path, arguments) => items_of(unit.drop_last()).push(
                (BoundedItem { path, arguments }),
            ),
            _ => items_of(unit.drop_last()),
        }
    }
}

/// The pipeline that the expressions of a unit stand for: its items are
/// the pipeline items among the expressions, in order. An identifier that
/// names nothing fails the unit.
#[verifier::loop_isolation(false)]
pub fn fetch_pipeline_unit(unit: Vec<UnitItem>) -> (result: Result<Object, Error>)
    ensures
        match result {
            Ok(object) => first_match(unit@, |item: UnitItem| item is Missing) == unit.len() && (
            object.inner matches ObjectInner::Pipeline(pipeline) && pipeline.items@ == items_of(
                unit@,
            )),
            Err(error) => first_match(unit@, |item: UnitItem| item is Missing) < unit.len()
                && error@ == item_not_found(),
        },
{
    let ghost all = unit@;
    let ghost missing = |item: UnitItem| item is Missing;
    let mut unit = unit;
    let length = unit.len();
    let mut pipeline = Pipeline::new();
    let mut done: usize = 0;
    while unit.len() > 0
        invariant
            all.len() <= usize::MAX,
            done + unit.len() == all.len(),
            unit@ == all.subrange(done as int, all.len() as int),
            forall|j: int| 0 <= j < done ==> !missing(#[trigger] all[j]),
            pipeline.items@ == items_of(all.take(done as int)),
        decreases unit.len(),
    {
        assert(unit@[0] == all[done as int]);
        let item = unit.remove(0);
        assert(unit@ =~= all.subrange(done + 1, all.len() as int));
        assert(all.take(done + 1).drop_last() =~= all.take(done as int));
        assert(all.take(done + 1).last() == item);
        match item {
            UnitItem::Item(path, arguments) => {
                pipeline.items.push(BoundedItem { path, arguments });
            },
            UnitItem::Missing => {
                proof {
                    lemma_first_match_is(all, missing, done as int);
                }
                return Err(Error::new(ErrorKind::ValueError, "pipeline item not found"));
            },
            _ => {},
        }
        done += 1;
    }
    proof {
        lemma_first_match_none(all, missing);
        assert(all.take(done as int) =~= all);
    }
    Ok(Object::from_pipeline(pipeline))
}

/// The pipeline that a pipeline expression stands for.
pub fn fetch_pipeline(unit: Vec<UnitItem>) -> (result: Result<Object, Error>)
    ensures
        match result {
            Ok(object) => first_match(unit@, |item: UnitItem| item is Missing) == unit.len() && (
            object.inner matches ObjectInner::Pipeline(pipeline) && pipeline.items@ == items_of(
                unit@,
            )),
            Err(error) => first_match(unit@, |item: UnitItem| item is Missing) < unit.len()
                && error@ == item_not_found(),
        },
{
    fetch_pipeline_unit(unit)
}

} // verus!
