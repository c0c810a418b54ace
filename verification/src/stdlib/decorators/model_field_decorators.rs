use vstd::prelude::*;
use crate::model::decorator::Call;
use crate::namespace::namespace::{is_decorator, Namespace};

verus! {

/// The number of standard decorators of model fields.
pub const STANDARD_MODEL_FIELD_DECORATORS: usize = 37;

/// The standard decorator of model fields at a position: its name and what
/// it does.
pub open spec fn standard_model_field_decorator(position: usize) -> (Seq<char>, Call) {
    match position {
        0 => ("map"@, Call::MapColumn),
        1 => ("db"@, Call::Db),
        2 => ("readonly"@, Call::Readonly),
        3 => ("writeonly"@, Call::Writeonly),
        4 => ("internal"@, Call::Internal),
        5 => ("writeOnCreate"@, Call::WriteOnCreate),
        6 => ("writeOnce"@, Call::WriteOnce),
        7 => ("writeNonNull"@, Call::WriteNonNull),
        8 => ("readwrite"@, Call::Readwrite),
        9 => ("readIf"@, Call::ReadIf),
        10 => ("writeIf"@, Call::WriteIf),
        11 => ("presentWith"@, Call::PresentWith),
        12 => ("presentWithout"@, Call::PresentWithout),
        13 => ("presentIf"@, Call::PresentIf),
        14 => ("atomic"@, Call::Atomic),
        15 => ("nonatomic"@, Call::Nonatomic),
        16 => ("id"@, Call::Id),
        17 => ("index"@, Call::Index),
        18 => ("unique"@, Call::Unique),
        19 => ("virtual"@, Call::Virtual),
        20 => ("inputOmissible"@, Call::InputOmissible),
        21 => ("outputOmissible"@, Call::OutputOmissible),
        22 => ("auto"@, Call::Auto),
        23 => ("autoIncrement"@, Call::AutoIncrement),
        24 => ("default"@, Call::Default),
        25 => ("foreignKey"@, Call::ForeignKey),
        26 => ("onSet"@, Call::OnSet),
        27 => ("onSave"@, Call::OnSave),
        28 => ("onOutput"@, Call::OnOutput),
        29 => ("queryable"@, Call::Queryable),
        30 => ("unqueryable"@, Call::Unqueryable),
        31 => ("sortable"@, Call::Sortable),
        32 => ("unsortable"@, Call::Unsortable),
        33 => ("canRead"@, Call::CanRead),
        34 => ("canMutate"@, Call::CanMutate),
        35 => ("dropped"@, Call::Dropped),
        _ => ("migration"@, Call::Migration),
    }
}

/// The standard decorator of model fields at a position.
pub fn model_field_decorator(position: usize) -> (decorator: (&'static str, Call))
    ensures
        decorator.0@ == standard_model_field_decorator(position).0,
        decorator.1 == standard_model_field_decorator(position).1,
{
    match position {
        0 => ("map", Call::MapColumn),
        1 => ("db", Call::Db),
        2 => ("readonly", Call::Readonly),
        3 => ("writeonly", Call::Writeonly),
        4 => ("internal", Call::Internal),
        5 => ("writeOnCreate", Call::WriteOnCreate),
        6 => ("writeOnce", Call::WriteOnce),
        7 => ("writeNonNull", Call::WriteNonNull),
        8 => ("readwrite", Call::Readwrite),
        9 => ("readIf", Call::ReadIf),
        10 => ("writeIf", Call::WriteIf),
        11 => ("presentWith", Call::PresentWith),
        12 => ("presentWithout", Call::PresentWithout),
        13 => ("presentIf", Call::PresentIf),
        14 => ("atomic", Call::Atomic),
        15 => ("nonatomic", Call::Nonatomic),
        16 => ("id", Call::Id),
        17 => ("index", Call::Index),
        18 => ("unique", Call::Unique),
        19 => ("virtual", Call::Virtual),
        20 => ("inputOmissible", Call::InputOmissible),
        21 => ("outputOmissible", Call::OutputOmissible),
        22 => ("auto", Call::Auto),
        23 => ("autoIncrement", Call::AutoIncrement),
        24 => ("default", Call::Default),
        25 => ("foreignKey", Call::ForeignKey),
        26 => ("onSet", Call::OnSet),
        27 => ("onSave", Call::OnSave),
        28 => ("onOutput", Call::OnOutput),
        29 => ("queryable", Call::Queryable),
        30 => ("unqueryable", Call::Unqueryable),
        31 => ("sortable", Call::Sortable),
        32 => ("unsortable", Call::Unsortable),
        33 => ("canRead", Call::CanRead),
        34 => ("canMutate", Call::CanMutate),
        35 => ("dropped", Call::Dropped),
        _ => ("migration", Call::Migration),
    }
}

/// Defines the standard decorators of model fields in `namespace`, after
/// the decorators that it holds. Nothing else of the namespace changes.
pub fn load_model_field_decorators(namespace: &mut Namespace)
    ensures
        final(namespace).model_field_decorators@.len() == old(namespace).model_field_decorators@.len()
            + STANDARD_MODEL_FIELD_DECORATORS,
        forall|i: int|
            0 <= i < old(namespace).model_field_decorators@.len() ==> #[trigger] final(namespace).model_field_decorators@[i] == old(namespace).model_field_decorators@[i],
        forall|i: usize|
            i < STANDARD_MODEL_FIELD_DECORATORS ==> is_decorator(
                #[trigger] final(namespace).model_field_decorators@[old(namespace).model_field_decorators@.len() + i],
                standard_model_field_decorator(i).0,
                standard_model_field_decorator(i).1,
            ),
        final(namespace).models == old(namespace).models,
        final(namespace).pipeline_items == old(namespace).pipeline_items,
{
    let ghost start = namespace.model_field_decorators@;
    let mut i: usize = 0;
    while i < STANDARD_MODEL_FIELD_DECORATORS
        invariant
            i <= STANDARD_MODEL_FIELD_DECORATORS,
            start == old(namespace).model_field_decorators@,
            namespace.model_field_decorators@.len() == start.len() + i,
            forall|k: int|
                0 <= k < start.len() ==> #[trigger] namespace.model_field_decorators@[k]
                    == start[k],
            forall|k: usize|
                k < i ==> is_decorator(
                    #[trigger] namespace.model_field_decorators@[start.len() + k],
                    standard_model_field_decorator(k).0,
                    standard_model_field_decorator(k).1,
                ),
            namespace.models == old(namespace).models,
            namespace.pipeline_items == old(namespace).pipeline_items,
        decreases STANDARD_MODEL_FIELD_DECORATORS - i,
    {
        let ghost before = namespace.model_field_decorators@;
        let (name, call) = model_field_decorator(i);
        namespace.define_model_field_decorator(name, call);
        proof {
            let after = namespace.model_field_decorators@;
            assert forall|k: int| 0 <= k < before.len() implies #[trigger] after[k]
                == before[k] by {
                assert(after.drop_last()[k] == after[k]);
            }
            assert(after[start.len() + i] == after.last());
        }
        i += 1;
    }
}

} // verus!
