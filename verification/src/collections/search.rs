use vstd::prelude::*;

verus! {

/// The position of the first item that `holds` is true of, or the length of
/// `items` when it is true of none.
pub open spec fn first_match<T>(items: Seq<T>, holds: spec_fn(T) -> bool) -> int
    decreases items.len(),
{
    if items.len() == 0 {
        0
    } else {
        let before = first_match(items.drop_last(), holds);
        if before < items.len() - 1 {
            before
        } else if holds(items.last()) {
            items.len() - 1
        } else {
            items.len() as int
        }
    }
}

/// The first position is in range, `holds` is true of the item there when it
/// is below the length, and of no earlier item.
pub proof fn lemma_first_match<T>(items: Seq<T>, holds: spec_fn(T) -> bool)
    ensures
        0 <= first_match(items, holds) <= items.len(),
        first_match(items, holds) < items.len() ==> holds(items[first_match(items, holds)]),
        forall|j: int| 0 <= j < first_match(items, holds) ==> !holds(#[trigger] items[j]),
    decreases items.len(),
{
    if items.len() > 0 {
        lemma_first_match(items.drop_last(), holds);
        let before = first_match(items.drop_last(), holds);
        assert forall|j: int| 0 <= j < first_match(items, holds) implies !holds(
            #[trigger] items[j],
        ) by {
            if j < items.len() - 1 {
                assert(items.drop_last()[j] == items[j]);
            }
        }
        if before < items.len() - 1 {
            assert(items.drop_last()[before] == items[before]);
        }
    }
}

/// A position whose item `holds` is true of, while it is true of no earlier
/// item, is the first position.
pub proof fn lemma_first_match_is<T>(items: Seq<T>, holds: spec_fn(T) -> bool, index: int)
    requires
        0 <= index < items.len(),
        holds(items[index]),
        forall|j: int| 0 <= j < index ==> !holds(#[trigger] items[j]),
    ensures
        first_match(items, holds) == index,
{
    lemma_first_match(items, holds);
}

/// Where `holds` is true of no item, the first position is the length.
pub proof fn lemma_first_match_none<T>(items: Seq<T>, holds: spec_fn(T) -> bool)
    requires
        forall|j: int| 0 <= j < items.len() ==> !holds(#[trigger] items[j]),
    ensures
        first_match(items, holds) == items.len(),
{
    lemma_first_match(items, holds);
}

} // verus!
