use vstd::prelude::*;
use crate::value::value::{Value, ValueView};

verus! {

/// The number of matching records as the value that a count hands back:
/// a 64-bit integer, the largest one where the number does not fit.
pub fn count(result: u64) -> (value: Value)
    ensures
        value@ == ValueView::Int64(
            if result <= 0x7fff_ffff_ffff_ffff {
                result as i64
            } else {
                0x7fff_ffff_ffff_ffff
            },
        ),
{
    if result <= 0x7fff_ffff_ffff_ffff {
        Value::Int64(result as i64)
    } else {
        Value::Int64(0x7fff_ffff_ffff_ffff)
    }
}

} // verus!
