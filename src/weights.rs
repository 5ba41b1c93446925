use vstd::prelude::*;

verus! {

/// Whether a weight can be handed to the engine exactly.
pub open spec fn fits_i32(v: int) -> bool {
    i32::MIN <= v <= i32::MAX
}

/// Narrows a weight to `i32`, failing (with `None`) exactly when it does not
/// fit; never truncates or saturates.
pub fn coerce_weight(v: i64) -> (r: Option<i32>)
    ensures
        r.is_some() == fits_i32(v as int),
        r.is_some() ==> r.unwrap() as int == v as int,
{
    if i32::MIN as i64 <= v && v <= i32::MAX as i64 {
        Some(v as i32)
    } else {
        None
    }
}

} // verus!
