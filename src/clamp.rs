use vstd::prelude::*;
use vstd::std_specs::cmp::{PartialOrdIs, PartialOrdSpec};

verus! {

/// Limits `value` to the range `[min, max]`: `min` when `value < min`, `max`
/// when `value > max`, and `value` itself otherwise.
///
/// For types whose ordering is specified (all integer types), the result is
/// pinned down exactly; for other `PartialOrd` types the same comparisons are
/// made, but nothing is claimed of their outcome.
pub fn clamp<T: PartialOrd>(value: T, min: T, max: T) -> (r: T)
    ensures
        T::obeys_partial_cmp_spec() ==> {
            if value.is_lt(&min) {
                r == min
            } else if value.is_gt(&max) {
                r == max
            } else {
                r == value
            }
        },
{
    let mut result = value;
    if result < min {
        result = min;
    } else if result > max {
        result = max;
    }
    result
}

} // verus!
