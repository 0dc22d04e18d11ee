//! Integer square roots, from the `num` crate.

use vstd::prelude::*;

use crate::components::is_floor_sqrt;

verus! {

/// Relies on `num::integer::sqrt` for `i64` (`Roots::sqrt`): the truncated
/// principal square root, `r * r <= x < (r + 1) * (r + 1)`; it panics on a
/// negative argument.
#[verifier::external_body]
pub(crate) fn floor_sqrt(x: i64) -> (r: i64)
    requires
        x >= 0,
    ensures
        is_floor_sqrt(r as int, x as int),
{
    num::integer::sqrt(x)
}

} // verus!
