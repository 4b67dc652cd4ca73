//! Order helpers over scalars.
//!
//! `minf` and `maxf` pick the smaller and the larger of two scalars under
//! the strict order of the type class.  A comparison against a
//! not-a-number value has no defined order, which the concrete types
//! treat as a fatal error; the precondition therefore keeps NaN out.

use vstd::prelude::*;
use crate::scalar::{Scalar, s_min, s_max};

verus! {

/// The smaller of two numbers; on a tie the second operand is returned.
pub fn minf<S: Scalar>(v1: S, v2: S) -> (r: S)
    requires
        !v1.spec_is_nan(),
        !v2.spec_is_nan(),
    ensures
        r == s_min(v1, v2),
{
    if v1.lt(v2) {
        v1
    } else {
        v2
    }
}

/// The larger of two numbers; on a tie the first operand is returned.
pub fn maxf<S: Scalar>(v1: S, v2: S) -> (r: S)
    requires
        !v1.spec_is_nan(),
        !v2.spec_is_nan(),
    ensures
        r == s_max(v1, v2),
{
    if v1.lt(v2) {
        v2
    } else {
        v1
    }
}

} // verus!
