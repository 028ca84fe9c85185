//! Integer helpers: rounding-down division on signed numbers.

use vstd::prelude::*;

verus! {

/// Quotient of `a` by a positive `b`, rounded towards negative infinity.
pub fn floor_div(a: i128, b: i128) -> (q: i128)
    requires
        b > 0,
        a > i128::MIN + b,
    ensures
        q == (a as int) / (b as int),
{
    if a >= 0 {
        a / b
    } else {
        let up: i128 = (-a + (b - 1)) / b;
        assert(-up == (a as int) / (b as int)) by (nonlinear_arith)
            requires
                up == ((-a + (b - 1)) as int) / (b as int),
                b > 0,
                a < 0,
        ;
        -up
    }
}

} // verus!
