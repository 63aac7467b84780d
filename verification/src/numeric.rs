//! Small numeric helpers: parity tests and a guarded integer division.

use vstd::prelude::*;

verus! {

/// The quotient Rust's `/` computes on signed integers: truncation towards
/// zero, written over the Euclidean `/` of ghost code (the two agree on a
/// non-negative dividend, whatever the divisor's sign).
pub open spec fn quotient_trunc(a: int, b: int) -> int {
    if a >= 0 {
        a / b
    } else {
        -((-a) / b)
    }
}

/// Gets whether the specified number is even (true), or odd (false).
pub fn is_even(num: i32) -> (r: bool)
    ensures
        r <==> (num as int) % 2 == 0,
{
    num % 2 == 0
}

/// Gets whether the specified number is odd (true), or even (false).
///
/// The parity test compares the remainder against `1`, and Rust's `%`
/// yields a non-positive remainder for a negative input, so every negative
/// number is reported as not odd.
pub fn is_odd(num: i32) -> (r: bool)
    ensures
        r <==> num > 0 && (num as int) % 2 == 1,
{
    num % 2 == 1
}

/// Safe division of a by b.
pub fn safe_integer_divide(a: i32, b: i32) -> (r: Result<i32, String>)
    requires
        !(a == i32::MIN && b == -1),
    ensures
        b != 0 ==> (r matches Ok(q) && q == quotient_trunc(a as int, b as int)),
        b == 0 ==> (r matches Err(m) && m@ == "b must not be 0"@),
{
    if b == 0 {
        Err("b must not be 0".to_owned())
    } else {
        proof {
            let ai = a as int;
            let bi = b as int;
            assert(i32::MIN <= quotient_trunc(ai, bi) <= i32::MAX) by (nonlinear_arith)
                requires
                    bi != 0,
                    !(ai == i32::MIN && bi == -1),
                    i32::MIN <= ai <= i32::MAX,
                    i32::MIN <= bi <= i32::MAX,
            ;
        }
        Ok(a / b)
    }
}

} // verus!
