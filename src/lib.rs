//! A minimal library around one operation: the sum of two `i32` values.
use vstd::prelude::*;

verus! {

/// The mathematical sum of `a` and `b`, with no bound on its size.
pub open spec fn add_spec(a: i32, b: i32) -> int {
    a + b
}

/// Whether the sum of `a` and `b` is itself a value of `i32`.
pub open spec fn sum_fits(a: i32, b: i32) -> bool {
    i32::MIN <= add_spec(a, b) <= i32::MAX
}

/// Adds two numbers.
///
/// The sum must be representable: as with Rust's own `+` on `i32`, a sum
/// out of range is an overflow, which callers keep away from.
pub fn add(a: i32, b: i32) -> (r: i32)
    requires
        sum_fits(a, b),
    ensures
        r == add_spec(a, b),
{
    a + b
}

/// Addition is commutative: swapping the operands keeps the sum, and keeps
/// it in range.
pub proof fn lemma_add_commutative(a: i32, b: i32)
    requires
        sum_fits(a, b),
    ensures
        sum_fits(b, a),
        add_spec(a, b) == add_spec(b, a),
{
}

/// Zero is an identity: adding zero to any value gives that value back.
pub proof fn lemma_add_zero_identity(a: i32)
    ensures
        sum_fits(a, 0),
        add_spec(a, 0) == a,
{
}

} // verus!
