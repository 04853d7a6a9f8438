//! Small arithmetic helpers.

use vstd::prelude::*;

verus! {

/// The sum of two numbers. The sum has to fit in a `usize`.
pub fn add(left: usize, right: usize) -> (sum: usize)
    requires
        left + right <= usize::MAX,
    ensures
        sum == left + right,
{
    left + right
}

/// The number after the given one, if one is given. The given number must not
/// be the largest `i32`.
pub fn plus_one(x: Option<i32>) -> (y: Option<i32>)
    requires
        x != Some(i32::MAX),
    ensures
        x is None ==> y is None,
        x is Some ==> y is Some && y->0 == x->0 + 1,
{
    match x {
        None => None,
        Some(i) => Some(i + 1),
    }
}

} // verus!
