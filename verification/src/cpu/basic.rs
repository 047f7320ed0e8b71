use vstd::prelude::*;

verus! {

/// Adds two integers; the sum must fit in an `i32`.
pub fn add_two(a: i32, b: i32) -> (sum: i32)
    requires
        i32::MIN <= a + b <= i32::MAX,
    ensures
        sum == a + b,
{
    a + b
}

/// Adds ten to the integer behind `num`; the result must fit in an `i32`.
pub fn add_ten(num: &mut i32)
    requires
        *old(num) + 10 <= i32::MAX,
    ensures
        *final(num) == *old(num) + 10,
{
    *num += 10;
}

} // verus!
