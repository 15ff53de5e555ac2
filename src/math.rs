use vstd::prelude::*;

verus! {

/// The larger of two values.
pub fn max(a: u32, b: u32) -> (r: u32)
    ensures
        r == if a > b { a } else { b },
        r >= a && r >= b,
{
    if a > b {
        a
    } else {
        b
    }
}

/// The smaller of two values.
pub fn min(a: u32, b: u32) -> (r: u32)
    ensures
        r == if a < b { a } else { b },
        r <= a && r <= b,
{
    if a < b {
        a
    } else {
        b
    }
}

/// Integer division that yields 0 instead of failing on a zero denominator.
pub fn safe_div(numerator: u32, denominator: u32) -> (r: u32)
    ensures
        denominator == 0 ==> r == 0,
        denominator != 0 ==> r == numerator / denominator,
{
    if denominator == 0 {
        0
    } else {
        numerator / denominator
    }
}

} // verus!
