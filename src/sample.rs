use vstd::prelude::*;
use vstd::wrapping::u32_specs::{wrapping_add, wrapping_mul};

verus! {

/// Result block the sample calculation writes to the output window.
#[derive(Clone, Copy, Debug, PartialEq, Eq, Structural)]
pub struct CalculationResult {
    pub result_value: u32,
    pub input_hash: u32,
    pub status_code: u32,
    pub checksum: u32,
}

/// Multiplier of the input hash.
pub const HASH_MULTIPLIER: u32 = 0x9e37_79b9;

/// Constant folded into the checksum.
pub const CHECKSUM_SEED: u32 = 0x1234_5678;

pub open spec fn core_spec(a: u32, b: u32) -> u32 {
    let r = wrapping_add(wrapping_mul(a, b), 42);
    if a > 1000000 { r / 2 } else { r }
}

/// `a * b + 42`, wrapping, halved when `a` exceeds one million.
pub fn my_core_calculation(input_a: u32, input_b: u32) -> (r: u32)
    ensures
        r == core_spec(input_a, input_b),
{
    let result = input_a.wrapping_mul(input_b).wrapping_add(42);
    if input_a > 1000000 {
        result / 2
    } else {
        result
    }
}

/// The inputs to use: the pair read from the input window, or (123, 456)
/// when both are zero.
pub fn input_or_default(input_a: u32, input_b: u32) -> (r: (u32, u32))
    ensures
        r == if input_a == 0 && input_b == 0 { (123u32, 456u32) } else { (input_a, input_b) },
{
    if input_a == 0 && input_b == 0 {
        (123, 456)
    } else {
        (input_a, input_b)
    }
}

/// The sample calculation on the two words read from the input window.
pub fn main_calculation(raw_a: u32, raw_b: u32) -> (r: CalculationResult)
    ensures
        ({
            let (a, b) = if raw_a == 0 && raw_b == 0 { (123u32, 456u32) } else { (raw_a, raw_b) };
            let h = wrapping_mul(wrapping_add(a, b), HASH_MULTIPLIER);
            r == CalculationResult {
                result_value: core_spec(a, b),
                input_hash: h,
                status_code: 0,
                checksum: wrapping_add(wrapping_add(core_spec(a, b), h), CHECKSUM_SEED),
            }
        }),
{
    let (input_a, input_b) = input_or_default(raw_a, raw_b);
    let result_value = my_core_calculation(input_a, input_b);
    let input_hash = input_a.wrapping_add(input_b).wrapping_mul(HASH_MULTIPLIER);
    let checksum = result_value.wrapping_add(input_hash).wrapping_add(CHECKSUM_SEED);
    CalculationResult { result_value, input_hash, status_code: 0, checksum }
}

} // verus!
