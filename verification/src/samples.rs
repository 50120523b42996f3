//! Entry-point computations for the sample lessons bundled with the
//! harness: small arithmetic and call demonstrations whose results the
//! bundled lessons' transcripts are built from.

use vstd::prelude::*;

verus! {

/// Adds two signed 32-bit integers.
pub fn add_two_numbers(a: i32, b: i32) -> (result: i32)
    requires
        i32::MIN <= a + b <= i32::MAX,
    ensures
        result == a + b,
{
    let result = a + b;
    return result;
}

/// Performs two widening and truncating casts followed by additions, and
/// discards both sums; nothing is observable of it.
pub fn many_operations(a: u32, b: u8, _c: i16, _d: isize)
    requires
        a + b <= u32::MAX,
        (b + (a as u8)) <= u8::MAX,
{
    a + b as u32;
    b + a as u8;
}

/// An entry point that does nothing at all.
pub fn call_me() {
}

/// Produces the fixed answer the function-signature lesson prints.
pub fn calculate() -> (result: i32)
    ensures
        result == 37,
{
    return 37;
}

} // verus!
