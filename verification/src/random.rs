//! Trusted draws from the process-wide random generator.
//!
//! Nothing can be promised of a random value beyond its range, so every
//! verified caller takes what these hand back and states what holds of
//! every outcome.
use vstd::prelude::*;

verus! {

/// Relies on fastrand::u8: a value drawn from `0..n`. The range is
/// non-empty by the precondition, so the call cannot panic, and the
/// result lies in the range.
#[verifier::external_body]
pub(crate) fn rand_u8_below(n: u8) -> (r: u8)
    requires
        n > 0,
    ensures
        r < n,
{
    fastrand::u8(0..n)
}

/// Relies on fastrand::u32: a value drawn from `0..n`. The range is
/// non-empty by the precondition, so the call cannot panic, and the
/// result lies in the range.
#[verifier::external_body]
pub(crate) fn rand_u32_below(n: u32) -> (r: u32)
    requires
        n > 0,
    ensures
        r < n,
{
    fastrand::u32(0..n)
}

} // verus!
