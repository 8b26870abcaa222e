use vstd::prelude::*;

verus! {

/// Relies on anchor_safe_math's `SafeMath::safe_add` for `u64`: it is
/// `checked_add`, failing exactly when the sum exceeds `u64::MAX`.
#[verifier::external_body]
pub(crate) fn safe_add(a: u64, b: u64) -> (r: Option<u64>)
    ensures
        r == (if a + b > u64::MAX {
            None::<u64>
        } else {
            Some((a + b) as u64)
        }),
{
    anchor_safe_math::SafeMath::safe_add(&a, b).ok()
}

/// Relies on anchor_safe_math's `SafeMath::safe_sub` for `u64`: it is
/// `checked_sub`, failing exactly when `b` exceeds `a`.
#[verifier::external_body]
pub(crate) fn safe_sub(a: u64, b: u64) -> (r: Option<u64>)
    ensures
        r == (if b > a {
            None::<u64>
        } else {
            Some((a - b) as u64)
        }),
{
    anchor_safe_math::SafeMath::safe_sub(&a, b).ok()
}

} // verus!
