//! The bounded-integer invariant: a value may be written into a numeric
//! document field only if it is exactly representable as a
//! double-precision number, i.e. at most 2^53 - 1. The checks delegate
//! to `js_int::UInt`, which enforces exactly that range.

use vstd::prelude::*;

verus! {

/// The largest integer magnitude that a double-precision number can
/// represent exactly: 2^53 - 1.
pub const MAX_SAFE_INT: u64 = 0x1F_FFFF_FFFF_FFFF;

/// Whether a mathematical integer survives a round trip through a
/// double-precision numeric literal unchanged.
pub open spec fn in_safe_range(v: int) -> bool {
    0 <= v <= MAX_SAFE_INT as int
}

/// Relies on `js_int::UInt`'s `TryFrom<u64>`, which succeeds exactly
/// when the value is at most 2^53 - 1, and on `u64::From<UInt>`, which
/// returns the value the `UInt` was built from.
#[verifier::external_body]
pub(crate) fn bounded_from_u64(v: u64) -> (r: Option<u64>)
    ensures
        r == (if in_safe_range(v as int) {
            Some(v)
        } else {
            None::<u64>
        }),
{
    js_int::UInt::try_from(v).ok().map(u64::from)
}

/// Relies on `js_int::UInt`'s `TryFrom<u128>`, which succeeds exactly
/// when the value is at most 2^53 - 1, and on `u64::From<UInt>`, which
/// returns the value the `UInt` was built from.
#[verifier::external_body]
pub(crate) fn bounded_from_u128(v: u128) -> (r: Option<u64>)
    ensures
        r == (if in_safe_range(v as int) {
            Some(v as u64)
        } else {
            None::<u64>
        }),
{
    js_int::UInt::try_from(v).ok().map(u64::from)
}

/// Relies on `js_int::UInt`'s `TryFrom<i128>`, which succeeds exactly
/// when the value is between 0 and 2^53 - 1, and on `u64::From<UInt>`,
/// which returns the value the `UInt` was built from.
#[verifier::external_body]
pub(crate) fn bounded_from_i128(v: i128) -> (r: Option<u64>)
    ensures
        r == (if in_safe_range(v as int) {
            Some(v as u64)
        } else {
            None::<u64>
        }),
{
    js_int::UInt::try_from(v).ok().map(u64::from)
}

} // verus!
