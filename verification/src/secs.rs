//! Conversion of a mandatory duration to and from a numeric field
//! holding whole seconds.

use vstd::prelude::*;

use crate::bounds;
use crate::bounds::in_safe_range;
use crate::codec::{spec_parse_bounded, parse_bounded, CodecError, FieldValue};
use crate::duration::Duration;

verus! {

/// What encoding a duration as whole seconds yields: the second count
/// when it is at most 2^53 - 1, and `RangeOverflow` beyond that.
pub open spec fn spec_serialize(d: Duration) -> Result<u64, CodecError> {
    if in_safe_range(d.spec_secs()) {
        Ok(d.spec_secs() as u64)
    } else {
        Err(CodecError::RangeOverflow)
    }
}

/// What decoding a whole-seconds field yields: a duration of that many
/// seconds when the field holds an integer between 0 and 2^53 - 1, and
/// `InvalidInteger` on anything else.
pub open spec fn spec_deserialize(f: FieldValue) -> Result<Duration, CodecError> {
    match spec_parse_bounded(f) {
        Ok(v) => Ok(Duration::spec_from_secs(v)),
        Err(e) => Err(e),
    }
}

/// Encodes a duration as its count of whole seconds, truncating any
/// sub-second remainder. Fails with `RangeOverflow` if the count
/// exceeds 2^53 - 1.
pub fn serialize(duration: &Duration) -> (r: Result<u64, CodecError>)
    ensures
        r == spec_serialize(*duration),
{
    match bounds::bounded_from_u64(duration.as_secs()) {
        Some(v) => Ok(v),
        None => Err(CodecError::RangeOverflow),
    }
}

/// Decodes a whole-seconds field into a duration. Fails with
/// `InvalidInteger` if the field is not an integer, is negative, or
/// exceeds 2^53 - 1.
pub fn deserialize(field: &FieldValue) -> (r: Result<Duration, CodecError>)
    ensures
        r == spec_deserialize(*field),
{
    match parse_bounded(field) {
        Ok(v) => Ok(Duration::from_secs(v)),
        Err(e) => Err(e),
    }
}

/// Round trip: a seconds field holding a value in the safe range
/// decodes to a duration that encodes back to the same value.
pub proof fn lemma_round_trip(s: u64)
    requires
        in_safe_range(s as int),
    ensures
        spec_deserialize(FieldValue::Integer(s as i128)) matches Ok(d) && spec_serialize(d)
            == Ok::<u64, CodecError>(s),
{
}

/// A duration whose whole-second count exceeds 2^53 - 1 is always
/// rejected with `RangeOverflow` on encode.
pub proof fn lemma_overflow_rejected(d: Duration)
    requires
        !in_safe_range(d.spec_secs()),
    ensures
        spec_serialize(d) == Err::<u64, CodecError>(CodecError::RangeOverflow),
{
}

} // verus!
