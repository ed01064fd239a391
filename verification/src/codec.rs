//! What the adapters exchange with the surrounding serialization
//! framework: the raw value of a numeric document field, the two errors
//! a conversion can raise, and the shared bounded-integer parse.

use vstd::prelude::*;

use crate::bounds;
use crate::bounds::in_safe_range;

verus! {

/// The raw value of a numeric document field, as the surrounding
/// framework hands it over: an integer of whatever sign and magnitude
/// the document carries, or a number with a fractional part.
#[derive(Clone, Copy, Debug, PartialEq, Eq, Structural)]
pub enum FieldValue {
    Integer(i128),
    NonInteger,
}

/// The two ways a conversion can fail: the value would lose precision
/// in a double-precision numeric literal (`RangeOverflow`, on encode),
/// or the field does not hold a non-negative integer within that range
/// (`InvalidInteger`, on decode).
#[derive(Clone, Copy, Debug, PartialEq, Eq, Structural)]
pub enum CodecError {
    RangeOverflow,
    InvalidInteger,
}

impl CodecError {
    /// A descriptive message for the framework's error channel.
    pub fn message(&self) -> (r: &'static str)
        ensures
            (match self {
                CodecError::RangeOverflow => r@
                    == "duration exceeds the range representable without precision loss"@,
                CodecError::InvalidInteger => r@
                    == "expected a non-negative integer no greater than 2^53 - 1"@,
            }),
    {
        match self {
            CodecError::RangeOverflow => {
                "duration exceeds the range representable without precision loss"
            },
            CodecError::InvalidInteger => {
                "expected a non-negative integer no greater than 2^53 - 1"
            },
        }
    }
}

/// What reading a field as a bounded non-negative integer yields: the
/// value itself when the field holds an integer between 0 and 2^53 - 1,
/// and `InvalidInteger` on anything else.
pub open spec fn spec_parse_bounded(f: FieldValue) -> Result<u64, CodecError> {
    match f {
        FieldValue::Integer(v) => if in_safe_range(v as int) {
            Ok(v as u64)
        } else {
            Err(CodecError::InvalidInteger)
        },
        FieldValue::NonInteger => Err(CodecError::InvalidInteger),
    }
}

/// Reads a document field as a bounded non-negative integer. Fails with
/// `InvalidInteger` if the field is not an integer, is negative, or
/// exceeds 2^53 - 1.
pub fn parse_bounded(f: &FieldValue) -> (r: Result<u64, CodecError>)
    ensures
        r == spec_parse_bounded(*f),
{
    match f {
        FieldValue::Integer(v) => match bounds::bounded_from_i128(*v) {
            Some(u) => Ok(u),
            None => Err(CodecError::InvalidInteger),
        },
        FieldValue::NonInteger => Err(CodecError::InvalidInteger),
    }
}

/// A field holding a negative number, a non-integer, or an integer
/// above 2^53 - 1 is always rejected as `InvalidInteger`.
pub proof fn lemma_invalid_field_rejected(f: FieldValue)
    requires
        (match f {
            FieldValue::Integer(v) => !in_safe_range(v as int),
            FieldValue::NonInteger => true,
        }),
    ensures
        spec_parse_bounded(f) == Err::<u64, CodecError>(CodecError::InvalidInteger),
{
}

} // verus!
