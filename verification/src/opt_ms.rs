//! Conversion of an absent-or-present duration to and from a numeric
//! field holding whole milliseconds. An absent value is a third state,
//! distinct from a present zero: it encodes to an omitted field, and a
//! missing field decodes to it without error.

use vstd::prelude::*;

use crate::bounds::in_safe_range;
use crate::codec::{spec_parse_bounded, parse_bounded, CodecError, FieldValue};
use crate::duration::Duration;
use crate::ms;

verus! {

/// What encoding an optional duration as whole milliseconds yields:
/// `None` for an absent value (the field is omitted), otherwise exactly
/// what the mandatory milliseconds encoding yields for the present
/// value.
pub open spec fn spec_serialize(od: Option<Duration>) -> Result<Option<u64>, CodecError> {
    match od {
        Some(d) => match ms::spec_serialize(d) {
            Ok(v) => Ok(Some(v)),
            Err(e) => Err(e),
        },
        None => Ok(None),
    }
}

/// What decoding an optional whole-milliseconds field yields: "absent"
/// when the field is missing, otherwise exactly what the mandatory
/// milliseconds decoding yields for the present field.
pub open spec fn spec_deserialize(f: Option<FieldValue>) -> Result<Option<Duration>, CodecError> {
    match f {
        Some(fv) => match spec_parse_bounded(fv) {
            Ok(v) => Ok(Some(Duration::spec_from_millis(v))),
            Err(e) => Err(e),
        },
        None => Ok(None),
    }
}

/// Encodes an optional duration as whole milliseconds: a present value
/// goes through the mandatory milliseconds encoding, an absent one
/// yields `None`, the signal to omit the field.
pub fn serialize(opt_duration: &Option<Duration>) -> (r: Result<Option<u64>, CodecError>)
    ensures
        r == spec_serialize(*opt_duration),
{
    match opt_duration {
        Some(duration) => match ms::serialize(duration) {
            Ok(v) => Ok(Some(v)),
            Err(e) => Err(e),
        },
        None => Ok(None),
    }
}

/// Decodes an optional whole-milliseconds field: a missing field yields
/// "absent" before any integer parsing, a present one is read as in the
/// mandatory milliseconds decoding.
pub fn deserialize(field: &Option<FieldValue>) -> (r: Result<Option<Duration>, CodecError>)
    ensures
        r == spec_deserialize(*field),
{
    match field {
        Some(fv) => match parse_bounded(fv) {
            Ok(v) => Ok(Some(Duration::from_millis(v))),
            Err(e) => Err(e),
        },
        None => Ok(None),
    }
}

/// Absence is preserved: a missing field decodes to "absent" without
/// error, and an absent value encodes to an omitted field, never to
/// zero or to a null placeholder.
pub proof fn lemma_absence_preserved()
    ensures
        spec_deserialize(None::<FieldValue>) == Ok::<Option<Duration>, CodecError>(
            None::<Duration>,
        ),
        spec_serialize(None::<Duration>) == Ok::<Option<u64>, CodecError>(None::<u64>),
{
}

/// Round trip: a present milliseconds field holding a value in the safe
/// range decodes to a present duration that encodes back to the same
/// present value.
pub proof fn lemma_round_trip(m: u64)
    requires
        in_safe_range(m as int),
    ensures
        spec_deserialize(Some(FieldValue::Integer(m as i128))) matches Ok(od) && spec_serialize(od)
            == Ok::<Option<u64>, CodecError>(Some(m)),
{
    Duration::lemma_from_millis_exact(m);
}

} // verus!
