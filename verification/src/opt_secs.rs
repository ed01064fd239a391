//! Conversion of an absent-or-present duration to and from a numeric
//! field holding whole seconds. An absent value is a third state,
//! distinct from a present zero: it encodes to an omitted field, and a
//! missing field decodes to it without error.

use vstd::prelude::*;

use crate::bounds::in_safe_range;
use crate::codec::{spec_parse_bounded, parse_bounded, CodecError, FieldValue};
use crate::duration::Duration;
use crate::secs;

verus! {

/// What encoding an optional duration as whole seconds yields: `None`
/// for an absent value (the field is omitted), otherwise exactly what
/// the mandatory seconds encoding yields for the present value.
pub open spec fn spec_serialize(od: Option<Duration>) -> Result<Option<u64>, CodecError> {
    match od {
        Some(d) => match secs::spec_serialize(d) {
            Ok(v) => Ok(Some(v)),
            Err(e) => Err(e),
        },
        None => Ok(None),
    }
}

/// What decoding an optional whole-seconds field yields: "absent" when
/// the field is missing, otherwise exactly what the mandatory seconds
/// decoding yields for the present field.
pub open spec fn spec_deserialize(f: Option<FieldValue>) -> Result<Option<Duration>, CodecError> {
    match f {
        Some(fv) => match spec_parse_bounded(fv) {
            Ok(v) => Ok(Some(Duration::spec_from_secs(v))),
            Err(e) => Err(e),
        },
        None => Ok(None),
    }
}

/// Encodes an optional duration as whole seconds: a present value goes
/// through the mandatory seconds encoding, an absent one yields `None`,
/// the signal to omit the field.
pub fn serialize(opt_duration: &Option<Duration>) -> (r: Result<Option<u64>, CodecError>)
    ensures
        r == spec_serialize(*opt_duration),
{
    match opt_duration {
        Some(duration) => match secs::serialize(duration) {
            Ok(v) => Ok(Some(v)),
            Err(e) => Err(e),
        },
        None => Ok(None),
    }
}

/// Decodes an optional whole-seconds field: a missing field yields
/// "absent" before any integer parsing, a present one is read as in the
/// mandatory seconds decoding.
pub fn deserialize(field: &Option<FieldValue>) -> (r: Result<Option<Duration>, CodecError>)
    ensures
        r == spec_deserialize(*field),
{
    match field {
        Some(fv) => match parse_bounded(fv) {
            Ok(v) => Ok(Some(Duration::from_secs(v))),
            Err(e) => Err(e),
        },
        None => Ok(None),
    }
}

/// Absence is preserved: a missing field decodes to "absent" without
/// error, and an absent value encodes to an omitted field, never to
/// zero or to a null placeholder.
pub proof fn lemma_absence_preserved()
    ensures
        spec_deserialize(None::<FieldValue>) == Ok::<Option<Duration>, CodecError>(
            None::<Duration>,
        ),
        spec_serialize(None::<Duration>) == Ok::<Option<u64>, CodecError>(None::<u64>),
{
}

/// Round trip: a present seconds field holding a value in the safe
/// range decodes to a present duration that encodes back to the same
/// present value.
pub proof fn lemma_round_trip(s: u64)
    requires
        in_safe_range(s as int),
    ensures
        spec_deserialize(Some(FieldValue::Integer(s as i128))) matches Ok(od) && spec_serialize(od)
            == Ok::<Option<u64>, CodecError>(Some(s)),
{
}

} // verus!
