//! The bound, error, truncation and round-trip behaviour of the
//! adapters on concrete values, including both edges of the safe range.

use duration_serde::bounds::MAX_SAFE_INT;
use duration_serde::codec::{CodecError, FieldValue};
use duration_serde::duration::Duration;
use duration_serde::{ms, opt_ms, opt_secs, secs};

#[test]
fn round_trip_seconds() {
    let decoded = secs::deserialize(&FieldValue::Integer(12345)).unwrap();
    assert_eq!(secs::serialize(&decoded), Ok(12345));
}

#[test]
fn round_trip_milliseconds() {
    let decoded = ms::deserialize(&FieldValue::Integer(12345)).unwrap();
    assert_eq!(ms::serialize(&decoded), Ok(12345));
}

#[test]
fn round_trip_at_the_safe_ceiling() {
    let decoded = secs::deserialize(&FieldValue::Integer(MAX_SAFE_INT as i128)).unwrap();
    assert_eq!(secs::serialize(&decoded), Ok(MAX_SAFE_INT));
    let decoded = ms::deserialize(&FieldValue::Integer(MAX_SAFE_INT as i128)).unwrap();
    assert_eq!(ms::serialize(&decoded), Ok(MAX_SAFE_INT));
}

#[test]
fn round_trip_optional_present() {
    let decoded = opt_secs::deserialize(&Some(FieldValue::Integer(9))).unwrap();
    assert_eq!(opt_secs::serialize(&decoded), Ok(Some(9)));
    let decoded = opt_ms::deserialize(&Some(FieldValue::Integer(9))).unwrap();
    assert_eq!(opt_ms::serialize(&decoded), Ok(Some(9)));
}

#[test]
fn encode_rejects_seconds_above_the_ceiling() {
    let too_long = Duration::from_secs(MAX_SAFE_INT + 1);
    assert_eq!(secs::serialize(&too_long), Err(CodecError::RangeOverflow));
    assert_eq!(
        opt_secs::serialize(&Some(too_long)),
        Err(CodecError::RangeOverflow),
    );
}

#[test]
fn encode_rejects_milliseconds_above_the_ceiling() {
    // Just over 2^53 - 1 milliseconds, while the second count stays
    // far below the ceiling: the two units are not interchangeable.
    let too_long = Duration::from_secs(MAX_SAFE_INT / 1000 + 1);
    assert_eq!(ms::serialize(&too_long), Err(CodecError::RangeOverflow));
    assert_eq!(
        opt_ms::serialize(&Some(too_long)),
        Err(CodecError::RangeOverflow),
    );
    assert_eq!(secs::serialize(&too_long), Ok(MAX_SAFE_INT / 1000 + 1));
}

#[test]
fn encode_accepts_the_ceiling_itself() {
    assert_eq!(
        secs::serialize(&Duration::from_secs(MAX_SAFE_INT)),
        Ok(MAX_SAFE_INT),
    );
    assert_eq!(
        ms::serialize(&Duration::from_millis(MAX_SAFE_INT)),
        Ok(MAX_SAFE_INT),
    );
}

#[test]
fn decode_rejects_a_negative_number() {
    assert_eq!(
        secs::deserialize(&FieldValue::Integer(-1)),
        Err(CodecError::InvalidInteger),
    );
    assert_eq!(
        ms::deserialize(&FieldValue::Integer(-1)),
        Err(CodecError::InvalidInteger),
    );
    assert_eq!(
        opt_secs::deserialize(&Some(FieldValue::Integer(-1))),
        Err(CodecError::InvalidInteger),
    );
    assert_eq!(
        opt_ms::deserialize(&Some(FieldValue::Integer(-1))),
        Err(CodecError::InvalidInteger),
    );
}

#[test]
fn decode_rejects_a_non_integer() {
    assert_eq!(
        secs::deserialize(&FieldValue::NonInteger),
        Err(CodecError::InvalidInteger),
    );
    assert_eq!(
        ms::deserialize(&FieldValue::NonInteger),
        Err(CodecError::InvalidInteger),
    );
    assert_eq!(
        opt_secs::deserialize(&Some(FieldValue::NonInteger)),
        Err(CodecError::InvalidInteger),
    );
    assert_eq!(
        opt_ms::deserialize(&Some(FieldValue::NonInteger)),
        Err(CodecError::InvalidInteger),
    );
}

#[test]
fn decode_rejects_an_integer_above_the_ceiling() {
    let above = MAX_SAFE_INT as i128 + 1;
    assert_eq!(
        secs::deserialize(&FieldValue::Integer(above)),
        Err(CodecError::InvalidInteger),
    );
    assert_eq!(
        ms::deserialize(&FieldValue::Integer(above)),
        Err(CodecError::InvalidInteger),
    );
}

#[test]
fn unit_distinction() {
    let eight = Duration::from_secs(8);
    assert_eq!(ms::serialize(&eight), Ok(8000));
    assert_eq!(secs::serialize(&eight), Ok(8));
    assert_eq!(secs::serialize(&Duration::from_secs(3)), Ok(3));
}

#[test]
fn sub_second_remainder_is_truncated_not_rounded() {
    assert_eq!(secs::serialize(&Duration::from_millis(7500)), Ok(7));
    assert_eq!(secs::serialize(&Duration::from_millis(999)), Ok(0));
    assert_eq!(secs::serialize(&Duration::new(3, 999_999_999)), Ok(3));
}

#[test]
fn sub_millisecond_remainder_is_truncated_not_rounded() {
    assert_eq!(ms::serialize(&Duration::new(0, 1_999_999)), Ok(1));
    assert_eq!(ms::serialize(&Duration::new(2, 999_999)), Ok(2000));
}

#[test]
fn present_zero_is_not_absent() {
    assert_eq!(opt_secs::serialize(&Some(Duration::from_secs(0))), Ok(Some(0)));
    assert_eq!(
        opt_ms::deserialize(&Some(FieldValue::Integer(0))),
        Ok(Some(Duration::from_millis(0))),
    );
}

#[test]
fn error_messages() {
    assert_eq!(
        CodecError::RangeOverflow.message(),
        "duration exceeds the range representable without precision loss",
    );
    assert_eq!(
        CodecError::InvalidInteger.message(),
        "expected a non-negative integer no greater than 2^53 - 1",
    );
}
