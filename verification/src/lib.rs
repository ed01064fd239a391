//! Encoding and decoding of non-negative durations as bounded integer
//! document fields, in four conventions: required or optional, seconds
//! or milliseconds. A value is accepted only if it is exactly
//! representable as a double-precision number, i.e. at most 2^53 - 1;
//! the bound checks delegate to `js_int::UInt`.

pub mod bounds;
pub mod codec;
pub mod duration;
pub mod ms;
pub mod opt_ms;
pub mod opt_secs;
pub mod secs;
