//! Durations on their way to and from the native library.
//!
//! The native library takes and gives times as whole milliseconds in 32 bits.
//! A duration that does not fit is rejected, never cut short.

use crate::errors::ReturnCode;
use std::time::Duration;
use vstd::prelude::*;

verus! {

/// The default timeout of the native library, in milliseconds.
pub const PHIDGET_TIMEOUT_DEFAULT: u32 = 1000;

/// The timeout that waits for ever, as the native library takes it.
pub const PHIDGET_TIMEOUT_INFINITE: u32 = 0;

/// The number of whole milliseconds in a duration, as `Duration::as_millis`
/// gives it.
pub uninterp spec fn duration_millis(d: Duration) -> u128;

/// Wraps `Duration::as_millis`: the whole milliseconds that `d` holds.
#[verifier::external_body]
fn as_millis(d: &Duration) -> (ms: u128)
    ensures
        ms == duration_millis(*d),
{
    d.as_millis()
}

/// Wraps `Duration::from_millis`: the duration of `ms` milliseconds.
#[verifier::external_body]
fn from_millis(ms: u64) -> (d: Duration)
    ensures
        duration_millis(d) == ms,
{
    Duration::from_millis(ms)
}

/// What a count of milliseconds is to the native library: itself where it
/// fits in 32 bits, and an invalid argument where it does not.
pub open spec fn spec_native_millis(ms: u128) -> Result<u32, ReturnCode> {
    if ms <= u32::MAX {
        Ok(ms as u32)
    } else {
        Err(ReturnCode::InvalidArg)
    }
}

/// Fits a count of milliseconds into the native 32-bit parameter, or rejects
/// it with `InvalidArg` where it does not fit.
pub fn native_millis(ms: u128) -> (r: Result<u32, ReturnCode>)
    ensures
        r == spec_native_millis(ms),
        r matches Ok(n) ==> n == ms,
        r is Err <==> ms > u32::MAX,
{
    if ms <= 0xffff_ffffu128 {
        Ok(ms as u32)
    } else {
        Err(ReturnCode::InvalidArg)
    }
}

/// Converts a duration into the native 32-bit count of milliseconds, or
/// rejects it with `InvalidArg` where the count does not fit.
pub fn timeout_millis(to: Duration) -> (r: Result<u32, ReturnCode>)
    ensures
        r == spec_native_millis(duration_millis(to)),
{
    native_millis(as_millis(&to))
}

/// The duration of `ms` milliseconds.
pub fn interval(ms: u64) -> (d: Duration)
    ensures
        duration_millis(d) == ms,
{
    from_millis(ms)
}

/// The default timeout for opening a channel.
pub fn timeout_default() -> (d: Duration)
    ensures
        duration_millis(d) == PHIDGET_TIMEOUT_DEFAULT,
        spec_native_millis(duration_millis(d)) == Ok::<u32, ReturnCode>(PHIDGET_TIMEOUT_DEFAULT),
{
    from_millis(PHIDGET_TIMEOUT_DEFAULT as u64)
}

/// The timeout that waits for ever.
pub fn timeout_infinite() -> (d: Duration)
    ensures
        duration_millis(d) == PHIDGET_TIMEOUT_INFINITE,
        spec_native_millis(duration_millis(d)) == Ok::<u32, ReturnCode>(PHIDGET_TIMEOUT_INFINITE),
{
    from_millis(PHIDGET_TIMEOUT_INFINITE as u64)
}

/// Reads a reply that carries a time in milliseconds: the failure that `code`
/// names, or else the duration of that many milliseconds.
pub fn interval_reply(code: u32, ms: u32) -> (r: Result<Duration, ReturnCode>)
    ensures
        match ReturnCode::spec_result(code) {
            Err(e) => r == Err::<Duration, ReturnCode>(e),
            Ok(_) => r is Ok && duration_millis(r->Ok_0) == ms,
        },
{
    match ReturnCode::result(code) {
        Err(e) => Err(e),
        Ok(_) => Ok(interval(ms as u64)),
    }
}

} // verus!
