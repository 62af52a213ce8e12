use std::time::{Duration, SystemTime, SystemTimeError};
use vstd::prelude::*;

verus! {

/// `std::time::SystemTime`, held opaque.
#[verifier::external_type_specification]
#[verifier::external_body]
pub struct ExSystemTime(SystemTime);

/// `std::time::SystemTimeError`, held opaque.
#[verifier::external_type_specification]
#[verifier::external_body]
pub struct ExSystemTimeError(SystemTimeError);

/// `SystemTime::now`: the current wall-clock time. Nothing is stated of it: it depends
/// on the moment of the call.
#[verifier::external_body]
fn system_time_now() -> SystemTime {
    SystemTime::now()
}

/// `SystemTime::duration_since(UNIX_EPOCH)`: how long after the epoch `t` lies, or an
/// error when `t` lies before it. Nothing is stated of which comes back: the time is
/// opaque here.
#[verifier::external_body]
fn since_unix_epoch(t: &SystemTime) -> Result<Duration, SystemTimeError> {
    t.duration_since(std::time::UNIX_EPOCH)
}

/// `Duration::as_nanos`: the whole number of nanoseconds in `d`. Nothing is stated of
/// it: a duration is opaque here.
#[verifier::external_body]
fn duration_as_nanos(d: &Duration) -> u128 {
    d.as_nanos()
}

/// The number drawn from a clock reading of `nanos` nanoseconds: the low 32 bits of
/// `nanos` xor'ed with `nanos` shifted right by 32.
pub open spec fn fold_nanos_spec(nanos: u128) -> u32 {
    (nanos ^ (nanos >> 32u128)) as u32
}

/// Folds a nanosecond clock reading into 32 bits (see `fold_nanos_spec`).
pub fn fold_nanos(nanos: u128) -> (value: u32)
    ensures
        value == fold_nanos_spec(nanos),
{
    (nanos ^ (nanos >> 32u128)) as u32
}

/// What one clock reading gives: a reading of `nanos` nanoseconds gives its fold (see
/// `fold_nanos_spec`) when that is not zero; a reading that folds to zero, or a failed
/// reading (`None`), gives nothing, and the clock is to be read again.
pub open spec fn reading_value_spec(reading: Option<u128>) -> Option<u32> {
    match reading {
        Some(nanos) => if fold_nanos_spec(nanos) != 0 {
            Some(fold_nanos_spec(nanos))
        } else {
            None
        },
        None => None,
    }
}

/// Decides what one clock reading gives (see `reading_value_spec`).
pub fn reading_value(reading: Option<u128>) -> (value: Option<u32>)
    ensures
        value == reading_value_spec(reading),
{
    match reading {
        Some(nanos) => {
            let folded = fold_nanos(nanos);
            if folded != 0 {
                Some(folded)
            } else {
                None
            }
        },
        None => None,
    }
}

/// A number derived from the clock that is never zero: the clock is read until a reading
/// gives a number (see `reading_value`). Should none of `u64::MAX` readings give one, it
/// gives 1.
pub fn random_non_zero_u32() -> (value: u32)
    ensures
        value != 0,
{
    let mut attempts: u64 = 0;
    while attempts < u64::MAX
        decreases u64::MAX - attempts,
    {
        let now = system_time_now();
        let reading = match since_unix_epoch(&now) {
            Ok(elapsed) => Some(duration_as_nanos(&elapsed)),
            Err(_) => None,
        };
        match reading_value(reading) {
            Some(value) => {
                return value;
            },
            None => {},
        }
        attempts = attempts + 1;
    }
    1
}

} // verus!
