//! The wall clock, read in milliseconds since the Unix epoch.
use vstd::prelude::*;
use std::time::{Duration, SystemTime, SystemTimeError, UNIX_EPOCH};

verus! {

#[verifier::external_type_specification]
#[verifier::external_body]
pub struct ExSystemTime(SystemTime);

#[verifier::external_type_specification]
#[verifier::external_body]
pub struct ExSystemTimeError(SystemTimeError);

/// `SystemTime::now`: the current time; nothing is stated of it.
#[verifier::external_body]
fn system_now() -> SystemTime {
    SystemTime::now()
}

/// `SystemTime::duration_since(UNIX_EPOCH)`: how long after the epoch `t` is, or
/// an error where it lies before; nothing is stated of which.
#[verifier::external_body]
fn since_epoch(t: &SystemTime) -> Result<Duration, SystemTimeError> {
    t.duration_since(UNIX_EPOCH)
}

/// `Duration::as_millis`: the whole milliseconds of `d`; nothing is stated of them.
#[verifier::external_body]
fn whole_millis(d: &Duration) -> u128 {
    d.as_millis()
}

/// Milliseconds as a `u64`: the low 64 bits of `ms`, or 0 where the clock could not
/// be read.
pub fn millis_to_u64(ms: Option<u128>) -> (r: u64)
    ensures
        r == match ms {
            Some(m) => m % 0x1_0000_0000_0000_0000,
            None => 0,
        },
{
    match ms {
        Some(m) => {
            let r: u64 = #[verifier::truncate] (m as u64);
            assert(r == m % 0x1_0000_0000_0000_0000) by (bit_vector)
                requires
                    r == m as u64,
            ;
            r
        },
        None => 0,
    }
}

/// The current time in milliseconds since the Unix epoch; 0 where the clock is
/// set before the epoch.
pub fn now_ms() -> u64 {
    match since_epoch(&system_now()) {
        Ok(d) => millis_to_u64(Some(whole_millis(&d))),
        Err(_) => millis_to_u64(None),
    }
}

} // verus!
