//! Points in time, counted in whole seconds since 1970-01-01T00:00:00Z.

use vstd::prelude::*;

verus! {

/// Whether `chrono` can represent the instant `secs` seconds after the Unix
/// epoch as a calendar date and time in UTC.
pub uninterp spec fn representable(secs: i64) -> bool;

/// Calls `chrono::DateTime::from_timestamp` with no sub-second part and
/// reads the seconds back from the instant it made.
///
/// Trusted: that the call accepts or refuses a number of seconds by that
/// number alone; that an instant it made counts as many seconds as it was
/// given; and that it accepts every number that fits in 32 bits unsigned.
#[verifier::external_body]
fn checked_instant(secs: i64) -> (t: Option<i64>)
    ensures
        t == (if representable(secs) {
            Some(secs)
        } else {
            None::<i64>
        }),
        0 <= secs <= 0xffff_ffff ==> t == Some(secs),
{
    rpm::chrono::DateTime::from_timestamp(secs, 0).map(|instant| instant.timestamp())
}

/// The instant that a stored number of seconds stands for: the number
/// itself where a calendar date exists for it, the Unix epoch where not.
pub open spec fn instant_or_epoch(secs: i64) -> i64 {
    if representable(secs) {
        secs
    } else {
        0
    }
}

/// The instant that was found, or the Unix epoch where none was.
pub fn instant_or_epoch_of(found: Option<i64>) -> (t: i64)
    ensures
        t == match found {
            Some(s) => s,
            None => 0,
        },
{
    match found {
        Some(s) => s,
        None => 0,
    }
}

/// Turns a stored number of seconds into an instant, falling back to the
/// Unix epoch for a number that no calendar date stands for. A number that
/// fits in 32 bits unsigned always has a calendar date, and is kept.
pub fn to_instant(secs: i64) -> (t: i64)
    ensures
        t == instant_or_epoch(secs),
        0 <= secs <= 0xffff_ffff ==> t == secs,
{
    instant_or_epoch_of(checked_instant(secs))
}

/// An unsigned 64-bit number read as a signed one: unchanged up to
/// `i64::MAX`, and `2^64` less above it.
pub open spec fn as_signed(n: u64) -> i64 {
    if n <= i64::MAX {
        n as i64
    } else {
        (n - 0x1_0000_0000_0000_0000) as i64
    }
}

/// Reads an unsigned 64-bit number as a signed one, bit for bit.
pub fn to_signed(n: u64) -> (r: i64)
    ensures
        r == as_signed(n),
{
    if n <= 0x7fff_ffff_ffff_ffff {
        n as i64
    } else {
        let above: u64 = n - 0x8000_0000_0000_0000;
        (above as i64) + i64::MIN
    }
}

} // verus!
