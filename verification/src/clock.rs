//! Whole seconds out of millisecond counts.
//!
//! The provider reports every span of time in milliseconds, as a signed
//! 64-bit count. The front-end shows and stores whole seconds in unsigned
//! fields; a count that does not fit such a field keeps its low bits.

use vstd::prelude::*;

verus! {

/// Whole seconds contained in a span of `millis` milliseconds, rounded
/// towards zero.
pub open spec fn whole_seconds(millis: int) -> int {
    if millis >= 0 {
        millis / 1000
    } else {
        -((-millis) / 1000)
    }
}

/// The whole seconds of `millis` as stored in an unsigned 64-bit field: the
/// count itself where it is not negative, and its two's complement
/// otherwise.
pub open spec fn seconds_u64(millis: i64) -> u64 {
    let secs = whole_seconds(millis as int);
    if secs >= 0 {
        secs as u64
    } else {
        (secs + 0x1_0000_0000_0000_0000) as u64
    }
}

/// The whole seconds of `millis` as stored in an unsigned 32-bit field: the
/// low 32 bits of the count.
pub open spec fn seconds_u32(millis: i64) -> u32 {
    (whole_seconds(millis as int) % 0x1_0000_0000) as u32
}

/// A span that is not negative has as many whole seconds as its
/// milliseconds divided by a thousand, rounded down; the 64-bit field holds
/// exactly that, and the 32-bit field does too as long as the count fits it.
pub proof fn lemma_seconds_round_down(millis: i64)
    requires
        millis >= 0,
    ensures
        whole_seconds(millis as int) == millis as int / 1000,
        1000 * whole_seconds(millis as int) <= millis < 1000 * whole_seconds(millis as int) + 1000,
        seconds_u64(millis) == millis as int / 1000,
        millis as int / 1000 <= u32::MAX ==> seconds_u32(millis) == millis as int / 1000,
{
}

/// The whole seconds of a millisecond count.
pub fn num_seconds(millis: i64) -> (secs: i64)
    ensures
        secs == whole_seconds(millis as int),
{
    millis / 1000
}

/// The whole seconds of a millisecond count, for an unsigned 64-bit field.
pub fn elapsed_u64(millis: i64) -> (secs: u64)
    ensures
        secs == seconds_u64(millis),
{
    let whole: i64 = num_seconds(millis);
    if whole >= 0 {
        whole as u64
    } else {
        let below: u64 = (-(whole + 1)) as u64;
        u64::MAX - below
    }
}

/// The whole seconds of a millisecond count, for an unsigned 32-bit field.
pub fn elapsed_u32(millis: i64) -> (secs: u32)
    ensures
        secs == seconds_u32(millis),
{
    let wide: u64 = elapsed_u64(millis);
    let low: u64 = wide % 0x1_0000_0000;
    low as u32
}

} // verus!
