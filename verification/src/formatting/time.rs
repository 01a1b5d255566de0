//! Time and duration formatting utilities.

use vstd::prelude::*;
use vstd::string::StringExecFns;
use crate::formatting::digits::{push_decimal, push_two_decimals, spec_decimal, spec_two_decimals};

verus! {

/// Microseconds per second.
pub const US_PER_SEC: u64 = 1_000_000;

/// Microseconds per millisecond.
pub const US_PER_MS: u64 = 1_000;

/// The display string for a duration given in whole seconds: hours,
/// minutes and seconds, with leading units omitted while they are zero.
pub open spec fn spec_format_duration(s: nat) -> Seq<char> {
    let hours = s / 3600;
    let minutes = (s % 3600) / 60;
    let seconds = s % 60;
    if hours > 0 {
        spec_decimal(hours) + "h "@ + spec_decimal(minutes) + "m "@ + spec_decimal(seconds) + "s"@
    } else if minutes > 0 {
        spec_decimal(minutes) + "m "@ + spec_decimal(seconds) + "s"@
    } else {
        spec_decimal(seconds) + "s"@
    }
}

/// Format a duration given in whole seconds into a human-readable string.
///
/// Shows hours, minutes and seconds, dropping the leading units while they
/// are zero: `2h 30m 45s`, `5m 12s`, or `42s`.
pub fn format_duration(secs: u64) -> (r: String)
    ensures
        r@ == spec_format_duration(secs as nat),
{
    let hours = secs / 3600;
    let minutes = (secs % 3600) / 60;
    let seconds = secs % 60;
    let mut s = String::new();
    if hours > 0 {
        push_decimal(&mut s, hours);
        s.append("h ");
        push_decimal(&mut s, minutes);
        s.append("m ");
        push_decimal(&mut s, seconds);
        s.append("s");
    } else if minutes > 0 {
        push_decimal(&mut s, minutes);
        s.append("m ");
        push_decimal(&mut s, seconds);
        s.append("s");
    } else {
        push_decimal(&mut s, seconds);
        s.append("s");
    }
    proof {
        assert(s@ =~= spec_format_duration(secs as nat));
    }
    s
}

/// The display string for a latency given in microseconds: seconds or
/// milliseconds with two decimal places from a millisecond upward, the raw
/// microsecond count below it.
pub open spec fn spec_format_latency(us: nat) -> Seq<char> {
    if us >= US_PER_SEC {
        spec_two_decimals(us, US_PER_SEC as nat) + "s"@
    } else if us >= US_PER_MS {
        spec_two_decimals(us, US_PER_MS as nat) + "ms"@
    } else {
        spec_decimal(us) + "μs"@
    }
}

/// Format a latency from microseconds to a human-readable string.
///
/// Uses `s` at or above one second, `ms` at or above one millisecond, and
/// the raw microsecond count with a `μs` unit below that.
pub fn format_latency(us: u64) -> (r: String)
    ensures
        r@ == spec_format_latency(us as nat),
{
    let mut s = String::new();
    if us >= US_PER_SEC {
        push_two_decimals(&mut s, us, US_PER_SEC);
        s.append("s");
    } else if us >= US_PER_MS {
        push_two_decimals(&mut s, us, US_PER_MS);
        s.append("ms");
    } else {
        push_decimal(&mut s, us);
        s.append("μs");
    }
    proof {
        assert(s@ =~= spec_format_latency(us as nat));
    }
    s
}

} // verus!
