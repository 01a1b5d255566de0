//! Byte size formatting with binary units.

use vstd::prelude::*;
use vstd::string::StringExecFns;
use crate::formatting::digits::{push_decimal, push_two_decimals, spec_decimal, spec_two_decimals};

verus! {

/// One kilobyte: 1024 bytes.
pub const KB: u64 = 1024;

/// One megabyte: 1024 kilobytes.
pub const MB: u64 = 1024 * 1024;

/// One gigabyte: 1024 megabytes.
pub const GB: u64 = 1024 * 1024 * 1024;

/// The display string for a byte count: two decimal places and a
/// `KB`/`MB`/`GB` unit from a kilobyte upward, the raw count with a `B`
/// unit below it.
pub open spec fn spec_format_bytes(n: nat) -> Seq<char> {
    if n >= GB {
        spec_two_decimals(n, GB as nat) + " GB"@
    } else if n >= MB {
        spec_two_decimals(n, MB as nat) + " MB"@
    } else if n >= KB {
        spec_two_decimals(n, KB as nat) + " KB"@
    } else {
        spec_decimal(n) + " B"@
    }
}

/// Format memory size from bytes to a human-readable string.
///
/// Converts byte counts into compact, human-readable strings using binary
/// units (powers of 1024), with two decimal places for `KB`/`MB`/`GB` and
/// the raw byte count below 1024.
pub fn format_bytes(bytes: u64) -> (r: String)
    ensures
        r@ == spec_format_bytes(bytes as nat),
{
    let mut s = String::new();
    if bytes >= GB {
        push_two_decimals(&mut s, bytes, GB);
        s.append(" GB");
    } else if bytes >= MB {
        push_two_decimals(&mut s, bytes, MB);
        s.append(" MB");
    } else if bytes >= KB {
        push_two_decimals(&mut s, bytes, KB);
        s.append(" KB");
    } else {
        push_decimal(&mut s, bytes);
        s.append(" B");
    }
    proof {
        assert(s@ =~= spec_format_bytes(bytes as nat));
    }
    s
}

} // verus!
