//! Large number formatting with magnitude suffixes.

use vstd::prelude::*;
use vstd::string::StringExecFns;
use crate::formatting::digits::{push_decimal, push_two_decimals, spec_decimal, spec_two_decimals};

verus! {

/// Numbers at or above this threshold use the `B` (billions) suffix.
pub const BILLION: u64 = 1_000_000_000;

/// Numbers at or above this threshold use the `M` (millions) suffix.
pub const MILLION: u64 = 1_000_000;

/// Numbers at or above this threshold use the `K` (thousands) suffix.
pub const THOUSAND: u64 = 1_000;

/// The display string for a count: two decimal places and a `K`/`M`/`B`
/// suffix from a thousand upward, the plain decimal expansion below it.
pub open spec fn spec_format_number(n: nat) -> Seq<char> {
    if n >= BILLION {
        spec_two_decimals(n, BILLION as nat) + "B"@
    } else if n >= MILLION {
        spec_two_decimals(n, MILLION as nat) + "M"@
    } else if n >= THOUSAND {
        spec_two_decimals(n, THOUSAND as nat) + "K"@
    } else {
        spec_decimal(n)
    }
}

/// Format large numbers with magnitude suffixes.
///
/// Converts large numbers into compact, human-readable strings using
/// standard suffixes: `B` for billions, `M` for millions, `K` for
/// thousands, and the raw number below one thousand.
pub fn format_number(n: u64) -> (r: String)
    ensures
        r@ == spec_format_number(n as nat),
{
    let mut s = String::new();
    if n >= BILLION {
        push_two_decimals(&mut s, n, BILLION);
        s.append("B");
    } else if n >= MILLION {
        push_two_decimals(&mut s, n, MILLION);
        s.append("M");
    } else if n >= THOUSAND {
        push_two_decimals(&mut s, n, THOUSAND);
        s.append("K");
    } else {
        push_decimal(&mut s, n);
    }
    proof {
        assert(s@ =~= spec_format_number(n as nat));
    }
    s
}

} // verus!
