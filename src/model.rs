//! The mathematical model of serial numbers: every operation of [`crate::Serial`]
//! is specified by one of these functions over the raw 16-bit value.

use core::cmp::Ordering;

use vstd::prelude::*;

verus! {

/// Raw value reserved for the sentinel, which stands for "no serial number".
pub const NAN_RAW: u16 = 65535;

/// Largest raw value of an ordinary serial number; increasing it wraps to zero.
pub const MAX_RAW: u16 = 65534;

/// Half of the cycle of ordinary values, rounded down: two numbers further apart
/// than this compare the other way round.
pub const WINDOW: u16 = 32767;

/// Whether a raw value is the sentinel.
pub open spec fn is_sentinel(v: int) -> bool {
    v == NAN_RAW
}

/// The raw value after one increase: the sentinel stays, the maximum wraps to zero.
pub open spec fn next_value(v: int) -> int {
    if is_sentinel(v) {
        v
    } else if v < MAX_RAW {
        v + 1
    } else {
        0
    }
}

/// Whether `a` comes strictly before `b` in the circular order of ordinary values.
///
/// Within the window the raw values compare as usual; further apart, the lower raw
/// value is taken to have wrapped around and so to come later.
pub open spec fn precedes_value(a: int, b: int) -> bool {
    &&& !is_sentinel(a)
    &&& !is_sentinel(b)
    &&& ((b > a && b - a <= WINDOW) || (a > b && a - b > WINDOW))
}

/// The partial circular order: no relation where the sentinel takes part.
pub open spec fn partial_cmp_value(a: int, b: int) -> Option<Ordering> {
    if is_sentinel(a) || is_sentinel(b) {
        None
    } else if a == b {
        Some(Ordering::Equal)
    } else if precedes_value(a, b) {
        Some(Ordering::Less)
    } else {
        Some(Ordering::Greater)
    }
}

/// The total order: the sentinel below every ordinary value and equal to itself,
/// the circular order between ordinary values.
pub open spec fn total_cmp_value(a: int, b: int) -> Ordering {
    if is_sentinel(a) && is_sentinel(b) {
        Ordering::Equal
    } else if is_sentinel(a) {
        Ordering::Less
    } else if is_sentinel(b) {
        Ordering::Greater
    } else if a == b {
        Ordering::Equal
    } else if precedes_value(a, b) {
        Ordering::Less
    } else {
        Ordering::Greater
    }
}

/// The circular minimum: the sentinel never wins, otherwise the preceding value.
pub open spec fn min_value(a: int, b: int) -> int {
    if is_sentinel(a) {
        b
    } else if is_sentinel(b) || precedes_value(a, b) {
        a
    } else {
        b
    }
}

/// The circular maximum: the sentinel never wins, otherwise the succeeding value.
pub open spec fn max_value(a: int, b: int) -> int {
    if is_sentinel(a) {
        b
    } else if is_sentinel(b) || precedes_value(b, a) {
        a
    } else {
        b
    }
}

/// Distance with wraparound: the number of increases on the shorter way round the
/// cycle of ordinary values. With one sentinel it is the window, with two it is zero.
pub open spec fn dist_value(a: int, b: int) -> int {
    if is_sentinel(a) && is_sentinel(b) {
        0
    } else if is_sentinel(a) || is_sentinel(b) {
        WINDOW as int
    } else {
        let d = if a >= b { a - b } else { b - a };
        if d <= WINDOW {
            d
        } else {
            NAN_RAW - d
        }
    }
}

/// Signed distance: negative where `a` precedes `b`, positive otherwise.
pub open spec fn diff_value(a: int, b: int) -> int {
    if precedes_value(a, b) {
        -dist_value(a, b)
    } else {
        dist_value(a, b)
    }
}

/// Addition with wraparound on the cycle of `65535` ordinary values; the sentinel
/// absorbs.
pub open spec fn add_value(v: int, n: int) -> int {
    if is_sentinel(v) {
        v
    } else {
        (v + n) % (NAN_RAW as int)
    }
}

/// The raw value after `n` increases.
pub open spec fn increase_times(v: int, n: nat) -> int
    decreases n,
{
    if n == 0 {
        v
    } else {
        next_value(increase_times(v, (n - 1) as nat))
    }
}

} // verus!
