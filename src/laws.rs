//! Laws that relate the operations of [`crate::Serial`] to one another.

use vstd::prelude::*;

use crate::model::{
    add_value, diff_value, dist_value, increase_times, is_sentinel, next_value, precedes_value,
    MAX_RAW, NAN_RAW, WINDOW,
};
use crate::serial::Serial;

verus! {

/// Increasing an ordinary number gives a different number that it precedes; the
/// result is zero exactly when the number was the maximum, which zero succeeds.
pub proof fn lemma_increase_advances(x: Serial)
    requires
        !is_sentinel(x@ as int),
    ensures
        next_value(x@ as int) != x@,
        precedes_value(x@ as int, next_value(x@ as int)),
        (next_value(x@ as int) == 0) == (x@ == MAX_RAW),
{
}

/// Distance is symmetric, never more than the window, and zero from a number to
/// itself.
pub proof fn lemma_dist_symmetric(a: Serial, b: Serial)
    ensures
        dist_value(a@ as int, b@ as int) == dist_value(b@ as int, a@ as int),
        dist_value(a@ as int, b@ as int) <= WINDOW,
        dist_value(a@ as int, a@ as int) == 0,
{
}

/// Swapping the operands negates the difference, unless exactly one of them is the
/// sentinel: then neither precedes and both differences are the window.
pub proof fn lemma_diff_antisymmetric(a: Serial, b: Serial)
    requires
        is_sentinel(a@ as int) == is_sentinel(b@ as int),
    ensures
        diff_value(a@ as int, b@ as int) == -diff_value(b@ as int, a@ as int),
{
}

/// `n` increases of an ordinary raw value land on `(v + n) mod 65535`.
proof fn lemma_increase_times_wraps(v: int, n: nat)
    requires
        0 <= v < NAN_RAW,
    ensures
        increase_times(v, n) == (v + n) % (NAN_RAW as int),
    decreases n,
{
    if n > 0 {
        lemma_increase_times_wraps(v, (n - 1) as nat);
    }
}

/// Adding `n` to an ordinary number is the same as increasing it `n` times.
pub proof fn lemma_add_is_repeated_increase(x: Serial, n: u16)
    requires
        !is_sentinel(x@ as int),
    ensures
        add_value(x@ as int, n as int) == increase_times(x@ as int, n as nat),
{
    lemma_increase_times_wraps(x@ as int, n as nat);
}

/// Adding `65535`, one whole cycle, gives the same number back; this holds of the
/// sentinel too.
pub proof fn lemma_add_full_cycle(x: Serial)
    ensures
        add_value(x@ as int, NAN_RAW as int) == x@,
{
}

} // verus!
