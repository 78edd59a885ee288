//! The serial number type.

use vstd::prelude::*;

use core::cmp::Ordering;

use crate::model::{
    add_value, diff_value, dist_value, is_sentinel, max_value, min_value, next_value,
    partial_cmp_value, precedes_value, total_cmp_value, MAX_RAW, NAN_RAW, WINDOW,
};

verus! {

/// Two-byte serial number with wraparound.
///
/// Its value is opaque: serial numbers are compared and combined, and the raw
/// counter is only handed out as the 16-bit wire form (`u16::from`).
/// The raw value `65535` is reserved for [`Serial::nan`].
///
/// Two orders are offered. [`Serial::partial_cmp`] and the predicates built on it
/// leave [`Serial::nan`] unordered, so that "no number" is never taken for
/// "earliest". [`Serial::compare`] is total, for sort and map keys: there
/// [`Serial::nan`] comes before every other number.
#[derive(Debug, Clone, Copy, PartialEq, Eq, Hash, Structural)]
pub struct Serial(u16);

impl Serial {
    /// The special value representing "no serial number".
    ///
    /// By convention this value cannot be increased or added to.
    pub fn nan() -> (r: Serial)
        ensures
            r@ == NAN_RAW,
    {
        Serial(NAN_RAW)
    }

    /// The raw 16-bit value of this serial number.
    pub closed spec fn view(&self) -> u16 {
        self.0
    }

    /// The serial number whose 16-bit wire form is `v`.
    pub closed spec fn spec_from_bits(v: u16) -> Serial {
        Serial(v)
    }

    /// The serial number after adding `rhs` with wraparound.
    pub closed spec fn spec_add(self, rhs: u16) -> Serial {
        Serial(add_value(self.0 as int, rhs as int) as u16)
    }

    /// Returns `true` if this number is [`Serial::nan`].
    pub fn is_nan(self) -> (r: bool)
        ensures
            r == is_sentinel(self@ as int),
    {
        self.0 == NAN_RAW
    }

    /// Increases `self` with wraparound; [`Serial::nan`] stays as it is.
    pub fn increase(&mut self)
        ensures
            final(self)@ == next_value(old(self)@ as int),
            is_sentinel(old(self)@ as int) ==> *final(self) == *old(self),
    {
        if self.is_nan() {
            return;
        }
        if self.0 < MAX_RAW {
            self.0 = self.0 + 1;
        } else {
            self.0 = 0;
        }
    }

    /// Increases `self` with wraparound, and returns a copy of the new value.
    pub fn increase_get(&mut self) -> (r: Self)
        ensures
            final(self)@ == next_value(old(self)@ as int),
            r == *final(self),
    {
        self.increase();
        *self
    }

    /// Returns a copy of `self`, and increases `self` with wraparound.
    pub fn get_increase(&mut self) -> (r: Self)
        ensures
            final(self)@ == next_value(old(self)@ as int),
            r == *old(self),
    {
        let num = *self;
        self.increase();
        num
    }

    /// Distance with wraparound, at most `32767`.
    ///
    /// If one of the numbers is [`Serial::nan`], the maximum distance `32767` is
    /// returned; if both are, the distance is `0`.
    pub fn dist(self, other: Self) -> (r: u16)
        ensures
            r == dist_value(self@ as int, other@ as int),
            r <= WINDOW,
    {
        if self.is_nan() && other.is_nan() {
            return 0;
        }
        if self.is_nan() || other.is_nan() {
            return WINDOW;
        }
        if self.0 == other.0 {
            return 0;
        }
        let min = self.min(other);
        let max = self.max(other);
        if min.0 < max.0 {
            // the predecessor has the lower counter: count up from min to max
            max.0 - min.0
        } else {
            // the predecessor has the higher counter: count up from min to MAX_RAW,
            // wrap around to 0, then count up to max
            MAX_RAW - min.0 + max.0 + 1
        }
    }

    /// Difference with wraparound: negative if `self` precedes `other`, otherwise
    /// positive or zero, and as large as [`Serial::dist`].
    ///
    /// If one of the numbers is [`Serial::nan`], nothing precedes, so the result is
    /// `32767`; if both are, it is `0`.
    pub fn diff(self, other: Self) -> (r: i16)
        ensures
            r == diff_value(self@ as int, other@ as int),
    {
        let dist = self.dist(other);
        if self.precedes(other) {
            -(dist as i16)
        } else {
            dist as i16
        }
    }

    /// Compares and returns the smaller of two numbers, the predecessor of the other.
    ///
    /// If one number is [`Serial::nan`], the other is returned.
    pub fn min(self, other: Self) -> (r: Self)
        ensures
            r@ == min_value(self@ as int, other@ as int),
    {
        match self.partial_cmp(other) {
            Some(Ordering::Less) => self,
            Some(_) => other,
            None if self.is_nan() => other,
            None => self,
        }
    }

    /// Compares and returns the larger of two numbers, the successor of the other.
    ///
    /// If one number is [`Serial::nan`], the other is returned.
    pub fn max(self, other: Self) -> (r: Self)
        ensures
            r@ == max_value(self@ as int, other@ as int),
    {
        match self.partial_cmp(other) {
            Some(Ordering::Greater) => self,
            Some(_) => other,
            None if self.is_nan() => other,
            None => self,
        }
    }

    /// Partial comparison with wraparound, after RFC 1982.
    ///
    /// Returns `None` if one of the values is [`Serial::nan`].
    pub fn partial_cmp(self, other: Self) -> (r: Option<Ordering>)
        ensures
            r == partial_cmp_value(self@ as int, other@ as int),
    {
        if self.is_nan() || other.is_nan() {
            return None;
        }
        if self.0 == other.0 {
            return Some(Ordering::Equal);
        }
        let a = self.0 as i32;
        let b = other.0 as i32;
        let w = WINDOW as i32;
        // a < b if either:
        //  - b has the greater number and is within the window
        //  - a has the greater number and is outside the window
        if (b > a && b - a <= w) || (a > b && a - b > w) {
            Some(Ordering::Less)
        } else {
            Some(Ordering::Greater)
        }
    }

    /// Total comparison, for use as a sort or map key: [`Serial::nan`] is less than
    /// every other number and equal to itself; other numbers compare as in
    /// [`Serial::partial_cmp`].
    pub fn compare(self, other: Self) -> (r: Ordering)
        ensures
            r == total_cmp_value(self@ as int, other@ as int),
    {
        match self.partial_cmp(other) {
            Some(ord) => ord,
            None if self.is_nan() && other.is_nan() => Ordering::Equal,
            None if self.is_nan() => Ordering::Less,
            None => Ordering::Greater,
        }
    }

    /// `true` if `self < other` in the circular order.
    pub fn precedes(self, other: Self) -> (r: bool)
        ensures
            r == precedes_value(self@ as int, other@ as int),
    {
        matches!(self.partial_cmp(other), Some(Ordering::Less))
    }

    /// `true` if `self <= other` in the circular order.
    pub fn precedes_or_eq(self, other: Self) -> (r: bool)
        ensures
            r == (precedes_value(self@ as int, other@ as int) || (!is_sentinel(self@ as int)
                && self == other)),
    {
        match self.partial_cmp(other) {
            Some(Ordering::Less) | Some(Ordering::Equal) => true,
            Some(Ordering::Greater) | None => false,
        }
    }

    /// `true` if `self > other` in the circular order.
    pub fn succeeds(self, other: Self) -> (r: bool)
        ensures
            r == precedes_value(other@ as int, self@ as int),
    {
        matches!(self.partial_cmp(other), Some(Ordering::Greater))
    }

    /// `true` if `self >= other` in the circular order.
    pub fn succeeds_or_eq(self, other: Self) -> (r: bool)
        ensures
            r == (precedes_value(other@ as int, self@ as int) || (!is_sentinel(self@ as int)
                && self == other)),
    {
        match self.partial_cmp(other) {
            Some(Ordering::Greater) | Some(Ordering::Equal) => true,
            Some(Ordering::Less) | None => false,
        }
    }

    /// Returns `self` if it is not [`Serial::nan`], otherwise `other`.
    pub fn or(self, other: Self) -> (r: Self)
        ensures
            r == (if is_sentinel(self@ as int) { other } else { self }),
    {
        if self.is_nan() {
            other
        } else {
            self
        }
    }

    /// Returns `self` if it is not [`Serial::nan`], otherwise `Serial::default()`.
    pub fn or_default(self) -> (r: Self)
        ensures
            r@ == (if is_sentinel(self@ as int) { 0 } else { self@ }),
    {
        if self.is_nan() {
            Self::default()
        } else {
            self
        }
    }

    /// Replaces `self` with [`Serial::nan`], returning the previous value.
    pub fn take(&mut self) -> (r: Self)
        ensures
            r == *old(self),
            final(self)@ == NAN_RAW,
    {
        let num = *self;
        *self = Self::nan();
        num
    }
}

impl Default for Serial {
    /// The ordinary number `0`, an arbitrary point of reference.
    fn default() -> (r: Self)
        ensures
            r@ == 0,
    {
        Serial(0)
    }
}

impl core::ops::Add<u16> for Serial {
    type Output = Serial;

    /// Addition with wraparound on the cycle of the `65535` ordinary numbers.
    ///
    /// Adding more than `32767` leads to a result that precedes `self`; adding
    /// `65535` gives `self` again. [`Serial::nan`] stays [`Serial::nan`].
    fn add(self, rhs: u16) -> (r: Serial)
        ensures
            r@ == add_value(self@ as int, rhs as int),
    {
        if self.is_nan() {
            return self;
        }
        let n = (self.0 as u32 + rhs as u32) % (NAN_RAW as u32);
        Serial(n as u16)
    }
}

impl vstd::std_specs::ops::AddSpecImpl<u16> for Serial {
    open spec fn obeys_add_spec() -> bool {
        true
    }

    open spec fn add_req(self, rhs: u16) -> bool {
        true
    }

    open spec fn add_spec(self, rhs: u16) -> Serial {
        self.spec_add(rhs)
    }
}

impl From<u16> for Serial {
    /// Reads a serial number from its 16-bit wire form. Every pattern is a valid
    /// serial number; `65535` is [`Serial::nan`].
    fn from(v: u16) -> (r: Serial)
        ensures
            r@ == v,
    {
        Serial(v)
    }
}

impl vstd::std_specs::convert::FromSpecImpl<u16> for Serial {
    open spec fn obeys_from_spec() -> bool {
        true
    }

    open spec fn from_spec(v: u16) -> Serial {
        Serial::spec_from_bits(v)
    }
}

impl From<Serial> for u16 {
    /// The 16-bit wire form of a serial number: its raw value, `65535` for
    /// [`Serial::nan`].
    fn from(s: Serial) -> (r: u16)
        ensures
            r == s@,
    {
        s.0
    }
}

impl vstd::std_specs::convert::FromSpecImpl<Serial> for u16 {
    open spec fn obeys_from_spec() -> bool {
        true
    }

    open spec fn from_spec(s: Serial) -> u16 {
        s@
    }
}

/// The 16-bit wire form loses nothing: reading back the wire form of a serial number
/// gives the same number, and every 16-bit pattern, `65535` included, is the wire
/// form of the number read from it.
pub proof fn lemma_wire_round_trip(x: Serial, v: u16)
    ensures
        Serial::spec_from_bits(x@) == x,
        Serial::spec_from_bits(v)@ == v,
{
}

} // verus!
