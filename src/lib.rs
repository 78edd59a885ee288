//! A two-byte serial number with wraparound, a reserved "no value" sentinel and
//! circular comparison in the style of RFC 1982.

pub mod laws;
pub mod model;
mod serial;

pub use serial::{lemma_wire_round_trip, Serial};
