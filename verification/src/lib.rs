//! Protocol decoder for the TT21100 multi-touch touchscreen controller.
//!
//! The controller speaks a length-prefixed wire protocol over a two-wire bus:
//! every frame opens with a little-endian 16-bit byte count (which counts the
//! prefix itself), and the count alone decides the frame's shape — a bare
//! 2-byte sentinel when no event is queued, a touch frame of 7, 17 or 27
//! bytes, or a 14-byte button frame. This crate holds the layout definitions,
//! the length classifier, the bitfield decoder and the session state machine;
//! the bus transport and the interrupt pin stay outside, behind whatever
//! blocking or asynchronous adapter the caller prefers.

pub mod error;
pub mod event;
pub mod session;
pub mod wire;

pub use error::Error;
pub use event::Event;
pub use session::TT21100;
pub use wire::{ButtonRecord, TouchRecord, TouchReport};

use vstd::prelude::*;

verus! {

/// Combine the two bytes of a little-endian 16-bit value.
pub open spec fn spec_u16_le(lo: u8, hi: u8) -> u16 {
    (lo as u16) | ((hi as u16) << 8)
}

/// Low byte of a 16-bit value, as it stands first on the wire.
pub open spec fn spec_u16_lo(v: u16) -> u8 {
    (v & 0xff) as u8
}

/// High byte of a 16-bit value, as it stands second on the wire.
pub open spec fn spec_u16_hi(v: u16) -> u8 {
    (v >> 8) as u8
}

/// Read a little-endian 16-bit value out of its two wire bytes.
pub fn u16_from_le(lo: u8, hi: u8) -> (v: u16)
    ensures
        v == spec_u16_le(lo, hi),
{
    (lo as u16) | ((hi as u16) << 8)
}

/// Splitting a combined 16-bit value gives back exactly the two bytes it
/// was read from.
pub proof fn lemma_u16_le_round_trip(lo: u8, hi: u8)
    ensures
        spec_u16_lo(spec_u16_le(lo, hi)) == lo,
        spec_u16_hi(spec_u16_le(lo, hi)) == hi,
{
    assert(((((lo as u16) | ((hi as u16) << 8)) & 0xff) as u8) == lo) by (bit_vector);
    assert(((((lo as u16) | ((hi as u16) << 8)) >> 8) as u8) == hi) by (bit_vector);
}

} // verus!
