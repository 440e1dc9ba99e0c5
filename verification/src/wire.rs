//! Wire layout of the three record kinds.
//!
//! Everything on the wire is little-endian. Sub-byte fields pack from the
//! high bit of their byte downwards, in the order the structs list them;
//! padding bits carry no meaning, are ignored on decode, and are written as
//! zero on encode.

use crate::{lemma_u16_le_round_trip, spec_u16_hi, spec_u16_le, spec_u16_lo, u16_from_le};
use vstd::prelude::*;

verus! {

/// Prelude data for one or more touch events, 7 bytes on the wire.
///
/// Byte layout: `data_len` (bytes 0-1), `report_id` (byte 2), `time_stamp`
/// (bytes 3-4); byte 5 holds 2 padding bits, `large_object` (1 bit) and
/// `record_num` (5 bits); byte 6 holds `report_counter` (2 bits), 3 padding
/// bits and `noise_effect` (3 bits).
#[derive(Debug, Clone, Copy, PartialEq, Eq)]
pub struct TouchReport {
    /// Total length of the message this report was read from; 7, 17 or 27 on
    /// a coherent frame. A mismatch with the frame's true length is suspect
    /// but not fatal.
    pub data_len: u16,
    /// ID of the report
    pub report_id: u8,
    /// Timestamp
    pub time_stamp: u16,
    /// Whether a large object rests on the panel; a single bit
    pub large_object: u8,
    /// Number of active records; 5 bits
    pub record_num: u8,
    /// Rolling report counter; 2 bits
    pub report_counter: u8,
    /// Noise effect code; 3 bits
    pub noise_effect: u8,
}

/// The report a 7-byte buffer decodes to.
pub open spec fn spec_touch_report(b: Seq<u8>) -> TouchReport
    recommends
        b.len() == 7,
{
    TouchReport {
        data_len: spec_u16_le(b[0], b[1]),
        report_id: b[2],
        time_stamp: spec_u16_le(b[3], b[4]),
        large_object: (b[5] >> 5) & 1,
        record_num: b[5] & 0x1f,
        report_counter: (b[6] >> 6) & 3,
        noise_effect: b[6] & 7,
    }
}

/// The 7 bytes a report encodes to, with padding bits zero and every field
/// masked to its wire width.
pub open spec fn spec_touch_report_bytes(r: TouchReport) -> Seq<u8> {
    seq![
        spec_u16_lo(r.data_len),
        spec_u16_hi(r.data_len),
        r.report_id,
        spec_u16_lo(r.time_stamp),
        spec_u16_hi(r.time_stamp),
        ((r.large_object & 1) << 5) | (r.record_num & 0x1f),
        ((r.report_counter & 3) << 6) | (r.noise_effect & 7),
    ]
}

/// A 7-byte report buffer with its padding bits cleared.
pub open spec fn spec_canon_touch_report(b: Seq<u8>) -> Seq<u8>
    recommends
        b.len() == 7,
{
    b.update(5, b[5] & 0x3f).update(6, b[6] & 0xc7)
}

/// Decoding a 7-byte report buffer and re-encoding the result reproduces the
/// buffer exactly, up to the canonical zero-fill of its padding bits.
pub proof fn lemma_touch_report_round_trip(b: Seq<u8>)
    requires
        b.len() == 7,
    ensures
        spec_touch_report_bytes(spec_touch_report(b)) == spec_canon_touch_report(b),
{
    let b5 = b[5];
    let b6 = b[6];
    lemma_u16_le_round_trip(b[0], b[1]);
    lemma_u16_le_round_trip(b[3], b[4]);
    assert((((((b5 >> 5) & 1) & 1) << 5) | ((b5 & 0x1f) & 0x1f)) == (b5 & 0x3f)) by (bit_vector);
    assert((((((b6 >> 6) & 3) & 3) << 6) | ((b6 & 7) & 7)) == (b6 & 0xc7)) by (bit_vector);
    assert(spec_touch_report_bytes(spec_touch_report(b)) =~= spec_canon_touch_report(b));
}

impl TouchReport {
    /// Unpack a report from its 7 wire bytes.
    pub fn from_bytes(bytes: &[u8]) -> (r: TouchReport)
        requires
            bytes@.len() == 7,
        ensures
            r == spec_touch_report(bytes@),
    {
        TouchReport {
            data_len: u16_from_le(bytes[0], bytes[1]),
            report_id: bytes[2],
            time_stamp: u16_from_le(bytes[3], bytes[4]),
            large_object: (bytes[5] >> 5) & 1,
            record_num: bytes[5] & 0x1f,
            report_counter: (bytes[6] >> 6) & 3,
            noise_effect: bytes[6] & 7,
        }
    }

    /// Pack the report back into its 7 wire bytes, with padding bits zero.
    pub fn to_bytes(&self) -> (out: Vec<u8>)
        ensures
            out@ == spec_touch_report_bytes(*self),
    {
        let mut out: Vec<u8> = Vec::new();
        out.push((self.data_len & 0xff) as u8);
        out.push((self.data_len >> 8) as u8);
        out.push(self.report_id);
        out.push((self.time_stamp & 0xff) as u8);
        out.push((self.time_stamp >> 8) as u8);
        out.push(((self.large_object & 1) << 5) | (self.record_num & 0x1f));
        out.push(((self.report_counter & 3) << 6) | (self.noise_effect & 7));
        proof {
            assert(out@ =~= spec_touch_report_bytes(*self));
        }
        out
    }
}

/// Data for one contact point, 10 bytes on the wire.
///
/// Byte layout: byte 0 holds 5 padding bits and `touch_type` (3 bits);
/// byte 1 holds `tip` (1 bit), `event_id` (2 bits) and `touch_id` (5 bits);
/// then `x` (bytes 2-3), `y` (bytes 4-5), `pressure` (byte 6),
/// `major_axis_length` (bytes 7-8) and `orientation` (byte 9).
#[derive(Debug, Clone, Copy, PartialEq, Eq)]
pub struct TouchRecord {
    /// Touch type code; 3 bits
    pub touch_type: u8,
    /// Tip (contact) flag; a single bit
    pub tip: u8,
    /// Event phase identifier; 2 bits
    pub event_id: u8,
    /// Touch identifier, telling simultaneous contacts apart; 5 bits
    pub touch_id: u8,
    /// X coordinate
    pub x: u16,
    /// Y coordinate
    pub y: u16,
    /// Contact pressure
    pub pressure: u8,
    /// Length of the contact's major axis
    pub major_axis_length: u16,
    /// Contact orientation
    pub orientation: u8,
}

/// The record a 10-byte buffer decodes to.
pub open spec fn spec_touch_record(b: Seq<u8>) -> TouchRecord
    recommends
        b.len() == 10,
{
    TouchRecord {
        touch_type: b[0] & 7,
        tip: (b[1] >> 7) & 1,
        event_id: (b[1] >> 5) & 3,
        touch_id: b[1] & 0x1f,
        x: spec_u16_le(b[2], b[3]),
        y: spec_u16_le(b[4], b[5]),
        pressure: b[6],
        major_axis_length: spec_u16_le(b[7], b[8]),
        orientation: b[9],
    }
}

/// The 10 bytes a record encodes to, with padding bits zero and every field
/// masked to its wire width.
pub open spec fn spec_touch_record_bytes(r: TouchRecord) -> Seq<u8> {
    seq![
        r.touch_type & 7,
        ((r.tip & 1) << 7) | ((r.event_id & 3) << 5) | (r.touch_id & 0x1f),
        spec_u16_lo(r.x),
        spec_u16_hi(r.x),
        spec_u16_lo(r.y),
        spec_u16_hi(r.y),
        r.pressure,
        spec_u16_lo(r.major_axis_length),
        spec_u16_hi(r.major_axis_length),
        r.orientation,
    ]
}

/// A 10-byte record buffer with its padding bits cleared.
pub open spec fn spec_canon_touch_record(b: Seq<u8>) -> Seq<u8>
    recommends
        b.len() == 10,
{
    b.update(0, b[0] & 7)
}

/// Decoding a 10-byte record buffer and re-encoding the result reproduces
/// the buffer exactly, up to the canonical zero-fill of its padding bits.
pub proof fn lemma_touch_record_round_trip(b: Seq<u8>)
    requires
        b.len() == 10,
    ensures
        spec_touch_record_bytes(spec_touch_record(b)) == spec_canon_touch_record(b),
{
    let b0 = b[0];
    let b1 = b[1];
    lemma_u16_le_round_trip(b[2], b[3]);
    lemma_u16_le_round_trip(b[4], b[5]);
    lemma_u16_le_round_trip(b[7], b[8]);
    assert(((b0 & 7) & 7) == (b0 & 7)) by (bit_vector);
    assert(((((((b1 >> 7) & 1) & 1) << 7) | ((((b1 >> 5) & 3) & 3) << 5)) | ((b1 & 0x1f) & 0x1f))
        == b1) by (bit_vector);
    assert(spec_touch_record_bytes(spec_touch_record(b)) =~= spec_canon_touch_record(b));
}

impl TouchRecord {
    /// Unpack a record from its 10 wire bytes.
    pub fn from_bytes(bytes: &[u8]) -> (r: TouchRecord)
        requires
            bytes@.len() == 10,
        ensures
            r == spec_touch_record(bytes@),
    {
        TouchRecord {
            touch_type: bytes[0] & 7,
            tip: (bytes[1] >> 7) & 1,
            event_id: (bytes[1] >> 5) & 3,
            touch_id: bytes[1] & 0x1f,
            x: u16_from_le(bytes[2], bytes[3]),
            y: u16_from_le(bytes[4], bytes[5]),
            pressure: bytes[6],
            major_axis_length: u16_from_le(bytes[7], bytes[8]),
            orientation: bytes[9],
        }
    }

    /// Pack the record back into its 10 wire bytes, with padding bits zero.
    pub fn to_bytes(&self) -> (out: Vec<u8>)
        ensures
            out@ == spec_touch_record_bytes(*self),
    {
        let mut out: Vec<u8> = Vec::new();
        out.push(self.touch_type & 7);
        out.push(((self.tip & 1) << 7) | ((self.event_id & 3) << 5) | (self.touch_id & 0x1f));
        out.push((self.x & 0xff) as u8);
        out.push((self.x >> 8) as u8);
        out.push((self.y & 0xff) as u8);
        out.push((self.y >> 8) as u8);
        out.push(self.pressure);
        out.push((self.major_axis_length & 0xff) as u8);
        out.push((self.major_axis_length >> 8) as u8);
        out.push(self.orientation);
        proof {
            assert(out@ =~= spec_touch_record_bytes(*self));
        }
        out
    }
}

/// Data for a button press event, 14 bytes on the wire.
///
/// Byte layout: `length` (bytes 0-1), `report_id` (byte 2), `time_stamp`
/// (bytes 3-4), `btn_val` (byte 5), then the four `btn_signal` words
/// (bytes 6-13). No sub-byte fields and no padding.
#[derive(Debug, Clone, Copy, PartialEq, Eq)]
pub struct ButtonRecord {
    /// Length of the record; always `14`
    pub length: u16,
    /// ID of the report; always `3`
    pub report_id: u8,
    /// Timestamp in units of 100us
    pub time_stamp: u16,
    /// Button value; only bits 3..0 are meaningful
    pub btn_val: u8,
    /// Button signals
    pub btn_signal: [u16; 4],
}

/// The record a 14-byte buffer decodes to.
pub open spec fn spec_button_record(b: Seq<u8>) -> ButtonRecord
    recommends
        b.len() == 14,
{
    ButtonRecord {
        length: spec_u16_le(b[0], b[1]),
        report_id: b[2],
        time_stamp: spec_u16_le(b[3], b[4]),
        btn_val: b[5],
        btn_signal: [
            spec_u16_le(b[6], b[7]),
            spec_u16_le(b[8], b[9]),
            spec_u16_le(b[10], b[11]),
            spec_u16_le(b[12], b[13]),
        ],
    }
}

/// The 14 bytes a record encodes to. Every field is full-width, so nothing
/// is masked.
pub open spec fn spec_button_record_bytes(r: ButtonRecord) -> Seq<u8> {
    seq![
        spec_u16_lo(r.length),
        spec_u16_hi(r.length),
        r.report_id,
        spec_u16_lo(r.time_stamp),
        spec_u16_hi(r.time_stamp),
        r.btn_val,
        spec_u16_lo(r.btn_signal[0]),
        spec_u16_hi(r.btn_signal[0]),
        spec_u16_lo(r.btn_signal[1]),
        spec_u16_hi(r.btn_signal[1]),
        spec_u16_lo(r.btn_signal[2]),
        spec_u16_hi(r.btn_signal[2]),
        spec_u16_lo(r.btn_signal[3]),
        spec_u16_hi(r.btn_signal[3]),
    ]
}

/// Decoding a 14-byte button buffer and re-encoding the result reproduces
/// the buffer exactly: a button record has no padding bits.
pub proof fn lemma_button_record_round_trip(b: Seq<u8>)
    requires
        b.len() == 14,
    ensures
        spec_button_record_bytes(spec_button_record(b)) == b,
{
    lemma_u16_le_round_trip(b[0], b[1]);
    lemma_u16_le_round_trip(b[3], b[4]);
    lemma_u16_le_round_trip(b[6], b[7]);
    lemma_u16_le_round_trip(b[8], b[9]);
    lemma_u16_le_round_trip(b[10], b[11]);
    lemma_u16_le_round_trip(b[12], b[13]);
    assert(spec_button_record_bytes(spec_button_record(b)) =~= b);
}

impl ButtonRecord {
    /// Unpack a button record from its 14 wire bytes.
    pub fn from_bytes(bytes: &[u8]) -> (r: ButtonRecord)
        requires
            bytes@.len() == 14,
        ensures
            r == spec_button_record(bytes@),
    {
        ButtonRecord {
            length: u16_from_le(bytes[0], bytes[1]),
            report_id: bytes[2],
            time_stamp: u16_from_le(bytes[3], bytes[4]),
            btn_val: bytes[5],
            btn_signal: [
                u16_from_le(bytes[6], bytes[7]),
                u16_from_le(bytes[8], bytes[9]),
                u16_from_le(bytes[10], bytes[11]),
                u16_from_le(bytes[12], bytes[13]),
            ],
        }
    }

    /// Pack the button record back into its 14 wire bytes.
    pub fn to_bytes(&self) -> (out: Vec<u8>)
        ensures
            out@ == spec_button_record_bytes(*self),
    {
        let mut out: Vec<u8> = Vec::new();
        out.push((self.length & 0xff) as u8);
        out.push((self.length >> 8) as u8);
        out.push(self.report_id);
        out.push((self.time_stamp & 0xff) as u8);
        out.push((self.time_stamp >> 8) as u8);
        out.push(self.btn_val);
        out.push((self.btn_signal[0] & 0xff) as u8);
        out.push((self.btn_signal[0] >> 8) as u8);
        out.push((self.btn_signal[1] & 0xff) as u8);
        out.push((self.btn_signal[1] >> 8) as u8);
        out.push((self.btn_signal[2] & 0xff) as u8);
        out.push((self.btn_signal[2] >> 8) as u8);
        out.push((self.btn_signal[3] & 0xff) as u8);
        out.push((self.btn_signal[3] >> 8) as u8);
        proof {
            assert(out@ =~= spec_button_record_bytes(*self));
        }
        out
    }
}

} // verus!
