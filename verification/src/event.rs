//! Classifying a frame by its announced length and decoding it into an
//! event.

use crate::error::Error;
use crate::wire::{
    lemma_button_record_round_trip, lemma_touch_record_round_trip, lemma_touch_report_round_trip,
    spec_button_record, spec_button_record_bytes, spec_canon_touch_record, spec_canon_touch_report,
    spec_touch_record, spec_touch_record_bytes, spec_touch_report, spec_touch_report_bytes,
    ButtonRecord, TouchRecord, TouchReport,
};
use vstd::prelude::*;
use vstd::slice::slice_subrange;

verus! {

/// An event emitted by the device
#[derive(Debug, Clone, Copy, PartialEq, Eq)]
pub enum Event {
    /// A touch event
    Touch {
        report: TouchReport,
        touches: (Option<TouchRecord>, Option<TouchRecord>),
    },
    /// A button press event
    Button(ButtonRecord),
}

/// What a frame's announced byte length says the frame is.
#[derive(Debug, Clone, Copy, PartialEq, Eq, Structural)]
pub enum MessageKind {
    /// The bare 2-byte sentinel: the device's event queue is empty.
    EmptyQueue,
    /// A touch frame carrying this many touch records (0, 1 or 2).
    Touch { records: u8 },
    /// The 14-byte button frame.
    Button,
    /// No recognized frame shape: the transport has desynchronized.
    Invalid,
}

/// Whether `n` is one of the three touch frame lengths.
pub open spec fn spec_is_touch_len(n: int) -> bool {
    n == 7 || n == 17 || n == 27
}

/// The kind of frame a length prefix announces.
pub open spec fn spec_classify(length: u16) -> MessageKind {
    if length == 2 {
        MessageKind::EmptyQueue
    } else if length == 7 {
        MessageKind::Touch { records: 0 }
    } else if length == 17 {
        MessageKind::Touch { records: 1 }
    } else if length == 27 {
        MessageKind::Touch { records: 2 }
    } else if length == 14 {
        MessageKind::Button
    } else {
        MessageKind::Invalid
    }
}

/// Classify a frame by the byte length its 16-bit prefix announces.
///
/// Every length outside `2`, `7`, `17`, `27` and `14` is `Invalid`: there is
/// no default kind and no further case.
pub fn classify(length: u16) -> (k: MessageKind)
    ensures
        k == spec_classify(length),
{
    match length {
        2 => MessageKind::EmptyQueue,
        7 => MessageKind::Touch { records: 0 },
        17 => MessageKind::Touch { records: 1 },
        27 => MessageKind::Touch { records: 2 },
        14 => MessageKind::Button,
        _ => MessageKind::Invalid,
    }
}

/// The event a touch frame of 7, 17 or 27 bytes decodes to: the report from
/// the first 7 bytes, then one optional record for each further 10 bytes.
pub open spec fn spec_touch_frame(b: Seq<u8>) -> Event
    recommends
        spec_is_touch_len(b.len() as int),
{
    Event::Touch {
        report: spec_touch_report(b.subrange(0, 7)),
        touches: (
            if b.len() >= 17 {
                Some(spec_touch_record(b.subrange(7, 17)))
            } else {
                None
            },
            if b.len() == 27 {
                Some(spec_touch_record(b.subrange(17, 27)))
            } else {
                None
            },
        ),
    }
}

/// The bytes an event encodes back to: the report followed by the present
/// records, or the single button record.
pub open spec fn spec_event_bytes(e: Event) -> Seq<u8> {
    match e {
        Event::Touch { report, touches } => spec_touch_report_bytes(report) + (match touches.0 {
            Some(r) => spec_touch_record_bytes(r),
            None => Seq::empty(),
        }) + (match touches.1 {
            Some(r) => spec_touch_record_bytes(r),
            None => Seq::empty(),
        }),
        Event::Button(r) => spec_button_record_bytes(r),
    }
}

/// A touch frame with the padding bits of its report and of each present
/// record cleared.
pub open spec fn spec_canon_touch_frame(b: Seq<u8>) -> Seq<u8>
    recommends
        spec_is_touch_len(b.len() as int),
{
    if b.len() == 7 {
        spec_canon_touch_report(b)
    } else if b.len() == 17 {
        spec_canon_touch_report(b.subrange(0, 7)) + spec_canon_touch_record(b.subrange(7, 17))
    } else {
        spec_canon_touch_report(b.subrange(0, 7)) + spec_canon_touch_record(b.subrange(7, 17))
            + spec_canon_touch_record(b.subrange(17, 27))
    }
}

/// Decode a touch frame: the report from bytes 0-6, a first record from
/// bytes 7-16 of a 17- or 27-byte frame, a second from bytes 17-26 of a
/// 27-byte frame. Any other buffer length is a size mismatch, the one
/// failure decoding itself can produce.
pub fn touch_event<E>(message: &[u8]) -> (r: Result<Event, Error<E>>)
    ensures
        spec_is_touch_len(message@.len() as int) ==> r == Ok::<Event, Error<E>>(
            spec_touch_frame(message@),
        ),
        !spec_is_touch_len(message@.len() as int) ==> r == Err::<Event, Error<E>>(
            Error::TryFromSliceError,
        ),
{
    let n: usize = message.len();
    if !(n == 7 || n == 17 || n == 27) {
        return Err(Error::TryFromSliceError);
    }
    let report = TouchReport::from_bytes(slice_subrange(message, 0, 7));

    let record0 = if n >= 17 {
        Some(TouchRecord::from_bytes(slice_subrange(message, 7, 17)))
    } else {
        None
    };

    let record1 = if n == 27 {
        Some(TouchRecord::from_bytes(slice_subrange(message, 17, 27)))
    } else {
        None
    };

    Ok(Event::Touch { report, touches: (record0, record1) })
}

/// Decode a button frame: the whole 14-byte buffer is one button record.
/// Any other buffer length is a size mismatch.
pub fn button_event<E>(message: &[u8]) -> (r: Result<Event, Error<E>>)
    ensures
        message@.len() == 14 ==> r == Ok::<Event, Error<E>>(
            Event::Button(spec_button_record(message@)),
        ),
        message@.len() != 14 ==> r == Err::<Event, Error<E>>(Error::TryFromSliceError),
{
    if message.len() != 14 {
        return Err(Error::TryFromSliceError);
    }
    let record = ButtonRecord::from_bytes(message);

    Ok(Event::Button(record))
}

/// The outcome one steady-state read cycle owes for a fetched frame: the
/// sentinel surfaces as `NoDataAvailable`, a touch or button frame decodes,
/// and every other byte count is `InvalidMessageLen` carrying that count.
pub open spec fn spec_event_outcome<E>(b: Seq<u8>) -> Result<Event, Error<E>> {
    if b.len() == 2 {
        Err(Error::NoDataAvailable)
    } else if spec_is_touch_len(b.len() as int) {
        Ok(spec_touch_frame(b))
    } else if b.len() == 14 {
        Ok(Event::Button(spec_button_record(b)))
    } else {
        Err(Error::InvalidMessageLen(b.len() as usize))
    }
}

/// A steady-state cycle that fetches the very frame the classifier asked
/// for always decodes: whenever a frame's byte count classifies as a touch
/// or button message, the frame yields an event, never an error.
pub proof fn lemma_classified_frame_decodes<E>(b: Seq<u8>)
    requires
        b.len() <= u16::MAX,
        spec_classify(b.len() as u16) is Touch || spec_classify(b.len() as u16) is Button,
    ensures
        spec_event_outcome::<E>(b) is Ok,
{
}

/// A 7-byte touch frame decodes to a report and no records, a 17-byte frame
/// to a report and one record, a 27-byte frame to a report and two.
pub proof fn lemma_touch_frame_shape(b: Seq<u8>)
    requires
        spec_is_touch_len(b.len() as int),
    ensures
        spec_touch_frame(b) == (Event::Touch {
            report: spec_touch_report(b.subrange(0, 7)),
            touches: (
                if b.len() >= 17 {
                    Some(spec_touch_record(b.subrange(7, 17)))
                } else {
                    None
                },
                if b.len() == 27 {
                    Some(spec_touch_record(b.subrange(17, 27)))
                } else {
                    None
                },
            ),
        }),
{
}

/// Decoding any supported frame and re-encoding the resulting event
/// reproduces the frame exactly, up to the canonical zero-fill of its
/// padding bits; a button frame, which has no padding, comes back untouched.
pub proof fn lemma_event_round_trip(b: Seq<u8>)
    requires
        spec_is_touch_len(b.len() as int) || b.len() == 14,
    ensures
        spec_is_touch_len(b.len() as int) ==> spec_event_bytes(spec_touch_frame(b))
            == spec_canon_touch_frame(b),
        b.len() == 14 ==> spec_event_bytes(Event::Button(spec_button_record(b))) == b,
{
    if b.len() == 7 {
        assert(b.subrange(0, 7) =~= b);
        lemma_touch_report_round_trip(b);
        assert(spec_event_bytes(spec_touch_frame(b)) =~= spec_canon_touch_frame(b));
    } else if b.len() == 17 {
        lemma_touch_report_round_trip(b.subrange(0, 7));
        lemma_touch_record_round_trip(b.subrange(7, 17));
        assert(spec_event_bytes(spec_touch_frame(b)) =~= spec_canon_touch_frame(b));
    } else if b.len() == 27 {
        lemma_touch_report_round_trip(b.subrange(0, 7));
        lemma_touch_record_round_trip(b.subrange(7, 17));
        lemma_touch_record_round_trip(b.subrange(17, 27));
        assert(spec_event_bytes(spec_touch_frame(b)) =~= spec_canon_touch_frame(b));
    } else {
        lemma_button_record_round_trip(b);
    }
}

} // verus!
