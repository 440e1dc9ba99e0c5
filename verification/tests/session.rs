//! Tests for the device session: the initialization handshake and the
//! steady-state read cycle.

use tt21100::session::{InitStatus, SessionState, TT21100};
use tt21100::{Error, Event};

/// Run the handshake against a scripted sequence of length-prefix reads,
/// the way a transport adapter would, and report the outcome together with
/// the number of reads consumed.
fn run_handshake(reads: &[u16]) -> (TT21100, Result<(), Error<()>>, usize) {
    let mut session = TT21100::new();
    let mut consumed: usize = 0;
    for &observed in reads {
        consumed += 1;
        match session.initialize::<()>(observed) {
            Ok(InitStatus::Complete) => return (session, Ok(()), consumed),
            Ok(InitStatus::Pending) => continue,
            Err(e) => return (session, Err(e), consumed),
        }
    }
    panic!("the handshake neither completed nor faulted");
}

#[test]
fn handshake_succeeds_on_first_sentinel() {
    let (session, outcome, consumed) = run_handshake(&[2]);
    assert_eq!(outcome, Ok(()));
    assert_eq!(consumed, 1);
    assert_eq!(session.state(), SessionState::Ready);
}

#[test]
fn handshake_succeeds_on_third_read_and_reads_no_further() {
    // The script holds five reads, but the sentinel on the third one must
    // end the handshake there.
    let (session, outcome, consumed) = run_handshake(&[9, 300, 2, 7, 7]);
    assert_eq!(outcome, Ok(()));
    assert_eq!(consumed, 3);
    assert_eq!(session.state(), SessionState::Ready);
}

#[test]
fn handshake_faults_with_fifth_observed_value() {
    let (session, outcome, consumed) = run_handshake(&[3, 9, 100, 0, 44]);
    assert_eq!(outcome, Err(Error::InvalidMessageLen(44)));
    assert_eq!(consumed, 5);
    assert_eq!(session.state(), SessionState::Faulted);
}

#[test]
fn handshake_faults_when_the_sentinel_never_appears() {
    let (session, outcome, consumed) = run_handshake(&[7, 7, 7, 7, 7]);
    assert_eq!(outcome, Err(Error::InvalidMessageLen(7)));
    assert_eq!(consumed, 5);
    assert_eq!(session.state(), SessionState::Faulted);
}

fn ready_session() -> TT21100 {
    let mut session = TT21100::new();
    assert_eq!(session.initialize::<()>(2), Ok(InitStatus::Complete));
    session
}

#[test]
fn new_session_starts_uninitialized() {
    let session = TT21100::new();
    assert_eq!(session.state(), SessionState::Uninitialized);
}

#[test]
fn data_available_reports_the_active_low_line() {
    let session = ready_session();
    assert_eq!(session.data_available::<()>(Some(true)), Ok(true));
    assert_eq!(session.data_available::<()>(Some(false)), Ok(false));
}

#[test]
fn data_available_surfaces_a_failed_pin_query_as_io_error() {
    let session = ready_session();
    assert_eq!(session.data_available::<()>(None), Err(Error::IOError));
}

#[test]
fn frame_len_asks_for_the_full_frame_of_each_valid_length() {
    let session = ready_session();
    assert_eq!(session.frame_len::<()>(7), Ok(7));
    assert_eq!(session.frame_len::<()>(17), Ok(17));
    assert_eq!(session.frame_len::<()>(27), Ok(27));
    assert_eq!(session.frame_len::<()>(14), Ok(14));
}

#[test]
fn sentinel_length_yields_no_data_available_not_an_error_event() {
    let session = ready_session();
    assert_eq!(session.frame_len::<()>(2), Err(Error::NoDataAvailable));
    // The same holds when a bare 2-byte frame reaches the decoder.
    assert_eq!(session.event::<()>(&[0x02, 0x00]), Err(Error::NoDataAvailable));
}

#[test]
fn invalid_lengths_yield_invalid_message_len_with_the_value() {
    let session = ready_session();
    for n in [0u16, 1, 3, 6, 8, 13, 15, 16, 18, 26, 28, 512, 65535] {
        assert_eq!(
            session.frame_len::<()>(n),
            Err(Error::InvalidMessageLen(n as usize))
        );
    }
}

#[test]
fn event_decodes_a_queued_button_frame() {
    let session = ready_session();
    let frame = [
        0x0e, 0x00, 0x03, 0x10, 0x20, 0x05, 0, 0, 0, 0, 0, 0, 0, 0,
    ];
    match session.event::<()>(&frame) {
        Ok(Event::Button(record)) => {
            assert_eq!(record.length, 14);
            assert_eq!(record.report_id, 3);
            assert_eq!(record.btn_val & 0x0f, 5);
            assert_eq!(record.btn_signal, [0, 0, 0, 0]);
        }
        other => panic!("a button event was expected, not {:?}", other),
    }
}

#[test]
fn event_decodes_a_queued_touch_frame() {
    let session = ready_session();
    let frame = [0x07, 0x00, 0x01, 0x00, 0x00, 0b00_1_01101, 0x00];
    match session.event::<()>(&frame) {
        Ok(Event::Touch { report, touches }) => {
            assert_eq!(report.data_len, 7);
            assert_eq!(report.large_object, 1);
            assert_eq!(report.record_num, 13);
            assert_eq!(touches, (None, None));
        }
        other => panic!("a touch event was expected, not {:?}", other),
    }
}

#[test]
fn event_surfaces_a_desynchronized_frame_length() {
    let session = ready_session();
    let frame = [0u8; 21];
    assert_eq!(session.event::<()>(&frame), Err(Error::InvalidMessageLen(21)));
}
