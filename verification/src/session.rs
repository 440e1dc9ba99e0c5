//! The device session: the initialization handshake and the steady-state
//! read cycle.
//!
//! The session owns no transport. It is the decision half of the protocol:
//! the caller performs each bus read it is asked for and hands the outcome
//! back, so a blocking and a suspending transport drive the very same
//! logic. Only the handshake can fault a session; a corrupt frame during a
//! steady-state read surfaces as an error and leaves the session ready.

use crate::error::Error;
use crate::event::{button_event, classify, spec_classify, spec_event_outcome, touch_event, Event,
    MessageKind};
use vstd::prelude::*;

verus! {

/// Where a session stands.
#[derive(Debug, Clone, Copy, PartialEq, Eq, Structural)]
pub enum SessionState {
    /// The handshake has not seen the sentinel yet.
    Uninitialized,
    /// The handshake saw the sentinel; steady-state reads may run.
    Ready,
    /// Every handshake attempt went by without the sentinel.
    Faulted,
}

/// How far the handshake has come after one more observation.
#[derive(Debug, Clone, Copy, PartialEq, Eq, Structural)]
pub enum InitStatus {
    /// The sentinel has not appeared yet; read the length prefix once more.
    Pending,
    /// The sentinel appeared; the session is ready.
    Complete,
}

/// The handshake gives the device this many length reads to answer with the
/// sentinel before the session faults.
pub const INIT_ATTEMPTS: u8 = 5;

/// TT21100 driver session.
pub struct TT21100 {
    state: SessionState,
    attempts: u8,
}

impl TT21100 {
    /// Where the session stands.
    pub closed spec fn spec_state(self) -> SessionState {
        self.state
    }

    /// How many handshake observations the session has consumed.
    pub closed spec fn spec_attempts(self) -> int {
        self.attempts as int
    }

    /// The session invariant: the handshake consumes at most five
    /// observations, and a session still uninitialized has one left.
    pub open spec fn wf(self) -> bool {
        &&& self.spec_attempts() <= INIT_ATTEMPTS
        &&& self.spec_state() is Uninitialized ==> self.spec_attempts() < INIT_ATTEMPTS
    }

    /// Open a session. The handshake has consumed nothing yet; no
    /// steady-state read may run before it completes.
    pub fn new() -> (s: TT21100)
        ensures
            s.wf(),
            s.spec_state() is Uninitialized,
            s.spec_attempts() == 0,
    {
        TT21100 { state: SessionState::Uninitialized, attempts: 0 }
    }

    /// Report where the session stands.
    pub fn state(&self) -> (s: SessionState)
        ensures
            s == self.spec_state(),
    {
        self.state
    }

    /// Consume one handshake observation: the caller read the 2-byte length
    /// prefix and it decoded to `observed`.
    ///
    /// The sentinel `2` completes the handshake at once — the device
    /// answered coherently, which is all the handshake establishes.
    /// Anything else spends one of the five attempts; spending the fifth
    /// faults the session, and the call reports the last observed value.
    pub fn initialize<E>(&mut self, observed: u16) -> (r: Result<InitStatus, Error<E>>)
        requires
            old(self).wf(),
            old(self).spec_state() is Uninitialized,
        ensures
            final(self).wf(),
            final(self).spec_attempts() == old(self).spec_attempts() + 1,
            observed == 2 ==> final(self).spec_state() is Ready
                && r == Ok::<InitStatus, Error<E>>(InitStatus::Complete),
            observed != 2 && old(self).spec_attempts() + 1 < INIT_ATTEMPTS
                ==> final(self).spec_state() is Uninitialized
                && r == Ok::<InitStatus, Error<E>>(InitStatus::Pending),
            observed != 2 && old(self).spec_attempts() + 1 == INIT_ATTEMPTS
                ==> final(self).spec_state() is Faulted
                && r == Err::<InitStatus, Error<E>>(Error::InvalidMessageLen(observed as usize)),
    {
        self.attempts = self.attempts + 1;
        if observed == 2 {
            self.state = SessionState::Ready;
            Ok(InitStatus::Complete)
        } else if self.attempts < INIT_ATTEMPTS {
            Ok(InitStatus::Pending)
        } else {
            self.state = SessionState::Faulted;
            Err(Error::InvalidMessageLen(observed as usize))
        }
    }

    /// Is there data available to read from the device?
    ///
    /// The caller queries the interrupt pin and hands the answer in:
    /// `Some(is_low)` when the query succeeded, `None` when it failed. The
    /// line is active-low, so a low pin means a frame is queued.
    pub fn data_available<E>(&self, pin_is_low: Option<bool>) -> (r: Result<bool, Error<E>>)
        ensures
            pin_is_low matches Some(level) ==> r == Ok::<bool, Error<E>>(level),
            pin_is_low is None ==> r == Err::<bool, Error<E>>(Error::IOError),
    {
        match pin_is_low {
            Some(level) => Ok(level),
            None => Err(Error::IOError),
        }
    }

    /// First half of a steady-state read: the caller read the 2-byte length
    /// prefix and it decoded to `length`.
    ///
    /// `Ok(n)` asks the caller to read the full `n`-byte frame — the prefix
    /// counts itself, so the frame re-includes it at the front — and hand
    /// the frame to [`Self::event`]. The sentinel ends the cycle as
    /// `NoDataAvailable` (a benign race, not a fault) and every length no
    /// frame shape recognizes ends it as `InvalidMessageLen` carrying that
    /// length, before any further read is attempted.
    pub fn frame_len<E>(&self, length: u16) -> (r: Result<usize, Error<E>>)
        requires
            self.spec_state() is Ready,
        ensures
            spec_classify(length) is EmptyQueue ==> r == Err::<usize, Error<E>>(
                Error::NoDataAvailable,
            ),
            spec_classify(length) is Invalid ==> r == Err::<usize, Error<E>>(
                Error::InvalidMessageLen(length as usize),
            ),
            spec_classify(length) is Touch || spec_classify(length) is Button ==> r == Ok::<
                usize,
                Error<E>,
            >(length as usize),
    {
        match classify(length) {
            MessageKind::EmptyQueue => Err(Error::NoDataAvailable),
            MessageKind::Invalid => Err(Error::InvalidMessageLen(length as usize)),
            _ => Ok(length as usize),
        }
    }

    /// Second half of a steady-state read: decode the fetched frame into an
    /// event.
    ///
    /// The frame's own byte count classifies it again, so a frame the
    /// transport truncated between the two reads is caught instead of being
    /// decoded as the wrong kind.
    pub fn event<E>(&self, data: &[u8]) -> (r: Result<Event, Error<E>>)
        requires
            self.spec_state() is Ready,
        ensures
            r == spec_event_outcome::<E>(data@),
    {
        let n: usize = data.len();
        match n {
            2 => Err(Error::NoDataAvailable),
            7 | 17 | 27 => touch_event(data),
            14 => button_event(data),
            _ => Err(Error::InvalidMessageLen(n)),
        }
    }
}

} // verus!
