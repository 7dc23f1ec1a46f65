//! The TLS record engine: the state of one session and the operations that
//! higher layers use on it.
//!
//! The engine never touches the transport. Ciphertext that arrived is handed
//! to `receive`; ciphertext that has to leave is collected by `flush` and
//! `close` in a buffer of the caller's, who writes it out.

use vstd::prelude::*;
use vstd::slice::slice_subrange;
use crate::config::TlsConfiguration;
use crate::tls;

verus! {

/// Where a session stands.
#[derive(Clone, Copy, PartialEq, Eq, Structural, Debug)]
pub enum EngineState {
    /// The TLS negotiation is under way.
    Handshaking,
    /// Application data may flow.
    Established,
    /// The close-notification is queued; nothing more will be sent after it.
    Closing,
    /// The session is over.
    Closed,
}

/// What the session asks of the transport at one moment.
#[derive(Clone, Copy, Debug)]
pub struct Readiness {
    /// The negotiation is not complete.
    pub handshaking: bool,
    /// The session can take ciphertext from the peer.
    pub wants_read: bool,
    /// The session holds ciphertext for the peer.
    pub wants_write: bool,
}

/// The next move of the handshake loop.
#[derive(Clone, Copy, PartialEq, Eq, Structural, Debug)]
pub enum HandshakeStep {
    /// Pending ciphertext has to reach the peer before anything else.
    Transmit,
    /// Ciphertext from the peer is needed.
    Receive,
    /// The negotiation is complete.
    Complete,
    /// The session asks for nothing; the loop goes round.
    Idle,
    /// The engine is not in its handshake.
    Finished,
}

/// An operation that needs an established session met another state.
#[derive(Clone, Copy, PartialEq, Eq, Structural, Debug)]
pub enum EngineError {
    /// The session is not, or no longer, established.
    NotEstablished,
}

/// Why `receive` closed the session.
#[derive(Debug)]
pub enum EngineFault {
    /// The session refused the ciphertext as a reader's failure.
    Transport,
    /// The packet processor reported a TLS fault.
    Protocol(rustls::TLSError),
}

/// The rule of the handshake loop: pending output is drained before the
/// state of the negotiation is looked at, and that before any read.
pub open spec fn handshake_step(state: EngineState, ready: Readiness) -> HandshakeStep {
    if state != EngineState::Handshaking {
        HandshakeStep::Finished
    } else if ready.wants_write {
        HandshakeStep::Transmit
    } else if !ready.handshaking {
        HandshakeStep::Complete
    } else if ready.wants_read {
        HandshakeStep::Receive
    } else {
        HandshakeStep::Idle
    }
}

/// Computes `handshake_step`.
pub fn next_handshake_step(state: EngineState, ready: Readiness) -> (step: HandshakeStep)
    ensures
        step == handshake_step(state, ready),
{
    if state != EngineState::Handshaking {
        HandshakeStep::Finished
    } else if ready.wants_write {
        HandshakeStep::Transmit
    } else if !ready.handshaking {
        HandshakeStep::Complete
    } else if ready.wants_read {
        HandshakeStep::Receive
    } else {
        HandshakeStep::Idle
    }
}

/// The state after a handshake step.
pub open spec fn state_after_step(state: EngineState, step: HandshakeStep) -> EngineState {
    if step == HandshakeStep::Complete {
        EngineState::Established
    } else {
        state
    }
}

/// The state after `receive` was given `len` bytes of ciphertext and
/// returned `result`: the number of bytes that the session took, or a fault.
pub open spec fn state_after_receive(
    state: EngineState,
    len: nat,
    result: Result<usize, EngineFault>,
) -> EngineState {
    match state {
        EngineState::Closed => EngineState::Closed,
        EngineState::Closing => if len == 0 {
            EngineState::Closed
        } else {
            EngineState::Closing
        },
        _ => match result {
            Ok(taken) => if len == 0 || taken < len {
                EngineState::Closed
            } else {
                state
            },
            Err(_) => EngineState::Closed,
        },
    }
}

/// The state after `close`.
pub open spec fn state_after_close(state: EngineState) -> EngineState {
    match state {
        EngineState::Closed => EngineState::Closed,
        _ => EngineState::Closing,
    }
}

/// Tells whether `close` has a close-notification to queue in `state`.
pub open spec fn close_queues(state: EngineState) -> bool {
    state == EngineState::Handshaking || state == EngineState::Established
}

/// Closing twice is closing once: a first `close` leaves a state in which a
/// second one queues nothing and which the second one leaves as it is.
pub proof fn lemma_close_is_idempotent(state: EngineState)
    ensures
        !close_queues(state_after_close(state)),
        state_after_close(state_after_close(state)) == state_after_close(state),
{
}

/// What the feeding of ciphertext does after the session was offered what
/// is left of the input.
#[derive(Clone, Copy, PartialEq, Eq, Structural, Debug)]
pub enum FeedStep {
    /// The session failed to read: the session is given up with a fault.
    Fault,
    /// The session took nothing: the session is given up without a fault.
    Stop,
    /// The session took bytes: the packet processor runs, and the feeding
    /// goes on from this offset.
    Take(usize),
}

/// The step after the session answered `taken` to an offer that began at
/// `offset`.
pub open spec fn feed_step(offset: usize, taken: Option<usize>) -> FeedStep {
    match taken {
        None => FeedStep::Fault,
        Some(n) => if n == 0 {
            FeedStep::Stop
        } else {
            FeedStep::Take((offset + n) as usize)
        },
    }
}

/// Computes `feed_step` for an input of `len` bytes, of which the session
/// can have taken no more than were left.
pub fn after_read(offset: usize, len: usize, taken: Option<usize>) -> (step: FeedStep)
    requires
        offset <= len,
        taken matches Some(n) ==> n <= len - offset,
    ensures
        step == feed_step(offset, taken),
        step matches FeedStep::Take(next) ==> offset < next <= len,
{
    match taken {
        None => FeedStep::Fault,
        Some(n) => if n == 0 {
            FeedStep::Stop
        } else {
            FeedStep::Take(offset + n)
        },
    }
}

/// Turns the packet processor's outcome into the engine's: its fault is a
/// protocol fault.
pub fn after_process(outcome: Result<(), rustls::TLSError>) -> (result: Result<(), EngineFault>)
    ensures
        outcome is Ok ==> result is Ok,
        outcome matches Err(e) ==> result == Err::<(), EngineFault>(EngineFault::Protocol(e)),
{
    match outcome {
        Ok(_) => Ok(()),
        Err(e) => Err(EngineFault::Protocol(e)),
    }
}

/// What `receive` answers on an open engine to a non-empty input of which
/// the session, offered all of it, takes `first`. A failed read is a fault.
/// Where the session takes nothing, nothing was taken and the session is
/// given up without a fault. Where it takes bytes, the count returned is no
/// less than it took, unless a fault ended the feeding.
pub open spec fn answers_feeding(first: Option<usize>, result: Result<usize, EngineFault>) -> bool {
    match first {
        None => result is Err,
        Some(n) => if n == 0 {
            result == Ok::<usize, EngineFault>(0)
        } else {
            result is Err || (result matches Ok(taken) && taken >= n)
        },
    }
}

/// What a `receive` adds to the faults: one where it ended in a fault.
pub open spec fn fault_count(result: Result<usize, EngineFault>) -> nat {
    if result is Err {
        1
    } else {
        0
    }
}

/// The count that a session's answer to an offer of application bytes stands
/// for: a failed write accepts nothing.
pub open spec fn accepted_count(answer: Option<usize>) -> usize {
    match answer {
        Some(n) => n,
        None => 0,
    }
}

/// What an offer of `len` application bytes adds to the refusals: one
/// where there were bytes and the session accepted none of them.
pub open spec fn refusal_count(len: nat, result: Result<usize, EngineError>) -> nat {
    if len > 0 && result == Ok::<usize, EngineError>(0) {
        1
    } else {
        0
    }
}

/// Whether a flush asks the session again: it does after a write that gave
/// bytes, while the session still wants to write.
pub open spec fn draining(written: Option<usize>, wants_write: bool) -> bool {
    match written {
        Some(n) => n > 0 && wants_write,
        None => false,
    }
}

/// Computes `draining`.
pub fn keeps_draining(written: Option<usize>, wants_write: bool) -> (going: bool)
    ensures
        going == draining(written, wants_write),
{
    match written {
        Some(n) => n > 0 && wants_write,
        None => false,
    }
}

/// One TLS session with its state.
pub struct RecordEngine {
    session: rustls::ServerSession,
    state: EngineState,
    notified: bool,
    sent: Ghost<Seq<u8>>,
    received: Ghost<Seq<u8>>,
    refused: Ghost<nat>,
    faulted: Ghost<nat>,
}

impl RecordEngine {
    /// The engine's invariant: no close-notification is queued while the
    /// session negotiates or is established, and one is once it is closing;
    /// and the session fragments what it sends by the protocol's own size.
    pub closed spec fn wf(&self) -> bool {
        &&& self.state == EngineState::Handshaking || self.state == EngineState::Established
            ==> !self.notified
        &&& self.state == EngineState::Closing ==> self.notified
        &&& tls::fragments_by_default(self.session)
    }

    /// The state of the session.
    pub closed spec fn state(&self) -> EngineState {
        self.state
    }

    /// The number of close-notifications queued so far.
    pub closed spec fn close_notifications(&self) -> nat {
        if self.notified {
            1
        } else {
            0
        }
    }

    /// The application bytes that the session accepted for encryption, in order.
    pub closed spec fn sent(&self) -> Seq<u8> {
        self.sent@
    }

    /// The application bytes that the session handed out, in order.
    pub closed spec fn received(&self) -> Seq<u8> {
        self.received@
    }

    /// The number of offers of application bytes of which the session
    /// accepted none.
    pub closed spec fn refusals(&self) -> nat {
        self.refused@
    }

    /// The number of times that `receive` ended in a fault.
    pub closed spec fn faults(&self) -> nat {
        self.faulted@
    }

    /// The TLS session itself.
    pub closed spec fn session(&self) -> rustls::ServerSession {
        self.session
    }

    /// What the session reports of itself.
    pub open spec fn reported(&self) -> Readiness {
        Readiness {
            handshaking: tls::reports_handshaking(self.session()),
            wants_read: tls::reports_wants_read(self.session()),
            wants_write: tls::reports_wants_write(self.session()),
        }
    }

    /// What does not change while only the session works.
    pub open spec fn same_record(&self, other: &RecordEngine) -> bool {
        &&& self.state() == other.state()
        &&& self.close_notifications() == other.close_notifications()
        &&& self.sent() == other.sent()
        &&& self.received() == other.received()
        &&& self.refusals() == other.refusals()
        &&& self.faults() == other.faults()
    }

    /// An engine for a new session under `config`.
    pub fn new(config: &TlsConfiguration) -> (engine: RecordEngine)
        ensures
            engine.wf(),
            engine.state() == EngineState::Handshaking,
            engine.close_notifications() == 0,
            engine.sent() == Seq::<u8>::empty(),
            engine.received() == Seq::<u8>::empty(),
            engine.refusals() == 0,
            engine.faults() == 0,
    {
        RecordEngine {
            session: tls::open_session(config.as_rustls()),
            state: EngineState::Handshaking,
            notified: false,
            sent: Ghost(Seq::empty()),
            received: Ghost(Seq::empty()),
            refused: Ghost(0),
            faulted: Ghost(0),
        }
    }

    /// The state of the session.
    pub fn current_state(&self) -> (state: EngineState)
        ensures
            state == self.state(),
    {
        self.state
    }

    /// Tells whether a close-notification was queued.
    pub fn close_notified(&self) -> (notified: bool)
        ensures
            notified == (self.close_notifications() == 1),
    {
        self.notified
    }

    /// Asks the session what it wants of the transport.
    pub fn readiness(&self) -> (ready: Readiness)
        ensures
            ready == self.reported(),
    {
        Readiness {
            handshaking: tls::is_handshaking(&self.session),
            wants_read: tls::wants_read(&self.session),
            wants_write: tls::wants_write(&self.session),
        }
    }

    /// Takes one decision of the handshake loop.
    ///
    /// The step is `handshake_step` of the state and of what the session
    /// reports. On `Complete` the engine becomes established; otherwise
    /// nothing changes, and the caller performs the step: for `Transmit` a
    /// `flush`, for `Receive` a read from the transport and `receive`.
    pub fn advance_handshake(&mut self) -> (step: HandshakeStep)
        requires
            old(self).wf(),
        ensures
            final(self).wf(),
            step == handshake_step(old(self).state(), old(self).reported()),
            final(self).state() == state_after_step(old(self).state(), step),
            step != HandshakeStep::Complete ==> *final(self) == *old(self),
            final(self).session() == old(self).session(),
            final(self).close_notifications() == old(self).close_notifications(),
            final(self).sent() == old(self).sent(),
            final(self).received() == old(self).received(),
            final(self).refusals() == old(self).refusals(),
            final(self).faults() == old(self).faults(),
    {
        let ready = self.readiness();
        let step = next_handshake_step(self.state, ready);
        if step == HandshakeStep::Complete {
            self.state = EngineState::Established;
        }
        step
    }

    /// Hands ciphertext that the transport delivered to the session and
    /// tells how many bytes of it the session took.
    ///
    /// An empty `input` is the peer closing the transport: the session is
    /// over, and that is no fault. Otherwise the bytes are fed to the packet
    /// processor, piece by piece; where it reports a fault, or the session
    /// stops taking bytes, the session is over too. A closed engine ignores
    /// its input, and so does a closing one unless the input is empty.
    pub fn receive(&mut self, input: &[u8]) -> (result: Result<usize, EngineFault>)
        requires
            old(self).wf(),
        ensures
            final(self).wf(),
            final(self).state() == state_after_receive(old(self).state(), input@.len(), result),
            result matches Ok(taken) ==> taken <= input@.len(),
            input@.len() == 0 ==> result is Ok,
            old(self).state() == EngineState::Closed || old(self).state() == EngineState::Closing
                || input@.len() == 0 ==> result is Ok && final(self).session() == old(
                self,
            ).session(),
            (old(self).state() == EngineState::Handshaking || old(self).state()
                == EngineState::Established) && input@.len() > 0 ==> answers_feeding(
                tls::takes(old(self).session(), input@),
                result,
            ),
            final(self).faults() == old(self).faults() + fault_count(result),
            final(self).close_notifications() == old(self).close_notifications(),
            final(self).sent() == old(self).sent(),
            final(self).received() == old(self).received(),
            final(self).refusals() == old(self).refusals(),
    {
        if self.state == EngineState::Closed {
            return Ok(0);
        }
        if input.len() == 0 {
            self.state = EngineState::Closed;
            return Ok(0);
        }
        if self.state == EngineState::Closing {
            return Ok(0);
        }
        let ghost first = tls::takes(self.session, input@);
        let mut offset: usize = 0;
        while offset < input.len()
            invariant
                offset <= input.len(),
                self.state == old(self).state,
                self.state == EngineState::Handshaking || self.state == EngineState::Established,
                self.notified == old(self).notified,
                !self.notified,
                self.sent == old(self).sent,
                self.received == old(self).received,
                self.refused == old(self).refused,
                self.faulted == old(self).faulted,
                tls::fragments_by_default(self.session),
                first == tls::takes(old(self).session, input@),
                offset == 0 ==> self.session == old(self).session,
                offset > 0 ==> (first matches Some(n) && 0 < n <= offset),
            decreases input.len() - offset,
        {
            let rest = slice_subrange(input, offset, input.len());
            proof {
                if offset == 0 {
                    assert(rest@ =~= input@);
                }
            }
            let taken = tls::read_tls(&mut self.session, rest);
            match after_read(offset, input.len(), taken) {
                FeedStep::Fault => {
                    self.state = EngineState::Closed;
                    proof {
                        self.faulted@ = self.faulted@ + 1;
                    }
                    return Err(EngineFault::Transport);
                },
                FeedStep::Stop => {
                    self.state = EngineState::Closed;
                    return Ok(offset);
                },
                FeedStep::Take(next) => {
                    offset = next;
                },
            }
            match after_process(tls::process_new_packets(&mut self.session)) {
                Ok(_) => {},
                Err(fault) => {
                    self.state = EngineState::Closed;
                    proof {
                        self.faulted@ = self.faulted@ + 1;
                    }
                    return Err(fault);
                },
            }
        }
        Ok(offset)
    }

    /// Moves the ciphertext that the session holds for the peer to the end
    /// of `out`, for the caller to write to the transport, and tells how
    /// many bytes were moved. The session is asked again for as long as it
    /// wants to write and gives bytes. Nothing before the end of `out` is
    /// touched.
    ///
    /// Afterwards the session wants to write no more. Bytes are moved
    /// exactly where it wanted to write; where it did not, it is not asked.
    pub fn flush(&mut self, out: &mut Vec<u8>) -> (moved: usize)
        requires
            old(self).wf(),
        ensures
            final(self).wf(),
            old(out)@.is_prefix_of(final(out)@),
            final(out)@.len() == old(out)@.len() + moved,
            !final(self).reported().wants_write,
            old(self).reported().wants_write <==> moved > 0,
            !old(self).reported().wants_write ==> final(self).session() == old(self).session(),
            final(self).same_record(old(self)),
    {
        let start: usize = out.len();
        let mut moved: usize = 0;
        let mut going: bool = tls::wants_write(&self.session);
        while going
            invariant
                self.state == old(self).state,
                self.notified == old(self).notified,
                self.sent == old(self).sent,
                self.received == old(self).received,
                self.refused == old(self).refused,
                self.faulted == old(self).faulted,
                tls::fragments_by_default(self.session),
                start == old(out)@.len(),
                old(out)@.is_prefix_of(out@),
                out@.len() == start + moved,
                going == tls::reports_wants_write(self.session),
                moved == 0 ==> self.session == old(self).session,
                moved > 0 ==> tls::reports_wants_write(old(self).session),
            decreases
                if going {
                    usize::MAX - out@.len() + 1
                } else {
                    0
                },
        {
            let ghost before = out@;
            let written = tls::write_tls(&mut self.session, out);
            moved = out.len() - start;
            proof {
                assert(old(out)@.is_prefix_of(out@)) by {
                    assert(old(out)@ =~= before.subrange(0, old(out)@.len() as int));
                    assert(before =~= out@.subrange(0, before.len() as int));
                    assert(old(out)@ =~= out@.subrange(0, old(out)@.len() as int));
                }
            }
            going = keeps_draining(written, tls::wants_write(&self.session));
        }
        moved
    }

    /// Pulls decrypted application bytes, at most `capacity` of them.
    ///
    /// No byte at all signals that the peer has closed, or that nothing has
    /// arrived yet. Where the session holds decrypted bytes, which is where
    /// it does not want to read, and `capacity` is not zero, at least one
    /// byte comes. Before the session is established there is nothing to
    /// pull, and the session is not asked.
    pub fn read_plaintext(&mut self, capacity: usize) -> (result: Result<Vec<u8>, EngineError>)
        requires
            old(self).wf(),
        ensures
            final(self).wf(),
            old(self).state() == EngineState::Handshaking <==> result is Err,
            result is Err ==> result == Err::<Vec<u8>, EngineError>(EngineError::NotEstablished)
                && final(self).session() == old(self).session() && final(self).received() == old(
                self,
            ).received(),
            result matches Ok(data) ==> data@.len() <= capacity && final(self).received() == old(
                self,
            ).received() + data@,
            old(self).state() != EngineState::Handshaking && !old(self).reported().wants_read
                && capacity > 0 ==> (result matches Ok(data) && data@.len() > 0),
            final(self).state() == old(self).state(),
            final(self).close_notifications() == old(self).close_notifications(),
            final(self).sent() == old(self).sent(),
            final(self).refusals() == old(self).refusals(),
            final(self).faults() == old(self).faults(),
    {
        if self.state == EngineState::Handshaking {
            return Err(EngineError::NotEstablished);
        }
        let data = match tls::read_plaintext(&mut self.session, capacity) {
            Some(bytes) => bytes,
            None => Vec::new(),
        };
        proof {
            self.received@ = self.received@ + data@;
        }
        Ok(data)
    }

    /// Stages application bytes for encryption and tells how many the
    /// session accepted. Nothing is transmitted before a `flush`.
    ///
    /// Only an established session takes application bytes; in any other
    /// state the session is not asked. An offer of which the session
    /// accepts nothing is counted as a refusal.
    pub fn write_plaintext(&mut self, bytes: &[u8]) -> (result: Result<usize, EngineError>)
        requires
            old(self).wf(),
        ensures
            final(self).wf(),
            old(self).state() != EngineState::Established ==> result == Err::<
                usize,
                EngineError,
            >(EngineError::NotEstablished) && final(self).session() == old(self).session()
                && final(self).sent() == old(self).sent(),
            old(self).state() == EngineState::Established ==> result == Ok::<usize, EngineError>(
                accepted_count(tls::accepts(old(self).session(), bytes@)),
            ),
            result matches Ok(n) ==> n <= bytes@.len() && final(self).sent() == old(self).sent()
                + bytes@.take(n as int),
            final(self).refusals() == old(self).refusals() + refusal_count(bytes@.len(), result),
            final(self).state() == old(self).state(),
            final(self).close_notifications() == old(self).close_notifications(),
            final(self).received() == old(self).received(),
            final(self).faults() == old(self).faults(),
    {
        if self.state != EngineState::Established {
            return Err(EngineError::NotEstablished);
        }
        let accepted: usize = match tls::write_plaintext(&mut self.session, bytes) {
            Some(n) => n,
            None => 0,
        };
        proof {
            self.sent@ = self.sent@ + bytes@.take(accepted as int);
            self.refused@ = self.refused@ + refusal_count(bytes@.len(), Ok(accepted));
        }
        Ok(accepted)
    }

    /// Starts the close sequence: queues the close-notification, unless one
    /// was queued or the session is over, and flushes into `out`. Tells
    /// whether this call queued the notification.
    ///
    /// After the first call further calls queue nothing. Unless the session
    /// is over, all that it held for the peer is in `out` afterwards. The
    /// caller writes `out` to the transport, shuts the transport down and
    /// calls `shutdown`.
    pub fn close(&mut self, out: &mut Vec<u8>) -> (queued: bool)
        requires
            old(self).wf(),
        ensures
            final(self).wf(),
            final(self).state() == state_after_close(old(self).state()),
            queued == close_queues(old(self).state()),
            final(self).close_notifications() == old(self).close_notifications() + if queued {
                1nat
            } else {
                0nat
            },
            old(self).state() == EngineState::Closed ==> final(self).session() == old(
                self,
            ).session() && final(out)@ == old(out)@,
            old(self).state() != EngineState::Closed ==> !final(self).reported().wants_write,
            old(out)@.is_prefix_of(final(out)@),
            final(self).sent() == old(self).sent(),
            final(self).received() == old(self).received(),
            final(self).refusals() == old(self).refusals(),
            final(self).faults() == old(self).faults(),
    {
        match self.state {
            EngineState::Closed => false,
            EngineState::Closing => {
                let _ = self.flush(out);
                false
            },
            _ => {
                tls::send_close_notify(&mut self.session);
                self.state = EngineState::Closing;
                self.notified = true;
                let _ = self.flush(out);
                true
            },
        }
    }

    /// Records that the transport is gone: shut down after a close, or failed.
    pub fn shutdown(&mut self)
        requires
            old(self).wf(),
        ensures
            final(self).wf(),
            final(self).state() == EngineState::Closed,
            final(self).session() == old(self).session(),
            final(self).close_notifications() == old(self).close_notifications(),
            final(self).sent() == old(self).sent(),
            final(self).received() == old(self).received(),
            final(self).refusals() == old(self).refusals(),
            final(self).faults() == old(self).faults(),
    {
        self.state = EngineState::Closed;
    }
}

} // verus!
