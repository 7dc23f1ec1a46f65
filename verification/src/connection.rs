//! One connection from handshake to teardown, as a machine that is polled.
//!
//! The machine owns the record engine and decides what happens next; whoever
//! owns the transport and the content performs it. `poll` names the next
//! action, and the caller answers with the matching event: `take_outbound`
//! after writing, `receive` after reading, `respond` and `body_chunk` with
//! what the content collaborator produced, `finish` after shutting the
//! transport down.

use vstd::prelude::*;
use crate::config::TlsConfiguration;
use crate::engine::handshake_step;
use crate::engine::EngineFault;
use crate::engine::EngineState;
use crate::engine::HandshakeStep;
use crate::engine::Readiness;
use crate::engine::RecordEngine;
use crate::request::parse_request;
use crate::request::pull_request_line;
use crate::request::request_verdict;
use crate::request::verdict_of;
use crate::request::ParsedRequest;
use crate::request::RequestError;
use crate::request::Verdict;
use crate::response::write_body;
use crate::response::write_header;
use crate::response::ResponseHeader;
use crate::response::WriteError;

verus! {

/// How far a connection has come.
#[derive(Clone, Copy, PartialEq, Eq, Structural, Debug)]
pub enum Stage {
    /// The TLS negotiation is under way.
    Handshake,
    /// The session is established and the request line is awaited.
    Request,
    /// The request is parsed; the content collaborator has to answer.
    Routing,
    /// The status line is staged; the body is being pulled.
    Body,
    /// The close sequence has begun; the transport is still to be shut down.
    Closing,
    /// The transport is shut down.
    Finished,
}

/// What the owner of the transport has to do next.
#[derive(Clone, Copy, PartialEq, Eq, Structural, Debug)]
pub enum Action {
    /// Write the bytes of `take_outbound` to the transport.
    Transmit,
    /// Read from the transport and hand the bytes to `receive`.
    Receive,
    /// Resolve the request and answer with `respond`, or with `body_failed`.
    Route,
    /// Pull the next chunk of the body and hand it to `body_chunk`.
    PullBody,
    /// Shut the transport down in both directions, then call `finish`.
    Shutdown,
    /// Nothing for the transport; poll again.
    Idle,
    /// The connection is over.
    Finished,
}

/// The next move once the handshake is over and nothing waits in the
/// outbound buffer.
#[derive(Clone, Copy, PartialEq, Eq, Structural, Debug)]
pub enum ExchangeStep {
    /// The session holds ciphertext: it is drained before anything else.
    Flush,
    /// Ciphertext from the peer is needed before a request can be read.
    Receive,
    /// Decrypted bytes are there: the request is read.
    ReadRequest,
    /// The content collaborator has to answer.
    Route,
    /// The next chunk of the body is wanted.
    PullBody,
    /// All is sent: the transport is shut down.
    Shutdown,
    /// The connection is over, or still in its handshake.
    Nothing,
}

/// Why a connection ended without a complete response.
#[derive(Debug)]
pub enum Fault {
    /// The transport failed, or the session could not take its bytes.
    Transport,
    /// The TLS packet processor reported a fault.
    Protocol(rustls::TLSError),
    /// The request line was turned down.
    Request(RequestError),
    /// The session stopped taking the response.
    Write(WriteError),
    /// The content collaborator could not produce the body.
    BodySource,
}

/// The rule after the handshake: pending output first; then, by stage, a read
/// while no decrypted byte is there, the request once one is, the content
/// collaborator's turn, and the shutdown at the end.
pub open spec fn exchange_step(stage: Stage, ready: Readiness) -> ExchangeStep {
    match stage {
        Stage::Handshake | Stage::Finished => ExchangeStep::Nothing,
        _ => if ready.wants_write {
            ExchangeStep::Flush
        } else {
            match stage {
                Stage::Request => if ready.wants_read {
                    ExchangeStep::Receive
                } else {
                    ExchangeStep::ReadRequest
                },
                Stage::Routing => ExchangeStep::Route,
                Stage::Body => ExchangeStep::PullBody,
                _ => ExchangeStep::Shutdown,
            }
        },
    }
}

/// Computes `exchange_step`.
pub fn next_exchange_step(stage: Stage, ready: Readiness) -> (step: ExchangeStep)
    ensures
        step == exchange_step(stage, ready),
{
    match stage {
        Stage::Handshake | Stage::Finished => ExchangeStep::Nothing,
        _ => if ready.wants_write {
            ExchangeStep::Flush
        } else {
            match stage {
                Stage::Request => if ready.wants_read {
                    ExchangeStep::Receive
                } else {
                    ExchangeStep::ReadRequest
                },
                Stage::Routing => ExchangeStep::Route,
                Stage::Body => ExchangeStep::PullBody,
                _ => ExchangeStep::Shutdown,
            }
        },
    }
}

/// The fault that a failed `receive` of the engine stands for.
pub fn fault_of(fault: EngineFault) -> (result: Fault)
    ensures
        fault is Transport ==> result is Transport,
        fault matches EngineFault::Protocol(e) ==> result == Fault::Protocol(e),
{
    match fault {
        EngineFault::Transport => Fault::Transport,
        EngineFault::Protocol(e) => Fault::Protocol(e),
    }
}

/// One connection: its engine, its stage, and what waits for the transport.
pub struct Connection {
    engine: RecordEngine,
    stage: Stage,
    outbound: Vec<u8>,
    request: Option<ParsedRequest>,
    fault: Option<Fault>,
}

impl Connection {
    /// The stage of the connection.
    pub closed spec fn stage(&self) -> Stage {
        self.stage
    }

    /// The record engine.
    pub closed spec fn engine(&self) -> RecordEngine {
        self.engine
    }

    /// The ciphertext that waits to be written to the transport.
    pub closed spec fn outbound(&self) -> Seq<u8> {
        self.outbound@
    }

    /// The URL of the request, once one is parsed.
    pub closed spec fn request(&self) -> Option<Seq<char>> {
        match self.request {
            Some(r) => Some(r@),
            None => None,
        }
    }

    /// The first fault met, if any.
    pub closed spec fn fault(&self) -> Option<Fault> {
        self.fault
    }

    /// The application bytes staged for the peer so far.
    pub open spec fn sent(&self) -> Seq<u8> {
        self.engine().sent()
    }

    /// The application bytes read from the peer so far.
    pub open spec fn received(&self) -> Seq<u8> {
        self.engine().received()
    }

    /// The connection's invariant. The stage and the engine's state agree;
    /// a request is held exactly from `Routing` on, and it is the verdict on
    /// the bytes received; nothing is staged for the peer before a request
    /// is held, nor before the content collaborator has answered.
    pub closed spec fn wf(&self) -> bool {
        &&& self.engine.wf()
        &&& self.stage == Stage::Handshake <==> self.engine.state() == EngineState::Handshaking
        &&& self.stage == Stage::Request || self.stage == Stage::Routing || self.stage
            == Stage::Body ==> self.engine.state() == EngineState::Established
        &&& self.stage == Stage::Closing ==> self.engine.state() == EngineState::Closing
            || self.engine.state() == EngineState::Closed
        &&& self.stage == Stage::Finished ==> self.engine.state() == EngineState::Closed
        &&& self.stage == Stage::Routing || self.stage == Stage::Body ==> self.request is Some
        &&& self.stage == Stage::Handshake || self.stage == Stage::Request ==> self.request is None
            && self.engine.received() == Seq::<u8>::empty()
        &&& self.stage == Stage::Routing ==> self.engine.sent() == Seq::<u8>::empty()
        &&& self.request is None ==> self.engine.sent() == Seq::<u8>::empty()
        &&& self.request matches Some(r) ==> request_verdict(self.engine.received())
            == Verdict::Accepted(r@)
    }

    /// The fault is the framer's refusal of `received`.
    pub open spec fn turned_down(fault: Option<Fault>, received: Seq<u8>) -> bool {
        match fault {
            Some(Fault::Request(e)) => verdict_of(Err(e)) == request_verdict(received),
            _ => false,
        }
    }

    /// What the start of the close sequence leaves behind on a session that
    /// was not closing: the close-notification is queued, once, and all that
    /// the session held for the peer waits in the outbound buffer.
    pub open spec fn closing_begun(before: Connection, after: Connection) -> bool {
        &&& after.stage() == Stage::Closing
        &&& after.engine().state() == EngineState::Closing
        &&& after.engine().close_notifications() == before.engine().close_notifications() + 1
        &&& !after.engine().reported().wants_write
    }

    /// What draining a session that wants to write leaves behind: its
    /// ciphertext waits in the outbound buffer, it wants to write no more,
    /// and nothing else has changed.
    pub open spec fn drained(before: Connection, after: Connection) -> bool {
        &&& after.stage() == before.stage()
        &&& after.outbound().len() > 0
        &&& after.request() == before.request()
        &&& after.fault() == before.fault()
        &&& after.engine().same_record(&before.engine())
        &&& !after.engine().reported().wants_write
    }

    /// What reading the request leaves behind. A request that is accepted
    /// is held, and the content collaborator is asked. Where no byte at all
    /// was pulled the peer has closed: the close sequence begins and no
    /// fault is noted. Where the bytes pulled are turned down, that is the
    /// fault noted, and the close sequence begins.
    pub open spec fn request_taken(before: Connection, after: Connection, action: Action) -> bool {
        ||| action == Action::Route && after.stage() == Stage::Routing && after.request() is Some
            && after.fault() == before.fault() && after.outbound() == before.outbound()
            && after.received().len() > 0
        ||| action == Action::Idle && after.received().len() == 0 && after.request() is None
            && after.fault() == before.fault() && Self::closing_begun(before, after)
        ||| action == Action::Idle && after.received().len() > 0 && after.request() is None
            && Self::turned_down(after.fault(), after.received()) && Self::closing_begun(
            before,
            after,
        )
    }

    /// What a poll does. A finished connection stays finished. Bytes that
    /// wait in the outbound buffer go first. Otherwise the session is asked
    /// what it reports, and the rule of the stage decides: `handshake_step`
    /// during the handshake, `exchange_step` after it. A session that wants
    /// to write is drained, and its bytes are to be transmitted, before
    /// anything is read. A poll stages nothing for the peer and the outbound
    /// buffer only grows.
    pub open spec fn polled(before: Connection, after: Connection, action: Action) -> bool {
        &&& after.wf()
        &&& after.sent() == before.sent()
        &&& before.outbound().is_prefix_of(after.outbound())
        &&& after.engine().faults() == before.engine().faults()
        &&& after.engine().refusals() == before.engine().refusals()
        &&& if before.stage() == Stage::Finished {
            action == Action::Finished && after == before
        } else if before.outbound().len() > 0 {
            action == Action::Transmit && after == before
        } else if before.stage() == Stage::Handshake {
            match handshake_step(before.engine().state(), before.engine().reported()) {
                HandshakeStep::Transmit => action == Action::Transmit && Self::drained(
                    before,
                    after,
                ),
                HandshakeStep::Receive => action == Action::Receive && after == before,
                HandshakeStep::Complete => action == Action::Idle && after.stage()
                    == Stage::Request && after.engine().state() == EngineState::Established
                    && after.engine().session() == before.engine().session() && after.fault()
                    == before.fault() && after.outbound() == before.outbound(),
                _ => action == Action::Idle && after == before,
            }
        } else {
            match exchange_step(before.stage(), before.engine().reported()) {
                ExchangeStep::Flush => action == Action::Transmit && Self::drained(before, after),
                ExchangeStep::Receive => action == Action::Receive && after == before,
                ExchangeStep::ReadRequest => Self::request_taken(before, after, action)
                    && after.received().len() > 0,
                ExchangeStep::Route => action == Action::Route && after == before,
                ExchangeStep::PullBody => action == Action::PullBody && after == before,
                ExchangeStep::Shutdown => action == Action::Shutdown && after == before,
                ExchangeStep::Nothing => action == Action::Idle && after == before,
            }
        }
    }

    /// What handing ciphertext to an open engine leaves behind, by what the
    /// session takes when it is offered all of `input`. A failed read is a
    /// fault and ends the session. A session that takes nothing is given up
    /// without a fault. Where it takes bytes, either a fault ends the
    /// session or none is met.
    pub open spec fn fed(before: Connection, after: Connection, input: Seq<u8>) -> bool {
        let met = after.engine().faults() == before.engine().faults() + 1 && after.stage()
            == Stage::Closing;
        let spared = after.engine().faults() == before.engine().faults() && after.fault()
            == before.fault();
        match crate::tls::takes(before.engine().session(), input) {
            None => met,
            Some(n) => if n == 0 {
                spared && after.stage() == Stage::Closing
            } else {
                met || spared
            },
        }
    }

    /// A connection over a new session under `config`.
    pub fn new(config: &TlsConfiguration) -> (connection: Connection)
        ensures
            connection.wf(),
            connection.stage() == Stage::Handshake,
            connection.outbound() == Seq::<u8>::empty(),
            connection.request() is None,
            connection.fault() is None,
            connection.sent() == Seq::<u8>::empty(),
            connection.received() == Seq::<u8>::empty(),
            connection.engine().close_notifications() == 0,
    {
        Connection {
            engine: RecordEngine::new(config),
            stage: Stage::Handshake,
            outbound: Vec::new(),
            request: None,
            fault: None,
        }
    }

    /// The stage of the connection.
    pub fn current_stage(&self) -> (stage: Stage)
        ensures
            stage == self.stage(),
    {
        self.stage
    }

    /// The request, once one is parsed.
    pub fn parsed_request(&self) -> (request: Option<&ParsedRequest>)
        ensures
            request is Some <==> self.request() is Some,
            request matches Some(r) ==> self.request() == Some(r@),
    {
        self.request.as_ref()
    }

    /// The first fault met, if any.
    pub fn first_fault(&self) -> (fault: Option<&Fault>)
        ensures
            fault is Some <==> self.fault() is Some,
            fault matches Some(f) ==> self.fault() == Some(*f),
    {
        self.fault.as_ref()
    }

    /// Keeps `fault` unless an earlier one is held.
    fn note(&mut self, fault: Fault)
        ensures
            final(self).fault == (if old(self).fault is Some {
                old(self).fault
            } else {
                Some(fault)
            }),
            final(self).engine == old(self).engine,
            final(self).stage == old(self).stage,
            final(self).outbound == old(self).outbound,
            final(self).request == old(self).request,
    {
        if self.fault.is_none() {
            self.fault = Some(fault);
        }
    }

    /// Begins the close sequence: the engine queues its close-notification,
    /// if it has to, and what it flushes joins the outbound buffer.
    fn start_close(&mut self)
        requires
            old(self).engine.wf(),
        ensures
            final(self).engine.wf(),
            final(self).stage == Stage::Closing,
            final(self).engine.state() == EngineState::Closing || final(self).engine.state()
                == EngineState::Closed,
            old(self).engine.state() == EngineState::Established || old(self).engine.state()
                == EngineState::Handshaking ==> Self::closing_begun(*old(self), *final(self)),
            final(self).engine.sent() == old(self).engine.sent(),
            final(self).engine.received() == old(self).engine.received(),
            final(self).engine.refusals() == old(self).engine.refusals(),
            final(self).engine.faults() == old(self).engine.faults(),
            old(self).outbound@.is_prefix_of(final(self).outbound@),
            final(self).request == old(self).request,
            final(self).fault == old(self).fault,
    {
        let _ = self.engine.close(&mut self.outbound);
        self.stage = Stage::Closing;
    }

    /// Drains the session into the outbound buffer.
    fn drain(&mut self) -> (action: Action)
        requires
            old(self).engine.wf(),
            old(self).outbound@.len() == 0,
        ensures
            final(self).engine.same_record(&old(self).engine),
            final(self).engine.wf(),
            !final(self).engine.reported().wants_write,
            old(self).engine.reported().wants_write ==> action == Action::Transmit
                && final(self).outbound@.len() > 0,
            !old(self).engine.reported().wants_write ==> action == Action::Idle && *final(self)
                == *old(self),
            final(self).stage == old(self).stage,
            final(self).request == old(self).request,
            final(self).fault == old(self).fault,
    {
        let ready = self.engine.readiness();
        if ready.wants_write {
            let _ = self.engine.flush(&mut self.outbound);
            Action::Transmit
        } else {
            Action::Idle
        }
    }

    /// Reads the request and moves on: to the content collaborator with a
    /// request, into the close sequence without one.
    fn take_request(&mut self) -> (action: Action)
        requires
            old(self).wf(),
            old(self).stage == Stage::Request,
            old(self).outbound@.len() == 0,
        ensures
            final(self).wf(),
            Self::request_taken(*old(self), *final(self), action),
            !old(self).engine.reported().wants_read ==> final(self).received().len() > 0,
            final(self).sent() == old(self).sent(),
            old(self).outbound().is_prefix_of(final(self).outbound()),
            final(self).engine.faults() == old(self).engine.faults(),
            final(self).engine.refusals() == old(self).engine.refusals(),
    {
        let data = pull_request_line(&mut self.engine);
        proof {
            assert(Seq::<u8>::empty() + data@ =~= data@);
        }
        if data.len() == 0 {
            self.start_close();
            return Action::Idle;
        }
        match parse_request(data.as_slice()) {
            Ok(request) => {
                self.request = Some(request);
                self.stage = Stage::Routing;
                Action::Route
            },
            Err(e) => {
                self.fault = Some(Fault::Request(e));
                self.start_close();
                Action::Idle
            },
        }
    }

    /// Decides what happens next.
    ///
    /// The decision follows `handshake_step` during the handshake and
    /// `exchange_step` after it, on what the session reports at that moment.
    /// Steps that need no transport are taken at once and reported as
    /// `Idle`: the completion of the handshake, and a request that was
    /// turned down or did not come, which begins the close sequence.
    pub fn poll(&mut self) -> (action: Action)
        requires
            old(self).wf(),
        ensures
            Self::polled(*old(self), *final(self), action),
    {
        if self.stage == Stage::Finished {
            return Action::Finished;
        }
        if self.outbound.len() > 0 {
            return Action::Transmit;
        }
        if self.stage == Stage::Handshake {
            match self.engine.advance_handshake() {
                HandshakeStep::Transmit => self.drain(),
                HandshakeStep::Receive => Action::Receive,
                HandshakeStep::Complete => {
                    self.stage = Stage::Request;
                    Action::Idle
                },
                _ => Action::Idle,
            }
        } else {
            let ready = self.engine.readiness();
            match next_exchange_step(self.stage, ready) {
                ExchangeStep::Flush => self.drain(),
                ExchangeStep::Receive => Action::Receive,
                ExchangeStep::ReadRequest => self.take_request(),
                ExchangeStep::Route => Action::Route,
                ExchangeStep::PullBody => Action::PullBody,
                ExchangeStep::Shutdown => Action::Shutdown,
                ExchangeStep::Nothing => Action::Idle,
            }
        }
    }

    /// Hands over the ciphertext that waits for the transport and empties
    /// the outbound buffer.
    pub fn take_outbound(&mut self) -> (bytes: Vec<u8>)
        requires
            old(self).wf(),
        ensures
            final(self).wf(),
            bytes@ == old(self).outbound(),
            final(self).outbound() == Seq::<u8>::empty(),
            final(self).stage() == old(self).stage(),
            final(self).engine() == old(self).engine(),
            final(self).request() == old(self).request(),
            final(self).fault() == old(self).fault(),
    {
        let mut bytes: Vec<u8> = Vec::new();
        bytes.append(&mut self.outbound);
        proof {
            assert(bytes@ =~= old(self).outbound@);
        }
        bytes
    }

    /// Takes what a read from the transport gave.
    ///
    /// While the handshake or the request is awaited the bytes go to the
    /// engine. An empty `input` is the peer closing: the connection goes into
    /// its close sequence, and no fault is noted. Where the engine gives the
    /// session up, the connection goes into its close sequence too, and
    /// every fault of the engine is noted, unless an earlier fault is held.
    /// In every other stage the input is ignored.
    pub fn receive(&mut self, input: &[u8])
        requires
            old(self).wf(),
        ensures
            final(self).wf(),
            final(self).sent() == old(self).sent(),
            final(self).received() == old(self).received(),
            final(self).request() == old(self).request(),
            final(self).outbound() == old(self).outbound(),
            final(self).engine().close_notifications() == old(
                self,
            ).engine().close_notifications(),
            old(self).stage() == Stage::Handshake || old(self).stage() == Stage::Request ==> {
                ||| final(self).stage() == old(self).stage() && final(self).fault() == old(
                    self,
                ).fault() && input@.len() > 0
                ||| final(self).stage() == Stage::Closing && final(self).engine().state()
                    == EngineState::Closed
            },
            (old(self).stage() == Stage::Handshake || old(self).stage() == Stage::Request)
                && input@.len() == 0 ==> final(self).fault() == old(self).fault(),
            (old(self).stage() == Stage::Handshake || old(self).stage() == Stage::Request)
                && input@.len() > 0 ==> Self::fed(*old(self), *final(self), input@),
            final(self).engine().faults() == old(self).engine().faults()
                || final(self).engine().faults() == old(self).engine().faults() + 1,
            final(self).engine().faults() > old(self).engine().faults() ==> final(self).fault()
                is Some && final(self).stage() == Stage::Closing,
            final(self).engine().faults() == old(self).engine().faults() ==> final(self).fault()
                == old(self).fault(),
            final(self).engine().refusals() == old(self).engine().refusals(),
            !(old(self).stage() == Stage::Handshake || old(self).stage() == Stage::Request)
                ==> *final(self) == *old(self),
    {
        if self.stage == Stage::Handshake || self.stage == Stage::Request {
            let result = self.engine.receive(input);
            match result {
                Ok(_) => {},
                Err(fault) => {
                    self.note(fault_of(fault));
                },
            }
            if self.engine.current_state() == EngineState::Closed {
                self.stage = Stage::Closing;
            }
        }
    }

    /// Takes note that the transport failed. The session is given up, what
    /// waited to be written is dropped, and only the shutdown is left to do.
    pub fn transport_failed(&mut self)
        requires
            old(self).wf(),
        ensures
            final(self).wf(),
            final(self).sent() == old(self).sent(),
            final(self).received() == old(self).received(),
            final(self).request() == old(self).request(),
            final(self).engine().close_notifications() == old(
                self,
            ).engine().close_notifications(),
            old(self).stage() == Stage::Finished ==> *final(self) == *old(self),
            old(self).stage() != Stage::Finished ==> final(self).stage() == Stage::Closing
                && final(self).engine().state() == EngineState::Closed && final(self).outbound()
                == Seq::<u8>::empty() && final(self).fault() is Some,
            old(self).fault() is Some ==> final(self).fault() == old(self).fault(),
    {
        if self.stage != Stage::Finished {
            self.note(Fault::Transport);
            self.engine.shutdown();
            self.outbound.clear();
            self.stage = Stage::Closing;
        }
    }

    /// Takes the content collaborator's status line.
    ///
    /// With a request held and no answer given yet, the line is staged and
    /// the body is awaited, unless the session refuses an offer of bytes:
    /// then the fault is noted and the close sequence begins. In every other
    /// stage the call does nothing.
    pub fn respond(&mut self, header: &ResponseHeader)
        requires
            old(self).wf(),
        ensures
            final(self).wf(),
            final(self).received() == old(self).received(),
            final(self).request() == old(self).request(),
            old(self).outbound().is_prefix_of(final(self).outbound()),
            old(self).stage() != Stage::Routing ==> *final(self) == *old(self),
            old(self).stage() == Stage::Routing ==> {
                ||| final(self).stage() == Stage::Body && final(self).sent() == old(self).sent()
                    + header.line() && final(self).fault() == old(self).fault()
                    && final(self).engine().refusals() == old(self).engine().refusals()
                ||| Self::closing_begun(*old(self), *final(self)) && final(self).fault() is Some
                    && final(self).engine().refusals() == old(self).engine().refusals() + 1
                    && exists|staged: int|
                    0 <= staged < header.line().len() && final(self).sent() == old(self).sent()
                        + #[trigger] header.line().take(staged)
            },
    {
        if self.stage == Stage::Routing {
            match write_header(&mut self.engine, header, &mut self.outbound) {
                Ok(_) => {
                    self.stage = Stage::Body;
                },
                Err(e) => {
                    self.note(Fault::Write(e));
                    self.start_close();
                },
            }
        }
    }

    /// Takes the next chunk of the body.
    ///
    /// While the body is awaited, an empty chunk ends it and begins the close
    /// sequence; any other chunk is staged, in pieces of at most `CHUNK_LEN`
    /// bytes, and more is awaited, unless the session refuses an offer of
    /// bytes: then the fault is noted and the close sequence begins. In
    /// every other stage the call does nothing.
    pub fn body_chunk(&mut self, chunk: &[u8])
        requires
            old(self).wf(),
        ensures
            final(self).wf(),
            final(self).received() == old(self).received(),
            final(self).request() == old(self).request(),
            old(self).outbound().is_prefix_of(final(self).outbound()),
            old(self).stage() != Stage::Body ==> *final(self) == *old(self),
            old(self).stage() == Stage::Body && chunk@.len() == 0 ==> Self::closing_begun(
                *old(self),
                *final(self),
            ) && final(self).sent() == old(self).sent() && final(self).fault() == old(
                self,
            ).fault() && final(self).engine().refusals() == old(self).engine().refusals(),
            old(self).stage() == Stage::Body && chunk@.len() > 0 ==> {
                ||| final(self).stage() == Stage::Body && final(self).sent() == old(self).sent()
                    + chunk@ && final(self).fault() == old(self).fault()
                    && final(self).engine().refusals() == old(self).engine().refusals()
                ||| Self::closing_begun(*old(self), *final(self)) && final(self).fault() is Some
                    && final(self).engine().refusals() == old(self).engine().refusals() + 1
                    && exists|staged: int|
                    0 <= staged < chunk@.len() && final(self).sent() == old(self).sent()
                        + #[trigger] chunk@.take(staged)
            },
    {
        if self.stage == Stage::Body {
            if chunk.len() == 0 {
                self.start_close();
            } else {
                match write_body(&mut self.engine, chunk, &mut self.outbound) {
                    Ok(_) => {},
                    Err(e) => {
                        self.note(Fault::Write(e));
                        self.start_close();
                    },
                }
            }
        }
    }

    /// Takes note that the content collaborator failed. With a request held
    /// the fault is noted and the close sequence begins, so that the session
    /// still ends with its close-notification. In every other stage the call
    /// does nothing.
    pub fn body_failed(&mut self)
        requires
            old(self).wf(),
        ensures
            final(self).wf(),
            final(self).sent() == old(self).sent(),
            final(self).received() == old(self).received(),
            final(self).request() == old(self).request(),
            old(self).outbound().is_prefix_of(final(self).outbound()),
            old(self).stage() == Stage::Routing || old(self).stage() == Stage::Body
                ==> Self::closing_begun(*old(self), *final(self)) && final(self).fault() is Some
                && final(self).engine().refusals() == old(self).engine().refusals(),
            old(self).fault() is Some ==> final(self).fault() == old(self).fault(),
            !(old(self).stage() == Stage::Routing || old(self).stage() == Stage::Body)
                ==> *final(self) == *old(self),
    {
        if self.stage == Stage::Routing || self.stage == Stage::Body {
            self.note(Fault::BodySource);
            self.start_close();
        }
    }

    /// Takes note that the transport is shut down: the connection is over.
    pub fn finish(&mut self)
        requires
            old(self).wf(),
        ensures
            final(self).wf(),
            final(self).stage() == Stage::Finished,
            final(self).engine().state() == EngineState::Closed,
            final(self).sent() == old(self).sent(),
            final(self).received() == old(self).received(),
            final(self).request() == old(self).request(),
            final(self).fault() == old(self).fault(),
            final(self).outbound() == old(self).outbound(),
            final(self).engine().close_notifications() == old(
                self,
            ).engine().close_notifications(),
    {
        self.engine.shutdown();
        self.stage = Stage::Finished;
    }
}

/// Without a request nothing is ever staged for the peer, and a request is
/// held only where the bytes received were accepted: bytes that the framer
/// turns down lead to no response.
pub proof fn lemma_no_request_no_response(connection: Connection)
    requires
        connection.wf(),
    ensures
        connection.request() is None ==> connection.sent() == Seq::<u8>::empty(),
        connection.request() matches Some(url) ==> request_verdict(connection.received())
            == Verdict::Accepted(url),
        !(request_verdict(connection.received()) is Accepted) ==> connection.request() is None
            && connection.sent() == Seq::<u8>::empty(),
{
}

/// The stage tells the engine's state: the handshake is the only stage of a
/// negotiating session, a response is written only on an established one, and
/// a finished connection has a closed session.
pub proof fn lemma_stage_fits_engine(connection: Connection)
    requires
        connection.wf(),
    ensures
        connection.engine().wf(),
        connection.stage() == Stage::Handshake <==> connection.engine().state()
            == EngineState::Handshaking,
        connection.stage() == Stage::Request || connection.stage() == Stage::Routing
            || connection.stage() == Stage::Body ==> connection.engine().state()
            == EngineState::Established,
        connection.stage() == Stage::Closing ==> connection.engine().state()
            == EngineState::Closing || connection.engine().state() == EngineState::Closed,
        connection.stage() == Stage::Finished ==> connection.engine().state()
            == EngineState::Closed,
{
}

/// What each stage holds: before a request is read none is held, nothing
/// was pulled from the peer and nothing is staged for it; while the content
/// collaborator has not answered a request is held and still nothing is
/// staged; while the body is written a request is held.
pub proof fn lemma_stage_fits_exchange(connection: Connection)
    requires
        connection.wf(),
    ensures
        connection.stage() == Stage::Handshake || connection.stage() == Stage::Request
            ==> connection.request() is None && connection.received() == Seq::<u8>::empty()
            && connection.sent() == Seq::<u8>::empty(),
        connection.stage() == Stage::Routing ==> connection.request() is Some
            && connection.sent() == Seq::<u8>::empty(),
        connection.stage() == Stage::Body ==> connection.request() is Some,
{
}

} // verus!
