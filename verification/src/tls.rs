//! The boundary to the TLS implementation.
//!
//! The session is opaque to the verifier. What it answers is a function of
//! the session, and each answer has a name here; the functions below make
//! one call each and state what the call gives in terms of those names.
//! None of these statements is proved.

use rustls::Session;
use std::io::Read;
use std::io::Write;
use std::sync::Arc;
use vstd::prelude::*;

verus! {

#[verifier::external_type_specification]
#[verifier::external_body]
pub struct ExServerSession(rustls::ServerSession);

#[verifier::external_type_specification]
#[verifier::external_body]
pub struct ExServerConfig(rustls::ServerConfig);

#[verifier::external_type_specification]
#[verifier::external_body]
pub struct ExTlsError(rustls::TLSError);

/// The size to which a configuration limits the fragments that its sessions
/// send, `None` where it sets no limit.
pub uninterp spec fn fragment_limit(config: rustls::ServerConfig) -> Option<usize>;

/// Whether the session cuts what it sends into fragments of the protocol's
/// own size: whether it was made under a configuration without a limit.
pub uninterp spec fn fragments_by_default(session: rustls::ServerSession) -> bool;

/// Whether the session reports that its handshake is not complete.
pub uninterp spec fn reports_handshaking(session: rustls::ServerSession) -> bool;

/// Whether the session reports that it can take ciphertext: it does while it
/// holds no decrypted byte that was not read.
pub uninterp spec fn reports_wants_read(session: rustls::ServerSession) -> bool;

/// Whether the session reports that it holds ciphertext for the peer.
pub uninterp spec fn reports_wants_write(session: rustls::ServerSession) -> bool;

/// How many bytes of `input` the session takes when it is offered them as
/// ciphertext, `None` where the read fails.
pub uninterp spec fn takes(session: rustls::ServerSession, input: Seq<u8>) -> Option<usize>;

/// How many of `bytes` the session accepts for encryption when it is offered
/// them, `None` where the write fails.
pub uninterp spec fn accepts(session: rustls::ServerSession, bytes: Seq<u8>) -> Option<usize>;

/// Calls `rustls::ServerSession::new`.
///
/// Trusted: under a configuration without a fragment limit the session
/// fragments by the protocol's own size. A limit is left out because a
/// session under a limit of zero panics when it sends.
#[verifier::external_body]
pub(crate) fn open_session(config: &Arc<rustls::ServerConfig>) -> (session: rustls::ServerSession)
    requires
        fragment_limit(**config) is None,
    ensures
        fragments_by_default(session),
{
    rustls::ServerSession::new(config)
}

/// Calls `Session::is_handshaking`.
///
/// Trusted: the answer is `reports_handshaking` of the session.
#[verifier::external_body]
pub(crate) fn is_handshaking(session: &rustls::ServerSession) -> (answer: bool)
    ensures
        answer == reports_handshaking(*session),
{
    session.is_handshaking()
}

/// Calls `Session::wants_read`.
///
/// Trusted: the answer is `reports_wants_read` of the session.
#[verifier::external_body]
pub(crate) fn wants_read(session: &rustls::ServerSession) -> (answer: bool)
    ensures
        answer == reports_wants_read(*session),
{
    session.wants_read()
}

/// Calls `Session::wants_write`.
///
/// Trusted: the answer is `reports_wants_write` of the session.
#[verifier::external_body]
pub(crate) fn wants_write(session: &rustls::ServerSession) -> (answer: bool)
    ensures
        answer == reports_wants_write(*session),
{
    session.wants_write()
}

/// Calls `Session::read_tls` with `input` as the reader.
///
/// Trusted: the count is `takes` of the session and the input, and the
/// session takes no more bytes than the reader holds. A slice never fails
/// as a reader, so `None` is not expected.
#[verifier::external_body]
pub(crate) fn read_tls(session: &mut rustls::ServerSession, input: &[u8]) -> (taken: Option<usize>)
    ensures
        taken == takes(*old(session), input@),
        taken matches Some(n) ==> n <= input@.len(),
        fragments_by_default(*final(session)) == fragments_by_default(*old(session)),
{
    let mut reader: &[u8] = input;
    session.read_tls(&mut reader).ok()
}

/// Calls `Session::process_new_packets`.
///
/// Trusted: the size of the session's fragments stays. Nothing is claimed
/// of the outcome. The call is made only on a session that fragments by the
/// protocol's own size, as the answers it queues are cut into fragments.
#[verifier::external_body]
pub(crate) fn process_new_packets(session: &mut rustls::ServerSession) -> (outcome: Result<
    (),
    rustls::TLSError,
>)
    requires
        fragments_by_default(*old(session)),
    ensures
        fragments_by_default(*final(session)),
{
    session.process_new_packets()
}

/// Calls `Session::write_tls` with `out` as the writer.
///
/// Trusted: a vector as writer is only appended to, and the count returned
/// is the number of bytes appended. A vector takes all that the session
/// holds: afterwards the session wants to write no more, and where it wanted
/// to write, bytes were appended. A vector never fails as a writer, so
/// `None` is not expected.
#[verifier::external_body]
pub(crate) fn write_tls(session: &mut rustls::ServerSession, out: &mut Vec<u8>) -> (written:
    Option<usize>)
    ensures
        old(out)@.is_prefix_of(final(out)@),
        written matches Some(n) ==> final(out)@.len() == old(out)@.len() + n,
        reports_wants_write(*old(session)) ==> (written matches Some(n) && n > 0),
        !reports_wants_write(*final(session)),
        fragments_by_default(*final(session)) == fragments_by_default(*old(session)),
{
    session.write_tls(out).ok()
}

/// Calls `std::io::Read::read` on the session with a buffer of `capacity`
/// bytes and keeps the bytes read.
///
/// Trusted: no more bytes come back than the buffer holds, and at least one
/// does where the buffer has room and the session holds decrypted bytes,
/// which is where it does not want to read. `None` stands for the session's
/// error, which it gives once the peer has announced the end of its data
/// and all of it has been read.
#[verifier::external_body]
pub(crate) fn read_plaintext(session: &mut rustls::ServerSession, capacity: usize) -> (data: Option<
    Vec<u8>,
>)
    ensures
        data matches Some(bytes) ==> bytes@.len() <= capacity,
        !reports_wants_read(*old(session)) && capacity > 0 ==> (data matches Some(bytes)
            && bytes@.len() > 0),
        fragments_by_default(*final(session)) == fragments_by_default(*old(session)),
{
    let mut buffer = vec![0u8; capacity];
    match session.read(&mut buffer) {
        Ok(n) => {
            buffer.truncate(n);
            Some(buffer)
        },
        Err(_) => None,
    }
}

/// Calls `std::io::Write::write` on the session.
///
/// Trusted: the count is `accepts` of the session and the bytes, and the
/// session accepts no more bytes than it is offered. The call is made only
/// on a session that fragments by the protocol's own size, as the bytes are
/// cut into fragments.
#[verifier::external_body]
pub(crate) fn write_plaintext(session: &mut rustls::ServerSession, bytes: &[u8]) -> (accepted:
    Option<usize>)
    requires
        fragments_by_default(*old(session)),
    ensures
        accepted == accepts(*old(session), bytes@),
        accepted matches Some(n) ==> n <= bytes@.len(),
        fragments_by_default(*final(session)),
{
    session.write(bytes).ok()
}

/// Calls `Session::send_close_notify`.
///
/// Trusted: the size of the session's fragments stays. The call is made
/// only on a session that fragments by the protocol's own size, as the
/// notification is cut into fragments.
#[verifier::external_body]
pub(crate) fn send_close_notify(session: &mut rustls::ServerSession)
    requires
        fragments_by_default(*old(session)),
    ensures
        fragments_by_default(*final(session)),
{
    session.send_close_notify()
}

} // verus!
