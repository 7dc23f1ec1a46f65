//! The response writer: the status line and the body, staged through the
//! record engine in bounded chunks.

use vstd::prelude::*;
use vstd::slice::slice_subrange;
use vstd::string::StringSliceAdditionalSpecFns;
use crate::engine::EngineState;
use crate::engine::RecordEngine;
use crate::request::CR;
use crate::request::LF;

verus! {

/// The capacity of the transfer buffer: the most bytes staged at a time.
pub const CHUNK_LEN: usize = 1024;

/// The byte between the status and the meta string.
pub const SPACE: u8 = 32;

/// The ASCII digit `0`.
pub const DIGIT_ZERO: u8 = 48;

/// The status of a successful response.
pub const STATUS_SUCCESS: u8 = 20;

/// Why a write through the engine stopped.
#[derive(Clone, Copy, PartialEq, Eq, Structural, Debug)]
pub enum WriteError {
    /// The session is not, or no longer, established.
    NotEstablished,
    /// The session took none of the bytes offered.
    Stalled,
}

/// The status line of a response: a two-digit status and a meta string.
#[derive(Debug)]
pub struct ResponseHeader {
    status: u8,
    meta: String,
}

/// A status is written with two digits.
pub open spec fn two_digits(status: u8) -> bool {
    10 <= status <= 99
}

/// No byte is a carriage return or a line feed.
pub open spec fn line_break_free(bytes: Seq<u8>) -> bool {
    forall|i: int| 0 <= i < bytes.len() ==> bytes[i] != CR && bytes[i] != LF
}

/// A meta string stays on its line: written as UTF-8 it holds no carriage
/// return and no line feed.
pub open spec fn valid_meta(meta: Seq<char>) -> bool {
    line_break_free(vstd::utf8::encode_utf8(meta))
}

/// The status line on the wire: both digits, a space, the meta string and
/// the terminator.
pub open spec fn status_line(status: u8, meta: Seq<char>) -> Seq<u8> {
    seq![(DIGIT_ZERO + status / 10) as u8, (DIGIT_ZERO + status % 10) as u8, SPACE]
        + vstd::utf8::encode_utf8(meta) + seq![CR, LF]
}

/// A whole response on the wire: the status line, then the body with no
/// further framing.
pub open spec fn response_bytes(status: u8, meta: Seq<char>, body: Seq<u8>) -> Seq<u8> {
    status_line(status, meta) + body
}

/// Where the chunk that starts at `offset` ends in a body of `len` bytes.
pub open spec fn chunk_end(offset: nat, len: nat) -> nat {
    if len - offset <= CHUNK_LEN {
        len
    } else {
        offset + CHUNK_LEN as nat
    }
}

/// Tells whether `bytes` holds neither a carriage return nor a line feed.
pub fn no_line_break(bytes: &[u8]) -> (clean: bool)
    ensures
        clean == line_break_free(bytes@),
{
    let mut index: usize = 0;
    while index < bytes.len()
        invariant
            index <= bytes@.len(),
            line_break_free(bytes@.take(index as int)),
        decreases bytes@.len() - index,
    {
        if bytes[index] == CR || bytes[index] == LF {
            return false;
        }
        index = index + 1;
    }
    proof {
        assert(bytes@.take(index as int) =~= bytes@);
    }
    true
}

impl ResponseHeader {
    /// The status code.
    pub closed spec fn status(&self) -> u8 {
        self.status
    }

    /// The meta string.
    pub closed spec fn meta(&self) -> Seq<char> {
        self.meta@
    }

    /// Every header has a status of two digits and a meta string that
    /// stays on its line.
    #[verifier::type_invariant]
    spec fn fits_one_line(self) -> bool {
        two_digits(self.status) && valid_meta(self.meta@)
    }

    /// The status line of this header on the wire.
    pub open spec fn line(&self) -> Seq<u8> {
        status_line(self.status(), self.meta())
    }

    /// A header, where `status` has two digits and `meta` holds no line
    /// break.
    pub fn new(status: u8, meta: String) -> (header: Option<ResponseHeader>)
        ensures
            header is Some <==> two_digits(status) && valid_meta(meta@),
            header matches Some(h) ==> h.status() == status && h.meta() == meta@,
    {
        if 10 <= status && status <= 99 && no_line_break(meta.as_str().as_bytes()) {
            Some(ResponseHeader { status, meta })
        } else {
            None
        }
    }

    /// The header of a successful response with the given meta string,
    /// where that holds no line break.
    pub fn success(meta: String) -> (header: Option<ResponseHeader>)
        ensures
            header is Some <==> valid_meta(meta@),
            header matches Some(h) ==> h.status() == STATUS_SUCCESS && h.meta() == meta@,
    {
        Self::new(STATUS_SUCCESS, meta)
    }

    /// The status code.
    pub fn status_code(&self) -> (status: u8)
        ensures
            status == self.status(),
            two_digits(status),
    {
        proof {
            use_type_invariant(self);
        }
        self.status
    }

    /// The meta string.
    pub fn meta_text(&self) -> (meta: &str)
        ensures
            meta@ == self.meta(),
    {
        self.meta.as_str()
    }

    /// Serialises the status line.
    pub fn to_bytes(&self) -> (bytes: Vec<u8>)
        ensures
            bytes@ == self.line(),
            two_digits(self.status()),
            valid_meta(self.meta()),
    {
        proof {
            use_type_invariant(self);
        }
        let mut bytes: Vec<u8> = Vec::new();
        bytes.push(DIGIT_ZERO + self.status / 10);
        bytes.push(DIGIT_ZERO + self.status % 10);
        bytes.push(SPACE);
        let head = Ghost(bytes@);
        let meta = self.meta.as_str();
        let text = meta.as_bytes();
        bytes.extend_from_slice(text);
        let body = Ghost(bytes@);
        bytes.push(CR);
        bytes.push(LF);
        proof {
            assert(head@ =~= seq![
                (DIGIT_ZERO + self.status / 10) as u8,
                (DIGIT_ZERO + self.status % 10) as u8,
                SPACE,
            ]);
            assert(text@ == meta.spec_bytes());
            assert(meta.spec_bytes() == vstd::utf8::encode_utf8(meta@));
            assert(body@ =~= head@ + text@);
            assert(bytes@ =~= body@ + seq![CR, LF]);
        }
        bytes
    }
}

/// The status line of a well-formed header starts with two ASCII digits and
/// a space and ends in the terminator.
pub proof fn lemma_status_line_shape(status: u8, meta: Seq<char>)
    requires
        two_digits(status),
    ensures
        status_line(status, meta).len() == 5 + vstd::utf8::encode_utf8(meta).len(),
        DIGIT_ZERO + 1 <= status_line(status, meta)[0] <= DIGIT_ZERO + 9,
        DIGIT_ZERO <= status_line(status, meta)[1] <= DIGIT_ZERO + 9,
        (status_line(status, meta)[0] - DIGIT_ZERO) * 10 + (status_line(status, meta)[1]
            - DIGIT_ZERO) == status,
        status_line(status, meta)[2] == SPACE,
        crate::request::well_formed(status_line(status, meta)),
{
    let line = status_line(status, meta);
    let text = vstd::utf8::encode_utf8(meta);
    let head = seq![(DIGIT_ZERO + status / 10) as u8, (DIGIT_ZERO + status % 10) as u8, SPACE];
    assert(head.len() == 3);
    assert(line.len() == 5 + text.len());
    assert(line[0] == head[0]);
    assert(line[1] == head[1]);
    assert(line[2] == head[2]);
    assert(line[line.len() - 2] == CR);
    assert(line[line.len() - 1] == LF);
}

/// The status line of a well-formed header holds one terminator, at its
/// end: no byte before it is a carriage return or a line feed.
pub proof fn lemma_one_terminator(status: u8, meta: Seq<char>)
    requires
        two_digits(status),
        valid_meta(meta),
    ensures
        line_break_free(status_line(status, meta).take(status_line(status, meta).len() - 2)),
{
    let line = status_line(status, meta);
    let text = vstd::utf8::encode_utf8(meta);
    let head = seq![(DIGIT_ZERO + status / 10) as u8, (DIGIT_ZERO + status % 10) as u8, SPACE];
    let front = line.take(line.len() - 2);
    assert(front =~= head + text);
    assert forall|i: int| 0 <= i < front.len() implies front[i] != CR && front[i] != LF by {
        if i < 3 {
            assert(front[i] == head[i]);
        } else {
            assert(front[i] == text[i - 3]);
        }
    }
}

/// The chunk of `body` that starts at `offset`: the rest of the body, or
/// `CHUNK_LEN` bytes of it where the rest is longer. At or past the end of
/// the body the chunk is empty.
pub fn next_chunk(body: &[u8], offset: usize) -> (chunk: &[u8])
    ensures
        offset <= body@.len() ==> chunk@ == body@.subrange(
            offset as int,
            chunk_end(offset as nat, body@.len()) as int,
        ),
        offset >= body@.len() ==> chunk@ == Seq::<u8>::empty(),
        chunk@.len() <= CHUNK_LEN,
        offset < body@.len() ==> chunk@.len() > 0,
{
    if offset >= body.len() {
        slice_subrange(body, body.len(), body.len())
    } else if body.len() - offset <= CHUNK_LEN {
        slice_subrange(body, offset, body.len())
    } else {
        slice_subrange(body, offset, offset + CHUNK_LEN)
    }
}

/// Where staging stands after the session accepted `accepted` bytes of an
/// offer that began at `offset`: stalled where it took none, else at the
/// offset behind what it took.
pub open spec fn accept_step(offset: usize, accepted: usize) -> Result<usize, WriteError> {
    if accepted == 0 {
        Err(WriteError::Stalled)
    } else {
        Ok((offset + accepted) as usize)
    }
}

/// Computes `accept_step` for `len` bytes to stage, of which the session
/// can have accepted no more than were left.
pub fn after_accept(offset: usize, len: usize, accepted: usize) -> (next: Result<usize, WriteError>)
    requires
        offset <= len,
        accepted <= len - offset,
    ensures
        next == accept_step(offset, accepted),
        next matches Ok(at) ==> offset < at <= len,
{
    if accepted == 0 {
        Err(WriteError::Stalled)
    } else {
        Ok(offset + accepted)
    }
}

/// What a write of `bytes` through the engine leaves behind, for each
/// result.
///
/// The write succeeds exactly where the session is established, or there
/// is nothing to write, and the session refuses no offer; then all of
/// `bytes` is staged. It fails with `NotEstablished`, and stages nothing,
/// exactly where there are bytes and the session is not established. It
/// fails with `Stalled` exactly where the session refuses an offer; then a
/// proper prefix of `bytes` is staged. The state, the close-notifications,
/// the bytes received and the faults stay as they were.
pub open spec fn written(
    before: RecordEngine,
    after: RecordEngine,
    bytes: Seq<u8>,
    result: Result<(), WriteError>,
) -> bool {
    &&& after.wf()
    &&& after.state() == before.state()
    &&& after.close_notifications() == before.close_notifications()
    &&& after.received() == before.received()
    &&& after.faults() == before.faults()
    &&& result is Ok <==> (before.state() == EngineState::Established || bytes.len() == 0)
        && after.refusals() == before.refusals()
    &&& result == Err::<(), WriteError>(WriteError::NotEstablished) <==> before.state()
        != EngineState::Established && bytes.len() > 0
    &&& result == Err::<(), WriteError>(WriteError::Stalled) <==> after.refusals()
        == before.refusals() + 1
    &&& after.refusals() == before.refusals() || after.refusals() == before.refusals() + 1
    &&& result is Ok ==> after.sent() == before.sent() + bytes
    &&& result is Err ==> exists|staged: int|
        0 <= staged < bytes.len() && after.sent() == before.sent() + #[trigger] bytes.take(staged)
    &&& before.state() != EngineState::Established ==> after.sent() == before.sent()
}

/// Stages all of `bytes`, asking the engine again while it takes only a part.
///
/// On success the engine has accepted exactly `bytes`. It fails with
/// `NotEstablished`, and stages nothing, where the session is not established;
/// it fails with `Stalled` where the session takes nothing of what is left,
/// having staged a part of `bytes`.
pub fn stage_all(engine: &mut RecordEngine, bytes: &[u8]) -> (result: Result<(), WriteError>)
    requires
        old(engine).wf(),
    ensures
        written(*old(engine), *final(engine), bytes@, result),
        old(engine).state() != EngineState::Established ==> final(engine).session() == old(
            engine,
        ).session(),
{
    let mut offset: usize = 0;
    proof {
        assert(bytes@.take(0) =~= Seq::<u8>::empty());
        assert(old(engine).sent() + Seq::<u8>::empty() =~= old(engine).sent());
    }
    while offset < bytes.len()
        invariant
            offset <= bytes@.len(),
            engine.wf(),
            engine.sent() == old(engine).sent() + bytes@.take(offset as int),
            engine.state() == old(engine).state(),
            engine.close_notifications() == old(engine).close_notifications(),
            engine.received() == old(engine).received(),
            engine.refusals() == old(engine).refusals(),
            engine.faults() == old(engine).faults(),
            old(engine).state() != EngineState::Established ==> offset == 0 && engine.session()
                == old(engine).session(),
        decreases bytes@.len() - offset,
    {
        let rest = slice_subrange(bytes, offset, bytes.len());
        let accepted: usize = match engine.write_plaintext(rest) {
            Ok(accepted) => accepted,
            Err(_) => {
                return Err(WriteError::NotEstablished);
            },
        };
        proof {
            assert(bytes@.take(offset as int) + rest@.take(accepted as int) =~= bytes@.take(
                offset + accepted,
            ));
        }
        match after_accept(offset, bytes.len(), accepted) {
            Ok(next) => {
                offset = next;
            },
            Err(e) => {
                return Err(e);
            },
        }
    }
    proof {
        assert(bytes@.take(offset as int) =~= bytes@);
    }
    Ok(())
}

/// Stages `bytes` and flushes the ciphertext they became into `out`.
fn write_piece(engine: &mut RecordEngine, bytes: &[u8], out: &mut Vec<u8>) -> (result: Result<
    (),
    WriteError,
>)
    requires
        old(engine).wf(),
    ensures
        written(*old(engine), *final(engine), bytes@, result),
        old(out)@.is_prefix_of(final(out)@),
{
    match stage_all(engine, bytes) {
        Err(e) => Err(e),
        Ok(_) => {
            let _ = engine.flush(out);
            Ok(())
        },
    }
}

/// Writes the status line of `header` through the engine and flushes into `out`.
pub fn write_header(engine: &mut RecordEngine, header: &ResponseHeader, out: &mut Vec<u8>) -> (result:
    Result<(), WriteError>)
    requires
        old(engine).wf(),
    ensures
        written(*old(engine), *final(engine), header.line(), result),
        old(out)@.is_prefix_of(final(out)@),
{
    let line = header.to_bytes();
    write_piece(engine, line.as_slice(), out)
}

/// Writes `body` through the engine, chunk by chunk of at most `CHUNK_LEN`
/// bytes, flushing into `out` after each chunk. An empty body writes nothing.
pub fn write_body(engine: &mut RecordEngine, body: &[u8], out: &mut Vec<u8>) -> (result: Result<
    (),
    WriteError,
>)
    requires
        old(engine).wf(),
    ensures
        written(*old(engine), *final(engine), body@, result),
        old(out)@.is_prefix_of(final(out)@),
{
    let mut offset: usize = 0;
    proof {
        assert(old(engine).sent() + body@.take(0) =~= old(engine).sent());
    }
    while offset < body.len()
        invariant
            offset <= body@.len(),
            engine.wf(),
            engine.sent() == old(engine).sent() + body@.take(offset as int),
            engine.state() == old(engine).state(),
            engine.close_notifications() == old(engine).close_notifications(),
            engine.received() == old(engine).received(),
            engine.refusals() == old(engine).refusals(),
            engine.faults() == old(engine).faults(),
            old(engine).state() != EngineState::Established ==> offset == 0,
            old(out)@.is_prefix_of(out@),
        decreases body@.len() - offset,
    {
        let chunk = next_chunk(body, offset);
        let ghost before = *engine;
        match write_piece(engine, chunk, out) {
            Err(e) => {
                proof {
                    let staged = choose|staged: int|
                        0 <= staged < chunk@.len() && engine.sent() == before.sent()
                            + #[trigger] chunk@.take(staged);
                    assert(body@.take(offset as int) + chunk@.take(staged) =~= body@.take(
                        offset + staged,
                    ));
                    assert(engine.sent() == old(engine).sent() + body@.take(offset + staged));
                }
                return Err(e);
            },
            Ok(_) => {
                proof {
                    assert(body@.take(offset as int) + chunk@ =~= body@.take(
                        offset + chunk@.len(),
                    ));
                }
                offset = offset + chunk.len();
            },
        }
    }
    proof {
        assert(body@.take(offset as int) =~= body@);
    }
    Ok(())
}

/// Writes a whole response: the status line, then the body in chunks, each
/// flushed into `out`.
///
/// On success the engine has accepted exactly the status line followed by
/// `body`, byte for byte.
pub fn write_response(
    engine: &mut RecordEngine,
    header: &ResponseHeader,
    body: &[u8],
    out: &mut Vec<u8>,
) -> (result: Result<(), WriteError>)
    requires
        old(engine).wf(),
    ensures
        written(
            *old(engine),
            *final(engine),
            response_bytes(header.status(), header.meta(), body@),
            result,
        ),
        old(out)@.is_prefix_of(final(out)@),
{
    let ghost line = header.line();
    let ghost all = response_bytes(header.status(), header.meta(), body@);
    let code = header.status_code();
    proof {
        lemma_status_line_shape(code, header.meta());
    }
    match write_header(engine, header, out) {
        Err(e) => {
            proof {
                let staged = choose|staged: int|
                    0 <= staged < line.len() && engine.sent() == old(engine).sent()
                        + #[trigger] line.take(staged);
                assert(line.take(staged) =~= all.take(staged));
            }
            Err(e)
        },
        Ok(_) => {
            let ghost middle = *engine;
            match write_body(engine, body, out) {
                Err(e) => {
                    proof {
                        let staged = choose|staged: int|
                            0 <= staged < body@.len() && engine.sent() == middle.sent()
                                + #[trigger] body@.take(staged);
                        assert(line + body@.take(staged) =~= all.take(line.len() + staged));
                        assert(engine.sent() == old(engine).sent() + all.take(
                            line.len() + staged,
                        ));
                    }
                    Err(e)
                },
                Ok(_) => {
                    proof {
                        assert(old(engine).sent() + line + body@ =~= old(engine).sent() + all);
                    }
                    Ok(())
                },
            }
        },
    }
}

/// A response is staged whole, byte for byte, whenever the session is
/// established and refuses no offer: the write then succeeds, and what the
/// engine has accepted grew by the status line followed by the body.
pub proof fn lemma_response_is_whole(
    before: RecordEngine,
    after: RecordEngine,
    status: u8,
    meta: Seq<char>,
    body: Seq<u8>,
    result: Result<(), WriteError>,
)
    requires
        written(before, after, response_bytes(status, meta, body), result),
        before.state() == EngineState::Established,
        after.refusals() == before.refusals(),
    ensures
        result is Ok,
        after.sent() == before.sent() + status_line(status, meta) + body,
        after.sent().len() == before.sent().len() + status_line(status, meta).len() + body.len(),
{
    assert(before.sent() + (status_line(status, meta) + body) =~= before.sent() + status_line(
        status,
        meta,
    ) + body);
}

/// The chunks of a body, in order, make up the body: cutting at `chunk_end`
/// loses and adds nothing, and every chunk but the last is full.
pub proof fn lemma_chunks_cover(body: Seq<u8>, offset: nat)
    requires
        offset < body.len(),
    ensures
        offset < chunk_end(offset, body.len()) <= body.len(),
        chunk_end(offset, body.len()) - offset <= CHUNK_LEN,
        chunk_end(offset, body.len()) < body.len() ==> chunk_end(offset, body.len()) - offset
            == CHUNK_LEN,
        body.take(offset as int) + body.subrange(
            offset as int,
            chunk_end(offset, body.len()) as int,
        ) == body.take(chunk_end(offset, body.len()) as int),
{
    assert(body.take(offset as int) + body.subrange(
        offset as int,
        chunk_end(offset, body.len()) as int,
    ) =~= body.take(chunk_end(offset, body.len()) as int));
}

} // verus!
