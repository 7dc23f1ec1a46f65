//! The request framer: from the bytes of one read to a validated request.

use vstd::prelude::*;
use vstd::slice::slice_subrange;
use vstd::slice::slice_to_vec;
use crate::engine::EngineState;
use crate::engine::RecordEngine;
use crate::text::decode_lossy;
use crate::text::lossy_text;
use crate::text::parse_url;
use crate::text::parsed_url;

verus! {

/// Carriage return, the first byte of the terminator.
pub const CR: u8 = 13;

/// Line feed, the second byte of the terminator.
pub const LF: u8 = 10;

/// Length of the terminator.
pub const TERMINATOR_LEN: usize = 2;

/// Longest URL a request may carry, in bytes.
pub const MAX_URL_LEN: usize = 1024;

/// Longest request line, terminator included: the capacity of the request buffer.
pub const MAX_REQUEST_LEN: usize = MAX_URL_LEN + TERMINATOR_LEN;

/// Why a request line was turned down.
#[derive(Debug)]
pub enum RequestError {
    /// Fewer than two bytes were read, so no terminator can be looked for.
    RequestTooShort,
    /// The line does not end in the terminator; the raw bytes are kept for diagnosis.
    MalformedRequest(Vec<u8>),
    /// The line is terminated, but what precedes the terminator is not a URL.
    InvalidUrl,
}

/// A validated request: the URL of a well-formed request line.
#[derive(Debug)]
pub struct ParsedRequest {
    url: String,
}

impl View for ParsedRequest {
    type V = Seq<char>;

    /// The normalised text of the URL.
    closed spec fn view(&self) -> Seq<char> {
        self.url@
    }
}

impl ParsedRequest {
    /// The normalised text of the URL.
    pub fn url(&self) -> (text: &str)
        ensures
            text@ == self@,
    {
        self.url.as_str()
    }
}

/// What the framer makes of a byte sequence.
pub enum Verdict {
    /// A request for the URL with this normalised text.
    Accepted(Seq<char>),
    /// Fewer than two bytes.
    TooShort,
    /// No terminator at the end of these bytes.
    Malformed(Seq<u8>),
    /// Terminated, but not a URL.
    InvalidUrl,
}

/// The part of `data` that one read into the request buffer holds.
pub open spec fn buffered(data: Seq<u8>) -> Seq<u8> {
    if data.len() <= MAX_REQUEST_LEN {
        data
    } else {
        data.take(MAX_REQUEST_LEN as int)
    }
}

/// A request line is well formed when its last two bytes are the terminator.
pub open spec fn well_formed(line: Seq<u8>) -> bool {
    line.len() >= TERMINATOR_LEN && line[line.len() - 2] == CR && line[line.len() - 1] == LF
}

/// The bytes of `line` before its terminator.
pub open spec fn url_bytes(line: Seq<u8>) -> Seq<u8> {
    line.take(line.len() - TERMINATOR_LEN)
}

/// The verdict on the URL part of a well-formed line.
pub open spec fn url_verdict(parsed: Option<Seq<char>>) -> Verdict {
    match parsed {
        Some(url) => Verdict::Accepted(url),
        None => Verdict::InvalidUrl,
    }
}

/// The verdict on one buffer's worth of bytes.
pub open spec fn line_verdict(line: Seq<u8>) -> Verdict {
    if line.len() < TERMINATOR_LEN {
        Verdict::TooShort
    } else if !well_formed(line) {
        Verdict::Malformed(line)
    } else {
        url_verdict(parsed_url(lossy_text(url_bytes(line))))
    }
}

/// The verdict on the bytes a peer sent: only what fits the request buffer counts.
pub open spec fn request_verdict(data: Seq<u8>) -> Verdict {
    line_verdict(buffered(data))
}

/// The verdict that a framer result stands for.
pub open spec fn verdict_of(result: Result<ParsedRequest, RequestError>) -> Verdict {
    match result {
        Ok(request) => Verdict::Accepted(request@),
        Err(RequestError::RequestTooShort) => Verdict::TooShort,
        Err(RequestError::MalformedRequest(raw)) => Verdict::Malformed(raw@),
        Err(RequestError::InvalidUrl) => Verdict::InvalidUrl,
    }
}

/// Cuts `data` down to what the request buffer holds.
pub fn fit_buffer(data: &[u8]) -> (line: &[u8])
    ensures
        line@ == buffered(data@),
{
    if data.len() <= MAX_REQUEST_LEN {
        data
    } else {
        slice_subrange(data, 0, MAX_REQUEST_LEN)
    }
}

/// Tells whether `line` ends in the terminator.
pub fn has_terminator(line: &[u8]) -> (found: bool)
    ensures
        found == well_formed(line@),
{
    let n: usize = line.len();
    n >= TERMINATOR_LEN && line[n - 2] == CR && line[n - 1] == LF
}

/// Checks the terminator of `line` and strips it.
pub fn strip_terminator(line: &[u8]) -> (stripped: Result<&[u8], RequestError>)
    ensures
        match stripped {
            Ok(url) => well_formed(line@) && url@ == url_bytes(line@),
            Err(RequestError::RequestTooShort) => line@.len() < 2,
            Err(RequestError::MalformedRequest(raw)) => line@.len() >= 2 && !well_formed(line@)
                && raw@ == line@,
            Err(RequestError::InvalidUrl) => false,
        },
{
    let n: usize = line.len();
    if n < TERMINATOR_LEN {
        Err(RequestError::RequestTooShort)
    } else if !has_terminator(line) {
        Err(RequestError::MalformedRequest(slice_to_vec(line)))
    } else {
        Ok(slice_subrange(line, 0, n - TERMINATOR_LEN))
    }
}

/// Turns the outcome of URL parsing into the framer's result.
pub fn accept_url(parsed: Result<String, url::ParseError>) -> (result: Result<
    ParsedRequest,
    RequestError,
>)
    ensures
        parsed matches Ok(url) ==> verdict_of(result) == Verdict::Accepted(url@),
        parsed is Err ==> verdict_of(result) == Verdict::InvalidUrl,
{
    match parsed {
        Ok(url) => Ok(ParsedRequest { url }),
        Err(_) => Err(RequestError::InvalidUrl),
    }
}

/// Frames, validates and parses the bytes of one read.
///
/// Bytes beyond the capacity of the request buffer are ignored, as a read
/// into that buffer would leave them behind.
pub fn parse_request(data: &[u8]) -> (result: Result<ParsedRequest, RequestError>)
    ensures
        verdict_of(result) == request_verdict(data@),
{
    let line = fit_buffer(data);
    match strip_terminator(line) {
        Err(e) => Err(e),
        Ok(url) => {
            let text = decode_lossy(url);
            accept_url(parse_url(text.as_str()))
        },
    }
}

/// What pulling the request line does to the engine: the bytes pulled are
/// recorded as received and nothing else of the record changes. They are at
/// most `MAX_REQUEST_LEN`; before the session is established there are
/// none, and the session is not asked; where the session holds decrypted
/// bytes, which is where it does not want to read, there is at least one.
pub open spec fn pulled(before: RecordEngine, after: RecordEngine, data: Seq<u8>) -> bool {
    &&& after.wf()
    &&& after.received() == before.received() + data
    &&& data.len() <= MAX_REQUEST_LEN
    &&& before.state() == EngineState::Handshaking ==> data.len() == 0 && after.session()
        == before.session()
    &&& before.state() != EngineState::Handshaking && !before.reported().wants_read ==> data.len()
        > 0
    &&& after.state() == before.state()
    &&& after.close_notifications() == before.close_notifications()
    &&& after.sent() == before.sent()
    &&& after.refusals() == before.refusals()
    &&& after.faults() == before.faults()
}

/// Pulls the bytes of one request: a single pull of decrypted bytes into a
/// buffer of `MAX_REQUEST_LEN` bytes.
pub fn pull_request_line(engine: &mut RecordEngine) -> (data: Vec<u8>)
    requires
        old(engine).wf(),
    ensures
        pulled(*old(engine), *final(engine), data@),
{
    let data: Vec<u8> = match engine.read_plaintext(MAX_REQUEST_LEN) {
        Ok(bytes) => bytes,
        Err(_) => Vec::new(),
    };
    proof {
        assert(old(engine).received() + Seq::<u8>::empty() =~= old(engine).received());
    }
    data
}

/// Reads one request: a single pull of decrypted bytes into a buffer of
/// `MAX_REQUEST_LEN` bytes, judged as `parse_request` judges them.
///
/// The bytes pulled are those by which the engine's record of received bytes
/// grew; a request that arrives in more than one piece is not put together.
/// Before the session is established nothing is pulled, and the request is
/// too short.
pub fn read_request(engine: &mut RecordEngine) -> (result: Result<ParsedRequest, RequestError>)
    requires
        old(engine).wf(),
    ensures
        old(engine).received().is_prefix_of(final(engine).received()),
        pulled(
            *old(engine),
            *final(engine),
            final(engine).received().skip(old(engine).received().len() as int),
        ),
        verdict_of(result) == request_verdict(
            final(engine).received().skip(old(engine).received().len() as int),
        ),
{
    let data = pull_request_line(engine);
    proof {
        assert((old(engine).received() + data@).skip(old(engine).received().len() as int)
            =~= data@);
    }
    parse_request(data.as_slice())
}

/// A sequence whose buffered part lacks the terminator yields no request.
pub proof fn lemma_unterminated_is_rejected(data: Seq<u8>)
    requires
        !well_formed(buffered(data)),
    ensures
        request_verdict(data) is TooShort || request_verdict(data) is Malformed,
        !(request_verdict(data) is Accepted),
{
}

/// A sequence that fits the request buffer counts in full: up to and
/// including the maximum length nothing is cut off, and a terminated one is
/// judged by its URL alone.
pub proof fn lemma_within_limit_is_whole(data: Seq<u8>)
    requires
        data.len() <= MAX_REQUEST_LEN,
        well_formed(data),
    ensures
        request_verdict(data) == url_verdict(parsed_url(lossy_text(url_bytes(data)))),
        request_verdict(data) is Accepted || request_verdict(data) is InvalidUrl,
{
}

/// A sequence longer than the request buffer is judged by its first
/// `MAX_REQUEST_LEN` bytes and nothing else.
pub proof fn lemma_overlong_is_truncated(data: Seq<u8>)
    requires
        data.len() > MAX_REQUEST_LEN,
    ensures
        request_verdict(data) == line_verdict(data.take(MAX_REQUEST_LEN as int)),
        !(request_verdict(data) is TooShort),
{
}

} // verus!
