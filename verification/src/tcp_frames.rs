//! Wire format of the direct admin-to-client TCP session.
//!
//! A session opens with a handshake: the magic `MTRX`, a version byte, a
//! little-endian `u32` length and the UTF-8 connection string.  After it, every
//! message is a frame `[u32 LE total_len][u8 tag][payload]`, where `total_len`
//! counts the tag byte plus the payload.  Tag `0x01` carries binary command
//! payloads and `0x02` UTF-8 text; the keepalive ping and pong tags belong to
//! the protocol crate and are passed in by the caller.  Unknown tags are skipped.
use vstd::prelude::*;
use vstd::slice::{slice_subrange, slice_to_vec};
use vstd::utf8::{decode_utf8, encode_utf8, valid_utf8};

verus! {

broadcast use {vstd::utf8::encode_utf8_valid_utf8, vstd::utf8::encode_utf8_decode_utf8};

/// Tag of a frame that carries a binary command payload.
pub const FRAME_TAG_BINARY: u8 = 1;

/// Tag of a frame that carries UTF-8 text.
pub const FRAME_TAG_TEXT: u8 = 2;

/// Hard cap on one frame's `total_len`, so a peer cannot make us allocate
/// gigabytes with a giant length prefix.
pub const MAX_FRAME_BYTES: u32 = 67108864;

/// Longest connection string a handshake may carry.
pub const MAX_HANDSHAKE_ID_LEN: u32 = 1024;

/// The four magic bytes `MTRX` that open a handshake.
pub open spec fn handshake_magic() -> Seq<u8> {
    seq![0x4Du8, 0x54u8, 0x52u8, 0x58u8]
}

/// Value of four little-endian bytes.
pub open spec fn le_u32(b0: u8, b1: u8, b2: u8, b3: u8) -> nat {
    b0 as nat + 256 * (b1 as nat) + 65536 * (b2 as nat) + 16777216 * (b3 as nat)
}

/// The four little-endian bytes of `n`.
pub open spec fn le_bytes(n: u32) -> Seq<u8> {
    seq![(n % 256) as u8, ((n / 256) % 256) as u8, ((n / 65536) % 256) as u8, (n / 16777216) as u8]
}

pub proof fn lemma_le_round_trip(n: u32)
    ensures
        le_bytes(n).len() == 4,
        le_u32(le_bytes(n)[0], le_bytes(n)[1], le_bytes(n)[2], le_bytes(n)[3]) == n,
{
    let b = le_bytes(n);
    assert(b[0] == n % 256);
    assert(b[1] == (n / 256) % 256);
    assert(b[2] == (n / 65536) % 256);
    assert(b[3] == n / 16777216);
    assert((n % 256) + 256 * ((n / 256) % 256) + 65536 * ((n / 65536) % 256) + 16777216 * (n
        / 16777216) == n) by (nonlinear_arith);
}

/// An inbound frame as the session loop sees it.
pub enum InboundFrame {
    Binary(Vec<u8>),
    Text(String),
    /// Master-side keepalive; its payload is echoed back in a pong.
    Ping(Vec<u8>),
    /// The peer closed the stream at a frame boundary.
    Eof,
}

/// The mathematical content of an [`InboundFrame`].
pub enum FrameView {
    Binary(Seq<u8>),
    Text(Seq<char>),
    Ping(Seq<u8>),
    Eof,
}

impl View for InboundFrame {
    type V = FrameView;

    open spec fn view(&self) -> FrameView {
        match self {
            InboundFrame::Binary(b) => FrameView::Binary(b@),
            InboundFrame::Text(t) => FrameView::Text(t@),
            InboundFrame::Ping(b) => FrameView::Ping(b@),
            InboundFrame::Eof => FrameView::Eof,
        }
    }
}

/// Why an inbound frame ends the session.
#[derive(PartialEq, Eq, Structural, Debug, Clone, Copy)]
pub enum FrameError {
    /// `total_len` was zero: not even a tag.
    ZeroLength,
    /// `total_len` exceeded [`MAX_FRAME_BYTES`].
    TooLarge(u32),
    /// The stream ended before the tag byte.
    MissingTag,
    /// The stream ended inside the payload.
    ShortPayload,
    /// A text frame's payload is not UTF-8.
    TextNotUtf8,
}

/// Moves the byte count of a successful read `k` bytes further on.
pub open spec fn shift_read(r: Result<(FrameView, nat), FrameError>, k: nat) -> Result<
    (FrameView, nat),
    FrameError,
> {
    match r {
        Ok((f, n)) => Ok((f, n + k)),
        Err(e) => Err(e),
    }
}

/// The next frame of the stream `s` (everything the peer sends until it
/// closes), with the number of bytes it takes, unknown tags skipped.
pub open spec fn frame_at(s: Seq<u8>, ping_tag: u8) -> Result<(FrameView, nat), FrameError>
    decreases s.len(),
{
    if s.len() < 4 {
        Ok((FrameView::Eof, s.len()))
    } else {
        let total = le_u32(s[0], s[1], s[2], s[3]);
        if total == 0 {
            Err(FrameError::ZeroLength)
        } else if total > MAX_FRAME_BYTES {
            Err(FrameError::TooLarge(total as u32))
        } else if s.len() < 5 {
            Err(FrameError::MissingTag)
        } else if s.len() < 4 + total {
            Err(FrameError::ShortPayload)
        } else {
            let tag = s[4];
            let payload = s.subrange(5, 4 + total as int);
            if tag == FRAME_TAG_BINARY {
                Ok((FrameView::Binary(payload), 4 + total))
            } else if tag == FRAME_TAG_TEXT {
                if valid_utf8(payload) {
                    Ok((FrameView::Text(decode_utf8(payload)), 4 + total))
                } else {
                    Err(FrameError::TextNotUtf8)
                }
            } else if tag == ping_tag {
                Ok((FrameView::Ping(payload), 4 + total))
            } else {
                shift_read(frame_at(s.subrange(4 + total as int, s.len() as int), ping_tag), 4 + total)
            }
        }
    }
}

/// Decodes UTF-8 bytes into a string.
#[verifier::external_body]
fn string_from_utf8(bytes: Vec<u8>) -> (res: Option<String>)
    ensures
        res is Some <==> valid_utf8(bytes@),
        res matches Some(s) ==> s@ == decode_utf8(bytes@),
{
    String::from_utf8(bytes).ok()
}

fn read_u32_at(s: &[u8], i: usize) -> (n: u32)
    requires
        i + 4 <= s@.len(),
    ensures
        n == le_u32(s@[i as int], s@[i + 1], s@[i + 2], s@[i + 3]),
{
    (s[i] as u32) + (s[i + 1] as u32) * 256 + (s[i + 2] as u32) * 65536 + (s[i + 3] as u32)
        * 16777216
}

/// Reads the next frame from `stream`, everything the peer sends until it
/// closes, and returns it with the number of bytes it took.  Frames with an
/// unknown tag are skipped, as the protocol asks.
pub fn read_frame(stream: &[u8], ping_tag: u8) -> (res: Result<(InboundFrame, usize), FrameError>)
    ensures
        match res {
            Ok((f, n)) => frame_at(stream@, ping_tag) == Ok::<(FrameView, nat), FrameError>((f@, n as nat)),
            Err(e) => frame_at(stream@, ping_tag) == Err::<(FrameView, nat), FrameError>(e),
        },
{
    let mut pos: usize = 0;
    assert(stream@.subrange(0, stream@.len() as int) =~= stream@);
    loop
        invariant
            pos <= stream@.len(),
            frame_at(stream@, ping_tag) == shift_read(
                frame_at(stream@.subrange(pos as int, stream@.len() as int), ping_tag),
                pos as nat,
            ),
        decreases stream@.len() - pos,
    {
        let ghost rest = stream@.subrange(pos as int, stream@.len() as int);
        let remaining = stream.len() - pos;
        if remaining < 4 {
            return Ok((InboundFrame::Eof, stream.len()));
        }
        let total = read_u32_at(stream, pos);
        assert(total == le_u32(rest[0], rest[1], rest[2], rest[3]));
        if total == 0 {
            return Err(FrameError::ZeroLength);
        }
        if total > MAX_FRAME_BYTES {
            return Err(FrameError::TooLarge(total));
        }
        if remaining < 5 {
            return Err(FrameError::MissingTag);
        }
        let total_len = total as usize;
        if remaining - 4 < total_len {
            return Err(FrameError::ShortPayload);
        }
        let tag = stream[pos + 4];
        let end = pos + 4 + total_len;
        let payload_slice = slice_subrange(stream, pos + 5, end);
        let ghost payload = rest.subrange(5, 4 + total as int);
        assert(payload_slice@ =~= payload);
        if tag == FRAME_TAG_BINARY {
            let payload_vec = slice_to_vec(payload_slice);
            return Ok((InboundFrame::Binary(payload_vec), end));
        } else if tag == FRAME_TAG_TEXT {
            let payload_vec = slice_to_vec(payload_slice);
            match string_from_utf8(payload_vec) {
                Some(t) => {
                    return Ok((InboundFrame::Text(t), end));
                },
                None => {
                    return Err(FrameError::TextNotUtf8);
                },
            }
        } else if tag == ping_tag {
            let payload_vec = slice_to_vec(payload_slice);
            return Ok((InboundFrame::Ping(payload_vec), end));
        }
        assert(rest.subrange(4 + total as int, rest.len() as int) =~= stream@.subrange(
            end as int,
            stream@.len() as int,
        ));
        pos = end;
    }
}

/// An outbound frame queued for the writer.
pub enum OutboundFrame {
    Binary(Vec<u8>),
    Text(String),
    /// Echo of a master keepalive ping.
    Pong(Vec<u8>),
}

/// The tag and the payload bytes the writer sends for `frame`.
pub open spec fn outbound_parts(frame: &OutboundFrame, pong_tag: u8) -> (u8, Seq<u8>) {
    match frame {
        OutboundFrame::Binary(b) => (FRAME_TAG_BINARY, b@),
        OutboundFrame::Text(t) => (FRAME_TAG_TEXT, encode_utf8(t@)),
        OutboundFrame::Pong(b) => (pong_tag, b@),
    }
}

/// The bytes of one frame with `tag` and `payload`.
pub open spec fn encoded_frame(tag: u8, payload: Seq<u8>) -> Seq<u8> {
    le_bytes((payload.len() + 1) as u32) + seq![tag] + payload
}

fn push_le_u32(out: &mut Vec<u8>, n: u32)
    ensures
        final(out)@ == old(out)@ + le_bytes(n),
{
    out.push((n % 256) as u8);
    out.push(((n / 256) % 256) as u8);
    out.push(((n / 65536) % 256) as u8);
    out.push((n / 16777216) as u8);
    assert(out@ =~= old(out)@ + le_bytes(n));
}

fn encode_parts(tag: u8, payload: &[u8]) -> (res: Option<Vec<u8>>)
    ensures
        payload@.len() + 1 > MAX_FRAME_BYTES ==> res is None,
        payload@.len() + 1 <= MAX_FRAME_BYTES ==> (res matches Some(v) && v@ == encoded_frame(
            tag,
            payload@,
        )),
{
    if payload.len() >= MAX_FRAME_BYTES as usize {
        return None;
    }
    let total = (payload.len() + 1) as u32;
    let mut out: Vec<u8> = Vec::new();
    push_le_u32(&mut out, total);
    out.push(tag);
    out.extend_from_slice(payload);
    assert(out@ =~= encoded_frame(tag, payload@));
    Some(out)
}

/// The bytes the writer puts on the socket for `frame`, or `None` when the
/// frame is larger than [`MAX_FRAME_BYTES`] and is dropped.
pub fn encode_frame(frame: &OutboundFrame, pong_tag: u8) -> (res: Option<Vec<u8>>)
    ensures
        ({
            let (tag, payload) = outbound_parts(frame, pong_tag);
            &&& payload.len() + 1 > MAX_FRAME_BYTES ==> res is None
            &&& payload.len() + 1 <= MAX_FRAME_BYTES ==> (res matches Some(v) && v@
                == encoded_frame(tag, payload))
        }),
{
    match frame {
        OutboundFrame::Binary(b) => encode_parts(FRAME_TAG_BINARY, b.as_slice()),
        OutboundFrame::Text(t) => encode_parts(FRAME_TAG_TEXT, t.as_str().as_bytes()),
        OutboundFrame::Pong(b) => encode_parts(pong_tag, b.as_slice()),
    }
}

/// How a well-formed handshake ended.
#[derive(PartialEq, Eq, Structural, Debug, Clone, Copy)]
pub enum HandshakeOutcome {
    /// The admin proved it knows this machine's connection string.
    Authenticated,
    /// The peer connected and closed before sending the magic: a reachability probe.
    Probe,
}

/// Why a handshake is refused; the session is closed.
#[derive(PartialEq, Eq, Structural, Debug, Clone, Copy)]
pub enum HandshakeError {
    BadMagic,
    MissingVersion,
    /// The version byte lies outside the accepted window.
    UnsupportedVersion(u8),
    MissingIdLength,
    /// The announced connection string is longer than [`MAX_HANDSHAKE_ID_LEN`].
    IdTooLong(u32),
    ShortId,
    IdNotUtf8,
    /// The connection string is not this machine's.
    IdMismatch,
}

/// Outcome of the handshake at the start of stream `s` for a machine whose
/// connection string is `expected`, accepting versions `min..=max`, with the
/// number of bytes the handshake takes.
pub open spec fn handshake_result(s: Seq<u8>, expected: Seq<char>, min_version: u8, max_version: u8) -> Result<
    (HandshakeOutcome, nat),
    HandshakeError,
> {
    if s.len() < 4 {
        Ok((HandshakeOutcome::Probe, s.len()))
    } else if s.subrange(0, 4) != handshake_magic() {
        Err(HandshakeError::BadMagic)
    } else if s.len() < 5 {
        Err(HandshakeError::MissingVersion)
    } else if !(min_version <= s[4] <= max_version) {
        Err(HandshakeError::UnsupportedVersion(s[4]))
    } else if s.len() < 9 {
        Err(HandshakeError::MissingIdLength)
    } else {
        let n = le_u32(s[5], s[6], s[7], s[8]);
        if n > MAX_HANDSHAKE_ID_LEN {
            Err(HandshakeError::IdTooLong(n as u32))
        } else if s.len() < 9 + n {
            Err(HandshakeError::ShortId)
        } else {
            let id = s.subrange(9, 9 + n as int);
            if !valid_utf8(id) {
                Err(HandshakeError::IdNotUtf8)
            } else if decode_utf8(id) != expected {
                Err(HandshakeError::IdMismatch)
            } else {
                Ok((HandshakeOutcome::Authenticated, 9 + n))
            }
        }
    }
}

/// Reads and validates the handshake preamble at the start of `stream`
/// (everything the admin sends until it closes) against this machine's
/// connection string and the accepted version window.
pub fn check_handshake(stream: &[u8], expected_id: &str, min_version: u8, max_version: u8) -> (res:
    Result<(HandshakeOutcome, usize), HandshakeError>)
    ensures
        match res {
            Ok((o, n)) => handshake_result(stream@, expected_id@, min_version, max_version) == Ok::<
                (HandshakeOutcome, nat),
                HandshakeError,
            >((o, n as nat)),
            Err(e) => handshake_result(stream@, expected_id@, min_version, max_version) == Err::<
                (HandshakeOutcome, nat),
                HandshakeError,
            >(e),
        },
{
    let len = stream.len();
    if len < 4 {
        return Ok((HandshakeOutcome::Probe, len));
    }
    if !(stream[0] == 0x4Du8 && stream[1] == 0x54u8 && stream[2] == 0x52u8 && stream[3] == 0x58u8) {
        assert(stream@.subrange(0, 4) != handshake_magic()) by {
            if stream@.subrange(0, 4) == handshake_magic() {
                assert(stream@.subrange(0, 4)[0] == stream@[0]);
                assert(stream@.subrange(0, 4)[1] == stream@[1]);
                assert(stream@.subrange(0, 4)[2] == stream@[2]);
                assert(stream@.subrange(0, 4)[3] == stream@[3]);
            }
        }
        return Err(HandshakeError::BadMagic);
    }
    assert(stream@.subrange(0, 4) =~= handshake_magic());
    if len < 5 {
        return Err(HandshakeError::MissingVersion);
    }
    let version = stream[4];
    if !(min_version <= version && version <= max_version) {
        return Err(HandshakeError::UnsupportedVersion(version));
    }
    if len < 9 {
        return Err(HandshakeError::MissingIdLength);
    }
    let id_len = read_u32_at(stream, 5);
    if id_len > MAX_HANDSHAKE_ID_LEN {
        return Err(HandshakeError::IdTooLong(id_len));
    }
    let id_len = id_len as usize;
    if len - 9 < id_len {
        return Err(HandshakeError::ShortId);
    }
    let id_slice = slice_subrange(stream, 9, 9 + id_len);
    let id_bytes = slice_to_vec(id_slice);
    match string_from_utf8(id_bytes) {
        None => Err(HandshakeError::IdNotUtf8),
        Some(claimed) => {
            let expected = expected_id.to_owned();
            if claimed == expected {
                Ok((HandshakeOutcome::Authenticated, 9 + id_len))
            } else {
                Err(HandshakeError::IdMismatch)
            }
        },
    }
}

/// The handshake an admin sends: magic, version, length and connection string.
pub open spec fn handshake_bytes(version: u8, id: Seq<char>) -> Seq<u8> {
    handshake_magic() + seq![version] + le_bytes(encode_utf8(id).len() as u32) + encode_utf8(id)
}

proof fn lemma_handshake_layout(version: u8, id: Seq<char>, rest: Seq<u8>)
    requires
        encode_utf8(id).len() <= MAX_HANDSHAKE_ID_LEN,
    ensures
        ({
            let s = handshake_bytes(version, id) + rest;
            let n = encode_utf8(id).len();
            &&& s.len() == 9 + n + rest.len()
            &&& s.subrange(0, 4) == handshake_magic()
            &&& s[4] == version
            &&& le_u32(s[5], s[6], s[7], s[8]) == n
            &&& s.subrange(9, 9 + n as int) == encode_utf8(id)
        }),
{
    let n = encode_utf8(id).len();
    lemma_le_round_trip(n as u32);
    let s = handshake_bytes(version, id) + rest;
    assert(s.subrange(0, 4) =~= handshake_magic());
    assert(s.subrange(9, 9 + n as int) =~= encode_utf8(id));
}

/// An admin that speaks an accepted version and sends this machine's
/// connection string is authenticated, whatever it sends after the handshake.
pub proof fn lemma_matching_handshake_authenticates(
    version: u8,
    id: Seq<char>,
    rest: Seq<u8>,
    min_version: u8,
    max_version: u8,
)
    requires
        min_version <= version <= max_version,
        encode_utf8(id).len() <= MAX_HANDSHAKE_ID_LEN,
    ensures
        handshake_result(handshake_bytes(version, id) + rest, id, min_version, max_version) == Ok::<
            (HandshakeOutcome, nat),
            HandshakeError,
        >((HandshakeOutcome::Authenticated, handshake_bytes(version, id).len())),
{
    lemma_handshake_layout(version, id, rest);
}

/// A well-formed handshake that names another machine is refused.
pub proof fn lemma_foreign_handshake_refused(
    version: u8,
    id: Seq<char>,
    expected: Seq<char>,
    rest: Seq<u8>,
    min_version: u8,
    max_version: u8,
)
    requires
        min_version <= version <= max_version,
        encode_utf8(id).len() <= MAX_HANDSHAKE_ID_LEN,
        id != expected,
    ensures
        handshake_result(handshake_bytes(version, id) + rest, expected, min_version, max_version)
            == Err::<(HandshakeOutcome, nat), HandshakeError>(HandshakeError::IdMismatch),
{
    lemma_handshake_layout(version, id, rest);
}

/// A handshake in a version outside the accepted window is refused.
pub proof fn lemma_unsupported_version_refused(
    version: u8,
    id: Seq<char>,
    expected: Seq<char>,
    rest: Seq<u8>,
    min_version: u8,
    max_version: u8,
)
    requires
        !(min_version <= version <= max_version),
        encode_utf8(id).len() <= MAX_HANDSHAKE_ID_LEN,
    ensures
        handshake_result(handshake_bytes(version, id) + rest, expected, min_version, max_version)
            == Err::<(HandshakeOutcome, nat), HandshakeError>(
            HandshakeError::UnsupportedVersion(version),
        ),
{
    lemma_handshake_layout(version, id, rest);
}

/// Header facts of an encoded frame followed by `rest`.
proof fn lemma_encoded_header(tag: u8, payload: Seq<u8>, rest: Seq<u8>)
    requires
        payload.len() + 1 <= MAX_FRAME_BYTES,
    ensures
        ({
            let s = encoded_frame(tag, payload) + rest;
            let total = payload.len() + 1 as int;
            &&& s.len() == 4 + total + rest.len()
            &&& le_u32(s[0], s[1], s[2], s[3]) == total
            &&& s[4] == tag
            &&& s.subrange(5, 4 + total) == payload
            &&& s.subrange(4 + total, s.len() as int) == rest
        }),
{
    let n = (payload.len() + 1) as u32;
    lemma_le_round_trip(n);
    let s = encoded_frame(tag, payload) + rest;
    let total = payload.len() + 1 as int;
    assert(s.subrange(5, 4 + total) =~= payload);
    assert(s.subrange(4 + total, s.len() as int) =~= rest);
}

/// A binary frame the writer encodes reads back as the same binary payload,
/// whatever follows it on the stream.
pub proof fn lemma_binary_frame_round_trip(payload: Seq<u8>, rest: Seq<u8>, ping_tag: u8)
    requires
        payload.len() + 1 <= MAX_FRAME_BYTES,
    ensures
        frame_at(encoded_frame(FRAME_TAG_BINARY, payload) + rest, ping_tag) == Ok::<
            (FrameView, nat),
            FrameError,
        >((FrameView::Binary(payload), payload.len() + 5)),
{
    lemma_encoded_header(FRAME_TAG_BINARY, payload, rest);
}

/// A text frame the writer encodes reads back as the same text.
pub proof fn lemma_text_frame_round_trip(text: Seq<char>, rest: Seq<u8>, ping_tag: u8)
    requires
        encode_utf8(text).len() + 1 <= MAX_FRAME_BYTES,
    ensures
        frame_at(encoded_frame(FRAME_TAG_TEXT, encode_utf8(text)) + rest, ping_tag) == Ok::<
            (FrameView, nat),
            FrameError,
        >((FrameView::Text(text), encode_utf8(text).len() + 5)),
{
    lemma_encoded_header(FRAME_TAG_TEXT, encode_utf8(text), rest);
}

/// A frame whose tag the reader does not know is skipped: the read returns
/// the frame after it.
pub proof fn lemma_unknown_frame_skipped(tag: u8, payload: Seq<u8>, rest: Seq<u8>, ping_tag: u8)
    requires
        payload.len() + 1 <= MAX_FRAME_BYTES,
        tag != FRAME_TAG_BINARY,
        tag != FRAME_TAG_TEXT,
        tag != ping_tag,
    ensures
        frame_at(encoded_frame(tag, payload) + rest, ping_tag) == shift_read(
            frame_at(rest, ping_tag),
            payload.len() + 5,
        ),
{
    lemma_encoded_header(tag, payload, rest);
}

/// What the writer sends of a binary or text frame, the reader gives back:
/// reading the bytes of `encode_frame` yields the same frame and consumes
/// exactly those bytes.
pub proof fn lemma_written_frame_read_back(
    frame: OutboundFrame,
    rest: Seq<u8>,
    ping_tag: u8,
    pong_tag: u8,
)
    requires
        !(frame is Pong),
        outbound_parts(&frame, pong_tag).1.len() + 1 <= MAX_FRAME_BYTES,
    ensures
        ({
            let (tag, payload) = outbound_parts(&frame, pong_tag);
            let expected = match frame {
                OutboundFrame::Binary(b) => FrameView::Binary(b@),
                OutboundFrame::Text(t) => FrameView::Text(t@),
                OutboundFrame::Pong(b) => FrameView::Ping(b@),
            };
            frame_at(encoded_frame(tag, payload) + rest, ping_tag) == Ok::<
                (FrameView, nat),
                FrameError,
            >((expected, encoded_frame(tag, payload).len()))
        }),
{
    match frame {
        OutboundFrame::Binary(b) => lemma_binary_frame_round_trip(b@, rest, ping_tag),
        OutboundFrame::Text(t) => lemma_text_frame_round_trip(t@, rest, ping_tag),
        OutboundFrame::Pong(_) => {},
    }
}

/// Where an inbound frame goes in a session.
#[derive(PartialEq, Eq, Structural, Clone, Copy, Debug)]
pub enum SessionRoute {
    /// Input for the mirrored window.
    WindowInput,
    /// Input for the whole desktop.
    DesktopInput,
    /// A command for this machine.
    Command,
    /// A line for the shell.
    ShellText,
    /// Answer with a pong carrying the same payload.
    Pong,
    /// The peer closed the connection: the session ends.
    End,
}

/// Where an inbound frame goes: a binary frame by its first byte (window
/// input, desktop input, or else a command), text to the shell, a ping back
/// as a pong, the end of the stream ends the session.
pub fn route_inbound(frame: &InboundFrame, window_input_tag: u8, desktop_input_tag: u8) -> (r: SessionRoute)
    ensures
        r == match *frame {
            InboundFrame::Binary(b) => if b@.len() > 0 && b@[0] == window_input_tag {
                SessionRoute::WindowInput
            } else if b@.len() > 0 && b@[0] == desktop_input_tag {
                SessionRoute::DesktopInput
            } else {
                SessionRoute::Command
            },
            InboundFrame::Text(_) => SessionRoute::ShellText,
            InboundFrame::Ping(_) => SessionRoute::Pong,
            InboundFrame::Eof => SessionRoute::End,
        },
{
    match frame {
        InboundFrame::Binary(b) => if b.len() > 0 && b[0] == window_input_tag {
            SessionRoute::WindowInput
        } else if b.len() > 0 && b[0] == desktop_input_tag {
            SessionRoute::DesktopInput
        } else {
            SessionRoute::Command
        },
        InboundFrame::Text(_) => SessionRoute::ShellText,
        InboundFrame::Ping(_) => SessionRoute::Pong,
        InboundFrame::Eof => SessionRoute::End,
    }
}

/// Seconds to wait before publishing the listener's address again after
/// failed attempt `attempt` (counted from zero): doubling from one second.
pub fn publish_backoff_secs(attempt: u32) -> (secs: u64)
    requires
        attempt < 64,
    ensures
        secs == vstd::arithmetic::power2::pow2(attempt as nat),
{
    let mut secs: u64 = 1;
    let mut i: u32 = 0;
    proof {
        vstd::arithmetic::power2::lemma2_to64();
    }
    while i < attempt
        invariant
            i <= attempt < 64,
            secs == vstd::arithmetic::power2::pow2(i as nat),
        decreases attempt - i,
    {
        proof {
            vstd::arithmetic::power2::lemma_pow2_unfold((i + 1) as nat);
            vstd::arithmetic::power2::lemma_pow2_strictly_increases((i + 1) as nat, 64);
            vstd::arithmetic::power2::lemma2_to64_rest();
        }
        secs = secs * 2;
        i = i + 1;
    }
    secs
}

/// Why this machine's record is not written: it needs its client hash and
/// its computer.
pub fn identity_refusal(client_hash: &str, has_computer: bool) -> (r: Option<&'static str>)
    ensures
        client_hash@.len() == 0 ==> r is Some
            && r.unwrap()@ == "upsert_self_identity -> refusing to write connected_client without client_hash"@,
        client_hash@.len() > 0 && !has_computer ==> r is Some
            && r.unwrap()@ == "upsert_self_identity -> refusing to write connected_client without computer"@,
        client_hash@.len() > 0 && has_computer ==> r is None,
{
    if client_hash.unicode_len() == 0 {
        Some("upsert_self_identity -> refusing to write connected_client without client_hash")
    } else if !has_computer {
        Some("upsert_self_identity -> refusing to write connected_client without computer")
    } else {
        None
    }
}

} // verus!
