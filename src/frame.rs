//! The binary frame that carries one command or one reply:
//!
//! | offset    | field          | size |
//! |-----------|----------------|------|
//! | 0..2      | sync marker    | 2    |
//! | 2         | control byte   | 1    |
//! | 3..5      | payload length | 2    |
//! | 5..7      | sequence       | 2    |
//! | 7         | opcode         | 1    |
//! | 8..8+len  | payload        | len  |
//! | 8+len..   | CRC-16         | 2    |
//!
//! Multi-byte fields are little-endian; the checksum covers every byte from
//! the sync marker through the end of the payload.
use vstd::prelude::*;
use vstd::slice::{slice_subrange, slice_to_vec};
use crate::checksum::{checksum, crc16_of, lemma_checksum_detects_byte_change};

verus! {

/// First byte of the sync marker.
pub const SYNC_LOW: u8 = 0x55;

/// Second byte of the sync marker.
pub const SYNC_HIGH: u8 = 0x66;

/// Control byte of outgoing frames: a reply is requested.
pub const CTRL_NEED_ACK: u8 = 0x01;

/// Bytes before the payload: marker, control, length, sequence, opcode.
pub const HEADER_LEN: usize = 8;

/// Bytes of the trailing checksum.
pub const CHECKSUM_LEN: usize = 2;

/// Largest datagram a UDP socket over IPv4 can carry.
pub const MAX_DATAGRAM_LEN: usize = 65507;

/// Largest payload that still fits, framed, in one datagram.
pub const MAX_PAYLOAD_LEN: usize = MAX_DATAGRAM_LEN - HEADER_LEN - CHECKSUM_LEN;

/// Why a byte buffer is not a frame, or a payload cannot be framed.
#[derive(Clone, Copy, Debug, PartialEq, Eq, Structural)]
pub enum FrameError {
    /// The buffer ends before the header, the declared payload or the checksum.
    Truncated,
    /// The buffer does not start with the sync marker.
    Malformed,
    /// The stored checksum differs from the one computed over the frame.
    ChecksumMismatch,
    /// The payload does not fit in one datagram.
    PayloadTooLarge,
}

/// A frame that passed validation: its opcode and its payload.
#[derive(Debug)]
pub struct Frame {
    pub opcode: u8,
    pub payload: Vec<u8>,
}

/// Two little-endian bytes of a value below 2^16.
pub open spec fn le16(n: int) -> Seq<u8> {
    seq![(n % 256) as u8, (n / 256) as u8]
}

/// The value of two little-endian bytes.
pub open spec fn read_le16(lo: u8, hi: u8) -> int {
    lo as int + 256 * hi as int
}

/// Header of an outgoing frame with the given opcode and payload length
/// (sequence number zero).
pub open spec fn frame_header(opcode: u8, len: int) -> Seq<u8> {
    seq![SYNC_LOW, SYNC_HIGH, CTRL_NEED_ACK] + le16(len) + seq![0u8, 0u8, opcode]
}

/// The bytes the checksum of an outgoing frame covers.
pub open spec fn frame_body(opcode: u8, payload: Seq<u8>) -> Seq<u8> {
    frame_header(opcode, payload.len() as int) + payload
}

/// The complete outgoing frame.
pub open spec fn encode_frame(opcode: u8, payload: Seq<u8>) -> Seq<u8> {
    frame_body(opcode, payload) + le16(crc16_of(frame_body(opcode, payload)) as int)
}

/// Declared payload length of a buffer that holds at least a header.
pub open spec fn declared_len(b: Seq<u8>) -> int {
    read_le16(b[3], b[4])
}

/// What a received buffer decodes to: the opcode and payload of the frame
/// at its start, or why there is none. Bytes after the checksum are ignored.
pub open spec fn decode_frame(b: Seq<u8>) -> Result<(u8, Seq<u8>), FrameError> {
    if b.len() < HEADER_LEN + CHECKSUM_LEN {
        Err(FrameError::Truncated)
    } else if b[0] != SYNC_LOW || b[1] != SYNC_HIGH {
        Err(FrameError::Malformed)
    } else if HEADER_LEN + declared_len(b) + CHECKSUM_LEN > b.len() {
        Err(FrameError::Truncated)
    } else {
        let end = HEADER_LEN + declared_len(b);
        if read_le16(b[end], b[end + 1]) != crc16_of(b.subrange(0, end)) as int {
            Err(FrameError::ChecksumMismatch)
        } else {
            Ok((b[7], b.subrange(HEADER_LEN as int, end)))
        }
    }
}

/// Frames `payload` under `opcode`; fails only when the payload is larger
/// than a datagram allows.
pub fn encode(opcode: u8, payload: &[u8]) -> (r: Result<Vec<u8>, FrameError>)
    ensures
        match r {
            Ok(v) => payload@.len() <= MAX_PAYLOAD_LEN && v@ == encode_frame(opcode, payload@),
            Err(e) => payload@.len() > MAX_PAYLOAD_LEN && e == FrameError::PayloadTooLarge,
        },
{
    let n = payload.len();
    if n > MAX_PAYLOAD_LEN {
        return Err(FrameError::PayloadTooLarge);
    }
    let mut out: Vec<u8> = Vec::new();
    out.push(SYNC_LOW);
    out.push(SYNC_HIGH);
    out.push(CTRL_NEED_ACK);
    out.push((n % 256) as u8);
    out.push((n / 256) as u8);
    out.push(0u8);
    out.push(0u8);
    out.push(opcode);
    assert(out@ =~= frame_header(opcode, n as int));
    let mut i: usize = 0;
    while i < n
        invariant
            n == payload@.len(),
            i <= n,
            out@ =~= frame_header(opcode, n as int) + payload@.subrange(0, i as int),
        decreases n - i,
    {
        out.push(payload[i]);
        i = i + 1;
    }
    assert(payload@.subrange(0, n as int) =~= payload@);
    let crc = checksum(out.as_slice());
    out.push((crc % 256) as u8);
    out.push((crc / 256) as u8);
    assert(out@ =~= encode_frame(opcode, payload@));
    Ok(out)
}

/// Validates the frame at the start of `bytes` and returns its opcode and
/// payload. Any opcode is accepted; only structural faults are errors.
pub fn decode(bytes: &[u8]) -> (r: Result<Frame, FrameError>)
    ensures
        match r {
            Ok(f) => decode_frame(bytes@) == Ok::<(u8, Seq<u8>), FrameError>((f.opcode, f.payload@)),
            Err(e) => decode_frame(bytes@) == Err::<(u8, Seq<u8>), FrameError>(e),
        },
        bytes@.len() < HEADER_LEN + CHECKSUM_LEN || HEADER_LEN + declared_len(bytes@)
            + CHECKSUM_LEN > bytes@.len() ==> r matches Err(
            FrameError::Truncated | FrameError::Malformed,
        ),
{
    if bytes.len() < HEADER_LEN + CHECKSUM_LEN {
        return Err(FrameError::Truncated);
    }
    if bytes[0] != SYNC_LOW || bytes[1] != SYNC_HIGH {
        return Err(FrameError::Malformed);
    }
    let n: usize = bytes[3] as usize + 256 * (bytes[4] as usize);
    if bytes.len() - (HEADER_LEN + CHECKSUM_LEN) < n {
        return Err(FrameError::Truncated);
    }
    let end: usize = HEADER_LEN + n;
    let computed = checksum(slice_subrange(bytes, 0, end));
    let stored: u16 = bytes[end] as u16 + 256 * (bytes[end + 1] as u16);
    if stored != computed {
        return Err(FrameError::ChecksumMismatch);
    }
    let payload = slice_to_vec(slice_subrange(bytes, HEADER_LEN, end));
    Ok(Frame { opcode: bytes[7], payload })
}

proof fn lemma_le16_round_trip(n: int)
    requires
        0 <= n < 0x10000,
    ensures
        read_le16(le16(n)[0], le16(n)[1]) == n,
{
}

proof fn lemma_read_le16_injective(a: u8, b: u8, c: u8, d: u8)
    requires
        a != c || b != d,
    ensures
        read_le16(a, b) != read_le16(c, d),
{
}

/// Decoding an encoded frame gives back its opcode and payload.
pub proof fn lemma_round_trip(opcode: u8, payload: Seq<u8>)
    requires
        payload.len() <= MAX_PAYLOAD_LEN,
    ensures
        decode_frame(encode_frame(opcode, payload)) == Ok::<(u8, Seq<u8>), FrameError>(
            (opcode, payload),
        ),
{
    let n = payload.len() as int;
    let body = frame_body(opcode, payload);
    let b = encode_frame(opcode, payload);
    lemma_le16_round_trip(n);
    lemma_le16_round_trip(crc16_of(body) as int);
    assert(declared_len(b) == n);
    assert(b.subrange(0, HEADER_LEN + n) =~= body);
    assert(b.subrange(HEADER_LEN as int, HEADER_LEN + n) =~= payload);
}

/// Flipping any bit of an encoded frame's payload or checksum makes decoding
/// fail with a checksum mismatch, so no other opcode or payload comes out.
pub proof fn lemma_corruption_rejected(opcode: u8, payload: Seq<u8>, i: int, bit: u8)
    requires
        payload.len() <= MAX_PAYLOAD_LEN,
        HEADER_LEN <= i < encode_frame(opcode, payload).len(),
        bit < 8,
    ensures
        decode_frame(
            encode_frame(opcode, payload).update(i, encode_frame(opcode, payload)[i] ^ (1u8 << bit)),
        ) == Err::<(u8, Seq<u8>), FrameError>(FrameError::ChecksumMismatch),
{
    let n = payload.len() as int;
    let end = HEADER_LEN + n;
    let body = frame_body(opcode, payload);
    let b = encode_frame(opcode, payload);
    let x = b[i];
    let c = b.update(i, x ^ (1u8 << bit));
    assert(bit < 8 ==> x ^ (1u8 << bit) != x) by (bit_vector);
    lemma_le16_round_trip(n);
    lemma_le16_round_trip(crc16_of(body) as int);
    assert(declared_len(c) == n);
    assert(b.subrange(0, end) =~= body);
    if i < end {
        assert(c.subrange(0, end) =~= body.update(i, x ^ (1u8 << bit)));
        lemma_checksum_detects_byte_change(body, i, x ^ (1u8 << bit));
        assert(c[end] == b[end] && c[end + 1] == b[end + 1]);
    } else {
        assert(c.subrange(0, end) =~= body);
        lemma_read_le16_injective(b[end], b[end + 1], c[end], c[end + 1]);
    }
}

/// A buffer whose declared payload length runs past its end is refused as
/// truncated (or as malformed when its marker is wrong).
pub proof fn lemma_overlong_declared_len_rejected(b: Seq<u8>)
    requires
        b.len() >= HEADER_LEN + CHECKSUM_LEN,
        HEADER_LEN + declared_len(b) + CHECKSUM_LEN > b.len(),
    ensures
        decode_frame(b) matches Err(FrameError::Truncated | FrameError::Malformed),
{
}

} // verus!
