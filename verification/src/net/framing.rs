//! Framing of the TCP stream: every frame is a VarInt length followed by
//! that many bytes.

use vstd::prelude::*;

verus! {

/// Largest frame body accepted from a client (2 MiB).
pub const MAX_FRAME_LEN: usize = 2_097_152;

/// Most bytes a 32-bit VarInt takes.
pub const VARINT_MAX_BYTES: usize = 5;

/// Outcome of reading a VarInt from the start of a byte sequence.
#[derive(Debug, Clone, Copy, PartialEq, Eq, Structural)]
pub enum VarIntScan {
    /// The VarInt ends after `len` bytes; `raw` holds its 32 bits.
    Complete { len: usize, raw: u32 },
    /// Every byte so far has the continuation bit set.
    Truncated,
    /// A fifth byte still has the continuation bit set.
    TooLong,
}

/// The low seven bits of `b`, placed at bit `7 * i`.
pub open spec fn group_bits(b: u8, i: nat) -> u32 {
    (((b & 0x7F) as u32) << ((7 * i) as u32)) as u32
}

/// Reads VarInt bytes from position `i` on, with `acc` holding the bits of
/// the earlier bytes.
pub open spec fn scan_from(b: Seq<u8>, i: nat, acc: u32) -> VarIntScan
    decreases 5 - i,
{
    if i >= 5 || i >= b.len() {
        VarIntScan::Truncated
    } else {
        let acc2 = acc | group_bits(b[i as int], i);
        if b[i as int] & 0x80 == 0 {
            VarIntScan::Complete { len: (i + 1) as usize, raw: acc2 }
        } else if i + 1 >= 5 {
            VarIntScan::TooLong
        } else {
            scan_from(b, i + 1, acc2)
        }
    }
}

/// Reads a VarInt from the start of `b`.
pub open spec fn scan_varint_spec(b: Seq<u8>) -> VarIntScan {
    scan_from(b, 0, 0)
}

/// Reads a VarInt from the start of `bytes`.
pub fn scan_varint(bytes: &[u8]) -> (r: VarIntScan)
    ensures
        r == scan_varint_spec(bytes@),
{
    let mut acc: u32 = 0;
    let mut i: usize = 0;
    while i < bytes.len() && i < 5
        invariant
            i <= 5,
            scan_varint_spec(bytes@) == scan_from(bytes@, i as nat, acc),
        decreases 5 - i,
    {
        let b = bytes[i];
        let shift: u32 = (7 * i) as u32;
        let acc2: u32 = acc | (((b & 0x7F) as u32) << shift);
        assert(acc2 == acc | group_bits(b, i as nat));
        if b & 0x80 == 0 {
            return VarIntScan::Complete { len: i + 1, raw: acc2 };
        }
        if i + 1 >= 5 {
            return VarIntScan::TooLong;
        }
        acc = acc2;
        i = i + 1;
    }
    VarIntScan::Truncated
}

/// Why a frame is refused.
#[derive(Debug, Clone, Copy, PartialEq, Eq, Structural)]
pub enum FrameError {
    /// The length prefix runs past five bytes ("VarInt too large").
    VarIntTooLarge,
    /// The announced length, read as `usize`, is above the limit
    /// ("frame too large: <len>").
    FrameTooLarge(usize),
}

/// The body length that a decoded length prefix announces, or the refusal:
/// the prefix is read as `i32` and then as `usize` (so a negative value
/// becomes a length far above the limit).
pub fn check_frame_length(length: i32) -> (r: Result<usize, FrameError>)
    ensures
        length >= 0 && length as int <= MAX_FRAME_LEN ==> r == Ok::<usize, FrameError>(length as usize),
        !(length >= 0 && length as int <= MAX_FRAME_LEN) ==> r == Err::<usize, FrameError>(FrameError::FrameTooLarge(length as usize)),
{
    let frame_len = length as usize;
    if length < 0 || frame_len > MAX_FRAME_LEN {
        Err(FrameError::FrameTooLarge(frame_len))
    } else {
        Ok(frame_len)
    }
}

/// Length of the VarInt prefix of an outgoing frame, as the writer finds it:
/// the bytes up to and including the first without the continuation bit, or
/// all bytes when every one has it; five continuation bytes are refused.
pub open spec fn outgoing_prefix_len(data: Seq<u8>) -> Result<usize, FrameError> {
    match scan_varint_spec(data) {
        VarIntScan::Complete { len, raw } => Ok(len),
        VarIntScan::Truncated => Ok(data.len() as usize),
        VarIntScan::TooLong => Err(FrameError::VarIntTooLarge),
    }
}

/// Length of the VarInt prefix that stays in plain text when the body of an
/// outgoing frame is encrypted.
pub fn varint_prefix_len(data: &[u8]) -> (r: Result<usize, FrameError>)
    ensures
        r == outgoing_prefix_len(data@),
        r matches Ok(n) ==> n <= data@.len(),
{
    proof { lemma_scan_len(data@, 0, 0); }
    match scan_varint(data) {
        VarIntScan::Complete { len, raw } => Ok(len),
        VarIntScan::Truncated => Ok(data.len()),
        VarIntScan::TooLong => Err(FrameError::VarIntTooLarge),
    }
}

proof fn lemma_scan_len(b: Seq<u8>, i: nat, acc: u32)
    ensures
        scan_from(b, i, acc) matches VarIntScan::Complete { len, raw } ==> i < len <= b.len() && len <= 5,
    decreases 5 - i,
{
    if i < 5 && i < b.len() {
        let acc2 = acc | group_bits(b[i as int], i);
        if b[i as int] & 0x80 != 0 && i + 1 < 5 {
            lemma_scan_len(b, i + 1, acc2);
        }
    }
}

/// A length prefix is read the same way by the reader and the writer: the
/// reader's VarInt ends where the writer's plain-text prefix ends, both
/// refuse a prefix with five continuation bytes, and appending body bytes
/// after a complete prefix does not change how the prefix reads.
pub proof fn prefix_read_and_write_agree(prefix: Seq<u8>, body: Seq<u8>)
    ensures
        scan_varint_spec(prefix) matches VarIntScan::Complete { len, raw } ==>
            outgoing_prefix_len(prefix) == Ok::<usize, FrameError>(len)
            && scan_varint_spec(prefix + body) == scan_varint_spec(prefix)
            && outgoing_prefix_len(prefix + body) == Ok::<usize, FrameError>(len),
        scan_varint_spec(prefix) == VarIntScan::TooLong ==> outgoing_prefix_len(prefix) == Err::<usize, FrameError>(FrameError::VarIntTooLarge),
{
    lemma_scan_len(prefix, 0, 0);
    lemma_scan_extend(prefix, body, 0, 0);
}

proof fn lemma_scan_extend(p: Seq<u8>, body: Seq<u8>, i: nat, acc: u32)
    ensures
        scan_from(p, i, acc) is Complete ==> scan_from(p + body, i, acc) == scan_from(p, i, acc),
        scan_from(p, i, acc) is TooLong ==> scan_from(p + body, i, acc) == scan_from(p, i, acc),
    decreases 5 - i,
{
    if i < 5 && i < p.len() {
        assert((p + body)[i as int] == p[i as int]);
        let acc2 = acc | group_bits(p[i as int], i);
        if p[i as int] & 0x80 != 0 && i + 1 < 5 {
            lemma_scan_extend(p, body, i + 1, acc2);
        }
    }
}

} // verus!
