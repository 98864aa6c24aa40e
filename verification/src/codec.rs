//! The sync-message framing codec: each frame is a little-endian 32-bit
//! length prefix followed by the payload, and no frame may carry more than
//! [`MESSAGE_MAX_SIZE`] bytes.

use vstd::prelude::*;

verus! {

/// The largest payload one frame may carry: 10 MiB.
pub const MESSAGE_MAX_SIZE: usize = 10 * 1024 * 1024;

/// An error of the framing codec.
#[derive(Debug, Clone, Copy, PartialEq, Eq, Structural)]
pub enum CodecError {
    /// The frame is over the size bound (or claims to be).
    InvalidData,
    /// The input ends before the frame does.
    UnexpectedEof,
}

/// A raw sync request: the encoded bytes of a request message.
#[derive(Debug, Clone, PartialEq, Eq)]
pub struct SyncRequest {
    pub data: Vec<u8>,
}

impl SyncRequest {
    pub fn new(data: Vec<u8>) -> (r: Self)
        ensures
            r.data@ == data@,
    {
        SyncRequest { data }
    }
}

/// A raw sync response: the encoded bytes of a response message.
#[derive(Debug, Clone, PartialEq, Eq)]
pub struct SyncResponse {
    pub data: Vec<u8>,
}

impl SyncResponse {
    pub fn new(data: Vec<u8>) -> (r: Self)
        ensures
            r.data@ == data@,
    {
        SyncResponse { data }
    }
}

/// The little-endian bytes of a 32-bit length.
pub open spec fn u32_le_bytes(n: u32) -> Seq<u8> {
    seq![
        (n & 0xff) as u8,
        ((n >> 8) & 0xff) as u8,
        ((n >> 16) & 0xff) as u8,
        ((n >> 24) & 0xff) as u8,
    ]
}

/// The 32-bit length the four bytes denote.
pub open spec fn u32_from_le_bytes(b0: u8, b1: u8, b2: u8, b3: u8) -> u32 {
    (b0 as u32) | ((b1 as u32) << 8) | ((b2 as u32) << 16) | ((b3 as u32) << 24)
}

/// The bytes of a whole frame: the length prefix, then the payload.
pub open spec fn frame_encoding(data: Seq<u8>) -> Seq<u8> {
    u32_le_bytes(data.len() as u32) + data
}

/// What decoding a byte stream yields: the first frame's payload, when one
/// is complete, within the size bound, and present in full.
pub open spec fn spec_read_frame(bytes: Seq<u8>) -> Result<Seq<u8>, CodecError> {
    if bytes.len() < 4 {
        Err(CodecError::UnexpectedEof)
    } else {
        let len = u32_from_le_bytes(bytes[0], bytes[1], bytes[2], bytes[3]) as int;
        if len > MESSAGE_MAX_SIZE {
            Err(CodecError::InvalidData)
        } else if bytes.len() < 4 + len {
            Err(CodecError::UnexpectedEof)
        } else {
            Ok(bytes.subrange(4, 4 + len))
        }
    }
}

/// Round trip: a payload within the size bound reads back exactly from its
/// own frame.
pub proof fn lemma_frame_round_trip(data: Seq<u8>)
    requires
        data.len() <= MESSAGE_MAX_SIZE,
    ensures
        spec_read_frame(frame_encoding(data)) == Result::<Seq<u8>, CodecError>::Ok(data),
{
    let n = data.len() as u32;
    let enc = frame_encoding(data);
    assert(enc.len() == 4 + data.len());
    assert(enc[0] == (n & 0xff) as u8);
    assert(enc[1] == ((n >> 8) & 0xff) as u8);
    assert(enc[2] == ((n >> 16) & 0xff) as u8);
    assert(enc[3] == ((n >> 24) & 0xff) as u8);
    assert(u32_from_le_bytes(
        (n & 0xff) as u8,
        ((n >> 8) & 0xff) as u8,
        ((n >> 16) & 0xff) as u8,
        ((n >> 24) & 0xff) as u8,
    ) == n) by (bit_vector);
    assert(enc.subrange(4, 4 + n as int) =~= data);
}

/// Encodes one frame: the payload length as a little-endian prefix, then
/// the payload; a payload over the size bound is refused.
pub fn write_frame(data: &Vec<u8>) -> (r: Result<Vec<u8>, CodecError>)
    ensures
        data@.len() > MESSAGE_MAX_SIZE ==> r == Result::<Vec<u8>, CodecError>::Err(
            CodecError::InvalidData,
        ),
        data@.len() <= MESSAGE_MAX_SIZE ==> (r matches Ok(out) && out@ == frame_encoding(data@)),
{
    if data.len() > MESSAGE_MAX_SIZE {
        return Err(CodecError::InvalidData);
    }
    let n = data.len() as u32;
    let mut out: Vec<u8> = Vec::new();
    out.push((n & 0xff) as u8);
    out.push(((n >> 8) & 0xff) as u8);
    out.push(((n >> 16) & 0xff) as u8);
    out.push(((n >> 24) & 0xff) as u8);
    let m = data.len();
    let mut i: usize = 0;
    while i < m
        invariant
            m == data@.len(),
            0 <= i <= m,
            out@.len() == 4 + i,
            out@ =~= u32_le_bytes(m as u32).add(data@.subrange(0, i as int)),
            n == m as u32,
        decreases m - i,
    {
        out.push(data[i]);
        proof {
            assert(out@ =~= u32_le_bytes(m as u32).add(data@.subrange(0, i + 1 as int)));
        }
        i += 1;
    }
    proof {
        assert(data@.subrange(0, m as int) =~= data@);
        assert(out@ =~= frame_encoding(data@));
    }
    Ok(out)
}

/// Decodes the first frame of a byte stream: rejects a truncated stream
/// and a frame over the size bound.
pub fn read_frame(bytes: &Vec<u8>) -> (r: Result<Vec<u8>, CodecError>)
    ensures
        r matches Ok(payload) ==> (spec_read_frame(bytes@) matches Ok(p) && payload@ == p),
        r matches Err(e) ==> spec_read_frame(bytes@) == Result::<Seq<u8>, CodecError>::Err(e),
{
    if bytes.len() < 4 {
        return Err(CodecError::UnexpectedEof);
    }
    let b0 = bytes[0];
    let b1 = bytes[1];
    let b2 = bytes[2];
    let b3 = bytes[3];
    let len_u32: u32 = (b0 as u32) | ((b1 as u32) << 8) | ((b2 as u32) << 16) | ((b3
        as u32) << 24);
    proof {
        assert(len_u32 == u32_from_le_bytes(b0, b1, b2, b3));
    }
    if len_u32 > MESSAGE_MAX_SIZE as u32 {
        proof {
            assert(MESSAGE_MAX_SIZE as u32 == 10 * 1024 * 1024);
        }
        return Err(CodecError::InvalidData);
    }
    let len = len_u32 as usize;
    if bytes.len() - 4 < len {
        return Err(CodecError::UnexpectedEof);
    }
    let mut payload: Vec<u8> = Vec::new();
    let mut i: usize = 0;
    while i < len
        invariant
            bytes@.len() >= 4 + len,
            len <= MESSAGE_MAX_SIZE,
            0 <= i <= len,
            payload@ =~= bytes@.subrange(4, 4 + i as int),
        decreases len - i,
    {
        payload.push(bytes[4 + i]);
        proof {
            assert(payload@ =~= bytes@.subrange(4, 4 + (i + 1) as int));
        }
        i += 1;
    }
    Ok(payload)
}

} // verus!
