//! Transport framing: the fixed 8-byte length-prefixed envelope around each
//! packet payload.
//!
//! A frame is `[magic][flags][compression-id][chunk-count][4-byte big-endian
//! payload length]` followed by exactly that many payload bytes.  The magic
//! byte must be `0x50`, the structured-text encoding flag (bit `0x4`) must be
//! set, and both compression-id and chunk-count must be zero: the protocol
//! variants with payload compression or chunking are rejected, not emulated.

use vstd::prelude::*;

verus! {

/// The magic byte that opens every frame header.
pub const FRAME_MAGIC: u8 = 0x50;

/// The encoding-flags bit that marks a structured-text payload.
pub const FLAG_STRUCTURED_TEXT: u8 = 0x04;

/// A fatal transport error: the connection cannot continue after any of
/// these, so the reader must shut the session down.
#[derive(Debug, Clone, Copy, PartialEq, Eq, Structural)]
pub enum FrameError {
    /// The first header byte was not the frame magic; carries that byte.
    BadMagic(u8),
    /// The chunk-count byte was non-zero; carries it.  Chunked payloads are
    /// not supported.
    Chunked(u8),
    /// The encoding-flags byte did not have the structured-text bit set;
    /// carries the flags byte.
    UnsupportedEncoding(u8),
    /// The compression-id byte was non-zero; carries it.  Compressed
    /// payloads are not supported.
    Compressed(u8),
    /// The buffer ended before the full header or payload.
    Truncated,
    /// The declared payload length does not match the bytes present.
    LengthMismatch,
}

/// The four big-endian bytes of a 32-bit payload length.
pub open spec fn spec_len_bytes(len: u32) -> Seq<u8> {
    seq![
        ((len >> 24) & 0xff) as u8,
        ((len >> 16) & 0xff) as u8,
        ((len >> 8) & 0xff) as u8,
        (len & 0xff) as u8,
    ]
}

/// The 8-byte header that `make_header` produces for a payload of `len` bytes.
pub open spec fn spec_header(len: u32) -> Seq<u8> {
    seq![FRAME_MAGIC, FLAG_STRUCTURED_TEXT, 0u8, 0u8] + spec_len_bytes(len)
}

/// The value of four bytes read as one big-endian 32-bit number.
pub open spec fn spec_be_value(b: Seq<u8>) -> int
    recommends
        b.len() == 4,
{
    (b[0] as int) * 0x100_0000 + (b[1] as int) * 0x1_0000 + (b[2] as int) * 0x100 + (b[3] as int)
}

/// The payload length an 8-byte header declares.
pub open spec fn spec_declared_len(h: Seq<u8>) -> int
    recommends
        h.len() == 8,
{
    spec_be_value(h.subrange(4, 8))
}

/// Whether an 8-byte header passes every validation of the framer.
pub open spec fn spec_header_ok(h: Seq<u8>) -> bool {
    &&& h.len() == 8
    &&& h[0] == FRAME_MAGIC
    &&& h[3] == 0
    &&& h[1] & FLAG_STRUCTURED_TEXT != 0
    &&& h[2] == 0
}

/// The outcome of validating an 8-byte header, with the checks applied in
/// the framer's order: magic, chunk-count, encoding flags, compression-id.
pub open spec fn spec_parse_header(h: Seq<u8>) -> Result<int, FrameError>
    recommends
        h.len() == 8,
{
    if h[0] != FRAME_MAGIC {
        Err(FrameError::BadMagic(h[0]))
    } else if h[3] != 0 {
        Err(FrameError::Chunked(h[3]))
    } else if h[1] & FLAG_STRUCTURED_TEXT == 0 {
        Err(FrameError::UnsupportedEncoding(h[1]))
    } else if h[2] != 0 {
        Err(FrameError::Compressed(h[2]))
    } else {
        Ok(spec_declared_len(h))
    }
}

/// Reading back the four big-endian bytes of a length gives the length.
pub proof fn lemma_len_bytes_round_trip(len: u32)
    ensures
        spec_be_value(spec_len_bytes(len)) == len,
{
    let b3 = ((len >> 24) & 0xff) as u8;
    let b2 = ((len >> 16) & 0xff) as u8;
    let b1 = ((len >> 8) & 0xff) as u8;
    let b0 = (len & 0xff) as u8;
    assert((b3 as u32) * 0x100_0000 + (b2 as u32) * 0x1_0000 + (b1 as u32) * 0x100 + (b0 as u32)
        == len) by (bit_vector)
        requires
            b3 == ((len >> 24) & 0xff) as u8,
            b2 == ((len >> 16) & 0xff) as u8,
            b1 == ((len >> 8) & 0xff) as u8,
            b0 == (len & 0xff) as u8,
    ;
}

/// Builds the 8-byte header for a payload: magic, the structured-text flag,
/// zero compression-id, zero chunk-count, and the big-endian payload length.
pub fn make_header(data: &[u8]) -> (r: Vec<u8>)
    requires
        data@.len() <= u32::MAX,
    ensures
        r@ == spec_header(data@.len() as u32),
        spec_header_ok(r@),
        spec_declared_len(r@) == data@.len(),
{
    let len: u32 = data.len() as u32;
    let mut buf: Vec<u8> = Vec::new();
    buf.push(FRAME_MAGIC);
    buf.push(FLAG_STRUCTURED_TEXT);
    buf.push(0);
    buf.push(0);
    buf.push(((len >> 24) & 0xff) as u8);
    buf.push(((len >> 16) & 0xff) as u8);
    buf.push(((len >> 8) & 0xff) as u8);
    buf.push((len & 0xff) as u8);
    proof {
        assert(buf@ =~= spec_header(len));
        assert(FLAG_STRUCTURED_TEXT & FLAG_STRUCTURED_TEXT != 0) by (bit_vector);
        lemma_len_bytes_round_trip(len);
        assert(buf@.subrange(4, 8) =~= spec_len_bytes(len));
    }
    buf
}

/// Validates an 8-byte header and returns the declared payload length.
///
/// Every validation failure is fatal to the connection.  A header with a
/// non-zero chunk-count or compression-id is rejected here, never acted on.
pub fn parse_header(header: &[u8; 8]) -> (r: Result<usize, FrameError>)
    ensures
        r matches Ok(n) ==> spec_parse_header(header@) == Ok::<int, FrameError>(n as int),
        r matches Err(e) ==> spec_parse_header(header@) == Err::<int, FrameError>(e),
        spec_header_ok(header@) <==> r is Ok,
{
    if header[0] != FRAME_MAGIC {
        return Err(FrameError::BadMagic(header[0]));
    }
    if header[3] != 0 {
        return Err(FrameError::Chunked(header[3]));
    }
    if header[1] & FLAG_STRUCTURED_TEXT == 0 {
        return Err(FrameError::UnsupportedEncoding(header[1]));
    }
    if header[2] != 0 {
        return Err(FrameError::Compressed(header[2]));
    }
    let b3 = header[4] as usize;
    let b2 = header[5] as usize;
    let b1 = header[6] as usize;
    let b0 = header[7] as usize;
    let n = b3 * 0x100_0000 + b2 * 0x1_0000 + b1 * 0x100 + b0;
    proof {
        assert(header@.subrange(4, 8) =~= seq![header@[4], header@[5], header@[6], header@[7]]);
    }
    Ok(n)
}

/// Encodes one payload as a complete frame: the 8-byte header followed by
/// the payload bytes.
pub fn encode_frame(payload: &[u8]) -> (r: Vec<u8>)
    requires
        payload@.len() <= u32::MAX,
    ensures
        r@ == spec_header(payload@.len() as u32) + payload@,
        r@.len() == payload@.len() + 8,
{
    let mut frame = make_header(payload);
    frame.extend_from_slice(payload);
    frame
}

/// Decodes one complete frame back into its payload.
///
/// Succeeds exactly on a frame that holds a valid 8-byte header whose
/// declared length equals the bytes that follow it, and then returns those
/// bytes; anything else is a transport error.
pub fn decode_frame(frame: &[u8]) -> (r: Result<Vec<u8>, FrameError>)
    ensures
        frame@.len() >= 8 && spec_header_ok(frame@.subrange(0, 8)) && spec_declared_len(
            frame@.subrange(0, 8),
        ) == frame@.len() - 8 ==> r is Ok,
        r matches Ok(p) ==> {
            &&& frame@.len() >= 8
            &&& spec_header_ok(frame@.subrange(0, 8))
            &&& spec_declared_len(frame@.subrange(0, 8)) == frame@.len() - 8
            &&& p@ == frame@.subrange(8, frame@.len() as int)
        },
        frame@.len() < 8 ==> r == Err::<Vec<u8>, FrameError>(FrameError::Truncated),
        frame@.len() >= 8 && !spec_header_ok(frame@.subrange(0, 8)) ==> (r matches Err(e)
            && spec_parse_header(frame@.subrange(0, 8)) == Err::<int, FrameError>(e)),
        frame@.len() >= 8 && spec_header_ok(frame@.subrange(0, 8)) && spec_declared_len(
            frame@.subrange(0, 8),
        ) != frame@.len() - 8 ==> r == Err::<Vec<u8>, FrameError>(FrameError::LengthMismatch),
{
    if frame.len() < 8 {
        return Err(FrameError::Truncated);
    }
    let header: [u8; 8] = [
        frame[0],
        frame[1],
        frame[2],
        frame[3],
        frame[4],
        frame[5],
        frame[6],
        frame[7],
    ];
    proof {
        assert(header@ =~= frame@.subrange(0, 8));
    }
    let declared = match parse_header(&header) {
        Ok(n) => n,
        Err(e) => {
            return Err(e);
        },
    };
    if declared != frame.len() - 8 {
        return Err(FrameError::LengthMismatch);
    }
    let mut payload: Vec<u8> = Vec::new();
    let mut i: usize = 8;
    while i < frame.len()
        invariant
            8 <= i <= frame@.len(),
            payload@ == frame@.subrange(8, i as int),
        decreases frame@.len() - i,
    {
        payload.push(frame[i]);
        i += 1;
        proof {
            assert(payload@ =~= frame@.subrange(8, i as int));
        }
    }
    Ok(payload)
}

/// Round trip: the frame built for a payload decodes back to that payload,
/// for every payload whose length fits the 4-byte size field.  Together with
/// the contract of `decode_frame`, this pins `decode_frame(encode_frame(p))`
/// to `Ok(p)`.
pub proof fn lemma_frame_round_trip(payload: Seq<u8>)
    requires
        payload.len() <= u32::MAX,
    ensures
        ({
            let frame = spec_header(payload.len() as u32) + payload;
            &&& frame.len() == payload.len() + 8
            &&& spec_header_ok(frame.subrange(0, 8))
            &&& spec_declared_len(frame.subrange(0, 8)) == payload.len()
            &&& frame.subrange(8, frame.len() as int) == payload
        }),
{
    let len = payload.len() as u32;
    let frame = spec_header(len) + payload;
    assert(frame.subrange(0, 8) =~= spec_header(len));
    assert(FLAG_STRUCTURED_TEXT & FLAG_STRUCTURED_TEXT != 0) by (bit_vector);
    lemma_len_bytes_round_trip(len);
    assert(frame.subrange(0, 8).subrange(4, 8) =~= spec_len_bytes(len));
    assert(frame.subrange(8, frame.len() as int) =~= payload);
}

} // verus!
