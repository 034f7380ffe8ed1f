//! The decode pipeline: turns compressed draw packets into raw pixel
//! buffers, or into explicit failures — never into silence.
//!
//! Every draw packet the pipeline accepts yields exactly one outcome
//! packet, tagged `draw-decoded` on success and `draw-failed` on a corrupt
//! payload or an unsupported codec tag.  The server withholds further draws
//! for a window until an acknowledgment arrives, so dropping a draw would
//! stall it.

use vstd::prelude::*;
use vstd::string::StringExecFns;

use crate::packet::{spec_raw_lookup, spec_raw_remove, Packet};
use crate::value::{b64_decoded_of, spec_elem, spec_strip_newlines, str_eq, Value};

verus! {

/// What decompressing a picture yields: its pixel width, its pixel
/// height, and the raw pixel buffer in the fixed internal layout — or
/// nothing when the data is corrupt.  The outcome depends on the
/// compressed bytes alone.
pub uninterp spec fn png_image_of(data: Seq<u8>) -> Option<(int, int, Seq<u8>)>;

/// Relies on `spng::decode` with the 8-bit RGBA output format: decoding is
/// a function of the compressed bytes alone, succeeding exactly on a
/// well-formed picture, whose buffer holds four bytes for each of its
/// width times height pixels.
#[verifier::external_body]
fn decode_png(data: &[u8]) -> (r: Option<Vec<u8>>)
    ensures
        r matches Some(p) ==> (png_image_of(data@) matches Some(img) && 0 <= img.0 && 0 <= img.1
            && p@ == img.2 && p@.len() == 4 * img.0 * img.1),
        r is None <==> png_image_of(data@) is None,
{
    spng::decode(data, spng::Format::Rgba8).map(|(_info, pixels)| pixels).ok()
}

/// What decoding compressed data under a codec tag yields: the pixels, or
/// the human-readable failure message.
pub open spec fn spec_decode_outcome(coding: Seq<char>, data: Seq<u8>) -> Result<Seq<u8>, Seq<char>> {
    if coding == "png"@ {
        match png_image_of(data) {
            Some(img) => Ok(img.2),
            None => Err("png decoding failed"@),
        }
    } else {
        Err("unsupported encoding "@ + coding)
    }
}

/// Decodes compressed picture data into the fixed internal pixel layout.
///
/// Returns the pixels for a well-formed picture under a supported codec
/// tag — four bytes for each of the picture's width times height pixels —
/// and otherwise the failure message: corrupt data names the codec that
/// failed, and an unknown tag is reported as an unsupported encoding.
pub fn decode(coding: &str, data: Vec<u8>) -> (r: Result<Vec<u8>, String>)
    ensures
        (match spec_decode_outcome(coding@, data@) {
            Ok(pixels) => r matches Ok(v) && v@ == pixels,
            Err(message) => r matches Err(m) && m@ == message,
        }),
        coding@ == "png"@ ==> (png_image_of(data@) matches Some(img) ==> (r matches Ok(v)
            && v@.len() == 4 * img.0 * img.1)),
{
    if str_eq(coding, "png") {
        match decode_png(data.as_slice()) {
            Some(pixels) => Ok(pixels),
            None => Err(String::from_str("png decoding failed")),
        }
    } else {
        let mut message = String::from_str("unsupported encoding ");
        message.append(coding);
        Err(message)
    }
}

/// The codec tag a draw packet carries.
pub open spec fn spec_draw_coding(p: Packet) -> Seq<char> {
    match spec_elem(p.main@, 6) {
        Value::Text(s) => s@,
        _ => Seq::empty(),
    }
}

/// The compressed bytes a draw packet carries: the side-table blob for the
/// data slot when one is attached, and otherwise the base64 decoding of the
/// textual slot.
pub open spec fn spec_draw_data(p: Packet) -> Seq<u8> {
    match spec_raw_lookup(p.raw@, 7) {
        Some(b) => b@,
        None => (match spec_elem(p.main@, 7) {
            Value::Text(s) => (match b64_decoded_of(spec_strip_newlines(s@)) {
                Some(b) => b,
                None => Seq::empty(),
            }),
            _ => Seq::empty(),
        }),
    }
}

/// Whether a packet is tagged as one of the pipeline's two outcomes.
pub open spec fn spec_is_outcome_packet(p: Packet) -> bool {
    p.main@[0] matches Value::Text(t) && (t@ == "draw-decoded"@ || t@ == "draw-failed"@)
}

/// A blob list with no entry under `index` is unchanged by removing it.
proof fn lemma_raw_remove_absent(raw: Seq<(u8, Vec<u8>)>, index: u8)
    requires
        spec_raw_lookup(raw, index) is None,
    ensures
        spec_raw_remove(raw, index) == raw,
    decreases raw.len(),
{
    if raw.len() != 0 {
        lemma_raw_remove_absent(raw.drop_first(), index);
        assert(seq![raw[0]] + raw.drop_first() =~= raw);
    }
}

/// How a pipeline outcome packet relates to the draw packet it came from.
///
/// On success the outcome is the draw packet retagged `draw-decoded`, its
/// compressed-bytes slot replaced through the side-table by the raw pixel
/// buffer.  On failure it is the packet retagged `draw-failed`, the data
/// slot replaced by the failure message; every other slot — rectangle,
/// codec tag, sequence number — is carried over unchanged.
pub open spec fn spec_draw_outcome(p: Packet, r: Packet) -> bool {
    &&& r.main@.len() == p.main@.len()
    &&& spec_is_outcome_packet(r)
    &&& (match spec_decode_outcome(spec_draw_coding(p), spec_draw_data(p)) {
        Ok(pixels) => {
            &&& r.main@[0] matches Value::Text(t) && t@ == "draw-decoded"@
            &&& r.main@ == p.main@.update(0, r.main@[0])
            &&& r.raw@.len() == spec_raw_remove(p.raw@, 7).len() + 1
            &&& r.raw@.subrange(0, r.raw@.len() - 1) == spec_raw_remove(p.raw@, 7)
            &&& r.raw@.last().0 == 7
            &&& r.raw@.last().1@ == pixels
        },
        Err(message) => {
            &&& r.main@[0] matches Value::Text(t) && t@ == "draw-failed"@
            &&& r.main@[7] matches Value::Text(m) && m@ == message
            &&& r.main@ == p.main@.update(0, r.main@[0]).update(7, r.main@[7])
            &&& r.raw@ == spec_raw_remove(p.raw@, 7)
        },
    })
}

/// One pipeline step: decodes a draw packet's compressed bytes and returns
/// the single outcome packet, related to its input by
/// [`spec_draw_outcome`].  Exactly one outcome exists for every accepted
/// draw packet.
pub fn decode_draw(p: Packet) -> (r: Packet)
    requires
        p.main@.len() >= 9,
    ensures
        spec_draw_outcome(p, r),
{
    let ghost p0 = p;
    let mut q = p;
    let coding = q.get_str(6);
    let data = q.get_bytes(7);
    proof {
        if spec_raw_lookup(p0.raw@, 7) is None {
            lemma_raw_remove_absent(p0.raw@, 7);
        }
        assert(data@ == spec_draw_data(p0));
        assert(coding@ == spec_draw_coding(p0));
    }
    match decode(coding.as_str(), data) {
        Ok(pixels) => {
            q.main[0] = Value::Text(String::from_str("draw-decoded"));
            q.raw.push((7, pixels));
            proof {
                assert(q.main@ =~= p0.main@.update(0, q.main@[0]));
                assert(q.raw@.subrange(0, q.raw@.len() - 1) =~= spec_raw_remove(p0.raw@, 7));
            }
            q
        },
        Err(message) => {
            q.main[0] = Value::Text(String::from_str("draw-failed"));
            q.main[7] = Value::Text(message);
            proof {
                assert(q.main@ =~= p0.main@.update(0, q.main@[0]).update(7, q.main@[7]));
            }
            q
        },
    }
}

/// Runs the pipeline over a batch of draw packets, in submission order:
/// every submitted draw yields exactly one outcome packet, related to it
/// by [`spec_draw_outcome`] — inputs and outputs count the same, so no
/// draw is silently dropped.
pub fn run_pipeline(draws: Vec<Packet>) -> (r: Vec<Packet>)
    requires
        forall|j: int| 0 <= j < draws@.len() ==> (#[trigger] draws@[j]).main@.len() >= 9,
    ensures
        r@.len() == draws@.len(),
        forall|j: int| 0 <= j < r@.len() ==> #[trigger] spec_draw_outcome(draws@[j], r@[j]),
{
    let ghost all = draws@;
    let mut out: Vec<Packet> = Vec::new();
    let mut rest = draws;
    proof {
        assert(all.skip(0) =~= all);
    }
    while rest.len() > 0
        invariant
            out@.len() + rest@.len() == all.len(),
            rest@ == all.skip(out@.len() as int),
            forall|j: int| 0 <= j < all.len() ==> (#[trigger] all[j]).main@.len() >= 9,
            forall|j: int| 0 <= j < out@.len() ==> #[trigger] spec_draw_outcome(all[j], out@[j]),
        decreases rest@.len(),
    {
        let ghost k = out@.len() as int;
        proof {
            assert(rest@[0] == all[k]);
        }
        let p = rest.remove(0);
        out.push(decode_draw(p));
        proof {
            assert(rest@ =~= all.skip(out@.len() as int));
        }
    }
    out
}

} // verus!
