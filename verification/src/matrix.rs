//! The viewport transform itself: sixteen single-precision entries, held as
//! bit patterns, and their 64-byte little-endian serialization — the exact
//! payload that the upload step stages for the GPU copy.
//!
//! Laid out row-major as a 4x4 matrix, the transform scales x by
//! `1 / (width / 2)`, y by `-1 / (height / 2)`, keeps z, and translates by
//! `(-1, 1, 0)`:
//!
//! ```text
//! [ 1/(w/2)    0     0  0 ]
//! [   0     -1/(h/2) 0  0 ]
//! [   0        0     1  0 ]
//! [  -1        1     0  1 ]
//! ```

use vstd::prelude::*;
use crate::fbits::{recip_half_bits, spec_scale_bits};

verus! {

/// The bit pattern of `1.0f32`.
pub const ONE_BITS: u32 = 0x3f80_0000;

/// The bit pattern of `-1.0f32`.
pub const NEG_ONE_BITS: u32 = 0xbf80_0000;

/// The serialized transform is sixteen 4-byte words.
pub const UNIFORM_WORDS: usize = 16;

/// The serialized transform is exactly 64 bytes.
pub const UNIFORM_BYTES: usize = 64;

/// The x scale entry: the bits of `1.0 / (width as f32 / 2.0)`.
pub open spec fn spec_scale_x(width: u32) -> u32 {
    spec_scale_bits(width)
}

/// The y scale entry: the x scale of `height` with the sign bit set, the
/// bits of `-1.0 / (height as f32 / 2.0)`. Negation of a finite or infinite
/// float only sets the sign bit.
pub open spec fn spec_scale_y(height: u32) -> u32 {
    spec_scale_bits(height) | 0x8000_0000
}

/// The sixteen words of the transform for one resolution, in memory order.
pub open spec fn spec_matrix_words(width: u32, height: u32) -> Seq<u32> {
    seq![
        spec_scale_x(width), 0, 0, 0,
        0, spec_scale_y(height), 0, 0,
        0, 0, ONE_BITS, 0,
        NEG_ONE_BITS, ONE_BITS, 0, ONE_BITS,
    ]
}

/// Byte `k` of the little-endian serialization of `x`.
pub open spec fn word_byte(x: u32, k: int) -> u8
    recommends
        0 <= k < 4,
{
    ((x >> ((8 * k) as u32)) & 0xff) as u8
}

/// The little-endian serialization of a word sequence: four bytes per word,
/// least significant first.
pub open spec fn le_bytes_of_words(ws: Seq<u32>) -> Seq<u8> {
    Seq::new(ws.len() * 4, |j: int| word_byte(ws[j / 4], j % 4))
}

/// The 64-byte upload payload for one resolution.
pub open spec fn spec_matrix_bytes(width: u32, height: u32) -> Seq<u8> {
    le_bytes_of_words(spec_matrix_words(width, height))
}

/// Serializes words to little-endian bytes, four per word.
pub fn encode_words_le(ws: &Vec<u32>) -> (out: Vec<u8>)
    ensures
        out@ == le_bytes_of_words(ws@),
{
    let mut out: Vec<u8> = Vec::new();
    let mut i: usize = 0;
    while i < ws.len()
        invariant
            i <= ws.len(),
            out@.len() == 4 * i,
            forall|j: int| 0 <= j < 4 * i ==> out@[j] == word_byte(ws@[j / 4], j % 4),
        decreases ws.len() - i,
    {
        let x = ws[i];
        proof {
            assert(x & 0xff < 256) by (bit_vector);
            assert((x >> 8u32) & 0xff < 256) by (bit_vector);
            assert((x >> 16u32) & 0xff < 256) by (bit_vector);
            assert((x >> 24u32) & 0xff < 256) by (bit_vector);
            assert(x >> 0u32 == x) by (bit_vector);
        }
        out.push((x & 0xff) as u8);
        out.push(((x >> 8u32) & 0xff) as u8);
        out.push(((x >> 16u32) & 0xff) as u8);
        out.push(((x >> 24u32) & 0xff) as u8);
        proof {
            assert forall|j: int| 0 <= j < 4 * (i + 1) implies out@[j] == word_byte(
                ws@[j / 4],
                j % 4,
            ) by {
                if j >= 4 * i {
                    assert(j / 4 == i as int);
                    assert(j % 4 == j - 4 * (i as int));
                }
            }
        }
        i = i + 1;
    }
    proof {
        assert(out@ =~= le_bytes_of_words(ws@));
    }
    out
}

/// The transform's sixteen words for the given resolution.
pub fn matrix_words(width: u32, height: u32) -> (ws: Vec<u32>)
    ensures
        ws@ == spec_matrix_words(width, height),
{
    let sx = recip_half_bits(width);
    let sy = recip_half_bits(height) | 0x8000_0000;
    let mut ws: Vec<u32> = Vec::new();
    ws.push(sx);
    ws.push(0);
    ws.push(0);
    ws.push(0);
    ws.push(0);
    ws.push(sy);
    ws.push(0);
    ws.push(0);
    ws.push(0);
    ws.push(0);
    ws.push(ONE_BITS);
    ws.push(0);
    ws.push(NEG_ONE_BITS);
    ws.push(ONE_BITS);
    ws.push(0);
    ws.push(ONE_BITS);
    proof {
        assert(ws@ =~= spec_matrix_words(width, height));
    }
    ws
}

/// The 64-byte upload payload for the given resolution.
pub fn matrix_bytes(width: u32, height: u32) -> (out: Vec<u8>)
    ensures
        out@ == spec_matrix_bytes(width, height),
        out@.len() == UNIFORM_BYTES,
{
    let ws = matrix_words(width, height);
    encode_words_le(&ws)
}

} // verus!
