//! The triangle's vertices and the bytes uploaded for them.

use vstd::prelude::*;

verus! {

/// Bit pattern of the single-precision float 0.0.
pub const F32_ZERO: u32 = 0x0000_0000;

/// Bit pattern of the single-precision float 1.0.
pub const F32_ONE: u32 = 0x3F80_0000;

/// Bit pattern of the single-precision float 0.25.
pub const F32_QUARTER: u32 = 0x3E80_0000;

/// Bit pattern of the single-precision float -0.25.
pub const F32_MINUS_QUARTER: u32 = 0xBE80_0000;

/// The sign bit of a single-precision float.
pub const F32_SIGN: u32 = 0x8000_0000;

/// Floats per vertex: a position (x, y, z) then a color (r, g, b, a).
pub const VERTEX_WORDS: usize = 7;

/// Vertices in the triangle.
pub const VERTEX_COUNT: usize = 3;

/// Bytes per vertex: the vertex buffer view's stride.
pub const VERTEX_STRIDE: u32 = 28;

/// Bytes of the whole triangle: the buffer's width and the view's size.
pub const PAYLOAD_SIZE: u32 = 84;

/// The triangle's floats as bit patterns, vertex after vertex. `top` is the bit
/// pattern of `0.25 * aspect`, the height of the top vertex; the two lower
/// vertices sit at its negation, which for an IEEE float flips the sign bit alone.
///
/// | vertex | position | color |
/// |---|---|---|
/// | 0 | (0, top, 0) | (1, 0, 0, 1) |
/// | 1 | (0.25, -top, 0) | (0, 1, 0, 1) |
/// | 2 | (-0.25, -top, 0) | (0, 0, 1, 1) |
pub open spec fn triangle_words(top: u32) -> Seq<u32> {
    let bottom = top ^ F32_SIGN;
    seq![
        F32_ZERO, top, F32_ZERO, F32_ONE, F32_ZERO, F32_ZERO, F32_ONE,
        F32_QUARTER, bottom, F32_ZERO, F32_ZERO, F32_ONE, F32_ZERO, F32_ONE,
        F32_MINUS_QUARTER, bottom, F32_ZERO, F32_ZERO, F32_ZERO, F32_ONE, F32_ONE,
    ]
}

/// Byte `j` (0 is the least significant) of `w`.
pub open spec fn byte_of(w: u32, j: int) -> u8 {
    ((w >> (8 * j) as u32) & 0xff) as u8
}

/// The words laid out as little-endian bytes, one after the other.
pub open spec fn le_bytes(words: Seq<u32>) -> Seq<u8> {
    Seq::new(4 * words.len(), |i: int| byte_of(words[i / 4], i % 4))
}

/// The little-endian word at byte offset `4 * k`.
pub open spec fn word_at(bytes: Seq<u8>, k: int) -> u32 {
    (bytes[4 * k] as u32) | ((bytes[4 * k + 1] as u32) << 8) | ((bytes[4 * k + 2] as u32) << 16)
        | ((bytes[4 * k + 3] as u32) << 24)
}

/// The words of the triangle whose top vertex is at height `top_y_bits` (the bit
/// pattern of `0.25 * aspect`).
pub fn triangle_vertices(top_y_bits: u32) -> (r: Vec<u32>)
    ensures
        r@ == triangle_words(top_y_bits),
{
    let bottom = top_y_bits ^ F32_SIGN;
    let r = vec![
        F32_ZERO, top_y_bits, F32_ZERO, F32_ONE, F32_ZERO, F32_ZERO, F32_ONE,
        F32_QUARTER, bottom, F32_ZERO, F32_ZERO, F32_ONE, F32_ZERO, F32_ONE,
        F32_MINUS_QUARTER, bottom, F32_ZERO, F32_ZERO, F32_ZERO, F32_ONE, F32_ONE,
    ];
    assert(r@ =~= triangle_words(top_y_bits));
    r
}

/// The words as little-endian bytes, ready to copy into a mapped buffer.
pub fn to_le_bytes(words: &Vec<u32>) -> (r: Vec<u8>)
    requires
        4 * words@.len() <= usize::MAX,
    ensures
        r@ == le_bytes(words@),
{
    let mut r: Vec<u8> = Vec::new();
    let mut k: usize = 0;
    while k < words.len()
        invariant
            k <= words@.len(),
            4 * words@.len() <= usize::MAX,
            r@ =~= le_bytes(words@.subrange(0, k as int)),
        decreases words@.len() - k,
    {
        let w = words[k];
        let b0 = (w & 0xff) as u8;
        let b1 = ((w >> 8) & 0xff) as u8;
        let b2 = ((w >> 16) & 0xff) as u8;
        let b3 = ((w >> 24) & 0xff) as u8;
        proof {
            assert(w == w >> 0u32) by (bit_vector);
            assert((w & 0xff) < 256) by (bit_vector);
            assert(((w >> 8) & 0xff) < 256) by (bit_vector);
            assert(((w >> 16) & 0xff) < 256) by (bit_vector);
            assert(((w >> 24) & 0xff) < 256) by (bit_vector);
        }
        r.push(b0);
        r.push(b1);
        r.push(b2);
        r.push(b3);
        k = k + 1;
        proof {
            let done = words@.subrange(0, k as int);
            assert forall|i: int| 0 <= i < 4 * done.len() implies #[trigger] r@[i] == byte_of(
                done[i / 4],
                i % 4,
            ) by {
                if i < 4 * (k - 1) {
                    assert(done[i / 4] == words@.subrange(0, k - 1)[i / 4]);
                }
            }
        }
    }
    assert(words@.subrange(0, words@.len() as int) =~= words@);
    r
}

/// The 84 bytes copied into the upload buffer: the triangle's words, little-endian.
pub fn triangle_payload(top_y_bits: u32) -> (r: Vec<u8>)
    ensures
        r@ == le_bytes(triangle_words(top_y_bits)),
        r@.len() == PAYLOAD_SIZE,
{
    let words = triangle_vertices(top_y_bits);
    to_le_bytes(&words)
}

proof fn lemma_word_bytes(w: u32)
    ensures
        ((byte_of(w, 0) as u32) | ((byte_of(w, 1) as u32) << 8) | ((byte_of(w, 2) as u32) << 16)
            | ((byte_of(w, 3) as u32) << 24)) == w,
{
    assert(w == w >> 0u32) by (bit_vector);
    assert(((((w >> 0u32) & 0xff) as u8) as u32) | (((((w >> 8u32) & 0xff) as u8) as u32) << 8u32)
        | (((((w >> 16u32) & 0xff) as u8) as u32) << 16u32) | (((((w >> 24u32) & 0xff) as u8) as u32)
        << 24u32) == w) by (bit_vector);
}

/// Reading the payload back word by word, little-endian, gives the triangle's
/// words again, and the payload is exactly one vertex stride per vertex long.
pub proof fn lemma_payload_round_trip(top_y_bits: u32)
    ensures
        le_bytes(triangle_words(top_y_bits)).len() == VERTEX_STRIDE * VERTEX_COUNT,
        VERTEX_STRIDE * VERTEX_COUNT == PAYLOAD_SIZE,
        forall|k: int|
            0 <= k < VERTEX_WORDS * VERTEX_COUNT ==> #[trigger] word_at(
                le_bytes(triangle_words(top_y_bits)),
                k,
            ) == triangle_words(top_y_bits)[k],
{
    let ws = triangle_words(top_y_bits);
    let bs = le_bytes(ws);
    assert forall|k: int| 0 <= k < VERTEX_WORDS * VERTEX_COUNT implies #[trigger] word_at(bs, k)
        == ws[k] by {
        assert(bs[4 * k] == byte_of(ws[k], 0));
        assert(bs[4 * k + 1] == byte_of(ws[k], 1));
        assert(bs[4 * k + 2] == byte_of(ws[k], 2));
        assert(bs[4 * k + 3] == byte_of(ws[k], 3));
        lemma_word_bytes(ws[k]);
    }
}

} // verus!
