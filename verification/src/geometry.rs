//! The fixed geometry of the single textured quad, and the serialization of
//! 32-bit words into the densely packed little-endian byte image a buffer
//! upload hands to the driver.
//!
//! Vertex components are single-precision values; they are carried here as
//! their IEEE-754 bit patterns, so that the byte image the driver sees is
//! stated exactly while the arithmetic stays on plain integers.

use vstd::prelude::*;

verus! {

use vstd::bytes::spec_u32_to_le_bytes;
use vstd::bytes::u32_to_le_bytes;

/// IEEE-754 single-precision bit pattern of zero.
pub const F32_ZERO_BITS: u32 = 0x0000_0000;

/// IEEE-754 single-precision bit pattern of one.
pub const F32_ONE_BITS: u32 = 0x3F80_0000;

/// IEEE-754 single-precision bit pattern of one half.
pub const F32_HALF_BITS: u32 = 0x3F00_0000;

/// IEEE-754 single-precision bit pattern of negative one half.
pub const F32_NEG_HALF_BITS: u32 = 0xBF00_0000;

/// The quad's vertex list: four vertices of four components each
/// (position x, position y, texture u, texture v), densely packed. The
/// corners run top-left, top-right, bottom-right, bottom-left over a square
/// of side one centered at the origin, with texture coordinates spanning
/// zero to one corner-to-corner.
pub open spec fn quad_vertex_words_spec() -> Seq<u32> {
    seq![
        F32_NEG_HALF_BITS, F32_HALF_BITS, F32_ZERO_BITS, F32_ZERO_BITS,
        F32_HALF_BITS, F32_HALF_BITS, F32_ONE_BITS, F32_ZERO_BITS,
        F32_HALF_BITS, F32_NEG_HALF_BITS, F32_ONE_BITS, F32_ONE_BITS,
        F32_NEG_HALF_BITS, F32_NEG_HALF_BITS, F32_ZERO_BITS, F32_ONE_BITS,
    ]
}

/// The quad's index list: two triangles covering the quad.
pub open spec fn quad_index_words_spec() -> Seq<u32> {
    seq![0u32, 1u32, 2u32, 2u32, 3u32, 0u32]
}

/// The vertex list of [`quad_vertex_words_spec`] as a vector.
pub fn quad_vertex_words() -> (r: Vec<u32>)
    ensures
        r@ == quad_vertex_words_spec(),
{
    let r: Vec<u32> = vec![
        F32_NEG_HALF_BITS, F32_HALF_BITS, F32_ZERO_BITS, F32_ZERO_BITS,
        F32_HALF_BITS, F32_HALF_BITS, F32_ONE_BITS, F32_ZERO_BITS,
        F32_HALF_BITS, F32_NEG_HALF_BITS, F32_ONE_BITS, F32_ONE_BITS,
        F32_NEG_HALF_BITS, F32_NEG_HALF_BITS, F32_ZERO_BITS, F32_ONE_BITS,
    ];
    assert(r@ =~= quad_vertex_words_spec());
    r
}

/// The index list of [`quad_index_words_spec`] as a vector.
pub fn quad_index_words() -> (r: Vec<u32>)
    ensures
        r@ == quad_index_words_spec(),
{
    let r: Vec<u32> = vec![0u32, 1u32, 2u32, 2u32, 3u32, 0u32];
    assert(r@ =~= quad_index_words_spec());
    r
}

/// The little-endian byte image of a sequence of 32-bit words, in order.
pub open spec fn le_bytes_of_words(ws: Seq<u32>) -> Seq<u8>
    decreases ws.len(),
{
    if ws.len() == 0 {
        Seq::empty()
    } else {
        le_bytes_of_words(ws.drop_last()) + spec_u32_to_le_bytes(ws.last())
    }
}

/// The byte image is four bytes per word.
pub proof fn lemma_le_bytes_len(ws: Seq<u32>)
    ensures
        le_bytes_of_words(ws).len() == 4 * ws.len(),
    decreases ws.len(),
{
    vstd::bytes::lemma_auto_spec_u32_to_from_le_bytes();
    if ws.len() > 0 {
        lemma_le_bytes_len(ws.drop_last());
    }
}

/// Serialize 32-bit words verbatim into their densely packed little-endian
/// byte image.
pub fn words_to_le_bytes(ws: &Vec<u32>) -> (r: Vec<u8>)
    ensures
        r@ == le_bytes_of_words(ws@),
        r@.len() == 4 * ws@.len(),
{
    let mut out: Vec<u8> = Vec::new();
    let mut i: usize = 0;
    while i < ws.len()
        invariant
            i <= ws@.len(),
            out@ == le_bytes_of_words(ws@.take(i as int)),
            out@.len() == 4 * i,
        decreases ws@.len() - i,
    {
        let mut word_bytes = u32_to_le_bytes(ws[i]);
        out.append(&mut word_bytes);
        proof {
            assert(ws@.take(i + 1 as int).drop_last() =~= ws@.take(i as int));
            assert(ws@.take(i + 1 as int).last() == ws@[i as int]);
        }
        i = i + 1;
    }
    proof {
        assert(ws@.take(ws@.len() as int) =~= ws@);
    }
    out
}

} // verus!
