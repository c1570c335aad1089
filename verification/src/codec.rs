//! Block codec: the fixed, reversible mapping between a 16-byte AES block
//! and the four 32-bit words the peripheral FIFO transports.
//!
//! Each word carries 4 consecutive block bytes in little-endian order, and
//! the four words are produced and consumed in positional order. The byte
//! order is load-bearing: the contracts pin it exactly.

use vstd::prelude::*;

verus! {

/// The 32-bit word that carries the four bytes `b0..b3`, `b0` in the least
/// significant position (little-endian).
pub open spec fn word_of_bytes(b0: u8, b1: u8, b2: u8, b3: u8) -> u32 {
    (b0 as u32) | ((b1 as u32) << 8) | ((b2 as u32) << 16) | ((b3 as u32) << 24)
}

/// Byte `j` (0 <= j < 4) of the word `w`, counting from the least
/// significant byte.
pub open spec fn byte_of_word(w: u32, j: int) -> u8 {
    ((w >> (8 * j)) & 0xff) as u8
}

/// The four FIFO words that transport the 16-byte block `b`.
pub open spec fn fifo_words_of_block(b: Seq<u8>) -> Seq<u32> {
    Seq::new(4, |i: int| word_of_bytes(b[4 * i], b[4 * i + 1], b[4 * i + 2], b[4 * i + 3]))
}

/// The 16-byte block transported by the four FIFO words `ws`.
pub open spec fn block_of_fifo_words(ws: Seq<u32>) -> Seq<u8> {
    Seq::new(16, |i: int| byte_of_word(ws[i / 4], i % 4))
}

/// Each byte of a packed word reads back unchanged.
proof fn lemma_word_bytes(b0: u8, b1: u8, b2: u8, b3: u8)
    ensures
        byte_of_word(word_of_bytes(b0, b1, b2, b3), 0) == b0,
        byte_of_word(word_of_bytes(b0, b1, b2, b3), 1) == b1,
        byte_of_word(word_of_bytes(b0, b1, b2, b3), 2) == b2,
        byte_of_word(word_of_bytes(b0, b1, b2, b3), 3) == b3,
{
    assert((((b0 as u32) | ((b1 as u32) << 8) | ((b2 as u32) << 16) | ((b3 as u32) << 24)) >> 0)
        & 0xff == (b0 as u32)) by (bit_vector);
    assert((((b0 as u32) | ((b1 as u32) << 8) | ((b2 as u32) << 16) | ((b3 as u32) << 24)) >> 8)
        & 0xff == (b1 as u32)) by (bit_vector);
    assert((((b0 as u32) | ((b1 as u32) << 8) | ((b2 as u32) << 16) | ((b3 as u32) << 24)) >> 16)
        & 0xff == (b2 as u32)) by (bit_vector);
    assert((((b0 as u32) | ((b1 as u32) << 8) | ((b2 as u32) << 16) | ((b3 as u32) << 24)) >> 24)
        & 0xff == (b3 as u32)) by (bit_vector);
}

/// Deterministic codec, one direction of the round trip: decoding the four
/// words produced by encoding a 16-byte block yields the block exactly.
pub proof fn lemma_codec_round_trip(b: Seq<u8>)
    requires
        b.len() == 16,
    ensures
        block_of_fifo_words(fifo_words_of_block(b)) == b,
{
    let ws = fifo_words_of_block(b);
    assert forall|i: int| 0 <= i < 16 implies block_of_fifo_words(ws)[i] == b[i] by {
        let q = i / 4;
        let r = i % 4;
        lemma_word_bytes(b[4 * q], b[4 * q + 1], b[4 * q + 2], b[4 * q + 3]);
        assert(4 * q + r == i);
    }
    assert(block_of_fifo_words(ws) =~= b);
}

/// Encodes a 16-byte block as the four little-endian FIFO words.
pub fn convert_u8_to_u32_array(bytes: [u8; 16]) -> (r: [u32; 4])
    ensures
        r@ == fifo_words_of_block(bytes@),
{
    let w0: u32 = (bytes[0] as u32) | ((bytes[1] as u32) << 8) | ((bytes[2] as u32) << 16)
        | ((bytes[3] as u32) << 24);
    let w1: u32 = (bytes[4] as u32) | ((bytes[5] as u32) << 8) | ((bytes[6] as u32) << 16)
        | ((bytes[7] as u32) << 24);
    let w2: u32 = (bytes[8] as u32) | ((bytes[9] as u32) << 8) | ((bytes[10] as u32) << 16)
        | ((bytes[11] as u32) << 24);
    let w3: u32 = (bytes[12] as u32) | ((bytes[13] as u32) << 8) | ((bytes[14] as u32) << 16)
        | ((bytes[15] as u32) << 24);
    let r: [u32; 4] = [w0, w1, w2, w3];
    proof {
        assert(r@ =~= fifo_words_of_block(bytes@));
    }
    r
}

/// Extracts byte `j` of the word `w`, counting from the least significant
/// byte.
pub fn extract_byte(w: u32, j: u32) -> (r: u8)
    requires
        j < 4,
    ensures
        r == byte_of_word(w, j as int),
{
    let shifted: u32 = w >> (8 * j);
    let masked: u32 = shifted & 0xff;
    proof {
        assert((w >> (8 * j)) & 0xff < 256) by (bit_vector);
    }
    masked as u8
}

/// Decodes four little-endian FIFO words back into a 16-byte block.
pub fn convert_u32_to_u8_array(words: [u32; 4]) -> (r: [u8; 16])
    ensures
        r@ == block_of_fifo_words(words@),
{
    let r: [u8; 16] = [
        extract_byte(words[0], 0),
        extract_byte(words[0], 1),
        extract_byte(words[0], 2),
        extract_byte(words[0], 3),
        extract_byte(words[1], 0),
        extract_byte(words[1], 1),
        extract_byte(words[1], 2),
        extract_byte(words[1], 3),
        extract_byte(words[2], 0),
        extract_byte(words[2], 1),
        extract_byte(words[2], 2),
        extract_byte(words[2], 3),
        extract_byte(words[3], 0),
        extract_byte(words[3], 1),
        extract_byte(words[3], 2),
        extract_byte(words[3], 3),
    ];
    proof {
        assert forall|i: int| 0 <= i < 16 implies r@[i] == block_of_fifo_words(words@)[i] by {
            assert(block_of_fifo_words(words@)[i] == byte_of_word(words@[i / 4], i % 4));
            assert(0 <= i / 4 < 4 && 0 <= i % 4 < 4);
        }
        assert(r@ =~= block_of_fifo_words(words@));
    }
    r
}

} // verus!
