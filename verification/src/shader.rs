//! Decoding of SPIR-V shader binaries into 32-bit words.

use vstd::prelude::*;

verus! {

/// The little-endian 32-bit word held by the four bytes starting at `4 * i`.
pub open spec fn le_word(bytes: Seq<u8>, i: int) -> int {
    bytes[4 * i] + bytes[4 * i + 1] * 256 + bytes[4 * i + 2] * 65536 + bytes[4 * i + 3] * 16777216
}

/// Reads `bytes` as consecutive little-endian 32-bit words; trailing bytes that
/// do not fill a whole word are ignored.
pub fn bytes_to_shader(bytes: &[u8]) -> (out: Vec<u32>)
    ensures
        out.len() == bytes.len() / 4,
        forall|i: int| 0 <= i < out.len() ==> out[i] as int == le_word(bytes@, i),
{
    let mut out: Vec<u32> = Vec::new();
    let words = bytes.len() / 4;
    let mut i: usize = 0;
    while i < words
        invariant
            words == bytes.len() / 4,
            i <= words,
            out.len() == i,
            forall|j: int| 0 <= j < i ==> out[j] as int == le_word(bytes@, j),
        decreases words - i,
    {
        let range = i * 4;
        let b0 = bytes[range] as u32;
        let b1 = bytes[range + 1] as u32;
        let b2 = bytes[range + 2] as u32;
        let b3 = bytes[range + 3] as u32;
        let n = b0 + b1 * 256 + b2 * 65536 + b3 * 16777216;
        out.push(n);
        i = i + 1;
    }
    out
}

/// Law: each decoded word gives back, byte by byte from the lowest, the four
/// bytes it was read from.
pub proof fn law_shader_word_bytes(bytes: Seq<u8>, i: int, word: u32)
    requires
        0 <= i,
        4 * i + 4 <= bytes.len(),
        word as int == le_word(bytes, i),
    ensures
        word & 0xff == bytes[4 * i],
        (word >> 8u32) & 0xff == bytes[4 * i + 1],
        (word >> 16u32) & 0xff == bytes[4 * i + 2],
        (word >> 24u32) & 0xff == bytes[4 * i + 3],
{
    let b0 = bytes[4 * i];
    let b1 = bytes[4 * i + 1];
    let b2 = bytes[4 * i + 2];
    let b3 = bytes[4 * i + 3];
    assert(word & 0xff == b0 && (word >> 8u32) & 0xff == b1 && (word >> 16u32) & 0xff == b2
        && (word >> 24u32) & 0xff == b3) by (bit_vector)
        requires
            word == b0 as u32 + b1 as u32 * 256 + b2 as u32 * 65536 + b3 as u32 * 16777216,
    ;
}

} // verus!
