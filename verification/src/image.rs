//! Decoding a binary program image into memory words.

use vstd::prelude::*;

verus! {

/// The word that two little-endian bytes encode.
pub open spec fn word_of(lo: u8, hi: u8) -> u16 {
    (lo + hi * 256) as u16
}

/// Decodes a program image: a dense sequence of little-endian 16-bit words,
/// no header.  A trailing lone byte (an incomplete final word) is discarded.
pub fn decode_image(bytes: &Vec<u8>) -> (words: Vec<u16>)
    ensures
        words@.len() == bytes@.len() / 2,
        forall|i: int|
            0 <= i < words@.len() ==> words@[i] == word_of(bytes@[2 * i], bytes@[2 * i + 1]),
{
    let mut words: Vec<u16> = Vec::new();
    let mut i: usize = 0;
    while i + 1 < bytes.len()
        invariant
            i % 2 == 0,
            i <= bytes@.len(),
            words@.len() == i / 2,
            forall|j: int|
                0 <= j < words@.len() ==> words@[j] == word_of(bytes@[2 * j], bytes@[2 * j + 1]),
        decreases bytes@.len() - i,
    {
        let lo = bytes[i];
        let hi = bytes[i + 1];
        let w: u16 = (lo as u16) | ((hi as u16) << 8);
        proof {
            assert((lo as u16) | ((hi as u16) << 8) == lo + hi * 256) by (bit_vector);
        }
        words.push(w);
        i += 2;
    }
    proof {
        assert(bytes@.len() == i || bytes@.len() == i + 1);
        assert(i / 2 == bytes@.len() / 2) by (nonlinear_arith)
            requires
                i % 2 == 0,
                bytes@.len() == i || bytes@.len() == i + 1,
        ;
    }
    words
}

} // verus!
