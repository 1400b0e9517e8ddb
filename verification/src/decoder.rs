//! Decoding a byte buffer into big-endian 32-bit words.
//!
//! The buffer is split into consecutive groups of four bytes, read left to
//! right; each complete group becomes one word, and trailing bytes that do
//! not fill a group are dropped.

use vstd::prelude::*;

verus! {

/// The value of four bytes read as one big-endian 32-bit word:
/// the first byte is the most significant.
pub open spec fn word_of(b0: u8, b1: u8, b2: u8, b3: u8) -> u32 {
    (b0 * 0x100_0000 + b1 * 0x1_0000 + b2 * 0x100 + b3) as u32
}

/// The sequence of words held by a byte sequence: one word per complete
/// four-byte group, in order; trailing bytes beyond the last complete
/// group contribute nothing.
pub open spec fn decode_spec(s: Seq<u8>) -> Seq<u32> {
    Seq::new(s.len() / 4, |i: int| word_of(s[4 * i], s[4 * i + 1], s[4 * i + 2], s[4 * i + 3]))
}

/// Decode a byte buffer into its big-endian 32-bit words.
///
/// Total over every input: an empty buffer gives an empty result, and a
/// length that is not a multiple of four only shortens the result.
pub fn update_spim(data: &[u8]) -> (words: Vec<u32>)
    ensures
        words@ == decode_spec(data@),
        words@.len() == data@.len() / 4,
{
    let mut words: Vec<u32> = Vec::new();
    let mut idx: usize = 0;
    while data.len() - idx >= 4
        invariant
            idx <= data@.len(),
            idx == 4 * words@.len(),
            forall|j: int|
                0 <= j < words@.len() ==> words@[j] == word_of(
                    data@[4 * j],
                    data@[4 * j + 1],
                    data@[4 * j + 2],
                    data@[4 * j + 3],
                ),
        decreases data@.len() - idx,
    {
        let b0: u8 = data[idx];
        let b1: u8 = data[idx + 1];
        let b2: u8 = data[idx + 2];
        let b3: u8 = data[idx + 3];
        let w: u32 = (b0 as u32) * 0x100_0000 + (b1 as u32) * 0x1_0000 + (b2 as u32) * 0x100
            + (b3 as u32);
        proof {
            assert(w == word_of(
                data@[idx as int],
                data@[idx + 1],
                data@[idx + 2],
                data@[idx + 3],
            ));
        }
        words.push(w);
        idx = idx + 4;
    }
    proof {
        assert(words@ =~= decode_spec(data@));
    }
    words
}

/// Decoding is deterministic: any two results of decoding the same byte
/// sequence are equal. Each call of `update_spim` is pinned to
/// `decode_spec` of its input, so no hidden state can tell two calls apart.
pub proof fn lemma_decode_deterministic(b: Seq<u8>, r1: Seq<u32>, r2: Seq<u32>)
    requires
        r1 == decode_spec(b),
        r2 == decode_spec(b),
    ensures
        r1 == r2,
{
}

} // verus!
