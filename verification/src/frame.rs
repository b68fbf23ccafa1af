//! The display as the host presents it: one 64-bit word per row, and the
//! bytes of these words.
use crate::display::{sprite_bit, Display};
use vstd::prelude::*;

verus! {

/// Whether the bit of `word` that stands for column `c` is set. Column 0 is
/// the most significant bit.
pub open spec fn word_bit(word: u64, c: int) -> bool {
    0 <= c < 64 && (word >> ((63 - c) as u64)) & 1 == 1
}

/// Byte `k` of `word`, byte 0 being the least significant.
pub open spec fn byte_of(word: u64, k: int) -> u8 {
    ((word >> ((8 * k) as u64)) & 0xFF) as u8
}

/// `bytes` holds the words one after the other, each with its least
/// significant byte first.
pub open spec fn little_endian(bytes: Seq<u8>, words: Seq<u64>) -> bool {
    &&& bytes.len() == 8 * words.len()
    &&& forall|i: int, k: int|
        0 <= i < words.len() && 0 <= k < 8 ==> bytes[8 * i + k] == #[trigger] byte_of(words[i], k)
}

/// `bytes` holds the words one after the other, each with its most
/// significant byte first.
pub open spec fn big_endian(bytes: Seq<u8>, words: Seq<u64>) -> bool {
    &&& bytes.len() == 8 * words.len()
    &&& forall|i: int, k: int|
        0 <= i < words.len() && 0 <= k < 8 ==> bytes[8 * i + 7 - k] == #[trigger] byte_of(
            words[i],
            k,
        )
}

/// `words` holds the grid, one word per row.
pub open spec fn packs(words: Seq<u64>, g: Seq<Seq<bool>>) -> bool {
    &&& words.len() == 32
    &&& forall|r: int, c: int|
        0 <= r < 32 && 0 <= c < 64 ==> #[trigger] word_bit(words[r], c) == g[r][c]
}

/// `bytes` holds the grid, eight bytes per row and one bit per pixel, the
/// leftmost pixel of a byte in its most significant bit. With
/// `least_significant_first`, the eight pixels on the right of a row are in
/// the first byte of the row; without, the eight pixels on the left.
pub open spec fn frames(bytes: Seq<u8>, g: Seq<Seq<bool>>, least_significant_first: bool) -> bool {
    &&& bytes.len() == 256
    &&& forall|r: int, c: int|
        0 <= r < 32 && 0 <= c < 64 ==> g[r][c] == sprite_bit(
            #[trigger] bytes[frame_index(r, c, least_significant_first)],
            c % 8,
        )
}

/// The index of the byte that holds the pixel in row `r`, column `c`.
pub open spec fn frame_index(r: int, c: int, least_significant_first: bool) -> int {
    if least_significant_first {
        8 * r + 7 - c / 8
    } else {
        8 * r + c / 8
    }
}

/// Shifting a bit into a word from the right moves every bit one place up.
proof fn lemma_shift_in(num: u64, filled: u64, place: u64, bit: u64)
    by (bit_vector)
    requires
        filled < 64,
        num >> filled == 0,
        1 <= place <= filled,
        bit <= 1,
    ensures
        (((num << 1) | bit) >> place) & 1 == (num >> ((place - 1) as u64)) & 1,
{
}

/// A bit shifted into a word from the right is its lowest bit, and the word
/// has one more place filled.
proof fn lemma_shifted_in(num: u64, filled: u64, bit: u64)
    by (bit_vector)
    requires
        filled < 64,
        num >> filled == 0,
        bit <= 1,
    ensures
        (((num << 1) | bit) >> 0) & 1 == bit,
        filled < 63 ==> ((num << 1) | bit) >> ((filled + 1) as u64) == 0,
{
}

/// A bit of a byte of a word is a bit of the word.
proof fn lemma_bit_of_byte(word: u64, k: u64, j: u64)
    by (bit_vector)
    requires
        k < 8,
        j < 8,
    ensures
        ((((word >> (8 * k)) & 0xFF) as u8) >> (j as u8)) & 1 == 1 <==> (word >> (8 * k + j)) & 1
            == 1,
{
}

/// The pixel in column `c` of a packed row is bit `c mod 8`, counted from
/// the most significant, of byte `7 - c / 8` of the word.
pub proof fn lemma_word_bit_in_byte(word: u64, c: int)
    requires
        0 <= c < 64,
    ensures
        word_bit(word, c) == sprite_bit(byte_of(word, 7 - c / 8), c % 8),
{
    let k = (7 - c / 8) as u64;
    let j = (7 - c % 8) as u64;
    lemma_bit_of_byte(word, k, j);
}

/// The wrapped call is `bytemuck::cast_slice::<u64, u8>`, which hands out
/// the memory of the words as bytes. Claimed: there are eight bytes per
/// word, in the order of the words, and within each word they are in the
/// byte order of the machine, which is either the least or the most
/// significant byte first.
#[verifier::external_body]
fn words_as_bytes(words: &[u64; 32]) -> (bytes: Vec<u8>)
    ensures
        little_endian(bytes@, words@) || big_endian(bytes@, words@),
{
    bytemuck::cast_slice::<u64, u8>(words).to_vec()
}

impl Display {
    /// The grid as one word per row: bit 63 of a word is the leftmost pixel
    /// of its row, bit 0 the rightmost.
    pub fn pack_rows(&self) -> (rows: [u64; 32])
        ensures
            packs(rows@, self@),
    {
        proof {
            self.view_is_grid();
        }
        let mut res: [u64; 32] = [0u64; 32];
        let mut r: usize = 0;
        while r < 32
            invariant
                r <= 32,
                forall|rr: int, c: int|
                    0 <= rr < r && 0 <= c < 64 ==> #[trigger] word_bit(res[rr], c) == self@[rr][c],
            decreases 32 - r,
        {
            let mut num: u64 = 0;
            let mut c: usize = 0;
            assert(num >> 0 == 0) by (bit_vector)
                requires
                    num == 0,
            ;
            while c < 64
                invariant
                    c <= 64,
                    r < 32,
                    c < 64 ==> num >> (c as u64) == 0,
                    forall|cc: int|
                        0 <= cc < c ==> ((num >> ((c - 1 - cc) as u64)) & 1 == 1) == self@[r as int][cc],
                decreases 64 - c,
            {
                let lit: bool = self.pixel(r, c);
                let ghost before = num;
                let ghost bit: u64 = if lit {
                    1
                } else {
                    0
                };
                num <<= 1;
                if lit {
                    num |= 0b1;
                }
                proof {
                    assert(before << 1 == (before << 1) | 0) by (bit_vector);
                    assert forall|cc: int| 0 <= cc < c + 1 implies ((num >> ((c - cc) as u64)) & 1
                        == 1) == self@[r as int][cc] by {
                        if cc < c {
                            lemma_shift_in(before, c as u64, (c - cc) as u64, bit);
                        } else {
                            lemma_shifted_in(before, c as u64, bit);
                        }
                    }
                    lemma_shifted_in(before, c as u64, bit);
                }
                c += 1;
            }
            res[r] = num;
            r += 1;
        }
        res
    }

    /// The grid as the 256 bytes that the host hands to the graphics device:
    /// the words of `pack_rows` in the byte order of the machine.
    pub fn frame_bytes(&self) -> (bytes: Vec<u8>)
        ensures
            frames(bytes@, self@, true) || frames(bytes@, self@, false),
    {
        let rows: [u64; 32] = self.pack_rows();
        let bytes: Vec<u8> = words_as_bytes(&rows);
        proof {
            if little_endian(bytes@, rows@) {
                assert forall|r: int, c: int| 0 <= r < 32 && 0 <= c < 64 implies self@[r][c]
                    == sprite_bit(#[trigger] bytes@[frame_index(r, c, true)], c % 8) by {
                    lemma_word_bit_in_byte(rows@[r], c);
                }
            } else {
                assert forall|r: int, c: int| 0 <= r < 32 && 0 <= c < 64 implies self@[r][c]
                    == sprite_bit(#[trigger] bytes@[frame_index(r, c, false)], c % 8) by {
                    lemma_word_bit_in_byte(rows@[r], c);
                }
            }
        }
        bytes
    }
}

} // verus!
