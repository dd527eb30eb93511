//! Instruction words held as bit vectors.

use bitvec::field::BitField;
use bitvec::order::Lsb0;
use bitvec::vec::BitVec;
use bitvec::view::BitView;
use vstd::prelude::*;

verus! {

/// A vector of bits kept by `bitvec`, least significant bit first.
#[verifier::external_body]
#[derive(Debug, PartialEq, Eq)]
pub struct BitWord {
    bits: BitVec<u32, Lsb0>,
}

/// The bits that a bit vector holds, lowest index first.
pub uninterp spec fn bits_of(bits: BitWord) -> Seq<bool>;

/// Bit `k` of `word`, counted from the least significant end.
pub open spec fn word_bit(word: u32, k: u32) -> bool {
    (word >> k) & 1 == 1
}

/// The 32 bits of `word`, least significant first.
pub open spec fn word_bits(word: u32) -> Seq<bool> {
    Seq::new(32, |k: int| word_bit(word, k as u32))
}

/// The bits `lo` to `hi` of `word`, both included, moved down to bit 0.
pub open spec fn word_field(word: u32, lo: u32, hi: u32) -> u32 {
    (word >> lo) & (u32::MAX >> ((31 - (hi - lo)) as u32))
}

/// `BitView::view_bits::<Lsb0>` followed by `BitSlice::to_bitvec`: the
/// vector holds the 32 bits of the word, index `k` being bit `k`.
#[verifier::external_body]
pub(crate) fn bits_from_word(word: u32) -> (bits: BitWord)
    ensures
        bits_of(bits) == word_bits(word),
{
    BitWord { bits: word.view_bits::<Lsb0>().to_bitvec() }
}

/// `BitVec`'s `Index<usize>`: the bit at `index`. The outside call panics
/// for an index beyond the vector's length.
#[verifier::external_body]
pub(crate) fn bit_at(bits: &BitWord, index: usize) -> (bit: bool)
    requires
        index < bits_of(*bits).len(),
    ensures
        bit == bits_of(*bits)[index as int],
{
    bits.bits[index]
}

/// `BitField::load_le::<u32>` on the sub-slice `lo..=hi` of the vector:
/// bit `k` of the result is the vector's bit `lo + k`, and the result has
/// no bits above the field. The outside call panics for a range beyond the
/// vector's length and for one wider than 32 bits.
#[verifier::external_body]
pub(crate) fn load_bits(bits: &BitWord, lo: usize, hi: usize) -> (value: u32)
    requires
        lo <= hi,
        hi < bits_of(*bits).len(),
        hi - lo < 32,
    ensures
        forall|k: u32|
            k < 32 ==> #[trigger] word_bit(value, k) == (k <= hi - lo && bits_of(*bits)[lo + k]),
{
    bits.bits[lo..=hi].load_le::<u32>()
}

/// Two words with the same 32 bits are the same word.
pub proof fn lemma_equal_bits(a: u32, b: u32)
    requires
        forall|k: u32| k < 32 ==> #[trigger] word_bit(a, k) == word_bit(b, k),
    ensures
        a == b,
{
    assert(a == b) by (bit_vector)
        requires
            word_bit(a, 0) == word_bit(b, 0),
            word_bit(a, 1) == word_bit(b, 1),
            word_bit(a, 2) == word_bit(b, 2),
            word_bit(a, 3) == word_bit(b, 3),
            word_bit(a, 4) == word_bit(b, 4),
            word_bit(a, 5) == word_bit(b, 5),
            word_bit(a, 6) == word_bit(b, 6),
            word_bit(a, 7) == word_bit(b, 7),
            word_bit(a, 8) == word_bit(b, 8),
            word_bit(a, 9) == word_bit(b, 9),
            word_bit(a, 10) == word_bit(b, 10),
            word_bit(a, 11) == word_bit(b, 11),
            word_bit(a, 12) == word_bit(b, 12),
            word_bit(a, 13) == word_bit(b, 13),
            word_bit(a, 14) == word_bit(b, 14),
            word_bit(a, 15) == word_bit(b, 15),
            word_bit(a, 16) == word_bit(b, 16),
            word_bit(a, 17) == word_bit(b, 17),
            word_bit(a, 18) == word_bit(b, 18),
            word_bit(a, 19) == word_bit(b, 19),
            word_bit(a, 20) == word_bit(b, 20),
            word_bit(a, 21) == word_bit(b, 21),
            word_bit(a, 22) == word_bit(b, 22),
            word_bit(a, 23) == word_bit(b, 23),
            word_bit(a, 24) == word_bit(b, 24),
            word_bit(a, 25) == word_bit(b, 25),
            word_bit(a, 26) == word_bit(b, 26),
            word_bit(a, 27) == word_bit(b, 27),
            word_bit(a, 28) == word_bit(b, 28),
            word_bit(a, 29) == word_bit(b, 29),
            word_bit(a, 30) == word_bit(b, 30),
            word_bit(a, 31) == word_bit(b, 31),
    ;
}

/// Bit `k` of a field is bit `lo + k` of the word, as far as the field
/// goes; a field is smaller than two to the power of its width.
pub proof fn lemma_field_bits(word: u32, lo: u32, hi: u32, k: u32)
    by (bit_vector)
    requires
        lo <= hi < 32,
        k < 32,
    ensures
        word_bit(word_field(word, lo, hi), k) == (k <= hi - lo && word_bit(
            word,
            if k <= hi - lo {
                (lo + k) as u32
            } else {
                0u32
            },
        )),
        hi - lo == 0 ==> word_field(word, lo, hi) < 2,
        hi - lo == 1 ==> word_field(word, lo, hi) < 4,
        hi - lo == 3 ==> word_field(word, lo, hi) < 16,
        hi - lo == 4 ==> word_field(word, lo, hi) < 32,
        hi - lo == 7 ==> word_field(word, lo, hi) < 0x100,
        hi - lo == 11 ==> word_field(word, lo, hi) < 0x1000,
        hi - lo == 15 ==> word_field(word, lo, hi) < 0x1_0000,
        hi - lo == 23 ==> word_field(word, lo, hi) < 0x100_0000,
        hi - lo == 0 ==> (word_field(word, lo, hi) == 1) == word_bit(word, lo),
{
}

/// The word whose bits a vector holds, if it holds those of one.
pub open spec fn word_of(bits: BitWord) -> u32 {
    choose|word: u32| word_bits(word) == bits_of(bits)
}

/// The bits of a word are the bits of no other word.
pub proof fn lemma_word_bits_injective(a: u32, b: u32)
    requires
        word_bits(a) == word_bits(b),
    ensures
        a == b,
{
    assert forall|k: u32| k < 32 implies #[trigger] word_bit(a, k) == word_bit(b, k) by {
        assert(word_bits(a)[k as int] == word_bit(a, (k as int) as u32));
        assert(word_bits(b)[k as int] == word_bit(b, (k as int) as u32));
    }
    lemma_equal_bits(a, b);
}

/// A vector with the 32 bits of `word`.
pub(crate) fn from_word(word: u32) -> (bits: BitWord)
    ensures
        bits_of(bits) == word_bits(word),
        word_of(bits) == word,
{
    let bits = bits_from_word(word);
    proof {
        lemma_word_bits_injective(word, word_of(bits));
    }
    bits
}

/// The bits `lo` to `hi` of the word that the vector holds, as a number.
pub(crate) fn field(bits: &BitWord, lo: usize, hi: usize) -> (value: u32)
    requires
        bits_of(*bits) == word_bits(word_of(*bits)),
        lo <= hi < 32,
    ensures
        value == word_field(word_of(*bits), lo as u32, hi as u32),
{
    let value = load_bits(bits, lo, hi);
    proof {
        let word = word_of(*bits);
        let expected = word_field(word, lo as u32, hi as u32);
        assert forall|k: u32| k < 32 implies #[trigger] word_bit(value, k) == word_bit(
            expected,
            k,
        ) by {
            lemma_field_bits(word, lo as u32, hi as u32, k);
            if k <= hi - lo {
                assert(word_bits(word)[lo + k] == word_bit(word, (lo + k) as u32));
            }
        }
        lemma_equal_bits(value, expected);
    }
    value
}

/// Bit `index` of the word that the vector holds.
pub(crate) fn flag(bits: &BitWord, index: usize) -> (bit: bool)
    requires
        bits_of(*bits) == word_bits(word_of(*bits)),
        index < 32,
    ensures
        bit == word_bit(word_of(*bits), index as u32),
{
    bit_at(bits, index)
}

} // verus!
