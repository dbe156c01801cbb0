//! Single bits of register words.

use vstd::prelude::*;
use vstd::std_specs::bits::{axiom_u64_leading_zeros, u64_leading_zeros};

verus! {

/// Whether bit `k` of a 64-bit word is set.
pub open spec fn bit64(word: u64, k: int) -> bool {
    0 <= k < 64 && (word >> (k as u64)) & 1u64 == 1u64
}

/// Whether bit `k` of a 32-bit word is set.
pub open spec fn bit32(word: u32, k: int) -> bool {
    0 <= k < 32 && (word >> (k as u32)) & 1u32 == 1u32
}

/// The position of the highest set bit of a word that is not zero.
pub open spec fn top_bit64(word: u64) -> int {
    63 - u64_leading_zeros(word)
}

/// Setting bit `k` sets that bit and no other.
pub proof fn lemma_set_bit64(word: u64, k: u64, j: u64)
    requires
        k < 64,
        j < 64,
    ensures
        bit64(word | (1u64 << k), j as int) == (bit64(word, j as int) || j == k),
{
    assert(k < 64 && j < 64 ==> (((word | (1u64 << k)) >> j) & 1u64 == 1u64) == (((word >> j)
        & 1u64 == 1u64) || j == k)) by (bit_vector);
}

/// Clearing bit `k` clears that bit and no other.
pub proof fn lemma_clear_bit64(word: u64, k: u64, j: u64)
    requires
        k < 64,
        j < 64,
    ensures
        bit64(word & !(1u64 << k), j as int) == (bit64(word, j as int) && j != k),
{
    assert(k < 64 && j < 64 ==> (((word & !(1u64 << k)) >> j) & 1u64 == 1u64) == (((word >> j)
        & 1u64 == 1u64) && j != k)) by (bit_vector);
}

/// A bit of the conjunction of two words is set where it is set in both.
pub proof fn lemma_and_bit64(a: u64, b: u64, j: u64)
    requires
        j < 64,
    ensures
        bit64(a & b, j as int) == (bit64(a, j as int) && bit64(b, j as int)),
{
    assert((((a & b) >> j) & 1u64 == 1u64) == (((a >> j) & 1u64 == 1u64) && ((b >> j) & 1u64
        == 1u64))) by (bit_vector);
}

/// The word zero has no bit set.
pub proof fn lemma_zero_bit64(j: u64)
    requires
        j < 64,
    ensures
        !bit64(0, j as int),
{
    assert((0u64 >> j) & 1u64 == 0u64) by (bit_vector);
}

/// The highest set bit of a word that is not zero is set, lies below 64,
/// and no bit above it is set.
pub proof fn lemma_top_bit64(word: u64)
    requires
        word != 0,
    ensures
        0 <= top_bit64(word) < 64,
        bit64(word, top_bit64(word)),
        forall|j: int| top_bit64(word) < j < 64 ==> !#[trigger] bit64(word, j),
{
    axiom_u64_leading_zeros(word);
    let lz = u64_leading_zeros(word);
    let t = (63 - lz) as u64;
    let x = word >> t;
    assert(x & 1u64 != 0u64 ==> x & 1u64 == 1u64) by (bit_vector);
    assert forall|j: int| top_bit64(word) < j < 64 implies !#[trigger] bit64(word, j) by {
        let ju = j as u64;
        assert((word >> ju) & 1u64 == 0u64);
    }
}

/// Setting bit `k` sets that bit and no other.
pub proof fn lemma_set_bit32(word: u32, k: u32, j: u32)
    requires
        k < 32,
        j < 32,
    ensures
        bit32(word | (1u32 << k), j as int) == (bit32(word, j as int) || j == k),
{
    assert(k < 32 && j < 32 ==> (((word | (1u32 << k)) >> j) & 1u32 == 1u32) == (((word >> j)
        & 1u32 == 1u32) || j == k)) by (bit_vector);
}

/// Clearing bit `k` clears that bit and no other.
pub proof fn lemma_clear_bit32(word: u32, k: u32, j: u32)
    requires
        k < 32,
        j < 32,
    ensures
        bit32(word & !(1u32 << k), j as int) == (bit32(word, j as int) && j != k),
{
    assert(k < 32 && j < 32 ==> (((word & !(1u32 << k)) >> j) & 1u32 == 1u32) == (((word >> j)
        & 1u32 == 1u32) && j != k)) by (bit_vector);
}

/// Testing a word against the mask of bit `k` tells whether the bit is set.
pub proof fn lemma_test_bit32(word: u32, k: u32)
    requires
        k < 32,
    ensures
        (word & (1u32 << k) != 0) == bit32(word, k as int),
{
    assert(k < 32 ==> ((word & (1u32 << k) != 0) == ((word >> k) & 1u32 == 1u32)))
        by (bit_vector);
}

/// The 16-bit word that two bytes spell, low byte first.
pub open spec fn le16(b0: u8, b1: u8) -> u16 {
    (b0 as u16) | ((b1 as u16) << 8)
}

/// The 32-bit word that four bytes spell, low byte first.
pub open spec fn le32(b0: u8, b1: u8, b2: u8, b3: u8) -> u32 {
    (b0 as u32) | ((b1 as u32) << 8) | ((b2 as u32) << 16) | ((b3 as u32) << 24)
}

/// Byte `i` of a word, counted from the low end.
pub open spec fn byte_of(word: u32, i: int) -> u8 {
    ((word >> ((8 * i) as u32)) & 0xffu32) as u8
}

/// The bytes of a 32-bit word spell that word.
pub proof fn lemma_le32_of_bytes(word: u32)
    ensures
        le32(byte_of(word, 0), byte_of(word, 1), byte_of(word, 2), byte_of(word, 3)) == word,
{
    assert((((word >> 0u32) & 0xffu32) as u8 as u32) | ((((word >> 8u32) & 0xffu32) as u8 as u32)
        << 8) | ((((word >> 16u32) & 0xffu32) as u8 as u32) << 16) | ((((word >> 24u32)
        & 0xffu32) as u8 as u32) << 24) == word) by (bit_vector);
}

/// The bytes of a 16-bit word spell that word.
pub proof fn lemma_le16_of_bytes(word: u16)
    ensures
        le16((word & 0xffu16) as u8, ((word >> 8u16) & 0xffu16) as u8) == word,
{
    assert((((word & 0xffu16) as u8) as u16) | (((((word >> 8u16) & 0xffu16) as u8) as u16) << 8)
        == word) by (bit_vector);
}

} // verus!
