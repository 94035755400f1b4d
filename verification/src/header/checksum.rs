//! The internet checksum engine.
//!
//! Ones'-complement 16-bit summation with end-around carry, as used by
//! IPv4 header validation. The input is subdivided into big-endian 16-bit
//! words; a trailing odd byte counts as the high byte of an implicit final
//! word. The 32-bit accumulator's carries are folded back into the low 16
//! bits twice, because the first fold can itself carry.

use vstd::prelude::*;

use crate::header::error::ChecksumAssertion;
use crate::header::primitive::be16;

verus! {

/// The sum of the 16-bit big-endian words of `b` from index `i` on; a
/// trailing odd byte counts as the high byte of a final word.
pub open spec fn words_sum_from(b: Seq<u8>, i: int) -> int
    decreases b.len() - i,
    when 0 <= i <= b.len()
{
    if i + 2 <= b.len() {
        be16(b[i], b[i + 1]) + words_sum_from(b, i + 2)
    } else if i + 1 == b.len() {
        b[i] * 0x100
    } else {
        0
    }
}

/// The sum of all 16-bit big-endian words of `b`.
pub open spec fn words_sum(b: Seq<u8>) -> int {
    words_sum_from(b, 0)
}

/// One end-around carry fold: the bits above the low 16 are added back in.
pub open spec fn fold_carry(sum: int) -> int {
    sum / 0x10000 + sum % 0x10000
}

/// The checksum of `b`: its word sum with carries folded back twice.
pub open spec fn spec_checksum(b: Seq<u8>) -> int {
    fold_carry(fold_carry(words_sum(b)))
}

/// Subdivides `bytes` into big-endian 16-bit words and adds them with
/// ones'-complement addition, folding carries back in twice. Over the
/// bytes of a header whose checksum field is correct the result is
/// `0xFFFF`.
pub fn compute_checksum(bytes: &[u8]) -> (r: u16)
    requires
        bytes@.len() <= 0x20002,
    ensures
        r == spec_checksum(bytes@),
{
    let n: usize = bytes.len();
    let mut sum: u32 = 0;
    let mut i: usize = 0;
    while i + 2 <= n
        invariant
            bytes@.len() == n,
            n <= 0x20002,
            i <= n,
            i % 2 == 0,
            sum + words_sum_from(bytes@, i as int) == words_sum(bytes@),
            2 * sum <= 0xFFFF * i,
        decreases n - i,
    {
        let w: u32 = bytes[i] as u32 * 0x100 + bytes[i + 1] as u32;
        sum = sum + w;
        i = i + 2;
    }
    if i < n {
        sum = sum + bytes[i] as u32 * 0x100;
    }
    let folded: u32 = sum / 0x10000 + sum % 0x10000;
    let r: u32 = folded / 0x10000 + folded % 0x10000;
    r as u16
}

/// Succeeds exactly when the ones'-complement checksum of `bytes` comes to
/// `0xFFFF`, i.e. when the complement of the folded word sum is zero.
pub fn verify_checksum(bytes: &[u8]) -> (r: Result<(), ChecksumAssertion>)
    requires
        bytes@.len() <= 0x20002,
    ensures
        r is Ok <==> spec_checksum(bytes@) == 0xFFFF,
{
    if compute_checksum(bytes) == 0xFFFF {
        Ok(())
    } else {
        Err(ChecksumAssertion)
    }
}

/// The word sum is nonnegative and at most `0xFFFF` per (possibly partial)
/// word.
proof fn lemma_words_sum_from_bound(b: Seq<u8>, i: int)
    requires
        0 <= i <= b.len(),
    ensures
        0 <= words_sum_from(b, i),
        words_sum_from(b, i) <= 0xFFFF * ((b.len() - i + 1) / 2),
    decreases b.len() - i,
{
    if i + 2 <= b.len() {
        lemma_words_sum_from_bound(b, i + 2);
        assert((b.len() - i + 1) / 2 == (b.len() - i - 1) / 2 + 1);
        assert(0xFFFF * ((b.len() - i - 1) / 2 + 1) == 0xFFFF * ((b.len() - i - 1) / 2)
            + 0xFFFF) by (nonlinear_arith);
    }
}

/// Two equally long sequences that agree from index `i` on have the same
/// word sum from `i`.
proof fn lemma_words_sum_from_agree(b: Seq<u8>, u: Seq<u8>, i: int)
    requires
        0 <= i <= b.len(),
        u.len() == b.len(),
        forall|k: int| i <= k < b.len() ==> b[k] == u[k],
    ensures
        words_sum_from(b, i) == words_sum_from(u, i),
    decreases b.len() - i,
{
    if i + 2 <= b.len() {
        lemma_words_sum_from_agree(b, u, i + 2);
    }
}

/// Replacing the byte at index `i` moves the word sum by the byte's change
/// times its place value: `0x100` at an even offset from `s`, `1` at an odd
/// one.
proof fn lemma_words_sum_from_update(b: Seq<u8>, i: int, v: u8, s: int)
    requires
        0 <= s <= i < b.len(),
    ensures
        words_sum_from(b.update(i, v), s) == words_sum_from(b, s) + (v - b[i]) * (
        if (i - s) % 2 == 0 {
            0x100int
        } else {
            1int
        }),
    decreases i - s,
{
    let u = b.update(i, v);
    if s + 2 <= i {
        lemma_words_sum_from_update(b, i, v, s + 2);
    } else if s == i {
        if i + 2 <= b.len() {
            lemma_words_sum_from_agree(b, u, i + 2);
        }
    } else {
        // s + 1 == i, so the word at s ends at i and the tail starts at i + 1
        lemma_words_sum_from_agree(b, u, i + 1);
    }
}

/// For a word sum in the 32-bit accumulator's range, the double fold comes
/// to `0xFFFF` exactly when the sum is a positive multiple of `0xFFFF`.
proof fn lemma_double_fold_characterization(s: int)
    requires
        0 <= s <= 0xFFFF_FFFF,
    ensures
        (fold_carry(fold_carry(s)) == 0xFFFF) <==> (s % 0xFFFF == 0 && s > 0),
{
    let f1 = fold_carry(s);
    let f2 = fold_carry(f1);
    vstd::arithmetic::div_mod::lemma_fundamental_div_mod(s, 0x10000);
    vstd::arithmetic::div_mod::lemma_mod_bound(s, 0x10000);
    assert(0 <= s / 0x10000 <= 0xFFFF) by {
        vstd::arithmetic::div_mod::lemma_div_pos_is_pos(s, 0x10000);
        assert(s / 0x10000 <= 0xFFFF) by (nonlinear_arith)
            requires
                0 <= s <= 0xFFFF_FFFF,
        ;
    }
    vstd::arithmetic::div_mod::lemma_fundamental_div_mod(f1, 0x10000);
    vstd::arithmetic::div_mod::lemma_mod_bound(f1, 0x10000);
    assert(0 <= f1 / 0x10000 <= 1) by {
        vstd::arithmetic::div_mod::lemma_div_pos_is_pos(f1, 0x10000);
        assert(f1 / 0x10000 <= 1) by (nonlinear_arith)
            requires
                0 <= f1 <= 0x1_FFFE,
        ;
    }
    // Each fold subtracts a multiple of 0xFFFF, so the residue mod 0xFFFF
    // is unchanged.
    assert(s % 0xFFFF == f1 % 0xFFFF) by {
        assert(s == f1 + (s / 0x10000) * 0xFFFF) by (nonlinear_arith)
            requires
                s == 0x10000 * (s / 0x10000) + s % 0x10000,
                f1 == s / 0x10000 + s % 0x10000,
        ;
        vstd::arithmetic::div_mod::lemma_mod_multiples_vanish(s / 0x10000, f1, 0xFFFF);
    }
    assert(f1 % 0xFFFF == f2 % 0xFFFF) by {
        assert(f1 == f2 + (f1 / 0x10000) * 0xFFFF) by (nonlinear_arith)
            requires
                f1 == 0x10000 * (f1 / 0x10000) + f1 % 0x10000,
                f2 == f1 / 0x10000 + f1 % 0x10000,
        ;
        vstd::arithmetic::div_mod::lemma_mod_multiples_vanish(f1 / 0x10000, f2, 0xFFFF);
    }
    assert(0 <= f2 <= 0xFFFF);
    if f2 == 0xFFFF {
        assert(s % 0xFFFF == 0) by {
            vstd::arithmetic::div_mod::lemma_mod_self_0(0xFFFF);
            assert(f2 % 0xFFFF == 0);
        }
        assert(s > 0);
    }
    if s % 0xFFFF == 0 && s > 0 {
        assert(f2 % 0xFFFF == 0);
        // f2 is in [0, 0xFFFF] with residue zero, so it is 0 or 0xFFFF;
        // and f2 == 0 forces f1 == 0 and then s == 0.
        if f2 < 0xFFFF {
            vstd::arithmetic::div_mod::lemma_small_mod(f2 as nat, 0xFFFF);
            assert(f2 == 0);
            assert(f1 == 0);
            assert(s == 0);
        }
    }
}

/// The flipped value differs by exactly its bit's weight.
proof fn lemma_bit_flip_delta(x: u8, j: u8)
    requires
        j < 8,
    ensures
        (x ^ (1u8 << j)) != x,
        (x ^ (1u8 << j)) - x == (1u8 << j) || (x ^ (1u8 << j)) - x == -((1u8 << j) as int),
        1 <= (1u8 << j) <= 0x80,
{
    assert((x ^ (1u8 << j)) != x && ((x ^ (1u8 << j)) - x == (1u8 << j) || (x ^ (1u8 << j)) - x
        == -((1u8 << j) as int)) && (1 <= (1u8 << j) <= 0x80)) by (bit_vector)
        requires
            j < 8,
    ;
}

/// Flipping any single bit of a byte sequence whose ones'-complement
/// checksum verifies makes verification fail. (Replacing the checksum
/// field by its complement changes sixteen bits at once, which this
/// statement does not cover: that substitution is the algorithm's known
/// non-distinguishing case.)
pub proof fn lemma_single_bit_flip_detected(b: Seq<u8>, i: int, j: u8)
    requires
        0 <= i < b.len(),
        b.len() <= 0x20002,
        j < 8,
        spec_checksum(b) == 0xFFFF,
    ensures
        spec_checksum(b.update(i, b[i] ^ (1u8 << j))) != 0xFFFF,
{
    let v = b[i] ^ (1u8 << j);
    let u = b.update(i, v);
    let s = words_sum(b);
    let su = words_sum(u);
    let place: int = if i % 2 == 0 {
        0x100
    } else {
        1
    };
    lemma_words_sum_from_bound(b, 0);
    lemma_words_sum_from_bound(u, 0);
    lemma_words_sum_from_update(b, i, v, 0);
    lemma_bit_flip_delta(b[i], j);
    let d = (v - b[i]) * place;
    assert(su == s + d);
    assert(d != 0 && -0x8000 <= d <= 0x8000 && d % 0xFFFF != 0) by {
        let w = (1u8 << j) as int;
        assert(d == w * place || d == -(w * place)) by (nonlinear_arith)
            requires
                d == (v - b[i]) * place,
                v - b[i] == w || v - b[i] == -w,
        ;
        assert(1 * 1 <= w * place <= 0x80 * 0x100) by (nonlinear_arith)
            requires
                1 <= w <= 0x80,
                place == 1 || place == 0x100,
        ;
        if d > 0 {
            vstd::arithmetic::div_mod::lemma_small_mod(d as nat, 0xFFFF);
        } else {
            vstd::arithmetic::div_mod::lemma_small_mod((-d) as nat, 0xFFFF);
            assert((-d) % 0xFFFF == -d);
            vstd::arithmetic::div_mod::lemma_mod_add_multiples_vanish(d, 0xFFFF);
            vstd::arithmetic::div_mod::lemma_small_mod((0xFFFF + d) as nat, 0xFFFF);
        }
    }
    lemma_double_fold_characterization(s);
    assert(s % 0xFFFF == 0 && s > 0);
    assert(s >= 0xFFFF) by {
        if s < 0xFFFF {
            vstd::arithmetic::div_mod::lemma_small_mod(s as nat, 0xFFFF);
        }
    }
    assert(0 <= su <= 0xFFFF_FFFF) by {
        assert(su <= 0xFFFF * ((u.len() + 1) / 2));
        assert((u.len() + 1) / 2 <= 0x10001);
        assert(0xFFFF * ((u.len() + 1) / 2) <= 0xFFFF * 0x10001) by (nonlinear_arith)
            requires
                0 <= (u.len() + 1) / 2 <= 0x10001,
        ;
    }
    assert(su % 0xFFFF != 0) by {
        vstd::arithmetic::div_mod::lemma_add_mod_noop(s, d, 0xFFFF);
        assert((s + d) % 0xFFFF == (0 + d % 0xFFFF) % 0xFFFF);
        vstd::arithmetic::div_mod::lemma_mod_bound(d, 0xFFFF);
        vstd::arithmetic::div_mod::lemma_mod_twice(d, 0xFFFF);
    }
    lemma_double_fold_characterization(su);
}

} // verus!
