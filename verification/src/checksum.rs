//! The Internet checksum: the one's-complement sum of big-endian 16-bit words.
//!
//! The mathematical model is a weighted byte sum. A byte at an even offset is
//! the high half of its word and counts 256 times, a byte at an odd offset
//! counts once; a trailing odd byte is thereby padded with a zero low half.
//! Folding the end-around carries of that sum gives a value congruent to it
//! modulo 65535, and the checksum is the complement of the folded sum.

use vstd::arithmetic::div_mod::{lemma_fundamental_div_mod, lemma_mod_multiples_vanish};
use vstd::prelude::*;

verus! {

/// Weight with which the byte at `index` enters the word sum.
pub open spec fn byte_weight(index: int) -> nat {
    if index % 2 == 0 {
        256
    } else {
        1
    }
}

/// Sum of the big-endian 16-bit words of `bytes`, as an unbounded number.
pub open spec fn word_sum(bytes: Seq<u8>) -> nat
    decreases bytes.len(),
{
    if bytes.len() == 0 {
        0
    } else {
        word_sum(bytes.drop_last()) + byte_weight(bytes.len() - 1) * (bytes.last() as nat)
    }
}

/// The 16-bit one's-complement value of `sum`: zero stays zero, every other
/// sum folds into `1..=65535` keeping its residue modulo 65535.
pub open spec fn fold16(sum: nat) -> nat {
    if sum == 0 {
        0
    } else {
        ((sum - 1) % 65535 + 1) as nat
    }
}

/// The checksum of `bytes`: the complement of their folded word sum.
pub open spec fn internet_checksum(bytes: Seq<u8>) -> u16 {
    (65535 - fold16(word_sum(bytes))) as u16
}

/// A datagram that carries its own checksum is intact when the checksum of
/// the whole of it is zero.
pub open spec fn checksum_valid(bytes: Seq<u8>) -> bool {
    internet_checksum(bytes) == 0
}

/// A folded sum never exceeds sixteen bits.
pub proof fn lemma_fold16_range(sum: nat)
    ensures
        fold16(sum) <= 65535,
        sum <= 65535 ==> fold16(sum) == sum,
        sum > 0 ==> fold16(sum) > 0,
{
}

/// Validity in terms of the word sum alone: a positive multiple of 65535.
pub proof fn lemma_valid_iff_multiple(bytes: Seq<u8>)
    ensures
        checksum_valid(bytes) <==> (word_sum(bytes) > 0 && word_sum(bytes) % 65535 == 0),
{
    let s = word_sum(bytes);
    lemma_fold16_range(s);
    if s > 0 {
        let t = (s - 1) as int;
        lemma_fundamental_div_mod(t, 65535);
        lemma_fundamental_div_mod(s as int, 65535);
        if t % 65535 == 65534 {
            assert(s == 65535 * (t / 65535 + 1));
            lemma_mod_multiples_vanish(t / 65535 + 1, 0, 65535);
        } else {
            assert(s == 65535 * (t / 65535) + (t % 65535 + 1));
            lemma_mod_multiples_vanish(t / 65535, t % 65535 + 1, 65535);
        }
    }
}

/// Adding one end-around carry keeps the folded value.
pub proof fn lemma_fold_step(sum: nat)
    requires
        sum > 65535,
    ensures
        sum % 65536 + sum / 65536 < sum,
        fold16(sum % 65536 + sum / 65536) == fold16(sum),
{
    let q = (sum / 65536) as int;
    let r = (sum % 65536) as int;
    lemma_fundamental_div_mod(sum as int, 65536);
    assert(sum == 65536 * q + r);
    assert(q >= 1);
    let folded = q + r;
    assert(sum - 1 == 65535 * q + (folded - 1));
    lemma_mod_multiples_vanish(q, folded - 1, 65535);
}

/// Appending one byte adds its weighted value.
pub proof fn lemma_word_sum_push(bytes: Seq<u8>, value: u8)
    ensures
        word_sum(bytes.push(value)) == word_sum(bytes) + byte_weight(bytes.len() as int) * (
        value as nat),
{
    assert(bytes.push(value).drop_last() =~= bytes);
}

/// The word sum of a concatenation splits at an even offset.
pub proof fn lemma_word_sum_concat(front: Seq<u8>, back: Seq<u8>)
    requires
        front.len() % 2 == 0,
    ensures
        word_sum(front + back) == word_sum(front) + word_sum(back),
    decreases back.len(),
{
    if back.len() == 0 {
        assert(front + back =~= front);
    } else {
        assert((front + back).drop_last() =~= front + back.drop_last());
        lemma_word_sum_concat(front, back.drop_last());
        assert((front + back).last() == back.last());
        assert(byte_weight((front + back).len() - 1) == byte_weight(back.len() - 1));
    }
}

/// A run of zero bytes adds nothing.
pub proof fn lemma_word_sum_zeros(bytes: Seq<u8>)
    requires
        forall|i: int| 0 <= i < bytes.len() ==> bytes[i] == 0,
    ensures
        word_sum(bytes) == 0,
    decreases bytes.len(),
{
    if bytes.len() > 0 {
        lemma_word_sum_zeros(bytes.drop_last());
    }
}

/// Replacing one byte moves the word sum by the weighted difference.
pub proof fn lemma_word_sum_update(bytes: Seq<u8>, index: int, value: u8)
    requires
        0 <= index < bytes.len(),
    ensures
        word_sum(bytes.update(index, value)) + byte_weight(index) * (bytes[index] as nat)
            == word_sum(bytes) + byte_weight(index) * (value as nat),
    decreases bytes.len(),
{
    let changed = bytes.update(index, value);
    if index == bytes.len() - 1 {
        assert(changed.drop_last() =~= bytes.drop_last());
    } else {
        assert(changed.drop_last() =~= bytes.drop_last().update(index, value));
        lemma_word_sum_update(bytes.drop_last(), index, value);
    }
}

/// Computes the Internet checksum of `bytes`.
pub fn checksum(bytes: &[u8]) -> (sum: u16)
    ensures
        sum == internet_checksum(bytes@),
{
    let mut acc: u128 = 0;
    let mut i: usize = 0;
    while i < bytes.len()
        invariant
            i <= bytes.len(),
            acc == word_sum(bytes@.take(i as int)),
            acc <= 65280 * i,
        decreases bytes.len() - i,
    {
        let byte: u128 = bytes[i] as u128;
        proof {
            let next = bytes@.take(i + 1);
            assert(next.drop_last() =~= bytes@.take(i as int));
            assert(next.last() == bytes@[i as int]);
            assert(word_sum(next) == word_sum(next.drop_last()) + byte_weight(i as int) * (
            next.last() as nat));
        }
        if i % 2 == 0 {
            acc = acc + byte * 256;
        } else {
            acc = acc + byte;
        }
        i = i + 1;
    }
    proof {
        assert(bytes@.take(i as int) =~= bytes@);
    }
    while acc > 0xffff
        invariant
            fold16(acc as nat) == fold16(word_sum(bytes@)),
        decreases acc,
    {
        proof {
            lemma_fold_step(acc as nat);
        }
        acc = acc % 0x1_0000 + acc / 0x1_0000;
    }
    proof {
        lemma_fold16_range(acc as nat);
    }
    (0xffff - acc) as u16
}

/// Tells whether `bytes`, checksum field included, sum to one's-complement zero.
pub fn verify(bytes: &[u8]) -> (valid: bool)
    ensures
        valid == checksum_valid(bytes@),
{
    checksum(bytes) == 0
}

} // verus!
