//! The checksum engine: a 16-bit wraparound sum over the little-endian
//! 16-bit words of a record's data region.  The checksum is recomputed on
//! every encode and compared on demand; a mismatch on decode is a soft
//! signal, not a failure.

use crate::bytes::le16_at;
use vstd::arithmetic::div_mod::{lemma_add_mod_noop, lemma_mod_self_0, lemma_small_mod};
use vstd::prelude::*;

verus! {

/// The plain sum of the first `n` little-endian words of `b`.
pub open spec fn words_sum(b: Seq<u8>, n: int) -> int
    decreases n,
{
    if n <= 0 {
        0
    } else {
        words_sum(b, n - 1) + le16_at(b, 2 * (n - 1))
    }
}

/// The format's checksum of `b`: the sum of its 16-bit little-endian words,
/// wrapped to 16 bits.  A trailing odd byte does not contribute.
pub open spec fn checksum_spec(b: Seq<u8>) -> u16 {
    (words_sum(b, b.len() as int / 2) % 0x10000) as u16
}

/// Checksum determinism: the checksum is a function of the bytes alone, so
/// any two results computed over equal byte sequences are equal.  `checksum`
/// pins its result to `checksum_spec`, so this covers any two of its calls.
pub proof fn lemma_checksum_deterministic(b: Seq<u8>, r1: u16, r2: u16)
    requires
        r1 == checksum_spec(b),
        r2 == checksum_spec(b),
    ensures
        r1 == r2,
{
}

/// Computes the checksum of `b`.
///
/// The checksum is a pure function of the bytes alone: the result is pinned
/// to `checksum_spec`, so two calls on equal bytes give equal results.
pub fn checksum(b: &Vec<u8>) -> (r: u16)
    ensures
        r == checksum_spec(b@),
{
    let total = b.len();
    let n = total / 2;
    let mut acc: u16 = 0;
    let mut i: usize = 0;
    proof {
        lemma_mod_self_0(0x10000);
    }
    while i < n
        invariant
            i <= n,
            total == b@.len(),
            n == b@.len() / 2,
            acc == words_sum(b@, i as int) % 0x10000,
        decreases n - i,
    {
        let w = crate::bytes::read_u16_at(b, 2 * i);
        proof {
            lemma_add_mod_noop(words_sum(b@, i as int), w as int, 0x10000);
            lemma_small_mod(w as nat, 0x10000);
        }
        acc = (((acc as u32) + (w as u32)) % 0x10000) as u16;
        i = i + 1;
    }
    acc
}

} // verus!
