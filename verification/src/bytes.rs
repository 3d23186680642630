//! Little-endian views over byte sequences, and the executable cursor
//! primitives that read and write them.  All multi-byte fields of the save
//! format are little-endian.

use vstd::arithmetic::div_mod::{lemma_div_denominator, lemma_fundamental_div_mod};
use vstd::prelude::*;

verus! {

/// The value of the little-endian 16-bit word at offset `i` of `b`.
pub open spec fn le16_at(b: Seq<u8>, i: int) -> int {
    b[i] + 0x100 * b[i + 1]
}

/// The value of the little-endian 32-bit word at offset `i` of `b`.
pub open spec fn le32_at(b: Seq<u8>, i: int) -> int {
    b[i] + 0x100 * b[i + 1] + 0x10000 * b[i + 2] + 0x1000000 * b[i + 3]
}

/// The two bytes of `v`, low byte first.
pub open spec fn le16_bytes(v: u16) -> Seq<u8> {
    seq![(v % 0x100) as u8, (v / 0x100) as u8]
}

/// The four bytes of `v`, low byte first.
pub open spec fn le32_bytes(v: u32) -> Seq<u8> {
    seq![
        (v % 0x100) as u8,
        ((v / 0x100) % 0x100) as u8,
        ((v / 0x10000) % 0x100) as u8,
        (v / 0x1000000) as u8,
    ]
}

/// Reading back the two little-endian bytes of a 16-bit value gives the
/// value itself.
pub proof fn lemma_le16_roundtrip(v: u16)
    ensures
        le16_at(le16_bytes(v), 0) == v,
{
    lemma_fundamental_div_mod(v as int, 0x100);
}

/// Reading back the four little-endian bytes of a 32-bit value gives the
/// value itself.
pub proof fn lemma_le32_roundtrip(v: u32)
    ensures
        le32_at(le32_bytes(v), 0) == v,
{
    lemma_fundamental_div_mod(v as int, 0x100);
    lemma_fundamental_div_mod(v as int / 0x100, 0x100);
    lemma_fundamental_div_mod(v as int / 0x10000, 0x100);
    lemma_div_denominator(v as int, 0x100, 0x100);
    lemma_div_denominator(v as int, 0x10000, 0x100);
}

/// Reads the little-endian 16-bit word at `i`.
pub fn read_u16_at(b: &Vec<u8>, i: usize) -> (v: u16)
    requires
        i + 2 <= b@.len(),
    ensures
        v == le16_at(b@, i as int),
{
    let n = b.len();
    (b[i] as u16) + (b[i + 1] as u16) * 0x100
}

/// Reads the little-endian 32-bit word at `i`.
pub fn read_u32_at(b: &Vec<u8>, i: usize) -> (v: u32)
    requires
        i + 4 <= b@.len(),
    ensures
        v == le32_at(b@, i as int),
{
    let n = b.len();
    (b[i] as u32) + (b[i + 1] as u32) * 0x100 + (b[i + 2] as u32) * 0x10000 + (b[i + 3] as u32)
        * 0x1000000
}

/// Appends the two little-endian bytes of `v`.
pub fn push_u16(b: &mut Vec<u8>, v: u16)
    ensures
        final(b)@ == old(b)@ + le16_bytes(v),
{
    b.push((v % 0x100) as u8);
    b.push((v / 0x100) as u8);
    proof {
        assert(b@ =~= old(b)@ + le16_bytes(v));
    }
}

/// Appends the four little-endian bytes of `v`.
pub fn push_u32(b: &mut Vec<u8>, v: u32)
    ensures
        final(b)@ == old(b)@ + le32_bytes(v),
{
    b.push((v % 0x100) as u8);
    b.push(((v / 0x100) % 0x100) as u8);
    b.push(((v / 0x10000) % 0x100) as u8);
    b.push((v / 0x1000000) as u8);
    proof {
        assert(b@ =~= old(b)@ + le32_bytes(v));
    }
}

/// Appends all bytes of `src` to `b`.
pub fn push_bytes(b: &mut Vec<u8>, src: &Vec<u8>)
    ensures
        final(b)@ == old(b)@ + src@,
{
    let n = src.len();
    let mut i: usize = 0;
    while i < n
        invariant
            i <= n,
            n == src@.len(),
            b@ == old(b)@ + src@.subrange(0, i as int),
        decreases n - i,
    {
        b.push(src[i]);
        proof {
            assert(b@ =~= old(b)@ + src@.subrange(0, (i + 1) as int));
        }
        i = i + 1;
    }
    proof {
        assert(b@ =~= old(b)@ + src@);
    }
}

/// Copies `len` bytes of `b` starting at `start` into a fresh vector.
pub fn copy_range(b: &Vec<u8>, start: usize, len: usize) -> (r: Vec<u8>)
    requires
        start + len <= b@.len(),
    ensures
        r@ == b@.subrange(start as int, start as int + len as int),
{
    let n = b.len();
    let mut r: Vec<u8> = Vec::new();
    let mut i: usize = 0;
    while i < len
        invariant
            i <= len,
            n == b@.len(),
            start + len <= b@.len(),
            r@ == b@.subrange(start as int, start as int + i as int),
        decreases len - i,
    {
        r.push(b[start + i]);
        proof {
            assert(r@ =~= b@.subrange(start as int, start as int + (i + 1) as int));
        }
        i = i + 1;
    }
    r
}

/// Overwrites `src.len()` bytes of `b` starting at `start` with `src`,
/// leaving every other byte unchanged.
pub fn splice_range(b: &mut Vec<u8>, start: usize, src: &Vec<u8>)
    requires
        start + src@.len() <= old(b)@.len(),
    ensures
        final(b)@.len() == old(b)@.len(),
        final(b)@.subrange(start as int, start as int + src@.len() as int) == src@,
        forall|j: int|
            0 <= j < old(b)@.len() && !(start <= j < start + src@.len()) ==> final(b)@[j] == old(
                b,
            )@[j],
{
    let total = b.len();
    let n = src.len();
    let mut i: usize = 0;
    while i < n
        invariant
            i <= n,
            n == src@.len(),
            total == old(b)@.len(),
            start + n <= b@.len(),
            b@.len() == old(b)@.len(),
            forall|j: int| start <= j < start + i ==> b@[j] == src@[j - start],
            forall|j: int|
                0 <= j < old(b)@.len() && !(start <= j < start + i) ==> b@[j] == old(b)@[j],
        decreases n - i,
    {
        b.set(start + i, src[i]);
        i = i + 1;
    }
    proof {
        assert(b@.subrange(start as int, start as int + src@.len() as int) =~= src@);
    }
}

} // verus!
