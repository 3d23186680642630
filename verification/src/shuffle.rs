//! The substructure shuffler.  A record's four 12-byte data blocks are
//! stored in one of the 24 possible orders, selected by the record's
//! personality value modulo 24 against the canonical enumeration of the
//! permutations of four elements (lexicographic on indices).  Applying and
//! inverting the shuffle are mutual inverses, proved below for every order.

use vstd::prelude::*;

verus! {

/// The canonical permutation with index `k` among the 24 orderings of four
/// elements, enumerated lexicographically.  Entry `i` names the logical
/// block stored at physical position `i`.
#[verifier::opaque]
pub open spec fn spec_perm(k: int) -> Seq<int> {
    if k == 0 {
        seq![0, 1, 2, 3]
    } else if k == 1 {
        seq![0, 1, 3, 2]
    } else if k == 2 {
        seq![0, 2, 1, 3]
    } else if k == 3 {
        seq![0, 2, 3, 1]
    } else if k == 4 {
        seq![0, 3, 1, 2]
    } else if k == 5 {
        seq![0, 3, 2, 1]
    } else if k == 6 {
        seq![1, 0, 2, 3]
    } else if k == 7 {
        seq![1, 0, 3, 2]
    } else if k == 8 {
        seq![1, 2, 0, 3]
    } else if k == 9 {
        seq![1, 2, 3, 0]
    } else if k == 10 {
        seq![1, 3, 0, 2]
    } else if k == 11 {
        seq![1, 3, 2, 0]
    } else if k == 12 {
        seq![2, 0, 1, 3]
    } else if k == 13 {
        seq![2, 0, 3, 1]
    } else if k == 14 {
        seq![2, 1, 0, 3]
    } else if k == 15 {
        seq![2, 1, 3, 0]
    } else if k == 16 {
        seq![2, 3, 0, 1]
    } else if k == 17 {
        seq![2, 3, 1, 0]
    } else if k == 18 {
        seq![3, 0, 1, 2]
    } else if k == 19 {
        seq![3, 0, 2, 1]
    } else if k == 20 {
        seq![3, 1, 0, 2]
    } else if k == 21 {
        seq![3, 1, 2, 0]
    } else if k == 22 {
        seq![3, 2, 0, 1]
    } else {
        seq![3, 2, 1, 0]
    }
}

/// The inverse of `spec_perm(k)`: entry `j` names the physical position
/// that holds logical block `j`.
#[verifier::opaque]
pub open spec fn spec_perm_inv(k: int) -> Seq<int> {
    if k == 0 {
        seq![0, 1, 2, 3]
    } else if k == 1 {
        seq![0, 1, 3, 2]
    } else if k == 2 {
        seq![0, 2, 1, 3]
    } else if k == 3 {
        seq![0, 3, 1, 2]
    } else if k == 4 {
        seq![0, 2, 3, 1]
    } else if k == 5 {
        seq![0, 3, 2, 1]
    } else if k == 6 {
        seq![1, 0, 2, 3]
    } else if k == 7 {
        seq![1, 0, 3, 2]
    } else if k == 8 {
        seq![2, 0, 1, 3]
    } else if k == 9 {
        seq![3, 0, 1, 2]
    } else if k == 10 {
        seq![2, 0, 3, 1]
    } else if k == 11 {
        seq![3, 0, 2, 1]
    } else if k == 12 {
        seq![1, 2, 0, 3]
    } else if k == 13 {
        seq![1, 3, 0, 2]
    } else if k == 14 {
        seq![2, 1, 0, 3]
    } else if k == 15 {
        seq![3, 1, 0, 2]
    } else if k == 16 {
        seq![2, 3, 0, 1]
    } else if k == 17 {
        seq![3, 2, 0, 1]
    } else if k == 18 {
        seq![1, 2, 3, 0]
    } else if k == 19 {
        seq![1, 3, 2, 0]
    } else if k == 20 {
        seq![2, 1, 3, 0]
    } else if k == 21 {
        seq![3, 1, 2, 0]
    } else if k == 22 {
        seq![2, 3, 1, 0]
    } else {
        seq![3, 2, 1, 0]
    }
}

/// The shuffle order selected by a personality value: which logical block
/// each physical position holds.
pub open spec fn shuffle_order_spec(pv: u32) -> Seq<int> {
    spec_perm(pv as int % 24)
}

/// The inverse order: which physical position holds each logical block.
pub open spec fn inv_order_spec(pv: u32) -> Seq<int> {
    spec_perm_inv(pv as int % 24)
}

/// The two orders derived from one personality value are mutual inverses,
/// and both range over the four block positions.
pub proof fn lemma_orders(pv: u32)
    ensures
        shuffle_order_spec(pv).len() == 4,
        inv_order_spec(pv).len() == 4,
        forall|i: int| 0 <= i < 4 ==> 0 <= #[trigger] shuffle_order_spec(pv)[i] < 4,
        forall|j: int| 0 <= j < 4 ==> 0 <= #[trigger] inv_order_spec(pv)[j] < 4,
        forall|j: int| 0 <= j < 4 ==> shuffle_order_spec(pv)[#[trigger] inv_order_spec(pv)[j]] == j,
        forall|i: int| 0 <= i < 4 ==> inv_order_spec(pv)[#[trigger] shuffle_order_spec(pv)[i]] == i,
{
    reveal(spec_perm);
    reveal(spec_perm_inv);
    let k = pv as int % 24;
    assert(0 <= k < 24);
}

fn quad(a: usize, b: usize, c: usize, d: usize) -> (r: Vec<usize>)
    ensures
        r@ =~= seq![a, b, c, d],
{
    let mut r: Vec<usize> = Vec::new();
    r.push(a);
    r.push(b);
    r.push(c);
    r.push(d);
    r
}

/// The shuffle order for `pv`, as positions: entry `i` is the logical block
/// stored at physical position `i`.
pub fn shuffle_order(pv: u32) -> (r: Vec<usize>)
    ensures
        r@.len() == 4,
        forall|i: int| 0 <= i < 4 ==> r@[i] as int == shuffle_order_spec(pv)[i],
{
    proof {
        reveal(spec_perm);
    }
    let k = pv % 24;
    if k == 0 {
        quad(0, 1, 2, 3)
    } else if k == 1 {
        quad(0, 1, 3, 2)
    } else if k == 2 {
        quad(0, 2, 1, 3)
    } else if k == 3 {
        quad(0, 2, 3, 1)
    } else if k == 4 {
        quad(0, 3, 1, 2)
    } else if k == 5 {
        quad(0, 3, 2, 1)
    } else if k == 6 {
        quad(1, 0, 2, 3)
    } else if k == 7 {
        quad(1, 0, 3, 2)
    } else if k == 8 {
        quad(1, 2, 0, 3)
    } else if k == 9 {
        quad(1, 2, 3, 0)
    } else if k == 10 {
        quad(1, 3, 0, 2)
    } else if k == 11 {
        quad(1, 3, 2, 0)
    } else if k == 12 {
        quad(2, 0, 1, 3)
    } else if k == 13 {
        quad(2, 0, 3, 1)
    } else if k == 14 {
        quad(2, 1, 0, 3)
    } else if k == 15 {
        quad(2, 1, 3, 0)
    } else if k == 16 {
        quad(2, 3, 0, 1)
    } else if k == 17 {
        quad(2, 3, 1, 0)
    } else if k == 18 {
        quad(3, 0, 1, 2)
    } else if k == 19 {
        quad(3, 0, 2, 1)
    } else if k == 20 {
        quad(3, 1, 0, 2)
    } else if k == 21 {
        quad(3, 1, 2, 0)
    } else if k == 22 {
        quad(3, 2, 0, 1)
    } else {
        quad(3, 2, 1, 0)
    }
}

/// The inverse shuffle order for `pv`: entry `j` is the physical position
/// holding logical block `j`.
pub fn inv_shuffle_order(pv: u32) -> (r: Vec<usize>)
    ensures
        r@.len() == 4,
        forall|i: int| 0 <= i < 4 ==> r@[i] as int == inv_order_spec(pv)[i],
{
    proof {
        reveal(spec_perm_inv);
    }
    let k = pv % 24;
    if k == 0 {
        quad(0, 1, 2, 3)
    } else if k == 1 {
        quad(0, 1, 3, 2)
    } else if k == 2 {
        quad(0, 2, 1, 3)
    } else if k == 3 {
        quad(0, 3, 1, 2)
    } else if k == 4 {
        quad(0, 2, 3, 1)
    } else if k == 5 {
        quad(0, 3, 2, 1)
    } else if k == 6 {
        quad(1, 0, 2, 3)
    } else if k == 7 {
        quad(1, 0, 3, 2)
    } else if k == 8 {
        quad(2, 0, 1, 3)
    } else if k == 9 {
        quad(3, 0, 1, 2)
    } else if k == 10 {
        quad(2, 0, 3, 1)
    } else if k == 11 {
        quad(3, 0, 2, 1)
    } else if k == 12 {
        quad(1, 2, 0, 3)
    } else if k == 13 {
        quad(1, 3, 0, 2)
    } else if k == 14 {
        quad(2, 1, 0, 3)
    } else if k == 15 {
        quad(3, 1, 0, 2)
    } else if k == 16 {
        quad(2, 3, 0, 1)
    } else if k == 17 {
        quad(3, 2, 0, 1)
    } else if k == 18 {
        quad(1, 2, 3, 0)
    } else if k == 19 {
        quad(1, 3, 2, 0)
    } else if k == 20 {
        quad(2, 1, 3, 0)
    } else if k == 21 {
        quad(3, 1, 2, 0)
    } else if k == 22 {
        quad(2, 3, 1, 0)
    } else {
        quad(3, 2, 1, 0)
    }
}

/// The 48-byte data region rearranged by `ord`: the chunk at physical
/// position `i` of the result is the chunk `ord[i]` of `d`.
pub open spec fn arrange_spec(d: Seq<u8>, ord: Seq<int>) -> Seq<u8> {
    d.subrange(12 * ord[0], 12 * ord[0] + 12) + d.subrange(12 * ord[1], 12 * ord[1] + 12)
        + d.subrange(12 * ord[2], 12 * ord[2] + 12) + d.subrange(12 * ord[3], 12 * ord[3] + 12)
}

/// Logical blocks rearranged into their stored (shuffled) order.
pub open spec fn apply_shuffle_spec(d: Seq<u8>, pv: u32) -> Seq<u8> {
    arrange_spec(d, shuffle_order_spec(pv))
}

/// Stored (shuffled) blocks rearranged back into logical order.
pub open spec fn invert_shuffle_spec(d: Seq<u8>, pv: u32) -> Seq<u8> {
    arrange_spec(d, inv_order_spec(pv))
}

fn arrange(d: &Vec<u8>, ord: &Vec<usize>) -> (r: Vec<u8>)
    requires
        d@.len() == 48,
        ord@.len() == 4,
        forall|i: int| 0 <= i < 4 ==> ord@[i] < 4,
    ensures
        r@ == arrange_spec(d@, ord@.map_values(|x: usize| x as int)),
{
    let mut r = crate::bytes::copy_range(d, 12 * ord[0], 12);
    let mut b1 = crate::bytes::copy_range(d, 12 * ord[1], 12);
    let mut b2 = crate::bytes::copy_range(d, 12 * ord[2], 12);
    let mut b3 = crate::bytes::copy_range(d, 12 * ord[3], 12);
    r.append(&mut b1);
    r.append(&mut b2);
    r.append(&mut b3);
    proof {
        let o = ord@.map_values(|x: usize| x as int);
        assert(o[0] == ord@[0] as int);
        assert(o[1] == ord@[1] as int);
        assert(o[2] == ord@[2] as int);
        assert(o[3] == ord@[3] as int);
    }
    r
}

/// Rearranges the four logical 12-byte blocks of `d` into the stored order
/// selected by `pv`.
pub fn apply_shuffle(d: &Vec<u8>, pv: u32) -> (r: Vec<u8>)
    requires
        d@.len() == 48,
    ensures
        r@ == apply_shuffle_spec(d@, pv),
{
    proof {
        lemma_orders(pv);
    }
    let ord = shuffle_order(pv);
    let r = arrange(d, &ord);
    proof {
        assert(ord@.map_values(|x: usize| x as int) =~= shuffle_order_spec(pv));
    }
    r
}

/// Rearranges the four stored 12-byte blocks of `d` back into logical order.
pub fn invert_shuffle(d: &Vec<u8>, pv: u32) -> (r: Vec<u8>)
    requires
        d@.len() == 48,
    ensures
        r@ == invert_shuffle_spec(d@, pv),
{
    proof {
        lemma_orders(pv);
    }
    let ord = inv_shuffle_order(pv);
    let r = arrange(d, &ord);
    proof {
        assert(ord@.map_values(|x: usize| x as int) =~= inv_order_spec(pv));
    }
    r
}

/// Shuffle invertibility: for every personality value and every 48-byte data
/// region, inverting the applied shuffle gives the original region back.
pub proof fn lemma_shuffle_roundtrip(d: Seq<u8>, pv: u32)
    requires
        d.len() == 48,
    ensures
        invert_shuffle_spec(apply_shuffle_spec(d, pv), pv) == d,
{
    lemma_orders(pv);
    let p = shuffle_order_spec(pv);
    let q = inv_order_spec(pv);
    let s = apply_shuffle_spec(d, pv);
    let r = invert_shuffle_spec(s, pv);
    assert forall|i: int| 0 <= i < 48 implies #[trigger] r[i] == d[i] by {
        let j = i / 12;
        let o = i % 12;
        assert(i == 12 * j + o) by {
            vstd::arithmetic::div_mod::lemma_fundamental_div_mod(i, 12);
        }
        assert(0 <= j < 4);
        let t = q[j];
        assert(0 <= t < 4);
        assert(r[12 * j + o] == s.subrange(12 * t, 12 * t + 12)[o]);
        assert(s[12 * t + o] == d.subrange(12 * p[t], 12 * p[t] + 12)[o]);
        assert(p[t] == j);
    }
    assert(r =~= d);
}

} // verus!
