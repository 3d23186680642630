//! Numeric text-field input: the editor keeps only the digits of what was
//! typed and parses them, leaving the field unchanged when nothing numeric
//! remains or the number does not fit.

use vstd::arithmetic::div_mod::lemma_fundamental_div_mod;
use vstd::prelude::*;
use vstd::string::StringSliceAdditionalSpecFns;

verus! {

/// Whether a byte is an ASCII digit.
pub open spec fn is_digit(c: u8) -> bool {
    48 <= c <= 57
}

/// The digits of `s`, in order, everything else dropped.
pub open spec fn digits_of(s: Seq<u8>) -> Seq<u8> {
    s.filter(|c: u8| is_digit(c))
}

/// The number written by a sequence of digits, most significant first.
pub open spec fn digits_value(d: Seq<u8>) -> int
    decreases d.len(),
{
    if d.len() == 0 {
        0
    } else {
        digits_value(d.drop_last()) * 10 + (d.last() - 48)
    }
}

/// The value of a digit sequence never goes down as digits are appended.
proof fn lemma_digits_value_nonneg(d: Seq<u8>)
    requires
        forall|i: int| 0 <= i < d.len() ==> is_digit(#[trigger] d[i]),
    ensures
        digits_value(d) >= 0,
    decreases d.len(),
{
    if d.len() > 0 {
        lemma_digits_value_nonneg(d.drop_last());
    }
}

/// Parses the digits of `s` as an unsigned 64-bit number: the digits of the
/// input, everything else dropped, read as a decimal number.  `None` when no
/// digit remains or the number does not fit in 64 bits.
pub fn parse_digits_u64(s: &str) -> (r: Option<u64>)
    ensures
        ({
            let d = digits_of(s.spec_bytes());
            match r {
                Some(v) => d.len() > 0 && digits_value(d) == v,
                None => d.len() == 0 || digits_value(d) > u64::MAX,
            }
        }),
{
    let bytes = s.as_bytes();
    let n = bytes.len();
    let mut acc: u64 = 0;
    let mut seen: bool = false;
    let mut over: bool = false;
    let mut i: usize = 0;
    proof {
        assert(bytes@.subrange(0, 0) =~= Seq::<u8>::empty());
    }
    while i < n
        invariant
            i <= n,
            n == bytes@.len(),
            bytes@ == s.spec_bytes(),
            ({
                let d = digits_of(bytes@.subrange(0, i as int));
                &&& seen == (d.len() > 0)
                &&& (!over ==> acc == digits_value(d))
                &&& (over ==> digits_value(d) > u64::MAX)
                &&& (forall|k: int| 0 <= k < d.len() ==> is_digit(#[trigger] d[k]))
            }),
        decreases n - i,
    {
        let c = bytes[i];
        proof {
            reveal(Seq::filter);
            let pre = bytes@.subrange(0, i as int);
            let post = bytes@.subrange(0, i as int + 1);
            assert(post =~= pre.push(bytes@[i as int]));
            assert(post.drop_last() =~= pre);
            assert(post.last() == bytes@[i as int]);
            if is_digit(bytes@[i as int]) {
                assert(digits_of(post) == digits_of(pre).push(bytes@[i as int]));
            } else {
                assert(digits_of(post) == digits_of(pre));
            }
        }
        if c >= 48 && c <= 57 {
            let digit = (c - 48) as u64;
            proof {
                let d0 = digits_of(bytes@.subrange(0, i as int));
                lemma_digits_value_nonneg(d0);
                let d = digits_of(bytes@.subrange(0, i as int + 1));
                assert(d.drop_last() =~= d0);
                assert(d.last() == bytes@[i as int]);
            }
            if over || acc > (u64::MAX - digit) / 10 {
                proof {
                    let d0 = digits_of(bytes@.subrange(0, i as int));
                    let v0 = digits_value(d0);
                    lemma_fundamental_div_mod(u64::MAX - digit, 10);
                    assert(v0 * 10 >= v0) by (nonlinear_arith)
                        requires
                            v0 >= 0,
                    ;
                    if !over {
                        assert(acc * 10 > u64::MAX - digit) by (nonlinear_arith)
                            requires
                                acc > (u64::MAX - digit) / 10,
                                10 * ((u64::MAX - digit) / 10) + (u64::MAX - digit) % 10 == u64::MAX
                                    - digit,
                                (u64::MAX - digit) % 10 < 10,
                        ;
                    } else {
                        assert(v0 * 10 > u64::MAX) by (nonlinear_arith)
                            requires
                                v0 > u64::MAX,
                        ;
                    }
                }
                over = true;
            } else {
                proof {
                    lemma_fundamental_div_mod(u64::MAX - digit, 10);
                    assert(acc * 10 <= u64::MAX - digit) by (nonlinear_arith)
                        requires
                            acc <= (u64::MAX - digit) / 10,
                            10 * ((u64::MAX - digit) / 10) <= u64::MAX - digit,
                    ;
                }
                acc = acc * 10 + digit;
            }
            seen = true;
        }
        i = i + 1;
    }
    proof {
        assert(bytes@.subrange(0, n as int) =~= bytes@);
    }
    if seen && !over {
        Some(acc)
    } else {
        None
    }
}

/// Whether any character of `s` is a digit.
pub fn has_digit(s: &str) -> (r: bool)
    ensures
        r == (digits_of(s.spec_bytes()).len() > 0),
{
    let bytes = s.as_bytes();
    let n = bytes.len();
    let mut i: usize = 0;
    proof {
        assert(bytes@.subrange(0, 0) =~= Seq::<u8>::empty());
    }
    while i < n
        invariant
            i <= n,
            n == bytes@.len(),
            bytes@ == s.spec_bytes(),
            digits_of(bytes@.subrange(0, i as int)).len() == 0,
        decreases n - i,
    {
        let c = bytes[i];
        proof {
            reveal(Seq::filter);
            let pre = bytes@.subrange(0, i as int);
            let post = bytes@.subrange(0, i as int + 1);
            assert(post =~= pre.push(bytes@[i as int]));
            assert(post.drop_last() =~= pre);
            assert(post.last() == bytes@[i as int]);
        }
        if c >= 48 && c <= 57 {
            proof {
                reveal(Seq::filter);
                let post = bytes@.subrange(0, i as int + 1);
                assert(digits_of(post).len() > 0);
                assert(digits_of(bytes@) =~= digits_of(post) + digits_of(
                    bytes@.subrange(i as int + 1, n as int),
                )) by {
                    assert(bytes@ =~= post + bytes@.subrange(i as int + 1, n as int));
                    Seq::<u8>::filter_distributes_over_add(
                        post,
                        bytes@.subrange(i as int + 1, n as int),
                        |c: u8| is_digit(c),
                    );
                }
            }
            return true;
        }
        i = i + 1;
    }
    proof {
        assert(bytes@.subrange(0, n as int) =~= bytes@);
    }
    false
}

/// Parses the digits of `s` as a 16-bit quantity, as the pocket fields do.
pub fn parse_digits_u16(s: &str) -> (r: Option<u16>)
    ensures
        ({
            let d = digits_of(s.spec_bytes());
            match r {
                Some(v) => d.len() > 0 && digits_value(d) == v,
                None => d.len() == 0 || digits_value(d) > u16::MAX,
            }
        }),
{
    match parse_digits_u64(s) {
        Some(v) => if v <= 0xFFFF {
            Some(v as u16)
        } else {
            None
        },
        None => None,
    }
}

} // verus!
