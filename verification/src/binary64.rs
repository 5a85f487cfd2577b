//! Binary64 numbers, held as their bit patterns: a sign, eleven bits of
//! exponent and 52 of fraction. What this library asks of such a number
//! is told from the pattern by integer arithmetic.

use vstd::arithmetic::div_mod::lemma_basic_div;
use vstd::arithmetic::power2::{
    lemma2_to64, lemma2_to64_rest, lemma_pow2_strictly_increases, lemma_pow2_unfold, pow2,
};
use vstd::prelude::*;

verus! {

/// The magnitude bits of a binary64 pattern: all but the sign.
pub open spec fn magnitude(bits: u64) -> int {
    bits as int % 0x8000_0000_0000_0000
}

/// Whether a binary64 pattern is not a number: the exponent is all ones
/// and the fraction is not zero.
pub open spec fn is_nan(bits: u64) -> bool {
    magnitude(bits) > 0x7ff0_0000_0000_0000
}

/// Equality of two binary64 numbers, told from their bit patterns: no
/// number equals one that is not a number, the two zeros are equal, and
/// otherwise the patterns decide.
pub open spec fn binary64_eq(a: u64, b: u64) -> bool {
    !is_nan(a) && !is_nan(b) && (a == b || (magnitude(a) == 0 && magnitude(b) == 0))
}

/// Compares two binary64 numbers, given by their bit patterns, as the
/// numbers compare.
pub fn binary64_bits_eq(a: u64, b: u64) -> (r: bool)
    ensures
        r == binary64_eq(a, b),
{
    let ma: u64 = a % 0x8000_0000_0000_0000;
    let mb: u64 = b % 0x8000_0000_0000_0000;
    ma <= 0x7ff0_0000_0000_0000 && mb <= 0x7ff0_0000_0000_0000 && (a == b || (ma == 0 && mb == 0))
}

/// The exponent field of a binary64 pattern.
pub open spec fn exponent(bits: u64) -> int {
    (bits as int / 0x10_0000_0000_0000) % 2048
}

/// The fraction field of a binary64 pattern.
pub open spec fn fraction(bits: u64) -> int {
    bits as int % 0x10_0000_0000_0000
}

/// The significand of a finite number: the fraction, with the leading one
/// that a normal number leaves unwritten.
pub open spec fn significand(bits: u64) -> nat {
    if exponent(bits) == 0 {
        fraction(bits) as nat
    } else {
        (fraction(bits) + 0x10_0000_0000_0000) as nat
    }
}

/// The power of two by which the significand of a finite number is
/// scaled: a subnormal number is scaled as the smallest normal ones are.
pub open spec fn scale(bits: u64) -> int {
    if exponent(bits) == 0 {
        -1074
    } else {
        exponent(bits) - 1075
    }
}

/// The whole part of the magnitude of a finite number.
pub open spec fn whole_part(bits: u64) -> nat {
    if scale(bits) >= 0 {
        significand(bits) * pow2(scale(bits) as nat)
    } else {
        significand(bits) / pow2((-scale(bits)) as nat)
    }
}

/// The index that a binary64 number stands for: its whole part, the
/// fraction cut off. What is not a number, and what is below zero, stands
/// for 0; what is too large for an index, for the largest there is.
pub open spec fn truncated(bits: u64) -> usize {
    if is_nan(bits) || bits >= 0x8000_0000_0000_0000 {
        0
    } else if exponent(bits) == 2047 || whole_part(bits) > usize::MAX {
        usize::MAX
    } else {
        whole_part(bits) as usize
    }
}

/// Two to the power `e`, for a power that fits.
fn power_of_two(e: u64) -> (p: u64)
    requires
        e <= 52,
    ensures
        p == pow2(e as nat),
        1 <= p <= 0x10_0000_0000_0000,
{
    proof {
        lemma2_to64();
    }
    let mut p: u64 = 1;
    let mut k: u64 = 0;
    while k < e
        invariant
            k <= e <= 52,
            p == pow2(k as nat),
            1 <= p,
            k < 52 ==> p < 0x10_0000_0000_0000,
            p <= 0x10_0000_0000_0000,
        decreases e - k,
    {
        proof {
            lemma2_to64_rest();
            lemma_pow2_unfold((k + 1) as nat);
            if k + 1 < 52 {
                lemma_pow2_strictly_increases((k + 1) as nat, 52);
            }
        }
        p = p * 2;
        k = k + 1;
    }
    p
}

/// The index that a binary64 number stands for, told from its bit
/// pattern.
pub fn truncate_binary64(bits: u64) -> (index: usize)
    ensures
        index == truncated(bits),
{
    let e: u64 = (bits / 0x10_0000_0000_0000) % 2048;
    let f: u64 = bits % 0x10_0000_0000_0000;
    if bits >= 0x8000_0000_0000_0000 {
        return 0;
    }
    assert(bits as int / 0x10_0000_0000_0000 == e);
    assert(magnitude(bits) == e * 0x10_0000_0000_0000 + f);
    if e == 2047 {
        return if f != 0 {
            0
        } else {
            usize::MAX
        };
    }
    proof {
        lemma2_to64();
        lemma2_to64_rest();
    }
    if e == 0 {
        proof {
            lemma_pow2_strictly_increases(52, 1074);
            lemma_basic_div(f as int, pow2(1074) as int);
        }
        return 0;
    }
    let m: u64 = f + 0x10_0000_0000_0000;
    if e < 1075 {
        let shift: u64 = 1075 - e;
        if shift > 52 {
            proof {
                if shift > 53 {
                    lemma_pow2_strictly_increases(53, shift as nat);
                }
                lemma_basic_div(m as int, pow2(shift as nat) as int);
            }
            return 0;
        }
        let whole: u64 = m / power_of_two(shift);
        if whole > usize::MAX as u64 {
            usize::MAX
        } else {
            whole as usize
        }
    } else {
        let shift: u64 = e - 1075;
        if shift > 11 {
            proof {
                if shift > 12 {
                    lemma_pow2_strictly_increases(12, shift as nat);
                }
                assert(m * pow2(shift as nat) >= 0x1_0000_0000_0000_0000) by (nonlinear_arith)
                    requires
                        m >= 0x10_0000_0000_0000,
                        pow2(shift as nat) >= 4096,
                ;
            }
            return usize::MAX;
        }
        let p = power_of_two(shift);
        proof {
            if shift < 11 {
                lemma_pow2_strictly_increases(shift as nat, 11);
            }
            assert(m * p <= 0xffff_ffff_ffff_ffff) by (nonlinear_arith)
                requires
                    m < 0x20_0000_0000_0000,
                    p <= 2048,
            ;
        }
        let whole: u64 = m * p;
        if whole > usize::MAX as u64 {
            usize::MAX
        } else {
            whole as usize
        }
    }
}

} // verus!
