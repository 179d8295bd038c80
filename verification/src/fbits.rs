//! Exact IEEE-754 encoding of the scalar values the renderer produces
//! itself.
//!
//! The instance grid places objects at world coordinates that are integer
//! multiples of half the grid spacing.  Every such value of magnitude at
//! most 2^23 is exactly representable in single precision, so its bit
//! pattern is a pure function of the integer coordinate.  That function is
//! defined here and computed by verified code, which lets the rest of the
//! crate pin instance buffers down to the byte.

use vstd::arithmetic::power2::{
    lemma2_to64, lemma_pow2_adds, lemma_pow2_pos, lemma_pow2_strictly_increases, lemma_pow2_unfold,
    pow2,
};
use vstd::bits::lemma_u64_shl_is_mul;
use vstd::prelude::*;

verus! {

/// floor(log2(a)), for a >= 1.
pub open spec fn floor_log2(a: nat) -> nat
    decreases a,
{
    if a < 2 {
        0
    } else {
        1 + floor_log2(a / 2)
    }
}

/// `floor_log2` picks out the unique k with 2^k <= a < 2^(k+1).
pub proof fn lemma_floor_log2_of_bounded(a: nat, k: nat)
    requires
        pow2(k) <= a < pow2(k + 1),
    ensures
        floor_log2(a) == k,
    decreases k,
{
    lemma_pow2_unfold(k + 1);
    if k == 0 {
        assert(pow2(0) == 1) by {
            lemma2_to64();
        }
    } else {
        lemma_pow2_unfold(k);
        lemma_pow2_pos((k - 1) as nat);
        assert(a >= 2);
        assert(a / 2 >= pow2((k - 1) as nat));
        assert(a / 2 < pow2(k));
        lemma_floor_log2_of_bounded(a / 2, (k - 1) as nat);
    }
}

/// `floor_log2` satisfies the bounds that define it.
pub proof fn lemma_floor_log2_bounds(a: nat)
    requires
        a >= 1,
    ensures
        pow2(floor_log2(a)) <= a < pow2(floor_log2(a) + 1),
    decreases a,
{
    if a < 2 {
        assert(pow2(0) == 1 && pow2(1) == 2) by {
            lemma2_to64();
        }
    } else {
        lemma_floor_log2_bounds(a / 2);
        let k = floor_log2(a / 2);
        lemma_pow2_unfold(k + 1);
        lemma_pow2_unfold(k + 2);
    }
}

/// The IEEE-754 single-precision bit pattern of the value `m / 2`, for an
/// integer `m` with |m| <= 2^24: the sign bit, then the exponent of m/2
/// biased by 127 in bits 23..31, then 23 fraction bits.  Every
/// half-integer in this range is exactly representable, so no rounding is
/// involved; zero encodes as positive zero.
pub open spec fn half_value_bits(m: int) -> u32 {
    if m == 0 {
        0
    } else {
        let a = (if m < 0 {
            -m
        } else {
            m
        }) as nat;
        let k = floor_log2(a);
        let sign: u32 = if m < 0 {
            0x8000_0000
        } else {
            0
        };
        let e: u32 = (k + 126) as u32;
        let frac: u32 = (if k <= 23 {
            (a - pow2(k)) * pow2((23 - k) as nat)
        } else {
            0
        }) as u32;
        sign | (e << 23) | frac
    }
}

/// The components of the encoding of a nonzero `m`: |m|'s binary
/// magnitude `k`, the biased exponent and the fraction.
proof fn lemma_half_value_components(m: int) -> (kef: (nat, u32, u32))
    requires
        m != 0,
        -0x100_0000 <= m <= 0x100_0000,
    ensures
        kef.0 == floor_log2((if m < 0 { -m } else { m }) as nat),
        kef.0 <= 24,
        kef.1 == (kef.0 + 126) as u32,
        126 <= kef.1 <= 150,
        kef.2 < 0x80_0000,
        kef.2 == (if kef.0 <= 23 {
            ((if m < 0 { -m } else { m }) - pow2(kef.0)) * pow2((23 - kef.0) as nat)
        } else {
            0
        }),
        half_value_bits(m) == ((if m < 0 { 0x8000_0000u32 } else { 0u32 }) | (kef.1 << 23u32)
            | kef.2),
{
    let a = (if m < 0 { -m } else { m }) as nat;
    let k = floor_log2(a);
    lemma_floor_log2_bounds(a);
    lemma2_to64();
    if k > 24 {
        lemma_pow2_strictly_increases(24, k);
        assert(false);
    }
    let frac_int = if k <= 23 {
        (a - pow2(k)) * pow2((23 - k) as nat)
    } else {
        0int
    };
    if k <= 23 {
        lemma_pow2_pos((23 - k) as nat);
        assert((a - pow2(k)) * pow2((23 - k) as nat) < pow2(k) * pow2((23 - k) as nat))
            by (nonlinear_arith)
            requires
                a - pow2(k) < pow2(k),
                pow2((23 - k) as nat) > 0,
        ;
        lemma_pow2_adds(k, (23 - k) as nat);
        assert(frac_int >= 0) by (nonlinear_arith)
            requires
                a - pow2(k) >= 0,
                pow2((23 - k) as nat) > 0,
                frac_int == (a - pow2(k)) * pow2((23 - k) as nat),
        ;
    } else {
        assert(a == 0x100_0000);
    }
    ((k, (k + 126) as u32, frac_int as u32))
}

/// The encoding is injective on its exact range: distinct coordinates
/// give distinct bit patterns.
pub proof fn lemma_half_value_bits_injective(m1: int, m2: int)
    requires
        -0x100_0000 <= m1 <= 0x100_0000,
        -0x100_0000 <= m2 <= 0x100_0000,
        m1 != m2,
    ensures
        half_value_bits(m1) != half_value_bits(m2),
{
    lemma2_to64();
    if m1 == 0 || m2 == 0 {
        let m = if m1 == 0 {
            m2
        } else {
            m1
        };
        let kef = lemma_half_value_components(m);
        let s: u32 = if m < 0 {
            0x8000_0000
        } else {
            0
        };
        let e: u32 = kef.1;
        let f: u32 = kef.2;
        assert((s | (e << 23u32) | f) != 0u32) by (bit_vector)
            requires
                126 <= e <= 150u32,
        ;
    } else {
        let kef1 = lemma_half_value_components(m1);
        let kef2 = lemma_half_value_components(m2);
        let s1: u32 = if m1 < 0 {
            0x8000_0000
        } else {
            0
        };
        let s2: u32 = if m2 < 0 {
            0x8000_0000
        } else {
            0
        };
        let e1: u32 = kef1.1;
        let f1: u32 = kef1.2;
        let e2: u32 = kef2.1;
        let f2: u32 = kef2.2;
        if half_value_bits(m1) == half_value_bits(m2) {
            assert(s1 == s2 && e1 == e2 && f1 == f2) by (bit_vector)
                requires
                    (s1 | (e1 << 23u32) | f1) == (s2 | (e2 << 23u32) | f2),
                    s1 == 0u32 || s1 == 0x8000_0000u32,
                    s2 == 0u32 || s2 == 0x8000_0000u32,
                    126 <= e1 <= 150u32,
                    126 <= e2 <= 150u32,
                    f1 < 0x80_0000u32,
                    f2 < 0x80_0000u32,
            ;
            let a1 = (if m1 < 0 { -m1 } else { m1 }) as nat;
            let a2 = (if m2 < 0 { -m2 } else { m2 }) as nat;
            let k = kef1.0;
            assert(kef1.0 == kef2.0);
            if k <= 23 {
                lemma_pow2_pos((23 - k) as nat);
                assert(a1 == a2) by (nonlinear_arith)
                    requires
                        (a1 - pow2(k)) * pow2((23 - k) as nat) == (a2 - pow2(k)) * pow2(
                            (23 - k) as nat,
                        ),
                        pow2((23 - k) as nat) > 0,
                ;
            } else {
                lemma_floor_log2_bounds(a1);
                lemma_floor_log2_bounds(a2);
                if k > 24 {
                    lemma_pow2_strictly_increases(24, k);
                }
                assert(a1 == 0x100_0000 && a2 == 0x100_0000);
            }
            assert(m1 == m2);
            assert(false);
        }
    }
}

/// Computes the IEEE-754 single-precision bit pattern of `m / 2`.
pub fn half_bits(m: i64) -> (r: u32)
    requires
        -0x100_0000 <= m <= 0x100_0000,
    ensures
        r == half_value_bits(m as int),
{
    if m == 0 {
        return 0;
    }
    let sign: u32 = if m < 0 {
        0x8000_0000
    } else {
        0
    };
    let a: u64 = if m < 0 {
        (-m) as u64
    } else {
        m as u64
    };
    let mut k: u32 = 0;
    let mut p: u64 = 1;
    proof {
        lemma2_to64();
    }
    while 2 * p <= a
        invariant
            1 <= a <= 0x100_0000,
            1 <= p <= a,
            k <= 24,
            p == pow2(k as nat),
        decreases a - p,
    {
        proof {
            lemma_pow2_unfold(k as nat + 1);
            if k as nat + 1 > 24 {
                lemma_pow2_strictly_increases(24, k as nat + 1);
                lemma2_to64();
                assert(false);
            }
        }
        p = 2 * p;
        k = k + 1;
    }
    proof {
        lemma_pow2_unfold(k as nat + 1);
        lemma_floor_log2_of_bounded(a as nat, k as nat);
    }
    let e: u32 = k + 126;
    let frac: u32 = if k <= 23 {
        let shift: u64 = (23 - k) as u64;
        proof {
            let diff = (a - p) as nat;
            lemma_pow2_pos(shift as nat);
            assert(diff * pow2(shift as nat) < pow2(k as nat) * pow2(shift as nat))
                by (nonlinear_arith)
                requires
                    diff < pow2(k as nat),
                    pow2(shift as nat) > 0,
            ;
            lemma_pow2_adds(k as nat, (23 - k) as nat);
            lemma2_to64();
            lemma_u64_shl_is_mul((a - p) as u64, shift);
        }
        ((a - p) << shift) as u32
    } else {
        0
    };
    sign | (e << 23) | frac
}

} // verus!
