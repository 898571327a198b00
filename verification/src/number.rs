//! Numeric literals. A literal is held exactly, as a sign, an integer
//! mantissa and a power of two, so that no floating point arithmetic is
//! needed to compare literals, to test them for zero or to use them as an
//! index.

use vstd::prelude::*;
use vstd::arithmetic::power2::pow2;
use vstd::arithmetic::power2::lemma_pow2_pos;
use vstd::arithmetic::power2::lemma_pow2_unfold;
use vstd::arithmetic::power2::lemma_pow2_strictly_increases;

verus! {

/// The number `(-1)^negative * mantissa * 2^exponent`.
#[derive(Clone, Copy, Debug, PartialEq, Eq, Hash, Structural)]
pub struct Number {
    pub negative: bool,
    pub mantissa: u64,
    pub exponent: i16,
}

/// The integer nearest to `m * 2^e`, a tie going away from zero.
pub open spec fn round_magnitude(m: nat, e: int) -> nat {
    if e >= 0 {
        m * pow2(e as nat)
    } else {
        ((2 * m + pow2((-e) as nat)) / (2 * pow2((-e) as nat))) as nat
    }
}

/// `v` brought into the range of `i64`.
pub open spec fn clamp_i64(v: int) -> int {
    if v > i64::MAX {
        i64::MAX as int
    } else if v < i64::MIN {
        i64::MIN as int
    } else {
        v
    }
}

proof fn lemma_round_small(m: nat, k: nat)
    requires
        m < pow2(64),
        k >= 66,
    ensures
        (2 * m + pow2(k)) / (2 * pow2(k)) == 0,
{
    lemma_pow2_strictly_increases(65, k);
    lemma_pow2_unfold(65);
    lemma_pow2_pos(k);
    let p = pow2(k) as int;
    let n = 2 * m + p;
    assert(0 <= n < 2 * p);
    assert(n / (2 * p) == 0) by (nonlinear_arith)
        requires
            0 <= n < 2 * p,
            p > 0,
    ;
}

proof fn lemma_round_large(m: nat, k: nat)
    requires
        m >= 1,
        k >= 63,
    ensures
        m * pow2(k) > i64::MAX,
{
    if k > 63 {
        lemma_pow2_strictly_increases(63, k);
    }
    lemma_pow2_63();
    let p = pow2(k) as int;
    assert(m * p >= p) by (nonlinear_arith)
        requires
            m >= 1,
            p >= 0,
    ;
}

proof fn lemma_pow2_63()
    ensures
        pow2(63) == 0x8000_0000_0000_0000,
        pow2(64) == 0x1_0000_0000_0000_0000,
{
    vstd::arithmetic::power2::lemma2_to64();
    vstd::arithmetic::power2::lemma2_to64_rest();
}

/// `2^k` for a small `k`.
fn pow2_u128(k: u32) -> (p: u128)
    requires
        k <= 120,
    ensures
        p == pow2(k as nat),
        p >= 1,
{
    let mut p: u128 = 1;
    let mut i: u32 = 0;
    proof {
        vstd::arithmetic::power2::lemma2_to64();
        lemma_pow2_120();
    }
    while i < k
        invariant
            i <= k,
            k <= 120,
            p == pow2(i as nat),
            p >= 1,
            p <= pow2(120),
        decreases k - i,
    {
        proof {
            lemma_pow2_unfold((i + 1) as nat);
            if i + 1 < 120 {
                lemma_pow2_strictly_increases((i + 1) as nat, 120);
            }
            lemma_pow2_120();
        }
        p = p * 2;
        i = i + 1;
    }
    p
}

proof fn lemma_pow2_120()
    ensures
        pow2(120) == 0x1_0000_0000_0000_0000_0000_0000_0000_00,
{
    vstd::arithmetic::power2::lemma2_to64();
    vstd::arithmetic::power2::lemma2_to64_rest();
    vstd::arithmetic::power2::lemma_pow2_adds(60, 60);
}

impl Number {
    /// The whole number `v`.
    pub fn from_int(v: i64) -> (n: Number)
        ensures
            n.spec_round() == v,
            n.is_zero() == (v == 0),
            n.exponent == 0,
            n.negative == (v < 0),
            n.mantissa == if v < 0 { -v } else { v as int },
    {
        proof {
            vstd::arithmetic::power2::lemma2_to64();
            assert(pow2(0) == 1);
            assert forall|m: nat| round_magnitude(m, 0) == m by {
                assert(m * 1 == m);
            }
        }
        if v < 0 {
            let m: u64 = if v == i64::MIN {
                0x8000_0000_0000_0000u64
            } else {
                (-v) as u64
            };
            Number { negative: true, mantissa: m, exponent: 0 }
        } else {
            Number { negative: false, mantissa: v as u64, exponent: 0 }
        }
    }

    /// Whether the literal is zero, of either sign.
    pub open spec fn spec_is_zero(self) -> bool {
        self.mantissa == 0
    }

    /// Whether the literal is zero, of either sign.
    #[verifier::when_used_as_spec(spec_is_zero)]
    pub fn is_zero(self) -> (b: bool)
        ensures
            b == self.spec_is_zero(),
    {
        self.mantissa == 0
    }

    /// The nearest integer, a tie going away from zero, brought into the
    /// range of `i64`.
    pub open spec fn spec_round(self) -> int {
        let mag = round_magnitude(self.mantissa as nat, self.exponent as int);
        clamp_i64(if self.negative { -(mag as int) } else { mag as int })
    }

    /// The literal as an index: its nearest integer within `i64`.
    pub fn round(self) -> (r: i64)
        ensures
            r == self.spec_round(),
    {
        let m = self.mantissa;
        let e = self.exponent;
        proof {
            lemma_pow2_63();
        }
        if m == 0 {
            proof {
                if e >= 0 {
                    assert(0 * pow2(e as nat) == 0) by (nonlinear_arith);
                } else {
                    let k = (-e) as nat;
                    lemma_pow2_pos(k);
                    let p = pow2(k) as int;
                    assert(p / (2 * p) == 0) by (nonlinear_arith)
                        requires
                            p > 0,
                    ;
                }
            }
            return 0;
        }
        let mag: u128 = if e >= 0 {
            if e >= 63 {
                proof {
                    lemma_round_large(m as nat, e as nat);
                }
                0x8000_0000_0000_0000u128
            } else {
                let p = pow2_u128(e as u32);
                proof {
                    lemma_pow2_strictly_increases(e as nat, 63);
                    assert(m * p < 0x1_0000_0000_0000_0000 * 0x8000_0000_0000_0000)
                        by (nonlinear_arith)
                        requires
                            m < 0x1_0000_0000_0000_0000,
                            p < 0x8000_0000_0000_0000,
                            p >= 1,
                    ;
                }
                (m as u128) * p
            }
        } else {
            let k: i32 = -(e as i32);
            if k >= 66 {
                proof {
                    lemma_round_small(m as nat, k as nat);
                }
                0
            } else {
                let p = pow2_u128(k as u32);
                proof {
                    lemma_pow2_strictly_increases(k as nat, 66);
                    vstd::arithmetic::power2::lemma_pow2_adds(2, 64);
                    vstd::arithmetic::power2::lemma2_to64();
                }
                (2 * (m as u128) + p) / (2 * p)
            }
        };
        if self.negative {
            if mag >= 0x8000_0000_0000_0000u128 {
                i64::MIN
            } else {
                -(mag as i64)
            }
        } else {
            if mag > 0x7fff_ffff_ffff_ffffu128 {
                i64::MAX
            } else {
                mag as i64
            }
        }
    }
}

} // verus!
