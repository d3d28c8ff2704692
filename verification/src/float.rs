//! The conversion of a binary64 float, given by its bits, to `i64`: rounded
//! toward zero, saturating at the bounds, with NaN giving 0 (the semantics of
//! an `as i64` cast).
use vstd::prelude::*;
use vstd::arithmetic::power2::{pow2, lemma2_to64, lemma2_to64_rest, lemma_pow2_strictly_increases, lemma_pow2_unfold};

verus! {

/// The sign bit of `bits`.
pub open spec fn spec_f64_negative(bits: u64) -> bool {
    bits >= 0x8000_0000_0000_0000
}

/// The biased exponent field of `bits`.
pub open spec fn spec_f64_exponent(bits: u64) -> nat {
    ((bits / 0x10_0000_0000_0000) % 0x800) as nat
}

/// The fraction field of `bits`.
pub open spec fn spec_f64_fraction(bits: u64) -> nat {
    (bits % 0x10_0000_0000_0000) as nat
}

/// The magnitude of a finite float, rounded toward zero.
pub open spec fn spec_f64_trunc_magnitude(bits: u64) -> nat {
    let e = spec_f64_exponent(bits);
    let m = spec_f64_fraction(bits) + 0x10_0000_0000_0000;
    if e == 0 {
        0
    } else if e >= 1075 {
        m * pow2((e - 1075) as nat)
    } else {
        m / pow2((1075 - e) as nat)
    }
}

/// `x as i64` for the float `x` whose bits are `bits`.
pub open spec fn spec_f64_to_i64(bits: u64) -> i64 {
    let negative = spec_f64_negative(bits);
    if spec_f64_exponent(bits) == 0x7ff {
        if spec_f64_fraction(bits) != 0 {
            0
        } else if negative {
            i64::MIN
        } else {
            i64::MAX
        }
    } else {
        let mag = spec_f64_trunc_magnitude(bits);
        if negative {
            if mag >= 0x8000_0000_0000_0000 {
                i64::MIN
            } else {
                (-mag) as i64
            }
        } else {
            if mag > 0x7fff_ffff_ffff_ffff {
                i64::MAX
            } else {
                mag as i64
            }
        }
    }
}

/// 2^k for k below 64.
fn pow2_u128(k: u64) -> (r: u128)
    requires
        k < 64,
    ensures
        r == pow2(k as nat),
{
    let mut r: u128 = 1;
    let mut i: u64 = 0;
    proof {
        lemma2_to64();
    }
    while i < k
        invariant
            i <= k < 64,
            r == pow2(i as nat),
        decreases k - i,
    {
        proof {
            lemma_pow2_unfold((i + 1) as nat);
            lemma_pow2_strictly_increases((i + 1) as nat, 64);
            lemma2_to64();
        }
        r = r * 2;
        i = i + 1;
    }
    r
}

/// `x as i64` for the float `x` whose bits are `bits`.
pub fn f64_to_i64(bits: u64) -> (r: i64)
    ensures
        r == spec_f64_to_i64(bits),
{
    let negative = bits >= 0x8000_0000_0000_0000;
    let e = (bits / 0x10_0000_0000_0000) % 0x800;
    let frac = bits % 0x10_0000_0000_0000;
    if e == 0x7ff {
        return if frac != 0 {
            0
        } else if negative {
            i64::MIN
        } else {
            i64::MAX
        };
    }
    let m: u128 = (frac + 0x10_0000_0000_0000) as u128;
    // the magnitude, or any value of at least 2^63 when it is that large
    let mag: u128 = if e == 0 {
        0
    } else if e >= 1075 {
        let k = e - 1075;
        if k >= 11 {
            proof {
                lemma2_to64();
                if k > 11 {
                    lemma_pow2_strictly_increases(11, k as nat);
                }
                let p = pow2(k as nat);
                assert(m * p >= 0x8000_0000_0000_0000) by (nonlinear_arith)
                    requires
                        m >= 0x10_0000_0000_0000,
                        p >= 2048,
                ;
            }
            0x8000_0000_0000_0000
        } else {
            let p = pow2_u128(k);
            proof {
                lemma2_to64();
                if k < 11 {
                    lemma_pow2_strictly_increases(k as nat, 11);
                }
                assert(m * p <= 0x20_0000_0000_0000 * 2048) by (nonlinear_arith)
                    requires
                        m < 0x20_0000_0000_0000,
                        p <= 2048,
                ;
            }
            m * p
        }
    } else {
        let s = 1075 - e;
        if s >= 54 {
            proof {
                lemma2_to64();
                lemma2_to64_rest();
                lemma_pow2_strictly_increases(53, s as nat);
                vstd::arithmetic::div_mod::lemma_basic_div(m as int, pow2(s as nat) as int);
            }
            0
        } else {
            let p = pow2_u128(s);
            proof {
                vstd::arithmetic::power2::lemma_pow2_pos(s as nat);
                vstd::arithmetic::div_mod::lemma_div_is_ordered_by_denominator(m as int, 1, p as int);
            }
            m / p
        }
    };
    if negative {
        if mag >= 0x8000_0000_0000_0000 {
            i64::MIN
        } else {
            -(mag as i64)
        }
    } else {
        if mag > 0x7fff_ffff_ffff_ffff {
            i64::MAX
        } else {
            mag as i64
        }
    }
}

} // verus!
