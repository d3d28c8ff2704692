//! Database sizes in MiB with two decimals, computed exactly in integers:
//! the byte count is rounded to the nearest `f64` (ties to even), divided by
//! 2^20, and rounded to hundredths (ties to even). This is meant to equal
//! formatting `bytes as f64 / 1024.0 / 1024.0` with `{:.2}`; `push_mib` is
//! proved against the integer statement below, while its agreement with the
//! float formatting is checked by tests, not proved.
use vstd::prelude::*;
use crate::text::{push_digits, spec_digit_char, spec_digits};

verus! {

pub open spec fn spec_pow2(k: nat) -> nat
    decreases k,
{
    if k == 0 {
        1
    } else {
        2 * spec_pow2((k - 1) as nat)
    }
}

/// How many low bits of `x` do not fit the 53-bit significand of an `f64`.
pub open spec fn spec_dropped_bits(x: nat) -> nat
    decreases x,
{
    if x < 0x20000000000000 {
        0
    } else {
        1 + spec_dropped_bits(x / 2)
    }
}

/// `q` plus one when the remainder `rem` of a division by `unit` is above
/// one half, or exactly one half with `q` odd: rounding to nearest, ties to
/// even.
pub open spec fn spec_round_half_even(q: nat, rem: nat, unit: nat) -> nat {
    if 2 * rem > unit || (2 * rem == unit && q % 2 == 1) {
        q + 1
    } else {
        q
    }
}

/// `x` rounded to the nearest `f64` value (ties to even).
pub open spec fn spec_nearest_f64(x: nat) -> nat {
    let unit = spec_pow2(spec_dropped_bits(x));
    spec_round_half_even(x / unit, x % unit, unit) * unit
}

/// `bytes / 2^20` in hundredths, after `bytes` was rounded to an `f64`.
pub open spec fn spec_mib_hundredths(bytes: nat) -> nat {
    let n = spec_nearest_f64(bytes) * 100;
    spec_round_half_even(n / 0x100000, n % 0x100000, 0x100000)
}

/// `{:.2}` of the size in MiB.
pub open spec fn spec_mib_text(bytes: nat) -> Seq<char> {
    let h = spec_mib_hundredths(bytes);
    spec_digits(h / 100) + seq!['.', spec_digit_char((h % 100) / 10), spec_digit_char(h % 10)]
}

fn digit(d: u128) -> (c: char)
    requires
        d < 10,
    ensures
        c == spec_digit_char(d as nat),
{
    if d == 0 { '0' }
    else if d == 1 { '1' }
    else if d == 2 { '2' }
    else if d == 3 { '3' }
    else if d == 4 { '4' }
    else if d == 5 { '5' }
    else if d == 6 { '6' }
    else if d == 7 { '7' }
    else if d == 8 { '8' }
    else { '9' }
}

fn round_half_even(q: u128, rem: u128, unit: u128) -> (r: u128)
    requires
        q < u128::MAX,
        rem < unit,
        unit < 0x1_0000_0000_0000_0000_0000_0000,
    ensures
        r == spec_round_half_even(q as nat, rem as nat, unit as nat),
{
    if 2 * rem > unit || (2 * rem == unit && q % 2 == 1) {
        q + 1
    } else {
        q
    }
}

/// Appends the size of `bytes` in MiB with two decimals.
pub fn push_mib(out: &mut String, bytes: i64)
    requires
        bytes > 0,
    ensures
        final(out)@ == old(out)@ + spec_mib_text(bytes as nat),
{
    let x: u128 = bytes as u128;
    let mut unit: u128 = 1;
    let ghost mut k: nat = 0;
    while x / unit >= 0x20000000000000
        invariant
            x == bytes as u128,
            0 < x < 0x8000_0000_0000_0000,
            unit == spec_pow2(k),
            1 <= unit <= x,
            spec_dropped_bits(x as nat) == k + spec_dropped_bits((x / unit) as nat),
        decreases x - unit,
    {
        proof {
            let xi = x as int;
            let ui = unit as int;
            vstd::arithmetic::div_mod::lemma_div_denominator(xi, ui, 2);
            vstd::arithmetic::div_mod::lemma_fundamental_div_mod(xi, ui * 2);
            vstd::arithmetic::div_mod::lemma_mod_pos_bound(xi, ui * 2);
            let q2 = xi / (ui * 2);
            assert(q2 >= 1);
            assert((ui * 2) * q2 >= ui * 2) by (nonlinear_arith)
                requires
                    q2 >= 1,
                    ui >= 1,
            ;
        }
        unit = unit * 2;
        proof {
            k = k + 1;
        }
    }
    let q = x / unit;
    let rem = x % unit;
    proof {
        vstd::arithmetic::div_mod::lemma_fundamental_div_mod(x as int, unit as int);
        assert(q <= x) by (nonlinear_arith)
            requires
                x == unit * q + rem,
                unit >= 1,
                rem >= 0,
        ;
    }
    let up = round_half_even(q, rem, unit);
    assert(up * unit <= 2 * x) by (nonlinear_arith)
        requires
            x == unit * q + rem,
            up <= q + 1,
            unit <= x,
            rem >= 0,
    ;
    let r = up * unit;
    let n = r * 100;
    assert(n / 0x100000 < 0x8_0000_0000_0000) by (nonlinear_arith)
        requires
            n < 0x80_0000_0000_0000_0000,
    ;
    let h = round_half_even(n / 0x100000, n % 0x100000, 0x100000);
    let int_part = h / 100;
    let frac = h % 100;
    push_digits(out, int_part as u64);
    out.push('.');
    out.push(digit(frac / 10));
    out.push(digit(frac % 10));
    assert(out@ =~= old(out)@ + spec_mib_text(bytes as nat));
}

/// For every byte count that an `f64` holds exactly, the shown size is the
/// size in MiB rounded to the nearest hundredth: it differs from
/// `bytes / 2^20` by at most half a hundredth.
pub proof fn law_mib_is_the_nearest_hundredth(bytes: nat)
    requires
        bytes < 0x20000000000000,
    ensures
        -0x80000 <= spec_mib_hundredths(bytes) * 0x100000 - bytes * 100 <= 0x80000,
{
    assert(spec_dropped_bits(bytes) == 0);
    assert(spec_pow2(0) == 1);
    assert(spec_nearest_f64(bytes) == bytes);
    let n = bytes * 100;
    let q = n / 0x100000;
    let r = n % 0x100000;
    assert(n == q * 0x100000 + r && 0 <= r < 0x100000) by (nonlinear_arith)
        requires
            q == n / 0x100000,
            r == n % 0x100000,
    ;
}

} // verus!
