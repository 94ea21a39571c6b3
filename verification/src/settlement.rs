//! Proportional settlement: a depositor's share of a pot, computed exactly.
//!
//! The share is `balance * pot / total`, truncated toward zero. The product
//! of two 128-bit amounts needs 256 bits, so it is formed as a pair of
//! 128-bit halves and divided by schoolbook long division, one bit at a time.

use vstd::prelude::*;
use vstd::arithmetic::div_mod::{
    lemma_div_by_multiple, lemma_div_is_ordered, lemma_fundamental_div_mod,
    lemma_fundamental_div_mod_converse,
};
use vstd::arithmetic::power2::{
    lemma2_to64, lemma_pow2_adds, lemma_pow2_strictly_increases, lemma_pow2_unfold, pow2,
};
use crate::error::PoolError;

verus! {

/// 2^64, the weight of the upper half of a 128-bit word.
pub const HALF: u128 = 0x1_0000_0000_0000_0000;

/// 2^127, the weight of the top bit of a 128-bit word.
pub const TOP_BIT: u128 = 0x8000_0000_0000_0000_0000_0000_0000_0000;

/// 2^128 as a mathematical integer.
pub open spec fn word() -> int {
    0x1_0000_0000_0000_0000_0000_0000_0000_0000int
}

/// The 256-bit number whose upper word is `hi` and whose lower word is `lo`.
pub open spec fn wide(hi: u128, lo: u128) -> int {
    hi * word() + lo
}

/// The product of two 64-bit values fits in 128 bits.
proof fn lemma_half_product(x: u128, y: u128)
    requires
        x < HALF,
        y < HALF,
    ensures
        x * y <= (HALF - 1) * (HALF - 1),
        x * y >= 0,
{
    assert(x * y <= (HALF - 1) * (HALF - 1)) by (nonlinear_arith)
        requires
            0 <= x <= HALF - 1,
            0 <= y <= HALF - 1,
    ;
}

/// Multiplies two 128-bit words into a 256-bit product, returned as its
/// upper and lower word.
pub fn mul_wide(a: u128, b: u128) -> (r: (u128, u128))
    ensures
        wide(r.0, r.1) == a * b,
{
    let a0: u128 = a % HALF;
    let a1: u128 = a / HALF;
    let b0: u128 = b % HALF;
    let b1: u128 = b / HALF;
    proof {
        lemma_half_product(a0, b0);
        lemma_half_product(a0, b1);
        lemma_half_product(a1, b0);
        lemma_half_product(a1, b1);
    }
    let ll: u128 = a0 * b0;
    let lh: u128 = a0 * b1;
    let hl: u128 = a1 * b0;
    let hh: u128 = a1 * b1;
    let mid: u128 = ll / HALF + lh % HALF + hl % HALF;
    let lo: u128 = ll % HALF + (mid % HALF) * HALF;
    let hi: u128 = hh + lh / HALF + hl / HALF + mid / HALF;
    proof {
        let w: int = HALF as int;
        assert(a * b == (a1 * b1) * (w * w) + (a0 * b1) * w + (a1 * b0) * w + a0 * b0)
            by (nonlinear_arith)
            requires
                a == a1 * w + a0,
                b == b1 * w + b0,
        ;
        let top: int = hh + lh / HALF + hl / HALF + mid / HALF;
        assert(top * (w * w) == hh * (w * w) + (lh / HALF) * (w * w) + (hl / HALF) * (w * w) + (mid
            / HALF) * (w * w)) by (nonlinear_arith)
            requires
                top == hh + lh / HALF + hl / HALF + mid / HALF,
        ;
        assert((lh / HALF) * (w * w) == ((lh / HALF) * w) * w) by (nonlinear_arith);
        assert((hl / HALF) * (w * w) == ((hl / HALF) * w) * w) by (nonlinear_arith);
        assert((mid / HALF) * (w * w) == ((mid / HALF) * w) * w) by (nonlinear_arith);
    }
    (hi, lo)
}

/// The powers of two that the long division runs through.
proof fn lemma_powers_of_two(k: nat)
    ensures
        pow2(128) == word(),
        k < 128 ==> 2 * pow2(k) <= word(),
        pow2(k + 1) == 2 * pow2(k),
        pow2(0) == 1,
{
    lemma2_to64();
    lemma_pow2_adds(64, 64);
    lemma_pow2_unfold(k + 1);
    if k < 128 {
        lemma_pow2_unfold(128);
        if k < 127 {
            lemma_pow2_strictly_increases(k, 127);
        }
    }
}

/// Divides the 256-bit number with upper word `hi` and lower word `lo` by
/// `d`. The upper word has to be below the divisor: that is exactly when the
/// quotient fits in one word.
pub fn div_wide(hi: u128, lo: u128, d: u128) -> (q: u128)
    requires
        hi < d,
    ensures
        q == wide(hi, lo) / (d as int),
{
    let ghost n: int = wide(hi, lo);
    let mut q: u128 = 0;
    let mut r: u128 = hi;
    let mut rest: u128 = lo;
    let mut k: u32 = 0;
    proof {
        lemma_powers_of_two(0);
    }
    while k < 128
        invariant
            k <= 128,
            r < d,
            q < pow2(k as nat),
            n * pow2(k as nat) == (q * d + r) * word() + rest,
        decreases 128 - k,
    {
        let ghost p: int = pow2(k as nat) as int;
        let ghost q0: int = q as int;
        let ghost r0: int = r as int;
        let ghost rest0: int = rest as int;
        proof {
            lemma_powers_of_two(k as nat);
        }
        let bit: u128 = if rest >= TOP_BIT {
            1
        } else {
            0
        };
        rest = if rest >= TOP_BIT {
            (rest - TOP_BIT) * 2
        } else {
            rest * 2
        };
        let gap: u128 = d - r;
        if r + bit >= gap {
            r = r + bit - gap;
            q = 2 * q + 1;
        } else {
            r = r + r + bit;
            q = 2 * q;
        }
        k = k + 1;
        proof {
            assert(q * d + r == 2 * (q0 * d) + 2 * r0 + bit) by (nonlinear_arith)
                requires
                    q == 2 * q0 + 1 && r == 2 * r0 + bit - d || q == 2 * q0 && r == 2 * r0 + bit,
            ;
            assert(n * (2 * p) == 2 * (n * p)) by (nonlinear_arith);
        }
    }
    proof {
        assert((n - (q * d + r)) * word() == rest) by (nonlinear_arith)
            requires
                n * word() == (q * d + r) * word() + rest,
        ;
        lemma_fundamental_div_mod_converse(n, d as int, q as int, r as int);
    }
    q
}

/// Computes `a * b / d`, rounded down, through a 256-bit product. There is
/// no result when `d` is zero or when the quotient does not fit in 128 bits.
pub fn mul_div(a: u128, b: u128, d: u128) -> (r: Option<u128>)
    ensures
        r == (if d == 0 || (a * b) / (d as int) > u128::MAX {
            None
        } else {
            Some(((a * b) / (d as int)) as u128)
        }),
{
    if d == 0 {
        return None;
    }
    let (hi, lo) = mul_wide(a, b);
    if hi >= d {
        proof {
            let n: int = wide(hi, lo);
            lemma_div_is_ordered(d * word(), n, d as int);
            lemma_div_by_multiple(word(), d as int);
        }
        return None;
    }
    let q: u128 = div_wide(hi, lo, d);
    Some(q)
}

/// The size of `x` without its sign.
pub open spec fn magnitude(x: int) -> int {
    if x < 0 {
        -x
    } else {
        x
    }
}

/// The share of `pot` that falls to `balance` out of `total`: the quotient
/// `balance * pot / total`, truncated toward zero. For amounts that are not
/// negative this is the quotient rounded down. Unspecified for `total == 0`.
pub open spec fn share_of(balance: int, pot: int, total: int) -> int {
    let size = (magnitude(balance) * magnitude(pot)) / magnitude(total);
    if ((balance < 0) != (pot < 0)) != (total < 0) {
        -size
    } else {
        size
    }
}

/// The size of a signed amount, as an unsigned word.
pub fn magnitude_of(x: i128) -> (m: u128)
    ensures
        m == magnitude(x as int),
{
    if x >= 0 {
        x as u128
    } else {
        (-(x + 1)) as u128 + 1
    }
}

/// Computes the share of `pot` that a depositor with `balance` may claim
/// when `total` was deposited in all, truncated toward zero.
///
/// Fails with `DivisionByZero` when `total` is zero, and with `Overflow`
/// when the share does not fit in `i128`.
pub fn proportional_share(balance: i128, pot: i128, total: i128) -> (r: Result<i128, PoolError>)
    ensures
        r == (if total == 0 {
            Err::<i128, PoolError>(PoolError::DivisionByZero)
        } else if i128::MIN <= share_of(balance as int, pot as int, total as int) <= i128::MAX {
            Ok(share_of(balance as int, pot as int, total as int) as i128)
        } else {
            Err(PoolError::Overflow)
        }),
{
    if total == 0 {
        return Err(PoolError::DivisionByZero);
    }
    let negative: bool = ((balance < 0) != (pot < 0)) != (total < 0);
    match mul_div(magnitude_of(balance), magnitude_of(pot), magnitude_of(total)) {
        None => Err(PoolError::Overflow),
        Some(size) => {
            if negative {
                if size < TOP_BIT {
                    Ok(-(size as i128))
                } else if size == TOP_BIT {
                    Ok(i128::MIN)
                } else {
                    Err(PoolError::Overflow)
                }
            } else if size < TOP_BIT {
                Ok(size as i128)
            } else {
                Err(PoolError::Overflow)
            }
        },
    }
}

/// For amounts that are not negative the share is the quotient rounded
/// down: the largest amount whose multiple by `total` stays within
/// `balance * pot`. So nobody is paid more than their exact entitlement.
pub proof fn lemma_share_rounds_down(balance: int, pot: int, total: int)
    requires
        0 <= balance,
        0 <= pot,
        0 < total,
    ensures
        share_of(balance, pot, total) == (balance * pot) / total,
        0 <= share_of(balance, pot, total),
        share_of(balance, pot, total) * total <= balance * pot < (share_of(balance, pot, total) + 1)
            * total,
{
    let n: int = balance * pot;
    lemma_fundamental_div_mod(n, total);
    assert((n / total + 1) * total == total * (n / total) + total) by (nonlinear_arith);
}

/// A balance that is part of the total claims no more than the pot, and
/// where the pot covers the total it claims no less than the balance.
pub proof fn lemma_share_bounds(balance: int, pot: int, total: int)
    requires
        0 <= balance <= total,
        0 <= pot,
        0 < total,
    ensures
        0 <= share_of(balance, pot, total) <= pot,
        pot >= total ==> share_of(balance, pot, total) >= balance,
{
    assert(balance * pot <= total * pot) by (nonlinear_arith)
        requires
            0 <= balance <= total,
            0 <= pot,
    ;
    lemma_div_is_ordered(balance * pot, total * pot, total);
    lemma_div_by_multiple(pot, total);
    assert(total * pot == pot * total) by (nonlinear_arith);
    if pot >= total {
        assert(balance * total <= balance * pot) by (nonlinear_arith)
            requires
                0 <= balance,
                total <= pot,
        ;
        lemma_div_is_ordered(balance * total, balance * pot, total);
        lemma_div_by_multiple(balance, total);
    }
}

} // verus!
