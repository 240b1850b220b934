//! Fixed-point angle arithmetic.
//!
//! Rotations are measured in microradians (millionths of a radian) and kept
//! normalized to the half-open interval `[0, TAU_URAD)`, i.e. `[0, 2*pi)`.
//! Normalization is true modular reduction, so adding any signed increment
//! and re-normalizing always lands back in the interval.

use vstd::prelude::*;
use vstd::arithmetic::div_mod::{
    lemma_fundamental_div_mod,
    lemma_fundamental_div_mod_converse,
    lemma_mod_division_less_than_divisor,
    lemma_mod_multiples_vanish,
    lemma_small_mod,
};

verus! {

/// One full turn (2*pi radians) in microradians, rounded to the nearest whole
/// microradian.
pub const TAU_URAD: i64 = 6_283_185;

/// An angle `x` in microradians reduced into `[0, TAU_URAD)`.
///
/// Verus integer `%` with a positive divisor is Euclidean, so the result is
/// non-negative for every input.
pub open spec fn wrap_spec(x: int) -> int {
    x % (TAU_URAD as int)
}

/// Floor division by 100, the harness's fixed conversion from pointer
/// coordinates (in micropixels) to angle increments (in microradians).
pub open spec fn per_hundred_spec(v: int) -> int {
    v / 100
}

/// Wrapped angles lie in `[0, 2*pi)` for every input.
pub proof fn lemma_wrap_in_range(x: int)
    ensures
        0 <= wrap_spec(x) < TAU_URAD,
{
    lemma_mod_division_less_than_divisor(x, TAU_URAD as int);
}

/// Modular reduction is a congruence for addition: normalizing the first
/// summand before adding does not change the normalized sum.
pub proof fn lemma_wrap_add(a: int, b: int)
    ensures
        wrap_spec(wrap_spec(a) + b) == wrap_spec(a + b),
{
    let t = TAU_URAD as int;
    lemma_fundamental_div_mod(a, t);
    assert(a % t + b == t * (-(a / t)) + (a + b)) by {
        assert(a == t * (a / t) + a % t);
    }
    lemma_mod_multiples_vanish(-(a / t), a + b, t);
}

/// Normalize a microradian angle into `[0, TAU_URAD)`.
pub fn wrap_angle(x: i64) -> (r: i64)
    requires
        x > i64::MIN,
    ensures
        r == wrap_spec(x as int),
        0 <= r < TAU_URAD,
{
    proof {
        lemma_wrap_in_range(x as int);
    }
    if 0 <= x && x < TAU_URAD {
        proof {
            lemma_small_mod(x as nat, TAU_URAD as nat);
        }
        x
    } else if x >= 0 {
        let r = ((x as u64) % (TAU_URAD as u64)) as i64;
        r
    } else {
        let m = ((-x) as u64) % (TAU_URAD as u64);
        proof {
            let t = TAU_URAD as int;
            let n = -(x as int);
            lemma_fundamental_div_mod(n, t);
            lemma_mod_division_less_than_divisor(n, t);
            if n % t == 0 {
                assert((x as int) == t * (-(n / t)) + 0) by {
                    assert(n == t * (n / t) + n % t);
                }
                lemma_mod_multiples_vanish(-(n / t), 0, t);
                lemma_small_mod(0, t as nat);
            } else {
                assert((x as int) == t * (-(n / t) - 1) + (t - n % t)) by {
                    assert(n == t * (n / t) + n % t);
                }
                lemma_mod_multiples_vanish(-(n / t) - 1, t - n % t, t);
                lemma_small_mod((t - n % t) as nat, t as nat);
            }
        }
        if m == 0 {
            0
        } else {
            TAU_URAD - (m as i64)
        }
    }
}

/// Floor-divide a signed micro-unit value by 100.
pub fn per_hundred(v: i64) -> (r: i64)
    requires
        v > i64::MIN,
    ensures
        r == per_hundred_spec(v as int),
{
    if v >= 0 {
        ((v as u64) / 100) as i64
    } else {
        let m = (-v) as u64;
        let q = (m / 100) as i64;
        proof {
            let n = -(v as int);
            lemma_fundamental_div_mod(n, 100);
            if n % 100 == 0 {
                assert((v as int) == 100 * (-(n / 100)) + 0);
                lemma_fundamental_div_mod_converse(v as int, 100, -(n / 100), 0);
            } else {
                assert((v as int) == 100 * (-(n / 100) - 1) + (100 - n % 100));
                lemma_mod_division_less_than_divisor(n, 100);
                lemma_fundamental_div_mod_converse(v as int, 100, -(n / 100) - 1, 100 - n % 100);
            }
        }
        if m % 100 == 0 {
            -q
        } else {
            -q - 1
        }
    }
}

} // verus!
