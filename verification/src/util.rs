//! Fixed-point computation of absolute humidity from temperature and
//! relative humidity.
//!
//! The absolute humidity in grams per cubic metre is
//! `(C1 * rel_hum * e^(17.67*T / (T + 243.5))) / (273.15 + T)` with
//! `C1 = 6.112 * 18.02 / (100 * 0.08314)`, for `T` in degrees Celsius and
//! `rel_hum` in percent.  The formula is accurate to within 0.1% over the
//! temperature range -30 C to +35 C.
//!
//! Everything here is integer arithmetic: the inputs are thousandths of a
//! unit, the exponential is evaluated in millionths through a table of
//! integer powers of `e` and a twelve-term Taylor series for the fractional
//! part, and the result is again in thousandths.  The model below is exact
//! about every intermediate truncation, so the computed value is a pure
//! function of the two inputs.

use vstd::prelude::*;

verus! {

use vstd::arithmetic::div_mod::{
    lemma_div_pos_is_pos,
    lemma_multiply_divide_lt,
};
use vstd::arithmetic::mul::{lemma_mul_inequality, lemma_mul_nonnegative, lemma_mul_upper_bound};
use crate::data::{rel_hum_in_range, temp_in_range};

/// Argument of the exponential, in millionths: `17.67*T / (T + 243.5)`
/// for a temperature given in milli-degrees Celsius.
pub open spec fn exp_arg_micro(t: int) -> int {
    if t >= 0 {
        (17_670_000 * t) / (t + 243_500)
    } else {
        -((17_670_000 * (-t)) / (t + 243_500))
    }
}

/// Term `k` of the Taylor series of `e^(r/1e6)`, in millionths, with every
/// division truncated: term 0 is one, and each further term multiplies by
/// `r/1e6` and divides by `k`.
pub open spec fn exp_series_term(r: int, k: nat) -> int
    decreases k,
{
    if k == 0 {
        1_000_000
    } else {
        (exp_series_term(r, (k - 1) as nat) * r) / (1_000_000 * k as int)
    }
}

/// Sum of the Taylor series terms `0..=n`, in millionths.
pub open spec fn exp_series_sum(r: int, n: nat) -> int
    decreases n,
{
    if n == 0 {
        1_000_000
    } else {
        exp_series_sum(r, (n - 1) as nat) + exp_series_term(r, n)
    }
}

/// `e^(r/1e6)` in millionths for `0 <= r < 1e6`: twelve Taylor terms.
pub open spec fn exp_frac_micro(r: int) -> int {
    exp_series_sum(r, 12)
}

/// `e^n` in millionths for the integer part `n` of the exponent, which the
/// humidity formula keeps within `-4..=4`.
pub open spec fn exp_whole_micro(n: int) -> int {
    if n <= -4 {
        18_316
    } else if n == -3 {
        49_787
    } else if n == -2 {
        135_335
    } else if n == -1 {
        367_879
    } else if n == 0 {
        1_000_000
    } else if n == 1 {
        2_718_282
    } else if n == 2 {
        7_389_056
    } else if n == 3 {
        20_085_537
    } else {
        54_598_150
    }
}

/// `e^(x/1e6)` in millionths: the whole part comes from the table, the
/// fractional part from the Taylor series.
pub open spec fn exp_micro(x: int) -> int {
    let y = x + 4_000_000;
    let n = y / 1_000_000;
    let r = y % 1_000_000;
    (exp_whole_micro(n - 4) * exp_frac_micro(r)) / 1_000_000
}

/// The absolute humidity in milli-grams per cubic metre, as the integer
/// rendering of the formula: `C1 = 11_013_824 / 831_400` exactly, and the
/// final division is by the temperature in milli-Kelvin.
pub open spec fn abs_humidity_model(t: int, rh: int) -> int {
    (11_013_824 * rh * exp_micro(exp_arg_micro(t))) / (831_400_000 * (t + 273_150))
}

/// Exponent argument for a representable temperature, in millionths.
fn exp_arg(t: i64) -> (x: i64)
    requires
        temp_in_range(t as int),
    ensures
        x == exp_arg_micro(t as int),
        -3_500_000 < x < 4_400_000,
{
    if t >= 0 {
        let num: i64 = 17_670_000 * t;
        let den: i64 = t + 243_500;
        let q: i64 = num / den;
        proof {
            lemma_div_pos_is_pos(num as int, den as int);
            assert(num < den * 4_400_000);
            lemma_multiply_divide_lt(num as int, den as int, 4_400_000);
        }
        q
    } else {
        let num: i64 = 17_670_000 * (-t);
        let den: i64 = t + 243_500;
        let mag: i64 = num / den;
        proof {
            lemma_div_pos_is_pos(num as int, den as int);
            assert(num < den * 3_500_000);
            lemma_multiply_divide_lt(num as int, den as int, 3_500_000);
        }
        -mag
    }
}

/// Taylor series for the fractional part of the exponent.
fn exp_frac(r: i64) -> (s: i64)
    requires
        0 <= r < 1_000_000,
    ensures
        s == exp_frac_micro(r as int),
        1_000_000 <= s <= 13_000_000,
{
    let mut term: i64 = 1_000_000;
    let mut acc: i64 = 1_000_000;
    let mut k: i64 = 1;
    while k <= 12
        invariant
            1 <= k <= 13,
            0 <= r < 1_000_000,
            term == exp_series_term(r as int, (k - 1) as nat),
            acc == exp_series_sum(r as int, (k - 1) as nat),
            0 <= term <= 1_000_000,
            1_000_000 <= acc <= 1_000_000 * k,
        decreases 13 - k,
    {
        proof {
            lemma_mul_upper_bound(term as int, 1_000_000, r as int, 999_999);
            lemma_mul_nonnegative(term as int, r as int);
            assert((1_000_000 * k) * 1_000_000 >= 1_000_000_000_000) by (nonlinear_arith)
                requires
                    1 <= k,
            ;
            lemma_multiply_divide_lt(term as int * r as int, 1_000_000 * k as int, 1_000_000);
            lemma_div_pos_is_pos(term as int * r as int, 1_000_000 * k as int);
        }
        term = (term * r) / (1_000_000 * k);
        acc = acc + term;
        k = k + 1;
    }
    acc
}

/// `e^(x/1e6)` in millionths for the exponent range of the formula.
fn exp_fixed(x: i64) -> (e: i64)
    requires
        -3_500_000 < x < 4_400_000,
    ensures
        e == exp_micro(x as int),
        0 <= e <= 720_000_000,
{
    let y: i64 = x + 4_000_000;
    let n: i64 = y / 1_000_000;
    let r: i64 = y % 1_000_000;
    proof {
        lemma_div_pos_is_pos(y as int, 1_000_000);
        lemma_multiply_divide_lt(y as int, 1_000_000, 9);
    }
    let whole: i64 = if n == 0 {
        18_316
    } else if n == 1 {
        49_787
    } else if n == 2 {
        135_335
    } else if n == 3 {
        367_879
    } else if n == 4 {
        1_000_000
    } else if n == 5 {
        2_718_282
    } else if n == 6 {
        7_389_056
    } else if n == 7 {
        20_085_537
    } else {
        54_598_150
    };
    let frac: i64 = exp_frac(r);
    proof {
        lemma_mul_upper_bound(whole as int, 54_598_150, frac as int, 13_000_000);
        lemma_mul_nonnegative(whole as int, frac as int);
        lemma_multiply_divide_lt(whole as int * frac as int, 1_000_000, 720_000_000);
        lemma_div_pos_is_pos(whole as int * frac as int, 1_000_000);
    }
    (whole * frac) / 1_000_000
}

/// Calculates the absolute humidity in milli-grams per cubic metre from the
/// temperature in milli-degrees Celsius and the relative humidity in
/// milli-percent.  The result is the exact integer model of the formula, so
/// it depends on nothing but the two arguments.
pub fn absolute_humidity(temp: i64, rel_hum: i64) -> (abs: i64)
    requires
        temp_in_range(temp as int),
        rel_hum_in_range(rel_hum as int),
    ensures
        abs == abs_humidity_model(temp as int, rel_hum as int),
        0 <= abs < 10_000_000,
{
    let x: i64 = exp_arg(temp);
    let e: i64 = exp_fixed(x);
    proof {
        lemma_mul_upper_bound(11_013_824 * rel_hum as int, 1_101_382_400_000, e as int, 720_000_000);
        lemma_mul_nonnegative(11_013_824 * rel_hum as int, e as int);
    }
    let num: i128 = 11_013_824 * (rel_hum as i128) * (e as i128);
    let den: i128 = 831_400_000 * ((temp as i128) + 273_150);
    proof {
        assert(den >= 193_840_910_000_000) by {
            assert(temp as int + 273_150 >= 233_150);
        }
        lemma_mul_inequality(193_840_910_000_000, den as int, 10_000_000);
        lemma_multiply_divide_lt(num as int, den as int, 10_000_000);
        lemma_div_pos_is_pos(num as int, den as int);
    }
    let q: i128 = num / den;
    q as i64
}

} // verus!
