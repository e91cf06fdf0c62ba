//! Pure scoring functions mapping raw factors to normalized fixed-point
//! scores.
//!
//! All scores are fractions of [`SCALE`]: the integer `n` stands for the real
//! number `n / SCALE`, so a score lies in `[0, SCALE]` exactly when the real
//! value lies in `[0, 1]`.

use vstd::prelude::*;
use vstd::arithmetic::div_mod::{
    lemma_div_denominator, lemma_div_is_ordered, lemma_div_multiples_vanish, lemma_div_pos_is_pos,
    lemma_fundamental_div_mod, lemma_fundamental_div_mod_converse,
};
use vstd::arithmetic::power2::{lemma2_to64, pow2};
use vstd::arithmetic::mul::lemma_mul_inequality;
use vstd::bits::lemma_u64_shl_is_mul;
use vstd::math::abs;

verus! {

/// Fixed-point denominator: a score of `SCALE` stands for 1.0.
pub const SCALE: u64 = 1_000_000;

/// Half-life of the recency decay, in days.
pub const RECENCY_HALF_LIFE_DAYS: u64 = 7;

/// Scorer for calculating confidence scores.
pub struct Scorer;

/// Weighted sum of the five factors (weights 0.25, 0.20, 0.25, 0.20, 0.10),
/// clamped from above to `SCALE`. Non-negative inputs give a non-negative
/// sum, so only the upper clamp is needed.
pub open spec fn spec_suggestion_score(
    frequency: int,
    recency: int,
    pattern_confidence: int,
    context_match: int,
    acceptance_rate: int,
) -> int {
    let weighted = (25 * frequency + 20 * recency + 25 * pattern_confidence + 20 * context_match
        + 10 * acceptance_rate) / 100;
    if weighted > SCALE {
        SCALE as int
    } else {
        weighted
    }
}

/// `usage_count / max_count` as a fixed-point fraction, clamped to
/// `[0, SCALE]`; 0 when `max_count` is 0.
pub open spec fn spec_frequency_weight(usage_count: int, max_count: int) -> int {
    if max_count == 0 {
        0
    } else if (usage_count < 0 && max_count > 0) || (usage_count > 0 && max_count < 0) {
        0
    } else {
        let a = abs(usage_count) as int;
        let b = abs(max_count) as int;
        if a >= b {
            SCALE as int
        } else {
            a * SCALE / b
        }
    }
}

/// One row of the decay table: `decay_frac(r)` is `2^(-r/7)` in fixed point,
/// rounded to the nearest integer, for `0 <= r < 7`.
pub open spec fn decay_frac(r: int) -> int {
    if r == 0 {
        1_000_000
    } else if r == 1 {
        905_724
    } else if r == 2 {
        820_335
    } else if r == 3 {
        742_997
    } else if r == 4 {
        672_950
    } else if r == 5 {
        609_507
    } else {
        552_045
    }
}

/// Exponential decay with a half-life of seven days: `2^(-d/7)` in fixed
/// point. Whole half-lives halve the weight exactly; fractional days within
/// a week follow the rounded table `decay_frac`.
pub open spec fn spec_recency_weight(days_ago: int) -> int {
    decay_frac(days_ago % 7) / pow2((days_ago / 7) as nat) as int
}

/// `factors_matched / total_factors` as a fixed-point fraction, clamped to
/// `[0, SCALE]`; 0 when `total_factors` is 0.
pub open spec fn spec_context_match(factors_matched: int, total_factors: int) -> int {
    if total_factors == 0 {
        0
    } else if factors_matched >= total_factors {
        SCALE as int
    } else {
        factors_matched * SCALE / total_factors
    }
}

impl Scorer {
    /// Overall score for a suggestion: weighted average of the five factors
    /// with fixed weights 0.25, 0.20, 0.25, 0.20 and 0.10, clamped to
    /// `[0, SCALE]`. Callers are expected to pre-normalize the factors to
    /// `[0, SCALE]`; out-of-range inputs are only caught by the final clamp.
    pub fn calculate_suggestion_score(
        frequency: u64,
        recency: u64,
        pattern_confidence: u64,
        context_match: u64,
        acceptance_rate: u64,
    ) -> (score: u64)
        ensures
            score == spec_suggestion_score(
                frequency as int,
                recency as int,
                pattern_confidence as int,
                context_match as int,
                acceptance_rate as int,
            ),
            score <= SCALE,
    {
        let weighted: u128 = (25u128 * frequency as u128 + 20u128 * recency as u128
            + 25u128 * pattern_confidence as u128 + 20u128 * context_match as u128
            + 10u128 * acceptance_rate as u128) / 100u128;
        if weighted > SCALE as u128 {
            SCALE
        } else {
            weighted as u64
        }
    }

    /// Frequency weight: `usage_count / max_count` clamped to `[0, SCALE]`,
    /// 0 when `max_count` is 0.
    pub fn calculate_frequency_weight(usage_count: i32, max_count: i32) -> (weight: u64)
        ensures
            weight == spec_frequency_weight(usage_count as int, max_count as int),
            weight <= SCALE,
    {
        if max_count == 0 {
            return 0;
        }
        if (usage_count < 0 && max_count > 0) || (usage_count > 0 && max_count < 0) {
            return 0;
        }
        let a: u64 = if usage_count < 0 {
            (-(usage_count as i64)) as u64
        } else {
            usage_count as u64
        };
        let b: u64 = if max_count < 0 {
            (-(max_count as i64)) as u64
        } else {
            max_count as u64
        };
        if a >= b {
            SCALE
        } else {
            proof {
                lemma_mul_inequality(a as int, b as int, SCALE as int);
                lemma_div_is_ordered(a as int * SCALE as int, b as int * SCALE as int, b as int);
                lemma_div_multiples_vanish(SCALE as int, b as int);
            }
            ((a as u128 * SCALE as u128) / b as u128) as u64
        }
    }

    /// Recency weight: exponential decay `2^(-days_ago/7)` in fixed point
    /// (half-life of seven days). `0` days gives exactly `SCALE`; seven days
    /// gives exactly `SCALE / 2`.
    pub fn calculate_recency_weight(days_ago: u64) -> (weight: u64)
        ensures
            weight == spec_recency_weight(days_ago as int),
            weight <= SCALE,
    {
        let q: u64 = days_ago / RECENCY_HALF_LIFE_DAYS;
        let r: u64 = days_ago % RECENCY_HALF_LIFE_DAYS;
        let f: u64 = if r == 0 {
            1_000_000
        } else if r == 1 {
            905_724
        } else if r == 2 {
            820_335
        } else if r == 3 {
            742_997
        } else if r == 4 {
            672_950
        } else if r == 5 {
            609_507
        } else {
            552_045
        };
        proof {
            lemma2_to64();
        }
        if q >= 20 {
            proof {
                lemma_pow2_at_least(20, q as nat);
                vstd::arithmetic::div_mod::lemma_basic_div(f as int, pow2(q as nat) as int);
            }
            0
        } else {
            let p: u64 = 1u64 << q;
            proof {
                lemma_u64_shl_is_mul(1u64, q);
                vstd::arithmetic::power2::lemma_pow2_pos(q as nat);
                lemma_div_is_ordered_by_denominator_one(f as int, pow2(q as nat) as int);
            }
            f / p
        }
    }

    /// Context-match score: `factors_matched / total_factors` clamped to
    /// `[0, SCALE]`, 0 when `total_factors` is 0.
    pub fn calculate_context_match(factors_matched: usize, total_factors: usize) -> (score: u64)
        ensures
            score == spec_context_match(factors_matched as int, total_factors as int),
            score <= SCALE,
    {
        if total_factors == 0 {
            return 0;
        }
        if factors_matched >= total_factors {
            SCALE
        } else {
            proof {
                lemma_mul_inequality(
                    factors_matched as int,
                    total_factors as int,
                    SCALE as int,
                );
                lemma_div_is_ordered(
                    factors_matched as int * SCALE as int,
                    total_factors as int * SCALE as int,
                    total_factors as int,
                );
                lemma_div_multiples_vanish(SCALE as int, total_factors as int);
            }
            ((factors_matched as u128 * SCALE as u128) / total_factors as u128) as u64
        }
    }
}

/// Law: the suggestion score of factors in `[0, SCALE]` is itself in
/// `[0, SCALE]`, and five perfect factors score exactly `SCALE` (1.0).
pub proof fn lemma_suggestion_score_bounds(
    frequency: int,
    recency: int,
    pattern_confidence: int,
    context_match: int,
    acceptance_rate: int,
)
    requires
        0 <= frequency <= SCALE,
        0 <= recency <= SCALE,
        0 <= pattern_confidence <= SCALE,
        0 <= context_match <= SCALE,
        0 <= acceptance_rate <= SCALE,
    ensures
        0 <= spec_suggestion_score(
            frequency,
            recency,
            pattern_confidence,
            context_match,
            acceptance_rate,
        ) <= SCALE,
        spec_suggestion_score(
            SCALE as int,
            SCALE as int,
            SCALE as int,
            SCALE as int,
            SCALE as int,
        ) == SCALE,
{
    let sum = 25 * frequency + 20 * recency + 25 * pattern_confidence + 20 * context_match + 10
        * acceptance_rate;
    lemma_div_pos_is_pos(sum, 100);
    lemma_div_multiples_vanish(SCALE as int, 100);
}

/// Law: the frequency weight always lies in `[0, SCALE]`; a command at the
/// maximal usage count weighs exactly `SCALE`; zero usage against a positive
/// maximum weighs 0; an empty data set (maximum 0) weighs 0.
pub proof fn lemma_frequency_weight_bounds(usage_count: int, max_count: int)
    ensures
        0 <= spec_frequency_weight(usage_count, max_count) <= SCALE,
        max_count != 0 ==> spec_frequency_weight(max_count, max_count) == SCALE,
        max_count > 0 ==> spec_frequency_weight(0, max_count) == 0,
        spec_frequency_weight(usage_count, 0) == 0,
{
    let a = abs(usage_count) as int;
    let b = abs(max_count) as int;
    if max_count != 0 && !((usage_count < 0 && max_count > 0) || (usage_count > 0 && max_count
        < 0)) && a < b {
        lemma_div_pos_is_pos(a * SCALE as int, b);
        lemma_mul_inequality(a, b, SCALE as int);
        lemma_div_is_ordered(a * SCALE as int, b * SCALE as int, b);
        lemma_div_multiples_vanish(SCALE as int, b);
    }
    if max_count > 0 {
        vstd::arithmetic::div_mod::lemma_basic_div(0, max_count);
    }
}

/// Law: no days elapsed weighs exactly `SCALE` (1.0), and one full
/// half-life of seven days weighs exactly `SCALE / 2` (0.5).
pub proof fn lemma_recency_weight_half_life()
    ensures
        spec_recency_weight(0) == SCALE,
        spec_recency_weight(7) == SCALE / 2,
{
    lemma2_to64();
    lemma_fundamental_div_mod_converse(0, 7, 0, 0);
    lemma_fundamental_div_mod_converse(7, 7, 1, 0);
    assert(spec_recency_weight(0) == decay_frac(0) / pow2(0) as int);
    assert(spec_recency_weight(7) == decay_frac(0) / pow2(1) as int);
}

/// The recency weight never grows from one day to the next.
proof fn lemma_recency_step(d: int)
    requires
        0 <= d,
    ensures
        spec_recency_weight(d + 1) <= spec_recency_weight(d),
{
    let q = d / 7;
    let r = d % 7;
    lemma_fundamental_div_mod(d, 7);
    vstd::arithmetic::div_mod::lemma_mod_division_less_than_divisor(d, 7);
    lemma_div_pos_is_pos(d, 7);
    let p = pow2(q as nat) as int;
    vstd::arithmetic::power2::lemma_pow2_pos(q as nat);
    if r < 6 {
        lemma_fundamental_div_mod_converse(d + 1, 7, q, r + 1);
        lemma_div_is_ordered(decay_frac(r + 1), decay_frac(r), p);
    } else {
        lemma_fundamental_div_mod_converse(d + 1, 7, q + 1, 0);
        vstd::arithmetic::power2::lemma_pow2_adds(1, q as nat);
        lemma2_to64();
        lemma_div_denominator(1_000_000, 2, p);
        lemma_div_is_ordered(500_000, decay_frac(6), p);
    }
}

/// Within the first 112 days the recency weight falls strictly from one day
/// to the next. Beyond that the fixed-point grid is too coarse: from some
/// point on, consecutive days can round to the same weight.
proof fn lemma_recency_step_strict(d: int)
    requires
        0 <= d < 112,
    ensures
        spec_recency_weight(d + 1) < spec_recency_weight(d),
{
    let q = d / 7;
    let r = d % 7;
    lemma_fundamental_div_mod(d, 7);
    vstd::arithmetic::div_mod::lemma_mod_division_less_than_divisor(d, 7);
    lemma_div_pos_is_pos(d, 7);
    let p = pow2(q as nat) as int;
    vstd::arithmetic::power2::lemma_pow2_pos(q as nat);
    assert(q <= 15);
    lemma_pow2_at_least(q as nat, 15);
    lemma2_to64();
    assert(p <= 32768);
    if r < 6 {
        lemma_fundamental_div_mod_converse(d + 1, 7, q, r + 1);
        assert(decay_frac(r + 1) + p <= decay_frac(r));
        vstd::arithmetic::div_mod::lemma_div_plus_one(decay_frac(r + 1), p);
        lemma_div_is_ordered(decay_frac(r + 1) + p, decay_frac(r), p);
    } else {
        lemma_fundamental_div_mod_converse(d + 1, 7, q + 1, 0);
        vstd::arithmetic::power2::lemma_pow2_adds(1, q as nat);
        lemma_div_denominator(1_000_000, 2, p);
        vstd::arithmetic::div_mod::lemma_div_plus_one(500_000, p);
        lemma_div_is_ordered(500_000 + p, decay_frac(6), p);
    }
}

/// Law: the recency weight never increases as days pass.
pub proof fn lemma_recency_weight_nonincreasing(d1: int, d2: int)
    requires
        0 <= d1 <= d2,
    ensures
        spec_recency_weight(d2) <= spec_recency_weight(d1),
    decreases d2 - d1,
{
    if d1 < d2 {
        lemma_recency_step(d1);
        lemma_recency_weight_nonincreasing(d1 + 1, d2);
    }
}

/// Law: the recency weight is strictly decreasing over the first 112 days.
/// Beyond that horizon the fixed-point representation can no longer separate
/// consecutive days (for instance days 120 and 121 both weigh 6).
pub proof fn lemma_recency_weight_strictly_decreasing(d1: int, d2: int)
    requires
        0 <= d1 < d2 <= 112,
    ensures
        spec_recency_weight(d2) < spec_recency_weight(d1),
{
    lemma_recency_step_strict(d1);
    lemma_recency_weight_nonincreasing(d1 + 1, d2);
}

/// `pow2` is at least `pow2(lo)` for any exponent `q >= lo`.
proof fn lemma_pow2_at_least(lo: nat, q: nat)
    requires
        lo <= q,
    ensures
        pow2(lo) <= pow2(q),
{
    if lo < q {
        vstd::arithmetic::power2::lemma_pow2_strictly_increases(lo, q);
    }
}

/// Dividing a non-negative number by a positive denominator never increases it.
proof fn lemma_div_is_ordered_by_denominator_one(x: int, d: int)
    requires
        0 <= x,
        1 <= d,
    ensures
        x / d <= x,
{
    vstd::arithmetic::div_mod::lemma_div_is_ordered_by_denominator(x, 1, d);
    assert(x / 1 == x);
}

} // verus!
