//! Reduces a scenario result to ratios, a risk band and one composite
//! score. Ratios and the score are in parts per million; a lower score is
//! better.

use crate::models::ScenarioResult;
use crate::money::{ratio_ppm, RAND, RATE_SCALE, SCORABLE_LIMIT};
use vstd::prelude::*;

verus! {

/// How well available liquidity covers the cash requirement.
#[derive(Debug, Clone, Copy, PartialEq, Eq, Structural)]
pub enum LiquidityRiskBand {
    Low,
    Moderate,
    High,
    Critical,
}

/// The ratios, the risk band and the composite score of a result.
#[derive(Debug, Clone, Copy, PartialEq, Eq)]
pub struct ScenarioScore {
    pub tax_burden_ratio: i128,
    pub liquidity_cover_ratio: i128,
    pub liquidity_risk_band: LiquidityRiskBand,
    pub composite_score: i128,
}

/// Weight of the tax burden ratio in the composite score.
pub const TAX_WEIGHT: i128 = 100;

/// Weight of the liquidity shortfall in the composite score.
pub const SHORTFALL_WEIGHT: i128 = 200;

/// Cover ratio from which the risk band is low.
pub const LOW_RISK_COVER: i128 = 1_200_000;

/// Cover ratio from which the risk band is at most moderate.
pub const FULL_COVER: i128 = 1_000_000;

/// Cover ratio from which the risk band is at most high.
pub const HIGH_RISK_COVER: i128 = 800_000;

/// A denominator floored at one rand, so that an empty estate divides.
pub open spec fn at_least_one(x: int) -> int {
    if x < RAND {
        RAND as int
    } else {
        x
    }
}

/// Total tax over the gross estate for duty.
pub open spec fn tax_burden_ratio(result: ScenarioResult) -> int {
    ratio_ppm(
        result.combined_tax.total_tax_liability_zar as int,
        at_least_one(result.estate_duty.gross_estate_for_estate_duty_zar as int),
    )
}

/// Available liquidity over the immediate cash requirement.
pub open spec fn liquidity_cover_ratio(result: ScenarioResult) -> int {
    ratio_ppm(
        result.liquidity.total_available_liquidity_zar as int,
        at_least_one(result.liquidity.immediate_cash_requirements_zar as int),
    )
}

/// The band of a cover ratio; each band includes its lower bound.
pub open spec fn risk_band(cover: int) -> LiquidityRiskBand {
    if cover >= LOW_RISK_COVER {
        LiquidityRiskBand::Low
    } else if cover >= FULL_COVER {
        LiquidityRiskBand::Moderate
    } else if cover >= HIGH_RISK_COVER {
        LiquidityRiskBand::High
    } else {
        LiquidityRiskBand::Critical
    }
}

/// The composite score: the weighted tax burden plus, where cover falls
/// short of one whole, the weighted shortfall.
pub open spec fn composite(burden: int, cover: int) -> int {
    burden * TAX_WEIGHT + if cover >= FULL_COVER {
        0
    } else {
        (FULL_COVER - cover) * SHORTFALL_WEIGHT
    }
}

/// The composite score of a result.
pub open spec fn composite_score(result: ScenarioResult) -> int {
    composite(tax_burden_ratio(result), liquidity_cover_ratio(result))
}

/// The score of a result.
pub open spec fn scenario_score(result: ScenarioResult) -> ScenarioScore {
    ScenarioScore {
        tax_burden_ratio: tax_burden_ratio(result) as i128,
        liquidity_cover_ratio: liquidity_cover_ratio(result) as i128,
        liquidity_risk_band: risk_band(liquidity_cover_ratio(result)),
        composite_score: composite_score(result) as i128,
    }
}

/// A ratio of a non-negative numerator lies between zero and the scaled
/// numerator.
pub proof fn lemma_ratio_bounds(numerator: int, denominator: int)
    requires
        0 <= numerator,
        1 <= denominator,
    ensures
        0 <= ratio_ppm(numerator, denominator) <= numerator * RATE_SCALE,
{
    let scaled = numerator * RATE_SCALE;
    assert(0 <= scaled) by (nonlinear_arith)
        requires
            0 <= numerator,
            scaled == numerator * RATE_SCALE,
    ;
    vstd::arithmetic::div_mod::lemma_div_is_ordered(0, scaled, denominator);
    vstd::arithmetic::div_mod::lemma_div_is_ordered_by_denominator(scaled, 1, denominator);
}

/// A cover ratio reaches a threshold exactly when the available amount
/// reaches that fraction of the requirement.
pub proof fn lemma_cover_threshold(available: int, required: int, threshold: int)
    requires
        0 <= available,
        1 <= required,
    ensures
        ratio_ppm(available, required) >= threshold <==> available * RATE_SCALE >= threshold
            * required,
{
    let scaled = available * RATE_SCALE;
    vstd::arithmetic::div_mod::lemma_fundamental_div_mod(scaled, required);
    vstd::arithmetic::div_mod::lemma_mod_bound(scaled, required);
    let q = scaled / required;
    assert(q >= threshold <==> required * q + scaled % required >= threshold * required)
        by (nonlinear_arith)
        requires
            1 <= required,
            0 <= scaled % required < required,
    ;
}

fn ratio_of(numerator: i128, denominator: i128) -> (ratio: i128)
    requires
        0 <= numerator <= SCORABLE_LIMIT,
    ensures
        ratio == ratio_ppm(numerator as int, at_least_one(denominator as int)),
        0 <= ratio <= SCORABLE_LIMIT * RATE_SCALE,
{
    let floor: i128 = if denominator < RAND as i128 {
        RAND as i128
    } else {
        denominator
    };
    proof {
        lemma_ratio_bounds(numerator as int, floor as int);
        assert(numerator * RATE_SCALE <= SCORABLE_LIMIT * RATE_SCALE) by (nonlinear_arith)
            requires
                0 <= numerator <= SCORABLE_LIMIT,
        ;
    }
    (numerator * (RATE_SCALE as i128)) / floor
}

/// Scores a result.
pub fn score_scenario(result: &ScenarioResult) -> (score: ScenarioScore)
    requires
        result.scorable(),
    ensures
        score == scenario_score(*result),
        score.composite_score == composite_score(*result),
        score.tax_burden_ratio >= 0,
        score.liquidity_cover_ratio >= 0,
        score.composite_score >= 0,
{
    let tax_burden_ratio = ratio_of(
        result.combined_tax.total_tax_liability_zar,
        result.estate_duty.gross_estate_for_estate_duty_zar,
    );
    let liquidity_cover_ratio = ratio_of(
        result.liquidity.total_available_liquidity_zar,
        result.liquidity.immediate_cash_requirements_zar,
    );

    let liquidity_risk_band = if liquidity_cover_ratio >= LOW_RISK_COVER {
        LiquidityRiskBand::Low
    } else if liquidity_cover_ratio >= FULL_COVER {
        LiquidityRiskBand::Moderate
    } else if liquidity_cover_ratio >= HIGH_RISK_COVER {
        LiquidityRiskBand::High
    } else {
        LiquidityRiskBand::Critical
    };

    let tax_penalty = tax_burden_ratio * TAX_WEIGHT;
    let liquidity_penalty = if liquidity_cover_ratio >= FULL_COVER {
        0
    } else {
        (FULL_COVER - liquidity_cover_ratio) * SHORTFALL_WEIGHT
    };

    ScenarioScore {
        tax_burden_ratio,
        liquidity_cover_ratio,
        liquidity_risk_band,
        composite_score: tax_penalty + liquidity_penalty,
    }
}

} // verus!
