//! Stress simulation: re-runs the calculator over a grid of market value
//! shocks and liquid asset haircuts, both in parts per million.

use crate::errors::{
    asset_limit_error, is_asset_limit_error, is_unfit_shock_error, unfit_shock_error, EngineError,
};
use crate::models::{EstateAsset, EstateScenarioInput, ScenarioResult, ScenarioTerms};
use crate::money::{
    clamp_rate, floor_zero, lemma_rate_share_bounds, rate_share, MAX_ASSETS, RATE_SCALE,
};
use crate::rules::{
    spec_tax_rules_for, tax_rules_for, JurisdictionTaxRuleSet, TaxRuleSelectionError,
    VersionedJurisdictionTaxRuleSet,
};
use crate::scenario::{calculate_with_rules, scenario_result};
use vstd::prelude::*;

verus! {

/// One cell of a stress grid.
#[derive(Debug, Clone, Copy, PartialEq, Eq)]
pub struct StressResult {
    pub market_value_shock: i64,
    pub liquid_asset_haircut: i64,
    pub outcome: ScenarioResult,
}

/// The factor that a shock multiplies market values by: one whole plus the
/// shock, never below zero.
pub open spec fn shock_factor(shock: int) -> int {
    floor_zero(RATE_SCALE + shock)
}

/// The factor that a haircut multiplies liquid values by: one whole less
/// the haircut, kept between zero and one whole.
pub open spec fn haircut_factor(haircut: int) -> int {
    clamp_rate(RATE_SCALE - haircut)
}

/// A market value after a shock, before any haircut.
pub open spec fn shocked_value(market_value: int, shock: int) -> int {
    floor_zero(rate_share(market_value, shock_factor(shock)))
}

/// The market value of an asset after a shock and, for a liquid asset, a
/// haircut on the shocked value.
pub open spec fn stressed_value(asset: EstateAsset, shock: int, haircut: int) -> int {
    let shocked = shocked_value(asset.market_value_zar as int, shock);
    if asset.is_liquid {
        rate_share(shocked, haircut_factor(haircut))
    } else {
        shocked
    }
}

/// An asset under stress: only its market value changes.
pub open spec fn stressed_asset(asset: EstateAsset, shock: int, haircut: int) -> EstateAsset {
    EstateAsset { market_value_zar: stressed_value(asset, shock, haircut) as i64, ..asset }
}

/// A scenario under stress: every asset is stressed, nothing else changes.
pub open spec fn stressed_terms(base: ScenarioTerms, shock: int, haircut: int) -> ScenarioTerms {
    ScenarioTerms {
        assets: Seq::new(
            base.assets.len(),
            |k: int| stressed_asset(base.assets[k], shock, haircut),
        ),
        ..base
    }
}

/// Whether every asset's value after `shock` can still be held.
pub open spec fn shock_fits(base: ScenarioTerms, shock: int) -> bool {
    forall|k: int|
        0 <= k < base.assets.len() ==> shocked_value(
            (#[trigger] base.assets[k]).market_value_zar as int,
            shock,
        ) <= i64::MAX
}

/// A stress of nothing leaves a scenario without negative market values
/// as it is.
pub proof fn lemma_no_stress_is_identity(base: ScenarioTerms)
    requires
        forall|k: int| 0 <= k < base.assets.len() ==> (#[trigger] base.assets[k]).market_value_zar >= 0,
    ensures
        shock_fits(base, 0),
        stressed_terms(base, 0, 0) == base,
{
    assert forall|k: int| 0 <= k < base.assets.len() implies stressed_asset(
        #[trigger] base.assets[k],
        0,
        0,
    ) == base.assets[k] && shocked_value(base.assets[k].market_value_zar as int, 0)
        <= i64::MAX by {
        let v = base.assets[k].market_value_zar as int;
        assert((v * RATE_SCALE) / (RATE_SCALE as int) == v) by (nonlinear_arith);
    }
    assert(stressed_terms(base, 0, 0).assets =~= base.assets);
}

/// A shrinking shock keeps every value that fit before.
pub proof fn lemma_downward_shock_fits(base: ScenarioTerms, shock: int)
    requires
        shock <= 0,
    ensures
        shock_fits(base, shock),
{
    assert forall|k: int| 0 <= k < base.assets.len() implies shocked_value(
        (#[trigger] base.assets[k]).market_value_zar as int,
        shock,
    ) <= i64::MAX by {
        let v = base.assets[k].market_value_zar as int;
        if v >= 0 {
            lemma_rate_share_bounds(v, shock_factor(shock));
        } else {
            lemma_shocked_negative(v, shock_factor(shock));
        }
    }
}

/// A value that is not positive shocks to zero.
pub proof fn lemma_shocked_negative(value: int, factor: int)
    requires
        value <= 0,
        0 <= factor,
    ensures
        floor_zero(rate_share(value, factor)) == 0,
{
    assert(value * factor <= 0) by (nonlinear_arith)
        requires
            value <= 0,
            0 <= factor,
    ;
    vstd::arithmetic::div_mod::lemma_div_is_ordered(value * factor, 0, RATE_SCALE as int);
}

fn shock_factor_of(shock: i64) -> (factor: i128)
    ensures
        factor == shock_factor(shock as int),
        0 <= factor <= RATE_SCALE + i64::MAX,
{
    let raw: i128 = RATE_SCALE as i128 + shock as i128;
    if raw < 0 {
        0
    } else {
        raw
    }
}

fn haircut_factor_of(haircut: i64) -> (factor: i128)
    ensures
        factor == haircut_factor(haircut as int),
        0 <= factor <= RATE_SCALE,
{
    let raw: i128 = RATE_SCALE as i128 - haircut as i128;
    if raw < 0 {
        0
    } else if raw > RATE_SCALE as i128 {
        RATE_SCALE as i128
    } else {
        raw
    }
}

fn shocked_value_of(market_value: i64, factor: i128) -> (shocked: i128)
    requires
        0 <= factor <= RATE_SCALE + i64::MAX,
    ensures
        shocked == floor_zero(rate_share(market_value as int, factor as int)),
        0 <= shocked,
{
    if market_value <= 0 {
        proof {
            lemma_shocked_negative(market_value as int, factor as int);
        }
        0
    } else {
        proof {
            assert(0 <= market_value * factor <= i64::MAX * (RATE_SCALE + i64::MAX))
                by (nonlinear_arith)
                requires
                    0 <= market_value <= i64::MAX,
                    0 <= factor <= RATE_SCALE + i64::MAX,
            ;
            vstd::arithmetic::div_mod::lemma_div_is_ordered(
                0,
                market_value * factor,
                RATE_SCALE as int,
            );
        }
        (market_value as i128 * factor) / (RATE_SCALE as i128)
    }
}

/// Whether every asset of `base` can still be held after `shock`.
pub fn shock_is_representable(base: &EstateScenarioInput, shock: i64) -> (fits: bool)
    ensures
        fits == shock_fits(base@, shock as int),
{
    let factor = shock_factor_of(shock);
    let mut i: usize = 0;
    while i < base.assets.len()
        invariant
            i <= base.assets.len(),
            factor == shock_factor(shock as int),
            0 <= factor <= RATE_SCALE + i64::MAX,
            forall|k: int|
                0 <= k < i ==> shocked_value(
                    (#[trigger] base.assets@[k]).market_value_zar as int,
                    shock as int,
                ) <= i64::MAX,
        decreases base.assets.len() - i,
    {
        let shocked = shocked_value_of(base.assets[i].market_value_zar, factor);
        if shocked > i64::MAX as i128 {
            assert(base@.assets[i as int] == base.assets@[i as int]);
            return false;
        }
        i += 1;
    }
    true
}

fn stressed_input(base: &EstateScenarioInput, shock: i64, haircut: i64) -> (stressed:
    EstateScenarioInput)
    requires
        shock_fits(base@, shock as int),
    ensures
        stressed@ == stressed_terms(base@, shock as int, haircut as int),
{
    let applied_shock = shock_factor_of(shock);
    let applied_liquid_haircut = haircut_factor_of(haircut);
    let mut assets: Vec<EstateAsset> = Vec::new();
    let mut i: usize = 0;
    while i < base.assets.len()
        invariant
            i <= base.assets.len(),
            shock_fits(base@, shock as int),
            applied_shock == shock_factor(shock as int),
            0 <= applied_shock <= RATE_SCALE + i64::MAX,
            applied_liquid_haircut == haircut_factor(haircut as int),
            0 <= applied_liquid_haircut <= RATE_SCALE,
            assets@.len() == i,
            forall|k: int|
                0 <= k < i ==> assets@[k] == stressed_asset(
                    #[trigger] base.assets@[k],
                    shock as int,
                    haircut as int,
                ),
        decreases base.assets.len() - i,
    {
        let asset = &base.assets[i];
        assert(base@.assets[i as int] == base.assets@[i as int]);
        let mut market_value = shocked_value_of(asset.market_value_zar, applied_shock);
        if asset.is_liquid {
            proof {
                lemma_rate_share_bounds(market_value as int, applied_liquid_haircut as int);
                assert(market_value * applied_liquid_haircut <= i64::MAX * RATE_SCALE)
                    by (nonlinear_arith)
                    requires
                        0 <= market_value <= i64::MAX,
                        0 <= applied_liquid_haircut <= RATE_SCALE,
                ;
                assert(0 <= market_value * applied_liquid_haircut) by (nonlinear_arith)
                    requires
                        0 <= market_value,
                        0 <= applied_liquid_haircut,
                ;
            }
            market_value = (market_value * applied_liquid_haircut) / (RATE_SCALE as i128);
        }
        assets.push(
            EstateAsset {
                name: asset.name.clone(),
                market_value_zar: market_value as i64,
                base_cost_zar: asset.base_cost_zar,
                is_liquid: asset.is_liquid,
                situs_in_south_africa: asset.situs_in_south_africa,
                included_in_estate_duty: asset.included_in_estate_duty,
                included_in_cgt_deemed_disposal: asset.included_in_cgt_deemed_disposal,
                bequeathed_to_surviving_spouse: asset.bequeathed_to_surviving_spouse,
                bequeathed_to_pbo: asset.bequeathed_to_pbo,
                qualifies_primary_residence_exclusion: asset.qualifies_primary_residence_exclusion,
            },
        );
        i += 1;
    }
    let stressed = EstateScenarioInput {
        jurisdiction: base.jurisdiction,
        tax_year: base.tax_year,
        taxpayer_class: base.taxpayer_class,
        residency_status: base.residency_status,
        marginal_income_tax_rate: base.marginal_income_tax_rate,
        assets,
        debts_and_loans_zar: base.debts_and_loans_zar,
        funeral_costs_zar: base.funeral_costs_zar,
        administration_costs_zar: base.administration_costs_zar,
        masters_office_fees_zar: base.masters_office_fees_zar,
        conveyancing_costs_zar: base.conveyancing_costs_zar,
        other_settlement_costs_zar: base.other_settlement_costs_zar,
        final_income_tax_due_zar: base.final_income_tax_due_zar,
        ongoing_estate_income_tax_provision_zar: base.ongoing_estate_income_tax_provision_zar,
        additional_allowable_estate_duty_deductions_zar: base.additional_allowable_estate_duty_deductions_zar,
        ported_section_4a_abatement_zar: base.ported_section_4a_abatement_zar,
        primary_residence_cgt_exclusion_cap_zar: base.primary_residence_cgt_exclusion_cap_zar,
        executor_fee_rate: base.executor_fee_rate,
        vat_rate: base.vat_rate,
        explicit_executor_fee_zar: base.explicit_executor_fee_zar,
        external_liquidity_proceeds_zar: base.external_liquidity_proceeds_zar,
        cash_reserve_zar: base.cash_reserve_zar,
    };
    assert(stressed@.assets =~= stressed_terms(base@, shock as int, haircut as int).assets);
    stressed
}

/// The cell of the grid for one shock and one haircut, under given rules.
pub open spec fn stress_cell(
    base: ScenarioTerms,
    rules: JurisdictionTaxRuleSet,
    shock: i64,
    haircut: i64,
) -> StressResult {
    StressResult {
        market_value_shock: shock,
        liquid_asset_haircut: haircut,
        outcome: scenario_result(stressed_terms(base, shock as int, haircut as int), rules),
    }
}

/// The cell of no shock and no haircut holds the plain calculation of a
/// scenario without negative market values.
pub proof fn lemma_unstressed_cell(base: ScenarioTerms, rules: JurisdictionTaxRuleSet)
    requires
        forall|k: int| 0 <= k < base.assets.len() ==> (#[trigger] base.assets[k]).market_value_zar >= 0,
    ensures
        stress_cell(base, rules, 0, 0).outcome == scenario_result(base, rules),
{
    lemma_no_stress_is_identity(base);
}

/// Whether `grid` is the outcome of the stress grid: one cell for every
/// pair of a shock and a haircut, shocks in the outer order and haircuts in
/// the inner order, each under the rules of the base scenario's tax year.
/// An empty grid needs no rules; any other grid fails as a whole when the
/// tax year has none.
pub open spec fn is_stress_grid(
    base: ScenarioTerms,
    shocks: Seq<i64>,
    haircuts: Seq<i64>,
    grid: Result<Vec<StressResult>, TaxRuleSelectionError>,
) -> bool {
    match grid {
        Ok(cells) => {
            &&& cells@.len() == shocks.len() * haircuts.len()
            &&& cells@.len() > 0 ==> spec_tax_rules_for(base.jurisdiction, base.tax_year) is Ok
            &&& forall|k: int|
                0 <= k < cells@.len() ==> #[trigger] cells@[k] == stress_cell(
                    base,
                    spec_tax_rules_for(base.jurisdiction, base.tax_year)->Ok_0.rules,
                    shocks[k / haircuts.len() as int],
                    haircuts[k % haircuts.len() as int],
                )
        },
        Err(e) => {
            &&& shocks.len() > 0
            &&& haircuts.len() > 0
            &&& spec_tax_rules_for(base.jurisdiction, base.tax_year) == Err::<
                VersionedJurisdictionTaxRuleSet,
                TaxRuleSelectionError,
            >(e)
        },
    }
}

/// Whether every shock of a list leaves every asset's value within what can
/// be held.
pub open spec fn shocks_fit(base: ScenarioTerms, shocks: Seq<i64>) -> bool {
    forall|i: int| 0 <= i < shocks.len() ==> shock_fits(base, #[trigger] shocks[i] as int)
}

/// Runs the calculator for every pair of a shock and a haircut: shocks in
/// the outer order, haircuts in the inner order. An empty grid needs no
/// rules; any other grid fails as a whole when the base scenario's tax
/// year has none.
pub fn run_liquidity_stress_grid(
    base_input: &EstateScenarioInput,
    market_value_shocks: &[i64],
    liquid_asset_haircuts: &[i64],
) -> (grid: Result<Vec<StressResult>, TaxRuleSelectionError>)
    requires
        base_input.assets@.len() <= MAX_ASSETS,
        shocks_fit(base_input@, market_value_shocks@),
    ensures
        is_stress_grid(base_input@, market_value_shocks@, liquid_asset_haircuts@, grid),
{
    let mut results: Vec<StressResult> = Vec::new();
    if market_value_shocks.len() == 0 || liquid_asset_haircuts.len() == 0 {
        assert(market_value_shocks@.len() * liquid_asset_haircuts@.len() == 0) by (nonlinear_arith)
            requires
                market_value_shocks@.len() == 0 || liquid_asset_haircuts@.len() == 0,
        ;
        return Ok(results);
    }
    let rules = match tax_rules_for(base_input.jurisdiction, base_input.tax_year) {
        Ok(selected) => selected.rules,
        Err(e) => {
            return Err(e);
        },
    };
    let width = liquid_asset_haircuts.len();
    let mut i: usize = 0;
    while i < market_value_shocks.len()
        invariant
            i <= market_value_shocks@.len(),
            width == liquid_asset_haircuts@.len(),
            width > 0,
            base_input.assets@.len() <= MAX_ASSETS,
            rules.wf(),
            spec_tax_rules_for(base_input.jurisdiction, base_input.tax_year) is Ok,
            rules == spec_tax_rules_for(base_input.jurisdiction, base_input.tax_year)->Ok_0.rules,
            forall|a: int|
                0 <= a < market_value_shocks@.len() ==> shock_fits(
                    base_input@,
                    #[trigger] market_value_shocks@[a] as int,
                ),
            results@.len() == i * width,
            forall|k: int|
                0 <= k < results@.len() ==> #[trigger] results@[k] == stress_cell(
                    base_input@,
                    rules,
                    market_value_shocks@[k / width as int],
                    liquid_asset_haircuts@[k % width as int],
                ),
        decreases market_value_shocks@.len() - i,
    {
        let shock = market_value_shocks[i];
        let mut j: usize = 0;
        while j < width
            invariant
                i < market_value_shocks@.len(),
                j <= width,
                width == liquid_asset_haircuts@.len(),
                base_input.assets@.len() <= MAX_ASSETS,
                rules.wf(),
                shock == market_value_shocks@[i as int],
                shock_fits(base_input@, shock as int),
                results@.len() == i * width + j,
                forall|k: int|
                    0 <= k < results@.len() ==> #[trigger] results@[k] == stress_cell(
                        base_input@,
                        rules,
                        market_value_shocks@[k / width as int],
                        liquid_asset_haircuts@[k % width as int],
                    ),
            decreases width - j,
        {
            let haircut = liquid_asset_haircuts[j];
            let shocked_input = stressed_input(base_input, shock, haircut);
            proof {
                assert(shocked_input@.assets.len() == base_input.assets@.len());
                assert(shocked_input.assets@ == shocked_input@.assets);
                vstd::arithmetic::div_mod::lemma_fundamental_div_mod_converse(
                    i * width + j,
                    width as int,
                    i as int,
                    j as int,
                );
            }
            let outcome = calculate_with_rules(&shocked_input, rules);
            results.push(
                StressResult { market_value_shock: shock, liquid_asset_haircut: haircut, outcome },
            );
            j += 1;
        }
        proof {
            assert(i * width + width == (i + 1) * width) by (nonlinear_arith);
        }
        i += 1;
    }
    proof {
        assert(market_value_shocks@.len() * width == results@.len());
    }
    Ok(results)
}

/// What the checked stress grid returns: the computation error for a base
/// scenario with more assets than a calculation can take; else the
/// computation error where some shock takes an asset beyond what can be
/// held; else the grid, with a selection failure as an engine error.
pub open spec fn is_checked_stress_grid(
    base: ScenarioTerms,
    shocks: Seq<i64>,
    haircuts: Seq<i64>,
    grid: Result<Vec<StressResult>, EngineError>,
) -> bool {
    if base.assets.len() > MAX_ASSETS {
        grid is Err && is_asset_limit_error(grid->Err_0)
    } else if !shocks_fit(base, shocks) {
        grid is Err && is_unfit_shock_error(grid->Err_0)
    } else {
        match grid {
            Ok(cells) => is_stress_grid(
                base,
                shocks,
                haircuts,
                Ok::<Vec<StressResult>, TaxRuleSelectionError>(cells),
            ),
            Err(EngineError::RuleSelection(e)) => is_stress_grid(
                base,
                shocks,
                haircuts,
                Err::<Vec<StressResult>, TaxRuleSelectionError>(e),
            ),
            Err(_) => false,
        }
    }
}

/// Runs the stress grid on any base scenario and any shocks: it tests the
/// asset limit and every shock first, and answers what cannot be computed
/// with a computation error. A grid that is returned has one cell for
/// every pair of a shock and a haircut.
pub fn run_checked_liquidity_stress_grid(
    base_input: &EstateScenarioInput,
    market_value_shocks: &[i64],
    liquid_asset_haircuts: &[i64],
) -> (grid: Result<Vec<StressResult>, EngineError>)
    ensures
        is_checked_stress_grid(
            base_input@,
            market_value_shocks@,
            liquid_asset_haircuts@,
            grid,
        ),
        grid is Ok ==> grid->Ok_0@.len() == market_value_shocks@.len()
            * liquid_asset_haircuts@.len(),
{
    if base_input.assets.len() > MAX_ASSETS {
        return Err(asset_limit_error());
    }
    let mut i: usize = 0;
    while i < market_value_shocks.len()
        invariant
            i <= market_value_shocks@.len(),
            base_input.assets@.len() <= MAX_ASSETS,
            forall|k: int|
                0 <= k < i ==> shock_fits(base_input@, #[trigger] market_value_shocks@[k] as int),
        decreases market_value_shocks@.len() - i,
    {
        if !shock_is_representable(base_input, market_value_shocks[i]) {
            proof {
                let shocks = market_value_shocks@;
                assert(!shock_fits(base_input@, shocks[i as int] as int));
                assert(!shocks_fit(base_input@, shocks));
            }
            let error = unfit_shock_error();
            return Err(error);
        }
        i += 1;
    }
    match run_liquidity_stress_grid(base_input, market_value_shocks, liquid_asset_haircuts) {
        Ok(cells) => Ok(cells),
        Err(e) => Err(EngineError::RuleSelection(e)),
    }
}

/// The position of a cell determines its row and column: the cell of
/// shock `row` and haircut `column` stands at `row * width + column`.
pub proof fn lemma_cell_position(row: int, column: int, width: int)
    requires
        0 <= row,
        0 <= column < width,
    ensures
        (row * width + column) / width == row,
        (row * width + column) % width == column,
{
    vstd::arithmetic::div_mod::lemma_fundamental_div_mod_converse(
        row * width + column,
        width,
        row,
        column,
    );
}

} // verus!
