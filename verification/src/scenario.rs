//! The scenario calculator: capital gains tax on the deemed disposal at
//! death, estate duty, the combined liability and the liquidity position.

use crate::models::{
    CapitalGainsTaxBreakdown, CombinedTaxLiability, EstateAsset, EstateDutyBreakdown,
    EstateScenarioInput, LiquidityGapOutput, ResidencyStatus, ScenarioResult, ScenarioTerms,
};
use crate::money::{
    clamp_rate, clamped_rate, floor_at_zero, floor_wide, floor_zero, lemma_rate_share_bounds,
    lemma_rate_share_monotonic,
    lesser, rate_share, share_of, MAX_ASSETS, RAND, RATE_SCALE, SCORABLE_LIMIT, TOTAL_LIMIT,
};
use crate::rules::{
    baseline_tax_rules_for, spec_latest_tax_rules_for, EstateDutyRule, JurisdictionTaxRuleSet,
    TaxPayerClass,
};
use vstd::prelude::*;

verus! {

/// Which assets a total runs over.
#[derive(Debug, Clone, Copy, PartialEq, Eq, Structural)]
pub enum AssetSelection {
    /// Every asset.
    Everything,
    /// Assets within the scope of estate duty.
    DutyScope,
    /// Assets within the scope of estate duty that pass to the surviving spouse.
    SpouseBequest,
    /// Assets within the scope of estate duty that pass to a public benefit organization.
    PboBequest,
    /// Liquid assets, whether or not estate duty reaches them.
    Liquid,
}

/// An asset is within the scope of estate duty when it is flagged as
/// included and, for a non-resident, also located in South Africa.
pub open spec fn in_estate_duty_scope(
    residency: ResidencyStatus,
    included_in_estate_duty: bool,
    situs_in_south_africa: bool,
) -> bool {
    included_in_estate_duty && (residency == ResidencyStatus::Resident || situs_in_south_africa)
}

/// Whether `selection` takes `asset` into its total.
pub open spec fn selects(
    selection: AssetSelection,
    residency: ResidencyStatus,
    asset: EstateAsset,
) -> bool {
    let in_scope = in_estate_duty_scope(
        residency,
        asset.included_in_estate_duty,
        asset.situs_in_south_africa,
    );
    match selection {
        AssetSelection::Everything => true,
        AssetSelection::DutyScope => in_scope,
        AssetSelection::SpouseBequest => asset.bequeathed_to_surviving_spouse && in_scope,
        AssetSelection::PboBequest => asset.bequeathed_to_pbo && in_scope,
        AssetSelection::Liquid => asset.is_liquid,
    }
}

/// What `asset` adds to the total of `selection`.
pub open spec fn selected_value(
    selection: AssetSelection,
    residency: ResidencyStatus,
    asset: EstateAsset,
) -> int {
    if selects(selection, residency, asset) {
        floor_zero(asset.market_value_zar as int)
    } else {
        0
    }
}

/// Sum of the market values, each floored at zero, of the assets that
/// `selection` takes.
pub open spec fn selected_total(
    assets: Seq<EstateAsset>,
    selection: AssetSelection,
    residency: ResidencyStatus,
) -> int
    decreases assets.len(),
{
    if assets.len() == 0 {
        0
    } else {
        selected_total(assets.drop_last(), selection, residency) + selected_value(
            selection,
            residency,
            assets.last(),
        )
    }
}

/// Running capital gain figures over a list of assets: the gain that is
/// left after the primary residence exclusion, and the exclusion consumed.
/// The exclusion is one pool, drawn down asset by asset in list order.
pub open spec fn tally_gains(assets: Seq<EstateAsset>, exclusion_cap: int) -> (int, int)
    decreases assets.len(),
{
    if assets.len() == 0 {
        (0, 0)
    } else {
        let before = tally_gains(assets.drop_last(), exclusion_cap);
        let asset = assets.last();
        if !asset.included_in_cgt_deemed_disposal {
            before
        } else {
            let gain = asset.spec_raw_capital_gain();
            let remaining = floor_zero(exclusion_cap) - before.1;
            let excluded = if asset.qualifies_primary_residence_exclusion && remaining > 0 {
                lesser(gain, remaining)
            } else {
                0
            };
            (before.0 + gain - excluded, before.1 + excluded)
        }
    }
}

/// The tallied gain and exclusion are not negative, the exclusion never
/// exceeds its cap, and the gain is bounded by the number of assets.
pub proof fn lemma_tally_gains_bounds(assets: Seq<EstateAsset>, exclusion_cap: int)
    ensures
        0 <= tally_gains(assets, exclusion_cap).0 <= assets.len() * (2 * i64::MAX + 1),
        0 <= tally_gains(assets, exclusion_cap).1 <= floor_zero(exclusion_cap),
    decreases assets.len(),
{
    if assets.len() > 0 {
        lemma_tally_gains_bounds(assets.drop_last(), exclusion_cap);
        assert((assets.len() - 1) * (2 * i64::MAX + 1) + (2 * i64::MAX + 1) == assets.len() * (2
            * i64::MAX + 1)) by (nonlinear_arith);
    }
}

/// Companies and trusts take no annual exclusion.
pub open spec fn takes_no_annual_exclusion(taxpayer: TaxPayerClass) -> bool {
    taxpayer == TaxPayerClass::Company || taxpayer == TaxPayerClass::Trust
}

/// An explicit executor fee, where one is given, is not negative.
pub open spec fn explicit_fee_non_negative(input: ScenarioTerms) -> bool {
    match input.explicit_executor_fee_zar {
        Some(fee) => fee >= 0,
        None => true,
    }
}

/// The gain on all assets in the deemed disposal, after the primary
/// residence exclusion.
pub open spec fn gross_capital_gain(input: ScenarioTerms) -> int {
    tally_gains(input.assets, input.primary_residence_cgt_exclusion_cap_zar as int).0
}

/// The primary residence exclusion consumed.
pub open spec fn primary_residence_exclusion_used(input: ScenarioTerms) -> int {
    tally_gains(input.assets, input.primary_residence_cgt_exclusion_cap_zar as int).1
}

/// The annual exclusion applied: natural persons and special trusts take
/// the rule's amount up to the gross gain, companies and trusts take none.
pub open spec fn annual_exclusion_used(
    input: ScenarioTerms,
    rules: JurisdictionTaxRuleSet,
) -> int {
    match input.taxpayer_class {
        TaxPayerClass::NaturalPerson | TaxPayerClass::SpecialTrust => lesser(
            gross_capital_gain(input),
            rules.cgt_on_death.annual_exclusion_in_year_of_death_zar as int,
        ),
        TaxPayerClass::Company | TaxPayerClass::Trust => 0,
    }
}

/// The part of the gain that is included in taxable income.
pub open spec fn taxable_capital_gain(
    input: ScenarioTerms,
    rules: JurisdictionTaxRuleSet,
) -> int {
    rate_share(
        floor_zero(gross_capital_gain(input) - annual_exclusion_used(input, rules)),
        rules.cgt_on_death.spec_inclusion_rate_for(input.taxpayer_class) as int,
    )
}

/// Capital gains tax payable at the clamped marginal rate.
pub open spec fn cgt_payable(input: ScenarioTerms, rules: JurisdictionTaxRuleSet) -> int {
    rate_share(
        taxable_capital_gain(input, rules),
        clamp_rate(input.marginal_income_tax_rate as int),
    )
}

/// The capital gains breakdown of a scenario.
pub open spec fn cgt_breakdown(
    input: ScenarioTerms,
    rules: JurisdictionTaxRuleSet,
) -> CapitalGainsTaxBreakdown {
    CapitalGainsTaxBreakdown {
        gross_capital_gain_zar: gross_capital_gain(input) as i128,
        primary_residence_exclusion_used_zar: primary_residence_exclusion_used(input) as i128,
        annual_exclusion_used_zar: annual_exclusion_used(input, rules) as i128,
        inclusion_rate: rules.cgt_on_death.spec_inclusion_rate_for(input.taxpayer_class),
        taxable_capital_gain_in_income_zar: taxable_capital_gain(input, rules) as i128,
        tax_payable_zar: cgt_payable(input, rules) as i128,
    }
}

/// Gross estate for estate duty: the assets within its scope.
pub open spec fn gross_estate(input: ScenarioTerms) -> int {
    selected_total(input.assets, AssetSelection::DutyScope, input.residency_status)
}

/// The executor fee: the explicit fee where one is given, else the fee
/// rate with VAT on top, applied to every asset of the estate.
pub open spec fn executor_fee(input: ScenarioTerms) -> int {
    match input.explicit_executor_fee_zar {
        Some(fee) => fee as int,
        None => (selected_total(input.assets, AssetSelection::Everything, input.residency_status)
            * clamp_rate(input.executor_fee_rate as int) * (RATE_SCALE + clamp_rate(
            input.vat_rate as int,
        ))) / (RATE_SCALE as int * RATE_SCALE as int),
    }
}

/// The deduction for assets passing to the surviving spouse.
pub open spec fn spousal_deduction(
    input: ScenarioTerms,
    rules: JurisdictionTaxRuleSet,
) -> int {
    if rules.estate_duty.spouse_deduction_unlimited {
        selected_total(input.assets, AssetSelection::SpouseBequest, input.residency_status)
    } else {
        0
    }
}

/// The deduction for assets passing to public benefit organizations.
pub open spec fn pbo_deduction(input: ScenarioTerms) -> int {
    selected_total(input.assets, AssetSelection::PboBequest, input.residency_status)
}

/// The settlement costs that are both deducted from the estate and paid
/// in cash, each floored at zero.
pub open spec fn settlement_costs(input: ScenarioTerms) -> int {
    floor_zero(input.debts_and_loans_zar as int) + floor_zero(input.funeral_costs_zar as int)
        + floor_zero(input.administration_costs_zar as int) + floor_zero(
        input.masters_office_fees_zar as int,
    ) + floor_zero(input.conveyancing_costs_zar as int) + floor_zero(
        input.other_settlement_costs_zar as int,
    )
}

/// Everything deducted from the gross estate, given the capital gains tax.
pub open spec fn total_deductions(
    input: ScenarioTerms,
    rules: JurisdictionTaxRuleSet,
    cgt_tax: int,
) -> int {
    settlement_costs(input) + floor_zero(input.final_income_tax_due_zar as int) + floor_zero(
        input.ongoing_estate_income_tax_provision_zar as int,
    ) + cgt_tax + floor_zero(executor_fee(input)) + spousal_deduction(input, rules)
        + pbo_deduction(input) + floor_zero(
        input.additional_allowable_estate_duty_deductions_zar as int,
    )
}

/// The abatement applied: the rule's own plus what was ported from a
/// predeceased spouse.
pub open spec fn abatement_used(input: ScenarioTerms, rules: JurisdictionTaxRuleSet) -> int {
    rules.estate_duty.section_4a_abatement_zar + floor_zero(
        input.ported_section_4a_abatement_zar as int,
    )
}

/// The dutiable estate: a net estate less an abatement, never below zero.
pub open spec fn dutiable_amount(net_estate: int, abatement: int) -> int {
    floor_zero(net_estate - abatement)
}

/// The dutiable estate of a scenario, given the capital gains tax.
pub open spec fn dutiable_estate(
    input: ScenarioTerms,
    rules: JurisdictionTaxRuleSet,
    cgt_tax: int,
) -> int {
    dutiable_amount(
        floor_zero(gross_estate(input) - total_deductions(input, rules, cgt_tax)),
        abatement_used(input, rules),
    )
}

/// Estate duty on a dutiable amount: the primary rate up to the cap and
/// the secondary rate on what lies above it.
pub open spec fn duty_on(dutiable: int, rule: EstateDutyRule) -> int {
    rate_share(lesser(dutiable, rule.primary_rate_cap_zar as int), rule.primary_rate as int)
        + rate_share(
        floor_zero(dutiable - rule.primary_rate_cap_zar),
        rule.secondary_rate as int,
    )
}

/// The estate duty breakdown of a scenario, given the capital gains tax.
pub open spec fn estate_duty_breakdown(
    input: ScenarioTerms,
    rules: JurisdictionTaxRuleSet,
    cgt_tax: int,
) -> EstateDutyBreakdown {
    EstateDutyBreakdown {
        gross_estate_for_estate_duty_zar: gross_estate(input) as i128,
        executor_fee_zar: executor_fee(input) as i128,
        section_4q_spousal_deduction_zar: spousal_deduction(input, rules) as i128,
        pbo_deduction_zar: pbo_deduction(input) as i128,
        total_allowable_deductions_zar: total_deductions(input, rules, cgt_tax) as i128,
        section_4a_abatement_used_zar: abatement_used(input, rules) as i128,
        dutiable_estate_after_abatement_zar: dutiable_estate(input, rules, cgt_tax) as i128,
        tax_payable_zar: duty_on(dutiable_estate(input, rules, cgt_tax), rules.estate_duty) as i128,
    }
}

/// The combined liability, given the two taxes already computed.
pub open spec fn combined_tax_liability(
    input: ScenarioTerms,
    cgt_tax: int,
    estate_duty: int,
) -> CombinedTaxLiability {
    let final_income_tax = floor_zero(input.final_income_tax_due_zar as int);
    let ongoing = floor_zero(input.ongoing_estate_income_tax_provision_zar as int);
    CombinedTaxLiability {
        estate_duty_zar: estate_duty as i128,
        cgt_on_death_zar: cgt_tax as i128,
        final_income_tax_zar: final_income_tax as i128,
        ongoing_estate_income_tax_provision_zar: ongoing as i128,
        total_tax_liability_zar: (estate_duty + cgt_tax + final_income_tax + ongoing) as i128,
    }
}

/// Cash needed at once: the taxes, the settlement costs and the executor fee.
pub open spec fn cash_requirement(
    input: ScenarioTerms,
    total_tax: int,
    executor_fee: int,
) -> int {
    total_tax + settlement_costs(input) + floor_zero(executor_fee)
}

/// Cash at hand: liquid assets, external proceeds and the cash reserve.
pub open spec fn available_liquidity(input: ScenarioTerms) -> int {
    selected_total(input.assets, AssetSelection::Liquid, input.residency_status) + floor_zero(
        input.external_liquidity_proceeds_zar as int,
    ) + floor_zero(input.cash_reserve_zar as int)
}

/// The liquidity position, given the total tax and the executor fee.
pub open spec fn liquidity_output(
    input: ScenarioTerms,
    total_tax: int,
    executor_fee: int,
) -> LiquidityGapOutput {
    let required = cash_requirement(input, total_tax, executor_fee);
    let available = available_liquidity(input);
    LiquidityGapOutput {
        liquid_assets_in_estate_zar: selected_total(
            input.assets,
            AssetSelection::Liquid,
            input.residency_status,
        ) as i128,
        external_liquidity_proceeds_zar: floor_zero(
            input.external_liquidity_proceeds_zar as int,
        ) as i128,
        cash_reserve_zar: floor_zero(input.cash_reserve_zar as int) as i128,
        total_available_liquidity_zar: available as i128,
        executor_fee_zar: floor_zero(executor_fee) as i128,
        immediate_cash_requirements_zar: required as i128,
        liquidity_gap_zar: floor_zero(required - available) as i128,
        liquidity_surplus_zar: floor_zero(available - required) as i128,
    }
}

/// Total tax of a scenario under a rule set.
pub open spec fn total_tax(input: ScenarioTerms, rules: JurisdictionTaxRuleSet) -> int {
    let cgt_tax = cgt_payable(input, rules);
    duty_on(dutiable_estate(input, rules, cgt_tax), rules.estate_duty) + cgt_tax + floor_zero(
        input.final_income_tax_due_zar as int,
    ) + floor_zero(input.ongoing_estate_income_tax_provision_zar as int)
}

/// The full result of a scenario under a rule set: each breakdown feeds
/// the next.
pub open spec fn scenario_result(
    input: ScenarioTerms,
    rules: JurisdictionTaxRuleSet,
) -> ScenarioResult {
    let cgt_tax = cgt_payable(input, rules);
    let duty = duty_on(dutiable_estate(input, rules, cgt_tax), rules.estate_duty);
    ScenarioResult {
        cgt: cgt_breakdown(input, rules),
        estate_duty: estate_duty_breakdown(input, rules, cgt_tax),
        combined_tax: combined_tax_liability(input, cgt_tax, duty),
        liquidity: liquidity_output(input, total_tax(input, rules), executor_fee(input)),
    }
}

/// A fee at a rate of at most one whole, grossed up by at most a factor of
/// two, lies between zero and twice its base.
pub proof fn lemma_executor_fee_bounds(base: int, fee_rate: int, gross_up: int)
    requires
        0 <= base <= TOTAL_LIMIT,
        0 <= fee_rate <= RATE_SCALE,
        0 <= gross_up <= 2 * RATE_SCALE,
    ensures
        0 <= base * fee_rate <= TOTAL_LIMIT * RATE_SCALE,
        0 <= base * fee_rate * gross_up <= TOTAL_LIMIT * RATE_SCALE * (2 * RATE_SCALE),
        0 <= (base * fee_rate * gross_up) / (RATE_SCALE as int * RATE_SCALE as int) <= 2 * base,
{
    assert(0 <= base * fee_rate <= base * RATE_SCALE) by (nonlinear_arith)
        requires
            0 <= base,
            0 <= fee_rate <= RATE_SCALE,
    ;
    assert(base * RATE_SCALE <= TOTAL_LIMIT * RATE_SCALE) by (nonlinear_arith)
        requires
            0 <= base <= TOTAL_LIMIT,
    ;
    let p = base * fee_rate;
    let top = base * RATE_SCALE;
    assert(0 <= p * gross_up <= top * (2 * RATE_SCALE)) by (nonlinear_arith)
        requires
            0 <= p <= top,
            0 <= gross_up <= 2 * RATE_SCALE,
    ;
    assert(top * (2 * RATE_SCALE) <= TOTAL_LIMIT * RATE_SCALE * (2 * RATE_SCALE))
        by (nonlinear_arith)
        requires
            0 <= top <= TOTAL_LIMIT * RATE_SCALE,
    ;
    let d = RATE_SCALE as int * RATE_SCALE as int;
    assert(top * (2 * RATE_SCALE) == (2 * base) * d) by (nonlinear_arith)
        requires
            top == base * RATE_SCALE,
            d == RATE_SCALE as int * RATE_SCALE as int,
    ;
    assert(((2 * base) * d) / d == 2 * base) by (nonlinear_arith)
        requires
            d > 0,
    ;
    vstd::arithmetic::div_mod::lemma_div_is_ordered(p * gross_up, (2 * base) * d, d);
    vstd::arithmetic::div_mod::lemma_div_is_ordered(0, p * gross_up, d);
}

/// A selected total lies between zero and the largest value times the
/// number of assets.
pub proof fn lemma_selected_total_bounds(
    assets: Seq<EstateAsset>,
    selection: AssetSelection,
    residency: ResidencyStatus,
)
    ensures
        0 <= selected_total(assets, selection, residency) <= assets.len() * i64::MAX,
    decreases assets.len(),
{
    if assets.len() > 0 {
        lemma_selected_total_bounds(assets.drop_last(), selection, residency);
        assert((assets.len() - 1) * i64::MAX + i64::MAX == assets.len() * i64::MAX)
            by (nonlinear_arith);
    }
}

/// The capital gains figures of a scenario within the asset limit are not
/// negative, and the tax is bounded.
pub proof fn lemma_cgt_bounds(input: ScenarioTerms, rules: JurisdictionTaxRuleSet)
    requires
        rules.wf(),
        input.assets.len() <= MAX_ASSETS,
    ensures
        0 <= gross_capital_gain(input) <= 2 * TOTAL_LIMIT,
        0 <= primary_residence_exclusion_used(input) <= i64::MAX,
        0 <= annual_exclusion_used(input, rules) <= gross_capital_gain(input),
        0 <= taxable_capital_gain(input, rules) <= gross_capital_gain(input),
        0 <= cgt_payable(input, rules) <= gross_capital_gain(input),
{
    let n = input.assets.len() as int;
    lemma_tally_gains_bounds(input.assets, input.primary_residence_cgt_exclusion_cap_zar as int);
    assert(n * (2 * i64::MAX + 1) <= 2 * TOTAL_LIMIT) by (nonlinear_arith)
        requires
            0 <= n <= MAX_ASSETS,
    ;
    let after_exclusion = floor_zero(gross_capital_gain(input) - annual_exclusion_used(input, rules));
    lemma_rate_share_bounds(
        after_exclusion,
        rules.cgt_on_death.spec_inclusion_rate_for(input.taxpayer_class) as int,
    );
    lemma_rate_share_bounds(
        taxable_capital_gain(input, rules),
        clamp_rate(input.marginal_income_tax_rate as int),
    );
}

/// The executor fee of a scenario within the asset limit is bounded, and
/// it is not negative unless a negative fee is given.
pub proof fn lemma_executor_fee_range(input: ScenarioTerms)
    requires
        input.assets.len() <= MAX_ASSETS,
    ensures
        i64::MIN <= executor_fee(input) <= 2 * TOTAL_LIMIT,
        explicit_fee_non_negative(input) ==> 0 <= executor_fee(input),
{
    let n = input.assets.len() as int;
    assert(n * i64::MAX < TOTAL_LIMIT) by (nonlinear_arith)
        requires
            0 <= n <= MAX_ASSETS,
    ;
    lemma_selected_total_bounds(input.assets, AssetSelection::Everything, input.residency_status);
    if input.explicit_executor_fee_zar is None {
        lemma_executor_fee_bounds(
            selected_total(input.assets, AssetSelection::Everything, input.residency_status),
            clamp_rate(input.executor_fee_rate as int),
            RATE_SCALE + clamp_rate(input.vat_rate as int),
        );
    }
}

/// Estate duty on an amount that is not negative lies between zero and
/// the amount.
pub proof fn lemma_duty_range(dutiable: int, rule: EstateDutyRule)
    requires
        rule.wf(),
        0 <= dutiable,
    ensures
        0 <= duty_on(dutiable, rule) <= dutiable,
{
    let cap = rule.primary_rate_cap_zar as int;
    lemma_rate_share_bounds(lesser(dutiable, cap), rule.primary_rate as int);
    lemma_rate_share_bounds(floor_zero(dutiable - cap), rule.secondary_rate as int);
}

/// The estate duty figures of a scenario within the asset limit, given a
/// capital gains tax that is not negative: all but the executor fee are
/// zero or more, the fee too where no negative fee is given, and the duty
/// is bounded.
#[verifier::rlimit(60)]
pub proof fn lemma_estate_duty_bounds(
    input: ScenarioTerms,
    rules: JurisdictionTaxRuleSet,
    cgt_tax: int,
)
    requires
        rules.wf(),
        input.assets.len() <= MAX_ASSETS,
        0 <= cgt_tax <= 2 * TOTAL_LIMIT,
    ensures
        0 <= gross_estate(input) < TOTAL_LIMIT,
        i64::MIN <= executor_fee(input) <= 2 * TOTAL_LIMIT,
        explicit_fee_non_negative(input) ==> 0 <= executor_fee(input),
        0 <= spousal_deduction(input, rules) < TOTAL_LIMIT,
        0 <= pbo_deduction(input) < TOTAL_LIMIT,
        0 <= settlement_costs(input) <= 6 * i64::MAX,
        0 <= total_deductions(input, rules, cgt_tax) <= 7 * TOTAL_LIMIT,
        0 <= abatement_used(input, rules) <= 2 * i64::MAX,
        0 <= dutiable_estate(input, rules, cgt_tax) <= gross_estate(input),
        0 <= duty_on(dutiable_estate(input, rules, cgt_tax), rules.estate_duty) <= dutiable_estate(
            input,
            rules,
            cgt_tax,
        ),
{
    let n = input.assets.len() as int;
    let residency = input.residency_status;
    assert(n * i64::MAX < TOTAL_LIMIT) by (nonlinear_arith)
        requires
            0 <= n <= MAX_ASSETS,
    ;
    lemma_selected_total_bounds(input.assets, AssetSelection::DutyScope, residency);
    lemma_selected_total_bounds(input.assets, AssetSelection::SpouseBequest, residency);
    lemma_selected_total_bounds(input.assets, AssetSelection::PboBequest, residency);
    lemma_executor_fee_range(input);
    lemma_duty_range(dutiable_estate(input, rules, cgt_tax), rules.estate_duty);
}

/// For a scenario within the asset limit whose explicit executor fee, if
/// any, is not negative, every monetary figure of the result is zero or
/// more, the gap and the surplus are never both above zero, and the
/// result can be scored.
pub proof fn lemma_result_non_negative(input: ScenarioTerms, rules: JurisdictionTaxRuleSet)
    requires
        rules.wf(),
        input.assets.len() <= MAX_ASSETS,
        explicit_fee_non_negative(input),
    ensures
        scenario_result(input, rules).non_negative(),
        scenario_result(input, rules).scorable(),
        scenario_result(input, rules).liquidity.liquidity_gap_zar * scenario_result(
            input,
            rules,
        ).liquidity.liquidity_surplus_zar == 0,
{
    lemma_cgt_bounds(input, rules);
    let cgt_tax = cgt_payable(input, rules);
    lemma_estate_duty_bounds(input, rules, cgt_tax);
    let n = input.assets.len() as int;
    assert(n * i64::MAX < TOTAL_LIMIT) by (nonlinear_arith)
        requires
            0 <= n <= MAX_ASSETS,
    ;
    lemma_selected_total_bounds(input.assets, AssetSelection::Liquid, input.residency_status);
    let result = scenario_result(input, rules);
    let required = cash_requirement(input, total_tax(input, rules), executor_fee(input));
    let available = available_liquidity(input);
    assert(result.liquidity.liquidity_gap_zar == floor_zero(required - available));
    assert(result.liquidity.liquidity_surplus_zar == floor_zero(available - required));
    assert(result.liquidity.liquidity_gap_zar == 0 || result.liquidity.liquidity_surplus_zar == 0);
    assert(result.liquidity.liquidity_gap_zar * result.liquidity.liquidity_surplus_zar == 0)
        by (nonlinear_arith)
        requires
            result.liquidity.liquidity_gap_zar == 0 || result.liquidity.liquidity_surplus_zar == 0,
    ;
}

/// Estate duty never falls when the dutiable amount grows.
pub proof fn lemma_duty_monotonic(lower: int, higher: int, rule: EstateDutyRule)
    requires
        rule.wf(),
        lower <= higher,
    ensures
        duty_on(lower, rule) <= duty_on(higher, rule),
{
    let cap = rule.primary_rate_cap_zar as int;
    lemma_rate_share_monotonic(lesser(lower, cap), lesser(higher, cap), rule.primary_rate as int);
    lemma_rate_share_monotonic(
        floor_zero(lower - cap),
        floor_zero(higher - cap),
        rule.secondary_rate as int,
    );
}

/// With deductions and abatement held fixed, estate duty never falls when
/// the gross estate grows.
pub proof fn lemma_duty_monotonic_in_gross_estate(
    gross_low: int,
    gross_high: int,
    deductions: int,
    abatement: int,
    rule: EstateDutyRule,
)
    requires
        rule.wf(),
        gross_low <= gross_high,
    ensures
        duty_on(dutiable_amount(floor_zero(gross_low - deductions), abatement), rule) <= duty_on(
            dutiable_amount(floor_zero(gross_high - deductions), abatement),
            rule,
        ),
{
    lemma_duty_monotonic(
        dutiable_amount(floor_zero(gross_low - deductions), abatement),
        dutiable_amount(floor_zero(gross_high - deductions), abatement),
        rule,
    );
}

/// Up to the cap only the primary rate applies; at the cap the duty is the
/// cap at the primary rate.
pub proof fn lemma_duty_within_primary_band(dutiable: int, rule: EstateDutyRule)
    requires
        rule.wf(),
        0 <= dutiable <= rule.primary_rate_cap_zar,
    ensures
        duty_on(dutiable, rule) == rate_share(dutiable, rule.primary_rate as int),
        duty_on(rule.primary_rate_cap_zar as int, rule) == rate_share(
            rule.primary_rate_cap_zar as int,
            rule.primary_rate as int,
        ),
{
    assert(rate_share(0, rule.secondary_rate as int) == 0) by (nonlinear_arith);
}

/// Above the cap the excess, and only the excess, bears the secondary rate.
pub proof fn lemma_duty_above_cap(excess: int, rule: EstateDutyRule)
    requires
        rule.wf(),
        0 <= excess,
    ensures
        duty_on(rule.primary_rate_cap_zar + excess, rule) == duty_on(
            rule.primary_rate_cap_zar as int,
            rule,
        ) + rate_share(excess, rule.secondary_rate as int),
{
    assert(rate_share(0, rule.secondary_rate as int) == 0) by (nonlinear_arith);
}

/// One rand above the cap bears exactly the secondary rate: the duty
/// grows by the secondary rate of one rand.
pub proof fn lemma_duty_one_rand_above_cap(rule: EstateDutyRule)
    requires
        rule.wf(),
    ensures
        duty_on(rule.primary_rate_cap_zar + RAND, rule) == duty_on(
            rule.primary_rate_cap_zar as int,
            rule,
        ) + rule.secondary_rate,
{
    lemma_duty_above_cap(RAND as int, rule);
    let s = rule.secondary_rate as int;
    assert((1_000_000 * s) / 1_000_000 == s) by (nonlinear_arith);
}

/// At a cap of a whole number of rand the duty is that number of rand at
/// the primary rate, with nothing rounded away.
pub proof fn lemma_duty_at_whole_rand_cap(whole_rand: int, rule: EstateDutyRule)
    requires
        rule.wf(),
        rule.primary_rate_cap_zar == whole_rand * RAND,
    ensures
        duty_on(rule.primary_rate_cap_zar as int, rule) == whole_rand * rule.primary_rate,
{
    lemma_duty_within_primary_band(rule.primary_rate_cap_zar as int, rule);
    let p = rule.primary_rate as int;
    assert(((whole_rand * 1_000_000) * p) / 1_000_000 == whole_rand * p) by (nonlinear_arith);
}

/// Replacing one asset changes a selected total by the change in what that
/// asset adds to it.
pub proof fn lemma_selected_total_replace(
    before: Seq<EstateAsset>,
    after: Seq<EstateAsset>,
    at: int,
    selection: AssetSelection,
    residency: ResidencyStatus,
)
    requires
        before.len() == after.len(),
        0 <= at < before.len(),
        forall|i: int| 0 <= i < before.len() && i != at ==> before[i] == after[i],
    ensures
        selected_total(after, selection, residency) - selected_total(before, selection, residency)
            == selected_value(selection, residency, after[at]) - selected_value(
            selection,
            residency,
            before[at],
        ),
    decreases before.len(),
{
    if at == before.len() - 1 {
        assert(before.drop_last() =~= after.drop_last());
    } else {
        lemma_selected_total_replace(
            before.drop_last(),
            after.drop_last(),
            at,
            selection,
            residency,
        );
        assert(before.last() == after.last());
    }
}

/// Of two scenarios that differ only in the market value of one asset that
/// is bequeathed neither to the spouse nor to a public benefit
/// organization, both with the same explicit executor fee, the one with the
/// greater value has the same deductions, and a gross estate, a dutiable
/// estate and an estate duty that are no smaller.
pub proof fn lemma_duty_monotonic_in_asset_value(
    lower: ScenarioTerms,
    higher: ScenarioTerms,
    rules: JurisdictionTaxRuleSet,
    cgt_tax: int,
    at: int,
)
    requires
        rules.wf(),
        higher == (ScenarioTerms { assets: higher.assets, ..lower }),
        lower.assets.len() == higher.assets.len(),
        0 <= at < lower.assets.len(),
        forall|i: int|
            0 <= i < lower.assets.len() && i != at ==> lower.assets[i] == higher.assets[i],
        higher.assets[at] == (EstateAsset {
            market_value_zar: higher.assets[at].market_value_zar,
            ..lower.assets[at]
        }),
        lower.assets[at].market_value_zar <= higher.assets[at].market_value_zar,
        !lower.assets[at].bequeathed_to_surviving_spouse,
        !lower.assets[at].bequeathed_to_pbo,
        lower.explicit_executor_fee_zar is Some,
    ensures
        gross_estate(lower) <= gross_estate(higher),
        total_deductions(lower, rules, cgt_tax) == total_deductions(higher, rules, cgt_tax),
        dutiable_estate(lower, rules, cgt_tax) <= dutiable_estate(higher, rules, cgt_tax),
        duty_on(dutiable_estate(lower, rules, cgt_tax), rules.estate_duty) <= duty_on(
            dutiable_estate(higher, rules, cgt_tax),
            rules.estate_duty,
        ),
{
    let residency = lower.residency_status;
    lemma_selected_total_replace(
        lower.assets,
        higher.assets,
        at,
        AssetSelection::DutyScope,
        residency,
    );
    lemma_selected_total_replace(
        lower.assets,
        higher.assets,
        at,
        AssetSelection::SpouseBequest,
        residency,
    );
    lemma_selected_total_replace(
        lower.assets,
        higher.assets,
        at,
        AssetSelection::PboBequest,
        residency,
    );
    lemma_duty_monotonic(
        dutiable_estate(lower, rules, cgt_tax),
        dutiable_estate(higher, rules, cgt_tax),
        rules.estate_duty,
    );
}

/// Companies and trusts use no annual exclusion, whatever the gain.
pub proof fn lemma_no_annual_exclusion(input: ScenarioTerms, rules: JurisdictionTaxRuleSet)
    requires
        takes_no_annual_exclusion(input.taxpayer_class),
    ensures
        annual_exclusion_used(input, rules) == 0,
        scenario_result(input, rules).cgt.annual_exclusion_used_zar == 0,
        taxable_capital_gain(input, rules) == rate_share(
            gross_capital_gain(input),
            rules.cgt_on_death.spec_inclusion_rate_for(input.taxpayer_class) as int,
        ),
{
    lemma_tally_gains_bounds(input.assets, input.primary_residence_cgt_exclusion_cap_zar as int);
}

/// Sums the market values, each floored at zero, of the assets that
/// `selection` takes.
pub fn total_selected(
    assets: &Vec<EstateAsset>,
    selection: AssetSelection,
    residency: ResidencyStatus,
) -> (total: i128)
    requires
        assets@.len() <= MAX_ASSETS,
    ensures
        total == selected_total(assets@, selection, residency),
        0 <= total < TOTAL_LIMIT,
{
    let mut total: i128 = 0;
    let mut i: usize = 0;
    while i < assets.len()
        invariant
            i <= assets.len(),
            assets@.len() <= MAX_ASSETS,
            total == selected_total(assets@.take(i as int), selection, residency),
            0 <= total <= i * i64::MAX,
        decreases assets.len() - i,
    {
        let asset = &assets[i];
        let in_scope = SouthAfricaScenarioCalculator::asset_in_estate_duty_scope(
            residency,
            asset.included_in_estate_duty,
            asset.situs_in_south_africa,
        );
        let taken = match selection {
            AssetSelection::Everything => true,
            AssetSelection::DutyScope => in_scope,
            AssetSelection::SpouseBequest => asset.bequeathed_to_surviving_spouse && in_scope,
            AssetSelection::PboBequest => asset.bequeathed_to_pbo && in_scope,
            AssetSelection::Liquid => asset.is_liquid,
        };
        proof {
            assert(assets@.take(i + 1).drop_last() == assets@.take(i as int));
            assert(assets@.take(i + 1).last() == assets@[i as int]);
            assert(i * i64::MAX + i64::MAX == (i + 1) * i64::MAX) by (nonlinear_arith);
            assert(i * i64::MAX <= MAX_ASSETS * i64::MAX) by (nonlinear_arith)
                requires
                    i <= MAX_ASSETS,
            ;
        }
        if taken {
            total = total + floor_at_zero(asset.market_value_zar);
        }
        i += 1;
    }
    proof {
        assert(assets@.take(i as int) == assets@);
        assert(i * i64::MAX <= MAX_ASSETS * i64::MAX) by (nonlinear_arith)
            requires
                i <= MAX_ASSETS,
        ;
    }
    total
}

/// Adds up the settlement costs, each floored at zero.
pub fn settlement_costs_zar(input: &EstateScenarioInput) -> (costs: i128)
    ensures
        costs == settlement_costs(input@),
        0 <= costs <= 6 * i64::MAX,
{
    floor_at_zero(input.debts_and_loans_zar) + floor_at_zero(input.funeral_costs_zar)
        + floor_at_zero(input.administration_costs_zar) + floor_at_zero(
        input.masters_office_fees_zar,
    ) + floor_at_zero(input.conveyancing_costs_zar) + floor_at_zero(
        input.other_settlement_costs_zar,
    )
}

/// Estate duty on a dutiable amount under the two-band schedule of `rule`.
pub fn estate_duty_on(dutiable_zar: i128, rule: &EstateDutyRule) -> (duty: i128)
    requires
        rule.wf(),
        0 <= dutiable_zar <= TOTAL_LIMIT,
    ensures
        duty == duty_on(dutiable_zar as int, *rule),
        0 <= duty <= dutiable_zar,
{
    let cap = rule.primary_rate_cap_zar as i128;
    let primary_band = if dutiable_zar < cap {
        dutiable_zar
    } else {
        cap
    };
    let secondary_band = floor_wide(dutiable_zar - cap);
    share_of(primary_band, rule.primary_rate as i128) + share_of(
        secondary_band,
        rule.secondary_rate as i128,
    )
}

/// Computes a scenario's result under the rules it was built with.
pub trait ScenarioCalculator {
    /// Whether the calculator's rules are well formed.
    spec fn ready(&self) -> bool;

    /// What the calculator returns for `input`.
    spec fn outcome(&self, input: &EstateScenarioInput) -> ScenarioResult;

    fn calculate(&self, input: &EstateScenarioInput) -> (result: ScenarioResult)
        requires
            self.ready(),
            input.assets@.len() <= MAX_ASSETS,
        ensures
            result == self.outcome(input),
            result.scorable(),
            explicit_fee_non_negative(input@) ==> result.non_negative(),
            result.liquidity.liquidity_gap_zar * result.liquidity.liquidity_surplus_zar == 0,
            takes_no_annual_exclusion(input.taxpayer_class)
                ==> result.cgt.annual_exclusion_used_zar == 0,
    ;
}

/// The calculator for South African estates.
#[derive(Debug, Clone, Copy)]
pub struct SouthAfricaScenarioCalculator {
    rules: JurisdictionTaxRuleSet,
}

impl SouthAfricaScenarioCalculator {
    /// The rules this calculator applies.
    pub closed spec fn rules(&self) -> JurisdictionTaxRuleSet {
        self.rules
    }

    /// A calculator for `input`'s jurisdiction under its latest rules.
    pub fn new(input: &EstateScenarioInput) -> (calculator: Self)
        ensures
            calculator.rules() == spec_latest_tax_rules_for(input.jurisdiction).rules,
            calculator.rules().wf(),
    {
        Self { rules: baseline_tax_rules_for(input.jurisdiction) }
    }

    /// A calculator that applies `rules`.
    pub fn with_rules(rules: JurisdictionTaxRuleSet) -> (calculator: Self)
        requires
            rules.wf(),
        ensures
            calculator.rules() == rules,
    {
        Self { rules }
    }

    fn clamp_rate(rate: i64) -> (clamped: i128)
        ensures
            clamped == clamp_rate(rate as int),
            0 <= clamped <= RATE_SCALE,
    {
        clamped_rate(rate)
    }

    fn asset_in_estate_duty_scope(
        residency: ResidencyStatus,
        included_in_estate_duty: bool,
        situs_in_south_africa: bool,
    ) -> (in_scope: bool)
        ensures
            in_scope == in_estate_duty_scope(
                residency,
                included_in_estate_duty,
                situs_in_south_africa,
            ),
    {
        if !included_in_estate_duty {
            return false;
        }
        match residency {
            ResidencyStatus::Resident => true,
            ResidencyStatus::NonResident => situs_in_south_africa,
        }
    }

    /// Capital gains tax on the deemed disposal at death.
    pub fn calculate_cgt(&self, input: &EstateScenarioInput) -> (cgt: CapitalGainsTaxBreakdown)
        requires
            self.rules().wf(),
            input.assets@.len() <= MAX_ASSETS,
        ensures
            cgt == cgt_breakdown(input@, self.rules()),
            cgt.tax_payable_zar == cgt_payable(input@, self.rules()),
            0 <= cgt.tax_payable_zar <= 2 * TOTAL_LIMIT,
            cgt.gross_capital_gain_zar >= 0,
            cgt.primary_residence_exclusion_used_zar >= 0,
            cgt.annual_exclusion_used_zar >= 0,
            cgt.taxable_capital_gain_in_income_zar >= 0,
            takes_no_annual_exclusion(input.taxpayer_class) ==> cgt.annual_exclusion_used_zar == 0
                && cgt.taxable_capital_gain_in_income_zar == rate_share(
                cgt.gross_capital_gain_zar as int,
                cgt.inclusion_rate as int,
            ),
            !takes_no_annual_exclusion(input.taxpayer_class) ==> cgt.annual_exclusion_used_zar
                == lesser(
                cgt.gross_capital_gain_zar as int,
                self.rules().cgt_on_death.annual_exclusion_in_year_of_death_zar as int,
            ),
    {
        let marginal_income_tax_rate = Self::clamp_rate(input.marginal_income_tax_rate);
        let cap: i128 = floor_at_zero(input.primary_residence_cgt_exclusion_cap_zar);
        let mut gross_capital_gain_zar: i128 = 0;
        let mut primary_residence_exclusion_remaining_zar: i128 = cap;
        let mut primary_residence_exclusion_used_zar: i128 = 0;

        let mut i: usize = 0;
        while i < input.assets.len()
            invariant
                i <= input.assets.len(),
                input.assets@.len() <= MAX_ASSETS,
                cap == floor_zero(input.primary_residence_cgt_exclusion_cap_zar as int),
                gross_capital_gain_zar == tally_gains(
                    input.assets@.take(i as int),
                    input.primary_residence_cgt_exclusion_cap_zar as int,
                ).0,
                primary_residence_exclusion_used_zar == tally_gains(
                    input.assets@.take(i as int),
                    input.primary_residence_cgt_exclusion_cap_zar as int,
                ).1,
                primary_residence_exclusion_remaining_zar == cap
                    - primary_residence_exclusion_used_zar,
                0 <= primary_residence_exclusion_used_zar <= cap,
                0 <= gross_capital_gain_zar <= i * (2 * i64::MAX + 1),
            decreases input.assets.len() - i,
        {
            let asset = &input.assets[i];
            proof {
                assert(input.assets@.take(i + 1).drop_last() == input.assets@.take(i as int));
                assert(input.assets@.take(i + 1).last() == input.assets@[i as int]);
                lemma_tally_gains_bounds(
                    input.assets@.take(i + 1),
                    input.primary_residence_cgt_exclusion_cap_zar as int,
                );
                assert(i * (2 * i64::MAX + 1) <= MAX_ASSETS * (2 * i64::MAX + 1))
                    by (nonlinear_arith)
                    requires
                        i <= MAX_ASSETS,
                ;
            }
            if asset.included_in_cgt_deemed_disposal {
                let mut gain = asset.raw_capital_gain_zar();
                if asset.qualifies_primary_residence_exclusion
                    && primary_residence_exclusion_remaining_zar > 0 {
                    let exclusion = if gain < primary_residence_exclusion_remaining_zar {
                        gain
                    } else {
                        primary_residence_exclusion_remaining_zar
                    };
                    primary_residence_exclusion_used_zar = primary_residence_exclusion_used_zar
                        + exclusion;
                    primary_residence_exclusion_remaining_zar =
                        primary_residence_exclusion_remaining_zar - exclusion;
                    gain = gain - exclusion;
                }
                gross_capital_gain_zar = gross_capital_gain_zar + gain;
            }
            i += 1;
        }
        proof {
            assert(input.assets@.take(i as int) == input.assets@);
            assert(i * (2 * i64::MAX + 1) <= MAX_ASSETS * (2 * i64::MAX + 1)) by (nonlinear_arith)
                requires
                    i <= MAX_ASSETS,
            ;
        }

        let annual_exclusion_used_zar: i128 = match input.taxpayer_class {
            TaxPayerClass::NaturalPerson | TaxPayerClass::SpecialTrust => {
                let allowed = self.rules.cgt_on_death.annual_exclusion_in_year_of_death_zar as i128;
                if gross_capital_gain_zar < allowed {
                    gross_capital_gain_zar
                } else {
                    allowed
                }
            },
            TaxPayerClass::Company | TaxPayerClass::Trust => 0,
        };

        let inclusion_rate = self.rules.cgt_on_death.inclusion_rate_for(input.taxpayer_class);
        let taxable_capital_gain_in_income_zar = share_of(
            floor_wide(gross_capital_gain_zar - annual_exclusion_used_zar),
            inclusion_rate as i128,
        );
        let tax_payable_zar = share_of(
            taxable_capital_gain_in_income_zar,
            marginal_income_tax_rate,
        );

        CapitalGainsTaxBreakdown {
            gross_capital_gain_zar,
            primary_residence_exclusion_used_zar,
            annual_exclusion_used_zar,
            inclusion_rate,
            taxable_capital_gain_in_income_zar,
            tax_payable_zar,
        }
    }

    fn executor_fee_on(input: &EstateScenarioInput, fee_base_zar: i128) -> (fee: i128)
        requires
            fee_base_zar == selected_total(
                input.assets@,
                AssetSelection::Everything,
                input.residency_status,
            ),
            0 <= fee_base_zar < TOTAL_LIMIT,
        ensures
            fee == executor_fee(input@),
            i64::MIN <= fee <= 2 * TOTAL_LIMIT,
            explicit_fee_non_negative(input@) ==> 0 <= fee,
    {
        match input.explicit_executor_fee_zar {
            Some(fee) => fee as i128,
            None => {
                let fee_rate = Self::clamp_rate(input.executor_fee_rate);
                let vat_rate = Self::clamp_rate(input.vat_rate);
                let scale = RATE_SCALE as i128;
                proof {
                    lemma_executor_fee_bounds(
                        fee_base_zar as int,
                        fee_rate as int,
                        RATE_SCALE + vat_rate,
                    );
                }
                (fee_base_zar * fee_rate * (scale + vat_rate)) / (scale * scale)
            },
        }
    }

    /// Estate duty, given the capital gains tax that is deducted from the
    /// estate.
    pub fn calculate_estate_duty(
        &self,
        input: &EstateScenarioInput,
        cgt_tax_payable_zar: i128,
    ) -> (duty: EstateDutyBreakdown)
        requires
            self.rules().wf(),
            input.assets@.len() <= MAX_ASSETS,
            0 <= cgt_tax_payable_zar <= 2 * TOTAL_LIMIT,
        ensures
            duty == estate_duty_breakdown(input@, self.rules(), cgt_tax_payable_zar as int),
            duty.executor_fee_zar == executor_fee(input@),
            duty.tax_payable_zar == duty_on(
                dutiable_estate(input@, self.rules(), cgt_tax_payable_zar as int),
                self.rules().estate_duty,
            ),
            0 <= duty.tax_payable_zar <= 2 * TOTAL_LIMIT,
            i64::MIN <= duty.executor_fee_zar <= 2 * TOTAL_LIMIT,
            explicit_fee_non_negative(input@) ==> 0 <= duty.executor_fee_zar,
            duty.gross_estate_for_estate_duty_zar >= 0,
            duty.section_4q_spousal_deduction_zar >= 0,
            duty.pbo_deduction_zar >= 0,
            duty.total_allowable_deductions_zar >= 0,
            duty.section_4a_abatement_used_zar >= 0,
            duty.dutiable_estate_after_abatement_zar >= 0,
    {
        let residency = input.residency_status;
        let gross_estate_for_estate_duty_zar = total_selected(
            &input.assets,
            AssetSelection::DutyScope,
            residency,
        );
        let gross_estate_for_executor_fee_zar = total_selected(
            &input.assets,
            AssetSelection::Everything,
            residency,
        );

        let executor_fee_zar = Self::executor_fee_on(input, gross_estate_for_executor_fee_zar);

        let section_4q_spousal_deduction_zar: i128 =
            if self.rules.estate_duty.spouse_deduction_unlimited {
            total_selected(&input.assets, AssetSelection::SpouseBequest, residency)
        } else {
            0
        };

        let pbo_deduction_zar = total_selected(
            &input.assets,
            AssetSelection::PboBequest,
            residency,
        );

        let total_allowable_deductions_zar = settlement_costs_zar(input) + floor_at_zero(
            input.final_income_tax_due_zar,
        ) + floor_at_zero(input.ongoing_estate_income_tax_provision_zar) + cgt_tax_payable_zar
            + floor_wide(executor_fee_zar) + section_4q_spousal_deduction_zar + pbo_deduction_zar
            + floor_at_zero(input.additional_allowable_estate_duty_deductions_zar);

        let net_estate_before_abatement_zar = floor_wide(
            gross_estate_for_estate_duty_zar - total_allowable_deductions_zar,
        );
        let section_4a_abatement_used_zar = self.rules.estate_duty.section_4a_abatement_zar as i128
            + floor_at_zero(input.ported_section_4a_abatement_zar);
        let dutiable_estate_after_abatement_zar = floor_wide(
            net_estate_before_abatement_zar - section_4a_abatement_used_zar,
        );

        let tax_payable_zar = estate_duty_on(
            dutiable_estate_after_abatement_zar,
            &self.rules.estate_duty,
        );

        EstateDutyBreakdown {
            gross_estate_for_estate_duty_zar,
            executor_fee_zar,
            section_4q_spousal_deduction_zar,
            pbo_deduction_zar,
            total_allowable_deductions_zar,
            section_4a_abatement_used_zar,
            dutiable_estate_after_abatement_zar,
            tax_payable_zar,
        }
    }

    /// The combined liability, given the two taxes.
    pub fn calculate_combined_tax(
        &self,
        input: &EstateScenarioInput,
        cgt_tax_payable_zar: i128,
        estate_duty_tax_payable_zar: i128,
    ) -> (combined: CombinedTaxLiability)
        requires
            0 <= cgt_tax_payable_zar <= 2 * TOTAL_LIMIT,
            0 <= estate_duty_tax_payable_zar <= 2 * TOTAL_LIMIT,
        ensures
            combined == combined_tax_liability(
                input@,
                cgt_tax_payable_zar as int,
                estate_duty_tax_payable_zar as int,
            ),
            combined.total_tax_liability_zar == estate_duty_tax_payable_zar + cgt_tax_payable_zar
                + floor_zero(input.final_income_tax_due_zar as int) + floor_zero(
                input.ongoing_estate_income_tax_provision_zar as int,
            ),
            0 <= combined.total_tax_liability_zar <= 5 * TOTAL_LIMIT,
            combined.estate_duty_zar >= 0,
            combined.cgt_on_death_zar >= 0,
            combined.final_income_tax_zar >= 0,
            combined.ongoing_estate_income_tax_provision_zar >= 0,
    {
        let final_income_tax_zar = floor_at_zero(input.final_income_tax_due_zar);
        let ongoing_income_tax_zar = floor_at_zero(input.ongoing_estate_income_tax_provision_zar);
        let total_tax_liability_zar = estate_duty_tax_payable_zar + cgt_tax_payable_zar
            + final_income_tax_zar + ongoing_income_tax_zar;

        CombinedTaxLiability {
            estate_duty_zar: estate_duty_tax_payable_zar,
            cgt_on_death_zar: cgt_tax_payable_zar,
            final_income_tax_zar,
            ongoing_estate_income_tax_provision_zar: ongoing_income_tax_zar,
            total_tax_liability_zar,
        }
    }

    /// The liquidity position, given the combined liability and the executor
    /// fee.
    pub fn calculate_liquidity(
        &self,
        input: &EstateScenarioInput,
        combined_tax: &CombinedTaxLiability,
        executor_fee_zar: i128,
    ) -> (liquidity: LiquidityGapOutput)
        requires
            input.assets@.len() <= MAX_ASSETS,
            0 <= combined_tax.total_tax_liability_zar <= 5 * TOTAL_LIMIT,
            i64::MIN <= executor_fee_zar <= 2 * TOTAL_LIMIT,
        ensures
            liquidity == liquidity_output(
                input@,
                combined_tax.total_tax_liability_zar as int,
                executor_fee_zar as int,
            ),
            liquidity.liquid_assets_in_estate_zar >= 0,
            liquidity.external_liquidity_proceeds_zar >= 0,
            liquidity.cash_reserve_zar >= 0,
            0 <= liquidity.total_available_liquidity_zar <= SCORABLE_LIMIT,
            liquidity.executor_fee_zar >= 0,
            liquidity.immediate_cash_requirements_zar >= 0,
            liquidity.liquidity_gap_zar >= 0,
            liquidity.liquidity_surplus_zar >= 0,
            liquidity.liquidity_gap_zar == 0 || liquidity.liquidity_surplus_zar == 0,
            liquidity.liquidity_gap_zar * liquidity.liquidity_surplus_zar == 0,
            liquidity.liquidity_gap_zar == floor_zero(
                liquidity.immediate_cash_requirements_zar
                    - liquidity.total_available_liquidity_zar,
            ),
            liquidity.liquidity_surplus_zar == floor_zero(
                liquidity.total_available_liquidity_zar
                    - liquidity.immediate_cash_requirements_zar,
            ),
            (liquidity.liquidity_gap_zar == 0 && liquidity.liquidity_surplus_zar == 0) <==> (
            liquidity.immediate_cash_requirements_zar == liquidity.total_available_liquidity_zar),
    {
        let liquid_assets_in_estate_zar = total_selected(
            &input.assets,
            AssetSelection::Liquid,
            input.residency_status,
        );

        let immediate_cash_requirements_zar = combined_tax.total_tax_liability_zar
            + settlement_costs_zar(input) + floor_wide(executor_fee_zar);

        let external_liquidity_proceeds_zar = floor_at_zero(input.external_liquidity_proceeds_zar);
        let cash_reserve_zar = floor_at_zero(input.cash_reserve_zar);
        let total_available_liquidity_zar = liquid_assets_in_estate_zar
            + external_liquidity_proceeds_zar + cash_reserve_zar;
        let liquidity_gap_zar = floor_wide(
            immediate_cash_requirements_zar - total_available_liquidity_zar,
        );
        let liquidity_surplus_zar = floor_wide(
            total_available_liquidity_zar - immediate_cash_requirements_zar,
        );

        proof {
            assert(liquidity_gap_zar * liquidity_surplus_zar == 0) by (nonlinear_arith)
                requires
                    liquidity_gap_zar == 0 || liquidity_surplus_zar == 0,
            ;
        }
        LiquidityGapOutput {
            liquid_assets_in_estate_zar,
            external_liquidity_proceeds_zar,
            cash_reserve_zar,
            total_available_liquidity_zar,
            executor_fee_zar: floor_wide(executor_fee_zar),
            immediate_cash_requirements_zar,
            liquidity_gap_zar,
            liquidity_surplus_zar,
        }
    }
}

impl ScenarioCalculator for SouthAfricaScenarioCalculator {
    open spec fn ready(&self) -> bool {
        self.rules().wf()
    }

    open spec fn outcome(&self, input: &EstateScenarioInput) -> ScenarioResult {
        scenario_result(input@, self.rules())
    }

    fn calculate(&self, input: &EstateScenarioInput) -> (result: ScenarioResult) {
        let cgt = self.calculate_cgt(input);
        let estate_duty = self.calculate_estate_duty(input, cgt.tax_payable_zar);
        let combined_tax = self.calculate_combined_tax(
            input,
            cgt.tax_payable_zar,
            estate_duty.tax_payable_zar,
        );
        let liquidity = self.calculate_liquidity(
            input,
            &combined_tax,
            estate_duty.executor_fee_zar,
        );

        ScenarioResult { cgt, estate_duty, combined_tax, liquidity }
    }
}

/// Calculates a scenario under given rules.
pub fn calculate_with_rules(input: &EstateScenarioInput, rules: JurisdictionTaxRuleSet) -> (result:
    ScenarioResult)
    requires
        rules.wf(),
        input.assets@.len() <= MAX_ASSETS,
    ensures
        result == scenario_result(input@, rules),
        result.scorable(),
        explicit_fee_non_negative(input@) ==> result.non_negative(),
        result.liquidity.liquidity_gap_zar * result.liquidity.liquidity_surplus_zar == 0,
        takes_no_annual_exclusion(input.taxpayer_class)
            ==> result.cgt.annual_exclusion_used_zar == 0,
{
    let calculator = SouthAfricaScenarioCalculator::with_rules(rules);
    calculator.calculate(input)
}

/// Calculates a scenario under the latest rules of its jurisdiction.
pub fn calculate_combined_tax_and_liquidity(input: &EstateScenarioInput) -> (result: ScenarioResult)
    requires
        input.assets@.len() <= MAX_ASSETS,
    ensures
        result == scenario_result(input@, spec_latest_tax_rules_for(input.jurisdiction).rules),
        result.scorable(),
        explicit_fee_non_negative(input@) ==> result.non_negative(),
        result.liquidity.liquidity_gap_zar * result.liquidity.liquidity_surplus_zar == 0,
        takes_no_annual_exclusion(input.taxpayer_class)
            ==> result.cgt.annual_exclusion_used_zar == 0,
{
    let calculator = SouthAfricaScenarioCalculator::new(input);
    calculator.calculate(input)
}

} // verus!
