use estate_engine::models::{EstateAsset, EstateScenarioInput, ResidencyStatus};
use estate_engine::money::RAND;
use estate_engine::rules::{baseline_tax_rules_for, Jurisdiction, TaxPayerClass};
use estate_engine::scenario::{
    calculate_combined_tax_and_liquidity, calculate_with_rules, estate_duty_on,
    ScenarioCalculator, SouthAfricaScenarioCalculator,
};


fn zar<T: From<i64> + std::ops::Mul<Output = T>>(amount: T) -> T {
    amount * T::from(RAND)
}
fn baseline_input() -> EstateScenarioInput {
    EstateScenarioInput {
        jurisdiction: Jurisdiction::SouthAfrica,
        taxpayer_class: TaxPayerClass::NaturalPerson,
        residency_status: ResidencyStatus::Resident,
        marginal_income_tax_rate: 450_000,
        explicit_executor_fee_zar: Some(zar(0)),
        ..EstateScenarioInput::default()
    }
}

fn asset(name: &str, market_value_zar: i64, base_cost_zar: i64) -> EstateAsset {
    EstateAsset {
        name: name.to_string(),
        market_value_zar,
        base_cost_zar,
        is_liquid: false,
        situs_in_south_africa: true,
        included_in_estate_duty: true,
        included_in_cgt_deemed_disposal: false,
        bequeathed_to_surviving_spouse: false,
        bequeathed_to_pbo: false,
        qualifies_primary_residence_exclusion: false,
    }
}

#[test]
fn applies_estate_duty_primary_and_secondary_bands() {
    let mut input = baseline_input();
    input.assets.push(EstateAsset {
        name: "Illiquid asset".to_string(),
        market_value_zar: zar(40_000_000),
        base_cost_zar: zar(40_000_000),
        is_liquid: false,
        situs_in_south_africa: true,
        included_in_estate_duty: true,
        included_in_cgt_deemed_disposal: false,
        bequeathed_to_surviving_spouse: false,
        bequeathed_to_pbo: false,
        qualifies_primary_residence_exclusion: false,
    });

    let result = calculate_combined_tax_and_liquidity(&input);
    assert_eq!(result.estate_duty.tax_payable_zar, zar(7_625_000));
    assert_eq!(result.liquidity.liquidity_gap_zar, zar(7_625_000));
    assert_eq!(result.estate_duty.dutiable_estate_after_abatement_zar, zar(36_500_000));
    assert_eq!(result.liquidity.liquidity_surplus_zar, zar(0));
    assert_eq!(result.cgt.tax_payable_zar, zar(0));
}

#[test]
fn applies_section_4q_spousal_deduction() {
    let mut input = baseline_input();
    input.assets.extend([
        EstateAsset {
            name: "Spouse bequest".to_string(),
            market_value_zar: zar(20_000_000),
            base_cost_zar: zar(20_000_000),
            is_liquid: false,
            situs_in_south_africa: true,
            included_in_estate_duty: true,
            included_in_cgt_deemed_disposal: false,
            bequeathed_to_surviving_spouse: true,
            bequeathed_to_pbo: false,
            qualifies_primary_residence_exclusion: false,
        },
        EstateAsset {
            name: "Non-spouse bequest".to_string(),
            market_value_zar: zar(5_000_000),
            base_cost_zar: zar(5_000_000),
            is_liquid: false,
            situs_in_south_africa: true,
            included_in_estate_duty: true,
            included_in_cgt_deemed_disposal: false,
            bequeathed_to_surviving_spouse: false,
            bequeathed_to_pbo: false,
            qualifies_primary_residence_exclusion: false,
        },
    ]);

    let result = calculate_combined_tax_and_liquidity(&input);
    assert_eq!(result.estate_duty.section_4q_spousal_deduction_zar, zar(20_000_000));
    assert_eq!(result.estate_duty.tax_payable_zar, zar(300_000));
    assert_eq!(result.estate_duty.dutiable_estate_after_abatement_zar, zar(1_500_000));
}

#[test]
fn excludes_foreign_assets_for_non_resident_estate_duty_scope() {
    let mut input = baseline_input();
    input.residency_status = ResidencyStatus::NonResident;
    input.assets.extend([
        EstateAsset {
            name: "SA situs asset".to_string(),
            market_value_zar: zar(10_000_000),
            base_cost_zar: zar(10_000_000),
            is_liquid: false,
            situs_in_south_africa: true,
            included_in_estate_duty: true,
            included_in_cgt_deemed_disposal: false,
            bequeathed_to_surviving_spouse: false,
            bequeathed_to_pbo: false,
            qualifies_primary_residence_exclusion: false,
        },
        EstateAsset {
            name: "Foreign situs asset".to_string(),
            market_value_zar: zar(50_000_000),
            base_cost_zar: zar(50_000_000),
            is_liquid: false,
            situs_in_south_africa: false,
            included_in_estate_duty: true,
            included_in_cgt_deemed_disposal: false,
            bequeathed_to_surviving_spouse: false,
            bequeathed_to_pbo: false,
            qualifies_primary_residence_exclusion: false,
        },
    ]);

    let result = calculate_combined_tax_and_liquidity(&input);
    assert_eq!(result.estate_duty.gross_estate_for_estate_duty_zar, zar(10_000_000));
}

#[test]
fn executor_fee_runs_over_every_asset_with_vat_on_top() {
    let mut input = baseline_input();
    input.explicit_executor_fee_zar = None;
    input.residency_status = ResidencyStatus::NonResident;
    let mut foreign = asset("Foreign", zar(600_000), zar(600_000));
    foreign.situs_in_south_africa = false;
    input.assets.push(asset("Local", zar(400_000), zar(400_000)));
    input.assets.push(foreign);

    let result = calculate_combined_tax_and_liquidity(&input);
    assert_eq!(result.estate_duty.gross_estate_for_estate_duty_zar, zar(400_000));
    assert_eq!(result.estate_duty.executor_fee_zar, zar(40_250));
    assert_eq!(result.liquidity.executor_fee_zar, zar(40_250));
    assert_eq!(result.estate_duty.total_allowable_deductions_zar, zar(40_250));
}

#[test]
fn natural_person_uses_the_annual_exclusion() {
    let mut input = baseline_input();
    let mut shares = asset("Shares", zar(1_000_000), zar(500_000));
    shares.included_in_cgt_deemed_disposal = true;
    input.assets.push(shares);

    let result = calculate_combined_tax_and_liquidity(&input);
    assert_eq!(result.cgt.gross_capital_gain_zar, zar(500_000));
    assert_eq!(result.cgt.annual_exclusion_used_zar, zar(300_000));
    assert_eq!(result.cgt.inclusion_rate, 400_000);
    assert_eq!(result.cgt.taxable_capital_gain_in_income_zar, zar(80_000));
    assert_eq!(result.cgt.tax_payable_zar, zar(36_000));
    assert_eq!(result.combined_tax.cgt_on_death_zar, zar(36_000));
    assert_eq!(result.estate_duty.total_allowable_deductions_zar, zar(36_000));
}

#[test]
fn company_and_trust_use_no_annual_exclusion() {
    for class in [TaxPayerClass::Company, TaxPayerClass::Trust] {
        let mut input = baseline_input();
        input.taxpayer_class = class;
        let mut shares = asset("Shares", zar(1_000_000), zar(700_000));
        shares.included_in_cgt_deemed_disposal = true;
        input.assets.push(shares);

        let result = calculate_combined_tax_and_liquidity(&input);
        assert_eq!(result.cgt.gross_capital_gain_zar, zar(300_000));
        assert_eq!(result.cgt.annual_exclusion_used_zar, zar(0));
        assert_eq!(result.cgt.taxable_capital_gain_in_income_zar, zar(240_000));
        assert_eq!(result.cgt.tax_payable_zar, zar(108_000));
    }
}

#[test]
fn primary_residence_exclusion_is_one_pool_in_list_order() {
    let mut input = baseline_input();
    let mut first = asset("First home", zar(2_500_000), zar(1_000_000));
    first.included_in_cgt_deemed_disposal = true;
    first.qualifies_primary_residence_exclusion = true;
    let mut second = asset("Second home", zar(2_500_000), zar(1_000_000));
    second.included_in_cgt_deemed_disposal = true;
    second.qualifies_primary_residence_exclusion = true;
    input.assets.push(first);
    input.assets.push(second);

    let result = calculate_combined_tax_and_liquidity(&input);
    assert_eq!(result.cgt.primary_residence_exclusion_used_zar, zar(2_000_000));
    assert_eq!(result.cgt.gross_capital_gain_zar, zar(1_000_000));
    assert_eq!(result.cgt.annual_exclusion_used_zar, zar(300_000));
    assert_eq!(result.cgt.taxable_capital_gain_in_income_zar, zar(280_000));
    assert_eq!(result.cgt.tax_payable_zar, zar(126_000));
}

#[test]
fn liquidity_shows_either_a_gap_or_a_surplus() {
    let mut input = baseline_input();
    let mut cash = asset("Cash", zar(10_000_000), zar(10_000_000));
    cash.is_liquid = true;
    input.assets.push(cash);
    input.funeral_costs_zar = zar(50_000);
    input.cash_reserve_zar = zar(25_000);

    let result = calculate_combined_tax_and_liquidity(&input);
    // dutiable = 10_000_000 - 50_000 - 3_500_000 = 6_450_000; duty = 1_290_000
    assert_eq!(result.estate_duty.tax_payable_zar, zar(1_290_000));
    assert_eq!(result.combined_tax.total_tax_liability_zar, zar(1_290_000));
    assert_eq!(result.liquidity.immediate_cash_requirements_zar, zar(1_340_000));
    assert_eq!(result.liquidity.total_available_liquidity_zar, zar(10_025_000));
    assert_eq!(result.liquidity.liquidity_gap_zar, zar(0));
    assert_eq!(result.liquidity.liquidity_surplus_zar, zar(8_685_000));
    assert_eq!(
        result.liquidity.liquidity_gap_zar * result.liquidity.liquidity_surplus_zar,
        0
    );
}

#[test]
fn negative_amounts_are_floored_at_zero() {
    let mut input = baseline_input();
    input.assets.push(asset("Estate", zar(5_000_000), zar(5_000_000)));
    input.assets.push(asset("Worthless", zar(-1_000_000), zar(0)));
    input.funeral_costs_zar = zar(-10);
    input.cash_reserve_zar = zar(-5);

    let result = calculate_combined_tax_and_liquidity(&input);
    assert_eq!(result.estate_duty.gross_estate_for_estate_duty_zar, zar(5_000_000));
    assert_eq!(result.estate_duty.total_allowable_deductions_zar, zar(0));
    assert_eq!(result.liquidity.cash_reserve_zar, zar(0));
    assert_eq!(result.estate_duty.tax_payable_zar, zar(300_000));
}

#[test]
fn duty_follows_the_two_band_schedule() {
    let rules = baseline_tax_rules_for(Jurisdiction::SouthAfrica);
    assert_eq!(estate_duty_on(zar(0), &rules.estate_duty), zar(0));
    assert_eq!(estate_duty_on(zar(30_000_000), &rules.estate_duty), zar(6_000_000));
    // one rand above the cap bears the secondary rate: a quarter of a rand
    assert_eq!(
        estate_duty_on(zar(30_000_001), &rules.estate_duty),
        zar(6_000_000) + 250_000
    );
    assert_eq!(estate_duty_on(zar(30_000_004), &rules.estate_duty), zar(6_000_001));
    assert_eq!(estate_duty_on(zar(30_000_100), &rules.estate_duty), zar(6_000_025));
    // one rand below the cap bears the primary rate: a fifth of a rand less
    assert_eq!(
        estate_duty_on(zar(29_999_999), &rules.estate_duty),
        zar(6_000_000) - 200_000
    );
    // below a millionth of a rand the duty rounds down
    assert_eq!(estate_duty_on(zar(30_000_000) + 3, &rules.estate_duty), zar(6_000_000));
    assert_eq!(estate_duty_on(zar(30_000_000) + 4, &rules.estate_duty), zar(6_000_000) + 1);
    let mut previous = 0;
    for dutiable in [
        0i128,
        1,
        4,
        5,
        zar(1),
        zar(29_999_999),
        zar(30_000_000),
        zar(30_000_000) + 4,
        zar(30_000_001),
        zar(90_000_000),
    ] {
        let duty = estate_duty_on(dutiable, &rules.estate_duty);
        assert!(duty >= previous);
        previous = duty;
    }
}

#[test]
fn charges_one_rand_above_the_cap_at_the_secondary_rate() {
    let mut input = baseline_input();
    input.assets.push(asset("Estate", zar(33_500_001), zar(33_500_001)));

    let result = calculate_combined_tax_and_liquidity(&input);
    assert_eq!(
        result.estate_duty.dutiable_estate_after_abatement_zar,
        zar(30_000_001)
    );
    assert_eq!(result.estate_duty.tax_payable_zar, zar(6_000_000) + 250_000);

    let at_cap = {
        let mut input = baseline_input();
        input.assets.push(asset("Estate", zar(33_500_000), zar(33_500_000)));
        calculate_combined_tax_and_liquidity(&input)
    };
    assert_eq!(at_cap.estate_duty.tax_payable_zar, zar(6_000_000));
    assert_eq!(
        result.estate_duty.tax_payable_zar - at_cap.estate_duty.tax_payable_zar,
        250_000
    );
}

#[test]
fn fractions_of_a_rand_are_kept() {
    let mut input = baseline_input();
    input.explicit_executor_fee_zar = None;
    let mut shares = asset("Shares", zar(300_001), 0);
    shares.included_in_estate_duty = false;
    shares.included_in_cgt_deemed_disposal = true;
    input.assets.push(shares);

    let result = calculate_combined_tax_and_liquidity(&input);
    // one rand of gain above the annual exclusion: 0.40 included, 0.18 tax
    assert_eq!(result.cgt.taxable_capital_gain_in_income_zar, 400_000);
    assert_eq!(result.cgt.tax_payable_zar, 180_000);
    // 300_001 * 0.035 * 1.15 = 12_075.04025
    assert_eq!(result.estate_duty.executor_fee_zar, zar(12_075) + 40_250);
}

#[test]
fn calculator_built_with_rules_matches_the_entry_points() {
    let mut input = baseline_input();
    input.assets.push(asset("Estate", zar(12_000_000), zar(12_000_000)));
    let rules = baseline_tax_rules_for(Jurisdiction::SouthAfrica);

    let direct = calculate_combined_tax_and_liquidity(&input);
    let with_rules = calculate_with_rules(&input, rules);
    let through_trait = SouthAfricaScenarioCalculator::new(&input).calculate(&input);
    assert_eq!(direct, with_rules);
    assert_eq!(direct, through_trait);
    assert_eq!(direct.estate_duty.tax_payable_zar, zar(1_700_000));
}
