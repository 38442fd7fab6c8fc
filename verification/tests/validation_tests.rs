use estate_engine::errors::EngineError;
use estate_engine::handler::{calculate_single_scenario, optimize_candidate_scenarios};
use estate_engine::models::{EstateAsset, EstateScenarioInput, ResidencyStatus};
use estate_engine::money::RAND;
use estate_engine::rules::{Jurisdiction, TaxPayerClass};


fn zar<T: From<i64> + std::ops::Mul<Output = T>>(amount: T) -> T {
    amount * T::from(RAND)
}
fn valid_input() -> EstateScenarioInput {
    EstateScenarioInput {
        jurisdiction: Jurisdiction::SouthAfrica,
        taxpayer_class: TaxPayerClass::NaturalPerson,
        residency_status: ResidencyStatus::Resident,
        marginal_income_tax_rate: 450_000,
        assets: vec![EstateAsset {
            name: "Test Asset".to_string(),
            market_value_zar: zar(1_000_000),
            base_cost_zar: zar(700_000),
            is_liquid: true,
            situs_in_south_africa: true,
            included_in_estate_duty: true,
            included_in_cgt_deemed_disposal: true,
            bequeathed_to_surviving_spouse: false,
            bequeathed_to_pbo: false,
            qualifies_primary_residence_exclusion: false,
        }],
        explicit_executor_fee_zar: Some(zar(0)),
        ..EstateScenarioInput::default()
    }
}

#[test]
fn rejects_empty_assets() {
    let mut input = valid_input();
    input.assets.clear();

    let err = input.validate().expect_err("Expected validation to fail");
    assert!(!err.is_empty());
    assert!(err.issues.iter().any(|i| i.field == "assets"));
}

#[test]
fn rejects_out_of_range_rates() {
    let mut input = valid_input();
    input.marginal_income_tax_rate = 1_500_000;
    input.vat_rate = -100_000;

    let err = input.validate().expect_err("Expected validation to fail");
    assert!(err
        .issues
        .iter()
        .any(|i| i.field == "marginal_income_tax_rate"));
    assert!(err.issues.iter().any(|i| i.field == "vat_rate"));
}

#[test]
fn rejects_negative_amounts() {
    let mut input = valid_input();
    input.funeral_costs_zar = zar(-10);
    input.assets[0].market_value_zar = zar(-100);

    let err = input.validate().expect_err("Expected validation to fail");
    assert!(err.issues.iter().any(|i| i.field == "funeral_costs_zar"));
    assert!(err
        .issues
        .iter()
        .any(|i| i.field == "assets[0].market_value_zar"));
}

#[test]
fn api_calculate_rejects_invalid_input() {
    let mut input = valid_input();
    input.executor_fee_rate = 2_000_000;

    let err = calculate_single_scenario(&input).expect_err("Expected API validation error");
    let EngineError::Validation(err) = err else {
        panic!("Expected validation error");
    };
    assert!(err.issues.iter().any(|i| i.field == "executor_fee_rate"));
}

#[test]
fn api_optimize_rejects_invalid_candidate() {
    let valid = valid_input();
    let mut invalid = valid_input();
    invalid.assets[0].name = "".to_string();

    let err = optimize_candidate_scenarios(vec![valid, invalid])
        .expect_err("Expected API validation error");
    let EngineError::Validation(err) = err else {
        panic!("Expected validation error");
    };
    assert!(err
        .issues
        .iter()
        .any(|i| i.field == "candidates[1].assets[0].name"));
}

#[test]
fn rejects_spouse_or_pbo_bequest_when_not_in_estate_duty_scope() {
    let mut input = valid_input();
    input.assets[0].included_in_estate_duty = false;
    input.assets[0].bequeathed_to_surviving_spouse = true;

    let err = input.validate().expect_err("Expected validation to fail");
    assert!(err
        .issues
        .iter()
        .any(|i| i.field == "assets[0].included_in_estate_duty"));
}

#[test]
fn rejects_primary_residence_flag_without_cgt_inclusion() {
    let mut input = valid_input();
    input.assets[0].qualifies_primary_residence_exclusion = true;
    input.assets[0].included_in_cgt_deemed_disposal = false;

    let err = input.validate().expect_err("Expected validation to fail");
    assert!(err
        .issues
        .iter()
        .any(|i| i.field == "assets[0].included_in_cgt_deemed_disposal"));
}

#[test]
fn rejects_primary_residence_exclusion_for_company() {
    let mut input = valid_input();
    input.taxpayer_class = TaxPayerClass::Company;
    input.primary_residence_cgt_exclusion_cap_zar = zar(2_000_000);
    input.assets[0].qualifies_primary_residence_exclusion = true;

    let err = input.validate().expect_err("Expected validation to fail");
    assert!(err
        .issues
        .iter()
        .any(|i| i.field == "primary_residence_cgt_exclusion_cap_zar"));
    assert!(err
        .issues
        .iter()
        .any(|i| i.field == "assets[0].qualifies_primary_residence_exclusion"));
}

#[test]
fn rejects_non_resident_foreign_asset_marked_for_estate_duty() {
    let mut input = valid_input();
    input.residency_status = ResidencyStatus::NonResident;
    input.assets[0].situs_in_south_africa = false;
    input.assets[0].included_in_estate_duty = true;

    let err = input.validate().expect_err("Expected validation to fail");
    assert!(err
        .issues
        .iter()
        .any(|i| i.field == "assets[0].situs_in_south_africa"));
}

#[test]
fn accepts_a_valid_scenario_and_calculates_it() {
    let input = valid_input();
    assert!(input.validate().is_ok());
    assert!(input.collect_issues().is_empty());

    let result = calculate_single_scenario(&input).expect("valid scenario");
    // gain 300_000 is covered by the annual exclusion; the estate is below the abatement
    assert_eq!(result.cgt.tax_payable_zar, zar(0));
    assert_eq!(result.estate_duty.tax_payable_zar, zar(0));
    assert_eq!(result.liquidity.liquidity_surplus_zar, zar(1_000_000));
}

#[test]
fn rejects_a_name_of_whitespace_only() {
    let mut input = valid_input();
    input.assets[0].name = " \t\n ".to_string();

    let err = input.validate().expect_err("Expected validation to fail");
    assert_eq!(err.issues.len(), 1);
    assert_eq!(err.issues[0].field, "assets[0].name");
    assert_eq!(err.issues[0].message, "Asset name cannot be empty");

    input.assets[0].name = "  Farm  ".to_string();
    assert!(input.validate().is_ok());
}

#[test]
fn rejects_amounts_and_rates_at_the_ends_of_their_range() {
    let mut input = valid_input();
    input.cash_reserve_zar = i64::MAX;
    input.debts_and_loans_zar = i64::MIN;
    input.vat_rate = i64::MAX;

    let err = input.validate().expect_err("Expected validation to fail");
    let texts: Vec<(String, String)> = err
        .issues
        .iter()
        .map(|i| (i.field.clone(), i.message.clone()))
        .collect();
    assert_eq!(
        texts,
        vec![
            ("vat_rate".to_string(), "Rate must be finite".to_string()),
            ("debts_and_loans_zar".to_string(), "Value must be finite".to_string()),
            ("cash_reserve_zar".to_string(), "Value must be finite".to_string()),
        ]
    );
}

#[test]
fn reports_issues_in_check_order_with_their_messages() {
    let mut input = valid_input();
    input.tax_year = 2017;
    input.marginal_income_tax_rate = 1_000_001;
    input.explicit_executor_fee_zar = Some(zar(-1));
    input.assets[0].bequeathed_to_surviving_spouse = true;
    input.assets[0].bequeathed_to_pbo = true;

    let err = input.validate().expect_err("Expected validation to fail");
    let texts: Vec<(String, String)> = err
        .issues
        .iter()
        .map(|i| (i.field.clone(), i.message.clone()))
        .collect();
    assert_eq!(
        texts,
        vec![
            (
                "tax_year".to_string(),
                "Tax year 2017 is not supported for SouthAfrica".to_string()
            ),
            (
                "marginal_income_tax_rate".to_string(),
                "Rate must be between 0.0 and 1.0 (inclusive)".to_string()
            ),
            (
                "explicit_executor_fee_zar".to_string(),
                "Value cannot be negative".to_string()
            ),
            (
                "assets[0].bequests".to_string(),
                "Asset cannot be bequeathed to both spouse and PBO".to_string()
            ),
        ]
    );
}

#[test]
fn requires_an_asset_with_positive_value() {
    let mut input = valid_input();
    input.assets[0].market_value_zar = zar(0);
    input.assets[0].base_cost_zar = zar(0);

    let err = input.validate().expect_err("Expected validation to fail");
    assert_eq!(err.issues.len(), 1);
    assert_eq!(err.issues[0].field, "assets");
    assert_eq!(
        err.issues[0].message,
        "At least one asset must have `market_value_zar > 0`"
    );
}

#[test]
fn asset_paths_carry_the_decimal_position() {
    let mut input = valid_input();
    for position in 1..=12 {
        let mut extra = input.assets[0].clone();
        extra.name = format!("Asset {position}");
        input.assets.push(extra);
    }
    input.assets[10].base_cost_zar = zar(-1);
    input.assets[12].name = String::new();

    let err = input.validate().expect_err("Expected validation to fail");
    let fields: Vec<String> = err.issues.iter().map(|i| i.field.clone()).collect();
    assert_eq!(
        fields,
        vec!["assets[10].base_cost_zar".to_string(), "assets[12].name".to_string()]
    );
}

#[test]
fn optimize_collects_the_issues_of_every_candidate() {
    let mut first = valid_input();
    first.vat_rate = -1;
    let second = valid_input();
    let mut third = valid_input();
    third.assets.clear();

    let err = optimize_candidate_scenarios(vec![first, second, third])
        .expect_err("Expected API validation error");
    let EngineError::Validation(err) = err else {
        panic!("Expected validation error");
    };
    let fields: Vec<String> = err.issues.iter().map(|i| i.field.clone()).collect();
    assert_eq!(
        fields,
        vec!["candidates[0].vat_rate".to_string(), "candidates[2].assets".to_string()]
    );
}

#[test]
fn validation_sets_no_limit_on_the_number_of_assets() {
    let mut input = valid_input();
    let template = input.assets[0].clone();
    input.assets = vec![template; estate_engine::money::MAX_ASSETS + 1];

    assert!(input.validate().is_ok());
    assert!(input.collect_issues().is_empty());
}

#[test]
fn calculation_answers_too_many_assets_with_a_computation_error() {
    let mut input = valid_input();
    let template = input.assets[0].clone();
    input.assets = vec![template; estate_engine::money::MAX_ASSETS + 1];

    let err = calculate_single_scenario(&input).expect_err("beyond the asset limit");
    assert_eq!(
        err,
        EngineError::Computation(
            "Scenario lists more assets than a calculation can take".to_string()
        )
    );
}

#[test]
fn optimization_answers_too_many_assets_with_a_computation_error() {
    let mut input = valid_input();
    let template = input.assets[0].clone();
    input.assets = vec![template; estate_engine::money::MAX_ASSETS + 1];

    let err = optimize_candidate_scenarios(vec![valid_input(), input])
        .expect_err("beyond the asset limit");
    assert_eq!(
        err,
        EngineError::Computation(
            "Scenario lists more assets than a calculation can take".to_string()
        )
    );
}

#[test]
fn calculation_takes_as_many_assets_as_the_limit() {
    let mut input = valid_input();
    let template = input.assets[0].clone();
    input.assets = vec![template; estate_engine::money::MAX_ASSETS];

    let result = calculate_single_scenario(&input).expect("within the asset limit");
    assert_eq!(
        result.estate_duty.gross_estate_for_estate_duty_zar,
        zar(1_000_000i128) * 1_000_000
    );
}

#[test]
fn validation_comes_before_the_asset_limit() {
    let mut input = valid_input();
    let template = input.assets[0].clone();
    input.assets = vec![template; estate_engine::money::MAX_ASSETS + 1];
    input.vat_rate = -1;

    let err = calculate_single_scenario(&input).expect_err("invalid scenario");
    let EngineError::Validation(err) = err else {
        panic!("Expected validation error");
    };
    assert_eq!(err.issues.len(), 1);
    assert_eq!(err.issues[0].field, "vat_rate");
}
