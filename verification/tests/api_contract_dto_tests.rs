use estate_engine::contracts::{ApiErrorCode, ApiEstateAssetInput, ApiEstateScenarioInput};
use estate_engine::handler::{
    calculate_single_scenario_contract, optimize_candidate_scenarios_contract,
};
use estate_engine::models::EstateScenarioInput;
use estate_engine::money::RAND;


fn zar<T: From<i64> + std::ops::Mul<Output = T>>(amount: T) -> T {
    amount * T::from(RAND)
}
fn valid_contract_input() -> ApiEstateScenarioInput {
    let mut input = ApiEstateScenarioInput::from(EstateScenarioInput::default());
    input.assets = vec![ApiEstateAssetInput {
        name: "Contract Asset".to_string(),
        market_value_zar: zar(1_000_000),
        base_cost_zar: zar(700_000),
        is_liquid: true,
        situs_in_south_africa: true,
        included_in_estate_duty: true,
        included_in_cgt_deemed_disposal: true,
        bequeathed_to_surviving_spouse: false,
        bequeathed_to_pbo: false,
        qualifies_primary_residence_exclusion: false,
    }];
    input.explicit_executor_fee_zar = Some(zar(0));
    input
}

#[test]
fn contract_input_maps_to_domain_input() {
    let input = valid_contract_input();
    let domain: EstateScenarioInput = input.clone().into();

    assert_eq!(domain.jurisdiction, input.jurisdiction.into());
    assert_eq!(domain.tax_year, input.tax_year);
    assert_eq!(domain.assets.len(), 1);
    assert_eq!(domain.assets[0].name, "Contract Asset");
}

#[test]
fn calculate_single_scenario_contract_returns_api_result() {
    let input = valid_contract_input();
    let result = calculate_single_scenario_contract(input)
        .expect("Expected contract scenario calculation to succeed");

    assert!(result.combined_tax.total_tax_liability_zar >= zar(0));
    assert!(result.liquidity.total_available_liquidity_zar >= zar(0));
}

#[test]
fn calculate_single_scenario_contract_returns_api_validation_error() {
    let mut input = valid_contract_input();
    input.assets.clear();

    let err = calculate_single_scenario_contract(input)
        .expect_err("Expected contract scenario calculation to fail validation");
    assert_eq!(err.code, ApiErrorCode::Validation);
    assert!(err
        .validation_issues
        .iter()
        .any(|issue| issue.field == "assets"));
}

#[test]
fn optimize_candidate_scenarios_contract_returns_api_validation_error() {
    let valid = valid_contract_input();
    let mut invalid = valid_contract_input();
    invalid.assets[0].name = "".to_string();

    let err = optimize_candidate_scenarios_contract(vec![valid, invalid])
        .expect_err("Expected contract optimization to fail validation");
    assert_eq!(err.code, ApiErrorCode::Validation);
    assert!(err
        .validation_issues
        .iter()
        .any(|issue| issue.field == "candidates[1].assets[0].name"));
}

#[test]
fn contract_records_round_trip_and_carry_the_choice() {
    let first = valid_contract_input();
    let mut second = valid_contract_input();
    second.assets[0].market_value_zar = zar(50_000_000);
    second.assets[0].base_cost_zar = zar(50_000_000);
    second.assets[0].is_liquid = false;

    let domain: EstateScenarioInput = second.clone().into();
    assert_eq!(ApiEstateScenarioInput::from(domain), second);

    let best = optimize_candidate_scenarios_contract(vec![second, first.clone()])
        .expect("valid candidates")
        .expect("some candidate");
    assert_eq!(best.index, 1);
    assert_eq!(best.input, first);
    assert_eq!(best.result.liquidity.total_available_liquidity_zar, zar(1_000_000));
    assert_eq!(best.score.composite_score, 0);
}
