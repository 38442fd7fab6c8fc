use estate_engine::contracts::ApiErrorCode;
use estate_engine::errors::EngineError;
use estate_engine::handler::{
    calculate_single_scenario_api, resolve_tax_rules_for_year_api, to_api_error_response,
};
use estate_engine::models::EstateScenarioInput;
use estate_engine::rules::Jurisdiction;
use estate_engine::validation::{InputValidationError, ValidationIssue};

#[test]
fn api_scenario_wrapper_returns_validation_error_contract() {
    let input = EstateScenarioInput::default();

    let err = calculate_single_scenario_api(&input)
        .expect_err("Expected API wrapper to return validation error contract");

    assert_eq!(err.code, ApiErrorCode::Validation);
    assert!(!err.validation_issues.is_empty());
    assert!(err
        .validation_issues
        .iter()
        .any(|issue| issue.field == "assets"));
}

#[test]
fn api_rule_resolution_wrapper_returns_rule_selection_error_contract() {
    let err = resolve_tax_rules_for_year_api(Jurisdiction::SouthAfrica, 2017)
        .expect_err("Expected unsupported year to map to API error contract");

    assert_eq!(err.code, ApiErrorCode::RuleSelection);
    assert!(err.validation_issues.is_empty());
    assert!(err.message.contains("2017"));
}

#[test]
fn maps_computation_error_to_api_contract() {
    let err = to_api_error_response(EngineError::Computation("calculation overflow".to_string()));
    assert_eq!(err.code, ApiErrorCode::Computation);
    assert_eq!(err.message, "calculation overflow");
    assert!(err.validation_issues.is_empty());
}

#[test]
fn maps_validation_error_to_api_contract_with_issues() {
    let validation = InputValidationError::new(vec![ValidationIssue::new(
        "tax_year".to_string(),
        "Tax year is not supported",
    )]);
    let err = to_api_error_response(EngineError::Validation(validation));
    assert_eq!(err.code, ApiErrorCode::Validation);
    assert_eq!(err.validation_issues.len(), 1);
    assert_eq!(err.validation_issues[0].field, "tax_year");
}

#[test]
fn validation_response_carries_the_full_report() {
    let validation = InputValidationError::new(vec![
        ValidationIssue::new("tax_year".to_string(), "Tax year is not supported"),
        ValidationIssue::new("assets".to_string(), "At least one asset is required"),
    ]);
    let err = to_api_error_response(EngineError::Validation(validation));
    assert_eq!(
        err.message,
        "Input validation failed:\n- tax_year: Tax year is not supported\n- assets: At least one asset is required\n"
    );
    assert_eq!(err.validation_issues[1].message, "At least one asset is required");
}

#[test]
fn empty_validation_error_reports_no_issues() {
    let validation = InputValidationError::new(Vec::new());
    assert!(validation.is_empty());
    assert_eq!(validation.to_string(), "No validation issues");
}

#[test]
fn engine_error_messages_follow_their_kind() {
    let computation = EngineError::Computation("calculation overflow".to_string());
    assert_eq!(computation.to_string(), "Computation error: calculation overflow");
    let selection = estate_engine::rules::TaxRuleSelectionError::UnsupportedTaxYear {
        jurisdiction: Jurisdiction::SouthAfrica,
        tax_year: 2017,
    };
    assert_eq!(
        EngineError::from(selection).to_string(),
        "No tax rule version found for jurisdiction SouthAfrica and tax year 2017"
    );
}
