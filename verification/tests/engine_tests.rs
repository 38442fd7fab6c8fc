use estate_engine::config::{resolve_bind_addr, resolve_database_url};
use estate_engine::contracts::{ApiErrorCode, ApiJurisdiction};
use estate_engine::handler::{
    api_error_to_http, health, not_found_response, optimize_candidate_scenarios,
    parse_jurisdiction, to_api_error_response,
};
use estate_engine::errors::EngineError;
use estate_engine::models::{EstateAsset, EstateScenarioInput, ResidencyStatus};
use estate_engine::money::RAND;
use estate_engine::optimizer::{evaluate_candidate, optimize_scenarios};
use estate_engine::rules::{Jurisdiction, TaxPayerClass, TaxRuleSelectionError};
use estate_engine::scenario::calculate_combined_tax_and_liquidity;
use estate_engine::scoring::{score_scenario, LiquidityRiskBand};
use estate_engine::south_africa::south_africa_jurisdiction_baseline;
use estate_engine::stress::{
    run_checked_liquidity_stress_grid, run_liquidity_stress_grid, shock_is_representable,
};
use estate_engine::text::decimal_string;

fn zar<T: From<i64> + std::ops::Mul<Output = T>>(amount: T) -> T {
    amount * T::from(RAND)
}

fn estate(market_value_zar: i64, is_liquid: bool) -> EstateScenarioInput {
    EstateScenarioInput {
        jurisdiction: Jurisdiction::SouthAfrica,
        taxpayer_class: TaxPayerClass::NaturalPerson,
        residency_status: ResidencyStatus::Resident,
        marginal_income_tax_rate: 450_000,
        assets: vec![EstateAsset {
            name: "Estate".to_string(),
            market_value_zar,
            base_cost_zar: market_value_zar,
            is_liquid,
            situs_in_south_africa: true,
            included_in_estate_duty: true,
            included_in_cgt_deemed_disposal: false,
            bequeathed_to_surviving_spouse: false,
            bequeathed_to_pbo: false,
            qualifies_primary_residence_exclusion: false,
        }],
        explicit_executor_fee_zar: Some(0),
        ..EstateScenarioInput::default()
    }
}

#[test]
fn scores_an_illiquid_estate_as_critical() {
    let result = calculate_combined_tax_and_liquidity(&estate(zar(40_000_000), false));
    let score = score_scenario(&result);
    assert_eq!(score.tax_burden_ratio, 190_625);
    assert_eq!(score.liquidity_cover_ratio, 0);
    assert_eq!(score.liquidity_risk_band, LiquidityRiskBand::Critical);
    assert_eq!(score.composite_score, 219_062_500);
}

#[test]
fn risk_bands_include_their_lower_bounds() {
    // duty on 13_500_000 is 2_000_000, which is the whole cash requirement
    let cases = [
        (zar(2_400_000), LiquidityRiskBand::Low, 1_200_000),
        (zar(2_399_999) + 999_999, LiquidityRiskBand::Moderate, 1_199_999),
        (zar(2_000_000), LiquidityRiskBand::Moderate, 1_000_000),
        (zar(1_999_999) + 999_999, LiquidityRiskBand::High, 999_999),
        (zar(1_600_000), LiquidityRiskBand::High, 800_000),
        (zar(1_599_999) + 999_999, LiquidityRiskBand::Critical, 799_999),
    ];
    for (reserve, band, cover) in cases {
        let mut input = estate(zar(13_500_000), false);
        input.cash_reserve_zar = reserve;
        let result = calculate_combined_tax_and_liquidity(&input);
        assert_eq!(result.liquidity.immediate_cash_requirements_zar, zar(2_000_000));
        let score = score_scenario(&result);
        assert_eq!(score.liquidity_cover_ratio, cover);
        assert_eq!(score.liquidity_risk_band, band);
    }
}

#[test]
fn score_of_an_empty_estate_divides_by_one() {
    let mut input = estate(zar(0), false);
    input.final_income_tax_due_zar = zar(7);
    let result = calculate_combined_tax_and_liquidity(&input);
    let score = score_scenario(&result);
    assert_eq!(score.tax_burden_ratio, 7_000_000);
    assert_eq!(score.liquidity_cover_ratio, 0);
    assert_eq!(score.composite_score, 900_000_000);
}

#[test]
fn optimizer_returns_none_for_an_empty_batch() {
    let best = optimize_scenarios(Vec::new()).expect("empty batch");
    assert!(best.is_none());
    let checked = optimize_candidate_scenarios(Vec::new()).expect("empty batch");
    assert!(checked.is_none());
}

#[test]
fn optimizer_returns_the_only_candidate() {
    let best = optimize_scenarios(vec![estate(zar(40_000_000), false)])
        .expect("supported year")
        .expect("one candidate");
    assert_eq!(best.index, 0);
    assert_eq!(best.input.assets[0].market_value_zar, zar(40_000_000));
    assert_eq!(best.result.estate_duty.tax_payable_zar, zar(7_625_000));
    assert_eq!(best.score.composite_score, 219_062_500);
}

#[test]
fn optimizer_picks_the_lowest_score_and_the_earliest_on_a_tie() {
    let candidates = vec![
        estate(zar(40_000_000), false),
        estate(zar(3_000_000), true),
        estate(zar(40_000_000), true),
        estate(zar(3_000_000), true),
    ];
    let mut scores = Vec::new();
    for candidate in &candidates {
        let (_, score) = evaluate_candidate(candidate).expect("supported year");
        scores.push(score.composite_score);
    }
    assert_eq!(scores[1], 0);
    assert_eq!(scores[3], 0);

    let best = optimize_scenarios(candidates).expect("supported year").expect("some candidate");
    assert_eq!(best.index, 1);
    for score in scores {
        assert!(best.score.composite_score <= score);
    }
}

#[test]
fn optimizer_fails_on_the_first_candidate_without_rules() {
    let mut early = estate(zar(1_000_000), true);
    early.tax_year = 2016;
    let mut late = estate(zar(1_000_000), true);
    late.tax_year = 2001;
    let err = optimize_scenarios(vec![estate(zar(1_000_000), true), early, late])
        .expect_err("unsupported year");
    assert_eq!(
        err,
        TaxRuleSelectionError::UnsupportedTaxYear {
            jurisdiction: Jurisdiction::SouthAfrica,
            tax_year: 2016,
        }
    );
}

#[test]
fn stress_without_shock_reproduces_the_calculation() {
    let mut base = estate(zar(40_000_000), false);
    base.assets.push(EstateAsset {
        name: "Cash".to_string(),
        market_value_zar: zar(2_000_000),
        base_cost_zar: zar(2_000_000),
        is_liquid: true,
        situs_in_south_africa: true,
        included_in_estate_duty: true,
        included_in_cgt_deemed_disposal: true,
        bequeathed_to_surviving_spouse: false,
        bequeathed_to_pbo: false,
        qualifies_primary_residence_exclusion: false,
    });
    assert!(shock_is_representable(&base, 0));
    let grid = run_liquidity_stress_grid(&base, &[0], &[0]).expect("supported year");
    assert_eq!(grid.len(), 1);
    assert_eq!(grid[0].market_value_shock, 0);
    assert_eq!(grid[0].liquid_asset_haircut, 0);
    assert_eq!(grid[0].outcome, calculate_combined_tax_and_liquidity(&base));
}

#[test]
fn stress_grid_runs_shocks_outside_and_haircuts_inside() {
    let mut base = estate(zar(10_000_000), false);
    base.assets.push(EstateAsset {
        name: "Cash".to_string(),
        market_value_zar: zar(1_000_000),
        base_cost_zar: zar(1_000_000),
        is_liquid: true,
        situs_in_south_africa: true,
        included_in_estate_duty: false,
        included_in_cgt_deemed_disposal: false,
        bequeathed_to_surviving_spouse: false,
        bequeathed_to_pbo: false,
        qualifies_primary_residence_exclusion: false,
    });
    let shocks = [-500_000, 0, 200_000];
    let haircuts = [0, 100_000];
    for shock in shocks {
        assert!(shock_is_representable(&base, shock));
    }
    let grid = run_liquidity_stress_grid(&base, &shocks, &haircuts).expect("supported year");
    assert_eq!(grid.len(), 6);
    let pairs: Vec<(i64, i64)> = grid
        .iter()
        .map(|cell| (cell.market_value_shock, cell.liquid_asset_haircut))
        .collect();
    assert_eq!(
        pairs,
        vec![
            (-500_000, 0),
            (-500_000, 100_000),
            (0, 0),
            (0, 100_000),
            (200_000, 0),
            (200_000, 100_000)
        ]
    );
    assert_eq!(grid[0].outcome.liquidity.liquid_assets_in_estate_zar, zar(500_000));
    assert_eq!(grid[1].outcome.liquidity.liquid_assets_in_estate_zar, zar(450_000));
    assert_eq!(grid[1].outcome.estate_duty.gross_estate_for_estate_duty_zar, zar(5_000_000));
    assert_eq!(grid[3].outcome.liquidity.liquid_assets_in_estate_zar, zar(900_000));
    assert_eq!(grid[5].outcome.liquidity.liquid_assets_in_estate_zar, zar(1_080_000));
    assert_eq!(grid[5].outcome.estate_duty.gross_estate_for_estate_duty_zar, zar(12_000_000));
}

#[test]
fn stress_clamps_shocks_and_haircuts() {
    let base = estate(zar(1_000_000), true);
    let grid = run_liquidity_stress_grid(&base, &[-2_000_000, 0], &[-500_000, 1_500_000])
        .expect("supported year");
    assert_eq!(grid.len(), 4);
    assert_eq!(grid[0].outcome.liquidity.liquid_assets_in_estate_zar, 0);
    assert_eq!(grid[2].outcome.liquidity.liquid_assets_in_estate_zar, zar(1_000_000));
    assert_eq!(grid[3].outcome.liquidity.liquid_assets_in_estate_zar, 0);
}

#[test]
fn stress_grid_fails_without_rules_unless_it_is_empty() {
    let mut base = estate(zar(1_000_000), true);
    base.tax_year = 2017;
    let err = run_liquidity_stress_grid(&base, &[0], &[0]).expect_err("unsupported year");
    assert_eq!(
        err,
        TaxRuleSelectionError::UnsupportedTaxYear {
            jurisdiction: Jurisdiction::SouthAfrica,
            tax_year: 2017,
        }
    );
    assert!(run_liquidity_stress_grid(&base, &[], &[0]).expect("empty grid").is_empty());
    assert!(run_liquidity_stress_grid(&base, &[0], &[]).expect("empty grid").is_empty());
}

#[test]
fn a_shock_beyond_the_range_is_not_representable() {
    let base = estate(i64::MAX / 2, false);
    assert!(shock_is_representable(&base, 0));
    assert!(shock_is_representable(&base, 1_000_000));
    assert!(!shock_is_representable(&base, 1_100_000));
}

#[test]
fn checked_stress_grid_answers_an_unfit_shock_with_a_computation_error() {
    let base = estate(i64::MAX / 2, false);
    let grid = run_checked_liquidity_stress_grid(&base, &[0, 1_000_000], &[0, 50_000, 100_000])
        .expect("shocks that fit");
    assert_eq!(grid.len(), 6);
    assert_eq!(grid[3].market_value_shock, 1_000_000);
    assert_eq!(grid[4].liquid_asset_haircut, 50_000);

    let err = run_checked_liquidity_stress_grid(&base, &[0, 1_100_000], &[0])
        .expect_err("a shock that does not fit");
    assert_eq!(
        err,
        EngineError::Computation(
            "Market value shock takes an asset beyond the amounts that can be held".to_string()
        )
    );
}

#[test]
fn checked_stress_grid_has_one_cell_for_every_pair() {
    let base = estate(zar(5_000_000), true);
    for (shocks, haircuts) in [
        (vec![], vec![]),
        (vec![0], vec![]),
        (vec![], vec![0, 1]),
        (vec![-100_000, 0, 100_000], vec![0, 250_000]),
    ] {
        let grid = run_checked_liquidity_stress_grid(&base, &shocks, &haircuts)
            .expect("supported year");
        assert_eq!(grid.len(), shocks.len() * haircuts.len());
    }
    let plain = run_checked_liquidity_stress_grid(&base, &[0], &[0]).expect("supported year");
    assert_eq!(plain[0].outcome, calculate_combined_tax_and_liquidity(&base));

    let mut unsupported = estate(zar(5_000_000), true);
    unsupported.tax_year = 2017;
    let err = run_checked_liquidity_stress_grid(&unsupported, &[0], &[0])
        .expect_err("unsupported year");
    assert_eq!(
        err,
        EngineError::RuleSelection(TaxRuleSelectionError::UnsupportedTaxYear {
            jurisdiction: Jurisdiction::SouthAfrica,
            tax_year: 2017,
        })
    );
}

#[test]
fn parses_jurisdictions_in_any_letter_case() {
    for raw in ["south-africa", "South_Africa", "SOUTHAFRICA", "za", "ZA", "Za"] {
        assert_eq!(parse_jurisdiction(raw), Ok(ApiJurisdiction::SouthAfrica));
    }
    let err = parse_jurisdiction("Narnia").expect_err("unknown jurisdiction");
    assert_eq!(err.code, ApiErrorCode::Validation);
    assert_eq!(err.message, "Unsupported jurisdiction path value 'Narnia'");
    assert_eq!(err.validation_issues.len(), 1);
    assert_eq!(err.validation_issues[0].field, "jurisdiction");
    assert_eq!(
        err.validation_issues[0].message,
        "Use one of: south-africa, south_africa, southafrica, za"
    );
    assert!(parse_jurisdiction("").is_err());
    assert!(parse_jurisdiction(" za").is_err());
}

#[test]
fn error_codes_map_to_http_statuses() {
    let validation = to_api_error_response(EngineError::Validation(
        estate_engine::validation::InputValidationError::new(Vec::new()),
    ));
    assert_eq!(api_error_to_http(validation).0, 400);
    let selection = to_api_error_response(EngineError::RuleSelection(
        TaxRuleSelectionError::UnsupportedTaxYear {
            jurisdiction: Jurisdiction::SouthAfrica,
            tax_year: 1,
        },
    ));
    assert_eq!(selection.message, "No tax rule version found for jurisdiction SouthAfrica and tax year 1");
    assert_eq!(api_error_to_http(selection).0, 422);
    let computation = to_api_error_response(EngineError::Computation("x".to_string()));
    assert_eq!(api_error_to_http(computation).0, 500);
    let (status, missing) = not_found_response("No rule registry found for requested jurisdiction");
    assert_eq!(status, 404);
    assert_eq!(missing.code, ApiErrorCode::Computation);
    assert_eq!(missing.message, "No rule registry found for requested jurisdiction");
    assert_eq!(health().status, "ok");
}

#[test]
fn bind_address_prefers_the_configured_address_then_the_port() {
    assert_eq!(
        resolve_bind_addr(Some("10.0.0.1:9".to_string()), Some("8000".to_string())),
        "10.0.0.1:9"
    );
    assert_eq!(
        resolve_bind_addr(Some("   ".to_string()), Some(" 8000 ".to_string())),
        "0.0.0.0:8000"
    );
    assert_eq!(resolve_bind_addr(None, Some("\t".to_string())), "127.0.0.1:8080");
    assert_eq!(resolve_bind_addr(None, None), "127.0.0.1:8080");
}

#[test]
fn database_address_must_be_given() {
    assert_eq!(
        resolve_database_url(Some("postgres://db".to_string())),
        Some("postgres://db".to_string())
    );
    assert_eq!(resolve_database_url(Some("  ".to_string())), None);
    assert_eq!(resolve_database_url(None), None);
}

#[test]
fn decimal_text_has_no_leading_zeros() {
    assert_eq!(decimal_string(0), "0");
    assert_eq!(decimal_string(7), "7");
    assert_eq!(decimal_string(10), "10");
    assert_eq!(decimal_string(2017), "2017");
    assert_eq!(decimal_string(1_000_000), "1000000");
}

#[test]
fn baseline_law_summarises_the_latest_rules() {
    let law = south_africa_jurisdiction_baseline();
    assert_eq!(law.jurisdiction_code, "ZA");
    assert_eq!(law.jurisdiction_name, "South Africa");
    assert_eq!(law.legal_instruments.len(), 9);
    assert_eq!(law.legal_instruments[1].name, "Wills Act");
    assert_eq!(law.legal_instruments[8].citation, "Act 24 of 1956 (section 37C)");
    assert_eq!(law.baseline_tax_summary.estate_duty_rate_main, 200_000);
    assert_eq!(law.baseline_tax_summary.estate_duty_rate_above_30m, 250_000);
    assert_eq!(law.baseline_tax_summary.estate_duty_section_4a_abatement_zar, zar(3_500_000));
    assert_eq!(law.baseline_tax_summary.cgt_annual_exclusion_year_of_death_zar, zar(300_000));
    assert_eq!(
        law.tax_source_urls,
        vec![
            "https://www.sars.gov.za/types-of-tax/estate-duty/",
            "https://www.sars.gov.za/types-of-tax/donations-tax/",
            "https://www.sars.gov.za/tax-rates/income-tax/capital-gains-tax-cgt/"
        ]
    );
    assert_eq!(law.notes.len(), 4);
}
