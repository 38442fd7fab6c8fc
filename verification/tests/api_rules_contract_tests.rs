use estate_engine::contracts::{ApiErrorCode, ApiJurisdiction};
use estate_engine::money::RAND;
use estate_engine::handler::{
    get_jurisdiction_tax_rule_registry_contract, list_supported_jurisdictions_contract,
    list_tax_rule_registry_entries_contract, resolve_latest_tax_rules_contract,
    resolve_tax_rules_for_year_contract,
};


fn zar<T: From<i64> + std::ops::Mul<Output = T>>(amount: T) -> T {
    amount * T::from(RAND)
}
#[test]
fn contract_lists_supported_jurisdictions() {
    let jurisdictions = list_supported_jurisdictions_contract();
    assert_eq!(jurisdictions, vec![ApiJurisdiction::SouthAfrica]);
}

#[test]
fn contract_lists_registry_entries() {
    let entries = list_tax_rule_registry_entries_contract();
    assert!(entries.iter().any(|entry| {
        entry.jurisdiction == ApiJurisdiction::SouthAfrica
            && entry.version.version_id == "ZA-ESTATE-BASELINE-2018+"
    }));
}

#[test]
fn contract_exposes_jurisdiction_registry_summary() {
    let summary = get_jurisdiction_tax_rule_registry_contract(ApiJurisdiction::SouthAfrica)
        .expect("Expected contract registry summary for South Africa");

    assert_eq!(summary.jurisdiction, ApiJurisdiction::SouthAfrica);
    assert_eq!(summary.supported_tax_year_from, 2018);
    assert_eq!(summary.supported_tax_year_to, None);
    assert_eq!(summary.latest_version_id, "ZA-ESTATE-BASELINE-2018+");
    assert!(!summary.versions.is_empty());
}

#[test]
fn contract_resolves_rules_for_supported_year() {
    let selected = resolve_tax_rules_for_year_contract(ApiJurisdiction::SouthAfrica, 2026)
        .expect("Expected contract rule resolution for supported tax year");

    assert_eq!(selected.version.version_id, "ZA-ESTATE-BASELINE-2018+");
    assert_eq!(selected.version.tax_year_from, 2018);
    assert_eq!(selected.version.tax_year_to, None);
}

#[test]
fn contract_rejects_unsupported_year() {
    let err = resolve_tax_rules_for_year_contract(ApiJurisdiction::SouthAfrica, 2017)
        .expect_err("Expected contract rule resolution to fail");
    assert_eq!(err.code, ApiErrorCode::RuleSelection);
    assert!(err.message.contains("2017"));
}

#[test]
fn contract_resolves_latest_rules() {
    let latest = resolve_latest_tax_rules_contract(ApiJurisdiction::SouthAfrica);
    assert_eq!(latest.version.version_id, "ZA-ESTATE-BASELINE-2018+");
}

#[test]
fn contract_rules_mirror_the_catalog_values() {
    let latest = resolve_latest_tax_rules_contract(ApiJurisdiction::SouthAfrica);
    assert_eq!(latest.rules.estate_duty.section_4a_abatement_zar, zar(3_500_000));
    assert_eq!(latest.rules.estate_duty.primary_rate, 200_000);
    assert_eq!(latest.rules.estate_duty.primary_rate_cap_zar, zar(30_000_000));
    assert_eq!(latest.rules.estate_duty.secondary_rate, 250_000);
    assert_eq!(latest.rules.cgt_on_death.inclusion_rate_natural_person, 400_000);
    assert_eq!(latest.rules.donations_tax.annual_exemption_natural_person_zar, zar(100_000));
    assert_eq!(latest.version.effective_from, "2018-03-01");
    assert_eq!(latest.version.effective_to, None);
}
