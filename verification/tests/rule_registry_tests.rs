use estate_engine::rules::{
    is_supported_tax_year, latest_tax_rules_for, supported_jurisdictions,
    supported_tax_year_window, tax_rule_registry, tax_rule_registry_for, tax_rules_for,
    Jurisdiction, TaxRuleSelectionError,
};

#[test]
fn registry_exposes_south_africa_versions() {
    let versions = tax_rule_registry_for(Jurisdiction::SouthAfrica);
    assert!(!versions.is_empty());
    assert!(versions
        .iter()
        .any(|version| version.version_id == "ZA-ESTATE-BASELINE-2018+"));
}

#[test]
fn supported_jurisdictions_contains_south_africa() {
    let jurisdictions = supported_jurisdictions();
    assert_eq!(jurisdictions, vec![Jurisdiction::SouthAfrica]);
}

#[test]
fn tax_year_window_matches_catalog_bounds() {
    let window = supported_tax_year_window(Jurisdiction::SouthAfrica);
    assert_eq!(window, Some((2018, None)));
}

#[test]
fn latest_rule_version_is_present_in_registry() {
    let latest = latest_tax_rules_for(Jurisdiction::SouthAfrica);
    let registry = tax_rule_registry();
    assert!(registry.iter().any(|entry| {
        entry.jurisdiction == Jurisdiction::SouthAfrica
            && entry.version.version_id == latest.version.version_id
    }));
}

#[test]
fn selection_is_repeatable_for_supported_years() {
    for year in [2018u16, 2019, 2026, 2100, u16::MAX] {
        let first = tax_rules_for(Jurisdiction::SouthAfrica, year).expect("supported year");
        let second = tax_rules_for(Jurisdiction::SouthAfrica, year).expect("supported year");
        assert_eq!(first.version, second.version);
        assert_eq!(first.version.version_id, "ZA-ESTATE-BASELINE-2018+");
        assert!(is_supported_tax_year(Jurisdiction::SouthAfrica, year));
    }
}

#[test]
fn unsupported_year_is_echoed_in_the_error() {
    for year in [0u16, 1999, 2017] {
        let err = tax_rules_for(Jurisdiction::SouthAfrica, year).expect_err("unsupported year");
        assert_eq!(
            err,
            TaxRuleSelectionError::UnsupportedTaxYear {
                jurisdiction: Jurisdiction::SouthAfrica,
                tax_year: year,
            }
        );
        assert!(!is_supported_tax_year(Jurisdiction::SouthAfrica, year));
    }
}
