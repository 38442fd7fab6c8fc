//! South African rule catalog.

use crate::rules::{
    catalog_wf, CapitalGainsAtDeathRule, DonationsTaxRule, EstateDutyRule, Jurisdiction,
    JurisdictionTaxRuleSet, TaxRuleSelectionError, TaxRuleVersion,
    VersionedJurisdictionTaxRuleSet, resolve_from_catalog, resolve_in, lemma_resolve_in,
};
use vstd::prelude::*;

verus! {

/// The rules in force for tax years from 2018 onwards.
pub open spec fn south_africa_rules_2018() -> VersionedJurisdictionTaxRuleSet {
    VersionedJurisdictionTaxRuleSet {
        version: TaxRuleVersion {
            version_id: "ZA-ESTATE-BASELINE-2018+",
            tax_year_from: 2018,
            tax_year_to: None,
            effective_from: "2018-03-01",
            effective_to: None,
            source_last_verified_on: "2026-02-21",
        },
        rules: JurisdictionTaxRuleSet {
            estate_duty: EstateDutyRule {
                section_4a_abatement_zar: 3_500_000_000_000,
                primary_rate: 200_000,
                primary_rate_cap_zar: 30_000_000_000_000,
                secondary_rate: 250_000,
                spouse_deduction_unlimited: true,
                effective_from: "2018-03-01",
                source: "SARS Estate Duty (accessed 2026-02-21)",
                source_url: "https://www.sars.gov.za/types-of-tax/estate-duty/",
            },
            donations_tax: DonationsTaxRule {
                annual_exemption_natural_person_zar: 100_000_000_000,
                annual_exemption_non_natural_casual_gifts_zar: 10_000_000_000,
                primary_rate: 200_000,
                primary_rate_cap_cumulative_zar: 30_000_000_000_000,
                secondary_rate: 250_000,
                effective_from: "2018-03-01",
                source: "SARS Donations Tax (accessed 2026-02-21)",
                source_url: "https://www.sars.gov.za/types-of-tax/donations-tax/",
            },
            cgt_on_death: CapitalGainsAtDeathRule {
                annual_exclusion_in_year_of_death_zar: 300_000_000_000,
                inclusion_rate_natural_person: 400_000,
                inclusion_rate_company: 800_000,
                inclusion_rate_trust: 800_000,
                base_cost_step_up_to_market_value_on_death: true,
                effective_from: "2016-03-01",
                source: "SARS CGT (page updated 2025-05-21; accessed 2026-02-21)",
                source_url: "https://www.sars.gov.za/tax-rates/income-tax/capital-gains-tax-cgt/",
            },
        },
    }
}

/// The South African catalog: one open-ended version.
pub open spec fn south_africa_catalog() -> Seq<VersionedJurisdictionTaxRuleSet> {
    seq![south_africa_rules_2018()]
}

fn south_africa_tax_rules_2018_onwards() -> (versioned: VersionedJurisdictionTaxRuleSet)
    ensures
        versioned == south_africa_rules_2018(),
        versioned.rules.wf(),
{
    VersionedJurisdictionTaxRuleSet {
        version: TaxRuleVersion {
            version_id: "ZA-ESTATE-BASELINE-2018+",
            tax_year_from: 2018,
            tax_year_to: None,
            effective_from: "2018-03-01",
            effective_to: None,
            source_last_verified_on: "2026-02-21",
        },
        rules: JurisdictionTaxRuleSet {
            estate_duty: EstateDutyRule {
                section_4a_abatement_zar: 3_500_000_000_000,
                primary_rate: 200_000,
                primary_rate_cap_zar: 30_000_000_000_000,
                secondary_rate: 250_000,
                spouse_deduction_unlimited: true,
                effective_from: "2018-03-01",
                source: "SARS Estate Duty (accessed 2026-02-21)",
                source_url: "https://www.sars.gov.za/types-of-tax/estate-duty/",
            },
            donations_tax: DonationsTaxRule {
                annual_exemption_natural_person_zar: 100_000_000_000,
                annual_exemption_non_natural_casual_gifts_zar: 10_000_000_000,
                primary_rate: 200_000,
                primary_rate_cap_cumulative_zar: 30_000_000_000_000,
                secondary_rate: 250_000,
                effective_from: "2018-03-01",
                source: "SARS Donations Tax (accessed 2026-02-21)",
                source_url: "https://www.sars.gov.za/types-of-tax/donations-tax/",
            },
            cgt_on_death: CapitalGainsAtDeathRule {
                annual_exclusion_in_year_of_death_zar: 300_000_000_000,
                inclusion_rate_natural_person: 400_000,
                inclusion_rate_company: 800_000,
                inclusion_rate_trust: 800_000,
                base_cost_step_up_to_market_value_on_death: true,
                effective_from: "2016-03-01",
                source: "SARS CGT (page updated 2025-05-21; accessed 2026-02-21)",
                source_url: "https://www.sars.gov.za/tax-rates/income-tax/capital-gains-tax-cgt/",
            },
        },
    }
}

/// Builds the South African catalog.
pub fn south_africa_tax_rules_catalog() -> (catalog: Vec<VersionedJurisdictionTaxRuleSet>)
    ensures
        catalog@ == south_africa_catalog(),
        catalog_wf(catalog@),
        catalog@.len() > 0,
{
    let mut catalog: Vec<VersionedJurisdictionTaxRuleSet> = Vec::new();
    catalog.push(south_africa_tax_rules_2018_onwards());
    assert(catalog@ =~= south_africa_catalog());
    catalog
}

/// Selects the South African rule version for `tax_year`: the 2018 version
/// for every year from 2018 on, and no version before that.
pub fn south_africa_tax_rules_for_year(tax_year: u16) -> (selected: Result<
    VersionedJurisdictionTaxRuleSet,
    TaxRuleSelectionError,
>)
    ensures
        selected == resolve_in(south_africa_catalog(), Jurisdiction::SouthAfrica, tax_year),
        tax_year >= 2018 ==> selected == Ok::<
            VersionedJurisdictionTaxRuleSet,
            TaxRuleSelectionError,
        >(south_africa_rules_2018()),
        tax_year < 2018 ==> selected == Err::<
            VersionedJurisdictionTaxRuleSet,
            TaxRuleSelectionError,
        >(
            TaxRuleSelectionError::UnsupportedTaxYear {
                jurisdiction: Jurisdiction::SouthAfrica,
                tax_year,
            },
        ),
{
    let catalog = south_africa_tax_rules_catalog();
    proof {
        lemma_resolve_in(catalog@, Jurisdiction::SouthAfrica, tax_year);
        assert(catalog@[0] == south_africa_rules_2018());
    }
    resolve_from_catalog(&catalog, Jurisdiction::SouthAfrica, tax_year)
}

/// The latest South African rule version.
pub fn south_africa_latest_tax_rules() -> (latest: VersionedJurisdictionTaxRuleSet)
    ensures
        latest == south_africa_rules_2018(),
        latest.rules.wf(),
{
    south_africa_tax_rules_2018_onwards()
}

/// The rules of the latest South African version.
pub fn south_africa_tax_rules_baseline() -> (rules: JurisdictionTaxRuleSet)
    ensures
        rules == south_africa_rules_2018().rules,
        rules.wf(),
{
    south_africa_latest_tax_rules().rules
}

/// A statute and why it matters to estate planning.
#[derive(Debug, Clone, Copy)]
pub struct LegalInstrument {
    pub name: &'static str,
    pub citation: &'static str,
    pub planning_relevance: &'static str,
    pub source_url: &'static str,
}

/// Headline figures of a rule set. Amounts are millionths of a rand,
/// rates parts per million.
#[derive(Debug, Clone, Copy)]
pub struct SouthAfricaTaxSummary {
    pub tax_year_context: &'static str,
    pub rates_last_verified_on: &'static str,
    pub estate_duty_rate_main: i64,
    pub estate_duty_rate_above_30m: i64,
    pub estate_duty_section_4a_abatement_zar: i64,
    pub donations_tax_rate_main: i64,
    pub donations_tax_rate_above_30m: i64,
    pub cgt_annual_exclusion_year_of_death_zar: i64,
}

/// The legal and tax baseline of South Africa.
#[derive(Debug, Clone)]
pub struct SouthAfricaJurisdictionLaw {
    pub jurisdiction_code: &'static str,
    pub jurisdiction_name: &'static str,
    pub legal_instruments: Vec<LegalInstrument>,
    pub baseline_tax_summary: SouthAfricaTaxSummary,
    pub tax_source_urls: Vec<&'static str>,
    pub notes: Vec<&'static str>,
}

/// The headline figures of a rule set.
pub open spec fn tax_summary_of(rules: JurisdictionTaxRuleSet) -> SouthAfricaTaxSummary {
    SouthAfricaTaxSummary {
        tax_year_context: "Tax years from 2018 onwards",
        rates_last_verified_on: "2026-02-21",
        estate_duty_rate_main: rules.estate_duty.primary_rate,
        estate_duty_rate_above_30m: rules.estate_duty.secondary_rate,
        estate_duty_section_4a_abatement_zar: rules.estate_duty.section_4a_abatement_zar,
        donations_tax_rate_main: rules.donations_tax.primary_rate,
        donations_tax_rate_above_30m: rules.donations_tax.secondary_rate,
        cgt_annual_exclusion_year_of_death_zar: rules.cgt_on_death.annual_exclusion_in_year_of_death_zar,
    }
}

fn summarize_tax_rules(rules: &JurisdictionTaxRuleSet) -> (summary: SouthAfricaTaxSummary)
    ensures
        summary == tax_summary_of(*rules),
{
    SouthAfricaTaxSummary {
        tax_year_context: "Tax years from 2018 onwards",
        rates_last_verified_on: "2026-02-21",
        estate_duty_rate_main: rules.estate_duty.primary_rate,
        estate_duty_rate_above_30m: rules.estate_duty.secondary_rate,
        estate_duty_section_4a_abatement_zar: rules.estate_duty.section_4a_abatement_zar,
        donations_tax_rate_main: rules.donations_tax.primary_rate,
        donations_tax_rate_above_30m: rules.donations_tax.secondary_rate,
        cgt_annual_exclusion_year_of_death_zar: rules.cgt_on_death.annual_exclusion_in_year_of_death_zar,
    }
}

/// The statutes that shape estate planning in South Africa.
pub open spec fn south_africa_legal_instruments() -> Seq<LegalInstrument> {
    seq![
        LegalInstrument {
            name: "Constitution of the Republic of South Africa",
            citation: "Constitution, 1996",
            planning_relevance: "Rights framework that underpins property, equality, and inheritance administration.",
            source_url: "https://www.justice.gov.za/legislation/constitution/",
        },
        LegalInstrument {
            name: "Wills Act",
            citation: "Act 7 of 1953",
            planning_relevance: "Formal validity of wills and execution requirements.",
            source_url: "https://www.saflii.org/za/legis/consol_act/wa195391/",
        },
        LegalInstrument {
            name: "Intestate Succession Act",
            citation: "Act 81 of 1987",
            planning_relevance: "Default inheritance order when no valid will exists.",
            source_url: "https://www.saflii.org/za/legis/consol_act/isa81o1987261/",
        },
        LegalInstrument {
            name: "Administration of Estates Act",
            citation: "Act 66 of 1965",
            planning_relevance: "Estate reporting, executor process, and liquidation/distribution administration.",
            source_url: "https://www.saflii.org/za/legis/consol_act/aoea1965274/",
        },
        LegalInstrument {
            name: "Estate Duty Act",
            citation: "Act 45 of 1955",
            planning_relevance: "Estate duty charging rules, deductions, and abatement.",
            source_url: "https://www.gov.za/documents/estate-duty-act-19-may-2015-1254",
        },
        LegalInstrument {
            name: "Income Tax Act",
            citation: "Act 58 of 1962",
            planning_relevance: "Capital gains tax deemed disposal at death and related exclusions.",
            source_url: "https://www.gov.za/documents/income-tax-act-29-may-1962-0000",
        },
        LegalInstrument {
            name: "Matrimonial Property Act",
            citation: "Act 88 of 1984",
            planning_relevance: "Marital property regime affects dutiable estate composition.",
            source_url: "https://www.saflii.org/za/legis/consol_act/mpa88o1984279/",
        },
        LegalInstrument {
            name: "Trust Property Control Act",
            citation: "Act 57 of 1988",
            planning_relevance: "Trust governance rules relevant to wealth transfer structures.",
            source_url: "https://www.gov.za/documents/trust-property-control-act-18-may-2015-1117",
        },
        LegalInstrument {
            name: "Pension Funds Act",
            citation: "Act 24 of 1956 (section 37C)",
            planning_relevance: "Death benefits are allocated by fund trustees, not strictly by will.",
            source_url: "https://www.saflii.org/za/legis/consol_act/pfa1956165/",
        },
    ]
}

/// The notes that go with the South African baseline.
pub open spec fn south_africa_notes() -> Seq<&'static str> {
    seq![
        "Tax rates in this baseline were last source-verified on 2026-02-21 against SARS pages.",
        "Spousal section 4(q) estate duty deduction is modeled as unlimited in baseline assumptions.",
        "Use this baseline as a rule catalog; actual tax calculation must still apply deductions, liabilities, and valuation rules.",
        "Rates and thresholds should be versioned by tax year before production use.",
    ]
}

/// The South African baseline: the statutes, the headline figures of the
/// latest rules, the pages those rules were taken from and the notes.
pub fn south_africa_jurisdiction_baseline() -> (law: SouthAfricaJurisdictionLaw)
    ensures
        law.jurisdiction_code == "ZA",
        law.jurisdiction_name == "South Africa",
        law.legal_instruments@ == south_africa_legal_instruments(),
        law.baseline_tax_summary == tax_summary_of(south_africa_rules_2018().rules),
        law.tax_source_urls@ == seq![
            south_africa_rules_2018().rules.estate_duty.source_url,
            south_africa_rules_2018().rules.donations_tax.source_url,
            south_africa_rules_2018().rules.cgt_on_death.source_url,
        ],
        law.notes@ == south_africa_notes(),
{
    let rules = south_africa_tax_rules_baseline();

    let mut legal_instruments: Vec<LegalInstrument> = Vec::new();
    legal_instruments.push(
        LegalInstrument {
            name: "Constitution of the Republic of South Africa",
            citation: "Constitution, 1996",
            planning_relevance: "Rights framework that underpins property, equality, and inheritance administration.",
            source_url: "https://www.justice.gov.za/legislation/constitution/",
        },
    );
    legal_instruments.push(
        LegalInstrument {
            name: "Wills Act",
            citation: "Act 7 of 1953",
            planning_relevance: "Formal validity of wills and execution requirements.",
            source_url: "https://www.saflii.org/za/legis/consol_act/wa195391/",
        },
    );
    legal_instruments.push(
        LegalInstrument {
            name: "Intestate Succession Act",
            citation: "Act 81 of 1987",
            planning_relevance: "Default inheritance order when no valid will exists.",
            source_url: "https://www.saflii.org/za/legis/consol_act/isa81o1987261/",
        },
    );
    legal_instruments.push(
        LegalInstrument {
            name: "Administration of Estates Act",
            citation: "Act 66 of 1965",
            planning_relevance: "Estate reporting, executor process, and liquidation/distribution administration.",
            source_url: "https://www.saflii.org/za/legis/consol_act/aoea1965274/",
        },
    );
    legal_instruments.push(
        LegalInstrument {
            name: "Estate Duty Act",
            citation: "Act 45 of 1955",
            planning_relevance: "Estate duty charging rules, deductions, and abatement.",
            source_url: "https://www.gov.za/documents/estate-duty-act-19-may-2015-1254",
        },
    );
    legal_instruments.push(
        LegalInstrument {
            name: "Income Tax Act",
            citation: "Act 58 of 1962",
            planning_relevance: "Capital gains tax deemed disposal at death and related exclusions.",
            source_url: "https://www.gov.za/documents/income-tax-act-29-may-1962-0000",
        },
    );
    legal_instruments.push(
        LegalInstrument {
            name: "Matrimonial Property Act",
            citation: "Act 88 of 1984",
            planning_relevance: "Marital property regime affects dutiable estate composition.",
            source_url: "https://www.saflii.org/za/legis/consol_act/mpa88o1984279/",
        },
    );
    legal_instruments.push(
        LegalInstrument {
            name: "Trust Property Control Act",
            citation: "Act 57 of 1988",
            planning_relevance: "Trust governance rules relevant to wealth transfer structures.",
            source_url: "https://www.gov.za/documents/trust-property-control-act-18-may-2015-1117",
        },
    );
    legal_instruments.push(
        LegalInstrument {
            name: "Pension Funds Act",
            citation: "Act 24 of 1956 (section 37C)",
            planning_relevance: "Death benefits are allocated by fund trustees, not strictly by will.",
            source_url: "https://www.saflii.org/za/legis/consol_act/pfa1956165/",
        },
    );
    assert(legal_instruments@ =~= south_africa_legal_instruments());

    let mut tax_source_urls: Vec<&'static str> = Vec::new();
    tax_source_urls.push(rules.estate_duty.source_url);
    tax_source_urls.push(rules.donations_tax.source_url);
    tax_source_urls.push(rules.cgt_on_death.source_url);
    assert(tax_source_urls@ =~= seq![
        south_africa_rules_2018().rules.estate_duty.source_url,
        south_africa_rules_2018().rules.donations_tax.source_url,
        south_africa_rules_2018().rules.cgt_on_death.source_url,
    ]);

    let mut notes: Vec<&'static str> = Vec::new();
    notes.push("Tax rates in this baseline were last source-verified on 2026-02-21 against SARS pages.");
    notes.push("Spousal section 4(q) estate duty deduction is modeled as unlimited in baseline assumptions.");
    notes.push("Use this baseline as a rule catalog; actual tax calculation must still apply deductions, liabilities, and valuation rules.");
    notes.push("Rates and thresholds should be versioned by tax year before production use.");
    assert(notes@ =~= south_africa_notes());

    SouthAfricaJurisdictionLaw {
        jurisdiction_code: "ZA",
        jurisdiction_name: "South Africa",
        legal_instruments,
        baseline_tax_summary: summarize_tax_rules(&rules),
        tax_source_urls,
        notes,
    }
}

} // verus!
