//! Jurisdiction-neutral tax rule types, versioned catalogs and the
//! selection of a rule version for a tax year.

use crate::money::RATE_SCALE;
use crate::text::{decimal_string, decimal_text, owned};
use crate::south_africa::{south_africa_catalog, south_africa_tax_rules_catalog};
use vstd::prelude::*;

verus! {

/// The class of taxpayer whose estate is modelled.
#[derive(Debug, Clone, Copy, PartialEq, Eq, Structural)]
pub enum TaxPayerClass {
    NaturalPerson,
    Company,
    Trust,
    SpecialTrust,
}

/// A jurisdiction with a rule catalog.
#[derive(Debug, Clone, Copy, PartialEq, Eq, Structural)]
pub enum Jurisdiction {
    SouthAfrica,
}

/// Identity and validity window of one published rule revision.
#[derive(Debug, Clone, Copy, PartialEq, Eq)]
pub struct TaxRuleVersion {
    pub version_id: &'static str,
    pub tax_year_from: u16,
    pub tax_year_to: Option<u16>,
    pub effective_from: &'static str,
    pub effective_to: Option<&'static str>,
    pub source_last_verified_on: &'static str,
}

/// Estate duty parameters. Amounts are millionths of a rand, rates parts per
/// million.
#[derive(Debug, Clone, Copy)]
pub struct EstateDutyRule {
    pub section_4a_abatement_zar: i64,
    pub primary_rate: i64,
    pub primary_rate_cap_zar: i64,
    pub secondary_rate: i64,
    pub spouse_deduction_unlimited: bool,
    pub effective_from: &'static str,
    pub source: &'static str,
    pub source_url: &'static str,
}

/// Donations tax parameters. Amounts are millionths of a rand, rates parts per
/// million.
#[derive(Debug, Clone, Copy)]
pub struct DonationsTaxRule {
    pub annual_exemption_natural_person_zar: i64,
    pub annual_exemption_non_natural_casual_gifts_zar: i64,
    pub primary_rate: i64,
    pub primary_rate_cap_cumulative_zar: i64,
    pub secondary_rate: i64,
    pub effective_from: &'static str,
    pub source: &'static str,
    pub source_url: &'static str,
}

/// Capital gains parameters for the deemed disposal at death. Amounts are
/// millionths of a rand, rates parts per million.
#[derive(Debug, Clone, Copy)]
pub struct CapitalGainsAtDeathRule {
    pub annual_exclusion_in_year_of_death_zar: i64,
    pub inclusion_rate_natural_person: i64,
    pub inclusion_rate_company: i64,
    pub inclusion_rate_trust: i64,
    pub base_cost_step_up_to_market_value_on_death: bool,
    pub effective_from: &'static str,
    pub source: &'static str,
    pub source_url: &'static str,
}

/// The three rule groups that one version publishes together.
#[derive(Debug, Clone, Copy)]
pub struct JurisdictionTaxRuleSet {
    pub estate_duty: EstateDutyRule,
    pub donations_tax: DonationsTaxRule,
    pub cgt_on_death: CapitalGainsAtDeathRule,
}

/// A rule set under the version that published it.
#[derive(Debug, Clone, Copy)]
pub struct VersionedJurisdictionTaxRuleSet {
    pub version: TaxRuleVersion,
    pub rules: JurisdictionTaxRuleSet,
}

/// One catalog line: a rule version and the jurisdiction that published it.
#[derive(Debug, Clone, Copy, PartialEq, Eq)]
pub struct TaxRuleRegistryEntry {
    pub jurisdiction: Jurisdiction,
    pub version: TaxRuleVersion,
}

/// Why no rule version could be selected.
#[derive(Debug, Clone, Copy, PartialEq, Eq, Structural)]
pub enum TaxRuleSelectionError {
    UnsupportedTaxYear { jurisdiction: Jurisdiction, tax_year: u16 },
}

/// The name under which a jurisdiction appears in messages.
pub open spec fn jurisdiction_name(jurisdiction: Jurisdiction) -> Seq<char> {
    match jurisdiction {
        Jurisdiction::SouthAfrica => "SouthAfrica"@,
    }
}

/// The name under which a jurisdiction appears in messages.
pub fn jurisdiction_label(jurisdiction: Jurisdiction) -> (label: &'static str)
    ensures
        label@ == jurisdiction_name(jurisdiction),
{
    match jurisdiction {
        Jurisdiction::SouthAfrica => "SouthAfrica",
    }
}

/// The message of a selection error: it names the jurisdiction and the
/// tax year that were asked for.
pub open spec fn selection_message(error: TaxRuleSelectionError) -> Seq<char> {
    match error {
        TaxRuleSelectionError::UnsupportedTaxYear { jurisdiction, tax_year } => {
            "No tax rule version found for jurisdiction "@ + jurisdiction_name(jurisdiction)
                + " and tax year "@ + decimal_text(tax_year as nat)
        },
    }
}

impl TaxRuleSelectionError {
    /// The message of this error.
    pub fn to_string(&self) -> (message: String)
        ensures
            message@ == selection_message(*self),
    {
        match self {
            TaxRuleSelectionError::UnsupportedTaxYear { jurisdiction, tax_year } => {
                let mut message = owned("No tax rule version found for jurisdiction ");
                message.append(jurisdiction_label(*jurisdiction));
                message.append(" and tax year ");
                let year = decimal_string(*tax_year as usize);
                message.append(year.as_str());
                message
            },
        }
    }
}

/// Whether `rate` is a fraction between zero and one whole.
pub open spec fn is_fraction(rate: i64) -> bool {
    0 <= rate <= RATE_SCALE
}

impl EstateDutyRule {
    /// Rates are fractions and amounts are not negative.
    pub open spec fn wf(self) -> bool {
        &&& self.section_4a_abatement_zar >= 0
        &&& self.primary_rate_cap_zar >= 0
        &&& is_fraction(self.primary_rate)
        &&& is_fraction(self.secondary_rate)
    }
}

impl DonationsTaxRule {
    /// Rates are fractions and amounts are not negative.
    pub open spec fn wf(self) -> bool {
        &&& self.annual_exemption_natural_person_zar >= 0
        &&& self.annual_exemption_non_natural_casual_gifts_zar >= 0
        &&& self.primary_rate_cap_cumulative_zar >= 0
        &&& is_fraction(self.primary_rate)
        &&& is_fraction(self.secondary_rate)
    }
}

impl CapitalGainsAtDeathRule {
    /// Rates are fractions and amounts are not negative.
    pub open spec fn wf(self) -> bool {
        &&& self.annual_exclusion_in_year_of_death_zar >= 0
        &&& is_fraction(self.inclusion_rate_natural_person)
        &&& is_fraction(self.inclusion_rate_company)
        &&& is_fraction(self.inclusion_rate_trust)
    }

    /// The inclusion rate that applies to a taxpayer class.
    pub open spec fn spec_inclusion_rate_for(self, taxpayer: TaxPayerClass) -> i64 {
        match taxpayer {
            TaxPayerClass::NaturalPerson | TaxPayerClass::SpecialTrust => {
                self.inclusion_rate_natural_person
            },
            TaxPayerClass::Company => self.inclusion_rate_company,
            TaxPayerClass::Trust => self.inclusion_rate_trust,
        }
    }

    /// The inclusion rate that applies to a taxpayer class.
    pub fn inclusion_rate_for(&self, taxpayer: TaxPayerClass) -> (rate: i64)
        ensures
            rate == self.spec_inclusion_rate_for(taxpayer),
    {
        match taxpayer {
            TaxPayerClass::NaturalPerson | TaxPayerClass::SpecialTrust => {
                self.inclusion_rate_natural_person
            },
            TaxPayerClass::Company => self.inclusion_rate_company,
            TaxPayerClass::Trust => self.inclusion_rate_trust,
        }
    }
}

impl JurisdictionTaxRuleSet {
    /// Every sub-rule is well formed.
    pub open spec fn wf(self) -> bool {
        &&& self.estate_duty.wf()
        &&& self.donations_tax.wf()
        &&& self.cgt_on_death.wf()
    }
}

impl TaxRuleVersion {
    /// Whether `tax_year` falls inside this version's window; a version
    /// without an upper bound covers every later year.
    pub open spec fn covers(self, tax_year: u16) -> bool {
        &&& self.tax_year_from <= tax_year
        &&& match self.tax_year_to {
            Some(to) => tax_year <= to,
            None => true,
        }
    }

    /// Whether `tax_year` falls inside this version's window.
    pub fn covers_year(&self, tax_year: u16) -> (covered: bool)
        ensures
            covered == self.covers(tax_year),
    {
        let from_ok = tax_year >= self.tax_year_from;
        let to_ok = match self.tax_year_to {
            Some(to) => tax_year <= to,
            None => true,
        };
        from_ok && to_ok
    }
}

/// A catalog holds well-formed rules, no version ends before it starts,
/// and every version but the last ends before the next one starts.
pub open spec fn catalog_wf(catalog: Seq<VersionedJurisdictionTaxRuleSet>) -> bool {
    &&& forall|i: int| 0 <= i < catalog.len() ==> (#[trigger] catalog[i]).rules.wf()
    &&& forall|i: int|
        0 <= i < catalog.len() ==> match (#[trigger] catalog[i]).version.tax_year_to {
            Some(to) => catalog[i].version.tax_year_from <= to,
            None => true,
        }
    &&& forall|i: int, j: int|
        0 <= i < j < catalog.len() ==> match (#[trigger] catalog[i]).version.tax_year_to {
            Some(to) => to < (#[trigger] catalog[j]).version.tax_year_from,
            None => false,
        }
}

/// A well-formed catalog is ordered by strictly ascending first year.
pub proof fn lemma_catalog_ascending(catalog: Seq<VersionedJurisdictionTaxRuleSet>, i: int, j: int)
    requires
        catalog_wf(catalog),
        0 <= i < j < catalog.len(),
    ensures
        catalog[i].version.tax_year_from < catalog[j].version.tax_year_from,
{
    assert(catalog[i].version.tax_year_to is Some);
}

/// The first version of `catalog` that covers `tax_year`, or the selection
/// error that echoes the query.
pub open spec fn resolve_in(
    catalog: Seq<VersionedJurisdictionTaxRuleSet>,
    jurisdiction: Jurisdiction,
    tax_year: u16,
) -> Result<VersionedJurisdictionTaxRuleSet, TaxRuleSelectionError>
    decreases catalog.len(),
{
    if catalog.len() == 0 {
        Err(TaxRuleSelectionError::UnsupportedTaxYear { jurisdiction, tax_year })
    } else if catalog[0].version.covers(tax_year) {
        Ok(catalog[0])
    } else {
        resolve_in(catalog.subrange(1, catalog.len() as int), jurisdiction, tax_year)
    }
}

/// Whether some version of `catalog` covers `tax_year`.
pub open spec fn catalog_covers(
    catalog: Seq<VersionedJurisdictionTaxRuleSet>,
    tax_year: u16,
) -> bool {
    exists|i: int| 0 <= i < catalog.len() && (#[trigger] catalog[i]).version.covers(tax_year)
}

/// Selection succeeds exactly on covered years, returns a catalog member
/// that covers the year, and otherwise echoes the query in its error.
pub proof fn lemma_resolve_in(
    catalog: Seq<VersionedJurisdictionTaxRuleSet>,
    jurisdiction: Jurisdiction,
    tax_year: u16,
)
    ensures
        resolve_in(catalog, jurisdiction, tax_year) is Ok <==> catalog_covers(catalog, tax_year),
        match resolve_in(catalog, jurisdiction, tax_year) {
            Ok(found) => exists|i: int|
                0 <= i < catalog.len() && catalog[i] == found && found.version.covers(tax_year)
                    && forall|j: int| 0 <= j < i ==> !(#[trigger] catalog[j]).version.covers(tax_year),
            Err(e) => e == (TaxRuleSelectionError::UnsupportedTaxYear { jurisdiction, tax_year }),
        },
    decreases catalog.len(),
{
    if catalog.len() == 0 {
    } else if catalog[0].version.covers(tax_year) {
        assert(catalog[0] == catalog[0] && forall|j: int|
            0 <= j < 0 ==> !(#[trigger] catalog[j]).version.covers(tax_year));
    } else {
        let rest = catalog.subrange(1, catalog.len() as int);
        lemma_resolve_in(rest, jurisdiction, tax_year);
        assert forall|k: int| 0 <= k < rest.len() implies rest[k] == catalog[k + 1] by {}
        if catalog_covers(catalog, tax_year) {
            let i = choose|i: int|
                0 <= i < catalog.len() && (#[trigger] catalog[i]).version.covers(tax_year);
            assert(rest[i - 1].version.covers(tax_year));
        }
        if catalog_covers(rest, tax_year) {
            let i = choose|i: int|
                0 <= i < rest.len() && (#[trigger] rest[i]).version.covers(tax_year);
            assert(catalog[i + 1].version.covers(tax_year));
        }
        match resolve_in(rest, jurisdiction, tax_year) {
            Ok(found) => {
                let i = choose|i: int|
                    0 <= i < rest.len() && rest[i] == found && found.version.covers(tax_year)
                        && forall|j: int|
                        0 <= j < i ==> !(#[trigger] rest[j]).version.covers(tax_year);
                assert forall|j: int| 0 <= j < i + 1 implies !(#[trigger] catalog[j]).version.covers(
                    tax_year,
                ) by {
                    if j > 0 {
                        assert(rest[j - 1] == catalog[j]);
                    }
                }
                assert(catalog[i + 1] == found);
            },
            Err(_) => {},
        }
    }
}

/// In a well-formed catalog at most one version covers any year.
pub proof fn lemma_single_match(
    catalog: Seq<VersionedJurisdictionTaxRuleSet>,
    tax_year: u16,
    i: int,
    j: int,
)
    requires
        catalog_wf(catalog),
        0 <= i < catalog.len(),
        0 <= j < catalog.len(),
        catalog[i].version.covers(tax_year),
        catalog[j].version.covers(tax_year),
    ensures
        i == j,
{
    if i < j {
        assert(catalog[i].version.tax_year_to is Some);
    } else if j < i {
        assert(catalog[j].version.tax_year_to is Some);
    }
}

/// Scans `catalog` from the front and returns the first version that
/// covers `tax_year`.
pub fn resolve_from_catalog(
    catalog: &Vec<VersionedJurisdictionTaxRuleSet>,
    jurisdiction: Jurisdiction,
    tax_year: u16,
) -> (selected: Result<VersionedJurisdictionTaxRuleSet, TaxRuleSelectionError>)
    ensures
        selected == resolve_in(catalog@, jurisdiction, tax_year),
{
    let mut i: usize = 0;
    assert(catalog@.subrange(0, catalog@.len() as int) =~= catalog@);
    while i < catalog.len()
        invariant
            i <= catalog.len(),
            resolve_in(catalog@, jurisdiction, tax_year) == resolve_in(
                catalog@.subrange(i as int, catalog@.len() as int),
                jurisdiction,
                tax_year,
            ),
        decreases catalog.len() - i,
    {
        let versioned = catalog[i];
        proof {
            let rest = catalog@.subrange(i as int, catalog@.len() as int);
            assert(rest[0] == catalog@[i as int]);
            assert(rest.subrange(1, rest.len() as int) == catalog@.subrange(
                i + 1,
                catalog@.len() as int,
            ));
        }
        if versioned.version.covers_year(tax_year) {
            return Ok(versioned);
        }
        i += 1;
    }
    Err(TaxRuleSelectionError::UnsupportedTaxYear { jurisdiction, tax_year })
}

/// Whether `i` is the position of the latest version of `catalog`: the
/// first open-ended version, or, where every version is bounded, the first
/// one with the greatest starting year.
pub open spec fn is_latest_at(catalog: Seq<VersionedJurisdictionTaxRuleSet>, i: int) -> bool {
    &&& 0 <= i < catalog.len()
    &&& forall|j: int| 0 <= j < i ==> (#[trigger] catalog[j]).version.tax_year_to is Some
    &&& catalog[i].version.tax_year_to is Some ==> {
        &&& forall|j: int|
            0 <= j < catalog.len() ==> (#[trigger] catalog[j]).version.tax_year_to is Some
                && catalog[j].version.tax_year_from <= catalog[i].version.tax_year_from
        &&& forall|j: int|
            0 <= j < i ==> (#[trigger] catalog[j]).version.tax_year_from
                < catalog[i].version.tax_year_from
    }
}

/// Position of the latest version of a catalog that is not empty.
pub fn latest_in_catalog(catalog: &Vec<VersionedJurisdictionTaxRuleSet>) -> (at: usize)
    requires
        catalog@.len() > 0,
    ensures
        is_latest_at(catalog@, at as int),
{
    let mut best: usize = 0;
    let mut i: usize = 0;
    while i < catalog.len()
        invariant
            i <= catalog.len(),
            best < catalog.len(),
            best <= i,
            i == 0 ==> best == 0,
            forall|j: int| 0 <= j < i ==> (#[trigger] catalog@[j]).version.tax_year_to is Some,
            forall|j: int|
                0 <= j < i ==> (#[trigger] catalog@[j]).version.tax_year_from
                    <= catalog@[best as int].version.tax_year_from,
            forall|j: int|
                0 <= j < best ==> (#[trigger] catalog@[j]).version.tax_year_from
                    < catalog@[best as int].version.tax_year_from,
        decreases catalog.len() - i,
    {
        if catalog[i].version.tax_year_to.is_none() {
            return i;
        }
        if catalog[i].version.tax_year_from > catalog[best].version.tax_year_from {
            best = i;
        }
        i += 1;
    }
    best
}

/// The supported window of a catalog: its smallest starting year, and its
/// greatest final year unless some version is open-ended.
pub open spec fn is_year_window(
    catalog: Seq<VersionedJurisdictionTaxRuleSet>,
    window: Option<(u16, Option<u16>)>,
) -> bool {
    match window {
        None => catalog.len() == 0,
        Some((from, to)) => {
            &&& exists|i: int| 0 <= i < catalog.len() && (#[trigger] catalog[i]).version.tax_year_from == from
            &&& forall|i: int| 0 <= i < catalog.len() ==> from <= (#[trigger] catalog[i]).version.tax_year_from
            &&& match to {
                None => exists|i: int|
                    0 <= i < catalog.len() && (#[trigger] catalog[i]).version.tax_year_to is None,
                Some(last) => {
                    &&& exists|i: int|
                        0 <= i < catalog.len() && (#[trigger] catalog[i]).version.tax_year_to == Some(last)
                    &&& forall|i: int|
                        0 <= i < catalog.len() ==> match (#[trigger] catalog[i]).version.tax_year_to {
                            Some(t) => t <= last,
                            None => false,
                        }
                },
            }
        },
    }
}

/// Computes the supported window of a catalog.
pub fn year_window_of(catalog: &Vec<VersionedJurisdictionTaxRuleSet>) -> (window: Option<
    (u16, Option<u16>),
>)
    ensures
        is_year_window(catalog@, window),
{
    if catalog.len() == 0 {
        return None;
    }
    let mut from: u16 = catalog[0].version.tax_year_from;
    let mut to: Option<u16> = catalog[0].version.tax_year_to;
    let mut i: usize = 1;
    while i < catalog.len()
        invariant
            1 <= i <= catalog.len(),
            exists|k: int| 0 <= k < i && (#[trigger] catalog@[k]).version.tax_year_from == from,
            forall|k: int| 0 <= k < i ==> from <= (#[trigger] catalog@[k]).version.tax_year_from,
            match to {
                None => exists|k: int|
                    0 <= k < i && (#[trigger] catalog@[k]).version.tax_year_to is None,
                Some(last) => {
                    &&& exists|k: int|
                        0 <= k < i && (#[trigger] catalog@[k]).version.tax_year_to == Some(last)
                    &&& forall|k: int|
                        0 <= k < i ==> match (#[trigger] catalog@[k]).version.tax_year_to {
                            Some(t) => t <= last,
                            None => false,
                        }
                },
            },
        decreases catalog.len() - i,
    {
        let version = catalog[i].version;
        if version.tax_year_from < from {
            from = version.tax_year_from;
        }
        to = match (to, version.tax_year_to) {
            (Some(last), Some(t)) => if t > last {
                Some(t)
            } else {
                Some(last)
            },
            _ => None,
        };
        i += 1;
    }
    Some((from, to))
}

/// The versions of a catalog, in catalog order.
pub open spec fn versions_of(catalog: Seq<VersionedJurisdictionTaxRuleSet>) -> Seq<TaxRuleVersion> {
    Seq::new(catalog.len(), |i: int| catalog[i].version)
}

/// Lists the versions of a catalog, in catalog order.
pub fn catalog_versions(catalog: &Vec<VersionedJurisdictionTaxRuleSet>) -> (versions: Vec<
    TaxRuleVersion,
>)
    ensures
        versions@ == versions_of(catalog@),
{
    let mut versions: Vec<TaxRuleVersion> = Vec::new();
    let mut i: usize = 0;
    while i < catalog.len()
        invariant
            i <= catalog.len(),
            versions@.len() == i,
            forall|k: int| 0 <= k < i ==> versions@[k] == (#[trigger] catalog@[k]).version,
        decreases catalog.len() - i,
    {
        versions.push(catalog[i].version);
        i += 1;
    }
    assert(versions@ =~= versions_of(catalog@));
    versions
}

/// The catalog of a jurisdiction.
pub open spec fn catalog_of(jurisdiction: Jurisdiction) -> Seq<VersionedJurisdictionTaxRuleSet> {
    match jurisdiction {
        Jurisdiction::SouthAfrica => south_africa_catalog(),
    }
}

/// The rule version selected for a jurisdiction and tax year.
pub open spec fn spec_tax_rules_for(jurisdiction: Jurisdiction, tax_year: u16) -> Result<
    VersionedJurisdictionTaxRuleSet,
    TaxRuleSelectionError,
> {
    resolve_in(catalog_of(jurisdiction), jurisdiction, tax_year)
}

/// Whether a jurisdiction publishes rules for a tax year.
pub open spec fn spec_is_supported_tax_year(jurisdiction: Jurisdiction, tax_year: u16) -> bool {
    catalog_covers(catalog_of(jurisdiction), tax_year)
}

/// The catalog of a jurisdiction as an owned table.
pub fn tax_rules_catalog_for(jurisdiction: Jurisdiction) -> (catalog: Vec<
    VersionedJurisdictionTaxRuleSet,
>)
    ensures
        catalog@ == catalog_of(jurisdiction),
        catalog_wf(catalog@),
        catalog@.len() > 0,
{
    match jurisdiction {
        Jurisdiction::SouthAfrica => south_africa_tax_rules_catalog(),
    }
}

/// Selects the rule version of `jurisdiction` that covers `tax_year`.
pub fn tax_rules_for(jurisdiction: Jurisdiction, tax_year: u16) -> (selected: Result<
    VersionedJurisdictionTaxRuleSet,
    TaxRuleSelectionError,
>)
    ensures
        selected == spec_tax_rules_for(jurisdiction, tax_year),
        selected is Ok <==> spec_is_supported_tax_year(jurisdiction, tax_year),
        match selected {
            Ok(found) => found.version.covers(tax_year) && found.rules.wf(),
            Err(e) => e == (TaxRuleSelectionError::UnsupportedTaxYear { jurisdiction, tax_year }),
        },
{
    let catalog = tax_rules_catalog_for(jurisdiction);
    proof {
        lemma_resolve_in(catalog@, jurisdiction, tax_year);
    }
    resolve_from_catalog(&catalog, jurisdiction, tax_year)
}

/// Selection depends on the jurisdiction and the tax year alone. On a
/// supported year it yields a version that covers the year; on any other
/// year it yields the error that echoes the jurisdiction and the year.
pub proof fn lemma_selection_by_year(jurisdiction: Jurisdiction, tax_year: u16)
    ensures
        spec_is_supported_tax_year(jurisdiction, tax_year) ==> spec_tax_rules_for(
            jurisdiction,
            tax_year,
        ) is Ok && spec_tax_rules_for(jurisdiction, tax_year)->Ok_0.version.covers(tax_year),
        !spec_is_supported_tax_year(jurisdiction, tax_year) ==> spec_tax_rules_for(
            jurisdiction,
            tax_year,
        ) == Err::<VersionedJurisdictionTaxRuleSet, TaxRuleSelectionError>(
            TaxRuleSelectionError::UnsupportedTaxYear { jurisdiction, tax_year },
        ),
{
    lemma_resolve_in(catalog_of(jurisdiction), jurisdiction, tax_year);
}

/// The latest rule version of a jurisdiction's catalog.
pub open spec fn spec_latest_tax_rules_for(
    jurisdiction: Jurisdiction,
) -> VersionedJurisdictionTaxRuleSet {
    let catalog = catalog_of(jurisdiction);
    catalog[choose|i: int| is_latest_at(catalog, i)]
}

/// The latest position of a catalog is unique.
pub proof fn lemma_latest_unique(catalog: Seq<VersionedJurisdictionTaxRuleSet>, i: int, j: int)
    requires
        is_latest_at(catalog, i),
        is_latest_at(catalog, j),
    ensures
        i == j,
{
    if i < j {
        assert(catalog[i].version.tax_year_to is Some);
        assert(catalog[j].version.tax_year_to is Some);
    } else if j < i {
        assert(catalog[j].version.tax_year_to is Some);
        assert(catalog[i].version.tax_year_to is Some);
    }
}

/// Returns the latest rule version of `jurisdiction`.
pub fn latest_tax_rules_for(jurisdiction: Jurisdiction) -> (latest: VersionedJurisdictionTaxRuleSet)
    ensures
        latest == spec_latest_tax_rules_for(jurisdiction),
        latest.rules.wf(),
        exists|i: int|
            is_latest_at(catalog_of(jurisdiction), i) && catalog_of(jurisdiction)[i] == latest,
{
    let catalog = tax_rules_catalog_for(jurisdiction);
    let at = latest_in_catalog(&catalog);
    proof {
        let chosen = choose|i: int| is_latest_at(catalog@, i);
        lemma_latest_unique(catalog@, at as int, chosen);
    }
    catalog[at]
}

/// The rules of the latest version of `jurisdiction`.
pub fn baseline_tax_rules_for(jurisdiction: Jurisdiction) -> (rules: JurisdictionTaxRuleSet)
    ensures
        rules == spec_latest_tax_rules_for(jurisdiction).rules,
        rules.wf(),
{
    latest_tax_rules_for(jurisdiction).rules
}

/// Whether `jurisdiction` publishes rules for `tax_year`.
pub fn is_supported_tax_year(jurisdiction: Jurisdiction, tax_year: u16) -> (supported: bool)
    ensures
        supported == spec_is_supported_tax_year(jurisdiction, tax_year),
{
    tax_rules_for(jurisdiction, tax_year).is_ok()
}

/// Every jurisdiction with a catalog.
pub fn supported_jurisdictions() -> (jurisdictions: Vec<Jurisdiction>)
    ensures
        jurisdictions@ == seq![Jurisdiction::SouthAfrica],
{
    let mut jurisdictions: Vec<Jurisdiction> = Vec::new();
    jurisdictions.push(Jurisdiction::SouthAfrica);
    assert(jurisdictions@ =~= seq![Jurisdiction::SouthAfrica]);
    jurisdictions
}

/// The versions that `jurisdiction` has published, in catalog order.
pub fn tax_rule_registry_for(jurisdiction: Jurisdiction) -> (versions: Vec<TaxRuleVersion>)
    ensures
        versions@ == versions_of(catalog_of(jurisdiction)),
        versions@.len() > 0,
{
    let catalog = tax_rules_catalog_for(jurisdiction);
    catalog_versions(&catalog)
}

/// The registry lines of one jurisdiction.
pub open spec fn entries_of(jurisdiction: Jurisdiction) -> Seq<TaxRuleRegistryEntry> {
    Seq::new(
        catalog_of(jurisdiction).len(),
        |i: int| TaxRuleRegistryEntry { jurisdiction, version: catalog_of(jurisdiction)[i].version },
    )
}

/// Every published version of every supported jurisdiction.
pub fn tax_rule_registry() -> (entries: Vec<TaxRuleRegistryEntry>)
    ensures
        entries@ == entries_of(Jurisdiction::SouthAfrica),
{
    let jurisdiction = Jurisdiction::SouthAfrica;
    let versions = tax_rule_registry_for(jurisdiction);
    let mut entries: Vec<TaxRuleRegistryEntry> = Vec::new();
    let mut i: usize = 0;
    while i < versions.len()
        invariant
            i <= versions.len(),
            versions@ == versions_of(catalog_of(jurisdiction)),
            entries@.len() == i,
            forall|k: int|
                0 <= k < i ==> (#[trigger] entries@[k]) == (TaxRuleRegistryEntry {
                    jurisdiction,
                    version: catalog_of(jurisdiction)[k].version,
                }),
        decreases versions.len() - i,
    {
        entries.push(TaxRuleRegistryEntry { jurisdiction, version: versions[i] });
        i += 1;
    }
    assert(entries@ =~= entries_of(jurisdiction));
    entries
}

/// The span of tax years that `jurisdiction` supports.
pub fn supported_tax_year_window(jurisdiction: Jurisdiction) -> (window: Option<
    (u16, Option<u16>),
>)
    ensures
        is_year_window(catalog_of(jurisdiction), window),
        window is Some,
{
    let catalog = tax_rules_catalog_for(jurisdiction);
    year_window_of(&catalog)
}

} // verus!
