//! Plain records that the engine hands to a transport layer: text is owned,
//! and every record mirrors one of the engine's own types field by field.

use crate::rules::{
    CapitalGainsAtDeathRule, DonationsTaxRule, EstateDutyRule, Jurisdiction,
    JurisdictionTaxRuleSet, TaxPayerClass, TaxRuleRegistryEntry, TaxRuleVersion,
    VersionedJurisdictionTaxRuleSet,
};
use crate::models::{
    CapitalGainsTaxBreakdown, CombinedTaxLiability, EstateAsset, EstateDutyBreakdown,
    EstateScenarioInput, LiquidityGapOutput, ResidencyStatus, ScenarioResult, ScenarioTerms,
};
use crate::optimizer::OptimizedScenario;
use crate::scoring::{LiquidityRiskBand, ScenarioScore};
use crate::text::owned;
use vstd::prelude::*;
use vstd::std_specs::convert::FromSpecImpl;

verus! {

/// The registry summary of a jurisdiction.
#[derive(Debug, Clone, PartialEq, Eq)]
pub struct JurisdictionTaxRuleRegistryResponse {
    pub jurisdiction: Jurisdiction,
    pub versions: Vec<TaxRuleVersion>,
    pub supported_tax_year_from: u16,
    pub supported_tax_year_to: Option<u16>,
    pub latest_version_id: &'static str,
}

/// The record of a jurisdiction.
#[derive(Debug, Clone, Copy, PartialEq, Eq, Structural)]
pub enum ApiJurisdiction {
    SouthAfrica,
}

/// The record of a jurisdiction.
pub open spec fn api_jurisdiction(jurisdiction: Jurisdiction) -> ApiJurisdiction {
    match jurisdiction {
        Jurisdiction::SouthAfrica => ApiJurisdiction::SouthAfrica,
    }
}

/// The jurisdiction of a record.
pub open spec fn domain_jurisdiction(api: ApiJurisdiction) -> Jurisdiction {
    match api {
        ApiJurisdiction::SouthAfrica => Jurisdiction::SouthAfrica,
    }
}

impl From<Jurisdiction> for ApiJurisdiction {
    fn from(value: Jurisdiction) -> (api: Self) {
        match value {
            Jurisdiction::SouthAfrica => ApiJurisdiction::SouthAfrica,
        }
    }
}

impl FromSpecImpl<Jurisdiction> for ApiJurisdiction {
    open spec fn obeys_from_spec() -> bool {
        true
    }

    open spec fn from_spec(value: Jurisdiction) -> Self {
        api_jurisdiction(value)
    }
}

impl From<ApiJurisdiction> for Jurisdiction {
    fn from(value: ApiJurisdiction) -> (jurisdiction: Self) {
        match value {
            ApiJurisdiction::SouthAfrica => Jurisdiction::SouthAfrica,
        }
    }
}

impl FromSpecImpl<ApiJurisdiction> for Jurisdiction {
    open spec fn obeys_from_spec() -> bool {
        true
    }

    open spec fn from_spec(value: ApiJurisdiction) -> Self {
        domain_jurisdiction(value)
    }
}

/// The record of a rule version.
#[derive(Debug, Clone, PartialEq, Eq)]
pub struct ApiTaxRuleVersion {
    pub version_id: String,
    pub tax_year_from: u16,
    pub tax_year_to: Option<u16>,
    pub effective_from: String,
    pub effective_to: Option<String>,
    pub source_last_verified_on: String,
}

impl ApiTaxRuleVersion {
    /// Whether this record carries the same values as `version`.
    pub open spec fn mirrors(self, version: TaxRuleVersion) -> bool {
        &&& self.version_id@ == version.version_id@
        &&& self.tax_year_from == version.tax_year_from
        &&& self.tax_year_to == version.tax_year_to
        &&& self.effective_from@ == version.effective_from@
        &&& match (self.effective_to, version.effective_to) {
            (Some(mine), Some(theirs)) => mine@ == theirs@,
            (None, None) => true,
            _ => false,
        }
        &&& self.source_last_verified_on@ == version.source_last_verified_on@
    }

    /// The record of a rule version.
    pub fn of(value: TaxRuleVersion) -> (api: Self)
        ensures
            api.mirrors(value),
    {
        ApiTaxRuleVersion {
            version_id: owned(value.version_id),
            tax_year_from: value.tax_year_from,
            tax_year_to: value.tax_year_to,
            effective_from: owned(value.effective_from),
            effective_to: match value.effective_to {
                Some(date) => Some(owned(date)),
                None => None,
            },
            source_last_verified_on: owned(value.source_last_verified_on),
        }
    }
}

impl From<TaxRuleVersion> for ApiTaxRuleVersion {
    fn from(value: TaxRuleVersion) -> (api: Self) {
        ApiTaxRuleVersion::of(value)
    }
}

impl FromSpecImpl<TaxRuleVersion> for ApiTaxRuleVersion {
    open spec fn obeys_from_spec() -> bool {
        false
    }

    open spec fn from_spec(value: TaxRuleVersion) -> Self {
        arbitrary()
    }
}

/// The record of a registry entry.
#[derive(Debug, Clone, PartialEq, Eq)]
pub struct ApiTaxRuleRegistryEntry {
    pub jurisdiction: ApiJurisdiction,
    pub version: ApiTaxRuleVersion,
}

impl ApiTaxRuleRegistryEntry {
    /// Whether this record carries the same values as `entry`.
    pub open spec fn mirrors(self, entry: TaxRuleRegistryEntry) -> bool {
        &&& self.jurisdiction == api_jurisdiction(entry.jurisdiction)
        &&& self.version.mirrors(entry.version)
    }

    /// The record of a registry entry.
    pub fn of(value: TaxRuleRegistryEntry) -> (api: Self)
        ensures
            api.mirrors(value),
    {
        ApiTaxRuleRegistryEntry {
            jurisdiction: ApiJurisdiction::from(value.jurisdiction),
            version: ApiTaxRuleVersion::of(value.version),
        }
    }
}

impl From<TaxRuleRegistryEntry> for ApiTaxRuleRegistryEntry {
    fn from(value: TaxRuleRegistryEntry) -> (api: Self) {
        ApiTaxRuleRegistryEntry::of(value)
    }
}

impl FromSpecImpl<TaxRuleRegistryEntry> for ApiTaxRuleRegistryEntry {
    open spec fn obeys_from_spec() -> bool {
        false
    }

    open spec fn from_spec(value: TaxRuleRegistryEntry) -> Self {
        arbitrary()
    }
}

/// The record of a registry summary.
#[derive(Debug, Clone, PartialEq, Eq)]
pub struct ApiJurisdictionTaxRuleRegistryResponse {
    pub jurisdiction: ApiJurisdiction,
    pub versions: Vec<ApiTaxRuleVersion>,
    pub supported_tax_year_from: u16,
    pub supported_tax_year_to: Option<u16>,
    pub latest_version_id: String,
}

impl ApiJurisdictionTaxRuleRegistryResponse {
    /// Whether this record carries the same values as `response`.
    pub open spec fn mirrors(self, response: JurisdictionTaxRuleRegistryResponse) -> bool {
        &&& self.jurisdiction == api_jurisdiction(response.jurisdiction)
        &&& self.versions@.len() == response.versions@.len()
        &&& forall|i: int|
            0 <= i < self.versions@.len() ==> (#[trigger] self.versions@[i]).mirrors(
                response.versions@[i],
            )
        &&& self.supported_tax_year_from == response.supported_tax_year_from
        &&& self.supported_tax_year_to == response.supported_tax_year_to
        &&& self.latest_version_id@ == response.latest_version_id@
    }

    /// The record of a registry summary.
    pub fn of(value: JurisdictionTaxRuleRegistryResponse) -> (api: Self)
        ensures
            api.mirrors(value),
    {
        let mut versions: Vec<ApiTaxRuleVersion> = Vec::new();
        let mut i: usize = 0;
        while i < value.versions.len()
            invariant
                i <= value.versions.len(),
                versions@.len() == i,
                forall|k: int|
                    0 <= k < i ==> (#[trigger] versions@[k]).mirrors(value.versions@[k]),
            decreases value.versions.len() - i,
        {
            versions.push(ApiTaxRuleVersion::of(value.versions[i]));
            i += 1;
        }
        ApiJurisdictionTaxRuleRegistryResponse {
            jurisdiction: ApiJurisdiction::from(value.jurisdiction),
            versions,
            supported_tax_year_from: value.supported_tax_year_from,
            supported_tax_year_to: value.supported_tax_year_to,
            latest_version_id: owned(value.latest_version_id),
        }
    }
}

impl From<JurisdictionTaxRuleRegistryResponse> for ApiJurisdictionTaxRuleRegistryResponse {
    fn from(value: JurisdictionTaxRuleRegistryResponse) -> (api: Self) {
        ApiJurisdictionTaxRuleRegistryResponse::of(value)
    }
}

impl FromSpecImpl<JurisdictionTaxRuleRegistryResponse> for ApiJurisdictionTaxRuleRegistryResponse {
    open spec fn obeys_from_spec() -> bool {
        false
    }

    open spec fn from_spec(value: JurisdictionTaxRuleRegistryResponse) -> Self {
        arbitrary()
    }
}

/// The record of an estate duty rule.
#[derive(Debug, Clone, PartialEq, Eq)]
pub struct ApiEstateDutyRule {
    pub section_4a_abatement_zar: i64,
    pub primary_rate: i64,
    pub primary_rate_cap_zar: i64,
    pub secondary_rate: i64,
    pub spouse_deduction_unlimited: bool,
    pub effective_from: String,
    pub source: String,
    pub source_url: String,
}

impl ApiEstateDutyRule {
    /// Whether this record carries the same values as `rule`.
    pub open spec fn mirrors(self, rule: EstateDutyRule) -> bool {
        &&& self.section_4a_abatement_zar == rule.section_4a_abatement_zar
        &&& self.primary_rate == rule.primary_rate
        &&& self.primary_rate_cap_zar == rule.primary_rate_cap_zar
        &&& self.secondary_rate == rule.secondary_rate
        &&& self.spouse_deduction_unlimited == rule.spouse_deduction_unlimited
        &&& self.effective_from@ == rule.effective_from@
        &&& self.source@ == rule.source@
        &&& self.source_url@ == rule.source_url@
    }

    /// The record of an estate duty rule.
    pub fn of(value: EstateDutyRule) -> (api: Self)
        ensures
            api.mirrors(value),
    {
        ApiEstateDutyRule {
            section_4a_abatement_zar: value.section_4a_abatement_zar,
            primary_rate: value.primary_rate,
            primary_rate_cap_zar: value.primary_rate_cap_zar,
            secondary_rate: value.secondary_rate,
            spouse_deduction_unlimited: value.spouse_deduction_unlimited,
            effective_from: owned(value.effective_from),
            source: owned(value.source),
            source_url: owned(value.source_url),
        }
    }
}

impl From<EstateDutyRule> for ApiEstateDutyRule {
    fn from(value: EstateDutyRule) -> (api: Self) {
        ApiEstateDutyRule::of(value)
    }
}

impl FromSpecImpl<EstateDutyRule> for ApiEstateDutyRule {
    open spec fn obeys_from_spec() -> bool {
        false
    }

    open spec fn from_spec(value: EstateDutyRule) -> Self {
        arbitrary()
    }
}

/// The record of a donations tax rule.
#[derive(Debug, Clone, PartialEq, Eq)]
pub struct ApiDonationsTaxRule {
    pub annual_exemption_natural_person_zar: i64,
    pub annual_exemption_non_natural_casual_gifts_zar: i64,
    pub primary_rate: i64,
    pub primary_rate_cap_cumulative_zar: i64,
    pub secondary_rate: i64,
    pub effective_from: String,
    pub source: String,
    pub source_url: String,
}

impl ApiDonationsTaxRule {
    /// Whether this record carries the same values as `rule`.
    pub open spec fn mirrors(self, rule: DonationsTaxRule) -> bool {
        &&& self.annual_exemption_natural_person_zar == rule.annual_exemption_natural_person_zar
        &&& self.annual_exemption_non_natural_casual_gifts_zar
            == rule.annual_exemption_non_natural_casual_gifts_zar
        &&& self.primary_rate == rule.primary_rate
        &&& self.primary_rate_cap_cumulative_zar == rule.primary_rate_cap_cumulative_zar
        &&& self.secondary_rate == rule.secondary_rate
        &&& self.effective_from@ == rule.effective_from@
        &&& self.source@ == rule.source@
        &&& self.source_url@ == rule.source_url@
    }

    /// The record of a donations tax rule.
    pub fn of(value: DonationsTaxRule) -> (api: Self)
        ensures
            api.mirrors(value),
    {
        ApiDonationsTaxRule {
            annual_exemption_natural_person_zar: value.annual_exemption_natural_person_zar,
            annual_exemption_non_natural_casual_gifts_zar: value.annual_exemption_non_natural_casual_gifts_zar,
            primary_rate: value.primary_rate,
            primary_rate_cap_cumulative_zar: value.primary_rate_cap_cumulative_zar,
            secondary_rate: value.secondary_rate,
            effective_from: owned(value.effective_from),
            source: owned(value.source),
            source_url: owned(value.source_url),
        }
    }
}

impl From<DonationsTaxRule> for ApiDonationsTaxRule {
    fn from(value: DonationsTaxRule) -> (api: Self) {
        ApiDonationsTaxRule::of(value)
    }
}

impl FromSpecImpl<DonationsTaxRule> for ApiDonationsTaxRule {
    open spec fn obeys_from_spec() -> bool {
        false
    }

    open spec fn from_spec(value: DonationsTaxRule) -> Self {
        arbitrary()
    }
}

/// The record of a capital gains rule.
#[derive(Debug, Clone, PartialEq, Eq)]
pub struct ApiCapitalGainsAtDeathRule {
    pub annual_exclusion_in_year_of_death_zar: i64,
    pub inclusion_rate_natural_person: i64,
    pub inclusion_rate_company: i64,
    pub inclusion_rate_trust: i64,
    pub base_cost_step_up_to_market_value_on_death: bool,
    pub effective_from: String,
    pub source: String,
    pub source_url: String,
}

impl ApiCapitalGainsAtDeathRule {
    /// Whether this record carries the same values as `rule`.
    pub open spec fn mirrors(self, rule: CapitalGainsAtDeathRule) -> bool {
        &&& self.annual_exclusion_in_year_of_death_zar == rule.annual_exclusion_in_year_of_death_zar
        &&& self.inclusion_rate_natural_person == rule.inclusion_rate_natural_person
        &&& self.inclusion_rate_company == rule.inclusion_rate_company
        &&& self.inclusion_rate_trust == rule.inclusion_rate_trust
        &&& self.base_cost_step_up_to_market_value_on_death
            == rule.base_cost_step_up_to_market_value_on_death
        &&& self.effective_from@ == rule.effective_from@
        &&& self.source@ == rule.source@
        &&& self.source_url@ == rule.source_url@
    }

    /// The record of a capital gains rule.
    pub fn of(value: CapitalGainsAtDeathRule) -> (api: Self)
        ensures
            api.mirrors(value),
    {
        ApiCapitalGainsAtDeathRule {
            annual_exclusion_in_year_of_death_zar: value.annual_exclusion_in_year_of_death_zar,
            inclusion_rate_natural_person: value.inclusion_rate_natural_person,
            inclusion_rate_company: value.inclusion_rate_company,
            inclusion_rate_trust: value.inclusion_rate_trust,
            base_cost_step_up_to_market_value_on_death: value.base_cost_step_up_to_market_value_on_death,
            effective_from: owned(value.effective_from),
            source: owned(value.source),
            source_url: owned(value.source_url),
        }
    }
}

impl From<CapitalGainsAtDeathRule> for ApiCapitalGainsAtDeathRule {
    fn from(value: CapitalGainsAtDeathRule) -> (api: Self) {
        ApiCapitalGainsAtDeathRule::of(value)
    }
}

impl FromSpecImpl<CapitalGainsAtDeathRule> for ApiCapitalGainsAtDeathRule {
    open spec fn obeys_from_spec() -> bool {
        false
    }

    open spec fn from_spec(value: CapitalGainsAtDeathRule) -> Self {
        arbitrary()
    }
}

/// The record of a rule set.
#[derive(Debug, Clone, PartialEq, Eq)]
pub struct ApiJurisdictionTaxRuleSet {
    pub estate_duty: ApiEstateDutyRule,
    pub donations_tax: ApiDonationsTaxRule,
    pub cgt_on_death: ApiCapitalGainsAtDeathRule,
}

impl ApiJurisdictionTaxRuleSet {
    /// Whether this record carries the same values as `rules`.
    pub open spec fn mirrors(self, rules: JurisdictionTaxRuleSet) -> bool {
        &&& self.estate_duty.mirrors(rules.estate_duty)
        &&& self.donations_tax.mirrors(rules.donations_tax)
        &&& self.cgt_on_death.mirrors(rules.cgt_on_death)
    }

    /// The record of a rule set.
    pub fn of(value: JurisdictionTaxRuleSet) -> (api: Self)
        ensures
            api.mirrors(value),
    {
        ApiJurisdictionTaxRuleSet {
            estate_duty: ApiEstateDutyRule::of(value.estate_duty),
            donations_tax: ApiDonationsTaxRule::of(value.donations_tax),
            cgt_on_death: ApiCapitalGainsAtDeathRule::of(value.cgt_on_death),
        }
    }
}

impl From<JurisdictionTaxRuleSet> for ApiJurisdictionTaxRuleSet {
    fn from(value: JurisdictionTaxRuleSet) -> (api: Self) {
        ApiJurisdictionTaxRuleSet::of(value)
    }
}

impl FromSpecImpl<JurisdictionTaxRuleSet> for ApiJurisdictionTaxRuleSet {
    open spec fn obeys_from_spec() -> bool {
        false
    }

    open spec fn from_spec(value: JurisdictionTaxRuleSet) -> Self {
        arbitrary()
    }
}

/// The record of a versioned rule set.
#[derive(Debug, Clone, PartialEq, Eq)]
pub struct ApiVersionedJurisdictionTaxRuleSet {
    pub version: ApiTaxRuleVersion,
    pub rules: ApiJurisdictionTaxRuleSet,
}

impl ApiVersionedJurisdictionTaxRuleSet {
    /// Whether this record carries the same values as `versioned`.
    pub open spec fn mirrors(self, versioned: VersionedJurisdictionTaxRuleSet) -> bool {
        &&& self.version.mirrors(versioned.version)
        &&& self.rules.mirrors(versioned.rules)
    }

    /// The record of a versioned rule set.
    pub fn of(value: VersionedJurisdictionTaxRuleSet) -> (api: Self)
        ensures
            api.mirrors(value),
    {
        ApiVersionedJurisdictionTaxRuleSet {
            version: ApiTaxRuleVersion::of(value.version),
            rules: ApiJurisdictionTaxRuleSet::of(value.rules),
        }
    }
}

impl From<VersionedJurisdictionTaxRuleSet> for ApiVersionedJurisdictionTaxRuleSet {
    fn from(value: VersionedJurisdictionTaxRuleSet) -> (api: Self) {
        ApiVersionedJurisdictionTaxRuleSet::of(value)
    }
}

impl FromSpecImpl<VersionedJurisdictionTaxRuleSet> for ApiVersionedJurisdictionTaxRuleSet {
    open spec fn obeys_from_spec() -> bool {
        false
    }

    open spec fn from_spec(value: VersionedJurisdictionTaxRuleSet) -> Self {
        arbitrary()
    }
}

/// The kind of error that a response reports.
#[derive(Debug, Clone, Copy, PartialEq, Eq, Structural)]
pub enum ApiErrorCode {
    Validation,
    RuleSelection,
    Computation,
}

/// The record of a validation issue.
#[derive(Debug, Clone, PartialEq, Eq)]
pub struct ApiValidationIssue {
    pub field: String,
    pub message: String,
}

/// The response that reports an error.
#[derive(Debug, Clone, PartialEq, Eq)]
pub struct ApiErrorResponse {
    pub code: ApiErrorCode,
    pub message: String,
    pub validation_issues: Vec<ApiValidationIssue>,
}

/// The response of a health probe.
#[derive(Debug, Clone, PartialEq, Eq)]
pub struct ApiHealthResponse {
    pub status: String,
}

/// The record of a taxpayer class.
#[derive(Debug, Clone, Copy, PartialEq, Eq, Structural)]
pub enum ApiTaxPayerClass {
    NaturalPerson,
    Company,
    Trust,
    SpecialTrust,
}

impl From<TaxPayerClass> for ApiTaxPayerClass {
    fn from(value: TaxPayerClass) -> (api: Self) {
        match value {
            TaxPayerClass::NaturalPerson => ApiTaxPayerClass::NaturalPerson,
            TaxPayerClass::Company => ApiTaxPayerClass::Company,
            TaxPayerClass::Trust => ApiTaxPayerClass::Trust,
            TaxPayerClass::SpecialTrust => ApiTaxPayerClass::SpecialTrust,
        }
    }
}

impl FromSpecImpl<TaxPayerClass> for ApiTaxPayerClass {
    open spec fn obeys_from_spec() -> bool {
        true
    }

    open spec fn from_spec(value: TaxPayerClass) -> Self {
        match value {
            TaxPayerClass::NaturalPerson => ApiTaxPayerClass::NaturalPerson,
            TaxPayerClass::Company => ApiTaxPayerClass::Company,
            TaxPayerClass::Trust => ApiTaxPayerClass::Trust,
            TaxPayerClass::SpecialTrust => ApiTaxPayerClass::SpecialTrust,
        }
    }
}

impl From<ApiTaxPayerClass> for TaxPayerClass {
    fn from(value: ApiTaxPayerClass) -> (class: Self) {
        match value {
            ApiTaxPayerClass::NaturalPerson => TaxPayerClass::NaturalPerson,
            ApiTaxPayerClass::Company => TaxPayerClass::Company,
            ApiTaxPayerClass::Trust => TaxPayerClass::Trust,
            ApiTaxPayerClass::SpecialTrust => TaxPayerClass::SpecialTrust,
        }
    }
}

impl FromSpecImpl<ApiTaxPayerClass> for TaxPayerClass {
    open spec fn obeys_from_spec() -> bool {
        true
    }

    open spec fn from_spec(value: ApiTaxPayerClass) -> Self {
        domain_taxpayer_class(value)
    }
}

/// The record of a residency status.
#[derive(Debug, Clone, Copy, PartialEq, Eq, Structural)]
pub enum ApiResidencyStatus {
    Resident,
    NonResident,
}

impl From<ResidencyStatus> for ApiResidencyStatus {
    fn from(value: ResidencyStatus) -> (api: Self) {
        match value {
            ResidencyStatus::Resident => ApiResidencyStatus::Resident,
            ResidencyStatus::NonResident => ApiResidencyStatus::NonResident,
        }
    }
}

impl FromSpecImpl<ResidencyStatus> for ApiResidencyStatus {
    open spec fn obeys_from_spec() -> bool {
        true
    }

    open spec fn from_spec(value: ResidencyStatus) -> Self {
        match value {
            ResidencyStatus::Resident => ApiResidencyStatus::Resident,
            ResidencyStatus::NonResident => ApiResidencyStatus::NonResident,
        }
    }
}

impl From<ApiResidencyStatus> for ResidencyStatus {
    fn from(value: ApiResidencyStatus) -> (status: Self) {
        match value {
            ApiResidencyStatus::Resident => ResidencyStatus::Resident,
            ApiResidencyStatus::NonResident => ResidencyStatus::NonResident,
        }
    }
}

impl FromSpecImpl<ApiResidencyStatus> for ResidencyStatus {
    open spec fn obeys_from_spec() -> bool {
        true
    }

    open spec fn from_spec(value: ApiResidencyStatus) -> Self {
        domain_residency(value)
    }
}

/// The record of a risk band.
#[derive(Debug, Clone, Copy, PartialEq, Eq, Structural)]
pub enum ApiLiquidityRiskBand {
    Low,
    Moderate,
    High,
    Critical,
}

impl From<LiquidityRiskBand> for ApiLiquidityRiskBand {
    fn from(value: LiquidityRiskBand) -> (api: Self) {
        match value {
            LiquidityRiskBand::Low => ApiLiquidityRiskBand::Low,
            LiquidityRiskBand::Moderate => ApiLiquidityRiskBand::Moderate,
            LiquidityRiskBand::High => ApiLiquidityRiskBand::High,
            LiquidityRiskBand::Critical => ApiLiquidityRiskBand::Critical,
        }
    }
}

impl FromSpecImpl<LiquidityRiskBand> for ApiLiquidityRiskBand {
    open spec fn obeys_from_spec() -> bool {
        true
    }

    open spec fn from_spec(value: LiquidityRiskBand) -> Self {
        api_risk_band(value)
    }
}

/// The record of a capital gains breakdown.
#[derive(Debug, Clone, Copy, PartialEq, Eq)]
pub struct ApiCapitalGainsTaxBreakdown {
    pub gross_capital_gain_zar: i128,
    pub primary_residence_exclusion_used_zar: i128,
    pub annual_exclusion_used_zar: i128,
    pub inclusion_rate: i64,
    pub taxable_capital_gain_in_income_zar: i128,
    pub tax_payable_zar: i128,
}

/// The record of capital gains breakdown.
pub open spec fn api_capital_gains_tax_breakdown(value: CapitalGainsTaxBreakdown) -> ApiCapitalGainsTaxBreakdown {
    ApiCapitalGainsTaxBreakdown {
        gross_capital_gain_zar: value.gross_capital_gain_zar,
        primary_residence_exclusion_used_zar: value.primary_residence_exclusion_used_zar,
        annual_exclusion_used_zar: value.annual_exclusion_used_zar,
        inclusion_rate: value.inclusion_rate,
        taxable_capital_gain_in_income_zar: value.taxable_capital_gain_in_income_zar,
        tax_payable_zar: value.tax_payable_zar,
    }
}

/// The capital gains breakdown of a record.
pub open spec fn domain_capital_gains_tax_breakdown(value: ApiCapitalGainsTaxBreakdown) -> CapitalGainsTaxBreakdown {
    CapitalGainsTaxBreakdown {
        gross_capital_gain_zar: value.gross_capital_gain_zar,
        primary_residence_exclusion_used_zar: value.primary_residence_exclusion_used_zar,
        annual_exclusion_used_zar: value.annual_exclusion_used_zar,
        inclusion_rate: value.inclusion_rate,
        taxable_capital_gain_in_income_zar: value.taxable_capital_gain_in_income_zar,
        tax_payable_zar: value.tax_payable_zar,
    }
}

impl From<CapitalGainsTaxBreakdown> for ApiCapitalGainsTaxBreakdown {
    fn from(value: CapitalGainsTaxBreakdown) -> (api: Self) {
        ApiCapitalGainsTaxBreakdown {
            gross_capital_gain_zar: value.gross_capital_gain_zar,
            primary_residence_exclusion_used_zar: value.primary_residence_exclusion_used_zar,
            annual_exclusion_used_zar: value.annual_exclusion_used_zar,
            inclusion_rate: value.inclusion_rate,
            taxable_capital_gain_in_income_zar: value.taxable_capital_gain_in_income_zar,
            tax_payable_zar: value.tax_payable_zar,
        }
    }
}

impl FromSpecImpl<CapitalGainsTaxBreakdown> for ApiCapitalGainsTaxBreakdown {
    open spec fn obeys_from_spec() -> bool {
        true
    }

    open spec fn from_spec(value: CapitalGainsTaxBreakdown) -> Self {
        api_capital_gains_tax_breakdown(value)
    }
}

/// The record of an estate duty breakdown.
#[derive(Debug, Clone, Copy, PartialEq, Eq)]
pub struct ApiEstateDutyBreakdown {
    pub gross_estate_for_estate_duty_zar: i128,
    pub executor_fee_zar: i128,
    pub section_4q_spousal_deduction_zar: i128,
    pub pbo_deduction_zar: i128,
    pub total_allowable_deductions_zar: i128,
    pub section_4a_abatement_used_zar: i128,
    pub dutiable_estate_after_abatement_zar: i128,
    pub tax_payable_zar: i128,
}

/// The record of estate duty breakdown.
pub open spec fn api_estate_duty_breakdown(value: EstateDutyBreakdown) -> ApiEstateDutyBreakdown {
    ApiEstateDutyBreakdown {
        gross_estate_for_estate_duty_zar: value.gross_estate_for_estate_duty_zar,
        executor_fee_zar: value.executor_fee_zar,
        section_4q_spousal_deduction_zar: value.section_4q_spousal_deduction_zar,
        pbo_deduction_zar: value.pbo_deduction_zar,
        total_allowable_deductions_zar: value.total_allowable_deductions_zar,
        section_4a_abatement_used_zar: value.section_4a_abatement_used_zar,
        dutiable_estate_after_abatement_zar: value.dutiable_estate_after_abatement_zar,
        tax_payable_zar: value.tax_payable_zar,
    }
}

/// The estate duty breakdown of a record.
pub open spec fn domain_estate_duty_breakdown(value: ApiEstateDutyBreakdown) -> EstateDutyBreakdown {
    EstateDutyBreakdown {
        gross_estate_for_estate_duty_zar: value.gross_estate_for_estate_duty_zar,
        executor_fee_zar: value.executor_fee_zar,
        section_4q_spousal_deduction_zar: value.section_4q_spousal_deduction_zar,
        pbo_deduction_zar: value.pbo_deduction_zar,
        total_allowable_deductions_zar: value.total_allowable_deductions_zar,
        section_4a_abatement_used_zar: value.section_4a_abatement_used_zar,
        dutiable_estate_after_abatement_zar: value.dutiable_estate_after_abatement_zar,
        tax_payable_zar: value.tax_payable_zar,
    }
}

impl From<EstateDutyBreakdown> for ApiEstateDutyBreakdown {
    fn from(value: EstateDutyBreakdown) -> (api: Self) {
        ApiEstateDutyBreakdown {
            gross_estate_for_estate_duty_zar: value.gross_estate_for_estate_duty_zar,
            executor_fee_zar: value.executor_fee_zar,
            section_4q_spousal_deduction_zar: value.section_4q_spousal_deduction_zar,
            pbo_deduction_zar: value.pbo_deduction_zar,
            total_allowable_deductions_zar: value.total_allowable_deductions_zar,
            section_4a_abatement_used_zar: value.section_4a_abatement_used_zar,
            dutiable_estate_after_abatement_zar: value.dutiable_estate_after_abatement_zar,
            tax_payable_zar: value.tax_payable_zar,
        }
    }
}

impl FromSpecImpl<EstateDutyBreakdown> for ApiEstateDutyBreakdown {
    open spec fn obeys_from_spec() -> bool {
        true
    }

    open spec fn from_spec(value: EstateDutyBreakdown) -> Self {
        api_estate_duty_breakdown(value)
    }
}

/// The record of a combined tax liability.
#[derive(Debug, Clone, Copy, PartialEq, Eq)]
pub struct ApiCombinedTaxLiability {
    pub estate_duty_zar: i128,
    pub cgt_on_death_zar: i128,
    pub final_income_tax_zar: i128,
    pub ongoing_estate_income_tax_provision_zar: i128,
    pub total_tax_liability_zar: i128,
}

/// The record of combined tax liability.
pub open spec fn api_combined_tax_liability(value: CombinedTaxLiability) -> ApiCombinedTaxLiability {
    ApiCombinedTaxLiability {
        estate_duty_zar: value.estate_duty_zar,
        cgt_on_death_zar: value.cgt_on_death_zar,
        final_income_tax_zar: value.final_income_tax_zar,
        ongoing_estate_income_tax_provision_zar: value.ongoing_estate_income_tax_provision_zar,
        total_tax_liability_zar: value.total_tax_liability_zar,
    }
}

/// The combined tax liability of a record.
pub open spec fn domain_combined_tax_liability(value: ApiCombinedTaxLiability) -> CombinedTaxLiability {
    CombinedTaxLiability {
        estate_duty_zar: value.estate_duty_zar,
        cgt_on_death_zar: value.cgt_on_death_zar,
        final_income_tax_zar: value.final_income_tax_zar,
        ongoing_estate_income_tax_provision_zar: value.ongoing_estate_income_tax_provision_zar,
        total_tax_liability_zar: value.total_tax_liability_zar,
    }
}

impl From<CombinedTaxLiability> for ApiCombinedTaxLiability {
    fn from(value: CombinedTaxLiability) -> (api: Self) {
        ApiCombinedTaxLiability {
            estate_duty_zar: value.estate_duty_zar,
            cgt_on_death_zar: value.cgt_on_death_zar,
            final_income_tax_zar: value.final_income_tax_zar,
            ongoing_estate_income_tax_provision_zar: value.ongoing_estate_income_tax_provision_zar,
            total_tax_liability_zar: value.total_tax_liability_zar,
        }
    }
}

impl FromSpecImpl<CombinedTaxLiability> for ApiCombinedTaxLiability {
    open spec fn obeys_from_spec() -> bool {
        true
    }

    open spec fn from_spec(value: CombinedTaxLiability) -> Self {
        api_combined_tax_liability(value)
    }
}

/// The record of a liquidity position.
#[derive(Debug, Clone, Copy, PartialEq, Eq)]
pub struct ApiLiquidityGapOutput {
    pub liquid_assets_in_estate_zar: i128,
    pub external_liquidity_proceeds_zar: i128,
    pub cash_reserve_zar: i128,
    pub total_available_liquidity_zar: i128,
    pub executor_fee_zar: i128,
    pub immediate_cash_requirements_zar: i128,
    pub liquidity_gap_zar: i128,
    pub liquidity_surplus_zar: i128,
}

/// The record of liquidity position.
pub open spec fn api_liquidity_gap_output(value: LiquidityGapOutput) -> ApiLiquidityGapOutput {
    ApiLiquidityGapOutput {
        liquid_assets_in_estate_zar: value.liquid_assets_in_estate_zar,
        external_liquidity_proceeds_zar: value.external_liquidity_proceeds_zar,
        cash_reserve_zar: value.cash_reserve_zar,
        total_available_liquidity_zar: value.total_available_liquidity_zar,
        executor_fee_zar: value.executor_fee_zar,
        immediate_cash_requirements_zar: value.immediate_cash_requirements_zar,
        liquidity_gap_zar: value.liquidity_gap_zar,
        liquidity_surplus_zar: value.liquidity_surplus_zar,
    }
}

/// The liquidity position of a record.
pub open spec fn domain_liquidity_gap_output(value: ApiLiquidityGapOutput) -> LiquidityGapOutput {
    LiquidityGapOutput {
        liquid_assets_in_estate_zar: value.liquid_assets_in_estate_zar,
        external_liquidity_proceeds_zar: value.external_liquidity_proceeds_zar,
        cash_reserve_zar: value.cash_reserve_zar,
        total_available_liquidity_zar: value.total_available_liquidity_zar,
        executor_fee_zar: value.executor_fee_zar,
        immediate_cash_requirements_zar: value.immediate_cash_requirements_zar,
        liquidity_gap_zar: value.liquidity_gap_zar,
        liquidity_surplus_zar: value.liquidity_surplus_zar,
    }
}

impl From<LiquidityGapOutput> for ApiLiquidityGapOutput {
    fn from(value: LiquidityGapOutput) -> (api: Self) {
        ApiLiquidityGapOutput {
            liquid_assets_in_estate_zar: value.liquid_assets_in_estate_zar,
            external_liquidity_proceeds_zar: value.external_liquidity_proceeds_zar,
            cash_reserve_zar: value.cash_reserve_zar,
            total_available_liquidity_zar: value.total_available_liquidity_zar,
            executor_fee_zar: value.executor_fee_zar,
            immediate_cash_requirements_zar: value.immediate_cash_requirements_zar,
            liquidity_gap_zar: value.liquidity_gap_zar,
            liquidity_surplus_zar: value.liquidity_surplus_zar,
        }
    }
}

impl FromSpecImpl<LiquidityGapOutput> for ApiLiquidityGapOutput {
    open spec fn obeys_from_spec() -> bool {
        true
    }

    open spec fn from_spec(value: LiquidityGapOutput) -> Self {
        api_liquidity_gap_output(value)
    }
}

/// The record of an asset.
#[derive(Debug, Clone, PartialEq, Eq)]
pub struct ApiEstateAssetInput {
    pub name: String,
    pub market_value_zar: i64,
    pub base_cost_zar: i64,
    pub is_liquid: bool,
    pub situs_in_south_africa: bool,
    pub included_in_estate_duty: bool,
    pub included_in_cgt_deemed_disposal: bool,
    pub bequeathed_to_surviving_spouse: bool,
    pub bequeathed_to_pbo: bool,
    pub qualifies_primary_residence_exclusion: bool,
}

/// The asset of a record.
pub open spec fn domain_asset(value: ApiEstateAssetInput) -> EstateAsset {
    EstateAsset {
        name: value.name,
        market_value_zar: value.market_value_zar,
        base_cost_zar: value.base_cost_zar,
        is_liquid: value.is_liquid,
        situs_in_south_africa: value.situs_in_south_africa,
        included_in_estate_duty: value.included_in_estate_duty,
        included_in_cgt_deemed_disposal: value.included_in_cgt_deemed_disposal,
        bequeathed_to_surviving_spouse: value.bequeathed_to_surviving_spouse,
        bequeathed_to_pbo: value.bequeathed_to_pbo,
        qualifies_primary_residence_exclusion: value.qualifies_primary_residence_exclusion,
    }
}

/// The record of an asset.
pub open spec fn api_asset(value: EstateAsset) -> ApiEstateAssetInput {
    ApiEstateAssetInput {
        name: value.name,
        market_value_zar: value.market_value_zar,
        base_cost_zar: value.base_cost_zar,
        is_liquid: value.is_liquid,
        situs_in_south_africa: value.situs_in_south_africa,
        included_in_estate_duty: value.included_in_estate_duty,
        included_in_cgt_deemed_disposal: value.included_in_cgt_deemed_disposal,
        bequeathed_to_surviving_spouse: value.bequeathed_to_surviving_spouse,
        bequeathed_to_pbo: value.bequeathed_to_pbo,
        qualifies_primary_residence_exclusion: value.qualifies_primary_residence_exclusion,
    }
}

impl From<ApiEstateAssetInput> for EstateAsset {
    fn from(value: ApiEstateAssetInput) -> (asset: Self) {
        EstateAsset {
            name: value.name,
            market_value_zar: value.market_value_zar,
            base_cost_zar: value.base_cost_zar,
            is_liquid: value.is_liquid,
            situs_in_south_africa: value.situs_in_south_africa,
            included_in_estate_duty: value.included_in_estate_duty,
            included_in_cgt_deemed_disposal: value.included_in_cgt_deemed_disposal,
            bequeathed_to_surviving_spouse: value.bequeathed_to_surviving_spouse,
            bequeathed_to_pbo: value.bequeathed_to_pbo,
            qualifies_primary_residence_exclusion: value.qualifies_primary_residence_exclusion,
        }
    }
}

impl FromSpecImpl<ApiEstateAssetInput> for EstateAsset {
    open spec fn obeys_from_spec() -> bool {
        true
    }

    open spec fn from_spec(value: ApiEstateAssetInput) -> Self {
        domain_asset(value)
    }
}

impl From<EstateAsset> for ApiEstateAssetInput {
    fn from(value: EstateAsset) -> (api: Self) {
        ApiEstateAssetInput {
            name: value.name,
            market_value_zar: value.market_value_zar,
            base_cost_zar: value.base_cost_zar,
            is_liquid: value.is_liquid,
            situs_in_south_africa: value.situs_in_south_africa,
            included_in_estate_duty: value.included_in_estate_duty,
            included_in_cgt_deemed_disposal: value.included_in_cgt_deemed_disposal,
            bequeathed_to_surviving_spouse: value.bequeathed_to_surviving_spouse,
            bequeathed_to_pbo: value.bequeathed_to_pbo,
            qualifies_primary_residence_exclusion: value.qualifies_primary_residence_exclusion,
        }
    }
}

impl FromSpecImpl<EstateAsset> for ApiEstateAssetInput {
    open spec fn obeys_from_spec() -> bool {
        true
    }

    open spec fn from_spec(value: EstateAsset) -> Self {
        api_asset(value)
    }
}

/// The taxpayer class of a record.
pub open spec fn domain_taxpayer_class(value: ApiTaxPayerClass) -> TaxPayerClass {
    match value {
        ApiTaxPayerClass::NaturalPerson => TaxPayerClass::NaturalPerson,
        ApiTaxPayerClass::Company => TaxPayerClass::Company,
        ApiTaxPayerClass::Trust => TaxPayerClass::Trust,
        ApiTaxPayerClass::SpecialTrust => TaxPayerClass::SpecialTrust,
    }
}

/// The residency of a record.
pub open spec fn domain_residency(value: ApiResidencyStatus) -> ResidencyStatus {
    match value {
        ApiResidencyStatus::Resident => ResidencyStatus::Resident,
        ApiResidencyStatus::NonResident => ResidencyStatus::NonResident,
    }
}

/// The record of a scenario.
#[derive(Debug, Clone, PartialEq, Eq)]
pub struct ApiEstateScenarioInput {
    pub jurisdiction: ApiJurisdiction,
    pub tax_year: u16,
    pub taxpayer_class: ApiTaxPayerClass,
    pub residency_status: ApiResidencyStatus,
    pub marginal_income_tax_rate: i64,
    pub assets: Vec<ApiEstateAssetInput>,
    pub debts_and_loans_zar: i64,
    pub funeral_costs_zar: i64,
    pub administration_costs_zar: i64,
    pub masters_office_fees_zar: i64,
    pub conveyancing_costs_zar: i64,
    pub other_settlement_costs_zar: i64,
    pub final_income_tax_due_zar: i64,
    pub ongoing_estate_income_tax_provision_zar: i64,
    pub additional_allowable_estate_duty_deductions_zar: i64,
    pub ported_section_4a_abatement_zar: i64,
    pub primary_residence_cgt_exclusion_cap_zar: i64,
    pub executor_fee_rate: i64,
    pub vat_rate: i64,
    pub explicit_executor_fee_zar: Option<i64>,
    pub external_liquidity_proceeds_zar: i64,
    pub cash_reserve_zar: i64,
}

impl View for ApiEstateScenarioInput {
    type V = ScenarioTerms;

    open spec fn view(&self) -> ScenarioTerms {
        ScenarioTerms {
            jurisdiction: domain_jurisdiction(self.jurisdiction),
            tax_year: self.tax_year,
            taxpayer_class: domain_taxpayer_class(self.taxpayer_class),
            residency_status: domain_residency(self.residency_status),
            marginal_income_tax_rate: self.marginal_income_tax_rate,
            assets: Seq::new(self.assets@.len(), |i: int| domain_asset(self.assets@[i])),
            debts_and_loans_zar: self.debts_and_loans_zar,
            funeral_costs_zar: self.funeral_costs_zar,
            administration_costs_zar: self.administration_costs_zar,
            masters_office_fees_zar: self.masters_office_fees_zar,
            conveyancing_costs_zar: self.conveyancing_costs_zar,
            other_settlement_costs_zar: self.other_settlement_costs_zar,
            final_income_tax_due_zar: self.final_income_tax_due_zar,
            ongoing_estate_income_tax_provision_zar: self.ongoing_estate_income_tax_provision_zar,
            additional_allowable_estate_duty_deductions_zar: self.additional_allowable_estate_duty_deductions_zar,
            ported_section_4a_abatement_zar: self.ported_section_4a_abatement_zar,
            primary_residence_cgt_exclusion_cap_zar: self.primary_residence_cgt_exclusion_cap_zar,
            executor_fee_rate: self.executor_fee_rate,
            vat_rate: self.vat_rate,
            explicit_executor_fee_zar: self.explicit_executor_fee_zar,
            external_liquidity_proceeds_zar: self.external_liquidity_proceeds_zar,
            cash_reserve_zar: self.cash_reserve_zar,
        }
    }
}

impl ApiEstateScenarioInput {
    /// The scenario that this record describes.
    pub fn to_domain(&self) -> (input: EstateScenarioInput)
        ensures
            input@ == self@,
    {
        let mut assets: Vec<EstateAsset> = Vec::new();
        let mut i: usize = 0;
        while i < self.assets.len()
            invariant
                i <= self.assets.len(),
                assets@.len() == i,
                forall|k: int| 0 <= k < i ==> assets@[k] == domain_asset(#[trigger] self.assets@[k]),
            decreases self.assets.len() - i,
        {
            let asset = &self.assets[i];
            assets.push(
                EstateAsset {
                    name: asset.name.clone(),
                    market_value_zar: asset.market_value_zar,
                    base_cost_zar: asset.base_cost_zar,
                    is_liquid: asset.is_liquid,
                    situs_in_south_africa: asset.situs_in_south_africa,
                    included_in_estate_duty: asset.included_in_estate_duty,
                    included_in_cgt_deemed_disposal: asset.included_in_cgt_deemed_disposal,
                    bequeathed_to_surviving_spouse: asset.bequeathed_to_surviving_spouse,
                    bequeathed_to_pbo: asset.bequeathed_to_pbo,
                    qualifies_primary_residence_exclusion: asset.qualifies_primary_residence_exclusion,
                },
            );
            i += 1;
        }
        let input = EstateScenarioInput {
            jurisdiction: Jurisdiction::from(self.jurisdiction),
            tax_year: self.tax_year,
            taxpayer_class: TaxPayerClass::from(self.taxpayer_class),
            residency_status: ResidencyStatus::from(self.residency_status),
            marginal_income_tax_rate: self.marginal_income_tax_rate,
            assets,
            debts_and_loans_zar: self.debts_and_loans_zar,
            funeral_costs_zar: self.funeral_costs_zar,
            administration_costs_zar: self.administration_costs_zar,
            masters_office_fees_zar: self.masters_office_fees_zar,
            conveyancing_costs_zar: self.conveyancing_costs_zar,
            other_settlement_costs_zar: self.other_settlement_costs_zar,
            final_income_tax_due_zar: self.final_income_tax_due_zar,
            ongoing_estate_income_tax_provision_zar: self.ongoing_estate_income_tax_provision_zar,
            additional_allowable_estate_duty_deductions_zar: self.additional_allowable_estate_duty_deductions_zar,
            ported_section_4a_abatement_zar: self.ported_section_4a_abatement_zar,
            primary_residence_cgt_exclusion_cap_zar: self.primary_residence_cgt_exclusion_cap_zar,
            executor_fee_rate: self.executor_fee_rate,
            vat_rate: self.vat_rate,
            explicit_executor_fee_zar: self.explicit_executor_fee_zar,
            external_liquidity_proceeds_zar: self.external_liquidity_proceeds_zar,
            cash_reserve_zar: self.cash_reserve_zar,
        };
        assert(input@.assets =~= self@.assets);
        input
    }

    /// The record of a scenario.
    pub fn of(value: EstateScenarioInput) -> (api: Self)
        ensures
            api@ == value@,
    {
        let mut assets: Vec<ApiEstateAssetInput> = Vec::new();
        let mut i: usize = 0;
        while i < value.assets.len()
            invariant
                i <= value.assets.len(),
                assets@.len() == i,
                forall|k: int| 0 <= k < i ==> domain_asset(#[trigger] assets@[k]) == value.assets@[k],
            decreases value.assets.len() - i,
        {
            let asset = &value.assets[i];
            assets.push(
                ApiEstateAssetInput {
                    name: asset.name.clone(),
                    market_value_zar: asset.market_value_zar,
                    base_cost_zar: asset.base_cost_zar,
                    is_liquid: asset.is_liquid,
                    situs_in_south_africa: asset.situs_in_south_africa,
                    included_in_estate_duty: asset.included_in_estate_duty,
                    included_in_cgt_deemed_disposal: asset.included_in_cgt_deemed_disposal,
                    bequeathed_to_surviving_spouse: asset.bequeathed_to_surviving_spouse,
                    bequeathed_to_pbo: asset.bequeathed_to_pbo,
                    qualifies_primary_residence_exclusion: asset.qualifies_primary_residence_exclusion,
                },
            );
            i += 1;
        }
        let api = ApiEstateScenarioInput {
            jurisdiction: ApiJurisdiction::from(value.jurisdiction),
            tax_year: value.tax_year,
            taxpayer_class: ApiTaxPayerClass::from(value.taxpayer_class),
            residency_status: ApiResidencyStatus::from(value.residency_status),
            marginal_income_tax_rate: value.marginal_income_tax_rate,
            assets,
            debts_and_loans_zar: value.debts_and_loans_zar,
            funeral_costs_zar: value.funeral_costs_zar,
            administration_costs_zar: value.administration_costs_zar,
            masters_office_fees_zar: value.masters_office_fees_zar,
            conveyancing_costs_zar: value.conveyancing_costs_zar,
            other_settlement_costs_zar: value.other_settlement_costs_zar,
            final_income_tax_due_zar: value.final_income_tax_due_zar,
            ongoing_estate_income_tax_provision_zar: value.ongoing_estate_income_tax_provision_zar,
            additional_allowable_estate_duty_deductions_zar: value.additional_allowable_estate_duty_deductions_zar,
            ported_section_4a_abatement_zar: value.ported_section_4a_abatement_zar,
            primary_residence_cgt_exclusion_cap_zar: value.primary_residence_cgt_exclusion_cap_zar,
            executor_fee_rate: value.executor_fee_rate,
            vat_rate: value.vat_rate,
            explicit_executor_fee_zar: value.explicit_executor_fee_zar,
            external_liquidity_proceeds_zar: value.external_liquidity_proceeds_zar,
            cash_reserve_zar: value.cash_reserve_zar,
        };
        assert(api@.assets =~= value@.assets);
        api
    }
}

impl From<ApiEstateScenarioInput> for EstateScenarioInput {
    fn from(value: ApiEstateScenarioInput) -> (input: Self) {
        value.to_domain()
    }
}

impl FromSpecImpl<ApiEstateScenarioInput> for EstateScenarioInput {
    open spec fn obeys_from_spec() -> bool {
        false
    }

    open spec fn from_spec(value: ApiEstateScenarioInput) -> Self {
        arbitrary()
    }
}

impl From<EstateScenarioInput> for ApiEstateScenarioInput {
    fn from(value: EstateScenarioInput) -> (api: Self) {
        ApiEstateScenarioInput::of(value)
    }
}

impl FromSpecImpl<EstateScenarioInput> for ApiEstateScenarioInput {
    open spec fn obeys_from_spec() -> bool {
        false
    }

    open spec fn from_spec(value: EstateScenarioInput) -> Self {
        arbitrary()
    }
}

/// The record of a scenario result.
#[derive(Debug, Clone, Copy, PartialEq, Eq)]
pub struct ApiScenarioResult {
    pub cgt: ApiCapitalGainsTaxBreakdown,
    pub estate_duty: ApiEstateDutyBreakdown,
    pub combined_tax: ApiCombinedTaxLiability,
    pub liquidity: ApiLiquidityGapOutput,
}

/// The record of a scenario result.
pub open spec fn api_scenario_result(value: ScenarioResult) -> ApiScenarioResult {
    ApiScenarioResult {
        cgt: api_capital_gains_tax_breakdown(value.cgt),
        estate_duty: api_estate_duty_breakdown(value.estate_duty),
        combined_tax: api_combined_tax_liability(value.combined_tax),
        liquidity: api_liquidity_gap_output(value.liquidity),
    }
}

/// The scenario result of a record.
pub open spec fn domain_scenario_result(value: ApiScenarioResult) -> ScenarioResult {
    ScenarioResult {
        cgt: domain_capital_gains_tax_breakdown(value.cgt),
        estate_duty: domain_estate_duty_breakdown(value.estate_duty),
        combined_tax: domain_combined_tax_liability(value.combined_tax),
        liquidity: domain_liquidity_gap_output(value.liquidity),
    }
}

impl From<ScenarioResult> for ApiScenarioResult {
    fn from(value: ScenarioResult) -> (api: Self) {
        ApiScenarioResult {
            cgt: ApiCapitalGainsTaxBreakdown::from(value.cgt),
            estate_duty: ApiEstateDutyBreakdown::from(value.estate_duty),
            combined_tax: ApiCombinedTaxLiability::from(value.combined_tax),
            liquidity: ApiLiquidityGapOutput::from(value.liquidity),
        }
    }
}

impl FromSpecImpl<ScenarioResult> for ApiScenarioResult {
    open spec fn obeys_from_spec() -> bool {
        true
    }

    open spec fn from_spec(value: ScenarioResult) -> Self {
        api_scenario_result(value)
    }
}

/// The record of a risk band.
pub open spec fn api_risk_band(value: LiquidityRiskBand) -> ApiLiquidityRiskBand {
    match value {
        LiquidityRiskBand::Low => ApiLiquidityRiskBand::Low,
        LiquidityRiskBand::Moderate => ApiLiquidityRiskBand::Moderate,
        LiquidityRiskBand::High => ApiLiquidityRiskBand::High,
        LiquidityRiskBand::Critical => ApiLiquidityRiskBand::Critical,
    }
}

/// The risk band of a record.
pub open spec fn domain_risk_band(value: ApiLiquidityRiskBand) -> LiquidityRiskBand {
    match value {
        ApiLiquidityRiskBand::Low => LiquidityRiskBand::Low,
        ApiLiquidityRiskBand::Moderate => LiquidityRiskBand::Moderate,
        ApiLiquidityRiskBand::High => LiquidityRiskBand::High,
        ApiLiquidityRiskBand::Critical => LiquidityRiskBand::Critical,
    }
}

/// The record of a score.
#[derive(Debug, Clone, Copy, PartialEq, Eq)]
pub struct ApiScenarioScore {
    pub tax_burden_ratio: i128,
    pub liquidity_cover_ratio: i128,
    pub liquidity_risk_band: ApiLiquidityRiskBand,
    pub composite_score: i128,
}

/// The record of a score.
pub open spec fn api_scenario_score(value: ScenarioScore) -> ApiScenarioScore {
    ApiScenarioScore {
        tax_burden_ratio: value.tax_burden_ratio,
        liquidity_cover_ratio: value.liquidity_cover_ratio,
        liquidity_risk_band: api_risk_band(value.liquidity_risk_band),
        composite_score: value.composite_score,
    }
}

/// The score of a record.
pub open spec fn domain_scenario_score(value: ApiScenarioScore) -> ScenarioScore {
    ScenarioScore {
        tax_burden_ratio: value.tax_burden_ratio,
        liquidity_cover_ratio: value.liquidity_cover_ratio,
        liquidity_risk_band: domain_risk_band(value.liquidity_risk_band),
        composite_score: value.composite_score,
    }
}

impl From<ScenarioScore> for ApiScenarioScore {
    fn from(value: ScenarioScore) -> (api: Self) {
        ApiScenarioScore {
            tax_burden_ratio: value.tax_burden_ratio,
            liquidity_cover_ratio: value.liquidity_cover_ratio,
            liquidity_risk_band: ApiLiquidityRiskBand::from(value.liquidity_risk_band),
            composite_score: value.composite_score,
        }
    }
}

impl FromSpecImpl<ScenarioScore> for ApiScenarioScore {
    open spec fn obeys_from_spec() -> bool {
        true
    }

    open spec fn from_spec(value: ScenarioScore) -> Self {
        api_scenario_score(value)
    }
}

/// The record of a chosen scenario.
#[derive(Debug, Clone, PartialEq, Eq)]
pub struct ApiOptimizedScenario {
    pub index: usize,
    pub input: ApiEstateScenarioInput,
    pub result: ApiScenarioResult,
    pub score: ApiScenarioScore,
}

impl ApiOptimizedScenario {
    /// Whether this record carries the same values as `chosen`.
    pub open spec fn mirrors(self, chosen: OptimizedScenario) -> bool {
        &&& self.index == chosen.index
        &&& self.input@ == chosen.input@
        &&& self.result == api_scenario_result(chosen.result)
        &&& self.score == api_scenario_score(chosen.score)
    }

    /// The record of a chosen scenario.
    pub fn of(value: OptimizedScenario) -> (api: Self)
        ensures
            api.mirrors(value),
    {
        ApiOptimizedScenario {
            index: value.index,
            input: ApiEstateScenarioInput::of(value.input),
            result: ApiScenarioResult::from(value.result),
            score: ApiScenarioScore::from(value.score),
        }
    }
}

impl From<OptimizedScenario> for ApiOptimizedScenario {
    fn from(value: OptimizedScenario) -> (api: Self) {
        ApiOptimizedScenario::of(value)
    }
}

impl FromSpecImpl<OptimizedScenario> for ApiOptimizedScenario {
    open spec fn obeys_from_spec() -> bool {
        false
    }

    open spec fn from_spec(value: OptimizedScenario) -> Self {
        arbitrary()
    }
}

} // verus!
