//! Scenario inputs and the breakdown records that a calculation produces.
//!
//! Amounts are millionths of a rand; rates are parts per million.

use crate::money::{floor_zero, SCORABLE_LIMIT};
use crate::rules::{Jurisdiction, TaxPayerClass};
use vstd::prelude::*;

verus! {

/// Whether the deceased was resident for tax purposes.
#[derive(Debug, Clone, Copy, PartialEq, Eq, Structural)]
pub enum ResidencyStatus {
    Resident,
    NonResident,
}

/// One asset of the estate. Amounts are millionths of a rand.
#[derive(Debug, Clone)]
pub struct EstateAsset {
    pub name: String,
    pub market_value_zar: i64,
    pub base_cost_zar: i64,
    pub is_liquid: bool,
    pub situs_in_south_africa: bool,
    pub included_in_estate_duty: bool,
    pub included_in_cgt_deemed_disposal: bool,
    pub bequeathed_to_surviving_spouse: bool,
    pub bequeathed_to_pbo: bool,
    pub qualifies_primary_residence_exclusion: bool,
}

impl EstateAsset {
    /// The gain on deemed disposal: market value less base cost, never
    /// below zero.
    pub open spec fn spec_raw_capital_gain(self) -> int {
        floor_zero(self.market_value_zar - self.base_cost_zar)
    }

    /// The gain on deemed disposal, never below zero.
    pub fn raw_capital_gain_zar(&self) -> (gain: i128)
        ensures
            gain == self.spec_raw_capital_gain(),
    {
        let gain: i128 = self.market_value_zar as i128 - self.base_cost_zar as i128;
        if gain < 0 {
            0
        } else {
            gain
        }
    }
}

/// One scenario: the estate, its costs and the rates that apply.
/// Amounts are millionths of a rand, rates parts per million.
#[derive(Debug, Clone)]
pub struct EstateScenarioInput {
    pub jurisdiction: Jurisdiction,
    pub tax_year: u16,
    pub taxpayer_class: TaxPayerClass,
    pub residency_status: ResidencyStatus,
    pub marginal_income_tax_rate: i64,
    pub assets: Vec<EstateAsset>,
    pub debts_and_loans_zar: i64,
    pub funeral_costs_zar: i64,
    pub administration_costs_zar: i64,
    pub masters_office_fees_zar: i64,
    pub conveyancing_costs_zar: i64,
    pub other_settlement_costs_zar: i64,
    pub final_income_tax_due_zar: i64,
    pub ongoing_estate_income_tax_provision_zar: i64,
    pub additional_allowable_estate_duty_deductions_zar: i64,
    pub ported_section_4a_abatement_zar: i64,
    pub primary_residence_cgt_exclusion_cap_zar: i64,
    pub executor_fee_rate: i64,
    pub vat_rate: i64,
    pub explicit_executor_fee_zar: Option<i64>,
    pub external_liquidity_proceeds_zar: i64,
    pub cash_reserve_zar: i64,
}

/// What a calculation reads of a scenario: the scalar fields as they are,
/// and the assets as a sequence in list order.
pub struct ScenarioTerms {
    pub jurisdiction: Jurisdiction,
    pub tax_year: u16,
    pub taxpayer_class: TaxPayerClass,
    pub residency_status: ResidencyStatus,
    pub marginal_income_tax_rate: i64,
    pub assets: Seq<EstateAsset>,
    pub debts_and_loans_zar: i64,
    pub funeral_costs_zar: i64,
    pub administration_costs_zar: i64,
    pub masters_office_fees_zar: i64,
    pub conveyancing_costs_zar: i64,
    pub other_settlement_costs_zar: i64,
    pub final_income_tax_due_zar: i64,
    pub ongoing_estate_income_tax_provision_zar: i64,
    pub additional_allowable_estate_duty_deductions_zar: i64,
    pub ported_section_4a_abatement_zar: i64,
    pub primary_residence_cgt_exclusion_cap_zar: i64,
    pub executor_fee_rate: i64,
    pub vat_rate: i64,
    pub explicit_executor_fee_zar: Option<i64>,
    pub external_liquidity_proceeds_zar: i64,
    pub cash_reserve_zar: i64,
}

impl View for EstateScenarioInput {
    type V = ScenarioTerms;

    open spec fn view(&self) -> ScenarioTerms {
        ScenarioTerms {
            jurisdiction: self.jurisdiction,
            tax_year: self.tax_year,
            taxpayer_class: self.taxpayer_class,
            residency_status: self.residency_status,
            marginal_income_tax_rate: self.marginal_income_tax_rate,
            assets: self.assets@,
            debts_and_loans_zar: self.debts_and_loans_zar,
            funeral_costs_zar: self.funeral_costs_zar,
            administration_costs_zar: self.administration_costs_zar,
            masters_office_fees_zar: self.masters_office_fees_zar,
            conveyancing_costs_zar: self.conveyancing_costs_zar,
            other_settlement_costs_zar: self.other_settlement_costs_zar,
            final_income_tax_due_zar: self.final_income_tax_due_zar,
            ongoing_estate_income_tax_provision_zar: self.ongoing_estate_income_tax_provision_zar,
            additional_allowable_estate_duty_deductions_zar: self.additional_allowable_estate_duty_deductions_zar,
            ported_section_4a_abatement_zar: self.ported_section_4a_abatement_zar,
            primary_residence_cgt_exclusion_cap_zar: self.primary_residence_cgt_exclusion_cap_zar,
            executor_fee_rate: self.executor_fee_rate,
            vat_rate: self.vat_rate,
            explicit_executor_fee_zar: self.explicit_executor_fee_zar,
            external_liquidity_proceeds_zar: self.external_liquidity_proceeds_zar,
            cash_reserve_zar: self.cash_reserve_zar,
        }
    }
}

impl Default for EstateScenarioInput {
    fn default() -> (input: Self)
        ensures
            input.jurisdiction == Jurisdiction::SouthAfrica,
            input.tax_year == 2026,
            input.taxpayer_class == TaxPayerClass::NaturalPerson,
            input.residency_status == ResidencyStatus::Resident,
            input.marginal_income_tax_rate == 450_000,
            input.assets@.len() == 0,
            input.debts_and_loans_zar == 0,
            input.funeral_costs_zar == 0,
            input.administration_costs_zar == 0,
            input.masters_office_fees_zar == 0,
            input.conveyancing_costs_zar == 0,
            input.other_settlement_costs_zar == 0,
            input.final_income_tax_due_zar == 0,
            input.ongoing_estate_income_tax_provision_zar == 0,
            input.additional_allowable_estate_duty_deductions_zar == 0,
            input.ported_section_4a_abatement_zar == 0,
            input.primary_residence_cgt_exclusion_cap_zar == 2_000_000_000_000,
            input.executor_fee_rate == 35_000,
            input.vat_rate == 150_000,
            input.explicit_executor_fee_zar is None,
            input.external_liquidity_proceeds_zar == 0,
            input.cash_reserve_zar == 0,
    {
        Self {
            jurisdiction: Jurisdiction::SouthAfrica,
            tax_year: 2026,
            taxpayer_class: TaxPayerClass::NaturalPerson,
            residency_status: ResidencyStatus::Resident,
            marginal_income_tax_rate: 450_000,
            assets: Vec::new(),
            debts_and_loans_zar: 0,
            funeral_costs_zar: 0,
            administration_costs_zar: 0,
            masters_office_fees_zar: 0,
            conveyancing_costs_zar: 0,
            other_settlement_costs_zar: 0,
            final_income_tax_due_zar: 0,
            ongoing_estate_income_tax_provision_zar: 0,
            additional_allowable_estate_duty_deductions_zar: 0,
            ported_section_4a_abatement_zar: 0,
            primary_residence_cgt_exclusion_cap_zar: 2_000_000_000_000,
            executor_fee_rate: 35_000,
            vat_rate: 150_000,
            explicit_executor_fee_zar: None,
            external_liquidity_proceeds_zar: 0,
            cash_reserve_zar: 0,
        }
    }
}

/// Capital gains tax on the deemed disposal at death.
#[derive(Debug, Clone, Copy, PartialEq, Eq)]
pub struct CapitalGainsTaxBreakdown {
    pub gross_capital_gain_zar: i128,
    pub primary_residence_exclusion_used_zar: i128,
    pub annual_exclusion_used_zar: i128,
    pub inclusion_rate: i64,
    pub taxable_capital_gain_in_income_zar: i128,
    pub tax_payable_zar: i128,
}

/// Estate duty and the figures it is derived from.
#[derive(Debug, Clone, Copy, PartialEq, Eq)]
pub struct EstateDutyBreakdown {
    pub gross_estate_for_estate_duty_zar: i128,
    pub executor_fee_zar: i128,
    pub section_4q_spousal_deduction_zar: i128,
    pub pbo_deduction_zar: i128,
    pub total_allowable_deductions_zar: i128,
    pub section_4a_abatement_used_zar: i128,
    pub dutiable_estate_after_abatement_zar: i128,
    pub tax_payable_zar: i128,
}

/// The taxes of a scenario and their total.
#[derive(Debug, Clone, Copy, PartialEq, Eq)]
pub struct CombinedTaxLiability {
    pub estate_duty_zar: i128,
    pub cgt_on_death_zar: i128,
    pub final_income_tax_zar: i128,
    pub ongoing_estate_income_tax_provision_zar: i128,
    pub total_tax_liability_zar: i128,
}

/// Cash at hand against cash needed at once.
#[derive(Debug, Clone, Copy, PartialEq, Eq)]
pub struct LiquidityGapOutput {
    pub liquid_assets_in_estate_zar: i128,
    pub external_liquidity_proceeds_zar: i128,
    pub cash_reserve_zar: i128,
    pub total_available_liquidity_zar: i128,
    pub executor_fee_zar: i128,
    pub immediate_cash_requirements_zar: i128,
    pub liquidity_gap_zar: i128,
    pub liquidity_surplus_zar: i128,
}

/// The four breakdowns of one calculation.
#[derive(Debug, Clone, Copy, PartialEq, Eq)]
pub struct ScenarioResult {
    pub cgt: CapitalGainsTaxBreakdown,
    pub estate_duty: EstateDutyBreakdown,
    pub combined_tax: CombinedTaxLiability,
    pub liquidity: LiquidityGapOutput,
}

impl ScenarioResult {
    /// Every monetary field is zero or more.
    pub open spec fn non_negative(self) -> bool {
        &&& self.cgt.gross_capital_gain_zar >= 0
        &&& self.cgt.primary_residence_exclusion_used_zar >= 0
        &&& self.cgt.annual_exclusion_used_zar >= 0
        &&& self.cgt.taxable_capital_gain_in_income_zar >= 0
        &&& self.cgt.tax_payable_zar >= 0
        &&& self.estate_duty.gross_estate_for_estate_duty_zar >= 0
        &&& self.estate_duty.executor_fee_zar >= 0
        &&& self.estate_duty.section_4q_spousal_deduction_zar >= 0
        &&& self.estate_duty.pbo_deduction_zar >= 0
        &&& self.estate_duty.total_allowable_deductions_zar >= 0
        &&& self.estate_duty.section_4a_abatement_used_zar >= 0
        &&& self.estate_duty.dutiable_estate_after_abatement_zar >= 0
        &&& self.estate_duty.tax_payable_zar >= 0
        &&& self.combined_tax.estate_duty_zar >= 0
        &&& self.combined_tax.cgt_on_death_zar >= 0
        &&& self.combined_tax.final_income_tax_zar >= 0
        &&& self.combined_tax.ongoing_estate_income_tax_provision_zar >= 0
        &&& self.combined_tax.total_tax_liability_zar >= 0
        &&& self.liquidity.liquid_assets_in_estate_zar >= 0
        &&& self.liquidity.external_liquidity_proceeds_zar >= 0
        &&& self.liquidity.cash_reserve_zar >= 0
        &&& self.liquidity.total_available_liquidity_zar >= 0
        &&& self.liquidity.executor_fee_zar >= 0
        &&& self.liquidity.immediate_cash_requirements_zar >= 0
        &&& self.liquidity.liquidity_gap_zar >= 0
        &&& self.liquidity.liquidity_surplus_zar >= 0
    }

    /// The figures that a score is built from are small enough to be
    /// scaled to parts per million.
    pub open spec fn scorable(self) -> bool {
        &&& 0 <= self.combined_tax.total_tax_liability_zar <= SCORABLE_LIMIT
        &&& 0 <= self.liquidity.total_available_liquidity_zar <= SCORABLE_LIMIT
    }
}

} // verus!
