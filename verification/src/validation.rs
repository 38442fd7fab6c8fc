//! The validation gate: collects every structural fault of a scenario as a
//! field and message pair before the scenario reaches the calculator.

use crate::models::{EstateAsset, EstateScenarioInput, ResidencyStatus, ScenarioTerms};
use crate::money::RATE_SCALE;
use crate::rules::{
    is_supported_tax_year, jurisdiction_label, jurisdiction_name, spec_is_supported_tax_year,
    TaxPayerClass,
};
use crate::scenario::takes_no_annual_exclusion;
use crate::text::{
    decimal_string, decimal_text, indexed_string, indexed_text, owned, trimmed, trimmed_text,
};
use vstd::prelude::*;

verus! {

/// One fault of a scenario: the field and what is wrong with it.
#[derive(Debug, Clone, PartialEq, Eq)]
pub struct ValidationIssue {
    pub field: String,
    pub message: String,
}

/// The text of an issue.
pub struct IssueText {
    pub field: Seq<char>,
    pub message: Seq<char>,
}

impl View for ValidationIssue {
    type V = IssueText;

    open spec fn view(&self) -> IssueText {
        IssueText { field: self.field@, message: self.message@ }
    }
}

impl ValidationIssue {
    /// An issue on `field` with the given message.
    pub fn new(field: String, message: &str) -> (issue: Self)
        ensures
            issue@ == (IssueText { field: field@, message: message@ }),
    {
        Self { field, message: owned(message) }
    }
}

/// The issues that made a scenario invalid.
#[derive(Debug, Clone, PartialEq, Eq)]
pub struct InputValidationError {
    pub issues: Vec<ValidationIssue>,
}

/// The texts of a list of issues, in order.
pub open spec fn issue_texts(issues: Seq<ValidationIssue>) -> Seq<IssueText> {
    Seq::new(issues.len(), |i: int| issues[i]@)
}

/// One line per issue: a dash, the field, a colon and the message.
pub open spec fn issue_lines(issues: Seq<IssueText>) -> Seq<char>
    decreases issues.len(),
{
    if issues.len() == 0 {
        Seq::empty()
    } else {
        issue_lines(issues.drop_last()) + "- "@ + issues.last().field + ": "@
            + issues.last().message + "\n"@
    }
}

/// The report of a validation error.
pub open spec fn validation_report(issues: Seq<IssueText>) -> Seq<char> {
    if issues.len() == 0 {
        "No validation issues"@
    } else {
        "Input validation failed:\n"@ + issue_lines(issues)
    }
}

impl InputValidationError {
    /// An error that holds the given issues.
    pub fn new(issues: Vec<ValidationIssue>) -> (error: Self)
        ensures
            error.issues == issues,
    {
        Self { issues }
    }

    /// Whether the error holds no issue.
    pub fn is_empty(&self) -> (empty: bool)
        ensures
            empty == (self.issues@.len() == 0),
    {
        self.issues.is_empty()
    }

    /// The report: a heading and one line per issue.
    pub fn to_string(&self) -> (report: String)
        ensures
            report@ == validation_report(issue_texts(self.issues@)),
    {
        if self.issues.is_empty() {
            return owned("No validation issues");
        }
        let mut report = owned("Input validation failed:\n");
        let mut i: usize = 0;
        while i < self.issues.len()
            invariant
                i <= self.issues.len(),
                report@ == "Input validation failed:\n"@ + issue_lines(
                    issue_texts(self.issues@).take(i as int),
                ),
            decreases self.issues.len() - i,
        {
            let issue = &self.issues[i];
            proof {
                let texts = issue_texts(self.issues@);
                assert(texts.take(i + 1).drop_last() == texts.take(i as int));
                assert(texts.take(i + 1).last() == issue@);
            }
            report.append("- ");
            report.append(issue.field.as_str());
            report.append(": ");
            report.append(issue.message.as_str());
            report.append("\n");
            proof {
                let before = issue_lines(issue_texts(self.issues@).take(i as int));
                assert(report@ =~= "Input validation failed:\n"@ + (before + "- "@ + issue@.field
                    + ": "@ + issue@.message + "\n"@));
            }
            i += 1;
        }
        proof {
            let texts = issue_texts(self.issues@);
            assert(texts.take(i as int) == texts);
        }
        report
    }
}

/// An amount is finite when it lies strictly inside the range of its
/// type: the two ends stand for amounts too large to hold.
pub open spec fn is_finite(value: i64) -> bool {
    i64::MIN < value < i64::MAX
}

/// One issue where `violated` holds, none otherwise.
pub open spec fn issue_if(violated: bool, field: Seq<char>, message: Seq<char>) -> Seq<IssueText> {
    if violated {
        seq![IssueText { field, message }]
    } else {
        Seq::empty()
    }
}

/// The issue, if any, that an amount raises: it must be finite and not
/// negative.
pub open spec fn amount_issues(field: Seq<char>, value: i64) -> Seq<IssueText> {
    if !is_finite(value) {
        seq![IssueText { field, message: "Value must be finite"@ }]
    } else if value < 0 {
        seq![IssueText { field, message: "Value cannot be negative"@ }]
    } else {
        Seq::empty()
    }
}

/// The issue, if any, that a rate raises: it must be finite and a fraction
/// between zero and one whole.
pub open spec fn rate_issues(field: Seq<char>, value: i64) -> Seq<IssueText> {
    if !is_finite(value) {
        seq![IssueText { field, message: "Rate must be finite"@ }]
    } else if !(0 <= value <= RATE_SCALE) {
        seq![IssueText { field, message: "Rate must be between 0.0 and 1.0 (inclusive)"@ }]
    } else {
        Seq::empty()
    }
}

/// The path of a field of the asset at `index`.
pub open spec fn asset_field(index: nat, field: Seq<char>) -> Seq<char> {
    indexed_text("assets["@, index, "]"@) + field
}

fn asset_field_name(index: usize, field: &str) -> (path: String)
    ensures
        path@ == asset_field(index as nat, field@),
{
    let mut path = indexed_string("assets[", index, "]");
    path.append(field);
    path
}

/// The issues of an asset's name, amounts and bequests, given whether its
/// name is blank.
pub open spec fn asset_holding_issues(index: nat, asset: EstateAsset, name_is_blank: bool) -> Seq<
    IssueText,
> {
    issue_if(name_is_blank, asset_field(index, ".name"@), "Asset name cannot be empty"@)
        + amount_issues(asset_field(index, ".market_value_zar"@), asset.market_value_zar)
        + amount_issues(asset_field(index, ".base_cost_zar"@), asset.base_cost_zar) + issue_if(
        asset.bequeathed_to_surviving_spouse && asset.bequeathed_to_pbo,
        asset_field(index, ".bequests"@),
        "Asset cannot be bequeathed to both spouse and PBO"@,
    )
}

/// The issues of an asset's flags against each other, the taxpayer class
/// and the residency.
pub open spec fn asset_scope_issues(
    index: nat,
    asset: EstateAsset,
    taxpayer_class: TaxPayerClass,
    residency_status: ResidencyStatus,
) -> Seq<IssueText> {
    issue_if(
        !asset.included_in_estate_duty && (asset.bequeathed_to_surviving_spouse
            || asset.bequeathed_to_pbo),
        asset_field(index, ".included_in_estate_duty"@),
        "Spouse/PBO bequest flags require `included_in_estate_duty=true`"@,
    ) + issue_if(
        asset.qualifies_primary_residence_exclusion && !asset.included_in_cgt_deemed_disposal,
        asset_field(index, ".included_in_cgt_deemed_disposal"@),
        "Primary residence exclusion requires `included_in_cgt_deemed_disposal=true`"@,
    ) + issue_if(
        asset.qualifies_primary_residence_exclusion && takes_no_annual_exclusion(taxpayer_class),
        asset_field(index, ".qualifies_primary_residence_exclusion"@),
        "Primary residence exclusion is not supported for company/trust taxpayer class"@,
    ) + issue_if(
        residency_status == ResidencyStatus::NonResident && asset.included_in_estate_duty
            && !asset.situs_in_south_africa,
        asset_field(index, ".situs_in_south_africa"@),
        "Non-resident estate duty scope requires SA situs for included assets"@,
    )
}

/// The issues of one asset, given whether its name is blank.
pub open spec fn asset_issues(
    index: nat,
    asset: EstateAsset,
    name_is_blank: bool,
    taxpayer_class: TaxPayerClass,
    residency_status: ResidencyStatus,
) -> Seq<IssueText> {
    asset_holding_issues(index, asset, name_is_blank) + asset_scope_issues(
        index,
        asset,
        taxpayer_class,
        residency_status,
    )
}

/// Whether an asset raises no issue.
pub open spec fn asset_is_valid(
    asset: EstateAsset,
    taxpayer_class: TaxPayerClass,
    residency_status: ResidencyStatus,
) -> bool {
    &&& trimmed_text(asset.name@).len() > 0
    &&& is_finite(asset.market_value_zar) && asset.market_value_zar >= 0
    &&& is_finite(asset.base_cost_zar) && asset.base_cost_zar >= 0
    &&& !(asset.bequeathed_to_surviving_spouse && asset.bequeathed_to_pbo)
    &&& (asset.bequeathed_to_surviving_spouse || asset.bequeathed_to_pbo)
        ==> asset.included_in_estate_duty
    &&& asset.qualifies_primary_residence_exclusion ==> asset.included_in_cgt_deemed_disposal
        && !takes_no_annual_exclusion(taxpayer_class)
    &&& (residency_status == ResidencyStatus::NonResident && asset.included_in_estate_duty)
        ==> asset.situs_in_south_africa
}

/// The issues of every asset, in list order.
pub open spec fn assets_issues(
    assets: Seq<EstateAsset>,
    taxpayer_class: TaxPayerClass,
    residency_status: ResidencyStatus,
) -> Seq<IssueText>
    decreases assets.len(),
{
    if assets.len() == 0 {
        Seq::empty()
    } else {
        assets_issues(assets.drop_last(), taxpayer_class, residency_status) + asset_issues(
            (assets.len() - 1) as nat,
            assets.last(),
            trimmed_text(assets.last().name@).len() == 0,
            taxpayer_class,
            residency_status,
        )
    }
}

/// Whether some asset has a finite market value above zero.
pub open spec fn has_positive_asset(assets: Seq<EstateAsset>) -> bool {
    exists|k: int|
        0 <= k < assets.len() && is_finite((#[trigger] assets[k]).market_value_zar)
            && assets[k].market_value_zar > 0
}

/// The issues of the tax year and of the asset list as a whole.
pub open spec fn listing_issues(input: ScenarioTerms) -> Seq<IssueText> {
    issue_if(
        !spec_is_supported_tax_year(input.jurisdiction, input.tax_year),
        "tax_year"@,
        "Tax year "@ + decimal_text(input.tax_year as nat) + " is not supported for "@
            + jurisdiction_name(input.jurisdiction),
    ) + issue_if(input.assets.len() == 0, "assets"@, "At least one asset is required"@) + issue_if(
        input.assets.len() > 0 && !has_positive_asset(input.assets),
        "assets"@,
        "At least one asset must have `market_value_zar > 0`"@,
    )
}

/// The issues of the rates.
pub open spec fn rates_issues(input: ScenarioTerms) -> Seq<IssueText> {
    rate_issues("marginal_income_tax_rate"@, input.marginal_income_tax_rate) + rate_issues(
        "executor_fee_rate"@,
        input.executor_fee_rate,
    ) + rate_issues("vat_rate"@, input.vat_rate)
}

/// The issues of the settlement costs.
pub open spec fn costs_issues(input: ScenarioTerms) -> Seq<IssueText> {
    amount_issues("debts_and_loans_zar"@, input.debts_and_loans_zar) + amount_issues(
        "funeral_costs_zar"@,
        input.funeral_costs_zar,
    ) + amount_issues("administration_costs_zar"@, input.administration_costs_zar) + amount_issues(
        "masters_office_fees_zar"@,
        input.masters_office_fees_zar,
    ) + amount_issues("conveyancing_costs_zar"@, input.conveyancing_costs_zar) + amount_issues(
        "other_settlement_costs_zar"@,
        input.other_settlement_costs_zar,
    )
}

/// The issues of the income tax amounts and the further deductions.
pub open spec fn provisions_issues(input: ScenarioTerms) -> Seq<IssueText> {
    amount_issues("final_income_tax_due_zar"@, input.final_income_tax_due_zar) + amount_issues(
        "ongoing_estate_income_tax_provision_zar"@,
        input.ongoing_estate_income_tax_provision_zar,
    ) + amount_issues(
        "additional_allowable_estate_duty_deductions_zar"@,
        input.additional_allowable_estate_duty_deductions_zar,
    )
}

/// The issues of the abatement, the exclusion cap and the liquidity
/// amounts.
pub open spec fn reliefs_issues(input: ScenarioTerms) -> Seq<IssueText> {
    amount_issues("ported_section_4a_abatement_zar"@, input.ported_section_4a_abatement_zar)
        + amount_issues(
        "primary_residence_cgt_exclusion_cap_zar"@,
        input.primary_residence_cgt_exclusion_cap_zar,
    ) + amount_issues("external_liquidity_proceeds_zar"@, input.external_liquidity_proceeds_zar)
        + amount_issues("cash_reserve_zar"@, input.cash_reserve_zar)
}

/// The issues of the explicit executor fee and of an exclusion cap that a
/// company or trust may not have.
pub open spec fn overrides_issues(input: ScenarioTerms) -> Seq<IssueText> {
    (match input.explicit_executor_fee_zar {
        Some(fee) => amount_issues("explicit_executor_fee_zar"@, fee),
        None => Seq::empty(),
    }) + issue_if(
        takes_no_annual_exclusion(input.taxpayer_class)
            && input.primary_residence_cgt_exclusion_cap_zar > 0,
        "primary_residence_cgt_exclusion_cap_zar"@,
        "Set to 0 for company/trust taxpayer class"@,
    )
}

/// Every issue of a scenario, in the order in which the checks run.
pub open spec fn scenario_issues(input: ScenarioTerms) -> Seq<IssueText> {
    listing_issues(input) + rates_issues(input) + costs_issues(input) + provisions_issues(input)
        + reliefs_issues(input) + overrides_issues(input) + assets_issues(input.assets, input.taxpayer_class, input.residency_status)
}

/// An amount that is finite and not negative.
pub open spec fn amount_is_valid(value: i64) -> bool {
    is_finite(value) && value >= 0
}

/// A rate that is a fraction between zero and one whole.
pub open spec fn rate_is_valid(value: i64) -> bool {
    0 <= value <= RATE_SCALE
}

/// The structural constraints that the calculator relies on.
pub open spec fn is_valid(input: ScenarioTerms) -> bool {
    &&& spec_is_supported_tax_year(input.jurisdiction, input.tax_year)
    &&& 0 < input.assets.len()
    &&& has_positive_asset(input.assets)
    &&& rate_is_valid(input.marginal_income_tax_rate)
    &&& rate_is_valid(input.executor_fee_rate)
    &&& rate_is_valid(input.vat_rate)
    &&& amount_is_valid(input.debts_and_loans_zar)
    &&& amount_is_valid(input.funeral_costs_zar)
    &&& amount_is_valid(input.administration_costs_zar)
    &&& amount_is_valid(input.masters_office_fees_zar)
    &&& amount_is_valid(input.conveyancing_costs_zar)
    &&& amount_is_valid(input.other_settlement_costs_zar)
    &&& amount_is_valid(input.final_income_tax_due_zar)
    &&& amount_is_valid(input.ongoing_estate_income_tax_provision_zar)
    &&& amount_is_valid(input.additional_allowable_estate_duty_deductions_zar)
    &&& amount_is_valid(input.ported_section_4a_abatement_zar)
    &&& amount_is_valid(input.primary_residence_cgt_exclusion_cap_zar)
    &&& amount_is_valid(input.external_liquidity_proceeds_zar)
    &&& amount_is_valid(input.cash_reserve_zar)
    &&& match input.explicit_executor_fee_zar {
        Some(fee) => amount_is_valid(fee),
        None => true,
    }
    &&& takes_no_annual_exclusion(input.taxpayer_class)
        ==> input.primary_residence_cgt_exclusion_cap_zar == 0
    &&& forall|k: int|
        0 <= k < input.assets.len() ==> asset_is_valid(
            #[trigger] input.assets[k],
            input.taxpayer_class,
            input.residency_status,
        )
}

/// The assets raise no issue exactly when each of them is valid.
pub proof fn lemma_assets_issues_empty(
    assets: Seq<EstateAsset>,
    taxpayer_class: TaxPayerClass,
    residency_status: ResidencyStatus,
)
    ensures
        assets_issues(assets, taxpayer_class, residency_status).len() == 0 <==> forall|k: int|
            0 <= k < assets.len() ==> asset_is_valid(
                #[trigger] assets[k],
                taxpayer_class,
                residency_status,
            ),
    decreases assets.len(),
{
    if assets.len() > 0 {
        let front = assets.drop_last();
        lemma_assets_issues_empty(front, taxpayer_class, residency_status);
        assert forall|k: int| 0 <= k < front.len() implies front[k] == assets[k] by {}
        let last = assets.last();
        let own = asset_issues(
            (assets.len() - 1) as nat,
            last,
            trimmed_text(last.name@).len() == 0,
            taxpayer_class,
            residency_status,
        );
        assert(own.len() == 0 <==> asset_is_valid(last, taxpayer_class, residency_status));
        if assets_issues(assets, taxpayer_class, residency_status).len() == 0 {
            assert forall|k: int| 0 <= k < assets.len() implies asset_is_valid(
                #[trigger] assets[k],
                taxpayer_class,
                residency_status,
            ) by {
                if k < front.len() {
                    assert(front[k] == assets[k]);
                }
            }
        }
        if forall|k: int|
            0 <= k < assets.len() ==> asset_is_valid(
                #[trigger] assets[k],
                taxpayer_class,
                residency_status,
            ) {
            assert(asset_is_valid(assets[assets.len() - 1], taxpayer_class, residency_status));
            assert forall|k: int| 0 <= k < front.len() implies asset_is_valid(
                #[trigger] front[k],
                taxpayer_class,
                residency_status,
            ) by {
                assert(front[k] == assets[k]);
            }
        }
    }
}

/// A scenario raises no issue exactly when it is valid.
pub proof fn lemma_valid_iff_no_issues(input: ScenarioTerms)
    ensures
        scenario_issues(input).len() == 0 <==> is_valid(input),
{
    lemma_assets_issues_empty(input.assets, input.taxpayer_class, input.residency_status);
}

fn push_issue(issues: &mut Vec<ValidationIssue>, field: String, message: &str)
    ensures
        issue_texts(final(issues)@) == issue_texts(old(issues)@) + seq![
            IssueText { field: field@, message: message@ },
        ],
{
    let issue = ValidationIssue::new(field, message);
    issues.push(issue);
    assert(issue_texts(issues@) =~= issue_texts(old(issues)@) + seq![
        IssueText { field: field@, message: message@ },
    ]);
}

fn push_issue_if(violated: bool, issues: &mut Vec<ValidationIssue>, field: String, message: &str)
    ensures
        issue_texts(final(issues)@) == issue_texts(old(issues)@) + issue_if(
            violated,
            field@,
            message@,
        ),
{
    if violated {
        push_issue(issues, field, message);
    } else {
        assert(issue_texts(issues@) =~= issue_texts(issues@) + Seq::<IssueText>::empty());
    }
}

fn check_non_negative_finite(issues: &mut Vec<ValidationIssue>, field: String, value: i64)
    ensures
        issue_texts(final(issues)@) == issue_texts(old(issues)@) + amount_issues(field@, value),
{
    if value == i64::MIN || value == i64::MAX {
        push_issue(issues, field, "Value must be finite");
        return ;
    }
    if value < 0 {
        push_issue(issues, field, "Value cannot be negative");
    } else {
        assert(issue_texts(issues@) =~= issue_texts(issues@) + Seq::<IssueText>::empty());
    }
}

fn check_rate_inclusive(issues: &mut Vec<ValidationIssue>, field: String, value: i64)
    ensures
        issue_texts(final(issues)@) == issue_texts(old(issues)@) + rate_issues(field@, value),
{
    if value == i64::MIN || value == i64::MAX {
        push_issue(issues, field, "Rate must be finite");
        return ;
    }
    if !(0 <= value && value <= RATE_SCALE) {
        push_issue(issues, field, "Rate must be between 0.0 and 1.0 (inclusive)");
    } else {
        assert(issue_texts(issues@) =~= issue_texts(issues@) + Seq::<IssueText>::empty());
    }
}

impl EstateAsset {
    #[verifier::rlimit(40)]
    fn holding_issues(&self, index: usize, name_is_blank: bool, issues: &mut Vec<ValidationIssue>)
        ensures
            issue_texts(final(issues)@) == issue_texts(old(issues)@) + asset_holding_issues(
                index as nat,
                *self,
                name_is_blank,
            ),
    {
        let ghost start = issue_texts(issues@);
        push_issue_if(
            name_is_blank,
            issues,
            asset_field_name(index, ".name"),
            "Asset name cannot be empty",
        );
        check_non_negative_finite(
            issues,
            asset_field_name(index, ".market_value_zar"),
            self.market_value_zar,
        );
        check_non_negative_finite(
            issues,
            asset_field_name(index, ".base_cost_zar"),
            self.base_cost_zar,
        );
        push_issue_if(
            self.bequeathed_to_surviving_spouse && self.bequeathed_to_pbo,
            issues,
            asset_field_name(index, ".bequests"),
            "Asset cannot be bequeathed to both spouse and PBO",
        );
        assert(issue_texts(issues@) =~= start + asset_holding_issues(
            index as nat,
            *self,
            name_is_blank,
        ));
    }

    #[verifier::rlimit(40)]
    fn scope_issues(
        &self,
        index: usize,
        taxpayer_class: TaxPayerClass,
        residency_status: ResidencyStatus,
        issues: &mut Vec<ValidationIssue>,
    )
        ensures
            issue_texts(final(issues)@) == issue_texts(old(issues)@) + asset_scope_issues(
                index as nat,
                *self,
                taxpayer_class,
                residency_status,
            ),
    {
        let ghost start = issue_texts(issues@);
        let company_or_trust = match taxpayer_class {
            TaxPayerClass::Company | TaxPayerClass::Trust => true,
            _ => false,
        };
        let non_resident = match residency_status {
            ResidencyStatus::NonResident => true,
            ResidencyStatus::Resident => false,
        };
        push_issue_if(
            !self.included_in_estate_duty && (self.bequeathed_to_surviving_spouse
                || self.bequeathed_to_pbo),
            issues,
            asset_field_name(index, ".included_in_estate_duty"),
            "Spouse/PBO bequest flags require `included_in_estate_duty=true`",
        );
        push_issue_if(
            self.qualifies_primary_residence_exclusion && !self.included_in_cgt_deemed_disposal,
            issues,
            asset_field_name(index, ".included_in_cgt_deemed_disposal"),
            "Primary residence exclusion requires `included_in_cgt_deemed_disposal=true`",
        );
        push_issue_if(
            self.qualifies_primary_residence_exclusion && company_or_trust,
            issues,
            asset_field_name(index, ".qualifies_primary_residence_exclusion"),
            "Primary residence exclusion is not supported for company/trust taxpayer class",
        );
        push_issue_if(
            non_resident && self.included_in_estate_duty && !self.situs_in_south_africa,
            issues,
            asset_field_name(index, ".situs_in_south_africa"),
            "Non-resident estate duty scope requires SA situs for included assets",
        );
        assert(issue_texts(issues@) =~= start + asset_scope_issues(
            index as nat,
            *self,
            taxpayer_class,
            residency_status,
        ));
    }

    /// Appends the issues of this asset, which stands at `index`, given
    /// whether its name is blank.
    pub fn contract_issues(
        &self,
        index: usize,
        name_is_blank: bool,
        taxpayer_class: TaxPayerClass,
        residency_status: ResidencyStatus,
        issues: &mut Vec<ValidationIssue>,
    )
        ensures
            issue_texts(final(issues)@) == issue_texts(old(issues)@) + asset_issues(
                index as nat,
                *self,
                name_is_blank,
                taxpayer_class,
                residency_status,
            ),
    {
        let ghost start = issue_texts(issues@);
        self.holding_issues(index, name_is_blank, issues);
        self.scope_issues(index, taxpayer_class, residency_status, issues);
        assert(issue_texts(issues@) =~= start + asset_issues(
            index as nat,
            *self,
            name_is_blank,
            taxpayer_class,
            residency_status,
        ));
    }

    fn validate_contract(
        &self,
        index: usize,
        taxpayer_class: TaxPayerClass,
        residency_status: ResidencyStatus,
        issues: &mut Vec<ValidationIssue>,
    )
        ensures
            issue_texts(final(issues)@) == issue_texts(old(issues)@) + asset_issues(
                index as nat,
                *self,
                trimmed_text(self.name@).len() == 0,
                taxpayer_class,
                residency_status,
            ),
    {
        let name_is_blank = trimmed(self.name.as_str()).is_empty();
        self.contract_issues(index, name_is_blank, taxpayer_class, residency_status, issues);
    }
}

fn any_positive_asset(assets: &Vec<EstateAsset>) -> (found: bool)
    ensures
        found == has_positive_asset(assets@),
{
    let mut i: usize = 0;
    while i < assets.len()
        invariant
            i <= assets.len(),
            forall|k: int|
                0 <= k < i ==> !(is_finite((#[trigger] assets@[k]).market_value_zar)
                    && assets@[k].market_value_zar > 0),
        decreases assets.len() - i,
    {
        let value = assets[i].market_value_zar;
        if value > 0 && value < i64::MAX {
            return true;
        }
        i += 1;
    }
    false
}

impl EstateScenarioInput {
    #[verifier::rlimit(40)]
    fn check_listing(&self, issues: &mut Vec<ValidationIssue>)
        ensures
            issue_texts(final(issues)@) == issue_texts(old(issues)@) + listing_issues(self@),
    {
        let ghost start = issue_texts(issues@);
        let supported = is_supported_tax_year(self.jurisdiction, self.tax_year);
        let mut message = owned("Tax year ");
        let year = decimal_string(self.tax_year as usize);
        message.append(year.as_str());
        message.append(" is not supported for ");
        message.append(jurisdiction_label(self.jurisdiction));
        push_issue_if(!supported, issues, owned("tax_year"), message.as_str());
        push_issue_if(
            self.assets.is_empty(),
            issues,
            owned("assets"),
            "At least one asset is required",
        );
        let assets_with_positive_value = any_positive_asset(&self.assets);
        push_issue_if(
            !self.assets.is_empty() && !assets_with_positive_value,
            issues,
            owned("assets"),
            "At least one asset must have `market_value_zar > 0`",
        );
        assert(issue_texts(issues@) =~= start + listing_issues(self@));
    }

    fn check_rates(&self, issues: &mut Vec<ValidationIssue>)
        ensures
            issue_texts(final(issues)@) == issue_texts(old(issues)@) + rates_issues(self@),
    {
        let ghost start = issue_texts(issues@);
        check_rate_inclusive(
            issues,
            owned("marginal_income_tax_rate"),
            self.marginal_income_tax_rate,
        );
        check_rate_inclusive(issues, owned("executor_fee_rate"), self.executor_fee_rate);
        check_rate_inclusive(issues, owned("vat_rate"), self.vat_rate);
        assert(issue_texts(issues@) =~= start + rates_issues(self@));
    }

    #[verifier::rlimit(40)]
    fn check_costs(&self, issues: &mut Vec<ValidationIssue>)
        ensures
            issue_texts(final(issues)@) == issue_texts(old(issues)@) + costs_issues(self@),
    {
        let ghost start = issue_texts(issues@);
        check_non_negative_finite(issues, owned("debts_and_loans_zar"), self.debts_and_loans_zar);
        check_non_negative_finite(issues, owned("funeral_costs_zar"), self.funeral_costs_zar);
        check_non_negative_finite(
            issues,
            owned("administration_costs_zar"),
            self.administration_costs_zar,
        );
        check_non_negative_finite(
            issues,
            owned("masters_office_fees_zar"),
            self.masters_office_fees_zar,
        );
        check_non_negative_finite(
            issues,
            owned("conveyancing_costs_zar"),
            self.conveyancing_costs_zar,
        );
        check_non_negative_finite(
            issues,
            owned("other_settlement_costs_zar"),
            self.other_settlement_costs_zar,
        );
        assert(issue_texts(issues@) =~= start + costs_issues(self@));
    }

    fn check_provisions(&self, issues: &mut Vec<ValidationIssue>)
        ensures
            issue_texts(final(issues)@) == issue_texts(old(issues)@) + provisions_issues(self@),
    {
        let ghost start = issue_texts(issues@);
        check_non_negative_finite(
            issues,
            owned("final_income_tax_due_zar"),
            self.final_income_tax_due_zar,
        );
        check_non_negative_finite(
            issues,
            owned("ongoing_estate_income_tax_provision_zar"),
            self.ongoing_estate_income_tax_provision_zar,
        );
        check_non_negative_finite(
            issues,
            owned("additional_allowable_estate_duty_deductions_zar"),
            self.additional_allowable_estate_duty_deductions_zar,
        );
        assert(issue_texts(issues@) =~= start + provisions_issues(self@));
    }

    #[verifier::rlimit(40)]
    fn check_reliefs(&self, issues: &mut Vec<ValidationIssue>)
        ensures
            issue_texts(final(issues)@) == issue_texts(old(issues)@) + reliefs_issues(self@),
    {
        let ghost start = issue_texts(issues@);
        check_non_negative_finite(
            issues,
            owned("ported_section_4a_abatement_zar"),
            self.ported_section_4a_abatement_zar,
        );
        check_non_negative_finite(
            issues,
            owned("primary_residence_cgt_exclusion_cap_zar"),
            self.primary_residence_cgt_exclusion_cap_zar,
        );
        check_non_negative_finite(
            issues,
            owned("external_liquidity_proceeds_zar"),
            self.external_liquidity_proceeds_zar,
        );
        check_non_negative_finite(issues, owned("cash_reserve_zar"), self.cash_reserve_zar);
        assert(issue_texts(issues@) =~= start + reliefs_issues(self@));
    }

    fn check_overrides(&self, issues: &mut Vec<ValidationIssue>)
        ensures
            issue_texts(final(issues)@) == issue_texts(old(issues)@) + overrides_issues(self@),
    {
        let ghost start = issue_texts(issues@);
        let ghost before_fee = issue_texts(issues@);
        if let Some(explicit_executor_fee_zar) = self.explicit_executor_fee_zar {
            check_non_negative_finite(
                issues,
                owned("explicit_executor_fee_zar"),
                explicit_executor_fee_zar,
            );
        } else {
            assert(issue_texts(issues@) =~= before_fee + Seq::<IssueText>::empty());
        }
        let company_or_trust = match self.taxpayer_class {
            TaxPayerClass::Company | TaxPayerClass::Trust => true,
            _ => false,
        };
        push_issue_if(
            company_or_trust && self.primary_residence_cgt_exclusion_cap_zar > 0,
            issues,
            owned("primary_residence_cgt_exclusion_cap_zar"),
            "Set to 0 for company/trust taxpayer class",
        );
        assert(issue_texts(issues@) =~= start + overrides_issues(self@));
    }

    /// Runs every check and collects the issues in order.
    #[verifier::rlimit(40)]
    pub fn collect_issues(&self) -> (issues: Vec<ValidationIssue>)
        ensures
            issue_texts(issues@) == scenario_issues(self@),
            issues@.len() == 0 <==> is_valid(self@),
    {
        let mut issues: Vec<ValidationIssue> = Vec::new();
        assert(issue_texts(issues@) =~= Seq::<IssueText>::empty());
        self.check_listing(&mut issues);
        self.check_rates(&mut issues);
        self.check_costs(&mut issues);
        self.check_provisions(&mut issues);
        self.check_reliefs(&mut issues);
        self.check_overrides(&mut issues);
        let ghost scalar = issue_texts(issues@);
        assert(scalar =~= listing_issues(self@) + rates_issues(self@) + costs_issues(self@)
            + provisions_issues(self@) + reliefs_issues(self@) + overrides_issues(self@));

        let mut index: usize = 0;
        while index < self.assets.len()
            invariant
                index <= self.assets.len(),
                issue_texts(issues@) == scalar + assets_issues(
                    self.assets@.take(index as int),
                    self.taxpayer_class,
                    self.residency_status,
                ),
            decreases self.assets.len() - index,
        {
            let asset = &self.assets[index];
            let ghost before = issue_texts(issues@);
            asset.validate_contract(index, self.taxpayer_class, self.residency_status, &mut issues);
            proof {
                let upto = self.assets@.take(index + 1);
                assert(upto.drop_last() == self.assets@.take(index as int));
                assert(upto.last() == *asset);
                let earlier = assets_issues(
                    self.assets@.take(index as int),
                    self.taxpayer_class,
                    self.residency_status,
                );
                let own = asset_issues(
                    index as nat,
                    *asset,
                    trimmed_text(asset.name@).len() == 0,
                    self.taxpayer_class,
                    self.residency_status,
                );
                assert((scalar + earlier) + own =~= scalar + (earlier + own));
            }
            index += 1;
        }
        proof {
            assert(self.assets@.take(index as int) == self.assets@);
            lemma_valid_iff_no_issues(self@);
            assert(issue_texts(issues@).len() == issues@.len());
        }
        issues
    }

    /// Accepts a valid scenario and rejects any other with every issue it
    /// raises.
    pub fn validate(&self) -> (checked: Result<(), InputValidationError>)
        ensures
            checked is Ok <==> is_valid(self@),
            match checked {
                Ok(_) => true,
                Err(error) => issue_texts(error.issues@) == scenario_issues(self@)
                    && error.issues@.len() > 0,
            },
    {
        let issues = self.collect_issues();
        if issues.is_empty() {
            Ok(())
        } else {
            Err(InputValidationError::new(issues))
        }
    }
}

} // verus!
