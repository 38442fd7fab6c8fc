//! Entry points for a service layer: rule discovery, validated scenario
//! calculation and optimization, and the mapping of errors to responses.

use crate::contracts::{
    api_jurisdiction, api_scenario_result, domain_jurisdiction, domain_scenario_result,
    domain_scenario_score, ApiErrorCode, ApiErrorResponse, ApiEstateScenarioInput,
    ApiHealthResponse, ApiJurisdiction, ApiJurisdictionTaxRuleRegistryResponse,
    ApiOptimizedScenario, ApiScenarioResult, ApiTaxRuleRegistryEntry, ApiValidationIssue,
    ApiVersionedJurisdictionTaxRuleSet, JurisdictionTaxRuleRegistryResponse,
};
use crate::errors::{
    asset_limit_error, asset_limit_message, is_asset_limit_error, EngineError,
};
use crate::models::{EstateScenarioInput, ScenarioResult, ScenarioTerms};
use crate::money::MAX_ASSETS;
use crate::optimizer::{
    candidate_outcome, is_best_choice, is_best_of, optimize_scenarios, terms_of,
    OptimizedScenario,
};
use crate::rules::{
    catalog_of, entries_of, is_year_window, latest_tax_rules_for, lemma_selection_by_year,
    selection_message,
    spec_latest_tax_rules_for, spec_tax_rules_for, supported_jurisdictions,
    supported_tax_year_window, tax_rule_registry, tax_rule_registry_for, tax_rules_for,
    versions_of, Jurisdiction, TaxRuleRegistryEntry, TaxRuleSelectionError,
    VersionedJurisdictionTaxRuleSet,
};
use crate::scenario::{calculate_with_rules, scenario_result};
use crate::text::{ascii_lower, ascii_lowercase, indexed_string, indexed_text, owned};
use crate::validation::{
    is_valid, issue_texts, lemma_valid_iff_no_issues, scenario_issues, validation_report,
    InputValidationError, IssueText, ValidationIssue,
};
use vstd::prelude::*;

verus! {

/// Every jurisdiction with a catalog.
pub fn list_supported_jurisdictions() -> (jurisdictions: Vec<Jurisdiction>)
    ensures
        jurisdictions@ == seq![Jurisdiction::SouthAfrica],
{
    supported_jurisdictions()
}

/// Every published version of every supported jurisdiction.
pub fn list_tax_rule_registry_entries() -> (entries: Vec<TaxRuleRegistryEntry>)
    ensures
        entries@ == entries_of(Jurisdiction::SouthAfrica),
{
    tax_rule_registry()
}

/// The registry summary of a jurisdiction: its versions in catalog order,
/// the window of tax years they span and the identifier of the latest one.
pub fn get_jurisdiction_tax_rule_registry(jurisdiction: Jurisdiction) -> (summary: Option<
    JurisdictionTaxRuleRegistryResponse,
>)
    ensures
        match summary {
            Some(found) => {
                &&& found.jurisdiction == jurisdiction
                &&& found.versions@ == versions_of(catalog_of(jurisdiction))
                &&& is_year_window(
                    catalog_of(jurisdiction),
                    Some((found.supported_tax_year_from, found.supported_tax_year_to)),
                )
                &&& found.latest_version_id == spec_latest_tax_rules_for(
                    jurisdiction,
                ).version.version_id
            },
            None => false,
        },
{
    let versions = tax_rule_registry_for(jurisdiction);
    if versions.is_empty() {
        return None;
    }
    let (supported_tax_year_from, supported_tax_year_to) = match supported_tax_year_window(
        jurisdiction,
    ) {
        Some(window) => window,
        None => {
            return None;
        },
    };
    let latest_version_id = latest_tax_rules_for(jurisdiction).version.version_id;

    Some(
        JurisdictionTaxRuleRegistryResponse {
            jurisdiction,
            versions,
            supported_tax_year_from,
            supported_tax_year_to,
            latest_version_id,
        },
    )
}

/// The selection of a rule version, with its error as an engine error.
pub open spec fn spec_resolve_tax_rules_for_year(jurisdiction: Jurisdiction, tax_year: u16) -> Result<
    VersionedJurisdictionTaxRuleSet,
    EngineError,
> {
    match spec_tax_rules_for(jurisdiction, tax_year) {
        Ok(selected) => Ok(selected),
        Err(e) => Err(EngineError::RuleSelection(e)),
    }
}

/// Selects the rule version of `jurisdiction` that covers `tax_year`.
pub fn resolve_tax_rules_for_year(jurisdiction: Jurisdiction, tax_year: u16) -> (selected: Result<
    VersionedJurisdictionTaxRuleSet,
    EngineError,
>)
    ensures
        selected == spec_resolve_tax_rules_for_year(jurisdiction, tax_year),
{
    match tax_rules_for(jurisdiction, tax_year) {
        Ok(selected) => Ok(selected),
        Err(e) => Err(EngineError::from(e)),
    }
}

/// The latest rule version of `jurisdiction`.
pub fn resolve_latest_tax_rules(jurisdiction: Jurisdiction) -> (latest:
    VersionedJurisdictionTaxRuleSet)
    ensures
        latest == spec_latest_tax_rules_for(jurisdiction),
{
    latest_tax_rules_for(jurisdiction)
}

/// The texts of a list of response issues, in order.
pub open spec fn api_issue_texts(issues: Seq<ApiValidationIssue>) -> Seq<IssueText> {
    Seq::new(
        issues.len(),
        |i: int| IssueText { field: issues[i].field@, message: issues[i].message@ },
    )
}

/// Whether `response` reports `error`: the code names the kind of error,
/// a validation error carries its report and every issue, a selection
/// error its message, and a computation error its own text.
pub open spec fn reports(response: ApiErrorResponse, error: EngineError) -> bool {
    match error {
        EngineError::Validation(failed) => {
            &&& response.code == ApiErrorCode::Validation
            &&& response.message@ == validation_report(issue_texts(failed.issues@))
            &&& api_issue_texts(response.validation_issues@) == issue_texts(failed.issues@)
        },
        EngineError::RuleSelection(failed) => {
            &&& response.code == ApiErrorCode::RuleSelection
            &&& response.message@ == selection_message(failed)
            &&& response.validation_issues@.len() == 0
        },
        EngineError::Computation(message) => {
            &&& response.code == ApiErrorCode::Computation
            &&& response.message@ == message@
            &&& response.validation_issues@.len() == 0
        },
    }
}

/// Builds the response that reports an engine error.
pub fn to_api_error_response(error: EngineError) -> (response: ApiErrorResponse)
    ensures
        reports(response, error),
{
    match error {
        EngineError::Validation(validation_error) => {
            let message = validation_error.to_string();
            let mut validation_issues: Vec<ApiValidationIssue> = Vec::new();
            let mut i: usize = 0;
            while i < validation_error.issues.len()
                invariant
                    i <= validation_error.issues.len(),
                    validation_issues@.len() == i,
                    forall|k: int|
                        0 <= k < i ==> (#[trigger] validation_issues@[k]).field@
                            == validation_error.issues@[k].field@ && validation_issues@[k].message@
                            == validation_error.issues@[k].message@,
                decreases validation_error.issues.len() - i,
            {
                let issue = &validation_error.issues[i];
                validation_issues.push(
                    ApiValidationIssue {
                        field: issue.field.clone(),
                        message: issue.message.clone(),
                    },
                );
                i += 1;
            }
            assert(api_issue_texts(validation_issues@) =~= issue_texts(validation_error.issues@));
            ApiErrorResponse { code: ApiErrorCode::Validation, message, validation_issues }
        },
        EngineError::RuleSelection(selection_error) => ApiErrorResponse {
            code: ApiErrorCode::RuleSelection,
            message: selection_error.to_string(),
            validation_issues: Vec::new(),
        },
        EngineError::Computation(message) => ApiErrorResponse {
            code: ApiErrorCode::Computation,
            message,
            validation_issues: Vec::new(),
        },
    }
}

/// What a validated calculation returns: the validation error with every
/// issue for an invalid scenario; else the computation error for a
/// scenario with more assets than a calculation can take; else the result
/// under the rules of the scenario's tax year.
pub open spec fn is_checked_outcome(
    input: ScenarioTerms,
    outcome: Result<ScenarioResult, EngineError>,
) -> bool {
    if !is_valid(input) {
        match outcome {
            Err(EngineError::Validation(failed)) => issue_texts(failed.issues@) == scenario_issues(
                input,
            ),
            _ => false,
        }
    } else if input.assets.len() > MAX_ASSETS {
        outcome is Err && is_asset_limit_error(outcome->Err_0)
    } else {
        &&& spec_tax_rules_for(input.jurisdiction, input.tax_year) is Ok
        &&& outcome == Ok::<ScenarioResult, EngineError>(
            scenario_result(
                input,
                spec_tax_rules_for(input.jurisdiction, input.tax_year)->Ok_0.rules,
            ),
        )
    }
}

/// Validates a scenario and, where it is valid and within the asset limit,
/// calculates it under the rules of its tax year.
pub fn calculate_single_scenario(input: &EstateScenarioInput) -> (outcome: Result<
    ScenarioResult,
    EngineError,
>)
    ensures
        is_checked_outcome(input@, outcome),
{
    match input.validate() {
        Ok(_) => {},
        Err(e) => {
            return Err(EngineError::from(e));
        },
    }
    if input.assets.len() > MAX_ASSETS {
        return Err(asset_limit_error());
    }
    proof {
        lemma_selection_by_year(input.jurisdiction, input.tax_year);
    }
    match tax_rules_for(input.jurisdiction, input.tax_year) {
        Ok(selected) => Ok(calculate_with_rules(input, selected.rules)),
        Err(e) => Err(EngineError::from(e)),
    }
}

/// The path of a field of the candidate at `index`.
pub open spec fn candidate_field(index: nat, field: Seq<char>) -> Seq<char> {
    indexed_text("candidates["@, index, "]."@) + field
}

/// The issues of the candidate at `index`, each under the candidate's path.
pub open spec fn candidate_issues(index: nat, issues: Seq<IssueText>) -> Seq<IssueText> {
    Seq::new(
        issues.len(),
        |i: int| IssueText { field: candidate_field(index, issues[i].field), message: issues[i].message },
    )
}

/// The issues of every candidate, in batch order.
pub open spec fn batch_issues(candidates: Seq<ScenarioTerms>) -> Seq<IssueText>
    decreases candidates.len(),
{
    if candidates.len() == 0 {
        Seq::empty()
    } else {
        batch_issues(candidates.drop_last()) + candidate_issues(
            (candidates.len() - 1) as nat,
            scenario_issues(candidates.last()),
        )
    }
}

/// A batch raises no issue exactly when every candidate is valid.
pub proof fn lemma_batch_issues_empty(candidates: Seq<ScenarioTerms>)
    ensures
        batch_issues(candidates).len() == 0 <==> forall|k: int|
            0 <= k < candidates.len() ==> is_valid(#[trigger] candidates[k]),
    decreases candidates.len(),
{
    if candidates.len() > 0 {
        let front = candidates.drop_last();
        lemma_batch_issues_empty(front);
        lemma_valid_iff_no_issues(candidates.last());
        assert forall|k: int| 0 <= k < front.len() implies front[k] == candidates[k] by {}
        if batch_issues(candidates).len() == 0 {
            assert forall|k: int| 0 <= k < candidates.len() implies is_valid(
                #[trigger] candidates[k],
            ) by {
                if k < front.len() {
                    assert(front[k] == candidates[k]);
                }
            }
        }
        if forall|k: int| 0 <= k < candidates.len() ==> is_valid(#[trigger] candidates[k]) {
            assert(is_valid(candidates[candidates.len() - 1]));
            assert forall|k: int| 0 <= k < front.len() implies is_valid(#[trigger] front[k]) by {
                assert(front[k] == candidates[k]);
            }
        }
    }
}

fn prefixed_issues(index: usize, found: &Vec<ValidationIssue>, all_issues: &mut Vec<ValidationIssue>)
    ensures
        issue_texts(final(all_issues)@) == issue_texts(old(all_issues)@) + candidate_issues(
            index as nat,
            issue_texts(found@),
        ),
{
    let ghost start = issue_texts(all_issues@);
    let mut i: usize = 0;
    while i < found.len()
        invariant
            i <= found.len(),
            issue_texts(all_issues@) == start + candidate_issues(
                index as nat,
                issue_texts(found@),
            ).take(i as int),
        decreases found.len() - i,
    {
        let issue = &found[i];
        let mut field = indexed_string("candidates[", index, "].");
        field.append(issue.field.as_str());
        let ghost before = all_issues@;
        all_issues.push(ValidationIssue { field, message: issue.message.clone() });
        proof {
            let target = candidate_issues(index as nat, issue_texts(found@));
            assert(issue_texts(all_issues@) =~= issue_texts(before).push(target[i as int]));
            assert(target.take(i + 1) =~= target.take(i as int).push(target[i as int]));
            assert(issue_texts(all_issues@) =~= start + target.take(i + 1));
        }
        i += 1;
    }
    proof {
        let target = candidate_issues(index as nat, issue_texts(found@));
        assert(target.take(i as int) =~= target);
    }
}

/// Whether some candidate lists more assets than a calculation can take.
pub open spec fn exceeds_asset_limit(candidates: Seq<ScenarioTerms>) -> bool {
    exists|k: int| 0 <= k < candidates.len() && (#[trigger] candidates[k]).assets.len() > MAX_ASSETS
}

/// What a validated optimization returns: the validation error with the
/// issues of every candidate where any is raised; else the computation
/// error where a candidate has more assets than a calculation can take;
/// else the best candidate.
pub open spec fn is_checked_choice(
    candidates: Seq<EstateScenarioInput>,
    choice: Result<Option<OptimizedScenario>, EngineError>,
) -> bool {
    if batch_issues(terms_of(candidates)).len() > 0 {
        match choice {
            Err(EngineError::Validation(failed)) => issue_texts(failed.issues@) == batch_issues(
                terms_of(candidates),
            ),
            _ => false,
        }
    } else if exceeds_asset_limit(terms_of(candidates)) {
        choice is Err && is_asset_limit_error(choice->Err_0)
    } else {
        match choice {
            Ok(best) => is_best_of(candidates, best),
            Err(_) => false,
        }
    }
}

fn within_asset_limit(candidates: &Vec<EstateScenarioInput>) -> (within: bool)
    ensures
        within == !exceeds_asset_limit(terms_of(candidates@)),
{
    let mut i: usize = 0;
    while i < candidates.len()
        invariant
            i <= candidates.len(),
            forall|k: int| 0 <= k < i ==> (#[trigger] terms_of(candidates@)[k]).assets.len() <= MAX_ASSETS,
        decreases candidates.len() - i,
    {
        if candidates[i].assets.len() > MAX_ASSETS {
            assert(terms_of(candidates@)[i as int].assets.len() > MAX_ASSETS);
            return false;
        }
        i += 1;
    }
    true
}

/// Validates every candidate and, where all are valid and within the asset
/// limit, picks the best.
pub fn optimize_candidate_scenarios(candidates: Vec<EstateScenarioInput>) -> (choice: Result<
    Option<OptimizedScenario>,
    EngineError,
>)
    ensures
        is_checked_choice(candidates@, choice),
{
    let mut all_issues: Vec<ValidationIssue> = Vec::new();
    assert(issue_texts(all_issues@) =~= Seq::<IssueText>::empty());
    let ghost terms = terms_of(candidates@);
    let mut index: usize = 0;
    while index < candidates.len()
        invariant
            index <= candidates.len(),
            terms == terms_of(candidates@),
            issue_texts(all_issues@) == batch_issues(terms.take(index as int)),
        decreases candidates.len() - index,
    {
        let found = candidates[index].collect_issues();
        proof {
            let upto = terms.take(index + 1);
            assert(upto.drop_last() == terms.take(index as int));
            assert(upto.last() == candidates@[index as int]@);
        }
        prefixed_issues(index, &found, &mut all_issues);
        index += 1;
    }
    proof {
        assert(terms.take(index as int) == terms);
        assert(issue_texts(all_issues@).len() == all_issues@.len());
        lemma_batch_issues_empty(terms);
    }
    if !all_issues.is_empty() {
        return Err(EngineError::Validation(InputValidationError::new(all_issues)));
    }
    if !within_asset_limit(&candidates) {
        return Err(asset_limit_error());
    }
    proof {
        assert forall|k: int| 0 <= k < candidates@.len() implies (#[trigger] candidates@[k]).assets@.len()
            <= MAX_ASSETS by {
            assert(terms[k].assets.len() <= MAX_ASSETS);
        }
    }
    match optimize_scenarios(candidates) {
        Ok(best) => Ok(best),
        Err(e) => {
            proof {
                reveal(candidate_outcome);
                let k = choose|k: int|
                    0 <= k < terms.len() && candidate_outcome(#[trigger] terms[k]) == Err::<
                        ScenarioResult,
                        TaxRuleSelectionError,
                    >(e);
                lemma_selection_by_year(terms[k].jurisdiction, terms[k].tax_year);
                assert(is_valid(terms[k]));
            }
            Err(EngineError::from(e))
        },
    }
}

/// Whether `response` reports that a scenario has more assets than a
/// calculation can take.
pub open spec fn reports_asset_limit(response: ApiErrorResponse) -> bool {
    &&& response.code == ApiErrorCode::Computation
    &&& response.message@ == asset_limit_message()
    &&& response.validation_issues@.len() == 0
}

/// What the answer to a validated calculation is: the validation response
/// with every issue for an invalid scenario; else the computation response
/// for a scenario with more assets than a calculation can take; else the
/// result under the rules of the scenario's tax year.
pub open spec fn is_checked_answer(
    input: ScenarioTerms,
    answer: Result<ScenarioResult, ApiErrorResponse>,
) -> bool {
    if !is_valid(input) {
        answer is Err && reports_issues(answer->Err_0, scenario_issues(input))
    } else if input.assets.len() > MAX_ASSETS {
        answer is Err && reports_asset_limit(answer->Err_0)
    } else {
        &&& spec_tax_rules_for(input.jurisdiction, input.tax_year) is Ok
        &&& answer == Ok::<ScenarioResult, ApiErrorResponse>(
            scenario_result(
                input,
                spec_tax_rules_for(input.jurisdiction, input.tax_year)->Ok_0.rules,
            ),
        )
    }
}

/// Whether `response` is the validation response for `issues`.
pub open spec fn reports_issues(response: ApiErrorResponse, issues: Seq<IssueText>) -> bool {
    &&& response.code == ApiErrorCode::Validation
    &&& response.message@ == validation_report(issues)
    &&& api_issue_texts(response.validation_issues@) == issues
}

/// Validates and calculates a scenario, and reports any error as a
/// response.
pub fn calculate_single_scenario_api(input: &EstateScenarioInput) -> (outcome: Result<
    ScenarioResult,
    ApiErrorResponse,
>)
    ensures
        is_checked_answer(input@, outcome),
{
    match calculate_single_scenario(input) {
        Ok(result) => Ok(result),
        Err(e) => Err(to_api_error_response(e)),
    }
}

/// Validates every candidate and picks the best: the validation response
/// with the issues of every candidate where any is raised; else the
/// computation response where a candidate has more assets than a
/// calculation can take; else the choice.
pub fn optimize_candidate_scenarios_api(candidates: Vec<EstateScenarioInput>) -> (choice: Result<
    Option<OptimizedScenario>,
    ApiErrorResponse,
>)
    ensures
        batch_issues(terms_of(candidates@)).len() > 0 ==> choice is Err && reports_issues(
            choice->Err_0,
            batch_issues(terms_of(candidates@)),
        ),
        batch_issues(terms_of(candidates@)).len() == 0 && exceeds_asset_limit(
            terms_of(candidates@),
        ) ==> choice is Err && reports_asset_limit(choice->Err_0),
        batch_issues(terms_of(candidates@)).len() == 0 && !exceeds_asset_limit(
            terms_of(candidates@),
        ) ==> choice is Ok && is_best_of(candidates@, choice->Ok_0),
{
    match optimize_candidate_scenarios(candidates) {
        Ok(best) => Ok(best),
        Err(e) => Err(to_api_error_response(e)),
    }
}

/// Whether `answer` holds the value of `outcome`, or the response that
/// reports its error.
pub open spec fn answers<T>(
    answer: Result<T, ApiErrorResponse>,
    outcome: Result<T, EngineError>,
) -> bool {
    match (answer, outcome) {
        (Ok(value), Ok(expected)) => value == expected,
        (Err(response), Err(error)) => reports(response, error),
        _ => false,
    }
}

/// Selects a rule version and reports a failure as a response.
pub fn resolve_tax_rules_for_year_api(jurisdiction: Jurisdiction, tax_year: u16) -> (selected:
    Result<VersionedJurisdictionTaxRuleSet, ApiErrorResponse>)
    ensures
        answers(selected, spec_resolve_tax_rules_for_year(jurisdiction, tax_year)),
{
    match resolve_tax_rules_for_year(jurisdiction, tax_year) {
        Ok(selected) => Ok(selected),
        Err(e) => Err(to_api_error_response(e)),
    }
}

/// The records of every jurisdiction with a catalog.
pub fn list_supported_jurisdictions_contract() -> (jurisdictions: Vec<ApiJurisdiction>)
    ensures
        jurisdictions@ == seq![ApiJurisdiction::SouthAfrica],
{
    let listed = list_supported_jurisdictions();
    let mut jurisdictions: Vec<ApiJurisdiction> = Vec::new();
    let mut i: usize = 0;
    while i < listed.len()
        invariant
            i <= listed.len(),
            listed@ == seq![Jurisdiction::SouthAfrica],
            jurisdictions@.len() == i,
            forall|k: int| 0 <= k < i ==> jurisdictions@[k] == api_jurisdiction(listed@[k]),
        decreases listed.len() - i,
    {
        jurisdictions.push(ApiJurisdiction::from(listed[i]));
        i += 1;
    }
    assert(jurisdictions@ =~= seq![ApiJurisdiction::SouthAfrica]);
    jurisdictions
}

/// The records of every published version, in registry order.
pub fn list_tax_rule_registry_entries_contract() -> (entries: Vec<ApiTaxRuleRegistryEntry>)
    ensures
        entries@.len() == entries_of(Jurisdiction::SouthAfrica).len(),
        forall|i: int|
            0 <= i < entries@.len() ==> (#[trigger] entries@[i]).mirrors(
                entries_of(Jurisdiction::SouthAfrica)[i],
            ),
{
    let listed = list_tax_rule_registry_entries();
    let mut entries: Vec<ApiTaxRuleRegistryEntry> = Vec::new();
    let mut i: usize = 0;
    while i < listed.len()
        invariant
            i <= listed.len(),
            entries@.len() == i,
            forall|k: int| 0 <= k < i ==> (#[trigger] entries@[k]).mirrors(listed@[k]),
        decreases listed.len() - i,
    {
        entries.push(ApiTaxRuleRegistryEntry::of(listed[i]));
        i += 1;
    }
    entries
}

/// The record of the registry summary of a jurisdiction.
pub fn get_jurisdiction_tax_rule_registry_contract(jurisdiction: ApiJurisdiction) -> (summary:
    Option<ApiJurisdictionTaxRuleRegistryResponse>)
    ensures
        match summary {
            Some(found) => {
                &&& found.jurisdiction == jurisdiction
                &&& found.versions@.len() == versions_of(
                    catalog_of(domain_jurisdiction(jurisdiction)),
                ).len()
                &&& forall|i: int|
                    0 <= i < found.versions@.len() ==> (#[trigger] found.versions@[i]).mirrors(
                        versions_of(catalog_of(domain_jurisdiction(jurisdiction)))[i],
                    )
                &&& is_year_window(
                    catalog_of(domain_jurisdiction(jurisdiction)),
                    Some((found.supported_tax_year_from, found.supported_tax_year_to)),
                )
                &&& found.latest_version_id@ == spec_latest_tax_rules_for(
                    domain_jurisdiction(jurisdiction),
                ).version.version_id@
            },
            None => false,
        },
{
    match get_jurisdiction_tax_rule_registry(Jurisdiction::from(jurisdiction)) {
        Some(found) => Some(ApiJurisdictionTaxRuleRegistryResponse::of(found)),
        None => None,
    }
}

/// The record of the rule version selected for a tax year, or the
/// response that reports the selection error.
pub fn resolve_tax_rules_for_year_contract(jurisdiction: ApiJurisdiction, tax_year: u16) -> (selected:
    Result<ApiVersionedJurisdictionTaxRuleSet, ApiErrorResponse>)
    ensures
        match spec_tax_rules_for(domain_jurisdiction(jurisdiction), tax_year) {
            Ok(found) => selected is Ok && selected->Ok_0.mirrors(found),
            Err(e) => selected is Err && reports(selected->Err_0, EngineError::RuleSelection(e)),
        },
{
    match resolve_tax_rules_for_year_api(Jurisdiction::from(jurisdiction), tax_year) {
        Ok(found) => Ok(ApiVersionedJurisdictionTaxRuleSet::of(found)),
        Err(response) => Err(response),
    }
}

/// The record of the latest rule version of a jurisdiction.
pub fn resolve_latest_tax_rules_contract(jurisdiction: ApiJurisdiction) -> (latest:
    ApiVersionedJurisdictionTaxRuleSet)
    ensures
        latest.mirrors(spec_latest_tax_rules_for(domain_jurisdiction(jurisdiction))),
{
    ApiVersionedJurisdictionTaxRuleSet::of(
        resolve_latest_tax_rules(Jurisdiction::from(jurisdiction)),
    )
}

/// What the calculations read of each record, in batch order.
pub open spec fn api_terms_of(candidates: Seq<ApiEstateScenarioInput>) -> Seq<ScenarioTerms> {
    Seq::new(candidates.len(), |i: int| candidates[i]@)
}

/// What the answer to a validated calculation of a record is: as for the
/// scenario itself, with the result as a record.
pub open spec fn is_checked_record(
    input: ScenarioTerms,
    answer: Result<ApiScenarioResult, ApiErrorResponse>,
) -> bool {
    if !is_valid(input) {
        answer is Err && reports_issues(answer->Err_0, scenario_issues(input))
    } else if input.assets.len() > MAX_ASSETS {
        answer is Err && reports_asset_limit(answer->Err_0)
    } else {
        &&& spec_tax_rules_for(input.jurisdiction, input.tax_year) is Ok
        &&& answer == Ok::<ApiScenarioResult, ApiErrorResponse>(
            api_scenario_result(
                scenario_result(
                    input,
                    spec_tax_rules_for(input.jurisdiction, input.tax_year)->Ok_0.rules,
                ),
            ),
        )
    }
}

/// Validates and calculates the scenario of a record, and reports any
/// error as a response.
pub fn calculate_single_scenario_contract(input: ApiEstateScenarioInput) -> (outcome: Result<
    ApiScenarioResult,
    ApiErrorResponse,
>)
    ensures
        is_checked_record(input@, outcome),
{
    let domain = input.to_domain();
    match calculate_single_scenario_api(&domain) {
        Ok(result) => Ok(ApiScenarioResult::from(result)),
        Err(response) => Err(response),
    }
}

/// Validates the scenario of every record and picks the best: the
/// validation response with the issues of every candidate where any is
/// raised; else the computation response where a candidate has more assets
/// than a calculation can take; else the record of the choice.
pub fn optimize_candidate_scenarios_contract(candidates: Vec<ApiEstateScenarioInput>) -> (choice:
    Result<Option<ApiOptimizedScenario>, ApiErrorResponse>)
    ensures
        batch_issues(api_terms_of(candidates@)).len() > 0 ==> choice is Err && reports_issues(
            choice->Err_0,
            batch_issues(api_terms_of(candidates@)),
        ),
        batch_issues(api_terms_of(candidates@)).len() == 0 && exceeds_asset_limit(
            api_terms_of(candidates@),
        ) ==> choice is Err && reports_asset_limit(choice->Err_0),
        batch_issues(api_terms_of(candidates@)).len() == 0 && !exceeds_asset_limit(
            api_terms_of(candidates@),
        ) ==> choice is Ok && match choice->Ok_0 {
            None => candidates@.len() == 0,
            Some(chosen) => {
                &&& chosen.index < candidates@.len()
                &&& chosen.input@ == candidates@[chosen.index as int]@
                &&& is_best_choice(
                    api_terms_of(candidates@),
                    chosen.index as int,
                    domain_scenario_result(chosen.result),
                    domain_scenario_score(chosen.score),
                )
            },
        },
{
    let mut domain: Vec<EstateScenarioInput> = Vec::new();
    let mut i: usize = 0;
    while i < candidates.len()
        invariant
            i <= candidates.len(),
            domain@.len() == i,
            forall|k: int| 0 <= k < i ==> (#[trigger] domain@[k])@ == candidates@[k]@,
        decreases candidates.len() - i,
    {
        domain.push(candidates[i].to_domain());
        i += 1;
    }
    assert(terms_of(domain@) =~= api_terms_of(candidates@));
    match optimize_candidate_scenarios_api(domain) {
        Ok(best) => Ok(
            match best {
                Some(chosen) => Some(ApiOptimizedScenario::of(chosen)),
                None => None,
            },
        ),
        Err(response) => Err(response),
    }
}

/// The status of a healthy service.
pub fn health() -> (response: ApiHealthResponse)
    ensures
        response.status@ == "ok"@,
{
    ApiHealthResponse { status: owned("ok") }
}

/// The HTTP status that goes with an error code: 400 for a validation
/// error, 422 for a rule selection error, 500 for a computation error.
pub open spec fn status_of(code: ApiErrorCode) -> u16 {
    match code {
        ApiErrorCode::Validation => 400,
        ApiErrorCode::RuleSelection => 422,
        ApiErrorCode::Computation => 500,
    }
}

/// Pairs an error response with its HTTP status.
pub fn api_error_to_http(error: ApiErrorResponse) -> (answer: (u16, ApiErrorResponse))
    ensures
        answer.0 == status_of(error.code),
        answer.1 == error,
{
    let status: u16 = match error.code {
        ApiErrorCode::Validation => 400,
        ApiErrorCode::RuleSelection => 422,
        ApiErrorCode::Computation => 500,
    };
    (status, error)
}

/// The answer for something that does not exist: status 404 and a
/// computation error with the given message.
pub fn not_found_response(message: &str) -> (answer: (u16, ApiErrorResponse))
    ensures
        answer.0 == 404,
        answer.1.code == ApiErrorCode::Computation,
        answer.1.message@ == message@,
        answer.1.validation_issues@.len() == 0,
{
    (
        404,
        ApiErrorResponse {
            code: ApiErrorCode::Computation,
            message: owned(message),
            validation_issues: Vec::new(),
        },
    )
}

/// Whether a lower-case path value names South Africa.
pub open spec fn names_south_africa(lower: Seq<char>) -> bool {
    ||| lower == "south-africa"@
    ||| lower == "south_africa"@
    ||| lower == "southafrica"@
    ||| lower == "za"@
}

/// Reads a jurisdiction from a path value, whatever its letter case. Any
/// value that names no jurisdiction is answered with a validation
/// response that quotes it.
pub fn parse_jurisdiction(raw: &str) -> (parsed: Result<ApiJurisdiction, ApiErrorResponse>)
    ensures
        names_south_africa(ascii_lower(raw@)) ==> parsed == Ok::<ApiJurisdiction, ApiErrorResponse>(
            ApiJurisdiction::SouthAfrica,
        ),
        !names_south_africa(ascii_lower(raw@)) ==> parsed is Err && {
            let response = parsed->Err_0;
            &&& response.code == ApiErrorCode::Validation
            &&& response.message@ == "Unsupported jurisdiction path value '"@ + raw@ + "'"@
            &&& api_issue_texts(response.validation_issues@) == seq![
                IssueText {
                    field: "jurisdiction"@,
                    message: "Use one of: south-africa, south_africa, southafrica, za"@,
                },
            ]
        },
{
    let lower = ascii_lowercase(raw);
    if lower == owned("south-africa") || lower == owned("south_africa") || lower == owned(
        "southafrica",
    ) || lower == owned("za") {
        Ok(ApiJurisdiction::SouthAfrica)
    } else {
        let mut message = owned("Unsupported jurisdiction path value '");
        message.append(raw);
        message.append("'");
        let mut validation_issues: Vec<ApiValidationIssue> = Vec::new();
        validation_issues.push(
            ApiValidationIssue {
                field: owned("jurisdiction"),
                message: owned("Use one of: south-africa, south_africa, southafrica, za"),
            },
        );
        assert(api_issue_texts(validation_issues@) =~= seq![
            IssueText {
                field: "jurisdiction"@,
                message: "Use one of: south-africa, south_africa, southafrica, za"@,
            },
        ]);
        Err(ApiErrorResponse { code: ApiErrorCode::Validation, message, validation_issues })
    }
}

} // verus!
