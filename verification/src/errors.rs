//! The one error type that the engine's entry points return.

use crate::rules::{selection_message, TaxRuleSelectionError};
use crate::text::owned;
use crate::validation::{issue_texts, validation_report, InputValidationError};
use vstd::prelude::*;
use vstd::std_specs::convert::FromSpecImpl;

verus! {

/// An error of the engine.
#[derive(Debug, Clone, PartialEq, Eq)]
pub enum EngineError {
    Validation(InputValidationError),
    RuleSelection(TaxRuleSelectionError),
    Computation(String),
}

/// The message of an engine error.
pub open spec fn engine_message(error: EngineError) -> Seq<char> {
    match error {
        EngineError::Validation(err) => validation_report(issue_texts(err.issues@)),
        EngineError::RuleSelection(err) => selection_message(err),
        EngineError::Computation(message) => "Computation error: "@ + message@,
    }
}

impl EngineError {
    /// The message of this error.
    pub fn to_string(&self) -> (message: String)
        ensures
            message@ == engine_message(*self),
    {
        match self {
            EngineError::Validation(err) => err.to_string(),
            EngineError::RuleSelection(err) => err.to_string(),
            EngineError::Computation(message) => {
                let mut text = owned("Computation error: ");
                text.append(message.as_str());
                text
            },
        }
    }
}

impl From<InputValidationError> for EngineError {
    fn from(value: InputValidationError) -> (error: Self) {
        EngineError::Validation(value)
    }
}

impl FromSpecImpl<InputValidationError> for EngineError {
    open spec fn obeys_from_spec() -> bool {
        true
    }

    open spec fn from_spec(value: InputValidationError) -> Self {
        EngineError::Validation(value)
    }
}

impl From<TaxRuleSelectionError> for EngineError {
    fn from(value: TaxRuleSelectionError) -> (error: Self) {
        EngineError::RuleSelection(value)
    }
}

impl FromSpecImpl<TaxRuleSelectionError> for EngineError {
    open spec fn obeys_from_spec() -> bool {
        true
    }

    open spec fn from_spec(value: TaxRuleSelectionError) -> Self {
        EngineError::RuleSelection(value)
    }
}

/// The message of the error that answers a scenario with more assets than
/// a calculation can take.
pub open spec fn asset_limit_message() -> Seq<char> {
    "Scenario lists more assets than a calculation can take"@
}

/// Whether `error` is the computation error for too many assets.
pub open spec fn is_asset_limit_error(error: EngineError) -> bool {
    match error {
        EngineError::Computation(message) => message@ == asset_limit_message(),
        _ => false,
    }
}

/// The computation error for too many assets.
pub fn asset_limit_error() -> (error: EngineError)
    ensures
        is_asset_limit_error(error),
{
    EngineError::Computation(owned("Scenario lists more assets than a calculation can take"))
}

/// The message of the error that answers a shock under which some asset's
/// value can no longer be held.
pub open spec fn unfit_shock_message() -> Seq<char> {
    "Market value shock takes an asset beyond the amounts that can be held"@
}

/// Whether `error` is the computation error for an unfit shock.
pub open spec fn is_unfit_shock_error(error: EngineError) -> bool {
    match error {
        EngineError::Computation(message) => message@ == unfit_shock_message(),
        _ => false,
    }
}

/// The computation error for an unfit shock.
pub fn unfit_shock_error() -> (error: EngineError)
    ensures
        is_unfit_shock_error(error),
{
    EngineError::Computation(
        owned("Market value shock takes an asset beyond the amounts that can be held"),
    )
}

} // verus!
