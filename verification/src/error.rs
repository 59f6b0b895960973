//! The errors with which the marketplace refuses a request.

use vstd::prelude::*;
use crate::texts::{custom_error, custom_error_text};

verus! {

/// Why a request was refused; each variant carries a message for people.
#[derive(Clone, Debug, PartialEq, Eq)]
pub enum ContractError {
    Std { message: String },
    Unauthorized {},
    CustomErrorMesg { message: String },
    SellOfferAlreadyExists { message: String },
    BuyOfferAlreadyExists { message: String },
    BuyOfferNotFound { message: String },
    SellOfferNotFound { message: String },
    SellOfferIsAlreadyClosed { message: String },
    ContractInfoNotFound { message: String },
    ErrorPayingContractTreasuries { message: String },
    InsufficientFund { message: String },
    InvalidRequiredFund { message: String },
    FailedToRemove { message: String },
    BuyOfferAlreadyAccepted { message: String },
}

/// The model of a `ContractError`: each message by its characters.
pub enum ErrorModel {
    Std { message: Seq<char> },
    Unauthorized,
    CustomErrorMesg { message: Seq<char> },
    SellOfferAlreadyExists { message: Seq<char> },
    BuyOfferAlreadyExists { message: Seq<char> },
    BuyOfferNotFound { message: Seq<char> },
    SellOfferNotFound { message: Seq<char> },
    SellOfferIsAlreadyClosed { message: Seq<char> },
    ContractInfoNotFound { message: Seq<char> },
    ErrorPayingContractTreasuries { message: Seq<char> },
    InsufficientFund { message: Seq<char> },
    InvalidRequiredFund { message: Seq<char> },
    FailedToRemove { message: Seq<char> },
    BuyOfferAlreadyAccepted { message: Seq<char> },
}

impl View for ContractError {
    type V = ErrorModel;

    open spec fn view(&self) -> ErrorModel {
        match self {
            ContractError::Std { message } => ErrorModel::Std { message: message@ },
            ContractError::Unauthorized {  } => ErrorModel::Unauthorized,
            ContractError::CustomErrorMesg { message } => ErrorModel::CustomErrorMesg {
                message: message@,
            },
            ContractError::SellOfferAlreadyExists { message } => ErrorModel::SellOfferAlreadyExists {
                message: message@,
            },
            ContractError::BuyOfferAlreadyExists { message } => ErrorModel::BuyOfferAlreadyExists {
                message: message@,
            },
            ContractError::BuyOfferNotFound { message } => ErrorModel::BuyOfferNotFound {
                message: message@,
            },
            ContractError::SellOfferNotFound { message } => ErrorModel::SellOfferNotFound {
                message: message@,
            },
            ContractError::SellOfferIsAlreadyClosed { message } => ErrorModel::SellOfferIsAlreadyClosed {
                message: message@,
            },
            ContractError::ContractInfoNotFound { message } => ErrorModel::ContractInfoNotFound {
                message: message@,
            },
            ContractError::ErrorPayingContractTreasuries { message } =>
                ErrorModel::ErrorPayingContractTreasuries { message: message@ },
            ContractError::InsufficientFund { message } => ErrorModel::InsufficientFund {
                message: message@,
            },
            ContractError::InvalidRequiredFund { message } => ErrorModel::InvalidRequiredFund {
                message: message@,
            },
            ContractError::FailedToRemove { message } => ErrorModel::FailedToRemove {
                message: message@,
            },
            ContractError::BuyOfferAlreadyAccepted { message } => ErrorModel::BuyOfferAlreadyAccepted {
                message: message@,
            },
        }
    }
}

/// The errors of the shared contract-info and treasury services, as far as
/// the marketplace tells them apart.
#[derive(Clone, Debug, PartialEq, Eq)]
pub enum CommonError {
    ContractInfoNotFound { message: String },
    ErrorMakingPayment { message: String },
    Other,
}

/// The marketplace error that a service error becomes.
pub open spec fn common_error_model(error: CommonError) -> ErrorModel {
    match error {
        CommonError::ContractInfoNotFound { message } => ErrorModel::ContractInfoNotFound {
            message: message@,
        },
        CommonError::ErrorMakingPayment { message } => ErrorModel::ErrorPayingContractTreasuries {
            message: message@,
        },
        CommonError::Other => ErrorModel::CustomErrorMesg { message: custom_error_text() },
    }
}

impl ContractError {
    /// The marketplace error for an error of the shared services: a missing
    /// contract info and a failed payment keep their message, any other
    /// error becomes a custom error.
    pub fn from_common(error: CommonError) -> (r: ContractError)
        ensures
            r@ == common_error_model(error),
    {
        match error {
            CommonError::ContractInfoNotFound { message } => ContractError::ContractInfoNotFound {
                message,
            },
            CommonError::ErrorMakingPayment { message } => ContractError::ErrorPayingContractTreasuries {
                message,
            },
            CommonError::Other => ContractError::CustomErrorMesg { message: custom_error() },
        }
    }
}

/// The model of a result that may carry a `ContractError`.
pub open spec fn result_model<T>(r: Result<T, ContractError>) -> Result<T, ErrorModel> {
    match r {
        Ok(v) => Ok(v),
        Err(e) => Err(e@),
    }
}

} // verus!
