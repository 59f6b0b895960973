//! The checks that a request passes before the marketplace acts on it.
//!
//! Each check takes the record that the host found in the store (if any)
//! under the key that the request names.

use vstd::prelude::*;
use crate::error::{ContractError, ErrorModel, result_model};
use crate::state::{BuyOffer, Coin, SellOffer, SimpleCollectionInfo, StorageError, SELL_STATUS_CLOSED};
use crate::texts::{
    buy_offer_for_exists, buy_offer_for_exists_text, buy_offer_for_not_found,
    buy_offer_for_not_found_text, no_fund, no_fund_text, sell_offer_closed, sell_offer_closed_text,
    sell_offer_exists_message, sell_offer_exists_text, sell_offer_for_exists, sell_offer_for_exists_text,
    sell_offer_for_not_found, sell_offer_for_not_found_text, sell_offer_not_found,
    sell_offer_not_found_text, short_fund, short_fund_text, zero_fund, zero_fund_text,
};

verus! {

/// The outcome of checking for a seller's sell offer of a token.
pub open spec fn sell_offer_check(
    found: Option<SellOffer>,
    token_id: Seq<char>,
    error_on_exists: bool,
) -> Result<Option<SellOffer>, ErrorModel> {
    if error_on_exists {
        match found {
            Some(_) => Err(ErrorModel::SellOfferAlreadyExists {
                message: sell_offer_for_exists_text(token_id),
            }),
            None => Ok(None),
        }
    } else {
        match found {
            Some(so) => Ok(Some(so)),
            None => Err(ErrorModel::SellOfferNotFound {
                message: sell_offer_for_not_found_text(token_id),
            }),
        }
    }
}

/// Checks the seller's sell offer of a token: with `error_on_exists`, that
/// there is none; without it, that there is one, which it returns.
pub fn check_sell_offer_exists(
    found: Option<SellOffer>,
    token_id: &String,
    error_on_exists: bool,
) -> (r: Result<Option<SellOffer>, ContractError>)
    ensures
        result_model(r) == sell_offer_check(found, token_id@, error_on_exists),
{
    if error_on_exists {
        if found.is_some() {
            return Err(ContractError::SellOfferAlreadyExists { message: sell_offer_for_exists(token_id) });
        }
        Ok(None)
    } else {
        if found.is_none() {
            return Err(ContractError::SellOfferNotFound { message: sell_offer_for_not_found(token_id) });
        }
        Ok(found)
    }
}

/// The outcome of checking for the sell offer with a given offer id.
pub open spec fn sell_offer_by_id_check(
    found: Option<SellOffer>,
    offer_id: Seq<char>,
    error_on_exists: bool,
) -> Result<Option<SellOffer>, ErrorModel> {
    if error_on_exists {
        match found {
            Some(_) => Err(ErrorModel::SellOfferAlreadyExists {
                message: sell_offer_exists_text(offer_id),
            }),
            None => Ok(None),
        }
    } else {
        match found {
            Some(so) => Ok(Some(so)),
            None => Err(ErrorModel::SellOfferNotFound { message: sell_offer_not_found_text(offer_id) }),
        }
    }
}

/// Checks the sell offer with a given offer id: with `error_on_exists`,
/// that there is none; without it, that there is one, which it returns.
pub fn sell_offer_exists_by(
    found: Option<SellOffer>,
    offer_id: &String,
    error_on_exists: bool,
) -> (r: Result<Option<SellOffer>, ContractError>)
    ensures
        result_model(r) == sell_offer_by_id_check(found, offer_id@, error_on_exists),
{
    if error_on_exists {
        if found.is_some() {
            return Err(ContractError::SellOfferAlreadyExists { message: sell_offer_exists_message(offer_id) });
        }
        Ok(None)
    } else {
        if found.is_none() {
            return Err(ContractError::SellOfferNotFound { message: sell_offer_not_found(offer_id) });
        }
        Ok(found)
    }
}

/// The outcome of checking that the seller's sell offer of a token can be
/// cancelled.
pub open spec fn cancellable_check(found: Option<SellOffer>, token_id: Seq<char>) -> Result<
    SellOffer,
    ErrorModel,
> {
    match found {
        Some(so) => if so.status == SELL_STATUS_CLOSED {
            Err(ErrorModel::SellOfferIsAlreadyClosed { message: sell_offer_closed_text(token_id) })
        } else {
            Ok(so)
        },
        None => Err(ErrorModel::SellOfferNotFound {
            message: sell_offer_for_not_found_text(token_id),
        }),
    }
}

/// Checks that the seller has a sell offer of the token that is not
/// closed, and returns it.
pub fn check_sell_offer_cancellable(found: Option<SellOffer>, token_id: &String) -> (r: Result<
    SellOffer,
    ContractError,
>)
    ensures
        result_model(r) == cancellable_check(found, token_id@),
{
    match found {
        Some(so) => {
            if so.status == SELL_STATUS_CLOSED {
                Err(ContractError::SellOfferIsAlreadyClosed { message: sell_offer_closed(token_id) })
            } else {
                Ok(so)
            }
        },
        None => Err(ContractError::SellOfferNotFound { message: sell_offer_for_not_found(token_id) }),
    }
}

/// The outcome of checking for a bidder's buy offer on a sell offer.
pub open spec fn buy_offer_check(
    loaded: Result<Option<BuyOffer>, StorageError>,
    owner: Seq<char>,
    exists_on_error: bool,
) -> Result<(), ErrorModel> {
    if exists_on_error {
        match loaded {
            Ok(Some(_)) => Err(ErrorModel::BuyOfferAlreadyExists {
                message: buy_offer_for_exists_text(owner),
            }),
            _ => Ok(()),
        }
    } else {
        match loaded {
            Ok(Some(_)) => Ok(()),
            _ => Err(ErrorModel::BuyOfferNotFound { message: buy_offer_for_not_found_text(owner) }),
        }
    }
}

/// Checks the bidder's buy offer on a sell offer: with `exists_on_error`,
/// that the store holds none (a record that cannot be read counts as
/// none); without it, that the store holds one that can be read.
pub fn check_buy_offer_exists(
    loaded: Result<Option<BuyOffer>, StorageError>,
    owner: &String,
    exists_on_error: bool,
) -> (r: Result<(), ContractError>)
    ensures
        result_model(r) == buy_offer_check(loaded, owner@, exists_on_error),
{
    if exists_on_error {
        if let Ok(Some(_)) = loaded {
            return Err(ContractError::BuyOfferAlreadyExists { message: buy_offer_for_exists(owner) });
        }
        Ok(())
    } else {
        match loaded {
            Ok(Some(_)) => Ok(()),
            _ => Err(ContractError::BuyOfferNotFound { message: buy_offer_for_not_found(owner) }),
        }
    }
}

/// The outcome of checking the funds sent with a request against a
/// required amount: only the first coin sent counts.
pub open spec fn fund_check(funds: Seq<Coin>, required: Coin) -> Result<(), ErrorModel> {
    if required.amount == 0 {
        Err(ErrorModel::InvalidRequiredFund { message: zero_fund_text() })
    } else if funds.len() == 0 {
        Err(ErrorModel::InsufficientFund { message: no_fund_text(required.denom@, required.amount) })
    } else if funds[0].amount < required.amount || funds[0].denom@ != required.denom@ {
        Err(ErrorModel::InsufficientFund {
            message: short_fund_text(
                funds[0].amount,
                funds[0].denom@,
                required.amount,
                required.denom@,
            ),
        })
    } else {
        Ok(())
    }
}

/// Checks that the required amount is not zero and that the first coin
/// sent is of its denomination and at least as much.
pub fn check_is_fund_sufficient(funds: &Vec<Coin>, required_fund: &Coin) -> (r: Result<
    (),
    ContractError,
>)
    ensures
        result_model(r) == fund_check(funds@, *required_fund),
{
    if required_fund.amount == 0 {
        return Err(ContractError::InvalidRequiredFund { message: zero_fund() });
    }
    if funds.len() == 0 {
        return Err(
            ContractError::InsufficientFund {
                message: no_fund(&required_fund.denom, required_fund.amount),
            },
        );
    }
    let first_fund = &funds[0];
    if first_fund.amount < required_fund.amount || first_fund.denom != required_fund.denom {
        Err(
            ContractError::InsufficientFund {
                message: short_fund(
                    first_fund.amount,
                    &first_fund.denom,
                    required_fund.amount,
                    &required_fund.denom,
                ),
            },
        )
    } else {
        Ok(())
    }
}

/// What a lookup found: a record that cannot be read counts as none.
pub open spec fn found_record<T>(loaded: Result<Option<T>, StorageError>) -> Option<T> {
    match loaded {
        Ok(found) => found,
        Err(_) => None,
    }
}

/// The sell offer found under an offer id, if it could be read.
pub fn sell_offer_exists_by_offer_id(loaded: Result<Option<SellOffer>, StorageError>) -> (r: Option<
    SellOffer,
>)
    ensures
        r == found_record(loaded),
{
    match loaded {
        Ok(s) => s,
        Err(_) => None,
    }
}

/// The seller's sell offer found under a token key, if it could be read.
pub fn sell_offer_exists(loaded: Result<Option<SellOffer>, StorageError>) -> (r: Option<SellOffer>)
    ensures
        r == found_record(loaded),
{
    match loaded {
        Ok(c) => c,
        Err(_) => None,
    }
}

/// The collection found under a collection id, if it could be read.
pub fn collection_exists(loaded: Result<Option<SimpleCollectionInfo>, StorageError>) -> (r: Option<
    SimpleCollectionInfo,
>)
    ensures
        r == found_record(loaded),
{
    match loaded {
        Ok(c) => c,
        Err(_) => None,
    }
}

} // verus!
