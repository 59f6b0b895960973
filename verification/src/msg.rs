//! The answers to queries.

use vstd::prelude::*;
use crate::state::{BuyOffer, Coin, SellOffer};

verus! {

/// A page of sell offers, with the number of offers that matched.
#[derive(Clone, Debug, PartialEq, Eq)]
pub struct SellOffersWithParamsResponse {
    pub offers: Vec<SellOffer>,
    pub total: Option<u32>,
    pub start: Option<u32>,
    pub limit: Option<u32>,
}

impl SellOffersWithParamsResponse {
    /// The answer with no offers and no counts.
    pub fn empty_response() -> (r: Self)
        ensures
            r.offers@.len() == 0,
            r.total is None,
            r.start is None,
            r.limit is None,
    {
        SellOffersWithParamsResponse { offers: Vec::new(), total: None, start: None, limit: None }
    }
}

/// A page of buy offers, with the number of offers that matched.
#[derive(Clone, Debug, PartialEq, Eq)]
pub struct BuyOffersWithParamsResponse {
    pub offers: Vec<BuyOffer>,
    pub total: Option<u32>,
    pub start: Option<u32>,
    pub limit: Option<u32>,
}

impl BuyOffersWithParamsResponse {
    /// The answer with no offers and no counts.
    pub fn empty_response() -> (r: Self)
        ensures
            r.offers@.len() == 0,
            r.total is None,
            r.start is None,
            r.limit is None,
    {
        BuyOffersWithParamsResponse { offers: Vec::new(), total: None, start: None, limit: None }
    }
}

/// The sell offer asked for, if there is one.
#[derive(Clone, Debug, PartialEq, Eq)]
pub struct SellOfferResponse {
    pub offer: Option<SellOffer>,
}

/// The balance of the escrow in the denomination asked for, if known.
#[derive(Clone, Debug, PartialEq, Eq)]
pub struct BalanceResponse {
    pub amount: Option<Coin>,
}

} // verus!
