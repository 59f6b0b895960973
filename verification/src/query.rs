//! Looking offers up, and the answers to queries.

use vstd::prelude::*;
use crate::error::{ContractError, ErrorModel, result_model};
use crate::msg::{SellOfferResponse, SellOffersWithParamsResponse};
use crate::state::{BuyOffer, SellOffer, StorageError};
use crate::texts::{
    buy_offer_missing, buy_offer_missing_text, sell_offer_for_missing, sell_offer_for_missing_text,
    sell_offer_missing, sell_offer_missing_text,
};

verus! {

/// The number of offers on a page when the query names none.
pub const DEFAULT_LIMIT: u32 = 10;

/// The most offers on a page.
pub const MAX_LIMIT: u32 = 20;

/// The outcome of looking up a seller's sell offer of a token.
pub open spec fn sell_offer_lookup(found: Option<SellOffer>, token_id: Seq<char>) -> Result<
    SellOffer,
    ErrorModel,
> {
    match found {
        Some(so) => Ok(so),
        None => Err(ErrorModel::SellOfferNotFound { message: sell_offer_for_missing_text(token_id) }),
    }
}

/// The seller's sell offer of the token, which must exist.
pub fn internal_get_sell_offer(found: Option<SellOffer>, token_id: &String) -> (r: Result<
    SellOffer,
    ContractError,
>)
    ensures
        result_model(r) == sell_offer_lookup(found, token_id@),
{
    match found {
        Some(so) => Ok(so),
        None => Err(ContractError::SellOfferNotFound { message: sell_offer_for_missing(token_id) }),
    }
}

/// The outcome of looking up the sell offer with an offer id.
pub open spec fn sell_offer_by_id_lookup(found: Option<SellOffer>, offer_id: Seq<char>) -> Result<
    SellOffer,
    ErrorModel,
> {
    match found {
        Some(so) => Ok(so),
        None => Err(ErrorModel::SellOfferNotFound { message: sell_offer_missing_text(offer_id) }),
    }
}

/// The sell offer with the offer id, which must exist.
pub fn internal_get_sell_offer_by_id(found: Option<SellOffer>, offer_id: &String) -> (r: Result<
    SellOffer,
    ContractError,
>)
    ensures
        result_model(r) == sell_offer_by_id_lookup(found, offer_id@),
{
    match found {
        Some(so) => Ok(so),
        None => Err(ContractError::SellOfferNotFound { message: sell_offer_missing(offer_id) }),
    }
}

/// The outcome of looking up a bidder's buy offer on a sell offer.
pub open spec fn buy_offer_lookup(found: Option<BuyOffer>, sell_offer_id: Seq<char>) -> Result<
    BuyOffer,
    ErrorModel,
> {
    match found {
        Some(bo) => Ok(bo),
        None => Err(ErrorModel::BuyOfferNotFound { message: buy_offer_missing_text(sell_offer_id) }),
    }
}

/// The bidder's buy offer on the sell offer, which must exist.
pub fn internal_get_buy_offer(found: Option<BuyOffer>, sell_offer_id: &String) -> (r: Result<
    BuyOffer,
    ContractError,
>)
    ensures
        result_model(r) == buy_offer_lookup(found, sell_offer_id@),
{
    match found {
        Some(bo) => Ok(bo),
        None => Err(ContractError::BuyOfferNotFound { message: buy_offer_missing(sell_offer_id) }),
    }
}

/// Answers the query for the sell offer with an offer id.
pub fn get_sell_offer_by_id(found: Option<SellOffer>, offer_id: &String) -> (r: SellOfferResponse)
    ensures
        r.offer == found,
{
    match internal_get_sell_offer_by_id(found, offer_id) {
        Ok(so) => SellOfferResponse { offer: Some(so) },
        Err(_) => SellOfferResponse { offer: None },
    }
}

/// Whether a sell offer passes a status filter.
pub open spec fn status_matches(o: SellOffer, status: Option<u8>) -> bool {
    match status {
        Some(s) => o.status == s,
        None => true,
    }
}

/// The sell offers that pass a status filter, in their order.
pub open spec fn with_status(offers: Seq<SellOffer>, status: Option<u8>) -> Seq<SellOffer> {
    offers.filter(|o: SellOffer| status_matches(o, status))
}

/// Keeps the sell offers of the given status, or all of them when no
/// status is given.
pub fn filter_sell_offer_result_all(offers: Vec<SellOffer>, status: Option<u8>) -> (r: Vec<SellOffer>)
    ensures
        r@ == with_status(offers@, status),
{
    match status {
        Some(s) => {
            let ghost all = offers@;
            let ghost pred = |o: SellOffer| status_matches(o, status);
            let mut kept: Vec<SellOffer> = Vec::new();
            let mut rest = offers;
            let mut rev: Vec<SellOffer> = Vec::new();
            // Move the offers out in their order: first reversed onto `rev`,
            // then popped back off it.
            while rest.len() > 0
                invariant
                    all == rest@ + rev@.reverse(),
                decreases rest.len(),
            {
                let o = rest.pop().unwrap();
                proof {
                    assert(rev@.push(o).reverse() =~= seq![o] + rev@.reverse());
                }
                rev.push(o);
            }
            assert(all =~= rev@.reverse());
            while rev.len() > 0
                invariant
                    status == Some(s),
                    pred == (|o: SellOffer| status_matches(o, status)),
                    rev@.len() <= all.len(),
                    rev@.reverse() == all.subrange(all.len() - rev@.len(), all.len() as int),
                    kept@ == all.take(all.len() - rev@.len()).filter(pred),
                decreases rev.len(),
            {
                let ghost k = all.len() - rev@.len();
                let ghost before = rev@;
                let o = rev.pop().unwrap();
                proof {
                    assert(before.reverse()[0] == o);
                    assert(all[k] == o);
                    assert(all.take(k + 1) =~= all.take(k).push(o));
                    all.take(k).lemma_filter_push(o, pred);
                    assert(rev@ == before.drop_last());
                    assert forall|j: int| 0 <= j < rev@.len() implies rev@.reverse()[j] == all[k + 1
                        + j] by {
                        assert(before.reverse()[j + 1] == all.subrange(k, all.len() as int)[j + 1]);
                    }
                    assert(rev@.reverse() =~= all.subrange(k + 1, all.len() as int));
                    assert(pred(o) == (o.status == s));
                }
                if o.status == s {
                    kept.push(o);
                }
            }
            assert(all.take(all.len() as int) =~= all);
            kept
        },
        None => {
            proof {
                lemma_filter_all(offers@, |o: SellOffer| status_matches(o, status));
            }
            offers
        },
    }
}

/// Filtering with a predicate that keeps everything keeps everything.
pub proof fn lemma_filter_all<A>(s: Seq<A>, pred: spec_fn(A) -> bool)
    requires
        forall|o: A| #[trigger] pred(o),
    ensures
        s.filter(pred) == s,
    decreases s.len(),
{
    if s.len() > 0 {
        lemma_filter_all(s.drop_last(), pred);
        s.drop_last().lemma_filter_push(s.last(), pred);
        assert(s.drop_last().push(s.last()) =~= s);
    }
}

/// Where a page starts: the `start` asked for, or the first offer.
pub open spec fn page_start(start: Option<u32>) -> int {
    match start {
        Some(s) => s as int,
        None => 0,
    }
}

/// How many offers a page holds at most: the `limit` asked for, or the
/// default, but never more than the maximum.
pub open spec fn page_limit(limit: Option<u32>) -> int {
    let l = match limit {
        Some(l) => l,
        None => DEFAULT_LIMIT,
    };
    if l < MAX_LIMIT {
        l as int
    } else {
        MAX_LIMIT as int
    }
}

/// The page of a sequence of offers: skip `start` of them, then take up to
/// the page limit of what is left.
pub open spec fn page_of(s: Seq<SellOffer>, start: Option<u32>, limit: Option<u32>) -> Seq<SellOffer> {
    let from = if page_start(start) < s.len() {
        page_start(start)
    } else {
        s.len() as int
    };
    let to = if from + page_limit(limit) < s.len() {
        from + page_limit(limit)
    } else {
        s.len() as int
    };
    s.subrange(from, to)
}

/// Filters the sell offers by status and cuts out a page of the result;
/// returns the page and the number of offers that passed the filter.
pub fn filter_sell_offer_result(
    offers: Vec<SellOffer>,
    status: Option<u8>,
    start: Option<u32>,
    limit: Option<u32>,
) -> (r: (Vec<SellOffer>, usize))
    ensures
        r.0@ == page_of(with_status(offers@, status), start, limit),
        r.1 == with_status(offers@, status).len(),
{
    let limit = match limit {
        Some(l) => l,
        None => DEFAULT_LIMIT,
    };
    let limit: usize = if limit < MAX_LIMIT {
        limit as usize
    } else {
        MAX_LIMIT as usize
    };
    let skip: usize = match start {
        Some(s) => s as usize,
        None => 0,
    };
    let mut res = filter_sell_offer_result_all(offers, status);
    let total = res.len();
    let from = if skip < total {
        skip
    } else {
        total
    };
    let to = if limit < total - from {
        from + limit
    } else {
        total
    };
    res.truncate(to);
    let page = res.split_off(from);
    (page, total)
}

/// The total that a response reports: the count, or zero when the count
/// does not fit.
pub open spec fn reported_total(n: int) -> u32 {
    if n <= u32::MAX {
        n as u32
    } else {
        0
    }
}

/// Answers the query for a seller's sell offers: `loaded` is the seller's
/// sell offers in key order, or the store's failure to read them, which
/// the answer turns into an empty response.
pub fn get_sell_offers_of(
    loaded: Result<Vec<SellOffer>, StorageError>,
    status: Option<u8>,
    start: Option<u32>,
    limit: Option<u32>,
) -> (r: SellOffersWithParamsResponse)
    ensures
        match loaded {
            Ok(offers) => {
                &&& r.offers@ == page_of(with_status(offers@, status), start, limit)
                &&& r.total == Some(reported_total(with_status(offers@, status).len() as int))
                &&& r.start == start
                &&& r.limit == limit
            },
            Err(_) => {
                &&& r.offers@.len() == 0
                &&& r.total is None
                &&& r.start is None
                &&& r.limit is None
            },
        },
{
    match loaded {
        Err(_) => SellOffersWithParamsResponse::empty_response(),
        Ok(offers) => {
            let res = filter_sell_offer_result(offers, status, start, limit);
            let total: u32 = if res.1 <= u32::MAX as usize {
                res.1 as u32
            } else {
                0
            };
            SellOffersWithParamsResponse { offers: res.0, total: Some(total), start, limit }
        },
    }
}

} // verus!
