//! The records that the marketplace keeps, and their models.

use vstd::prelude::*;

verus! {

/// A sell offer that is open for buy offers.
pub const SELL_STATUS_NEW: u8 = 1;

/// A sell offer whose token has been sold.
pub const SELL_STATUS_CLOSED: u8 = 2;

/// The deal was closed by the seller accepting a buy offer.
pub const DEAL_CLOSED_OFFER_ACCEPTED: u8 = 1;

/// The deal was closed by a buyer paying the asking price.
pub const DEAL_CLOSED_AT_DIRECT_BUY: u8 = 2;

/// An amount of one denomination.
#[derive(Clone, Debug, PartialEq, Eq)]
pub struct Coin {
    pub amount: u128,
    pub denom: String,
}

/// A share of every sale of a collection that goes to `wallet`, in basis
/// points: 500 is 5%.
#[derive(Clone, Debug, PartialEq, Eq)]
pub struct Royalty {
    pub name: Option<String>,
    pub wallet: String,
    pub percentage: u16,
}

/// What a sell offer says of the collection that its token belongs to.
#[derive(Clone, Debug, PartialEq, Eq)]
pub struct SimpleCollectionInfo {
    pub owner: String,
    pub collection_name: String,
    pub collection_symbol: String,
    pub category: Option<String>,
    pub royalties: Option<Vec<Royalty>>,
}

/// A token put up for sale by its owner; the marketplace holds the token
/// while the offer stands.
#[derive(Clone, Debug, PartialEq, Eq)]
pub struct SellOffer {
    pub owner: String,
    pub contract_addr: String,
    pub token_id: String,
    pub offer_id: Option<String>,
    pub price: Coin,
    pub collection_info: Option<SimpleCollectionInfo>,
    pub allowed_direct_buy: bool,
    pub status: u8,
    pub deal_close_type: Option<u8>,
    pub date_created: Option<u64>,
    pub date_updated: Option<u64>,
}

/// A bid on a sell offer; the marketplace holds the bid's price in escrow.
#[derive(Clone, Debug, PartialEq, Eq)]
pub struct BuyOffer {
    pub owner: String,
    pub sell_offer_id: String,
    pub price: Coin,
    pub accepted: bool,
    pub date_created: Option<u64>,
    pub date_updated: Option<u64>,
}

/// A past purchase of a token.
#[derive(Clone, Debug, PartialEq, Eq)]
pub struct PurchaseHistory {
    pub buyer: String,
    pub token_id: String,
    pub at_price: Coin,
    pub date_created: Option<u64>,
}

/// A collection, with the number of its tokens that are on sale.
#[derive(Clone, Debug, PartialEq, Eq)]
pub struct CollectionIndex {
    pub collection_info: SimpleCollectionInfo,
    pub id: String,
    pub number_of_sell_offers: u32,
    pub date_created: Option<u64>,
}

/// A record that the store holds but could not read back.
#[derive(Clone, Debug, PartialEq, Eq)]
pub struct StorageError {}

/// The model of a `SimpleCollectionInfo`: its royalties as a sequence.
pub struct CollectionInfoModel {
    pub owner: String,
    pub collection_name: String,
    pub collection_symbol: String,
    pub category: Option<String>,
    pub royalties: Option<Seq<Royalty>>,
}

impl View for SimpleCollectionInfo {
    type V = CollectionInfoModel;

    open spec fn view(&self) -> CollectionInfoModel {
        CollectionInfoModel {
            owner: self.owner,
            collection_name: self.collection_name,
            collection_symbol: self.collection_symbol,
            category: self.category,
            royalties: match self.royalties {
                Some(v) => Some(v@),
                None => None,
            },
        }
    }
}

/// The model of an optional collection info.
pub open spec fn info_model(info: Option<SimpleCollectionInfo>) -> Option<CollectionInfoModel> {
    match info {
        Some(c) => Some(c@),
        None => None,
    }
}

/// The model of a `SellOffer`: its collection info by its model.
pub struct SellOfferModel {
    pub owner: String,
    pub contract_addr: String,
    pub token_id: String,
    pub offer_id: Option<String>,
    pub price: Coin,
    pub collection_info: Option<CollectionInfoModel>,
    pub allowed_direct_buy: bool,
    pub status: u8,
    pub deal_close_type: Option<u8>,
    pub date_created: Option<u64>,
    pub date_updated: Option<u64>,
}

impl View for SellOffer {
    type V = SellOfferModel;

    open spec fn view(&self) -> SellOfferModel {
        SellOfferModel {
            owner: self.owner,
            contract_addr: self.contract_addr,
            token_id: self.token_id,
            offer_id: self.offer_id,
            price: self.price,
            collection_info: info_model(self.collection_info),
            allowed_direct_buy: self.allowed_direct_buy,
            status: self.status,
            deal_close_type: self.deal_close_type,
            date_created: self.date_created,
            date_updated: self.date_updated,
        }
    }
}

/// A copy of an optional string.
pub fn duplicate_opt_string(s: &Option<String>) -> (r: Option<String>)
    ensures
        r == *s,
{
    match s {
        Some(v) => Some(v.clone()),
        None => None,
    }
}

impl Coin {
    /// A copy of the coin.
    pub fn duplicate(&self) -> (r: Coin)
        ensures
            r == *self,
    {
        Coin { amount: self.amount, denom: self.denom.clone() }
    }
}

impl Royalty {
    /// A copy of the royalty.
    pub fn duplicate(&self) -> (r: Royalty)
        ensures
            r == *self,
    {
        Royalty {
            name: duplicate_opt_string(&self.name),
            wallet: self.wallet.clone(),
            percentage: self.percentage,
        }
    }
}

/// A copy of a list of royalties.
pub fn duplicate_royalties(v: &Vec<Royalty>) -> (r: Vec<Royalty>)
    ensures
        r@ == v@,
{
    let mut out: Vec<Royalty> = Vec::new();
    let mut i: usize = 0;
    while i < v.len()
        invariant
            i <= v.len(),
            out@ == v@.take(i as int),
        decreases v.len() - i,
    {
        out.push(v[i].duplicate());
        assert(v@.take(i + 1) == v@.take(i as int).push(v@[i as int]));
        i += 1;
    }
    assert(v@.take(v.len() as int) == v@);
    out
}

impl SimpleCollectionInfo {
    /// A copy of the collection info.
    pub fn duplicate(&self) -> (r: SimpleCollectionInfo)
        ensures
            r@ == self@,
    {
        let royalties = match &self.royalties {
            Some(v) => Some(duplicate_royalties(v)),
            None => None,
        };
        SimpleCollectionInfo {
            owner: self.owner.clone(),
            collection_name: self.collection_name.clone(),
            collection_symbol: self.collection_symbol.clone(),
            category: duplicate_opt_string(&self.category),
            royalties,
        }
    }
}

/// A copy of an optional collection info.
pub fn duplicate_info(info: &Option<SimpleCollectionInfo>) -> (r: Option<SimpleCollectionInfo>)
    ensures
        info_model(r) == info_model(*info),
{
    match info {
        Some(c) => Some(c.duplicate()),
        None => None,
    }
}

impl SellOffer {
    /// A copy of the sell offer.
    pub fn duplicate(&self) -> (r: SellOffer)
        ensures
            r@ == self@,
    {
        SellOffer {
            owner: self.owner.clone(),
            contract_addr: self.contract_addr.clone(),
            token_id: self.token_id.clone(),
            offer_id: duplicate_opt_string(&self.offer_id),
            price: self.price.duplicate(),
            collection_info: duplicate_info(&self.collection_info),
            allowed_direct_buy: self.allowed_direct_buy,
            status: self.status,
            deal_close_type: self.deal_close_type,
            date_created: self.date_created,
            date_updated: self.date_updated,
        }
    }
}

impl BuyOffer {
    /// A copy of the buy offer.
    pub fn duplicate(&self) -> (r: BuyOffer)
        ensures
            r == *self,
    {
        BuyOffer {
            owner: self.owner.clone(),
            sell_offer_id: self.sell_offer_id.clone(),
            price: self.price.duplicate(),
            accepted: self.accepted,
            date_created: self.date_created,
            date_updated: self.date_updated,
        }
    }
}

} // verus!
