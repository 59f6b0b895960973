//! What the marketplace answers a request with: the writes to the store,
//! the messages to send and the attributes to report.

use vstd::prelude::*;
use crate::state::{
    BuyOffer, Coin, CollectionInfoModel, SellOffer, SellOfferModel, SimpleCollectionInfo, info_model,
};

verus! {

/// The fee that the contract's treasuries charge for a request.
#[derive(Clone, Copy, Debug, PartialEq, Eq)]
pub enum FeeKind {
    CreateSellOffer,
    CreateBuyOffer,
}

/// A message that the contract sends once the request succeeds.
#[derive(Clone, Debug, PartialEq, Eq)]
pub enum Message {
    /// Pays `amount` out of the contract to `to_address`.
    BankSend { to_address: String, amount: Coin },
    /// Pays the contract's treasuries the fee of the given kind, out of the
    /// funds sent with the request.
    TreasuryFee { fee: FeeKind },
    /// Moves the sender's token `token_id` of the NFT contract
    /// `contract_addr` into the marketplace's custody.
    NftToContract { token_id: String, contract_addr: String },
    /// Moves the token out of the marketplace's custody to `recipient`.
    NftFromContract { token_id: String, recipient: String, contract_addr: String },
}

/// The action that a reply reports.
#[derive(Clone, Copy, Debug, PartialEq, Eq)]
pub enum Action {
    CreateSellOffer,
    UpdateSellOffer,
    CancelSellOffer,
    TransferToEscrow,
    CreateBuyOffer,
    UpdateBuyOffer,
    CancelBuyOffer,
    AcceptBuyOffer,
}

/// An attribute of a reply: the action taken, or an address paid.
#[derive(Clone, Debug, PartialEq, Eq)]
pub enum Attribute {
    Action { action: Action },
    To { address: String },
}

/// The messages and attributes of a successful request, in order.
#[derive(Clone, Debug, PartialEq, Eq)]
pub struct Reply {
    pub messages: Vec<Message>,
    pub attributes: Vec<Attribute>,
}

/// The model of a `Reply`.
pub struct ReplyModel {
    pub messages: Seq<Message>,
    pub attributes: Seq<Attribute>,
}

impl View for Reply {
    type V = ReplyModel;

    open spec fn view(&self) -> ReplyModel {
        ReplyModel { messages: self.messages@, attributes: self.attributes@ }
    }
}

/// A change to the store. Sell offers are keyed by their owner and a token
/// key, buy offers by the sell offer's id and their owner; the collection
/// index counts the sell offers of each collection.
#[derive(Clone, Debug, PartialEq, Eq)]
pub enum StoreWrite {
    SaveSellOffer { owner: String, token_key: String, offer: SellOffer },
    RemoveSellOffer { owner: String, token_key: String },
    SaveBuyOffer { sell_offer_id: String, owner: String, offer: BuyOffer },
    RemoveBuyOffer { sell_offer_id: String, owner: String },
    IndexCollection { collection_info: Option<SimpleCollectionInfo> },
    UnindexCollection { collection_info: Option<SimpleCollectionInfo> },
}

/// The model of a `StoreWrite`.
pub enum WriteModel {
    SaveSellOffer { owner: String, token_key: String, offer: SellOfferModel },
    RemoveSellOffer { owner: String, token_key: String },
    SaveBuyOffer { sell_offer_id: String, owner: String, offer: BuyOffer },
    RemoveBuyOffer { sell_offer_id: String, owner: String },
    IndexCollection { collection_info: Option<CollectionInfoModel> },
    UnindexCollection { collection_info: Option<CollectionInfoModel> },
}

impl View for StoreWrite {
    type V = WriteModel;

    open spec fn view(&self) -> WriteModel {
        match self {
            StoreWrite::SaveSellOffer { owner, token_key, offer } => WriteModel::SaveSellOffer {
                owner: *owner,
                token_key: *token_key,
                offer: offer@,
            },
            StoreWrite::RemoveSellOffer { owner, token_key } => WriteModel::RemoveSellOffer {
                owner: *owner,
                token_key: *token_key,
            },
            StoreWrite::SaveBuyOffer { sell_offer_id, owner, offer } => WriteModel::SaveBuyOffer {
                sell_offer_id: *sell_offer_id,
                owner: *owner,
                offer: *offer,
            },
            StoreWrite::RemoveBuyOffer { sell_offer_id, owner } => WriteModel::RemoveBuyOffer {
                sell_offer_id: *sell_offer_id,
                owner: *owner,
            },
            StoreWrite::IndexCollection { collection_info } => WriteModel::IndexCollection {
                collection_info: info_model(*collection_info),
            },
            StoreWrite::UnindexCollection { collection_info } => WriteModel::UnindexCollection {
                collection_info: info_model(*collection_info),
            },
        }
    }
}

/// The models of a sequence of store writes.
pub open spec fn write_models(ws: Seq<StoreWrite>) -> Seq<WriteModel> {
    ws.map_values(|w: StoreWrite| w@)
}

/// What a successful request does: the store writes, in order, and the reply.
#[derive(Clone, Debug, PartialEq, Eq)]
pub struct Outcome {
    pub writes: Vec<StoreWrite>,
    pub reply: Reply,
}

/// The model of an `Outcome`.
pub struct OutcomeModel {
    pub writes: Seq<WriteModel>,
    pub reply: ReplyModel,
}

impl View for Outcome {
    type V = OutcomeModel;

    open spec fn view(&self) -> OutcomeModel {
        OutcomeModel { writes: write_models(self.writes@), reply: self.reply@ }
    }
}

/// The reply that pays `amount` to `to_address` for `action`.
pub open spec fn send_reply(to_address: String, amount: Coin, action: Action) -> ReplyModel {
    ReplyModel {
        messages: seq![Message::BankSend { to_address, amount }],
        attributes: seq![Attribute::Action { action }, Attribute::To { address: to_address }],
    }
}

/// Pays `amount` to `to_address`, reporting `action` and the payee.
pub fn send_tokens(to_address: String, amount: Coin, action: Action) -> (r: Reply)
    ensures
        r@ == send_reply(to_address, amount, action),
{
    let mut messages: Vec<Message> = Vec::new();
    messages.push(Message::BankSend { to_address: to_address.clone(), amount });
    let mut attributes: Vec<Attribute> = Vec::new();
    attributes.push(Attribute::Action { action });
    attributes.push(Attribute::To { address: to_address });
    let r = Reply { messages, attributes };
    assert(r@.messages =~= send_reply(to_address, amount, action).messages);
    assert(r@.attributes =~= send_reply(to_address, amount, action).attributes);
    r
}

/// Moves `coin` into the contract's escrow, at `contract_address`.
pub fn internal_transfer_to_escrow(contract_address: String, coin: Coin, action: Action) -> (r: Reply)
    ensures
        r@ == send_reply(contract_address, coin, action),
{
    send_tokens(contract_address, coin, action)
}

/// Pays `coin` out of the contract's escrow to `recipient`.
pub fn internal_transfer_from_escrow(recipient: String, coin: Coin, action: Action) -> (r: Reply)
    ensures
        r@ == send_reply(recipient, coin, action),
{
    send_tokens(recipient, coin, action)
}

/// The reply that refunds `amount` of `denom` to the recipient if there is
/// one, and otherwise sends it to the escrow.
pub open spec fn refund_or_top_up_reply(
    contract_address: String,
    amount: u128,
    denom: String,
    recipient: Option<String>,
    action: Action,
) -> ReplyModel {
    let coin = Coin { amount, denom };
    match recipient {
        Some(to) => send_reply(to, coin, action),
        None => send_reply(contract_address, coin, action),
    }
}

/// Refunds `amount` of `denom` to `recipient`, or sends it to the escrow
/// when there is no recipient.
pub fn refund_or_top_up(
    contract_address: String,
    amount: u128,
    denom: String,
    recipient: Option<String>,
    action: Action,
) -> (r: Reply)
    ensures
        r@ == refund_or_top_up_reply(contract_address, amount, denom, recipient, action),
{
    let coin = Coin { amount, denom };
    match recipient {
        Some(to) => internal_transfer_from_escrow(to, coin, action),
        None => internal_transfer_to_escrow(contract_address, coin, action),
    }
}

} // verus!
