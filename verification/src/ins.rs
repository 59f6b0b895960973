//! The requests that change the market: what each does to the store and
//! what it answers with.
//!
//! Each function takes the records that the host found in the store for
//! the request, and the facts of the request itself (the sender, the funds
//! sent, the block time, the contract's own address), and returns the
//! `Outcome` that the host carries out, or the error that refuses it.

use vstd::prelude::*;
use crate::checks::{
    buy_offer_check, check_buy_offer_exists, check_is_fund_sufficient, check_sell_offer_cancellable,
    check_sell_offer_exists, cancellable_check, fund_check, sell_offer_by_id_check, sell_offer_check,
    sell_offer_exists_by,
};
use crate::error::{ContractError, ErrorModel, result_model};
use crate::payout::{pay_so_owner_and_royalties, payout_reply, royalties_fit};
use crate::query::{
    buy_offer_lookup, internal_get_buy_offer, internal_get_sell_offer_by_id, sell_offer_by_id_lookup,
};
use crate::response::{
    Action, Attribute, FeeKind, Message, Outcome, OutcomeModel, Reply, ReplyModel, StoreWrite,
    WriteModel, internal_transfer_to_escrow, refund_or_top_up, refund_or_top_up_reply, send_reply,
    write_models,
};
use crate::state::{
    BuyOffer, Coin, SellOffer, SellOfferModel, StorageError, duplicate_info, info_model,
    DEAL_CLOSED_AT_DIRECT_BUY, DEAL_CLOSED_OFFER_ACCEPTED, SELL_STATUS_CLOSED,
    SELL_STATUS_NEW,
};
use crate::texts::{
    buy_offer_accepted, buy_offer_accepted_text, unique_violation, unique_violation_text,
};

verus! {

/// The model of the result of a request.
pub open spec fn outcome_model(r: Result<Outcome, ContractError>) -> Result<OutcomeModel, ErrorModel> {
    match r {
        Ok(o) => Ok(o@),
        Err(e) => Err(e@),
    }
}

/// A list of one store write.
fn one_write(w: StoreWrite) -> (r: Vec<StoreWrite>)
    ensures
        r@ == seq![w],
{
    let mut v: Vec<StoreWrite> = Vec::new();
    v.push(w);
    assert(v@ =~= seq![w]);
    v
}

// ---------------------------------------------------------------- sell offers

/// The sell offer that a seller lists: the offer as sent, owned by the
/// sender, new, with its own offer id or else the derived one, created and
/// updated now.
pub open spec fn listed_offer(
    sender: String,
    offer: SellOffer,
    now: u64,
    derived_offer_id: Option<String>,
) -> SellOfferModel {
    SellOfferModel {
        owner: sender,
        contract_addr: offer.contract_addr,
        token_id: offer.token_id,
        offer_id: if offer.offer_id is Some {
            offer.offer_id
        } else {
            derived_offer_id
        },
        price: offer.price,
        collection_info: info_model(offer.collection_info),
        allowed_direct_buy: offer.allowed_direct_buy,
        status: SELL_STATUS_NEW,
        deal_close_type: None,
        date_created: Some(now),
        date_updated: Some(now),
    }
}

/// The id under which the store indexes a sell offer: its offer id, or
/// `unknown_id` when it has none. No two stored sell offers share it.
pub open spec fn index_id(offer_id: Option<String>) -> Seq<char> {
    match offer_id {
        Some(id) => id@,
        None => "unknown_id"@,
    }
}

/// The id under which the store indexes a sell offer with this offer id.
pub fn offer_index_id(offer_id: &Option<String>) -> (r: String)
    ensures
        r@ == index_id(*offer_id),
{
    match offer_id {
        Some(id) => id.clone(),
        None => "unknown_id".to_owned(),
    }
}

/// The offer id of a listing: the one the offer names, or else the
/// derived one.
pub open spec fn resolved_offer_id(offer_id: Option<String>, derived_offer_id: Option<String>) -> Option<String> {
    if offer_id is Some {
        offer_id
    } else {
        derived_offer_id
    }
}

/// The offer id that a listing will have.
pub fn listing_offer_id(offer_id: &Option<String>, derived_offer_id: &Option<String>) -> (r: Option<String>)
    ensures
        r == resolved_offer_id(*offer_id, *derived_offer_id),
{
    match offer_id {
        Some(id) => Some(id.clone()),
        None => match derived_offer_id {
            Some(id) => Some(id.clone()),
            None => None,
        },
    }
}

/// The offer id derived from the key of an offer's token: `OF` and the key.
pub fn to_offer_id(token_hash: &String) -> (r: Option<String>)
    ensures
        r matches Some(id) && id@ == "OF"@ + token_hash@,
{
    let mut id = "OF".to_owned();
    id.append(token_hash.as_str());
    Some(id)
}

/// What listing a token does: refused if the seller already has a sell
/// offer of it, then if the listing fee could not be paid (with the
/// payment's own error), then (by the store) if another sell offer holds
/// the new offer's index id; otherwise the new offer is saved under the seller and the
/// token key, its collection indexed, the listing fee charged and the
/// token taken into custody.
pub open spec fn create_sell_offer_outcome(
    existing: Option<SellOffer>,
    sender: String,
    offer: SellOffer,
    now: u64,
    derived_offer_id: Option<String>,
    token_key: String,
    id_holder: Option<SellOffer>,
    fee_refusal: Option<ContractError>,
) -> Result<OutcomeModel, ErrorModel> {
    match sell_offer_check(existing, offer.token_id@, true) {
        Err(e) => Err(e),
        Ok(_) => if fee_refusal is Some {
            Err(fee_refusal->0@)
        } else if id_holder is Some {
            Err(ErrorModel::Std { message: unique_violation_text() })
        } else { Ok(
            OutcomeModel {
                writes: seq![
                    WriteModel::SaveSellOffer {
                        owner: sender,
                        token_key,
                        offer: listed_offer(sender, offer, now, derived_offer_id),
                    },
                    WriteModel::IndexCollection { collection_info: info_model(offer.collection_info) },
                ],
                reply: ReplyModel {
                    messages: seq![
                        Message::TreasuryFee { fee: FeeKind::CreateSellOffer },
                        Message::NftToContract {
                            token_id: offer.token_id,
                            contract_addr: offer.contract_addr,
                        },
                    ],
                    attributes: seq![Attribute::Action { action: Action::CreateSellOffer }],
                },
            },
        ) },
    }
}

/// Lists a token for sale.
///
/// `existing` is the seller's sell offer stored under `token_key`, the key
/// of the offer's token; `derived_offer_id` is the id that the offer
/// derives for itself, used when it names none; `id_holder` is the sell
/// offer that the store indexes under the new offer's index id; and
/// `fee_refusal` the error with which paying the listing fee to the
/// contract's treasuries failed, if it did. The fee is paid before the
/// offer is saved, so its failure is reported before the store's.
pub fn create_sell_offer(
    existing: Option<SellOffer>,
    sender: String,
    offer: SellOffer,
    now: u64,
    derived_offer_id: Option<String>,
    token_key: String,
    id_holder: Option<SellOffer>,
    fee_refusal: Option<ContractError>,
) -> (r: Result<Outcome, ContractError>)
    ensures
        outcome_model(r) == create_sell_offer_outcome(
            existing,
            sender,
            offer,
            now,
            derived_offer_id,
            token_key,
            id_holder,
            fee_refusal,
        ),
{
    let ghost offer0 = offer;
    if let Err(e) = check_sell_offer_exists(existing, &offer.token_id, true) {
        return Err(e);
    }
    if let Some(e) = fee_refusal {
        return Err(e);
    }
    if id_holder.is_some() {
        return Err(ContractError::Std { message: unique_violation() });
    }
    let SellOffer { contract_addr, token_id, offer_id, price, collection_info, allowed_direct_buy, .. } =
        offer;
    let mut offer_id = offer_id;
    if offer_id.is_none() {
        offer_id = derived_offer_id;
    }
    let new_offer = SellOffer {
        owner: sender.clone(),
        contract_addr: contract_addr.clone(),
        token_id: token_id.clone(),
        offer_id,
        price,
        collection_info: duplicate_info(&collection_info),
        allowed_direct_buy,
        status: SELL_STATUS_NEW,
        deal_close_type: None,
        date_created: Some(now),
        date_updated: Some(now),
    };
    let mut writes = one_write(StoreWrite::SaveSellOffer { owner: sender, token_key, offer: new_offer });
    writes.push(StoreWrite::IndexCollection { collection_info });
    let mut messages: Vec<Message> = Vec::new();
    messages.push(Message::TreasuryFee { fee: FeeKind::CreateSellOffer });
    messages.push(Message::NftToContract { token_id, contract_addr });
    let mut attributes: Vec<Attribute> = Vec::new();
    attributes.push(Attribute::Action { action: Action::CreateSellOffer });
    let out = Outcome { writes, reply: Reply { messages, attributes } };
    proof {
        let spec = create_sell_offer_outcome(
            existing,
            sender,
            offer0,
            now,
            derived_offer_id,
            token_key,
            id_holder,
            fee_refusal,
        );
        assert(out@.writes =~= spec->Ok_0.writes);
        assert(out@.reply.messages =~= spec->Ok_0.reply.messages);
        assert(out@.reply.attributes =~= spec->Ok_0.reply.attributes);
    }
    Ok(out)
}

/// The sell offer as a seller updates it: the new price and direct-buy
/// permission, the new collection info if one is given, updated now.
pub open spec fn updated_offer(so: SellOffer, update: SellOffer, now: u64) -> SellOfferModel {
    SellOfferModel {
        price: update.price,
        allowed_direct_buy: update.allowed_direct_buy,
        collection_info: if update.collection_info is Some {
            info_model(update.collection_info)
        } else {
            info_model(so.collection_info)
        },
        date_updated: Some(now),
        ..so@
    }
}

/// What updating a sell offer does: refused if the seller has no sell
/// offer of the token; otherwise the updated offer is saved.
pub open spec fn update_sell_offer_outcome(
    existing: Option<SellOffer>,
    sender: String,
    update: SellOffer,
    now: u64,
    token_key: String,
) -> Result<OutcomeModel, ErrorModel> {
    match sell_offer_check(existing, update.token_id@, false) {
        Err(e) => Err(e),
        Ok(_) => Ok(
            OutcomeModel {
                writes: seq![
                    WriteModel::SaveSellOffer {
                        owner: sender,
                        token_key,
                        offer: updated_offer(existing->0, update, now),
                    },
                ],
                reply: ReplyModel {
                    messages: seq![],
                    attributes: seq![Attribute::Action { action: Action::UpdateSellOffer }],
                },
            },
        ),
    }
}

/// Updates the price, direct-buy permission and (if given) collection
/// info of the seller's sell offer of a token.
pub fn update_sell_offer(
    existing: Option<SellOffer>,
    sender: String,
    sell_offer: SellOffer,
    now: u64,
    token_key: String,
) -> (r: Result<Outcome, ContractError>)
    ensures
        outcome_model(r) == update_sell_offer_outcome(existing, sender, sell_offer, now, token_key),
{
    let ghost existing0 = existing;
    let ghost update0 = sell_offer;
    let so = match check_sell_offer_exists(existing, &sell_offer.token_id, false) {
        Err(e) => {
            return Err(e);
        },
        Ok(so) => so,
    };
    let mut offer_to_update = so.unwrap();
    offer_to_update.price = sell_offer.price;
    offer_to_update.allowed_direct_buy = sell_offer.allowed_direct_buy;
    if sell_offer.collection_info.is_some() {
        offer_to_update.collection_info = sell_offer.collection_info;
    }
    offer_to_update.date_updated = Some(now);
    let writes = one_write(StoreWrite::SaveSellOffer { owner: sender, token_key, offer: offer_to_update });
    let mut attributes: Vec<Attribute> = Vec::new();
    attributes.push(Attribute::Action { action: Action::UpdateSellOffer });
    let out = Outcome { writes, reply: Reply { messages: Vec::new(), attributes } };
    proof {
        let spec = update_sell_offer_outcome(existing0, sender, update0, now, token_key);
        assert(out@.writes =~= spec->Ok_0.writes);
        assert(out@.reply.messages =~= spec->Ok_0.reply.messages);
        assert(out@.reply.attributes =~= spec->Ok_0.reply.attributes);
    }
    Ok(out)
}

/// Whether a buy offer is refunded when the other bids are refunded: all
/// are, but the excepted bidder's.
pub open spec fn refunded(b: BuyOffer, except: Option<BuyOffer>) -> bool {
    match except {
        Some(x) => b.owner@ != x.owner@,
        None => true,
    }
}

/// The buy offers that are refunded, in their order.
pub open spec fn refund_targets(bos: Seq<BuyOffer>, except: Option<BuyOffer>) -> Seq<BuyOffer> {
    bos.filter(|b: BuyOffer| refunded(b, except))
}

/// The refund of each buy offer's price to its bidder.
pub open spec fn refund_messages(bos: Seq<BuyOffer>) -> Seq<Message> {
    bos.map_values(|b: BuyOffer| Message::BankSend { to_address: b.owner, amount: b.price })
}

/// The attributes that name the refunded bidders.
pub open spec fn refund_payees(bos: Seq<BuyOffer>) -> Seq<Attribute> {
    bos.map_values(|b: BuyOffer| Attribute::To { address: b.owner })
}

/// The removals of the buy offers from the store.
pub open spec fn buy_offer_removals(sell_offer_id: String, bos: Seq<BuyOffer>) -> Seq<WriteModel> {
    bos.map_values(|b: BuyOffer| WriteModel::RemoveBuyOffer { sell_offer_id, owner: b.owner })
}

/// Refunds the buy offers on a sell offer, but the excepted bidder's: the
/// refund messages and the attributes that name the bidders.
pub fn refund_buy_offers(buy_offers: &Vec<BuyOffer>, except: &Option<BuyOffer>) -> (r: (
    Vec<Message>,
    Vec<Attribute>,
))
    ensures
        r.0@ == refund_messages(refund_targets(buy_offers@, *except)),
        r.1@ == refund_payees(refund_targets(buy_offers@, *except)),
{
    let ghost pred = |b: BuyOffer| refunded(b, *except);
    let mut mesgs: Vec<Message> = Vec::new();
    let mut attrbs: Vec<Attribute> = Vec::new();
    let mut i: usize = 0;
    while i < buy_offers.len()
        invariant
            i <= buy_offers.len(),
            pred == (|b: BuyOffer| refunded(b, *except)),
            mesgs@ == refund_messages(buy_offers@.take(i as int).filter(pred)),
            attrbs@ == refund_payees(buy_offers@.take(i as int).filter(pred)),
        decreases buy_offers.len() - i,
    {
        let b = &buy_offers[i];
        proof {
            assert(buy_offers@.take(i + 1) =~= buy_offers@.take(i as int).push(*b));
            buy_offers@.take(i as int).lemma_filter_push(*b, pred);
        }
        let keep = match except {
            Some(x) => b.owner != x.owner,
            None => true,
        };
        if keep {
            mesgs.push(Message::BankSend { to_address: b.owner.clone(), amount: b.price.duplicate() });
            attrbs.push(Attribute::To { address: b.owner.clone() });
        }
        proof {
            let kept = buy_offers@.take(i + 1).filter(pred);
            assert(mesgs@ =~= refund_messages(kept));
            assert(attrbs@ =~= refund_payees(kept));
        }
        i += 1;
    }
    assert(buy_offers@.take(buy_offers.len() as int) =~= buy_offers@);
    (mesgs, attrbs)
}

/// Removes the buy offers on a sell offer from the store, but the excepted
/// bidder's.
pub fn cancel_all_buy_offers(
    sell_offer_id: &String,
    buy_offers: &Vec<BuyOffer>,
    except: &Option<BuyOffer>,
) -> (r: Vec<StoreWrite>)
    ensures
        write_models(r@) == buy_offer_removals(
            *sell_offer_id,
            refund_targets(buy_offers@, *except),
        ),
{
    let ghost pred = |b: BuyOffer| refunded(b, *except);
    let mut writes: Vec<StoreWrite> = Vec::new();
    let mut i: usize = 0;
    while i < buy_offers.len()
        invariant
            i <= buy_offers.len(),
            pred == (|b: BuyOffer| refunded(b, *except)),
            write_models(writes@) == buy_offer_removals(
                *sell_offer_id,
                buy_offers@.take(i as int).filter(pred),
            ),
        decreases buy_offers.len() - i,
    {
        let b = &buy_offers[i];
        let ghost before = writes@;
        proof {
            assert(buy_offers@.take(i + 1) =~= buy_offers@.take(i as int).push(*b));
            buy_offers@.take(i as int).lemma_filter_push(*b, pred);
        }
        let keep = match except {
            Some(x) => b.owner != x.owner,
            None => true,
        };
        if keep {
            writes.push(
                StoreWrite::RemoveBuyOffer { sell_offer_id: sell_offer_id.clone(), owner: b.owner.clone() },
            );
        }
        proof {
            let kept = buy_offers@.take(i + 1).filter(pred);
            if keep {
                assert(writes@ == before.push(writes@.last()));
                assert(write_models(writes@) =~= write_models(before).push(writes@.last()@));
            }
            assert(write_models(writes@) =~= buy_offer_removals(*sell_offer_id, kept));
        }
        i += 1;
    }
    assert(buy_offers@.take(buy_offers.len() as int) =~= buy_offers@);
    writes
}

/// Refunds every buy offer on a sell offer.
pub fn refund_all_buy_offers(buy_offers: &Vec<BuyOffer>) -> (r: Reply)
    ensures
        r@ == (ReplyModel {
            messages: refund_messages(refund_targets(buy_offers@, None)),
            attributes: refund_payees(refund_targets(buy_offers@, None)),
        }),
{
    let (messages, attributes) = refund_buy_offers(buy_offers, &None);
    Reply { messages, attributes }
}

/// What cancelling a sell offer does: refused if the seller has no sell
/// offer of the token, or it is closed; otherwise every buy offer on it is
/// refunded and removed, the sell offer is removed and unindexed, and the
/// token goes back to the seller.
pub open spec fn cancel_sell_offer_outcome(
    existing: Option<SellOffer>,
    token_id: String,
    buy_offers: Seq<BuyOffer>,
    token_key: String,
) -> Result<OutcomeModel, ErrorModel> {
    match cancellable_check(existing, token_id@) {
        Err(e) => Err(e),
        Ok(so) => {
            let bids = refund_targets(buy_offers, None);
            Ok(
                OutcomeModel {
                    writes: buy_offer_removals(so.offer_id->0, bids) + seq![
                        WriteModel::RemoveSellOffer { owner: so.owner, token_key },
                        WriteModel::UnindexCollection { collection_info: info_model(so.collection_info) },
                    ],
                    reply: ReplyModel {
                        messages: refund_messages(bids) + seq![
                            Message::NftFromContract {
                                token_id: so.token_id,
                                recipient: so.owner,
                                contract_addr: so.contract_addr,
                            },
                        ],
                        attributes: refund_payees(bids) + seq![
                            Attribute::Action { action: Action::CancelSellOffer },
                        ],
                    },
                },
            )
        },
    }
}

/// Whether a sell offer, if it can be cancelled, has an offer id.
pub open spec fn cancellable_has_id(existing: Option<SellOffer>) -> bool {
    match existing {
        Some(so) => so.status != SELL_STATUS_CLOSED ==> so.offer_id is Some,
        None => true,
    }
}

/// Cancels the seller's sell offer of a token.
///
/// `existing` is the seller's sell offer stored under `token_key`, and
/// `buy_offers` the buy offers stored on its offer id, in key order.
pub fn cancel_sell_offer(
    existing: Option<SellOffer>,
    token_id: String,
    buy_offers: &Vec<BuyOffer>,
    token_key: String,
) -> (r: Result<Outcome, ContractError>)
    requires
        cancellable_has_id(existing),
    ensures
        outcome_model(r) == cancel_sell_offer_outcome(existing, token_id, buy_offers@, token_key),
{
    let ghost existing0 = existing;
    let so = match check_sell_offer_cancellable(existing, &token_id) {
        Err(e) => {
            return Err(e);
        },
        Ok(so) => so,
    };
    let resp = refund_all_buy_offers(buy_offers);
    let Reply { mut messages, mut attributes } = resp;
    attributes.push(Attribute::Action { action: Action::CancelSellOffer });
    let offer_id = match &so.offer_id {
        Some(id) => id.clone(),
        None => {
            assert(false);
            String::new()
        },
    };
    let mut writes = cancel_all_buy_offers(&offer_id, buy_offers, &None);
    let ghost removals = writes@;
    writes.push(StoreWrite::RemoveSellOffer { owner: so.owner.clone(), token_key });
    writes.push(StoreWrite::UnindexCollection { collection_info: so.collection_info });
    messages.push(
        Message::NftFromContract {
            token_id: so.token_id,
            recipient: so.owner,
            contract_addr: so.contract_addr,
        },
    );
    let out = Outcome { writes, reply: Reply { messages, attributes } };
    proof {
        let spec = cancel_sell_offer_outcome(existing0, token_id, buy_offers@, token_key);
        assert(writes@ =~= removals.push(writes@[removals.len() as int]).push(writes@[removals.len() + 1int]));
        assert(out@.writes =~= spec->Ok_0.writes);
        assert(out@.reply.messages =~= spec->Ok_0.reply.messages);
        assert(out@.reply.attributes =~= spec->Ok_0.reply.attributes);
    }
    Ok(out)
}

/// Moves coins sent with a request into the escrow.
pub fn transfer_to_escrow(contract_address: String, coin: Coin) -> (r: Result<Reply, ContractError>)
    ensures
        r matches Ok(reply) && reply@ == send_reply(contract_address, coin, Action::TransferToEscrow),
{
    Ok(internal_transfer_to_escrow(contract_address, coin, Action::TransferToEscrow))
}

// ----------------------------------------------------------------- buy offers

/// The buy offer that a bidder places: the offer's price, owned by the
/// bidder, on the sell offer, not accepted, created and updated now.
pub open spec fn placed_bid(owner: String, buy_offer: BuyOffer, sell_offer_id: String, now: u64) -> BuyOffer {
    BuyOffer {
        owner,
        sell_offer_id,
        price: buy_offer.price,
        accepted: false,
        date_created: Some(now),
        date_updated: Some(now),
    }
}

/// What placing a bid does: refused if there is no sell offer with the
/// id, if the bidder already has a buy offer on it, or if the funds sent
/// do not cover the price; otherwise the bid is saved, its price moved
/// into escrow and the bidding fee charged.
pub open spec fn create_buy_offer_outcome(
    sell_offer: Option<SellOffer>,
    existing_bid: Result<Option<BuyOffer>, StorageError>,
    funds: Seq<Coin>,
    owner: String,
    buy_offer: BuyOffer,
    sell_offer_id: String,
    now: u64,
    contract_address: String,
) -> Result<OutcomeModel, ErrorModel> {
    match sell_offer_by_id_check(sell_offer, sell_offer_id@, false) {
        Err(e) => Err(e),
        Ok(_) => match buy_offer_check(existing_bid, owner@, true) {
            Err(e) => Err(e),
            Ok(_) => match fund_check(funds, buy_offer.price) {
                Err(e) => Err(e),
                Ok(_) => Ok(
                    OutcomeModel {
                        writes: seq![
                            WriteModel::SaveBuyOffer {
                                sell_offer_id,
                                owner,
                                offer: placed_bid(owner, buy_offer, sell_offer_id, now),
                            },
                        ],
                        reply: ReplyModel {
                            messages: seq![
                                Message::BankSend { to_address: contract_address, amount: buy_offer.price },
                                Message::TreasuryFee { fee: FeeKind::CreateBuyOffer },
                            ],
                            attributes: seq![
                                Attribute::Action { action: Action::CreateBuyOffer },
                                Attribute::To { address: contract_address },
                            ],
                        },
                    },
                ),
            },
        },
    }
}

/// Places a bid by `owner` on the sell offer with the given id.
///
/// `sell_offer` is the sell offer stored with that id, `existing_bid` what
/// the store holds for the owner's buy offer on it, and `funds` the coins
/// sent with the request.
pub fn internal_create_buy_offer(
    sell_offer: Option<SellOffer>,
    existing_bid: Result<Option<BuyOffer>, StorageError>,
    funds: &Vec<Coin>,
    owner: String,
    buy_offer: BuyOffer,
    sell_offer_id: String,
    now: u64,
    contract_address: String,
) -> (r: Result<Outcome, ContractError>)
    ensures
        outcome_model(r) == create_buy_offer_outcome(
            sell_offer,
            existing_bid,
            funds@,
            owner,
            buy_offer,
            sell_offer_id,
            now,
            contract_address,
        ),
{
    let ghost buy_offer0 = buy_offer;
    if let Err(e) = sell_offer_exists_by(sell_offer, &sell_offer_id, false) {
        return Err(e);
    }
    let mut buy_offer = buy_offer;
    buy_offer.owner = owner.clone();
    buy_offer.sell_offer_id = sell_offer_id.clone();
    buy_offer.date_created = Some(now);
    buy_offer.date_updated = buy_offer.date_created;
    buy_offer.accepted = false;
    if let Err(e) = check_buy_offer_exists(existing_bid, &owner, true) {
        return Err(e);
    }
    let price = buy_offer.price.duplicate();
    if let Err(e) = check_is_fund_sufficient(funds, &price) {
        return Err(e);
    }
    let writes = one_write(StoreWrite::SaveBuyOffer { sell_offer_id, owner, offer: buy_offer });
    let Reply { mut messages, attributes } = internal_transfer_to_escrow(
        contract_address,
        price,
        Action::CreateBuyOffer,
    );
    messages.push(Message::TreasuryFee { fee: FeeKind::CreateBuyOffer });
    let out = Outcome { writes, reply: Reply { messages, attributes } };
    proof {
        let spec = create_buy_offer_outcome(
            sell_offer,
            existing_bid,
            funds@,
            owner,
            buy_offer0,
            sell_offer_id,
            now,
            contract_address,
        );
        assert(out@.writes =~= spec->Ok_0.writes);
        assert(out@.reply.messages =~= spec->Ok_0.reply.messages);
        assert(out@.reply.attributes =~= spec->Ok_0.reply.attributes);
    }
    Ok(out)
}

/// Places a bid by the sender of the request.
pub fn create_buy_offer(
    sell_offer: Option<SellOffer>,
    existing_bid: Result<Option<BuyOffer>, StorageError>,
    funds: &Vec<Coin>,
    sender: String,
    buy_offer: BuyOffer,
    sell_offer_id: String,
    now: u64,
    contract_address: String,
) -> (r: Result<Outcome, ContractError>)
    ensures
        outcome_model(r) == create_buy_offer_outcome(
            sell_offer,
            existing_bid,
            funds@,
            sender,
            buy_offer,
            sell_offer_id,
            now,
            contract_address,
        ),
{
    internal_create_buy_offer(
        sell_offer,
        existing_bid,
        funds,
        sender,
        buy_offer,
        sell_offer_id,
        now,
        contract_address,
    )
}

/// How a change of bid moves funds: a raise is topped up into the escrow,
/// a cut is refunded to the bidder, and an unchanged bid sends nothing but
/// a zero amount to the escrow.
pub open spec fn rebid_reply(
    old_price: Coin,
    new_price: Coin,
    bidder: String,
    contract_address: String,
) -> ReplyModel {
    if new_price.amount > old_price.amount {
        refund_or_top_up_reply(
            contract_address,
            (new_price.amount - old_price.amount) as u128,
            new_price.denom,
            None,
            Action::UpdateBuyOffer,
        )
    } else if new_price.amount < old_price.amount {
        refund_or_top_up_reply(
            contract_address,
            (old_price.amount - new_price.amount) as u128,
            new_price.denom,
            Some(bidder),
            Action::UpdateBuyOffer,
        )
    } else {
        refund_or_top_up_reply(contract_address, 0, new_price.denom, None, Action::UpdateBuyOffer)
    }
}

/// What changing a bid does: refused if the sender has no buy offer on
/// the sell offer; otherwise the bid takes the new price, updated now, and
/// the difference moves.
pub open spec fn update_buy_offer_outcome(
    found: Option<BuyOffer>,
    sender: String,
    buy_offer: BuyOffer,
    sell_offer_id: String,
    now: u64,
    contract_address: String,
) -> Result<OutcomeModel, ErrorModel> {
    match buy_offer_lookup(found, sell_offer_id@) {
        Err(e) => Err(e),
        Ok(bo) => Ok(
            OutcomeModel {
                writes: seq![
                    WriteModel::SaveBuyOffer {
                        sell_offer_id,
                        owner: sender,
                        offer: BuyOffer { price: buy_offer.price, date_updated: Some(now), ..bo },
                    },
                ],
                reply: rebid_reply(bo.price, buy_offer.price, sender, contract_address),
            },
        ),
    }
}

/// Changes the price of the sender's buy offer on a sell offer.
///
/// `found` is the sender's buy offer stored on the sell offer.
pub fn update_buy_offer(
    found: Option<BuyOffer>,
    sender: String,
    buy_offer: BuyOffer,
    sell_offer_id: String,
    now: u64,
    contract_address: String,
) -> (r: Result<Outcome, ContractError>)
    ensures
        outcome_model(r) == update_buy_offer_outcome(
            found,
            sender,
            buy_offer,
            sell_offer_id,
            now,
            contract_address,
        ),
{
    let owner = sender;
    let mut bo = match internal_get_buy_offer(found, &sell_offer_id) {
        Err(e) => {
            return Err(e);
        },
        Ok(bo) => bo,
    };
    let mut amt_diff: u128 = 0;
    let mut recipient: Option<String> = None;
    if buy_offer.price.amount > bo.price.amount {
        amt_diff = buy_offer.price.amount - bo.price.amount;
    } else if buy_offer.price.amount < bo.price.amount {
        amt_diff = bo.price.amount - buy_offer.price.amount;
        recipient = Some(owner.clone());
    }
    bo.price = buy_offer.price.duplicate();
    bo.date_updated = Some(now);
    let writes = one_write(StoreWrite::SaveBuyOffer { sell_offer_id, owner, offer: bo });
    let reply = refund_or_top_up(
        contract_address,
        amt_diff,
        buy_offer.price.denom,
        recipient,
        Action::UpdateBuyOffer,
    );
    let out = Outcome { writes, reply };
    proof {
        let spec = update_buy_offer_outcome(found, owner, buy_offer, sell_offer_id, now, contract_address);
        assert(out@.writes =~= spec->Ok_0.writes);
    }
    Ok(out)
}

/// Refunds a buy offer's price to `owner`.
pub fn refund_buy_offer(
    buy_offer: &BuyOffer,
    contract_address: String,
    owner: String,
    action: Action,
) -> (r: Reply)
    ensures
        r@ == send_reply(owner, buy_offer.price, action),
{
    let price = buy_offer.price.duplicate();
    refund_or_top_up(contract_address, price.amount, price.denom, Some(owner), action)
}

/// What withdrawing a bid does: refused if the sender has no buy offer on
/// the sell offer; otherwise the bid is removed and its price refunded.
pub open spec fn cancel_buy_offer_outcome(
    found: Option<BuyOffer>,
    sender: String,
    sell_offer_id: String,
) -> Result<OutcomeModel, ErrorModel> {
    match buy_offer_lookup(found, sell_offer_id@) {
        Err(e) => Err(e),
        Ok(bo) => Ok(
            OutcomeModel {
                writes: seq![WriteModel::RemoveBuyOffer { sell_offer_id, owner: sender }],
                reply: send_reply(sender, bo.price, Action::CancelBuyOffer),
            },
        ),
    }
}

/// Withdraws the sender's buy offer on a sell offer.
pub fn cancel_buy_offer(
    found: Option<BuyOffer>,
    sender: String,
    sell_offer_id: String,
    contract_address: String,
) -> (r: Result<Outcome, ContractError>)
    ensures
        outcome_model(r) == cancel_buy_offer_outcome(found, sender, sell_offer_id),
{
    let owner = sender;
    let bo = match internal_get_buy_offer(found, &sell_offer_id) {
        Err(e) => {
            return Err(e);
        },
        Ok(bo) => bo,
    };
    let writes = one_write(StoreWrite::RemoveBuyOffer { sell_offer_id, owner: owner.clone() });
    let reply = refund_buy_offer(&bo, contract_address, owner, Action::CancelBuyOffer);
    let out = Outcome { writes, reply };
    proof {
        let spec = cancel_buy_offer_outcome(found, owner, sell_offer_id);
        assert(out@.writes =~= spec->Ok_0.writes);
    }
    Ok(out)
}

/// The outcome of looking up a bid that is still open.
pub open spec fn open_bid_lookup(found: Option<BuyOffer>, sell_offer_id: Seq<char>) -> Result<
    BuyOffer,
    ErrorModel,
> {
    match buy_offer_lookup(found, sell_offer_id) {
        Err(e) => Err(e),
        Ok(bo) => if bo.accepted {
            Err(ErrorModel::BuyOfferAlreadyAccepted { message: buy_offer_accepted_text(bo.owner@) })
        } else {
            Ok(bo)
        },
    }
}

/// The buy offer on the sell offer, which must exist and not be accepted.
pub fn get_buy_offer_checked(found: Option<BuyOffer>, sell_offer_id: &String) -> (r: Result<
    BuyOffer,
    ContractError,
>)
    ensures
        result_model(r) == open_bid_lookup(found, sell_offer_id@),
{
    let buy_offer = match internal_get_buy_offer(found, sell_offer_id) {
        Err(e) => {
            return Err(e);
        },
        Ok(bo) => bo,
    };
    if buy_offer.accepted {
        return Err(
            ContractError::BuyOfferAlreadyAccepted { message: buy_offer_accepted(&buy_offer.owner) },
        );
    }
    Ok(buy_offer)
}

/// The sell offer closed now by a deal of the given kind.
pub open spec fn closed_offer(so: SellOfferModel, deal_close_type: u8, now: u64) -> SellOfferModel {
    SellOfferModel {
        status: SELL_STATUS_CLOSED,
        deal_close_type: Some(deal_close_type),
        date_updated: Some(now),
        ..so
    }
}

/// A reply with one more message at its end.
pub open spec fn with_message(reply: ReplyModel, m: Message) -> ReplyModel {
    ReplyModel { messages: reply.messages.push(m), attributes: reply.attributes }
}

/// Whether an acceptance that gets as far as settling can settle: the
/// sender must be the seller, and where the closed offer can be saved the
/// sell offer must have an id and royalties that fit.
pub open spec fn acceptance_settles(
    sender: String,
    bid: Option<BuyOffer>,
    sell_offer: Option<SellOffer>,
    token_key: String,
) -> bool {
    match (bid, sell_offer) {
        (Some(bo), Some(so)) => !bo.accepted ==> {
            &&& sender@ == so.owner@
            &&& so.token_id@ == token_key@ ==> so.offer_id is Some && royalties_fit(so@)
        },
        _ => true,
    }
}

/// Pays out an accepted bid: the bid's price goes to the seller and the
/// royalty holders. No other bid is refunded by this reply.
pub fn accept_bo_and_refund_others(buy_offer: &BuyOffer, sell_offer: &SellOffer) -> (r: Reply)
    requires
        sell_offer.offer_id is Some,
        royalties_fit(sell_offer@),
    ensures
        r@ == payout_reply(buy_offer.price, sell_offer@),
{
    pay_so_owner_and_royalties(buy_offer.price.duplicate(), sell_offer)
}

/// What accepting a bid does: refused if the bidder has no buy offer on
/// the sell offer, if it is already accepted, or if there is no sell offer
/// with the id. The closed sell offer is saved under its owner and token
/// id; the store refuses that unless the token id is the key the offer is
/// stored under, for the offer itself holds its index entries there.
/// Otherwise the bid is marked accepted, the sell offer closed in place,
/// its collection unindexed, the bid paid out and the token sent to the
/// bidder.
pub open spec fn accept_buy_offer_outcome(
    bid: Option<BuyOffer>,
    sell_offer: Option<SellOffer>,
    buy_offer_by: String,
    sell_offer_id: String,
    now: u64,
    token_key: String,
) -> Result<OutcomeModel, ErrorModel> {
    match open_bid_lookup(bid, sell_offer_id@) {
        Err(e) => Err(e),
        Ok(bo) => match sell_offer_by_id_lookup(sell_offer, sell_offer_id@) {
            Err(e) => Err(e),
            Ok(so) => if so.token_id@ != token_key@ {
                Err(ErrorModel::Std { message: unique_violation_text() })
            } else { Ok(
                OutcomeModel {
                    writes: seq![
                        WriteModel::SaveBuyOffer {
                            sell_offer_id,
                            owner: buy_offer_by,
                            offer: BuyOffer { accepted: true, date_updated: Some(now), ..bo },
                        },
                        WriteModel::SaveSellOffer {
                            owner: so.owner,
                            token_key: so.token_id,
                            offer: closed_offer(so@, DEAL_CLOSED_OFFER_ACCEPTED, now),
                        },
                        WriteModel::UnindexCollection { collection_info: info_model(so.collection_info) },
                    ],
                    reply: with_message(
                        payout_reply(bo.price, so@),
                        Message::NftFromContract {
                            token_id: so.token_id,
                            recipient: bo.owner,
                            contract_addr: so.contract_addr,
                        },
                    ),
                },
            ) },
        },
    }
}

/// Accepts the bid of `buy_offer_by` on the sell offer with the given id.
///
/// `bid` is that bidder's buy offer stored on the sell offer,
/// `sell_offer` the sell offer stored with the id, and `token_key` the key
/// of that sell offer's token. Only the seller may accept a bid.
pub fn accept_buy_offer(
    bid: Option<BuyOffer>,
    sell_offer: Option<SellOffer>,
    sender: String,
    buy_offer_by: String,
    sell_offer_id: String,
    now: u64,
    token_key: String,
) -> (r: Result<Outcome, ContractError>)
    requires
        acceptance_settles(sender, bid, sell_offer, token_key),
    ensures
        outcome_model(r) == accept_buy_offer_outcome(
            bid,
            sell_offer,
            buy_offer_by,
            sell_offer_id,
            now,
            token_key,
        ),
{
    let ghost so0 = sell_offer;
    let mut bo = match get_buy_offer_checked(bid, &sell_offer_id) {
        Err(e) => {
            return Err(e);
        },
        Ok(bo) => bo,
    };
    bo.accepted = true;
    bo.date_updated = Some(now);
    let mut so = match internal_get_sell_offer_by_id(sell_offer, &sell_offer_id) {
        Err(e) => {
            return Err(e);
        },
        Ok(so) => so,
    };
    if so.token_id != token_key {
        return Err(ContractError::Std { message: unique_violation() });
    }
    let mut writes = one_write(
        StoreWrite::SaveBuyOffer { sell_offer_id, owner: buy_offer_by, offer: bo.duplicate() },
    );
    so.status = SELL_STATUS_CLOSED;
    so.deal_close_type = Some(DEAL_CLOSED_OFFER_ACCEPTED);
    so.date_updated = Some(now);
    let reply = accept_bo_and_refund_others(&bo, &so);
    let Reply { mut messages, attributes } = reply;
    messages.push(
        Message::NftFromContract {
            token_id: so.token_id.clone(),
            recipient: bo.owner,
            contract_addr: so.contract_addr.clone(),
        },
    );
    let collection_info = duplicate_info(&so.collection_info);
    writes.push(StoreWrite::SaveSellOffer { owner: so.owner.clone(), token_key: so.token_id.clone(), offer: so });
    writes.push(StoreWrite::UnindexCollection { collection_info });
    let out = Outcome { writes, reply: Reply { messages, attributes } };
    proof {
        let spec = accept_buy_offer_outcome(bid, so0, buy_offer_by, sell_offer_id, now, token_key);
        assert(out@.writes =~= spec->Ok_0.writes);
        assert(out@.reply.messages =~= spec->Ok_0.reply.messages);
    }
    Ok(out)
}

/// Pays out a direct purchase: the asking price goes to the seller and the
/// royalty holders. No bid is refunded by this reply.
pub fn direct_buy_and_refund_others(price: Coin, sell_offer: &SellOffer) -> (r: Reply)
    requires
        sell_offer.offer_id is Some,
        royalties_fit(sell_offer@),
    ensures
        r@ == payout_reply(price, sell_offer@),
{
    pay_so_owner_and_royalties(price, sell_offer)
}

/// Whether a direct purchase that gets as far as settling can settle: the
/// sell offer must have an id and royalties that fit.
pub open spec fn purchase_settles(sell_offer: Option<SellOffer>, funds: Seq<Coin>, token_key: String) -> bool {
    match sell_offer {
        Some(so) => fund_check(funds, so.price) is Ok && so.token_id@ == token_key@ ==> so.offer_id is Some
            && royalties_fit(so@),
        None => true,
    }
}

/// What buying a token at its asking price does: refused if there is no
/// sell offer with the id or the funds sent do not cover the price. The
/// closed sell offer is saved under its owner and token id; the store
/// refuses that unless the token id is the key the offer is stored under.
/// Otherwise the sell offer is closed in place, its collection unindexed,
/// the price paid out and the token sent to the buyer.
pub open spec fn direct_buy_outcome(
    sell_offer: Option<SellOffer>,
    funds: Seq<Coin>,
    sender: String,
    sell_offer_id: String,
    now: u64,
    token_key: String,
) -> Result<OutcomeModel, ErrorModel> {
    match sell_offer_by_id_check(sell_offer, sell_offer_id@, false) {
        Err(e) => Err(e),
        Ok(_) => {
            let so = sell_offer->0;
            match fund_check(funds, so.price) {
                Err(e) => Err(e),
                Ok(_) => if so.token_id@ != token_key@ {
                    Err(ErrorModel::Std { message: unique_violation_text() })
                } else { Ok(
                    OutcomeModel {
                        writes: seq![
                            WriteModel::SaveSellOffer {
                                owner: so.owner,
                                token_key: so.token_id,
                                offer: closed_offer(so@, DEAL_CLOSED_AT_DIRECT_BUY, now),
                            },
                            WriteModel::UnindexCollection {
                                collection_info: info_model(so.collection_info),
                            },
                        ],
                        reply: with_message(
                            payout_reply(so.price, so@),
                            Message::NftFromContract {
                                token_id: so.token_id,
                                recipient: sender,
                                contract_addr: so.contract_addr,
                            },
                        ),
                    },
                ) },
            }
        },
    }
}

/// Buys the token of the sell offer with the given id at its asking price.
///
/// `sell_offer` is the sell offer stored with the id, `funds` the coins
/// sent with the request, and `token_key` the key of the sell offer's token.
pub fn direct_buy(
    sell_offer: Option<SellOffer>,
    funds: &Vec<Coin>,
    sender: String,
    sell_offer_id: String,
    now: u64,
    token_key: String,
) -> (r: Result<Outcome, ContractError>)
    requires
        purchase_settles(sell_offer, funds@, token_key),
    ensures
        outcome_model(r) == direct_buy_outcome(sell_offer, funds@, sender, sell_offer_id, now, token_key),
{
    let ghost so0 = sell_offer;
    let found = match sell_offer_exists_by(sell_offer, &sell_offer_id, false) {
        Err(e) => {
            return Err(e);
        },
        Ok(so) => so,
    };
    let mut so = found.unwrap();
    let price = so.price.duplicate();
    if let Err(e) = check_is_fund_sufficient(funds, &price) {
        return Err(e);
    }
    if so.token_id != token_key {
        return Err(ContractError::Std { message: unique_violation() });
    }
    so.status = SELL_STATUS_CLOSED;
    so.deal_close_type = Some(DEAL_CLOSED_AT_DIRECT_BUY);
    so.date_updated = Some(now);
    let reply = direct_buy_and_refund_others(price, &so);
    let Reply { mut messages, attributes } = reply;
    messages.push(
        Message::NftFromContract {
            token_id: so.token_id.clone(),
            recipient: sender,
            contract_addr: so.contract_addr.clone(),
        },
    );
    let collection_info = duplicate_info(&so.collection_info);
    let mut writes = one_write(
        StoreWrite::SaveSellOffer { owner: so.owner.clone(), token_key: so.token_id.clone(), offer: so },
    );
    writes.push(StoreWrite::UnindexCollection { collection_info });
    let out = Outcome { writes, reply: Reply { messages, attributes } };
    proof {
        let spec = direct_buy_outcome(so0, funds@, sender, sell_offer_id, now, token_key);
        assert(out@.writes =~= spec->Ok_0.writes);
        assert(out@.reply.messages =~= spec->Ok_0.reply.messages);
    }
    Ok(out)
}

} // verus!
