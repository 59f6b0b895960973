//! The laws of the marketplace: what holds of every request, and of
//! requests taken together.

use vstd::prelude::*;
use crate::payout::{
    lemma_shares_total_bounded, payout_reply, percentage_total, royalties_fit, royalties_of,
    royalty_payments, royalty_share, shares_total, total_paid,
};
use crate::checks::{cancellable_check, fund_check};
use crate::error::{ContractError, ErrorModel};
use crate::ins::{
    accept_buy_offer_outcome, cancel_buy_offer_outcome, cancel_sell_offer_outcome,
    create_buy_offer_outcome, create_sell_offer_outcome, direct_buy_outcome, listed_offer,
    open_bid_lookup, placed_bid, refund_targets, refunded, resolved_offer_id, update_buy_offer_outcome,
    update_sell_offer_outcome, buy_offer_removals, closed_offer, index_id, updated_offer,
};
use crate::query::{lemma_filter_all, page_of, page_start, status_matches, with_status, MAX_LIMIT};
use crate::response::{Action, Attribute, FeeKind, Message, OutcomeModel, WriteModel, send_reply};
use crate::state::{
    BuyOffer, Coin, CollectionInfoModel, Royalty, SellOffer, SellOfferModel, StorageError, info_model,
    DEAL_CLOSED_AT_DIRECT_BUY,
    DEAL_CLOSED_OFFER_ACCEPTED, SELL_STATUS_CLOSED, SELL_STATUS_NEW,
};
use crate::store::{
    MarketStore, apply_write, apply_writes, found_at, holds_index_id, lemma_apply_concat,
    lemma_apply_short, lemma_bid_writes_keep_offers, lemma_remove_keeps_keyed, lemma_save_keeps_keyed,
    store_after, well_keyed,
};
use crate::texts::{
    buy_offer_accepted_text, buy_offer_for_exists_text, sell_offer_closed_text,
    sell_offer_for_exists_text,
};

verus! {

/// Payments add up over concatenation.
proof fn lemma_total_paid_concat(a: Seq<Message>, b: Seq<Message>)
    ensures
        total_paid(a + b) == total_paid(a) + total_paid(b),
    decreases b.len(),
{
    if b.len() > 0 {
        lemma_total_paid_concat(a, b.drop_last());
        assert((a + b).drop_last() =~= a + b.drop_last());
    } else {
        assert(a + b =~= a);
    }
}

/// The royalty payments pay what the royalty holders earn together.
proof fn lemma_royalties_paid(rs: Seq<Royalty>, price: Coin)
    ensures
        total_paid(royalty_payments(rs, price)) == shares_total(rs, price.amount),
    decreases rs.len(),
{
    if rs.len() > 0 {
        lemma_royalties_paid(rs.drop_last(), price);
        assert(royalty_payments(rs, price).drop_last() =~= royalty_payments(rs.drop_last(), price));
    } else {
        assert(royalty_payments(rs, price) =~= Seq::<Message>::empty());
    }
}

/// A sale pays out exactly its price, all of it in the price's
/// denomination: each royalty holder gets its share of the price, rounded
/// down, and the seller the rest, so nothing stays in escrow and nothing
/// more is paid than the buyer put in.
pub proof fn law_payout_pays_the_price(price: Coin, so: SellOfferModel)
    requires
        royalties_fit(so),
    ensures
        total_paid(payout_reply(price, so).messages) == price.amount,
        forall|i: int|
            0 <= i < payout_reply(price, so).messages.len() ==> (#[trigger] payout_reply(
                price,
                so,
            ).messages[i] matches Message::BankSend { amount, .. } && amount.denom == price.denom),
        royalties_of(so) matches Some(rs) ==> forall|i: int|
            0 <= i < rs.len() ==> #[trigger] payout_reply(price, so).messages[i + 1] == (
            Message::BankSend {
                to_address: rs[i].wallet,
                amount: Coin {
                    amount: royalty_share(price.amount, rs[i].percentage),
                    denom: price.denom,
                },
            }),
        royalties_of(so) is None ==> payout_reply(price, so).messages == seq![
            Message::BankSend { to_address: so.owner, amount: price },
        ],
{
    let ms = payout_reply(price, so).messages;
    assert(total_paid(Seq::<Message>::empty()) == 0);
    match royalties_of(so) {
        Some(rs) => {
            lemma_royalties_paid(rs, price);
            lemma_shares_total_bounded(rs, price.amount);
            let t = percentage_total(rs);
            let s = shares_total(rs, price.amount);
            assert(s <= price.amount) by (nonlinear_arith)
                requires
                    10000 * s <= price.amount * t,
                    0 <= t <= 10000,
                    0 <= price.amount,
            ;
            let owner_pay = seq![
                Message::BankSend {
                    to_address: so.owner,
                    amount: Coin { amount: (price.amount - s) as u128, denom: price.denom },
                },
            ];
            lemma_total_paid_concat(owner_pay, royalty_payments(rs, price));
            assert(owner_pay.drop_last() =~= Seq::<Message>::empty());
            assert(total_paid(owner_pay) == price.amount - s);
            assert(ms == owner_pay + royalty_payments(rs, price));
        },
        None => {
            assert(ms.drop_last() =~= Seq::<Message>::empty());
            assert(total_paid(ms) == price.amount);
        },
    }
}

/// Refunding "all but nobody" refunds every bid.
proof fn lemma_refund_all(bids: Seq<BuyOffer>)
    ensures
        refund_targets(bids, None) == bids,
{
    lemma_filter_all(bids, |b: BuyOffer| refunded(b, None));
}

/// Cancelling a listing undoes it: the sell offer that a listing saves
/// under the seller and the token key can be cancelled, which removes it
/// from under the same key and gives the token that the listing took into
/// custody back to the seller.
pub proof fn law_cancel_undoes_listing(
    existing: Option<SellOffer>,
    sender: String,
    offer: SellOffer,
    now: u64,
    derived_offer_id: Option<String>,
    token_key: String,
    id_holder: Option<SellOffer>,
    fee_refusal: Option<ContractError>,
    listed: SellOffer,
    buy_offers: Seq<BuyOffer>,
)
    requires
        create_sell_offer_outcome(existing, sender, offer, now, derived_offer_id, token_key, id_holder, fee_refusal)
            is Ok,
        listed@ == listed_offer(sender, offer, now, derived_offer_id),
        listed.offer_id is Some,
    ensures
        ({
            let created = create_sell_offer_outcome(
                existing,
                sender,
                offer,
                now,
                derived_offer_id,
                token_key,
                id_holder,
                fee_refusal,
            )->Ok_0;
            let cancelled = cancel_sell_offer_outcome(Some(listed), offer.token_id, buy_offers, token_key);
            &&& created.writes[0] == (WriteModel::SaveSellOffer { owner: sender, token_key, offer: listed@ })
            &&& created.reply.messages[1] == (Message::NftToContract {
                token_id: offer.token_id,
                contract_addr: offer.contract_addr,
            })
            &&& cancelled is Ok
            &&& cancelled->Ok_0.writes[buy_offers.len() as int] == (WriteModel::RemoveSellOffer {
                owner: sender,
                token_key,
            })
            &&& cancelled->Ok_0.reply.messages.last() == (Message::NftFromContract {
                token_id: offer.token_id,
                recipient: sender,
                contract_addr: offer.contract_addr,
            })
        }),
{
    lemma_refund_all(buy_offers);
    assert(listed.status != SELL_STATUS_CLOSED);
}

/// Cancelling a sell offer refunds every bid on it: each bidder gets back
/// the price of its bid, and each bid is removed.
pub proof fn law_cancel_refunds_every_bid(
    existing: Option<SellOffer>,
    token_id: String,
    buy_offers: Seq<BuyOffer>,
    token_key: String,
)
    requires
        cancel_sell_offer_outcome(existing, token_id, buy_offers, token_key) is Ok,
    ensures
        ({
            let o = cancel_sell_offer_outcome(existing, token_id, buy_offers, token_key)->Ok_0;
            &&& o.reply.messages.len() == buy_offers.len() + 1
            &&& o.writes.len() == buy_offers.len() + 2
            &&& forall|i: int|
                0 <= i < buy_offers.len() ==> {
                    &&& #[trigger] o.reply.messages[i] == (Message::BankSend {
                        to_address: buy_offers[i].owner,
                        amount: buy_offers[i].price,
                    })
                    &&& o.reply.attributes[i] == (Attribute::To { address: buy_offers[i].owner })
                    &&& o.writes[i] == (WriteModel::RemoveBuyOffer {
                        sell_offer_id: existing->0.offer_id->0,
                        owner: buy_offers[i].owner,
                    })
                }
        }),
{
    lemma_refund_all(buy_offers);
}

/// A withdrawn bid gets back what it put in escrow: placing a bid moves
/// its price into the escrow, and withdrawing that bid refunds the same
/// coin to the bidder and removes the bid.
pub proof fn law_withdrawal_refunds_the_bid(
    sell_offer: Option<SellOffer>,
    existing_bid: Result<Option<BuyOffer>, StorageError>,
    funds: Seq<Coin>,
    owner: String,
    buy_offer: BuyOffer,
    sell_offer_id: String,
    now: u64,
    contract_address: String,
)
    requires
        create_buy_offer_outcome(
            sell_offer,
            existing_bid,
            funds,
            owner,
            buy_offer,
            sell_offer_id,
            now,
            contract_address,
        ) is Ok,
    ensures
        ({
            let placed = create_buy_offer_outcome(
                sell_offer,
                existing_bid,
                funds,
                owner,
                buy_offer,
                sell_offer_id,
                now,
                contract_address,
            )->Ok_0;
            let bid = placed_bid(owner, buy_offer, sell_offer_id, now);
            &&& placed.writes == seq![WriteModel::SaveBuyOffer { sell_offer_id, owner, offer: bid }]
            &&& placed.reply.messages[0] == (Message::BankSend {
                to_address: contract_address,
                amount: buy_offer.price,
            })
            &&& cancel_buy_offer_outcome(Some(bid), owner, sell_offer_id) == Ok::<OutcomeModel, ErrorModel>(
                OutcomeModel {
                    writes: seq![WriteModel::RemoveBuyOffer { sell_offer_id, owner }],
                    reply: send_reply(owner, buy_offer.price, Action::CancelBuyOffer),
                },
            )
        }),
{
}

/// Changing a bid keeps the escrow equal to the bid: a raise tops the
/// escrow up by the difference, a cut refunds the difference to the
/// bidder, and the bid is saved with the new price.
pub proof fn law_rebid_balances_escrow(
    found: BuyOffer,
    sender: String,
    new_bid: BuyOffer,
    sell_offer_id: String,
    now: u64,
    contract_address: String,
)
    ensures
        update_buy_offer_outcome(Some(found), sender, new_bid, sell_offer_id, now, contract_address) is Ok,
        ({
            let o = update_buy_offer_outcome(
                Some(found),
                sender,
                new_bid,
                sell_offer_id,
                now,
                contract_address,
            )->Ok_0;
            &&& o.reply.messages.len() == 1
            &&& o.reply.messages[0] matches Message::BankSend { to_address, amount } && amount.denom
                == new_bid.price.denom && if new_bid.price.amount >= found.price.amount {
                to_address == contract_address && found.price.amount + amount.amount
                    == new_bid.price.amount
            } else {
                to_address == sender && found.price.amount - amount.amount == new_bid.price.amount
            }
            &&& o.writes[0] matches WriteModel::SaveBuyOffer { offer, .. } && offer.price == new_bid.price
        }),
{
}

/// Accepting a bid closes the deal in place: it succeeds only where the
/// closed sell offer is saved under the very key that the offer is stored
/// under (its owner and token key), so the store then holds the closed
/// offer there, cancelling it is refused, and the bid, saved accepted,
/// cannot be accepted again.
pub proof fn law_accepted_deal_is_closed(
    bid: Option<BuyOffer>,
    sell_offer: Option<SellOffer>,
    buy_offer_by: String,
    sell_offer_id: String,
    now: u64,
    token_key: String,
    stored_offer: SellOffer,
    saved_bid: BuyOffer,
    token_id: String,
)
    requires
        accept_buy_offer_outcome(bid, sell_offer, buy_offer_by, sell_offer_id, now, token_key) is Ok,
        accept_buy_offer_outcome(bid, sell_offer, buy_offer_by, sell_offer_id, now, token_key)->Ok_0.writes[1] matches WriteModel::SaveSellOffer { offer, .. } && stored_offer@ == offer,
        accept_buy_offer_outcome(bid, sell_offer, buy_offer_by, sell_offer_id, now, token_key)->Ok_0.writes[0] matches WriteModel::SaveBuyOffer { offer, .. } && saved_bid == offer,
    ensures
        accept_buy_offer_outcome(bid, sell_offer, buy_offer_by, sell_offer_id, now, token_key)->Ok_0.writes[1] matches WriteModel::SaveSellOffer { owner, token_key: key, .. } && owner == sell_offer->0.owner && key@ == token_key@,
        stored_offer.status == SELL_STATUS_CLOSED,
        stored_offer.deal_close_type == Some(DEAL_CLOSED_OFFER_ACCEPTED),
        saved_bid.accepted,
        cancellable_check(Some(stored_offer), token_id@) == Err::<SellOffer, ErrorModel>(
            ErrorModel::SellOfferIsAlreadyClosed { message: sell_offer_closed_text(token_id@) },
        ),
        open_bid_lookup(Some(saved_bid), sell_offer_id@) == Err::<BuyOffer, ErrorModel>(
            ErrorModel::BuyOfferAlreadyAccepted { message: buy_offer_accepted_text(saved_bid.owner@) },
        ),
{
}

/// A direct purchase closes the deal in place: it succeeds only where the
/// closed sell offer is saved under the key the offer is stored under, so
/// the store then holds the closed offer there and cancelling it is
/// refused.
pub proof fn law_direct_purchase_closes(
    sell_offer: Option<SellOffer>,
    funds: Seq<Coin>,
    sender: String,
    sell_offer_id: String,
    now: u64,
    token_key: String,
    stored_offer: SellOffer,
    token_id: String,
)
    requires
        direct_buy_outcome(sell_offer, funds, sender, sell_offer_id, now, token_key) is Ok,
        direct_buy_outcome(sell_offer, funds, sender, sell_offer_id, now, token_key)->Ok_0.writes[0] matches WriteModel::SaveSellOffer { offer, .. } && stored_offer@ == offer,
    ensures
        direct_buy_outcome(sell_offer, funds, sender, sell_offer_id, now, token_key)->Ok_0.writes[0] matches WriteModel::SaveSellOffer { owner, token_key: key, .. } && owner == sell_offer->0.owner && key@ == token_key@,
        stored_offer.status == SELL_STATUS_CLOSED,
        stored_offer.deal_close_type == Some(DEAL_CLOSED_AT_DIRECT_BUY),
        cancellable_check(Some(stored_offer), token_id@) == Err::<SellOffer, ErrorModel>(
            ErrorModel::SellOfferIsAlreadyClosed { message: sell_offer_closed_text(token_id@) },
        ),
{
}

/// A token is listed once per seller: when the seller's sell offer of the
/// token is found under its key, listing it again is refused.
pub proof fn law_listing_twice_refused(
    sender: String,
    offer: SellOffer,
    now: u64,
    derived_offer_id: Option<String>,
    listed: SellOffer,
    again: SellOffer,
    later: u64,
    derived_again: Option<String>,
    token_key: String,
    id_holder: Option<SellOffer>,
    fee_refusal: Option<ContractError>,
)
    requires
        listed@ == listed_offer(sender, offer, now, derived_offer_id),
    ensures
        create_sell_offer_outcome(Some(listed), sender, again, later, derived_again, token_key, id_holder, fee_refusal)
            == Err::<
            OutcomeModel,
            ErrorModel,
        >(ErrorModel::SellOfferAlreadyExists { message: sell_offer_for_exists_text(again.token_id@) }),
{
}

/// A bidder bids once per sell offer: once its bid is stored, a second
/// bid on the same sell offer is refused.
pub proof fn law_bidding_twice_refused(
    sell_offer: Option<SellOffer>,
    existing_bid: Result<Option<BuyOffer>, StorageError>,
    funds: Seq<Coin>,
    owner: String,
    buy_offer: BuyOffer,
    sell_offer_id: String,
    now: u64,
    contract_address: String,
    funds_again: Seq<Coin>,
    bid_again: BuyOffer,
    later: u64,
)
    requires
        create_buy_offer_outcome(
            sell_offer,
            existing_bid,
            funds,
            owner,
            buy_offer,
            sell_offer_id,
            now,
            contract_address,
        ) is Ok,
    ensures
        create_buy_offer_outcome(
            sell_offer,
            Ok(Some(placed_bid(owner, buy_offer, sell_offer_id, now))),
            funds_again,
            owner,
            bid_again,
            sell_offer_id,
            later,
            contract_address,
        ) == Err::<OutcomeModel, ErrorModel>(
            ErrorModel::BuyOfferAlreadyExists { message: buy_offer_for_exists_text(owner@) },
        ),
{
}

/// Every sell offer that a request saves is saved under its own owner.
pub open spec fn saved_under_owner(writes: Seq<WriteModel>) -> bool {
    forall|i: int|
        0 <= i < writes.len() ==> (#[trigger] writes[i] matches WriteModel::SaveSellOffer {
            owner,
            offer,
            ..
        } ==> offer.owner == owner)
}

/// The store keeps each sell offer under its owner: listing, accepting a
/// bid and buying directly save sell offers only under their owners, and
/// so does updating, given that the offer found under the sender's key is
/// the sender's.
pub proof fn law_sell_offers_saved_under_owner(
    existing: Option<SellOffer>,
    sender: String,
    offer: SellOffer,
    now: u64,
    derived_offer_id: Option<String>,
    token_key: String,
    id_holder: Option<SellOffer>,
    fee_refusal: Option<ContractError>,
    bid: Option<BuyOffer>,
    sell_offer: Option<SellOffer>,
    buy_offer_by: String,
    sell_offer_id: String,
    funds: Seq<Coin>,
)
    ensures
        create_sell_offer_outcome(existing, sender, offer, now, derived_offer_id, token_key, id_holder, fee_refusal)
            matches Ok(o) ==> saved_under_owner(o.writes),
        (existing matches Some(so) ==> so.owner == sender) ==> (update_sell_offer_outcome(
            existing,
            sender,
            offer,
            now,
            token_key,
        ) matches Ok(o) ==> saved_under_owner(o.writes)),
        accept_buy_offer_outcome(bid, sell_offer, buy_offer_by, sell_offer_id, now, token_key) matches Ok(
            o,
        ) ==> saved_under_owner(o.writes),
        direct_buy_outcome(sell_offer, funds, sender, sell_offer_id, now, token_key) matches Ok(o)
            ==> saved_under_owner(o.writes),
{
}

/// A page holds at most the maximum number of offers, only offers of the
/// status asked for, and the matching offers that follow one another from
/// where the page starts; the total counts every matching offer.
pub proof fn law_page_bounds(offers: Seq<SellOffer>, status: Option<u8>, start: Option<u32>, limit: Option<u32>)
    ensures
        page_of(with_status(offers, status), start, limit).len() <= MAX_LIMIT,
        with_status(offers, status).len() <= offers.len(),
        forall|i: int|
            0 <= i < page_of(with_status(offers, status), start, limit).len() ==> {
                &&& status_matches(#[trigger] page_of(with_status(offers, status), start, limit)[i], status)
                &&& page_of(with_status(offers, status), start, limit)[i] == with_status(
                    offers,
                    status,
                )[page_start(start) + i]
            },
{
    let pred = |o: SellOffer| status_matches(o, status);
    let all = with_status(offers, status);
    offers.lemma_filter_len(pred);
    assert forall|i: int| 0 <= i < page_of(all, start, limit).len() implies status_matches(
        #[trigger] page_of(all, start, limit)[i],
        status,
    ) by {
        offers.lemma_filter_pred(pred, page_start(start) + i);
    }
}

/// The funds check passes exactly when a price is asked and the first
/// coin sent is of the price's denomination and covers it.
pub proof fn law_fund_check_passes(funds: Seq<Coin>, required: Coin)
    ensures
        fund_check(funds, required) is Ok <==> (required.amount > 0 && funds.len() > 0
            && funds[0].denom@ == required.denom@ && funds[0].amount >= required.amount),
{
}


/// Offer ids stay unique: a listing succeeds only when no stored sell
/// offer holds the new offer's index id, the seller has no offer of the
/// token and the listing fee was paid; the new offer is saved under its owner and its token key, with
/// the offer id it names or else the derived one.
pub proof fn law_offer_ids_stay_unique(
    existing: Option<SellOffer>,
    sender: String,
    offer: SellOffer,
    now: u64,
    derived_offer_id: Option<String>,
    token_key: String,
    id_holder: Option<SellOffer>,
    fee_refusal: Option<ContractError>,
)
    requires
        create_sell_offer_outcome(existing, sender, offer, now, derived_offer_id, token_key, id_holder, fee_refusal)
            is Ok,
    ensures
        existing is None,
        fee_refusal is None,
        id_holder is None,
        create_sell_offer_outcome(existing, sender, offer, now, derived_offer_id, token_key, id_holder, fee_refusal)->Ok_0.writes[0] matches WriteModel::SaveSellOffer { owner, token_key: key, offer: saved } && owner == sender && key == token_key && saved.owner == sender && saved.contract_addr == offer.contract_addr && saved.token_id == offer.token_id && saved.offer_id == resolved_offer_id(offer.offer_id, derived_offer_id),
{
}

/// Every buy offer that a request saves is saved under its own sell offer
/// id and owner.
pub open spec fn bids_saved_under_key(writes: Seq<WriteModel>) -> bool {
    forall|i: int|
        0 <= i < writes.len() ==> (#[trigger] writes[i] matches WriteModel::SaveBuyOffer {
            sell_offer_id,
            owner,
            offer,
        } ==> offer.owner == owner && offer.sell_offer_id == sell_offer_id)
}

/// The store keeps each buy offer under its sell offer id and bidder:
/// placing a bid saves it so, and changing or accepting a bid keeps it so,
/// given that the bid found under a key is the one the key names.
pub proof fn law_bids_saved_under_key(
    sell_offer: Option<SellOffer>,
    existing_bid: Result<Option<BuyOffer>, StorageError>,
    funds: Seq<Coin>,
    owner: String,
    buy_offer: BuyOffer,
    sell_offer_id: String,
    now: u64,
    contract_address: String,
    found: Option<BuyOffer>,
    token_key: String,
)
    ensures
        create_buy_offer_outcome(
            sell_offer,
            existing_bid,
            funds,
            owner,
            buy_offer,
            sell_offer_id,
            now,
            contract_address,
        ) matches Ok(o) ==> bids_saved_under_key(o.writes),
        (found matches Some(b) ==> b.owner == owner && b.sell_offer_id == sell_offer_id) ==> (
        update_buy_offer_outcome(found, owner, buy_offer, sell_offer_id, now, contract_address) matches Ok(
            o,
        ) ==> bids_saved_under_key(o.writes)),
        (found matches Some(b) ==> b.owner == owner && b.sell_offer_id == sell_offer_id) ==> (
        accept_buy_offer_outcome(found, sell_offer, owner, sell_offer_id, now, token_key) matches Ok(o)
            ==> bids_saved_under_key(o.writes)),
{
}

// ------------------------------------------------------------ the store

/// A listing keeps the store well keyed, whether it succeeds or is
/// refused. The host hands it what a well-keyed store holds: the seller's
/// sell offer under the key of the offer's token, and whether some sell
/// offer holds the new offer's index id. A listing whose index id another
/// sell offer holds is refused.
pub proof fn law_listing_keeps_store_keyed(
    s: MarketStore,
    token_key_of: spec_fn(Seq<char>, Seq<char>) -> Seq<char>,
    collection_id: spec_fn(CollectionInfoModel) -> String,
    existing: Option<SellOffer>,
    sender: String,
    offer: SellOffer,
    now: u64,
    derived_offer_id: Option<String>,
    token_key: String,
    id_holder: Option<SellOffer>,
    fee_refusal: Option<ContractError>,
)
    requires
        well_keyed(s, token_key_of),
        found_at(s, (sender@, token_key@), existing),
        token_key@ == token_key_of(offer.contract_addr@, offer.token_id@),
        (id_holder is Some) == holds_index_id(
            s,
            index_id(resolved_offer_id(offer.offer_id, derived_offer_id)),
        ),
    ensures
        well_keyed(
            store_after(
                s,
                create_sell_offer_outcome(
                    existing,
                    sender,
                    offer,
                    now,
                    derived_offer_id,
                    token_key,
                    id_holder,
                    fee_refusal,
                ),
                collection_id,
                now,
            ),
            token_key_of,
        ),
        holds_index_id(s, index_id(resolved_offer_id(offer.offer_id, derived_offer_id)))
            ==> create_sell_offer_outcome(
            existing,
            sender,
            offer,
            now,
            derived_offer_id,
            token_key,
            id_holder,
            fee_refusal,
        ) is Err,
{
    let r = create_sell_offer_outcome(
        existing,
        sender,
        offer,
        now,
        derived_offer_id,
        token_key,
        id_holder,
        fee_refusal,
    );
    if let Ok(o) = r {
        let listed = listed_offer(sender, offer, now, derived_offer_id);
        let key = (sender@, token_key@);
        let id = index_id(resolved_offer_id(offer.offer_id, derived_offer_id));
        assert forall|k: (Seq<char>, Seq<char>)| #[trigger]
            s.sell_offers.contains_key(k) && k != key implies index_id(s.sell_offers[k].offer_id)
            != index_id(listed.offer_id) by {
            if index_id(s.sell_offers[k].offer_id) == id {
                assert(holds_index_id(s, id));
            }
        }
        lemma_save_keeps_keyed(s, key, listed, token_key_of);
        lemma_apply_short(s, o.writes[0], o.writes[1], o.writes[1], collection_id, now);
        assert(o.writes =~= seq![o.writes[0], o.writes[1]]);
        let s1 = apply_write(s, o.writes[0], collection_id, now);
        assert(apply_write(s1, o.writes[1], collection_id, now).sell_offers == s1.sell_offers);
    }
}

/// Updating a sell offer keeps the store well keyed, given that the offer
/// handed in is the one stored under the seller and the token key.
pub proof fn law_update_keeps_store_keyed(
    s: MarketStore,
    token_key_of: spec_fn(Seq<char>, Seq<char>) -> Seq<char>,
    collection_id: spec_fn(CollectionInfoModel) -> String,
    existing: Option<SellOffer>,
    sender: String,
    update: SellOffer,
    now: u64,
    token_key: String,
)
    requires
        well_keyed(s, token_key_of),
        found_at(s, (sender@, token_key@), existing),
    ensures
        well_keyed(
            store_after(
                s,
                update_sell_offer_outcome(existing, sender, update, now, token_key),
                collection_id,
                now,
            ),
            token_key_of,
        ),
{
    if let Ok(o) = update_sell_offer_outcome(existing, sender, update, now, token_key) {
        let key = (sender@, token_key@);
        let so = existing->0;
        assert(s.sell_offers.contains_key(key));
        lemma_save_keeps_keyed(s, key, updated_offer(so, update, now), token_key_of);
        lemma_apply_short(s, o.writes[0], o.writes[0], o.writes[0], collection_id, now);
        assert(o.writes =~= seq![o.writes[0]]);
    }
}

/// Cancelling a sell offer keeps the store well keyed.
pub proof fn law_cancel_keeps_store_keyed(
    s: MarketStore,
    token_key_of: spec_fn(Seq<char>, Seq<char>) -> Seq<char>,
    collection_id: spec_fn(CollectionInfoModel) -> String,
    now: u64,
    existing: Option<SellOffer>,
    token_id: String,
    buy_offers: Seq<BuyOffer>,
    token_key: String,
)
    requires
        well_keyed(s, token_key_of),
    ensures
        well_keyed(
            store_after(
                s,
                cancel_sell_offer_outcome(existing, token_id, buy_offers, token_key),
                collection_id,
                now,
            ),
            token_key_of,
        ),
{
    if let Ok(o) = cancel_sell_offer_outcome(existing, token_id, buy_offers, token_key) {
        let so = existing->0;
        let removals = buy_offer_removals(so.offer_id->0, refund_targets(buy_offers, None));
        let rest = seq![
            WriteModel::RemoveSellOffer { owner: so.owner, token_key },
            WriteModel::UnindexCollection { collection_info: info_model(so.collection_info) },
        ];
        lemma_apply_concat(s, removals, rest, collection_id, now);
        lemma_bid_writes_keep_offers(s, removals, collection_id, now);
        let s1 = apply_writes(s, removals, collection_id, now);
        lemma_remove_keeps_keyed(s, (so.owner@, token_key@), token_key_of);
        lemma_apply_short(s1, rest[0], rest[1], rest[1], collection_id, now);
        let s2 = apply_write(s1, rest[0], collection_id, now);
        assert(apply_write(s2, rest[1], collection_id, now).sell_offers == s2.sell_offers);
    }
}

/// Selling a token, by an accepted bid or at its asking price, keeps the
/// store well keyed, given that the sell offer handed in is the one stored
/// under its owner and the token key.
pub proof fn law_sale_keeps_store_keyed(
    s: MarketStore,
    token_key_of: spec_fn(Seq<char>, Seq<char>) -> Seq<char>,
    collection_id: spec_fn(CollectionInfoModel) -> String,
    now: u64,
    bid: Option<BuyOffer>,
    sell_offer: Option<SellOffer>,
    buy_offer_by: String,
    sell_offer_id: String,
    funds: Seq<Coin>,
    sender: String,
    token_key: String,
)
    requires
        well_keyed(s, token_key_of),
        sell_offer matches Some(so) ==> found_at(s, (so.owner@, token_key@), sell_offer),
    ensures
        well_keyed(
            store_after(
                s,
                accept_buy_offer_outcome(bid, sell_offer, buy_offer_by, sell_offer_id, now, token_key),
                collection_id,
                now,
            ),
            token_key_of,
        ),
        well_keyed(
            store_after(
                s,
                direct_buy_outcome(sell_offer, funds, sender, sell_offer_id, now, token_key),
                collection_id,
                now,
            ),
            token_key_of,
        ),
{
    if let Ok(o) = accept_buy_offer_outcome(bid, sell_offer, buy_offer_by, sell_offer_id, now, token_key) {
        let so = sell_offer->0;
        let key = (so.owner@, token_key@);
        assert(s.sell_offers.contains_key(key));
        lemma_apply_short(s, o.writes[0], o.writes[1], o.writes[2], collection_id, now);
        assert(o.writes =~= seq![o.writes[0], o.writes[1], o.writes[2]]);
        let s1 = apply_write(s, o.writes[0], collection_id, now);
        assert(s1.sell_offers == s.sell_offers);
        lemma_save_keeps_keyed(s1, key, closed_offer(so@, DEAL_CLOSED_OFFER_ACCEPTED, now), token_key_of);
        let s2 = apply_write(s1, o.writes[1], collection_id, now);
        assert(apply_write(s2, o.writes[2], collection_id, now).sell_offers == s2.sell_offers);
    }
    if let Ok(o) = direct_buy_outcome(sell_offer, funds, sender, sell_offer_id, now, token_key) {
        let so = sell_offer->0;
        let key = (so.owner@, token_key@);
        assert(s.sell_offers.contains_key(key));
        lemma_apply_short(s, o.writes[0], o.writes[1], o.writes[1], collection_id, now);
        assert(o.writes =~= seq![o.writes[0], o.writes[1]]);
        lemma_save_keeps_keyed(s, key, closed_offer(so@, DEAL_CLOSED_AT_DIRECT_BUY, now), token_key_of);
        let s1 = apply_write(s, o.writes[0], collection_id, now);
        assert(apply_write(s1, o.writes[1], collection_id, now).sell_offers == s1.sell_offers);
    }
}

/// Placing, changing and withdrawing bids leave the sell offers and the
/// collection index as they were.
pub proof fn law_bids_keep_sell_offers(
    s: MarketStore,
    collection_id: spec_fn(CollectionInfoModel) -> String,
    sell_offer: Option<SellOffer>,
    existing_bid: Result<Option<BuyOffer>, StorageError>,
    funds: Seq<Coin>,
    owner: String,
    buy_offer: BuyOffer,
    sell_offer_id: String,
    now: u64,
    contract_address: String,
    found: Option<BuyOffer>,
)
    ensures
        ({
            let after = store_after(
                s,
                create_buy_offer_outcome(
                    sell_offer,
                    existing_bid,
                    funds,
                    owner,
                    buy_offer,
                    sell_offer_id,
                    now,
                    contract_address,
                ),
                collection_id,
                now,
            );
            after.sell_offers == s.sell_offers && after.collections == s.collections
        }),
        ({
            let after = store_after(
                s,
                update_buy_offer_outcome(found, owner, buy_offer, sell_offer_id, now, contract_address),
                collection_id,
                now,
            );
            after.sell_offers == s.sell_offers && after.collections == s.collections
        }),
        ({
            let after = store_after(
                s,
                cancel_buy_offer_outcome(found, owner, sell_offer_id),
                collection_id,
                now,
            );
            after.sell_offers == s.sell_offers && after.collections == s.collections
        }),
{
    if let Ok(o) = create_buy_offer_outcome(
        sell_offer,
        existing_bid,
        funds,
        owner,
        buy_offer,
        sell_offer_id,
        now,
        contract_address,
    ) {
        lemma_bid_writes_keep_offers(s, o.writes, collection_id, now);
    }
    if let Ok(o) = update_buy_offer_outcome(found, owner, buy_offer, sell_offer_id, now, contract_address) {
        lemma_bid_writes_keep_offers(s, o.writes, collection_id, now);
    }
    if let Ok(o) = cancel_buy_offer_outcome(found, owner, sell_offer_id) {
        lemma_bid_writes_keep_offers(s, o.writes, collection_id, now);
    }
}

/// Listing a token and then cancelling the listing, with no bid placed on
/// it, gives the token back to the seller and leaves the sell offers, the
/// buy offers and the collection index as they were before the listing;
/// the one exception is a collection whose index entry stood at a count of
/// zero or at the largest count.
pub proof fn law_cancel_restores_store(
    s: MarketStore,
    collection_id: spec_fn(CollectionInfoModel) -> String,
    existing: Option<SellOffer>,
    sender: String,
    offer: SellOffer,
    now: u64,
    derived_offer_id: Option<String>,
    token_key: String,
    id_holder: Option<SellOffer>,
    fee_refusal: Option<ContractError>,
    listed: SellOffer,
    later: u64,
)
    requires
        found_at(s, (sender@, token_key@), existing),
        create_sell_offer_outcome(
            existing,
            sender,
            offer,
            now,
            derived_offer_id,
            token_key,
            id_holder,
            fee_refusal,
        ) is Ok,
        listed@ == listed_offer(sender, offer, now, derived_offer_id),
        listed.offer_id is Some,
        info_model(offer.collection_info) matches Some(info) ==> (s.collections.contains_key(
            collection_id(info)@,
        ) ==> 0 < s.collections[collection_id(info)@].number_of_sell_offers < u32::MAX),
    ensures
        ({
            let created = create_sell_offer_outcome(
                existing,
                sender,
                offer,
                now,
                derived_offer_id,
                token_key,
                id_holder,
                fee_refusal,
            );
            let listed_store = store_after(s, created, collection_id, now);
            let cancelled = cancel_sell_offer_outcome(Some(listed), offer.token_id, seq![], token_key);
            let restored = store_after(listed_store, cancelled, collection_id, later);
            &&& listed_store.sell_offers == s.sell_offers.insert((sender@, token_key@), listed@)
            &&& cancelled is Ok
            &&& cancelled->Ok_0.reply.messages == seq![
                Message::NftFromContract {
                    token_id: offer.token_id,
                    recipient: sender,
                    contract_addr: offer.contract_addr,
                },
            ]
            &&& restored.sell_offers == s.sell_offers
            &&& restored.buy_offers == s.buy_offers
            &&& restored.collections == s.collections
        }),
{
    let created = create_sell_offer_outcome(
        existing,
        sender,
        offer,
        now,
        derived_offer_id,
        token_key,
        id_holder,
        fee_refusal,
    )->Ok_0;
    let key = (sender@, token_key@);
    lemma_apply_short(s, created.writes[0], created.writes[1], created.writes[1], collection_id, now);
    assert(created.writes =~= seq![created.writes[0], created.writes[1]]);
    let s1 = apply_write(s, created.writes[0], collection_id, now);
    let s2 = apply_write(s1, created.writes[1], collection_id, now);
    assert(listed.status != SELL_STATUS_CLOSED);
    lemma_refund_all(Seq::<BuyOffer>::empty());
    let cancelled = cancel_sell_offer_outcome(Some(listed), offer.token_id, seq![], token_key)->Ok_0;
    let removals = buy_offer_removals(listed.offer_id->0, refund_targets(Seq::<BuyOffer>::empty(), None));
    assert(removals =~= Seq::<WriteModel>::empty());
    assert(cancelled.writes =~= seq![cancelled.writes[0], cancelled.writes[1]]);
    assert(cancelled.reply.messages =~= seq![
        Message::NftFromContract {
            token_id: offer.token_id,
            recipient: sender,
            contract_addr: offer.contract_addr,
        },
    ]);
    lemma_apply_short(s2, cancelled.writes[0], cancelled.writes[1], cancelled.writes[1], collection_id, later);
    let s3 = apply_write(s2, cancelled.writes[0], collection_id, later);
    let s4 = apply_write(s3, cancelled.writes[1], collection_id, later);
    assert(s4.sell_offers =~= s.sell_offers);
    match info_model(offer.collection_info) {
        Some(info) => {
            let id = collection_id(info);
            assert(s4.collections =~= s.collections);
        },
        None => {},
    }
}

// ------------------------------------------------------- what each sale pays

/// The payments of a sale of `so` at `price`, as a list of messages:
/// first the seller, paid in the price's denomination, then one payment
/// per royalty of the offer's collection, in their order, each of
/// `price * percentage / 10000` (rounded down) to the royalty's wallet;
/// all of them adding up to the price when the royalties fit in it.
pub open spec fn pays_out_sale(ms: Seq<Message>, price: Coin, so: SellOfferModel) -> bool {
    &&& ms.len() >= 1
    &&& ms[0] matches Message::BankSend { to_address, amount } && to_address == so.owner
        && amount.denom == price.denom
    &&& match so.collection_info {
        Some(ci) => match ci.royalties {
            Some(rs) => {
                &&& ms.len() == rs.len() + 1
                &&& forall|i: int|
                    0 <= i < rs.len() ==> #[trigger] ms[i + 1] == (Message::BankSend {
                        to_address: rs[i].wallet,
                        amount: Coin {
                            amount: ((price.amount * rs[i].percentage) / 10000) as u128,
                            denom: price.denom,
                        },
                    })
            },
            None => ms == seq![Message::BankSend { to_address: so.owner, amount: price }],
        },
        None => ms == seq![Message::BankSend { to_address: so.owner, amount: price }],
    }
    &&& royalties_fit(so) ==> total_paid(ms) == price.amount
}

/// The payout of a sale pays as a sale must.
proof fn lemma_payout_pays_out_sale(price: Coin, so: SellOfferModel)
    ensures
        pays_out_sale(payout_reply(price, so).messages, price, so),
{
    let ms = payout_reply(price, so).messages;
    match royalties_of(so) {
        Some(rs) => {
            assert(ms.len() == rs.len() + 1);
            assert forall|i: int| 0 <= i < rs.len() implies #[trigger] ms[i + 1] == (Message::BankSend {
                to_address: rs[i].wallet,
                amount: Coin {
                    amount: ((price.amount * rs[i].percentage) / 10000) as u128,
                    denom: price.denom,
                },
            }) by {
                assert(ms[i + 1] == royalty_payments(rs, price)[i]);
            }
        },
        None => {},
    }
    if royalties_fit(so) {
        law_payout_pays_the_price(price, so);
    }
}

/// Payments followed by a token transfer pay what the payments pay.
proof fn lemma_total_paid_push(ms: Seq<Message>, m: Message)
    requires
        !(m is BankSend),
    ensures
        total_paid(ms.push(m)) == total_paid(ms),
{
    assert(ms.push(m).drop_last() =~= ms);
}

/// Accepting a bid pays out the bid's price for the sell offer: the
/// seller first, then each royalty holder of the offer's collection its
/// share of the bid's price (`price * percentage / 10000`, rounded down),
/// all of it adding up to the bid's price; and then the token goes to the
/// bidder. Nothing else is sent.
pub proof fn law_accepted_bid_pays_out(
    bid: Option<BuyOffer>,
    sell_offer: Option<SellOffer>,
    buy_offer_by: String,
    sell_offer_id: String,
    now: u64,
    token_key: String,
)
    requires
        accept_buy_offer_outcome(bid, sell_offer, buy_offer_by, sell_offer_id, now, token_key) is Ok,
    ensures
        ({
            let ms = accept_buy_offer_outcome(
                bid,
                sell_offer,
                buy_offer_by,
                sell_offer_id,
                now,
                token_key,
            )->Ok_0.reply.messages;
            let bo = bid->0;
            let so = sell_offer->0;
            &&& ms.len() >= 2
            &&& pays_out_sale(ms.drop_last(), bo.price, so@)
            &&& ms.last() == (Message::NftFromContract {
                token_id: so.token_id,
                recipient: bo.owner,
                contract_addr: so.contract_addr,
            })
            &&& royalties_fit(so@) ==> total_paid(ms) == bo.price.amount
        }),
{
    let bo = bid->0;
    let so = sell_offer->0;
    let ms = accept_buy_offer_outcome(bid, sell_offer, buy_offer_by, sell_offer_id, now, token_key)->Ok_0.reply.messages;
    let pay = payout_reply(bo.price, so@).messages;
    let nft = Message::NftFromContract { token_id: so.token_id, recipient: bo.owner, contract_addr: so.contract_addr };
    assert(ms == pay.push(nft));
    assert(ms.drop_last() =~= pay);
    lemma_payout_pays_out_sale(bo.price, so@);
    lemma_total_paid_push(pay, nft);
}

/// Buying a token at its asking price pays out that price for the sell
/// offer: the seller first, then each royalty holder of the offer's
/// collection its share of the price (`price * percentage / 10000`,
/// rounded down), all of it adding up to the price; and then the token
/// goes to the buyer. Nothing else is sent.
pub proof fn law_direct_purchase_pays_out(
    sell_offer: Option<SellOffer>,
    funds: Seq<Coin>,
    sender: String,
    sell_offer_id: String,
    now: u64,
    token_key: String,
)
    requires
        direct_buy_outcome(sell_offer, funds, sender, sell_offer_id, now, token_key) is Ok,
    ensures
        ({
            let ms = direct_buy_outcome(sell_offer, funds, sender, sell_offer_id, now, token_key)->Ok_0.reply.messages;
            let so = sell_offer->0;
            &&& ms.len() >= 2
            &&& pays_out_sale(ms.drop_last(), so.price, so@)
            &&& ms.last() == (Message::NftFromContract {
                token_id: so.token_id,
                recipient: sender,
                contract_addr: so.contract_addr,
            })
            &&& royalties_fit(so@) ==> total_paid(ms) == so.price.amount
            &&& funds.len() > 0 && funds[0].denom@ == so.price.denom@ && funds[0].amount >= so.price.amount
        }),
{
    let so = sell_offer->0;
    let ms = direct_buy_outcome(sell_offer, funds, sender, sell_offer_id, now, token_key)->Ok_0.reply.messages;
    let pay = payout_reply(so.price, so@).messages;
    let nft = Message::NftFromContract { token_id: so.token_id, recipient: sender, contract_addr: so.contract_addr };
    assert(ms == pay.push(nft));
    assert(ms.drop_last() =~= pay);
    lemma_payout_pays_out_sale(so.price, so@);
    lemma_total_paid_push(pay, nft);
    law_fund_check_passes(funds, so.price);
}

// ------------------------------------------------ what a listing or update saves

/// A listing succeeds exactly when the seller has no offer of the token,
/// the fee was paid and no offer holds the new offer id; it then saves,
/// under the seller and the token key, the offer as sent: its contract,
/// token, price, collection info and direct-buy permission, owned by the
/// seller, new and open, created and updated now, with the offer id it
/// names or else the derived one. It then indexes that collection, charges
/// the listing fee and takes the token into custody.
pub proof fn law_listing_saves_the_offer_sent(
    existing: Option<SellOffer>,
    sender: String,
    offer: SellOffer,
    now: u64,
    derived_offer_id: Option<String>,
    token_key: String,
    id_holder: Option<SellOffer>,
    fee_refusal: Option<ContractError>,
)
    ensures
        ({
            let r = create_sell_offer_outcome(
                existing,
                sender,
                offer,
                now,
                derived_offer_id,
                token_key,
                id_holder,
                fee_refusal,
            );
            &&& (r is Ok <==> (existing is None && fee_refusal is None && id_holder is None))
            &&& r matches Ok(o) ==> {
                &&& o.writes.len() == 2
                &&& o.writes[0] matches WriteModel::SaveSellOffer { owner, token_key: key, offer: saved }
                    && owner == sender && key == token_key
                    && saved.owner == sender
                    && saved.contract_addr == offer.contract_addr
                    && saved.token_id == offer.token_id
                    && saved.price == offer.price
                    && saved.allowed_direct_buy == offer.allowed_direct_buy
                    && (offer.collection_info matches Some(c) ==> saved.collection_info == Some(c@))
                    && (offer.collection_info is None ==> saved.collection_info is None)
                    && (offer.offer_id is Some ==> saved.offer_id == offer.offer_id)
                    && (offer.offer_id is None ==> saved.offer_id == derived_offer_id)
                    && saved.status == SELL_STATUS_NEW
                    && saved.deal_close_type is None
                    && saved.date_created == Some(now)
                    && saved.date_updated == Some(now)
                &&& o.writes[1] matches WriteModel::IndexCollection { collection_info }
                    && (offer.collection_info matches Some(c) ==> collection_info == Some(c@))
                    && (offer.collection_info is None ==> collection_info is None)
                &&& o.reply.messages == seq![
                    Message::TreasuryFee { fee: FeeKind::CreateSellOffer },
                    Message::NftToContract { token_id: offer.token_id, contract_addr: offer.contract_addr },
                ]
            }
        }),
{
}

/// An update succeeds exactly when the seller has an offer of the token;
/// it then saves, under the seller and the token key, that offer with the
/// update's price and direct-buy permission (whatever the update's
/// collection info), the update's collection info when it gives one and
/// the offer's own otherwise, updated now, and everything else as it was.
pub proof fn law_update_sets_price_and_permission(
    existing: Option<SellOffer>,
    sender: String,
    update: SellOffer,
    now: u64,
    token_key: String,
)
    ensures
        ({
            let r = update_sell_offer_outcome(existing, sender, update, now, token_key);
            &&& (r is Ok <==> existing is Some)
            &&& r matches Ok(o) ==> {
                let so = existing->0;
                &&& o.writes.len() == 1
                &&& o.writes[0] matches WriteModel::SaveSellOffer { owner, token_key: key, offer: saved }
                    && owner == sender && key == token_key
                    && saved.price == update.price
                    && saved.allowed_direct_buy == update.allowed_direct_buy
                    && (update.collection_info matches Some(c) ==> saved.collection_info == Some(c@))
                    && (update.collection_info is None ==> saved.collection_info == so@.collection_info)
                    && saved.date_updated == Some(now)
                    && saved.owner == so.owner
                    && saved.contract_addr == so.contract_addr
                    && saved.token_id == so.token_id
                    && saved.offer_id == so.offer_id
                    && saved.status == so.status
                    && saved.deal_close_type == so.deal_close_type
                    && saved.date_created == so.date_created
                &&& o.reply.messages.len() == 0
            }
        }),
{
}

// ------------------------------------------------------ what a withdrawal refunds

/// Withdrawing a bid succeeds exactly when the bidder has one on the sell
/// offer, whatever its history; it removes that bid and refunds exactly
/// the bid's stored price to the bidder, and nothing else.
pub proof fn law_withdrawal_refunds_the_stored_price(
    found: Option<BuyOffer>,
    sender: String,
    sell_offer_id: String,
)
    ensures
        ({
            let r = cancel_buy_offer_outcome(found, sender, sell_offer_id);
            &&& (r is Ok <==> found is Some)
            &&& r matches Ok(o) ==> {
                &&& o.writes == seq![WriteModel::RemoveBuyOffer { sell_offer_id, owner: sender }]
                &&& o.reply.messages == seq![
                    Message::BankSend { to_address: sender, amount: found->0.price },
                ]
                &&& total_paid(o.reply.messages) == found->0.price.amount
            }
        }),
{
    if found is Some {
        let ms = seq![Message::BankSend { to_address: sender, amount: found->0.price }];
        assert(ms.drop_last() =~= Seq::<Message>::empty());
        assert(total_paid(Seq::<Message>::empty()) == 0);
        assert(total_paid(ms) == found->0.price.amount);
        let o = cancel_buy_offer_outcome(found, sender, sell_offer_id)->Ok_0;
        assert(o.reply.messages =~= ms);
        assert(o.writes =~= seq![WriteModel::RemoveBuyOffer { sell_offer_id, owner: sender }]);
    }
}

/// Changing a bid and then withdrawing it refunds the changed price: the
/// bid saved by the change, when withdrawn, gives back the new price, and
/// what the change moved plus what the withdrawal refunds balance the
/// escrow against the first price.
pub proof fn law_withdrawal_after_rebid_refunds_new_price(
    found: BuyOffer,
    sender: String,
    buy_offer: BuyOffer,
    sell_offer_id: String,
    now: u64,
    contract_address: String,
    saved: BuyOffer,
)
    requires
        update_buy_offer_outcome(Some(found), sender, buy_offer, sell_offer_id, now, contract_address)->Ok_0.writes[0]
            matches WriteModel::SaveBuyOffer { offer, .. } && offer == saved,
    ensures
        cancel_buy_offer_outcome(Some(saved), sender, sell_offer_id)->Ok_0.reply.messages == seq![
            Message::BankSend { to_address: sender, amount: buy_offer.price },
        ],
        saved.date_created == found.date_created,
        saved.date_updated == Some(now),
{
}


// ------------------------------------------------- when each request succeeds

/// Accepting a bid is refused when the bidder has no bid on the sell
/// offer, when the bid was accepted already, when there is no sell offer
/// with the id, or (by the store) when the closed offer cannot be saved
/// under the key it is stored under; otherwise it succeeds, saves the bid
/// accepted and updated now, saves the sell offer closed by an accepted
/// bid and updated now (all else as it was), and takes its collection out
/// of the index.
pub proof fn law_acceptance_succeeds_when_owed(
    bid: Option<BuyOffer>,
    sell_offer: Option<SellOffer>,
    buy_offer_by: String,
    sell_offer_id: String,
    now: u64,
    token_key: String,
)
    ensures
        ({
            let r = accept_buy_offer_outcome(bid, sell_offer, buy_offer_by, sell_offer_id, now, token_key);
            &&& (bid is None ==> (r matches Err(ErrorModel::BuyOfferNotFound { .. })))
            &&& ((bid matches Some(bo) && bo.accepted) ==> (r matches Err(
                ErrorModel::BuyOfferAlreadyAccepted { .. },
            )))
            &&& ((bid matches Some(bo) && !bo.accepted && sell_offer is None) ==> (r matches Err(
                ErrorModel::SellOfferNotFound { .. },
            )))
            &&& ((bid is Some && !bid->0.accepted && sell_offer is Some && sell_offer->0.token_id@
                != token_key@) ==> (r matches Err(ErrorModel::Std { .. })))
            &&& (r is Ok <==> (bid is Some && !bid->0.accepted && sell_offer is Some
                && sell_offer->0.token_id@ == token_key@))
            &&& (r is Ok ==> {
                let o = r->Ok_0;
                let bo = bid->0;
                let so = sell_offer->0;
                &&& o.writes.len() == 3
                &&& (o.writes[0] matches WriteModel::SaveBuyOffer { sell_offer_id: id, owner, offer }
                    && id == sell_offer_id && owner == buy_offer_by && offer.accepted
                    && offer.date_updated == Some(now) && offer.price == bo.price
                    && offer.owner == bo.owner && offer.sell_offer_id == bo.sell_offer_id
                    && offer.date_created == bo.date_created)
                &&& (o.writes[1] matches WriteModel::SaveSellOffer { owner, token_key: key, offer }
                    && owner == so.owner && key@ == token_key@
                    && offer.status == SELL_STATUS_CLOSED
                    && offer.deal_close_type == Some(DEAL_CLOSED_OFFER_ACCEPTED)
                    && offer.date_updated == Some(now)
                    && offer.owner == so.owner && offer.contract_addr == so.contract_addr
                    && offer.token_id == so.token_id && offer.offer_id == so.offer_id
                    && offer.price == so.price && offer.collection_info == so@.collection_info
                    && offer.allowed_direct_buy == so.allowed_direct_buy
                    && offer.date_created == so.date_created)
                &&& o.writes[2] == (WriteModel::UnindexCollection { collection_info: so@.collection_info })
            })
        }),
{
}

/// Whether the first coin sent covers a price: a price above zero, in the
/// coin's denomination, no more than the coin.
pub open spec fn covers(funds: Seq<Coin>, price: Coin) -> bool {
    price.amount > 0 && funds.len() > 0 && funds[0].denom@ == price.denom@ && funds[0].amount
        >= price.amount
}

/// Buying a token directly is refused when there is no sell offer with
/// the id, when the funds sent do not cover its price, or (by the store)
/// when the closed offer cannot be saved under the key it is stored
/// under; otherwise it succeeds, saves the sell offer closed at a direct
/// buy and updated now (all else as it was), and takes its collection out
/// of the index.
pub proof fn law_direct_purchase_succeeds_when_owed(
    sell_offer: Option<SellOffer>,
    funds: Seq<Coin>,
    sender: String,
    sell_offer_id: String,
    now: u64,
    token_key: String,
)
    ensures
        ({
            let r = direct_buy_outcome(sell_offer, funds, sender, sell_offer_id, now, token_key);
            &&& (sell_offer is None ==> (r matches Err(ErrorModel::SellOfferNotFound { .. })))
            &&& ((sell_offer matches Some(so) && !covers(funds, so.price)) ==> ((r matches Err(
                ErrorModel::InsufficientFund { .. },
            )) || (r matches Err(ErrorModel::InvalidRequiredFund { .. }))))
            &&& (r is Ok <==> (sell_offer matches Some(so) && covers(funds, so.price) && so.token_id@
                == token_key@))
            &&& (r is Ok ==> {
                let o = r->Ok_0;
                let so = sell_offer->0;
                &&& o.writes.len() == 2
                &&& (o.writes[0] matches WriteModel::SaveSellOffer { owner, token_key: key, offer }
                    && owner == so.owner && key@ == token_key@
                    && offer.status == SELL_STATUS_CLOSED
                    && offer.deal_close_type == Some(DEAL_CLOSED_AT_DIRECT_BUY)
                    && offer.date_updated == Some(now)
                    && offer.owner == so.owner && offer.contract_addr == so.contract_addr
                    && offer.token_id == so.token_id && offer.offer_id == so.offer_id
                    && offer.price == so.price && offer.collection_info == so@.collection_info
                    && offer.allowed_direct_buy == so.allowed_direct_buy
                    && offer.date_created == so.date_created)
                &&& o.writes[1] == (WriteModel::UnindexCollection { collection_info: so@.collection_info })
            })
        }),
{
    if sell_offer is Some {
        law_fund_check_passes(funds, sell_offer->0.price);
    }
}

/// Placing a bid is refused when there is no sell offer with the id, when
/// the bidder already has a readable bid on it, or when the funds sent do
/// not cover the bid's price; otherwise it saves the bid under the sell
/// offer id and the bidder, with the bid's price, not accepted, created
/// now, moves exactly the price into the escrow and charges the bidding
/// fee.
pub proof fn law_bid_placed_when_owed(
    sell_offer: Option<SellOffer>,
    existing_bid: Result<Option<BuyOffer>, StorageError>,
    funds: Seq<Coin>,
    owner: String,
    buy_offer: BuyOffer,
    sell_offer_id: String,
    now: u64,
    contract_address: String,
)
    ensures
        ({
            let r = create_buy_offer_outcome(
                sell_offer,
                existing_bid,
                funds,
                owner,
                buy_offer,
                sell_offer_id,
                now,
                contract_address,
            );
            &&& (sell_offer is None ==> (r matches Err(ErrorModel::SellOfferNotFound { .. })))
            &&& ((sell_offer is Some && (existing_bid matches Ok(Some(_)))) ==> (r matches Err(
                ErrorModel::BuyOfferAlreadyExists { .. },
            )))
            &&& (r is Ok <==> (sell_offer is Some && !(existing_bid matches Ok(Some(_))) && covers(
                funds,
                buy_offer.price,
            )))
            &&& (r is Ok ==> {
                let o = r->Ok_0;
                &&& o.writes.len() == 1
                &&& (o.writes[0] matches WriteModel::SaveBuyOffer { sell_offer_id: id, owner: who, offer }
                    && id == sell_offer_id && who == owner && offer.owner == owner
                    && offer.sell_offer_id == sell_offer_id && offer.price == buy_offer.price
                    && !offer.accepted && offer.date_created == Some(now)
                    && offer.date_updated == Some(now))
                &&& o.reply.messages == seq![
                    Message::BankSend { to_address: contract_address, amount: buy_offer.price },
                    Message::TreasuryFee { fee: FeeKind::CreateBuyOffer },
                ]
            })
        }),
{
    law_fund_check_passes(funds, buy_offer.price);
}

/// Changing a bid succeeds exactly when the bidder has a bid on the sell
/// offer; the bid keeps all but its price, which becomes the new one, and
/// its update time; and the escrow is topped up by a raise or the bidder
/// refunded a cut, by exactly the difference.
pub proof fn law_rebid_succeeds_when_owed(
    found: Option<BuyOffer>,
    sender: String,
    buy_offer: BuyOffer,
    sell_offer_id: String,
    now: u64,
    contract_address: String,
)
    ensures
        ({
            let r = update_buy_offer_outcome(found, sender, buy_offer, sell_offer_id, now, contract_address);
            &&& (r is Ok <==> found is Some)
            &&& (r is Ok ==> {
                let o = r->Ok_0;
                let bo = found->0;
                &&& o.writes.len() == 1
                &&& (o.writes[0] matches WriteModel::SaveBuyOffer { sell_offer_id: id, owner, offer }
                    && id == sell_offer_id && owner == sender && offer.price == buy_offer.price
                    && offer.date_updated == Some(now) && offer.owner == bo.owner
                    && offer.sell_offer_id == bo.sell_offer_id && offer.accepted == bo.accepted
                    && offer.date_created == bo.date_created)
                &&& o.reply.messages.len() == 1
                &&& (o.reply.messages[0] matches Message::BankSend { to_address, amount }
                    && amount.denom == buy_offer.price.denom
                    && (if buy_offer.price.amount >= bo.price.amount {
                    to_address == contract_address && bo.price.amount + amount.amount
                        == buy_offer.price.amount
                } else {
                    to_address == sender && buy_offer.price.amount + amount.amount == bo.price.amount
                }))
            })
        }),
{
}

/// Cancelling a sell offer succeeds exactly when the seller has an open
/// offer of the token: a closed one is refused as closed, a missing one as
/// not found. It then removes the offer from under the seller and the
/// token key, takes its collection out of the index and sends the token
/// back to the seller.
pub proof fn law_cancel_succeeds_when_owed(
    existing: Option<SellOffer>,
    token_id: String,
    buy_offers: Seq<BuyOffer>,
    token_key: String,
)
    ensures
        ({
            let r = cancel_sell_offer_outcome(existing, token_id, buy_offers, token_key);
            &&& (existing is None ==> (r matches Err(ErrorModel::SellOfferNotFound { .. })))
            &&& ((existing matches Some(so) && so.status == SELL_STATUS_CLOSED) ==> (r matches Err(
                ErrorModel::SellOfferIsAlreadyClosed { .. },
            )))
            &&& (r is Ok <==> (existing matches Some(so) && so.status != SELL_STATUS_CLOSED))
            &&& (r is Ok ==> {
                let o = r->Ok_0;
                let so = existing->0;
                &&& o.writes.len() == buy_offers.len() + 2
                &&& o.writes[buy_offers.len() as int] == (WriteModel::RemoveSellOffer {
                    owner: so.owner,
                    token_key,
                })
                &&& o.writes[buy_offers.len() + 1int] == (WriteModel::UnindexCollection {
                    collection_info: so@.collection_info,
                })
                &&& o.reply.messages.last() == (Message::NftFromContract {
                    token_id: so.token_id,
                    recipient: so.owner,
                    contract_addr: so.contract_addr,
                })
            })
        }),
{
    if existing is Some {
        if existing->0.status != SELL_STATUS_CLOSED {
            law_cancel_refunds_every_bid(existing, token_id, buy_offers, token_key);
        }
    }
}

// ---------------------------------------------------------------- paging

/// The status filter keeps exactly the offers of the status asked for, in
/// their order, and every offer when no status is asked for: an offer
/// added at the end is kept at the end exactly when it has that status.
pub proof fn law_status_filter_keeps_matching(offers: Seq<SellOffer>, o: SellOffer, status: Option<u8>)
    ensures
        status is None ==> with_status(offers, status) == offers,
        with_status(Seq::<SellOffer>::empty(), status) == Seq::<SellOffer>::empty(),
        with_status(offers.push(o), status) == (if status is None || o.status == status->0 {
            with_status(offers, status).push(o)
        } else {
            with_status(offers, status)
        }),
{
    let pred = |x: SellOffer| status_matches(x, status);
    offers.lemma_filter_push(o, pred);
    assert(Seq::<SellOffer>::empty().filter(pred) =~= Seq::<SellOffer>::empty()) by {
        reveal_with_fuel(Seq::filter, 1);
    }
    if status is None {
        lemma_filter_all(offers, pred);
    }
}

/// A page holds the matching offers from the start asked for (the first
/// when none is asked for), as many as the limit asked for (10 when none
/// is asked for, never more than 20), or as many as are left.
pub proof fn law_page_takes_limit_from_start(
    offers: Seq<SellOffer>,
    start: Option<u32>,
    limit: Option<u32>,
)
    ensures
        ({
            let from: int = match start {
                Some(k) => k as int,
                None => 0,
            };
            let most: int = match limit {
                Some(l) => if l <= 20 {
                    l as int
                } else {
                    20
                },
                None => 10,
            };
            let page = page_of(offers, start, limit);
            &&& from >= offers.len() ==> page.len() == 0
            &&& from < offers.len() ==> page.len() == (if from + most <= offers.len() {
                most
            } else {
                offers.len() - from
            })
            &&& forall|i: int| 0 <= i < page.len() ==> #[trigger] page[i] == offers[from + i]
        }),
{
}

/// Consecutive pages follow one another: the page of `l1` offers from
/// `k` and then the page of `l2` offers from `k + l1` together are the
/// page of `l1 + l2` offers from `k`, for limits within the maximum.
pub proof fn law_consecutive_pages_concatenate(offers: Seq<SellOffer>, k: u32, l1: u32, l2: u32)
    requires
        l1 + l2 <= MAX_LIMIT,
        k + l1 <= u32::MAX,
    ensures
        page_of(offers, Some(k), Some(l1)) + page_of(offers, Some((k + l1) as u32), Some(l2))
            == page_of(offers, Some(k), Some((l1 + l2) as u32)),
{
    assert(page_of(offers, Some(k), Some(l1)) + page_of(offers, Some((k + l1) as u32), Some(l2))
        =~= page_of(offers, Some(k), Some((l1 + l2) as u32)));
}

} // verus!
