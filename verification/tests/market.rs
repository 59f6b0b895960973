use pix0_market_contract::checks::{
    check_buy_offer_exists, check_is_fund_sufficient, check_sell_offer_cancellable,
    check_sell_offer_exists, collection_exists, sell_offer_exists, sell_offer_exists_by,
    sell_offer_exists_by_offer_id,
};
use pix0_market_contract::error::{CommonError, ContractError};
use pix0_market_contract::ins::{
    accept_buy_offer, cancel_buy_offer, cancel_sell_offer, create_buy_offer, create_sell_offer,
    direct_buy, get_buy_offer_checked, internal_create_buy_offer, refund_buy_offers,
    transfer_to_escrow, update_buy_offer, update_sell_offer,
};
use pix0_market_contract::msg::{BuyOffersWithParamsResponse, SellOffersWithParamsResponse};
use pix0_market_contract::payout::pay_so_owner_and_royalties;
use pix0_market_contract::query::{
    filter_sell_offer_result, filter_sell_offer_result_all, get_sell_offer_by_id,
    get_sell_offers_of, internal_get_buy_offer, internal_get_sell_offer,
    internal_get_sell_offer_by_id,
};
use pix0_market_contract::response::{
    Action, Attribute, FeeKind, Message, Outcome, Reply, StoreWrite,
};
use pix0_market_contract::state::{
    BuyOffer, Coin, Royalty, SellOffer, SimpleCollectionInfo, StorageError,
    DEAL_CLOSED_AT_DIRECT_BUY, DEAL_CLOSED_OFFER_ACCEPTED, SELL_STATUS_CLOSED, SELL_STATUS_NEW,
};

const DENOM: &str = "uconst";
const SELLER: &str = "archway14l92fdhae4htjtkyla73f262c39cngf2wc65ky";
const ESCROW: &str = "cosmos2contract";

fn s(x: &str) -> String {
    x.to_string()
}

fn coin(amount: u128) -> Coin {
    Coin { amount, denom: s(DENOM) }
}

fn collection(royalties: Option<Vec<Royalty>>) -> SimpleCollectionInfo {
    SimpleCollectionInfo {
        owner: s("Alice"),
        collection_name: s("XYZ-1 Collection"),
        collection_symbol: s("XYZ1"),
        category: Some(s("Category_1")),
        royalties,
    }
}

fn royalty(wallet: &str, percentage: u16) -> Royalty {
    Royalty { name: None, wallet: s(wallet), percentage }
}

fn offer(token_id: &str, offer_id: Option<&str>, price: u128, info: Option<SimpleCollectionInfo>) -> SellOffer {
    SellOffer {
        owner: s(SELLER),
        contract_addr: s("cosmos3contract"),
        token_id: s(token_id),
        offer_id: offer_id.map(s),
        price: coin(price),
        collection_info: info,
        allowed_direct_buy: true,
        status: 0,
        deal_close_type: None,
        date_created: None,
        date_updated: None,
    }
}

fn stored(token_id: &str, offer_id: &str, price: u128, info: Option<SimpleCollectionInfo>) -> SellOffer {
    let mut o = offer(token_id, Some(offer_id), price, info);
    o.status = SELL_STATUS_NEW;
    o.date_created = Some(5);
    o.date_updated = Some(5);
    o
}

fn bid(owner: &str, sell_offer_id: &str, price: u128) -> BuyOffer {
    BuyOffer {
        owner: s(owner),
        sell_offer_id: s(sell_offer_id),
        price: coin(price),
        accepted: false,
        date_created: Some(7),
        date_updated: Some(7),
    }
}

fn message_of(e: &ContractError) -> String {
    match e {
        ContractError::SellOfferAlreadyExists { message }
        | ContractError::BuyOfferAlreadyExists { message }
        | ContractError::BuyOfferNotFound { message }
        | ContractError::SellOfferNotFound { message }
        | ContractError::SellOfferIsAlreadyClosed { message }
        | ContractError::InsufficientFund { message }
        | ContractError::InvalidRequiredFund { message }
        | ContractError::BuyOfferAlreadyAccepted { message }
        | ContractError::CustomErrorMesg { message }
        | ContractError::ContractInfoNotFound { message }
        | ContractError::ErrorPayingContractTreasuries { message }
        | ContractError::FailedToRemove { message }
        | ContractError::Std { message } => message.clone(),
        ContractError::Unauthorized {} => s("Unauthorized"),
    }
}

// ------------------------------------------------------------------ listing

#[test]
fn listing_saves_a_new_offer_and_takes_the_token() {
    let o = offer("Tk_001", None, 3500, Some(collection(None)));
    let out = create_sell_offer(None, s(SELLER), o.clone(), 42, Some(s("OF4B8EF5D1B36F1C84")), s("KEY1"), None, None)
        .unwrap();
    let mut expected = o.clone();
    expected.offer_id = Some(s("OF4B8EF5D1B36F1C84"));
    expected.status = SELL_STATUS_NEW;
    expected.date_created = Some(42);
    expected.date_updated = Some(42);
    assert_eq!(
        out.writes,
        vec![
            StoreWrite::SaveSellOffer { owner: s(SELLER), token_key: s("KEY1"), offer: expected },
            StoreWrite::IndexCollection { collection_info: Some(collection(None)) },
        ]
    );
    assert_eq!(
        out.reply.messages,
        vec![
            Message::TreasuryFee { fee: FeeKind::CreateSellOffer },
            Message::NftToContract { token_id: s("Tk_001"), contract_addr: s("cosmos3contract") },
        ]
    );
    assert_eq!(out.reply.attributes, vec![Attribute::Action { action: Action::CreateSellOffer }]);
}

#[test]
fn listing_keeps_its_own_offer_id_and_the_sender_as_owner() {
    let mut o = offer("Tk_002", Some("Offer_002"), 7000, None);
    o.owner = s("someone else");
    let out = create_sell_offer(None, s(SELLER), o, 1, Some(s("derived")), s("KEY2"), None, None).unwrap();
    match &out.writes[0] {
        StoreWrite::SaveSellOffer { owner, offer, .. } => {
            assert_eq!(owner, SELLER);
            assert_eq!(offer.owner, SELLER);
            assert_eq!(offer.offer_id, Some(s("Offer_002")));
        }
        w => panic!("unexpected write {:?}", w),
    }
}

#[test]
fn listing_an_offered_token_again_is_refused() {
    let existing = stored("Tk_005", "Offer_005", 3500, None);
    let r = create_sell_offer(Some(existing), s(SELLER), offer("Tk_005", None, 1, None), 1, None, s("K"), None, None);
    let e = r.unwrap_err();
    assert!(matches!(e, ContractError::SellOfferAlreadyExists { .. }));
    assert_eq!(message_of(&e), "SellOffer for Tk_005 already exists!");
}

#[test]
fn listing_under_an_offer_id_already_held_is_refused() {
    let holder = stored("Tk_007", "Offer_007", 100, None);
    let e = create_sell_offer(None, s(SELLER), offer("Tk_008", Some("Offer_007"), 1, None), 1, None, s("K8"), Some(holder), None)
        .unwrap_err();
    assert_eq!(e, ContractError::Std { message: s("Violates unique constraint on index") });
}

#[test]
fn listing_reports_a_failed_fee_before_the_store_refusal() {
    let holder = stored("Tk_007", "Offer_007", 100, None);
    let fee = ContractError::ErrorPayingContractTreasuries { message: s("no treasury") };
    let e = create_sell_offer(None, s(SELLER), offer("Tk_008", Some("Offer_007"), 1, None), 1, None, s("K8"), Some(holder), Some(fee.clone()))
        .unwrap_err();
    assert_eq!(e, fee);
}

#[test]
fn listing_reports_an_existing_offer_before_a_failed_fee() {
    let existing = stored("Tk_005", "Offer_005", 3500, None);
    let fee = ContractError::ErrorPayingContractTreasuries { message: s("no treasury") };
    let e = create_sell_offer(Some(existing), s(SELLER), offer("Tk_005", None, 1, None), 1, None, s("K"), None, Some(fee))
        .unwrap_err();
    assert!(matches!(e, ContractError::SellOfferAlreadyExists { .. }));
}

#[test]
fn updating_changes_price_permission_and_collection() {
    let existing = stored("Tk_003", "Offer_003", 3500, Some(collection(None)));
    let mut change = offer("Tk_003", None, 9000, None);
    change.allowed_direct_buy = false;
    let out = update_sell_offer(Some(existing.clone()), s(SELLER), change, 77, s("K3")).unwrap();
    let mut expected = existing.clone();
    expected.price = coin(9000);
    expected.allowed_direct_buy = false;
    expected.date_updated = Some(77);
    assert_eq!(
        out.writes,
        vec![StoreWrite::SaveSellOffer { owner: s(SELLER), token_key: s("K3"), offer: expected }]
    );
    assert_eq!(out.reply, Reply { messages: vec![], attributes: vec![Attribute::Action { action: Action::UpdateSellOffer }] });

    let mut change = offer("Tk_003", None, 9000, Some(collection(Some(vec![royalty("Sarah", 5)]))));
    change.allowed_direct_buy = true;
    let out = update_sell_offer(Some(existing), s(SELLER), change, 78, s("K3")).unwrap();
    match &out.writes[0] {
        StoreWrite::SaveSellOffer { offer, .. } => {
            assert_eq!(offer.collection_info, Some(collection(Some(vec![royalty("Sarah", 5)]))))
        }
        w => panic!("unexpected write {:?}", w),
    }
}

#[test]
fn updating_a_missing_offer_is_refused() {
    let e = update_sell_offer(None, s(SELLER), offer("Tk_009", None, 1, None), 1, s("K")).unwrap_err();
    assert!(matches!(e, ContractError::SellOfferNotFound { .. }));
    assert_eq!(message_of(&e), "SellOffer for Tk_009 not found!");
}

#[test]
fn cancelling_refunds_every_bid_and_returns_the_token() {
    let so = stored("Tk_002", "Offer_002", 3500, Some(collection(None)));
    let bids = vec![bid("Bob", "Offer_002", 1200), bid("Alice", "Offer_002", 2400), bid("Janice", "Offer_002", 3600)];
    let out = cancel_sell_offer(Some(so.clone()), s("Tk_002"), &bids, s("K2")).unwrap();
    assert_eq!(
        out.writes,
        vec![
            StoreWrite::RemoveBuyOffer { sell_offer_id: s("Offer_002"), owner: s("Bob") },
            StoreWrite::RemoveBuyOffer { sell_offer_id: s("Offer_002"), owner: s("Alice") },
            StoreWrite::RemoveBuyOffer { sell_offer_id: s("Offer_002"), owner: s("Janice") },
            StoreWrite::RemoveSellOffer { owner: s(SELLER), token_key: s("K2") },
            StoreWrite::UnindexCollection { collection_info: Some(collection(None)) },
        ]
    );
    assert_eq!(
        out.reply.messages,
        vec![
            Message::BankSend { to_address: s("Bob"), amount: coin(1200) },
            Message::BankSend { to_address: s("Alice"), amount: coin(2400) },
            Message::BankSend { to_address: s("Janice"), amount: coin(3600) },
            Message::NftFromContract {
                token_id: s("Tk_002"),
                recipient: s(SELLER),
                contract_addr: s("cosmos3contract"),
            },
        ]
    );
    assert_eq!(
        out.reply.attributes,
        vec![
            Attribute::To { address: s("Bob") },
            Attribute::To { address: s("Alice") },
            Attribute::To { address: s("Janice") },
            Attribute::Action { action: Action::CancelSellOffer },
        ]
    );
}

#[test]
fn cancelling_a_closed_or_missing_offer_is_refused() {
    let mut so = stored("Tk_004", "Offer_004", 3500, None);
    so.status = SELL_STATUS_CLOSED;
    let e = cancel_sell_offer(Some(so), s("Tk_004"), &vec![], s("K")).unwrap_err();
    assert!(matches!(e, ContractError::SellOfferIsAlreadyClosed { .. }));
    assert_eq!(message_of(&e), "SellOffer for Tk_004 is already closed!");
    let e = cancel_sell_offer(None, s("Tk_004"), &vec![], s("K")).unwrap_err();
    assert!(matches!(e, ContractError::SellOfferNotFound { .. }));
    assert_eq!(message_of(&e), "SellOffer for Tk_004 not found!");
}

#[test]
fn escrow_transfer_sends_the_coin_to_the_contract() {
    let reply = transfer_to_escrow(s(ESCROW), coin(1280)).unwrap();
    assert_eq!(
        reply,
        Reply {
            messages: vec![Message::BankSend { to_address: s(ESCROW), amount: coin(1280) }],
            attributes: vec![
                Attribute::Action { action: Action::TransferToEscrow },
                Attribute::To { address: s(ESCROW) },
            ],
        }
    );
}

// ---------------------------------------------------------------- bidding

fn place(existing_bid: Result<Option<BuyOffer>, StorageError>, funds: Vec<Coin>, price: u128) -> Result<Outcome, ContractError> {
    let so = stored("Tk_002", "Offer_002", 3500, None);
    let mut b = bid("ignored", "ignored", price);
    b.accepted = true;
    create_buy_offer(Some(so), existing_bid, &funds, s("Bob"), b, s("Offer_002"), 99, s(ESCROW))
}

#[test]
fn bidding_saves_the_bid_and_escrows_its_price() {
    let out = place(Ok(None), vec![coin(134000)], 1200).unwrap();
    let mut expected = bid("Bob", "Offer_002", 1200);
    expected.date_created = Some(99);
    expected.date_updated = Some(99);
    assert_eq!(
        out.writes,
        vec![StoreWrite::SaveBuyOffer { sell_offer_id: s("Offer_002"), owner: s("Bob"), offer: expected }]
    );
    assert_eq!(
        out.reply.messages,
        vec![
            Message::BankSend { to_address: s(ESCROW), amount: coin(1200) },
            Message::TreasuryFee { fee: FeeKind::CreateBuyOffer },
        ]
    );
    assert_eq!(
        out.reply.attributes,
        vec![Attribute::Action { action: Action::CreateBuyOffer }, Attribute::To { address: s(ESCROW) }]
    );
}

#[test]
fn an_unreadable_earlier_bid_does_not_block_a_new_one() {
    assert!(place(Err(StorageError {}), vec![coin(134000)], 1200).is_ok());
}

#[test]
fn bidding_errors() {
    let e = place(Ok(Some(bid("Bob", "Offer_002", 5))), vec![coin(134000)], 1200).unwrap_err();
    assert!(matches!(e, ContractError::BuyOfferAlreadyExists { .. }));
    assert_eq!(message_of(&e), "Buy Offer for Addr(\"Bob\") already exists!");

    let e = place(Ok(None), vec![coin(134000)], 0).unwrap_err();
    assert!(matches!(e, ContractError::InvalidRequiredFund { .. }));
    assert_eq!(message_of(&e), "Required fund cannot be zero!");

    let e = place(Ok(None), vec![], 1200).unwrap_err();
    assert!(matches!(e, ContractError::InsufficientFund { .. }));
    assert_eq!(message_of(&e), "Sent fund 0uconst is less than required 1200uconst!");

    let e = place(Ok(None), vec![coin(100)], 1200).unwrap_err();
    assert_eq!(message_of(&e), "Sent fund 100uconst is less than required 1200uconst!");

    let e = place(Ok(None), vec![Coin { amount: 5000, denom: s("uatom") }], 1200).unwrap_err();
    assert_eq!(message_of(&e), "Sent fund 5000uatom is less than required 1200uconst!");

    let e = internal_create_buy_offer(None, Ok(None), &vec![coin(1)], s("Bob"), bid("Bob", "x", 1), s("Offer_009"), 1, s(ESCROW))
        .unwrap_err();
    assert!(matches!(e, ContractError::SellOfferNotFound { .. }));
    assert_eq!(message_of(&e), "SellOffer Offer_009 not found!");
}

#[test]
fn raising_a_bid_tops_up_the_escrow() {
    let old = bid("Bob", "Offer_002", 1200);
    let out = update_buy_offer(Some(old.clone()), s("Bob"), bid("Bob", "Offer_002", 2000), s("Offer_002"), 50, s(ESCROW)).unwrap();
    let mut saved = old.clone();
    saved.price = coin(2000);
    saved.date_updated = Some(50);
    assert_eq!(out.writes, vec![StoreWrite::SaveBuyOffer { sell_offer_id: s("Offer_002"), owner: s("Bob"), offer: saved }]);
    assert_eq!(
        out.reply,
        Reply {
            messages: vec![Message::BankSend { to_address: s(ESCROW), amount: coin(800) }],
            attributes: vec![Attribute::Action { action: Action::UpdateBuyOffer }, Attribute::To { address: s(ESCROW) }],
        }
    );
}

#[test]
fn cutting_a_bid_refunds_the_bidder() {
    let old = bid("Bob", "Offer_002", 1200);
    let out = update_buy_offer(Some(old), s("Bob"), bid("Bob", "Offer_002", 500), s("Offer_002"), 50, s(ESCROW)).unwrap();
    assert_eq!(out.reply.messages, vec![Message::BankSend { to_address: s("Bob"), amount: coin(700) }]);
    let same = update_buy_offer(Some(bid("Bob", "Offer_002", 500)), s("Bob"), bid("Bob", "Offer_002", 500), s("Offer_002"), 50, s(ESCROW)).unwrap();
    assert_eq!(same.reply.messages, vec![Message::BankSend { to_address: s(ESCROW), amount: coin(0) }]);
    let e = update_buy_offer(None, s("Bob"), bid("Bob", "Offer_002", 500), s("Offer_002"), 50, s(ESCROW)).unwrap_err();
    assert_eq!(message_of(&e), "Buy Offer Offer_002 not found!");
}

#[test]
fn withdrawing_a_bid_refunds_it() {
    let out = cancel_buy_offer(Some(bid("Bob", "Offer_002", 1200)), s("Bob"), s("Offer_002"), s(ESCROW)).unwrap();
    assert_eq!(out.writes, vec![StoreWrite::RemoveBuyOffer { sell_offer_id: s("Offer_002"), owner: s("Bob") }]);
    assert_eq!(
        out.reply,
        Reply {
            messages: vec![Message::BankSend { to_address: s("Bob"), amount: coin(1200) }],
            attributes: vec![Attribute::Action { action: Action::CancelBuyOffer }, Attribute::To { address: s("Bob") }],
        }
    );
    let e = cancel_buy_offer(None, s("Bob"), s("Offer_002"), s(ESCROW)).unwrap_err();
    assert!(matches!(e, ContractError::BuyOfferNotFound { .. }));
}

#[test]
fn refunds_skip_the_excepted_bidder() {
    let bids = vec![bid("Bob", "O", 1), bid("Alice", "O", 2), bid("Bob", "O", 3)];
    let (ms, attrs) = refund_buy_offers(&bids, &Some(bid("Bob", "O", 9)));
    assert_eq!(ms, vec![Message::BankSend { to_address: s("Alice"), amount: coin(2) }]);
    assert_eq!(attrs, vec![Attribute::To { address: s("Alice") }]);
}

// ---------------------------------------------------------------- selling

#[test]
fn accepting_a_bid_closes_the_deal() {
    let so = stored("Tok_009x", "Oid_009x", 3500, Some(collection(None)));
    let b = bid("Alice", "Oid_009x", 2400);
    let out = accept_buy_offer(Some(b.clone()), Some(so.clone()), s(SELLER), s("Alice"), s("Oid_009x"), 60, s("Tok_009x")).unwrap();
    let mut saved_bid = b.clone();
    saved_bid.accepted = true;
    saved_bid.date_updated = Some(60);
    let mut closed = so.clone();
    closed.status = SELL_STATUS_CLOSED;
    closed.deal_close_type = Some(DEAL_CLOSED_OFFER_ACCEPTED);
    closed.date_updated = Some(60);
    assert_eq!(
        out.writes,
        vec![
            StoreWrite::SaveBuyOffer { sell_offer_id: s("Oid_009x"), owner: s("Alice"), offer: saved_bid },
            StoreWrite::SaveSellOffer { owner: s(SELLER), token_key: s("Tok_009x"), offer: closed },
            StoreWrite::UnindexCollection { collection_info: Some(collection(None)) },
        ]
    );
    assert_eq!(
        out.reply.messages,
        vec![
            Message::BankSend { to_address: s(SELLER), amount: coin(2400) },
            Message::NftFromContract {
                token_id: s("Tok_009x"),
                recipient: s("Alice"),
                contract_addr: s("cosmos3contract"),
            },
        ]
    );
    assert_eq!(
        out.reply.attributes,
        vec![Attribute::Action { action: Action::AcceptBuyOffer }, Attribute::To { address: s(SELLER) }]
    );
}

#[test]
fn accepting_errors() {
    let so = stored("Tok_009x", "Oid_009x", 3500, None);
    let mut b = bid("Alice", "Oid_009x", 2400);
    b.accepted = true;
    let e = accept_buy_offer(Some(b), Some(so.clone()), s(SELLER), s("Alice"), s("Oid_009x"), 60, s("Tok_009x")).unwrap_err();
    assert!(matches!(e, ContractError::BuyOfferAlreadyAccepted { .. }));
    assert_eq!(message_of(&e), "Buy offer Addr(\"Alice\") already accepted!");
    let e = accept_buy_offer(None, Some(so), s(SELLER), s("Alice"), s("Oid_009x"), 60, s("Tok_009x")).unwrap_err();
    assert_eq!(message_of(&e), "Buy Offer Oid_009x not found!");
    let e = accept_buy_offer(Some(bid("Alice", "Oid_009x", 1)), None, s(SELLER), s("Alice"), s("Oid_009x"), 60, s("Tok_009x")).unwrap_err();
    assert!(matches!(e, ContractError::SellOfferNotFound { .. }));
    assert_eq!(message_of(&e), "Sell Offer Oid_009x not found!");
}

#[test]
fn closing_an_offer_stored_under_another_key_is_refused() {
    let so = stored("Tok_009x", "Oid_009x", 3500, None);
    let e = accept_buy_offer(Some(bid("Alice", "Oid_009x", 2400)), Some(so.clone()), s(SELLER), s("Alice"), s("Oid_009x"), 60, s("HASHKEY"))
        .unwrap_err();
    assert_eq!(e, ContractError::Std { message: s("Violates unique constraint on index") });
    let e = direct_buy(Some(so), &vec![coin(134000)], s("Bob"), s("Oid_009x"), 70, s("HASHKEY")).unwrap_err();
    assert_eq!(e, ContractError::Std { message: s("Violates unique constraint on index") });
}

#[test]
fn buying_directly_closes_the_deal() {
    let so = stored("Tk_001", "Offer_001", 3500, None);
    let out = direct_buy(Some(so.clone()), &vec![coin(134000)], s("Bob"), s("Offer_001"), 70, s("Tk_001")).unwrap();
    let mut closed = so.clone();
    closed.status = SELL_STATUS_CLOSED;
    closed.deal_close_type = Some(DEAL_CLOSED_AT_DIRECT_BUY);
    closed.date_updated = Some(70);
    assert_eq!(
        out.writes,
        vec![
            StoreWrite::SaveSellOffer { owner: s(SELLER), token_key: s("Tk_001"), offer: closed },
            StoreWrite::UnindexCollection { collection_info: None },
        ]
    );
    assert_eq!(
        out.reply.messages,
        vec![
            Message::BankSend { to_address: s(SELLER), amount: coin(3500) },
            Message::NftFromContract { token_id: s("Tk_001"), recipient: s("Bob"), contract_addr: s("cosmos3contract") },
        ]
    );
    let e = direct_buy(Some(so), &vec![coin(10)], s("Bob"), s("Offer_001"), 70, s("Tk_001")).unwrap_err();
    assert_eq!(message_of(&e), "Sent fund 10uconst is less than required 3500uconst!");
    let e = direct_buy(None, &vec![coin(10)], s("Bob"), s("Offer_001"), 70, s("Tk_001")).unwrap_err();
    assert_eq!(message_of(&e), "SellOffer Offer_001 not found!");
}

#[test]
fn payout_without_royalties_pays_the_seller_everything() {
    let so = stored("T", "O", 3500, Some(collection(None)));
    let reply = pay_so_owner_and_royalties(coin(3500), &so);
    assert_eq!(reply.messages, vec![Message::BankSend { to_address: s(SELLER), amount: coin(3500) }]);
    let so = stored("T", "O", 3500, Some(collection(Some(vec![]))));
    let reply = pay_so_owner_and_royalties(coin(3500), &so);
    assert_eq!(reply.messages, vec![Message::BankSend { to_address: s(SELLER), amount: coin(3500) }]);
}

#[test]
fn payout_shares_in_basis_points() {
    // 500 basis points are 5%, 255 are 2.55%; the seller gets the rest.
    let so = stored("T", "O", 10000, Some(collection(Some(vec![royalty("Sarah", 500), royalty("John", 255)]))));
    let reply = pay_so_owner_and_royalties(coin(10000), &so);
    assert_eq!(
        reply.messages,
        vec![
            Message::BankSend { to_address: s(SELLER), amount: coin(9245) },
            Message::BankSend { to_address: s("Sarah"), amount: coin(500) },
            Message::BankSend { to_address: s("John"), amount: coin(255) },
        ]
    );
    assert_eq!(
        reply.attributes,
        vec![
            Attribute::Action { action: Action::AcceptBuyOffer },
            Attribute::To { address: s(SELLER) },
            Attribute::To { address: s("Sarah") },
            Attribute::To { address: s("John") },
        ]
    );
    let so = stored("T", "O", 10000, Some(collection(Some(vec![royalty("Sarah", 50)]))));
    let reply = pay_so_owner_and_royalties(coin(10000), &so);
    assert_eq!(
        reply.messages,
        vec![
            Message::BankSend { to_address: s(SELLER), amount: coin(9950) },
            Message::BankSend { to_address: s("Sarah"), amount: coin(50) },
        ]
    );
}

#[test]
fn payout_rounds_shares_down_and_gives_the_seller_the_remainder() {
    let so = stored("T", "O", 3333, Some(collection(Some(vec![royalty("A", 3333), royalty("B", 3333), royalty("C", 3334)]))));
    let reply = pay_so_owner_and_royalties(coin(3333), &so);
    assert_eq!(
        reply.messages,
        vec![
            Message::BankSend { to_address: s(SELLER), amount: coin(2) },
            Message::BankSend { to_address: s("A"), amount: coin(1110) },
            Message::BankSend { to_address: s("B"), amount: coin(1110) },
            Message::BankSend { to_address: s("C"), amount: coin(1111) },
        ]
    );
    let big = u128::MAX;
    let so = stored("T", "O", big, Some(collection(Some(vec![royalty("A", 10000)]))));
    let reply = pay_so_owner_and_royalties(coin(big), &so);
    assert_eq!(
        reply.messages,
        vec![
            Message::BankSend { to_address: s(SELLER), amount: coin(0) },
            Message::BankSend { to_address: s("A"), amount: coin(big) },
        ]
    );
}

// ---------------------------------------------------------------- lookups

#[test]
fn checks_and_lookups() {
    let so = stored("T", "O", 1, None);
    assert_eq!(check_sell_offer_exists(None, &s("T"), true), Ok(None));
    assert_eq!(check_sell_offer_exists(Some(so.clone()), &s("T"), false), Ok(Some(so.clone())));
    assert_eq!(sell_offer_exists_by(Some(so.clone()), &s("O"), false), Ok(Some(so.clone())));
    assert_eq!(
        message_of(&sell_offer_exists_by(Some(so.clone()), &s("O"), true).unwrap_err()),
        "SellOffer O already exists!"
    );
    assert_eq!(check_sell_offer_cancellable(Some(so.clone()), &s("T")), Ok(so.clone()));
    assert_eq!(check_buy_offer_exists(Ok(Some(bid("Bob", "O", 1))), &s("Bob"), false), Ok(()));
    let e = check_buy_offer_exists(Err(StorageError {}), &s("Bob"), false).unwrap_err();
    assert_eq!(message_of(&e), "Buy Offer for Addr(\"Bob\") NOT found!");
    let e = check_buy_offer_exists(Ok(None), &s("Bob"), false).unwrap_err();
    assert!(matches!(e, ContractError::BuyOfferNotFound { .. }));
    assert_eq!(check_is_fund_sufficient(&vec![coin(5), coin(1)], &coin(5)), Ok(()));
    assert_eq!(sell_offer_exists(Err(StorageError {})), None);
    assert_eq!(sell_offer_exists_by_offer_id(Ok(Some(so.clone()))), Some(so.clone()));
    assert_eq!(collection_exists(Ok(Some(collection(None)))), Some(collection(None)));
    assert_eq!(internal_get_sell_offer(Some(so.clone()), &s("T")), Ok(so.clone()));
    assert_eq!(message_of(&internal_get_sell_offer(None, &s("T")).unwrap_err()), "Sell Offer for T not found!");
    assert_eq!(internal_get_sell_offer_by_id(Some(so.clone()), &s("O")), Ok(so.clone()));
    assert_eq!(internal_get_buy_offer(Some(bid("Bob", "O", 1)), &s("O")), Ok(bid("Bob", "O", 1)));
    assert_eq!(get_buy_offer_checked(Some(bid("Bob", "O", 1)), &s("O")), Ok(bid("Bob", "O", 1)));
    assert_eq!(get_sell_offer_by_id(Some(so.clone()), &s("O")).offer, Some(so));
    assert_eq!(get_sell_offer_by_id(None, &s("O")).offer, None);
}

#[test]
fn service_errors_map_to_market_errors() {
    assert_eq!(
        ContractError::from_common(CommonError::ContractInfoNotFound { message: s("no info") }),
        ContractError::ContractInfoNotFound { message: s("no info") }
    );
    assert_eq!(
        ContractError::from_common(CommonError::ErrorMakingPayment { message: s("poor") }),
        ContractError::ErrorPayingContractTreasuries { message: s("poor") }
    );
    assert_eq!(
        ContractError::from_common(CommonError::Other),
        ContractError::CustomErrorMesg { message: s("Custom error") }
    );
}

// ---------------------------------------------------------------- queries

fn many(n: usize) -> Vec<SellOffer> {
    (0..n)
        .map(|i| {
            let mut o = stored(&format!("Tk_00{}", i), &format!("Offer_00{}", i), 100, None);
            o.status = if i % 2 == 0 { SELL_STATUS_NEW } else { SELL_STATUS_CLOSED };
            o
        })
        .collect()
}

#[test]
fn pages_of_sell_offers() {
    let all = many(25);
    let (page, total) = filter_sell_offer_result(all.clone(), None, None, None);
    assert_eq!(total, 25);
    assert_eq!(page, all[0..10].to_vec());
    let (page, _) = filter_sell_offer_result(all.clone(), None, Some(20), None);
    assert_eq!(page, all[20..25].to_vec());
    let (page, _) = filter_sell_offer_result(all.clone(), None, Some(3), Some(50));
    assert_eq!(page, all[3..23].to_vec());
    let (page, _) = filter_sell_offer_result(all.clone(), None, Some(30), Some(5));
    assert!(page.is_empty());
    let (page, total) = filter_sell_offer_result(all.clone(), Some(SELL_STATUS_CLOSED), Some(2), Some(3));
    assert_eq!(total, 12);
    let closed: Vec<SellOffer> = all.iter().filter(|o| o.status == SELL_STATUS_CLOSED).cloned().collect();
    assert_eq!(page, closed[2..5].to_vec());
    assert_eq!(filter_sell_offer_result_all(all.clone(), Some(SELL_STATUS_NEW)).len(), 13);
    assert_eq!(filter_sell_offer_result_all(all.clone(), None), all);
}

#[test]
fn sell_offers_of_a_seller() {
    let all = many(4);
    let r = get_sell_offers_of(Ok(all.clone()), None, Some(1), Some(2));
    assert_eq!(
        r,
        SellOffersWithParamsResponse { offers: all[1..3].to_vec(), total: Some(4), start: Some(1), limit: Some(2) }
    );
    assert_eq!(get_sell_offers_of(Err(StorageError {}), None, Some(1), Some(2)), SellOffersWithParamsResponse::empty_response());
    let empty = BuyOffersWithParamsResponse::empty_response();
    assert!(empty.offers.is_empty() && empty.total.is_none() && empty.start.is_none() && empty.limit.is_none());
}
