use pix0_market_contract::checks::check_sell_offer_cancellable;
use pix0_market_contract::error::ContractError;
use pix0_market_contract::ins::{
    accept_buy_offer, cancel_buy_offer, cancel_sell_offer, create_buy_offer, create_sell_offer,
    direct_buy, get_buy_offer_checked, update_buy_offer,
};
use pix0_market_contract::payout::pay_so_owner_and_royalties;
use pix0_market_contract::query::filter_sell_offer_result;
use pix0_market_contract::checks::check_is_fund_sufficient;
use pix0_market_contract::response::{Message, StoreWrite};
use std::collections::BTreeMap;
use pix0_market_contract::state::{
    BuyOffer, Coin, Royalty, SellOffer, SimpleCollectionInfo, SELL_STATUS_CLOSED, SELL_STATUS_NEW,
};

const DENOM: &str = "uconst";
const ESCROW: &str = "cosmos2contract";

fn s(x: &str) -> String {
    x.to_string()
}

fn coin(amount: u128) -> Coin {
    Coin { amount, denom: s(DENOM) }
}

fn info(royalties: Vec<(&str, u16)>) -> Option<SimpleCollectionInfo> {
    Some(SimpleCollectionInfo {
        owner: s("Alice"),
        collection_name: s("C"),
        collection_symbol: s("C"),
        category: None,
        royalties: Some(royalties.into_iter().map(|(w, p)| Royalty { name: None, wallet: s(w), percentage: p }).collect()),
    })
}

fn listing(token_id: &str, offer_id: &str, price: u128) -> SellOffer {
    SellOffer {
        owner: s("Seller"),
        contract_addr: s("nft"),
        token_id: s(token_id),
        offer_id: Some(s(offer_id)),
        price: coin(price),
        collection_info: None,
        allowed_direct_buy: true,
        status: 0,
        deal_close_type: None,
        date_created: None,
        date_updated: None,
    }
}

fn saved_offer(writes: &[StoreWrite]) -> SellOffer {
    writes
        .iter()
        .find_map(|w| match w {
            StoreWrite::SaveSellOffer { offer, .. } => Some(offer.clone()),
            _ => None,
        })
        .unwrap()
}

fn paid(ms: &[Message]) -> u128 {
    ms.iter()
        .map(|m| match m {
            Message::BankSend { amount, .. } => amount.amount,
            _ => 0,
        })
        .sum()
}

#[test]
fn payout_pays_the_price() {
    for royalties in [vec![], vec![("A", 10000)], vec![("A", 5000), ("B", 5000)], vec![("A", 0), ("B", 100)], vec![("A", 99)], vec![("A", 1), ("B", 2), ("C", 3)], vec![("A", 500), ("B", 255)]] {
        let mut so = listing("T", "O", 777);
        so.collection_info = info(royalties);
        let reply = pay_so_owner_and_royalties(coin(777), &so);
        assert_eq!(paid(&reply.messages), 777);
        for m in &reply.messages {
            match m {
                Message::BankSend { amount, .. } => assert_eq!(amount.denom, DENOM),
                other => panic!("unexpected {:?}", other),
            }
        }
    }
}

#[test]
fn cancel_undoes_listing() {
    let out = create_sell_offer(None, s("Seller"), listing("T1", "O1", 500), 3, None, s("KEY"), None, None).unwrap();
    let listed = saved_offer(&out.writes);
    assert_eq!(listed.status, SELL_STATUS_NEW);
    let undone = cancel_sell_offer(Some(listed), s("T1"), &vec![], s("KEY")).unwrap();
    assert_eq!(undone.writes[0], StoreWrite::RemoveSellOffer { owner: s("Seller"), token_key: s("KEY") });
    assert_eq!(out.reply.messages[1], Message::NftToContract { token_id: s("T1"), contract_addr: s("nft") });
    assert_eq!(
        undone.reply.messages.last().unwrap(),
        &Message::NftFromContract { token_id: s("T1"), recipient: s("Seller"), contract_addr: s("nft") }
    );
}

#[test]
fn cancel_refunds_every_bid() {
    let mut so = listing("T1", "O1", 500);
    so.status = SELL_STATUS_NEW;
    let bids: Vec<BuyOffer> = ["A", "B"]
        .iter()
        .enumerate()
        .map(|(i, o)| BuyOffer { owner: s(o), sell_offer_id: s("O1"), price: coin(10 * (i as u128 + 1)), accepted: false, date_created: None, date_updated: None })
        .collect();
    let out = cancel_sell_offer(Some(so), s("T1"), &bids, s("KEY")).unwrap();
    for (i, b) in bids.iter().enumerate() {
        assert_eq!(out.reply.messages[i], Message::BankSend { to_address: b.owner.clone(), amount: b.price.clone() });
        assert_eq!(out.writes[i], StoreWrite::RemoveBuyOffer { sell_offer_id: s("O1"), owner: b.owner.clone() });
    }
    assert_eq!(out.reply.messages.len(), bids.len() + 1);
}

fn place(owner: &str, price: u128) -> (BuyOffer, Vec<Message>) {
    let mut so = listing("T1", "O1", 500);
    so.status = SELL_STATUS_NEW;
    let b = BuyOffer { owner: s("x"), sell_offer_id: s("y"), price: coin(price), accepted: false, date_created: None, date_updated: None };
    let out = create_buy_offer(Some(so), Ok(None), &vec![coin(10_000)], s(owner), b, s("O1"), 4, s(ESCROW)).unwrap();
    match &out.writes[0] {
        StoreWrite::SaveBuyOffer { offer, .. } => (offer.clone(), out.reply.messages.clone()),
        w => panic!("unexpected {:?}", w),
    }
}

#[test]
fn withdrawal_refunds_the_bid() {
    let (saved, messages) = place("Bob", 1200);
    assert_eq!(messages[0], Message::BankSend { to_address: s(ESCROW), amount: coin(1200) });
    let out = cancel_buy_offer(Some(saved), s("Bob"), s("O1"), s(ESCROW)).unwrap();
    assert_eq!(out.reply.messages, vec![Message::BankSend { to_address: s("Bob"), amount: coin(1200) }]);
}

#[test]
fn rebid_balances_escrow() {
    let (saved, _) = place("Bob", 1200);
    for new_amount in [0u128, 700, 1200, 5000] {
        let mut new_bid = saved.clone();
        new_bid.price = coin(new_amount);
        let out = update_buy_offer(Some(saved.clone()), s("Bob"), new_bid, s("O1"), 9, s(ESCROW)).unwrap();
        match &out.reply.messages[..] {
            [Message::BankSend { to_address, amount }] => {
                if new_amount >= 1200 {
                    assert_eq!(to_address, ESCROW);
                    assert_eq!(1200 + amount.amount, new_amount);
                } else {
                    assert_eq!(to_address, "Bob");
                    assert_eq!(1200 - amount.amount, new_amount);
                }
            }
            other => panic!("unexpected {:?}", other),
        }
    }
}

#[test]
fn accepted_deal_is_closed() {
    let mut so = listing("T1", "O1", 500);
    so.status = SELL_STATUS_NEW;
    let (bid, _) = place("Bob", 1200);
    let out = accept_buy_offer(Some(bid), Some(so), s("Seller"), s("Bob"), s("O1"), 8, s("T1")).unwrap();
    let closed = saved_offer(&out.writes);
    assert_eq!(closed.status, SELL_STATUS_CLOSED);
    assert!(matches!(check_sell_offer_cancellable(Some(closed), &s("T1")), Err(ContractError::SellOfferIsAlreadyClosed { .. })));
    let accepted = match &out.writes[0] {
        StoreWrite::SaveBuyOffer { offer, .. } => offer.clone(),
        w => panic!("unexpected {:?}", w),
    };
    assert!(matches!(get_buy_offer_checked(Some(accepted), &s("O1")), Err(ContractError::BuyOfferAlreadyAccepted { .. })));
}

#[test]
fn direct_purchase_closes() {
    let mut so = listing("T1", "O1", 500);
    so.status = SELL_STATUS_NEW;
    let out = direct_buy(Some(so), &vec![coin(500)], s("Bob"), s("O1"), 8, s("T1")).unwrap();
    let closed = saved_offer(&out.writes);
    assert!(matches!(check_sell_offer_cancellable(Some(closed), &s("T1")), Err(ContractError::SellOfferIsAlreadyClosed { .. })));
}

#[test]
fn listing_twice_refused() {
    let out = create_sell_offer(None, s("Seller"), listing("T1", "O1", 500), 3, None, s("KEY"), None, None).unwrap();
    let listed = saved_offer(&out.writes);
    let again = create_sell_offer(Some(listed), s("Seller"), listing("T1", "O2", 900), 4, None, s("KEY"), None, None);
    assert!(matches!(again, Err(ContractError::SellOfferAlreadyExists { .. })));
}

#[test]
fn bidding_twice_refused() {
    let (saved, _) = place("Bob", 1200);
    let mut so = listing("T1", "O1", 500);
    so.status = SELL_STATUS_NEW;
    let again = create_buy_offer(Some(so), Ok(Some(saved.clone())), &vec![coin(10_000)], s("Bob"), saved, s("O1"), 5, s(ESCROW));
    assert!(matches!(again, Err(ContractError::BuyOfferAlreadyExists { .. })));
}

#[test]
fn sell_offers_saved_under_owner() {
    let out = create_sell_offer(None, s("Seller"), listing("T1", "O1", 500), 3, None, s("KEY"), None, None).unwrap();
    let mut so = saved_offer(&out.writes);
    so.owner = s("Seller");
    let (bid, _) = place("Bob", 1200);
    let accepted = accept_buy_offer(Some(bid), Some(so.clone()), s("Seller"), s("Bob"), s("O1"), 8, s("T1")).unwrap();
    let bought = direct_buy(Some(so), &vec![coin(500)], s("Bob"), s("O1"), 8, s("T1")).unwrap();
    for o in [&out, &accepted, &bought] {
        for w in &o.writes {
            if let StoreWrite::SaveSellOffer { owner, offer, .. } = w {
                assert_eq!(owner, &offer.owner);
            }
        }
    }
}

#[test]
fn offer_ids_stay_unique() {
    let out = create_sell_offer(None, s("Seller"), listing("T1", "O1", 500), 3, None, s("KEY"), None, None).unwrap();
    let listed = saved_offer(&out.writes);
    let other = create_sell_offer(None, s("Other"), listing("T9", "O1", 500), 3, None, s("KEY9"), Some(listed), None);
    assert_eq!(other, Err(ContractError::Std { message: s("Violates unique constraint on index") }));
}

#[test]
fn bids_saved_under_key() {
    let (saved, _) = place("Bob", 1200);
    assert_eq!((saved.owner.as_str(), saved.sell_offer_id.as_str()), ("Bob", "O1"));
    let out = update_buy_offer(Some(saved.clone()), s("Bob"), saved.clone(), s("O1"), 9, s(ESCROW)).unwrap();
    for w in &out.writes {
        if let StoreWrite::SaveBuyOffer { sell_offer_id, owner, offer } = w {
            assert_eq!((owner, sell_offer_id), (&offer.owner, &offer.sell_offer_id));
        }
    }
}

#[test]
fn page_bounds() {
    let offers: Vec<SellOffer> = (0..40).map(|i| {
        let mut o = listing(&format!("T{}", i), &format!("O{}", i), 1);
        o.status = (i % 3) as u8;
        o
    }).collect();
    for (start, limit) in [(None, None), (Some(0), Some(100)), (Some(5), Some(7)), (Some(39), None)] {
        let (page, total) = filter_sell_offer_result(offers.clone(), Some(1), start, limit);
        assert!(page.len() <= 20);
        assert!(total <= offers.len());
        assert!(page.iter().all(|o| o.status == 1));
    }
}

#[test]
fn fund_check_passes() {
    assert!(check_is_fund_sufficient(&vec![coin(5)], &coin(5)).is_ok());
    assert!(check_is_fund_sufficient(&vec![coin(4)], &coin(5)).is_err());
    assert!(check_is_fund_sufficient(&vec![coin(5)], &coin(0)).is_err());
    assert!(check_is_fund_sufficient(&vec![Coin { amount: 9, denom: s("x") }], &coin(5)).is_err());
}

/// The stores of a small host: sell offers by owner and token key, buy
/// offers by sell offer id and bidder, and a count per collection name.
#[derive(Clone, Debug, PartialEq, Default)]
struct Stores {
    sell: BTreeMap<(String, String), SellOffer>,
    buy: BTreeMap<(String, String), BuyOffer>,
    collections: BTreeMap<String, u32>,
}

fn carry(stores: &mut Stores, writes: Vec<StoreWrite>) {
    for w in writes {
        match w {
            StoreWrite::SaveSellOffer { owner, token_key, offer } => {
                stores.sell.insert((owner, token_key), offer);
            }
            StoreWrite::RemoveSellOffer { owner, token_key } => {
                stores.sell.remove(&(owner, token_key));
            }
            StoreWrite::SaveBuyOffer { sell_offer_id, owner, offer } => {
                stores.buy.insert((sell_offer_id, owner), offer);
            }
            StoreWrite::RemoveBuyOffer { sell_offer_id, owner } => {
                stores.buy.remove(&(sell_offer_id, owner));
            }
            StoreWrite::IndexCollection { collection_info } => {
                if let Some(c) = collection_info {
                    let n = stores.collections.get(&c.collection_name).copied().unwrap_or(0);
                    stores.collections.insert(c.collection_name, n.saturating_add(1));
                }
            }
            StoreWrite::UnindexCollection { collection_info } => {
                if let Some(c) = collection_info {
                    if let Some(n) = stores.collections.get(&c.collection_name).copied() {
                        if n <= 1 {
                            stores.collections.remove(&c.collection_name);
                        } else {
                            stores.collections.insert(c.collection_name, n - 1);
                        }
                    }
                }
            }
        }
    }
}

#[test]
fn cancel_restores_store() {
    let mut stores = Stores::default();
    stores.sell.insert((s("Other"), s("KEY9")), listing("T9", "O9", 70));
    stores.collections.insert(s("C"), 3);
    let before = stores.clone();
    let mut offer = listing("T1", "O1", 500);
    offer.collection_info = info(vec![]);
    let out = create_sell_offer(None, s("Seller"), offer.clone(), 3, None, s("KEY"), None, None).unwrap();
    carry(&mut stores, out.writes);
    assert_eq!(stores.collections.get("C"), Some(&4));
    let listed = stores.sell.get(&(s("Seller"), s("KEY"))).cloned();
    let cancelled = cancel_sell_offer(listed, s("T1"), &vec![], s("KEY")).unwrap();
    assert_eq!(
        cancelled.reply.messages,
        vec![Message::NftFromContract { token_id: s("T1"), recipient: s("Seller"), contract_addr: s("nft") }]
    );
    carry(&mut stores, cancelled.writes);
    assert_eq!(stores, before);
}

#[test]
fn requests_keep_store_keyed() {
    let mut stores = Stores::default();
    let out = create_sell_offer(None, s("Seller"), listing("T1", "O1", 500), 3, None, s("KEY1"), None, None).unwrap();
    carry(&mut stores, out.writes);
    let holder = stores.sell.get(&(s("Seller"), s("KEY1"))).cloned();
    let clash = create_sell_offer(None, s("Other"), listing("T2", "O1", 500), 3, None, s("KEY2"), holder, None);
    assert!(clash.is_err());
    let out = create_sell_offer(None, s("Other"), listing("T2", "O2", 600), 4, None, s("KEY2"), None, None).unwrap();
    carry(&mut stores, out.writes);
    let mut ids: Vec<String> = vec![];
    for ((owner, _), so) in &stores.sell {
        assert_eq!(owner, &so.owner);
        ids.push(so.offer_id.clone().unwrap());
    }
    ids.sort();
    ids.dedup();
    assert_eq!(ids.len(), stores.sell.len());
}
