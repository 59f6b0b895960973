//! The market's store as a whole, and what a request's writes do to it.
//!
//! The host keeps three stores: the sell offers under their owner and the
//! key of their token, the buy offers under their sell offer id and
//! bidder, and the collection index under each collection's id. A request
//! answers with a list of writes, which the host carries out in order.

use vstd::prelude::*;
use crate::collection_index::{CollectionIndexModel, count_entry, uncount_entry};
use crate::error::ErrorModel;
use crate::ins::index_id;
use crate::response::{OutcomeModel, WriteModel};
use crate::state::{BuyOffer, CollectionInfoModel, SellOffer, SellOfferModel};

verus! {

/// The three stores, keyed by the characters of their keys.
pub struct MarketStore {
    pub sell_offers: Map<(Seq<char>, Seq<char>), SellOfferModel>,
    pub buy_offers: Map<(Seq<char>, Seq<char>), BuyOffer>,
    pub collections: Map<Seq<char>, CollectionIndexModel>,
}

/// What one write does to the store. `collection_id` gives the id under
/// which a collection is indexed, and `now` is the time of the request.
pub open spec fn apply_write(
    s: MarketStore,
    w: WriteModel,
    collection_id: spec_fn(CollectionInfoModel) -> String,
    now: u64,
) -> MarketStore {
    match w {
        WriteModel::SaveSellOffer { owner, token_key, offer } => MarketStore {
            sell_offers: s.sell_offers.insert((owner@, token_key@), offer),
            ..s
        },
        WriteModel::RemoveSellOffer { owner, token_key } => MarketStore {
            sell_offers: s.sell_offers.remove((owner@, token_key@)),
            ..s
        },
        WriteModel::SaveBuyOffer { sell_offer_id, owner, offer } => MarketStore {
            buy_offers: s.buy_offers.insert((sell_offer_id@, owner@), offer),
            ..s
        },
        WriteModel::RemoveBuyOffer { sell_offer_id, owner } => MarketStore {
            buy_offers: s.buy_offers.remove((sell_offer_id@, owner@)),
            ..s
        },
        WriteModel::IndexCollection { collection_info } => match collection_info {
            Some(info) => {
                let id = collection_id(info);
                MarketStore {
                    collections: s.collections.insert(
                        id@,
                        count_entry(s.collections.get(id@), info, id, now),
                    ),
                    ..s
                }
            },
            None => s,
        },
        WriteModel::UnindexCollection { collection_info } => match collection_info {
            Some(info) => {
                let id = collection_id(info);
                if s.collections.contains_key(id@) {
                    match uncount_entry(s.collections[id@]) {
                        Some(entry) => MarketStore { collections: s.collections.insert(id@, entry), ..s },
                        None => MarketStore { collections: s.collections.remove(id@), ..s },
                    }
                } else {
                    s
                }
            },
            None => s,
        },
    }
}

/// What a list of writes, carried out in order, does to the store.
pub open spec fn apply_writes(
    s: MarketStore,
    ws: Seq<WriteModel>,
    collection_id: spec_fn(CollectionInfoModel) -> String,
    now: u64,
) -> MarketStore
    decreases ws.len(),
{
    if ws.len() == 0 {
        s
    } else {
        apply_writes(apply_write(s, ws[0], collection_id, now), ws.drop_first(), collection_id, now)
    }
}

/// The store after a request: its writes carried out, or the store as it
/// was when the request is refused.
pub open spec fn store_after(
    s: MarketStore,
    r: Result<OutcomeModel, ErrorModel>,
    collection_id: spec_fn(CollectionInfoModel) -> String,
    now: u64,
) -> MarketStore {
    match r {
        Ok(o) => apply_writes(s, o.writes, collection_id, now),
        Err(_) => s,
    }
}

/// The sell offers are well keyed: each is stored under its owner and the
/// key of its token (`token_key_of` of its contract and token id), and no
/// two share an index id.
pub open spec fn well_keyed(
    s: MarketStore,
    token_key_of: spec_fn(Seq<char>, Seq<char>) -> Seq<char>,
) -> bool {
    &&& forall|k: (Seq<char>, Seq<char>)| #[trigger]
        s.sell_offers.contains_key(k) ==> k.0 == s.sell_offers[k].owner@ && k.1 == token_key_of(
            s.sell_offers[k].contract_addr@,
            s.sell_offers[k].token_id@,
        )
    &&& forall|k1: (Seq<char>, Seq<char>), k2: (Seq<char>, Seq<char>)|
        #![trigger s.sell_offers.contains_key(k1), s.sell_offers.contains_key(k2)]
        s.sell_offers.contains_key(k1) && s.sell_offers.contains_key(k2) && k1 != k2 ==> index_id(
            s.sell_offers[k1].offer_id,
        ) != index_id(s.sell_offers[k2].offer_id)
}

/// Whether some stored sell offer has the index id.
pub open spec fn holds_index_id(s: MarketStore, id: Seq<char>) -> bool {
    exists|k: (Seq<char>, Seq<char>)| #[trigger]
        s.sell_offers.contains_key(k) && index_id(s.sell_offers[k].offer_id) == id
}

/// Whether `found` is what the store holds under the key: the offer stored
/// there, or nothing when none is.
pub open spec fn found_at(s: MarketStore, key: (Seq<char>, Seq<char>), found: Option<SellOffer>) -> bool {
    match found {
        Some(so) => s.sell_offers.contains_key(key) && s.sell_offers[key] == so@,
        None => !s.sell_offers.contains_key(key),
    }
}

/// Whether a write touches buy offers only.
pub open spec fn bid_write(w: WriteModel) -> bool {
    w is SaveBuyOffer || w is RemoveBuyOffer
}

/// Writes carried out one list after another are the two lists carried
/// out in turn.
pub proof fn lemma_apply_concat(
    s: MarketStore,
    a: Seq<WriteModel>,
    b: Seq<WriteModel>,
    collection_id: spec_fn(CollectionInfoModel) -> String,
    now: u64,
)
    ensures
        apply_writes(s, a + b, collection_id, now) == apply_writes(
            apply_writes(s, a, collection_id, now),
            b,
            collection_id,
            now,
        ),
    decreases a.len(),
{
    if a.len() == 0 {
        assert(a + b =~= b);
    } else {
        assert((a + b).drop_first() =~= a.drop_first() + b);
        assert((a + b)[0] == a[0]);
        lemma_apply_concat(apply_write(s, a[0], collection_id, now), a.drop_first(), b, collection_id, now);
    }
}

/// Writes that touch buy offers only leave the sell offers and the
/// collection index as they were.
pub proof fn lemma_bid_writes_keep_offers(
    s: MarketStore,
    ws: Seq<WriteModel>,
    collection_id: spec_fn(CollectionInfoModel) -> String,
    now: u64,
)
    requires
        forall|i: int| 0 <= i < ws.len() ==> bid_write(#[trigger] ws[i]),
    ensures
        apply_writes(s, ws, collection_id, now).sell_offers == s.sell_offers,
        apply_writes(s, ws, collection_id, now).collections == s.collections,
    decreases ws.len(),
{
    if ws.len() > 0 {
        assert(bid_write(ws[0]));
        let s1 = apply_write(s, ws[0], collection_id, now);
        assert(s1.sell_offers == s.sell_offers && s1.collections == s.collections);
        assert forall|i: int| 0 <= i < ws.drop_first().len() implies bid_write(#[trigger] ws.drop_first()[i]) by {
            assert(ws.drop_first()[i] == ws[i + 1]);
        }
        lemma_bid_writes_keep_offers(s1, ws.drop_first(), collection_id, now);
    }
}

/// Removing a sell offer keeps the sell offers well keyed.
pub proof fn lemma_remove_keeps_keyed(
    s: MarketStore,
    key: (Seq<char>, Seq<char>),
    token_key_of: spec_fn(Seq<char>, Seq<char>) -> Seq<char>,
)
    requires
        well_keyed(s, token_key_of),
    ensures
        well_keyed(MarketStore { sell_offers: s.sell_offers.remove(key), ..s }, token_key_of),
{
    let t = MarketStore { sell_offers: s.sell_offers.remove(key), ..s };
    assert forall|k1: (Seq<char>, Seq<char>), k2: (Seq<char>, Seq<char>)|
        t.sell_offers.contains_key(k1) && t.sell_offers.contains_key(k2) && k1 != k2 implies index_id(
        t.sell_offers[k1].offer_id,
    ) != index_id(t.sell_offers[k2].offer_id) by {
        assert(s.sell_offers.contains_key(k1) && s.sell_offers.contains_key(k2));
    }
    assert forall|k: (Seq<char>, Seq<char>)| #[trigger] t.sell_offers.contains_key(k) implies k.0
        == t.sell_offers[k].owner@ && k.1 == token_key_of(
        t.sell_offers[k].contract_addr@,
        t.sell_offers[k].token_id@,
    ) by {
        assert(s.sell_offers.contains_key(k));
    }
}

/// Saving a sell offer under its owner and the key of its token keeps the
/// sell offers well keyed, provided no offer under another key has its
/// index id.
pub proof fn lemma_save_keeps_keyed(
    s: MarketStore,
    key: (Seq<char>, Seq<char>),
    offer: SellOfferModel,
    token_key_of: spec_fn(Seq<char>, Seq<char>) -> Seq<char>,
)
    requires
        well_keyed(s, token_key_of),
        key.0 == offer.owner@,
        key.1 == token_key_of(offer.contract_addr@, offer.token_id@),
        forall|k: (Seq<char>, Seq<char>)| #[trigger]
            s.sell_offers.contains_key(k) && k != key ==> index_id(s.sell_offers[k].offer_id)
                != index_id(offer.offer_id),
    ensures
        well_keyed(MarketStore { sell_offers: s.sell_offers.insert(key, offer), ..s }, token_key_of),
{
    let t = MarketStore { sell_offers: s.sell_offers.insert(key, offer), ..s };
    assert forall|k1: (Seq<char>, Seq<char>), k2: (Seq<char>, Seq<char>)|
        t.sell_offers.contains_key(k1) && t.sell_offers.contains_key(k2) && k1 != k2 implies index_id(
        t.sell_offers[k1].offer_id,
    ) != index_id(t.sell_offers[k2].offer_id) by {
        if k1 != key && k2 != key {
            assert(s.sell_offers.contains_key(k1) && s.sell_offers.contains_key(k2));
        } else if k1 == key {
            assert(s.sell_offers.contains_key(k2));
        } else {
            assert(s.sell_offers.contains_key(k1));
        }
    }
    assert forall|k: (Seq<char>, Seq<char>)| #[trigger] t.sell_offers.contains_key(k) implies k.0
        == t.sell_offers[k].owner@ && k.1 == token_key_of(
        t.sell_offers[k].contract_addr@,
        t.sell_offers[k].token_id@,
    ) by {
        if k != key {
            assert(s.sell_offers.contains_key(k));
        }
    }
}

/// Carrying out one, two or three writes.
pub proof fn lemma_apply_short(
    s: MarketStore,
    a: WriteModel,
    b: WriteModel,
    c: WriteModel,
    collection_id: spec_fn(CollectionInfoModel) -> String,
    now: u64,
)
    ensures
        apply_writes(s, seq![a], collection_id, now) == apply_write(s, a, collection_id, now),
        apply_writes(s, seq![a, b], collection_id, now) == apply_write(
            apply_write(s, a, collection_id, now),
            b,
            collection_id,
            now,
        ),
        apply_writes(s, seq![a, b, c], collection_id, now) == apply_write(
            apply_write(apply_write(s, a, collection_id, now), b, collection_id, now),
            c,
            collection_id,
            now,
        ),
{
    let s1 = apply_write(s, a, collection_id, now);
    let s2 = apply_write(s1, b, collection_id, now);
    let s3 = apply_write(s2, c, collection_id, now);
    assert(seq![a].drop_first() =~= Seq::<WriteModel>::empty());
    assert(seq![a, b].drop_first() =~= seq![b]);
    assert(seq![b].drop_first() =~= Seq::<WriteModel>::empty());
    assert(seq![a, b, c].drop_first() =~= seq![b, c]);
    assert(seq![b, c].drop_first() =~= seq![c]);
    assert(seq![c].drop_first() =~= Seq::<WriteModel>::empty());
    assert(apply_writes(s3, Seq::<WriteModel>::empty(), collection_id, now) == s3);
    assert(apply_writes(s2, Seq::<WriteModel>::empty(), collection_id, now) == s2);
    assert(apply_writes(s1, Seq::<WriteModel>::empty(), collection_id, now) == s1);
    assert(apply_writes(s2, seq![c], collection_id, now) == s3);
    assert(apply_writes(s1, seq![b], collection_id, now) == s2);
    assert(apply_writes(s1, seq![b, c], collection_id, now) == s3);
}

} // verus!
