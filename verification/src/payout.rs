//! How the price of a sold token is shared between its seller and the
//! royalty holders of its collection.

use vstd::prelude::*;
use vstd::arithmetic::div_mod::{lemma_fundamental_div_mod, lemma_fundamental_div_mod_converse};
use crate::response::{Action, Attribute, Message, Reply, ReplyModel, send_reply, internal_transfer_from_escrow};
use crate::state::{Coin, Royalty, SellOffer, SellOfferModel};

verus! {

/// The basis points in a whole: royalty percentages are counted in
/// hundredths of a percent.
pub const BASIS_POINTS: u128 = 10000;

/// The sum of the royalty percentages, in basis points.
pub open spec fn percentage_total(rs: Seq<Royalty>) -> int
    decreases rs.len(),
{
    if rs.len() == 0 {
        0
    } else {
        percentage_total(rs.drop_last()) + rs.last().percentage
    }
}

/// The share that a royalty of `percentage` basis points earns of an
/// amount, rounded down.
pub open spec fn royalty_share(amount: u128, percentage: u16) -> u128 {
    ((amount * percentage) / 10000) as u128
}

/// What the royalty holders earn together.
pub open spec fn shares_total(rs: Seq<Royalty>, amount: u128) -> int
    decreases rs.len(),
{
    if rs.len() == 0 {
        0
    } else {
        shares_total(rs.drop_last(), amount) + royalty_share(amount, rs.last().percentage)
    }
}

/// The payments to the royalty holders, in the order of the royalties.
pub open spec fn royalty_payments(rs: Seq<Royalty>, price: Coin) -> Seq<Message> {
    Seq::new(
        rs.len(),
        |i: int|
            Message::BankSend {
                to_address: rs[i].wallet,
                amount: Coin { amount: royalty_share(price.amount, rs[i].percentage), denom: price.denom },
            },
    )
}

/// The attributes that name the royalty holders paid.
pub open spec fn royalty_payees(rs: Seq<Royalty>) -> Seq<Attribute> {
    Seq::new(rs.len(), |i: int| Attribute::To { address: rs[i].wallet })
}

/// The royalties that a sell offer's collection asks for, if it asks for any.
pub open spec fn royalties_of(so: SellOfferModel) -> Option<Seq<Royalty>> {
    match so.collection_info {
        Some(ci) => ci.royalties,
        None => None,
    }
}

/// The royalties of a sell offer add up to at most the whole price.
pub open spec fn royalties_fit(so: SellOfferModel) -> bool {
    match royalties_of(so) {
        Some(rs) => percentage_total(rs) <= 10000,
        None => true,
    }
}

/// How a sale at `price` pays out: each royalty holder gets its share of
/// the price, and the seller the rest; without royalties the seller gets
/// the whole price.
pub open spec fn payout_reply(price: Coin, so: SellOfferModel) -> ReplyModel {
    match royalties_of(so) {
        Some(rs) => ReplyModel {
            messages: seq![
                Message::BankSend {
                    to_address: so.owner,
                    amount: Coin {
                        amount: (price.amount - shares_total(rs, price.amount)) as u128,
                        denom: price.denom,
                    },
                },
            ] + royalty_payments(rs, price),
            attributes: seq![
                Attribute::Action { action: Action::AcceptBuyOffer },
                Attribute::To { address: so.owner },
            ] + royalty_payees(rs),
        },
        None => send_reply(so.owner, price, Action::AcceptBuyOffer),
    }
}

/// The total that a list of payments pays.
pub open spec fn total_paid(ms: Seq<Message>) -> int
    decreases ms.len(),
{
    if ms.len() == 0 {
        0
    } else {
        total_paid(ms.drop_last()) + match ms.last() {
            Message::BankSend { amount, .. } => amount.amount as int,
            _ => 0int,
        }
    }
}

/// A share can be computed without overflow: the whole ten-thousands of
/// the amount and its remainder are shared apart.
pub proof fn lemma_share_split(a: int, p: int)
    requires
        0 <= a,
        0 <= p <= 10000,
    ensures
        (a * p) / 10000 == (a / 10000) * p + ((a % 10000) * p) / 10000,
        0 <= (a % 10000) * p < 100_000_000,
        0 <= (a / 10000) * p <= a,
        0 <= (a * p) / 10000 <= a,
        10000 * ((a * p) / 10000) <= a * p,
{
    let q = a / 10000;
    let r = a % 10000;
    lemma_fundamental_div_mod(a, 10000);
    let rp = r * p;
    assert(0 <= rp < 100_000_000) by (nonlinear_arith)
        requires
            0 <= r < 10000,
            0 <= p <= 10000,
            rp == r * p,
    ;
    let q2 = rp / 10000;
    let r2 = rp % 10000;
    lemma_fundamental_div_mod(rp, 10000);
    assert(a * p == (q * p + q2) * 10000 + r2) by (nonlinear_arith)
        requires
            a == 10000 * q + r,
            rp == r * p,
            rp == 10000 * q2 + r2,
    ;
    lemma_fundamental_div_mod_converse(a * p, 10000, q * p + q2, r2);
    assert(0 <= q * p <= a) by (nonlinear_arith)
        requires
            a == 10000 * q + r,
            0 <= r,
            0 <= q,
            0 <= p <= 10000,
    ;
    assert(0 <= (a * p) / 10000 <= a) by (nonlinear_arith)
        requires
            a * p == (q * p + q2) * 10000 + r2,
            0 <= r2 < 10000,
            0 <= a,
            0 <= p <= 10000,
            (a * p) / 10000 == q * p + q2,
    ;
    lemma_fundamental_div_mod(a * p, 10000);
}

/// The royalty holders together earn at most their percentages of the
/// amount.
pub proof fn lemma_shares_total_bounded(rs: Seq<Royalty>, amount: u128)
    ensures
        0 <= shares_total(rs, amount),
        0 <= percentage_total(rs),
        10000 * shares_total(rs, amount) <= amount * percentage_total(rs),
    decreases rs.len(),
{
    if rs.len() > 0 {
        let front = rs.drop_last();
        let p = rs.last().percentage as int;
        lemma_shares_total_bounded(front, amount);
        let s = ((amount * p) / 10000) as int;
        lemma_fundamental_div_mod(amount * p, 10000);
        assert(10000 * s <= amount * p && 0 <= s) by (nonlinear_arith)
            requires
                amount * p == 10000 * s + (amount * p) % 10000,
                0 <= (amount * p) % 10000,
                0 <= amount * p,
        ;
        assert(amount * percentage_total(rs) == amount * percentage_total(front) + amount * p) by (
        nonlinear_arith)
            requires
                percentage_total(rs) == percentage_total(front) + p,
        ;
    }
}

/// The prefix sums of the percentages grow with the prefix.
pub proof fn lemma_percentage_total_prefix(rs: Seq<Royalty>, i: int, j: int)
    requires
        0 <= i <= j <= rs.len(),
    ensures
        percentage_total(rs.take(i)) <= percentage_total(rs.take(j)),
    decreases j - i,
{
    if i < j {
        lemma_percentage_total_prefix(rs, i, j - 1);
        assert(rs.take(j).drop_last() == rs.take(j - 1));
    }
}

/// The share of a royalty of `percentage` basis points, computed without
/// overflow.
pub fn share_of(amount: u128, percentage: u16) -> (r: u128)
    requires
        percentage <= 10000,
    ensures
        r == royalty_share(amount, percentage),
        r <= amount,
{
    proof {
        lemma_share_split(amount as int, percentage as int);
    }
    let whole = amount / BASIS_POINTS;
    let rest = amount % BASIS_POINTS;
    whole * (percentage as u128) + (rest * (percentage as u128)) / BASIS_POINTS
}

/// Pays the seller of a sold token, and the royalty holders of its
/// collection, out of the price.
pub fn pay_so_owner_and_royalties(price: Coin, sell_offer: &SellOffer) -> (r: Reply)
    requires
        royalties_fit(sell_offer@),
    ensures
        r@ == payout_reply(price, sell_offer@),
{
    let royalties: Option<&Vec<Royalty>> = match &sell_offer.collection_info {
        Some(ci) => match &ci.royalties {
            Some(rs) => Some(rs),
            None => None,
        },
        None => None,
    };
    match royalties {
        Some(rs) => {
            let ghost rseq = rs@;
            assert(royalties_of(sell_offer@) == Some(rseq));
            let mut total_royalty_percentage: u32 = 0;
            let mut paid: u128 = 0;
            let mut bmsgs: Vec<Message> = Vec::new();
            let mut attribs: Vec<Attribute> = Vec::new();
            let mut i: usize = 0;
            while i < rs.len()
                invariant
                    i <= rs.len(),
                    rseq == rs@,
                    percentage_total(rseq) <= 10000,
                    total_royalty_percentage == percentage_total(rseq.take(i as int)),
                    paid == shares_total(rseq.take(i as int), price.amount),
                    bmsgs@ == royalty_payments(rseq.take(i as int), price),
                    attribs@ == royalty_payees(rseq.take(i as int)),
                decreases rs.len() - i,
            {
                let r = &rs[i];
                proof {
                    assert(rseq.take(i + 1).drop_last() == rseq.take(i as int));
                    lemma_percentage_total_prefix(rseq, i + 1, rseq.len() as int);
                    assert(rseq.take(rseq.len() as int) == rseq);
                    lemma_shares_total_bounded(rseq.take(i + 1), price.amount);
                    let t = percentage_total(rseq.take(i + 1));
                    let s = shares_total(rseq.take(i + 1), price.amount);
                    assert(s <= price.amount) by (nonlinear_arith)
                        requires
                            10000 * s <= price.amount * t,
                            0 <= t <= 10000,
                            0 <= price.amount,
                    ;
                }
                let share = share_of(price.amount, r.percentage);
                let amount = Coin { amount: share, denom: price.denom.clone() };
                bmsgs.push(Message::BankSend { to_address: r.wallet.clone(), amount });
                attribs.push(Attribute::To { address: r.wallet.clone() });
                total_royalty_percentage = total_royalty_percentage + r.percentage as u32;
                paid = paid + share;
                proof {
                    assert(bmsgs@ =~= royalty_payments(rseq.take(i + 1), price));
                    assert(attribs@ =~= royalty_payees(rseq.take(i + 1)));
                }
                i += 1;
            }
            proof {
                assert(rseq.take(rs.len() as int) == rseq);
                lemma_shares_total_bounded(rseq, price.amount);
                let s = shares_total(rseq, price.amount);
                assert(s <= price.amount) by (nonlinear_arith)
                    requires
                        10000 * s <= price.amount * percentage_total(rseq),
                        0 <= percentage_total(rseq) <= 10000,
                        0 <= price.amount,
                ;
            }
            let owner_amount = Coin { amount: price.amount - paid, denom: price.denom };
            let mut messages: Vec<Message> = Vec::new();
            messages.push(
                Message::BankSend { to_address: sell_offer.owner.clone(), amount: owner_amount },
            );
            messages.append(&mut bmsgs);
            let mut attributes: Vec<Attribute> = Vec::new();
            attributes.push(Attribute::Action { action: Action::AcceptBuyOffer });
            attributes.push(Attribute::To { address: sell_offer.owner.clone() });
            attributes.append(&mut attribs);
            let reply = Reply { messages, attributes };
            assert(reply@.messages =~= payout_reply(price, sell_offer@).messages);
            assert(reply@.attributes =~= payout_reply(price, sell_offer@).attributes);
            reply
        },
        None => internal_transfer_from_escrow(sell_offer.owner.clone(), price, Action::AcceptBuyOffer),
    }
}

} // verus!
