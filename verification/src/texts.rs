//! The texts of the marketplace's error messages.

use vstd::prelude::*;

verus! {

/// What `format!("{:?}", s)` writes for a string `s`: the string in
/// double quotes, with the characters that Rust escapes escaped.
pub uninterp spec fn debug_text(s: Seq<char>) -> Seq<char>;

/// Formats a string with `{:?}`.
///
/// Calls std's `format!` with the `Debug` form of `String`; the result is
/// named `debug_text` of the string, as the escaping rules of std take
/// more than a few lines to state.
#[verifier::external_body]
fn string_debug(s: &String) -> (r: String)
    ensures
        r@ == debug_text(s@),
{
    format!("{:?}", s)
}

/// The character of a decimal digit.
pub open spec fn digit_char(d: nat) -> char
    recommends
        d < 10,
{
    (48 + d) as char
}

/// The decimal numeral of `n`, without sign or leading zeros.
pub open spec fn decimal(n: nat) -> Seq<char>
    decreases n,
{
    if n < 10 {
        seq![digit_char(n)]
    } else {
        decimal(n / 10).push(digit_char(n % 10))
    }
}

/// The numeral of one decimal digit.
fn digit_str(d: u128) -> (r: &'static str)
    requires
        d < 10,
    ensures
        r@ == seq![digit_char(d as nat)],
{
    proof {
        reveal_strlit("0");
        reveal_strlit("1");
        reveal_strlit("2");
        reveal_strlit("3");
        reveal_strlit("4");
        reveal_strlit("5");
        reveal_strlit("6");
        reveal_strlit("7");
        reveal_strlit("8");
        reveal_strlit("9");
    }
    match d {
        0 => "0",
        1 => "1",
        2 => "2",
        3 => "3",
        4 => "4",
        5 => "5",
        6 => "6",
        7 => "7",
        8 => "8",
        _ => "9",
    }
}

/// Writes an amount as its decimal numeral, as `{}` formats it.
pub fn amount_text(n: u128) -> (r: String)
    ensures
        r@ == decimal(n as nat),
    decreases n,
{
    if n < 10 {
        let mut r = String::new();
        r.append(digit_str(n));
        r
    } else {
        let mut r = amount_text(n / 10);
        r.append(digit_str(n % 10));
        r
    }
}

/// What `{:?}` writes for an address: `Addr(` and the quoted string, then `)`.
pub open spec fn addr_debug(owner: Seq<char>) -> Seq<char> {
    "Addr("@ + debug_text(owner) + ")"@
}

/// Joins `a`, `b` and `c`.
fn join3(a: &str, b: &String, c: &str) -> (r: String)
    ensures
        r@ == a@ + b@ + c@,
{
    let mut r = a.to_owned();
    r.append(b.as_str());
    r.append(c);
    r
}

/// The message for a seller who already offers the token.
pub open spec fn sell_offer_for_exists_text(token_id: Seq<char>) -> Seq<char> {
    "SellOffer for "@ + token_id + " already exists!"@
}

/// Writes the message for a seller who already offers the token.
pub fn sell_offer_for_exists(token_id: &String) -> (r: String)
    ensures
        r@ == sell_offer_for_exists_text(token_id@),
{
    join3("SellOffer for ", token_id, " already exists!")
}

/// The message for a seller who offers no such token.
pub open spec fn sell_offer_for_not_found_text(token_id: Seq<char>) -> Seq<char> {
    "SellOffer for "@ + token_id + " not found!"@
}

/// Writes the message for a seller who offers no such token.
pub fn sell_offer_for_not_found(token_id: &String) -> (r: String)
    ensures
        r@ == sell_offer_for_not_found_text(token_id@),
{
    join3("SellOffer for ", token_id, " not found!")
}

/// The message for an offer id that is taken.
pub open spec fn sell_offer_exists_text(offer_id: Seq<char>) -> Seq<char> {
    "SellOffer "@ + offer_id + " already exists!"@
}

/// Writes the message for an offer id that is taken.
pub fn sell_offer_exists_message(offer_id: &String) -> (r: String)
    ensures
        r@ == sell_offer_exists_text(offer_id@),
{
    join3("SellOffer ", offer_id, " already exists!")
}

/// The message for an offer id that names no sell offer.
pub open spec fn sell_offer_not_found_text(offer_id: Seq<char>) -> Seq<char> {
    "SellOffer "@ + offer_id + " not found!"@
}

/// Writes the message for an offer id that names no sell offer.
pub fn sell_offer_not_found(offer_id: &String) -> (r: String)
    ensures
        r@ == sell_offer_not_found_text(offer_id@),
{
    join3("SellOffer ", offer_id, " not found!")
}

/// The message for a sell offer that is already closed.
pub open spec fn sell_offer_closed_text(token_id: Seq<char>) -> Seq<char> {
    "SellOffer for "@ + token_id + " is already closed!"@
}

/// Writes the message for a sell offer that is already closed.
pub fn sell_offer_closed(token_id: &String) -> (r: String)
    ensures
        r@ == sell_offer_closed_text(token_id@),
{
    join3("SellOffer for ", token_id, " is already closed!")
}

/// Joins `a`, the debug form of the address `owner`, and `c`.
fn join_addr(a: &str, owner: &String, c: &str) -> (r: String)
    ensures
        r@ == a@ + addr_debug(owner@) + c@,
{
    let quoted = string_debug(owner);
    let mut r = a.to_owned();
    r.append("Addr(");
    r.append(quoted.as_str());
    r.append(")");
    r.append(c);
    assert(r@ == a@ + addr_debug(owner@) + c@);
    r
}

/// The message for a bidder who already bids on the sell offer.
pub open spec fn buy_offer_for_exists_text(owner: Seq<char>) -> Seq<char> {
    "Buy Offer for "@ + addr_debug(owner) + " already exists!"@
}

/// Writes the message for a bidder who already bids on the sell offer.
pub fn buy_offer_for_exists(owner: &String) -> (r: String)
    ensures
        r@ == buy_offer_for_exists_text(owner@),
{
    join_addr("Buy Offer for ", owner, " already exists!")
}

/// The message for a bidder with no bid on the sell offer.
pub open spec fn buy_offer_for_not_found_text(owner: Seq<char>) -> Seq<char> {
    "Buy Offer for "@ + addr_debug(owner) + " NOT found!"@
}

/// Writes the message for a bidder with no bid on the sell offer.
pub fn buy_offer_for_not_found(owner: &String) -> (r: String)
    ensures
        r@ == buy_offer_for_not_found_text(owner@),
{
    join_addr("Buy Offer for ", owner, " NOT found!")
}

/// The message for a bid that is already accepted.
pub open spec fn buy_offer_accepted_text(owner: Seq<char>) -> Seq<char> {
    "Buy offer "@ + addr_debug(owner) + " already accepted!"@
}

/// Writes the message for a bid that is already accepted.
pub fn buy_offer_accepted(owner: &String) -> (r: String)
    ensures
        r@ == buy_offer_accepted_text(owner@),
{
    join_addr("Buy offer ", owner, " already accepted!")
}

/// The message for a token that the seller does not offer.
pub open spec fn sell_offer_for_missing_text(token_id: Seq<char>) -> Seq<char> {
    "Sell Offer for "@ + token_id + " not found!"@
}

/// Writes the message for a token that the seller does not offer.
pub fn sell_offer_for_missing(token_id: &String) -> (r: String)
    ensures
        r@ == sell_offer_for_missing_text(token_id@),
{
    join3("Sell Offer for ", token_id, " not found!")
}

/// The message for an offer id with no sell offer.
pub open spec fn sell_offer_missing_text(offer_id: Seq<char>) -> Seq<char> {
    "Sell Offer "@ + offer_id + " not found!"@
}

/// Writes the message for an offer id with no sell offer.
pub fn sell_offer_missing(offer_id: &String) -> (r: String)
    ensures
        r@ == sell_offer_missing_text(offer_id@),
{
    join3("Sell Offer ", offer_id, " not found!")
}

/// The message for a bid that is not there.
pub open spec fn buy_offer_missing_text(sell_offer_id: Seq<char>) -> Seq<char> {
    "Buy Offer "@ + sell_offer_id + " not found!"@
}

/// Writes the message for a bid that is not there.
pub fn buy_offer_missing(sell_offer_id: &String) -> (r: String)
    ensures
        r@ == buy_offer_missing_text(sell_offer_id@),
{
    join3("Buy Offer ", sell_offer_id, " not found!")
}

/// The message for a price of zero.
pub open spec fn zero_fund_text() -> Seq<char> {
    "Required fund cannot be zero!"@
}

/// Writes the message for a price of zero.
pub fn zero_fund() -> (r: String)
    ensures
        r@ == zero_fund_text(),
{
    "Required fund cannot be zero!".to_owned()
}

/// The message for a request that sends no funds.
pub open spec fn no_fund_text(denom: Seq<char>, amount: u128) -> Seq<char> {
    "Sent fund 0"@ + denom + " is less than required "@ + decimal(amount as nat) + denom + "!"@
}

/// Writes the message for a request that sends no funds.
pub fn no_fund(denom: &String, amount: u128) -> (r: String)
    ensures
        r@ == no_fund_text(denom@, amount),
{
    let n = amount_text(amount);
    let mut r = "Sent fund 0".to_owned();
    r.append(denom.as_str());
    r.append(" is less than required ");
    r.append(n.as_str());
    r.append(denom.as_str());
    r.append("!");
    r
}

/// The message for funds that fall short of the price.
pub open spec fn short_fund_text(
    sent_amount: u128,
    sent_denom: Seq<char>,
    amount: u128,
    denom: Seq<char>,
) -> Seq<char> {
    "Sent fund "@ + decimal(sent_amount as nat) + sent_denom + " is less than required "@
        + decimal(amount as nat) + denom + "!"@
}

/// Writes the message for funds that fall short of the price.
pub fn short_fund(sent_amount: u128, sent_denom: &String, amount: u128, denom: &String) -> (r: String)
    ensures
        r@ == short_fund_text(sent_amount, sent_denom@, amount, denom@),
{
    let sent = amount_text(sent_amount);
    let required = amount_text(amount);
    let mut r = "Sent fund ".to_owned();
    r.append(sent.as_str());
    r.append(sent_denom.as_str());
    r.append(" is less than required ");
    r.append(required.as_str());
    r.append(denom.as_str());
    r.append("!");
    r
}

/// The message for a service error without its own kind.
pub open spec fn custom_error_text() -> Seq<char> {
    "Custom error"@
}

/// Writes the message for a service error without its own kind.
pub fn custom_error() -> (r: String)
    ensures
        r@ == custom_error_text(),
{
    "Custom error".to_owned()
}


/// The message with which the store refuses a record that would share an
/// indexed value with a record under another key.
pub open spec fn unique_violation_text() -> Seq<char> {
    "Violates unique constraint on index"@
}

/// Writes the message with which the store refuses a clash on an index.
pub fn unique_violation() -> (r: String)
    ensures
        r@ == unique_violation_text(),
{
    "Violates unique constraint on index".to_owned()
}

} // verus!
