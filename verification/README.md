# pix0_market_contract

An NFT marketplace: sellers list tokens in sell offers, bidders place buy
offers whose price is held in escrow, and a sale closes either when the
seller accepts a bid or when a buyer pays the asking price. Royalty
percentages are basis points (500 is 5%); each royalty holder is paid
`price * percentage / 10000`, rounded down, and the seller the rest.

- `src/` is the verified engine. Every request is a function from the
  records that the store holds for it, and the facts of the request, to an
  `Outcome` (the store writes and the reply's messages and attributes) or a
  `ContractError`. The records handed in include those that the store's
  unique indexes look at: the offer already held under a new offer id, and
  the key under which a closed offer is saved. Where such a save would
  break an index (an offer id held by another offer, or a closed offer
  saved under a key other than the one it is stored under), the request is
  refused with the store's own error, as the store would refuse it. A
  listing's fee is paid before its offer is saved, so a failed payment is
  reported before the store's refusal.
  `src/store.rs` models the three stores and what a request's writes do
  to them; `src/laws.rs` proves what holds across requests, among them
  that every request keeps each sell offer under its owner and token key
  with no two sharing an offer id, and that cancelling a fresh listing
  restores the stores.
- `app/` is the CosmWasm contract around it: entry points, the
  `cw-storage-plus` stores, serde forms of the records, and the carrying
  out of an outcome as a `Response`.
- `tests/` runs the engine on concrete requests.
