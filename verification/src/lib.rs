//! A verified marketplace engine for NFT sell offers and buy offers.
//!
//! The library decides what every request does to the stored offers and
//! which payments and token transfers it answers with; the host contract
//! loads the records that a request needs, hands them to these functions
//! and carries out the store writes and messages they return.

pub mod state;
pub mod texts;
pub mod error;
pub mod checks;
pub mod collection_index;
pub mod response;
pub mod payout;
pub mod ins;
pub mod query;
pub mod msg;
pub mod store;
pub mod laws;
