//! Matching and settlement engine of an NFT marketplace: asks, bids,
//! collection bids and reserve-gated auctions over an escrowed currency.
pub mod execute;
pub mod helpers;
pub mod laws;
pub mod members;
pub mod query;
pub mod registry;
pub mod state;
pub mod whitelist;
