//! Verified core of a small on-chain game: resource search, resource tokens,
//! item crafting, item NFTs, an in-game currency and a marketplace.
pub mod common;
pub mod outside;
pub mod item_nft;
pub mod magic_token;
pub mod resource_manager;
pub mod search;
pub mod crafting;
pub mod marketplace;
pub mod laws;
