//! Detects the creation of a liquidity pool in a stream of decoded
//! transactions and prepares the buy transaction that is raced across
//! several submission channels.
pub mod address;
pub mod instruction;
pub mod bytes;
pub mod decoder;
pub mod transaction;
pub mod senders;
pub mod bench;
pub mod controller;
pub mod geyser;
