//! A Monero block explorer's library: the daemon's data types, the JSON-RPC
//! requests the explorer sends, the search dispatcher, and the wallet
//! payment URI with its QR code.

pub mod data_types;
pub mod rpc;
pub mod parse;
pub mod search;
pub mod wallet;
pub mod status;
