//! Data exchanged with a Monero daemon over JSON-RPC.

use vstd::prelude::*;

verus! {

/// The envelope of a JSON-RPC call to the daemon.
#[derive(Debug, Clone, PartialEq, Eq, Hash)]
pub struct RPCPayload {
    pub jsonrpc: String,
    pub id: String,
    pub method: Option<String>,
    pub params: Option<RPCParams>,
}

/// The version of the JSON-RPC protocol that the daemon speaks.
pub open spec fn jsonrpc_version() -> Seq<char> {
    "2.0"@
}

/// The identifier every call carries.
pub open spec fn default_call_id() -> Seq<char> {
    "0"@
}

/// Every call is made in protocol version "2.0" with identifier "0".
pub proof fn lemma_call_envelope_constants()
    ensures
        jsonrpc_version() == "2.0"@,
        default_call_id() == "0"@,
{
}

impl Default for RPCPayload {
    /// An envelope for protocol version "2.0" with id "0", no method and no parameters.
    fn default() -> (p: RPCPayload)
        ensures
            p.jsonrpc@ == jsonrpc_version(),
            p.id@ == default_call_id(),
            p.jsonrpc@ == "2.0"@,
            p.id@ == "0"@,
            p.method is None,
            p.params is None,
    {
        RPCPayload {
            jsonrpc: String::from_str("2.0"),
            id: String::from_str("0"),
            method: None,
            params: None,
        }
    }
}

/// Parameters of a JSON-RPC call.
#[derive(Debug, Clone, PartialEq, Eq, Hash)]
pub struct RPCParams {
    pub hash: Option<String>,
    pub txs_hashes: Option<Vec<String>>,
    pub height: Option<String>,
}

impl Default for RPCParams {
    /// Parameters with every field absent.
    fn default() -> (p: RPCParams)
        ensures
            p.hash is None,
            p.txs_hashes is None,
            p.height is None,
    {
        RPCParams { hash: None, txs_hashes: None, height: None }
    }
}

/// The daemon's answer to `get_info`.
#[derive(Debug, Clone, PartialEq, Eq, Hash)]
pub struct GetInfo {
    pub jsonrpc: String,
    pub id: String,
    pub result: GetInfoResult,
}

/// The state of the daemon and of its view of the network.
#[derive(Debug, Clone, PartialEq, Eq, Hash)]
pub struct GetInfoResult {
    pub alt_blocks_count: u32,
    pub block_size_limit: u32,
    pub block_size_median: u32,
    pub block_weight_limit: u32,
    pub block_weight_median: u64,
    pub bootstrap_daemon_address: String,
    pub credits: u32,
    pub cumulative_difficulty: u64,
    pub cumulative_difficulty_top64: u32,
    pub database_size: u64,
    pub difficulty: u64,
    pub difficulty_top64: u32,
    pub free_space: u64,
    pub grey_peerlist_size: u32,
    pub height: u32,
    pub height_without_bootstrap: u32,
    pub incoming_connections_count: u32,
    pub mainnet: bool,
    pub nettype: String,
    pub offline: bool,
    pub outgoing_connections_count: u32,
    pub rpc_connections_count: u32,
    pub stagenet: bool,
    pub start_time: u32,
    pub status: String,
    pub target: u32,
    pub target_height: u32,
    pub testnet: bool,
    pub top_block_hash: String,
    pub top_hash: String,
    pub tx_count: u32,
    pub tx_pool_size: u32,
    pub untrusted: bool,
    pub update_available: bool,
    pub version: String,
    pub was_bootstrap_ever_used: bool,
    pub white_peerlist_size: u32,
    pub wide_cumulative_difficulty: String,
    pub wide_difficulty: String,
}

/// The daemon's answer to `get_block_header_by_hash`.
#[derive(Debug, Clone, PartialEq, Eq, Hash)]
pub struct BlockByHeaderHash {
    pub id: String,
    pub jsonrpc: String,
    pub result: BlockByHeaderHashResult,
}

/// The header found by hash, with the call's status.
#[derive(Debug, Clone, PartialEq, Eq, Hash)]
pub struct BlockByHeaderHashResult {
    pub status: String,
    pub untrusted: bool,
    pub block_header: BlockHeader,
}

/// The header of a block.
#[derive(Debug, Clone, PartialEq, Eq, Hash)]
pub struct BlockHeader {
    pub block_size: u32,
    pub depth: u32,
    pub difficulty: u64,
    pub hash: String,
    pub height: u32,
    pub major_version: u8,
    pub minor_version: u8,
    pub miner_tx_hash: Option<String>,
    pub nonce: u32,
    pub num_txes: u32,
    pub orphan_status: bool,
    pub prev_hash: String,
    pub reward: u64,
    pub timestamp: i64,
}

/// The daemon's answer to `get_transactions`.
#[derive(Debug, Clone, PartialEq, Eq, Hash)]
pub struct GetTransactions {
    pub txs: Vec<GetTransactionsTxs>,
}

/// One transaction as `get_transactions` reports it.
#[derive(Debug, Clone, PartialEq, Eq, Hash)]
pub struct GetTransactionsTxs {
    pub block_height: u32,
    pub block_timestamp: i64,
    pub double_spend_seen: bool,
    pub in_pool: bool,
    pub output_indices: Vec<u32>,
}

/// The daemon's answer to `get_block`.
#[derive(Debug, Clone, PartialEq, Eq, Hash)]
pub struct GetBlock {
    pub id: String,
    pub jsonrpc: String,
    pub result: GetBlockResult,
}

/// A block: its header, the miner transaction and the hashes of its transactions.
#[derive(Debug, Clone, PartialEq, Eq, Hash)]
pub struct GetBlockResult {
    pub block_header: BlockHeader,
    pub credits: u8,
    pub miner_tx_hash: String,
    pub tx_hashes: Option<Vec<String>>,
}

/// The daemon's answer to `get_transaction_pool`.
#[derive(Debug, Clone, PartialEq, Eq, Hash)]
pub struct GetTransactionPool {
    pub credits: u32,
    pub spent_key_images: Vec<SpentKeyImages>,
    pub status: String,
    pub top_hash: String,
    pub transactions: Vec<Transactions>,
}

/// A key image spent by transactions of the pool.
#[derive(Debug, Clone, PartialEq, Eq, Hash)]
pub struct SpentKeyImages {
    pub id_hash: String,
    pub txs_hashes: Vec<String>,
}

/// A transaction waiting in the pool.
#[derive(Debug, Clone, PartialEq, Eq, Hash)]
pub struct Transactions {
    pub blob_size: u32,
    pub do_not_relay: bool,
    pub double_spend_seen: bool,
    pub fee: u64,
    pub id_hash: String,
    pub kept_by_block: bool,
    pub last_failed_height: u32,
    pub last_failed_id_hash: String,
    pub last_relayed_time: i64,
    pub max_used_block_height: u32,
    pub max_used_block_id_hash: String,
    pub receive_time: i64,
    pub relayed: bool,
    pub tx_blob: String,
    pub tx_json: String,
    pub weight: u32,
}

} // verus!
