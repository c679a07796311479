//! Where a search box entry leads.
//!
//! The entry is classified by its length in bytes: nothing leads back to the
//! front page; fewer than 8 bytes is a block height, when it reads as a `u32`;
//! 64 bytes is a hash, first tried as a block's, then as a transaction's, each
//! by asking the daemon; 95 or 105 bytes is a wallet address or an integrated
//! address. Everything else leads to the error page.
//!
//! The daemon is asked in between, so the dispatch is a small state machine:
//! `search` gives the first step, `search_after_block_check` the step after the
//! daemon's answer about a block, and `search_after_transaction_check` the
//! route after its answer about a transaction. The questions themselves are
//! `block_check_request` and `transaction_check_request`; only they need the
//! daemon's address.

use vstd::prelude::*;
use vstd::string::StringSliceAdditionalSpecFns;

use crate::data_types::RPCParams;
use crate::rpc::{
    issue_raw_rpc, issue_rpc, is_block_hash_lookup, is_transaction_lookup, lemma_call_predicates, RpcRequest,
};
use crate::parse::{
    all_digits, lemma_digits_value_bounds, lemma_parse_u32_accepts_only_digits, lemma_pow10_monotone, parse_u32, pow10, spec_parse_u32,
    unsigned_part,
};
use crate::rpc::TxHashesQuery;

verus! {

/// A page that a search leads to.
#[derive(Debug, Clone, Copy, PartialEq, Eq, Hash)]
pub enum SearchRoute {
    /// The front page.
    Index,
    /// The block at the height searched for.
    BlockByHeight,
    /// The block with the hash searched for.
    BlockByHash,
    /// The transaction with the hash searched for.
    Transaction,
    /// The wallet address searched for, with its payment QR code.
    WalletAddress,
    /// The error page.
    Error,
}

/// What a search does next.
#[derive(Debug, Clone, PartialEq, Eq, Hash)]
pub enum SearchStep {
    /// Leads to a page: done.
    Redirect(SearchRoute),
    /// Asks the daemon for the block with the hash searched for
    /// (`block_check_request`); its answer goes to `search_after_block_check`.
    CheckBlockHash,
    /// Asks the daemon for the transaction with the hash searched for
    /// (`transaction_check_request`); its answer goes to `search_after_transaction_check`.
    CheckTransactionHash,
}

/// The length in bytes of an entry that is a hash.
pub const HASH_LEN: usize = 64;

/// The length in bytes of a standard wallet address.
pub const ADDRESS_LEN: usize = 95;

/// The length in bytes of an integrated address.
pub const INTEGRATED_ADDRESS_LEN: usize = 105;

/// Entries shorter than this are taken for block heights.
pub const HEIGHT_MAX_LEN: usize = 8;

/// Where an entry whose bytes are `b` leads without asking the daemon
/// (for a hash, see `search_outcome`).
pub open spec fn spec_search_redirect(b: Seq<u8>) -> SearchRoute {
    if b.len() == 0 {
        SearchRoute::Index
    } else if b.len() < HEIGHT_MAX_LEN {
        if spec_parse_u32(b) is Some {
            SearchRoute::BlockByHeight
        } else {
            SearchRoute::Error
        }
    } else if b.len() == ADDRESS_LEN || b.len() == INTEGRATED_ADDRESS_LEN {
        SearchRoute::WalletAddress
    } else {
        SearchRoute::Error
    }
}

/// Where a search for the bytes `b` ends, given whether the daemon knows a block
/// and a transaction with that hash.
pub open spec fn search_outcome(b: Seq<u8>, block_found: bool, tx_found: bool) -> SearchRoute {
    if b.len() == HASH_LEN {
        if block_found {
            SearchRoute::BlockByHash
        } else if tx_found {
            SearchRoute::Transaction
        } else {
            SearchRoute::Error
        }
    } else {
        spec_search_redirect(b)
    }
}

/// The first step of a search for `value`.
pub fn search(value: &str) -> (step: SearchStep)
    ensures
        value.spec_bytes().len() == HASH_LEN ==> step == SearchStep::CheckBlockHash,
        value.spec_bytes().len() != HASH_LEN ==> step == SearchStep::Redirect(
            spec_search_redirect(value.spec_bytes()),
        ),
        step == SearchStep::Redirect(SearchRoute::BlockByHeight) ==> {
            let b = value.spec_bytes();
            &&& 0 < b.len() < 8
            &&& (b[0] == 43 ==> b.len() > 1)
            &&& forall|i: int| 0 <= i < b.len() ==> (48 <= #[trigger] b[i] <= 57 || (i == 0 && b[i] == 43))
        },
        step == SearchStep::Redirect(SearchRoute::WalletAddress) ==> (value.spec_bytes().len() == 95
            || value.spec_bytes().len() == 105),
        step == SearchStep::Redirect(SearchRoute::Index) ==> value.spec_bytes().len() == 0,
        (step == SearchStep::CheckBlockHash) <==> value.spec_bytes().len() == 64,
{
    proof {
        lemma_parse_u32_accepts_only_digits(value.spec_bytes());
    }
    let bytes = value.as_bytes();
    let sl: usize = bytes.len();
    if sl == 0 {
        SearchStep::Redirect(SearchRoute::Index)
    } else if sl < HEIGHT_MAX_LEN {
        match parse_u32(bytes) {
            Some(_) => SearchStep::Redirect(SearchRoute::BlockByHeight),
            None => SearchStep::Redirect(SearchRoute::Error),
        }
    } else if sl == HASH_LEN {
        SearchStep::CheckBlockHash
    } else if sl == ADDRESS_LEN || sl == INTEGRATED_ADDRESS_LEN {
        SearchStep::Redirect(SearchRoute::WalletAddress)
    } else {
        SearchStep::Redirect(SearchRoute::Error)
    }
}

/// The question of a search for the hash `value` to the daemon at `daemon_uri`:
/// does it know a block with that hash?
pub fn block_check_request(daemon_uri: &str, value: &str) -> (r: RpcRequest)
    ensures
        is_block_hash_lookup(r, daemon_uri@, value@),
        r.url@ == daemon_uri@ + "/json_rpc"@,
{
    let params = RPCParams { hash: Some(String::from_str(value)), txs_hashes: None, height: None };
    issue_rpc(daemon_uri, "get_block", Some(params))
}

/// The step of a search for a hash after the daemon answered whether it knows a
/// block with that hash: to that block, or else on to ask for a transaction.
pub fn search_after_block_check(block_found: bool) -> (step: SearchStep)
    ensures
        step == (if block_found {
            SearchStep::Redirect(SearchRoute::BlockByHash)
        } else {
            SearchStep::CheckTransactionHash
        }),
{
    if block_found {
        SearchStep::Redirect(SearchRoute::BlockByHash)
    } else {
        SearchStep::CheckTransactionHash
    }
}

/// The second question of a search for the hash `value` to the daemon at
/// `daemon_uri`: does it know a transaction with that hash?
pub fn transaction_check_request(daemon_uri: &str, value: &str) -> (r: RpcRequest)
    ensures
        is_transaction_lookup(r, daemon_uri@, value@, None),
        r.url@ == daemon_uri@ + "/get_transactions"@,
{
    let mut hashes: Vec<String> = Vec::new();
    hashes.push(String::from_str(value));
    let query = TxHashesQuery { txs_hashes: hashes, decode_as_json: None };
    let r = issue_raw_rpc(daemon_uri, "get_transactions", query);
    proof {
        lemma_call_predicates(r, daemon_uri@, "get_transactions"@, None, r.body, value@, None);
    }
    r
}

/// Where a search for a hash ends after the daemon answered whether it knows a
/// transaction with that hash (it knew no block with it).
pub fn search_after_transaction_check(tx_found: bool) -> (route: SearchRoute)
    ensures
        route == (if tx_found { SearchRoute::Transaction } else { SearchRoute::Error }),
{
    if tx_found {
        SearchRoute::Transaction
    } else {
        SearchRoute::Error
    }
}

/// Each page is reached by exactly the entries the dispatch rules name: the front
/// page by the empty entry alone; a block by hash or a transaction only by a
/// 64-byte entry, as the daemon answers; a wallet address by 95 or 105 bytes; a
/// height by fewer than 8 bytes that read as a `u32`.
pub proof fn lemma_search_outcome_routes(b: Seq<u8>, block_found: bool, tx_found: bool)
    ensures
        (search_outcome(b, block_found, tx_found) == SearchRoute::Index) <==> b.len() == 0,
        (search_outcome(b, block_found, tx_found) == SearchRoute::BlockByHash) <==> (b.len()
            == 64 && block_found),
        (search_outcome(b, block_found, tx_found) == SearchRoute::Transaction) <==> (b.len()
            == 64 && !block_found && tx_found),
        (search_outcome(b, block_found, tx_found) == SearchRoute::WalletAddress) <==> (b.len()
            == 95 || b.len() == 105),
        (search_outcome(b, block_found, tx_found) == SearchRoute::BlockByHeight) <==> (0 < b.len()
            < 8 && spec_parse_u32(b) is Some),
        b.len() != 64 ==> search_outcome(b, block_found, tx_found) == spec_search_redirect(b),
{
}

/// A search for a block height written with up to seven digits, with or without
/// a leading `+`, always leads to that block: such a number always fits a `u32`.
pub proof fn lemma_short_numbers_are_heights(b: Seq<u8>, block_found: bool, tx_found: bool)
    requires
        0 < unsigned_part(b).len(),
        b.len() < HEIGHT_MAX_LEN,
        all_digits(unsigned_part(b)),
    ensures
        search_outcome(b, block_found, tx_found) == SearchRoute::BlockByHeight,
        spec_parse_u32(b) is Some,
{
    let d = unsigned_part(b);
    lemma_digits_value_bounds(d);
    lemma_pow10_monotone(d.len(), 7);
    assert(pow10(7) == 10_000_000) by {
        reveal_with_fuel(pow10, 8);
    }
}

/// A short entry (fewer than 8 bytes) with any byte that is not an ASCII digit,
/// other than a `+` in first place, is no block height: it leads to the error
/// page, whatever the daemon would answer. So does a lone `+`.
pub proof fn lemma_short_non_numbers_are_errors(b: Seq<u8>, i: int, block_found: bool, tx_found: bool)
    requires
        0 < b.len() < 8,
        0 <= i < b.len(),
        !(48 <= b[i] <= 57),
        !(i == 0 && b[i] == 43),
    ensures
        search_outcome(b, block_found, tx_found) == SearchRoute::Error,
        search_outcome(seq![43u8], block_found, tx_found) == SearchRoute::Error,
{
    lemma_parse_u32_accepts_only_digits(b);
    lemma_parse_u32_accepts_only_digits(seq![43u8]);
    assert(!(48 <= b[i] <= 57 || (i == 0 && b[i] == 43)));
}

} // verus!
