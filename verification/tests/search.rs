use monero_block_explorer::data_types::RPCParams;
use monero_block_explorer::parse::parse_u32;
use monero_block_explorer::rpc::{RpcBody, TxHashesQuery};
use monero_block_explorer::search::{
    block_check_request, search, search_after_block_check, search_after_transaction_check,
    transaction_check_request, SearchRoute, SearchStep,
};

const NODE: &str = "http://h";

fn redirect(route: SearchRoute) -> SearchStep {
    SearchStep::Redirect(route)
}

#[test]
fn parse_u32_accepts_what_from_str_accepts() {
    for s in ["0", "7", "+12", "007", "4294967295", "1234567"] {
        assert_eq!(parse_u32(s.as_bytes()), s.parse::<u32>().ok(), "{}", s);
    }
    assert_eq!(parse_u32(b"+12"), Some(12));
    assert_eq!(parse_u32(b"4294967295"), Some(u32::MAX));
}

#[test]
fn parse_u32_rejects_what_from_str_rejects() {
    for s in ["", "+", "-", "-1", "+-1", "12a", " 1", "1 ", "4294967296", "99999999999", "++1", "1.0"] {
        assert_eq!(parse_u32(s.as_bytes()), None, "{}", s);
        assert!(s.parse::<u32>().is_err(), "{}", s);
    }
}

#[test]
fn empty_search_leads_home() {
    assert_eq!(search(""), redirect(SearchRoute::Index));
}

#[test]
fn short_numbers_are_heights() {
    assert_eq!(search("0"), redirect(SearchRoute::BlockByHeight));
    assert_eq!(search("2000000"), redirect(SearchRoute::BlockByHeight));
    assert_eq!(search("+42"), redirect(SearchRoute::BlockByHeight));
}

#[test]
fn short_non_numbers_are_errors() {
    assert_eq!(search("abc"), redirect(SearchRoute::Error));
    assert_eq!(search("-1"), redirect(SearchRoute::Error));
    assert_eq!(search("+"), redirect(SearchRoute::Error));
}

#[test]
fn eight_digits_are_not_heights() {
    assert_eq!(search("12345678"), redirect(SearchRoute::Error));
}

#[test]
fn hashes_are_checked_as_blocks_first() {
    let hash = "a".repeat(64);
    assert_eq!(search(&hash), SearchStep::CheckBlockHash);
    let r = block_check_request(NODE, &hash);
    assert_eq!(r.url, "http://h/json_rpc");
    match r.body {
        RpcBody::Payload(p) => {
            assert_eq!(p.method.as_deref(), Some("get_block"));
            assert_eq!(p.jsonrpc, "2.0");
            assert_eq!(p.id, "0");
            assert_eq!(p.params, Some(RPCParams { hash: Some(hash.clone()), txs_hashes: None, height: None }));
        }
        other => panic!("unexpected body {:?}", other),
    }
}

#[test]
fn known_block_hash_leads_to_block() {
    assert_eq!(search_after_block_check(true), redirect(SearchRoute::BlockByHash));
}

#[test]
fn unknown_block_hash_is_checked_as_transaction() {
    let hash = "c".repeat(64);
    assert_eq!(search_after_block_check(false), SearchStep::CheckTransactionHash);
    let r = transaction_check_request(NODE, &hash);
    assert_eq!(r.url, "http://h/get_transactions");
    assert_eq!(
        r.body,
        RpcBody::Query(TxHashesQuery { txs_hashes: vec![hash.clone()], decode_as_json: None })
    );
    assert_eq!(search_after_transaction_check(true), SearchRoute::Transaction);
    assert_eq!(search_after_transaction_check(false), SearchRoute::Error);
}

#[test]
fn addresses_lead_to_wallet_page() {
    assert_eq!(search(&"4".repeat(95)), redirect(SearchRoute::WalletAddress));
    assert_eq!(search(&"4".repeat(105)), redirect(SearchRoute::WalletAddress));
}

#[test]
fn other_lengths_are_errors() {
    assert_eq!(search(&"4".repeat(8)), redirect(SearchRoute::Error));
    assert_eq!(search(&"4".repeat(63)), redirect(SearchRoute::Error));
    assert_eq!(search(&"4".repeat(65)), redirect(SearchRoute::Error));
    assert_eq!(search(&"4".repeat(96)), redirect(SearchRoute::Error));
}

#[test]
fn length_counts_bytes_not_characters() {
    // 32 two-byte characters: 64 bytes, so a hash lookup.
    let wide = "é".repeat(32);
    assert_eq!(wide.len(), 64);
    assert_eq!(search(&wide), SearchStep::CheckBlockHash);
    // 4 two-byte characters: 8 bytes, not a height.
    assert_eq!(search(&"é".repeat(4)), redirect(SearchRoute::Error));
}
