use monero_block_explorer::data_types::{RPCParams, RPCPayload};
use monero_block_explorer::rpc::{
    build_rpc, daemon_info_request, get_block_by_hash_request, get_block_by_height_request,
    get_transaction_by_hash_request, issue_raw_rpc, issue_rpc, transaction_pool_request,
    RpcBody, TxHashesQuery,
};
use monero_block_explorer::status::{error, not_found};

const NODE: &str = "http://node.supportxmr.com:18081";

fn payload(body: RpcBody) -> RPCPayload {
    match body {
        RpcBody::Payload(p) => p,
        other => panic!("expected a JSON-RPC envelope, got {:?}", other),
    }
}

#[test]
fn default_payload_is_version_2_id_0() {
    let p = RPCPayload::default();
    assert_eq!(p.jsonrpc, "2.0");
    assert_eq!(p.id, "0");
    assert_eq!(p.method, None);
    assert_eq!(p.params, None);
}

#[test]
fn default_params_are_empty() {
    let p = RPCParams::default();
    assert_eq!(p, RPCParams { hash: None, txs_hashes: None, height: None });
}

#[test]
fn issue_rpc_posts_to_json_rpc_endpoint() {
    let params = RPCParams { hash: Some("ab".to_string()), ..RPCParams::default() };
    let r = issue_rpc(NODE, "get_block", Some(params.clone()));
    assert_eq!(r.url, "http://node.supportxmr.com:18081/json_rpc");
    let p = payload(r.body);
    assert_eq!(p.jsonrpc, "2.0");
    assert_eq!(p.id, "0");
    assert_eq!(p.method.as_deref(), Some("get_block"));
    assert_eq!(p.params, Some(params));
}

#[test]
fn issue_raw_rpc_posts_to_method_endpoint() {
    let q = TxHashesQuery { txs_hashes: vec!["cd".to_string()], decode_as_json: None };
    let r = issue_raw_rpc(NODE, "get_transactions", q.clone());
    assert_eq!(r.url, "http://node.supportxmr.com:18081/get_transactions");
    assert_eq!(r.body, RpcBody::Query(q));
}

#[test]
fn build_rpc_raw_without_data_is_bare() {
    let r = build_rpc(NODE, "get_transaction_pool", None, true);
    assert_eq!(r.url, "http://node.supportxmr.com:18081/get_transaction_pool");
    assert_eq!(r.body, RpcBody::Empty);
}

#[test]
fn build_rpc_raw_with_data_sends_it() {
    let q = TxHashesQuery { txs_hashes: vec!["ef".to_string()], decode_as_json: Some(true) };
    let r = build_rpc(NODE, "get_transactions", Some(q.clone()), true);
    assert_eq!(r.url, "http://node.supportxmr.com:18081/get_transactions");
    assert_eq!(r.body, RpcBody::Query(q));
}

#[test]
fn build_rpc_json_ignores_data() {
    let q = TxHashesQuery { txs_hashes: vec!["ef".to_string()], decode_as_json: None };
    let r = build_rpc(NODE, "get_info", Some(q), false);
    assert_eq!(r.url, "http://node.supportxmr.com:18081/json_rpc");
    let p = payload(r.body);
    assert_eq!(p.method.as_deref(), Some("get_info"));
    assert_eq!(p.params, None);
    assert_eq!(p.jsonrpc, "2.0");
}

#[test]
fn block_by_hash_request_names_the_hash() {
    let r = get_block_by_hash_request("http://h", "abc".to_string());
    assert_eq!(r.url, "http://h/json_rpc");
    let p = payload(r.body);
    assert_eq!(p.method.as_deref(), Some("get_block"));
    assert_eq!(p.params, Some(RPCParams { hash: Some("abc".to_string()), txs_hashes: None, height: None }));
}

#[test]
fn block_by_height_request_names_the_height() {
    let r = get_block_by_height_request("http://h", "1000".to_string());
    assert_eq!(r.url, "http://h/json_rpc");
    let p = payload(r.body);
    assert_eq!(p.method.as_deref(), Some("get_block"));
    assert_eq!(p.params, Some(RPCParams { hash: None, txs_hashes: None, height: Some("1000".to_string()) }));
}

#[test]
fn transaction_request_decodes_as_json() {
    let r = get_transaction_by_hash_request("http://h", "tx1".to_string());
    assert_eq!(r.url, "http://h/get_transactions");
    assert_eq!(
        r.body,
        RpcBody::Query(TxHashesQuery { txs_hashes: vec!["tx1".to_string()], decode_as_json: Some(true) })
    );
}

#[test]
fn pool_and_info_requests() {
    let r = transaction_pool_request("http://h");
    assert_eq!(r.url, "http://h/get_transaction_pool");
    assert_eq!(r.body, RpcBody::Empty);
    let r = daemon_info_request("http://h");
    assert_eq!(r.url, "http://h/json_rpc");
    let p = payload(r.body);
    assert_eq!(p.method.as_deref(), Some("get_info"));
    assert_eq!(p.params, None);
}

#[test]
fn error_and_not_found_answers() {
    let e = error();
    assert_eq!(e.status, "error");
    assert_eq!(e.reason, "There was an error while searching the provided values.");
    let n = not_found();
    assert_eq!(n.status, "error");
    assert_eq!(n.reason, "Resource was not found.");
}
