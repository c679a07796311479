//! The requests the explorer sends to the daemon: where each goes and what it carries.

use vstd::prelude::*;

use crate::data_types::{RPCParams, RPCPayload, jsonrpc_version, default_call_id};

verus! {

/// The body of a call to one of the daemon's plain (non JSON-RPC) endpoints
/// that look transactions up by hash.
#[derive(Debug, Clone, PartialEq, Eq, Hash)]
pub struct TxHashesQuery {
    pub txs_hashes: Vec<String>,
    /// Absent from the body when `None`.
    pub decode_as_json: Option<bool>,
}

/// What a request sends as its body.
#[derive(Debug, Clone, PartialEq, Eq, Hash)]
pub enum RpcBody {
    /// Nothing: a bare POST.
    Empty,
    /// A JSON-RPC envelope.
    Payload(RPCPayload),
    /// A lookup of transactions by hash.
    Query(TxHashesQuery),
}

/// A POST to the daemon: its address and its body.
#[derive(Debug, Clone, PartialEq, Eq, Hash)]
pub struct RpcRequest {
    pub url: String,
    pub body: RpcBody,
}

/// The view of an optional string.
pub open spec fn opt_view(o: Option<String>) -> Option<Seq<char>> {
    match o {
        Some(s) => Some(s@),
        None => None,
    }
}

/// The address of the daemon's JSON-RPC endpoint.
pub open spec fn json_rpc_url(daemon_uri: Seq<char>) -> Seq<char> {
    daemon_uri + "/json_rpc"@
}

/// The address of one of the daemon's plain endpoints.
pub open spec fn raw_url(daemon_uri: Seq<char>, method: Seq<char>) -> Seq<char> {
    daemon_uri + "/"@ + method
}

/// `p` is the standard envelope of a call to `method` with `params`.
pub open spec fn is_call_payload(p: RPCPayload, method: Seq<char>, params: Option<RPCParams>) -> bool {
    &&& p.jsonrpc@ == jsonrpc_version()
    &&& p.id@ == default_call_id()
    &&& opt_view(p.method) == Some(method)
    &&& p.params == params
}

/// `r` is a JSON-RPC call of `method` with `params` to the daemon at `daemon_uri`.
pub open spec fn is_json_rpc_call(
    r: RpcRequest,
    daemon_uri: Seq<char>,
    method: Seq<char>,
    params: Option<RPCParams>,
) -> bool {
    &&& r.url@ == json_rpc_url(daemon_uri)
    &&& r.body matches RpcBody::Payload(p) && is_call_payload(p, method, params)
}

/// `r` is a call of the plain endpoint `method` of the daemon at `daemon_uri` with `body`.
pub open spec fn is_raw_call(r: RpcRequest, daemon_uri: Seq<char>, method: Seq<char>, body: RpcBody) -> bool {
    &&& r.url@ == raw_url(daemon_uri, method)
    &&& r.body == body
}

/// `q` looks up exactly the one transaction `hash`.
pub open spec fn is_single_hash_query(q: TxHashesQuery, hash: Seq<char>, decode: Option<bool>) -> bool {
    &&& q.txs_hashes@.len() == 1
    &&& q.txs_hashes@[0]@ == hash
    &&& q.decode_as_json == decode
}

/// `r` asks the daemon at `daemon_uri` for the block whose hash is `hash` (`get_block`).
pub open spec fn is_block_hash_lookup(r: RpcRequest, daemon_uri: Seq<char>, hash: Seq<char>) -> bool {
    &&& r.url@ == json_rpc_url(daemon_uri)
    &&& r.body matches RpcBody::Payload(p) && {
        &&& p.jsonrpc@ == jsonrpc_version()
        &&& p.id@ == default_call_id()
        &&& opt_view(p.method) == Some("get_block"@)
        &&& p.params matches Some(ps) && is_hash_params(ps, hash)
    }
}

/// `r` asks the daemon at `daemon_uri` for the one transaction `hash` (`get_transactions`).
pub open spec fn is_transaction_lookup(
    r: RpcRequest,
    daemon_uri: Seq<char>,
    hash: Seq<char>,
    decode: Option<bool>,
) -> bool {
    &&& r.url@ == raw_url(daemon_uri, "get_transactions"@)
    &&& r.body matches RpcBody::Query(q) && is_single_hash_query(q, hash, decode)
}

/// `p` names a block by its hash and by nothing else.
pub open spec fn is_hash_params(p: RPCParams, hash: Seq<char>) -> bool {
    &&& opt_view(p.hash) == Some(hash)
    &&& p.txs_hashes is None
    &&& p.height is None
}

/// `p` names a block by its height and by nothing else.
pub open spec fn is_height_params(p: RPCParams, height: Seq<char>) -> bool {
    &&& p.hash is None
    &&& p.txs_hashes is None
    &&& opt_view(p.height) == Some(height)
}

fn concat(a: &str, b: &str) -> (s: String)
    ensures
        s@ == a@ + b@,
{
    let mut s = String::from_str(a);
    s.append(b);
    s
}

/// A JSON-RPC call of `method` with `params` to the daemon at `daemon_uri`.
pub fn issue_rpc(daemon_uri: &str, method: &str, params: Option<RPCParams>) -> (r: RpcRequest)
    ensures
        is_json_rpc_call(r, daemon_uri@, method@, params),
        r.url@ == daemon_uri@ + "/json_rpc"@,
{
    let url = concat(daemon_uri, "/json_rpc");
    let payload = RPCPayload {
        method: Some(String::from_str(method)),
        params: params,
        ..RPCPayload::default()
    };
    RpcRequest { url, body: RpcBody::Payload(payload) }
}

/// A call of the plain endpoint `method` of the daemon at `daemon_uri`, with `params` as its body.
pub fn issue_raw_rpc(daemon_uri: &str, method: &str, params: TxHashesQuery) -> (r: RpcRequest)
    ensures
        is_raw_call(r, daemon_uri@, method@, RpcBody::Query(params)),
        r.url@ == daemon_uri@ + "/"@ + method@,
{
    let mut url = concat(daemon_uri, "/");
    url.append(method);
    RpcRequest { url, body: RpcBody::Query(params) }
}

/// A call of `method`: to its plain endpoint with `data` as the body when `raw`,
/// else through JSON-RPC without parameters (and then `data` is not sent).
pub fn build_rpc(daemon_uri: &str, method: &str, data: Option<TxHashesQuery>, raw: bool) -> (r: RpcRequest)
    ensures
        raw ==> is_raw_call(
            r,
            daemon_uri@,
            method@,
            match data {
                Some(q) => RpcBody::Query(q),
                None => RpcBody::Empty,
            },
        ),
        !raw ==> is_json_rpc_call(r, daemon_uri@, method@, None),
        raw ==> r.url@ == daemon_uri@ + "/"@ + method@,
        !raw ==> r.url@ == daemon_uri@ + "/json_rpc"@,
{
    if raw {
        let mut url = concat(daemon_uri, "/");
        url.append(method);
        let body = match data {
            Some(q) => RpcBody::Query(q),
            None => RpcBody::Empty,
        };
        RpcRequest { url, body }
    } else {
        issue_rpc(daemon_uri, method, None)
    }
}

/// The lookup of a block by `hash` (the page of a block found by hash).
pub fn get_block_by_hash_request(daemon_uri: &str, block_hash: String) -> (r: RpcRequest)
    ensures
        is_block_hash_lookup(r, daemon_uri@, block_hash@),
        r.url@ == daemon_uri@ + "/json_rpc"@,
{
    let params = RPCParams { hash: Some(block_hash), ..RPCParams::default() };
    issue_rpc(daemon_uri, "get_block", Some(params))
}

/// The lookup of a block by `height` (the page of a block found by height).
pub fn get_block_by_height_request(daemon_uri: &str, block_height: String) -> (r: RpcRequest)
    ensures
        r.url@ == json_rpc_url(daemon_uri@),
        r.url@ == daemon_uri@ + "/json_rpc"@,
        r.body matches RpcBody::Payload(p) && {
            &&& p.jsonrpc@ == jsonrpc_version()
            &&& p.id@ == default_call_id()
            &&& opt_view(p.method) == Some("get_block"@)
            &&& p.params matches Some(ps) && is_height_params(ps, block_height@)
        },
{
    let params = RPCParams { height: Some(block_height), ..RPCParams::default() };
    issue_rpc(daemon_uri, "get_block", Some(params))
}

/// The lookup of one transaction, decoded as JSON (the page of a transaction).
pub fn get_transaction_by_hash_request(daemon_uri: &str, tx_hash: String) -> (r: RpcRequest)
    ensures
        is_transaction_lookup(r, daemon_uri@, tx_hash@, Some(true)),
        r.url@ == daemon_uri@ + "/get_transactions"@,
{
    let mut hashes: Vec<String> = Vec::new();
    hashes.push(tx_hash);
    let query = TxHashesQuery { txs_hashes: hashes, decode_as_json: Some(true) };
    let r = issue_raw_rpc(daemon_uri, "get_transactions", query);
    proof {
        reveal_strlit("/");
        reveal_strlit("get_transactions");
        reveal_strlit("/get_transactions");
        assert("/"@ + "get_transactions"@ =~= "/get_transactions"@);
        lemma_slash_join(daemon_uri@, "get_transactions"@, "/get_transactions"@);
    }
    r
}

/// The listing of the transaction pool: a bare call of its plain endpoint.
pub fn transaction_pool_request(daemon_uri: &str) -> (r: RpcRequest)
    ensures
        is_raw_call(r, daemon_uri@, "get_transaction_pool"@, RpcBody::Empty),
        r.url@ == daemon_uri@ + "/get_transaction_pool"@,
{
    let r = build_rpc(daemon_uri, "get_transaction_pool", None, true);
    proof {
        reveal_strlit("/");
        reveal_strlit("get_transaction_pool");
        reveal_strlit("/get_transaction_pool");
        assert("/"@ + "get_transaction_pool"@ =~= "/get_transaction_pool"@);
        lemma_slash_join(daemon_uri@, "get_transaction_pool"@, "/get_transaction_pool"@);
    }
    r
}

/// The daemon's state: a JSON-RPC call of `get_info` without parameters.
pub fn daemon_info_request(daemon_uri: &str) -> (r: RpcRequest)
    ensures
        is_json_rpc_call(r, daemon_uri@, "get_info"@, None),
        r.url@ == daemon_uri@ + "/json_rpc"@,
{
    issue_rpc(daemon_uri, "get_info", None)
}

/// An address, a `/` and a method are the address followed by `path`, where `path`
/// is the `/` and the method written out together.
proof fn lemma_slash_join(daemon_uri: Seq<char>, method: Seq<char>, path: Seq<char>)
    requires
        path == "/"@ + method,
    ensures
        daemon_uri + "/"@ + method == daemon_uri + path,
{
    assert(daemon_uri + "/"@ + method =~= daemon_uri + path);
}

/// The JSON-RPC endpoint of every daemon is its whole address followed by
/// `/json_rpc`: the address is kept intact as a prefix, and nothing else is added.
pub proof fn lemma_json_rpc_url(daemon_uri: Seq<char>)
    ensures
        json_rpc_url(daemon_uri) == daemon_uri + "/json_rpc"@,
        json_rpc_url(daemon_uri).len() == daemon_uri.len() + 9,
        json_rpc_url(daemon_uri).subrange(0, daemon_uri.len() as int) == daemon_uri,
        json_rpc_url(daemon_uri).subrange(daemon_uri.len() as int, daemon_uri.len() + 9int)
            == "/json_rpc"@,
{
    reveal_strlit("/json_rpc");
    let u = daemon_uri + "/json_rpc"@;
    assert(u.subrange(0, daemon_uri.len() as int) =~= daemon_uri);
    assert(u.subrange(daemon_uri.len() as int, daemon_uri.len() + 9int) =~= "/json_rpc"@);
}

/// A plain endpoint of every daemon is its whole address, a `/`, then the whole
/// method name: the URL starts with the address, has `/` right after it, and ends
/// with the method.
pub proof fn lemma_raw_url(daemon_uri: Seq<char>, method: Seq<char>)
    ensures
        raw_url(daemon_uri, method) == daemon_uri + "/"@ + method,
        raw_url(daemon_uri, method).len() == daemon_uri.len() + 1 + method.len(),
        raw_url(daemon_uri, method).subrange(0, daemon_uri.len() as int) == daemon_uri,
        raw_url(daemon_uri, method)[daemon_uri.len() as int] == '/',
        raw_url(daemon_uri, method).subrange(daemon_uri.len() + 1int, daemon_uri.len() + 1int + method.len())
            == method,
{
    reveal_strlit("/");
    let u = daemon_uri + "/"@ + method;
    assert(u.subrange(0, daemon_uri.len() as int) =~= daemon_uri);
    assert(u.subrange(daemon_uri.len() + 1int, daemon_uri.len() + 1int + method.len()) =~= method);
}

/// What the call predicates promise of a request, in plain terms: a JSON-RPC call
/// goes to the address followed by `/json_rpc` with the envelope "2.0" / "0" /
/// method / parameters; a plain call goes to the address, `/`, and the method, with
/// exactly the given body; the block and transaction lookups go to `/json_rpc`
/// and `/get_transactions` and name exactly the hash asked for.
pub proof fn lemma_call_predicates(
    r: RpcRequest,
    daemon_uri: Seq<char>,
    method: Seq<char>,
    params: Option<RPCParams>,
    body: RpcBody,
    hash: Seq<char>,
    decode: Option<bool>,
)
    ensures
        is_json_rpc_call(r, daemon_uri, method, params) ==> {
            &&& r.url@ == daemon_uri + "/json_rpc"@
            &&& r.body matches RpcBody::Payload(p) && {
                &&& p.jsonrpc@ == "2.0"@
                &&& p.id@ == "0"@
                &&& p.method matches Some(m) && m@ == method
                &&& p.params == params
            }
        },
        is_raw_call(r, daemon_uri, method, body) ==> r.url@ == daemon_uri + "/"@ + method && r.body
            == body,
        is_block_hash_lookup(r, daemon_uri, hash) ==> {
            &&& r.url@ == daemon_uri + "/json_rpc"@
            &&& r.body matches RpcBody::Payload(p) && {
                &&& p.jsonrpc@ == "2.0"@
                &&& p.id@ == "0"@
                &&& p.method matches Some(m) && m@ == "get_block"@
                &&& p.params matches Some(ps) && (ps.hash matches Some(h) && h@ == hash)
                    && ps.txs_hashes is None && ps.height is None
            }
        },
        is_transaction_lookup(r, daemon_uri, hash, decode) ==> {
            &&& r.url@ == daemon_uri + "/get_transactions"@
            &&& r.body matches RpcBody::Query(q) && q.txs_hashes@.len() == 1 && q.txs_hashes@[0]@
                == hash && q.decode_as_json == decode
        },
{
    lemma_json_rpc_url(daemon_uri);
    lemma_raw_url(daemon_uri, method);
    lemma_raw_url(daemon_uri, "get_transactions"@);
    reveal_strlit("/");
    reveal_strlit("get_transactions");
    reveal_strlit("/get_transactions");
    assert("/"@ + "get_transactions"@ =~= "/get_transactions"@);
    lemma_slash_join(daemon_uri, "get_transactions"@, "/get_transactions"@);
    crate::data_types::lemma_call_envelope_constants();
}

} // verus!
