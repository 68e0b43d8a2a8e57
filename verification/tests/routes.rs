use btc_rest_gateway::hex::parse_digest;
use btc_rest_gateway::reply::error_reply;
use btc_rest_gateway::reply::reply_for_outcome;
use btc_rest_gateway::reply::route_or_reply;
use btc_rest_gateway::reply::UpstreamError;
use btc_rest_gateway::route::mempool_flag;
use btc_rest_gateway::route::translate;
use btc_rest_gateway::route::Param;
use btc_rest_gateway::route::RouteError;
use btc_rest_gateway::route::RpcCall;

const GENESIS: &str = "000000000019d6689c085ae165831e934ff763ae46a2a6c172b3f1b60a8ce26f";
const COINBASE: &str = "4a5e1e4baab89f3a32518a88c31bc87f618f76673e2cc77ab2127b7afdeda33b";

#[test]
fn literal_routes_translate() {
    assert_eq!(translate("/blockchain/bestblock"), Ok(RpcCall::BestBlockHash));
    assert_eq!(translate("/blockchain/info"), Ok(RpcCall::GetBlockchainInfo));
    assert_eq!(translate("/blockchain/blockcount"), Ok(RpcCall::GetBlockCount));
    assert_eq!(translate("/blockchain/chaintips"), Ok(RpcCall::GetChainTips));
    assert_eq!(translate("/blockchain/difficulty"), Ok(RpcCall::GetDifficulty));
    assert_eq!(translate("/mempool/raw"), Ok(RpcCall::GetRawMempool));
    assert_eq!(translate("/mempool/txoutsetinfo"), Ok(RpcCall::GetTxOutSetInfo));
}

#[test]
fn digest_routes_translate() {
    let hash = parse_digest(GENESIS).unwrap();
    let txid = parse_digest(COINBASE).unwrap();
    let block_path = format!("/blockchain/block/{}", GENESIS);
    assert_eq!(translate(&block_path), Ok(RpcCall::GetBlock { hash: hash.clone() }));
    let filter_path = format!("/blockchain/blockfilter/{}", GENESIS);
    assert_eq!(translate(&filter_path), Ok(RpcCall::GetBlockFilter { hash: hash.clone() }));
    let header_path = format!("/blockchain/blockheader/{}", GENESIS);
    assert_eq!(translate(&header_path), Ok(RpcCall::GetBlockHeader { hash }));
    let entry_path = format!("/mempool/entry/{}", COINBASE);
    assert_eq!(translate(&entry_path), Ok(RpcCall::GetMempoolEntry { txid }));
}

#[test]
fn blockhash_zero_returns_genesis_unmodified() {
    // Scenario: an upstream that maps height 0 to the genesis hash.
    let call = translate("/blockchain/blockhash/0");
    assert_eq!(call, Ok(RpcCall::GetBlockHash { height: 0 }));
    let reply = reply_for_outcome(Ok(String::from(GENESIS)));
    assert_eq!(reply.status, 200);
    assert_eq!(reply.body, GENESIS);
}

#[test]
fn blockhash_translates_exact_height() {
    assert_eq!(translate("/blockchain/blockhash/700000"), Ok(RpcCall::GetBlockHash {
        height: 700000,
    }));
    let body = String::from("00000000000000000590fc0f3eba193a278534220b2b37e9849e1a770ca959eb");
    let reply = reply_for_outcome(Ok(body.clone()));
    assert_eq!(reply.status, 200);
    assert_eq!(reply.body, body);
}

#[test]
fn block_invalid_hex_is_client_error_before_upstream() {
    // Scenario: GET /blockchain/block/zz must fail without an upstream call.
    let r = translate("/blockchain/block/zz");
    assert_eq!(r, Err(RouteError::BadDigest { param: Param::Hash }));
    let reply = error_reply(r.unwrap_err());
    assert_eq!(reply.status, 400);
    assert_eq!(reply.body, "invalid hash: expected 64 hexadecimal characters");
    // route_or_reply yields the reply directly: no call value ever exists.
    let direct = route_or_reply("/blockchain/block/zz");
    assert!(direct.is_err());
    assert_eq!(direct.unwrap_err().status, 400);
}

#[test]
fn every_digest_route_rejects_malformed_digests() {
    let bad = ["zz", "abc", &GENESIS[..63], "g000000000000000000000000000000000000000000000000000000000000000"];
    for b in bad {
        let p = format!("/blockchain/block/{}", b);
        assert_eq!(translate(&p), Err(RouteError::BadDigest { param: Param::Hash }));
        let p = format!("/blockchain/blockfilter/{}", b);
        assert_eq!(translate(&p), Err(RouteError::BadDigest { param: Param::Hash }));
        let p = format!("/blockchain/blockheader/{}", b);
        assert_eq!(translate(&p), Err(RouteError::BadDigest { param: Param::Hash }));
        let p = format!("/mempool/entry/{}", b);
        assert_eq!(translate(&p), Err(RouteError::BadDigest { param: Param::Txid }));
        let p = format!("/blockchain/txout/{}/0/", b);
        assert_eq!(translate(&p), Err(RouteError::BadDigest { param: Param::Txid }));
        let p = format!("/mempool/txout/{}/0/", b);
        assert_eq!(translate(&p), Err(RouteError::BadDigest { param: Param::Txid }));
    }
}

#[test]
fn txout_routes_differ_only_in_mempool_flag() {
    let confirmed = translate(&format!("/blockchain/txout/{}/7/", COINBASE)).unwrap();
    let mempool = translate(&format!("/mempool/txout/{}/7/", COINBASE)).unwrap();
    let txid = parse_digest(COINBASE).unwrap();
    assert_eq!(confirmed, RpcCall::GetTxOut {
        txid: txid.clone(),
        vout: 7,
        include_mempool: false,
    });
    assert_eq!(mempool, RpcCall::GetTxOut { txid, vout: 7, include_mempool: true });
    // The upstream parameter is absent for confirmed-only, true for mempool.
    assert_eq!(mempool_flag(false), None);
    assert_eq!(mempool_flag(true), Some(true));
}

#[test]
fn txout_parameter_errors() {
    let p = format!("/blockchain/txout/{}/abc/", COINBASE);
    assert_eq!(translate(&p), Err(RouteError::BadInteger { param: Param::Vout }));
    let p = format!("/blockchain/txout/{}/4294967296/", COINBASE);
    assert_eq!(translate(&p), Err(RouteError::BadInteger { param: Param::Vout }));
    let p = format!("/mempool/txout/{}/-1/", COINBASE);
    assert_eq!(translate(&p), Err(RouteError::BadInteger { param: Param::Vout }));
    // A vout at the width's top is accepted.
    let p = format!("/blockchain/txout/{}/4294967295/", COINBASE);
    assert!(translate(&p).is_ok());
}

#[test]
fn txout_shape_errors_are_unknown_route() {
    let no_trailing = format!("/blockchain/txout/{}/0", COINBASE);
    assert_eq!(translate(&no_trailing), Err(RouteError::UnknownRoute));
    let empty_vout = format!("/mempool/txout/{}//", COINBASE);
    assert_eq!(translate(&empty_vout), Err(RouteError::UnknownRoute));
    assert_eq!(translate("/blockchain/txout//0/"), Err(RouteError::UnknownRoute));
    let extra_seg = format!("/blockchain/txout/{}/0/1/", COINBASE);
    assert_eq!(translate(&extra_seg), Err(RouteError::UnknownRoute));
}

#[test]
fn height_route_errors() {
    assert_eq!(translate("/blockchain/blockhash/abc"), Err(RouteError::BadInteger {
        param: Param::Height,
    }));
    assert_eq!(translate("/blockchain/blockhash/18446744073709551616"), Err(
        RouteError::BadInteger { param: Param::Height },
    ));
    assert_eq!(translate("/blockchain/blockhash/"), Err(RouteError::UnknownRoute));
    assert_eq!(translate("/blockchain/blockhash/1/2"), Err(RouteError::UnknownRoute));
}

#[test]
fn unmatched_paths_are_unknown_route() {
    for p in ["", "/", "/blockchain", "/blockchain/", "/mempool/rawr", "/api/v1/blockchain/info",
        "/blockchain/bestblock/"] {
        assert_eq!(translate(p), Err(RouteError::UnknownRoute));
    }
    let reply = error_reply(RouteError::UnknownRoute);
    assert_eq!(reply.status, 404);
    assert_eq!(reply.body, "unknown route");
}

#[test]
fn upstream_failure_gives_one_error_reply() {
    let not_found = reply_for_outcome(Err(UpstreamError::NotFound));
    assert_eq!(not_found.status, 404);
    assert_eq!(not_found.body, "upstream: not found");
    let transport = reply_for_outcome(Err(UpstreamError::Transport));
    assert_eq!(transport.status, 502);
    assert_eq!(transport.body, "upstream: transport failure");
}

#[test]
fn requests_complete_independently() {
    // Scenario: two requests in flight against one shared upstream handle;
    // each is translated and answered from its own outcome alone.
    let first = translate("/blockchain/info");
    let second = translate("/mempool/raw");
    assert_eq!(first, Ok(RpcCall::GetBlockchainInfo));
    assert_eq!(second, Ok(RpcCall::GetRawMempool));
    let first_reply = reply_for_outcome(Ok(String::from("{\"chain\":\"main\"}")));
    let second_reply = reply_for_outcome(Ok(String::from("[]")));
    assert_eq!(first_reply.status, 200);
    assert_eq!(first_reply.body, "{\"chain\":\"main\"}");
    assert_eq!(second_reply.status, 200);
    assert_eq!(second_reply.body, "[]");
    // One request's upstream failure leaves the other's reply untouched.
    let failed = reply_for_outcome(Err(UpstreamError::Transport));
    assert_eq!(failed.status, 502);
    assert_eq!(second_reply.status, 200);
}

#[test]
fn digest_route_accepts_uppercase() {
    let upper = GENESIS.to_uppercase();
    let p = format!("/blockchain/block/{}", upper);
    let lower = parse_digest(GENESIS).unwrap();
    assert_eq!(translate(&p), Ok(RpcCall::GetBlock { hash: lower }));
}
