use rpc_checker::check;
use rpc_checker::check_step;
use rpc_checker::types::BasicAuth;
use rpc_checker::types::BitcoinMethod;
use rpc_checker::types::CheckResult;
use rpc_checker::types::CheckState;
use rpc_checker::types::Command;
use rpc_checker::types::HttpEvent;
use rpc_checker::types::HttpRequest;
use rpc_checker::types::ResultData;
use rpc_checker::types::Step;

const RPC: &str = "http://node:1234";

fn auth() -> BasicAuth {
    BasicAuth { user: "u".to_string(), pass: "p".to_string() }
}

fn ok(body: &str) -> HttpEvent {
    HttpEvent::Response { status: 200, body: body.to_string() }
}

fn done(step: Step) -> CheckResult {
    match step {
        Step::Done { result } => result,
        Step::Pending { .. } => panic!("expected a settled check"),
    }
}

fn pending(step: Step) -> (CheckState, HttpRequest) {
    match step {
        Step::Pending { state, request } => (state, request),
        Step::Done { .. } => panic!("expected a pending request"),
    }
}

fn post_body(request: HttpRequest) -> String {
    match request {
        HttpRequest::Post { body, .. } => body,
        HttpRequest::Get { .. } => panic!("expected a POST"),
    }
}

#[test]
fn tendermint_status_reads_sync_info() {
    let body = "{\"result\":{\"sync_info\":{\"latest_block_height\":\"100\",\"catching_up\":false}}}";
    let r = done(check_step(CheckState::TendermintStatus, RPC, &auth(), ok(body)));
    assert_eq!(r.protocol, "tendermint");
    assert_eq!(r.rpc, RPC);
    assert!(r.reachable);
    assert_eq!(
        r.result,
        Some(ResultData::Status { latest_block: Some(100), syncing: Some(false) })
    );
    assert_eq!(r.error, None);
}

#[test]
fn tendermint_status_tolerates_missing_fields() {
    let r = done(check_step(CheckState::TendermintStatus, RPC, &auth(), ok("{}")));
    assert!(r.reachable);
    assert_eq!(r.result, Some(ResultData::Status { latest_block: None, syncing: None }));
    assert_eq!(r.error, None);
}

#[test]
fn tendermint_status_rejects_non_numeric_height() {
    let body = "{\"result\":{\"sync_info\":{\"latest_block_height\":\"10x\",\"catching_up\":true}}}";
    let r = done(check_step(CheckState::TendermintStatus, RPC, &auth(), ok(body)));
    assert_eq!(r.result, Some(ResultData::Status { latest_block: None, syncing: Some(true) }));
}

#[test]
fn tendermint_health_succeeds_on_2xx() {
    let r = done(check_step(CheckState::TendermintHealth, RPC, &auth(), ok("{}")));
    assert!(r.reachable);
    assert_eq!(r.result, Some(ResultData::Health { healthy: true }));
    assert_eq!(r.error, None);
}

#[test]
fn tendermint_health_reports_http_failure_with_payload() {
    let event = HttpEvent::Response { status: 404, body: String::new() };
    let r = done(check_step(CheckState::TendermintHealth, RPC, &auth(), event));
    assert!(!r.reachable);
    assert_eq!(r.result, Some(ResultData::Health { healthy: false }));
    assert_eq!(r.error.as_deref(), Some("HTTP 404"));
}

#[test]
fn tendermint_block_reads_header_height() {
    let body = "{\"result\":{\"block\":{\"header\":{\"height\":\"7\"}}}}";
    let r = done(check_step(CheckState::TendermintBlock, RPC, &auth(), ok(body)));
    assert!(r.reachable);
    assert_eq!(r.result, Some(ResultData::Block { height: Some(7) }));
}

#[test]
fn http_failure_reports_status_code() {
    for state in [CheckState::TendermintStatus, CheckState::EthereumSyncing, CheckState::BitcoinStatus] {
        let event = HttpEvent::Response { status: 500, body: "{}".to_string() };
        let r = done(check_step(state, RPC, &auth(), event));
        assert!(!r.reachable);
        assert_eq!(r.error.as_deref(), Some("HTTP 500"));
        assert_eq!(r.result, None);
    }
}

#[test]
fn invalid_json_reports_prefixed_error() {
    for state in [
        CheckState::TendermintStatus,
        CheckState::EthereumBlock,
        CheckState::BitcoinStatus,
        CheckState::BitcoinInfo,
    ] {
        let r = done(check_step(state, RPC, &auth(), ok("not json")));
        assert!(!r.reachable);
        assert_eq!(r.result, None);
        let msg = r.error.expect("an unparseable body carries an error");
        assert!(msg.starts_with("Invalid JSON:"), "unexpected error text: {}", msg);
    }
}

#[test]
fn transport_failure_reports_nonempty_error() {
    let states = [
        CheckState::TendermintStatus,
        CheckState::TendermintBlock,
        CheckState::EthereumSyncing,
        CheckState::EthereumBlockNumber { syncing: true },
        CheckState::EthereumBlock,
        CheckState::BitcoinStatus,
        CheckState::BitcoinInfo,
        CheckState::BitcoinHash { height: 42 },
        CheckState::BitcoinHeader,
    ];
    for state in states {
        let event = HttpEvent::Failure { error: "connection refused".to_string() };
        let r = done(check_step(state, RPC, &auth(), event));
        assert!(!r.reachable);
        assert_eq!(r.result, None);
        assert_eq!(r.error.as_deref(), Some("connection refused"));
    }
}

#[test]
fn transport_failure_never_leaves_error_empty() {
    let event = HttpEvent::Failure { error: String::new() };
    let r = done(check_step(CheckState::TendermintStatus, RPC, &auth(), event));
    assert_eq!(r.error.as_deref(), Some("transport error"));
}

#[test]
fn transport_failure_on_health_keeps_unhealthy_payload() {
    for state in [CheckState::TendermintHealth, CheckState::EthereumHealth, CheckState::BitcoinHealth] {
        let event = HttpEvent::Failure { error: "connection refused".to_string() };
        let r = done(check_step(state, RPC, &auth(), event));
        assert!(!r.reachable);
        assert_eq!(r.result, Some(ResultData::Health { healthy: false }));
        assert_eq!(r.error.as_deref(), Some("connection refused"));
    }
}

#[test]
fn ethereum_status_chains_both_calls() {
    let step = check(Command::Ethereum(rpc_checker::types::EthereumMethod::Status), RPC, &auth());
    let (state, _) = pending(step);
    assert_eq!(state, CheckState::EthereumSyncing);

    let syncing_body = "{\"jsonrpc\":\"2.0\",\"id\":1,\"result\":{\"currentBlock\":\"0x1\"}}";
    let (state, request) = pending(check_step(state, RPC, &auth(), ok(syncing_body)));
    assert_eq!(state, CheckState::EthereumBlockNumber { syncing: true });
    assert_eq!(
        post_body(request),
        "{\"jsonrpc\":\"2.0\",\"method\":\"eth_blockNumber\",\"params\":[],\"id\":2}"
    );

    let number_body = "{\"jsonrpc\":\"2.0\",\"id\":2,\"result\":\"0x64\"}";
    let r = done(check_step(state, RPC, &auth(), ok(number_body)));
    assert_eq!(r.protocol, "ethereum");
    assert!(r.reachable);
    assert_eq!(r.result, Some(ResultData::Status { latest_block: Some(100), syncing: Some(true) }));
    assert_eq!(r.error, None);
}

#[test]
fn ethereum_syncing_false_is_not_an_object() {
    let body = "{\"jsonrpc\":\"2.0\",\"id\":1,\"result\":false}";
    let (state, _) = pending(check_step(CheckState::EthereumSyncing, RPC, &auth(), ok(body)));
    assert_eq!(state, CheckState::EthereumBlockNumber { syncing: false });
}

#[test]
fn ethereum_health_follows_result_presence() {
    let r = done(check_step(CheckState::EthereumHealth, RPC, &auth(), ok("{\"result\":\"0x1\"}")));
    assert!(r.reachable);
    assert_eq!(r.result, Some(ResultData::Health { healthy: true }));
    assert_eq!(r.error, None);

    let r = done(check_step(CheckState::EthereumHealth, RPC, &auth(), ok("{\"error\":\"nope\"}")));
    assert!(!r.reachable);
    assert_eq!(r.result, Some(ResultData::Health { healthy: false }));
    assert_eq!(r.error, None);
}

#[test]
fn ethereum_health_http_failure_keeps_payload() {
    let event = HttpEvent::Response { status: 503, body: String::new() };
    let r = done(check_step(CheckState::EthereumHealth, RPC, &auth(), event));
    assert!(!r.reachable);
    assert_eq!(r.result, Some(ResultData::Health { healthy: false }));
    assert_eq!(r.error.as_deref(), Some("HTTP 503"));
}

#[test]
fn ethereum_block_decodes_hex_number() {
    let body = "{\"result\":{\"number\":\"0x12345678\"}}";
    let r = done(check_step(CheckState::EthereumBlock, RPC, &auth(), ok(body)));
    assert!(r.reachable);
    assert_eq!(r.result, Some(ResultData::Block { height: Some(305419896) }));
}

#[test]
fn ethereum_block_without_number_is_unreachable() {
    let r = done(check_step(CheckState::EthereumBlock, RPC, &auth(), ok("{\"result\":{}}")));
    assert!(!r.reachable);
    assert_eq!(r.result, Some(ResultData::Block { height: None }));
    assert_eq!(r.error, None);
}

#[test]
fn bitcoin_status_reports_lag_as_syncing() {
    let body = "{\"result\":{\"blocks\":42,\"headers\":43}}";
    let r = done(check_step(CheckState::BitcoinStatus, RPC, &auth(), ok(body)));
    assert!(r.reachable);
    assert_eq!(r.result, Some(ResultData::Status { latest_block: Some(42), syncing: Some(true) }));

    let body = "{\"result\":{\"blocks\":43,\"headers\":43}}";
    let r = done(check_step(CheckState::BitcoinStatus, RPC, &auth(), ok(body)));
    assert_eq!(r.result, Some(ResultData::Status { latest_block: Some(43), syncing: Some(false) }));
}

#[test]
fn bitcoin_status_without_headers_reports_no_syncing() {
    let body = "{\"result\":{\"blocks\":42}}";
    let r = done(check_step(CheckState::BitcoinStatus, RPC, &auth(), ok(body)));
    assert_eq!(r.result, Some(ResultData::Status { latest_block: Some(42), syncing: None }));
}

#[test]
fn bitcoin_health_follows_result_presence() {
    let r = done(check_step(CheckState::BitcoinHealth, RPC, &auth(), ok("{\"result\":{}}")));
    assert!(r.reachable);
    assert_eq!(r.result, Some(ResultData::Health { healthy: true }));

    let event = HttpEvent::Response { status: 401, body: String::new() };
    let r = done(check_step(CheckState::BitcoinHealth, RPC, &auth(), event));
    assert!(!r.reachable);
    assert_eq!(r.result, Some(ResultData::Health { healthy: false }));
    assert_eq!(r.error.as_deref(), Some("HTTP 401"));
}

#[test]
fn bitcoin_block_by_latest_chains_three_calls() {
    let step = check(Command::Bitcoin(BitcoinMethod::Block { height: None }), RPC, &auth());
    let (state, request) = pending(step);
    assert_eq!(state, CheckState::BitcoinInfo);
    assert_eq!(
        post_body(request),
        "{\"jsonrpc\":\"1.0\",\"id\":\"rpc-checker\",\"method\":\"getblockchaininfo\",\"params\":[]}"
    );

    let info_body = "{\"result\":{\"blocks\":42,\"headers\":42}}";
    let (state, request) = pending(check_step(state, RPC, &auth(), ok(info_body)));
    assert_eq!(state, CheckState::BitcoinHash { height: 42 });
    assert_eq!(
        post_body(request),
        "{\"jsonrpc\":\"1.0\",\"id\":\"rpc-checker\",\"method\":\"getblockhash\",\"params\":[42]}"
    );

    let hash_body = "{\"result\":\"00000000839a8e6886ab5951d76f4114\"}";
    let (state, request) = pending(check_step(state, RPC, &auth(), ok(hash_body)));
    assert_eq!(state, CheckState::BitcoinHeader);
    assert_eq!(
        post_body(request),
        "{\"jsonrpc\":\"1.0\",\"id\":\"rpc-checker\",\"method\":\"getblockheader\",\"params\":[\"00000000839a8e6886ab5951d76f4114\"]}"
    );

    let header_body = "{\"result\":{\"height\":43}}";
    let r = done(check_step(state, RPC, &auth(), ok(header_body)));
    assert_eq!(r.protocol, "bitcoin");
    assert!(r.reachable);
    assert_eq!(r.result, Some(ResultData::Block { height: Some(43) }));
    assert_eq!(r.error, None);
}

#[test]
fn bitcoin_block_fails_without_latest_height() {
    let r = done(check_step(CheckState::BitcoinInfo, RPC, &auth(), ok("{\"result\":{}}")));
    assert!(!r.reachable);
    assert_eq!(r.result, None);
    assert_eq!(r.error.as_deref(), Some("Missing latest block height"));
}

#[test]
fn bitcoin_block_fails_without_hash() {
    let r = done(check_step(CheckState::BitcoinHash { height: 42 }, RPC, &auth(), ok("{\"result\":5}")));
    assert!(!r.reachable);
    assert_eq!(r.result, None);
    assert_eq!(r.error.as_deref(), Some("Missing block hash"));
}

#[test]
fn bitcoin_header_without_height_is_unreachable() {
    let r = done(check_step(CheckState::BitcoinHeader, RPC, &auth(), ok("{\"result\":{}}")));
    assert!(!r.reachable);
    assert_eq!(r.result, Some(ResultData::Block { height: None }));
    assert_eq!(r.error, None);
}
