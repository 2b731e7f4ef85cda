use rpc_checker::check;
use rpc_checker::parse_command;
use rpc_checker::parse_protocol;
use rpc_checker::types::BasicAuth;
use rpc_checker::types::BitcoinMethod;
use rpc_checker::types::CheckState;
use rpc_checker::types::Command;
use rpc_checker::types::EthereumMethod;
use rpc_checker::types::HttpRequest;
use rpc_checker::types::Protocol;
use rpc_checker::types::Step;
use rpc_checker::types::TendermintMethod;

fn auth() -> BasicAuth {
    BasicAuth { user: "rpcuser".to_string(), pass: "rpcpass".to_string() }
}

fn pending(step: Step) -> (CheckState, HttpRequest) {
    match step {
        Step::Pending { state, request } => (state, request),
        Step::Done { .. } => panic!("expected a pending request"),
    }
}

#[test]
fn tendermint_status_plans_get() {
    let step = check(Command::Tendermint(TendermintMethod::Status), "http://n:26657", &auth());
    let (state, request) = pending(step);
    assert_eq!(state, CheckState::TendermintStatus);
    match request {
        HttpRequest::Get { url } => assert_eq!(url, "http://n:26657/status"),
        HttpRequest::Post { .. } => panic!("expected a GET"),
    }
}

#[test]
fn tendermint_health_plans_get() {
    let step = check(Command::Tendermint(TendermintMethod::Health), "http://n:26657", &auth());
    let (state, request) = pending(step);
    assert_eq!(state, CheckState::TendermintHealth);
    match request {
        HttpRequest::Get { url } => assert_eq!(url, "http://n:26657/health"),
        HttpRequest::Post { .. } => panic!("expected a GET"),
    }
}

#[test]
fn tendermint_block_latest_plans_get() {
    let step = check(
        Command::Tendermint(TendermintMethod::Block { height: None }),
        "http://n:26657",
        &auth(),
    );
    let (state, request) = pending(step);
    assert_eq!(state, CheckState::TendermintBlock);
    match request {
        HttpRequest::Get { url } => assert_eq!(url, "http://n:26657/block"),
        HttpRequest::Post { .. } => panic!("expected a GET"),
    }
}

#[test]
fn tendermint_block_height_plans_query() {
    let step = check(
        Command::Tendermint(TendermintMethod::Block { height: Some(7) }),
        "http://n:26657",
        &auth(),
    );
    let (_, request) = pending(step);
    match request {
        HttpRequest::Get { url } => assert_eq!(url, "http://n:26657/block?height=7"),
        HttpRequest::Post { .. } => panic!("expected a GET"),
    }
}

#[test]
fn ethereum_status_plans_syncing_call() {
    let step = check(Command::Ethereum(EthereumMethod::Status), "http://n:8545", &auth());
    let (state, request) = pending(step);
    assert_eq!(state, CheckState::EthereumSyncing);
    match request {
        HttpRequest::Post { url, body, auth } => {
            assert_eq!(url, "http://n:8545");
            assert_eq!(body, "{\"jsonrpc\":\"2.0\",\"method\":\"eth_syncing\",\"params\":[],\"id\":1}");
            assert!(auth.is_none());
        },
        HttpRequest::Get { .. } => panic!("expected a POST"),
    }
}

#[test]
fn ethereum_health_plans_chain_id_call() {
    let step = check(Command::Ethereum(EthereumMethod::Health), "http://n:8545", &auth());
    let (state, request) = pending(step);
    assert_eq!(state, CheckState::EthereumHealth);
    match request {
        HttpRequest::Post { body, .. } => {
            assert_eq!(body, "{\"jsonrpc\":\"2.0\",\"method\":\"eth_chainId\",\"params\":[],\"id\":1}");
        },
        HttpRequest::Get { .. } => panic!("expected a POST"),
    }
}

#[test]
fn ethereum_block_height_encodes_hex_param() {
    let step = check(
        Command::Ethereum(EthereumMethod::Block { height: Some(305419896) }),
        "http://n:8545",
        &auth(),
    );
    let (state, request) = pending(step);
    assert_eq!(state, CheckState::EthereumBlock);
    match request {
        HttpRequest::Post { body, .. } => {
            assert_eq!(
                body,
                "{\"jsonrpc\":\"2.0\",\"method\":\"eth_getBlockByNumber\",\"params\":[\"0x12345678\",false],\"id\":1}"
            );
        },
        HttpRequest::Get { .. } => panic!("expected a POST"),
    }
}

#[test]
fn ethereum_block_latest_uses_latest_param() {
    let step = check(
        Command::Ethereum(EthereumMethod::Block { height: None }),
        "http://n:8545",
        &auth(),
    );
    let (_, request) = pending(step);
    match request {
        HttpRequest::Post { body, .. } => {
            assert_eq!(
                body,
                "{\"jsonrpc\":\"2.0\",\"method\":\"eth_getBlockByNumber\",\"params\":[\"latest\",false],\"id\":1}"
            );
        },
        HttpRequest::Get { .. } => panic!("expected a POST"),
    }
}

#[test]
fn bitcoin_status_plans_authenticated_post() {
    let step = check(Command::Bitcoin(BitcoinMethod::Status), "http://n:8332", &auth());
    let (state, request) = pending(step);
    assert_eq!(state, CheckState::BitcoinStatus);
    match request {
        HttpRequest::Post { url, body, auth } => {
            assert_eq!(url, "http://n:8332");
            assert_eq!(
                body,
                "{\"jsonrpc\":\"1.0\",\"id\":\"rpc-checker\",\"method\":\"getblockchaininfo\",\"params\":[]}"
            );
            let a = auth.expect("bitcoin calls carry basic auth");
            assert_eq!(a.user, "rpcuser");
            assert_eq!(a.pass, "rpcpass");
        },
        HttpRequest::Get { .. } => panic!("expected a POST"),
    }
}

#[test]
fn bitcoin_health_plans_networkinfo() {
    let step = check(Command::Bitcoin(BitcoinMethod::Health), "http://n:8332", &auth());
    let (state, request) = pending(step);
    assert_eq!(state, CheckState::BitcoinHealth);
    match request {
        HttpRequest::Post { body, .. } => {
            assert_eq!(
                body,
                "{\"jsonrpc\":\"1.0\",\"id\":\"rpc-checker\",\"method\":\"getnetworkinfo\",\"params\":[]}"
            );
        },
        HttpRequest::Get { .. } => panic!("expected a POST"),
    }
}

#[test]
fn bitcoin_block_with_height_skips_info_call() {
    let step = check(
        Command::Bitcoin(BitcoinMethod::Block { height: Some(42) }),
        "http://n:8332",
        &auth(),
    );
    let (state, request) = pending(step);
    assert_eq!(state, CheckState::BitcoinHash { height: 42 });
    match request {
        HttpRequest::Post { body, .. } => {
            assert_eq!(
                body,
                "{\"jsonrpc\":\"1.0\",\"id\":\"rpc-checker\",\"method\":\"getblockhash\",\"params\":[42]}"
            );
        },
        HttpRequest::Get { .. } => panic!("expected a POST"),
    }
}

#[test]
fn bitcoin_block_latest_opens_with_info_call() {
    let step = check(
        Command::Bitcoin(BitcoinMethod::Block { height: None }),
        "http://n:8332",
        &auth(),
    );
    let (state, _) = pending(step);
    assert_eq!(state, CheckState::BitcoinInfo);
}

#[test]
fn protocol_names_parse() {
    assert_eq!(parse_protocol("tendermint"), Some(Protocol::Tendermint));
    assert_eq!(parse_protocol("ethereum"), Some(Protocol::Ethereum));
    assert_eq!(parse_protocol("bitcoin"), Some(Protocol::Bitcoin));
    assert_eq!(parse_protocol("solana"), None);
    assert_eq!(parse_protocol(""), None);
}

#[test]
fn commands_parse() {
    assert_eq!(
        parse_command("tendermint", "status"),
        Some(Command::Tendermint(TendermintMethod::Status))
    );
    assert_eq!(
        parse_command("tendermint", "health"),
        Some(Command::Tendermint(TendermintMethod::Health))
    );
    assert_eq!(
        parse_command("tendermint", "block"),
        Some(Command::Tendermint(TendermintMethod::Block { height: None }))
    );
    assert_eq!(
        parse_command("ethereum", "status"),
        Some(Command::Ethereum(EthereumMethod::Status))
    );
    assert_eq!(
        parse_command("bitcoin", "block"),
        Some(Command::Bitcoin(BitcoinMethod::Block { height: None }))
    );
    assert_eq!(parse_command("ethereum", "peers"), None);
    assert_eq!(parse_command("ripple", "status"), None);
}
