//! Health and status checks for blockchain node RPC endpoints, over three
//! protocols: Tendermint-style REST, Ethereum JSON-RPC 2.0 and Bitcoin
//! JSON-RPC 1.0.
//!
//! The library plans the HTTP calls a check needs, one at a time, and
//! interprets each response: callers perform the calls and feed the outcome
//! back in, so every decision the checker makes is verified here. A check
//! starts with [`check`], which names the first request; each response (or
//! transport failure) goes into [`check_step`] until it answers with the
//! normalized [`types::CheckResult`].

pub mod bitcoin;
pub mod codec;
pub mod ethereum;
pub mod json;
pub mod tendermint;
pub mod types;

use crate::bitcoin::bitcoin_hash_interpret;
use crate::bitcoin::bitcoin_header_interpret;
use crate::bitcoin::bitcoin_health_interpret;
use crate::bitcoin::bitcoin_info_interpret;
use crate::bitcoin::bitcoin_request_ok;
use crate::bitcoin::bitcoin_state;
use crate::bitcoin::bitcoin_status_interpret;
use crate::bitcoin::btc_blocks;
use crate::bitcoin::btc_body_hash;
use crate::bitcoin::btc_body_header;
use crate::bitcoin::btc_hash;
use crate::bitcoin::btc_header_height;
use crate::bitcoin::btc_health_flag;
use crate::bitcoin::btc_syncing;
use crate::bitcoin::check_bitcoin;
use crate::bitcoin::is_btc_post;
use crate::codec::str_eq;
use crate::ethereum::check_ethereum;
use crate::ethereum::eth_block_height;
use crate::ethereum::eth_body_block_number;
use crate::ethereum::eth_health_flag;
use crate::ethereum::eth_latest_block;
use crate::ethereum::eth_syncing_flag;
use crate::ethereum::ethereum_block_interpret;
use crate::ethereum::ethereum_block_number_interpret;
use crate::ethereum::ethereum_health_interpret;
use crate::ethereum::ethereum_request_ok;
use crate::ethereum::ethereum_state;
use crate::ethereum::ethereum_syncing_interpret;
use crate::ethereum::is_eth_post;
use crate::tendermint::check_tendermint;
use crate::tendermint::tendermint_block_height;
use crate::tendermint::tendermint_block_interpret;
use crate::tendermint::tendermint_status_height;
use crate::tendermint::tendermint_status_syncing;
use crate::tendermint::tendermint_health_interpret;
use crate::tendermint::tendermint_request_ok;
use crate::tendermint::tendermint_state;
use crate::tendermint::tendermint_status_interpret;
use crate::types::http_error_text;
use crate::types::is_failed_result;
use crate::types::is_invalid_json_result;
use crate::types::state_protocol;
use crate::types::transport_text;
use crate::types::BasicAuth;
use crate::types::CheckState;
use crate::types::Command;
use crate::types::HttpEvent;
use crate::types::HttpRequest;
use crate::types::Protocol;
use crate::types::ResultData;
use crate::types::Step;
use crate::types::TendermintMethod;
use crate::types::EthereumMethod;
use crate::types::BitcoinMethod;
use crate::json::json_accepts;
use vstd::prelude::*;

verus! {

/// A status code in the range that counts as a successful response.
pub open spec fn spec_http_success(status: u16) -> bool {
    200 <= status < 300
}

/// Whether an HTTP status code counts as a successful response.
pub fn http_success(status: u16) -> (r: bool)
    ensures
        r == spec_http_success(status),
{
    200 <= status && status < 300
}

/// The state a command's first request leaves the check in.
pub open spec fn initial_state(cmd: Command) -> CheckState {
    match cmd {
        Command::Tendermint(m) => tendermint_state(m),
        Command::Ethereum(m) => ethereum_state(m),
        Command::Bitcoin(m) => bitcoin_state(m),
    }
}

/// The request that opens a command's check.
pub open spec fn initial_request_ok(
    cmd: Command,
    rpc: Seq<char>,
    auth: BasicAuth,
    request: HttpRequest,
) -> bool {
    match cmd {
        Command::Tendermint(m) => tendermint_request_ok(m, rpc, request),
        Command::Ethereum(m) => ethereum_request_ok(m, rpc, request),
        Command::Bitcoin(m) => bitcoin_request_ok(m, rpc, auth, request),
    }
}

/// Opens a check: names the state and the first HTTP request for `cmd`
/// against `rpc`. `auth` is carried on Bitcoin requests only.
pub fn check(cmd: Command, rpc: &str, auth: &BasicAuth) -> (r: Step)
    ensures
        r matches Step::Pending { state, request } && state == initial_state(cmd)
            && initial_request_ok(cmd, rpc@, *auth, request),
{
    match cmd {
        Command::Tendermint(m) => check_tendermint(m, rpc),
        Command::Ethereum(m) => check_ethereum(m, rpc),
        Command::Bitcoin(m) => check_bitcoin(m, rpc, auth),
    }
}

/// What a step makes of a successful, parseable response with body text
/// `body` in `state`: either the settled result, its payload read out of the
/// body exactly as the method says, or the next request of a chained check.
pub open spec fn success_step_ok(
    state: CheckState,
    rpc: Seq<char>,
    auth: BasicAuth,
    body: Seq<char>,
    r: Step,
) -> bool {
    match state {
        CheckState::TendermintStatus => r matches Step::Done { result } && result.reachable
            && result.error is None && result.result == Some(
            ResultData::Status {
                latest_block: tendermint_status_height(body),
                syncing: tendermint_status_syncing(body),
            },
        ),
        CheckState::TendermintHealth => r matches Step::Done { result } && result.reachable
            && result.error is None && result.result == Some(ResultData::Health { healthy: true }),
        CheckState::TendermintBlock => r matches Step::Done { result } && result.reachable
            && result.error is None && result.result == Some(
            ResultData::Block { height: tendermint_block_height(body) },
        ),
        CheckState::EthereumSyncing => r matches Step::Pending { state: next, request } && next
            == (CheckState::EthereumBlockNumber { syncing: eth_syncing_flag(body) }) && is_eth_post(
            request,
            rpc,
            eth_body_block_number(),
        ),
        CheckState::EthereumBlockNumber { syncing } => r matches Step::Done { result }
            && result.reachable && result.error is None && result.result == Some(
            ResultData::Status { latest_block: eth_latest_block(body), syncing: Some(syncing) },
        ),
        CheckState::EthereumHealth => r matches Step::Done { result } && result.error is None
            && result.reachable == eth_health_flag(body) && result.result == Some(
            ResultData::Health { healthy: eth_health_flag(body) },
        ),
        CheckState::EthereumBlock => r matches Step::Done { result } && result.error is None
            && result.result == Some(ResultData::Block { height: eth_block_height(body) })
            && result.reachable == (eth_block_height(body) is Some),
        CheckState::BitcoinStatus => r matches Step::Done { result } && result.reachable
            && result.error is None && result.result == Some(
            ResultData::Status { latest_block: btc_blocks(body), syncing: btc_syncing(body) },
        ),
        CheckState::BitcoinHealth => r matches Step::Done { result } && result.error is None
            && result.reachable == btc_health_flag(body) && result.result == Some(
            ResultData::Health { healthy: btc_health_flag(body) },
        ),
        CheckState::BitcoinInfo => match btc_blocks(body) {
            Some(h) => r matches Step::Pending { state: next, request } && next == (
            CheckState::BitcoinHash { height: h }) && is_btc_post(
                request,
                rpc,
                auth,
                btc_body_hash(h),
            ),
            None => r matches Step::Done { result } && is_failed_result(
                result,
                CheckState::BitcoinInfo,
                rpc,
                "Missing latest block height"@,
            ),
        },
        CheckState::BitcoinHash { height } => match btc_hash(body) {
            Some(h) => r matches Step::Pending { state: next, request } && next
                == CheckState::BitcoinHeader && is_btc_post(request, rpc, auth, btc_body_header(h)),
            None => r matches Step::Done { result } && is_failed_result(
                result,
                CheckState::BitcoinHash { height },
                rpc,
                "Missing block hash"@,
            ),
        },
        CheckState::BitcoinHeader => r matches Step::Done { result } && result.error is None
            && result.result == Some(ResultData::Block { height: btc_header_height(body) })
            && result.reachable == (btc_header_height(body) is Some),
    }
}

/// Feeds one HTTP outcome into a check standing at `state`.
///
/// Whatever the state: a transport failure settles the check as unreachable
/// with a nonempty error and no partial payload (health checks keep their
/// `healthy: false` payload); a response outside 2xx settles it with
/// `HTTP <code>`; an unparseable body settles it with `Invalid JSON: `
/// (except the Tendermint health check, which never reads the body); and a
/// parseable 2xx response settles or advances the check as
/// [`success_step_ok`] lays out.
pub fn check_step(state: CheckState, rpc: &str, auth: &BasicAuth, event: HttpEvent) -> (r: Step)
    ensures
        r matches Step::Done { result } ==> result.wf() && result.protocol@ == state_protocol(
            state,
        ) && result.rpc@ == rpc@,
        event matches HttpEvent::Failure { error } ==> (r matches Step::Done { result }
            && is_failed_result(result, state, rpc@, transport_text(error@)) && (
        result.error matches Some(e)
            && e@.len() > 0)),
        event matches HttpEvent::Response { status, body } ==> {
            &&& !spec_http_success(status) ==> (r matches Step::Done { result }
                && is_failed_result(result, state, rpc@, http_error_text(status)))
            &&& spec_http_success(status) && !json_accepts(body@) && !(state
                is TendermintHealth) ==> (r matches Step::Done { result }
                && is_invalid_json_result(result, state, rpc@))
            &&& spec_http_success(status) && (json_accepts(body@) || state
                is TendermintHealth) ==> success_step_ok(state, rpc@, *auth, body@, r)
        },
{
    match state {
        CheckState::TendermintStatus => Step::Done {
            result: tendermint_status_interpret(rpc, event),
        },
        CheckState::TendermintHealth => Step::Done {
            result: tendermint_health_interpret(rpc, event),
        },
        CheckState::TendermintBlock => Step::Done {
            result: tendermint_block_interpret(rpc, event),
        },
        CheckState::EthereumSyncing => ethereum_syncing_interpret(rpc, event),
        CheckState::EthereumBlockNumber { syncing } => Step::Done {
            result: ethereum_block_number_interpret(rpc, syncing, event),
        },
        CheckState::EthereumHealth => Step::Done { result: ethereum_health_interpret(rpc, event) },
        CheckState::EthereumBlock => Step::Done { result: ethereum_block_interpret(rpc, event) },
        CheckState::BitcoinStatus => Step::Done { result: bitcoin_status_interpret(rpc, event) },
        CheckState::BitcoinHealth => Step::Done { result: bitcoin_health_interpret(rpc, event) },
        CheckState::BitcoinInfo => bitcoin_info_interpret(rpc, auth, event),
        CheckState::BitcoinHash { height } => bitcoin_hash_interpret(rpc, auth, height, event),
        CheckState::BitcoinHeader => Step::Done { result: bitcoin_header_interpret(rpc, event) },
    }
}

/// The protocol a CLI name selects.
pub open spec fn spec_parse_protocol(p: Seq<char>) -> Option<Protocol> {
    if p == "tendermint"@ {
        Some(Protocol::Tendermint)
    } else if p == "ethereum"@ {
        Some(Protocol::Ethereum)
    } else if p == "bitcoin"@ {
        Some(Protocol::Bitcoin)
    } else {
        None
    }
}

/// Maps a CLI protocol name to its protocol; anything else is rejected.
pub fn parse_protocol(p: &str) -> (r: Option<Protocol>)
    ensures
        r == spec_parse_protocol(p@),
{
    if str_eq(p, "tendermint") {
        Some(Protocol::Tendermint)
    } else if str_eq(p, "ethereum") {
        Some(Protocol::Ethereum)
    } else if str_eq(p, "bitcoin") {
        Some(Protocol::Bitcoin)
    } else {
        None
    }
}

/// The command a CLI protocol/method pair selects: `status`, `health` or
/// `block` under a known protocol; a block command always asks for the
/// latest block.
pub open spec fn spec_parse_command(p: Seq<char>, m: Seq<char>) -> Option<Command> {
    match spec_parse_protocol(p) {
        None => None,
        Some(Protocol::Tendermint) => if m == "status"@ {
            Some(Command::Tendermint(TendermintMethod::Status))
        } else if m == "health"@ {
            Some(Command::Tendermint(TendermintMethod::Health))
        } else if m == "block"@ {
            Some(Command::Tendermint(TendermintMethod::Block { height: None }))
        } else {
            None
        },
        Some(Protocol::Ethereum) => if m == "status"@ {
            Some(Command::Ethereum(EthereumMethod::Status))
        } else if m == "health"@ {
            Some(Command::Ethereum(EthereumMethod::Health))
        } else if m == "block"@ {
            Some(Command::Ethereum(EthereumMethod::Block { height: None }))
        } else {
            None
        },
        Some(Protocol::Bitcoin) => if m == "status"@ {
            Some(Command::Bitcoin(BitcoinMethod::Status))
        } else if m == "health"@ {
            Some(Command::Bitcoin(BitcoinMethod::Health))
        } else if m == "block"@ {
            Some(Command::Bitcoin(BitcoinMethod::Block { height: None }))
        } else {
            None
        },
    }
}

/// Maps a CLI protocol/method pair to the command it selects; an unknown
/// protocol or method is rejected.
pub fn parse_command(protocol: &str, method: &str) -> (r: Option<Command>)
    ensures
        r == spec_parse_command(protocol@, method@),
{
    match parse_protocol(protocol) {
        None => None,
        Some(Protocol::Tendermint) => {
            if str_eq(method, "status") {
                Some(Command::Tendermint(TendermintMethod::Status))
            } else if str_eq(method, "health") {
                Some(Command::Tendermint(TendermintMethod::Health))
            } else if str_eq(method, "block") {
                Some(Command::Tendermint(TendermintMethod::Block { height: None }))
            } else {
                None
            }
        },
        Some(Protocol::Ethereum) => {
            if str_eq(method, "status") {
                Some(Command::Ethereum(EthereumMethod::Status))
            } else if str_eq(method, "health") {
                Some(Command::Ethereum(EthereumMethod::Health))
            } else if str_eq(method, "block") {
                Some(Command::Ethereum(EthereumMethod::Block { height: None }))
            } else {
                None
            }
        },
        Some(Protocol::Bitcoin) => {
            if str_eq(method, "status") {
                Some(Command::Bitcoin(BitcoinMethod::Status))
            } else if str_eq(method, "health") {
                Some(Command::Bitcoin(BitcoinMethod::Health))
            } else if str_eq(method, "block") {
                Some(Command::Bitcoin(BitcoinMethod::Block { height: None }))
            } else {
                None
            }
        },
    }
}

} // verus!
