//! The Ethereum adapter: JSON-RPC 2.0 POSTs for `eth_syncing`,
//! `eth_blockNumber`, `eth_chainId` and `eth_getBlockByNumber`, and the
//! interpretation of their responses.

use crate::codec::parse_eth_quantity;
use crate::codec::spec_hex;
use crate::codec::spec_parse_hex_u64;
use crate::codec::strip_hex_prefix;
use crate::codec::u64_to_hex;
use crate::http_success;
use crate::json::has_field1;
use crate::json::json_accepts;
use crate::json::json_error_message;
use crate::json::json_has1;
use crate::json::json_object_field1;
use crate::json::json_str_field1;
use crate::json::json_str_field2;
use crate::json::object_field1;
use crate::json::parse_json;
use crate::json::str_field1;
use crate::json::str_field2;
use crate::spec_http_success;
use crate::types::http_error_text;
use crate::types::http_failure;
use crate::types::invalid_json_failure;
use crate::types::is_failed_result;
use crate::types::is_invalid_json_result;
use crate::types::transport_failure;
use crate::types::transport_text;
use crate::types::CheckResult;
use crate::types::CheckState;
use crate::types::EthereumMethod;
use crate::types::HttpEvent;
use crate::types::HttpRequest;
use crate::types::ResultData;
use crate::types::Step;
use vstd::prelude::*;
use vstd::string::StringExecFns;

verus! {

/// A JSON-RPC 2.0 request body with the given method, params and id.
pub open spec fn eth_body(method: Seq<char>, params: Seq<char>, id: Seq<char>) -> Seq<char> {
    "{\"jsonrpc\":\"2.0\",\"method\":\""@ + method + "\",\"params\":"@ + params + ",\"id\":"@ + id
        + "}"@
}

pub open spec fn eth_body_syncing() -> Seq<char> {
    eth_body("eth_syncing"@, "[]"@, "1"@)
}

pub open spec fn eth_body_block_number() -> Seq<char> {
    eth_body("eth_blockNumber"@, "[]"@, "2"@)
}

pub open spec fn eth_body_chain_id() -> Seq<char> {
    eth_body("eth_chainId"@, "[]"@, "1"@)
}

/// The block parameter of `eth_getBlockByNumber`: `latest`, or the height as
/// a `0x`-prefixed hexadecimal quantity.
pub open spec fn eth_block_param(height: Option<u64>) -> Seq<char> {
    match height {
        None => "latest"@,
        Some(h) => "0x"@ + spec_hex(h as nat),
    }
}

pub open spec fn eth_body_get_block(height: Option<u64>) -> Seq<char> {
    eth_body("eth_getBlockByNumber"@, "[\""@ + eth_block_param(height) + "\",false]"@, "1"@)
}

/// The state awaiting the first response of an Ethereum method.
pub open spec fn ethereum_state(m: EthereumMethod) -> CheckState {
    match m {
        EthereumMethod::Status => CheckState::EthereumSyncing,
        EthereumMethod::Health => CheckState::EthereumHealth,
        EthereumMethod::Block { .. } => CheckState::EthereumBlock,
    }
}

pub open spec fn eth_initial_body(m: EthereumMethod) -> Seq<char> {
    match m {
        EthereumMethod::Status => eth_body_syncing(),
        EthereumMethod::Health => eth_body_chain_id(),
        EthereumMethod::Block { height } => eth_body_get_block(height),
    }
}

/// An unauthenticated POST of `body` to the endpoint itself.
pub open spec fn is_eth_post(request: HttpRequest, rpc: Seq<char>, body: Seq<char>) -> bool {
    request matches HttpRequest::Post { url, body: b, auth } && url@ == rpc && b@ == body
        && auth is None
}

/// The request that opens an Ethereum check.
pub open spec fn ethereum_request_ok(
    m: EthereumMethod,
    rpc: Seq<char>,
    request: HttpRequest,
) -> bool {
    is_eth_post(request, rpc, eth_initial_body(m))
}

fn eth_body_build(method: &str, params: &str, id: &str) -> (r: String)
    ensures
        r@ == eth_body(method@, params@, id@),
{
    let mut s = "{\"jsonrpc\":\"2.0\",\"method\":\"".to_owned();
    s.append(method);
    s.append("\",\"params\":");
    s.append(params);
    s.append(",\"id\":");
    s.append(id);
    s.append("}");
    s
}

fn eth_post(rpc: &str, body: String) -> (r: HttpRequest)
    ensures
        is_eth_post(r, rpc@, body@),
{
    HttpRequest::Post { url: rpc.to_owned(), body, auth: None }
}

/// Plans an Ethereum check: status opens with `eth_syncing`, health with
/// `eth_chainId`, block with `eth_getBlockByNumber`.
pub fn check_ethereum(method: EthereumMethod, rpc: &str) -> (r: Step)
    ensures
        r matches Step::Pending { state, request } && state == ethereum_state(method)
            && ethereum_request_ok(method, rpc@, request),
{
    match method {
        EthereumMethod::Status => Step::Pending {
            state: CheckState::EthereumSyncing,
            request: eth_post(rpc, eth_body_build("eth_syncing", "[]", "1")),
        },
        EthereumMethod::Health => Step::Pending {
            state: CheckState::EthereumHealth,
            request: eth_post(rpc, eth_body_build("eth_chainId", "[]", "1")),
        },
        EthereumMethod::Block { height } => {
            let mut params = "[\"".to_owned();
            match height {
                None => params.append("latest"),
                Some(h) => {
                    params.append("0x");
                    let num = u64_to_hex(h);
                    params.append(num.as_str());
                },
            }
            params.append("\",false]");
            proof {
                assert(params@ =~= "[\""@ + eth_block_param(height) + "\",false]"@);
            }
            Step::Pending {
                state: CheckState::EthereumBlock,
                request: eth_post(rpc, eth_body_build("eth_getBlockByNumber", params.as_str(), "1")),
            }
        },
    }
}

/// Whether an `eth_syncing` response says the node is syncing: its `result`
/// member is there and is a JSON object (the object's contents are never
/// interpreted).
pub open spec fn eth_syncing_flag(doc: Seq<char>) -> bool {
    json_object_field1(doc, "result"@)
}

/// The height an `eth_blockNumber` response reports: its `result` member as
/// a `0x`-prefixed hexadecimal string, if it is there and parses.
pub open spec fn eth_latest_block(doc: Seq<char>) -> Option<u64> {
    match json_str_field1(doc, "result"@) {
        Some(s) => spec_parse_hex_u64(strip_hex_prefix(s)),
        None => None,
    }
}

/// Whether an `eth_chainId` response counts as healthy: it has a `result`
/// member, whatever its value.
pub open spec fn eth_health_flag(doc: Seq<char>) -> bool {
    json_has1(doc, "result"@)
}

/// The height an `eth_getBlockByNumber` response reports: the hexadecimal
/// string at `result.number`, if it is there and parses.
pub open spec fn eth_block_height(doc: Seq<char>) -> Option<u64> {
    match json_str_field2(doc, "result"@, "number"@) {
        Some(s) => spec_parse_hex_u64(strip_hex_prefix(s)),
        None => None,
    }
}

/// Interprets the `eth_syncing` response that opens a status check: on a
/// parseable 2xx body the check goes on to `eth_blockNumber`, remembering
/// whether the `result` field was an object (the node's way of saying it is
/// still syncing).
pub fn ethereum_syncing_interpret(rpc: &str, event: HttpEvent) -> (r: Step)
    ensures
        event matches HttpEvent::Failure { error } ==> (r matches Step::Done { result }
            && is_failed_result(result, CheckState::EthereumSyncing, rpc@, transport_text(error@))
            && (result.error matches Some(e) && e@.len() > 0) && result.wf()),
        event matches HttpEvent::Response { status, body } ==> {
            &&& !spec_http_success(status) ==> (r matches Step::Done { result }
                && is_failed_result(
                result,
                CheckState::EthereumSyncing,
                rpc@,
                http_error_text(status),
            ) && result.wf())
            &&& spec_http_success(status) && !json_accepts(body@) ==> (r matches Step::Done {
                result,
            } && is_invalid_json_result(result, CheckState::EthereumSyncing, rpc@) && result.wf())
            &&& spec_http_success(status) && json_accepts(body@) ==> (r matches Step::Pending {
                state,
                request,
            } && state == (CheckState::EthereumBlockNumber { syncing: eth_syncing_flag(body@) })
                && is_eth_post(request, rpc@, eth_body_block_number()))
        },
{
    match event {
        HttpEvent::Failure { error } => Step::Done {
            result: transport_failure(CheckState::EthereumSyncing, rpc, error),
        },
        HttpEvent::Response { status, body } => {
            if !http_success(status) {
                return Step::Done {
                    result: http_failure(CheckState::EthereumSyncing, rpc, status),
                };
            }
            match parse_json(body.as_str()) {
                Err(e) => Step::Done {
                    result: invalid_json_failure(
                        CheckState::EthereumSyncing,
                        rpc,
                        json_error_message(&e),
                    ),
                },
                Ok(v) => {
                    let syncing = object_field1(&v, "result");
                    Step::Pending {
                        state: CheckState::EthereumBlockNumber { syncing },
                        request: eth_post(rpc, eth_body_build("eth_blockNumber", "[]", "2")),
                    }
                },
            }
        },
    }
}

/// Settles a status check from the `eth_blockNumber` response: on a
/// parseable 2xx body the node is reachable, `latest_block` is the `result`
/// quantity (hexadecimal, `0x`-prefixed), and `syncing` carries what the
/// `eth_syncing` call said.
pub fn ethereum_block_number_interpret(rpc: &str, syncing: bool, event: HttpEvent) -> (r:
    CheckResult)
    ensures
        r.wf(),
        event matches HttpEvent::Failure { error } ==> is_failed_result(
            r,
            CheckState::EthereumBlockNumber { syncing },
            rpc@,
            transport_text(error@),
        ) && (r.error matches Some(e) && e@.len() > 0),
        event matches HttpEvent::Response { status, body } ==> {
            &&& !spec_http_success(status) ==> is_failed_result(
                r,
                CheckState::EthereumBlockNumber { syncing },
                rpc@,
                http_error_text(status),
            )
            &&& spec_http_success(status) && !json_accepts(body@) ==> is_invalid_json_result(
                r,
                CheckState::EthereumBlockNumber { syncing },
                rpc@,
            )
            &&& spec_http_success(status) && json_accepts(body@) ==> r.protocol@ == "ethereum"@
                && r.rpc@ == rpc@ && r.reachable && r.error is None && r.result == Some(
                ResultData::Status {
                    latest_block: eth_latest_block(body@),
                    syncing: Some(syncing),
                },
            )
        },
{
    match event {
        HttpEvent::Failure { error } => transport_failure(
            CheckState::EthereumBlockNumber { syncing },
            rpc,
            error,
        ),
        HttpEvent::Response { status, body } => {
            if !http_success(status) {
                return http_failure(CheckState::EthereumBlockNumber { syncing }, rpc, status);
            }
            match parse_json(body.as_str()) {
                Err(e) => invalid_json_failure(
                    CheckState::EthereumBlockNumber { syncing },
                    rpc,
                    json_error_message(&e),
                ),
                Ok(v) => {
                    let latest_block = match str_field1(&v, "result") {
                        Some(s) => parse_eth_quantity(s.as_str()),
                        None => None,
                    };
                    CheckResult {
                        protocol: "ethereum".to_owned(),
                        rpc: rpc.to_owned(),
                        reachable: true,
                        result: Some(ResultData::Status { latest_block, syncing: Some(syncing) }),
                        error: None,
                    }
                },
            }
        },
    }
}

/// Settles an Ethereum health check from the `eth_chainId` response: the
/// node is healthy and reachable exactly when the response carries a
/// `result` field; HTTP and parse failures still report `healthy: false`.
pub fn ethereum_health_interpret(rpc: &str, event: HttpEvent) -> (r: CheckResult)
    ensures
        r.wf(),
        event matches HttpEvent::Failure { error } ==> is_failed_result(
            r,
            CheckState::EthereumHealth,
            rpc@,
            transport_text(error@),
        ) && (r.error matches Some(e) && e@.len() > 0),
        event matches HttpEvent::Response { status, body } ==> {
            &&& !spec_http_success(status) ==> is_failed_result(
                r,
                CheckState::EthereumHealth,
                rpc@,
                http_error_text(status),
            )
            &&& spec_http_success(status) && !json_accepts(body@) ==> is_invalid_json_result(
                r,
                CheckState::EthereumHealth,
                rpc@,
            )
            &&& spec_http_success(status) && json_accepts(body@) ==> r.protocol@ == "ethereum"@
                && r.rpc@ == rpc@ && r.error is None && r.reachable == eth_health_flag(body@)
                && r.result == Some(ResultData::Health { healthy: eth_health_flag(body@) })
        },
{
    match event {
        HttpEvent::Failure { error } => transport_failure(CheckState::EthereumHealth, rpc, error),
        HttpEvent::Response { status, body } => {
            if !http_success(status) {
                return http_failure(CheckState::EthereumHealth, rpc, status);
            }
            match parse_json(body.as_str()) {
                Err(e) => invalid_json_failure(
                    CheckState::EthereumHealth,
                    rpc,
                    json_error_message(&e),
                ),
                Ok(v) => {
                    let healthy = has_field1(&v, "result");
                    CheckResult {
                        protocol: "ethereum".to_owned(),
                        rpc: rpc.to_owned(),
                        reachable: healthy,
                        result: Some(ResultData::Health { healthy }),
                        error: None,
                    }
                },
            }
        },
    }
}

/// Settles an Ethereum block check from the `eth_getBlockByNumber`
/// response: the node counts as reachable exactly when `result.number`
/// parses as a hexadecimal height.
pub fn ethereum_block_interpret(rpc: &str, event: HttpEvent) -> (r: CheckResult)
    ensures
        r.wf(),
        event matches HttpEvent::Failure { error } ==> is_failed_result(
            r,
            CheckState::EthereumBlock,
            rpc@,
            transport_text(error@),
        ) && (r.error matches Some(e) && e@.len() > 0),
        event matches HttpEvent::Response { status, body } ==> {
            &&& !spec_http_success(status) ==> is_failed_result(
                r,
                CheckState::EthereumBlock,
                rpc@,
                http_error_text(status),
            )
            &&& spec_http_success(status) && !json_accepts(body@) ==> is_invalid_json_result(
                r,
                CheckState::EthereumBlock,
                rpc@,
            )
            &&& spec_http_success(status) && json_accepts(body@) ==> r.protocol@ == "ethereum"@
                && r.rpc@ == rpc@ && r.error is None && r.result == Some(
                ResultData::Block { height: eth_block_height(body@) },
            ) && r.reachable == (eth_block_height(body@) is Some)
        },
{
    match event {
        HttpEvent::Failure { error } => transport_failure(CheckState::EthereumBlock, rpc, error),
        HttpEvent::Response { status, body } => {
            if !http_success(status) {
                return http_failure(CheckState::EthereumBlock, rpc, status);
            }
            match parse_json(body.as_str()) {
                Err(e) => invalid_json_failure(
                    CheckState::EthereumBlock,
                    rpc,
                    json_error_message(&e),
                ),
                Ok(v) => {
                    let height = match str_field2(&v, "result", "number") {
                        Some(s) => parse_eth_quantity(s.as_str()),
                        None => None,
                    };
                    let reachable = height.is_some();
                    CheckResult {
                        protocol: "ethereum".to_owned(),
                        rpc: rpc.to_owned(),
                        reachable,
                        result: Some(ResultData::Block { height }),
                        error: None,
                    }
                },
            }
        },
    }
}

} // verus!
