//! The Bitcoin adapter: JSON-RPC 1.0 POSTs with basic authentication for
//! `getblockchaininfo`, `getnetworkinfo`, `getblockhash` and
//! `getblockheader`, and the interpretation of their responses. A block
//! check chains up to three calls: latest height, then the hash at that
//! height, then the header under that hash.

use crate::codec::json_escape;
use crate::codec::json_escaped;
use crate::codec::spec_dec;
use crate::codec::u64_to_dec;
use crate::http_success;
use crate::json::has_field1;
use crate::json::json_accepts;
use crate::json::json_error_message;
use crate::json::json_has1;
use crate::json::json_str_field1;
use crate::json::json_u64_field2;
use crate::json::parse_json;
use crate::json::str_field1;
use crate::json::u64_field2;
use crate::spec_http_success;
use crate::types::failed_result;
use crate::types::http_error_text;
use crate::types::http_failure;
use crate::types::invalid_json_failure;
use crate::types::is_failed_result;
use crate::types::is_invalid_json_result;
use crate::types::transport_failure;
use crate::types::transport_text;
use crate::types::BasicAuth;
use crate::types::BitcoinMethod;
use crate::types::CheckResult;
use crate::types::CheckState;
use crate::types::HttpEvent;
use crate::types::HttpRequest;
use crate::types::ResultData;
use crate::types::Step;
use vstd::prelude::*;
use vstd::string::StringExecFns;

verus! {

/// A JSON-RPC 1.0 request body with the given method and params.
pub open spec fn btc_body(method: Seq<char>, params: Seq<char>) -> Seq<char> {
    "{\"jsonrpc\":\"1.0\",\"id\":\"rpc-checker\",\"method\":\""@ + method + "\",\"params\":"@
        + params + "}"@
}

pub open spec fn btc_body_info() -> Seq<char> {
    btc_body("getblockchaininfo"@, "[]"@)
}

pub open spec fn btc_body_networkinfo() -> Seq<char> {
    btc_body("getnetworkinfo"@, "[]"@)
}

/// The `getblockhash` body asking for the hash at `height`.
pub open spec fn btc_body_hash(height: u64) -> Seq<char> {
    btc_body("getblockhash"@, "["@ + spec_dec(height as nat) + "]"@)
}

/// The `getblockheader` body asking for the header under `hash`.
pub open spec fn btc_body_header(hash: Seq<char>) -> Seq<char> {
    btc_body("getblockheader"@, "[\""@ + json_escaped(hash) + "\"]"@)
}

/// The state awaiting the first response of a Bitcoin method.
pub open spec fn bitcoin_state(m: BitcoinMethod) -> CheckState {
    match m {
        BitcoinMethod::Status => CheckState::BitcoinStatus,
        BitcoinMethod::Health => CheckState::BitcoinHealth,
        BitcoinMethod::Block { height: None } => CheckState::BitcoinInfo,
        BitcoinMethod::Block { height: Some(h) } => CheckState::BitcoinHash { height: h },
    }
}

pub open spec fn auth_matches(a: Option<BasicAuth>, auth: BasicAuth) -> bool {
    a matches Some(b) && b.user@ == auth.user@ && b.pass@ == auth.pass@
}

/// A POST of `body` to the endpoint itself, carrying `auth` as basic
/// authentication.
pub open spec fn is_btc_post(
    request: HttpRequest,
    rpc: Seq<char>,
    auth: BasicAuth,
    body: Seq<char>,
) -> bool {
    request matches HttpRequest::Post { url, body: b, auth: a } && url@ == rpc && b@ == body
        && auth_matches(a, auth)
}

pub open spec fn btc_initial_body(m: BitcoinMethod) -> Seq<char> {
    match m {
        BitcoinMethod::Status => btc_body_info(),
        BitcoinMethod::Health => btc_body_networkinfo(),
        BitcoinMethod::Block { height: None } => btc_body_info(),
        BitcoinMethod::Block { height: Some(h) } => btc_body_hash(h),
    }
}

/// The request that opens a Bitcoin check.
pub open spec fn bitcoin_request_ok(
    m: BitcoinMethod,
    rpc: Seq<char>,
    auth: BasicAuth,
    request: HttpRequest,
) -> bool {
    is_btc_post(request, rpc, auth, btc_initial_body(m))
}

fn btc_request(rpc: &str, auth: &BasicAuth, method: &str, params: &str) -> (r: HttpRequest)
    ensures
        is_btc_post(r, rpc@, *auth, btc_body(method@, params@)),
{
    let mut body = "{\"jsonrpc\":\"1.0\",\"id\":\"rpc-checker\",\"method\":\"".to_owned();
    body.append(method);
    body.append("\",\"params\":");
    body.append(params);
    body.append("}");
    HttpRequest::Post {
        url: rpc.to_owned(),
        body,
        auth: Some(BasicAuth { user: auth.user.clone(), pass: auth.pass.clone() }),
    }
}

/// The `getblockhash` request for the block at `height`: its params hold
/// exactly that height, in decimal.
pub fn bitcoin_hash_request(rpc: &str, auth: &BasicAuth, height: u64) -> (r: HttpRequest)
    ensures
        is_btc_post(r, rpc@, *auth, btc_body_hash(height)),
{
    let mut params = "[".to_owned();
    let num = u64_to_dec(height);
    params.append(num.as_str());
    params.append("]");
    proof {
        assert(params@ =~= "["@ + spec_dec(height as nat) + "]"@);
    }
    btc_request(rpc, auth, "getblockhash", params.as_str())
}

/// The `getblockheader` request for the block under `hash`: its params hold
/// exactly that hash, as a JSON string.
pub fn bitcoin_header_request(rpc: &str, auth: &BasicAuth, hash: &str) -> (r: HttpRequest)
    ensures
        is_btc_post(r, rpc@, *auth, btc_body_header(hash@)),
{
    let mut params = "[\"".to_owned();
    let escaped = json_escape(hash);
    params.append(escaped.as_str());
    params.append("\"]");
    proof {
        assert(params@ =~= "[\""@ + json_escaped(hash@) + "\"]"@);
    }
    btc_request(rpc, auth, "getblockheader", params.as_str())
}

/// Plans a Bitcoin check: status and health open with one info call; a
/// block check opens with `getblockchaininfo` to learn the latest height,
/// or directly with `getblockhash` when a height is given.
pub fn check_bitcoin(method: BitcoinMethod, rpc: &str, auth: &BasicAuth) -> (r: Step)
    ensures
        r matches Step::Pending { state, request } && state == bitcoin_state(method)
            && bitcoin_request_ok(method, rpc@, *auth, request),
{
    match method {
        BitcoinMethod::Status => Step::Pending {
            state: CheckState::BitcoinStatus,
            request: btc_request(rpc, auth, "getblockchaininfo", "[]"),
        },
        BitcoinMethod::Health => Step::Pending {
            state: CheckState::BitcoinHealth,
            request: btc_request(rpc, auth, "getnetworkinfo", "[]"),
        },
        BitcoinMethod::Block { height: None } => Step::Pending {
            state: CheckState::BitcoinInfo,
            request: btc_request(rpc, auth, "getblockchaininfo", "[]"),
        },
        BitcoinMethod::Block { height: Some(h) } => Step::Pending {
            state: CheckState::BitcoinHash { height: h },
            request: bitcoin_hash_request(rpc, auth, h),
        },
    }
}

/// The latest height a `getblockchaininfo` response reports: the unsigned
/// number at `result.blocks`, if it is there.
pub open spec fn btc_blocks(doc: Seq<char>) -> Option<u64> {
    json_u64_field2(doc, "result"@, "blocks"@)
}

/// The header count a `getblockchaininfo` response reports: the unsigned
/// number at `result.headers`, if it is there.
pub open spec fn btc_headers(doc: Seq<char>) -> Option<u64> {
    json_u64_field2(doc, "result"@, "headers"@)
}

/// Whether a `getblockchaininfo` response says the node is syncing: its
/// blocks lag its headers; known only when both counts are there.
pub open spec fn btc_syncing(doc: Seq<char>) -> Option<bool> {
    match (btc_blocks(doc), btc_headers(doc)) {
        (Some(b), Some(h)) => Some(b < h),
        _ => None,
    }
}

/// Whether a `getnetworkinfo` response counts as healthy: it has a `result`
/// member, whatever its value.
pub open spec fn btc_health_flag(doc: Seq<char>) -> bool {
    json_has1(doc, "result"@)
}

/// The hash a `getblockhash` response reports: its `result` member as a
/// string, if it is one.
pub open spec fn btc_hash(doc: Seq<char>) -> Option<Seq<char>> {
    json_str_field1(doc, "result"@)
}

/// The height a `getblockheader` response reports: the unsigned number at
/// `result.height`, if it is there.
pub open spec fn btc_header_height(doc: Seq<char>) -> Option<u64> {
    json_u64_field2(doc, "result"@, "height"@)
}

/// Settles a Bitcoin status check from the `getblockchaininfo` response: on
/// a parseable 2xx body the node is reachable, `latest_block` is
/// `result.blocks`, and `syncing` says whether `blocks` lags `headers`
/// (reported only when both are present).
pub fn bitcoin_status_interpret(rpc: &str, event: HttpEvent) -> (r: CheckResult)
    ensures
        r.wf(),
        event matches HttpEvent::Failure { error } ==> is_failed_result(
            r,
            CheckState::BitcoinStatus,
            rpc@,
            transport_text(error@),
        ) && (r.error matches Some(e) && e@.len() > 0),
        event matches HttpEvent::Response { status, body } ==> {
            &&& !spec_http_success(status) ==> is_failed_result(
                r,
                CheckState::BitcoinStatus,
                rpc@,
                http_error_text(status),
            )
            &&& spec_http_success(status) && !json_accepts(body@) ==> is_invalid_json_result(
                r,
                CheckState::BitcoinStatus,
                rpc@,
            )
            &&& spec_http_success(status) && json_accepts(body@) ==> r.protocol@ == "bitcoin"@
                && r.rpc@ == rpc@ && r.reachable && r.error is None && r.result == Some(
                ResultData::Status {
                    latest_block: btc_blocks(body@),
                    syncing: btc_syncing(body@),
                },
            )
        },
{
    match event {
        HttpEvent::Failure { error } => transport_failure(CheckState::BitcoinStatus, rpc, error),
        HttpEvent::Response { status, body } => {
            if !http_success(status) {
                return http_failure(CheckState::BitcoinStatus, rpc, status);
            }
            match parse_json(body.as_str()) {
                Err(e) => invalid_json_failure(
                    CheckState::BitcoinStatus,
                    rpc,
                    json_error_message(&e),
                ),
                Ok(v) => {
                    let blocks = u64_field2(&v, "result", "blocks");
                    let headers = u64_field2(&v, "result", "headers");
                    let syncing = match (blocks, headers) {
                        (Some(b), Some(h)) => Some(b < h),
                        _ => None,
                    };
                    CheckResult {
                        protocol: "bitcoin".to_owned(),
                        rpc: rpc.to_owned(),
                        reachable: true,
                        result: Some(ResultData::Status { latest_block: blocks, syncing }),
                        error: None,
                    }
                },
            }
        },
    }
}

/// Settles a Bitcoin health check from the `getnetworkinfo` response: the
/// node is healthy and reachable exactly when the response carries a
/// `result` field; HTTP and parse failures still report `healthy: false`.
pub fn bitcoin_health_interpret(rpc: &str, event: HttpEvent) -> (r: CheckResult)
    ensures
        r.wf(),
        event matches HttpEvent::Failure { error } ==> is_failed_result(
            r,
            CheckState::BitcoinHealth,
            rpc@,
            transport_text(error@),
        ) && (r.error matches Some(e) && e@.len() > 0),
        event matches HttpEvent::Response { status, body } ==> {
            &&& !spec_http_success(status) ==> is_failed_result(
                r,
                CheckState::BitcoinHealth,
                rpc@,
                http_error_text(status),
            )
            &&& spec_http_success(status) && !json_accepts(body@) ==> is_invalid_json_result(
                r,
                CheckState::BitcoinHealth,
                rpc@,
            )
            &&& spec_http_success(status) && json_accepts(body@) ==> r.protocol@ == "bitcoin"@
                && r.rpc@ == rpc@ && r.error is None && r.reachable == btc_health_flag(body@)
                && r.result == Some(ResultData::Health { healthy: btc_health_flag(body@) })
        },
{
    match event {
        HttpEvent::Failure { error } => transport_failure(CheckState::BitcoinHealth, rpc, error),
        HttpEvent::Response { status, body } => {
            if !http_success(status) {
                return http_failure(CheckState::BitcoinHealth, rpc, status);
            }
            match parse_json(body.as_str()) {
                Err(e) => invalid_json_failure(
                    CheckState::BitcoinHealth,
                    rpc,
                    json_error_message(&e),
                ),
                Ok(v) => {
                    let healthy = has_field1(&v, "result");
                    CheckResult {
                        protocol: "bitcoin".to_owned(),
                        rpc: rpc.to_owned(),
                        reachable: healthy,
                        result: Some(ResultData::Health { healthy }),
                        error: None,
                    }
                },
            }
        },
    }
}

/// Interprets the `getblockchaininfo` response that opens a block-by-latest
/// check: on a parseable 2xx body with `result.blocks` present, the check
/// goes on to `getblockhash` at exactly that height; a missing height fails
/// the check.
pub fn bitcoin_info_interpret(rpc: &str, auth: &BasicAuth, event: HttpEvent) -> (r: Step)
    ensures
        event matches HttpEvent::Failure { error } ==> (r matches Step::Done { result }
            && is_failed_result(result, CheckState::BitcoinInfo, rpc@, transport_text(error@)) && (
        result.error matches Some(e)
            && e@.len() > 0) && result.wf()),
        event matches HttpEvent::Response { status, body } ==> {
            &&& !spec_http_success(status) ==> (r matches Step::Done { result }
                && is_failed_result(
                result,
                CheckState::BitcoinInfo,
                rpc@,
                http_error_text(status),
            ) && result.wf())
            &&& spec_http_success(status) && !json_accepts(body@) ==> (r matches Step::Done {
                result,
            } && is_invalid_json_result(result, CheckState::BitcoinInfo, rpc@) && result.wf())
            &&& spec_http_success(status) && json_accepts(body@) ==> (match btc_blocks(body@) {
                Some(h) => r matches Step::Pending { state, request } && state == (
                CheckState::BitcoinHash { height: h }) && is_btc_post(
                    request,
                    rpc@,
                    *auth,
                    btc_body_hash(h),
                ),
                None => r matches Step::Done { result } && is_failed_result(
                    result,
                    CheckState::BitcoinInfo,
                    rpc@,
                    "Missing latest block height"@,
                ) && result.wf(),
            })
        },
{
    match event {
        HttpEvent::Failure { error } => Step::Done {
            result: transport_failure(CheckState::BitcoinInfo, rpc, error),
        },
        HttpEvent::Response { status, body } => {
            if !http_success(status) {
                return Step::Done { result: http_failure(CheckState::BitcoinInfo, rpc, status) };
            }
            match parse_json(body.as_str()) {
                Err(e) => Step::Done {
                    result: invalid_json_failure(
                        CheckState::BitcoinInfo,
                        rpc,
                        json_error_message(&e),
                    ),
                },
                Ok(v) => {
                    let blocks = u64_field2(&v, "result", "blocks");
                    match blocks {
                        Some(h) => Step::Pending {
                            state: CheckState::BitcoinHash { height: h },
                            request: bitcoin_hash_request(rpc, auth, h),
                        },
                        None => Step::Done {
                            result: failed_result(
                                CheckState::BitcoinInfo,
                                rpc,
                                "Missing latest block height".to_owned(),
                            ),
                        },
                    }
                },
            }
        },
    }
}

/// Interprets the `getblockhash` response: on a parseable 2xx body whose
/// `result` is a string, the check goes on to `getblockheader` with exactly
/// that hash; a missing hash fails the check.
pub fn bitcoin_hash_interpret(rpc: &str, auth: &BasicAuth, height: u64, event: HttpEvent) -> (r:
    Step)
    ensures
        event matches HttpEvent::Failure { error } ==> (r matches Step::Done { result }
            && is_failed_result(
            result,
            CheckState::BitcoinHash { height },
            rpc@,
            transport_text(error@),
        ) && (result.error matches Some(e) && e@.len() > 0) && result.wf()),
        event matches HttpEvent::Response { status, body } ==> {
            &&& !spec_http_success(status) ==> (r matches Step::Done { result }
                && is_failed_result(
                result,
                CheckState::BitcoinHash { height },
                rpc@,
                http_error_text(status),
            ) && result.wf())
            &&& spec_http_success(status) && !json_accepts(body@) ==> (r matches Step::Done {
                result,
            } && is_invalid_json_result(result, CheckState::BitcoinHash { height }, rpc@)
                && result.wf())
            &&& spec_http_success(status) && json_accepts(body@) ==> (match btc_hash(body@) {
                Some(h) => r matches Step::Pending { state, request } && state
                    == CheckState::BitcoinHeader && is_btc_post(
                    request,
                    rpc@,
                    *auth,
                    btc_body_header(h),
                ),
                None => r matches Step::Done { result } && is_failed_result(
                    result,
                    CheckState::BitcoinHash { height },
                    rpc@,
                    "Missing block hash"@,
                ) && result.wf(),
            })
        },
{
    match event {
        HttpEvent::Failure { error } => Step::Done {
            result: transport_failure(CheckState::BitcoinHash { height }, rpc, error),
        },
        HttpEvent::Response { status, body } => {
            if !http_success(status) {
                return Step::Done {
                    result: http_failure(CheckState::BitcoinHash { height }, rpc, status),
                };
            }
            match parse_json(body.as_str()) {
                Err(e) => Step::Done {
                    result: invalid_json_failure(
                        CheckState::BitcoinHash { height },
                        rpc,
                        json_error_message(&e),
                    ),
                },
                Ok(v) => {
                    let hash = str_field1(&v, "result");
                    match hash {
                        Some(hs) => {
                            let request = bitcoin_header_request(rpc, auth, hs.as_str());
                            Step::Pending { state: CheckState::BitcoinHeader, request }
                        },
                        None => Step::Done {
                            result: failed_result(
                                CheckState::BitcoinHash { height },
                                rpc,
                                "Missing block hash".to_owned(),
                            ),
                        },
                    }
                },
            }
        },
    }
}

/// Settles a Bitcoin block check from the `getblockheader` response: the
/// node counts as reachable exactly when `result.height` is an unsigned
/// number, and the reported height is the header's own, not the one asked
/// for.
pub fn bitcoin_header_interpret(rpc: &str, event: HttpEvent) -> (r: CheckResult)
    ensures
        r.wf(),
        event matches HttpEvent::Failure { error } ==> is_failed_result(
            r,
            CheckState::BitcoinHeader,
            rpc@,
            transport_text(error@),
        ) && (r.error matches Some(e) && e@.len() > 0),
        event matches HttpEvent::Response { status, body } ==> {
            &&& !spec_http_success(status) ==> is_failed_result(
                r,
                CheckState::BitcoinHeader,
                rpc@,
                http_error_text(status),
            )
            &&& spec_http_success(status) && !json_accepts(body@) ==> is_invalid_json_result(
                r,
                CheckState::BitcoinHeader,
                rpc@,
            )
            &&& spec_http_success(status) && json_accepts(body@) ==> r.protocol@ == "bitcoin"@
                && r.rpc@ == rpc@ && r.error is None && r.result == Some(
                ResultData::Block { height: btc_header_height(body@) },
            ) && r.reachable == (btc_header_height(body@) is Some)
        },
{
    match event {
        HttpEvent::Failure { error } => transport_failure(CheckState::BitcoinHeader, rpc, error),
        HttpEvent::Response { status, body } => {
            if !http_success(status) {
                return http_failure(CheckState::BitcoinHeader, rpc, status);
            }
            match parse_json(body.as_str()) {
                Err(e) => invalid_json_failure(
                    CheckState::BitcoinHeader,
                    rpc,
                    json_error_message(&e),
                ),
                Ok(v) => {
                    let height = u64_field2(&v, "result", "height");
                    let reachable = height.is_some();
                    CheckResult {
                        protocol: "bitcoin".to_owned(),
                        rpc: rpc.to_owned(),
                        reachable,
                        result: Some(ResultData::Block { height }),
                        error: None,
                    }
                },
            }
        },
    }
}

} // verus!
