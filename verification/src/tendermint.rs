//! The Tendermint adapter: REST calls against `/status`, `/health` and
//! `/block`, and the interpretation of their responses.

use crate::codec::parse_dec_u64;
use crate::codec::spec_dec;
use crate::codec::spec_parse_dec_u64;
use crate::codec::u64_to_dec;
use crate::json::bool_field3;
use crate::json::json_accepts;
use crate::json::json_bool_field3;
use crate::json::json_error_message;
use crate::json::json_str_field3;
use crate::json::json_str_field4;
use crate::json::parse_json;
use crate::json::str_field3;
use crate::json::str_field4;
use crate::http_success;
use crate::spec_http_success;
use crate::types::http_error_text;
use crate::types::is_failed_result;
use crate::types::is_invalid_json_result;
use crate::types::http_failure;
use crate::types::invalid_json_failure;
use crate::types::transport_failure;
use crate::types::transport_text;
use crate::types::CheckResult;
use crate::types::CheckState;
use crate::types::HttpEvent;
use crate::types::HttpRequest;
use crate::types::ResultData;
use crate::types::Step;
use crate::types::TendermintMethod;
use vstd::prelude::*;
use vstd::string::StringExecFns;

verus! {

/// The state awaiting the one response a Tendermint method needs.
pub open spec fn tendermint_state(m: TendermintMethod) -> CheckState {
    match m {
        TendermintMethod::Status => CheckState::TendermintStatus,
        TendermintMethod::Health => CheckState::TendermintHealth,
        TendermintMethod::Block { .. } => CheckState::TendermintBlock,
    }
}

/// The URL a Tendermint method is fetched from.
pub open spec fn tendermint_url(rpc: Seq<char>, m: TendermintMethod) -> Seq<char> {
    match m {
        TendermintMethod::Status => rpc + "/status"@,
        TendermintMethod::Health => rpc + "/health"@,
        TendermintMethod::Block { height: None } => rpc + "/block"@,
        TendermintMethod::Block { height: Some(h) } => rpc + "/block?height="@ + spec_dec(
            h as nat,
        ),
    }
}

/// The request that opens a Tendermint check: a GET of the method's URL.
pub open spec fn tendermint_request_ok(
    m: TendermintMethod,
    rpc: Seq<char>,
    request: HttpRequest,
) -> bool {
    request matches HttpRequest::Get { url } && url@ == tendermint_url(rpc, m)
}

/// Plans a Tendermint check: one GET, whose response settles the check.
pub fn check_tendermint(method: TendermintMethod, rpc: &str) -> (r: Step)
    ensures
        r matches Step::Pending { state, request } && state == tendermint_state(method)
            && tendermint_request_ok(method, rpc@, request),
{
    let mut url = rpc.to_owned();
    match method {
        TendermintMethod::Status => url.append("/status"),
        TendermintMethod::Health => url.append("/health"),
        TendermintMethod::Block { height: None } => url.append("/block"),
        TendermintMethod::Block { height: Some(h) } => {
            url.append("/block?height=");
            let num = u64_to_dec(h);
            url.append(num.as_str());
        },
    }
    let state = match method {
        TendermintMethod::Status => CheckState::TendermintStatus,
        TendermintMethod::Health => CheckState::TendermintHealth,
        TendermintMethod::Block { height: _ } => CheckState::TendermintBlock,
    };
    Step::Pending { state, request: HttpRequest::Get { url } }
}

/// The height a Tendermint status response reports: the decimal string at
/// `result.sync_info.latest_block_height`, if it is there and parses.
pub open spec fn tendermint_status_height(doc: Seq<char>) -> Option<u64> {
    match json_str_field3(doc, "result"@, "sync_info"@, "latest_block_height"@) {
        Some(s) => spec_parse_dec_u64(s),
        None => None,
    }
}

/// Whether a Tendermint status response says the node is catching up: the
/// boolean at `result.sync_info.catching_up`, if it is there.
pub open spec fn tendermint_status_syncing(doc: Seq<char>) -> Option<bool> {
    json_bool_field3(doc, "result"@, "sync_info"@, "catching_up"@)
}

/// The height a Tendermint block response reports: the decimal string at
/// `result.block.header.height`, if it is there and parses.
pub open spec fn tendermint_block_height(doc: Seq<char>) -> Option<u64> {
    match json_str_field4(doc, "result"@, "block"@, "header"@, "height"@) {
        Some(s) => spec_parse_dec_u64(s),
        None => None,
    }
}

/// Settles a Tendermint status check from the `/status` response: on a
/// parseable 2xx body it reports the node reachable with
/// `result.sync_info.latest_block_height` (a decimal string) and
/// `result.sync_info.catching_up`.
pub fn tendermint_status_interpret(rpc: &str, event: HttpEvent) -> (r: CheckResult)
    ensures
        r.wf(),
        event matches HttpEvent::Failure { error } ==> is_failed_result(
            r,
            CheckState::TendermintStatus,
            rpc@,
            transport_text(error@),
        ) && (r.error matches Some(e) && e@.len() > 0),
        event matches HttpEvent::Response { status, body } ==> {
            &&& !spec_http_success(status) ==> is_failed_result(
                r,
                CheckState::TendermintStatus,
                rpc@,
                http_error_text(status),
            )
            &&& spec_http_success(status) && !json_accepts(body@) ==> is_invalid_json_result(
                r,
                CheckState::TendermintStatus,
                rpc@,
            )
            &&& spec_http_success(status) && json_accepts(body@) ==> r.protocol@ == "tendermint"@
                && r.rpc@ == rpc@ && r.reachable && r.error is None && r.result == Some(
                ResultData::Status {
                    latest_block: tendermint_status_height(body@),
                    syncing: tendermint_status_syncing(body@),
                },
            )
        },
{
    match event {
        HttpEvent::Failure { error } => transport_failure(
            CheckState::TendermintStatus,
            rpc,
            error,
        ),
        HttpEvent::Response { status, body } => {
            if !http_success(status) {
                return http_failure(CheckState::TendermintStatus, rpc, status);
            }
            match parse_json(body.as_str()) {
                Err(e) => invalid_json_failure(
                    CheckState::TendermintStatus,
                    rpc,
                    json_error_message(&e),
                ),
                Ok(v) => {
                    let latest_block = match str_field3(
                        &v,
                        "result",
                        "sync_info",
                        "latest_block_height",
                    ) {
                        Some(s) => parse_dec_u64(s.as_str()),
                        None => None,
                    };
                    let syncing = bool_field3(&v, "result", "sync_info", "catching_up");
                    CheckResult {
                        protocol: "tendermint".to_owned(),
                        rpc: rpc.to_owned(),
                        reachable: true,
                        result: Some(ResultData::Status { latest_block, syncing }),
                        error: None,
                    }
                },
            }
        },
    }
}

/// Settles a Tendermint health check from the `/health` response: any 2xx
/// response means healthy; everything else reports `healthy: false` beside
/// the error.
pub fn tendermint_health_interpret(rpc: &str, event: HttpEvent) -> (r: CheckResult)
    ensures
        r.wf(),
        event matches HttpEvent::Failure { error } ==> is_failed_result(
            r,
            CheckState::TendermintHealth,
            rpc@,
            transport_text(error@),
        ) && (r.error matches Some(e) && e@.len() > 0),
        event matches HttpEvent::Response { status, body } ==> {
            &&& !spec_http_success(status) ==> is_failed_result(
                r,
                CheckState::TendermintHealth,
                rpc@,
                http_error_text(status),
            )
            &&& spec_http_success(status) ==> r.protocol@ == "tendermint"@ && r.rpc@ == rpc@
                && r.reachable && r.error is None && r.result == Some(
                ResultData::Health { healthy: true },
            )
        },
{
    match event {
        HttpEvent::Failure { error } => transport_failure(
            CheckState::TendermintHealth,
            rpc,
            error,
        ),
        HttpEvent::Response { status, body: _ } => {
            if !http_success(status) {
                return http_failure(CheckState::TendermintHealth, rpc, status);
            }
            CheckResult {
                protocol: "tendermint".to_owned(),
                rpc: rpc.to_owned(),
                reachable: true,
                result: Some(ResultData::Health { healthy: true }),
                error: None,
            }
        },
    }
}

/// Settles a Tendermint block check from the `/block` response: on a
/// parseable 2xx body it reports the node reachable with
/// `result.block.header.height` (a decimal string).
pub fn tendermint_block_interpret(rpc: &str, event: HttpEvent) -> (r: CheckResult)
    ensures
        r.wf(),
        event matches HttpEvent::Failure { error } ==> is_failed_result(
            r,
            CheckState::TendermintBlock,
            rpc@,
            transport_text(error@),
        ) && (r.error matches Some(e) && e@.len() > 0),
        event matches HttpEvent::Response { status, body } ==> {
            &&& !spec_http_success(status) ==> is_failed_result(
                r,
                CheckState::TendermintBlock,
                rpc@,
                http_error_text(status),
            )
            &&& spec_http_success(status) && !json_accepts(body@) ==> is_invalid_json_result(
                r,
                CheckState::TendermintBlock,
                rpc@,
            )
            &&& spec_http_success(status) && json_accepts(body@) ==> r.protocol@ == "tendermint"@
                && r.rpc@ == rpc@ && r.reachable && r.error is None && r.result == Some(
                ResultData::Block { height: tendermint_block_height(body@) },
            )
        },
{
    match event {
        HttpEvent::Failure { error } => transport_failure(CheckState::TendermintBlock, rpc, error),
        HttpEvent::Response { status, body } => {
            if !http_success(status) {
                return http_failure(CheckState::TendermintBlock, rpc, status);
            }
            match parse_json(body.as_str()) {
                Err(e) => invalid_json_failure(
                    CheckState::TendermintBlock,
                    rpc,
                    json_error_message(&e),
                ),
                Ok(v) => {
                    let height = match str_field4(&v, "result", "block", "header", "height") {
                        Some(s) => parse_dec_u64(s.as_str()),
                        None => None,
                    };
                    CheckResult {
                        protocol: "tendermint".to_owned(),
                        rpc: rpc.to_owned(),
                        reachable: true,
                        result: Some(ResultData::Block { height }),
                        error: None,
                    }
                },
            }
        },
    }
}

} // verus!
