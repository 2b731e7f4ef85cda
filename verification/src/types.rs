//! The checker's data model: protocols, methods, the normalized check
//! result, and the request/event shapes a check exchanges with its caller.

use crate::codec::spec_dec;
use crate::codec::u64_to_dec;
use vstd::prelude::*;
use vstd::string::StringExecFns;

verus! {

#[derive(Clone, Copy, Debug, PartialEq, Eq)]
pub enum Protocol {
    Tendermint,
    Ethereum,
    Bitcoin,
}

#[derive(Clone, Copy, Debug, PartialEq, Eq)]
pub enum TendermintMethod {
    Status,
    Health,
    Block { height: Option<u64> },
}

#[derive(Clone, Copy, Debug, PartialEq, Eq)]
pub enum EthereumMethod {
    Status,
    Health,
    Block { height: Option<u64> },
}

#[derive(Clone, Copy, Debug, PartialEq, Eq)]
pub enum BitcoinMethod {
    Status,
    Health,
    Block { height: Option<u64> },
}

#[derive(Clone, Copy, Debug, PartialEq, Eq)]
pub enum Command {
    Tendermint(TendermintMethod),
    Ethereum(EthereumMethod),
    Bitcoin(BitcoinMethod),
}

/// The payload of a successful check, tagged by method.
#[derive(Clone, Copy, Debug, PartialEq, Eq)]
pub enum ResultData {
    Status { latest_block: Option<u64>, syncing: Option<bool> },
    Health { healthy: bool },
    Block { height: Option<u64> },
}

/// The normalized outcome of one check against one endpoint.
#[derive(Clone, Debug)]
pub struct CheckResult {
    pub protocol: String,
    pub rpc: String,
    pub reachable: bool,
    pub result: Option<ResultData>,
    pub error: Option<String>,
}

impl CheckResult {
    /// Every produced result carries a payload or an error, and a reachable
    /// endpoint is never paired with an error message.
    pub open spec fn wf(self) -> bool {
        &&& self.result is Some || self.error is Some
        &&& self.reachable ==> self.error is None
    }
}

/// Credentials for endpoints that ask for HTTP basic authentication.
#[derive(Clone, Debug)]
pub struct BasicAuth {
    pub user: String,
    pub pass: String,
}

/// One HTTP call the caller is asked to perform.
#[derive(Clone, Debug)]
pub enum HttpRequest {
    Get { url: String },
    Post { url: String, body: String, auth: Option<BasicAuth> },
}

/// What came back from one HTTP call: a transport failure, or a response
/// with its status code and body text.
#[derive(Clone, Debug)]
pub enum HttpEvent {
    Failure { error: String },
    Response { status: u16, body: String },
}

/// Where a check stands: which response it is waiting for.
#[derive(Clone, Copy, Debug, PartialEq, Eq)]
pub enum CheckState {
    TendermintStatus,
    TendermintHealth,
    TendermintBlock,
    EthereumSyncing,
    EthereumBlockNumber { syncing: bool },
    EthereumHealth,
    EthereumBlock,
    BitcoinStatus,
    BitcoinHealth,
    BitcoinInfo,
    BitcoinHash { height: u64 },
    BitcoinHeader,
}

/// A check either needs one more HTTP call or is done.
#[derive(Clone, Debug)]
pub enum Step {
    Pending { state: CheckState, request: HttpRequest },
    Done { result: CheckResult },
}

/// The protocol name reported by checks in this state.
pub open spec fn state_protocol(state: CheckState) -> Seq<char> {
    match state {
        CheckState::TendermintStatus => "tendermint"@,
        CheckState::TendermintHealth => "tendermint"@,
        CheckState::TendermintBlock => "tendermint"@,
        CheckState::EthereumSyncing => "ethereum"@,
        CheckState::EthereumBlockNumber { .. } => "ethereum"@,
        CheckState::EthereumHealth => "ethereum"@,
        CheckState::EthereumBlock => "ethereum"@,
        CheckState::BitcoinStatus => "bitcoin"@,
        CheckState::BitcoinHealth => "bitcoin"@,
        CheckState::BitcoinInfo => "bitcoin"@,
        CheckState::BitcoinHash { .. } => "bitcoin"@,
        CheckState::BitcoinHeader => "bitcoin"@,
    }
}

/// The payload a failed check still carries: health checks report an
/// unhealthy node, every other method reports no payload.
pub open spec fn failure_payload(state: CheckState) -> Option<ResultData> {
    match state {
        CheckState::TendermintHealth => Some(ResultData::Health { healthy: false }),
        CheckState::EthereumHealth => Some(ResultData::Health { healthy: false }),
        CheckState::BitcoinHealth => Some(ResultData::Health { healthy: false }),
        _ => None,
    }
}

/// The error text reported for a transport failure: the transport's own
/// message, or a fixed one where that message is empty.
pub open spec fn transport_text(e: Seq<char>) -> Seq<char> {
    if e.len() == 0 {
        "transport error"@
    } else {
        e
    }
}

/// The error text reported for a response outside the 2xx range.
pub open spec fn http_error_text(status: u16) -> Seq<char> {
    "HTTP "@ + spec_dec(status as nat)
}

pub open spec fn starts_with(s: Seq<char>, prefix: Seq<char>) -> bool {
    s.len() >= prefix.len() && s.subrange(0, prefix.len() as int) == prefix
}

/// A `CheckResult` that reports the endpoint unreachable for `state`'s
/// check, with error text `msg`.
pub open spec fn is_failed_result(
    r: CheckResult,
    state: CheckState,
    rpc: Seq<char>,
    msg: Seq<char>,
) -> bool {
    &&& r.protocol@ == state_protocol(state)
    &&& r.rpc@ == rpc
    &&& !r.reachable
    &&& r.result == failure_payload(state)
    &&& r.error matches Some(e) && e@ == msg
}

/// A `CheckResult` that reports an unparseable response body for `state`'s
/// check: unreachable, with an error that starts with `Invalid JSON:`.
pub open spec fn is_invalid_json_result(r: CheckResult, state: CheckState, rpc: Seq<char>) -> bool {
    &&& r.protocol@ == state_protocol(state)
    &&& r.rpc@ == rpc
    &&& !r.reachable
    &&& r.result == failure_payload(state)
    &&& r.error matches Some(e) && starts_with(e@, "Invalid JSON: "@)
}

pub(crate) fn protocol_name_of(state: CheckState) -> (r: String)
    ensures
        r@ == state_protocol(state),
{
    match state {
        CheckState::TendermintStatus => "tendermint".to_owned(),
        CheckState::TendermintHealth => "tendermint".to_owned(),
        CheckState::TendermintBlock => "tendermint".to_owned(),
        CheckState::EthereumSyncing => "ethereum".to_owned(),
        CheckState::EthereumBlockNumber { syncing: _ } => "ethereum".to_owned(),
        CheckState::EthereumHealth => "ethereum".to_owned(),
        CheckState::EthereumBlock => "ethereum".to_owned(),
        CheckState::BitcoinStatus => "bitcoin".to_owned(),
        CheckState::BitcoinHealth => "bitcoin".to_owned(),
        CheckState::BitcoinInfo => "bitcoin".to_owned(),
        CheckState::BitcoinHash { height: _ } => "bitcoin".to_owned(),
        CheckState::BitcoinHeader => "bitcoin".to_owned(),
    }
}

fn failure_payload_of(state: CheckState) -> (r: Option<ResultData>)
    ensures
        r == failure_payload(state),
{
    match state {
        CheckState::TendermintHealth => Some(ResultData::Health { healthy: false }),
        CheckState::EthereumHealth => Some(ResultData::Health { healthy: false }),
        CheckState::BitcoinHealth => Some(ResultData::Health { healthy: false }),
        _ => None,
    }
}

/// The failed check for `state` with error text `msg`.
pub(crate) fn failed_result(state: CheckState, rpc: &str, msg: String) -> (r: CheckResult)
    ensures
        is_failed_result(r, state, rpc@, msg@),
        r.wf(),
{
    CheckResult {
        protocol: protocol_name_of(state),
        rpc: rpc.to_owned(),
        reachable: false,
        result: failure_payload_of(state),
        error: Some(msg),
    }
}

/// The failed check for a transport-level error; the error text is never
/// empty.
pub(crate) fn transport_failure(state: CheckState, rpc: &str, error: String) -> (r: CheckResult)
    ensures
        is_failed_result(r, state, rpc@, transport_text(error@)),
        r.error matches Some(e) && e@.len() > 0,
        r.wf(),
{
    let msg = if error.as_str().is_empty() {
        proof {
            reveal_strlit("transport error");
        }
        "transport error".to_owned()
    } else {
        error
    };
    failed_result(state, rpc, msg)
}

/// The failed check for a response outside the 2xx range: `HTTP `, then the
/// status code in decimal.
pub(crate) fn http_failure(state: CheckState, rpc: &str, status: u16) -> (r: CheckResult)
    ensures
        is_failed_result(r, state, rpc@, http_error_text(status)),
        r.wf(),
{
    let mut msg = "HTTP ".to_owned();
    let num = u64_to_dec(status as u64);
    msg.append(num.as_str());
    failed_result(state, rpc, msg)
}

/// The failed check for a response body that is not JSON: `Invalid JSON: `,
/// then the parser's message.
pub(crate) fn invalid_json_failure(state: CheckState, rpc: &str, detail: String) -> (r:
    CheckResult)
    ensures
        is_failed_result(r, state, rpc@, "Invalid JSON: "@ + detail@),
        is_invalid_json_result(r, state, rpc@),
        r.wf(),
{
    let mut msg = "Invalid JSON: ".to_owned();
    msg.append(detail.as_str());
    proof {
        assert(msg@.subrange(0, "Invalid JSON: "@.len() as int) =~= "Invalid JSON: "@);
    }
    failed_result(state, rpc, msg)
}

} // verus!
