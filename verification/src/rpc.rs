//! The read-only call boundary: the request and response bodies the RPC
//! façade exchanges, and the classification of a call's outcome into the
//! response callers see. The HTTP plumbing itself stays outside the core.

use vstd::prelude::*;

use crate::cost::ExecutionCost;

verus! {

/// The JSON body of a read-only call request.
#[derive(Clone)]
pub struct CallReadOnlyRequestBody {
    pub sender: String,
    pub sponsor: Option<String>,
    pub arguments: Vec<String>,
}

/// The JSON body of a read-only call response.
#[derive(Clone, Debug)]
pub struct CallReadOnlyResponse {
    pub okay: bool,
    pub result: Option<String>,
    pub cause: Option<String>,
}

/// The read-only call handler's configuration and per-request fields.
pub struct RPCCallReadOnlyRequestHandler {
    pub maximum_call_argument_size: u32,
    pub read_only_call_limit: ExecutionCost,
    pub contract_identifier: Option<String>,
    pub function: Option<String>,
    pub sender: Option<String>,
    pub sponsor: Option<String>,
    pub arguments: Option<Vec<String>>,
}

impl RPCCallReadOnlyRequestHandler {
    pub fn new(maximum_call_argument_size: u32, read_only_call_limit: ExecutionCost) -> (r:
        RPCCallReadOnlyRequestHandler)
        ensures
            r.maximum_call_argument_size == maximum_call_argument_size,
            r.read_only_call_limit == read_only_call_limit,
            r.contract_identifier is None,
            r.function is None,
            r.sender is None,
            r.sponsor is None,
            r.arguments is None,
    {
        RPCCallReadOnlyRequestHandler {
            maximum_call_argument_size,
            read_only_call_limit,
            contract_identifier: None,
            function: None,
            sender: None,
            sponsor: None,
            arguments: None,
        }
    }

    pub fn verb(&self) -> (r: &'static str)
        ensures
            r@ == "POST"@,
    {
        "POST"
    }

    pub fn metrics_identifier(&self) -> (r: &'static str)
        ensures
            r@ == "/v2/contracts/call-read/:principal/:contract_name/:func_name"@,
    {
        "/v2/contracts/call-read/:principal/:contract_name/:func_name"
    }

    /// Reset the per-request fields, keeping the configuration.
    pub fn restart(&mut self)
        ensures
            final(self).maximum_call_argument_size == old(self).maximum_call_argument_size,
            final(self).read_only_call_limit == old(self).read_only_call_limit,
            final(self).contract_identifier is None,
            final(self).function is None,
            final(self).sender is None,
            final(self).sponsor is None,
            final(self).arguments is None,
    {
        self.contract_identifier = None;
        self.function = None;
        self.sender = None;
        self.sponsor = None;
        self.arguments = None;
    }

    /// A request body must be non-empty and under the configured argument
    /// size bound.
    pub fn body_size_ok(&self, content_len: u32) -> (r: bool)
        ensures
            r == (0 < content_len && content_len < self.maximum_call_argument_size),
    {
        content_len > 0 && content_len < self.maximum_call_argument_size
    }
}

/// The cost ceiling a read-only call runs under: the configured limit with
/// every write dimension forced to zero, so a call that writes anything
/// runs out of write budget at once.
pub fn read_only_cost_limit(limit: &ExecutionCost) -> (r: ExecutionCost)
    ensures
        r.write_length == 0,
        r.write_count == 0,
        r.read_length == limit.read_length,
        r.read_count == limit.read_count,
        r.runtime == limit.runtime,
{
    ExecutionCost {
        write_length: 0,
        write_count: 0,
        read_length: limit.read_length,
        read_count: limit.read_count,
        runtime: limit.runtime,
    }
}

/// How running a read-only call came out, before it is rendered into a
/// response.
pub enum ReadOnlyCallOutcome {
    /// The call returned a value, already hex-encoded.
    Value(String),
    /// The call ran out of budget; carries the cost it had consumed and
    /// the rendered error text.
    CostExceeded(ExecutionCost, String),
    /// The requested chain tip does not exist.
    TipNotFound,
    /// Any other failure, rendered to text.
    Other(String),
}

/// Render a call outcome as the response body, or `None` for the one case
/// (a missing chain tip) answered as an HTTP not-found instead.
///
/// A budget overrun that consumed write budget can only mean the call
/// attempted writes, which a read-only call may not: that case is reported
/// as not read-only rather than as an ordinary failure.
pub fn make_call_readonly_response(outcome: &ReadOnlyCallOutcome) -> (r: Option<
    CallReadOnlyResponse,
>)
    ensures
        match *outcome {
            ReadOnlyCallOutcome::Value(ref hex) => r matches Some(resp) && ({
                &&& resp.okay
                &&& resp.result matches Some(s) && s@ == "0x"@ + hex@
                &&& resp.cause is None
            }),
            ReadOnlyCallOutcome::CostExceeded(cost, ref msg) => r matches Some(resp) && ({
                &&& !resp.okay
                &&& resp.result is None
                &&& resp.cause matches Some(c) && (if cost.write_count > 0 {
                    c@ == "NotReadOnly"@
                } else {
                    c == *msg
                })
            }),
            ReadOnlyCallOutcome::TipNotFound => r is None,
            ReadOnlyCallOutcome::Other(ref msg) => r matches Some(resp) && ({
                &&& !resp.okay
                &&& resp.result is None
                &&& resp.cause matches Some(c) && c == *msg
            }),
        },
{
    match outcome {
        ReadOnlyCallOutcome::Value(hex) => {
            let prefix: String = String::from_str("0x");
            Some(
                CallReadOnlyResponse {
                    okay: true,
                    result: Some(prefix.concat(hex.as_str())),
                    cause: None,
                },
            )
        },
        ReadOnlyCallOutcome::CostExceeded(cost, msg) => {
            if cost.write_count > 0 {
                Some(
                    CallReadOnlyResponse {
                        okay: false,
                        result: None,
                        cause: Some(String::from_str("NotReadOnly")),
                    },
                )
            } else {
                Some(CallReadOnlyResponse { okay: false, result: None, cause: Some(msg.clone()) })
            }
        },
        ReadOnlyCallOutcome::TipNotFound => None,
        ReadOnlyCallOutcome::Other(msg) => {
            Some(CallReadOnlyResponse { okay: false, result: None, cause: Some(msg.clone()) })
        },
    }
}

} // verus!
