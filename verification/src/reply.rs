//! HTTP replies: mapping translation and upstream outcomes to a status
//! code and body.
//!
//! Every per-request failure becomes a structured reply; no input aborts
//! the process. A validation failure is a client error naming the
//! offending parameter; an upstream semantic failure is a client error;
//! an upstream transport failure is a server error.

use vstd::prelude::*;
use crate::route::Param;
use crate::route::RouteError;
use crate::route::RpcCall;
use crate::route::route_result_view;
use crate::route::spec_route;
use crate::route::translate;

verus! {

/// An HTTP reply: a status code and a body.
#[derive(Debug, Clone, PartialEq, Eq)]
pub struct HttpReply {
    pub status: u16,
    pub body: String,
}

/// How an upstream call failed.
#[derive(Debug, Clone, Copy, PartialEq, Eq)]
pub enum UpstreamError {
    /// The upstream answered, and reported the entity unknown or out of
    /// range.
    NotFound,
    /// The transport failed: connection refused, authentication, timeout.
    Transport,
}

/// The status code of a reply to a failed translation.
pub open spec fn error_status(e: RouteError) -> u16 {
    match e {
        RouteError::UnknownRoute => 404,
        RouteError::BadDigest { .. } => 400,
        RouteError::BadInteger { .. } => 400,
    }
}

/// The body of a reply to a failed translation: it names the offending
/// parameter.
pub open spec fn error_body(e: RouteError) -> Seq<char> {
    match e {
        RouteError::UnknownRoute => "unknown route"@,
        RouteError::BadDigest { param } => match param {
            Param::Txid => "invalid txid: expected 64 hexadecimal characters"@,
            _ => "invalid hash: expected 64 hexadecimal characters"@,
        },
        RouteError::BadInteger { param } => match param {
            Param::Vout => "invalid vout: expected a non-negative integer"@,
            _ => "invalid height: expected a non-negative integer"@,
        },
    }
}

/// The status code of a reply to a failed upstream call.
pub open spec fn upstream_status(e: UpstreamError) -> u16 {
    match e {
        UpstreamError::NotFound => 404,
        UpstreamError::Transport => 502,
    }
}

/// The body of a reply to a failed upstream call.
pub open spec fn upstream_body(e: UpstreamError) -> Seq<char> {
    match e {
        UpstreamError::NotFound => "upstream: not found"@,
        UpstreamError::Transport => "upstream: transport failure"@,
    }
}

/// The reply to a request whose path failed translation.
pub fn error_reply(e: RouteError) -> (r: HttpReply)
    ensures
        r.status == error_status(e),
        r.body@ == error_body(e),
        r.status >= 400,
{
    match e {
        RouteError::UnknownRoute => HttpReply {
            status: 404,
            body: String::from_str("unknown route"),
        },
        RouteError::BadDigest { param } => HttpReply {
            status: 400,
            body: match param {
                Param::Txid => String::from_str("invalid txid: expected 64 hexadecimal characters"),
                _ => String::from_str("invalid hash: expected 64 hexadecimal characters"),
            },
        },
        RouteError::BadInteger { param } => HttpReply {
            status: 400,
            body: match param {
                Param::Vout => String::from_str("invalid vout: expected a non-negative integer"),
                _ => String::from_str("invalid height: expected a non-negative integer"),
            },
        },
    }
}

/// The reply to a request whose upstream call completed: the upstream's
/// serialized result, passed through unmodified with status 200, or one
/// error reply for the one failed call.
pub fn reply_for_outcome(outcome: Result<String, UpstreamError>) -> (r: HttpReply)
    ensures
        outcome matches Ok(body) ==> r.status == 200 && r.body@ == body@,
        outcome matches Err(e) ==> r.status == upstream_status(e) && r.body@ == upstream_body(e)
            && r.status >= 400,
{
    match outcome {
        Ok(body) => HttpReply { status: 200, body },
        Err(UpstreamError::NotFound) => HttpReply {
            status: 404,
            body: String::from_str("upstream: not found"),
        },
        Err(UpstreamError::Transport) => HttpReply {
            status: 502,
            body: String::from_str("upstream: transport failure"),
        },
    }
}

/// Translate a request path, and on failure build the error reply at
/// once: the caller makes an upstream call only for an `Ok` result.
pub fn route_or_reply(path: &str) -> (r: Result<RpcCall, HttpReply>)
    ensures
        match r {
            Ok(c) => c.wf() && spec_route(path@) == route_result_view(Ok::<RpcCall, RouteError>(c)),
            Err(reply) => {
                &&& spec_route(path@) is Err
                &&& reply.status == error_status(spec_route(path@)->Err_0)
                &&& reply.body@ == error_body(spec_route(path@)->Err_0)
                &&& reply.status >= 400
            },
        },
{
    match translate(path) {
        Ok(c) => Ok(c),
        Err(e) => Err(error_reply(e)),
    }
}

} // verus!
