//! The route table: the fixed mapping from REST paths to upstream RPC calls.
//!
//! `translate` takes a request path and returns either the fully decoded
//! upstream call it stands for, or the error that rules it out: an unknown
//! route, a malformed digest, or a malformed integer. No upstream call is
//! decided by anything but the path, and a path that fails validation
//! never reaches the upstream.

use vstd::prelude::*;
use crate::hex::Digest;
use crate::hex::digest_bytes;
use crate::hex::is_digest_str;
use crate::hex::parse_digest;
use crate::num::parse_u32;
use crate::num::parse_u32_str;
use crate::num::parse_u64;
use crate::num::parse_u64_str;
use crate::text::find_slash;
use crate::text::first_slash;
use crate::text::lemma_first_slash_at;
use crate::text::lemma_first_slash_none;
use crate::text::slash_free;
use crate::text::starts_with;
use crate::text::str_eq;
use crate::text::str_has_prefix;

verus! {

/// The path parameter a validation failure is about.
#[derive(Debug, Clone, Copy, PartialEq, Eq)]
pub enum Param {
    Hash,
    Txid,
    Height,
    Vout,
}

/// Why a request is rejected before any upstream call is made.
#[derive(Debug, Clone, Copy, PartialEq, Eq)]
pub enum RouteError {
    /// The path matches no route template.
    UnknownRoute,
    /// A digest parameter is not exactly 64 hexadecimal characters.
    BadDigest { param: Param },
    /// An integer parameter is not a numeral that fits its width.
    BadInteger { param: Param },
}

/// An upstream RPC call, with every parameter decoded and validated.
#[derive(Debug, Clone, PartialEq, Eq)]
pub enum RpcCall {
    BestBlockHash,
    GetBlock { hash: Digest },
    GetBlockchainInfo,
    GetBlockCount,
    GetBlockFilter { hash: Digest },
    GetBlockHash { height: u64 },
    GetBlockHeader { hash: Digest },
    GetChainTips,
    GetDifficulty,
    GetTxOut { txid: Digest, vout: u32, include_mempool: bool },
    GetRawMempool,
    GetMempoolEntry { txid: Digest },
    GetTxOutSetInfo,
}

/// The mathematical form of an upstream call: digests as byte sequences.
pub enum CallView {
    BestBlockHash,
    GetBlock { hash: Seq<u8> },
    GetBlockchainInfo,
    GetBlockCount,
    GetBlockFilter { hash: Seq<u8> },
    GetBlockHash { height: u64 },
    GetBlockHeader { hash: Seq<u8> },
    GetChainTips,
    GetDifficulty,
    GetTxOut { txid: Seq<u8>, vout: u32, include_mempool: bool },
    GetRawMempool,
    GetMempoolEntry { txid: Seq<u8> },
    GetTxOutSetInfo,
}

impl View for RpcCall {
    type V = CallView;

    open spec fn view(&self) -> CallView {
        match self {
            RpcCall::BestBlockHash => CallView::BestBlockHash,
            RpcCall::GetBlock { hash } => CallView::GetBlock { hash: hash@ },
            RpcCall::GetBlockchainInfo => CallView::GetBlockchainInfo,
            RpcCall::GetBlockCount => CallView::GetBlockCount,
            RpcCall::GetBlockFilter { hash } => CallView::GetBlockFilter { hash: hash@ },
            RpcCall::GetBlockHash { height } => CallView::GetBlockHash { height: *height },
            RpcCall::GetBlockHeader { hash } => CallView::GetBlockHeader { hash: hash@ },
            RpcCall::GetChainTips => CallView::GetChainTips,
            RpcCall::GetDifficulty => CallView::GetDifficulty,
            RpcCall::GetTxOut { txid, vout, include_mempool } => CallView::GetTxOut {
                txid: txid@,
                vout: *vout,
                include_mempool: *include_mempool,
            },
            RpcCall::GetRawMempool => CallView::GetRawMempool,
            RpcCall::GetMempoolEntry { txid } => CallView::GetMempoolEntry { txid: txid@ },
            RpcCall::GetTxOutSetInfo => CallView::GetTxOutSetInfo,
        }
    }
}

impl RpcCall {
    /// Every digest carried by a call holds exactly 32 bytes.
    pub open spec fn wf(&self) -> bool {
        match self {
            RpcCall::GetBlock { hash } => hash.wf(),
            RpcCall::GetBlockFilter { hash } => hash.wf(),
            RpcCall::GetBlockHeader { hash } => hash.wf(),
            RpcCall::GetTxOut { txid, .. } => txid.wf(),
            RpcCall::GetMempoolEntry { txid } => txid.wf(),
            _ => true,
        }
    }
}

/// A path remainder that stands for a single template segment: non-empty
/// and free of separators.
pub open spec fn single_seg(rest: Seq<char>) -> bool {
    rest.len() > 0 && slash_free(rest)
}

/// What a digest-parameter remainder means: the decoded bytes, an unknown
/// route when the remainder is not one segment, or a validation error.
pub open spec fn digest_route(rest: Seq<char>, param: Param) -> Result<Seq<u8>, RouteError> {
    if !single_seg(rest) {
        Err(RouteError::UnknownRoute)
    } else if is_digest_str(rest) {
        Ok(digest_bytes(rest))
    } else {
        Err(RouteError::BadDigest { param })
    }
}

/// What a height remainder means.
pub open spec fn height_route(rest: Seq<char>) -> Result<u64, RouteError> {
    if !single_seg(rest) {
        Err(RouteError::UnknownRoute)
    } else {
        match parse_u64(rest) {
            Some(h) => Ok(h),
            None => Err(RouteError::BadInteger { param: Param::Height }),
        }
    }
}

/// Split an output-lookup remainder into its txid and vout segments. The
/// template is `{txid}/{vout}/`: two non-empty separator-free segments,
/// the second closed by a trailing separator.
pub open spec fn txout_split(rest: Seq<char>) -> Option<(Seq<char>, Seq<char>)> {
    let m = first_slash(rest);
    if 1 <= m && m + 2 < rest.len() && rest.last() == '/' && slash_free(
        rest.subrange(m + 1, rest.len() - 1),
    ) {
        Some((rest.take(m), rest.subrange(m + 1, rest.len() - 1)))
    } else {
        None
    }
}

/// What an output-lookup remainder means, for either output route.
pub open spec fn txout_route(rest: Seq<char>, include_mempool: bool) -> Result<
    CallView,
    RouteError,
> {
    match txout_split(rest) {
        Some(pair) => {
            if !is_digest_str(pair.0) {
                Err(RouteError::BadDigest { param: Param::Txid })
            } else {
                match parse_u32(pair.1) {
                    Some(vo) => Ok(
                        CallView::GetTxOut {
                            txid: digest_bytes(pair.0),
                            vout: vo,
                            include_mempool,
                        },
                    ),
                    None => Err(RouteError::BadInteger { param: Param::Vout }),
                }
            }
        },
        None => Err(RouteError::UnknownRoute),
    }
}

/// The route table itself: what any request path means.
pub open spec fn spec_route(p: Seq<char>) -> Result<CallView, RouteError> {
    if p == "/blockchain/bestblock"@ {
        Ok(CallView::BestBlockHash)
    } else if p == "/blockchain/info"@ {
        Ok(CallView::GetBlockchainInfo)
    } else if p == "/blockchain/blockcount"@ {
        Ok(CallView::GetBlockCount)
    } else if p == "/blockchain/chaintips"@ {
        Ok(CallView::GetChainTips)
    } else if p == "/blockchain/difficulty"@ {
        Ok(CallView::GetDifficulty)
    } else if p == "/mempool/raw"@ {
        Ok(CallView::GetRawMempool)
    } else if p == "/mempool/txoutsetinfo"@ {
        Ok(CallView::GetTxOutSetInfo)
    } else if starts_with(p, "/blockchain/block/"@) {
        match digest_route(p.skip("/blockchain/block/"@.len() as int), Param::Hash) {
            Ok(h) => Ok(CallView::GetBlock { hash: h }),
            Err(e) => Err(e),
        }
    } else if starts_with(p, "/blockchain/blockfilter/"@) {
        match digest_route(p.skip("/blockchain/blockfilter/"@.len() as int), Param::Hash) {
            Ok(h) => Ok(CallView::GetBlockFilter { hash: h }),
            Err(e) => Err(e),
        }
    } else if starts_with(p, "/blockchain/blockhash/"@) {
        match height_route(p.skip("/blockchain/blockhash/"@.len() as int)) {
            Ok(h) => Ok(CallView::GetBlockHash { height: h }),
            Err(e) => Err(e),
        }
    } else if starts_with(p, "/blockchain/blockheader/"@) {
        match digest_route(p.skip("/blockchain/blockheader/"@.len() as int), Param::Hash) {
            Ok(h) => Ok(CallView::GetBlockHeader { hash: h }),
            Err(e) => Err(e),
        }
    } else if starts_with(p, "/blockchain/txout/"@) {
        txout_route(p.skip("/blockchain/txout/"@.len() as int), false)
    } else if starts_with(p, "/mempool/txout/"@) {
        txout_route(p.skip("/mempool/txout/"@.len() as int), true)
    } else if starts_with(p, "/mempool/entry/"@) {
        match digest_route(p.skip("/mempool/entry/"@.len() as int), Param::Txid) {
            Ok(t) => Ok(CallView::GetMempoolEntry { txid: t }),
            Err(e) => Err(e),
        }
    } else {
        Err(RouteError::UnknownRoute)
    }
}

/// The mathematical form of a translation result.
pub open spec fn route_result_view(r: Result<RpcCall, RouteError>) -> Result<
    CallView,
    RouteError,
> {
    match r {
        Ok(c) => Ok(c@),
        Err(e) => Err(e),
    }
}

/// The remainder of a string after a prefix it starts with.
fn after_prefix<'a>(s: &'a str, p: &str) -> (r: &'a str)
    requires
        starts_with(s@, p@),
    ensures
        r@ == s@.skip(p@.len() as int),
{
    let np = p.unicode_len();
    let ns = s.unicode_len();
    let r = s.substring_char(np, ns);
    proof {
        assert(r@ =~= s@.skip(p@.len() as int));
    }
    r
}

/// Decode the remainder of a digest-parameter route.
fn digest_rest(rest: &str, param: Param) -> (r: Result<Digest, RouteError>)
    ensures
        match r {
            Ok(d) => d.wf() && digest_route(rest@, param) == Ok::<Seq<u8>, RouteError>(d@),
            Err(e) => digest_route(rest@, param) == Err::<Seq<u8>, RouteError>(e),
        },
{
    if rest.unicode_len() == 0 {
        return Err(RouteError::UnknownRoute);
    }
    match find_slash(rest) {
        Some(i) => {
            proof {
                assert(!slash_free(rest@));
            }
            Err(RouteError::UnknownRoute)
        },
        None => {
            match parse_digest(rest) {
                Some(d) => Ok(d),
                None => Err(RouteError::BadDigest { param }),
            }
        },
    }
}

/// Decode the remainder of the height route.
fn height_rest(rest: &str) -> (r: Result<u64, RouteError>)
    ensures
        match r {
            Ok(h) => height_route(rest@) == Ok::<u64, RouteError>(h),
            Err(e) => height_route(rest@) == Err::<u64, RouteError>(e),
        },
{
    if rest.unicode_len() == 0 {
        return Err(RouteError::UnknownRoute);
    }
    match find_slash(rest) {
        Some(i) => {
            proof {
                assert(!slash_free(rest@));
            }
            Err(RouteError::UnknownRoute)
        },
        None => {
            match parse_u64_str(rest) {
                Some(h) => Ok(h),
                None => Err(RouteError::BadInteger { param: Param::Height }),
            }
        },
    }
}

/// Decode the remainder of an output-lookup route.
fn txout_rest(rest: &str, include_mempool: bool) -> (r: Result<RpcCall, RouteError>)
    ensures
        match r {
            Ok(c) => c.wf() && txout_route(rest@, include_mempool) == Ok::<CallView, RouteError>(
                c@,
            ),
            Err(e) => txout_route(rest@, include_mempool) == Err::<CallView, RouteError>(e),
        },
{
    let rn = rest.unicode_len();
    match find_slash(rest) {
        None => {
            proof {
                lemma_first_slash_none(rest@);
            }
            Err(RouteError::UnknownRoute)
        },
        Some(m) => {
            proof {
                lemma_first_slash_at(rest@, m as int);
            }
            if m == 0 {
                Err(RouteError::UnknownRoute)
            } else {
                let txid_str = rest.substring_char(0, m);
                let tail = rest.substring_char(m + 1, rn);
                let tn = tail.unicode_len();
                match find_slash(tail) {
                    None => {
                        proof {
                            if m + 2 < rn {
                                assert(tail@[tn - 1] == rest@[rn - 1]);
                                assert(rest@.last() != '/');
                            }
                        }
                        Err(RouteError::UnknownRoute)
                    },
                    Some(k) => {
                        if k == 0 || k + 1 != tn {
                            proof {
                                if k + 1 != tn {
                                    if 1 <= m && m + 2 < rn && rest@.last() == '/' {
                                        let v = rest@.subrange(m + 1, rn - 1);
                                        assert(v[k as int] == tail@[k as int]);
                                        assert(!slash_free(v));
                                    }
                                }
                            }
                            Err(RouteError::UnknownRoute)
                        } else {
                            let vout_str = tail.substring_char(0, k);
                            proof {
                                assert(rn == m + 1 + tn);
                                assert(rest@.last() == tail@[k as int]);
                                assert(rest@.subrange(m + 1, rn - 1) =~= vout_str@);
                                assert(rest@.take(m as int) =~= txid_str@);
                                assert forall|j: int| 0 <= j < vout_str@.len() implies vout_str@[j]
                                    != '/' by {
                                    assert(vout_str@[j] == tail@[j]);
                                }
                                assert(slash_free(vout_str@));
                                assert(txout_split(rest@) == Some(
                                    (txid_str@, vout_str@),
                                ));
                            }
                            match parse_digest(txid_str) {
                                None => Err(RouteError::BadDigest { param: Param::Txid }),
                                Some(t) => {
                                    match parse_u32_str(vout_str) {
                                        None => Err(RouteError::BadInteger { param: Param::Vout }),
                                        Some(vo) => Ok(
                                            RpcCall::GetTxOut { txid: t, vout: vo, include_mempool },
                                        ),
                                    }
                                },
                            }
                        }
                    },
                }
            }
        },
    }
}

/// The upstream encoding of the mempool-inclusion flag: the parameter is
/// left absent on the confirmed-only route and passed as explicitly true
/// on the mempool-inclusive route.
pub fn mempool_flag(include_mempool: bool) -> (r: Option<bool>)
    ensures
        include_mempool ==> r == Some(true),
        !include_mempool ==> r is None,
{
    if include_mempool {
        Some(true)
    } else {
        None
    }
}

/// Translate a request path into the upstream call it stands for, or the
/// error that rules it out. The result is exactly what the route table
/// `spec_route` says of the path.
pub fn translate(path: &str) -> (r: Result<RpcCall, RouteError>)
    ensures
        route_result_view(r) == spec_route(path@),
        r matches Ok(c) ==> c.wf(),
{
    if str_eq(path, "/blockchain/bestblock") {
        Ok(RpcCall::BestBlockHash)
    } else if str_eq(path, "/blockchain/info") {
        Ok(RpcCall::GetBlockchainInfo)
    } else if str_eq(path, "/blockchain/blockcount") {
        Ok(RpcCall::GetBlockCount)
    } else if str_eq(path, "/blockchain/chaintips") {
        Ok(RpcCall::GetChainTips)
    } else if str_eq(path, "/blockchain/difficulty") {
        Ok(RpcCall::GetDifficulty)
    } else if str_eq(path, "/mempool/raw") {
        Ok(RpcCall::GetRawMempool)
    } else if str_eq(path, "/mempool/txoutsetinfo") {
        Ok(RpcCall::GetTxOutSetInfo)
    } else if str_has_prefix(path, "/blockchain/block/") {
        match digest_rest(after_prefix(path, "/blockchain/block/"), Param::Hash) {
            Ok(d) => Ok(RpcCall::GetBlock { hash: d }),
            Err(e) => Err(e),
        }
    } else if str_has_prefix(path, "/blockchain/blockfilter/") {
        match digest_rest(after_prefix(path, "/blockchain/blockfilter/"), Param::Hash) {
            Ok(d) => Ok(RpcCall::GetBlockFilter { hash: d }),
            Err(e) => Err(e),
        }
    } else if str_has_prefix(path, "/blockchain/blockhash/") {
        match height_rest(after_prefix(path, "/blockchain/blockhash/")) {
            Ok(h) => Ok(RpcCall::GetBlockHash { height: h }),
            Err(e) => Err(e),
        }
    } else if str_has_prefix(path, "/blockchain/blockheader/") {
        match digest_rest(after_prefix(path, "/blockchain/blockheader/"), Param::Hash) {
            Ok(d) => Ok(RpcCall::GetBlockHeader { hash: d }),
            Err(e) => Err(e),
        }
    } else if str_has_prefix(path, "/blockchain/txout/") {
        txout_rest(after_prefix(path, "/blockchain/txout/"), false)
    } else if str_has_prefix(path, "/mempool/txout/") {
        txout_rest(after_prefix(path, "/mempool/txout/"), true)
    } else if str_has_prefix(path, "/mempool/entry/") {
        match digest_rest(after_prefix(path, "/mempool/entry/"), Param::Txid) {
            Ok(d) => Ok(RpcCall::GetMempoolEntry { txid: d }),
            Err(e) => Err(e),
        }
    } else {
        Err(RouteError::UnknownRoute)
    }
}

} // verus!
