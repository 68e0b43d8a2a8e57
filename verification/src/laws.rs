//! Laws of the route table, stated and proved once for all inputs.

use vstd::prelude::*;
use crate::hex::is_dec_digit;
use crate::hex::is_digest_str;
use crate::num::is_dec_str;
use crate::num::parse_u64;
use crate::reply::error_status;
use crate::route::CallView;
use crate::route::Param;
use crate::route::RouteError;
use crate::route::height_route;
use crate::route::single_seg;
use crate::route::spec_route;
use crate::route::txout_route;
use crate::route::txout_split;
use crate::text::first_slash;
use crate::text::lemma_differ_at;
use crate::text::lemma_first_slash_at;
use crate::text::slash_free;
use crate::text::starts_with;

verus! {

/// A decimal numeral contains no path separator.
proof fn lemma_dec_str_slash_free(s: Seq<char>)
    requires
        is_dec_str(s),
    ensures
        slash_free(s),
{
    assert forall|i: int| 0 <= i < s.len() implies s[i] != '/' by {
        assert(is_dec_digit(s[i]));
        assert(('/' as u32) == 47);
    }
}

/// The height route issues the hash-at-height call with exactly the
/// height the path carries: for every numeral whose value fits, the
/// route table maps the path to that one call, unmodified.
pub proof fn lemma_blockhash_route(h: Seq<char>, v: u64)
    requires
        parse_u64(h) == Some::<u64>(v),
    ensures
        spec_route("/blockchain/blockhash/"@ + h) == Ok::<CallView, RouteError>(
            CallView::GetBlockHash { height: v },
        ),
{
    reveal_strlit("/blockchain/bestblock");
    reveal_strlit("/blockchain/info");
    reveal_strlit("/blockchain/blockcount");
    reveal_strlit("/blockchain/chaintips");
    reveal_strlit("/blockchain/difficulty");
    reveal_strlit("/mempool/raw");
    reveal_strlit("/mempool/txoutsetinfo");
    reveal_strlit("/blockchain/block/");
    reveal_strlit("/blockchain/blockfilter/");
    reveal_strlit("/blockchain/blockhash/");
    let pre = "/blockchain/blockhash/"@;
    let p = pre + h;
    assert(is_dec_str(h));
    lemma_dec_str_slash_free(h);
    assert(p[1] == pre[1]);
    assert(p[12] == pre[12]);
    assert(p[13] == pre[13]);
    assert(p[17] == pre[17]);
    lemma_differ_at(p, "/blockchain/bestblock"@, 13);
    lemma_differ_at(p, "/blockchain/info"@, 12);
    lemma_differ_at(p, "/blockchain/blockcount"@, 17);
    lemma_differ_at(p, "/blockchain/chaintips"@, 12);
    lemma_differ_at(p, "/blockchain/difficulty"@, 12);
    lemma_differ_at(p, "/mempool/raw"@, 1);
    lemma_differ_at(p, "/mempool/txoutsetinfo"@, 1);
    lemma_differ_at(p, "/blockchain/block/"@, 17);
    lemma_differ_at(p, "/blockchain/blockfilter/"@, 17);
    assert(p.take(22) =~= pre);
    assert(starts_with(p, pre));
    assert(p.skip(22) =~= h);
    assert(single_seg(h));
    assert(height_route(h) == Ok::<u64, RouteError>(v));
}

/// Every digest-taking single-parameter route rejects a malformed digest
/// (wrong length or a non-hexadecimal character) with a client-side
/// validation error naming the parameter, never with an upstream call.
pub proof fn lemma_malformed_digest_rejected(s: Seq<char>)
    requires
        single_seg(s),
        !is_digest_str(s),
    ensures
        spec_route("/blockchain/block/"@ + s) == Err::<CallView, RouteError>(
            RouteError::BadDigest { param: Param::Hash },
        ),
        spec_route("/blockchain/blockfilter/"@ + s) == Err::<CallView, RouteError>(
            RouteError::BadDigest { param: Param::Hash },
        ),
        spec_route("/blockchain/blockheader/"@ + s) == Err::<CallView, RouteError>(
            RouteError::BadDigest { param: Param::Hash },
        ),
        spec_route("/mempool/entry/"@ + s) == Err::<CallView, RouteError>(
            RouteError::BadDigest { param: Param::Txid },
        ),
        error_status(RouteError::BadDigest { param: Param::Hash }) == 400,
        error_status(RouteError::BadDigest { param: Param::Txid }) == 400,
{
    reveal_strlit("/blockchain/bestblock");
    reveal_strlit("/blockchain/info");
    reveal_strlit("/blockchain/blockcount");
    reveal_strlit("/blockchain/chaintips");
    reveal_strlit("/blockchain/difficulty");
    reveal_strlit("/mempool/raw");
    reveal_strlit("/mempool/txoutsetinfo");
    reveal_strlit("/blockchain/block/");
    reveal_strlit("/blockchain/blockfilter/");
    reveal_strlit("/blockchain/blockhash/");
    reveal_strlit("/blockchain/blockheader/");
    reveal_strlit("/blockchain/txout/");
    reveal_strlit("/mempool/txout/");
    reveal_strlit("/mempool/entry/");
    {
        let pre = "/blockchain/block/"@;
        let p = pre + s;
        assert(p[1] == pre[1]);
        assert(p[12] == pre[12]);
        assert(p[13] == pre[13]);
        assert(p[17] == pre[17]);
        lemma_differ_at(p, "/blockchain/bestblock"@, 13);
        lemma_differ_at(p, "/blockchain/info"@, 12);
        lemma_differ_at(p, "/blockchain/blockcount"@, 17);
        lemma_differ_at(p, "/blockchain/chaintips"@, 12);
        lemma_differ_at(p, "/blockchain/difficulty"@, 12);
        lemma_differ_at(p, "/mempool/raw"@, 1);
        lemma_differ_at(p, "/mempool/txoutsetinfo"@, 1);
        assert(p.take(18) =~= pre);
        assert(starts_with(p, pre));
        assert(p.skip(18) =~= s);
    }
    {
        let pre = "/blockchain/blockfilter/"@;
        let p = pre + s;
        assert(p[1] == pre[1]);
        assert(p[12] == pre[12]);
        assert(p[13] == pre[13]);
        assert(p[17] == pre[17]);
        lemma_differ_at(p, "/blockchain/bestblock"@, 13);
        lemma_differ_at(p, "/blockchain/info"@, 12);
        lemma_differ_at(p, "/blockchain/blockcount"@, 17);
        lemma_differ_at(p, "/blockchain/chaintips"@, 12);
        lemma_differ_at(p, "/blockchain/difficulty"@, 12);
        lemma_differ_at(p, "/mempool/raw"@, 1);
        lemma_differ_at(p, "/mempool/txoutsetinfo"@, 1);
        lemma_differ_at(p, "/blockchain/block/"@, 17);
        assert(p.take(24) =~= pre);
        assert(starts_with(p, pre));
        assert(p.skip(24) =~= s);
    }
    {
        let pre = "/blockchain/blockheader/"@;
        let p = pre + s;
        assert(p[1] == pre[1]);
        assert(p[12] == pre[12]);
        assert(p[13] == pre[13]);
        assert(p[17] == pre[17]);
        assert(p[18] == pre[18]);
        lemma_differ_at(p, "/blockchain/bestblock"@, 13);
        lemma_differ_at(p, "/blockchain/info"@, 12);
        lemma_differ_at(p, "/blockchain/blockcount"@, 17);
        lemma_differ_at(p, "/blockchain/chaintips"@, 12);
        lemma_differ_at(p, "/blockchain/difficulty"@, 12);
        lemma_differ_at(p, "/mempool/raw"@, 1);
        lemma_differ_at(p, "/mempool/txoutsetinfo"@, 1);
        lemma_differ_at(p, "/blockchain/block/"@, 17);
        lemma_differ_at(p, "/blockchain/blockfilter/"@, 17);
        lemma_differ_at(p, "/blockchain/blockhash/"@, 18);
        assert(p.take(24) =~= pre);
        assert(starts_with(p, pre));
        assert(p.skip(24) =~= s);
    }
    {
        let pre = "/mempool/entry/"@;
        let p = pre + s;
        assert(p[1] == pre[1]);
        assert(p[9] == pre[9]);
        lemma_differ_at(p, "/blockchain/bestblock"@, 1);
        lemma_differ_at(p, "/blockchain/info"@, 1);
        lemma_differ_at(p, "/blockchain/blockcount"@, 1);
        lemma_differ_at(p, "/blockchain/chaintips"@, 1);
        lemma_differ_at(p, "/blockchain/difficulty"@, 1);
        lemma_differ_at(p, "/mempool/raw"@, 9);
        lemma_differ_at(p, "/mempool/txoutsetinfo"@, 9);
        lemma_differ_at(p, "/blockchain/block/"@, 1);
        lemma_differ_at(p, "/blockchain/blockfilter/"@, 1);
        lemma_differ_at(p, "/blockchain/blockhash/"@, 1);
        lemma_differ_at(p, "/blockchain/blockheader/"@, 1);
        lemma_differ_at(p, "/blockchain/txout/"@, 1);
        lemma_differ_at(p, "/mempool/txout/"@, 9);
        assert(p.take(15) =~= pre);
        assert(starts_with(p, pre));
        assert(p.skip(15) =~= s);
    }
}

/// The two output-lookup routes translate any common remainder to the
/// identical upstream call, differing only in the mempool-inclusion
/// flag: absent (false) on the confirmed-only route, true on the
/// mempool-inclusive route. They also fail identically.
pub proof fn lemma_txout_routes_parallel(rest: Seq<char>)
    ensures
        spec_route("/blockchain/txout/"@ + rest) == txout_route(rest, false),
        spec_route("/mempool/txout/"@ + rest) == txout_route(rest, true),
        txout_route(rest, false) is Ok <==> txout_route(rest, true) is Ok,
        txout_route(rest, false) matches Err(e) ==> txout_route(rest, true) == Err::<
            CallView,
            RouteError,
        >(e),
        txout_route(rest, false) matches Ok(c) ==> c is GetTxOut,
        txout_route(rest, false) matches Ok(CallView::GetTxOut { txid, vout, include_mempool })
            ==> include_mempool == false && txout_route(rest, true) == Ok::<CallView, RouteError>(
            CallView::GetTxOut { txid, vout, include_mempool: true },
        ),
{
    reveal_strlit("/blockchain/bestblock");
    reveal_strlit("/blockchain/info");
    reveal_strlit("/blockchain/blockcount");
    reveal_strlit("/blockchain/chaintips");
    reveal_strlit("/blockchain/difficulty");
    reveal_strlit("/mempool/raw");
    reveal_strlit("/mempool/txoutsetinfo");
    reveal_strlit("/blockchain/block/");
    reveal_strlit("/blockchain/blockfilter/");
    reveal_strlit("/blockchain/blockhash/");
    reveal_strlit("/blockchain/blockheader/");
    reveal_strlit("/blockchain/txout/");
    reveal_strlit("/mempool/txout/");
    {
        let pre = "/blockchain/txout/"@;
        let p = pre + rest;
        assert(p[1] == pre[1]);
        assert(p[12] == pre[12]);
        lemma_differ_at(p, "/blockchain/bestblock"@, 12);
        lemma_differ_at(p, "/blockchain/info"@, 12);
        lemma_differ_at(p, "/blockchain/blockcount"@, 12);
        lemma_differ_at(p, "/blockchain/chaintips"@, 12);
        lemma_differ_at(p, "/blockchain/difficulty"@, 12);
        lemma_differ_at(p, "/mempool/raw"@, 1);
        lemma_differ_at(p, "/mempool/txoutsetinfo"@, 1);
        lemma_differ_at(p, "/blockchain/block/"@, 12);
        lemma_differ_at(p, "/blockchain/blockfilter/"@, 12);
        lemma_differ_at(p, "/blockchain/blockhash/"@, 12);
        lemma_differ_at(p, "/blockchain/blockheader/"@, 12);
        assert(p.take(18) =~= pre);
        assert(starts_with(p, pre));
        assert(p.skip(18) =~= rest);
    }
    {
        let pre = "/mempool/txout/"@;
        let p = pre + rest;
        assert(p[1] == pre[1]);
        assert(p[9] == pre[9]);
        assert(p[14] == pre[14]);
        lemma_differ_at(p, "/blockchain/bestblock"@, 1);
        lemma_differ_at(p, "/blockchain/info"@, 1);
        lemma_differ_at(p, "/blockchain/blockcount"@, 1);
        lemma_differ_at(p, "/blockchain/chaintips"@, 1);
        lemma_differ_at(p, "/blockchain/difficulty"@, 1);
        lemma_differ_at(p, "/mempool/raw"@, 9);
        lemma_differ_at(p, "/mempool/txoutsetinfo"@, 14);
        lemma_differ_at(p, "/blockchain/block/"@, 1);
        lemma_differ_at(p, "/blockchain/blockfilter/"@, 1);
        lemma_differ_at(p, "/blockchain/blockhash/"@, 1);
        lemma_differ_at(p, "/blockchain/blockheader/"@, 1);
        lemma_differ_at(p, "/blockchain/txout/"@, 1);
        assert(p.take(15) =~= pre);
        assert(starts_with(p, pre));
        assert(p.skip(15) =~= rest);
    }
}

/// The split of a well-shaped output-lookup remainder is exactly its two
/// segments.
pub proof fn lemma_txout_split_exact(t: Seq<char>, v: Seq<char>)
    requires
        t.len() > 0,
        slash_free(t),
        v.len() > 0,
        slash_free(v),
    ensures
        txout_split(t + seq!['/'] + v + seq!['/']) == Some((t, v)),
{
    let rest = t + seq!['/'] + v + seq!['/'];
    let m = t.len() as int;
    assert(rest.len() == t.len() + v.len() + 2);
    assert(rest[m] == '/');
    assert forall|j: int| 0 <= j < m implies rest[j] != '/' by {
        assert(rest[j] == t[j]);
    }
    lemma_first_slash_at(rest, m);
    assert(first_slash(rest) == m);
    assert(rest.last() == '/');
    let mid = rest.subrange(m + 1, rest.len() - 1);
    assert forall|j: int| 0 <= j < mid.len() implies mid[j] == v[j] by {
        assert(mid[j] == rest[m + 1 + j]);
    }
    assert(mid =~= v);
    assert(rest.take(m) =~= t);
}

/// A well-shaped output lookup whose txid segment is malformed is
/// rejected by both output routes with the same txid validation error,
/// before any upstream call.
pub proof fn lemma_malformed_txid_rejected(t: Seq<char>, v: Seq<char>)
    requires
        t.len() > 0,
        slash_free(t),
        !is_digest_str(t),
        v.len() > 0,
        slash_free(v),
    ensures
        spec_route("/blockchain/txout/"@ + (t + seq!['/'] + v + seq!['/'])) == Err::<
            CallView,
            RouteError,
        >(RouteError::BadDigest { param: Param::Txid }),
        spec_route("/mempool/txout/"@ + (t + seq!['/'] + v + seq!['/'])) == Err::<
            CallView,
            RouteError,
        >(RouteError::BadDigest { param: Param::Txid }),
{
    let rest = t + seq!['/'] + v + seq!['/'];
    lemma_txout_split_exact(t, v);
    lemma_txout_routes_parallel(rest);
}

} // verus!
