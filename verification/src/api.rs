//! What the HTTP API answers: pagination, node status views, error replies.

use vstd::prelude::*;

use crate::coordinator::LiveNode;
use crate::db::ReceiptRow;
use crate::json::{spec_single_member, Json};
use crate::text::str_eq;

verus! {

/// Smallest page the recent-receipts feed serves.
pub const MIN_PAGE_LIMIT: i64 = 1;

/// Largest page the recent-receipts feed serves.
pub const MAX_PAGE_LIMIT: i64 = 100;

/// How many recent receipts a node profile lists.
pub const NODE_RECENT_RECEIPTS: i64 = 50;

/// HTTP status of a reply to a request for something that does not exist.
pub const STATUS_NOT_FOUND: u16 = 404;

/// HTTP status of a reply to a request that failed inside the service.
pub const STATUS_INTERNAL_ERROR: u16 = 500;

/// Page size used by the recent-receipts feed when the query gives none.
pub fn default_limit() -> (r: i64)
    ensures
        r == 20,
{
    20
}

/// The query of `GET /api/recent`.
#[derive(Debug, PartialEq, Eq)]
pub struct Pagination {
    pub limit: i64,
    pub offset: i64,
}

/// `limit` brought into `[MIN_PAGE_LIMIT, MAX_PAGE_LIMIT]`.
pub open spec fn spec_clamp_limit(limit: i64) -> i64 {
    if limit < MIN_PAGE_LIMIT {
        MIN_PAGE_LIMIT
    } else if limit > MAX_PAGE_LIMIT {
        MAX_PAGE_LIMIT
    } else {
        limit
    }
}

impl Pagination {
    /// The page size actually served: the requested limit clamped to 1..=100.
    pub fn effective_limit(&self) -> (r: i64)
        ensures
            r == spec_clamp_limit(self.limit),
            MIN_PAGE_LIMIT <= r <= MAX_PAGE_LIMIT,
            MIN_PAGE_LIMIT <= self.limit <= MAX_PAGE_LIMIT ==> r == self.limit,
            self.limit > 100 ==> r == 100,
            self.limit < 1 ==> r == 1,
    {
        if self.limit < MIN_PAGE_LIMIT {
            MIN_PAGE_LIMIT
        } else if self.limit > MAX_PAGE_LIMIT {
            MAX_PAGE_LIMIT
        } else {
            self.limit
        }
    }
}

/// A live node with its lifetime job count.
#[derive(Debug, PartialEq, Eq)]
pub struct NodeStatus {
    pub live: LiveNode,
    /// Jobs served as primary (lifetime), from routing receipts.
    pub jobs_served: i64,
}

/// A node's live details and history.
#[derive(Debug, PartialEq, Eq)]
pub struct NodeProfile {
    pub peer_id: String,
    /// Live status from the coordinator's peer registry; `None` if the node is
    /// not currently known to the coordinator (offline/evicted) or the
    /// coordinator could not be asked.
    pub live: Option<LiveNode>,
    pub jobs_served: i64,
    pub recent_receipts: Vec<ReceiptRow>,
}

/// The count of the last pair for `peer_id` (a later pair overrides an
/// earlier one, as when the pairs are collected into a map), if any.
pub open spec fn spec_last_count(counts: Seq<(String, i64)>, peer_id: Seq<char>) -> Option<i64>
    decreases counts.len(),
{
    if counts.len() == 0 {
        None
    } else if counts.last().0@ == peer_id {
        Some(counts.last().1)
    } else {
        spec_last_count(counts.drop_last(), peer_id)
    }
}

/// The lifetime job count of `peer_id`, 0 for a node with no receipts.
pub open spec fn spec_jobs_served(counts: Seq<(String, i64)>, peer_id: Seq<char>) -> i64 {
    match spec_last_count(counts, peer_id) {
        Some(c) => c,
        None => 0,
    }
}

/// Looks up a node's job count among the `(peer_id, count)` pairs of the
/// grouped query.
pub fn jobs_served_for(counts: &Vec<(String, i64)>, peer_id: &str) -> (r: i64)
    ensures
        r == spec_jobs_served(counts@, peer_id@),
        forall|i: int|
            0 <= i < counts@.len() && (#[trigger] counts@[i]).0@ == peer_id@ && (forall|j: int|
                0 <= j < counts@.len() && j != i ==> (#[trigger] counts@[j]).0@ != peer_id@)
                ==> r == counts@[i].1,
        (forall|j: int| 0 <= j < counts@.len() ==> (#[trigger] counts@[j]).0@ != peer_id@) ==> r == 0,
{
    let n = counts.len();
    let mut found: Option<i64> = None;
    let mut i: usize = 0;
    while i < n
        invariant
            i <= n,
            n == counts@.len(),
            found == spec_last_count(counts@.take(i as int), peer_id@),
        decreases n - i,
    {
        assert(counts@.take(i + 1).drop_last() =~= counts@.take(i as int));
        assert(counts@.take(i + 1).last() == counts@[i as int]);
        if str_eq(counts[i].0.as_str(), peer_id) {
            found = Some(counts[i].1);
        }
        i = i + 1;
    }
    assert(counts@.take(n as int) =~= counts@);
    proof {
        assert forall|i: int|
            0 <= i < counts@.len() && (#[trigger] counts@[i]).0@ == peer_id@ && (forall|j: int|
                0 <= j < counts@.len() && j != i ==> (#[trigger] counts@[j]).0@ != peer_id@)
            implies spec_jobs_served(counts@, peer_id@) == counts@[i].1 by {
            lemma_jobs_served_exact_match(counts@, peer_id@, i);
        }
        if forall|j: int| 0 <= j < counts@.len() ==> (#[trigger] counts@[j]).0@ != peer_id@ {
            lemma_jobs_served_absent(counts@, peer_id@);
        }
    }
    match found {
        Some(c) => c,
        None => 0,
    }
}

/// Attaches each live node's job count, keeping the live nodes' order.
pub fn node_statuses(live: Vec<LiveNode>, counts: &Vec<(String, i64)>) -> (r: Vec<NodeStatus>)
    ensures
        r@.len() == live@.len(),
        forall|i: int|
            0 <= i < r@.len() ==> (#[trigger] r@[i]).live == live@[i] && r@[i].jobs_served
                == spec_jobs_served(counts@, live@[i].peer_id@),
{
    let ghost all = live@;
    let mut out: Vec<NodeStatus> = Vec::new();
    for n in it: live
        invariant
            it.seq() == all,
            out@.len() == it.index(),
            forall|j: int|
                0 <= j < it.index() ==> (#[trigger] out@[j]).live == all[j] && out@[j].jobs_served
                    == spec_jobs_served(counts@, all[j].peer_id@),
    {
        let jobs_served = jobs_served_for(counts, n.peer_id.as_str());
        out.push(NodeStatus { live: n, jobs_served });
    }
    out
}

/// The live part of a node profile is best-effort: a failed registry lookup
/// reads as "not known right now".
fn live_or_unknown(lookup: Result<Option<LiveNode>, String>) -> (r: Option<LiveNode>)
    ensures
        r == match lookup {
            Ok(l) => l,
            Err(_) => None,
        },
{
    match lookup {
        Ok(l) => l,
        Err(_) => None,
    }
}

/// Assembles a node profile; the registry lookup may have failed.
pub fn node_profile(
    peer_id: String,
    lookup: Result<Option<LiveNode>, String>,
    jobs_served: i64,
    recent_receipts: Vec<ReceiptRow>,
) -> (r: NodeProfile)
    ensures
        r.peer_id == peer_id,
        r.live == match lookup {
            Ok(l) => l,
            Err(_) => None,
        },
        r.jobs_served == jobs_served,
        r.recent_receipts == recent_receipts,
{
    NodeProfile { peer_id, live: live_or_unknown(lookup), jobs_served, recent_receipts }
}

/// Why a request could not be answered.
#[derive(Debug, PartialEq, Eq)]
pub enum ApiError {
    NotFound,
    /// An internal failure, with its description (for the log, not the reply).
    Internal(String),
}

impl ApiError {
    /// The HTTP status of the reply.
    pub fn status_code(&self) -> (r: u16)
        ensures
            r == match self {
                ApiError::NotFound => STATUS_NOT_FOUND,
                ApiError::Internal(_) => STATUS_INTERNAL_ERROR,
            },
    {
        match self {
            ApiError::NotFound => STATUS_NOT_FOUND,
            ApiError::Internal(_) => STATUS_INTERNAL_ERROR,
        }
    }

    /// The JSON body of the reply; an internal failure's description is not
    /// disclosed.
    pub fn body(&self) -> (r: Json)
        ensures
            self is NotFound ==> spec_single_member("error"@, "not found"@, r),
            self is Internal ==> spec_single_member("error"@, "internal error"@, r),
    {
        match self {
            ApiError::NotFound => Json::single_member("error", "not found"),
            ApiError::Internal(_) => Json::single_member("error", "internal error"),
        }
    }
}

/// The body of `GET /health`.
pub fn health_body() -> (r: Json)
    ensures
        spec_single_member("status"@, "ok"@, r),
{
    Json::single_member("status", "ok")
}

/// A receipt lookup that found nothing is answered with "not found".
pub fn require_receipt(found: Option<ReceiptRow>) -> (r: Result<ReceiptRow, ApiError>)
    ensures
        match found {
            Some(row) => r == Ok::<ReceiptRow, ApiError>(row),
            None => r matches Err(ApiError::NotFound),
        },
{
    match found {
        Some(row) => Ok(row),
        None => Err(ApiError::NotFound),
    }
}


/// A requested page size above 100 is served as 100, one below 1 as 1, and
/// one in between as asked.
pub proof fn lemma_limit_goes_to_nearest_bound(limit: i64)
    ensures
        limit > 100 ==> spec_clamp_limit(limit) == 100,
        limit < 1 ==> spec_clamp_limit(limit) == 1,
        1 <= limit <= 100 ==> spec_clamp_limit(limit) == limit,
{
}

/// A node's job count is the count of the pair whose peer id is exactly its
/// own when there is one such pair (as the grouped query gives them), and 0
/// when no pair has its peer id.
pub proof fn lemma_jobs_served_exact_match(counts: Seq<(String, i64)>, peer_id: Seq<char>, i: int)
    requires
        0 <= i < counts.len(),
        counts[i].0@ == peer_id,
        forall|j: int| 0 <= j < counts.len() && j != i ==> (#[trigger] counts[j]).0@ != peer_id,
    ensures
        spec_jobs_served(counts, peer_id) == counts[i].1,
    decreases counts.len(),
{
    if i == counts.len() - 1 {
    } else {
        let rest = counts.drop_last();
        assert(counts.last() == counts[counts.len() - 1]);
        assert forall|j: int| 0 <= j < rest.len() && j != i implies (#[trigger] rest[j]).0@ != peer_id by {
            assert(rest[j] == counts[j]);
        }
        assert(rest[i] == counts[i]);
        lemma_jobs_served_exact_match(rest, peer_id, i);
    }
}

/// A node that no pair names has served no jobs.
pub proof fn lemma_jobs_served_absent(counts: Seq<(String, i64)>, peer_id: Seq<char>)
    requires
        forall|j: int| 0 <= j < counts.len() ==> (#[trigger] counts[j]).0@ != peer_id,
    ensures
        spec_jobs_served(counts, peer_id) == 0,
    decreases counts.len(),
{
    if counts.len() > 0 {
        let rest = counts.drop_last();
        assert(counts.last() == counts[counts.len() - 1]);
        assert forall|j: int| 0 <= j < rest.len() implies (#[trigger] rest[j]).0@ != peer_id by {
            assert(rest[j] == counts[j]);
        }
        lemma_jobs_served_absent(rest, peer_id);
    }
}

} // verus!
