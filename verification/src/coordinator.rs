//! The coordinator's live peer registry (`GET /v1/nodes`) and the live status
//! derived from it.
//!
//! The indexer's own database only holds historical data. Whether a node is
//! online right now lives only in the coordinator's registry; this module
//! turns a fetched registry snapshot into per-node live status.

use vstd::prelude::*;

use crate::text::{spec_trim_trailing_slashes, str_eq, trim_trailing_slashes};

verus! {

broadcast use vstd::std_specs::vec::axiom_spec_into_iter;

/// One node as returned by the coordinator's `GET /v1/nodes`.
#[derive(Debug, Clone, PartialEq, Eq)]
pub struct CoordinatorNode {
    pub peer_id: String,
    pub models: Vec<String>,
    pub max_concurrent_jobs: u32,
    pub multiaddrs: Vec<String>,
    pub last_seen_ms: u64,
}

/// A node enriched with derived live status for API responses.
#[derive(Debug, Clone, PartialEq, Eq)]
pub struct LiveNode {
    pub peer_id: String,
    pub online: bool,
    pub last_seen_ms: u64,
    pub seconds_since_seen: u64,
    pub models: Vec<String>,
    pub max_concurrent_jobs: u32,
    pub multiaddrs: Vec<String>,
}

/// Where and how to reach the coordinator, and when a node counts as online.
#[derive(Debug, Clone, PartialEq, Eq)]
pub struct CoordinatorClient {
    base_url: String,
    insecure: bool,
    online_ttl_secs: u64,
}

/// Whole seconds from `last_seen_ms` to `now_ms`; zero when the clock puts
/// `last_seen_ms` in the future.
pub open spec fn spec_seconds_since(last_seen_ms: u64, now_ms: u64) -> u64 {
    if last_seen_ms <= now_ms {
        ((now_ms - last_seen_ms) / 1000) as u64
    } else {
        0
    }
}

/// The live status of registry entry `n` at time `now_ms`: online exactly when
/// it was seen less than `ttl_secs` whole seconds ago.
pub open spec fn spec_to_live(n: CoordinatorNode, ttl_secs: u64, now_ms: u64) -> LiveNode {
    LiveNode {
        peer_id: n.peer_id,
        online: spec_seconds_since(n.last_seen_ms, now_ms) < ttl_secs,
        last_seen_ms: n.last_seen_ms,
        seconds_since_seen: spec_seconds_since(n.last_seen_ms, now_ms),
        models: n.models,
        max_concurrent_jobs: n.max_concurrent_jobs,
        multiaddrs: n.multiaddrs,
    }
}

/// The live status of every registry entry, in registry order.
pub open spec fn spec_live_all(nodes: Seq<CoordinatorNode>, ttl_secs: u64, now_ms: u64) -> Seq<
    LiveNode,
> {
    nodes.map_values(|n: CoordinatorNode| spec_to_live(n, ttl_secs, now_ms))
}

/// `r` is the first node of `nodes` whose peer id is `peer_id`, or `None`
/// where there is none.
pub open spec fn spec_is_first_match(nodes: Seq<LiveNode>, peer_id: Seq<char>, r: Option<LiveNode>) -> bool {
    match r {
        Some(l) => exists|i: int|
            0 <= i < nodes.len() && #[trigger] nodes[i] == l && nodes[i].peer_id@ == peer_id
                && forall|j: int| 0 <= j < i ==> (#[trigger] nodes[j]).peer_id@ != peer_id,
        None => forall|j: int| 0 <= j < nodes.len() ==> (#[trigger] nodes[j]).peer_id@ != peer_id,
    }
}

impl CoordinatorClient {
    pub fn new(base_url: String, insecure: bool, online_ttl_secs: u64) -> (r: Self)
        ensures
            r.base_url() == base_url@,
            r.insecure() == insecure,
            r.online_ttl_secs() == online_ttl_secs,
    {
        CoordinatorClient { base_url, insecure, online_ttl_secs }
    }

    pub closed spec fn base_url(&self) -> Seq<char> {
        self.base_url@
    }

    pub closed spec fn online_ttl_secs(&self) -> u64 {
        self.online_ttl_secs
    }

    pub closed spec fn insecure(&self) -> bool {
        self.insecure
    }

    /// Whether the coordinator's self-signed TLS certificate is to be accepted.
    pub fn accepts_invalid_certs(&self) -> (r: bool)
        ensures
            r == self.insecure(),
    {
        self.insecure
    }

    /// Seconds within which a node's last announcement counts as online.
    pub fn online_ttl(&self) -> (r: u64)
        ensures
            r == self.online_ttl_secs(),
    {
        self.online_ttl_secs
    }

    /// The registry URL: the base URL without trailing slashes, then `/v1/nodes`.
    pub fn nodes_url(&self) -> (r: String)
        ensures
            r@ == spec_trim_trailing_slashes(self.base_url()) + "/v1/nodes"@,
    {
        let base = trim_trailing_slashes(self.base_url.as_str());
        base.concat("/v1/nodes")
    }

    /// Derives the live status of one registry entry at `now_ms`.
    pub fn to_live(&self, n: CoordinatorNode, now_ms: u64) -> (r: LiveNode)
        ensures
            r == spec_to_live(n, self.online_ttl_secs(), now_ms),
            n.last_seen_ms <= now_ms ==> r.seconds_since_seen == (now_ms - n.last_seen_ms) / 1000,
            n.last_seen_ms > now_ms ==> r.seconds_since_seen == 0,
            r.online == (r.seconds_since_seen < self.online_ttl_secs()),
    {
        // saturating_sub guards against clock skew making last_seen > now.
        let seconds_since_seen = now_ms.saturating_sub(n.last_seen_ms) / 1000;
        LiveNode {
            online: seconds_since_seen < self.online_ttl_secs,
            peer_id: n.peer_id,
            last_seen_ms: n.last_seen_ms,
            seconds_since_seen,
            models: n.models,
            max_concurrent_jobs: n.max_concurrent_jobs,
            multiaddrs: n.multiaddrs,
        }
    }

    /// The live status of every node of a fetched registry snapshot, in order.
    pub fn live_nodes(&self, nodes: Vec<CoordinatorNode>, now_ms: u64) -> (r: Vec<LiveNode>)
        ensures
            r@ == spec_live_all(nodes@, self.online_ttl_secs(), now_ms),
            r@.len() == nodes@.len(),
            forall|i: int|
                0 <= i < nodes@.len() ==> #[trigger] r@[i] == spec_to_live(
                    nodes@[i],
                    self.online_ttl_secs(),
                    now_ms,
                ),
    {
        let ghost all = nodes@;
        let mut out: Vec<LiveNode> = Vec::new();
        for n in it: nodes
            invariant
                it.seq() == all,
                out@.len() == it.index(),
                forall|j: int|
                    0 <= j < it.index() ==> #[trigger] out@[j] == spec_to_live(
                        all[j],
                        self.online_ttl_secs(),
                        now_ms,
                    ),
        {
            out.push(self.to_live(n, now_ms));
        }
        assert(out@ =~= spec_live_all(all, self.online_ttl_secs(), now_ms));
        proof {
            lemma_live_list_one_per_node(all, self.online_ttl_secs(), now_ms);
        }
        out
    }

    /// The live status of one node of a fetched registry snapshot: the first
    /// entry with this peer id, or `None` if the coordinator does not know it.
    pub fn live_node(&self, nodes: Vec<CoordinatorNode>, now_ms: u64, peer_id: &str) -> (r:
        Option<LiveNode>)
        ensures
            spec_is_first_match(spec_live_all(nodes@, self.online_ttl_secs(), now_ms), peer_id@, r),
            r is Some <==> exists|i: int|
                0 <= i < nodes@.len() && (#[trigger] nodes@[i]).peer_id@ == peer_id@,
            r matches Some(l) ==> l.peer_id@ == peer_id@,
    {
        let ghost all = nodes@;
        let live = self.live_nodes(nodes, now_ms);
        let r = find_node(live, peer_id);
        proof {
            lemma_lookup_finds_registry_entry(all, self.online_ttl_secs(), now_ms, peer_id@, r);
        }
        r
    }
}

/// The first node with the given peer id.
pub fn find_node(nodes: Vec<LiveNode>, peer_id: &str) -> (r: Option<LiveNode>)
    ensures
        spec_is_first_match(nodes@, peer_id@, r),
{
    let ghost all = nodes@;
    for n in it: nodes
        invariant
            it.seq() == all,
            forall|j: int| 0 <= j < it.index() ==> (#[trigger] all[j]).peer_id@ != peer_id@,
    {
        if str_eq(n.peer_id.as_str(), peer_id) {
            assert(all[it.index() as int] == n);
            return Some(n);
        }
    }
    None
}

/// A node is online exactly when it announced itself less than `ttl_secs`
/// seconds ago (whole milliseconds counted), and always when the clock puts its
/// last announcement in the future and the window is not empty.
pub proof fn lemma_online_within_ttl(n: CoordinatorNode, ttl_secs: u64, now_ms: u64)
    ensures
        n.last_seen_ms <= now_ms ==> (spec_to_live(n, ttl_secs, now_ms).online <==> now_ms
            - n.last_seen_ms < ttl_secs * 1000),
        n.last_seen_ms > now_ms ==> (spec_to_live(n, ttl_secs, now_ms).online <==> ttl_secs > 0),
{
    if n.last_seen_ms <= now_ms {
        let d = (now_ms - n.last_seen_ms) as int;
        let t = ttl_secs as int;
        assert((d / 1000 < t) <==> (d < t * 1000)) by (nonlinear_arith)
            requires
                d >= 0,
                t >= 0,
        ;
    }
}

/// As time passes without a new announcement, the seconds since a node was
/// seen never decrease, and a node that is offline stays offline.
pub proof fn lemma_staleness_grows(n: CoordinatorNode, ttl_secs: u64, t1: u64, t2: u64)
    requires
        t1 <= t2,
    ensures
        spec_to_live(n, ttl_secs, t1).seconds_since_seen <= spec_to_live(n, ttl_secs, t2).seconds_since_seen,
        !spec_to_live(n, ttl_secs, t1).online ==> !spec_to_live(n, ttl_secs, t2).online,
{
    if n.last_seen_ms <= t1 {
        let d1 = (t1 - n.last_seen_ms) as int;
        let d2 = (t2 - n.last_seen_ms) as int;
        assert(d1 / 1000 <= d2 / 1000) by (nonlinear_arith)
            requires
                0 <= d1 <= d2,
        ;
    }
}


/// The live status of a registry entry: the whole seconds elapsed since it was
/// last seen (0 when the clock puts that in the future), online exactly when
/// that is below the TTL, and the entry's own identity and capabilities.
pub proof fn lemma_live_status_fields(n: CoordinatorNode, ttl_secs: u64, now_ms: u64)
    ensures
        n.last_seen_ms <= now_ms ==> spec_to_live(n, ttl_secs, now_ms).seconds_since_seen == (now_ms
            - n.last_seen_ms) / 1000,
        n.last_seen_ms > now_ms ==> spec_to_live(n, ttl_secs, now_ms).seconds_since_seen == 0,
        spec_to_live(n, ttl_secs, now_ms).online == (spec_to_live(n, ttl_secs, now_ms).seconds_since_seen
            < ttl_secs),
        spec_to_live(n, ttl_secs, now_ms).peer_id == n.peer_id,
        spec_to_live(n, ttl_secs, now_ms).last_seen_ms == n.last_seen_ms,
        spec_to_live(n, ttl_secs, now_ms).models == n.models,
        spec_to_live(n, ttl_secs, now_ms).max_concurrent_jobs == n.max_concurrent_jobs,
        spec_to_live(n, ttl_secs, now_ms).multiaddrs == n.multiaddrs,
{
}

/// The live list has exactly one entry per registry node, in registry order,
/// offline nodes included.
pub proof fn lemma_live_list_one_per_node(nodes: Seq<CoordinatorNode>, ttl_secs: u64, now_ms: u64)
    ensures
        spec_live_all(nodes, ttl_secs, now_ms).len() == nodes.len(),
        forall|i: int|
            0 <= i < nodes.len() ==> #[trigger] spec_live_all(nodes, ttl_secs, now_ms)[i]
                == spec_to_live(nodes[i], ttl_secs, now_ms),
{
}

/// Looking a node up in the live list finds it exactly when the registry
/// holds an entry with its peer id, and then gives the live status of the
/// first such entry.
pub proof fn lemma_lookup_finds_registry_entry(
    nodes: Seq<CoordinatorNode>,
    ttl_secs: u64,
    now_ms: u64,
    peer_id: Seq<char>,
    r: Option<LiveNode>,
)
    requires
        spec_is_first_match(spec_live_all(nodes, ttl_secs, now_ms), peer_id, r),
    ensures
        r is Some <==> exists|i: int| 0 <= i < nodes.len() && (#[trigger] nodes[i]).peer_id@ == peer_id,
        r matches Some(l) ==> exists|i: int|
            0 <= i < nodes.len() && #[trigger] nodes[i].peer_id@ == peer_id && l == spec_to_live(
                nodes[i],
                ttl_secs,
                now_ms,
            ) && forall|j: int| 0 <= j < i ==> (#[trigger] nodes[j]).peer_id@ != peer_id,
{
    let live = spec_live_all(nodes, ttl_secs, now_ms);
    lemma_live_list_one_per_node(nodes, ttl_secs, now_ms);
    match r {
        Some(l) => {
            let i = choose|i: int|
                0 <= i < live.len() && #[trigger] live[i] == l && live[i].peer_id@ == peer_id
                    && forall|j: int| 0 <= j < i ==> (#[trigger] live[j]).peer_id@ != peer_id;
            assert(live[i] == spec_to_live(nodes[i], ttl_secs, now_ms));
            assert forall|j: int| 0 <= j < i implies (#[trigger] nodes[j]).peer_id@ != peer_id by {
                assert(live[j] == spec_to_live(nodes[j], ttl_secs, now_ms));
                assert(live[j].peer_id@ != peer_id);
            }
            assert(nodes[i].peer_id@ == peer_id);
        },
        None => {
            assert forall|i: int| 0 <= i < nodes.len() implies (#[trigger] nodes[i]).peer_id@ != peer_id by {
                assert(live[i] == spec_to_live(nodes[i], ttl_secs, now_ms));
                assert(live[i].peer_id@ != peer_id);
            }
        },
    }
}

} // verus!
