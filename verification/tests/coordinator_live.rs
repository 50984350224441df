use pinaivu_indexer::coordinator::{find_node, CoordinatorClient, CoordinatorNode, LiveNode};

fn node(peer_id: &str, last_seen_ms: u64) -> CoordinatorNode {
    CoordinatorNode {
        peer_id: peer_id.to_string(),
        models: vec!["llama".to_string()],
        max_concurrent_jobs: 4,
        multiaddrs: vec!["/ip4/1.2.3.4/tcp/1".to_string()],
        last_seen_ms,
    }
}

fn client(ttl: u64) -> CoordinatorClient {
    CoordinatorClient::new("https://coord:4000".to_string(), false, ttl)
}

#[test]
fn nodes_url_strips_trailing_slashes() {
    let c = CoordinatorClient::new("https://coord:4000///".to_string(), true, 90);
    assert_eq!(c.nodes_url(), "https://coord:4000/v1/nodes");
    assert_eq!(client(90).nodes_url(), "https://coord:4000/v1/nodes");
    assert_eq!(CoordinatorClient::new("/".to_string(), false, 1).nodes_url(), "/v1/nodes");
    assert!(c.accepts_invalid_certs());
    assert_eq!(c.online_ttl(), 90);
}

#[test]
fn seen_recently_is_online() {
    let l = client(90).to_live(node("a", 1_000), 11_999);
    assert_eq!(l.seconds_since_seen, 10);
    assert!(l.online);
    assert_eq!(l.peer_id, "a");
    assert_eq!(l.last_seen_ms, 1_000);
    assert_eq!(l.max_concurrent_jobs, 4);
    assert_eq!(l.models, vec!["llama".to_string()]);
}

#[test]
fn online_window_is_whole_seconds_below_ttl() {
    // 89.999 s ago: 89 whole seconds, online with a 90 s window.
    assert!(client(90).to_live(node("a", 0), 89_999).online);
    // 90 s ago: offline.
    let l = client(90).to_live(node("a", 0), 90_000);
    assert_eq!(l.seconds_since_seen, 90);
    assert!(!l.online);
    // A zero window means never online.
    assert!(!client(0).to_live(node("a", 5), 5).online);
}

#[test]
fn clock_skew_counts_as_just_seen() {
    let l = client(90).to_live(node("a", 50_000), 10_000);
    assert_eq!(l.seconds_since_seen, 0);
    assert!(l.online);
}

#[test]
fn live_nodes_keeps_order() {
    let nodes = vec![node("b", 0), node("a", 100_000), node("c", 99_000)];
    let live = client(2).live_nodes(nodes, 100_500);
    let ids: Vec<&str> = live.iter().map(|l| l.peer_id.as_str()).collect();
    assert_eq!(ids, vec!["b", "a", "c"]);
    let online: Vec<bool> = live.iter().map(|l| l.online).collect();
    assert_eq!(online, vec![false, true, true]);
}

#[test]
fn live_node_finds_the_first_match_or_none() {
    let nodes = vec![node("a", 1), node("b", 2), node("b", 3)];
    let found = client(90).live_node(nodes, 10, "b").unwrap();
    assert_eq!(found.last_seen_ms, 2);
    assert!(client(90).live_node(vec![node("a", 1)], 10, "z").is_none());
    assert!(client(90).live_node(vec![], 10, "a").is_none());
}

#[test]
fn find_node_compares_whole_ids() {
    let live: Vec<LiveNode> = client(90).live_nodes(vec![node("ab", 1), node("a", 2)], 10);
    assert_eq!(find_node(live, "a").unwrap().last_seen_ms, 2);
}

#[test]
fn staleness_only_grows_until_the_next_announcement() {
    let c = client(3);
    let times = [500u64, 1_000, 2_999, 3_000, 3_500, 10_000];
    let seen: Vec<(u64, bool)> = times
        .iter()
        .map(|&t| {
            let l = c.to_live(node("a", 500), t);
            (l.seconds_since_seen, l.online)
        })
        .collect();
    assert_eq!(seen, vec![(0, true), (0, true), (2, true), (2, true), (3, false), (9, false)]);
}
